//! Dynamic roles: how a role's identity, storage and tools are normalized,
//! how the registry of roles is kept, and what the governance views show.
use vstd::prelude::*;

use crate::persona::{alias_spec, slug_spec, PersonaKind};
use crate::terminal::push_line;
use crate::text::{
    chars_eq, chars_eq_str, chars_to_string, dec_spec, has_char, join_chars, join_lines, join_lines_exec, join_spec,
    lower_chars, lower_spec, push_chars, push_dec, push_str, str_chars, trim_chars, trim_spec, views,
};

verus! {

/// How many enabled roles get a tab of their own.
pub const ROLE_TAB_LIMIT: usize = 15;

/// How many copies one persona or role may have.
pub const ROLE_COPY_LIMIT: usize = 3;

// ---------------------------------------------------------------------------
// Types
// ---------------------------------------------------------------------------

/// How a role's context is kept small.
#[derive(Debug, Clone, PartialEq, Eq)]
pub struct ContextGovernanceSpec {
    pub mode: String,
    pub manage_threshold_kb: u64,
    pub compact_threshold_kb: u64,
    pub report_to_matrix: bool,
}

impl Default for ContextGovernanceSpec {
    fn default() -> (r: Self)
        ensures
            r.mode@ == "advisor_managed"@,
            r.manage_threshold_kb == 800,
            r.compact_threshold_kb == 1000,
            r.report_to_matrix,
    {
        ContextGovernanceSpec {
            mode: chars_to_string(&str_chars("advisor_managed")),
            manage_threshold_kb: 800,
            compact_threshold_kb: 1000,
            report_to_matrix: true,
        }
    }
}

/// Why a role was refused.
#[derive(Debug, Clone, PartialEq, Eq)]
pub enum RoleError {
    EmptyId,
    BadIdStart,
    BadIdChars,
    IdIsPersona(String),
    ContextDirPath(String),
    ContextDirReserved(String),
    UnknownBasePersona(String),
    TooManyManaged { id: String, count: usize },
    CopyLimit(String),
    CopiesExhausted(String),
    DuplicateContextDir(String),
    MissingIdentity,
    MissingRoleTarget,
}

/// A refusal as plain values.
pub enum RoleErr {
    EmptyId,
    BadIdStart,
    BadIdChars,
    IdIsPersona(Seq<char>),
    ContextDirPath(Seq<char>),
    ContextDirReserved(Seq<char>),
    UnknownBasePersona(Seq<char>),
    TooManyManaged(Seq<char>, nat),
    CopyLimit(Seq<char>),
    CopiesExhausted(Seq<char>),
    DuplicateContextDir(Seq<char>),
    MissingIdentity,
    MissingRoleTarget,
}

impl View for RoleError {
    type V = RoleErr;

    open spec fn view(&self) -> RoleErr {
        match self {
            RoleError::EmptyId => RoleErr::EmptyId,
            RoleError::BadIdStart => RoleErr::BadIdStart,
            RoleError::BadIdChars => RoleErr::BadIdChars,
            RoleError::IdIsPersona(s) => RoleErr::IdIsPersona(s@),
            RoleError::ContextDirPath(s) => RoleErr::ContextDirPath(s@),
            RoleError::ContextDirReserved(s) => RoleErr::ContextDirReserved(s@),
            RoleError::UnknownBasePersona(s) => RoleErr::UnknownBasePersona(s@),
            RoleError::TooManyManaged { id, count } => RoleErr::TooManyManaged(id@, *count as nat),
            RoleError::CopyLimit(s) => RoleErr::CopyLimit(s@),
            RoleError::CopiesExhausted(s) => RoleErr::CopiesExhausted(s@),
            RoleError::DuplicateContextDir(s) => RoleErr::DuplicateContextDir(s@),
            RoleError::MissingIdentity => RoleErr::MissingIdentity,
            RoleError::MissingRoleTarget => RoleErr::MissingRoleTarget,
        }
    }
}

impl RoleError {
    pub open spec fn message_spec(self) -> Seq<char> {
        match self {
            RoleError::EmptyId => "role.id 不能为空"@,
            RoleError::BadIdStart => "role.id 必须以 ASCII 字母或下划线开头"@,
            RoleError::BadIdChars => "role.id 只能包含 ASCII 字母、数字和下划线，且长度不超过 48"@,
            RoleError::IdIsPersona(v) => "role.id 不能与内置 persona 冲突："@ + v@,
            RoleError::ContextDirPath(v) => "role.context_dir 不能包含路径分隔符或相对路径："@ + v@,
            RoleError::ContextDirReserved(v) => "role.context_dir 不能与内置目录冲突："@ + v@,
            RoleError::UnknownBasePersona(v) => "role.base_persona 无法识别："@ + v@,
            RoleError::TooManyManaged { id, count } => "一个司最多管理 4 个角色上下文；"@ + id@ + " 当前配置了 "@
                + dec_spec(count as nat) + " 个"@,
            RoleError::CopyLimit(v) => "复制同类 persona 已达到上限 3："@ + v@,
            RoleError::CopiesExhausted(v) => v@ + " 已达到最多可复制的上限 3 个"@,
            RoleError::DuplicateContextDir(v) => "动态角色 context_dir 重复："@ + v@,
            RoleError::MissingIdentity => "role_create 需要 role.id 或 role.display_name"@,
            RoleError::MissingRoleTarget => "角色操作需要 role.id 或 role_ids[0]"@,
        }
    }

    /// The refusal as the model is told it.
    pub fn message(&self) -> (r: String)
        ensures
            r@ == self.message_spec(),
    {
        let out: Vec<char> = match self {
            RoleError::EmptyId => str_chars("role.id 不能为空"),
            RoleError::BadIdStart => str_chars("role.id 必须以 ASCII 字母或下划线开头"),
            RoleError::BadIdChars => str_chars("role.id 只能包含 ASCII 字母、数字和下划线，且长度不超过 48"),
            RoleError::IdIsPersona(v) => {
                let mut o = str_chars("role.id 不能与内置 persona 冲突：");
                push_str(&mut o, v.as_str());
                o
            },
            RoleError::ContextDirPath(v) => {
                let mut o = str_chars("role.context_dir 不能包含路径分隔符或相对路径：");
                push_str(&mut o, v.as_str());
                o
            },
            RoleError::ContextDirReserved(v) => {
                let mut o = str_chars("role.context_dir 不能与内置目录冲突：");
                push_str(&mut o, v.as_str());
                o
            },
            RoleError::UnknownBasePersona(v) => {
                let mut o = str_chars("role.base_persona 无法识别：");
                push_str(&mut o, v.as_str());
                o
            },
            RoleError::TooManyManaged { id, count } => {
                let mut o = str_chars("一个司最多管理 4 个角色上下文；");
                push_str(&mut o, id.as_str());
                push_str(&mut o, " 当前配置了 ");
                push_dec(&mut o, *count as u64);
                push_str(&mut o, " 个");
                o
            },
            RoleError::CopyLimit(v) => {
                let mut o = str_chars("复制同类 persona 已达到上限 3：");
                push_str(&mut o, v.as_str());
                o
            },
            RoleError::CopiesExhausted(v) => {
                let mut o = str_chars(v.as_str());
                push_str(&mut o, " 已达到最多可复制的上限 3 个");
                o
            },
            RoleError::DuplicateContextDir(v) => {
                let mut o = str_chars("动态角色 context_dir 重复：");
                push_str(&mut o, v.as_str());
                o
            },
            RoleError::MissingIdentity => str_chars("role_create 需要 role.id 或 role.display_name"),
            RoleError::MissingRoleTarget => str_chars("角色操作需要 role.id 或 role_ids[0]"),
        };
        chars_to_string(&out)
    }
}

pub open spec fn str_result(r: Result<String, RoleError>) -> Result<Seq<char>, RoleErr> {
    match r {
        Ok(s) => Ok(s@),
        Err(e) => Err(e@),
    }
}

// ---------------------------------------------------------------------------
// Role ids
// ---------------------------------------------------------------------------

pub open spec fn dash_to_underscore(c: char) -> char {
    if c == '-' {
        '_'
    } else {
        c
    }
}

pub open spec fn is_ascii_alpha(c: char) -> bool {
    ('a' <= c && c <= 'z') || ('A' <= c && c <= 'Z')
}

pub open spec fn is_ascii_alnum(c: char) -> bool {
    is_ascii_alpha(c) || ('0' <= c && c <= '9')
}

pub open spec fn id_char_ok(c: char) -> bool {
    c == '_' || is_ascii_alnum(c)
}

/// The raw id trimmed, with `-` read as `_`, in ASCII lower case.
pub open spec fn role_id_value(raw: Seq<char>) -> Seq<char> {
    lower_spec(trim_spec(raw).map_values(|c: char| dash_to_underscore(c)))
}

/// A role id: at most 48 ASCII letters, digits and underscores, not
/// starting with a digit, and not the name of a persona.
pub open spec fn role_id_spec(raw: Seq<char>) -> Result<Seq<char>, RoleErr> {
    let v = role_id_value(raw);
    if v.len() == 0 {
        Err(RoleErr::EmptyId)
    } else if !(v[0] == '_' || is_ascii_alpha(v[0])) {
        Err(RoleErr::BadIdStart)
    } else if v.len() > 48 || exists|i: int| 1 <= i < v.len() && !id_char_ok(#[trigger] v[i]) {
        Err(RoleErr::BadIdChars)
    } else if alias_spec(v) is Some {
        Err(RoleErr::IdIsPersona(v))
    } else {
        Ok(v)
    }
}

fn is_ascii_alpha_exec(c: char) -> (r: bool)
    ensures
        r == is_ascii_alpha(c),
{
    ('a' <= c && c <= 'z') || ('A' <= c && c <= 'Z')
}

fn is_ascii_alnum_exec(c: char) -> (r: bool)
    ensures
        r == is_ascii_alnum(c),
{
    is_ascii_alpha_exec(c) || ('0' <= c && c <= '9')
}

pub fn normalize_role_id(raw: &str) -> (r: Result<String, RoleError>)
    ensures
        str_result(r) == role_id_spec(raw@),
{
    let t = trim_chars(&str_chars(raw));
    let mut mapped: Vec<char> = Vec::new();
    let mut i: usize = 0;
    while i < t.len()
        invariant
            i <= t@.len(),
            mapped@ == t@.take(i as int).map_values(|c: char| dash_to_underscore(c)),
        decreases t@.len() - i,
    {
        let c = t[i];
        mapped.push(if c == '-' { '_' } else { c });
        proof {
            assert(t@.take(i + 1) =~= t@.take(i as int).push(t@[i as int]));
            assert(mapped@ =~= t@.take(i + 1).map_values(|c: char| dash_to_underscore(c)));
        }
        i += 1;
    }
    assert(t@.take(t@.len() as int) =~= t@);
    let v = lower_chars(&mapped);
    assert(v@ == role_id_value(raw@));
    if v.len() == 0 {
        return Err(RoleError::EmptyId);
    }
    if !(v[0] == '_' || is_ascii_alpha_exec(v[0])) {
        return Err(RoleError::BadIdStart);
    }
    if v.len() > 48 {
        return Err(RoleError::BadIdChars);
    }
    let mut k: usize = 1;
    while k < v.len()
        invariant
            1 <= k <= v@.len(),
            v@ == role_id_value(raw@),
            v@.len() <= 48,
            v@[0] == '_' || is_ascii_alpha(v@[0]),
            forall|j: int| 1 <= j < k ==> id_char_ok(#[trigger] v@[j]),
        decreases v@.len() - k,
    {
        let c = v[k];
        if !(c == '_' || is_ascii_alnum_exec(c)) {
            assert(!id_char_ok(v@[k as int]));
            return Err(RoleError::BadIdChars);
        }
        k += 1;
    }
    let s = chars_to_string(&v);
    if PersonaKind::parse_alias(s.as_str()).is_some() {
        return Err(RoleError::IdIsPersona(s));
    }
    Ok(s)
}

// ---------------------------------------------------------------------------
// Display names and glyphs
// ---------------------------------------------------------------------------

pub open spec fn control_to_space(c: char) -> char {
    if c == '\r' || c == '\n' || c == '\t' {
        ' '
    } else {
        c
    }
}

pub open spec fn take_chars(s: Seq<char>, n: nat) -> Seq<char> {
    if s.len() <= n {
        s
    } else {
        s.take(n as int)
    }
}

/// Line breaks and tabs read as spaces, trimmed, at most 32 characters.
pub open spec fn display_name_spec(raw: Seq<char>) -> Seq<char> {
    take_chars(trim_spec(raw.map_values(|c: char| control_to_space(c))), 32)
}

fn take_chars_exec(s: &[char], n: usize) -> (r: Vec<char>)
    ensures
        r@ == take_chars(s@, n as nat),
{
    let end = if s.len() <= n {
        s.len()
    } else {
        n
    };
    let mut out: Vec<char> = Vec::new();
    let mut i: usize = 0;
    while i < end
        invariant
            i <= end <= s@.len(),
            out@ == s@.take(i as int),
        decreases end - i,
    {
        out.push(s[i]);
        proof {
            assert(s@.take(i + 1) =~= s@.take(i as int).push(s@[i as int]));
        }
        i += 1;
    }
    assert(s@.take(s@.len() as int) =~= s@);
    out
}

pub fn normalize_display_name(raw: &str) -> (r: String)
    ensures
        r@ == display_name_spec(raw@),
{
    let src = str_chars(raw);
    let mut mapped: Vec<char> = Vec::new();
    let mut i: usize = 0;
    while i < src.len()
        invariant
            i <= src@.len(),
            src@ == raw@,
            mapped@ == src@.take(i as int).map_values(|c: char| control_to_space(c)),
        decreases src@.len() - i,
    {
        let c = src[i];
        mapped.push(if c == '\r' || c == '\n' || c == '\t' { ' ' } else { c });
        proof {
            assert(src@.take(i + 1) =~= src@.take(i as int).push(src@[i as int]));
            assert(mapped@ =~= src@.take(i + 1).map_values(|c: char| control_to_space(c)));
        }
        i += 1;
    }
    assert(src@.take(src@.len() as int) =~= src@);
    chars_to_string(&take_chars_exec(&trim_chars(&mapped), 32))
}

/// A CJK unified ideograph, in the base block or one of its extensions.
pub open spec fn is_cjk_spec(c: char) -> bool {
    ||| ('\u{3400}' <= c && c <= '\u{4DBF}')
    ||| ('\u{4E00}' <= c && c <= '\u{9FFF}')
    ||| ('\u{F900}' <= c && c <= '\u{FAFF}')
    ||| ('\u{20000}' <= c && c <= '\u{2A6DF}')
    ||| ('\u{2A700}' <= c && c <= '\u{2B73F}')
    ||| ('\u{2B740}' <= c && c <= '\u{2B81F}')
    ||| ('\u{2B820}' <= c && c <= '\u{2CEAF}')
    ||| ('\u{2CEB0}' <= c && c <= '\u{2EBEF}')
    ||| ('\u{30000}' <= c && c <= '\u{3134F}')
}

pub fn is_cjk_ideograph(ch: char) -> (r: bool)
    ensures
        r == is_cjk_spec(ch),
{
    ('\u{3400}' <= ch && ch <= '\u{4DBF}') || ('\u{4E00}' <= ch && ch <= '\u{9FFF}') || ('\u{F900}' <= ch && ch
        <= '\u{FAFF}') || ('\u{20000}' <= ch && ch <= '\u{2A6DF}') || ('\u{2A700}' <= ch && ch <= '\u{2B73F}')
        || ('\u{2B740}' <= ch && ch <= '\u{2B81F}') || ('\u{2B820}' <= ch && ch <= '\u{2CEAF}') || ('\u{2CEB0}'
        <= ch && ch <= '\u{2EBEF}') || ('\u{30000}' <= ch && ch <= '\u{3134F}')
}

/// The index of the first ideograph at or after `i`.
pub open spec fn first_cjk_from(s: Seq<char>, i: int) -> Option<int>
    decreases s.len() - i,
{
    if i < 0 || i >= s.len() {
        None
    } else if is_cjk_spec(s[i]) {
        Some(i)
    } else {
        first_cjk_from(s, i + 1)
    }
}

/// The ASCII letters and digits that open `s`, at most `n` of them.
pub open spec fn alnum_prefix(s: Seq<char>, n: nat) -> Seq<char>
    decreases n,
{
    if n == 0 || s.len() == 0 || !is_ascii_alnum(s[0]) {
        Seq::empty()
    } else {
        seq![s[0]] + alnum_prefix(s.drop_first(), (n - 1) as nat)
    }
}

/// The first ideograph of the trimmed text with the ASCII letters and
/// digits right after it, three characters at most.
pub open spec fn glyph_spec(raw: Seq<char>) -> Option<Seq<char>> {
    let v = trim_spec(raw);
    match first_cjk_from(v, 0) {
        Some(i) => Some(seq![v[i]] + alnum_prefix(v.skip(i + 1), 2)),
        None => None,
    }
}

proof fn lemma_first_cjk_skip(s: Seq<char>, i: int, k: int)
    requires
        0 <= i <= k <= s.len(),
        forall|j: int| i <= j < k ==> !is_cjk_spec(#[trigger] s[j]),
    ensures
        first_cjk_from(s, i) == first_cjk_from(s, k),
    decreases k - i,
{
    if i < k {
        lemma_first_cjk_skip(s, i + 1, k);
    }
}

pub fn normalize_glyph(raw: &str) -> (r: Option<String>)
    ensures
        match glyph_spec(raw@) {
            Some(g) => r matches Some(s) && s@ == g,
            None => r is None,
        },
{
    let v = trim_chars(&str_chars(raw));
    let mut i: usize = 0;
    while i < v.len()
        invariant
            i <= v@.len(),
            v@ == trim_spec(raw@),
            first_cjk_from(v@, 0) == first_cjk_from(v@, i as int),
        decreases v@.len() - i,
    {
        if is_cjk_ideograph(v[i]) {
            let mut label: Vec<char> = Vec::new();
            label.push(v[i]);
            let mut k: usize = i + 1;
            let ghost rest = v@.skip(i + 1);
            proof {
                assert(rest.take(0) =~= Seq::<char>::empty());
                assert(rest.skip(0) =~= rest);
                assert(label@ =~= seq![v@[i as int]] + rest.take(0));
            }
            while k < v.len() && k - i < 3 && is_ascii_alnum_exec(v[k])
                invariant
                    i + 1 <= k <= v@.len(),
                    k <= i + 3,
                    rest == v@.skip(i + 1),
                    label@ == seq![v@[i as int]] + rest.take(k - i - 1),
                    alnum_prefix(rest, 2) == rest.take(k - i - 1) + alnum_prefix(
                        rest.skip(k - i - 1),
                        (2 - (k - i - 1)) as nat,
                    ),
                decreases v@.len() - k,
            {
                proof {
                    let m = k - i - 1;
                    let tail = rest.skip(m);
                    assert(tail[0] == v@[k as int]);
                    assert(tail.drop_first() =~= rest.skip(m + 1));
                    assert(rest.take(m + 1) =~= rest.take(m).push(v@[k as int]));
                    assert(alnum_prefix(tail, (2 - m) as nat) == seq![tail[0]] + alnum_prefix(
                        tail.drop_first(),
                        (2 - m - 1) as nat,
                    ));
                    assert(rest.take(m) + (seq![tail[0]] + alnum_prefix(rest.skip(m + 1), (2 - m - 1) as nat))
                        =~= rest.take(m + 1) + alnum_prefix(rest.skip(m + 1), (2 - (m + 1)) as nat));
                }
                label.push(v[k]);
                proof {
                    assert(label@ =~= seq![v@[i as int]] + rest.take(k + 1 - i - 1));
                }
                k += 1;
            }
            proof {
                let m = k - i - 1;
                let tail = rest.skip(m);
                assert(rest.take(0) =~= Seq::<char>::empty());
                assert(rest.skip(0) =~= rest);
                if m == 2 {
                    assert(alnum_prefix(tail, 0) =~= Seq::<char>::empty());
                } else if k == v@.len() {
                    assert(tail.len() == 0);
                } else {
                    assert(tail[0] == v@[k as int]);
                }
                assert(alnum_prefix(tail, (2 - m) as nat) =~= Seq::<char>::empty());
                assert(alnum_prefix(rest, 2) =~= rest.take(m));
            }
            return Some(chars_to_string(&label));
        }
        proof {
            lemma_first_cjk_skip(v@, i as int, i + 1);
        }
        i += 1;
    }
    None
}

// ---------------------------------------------------------------------------
// Context directories
// ---------------------------------------------------------------------------

pub open spec fn eq_ignore_case(a: Seq<char>, b: Seq<char>) -> bool {
    lower_spec(a) == lower_spec(b)
}

/// The directory names that belong to the personas or the registry.
pub open spec fn reserved_dir(v: Seq<char>) -> bool {
    ||| eq_ignore_case(v, "Matrix"@)
    ||| eq_ignore_case(v, "Advisor"@)
    ||| eq_ignore_case(v, "Coding"@)
    ||| eq_ignore_case(v, "Server"@)
    ||| eq_ignore_case(v, "_retired_roles"@)
}

pub open spec fn opt_str(o: Option<&str>) -> Option<Seq<char>> {
    match o {
        Some(s) => Some(s@),
        None => None,
    }
}

/// The trimmed value when it is not blank.
pub open spec fn nonblank(o: Option<Seq<char>>) -> Option<Seq<char>> {
    match o {
        Some(s) => if trim_spec(s).len() > 0 {
            Some(trim_spec(s))
        } else {
            None
        },
        None => None,
    }
}

/// The directory a role keeps its context in: the given name, else
/// `Role_{id}`; no path, no persona's directory, at most 64 characters.
pub open spec fn context_dir_spec(raw: Option<Seq<char>>, role_id: Seq<char>) -> Result<Seq<char>, RoleErr> {
    let v = match nonblank(raw) {
        Some(t) => t,
        None => "Role_"@ + role_id,
    };
    if v == "."@ || v == ".."@ || v.contains('/') || v.contains('\\') {
        Err(RoleErr::ContextDirPath(v))
    } else if reserved_dir(v) {
        Err(RoleErr::ContextDirReserved(v))
    } else {
        Ok(take_chars(v, 64))
    }
}

fn eq_ignore_case_exec(a: &[char], b: &str) -> (r: bool)
    ensures
        r == eq_ignore_case(a@, b@),
{
    let la = lower_chars(a);
    let lb = lower_chars(&str_chars(b));
    chars_eq(&la, &lb)
}

fn nonblank_exec(o: Option<&str>) -> (r: Option<Vec<char>>)
    ensures
        match nonblank(opt_str(o)) {
            Some(t) => r matches Some(v) && v@ == t,
            None => r is None,
        },
{
    match o {
        Some(s) => {
            let t = trim_chars(&str_chars(s));
            if t.len() > 0 {
                Some(t)
            } else {
                None
            }
        },
        None => None,
    }
}

pub fn normalize_context_dir(raw: Option<&str>, role_id: &str) -> (r: Result<String, RoleError>)
    ensures
        str_result(r) == context_dir_spec(opt_str(raw), role_id@),
{
    let v = match nonblank_exec(raw) {
        Some(t) => t,
        None => {
            let mut f = str_chars("Role_");
            push_str(&mut f, role_id);
            f
        },
    };
    let is_dot = chars_eq_str(&v, ".") || chars_eq_str(&v, "..");
    if is_dot || has_char(&v, '/') || has_char(&v, '\\') {
        return Err(RoleError::ContextDirPath(chars_to_string(&v)));
    }
    if eq_ignore_case_exec(&v, "Matrix") || eq_ignore_case_exec(&v, "Advisor") || eq_ignore_case_exec(&v, "Coding")
        || eq_ignore_case_exec(&v, "Server") || eq_ignore_case_exec(&v, "_retired_roles") {
        return Err(RoleError::ContextDirReserved(chars_to_string(&v)));
    }
    Ok(chars_to_string(&take_chars_exec(&v, 64)))
}

// ---------------------------------------------------------------------------
// Base persona and copy source
// ---------------------------------------------------------------------------

pub open spec fn opt_result(r: Result<Option<String>, RoleError>) -> Result<Option<Seq<char>>, RoleErr> {
    match r {
        Ok(Some(s)) => Ok(Some(s@)),
        Ok(None) => Ok(None),
        Err(e) => Err(e@),
    }
}

/// The persona a role builds on, by its short name; blank means none.
pub open spec fn base_persona_spec(raw: Option<Seq<char>>) -> Result<Option<Seq<char>>, RoleErr> {
    match nonblank(raw) {
        None => Ok(None),
        Some(t) => match alias_spec(t) {
            Some(p) => Ok(Some(slug_spec(p))),
            None => Err(RoleErr::UnknownBasePersona(t)),
        },
    }
}

pub fn normalize_base_persona(raw: Option<&str>) -> (r: Result<Option<String>, RoleError>)
    ensures
        opt_result(r) == base_persona_spec(opt_str(raw)),
{
    match nonblank_exec(raw) {
        None => Ok(None),
        Some(t) => {
            let ts = chars_to_string(&t);
            match PersonaKind::parse_alias(ts.as_str()) {
                Some(p) => Ok(Some(chars_to_string(&str_chars(p.slug())))),
                None => Err(RoleError::UnknownBasePersona(ts)),
            }
        },
    }
}

/// What a copied role was copied from: a persona's short name, or a role id.
pub open spec fn copy_source_spec(raw: Option<Seq<char>>) -> Result<Option<Seq<char>>, RoleErr> {
    match nonblank(raw) {
        None => Ok(None),
        Some(t) => match alias_spec(t) {
            Some(p) => Ok(Some(slug_spec(p))),
            None => match role_id_spec(t) {
                Ok(id) => Ok(Some(id)),
                Err(e) => Err(e),
            },
        },
    }
}

pub fn normalize_copy_source(raw: Option<&str>) -> (r: Result<Option<String>, RoleError>)
    ensures
        opt_result(r) == copy_source_spec(opt_str(raw)),
{
    match nonblank_exec(raw) {
        None => Ok(None),
        Some(t) => {
            let ts = chars_to_string(&t);
            match PersonaKind::parse_alias(ts.as_str()) {
                Some(p) => Ok(Some(chars_to_string(&str_chars(p.slug())))),
                None => match normalize_role_id(ts.as_str()) {
                    Ok(id) => Ok(Some(id)),
                    Err(e) => Err(e),
                },
            }
        },
    }
}

// ---------------------------------------------------------------------------
// Id lists
// ---------------------------------------------------------------------------

pub open spec fn strings_view(v: Seq<String>) -> Seq<Seq<char>> {
    v.map_values(|s: String| s@)
}

pub open spec fn list_result(r: Result<Vec<String>, RoleError>) -> Result<Seq<Seq<char>>, RoleErr> {
    match r {
        Ok(v) => Ok(strings_view(v@)),
        Err(e) => Err(e@),
    }
}

/// The managed role ids normalized, each kept once in first-seen order; the
/// first id that is not valid is the error.
pub open spec fn managed_ids_spec(items: Seq<Seq<char>>) -> Result<Seq<Seq<char>>, RoleErr>
    decreases items.len(),
{
    if items.len() == 0 {
        Ok(Seq::empty())
    } else {
        match managed_ids_spec(items.drop_last()) {
            Err(e) => Err(e),
            Ok(prev) => match role_id_spec(items.last()) {
                Err(e) => Err(e),
                Ok(id) => Ok(
                    if prev.contains(id) {
                        prev
                    } else {
                        prev.push(id)
                    },
                ),
            },
        }
    }
}

fn contains_string(v: &Vec<String>, s: &String) -> (r: bool)
    ensures
        r == strings_view(v@).contains(s@),
{
    let ghost sv = strings_view(v@);
    let mut i: usize = 0;
    while i < v.len()
        invariant
            i <= v@.len(),
            sv == strings_view(v@),
            forall|j: int| 0 <= j < i ==> sv[j] != s@,
        decreases v@.len() - i,
    {
        if v[i] == *s {
            assert(sv[i as int] == s@);
            return true;
        }
        i += 1;
    }
    false
}

fn push_string(v: &mut Vec<String>, s: String)
    ensures
        strings_view(final(v)@) == strings_view(old(v)@).push(s@),
{
    let ghost before = strings_view(v@);
    v.push(s);
    assert(strings_view(v@) =~= before.push(s@));
}

pub fn normalize_managed_role_ids(items: &Vec<String>) -> (r: Result<Vec<String>, RoleError>)
    ensures
        list_result(r) == managed_ids_spec(strings_view(items@)),
{
    let ghost iv = strings_view(items@);
    let mut out: Vec<String> = Vec::new();
    let mut i: usize = 0;
    assert(iv.take(0) =~= Seq::<Seq<char>>::empty());
    assert(strings_view(out@) =~= Seq::<Seq<char>>::empty());
    while i < items.len()
        invariant
            i <= items@.len(),
            iv == strings_view(items@),
            managed_ids_spec(iv.take(i as int)) == Ok::<Seq<Seq<char>>, RoleErr>(strings_view(out@)),
        decreases items@.len() - i,
    {
        proof {
            assert(iv.take(i + 1).drop_last() =~= iv.take(i as int));
        }
        match normalize_role_id(items[i].as_str()) {
            Err(e) => {
                proof {
                    assert(managed_ids_spec(iv.take(i + 1)) == Err::<Seq<Seq<char>>, RoleErr>(e@));
                    lemma_managed_err_stays(iv, i as int + 1);
                }
                return Err(e);
            },
            Ok(id) => {
                if !contains_string(&out, &id) {
                    push_string(&mut out, id);
                }
            },
        }
        i += 1;
    }
    assert(iv.take(items@.len() as int) =~= iv);
    Ok(out)
}

proof fn lemma_managed_err_stays(items: Seq<Seq<char>>, k: int)
    requires
        0 <= k <= items.len(),
        managed_ids_spec(items.take(k)) is Err,
    ensures
        managed_ids_spec(items) == managed_ids_spec(items.take(k)),
    decreases items.len() - k,
{
    if k < items.len() {
        assert(items.take(k + 1).drop_last() =~= items.take(k));
        lemma_managed_err_stays(items, k + 1);
    } else {
        assert(items.take(k) =~= items);
    }
}

/// The tool ids trimmed, blanks dropped, each kept once in first-seen order.
pub open spec fn dedup_trimmed(items: Seq<Seq<char>>) -> Seq<Seq<char>>
    decreases items.len(),
{
    if items.len() == 0 {
        Seq::empty()
    } else {
        let prev = dedup_trimmed(items.drop_last());
        let t = trim_spec(items.last());
        if t.len() == 0 || prev.contains(t) {
            prev
        } else {
            prev.push(t)
        }
    }
}

/// The tool ids of a role: the given ones, trimmed and kept once, with
/// `persona_manage` always among them.
pub open spec fn tool_ids_spec(items: Seq<Seq<char>>) -> Seq<Seq<char>> {
    let d = dedup_trimmed(items);
    if d.contains("persona_manage"@) {
        d
    } else {
        d.push("persona_manage"@)
    }
}

pub fn normalize_tool_ids(items: &Vec<String>) -> (r: Vec<String>)
    ensures
        strings_view(r@) == tool_ids_spec(strings_view(items@)),
{
    let ghost iv = strings_view(items@);
    let mut out: Vec<String> = Vec::new();
    let mut i: usize = 0;
    while i < items.len()
        invariant
            i <= items@.len(),
            iv == strings_view(items@),
            strings_view(out@) == dedup_trimmed(iv.take(i as int)),
        decreases items@.len() - i,
    {
        proof {
            assert(iv.take(i + 1).drop_last() =~= iv.take(i as int));
        }
        let tc = trim_chars(&str_chars(items[i].as_str()));
        let t = chars_to_string(&tc);
        if tc.len() > 0 && !contains_string(&out, &t) {
            push_string(&mut out, t);
        }
        i += 1;
    }
    assert(iv.take(items@.len() as int) =~= iv);
    let required = chars_to_string(&str_chars("persona_manage"));
    if !contains_string(&out, &required) {
        push_string(&mut out, required);
    }
    out
}

// ---------------------------------------------------------------------------
// Context governance
// ---------------------------------------------------------------------------

pub open spec fn clamp_kb(v: u64) -> u64 {
    if v < 32 {
        32
    } else if v > 4096 {
        4096
    } else {
        v
    }
}

/// The governance mode a name stands for.
pub open spec fn governance_mode_spec(raw: Seq<char>) -> Seq<char> {
    let m = lower_spec(trim_spec(raw));
    if m == "self_compact"@ || m == "summary_compact"@ || m == "compact"@ || m == "self"@ {
        "summary_compact"@
    } else if m == "vision_compact"@ || m == "context_vision"@ || m == "vision"@ || m == "fast"@ {
        "vision_compact"@
    } else {
        "advisor_managed"@
    }
}

pub fn normalize_context_governance(governance: ContextGovernanceSpec) -> (r: ContextGovernanceSpec)
    ensures
        r.mode@ == governance_mode_spec(governance.mode@),
        r.manage_threshold_kb == clamp_kb(governance.manage_threshold_kb),
        r.compact_threshold_kb == clamp_kb(governance.compact_threshold_kb),
        r.report_to_matrix == governance.report_to_matrix,
{
    let m = lower_chars(&trim_chars(&str_chars(governance.mode.as_str())));
    let mode: &str = if chars_eq_str(&m, "self_compact") || chars_eq_str(&m, "summary_compact") || chars_eq_str(
        &m,
        "compact",
    ) || chars_eq_str(&m, "self") {
        "summary_compact"
    } else if chars_eq_str(&m, "vision_compact") || chars_eq_str(&m, "context_vision") || chars_eq_str(&m, "vision")
        || chars_eq_str(&m, "fast") {
        "vision_compact"
    } else {
        "advisor_managed"
    };
    let clamp = |v: u64| -> (c: u64)
        ensures
            c == clamp_kb(v),
        {
            if v < 32 {
                32
            } else if v > 4096 {
                4096
            } else {
                v
            }
        };
    ContextGovernanceSpec {
        mode: chars_to_string(&str_chars(mode)),
        manage_threshold_kb: clamp(governance.manage_threshold_kb),
        compact_threshold_kb: clamp(governance.compact_threshold_kb),
        report_to_matrix: governance.report_to_matrix,
    }
}

pub open spec fn is_context_tool(t: Seq<char>) -> bool {
    t == "context_compact"@ || t == "context_summary"@ || t == "context_vision"@
}

pub open spec fn drop_context_tools(tools: Seq<Seq<char>>) -> Seq<Seq<char>>
    decreases tools.len(),
{
    if tools.len() == 0 {
        Seq::empty()
    } else {
        let prev = drop_context_tools(tools.drop_last());
        if is_context_tool(tools.last()) {
            prev
        } else {
            prev.push(tools.last())
        }
    }
}

/// The context tools a governance mode brings.
pub open spec fn mode_tools(mode: Seq<char>) -> Seq<Seq<char>> {
    if mode == "summary_compact"@ {
        seq!["context_summary"@, "context_compact"@]
    } else if mode == "vision_compact"@ {
        seq!["context_vision"@, "context_compact"@]
    } else {
        Seq::empty()
    }
}

/// A role's tools once its governance mode is applied: the context tools of
/// the mode in place of any it had.
pub open spec fn governed_tools_spec(tools: Seq<Seq<char>>, mode: Seq<char>) -> Seq<Seq<char>> {
    tool_ids_spec(drop_context_tools(tools) + mode_tools(mode))
}

fn governed_tools(tools: &Vec<String>, mode: &String) -> (r: Vec<String>)
    ensures
        strings_view(r@) == governed_tools_spec(strings_view(tools@), mode@),
{
    let ghost tv = strings_view(tools@);
    let mut kept: Vec<String> = Vec::new();
    let mut i: usize = 0;
    while i < tools.len()
        invariant
            i <= tools@.len(),
            tv == strings_view(tools@),
            strings_view(kept@) == drop_context_tools(tv.take(i as int)),
        decreases tools@.len() - i,
    {
        proof {
            assert(tv.take(i + 1).drop_last() =~= tv.take(i as int));
        }
        let t = &tools[i];
        let tc = str_chars(t.as_str());
        if !(chars_eq_str(&tc, "context_compact") || chars_eq_str(&tc, "context_summary") || chars_eq_str(
            &tc,
            "context_vision",
        )) {
            push_string(&mut kept, t.clone());
        }
        i += 1;
    }
    assert(tv.take(tools@.len() as int) =~= tv);
    let ghost base = strings_view(kept@);
    let mc = str_chars(mode.as_str());
    if chars_eq_str(&mc, "summary_compact") {
        push_string(&mut kept, chars_to_string(&str_chars("context_summary")));
        push_string(&mut kept, chars_to_string(&str_chars("context_compact")));
    } else if chars_eq_str(&mc, "vision_compact") {
        push_string(&mut kept, chars_to_string(&str_chars("context_vision")));
        push_string(&mut kept, chars_to_string(&str_chars("context_compact")));
    }
    assert(strings_view(kept@) =~= base + mode_tools(mode@));
    normalize_tool_ids(&kept)
}

// ---------------------------------------------------------------------------
// Roles
// ---------------------------------------------------------------------------

/// A role as the registry stores it.
#[derive(Debug, Clone, PartialEq, Eq)]
pub struct DynamicRoleSpec {
    pub id: String,
    pub display_name: String,
    pub glyph: Option<String>,
    pub context_dir: String,
    pub base_persona: Option<String>,
    pub copy_source: Option<String>,
    pub default_tools: Vec<String>,
    pub managed_role_ids: Vec<String>,
    pub enabled: bool,
    pub context_governance: ContextGovernanceSpec,
    pub created_at_ms: u64,
    pub updated_at_ms: u64,
}

/// How a role is named and shown.
#[derive(Debug, Clone, PartialEq, Eq)]
pub struct DynamicRoleIdentitySpec {
    pub id: String,
    pub display_name: String,
    pub glyph: Option<String>,
    pub tab_label: String,
    pub title: String,
    pub header_badge: String,
    pub assistant_en: String,
    pub assistant_zh: String,
}

/// Where a role keeps its context and its memory.
#[derive(Debug, Clone, PartialEq, Eq)]
pub struct DynamicRoleStorageSpec {
    pub context_dir: String,
    pub memory_dir: String,
}

/// What a role starts from and may use.
#[derive(Debug, Clone, PartialEq, Eq)]
pub struct DynamicRoleCapabilitySpec {
    pub base_persona: PersonaKind,
    pub default_tools: Vec<String>,
    pub enabled: bool,
    pub supports_topbar: bool,
}

#[derive(Debug, Clone, PartialEq, Eq)]
pub struct DynamicRoleContractSpec {
    pub identity: DynamicRoleIdentitySpec,
    pub storage: DynamicRoleStorageSpec,
    pub capability: DynamicRoleCapabilitySpec,
    pub context_governance: ContextGovernanceSpec,
}

pub open spec fn opt_string(o: Option<String>) -> Option<Seq<char>> {
    match o {
        Some(s) => Some(s@),
        None => None,
    }
}

/// The persona a role builds on; Coding when it names none.
pub open spec fn base_kind_spec(r: DynamicRoleSpec) -> PersonaKind {
    match opt_string(r.base_persona) {
        Some(b) => match alias_spec(b) {
            Some(p) => p,
            None => PersonaKind::Coding,
        },
        None => PersonaKind::Coding,
    }
}

pub fn role_base_persona_kind(role: &DynamicRoleSpec) -> (r: PersonaKind)
    ensures
        r == base_kind_spec(*role),
{
    match &role.base_persona {
        Some(b) => match PersonaKind::parse_alias(b.as_str()) {
            Some(p) => p,
            None => PersonaKind::Coding,
        },
        None => PersonaKind::Coding,
    }
}

pub open spec fn glyph_of(r: DynamicRoleSpec) -> Option<Seq<char>> {
    nonblank(opt_string(r.glyph))
}

pub open spec fn name_of(r: DynamicRoleSpec) -> Seq<char> {
    trim_spec(r.display_name@)
}

/// The label of a role's tab: its glyph, else the glyph in its name, else
/// the first character of its name, else the first two of its id.
pub open spec fn tab_label_spec(r: DynamicRoleSpec) -> Seq<char> {
    match glyph_of(r) {
        Some(g) => g,
        None => match glyph_spec(name_of(r)) {
            Some(g) => g,
            None => if name_of(r).len() > 0 {
                seq![name_of(r)[0]]
            } else {
                take_chars(r.id@, 2)
            },
        },
    }
}

/// The title of a role: glyph and name, once when they are the same.
pub open spec fn title_spec(r: DynamicRoleSpec) -> Seq<char> {
    let n = name_of(r);
    match glyph_of(r) {
        Some(g) => if n.len() > 0 && n != g {
            g + " "@ + n
        } else {
            g
        },
        None => if n.len() > 0 {
            n
        } else {
            r.id@
        },
    }
}

pub open spec fn name_or_id(r: DynamicRoleSpec) -> Seq<char> {
    if name_of(r).len() > 0 {
        name_of(r)
    } else {
        r.id@
    }
}

/// The contract of a role, field by field.
pub open spec fn contract_of(r: DynamicRoleSpec, c: DynamicRoleContractSpec) -> bool {
    &&& c.identity.id@ == r.id@
    &&& c.identity.display_name@ == name_of(r)
    &&& opt_string(c.identity.glyph) == glyph_of(r)
    &&& c.identity.tab_label@ == tab_label_spec(r)
    &&& c.identity.title@ == title_spec(r)
    &&& c.identity.header_badge@ == name_or_id(r)
    &&& c.identity.assistant_en@ == r.id@
    &&& c.identity.assistant_zh@ == (match glyph_of(r) {
        Some(g) => g,
        None => name_or_id(r),
    })
    &&& c.storage.context_dir@ == r.context_dir@
    &&& c.storage.memory_dir@ == r.context_dir@
    &&& c.capability.base_persona == base_kind_spec(r)
    &&& strings_view(c.capability.default_tools@) == strings_view(r.default_tools@)
    &&& c.capability.enabled == r.enabled
    &&& !c.capability.supports_topbar
    &&& governance_eq(c.context_governance, r.context_governance)
}

pub open spec fn governance_eq(a: ContextGovernanceSpec, b: ContextGovernanceSpec) -> bool {
    &&& a.mode@ == b.mode@
    &&& a.manage_threshold_kb == b.manage_threshold_kb
    &&& a.compact_threshold_kb == b.compact_threshold_kb
    &&& a.report_to_matrix == b.report_to_matrix
}

pub fn copy_governance(g: &ContextGovernanceSpec) -> (r: ContextGovernanceSpec)
    ensures
        governance_eq(r, *g),
{
    ContextGovernanceSpec {
        mode: g.mode.clone(),
        manage_threshold_kb: g.manage_threshold_kb,
        compact_threshold_kb: g.compact_threshold_kb,
        report_to_matrix: g.report_to_matrix,
    }
}

pub fn clone_strings(v: &Vec<String>) -> (r: Vec<String>)
    ensures
        strings_view(r@) == strings_view(v@),
{
    let mut out: Vec<String> = Vec::new();
    let mut i: usize = 0;
    while i < v.len()
        invariant
            i <= v@.len(),
            strings_view(out@) == strings_view(v@).take(i as int),
        decreases v@.len() - i,
    {
        push_string(&mut out, v[i].clone());
        proof {
            assert(strings_view(v@).take(i + 1) =~= strings_view(v@).take(i as int).push(v@[i as int]@));
        }
        i += 1;
    }
    assert(strings_view(v@).take(v@.len() as int) =~= strings_view(v@));
    out
}

fn nonblank_string(o: &Option<String>) -> (r: Option<String>)
    ensures
        opt_string(r) == nonblank(opt_string(*o)),
{
    match o {
        Some(s) => {
            let t = trim_chars(&str_chars(s.as_str()));
            if t.len() > 0 {
                Some(chars_to_string(&t))
            } else {
                None
            }
        },
        None => None,
    }
}

impl DynamicRoleSpec {
    /// How the role is named, stored and equipped.
    pub fn contract(&self) -> (r: DynamicRoleContractSpec)
        ensures
            contract_of(*self, r),
    {
        let name = trim_chars(&str_chars(self.display_name.as_str()));
        let glyph = nonblank_string(&self.glyph);
        let name_or_id: String = if name.len() > 0 {
            chars_to_string(&name)
        } else {
            self.id.clone()
        };
        let assistant_zh = match &glyph {
            Some(g) => g.clone(),
            None => name_or_id.clone(),
        };
        let tab_label: String = match &glyph {
            Some(g) => g.clone(),
            None => {
                let ns = chars_to_string(&name);
                match normalize_glyph(ns.as_str()) {
                    Some(g) => g,
                    None => if name.len() > 0 {
                        let mut first: Vec<char> = Vec::new();
                        first.push(name[0]);
                        assert(first@ =~= seq![name@[0]]);
                        chars_to_string(&first)
                    } else {
                        chars_to_string(&take_chars_exec(&str_chars(self.id.as_str()), 2))
                    },
                }
            },
        };
        let title: String = match &glyph {
            Some(g) => {
                let gc = str_chars(g.as_str());
                if name.len() > 0 && !chars_eq(&name, &gc) {
                    let mut t = gc;
                    push_str(&mut t, " ");
                    push_chars(&mut t, &name);
                    chars_to_string(&t)
                } else {
                    g.clone()
                }
            },
            None => name_or_id.clone(),
        };
        DynamicRoleContractSpec {
            identity: DynamicRoleIdentitySpec {
                id: self.id.clone(),
                display_name: chars_to_string(&name),
                glyph,
                tab_label,
                title,
                header_badge: name_or_id,
                assistant_en: self.id.clone(),
                assistant_zh,
            },
            storage: DynamicRoleStorageSpec {
                context_dir: self.context_dir.clone(),
                memory_dir: self.context_dir.clone(),
            },
            capability: DynamicRoleCapabilitySpec {
                base_persona: role_base_persona_kind(self),
                default_tools: clone_strings(&self.default_tools),
                enabled: self.enabled,
                supports_topbar: false,
            },
            context_governance: copy_governance(&self.context_governance),
        }
    }
}

/// An advisor manages at most four roles.
pub open spec fn management_ok(r: DynamicRoleSpec) -> bool {
    !(base_kind_spec(r) == PersonaKind::Advisor && r.managed_role_ids@.len() > 4)
}

pub fn validate_role_management_limits(role: &DynamicRoleSpec) -> (r: Result<(), RoleError>)
    ensures
        management_ok(*role) <==> r is Ok,
        r matches Err(e) ==> e@ == RoleErr::TooManyManaged(role.id@, role.managed_role_ids@.len()),
{
    if role_base_persona_kind(role) == PersonaKind::Advisor && role.managed_role_ids.len() > 4 {
        return Err(RoleError::TooManyManaged { id: role.id.clone(), count: role.managed_role_ids.len() });
    }
    Ok(())
}

/// Brings a role's tools in line with its governance mode.
pub fn sync_role_context_governance_tools(role: &mut DynamicRoleSpec)
    ensures
        strings_view(final(role).default_tools@) == governed_tools_spec(
            strings_view(old(role).default_tools@),
            old(role).context_governance.mode@,
        ),
        final(role).id == old(role).id,
        final(role).display_name == old(role).display_name,
        final(role).glyph == old(role).glyph,
        final(role).context_dir == old(role).context_dir,
        final(role).base_persona == old(role).base_persona,
        final(role).copy_source == old(role).copy_source,
        final(role).managed_role_ids == old(role).managed_role_ids,
        final(role).enabled == old(role).enabled,
        final(role).context_governance == old(role).context_governance,
        final(role).created_at_ms == old(role).created_at_ms,
        final(role).updated_at_ms == old(role).updated_at_ms,
{
    let tools = governed_tools(&role.default_tools, &role.context_governance.mode);
    role.default_tools = tools;
}

// ---------------------------------------------------------------------------
// Copies
// ---------------------------------------------------------------------------

/// The index of the last `c` in `s`.
pub open spec fn last_index(s: Seq<char>, c: char) -> Option<int>
    decreases s.len(),
{
    if s.len() == 0 {
        None
    } else if s.last() == c {
        Some(s.len() - 1)
    } else {
        last_index(s.drop_last(), c)
    }
}

/// `A`, `B` or `C` in either case.
pub open spec fn is_copy_suffix(t: Seq<char>) -> bool {
    let l = lower_spec(t);
    l == "a"@ || l == "b"@ || l == "c"@
}

/// The head before the last `sep` when what follows it is a copy suffix
/// and the head is not blank.
pub open spec fn split_copy_suffix(v: Seq<char>, sep: char) -> Option<Seq<char>> {
    match last_index(v, sep) {
        Some(i) => {
            let head = trim_spec(v.take(i));
            if is_copy_suffix(trim_spec(v.skip(i + 1))) && head.len() > 0 {
                Some(head)
            } else {
                None
            }
        },
        None => None,
    }
}

/// A name without its copy suffix (` A`, `_b`, `-C` ...).
pub open spec fn strip_copy_suffix_spec(raw: Seq<char>) -> Seq<char> {
    let v = trim_spec(raw);
    match split_copy_suffix(v, ' ') {
        Some(h) => h,
        None => match split_copy_suffix(v, '_') {
            Some(h) => h,
            None => match split_copy_suffix(v, '-') {
                Some(h) => h,
                None => v,
            },
        },
    }
}

proof fn lemma_last_index_bound(s: Seq<char>, c: char)
    ensures
        last_index(s, c) matches Some(i) ==> 0 <= i < s.len(),
    decreases s.len(),
{
    if s.len() > 0 && s.last() != c {
        lemma_last_index_bound(s.drop_last(), c);
    }
}

fn last_index_exec(s: &[char], c: char) -> (r: Option<usize>)
    ensures
        match r {
            Some(k) => last_index(s@, c) == Some(k as int) && k < s@.len(),
            None => last_index(s@, c) is None,
        },
{
    let mut k: usize = s.len();
    assert(s@.take(s@.len() as int) =~= s@);
    proof {
        lemma_last_index_bound(s@, c);
    }
    while k > 0
        invariant
            k <= s@.len(),
            last_index(s@, c) == last_index(s@.take(k as int), c),
        decreases k,
    {
        proof {
            assert(s@.take(k as int).drop_last() =~= s@.take(k - 1));
        }
        if s[k - 1] == c {
            return Some(k - 1);
        }
        k -= 1;
    }
    None
}

fn split_copy_suffix_exec(v: &[char], sep: char) -> (r: Option<Vec<char>>)
    ensures
        match split_copy_suffix(v@, sep) {
            Some(h) => r matches Some(x) && x@ == h,
            None => r is None,
        },
{
    let n = v.len();
    let found = last_index_exec(v, sep);
    match found {
        Some(i) => {
            assert(i < n);

            let head = trim_chars(&take_chars_exec(v, i));
            let mut tail: Vec<char> = Vec::new();
            let mut k: usize = i + 1;
            while k < v.len()
                invariant
                    i < v@.len(),
                    i + 1 <= k <= v@.len(),
                    tail@ == v@.subrange(i + 1, k as int),
                decreases v@.len() - k,
            {
                tail.push(v[k]);
                proof {
                    assert(v@.subrange(i + 1, k + 1) =~= v@.subrange(i + 1, k as int).push(v@[k as int]));
                }
                k += 1;
            }
            proof {
                assert(v@.subrange(i + 1, v@.len() as int) =~= v@.skip(i + 1));
                assert(take_chars(v@, i as nat) =~= v@.take(i as int));
            }
            let t = lower_chars(&trim_chars(&tail));
            let suffix = chars_eq_str(&t, "a") || chars_eq_str(&t, "b") || chars_eq_str(&t, "c");
            if suffix && head.len() > 0 {
                Some(head)
            } else {
                None
            }
        },
        None => None,
    }
}

pub fn strip_copy_suffix(raw: &str) -> (r: String)
    ensures
        r@ == strip_copy_suffix_spec(raw@),
{
    let v = trim_chars(&str_chars(raw));
    match split_copy_suffix_exec(&v, ' ') {
        Some(h) => chars_to_string(&h),
        None => match split_copy_suffix_exec(&v, '_') {
            Some(h) => chars_to_string(&h),
            None => match split_copy_suffix_exec(&v, '-') {
                Some(h) => chars_to_string(&h),
                None => chars_to_string(&v),
            },
        },
    }
}

/// The copy suffixes, in the order they are handed out.
pub fn copy_suffix_for_index(index: usize) -> (r: Option<&'static str>)
    ensures
        match r {
            Some(s) => index < 3 && s@ == (if index == 0 {
                "A"@
            } else if index == 1 {
                "B"@
            } else {
                "C"@
            }),
            None => index >= 3,
        },
{
    if index == 0 {
        Some("A")
    } else if index == 1 {
        Some("B")
    } else if index == 2 {
        Some("C")
    } else {
        None
    }
}

/// The registry of dynamic roles.
#[derive(Debug, Clone, PartialEq, Eq)]
pub struct RoleRegistryFile {
    pub version: u8,
    pub roles: Vec<DynamicRoleSpec>,
}

pub open spec fn ids_of(roles: Seq<DynamicRoleSpec>) -> Seq<Seq<char>> {
    roles.map_values(|r: DynamicRoleSpec| r.id@)
}

pub open spec fn names_of(roles: Seq<DynamicRoleSpec>) -> Seq<Seq<char>> {
    roles.map_values(|r: DynamicRoleSpec| r.display_name@)
}

/// `{family}_{suffix}` with the suffix in lower case.
pub open spec fn copy_id(family: Seq<char>, suffix: Seq<char>) -> Seq<char> {
    family + "_"@ + lower_spec(suffix)
}

/// The role counts as a copy of the source: it names the source, or it
/// carries one of the family's copy ids.
pub open spec fn is_copy_of(r: DynamicRoleSpec, source_key: Seq<char>, family: Seq<char>) -> bool {
    ||| opt_string(r.copy_source) == Some(trim_spec(source_key))
    ||| r.id@ == copy_id(family, "a"@)
    ||| r.id@ == copy_id(family, "b"@)
    ||| r.id@ == copy_id(family, "c"@)
}

pub open spec fn copy_count_spec(roles: Seq<DynamicRoleSpec>, source_key: Seq<char>, family: Seq<char>) -> nat
    decreases roles.len(),
{
    if roles.len() == 0 {
        0
    } else {
        copy_count_spec(roles.drop_last(), source_key, family) + if is_copy_of(roles.last(), source_key, family) {
            1nat
        } else {
            0nat
        }
    }
}

fn copy_id_exec(family: &str, suffix: &str) -> (r: Vec<char>)
    ensures
        r@ == copy_id(family@, suffix@),
{
    let mut out = str_chars(family);
    push_str(&mut out, "_");
    push_chars(&mut out, &lower_chars(&str_chars(suffix)));
    out
}

proof fn lemma_copy_count_bound(roles: Seq<DynamicRoleSpec>, k: Seq<char>, f: Seq<char>)
    ensures
        copy_count_spec(roles, k, f) <= roles.len(),
    decreases roles.len(),
{
    if roles.len() > 0 {
        lemma_copy_count_bound(roles.drop_last(), k, f);
    }
}

pub fn role_copy_count_for_source(registry: &RoleRegistryFile, source_key: &str, family_prefix: &str) -> (r: usize)
    ensures
        r == copy_count_spec(registry.roles@, source_key@, family_prefix@),
{
    let key = trim_chars(&str_chars(source_key));
    let ida = copy_id_exec(family_prefix, "a");
    let idb = copy_id_exec(family_prefix, "b");
    let idc = copy_id_exec(family_prefix, "c");
    let roles = &registry.roles;
    let mut count: usize = 0;
    let mut i: usize = 0;
    while i < roles.len()
        invariant
            i <= roles@.len(),
            key@ == trim_spec(source_key@),
            ida@ == copy_id(family_prefix@, "a"@),
            idb@ == copy_id(family_prefix@, "b"@),
            idc@ == copy_id(family_prefix@, "c"@),
            count == copy_count_spec(roles@.take(i as int), source_key@, family_prefix@),
            count <= i,
        decreases roles@.len() - i,
    {
        proof {
            assert(roles@.take(i + 1).drop_last() =~= roles@.take(i as int));
        }
        let r = &roles[i];
        let names_source = match &r.copy_source {
            Some(cs) => chars_eq(&str_chars(cs.as_str()), &key),
            None => false,
        };
        let idv = str_chars(r.id.as_str());
        if names_source || chars_eq(&idv, &ida) || chars_eq(&idv, &idb) || chars_eq(&idv, &idc) {
            count = count + 1;
        }
        i += 1;
    }
    assert(roles@.take(roles@.len() as int) =~= roles@);
    count
}

fn has_id(roles: &Vec<DynamicRoleSpec>, id: &[char]) -> (r: bool)
    ensures
        r == ids_of(roles@).contains(id@),
{
    let mut i: usize = 0;
    while i < roles.len()
        invariant
            i <= roles@.len(),
            forall|j: int| 0 <= j < i ==> ids_of(roles@)[j] != id@,
        decreases roles@.len() - i,
    {
        if chars_eq(&str_chars(roles[i].id.as_str()), id) {
            assert(ids_of(roles@)[i as int] == id@);
            return true;
        }
        i += 1;
    }
    false
}

fn has_name(roles: &Vec<DynamicRoleSpec>, name: &[char]) -> (r: bool)
    ensures
        r == names_of(roles@).contains(name@),
{
    let mut i: usize = 0;
    while i < roles.len()
        invariant
            i <= roles@.len(),
            forall|j: int| 0 <= j < i ==> names_of(roles@)[j] != name@,
        decreases roles@.len() - i,
    {
        if chars_eq(&str_chars(roles[i].display_name.as_str()), name) {
            assert(names_of(roles@)[i as int] == name@);
            return true;
        }
        i += 1;
    }
    false
}

pub fn role_copy_suffix_in_use(registry: &RoleRegistryFile, family_prefix: &str, suffix: &str) -> (r: bool)
    ensures
        r == ids_of(registry.roles@).contains(copy_id(family_prefix@, suffix@)),
{
    has_id(&registry.roles, &copy_id_exec(family_prefix, suffix))
}

/// The first copy suffix whose id is free in the family.
pub open spec fn next_copy_suffix_spec(roles: Seq<DynamicRoleSpec>, family: Seq<char>) -> Option<Seq<char>> {
    if !ids_of(roles).contains(copy_id(family, "A"@)) {
        Some("A"@)
    } else if !ids_of(roles).contains(copy_id(family, "B"@)) {
        Some("B"@)
    } else if !ids_of(roles).contains(copy_id(family, "C"@)) {
        Some("C"@)
    } else {
        None
    }
}

pub fn next_role_copy_suffix(registry: &RoleRegistryFile, family_prefix: &str) -> (r: Result<&'static str, RoleError>)
    ensures
        match next_copy_suffix_spec(registry.roles@, family_prefix@) {
            Some(s) => r matches Ok(x) && x@ == s,
            None => r matches Err(e) && e@ == RoleErr::CopyLimit(family_prefix@),
        },
{
    if !role_copy_suffix_in_use(registry, family_prefix, "A") {
        Ok("A")
    } else if !role_copy_suffix_in_use(registry, family_prefix, "B") {
        Ok("B")
    } else if !role_copy_suffix_in_use(registry, family_prefix, "C") {
        Ok("C")
    } else {
        Err(RoleError::CopyLimit(chars_to_string(&str_chars(family_prefix))))
    }
}

/// The id of the next copy in a family.
pub open spec fn next_copy_id_spec(roles: Seq<DynamicRoleSpec>, family: Seq<char>) -> Result<Seq<char>, RoleErr> {
    match next_copy_suffix_spec(roles, family) {
        Some(s) => Ok(copy_id(family, s)),
        None => Err(RoleErr::CopyLimit(family)),
    }
}

pub fn next_role_copy_id(registry: &RoleRegistryFile, family_prefix: &str) -> (r: Result<String, RoleError>)
    ensures
        str_result(r) == next_copy_id_spec(registry.roles@, family_prefix@),
{
    match next_role_copy_suffix(registry, family_prefix) {
        Ok(s) => Ok(chars_to_string(&copy_id_exec(family_prefix, s))),
        Err(e) => Err(e),
    }
}

/// The name of the next copy: `{label} A`, `{label} B` or `{label} C`,
/// the first that no role carries.
pub open spec fn next_copy_name_spec(roles: Seq<DynamicRoleSpec>, label: Seq<char>) -> Result<Seq<char>, RoleErr> {
    if !names_of(roles).contains(label + " A"@) {
        Ok(label + " A"@)
    } else if !names_of(roles).contains(label + " B"@) {
        Ok(label + " B"@)
    } else if !names_of(roles).contains(label + " C"@) {
        Ok(label + " C"@)
    } else {
        Err(RoleErr::CopyLimit(label))
    }
}

pub fn next_role_copy_display_name(registry: &RoleRegistryFile, label_prefix: &str) -> (r: Result<String, RoleError>)
    ensures
        str_result(r) == next_copy_name_spec(registry.roles@, label_prefix@),
{
    let mut a = str_chars(label_prefix);
    push_str(&mut a, " A");
    if !has_name(&registry.roles, &a) {
        return Ok(chars_to_string(&a));
    }
    let mut b = str_chars(label_prefix);
    push_str(&mut b, " B");
    if !has_name(&registry.roles, &b) {
        return Ok(chars_to_string(&b));
    }
    let mut c = str_chars(label_prefix);
    push_str(&mut c, " C");
    if !has_name(&registry.roles, &c) {
        return Ok(chars_to_string(&c));
    }
    Err(RoleError::CopyLimit(chars_to_string(&str_chars(label_prefix))))
}

// ---------------------------------------------------------------------------
// New roles
// ---------------------------------------------------------------------------

/// A role as plain values.
pub struct RoleModel {
    pub id: Seq<char>,
    pub display_name: Seq<char>,
    pub glyph: Option<Seq<char>>,
    pub context_dir: Seq<char>,
    pub base_persona: Option<Seq<char>>,
    pub copy_source: Option<Seq<char>>,
    pub default_tools: Seq<Seq<char>>,
    pub managed_role_ids: Seq<Seq<char>>,
    pub enabled: bool,
    pub mode: Seq<char>,
    pub manage_threshold_kb: u64,
    pub compact_threshold_kb: u64,
    pub report_to_matrix: bool,
    pub created_at_ms: u64,
    pub updated_at_ms: u64,
}

impl View for DynamicRoleSpec {
    type V = RoleModel;

    open spec fn view(&self) -> RoleModel {
        RoleModel {
            id: self.id@,
            display_name: self.display_name@,
            glyph: opt_string(self.glyph),
            context_dir: self.context_dir@,
            base_persona: opt_string(self.base_persona),
            copy_source: opt_string(self.copy_source),
            default_tools: strings_view(self.default_tools@),
            managed_role_ids: strings_view(self.managed_role_ids@),
            enabled: self.enabled,
            mode: self.context_governance.mode@,
            manage_threshold_kb: self.context_governance.manage_threshold_kb,
            compact_threshold_kb: self.context_governance.compact_threshold_kb,
            report_to_matrix: self.context_governance.report_to_matrix,
            created_at_ms: self.created_at_ms,
            updated_at_ms: self.updated_at_ms,
        }
    }
}

pub open spec fn role_result(r: Result<DynamicRoleSpec, RoleError>) -> Result<RoleModel, RoleErr> {
    match r {
        Ok(x) => Ok(x@),
        Err(e) => Err(e@),
    }
}

/// The persona a role model builds on; Coding when it names none.
pub open spec fn model_kind(m: RoleModel) -> PersonaKind {
    match m.base_persona {
        Some(b) => match alias_spec(b) {
            Some(p) => p,
            None => PersonaKind::Coding,
        },
        None => PersonaKind::Coding,
    }
}

/// The checks every stored role passes last: an advisor manages at most
/// four roles.
pub open spec fn checked_role(m: RoleModel) -> Result<RoleModel, RoleErr> {
    if model_kind(m) == PersonaKind::Advisor && m.managed_role_ids.len() > 4 {
        Err(RoleErr::TooManyManaged(m.id, m.managed_role_ids.len()))
    } else {
        Ok(m)
    }
}

/// What a request to create or copy a role carries.
#[derive(Debug, Clone, PartialEq, Eq)]
pub struct DynamicRoleDraft {
    pub id: Option<String>,
    pub display_name: Option<String>,
    pub glyph: Option<String>,
    pub context_dir: Option<String>,
    pub base_persona: Option<String>,
    pub copy_from: Option<String>,
    pub default_tools: Option<Vec<String>>,
    pub managed_role_ids: Option<Vec<String>>,
    pub prompt: Option<String>,
    pub enabled: Option<bool>,
    pub context_governance: Option<ContextGovernanceSpec>,
}

pub open spec fn opt_list(o: Option<Vec<String>>) -> Option<Seq<Seq<char>>> {
    match o {
        Some(v) => Some(strings_view(v@)),
        None => None,
    }
}

pub open spec fn glyph_opt(o: Option<Seq<char>>) -> Option<Seq<char>> {
    match o {
        Some(g) => glyph_spec(g),
        None => None,
    }
}

/// The name a role gets from a request: the given one when it is not blank
/// once normalized, else the fallback.
pub open spec fn name_or(raw: Option<Seq<char>>, fallback: Seq<char>) -> Seq<char> {
    match raw {
        Some(n) => if display_name_spec(n).len() > 0 {
            display_name_spec(n)
        } else {
            fallback
        },
        None => fallback,
    }
}

/// Governance as plain values: mode and thresholds normalized.
pub open spec fn gov_values(g: Option<ContextGovernanceSpec>) -> (Seq<char>, u64, u64, bool) {
    let (m, a, b, r) = match g {
        Some(x) => (x.mode@, x.manage_threshold_kb, x.compact_threshold_kb, x.report_to_matrix),
        None => ("advisor_managed"@, 800u64, 1000u64, true),
    };
    (governance_mode_spec(m), clamp_kb(a), clamp_kb(b), r)
}

/// A role made from a request: its id from the given id, else from the
/// given name; the errors in the order the fields are read.
pub open spec fn create_role_spec(d: DynamicRoleDraft, fallback: Seq<Seq<char>>, now: u64) -> Result<RoleModel, RoleErr> {
    let raw = if d.id is Some {
        opt_string(d.id)
    } else {
        opt_string(d.display_name)
    };
    match raw {
        None => Err(RoleErr::MissingIdentity),
        Some(raw_id) => match role_id_spec(raw_id) {
            Err(e) => Err(e),
            Ok(id) => {
                let tools = match opt_list(d.default_tools) {
                    Some(t) => t,
                    None => fallback,
                };
                let managed = match opt_list(d.managed_role_ids) {
                    Some(m) => m,
                    None => Seq::empty(),
                };
                let (mode, mk, ck, rep) = gov_values(d.context_governance);
                match context_dir_spec(opt_string(d.context_dir), id) {
                    Err(e) => Err(e),
                    Ok(dir) => match base_persona_spec(opt_string(d.base_persona)) {
                        Err(e) => Err(e),
                        Ok(bp) => match managed_ids_spec(managed) {
                            Err(e) => Err(e),
                            Ok(m) => checked_role(
                                RoleModel {
                                    id,
                                    display_name: name_or(opt_string(d.display_name), id),
                                    glyph: glyph_opt(opt_string(d.glyph)),
                                    context_dir: dir,
                                    base_persona: bp,
                                    copy_source: None,
                                    default_tools: governed_tools_spec(tool_ids_spec(tools), mode),
                                    managed_role_ids: m,
                                    enabled: match d.enabled {
                                        Some(b) => b,
                                        None => true,
                                    },
                                    mode,
                                    manage_threshold_kb: mk,
                                    compact_threshold_kb: ck,
                                    report_to_matrix: rep,
                                    created_at_ms: now,
                                    updated_at_ms: now,
                                },
                            ),
                        },
                    },
                }
            },
        },
    }
}

fn opt_as_str(o: &Option<String>) -> (r: Option<&str>)
    ensures
        opt_str(r) == opt_string(*o),
{
    match o {
        Some(s) => Some(s.as_str()),
        None => None,
    }
}

fn glyph_of_opt(o: &Option<String>) -> (r: Option<String>)
    ensures
        opt_string(r) == glyph_opt(opt_string(*o)),
{
    match o {
        Some(g) => normalize_glyph(g.as_str()),
        None => None,
    }
}

fn name_or_exec(raw: &Option<String>, fallback: &String) -> (r: String)
    ensures
        r@ == name_or(opt_string(*raw), fallback@),
{
    match raw {
        Some(n) => {
            let d = normalize_display_name(n.as_str());
            let dc = str_chars(d.as_str());
            if dc.len() > 0 {
                d
            } else {
                fallback.clone()
            }
        },
        None => fallback.clone(),
    }
}

fn governance_of(g: Option<ContextGovernanceSpec>) -> (r: ContextGovernanceSpec)
    ensures
        (r.mode@, r.manage_threshold_kb, r.compact_threshold_kb, r.report_to_matrix) == gov_values(g),
{
    match g {
        Some(x) => normalize_context_governance(x),
        None => normalize_context_governance(ContextGovernanceSpec::default()),
    }
}

/// Makes a role from a create request, stamped `now_ms`. Whether each tool
/// may be used with the role's base persona is left to the tool catalogue.
pub fn role_from_create_draft(draft: DynamicRoleDraft, fallback_tools: &Vec<String>, now_ms: u64) -> (r: Result<
    DynamicRoleSpec,
    RoleError,
>)
    ensures
        role_result(r) == create_role_spec(draft, strings_view(fallback_tools@), now_ms),
{
    let raw: Option<&str> = if draft.id.is_some() {
        opt_as_str(&draft.id)
    } else {
        opt_as_str(&draft.display_name)
    };
    let raw_id = match raw {
        None => {
            return Err(RoleError::MissingIdentity);
        },
        Some(x) => x,
    };
    let id = match normalize_role_id(raw_id) {
        Err(e) => {
            return Err(e);
        },
        Ok(id) => id,
    };
    let display_name = name_or_exec(&draft.display_name, &id);
    let tools = match &draft.default_tools {
        Some(t) => clone_strings(t),
        None => clone_strings(fallback_tools),
    };
    let managed = match &draft.managed_role_ids {
        Some(m) => clone_strings(m),
        None => {
            let e: Vec<String> = Vec::new();
            assert(strings_view(e@) =~= Seq::<Seq<char>>::empty());
            e
        },
    };
    let context_dir = match normalize_context_dir(opt_as_str(&draft.context_dir), id.as_str()) {
        Err(e) => {
            return Err(e);
        },
        Ok(d) => d,
    };
    let base_persona = match normalize_base_persona(opt_as_str(&draft.base_persona)) {
        Err(e) => {
            return Err(e);
        },
        Ok(b) => b,
    };
    let glyph = glyph_of_opt(&draft.glyph);
    let default_tools = normalize_tool_ids(&tools);
    let managed_role_ids = match normalize_managed_role_ids(&managed) {
        Err(e) => {
            return Err(e);
        },
        Ok(m) => m,
    };
    let enabled = match draft.enabled {
        Some(b) => b,
        None => true,
    };
    let context_governance = governance_of(draft.context_governance);
    let mut role = DynamicRoleSpec {
        id,
        display_name,
        glyph,
        context_dir,
        base_persona,
        copy_source: None,
        default_tools,
        managed_role_ids,
        enabled,
        context_governance,
        created_at_ms: now_ms,
        updated_at_ms: now_ms,
    };
    sync_role_context_governance_tools(&mut role);
    match validate_role_management_limits(&role) {
        Err(e) => Err(e),
        Ok(()) => Ok(role),
    }
}

/// A stored role brought back to its normal form, stamped `now` where it
/// has no time yet.
pub open spec fn stored_role_spec(r: RoleModel, now: u64) -> Result<RoleModel, RoleErr> {
    match role_id_spec(r.id) {
        Err(e) => Err(e),
        Ok(id) => {
            let name = display_name_spec(
                if trim_spec(r.display_name).len() == 0 {
                    id
                } else {
                    r.display_name
                },
            );
            let mode = governance_mode_spec(r.mode);
            let created = if r.created_at_ms == 0 {
                now
            } else {
                r.created_at_ms
            };
            match context_dir_spec(Some(r.context_dir), id) {
                Err(e) => Err(e),
                Ok(dir) => match base_persona_spec(r.base_persona) {
                    Err(e) => Err(e),
                    Ok(bp) => match copy_source_spec(r.copy_source) {
                        Err(e) => Err(e),
                        Ok(cs) => match managed_ids_spec(r.managed_role_ids) {
                            Err(e) => Err(e),
                            Ok(m) => checked_role(
                                RoleModel {
                                    id,
                                    display_name: name,
                                    glyph: glyph_opt(r.glyph),
                                    context_dir: dir,
                                    base_persona: bp,
                                    copy_source: cs,
                                    default_tools: governed_tools_spec(tool_ids_spec(r.default_tools), mode),
                                    managed_role_ids: m,
                                    enabled: r.enabled,
                                    mode,
                                    manage_threshold_kb: clamp_kb(r.manage_threshold_kb),
                                    compact_threshold_kb: clamp_kb(r.compact_threshold_kb),
                                    report_to_matrix: r.report_to_matrix,
                                    created_at_ms: created,
                                    updated_at_ms: if r.updated_at_ms == 0 {
                                        created
                                    } else {
                                        r.updated_at_ms
                                    },
                                },
                            ),
                        },
                    },
                },
            }
        },
    }
}

/// Brings a stored role back to its normal form.
pub fn normalize_stored_role(role: DynamicRoleSpec, now_ms: u64) -> (r: Result<DynamicRoleSpec, RoleError>)
    ensures
        role_result(r) == stored_role_spec(role@, now_ms),
{
    let id = match normalize_role_id(role.id.as_str()) {
        Err(e) => {
            return Err(e);
        },
        Ok(id) => id,
    };
    let blank = trim_chars(&str_chars(role.display_name.as_str())).len() == 0;
    let display_name = if blank {
        normalize_display_name(id.as_str())
    } else {
        normalize_display_name(role.display_name.as_str())
    };
    let glyph = glyph_of_opt(&role.glyph);
    let context_dir = match normalize_context_dir(Some(role.context_dir.as_str()), id.as_str()) {
        Err(e) => {
            return Err(e);
        },
        Ok(d) => d,
    };
    let base_persona = match normalize_base_persona(opt_as_str(&role.base_persona)) {
        Err(e) => {
            return Err(e);
        },
        Ok(b) => b,
    };
    let copy_source = match normalize_copy_source(opt_as_str(&role.copy_source)) {
        Err(e) => {
            return Err(e);
        },
        Ok(c) => c,
    };
    let default_tools = normalize_tool_ids(&role.default_tools);
    let managed_role_ids = match normalize_managed_role_ids(&role.managed_role_ids) {
        Err(e) => {
            return Err(e);
        },
        Ok(m) => m,
    };
    let context_governance = normalize_context_governance(role.context_governance);
    let created_at_ms = if role.created_at_ms == 0 {
        now_ms
    } else {
        role.created_at_ms
    };
    let updated_at_ms = if role.updated_at_ms == 0 {
        created_at_ms
    } else {
        role.updated_at_ms
    };
    let mut out = DynamicRoleSpec {
        id,
        display_name,
        glyph,
        context_dir,
        base_persona,
        copy_source,
        default_tools,
        managed_role_ids,
        enabled: role.enabled,
        context_governance,
        created_at_ms,
        updated_at_ms,
    };
    sync_role_context_governance_tools(&mut out);
    match validate_role_management_limits(&out) {
        Err(e) => Err(e),
        Ok(()) => Ok(out),
    }
}

/// What a copy is made from: a persona or a role, as the caller resolved it.
#[derive(Debug, Clone, PartialEq, Eq)]
pub struct RoleCopySource {
    pub source_key: String,
    pub base_persona: PersonaKind,
    pub family_prefix: String,
    pub label_prefix: String,
    pub glyph: Option<String>,
    pub default_tools: Vec<String>,
    pub prompt: String,
    pub enabled: bool,
    pub context_governance: ContextGovernanceSpec,
    pub managed_role_ids: Vec<String>,
}

/// A copy of a persona or role: at most three per source, named with the
/// next free suffix unless the request names it; the errors in the order
/// the fields are read.
pub open spec fn copy_role_spec(roles: Seq<DynamicRoleSpec>, s: RoleCopySource, d: DynamicRoleDraft, now: u64) -> Result<
    RoleModel,
    RoleErr,
> {
    let family = strip_copy_suffix_spec(s.family_prefix@);
    let label = strip_copy_suffix_spec(s.label_prefix@);
    if copy_count_spec(roles, s.source_key@, family) >= 3 {
        Err(RoleErr::CopiesExhausted(label))
    } else {
        let id_r = match opt_string(d.id) {
            Some(x) => role_id_spec(x),
            None => next_copy_id_spec(roles, family),
        };
        match id_r {
            Err(e) => Err(e),
            Ok(id) => {
                let name_r = match opt_string(d.display_name) {
                    Some(n) => if display_name_spec(n).len() > 0 {
                        Ok(display_name_spec(n))
                    } else {
                        next_copy_name_spec(roles, label)
                    },
                    None => next_copy_name_spec(roles, label),
                };
                match name_r {
                    Err(e) => Err(e),
                    Ok(name) => {
                        let glyph = if d.glyph is Some {
                            glyph_opt(opt_string(d.glyph))
                        } else {
                            match opt_string(s.glyph) {
                                Some(g) => Some(g),
                                None => glyph_spec(label),
                            }
                        };
                        let tools = match opt_list(d.default_tools) {
                            Some(t) => t,
                            None => strings_view(s.default_tools@),
                        };
                        let managed_r = match opt_list(d.managed_role_ids) {
                            Some(m) => managed_ids_spec(m),
                            None => Ok(strings_view(s.managed_role_ids@)),
                        };
                        let (mode, mk, ck, rep) = gov_values(
                            match d.context_governance {
                                Some(g) => Some(g),
                                None => Some(s.context_governance),
                            },
                        );
                        match managed_r {
                            Err(e) => Err(e),
                            Ok(m) => match context_dir_spec(opt_string(d.context_dir), id) {
                                Err(e) => Err(e),
                                Ok(dir) => checked_role(
                                    RoleModel {
                                        id,
                                        display_name: name,
                                        glyph,
                                        context_dir: dir,
                                        base_persona: Some(slug_spec(s.base_persona)),
                                        copy_source: Some(s.source_key@),
                                        default_tools: governed_tools_spec(tool_ids_spec(tools), mode),
                                        managed_role_ids: m,
                                        enabled: match d.enabled {
                                            Some(b) => b,
                                            None => s.enabled,
                                        },
                                        mode,
                                        manage_threshold_kb: mk,
                                        compact_threshold_kb: ck,
                                        report_to_matrix: rep,
                                        created_at_ms: now,
                                        updated_at_ms: now,
                                    },
                                ),
                            },
                        }
                    },
                }
            },
        }
    }
}

/// Makes a copy of a persona or role, stamped `now_ms`. Whether each tool
/// may be used with the base persona is left to the tool catalogue.
pub fn build_copy_role_spec(registry: &RoleRegistryFile, source: RoleCopySource, draft: DynamicRoleDraft, now_ms: u64) -> (r:
    Result<DynamicRoleSpec, RoleError>)
    ensures
        role_result(r) == copy_role_spec(registry.roles@, source, draft, now_ms),
{
    let family = strip_copy_suffix(source.family_prefix.as_str());
    let label = strip_copy_suffix(source.label_prefix.as_str());
    let existing = role_copy_count_for_source(registry, source.source_key.as_str(), family.as_str());
    if existing >= 3 {
        return Err(RoleError::CopiesExhausted(label));
    }
    let id = match &draft.id {
        Some(x) => normalize_role_id(x.as_str()),
        None => next_role_copy_id(registry, family.as_str()),
    };
    let id = match id {
        Err(e) => {
            return Err(e);
        },
        Ok(id) => id,
    };
    let name = match &draft.display_name {
        Some(n) => {
            let d = normalize_display_name(n.as_str());
            if str_chars(d.as_str()).len() > 0 {
                Ok(d)
            } else {
                next_role_copy_display_name(registry, label.as_str())
            }
        },
        None => next_role_copy_display_name(registry, label.as_str()),
    };
    let display_name = match name {
        Err(e) => {
            return Err(e);
        },
        Ok(n) => n,
    };
    let glyph = if draft.glyph.is_some() {
        glyph_of_opt(&draft.glyph)
    } else {
        match &source.glyph {
            Some(g) => Some(g.clone()),
            None => normalize_glyph(label.as_str()),
        }
    };
    let tools = match &draft.default_tools {
        Some(t) => clone_strings(t),
        None => clone_strings(&source.default_tools),
    };
    let managed = match &draft.managed_role_ids {
        Some(m) => normalize_managed_role_ids(m),
        None => Ok(clone_strings(&source.managed_role_ids)),
    };
    let managed_role_ids = match managed {
        Err(e) => {
            return Err(e);
        },
        Ok(m) => m,
    };
    let context_dir = match normalize_context_dir(opt_as_str(&draft.context_dir), id.as_str()) {
        Err(e) => {
            return Err(e);
        },
        Ok(d) => d,
    };
    let enabled = match draft.enabled {
        Some(b) => b,
        None => source.enabled,
    };
    let gov = match draft.context_governance {
        Some(g) => g,
        None => source.context_governance,
    };
    let context_governance = normalize_context_governance(gov);
    let mut role = DynamicRoleSpec {
        id,
        display_name,
        glyph,
        context_dir,
        base_persona: Some(chars_to_string(&str_chars(source.base_persona.slug()))),
        copy_source: Some(source.source_key),
        default_tools: normalize_tool_ids(&tools),
        managed_role_ids,
        enabled,
        context_governance,
        created_at_ms: now_ms,
        updated_at_ms: now_ms,
    };
    sync_role_context_governance_tools(&mut role);
    match validate_role_management_limits(&role) {
        Err(e) => Err(e),
        Ok(()) => Ok(role),
    }
}

// ---------------------------------------------------------------------------
// Governance catalog
// ---------------------------------------------------------------------------

/// A role as the governance views show it.
#[derive(Debug, Clone, PartialEq, Eq)]
pub struct RoleGovernanceEntry {
    pub id: String,
    pub display_name: String,
    pub glyph: Option<String>,
    pub copy_source: Option<String>,
    pub title: String,
    pub tab_label: String,
    pub header_badge: String,
    pub assistant_en: String,
    pub assistant_zh: String,
    pub base_persona: PersonaKind,
    pub context_dir: String,
    pub memory_dir: String,
    pub default_tools: Vec<String>,
    pub managed_role_ids: Vec<String>,
    pub enabled: bool,
    pub visible_tab: bool,
    pub context_governance: ContextGovernanceSpec,
}

/// Every role of the registry, in registry order.
#[derive(Debug, Clone, PartialEq, Eq)]
pub struct RoleGovernanceCatalog {
    pub registry_version: u8,
    pub entries: Vec<RoleGovernanceEntry>,
}

/// How many of the roles get a tab: the enabled ones, up to the limit.
pub open spec fn visible_count(roles: Seq<DynamicRoleSpec>) -> nat
    decreases roles.len(),
{
    if roles.len() == 0 {
        0
    } else {
        let c = visible_count(roles.drop_last());
        if roles.last().enabled && c < ROLE_TAB_LIMIT {
            c + 1
        } else {
            c
        }
    }
}

/// Role `i` gets a tab: it is enabled and fewer than the limit came before.
pub open spec fn is_visible(roles: Seq<DynamicRoleSpec>, i: int) -> bool {
    roles[i].enabled && visible_count(roles.take(i)) < ROLE_TAB_LIMIT
}

/// The entry shows the role, with the tab flag given.
pub open spec fn entry_is(e: RoleGovernanceEntry, r: DynamicRoleSpec, visible: bool) -> bool {
    &&& e.id@ == r.id@
    &&& e.display_name@ == name_of(r)
    &&& opt_string(e.glyph) == glyph_of(r)
    &&& opt_string(e.copy_source) == opt_string(r.copy_source)
    &&& e.title@ == title_spec(r)
    &&& e.tab_label@ == tab_label_spec(r)
    &&& e.header_badge@ == name_or_id(r)
    &&& e.assistant_en@ == r.id@
    &&& e.assistant_zh@ == (match glyph_of(r) {
        Some(g) => g,
        None => name_or_id(r),
    })
    &&& e.base_persona == base_kind_spec(r)
    &&& e.context_dir@ == r.context_dir@
    &&& e.memory_dir@ == r.context_dir@
    &&& strings_view(e.default_tools@) == strings_view(r.default_tools@)
    &&& strings_view(e.managed_role_ids@) == strings_view(r.managed_role_ids@)
    &&& e.enabled == r.enabled
    &&& e.visible_tab == visible
    &&& governance_eq(e.context_governance, r.context_governance)
}

/// The catalog shows every role of the registry, in order.
pub open spec fn catalog_of(c: RoleGovernanceCatalog, reg: RoleRegistryFile) -> bool {
    &&& c.registry_version == reg.version
    &&& c.entries@.len() == reg.roles@.len()
    &&& forall|i: int|
        0 <= i < reg.roles@.len() ==> entry_is(#[trigger] c.entries@[i], reg.roles@[i], is_visible(reg.roles@, i))
}

fn copy_opt_string(o: &Option<String>) -> (r: Option<String>)
    ensures
        opt_string(r) == opt_string(*o),
{
    match o {
        Some(s) => Some(s.clone()),
        None => None,
    }
}

pub fn governance_catalog_from_registry(registry: &RoleRegistryFile) -> (r: RoleGovernanceCatalog)
    ensures
        catalog_of(r, *registry),
{
    let roles = &registry.roles;
    let mut entries: Vec<RoleGovernanceEntry> = Vec::new();
    let mut shown: usize = 0;
    let mut i: usize = 0;
    while i < roles.len()
        invariant
            i <= roles@.len(),
            entries@.len() == i,
            shown == visible_count(roles@.take(i as int)),
            shown <= ROLE_TAB_LIMIT,
            forall|j: int| 0 <= j < i ==> entry_is(#[trigger] entries@[j], roles@[j], is_visible(roles@, j)),
        decreases roles@.len() - i,
    {
        proof {
            assert(roles@.take(i + 1).drop_last() =~= roles@.take(i as int));
        }
        let role = &roles[i];
        let c = role.contract();
        let visible = c.capability.enabled && shown < ROLE_TAB_LIMIT;
        if visible {
            shown = shown + 1;
        }
        entries.push(
            RoleGovernanceEntry {
                id: c.identity.id,
                display_name: c.identity.display_name,
                glyph: c.identity.glyph,
                copy_source: copy_opt_string(&role.copy_source),
                title: c.identity.title,
                tab_label: c.identity.tab_label,
                header_badge: c.identity.header_badge,
                assistant_en: c.identity.assistant_en,
                assistant_zh: c.identity.assistant_zh,
                base_persona: c.capability.base_persona,
                context_dir: c.storage.context_dir,
                memory_dir: c.storage.memory_dir,
                default_tools: c.capability.default_tools,
                managed_role_ids: clone_strings(&role.managed_role_ids),
                enabled: c.capability.enabled,
                visible_tab: visible,
                context_governance: c.context_governance,
            },
        );
        i += 1;
    }
    RoleGovernanceCatalog { registry_version: registry.version, entries }
}

/// Which entries a count takes: enabled ones, ones with a tab, or enabled
/// ones without a tab.
pub open spec fn entry_hits(e: RoleGovernanceEntry, kind: u8) -> bool {
    if kind == 0 {
        e.enabled
    } else if kind == 1 {
        e.visible_tab
    } else {
        e.enabled && !e.visible_tab
    }
}

pub open spec fn count_entries(es: Seq<RoleGovernanceEntry>, kind: u8) -> nat
    decreases es.len(),
{
    if es.len() == 0 {
        0
    } else {
        count_entries(es.drop_last(), kind) + if entry_hits(es.last(), kind) {
            1nat
        } else {
            0nat
        }
    }
}

fn count_entries_exec(es: &Vec<RoleGovernanceEntry>, kind: u8) -> (r: usize)
    ensures
        r == count_entries(es@, kind),
{
    let mut n: usize = 0;
    let mut i: usize = 0;
    while i < es.len()
        invariant
            i <= es@.len(),
            n == count_entries(es@.take(i as int), kind),
            n <= i,
        decreases es@.len() - i,
    {
        proof {
            assert(es@.take(i + 1).drop_last() =~= es@.take(i as int));
        }
        let e = &es[i];
        let hit = if kind == 0 {
            e.enabled
        } else if kind == 1 {
            e.visible_tab
        } else {
            e.enabled && !e.visible_tab
        };
        if hit {
            n = n + 1;
        }
        i += 1;
    }
    assert(es@.take(es@.len() as int) =~= es@);
    n
}

impl RoleGovernanceCatalog {
    pub fn roles_total(&self) -> (r: usize)
        ensures
            r == self.entries@.len(),
    {
        self.entries.len()
    }

    pub fn enabled_roles_total(&self) -> (r: usize)
        ensures
            r == count_entries(self.entries@, 0),
    {
        count_entries_exec(&self.entries, 0)
    }

    pub fn visible_tabs_total(&self) -> (r: usize)
        ensures
            r == count_entries(self.entries@, 1),
    {
        count_entries_exec(&self.entries, 1)
    }

    pub fn hidden_enabled_roles_total(&self) -> (r: usize)
        ensures
            r == count_entries(self.entries@, 2),
    {
        count_entries_exec(&self.entries, 2)
    }

    pub fn role_ids(&self) -> (r: Vec<String>)
        ensures
            strings_view(r@) == self.entries@.map_values(|e: RoleGovernanceEntry| e.id@),
    {
        let mut out: Vec<String> = Vec::new();
        let mut i: usize = 0;
        while i < self.entries.len()
            invariant
                i <= self.entries@.len(),
                strings_view(out@) == self.entries@.take(i as int).map_values(|e: RoleGovernanceEntry| e.id@),
            decreases self.entries@.len() - i,
        {
            push_string(&mut out, self.entries[i].id.clone());
            proof {
                assert(self.entries@.take(i + 1).map_values(|e: RoleGovernanceEntry| e.id@) =~= self.entries@.take(
                    i as int,
                ).map_values(|e: RoleGovernanceEntry| e.id@).push(self.entries@[i as int].id@));
            }
            i += 1;
        }
        assert(self.entries@.take(self.entries@.len() as int) =~= self.entries@);
        out
    }
}

pub open spec fn enabled_count(roles: Seq<DynamicRoleSpec>) -> nat
    decreases roles.len(),
{
    if roles.len() == 0 {
        0
    } else {
        enabled_count(roles.drop_last()) + if roles.last().enabled {
            1nat
        } else {
            0nat
        }
    }
}

pub open spec fn min_nat(a: nat, b: nat) -> nat {
    if a <= b {
        a
    } else {
        b
    }
}

proof fn lemma_visible_is_min(roles: Seq<DynamicRoleSpec>)
    ensures
        visible_count(roles) == min_nat(enabled_count(roles), ROLE_TAB_LIMIT as nat),
    decreases roles.len(),
{
    if roles.len() > 0 {
        lemma_visible_is_min(roles.drop_last());
    }
}

proof fn lemma_counts_prefix(c: RoleGovernanceCatalog, reg: RoleRegistryFile, k: int)
    requires
        catalog_of(c, reg),
        0 <= k <= reg.roles@.len(),
    ensures
        count_entries(c.entries@.take(k), 1) == visible_count(reg.roles@.take(k)),
        count_entries(c.entries@.take(k), 0) == enabled_count(reg.roles@.take(k)),
        count_entries(c.entries@.take(k), 2) + count_entries(c.entries@.take(k), 1) == count_entries(
            c.entries@.take(k),
            0,
        ),
    decreases k,
{
    if k > 0 {
        lemma_counts_prefix(c, reg, k - 1);
        assert(c.entries@.take(k).drop_last() =~= c.entries@.take(k - 1));
        assert(reg.roles@.take(k).drop_last() =~= reg.roles@.take(k - 1));
        assert(entry_is(c.entries@[k - 1], reg.roles@[k - 1], is_visible(reg.roles@, k - 1)));
    }
}

/// In the catalog of any registry, the enabled roles get tabs up to the
/// limit and no further: tabs = min(enabled, limit), and the enabled roles
/// without a tab are the rest.
pub proof fn lemma_catalog_tab_counts(c: RoleGovernanceCatalog, reg: RoleRegistryFile)
    requires
        catalog_of(c, reg),
    ensures
        count_entries(c.entries@, 1) == min_nat(count_entries(c.entries@, 0), ROLE_TAB_LIMIT as nat),
        count_entries(c.entries@, 2) == count_entries(c.entries@, 0) - count_entries(c.entries@, 1),
{
    lemma_counts_prefix(c, reg, reg.roles@.len() as int);
    assert(c.entries@.take(reg.roles@.len() as int) =~= c.entries@);
    assert(reg.roles@.take(reg.roles@.len() as int) =~= reg.roles@);
    lemma_visible_is_min(reg.roles@);
}

// ---------------------------------------------------------------------------
// Catalog texts
// ---------------------------------------------------------------------------

pub open spec fn bool_text(b: bool) -> Seq<char> {
    if b {
        "true"@
    } else {
        "false"@
    }
}

/// The items joined by `sep`, or `(none)`.
pub open spec fn list_or_none(v: Seq<Seq<char>>, sep: Seq<char>) -> Seq<char> {
    if v.len() == 0 {
        "(none)"@
    } else {
        join_spec(v, sep)
    }
}

pub open spec fn opt_or(o: Option<Seq<char>>, d: Seq<char>) -> Seq<char> {
    match o {
        Some(s) => s,
        None => d,
    }
}

/// The summary line of one catalog entry.
pub open spec fn entry_summary_spec(e: RoleGovernanceEntry) -> Seq<char> {
    "role:"@ + e.id@ + " display_name="@ + e.display_name@ + " glyph="@ + opt_or(opt_string(e.glyph), Seq::empty())
        + " copy_source="@ + opt_or(opt_string(e.copy_source), Seq::empty()) + " title="@ + e.title@ + " tab_label="@
        + e.tab_label@ + " header_badge="@ + e.header_badge@ + " assistant_en="@ + e.assistant_en@ + " assistant_zh="@
        + e.assistant_zh@ + " base_persona="@ + slug_spec(e.base_persona) + " context_dir="@ + e.context_dir@
        + " memory_dir="@ + e.memory_dir@ + " default_tools="@ + list_or_none(strings_view(e.default_tools@), "|"@)
        + " managed_role_ids="@ + list_or_none(strings_view(e.managed_role_ids@), "|"@) + " enabled="@ + bool_text(
        e.enabled,
    ) + " visible_tab="@ + bool_text(e.visible_tab) + " supports_topbar=false context_governance_mode="@
        + e.context_governance.mode@ + " manage_threshold_kb="@ + dec_spec(
        e.context_governance.manage_threshold_kb as nat,
    ) + " compact_threshold_kb="@ + dec_spec(e.context_governance.compact_threshold_kb as nat)
        + " report_to_matrix="@ + bool_text(e.context_governance.report_to_matrix)
}

/// The catalog as the model reads it: the counts, then one line per role.
pub open spec fn summary_lines_spec(c: RoleGovernanceCatalog) -> Seq<Seq<char>> {
    let es = c.entries@;
    seq![
        "registry_version:"@ + dec_spec(c.registry_version as nat),
        "roles_total:"@ + dec_spec(es.len()),
        "enabled_roles:"@ + dec_spec(count_entries(es, 0)),
        "visible_tabs:"@ + dec_spec(count_entries(es, 1)),
        "hidden_enabled_roles:"@ + dec_spec(count_entries(es, 2)),
        "role_ids:"@ + list_or_none(es.map_values(|e: RoleGovernanceEntry| e.id@), "|"@),
    ] + es.map_values(|e: RoleGovernanceEntry| entry_summary_spec(e))
}

pub(crate) fn join_strings(v: &Vec<String>, sep: &str) -> (r: Vec<char>)
    ensures
        r@ == join_spec(strings_view(v@), sep@),
{
    let mut parts: Vec<Vec<char>> = Vec::new();
    let mut i: usize = 0;
    while i < v.len()
        invariant
            i <= v@.len(),
            views(parts@) == strings_view(v@).take(i as int),
        decreases v@.len() - i,
    {
        push_line(&mut parts, str_chars(v[i].as_str()));
        proof {
            assert(strings_view(v@).take(i + 1) =~= strings_view(v@).take(i as int).push(v@[i as int]@));
        }
        i += 1;
    }
    assert(strings_view(v@).take(v@.len() as int) =~= strings_view(v@));
    join_chars(&parts, &str_chars(sep))
}

pub(crate) fn list_or_none_exec(v: &Vec<String>, sep: &str) -> (r: Vec<char>)
    ensures
        r@ == list_or_none(strings_view(v@), sep@),
{
    if v.len() == 0 {
        str_chars("(none)")
    } else {
        join_strings(v, sep)
    }
}

fn push_bool(out: &mut Vec<char>, b: bool)
    ensures
        final(out)@ == old(out)@ + bool_text(b),
{
    if b {
        push_str(out, "true");
    } else {
        push_str(out, "false");
    }
}

fn push_opt(out: &mut Vec<char>, o: &Option<String>, d: &str)
    ensures
        final(out)@ == old(out)@ + opt_or(opt_string(*o), d@),
{
    match o {
        Some(s) => push_str(out, s.as_str()),
        None => push_str(out, d),
    }
}

fn push_opt_or_empty(out: &mut Vec<char>, o: &Option<String>)
    ensures
        final(out)@ == old(out)@ + opt_or(opt_string(*o), Seq::empty()),
{
    match o {
        Some(s) => push_str(out, s.as_str()),
        None => {
            assert(out@ =~= out@ + Seq::<char>::empty());
        },
    }
}

fn entry_summary(e: &RoleGovernanceEntry) -> (r: Vec<char>)
    ensures
        r@ == entry_summary_spec(*e),
{
    let mut l = str_chars("role:");
    push_str(&mut l, e.id.as_str());
    push_str(&mut l, " display_name=");
    push_str(&mut l, e.display_name.as_str());
    push_str(&mut l, " glyph=");
    push_opt_or_empty(&mut l, &e.glyph);
    push_str(&mut l, " copy_source=");
    push_opt_or_empty(&mut l, &e.copy_source);
    push_str(&mut l, " title=");
    push_str(&mut l, e.title.as_str());
    push_str(&mut l, " tab_label=");
    push_str(&mut l, e.tab_label.as_str());
    push_str(&mut l, " header_badge=");
    push_str(&mut l, e.header_badge.as_str());
    push_str(&mut l, " assistant_en=");
    push_str(&mut l, e.assistant_en.as_str());
    push_str(&mut l, " assistant_zh=");
    push_str(&mut l, e.assistant_zh.as_str());
    push_str(&mut l, " base_persona=");
    push_str(&mut l, e.base_persona.slug());
    push_str(&mut l, " context_dir=");
    push_str(&mut l, e.context_dir.as_str());
    push_str(&mut l, " memory_dir=");
    push_str(&mut l, e.memory_dir.as_str());
    push_str(&mut l, " default_tools=");
    push_chars(&mut l, &list_or_none_exec(&e.default_tools, "|"));
    push_str(&mut l, " managed_role_ids=");
    push_chars(&mut l, &list_or_none_exec(&e.managed_role_ids, "|"));
    push_str(&mut l, " enabled=");
    push_bool(&mut l, e.enabled);
    push_str(&mut l, " visible_tab=");
    push_bool(&mut l, e.visible_tab);
    push_str(&mut l, " supports_topbar=false context_governance_mode=");
    push_str(&mut l, e.context_governance.mode.as_str());
    push_str(&mut l, " manage_threshold_kb=");
    push_dec(&mut l, e.context_governance.manage_threshold_kb);
    push_str(&mut l, " compact_threshold_kb=");
    push_dec(&mut l, e.context_governance.compact_threshold_kb);
    push_str(&mut l, " report_to_matrix=");
    push_bool(&mut l, e.context_governance.report_to_matrix);
    assert(l@ =~= entry_summary_spec(*e));
    l
}

fn prefixed_count(prefix: &str, n: usize) -> (r: Vec<char>)
    ensures
        r@ == prefix@ + dec_spec(n as nat),
{
    let mut l = str_chars(prefix);
    push_dec(&mut l, n as u64);
    l
}

impl RoleGovernanceCatalog {
    /// The catalog as the model reads it.
    pub fn model_summary_lines(&self) -> (r: Vec<String>)
        ensures
            strings_view(r@) == summary_lines_spec(*self),
    {
        let es = &self.entries;
        let mut lines: Vec<String> = Vec::new();
        let mut l0 = str_chars("registry_version:");
        push_dec(&mut l0, self.registry_version as u64);
        push_string(&mut lines, chars_to_string(&l0));
        push_string(&mut lines, chars_to_string(&prefixed_count("roles_total:", self.roles_total())));
        push_string(&mut lines, chars_to_string(&prefixed_count("enabled_roles:", self.enabled_roles_total())));
        push_string(&mut lines, chars_to_string(&prefixed_count("visible_tabs:", self.visible_tabs_total())));
        push_string(
            &mut lines,
            chars_to_string(&prefixed_count("hidden_enabled_roles:", self.hidden_enabled_roles_total())),
        );
        let ids = self.role_ids();
        let mut l5 = str_chars("role_ids:");
        push_chars(&mut l5, &list_or_none_exec(&ids, "|"));
        push_string(&mut lines, chars_to_string(&l5));
        let ghost head = strings_view(lines@);
        let mut i: usize = 0;
        while i < es.len()
            invariant
                i <= es@.len(),
                strings_view(lines@) == head + es@.take(i as int).map_values(
                    |e: RoleGovernanceEntry| entry_summary_spec(e),
                ),
            decreases es@.len() - i,
        {
            push_string(&mut lines, chars_to_string(&entry_summary(&es[i])));
            proof {
                assert(es@.take(i + 1).map_values(|e: RoleGovernanceEntry| entry_summary_spec(e)) =~= es@.take(
                    i as int,
                ).map_values(|e: RoleGovernanceEntry| entry_summary_spec(e)).push(entry_summary_spec(es@[i as int])));
            }
            i += 1;
        }
        assert(es@.take(es@.len() as int) =~= es@);
        assert(strings_view(lines@) =~= summary_lines_spec(*self));
        lines
    }
}

/// One line of the role list: id, label, base, tools, directories, where it
/// shows, governance, source and managed roles.
pub open spec fn list_line_spec(e: RoleGovernanceEntry) -> Seq<char> {
    "- "@ + e.id@ + " · "@ + e.title@ + " · "@ + slug_spec(e.base_persona) + " · "@ + list_or_none(
        strings_view(e.default_tools@),
        ","@,
    ) + " · context/"@ + e.context_dir@ + " · memory/"@ + e.memory_dir@ + " · "@ + (if e.visible_tab {
        "tab"@
    } else {
        "catalog"@
    }) + (if e.enabled {
        Seq::empty()
    } else {
        " · disabled"@
    }) + " · "@ + e.context_governance.mode@ + "("@ + dec_spec(e.context_governance.manage_threshold_kb as nat) + "/"@
        + dec_spec(e.context_governance.compact_threshold_kb as nat) + ") · copy:"@ + opt_or(
        opt_string(e.copy_source),
        "(none)"@,
    ) + " · managed:"@ + list_or_none(strings_view(e.managed_role_ids@), ","@)
}

/// The role list shown to the user.
pub open spec fn list_preview_spec(c: RoleGovernanceCatalog) -> Seq<char> {
    join_lines(
        seq![
            "roles:"@,
            "registry_version: "@ + dec_spec(c.registry_version as nat),
            "columns: id · label · base · tools · context · memory · ui · context_governance · copy · managed_roles"@,
        ] + c.entries@.map_values(|e: RoleGovernanceEntry| list_line_spec(e)) + (if c.entries@.len() == 0 {
            seq!["- (empty)"@]
        } else {
            Seq::empty()
        }),
    )
}

fn list_line(e: &RoleGovernanceEntry) -> (r: Vec<char>)
    ensures
        r@ == list_line_spec(*e),
{
    let mut l = str_chars("- ");
    push_str(&mut l, e.id.as_str());
    push_str(&mut l, " · ");
    push_str(&mut l, e.title.as_str());
    push_str(&mut l, " · ");
    push_str(&mut l, e.base_persona.slug());
    push_str(&mut l, " · ");
    push_chars(&mut l, &list_or_none_exec(&e.default_tools, ","));
    push_str(&mut l, " · context/");
    push_str(&mut l, e.context_dir.as_str());
    push_str(&mut l, " · memory/");
    push_str(&mut l, e.memory_dir.as_str());
    push_str(&mut l, " · ");
    if e.visible_tab {
        push_str(&mut l, "tab");
    } else {
        push_str(&mut l, "catalog");
    }
    if !e.enabled {
        push_str(&mut l, " · disabled");
    }
    push_str(&mut l, " · ");
    push_str(&mut l, e.context_governance.mode.as_str());
    push_str(&mut l, "(");
    push_dec(&mut l, e.context_governance.manage_threshold_kb);
    push_str(&mut l, "/");
    push_dec(&mut l, e.context_governance.compact_threshold_kb);
    push_str(&mut l, ") · copy:");
    push_opt(&mut l, &e.copy_source, "(none)");
    push_str(&mut l, " · managed:");
    push_chars(&mut l, &list_or_none_exec(&e.managed_role_ids, ","));
    assert(l@ =~= list_line_spec(*e));
    l
}

/// The role list of a registry, as the user sees it.
pub fn registry_list_preview(registry: &RoleRegistryFile) -> (r: String)
    ensures
        exists|c: RoleGovernanceCatalog| catalog_of(c, *registry) && r@ == list_preview_spec(c),
{
    let c = governance_catalog_from_registry(registry);
    let mut lines: Vec<Vec<char>> = Vec::new();
    push_line(&mut lines, str_chars("roles:"));
    let mut l1 = str_chars("registry_version: ");
    push_dec(&mut l1, c.registry_version as u64);
    push_line(&mut lines, l1);
    push_line(
        &mut lines,
        str_chars("columns: id · label · base · tools · context · memory · ui · context_governance · copy · managed_roles"),
    );
    let ghost head = views(lines@);
    let es = &c.entries;
    let mut i: usize = 0;
    while i < es.len()
        invariant
            i <= es@.len(),
            views(lines@) == head + es@.take(i as int).map_values(|e: RoleGovernanceEntry| list_line_spec(e)),
        decreases es@.len() - i,
    {
        push_line(&mut lines, list_line(&es[i]));
        proof {
            assert(es@.take(i + 1).map_values(|e: RoleGovernanceEntry| list_line_spec(e)) =~= es@.take(
                i as int,
            ).map_values(|e: RoleGovernanceEntry| list_line_spec(e)).push(list_line_spec(es@[i as int])));
        }
        i += 1;
    }
    assert(es@.take(es@.len() as int) =~= es@);
    if registry.roles.len() == 0 {
        push_line(&mut lines, str_chars("- (empty)"));
    }
    proof {
        assert(views(lines@) =~= seq![
            "roles:"@,
            "registry_version: "@ + dec_spec(c.registry_version as nat),
            "columns: id · label · base · tools · context · memory · ui · context_governance · copy · managed_roles"@,
        ] + c.entries@.map_values(|e: RoleGovernanceEntry| list_line_spec(e)) + (if c.entries@.len() == 0 {
            seq!["- (empty)"@]
        } else {
            Seq::empty()
        }));
    }
    let r = chars_to_string(&join_lines_exec(&lines));
    assert(catalog_of(c, *registry) && r@ == list_preview_spec(c));
    r
}

// ---------------------------------------------------------------------------
// Lookups
// ---------------------------------------------------------------------------

/// A tab of the role strip.
#[derive(Debug, Clone, PartialEq, Eq)]
pub struct RoleTab {
    pub id: String,
    pub glyph_label: String,
    pub hover_title: String,
}

/// The enabled roles, in registry order.
pub open spec fn enabled_roles(roles: Seq<DynamicRoleSpec>) -> Seq<DynamicRoleSpec>
    decreases roles.len(),
{
    if roles.len() == 0 {
        Seq::empty()
    } else {
        let prev = enabled_roles(roles.drop_last());
        if roles.last().enabled {
            prev.push(roles.last())
        } else {
            prev
        }
    }
}

pub open spec fn tab_is(t: RoleTab, r: DynamicRoleSpec) -> bool {
    t.id@ == r.id@ && t.glyph_label@ == tab_label_spec(r) && t.hover_title@ == title_spec(r)
}

/// The tabs of the first enabled roles, up to the limit.
pub fn visible_role_tabs_from(registry: &RoleRegistryFile) -> (r: Vec<RoleTab>)
    ensures
        ({
            let en = enabled_roles(registry.roles@);
            &&& r@.len() == min_nat(en.len(), ROLE_TAB_LIMIT as nat)
            &&& forall|i: int| 0 <= i < r@.len() ==> tab_is(#[trigger] r@[i], en[i])
        }),
{
    let roles = &registry.roles;
    let ghost all = roles@;
    let mut tabs: Vec<RoleTab> = Vec::new();
    let mut i: usize = 0;
    while i < roles.len() && tabs.len() < ROLE_TAB_LIMIT
        invariant
            i <= roles@.len(),
            all == roles@,
            tabs@.len() == min_nat(enabled_roles(roles@.take(i as int)).len(), ROLE_TAB_LIMIT as nat),
            forall|k: int| 0 <= k < tabs@.len() ==> tab_is(#[trigger] tabs@[k], enabled_roles(roles@.take(i as int))[k]),
        decreases roles@.len() - i,
    {
        proof {
            assert(roles@.take(i + 1).drop_last() =~= roles@.take(i as int));
        }
        let role = &roles[i];
        if role.enabled {
            let c = role.contract();
            tabs.push(RoleTab { id: c.identity.id, glyph_label: c.identity.tab_label, hover_title: c.identity.title });
        }
        i += 1;
    }
    proof {
        lemma_enabled_prefix(all, i as int);
        if i == all.len() {
            assert(all.take(i as int) =~= all);
        }
    }
    tabs
}

proof fn lemma_enabled_prefix(roles: Seq<DynamicRoleSpec>, i: int)
    requires
        0 <= i <= roles.len(),
    ensures
        enabled_roles(roles.take(i)).len() <= enabled_roles(roles).len(),
        forall|k: int|
            0 <= k < enabled_roles(roles.take(i)).len() ==> #[trigger] enabled_roles(roles.take(i))[k]
                == enabled_roles(roles)[k],
    decreases roles.len() - i,
{
    if i < roles.len() {
        lemma_enabled_prefix(roles, i + 1);
        assert(roles.take(i + 1).drop_last() =~= roles.take(i));
        assert(roles.take(i + 1).last() == roles[i]);
        let a = enabled_roles(roles.take(i));
        let b = enabled_roles(roles.take(i + 1));
        assert(b == (if roles[i].enabled {
            a.push(roles[i])
        } else {
            a
        }));
        assert forall|k: int| 0 <= k < a.len() implies #[trigger] a[k] == enabled_roles(roles)[k] by {
            assert(a[k] == b[k]);
        }
    } else {
        assert(roles.take(i) =~= roles);
    }
}

/// The role a name refers to: an enabled role whose id is the name as a
/// role id, whose display name is the name in any ASCII case, or whose
/// glyph is the name.
pub open spec fn refers_to(r: DynamicRoleSpec, needle: Seq<char>) -> bool {
    &&& r.enabled
    &&& {
        ||| role_id_spec(needle) == Ok::<Seq<char>, RoleErr>(r.id@)
        ||| eq_ignore_case(r.display_name@, needle)
        ||| opt_string(r.glyph) == Some(needle)
    }
}

pub fn copy_role(r: &DynamicRoleSpec) -> (c: DynamicRoleSpec)
    ensures
        c@ == r@,
{
    DynamicRoleSpec {
        id: r.id.clone(),
        display_name: r.display_name.clone(),
        glyph: copy_opt_string(&r.glyph),
        context_dir: r.context_dir.clone(),
        base_persona: copy_opt_string(&r.base_persona),
        copy_source: copy_opt_string(&r.copy_source),
        default_tools: clone_strings(&r.default_tools),
        managed_role_ids: clone_strings(&r.managed_role_ids),
        enabled: r.enabled,
        context_governance: copy_governance(&r.context_governance),
        created_at_ms: r.created_at_ms,
        updated_at_ms: r.updated_at_ms,
    }
}

/// Role `i` is the first the name refers to.
pub open spec fn first_ref_at(roles: Seq<DynamicRoleSpec>, needle: Seq<char>, i: int) -> bool {
    &&& 0 <= i < roles.len()
    &&& refers_to(roles[i], needle)
    &&& forall|j: int| 0 <= j < i ==> !refers_to(#[trigger] roles[j], needle)
}

/// The first role of the registry a name refers to.
pub fn find_role_in(registry: &RoleRegistryFile, raw: &str) -> (r: Option<DynamicRoleSpec>)
    ensures
        ({
            let needle = trim_spec(raw@);
            match r {
                Some(x) => needle.len() > 0 && exists|i: int|
                    #[trigger] first_ref_at(registry.roles@, needle, i) && x@ == registry.roles@[i]@,
                None => needle.len() == 0 || forall|i: int|
                    0 <= i < registry.roles@.len() ==> !refers_to(#[trigger] registry.roles@[i], needle),
            }
        }),
{
    let needle = trim_chars(&str_chars(raw));
    if needle.len() == 0 {
        return None;
    }
    let ns = chars_to_string(&needle);
    let canonical = normalize_role_id(ns.as_str());
    let roles = &registry.roles;
    let mut i: usize = 0;
    while i < roles.len()
        invariant
            i <= roles@.len(),
            needle@ == trim_spec(raw@),
            ns@ == needle@,
            roles@ == registry.roles@,
            needle@.len() > 0,
            str_result(canonical) == role_id_spec(needle@),
            forall|j: int| 0 <= j < i ==> !refers_to(#[trigger] roles@[j], needle@),
        decreases roles@.len() - i,
    {
        let role = &roles[i];
        let by_id = match &canonical {
            Ok(c) => *c == role.id,
            Err(_) => false,
        };
        let by_name = {
            let dn = lower_chars(&str_chars(role.display_name.as_str()));
            chars_eq(&dn, &lower_chars(&needle))
        };
        let by_glyph = match &role.glyph {
            Some(g) => chars_eq(&str_chars(g.as_str()), &needle),
            None => false,
        };
        if role.enabled && (by_id || by_name || by_glyph) {
            let c = copy_role(role);
            assert(first_ref_at(roles@, needle@, i as int) && c@ == roles@[i as int]@);
            return Some(c);
        }
        i += 1;
    }
    None
}

/// The role an operation is about: the draft's id, else the first of the
/// listed ids.
pub open spec fn target_id_spec(draft_id: Option<Seq<char>>, role_ids: Seq<Seq<char>>) -> Result<Seq<char>, RoleErr> {
    match draft_id {
        Some(id) => role_id_spec(id),
        None => if role_ids.len() > 0 {
            role_id_spec(role_ids[0])
        } else {
            Err(RoleErr::MissingRoleTarget)
        },
    }
}

pub fn role_id_from_inputs(role: Option<&DynamicRoleDraft>, role_ids: &Vec<String>) -> (r: Result<String, RoleError>)
    ensures
        str_result(r) == target_id_spec(
            match role {
                Some(d) => opt_string(d.id),
                None => None,
            },
            strings_view(role_ids@),
        ),
{
    let draft_id: Option<&str> = match role {
        Some(d) => opt_as_str(&d.id),
        None => None,
    };
    match draft_id {
        Some(id) => normalize_role_id(id),
        None => if role_ids.len() > 0 {
            normalize_role_id(role_ids[0].as_str())
        } else {
            Err(RoleError::MissingRoleTarget)
        },
    }
}

/// A role split off the Server persona: Server-based, and copied from
/// Server or carrying the split id prefix.
pub open spec fn is_server_split_spec(r: DynamicRoleSpec) -> bool {
    base_kind_spec(r) == PersonaKind::Server && (opt_string(r.copy_source) == Some("server"@)
        || crate::text::starts_with_spec(r.id@, "server_yu_"@))
}

pub fn is_server_split_role_spec(role: &DynamicRoleSpec) -> (r: bool)
    ensures
        r == is_server_split_spec(*role),
{
    let from_server = match &role.copy_source {
        Some(c) => chars_eq_str(&str_chars(c.as_str()), "server"),
        None => false,
    };
    role_base_persona_kind(role) == PersonaKind::Server && (from_server || crate::text::starts_with_str(
        &str_chars(role.id.as_str()),
        "server_yu_",
    ))
}

pub open spec fn split_count(roles: Seq<DynamicRoleSpec>) -> nat
    decreases roles.len(),
{
    if roles.len() == 0 {
        0
    } else {
        split_count(roles.drop_last()) + if is_server_split_spec(roles.last()) {
            1nat
        } else {
            0nat
        }
    }
}

pub fn server_split_role_count(registry: &RoleRegistryFile) -> (r: usize)
    ensures
        r == split_count(registry.roles@),
{
    let roles = &registry.roles;
    let mut n: usize = 0;
    let mut i: usize = 0;
    while i < roles.len()
        invariant
            i <= roles@.len(),
            n == split_count(roles@.take(i as int)),
            n <= i,
        decreases roles@.len() - i,
    {
        proof {
            assert(roles@.take(i + 1).drop_last() =~= roles@.take(i as int));
        }
        if is_server_split_role_spec(&roles[i]) {
            n = n + 1;
        }
        i += 1;
    }
    assert(roles@.take(roles@.len() as int) =~= roles@);
    n
}

/// What a dynamic role is told about itself and the system it works in,
/// after its name and id.
pub const ROLE_PROMPT_RULES: &'static str = "）。\n你的角色由 Matrix 创建和调度；Matrix 是多角色系统的母体主控，负责分配任务、工具、模型与协作路线。\n司是可见的后台治理 persona，负责高价值上下文、日记和全局记忆整理；Coding、Server 与其它 Matrix 创建的动态角色可能与你并行协作。\n你会在 provider 系统区看到 Matrix 维护的 SharedBoard（fastmemory public 公共情报板）。执行前先读取公共情报板，理解当前角色、职责、产物位置、阻塞和协作状态。\n你应遵守 ProjectYing 的统一工具治理、上下文治理和沟通规则：\n- 遇到方向、权限、用户拍板或跨部门问题，向 Matrix 汇报。\n- 发现跨角色事实、产物路径、阻塞、职责变化或需要共享的结论时，向 Matrix 汇报，由 Matrix 更新共享板。\n- 工具使用以 Matrix 分配的 toolbox 为准，不自行假设隐藏工具可用。\n- 输出重点放在结果、风险、下一步，不粘贴冗长工具回执。\n";

/// The prompt a role starts from when it was given none.
pub open spec fn default_prompt_spec(r: DynamicRoleSpec) -> Seq<char> {
    "你是 ProjectYing 动态角色："@ + name_or_id(r) + "（"@ + r.id@ + ROLE_PROMPT_RULES@
}

pub fn default_role_prompt(role: &DynamicRoleSpec) -> (r: String)
    ensures
        r@ == default_prompt_spec(*role),
{
    let c = role.contract();
    let mut out = str_chars("你是 ProjectYing 动态角色：");
    push_str(&mut out, c.identity.header_badge.as_str());
    push_str(&mut out, "（");
    push_str(&mut out, role.id.as_str());
    push_str(&mut out, ROLE_PROMPT_RULES);
    chars_to_string(&out)
}

// ---------------------------------------------------------------------------
// Registry normal form
// ---------------------------------------------------------------------------

/// `a` sorts before `b`, character by character (the order of `str`).
pub open spec fn lex_lt(a: Seq<char>, b: Seq<char>) -> bool
    decreases a.len(),
{
    if a.len() == 0 {
        b.len() > 0
    } else if b.len() == 0 {
        false
    } else if a[0] != b[0] {
        a[0] < b[0]
    } else {
        lex_lt(a.drop_first(), b.drop_first())
    }
}

pub proof fn lemma_lex_asym(a: Seq<char>, b: Seq<char>)
    ensures
        !(lex_lt(a, b) && lex_lt(b, a)),
    decreases a.len(),
{
    if a.len() > 0 && b.len() > 0 && a[0] == b[0] {
        lemma_lex_asym(a.drop_first(), b.drop_first());
    }
}

pub proof fn lemma_lex_total(a: Seq<char>, b: Seq<char>)
    ensures
        a != b ==> lex_lt(a, b) || lex_lt(b, a),
    decreases a.len(),
{
    if a.len() == 0 && b.len() == 0 {
        assert(a =~= b);
    } else if a.len() > 0 && b.len() > 0 && a[0] == b[0] {
        lemma_lex_total(a.drop_first(), b.drop_first());
        if a.drop_first() == b.drop_first() {
            assert(a =~= seq![a[0]] + a.drop_first());
            assert(b =~= seq![b[0]] + b.drop_first());
        }
    }
}

pub proof fn lemma_lex_trans(a: Seq<char>, b: Seq<char>, c: Seq<char>)
    ensures
        lex_lt(a, b) && lex_lt(b, c) ==> lex_lt(a, c),
    decreases a.len(),
{
    if a.len() > 0 && b.len() > 0 && c.len() > 0 {
        lemma_lex_trans(a.drop_first(), b.drop_first(), c.drop_first());
    }
}

pub fn lex_less(a: &[char], b: &[char]) -> (r: bool)
    ensures
        r == lex_lt(a@, b@),
{
    let mut i: usize = 0;
    let n = a.len();
    let m = b.len();
    assert(a@.skip(0) =~= a@);
    assert(b@.skip(0) =~= b@);
    while i < n && i < m && a[i] == b[i]
        invariant
            i <= n,
            i <= m,
            n == a@.len(),
            m == b@.len(),
            lex_lt(a@, b@) == lex_lt(a@.skip(i as int), b@.skip(i as int)),
        decreases n - i,
    {
        proof {
            assert(a@.skip(i as int).drop_first() =~= a@.skip(i + 1));
            assert(b@.skip(i as int).drop_first() =~= b@.skip(i + 1));
        }
        i += 1;
    }
    if i == n {
        i < m
    } else if i == m {
        false
    } else {
        a[i] < b[i]
    }
}

pub open spec fn role_models(roles: Seq<DynamicRoleSpec>) -> Seq<RoleModel> {
    roles.map_values(|r: DynamicRoleSpec| r@)
}

pub open spec fn has_model_id(ms: Seq<RoleModel>, id: Seq<char>) -> bool {
    exists|i: int| 0 <= i < ms.len() && (#[trigger] ms[i]).id == id
}

pub open spec fn has_model_dir(ms: Seq<RoleModel>, dir: Seq<char>) -> bool {
    exists|i: int| 0 <= i < ms.len() && lower_spec((#[trigger] ms[i]).context_dir) == lower_spec(dir)
}

/// The first `n` stored roles normalized, each id kept once (the first one
/// seen); a second role in a directory already taken, in any ASCII case,
/// is an error.
pub open spec fn norm_upto(roles: Seq<RoleModel>, now: u64, n: nat) -> Result<Seq<RoleModel>, RoleErr>
    decreases n,
{
    if n == 0 {
        Ok(Seq::empty())
    } else {
        match norm_upto(roles, now, (n - 1) as nat) {
            Err(e) => Err(e),
            Ok(prev) => match stored_role_spec(roles[n - 1], now) {
                Err(e) => Err(e),
                Ok(m) => if has_model_id(prev, m.id) {
                    Ok(prev)
                } else if has_model_dir(prev, m.context_dir) {
                    Err(RoleErr::DuplicateContextDir(m.context_dir))
                } else {
                    Ok(prev.push(m))
                },
            },
        }
    }
}

/// The roles in strictly increasing id order.
pub open spec fn sorted_by_id(ms: Seq<RoleModel>) -> bool {
    forall|i: int, j: int| 0 <= i < j < ms.len() ==> lex_lt((#[trigger] ms[i]).id, (#[trigger] ms[j]).id)
}

/// The same roles, in any order.
pub open spec fn same_roles(a: Seq<RoleModel>, b: Seq<RoleModel>) -> bool {
    &&& a.len() == b.len()
    &&& forall|i: int| 0 <= i < a.len() ==> b.contains(#[trigger] a[i])
    &&& forall|i: int| 0 <= i < b.len() ==> a.contains(#[trigger] b[i])
}

pub(crate) fn find_model_id(v: &Vec<DynamicRoleSpec>, id: &String) -> (r: bool)
    ensures
        r == has_model_id(role_models(v@), id@),
{
    let ghost ms = role_models(v@);
    let mut i: usize = 0;
    while i < v.len()
        invariant
            i <= v@.len(),
            ms == role_models(v@),
            forall|j: int| 0 <= j < i ==> (#[trigger] ms[j]).id != id@,
        decreases v@.len() - i,
    {
        if v[i].id == *id {
            assert(ms[i as int].id == id@);
            return true;
        }
        i += 1;
    }
    false
}

pub(crate) fn find_model_dir(v: &Vec<DynamicRoleSpec>, dir: &String) -> (r: bool)
    ensures
        r == has_model_dir(role_models(v@), dir@),
{
    let ghost ms = role_models(v@);
    let key = lower_chars(&str_chars(dir.as_str()));
    let mut i: usize = 0;
    while i < v.len()
        invariant
            i <= v@.len(),
            ms == role_models(v@),
            key@ == lower_spec(dir@),
            forall|j: int| 0 <= j < i ==> lower_spec((#[trigger] ms[j]).context_dir) != lower_spec(dir@),
        decreases v@.len() - i,
    {
        if chars_eq(&lower_chars(&str_chars(v[i].context_dir.as_str())), &key) {
            assert(lower_spec(ms[i as int].context_dir) == lower_spec(dir@));
            return true;
        }
        i += 1;
    }
    false
}

proof fn lemma_same_roles_keys(a: Seq<RoleModel>, b: Seq<RoleModel>, id: Seq<char>, dir: Seq<char>)
    requires
        same_roles(a, b),
    ensures
        has_model_id(a, id) == has_model_id(b, id),
        has_model_dir(a, dir) == has_model_dir(b, dir),
{
    if has_model_id(a, id) {
        let i = choose|i: int| 0 <= i < a.len() && (#[trigger] a[i]).id == id;
        assert(b.contains(a[i]));
        let k = choose|k: int| 0 <= k < b.len() && b[k] == a[i];
        assert(b[k].id == id);
    }
    if has_model_id(b, id) {
        let i = choose|i: int| 0 <= i < b.len() && (#[trigger] b[i]).id == id;
        assert(a.contains(b[i]));
        let k = choose|k: int| 0 <= k < a.len() && a[k] == b[i];
        assert(a[k].id == id);
    }
    if has_model_dir(a, dir) {
        let i = choose|i: int| 0 <= i < a.len() && lower_spec((#[trigger] a[i]).context_dir) == lower_spec(dir);
        assert(b.contains(a[i]));
        let k = choose|k: int| 0 <= k < b.len() && b[k] == a[i];
        assert(lower_spec(b[k].context_dir) == lower_spec(dir));
    }
    if has_model_dir(b, dir) {
        let i = choose|i: int| 0 <= i < b.len() && lower_spec((#[trigger] b[i]).context_dir) == lower_spec(dir);
        assert(a.contains(b[i]));
        let k = choose|k: int| 0 <= k < a.len() && a[k] == b[i];
        assert(lower_spec(a[k].context_dir) == lower_spec(dir));
    }
}

proof fn lemma_norm_err_stays(roles: Seq<RoleModel>, now: u64, k: nat, n: nat)
    requires
        k <= n,
        norm_upto(roles, now, k) is Err,
    ensures
        norm_upto(roles, now, n) == norm_upto(roles, now, k),
    decreases n - k,
{
    if k < n {
        lemma_norm_err_stays(roles, now, k, (n - 1) as nat);
    }
}

/// Puts `m` into the sorted roles at its place by id.
fn insert_sorted(v: &mut Vec<DynamicRoleSpec>, m: DynamicRoleSpec)
    requires
        sorted_by_id(role_models(old(v)@)),
        !has_model_id(role_models(old(v)@), m.id@),
    ensures
        sorted_by_id(role_models(final(v)@)),
        same_roles(role_models(final(v)@), role_models(old(v)@).push(m@)),
{
    let ghost before = role_models(v@);
    let mv = str_chars(m.id.as_str());
    let mut p: usize = 0;
    while p < v.len() && !lex_less(&mv, &str_chars(v[p].id.as_str()))
        invariant
            p <= v@.len(),
            before == role_models(v@),
            mv@ == m.id@,
            forall|k: int| 0 <= k < p ==> !lex_lt(m.id@, (#[trigger] before[k]).id),
        decreases v@.len() - p,
    {
        p += 1;
    }
    let ghost mm = m@;
    v.insert(p, m);
    proof {
        let after = role_models(v@);
        assert(after =~= before.insert(p as int, mm));
        assert forall|k: int| 0 <= k < p implies lex_lt((#[trigger] before[k]).id, mm.id) by {
            lemma_lex_total(before[k].id, mm.id);
            if before[k].id == mm.id {
                assert(has_model_id(before, mm.id));
            }
        }
        assert forall|k: int| p <= k < before.len() implies lex_lt(mm.id, (#[trigger] before[k]).id) by {
            if k > p {
                lemma_lex_trans(mm.id, before[p as int].id, before[k].id);
            }
        }
        assert forall|i: int, j: int| 0 <= i < j < after.len() implies lex_lt(
            (#[trigger] after[i]).id,
            (#[trigger] after[j]).id,
        ) by {
            if i < p && j < p {
            } else if i < p && j == p {
            } else if i < p && j > p {
                assert(after[j] == before[j - 1]);
                lemma_lex_trans(before[i].id, mm.id, before[j - 1].id);
            } else if i == p {
                assert(after[j] == before[j - 1]);
            } else {
                assert(after[i] == before[i - 1]);
                assert(after[j] == before[j - 1]);
            }
        }
        let pushed = before.push(mm);
        assert forall|i: int| 0 <= i < after.len() implies pushed.contains(#[trigger] after[i]) by {
            if i < p {
                assert(pushed[i] == after[i]);
            } else if i == p {
                assert(pushed[before.len() as int] == after[i]);
            } else {
                assert(pushed[i - 1] == after[i]);
            }
        }
        assert forall|i: int| 0 <= i < pushed.len() implies after.contains(#[trigger] pushed[i]) by {
            if i < p {
                assert(after[i] == pushed[i]);
            } else if i == before.len() {
                assert(after[p as int] == pushed[i]);
            } else {
                assert(after[i + 1] == pushed[i]);
            }
        }
    }
}

/// Brings every stored role to its normal form and the registry to its
/// current version: each id once, each context directory once, sorted by
/// id. On an error the registry is left with no roles.
pub fn normalize_registry(registry: &mut RoleRegistryFile, now_ms: u64) -> (r: Result<(), RoleError>)
    ensures
        final(registry).version == 1,
        match norm_upto(role_models(old(registry).roles@), now_ms, old(registry).roles@.len()) {
            Err(e) => r matches Err(x) && x@ == e && final(registry).roles@.len() == 0,
            Ok(list) => r is Ok && sorted_by_id(role_models(final(registry).roles@)) && same_roles(
                role_models(final(registry).roles@),
                list,
            ),
        },
{
    let ghost input = role_models(registry.roles@);
    registry.version = 1;
    let mut old_roles: Vec<DynamicRoleSpec> = Vec::new();
    std::mem::swap(&mut old_roles, &mut registry.roles);
    assert(role_models(old_roles@) == input);
    let mut sorted: Vec<DynamicRoleSpec> = Vec::new();
    let mut i: usize = 0;
    assert(sorted_by_id(role_models(sorted@)));
    assert(same_roles(role_models(sorted@), Seq::<RoleModel>::empty()));
    while i < old_roles.len()
        invariant
            i <= old_roles@.len(),
            input == role_models(old_roles@),
            input == role_models(old(registry).roles@),
            registry.version == 1,
            registry.roles@.len() == 0,
            norm_upto(input, now_ms, i as nat) is Ok,
            sorted_by_id(role_models(sorted@)),
            same_roles(role_models(sorted@), norm_upto(input, now_ms, i as nat)->Ok_0),
        decreases old_roles@.len() - i,
    {
        let ghost prev = norm_upto(input, now_ms, i as nat)->Ok_0;
        let role = copy_role(&old_roles[i]);
        assert(input[i as int] == role@);
        match normalize_stored_role(role, now_ms) {
            Err(e) => {
                proof {
                    assert(norm_upto(input, now_ms, (i + 1) as nat) == Err::<Seq<RoleModel>, RoleErr>(e@));
                    lemma_norm_err_stays(input, now_ms, (i + 1) as nat, input.len());
                }
                return Err(e);
            },
            Ok(m) => {
                proof {
                    lemma_same_roles_keys(role_models(sorted@), prev, m.id@, m.context_dir@);
                }
                if find_model_id(&sorted, &m.id) {
                } else if find_model_dir(&sorted, &m.context_dir) {
                    let d = m.context_dir.clone();
                    proof {
                        assert(norm_upto(input, now_ms, (i + 1) as nat) == Err::<Seq<RoleModel>, RoleErr>(
                            RoleErr::DuplicateContextDir(d@),
                        ));
                        lemma_norm_err_stays(input, now_ms, (i + 1) as nat, input.len());
                    }
                    return Err(RoleError::DuplicateContextDir(d));
                } else {
                    let ghost s0 = role_models(sorted@);
                    let ghost mm = m@;
                    insert_sorted(&mut sorted, m);
                    proof {
                        let s1 = role_models(sorted@);
                        let target = prev.push(mm);
                        assert(same_roles(s1, s0.push(mm)));
                        assert forall|k: int| 0 <= k < s1.len() implies target.contains(#[trigger] s1[k]) by {
                            assert(s0.push(mm).contains(s1[k]));
                            let j = choose|j: int| 0 <= j < s0.push(mm).len() && s0.push(mm)[j] == s1[k];
                            if j < s0.len() {
                                assert(prev.contains(s0[j]));
                                let q = choose|q: int| 0 <= q < prev.len() && prev[q] == s0[j];
                                assert(target[q] == s1[k]);
                            } else {
                                assert(target[prev.len() as int] == s1[k]);
                            }
                        }
                        assert forall|k: int| 0 <= k < target.len() implies s1.contains(#[trigger] target[k]) by {
                            if k < prev.len() {
                                assert(s0.contains(prev[k]));
                                let q = choose|q: int| 0 <= q < s0.len() && s0[q] == prev[k];
                                assert(s0.push(mm)[q] == prev[k]);
                                assert(s1.contains(s0.push(mm)[q]));
                            } else {
                                assert(s0.push(mm)[s0.len() as int] == mm);
                                assert(s1.contains(s0.push(mm)[s0.len() as int]));
                            }
                        }
                    }
                }
            },
        }
        i += 1;
    }
    registry.roles = sorted;
    Ok(())
}

/// No two roles share an id or, in any ASCII case, a context directory.
pub open spec fn distinct_roles(ms: Seq<RoleModel>) -> bool {
    forall|p: int, q: int|
        0 <= p < q < ms.len() ==> (#[trigger] ms[p]).id != (#[trigger] ms[q]).id && lower_spec(ms[p].context_dir)
            != lower_spec(ms[q].context_dir)
}

proof fn lemma_norm_distinct(roles: Seq<RoleModel>, now: u64, n: nat)
    ensures
        norm_upto(roles, now, n) matches Ok(list) ==> distinct_roles(list),
    decreases n,
{
    if n > 0 {
        lemma_norm_distinct(roles, now, (n - 1) as nat);
        if let Ok(prev) = norm_upto(roles, now, (n - 1) as nat) {
            if let Ok(m) = stored_role_spec(roles[n - 1], now) {
                if !has_model_id(prev, m.id) && !has_model_dir(prev, m.context_dir) {
                    let list = prev.push(m);
                    assert forall|p: int, q: int| 0 <= p < q < list.len() implies (#[trigger] list[p]).id != (
                    #[trigger] list[q]).id && lower_spec(list[p].context_dir) != lower_spec(list[q].context_dir) by {
                        if q == prev.len() {
                            assert(list[p] == prev[p]);
                            if prev[p].id == m.id {
                                assert(has_model_id(prev, m.id));
                            }
                            if lower_spec(prev[p].context_dir) == lower_spec(m.context_dir) {
                                assert(has_model_dir(prev, m.context_dir));
                            }
                        }
                    }
                }
            }
        }
    }
}

/// Whatever the stored roles, a registry that normalizes keeps each role
/// once: no two share an id or, in any ASCII case, a context directory;
/// and they are in increasing id order.
pub proof fn lemma_normal_registry_distinct(input: Seq<RoleModel>, now: u64, out: Seq<RoleModel>)
    requires
        norm_upto(input, now, input.len()) is Ok,
        sorted_by_id(out),
        same_roles(out, norm_upto(input, now, input.len())->Ok_0),
    ensures
        distinct_roles(out),
{
    let list = norm_upto(input, now, input.len())->Ok_0;
    lemma_norm_distinct(input, now, input.len());
    assert forall|p: int, q: int| 0 <= p < q < out.len() implies (#[trigger] out[p]).id != (#[trigger] out[q]).id
        && lower_spec(out[p].context_dir) != lower_spec(out[q].context_dir) by {
        lemma_lex_asym(out[p].id, out[q].id);
        assert(lex_lt(out[p].id, out[q].id));
        if out[p].id == out[q].id {
            assert(lex_lt(out[q].id, out[p].id));
        }
        assert(list.contains(out[p]));
        assert(list.contains(out[q]));
        let a = choose|a: int| 0 <= a < list.len() && list[a] == out[p];
        let b = choose|b: int| 0 <= b < list.len() && list[b] == out[q];
        assert(a != b);
        if a < b {
            assert(lower_spec(list[a].context_dir) != lower_spec(list[b].context_dir));
        } else {
            assert(lower_spec(list[b].context_dir) != lower_spec(list[a].context_dir));
        }
    }
}

} // verus!
