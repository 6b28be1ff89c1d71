//! The `apply_patch` text format: parsing, hunk location and replacement.
use vstd::prelude::*;

use crate::text::{
    chars_eq_str, chars_to_string, dec_spec, lines_chars, lines_spec, push_dec, push_str, slice_chars,
    starts_with_spec, starts_with_str, str_chars, trim_chars, trim_spec, views,
};

verus! {

// ---------------------------------------------------------------------------
// Types
// ---------------------------------------------------------------------------

#[derive(Debug, Clone, PartialEq, Eq)]
pub enum CodexPatchLine {
    Context(String),
    Delete(String),
    Add(String),
}

#[derive(Debug, Clone, PartialEq, Eq)]
pub struct CodexPatchHunk {
    pub anchor: Option<String>,
    pub lines: Vec<CodexPatchLine>,
    pub eof: bool,
}

#[derive(Debug, Clone, PartialEq, Eq)]
pub enum CodexPatchOperation {
    Add { path: String, lines: Vec<String> },
    Delete { path: String },
    Update { path: String, move_to: Option<String>, hunks: Vec<CodexPatchHunk> },
}

/// Why a patch text was refused.
#[derive(Debug, Clone, PartialEq, Eq)]
pub enum PatchParseError {
    MissingBegin,
    InvalidAddLine { line: usize },
    EmptyAdd { line: usize, path: String },
    EofWithoutHunk { line: usize },
    InvalidUpdateLine { line: usize },
    EmptyUpdate { line: usize, path: String },
    InvalidHeader { line: usize, text: String },
    MissingEnd,
}

// ---------------------------------------------------------------------------
// Models
// ---------------------------------------------------------------------------

pub enum LineModel {
    Context(Seq<char>),
    Delete(Seq<char>),
    Add(Seq<char>),
}

pub struct HunkModel {
    pub anchor: Option<Seq<char>>,
    pub lines: Seq<LineModel>,
    pub eof: bool,
}

pub enum OpModel {
    Add { path: Seq<char>, lines: Seq<Seq<char>> },
    Delete { path: Seq<char> },
    Update { path: Seq<char>, move_to: Option<Seq<char>>, hunks: Seq<HunkModel> },
}

pub enum PatchErrModel {
    MissingBegin,
    InvalidAddLine(nat),
    EmptyAdd(nat, Seq<char>),
    EofWithoutHunk(nat),
    InvalidUpdateLine(nat),
    EmptyUpdate(nat, Seq<char>),
    InvalidHeader(nat, Seq<char>),
    MissingEnd,
}

pub open spec fn opt_view(o: Option<String>) -> Option<Seq<char>> {
    match o {
        Some(s) => Some(s@),
        None => None,
    }
}

pub open spec fn strings_view(v: Seq<String>) -> Seq<Seq<char>> {
    v.map_values(|s: String| s@)
}

impl View for CodexPatchLine {
    type V = LineModel;

    open spec fn view(&self) -> LineModel {
        match self {
            CodexPatchLine::Context(s) => LineModel::Context(s@),
            CodexPatchLine::Delete(s) => LineModel::Delete(s@),
            CodexPatchLine::Add(s) => LineModel::Add(s@),
        }
    }
}

pub open spec fn patch_lines_view(v: Seq<CodexPatchLine>) -> Seq<LineModel> {
    v.map_values(|l: CodexPatchLine| l@)
}

impl View for CodexPatchHunk {
    type V = HunkModel;

    open spec fn view(&self) -> HunkModel {
        HunkModel { anchor: opt_view(self.anchor), lines: patch_lines_view(self.lines@), eof: self.eof }
    }
}

pub open spec fn hunks_view(v: Seq<CodexPatchHunk>) -> Seq<HunkModel> {
    v.map_values(|h: CodexPatchHunk| h@)
}

impl View for CodexPatchOperation {
    type V = OpModel;

    open spec fn view(&self) -> OpModel {
        match self {
            CodexPatchOperation::Add { path, lines } => OpModel::Add {
                path: path@,
                lines: strings_view(lines@),
            },
            CodexPatchOperation::Delete { path } => OpModel::Delete { path: path@ },
            CodexPatchOperation::Update { path, move_to, hunks } => OpModel::Update {
                path: path@,
                move_to: opt_view(*move_to),
                hunks: hunks_view(hunks@),
            },
        }
    }
}

pub open spec fn ops_view(v: Seq<CodexPatchOperation>) -> Seq<OpModel> {
    v.map_values(|o: CodexPatchOperation| o@)
}

impl PatchParseError {
    pub open spec fn message_spec(self) -> Seq<char> {
        match self {
            PatchParseError::MissingBegin => "The first line of the patch must be '*** Begin Patch'"@,
            PatchParseError::InvalidAddLine { line } => "Invalid Add File line on line "@ + dec_spec(line as nat)
                + ": expected '+'"@,
            PatchParseError::EmptyAdd { line, path } => "Invalid patch hunk on line "@ + dec_spec(line as nat)
                + ": Add file hunk for path '"@ + path@ + "' is empty"@,
            PatchParseError::EofWithoutHunk { line } => "Invalid patch hunk on line "@ + dec_spec(line as nat)
                + ": *** End of File must follow a change block"@,
            PatchParseError::InvalidUpdateLine { line } => "Invalid update line on line "@ + dec_spec(line as nat)
                + ": expected ' ', '+', or '-'"@,
            PatchParseError::EmptyUpdate { line, path } => "Invalid patch hunk on line "@ + dec_spec(line as nat)
                + ": Update file hunk for path '"@ + path@ + "' is empty"@,
            PatchParseError::InvalidHeader { line, text } => "Invalid patch hunk on line "@ + dec_spec(line as nat)
                + ": '"@ + text@
                + "' is not a valid hunk header. Valid hunk headers: '*** Add File: {path}', '*** Delete File: {path}', '*** Update File: {path}'"@,
            PatchParseError::MissingEnd => "Missing *** End Patch"@,
        }
    }

    /// Why the patch text was refused, as the model is told.
    pub fn message(&self) -> (r: String)
        ensures
            r@ == self.message_spec(),
    {
        let out: Vec<char> = match self {
            PatchParseError::MissingBegin => str_chars("The first line of the patch must be '*** Begin Patch'"),
            PatchParseError::InvalidAddLine { line } => {
                let mut o = str_chars("Invalid Add File line on line ");
                push_dec(&mut o, *line as u64);
                push_str(&mut o, ": expected '+'");
                o
            },
            PatchParseError::EmptyAdd { line, path } => {
                let mut o = str_chars("Invalid patch hunk on line ");
                push_dec(&mut o, *line as u64);
                push_str(&mut o, ": Add file hunk for path '");
                push_str(&mut o, path.as_str());
                push_str(&mut o, "' is empty");
                o
            },
            PatchParseError::EofWithoutHunk { line } => {
                let mut o = str_chars("Invalid patch hunk on line ");
                push_dec(&mut o, *line as u64);
                push_str(&mut o, ": *** End of File must follow a change block");
                o
            },
            PatchParseError::InvalidUpdateLine { line } => {
                let mut o = str_chars("Invalid update line on line ");
                push_dec(&mut o, *line as u64);
                push_str(&mut o, ": expected ' ', '+', or '-'");
                o
            },
            PatchParseError::EmptyUpdate { line, path } => {
                let mut o = str_chars("Invalid patch hunk on line ");
                push_dec(&mut o, *line as u64);
                push_str(&mut o, ": Update file hunk for path '");
                push_str(&mut o, path.as_str());
                push_str(&mut o, "' is empty");
                o
            },
            PatchParseError::InvalidHeader { line, text } => {
                let mut o = str_chars("Invalid patch hunk on line ");
                push_dec(&mut o, *line as u64);
                push_str(&mut o, ": '");
                push_str(&mut o, text.as_str());
                push_str(
                    &mut o,
                    "' is not a valid hunk header. Valid hunk headers: '*** Add File: {path}', '*** Delete File: {path}', '*** Update File: {path}'",
                );
                o
            },
            PatchParseError::MissingEnd => str_chars("Missing *** End Patch"),
        };
        chars_to_string(&out)
    }
}

impl View for PatchParseError {
    type V = PatchErrModel;

    open spec fn view(&self) -> PatchErrModel {
        match self {
            PatchParseError::MissingBegin => PatchErrModel::MissingBegin,
            PatchParseError::InvalidAddLine { line } => PatchErrModel::InvalidAddLine(*line as nat),
            PatchParseError::EmptyAdd { line, path } => PatchErrModel::EmptyAdd(*line as nat, path@),
            PatchParseError::EofWithoutHunk { line } => PatchErrModel::EofWithoutHunk(*line as nat),
            PatchParseError::InvalidUpdateLine { line } => PatchErrModel::InvalidUpdateLine(
                *line as nat,
            ),
            PatchParseError::EmptyUpdate { line, path } => PatchErrModel::EmptyUpdate(
                *line as nat,
                path@,
            ),
            PatchParseError::InvalidHeader { line, text } => PatchErrModel::InvalidHeader(
                *line as nat,
                text@,
            ),
            PatchParseError::MissingEnd => PatchErrModel::MissingEnd,
        }
    }
}

pub open spec fn parse_result_view(r: Result<Vec<CodexPatchOperation>, PatchParseError>) -> Result<
    Seq<OpModel>,
    PatchErrModel,
> {
    match r {
        Ok(v) => Ok(ops_view(v@)),
        Err(e) => Err(e@),
    }
}

// ---------------------------------------------------------------------------
// Grammar
// ---------------------------------------------------------------------------

pub open spec fn begin_marker() -> Seq<char> {
    "*** Begin Patch"@
}

pub open spec fn end_marker() -> Seq<char> {
    "*** End Patch"@
}

pub open spec fn eof_marker() -> Seq<char> {
    "*** End of File"@
}

pub open spec fn add_prefix() -> Seq<char> {
    "*** Add File: "@
}

pub open spec fn delete_prefix() -> Seq<char> {
    "*** Delete File: "@
}

pub open spec fn update_prefix() -> Seq<char> {
    "*** Update File: "@
}

pub open spec fn move_prefix() -> Seq<char> {
    "*** Move to: "@
}

pub open spec fn anchor_prefix() -> Seq<char> {
    "@@ "@
}

pub open spec fn bare_anchor() -> Seq<char> {
    "@@"@
}

/// CR LF and a lone CR both become LF.
pub open spec fn normalize_newlines_spec(s: Seq<char>) -> Seq<char>
    decreases s.len(),
{
    if s.len() == 0 {
        s
    } else if s[0] == '\r' && s.len() > 1 && s[1] == '\n' {
        seq!['\n'] + normalize_newlines_spec(s.skip(2))
    } else if s[0] == '\r' {
        seq!['\n'] + normalize_newlines_spec(s.skip(1))
    } else {
        seq![s[0]] + normalize_newlines_spec(s.skip(1))
    }
}

/// A directive line is compared after trimming.
pub open spec fn is_marker(line: Seq<char>, marker: Seq<char>) -> bool {
    trim_spec(line) == marker
}

/// The trimmed path after a header prefix.
pub open spec fn header_path(line: Seq<char>, prefix: Seq<char>) -> Option<Seq<char>> {
    let t = trim_spec(line);
    if starts_with_spec(t, prefix) {
        Some(trim_spec(t.skip(prefix.len() as int)))
    } else {
        None
    }
}

pub open spec fn is_hunk_header(line: Seq<char>) -> bool {
    header_path(line, add_prefix()) is Some || header_path(line, delete_prefix()) is Some
        || header_path(line, update_prefix()) is Some
}

pub enum ParseState {
    Top,
    InAdd { path: Seq<char>, header_line: nat, lines: Seq<Seq<char>> },
    InUpdate {
        path: Seq<char>,
        header_line: nat,
        move_to: Option<Seq<char>>,
        hunks: Seq<HunkModel>,
        cur: Option<HunkModel>,
    },
}

pub open spec fn state_rank(st: ParseState) -> int {
    match st {
        ParseState::Top => 0,
        _ => 1,
    }
}

pub open spec fn flush_hunk(hunks: Seq<HunkModel>, cur: Option<HunkModel>) -> Seq<HunkModel> {
    match cur {
        Some(h) => hunks.push(h),
        None => hunks,
    }
}

pub open spec fn empty_hunk(anchor: Option<Seq<char>>) -> HunkModel {
    HunkModel { anchor, lines: Seq::empty(), eof: false }
}

pub open spec fn all_hunks_empty(hunks: Seq<HunkModel>) -> bool {
    forall|k: int| 0 <= k < hunks.len() ==> (#[trigger] hunks[k]).lines.len() == 0
}

/// The body line of an update hunk, by its first character.
pub open spec fn body_line(c: Seq<char>) -> Option<LineModel> {
    if c.len() == 0 {
        None
    } else if c[0] == ' ' {
        Some(LineModel::Context(c.drop_first()))
    } else if c[0] == '-' {
        Some(LineModel::Delete(c.drop_first()))
    } else if c[0] == '+' {
        Some(LineModel::Add(c.drop_first()))
    } else {
        None
    }
}

pub open spec fn starts_body_char(c: Seq<char>) -> bool {
    c.len() > 0 && (c[0] == ' ' || c[0] == '+' || c[0] == '-')
}

/// The patch grammar, as a machine that reads `lines` from `i` in state `st`
/// with the operations `ops` read so far.
pub open spec fn parse_step(
    lines: Seq<Seq<char>>,
    i: int,
    st: ParseState,
    ops: Seq<OpModel>,
) -> Result<Seq<OpModel>, PatchErrModel>
    decreases lines.len() - i, state_rank(st),
{
    if i < 0 {
        Err(PatchErrModel::MissingEnd)
    } else {
        match st {
            ParseState::Top => {
                if i >= lines.len() {
                    Err(PatchErrModel::MissingEnd)
                } else if is_marker(lines[i], end_marker()) {
                    Ok(ops)
                } else if header_path(lines[i], add_prefix()) is Some {
                    parse_step(
                        lines,
                        i + 1,
                        ParseState::InAdd {
                            path: header_path(lines[i], add_prefix())->0,
                            header_line: (i + 1) as nat,
                            lines: Seq::empty(),
                        },
                        ops,
                    )
                } else if header_path(lines[i], delete_prefix()) is Some {
                    parse_step(
                        lines,
                        i + 1,
                        ParseState::Top,
                        ops.push(OpModel::Delete { path: header_path(lines[i], delete_prefix())->0 }),
                    )
                } else if header_path(lines[i], update_prefix()) is Some {
                    let path = header_path(lines[i], update_prefix())->0;
                    if i + 1 < lines.len() && header_path(lines[i + 1], move_prefix()) is Some {
                        parse_step(
                            lines,
                            i + 2,
                            ParseState::InUpdate {
                                path,
                                header_line: (i + 1) as nat,
                                move_to: header_path(lines[i + 1], move_prefix()),
                                hunks: Seq::empty(),
                                cur: None,
                            },
                            ops,
                        )
                    } else {
                        parse_step(
                            lines,
                            i + 1,
                            ParseState::InUpdate {
                                path,
                                header_line: (i + 1) as nat,
                                move_to: None,
                                hunks: Seq::empty(),
                                cur: None,
                            },
                            ops,
                        )
                    }
                } else {
                    Err(PatchErrModel::InvalidHeader((i + 1) as nat, lines[i]))
                }
            },
            ParseState::InAdd { path, header_line, lines: file_lines } => {
                if i >= lines.len() || is_hunk_header(lines[i]) || is_marker(lines[i], end_marker()) {
                    if file_lines.len() == 0 {
                        Err(PatchErrModel::EmptyAdd(header_line, path))
                    } else {
                        parse_step(
                            lines,
                            i,
                            ParseState::Top,
                            ops.push(OpModel::Add { path, lines: file_lines }),
                        )
                    }
                } else if lines[i].len() > 0 && lines[i][0] == '+' {
                    parse_step(
                        lines,
                        i + 1,
                        ParseState::InAdd {
                            path,
                            header_line,
                            lines: file_lines.push(lines[i].drop_first()),
                        },
                        ops,
                    )
                } else {
                    Err(PatchErrModel::InvalidAddLine((i + 1) as nat))
                }
            },
            ParseState::InUpdate { path, header_line, move_to, hunks, cur } => {
                if i >= lines.len() || is_marker(lines[i], end_marker()) || is_hunk_header(
                    lines[i],
                ) {
                    let hs = flush_hunk(hunks, cur);
                    if hs.len() == 0 || all_hunks_empty(hs) {
                        Err(PatchErrModel::EmptyUpdate(header_line, path))
                    } else {
                        parse_step(
                            lines,
                            i,
                            ParseState::Top,
                            ops.push(OpModel::Update { path, move_to, hunks: hs }),
                        )
                    }
                } else {
                    let c = lines[i];
                    let d = trim_spec(c);
                    if !starts_body_char(c) && starts_with_spec(d, anchor_prefix()) {
                        parse_step(
                            lines,
                            i + 1,
                            ParseState::InUpdate {
                                path,
                                header_line,
                                move_to,
                                hunks: flush_hunk(hunks, cur),
                                cur: Some(empty_hunk(Some(trim_spec(d.skip(anchor_prefix().len() as int))))),
                            },
                            ops,
                        )
                    } else if !starts_body_char(c) && d == bare_anchor() {
                        parse_step(
                            lines,
                            i + 1,
                            ParseState::InUpdate {
                                path,
                                header_line,
                                move_to,
                                hunks: flush_hunk(hunks, cur),
                                cur: Some(empty_hunk(None)),
                            },
                            ops,
                        )
                    } else if is_marker(c, eof_marker()) {
                        match cur {
                            None => Err(PatchErrModel::EofWithoutHunk((i + 1) as nat)),
                            Some(h) => parse_step(
                                lines,
                                i + 1,
                                ParseState::InUpdate {
                                    path,
                                    header_line,
                                    move_to,
                                    hunks,
                                    cur: Some(HunkModel { eof: true, ..h }),
                                },
                                ops,
                            ),
                        }
                    } else {
                        match body_line(c) {
                            None => Err(PatchErrModel::InvalidUpdateLine((i + 1) as nat)),
                            Some(l) => {
                                let h = match cur {
                                    Some(h) => h,
                                    None => empty_hunk(None),
                                };
                                parse_step(
                                    lines,
                                    i + 1,
                                    ParseState::InUpdate {
                                        path,
                                        header_line,
                                        move_to,
                                        hunks,
                                        cur: Some(HunkModel { lines: h.lines.push(l), ..h }),
                                    },
                                    ops,
                                )
                            },
                        }
                    }
                }
            },
        }
    }
}

/// What `parse_codex_patch` makes of a patch text.
pub open spec fn parse_patch_spec(text: Seq<char>) -> Result<Seq<OpModel>, PatchErrModel> {
    let lines = lines_spec(normalize_newlines_spec(text));
    if lines.len() == 0 || !is_marker(lines[0], begin_marker()) {
        Err(PatchErrModel::MissingBegin)
    } else {
        parse_step(lines, 1, ParseState::Top, Seq::empty())
    }
}


pub open spec fn cur_view(c: Option<CodexPatchHunk>) -> Option<HunkModel> {
    match c {
        Some(h) => Some(h@),
        None => None,
    }
}

// ---------------------------------------------------------------------------
// Executable parser
// ---------------------------------------------------------------------------

/// CR LF and lone CR become LF.
pub fn normalize_newlines_chars(s: &[char]) -> (r: Vec<char>)
    ensures
        r@ == normalize_newlines_spec(s@),
{
    let mut out: Vec<char> = Vec::new();
    let mut i: usize = 0;
    proof {
        assert(s@.skip(0) =~= s@);
        assert(out@ + normalize_newlines_spec(s@) =~= normalize_newlines_spec(s@));
    }
    while i < s.len()
        invariant
            i <= s.len(),
            out@ + normalize_newlines_spec(s@.skip(i as int)) == normalize_newlines_spec(s@),
        decreases s.len() - i,
    {
        let ghost rest = s@.skip(i as int);
        proof {
            assert(rest[0] == s@[i as int]);
        }
        if s[i] == '\r' && i + 1 < s.len() && s[i + 1] == '\n' {
            proof {
                assert(rest[1] == s@[i + 1]);
                assert(rest.skip(2) =~= s@.skip(i + 2));
                assert(out@.push('\n') + normalize_newlines_spec(s@.skip(i + 2)) =~= out@ + (
                seq!['\n'] + normalize_newlines_spec(rest.skip(2))));
            }
            out.push('\n');
            i += 2;
        } else if s[i] == '\r' {
            proof {
                assert(rest.skip(1) =~= s@.skip(i + 1));
                if rest.len() > 1 {
                    assert(rest[1] == s@[i + 1]);
                }
                assert(out@.push('\n') + normalize_newlines_spec(s@.skip(i + 1)) =~= out@ + (
                seq!['\n'] + normalize_newlines_spec(rest.skip(1))));
            }
            out.push('\n');
            i += 1;
        } else {
            proof {
                assert(rest.skip(1) =~= s@.skip(i + 1));
                assert(out@.push(s@[i as int]) + normalize_newlines_spec(s@.skip(i + 1)) =~= out@
                    + (seq![rest[0]] + normalize_newlines_spec(rest.skip(1))));
            }
            out.push(s[i]);
            i += 1;
        }
    }
    proof {
        assert(s@.skip(s@.len() as int) =~= Seq::<char>::empty());
        assert(out@ + Seq::<char>::empty() =~= out@);
    }
    out
}

/// `normalize_patch_text`: CR LF and lone CR become LF.
pub fn normalize_patch_text(text: &str) -> (r: String)
    ensures
        r@ == normalize_newlines_spec(text@),
{
    let v = str_chars(text);
    let n = normalize_newlines_chars(&v);
    chars_to_string(&n)
}

/// A directive line, compared after trimming.
pub fn is_patch_marker_line(line: &[char], marker: &str) -> (r: bool)
    ensures
        r == is_marker(line@, marker@),
{
    let t = trim_chars(line);
    chars_eq_str(&t, marker)
}

/// The trimmed path after a header prefix.
pub fn strip_patch_header_prefix(line: &[char], prefix: &str) -> (r: Option<Vec<char>>)
    ensures
        opt_chars_view(r) == header_path(line@, prefix@),
{
    let t = trim_chars(line);
    if starts_with_str(&t, prefix) {
        let p = str_chars(prefix);
        let rest = slice_chars(&t, p.len(), t.len());
        proof {
            assert(t@.skip(prefix@.len() as int) =~= rest@);
        }
        Some(trim_chars(&rest))
    } else {
        None
    }
}

pub open spec fn opt_chars_view(o: Option<Vec<char>>) -> Option<Seq<char>> {
    match o {
        Some(v) => Some(v@),
        None => None,
    }
}

pub fn is_patch_hunk_header(line: &[char]) -> (r: bool)
    ensures
        r == is_hunk_header(line@),
{
    let a = strip_patch_header_prefix(line, "*** Add File: ");
    let d = strip_patch_header_prefix(line, "*** Delete File: ");
    let u = strip_patch_header_prefix(line, "*** Update File: ");
    a.is_some() || d.is_some() || u.is_some()
}

fn stops_body(line: &[char]) -> (r: bool)
    ensures
        r == (is_hunk_header(line@) || is_marker(line@, end_marker())),
{
    is_patch_hunk_header(line) || is_patch_marker_line(line, "*** End Patch")
}

fn tail_string(line: &[char]) -> (r: String)
    requires
        line.len() > 0,
    ensures
        r@ == line@.drop_first(),
{
    let v = slice_chars(line, 1, line.len());
    assert(v@ =~= line@.drop_first());
    chars_to_string(&v)
}

fn opt_string(v: Option<Vec<char>>) -> (r: Option<String>)
    ensures
        opt_view(r) == opt_chars_view(v),
{
    match v {
        Some(x) => Some(chars_to_string(&x)),
        None => None,
    }
}

fn all_hunks_empty_exec(hunks: &Vec<CodexPatchHunk>) -> (r: bool)
    ensures
        r == all_hunks_empty(hunks_view(hunks@)),
{
    let mut i: usize = 0;
    while i < hunks.len()
        invariant
            i <= hunks.len(),
            forall|k: int| 0 <= k < i ==> (#[trigger] hunks_view(hunks@)[k]).lines.len() == 0,
        decreases hunks.len() - i,
    {
        if hunks[i].lines.len() != 0 {
            assert(hunks_view(hunks@)[i as int].lines.len() != 0);
            return false;
        }
        i += 1;
    }
    true
}

/// Parses the `apply_patch` text format.
pub fn parse_codex_patch(patch_text: &str) -> (r: Result<Vec<CodexPatchOperation>, PatchParseError>)
    ensures
        parse_result_view(r) == parse_patch_spec(patch_text@),
{
    let text = str_chars(patch_text);
    let normalized = normalize_newlines_chars(&text);
    let lines = lines_chars(&normalized);
    let ghost ls = views(lines@);
    if lines.len() == 0 || !is_patch_marker_line(&lines[0], "*** Begin Patch") {
        return Err(PatchParseError::MissingBegin);
    }
    let mut index: usize = 1;
    let mut operations: Vec<CodexPatchOperation> = Vec::new();
    let ghost whole = parse_step(ls, 1, ParseState::Top, Seq::empty());
    assert(whole == parse_patch_spec(patch_text@));
    proof {
        assert(ops_view(operations@) =~= Seq::<OpModel>::empty());
    }
    loop
        invariant
            1 <= index <= lines.len(),
            ls == views(lines@),
            ls == lines_spec(normalize_newlines_spec(patch_text@)),
            whole == parse_patch_spec(patch_text@),
                whole == parse_step(
                ls,
                index as int,
                ParseState::Top,
                ops_view(operations@),
            ),
        decreases lines.len() - index,
    {
        if index >= lines.len() {
            return Err(PatchParseError::MissingEnd);
        }
        if is_patch_marker_line(&lines[index], "*** End Patch") {
            return Ok(operations);
        }
        let add_path = strip_patch_header_prefix(&lines[index], "*** Add File: ");
        if let Some(path) = add_path {
            let header_line = index + 1;
            index += 1;
            let mut file_lines: Vec<String> = Vec::new();
            proof {
                assert(strings_view(file_lines@) =~= Seq::<Seq<char>>::empty());
            }
            while index < lines.len() && !stops_body(&lines[index])
                invariant
                    1 <= index <= lines.len(),
                    ls == views(lines@),
                    header_line <= index,
                    whole == parse_patch_spec(patch_text@),
                whole == parse_step(
                        ls,
                        index as int,
                        ParseState::InAdd {
                            path: path@,
                            header_line: header_line as nat,
                            lines: strings_view(file_lines@),
                        },
                        ops_view(operations@),
                    ),
                decreases lines.len() - index,
            {
                let current = &lines[index];
                if current.len() > 0 && current[0] == '+' {
                    let t = tail_string(current);
                    let ghost before = strings_view(file_lines@);
                    file_lines.push(t);
                    proof {
                        assert(strings_view(file_lines@) =~= before.push(ls[index as int].drop_first()));
                    }
                    index += 1;
                } else {
                    return Err(PatchParseError::InvalidAddLine { line: index + 1 });
                }
            }
            if file_lines.len() == 0 {
                return Err(PatchParseError::EmptyAdd { line: header_line, path: chars_to_string(&path) });
            }
            let ghost before = ops_view(operations@);
            operations.push(CodexPatchOperation::Add { path: chars_to_string(&path), lines: file_lines });
            proof {
                assert(ops_view(operations@) =~= before.push(operations@.last()@));
            }
        } else {
            let del_path = strip_patch_header_prefix(&lines[index], "*** Delete File: ");
            if let Some(path) = del_path {
                let ghost before = ops_view(operations@);
                operations.push(CodexPatchOperation::Delete { path: chars_to_string(&path) });
                proof {
                    assert(ops_view(operations@) =~= before.push(operations@.last()@));
                }
                index += 1;
            } else {
                let upd_path = strip_patch_header_prefix(&lines[index], "*** Update File: ");
                if let Some(path) = upd_path {
                    let header_line = index + 1;
                    index += 1;
                    let mut move_to: Option<String> = None;
                    if index < lines.len() {
                        let mv = strip_patch_header_prefix(&lines[index], "*** Move to: ");
                        if mv.is_some() {
                            move_to = opt_string(mv);
                            index += 1;
                        }
                    }
                    let mut hunks: Vec<CodexPatchHunk> = Vec::new();
                    let mut current_hunk: Option<CodexPatchHunk> = None;
                    proof {
                        assert(hunks_view(hunks@) =~= Seq::<HunkModel>::empty());
                    }
                    while index < lines.len() && !stops_body(&lines[index])
                        invariant
                            1 <= index <= lines.len(),
                            ls == views(lines@),
                            header_line <= index,
                            whole == parse_patch_spec(patch_text@),
                whole == parse_step(
                                ls,
                                index as int,
                                ParseState::InUpdate {
                                    path: path@,
                                    header_line: header_line as nat,
                                    move_to: opt_view(move_to),
                                    hunks: hunks_view(hunks@),
                                    cur: cur_view(current_hunk),
                                },
                                ops_view(operations@),
                            ),
                        decreases lines.len() - index,
                    {
                        let current = &lines[index];
                        let body_start = current.len() > 0 && (current[0] == ' ' || current[0]
                            == '+' || current[0] == '-');
                        let directive = trim_chars(current);
                        let is_anchor = !body_start && starts_with_str(&directive, "@@ ");
                        let is_bare = !body_start && chars_eq_str(&directive, "@@");
                        if is_anchor || is_bare {
                            let anchor = if is_anchor {
                                let p = str_chars("@@ ");
                                let rest = slice_chars(&directive, p.len(), directive.len());
                                let a = trim_chars(&rest);
                                proof {
                                    assert(rest@ =~= directive@.skip(p@.len() as int));
                                }
                                Some(chars_to_string(&a))
                            } else {
                                None
                            };
                            let ghost before = hunks_view(hunks@);
                            match current_hunk {
                                Some(h) => {
                                    hunks.push(h);
                                },
                                None => {},
                            }
                            proof {
                                assert(hunks_view(hunks@) =~= flush_hunk(before, cur_view(current_hunk)));
                            }
                            current_hunk = Some(CodexPatchHunk { anchor, lines: Vec::new(), eof: false });
                            proof {
                                assert(patch_lines_view(Seq::<CodexPatchLine>::empty()) =~= Seq::<LineModel>::empty());
                            }
                            index += 1;
                        } else if is_patch_marker_line(current, "*** End of File") {
                            match current_hunk {
                                None => {
                                    return Err(PatchParseError::EofWithoutHunk { line: index + 1 });
                                },
                                Some(h) => {
                                    current_hunk = Some(CodexPatchHunk { anchor: h.anchor, lines: h.lines, eof: true });
                                },
                            }
                            index += 1;
                        } else if current.len() > 0 && (current[0] == ' ' || current[0] == '-'
                            || current[0] == '+') {
                            let content = tail_string(current);
                            let line = if current[0] == ' ' {
                                CodexPatchLine::Context(content)
                            } else if current[0] == '-' {
                                CodexPatchLine::Delete(content)
                            } else {
                                CodexPatchLine::Add(content)
                            };
                            let mut h = match current_hunk {
                                Some(h) => h,
                                None => CodexPatchHunk { anchor: None, lines: Vec::new(), eof: false },
                            };
                            proof {
                                assert(patch_lines_view(Seq::<CodexPatchLine>::empty()) =~= Seq::<LineModel>::empty());
                            }
                            let ghost hl = patch_lines_view(h.lines@);
                            h.lines.push(line);
                            proof {
                                assert(patch_lines_view(h.lines@) =~= hl.push(line@));
                            }
                            current_hunk = Some(h);
                            index += 1;
                        } else {
                            return Err(PatchParseError::InvalidUpdateLine { line: index + 1 });
                        }
                    }
                    let ghost before = hunks_view(hunks@);
                    match current_hunk {
                        Some(h) => {
                            hunks.push(h);
                        },
                        None => {},
                    }
                    proof {
                        assert(hunks_view(hunks@) =~= flush_hunk(before, cur_view(current_hunk)));
                    }
                    if hunks.len() == 0 || all_hunks_empty_exec(&hunks) {
                        return Err(PatchParseError::EmptyUpdate { line: header_line, path: chars_to_string(&path) });
                    }
                    let ghost before_ops = ops_view(operations@);
                    operations.push(CodexPatchOperation::Update { path: chars_to_string(&path), move_to, hunks });
                    proof {
                        assert(ops_view(operations@) =~= before_ops.push(operations@.last()@));
                    }
                } else {
                    return Err(PatchParseError::InvalidHeader { line: index + 1, text: chars_to_string(&lines[index]) });
                }
            }
        }
    }
}

} // verus!
