//! Where a path handed to a tool points: `.` and `..` worked out without
//! touching the disk, the project directory's names and the home alias
//! resolved, and a relative path kept inside the project directory. Paths
//! are `/`-separated, as on the platform the tools run on.
use vstd::prelude::*;

use crate::describe::{path_parts, project_aliases, trim_dot_slash, trim_relative_prefixes, PROJECTYING_REL_PATH};
use crate::text::{
    chars_eq, chars_eq_str, chars_to_string, join_chars, join_spec, push_chars, push_str, slice_chars, starts_with_chars,
    starts_with_spec, str_chars, trim_chars, trim_spec, views,
};

verus! {

/// A path that starts at the root.
pub open spec fn is_absolute_spec(p: Seq<char>) -> bool {
    p.len() > 0 && p[0] == '/'
}

/// The parts of a path once `..` is worked out: a `..` takes away the part
/// before it; with none before it, it stays in a relative path and goes in
/// an absolute one.
pub open spec fn lexical_parts(parts: Seq<Seq<char>>, absolute: bool) -> Seq<Seq<char>>
    decreases parts.len(),
{
    if parts.len() == 0 {
        Seq::empty()
    } else {
        let prev = lexical_parts(parts.drop_last(), absolute);
        if parts.last() == ".."@ {
            if prev.len() > 0 {
                prev.drop_last()
            } else if absolute {
                prev
            } else {
                seq![".."@]
            }
        } else {
            prev.push(parts.last())
        }
    }
}

/// A path with `.` and `..` worked out: `/` or `.` when no part is left.
pub open spec fn lexical_path_spec(p: Seq<char>) -> Seq<char> {
    let parts = lexical_parts(path_parts(p, Seq::empty()), is_absolute_spec(p));
    if is_absolute_spec(p) {
        "/"@ + join_spec(parts, "/"@)
    } else if parts.len() == 0 {
        "."@
    } else {
        join_spec(parts, "/"@)
    }
}

/// `x` appended to `base`: an absolute `x` stands alone; otherwise a `/`
/// goes between them unless `base` is empty or already ends in one.
pub open spec fn path_join_spec(base: Seq<char>, x: Seq<char>) -> Seq<char> {
    if is_absolute_spec(x) {
        x
    } else if base.len() > 0 && base.last() != '/' {
        base + "/"@ + x
    } else {
        base + x
    }
}

fn is_empty_or_dot(v: &Vec<char>) -> (r: bool)
    ensures
        r == (v@.len() == 0 || v@ == "."@),
{
    v.len() == 0 || chars_eq_str(v, ".")
}

/// The parts of a path between its slashes, without empty and `.` parts.
fn split_path_parts(s: &[char]) -> (r: Vec<Vec<char>>)
    ensures
        views(r@) == path_parts(s@, Seq::empty()),
{
    let mut out: Vec<Vec<char>> = Vec::new();
    let mut cur: Vec<char> = Vec::new();
    let mut i: usize = 0;
    assert(s@.skip(0) =~= s@);
    assert(views(out@) =~= Seq::<Seq<char>>::empty());
    while i < s.len()
        invariant
            i <= s@.len(),
            views(out@) + path_parts(s@.skip(i as int), cur@) == path_parts(s@, Seq::empty()),
        decreases s@.len() - i,
    {
        let ghost rest = s@.skip(i as int);
        let ghost before = views(out@);
        let ghost c0 = cur@;
        assert(rest.drop_first() =~= s@.skip(i + 1));
        assert(rest[0] == s@[i as int]);
        if s[i] == '/' {
            let ghost tail = path_parts(s@.skip(i + 1), Seq::empty());
            if !is_empty_or_dot(&cur) {
                let c = cur;
                cur = Vec::new();
                out.push(c);
                assert(views(out@) =~= before.push(c0));
                assert(before + (seq![c0] + tail) =~= before.push(c0) + tail);
            } else {
                cur = Vec::new();
            }
            assert(cur@ =~= Seq::<char>::empty());
        } else {
            cur.push(s[i]);
            assert(cur@ =~= c0.push(s@[i as int]));
        }
        i += 1;
    }
    assert(s@.skip(i as int) =~= Seq::<char>::empty());
    if !is_empty_or_dot(&cur) {
        let ghost before = views(out@);
        let ghost c0 = cur@;
        out.push(cur);
        assert(views(out@) =~= before.push(c0));
        assert(before + seq![c0] =~= before.push(c0));
    } else {
        assert(views(out@) + Seq::<Seq<char>>::empty() =~= views(out@));
    }
    out
}

fn lexical_stack(parts: &Vec<Vec<char>>, absolute: bool) -> (r: Vec<Vec<char>>)
    ensures
        views(r@) == lexical_parts(views(parts@), absolute),
{
    let ghost ps = views(parts@);
    let mut st: Vec<Vec<char>> = Vec::new();
    let mut i: usize = 0;
    assert(views(st@) =~= lexical_parts(ps.take(0), absolute));
    while i < parts.len()
        invariant
            i <= parts@.len(),
            ps == views(parts@),
            views(st@) == lexical_parts(ps.take(i as int), absolute),
        decreases parts@.len() - i,
    {
        proof {
            assert(ps.take(i + 1).drop_last() =~= ps.take(i as int));
            assert(ps.take(i + 1).last() == parts@[i as int]@);
        }
        let ghost before = views(st@);
        if chars_eq_str(&parts[i], "..") {
            if st.len() > 0 {
                st.pop();
                assert(views(st@) =~= before.drop_last());
            } else if !absolute {
                st.push(str_chars(".."));
                assert(views(st@) =~= seq![".."@]);
            }
        } else {
            st.push(parts[i].clone());
            assert(views(st@) =~= before.push(parts@[i as int]@));
        }
        i += 1;
    }
    assert(ps.take(parts@.len() as int) =~= ps);
    st
}

/// A path with `.` and `..` worked out without touching the disk.
pub fn normalize_lexical_path(path: &str) -> (r: String)
    ensures
        r@ == lexical_path_spec(path@),
{
    let s = str_chars(path);
    let absolute = s.len() > 0 && s[0] == '/';
    let parts = split_path_parts(&s);
    let st = lexical_stack(&parts, absolute);
    let joined = join_chars(&st, &str_chars("/"));
    if absolute {
        let mut out = str_chars("/");
        push_chars(&mut out, &joined);
        chars_to_string(&out)
    } else if st.len() == 0 {
        chars_to_string(&str_chars("."))
    } else {
        chars_to_string(&joined)
    }
}

/// `x` appended to `base` as a path.
pub fn join_path(base: &str, x: &str) -> (r: String)
    ensures
        r@ == path_join_spec(base@, x@),
{
    let b = str_chars(base);
    let xs = str_chars(x);
    if xs.len() > 0 && xs[0] == '/' {
        return chars_to_string(&xs);
    }
    let mut out = b.clone();
    if b.len() > 0 && b[b.len() - 1] != '/' {
        out.push('/');
        proof {
            reveal_strlit("/");
        }
        assert(out@ =~= b@ + "/"@);
    }
    push_chars(&mut out, &xs);
    chars_to_string(&out)
}

/// The path a name of the project directory stands for: the directory
/// itself for the name alone, the rest appended to it for a path below the
/// name. The names are tried in order from `k`.
pub open spec fn project_path_from(t: Seq<char>, root: Seq<char>, aliases: Seq<Seq<char>>, k: int) -> Option<
    Seq<char>,
>
    decreases aliases.len() - k,
{
    if k < 0 || k >= aliases.len() {
        None
    } else if t == aliases[k] {
        Some(root)
    } else if starts_with_spec(t, aliases[k] + "/"@) {
        Some(path_join_spec(root, t.skip(aliases[k].len() + 1int)))
    } else {
        project_path_from(t, root, aliases, k + 1)
    }
}

/// Where a path under one of the project directory's names points; `root`
/// is the directory's full path.
pub open spec fn project_path_spec(raw: Seq<char>, root: Seq<char>) -> Option<Seq<char>> {
    project_path_from(trim_dot_slash(trim_spec(raw)), root, project_aliases(root), 0)
}

/// Where a path under the home alias points; `home` is the home directory.
pub open spec fn home_path_spec(raw: Seq<char>, home: Seq<char>) -> Option<Seq<char>> {
    let t = trim_dot_slash(trim_spec(raw));
    if t == "home"@ {
        Some(home)
    } else if starts_with_spec(t, "home/"@) {
        Some(path_join_spec(home, t.skip(5)))
    } else {
        None
    }
}

/// Where a path under one of the project directory's names points, if it
/// is under one; `root` is the directory's full path.
pub fn resolve_projectying_relative_path(raw: &str, root: &str) -> (r: Option<String>)
    ensures
        match project_path_spec(raw@, root@) {
            Some(p) => r matches Some(x) && x@ == p,
            None => r is None,
        },
{
    let ts = trim_relative_prefixes(chars_to_string(&trim_chars(&str_chars(raw))).as_str());
    let t = str_chars(ts.as_str());
    let mut home_rel = str_chars("home/");
    push_str(&mut home_rel, PROJECTYING_REL_PATH);
    let mut aliases: Vec<Vec<char>> = Vec::new();
    aliases.push(str_chars(PROJECTYING_REL_PATH));
    aliases.push(str_chars("projectying"));
    aliases.push(home_rel);
    aliases.push(str_chars(root));
    let ghost av = project_aliases(root@);
    assert(views(aliases@) =~= av);
    let mut k: usize = 0;
    while k < aliases.len()
        invariant
            k <= aliases@.len(),
            views(aliases@) == av,
            av == project_aliases(root@),
            t@ == trim_dot_slash(trim_spec(raw@)),
            project_path_from(t@, root@, av, 0) == project_path_from(t@, root@, av, k as int),
        decreases aliases@.len() - k,
    {
        let a = &aliases[k];
        assert(a@ == av[k as int]);
        if chars_eq(&t, a) {
            return Some(chars_to_string(&str_chars(root)));
        }
        let mut with_slash = a.clone();
        with_slash.push('/');
        proof {
            reveal_strlit("/");
            assert(with_slash@ =~= av[k as int] + "/"@);
        }
        if starts_with_chars(&t, &with_slash) {
            let n = with_slash.len();
            assert(with_slash@.len() == a@.len() + 1);
            let rest = slice_chars(&t, n, t.len());
            assert(rest@ =~= t@.skip(n as int));
            return Some(join_path(root, chars_to_string(&rest).as_str()));
        }
        k += 1;
    }
    None
}

/// Where a path under the home alias points, if it is under it; `home` is
/// the home directory.
pub fn resolve_home_alias_path(raw: &str, home: &str) -> (r: Option<String>)
    ensures
        match home_path_spec(raw@, home@) {
            Some(p) => r matches Some(x) && x@ == p,
            None => r is None,
        },
{
    let ts = trim_relative_prefixes(chars_to_string(&trim_chars(&str_chars(raw))).as_str());
    let t = str_chars(ts.as_str());
    if chars_eq_str(&t, "home") {
        return Some(chars_to_string(&str_chars(home)));
    }
    if starts_with_chars(&t, &str_chars("home/")) {
        proof {
            reveal_strlit("home/");
        }
        let rest = slice_chars(&t, 5, t.len());
        assert(rest@ =~= t@.skip(5));
        return Some(join_path(home, chars_to_string(&rest).as_str()));
    }
    None
}

/// Whether a path starts with a leading `.` component.
pub open spec fn leading_dot(p: Seq<char>) -> bool {
    !is_absolute_spec(p) && p.len() > 0 && p[0] == '.' && (p.len() == 1 || p[1] == '/')
}

/// The components of a path as the platform's path type lists them: the
/// root as `/`, a leading `.` as `.`, then its parts.
pub open spec fn components_spec(p: Seq<char>) -> Seq<Seq<char>> {
    let lead = if is_absolute_spec(p) {
        seq!["/"@]
    } else if leading_dot(p) {
        seq!["."@]
    } else {
        Seq::empty()
    };
    lead + path_parts(p, Seq::empty())
}

/// `base`'s components are the first components of `p`.
pub open spec fn path_starts_with_spec(p: Seq<char>, base: Seq<char>) -> bool {
    let a = components_spec(p);
    let b = components_spec(base);
    b.len() <= a.len() && a.take(b.len() as int) == b
}

fn path_components(p: &[char]) -> (r: Vec<Vec<char>>)
    ensures
        views(r@) == components_spec(p@),
{
    let parts = split_path_parts(p);
    let mut out: Vec<Vec<char>> = Vec::new();
    if p.len() > 0 && p[0] == '/' {
        out.push(str_chars("/"));
    } else if p.len() > 0 && p[0] == '.' && (p.len() == 1 || p[1] == '/') {
        out.push(str_chars("."));
    }
    let ghost lead = views(out@);
    let ghost ps = views(parts@);
    assert(lead + ps.take(0) =~= lead);
    let mut i: usize = 0;
    while i < parts.len()
        invariant
            i <= parts@.len(),
            ps == views(parts@),
            views(out@) == lead + ps.take(i as int),
        decreases parts@.len() - i,
    {
        let ghost before = views(out@);
        out.push(parts[i].clone());
        assert(views(out@) =~= before.push(parts@[i as int]@));
        assert(lead + ps.take(i + 1) =~= (lead + ps.take(i as int)).push(ps[i as int]));
        i += 1;
    }
    assert(ps.take(parts@.len() as int) =~= ps);
    out
}

fn parts_start_with(a: &Vec<Vec<char>>, b: &Vec<Vec<char>>) -> (r: bool)
    ensures
        r == (views(b@).len() <= views(a@).len() && views(a@).take(views(b@).len() as int) == views(b@)),
{
    if b.len() > a.len() {
        return false;
    }
    let mut i: usize = 0;
    while i < b.len()
        invariant
            i <= b@.len(),
            b@.len() <= a@.len(),
            forall|j: int| 0 <= j < i ==> (#[trigger] a@[j])@ == b@[j]@,
        decreases b@.len() - i,
    {
        if !chars_eq(&a[i], &b[i]) {
            assert(views(a@).take(b@.len() as int)[i as int] != views(b@)[i as int]);
            return false;
        }
        i += 1;
    }
    assert(views(a@).take(b@.len() as int) =~= views(b@));
    true
}

/// Whether `base`'s components are the first components of `p`.
pub fn path_starts_with(p: &str, base: &str) -> (r: bool)
    ensures
        r == path_starts_with_spec(p@, base@),
{
    let a = path_components(&str_chars(p));
    let b = path_components(&str_chars(base));
    parts_start_with(&a, &b)
}

/// Why a path handed to a tool cannot be used.
#[derive(Debug, Clone, Copy, PartialEq, Eq, Structural)]
pub enum ToolPathError {
    /// The path is blank.
    Empty,
    /// A relative path, from a directory inside the project directory,
    /// leads out of it.
    OutsideProject,
}

impl ToolPathError {
    pub open spec fn message_spec(self) -> Seq<char> {
        match self {
            ToolPathError::Empty => "路径不能为空"@,
            ToolPathError::OutsideProject => "相对路径仅支持当前 ProjectYing 项目根目录内部路径；项目外目录请使用绝对路径，或明确写 home/..."@,
        }
    }

    pub fn message(&self) -> (r: String)
        ensures
            r@ == self.message_spec(),
    {
        match self {
            ToolPathError::Empty => chars_to_string(&str_chars("路径不能为空")),
            ToolPathError::OutsideProject => chars_to_string(
                &str_chars(
                    "相对路径仅支持当前 ProjectYing 项目根目录内部路径；项目外目录请使用绝对路径，或明确写 home/...",
                ),
            ),
        }
    }
}

/// Where a patch's path points: an absolute path worked out; a path under
/// the project directory's names or the home alias resolved; any other
/// path taken from `cwd`, and refused where `cwd` lies inside an existing
/// project directory and the path leads out of it.
pub open spec fn patch_path_spec(
    cwd: Seq<char>,
    raw: Seq<char>,
    root: Seq<char>,
    home: Seq<char>,
    root_exists: bool,
) -> Result<Seq<char>, ToolPathError> {
    let t = trim_spec(raw);
    if is_absolute_spec(t) {
        Ok(lexical_path_spec(t))
    } else if t.len() == 0 {
        Err(ToolPathError::Empty)
    } else if project_path_spec(t, root) is Some {
        Ok(project_path_spec(t, root)->0)
    } else if home_path_spec(t, home) is Some {
        Ok(home_path_spec(t, home)->0)
    } else {
        let candidate = lexical_path_spec(path_join_spec(cwd, trim_dot_slash(t)));
        let base = lexical_path_spec(cwd);
        if !root_exists || !path_starts_with_spec(base, root) || path_starts_with_spec(candidate, root) {
            Ok(candidate)
        } else {
            Err(ToolPathError::OutsideProject)
        }
    }
}

/// Where a patch's path points (see `patch_path_spec`): `cwd` is the
/// directory the patch applies in, `root` the project directory, `home`
/// the home directory, and `root_exists` whether the project directory is
/// on disk.
pub fn resolve_patch_path(cwd: &str, raw: &str, root: &str, home: &str, root_exists: bool) -> (r: Result<
    String,
    ToolPathError,
>)
    ensures
        match patch_path_spec(cwd@, raw@, root@, home@, root_exists) {
            Ok(p) => r matches Ok(x) && x@ == p,
            Err(e) => r == Err::<String, ToolPathError>(e),
        },
{
    let t = chars_to_string(&trim_chars(&str_chars(raw)));
    let tc = str_chars(t.as_str());
    if tc.len() > 0 && tc[0] == '/' {
        return Ok(normalize_lexical_path(t.as_str()));
    }
    if tc.len() == 0 {
        return Err(ToolPathError::Empty);
    }
    match resolve_projectying_relative_path(t.as_str(), root) {
        Some(p) => return Ok(p),
        None => {},
    }
    match resolve_home_alias_path(t.as_str(), home) {
        Some(p) => return Ok(p),
        None => {},
    }
    let joined = join_path(cwd, trim_relative_prefixes(t.as_str()).as_str());
    let candidate = normalize_lexical_path(joined.as_str());
    let base = normalize_lexical_path(cwd);
    if !root_exists || !path_starts_with(base.as_str(), root) || path_starts_with(candidate.as_str(), root) {
        Ok(candidate)
    } else {
        Err(ToolPathError::OutsideProject)
    }
}

/// Where a file path handed to a tool points, by the same rules as a
/// patch's path (see `patch_path_spec`), from `base_dir`.
pub fn resolve_tool_file_path(raw: &str, base_dir: &str, root: &str, home: &str, root_exists: bool) -> (r: Result<
    String,
    ToolPathError,
>)
    ensures
        match patch_path_spec(base_dir@, raw@, root@, home@, root_exists) {
            Ok(p) => r matches Ok(x) && x@ == p,
            Err(e) => r == Err::<String, ToolPathError>(e),
        },
{
    resolve_patch_path(base_dir, raw, root, home, root_exists)
}

} // verus!
