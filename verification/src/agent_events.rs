//! The one-line events that an agent's tool calls leave in its log, and the
//! labels of agent states.
use vstd::prelude::*;

use crate::command::truncate_chars;
use crate::text::{
    chars_eq_str, chars_to_string, dec_spec, ellipsis_chars, ellipsis_spec, join_chars, join_spec,
    lines_chars, lines_spec, lower_chars, lower_spec, push_chars, push_dec, push_str,
    starts_with_spec, starts_with_str, str_chars, trim_chars, trim_spec, views,
};
use crate::terminal_text::copy_range;
use crate::words::{CharClass, join_words_from, split_class, split_class_chars, words_chars, words_spec};

verus! {

/// The longest event line kept.
pub const AGENT_EVENT_MAX_CHARS: usize = 240;

/// Whitespace runs made single spaces, trimmed, and cut to the event limit.
pub open spec fn event_text_spec(text: Seq<char>) -> Seq<char> {
    ellipsis_spec(trim_spec(join_spec(words_spec(text), seq![' '])), AGENT_EVENT_MAX_CHARS as nat)
}

fn event_text_chars(text: &[char]) -> (r: Vec<char>)
    ensures
        r@ == event_text_spec(text@),
{
    let w = words_chars(text);
    let sp: Vec<char> = vec![' '];
    assert(sp@ =~= seq![' ']);
    let j = join_chars(&w, &sp);
    ellipsis_chars(&trim_chars(&j), AGENT_EVENT_MAX_CHARS)
}

pub fn normalize_agent_event_text(text: &str) -> (r: String)
    ensures
        r@ == event_text_spec(text@),
{
    chars_to_string(&event_text_chars(&str_chars(text)))
}

/// The first line that is not blank, trimmed.
pub open spec fn first_nonblank(ls: Seq<Seq<char>>) -> Option<Seq<char>>
    decreases ls.len(),
{
    if ls.len() == 0 {
        None
    } else if trim_spec(ls[0]).len() > 0 {
        Some(trim_spec(ls[0]))
    } else {
        first_nonblank(ls.drop_first())
    }
}

/// The first non-blank line of a text, trimmed; the text itself when every
/// line is blank.
pub open spec fn first_line_or_all(text: Seq<char>) -> Seq<char> {
    match first_nonblank(lines_spec(text)) {
        Some(l) => l,
        None => text,
    }
}

fn first_line_or_all_chars(text: &[char]) -> (r: Vec<char>)
    ensures
        r@ == first_line_or_all(text@),
{
    let ls = lines_chars(text);
    let ghost v = views(ls@);
    let mut i: usize = 0;
    assert(v.skip(0) =~= v);
    while i < ls.len()
        invariant
            i <= ls.len(),
            v == views(ls@),
            v == lines_spec(text@),
            first_nonblank(v) == first_nonblank(v.skip(i as int)),
        decreases ls.len() - i,
    {
        assert(v.skip(i as int)[0] == v[i as int]);
        assert(v.skip(i as int).drop_first() =~= v.skip(i + 1));
        assert(v[i as int] == ls@[i as int]@);
        let t = trim_chars(&ls[i]);
        if t.len() > 0 {
            return t;
        }
        i += 1;
    }
    let mut out: Vec<char> = Vec::new();
    push_chars(&mut out, text);
    out
}

/// The first non-blank line, normalized and cut to `max_chars`.
pub open spec fn compact_line_spec(text: Seq<char>, max_chars: nat) -> Seq<char> {
    ellipsis_spec(event_text_spec(first_line_or_all(text)), max_chars)
}

fn compact_line_chars(text: &[char], max_chars: usize) -> (r: Vec<char>)
    ensures
        r@ == compact_line_spec(text@, max_chars as nat),
{
    let src = first_line_or_all_chars(text);
    ellipsis_chars(&event_text_chars(&src), max_chars)
}

pub fn compact_agent_preview_line(text: &str, max_chars: usize) -> (r: String)
    ensures
        r@ == compact_line_spec(text@, max_chars as nat),
{
    chars_to_string(&compact_line_chars(&str_chars(text), max_chars))
}

/// The pieces of a path that are neither empty nor `.`.
pub open spec fn path_parts(parts: Seq<Seq<char>>) -> Seq<Seq<char>>
    decreases parts.len(),
{
    if parts.len() == 0 {
        Seq::empty()
    } else {
        let r = path_parts(parts.drop_last());
        if parts.last().len() > 0 && parts.last() != seq!['.'] {
            r.push(parts.last())
        } else {
            r
        }
    }
}

/// A path shown by its last two components: `./parent/name`.
pub open spec fn compact_path_spec(path: Seq<char>) -> Seq<char> {
    let c = path_parts(split_class(path, CharClass::PathSep));
    if c.len() == 0 {
        trim_spec(path)
    } else if c.len() == 1 {
        c[0]
    } else {
        "./"@ + c[c.len() - 2] + "/"@ + c[c.len() - 1]
    }
}

fn path_parts_exec(parts: &Vec<Vec<char>>) -> (r: Vec<Vec<char>>)
    ensures
        views(r@) == path_parts(views(parts@)),
{
    let ghost v = views(parts@);
    let mut out: Vec<Vec<char>> = Vec::new();
    let mut i: usize = 0;
    while i < parts.len()
        invariant
            i <= parts.len(),
            v == views(parts@),
            views(out@) == path_parts(v.take(i as int)),
        decreases parts.len() - i,
    {
        proof {
            assert(v.take(i + 1).drop_last() =~= v.take(i as int));
        }
        if parts[i].len() > 0 && !chars_eq_str(&parts[i], ".") {
            let ghost before = views(out@);
            proof {
                reveal_strlit(".");
            }
            out.push(parts[i].clone());
            proof {
                assert(views(out@) =~= before.push(v[i as int]));
            }
        }
        proof {
            reveal_strlit(".");
            assert("."@ =~= seq!['.']);
        }
        i += 1;
    }
    proof {
        assert(v.take(parts.len() as int) =~= v);
    }
    out
}

fn compact_path_chars(path: &[char]) -> (r: Vec<char>)
    ensures
        r@ == compact_path_spec(path@),
{
    let parts = split_class_chars(path, CharClass::PathSep);
    let c = path_parts_exec(&parts);
    let n = c.len();
    if n == 0 {
        trim_chars(path)
    } else if n == 1 {
        c[0].clone()
    } else {
        let mut out = str_chars("./");
        push_chars(&mut out, &c[n - 2]);
        push_str(&mut out, "/");
        push_chars(&mut out, &c[n - 1]);
        out
    }
}

pub fn compact_agent_path_display(path: &str) -> (r: String)
    ensures
        r@ == compact_path_spec(path@),
{
    chars_to_string(&compact_path_chars(&str_chars(path)))
}

// ---------------------------------------------------------------------------
// Edits
// ---------------------------------------------------------------------------

/// What the edit lines of a patch preview have gathered so far: the files
/// named, and the added and removed lines.
pub struct EditScan {
    pub paths: Seq<Seq<char>>,
    pub added: nat,
    pub removed: nat,
}

/// The rest of a line after a file header, or `None`.
pub open spec fn after_prefix(line: Seq<char>, p: Seq<char>) -> Option<Seq<char>> {
    if starts_with_spec(line, p) {
        Some(line.skip(p.len() as int))
    } else {
        None
    }
}

pub open spec fn edit_scan_step(acc: EditScan, raw: Seq<char>) -> EditScan {
    let line = trim_spec(raw);
    if after_prefix(line, "*** Update File: "@) is Some {
        EditScan { paths: acc.paths.push(compact_path_spec(trim_spec(after_prefix(line, "*** Update File: "@)->0))), ..acc }
    } else if after_prefix(line, "*** Add File: "@) is Some {
        EditScan { paths: acc.paths.push(compact_path_spec(trim_spec(after_prefix(line, "*** Add File: "@)->0))), ..acc }
    } else if after_prefix(line, "*** Delete File: "@) is Some {
        EditScan { paths: acc.paths.push(compact_path_spec(trim_spec(after_prefix(line, "*** Delete File: "@)->0))), ..acc }
    } else if starts_with_spec(line, "+"@) {
        EditScan { added: acc.added + 1, ..acc }
    } else if starts_with_spec(line, "-"@) {
        EditScan { removed: acc.removed + 1, ..acc }
    } else {
        acc
    }
}

pub open spec fn edit_scan(ls: Seq<Seq<char>>) -> EditScan
    decreases ls.len(),
{
    if ls.len() == 0 {
        EditScan { paths: Seq::empty(), added: 0, removed: 0 }
    } else {
        edit_scan_step(edit_scan(ls.drop_last()), ls.last())
    }
}

/// The files a patch preview edits and its added and removed line counts.
pub open spec fn apply_patch_event_spec(preview: Seq<char>) -> Seq<char> {
    let s = edit_scan(lines_spec(preview));
    let summary = if s.paths.len() == 1 {
        s.paths[0]
    } else if s.paths.len() > 1 {
        s.paths[0] + " +"@ + dec_spec((s.paths.len() - 1) as nat)
    } else {
        compact_line_spec(preview, 72)
    };
    if s.added == 0 && s.removed == 0 {
        summary
    } else {
        summary + " (+"@ + dec_spec(s.added) + " -"@ + dec_spec(s.removed) + ")"@
    }
}

proof fn lemma_edit_scan_bound(ls: Seq<Seq<char>>)
    ensures
        edit_scan(ls).paths.len() + edit_scan(ls).added + edit_scan(ls).removed <= ls.len(),
    decreases ls.len(),
{
    if ls.len() > 0 {
        lemma_edit_scan_bound(ls.drop_last());
    }
}

fn strip_prefix_chars(line: &[char], p: &str) -> (r: Option<Vec<char>>)
    ensures
        match after_prefix(line@, p@) {
            Some(rest) => r matches Some(v) && v@ == rest,
            None => r is None,
        },
{
    if starts_with_str(line, p) {
        let n = str_chars(p).len();
        let mut out: Vec<char> = Vec::new();
        let mut i = n;
        while i < line.len()
            invariant
                n <= i <= line.len(),
                n == p@.len(),
                out@ =~= line@.subrange(n as int, i as int),
            decreases line.len() - i,
        {
            out.push(line[i]);
            i += 1;
        }
        Some(out)
    } else {
        None
    }
}

pub fn agent_apply_patch_preview(preview: &str) -> (r: String)
    ensures
        r@ == apply_patch_event_spec(preview@),
{
    let pv = str_chars(preview);
    let ls = lines_chars(&pv);
    let ghost v = views(ls@);
    let mut paths: Vec<Vec<char>> = Vec::new();
    let mut added: usize = 0;
    let mut removed: usize = 0;
    let mut i: usize = 0;
    while i < ls.len()
        invariant
            i <= ls.len(),
            v == views(ls@),
            views(paths@) == edit_scan(v.take(i as int)).paths,
            added == edit_scan(v.take(i as int)).added,
            removed == edit_scan(v.take(i as int)).removed,
        decreases ls.len() - i,
    {
        proof {
            assert(v.take(i + 1).drop_last() =~= v.take(i as int));
            assert(v[i as int] == ls@[i as int]@);
            lemma_edit_scan_bound(v.take(i + 1));
        }
        let line = trim_chars(&ls[i]);
        let ghost before = views(paths@);
        match strip_prefix_chars(&line, "*** Update File: ") {
            Some(rest) => {
                paths.push(compact_path_chars(&trim_chars(&rest)));
                proof {
                    assert(views(paths@) =~= before.push(compact_path_spec(trim_spec(rest@))));
                }
            },
            None => match strip_prefix_chars(&line, "*** Add File: ") {
                Some(rest) => {
                    paths.push(compact_path_chars(&trim_chars(&rest)));
                    proof {
                        assert(views(paths@) =~= before.push(compact_path_spec(trim_spec(rest@))));
                    }
                },
                None => match strip_prefix_chars(&line, "*** Delete File: ") {
                    Some(rest) => {
                        paths.push(compact_path_chars(&trim_chars(&rest)));
                        proof {
                            assert(views(paths@) =~= before.push(compact_path_spec(trim_spec(rest@))));
                        }
                    },
                    None => {
                        if starts_with_str(&line, "+") {
                            added += 1;
                        } else if starts_with_str(&line, "-") {
                            removed += 1;
                        }
                    },
                },
            },
        }
        i += 1;
    }
    proof {
        assert(v.take(ls.len() as int) =~= v);
    }
    let mut summary: Vec<char> = if paths.len() == 1 {
        paths[0].clone()
    } else if paths.len() > 1 {
        let mut s = paths[0].clone();
        push_str(&mut s, " +");
        push_dec(&mut s, (paths.len() - 1) as u64);
        s
    } else {
        compact_line_chars(&pv, 72)
    };
    if added != 0 || removed != 0 {
        push_str(&mut summary, " (+");
        push_dec(&mut summary, added as u64);
        push_str(&mut summary, " -");
        push_dec(&mut summary, removed as u64);
        push_str(&mut summary, ")");
    }
    chars_to_string(&summary)
}

// ---------------------------------------------------------------------------
// Context management
// ---------------------------------------------------------------------------

/// The position of the first `':'` at or after `i`.
pub open spec fn first_colon(s: Seq<char>, i: int) -> Option<int>
    decreases s.len() - i,
{
    if i < 0 || i >= s.len() {
        None
    } else if s[i] == ':' {
        Some(i)
    } else {
        first_colon(s, i + 1)
    }
}

/// The action, target and section that the `key: value` lines of a preview
/// name, lower-cased; the last line of each key wins.
pub struct ManageScan {
    pub action: Seq<char>,
    pub target: Seq<char>,
    pub section: Seq<char>,
}

pub open spec fn manage_scan_step(acc: ManageScan, line: Seq<char>) -> ManageScan {
    match first_colon(line, 0) {
        None => acc,
        Some(k) => {
            let key = trim_spec(line.take(k));
            let value = lower_spec(trim_spec(line.skip(k + 1)));
            if key == "action"@ {
                ManageScan { action: value, ..acc }
            } else if key == "target"@ {
                ManageScan { target: value, ..acc }
            } else if key == "section"@ {
                ManageScan { section: value, ..acc }
            } else {
                acc
            }
        },
    }
}

pub open spec fn manage_scan(ls: Seq<Seq<char>>) -> ManageScan
    decreases ls.len(),
{
    if ls.len() == 0 {
        ManageScan { action: Seq::empty(), target: Seq::empty(), section: Seq::empty() }
    } else {
        manage_scan_step(manage_scan(ls.drop_last()), ls.last())
    }
}

pub open spec fn is_task_action(a: Seq<char>) -> bool {
    a == "enter"@ || a == "exit"@ || a == "focus_enter"@ || a == "focus_exit"@ || a == "task_enter"@ || a
        == "task_exit"@
}

pub open spec fn manage_action_label(a: Seq<char>) -> Seq<char> {
    if a == "write"@ {
        "WRITE"@
    } else if a == "summary"@ {
        "SUMMARY"@
    } else if a == "compact"@ {
        "COMPACT"@
    } else if a == "enter"@ || a == "focus_enter"@ || a == "task_enter"@ {
        "ENTER"@
    } else if a == "exit"@ || a == "focus_exit"@ || a == "task_exit"@ {
        "EXIT"@
    } else {
        "MANAGE"@
    }
}

pub open spec fn manage_area_label(target: Seq<char>, section: Seq<char>, action: Seq<char>) -> Seq<char> {
    if target == "fastmemory"@ && section.len() > 0 {
        "FastMemory/"@ + section
    } else if target == "fastmemory"@ {
        "FastMemory"@
    } else if target == "fastcontext"@ {
        "FastContext"@
    } else if target == "toolcontext"@ || target == "taskcontext"@ || target == "focuscontext"@ {
        "ToolContext"@
    } else if target == "context"@ {
        "Context"@
    } else if is_task_action(action) {
        "Task"@
    } else {
        Seq::empty()
    }
}

/// `◌ Manage · {area} / {ACTION}`, or `◌ Manage · {ACTION}` without an area.
pub open spec fn context_manage_event_spec(preview: Seq<char>) -> Seq<char> {
    let s = manage_scan(lines_spec(preview));
    let action = manage_action_label(s.action);
    let area = manage_area_label(s.target, s.section, s.action);
    if area.len() == 0 {
        "◌ Manage · "@ + action
    } else {
        "◌ Manage · "@ + area + " / "@ + action
    }
}

fn first_colon_exec(s: &[char]) -> (r: Option<usize>)
    ensures
        r is Some <==> first_colon(s@, 0) is Some,
        r matches Some(k) ==> first_colon(s@, 0) == Some(k as int) && k < s@.len(),
{
    let mut i: usize = 0;
    while i < s.len()
        invariant
            i <= s.len(),
            first_colon(s@, 0) == first_colon(s@, i as int),
        decreases s.len() - i,
    {
        if s[i] == ':' {
            return Some(i);
        }
        i += 1;
    }
    None
}

fn action_label_exec(a: &[char]) -> (r: &'static str)
    ensures
        r@ == manage_action_label(a@),
{
    if chars_eq_str(a, "write") {
        "WRITE"
    } else if chars_eq_str(a, "summary") {
        "SUMMARY"
    } else if chars_eq_str(a, "compact") {
        "COMPACT"
    } else if chars_eq_str(a, "enter") || chars_eq_str(a, "focus_enter") || chars_eq_str(a, "task_enter") {
        "ENTER"
    } else if chars_eq_str(a, "exit") || chars_eq_str(a, "focus_exit") || chars_eq_str(a, "task_exit") {
        "EXIT"
    } else {
        "MANAGE"
    }
}

fn area_label_exec(target: &[char], section: &[char], action: &[char]) -> (r: Vec<char>)
    ensures
        r@ == manage_area_label(target@, section@, action@),
{
    if chars_eq_str(target, "fastmemory") && section.len() > 0 {
        let mut out = str_chars("FastMemory/");
        push_chars(&mut out, section);
        out
    } else if chars_eq_str(target, "fastmemory") {
        str_chars("FastMemory")
    } else if chars_eq_str(target, "fastcontext") {
        str_chars("FastContext")
    } else if chars_eq_str(target, "toolcontext") || chars_eq_str(target, "taskcontext") || chars_eq_str(
        target,
        "focuscontext",
    ) {
        str_chars("ToolContext")
    } else if chars_eq_str(target, "context") {
        str_chars("Context")
    } else if chars_eq_str(action, "enter") || chars_eq_str(action, "exit") || chars_eq_str(action, "focus_enter")
        || chars_eq_str(action, "focus_exit") || chars_eq_str(action, "task_enter") || chars_eq_str(action, "task_exit") {
        str_chars("Task")
    } else {
        Vec::new()
    }
}

fn subrange_chars(s: &[char], start: usize, end: usize) -> (r: Vec<char>)
    requires
        start <= end <= s@.len(),
    ensures
        r@ == s@.subrange(start as int, end as int),
{
    let mut out: Vec<char> = Vec::new();
    let mut i = start;
    while i < end
        invariant
            start <= i <= end,
            end <= s@.len(),
            out@ =~= s@.subrange(start as int, i as int),
        decreases end - i,
    {
        out.push(s[i]);
        i += 1;
    }
    out
}

pub fn agent_context_manage_event(preview: &str) -> (r: String)
    ensures
        r@ == context_manage_event_spec(preview@),
{
    let ls = lines_chars(&str_chars(preview));
    let ghost v = views(ls@);
    let mut action: Vec<char> = Vec::new();
    let mut target: Vec<char> = Vec::new();
    let mut section: Vec<char> = Vec::new();
    let mut i: usize = 0;
    while i < ls.len()
        invariant
            i <= ls.len(),
            v == views(ls@),
            action@ == manage_scan(v.take(i as int)).action,
            target@ == manage_scan(v.take(i as int)).target,
            section@ == manage_scan(v.take(i as int)).section,
        decreases ls.len() - i,
    {
        proof {
            assert(v.take(i + 1).drop_last() =~= v.take(i as int));
            assert(v[i as int] == ls@[i as int]@);
        }
        let line = &ls[i];
        match first_colon_exec(line) {
            Some(k) => {
                let n = line.len();
                assert(k < n);
                let key = trim_chars(&subrange_chars(line, 0, k));
                let value = lower_chars(&trim_chars(&subrange_chars(line, k + 1, n)));
                proof {
                    assert(line@.subrange(0, k as int) =~= line@.take(k as int));
                    assert(line@.subrange(k + 1, line@.len() as int) =~= line@.skip(k + 1));
                }
                if chars_eq_str(&key, "action") {
                    action = value;
                } else if chars_eq_str(&key, "target") {
                    target = value;
                } else if chars_eq_str(&key, "section") {
                    section = value;
                }
            },
            None => {},
        }
        i += 1;
    }
    proof {
        assert(v.take(ls.len() as int) =~= v);
    }
    let al = action_label_exec(&action);
    let area = area_label_exec(&target, &section, &action);
    let mut out = str_chars("◌ Manage · ");
    if area.len() != 0 {
        push_chars(&mut out, &area);
        push_str(&mut out, " / ");
    }
    push_str(&mut out, al);
    chars_to_string(&out)
}

// ---------------------------------------------------------------------------
// Commands
// ---------------------------------------------------------------------------

pub open spec fn exec_head(command: Seq<char>) -> Seq<char> {
    let w = words_spec(command);
    if w.len() > 0 {
        w[0]
    } else {
        Seq::empty()
    }
}

/// What a command reads, lists, searches or runs, by its first word.
pub open spec fn exec_command_event_spec(preview: Seq<char>) -> Seq<char> {
    let command = trim_spec(first_line_or_all(preview));
    let head = exec_head(command);
    let tail = ellipsis_spec(trim_spec(join_words_from(command, 1)), 64);
    if head == "ls"@ || head == "find"@ || head == "fd"@ || head == "tree"@ {
        "○ List · "@ + (if tail.len() == 0 { "."@ } else { tail })
    } else if head == "rg"@ || head == "grep"@ {
        "● Search · "@ + (if tail.len() == 0 { compact_line_spec(command, 64) } else { tail })
    } else if head == "cat"@ || head == "sed"@ || head == "head"@ || head == "tail"@ || head == "bat"@ || head
        == "awk"@ {
        "○ Read · "@ + (if tail.len() == 0 { compact_line_spec(command, 64) } else { tail })
    } else if head == "git"@ {
        "◌ Git · "@ + (if tail.len() == 0 { "status"@ } else { tail })
    } else {
        "◌ Run · "@ + compact_line_spec(command, 72)
    }
}

fn join_words_from_chars(s: &[char], start: usize) -> (r: Vec<char>)
    ensures
        r@ == join_words_from(s@, start as nat),
{
    let words = words_chars(s);
    let mut rest: Vec<Vec<char>> = Vec::new();
    if start < words.len() {
        copy_range(&words, &mut rest, start, words.len());
        proof {
            assert(views(words@).subrange(start as int, words@.len() as int) =~= views(words@).skip(start as int));
        }
    } else {
        proof {
            assert(views(rest@) =~= Seq::<Seq<char>>::empty());
        }
    }
    let sp: Vec<char> = vec![' '];
    proof {
        assert(sp@ =~= seq![' ']);
    }
    join_chars(&rest, &sp)
}

pub fn agent_exec_command_event(preview: &str) -> (r: String)
    ensures
        r@ == exec_command_event_spec(preview@),
{
    let command = trim_chars(&first_line_or_all_chars(&str_chars(preview)));
    let w = words_chars(&command);
    let head: Vec<char> = if w.len() > 0 {
        w[0].clone()
    } else {
        Vec::new()
    };
    let tail = ellipsis_chars(&trim_chars(&join_words_from_chars(&command, 1)), 64);
    let mut out: Vec<char>;
    if chars_eq_str(&head, "ls") || chars_eq_str(&head, "find") || chars_eq_str(&head, "fd") || chars_eq_str(&head, "tree") {
        out = str_chars("○ List · ");
        if tail.len() == 0 {
            push_str(&mut out, ".");
        } else {
            push_chars(&mut out, &tail);
        }
    } else if chars_eq_str(&head, "rg") || chars_eq_str(&head, "grep") {
        out = str_chars("● Search · ");
        if tail.len() == 0 {
            push_chars(&mut out, &compact_line_chars(&command, 64));
        } else {
            push_chars(&mut out, &tail);
        }
    } else if chars_eq_str(&head, "cat") || chars_eq_str(&head, "sed") || chars_eq_str(&head, "head") || chars_eq_str(
        &head,
        "tail",
    ) || chars_eq_str(&head, "bat") || chars_eq_str(&head, "awk") {
        out = str_chars("○ Read · ");
        if tail.len() == 0 {
            push_chars(&mut out, &compact_line_chars(&command, 64));
        } else {
            push_chars(&mut out, &tail);
        }
    } else if chars_eq_str(&head, "git") {
        out = str_chars("◌ Git · ");
        if tail.len() == 0 {
            push_str(&mut out, "status");
        } else {
            push_chars(&mut out, &tail);
        }
    } else {
        out = str_chars("◌ Run · ");
        push_chars(&mut out, &compact_line_chars(&command, 72));
    }
    chars_to_string(&out)
}

// ---------------------------------------------------------------------------
// Any tool
// ---------------------------------------------------------------------------

/// The tools whose event is a symbol, a verb and the first preview line.
pub open spec fn verb_of_tool(name: Seq<char>) -> Option<Seq<char>> {
    if name == "view_image"@ {
        Some("◉ View · "@)
    } else if name == "web_search"@ {
        Some("◎ Web · "@)
    } else if name == "wait_agent"@ {
        Some("◌ Wait · "@)
    } else if name == "spawn_agent"@ {
        Some("◌ Spawn · "@)
    } else if name == "send_input"@ {
        Some("◌ Send · "@)
    } else if name == "resume_agent"@ {
        Some("◌ Resume · "@)
    } else if name == "close_agent"@ {
        Some("◌ Close · "@)
    } else if name == "request_user_input"@ {
        Some("◌ 对账 · "@)
    } else {
        None
    }
}

/// The event line of one tool call.
pub open spec fn tool_event_spec(name: Seq<char>, brief: Seq<char>, preview: Seq<char>) -> Seq<char> {
    let n = trim_spec(name);
    if n == "exec_command"@ {
        exec_command_event_spec(preview)
    } else {
        let title = if n == "apply_patch"@ || n == "rewrite_section"@ {
            "✎ Edit · "@ + apply_patch_event_spec(preview)
        } else if n == "context_manage"@ || n == "task_mode"@ {
            context_manage_event_spec(preview)
        } else if verb_of_tool(n) is Some {
            verb_of_tool(n)->0 + compact_line_spec(preview, 72)
        } else if n == "list_agent"@ {
            "◌ List · agents"@
        } else {
            let source = if trim_spec(brief).len() > 0 {
                brief
            } else {
                preview
            };
            "◌ "@ + n + " · "@ + compact_line_spec(source, 72)
        };
        event_text_spec(title)
    }
}

fn verb_of_tool_exec(n: &[char]) -> (r: Option<&'static str>)
    ensures
        match verb_of_tool(n@) {
            Some(v) => r matches Some(x) && x@ == v,
            None => r is None,
        },
{
    if chars_eq_str(n, "view_image") {
        Some("◉ View · ")
    } else if chars_eq_str(n, "web_search") {
        Some("◎ Web · ")
    } else if chars_eq_str(n, "wait_agent") {
        Some("◌ Wait · ")
    } else if chars_eq_str(n, "spawn_agent") {
        Some("◌ Spawn · ")
    } else if chars_eq_str(n, "send_input") {
        Some("◌ Send · ")
    } else if chars_eq_str(n, "resume_agent") {
        Some("◌ Resume · ")
    } else if chars_eq_str(n, "close_agent") {
        Some("◌ Close · ")
    } else if chars_eq_str(n, "request_user_input") {
        Some("◌ 对账 · ")
    } else {
        None
    }
}

pub fn agent_tool_event_line(name: &str, brief: &str, preview: &str) -> (r: String)
    ensures
        r@ == tool_event_spec(name@, brief@, preview@),
{
    let n = trim_chars(&str_chars(name));
    if chars_eq_str(&n, "exec_command") {
        return agent_exec_command_event(preview);
    }
    let pv = str_chars(preview);
    let title: Vec<char> = if chars_eq_str(&n, "apply_patch") || chars_eq_str(&n, "rewrite_section") {
        let mut t = str_chars("✎ Edit · ");
        let p = agent_apply_patch_preview(preview);
        push_str(&mut t, p.as_str());
        t
    } else if chars_eq_str(&n, "context_manage") || chars_eq_str(&n, "task_mode") {
        str_chars(agent_context_manage_event(preview).as_str())
    } else {
        match verb_of_tool_exec(&n) {
            Some(verb) => {
                let mut t = str_chars(verb);
                push_chars(&mut t, &compact_line_chars(&pv, 72));
                t
            },
            None => {
                if chars_eq_str(&n, "list_agent") {
                    str_chars("◌ List · agents")
                } else {
                    let bv = str_chars(brief);
                    let source = if trim_chars(&bv).len() > 0 {
                        bv
                    } else {
                        pv
                    };
                    let mut t = str_chars("◌ ");
                    push_chars(&mut t, &n);
                    push_str(&mut t, " · ");
                    push_chars(&mut t, &compact_line_chars(&source, 72));
                    t
                }
            },
        }
    };
    chars_to_string(&event_text_chars(&title))
}

} // verus!
