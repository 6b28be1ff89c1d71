//! What the memory tools were asked to do, as the chat announces it:
//! briefs and input previews of adds, replacements, checks, searches and
//! reads.
use vstd::prelude::*;

use crate::command::{brief_spec, normalize_brief, opt_str_view, opt_string_view};
use crate::terminal::push_line;
use crate::text::{
    chars_to_string, dec_spec, join_lines, join_lines_exec, join_spec, push_chars, push_dec, push_str, str_chars,
    trim_chars, trim_spec, views,
};
use crate::tool_args::{truncate_preview, truncate_preview_spec};

verus! {

#[derive(Debug, Clone, PartialEq, Eq)]
pub struct MemoryEntryArgs {
    pub date: String,
    pub title: Option<String>,
    pub keywords: Vec<String>,
    pub summary: Option<String>,
    pub content: String,
    pub evidence_entry_ids: Vec<u64>,
}

#[derive(Debug, Clone, PartialEq, Eq)]
pub struct MemoryAddArgs {
    pub brief: Option<String>,
    pub entries: Vec<MemoryEntryArgs>,
    pub clear_context: bool,
}

#[derive(Debug, Clone, PartialEq, Eq)]
pub struct MemoryReplaceArgs {
    pub entry_id: u64,
    pub date: String,
    pub title: Option<String>,
    pub keywords: Vec<String>,
    pub summary: Option<String>,
    pub content: String,
    pub evidence_entry_ids: Vec<u64>,
    pub brief: Option<String>,
}

#[derive(Debug, Clone, PartialEq, Eq)]
pub struct MemoryCheckArgs {
    pub target: String,
    pub keywords: Vec<String>,
    pub scope: Option<String>,
    pub date: Option<String>,
    pub start_date: Option<String>,
    pub end_date: Option<String>,
    pub tool_ref: Option<String>,
    pub limit: Option<usize>,
    pub brief: Option<String>,
}

#[derive(Debug, Clone, PartialEq, Eq)]
pub struct MemorySearchArgs {
    pub target: String,
    pub keywords: Vec<String>,
    pub start_date: String,
    pub end_date: String,
    pub limit: Option<usize>,
    pub brief: Option<String>,
}

#[derive(Debug, Clone, PartialEq, Eq)]
pub struct MemoryReadArgs {
    pub target: String,
    pub date: Option<String>,
    pub tool_ref: Option<String>,
    pub entry_id: Option<u64>,
    pub entry_start_id: Option<u64>,
    pub entry_end_id: Option<u64>,
    pub line_start: Option<usize>,
    pub line_end: Option<usize>,
    pub brief: Option<String>,
}

pub open spec fn brief_or(raw: Option<Seq<char>>, fallback: Seq<char>) -> Seq<char> {
    match brief_spec(raw) {
        Some(b) => b,
        None => fallback,
    }
}

fn opt_as_str(o: &Option<String>) -> (r: Option<&str>)
    ensures
        opt_str_view(r) == opt_string_view(*o),
{
    match o {
        Some(s) => Some(s.as_str()),
        None => None,
    }
}

pub open spec fn strings_view(v: Seq<String>) -> Seq<Seq<char>> {
    v.map_values(|s: String| s@)
}

fn join_strings(v: &Vec<String>, sep: &str) -> (r: Vec<char>)
    ensures
        r@ == join_spec(strings_view(v@), sep@),
{
    let mut parts: Vec<Vec<char>> = Vec::new();
    let mut i: usize = 0;
    while i < v.len()
        invariant
            i <= v@.len(),
            views(parts@) == strings_view(v@).take(i as int),
        decreases v@.len() - i,
    {
        push_line(&mut parts, str_chars(v[i].as_str()));
        proof {
            assert(strings_view(v@).take(i + 1) =~= strings_view(v@).take(i as int).push(v@[i as int]@));
        }
        i += 1;
    }
    assert(strings_view(v@).take(v@.len() as int) =~= strings_view(v@));
    crate::text::join_chars(&parts, &str_chars(sep))
}

pub open spec fn ids_text(v: Seq<u64>) -> Seq<char> {
    join_spec(v.map_values(|x: u64| dec_spec(x as nat)), ", "@)
}

fn join_ids(v: &Vec<u64>) -> (r: Vec<char>)
    ensures
        r@ == ids_text(v@),
{
    let mut parts: Vec<Vec<char>> = Vec::new();
    let mut i: usize = 0;
    while i < v.len()
        invariant
            i <= v@.len(),
            views(parts@) == v@.take(i as int).map_values(|x: u64| dec_spec(x as nat)),
        decreases v@.len() - i,
    {
        let mut d: Vec<char> = Vec::new();
        push_dec(&mut d, v[i]);
        push_line(&mut parts, d);
        proof {
            assert(v@.take(i + 1).map_values(|x: u64| dec_spec(x as nat)) =~= v@.take(i as int).map_values(
                |x: u64| dec_spec(x as nat),
            ).push(dec_spec(v@[i as int] as nat)));
        }
        i += 1;
    }
    assert(v@.take(v@.len() as int) =~= v@);
    crate::text::join_chars(&parts, &str_chars(", "))
}

/// `"{key}: {value}"` with the value trimmed, when there is a value.
pub open spec fn opt_text_line(key: Seq<char>, v: Option<Seq<char>>) -> Seq<Seq<char>> {
    match v {
        Some(s) => seq![key + ": "@ + trim_spec(s)],
        None => Seq::empty(),
    }
}

/// `"{key}: {n}"` when there is a number.
pub open spec fn opt_num_line(key: Seq<char>, v: Option<nat>) -> Seq<Seq<char>> {
    match v {
        Some(n) => seq![key + ": "@ + dec_spec(n)],
        None => Seq::empty(),
    }
}

pub open spec fn opt_usize(v: Option<usize>) -> Option<nat> {
    match v {
        Some(n) => Some(n as nat),
        None => None,
    }
}

pub open spec fn opt_u64(v: Option<u64>) -> Option<nat> {
    match v {
        Some(n) => Some(n as nat),
        None => None,
    }
}

fn push_opt_text(lines: &mut Vec<Vec<char>>, key: &str, v: &Option<String>)
    ensures
        views(final(lines)@) == views(old(lines)@) + opt_text_line(key@, opt_string_view(*v)),
{
    let ghost before = views(lines@);
    match v {
        Some(s) => {
            let mut l = str_chars(key);
            push_str(&mut l, ": ");
            push_chars(&mut l, &trim_chars(&str_chars(s.as_str())));
            push_line(lines, l);
        },
        None => {},
    }
    assert(views(lines@) =~= before + opt_text_line(key@, opt_string_view(*v)));
}

fn push_opt_num(lines: &mut Vec<Vec<char>>, key: &str, v: Option<u64>)
    ensures
        views(final(lines)@) == views(old(lines)@) + opt_num_line(key@, opt_u64(v)),
{
    let ghost before = views(lines@);
    match v {
        Some(n) => {
            let mut l = str_chars(key);
            push_str(&mut l, ": ");
            push_dec(&mut l, n);
            push_line(lines, l);
        },
        None => {},
    }
    assert(views(lines@) =~= before + opt_num_line(key@, opt_u64(v)));
}

fn widen(v: Option<usize>) -> (r: Option<u64>)
    ensures
        opt_u64(r) == opt_usize(v),
{
    match v {
        Some(n) => Some(n as u64),
        None => None,
    }
}

fn key_line(prefix: &str, value: &[char]) -> (r: Vec<char>)
    ensures
        r@ == prefix@ + value@,
{
    let mut l = str_chars(prefix);
    push_chars(&mut l, value);
    l
}

// ---------------------------------------------------------------------------
// Add
// ---------------------------------------------------------------------------

/// The dates among the first two entries that are not blank, trimmed.
pub open spec fn head_dates(es: Seq<MemoryEntryArgs>) -> Seq<Seq<char>> {
    let two = es.take(if es.len() < 2 { es.len() as int } else { 2 });
    let d0 = if two.len() > 0 && trim_spec(two[0].date@).len() > 0 {
        seq![trim_spec(two[0].date@)]
    } else {
        Seq::empty()
    };
    let d1 = if two.len() > 1 && trim_spec(two[1].date@).len() > 0 {
        seq![trim_spec(two[1].date@)]
    } else {
        Seq::empty()
    };
    d0 + d1
}

/// The brief of a memory add: the given one, else the dates it writes.
pub open spec fn memory_add_brief_spec(a: MemoryAddArgs) -> Seq<char> {
    let dates = head_dates(a.entries@);
    brief_or(
        opt_string_view(a.brief),
        if dates.len() == 1 {
            "写入 "@ + dates[0] + " 日记"@
        } else if dates.len() == 2 {
            "写入 "@ + dates[0] + " / "@ + dates[1] + " 日记"@
        } else {
            "写入长期记忆日记"@
        },
    )
}

fn trimmed_date(e: &MemoryEntryArgs) -> (r: Vec<char>)
    ensures
        r@ == trim_spec(e.date@),
{
    trim_chars(&str_chars(e.date.as_str()))
}

pub fn resolve_memory_add_brief(args: &MemoryAddArgs) -> (r: String)
    ensures
        r@ == memory_add_brief_spec(*args),
{
    match normalize_brief(opt_as_str(&args.brief)) {
        Some(b) => b,
        None => {
            let es = &args.entries;
            let mut dates: Vec<Vec<char>> = Vec::new();
            if es.len() > 0 {
                let d = trimmed_date(&es[0]);
                if d.len() > 0 {
                    dates.push(d);
                }
            }
            if es.len() > 1 {
                let d = trimmed_date(&es[1]);
                if d.len() > 0 {
                    dates.push(d);
                }
            }
            proof {
                let two = es@.take(if es@.len() < 2 { es@.len() as int } else { 2 });
                if es@.len() > 0 {
                    assert(two[0] == es@[0]);
                }
                if es@.len() > 1 {
                    assert(two[1] == es@[1]);
                }
                assert(views(dates@) =~= head_dates(es@));
            }
            let mut out = str_chars("写入");
            if dates.len() == 1 {
                push_str(&mut out, " ");
                push_chars(&mut out, &dates[0]);
                push_str(&mut out, " 日记");
                assert(views(dates@)[0] == dates@[0]@);
            } else if dates.len() == 2 {
                push_str(&mut out, " ");
                push_chars(&mut out, &dates[0]);
                push_str(&mut out, " / ");
                push_chars(&mut out, &dates[1]);
                push_str(&mut out, " 日记");
                assert(views(dates@)[0] == dates@[0]@);
                assert(views(dates@)[1] == dates@[1]@);
            } else {
                out = str_chars("写入长期记忆日记");
            }
            proof {
                reveal_strlit("写入");
                reveal_strlit(" ");
                reveal_strlit("写入 ");
                assert("写入"@ + " "@ =~= "写入 "@);
            }
            chars_to_string(&out)
        },
    }
}

/// One entry of a memory add: its date and its title (else its content),
/// with the number of evidence entries.
pub open spec fn entry_line(e: MemoryEntryArgs) -> Seq<char> {
    let head = match opt_string_view(e.title) {
        Some(t) => if trim_spec(t).len() > 0 {
            trim_spec(e.date@) + " · "@ + truncate_preview_spec(trim_spec(t), 28)
        } else {
            trim_spec(e.date@) + " · "@ + truncate_preview_spec(trim_spec(e.content@), 72)
        },
        None => trim_spec(e.date@) + " · "@ + truncate_preview_spec(trim_spec(e.content@), 72),
    };
    if e.evidence_entry_ids@.len() > 0 {
        head + " · evidence="@ + dec_spec(e.evidence_entry_ids@.len())
    } else {
        head
    }
}

/// The preview of a memory add: the count, the clearing, the first four
/// entries and how many more.
pub open spec fn memory_add_preview_spec(a: MemoryAddArgs) -> Seq<char> {
    let es = a.entries@;
    let shown = es.take(if es.len() < 4 { es.len() as int } else { 4 });
    join_lines(
        seq!["entries: "@ + dec_spec(es.len())] + (if a.clear_context {
            seq!["clear_context: true"@]
        } else {
            Seq::empty()
        }) + shown.map_values(|e: MemoryEntryArgs| entry_line(e)) + (if es.len() > 4 {
            seq!["... +"@ + dec_spec((es.len() - 4) as nat) + " entries"@]
        } else {
            Seq::empty()
        }),
    )
}

fn entry_line_exec(e: &MemoryEntryArgs) -> (r: Vec<char>)
    ensures
        r@ == entry_line(*e),
{
    let mut l = trimmed_date(e);
    push_str(&mut l, " · ");
    let titled = match &e.title {
        Some(t) => {
            let tt = trim_chars(&str_chars(t.as_str()));
            if tt.len() > 0 {
                push_str(&mut l, truncate_preview(chars_to_string(&tt).as_str(), 28).as_str());
                true
            } else {
                false
            }
        },
        None => false,
    };
    if !titled {
        let c = chars_to_string(&trim_chars(&str_chars(e.content.as_str())));
        push_str(&mut l, truncate_preview(c.as_str(), 72).as_str());
    }
    if e.evidence_entry_ids.len() > 0 {
        push_str(&mut l, " · evidence=");
        push_dec(&mut l, e.evidence_entry_ids.len() as u64);
    }
    l
}

pub fn build_memory_add_input_preview(args: &MemoryAddArgs) -> (r: String)
    ensures
        r@ == memory_add_preview_spec(*args),
{
    let es = &args.entries;
    let mut lines: Vec<Vec<char>> = Vec::new();
    let mut first = str_chars("entries: ");
    push_dec(&mut first, es.len() as u64);
    push_line(&mut lines, first);
    if args.clear_context {
        push_line(&mut lines, str_chars("clear_context: true"));
    }
    let ghost head = views(lines@);
    let shown = if es.len() < 4 {
        es.len()
    } else {
        4
    };
    let mut i: usize = 0;
    while i < shown
        invariant
            i <= shown <= es@.len(),
            views(lines@) == head + es@.take(i as int).map_values(|e: MemoryEntryArgs| entry_line(e)),
        decreases shown - i,
    {
        push_line(&mut lines, entry_line_exec(&es[i]));
        proof {
            assert(es@.take(i + 1).map_values(|e: MemoryEntryArgs| entry_line(e)) =~= es@.take(i as int).map_values(
                |e: MemoryEntryArgs| entry_line(e),
            ).push(entry_line(es@[i as int])));
        }
        i += 1;
    }
    if es.len() > 4 {
        let mut more = str_chars("... +");
        push_dec(&mut more, (es.len() - 4) as u64);
        push_str(&mut more, " entries");
        push_line(&mut lines, more);
    }
    assert(views(lines@) =~= seq!["entries: "@ + dec_spec(es@.len())] + (if args.clear_context {
        seq!["clear_context: true"@]
    } else {
        Seq::empty()
    }) + es@.take(shown as int).map_values(|e: MemoryEntryArgs| entry_line(e)) + (if es@.len() > 4 {
        seq!["... +"@ + dec_spec((es@.len() - 4) as nat) + " entries"@]
    } else {
        Seq::empty()
    }));
    chars_to_string(&join_lines_exec(&lines))
}

// ---------------------------------------------------------------------------
// Replace, check, search, read
// ---------------------------------------------------------------------------

fn brief_or_exec(raw: &Option<String>, prefix: &str, rest: &[char]) -> (r: String)
    ensures
        r@ == brief_or(opt_string_view(*raw), prefix@ + rest@),
{
    match normalize_brief(opt_as_str(raw)) {
        Some(b) => b,
        None => {
            let mut out = str_chars(prefix);
            push_chars(&mut out, rest);
            chars_to_string(&out)
        },
    }
}

pub fn resolve_memory_replace_brief(args: &MemoryReplaceArgs) -> (r: String)
    ensures
        r@ == brief_or(opt_string_view(args.brief), "替换日记 #"@ + dec_spec(args.entry_id as nat)),
{
    let mut d: Vec<char> = Vec::new();
    push_dec(&mut d, args.entry_id);
    assert(d@ =~= dec_spec(args.entry_id as nat));
    brief_or_exec(&args.brief, "替换日记 #", &d)
}

/// The preview of a replacement: the entry, its date and content, and the
/// evidence it cites.
pub open spec fn memory_replace_preview_spec(a: MemoryReplaceArgs) -> Seq<char> {
    join_lines(
        seq![
            "entry_id: "@ + dec_spec(a.entry_id as nat),
            "date: "@ + trim_spec(a.date@),
            "content: "@ + truncate_preview_spec(trim_spec(a.content@), 96),
        ] + (if a.evidence_entry_ids@.len() > 0 {
            seq!["evidence_entry_ids: "@ + ids_text(a.evidence_entry_ids@)]
        } else {
            Seq::empty()
        }),
    )
}

pub fn build_memory_replace_input_preview(args: &MemoryReplaceArgs) -> (r: String)
    ensures
        r@ == memory_replace_preview_spec(*args),
{
    let mut lines: Vec<Vec<char>> = Vec::new();
    let mut l0 = str_chars("entry_id: ");
    push_dec(&mut l0, args.entry_id);
    push_line(&mut lines, l0);
    push_line(&mut lines, key_line("date: ", &trim_chars(&str_chars(args.date.as_str()))));
    let c = truncate_preview(chars_to_string(&trim_chars(&str_chars(args.content.as_str()))).as_str(), 96);
    push_line(&mut lines, key_line("content: ", &str_chars(c.as_str())));
    if args.evidence_entry_ids.len() > 0 {
        push_line(&mut lines, key_line("evidence_entry_ids: ", &join_ids(&args.evidence_entry_ids)));
    }
    assert(views(lines@) =~= seq![
        "entry_id: "@ + dec_spec(args.entry_id as nat),
        "date: "@ + trim_spec(args.date@),
        "content: "@ + truncate_preview_spec(trim_spec(args.content@), 96),
    ] + (if args.evidence_entry_ids@.len() > 0 {
        seq!["evidence_entry_ids: "@ + ids_text(args.evidence_entry_ids@)]
    } else {
        Seq::empty()
    }));
    chars_to_string(&join_lines_exec(&lines))
}

pub fn resolve_memory_check_brief(args: &MemoryCheckArgs) -> (r: String)
    ensures
        r@ == brief_or(opt_string_view(args.brief), "检索 "@ + trim_spec(args.target@)),
{
    brief_or_exec(&args.brief, "检索 ", &trim_chars(&str_chars(args.target.as_str())))
}

pub fn resolve_memory_search_brief(args: &MemorySearchArgs) -> (r: String)
    ensures
        r@ == brief_or(opt_string_view(args.brief), "搜索 "@ + trim_spec(args.target@)),
{
    brief_or_exec(&args.brief, "搜索 ", &trim_chars(&str_chars(args.target.as_str())))
}

pub fn resolve_memory_read_brief(args: &MemoryReadArgs) -> (r: String)
    ensures
        r@ == brief_or(opt_string_view(args.brief), "读取 "@ + trim_spec(args.target@)),
{
    brief_or_exec(&args.brief, "读取 ", &trim_chars(&str_chars(args.target.as_str())))
}

pub open spec fn keywords_line(k: Seq<String>) -> Seq<Seq<char>> {
    if k.len() > 0 {
        seq!["keywords: "@ + join_spec(strings_view(k), ", "@)]
    } else {
        Seq::empty()
    }
}

/// The preview of a memory check: the target, then each filter given.
pub open spec fn memory_check_preview_spec(a: MemoryCheckArgs) -> Seq<char> {
    join_lines(
        seq!["target: "@ + trim_spec(a.target@)] + keywords_line(a.keywords@) + opt_text_line(
            "scope"@,
            opt_string_view(a.scope),
        ) + opt_text_line("date"@, opt_string_view(a.date)) + opt_text_line(
            "start_date"@,
            opt_string_view(a.start_date),
        ) + opt_text_line("end_date"@, opt_string_view(a.end_date)) + opt_text_line(
            "tool_ref"@,
            opt_string_view(a.tool_ref),
        ) + opt_num_line("limit"@, opt_usize(a.limit)),
    )
}

fn push_keywords(lines: &mut Vec<Vec<char>>, k: &Vec<String>)
    ensures
        views(final(lines)@) == views(old(lines)@) + keywords_line(k@),
{
    let ghost before = views(lines@);
    if k.len() > 0 {
        push_line(lines, key_line("keywords: ", &join_strings(k, ", ")));
    }
    assert(views(lines@) =~= before + keywords_line(k@));
}

pub fn build_memory_check_input_preview(args: &MemoryCheckArgs) -> (r: String)
    ensures
        r@ == memory_check_preview_spec(*args),
{
    let mut lines: Vec<Vec<char>> = Vec::new();
    push_line(&mut lines, key_line("target: ", &trim_chars(&str_chars(args.target.as_str()))));
    let ghost l0 = views(lines@);
    assert(l0 =~= seq!["target: "@ + trim_spec(args.target@)]);
    push_keywords(&mut lines, &args.keywords);
    push_opt_text(&mut lines, "scope", &args.scope);
    push_opt_text(&mut lines, "date", &args.date);
    push_opt_text(&mut lines, "start_date", &args.start_date);
    push_opt_text(&mut lines, "end_date", &args.end_date);
    push_opt_text(&mut lines, "tool_ref", &args.tool_ref);
    push_opt_num(&mut lines, "limit", widen(args.limit));
    chars_to_string(&join_lines_exec(&lines))
}

/// The preview of a memory search: the target, the keywords, the dates and
/// the limit.
pub open spec fn memory_search_preview_spec(a: MemorySearchArgs) -> Seq<char> {
    join_lines(
        seq!["target: "@ + trim_spec(a.target@)] + keywords_line(a.keywords@) + seq![
            "start_date: "@ + trim_spec(a.start_date@),
            "end_date: "@ + trim_spec(a.end_date@),
        ] + opt_num_line("limit"@, opt_usize(a.limit)),
    )
}

pub fn build_memory_search_input_preview(args: &MemorySearchArgs) -> (r: String)
    ensures
        r@ == memory_search_preview_spec(*args),
{
    let mut lines: Vec<Vec<char>> = Vec::new();
    push_line(&mut lines, key_line("target: ", &trim_chars(&str_chars(args.target.as_str()))));
    let ghost l0 = views(lines@);
    assert(l0 =~= seq!["target: "@ + trim_spec(args.target@)]);
    push_keywords(&mut lines, &args.keywords);
    let ghost l1 = views(lines@);
    push_line(&mut lines, key_line("start_date: ", &trim_chars(&str_chars(args.start_date.as_str()))));
    push_line(&mut lines, key_line("end_date: ", &trim_chars(&str_chars(args.end_date.as_str()))));
    proof {
        assert(views(lines@) =~= l1 + seq![
            "start_date: "@ + trim_spec(args.start_date@),
            "end_date: "@ + trim_spec(args.end_date@),
        ]);
    }
    push_opt_num(&mut lines, "limit", widen(args.limit));
    chars_to_string(&join_lines_exec(&lines))
}

/// The preview of a memory read: the target, then each locator given.
pub open spec fn memory_read_preview_spec(a: MemoryReadArgs) -> Seq<char> {
    join_lines(
        seq!["target: "@ + trim_spec(a.target@)] + opt_num_line("entry_id"@, opt_u64(a.entry_id)) + opt_num_line(
            "entry_start_id"@,
            opt_u64(a.entry_start_id),
        ) + opt_num_line("entry_end_id"@, opt_u64(a.entry_end_id)) + opt_text_line(
            "date"@,
            opt_string_view(a.date),
        ) + opt_text_line("tool_ref"@, opt_string_view(a.tool_ref)) + opt_num_line(
            "line_start"@,
            opt_usize(a.line_start),
        ) + opt_num_line("line_end"@, opt_usize(a.line_end)),
    )
}

pub fn build_memory_read_input_preview(args: &MemoryReadArgs) -> (r: String)
    ensures
        r@ == memory_read_preview_spec(*args),
{
    let mut lines: Vec<Vec<char>> = Vec::new();
    push_line(&mut lines, key_line("target: ", &trim_chars(&str_chars(args.target.as_str()))));
    let ghost l0 = views(lines@);
    assert(l0 =~= seq!["target: "@ + trim_spec(args.target@)]);
    push_opt_num(&mut lines, "entry_id", args.entry_id);
    push_opt_num(&mut lines, "entry_start_id", args.entry_start_id);
    push_opt_num(&mut lines, "entry_end_id", args.entry_end_id);
    push_opt_text(&mut lines, "date", &args.date);
    push_opt_text(&mut lines, "tool_ref", &args.tool_ref);
    push_opt_num(&mut lines, "line_start", widen(args.line_start));
    push_opt_num(&mut lines, "line_end", widen(args.line_end));
    chars_to_string(&join_lines_exec(&lines))
}

} // verus!
