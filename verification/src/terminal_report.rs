//! Reports on terminal sessions: log previews built from what was read of a
//! log, the progress and done reports, the replies of the terminal tools,
//! and the session list.
use vstd::prelude::*;

use crate::terminal::{
    append_all, drop_empty_tail, drop_empty_tail_exec, clamp_report_chars, clamp_report_spec, clean_cmd_chars, clean_cmd_spec, done_status_label,
    done_status_spec, literal_line, opt_line, owner_label_spec, prefixed, prefixed_dec, push_line,
    snapshot_status_label, stats_tail, stats_tail_chars, status_label_spec,
    format_terminal_output_preview, nonblank, nonblank_exec, opt_int, opt_str, output_preview_spec,
    prefixed_int, running_notice, running_wait_notice_zh, clean_cmd, TerminalMode, ToolReply,
    WriteStdinRequest, TERMINAL_MODEL_PREVIEW_MAX_CHARS,
    PreviewBudget, SessionSnapshot, TERMINAL_DONE_PREVIEW_HEAD_LINES, TERMINAL_DONE_PREVIEW_MAX_CHARS,
    TERMINAL_DONE_PREVIEW_TAIL_LINES, TERMINAL_LOG_SMALL_READ_MAX_BYTES,
};
use crate::terminal_text::{
    clamp_head_tail_preview_spec, clamp_head_tail_preview_text, clamp_preview_spec, clamp_preview_text,
    collect_preview_chars, copy_range, drop_blank_tail, drop_blank_tail_exec, marker_line, omitted_marker,
    preview_lines_spec, sanitize_spec, sanitize_terminal_chars, sat_sub,
};
use crate::command::{interaction_action_spec, terminal_interaction_action};
use crate::registry::{list_sessions, snapshot_session, Keyed, SessionRegistry};
use crate::text::{
    chars_eq_str, push_chars, push_dec, chars_to_string, dec_spec, ellipsis_chars, ellipsis_spec, int_dec_spec, join_lines, join_lines_exec,
    lines_chars, lines_spec, push_dec128, push_int, push_str, str_chars, trim_chars, trim_end_chars,
    trim_end_spec, trim_spec, trim_start_spec, views,
};

verus! {

// ---------------------------------------------------------------------------
// Log previews
// ---------------------------------------------------------------------------

/// The lines of a head read, a marker, and the lines of a tail read; each
/// side alone when the other is empty or both are the same.
pub open spec fn combine_head_tail_spec(head: Seq<char>, tail: Seq<char>, total_lines: nat, max_lines: nat) -> Seq<
    char,
> {
    let hl = preview_lines_spec(head);
    let tl = preview_lines_spec(tail);
    if hl.len() == 0 {
        clamp_preview_spec(tail, max_lines, usize::MAX as nat)
    } else if tl.len() == 0 || hl == tl {
        clamp_preview_spec(head, max_lines, usize::MAX as nat)
    } else {
        let head_keep = sat_sub(max_lines, 1) / 2;
        let tail_keep = sat_sub(max_lines, head_keep + 1);
        let omitted = sat_sub(total_lines, head_keep + tail_keep);
        let hk = if head_keep < hl.len() { head_keep } else { hl.len() };
        let tk = if tail_keep < tl.len() { tail_keep } else { tl.len() };
        let marker = if omitted > 0 { omitted_marker(omitted) } else { "…"@ };
        join_lines(drop_blank_tail(hl.take(hk as int) + seq![marker] + tl.skip(tl.len() - tk)))
    }
}

fn same_lines(a: &Vec<Vec<char>>, b: &Vec<Vec<char>>) -> (r: bool)
    ensures
        r == (views(a@) == views(b@)),
{
    if a.len() != b.len() {
        proof {
            assert(views(a@).len() != views(b@).len());
        }
        return false;
    }
    let mut i: usize = 0;
    while i < a.len()
        invariant
            i <= a.len(),
            a.len() == b.len(),
            forall|j: int| 0 <= j < i ==> views(a@)[j] == views(b@)[j],
        decreases a.len() - i,
    {
        if !crate::text::chars_eq(&a[i], &b[i]) {
            proof {
                assert(views(a@)[i as int] != views(b@)[i as int]);
            }
            return false;
        }
        i += 1;
    }
    proof {
        assert(views(a@) =~= views(b@));
    }
    true
}

pub fn combine_head_tail_preview(head: &str, tail: &str, total_lines: usize, max_lines: usize) -> (r: String)
    ensures
        r@ == combine_head_tail_spec(head@, tail@, total_lines as nat, max_lines as nat),
{
    let hl = collect_preview_chars(&str_chars(head));
    let tl = collect_preview_chars(&str_chars(tail));
    if hl.len() == 0 {
        return clamp_preview_text(tail, max_lines, usize::MAX);
    }
    if tl.len() == 0 || same_lines(&hl, &tl) {
        return clamp_preview_text(head, max_lines, usize::MAX);
    }
    let head_keep = if max_lines >= 1 {
        (max_lines - 1) / 2
    } else {
        0
    };
    let tail_keep = if max_lines >= head_keep + 1 {
        max_lines - (head_keep + 1)
    } else {
        0
    };
    let kept = head_keep + tail_keep;
    let omitted = if total_lines >= kept {
        total_lines - kept
    } else {
        0
    };
    let hk = if head_keep < hl.len() {
        head_keep
    } else {
        hl.len()
    };
    let tk = if tail_keep < tl.len() {
        tail_keep
    } else {
        tl.len()
    };
    let ghost hv = views(hl@);
    let ghost tv = views(tl@);
    let mut out: Vec<Vec<char>> = Vec::new();
    copy_range(&hl, &mut out, 0, hk);
    let ghost before = views(out@);
    let marker = if omitted > 0 {
        marker_line(omitted)
    } else {
        str_chars("…")
    };
    let ghost mv = marker@;
    out.push(marker);
    proof {
        assert(views(out@) =~= before.push(mv));
    }
    copy_range(&tl, &mut out, tl.len() - tk, tl.len());
    proof {
        assert(hv.subrange(0, hk as int) =~= hv.take(hk as int));
        assert(tv.subrange(tv.len() - tk, tv.len() as int) =~= tv.skip(tv.len() - tk));
        assert(views(out@) =~= hv.take(hk as int) + seq![mv] + tv.skip(tv.len() - tk));
    }
    drop_blank_tail_exec(&mut out);
    chars_to_string(&join_lines_exec(&out))
}

/// The lines a done preview keeps: its head and tail budgets and a marker.
pub open spec fn done_preview_max_lines_spec() -> nat {
    (TERMINAL_DONE_PREVIEW_HEAD_LINES + TERMINAL_DONE_PREVIEW_TAIL_LINES + 1) as nat
}

pub fn done_preview_max_lines() -> (r: usize)
    ensures
        r == done_preview_max_lines_spec(),
{
    TERMINAL_DONE_PREVIEW_HEAD_LINES + TERMINAL_DONE_PREVIEW_TAIL_LINES + 1
}

/// Which parts of a log a preview reads.
#[derive(Debug, Clone, Copy, PartialEq, Eq, Structural)]
pub enum LogReadPlan {
    /// Nothing was written: no read.
    Nothing,
    /// A small log is read whole.
    Whole,
    /// A large log is read at its head, and at its tail unless the kept
    /// output tail stands in for it.
    HeadAndTail { read_tail: bool },
}

/// What was read of a log, each part `None` when its read failed; the text
/// is the lossy decoding of the bytes read.
#[derive(Debug, Clone)]
pub struct LogReads {
    pub whole: Option<String>,
    pub head: Option<String>,
    pub tail: Option<String>,
}

pub open spec fn read_plan_spec(total_bytes: nat, output_tail: Seq<char>) -> LogReadPlan {
    if total_bytes == 0 {
        LogReadPlan::Nothing
    } else if total_bytes <= TERMINAL_LOG_SMALL_READ_MAX_BYTES {
        LogReadPlan::Whole
    } else {
        LogReadPlan::HeadAndTail { read_tail: trim_spec(output_tail).len() == 0 }
    }
}

/// The reads a log preview needs.
pub fn log_read_plan(total_bytes: usize, output_tail: &str) -> (r: LogReadPlan)
    ensures
        r == read_plan_spec(total_bytes as nat, output_tail@),
{
    if total_bytes == 0 {
        LogReadPlan::Nothing
    } else if total_bytes <= TERMINAL_LOG_SMALL_READ_MAX_BYTES {
        LogReadPlan::Whole
    } else {
        LogReadPlan::HeadAndTail { read_tail: trim_chars(&str_chars(output_tail)).len() == 0 }
    }
}

pub open spec fn sanitized_or_empty(o: Option<String>) -> Seq<char> {
    match o {
        Some(t) => sanitize_spec(t@),
        None => Seq::empty(),
    }
}

/// The text a preview is cut from: the whole log (or the kept tail when the
/// read failed) for a small log; else the head and the tail combined.
pub open spec fn log_source_spec(
    reads: LogReads,
    output_tail: Seq<char>,
    total_lines: nat,
    total_bytes: nat,
    max_lines: nat,
) -> Seq<char> {
    if total_bytes <= TERMINAL_LOG_SMALL_READ_MAX_BYTES {
        match reads.whole {
            Some(t) => sanitize_spec(t@),
            None => sanitize_spec(output_tail),
        }
    } else {
        let head = sanitized_or_empty(reads.head);
        let tail = if trim_spec(output_tail).len() == 0 {
            sanitized_or_empty(reads.tail)
        } else {
            sanitize_spec(output_tail)
        };
        combine_head_tail_spec(head, tail, total_lines, max_lines)
    }
}

fn sanitized_string(t: &str) -> (r: String)
    ensures
        r@ == sanitize_spec(t@),
{
    chars_to_string(&sanitize_terminal_chars(&str_chars(t)))
}

fn sanitized_or_empty_exec(o: &Option<String>) -> (r: String)
    ensures
        r@ == sanitized_or_empty(*o),
{
    match o {
        Some(t) => sanitized_string(t.as_str()),
        None => chars_to_string(&Vec::new()),
    }
}

fn log_source(reads: &LogReads, output_tail: &str, total_lines: usize, total_bytes: usize, max_lines: usize) -> (r:
    String)
    ensures
        r@ == log_source_spec(*reads, output_tail@, total_lines as nat, total_bytes as nat, max_lines as nat),
{
    if total_bytes <= TERMINAL_LOG_SMALL_READ_MAX_BYTES {
        match &reads.whole {
            Some(t) => sanitized_string(t.as_str()),
            None => sanitized_string(output_tail),
        }
    } else {
        let head = sanitized_or_empty_exec(&reads.head);
        let tail = if trim_chars(&str_chars(output_tail)).len() == 0 {
            sanitized_or_empty_exec(&reads.tail)
        } else {
            sanitized_string(output_tail)
        };
        combine_head_tail_preview(head.as_str(), tail.as_str(), total_lines, max_lines)
    }
}

/// Head and tail line budgets of a preview: half the lines at the head, the
/// rest at the tail, at least one on each side.
pub open spec fn preview_head_lines(b: PreviewBudget) -> nat {
    if b.max_lines / 2 < 1 {
        1
    } else {
        (b.max_lines / 2) as nat
    }
}

pub open spec fn preview_tail_lines(b: PreviewBudget) -> nat {
    let t = sat_sub(b.max_lines as nat, preview_head_lines(b));
    if t < 1 {
        1
    } else {
        t
    }
}

/// A log preview within a budget, from what was read of the log.
pub open spec fn log_preview_spec(
    reads: LogReads,
    output_tail: Seq<char>,
    total_lines: nat,
    total_bytes: nat,
    budget: PreviewBudget,
) -> Seq<char> {
    if total_bytes == 0 {
        Seq::empty()
    } else {
        clamp_head_tail_preview_spec(
            log_source_spec(reads, output_tail, total_lines, total_bytes, budget.max_lines as nat),
            preview_head_lines(budget),
            preview_tail_lines(budget),
            budget.max_chars as nat,
        )
    }
}

pub fn build_log_preview_from(
    reads: &LogReads,
    output_tail: &str,
    total_lines: usize,
    total_bytes: usize,
    budget: PreviewBudget,
) -> (r: String)
    ensures
        r@ == log_preview_spec(*reads, output_tail@, total_lines as nat, total_bytes as nat, budget),
{
    if total_bytes == 0 {
        return chars_to_string(&Vec::new());
    }
    let source = log_source(reads, output_tail, total_lines, total_bytes, budget.max_lines);
    let head_lines = if budget.max_lines / 2 < 1 {
        1
    } else {
        budget.max_lines / 2
    };
    let t = if budget.max_lines >= head_lines {
        budget.max_lines - head_lines
    } else {
        0
    };
    let tail_lines = if t < 1 {
        1
    } else {
        t
    };
    clamp_head_tail_preview_text(source.as_str(), head_lines, tail_lines, budget.max_chars)
}

/// A done preview, from what was read of the log.
pub open spec fn done_log_preview_spec(
    reads: LogReads,
    output_tail: Seq<char>,
    total_lines: nat,
    total_bytes: nat,
) -> Seq<char> {
    if total_bytes == 0 {
        Seq::empty()
    } else {
        clamp_head_tail_preview_spec(
            log_source_spec(reads, output_tail, total_lines, total_bytes, done_preview_max_lines_spec()),
            TERMINAL_DONE_PREVIEW_HEAD_LINES as nat,
            TERMINAL_DONE_PREVIEW_TAIL_LINES as nat,
            TERMINAL_DONE_PREVIEW_MAX_CHARS as nat,
        )
    }
}

pub fn build_done_log_preview_from(reads: &LogReads, output_tail: &str, total_lines: usize, total_bytes: usize) -> (r:
    String)
    ensures
        r@ == done_log_preview_spec(*reads, output_tail@, total_lines as nat, total_bytes as nat),
{
    if total_bytes == 0 {
        return chars_to_string(&Vec::new());
    }
    let source = log_source(reads, output_tail, total_lines, total_bytes, done_preview_max_lines());
    clamp_head_tail_preview_text(
        source.as_str(),
        TERMINAL_DONE_PREVIEW_HEAD_LINES,
        TERMINAL_DONE_PREVIEW_TAIL_LINES,
        TERMINAL_DONE_PREVIEW_MAX_CHARS,
    )
}

/// A preview, or `"(empty)"` when it is blank.
pub open spec fn preview_or_empty_spec(preview: Seq<char>) -> Seq<char> {
    if trim_spec(preview).len() == 0 {
        "(empty)"@
    } else {
        preview
    }
}

pub fn preview_or_empty(preview: &str) -> (r: String)
    ensures
        r@ == preview_or_empty_spec(preview@),
        trim_spec(r@).len() > 0,
{
    if trim_chars(&str_chars(preview)).len() == 0 {
        proof {
            reveal_strlit("(empty)");
            assert(trim_start_spec("(empty)"@) == "(empty)"@);
            assert(trim_end_spec("(empty)"@) == "(empty)"@);
        }
        chars_to_string(&str_chars("(empty)"))
    } else {
        chars_to_string(&str_chars(preview))
    }
}

/// The preview of a session's output, from what was read of its log:
/// `None` for an unknown session; else the log preview within the budget,
/// or `"(empty)"` when it is blank, as it is for a session that wrote
/// nothing.
pub fn session_output_preview(registry: &SessionRegistry, session_id: u64, reads: &LogReads, budget: PreviewBudget) -> (r:
    Option<String>)
    requires
        registry.wf(),
    ensures
        session_id == 0 ==> r is None,
        r matches Some(t) ==> trim_spec(t@).len() > 0,
        match registry.lookup(session_id) {
            None => r is None,
            Some(s) => r matches Some(t) && t@ == preview_or_empty_spec(
                log_preview_spec(*reads, s.output_tail@, s.output_lines as nat, s.output_bytes as nat, budget),
            ),
        },
        match registry.lookup(session_id) {
            Some(s) => s.output_bytes == 0 ==> (r matches Some(t) && t@ == "(empty)"@),
            None => true,
        },
{
    match snapshot_session(registry, session_id) {
        None => None,
        Some(s) => {
            let preview = build_log_preview_from(
                reads,
                s.output_tail.as_str(),
                s.output_lines,
                s.output_bytes,
                budget,
            );
            proof {
                if s.output_bytes == 0 {
                    assert(preview@ =~= Seq::<char>::empty());
                    assert(trim_spec(preview@).len() == 0);
                }
            }
            Some(preview_or_empty(preview.as_str()))
        },
    }
}

// ---------------------------------------------------------------------------
// Progress and done reports
// ---------------------------------------------------------------------------

/// The brief line, when the brief is not blank.
pub open spec fn brief_line(s: SessionSnapshot) -> Seq<Seq<char>> {
    opt_line(trim_spec(s.brief@).len() > 0, "brief:"@ + ellipsis_spec(trim_spec(s.brief@), 96))
}

/// The command on one line, cut to 320 characters.
pub open spec fn report_cmd_line(s: SessionSnapshot) -> Seq<char> {
    "cmd:"@ + trim_end_spec(ellipsis_spec(clean_cmd_spec(trim_spec(s.cmd@)), 320))
}

/// Where the session writes and how much it wrote.
pub open spec fn report_file_lines(s: SessionSnapshot) -> Seq<Seq<char>> {
    seq![report_cmd_line(s), "log:"@ + s.saved_path@, "status_file:"@ + s.status_path@, "stats:"@ + stats_tail(s)]
}

/// The preview, under a heading, when it is not blank.
pub open spec fn preview_block(preview: Seq<char>) -> Seq<Seq<char>> {
    if trim_spec(preview).len() > 0 {
        seq!["preview:"@] + lines_spec(preview)
    } else {
        Seq::empty()
    }
}

pub open spec fn exit_or_minus_one(s: SessionSnapshot) -> int {
    match s.exit_code {
        Some(c) => c as int,
        None => -1,
    }
}

pub open spec fn done_head_lines(s: SessionSnapshot, elapsed_ms: nat) -> Seq<Seq<char>> {
    seq![
        "Terminal Done"@,
        "session_id:"@ + dec_spec(s.session_id as nat) + " | status:"@ + done_status_spec(s) + " | exit:"@
            + int_dec_spec(exit_or_minus_one(s)) + " | elapsed_ms:"@ + dec_spec(elapsed_ms),
        "owner:"@ + owner_label_spec(s.owner),
    ]
}

/// The report sent when a session ends.
pub open spec fn done_report_spec(s: SessionSnapshot, elapsed_ms: nat, preview: Seq<char>) -> Seq<char> {
    clamp_report_spec(
        join_lines(done_head_lines(s, elapsed_ms) + brief_line(s) + report_file_lines(s) + preview_block(preview)),
    )
}

pub open spec fn progress_notice() -> Seq<char> {
    "notice:当前仅回传日志头尾摘要；完整输出请读取 log 路径。"@
}

pub open spec fn progress_hint() -> Seq<char> {
    "hint:若连续两次自动审计仍无新动作，可自行决策后续操作。"@
}

pub open spec fn progress_head_lines(s: SessionSnapshot, elapsed_ms: nat) -> Seq<Seq<char>> {
    seq![
        "Terminal Progress"@,
        "session_id:"@ + dec_spec(s.session_id as nat) + " | status:"@ + status_label_spec(s) + " | elapsed_ms:"@
            + dec_spec(elapsed_ms),
        "owner:"@ + owner_label_spec(s.owner),
    ]
}

/// The report sent on a running session at each audit interval.
pub open spec fn progress_report_spec(s: SessionSnapshot, elapsed_ms: nat, preview: Seq<char>) -> Seq<char> {
    clamp_report_spec(
        join_lines(
            progress_head_lines(s, elapsed_ms) + brief_line(s) + report_file_lines(s) + seq![
                progress_notice(),
                progress_hint(),
            ] + preview_block(preview),
        ),
    )
}

fn brief_line_exec(s: &SessionSnapshot) -> (r: Vec<Vec<char>>)
    ensures
        views(r@) == brief_line(*s),
{
    let mut out: Vec<Vec<char>> = Vec::new();
    let t = trim_chars(&str_chars(s.brief.as_str()));
    if t.len() > 0 {
        push_line(&mut out, prefixed("brief:", &ellipsis_chars(&t, 96)));
    }
    assert(views(out@) =~= brief_line(*s));
    out
}

fn report_file_lines_exec(s: &SessionSnapshot) -> (r: Vec<Vec<char>>)
    ensures
        views(r@) == report_file_lines(*s),
{
    let mut out: Vec<Vec<char>> = Vec::new();
    let c = clean_cmd_chars(&str_chars(s.cmd.as_str()));
    push_line(&mut out, prefixed("cmd:", &trim_end_chars(&ellipsis_chars(&c, 320))));
    push_line(&mut out, prefixed("log:", &str_chars(s.saved_path.as_str())));
    push_line(&mut out, prefixed("status_file:", &str_chars(s.status_path.as_str())));
    push_line(&mut out, prefixed("stats:", &stats_tail_chars(s)));
    assert(views(out@) =~= report_file_lines(*s));
    out
}

pub(crate) fn preview_block_exec(preview: &str) -> (r: Vec<Vec<char>>)
    ensures
        views(r@) == preview_block(preview@),
{
    let mut out: Vec<Vec<char>> = Vec::new();
    let pv = str_chars(preview);
    if trim_chars(&pv).len() > 0 {
        push_line(&mut out, literal_line("preview:"));
        append_all(&mut out, lines_chars(&pv));
    }
    assert(views(out@) =~= preview_block(preview@));
    out
}

fn done_head_lines_exec(s: &SessionSnapshot, elapsed_ms: u128) -> (r: Vec<Vec<char>>)
    ensures
        views(r@) == done_head_lines(*s, elapsed_ms as nat),
{
    let mut out: Vec<Vec<char>> = Vec::new();
    push_line(&mut out, literal_line("Terminal Done"));
    let mut l = prefixed_dec("session_id:", s.session_id);
    push_str(&mut l, " | status:");
    push_str(&mut l, done_status_label(s));
    push_str(&mut l, " | exit:");
    let code: i32 = match s.exit_code {
        Some(c) => c,
        None => -1,
    };
    push_int(&mut l, code as i64);
    push_str(&mut l, " | elapsed_ms:");
    push_dec128(&mut l, elapsed_ms);
    push_line(&mut out, l);
    push_line(&mut out, prefixed("owner:", &str_chars(s.owner.label())));
    assert(views(out@) =~= done_head_lines(*s, elapsed_ms as nat));
    out
}

/// The report sent when a session ends; `elapsed_ms` is the time since it
/// started and `preview` the done preview of its log.
pub fn format_done_report_text(snapshot: &SessionSnapshot, elapsed_ms: u128, preview: &str) -> (r: String)
    ensures
        r@ == done_report_spec(*snapshot, elapsed_ms as nat, preview@),
{
    let mut lines = done_head_lines_exec(snapshot, elapsed_ms);
    append_all(&mut lines, brief_line_exec(snapshot));
    append_all(&mut lines, report_file_lines_exec(snapshot));
    append_all(&mut lines, preview_block_exec(preview));
    clamp_report_chars(&join_lines_exec(&lines))
}

fn progress_head_lines_exec(s: &SessionSnapshot, elapsed_ms: u128) -> (r: Vec<Vec<char>>)
    ensures
        views(r@) == progress_head_lines(*s, elapsed_ms as nat),
{
    let mut out: Vec<Vec<char>> = Vec::new();
    push_line(&mut out, literal_line("Terminal Progress"));
    let mut l = prefixed_dec("session_id:", s.session_id);
    push_str(&mut l, " | status:");
    push_str(&mut l, snapshot_status_label(s));
    push_str(&mut l, " | elapsed_ms:");
    push_dec128(&mut l, elapsed_ms);
    push_line(&mut out, l);
    push_line(&mut out, prefixed("owner:", &str_chars(s.owner.label())));
    assert(views(out@) =~= progress_head_lines(*s, elapsed_ms as nat));
    out
}

/// The report sent on a running session at each audit interval.
pub fn format_progress_report_text(snapshot: &SessionSnapshot, elapsed_ms: u128, preview: &str) -> (r: String)
    ensures
        r@ == progress_report_spec(*snapshot, elapsed_ms as nat, preview@),
{
    let mut lines = progress_head_lines_exec(snapshot, elapsed_ms);
    append_all(&mut lines, brief_line_exec(snapshot));
    append_all(&mut lines, report_file_lines_exec(snapshot));
    push_line(&mut lines, literal_line("notice:当前仅回传日志头尾摘要；完整输出请读取 log 路径。"));
    push_line(&mut lines, literal_line("hint:若连续两次自动审计仍无新动作，可自行决策后续操作。"));
    let ghost before = views(lines@);
    append_all(&mut lines, preview_block_exec(preview));
    assert(views(lines@) == before + preview_block(preview@));
    assert(views(lines@) =~= progress_head_lines(*snapshot, elapsed_ms as nat) + brief_line(*snapshot)
        + report_file_lines(*snapshot) + seq![progress_notice(), progress_hint()] + preview_block(preview@));
    clamp_report_chars(&join_lines_exec(&lines))
}

// ---------------------------------------------------------------------------
// What the model is told
// ---------------------------------------------------------------------------

/// Starting, polling and injecting leave a running session to report back.
pub open spec fn is_wait_action(action: Option<Seq<char>>) -> bool {
    action is Some && (action->0 == "启动"@ || action->0 == "轮询"@ || action->0 == "注入"@)
}

/// How often a running session reports, and the notice to wait for it.
pub open spec fn guidance_lines(show: bool, audit_interval_secs: u64) -> Seq<Seq<char>> {
    if show {
        seq!["Snapshot Interval: "@ + dec_spec(audit_interval_secs as nat) + "s"@, "Notice: "@ + running_notice()]
    } else {
        Seq::empty()
    }
}

pub open spec fn model_preview_lines(preview: Seq<char>) -> Seq<Seq<char>> {
    seq![
        "Output preview:"@,
        if trim_spec(preview).len() > 0 {
            ellipsis_spec(trim_end_spec(preview), TERMINAL_MODEL_PREVIEW_MAX_CHARS as nat)
        } else {
            "(no terminal output yet)"@
        },
    ]
}

pub open spec fn model_who_lines(
    s: SessionSnapshot,
    status: Seq<char>,
    action: Option<Seq<char>>,
    input: Option<Seq<char>>,
) -> Seq<Seq<char>> {
    seq!["Session ID: "@ + dec_spec(s.session_id as nat), "Owner: "@ + owner_label_spec(s.owner)] + opt_line(
        nonblank(action),
        "Action: "@ + action->0,
    ) + opt_line(nonblank(input), "Input: "@ + ellipsis_spec(trim_end_spec(input->0), 300)) + seq![
        "Status: "@ + status,
    ] + opt_line(s.pid is Some, "PID: "@ + int_dec_spec(opt_int(s.pid)->0)) + opt_line(
        s.pgrp is Some,
        "PGRP: "@ + int_dec_spec(opt_int(s.pgrp)->0),
    )
}

pub open spec fn model_where_lines(s: SessionSnapshot) -> Seq<Seq<char>> {
    seq![
        "Command: "@ + clean_cmd_spec(trim_spec(s.cmd@)),
        "Workdir: "@ + s.workdir@,
        "Log: "@ + s.saved_path@,
        "Status File: "@ + s.status_path@,
        "Output stats: "@ + stats_tail(s),
    ] + opt_line(s.exit_code is Some, "Process exited with code "@ + int_dec_spec(opt_int(s.exit_code)->0))
}

/// The reply a terminal tool gives the model.
pub open spec fn model_output_spec(
    title: Seq<char>,
    preview: Seq<char>,
    s: SessionSnapshot,
    status: Seq<char>,
    action: Option<Seq<char>>,
    input: Option<Seq<char>>,
    audit_interval_secs: u64,
) -> Seq<char> {
    clamp_report_spec(
        join_lines(
            seq![title] + guidance_lines(s.running && is_wait_action(action), audit_interval_secs)
                + model_preview_lines(preview) + model_who_lines(s, status, action, input) + model_where_lines(s),
        ),
    )
}

fn is_wait_action_exec(action: Option<&str>) -> (r: bool)
    ensures
        r == is_wait_action(opt_str(action)),
{
    match action {
        Some(a) => {
            let v = str_chars(a);
            chars_eq_str(&v, "启动") || chars_eq_str(&v, "轮询") || chars_eq_str(&v, "注入")
        },
        None => false,
    }
}

pub(crate) fn guidance_lines_exec(show: bool, audit_interval_secs: u64) -> (r: Vec<Vec<char>>)
    ensures
        views(r@) == guidance_lines(show, audit_interval_secs),
{
    let mut out: Vec<Vec<char>> = Vec::new();
    if show {
        let mut l = prefixed_dec("Snapshot Interval: ", audit_interval_secs);
        push_str(&mut l, "s");
        push_line(&mut out, l);
        push_line(&mut out, prefixed("Notice: ", &str_chars(running_wait_notice_zh())));
    }
    assert(views(out@) =~= guidance_lines(show, audit_interval_secs));
    out
}

fn model_preview_lines_exec(preview: &str) -> (r: Vec<Vec<char>>)
    ensures
        views(r@) == model_preview_lines(preview@),
{
    let mut out: Vec<Vec<char>> = Vec::new();
    push_line(&mut out, literal_line("Output preview:"));
    let pv = str_chars(preview);
    if trim_chars(&pv).len() > 0 {
        push_line(&mut out, ellipsis_chars(&trim_end_chars(&pv), TERMINAL_MODEL_PREVIEW_MAX_CHARS));
    } else {
        push_line(&mut out, literal_line("(no terminal output yet)"));
    }
    assert(views(out@) =~= model_preview_lines(preview@));
    out
}

fn model_who_lines_exec(s: &SessionSnapshot, status: &str, action: Option<&str>, input: Option<&str>) -> (r: Vec<
    Vec<char>,
>)
    ensures
        views(r@) == model_who_lines(*s, status@, opt_str(action), opt_str(input)),
{
    let mut out: Vec<Vec<char>> = Vec::new();
    push_line(&mut out, prefixed_dec("Session ID: ", s.session_id));
    push_line(&mut out, prefixed("Owner: ", &str_chars(s.owner.label())));
    let ghost l0 = views(out@);
    if nonblank_exec(action) {
        match action {
            Some(a) => push_line(&mut out, prefixed("Action: ", &str_chars(a))),
            None => {},
        }
    }
    let ghost l1 = views(out@);
    assert(l1 =~= l0 + opt_line(nonblank(opt_str(action)), "Action: "@ + opt_str(action)->0));
    if nonblank_exec(input) {
        match input {
            Some(i) => push_line(&mut out, prefixed("Input: ", &ellipsis_chars(&trim_end_chars(&str_chars(i)), 300))),
            None => {},
        }
    }
    let ghost l2 = views(out@);
    assert(l2 =~= l1 + opt_line(nonblank(opt_str(input)), "Input: "@ + ellipsis_spec(trim_end_spec(opt_str(input)->0), 300)));
    push_line(&mut out, prefixed("Status: ", &str_chars(status)));
    let ghost l3 = views(out@);
    match s.pid {
        Some(p) => push_line(&mut out, prefixed_int("PID: ", p)),
        None => {},
    }
    let ghost l4 = views(out@);
    assert(l4 =~= l3 + opt_line(s.pid is Some, "PID: "@ + int_dec_spec(opt_int(s.pid)->0)));
    match s.pgrp {
        Some(p) => push_line(&mut out, prefixed_int("PGRP: ", p)),
        None => {},
    }
    assert(views(out@) =~= l4 + opt_line(s.pgrp is Some, "PGRP: "@ + int_dec_spec(opt_int(s.pgrp)->0)));
    out
}

fn model_where_lines_exec(s: &SessionSnapshot) -> (r: Vec<Vec<char>>)
    ensures
        views(r@) == model_where_lines(*s),
{
    let mut out: Vec<Vec<char>> = Vec::new();
    push_line(&mut out, prefixed("Command: ", &clean_cmd_chars(&str_chars(s.cmd.as_str()))));
    push_line(&mut out, prefixed("Workdir: ", &str_chars(s.workdir.as_str())));
    push_line(&mut out, prefixed("Log: ", &str_chars(s.saved_path.as_str())));
    push_line(&mut out, prefixed("Status File: ", &str_chars(s.status_path.as_str())));
    push_line(&mut out, prefixed("Output stats: ", &stats_tail_chars(s)));
    let ghost l0 = views(out@);
    match s.exit_code {
        Some(c) => push_line(&mut out, prefixed_int("Process exited with code ", c)),
        None => {},
    }
    assert(views(out@) =~= l0 + opt_line(
        s.exit_code is Some,
        "Process exited with code "@ + int_dec_spec(opt_int(s.exit_code)->0),
    ));
    out
}

/// The reply a terminal tool gives the model; `audit_interval_secs` is the
/// configured interval between reports on a running session.
pub fn format_terminal_model_output(
    title: &str,
    preview: &str,
    snapshot: &SessionSnapshot,
    status: &str,
    action: Option<&str>,
    input: Option<&str>,
    audit_interval_secs: u64,
) -> (r: String)
    ensures
        r@ == model_output_spec(
            title@,
            preview@,
            *snapshot,
            status@,
            opt_str(action),
            opt_str(input),
            audit_interval_secs,
        ),
{
    let mut lines: Vec<Vec<char>> = Vec::new();
    push_line(&mut lines, str_chars(title));
    let show = snapshot.running && is_wait_action_exec(action);
    append_all(&mut lines, guidance_lines_exec(show, audit_interval_secs));
    append_all(&mut lines, model_preview_lines_exec(preview));
    append_all(&mut lines, model_who_lines_exec(snapshot, status, action, input));
    append_all(&mut lines, model_where_lines_exec(snapshot));
    assert(views(lines@) =~= seq![title@] + guidance_lines(
        snapshot.running && is_wait_action(opt_str(action)),
        audit_interval_secs,
    ) + model_preview_lines(preview@) + model_who_lines(*snapshot, status@, opt_str(action), opt_str(input))
        + model_where_lines(*snapshot));
    clamp_report_chars(&join_lines_exec(&lines))
}

// ---------------------------------------------------------------------------
// Tool replies
// ---------------------------------------------------------------------------

pub open spec fn start_title(m: TerminalMode) -> Seq<char> {
    match m {
        TerminalMode::Background => "Background Terminal started"@,
        TerminalMode::Interactive => "Interactive Terminal started"@,
    }
}

pub open spec fn done_title(m: TerminalMode) -> Seq<char> {
    match m {
        TerminalMode::Background => "Background Terminal done"@,
        TerminalMode::Interactive => "Interactive Terminal done"@,
    }
}

/// A reply that reports on a session after an action.
pub open spec fn is_session_reply(
    r: ToolReply,
    command_preview: Seq<char>,
    title: Seq<char>,
    preview: Seq<char>,
    s: SessionSnapshot,
    status: Seq<char>,
    action: Seq<char>,
    input: Option<Seq<char>>,
    audit_interval_secs: u64,
) -> bool {
    &&& r.command_preview@ == command_preview
    &&& r.output_preview@ == output_preview_spec(preview, s, status, Some(action), input)
    &&& r.model_output@ == model_output_spec(title, preview, s, status, Some(action), input, audit_interval_secs)
    &&& r.exit_code == s.exit_code
}

fn session_reply(
    command_preview: String,
    title: &str,
    preview: &str,
    snapshot: &SessionSnapshot,
    status: &str,
    action: &str,
    input: Option<&str>,
    audit_interval_secs: u64,
) -> (r: ToolReply)
    ensures
        is_session_reply(
            r,
            command_preview@,
            title@,
            preview@,
            *snapshot,
            status@,
            action@,
            opt_str(input),
            audit_interval_secs,
        ),
{
    ToolReply {
        command_preview,
        output_preview: format_terminal_output_preview(preview, snapshot, status, Some(action), input),
        model_output: format_terminal_model_output(
            title,
            preview,
            snapshot,
            status,
            Some(action),
            input,
            audit_interval_secs,
        ),
        exit_code: snapshot.exit_code,
    }
}

/// The reply to starting a session.
pub fn format_exec_reply(snapshot: &SessionSnapshot, preview: &str, audit_interval_secs: u64) -> (r: ToolReply)
    ensures
        is_session_reply(
            r,
            clean_cmd_spec(trim_spec(snapshot.cmd@)),
            start_title(snapshot.mode),
            preview@,
            *snapshot,
            status_label_spec(*snapshot),
            "启动"@,
            None,
            audit_interval_secs,
        ),
{
    let title = match snapshot.mode {
        TerminalMode::Background => "Background Terminal started",
        TerminalMode::Interactive => "Interactive Terminal started",
    };
    session_reply(
        clean_cmd(snapshot.cmd.as_str()),
        title,
        preview,
        snapshot,
        snapshot_status_label(snapshot),
        "启动",
        None,
        audit_interval_secs,
    )
}

/// The reply when a session ends.
pub fn format_done_reply(snapshot: &SessionSnapshot, preview: &str, audit_interval_secs: u64) -> (r: ToolReply)
    ensures
        is_session_reply(
            r,
            clean_cmd_spec(trim_spec(snapshot.cmd@)),
            done_title(snapshot.mode),
            preview@,
            *snapshot,
            status_label_spec(*snapshot),
            "完成"@,
            None,
            audit_interval_secs,
        ),
{
    let title = match snapshot.mode {
        TerminalMode::Background => "Background Terminal done",
        TerminalMode::Interactive => "Interactive Terminal done",
    };
    session_reply(
        clean_cmd(snapshot.cmd.as_str()),
        title,
        preview,
        snapshot,
        snapshot_status_label(snapshot),
        "完成",
        None,
        audit_interval_secs,
    )
}

/// `"session {id} · {input}"`, or a wait note for empty input.
pub open spec fn write_command_preview(req: WriteStdinRequest) -> Seq<char> {
    if req.chars@.len() == 0 {
        "session "@ + dec_spec(req.session_id as nat) + " · (wait for terminal output)"@
    } else {
        "session "@ + dec_spec(req.session_id as nat) + " · "@ + trim_end_spec(req.chars@)
    }
}

/// The reply to writing to a session.
pub fn format_write_reply(req: &WriteStdinRequest, snapshot: &SessionSnapshot, preview: &str, audit_interval_secs: u64) -> (r:
    ToolReply)
    ensures
        is_session_reply(
            r,
            write_command_preview(*req),
            "Terminal interaction"@,
            preview@,
            *snapshot,
            status_label_spec(*snapshot),
            interaction_action_spec(req.chars@),
            if req.chars@.len() == 0 {
                None
            } else {
                Some(req.chars@)
            },
            audit_interval_secs,
        ),
{
    let cv = str_chars(req.chars.as_str());
    let mut cp = str_chars("session ");
    push_dec(&mut cp, req.session_id);
    if cv.len() == 0 {
        push_str(&mut cp, " · (wait for terminal output)");
    } else {
        push_str(&mut cp, " · ");
        push_chars(&mut cp, &trim_end_chars(&cv));
    }
    let input: Option<&str> = if cv.len() == 0 {
        None
    } else {
        Some(req.chars.as_str())
    };
    let action = terminal_interaction_action(req.chars.as_str());
    session_reply(
        chars_to_string(&cp),
        "Terminal interaction",
        preview,
        snapshot,
        snapshot_status_label(snapshot),
        action,
        input,
        audit_interval_secs,
    )
}

/// Why killing a session failed.
#[derive(Debug, Clone, PartialEq, Eq)]
pub enum KillSessionError {
    /// No session has this id.
    NotFound(u64),
    /// The kill signal could not be sent to a running session.
    KillFailed(u64),
}

impl KillSessionError {
    /// `"session {id} 不存在"` or `"终止 session {id} 失败"`.
    pub fn message(&self) -> (r: String)
        ensures
            r@ == (match *self {
                KillSessionError::NotFound(id) => "session "@ + dec_spec(id as nat) + " 不存在"@,
                KillSessionError::KillFailed(id) => "终止 session "@ + dec_spec(id as nat) + " 失败"@,
            }),
    {
        match self {
            KillSessionError::NotFound(id) => {
                let mut out = str_chars("session ");
                push_dec(&mut out, *id);
                push_str(&mut out, " 不存在");
                chars_to_string(&out)
            },
            KillSessionError::KillFailed(id) => {
                let mut out = str_chars("终止 session ");
                push_dec(&mut out, *id);
                push_str(&mut out, " 失败");
                chars_to_string(&out)
            },
        }
    }
}

/// The reply to `pty_kill` once the session was looked up and, when it was
/// running, sent the kill signal (`kill_failed` when that failed).
pub fn kill_session_tool(session_id: u64, snapshot: Option<&SessionSnapshot>, preview: &str, kill_failed: bool, audit_interval_secs: u64) -> (r:
    Result<ToolReply, KillSessionError>)
    ensures
        match snapshot {
            None => r == Err::<ToolReply, KillSessionError>(KillSessionError::NotFound(session_id)),
            Some(s) => if s.running && kill_failed {
                r == Err::<ToolReply, KillSessionError>(KillSessionError::KillFailed(session_id))
            } else {
                r matches Ok(reply) && is_session_reply(
                    reply,
                    "session_id="@ + dec_spec(session_id as nat),
                    "Terminal kill"@,
                    preview@,
                    *s,
                    if s.running { "kill_requested"@ } else { "already_finished"@ },
                    "终止"@,
                    None,
                    audit_interval_secs,
                )
            },
        },
{
    match snapshot {
        None => Err(KillSessionError::NotFound(session_id)),
        Some(s) => {
            if s.running && kill_failed {
                return Err(KillSessionError::KillFailed(session_id));
            }
            let status = if s.running {
                "kill_requested"
            } else {
                "already_finished"
            };
            let mut cp = str_chars("session_id=");
            push_dec(&mut cp, session_id);
            Ok(session_reply(chars_to_string(&cp), "Terminal kill", preview, s, status, "终止", None, audit_interval_secs))
        },
    }
}

// ---------------------------------------------------------------------------
// The session list
// ---------------------------------------------------------------------------

/// A session as the list shows it: its snapshot, its age in seconds and the
/// preview of its log within the grouped budget.
#[derive(Debug, Clone)]
pub struct ListedSession {
    pub snapshot: SessionSnapshot,
    pub age_secs: u64,
    pub preview: String,
}

pub open spec fn pid_text(o: Option<i32>) -> Seq<char> {
    match o {
        Some(v) => int_dec_spec(v as int),
        None => "(pending)"@,
    }
}

pub open spec fn mode_name(m: TerminalMode) -> Seq<char> {
    match m {
        TerminalMode::Background => "background"@,
        TerminalMode::Interactive => "interactive"@,
    }
}

pub open spec fn session_header(e: ListedSession) -> Seq<char> {
    let s = e.snapshot;
    "#"@ + dec_spec(s.session_id as nat) + " | owner:"@ + owner_label_spec(s.owner) + " | mode:"@ + mode_name(s.mode)
        + " | status:"@ + status_label_spec(s) + " | pid:"@ + pid_text(s.pid) + " | pgrp:"@ + pid_text(s.pgrp)
        + " | "@ + dec_spec(e.age_secs as nat) + "s"@
}

/// The lines of one listed session, closed by a blank line.
pub open spec fn session_block(e: ListedSession) -> Seq<Seq<char>> {
    let s = e.snapshot;
    seq![
        session_header(e),
        "brief: "@ + s.brief@,
        "cmd: "@ + ellipsis_spec(s.cmd@, 160),
        "cwd: "@ + s.workdir@,
        "log: "@ + s.saved_path@,
        "status_file: "@ + s.status_path@,
        "stats: "@ + stats_tail(s),
    ] + preview_block(e.preview@) + seq![Seq::<char>::empty()]
}

pub open spec fn session_blocks(es: Seq<ListedSession>) -> Seq<Seq<char>>
    decreases es.len(),
{
    if es.len() == 0 {
        Seq::empty()
    } else {
        session_blocks(es.drop_last()) + session_block(es.last())
    }
}

/// The `pty_list` report: a count, then each session.
pub open spec fn session_list_spec(es: Seq<ListedSession>) -> Seq<char> {
    let lines = drop_empty_tail(seq!["running_sessions:"@ + dec_spec(es.len())] + session_blocks(es));
    if lines.len() == 0 {
        "running_sessions:0"@
    } else {
        clamp_report_spec(join_lines(lines))
    }
}

fn pid_text_exec(o: Option<i32>) -> (r: Vec<char>)
    ensures
        r@ == pid_text(o),
{
    match o {
        Some(v) => {
            let mut out: Vec<char> = Vec::new();
            push_int(&mut out, v as i64);
            out
        },
        None => str_chars("(pending)"),
    }
}

fn session_block_exec(e: &ListedSession) -> (r: Vec<Vec<char>>)
    ensures
        views(r@) == session_block(*e),
{
    let s = &e.snapshot;
    let mut h = prefixed_dec("#", s.session_id);
    push_str(&mut h, " | owner:");
    push_str(&mut h, s.owner.label());
    push_str(&mut h, " | mode:");
    push_str(&mut h, match s.mode {
        TerminalMode::Background => "background",
        TerminalMode::Interactive => "interactive",
    });
    push_str(&mut h, " | status:");
    push_str(&mut h, snapshot_status_label(s));
    push_str(&mut h, " | pid:");
    push_chars(&mut h, &pid_text_exec(s.pid));
    push_str(&mut h, " | pgrp:");
    push_chars(&mut h, &pid_text_exec(s.pgrp));
    push_str(&mut h, " | ");
    push_dec(&mut h, e.age_secs);
    push_str(&mut h, "s");
    let mut out: Vec<Vec<char>> = Vec::new();
    push_line(&mut out, h);
    push_line(&mut out, prefixed("brief: ", &str_chars(s.brief.as_str())));
    push_line(&mut out, prefixed("cmd: ", &ellipsis_chars(&str_chars(s.cmd.as_str()), 160)));
    push_line(&mut out, prefixed("cwd: ", &str_chars(s.workdir.as_str())));
    push_line(&mut out, prefixed("log: ", &str_chars(s.saved_path.as_str())));
    push_line(&mut out, prefixed("status_file: ", &str_chars(s.status_path.as_str())));
    push_line(&mut out, prefixed("stats: ", &stats_tail_chars(s)));
    let ghost l0 = views(out@);
    append_all(&mut out, preview_block_exec(e.preview.as_str()));
    push_line(&mut out, Vec::new());
    assert(views(out@) =~= l0 + preview_block(e.preview@) + seq![Seq::<char>::empty()]);
    out
}

/// The `pty_list` reply on the running sessions, in the order given.
pub fn list_sessions_tool(entries: &Vec<ListedSession>) -> (r: ToolReply)
    ensures
        r.command_preview@ == "pty_list"@,
        r.output_preview@ == session_list_spec(entries@),
        r.model_output@ == session_list_spec(entries@),
        r.exit_code is None,
{
    let mut lines: Vec<Vec<char>> = Vec::new();
    push_line(&mut lines, prefixed_dec("running_sessions:", entries.len() as u64));
    let ghost first = views(lines@);
    assert(first =~= seq!["running_sessions:"@ + dec_spec(entries@.len())]);
    let mut i: usize = 0;
    assert(entries@.take(0) =~= Seq::<ListedSession>::empty());
    while i < entries.len()
        invariant
            i <= entries.len(),
            views(lines@) == first + session_blocks(entries@.take(i as int)),
        decreases entries.len() - i,
    {
        proof {
            assert(entries@.take(i + 1).drop_last() =~= entries@.take(i as int));
        }
        append_all(&mut lines, session_block_exec(&entries[i]));
        i += 1;
    }
    proof {
        assert(entries@.take(entries@.len() as int) =~= entries@);
    }
    assert(views(lines@) == seq!["running_sessions:"@ + dec_spec(entries@.len())] + session_blocks(entries@));
    drop_empty_tail_exec(&mut lines);
    let output = if lines.len() == 0 {
        chars_to_string(&str_chars("running_sessions:0"))
    } else {
        clamp_report_chars(&join_lines_exec(&lines))
    };
    let model = chars_to_string(&str_chars(output.as_str()));
    ToolReply {
        command_preview: chars_to_string(&str_chars("pty_list")),
        output_preview: output,
        model_output: model,
        exit_code: None,
    }
}


/// The entries of the session list: each running session, in id order,
/// with its age and log preview.
pub open spec fn listed_from(running: Seq<SessionSnapshot>, ages: Seq<u64>, previews: Seq<String>) -> Seq<ListedSession> {
    Seq::new(running.len(), |i: int| ListedSession { snapshot: running[i], age_secs: ages[i], preview: previews[i] })
}

/// The `pty_list` reply on the registry's running sessions: `ages` and
/// `previews` give, in id order, each one's age and log preview. Its count
/// is the number of running sessions.
pub fn list_sessions_reply(registry: &SessionRegistry, ages: &Vec<u64>, previews: &Vec<String>) -> (r: ToolReply)
    requires
        registry.wf(),
        ages@.len() == registry.running_view().len(),
        previews@.len() == registry.running_view().len(),
    ensures
        r.command_preview@ == "pty_list"@,
        r.output_preview@ == session_list_spec(listed_from(registry.running_view(), ages@, previews@)),
        r.model_output@ == r.output_preview@,
        r.exit_code is None,
        listed_from(registry.running_view(), ages@, previews@).len() == registry.running_view().len(),
{
    let running = list_sessions(registry);
    let mut entries: Vec<ListedSession> = Vec::new();
    let mut i: usize = 0;
    while i < running.len()
        invariant
            running@ == registry.running_view(),
            ages@.len() == running@.len(),
            previews@.len() == running@.len(),
            i <= running@.len(),
            entries@ == listed_from(running@, ages@, previews@).take(i as int),
        decreases running@.len() - i,
    {
        let e = ListedSession { snapshot: running[i].duplicate(), age_secs: ages[i], preview: previews[i].clone() };
        entries.push(e);
        assert(entries@ =~= listed_from(running@, ages@, previews@).take(i + 1));
        i += 1;
    }
    assert(entries@ =~= listed_from(running@, ages@, previews@));
    list_sessions_tool(&entries)
}

} // verus!
