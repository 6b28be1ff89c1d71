//! Terminal sessions: their snapshots and the reports and previews built
//! from them.
use vstd::prelude::*;

use crate::terminal_text::{
    bytes_short_spec, clamp_preview_spec, clamp_preview_text, format_bytes_short,
};
use crate::text::{
    chars_to_string, dec_spec, ellipsis_chars, ellipsis_spec, int_dec_spec, join_lines,
    join_lines_exec, lines_chars, lines_spec, push_chars, push_dec, push_int, push_str, str_chars,
    trim_chars, trim_end_chars, trim_end_spec, trim_spec, views,
};

verus! {

#[verifier::external_type_specification]
#[verifier::external_body]
pub struct ExInstant(std::time::Instant);

#[verifier::external_type_specification]
#[verifier::external_body]
pub struct ExPathBuf(std::path::PathBuf);

/// `Instant::clone`: `Instant` is `Copy`, so the clone is the same instant.
pub assume_specification[ <std::time::Instant as Clone>::clone ](t: &std::time::Instant) -> (r:
    std::time::Instant)
    ensures
        r == *t,
;

/// `PathBuf::clone`: nothing is stated of the copied path.
pub assume_specification[ <std::path::PathBuf as Clone>::clone ](p: &std::path::PathBuf) -> std::path::PathBuf;

#[derive(Debug, Clone, Copy, PartialEq, Eq, Structural)]
pub enum TerminalMode {
    Background,
    Interactive,
}

#[derive(Debug, Clone, Copy, PartialEq, Eq, Structural)]
pub enum TerminalOwner {
    AiTool,
    UserLaunched,
}

pub open spec fn owner_label_spec(o: TerminalOwner) -> Seq<char> {
    match o {
        TerminalOwner::AiTool => "AI"@,
        TerminalOwner::UserLaunched => "USER"@,
    }
}

impl TerminalOwner {
    pub fn label(self) -> (r: &'static str)
        ensures
            r@ == owner_label_spec(self),
    {
        match self {
            TerminalOwner::AiTool => "AI",
            TerminalOwner::UserLaunched => "USER",
        }
    }
}

#[derive(Debug, Clone)]
#[allow(inconsistent_fields)]
pub enum TerminalEvent {
    Ready {
        session_id: u64,
        call_id: Option<String>,
        brief: String,
        cmd: String,
        cols: u16,
        rows: u16,
        saved_path: String,
        status_path: String,
        mode: TerminalMode,
        owner: TerminalOwner,
    },
    Spawned { session_id: u64, pid: Option<i32>, pgrp: Option<i32> },
    Output { session_id: u64, bytes: Vec<u8> },
    Done {
        session_id: u64,
        brief: String,
        cmd: String,
        saved_path: String,
        status_path: String,
        exit_code: i32,
        timed_out: bool,
        user_exit: bool,
        suppressed: bool,
        elapsed_ms: u128,
        bytes: usize,
        lines: usize,
        mode: TerminalMode,
        owner: TerminalOwner,
    },
    DoneReport { session_id: u64, tool_text: String },
    SnapshotReport { session_id: u64, tool_text: String },
}

#[derive(Debug, Clone)]
pub struct ExecRequest {
    pub call_id: Option<String>,
    pub cmd: String,
    pub brief: String,
    pub workdir: std::path::PathBuf,
    pub shell: std::path::PathBuf,
    pub login: bool,
    pub yield_time_ms: Option<u64>,
    pub timeout_secs: Option<u64>,
    pub report_interval_secs: Option<u64>,
    pub mode: TerminalMode,
    pub owner: TerminalOwner,
}

#[derive(Debug, Clone)]
pub struct WriteStdinRequest {
    pub session_id: u64,
    pub chars: String,
    pub yield_time_ms: Option<u64>,
    pub max_output_tokens: Option<usize>,
}

#[derive(Debug, Clone)]
pub struct ToolReply {
    pub command_preview: String,
    pub output_preview: String,
    pub model_output: String,
    pub exit_code: Option<i32>,
}

#[derive(Debug, Clone)]
pub struct SessionSnapshot {
    pub session_id: u64,
    pub brief: String,
    pub cmd: String,
    pub workdir: String,
    pub saved_path: String,
    pub status_path: String,
    pub started_at: std::time::Instant,
    pub pid: Option<i32>,
    pub pgrp: Option<i32>,
    pub output_bytes: usize,
    pub output_lines: usize,
    pub output_tail: String,
    pub running: bool,
    pub exit_code: Option<i32>,
    pub timed_out: bool,
    pub user_exit: bool,
    pub suppressed_done: bool,
    pub mode: TerminalMode,
    pub owner: TerminalOwner,
}

#[derive(Debug, Clone)]
pub enum TerminalControl {
    Input(Vec<u8>),
    Resize { cols: u16, rows: u16 },
    Kill,
}

/// Line and character limits of a log preview.
#[derive(Debug, Clone, Copy, PartialEq, Eq)]
pub struct PreviewBudget {
    pub max_lines: usize,
    pub max_chars: usize,
}

pub const TERMINAL_LOG_PREVIEW_MAX_LINES: usize = 120;

pub const TERMINAL_LOG_PREVIEW_MAX_CHARS: usize = 8000;

pub const TERMINAL_MODEL_PREVIEW_MAX_CHARS: usize = 20000;

pub const TERMINAL_DONE_PREVIEW_HEAD_LINES: usize = 20;

pub const TERMINAL_DONE_PREVIEW_TAIL_LINES: usize = 20;

pub const TERMINAL_DONE_PREVIEW_MAX_CHARS: usize = 6000;

pub const TERMINAL_LOG_SMALL_READ_MAX_BYTES: usize = 131072;

pub const TERMINAL_SCROLLBACK_MAX: u16 = 20000;

/// The budget of a single session's preview.
pub fn single_preview_budget() -> (r: PreviewBudget)
    ensures
        r.max_lines == TERMINAL_LOG_PREVIEW_MAX_LINES,
        r.max_chars == TERMINAL_LOG_PREVIEW_MAX_CHARS,
{
    PreviewBudget { max_lines: TERMINAL_LOG_PREVIEW_MAX_LINES, max_chars: TERMINAL_LOG_PREVIEW_MAX_CHARS }
}

pub open spec fn clamp_nat(v: nat, lo: nat, hi: nat) -> nat {
    if v < lo {
        lo
    } else if v > hi {
        hi
    } else {
        v
    }
}

/// The budget of each of `total` previews shown together.
pub fn grouped_preview_budget(total: usize) -> (r: PreviewBudget)
    ensures
        r.max_lines == clamp_nat(
            TERMINAL_LOG_PREVIEW_MAX_LINES as nat / (if total == 0 {
                1nat
            } else {
                total as nat
            }),
            12,
            TERMINAL_LOG_PREVIEW_MAX_LINES as nat,
        ),
        r.max_chars == clamp_nat(
            TERMINAL_LOG_PREVIEW_MAX_CHARS as nat / (if total == 0 {
                1nat
            } else {
                total as nat
            }),
            800,
            TERMINAL_LOG_PREVIEW_MAX_CHARS as nat,
        ),
{
    let t = if total == 0 {
        1
    } else {
        total
    };
    let l = TERMINAL_LOG_PREVIEW_MAX_LINES / t;
    let c = TERMINAL_LOG_PREVIEW_MAX_CHARS / t;
    PreviewBudget {
        max_lines: if l < 12 {
            12
        } else if l > TERMINAL_LOG_PREVIEW_MAX_LINES {
            TERMINAL_LOG_PREVIEW_MAX_LINES
        } else {
            l
        },
        max_chars: if c < 800 {
            800
        } else if c > TERMINAL_LOG_PREVIEW_MAX_CHARS {
            TERMINAL_LOG_PREVIEW_MAX_CHARS
        } else {
            c
        },
    }
}

/// Rows of a terminal started inside a screen `total_height` rows high.
pub open spec fn bootstrap_rows_spec(total_height: nat) -> nat {
    if total_height <= 10 {
        let r = if total_height >= 2 {
            (total_height - 2) as nat
        } else {
            0nat
        };
        if r < 3 {
            3
        } else {
            r
        }
    } else {
        let q = if total_height / 4 < 4 {
            4
        } else {
            total_height / 4
        };
        let cap = (total_height - 4) as nat;
        if q > cap {
            cap
        } else {
            q
        }
    }
}

pub fn bootstrap_rows_from_terminal_height(total_height: u16) -> (r: u16)
    ensures
        r as nat == bootstrap_rows_spec(total_height as nat),
{
    if total_height <= 10 {
        let r = total_height.saturating_sub(2);
        if r < 3 {
            3
        } else {
            r
        }
    } else {
        let q = if total_height / 4 < 4 {
            4
        } else {
            total_height / 4
        };
        let cap = total_height - 4;
        if q > cap {
            cap
        } else {
            q
        }
    }
}

// ---------------------------------------------------------------------------
// Snapshot model
// ---------------------------------------------------------------------------

pub open spec fn opt_int(o: Option<i32>) -> Option<int> {
    match o {
        Some(v) => Some(v as int),
        None => None,
    }
}

pub open spec fn status_label_spec(s: SessionSnapshot) -> Seq<char> {
    if s.running {
        "running"@
    } else if s.timed_out {
        "timeout"@
    } else if s.user_exit {
        "user_exit"@
    } else {
        "done"@
    }
}

pub fn snapshot_status_label(snapshot: &SessionSnapshot) -> (r: &'static str)
    ensures
        r@ == status_label_spec(*snapshot),
{
    if snapshot.running {
        "running"
    } else if snapshot.timed_out {
        "timeout"
    } else if snapshot.user_exit {
        "user_exit"
    } else {
        "done"
    }
}

pub open spec fn done_status_spec(s: SessionSnapshot) -> Seq<char> {
    if s.timed_out {
        "timeout"@
    } else if s.user_exit {
        "user_exit"@
    } else {
        "done"@
    }
}

pub fn done_status_label(snapshot: &SessionSnapshot) -> (r: &'static str)
    ensures
        r@ == done_status_spec(*snapshot),
{
    if snapshot.timed_out {
        "timeout"
    } else if snapshot.user_exit {
        "user_exit"
    } else {
        "done"
    }
}

pub open spec fn state_text_spec(s: SessionSnapshot) -> Seq<char> {
    if s.running {
        "运行中"@
    } else if s.timed_out {
        "会话已超时结束"@
    } else if s.user_exit {
        "会话已终止"@
    } else {
        "会话已结束"@
    }
}

pub fn terminal_snapshot_state_text(snapshot: &SessionSnapshot) -> (r: &'static str)
    ensures
        r@ == state_text_spec(*snapshot),
{
    if snapshot.running {
        "运行中"
    } else if snapshot.timed_out {
        "会话已超时结束"
    } else if snapshot.user_exit {
        "会话已终止"
    } else {
        "会话已结束"
    }
}

pub open spec fn mode_text_spec(m: TerminalMode) -> Seq<char> {
    match m {
        TerminalMode::Background => "后台终端"@,
        TerminalMode::Interactive => "交互终端"@,
    }
}

pub open spec fn opt_str(o: Option<&str>) -> Option<Seq<char>> {
    match o {
        Some(s) => Some(s@),
        None => None,
    }
}

pub open spec fn hash_id(s: SessionSnapshot) -> Seq<char> {
    seq!['#'] + dec_spec(s.session_id as nat)
}

/// The first line of a terminal reply: what happened to which session.
pub open spec fn output_summary_spec(s: SessionSnapshot, action: Option<Seq<char>>) -> Seq<char> {
    let mode = mode_text_spec(s.mode);
    let owner = owner_label_spec(s.owner);
    match action {
        Some(a) => if a == "启动"@ {
            mode + "启动成功 · "@ + owner + " · "@ + hash_id(s) + " · "@ + state_text_spec(s)
        } else if a == "注入"@ {
            "命令注入成功 · "@ + hash_id(s) + " · "@ + state_text_spec(s)
        } else if a == "轮询"@ {
            "终端输出已刷新 · "@ + hash_id(s) + " · "@ + state_text_spec(s)
        } else if a == "终止"@ {
            "终端已终止 · "@ + owner + " · "@ + hash_id(s)
        } else if a == "完成"@ {
            let state = if s.timed_out {
                "已超时结束"@
            } else if s.user_exit {
                "已终止"@
            } else {
                "已结束"@
            };
            mode + state + " · "@ + owner + " · "@ + hash_id(s)
        } else {
            mode + a + " · "@ + owner + " · "@ + hash_id(s)
        },
        None => mode + "状态更新 · "@ + owner + " · "@ + hash_id(s) + " · "@ + state_text_spec(s),
    }
}

pub(crate) fn push_hash_id(out: &mut Vec<char>, s: &SessionSnapshot)
    ensures
        final(out)@ == old(out)@ + hash_id(*s),
{
    let ghost o = out@;
    out.push('#');
    push_dec(out, s.session_id);
    assert(out@ =~= o + hash_id(*s));
}

pub(crate) fn mode_text(m: TerminalMode) -> (r: &'static str)
    ensures
        r@ == mode_text_spec(m),
{
    match m {
        TerminalMode::Background => "后台终端",
        TerminalMode::Interactive => "交互终端",
    }
}

pub(crate) fn str_is(a: &str, b: &str) -> (r: bool)
    ensures
        r == (a@ == b@),
{
    let av = str_chars(a);
    crate::text::chars_eq_str(&av, b)
}

/// The first line of a terminal reply.
pub fn terminal_output_summary(snapshot: &SessionSnapshot, action: Option<&str>) -> (r: String)
    ensures
        r@ == output_summary_spec(*snapshot, opt_str(action)),
{
    let mode = mode_text(snapshot.mode);
    let owner = snapshot.owner.label();
    let mut out: Vec<char> = Vec::new();
    match action {
        Some(a) => {
            if str_is(a, "启动") {
                push_str(&mut out, mode);
                push_str(&mut out, "启动成功 · ");
                push_str(&mut out, owner);
                push_str(&mut out, " · ");
                push_hash_id(&mut out, snapshot);
                push_str(&mut out, " · ");
                push_str(&mut out, terminal_snapshot_state_text(snapshot));
            } else if str_is(a, "注入") {
                push_str(&mut out, "命令注入成功 · ");
                push_hash_id(&mut out, snapshot);
                push_str(&mut out, " · ");
                push_str(&mut out, terminal_snapshot_state_text(snapshot));
            } else if str_is(a, "轮询") {
                push_str(&mut out, "终端输出已刷新 · ");
                push_hash_id(&mut out, snapshot);
                push_str(&mut out, " · ");
                push_str(&mut out, terminal_snapshot_state_text(snapshot));
            } else if str_is(a, "终止") {
                push_str(&mut out, "终端已终止 · ");
                push_str(&mut out, owner);
                push_str(&mut out, " · ");
                push_hash_id(&mut out, snapshot);
            } else if str_is(a, "完成") {
                push_str(&mut out, mode);
                let state = if snapshot.timed_out {
                    "已超时结束"
                } else if snapshot.user_exit {
                    "已终止"
                } else {
                    "已结束"
                };
                push_str(&mut out, state);
                push_str(&mut out, " · ");
                push_str(&mut out, owner);
                push_str(&mut out, " · ");
                push_hash_id(&mut out, snapshot);
            } else {
                push_str(&mut out, mode);
                push_str(&mut out, a);
                push_str(&mut out, " · ");
                push_str(&mut out, owner);
                push_str(&mut out, " · ");
                push_hash_id(&mut out, snapshot);
            }
        },
        None => {
            push_str(&mut out, mode);
            push_str(&mut out, "状态更新 · ");
            push_str(&mut out, owner);
            push_str(&mut out, " · ");
            push_hash_id(&mut out, snapshot);
            push_str(&mut out, " · ");
            push_str(&mut out, terminal_snapshot_state_text(snapshot));
        },
    }
    assert(out@ =~= output_summary_spec(*snapshot, opt_str(action)));
    chars_to_string(&out)
}


// ---------------------------------------------------------------------------
// Report text
// ---------------------------------------------------------------------------

/// `'\n'` shown as `" ⏎ "` and tabs as a space, after trimming.
pub open spec fn clean_cmd_spec(s: Seq<char>) -> Seq<char>
    decreases s.len(),
{
    if s.len() == 0 {
        s
    } else {
        let rest = clean_cmd_spec(s.drop_last());
        if s.last() == '\n' {
            rest + " ⏎ "@
        } else if s.last() == '\t' {
            rest.push(' ')
        } else {
            rest.push(s.last())
        }
    }
}

pub fn clean_cmd_chars(text: &[char]) -> (r: Vec<char>)
    ensures
        r@ == clean_cmd_spec(trim_spec(text@)),
{
    let t = trim_chars(text);
    let mut out: Vec<char> = Vec::new();
    let mut i: usize = 0;
    while i < t.len()
        invariant
            i <= t.len(),
            out@ == clean_cmd_spec(t@.take(i as int)),
        decreases t.len() - i,
    {
        proof {
            assert(t@.take(i + 1).drop_last() =~= t@.take(i as int));
        }
        let ghost before = out@;
        if t[i] == '\n' {
            push_str(&mut out, " ⏎ ");
        } else if t[i] == '\t' {
            out.push(' ');
        } else {
            out.push(t[i]);
        }
        i += 1;
    }
    assert(t@.take(t@.len() as int) =~= t@);
    out
}

/// A command on one line: trimmed, newlines shown as `" ⏎ "`, tabs as spaces.
pub fn clean_cmd(text: &str) -> (r: String)
    ensures
        r@ == clean_cmd_spec(trim_spec(text@)),
{
    let v = str_chars(text);
    let o = clean_cmd_chars(&v);
    chars_to_string(&o)
}

/// A report clamped to the single-preview budget.
pub open spec fn clamp_report_spec(text: Seq<char>) -> Seq<char> {
    clamp_preview_spec(trim_end_spec(text), TERMINAL_LOG_PREVIEW_MAX_LINES as nat, TERMINAL_LOG_PREVIEW_MAX_CHARS as nat)
}

pub fn clamp_report_chars(text: &[char]) -> (r: String)
    ensures
        r@ == clamp_report_spec(text@),
{
    let t = trim_end_chars(text);
    let s = chars_to_string(&t);
    clamp_preview_text(s.as_str(), TERMINAL_LOG_PREVIEW_MAX_LINES, TERMINAL_LOG_PREVIEW_MAX_CHARS)
}

/// A report clamped to the single-preview budget.
pub fn clamp_report_text(text: String) -> (r: String)
    ensures
        r@ == clamp_report_spec(text@),
{
    let v = str_chars(text.as_str());
    clamp_report_chars(&v)
}

pub open spec fn running_notice() -> Seq<char> {
    "当前正在运行；请等待运行完成后的主动回传，或等待用户继续发言/操作。主动轮询通常只会额外消耗 token。"@
}

/// What a running terminal tells the model to do meanwhile.
pub fn running_wait_notice_zh() -> (r: &'static str)
    ensures
        r@ == running_notice(),
{
    "当前正在运行；请等待运行完成后的主动回传，或等待用户继续发言/操作。主动轮询通常只会额外消耗 token。"
}

pub open spec fn is_blank(s: Seq<char>) -> bool {
    trim_spec(s).len() == 0
}

pub open spec fn stats_tail(s: SessionSnapshot) -> Seq<char> {
    bytes_short_spec(s.output_bytes as nat) + " | "@ + dec_spec(s.output_bytes as nat) + " bytes | "@
        + dec_spec(s.output_lines as nat) + " lines"@
}

pub open spec fn opt_line(cond: bool, line: Seq<char>) -> Seq<Seq<char>> {
    if cond {
        seq![line]
    } else {
        Seq::empty()
    }
}

pub open spec fn nonblank(o: Option<Seq<char>>) -> bool {
    o is Some && !is_blank(o->0)
}

pub open spec fn drop_empty_tail(lines: Seq<Seq<char>>) -> Seq<Seq<char>>
    decreases lines.len(),
{
    if lines.len() > 0 && lines.last().len() == 0 {
        drop_empty_tail(lines.drop_last())
    } else {
        lines
    }
}

/// The leading lines of the UI preview: the summary, then the preview block.
pub open spec fn preview_head_lines(preview: Seq<char>, s: SessionSnapshot, action: Option<Seq<char>>) -> Seq<Seq<char>> {
    seq![output_summary_spec(s, action)] + (if !is_blank(preview) {
        seq![Seq::<char>::empty(), "preview:"@] + lines_spec(preview)
    } else {
        Seq::empty()
    })
}

/// The action line, set off by a blank line unless one already ends `a`.
pub open spec fn with_action_line(a: Seq<Seq<char>>, action: Option<Seq<char>>) -> Seq<Seq<char>> {
    if nonblank(action) {
        a + opt_line(a.last().len() != 0, Seq::empty()) + seq!["action:"@ + action->0]
    } else {
        a
    }
}

/// The input line, when the input is not blank.
pub open spec fn input_line(input: Option<Seq<char>>) -> Seq<Seq<char>> {
    opt_line(nonblank(input), "input:"@ + ellipsis_spec(trim_end_spec(input->0), 300))
}

/// Which session it is, whose, and its process ids.
pub open spec fn identity_lines(s: SessionSnapshot, status: Seq<char>) -> Seq<Seq<char>> {
    seq![
        "session_id:"@ + dec_spec(s.session_id as nat),
        "owner:"@ + owner_label_spec(s.owner),
        "status:"@ + status,
    ] + opt_line(s.pid is Some, "pid:"@ + int_dec_spec(opt_int(s.pid)->0)) + opt_line(
        s.pgrp is Some,
        "pgrp:"@ + int_dec_spec(opt_int(s.pgrp)->0),
    )
}

/// Where the session writes, how much it wrote, and how it ended.
pub open spec fn location_lines(s: SessionSnapshot) -> Seq<Seq<char>> {
    seq![
        "log:"@ + s.saved_path@,
        "status_file:"@ + s.status_path@,
        "stats:"@ + stats_tail(s),
    ] + opt_line(s.running, "notice:"@ + running_notice()) + opt_line(
        s.exit_code is Some,
        "exit_code:"@ + int_dec_spec(opt_int(s.exit_code)->0),
    )
}

/// The facts of a session listed after the preview and the action.
pub open spec fn session_fact_lines(s: SessionSnapshot, status: Seq<char>, input: Option<Seq<char>>) -> Seq<Seq<char>> {
    input_line(input) + identity_lines(s, status) + location_lines(s)
}

/// The UI preview of a terminal reply.
pub open spec fn output_preview_spec(
    preview: Seq<char>,
    s: SessionSnapshot,
    status: Seq<char>,
    action: Option<Seq<char>>,
    input: Option<Seq<char>>,
) -> Seq<char> {
    let c = with_action_line(preview_head_lines(preview, s, action), action) + session_fact_lines(s, status, input);
    clamp_report_spec(join_lines(drop_empty_tail(c)))
}

pub(crate) fn push_line(lines: &mut Vec<Vec<char>>, line: Vec<char>)
    ensures
        views(final(lines)@) == views(old(lines)@).push(line@),
{
    let ghost before = views(lines@);
    lines.push(line);
    assert(views(lines@) =~= before.push(line@));
}

pub(crate) fn literal_line(s: &str) -> (r: Vec<char>)
    ensures
        r@ == s@,
{
    str_chars(s)
}

pub(crate) fn prefixed(prefix: &str, rest: &[char]) -> (r: Vec<char>)
    ensures
        r@ == prefix@ + rest@,
{
    let mut out = str_chars(prefix);
    push_chars(&mut out, rest);
    out
}

pub(crate) fn prefixed_dec(prefix: &str, n: u64) -> (r: Vec<char>)
    ensures
        r@ == prefix@ + dec_spec(n as nat),
{
    let mut out = str_chars(prefix);
    push_dec(&mut out, n);
    out
}

pub(crate) fn prefixed_int(prefix: &str, n: i32) -> (r: Vec<char>)
    ensures
        r@ == prefix@ + int_dec_spec(n as int),
{
    let mut out = str_chars(prefix);
    push_int(&mut out, n as i64);
    out
}

pub(crate) fn stats_tail_chars(s: &SessionSnapshot) -> (r: Vec<char>)
    ensures
        r@ == stats_tail(*s),
{
    let b = format_bytes_short(s.output_bytes as u64);
    let mut out = str_chars(b.as_str());
    push_str(&mut out, " | ");
    push_dec(&mut out, s.output_bytes as u64);
    push_str(&mut out, " bytes | ");
    push_dec(&mut out, s.output_lines as u64);
    push_str(&mut out, " lines");
    out
}

pub(crate) fn append_all(lines: &mut Vec<Vec<char>>, more: Vec<Vec<char>>)
    ensures
        views(final(lines)@) == views(old(lines)@) + views(more@),
{
    let ghost o = views(lines@);
    let mut i: usize = 0;
    while i < more.len()
        invariant
            i <= more.len(),
            views(lines@) =~= o + views(more@).take(i as int),
        decreases more.len() - i,
    {
        push_line(lines, more[i].clone());
        i += 1;
    }
    assert(views(more@).take(more@.len() as int) =~= views(more@));
}

pub(crate) fn drop_empty_tail_exec(lines: &mut Vec<Vec<char>>)
    ensures
        views(final(lines)@) == drop_empty_tail(views(old(lines)@)),
{
    while lines.len() > 0 && lines[lines.len() - 1].len() == 0
        invariant
            drop_empty_tail(views(lines@)) == drop_empty_tail(views(old(lines)@)),
        decreases lines.len(),
    {
        let ghost before = views(lines@);
        lines.pop();
        proof {
            assert(views(lines@) =~= before.drop_last());
        }
    }
}

pub(crate) fn nonblank_exec(o: Option<&str>) -> (r: bool)
    ensures
        r == nonblank(opt_str(o)),
{
    match o {
        Some(v) => {
            let t = crate::text::trim_str(v);
            t.len() != 0
        },
        None => false,
    }
}

fn preview_head_lines_exec(preview: &str, snapshot: &SessionSnapshot, action: Option<&str>) -> (r: Vec<Vec<char>>)
    ensures
        views(r@) == preview_head_lines(preview@, *snapshot, opt_str(action)),
{
    let mut lines: Vec<Vec<char>> = Vec::new();
    let summary = terminal_output_summary(snapshot, action);
    push_line(&mut lines, str_chars(summary.as_str()));
    let pv = str_chars(preview);
    let pt = trim_chars(&pv);
    if pt.len() != 0 {
        push_line(&mut lines, Vec::new());
        push_line(&mut lines, literal_line("preview:"));
        let pl = lines_chars(&pv);
        append_all(&mut lines, pl);
    }
    lines
}

fn input_line_exec(input: Option<&str>) -> (r: Vec<Vec<char>>)
    ensures
        views(r@) == input_line(opt_str(input)),
{
    let mut lines: Vec<Vec<char>> = Vec::new();
    if nonblank_exec(input) {
        match input {
            Some(inp) => {
                let iv = str_chars(inp);
                let it = trim_end_chars(&iv);
                let ie = ellipsis_chars(&it, 300);
                push_line(&mut lines, prefixed("input:", &ie));
            },
            None => {},
        }
    }
    assert(views(lines@) =~= input_line(opt_str(input)));
    lines
}

fn identity_lines_exec(snapshot: &SessionSnapshot, status: &str) -> (r: Vec<Vec<char>>)
    ensures
        views(r@) == identity_lines(*snapshot, status@),
{
    let mut lines: Vec<Vec<char>> = Vec::new();
    push_line(&mut lines, prefixed_dec("session_id:", snapshot.session_id));
    let ol = str_chars(snapshot.owner.label());
    push_line(&mut lines, prefixed("owner:", &ol));
    let sv = str_chars(status);
    push_line(&mut lines, prefixed("status:", &sv));
    let ghost l1 = views(lines@);
    match snapshot.pid {
        Some(p) => push_line(&mut lines, prefixed_int("pid:", p)),
        None => {},
    }
    let ghost l2 = views(lines@);
    assert(l2 =~= l1 + opt_line(snapshot.pid is Some, "pid:"@ + int_dec_spec(opt_int(snapshot.pid)->0)));
    match snapshot.pgrp {
        Some(p) => push_line(&mut lines, prefixed_int("pgrp:", p)),
        None => {},
    }
    assert(views(lines@) =~= l2 + opt_line(snapshot.pgrp is Some, "pgrp:"@ + int_dec_spec(opt_int(snapshot.pgrp)->0)));
    lines
}

fn location_lines_exec(snapshot: &SessionSnapshot) -> (r: Vec<Vec<char>>)
    ensures
        views(r@) == location_lines(*snapshot),
{
    let mut lines: Vec<Vec<char>> = Vec::new();
    let lp = str_chars(snapshot.saved_path.as_str());
    push_line(&mut lines, prefixed("log:", &lp));
    let sp = str_chars(snapshot.status_path.as_str());
    push_line(&mut lines, prefixed("status_file:", &sp));
    let st = stats_tail_chars(snapshot);
    push_line(&mut lines, prefixed("stats:", &st));
    let ghost l4 = views(lines@);
    if snapshot.running {
        let nv = str_chars(running_wait_notice_zh());
        push_line(&mut lines, prefixed("notice:", &nv));
    }
    let ghost l5 = views(lines@);
    assert(l5 =~= l4 + opt_line(snapshot.running, "notice:"@ + running_notice()));
    match snapshot.exit_code {
        Some(c) => push_line(&mut lines, prefixed_int("exit_code:", c)),
        None => {},
    }
    assert(views(lines@) =~= l5 + opt_line(snapshot.exit_code is Some, "exit_code:"@ + int_dec_spec(opt_int(snapshot.exit_code)->0)));
    lines
}

fn session_fact_lines_exec(snapshot: &SessionSnapshot, status: &str, input: Option<&str>) -> (r: Vec<Vec<char>>)
    ensures
        views(r@) == session_fact_lines(*snapshot, status@, opt_str(input)),
{
    let mut lines = input_line_exec(input);
    append_all(&mut lines, identity_lines_exec(snapshot, status));
    append_all(&mut lines, location_lines_exec(snapshot));
    lines
}

/// The UI preview of a terminal reply: summary, preview lines, action,
/// input, session facts and stats.
pub fn format_terminal_output_preview(
    preview: &str,
    snapshot: &SessionSnapshot,
    status: &str,
    action: Option<&str>,
    input: Option<&str>,
) -> (r: String)
    ensures
        r@ == output_preview_spec(preview@, *snapshot, status@, opt_str(action), opt_str(input)),
{
    let mut lines = preview_head_lines_exec(preview, snapshot, action);
    let ghost a = views(lines@);
    assert(a.len() >= 1);
    if nonblank_exec(action) {
        if lines[lines.len() - 1].len() != 0 {
            push_line(&mut lines, Vec::new());
        }
        match action {
            Some(act) => {
                let av = str_chars(act);
                push_line(&mut lines, prefixed("action:", &av));
            },
            None => {},
        }
    }
    assert(views(lines@) =~= with_action_line(a, opt_str(action)));
    let facts = session_fact_lines_exec(snapshot, status, input);
    append_all(&mut lines, facts);
    drop_empty_tail_exec(&mut lines);
    let joined = join_lines_exec(&lines);
    clamp_report_chars(&joined)
}

} // verus!
