//! The state of a command running in the background as its output comes
//! in: counters, the kept tail and capture, the end of the run, and the
//! status file's text.
use vstd::prelude::*;

use crate::registry::BackgroundCommandSnapshot;
use crate::text::{
    chars_to_string, dec_spec, int_dec_spec, join_lines, push_chars, push_dec, push_dec128, push_int, push_str,
    str_chars, tail_ellipsis_chars, tail_ellipsis_spec,
};
use vstd::utf8::encode_utf8;

verus! {

/// How much of the output's end is kept for previews.
pub const COMMAND_BACKGROUND_OUTPUT_TAIL_MAX_CHARS: usize = 120000;

/// How much of the output's start is kept whole.
pub const COMMAND_BACKGROUND_CAPTURE_MAX_CHARS: usize = 524288;

/// A background command as its runner keeps it.
#[derive(Debug)]
pub struct BackgroundCommandShared {
    pub job_id: u64,
    pub brief: String,
    pub cmd: String,
    pub workdir: String,
    pub saved_path: String,
    pub status_path: String,
    pub started_at: std::time::Instant,
    pub pid: Option<u32>,
    pub running: bool,
    pub timed_out: bool,
    pub exit_code: Option<i32>,
    pub output_bytes: usize,
    pub output_lines: usize,
    pub output_tail: String,
    pub output_capture: String,
}

/// The last `max` characters.
pub open spec fn keep_last(s: Seq<char>, max: nat) -> Seq<char> {
    if s.len() <= max {
        s
    } else {
        s.skip(s.len() - max)
    }
}

/// Keeps the last `max_chars` characters.
pub fn trim_head_chars(text: &mut String, max_chars: usize)
    ensures
        final(text)@ == keep_last(old(text)@, max_chars as nat),
{
    let c = str_chars(text.as_str());
    let n = c.len();
    if n <= max_chars {
        return;
    }
    let mut out: Vec<char> = Vec::new();
    let mut i: usize = n - max_chars;
    let start = i;
    while i < n
        invariant
            start <= i <= n,
            n == c@.len(),
            out@ == c@.subrange(start as int, i as int),
        decreases n - i,
    {
        out.push(c[i]);
        proof {
            assert(c@.subrange(start as int, i + 1) =~= c@.subrange(start as int, i as int).push(c@[i as int]));
        }
        i += 1;
    }
    assert(c@.subrange(start as int, n as int) =~= c@.skip(start as int));
    *text = chars_to_string(&out);
}

/// Keeps the last `max_chars - 1` characters behind a `'…'`, when the
/// text is longer than `max_chars`.
pub fn trim_tail_chars(text: &mut String, max_chars: usize)
    ensures
        final(text)@ == tail_ellipsis_spec(old(text)@, max_chars as nat),
{
    let c = str_chars(text.as_str());
    if c.len() <= max_chars {
        return;
    }
    *text = chars_to_string(&tail_ellipsis_chars(&c, max_chars));
}

/// The text that `String::from_utf8_lossy` reads from these bytes: each
/// invalid sequence becomes U+FFFD. It depends on the bytes alone.
pub uninterp spec fn utf8_lossy_text(bytes: Seq<u8>) -> Seq<char>;

/// `String::from_utf8_lossy`, owned: its text is `utf8_lossy_text` of the
/// bytes, and bytes that are valid UTF-8 read as the text they encode.
#[verifier::external_body]
fn utf8_lossy(bytes: &[u8]) -> (r: String)
    ensures
        r@ == utf8_lossy_text(bytes@),
        forall|s: Seq<char>| encode_utf8(s) == bytes@ ==> r@ == s,
{
    String::from_utf8_lossy(bytes).into_owned()
}

/// The text without NUL characters.
pub open spec fn drop_nul(s: Seq<char>) -> Seq<char>
    decreases s.len(),
{
    if s.len() == 0 {
        s
    } else if s.last() == '\0' {
        drop_nul(s.drop_last())
    } else {
        drop_nul(s.drop_last()).push(s.last())
    }
}

fn without_nul(s: &str) -> (r: Vec<char>)
    ensures
        r@ == drop_nul(s@),
{
    let c = str_chars(s);
    let mut out: Vec<char> = Vec::new();
    let mut i: usize = 0;
    while i < c.len()
        invariant
            i <= c@.len(),
            c@ == s@,
            out@ == drop_nul(c@.take(i as int)),
        decreases c@.len() - i,
    {
        proof {
            assert(c@.take(i + 1).drop_last() =~= c@.take(i as int));
        }
        if c[i] != '\0' {
            out.push(c[i]);
        }
        i += 1;
    }
    assert(c@.take(c@.len() as int) =~= c@);
    out
}

/// How many newline bytes there are.
pub open spec fn newline_count(b: Seq<u8>) -> nat
    decreases b.len(),
{
    if b.len() == 0 {
        0
    } else {
        newline_count(b.drop_last()) + if b.last() == 10 {
            1nat
        } else {
            0nat
        }
    }
}

fn count_newlines(bytes: &[u8]) -> (r: usize)
    ensures
        r == newline_count(bytes@),
{
    let mut n: usize = 0;
    let mut i: usize = 0;
    while i < bytes.len()
        invariant
            i <= bytes@.len(),
            n == newline_count(bytes@.take(i as int)),
            n <= i,
        decreases bytes@.len() - i,
    {
        proof {
            assert(bytes@.take(i + 1).drop_last() =~= bytes@.take(i as int));
        }
        if bytes[i] == 10 {
            n += 1;
        }
        i += 1;
    }
    assert(bytes@.take(bytes@.len() as int) =~= bytes@);
    n
}

pub open spec fn sat(a: nat, b: nat) -> nat {
    if a + b > usize::MAX {
        usize::MAX as nat
    } else {
        a + b
    }
}

/// More output: the counters grow (saturating), the text of the bytes
/// (NULs dropped) joins the tail, which keeps its last stretch, and joins
/// the capture while the capture is short of its limit.
pub fn update_background_command_output(state: &mut BackgroundCommandShared, bytes: &[u8])
    ensures
        final(state).output_bytes == sat(old(state).output_bytes as nat, bytes@.len()),
        final(state).output_lines == sat(old(state).output_lines as nat, newline_count(bytes@)),
        final(state).output_tail@ == tail_ellipsis_spec(
            old(state).output_tail@ + drop_nul(utf8_lossy_text(bytes@)),
            COMMAND_BACKGROUND_OUTPUT_TAIL_MAX_CHARS as nat,
        ),
        final(state).output_capture@ == if old(state).output_capture@.len()
            < COMMAND_BACKGROUND_CAPTURE_MAX_CHARS {
            keep_last(
                old(state).output_capture@ + drop_nul(utf8_lossy_text(bytes@)),
                COMMAND_BACKGROUND_CAPTURE_MAX_CHARS as nat,
            )
        } else {
            old(state).output_capture@
        },
        forall|s: Seq<char>| encode_utf8(s) == bytes@ ==> drop_nul(utf8_lossy_text(bytes@)) == drop_nul(s),
        final(state).running == old(state).running && final(state).timed_out == old(state).timed_out,
        final(state).exit_code == old(state).exit_code && final(state).job_id == old(state).job_id,
{
    let decoded = utf8_lossy(bytes);
    let chunk = without_nul(decoded.as_str());
    state.output_bytes = state.output_bytes.saturating_add(bytes.len());
    state.output_lines = state.output_lines.saturating_add(count_newlines(bytes));
    let mut tail = str_chars(state.output_tail.as_str());
    push_chars(&mut tail, &chunk);
    let mut t = chars_to_string(&tail);
    trim_tail_chars(&mut t, COMMAND_BACKGROUND_OUTPUT_TAIL_MAX_CHARS);
    state.output_tail = t;
    if str_chars(state.output_capture.as_str()).len() < COMMAND_BACKGROUND_CAPTURE_MAX_CHARS {
        let mut cap = str_chars(state.output_capture.as_str());
        push_chars(&mut cap, &chunk);
        let mut c = chars_to_string(&cap);
        trim_head_chars(&mut c, COMMAND_BACKGROUND_CAPTURE_MAX_CHARS);
        state.output_capture = c;
    }
}

/// The command as last seen.
pub fn background_snapshot_from_shared(state: &BackgroundCommandShared) -> (r: BackgroundCommandSnapshot)
    ensures
        r.job_id == state.job_id && r.brief@ == state.brief@ && r.cmd@ == state.cmd@ && r.workdir@ == state.workdir@,
        r.saved_path@ == state.saved_path@ && r.status_path@ == state.status_path@,
        r.started_at == state.started_at && r.pid == state.pid,
        r.running == state.running && r.timed_out == state.timed_out && r.exit_code == state.exit_code,
        r.output_bytes == state.output_bytes && r.output_lines == state.output_lines,
        r.output_tail@ == state.output_tail@,
{
    BackgroundCommandSnapshot {
        job_id: state.job_id,
        brief: state.brief.clone(),
        cmd: state.cmd.clone(),
        workdir: state.workdir.clone(),
        saved_path: state.saved_path.clone(),
        status_path: state.status_path.clone(),
        started_at: state.started_at,
        pid: state.pid,
        running: state.running,
        timed_out: state.timed_out,
        exit_code: state.exit_code,
        output_bytes: state.output_bytes,
        output_lines: state.output_lines,
        output_tail: state.output_tail.clone(),
    }
}

/// The run is over: not running, with how it ended; the snapshot after.
pub fn finalize_background_command_state(state: &mut BackgroundCommandShared, exit_code: Option<i32>, timed_out: bool) -> (r:
    BackgroundCommandSnapshot)
    ensures
        !final(state).running && final(state).timed_out == timed_out && final(state).exit_code == exit_code,
        final(state).job_id == old(state).job_id && final(state).output_bytes == old(state).output_bytes,
        final(state).output_lines == old(state).output_lines && final(state).output_tail@ == old(state).output_tail@,
        !r.running && r.timed_out == timed_out && r.exit_code == exit_code && r.job_id == old(state).job_id,
        r.output_bytes == old(state).output_bytes && r.output_lines == old(state).output_lines,
{
    state.running = false;
    state.timed_out = timed_out;
    state.exit_code = exit_code;
    background_snapshot_from_shared(state)
}

/// The status file of a background command in this phase, `elapsed_ms`
/// after it started.
pub open spec fn status_text_spec(phase: Seq<char>, s: BackgroundCommandSnapshot, elapsed_ms: nat) -> Seq<char> {
    join_lines(
        seq![
            "phase:"@ + phase,
            "job_id:"@ + dec_spec(s.job_id as nat),
            "running:"@ + (if s.running {
                "true"@
            } else {
                "false"@
            }),
            "timed_out:"@ + (if s.timed_out {
                "true"@
            } else {
                "false"@
            }),
            "exit_code:"@ + int_dec_spec(
                match s.exit_code {
                    Some(c) => c as int,
                    None => -1,
                },
            ),
            "pid:"@ + dec_spec(
                match s.pid {
                    Some(p) => p as nat,
                    None => 0,
                },
            ),
            "elapsed_ms:"@ + dec_spec(elapsed_ms),
            "output_bytes:"@ + dec_spec(s.output_bytes as nat),
            "output_lines:"@ + dec_spec(s.output_lines as nat),
            "log:"@ + s.saved_path@,
        ],
    )
}

fn bool_word(b: bool) -> (r: &'static str)
    ensures
        r@ == if b {
            "true"@
        } else {
            "false"@
        },
{
    if b {
        "true"
    } else {
        "false"
    }
}

pub fn background_command_status_text(phase: &str, snapshot: &BackgroundCommandSnapshot, elapsed_ms: u128) -> (r:
    String)
    ensures
        r@ == status_text_spec(phase@, *snapshot, elapsed_ms as nat),
{
    let s = snapshot;
    let mut lines: Vec<Vec<char>> = Vec::new();
    let mut l = str_chars("phase:");
    push_str(&mut l, phase);
    crate::terminal::push_line(&mut lines, l);
    let mut l = str_chars("job_id:");
    push_dec(&mut l, s.job_id);
    crate::terminal::push_line(&mut lines, l);
    let mut l = str_chars("running:");
    push_str(&mut l, bool_word(s.running));
    crate::terminal::push_line(&mut lines, l);
    let mut l = str_chars("timed_out:");
    push_str(&mut l, bool_word(s.timed_out));
    crate::terminal::push_line(&mut lines, l);
    let mut l = str_chars("exit_code:");
    let code: i32 = match s.exit_code {
        Some(c) => c,
        None => -1,
    };
    push_int(&mut l, code as i64);
    crate::terminal::push_line(&mut lines, l);
    let mut l = str_chars("pid:");
    let pid: u32 = match s.pid {
        Some(p) => p,
        None => 0,
    };
    push_dec(&mut l, pid as u64);
    crate::terminal::push_line(&mut lines, l);
    let mut l = str_chars("elapsed_ms:");
    push_dec128(&mut l, elapsed_ms);
    crate::terminal::push_line(&mut lines, l);
    let mut l = str_chars("output_bytes:");
    push_dec(&mut l, s.output_bytes as u64);
    crate::terminal::push_line(&mut lines, l);
    let mut l = str_chars("output_lines:");
    push_dec(&mut l, s.output_lines as u64);
    crate::terminal::push_line(&mut lines, l);
    let mut l = str_chars("log:");
    push_str(&mut l, s.saved_path.as_str());
    crate::terminal::push_line(&mut lines, l);
    assert(crate::text::views(lines@) =~= seq![
        "phase:"@ + phase@,
        "job_id:"@ + dec_spec(s.job_id as nat),
        "running:"@ + (if s.running {
            "true"@
        } else {
            "false"@
        }),
        "timed_out:"@ + (if s.timed_out {
            "true"@
        } else {
            "false"@
        }),
        "exit_code:"@ + int_dec_spec(
            match s.exit_code {
                Some(c) => c as int,
                None => -1,
            },
        ),
        "pid:"@ + dec_spec(
            match s.pid {
                Some(p) => p as nat,
                None => 0,
            },
        ),
        "elapsed_ms:"@ + dec_spec(elapsed_ms as nat),
        "output_bytes:"@ + dec_spec(s.output_bytes as nat),
        "output_lines:"@ + dec_spec(s.output_lines as nat),
        "log:"@ + s.saved_path@,
    ]);
    chars_to_string(&crate::text::join_lines_exec(&lines))
}


/// How much of a terminal session's output its tail keeps.
pub const TERMINAL_OUTPUT_TAIL_MAX_CHARS: usize = 120000;

/// More output of a terminal session: the counters grow (saturating) and
/// the text of the bytes (NULs dropped) joins the tail, which keeps its
/// last stretch; nothing else changes.
pub fn update_session_output(state: &mut crate::terminal::SessionSnapshot, bytes: &[u8])
    ensures
        final(state).output_bytes == sat(old(state).output_bytes as nat, bytes@.len()),
        final(state).output_lines == sat(old(state).output_lines as nat, newline_count(bytes@)),
        final(state).output_tail@ == tail_ellipsis_spec(
            old(state).output_tail@ + drop_nul(utf8_lossy_text(bytes@)),
            TERMINAL_OUTPUT_TAIL_MAX_CHARS as nat,
        ),
        *final(state) == (crate::terminal::SessionSnapshot {
            output_bytes: final(state).output_bytes,
            output_lines: final(state).output_lines,
            output_tail: final(state).output_tail,
            ..*old(state)
        }),
{
    let decoded = utf8_lossy(bytes);
    let chunk = without_nul(decoded.as_str());
    state.output_bytes = state.output_bytes.saturating_add(bytes.len());
    state.output_lines = state.output_lines.saturating_add(count_newlines(bytes));
    let mut tail = str_chars(state.output_tail.as_str());
    push_chars(&mut tail, &chunk);
    let mut t = chars_to_string(&tail);
    trim_tail_chars(&mut t, TERMINAL_OUTPUT_TAIL_MAX_CHARS);
    state.output_tail = t;
}

} // verus!
