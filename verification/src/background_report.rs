//! What the chat and the model are told about a command running in the
//! background: its start, its compact preview and its report.
use vstd::prelude::*;

use crate::output::{clamp_report_text, head_tail_preview_spec, report_clamp_spec, build_head_tail_preview};
use crate::registry::BackgroundCommandSnapshot;
use crate::settings::{min_spec, COMMAND_OUTPUT_PREVIEW_MAX_CHARS, COMMAND_OUTPUT_PREVIEW_MAX_LINES};
use crate::terminal::{clean_cmd, clean_cmd_spec, push_line, running_notice, running_wait_notice_zh};
use crate::terminal_report::{guidance_lines, guidance_lines_exec, preview_block, preview_block_exec};
use crate::text::{
    chars_to_string, dec_spec, ellipsis_chars, ellipsis_spec, int_dec_spec, join_lines, join_lines_exec, push_dec,
    push_dec128, push_int, push_str, str_chars, trim_spec, views,
};

verus! {

pub open spec fn bg_state_spec(s: BackgroundCommandSnapshot) -> Seq<char> {
    if s.running {
        "后台运行中"@
    } else if s.timed_out {
        "后台超时结束"@
    } else {
        "后台已完成"@
    }
}

pub open spec fn bg_notice(s: BackgroundCommandSnapshot) -> Seq<Seq<char>> {
    if s.running {
        seq!["notice:"@ + running_notice()]
    } else {
        Seq::empty()
    }
}

/// The tail of the output as the chat preview shows it: at most 8 lines
/// and 1200 characters.
pub open spec fn bg_preview_tail(s: BackgroundCommandSnapshot) -> Seq<char> {
    head_tail_preview_spec(
        s.output_tail@,
        min_spec(COMMAND_OUTPUT_PREVIEW_MAX_LINES as int, 8) as nat,
        min_spec(COMMAND_OUTPUT_PREVIEW_MAX_CHARS as int, 1200) as nat,
    )
}

/// The compact preview of a background command in the chat; it has run
/// for `elapsed_secs`.
pub open spec fn bg_preview_spec(s: BackgroundCommandSnapshot, elapsed_secs: nat) -> Seq<char> {
    report_clamp_spec(
        join_lines(
            seq![
                bg_state_spec(s) + " · #"@ + dec_spec(s.job_id as nat) + " · "@ + dec_spec(elapsed_secs) + "s · "@
                    + dec_spec(s.output_bytes as nat) + " bytes · "@ + dec_spec(s.output_lines as nat) + " lines"@,
                "log:"@ + s.saved_path@,
                "status_file:"@ + s.status_path@,
            ] + bg_notice(s) + preview_block(bg_preview_tail(s)),
        ),
    )
}

fn notice_exec(s: &BackgroundCommandSnapshot, lines: &mut Vec<Vec<char>>)
    ensures
        views(final(lines)@) == views(old(lines)@) + bg_notice(*s),
{
    let ghost before = views(lines@);
    if s.running {
        let mut l = str_chars("notice:");
        push_str(&mut l, running_wait_notice_zh());
        push_line(lines, l);
    }
    assert(views(lines@) =~= before + bg_notice(*s));
}

fn append_block(lines: &mut Vec<Vec<char>>, preview: &str)
    ensures
        views(final(lines)@) == views(old(lines)@) + preview_block(preview@),
{
    crate::terminal::append_all(lines, preview_block_exec(preview));
}

pub fn format_background_command_preview(snapshot: &BackgroundCommandSnapshot, elapsed_secs: u64) -> (r: String)
    ensures
        r@ == bg_preview_spec(*snapshot, elapsed_secs as nat),
{
    let s = snapshot;
    let state = if s.running {
        "后台运行中"
    } else if s.timed_out {
        "后台超时结束"
    } else {
        "后台已完成"
    };
    let mut head = str_chars(state);
    push_str(&mut head, " · #");
    push_dec(&mut head, s.job_id);
    push_str(&mut head, " · ");
    push_dec(&mut head, elapsed_secs);
    push_str(&mut head, "s · ");
    push_dec(&mut head, s.output_bytes as u64);
    push_str(&mut head, " bytes · ");
    push_dec(&mut head, s.output_lines as u64);
    push_str(&mut head, " lines");
    let mut lines: Vec<Vec<char>> = Vec::new();
    push_line(&mut lines, head);
    let mut log = str_chars("log:");
    push_str(&mut log, s.saved_path.as_str());
    push_line(&mut lines, log);
    let mut status = str_chars("status_file:");
    push_str(&mut status, s.status_path.as_str());
    push_line(&mut lines, status);
    notice_exec(s, &mut lines);
    let max_lines: usize = if COMMAND_OUTPUT_PREVIEW_MAX_LINES < 8 {
        COMMAND_OUTPUT_PREVIEW_MAX_LINES
    } else {
        8
    };
    let max_chars: usize = if COMMAND_OUTPUT_PREVIEW_MAX_CHARS < 1200 {
        COMMAND_OUTPUT_PREVIEW_MAX_CHARS
    } else {
        1200
    };
    let preview = build_head_tail_preview(s.output_tail.as_str(), max_lines, max_chars);
    append_block(&mut lines, preview.as_str());
    assert(views(lines@) =~= seq![
        bg_state_spec(*s) + " · #"@ + dec_spec(s.job_id as nat) + " · "@ + dec_spec(elapsed_secs as nat) + "s · "@
            + dec_spec(s.output_bytes as nat) + " bytes · "@ + dec_spec(s.output_lines as nat) + " lines"@,
        "log:"@ + s.saved_path@,
        "status_file:"@ + s.status_path@,
    ] + bg_notice(*s) + preview_block(bg_preview_tail(*s)));
    clamp_report_text(chars_to_string(&join_lines_exec(&lines)))
}

/// What the model is told when a background command starts; reports come
/// every `snapshot_interval_secs`.
pub open spec fn bg_start_spec(s: BackgroundCommandSnapshot, snapshot_interval_secs: u64) -> Seq<char> {
    join_lines(
        seq![
            "Background Command started"@,
            "Job ID: "@ + dec_spec(s.job_id as nat),
            "Status: running"@,
            "Brief: "@ + s.brief@,
            "Command: "@ + s.cmd@,
            "Workdir: "@ + s.workdir@,
            "Log: "@ + s.saved_path@,
            "Status File: "@ + s.status_path@,
        ] + guidance_lines(true, snapshot_interval_secs),
    )
}

fn prefixed_line(lines: &mut Vec<Vec<char>>, prefix: &str, rest: &str)
    ensures
        views(final(lines)@) == views(old(lines)@).push(prefix@ + rest@),
{
    let mut l = str_chars(prefix);
    push_str(&mut l, rest);
    push_line(lines, l);
}

pub fn format_background_command_start_model_output(
    snapshot: &BackgroundCommandSnapshot,
    snapshot_interval_secs: u64,
) -> (r: String)
    ensures
        r@ == bg_start_spec(*snapshot, snapshot_interval_secs),
{
    let s = snapshot;
    let mut lines: Vec<Vec<char>> = Vec::new();
    push_line(&mut lines, str_chars("Background Command started"));
    let mut id = str_chars("Job ID: ");
    push_dec(&mut id, s.job_id);
    push_line(&mut lines, id);
    push_line(&mut lines, str_chars("Status: running"));
    prefixed_line(&mut lines, "Brief: ", s.brief.as_str());
    prefixed_line(&mut lines, "Command: ", s.cmd.as_str());
    prefixed_line(&mut lines, "Workdir: ", s.workdir.as_str());
    prefixed_line(&mut lines, "Log: ", s.saved_path.as_str());
    prefixed_line(&mut lines, "Status File: ", s.status_path.as_str());
    crate::terminal::append_all(&mut lines, guidance_lines_exec(true, snapshot_interval_secs));
    assert(views(lines@) =~= seq![
        "Background Command started"@,
        "Job ID: "@ + dec_spec(s.job_id as nat),
        "Status: running"@,
        "Brief: "@ + s.brief@,
        "Command: "@ + s.cmd@,
        "Workdir: "@ + s.workdir@,
        "Log: "@ + s.saved_path@,
        "Status File: "@ + s.status_path@,
    ] + guidance_lines(true, snapshot_interval_secs));
    chars_to_string(&join_lines_exec(&lines))
}

pub open spec fn bg_status_key(s: BackgroundCommandSnapshot) -> Seq<char> {
    if s.running {
        "running"@
    } else if s.timed_out {
        "timeout"@
    } else {
        "done"@
    }
}

pub open spec fn bg_exit(s: BackgroundCommandSnapshot) -> int {
    match s.exit_code {
        Some(c) => c as int,
        None => -1,
    }
}

/// The tail of the output as a report shows it: at most 32 lines and 4000
/// characters.
pub open spec fn bg_report_tail(s: BackgroundCommandSnapshot) -> Seq<char> {
    head_tail_preview_spec(
        s.output_tail@,
        min_spec(COMMAND_OUTPUT_PREVIEW_MAX_LINES as int, 32) as nat,
        min_spec(COMMAND_OUTPUT_PREVIEW_MAX_CHARS as int, 4000) as nat,
    )
}

/// A report on a background command under `title`; it has run for
/// `elapsed_ms`.
pub open spec fn bg_report_spec(title: Seq<char>, s: BackgroundCommandSnapshot, elapsed_ms: nat) -> Seq<char> {
    report_clamp_spec(
        join_lines(
            seq![
                title,
                "job_id:"@ + dec_spec(s.job_id as nat) + " | status:"@ + bg_status_key(s) + " | exit:"@ + int_dec_spec(
                    bg_exit(s),
                ) + " | elapsed_ms:"@ + dec_spec(elapsed_ms),
                "brief:"@ + ellipsis_spec(s.brief@, 96),
                "cmd:"@ + ellipsis_spec(clean_cmd_spec(trim_spec(s.cmd@)), 320),
                "log:"@ + s.saved_path@,
                "status_file:"@ + s.status_path@,
                "stats:"@ + dec_spec(s.output_bytes as nat) + " bytes | "@ + dec_spec(s.output_lines as nat) + " lines"@,
            ] + bg_notice(s) + preview_block(bg_report_tail(s)),
        ),
    )
}

pub fn format_background_command_report(title: &str, snapshot: &BackgroundCommandSnapshot, elapsed_ms: u128) -> (r:
    String)
    ensures
        r@ == bg_report_spec(title@, *snapshot, elapsed_ms as nat),
{
    let s = snapshot;
    let max_lines: usize = if COMMAND_OUTPUT_PREVIEW_MAX_LINES < 32 {
        COMMAND_OUTPUT_PREVIEW_MAX_LINES
    } else {
        32
    };
    let max_chars: usize = if COMMAND_OUTPUT_PREVIEW_MAX_CHARS < 4000 {
        COMMAND_OUTPUT_PREVIEW_MAX_CHARS
    } else {
        4000
    };
    let preview = build_head_tail_preview(s.output_tail.as_str(), max_lines, max_chars);
    let mut lines: Vec<Vec<char>> = Vec::new();
    push_line(&mut lines, str_chars(title));
    let mut head = str_chars("job_id:");
    push_dec(&mut head, s.job_id);
    push_str(&mut head, " | status:");
    push_str(
        &mut head,
        if s.running {
            "running"
        } else if s.timed_out {
            "timeout"
        } else {
            "done"
        },
    );
    push_str(&mut head, " | exit:");
    let code: i32 = match s.exit_code {
        Some(c) => c,
        None => -1,
    };
    push_int(&mut head, code as i64);
    push_str(&mut head, " | elapsed_ms:");
    push_dec128(&mut head, elapsed_ms);
    push_line(&mut lines, head);
    let mut brief = str_chars("brief:");
    crate::text::push_chars(&mut brief, &ellipsis_chars(&str_chars(s.brief.as_str()), 96));
    push_line(&mut lines, brief);
    let mut cmd = str_chars("cmd:");
    crate::text::push_chars(&mut cmd, &ellipsis_chars(&str_chars(clean_cmd(s.cmd.as_str()).as_str()), 320));
    push_line(&mut lines, cmd);
    prefixed_line(&mut lines, "log:", s.saved_path.as_str());
    prefixed_line(&mut lines, "status_file:", s.status_path.as_str());
    let mut stats = str_chars("stats:");
    push_dec(&mut stats, s.output_bytes as u64);
    push_str(&mut stats, " bytes | ");
    push_dec(&mut stats, s.output_lines as u64);
    push_str(&mut stats, " lines");
    push_line(&mut lines, stats);
    notice_exec(s, &mut lines);
    append_block(&mut lines, preview.as_str());
    assert(views(lines@) =~= seq![
        title@,
        "job_id:"@ + dec_spec(s.job_id as nat) + " | status:"@ + bg_status_key(*s) + " | exit:"@ + int_dec_spec(
            bg_exit(*s),
        ) + " | elapsed_ms:"@ + dec_spec(elapsed_ms as nat),
        "brief:"@ + ellipsis_spec(s.brief@, 96),
        "cmd:"@ + ellipsis_spec(clean_cmd_spec(trim_spec(s.cmd@)), 320),
        "log:"@ + s.saved_path@,
        "status_file:"@ + s.status_path@,
        "stats:"@ + dec_spec(s.output_bytes as nat) + " bytes | "@ + dec_spec(s.output_lines as nat) + " lines"@,
    ] + bg_notice(*s) + preview_block(bg_report_tail(*s)));
    clamp_report_text(chars_to_string(&join_lines_exec(&lines)))
}

} // verus!
