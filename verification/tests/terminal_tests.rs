use std::time::Instant;

use projectying::background_state::update_session_output;
use projectying::registry::{
    has_running_sessions, kill_session_step, list_sessions, snapshot_session, KillAction, SessionRegistry,
};
use projectying::settings::{default_terminal_audit_interval_secs, COMMAND_OUTPUT_LEVEL_LOW_LINES};
use projectying::terminal_text::{clamp_head_tail_preview_text, clamp_preview_text, clamp_tail_preview_text};
use projectying::terminal::{
    bootstrap_rows_from_terminal_height, format_terminal_output_preview,
    single_preview_budget, SessionSnapshot, TerminalMode, TerminalOwner, WriteStdinRequest,
    TERMINAL_DONE_PREVIEW_HEAD_LINES, TERMINAL_DONE_PREVIEW_MAX_CHARS, TERMINAL_DONE_PREVIEW_TAIL_LINES,
};
use projectying::terminal_report::{
    build_done_log_preview_from, build_log_preview_from, combine_head_tail_preview,
    format_done_report_text, format_exec_reply, format_progress_report_text,
    format_terminal_model_output, format_write_reply, kill_session_tool, list_sessions_tool,
    list_sessions_reply, log_read_plan, preview_or_empty, session_output_preview, KillSessionError, ListedSession, LogReadPlan, LogReads,
};

fn sample(running: bool, mode: TerminalMode) -> SessionSnapshot {
    SessionSnapshot {
        session_id: 7,
        brief: "运行示例任务".to_string(),
        cmd: "printf hello".to_string(),
        workdir: "/tmp".to_string(),
        saved_path: "/tmp/session_7.log".to_string(),
        status_path: "/tmp/session_7.status".to_string(),
        started_at: Instant::now(),
        pid: Some(1234),
        pgrp: Some(1234),
        output_bytes: 32,
        output_lines: 2,
        output_tail: "hello".to_string(),
        running,
        exit_code: if running { None } else { Some(0) },
        timed_out: false,
        user_exit: false,
        suppressed_done: false,
        mode,
        owner: TerminalOwner::AiTool,
    }
}

fn no_reads() -> LogReads {
    LogReads { whole: None, head: None, tail: None }
}

#[test]
fn preferred_panel_height_keeps_room_for_chat() {
    assert!(bootstrap_rows_from_terminal_height(20) < 20);
    assert!(bootstrap_rows_from_terminal_height(8) >= 3);
}

#[test]
fn single_preview_budget_defaults_to_low_line_budget() {
    let budget = single_preview_budget();
    assert_eq!(budget.max_lines, COMMAND_OUTPUT_LEVEL_LOW_LINES);
}

#[test]
fn done_report_formatter_reports_log_paths_and_stats() {
    let snapshot = sample(false, TerminalMode::Background);
    let preview = build_done_log_preview_from(&no_reads(), "hello", 2, 32);
    let text = format_done_report_text(&snapshot, 0, preview.as_str());
    assert!(text.contains("Terminal Done"));
    assert!(text.contains("session_id:7"));
    assert!(text.contains("log:/tmp/session_7.log"));
    assert!(text.contains("stats:32 B | 32 bytes | 2 lines"));
}

#[test]
fn terminal_output_preview_starts_with_status_summary() {
    let text = format_terminal_output_preview(
        "line1\nline2",
        &sample(true, TerminalMode::Interactive),
        "running",
        Some("启动"),
        None,
    );
    assert_eq!(text.lines().next(), Some("交互终端启动成功 · AI · #7 · 运行中"));
    assert!(text.contains("notice:"));
    assert!(text.contains("preview:"));
    assert!(text.contains("session_id:7"));
}

#[test]
fn done_report_lines_in_order() {
    let snapshot = sample(false, TerminalMode::Background);
    let text = format_done_report_text(&snapshot, 1500, "out1\nout2");
    assert_eq!(
        text,
        "Terminal Done\nsession_id:7 | status:done | exit:0 | elapsed_ms:1500\nowner:AI\nbrief:运行示例任务\ncmd:printf hello\nlog:/tmp/session_7.log\nstatus_file:/tmp/session_7.status\nstats:32 B | 32 bytes | 2 lines\npreview:\nout1\nout2"
    );
}

#[test]
fn progress_report_carries_notice_and_hint() {
    let snapshot = sample(true, TerminalMode::Background);
    let text = format_progress_report_text(&snapshot, 10, "");
    assert!(text.starts_with("Terminal Progress\nsession_id:7 | status:running | elapsed_ms:10\n"));
    assert!(text.contains("notice:当前仅回传日志头尾摘要"));
    assert!(!text.contains("preview:"));
}

#[test]
fn log_reads_follow_the_size_of_the_log() {
    assert_eq!(log_read_plan(0, ""), LogReadPlan::Nothing);
    assert_eq!(log_read_plan(100, ""), LogReadPlan::Whole);
    assert_eq!(log_read_plan(200_000, " "), LogReadPlan::HeadAndTail { read_tail: true });
    assert_eq!(log_read_plan(200_000, "tail"), LogReadPlan::HeadAndTail { read_tail: false });
}

#[test]
fn log_previews_use_what_was_read() {
    let reads = LogReads { whole: Some("a\u{1b}[31mred\u{1b}[0m\nb\n".to_string()), head: None, tail: None };
    assert_eq!(build_log_preview_from(&reads, "x", 2, 10, single_preview_budget()), "ared\nb");
    assert_eq!(build_log_preview_from(&no_reads(), "kept", 1, 10, single_preview_budget()), "kept");
    assert_eq!(build_log_preview_from(&reads, "x", 2, 0, single_preview_budget()), "");
    let big = LogReads {
        whole: None,
        head: Some("h1\nh2\nh3".to_string()),
        tail: Some("t1\nt2\nt3".to_string()),
    };
    let text = build_log_preview_from(&big, "", 1000, 500_000, single_preview_budget());
    assert!(text.starts_with("h1\nh2\nh3\n…<+"));
    assert!(text.ends_with("t1\nt2\nt3"));
}

#[test]
fn combined_previews_mark_what_was_left_out() {
    assert_eq!(combine_head_tail_preview("a\nb", "y\nz", 10, 3), "a\n…<+8 lines>\nz");
    assert_eq!(combine_head_tail_preview("a\nb", "a\nb", 10, 3), "a\nb");
    assert_eq!(combine_head_tail_preview("", "y\nz", 10, 5), "y\nz");
    assert_eq!(combine_head_tail_preview("a", "z", 2, 3), "a\n…\nz");
}

#[test]
fn model_output_tells_running_sessions_to_wait() {
    let snapshot = sample(true, TerminalMode::Interactive);
    let text = format_terminal_model_output("Interactive Terminal started", "", &snapshot, "running", Some("启动"), None, 300);
    assert!(text.starts_with("Interactive Terminal started\nSnapshot Interval: 300s\nNotice: "));
    assert!(text.contains("Output preview:\n(no terminal output yet)\nSession ID: 7\nOwner: AI\nAction: 启动\nStatus: running\nPID: 1234\nPGRP: 1234\nCommand: printf hello\nWorkdir: /tmp"));
    let done = sample(false, TerminalMode::Background);
    let text = format_terminal_model_output("Done", "x", &done, "done", Some("完成"), None, 300);
    assert!(!text.contains("Snapshot Interval"));
    assert!(text.ends_with("Process exited with code 0"));
}

#[test]
fn replies_name_the_session() {
    let snapshot = sample(true, TerminalMode::Background);
    let reply = format_exec_reply(&snapshot, "", 300);
    assert_eq!(reply.command_preview, "printf hello");
    assert!(reply.model_output.starts_with("Background Terminal started"));
    let req = WriteStdinRequest { session_id: 7, chars: "ls\n".to_string(), yield_time_ms: None, max_output_tokens: None };
    let reply = format_write_reply(&req, &snapshot, "", 300);
    assert_eq!(reply.command_preview, "session 7 · ls");
    assert!(reply.output_preview.contains("action:注入"));
    let poll = WriteStdinRequest { session_id: 7, chars: String::new(), yield_time_ms: None, max_output_tokens: None };
    assert_eq!(format_write_reply(&poll, &snapshot, "", 300).command_preview, "session 7 · (wait for terminal output)");
}

#[test]
fn kill_replies_and_errors() {
    let running = sample(true, TerminalMode::Background);
    assert_eq!(
        kill_session_tool(9, None, "", false, 300).map(|r| r.command_preview),
        Err(KillSessionError::NotFound(9))
    );
    assert_eq!(KillSessionError::NotFound(9).message(), "session 9 不存在");
    assert_eq!(
        kill_session_tool(7, Some(&running), "", true, 300).map(|r| r.command_preview),
        Err(KillSessionError::KillFailed(7))
    );
    assert_eq!(KillSessionError::KillFailed(7).message(), "终止 session 7 失败");
    let reply = kill_session_tool(7, Some(&running), "", false, 300).expect("reply");
    assert_eq!(reply.command_preview, "session_id=7");
    assert!(reply.output_preview.contains("status:kill_requested"));
    let finished = sample(false, TerminalMode::Background);
    let reply = kill_session_tool(7, Some(&finished), "", true, 300).expect("reply");
    assert!(reply.model_output.contains("Status: already_finished"));
}

#[test]
fn session_list_reports_each_session() {
    let empty = list_sessions_tool(&Vec::new());
    assert_eq!(empty.output_preview, "running_sessions:0");
    assert_eq!(empty.command_preview, "pty_list");
    let entry = ListedSession { snapshot: sample(true, TerminalMode::Background), age_secs: 12, preview: "p1".to_string() };
    let reply = list_sessions_tool(&vec![entry]);
    assert!(reply.output_preview.starts_with(
        "running_sessions:1\n#7 | owner:AI | mode:background | status:running | pid:1234 | pgrp:1234 | 12s\nbrief: 运行示例任务\ncmd: printf hello\ncwd: /tmp\n"
    ));
    assert!(reply.output_preview.ends_with("preview:\np1"));
    assert_eq!(reply.model_output, reply.output_preview);
}

#[test]
fn output_preview_of_a_session() {
    let mut s = sample(false, TerminalMode::Background);
    s.session_id = 4;
    s.output_bytes = 0;
    s.output_lines = 0;
    let mut reg = SessionRegistry::new();
    let none = LogReads { whole: None, head: None, tail: None };
    let budget = single_preview_budget();
    assert_eq!(session_output_preview(&reg, 4, &none, budget), None);
    reg.upsert_running(s.clone());
    assert_eq!(session_output_preview(&reg, 4, &none, budget), Some("(empty)".to_string()));
    assert_eq!(session_output_preview(&reg, 0, &none, budget), None);
    s.output_bytes = 6;
    s.output_lines = 1;
    reg.upsert_running(s);
    let read = LogReads { whole: Some("hello\n".to_string()), head: None, tail: None };
    assert_eq!(session_output_preview(&reg, 4, &read, budget), Some("hello".to_string()));
    assert_eq!(preview_or_empty("  "), "(empty)");
    assert_eq!(preview_or_empty("x"), "x");
}

#[test]
fn finished_sessions_keep_the_highest_ids() {
    let mut reg = SessionRegistry::new();
    for id in 1..=65u64 {
        let mut s = sample(true, TerminalMode::Background);
        s.session_id = id;
        reg.upsert_running(s.clone());
        s.running = false;
        reg.finish(s);
    }
    assert!(snapshot_session(&reg, 1).is_none());
    assert!(snapshot_session(&reg, 2).is_some());
    assert!(snapshot_session(&reg, 65).is_some());
    let mut old = sample(true, TerminalMode::Background);
    old.session_id = 1;
    reg.upsert_running(old.clone());
    old.running = false;
    reg.finish(old);
    assert!(snapshot_session(&reg, 1).is_none());
    assert!(snapshot_session(&reg, 2).is_some());
    assert!(snapshot_session(&reg, 0).is_none());
}

#[test]
fn registry_reads_give_back_writes() {
    let mut reg = SessionRegistry::new();
    assert!(!has_running_sessions(&reg));
    let mut a = sample(true, TerminalMode::Background);
    a.session_id = 5;
    let mut b = sample(true, TerminalMode::Background);
    b.session_id = 2;
    reg.upsert_running(a.clone());
    reg.upsert_running(b.clone());
    assert!(has_running_sessions(&reg));
    let ids: Vec<u64> = list_sessions(&reg).iter().map(|s| s.session_id).collect();
    assert_eq!(ids, vec![2, 5]);
    let mut done = a.clone();
    done.running = false;
    done.exit_code = Some(3);
    reg.finish(done);
    let ids: Vec<u64> = list_sessions(&reg).iter().map(|s| s.session_id).collect();
    assert_eq!(ids, vec![2]);
    assert_eq!(snapshot_session(&reg, 5).map(|s| s.exit_code), Some(Some(3)));
    assert_eq!(snapshot_session(&reg, 2).map(|s| s.running), Some(true));
    assert!(snapshot_session(&reg, 9).is_none());
    reg.reset();
    assert!(!has_running_sessions(&reg));
    assert!(snapshot_session(&reg, 5).is_none());
}

#[test]
fn terminal_model_output_keeps_running_guidance_for_ai() {
    let mut snapshot = sample(true, TerminalMode::Interactive);
    snapshot.session_id = 8;
    snapshot.saved_path = "/tmp/session_8.log".to_string();
    snapshot.status_path = "/tmp/session_8.status".to_string();
    snapshot.output_bytes = 0;
    snapshot.output_lines = 0;
    snapshot.output_tail = String::new();
    let text = format_terminal_model_output(
        "Interactive Terminal started",
        "",
        &snapshot,
        "running",
        Some("启动"),
        None,
        default_terminal_audit_interval_secs(),
    );
    assert!(text.contains("Notice: 当前正在运行"));
    assert!(text.contains("Snapshot Interval: 300s"));
}

#[test]
fn clamp_preview_text_limits_lines_and_chars() {
    let text = (0..220).map(|index| format!("line-{index:03}")).collect::<Vec<_>>().join("\n");
    let preview = clamp_preview_text(text.as_str(), 100, 5000);
    assert!(preview.lines().count() <= 100);
    assert!(preview.chars().count() <= 5000);
    assert!(preview.contains("…<+"));
}

#[test]
fn clamp_tail_preview_text_keeps_latest_window() {
    let text = (0..12).map(|index| format!("tail-line-{index:02}")).collect::<Vec<_>>().join("\n");
    let preview = clamp_tail_preview_text(text.as_str(), 5, 10_000);
    assert!(preview.contains("…<+7 lines>"));
    assert!(!preview.contains("tail-line-00"));
    assert!(preview.contains("tail-line-11"));
}

#[test]
fn done_preview_keeps_head_and_tail_summary() {
    let text = (0..80).map(|index| format!("done-line-{index:02}")).collect::<Vec<_>>().join("\n");
    let preview = clamp_head_tail_preview_text(
        text.as_str(),
        TERMINAL_DONE_PREVIEW_HEAD_LINES,
        TERMINAL_DONE_PREVIEW_TAIL_LINES,
        TERMINAL_DONE_PREVIEW_MAX_CHARS,
    );
    assert!(preview.contains("done-line-00"));
    assert!(preview.contains("done-line-79"));
    assert!(preview.contains("…<+40 lines>"));
    assert!(!preview.contains("done-line-39"));
}

#[test]
fn killing_a_running_session_suppresses_its_done_report() {
    let mut reg = SessionRegistry::new();
    assert_eq!(kill_session_step(&mut reg, 7).err(), Some(KillSessionError::NotFound(7)));
    reg.upsert_running(sample(true, TerminalMode::Interactive));
    match kill_session_step(&mut reg, 7) {
        Ok(KillAction::SendKill(s)) => assert!(!s.suppressed_done),
        _ => panic!("a running session is to be killed"),
    }
    assert!(snapshot_session(&reg, 7).expect("session").suppressed_done);
    let mut stopped = sample(false, TerminalMode::Background);
    stopped.session_id = 8;
    reg.upsert_running(stopped);
    match kill_session_step(&mut reg, 8) {
        Ok(KillAction::AlreadyStopped(s)) => assert_eq!(s.session_id, 8),
        _ => panic!("a stopped session is left alone"),
    }
    assert!(!snapshot_session(&reg, 8).expect("session").suppressed_done);
}

#[test]
fn session_list_counts_the_registry() {
    let mut reg = SessionRegistry::new();
    let empty = list_sessions_reply(&reg, &Vec::new(), &Vec::new());
    assert_eq!(empty.model_output, "running_sessions:0");
    let mut a = sample(true, TerminalMode::Background);
    a.session_id = 3;
    let mut b = sample(true, TerminalMode::Interactive);
    b.session_id = 5;
    reg.upsert_running(b);
    reg.upsert_running(a);
    let reply = list_sessions_reply(&reg, &vec![4, 9], &vec!["p3".to_string(), "p5".to_string()]);
    assert!(reply.model_output.starts_with("running_sessions:2\n#3 | "));
    assert!(reply.model_output.contains("\n#5 | "));
    assert_eq!(reply.command_preview, "pty_list");
}

#[test]
fn terminal_output_grows_the_session_tail() {
    let mut s = sample(true, TerminalMode::Background);
    update_session_output(&mut s, b" world\n\xff\0");
    assert_eq!(s.output_tail, "hello world\n\u{fffd}");
    assert_eq!(s.output_bytes, 41);
    assert_eq!(s.output_lines, 3);
}

#[test]
fn kill_reply_opens_with_the_ended_terminal() {
    let running = sample(true, TerminalMode::Background);
    let reply = kill_session_tool(7, Some(&running), "line one\nline two", false, 300).expect("reply");
    assert_eq!(reply.output_preview.lines().next(), Some("终端已终止 · AI · #7"));
}
