use std::time::Instant;

use projectying::agent_report::{
    agent_completion_preview, all_agent_snapshots_final, build_agent_runtime_report, build_list_agent_preview,
    build_wait_agent_preview, latest_stream_preview, AgentRuntimeSnapshot, AgentUiSnapshot,
};
use projectying::background_report::{
    format_background_command_preview, format_background_command_report,
    format_background_command_start_model_output,
};
use projectying::registry::BackgroundCommandSnapshot;
use projectying::tools::AgentStatusValue;

fn runtime(status: AgentStatusValue, latest: Option<&str>, events: &[&str]) -> AgentRuntimeSnapshot {
    AgentRuntimeSnapshot {
        status,
        latest_event: latest.map(str::to_string),
        event_lines: events.iter().map(|e| e.to_string()).collect(),
    }
}

fn ui(id: &str, status: AgentStatusValue) -> AgentUiSnapshot {
    AgentUiSnapshot {
        id: id.to_string(),
        nickname: None,
        agent_type: None,
        status,
        task_preview: String::new(),
        event_lines: vec![],
        log_path: "/tmp/a.log".to_string(),
        created_at: 0,
    }
}

fn background(running: bool, timed_out: bool, tail: &str) -> BackgroundCommandSnapshot {
    BackgroundCommandSnapshot {
        job_id: 9,
        brief: "后台测试".to_string(),
        cmd: "sleep 60".to_string(),
        workdir: "/tmp".to_string(),
        saved_path: "/tmp/bg.log".to_string(),
        status_path: "/tmp/bg.status".to_string(),
        started_at: Instant::now(),
        pid: Some(123),
        running,
        timed_out,
        exit_code: if running { None } else { Some(0) },
        output_bytes: 0,
        output_lines: 0,
        output_tail: tail.to_string(),
    }
}

#[test]
fn wait_agent_preview_includes_progress_lines_and_completion_summary() {
    let preview = build_wait_agent_preview(
        &vec![
            (
                "agent-1".to_string(),
                runtime(AgentStatusValue::Running, Some("tool · 检查目录结构"), &["● Read · ./src/main.rs"]),
            ),
            (
                "agent-2".to_string(),
                runtime(
                    AgentStatusValue::Completed(Some("已确认 3 个目录和 2 个配置文件".to_string())),
                    Some("reply · 初步完成"),
                    &["✓ 已确认 3 个目录和 2 个配置文件"],
                ),
            ),
        ],
        30_000,
        true,
    );
    assert!(preview.contains("#1 is still working, now wait for finish."));
    assert!(preview.contains("1 已完成 · 1 运行中 · 已等待 30s"));
    assert!(preview.contains("#1 · 运行中"));
    assert!(preview.contains("● Read · ./src/main.rs"));
    assert!(preview.contains("#2 · 已完成"));
    assert!(preview.contains("已确认 3 个目录和 2 个配置文件"));
}

#[test]
fn wait_preview_of_no_agents_says_so() {
    assert_eq!(build_wait_agent_preview(&vec![], 5_000, false), "0 个子代理");
    assert_eq!(build_wait_agent_preview(&vec![], 5_000, true), "仍在执行 · 已等待 5s");
}

#[test]
fn wait_preview_keeps_last_four_events_and_errors() {
    let preview = build_wait_agent_preview(
        &vec![
            ("a".to_string(), runtime(AgentStatusValue::Running, None, &["e1", "e2", "e3", "e4", "e5"])),
            ("b".to_string(), runtime(AgentStatusValue::Errored("  boom ".to_string()), None, &["x"])),
            ("c".to_string(), runtime(AgentStatusValue::PendingInit, Some("latest"), &[])),
        ],
        0,
        false,
    );
    assert_eq!(
        preview,
        "a/c are still working, now wait for finish.\n1 失败 · 1 准备中 · 1 运行中\na · 运行中\ne2\ne3\ne4\ne5\nb · 失败\n✕ boom\nc · 准备中\nlatest"
    );
}

#[test]
fn all_final_means_no_agent_is_running() {
    let done = vec![("a".to_string(), runtime(AgentStatusValue::Shutdown, None, &[]))];
    assert!(all_agent_snapshots_final(&done));
    let busy = vec![("a".to_string(), runtime(AgentStatusValue::Running, None, &[]))];
    assert!(!all_agent_snapshots_final(&busy));
    assert!(all_agent_snapshots_final(&vec![]));
}

#[test]
fn stream_and_completion_previews_pick_lines() {
    assert_eq!(latest_stream_preview("first\n  second   line \n\n  "), Some("second line".to_string()));
    assert_eq!(latest_stream_preview(" \n "), None);
    assert_eq!(agent_completion_preview("\n  done   now \nmore"), "done now");
}

#[test]
fn list_preview_counts_visible_agents() {
    let mut a = ui("agent-3", AgentStatusValue::Running);
    a.agent_type = Some("explorer".to_string());
    let b = ui("agent-4", AgentStatusValue::Shutdown);
    let preview = build_list_agent_preview(&vec![a, b], true);
    assert_eq!(
        preview,
        "2 个子代理 · 含已关闭 显示\n当前可见：1\n#3 · explorer · 运行中 · /tmp/a.log\n#4 · 已关闭 · /tmp/a.log"
    );
}

#[test]
fn runtime_report_shows_status_and_detail() {
    let mut a = ui("agent-1", AgentStatusValue::Running);
    a.task_preview = "  检查  ".to_string();
    let text = build_agent_runtime_report(&a, false);
    assert!(text.starts_with("Agent Snapshot\nagent_id:agent-1 | nickname:#1 | status:running\nvisible_to_user:true\nlog:/tmp/a.log\nsnapshot_interval_secs:300\nnotice:"));
    assert!(text.ends_with("latest:检查"));
    let mut done = ui("agent-2", AgentStatusValue::Completed(None));
    done.nickname = Some("helper".to_string());
    done.agent_type = Some(" worker ".to_string());
    let text = build_agent_runtime_report(&done, true);
    assert_eq!(
        text,
        "Agent Done\nagent_id:agent-2 | nickname:helper | status:completed | type:worker\nvisible_to_user:true\nlog:/tmp/a.log\nsummary:✓ 已完成"
    );
    let mut failed = ui("x", AgentStatusValue::Errored(" bad ".to_string()));
    failed.event_lines = vec!["ignored".to_string()];
    assert!(build_agent_runtime_report(&failed, true).ends_with("summary:✕ bad"));
    let mut quiet = ui("x", AgentStatusValue::Running);
    quiet.event_lines = vec!["older".to_string(), "newest".to_string(), "  ".to_string()];
    assert!(build_agent_runtime_report(&quiet, false).ends_with("latest:newest"));
}

#[test]
fn background_command_preview_stays_compact_for_ui() {
    let text = format_background_command_preview(&background(true, false, ""), 0);
    assert!(text.contains("后台运行中"));
    assert!(text.contains("log:/tmp/bg.log"));
    assert!(text.contains("notice:"));
}

#[test]
fn background_preview_of_a_finished_job_has_no_notice() {
    let text = format_background_command_preview(&background(false, false, "out1\nout2\n"), 12);
    assert_eq!(
        text,
        "后台已完成 · #9 · 12s · 0 bytes · 0 lines\nlog:/tmp/bg.log\nstatus_file:/tmp/bg.status\npreview:\nout1\nout2"
    );
    assert!(format_background_command_preview(&background(false, true, ""), 1).starts_with("后台超时结束"));
}

#[test]
fn background_report_and_start_output() {
    let text = format_background_command_report("Background Done", &background(false, false, ""), 1500);
    assert_eq!(
        text,
        "Background Done\njob_id:9 | status:done | exit:0 | elapsed_ms:1500\nbrief:后台测试\ncmd:sleep 60\nlog:/tmp/bg.log\nstatus_file:/tmp/bg.status\nstats:0 bytes | 0 lines"
    );
    let start = format_background_command_start_model_output(&background(true, false, ""), 300);
    assert!(start.starts_with("Background Command started\nJob ID: 9\nStatus: running\nBrief: 后台测试\nCommand: sleep 60\nWorkdir: /tmp\nLog: /tmp/bg.log\nStatus File: /tmp/bg.status\nSnapshot Interval: 300s\nNotice: "));
}
