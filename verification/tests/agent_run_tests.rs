use projectying::agent_run::{
    agent_step, push_agent_event, upsert_agent_event, AgentEvent, AgentRun, AGENT_EVENT_LOG_LIMIT,
};
use projectying::tools::AgentStatusValue;

fn fresh() -> AgentRun {
    AgentRun { status: AgentStatusValue::PendingInit, prompt: String::new(), reply: String::new(), events: Vec::new() }
}

#[test]
fn agent_step_run_marks_running_and_notes_task() {
    let mut run = fresh();
    let step = agent_step(&mut run, AgentEvent::Run("  summarize the repo  ".to_string()));
    assert_eq!(run.status, AgentStatusValue::Running);
    assert_eq!(run.prompt, "  summarize the repo  ");
    assert_eq!(run.reply, "");
    assert_eq!(run.events, vec!["◌ 任务 · summarize the repo".to_string()]);
    assert_eq!(step.log_lines, vec!["◌ 任务 · summarize the repo".to_string()]);
    assert_eq!(step.cancel_flag, Some(false));
    assert!(step.transcript.is_none());
    assert!(!step.enforce_retention);
    assert!(!step.stop);
}

#[test]
fn agent_step_chunks_update_one_live_line() {
    let mut run = fresh();
    agent_step(&mut run, AgentEvent::Run("task".to_string()));
    let first = agent_step(&mut run, AgentEvent::Chunk("hello\nwor".to_string()));
    assert_eq!(first.log_lines, vec!["❥ wor".to_string()]);
    let second = agent_step(&mut run, AgentEvent::Chunk("ld".to_string()));
    assert_eq!(second.log_lines, vec!["❥ world".to_string()]);
    assert_eq!(run.reply, "hello\nworld");
    assert_eq!(run.events, vec!["◌ 任务 · task".to_string(), "❥ world".to_string()]);
    let blank = agent_step(&mut run, AgentEvent::Chunk("   ".to_string()));
    assert!(blank.log_lines.is_empty());
    assert_eq!(run.reply, "hello\nworld");
    assert_eq!(run.status, AgentStatusValue::Running);
    assert!(blank.cancel_flag.is_none());
}

#[test]
fn agent_step_tool_call_retry_and_tool_done() {
    let mut run = fresh();
    let call = agent_step(
        &mut run,
        AgentEvent::ToolCall { name: "list_agent".to_string(), brief: String::new(), preview: String::new() },
    );
    assert_eq!(call.log_lines, vec!["◌ List · agents".to_string()]);
    let retry = agent_step(
        &mut run,
        AgentEvent::Retry { attempt: 1, max_attempts: 3, reason: "timeout".to_string() },
    );
    assert_eq!(retry.log_lines, vec!["↻ Reconnecting 1/3 · timeout".to_string()]);
    let done = agent_step(&mut run, AgentEvent::ToolDone);
    assert!(done.log_lines.is_empty());
    assert_eq!(run.events, vec!["◌ List · agents".to_string(), "↻ Reconnecting 1/3 · timeout".to_string()]);
    assert_eq!(run.status, AgentStatusValue::PendingInit);
}

#[test]
fn agent_step_cancelled_run_changes_only_events() {
    let mut run = fresh();
    agent_step(&mut run, AgentEvent::Run("task".to_string()));
    let step = agent_step(
        &mut run,
        AgentEvent::Ended { cancelled: true, result: Ok("ignored".to_string()) },
    );
    assert_eq!(run.status, AgentStatusValue::Running);
    assert_eq!(run.events.last().map(String::as_str), Some("✕ 已取消"));
    assert!(step.transcript.is_none());
    assert!(!step.enforce_retention);
    assert!(!step.stop);
}

#[test]
fn agent_step_completion_records_conclusion_and_transcript() {
    let mut run = fresh();
    agent_step(&mut run, AgentEvent::Run("task".to_string()));
    let step = agent_step(
        &mut run,
        AgentEvent::Ended { cancelled: false, result: Ok("  first line\n\n  second  \n".to_string()) },
    );
    assert_eq!(run.status, AgentStatusValue::Completed(Some("first line\n\n  second".to_string())));
    assert_eq!(
        run.events,
        vec!["◌ 任务 · task".to_string(), "✓ 结论 · first line".to_string(), "second".to_string()]
    );
    assert_eq!(step.log_lines, vec!["✓ 结论 · first line".to_string(), "second".to_string()]);
    assert_eq!(
        step.transcript,
        Some(("task".to_string(), Some("first line\n\n  second".to_string())))
    );
    assert!(step.enforce_retention);
    assert!(!step.stop);
}

#[test]
fn agent_step_blank_completion_is_plain_done() {
    let mut run = fresh();
    agent_step(&mut run, AgentEvent::Run("task".to_string()));
    let step = agent_step(&mut run, AgentEvent::Ended { cancelled: false, result: Ok("  \n ".to_string()) });
    assert_eq!(run.status, AgentStatusValue::Completed(None));
    assert_eq!(step.log_lines, vec!["✓ 已完成".to_string()]);
    assert_eq!(step.transcript, Some(("task".to_string(), None)));
}

#[test]
fn agent_step_error_marks_errored() {
    let mut run = fresh();
    agent_step(&mut run, AgentEvent::Run("task".to_string()));
    let step = agent_step(
        &mut run,
        AgentEvent::Ended { cancelled: false, result: Err("\n  boom   now \ndetails".to_string()) },
    );
    assert_eq!(run.status, AgentStatusValue::Errored("\n  boom   now \ndetails".to_string()));
    assert_eq!(run.events.last().map(String::as_str), Some("✕ boom now"));
    assert!(step.transcript.is_none());
    assert!(step.enforce_retention);
}

#[test]
fn agent_step_shutdown_stops_the_thread() {
    let mut run = fresh();
    let step = agent_step(&mut run, AgentEvent::Shutdown);
    assert_eq!(run.status, AgentStatusValue::Shutdown);
    assert_eq!(run.events, vec!["◌ 已关闭".to_string()]);
    assert_eq!(step.cancel_flag, Some(true));
    assert!(step.enforce_retention);
    assert!(step.stop);
}

#[test]
fn push_agent_event_keeps_last_lines_and_skips_repeats() {
    let mut events: Vec<String> = Vec::new();
    for i in 0..50 {
        push_agent_event(&mut events, format!("event {i}").as_str());
    }
    assert_eq!(events.len(), AGENT_EVENT_LOG_LIMIT);
    assert_eq!(events[0], "event 2");
    assert_eq!(events[47], "event 49");
    let again = push_agent_event(&mut events, "  event   49 ");
    assert_eq!(again, Some("event 49".to_string()));
    assert_eq!(events.len(), AGENT_EVENT_LOG_LIMIT);
    assert_eq!(push_agent_event(&mut events, "   "), None);
}

#[test]
fn upsert_agent_event_replaces_last_match() {
    let mut events = vec!["❥ a".to_string(), "x".to_string(), "❥ b".to_string(), "y".to_string()];
    let logged = upsert_agent_event(&mut events, "❥ ", "❥ c");
    assert_eq!(logged, Some("❥ c".to_string()));
    assert_eq!(events, vec!["❥ a".to_string(), "x".to_string(), "❥ c".to_string(), "y".to_string()]);
    upsert_agent_event(&mut events, "◎ ", "◎ new");
    assert_eq!(events.last().map(String::as_str), Some("◎ new"));
}
