use projectying::agent_args::{AgentArgsError, SpawnAgentArgs};
use projectying::agent_spawn::{plan_spawn_agent, spawn_agent_output_preview};

fn args(model: Option<&str>, reasoning: Option<&str>) -> SpawnAgentArgs {
    SpawnAgentArgs {
        message: Some("  look at the logs ".to_string()),
        items: None,
        agent_type: Some("explorer".to_string()),
        fork_context: false,
        model: model.map(str::to_string),
        reasoning_effort: reasoning.map(str::to_string),
    }
}

#[test]
fn plan_spawn_agent_numbers_and_overrides() {
    let plan = plan_spawn_agent(&args(Some("  gpt-x "), Some("high")), 3, "base-model", Some("low")).expect("plan");
    assert_eq!(plan.prompt, "look at the logs");
    assert_eq!(plan.model, "gpt-x");
    assert_eq!(plan.reasoning_effort, Some("high".to_string()));
    assert_eq!(plan.agent_id, "agent-3");
    assert_eq!(plan.nickname, "Agent #3");
    assert_eq!(plan.task_preview, "look at the logs");
    assert_eq!(plan.started_event, "◌ 已启动 · look at the logs");
    assert_eq!(plan.brief, "启动 explorer · look at the logs");
    assert_eq!(plan.next_agent_number, 4);
}

#[test]
fn plan_spawn_agent_keeps_defaults_for_blank_overrides() {
    let plan = plan_spawn_agent(&args(Some("   "), None), u64::MAX, "base-model", Some("low")).expect("plan");
    assert_eq!(plan.model, "base-model");
    assert_eq!(plan.reasoning_effort, Some("low".to_string()));
    assert_eq!(plan.next_agent_number, u64::MAX);
    let plan = plan_spawn_agent(&args(None, None), 1, "m", None).expect("plan");
    assert_eq!(plan.reasoning_effort, None);
}

#[test]
fn plan_spawn_agent_refuses_missing_input() {
    let empty = SpawnAgentArgs { message: None, ..args(None, None) };
    assert_eq!(plan_spawn_agent(&empty, 1, "m", None).err(), Some(AgentArgsError::NoInput));
}

#[test]
fn spawn_agent_output_preview_names_the_agent_and_log() {
    let text = spawn_agent_output_preview("agent-3", "~/logs/agent-3.log");
    assert!(text.starts_with("#3 · 已启动并进入运行态\nlog:~/logs/agent-3.log\nnotice:当前正在运行"));
}
