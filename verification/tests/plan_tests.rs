use projectying::plan::{
    build_update_plan_input_preview, build_update_plan_output_preview, derive_update_plan_brief,
    normalize_update_plan, parse_update_plan_status, update_plan_counts, UpdatePlanArgs, UpdatePlanError,
    UpdatePlanStatus, UpdatePlanStepArgs,
};
use projectying::tool_args::{
    build_toolbox_manage_input_preview, context_manage_action_display_key, context_manage_action_key,
    context_manage_labels, resolve_toolbox_manage_brief, task_mode_action_key, task_mode_to_context_manage_args,
    truncate_preview, TaskModeArgs, ToolboxManageArgs,
};
use projectying::tools::ContextManageArgs;

fn step(text: &str, status: &str) -> UpdatePlanStepArgs {
    UpdatePlanStepArgs { step: text.to_string(), status: status.to_string() }
}

fn plan(explanation: Option<&str>, steps: Vec<UpdatePlanStepArgs>) -> UpdatePlanArgs {
    UpdatePlanArgs { explanation: explanation.map(str::to_string), plan: steps }
}

fn context_action(action: &str) -> ContextManageArgs {
    ContextManageArgs {
        action: action.to_string(),
        target: None,
        section: None,
        role: None,
        kind: None,
        round_id: None,
        entry_ids: Vec::new(),
        item_ids: Vec::new(),
        brief: None,
        text: None,
        task: None,
        user_goal: None,
        reason: None,
        plan_a: None,
        plan_b: None,
        fallback: None,
        plan_c: None,
        expected_result: None,
        exit_condition: None,
        summary: None,
        completed: None,
        implemented: None,
        steps: None,
        key_info: None,
        result: None,
        exit_reason: None,
        fastmemory_section: None,
        fastmemory_text: None,
    }
}

fn task_mode(action: &str, task: Option<&str>) -> TaskModeArgs {
    TaskModeArgs {
        action: action.to_string(),
        brief: None,
        task: task.map(str::to_string),
        user_goal: None,
        reason: None,
        plan_a: None,
        plan_b: None,
        fallback: None,
        plan_c: None,
        expected_result: None,
        exit_condition: None,
        summary: None,
        completed: None,
        implemented: None,
        steps: None,
        key_info: None,
        result: None,
        exit_reason: None,
        fastmemory_section: None,
        fastmemory_text: None,
    }
}

#[test]
fn parse_update_plan_arguments_rejects_multiple_in_progress() {
    let err = normalize_update_plan(&plan(None, vec![step("A", "in_progress"), step("B", "in_progress")]))
        .expect_err("should reject");
    assert!(err.message().contains("只能有一个 in_progress"));
}

#[test]
fn plan_errors_come_in_step_order() {
    assert_eq!(
        normalize_update_plan(&plan(None, vec![step("  ", "done"), step("B", "pending")])),
        Err(UpdatePlanError::EmptyStep)
    );
    let err = normalize_update_plan(&plan(None, vec![step("A", " done "), step("", "pending")])).unwrap_err();
    assert_eq!(err, UpdatePlanError::UnsupportedStatus("done".to_string()));
    assert_eq!(err.message(), "update_plan.status 不支持：done");
    assert_eq!(parse_update_plan_status(" completed "), Ok(UpdatePlanStatus::Completed));
}

#[test]
fn accepted_plans_are_normalized_and_described() {
    let normalized = normalize_update_plan(&plan(
        Some("  先把   plan 工具接入 "),
        vec![
            step("检查 plan 工具现状", "completed"),
            step("接入   update_plan\t执行链路", "in_progress"),
            step("优化聊天区 plan 展示", "pending"),
        ],
    ))
    .expect("plan");
    assert_eq!(normalized.explanation.as_deref(), Some("先把 plan 工具接入"));
    assert_eq!(normalized.steps[1].step, "接入 update_plan 执行链路");
    assert_eq!(update_plan_counts(&normalized), (1, 1, 1));
    assert_eq!(derive_update_plan_brief(&normalized), "推进 接入 update_plan 执行链路");
    assert_eq!(
        build_update_plan_input_preview(&normalized),
        "Plan · 3 steps · 1 pending · 1 in_progress · 1 completed\n说明：先把 plan 工具接入\n[completed] 检查 plan 工具现状\n[in_progress] 接入 update_plan 执行链路\n[pending] 优化聊天区 plan 展示"
    );
    assert_eq!(
        build_update_plan_output_preview(&normalized),
        "Plan updated · 3 steps\n当前：接入 update_plan 执行链路\n统计：1 pending · 1 in_progress · 1 completed"
    );
}

#[test]
fn plan_brief_falls_back_to_the_explanation() {
    let idle = normalize_update_plan(&plan(None, vec![step("A", "pending")])).expect("plan");
    assert_eq!(derive_update_plan_brief(&idle), "更新任务计划");
    let explained = normalize_update_plan(&plan(Some("收尾"), vec![step("A", "completed")])).expect("plan");
    assert_eq!(derive_update_plan_brief(&explained), "收尾");
}

#[test]
fn context_actions_are_renamed_and_labelled() {
    assert_eq!(context_manage_action_key(&context_action(" Replace ")), "summary");
    assert_eq!(context_manage_action_key(&context_action("TASK_ENTER")), "focus_enter");
    assert_eq!(context_manage_action_display_key(&context_action("TASK_ENTER")), "task_enter");
    assert_eq!(context_manage_labels(&context_action("task_exit")), ("TASK".to_string(), "Exit".to_string()));
    assert_eq!(context_manage_labels(&context_action("compact")), ("CONTEXT".to_string(), "Compact".to_string()));
    assert_eq!(context_manage_labels(&context_action("append")), ("CONTEXT".to_string(), "Write".to_string()));
}

#[test]
fn previews_are_trimmed_and_cut() {
    assert_eq!(truncate_preview("  hello world  ", 5), "hell…");
    assert_eq!(truncate_preview("  hi  ", 0), "…");
    assert_eq!(truncate_preview("ok", 10), "ok");
}

#[test]
fn task_mode_actions_become_context_actions() {
    assert_eq!(task_mode_action_key(&task_mode(" Enter ", None)), "task_enter");
    assert_eq!(task_mode_action_key(&task_mode("focus_exit", None)), "task_exit");
    assert_eq!(task_mode_action_key(&task_mode("Status", None)), "status");
    let converted = task_mode_to_context_manage_args(task_mode("enter", Some("修复登录")));
    assert_eq!(converted.action, "task_enter");
    assert_eq!(converted.task.as_deref(), Some("修复登录"));
    assert_eq!(converted.target, None);
    assert!(converted.entry_ids.is_empty());
}

#[test]
fn toolbox_briefs_and_previews() {
    let args = ToolboxManageArgs {
        action: " Pin ".to_string(),
        tool_ids: vec!["memory_read".to_string(), "memory_add".to_string()],
        brief: None,
        reason: Some("  常用  ".to_string()),
        plan: None,
    };
    assert_eq!(resolve_toolbox_manage_brief(None, &args), "固定工具箱");
    assert_eq!(resolve_toolbox_manage_brief(Some("  打开  看看 "), &args), "打开 看看");
    assert_eq!(
        build_toolbox_manage_input_preview(&args),
        "action: PIN\ntool_ids: memory_read, memory_add\nreason: 常用"
    );
}
