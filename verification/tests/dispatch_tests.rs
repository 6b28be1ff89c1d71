use projectying::dispatch::{extract_function_call, OutputItemEvent};
use projectying::describe::{ExecCommandArgs, FunctionCallDisplay, ToolCallArgs, WriteStdinArgs};
use projectying::dispatch::{
    failure_labels, task_mode_required, task_mode_required_message, is_focus_enter_call, route_function_call,
    unsupported_call_output, ToolRoute,
};
use projectying::image_kind::{
    build_resize_strategy_label, contains_any_keyword, decide_view_image_kind, format_dimensions_human,
    format_dimensions_machine, ColorDiversity, ImageTraits, ViewImageKind, ViewImageMode,
};
use projectying::tool_args::TaskModeArgs;
use projectying::tools::ContextManageArgs;

fn display() -> FunctionCallDisplay {
    FunctionCallDisplay {
        brief: "b".to_string(),
        kind_label: "Command".to_string(),
        action_label: "Run".to_string(),
        command_preview: "ls".to_string(),
    }
}

fn task(action: &str) -> ToolCallArgs {
    ToolCallArgs::TaskMode(TaskModeArgs {
        action: action.to_string(),
        brief: None,
        task: None,
        user_goal: None,
        reason: None,
        plan_a: None,
        plan_b: None,
        fallback: None,
        plan_c: None,
        expected_result: None,
        exit_condition: None,
        summary: None,
        completed: None,
        implemented: None,
        steps: None,
        key_info: None,
        result: None,
        exit_reason: None,
        fastmemory_section: None,
        fastmemory_text: None,
    })
}

fn context(action: &str) -> ToolCallArgs {
    let c = projectying::tool_args::task_mode_to_context_manage_args(match task(action) {
        ToolCallArgs::TaskMode(t) => t,
        _ => unreachable!(),
    });
    ToolCallArgs::ContextManage(ContextManageArgs { action: action.to_string(), ..c })
}

#[test]
fn names_route_to_their_tools() {
    assert_eq!(route_function_call("exec_command"), ToolRoute::ExecCommand);
    assert_eq!(route_function_call("multi_tool_use.parallel"), ToolRoute::Parallel);
    assert_eq!(route_function_call("pty_kill"), ToolRoute::PtyKill);
    assert_eq!(route_function_call("nope"), ToolRoute::Unsupported);
    assert_eq!(unsupported_call_output("nope"), "unsupported function call: nope");
}

#[test]
fn task_mode_rule_lets_plans_and_task_entry_through() {
    let plain = ToolCallArgs::Unparsed;
    assert!(task_mode_required("exec_command", &plain, Some("计划")));
    assert!(!task_mode_required("exec_command", &plain, None));
    assert!(!task_mode_required("update_plan", &plain, Some("计划")));
    assert!(is_focus_enter_call(" task_mode ", &task("Enter")));
    assert!(!is_focus_enter_call("task_mode", &task("exit")));
    assert!(is_focus_enter_call("context_manage", &context("task_enter")));
    assert!(!task_mode_required("task_mode", &task("focus_enter"), Some("计划")));
    assert!(task_mode_required_message("  做完 A  ").ends_with("\nplan_summary: 做完 A"));
}

#[test]
fn failed_calls_keep_tool_labels() {
    let d = display();
    let tty = ToolCallArgs::ExecCommand(ExecCommandArgs { cmd: "bash".to_string(), brief: None, tty: true });
    assert_eq!(failure_labels(ToolRoute::ExecCommand, &d, &tty), ("Command".to_string(), "启动失败".to_string()));
    let write = ToolCallArgs::WriteStdin(WriteStdinArgs { session_id: 1, chars: "".to_string() });
    assert_eq!(failure_labels(ToolRoute::WriteStdin, &d, &write).1, "轮询失败");
    assert_eq!(failure_labels(ToolRoute::MemoryRead, &d, &write), ("Memory".to_string(), "Failed".to_string()));
    assert_eq!(failure_labels(ToolRoute::PtyKill, &d, &write).1, "终止失败");
}

#[test]
fn image_kind_weighs_screen_and_photo_signs() {
    let t = ImageTraits {
        looks_like_phone_screenshot: false,
        looks_like_camera_photo: false,
        has_alpha: false,
        diversity: ColorDiversity::Mid,
    };
    assert_eq!(
        decide_view_image_kind("/sdcard/Pictures/Screenshots/a.png", "image/png", t, ViewImageMode::Auto),
        (ViewImageKind::Ui, "自动识别")
    );
    assert_eq!(
        decide_view_image_kind("/sdcard/DCIM/Camera/a.jpg", "image/jpeg", t, ViewImageMode::Auto),
        (ViewImageKind::Photo, "自动识别")
    );
    assert_eq!(decide_view_image_kind("x", "", t, ViewImageMode::Auto), (ViewImageKind::Ui, "自动识别"));
    let photo = ImageTraits { diversity: ColorDiversity::High, ..t };
    assert_eq!(decide_view_image_kind("x", "", photo, ViewImageMode::Auto), (ViewImageKind::Photo, "自动识别"));
    assert_eq!(decide_view_image_kind("x", "", photo, ViewImageMode::Ui), (ViewImageKind::Ui, "手动指定"));
    assert!(contains_any_keyword("a/截图/b", &vec!["x", "截图"]));
    assert!(!contains_any_keyword("abc", &vec![]));
}

#[test]
fn dimension_and_resize_labels() {
    assert_eq!(format_dimensions_human(Some((1080, 2400))), "1080×2400");
    assert_eq!(format_dimensions_human(None), "未知");
    assert_eq!(format_dimensions_machine(Some((3, 4))), "3x4");
    assert_eq!(format_dimensions_machine(None), "unknown");
    assert_eq!(build_resize_strategy_label("相片", Some((1, 2)), Some((1, 2)), "JPEG 质量 80"), "按 相片 策略压缩；JPEG 质量 80");
    assert_eq!(
        build_resize_strategy_label("界面", Some((2000, 4000)), Some((1000, 2000)), "PNG"),
        "按 界面 策略缩放 2000×4000 → 1000×2000；PNG"
    );
}

#[test]
fn extract_function_call_restores_canonical_parallel_name() {
    let event = OutputItemEvent {
        event_type: Some("response.output_item.done".to_string()),
        item_present: true,
        item_type: Some("function_call".to_string()),
        call_id: Some("call_2".to_string()),
        name: Some("multi_tool_use_parallel".to_string()),
        arguments: Some("{\"tool_uses\":[]}".to_string()),
    };
    let call = extract_function_call(&event).expect("function call");
    assert_eq!(call.name, "multi_tool_use.parallel");
    assert_eq!(call.call_id, "call_2");
    let other = OutputItemEvent { event_type: Some("response.created".to_string()), ..event.clone() };
    assert!(extract_function_call(&other).is_none());
    let no_args = OutputItemEvent { arguments: None, ..event };
    assert!(extract_function_call(&no_args).is_none());
}

#[test]
fn extract_function_call_reads_responses_done_item() {
    let event = OutputItemEvent {
        event_type: Some("response.output_item.done".to_string()),
        item_present: true,
        item_type: Some("function_call".to_string()),
        call_id: Some("call_1".to_string()),
        name: Some("exec_command".to_string()),
        arguments: Some("{\"cmd\":\"printf hi\"}".to_string()),
    };
    let call = extract_function_call(&event).expect("function call");
    assert_eq!(call.call_id, "call_1");
    assert_eq!(call.name, "exec_command");
    assert_eq!(call.arguments, "{\"cmd\":\"printf hi\"}");
}
