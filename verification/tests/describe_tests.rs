use projectying::agent_args::{PtyKillArgs, SingleAgentArgs, WaitAgentArgs};
use projectying::describe::{
    build_parallel_preview_item, build_view_image_input_preview, derive_apply_patch_brief,
    derive_view_image_brief, describe_function_call, describe_parallel_item, file_name_of, is_home_alias_path,
    native_parallel_batch_brief, native_parallel_batch_supported, normalize_projectying_path_label,
    resolve_parallel_tool_brief, trim_relative_prefixes, ApplyPatchArgs, CallContext, ExecCommandArgs,
    FunctionCall, FunctionCallDisplay, ToolCallArgs, ViewImageArgs, WriteStdinArgs,
};
use projectying::memory_args::MemoryReadArgs;
use projectying::persona::PersonaKind;
use projectying::plan::{UpdatePlanArgs, UpdatePlanStepArgs};

fn ctx() -> CallContext {
    CallContext {
        absolute_path_display: "~/shots/a.png".to_string(),
        project_root: "/home/me/proj".to_string(),
        context_target_label: None,
    }
}

fn exec(cmd: &str, brief: Option<&str>) -> ToolCallArgs {
    ToolCallArgs::ExecCommand(ExecCommandArgs {
        cmd: cmd.to_string(),
        brief: brief.map(str::to_string),
        tty: false,
    })
}

fn memory_read(target: &str, date: Option<&str>, brief: Option<&str>) -> ToolCallArgs {
    ToolCallArgs::MemoryRead(MemoryReadArgs {
        target: target.to_string(),
        date: date.map(str::to_string),
        tool_ref: None,
        entry_id: None,
        entry_start_id: None,
        entry_end_id: None,
        line_start: None,
        line_end: None,
        brief: brief.map(str::to_string),
    })
}

fn call(name: &str, arguments: &str) -> FunctionCall {
    FunctionCall { call_id: "c".to_string(), name: name.to_string(), arguments: arguments.to_string() }
}

#[test]
fn describe_function_call_prefers_model_brief() {
    let display = describe_function_call(
        "exec_command",
        r#"{"cmd":"pwd","brief":"  查看 当前目录  "}"#,
        &exec("pwd", Some("  查看 当前目录  ")),
        &ctx(),
    );
    assert_eq!(display.command_preview, "pwd");
    assert_eq!(display.brief, "查看 当前目录");
}

#[test]
fn describe_write_stdin_call_uses_session_preview() {
    let args = ToolCallArgs::WriteStdin(WriteStdinArgs { session_id: 7, chars: "pwd\n".to_string() });
    let display = describe_function_call("write_stdin", r#"{"session_id":7,"chars":"pwd\n"}"#, &args, &ctx());
    assert!(display.command_preview.contains("session 7"));
    assert_eq!(display.brief, "继续操作终端");
    assert_eq!(display.action_label, "注入中");
}

#[test]
fn describe_apply_patch_call_uses_patch_preview() {
    let input = "*** Begin Patch\n*** Update File: src/main.rs\n@@\n-old\n+new\n*** End Patch\n";
    let args = ToolCallArgs::ApplyPatch(ApplyPatchArgs { input: input.to_string(), brief: None });
    let display = describe_function_call("apply_patch", "{}", &args, &ctx());
    assert_eq!(display.kind_label, "Patch");
    assert_eq!(display.action_label, "Edit File");
    assert!(display.command_preview.contains("*** Update File: src/main.rs"));
    assert_eq!(display.brief, "修改 src/main.rs");
}

#[test]
fn describe_view_image_call_uses_image_preview() {
    let args = ToolCallArgs::ViewImage(ViewImageArgs {
        path: "media/screenshots/Screenshot_demo.jpg".to_string(),
        brief: None,
    });
    let display = describe_function_call(
        "view_image",
        r#"{"path":"media/screenshots/Screenshot_demo.jpg"}"#,
        &args,
        &ctx(),
    );
    assert_eq!(display.kind_label, "Image");
    assert_eq!(display.action_label, "View");
    assert_eq!(display.brief, "分析截图");
    assert_eq!(display.command_preview, "./media/screenshots/Screenshot_demo.jpg");
}

#[test]
fn describe_parallel_tool_call_builds_explore_preview() {
    let first = describe_parallel_item(
        "functions.exec_command",
        r#"{"cmd":"rg -n \"render_tool_runs\" src/main.rs","brief":"查找渲染入口"}"#,
        &exec("rg -n \"render_tool_runs\" src/main.rs", Some("查找渲染入口")),
        &ctx(),
    );
    let second = describe_parallel_item(
        "functions.memory_read",
        r#"{"target":"datememory","date":"2026-03-28","brief":"读取今日记忆"}"#,
        &memory_read("datememory", Some("2026-03-28"), Some("读取今日记忆")),
        &ctx(),
    );
    let items = vec![first, second];
    let display = describe_function_call(
        "multi_tool_use.parallel",
        "{}",
        &ToolCallArgs::Parallel {
            brief: Some("并行检查入口".to_string()),
            tool_use_count: 2,
            payload: "payload".to_string(),
        },
        &ctx(),
    );
    assert_eq!(display.brief, "并行检查入口");
    assert_eq!(display.kind_label, "Explore");
    assert_eq!(items.len(), 2);
    assert_eq!(items[0].action, "Search");
    assert_eq!(items[1].action, "Read");
    assert_eq!(items[0].tool_name, "exec_command");
    assert_eq!(items[1].brief, "读取今日记忆");
}

#[test]
fn describe_update_plan_call_formats_preview() {
    let step = |text: &str, status: &str| UpdatePlanStepArgs { step: text.to_string(), status: status.to_string() };
    let args = ToolCallArgs::UpdatePlan(UpdatePlanArgs {
        explanation: Some("先把 plan 工具接入聊天系统".to_string()),
        plan: vec![
            step("检查 plan 工具现状", "completed"),
            step("接入 update_plan 执行链路", "in_progress"),
            step("优化聊天区 plan 展示", "pending"),
        ],
    });
    let display = describe_function_call("update_plan", "{}", &args, &ctx());
    assert_eq!(display.kind_label, "Plan");
    assert_eq!(display.action_label, "Update");
    assert!(display.brief.contains("推进"));
    assert!(display.command_preview.contains("Plan · 3 steps"));
    assert!(display.command_preview.contains("[in_progress] 接入 update_plan 执行链路"));
}

#[test]
fn update_plan_that_does_not_read_falls_back_to_raw_arguments() {
    let args = ToolCallArgs::UpdatePlan(UpdatePlanArgs {
        explanation: None,
        plan: vec![
            UpdatePlanStepArgs { step: "A".to_string(), status: "in_progress".to_string() },
            UpdatePlanStepArgs { step: "B".to_string(), status: "in_progress".to_string() },
        ],
    });
    let display = describe_function_call("update_plan", "{raw}", &args, &ctx());
    assert_eq!(display.kind_label, "Tool");
    assert_eq!(display.action_label, "Run");
    assert_eq!(display.command_preview, "{raw}");
}

#[test]
fn unparsed_list_agent_and_pty_list_have_fixed_previews() {
    let d = describe_function_call("list_agent", "{}", &ToolCallArgs::Unparsed, &ctx());
    assert_eq!((d.kind_label.as_str(), d.action_label.as_str()), ("Agent", "List"));
    assert_eq!(d.command_preview, "全部子代理（含已关闭）");
    let d = describe_function_call("pty_list", "{}", &ToolCallArgs::Unparsed, &ctx());
    assert_eq!(d.command_preview, "(list running terminal sessions)");
    let d = describe_function_call("mystery", "{\"x\":1}", &ToolCallArgs::Unparsed, &ctx());
    assert_eq!((d.kind_label.as_str(), d.action_label.as_str()), ("Tool", "Run"));
    assert_eq!(d.command_preview, "{\"x\":1}");
}

#[test]
fn empty_command_is_shown_as_a_plain_tool_call() {
    let d = describe_function_call("exec_command", "{\"cmd\":\"  \"}", &exec("  ", None), &ctx());
    assert_eq!(d.kind_label, "Tool");
    assert_eq!(d.command_preview, "{\"cmd\":\"  \"}");
}

#[test]
fn terminal_command_is_shown_as_starting() {
    let args = ToolCallArgs::ExecCommand(ExecCommandArgs { cmd: "bash".to_string(), brief: None, tty: true });
    let d = describe_function_call("exec_command", "{}", &args, &ctx());
    assert_eq!(d.kind_label, "TERMINAL");
    assert_eq!(d.action_label, "启动中");
}

#[test]
fn write_stdin_without_input_waits_for_output() {
    let args = ToolCallArgs::WriteStdin(WriteStdinArgs { session_id: 3, chars: "  ".to_string() });
    let d = describe_function_call("write_stdin", "{}", &args, &ctx());
    assert_eq!(d.command_preview, "session 3 · (wait for terminal output)");
}

#[test]
fn wait_agent_preview_counts_agents_and_defaults_timeout() {
    let args = ToolCallArgs::WaitAgent(WaitAgentArgs { ids: vec!["a".to_string(), "b".to_string()], timeout_ms: None });
    let d = describe_function_call("wait_agent", "{}", &args, &ctx());
    assert_eq!(d.command_preview, "2 agent(s) · timeout 30000ms");
}

#[test]
fn pty_kill_lists_sessions_in_order_once_each() {
    let args = ToolCallArgs::PtyKill(PtyKillArgs { session_id: Some(9), session_ids: vec![3, 9] });
    let d = describe_function_call("pty_kill", "{}", &args, &ctx());
    assert_eq!(d.command_preview, "session_id=3\nsession_id=9");
    assert_eq!(d.action_label, "终止中");
    let none = ToolCallArgs::PtyKill(PtyKillArgs { session_id: None, session_ids: vec![] });
    let d = describe_function_call("pty_kill", "{raw}", &none, &ctx());
    assert_eq!(d.command_preview, "{raw}");
}

#[test]
fn close_agent_with_no_ids_shows_raw_arguments() {
    let args = ToolCallArgs::CloseAgent(SingleAgentArgs { id: Some("  ".to_string()), ids: vec![] });
    let d = describe_function_call("close_agent", "{raw}", &args, &ctx());
    assert_eq!(d.action_label, "Close");
    assert_eq!(d.command_preview, "{raw}");
}

#[test]
fn parallel_brief_counts_calls_when_none_is_given() {
    assert_eq!(resolve_parallel_tool_brief(None, 3), "并行探索 3 项");
    assert_eq!(resolve_parallel_tool_brief(Some("  "), 0), "并行探索");
    assert_eq!(resolve_parallel_tool_brief(Some(" 看看 "), 2), "看看");
}

#[test]
fn nested_parallel_item_shows_raw_arguments() {
    let item = describe_parallel_item("functions.multi_tool_use.parallel", "{\"tool_uses\":[]}", &ToolCallArgs::Unparsed, &ctx());
    assert_eq!(item.tool_name, "multi_tool_use.parallel");
    assert_eq!(item.input, "{\"tool_uses\":[]}");
    assert_eq!(item.action, "Run");
}

#[test]
fn preview_item_falls_back_to_default_brief() {
    let d = FunctionCallDisplay {
        brief: "   ".to_string(),
        kind_label: "Command".to_string(),
        action_label: "Run".to_string(),
        command_preview: "cat a.txt".to_string(),
    };
    let item = build_parallel_preview_item("exec_command", d);
    assert_eq!(item.brief, "执行终端命令");
    assert_eq!(item.action, "Read");
    assert_eq!(item.output, None);
}

#[test]
fn batch_brief_names_reading_searching_or_exploring() {
    let reads = vec![
        (call("exec_command", "{}"), exec("cat a", None)),
        (call("memory_read", "{}"), memory_read("datememory", None, None)),
    ];
    assert_eq!(native_parallel_batch_brief(&reads, &ctx()), "并行读取 2 项");
    let searches = vec![(call("exec_command", "{}"), exec("rg foo", None))];
    assert_eq!(native_parallel_batch_brief(&searches, &ctx()), "并行搜索 1 项");
    let mixed = vec![
        (call("exec_command", "{}"), exec("rg foo", None)),
        (call("exec_command", "{}"), exec("cat a", None)),
    ];
    assert_eq!(native_parallel_batch_brief(&mixed, &ctx()), "并行探索 2 项");
    assert_eq!(native_parallel_batch_brief(&vec![], &ctx()), "并行探索 0 项");
}

#[test]
fn batch_support_depends_on_persona_and_command() {
    let c = call("exec_command", "{}");
    let read = ExecCommandArgs { cmd: "cat a".to_string(), brief: None, tty: false };
    let run = ExecCommandArgs { cmd: "cargo build".to_string(), brief: None, tty: false };
    let tty = ExecCommandArgs { cmd: "cat a".to_string(), brief: None, tty: true };
    assert!(native_parallel_batch_supported(PersonaKind::Coding, &c, Some(&read)));
    assert!(!native_parallel_batch_supported(PersonaKind::Coding, &c, Some(&run)));
    assert!(!native_parallel_batch_supported(PersonaKind::Coding, &c, Some(&tty)));
    assert!(!native_parallel_batch_supported(PersonaKind::Coding, &c, None));
    let img = call("view_image", "{}");
    assert!(native_parallel_batch_supported(PersonaKind::Matrix, &img, None));
    assert!(!native_parallel_batch_supported(PersonaKind::Coding, &img, None));
    assert!(!native_parallel_batch_supported(PersonaKind::Matrix, &call("apply_patch", "{}"), None));
}

#[test]
fn path_helpers_trim_prefixes_and_name_files() {
    assert_eq!(trim_relative_prefixes("././src/a.rs"), "src/a.rs");
    assert!(is_home_alias_path("./home/notes"));
    assert!(is_home_alias_path("home"));
    assert!(!is_home_alias_path("notes"));
    assert_eq!(file_name_of("a/b/c.png"), Some("c.png".to_string()));
    assert_eq!(derive_view_image_brief("pics/cat.png"), "查看 cat.png");
    assert_eq!(build_view_image_input_preview("  ", "x"), "(empty)");
    assert_eq!(build_view_image_input_preview("/abs/a.png", "~/abs/a.png"), "~/abs/a.png");
    assert_eq!(build_view_image_input_preview("./home/a.png", "x"), "home/a.png");
    assert_eq!(build_view_image_input_preview("a.png", "x"), "./a.png");
}

#[test]
fn patch_brief_names_the_file_or_counts_files() {
    let one = "*** Begin Patch\n*** Add File: /home/me/proj/src/new.rs\n+x\n*** End Patch\n";
    assert_eq!(derive_apply_patch_brief(one, "/home/me/proj"), "修改 src/new.rs");
    let two = "*** Begin Patch\n*** Add File: a.rs\n+x\n*** Delete File: b.rs\n*** End Patch\n";
    assert_eq!(derive_apply_patch_brief(two, "/home/me/proj"), "修改 2 个文件");
    assert_eq!(normalize_projectying_path_label("/home/me/proj/x/y.rs", "/home/me/proj"), "x/y.rs");
}
