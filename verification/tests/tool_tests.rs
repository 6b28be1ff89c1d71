use projectying::agent_events::{
    agent_tool_event_line, compact_agent_path_display, normalize_agent_event_text,
};
use projectying::persona::PersonaKind;
use projectying::tool_args::build_context_manage_input_preview;
use projectying::tools::{
    agent_label_text, agent_status_json_label, canonicalize_codex_provider_tool_name,
    codex_provider_tool_name, context_manage_allowed_for_persona, default_tool_brief,
    native_parallel_item_action, parallel_tool_allowed_for_persona, parse_agent_numeric_id,
    strip_parallel_recipient_name, tool_allowed_for_persona, AgentStatusValue, ContextManageArgs,
};

fn context_args(action: &str, target: Option<&str>, entry_ids: Vec<u64>, text: &str) -> ContextManageArgs {
    ContextManageArgs {
        action: action.to_string(),
        target: target.map(str::to_string),
        section: None,
        role: None,
        kind: None,
        round_id: None,
        entry_ids,
        item_ids: Vec::new(),
        brief: None,
        text: Some(text.to_string()),
        task: None,
        user_goal: None,
        reason: None,
        plan_a: None,
        plan_b: None,
        fallback: None,
        plan_c: None,
        expected_result: None,
        exit_condition: None,
        summary: None,
        completed: None,
        implemented: None,
        steps: None,
        key_info: None,
        result: None,
        exit_reason: None,
        fastmemory_section: None,
        fastmemory_text: None,
    }
}

#[test]
fn matrix_persona_allows_apply_patch_memory_and_full_context_manage() {
    assert!(tool_allowed_for_persona(PersonaKind::Matrix, "apply_patch"));
    assert!(tool_allowed_for_persona(PersonaKind::Matrix, "toolbox_manage"));
    assert!(tool_allowed_for_persona(PersonaKind::Matrix, "memory_add"));
    assert!(tool_allowed_for_persona(PersonaKind::Matrix, "memory_replace"));
    assert!(tool_allowed_for_persona(PersonaKind::Matrix, "task_mode"));
    // {"action":"summary","target":"context","entry_ids":[1],"text":"收口"}
    let summary = context_args("summary", Some("context"), vec![1], "收口");
    assert!(context_manage_allowed_for_persona(PersonaKind::Matrix, Some(&summary)));
    // {"action":"compact","target":"fastcontext","text":"归档"}
    let compact = context_args("compact", Some("fastcontext"), Vec::new(), "归档");
    assert!(context_manage_allowed_for_persona(PersonaKind::Matrix, Some(&compact)));
}

#[test]
fn context_manage_refused_when_arguments_do_not_parse() {
    assert!(!context_manage_allowed_for_persona(PersonaKind::Coding, None));
}

#[test]
fn coding_persona_keeps_to_focus_tools() {
    assert!(tool_allowed_for_persona(PersonaKind::Coding, "apply_patch"));
    assert!(tool_allowed_for_persona(PersonaKind::Coding, "multi_tool_use.parallel"));
    assert!(!tool_allowed_for_persona(PersonaKind::Coding, "memory_add"));
    assert!(!tool_allowed_for_persona(PersonaKind::Server, "spawn_agent"));
    assert!(tool_allowed_for_persona(PersonaKind::Advisor, "spawn_agent"));
    assert!(!tool_allowed_for_persona(PersonaKind::Matrix, "unknown_tool"));
}

#[test]
fn parallel_tools_are_read_only() {
    assert!(parallel_tool_allowed_for_persona(PersonaKind::Matrix, "memory_read"));
    assert!(!parallel_tool_allowed_for_persona(PersonaKind::Matrix, "apply_patch"));
    assert!(parallel_tool_allowed_for_persona(PersonaKind::Coding, "exec_command"));
    assert!(!parallel_tool_allowed_for_persona(PersonaKind::Coding, "view_image"));
}

#[test]
fn parallel_item_action_reads_the_command() {
    assert_eq!(native_parallel_item_action("exec_command", "rg foo src"), "Search");
    assert_eq!(native_parallel_item_action("exec_command", "cat Cargo.toml"), "Read");
    assert_eq!(native_parallel_item_action("exec_command", "cargo test"), "Run");
    assert_eq!(native_parallel_item_action("exec_command", "LS -la"), "Read");
    assert_eq!(native_parallel_item_action("memory_search", ""), "Search");
    assert_eq!(native_parallel_item_action("pty_list", ""), "Read");
    assert_eq!(native_parallel_item_action("apply_patch", "x"), "Run");
}

#[test]
fn provider_names_round_trip() {
    assert_eq!(codex_provider_tool_name("multi_tool_use.parallel"), "multi_tool_use_parallel");
    assert_eq!(codex_provider_tool_name("exec_command"), "exec_command");
    assert_eq!(
        canonicalize_codex_provider_tool_name(codex_provider_tool_name("multi_tool_use.parallel")),
        "multi_tool_use.parallel"
    );
    assert_eq!(canonicalize_codex_provider_tool_name("pty_list"), "pty_list");
}

#[test]
fn recipient_names_lose_the_functions_namespace() {
    assert_eq!(strip_parallel_recipient_name("  functions. exec_command "), "exec_command");
    assert_eq!(strip_parallel_recipient_name("view_image"), "view_image");
}

#[test]
fn default_briefs_name_each_tool() {
    assert_eq!(default_tool_brief("write_stdin"), "继续操作终端");
    assert_eq!(default_tool_brief("shell_command"), "执行终端命令");
    assert_eq!(default_tool_brief("something_else"), "执行工具调用");
}

#[test]
fn agent_ids_and_labels() {
    assert_eq!(parse_agent_numeric_id(" agent-12 "), Some(12));
    assert_eq!(parse_agent_numeric_id("agent-+7"), Some(7));
    assert_eq!(parse_agent_numeric_id("agent-"), None);
    assert_eq!(parse_agent_numeric_id("agent-18446744073709551616"), None);
    assert_eq!(parse_agent_numeric_id("agent-18446744073709551615"), Some(u64::MAX));
    assert_eq!(parse_agent_numeric_id("worker-3"), None);
    assert_eq!(agent_label_text("agent-3"), "#3");
    assert_eq!(agent_label_text("scout"), "scout");
}

#[test]
fn agent_status_json_label_is_the_state_key() {
    assert_eq!(agent_status_json_label(&AgentStatusValue::Completed(Some("ok".to_string()))), "completed");
    assert_eq!(agent_status_json_label(&AgentStatusValue::Errored("x".to_string())), "errored");
    assert_eq!(agent_status_json_label(&AgentStatusValue::NotFound), "not_found");
}

#[test]
fn agent_tool_event_line_formats_apply_patch_with_edit_counts() {
    let line = agent_tool_event_line(
        "apply_patch",
        "",
        "*** Begin Patch\n*** Update File: src/main.rs\n@@\n-old\n+new\n*** End Patch\n",
    );
    assert_eq!(line, "✎ Edit · ./src/main.rs (+1 -1)");
}

#[test]
fn agent_tool_event_line_formats_context_manage_scope() {
    let line = agent_tool_event_line(
        "context_manage",
        "",
        "action: compact\ntarget: fastcontext\ntext: 清理历史摘要",
    );
    assert_eq!(line, "◌ Manage · FastContext / COMPACT");
}

#[test]
fn agent_tool_event_line_formats_task_mode_scope() {
    let line = agent_tool_event_line("task_mode", "", "action: enter\nbrief: 修复启动");
    assert_eq!(line, "◌ Manage · Task / ENTER");
}

#[test]
fn agent_tool_event_line_for_commands_and_other_tools() {
    assert_eq!(agent_tool_event_line("exec_command", "", "rg needle src"), "● Search · needle src");
    assert_eq!(agent_tool_event_line("exec_command", "", "\n  ls  \n"), "○ List · .");
    assert_eq!(agent_tool_event_line("exec_command", "", "git"), "◌ Git · status");
    assert_eq!(agent_tool_event_line("list_agent", "", ""), "◌ List · agents");
    assert_eq!(agent_tool_event_line(" web_search ", "", "rust   verus\nmore"), "◎ Web · rust verus");
    assert_eq!(agent_tool_event_line("custom", "  my brief ", "ignored"), "◌ custom · my brief");
}

#[test]
fn compact_paths_keep_the_last_two_components() {
    assert_eq!(compact_agent_path_display("src/main.rs"), "./src/main.rs");
    assert_eq!(compact_agent_path_display("./a/./b\\c.rs"), "./b/c.rs");
    assert_eq!(compact_agent_path_display("main.rs"), "main.rs");
    assert_eq!(compact_agent_path_display("/"), "/");
}

#[test]
fn event_text_collapses_whitespace_and_caps_length() {
    assert_eq!(normalize_agent_event_text("  a \t b\n c "), "a b c");
    let long = "x".repeat(300);
    let out = normalize_agent_event_text(long.as_str());
    assert_eq!(out.chars().count(), 240);
    assert!(out.ends_with('…'));
}

#[test]
fn context_manage_input_preview_marks_compact_all_scope() {
    let args = context_args("compact", Some("context"), Vec::new(), "全量压缩标准上下文");
    let preview = build_context_manage_input_preview(&args);
    assert!(preview.contains("scope: all"));
    assert!(!preview.contains("entry_ids:"));
    assert!(!preview.contains("item_ids:"));
}
