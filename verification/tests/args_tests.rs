use projectying::agent_args::{
    build_structured_agent_input_preview, derive_spawn_agent_brief, structured_item_preview,
    validate_structured_agent_input, AgentArgsError, PtyKillArgs, SingleAgentArgs, SpawnAgentArgs,
    StructuredInputItemArgs,
};
use projectying::memory_args::{
    build_memory_add_input_preview, build_memory_read_input_preview, build_memory_replace_input_preview,
    build_memory_search_input_preview, resolve_memory_add_brief, resolve_memory_check_brief,
    resolve_memory_read_brief, resolve_memory_replace_brief, MemoryAddArgs, MemoryCheckArgs, MemoryEntryArgs,
    MemoryReadArgs, MemoryReplaceArgs, MemorySearchArgs,
};

fn entry(date: &str, title: Option<&str>, content: &str) -> MemoryEntryArgs {
    MemoryEntryArgs {
        date: date.to_string(),
        title: title.map(str::to_string),
        keywords: vec![],
        summary: None,
        content: content.to_string(),
        evidence_entry_ids: vec![],
    }
}

fn item(kind: Option<&str>, text: Option<&str>, path: Option<&str>, name: Option<&str>) -> StructuredInputItemArgs {
    StructuredInputItemArgs {
        item_type: kind.map(str::to_string),
        text: text.map(str::to_string),
        image_url: None,
        path: path.map(str::to_string),
        name: name.map(str::to_string),
    }
}

#[test]
fn memory_add_brief_names_the_dates_it_writes() {
    let one = MemoryAddArgs { brief: None, entries: vec![entry(" 2026-03-28 ", None, "x")], clear_context: false };
    assert_eq!(resolve_memory_add_brief(&one), "写入 2026-03-28 日记");
    let two = MemoryAddArgs {
        brief: None,
        entries: vec![entry("2026-03-27", None, "x"), entry("2026-03-28", None, "y")],
        clear_context: false,
    };
    assert_eq!(resolve_memory_add_brief(&two), "写入 2026-03-27 / 2026-03-28 日记");
    let none = MemoryAddArgs { brief: None, entries: vec![], clear_context: false };
    assert_eq!(resolve_memory_add_brief(&none), "写入长期记忆日记");
    let given = MemoryAddArgs { brief: Some(" 记下 ".to_string()), entries: vec![], clear_context: false };
    assert_eq!(resolve_memory_add_brief(&given), "记下");
}

#[test]
fn memory_add_preview_lists_at_most_four_entries() {
    let entries = (1..=6).map(|i| entry("2026-03-28", Some(&format!("t{i}")), "c")).collect();
    let args = MemoryAddArgs { brief: None, entries, clear_context: true };
    let preview = build_memory_add_input_preview(&args);
    let lines: Vec<&str> = preview.lines().collect();
    assert_eq!(lines[0], "entries: 6");
    assert_eq!(lines[1], "clear_context: true");
    assert_eq!(lines.len(), 2 + 4 + 1);
    assert_eq!(lines[6], "... +2 entries");
}

#[test]
fn memory_replace_brief_and_preview() {
    let args = MemoryReplaceArgs {
        entry_id: 12,
        date: " 2026-03-28 ".to_string(),
        title: None,
        keywords: vec![],
        summary: None,
        content: "  new text ".to_string(),
        evidence_entry_ids: vec![3, 4],
        brief: None,
    };
    assert_eq!(resolve_memory_replace_brief(&args), "替换日记 #12");
    let preview = build_memory_replace_input_preview(&args);
    assert!(preview.starts_with("entry_id: 12\ndate: 2026-03-28\ncontent: new text"));
    assert!(preview.contains("evidence_entry_ids: "));
}

#[test]
fn memory_check_and_read_briefs_use_the_target() {
    let check = MemoryCheckArgs {
        target: " datememory ".to_string(),
        keywords: vec![],
        scope: None,
        date: None,
        start_date: None,
        end_date: None,
        tool_ref: None,
        limit: None,
        brief: None,
    };
    assert_eq!(resolve_memory_check_brief(&check), "检索 datememory");
    let read = MemoryReadArgs {
        target: "datememory".to_string(),
        date: Some(" 2026-03-28 ".to_string()),
        tool_ref: None,
        entry_id: Some(5),
        entry_start_id: None,
        entry_end_id: None,
        line_start: None,
        line_end: Some(40),
        brief: None,
    };
    assert_eq!(resolve_memory_read_brief(&read), "读取 datememory");
    assert_eq!(
        build_memory_read_input_preview(&read),
        "target: datememory\nentry_id: 5\ndate: 2026-03-28\nline_end: 40"
    );
}

#[test]
fn memory_search_preview_keeps_dates_and_limit() {
    let args = MemorySearchArgs {
        target: "datememory".to_string(),
        keywords: vec!["a".to_string(), "b".to_string()],
        start_date: "2026-03-01".to_string(),
        end_date: "2026-03-28".to_string(),
        limit: Some(3),
        brief: None,
    };
    assert_eq!(
        build_memory_search_input_preview(&args),
        "target: datememory\nkeywords: a, b\nstart_date: 2026-03-01\nend_date: 2026-03-28\nlimit: 3"
    );
}

#[test]
fn agent_ids_are_trimmed_sorted_and_deduplicated() {
    let args = SingleAgentArgs { id: Some(" b ".to_string()), ids: vec!["a".to_string(), "b".to_string(), " ".to_string()] };
    assert_eq!(args.resolved_ids(), Ok(vec!["a".to_string(), "b".to_string()]));
    let none = SingleAgentArgs { id: None, ids: vec!["  ".to_string()] };
    assert_eq!(none.resolved_ids(), Err(AgentArgsError::NoAgents));
    assert_eq!(AgentArgsError::NoAgents.message(), "agent 参数不能为空");
}

#[test]
fn session_ids_are_sorted_and_deduplicated() {
    let args = PtyKillArgs { session_id: Some(4), session_ids: vec![9, 4, 1] };
    assert_eq!(args.resolved_session_ids(), Ok(vec![1, 4, 9]));
    let none = PtyKillArgs { session_id: None, session_ids: vec![] };
    assert_eq!(none.resolved_session_ids(), Err(AgentArgsError::NoSessions));
    assert_eq!(AgentArgsError::NoSessions.message(), "pty_kill 需要 session_id 或 session_ids");
}

#[test]
fn structured_input_needs_exactly_one_of_message_and_items() {
    let items = Some(vec![item(None, Some("hi"), None, None)]);
    assert_eq!(validate_structured_agent_input(&Some("m".to_string()), &items), Err(AgentArgsError::MessageAndItems));
    assert_eq!(validate_structured_agent_input(&Some("  ".to_string()), &None), Err(AgentArgsError::NoInput));
    assert_eq!(validate_structured_agent_input(&None, &Some(vec![])), Err(AgentArgsError::NoInput));
    assert_eq!(validate_structured_agent_input(&None, &items), Ok(()));
}

#[test]
fn structured_items_preview_by_kind() {
    let p = |it: StructuredInputItemArgs| structured_item_preview(&it).into_iter().collect::<String>();
    assert_eq!(p(item(None, Some("hello"), None, None)), "hello");
    assert_eq!(p(item(Some("local_image"), None, Some("/tmp/a.png"), None)), "[local_image:/tmp/a.png]");
    assert_eq!(p(item(Some("skill"), None, Some("s.md"), Some("sk"))), "[skill:sk:s.md]");
    assert_eq!(p(item(Some("other"), None, None, None)), "[other]");
    let items = Some(vec![item(None, Some("one"), None, None), item(Some("mention"), None, Some("p"), Some("n"))]);
    assert_eq!(build_structured_agent_input_preview(&None, &items), "one\n[mention:n:p]");
    assert_eq!(build_structured_agent_input_preview(&None, &Some(vec![item(None, Some(" "), None, None)])), "(empty)");
}

#[test]
fn spawn_brief_names_the_agent_type_and_input_head() {
    let args = SpawnAgentArgs {
        message: Some("look at the logs".to_string()),
        items: None,
        agent_type: Some(" explorer ".to_string()),
        fork_context: false,
        model: None,
        reasoning_effort: None,
    };
    assert_eq!(derive_spawn_agent_brief(&args), "启动 explorer · look at the logs");
    let plain = SpawnAgentArgs { agent_type: None, ..args };
    assert_eq!(derive_spawn_agent_brief(&plain), "启动 子代理 · look at the logs");
}
