use projectying::roles::RoleError;
use projectying::targets::{
    parse_context_role, parse_context_target, parse_fastmemory_section, parse_memory_scope_fields,
    parse_memory_target, ContextRole, ContextTarget, DateMemoryScope, FastMemorySection, MemoryTarget, TargetError,
};

#[test]
fn context_targets_accept_their_aliases_in_any_case() {
    assert_eq!(parse_context_target(Some(" Context ")), Ok(ContextTarget::Context));
    assert_eq!(parse_context_target(Some("TASK_CONTEXT")), Ok(ContextTarget::FocusContext));
    assert_eq!(parse_context_target(Some("toolcontext")), Ok(ContextTarget::FocusContext));
    assert_eq!(parse_context_target(Some("fast_memory")), Ok(ContextTarget::FastMemory));
    assert_eq!(parse_context_target(Some("FastContext")), Ok(ContextTarget::FastContext));
    assert_eq!(parse_context_target(Some("advice_board")), Ok(ContextTarget::AdviceBoard));
    let err = parse_context_target(Some(" Other ")).unwrap_err();
    assert_eq!(err, TargetError::ContextTarget("other".to_string()));
    assert_eq!(err.message(), "不支持的 context target：other");
    assert_eq!(parse_context_target(None), Err(TargetError::ContextTarget(String::new())));
}

#[test]
fn sections_roles_and_stores() {
    assert_eq!(parse_fastmemory_section(Some("self")), Ok(FastMemorySection::SelfState));
    assert_eq!(parse_fastmemory_section(Some("EVENT")), Ok(FastMemorySection::Event));
    assert_eq!(
        parse_fastmemory_section(Some("x")).unwrap_err().message(),
        "不支持的 fastmemory section：x"
    );
    assert_eq!(parse_context_role(Some("Assistant")), Ok(ContextRole::Assistant));
    assert_eq!(parse_context_role(None).unwrap_err().message(), "不支持的 context role：");
    assert_eq!(parse_memory_target(" ToolMemory "), Ok(MemoryTarget::ToolMemory));
    assert_eq!(parse_memory_target("notes").unwrap_err().message(), "不支持的 memory target：notes");
}

#[test]
fn memory_scope_needs_both_ends_when_custom() {
    assert_eq!(parse_memory_scope_fields(None, None, None), Ok(None));
    assert_eq!(parse_memory_scope_fields(Some("Recent"), None, None), Ok(Some(DateMemoryScope::Recent)));
    assert_eq!(
        parse_memory_scope_fields(Some("custom"), Some("2026-03-01"), Some("2026-03-28")),
        Ok(Some(DateMemoryScope::Custom {
            start_date: "2026-03-01".to_string(),
            end_date: "2026-03-28".to_string()
        }))
    );
    let e = parse_memory_scope_fields(Some("custom"), None, Some("x")).unwrap_err();
    assert_eq!(e.message(), "scope=custom 需要 start_date");
    let e = parse_memory_scope_fields(Some("custom"), Some("x"), None).unwrap_err();
    assert_eq!(e.message(), "scope=custom 需要 end_date");
    let e = parse_memory_scope_fields(Some("Later"), None, None).unwrap_err();
    assert_eq!(e.message(), "不支持的 memory scope：later");
}

#[test]
fn role_errors_read_as_messages() {
    assert_eq!(RoleError::EmptyId.message(), "role.id 不能为空");
    assert_eq!(
        RoleError::TooManyManaged { id: "si".to_string(), count: 5 }.message(),
        "一个司最多管理 4 个角色上下文；si 当前配置了 5 个"
    );
    assert_eq!(RoleError::CopiesExhausted("编程".to_string()).message(), "编程 已达到最多可复制的上限 3 个");
    assert_eq!(
        RoleError::DuplicateContextDir("dir".to_string()).message(),
        "动态角色 context_dir 重复：dir"
    );
}
