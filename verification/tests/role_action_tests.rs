use projectying::persona::PersonaKind;
use projectying::role_actions::{
    parse_role_action, role_copy_action, role_create_action, role_list_action, role_remove_action,
    role_action_of, role_removed_preview, role_tools_action, role_update_action, RoleAction, RoleActionError, ToolChange,
};
use projectying::roles::{ContextGovernanceSpec, DynamicRoleDraft, DynamicRoleSpec, RoleCopySource, RoleError, RoleRegistryFile};

fn role(id: &str) -> DynamicRoleSpec {
    DynamicRoleSpec {
        id: id.to_string(),
        display_name: id.to_string(),
        glyph: None,
        context_dir: format!("Role_{id}"),
        base_persona: Some("coding".to_string()),
        copy_source: None,
        default_tools: vec!["persona_manage".to_string()],
        managed_role_ids: Vec::new(),
        enabled: true,
        context_governance: ContextGovernanceSpec::default(),
        created_at_ms: 1,
        updated_at_ms: 1,
    }
}

fn draft() -> DynamicRoleDraft {
    DynamicRoleDraft {
        id: None,
        display_name: None,
        glyph: None,
        context_dir: None,
        base_persona: None,
        copy_from: None,
        default_tools: None,
        managed_role_ids: None,
        prompt: None,
        enabled: None,
        context_governance: None,
    }
}

fn strings(items: &[&str]) -> Vec<String> {
    items.iter().map(|s| s.to_string()).collect()
}

fn registry() -> RoleRegistryFile {
    RoleRegistryFile { version: 1, roles: vec![role("alpha"), role("beta")] }
}

#[test]
fn role_actions_are_read_by_name() {
    assert_eq!(parse_role_action(" LIST_ROLES "), Some(RoleAction::List));
    assert_eq!(parse_role_action("clone_persona"), Some(RoleAction::Copy));
    assert_eq!(parse_role_action("role_add_tools"), Some(RoleAction::ToolAdd));
    assert_eq!(parse_role_action("remove_role_tools"), Some(RoleAction::ToolRemove));
    assert_eq!(parse_role_action("role_update"), Some(RoleAction::Update));
    assert_eq!(parse_role_action("role_drop"), None);
}

#[test]
fn listing_changes_nothing() {
    let reg = registry();
    let out = role_list_action(&reg, "role_list");
    assert_eq!(out.model_lines[0], "tool_manage:ok");
    assert_eq!(out.model_lines[1], "action:ROLE_LIST");
    assert!(out.model_lines.len() > 2);
    assert!(out.output_preview.starts_with("roles:"));
    assert!(out.layout.is_none());
}

#[test]
fn creating_adds_a_role_once() {
    let mut reg = registry();
    assert_eq!(
        role_create_action(&mut reg, "role_create", None, &Vec::new(), 5).err(),
        Some(RoleActionError::MissingRole("role_create".to_string()))
    );
    let mut d = draft();
    d.id = Some("Gamma".to_string());
    d.prompt = Some("be brief".to_string());
    let out = role_create_action(&mut reg, "create_role", Some(d.clone()), &strings(&["memory_read"]), 5).expect("created");
    assert_eq!(out.model_lines, strings(&["tool_manage:ok", "action:CREATE_ROLE", "role:gamma", "context_dir:context/Role_gamma"]));
    assert!(out.output_preview.starts_with("created: gamma\nlabel: "));
    assert!(out.output_preview.ends_with("\ncontext: context/Role_gamma\ntools: memory_read, persona_manage"));
    let (created, prompt) = out.layout.expect("layout");
    assert_eq!(created.id, "gamma");
    assert_eq!(prompt.as_deref(), Some("be brief"));
    let ids: Vec<&str> = reg.roles.iter().map(|r| r.id.as_str()).collect();
    assert_eq!(ids, vec!["alpha", "beta", "gamma"]);
    assert_eq!(
        role_create_action(&mut reg, "role_create", Some(d), &Vec::new(), 6).err(),
        Some(RoleActionError::Exists("gamma".to_string()))
    );
    let mut clash = draft();
    clash.id = Some("delta".to_string());
    clash.context_dir = Some("role_ALPHA".to_string());
    assert_eq!(
        role_create_action(&mut reg, "role_create", Some(clash), &Vec::new(), 6).err(),
        Some(RoleActionError::ContextDirExists("role_ALPHA".to_string()))
    );
    assert_eq!(reg.roles.len(), 3);
}

#[test]
fn tools_are_added_and_removed() {
    let mut reg = registry();
    assert_eq!(
        role_tools_action(&mut reg, "role_tool_add", ToolChange::Add, None, &strings(&["beta"]), &Vec::new(), 9).err(),
        Some(RoleActionError::MissingToolIds("role_tool_add".to_string()))
    );
    let out = role_tools_action(
        &mut reg,
        "role_tool_add",
        ToolChange::Add,
        None,
        &strings(&["beta"]),
        &strings(&["memory_read", " memory_read ", "exec_command"]),
        9,
    )
    .expect("added");
    assert_eq!(out.output_preview, "role: beta\nadded: memory_read, exec_command, persona_manage\ntools: persona_manage, memory_read, exec_command");
    assert_eq!(reg.roles[1].default_tools, strings(&["persona_manage", "memory_read", "exec_command"]));
    assert_eq!(reg.roles[1].updated_at_ms, 9);
    let out = role_tools_action(
        &mut reg,
        "role_tool_remove",
        ToolChange::Remove,
        None,
        &strings(&["beta"]),
        &strings(&["memory_read"]),
        10,
    )
    .expect("removed");
    assert_eq!(out.model_lines[2], "role:beta");
    assert_eq!(reg.roles[1].default_tools, strings(&["exec_command", "persona_manage"]));
    assert!(out.output_preview.ends_with("\ntools: exec_command"));
    assert_eq!(
        role_tools_action(&mut reg, "x", ToolChange::Add, None, &strings(&["nobody"]), &strings(&["a"]), 1).err(),
        Some(RoleActionError::NotFound("nobody".to_string()))
    );
}

#[test]
fn removing_takes_named_roles_out() {
    let mut reg = registry();
    assert_eq!(
        role_remove_action(&mut reg, "role_remove", None, &strings(&["zeta"]), 3).err(),
        Some(RoleActionError::NothingToRemove("zeta".to_string()))
    );
    assert_eq!(
        role_remove_action(&mut reg, "role_remove", None, &strings(&["9x"]), 3).err(),
        Some(RoleActionError::Role(RoleError::BadIdStart))
    );
    let out = role_remove_action(&mut reg, "remove_role", None, &strings(&["Alpha", "zeta"]), 3).expect("removed");
    assert_eq!(out.model_lines[2], "roles:alpha");
    assert_eq!(out.removed.len(), 1);
    assert_eq!(reg.roles.len(), 1);
    assert_eq!(reg.roles[0].id, "beta");
    assert_eq!(role_removed_preview(&strings(&["alpha"]), &Vec::new()), "removed: alpha\ndeleted:\n(none)");
    assert_eq!(
        role_removed_preview(&strings(&["a", "b"]), &strings(&["context/Role_a", "memory/Role_a"])),
        "removed: a, b\ndeleted:\ncontext/Role_a\nmemory/Role_a"
    );
}

#[test]
fn updating_sets_the_given_fields() {
    let mut reg = registry();
    let mut d = draft();
    d.id = Some("beta".to_string());
    d.display_name = Some("贝塔".to_string());
    d.context_dir = Some("Role_alpha".to_string());
    assert_eq!(
        role_update_action(&mut reg, "role_update", Some(d.clone()), &Vec::new(), 4).err(),
        Some(RoleActionError::ContextDirTaken("Role_alpha".to_string()))
    );
    d.context_dir = Some("Beta_Home".to_string());
    d.default_tools = Some(strings(&["exec_command"]));
    let out = role_update_action(&mut reg, "role_update", Some(d), &Vec::new(), 4).expect("updated");
    assert_eq!(out.updated.display_name, "贝塔");
    assert_eq!(out.updated.context_dir, "Beta_Home");
    assert_eq!(out.updated.updated_at_ms, 4);
    assert_eq!(out.old_context_dir, "Role_beta");
    assert!(out.output_preview.starts_with("updated: beta\nlabel: "));
    assert!(out.output_preview.ends_with("\ntools: exec_command, persona_manage\nmanaged_roles: (none)"));
    assert_eq!(reg.roles[1].context_dir, "Beta_Home");
    let mut missing = draft();
    missing.id = Some("omega".to_string());
    assert_eq!(
        role_update_action(&mut reg, "role_update", Some(missing), &Vec::new(), 4).err(),
        Some(RoleActionError::NotFound("omega".to_string()))
    );
}

#[test]
fn copying_adds_the_next_copy() {
    let mut reg = registry();
    let source = RoleCopySource {
        source_key: "coding".to_string(),
        base_persona: PersonaKind::Coding,
        family_prefix: "coding".to_string(),
        label_prefix: "Coding".to_string(),
        glyph: Some("绫".to_string()),
        default_tools: strings(&["exec_command"]),
        prompt: "source prompt".to_string(),
        enabled: true,
        context_governance: ContextGovernanceSpec::default(),
        managed_role_ids: Vec::new(),
    };
    let out = role_copy_action(&mut reg, "role_copy", draft(), source, 8).expect("copied");
    assert_eq!(out.model_lines[2], "role:coding_a");
    assert_eq!(out.model_lines[4], "copy_source:coding");
    let (created, prompt) = out.layout.expect("layout");
    assert_eq!(created.id, "coding_a");
    assert_eq!(prompt.as_deref(), Some("source prompt"));
    assert!(out.output_preview.starts_with("copied: coding_a\nlabel: "));
    assert!(out.output_preview.contains("\nsource: coding\ntools: exec_command, persona_manage\nmanaged_roles: (none)"));
    assert_eq!(reg.roles.len(), 3);
}

#[test]
fn role_action_of_refuses_unknown_names() {
    assert_eq!(role_action_of("  Role_List "), Ok(RoleAction::List));
    let err = role_action_of("  Role_Dance ").unwrap_err();
    assert_eq!(err, RoleActionError::UnsupportedAction("role_dance".to_string()));
    assert_eq!(err.message(), "不支持的动态角色 tool_manage.action：role_dance");
    assert_eq!(RoleActionError::MissingCopySource.message(), "role_copy 需要 role.copy_from");
}
