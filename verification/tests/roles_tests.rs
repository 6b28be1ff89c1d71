use projectying::persona::PersonaKind;
use projectying::roles::{
    build_copy_role_spec, default_role_prompt, find_role_in, governance_catalog_from_registry,
    normalize_context_dir, normalize_display_name, normalize_glyph, normalize_managed_role_ids, normalize_registry,
    normalize_role_id, normalize_tool_ids, registry_list_preview, role_from_create_draft, role_id_from_inputs,
    strip_copy_suffix, visible_role_tabs_from, ContextGovernanceSpec, DynamicRoleDraft, DynamicRoleSpec,
    RoleCopySource, RoleError, RoleRegistryFile,
};

fn role_for_test(id: &str, enabled: bool) -> DynamicRoleSpec {
    DynamicRoleSpec {
        id: id.to_string(),
        display_name: id.to_string(),
        glyph: None,
        context_dir: format!("Role_{id}"),
        base_persona: Some("matrix".to_string()),
        copy_source: None,
        default_tools: vec!["persona_manage".to_string()],
        managed_role_ids: Vec::new(),
        enabled,
        context_governance: ContextGovernanceSpec::default(),
        created_at_ms: 0,
        updated_at_ms: 0,
    }
}

fn empty_draft() -> DynamicRoleDraft {
    DynamicRoleDraft {
        id: None,
        display_name: None,
        glyph: None,
        context_dir: None,
        base_persona: None,
        copy_from: None,
        default_tools: None,
        managed_role_ids: None,
        prompt: None,
        enabled: None,
        context_governance: None,
    }
}

fn strings(items: &[&str]) -> Vec<String> {
    items.iter().map(|s| s.to_string()).collect()
}

#[test]
fn role_title_does_not_duplicate_same_glyph_and_display_name() {
    let role = DynamicRoleSpec {
        id: "observe_probe".to_string(),
        display_name: "观".to_string(),
        glyph: Some("观".to_string()),
        context_dir: "Role_observe_probe".to_string(),
        base_persona: Some("matrix".to_string()),
        copy_source: None,
        default_tools: vec!["memory_read".to_string()],
        managed_role_ids: Vec::new(),
        enabled: true,
        context_governance: ContextGovernanceSpec::default(),
        created_at_ms: 0,
        updated_at_ms: 0,
    };
    assert_eq!(role.contract().identity.title, "观");
}

#[test]
fn dynamic_role_contract_normalizes_identity_storage_and_capability_views() {
    let role = DynamicRoleSpec {
        id: "worker".to_string(),
        display_name: "工".to_string(),
        glyph: Some("工".to_string()),
        context_dir: "Role_worker".to_string(),
        base_persona: Some("matrix".to_string()),
        copy_source: None,
        default_tools: vec!["memory_check".to_string(), "persona_manage".to_string()],
        managed_role_ids: Vec::new(),
        enabled: true,
        context_governance: ContextGovernanceSpec::default(),
        created_at_ms: 0,
        updated_at_ms: 0,
    };
    let contract = role.contract();
    assert_eq!(contract.identity.id, "worker");
    assert_eq!(contract.identity.display_name, "工");
    assert_eq!(contract.identity.glyph.as_deref(), Some("工"));
    assert_eq!(contract.identity.tab_label, "工");
    assert_eq!(contract.identity.title, "工");
    assert_eq!(contract.identity.header_badge, "工");
    assert_eq!(contract.identity.assistant_en, "worker");
    assert_eq!(contract.identity.assistant_zh, "工");
    assert_eq!(contract.storage.context_dir, "Role_worker");
    assert_eq!(contract.storage.memory_dir, "Role_worker");
    assert_eq!(contract.capability.base_persona, PersonaKind::Matrix);
    assert_eq!(
        contract.capability.default_tools,
        vec!["memory_check".to_string(), "persona_manage".to_string()]
    );
    assert!(contract.capability.enabled);
    assert!(!contract.capability.supports_topbar);
}

#[test]
fn governance_catalog_marks_visible_tabs_without_truncating_enabled_catalog() {
    let mut roles = vec![role_for_test("disabled_00", false)];
    roles.extend((0..16).map(|idx| role_for_test(format!("role_{idx:02}").as_str(), true)));
    let registry = RoleRegistryFile { version: 1, roles };
    let catalog = governance_catalog_from_registry(&registry);

    assert_eq!(catalog.entries.len(), 17);
    assert_eq!(catalog.entries.iter().filter(|entry| entry.enabled).count(), 16);
    assert_eq!(catalog.entries.iter().filter(|entry| entry.visible_tab).count(), 15);
    assert!(catalog.entries.iter().any(|entry| entry.id == "role_15" && entry.enabled && !entry.visible_tab));
    assert_eq!(catalog.visible_tabs_total(), 15);
    assert_eq!(catalog.hidden_enabled_roles_total(), 1);
    assert_eq!(visible_role_tabs_from(&registry).len(), 15);
}

#[test]
fn role_ids_are_normalized_or_refused() {
    assert_eq!(normalize_role_id("  Ops-Bridge "), Ok("ops_bridge".to_string()));
    assert_eq!(normalize_role_id("   "), Err(RoleError::EmptyId));
    assert_eq!(normalize_role_id("9lives"), Err(RoleError::BadIdStart));
    assert_eq!(normalize_role_id("a b"), Err(RoleError::BadIdChars));
    assert_eq!(normalize_role_id(&"a".repeat(49)), Err(RoleError::BadIdChars));
    assert_eq!(normalize_role_id(&"a".repeat(48)), Ok("a".repeat(48)));
    assert_eq!(normalize_role_id("Server"), Err(RoleError::IdIsPersona("server".to_string())));
}

#[test]
fn names_glyphs_and_directories() {
    assert_eq!(normalize_display_name(" 运营\n桥\t "), "运营 桥");
    assert_eq!(normalize_display_name(&"字".repeat(40)).chars().count(), 32);
    assert_eq!(normalize_glyph("  Ops 桥AB9x "), Some("桥AB".to_string()));
    assert_eq!(normalize_glyph("abc"), None);
    assert_eq!(normalize_context_dir(None, "ops"), Ok("Role_ops".to_string()));
    assert_eq!(normalize_context_dir(Some("  "), "ops"), Ok("Role_ops".to_string()));
    assert_eq!(normalize_context_dir(Some("a/b"), "ops"), Err(RoleError::ContextDirPath("a/b".to_string())));
    assert_eq!(normalize_context_dir(Some("coding"), "ops"), Err(RoleError::ContextDirReserved("coding".to_string())));
}

#[test]
fn id_lists_keep_each_item_once() {
    assert_eq!(normalize_tool_ids(&strings(&[" a ", "b", "a", ""])), strings(&["a", "b", "persona_manage"]));
    assert_eq!(normalize_tool_ids(&strings(&["persona_manage", "x"])), strings(&["persona_manage", "x"]));
    assert_eq!(normalize_managed_role_ids(&strings(&["Ops", "ops", "dev"])), Ok(strings(&["ops", "dev"])));
    assert_eq!(normalize_managed_role_ids(&strings(&["ops", "1x"])), Err(RoleError::BadIdStart));
    assert_eq!(strip_copy_suffix("coding_b"), "coding");
    assert_eq!(strip_copy_suffix("Coding A"), "Coding");
    assert_eq!(strip_copy_suffix("worker"), "worker");
    assert_eq!(strip_copy_suffix("_a"), "_a");
}

#[test]
fn created_roles_follow_the_draft() {
    let mut draft = empty_draft();
    draft.display_name = Some("运营 桥".to_string());
    draft.id = Some("Ops-Bridge".to_string());
    draft.base_persona = Some("Advisor".to_string());
    draft.context_governance = Some(ContextGovernanceSpec {
        mode: "Vision".to_string(),
        manage_threshold_kb: 5,
        compact_threshold_kb: 9000,
        report_to_matrix: false,
    });
    let role = role_from_create_draft(draft, &strings(&["memory_read"]), 42).expect("create");
    assert_eq!(role.id, "ops_bridge");
    assert_eq!(role.display_name, "运营 桥");
    assert_eq!(role.context_dir, "Role_ops_bridge");
    assert_eq!(role.base_persona.as_deref(), Some("advisor"));
    assert_eq!(role.default_tools, strings(&["memory_read", "persona_manage", "context_vision", "context_compact"]));
    assert_eq!(role.context_governance.mode, "vision_compact");
    assert_eq!(role.context_governance.manage_threshold_kb, 32);
    assert_eq!(role.context_governance.compact_threshold_kb, 4096);
    assert_eq!(role.created_at_ms, 42);
    assert!(role.enabled);

    assert_eq!(role_from_create_draft(empty_draft(), &Vec::new(), 1), Err(RoleError::MissingIdentity));
    let mut crowded = empty_draft();
    crowded.id = Some("lead".to_string());
    crowded.base_persona = Some("advisor".to_string());
    crowded.managed_role_ids = Some(strings(&["a", "b", "c", "d", "e"]));
    assert_eq!(
        role_from_create_draft(crowded, &Vec::new(), 1),
        Err(RoleError::TooManyManaged { id: "lead".to_string(), count: 5 })
    );
}

#[test]
fn copies_take_the_next_free_suffix() {
    let mut registry = RoleRegistryFile { version: 1, roles: vec![role_for_test("coding_a", true)] };
    registry.roles[0].display_name = "Coding A".to_string();
    let source = RoleCopySource {
        source_key: "coding".to_string(),
        base_persona: PersonaKind::Coding,
        family_prefix: "coding".to_string(),
        label_prefix: "Coding".to_string(),
        glyph: Some("绫".to_string()),
        default_tools: strings(&["exec_command"]),
        prompt: "p".to_string(),
        enabled: true,
        context_governance: ContextGovernanceSpec::default(),
        managed_role_ids: Vec::new(),
    };
    let copy = build_copy_role_spec(&registry, source.clone(), empty_draft(), 7).expect("copy");
    assert_eq!(copy.id, "coding_b");
    assert_eq!(copy.display_name, "Coding B");
    assert_eq!(copy.glyph.as_deref(), Some("绫"));
    assert_eq!(copy.copy_source.as_deref(), Some("coding"));
    assert_eq!(copy.base_persona.as_deref(), Some("coding"));
    assert_eq!(copy.default_tools, strings(&["exec_command", "persona_manage"]));

    registry.roles.push(role_for_test("coding_b", true));
    registry.roles.push(role_for_test("coding_c", true));
    assert_eq!(
        build_copy_role_spec(&registry, source, empty_draft(), 7),
        Err(RoleError::CopiesExhausted("Coding".to_string()))
    );
}

#[test]
fn registries_normalize_to_sorted_unique_roles() {
    let mut registry = RoleRegistryFile {
        version: 0,
        roles: vec![role_for_test("zeta", true), role_for_test("alpha", true), role_for_test("zeta", false)],
    };
    normalize_registry(&mut registry, 5).expect("normalize");
    assert_eq!(registry.version, 1);
    let ids: Vec<&str> = registry.roles.iter().map(|r| r.id.as_str()).collect();
    assert_eq!(ids, vec!["alpha", "zeta"]);
    assert!(registry.roles[1].enabled);
    assert_eq!(registry.roles[0].created_at_ms, 5);

    let mut clash = RoleRegistryFile { version: 1, roles: vec![role_for_test("one", true), role_for_test("two", true)] };
    clash.roles[1].context_dir = "ROLE_ONE".to_string();
    assert_eq!(normalize_registry(&mut clash, 5), Err(RoleError::DuplicateContextDir("ROLE_ONE".to_string())));
    assert!(clash.roles.is_empty());
}

#[test]
fn role_lookups_and_texts() {
    let mut registry = RoleRegistryFile { version: 1, roles: vec![role_for_test("worker", true)] };
    registry.roles[0].glyph = Some("工".to_string());
    assert_eq!(find_role_in(&registry, " WORKER ").map(|r| r.id), Some("worker".to_string()));
    assert_eq!(find_role_in(&registry, "工").map(|r| r.id), Some("worker".to_string()));
    assert_eq!(find_role_in(&registry, "  "), None);
    assert_eq!(role_id_from_inputs(None, &strings(&["Worker"])), Ok("worker".to_string()));
    assert_eq!(role_id_from_inputs(None, &Vec::new()), Err(RoleError::MissingRoleTarget));

    let preview = registry_list_preview(&registry);
    assert!(preview.starts_with("roles:\nregistry_version: 1\ncolumns:"));
    assert!(preview.contains(
        "- worker · 工 worker · matrix · persona_manage · context/Role_worker · memory/Role_worker · tab · advisor_managed(800/1000) · copy:(none) · managed:(none)"
    ));
    let empty = registry_list_preview(&RoleRegistryFile { version: 1, roles: Vec::new() });
    assert!(empty.ends_with("\n- (empty)"));

    let lines = governance_catalog_from_registry(&registry).model_summary_lines();
    assert_eq!(lines[0], "registry_version:1");
    assert_eq!(lines[5], "role_ids:worker");
    assert!(lines[6].starts_with("role:worker display_name=worker glyph=工 copy_source= title=工 worker"));

    let prompt = default_role_prompt(&registry.roles[0]);
    assert!(prompt.starts_with("你是 ProjectYing 动态角色：worker（worker）。\n"));
    assert!(prompt.contains("Matrix 是多角色系统的母体主控"));
}
