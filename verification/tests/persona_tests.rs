use projectying::persona::{
    PersonaKind, PersonaSettingsSurface, PersonaSpecRegistry, PersonaThemeFamily, PersonaToolProfile,
};

#[test]
fn persona_specs_cover_all_personas() {
    for persona in PersonaKind::all() {
        let spec = PersonaSpecRegistry::get(persona);
        assert!(!spec.slug.is_empty());
        assert!(!spec.context_dir_name.is_empty());
        assert!(!spec.legacy_context_rel_roots.is_empty());
        let _ = spec.provider_owner;
        let _ = spec.settings_surface;
        let _ = spec.tool_profile;
        assert!(!spec.system_prompt_asset.trim().is_empty());
        assert!(!spec.assistant_en.is_empty());
        assert!(!spec.assistant_zh.is_empty());
        assert!(!spec.tab_title.is_empty());
        assert!(!spec.header_badge.is_empty());
    }
}

#[test]
fn coding_persona_uses_api_only_settings_and_focus_tool_profile() {
    let spec = PersonaSpecRegistry::get(PersonaKind::Coding);
    assert_eq!(spec.settings_surface, PersonaSettingsSurface::ApiOnly);
    assert_eq!(spec.tool_profile, PersonaToolProfile::Focus);
    assert!(spec.system_prompt_asset.contains("当前常驻施工工具"));
    assert!(spec.system_prompt_asset.contains("memory_read target=output"));
    assert!(spec
        .system_prompt_asset
        .contains("`memory/output` 实时流使用 `memory_read target=output`"));
    assert!(spec.system_prompt_asset.contains("ask_user` 不属于 Coding 职责"));
    assert!(spec.system_prompt_asset.contains("联络 Matrix"));
    assert!(!spec.system_prompt_asset.contains("使用 `ask_user`"));
}

#[test]
fn advisor_persona_uses_api_only_settings_and_governance_tool_profile() {
    let spec = PersonaSpecRegistry::get(PersonaKind::Advisor);
    assert_eq!(spec.settings_surface, PersonaSettingsSurface::ApiOnly);
    assert_eq!(spec.tool_profile, PersonaToolProfile::Governance);
    assert!(spec.system_prompt_asset.contains("Matrix · 萤"));
    assert!(spec.system_prompt_asset.contains("上下文、记忆和大回执"));
    assert!(spec.system_prompt_asset.contains("必要时直接修复 prompt/schema"));
    assert!(spec.system_prompt_asset.contains("context_manage target=prompt"));
}

#[test]
fn server_persona_uses_api_only_settings_and_focus_tool_profile() {
    let spec = PersonaSpecRegistry::get(PersonaKind::Server);
    assert_eq!(spec.settings_surface, PersonaSettingsSurface::ApiOnly);
    assert_eq!(spec.tool_profile, PersonaToolProfile::Focus);
    assert_eq!(spec.tab_title, "Server · 御");
}

#[test]
fn persona_contract_exposes_identity_storage_and_capability_views() {
    let contract = PersonaSpecRegistry::get(PersonaKind::Matrix).contract();
    assert_eq!(contract.identity.slug, "matrix");
    assert_eq!(contract.identity.context_dir_name, "Matrix");
    assert_eq!(contract.identity.assistant_zh, "萤");
    assert_eq!(contract.identity.tab_title, "Matrix · 萤");
    assert_eq!(contract.storage.settings_dir_name, Some("matrix"));
    assert!(contract.storage.migrates_root_config_files);
    assert_eq!(contract.capability.provider_owner, PersonaKind::Matrix);
    assert_eq!(contract.capability.settings_surface, PersonaSettingsSurface::Full);
    assert_eq!(contract.capability.tool_profile, PersonaToolProfile::Governance);
    assert!(contract.capability.supports_topbar);
    assert_eq!(contract.theme_family, PersonaThemeFamily::Matrix);
    assert!(contract.system_prompt_asset.contains("Matrix"));
}

#[test]
fn system_prompt_requires_server_management_and_ssh_rules() {
    let prompt = PersonaKind::Server.system_prompt_asset().trim();
    assert!(prompt.contains("Server"));
    assert!(prompt.contains("服务器管理"));
    assert!(prompt.contains("SSH"));
    assert!(prompt.contains("server_manage"));
    assert!(prompt.contains("server_split"));
    assert!(prompt.contains("御A"));
    assert!(prompt.contains("pty_run"));
    assert!(prompt.contains("server_id"));
    assert!(prompt.contains("active_server_id"));
    assert!(prompt.contains("context/Server/"));
    assert!(prompt.contains("state.json"));
    assert!(prompt.contains("askpass"));
    assert!(prompt.contains("密码可在 Settings 与 server_manage 清单中明文显示"));
}

#[test]
fn every_persona_keeps_settings_under_its_slug() {
    for persona in PersonaKind::all() {
        let spec = PersonaSpecRegistry::get(persona);
        assert_eq!(spec.settings_dir_name, Some(spec.slug));
        assert_eq!(spec.provider_owner, PersonaKind::Matrix);
        assert_eq!(spec.supports_topbar, spec.settings_surface == PersonaSettingsSurface::Full);
        assert_eq!(spec.settings_surface.allows_provider_management(), spec.supports_topbar);
    }
}

#[test]
fn system_prompt_asset_matches_registry() {
    for persona in PersonaKind::all() {
        assert_eq!(
            persona.system_prompt_asset(),
            PersonaSpecRegistry::get(persona).system_prompt_asset
        );
    }
}
