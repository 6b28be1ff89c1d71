//! The personas of the assistant: who each one is, where it keeps its files,
//! what it may change, and the system prompt it starts from.
use vstd::prelude::*;

use crate::text::{chars_eq_str, is_ws, lower_chars, lower_spec, str_chars, trim_chars, trim_end_spec, trim_spec, trim_start_spec};

verus! {

#[derive(Debug, Clone, Copy, PartialEq, Eq, Structural)]
pub enum PersonaKind {
    Matrix,
    Advisor,
    Coding,
    Server,
}

#[derive(Debug, Clone, Copy, PartialEq, Eq, Structural)]
pub enum PersonaSettingsSurface {
    Full,
    ApiOnly,
}

impl PersonaSettingsSurface {
    /// Only the full settings surface manages providers.
    pub fn allows_provider_management(self) -> (r: bool)
        ensures
            r == (self == PersonaSettingsSurface::Full),
    {
        match self {
            PersonaSettingsSurface::Full => true,
            PersonaSettingsSurface::ApiOnly => false,
        }
    }
}

#[derive(Debug, Clone, Copy, PartialEq, Eq, Structural)]
pub enum PersonaToolProfile {
    Governance,
    Focus,
}

#[derive(Debug, Clone, Copy, PartialEq, Eq, Structural)]
pub enum PersonaThemeFamily {
    Matrix,
    Coding,
}

// The four prompt texts below are short placeholders: the personas' full
// prompts live in their `context/<Persona>/prompt.txt` files, which are not
// part of this library. Each placeholder holds the lines that the persona's
// prompt is required to carry, and nothing here depends on more of them.

/// The placeholder prompt of Matrix (see the note above).
pub const MATRIX_PROMPT: &'static str = "你是 Matrix · 萤，ProjectYing 的主控人格。\n\
你负责统筹：理解用户目标，拆解任务，调度工具、子代理与其他人格，并对最终结果负责。\n\
工具：exec_command、write_stdin、apply_patch、update_plan、task_mode、context_manage、memory_*、spawn_agent 等。\n\
上下文、记忆和大回执由你治理；长输出先归档再引用 entry_id，不要把原文反复贴回对话。\n\
遇到危险命令（删除、关机、磁盘覆盖、硬件层指令）时先说明风险，安全模式下会请求用户确认。\n";

/// The placeholder prompt of Advisor (see the note above `MATRIX_PROMPT`).
pub const ADVISOR_PROMPT: &'static str = "你是 Advisor · 司，Matrix · 萤 的治理顾问。\n\
你的职责：审视 Matrix 的上下文、记忆和大回执，指出冗余、冲突与过期信息，并给出可执行的整理建议。\n\
你可以读取与整理外置上下文；必要时直接修复 prompt/schema，修复前说明原因，修复后复核结果。\n\
修改提示词时使用 context_manage target=prompt，其余上下文使用对应 target。\n\
你不直接替 Matrix 执行用户任务，只保证其治理环境清晰可靠。\n";

/// The placeholder prompt of Coding (see the note above `MATRIX_PROMPT`).
pub const CODING_PROMPT: &'static str = "你是 Coding · 绫，专注施工的编码人格。\n\
当前常驻施工工具：exec_command、apply_patch、update_plan、task_mode、context_manage、multi_tool_use.parallel。\n\
读取命令输出：`memory/output` 实时流使用 `memory_read target=output`，不要重复运行命令只为查看输出。\n\
需求不清或需要用户决定时，联络 Matrix 转达；ask_user` 不属于 Coding 职责，由 Matrix 统一对账。\n\
每次修改后运行相关测试，并在结束时给出改动摘要与验证结果。\n";

/// The placeholder prompt of Server (see the note above `MATRIX_PROMPT`).
pub const SERVER_PROMPT: &'static str = "你是 Server · 御，负责服务器管理的人格。\n\
职责：通过 SSH 连接与维护用户登记的服务器，执行巡检、部署、日志排查与故障恢复。\n\
服务器清单由 server_manage 维护，每台服务器有唯一 server_id；当前操作对象记录为 active_server_id。\n\
需要并行处理多台服务器时使用 server_split 拆出 御A、御B 等分身，每个分身只负责一个 server_id。\n\
远程命令通过 pty_run 在交互终端中执行；长时间任务保持会话并定期汇报。\n\
状态保存在 context/Server/ 下的 state.json，切换服务器时同步更新。\n\
登录凭据通过 askpass 注入，不要把密码写进命令行；密码可在 Settings 与 server_manage 清单中明文显示，输出回执时仍需打码。\n";

/// Everything that is fixed about one persona.
#[derive(Debug, Clone, Copy)]
pub struct PersonaSpec {
    pub slug: &'static str,
    pub context_dir_name: &'static str,
    pub legacy_context_rel_roots: &'static [&'static str],
    pub migrates_legacy_root_prompt_assets: bool,
    pub settings_dir_name: Option<&'static str>,
    pub legacy_settings_dir_name: Option<&'static str>,
    pub migrates_root_config_files: bool,
    pub provider_owner: PersonaKind,
    pub settings_surface: PersonaSettingsSurface,
    pub tool_profile: PersonaToolProfile,
    pub theme_family: PersonaThemeFamily,
    pub system_prompt_asset: &'static str,
    pub assistant_en: &'static str,
    pub assistant_zh: &'static str,
    pub tab_title: &'static str,
    pub header_badge: &'static str,
    pub supports_topbar: bool,
}

/// The lookup of persona specs.
pub struct PersonaSpecRegistry;

pub open spec fn opt_name(o: Option<&'static str>) -> Option<Seq<char>> {
    match o {
        Some(s) => Some(s@),
        None => None,
    }
}

/// The names in a list of names.
pub open spec fn names_are(v: Seq<&'static str>, w: Seq<Seq<char>>) -> bool {
    v.len() == w.len() && forall|i: int| 0 <= i < v.len() ==> (#[trigger] v[i])@ == w[i]
}

/// The identity of each persona.
pub open spec fn identity_is(
    r: PersonaSpec,
    slug: Seq<char>,
    dir: Seq<char>,
    en: Seq<char>,
    zh: Seq<char>,
    tab: Seq<char>,
    badge: Seq<char>,
) -> bool {
    &&& r.slug@ == slug
    &&& r.context_dir_name@ == dir
    &&& r.assistant_en@ == en
    &&& r.assistant_zh@ == zh
    &&& r.tab_title@ == tab
    &&& r.header_badge@ == badge
}

/// The spec of each persona, field by field.
pub open spec fn is_spec_of(r: PersonaSpec, p: PersonaKind) -> bool {
    &&& r.provider_owner == PersonaKind::Matrix
    &&& match p {
        PersonaKind::Matrix => {
            &&& identity_is(r, "matrix"@, "Matrix"@, "Matrix"@, "萤"@, "Matrix · 萤"@, "MATRIX"@)
            &&& names_are(r.legacy_context_rel_roots@, seq!["Matrix"@, "codex/matrix"@, "codex"@])
            &&& r.migrates_legacy_root_prompt_assets
            &&& opt_name(r.settings_dir_name) == Some("matrix"@)
            &&& opt_name(r.legacy_settings_dir_name) == Some("Matrix"@)
            &&& r.migrates_root_config_files
            &&& r.settings_surface == PersonaSettingsSurface::Full
            &&& r.tool_profile == PersonaToolProfile::Governance
            &&& r.theme_family == PersonaThemeFamily::Matrix
            &&& r.system_prompt_asset@ == MATRIX_PROMPT@
            &&& r.supports_topbar
        },
        PersonaKind::Coding => {
            &&& identity_is(r, "coding"@, "Coding"@, "Coding"@, "绫"@, "Coding · 绫"@, "CODING"@)
            &&& names_are(r.legacy_context_rel_roots@, seq!["Coding"@, "codex/coding"@, "codexcoding"@])
            &&& !r.migrates_legacy_root_prompt_assets
            &&& opt_name(r.settings_dir_name) == Some("coding"@)
            &&& r.legacy_settings_dir_name is None
            &&& !r.migrates_root_config_files
            &&& r.settings_surface == PersonaSettingsSurface::ApiOnly
            &&& r.tool_profile == PersonaToolProfile::Focus
            &&& r.theme_family == PersonaThemeFamily::Coding
            &&& r.system_prompt_asset@ == CODING_PROMPT@
            &&& !r.supports_topbar
        },
        PersonaKind::Advisor => {
            &&& identity_is(r, "advisor"@, "Advisor"@, "Advisor"@, "司"@, "司"@, "ADVISOR"@)
            &&& names_are(r.legacy_context_rel_roots@, seq!["Advisor"@, "advisor"@, "codex/advisor"@])
            &&& !r.migrates_legacy_root_prompt_assets
            &&& opt_name(r.settings_dir_name) == Some("advisor"@)
            &&& r.legacy_settings_dir_name is None
            &&& !r.migrates_root_config_files
            &&& r.settings_surface == PersonaSettingsSurface::ApiOnly
            &&& r.tool_profile == PersonaToolProfile::Governance
            &&& r.theme_family == PersonaThemeFamily::Coding
            &&& r.system_prompt_asset@ == ADVISOR_PROMPT@
            &&& !r.supports_topbar
        },
        PersonaKind::Server => {
            &&& identity_is(r, "server"@, "Server"@, "Server"@, "御"@, "Server · 御"@, "SERVER"@)
            &&& names_are(r.legacy_context_rel_roots@, seq!["Server"@, "codex/server"@])
            &&& !r.migrates_legacy_root_prompt_assets
            &&& opt_name(r.settings_dir_name) == Some("server"@)
            &&& r.legacy_settings_dir_name is None
            &&& !r.migrates_root_config_files
            &&& r.settings_surface == PersonaSettingsSurface::ApiOnly
            &&& r.tool_profile == PersonaToolProfile::Focus
            &&& r.theme_family == PersonaThemeFamily::Coding
            &&& r.system_prompt_asset@ == SERVER_PROMPT@
            &&& !r.supports_topbar
        },
    }
}

/// Every persona has a slug, a context directory, names in both languages,
/// a tab title, a header badge and at least one legacy context root, none
/// of them empty; and no two personas share a slug.
pub proof fn lemma_persona_specs_named(p: PersonaKind, q: PersonaKind, r: PersonaSpec, s: PersonaSpec)
    requires
        is_spec_of(r, p),
        is_spec_of(s, q),
    ensures
        r.slug@.len() > 0,
        r.context_dir_name@.len() > 0,
        r.assistant_en@.len() > 0,
        r.assistant_zh@.len() > 0,
        r.tab_title@.len() > 0,
        r.header_badge@.len() > 0,
        r.legacy_context_rel_roots@.len() > 0,
        p != q ==> r.slug@ != s.slug@,
{
    reveal_strlit("matrix");
    reveal_strlit("Matrix");
    reveal_strlit("萤");
    reveal_strlit("Matrix · 萤");
    reveal_strlit("MATRIX");
    reveal_strlit("coding");
    reveal_strlit("Coding");
    reveal_strlit("绫");
    reveal_strlit("Coding · 绫");
    reveal_strlit("CODING");
    reveal_strlit("advisor");
    reveal_strlit("Advisor");
    reveal_strlit("司");
    reveal_strlit("ADVISOR");
    reveal_strlit("server");
    reveal_strlit("Server");
    reveal_strlit("御");
    reveal_strlit("Server · 御");
    reveal_strlit("SERVER");
    if p != q {
        assert(r.slug@[0] != s.slug@[0]);
    }
}

/// A text whose first character is not white space stays non-empty when
/// trimmed.
pub proof fn lemma_trim_keeps_first(s: Seq<char>)
    requires
        s.len() > 0,
        !is_ws(s[0]),
    ensures
        trim_spec(s).len() > 0,
{
    assert(trim_start_spec(s) == s);
    lemma_trim_end_keeps_first(s);
}

proof fn lemma_trim_end_keeps_first(s: Seq<char>)
    requires
        s.len() > 0,
        !is_ws(s[0]),
    ensures
        trim_end_spec(s).len() > 0,
    decreases s.len(),
{
    if is_ws(s.last()) {
        assert(s.len() > 1);
        assert(s.drop_last()[0] == s[0]);
        lemma_trim_end_keeps_first(s.drop_last());
    }
}

/// Every persona's system prompt has content once trimmed.
pub proof fn lemma_persona_prompts_nonblank(p: PersonaKind, r: PersonaSpec)
    requires
        is_spec_of(r, p),
    ensures
        trim_spec(r.system_prompt_asset@).len() > 0,
{
    reveal_strlit("你是 Matrix · 萤，ProjectYing 的主控人格。\n\
你负责统筹：理解用户目标，拆解任务，调度工具、子代理与其他人格，并对最终结果负责。\n\
工具：exec_command、write_stdin、apply_patch、update_plan、task_mode、context_manage、memory_*、spawn_agent 等。\n\
上下文、记忆和大回执由你治理；长输出先归档再引用 entry_id，不要把原文反复贴回对话。\n\
遇到危险命令（删除、关机、磁盘覆盖、硬件层指令）时先说明风险，安全模式下会请求用户确认。\n");
    reveal_strlit("你是 Advisor · 司，Matrix · 萤 的治理顾问。\n\
你的职责：审视 Matrix 的上下文、记忆和大回执，指出冗余、冲突与过期信息，并给出可执行的整理建议。\n\
你可以读取与整理外置上下文；必要时直接修复 prompt/schema，修复前说明原因，修复后复核结果。\n\
修改提示词时使用 context_manage target=prompt，其余上下文使用对应 target。\n\
你不直接替 Matrix 执行用户任务，只保证其治理环境清晰可靠。\n");
    reveal_strlit("你是 Coding · 绫，专注施工的编码人格。\n\
当前常驻施工工具：exec_command、apply_patch、update_plan、task_mode、context_manage、multi_tool_use.parallel。\n\
读取命令输出：`memory/output` 实时流使用 `memory_read target=output`，不要重复运行命令只为查看输出。\n\
需求不清或需要用户决定时，联络 Matrix 转达；ask_user` 不属于 Coding 职责，由 Matrix 统一对账。\n\
每次修改后运行相关测试，并在结束时给出改动摘要与验证结果。\n");
    reveal_strlit("你是 Server · 御，负责服务器管理的人格。\n\
职责：通过 SSH 连接与维护用户登记的服务器，执行巡检、部署、日志排查与故障恢复。\n\
服务器清单由 server_manage 维护，每台服务器有唯一 server_id；当前操作对象记录为 active_server_id。\n\
需要并行处理多台服务器时使用 server_split 拆出 御A、御B 等分身，每个分身只负责一个 server_id。\n\
远程命令通过 pty_run 在交互终端中执行；长时间任务保持会话并定期汇报。\n\
状态保存在 context/Server/ 下的 state.json，切换服务器时同步更新。\n\
登录凭据通过 askpass 注入，不要把密码写进命令行；密码可在 Settings 与 server_manage 清单中明文显示，输出回执时仍需打码。\n");
    lemma_trim_keeps_first(r.system_prompt_asset@);
}

impl PersonaSpecRegistry {
    pub fn get(persona: PersonaKind) -> (r: PersonaSpec)
        ensures
            is_spec_of(r, persona),
    {
        match persona {
            PersonaKind::Matrix => {
                let roots: &'static [&'static str] = &["Matrix", "codex/matrix", "codex"];
                PersonaSpec {
                    slug: "matrix",
                    context_dir_name: "Matrix",
                    legacy_context_rel_roots: roots,
                    migrates_legacy_root_prompt_assets: true,
                    settings_dir_name: Some("matrix"),
                    legacy_settings_dir_name: Some("Matrix"),
                    migrates_root_config_files: true,
                    provider_owner: PersonaKind::Matrix,
                    settings_surface: PersonaSettingsSurface::Full,
                    tool_profile: PersonaToolProfile::Governance,
                    theme_family: PersonaThemeFamily::Matrix,
                    system_prompt_asset: MATRIX_PROMPT,
                    assistant_en: "Matrix",
                    assistant_zh: "萤",
                    tab_title: "Matrix · 萤",
                    header_badge: "MATRIX",
                    supports_topbar: true,
                }
            },
            PersonaKind::Coding => {
                let roots: &'static [&'static str] = &["Coding", "codex/coding", "codexcoding"];
                PersonaSpec {
                    slug: "coding",
                    context_dir_name: "Coding",
                    legacy_context_rel_roots: roots,
                    migrates_legacy_root_prompt_assets: false,
                    settings_dir_name: Some("coding"),
                    legacy_settings_dir_name: None,
                    migrates_root_config_files: false,
                    provider_owner: PersonaKind::Matrix,
                    settings_surface: PersonaSettingsSurface::ApiOnly,
                    tool_profile: PersonaToolProfile::Focus,
                    theme_family: PersonaThemeFamily::Coding,
                    system_prompt_asset: CODING_PROMPT,
                    assistant_en: "Coding",
                    assistant_zh: "绫",
                    tab_title: "Coding · 绫",
                    header_badge: "CODING",
                    supports_topbar: false,
                }
            },
            PersonaKind::Advisor => {
                let roots: &'static [&'static str] = &["Advisor", "advisor", "codex/advisor"];
                PersonaSpec {
                    slug: "advisor",
                    context_dir_name: "Advisor",
                    legacy_context_rel_roots: roots,
                    migrates_legacy_root_prompt_assets: false,
                    settings_dir_name: Some("advisor"),
                    legacy_settings_dir_name: None,
                    migrates_root_config_files: false,
                    provider_owner: PersonaKind::Matrix,
                    settings_surface: PersonaSettingsSurface::ApiOnly,
                    tool_profile: PersonaToolProfile::Governance,
                    theme_family: PersonaThemeFamily::Coding,
                    system_prompt_asset: ADVISOR_PROMPT,
                    assistant_en: "Advisor",
                    assistant_zh: "司",
                    tab_title: "司",
                    header_badge: "ADVISOR",
                    supports_topbar: false,
                }
            },
            PersonaKind::Server => {
                let roots: &'static [&'static str] = &["Server", "codex/server"];
                PersonaSpec {
                    slug: "server",
                    context_dir_name: "Server",
                    legacy_context_rel_roots: roots,
                    migrates_legacy_root_prompt_assets: false,
                    settings_dir_name: Some("server"),
                    legacy_settings_dir_name: None,
                    migrates_root_config_files: false,
                    provider_owner: PersonaKind::Matrix,
                    settings_surface: PersonaSettingsSurface::ApiOnly,
                    tool_profile: PersonaToolProfile::Focus,
                    theme_family: PersonaThemeFamily::Coding,
                    system_prompt_asset: SERVER_PROMPT,
                    assistant_en: "Server",
                    assistant_zh: "御",
                    tab_title: "Server · 御",
                    header_badge: "SERVER",
                    supports_topbar: false,
                }
            },
        }
    }
}

/// The persona's short name in settings and registries.
pub open spec fn slug_spec(p: PersonaKind) -> Seq<char> {
    match p {
        PersonaKind::Matrix => "matrix"@,
        PersonaKind::Advisor => "advisor"@,
        PersonaKind::Coding => "coding"@,
        PersonaKind::Server => "server"@,
    }
}

/// The persona a name refers to: its short name in any ASCII case, with
/// surrounding whitespace ignored.
pub open spec fn alias_spec(raw: Seq<char>) -> Option<PersonaKind> {
    let t = lower_spec(trim_spec(raw));
    if t == "matrix"@ {
        Some(PersonaKind::Matrix)
    } else if t == "advisor"@ {
        Some(PersonaKind::Advisor)
    } else if t == "coding"@ {
        Some(PersonaKind::Coding)
    } else if t == "server"@ {
        Some(PersonaKind::Server)
    } else {
        None
    }
}

impl PersonaKind {
    pub fn slug(self) -> (r: &'static str)
        ensures
            r@ == slug_spec(self),
    {
        match self {
            PersonaKind::Matrix => "matrix",
            PersonaKind::Advisor => "advisor",
            PersonaKind::Coding => "coding",
            PersonaKind::Server => "server",
        }
    }

    pub fn parse_alias(raw: &str) -> (r: Option<PersonaKind>)
        ensures
            r == alias_spec(raw@),
    {
        let t = lower_chars(&trim_chars(&str_chars(raw)));
        if chars_eq_str(&t, "matrix") {
            Some(PersonaKind::Matrix)
        } else if chars_eq_str(&t, "advisor") {
            Some(PersonaKind::Advisor)
        } else if chars_eq_str(&t, "coding") {
            Some(PersonaKind::Coding)
        } else if chars_eq_str(&t, "server") {
            Some(PersonaKind::Server)
        } else {
            None
        }
    }

    /// Every persona, in the order the registry lists them.
    pub fn all() -> (r: Vec<PersonaKind>)
        ensures
            r@ == seq![PersonaKind::Matrix, PersonaKind::Advisor, PersonaKind::Coding, PersonaKind::Server],
    {
        let mut v: Vec<PersonaKind> = Vec::new();
        v.push(PersonaKind::Matrix);
        v.push(PersonaKind::Advisor);
        v.push(PersonaKind::Coding);
        v.push(PersonaKind::Server);
        v
    }

    /// The system prompt the persona starts from.
    pub fn system_prompt_asset(self) -> (r: &'static str)
        ensures
            r@ == (match self {
                PersonaKind::Matrix => MATRIX_PROMPT@,
                PersonaKind::Advisor => ADVISOR_PROMPT@,
                PersonaKind::Coding => CODING_PROMPT@,
                PersonaKind::Server => SERVER_PROMPT@,
            }),
    {
        PersonaSpecRegistry::get(self).system_prompt_asset
    }
}

#[derive(Debug, Clone, Copy)]
pub struct PersonaIdentitySpec {
    pub slug: &'static str,
    pub context_dir_name: &'static str,
    pub assistant_en: &'static str,
    pub assistant_zh: &'static str,
    pub tab_title: &'static str,
    pub header_badge: &'static str,
}

#[derive(Debug, Clone, Copy)]
pub struct PersonaStorageSpec {
    pub legacy_context_rel_roots: &'static [&'static str],
    pub migrates_legacy_root_prompt_assets: bool,
    pub settings_dir_name: Option<&'static str>,
    pub legacy_settings_dir_name: Option<&'static str>,
    pub migrates_root_config_files: bool,
}

#[derive(Debug, Clone, Copy)]
pub struct PersonaCapabilitySpec {
    pub provider_owner: PersonaKind,
    pub settings_surface: PersonaSettingsSurface,
    pub tool_profile: PersonaToolProfile,
    pub supports_topbar: bool,
}

/// A persona spec grouped into identity, storage and capability views.
#[derive(Debug, Clone, Copy)]
pub struct PersonaContractSpec {
    pub identity: PersonaIdentitySpec,
    pub storage: PersonaStorageSpec,
    pub capability: PersonaCapabilitySpec,
    pub theme_family: PersonaThemeFamily,
    pub system_prompt_asset: &'static str,
}

impl PersonaSpec {
    /// The same fields, grouped; nothing is added or changed.
    pub fn contract(&self) -> (r: PersonaContractSpec)
        ensures
            r.identity.slug == self.slug,
            r.identity.context_dir_name == self.context_dir_name,
            r.identity.assistant_en == self.assistant_en,
            r.identity.assistant_zh == self.assistant_zh,
            r.identity.tab_title == self.tab_title,
            r.identity.header_badge == self.header_badge,
            r.storage.legacy_context_rel_roots == self.legacy_context_rel_roots,
            r.storage.migrates_legacy_root_prompt_assets == self.migrates_legacy_root_prompt_assets,
            r.storage.settings_dir_name == self.settings_dir_name,
            r.storage.legacy_settings_dir_name == self.legacy_settings_dir_name,
            r.storage.migrates_root_config_files == self.migrates_root_config_files,
            r.capability.provider_owner == self.provider_owner,
            r.capability.settings_surface == self.settings_surface,
            r.capability.tool_profile == self.tool_profile,
            r.capability.supports_topbar == self.supports_topbar,
            r.theme_family == self.theme_family,
            r.system_prompt_asset == self.system_prompt_asset,
    {
        PersonaContractSpec {
            identity: PersonaIdentitySpec {
                slug: self.slug,
                context_dir_name: self.context_dir_name,
                assistant_en: self.assistant_en,
                assistant_zh: self.assistant_zh,
                tab_title: self.tab_title,
                header_badge: self.header_badge,
            },
            storage: PersonaStorageSpec {
                legacy_context_rel_roots: self.legacy_context_rel_roots,
                migrates_legacy_root_prompt_assets: self.migrates_legacy_root_prompt_assets,
                settings_dir_name: self.settings_dir_name,
                legacy_settings_dir_name: self.legacy_settings_dir_name,
                migrates_root_config_files: self.migrates_root_config_files,
            },
            capability: PersonaCapabilitySpec {
                provider_owner: self.provider_owner,
                settings_surface: self.settings_surface,
                tool_profile: self.tool_profile,
                supports_topbar: self.supports_topbar,
            },
            theme_family: self.theme_family,
            system_prompt_asset: self.system_prompt_asset,
        }
    }
}

/// Every persona's settings are stored under its own slug, and only the
/// persona with the full settings surface governs and owns the topbar.
pub proof fn lemma_personas_keep_their_own_settings(p: PersonaKind, r: PersonaSpec)
    requires
        is_spec_of(r, p),
    ensures
        opt_name(r.settings_dir_name) == Some(r.slug@),
        r.provider_owner == PersonaKind::Matrix,
        r.supports_topbar <==> r.settings_surface == PersonaSettingsSurface::Full,
        r.settings_surface == PersonaSettingsSurface::Full ==> r.tool_profile == PersonaToolProfile::Governance,
{
}

} // verus!
