//! The `tool_manage` role actions on the registry of dynamic roles: which
//! action is asked for, and what listing, creating and changing the tools
//! of a role do to the registry and answer. Loading and saving the
//! registry, and the role's files, happen outside; an outcome names the
//! role whose files are to be laid out.
use vstd::prelude::*;

use crate::roles::{
    find_model_dir, find_model_id, governance_catalog_from_registry, has_model_dir, has_model_id,
    list_or_none, list_or_none_exec, norm_upto, normalize_registry, normalize_tool_ids, registry_list_preview,
    role_from_create_draft, role_models, role_result, same_roles, sorted_by_id, strings_view, catalog_of,
    build_copy_role_spec, clone_strings, copy_governance, copy_role_spec, RoleCopySource, copy_role, join_strings, normalize_role_id, role_id_spec, base_persona_spec,
    clamp_kb, context_dir_spec, copy_source_spec, display_name_spec, glyph_spec, governance_mode_spec,
    governed_tools_spec, managed_ids_spec, normalize_base_persona, normalize_context_dir, normalize_context_governance,
    normalize_copy_source, normalize_display_name, normalize_glyph, normalize_managed_role_ids, opt_list,
    sync_role_context_governance_tools, validate_role_management_limits, create_role_spec, role_id_from_inputs, target_id_spec, list_preview_spec, opt_string, summary_lines_spec, title_spec, tool_ids_spec, DynamicRoleDraft,
    DynamicRoleSpec, RoleErr, RoleError, RoleGovernanceCatalog, RoleModel, RoleRegistryFile,
};
use crate::persona::{alias_spec, PersonaKind};
use crate::text::{
    chars_eq, chars_eq_str, chars_to_string, join_chars, join_spec, lower_chars, lower_spec, push_chars, push_str, str_chars,
    trim_chars, trim_spec, upper_chars, upper_spec, views,
};

verus! {

/// The role actions of `tool_manage`.
#[derive(Debug, Clone, Copy, PartialEq, Eq, Structural)]
pub enum RoleAction {
    List,
    Reload,
    Copy,
    Create,
    Update,
    Remove,
    ToolAdd,
    ToolRemove,
}

/// The action an action name asks for, in any case and with spaces around.
pub open spec fn role_action_spec(action: Seq<char>) -> Option<RoleAction> {
    let a = lower_spec(trim_spec(action));
    if a == "role_list"@ || a == "list_roles"@ {
        Some(RoleAction::List)
    } else if a == "role_reload"@ || a == "reload_roles"@ {
        Some(RoleAction::Reload)
    } else if a == "role_copy"@ || a == "copy_role"@ || a == "role_clone"@ || a == "clone_role"@ || a
        == "persona_copy"@ || a == "copy_persona"@ || a == "persona_clone"@ || a == "clone_persona"@ {
        Some(RoleAction::Copy)
    } else if a == "role_create"@ || a == "create_role"@ {
        Some(RoleAction::Create)
    } else if a == "role_update"@ || a == "update_role"@ {
        Some(RoleAction::Update)
    } else if a == "role_remove"@ || a == "remove_role"@ {
        Some(RoleAction::Remove)
    } else if a == "role_tool_add"@ || a == "add_role_tools"@ || a == "role_add_tools"@ {
        Some(RoleAction::ToolAdd)
    } else if a == "role_tool_remove"@ || a == "remove_role_tools"@ || a == "role_remove_tools"@ {
        Some(RoleAction::ToolRemove)
    } else {
        None
    }
}

fn is_any(a: &Vec<char>, names: &Vec<&str>) -> (r: bool)
    ensures
        r == exists|i: int| 0 <= i < names@.len() && a@ == (#[trigger] names@[i])@,
{
    let mut i: usize = 0;
    while i < names.len()
        invariant
            i <= names@.len(),
            forall|j: int| 0 <= j < i ==> a@ != (#[trigger] names@[j])@,
        decreases names@.len() - i,
    {
        if chars_eq_str(a, names[i]) {
            return true;
        }
        i += 1;
    }
    false
}

/// Reads an action name.
pub fn parse_role_action(action: &str) -> (r: Option<RoleAction>)
    ensures
        r == role_action_spec(action@),
{
    let a = lower_chars(&trim_chars(&str_chars(action)));
    let list = vec!["role_list", "list_roles"];
    let reload = vec!["role_reload", "reload_roles"];
    let copy = vec![
        "role_copy",
        "copy_role",
        "role_clone",
        "clone_role",
        "persona_copy",
        "copy_persona",
        "persona_clone",
        "clone_persona",
    ];
    let create = vec!["role_create", "create_role"];
    let update = vec!["role_update", "update_role"];
    let remove = vec!["role_remove", "remove_role"];
    let tool_add = vec!["role_tool_add", "add_role_tools", "role_add_tools"];
    let tool_remove = vec!["role_tool_remove", "remove_role_tools", "role_remove_tools"];
    if is_any(&a, &list) {
        Some(RoleAction::List)
    } else if is_any(&a, &reload) {
        Some(RoleAction::Reload)
    } else if is_any(&a, &copy) {
        Some(RoleAction::Copy)
    } else if is_any(&a, &create) {
        Some(RoleAction::Create)
    } else if is_any(&a, &update) {
        Some(RoleAction::Update)
    } else if is_any(&a, &remove) {
        Some(RoleAction::Remove)
    } else if is_any(&a, &tool_add) {
        Some(RoleAction::ToolAdd)
    } else if is_any(&a, &tool_remove) {
        Some(RoleAction::ToolRemove)
    } else {
        None
    }
}

/// Reads an action name; a name no action has is refused with the name as
/// it was compared.
pub fn role_action_of(action: &str) -> (r: Result<RoleAction, RoleActionError>)
    ensures
        match role_action_spec(action@) {
            Some(k) => r == Ok::<RoleAction, RoleActionError>(k),
            None => r matches Err(RoleActionError::UnsupportedAction(a)) && a@ == lower_spec(trim_spec(action@)),
        },
{
    match parse_role_action(action) {
        Some(k) => Ok(k),
        None => Err(RoleActionError::UnsupportedAction(chars_to_string(&lower_chars(&trim_chars(&str_chars(action)))))),
    }
}

/// Why a role action was refused.
#[derive(Debug, Clone, PartialEq, Eq)]
pub enum RoleActionError {
    /// A role rule refused the request.
    Role(RoleError),
    /// The action needs a role object.
    MissingRole(String),
    /// A role with this id exists already.
    Exists(String),
    /// A role uses this context directory already.
    ContextDirExists(String),
    /// No role has this id.
    NotFound(String),
    /// The action needs tool ids.
    MissingToolIds(String),
    /// None of these ids (joined by `", "`) names a role.
    NothingToRemove(String),
    /// Another role uses this context directory.
    ContextDirTaken(String),
    /// No role action has this name (trimmed, in lower case).
    UnsupportedAction(String),
    /// A copy names neither a source nor a base persona.
    MissingCopySource,
}

/// What a role action answers, and the role whose files are to be laid out
/// (with the prompt to write, when one was given).
pub struct RoleActionOutcome {
    pub model_lines: Vec<String>,
    pub output_preview: String,
    pub layout: Option<(DynamicRoleSpec, Option<String>)>,
}

/// The first lines of every answer: success, and the action as asked, in
/// upper case.
pub open spec fn header_spec(action: Seq<char>) -> Seq<Seq<char>> {
    seq!["tool_manage:ok"@, "action:"@ + upper_spec(lower_spec(trim_spec(action)))]
}

fn header(action: &str) -> (r: Vec<String>)
    ensures
        strings_view(r@) == header_spec(action@),
{
    let mut out: Vec<String> = Vec::new();
    out.push(chars_to_string(&str_chars("tool_manage:ok")));
    let mut l = str_chars("action:");
    push_chars(&mut l, &upper_chars(&lower_chars(&trim_chars(&str_chars(action)))));
    out.push(chars_to_string(&l));
    assert(strings_view(out@) =~= header_spec(action@));
    out
}

/// The registry after normalizing `input`: the normalized roles in id
/// order, or none when normalizing fails.
pub open spec fn normalized_from(reg: RoleRegistryFile, input: Seq<RoleModel>, now: u64) -> bool {
    &&& reg.version == 1
    &&& match norm_upto(input, now, input.len()) {
        Ok(list) => sorted_by_id(role_models(reg.roles@)) && same_roles(role_models(reg.roles@), list),
        Err(_) => reg.roles@.len() == 0,
    }
}

pub open spec fn norm_error(input: Seq<RoleModel>, now: u64) -> Option<RoleErr> {
    match norm_upto(input, now, input.len()) {
        Ok(_) => None,
        Err(e) => Some(e),
    }
}

/// `role_list`: the catalog for the model, the list for the user; the
/// registry is not changed.
pub fn role_list_action(registry: &RoleRegistryFile, action: &str) -> (r: RoleActionOutcome)
    ensures
        exists|c: RoleGovernanceCatalog| #[trigger] catalog_of(c, *registry) && strings_view(r.model_lines@) == header_spec(action@)
            + summary_lines_spec(c),
        exists|c: RoleGovernanceCatalog| #[trigger] catalog_of(c, *registry) && r.output_preview@ == list_preview_spec(c),
        r.layout is None,
{
    let mut lines = header(action);
    let catalog = governance_catalog_from_registry(registry);
    let summary = catalog.model_summary_lines();
    let ghost head = strings_view(lines@);
    let ghost n0 = lines@.len();
    let mut i: usize = 0;
    while i < summary.len()
        invariant
            i <= summary@.len(),
            n0 == head.len(),
            lines@.len() == n0 + i,
            forall|j: int| 0 <= j < n0 ==> (#[trigger] lines@[j])@ == head[j],
            forall|j: int| 0 <= j < i ==> (#[trigger] lines@[n0 + j])@ == summary@[j]@,
        decreases summary@.len() - i,
    {
        lines.push(chars_to_string(&str_chars(summary[i].as_str())));
        i += 1;
    }
    assert(strings_view(lines@) =~= head + strings_view(summary@)) by {
        assert forall|j: int| n0 <= j < lines@.len() implies (#[trigger] lines@[j])@ == summary@[j - n0]@ by {
            assert(lines@[n0 + (j - n0)]@ == summary@[j - n0]@);
        }
    }
    let preview = registry_list_preview(registry);
    RoleActionOutcome { model_lines: lines, output_preview: preview, layout: None }
}

/// What `role_create` answers the user.
pub open spec fn created_preview_spec(m: RoleModel, title: Seq<char>) -> Seq<char> {
    "created: "@ + m.id + "\nlabel: "@ + title + "\ncontext: context/"@ + m.context_dir + "\ntools: "@ + list_or_none(
        m.default_tools,
        ", "@,
    )
}

/// `role_create`: the role made from the request joins the registry, which
/// is normalized; refused without a role object, when the request is
/// refused, or when its id or (in any ASCII case) its context directory is
/// taken. The role's files are to be laid out with the request's prompt.
pub fn role_create_action(
    registry: &mut RoleRegistryFile,
    action: &str,
    role: Option<DynamicRoleDraft>,
    tool_ids: &Vec<String>,
    now_ms: u64,
) -> (r: Result<RoleActionOutcome, RoleActionError>)
    ensures
        role is None ==> (r matches Err(RoleActionError::MissingRole(a)) && a@ == "role_create"@) && *final(registry)
            == *old(registry),
        role matches Some(d) ==> match create_role_spec(d, strings_view(tool_ids@), now_ms) {
            Err(e) => r matches Err(RoleActionError::Role(x)) && x@ == e && *final(registry) == *old(registry),
            Ok(m) => if has_model_id(role_models(old(registry).roles@), m.id) {
                r matches Err(RoleActionError::Exists(id)) && id@ == m.id && *final(registry) == *old(registry)
            } else if has_model_dir(role_models(old(registry).roles@), m.context_dir) {
                r matches Err(RoleActionError::ContextDirExists(dir)) && dir@ == m.context_dir && *final(registry)
                    == *old(registry)
            } else {
                &&& normalized_from(*final(registry), role_models(old(registry).roles@).push(m), now_ms)
                &&& match norm_error(role_models(old(registry).roles@).push(m), now_ms) {
                    Some(e) => r matches Err(RoleActionError::Role(x)) && x@ == e,
                    None => r matches Ok(out) && {
                        &&& strings_view(out.model_lines@) == header_spec(action@) + seq![
                            "role:"@ + m.id,
                            "context_dir:context/"@ + m.context_dir,
                        ]
                        &&& out.layout matches Some((created, prompt)) && created@ == m && opt_string(prompt)
                            == opt_string(d.prompt) && out.output_preview@ == created_preview_spec(
                            m,
                            title_spec(created),
                        )
                    },
                }
            },
        },
{
    let draft = match role {
        None => return Err(RoleActionError::MissingRole(chars_to_string(&str_chars("role_create")))),
        Some(d) => d,
    };
    let prompt = match &draft.prompt {
        Some(p) => Some(chars_to_string(&str_chars(p.as_str()))),
        None => None,
    };
    let created = match role_from_create_draft(draft, tool_ids, now_ms) {
        Err(e) => return Err(RoleActionError::Role(e)),
        Ok(c) => c,
    };
    if find_model_id(&registry.roles, &created.id) {
        return Err(RoleActionError::Exists(chars_to_string(&str_chars(created.id.as_str()))));
    }
    if find_model_dir(&registry.roles, &created.context_dir) {
        return Err(RoleActionError::ContextDirExists(chars_to_string(&str_chars(created.context_dir.as_str()))));
    }
    let mut lines = header(action);
    let ghost h = strings_view(lines@);
    let mut l1 = str_chars("role:");
    push_str(&mut l1, created.id.as_str());
    lines.push(chars_to_string(&l1));
    let mut l2 = str_chars("context_dir:context/");
    push_str(&mut l2, created.context_dir.as_str());
    lines.push(chars_to_string(&l2));
    assert(strings_view(lines@) =~= h + seq!["role:"@ + created.id@, "context_dir:context/"@ + created.context_dir@]);
    let title = created.contract().identity.title;
    let mut p = str_chars("created: ");
    push_str(&mut p, created.id.as_str());
    push_str(&mut p, "\nlabel: ");
    push_str(&mut p, title.as_str());
    push_str(&mut p, "\ncontext: context/");
    push_str(&mut p, created.context_dir.as_str());
    push_str(&mut p, "\ntools: ");
    push_chars(&mut p, &list_or_none_exec(&created.default_tools, ", "));
    let ghost before = registry.roles@;
    registry.roles.push(copy_role(&created));
    assert(role_models(registry.roles@) =~= role_models(before).push(created@));
    match normalize_registry(registry, now_ms) {
        Err(e) => Err(RoleActionError::Role(e)),
        Ok(()) => Ok(RoleActionOutcome { model_lines: lines, output_preview: chars_to_string(&p), layout: Some((created, prompt)) }),
    }
}


/// The place of the first role with this id.
pub open spec fn first_role_index(ms: Seq<RoleModel>, id: Seq<char>) -> Option<int> {
    if has_model_id(ms, id) {
        Some(choose|i: int| 0 <= i < ms.len() && (#[trigger] ms[i]).id == id && forall|j: int| 0 <= j < i ==> (#[trigger] ms[j]).id != id)
    } else {
        None
    }
}

fn find_role_index(v: &Vec<DynamicRoleSpec>, id: &String) -> (r: Option<usize>)
    ensures
        r matches Some(i) ==> i < v@.len() && first_role_index(role_models(v@), id@) == Some(i as int),
        r is None ==> first_role_index(role_models(v@), id@) is None,
{
    let ghost ms = role_models(v@);
    let mut i: usize = 0;
    while i < v.len()
        invariant
            i <= v@.len(),
            ms == role_models(v@),
            forall|j: int| 0 <= j < i ==> (#[trigger] ms[j]).id != id@,
        decreases v@.len() - i,
    {
        if v[i].id == *id {
            proof {
                assert(ms[i as int].id == id@);
                assert(has_model_id(ms, id@));
                let c = choose|c: int| 0 <= c < ms.len() && (#[trigger] ms[c]).id == id@ && forall|j: int| 0 <= j < c ==> (#[trigger] ms[j]).id != id@;
                assert(0 <= i < ms.len() && ms[i as int].id == id@ && forall|j: int| 0 <= j < i ==> (#[trigger] ms[j]).id != id@);
                if c > i {
                    assert(ms[i as int].id != id@);
                }
            }
            return Some(i);
        }
        i += 1;
    }
    None
}

/// The items not among `remove`, in order.
pub open spec fn without(items: Seq<Seq<char>>, remove: Seq<Seq<char>>) -> Seq<Seq<char>>
    decreases items.len(),
{
    if items.len() == 0 {
        Seq::empty()
    } else if remove.contains(items.last()) {
        without(items.drop_last(), remove)
    } else {
        without(items.drop_last(), remove).push(items.last())
    }
}

fn contains_string(v: &Vec<String>, s: &String) -> (r: bool)
    ensures
        r == strings_view(v@).contains(s@),
{
    let mut i: usize = 0;
    while i < v.len()
        invariant
            i <= v@.len(),
            forall|j: int| 0 <= j < i ==> (#[trigger] v@[j])@ != s@,
        decreases v@.len() - i,
    {
        if v[i] == *s {
            assert(strings_view(v@)[i as int] == s@);
            return true;
        }
        i += 1;
    }
    proof {
        if strings_view(v@).contains(s@) {
            let j = choose|j: int| 0 <= j < strings_view(v@).len() && strings_view(v@)[j] == s@;
            assert(v@[j]@ == s@);
        }
    }
    false
}

fn without_exec(items: &Vec<String>, remove: &Vec<String>) -> (r: Vec<String>)
    ensures
        strings_view(r@) == without(strings_view(items@), strings_view(remove@)),
{
    let mut out: Vec<String> = Vec::new();
    let mut i: usize = 0;
    while i < items.len()
        invariant
            i <= items@.len(),
            strings_view(out@) == without(strings_view(items@).take(i as int), strings_view(remove@)),
        decreases items@.len() - i,
    {
        proof {
            assert(strings_view(items@).take(i + 1).drop_last() =~= strings_view(items@).take(i as int));
            assert(strings_view(items@).take(i + 1).last() == items@[i as int]@);
        }
        if !contains_string(remove, &items[i]) {
            out.push(chars_to_string(&str_chars(items[i].as_str())));
            assert(strings_view(out@) =~= without(strings_view(items@).take(i as int), strings_view(remove@)).push(
                items@[i as int]@,
            ));
        }
        i += 1;
    }
    assert(strings_view(items@).take(items@.len() as int) =~= strings_view(items@));
    out
}

/// The role with its tools replaced and stamped `now`.
pub open spec fn with_tools(m: RoleModel, tools: Seq<Seq<char>>, now: u64) -> RoleModel {
    RoleModel { default_tools: tools, updated_at_ms: now, ..m }
}

/// What `role_tool_add` and `role_tool_remove` answer the user.
pub open spec fn tools_preview_spec(id: Seq<char>, verb_line: Seq<char>, changed: Seq<Seq<char>>, tools: Seq<char>) -> Seq<
    char,
> {
    "role: "@ + id + verb_line + join_spec(changed, ", "@) + "\ntools: "@ + tools
}

/// Whether tools are added to a role or taken from it.
#[derive(Debug, Clone, Copy, PartialEq, Eq, Structural)]
pub enum ToolChange {
    Add,
    Remove,
}

pub open spec fn changed_tools(change: ToolChange, current: Seq<Seq<char>>, given: Seq<Seq<char>>) -> Seq<Seq<char>> {
    match change {
        ToolChange::Add => tool_ids_spec(current + tool_ids_spec(given)),
        ToolChange::Remove => without(current, tool_ids_spec(given)),
    }
}

fn changed_tools_exec(current: &Vec<String>, tool_ids: &Vec<String>, change: ToolChange) -> (r: (Vec<String>, Vec<String>))
    ensures
        strings_view(r.0@) == changed_tools(change, strings_view(current@), strings_view(tool_ids@)),
        strings_view(r.1@) == tool_ids_spec(strings_view(tool_ids@)),
{
    let given = normalize_tool_ids(tool_ids);
    match change {
        ToolChange::Add => {
            let mut merged = clone_strings(current);
            let ghost m0 = strings_view(merged@);
            let ghost n0 = merged@.len();
            let mut j: usize = 0;
            while j < given.len()
                invariant
                    j <= given@.len(),
                    n0 == m0.len(),
                    merged@.len() == n0 + j,
                    forall|k: int| 0 <= k < n0 ==> (#[trigger] merged@[k])@ == m0[k],
                    forall|k: int| 0 <= k < j ==> (#[trigger] merged@[n0 + k])@ == given@[k]@,
                decreases given@.len() - j,
            {
                merged.push(chars_to_string(&str_chars(given[j].as_str())));
                j += 1;
            }
            assert(strings_view(merged@) =~= m0 + strings_view(given@)) by {
                assert forall|k: int| n0 <= k < merged@.len() implies (#[trigger] merged@[k])@ == given@[k - n0]@ by {
                    assert(merged@[n0 + (k - n0)]@ == given@[k - n0]@);
                }
            }
            (normalize_tool_ids(&merged), given)
        },
        ToolChange::Remove => (without_exec(current, &given), given),
    }
}

/// `role_tool_add` / `role_tool_remove`: the role named by the request
/// (its id, else the first of `role_ids`) gets the given tools, normalized,
/// added to its own (normalized again) or taken from them, and is stamped
/// `now`; the registry is normalized. Refused without tool ids, without a
/// role named, or for an unknown role. Whether each tool suits the role is
/// left to the tool catalogue.
#[verifier::rlimit(40)]
pub fn role_tools_action(
    registry: &mut RoleRegistryFile,
    action: &str,
    change: ToolChange,
    role: Option<&DynamicRoleDraft>,
    role_ids: &Vec<String>,
    tool_ids: &Vec<String>,
    now_ms: u64,
) -> (r: Result<RoleActionOutcome, RoleActionError>)
    ensures
        tool_ids@.len() == 0 ==> (r matches Err(RoleActionError::MissingToolIds(a)) && a@ == (match change {
            ToolChange::Add => "role_tool_add"@,
            ToolChange::Remove => "role_tool_remove"@,
        })) && *final(registry) == *old(registry),
        tool_ids@.len() > 0 ==> match target_of(role, role_ids) {
            Err(e) => (r matches Err(RoleActionError::Role(x)) && x@ == e) && *final(registry) == *old(registry),
            Ok(id) => match first_role_index(role_models(old(registry).roles@), id) {
                None => (r matches Err(RoleActionError::NotFound(x)) && x@ == id) && *final(registry) == *old(registry),
                Some(k) => {
                    let ms = role_models(old(registry).roles@);
                    let tools = changed_tools(change, ms[k].default_tools, strings_view(tool_ids@));
                    let input = ms.update(k, with_tools(ms[k], tools, now_ms));
                    &&& normalized_from(*final(registry), input, now_ms)
                    &&& match norm_error(input, now_ms) {
                        Some(e) => r matches Err(RoleActionError::Role(x)) && x@ == e,
                        None => r matches Ok(out) && {
                            &&& strings_view(out.model_lines@) == header_spec(action@) + seq!["role:"@ + id]
                            &&& out.layout is None
                            &&& out.output_preview@ == match change {
                                ToolChange::Add => tools_preview_spec(
                                    id,
                                    "\nadded: "@,
                                    tool_ids_spec(strings_view(tool_ids@)),
                                    join_spec(tools, ", "@),
                                ),
                                ToolChange::Remove => tools_preview_spec(
                                    id,
                                    "\nremoved: "@,
                                    tool_ids_spec(strings_view(tool_ids@)),
                                    list_or_none(tools, ", "@),
                                ),
                            }
                        },
                    }
                },
            },
        },
{
    if tool_ids.len() == 0 {
        let name = match change {
            ToolChange::Add => "role_tool_add",
            ToolChange::Remove => "role_tool_remove",
        };
        return Err(RoleActionError::MissingToolIds(chars_to_string(&str_chars(name))));
    }
    let id = match role_id_from_inputs(role, role_ids) {
        Err(e) => return Err(RoleActionError::Role(e)),
        Ok(id) => id,
    };
    let k = match find_role_index(&registry.roles, &id) {
        None => return Err(RoleActionError::NotFound(id)),
        Some(k) => k,
    };
    let ghost ms = role_models(registry.roles@);
    let (tools, given) = changed_tools_exec(&registry.roles[k].default_tools, tool_ids, change);
    let mut updated = copy_role(&registry.roles[k]);
    updated.default_tools = clone_strings(&tools);
    updated.updated_at_ms = now_ms;
    assert(updated@ == with_tools(ms[k as int], strings_view(tools@), now_ms));
    let mut p = str_chars("role: ");
    push_str(&mut p, id.as_str());
    match change {
        ToolChange::Add => {
            push_str(&mut p, "\nadded: ");
            push_chars(&mut p, &join_strings(&given, ", "));
            push_str(&mut p, "\ntools: ");
            push_chars(&mut p, &join_strings(&tools, ", "));
        },
        ToolChange::Remove => {
            push_str(&mut p, "\nremoved: ");
            push_chars(&mut p, &join_strings(&given, ", "));
            push_str(&mut p, "\ntools: ");
            push_chars(&mut p, &list_or_none_exec(&tools, ", "));
        },
    }
    let ghost before = registry.roles@;
    registry.roles.set(k, updated);
    assert(role_models(registry.roles@) =~= ms.update(k as int, with_tools(ms[k as int], strings_view(tools@), now_ms)));
    let mut lines = header(action);
    let ghost h = strings_view(lines@);
    let mut l1 = str_chars("role:");
    push_str(&mut l1, id.as_str());
    lines.push(chars_to_string(&l1));
    assert(strings_view(lines@) =~= h + seq!["role:"@ + id@]);
    match normalize_registry(registry, now_ms) {
        Err(e) => Err(RoleActionError::Role(e)),
        Ok(()) => Ok(RoleActionOutcome { model_lines: lines, output_preview: chars_to_string(&p), layout: None }),
    }
}

/// The role a request names: its id, else the first of `role_ids`.
pub open spec fn target_of(role: Option<&DynamicRoleDraft>, role_ids: &Vec<String>) -> Result<Seq<char>, RoleErr> {
    target_id_spec(
        match role {
            Some(d) => opt_string(d.id),
            None => None,
        },
        strings_view(role_ids@),
    )
}


/// The ids a remove request names, each normalized: `role_ids` when given
/// (refused at the first that is not an id), else the request's target.
pub open spec fn remove_ids_spec(role: Option<&DynamicRoleDraft>, role_ids: &Vec<String>) -> Result<Seq<Seq<char>>, RoleErr> {
    if role_ids@.len() > 0 {
        normalized_ids(strings_view(role_ids@))
    } else {
        match target_of(role, role_ids) {
            Ok(id) => Ok(seq![id]),
            Err(e) => Err(e),
        }
    }
}

pub open spec fn normalized_ids(raw: Seq<Seq<char>>) -> Result<Seq<Seq<char>>, RoleErr>
    decreases raw.len(),
{
    if raw.len() == 0 {
        Ok(Seq::empty())
    } else {
        match normalized_ids(raw.drop_last()) {
            Err(e) => Err(e),
            Ok(prev) => match role_id_spec(raw.last()) {
                Err(e) => Err(e),
                Ok(id) => Ok(prev.push(id)),
            },
        }
    }
}

/// The roles whose id is (or is not) among `ids`, in order.
pub open spec fn roles_named(ms: Seq<RoleModel>, ids: Seq<Seq<char>>, named: bool) -> Seq<RoleModel>
    decreases ms.len(),
{
    if ms.len() == 0 {
        Seq::empty()
    } else if ids.contains(ms.last().id) == named {
        roles_named(ms.drop_last(), ids, named).push(ms.last())
    } else {
        roles_named(ms.drop_last(), ids, named)
    }
}

pub open spec fn model_ids(ms: Seq<RoleModel>) -> Seq<Seq<char>> {
    ms.map_values(|m: RoleModel| m.id)
}

/// What `role_remove` answers the model, and the roles taken out, whose
/// files are to be removed.
pub struct RoleRemoveOutcome {
    pub model_lines: Vec<String>,
    pub removed: Vec<DynamicRoleSpec>,
}

fn normalize_ids(raw: &Vec<String>) -> (r: Result<Vec<String>, RoleError>)
    ensures
        match normalized_ids(strings_view(raw@)) {
            Ok(ids) => r matches Ok(v) && strings_view(v@) == ids,
            Err(e) => r matches Err(x) && x@ == e,
        },
{
    let mut out: Vec<String> = Vec::new();
    let mut i: usize = 0;
    assert(strings_view(raw@).take(0) =~= Seq::<Seq<char>>::empty());
    assert(strings_view(out@) =~= Seq::<Seq<char>>::empty());
    while i < raw.len()
        invariant
            i <= raw@.len(),
            out@.len() == i,
            normalized_ids(strings_view(raw@).take(i as int)) == Ok::<Seq<Seq<char>>, RoleErr>(strings_view(out@)),
        decreases raw@.len() - i,
    {
        proof {
            assert(strings_view(raw@).take(i + 1).drop_last() =~= strings_view(raw@).take(i as int));
            assert(strings_view(raw@).take(i + 1).last() == raw@[i as int]@);
        }
        match normalize_role_id(raw[i].as_str()) {
            Err(e) => {
                proof {
                    lemma_normalized_ids_err(strings_view(raw@), (i + 1) as nat, e@);
                }
                return Err(e);
            },
            Ok(id) => {
                let ghost before = strings_view(out@);
                let ghost idv = id@;
                out.push(id);
                assert(strings_view(out@) =~= before.push(idv));
            },
        }
        i += 1;
    }
    assert(strings_view(raw@).take(raw@.len() as int) =~= strings_view(raw@));
    Ok(out)
}

proof fn lemma_normalized_ids_err(raw: Seq<Seq<char>>, n: nat, e: RoleErr)
    requires
        n <= raw.len(),
        normalized_ids(raw.take(n as int)) == Err::<Seq<Seq<char>>, RoleErr>(e),
    ensures
        normalized_ids(raw) == Err::<Seq<Seq<char>>, RoleErr>(e),
    decreases raw.len() - n,
{
    if n < raw.len() {
        assert(raw.take((n + 1) as int).drop_last() =~= raw.take(n as int));
        lemma_normalized_ids_err(raw, (n + 1) as nat, e);
    } else {
        assert(raw.take(n as int) =~= raw);
    }
}

/// `role_remove`: the roles whose ids are named leave the registry, which
/// is normalized; refused when an id is not one, when no role is named, or
/// when none of the named roles exists.
#[verifier::rlimit(40)]
pub fn role_remove_action(
    registry: &mut RoleRegistryFile,
    action: &str,
    role: Option<&DynamicRoleDraft>,
    role_ids: &Vec<String>,
    now_ms: u64,
) -> (r: Result<RoleRemoveOutcome, RoleActionError>)
    ensures
        match remove_ids_spec(role, role_ids) {
            Err(e) => (r matches Err(RoleActionError::Role(x)) && x@ == e) && *final(registry) == *old(registry),
            Ok(ids) => {
                let ms = role_models(old(registry).roles@);
                let removed = roles_named(ms, ids, true);
                let kept = roles_named(ms, ids, false);
                if removed.len() == 0 {
                    (r matches Err(RoleActionError::NothingToRemove(x)) && x@ == join_spec(ids, ", "@))
                        && *final(registry) == *old(registry)
                } else {
                    &&& normalized_from(*final(registry), kept, now_ms)
                    &&& match norm_error(kept, now_ms) {
                        Some(e) => r matches Err(RoleActionError::Role(x)) && x@ == e,
                        None => r matches Ok(out) && {
                            &&& strings_view(out.model_lines@) == header_spec(action@) + seq![
                                "roles:"@ + join_spec(model_ids(removed), "|"@),
                            ]
                            &&& role_models(out.removed@) == removed
                        },
                    }
                }
            },
        },
{
    let ids: Vec<String> = if role_ids.len() > 0 {
        match normalize_ids(role_ids) {
            Err(e) => return Err(RoleActionError::Role(e)),
            Ok(v) => v,
        }
    } else {
        match role_id_from_inputs(role, role_ids) {
            Err(e) => return Err(RoleActionError::Role(e)),
            Ok(id) => {
                let mut v: Vec<String> = Vec::new();
                v.push(id);
                assert(strings_view(v@) =~= seq![v@[0]@]);
                v
            },
        }
    };
    let ghost ms = role_models(registry.roles@);
    let ghost idv = strings_view(ids@);
    let mut removed: Vec<DynamicRoleSpec> = Vec::new();
    let mut kept: Vec<DynamicRoleSpec> = Vec::new();
    let mut i: usize = 0;
    while i < registry.roles.len()
        invariant
            i <= registry.roles@.len(),
            ms == role_models(registry.roles@),
            idv == strings_view(ids@),
            role_models(removed@) == roles_named(ms.take(i as int), idv, true),
            role_models(kept@) == roles_named(ms.take(i as int), idv, false),
        decreases registry.roles@.len() - i,
    {
        proof {
            assert(ms.take(i + 1).drop_last() =~= ms.take(i as int));
            assert(ms.take(i + 1).last() == registry.roles@[i as int]@);
        }
        let c = copy_role(&registry.roles[i]);
        if contains_string(&ids, &registry.roles[i].id) {
            let ghost b = role_models(removed@);
            removed.push(c);
            assert(role_models(removed@) =~= b.push(ms[i as int]));
        } else {
            let ghost b = role_models(kept@);
            kept.push(c);
            assert(role_models(kept@) =~= b.push(ms[i as int]));
        }
        i += 1;
    }
    assert(ms.take(ms.len() as int) =~= ms);
    if removed.len() == 0 {
        return Err(RoleActionError::NothingToRemove(chars_to_string(&join_strings(&ids, ", "))));
    }
    let mut names: Vec<String> = Vec::new();
    let mut j: usize = 0;
    while j < removed.len()
        invariant
            j <= removed@.len(),
            strings_view(names@) == model_ids(role_models(removed@)).take(j as int),
        decreases removed@.len() - j,
    {
        let ghost b = strings_view(names@);
        names.push(chars_to_string(&str_chars(removed[j].id.as_str())));
        assert(strings_view(names@) =~= b.push(removed@[j as int].id@));
        assert(model_ids(role_models(removed@)).take(j + 1) =~= b.push(removed@[j as int].id@));
        j += 1;
    }
    assert(model_ids(role_models(removed@)).take(removed@.len() as int) =~= model_ids(role_models(removed@)));
    let mut lines = header(action);
    let ghost h = strings_view(lines@);
    let mut l1 = str_chars("roles:");
    push_chars(&mut l1, &join_strings(&names, "|"));
    lines.push(chars_to_string(&l1));
    assert(strings_view(lines@) =~= h + seq!["roles:"@ + join_spec(model_ids(role_models(removed@)), "|"@)]);
    registry.roles = kept;
    match normalize_registry(registry, now_ms) {
        Err(e) => Err(RoleActionError::Role(e)),
        Ok(()) => Ok(RoleRemoveOutcome { model_lines: lines, removed }),
    }
}

/// What `role_remove` answers the user: the ids taken out, then the paths
/// deleted with them, or `(none)`.
pub fn role_removed_preview(removed_ids: &Vec<String>, deleted: &Vec<String>) -> (r: String)
    ensures
        r@ == "removed: "@ + join_spec(strings_view(removed_ids@), ", "@) + "\ndeleted:\n"@ + (if deleted@.len() == 0 {
            "(none)"@
        } else {
            join_spec(strings_view(deleted@), "\n"@)
        }),
{
    let mut out = str_chars("removed: ");
    push_chars(&mut out, &join_strings(removed_ids, ", "));
    push_str(&mut out, "\ndeleted:\n");
    if deleted.len() == 0 {
        push_str(&mut out, "(none)");
    } else {
        push_chars(&mut out, &join_strings(deleted, "\n"));
    }
    chars_to_string(&out)
}


/// Another role than `id` uses this context directory, in any ASCII case.
pub open spec fn other_has_dir(ms: Seq<RoleModel>, id: Seq<char>, dir: Seq<char>) -> bool {
    exists|i: int| 0 <= i < ms.len() && (#[trigger] ms[i]).id != id && lower_spec(ms[i].context_dir) == lower_spec(dir)
}

fn other_dir_exec(v: &Vec<DynamicRoleSpec>, id: &String, dir: &String) -> (r: bool)
    ensures
        r == other_has_dir(role_models(v@), id@, dir@),
{
    let ghost ms = role_models(v@);
    let key = lower_chars(&str_chars(dir.as_str()));
    let mut i: usize = 0;
    while i < v.len()
        invariant
            i <= v@.len(),
            ms == role_models(v@),
            key@ == lower_spec(dir@),
            forall|j: int| 0 <= j < i ==> !((#[trigger] ms[j]).id != id@ && lower_spec(ms[j].context_dir) == lower_spec(dir@)),
        decreases v@.len() - i,
    {
        if v[i].id != *id && chars_eq(&lower_chars(&str_chars(v[i].context_dir.as_str())), &key) {
            assert(ms[i as int].id != id@ && lower_spec(ms[i as int].context_dir) == lower_spec(dir@));
            return true;
        }
        i += 1;
    }
    false
}

pub open spec fn kind_of_base(b: Option<Seq<char>>) -> PersonaKind {
    match b {
        Some(x) => match alias_spec(x) {
            Some(p) => p,
            None => PersonaKind::Coding,
        },
        None => PersonaKind::Coding,
    }
}

/// A role with the fields a request sets replaced, each normalized as a
/// new role's would be; the tools follow the context mode; refused when a
/// given base persona, copy source or managed id is not valid, or an
/// advisor would manage more than four roles.
pub open spec fn updated_role_spec(m: RoleModel, d: DynamicRoleDraft, dir: Option<Seq<char>>, now: u64) -> Result<
    RoleModel,
    RoleErr,
> {
    let name = match opt_string(d.display_name) {
        Some(n) => if display_name_spec(n).len() > 0 {
            display_name_spec(n)
        } else {
            m.display_name
        },
        None => m.display_name,
    };
    let glyph = match opt_string(d.glyph) {
        Some(g) => glyph_spec(g),
        None => m.glyph,
    };
    let cdir = match dir {
        Some(c) => c,
        None => m.context_dir,
    };
    match (if d.base_persona is Some {
        base_persona_spec(opt_string(d.base_persona))
    } else {
        Ok(m.base_persona)
    }) {
        Err(e) => Err(e),
        Ok(bp) => match (if d.copy_from is Some {
            copy_source_spec(opt_string(d.copy_from))
        } else {
            Ok(m.copy_source)
        }) {
            Err(e) => Err(e),
            Ok(cs) => match (match opt_list(d.managed_role_ids) {
                Some(l) => managed_ids_spec(l),
                None => Ok(m.managed_role_ids),
            }) {
                Err(e) => Err(e),
                Ok(mg) => {
                    let tools0 = match opt_list(d.default_tools) {
                        Some(t) => tool_ids_spec(t),
                        None => m.default_tools,
                    };
                    let mode = match d.context_governance {
                        Some(g) => governance_mode_spec(g.mode@),
                        None => m.mode,
                    };
                    if kind_of_base(bp) == PersonaKind::Advisor && mg.len() > 4 {
                        Err(RoleErr::TooManyManaged(m.id, mg.len()))
                    } else {
                        Ok(
                            RoleModel {
                                display_name: name,
                                glyph,
                                context_dir: cdir,
                                base_persona: bp,
                                copy_source: cs,
                                default_tools: governed_tools_spec(tools0, mode),
                                managed_role_ids: mg,
                                enabled: match d.enabled {
                                    Some(e) => e,
                                    None => m.enabled,
                                },
                                mode,
                                manage_threshold_kb: match d.context_governance {
                                    Some(g) => clamp_kb(g.manage_threshold_kb),
                                    None => m.manage_threshold_kb,
                                },
                                compact_threshold_kb: match d.context_governance {
                                    Some(g) => clamp_kb(g.compact_threshold_kb),
                                    None => m.compact_threshold_kb,
                                },
                                report_to_matrix: match d.context_governance {
                                    Some(g) => g.report_to_matrix,
                                    None => m.report_to_matrix,
                                },
                                updated_at_ms: now,
                                ..m
                            },
                        )
                    }
                },
            },
        },
    }
}

/// The context directory an update asks for, normalized, or none asked.
pub open spec fn requested_dir_spec(d: DynamicRoleDraft, id: Seq<char>) -> Result<Option<Seq<char>>, RoleErr> {
    if d.context_dir is Some {
        match context_dir_spec(opt_string(d.context_dir), id) {
            Ok(c) => Ok(Some(c)),
            Err(e) => Err(e),
        }
    } else {
        Ok(None)
    }
}

/// What `role_update` answers, the role as updated, the prompt to write
/// (when one was given) and the role's context directory before.
pub struct RoleUpdateOutcome {
    pub model_lines: Vec<String>,
    pub output_preview: String,
    pub updated: DynamicRoleSpec,
    pub prompt: Option<String>,
    pub old_context_dir: String,
}

pub open spec fn updated_preview_spec(m: RoleModel, title: Seq<char>) -> Seq<char> {
    "updated: "@ + m.id + "\nlabel: "@ + title + "\ncontext: context/"@ + m.context_dir + "\ntools: "@ + list_or_none(
        m.default_tools,
        ", "@,
    ) + "\nmanaged_roles: "@ + list_or_none(m.managed_role_ids, ", "@)
}

/// `role_update`: the role the request names gets the fields it sets (see
/// `updated_role_spec`) and is stamped `now`; the registry is normalized.
/// Refused without a role object or a role named, when the requested
/// context directory is not valid or another role uses it, for an unknown
/// role, or when a field is refused. Whether each tool suits the role is
/// left to the tool catalogue.
#[verifier::rlimit(100)]
#[verifier::spinoff_prover]
pub fn role_update_action(
    registry: &mut RoleRegistryFile,
    action: &str,
    role: Option<DynamicRoleDraft>,
    role_ids: &Vec<String>,
    now_ms: u64,
) -> (r: Result<RoleUpdateOutcome, RoleActionError>)
    ensures
        role is None ==> (r matches Err(RoleActionError::MissingRole(a)) && a@ == "role_update"@) && *final(registry)
            == *old(registry),
        role matches Some(d) ==> match target_id_spec(opt_string(d.id), strings_view(role_ids@)) {
            Err(e) => (r matches Err(RoleActionError::Role(x)) && x@ == e) && *final(registry) == *old(registry),
            Ok(id) => {
                let ms = role_models(old(registry).roles@);
                match requested_dir_spec(d, id) {
                    Err(e) => (r matches Err(RoleActionError::Role(x)) && x@ == e) && *final(registry) == *old(registry),
                    Ok(dir) => if dir matches Some(c) && other_has_dir(ms, id, c) {
                        (r matches Err(RoleActionError::ContextDirTaken(x)) && dir == Some(x@)) && *final(registry)
                            == *old(registry)
                    } else {
                        match first_role_index(ms, id) {
                            None => (r matches Err(RoleActionError::NotFound(x)) && x@ == id) && *final(registry)
                                == *old(registry),
                            Some(k) => match updated_role_spec(ms[k], d, dir, now_ms) {
                                Err(e) => (r matches Err(RoleActionError::Role(x)) && x@ == e) && *final(registry)
                                    == *old(registry),
                                Ok(u) => {
                                    &&& normalized_from(*final(registry), ms.update(k, u), now_ms)
                                    &&& match norm_error(ms.update(k, u), now_ms) {
                                        Some(e) => r matches Err(RoleActionError::Role(x)) && x@ == e,
                                        None => r matches Ok(out) && {
                                            &&& strings_view(out.model_lines@) == header_spec(action@) + seq![
                                                "role:"@ + id,
                                            ]
                                            &&& out.updated@ == u
                                            &&& out.output_preview@ == updated_preview_spec(u, title_spec(out.updated))
                                            &&& opt_string(out.prompt) == opt_string(d.prompt)
                                            &&& out.old_context_dir@ == ms[k].context_dir
                                        },
                                    }
                                },
                            },
                        }
                    },
                }
            },
        },
{
    let draft = match role {
        None => return Err(RoleActionError::MissingRole(chars_to_string(&str_chars("role_update")))),
        Some(d) => d,
    };
    let id = match role_id_from_inputs(Some(&draft), role_ids) {
        Err(e) => return Err(RoleActionError::Role(e)),
        Ok(id) => id,
    };
    let ghost ms = role_models(registry.roles@);
    let requested: Option<String> = match &draft.context_dir {
        None => None,
        Some(raw) => {
            let c = match normalize_context_dir(Some(raw.as_str()), id.as_str()) {
                Err(e) => return Err(RoleActionError::Role(e)),
                Ok(c) => c,
            };
            if other_dir_exec(&registry.roles, &id, &c) {
                return Err(RoleActionError::ContextDirTaken(c));
            }
            Some(c)
        },
    };
    let ghost dir: Option<Seq<char>> = match &requested {
        Some(c) => Some(c@),
        None => None,
    };
    assert(requested_dir_spec(draft, id@) == Ok::<Option<Seq<char>>, RoleErr>(dir));
    let k = match find_role_index(&registry.roles, &id) {
        None => return Err(RoleActionError::NotFound(id)),
        Some(k) => k,
    };
    let mut u = copy_role(&registry.roles[k]);
    let old_context_dir = chars_to_string(&str_chars(u.context_dir.as_str()));
    if let Some(n) = &draft.display_name {
        let name = normalize_display_name(n.as_str());
        if str_chars(name.as_str()).len() > 0 {
            u.display_name = name;
        }
    }
    if let Some(g) = &draft.glyph {
        u.glyph = normalize_glyph(g.as_str());
    }
    if let Some(c) = requested {
        u.context_dir = c;
    }
    if let Some(b) = &draft.base_persona {
        u.base_persona = match normalize_base_persona(Some(b.as_str())) {
            Err(e) => return Err(RoleActionError::Role(e)),
            Ok(v) => v,
        };
    }
    if let Some(c) = &draft.copy_from {
        u.copy_source = match normalize_copy_source(Some(c.as_str())) {
            Err(e) => return Err(RoleActionError::Role(e)),
            Ok(v) => v,
        };
    }
    if let Some(t) = &draft.default_tools {
        u.default_tools = normalize_tool_ids(t);
    }
    if let Some(m) = &draft.managed_role_ids {
        u.managed_role_ids = match normalize_managed_role_ids(m) {
            Err(e) => return Err(RoleActionError::Role(e)),
            Ok(v) => v,
        };
    }
    if let Some(e) = draft.enabled {
        u.enabled = e;
    }
    if let Some(g) = &draft.context_governance {
        u.context_governance = normalize_context_governance(copy_governance(g));
    }
    sync_role_context_governance_tools(&mut u);
    if let Err(e) = validate_role_management_limits(&u) {
        return Err(RoleActionError::Role(e));
    }
    u.updated_at_ms = now_ms;
    assert(u@ == updated_role_spec(ms[k as int], draft, dir, now_ms).get_Ok_0());
    let title = u.contract().identity.title;
    let mut p = str_chars("updated: ");
    push_str(&mut p, u.id.as_str());
    push_str(&mut p, "\nlabel: ");
    push_str(&mut p, title.as_str());
    push_str(&mut p, "\ncontext: context/");
    push_str(&mut p, u.context_dir.as_str());
    push_str(&mut p, "\ntools: ");
    push_chars(&mut p, &list_or_none_exec(&u.default_tools, ", "));
    push_str(&mut p, "\nmanaged_roles: ");
    push_chars(&mut p, &list_or_none_exec(&u.managed_role_ids, ", "));
    let mut lines = header(action);
    let ghost h = strings_view(lines@);
    let mut l1 = str_chars("role:");
    push_str(&mut l1, id.as_str());
    lines.push(chars_to_string(&l1));
    assert(strings_view(lines@) =~= h + seq!["role:"@ + id@]);
    let prompt = match &draft.prompt {
        Some(t) => Some(chars_to_string(&str_chars(t.as_str()))),
        None => None,
    };
    registry.roles.set(k, copy_role(&u));
    assert(role_models(registry.roles@) =~= ms.update(k as int, u@));
    match normalize_registry(registry, now_ms) {
        Err(e) => Err(RoleActionError::Role(e)),
        Ok(()) => Ok(
            RoleUpdateOutcome { model_lines: lines, output_preview: chars_to_string(&p), updated: u, prompt, old_context_dir },
        ),
    }
}


pub open spec fn source_text(cs: Option<Seq<char>>) -> Seq<char> {
    match cs {
        Some(c) => c,
        None => "(none)"@,
    }
}

/// What `role_copy` answers the user.
pub open spec fn copied_preview_spec(m: RoleModel, title: Seq<char>) -> Seq<char> {
    "copied: "@ + m.id + "\nlabel: "@ + title + "\ncontext: context/"@ + m.context_dir + "\nsource: "@ + source_text(
        m.copy_source,
    ) + "\ntools: "@ + list_or_none(m.default_tools, ", "@) + "\nmanaged_roles: "@ + list_or_none(
        m.managed_role_ids,
        ", "@,
    )
}

fn source_text_exec(o: &Option<String>) -> (r: Vec<char>)
    ensures
        r@ == source_text(opt_string(*o)),
{
    match o {
        Some(c) => str_chars(c.as_str()),
        None => str_chars("(none)"),
    }
}

/// `role_copy`: a copy of `source` (a persona or a role, resolved by the
/// caller from the request's `copy_from`) joins the registry, which is
/// normalized; refused when the copy is refused, or when its id or (in any
/// ASCII case) its context directory is taken. The copy's files are to be
/// laid out with the request's prompt, else the source's.
pub fn role_copy_action(
    registry: &mut RoleRegistryFile,
    action: &str,
    draft: DynamicRoleDraft,
    source: RoleCopySource,
    now_ms: u64,
) -> (r: Result<RoleActionOutcome, RoleActionError>)
    ensures
        match copy_role_spec(old(registry).roles@, source, draft, now_ms) {
            Err(e) => (r matches Err(RoleActionError::Role(x)) && x@ == e) && *final(registry) == *old(registry),
            Ok(m) => if has_model_id(role_models(old(registry).roles@), m.id) {
                (r matches Err(RoleActionError::Exists(id)) && id@ == m.id) && *final(registry) == *old(registry)
            } else if has_model_dir(role_models(old(registry).roles@), m.context_dir) {
                (r matches Err(RoleActionError::ContextDirExists(dir)) && dir@ == m.context_dir) && *final(registry)
                    == *old(registry)
            } else {
                &&& normalized_from(*final(registry), role_models(old(registry).roles@).push(m), now_ms)
                &&& match norm_error(role_models(old(registry).roles@).push(m), now_ms) {
                    Some(e) => r matches Err(RoleActionError::Role(x)) && x@ == e,
                    None => r matches Ok(out) && {
                        &&& strings_view(out.model_lines@) == header_spec(action@) + seq![
                            "role:"@ + m.id,
                            "context_dir:context/"@ + m.context_dir,
                            "copy_source:"@ + source_text(m.copy_source),
                        ]
                        &&& out.layout matches Some((created, prompt)) && created@ == m && opt_string(prompt) == Some(
                            match opt_string(draft.prompt) {
                                Some(p) => p,
                                None => source.prompt@,
                            },
                        ) && out.output_preview@ == copied_preview_spec(m, title_spec(created))
                    },
                }
            },
        },
{
    let prompt = match &draft.prompt {
        Some(p) => chars_to_string(&str_chars(p.as_str())),
        None => chars_to_string(&str_chars(source.prompt.as_str())),
    };
    let created = match build_copy_role_spec(registry, source, draft, now_ms) {
        Err(e) => return Err(RoleActionError::Role(e)),
        Ok(c) => c,
    };
    if find_model_id(&registry.roles, &created.id) {
        return Err(RoleActionError::Exists(chars_to_string(&str_chars(created.id.as_str()))));
    }
    if find_model_dir(&registry.roles, &created.context_dir) {
        return Err(RoleActionError::ContextDirExists(chars_to_string(&str_chars(created.context_dir.as_str()))));
    }
    let mut lines = header(action);
    let ghost h = strings_view(lines@);
    let mut l1 = str_chars("role:");
    push_str(&mut l1, created.id.as_str());
    lines.push(chars_to_string(&l1));
    let mut l2 = str_chars("context_dir:context/");
    push_str(&mut l2, created.context_dir.as_str());
    lines.push(chars_to_string(&l2));
    let mut l3 = str_chars("copy_source:");
    push_chars(&mut l3, &source_text_exec(&created.copy_source));
    lines.push(chars_to_string(&l3));
    assert(strings_view(lines@) =~= h + seq![
        "role:"@ + created.id@,
        "context_dir:context/"@ + created.context_dir@,
        "copy_source:"@ + source_text(opt_string(created.copy_source)),
    ]);
    let title = created.contract().identity.title;
    let mut p = str_chars("copied: ");
    push_str(&mut p, created.id.as_str());
    push_str(&mut p, "\nlabel: ");
    push_str(&mut p, title.as_str());
    push_str(&mut p, "\ncontext: context/");
    push_str(&mut p, created.context_dir.as_str());
    push_str(&mut p, "\nsource: ");
    push_chars(&mut p, &source_text_exec(&created.copy_source));
    push_str(&mut p, "\ntools: ");
    push_chars(&mut p, &list_or_none_exec(&created.default_tools, ", "));
    push_str(&mut p, "\nmanaged_roles: ");
    push_chars(&mut p, &list_or_none_exec(&created.managed_role_ids, ", "));
    let ghost before = registry.roles@;
    registry.roles.push(copy_role(&created));
    assert(role_models(registry.roles@) =~= role_models(before).push(created@));
    match normalize_registry(registry, now_ms) {
        Err(e) => Err(RoleActionError::Role(e)),
        Ok(()) => Ok(
            RoleActionOutcome { model_lines: lines, output_preview: chars_to_string(&p), layout: Some((created, Some(prompt))) },
        ),
    }
}


impl RoleActionError {
    /// The refusal as the model is told it.
    pub fn message(&self) -> (r: String)
        ensures
            self matches RoleActionError::Role(e) ==> r@ == e.message_spec(),
            self matches RoleActionError::MissingRole(a) ==> r@ == a@ + " 需要 role 对象"@,
            self matches RoleActionError::Exists(id) ==> r@ == "动态角色已存在："@ + id@,
            self matches RoleActionError::ContextDirExists(d) ==> r@ == "动态角色 context_dir 已存在："@ + d@,
            self matches RoleActionError::NotFound(id) ==> r@ == "动态角色不存在："@ + id@,
            self matches RoleActionError::MissingToolIds(a) ==> r@ == a@ + " 需要 tool_ids"@,
            self matches RoleActionError::NothingToRemove(ids) ==> r@ == "没有可移除的动态角色："@ + ids@,
            self matches RoleActionError::ContextDirTaken(d) ==> r@ == "动态角色 context_dir 已被其它角色使用："@ + d@,
            self matches RoleActionError::UnsupportedAction(a) ==> r@ == "不支持的动态角色 tool_manage.action："@ + a@,
            self matches RoleActionError::MissingCopySource ==> r@ == "role_copy 需要 role.copy_from"@,
    {
        match self {
            RoleActionError::Role(e) => e.message(),
            RoleActionError::MissingRole(a) => {
                let mut out = str_chars(a.as_str());
                push_str(&mut out, " 需要 role 对象");
                chars_to_string(&out)
            },
            RoleActionError::Exists(id) => {
                let mut out = str_chars("动态角色已存在：");
                push_str(&mut out, id.as_str());
                chars_to_string(&out)
            },
            RoleActionError::ContextDirExists(d) => {
                let mut out = str_chars("动态角色 context_dir 已存在：");
                push_str(&mut out, d.as_str());
                chars_to_string(&out)
            },
            RoleActionError::NotFound(id) => {
                let mut out = str_chars("动态角色不存在：");
                push_str(&mut out, id.as_str());
                chars_to_string(&out)
            },
            RoleActionError::MissingToolIds(a) => {
                let mut out = str_chars(a.as_str());
                push_str(&mut out, " 需要 tool_ids");
                chars_to_string(&out)
            },
            RoleActionError::NothingToRemove(ids) => {
                let mut out = str_chars("没有可移除的动态角色：");
                push_str(&mut out, ids.as_str());
                chars_to_string(&out)
            },
            RoleActionError::ContextDirTaken(d) => {
                let mut out = str_chars("动态角色 context_dir 已被其它角色使用：");
                push_str(&mut out, d.as_str());
                chars_to_string(&out)
            },
            RoleActionError::UnsupportedAction(a) => {
                let mut out = str_chars("不支持的动态角色 tool_manage.action：");
                push_str(&mut out, a.as_str());
                chars_to_string(&out)
            },
            RoleActionError::MissingCopySource => chars_to_string(&str_chars("role_copy 需要 role.copy_from")),
        }
    }
}

/// Where a copy starts from: the request's `copy_from`, else its base
/// persona; none names no source.
pub fn copy_source_key(draft: &DynamicRoleDraft) -> (r: Option<String>)
    ensures
        opt_string(r) == (match opt_string(draft.copy_from) {
            Some(c) => Some(c),
            None => opt_string(draft.base_persona),
        }),
{
    match &draft.copy_from {
        Some(c) => Some(chars_to_string(&str_chars(c.as_str()))),
        None => match &draft.base_persona {
            Some(b) => Some(chars_to_string(&str_chars(b.as_str()))),
            None => None,
        },
    }
}

} // verus!
