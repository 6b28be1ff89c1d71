//! How a tool call is announced before it runs: its brief, its kind and
//! action labels, and a preview of its input.
use vstd::prelude::*;

use crate::agent_args::{
    build_structured_agent_input_preview, derive_spawn_agent_brief, named_ids, named_sessions, increasing,
    same_set, sorted_strings, spawn_brief_spec, strings_view, structured_input_check, structured_preview_spec,
    validate_structured_agent_input, PtyKillArgs, SendInputArgs, SingleAgentArgs, SpawnAgentArgs, WaitAgentArgs,
};
use crate::command::{
    brief_spec, exec_brief_spec, interaction_action_spec, normalize_brief, opt_str_view, opt_string_view,
    resolve_exec_command_brief, terminal_input_pending_action_label, truncate_chars,
};
use crate::memory_args::{
    build_memory_add_input_preview, build_memory_check_input_preview, build_memory_read_input_preview,
    build_memory_replace_input_preview, build_memory_search_input_preview, memory_add_brief_spec,
    memory_add_preview_spec, memory_check_preview_spec, memory_read_preview_spec, memory_replace_preview_spec,
    memory_search_preview_spec, resolve_memory_add_brief, resolve_memory_check_brief, resolve_memory_read_brief,
    resolve_memory_replace_brief, resolve_memory_search_brief, MemoryAddArgs, MemoryCheckArgs, MemoryReadArgs,
    MemoryReplaceArgs, MemorySearchArgs,
};
use crate::patch_view::{apply_patch_input_preview_spec, build_apply_patch_input_preview};
use crate::plan::{
    build_update_plan_input_preview, derive_update_plan_brief, normalize_update_plan, plan_brief_spec,
    plan_input_preview_spec, plan_outcome, NormalizedUpdatePlan, UpdatePlanArgs, UpdatePlanError,
};
use crate::tool_args::{
    action_key_spec, build_context_manage_input_preview, build_toolbox_manage_input_preview,
    context_manage_action_key, context_manage_labels, context_manage_preview_spec, labels_spec,
    resolve_toolbox_manage_brief, task_action_key_spec, task_mode_to_context_manage_args, toolbox_brief_spec,
    toolbox_preview_spec, truncate_preview, truncate_preview_spec, TaskModeArgs, ToolboxManageArgs,
};
use crate::persona::PersonaKind;
use crate::tools::{
    agent_label_text, agent_number_spec, default_brief_spec, default_tool_brief, parallel_action_spec,
    parallel_allowed_spec, parallel_tool_action, parallel_tool_allowed_for_persona, recipient_spec,
    strip_parallel_recipient_name, ContextManageArgs,
};
use crate::user_input::{
    build_request_user_input_preview, derive_request_user_input_brief, question_lines, user_input_brief_spec,
    user_input_check, validate_request_user_input_arguments, RequestUserInputArgs,
};
use crate::patch::{ops_view, parse_codex_patch, parse_patch_spec, CodexPatchOperation, OpModel};
use crate::text::{
    chars_eq, chars_eq_str, chars_to_string, contains_chars, contains_spec, dec_spec, ellipsis_spec, lower_chars,
    lower_spec, push_chars, push_dec, push_str, starts_with_spec, starts_with_str, str_chars, trim_chars, trim_spec,
};

verus! {

/// The project directory, relative to the home directory.
pub const PROJECTYING_REL_PATH: &'static str = "AItermux/projectying";

// ---------------------------------------------------------------------------
// Paths
// ---------------------------------------------------------------------------

/// The path without its leading `./` prefixes.
pub open spec fn trim_dot_slash(s: Seq<char>) -> Seq<char>
    decreases s.len(),
{
    if s.len() >= 2 && s[0] == '.' && s[1] == '/' {
        trim_dot_slash(s.skip(2))
    } else {
        s
    }
}

pub fn trim_relative_prefixes(raw: &str) -> (r: String)
    ensures
        r@ == trim_dot_slash(raw@),
{
    let s = str_chars(raw);
    let mut k: usize = 0;
    assert(s@.skip(0) =~= s@);
    while s.len() - k >= 2 && s[k] == '.' && s[k + 1] == '/'
        invariant
            k <= s@.len(),
            s@ == raw@,
            trim_dot_slash(raw@) == trim_dot_slash(s@.skip(k as int)),
        decreases s@.len() - k,
    {
        proof {
            assert(s@.skip(k as int).skip(2) =~= s@.skip(k + 2));
        }
        k += 2;
    }
    let mut out: Vec<char> = Vec::new();
    let mut i: usize = k;
    while i < s.len()
        invariant
            k <= i <= s@.len(),
            out@ == s@.subrange(k as int, i as int),
        decreases s@.len() - i,
    {
        out.push(s[i]);
        proof {
            assert(s@.subrange(k as int, i + 1) =~= s@.subrange(k as int, i as int).push(s@[i as int]));
        }
        i += 1;
    }
    assert(s@.subrange(k as int, s@.len() as int) =~= s@.skip(k as int));
    chars_to_string(&out)
}

/// A path under the home alias: `home` itself or below it.
pub open spec fn home_alias_spec(raw: Seq<char>) -> bool {
    let t = trim_dot_slash(trim_spec(raw));
    t == "home"@ || starts_with_spec(t, "home/"@)
}

pub fn is_home_alias_path(raw: &str) -> (r: bool)
    ensures
        r == home_alias_spec(raw@),
{
    let t = trim_relative_prefixes(chars_to_string(&trim_chars(&str_chars(raw))).as_str());
    let tc = str_chars(t.as_str());
    chars_eq_str(&tc, "home") || starts_with_str(&tc, "home/")
}

/// The parts of a path between its slashes, without empty and `.` parts.
pub open spec fn path_parts(s: Seq<char>, cur: Seq<char>) -> Seq<Seq<char>>
    decreases s.len(),
{
    if s.len() == 0 {
        if cur.len() == 0 || cur == "."@ {
            Seq::empty()
        } else {
            seq![cur]
        }
    } else if s[0] == '/' {
        let rest = path_parts(s.drop_first(), Seq::empty());
        if cur.len() == 0 || cur == "."@ {
            rest
        } else {
            seq![cur] + rest
        }
    } else {
        path_parts(s.drop_first(), cur.push(s[0]))
    }
}

/// The last part of a path, unless the path ends in `..` or has no part.
pub open spec fn file_name_spec(path: Seq<char>) -> Option<Seq<char>> {
    let parts = path_parts(path, Seq::empty());
    if parts.len() == 0 || parts.last() == ".."@ {
        None
    } else {
        Some(parts.last())
    }
}

proof fn lemma_path_parts_tail(s: Seq<char>, cur: Seq<char>)
    ensures
        path_parts(s, cur).len() > 0 ==> path_parts(s, cur).last() == last_part(s, cur),
        path_parts(s, cur).len() == 0 <==> last_part(s, cur).len() == 0,
    decreases s.len(),
{
    if s.len() > 0 {
        if s[0] == '/' {
            lemma_path_parts_tail(s.drop_first(), Seq::empty());
        } else {
            lemma_path_parts_tail(s.drop_first(), cur.push(s[0]));
        }
    }
}

/// The last part a scan from `cur` finds, or nothing.
pub open spec fn last_part(s: Seq<char>, cur: Seq<char>) -> Seq<char>
    decreases s.len(),
{
    if s.len() == 0 {
        if cur.len() == 0 || cur == "."@ {
            Seq::empty()
        } else {
            cur
        }
    } else if s[0] == '/' {
        let rest = last_part(s.drop_first(), Seq::empty());
        if rest.len() > 0 {
            rest
        } else if cur.len() == 0 || cur == "."@ {
            Seq::empty()
        } else {
            cur
        }
    } else {
        last_part(s.drop_first(), cur.push(s[0]))
    }
}

fn is_dot(v: &Vec<char>) -> (r: bool)
    ensures
        r == (v@ == "."@),
{
    chars_eq_str(v, ".")
}

/// The file name of a path, as `Path::file_name` gives it.
pub fn file_name_of(path: &str) -> (r: Option<String>)
    ensures
        match file_name_spec(path@) {
            Some(n) => r matches Some(x) && x@ == n,
            None => r is None,
        },
{
    let s = str_chars(path);
    let mut last: Vec<char> = Vec::new();
    let mut cur: Vec<char> = Vec::new();
    let mut i: usize = 0;
    proof {
        lemma_path_parts_tail(s@, Seq::empty());
        assert(s@.skip(0) =~= s@);
    }
    while i < s.len()
        invariant
            i <= s@.len(),
            s@ == path@,
            last_part(path@, Seq::empty()) == (if last_part(s@.skip(i as int), cur@).len() > 0 {
                last_part(s@.skip(i as int), cur@)
            } else {
                last@
            }),
        decreases s@.len() - i,
    {
        proof {
            assert(s@.skip(i as int).drop_first() =~= s@.skip(i + 1));
            assert(s@.skip(i as int)[0] == s@[i as int]);
        }
        if s[i] == '/' {
            if cur.len() > 0 && !is_dot(&cur) {
                last = cur;
            }
            cur = Vec::new();
        } else {
            cur.push(s[i]);
        }
        i += 1;
    }
    if cur.len() > 0 && !is_dot(&cur) {
        last = cur;
    }
    proof {
        assert(s@.skip(s@.len() as int) =~= Seq::<char>::empty());
    }
    if last.len() == 0 || chars_eq_str(&last, "..") {
        None
    } else {
        Some(chars_to_string(&last))
    }
}

// ---------------------------------------------------------------------------
// Images
// ---------------------------------------------------------------------------

/// The brief of an image view: a screenshot is analysed, else the image
/// is viewed by its file name.
pub open spec fn view_image_brief_spec(path: Seq<char>) -> Seq<char> {
    let name = trim_spec(
        match file_name_spec(path) {
            Some(n) => n,
            None => path,
        },
    );
    if contains_spec(lower_spec(name), "screenshot"@) || contains_spec(name, "截图"@) {
        "分析截图"@
    } else if name.len() == 0 {
        "查看图片内容"@
    } else {
        ellipsis_spec("查看 "@ + name, 24)
    }
}

pub fn derive_view_image_brief(path: &str) -> (r: String)
    ensures
        r@ == view_image_brief_spec(path@),
{
    let raw = match file_name_of(path) {
        Some(n) => n,
        None => chars_to_string(&str_chars(path)),
    };
    let name = trim_chars(&str_chars(raw.as_str()));
    if contains_chars(&lower_chars(&name), &str_chars("screenshot")) || contains_chars(&name, &str_chars("截图")) {
        chars_to_string(&str_chars("分析截图"))
    } else if name.len() == 0 {
        chars_to_string(&str_chars("查看图片内容"))
    } else {
        let mut t = str_chars("查看 ");
        push_chars(&mut t, &name);
        truncate_chars(chars_to_string(&t).as_str(), 24)
    }
}

pub open spec fn brief_or(raw: Option<Seq<char>>, fallback: Seq<char>) -> Seq<char> {
    match brief_spec(raw) {
        Some(b) => b,
        None => fallback,
    }
}

pub fn resolve_view_image_brief(raw: Option<&str>, path: &str) -> (r: String)
    ensures
        r@ == brief_or(opt_str_view(raw), view_image_brief_spec(path@)),
{
    match normalize_brief(raw) {
        Some(b) => b,
        None => derive_view_image_brief(path),
    }
}

/// How an image path is shown: `(empty)`, the display form of an absolute
/// path, a home path without its `./`, or a path under the project.
pub open spec fn view_image_preview_spec(path: Seq<char>, absolute_display: Seq<char>) -> Seq<char> {
    let t = trim_spec(path);
    if t.len() == 0 {
        "(empty)"@
    } else if t[0] == '/' {
        absolute_display
    } else if home_alias_spec(t) {
        trim_dot_slash(t)
    } else {
        "./"@ + trim_dot_slash(t)
    }
}

/// The preview of an image path; `absolute_display` is how the caller shows
/// an absolute path (home directory abbreviated).
pub fn build_view_image_input_preview(path: &str, absolute_display: &str) -> (r: String)
    ensures
        r@ == view_image_preview_spec(path@, absolute_display@),
{
    let t = trim_chars(&str_chars(path));
    if t.len() == 0 {
        return chars_to_string(&str_chars("(empty)"));
    }
    if t[0] == '/' {
        return chars_to_string(&str_chars(absolute_display));
    }
    let ts = chars_to_string(&t);
    proof {
        assert(trim_spec(t@) == t@) by {
            crate::text::lemma_trim_fixed(path@);
        }
    }
    if is_home_alias_path(ts.as_str()) {
        trim_relative_prefixes(ts.as_str())
    } else {
        let mut out = str_chars("./");
        push_str(&mut out, trim_relative_prefixes(ts.as_str()).as_str());
        chars_to_string(&out)
    }
}

// ---------------------------------------------------------------------------
// Patches
// ---------------------------------------------------------------------------

/// The project directory under the names it goes by: its path from the
/// home directory, its own name, its home alias and its full path.
pub open spec fn project_aliases(root: Seq<char>) -> Seq<Seq<char>> {
    seq![PROJECTYING_REL_PATH@, "projectying"@, "home/"@ + PROJECTYING_REL_PATH@, root]
}

/// A path shown from the project directory: `.` for the directory itself,
/// the rest for a path below one of its names.
pub open spec fn label_from(t: Seq<char>, aliases: Seq<Seq<char>>, k: int) -> Seq<char>
    decreases aliases.len() - k,
{
    if k < 0 || k >= aliases.len() {
        t
    } else if t == aliases[k] {
        "."@
    } else if starts_with_spec(t, aliases[k] + "/"@) {
        t.skip(aliases[k].len() + 1int)
    } else {
        label_from(t, aliases, k + 1)
    }
}

pub open spec fn path_label_spec(raw: Seq<char>, root: Seq<char>) -> Seq<char> {
    let t = trim_dot_slash(trim_spec(raw));
    if t == "."@ {
        "."@
    } else {
        label_from(t, project_aliases(root), 0)
    }
}

fn skip_chars(s: &[char], k: usize) -> (r: Vec<char>)
    requires
        k <= s@.len(),
    ensures
        r@ == s@.skip(k as int),
{
    let mut out: Vec<char> = Vec::new();
    let mut i: usize = k;
    while i < s.len()
        invariant
            k <= i <= s@.len(),
            out@ == s@.subrange(k as int, i as int),
        decreases s@.len() - i,
    {
        out.push(s[i]);
        proof {
            assert(s@.subrange(k as int, i + 1) =~= s@.subrange(k as int, i as int).push(s@[i as int]));
        }
        i += 1;
    }
    assert(s@.subrange(k as int, s@.len() as int) =~= s@.skip(k as int));
    out
}

/// A path as a brief shows it, from the project directory; `root` is the
/// project directory's full path.
pub fn normalize_projectying_path_label(raw: &str, root: &str) -> (r: String)
    ensures
        r@ == path_label_spec(raw@, root@),
{
    let ts = trim_relative_prefixes(chars_to_string(&trim_chars(&str_chars(raw))).as_str());
    let t = str_chars(ts.as_str());
    if chars_eq_str(&t, ".") {
        return chars_to_string(&str_chars("."));
    }
    let mut home_rel = str_chars("home/");
    push_str(&mut home_rel, PROJECTYING_REL_PATH);
    let mut aliases: Vec<Vec<char>> = Vec::new();
    aliases.push(str_chars(PROJECTYING_REL_PATH));
    aliases.push(str_chars("projectying"));
    aliases.push(home_rel);
    aliases.push(str_chars(root));
    let ghost av = project_aliases(root@);
    assert(crate::text::views(aliases@) =~= av);
    let mut k: usize = 0;
    while k < aliases.len()
        invariant
            k <= aliases@.len(),
            crate::text::views(aliases@) == av,
            av == project_aliases(root@),
            t@ == trim_dot_slash(trim_spec(raw@)),
            t@ != "."@,
            label_from(t@, av, 0) == label_from(t@, av, k as int),
        decreases aliases@.len() - k,
    {
        let a = &aliases[k];
        assert(a@ == av[k as int]);
        if chars_eq(&t, a) {
            return chars_to_string(&str_chars("."));
        }
        let mut with_slash = a.clone();
        with_slash.push('/');
        proof {
            reveal_strlit("/");
            assert(with_slash@ =~= av[k as int] + "/"@);
        }
        if crate::text::starts_with_chars(&t, &with_slash) {
            let n = with_slash.len();
            assert(with_slash@.len() == a@.len() + 1);
            return chars_to_string(&skip_chars(&t, n));
        }
        k += 1;
    }
    ts
}

pub open spec fn op_path(op: OpModel) -> Seq<char> {
    match op {
        OpModel::Add { path, .. } => path,
        OpModel::Delete { path } => path,
        OpModel::Update { path, .. } => path,
    }
}

/// The brief of a patch: the file it changes, or how many files.
pub open spec fn apply_patch_brief_spec(patch: Seq<char>, root: Seq<char>) -> Seq<char> {
    match parse_patch_spec(patch) {
        Ok(ops) => if ops.len() == 0 {
            "应用补丁修改文件"@
        } else if ops.len() == 1 {
            ellipsis_spec("修改 "@ + path_label_spec(op_path(ops[0]), root), 24)
        } else {
            "修改 "@ + dec_spec(ops.len()) + " 个文件"@
        },
        Err(_) => "应用补丁修改文件"@,
    }
}

pub fn derive_apply_patch_brief(patch: &str, root: &str) -> (r: String)
    ensures
        r@ == apply_patch_brief_spec(patch@, root@),
{
    match parse_codex_patch(patch) {
        Err(_) => chars_to_string(&str_chars("应用补丁修改文件")),
        Ok(ops) => {
            if ops.len() == 0 {
                chars_to_string(&str_chars("应用补丁修改文件"))
            } else if ops.len() == 1 {
                let path: &String = match &ops[0] {
                    CodexPatchOperation::Add { path, .. } => path,
                    CodexPatchOperation::Delete { path } => path,
                    CodexPatchOperation::Update { path, .. } => path,
                };
                assert(ops_view(ops@)[0] == ops@[0]@);
                let mut t = str_chars("修改 ");
                push_str(&mut t, normalize_projectying_path_label(path.as_str(), root).as_str());
                truncate_chars(chars_to_string(&t).as_str(), 24)
            } else {
                let mut t = str_chars("修改 ");
                push_dec(&mut t, ops.len() as u64);
                push_str(&mut t, " 个文件");
                chars_to_string(&t)
            }
        },
    }
}

pub fn resolve_apply_patch_brief(raw: Option<&str>, patch: &str, root: &str) -> (r: String)
    ensures
        r@ == brief_or(opt_str_view(raw), apply_patch_brief_spec(patch@, root@)),
{
    match normalize_brief(raw) {
        Some(b) => b,
        None => derive_apply_patch_brief(patch, root),
    }
}

// ---------------------------------------------------------------------------
// Calls
// ---------------------------------------------------------------------------

/// How a tool call is announced.
#[derive(Debug, Clone, PartialEq, Eq)]
pub struct FunctionCallDisplay {
    pub brief: String,
    pub kind_label: String,
    pub action_label: String,
    pub command_preview: String,
}

#[derive(Debug, Clone, PartialEq, Eq)]
pub struct ExecCommandArgs {
    pub cmd: String,
    pub brief: Option<String>,
    pub tty: bool,
}

#[derive(Debug, Clone, PartialEq, Eq)]
pub struct WriteStdinArgs {
    pub session_id: u64,
    pub chars: String,
}

#[derive(Debug, Clone, PartialEq, Eq)]
pub struct ViewImageArgs {
    pub path: String,
    pub brief: Option<String>,
}

#[derive(Debug, Clone, PartialEq, Eq)]
pub struct ApplyPatchArgs {
    pub input: String,
    pub brief: Option<String>,
}

#[derive(Debug, Clone, PartialEq, Eq)]
pub struct SpawnAgentsOnCsvArgs {
    pub csv_path: String,
    pub instruction: String,
}

#[derive(Debug, Clone, PartialEq, Eq)]
pub struct ReportAgentJobResultArgs {
    pub job_id: String,
    pub item_id: String,
}

/// What a call's arguments read as, for the tool its name gives; `Unparsed`
/// when they do not read as that tool's arguments, or the tool takes none.
#[derive(Debug, Clone, PartialEq, Eq)]
pub enum ToolCallArgs {
    ExecCommand(ExecCommandArgs),
    WriteStdin(WriteStdinArgs),
    ViewImage(ViewImageArgs),
    ApplyPatch(ApplyPatchArgs),
    UpdatePlan(UpdatePlanArgs),
    ContextManage(ContextManageArgs),
    TaskMode(TaskModeArgs),
    ToolboxManage(ToolboxManageArgs),
    MemoryAdd(MemoryAddArgs),
    MemoryReplace(MemoryReplaceArgs),
    MemoryCheck(MemoryCheckArgs),
    MemorySearch(MemorySearchArgs),
    MemoryRead(MemoryReadArgs),
    /// A parallel batch: its brief, how many calls it holds, and the preview
    /// payload of its calls as the chat receives it.
    Parallel { brief: Option<String>, tool_use_count: usize, payload: String },
    RequestUserInput(RequestUserInputArgs),
    SpawnAgent(SpawnAgentArgs),
    SendInput(SendInputArgs),
    WaitAgent(WaitAgentArgs),
    ResumeAgent(SingleAgentArgs),
    CloseAgent(SingleAgentArgs),
    SpawnAgentsOnCsv(SpawnAgentsOnCsvArgs),
    ReportAgentJobResult(ReportAgentJobResultArgs),
    PtyKill(PtyKillArgs),
    Unparsed,
}

/// What the announcement needs from outside the call: how an absolute image
/// path is shown, the project directory's full path, and the label of the
/// context a `context_manage` call targets when the target is known.
#[derive(Debug, Clone, PartialEq, Eq)]
pub struct CallContext {
    pub absolute_path_display: String,
    pub project_root: String,
    pub context_target_label: Option<String>,
}

/// The brief of a context call with none given: what it does to which
/// context.
pub open spec fn context_brief_spec(raw: Option<Seq<char>>, action: Seq<char>, label: Option<Seq<char>>) -> Seq<char> {
    let target = match label {
        Some(l) => l,
        None => "外置上下文"@,
    };
    let k = action_key_spec(action);
    brief_or(
        raw,
        if k == "focus_enter"@ {
            "进入任务模式"@
        } else if k == "focus_exit"@ {
            "退出任务模式"@
        } else if k == "summary"@ {
            "收口"@ + target
        } else if k == "compact"@ {
            "压缩"@ + target
        } else {
            "写入"@ + target
        },
    )
}

pub fn resolve_context_manage_brief(raw: Option<&str>, args: &ContextManageArgs, target_label: Option<&str>) -> (r:
    String)
    ensures
        r@ == context_brief_spec(opt_str_view(raw), args.action@, opt_str_view(target_label)),
{
    match normalize_brief(raw) {
        Some(b) => b,
        None => {
            let k = str_chars(context_manage_action_key(args).as_str());
            let target: &str = match target_label {
                Some(l) => l,
                None => "外置上下文",
            };
            if chars_eq_str(&k, "focus_enter") {
                chars_to_string(&str_chars("进入任务模式"))
            } else if chars_eq_str(&k, "focus_exit") {
                chars_to_string(&str_chars("退出任务模式"))
            } else {
                let mut out = if chars_eq_str(&k, "summary") {
                    str_chars("收口")
                } else if chars_eq_str(&k, "compact") {
                    str_chars("压缩")
                } else {
                    str_chars("写入")
                };
                push_str(&mut out, target);
                chars_to_string(&out)
            }
        },
    }
}

/// The brief of a parallel batch with none given.
pub open spec fn parallel_brief_spec(raw: Option<Seq<char>>, count: nat) -> Seq<char> {
    brief_or(
        raw,
        if count == 0 {
            "并行探索"@
        } else {
            "并行探索 "@ + dec_spec(count) + " 项"@
        },
    )
}

pub fn resolve_parallel_tool_brief(raw: Option<&str>, tool_use_count: usize) -> (r: String)
    ensures
        r@ == parallel_brief_spec(opt_str_view(raw), tool_use_count as nat),
{
    match normalize_brief(raw) {
        Some(b) => b,
        None => if tool_use_count == 0 {
            chars_to_string(&str_chars("并行探索"))
        } else {
            let mut out = str_chars("并行探索 ");
            push_dec(&mut out, tool_use_count as u64);
            push_str(&mut out, " 项");
            chars_to_string(&out)
        },
    }
}

/// The announcement as plain values.
pub open spec fn shows(d: FunctionCallDisplay, brief: Seq<char>, kind: Seq<char>, action: Seq<char>, preview: Seq<
    char,
>) -> bool {
    d.brief@ == brief && d.kind_label@ == kind && d.action_label@ == action && d.command_preview@ == preview
}

/// The announcement of a call whose arguments did not read.
pub open spec fn default_shows(d: FunctionCallDisplay, name: Seq<char>, arguments: Seq<char>) -> bool {
    if name == "list_agent"@ {
        shows(d, default_brief_spec(name), "Agent"@, "List"@, "全部子代理（含已关闭）"@)
    } else if name == "pty_list"@ {
        shows(d, default_brief_spec(name), "TERMINAL"@, "List"@, "(list running terminal sessions)"@)
    } else {
        shows(d, default_brief_spec(name), "Tool"@, "Run"@, arguments)
    }
}

/// The context call a task-mode call stands for.
pub open spec fn converted_from(c: ContextManageArgs, a: TaskModeArgs) -> bool {
    &&& c.action@ == task_action_key_spec(a.action@)
    &&& c.target is None && c.section is None && c.role is None && c.kind is None && c.round_id is None
    &&& c.entry_ids@.len() == 0 && c.item_ids@.len() == 0
    &&& c.text is None
    &&& c.brief == a.brief && c.task == a.task && c.user_goal == a.user_goal && c.reason == a.reason
    &&& c.plan_a == a.plan_a && c.plan_b == a.plan_b && c.fallback == a.fallback && c.plan_c == a.plan_c
    &&& c.expected_result == a.expected_result && c.exit_condition == a.exit_condition
    &&& c.summary == a.summary && c.completed == a.completed && c.implemented == a.implemented
    &&& c.steps == a.steps && c.key_info == a.key_info && c.result == a.result && c.exit_reason == a.exit_reason
    &&& c.fastmemory_section == a.fastmemory_section && c.fastmemory_text == a.fastmemory_text
}

pub open spec fn label_lines(ids: Seq<Seq<char>>) -> Seq<char> {
    crate::text::join_lines(
        ids.map_values(
            |id: Seq<char>|
                match agent_number_spec(id) {
                    Some(n) => "#"@ + dec_spec(n as nat),
                    None => id,
                },
        ),
    )
}

pub open spec fn session_lines(ids: Seq<u64>) -> Seq<char> {
    crate::text::join_lines(ids.map_values(|id: u64| "session_id="@ + dec_spec(id as nat)))
}

/// A plan that reads, announced by its brief and preview.
pub open spec fn plan_shown(d: FunctionCallDisplay, a: UpdatePlanArgs, p: NormalizedUpdatePlan) -> bool {
    &&& plan_outcome(a, Ok(p))
    &&& shows(d, plan_brief_spec(p), "Plan"@, "Update"@, plan_input_preview_spec(p))
}

/// How the call named `name`, with these arguments read as `args`, is
/// announced.
pub open spec fn describes(
    name: Seq<char>,
    arguments: Seq<char>,
    args: ToolCallArgs,
    ctx: CallContext,
    d: FunctionCallDisplay,
) -> bool {
    match args {
        ToolCallArgs::ExecCommand(a) => if trim_spec(a.cmd@).len() > 0 {
            shows(
                d,
                brief_or(opt_string_view(a.brief), exec_brief_spec(a.cmd@)),
                if a.tty {
                    "TERMINAL"@
                } else {
                    "Command"@
                },
                if a.tty {
                    "启动中"@
                } else {
                    "Run"@
                },
                a.cmd@,
            )
        } else {
            default_shows(d, name, arguments)
        },
        ToolCallArgs::WriteStdin(a) => shows(
            d,
            default_brief_spec("write_stdin"@),
            "TERMINAL"@,
            interaction_action_spec(a.chars@) + "中"@,
            "session "@ + dec_spec(a.session_id as nat) + " · "@ + if trim_spec(a.chars@).len() == 0 {
                "(wait for terminal output)"@
            } else {
                crate::text::trim_end_spec(a.chars@)
            },
        ),
        ToolCallArgs::ViewImage(a) => shows(
            d,
            brief_or(opt_string_view(a.brief), view_image_brief_spec(a.path@)),
            "Image"@,
            "View"@,
            view_image_preview_spec(a.path@, ctx.absolute_path_display@),
        ),
        ToolCallArgs::ApplyPatch(a) => shows(
            d,
            brief_or(opt_string_view(a.brief), apply_patch_brief_spec(a.input@, ctx.project_root@)),
            "Patch"@,
            "Edit File"@,
            apply_patch_input_preview_spec(a.input@),
        ),
        ToolCallArgs::UpdatePlan(a) => (exists|p: NormalizedUpdatePlan| #[trigger] plan_shown(d, a, p)) || (
        default_shows(d, name, arguments) && forall|q: NormalizedUpdatePlan| !plan_outcome(a, Ok(q))),
        ToolCallArgs::ContextManage(a) => shows(
            d,
            context_brief_spec(opt_string_view(a.brief), a.action@, opt_string_view(ctx.context_target_label)),
            labels_spec(a.action@).0,
            labels_spec(a.action@).1,
            context_manage_preview_spec(a),
        ),
        ToolCallArgs::TaskMode(a) => exists|c: ContextManageArgs|
            converted_from(c, a) && shows(
                d,
                context_brief_spec(opt_string_view(c.brief), c.action@, None),
                labels_spec(c.action@).0,
                labels_spec(c.action@).1,
                context_manage_preview_spec(c),
            ),
        ToolCallArgs::ToolboxManage(a) => shows(
            d,
            toolbox_brief_spec(opt_string_view(a.brief), a.action@),
            "Toolbox"@,
            "Manage"@,
            toolbox_preview_spec(a),
        ),
        ToolCallArgs::MemoryAdd(a) => shows(d, memory_add_brief_spec(a), "Memory"@, "Add"@, memory_add_preview_spec(a)),
        ToolCallArgs::MemoryReplace(a) => shows(
            d,
            crate::memory_args::brief_or(opt_string_view(a.brief), "替换日记 #"@ + dec_spec(a.entry_id as nat)),
            "Memory"@,
            "Replace"@,
            memory_replace_preview_spec(a),
        ),
        ToolCallArgs::MemoryCheck(a) => shows(
            d,
            crate::memory_args::brief_or(opt_string_view(a.brief), "检索 "@ + trim_spec(a.target@)),
            "Memory"@,
            "Check"@,
            memory_check_preview_spec(a),
        ),
        ToolCallArgs::MemorySearch(a) => shows(
            d,
            crate::memory_args::brief_or(opt_string_view(a.brief), "搜索 "@ + trim_spec(a.target@)),
            "Memory"@,
            "Search"@,
            memory_search_preview_spec(a),
        ),
        ToolCallArgs::MemoryRead(a) => shows(
            d,
            crate::memory_args::brief_or(opt_string_view(a.brief), "读取 "@ + trim_spec(a.target@)),
            "Memory"@,
            "Read"@,
            memory_read_preview_spec(a),
        ),
        ToolCallArgs::Parallel { brief, tool_use_count, payload } => shows(
            d,
            parallel_brief_spec(opt_string_view(brief), tool_use_count as nat),
            "Explore"@,
            "Run"@,
            payload@,
        ),
        ToolCallArgs::RequestUserInput(a) => if user_input_check(a.questions@) is None {
            shows(
                d,
                user_input_brief_spec(a.questions@),
                "对账"@,
                "发起"@,
                crate::text::join_lines(question_lines(a.questions@)),
            )
        } else {
            default_shows(d, name, arguments)
        },
        ToolCallArgs::SpawnAgent(a) => if structured_input_check(a.message, a.items) is None {
            shows(d, spawn_brief_spec(a), "Agent"@, "Spawn"@, structured_preview_spec(a.message, a.items))
        } else {
            default_shows(d, name, arguments)
        },
        ToolCallArgs::SendInput(a) => if trim_spec(a.id@).len() > 0 && structured_input_check(a.message, a.items) is None {
            shows(
                d,
                default_brief_spec("send_input"@),
                "Agent"@,
                if a.interrupt {
                    "Interrupt"@
                } else {
                    "Send"@
                },
                a.id@ + " · "@ + structured_preview_spec(a.message, a.items),
            )
        } else {
            default_shows(d, name, arguments)
        },
        ToolCallArgs::WaitAgent(a) => shows(
            d,
            default_brief_spec("wait_agent"@),
            "Agent"@,
            "Wait"@,
            dec_spec(a.ids@.len()) + " agent(s) · timeout "@ + crate::text::int_dec_spec(
                match a.timeout_ms {
                    Some(t) => t as int,
                    None => 30000,
                },
            ) + "ms"@,
        ),
        ToolCallArgs::ResumeAgent(a) => agent_ids_shown(d, "resume_agent"@, "Resume"@, a, arguments),
        ToolCallArgs::CloseAgent(a) => agent_ids_shown(d, "close_agent"@, "Close"@, a, arguments),
        ToolCallArgs::SpawnAgentsOnCsv(a) => shows(
            d,
            default_brief_spec("spawn_agents_on_csv"@),
            "Batch"@,
            "Run"@,
            a.csv_path@ + " · "@ + truncate_preview_spec(a.instruction@, 72),
        ),
        ToolCallArgs::ReportAgentJobResult(a) => shows(
            d,
            default_brief_spec("report_agent_job_result"@),
            "Batch"@,
            "Report"@,
            a.job_id@ + " · "@ + a.item_id@,
        ),
        ToolCallArgs::PtyKill(a) => {
            &&& d.brief@ == default_brief_spec("pty_kill"@)
            &&& d.kind_label@ == "TERMINAL"@
            &&& d.action_label@ == "终止中"@
            &&& if named_sessions(a).len() > 0 {
                exists|ids: Seq<u64>|
                    ids.len() > 0 && increasing(ids) && same_set(ids, named_sessions(a)) && d.command_preview@
                        == session_lines(ids)
            } else {
                d.command_preview@ == arguments
            }
        },
        ToolCallArgs::Unparsed => default_shows(d, name, arguments),
    }
}

/// Resume and close name the agents they act on, in order and each once.
pub open spec fn agent_ids_shown(
    d: FunctionCallDisplay,
    tool: Seq<char>,
    action: Seq<char>,
    a: SingleAgentArgs,
    arguments: Seq<char>,
) -> bool {
    &&& d.brief@ == default_brief_spec(tool)
    &&& d.kind_label@ == "Agent"@
    &&& d.action_label@ == action
    &&& if named_ids(a).len() > 0 {
        exists|ids: Seq<Seq<char>>|
            ids.len() > 0 && sorted_strings(ids) && same_set(ids, named_ids(a)) && d.command_preview@ == label_lines(ids)
    } else {
        d.command_preview@ == arguments
    }
}

fn display(brief: String, kind: &str, action: &str, preview: String) -> (r: FunctionCallDisplay)
    ensures
        shows(r, brief@, kind@, action@, preview@),
{
    FunctionCallDisplay {
        brief,
        kind_label: chars_to_string(&str_chars(kind)),
        action_label: chars_to_string(&str_chars(action)),
        command_preview: preview,
    }
}

fn default_display(name: &str, arguments: &str) -> (r: FunctionCallDisplay)
    ensures
        default_shows(r, name@, arguments@),
{
    let n = str_chars(name);
    if chars_eq_str(&n, "list_agent") {
        display(default_tool_brief(name), "Agent", "List", chars_to_string(&str_chars("全部子代理（含已关闭）")))
    } else if chars_eq_str(&n, "pty_list") {
        display(
            default_tool_brief(name),
            "TERMINAL",
            "List",
            chars_to_string(&str_chars("(list running terminal sessions)")),
        )
    } else {
        display(default_tool_brief(name), "Tool", "Run", chars_to_string(&str_chars(arguments)))
    }
}

fn opt_as_str(o: &Option<String>) -> (r: Option<&str>)
    ensures
        opt_str_view(r) == opt_string_view(*o),
{
    match o {
        Some(s) => Some(s.as_str()),
        None => None,
    }
}

fn agent_ids_display(tool: &str, action: &str, a: &SingleAgentArgs, arguments: &str) -> (r: FunctionCallDisplay)
    ensures
        agent_ids_shown(r, tool@, action@, *a, arguments@),
{
    let preview = match a.resolved_ids() {
        Ok(ids) => {
            let mut parts: Vec<Vec<char>> = Vec::new();
            let ghost iv = strings_view(ids@);
            let mut i: usize = 0;
            while i < ids.len()
                invariant
                    i <= ids@.len(),
                    iv == strings_view(ids@),
                    crate::text::views(parts@) == iv.take(i as int).map_values(
                        |id: Seq<char>|
                            match agent_number_spec(id) {
                                Some(n) => "#"@ + dec_spec(n as nat),
                                None => id,
                            },
                    ),
                decreases ids@.len() - i,
            {
                let l = agent_label_text(ids[i].as_str());
                crate::terminal::push_line(&mut parts, str_chars(l.as_str()));
                proof {
                    assert(iv.take(i + 1).map_values(
                        |id: Seq<char>|
                            match agent_number_spec(id) {
                                Some(n) => "#"@ + dec_spec(n as nat),
                                None => id,
                            },
                    ) =~= iv.take(i as int).map_values(
                        |id: Seq<char>|
                            match agent_number_spec(id) {
                                Some(n) => "#"@ + dec_spec(n as nat),
                                None => id,
                            },
                    ).push(l@));
                }
                i += 1;
            }
            assert(iv.take(ids@.len() as int) =~= iv);
            let text = chars_to_string(&crate::text::join_lines_exec(&parts));
            assert(text@ == label_lines(iv));
            text
        },
        Err(_) => chars_to_string(&str_chars(arguments)),
    };
    display(default_tool_brief(tool), "Agent", action, preview)
}

/// The announcement of a tool call.
pub fn describe_function_call(name: &str, arguments: &str, args: &ToolCallArgs, ctx: &CallContext) -> (r:
    FunctionCallDisplay)
    ensures
        describes(name@, arguments@, *args, *ctx, r),
{
    match args {
        ToolCallArgs::ExecCommand(a) => {
            if trim_chars(&str_chars(a.cmd.as_str())).len() == 0 {
                return default_display(name, arguments);
            }
            let (kind, action): (&str, &str) = if a.tty {
                ("TERMINAL", "启动中")
            } else {
                ("Command", "Run")
            };
            display(resolve_exec_command_brief(opt_as_str(&a.brief), a.cmd.as_str()), kind, action, a.cmd.clone())
        },
        ToolCallArgs::WriteStdin(a) => {
            let mut preview = str_chars("session ");
            push_dec(&mut preview, a.session_id);
            push_str(&mut preview, " · ");
            let c = str_chars(a.chars.as_str());
            if trim_chars(&c).len() == 0 {
                push_str(&mut preview, "(wait for terminal output)");
            } else {
                push_chars(&mut preview, &crate::text::trim_end_chars(&c));
            }
            display(
                default_tool_brief("write_stdin"),
                "TERMINAL",
                terminal_input_pending_action_label(a.chars.as_str()).as_str(),
                chars_to_string(&preview),
            )
        },
        ToolCallArgs::ViewImage(a) => display(
            resolve_view_image_brief(opt_as_str(&a.brief), a.path.as_str()),
            "Image",
            "View",
            build_view_image_input_preview(a.path.as_str(), ctx.absolute_path_display.as_str()),
        ),
        ToolCallArgs::ApplyPatch(a) => display(
            resolve_apply_patch_brief(opt_as_str(&a.brief), a.input.as_str(), ctx.project_root.as_str()),
            "Patch",
            "Edit File",
            build_apply_patch_input_preview(a.input.as_str()),
        ),
        ToolCallArgs::UpdatePlan(a) => match normalize_update_plan(a) {
            Ok(p) => {
                let r = display(derive_update_plan_brief(&p), "Plan", "Update", build_update_plan_input_preview(&p));
                assert(plan_shown(r, *a, p));
                r
            },
            Err(e) => {
                let r = default_display(name, arguments);
                proof {
                    assert forall|q: NormalizedUpdatePlan| !plan_outcome(*a, Ok(q)) by {
                        if plan_outcome(*a, Ok(q)) {
                            assert(plan_outcome(*a, Err(e)));
                        }
                    }
                }
                r
            },
        },
        ToolCallArgs::ContextManage(a) => {
            let (kind, action) = context_manage_labels(a);
            display(
                resolve_context_manage_brief(opt_as_str(&a.brief), a, opt_as_str(&ctx.context_target_label)),
                kind.as_str(),
                action.as_str(),
                build_context_manage_input_preview(a),
            )
        },
        ToolCallArgs::TaskMode(a) => {
            let c = task_mode_to_context_manage_args(a.duplicate());
            let (kind, action) = context_manage_labels(&c);
            let r = display(
                resolve_context_manage_brief(opt_as_str(&c.brief), &c, None),
                kind.as_str(),
                action.as_str(),
                build_context_manage_input_preview(&c),
            );
            assert(converted_from(c, *a));
            r
        },
        ToolCallArgs::ToolboxManage(a) => display(
            resolve_toolbox_manage_brief(opt_as_str(&a.brief), a),
            "Toolbox",
            "Manage",
            build_toolbox_manage_input_preview(a),
        ),
        ToolCallArgs::MemoryAdd(a) => display(
            resolve_memory_add_brief(a),
            "Memory",
            "Add",
            build_memory_add_input_preview(a),
        ),
        ToolCallArgs::MemoryReplace(a) => display(
            resolve_memory_replace_brief(a),
            "Memory",
            "Replace",
            build_memory_replace_input_preview(a),
        ),
        ToolCallArgs::MemoryCheck(a) => display(
            resolve_memory_check_brief(a),
            "Memory",
            "Check",
            build_memory_check_input_preview(a),
        ),
        ToolCallArgs::MemorySearch(a) => display(
            resolve_memory_search_brief(a),
            "Memory",
            "Search",
            build_memory_search_input_preview(a),
        ),
        ToolCallArgs::MemoryRead(a) => display(
            resolve_memory_read_brief(a),
            "Memory",
            "Read",
            build_memory_read_input_preview(a),
        ),
        ToolCallArgs::Parallel { brief, tool_use_count, payload } => display(
            resolve_parallel_tool_brief(opt_as_str(brief), *tool_use_count),
            "Explore",
            "Run",
            payload.clone(),
        ),
        ToolCallArgs::RequestUserInput(a) => match validate_request_user_input_arguments(a) {
            Ok(()) => display(
                derive_request_user_input_brief(a),
                "对账",
                "发起",
                build_request_user_input_preview(a),
            ),
            Err(_) => default_display(name, arguments),
        },
        ToolCallArgs::SpawnAgent(a) => match validate_structured_agent_input(&a.message, &a.items) {
            Ok(()) => display(
                derive_spawn_agent_brief(a),
                "Agent",
                "Spawn",
                build_structured_agent_input_preview(&a.message, &a.items),
            ),
            Err(_) => default_display(name, arguments),
        },
        ToolCallArgs::SendInput(a) => {
            if trim_chars(&str_chars(a.id.as_str())).len() == 0 {
                return default_display(name, arguments);
            }
            match validate_structured_agent_input(&a.message, &a.items) {
                Ok(()) => {
                    let mut preview = str_chars(a.id.as_str());
                    push_str(&mut preview, " · ");
                    push_str(&mut preview, build_structured_agent_input_preview(&a.message, &a.items).as_str());
                    display(
                        default_tool_brief("send_input"),
                        "Agent",
                        if a.interrupt {
                            "Interrupt"
                        } else {
                            "Send"
                        },
                        chars_to_string(&preview),
                    )
                },
                Err(_) => default_display(name, arguments),
            }
        },
        ToolCallArgs::WaitAgent(a) => {
            let mut preview: Vec<char> = Vec::new();
            push_dec(&mut preview, a.ids.len() as u64);
            push_str(&mut preview, " agent(s) · timeout ");
            let t: i64 = match a.timeout_ms {
                Some(t) => t,
                None => 30000,
            };
            crate::text::push_int(&mut preview, t);
            push_str(&mut preview, "ms");
            display(default_tool_brief("wait_agent"), "Agent", "Wait", chars_to_string(&preview))
        },
        ToolCallArgs::ResumeAgent(a) => agent_ids_display("resume_agent", "Resume", a, arguments),
        ToolCallArgs::CloseAgent(a) => agent_ids_display("close_agent", "Close", a, arguments),
        ToolCallArgs::SpawnAgentsOnCsv(a) => {
            let mut preview = str_chars(a.csv_path.as_str());
            push_str(&mut preview, " · ");
            push_str(&mut preview, truncate_preview(a.instruction.as_str(), 72).as_str());
            display(default_tool_brief("spawn_agents_on_csv"), "Batch", "Run", chars_to_string(&preview))
        },
        ToolCallArgs::ReportAgentJobResult(a) => {
            let mut preview = str_chars(a.job_id.as_str());
            push_str(&mut preview, " · ");
            push_str(&mut preview, a.item_id.as_str());
            display(default_tool_brief("report_agent_job_result"), "Batch", "Report", chars_to_string(&preview))
        },
        ToolCallArgs::PtyKill(a) => {
            let preview = match a.resolved_session_ids() {
                Ok(ids) => {
                    let mut parts: Vec<Vec<char>> = Vec::new();
                    let mut i: usize = 0;
                    while i < ids.len()
                        invariant
                            i <= ids@.len(),
                            crate::text::views(parts@) == ids@.take(i as int).map_values(
                                |id: u64| "session_id="@ + dec_spec(id as nat),
                            ),
                        decreases ids@.len() - i,
                    {
                        let mut l = str_chars("session_id=");
                        push_dec(&mut l, ids[i]);
                        crate::terminal::push_line(&mut parts, l);
                        proof {
                            assert(ids@.take(i + 1).map_values(|id: u64| "session_id="@ + dec_spec(id as nat))
                                =~= ids@.take(i as int).map_values(|id: u64| "session_id="@ + dec_spec(id as nat)).push(
                                "session_id="@ + dec_spec(ids@[i as int] as nat),
                            ));
                        }
                        i += 1;
                    }
                    assert(ids@.take(ids@.len() as int) =~= ids@);
                    let text = chars_to_string(&crate::text::join_lines_exec(&parts));
                    assert(text@ == session_lines(ids@));
                    text
                },
                Err(_) => chars_to_string(&str_chars(arguments)),
            };
            display(default_tool_brief("pty_kill"), "TERMINAL", "终止中", preview)
        },
        ToolCallArgs::Unparsed => default_display(name, arguments),
    }
}

// ---------------------------------------------------------------------------
// Parallel batches
// ---------------------------------------------------------------------------

/// A call as the model sent it.
#[derive(Debug, Clone, PartialEq, Eq)]
pub struct FunctionCall {
    pub call_id: String,
    pub name: String,
    pub arguments: String,
}

/// One call of a parallel batch as its preview shows it.
#[derive(Debug, Clone, PartialEq, Eq)]
pub struct ParallelToolPreviewItem {
    pub tool_name: String,
    pub action: String,
    pub brief: String,
    pub input: String,
    pub output: Option<String>,
    pub status: Option<String>,
}

/// The item a call shows as, from its announcement.
pub open spec fn preview_item_of(it: ParallelToolPreviewItem, tool_name: Seq<char>, d: FunctionCallDisplay) -> bool {
    &&& it.tool_name@ == tool_name
    &&& it.action@ == parallel_action_spec(tool_name, d.command_preview@)
    &&& it.brief@ == if trim_spec(d.brief@).len() == 0 {
        default_brief_spec(tool_name)
    } else {
        d.brief@
    }
    &&& it.input@ == d.command_preview@
    &&& it.output is None
    &&& it.status is None
}

pub fn build_parallel_preview_item(tool_name: &str, display: FunctionCallDisplay) -> (r: ParallelToolPreviewItem)
    ensures
        preview_item_of(r, tool_name@, display),
{
    let action = parallel_tool_action(tool_name, display.command_preview.as_str());
    let brief = if trim_chars(&str_chars(display.brief.as_str())).len() == 0 {
        default_tool_brief(tool_name)
    } else {
        display.brief
    };
    ParallelToolPreviewItem {
        tool_name: chars_to_string(&str_chars(tool_name)),
        action: chars_to_string(&str_chars(action)),
        brief,
        input: display.command_preview,
        output: None,
        status: None,
    }
}

/// The announcement of one item of a batch: a nested batch is shown by its
/// raw arguments, any other call as it would be on its own.
pub open spec fn item_describes(
    tool_name: Seq<char>,
    arguments: Seq<char>,
    args: ToolCallArgs,
    ctx: CallContext,
    d: FunctionCallDisplay,
) -> bool {
    if tool_name == "multi_tool_use.parallel"@ {
        shows(d, default_brief_spec(tool_name), "Explore"@, "Run"@, arguments)
    } else {
        describes(tool_name, arguments, args, ctx, d)
    }
}

pub open spec fn item_shown(
    it: ParallelToolPreviewItem,
    tool_name: Seq<char>,
    arguments: Seq<char>,
    args: ToolCallArgs,
    ctx: CallContext,
    d: FunctionCallDisplay,
) -> bool {
    item_describes(tool_name, arguments, args, ctx, d) && preview_item_of(it, tool_name, d)
}

/// The preview item of one call of a batch, sent to `recipient` with these
/// arguments, read as `args` for the tool the recipient names.
pub fn describe_parallel_item(recipient: &str, arguments: &str, args: &ToolCallArgs, ctx: &CallContext) -> (r:
    ParallelToolPreviewItem)
    ensures
        exists|d: FunctionCallDisplay| #[trigger]
            item_shown(r, recipient_spec(recipient@), arguments@, *args, *ctx, d),
{
    let tool_name = strip_parallel_recipient_name(recipient);
    let display = if chars_eq_str(&str_chars(tool_name.as_str()), "multi_tool_use.parallel") {
        display(
            default_tool_brief(tool_name.as_str()),
            "Explore",
            "Run",
            chars_to_string(&str_chars(arguments)),
        )
    } else {
        describe_function_call(tool_name.as_str(), arguments, args, ctx)
    };
    let ghost d = display;
    let r = build_parallel_preview_item(tool_name.as_str(), display);
    assert(item_shown(r, recipient_spec(recipient@), arguments@, *args, *ctx, d));
    r
}

/// The word for what a whole batch does: reading or searching when every
/// call does that, exploring otherwise.
pub open spec fn batch_noun_spec(actions: Seq<Seq<char>>) -> Seq<char> {
    if actions.len() > 0 && forall|i: int| 0 <= i < actions.len() ==> #[trigger] actions[i] == "Read"@ {
        "并行读取"@
    } else if actions.len() > 0 && forall|i: int| 0 <= i < actions.len() ==> #[trigger] actions[i] == "Search"@ {
        "并行搜索"@
    } else {
        "并行探索"@
    }
}

pub open spec fn batch_brief_spec(actions: Seq<Seq<char>>) -> Seq<char> {
    batch_noun_spec(actions) + " "@ + dec_spec(actions.len()) + " 项"@
}

/// The calls of a batch, each announced, with the actions they show.
pub open spec fn batch_described(
    calls: Seq<(FunctionCall, ToolCallArgs)>,
    ctx: CallContext,
    ds: Seq<FunctionCallDisplay>,
    actions: Seq<Seq<char>>,
) -> bool {
    &&& ds.len() == calls.len()
    &&& actions.len() == calls.len()
    &&& forall|i: int|
        0 <= i < calls.len() ==> describes(
            (#[trigger] calls[i]).0.name@,
            calls[i].0.arguments@,
            calls[i].1,
            ctx,
            ds[i],
        ) && actions[i] == parallel_action_spec(calls[i].0.name@, ds[i].command_preview@)
}

/// The brief of a batch the client runs side by side: each call, with its
/// arguments read as `args`, is announced, and the batch is named by what
/// its calls do and how many there are.
pub fn native_parallel_batch_brief(calls: &Vec<(FunctionCall, ToolCallArgs)>, ctx: &CallContext) -> (r: String)
    ensures
        exists|ds: Seq<FunctionCallDisplay>, actions: Seq<Seq<char>>| #[trigger]
            batch_described(calls@, *ctx, ds, actions) && r@ == batch_brief_spec(actions),
{
    let ghost mut ds: Seq<FunctionCallDisplay> = Seq::empty();
    let ghost mut actions: Seq<Seq<char>> = Seq::empty();
    let mut all_read = true;
    let mut all_search = true;
    let mut i: usize = 0;
    while i < calls.len()
        invariant
            i <= calls@.len(),
            ds.len() == i,
            actions.len() == i,
            forall|j: int|
                0 <= j < i ==> describes(
                    (#[trigger] calls@[j]).0.name@,
                    calls@[j].0.arguments@,
                    calls@[j].1,
                    *ctx,
                    ds[j],
                ) && actions[j] == parallel_action_spec(calls@[j].0.name@, ds[j].command_preview@),
            all_read == forall|j: int| 0 <= j < i ==> #[trigger] actions[j] == "Read"@,
            all_search == forall|j: int| 0 <= j < i ==> #[trigger] actions[j] == "Search"@,
        decreases calls@.len() - i,
    {
        let call = &calls[i].0;
        let d = describe_function_call(call.name.as_str(), call.arguments.as_str(), &calls[i].1, ctx);
        let action = parallel_tool_action(call.name.as_str(), d.command_preview.as_str());
        let a = str_chars(action);
        if !chars_eq_str(&a, "Read") {
            all_read = false;
        }
        if !chars_eq_str(&a, "Search") {
            all_search = false;
        }
        proof {
            let ghost prev = actions;
            ds = ds.push(d);
            actions = actions.push(action@);
            assert(actions[i as int] == action@);
            assert(forall|j: int| 0 <= j < i ==> actions[j] == prev[j]);
        }
        i += 1;
    }
    let mut out = if i > 0 && all_read {
        str_chars("并行读取")
    } else if i > 0 && all_search {
        str_chars("并行搜索")
    } else {
        str_chars("并行探索")
    };
    push_str(&mut out, " ");
    push_dec(&mut out, i as u64);
    push_str(&mut out, " 项");
    assert(batch_described(calls@, *ctx, ds, actions));
    chars_to_string(&out)
}

/// Whether a call may join a batch the client runs side by side: the
/// persona allows the tool, and a command joins only when it runs without a
/// terminal and reads or searches. `exec_args` is the call's arguments read
/// as a command's, when they read so.
pub open spec fn batch_supported_spec(persona: PersonaKind, name: Seq<char>, exec_args: Option<ExecCommandArgs>) -> bool {
    if name == "exec_command"@ {
        parallel_allowed_spec(persona, name) && match exec_args {
            Some(a) => !a.tty && parallel_action_spec(name, a.cmd@) != "Run"@,
            None => false,
        }
    } else if name == "view_image"@ || name == "memory_check"@ || name == "memory_search"@ || name == "memory_read"@
        || name == "list_agent"@ || name == "pty_list"@ {
        parallel_allowed_spec(persona, name)
    } else {
        false
    }
}

pub fn native_parallel_batch_supported(persona: PersonaKind, call: &FunctionCall, exec_args: Option<&ExecCommandArgs>) -> (r:
    bool)
    ensures
        r == batch_supported_spec(
            persona,
            call.name@,
            match exec_args {
                Some(a) => Some(*a),
                None => None,
            },
        ),
{
    let n = str_chars(call.name.as_str());
    if chars_eq_str(&n, "exec_command") {
        if !parallel_tool_allowed_for_persona(persona, call.name.as_str()) {
            return false;
        }
        match exec_args {
            Some(a) => !a.tty && !chars_eq_str(
                &str_chars(parallel_tool_action(call.name.as_str(), a.cmd.as_str())),
                "Run",
            ),
            None => false,
        }
    } else if chars_eq_str(&n, "view_image") || chars_eq_str(&n, "memory_check") || chars_eq_str(&n, "memory_search")
        || chars_eq_str(&n, "memory_read") || chars_eq_str(&n, "list_agent") || chars_eq_str(&n, "pty_list") {
        parallel_tool_allowed_for_persona(persona, call.name.as_str())
    } else {
        false
    }
}

} // verus!
