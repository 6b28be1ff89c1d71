//! Before a tool call: the rule that sends complex work through task mode
//! once a plan is listed, the tool each name stands for, and the labels a
//! failed call is shown with.
use vstd::prelude::*;

use crate::command::{input_action_label_spec, terminal_input_action_label};
use crate::describe::{FunctionCall, FunctionCallDisplay, ToolCallArgs};
use crate::text::{chars_eq_str, chars_to_string, push_str, str_chars, trim_chars, trim_spec};
use crate::tool_args::{
    action_key_spec, context_manage_action_key, task_action_key_spec, task_mode_action_key,
};
use crate::tools::canonicalize_codex_provider_tool_name;

verus! {

/// The tool a call's name routes to.
#[derive(Debug, Clone, Copy, PartialEq, Eq, Structural)]
pub enum ToolRoute {
    Parallel,
    ExecCommand,
    WriteStdin,
    ViewImage,
    ApplyPatch,
    UpdatePlan,
    ContextManage,
    TaskMode,
    ToolboxManage,
    MemoryAdd,
    MemoryReplace,
    MemoryCheck,
    MemorySearch,
    MemoryRead,
    RequestUserInput,
    SpawnAgent,
    SendInput,
    WaitAgent,
    ListAgent,
    ResumeAgent,
    CloseAgent,
    SpawnAgentsOnCsv,
    ReportAgentJobResult,
    PtyList,
    PtyKill,
    Unsupported,
}

pub open spec fn route_spec(name: Seq<char>) -> ToolRoute {
    if name == "multi_tool_use.parallel"@ {
        ToolRoute::Parallel
    } else if name == "exec_command"@ {
        ToolRoute::ExecCommand
    } else if name == "write_stdin"@ {
        ToolRoute::WriteStdin
    } else if name == "view_image"@ {
        ToolRoute::ViewImage
    } else if name == "apply_patch"@ {
        ToolRoute::ApplyPatch
    } else if name == "update_plan"@ {
        ToolRoute::UpdatePlan
    } else if name == "context_manage"@ {
        ToolRoute::ContextManage
    } else if name == "task_mode"@ {
        ToolRoute::TaskMode
    } else if name == "toolbox_manage"@ {
        ToolRoute::ToolboxManage
    } else if name == "memory_add"@ {
        ToolRoute::MemoryAdd
    } else if name == "memory_replace"@ {
        ToolRoute::MemoryReplace
    } else if name == "memory_check"@ {
        ToolRoute::MemoryCheck
    } else if name == "memory_search"@ {
        ToolRoute::MemorySearch
    } else if name == "memory_read"@ {
        ToolRoute::MemoryRead
    } else if name == "request_user_input"@ {
        ToolRoute::RequestUserInput
    } else if name == "spawn_agent"@ {
        ToolRoute::SpawnAgent
    } else if name == "send_input"@ {
        ToolRoute::SendInput
    } else if name == "wait_agent"@ {
        ToolRoute::WaitAgent
    } else if name == "list_agent"@ {
        ToolRoute::ListAgent
    } else if name == "resume_agent"@ {
        ToolRoute::ResumeAgent
    } else if name == "close_agent"@ {
        ToolRoute::CloseAgent
    } else if name == "spawn_agents_on_csv"@ {
        ToolRoute::SpawnAgentsOnCsv
    } else if name == "report_agent_job_result"@ {
        ToolRoute::ReportAgentJobResult
    } else if name == "pty_list"@ {
        ToolRoute::PtyList
    } else if name == "pty_kill"@ {
        ToolRoute::PtyKill
    } else {
        ToolRoute::Unsupported
    }
}

pub fn route_function_call(name: &str) -> (r: ToolRoute)
    ensures
        r == route_spec(name@),
{
    let n = str_chars(name);
    if chars_eq_str(&n, "multi_tool_use.parallel") {
        ToolRoute::Parallel
    } else if chars_eq_str(&n, "exec_command") {
        ToolRoute::ExecCommand
    } else if chars_eq_str(&n, "write_stdin") {
        ToolRoute::WriteStdin
    } else if chars_eq_str(&n, "view_image") {
        ToolRoute::ViewImage
    } else if chars_eq_str(&n, "apply_patch") {
        ToolRoute::ApplyPatch
    } else if chars_eq_str(&n, "update_plan") {
        ToolRoute::UpdatePlan
    } else if chars_eq_str(&n, "context_manage") {
        ToolRoute::ContextManage
    } else if chars_eq_str(&n, "task_mode") {
        ToolRoute::TaskMode
    } else if chars_eq_str(&n, "toolbox_manage") {
        ToolRoute::ToolboxManage
    } else if chars_eq_str(&n, "memory_add") {
        ToolRoute::MemoryAdd
    } else if chars_eq_str(&n, "memory_replace") {
        ToolRoute::MemoryReplace
    } else if chars_eq_str(&n, "memory_check") {
        ToolRoute::MemoryCheck
    } else if chars_eq_str(&n, "memory_search") {
        ToolRoute::MemorySearch
    } else if chars_eq_str(&n, "memory_read") {
        ToolRoute::MemoryRead
    } else if chars_eq_str(&n, "request_user_input") {
        ToolRoute::RequestUserInput
    } else if chars_eq_str(&n, "spawn_agent") {
        ToolRoute::SpawnAgent
    } else if chars_eq_str(&n, "send_input") {
        ToolRoute::SendInput
    } else if chars_eq_str(&n, "wait_agent") {
        ToolRoute::WaitAgent
    } else if chars_eq_str(&n, "list_agent") {
        ToolRoute::ListAgent
    } else if chars_eq_str(&n, "resume_agent") {
        ToolRoute::ResumeAgent
    } else if chars_eq_str(&n, "close_agent") {
        ToolRoute::CloseAgent
    } else if chars_eq_str(&n, "spawn_agents_on_csv") {
        ToolRoute::SpawnAgentsOnCsv
    } else if chars_eq_str(&n, "report_agent_job_result") {
        ToolRoute::ReportAgentJobResult
    } else if chars_eq_str(&n, "pty_list") {
        ToolRoute::PtyList
    } else if chars_eq_str(&n, "pty_kill") {
        ToolRoute::PtyKill
    } else {
        ToolRoute::Unsupported
    }
}

// ---------------------------------------------------------------------------
// Task mode first
// ---------------------------------------------------------------------------

/// A call that enters task mode: a context call whose action reads as
/// `focus_enter`, or a task-mode call whose action reads as `task_enter`,
/// once its arguments read.
pub open spec fn focus_enter_spec(name: Seq<char>, args: ToolCallArgs) -> bool {
    let n = trim_spec(name);
    if n == "context_manage"@ {
        args matches ToolCallArgs::ContextManage(a) && action_key_spec(a.action@) == "focus_enter"@
    } else if n == "task_mode"@ {
        args matches ToolCallArgs::TaskMode(a) && task_action_key_spec(a.action@) == "task_enter"@
    } else {
        false
    }
}

pub fn is_focus_enter_call(name: &str, args: &ToolCallArgs) -> (r: bool)
    ensures
        r == focus_enter_spec(name@, *args),
{
    let n = trim_chars(&str_chars(name));
    if chars_eq_str(&n, "context_manage") {
        match args {
            ToolCallArgs::ContextManage(a) => chars_eq_str(
                &str_chars(context_manage_action_key(a).as_str()),
                "focus_enter",
            ),
            _ => false,
        }
    } else if chars_eq_str(&n, "task_mode") {
        match args {
            ToolCallArgs::TaskMode(a) => chars_eq_str(&str_chars(task_mode_action_key(a).as_str()), "task_enter"),
            _ => false,
        }
    } else {
        false
    }
}

/// Whether a call must wait for task mode: a plan is listed (its summary
/// is given), and the call neither updates the plan nor enters task mode.
pub open spec fn task_mode_required_spec(name: Seq<char>, args: ToolCallArgs, plan_summary: Option<Seq<char>>) -> bool {
    name != "update_plan"@ && !focus_enter_spec(name, args) && plan_summary is Some
}

pub fn task_mode_required(name: &str, args: &ToolCallArgs, plan_summary: Option<&str>) -> (r: bool)
    ensures
        r == task_mode_required_spec(name@, *args, crate::command::opt_str_view(plan_summary)),
{
    !chars_eq_str(&str_chars(name), "update_plan") && !is_focus_enter_call(name, args) && plan_summary.is_some()
}

pub open spec fn task_mode_message_spec(summary: Seq<char>) -> Seq<char> {
    "当前任务已列出计划，后续复杂执行必须先进入任务模式。请先调用 task_mode.enter（兼容 context_manage.task_enter），再继续当前工具。\nplan_summary: "@
        + trim_spec(summary)
}

/// Why a call held for task mode was refused, with the plan it must follow.
pub fn task_mode_required_message(summary: &str) -> (r: String)
    ensures
        r@ == task_mode_message_spec(summary@),
{
    let mut out = str_chars(
        "当前任务已列出计划，后续复杂执行必须先进入任务模式。请先调用 task_mode.enter（兼容 context_manage.task_enter），再继续当前工具。\nplan_summary: ",
    );
    crate::text::push_chars(&mut out, &trim_chars(&str_chars(summary)));
    chars_to_string(&out)
}

// ---------------------------------------------------------------------------
// Labels of a failed call
// ---------------------------------------------------------------------------

/// The kind and action a call is shown with when it fails: the tool's
/// kind, and `Failed` or the terminal's own wording.
pub open spec fn failure_labels_spec(route: ToolRoute, display: FunctionCallDisplay, args: ToolCallArgs) -> (
    Seq<char>,
    Seq<char>,
) {
    match route {
        ToolRoute::Parallel => ("Explore"@, "Failed"@),
        ToolRoute::ExecCommand => (
            display.kind_label@,
            match args {
                ToolCallArgs::ExecCommand(a) => if a.tty {
                    "启动失败"@
                } else {
                    display.action_label@
                },
                _ => display.action_label@,
            },
        ),
        ToolRoute::WriteStdin => (
            display.kind_label@,
            match args {
                ToolCallArgs::WriteStdin(a) => input_action_label_spec(a.chars@, true),
                _ => display.action_label@,
            },
        ),
        ToolRoute::ViewImage => ("Image"@, "Failed"@),
        ToolRoute::ApplyPatch => ("Patch"@, "Failed"@),
        ToolRoute::UpdatePlan => ("Plan"@, "Failed"@),
        ToolRoute::ContextManage => (display.kind_label@, "Failed"@),
        ToolRoute::TaskMode => (display.kind_label@, "Failed"@),
        ToolRoute::ToolboxManage => ("Toolbox"@, "Failed"@),
        ToolRoute::MemoryAdd | ToolRoute::MemoryReplace | ToolRoute::MemoryCheck | ToolRoute::MemorySearch
        | ToolRoute::MemoryRead => ("Memory"@, "Failed"@),
        ToolRoute::RequestUserInput => ("Prompt"@, "Failed"@),
        ToolRoute::SpawnAgent | ToolRoute::SendInput | ToolRoute::WaitAgent | ToolRoute::ListAgent
        | ToolRoute::ResumeAgent | ToolRoute::CloseAgent => ("Agent"@, "Failed"@),
        ToolRoute::SpawnAgentsOnCsv | ToolRoute::ReportAgentJobResult => ("Batch"@, "Failed"@),
        ToolRoute::PtyList => ("TERMINAL"@, "List"@),
        ToolRoute::PtyKill => (display.kind_label@, "终止失败"@),
        ToolRoute::Unsupported => (display.kind_label@, display.action_label@),
    }
}

pub fn failure_labels(route: ToolRoute, display: &FunctionCallDisplay, args: &ToolCallArgs) -> (r: (String, String))
    ensures
        (r.0@, r.1@) == failure_labels_spec(route, *display, *args),
{
    let lit = |k: &str, a: &str| -> (p: (String, String))
        ensures
            p.0@ == k@ && p.1@ == a@,
        { (chars_to_string(&str_chars(k)), chars_to_string(&str_chars(a))) };
    let kind = chars_to_string(&str_chars(display.kind_label.as_str()));
    match route {
        ToolRoute::Parallel => lit("Explore", "Failed"),
        ToolRoute::ExecCommand => {
            let action = match args {
                ToolCallArgs::ExecCommand(a) => if a.tty {
                    chars_to_string(&str_chars("启动失败"))
                } else {
                    chars_to_string(&str_chars(display.action_label.as_str()))
                },
                _ => chars_to_string(&str_chars(display.action_label.as_str())),
            };
            (kind, action)
        },
        ToolRoute::WriteStdin => {
            let action = match args {
                ToolCallArgs::WriteStdin(a) => terminal_input_action_label(a.chars.as_str(), true),
                _ => chars_to_string(&str_chars(display.action_label.as_str())),
            };
            (kind, action)
        },
        ToolRoute::ViewImage => lit("Image", "Failed"),
        ToolRoute::ApplyPatch => lit("Patch", "Failed"),
        ToolRoute::UpdatePlan => lit("Plan", "Failed"),
        ToolRoute::ContextManage | ToolRoute::TaskMode => (kind, chars_to_string(&str_chars("Failed"))),
        ToolRoute::ToolboxManage => lit("Toolbox", "Failed"),
        ToolRoute::MemoryAdd | ToolRoute::MemoryReplace | ToolRoute::MemoryCheck | ToolRoute::MemorySearch
        | ToolRoute::MemoryRead => lit("Memory", "Failed"),
        ToolRoute::RequestUserInput => lit("Prompt", "Failed"),
        ToolRoute::SpawnAgent | ToolRoute::SendInput | ToolRoute::WaitAgent | ToolRoute::ListAgent
        | ToolRoute::ResumeAgent | ToolRoute::CloseAgent => lit("Agent", "Failed"),
        ToolRoute::SpawnAgentsOnCsv | ToolRoute::ReportAgentJobResult => lit("Batch", "Failed"),
        ToolRoute::PtyList => lit("TERMINAL", "List"),
        ToolRoute::PtyKill => (kind, chars_to_string(&str_chars("终止失败"))),
        ToolRoute::Unsupported => (kind, chars_to_string(&str_chars(display.action_label.as_str()))),
    }
}

pub open spec fn unsupported_spec(name: Seq<char>) -> Seq<char> {
    "unsupported function call: "@ + name
}

/// What a call to a tool nobody knows is answered.
pub fn unsupported_call_output(name: &str) -> (r: String)
    ensures
        r@ == unsupported_spec(name@),
{
    let mut out = str_chars("unsupported function call: ");
    push_str(&mut out, name);
    chars_to_string(&out)
}


/// An event of the model's stream, with the fields a function call is read
/// from (each when present as text).
#[derive(Debug, Clone, PartialEq, Eq)]
pub struct OutputItemEvent {
    pub event_type: Option<String>,
    pub item_present: bool,
    pub item_type: Option<String>,
    pub call_id: Option<String>,
    pub name: Option<String>,
    pub arguments: Option<String>,
}

pub open spec fn opt_is(o: Option<String>, s: Seq<char>) -> bool {
    o matches Some(v) && v@ == s
}

/// The call an event carries: only a finished output item that is a
/// function call with an id, a name and arguments; the provider's name for
/// the tool is turned back into its own.
pub fn extract_function_call(ev: &OutputItemEvent) -> (r: Option<FunctionCall>)
    ensures
        r is Some <==> (opt_is(ev.event_type, "response.output_item.done"@) && ev.item_present && opt_is(
            ev.item_type,
            "function_call"@,
        ) && ev.call_id is Some && ev.name is Some && ev.arguments is Some),
        r matches Some(c) ==> {
            &&& ev.call_id matches Some(id) && c.call_id@ == id@
            &&& ev.arguments matches Some(a) && c.arguments@ == a@
            &&& ev.name matches Some(n) && c.name@ == (if n@ == "multi_tool_use_parallel"@ {
                "multi_tool_use.parallel"@
            } else {
                n@
            })
        },
{
    let done = match &ev.event_type {
        Some(t) => chars_eq_str(&str_chars(t.as_str()), "response.output_item.done"),
        None => false,
    };
    if !done || !ev.item_present {
        return None;
    }
    let is_call = match &ev.item_type {
        Some(t) => chars_eq_str(&str_chars(t.as_str()), "function_call"),
        None => false,
    };
    if !is_call {
        return None;
    }
    match (&ev.call_id, &ev.name, &ev.arguments) {
        (Some(id), Some(name), Some(arguments)) => Some(
            FunctionCall {
                call_id: chars_to_string(&str_chars(id.as_str())),
                name: chars_to_string(&str_chars(canonicalize_codex_provider_tool_name(name.as_str()))),
                arguments: chars_to_string(&str_chars(arguments.as_str())),
            },
        ),
        _ => None,
    }
}

} // verus!
