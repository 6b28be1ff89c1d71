//! What the context, task, toolbox and plan tools were asked to do, as the
//! model reads it back: action keys, labels, briefs and input previews.
use vstd::prelude::*;

use crate::command::{brief_spec, normalize_brief, opt_str_view, opt_string_view, truncate_chars};
use crate::terminal::{append_all, literal_line, push_line};
use crate::text::{
    chars_eq_str, chars_to_string, dec_spec, ellipsis_chars, ellipsis_spec, join_chars, join_lines,
    join_lines_exec, join_spec, lower_chars, lower_spec, push_chars, push_dec, push_str, str_chars,
    trim_chars, trim_spec, upper_chars, upper_spec, views,
};
use crate::tools::ContextManageArgs;

verus! {

// ---------------------------------------------------------------------------
// Context management
// ---------------------------------------------------------------------------

/// The action of a `context_manage` call under its current name.
pub open spec fn action_key_spec(action: Seq<char>) -> Seq<char> {
    let a = lower_spec(trim_spec(action));
    if a == "replace"@ {
        "summary"@
    } else if a == "task_enter"@ {
        "focus_enter"@
    } else if a == "task_exit"@ {
        "focus_exit"@
    } else {
        a
    }
}

/// The action as the preview shows it: focus actions as task actions.
pub open spec fn action_display_key_spec(action: Seq<char>) -> Seq<char> {
    let k = action_key_spec(action);
    if k == "focus_enter"@ {
        "task_enter"@
    } else if k == "focus_exit"@ {
        "task_exit"@
    } else {
        k
    }
}

pub fn context_manage_action_key(args: &ContextManageArgs) -> (r: String)
    ensures
        r@ == action_key_spec(args.action@),
{
    let a = lower_chars(&trim_chars(&str_chars(args.action.as_str())));
    if chars_eq_str(&a, "replace") {
        chars_to_string(&str_chars("summary"))
    } else if chars_eq_str(&a, "task_enter") {
        chars_to_string(&str_chars("focus_enter"))
    } else if chars_eq_str(&a, "task_exit") {
        chars_to_string(&str_chars("focus_exit"))
    } else {
        chars_to_string(&a)
    }
}

pub fn context_manage_action_display_key(args: &ContextManageArgs) -> (r: String)
    ensures
        r@ == action_display_key_spec(args.action@),
{
    let k = context_manage_action_key(args);
    let kv = str_chars(k.as_str());
    if chars_eq_str(&kv, "focus_enter") {
        chars_to_string(&str_chars("task_enter"))
    } else if chars_eq_str(&kv, "focus_exit") {
        chars_to_string(&str_chars("task_exit"))
    } else {
        k
    }
}

/// The kind and action labels of a `context_manage` call.
pub open spec fn labels_spec(action: Seq<char>) -> (Seq<char>, Seq<char>) {
    let k = action_key_spec(action);
    if k == "focus_enter"@ {
        ("TASK"@, "Enter"@)
    } else if k == "focus_exit"@ {
        ("TASK"@, "Exit"@)
    } else if k == "summary"@ {
        ("CONTEXT"@, "Summary"@)
    } else if k == "compact"@ {
        ("CONTEXT"@, "Compact"@)
    } else {
        ("CONTEXT"@, "Write"@)
    }
}

pub fn context_manage_labels(args: &ContextManageArgs) -> (r: (String, String))
    ensures
        (r.0@, r.1@) == labels_spec(args.action@),
{
    let k = context_manage_action_key(args);
    let kv = str_chars(k.as_str());
    let (a, b): (&str, &str) = if chars_eq_str(&kv, "focus_enter") {
        ("TASK", "Enter")
    } else if chars_eq_str(&kv, "focus_exit") {
        ("TASK", "Exit")
    } else if chars_eq_str(&kv, "summary") {
        ("CONTEXT", "Summary")
    } else if chars_eq_str(&kv, "compact") {
        ("CONTEXT", "Compact")
    } else {
        ("CONTEXT", "Write")
    };
    (chars_to_string(&str_chars(a)), chars_to_string(&str_chars(b)))
}

/// A value trimmed and cut to `max_chars` (at least one).
pub open spec fn truncate_preview_spec(text: Seq<char>, max_chars: nat) -> Seq<char> {
    ellipsis_spec(trim_spec(text), if max_chars < 1 { 1 } else { max_chars })
}

pub fn truncate_preview(text: &str, max_chars: usize) -> (r: String)
    ensures
        r@ == truncate_preview_spec(text@, max_chars as nat),
{
    let m = if max_chars < 1 {
        1
    } else {
        max_chars
    };
    chars_to_string(&ellipsis_chars(&trim_chars(&str_chars(text)), m))
}

/// `"{key}: {value}"` for a value that is not blank, cut to `max_chars`.
pub open spec fn preview_line(key: Seq<char>, value: Option<Seq<char>>, max_chars: nat) -> Seq<Seq<char>> {
    match value {
        Some(v) => if trim_spec(v).len() > 0 {
            seq![key + ": "@ + truncate_preview_spec(trim_spec(v), max_chars)]
        } else {
            Seq::empty()
        },
        None => Seq::empty(),
    }
}

fn preview_line_exec(lines: &mut Vec<Vec<char>>, key: &str, value: &Option<String>, max_chars: usize)
    ensures
        views(final(lines)@) == views(old(lines)@) + preview_line(key@, opt_string_view(*value), max_chars as nat),
{
    let ghost before = views(lines@);
    match value {
        Some(v) => {
            let t = trim_chars(&str_chars(v.as_str()));
            if t.len() > 0 {
                let mut l = str_chars(key);
                push_str(&mut l, ": ");
                let m = if max_chars < 1 {
                    1
                } else {
                    max_chars
                };
                push_chars(&mut l, &ellipsis_chars(&trim_chars(&t), m));
                push_line(lines, l);
            }
        },
        None => {},
    }
    assert(views(lines@) =~= before + preview_line(key@, opt_string_view(*value), max_chars as nat));
}

/// `"[1, 2, 3]"`: ids written as a list.
pub open spec fn id_list_spec(ids: Seq<u64>) -> Seq<char> {
    "["@ + join_spec(ids.map_values(|i: u64| dec_spec(i as nat)), ", "@) + "]"@
}

fn id_list_exec(ids: &Vec<u64>) -> (r: Vec<char>)
    ensures
        r@ == id_list_spec(ids@),
{
    let mut parts: Vec<Vec<char>> = Vec::new();
    let mut i: usize = 0;
    while i < ids.len()
        invariant
            i <= ids@.len(),
            views(parts@) =~= ids@.take(i as int).map_values(|x: u64| dec_spec(x as nat)),
        decreases ids@.len() - i,
    {
        let mut d: Vec<char> = Vec::new();
        push_dec(&mut d, ids[i]);
        let ghost before = views(parts@);
        parts.push(d);
        proof {
            assert(views(parts@) =~= before.push(dec_spec(ids@[i as int] as nat)));
        }
        i += 1;
    }
    assert(ids@.take(ids@.len() as int) =~= ids@);
    let mut out = str_chars("[");
    push_chars(&mut out, &join_chars(&parts, &str_chars(", ")));
    push_str(&mut out, "]");
    out
}

pub open spec fn opt_line_of(cond: bool, line: Seq<char>) -> Seq<Seq<char>> {
    if cond {
        seq![line]
    } else {
        Seq::empty()
    }
}

/// The lines of a task entry.
pub open spec fn task_enter_lines(a: ContextManageArgs) -> Seq<Seq<char>> {
    preview_line("brief"@, opt_string_view(a.brief), 120) + preview_line("task"@, opt_string_view(a.task), 160)
        + preview_line("goal"@, opt_string_view(a.user_goal), 160) + preview_line(
        "reason"@,
        opt_string_view(a.reason),
        160,
    ) + preview_line("plan_a"@, opt_string_view(a.plan_a), 120) + preview_line(
        "plan_b"@,
        opt_string_view(a.plan_b),
        120,
    ) + preview_line(
        "fallback"@,
        if a.fallback is Some {
            opt_string_view(a.fallback)
        } else {
            opt_string_view(a.plan_c)
        },
        120,
    ) + preview_line("expected"@, opt_string_view(a.expected_result), 140) + preview_line(
        "exit"@,
        opt_string_view(a.exit_condition),
        120,
    )
}

/// The lines of a task exit.
pub open spec fn task_exit_lines(a: ContextManageArgs) -> Seq<Seq<char>> {
    preview_line("summary"@, opt_string_view(a.summary), 180) + preview_line(
        "completed"@,
        opt_string_view(a.completed),
        140,
    ) + preview_line("implemented"@, opt_string_view(a.implemented), 140) + preview_line(
        "steps"@,
        opt_string_view(a.steps),
        160,
    ) + preview_line("key_info"@, opt_string_view(a.key_info), 160) + preview_line(
        "result"@,
        opt_string_view(a.result),
        140,
    ) + preview_line("exit_reason"@, opt_string_view(a.exit_reason), 140) + opt_line_of(
        a.fastmemory_section is Some,
        "fastmemory_section: "@ + trim_spec(opt_string_view(a.fastmemory_section)->0),
    ) + preview_line("fastmemory_text"@, opt_string_view(a.fastmemory_text), 120)
}

/// The lines of a context write, summary or compaction.
pub open spec fn context_write_lines(a: ContextManageArgs, action: Seq<char>) -> Seq<Seq<char>> {
    opt_line_of(a.target is Some, "target: "@ + trim_spec(opt_string_view(a.target)->0)) + opt_line_of(
        a.section is Some,
        "section: "@ + trim_spec(opt_string_view(a.section)->0),
    ) + opt_line_of(a.role is Some, "role: "@ + trim_spec(opt_string_view(a.role)->0)) + opt_line_of(
        a.kind is Some && trim_spec(opt_string_view(a.kind)->0).len() > 0,
        "kind: "@ + trim_spec(opt_string_view(a.kind)->0),
    ) + opt_line_of(a.entry_ids@.len() > 0, "entry_ids: "@ + id_list_spec(a.entry_ids@)) + opt_line_of(
        a.item_ids@.len() > 0,
        "item_ids: "@ + id_list_spec(a.item_ids@),
    ) + opt_line_of(
        action == "compact"@ && a.entry_ids@.len() == 0 && a.item_ids@.len() == 0,
        "scope: all"@,
    ) + preview_line("text"@, opt_string_view(a.text), 200)
}

/// The input preview of a `context_manage` call.
pub open spec fn context_manage_preview_spec(a: ContextManageArgs) -> Seq<char> {
    let action = action_display_key_spec(a.action@);
    let body = if action == "task_enter"@ {
        task_enter_lines(a)
    } else if action == "task_exit"@ {
        task_exit_lines(a)
    } else {
        context_write_lines(a, action)
    };
    join_lines(seq!["action: "@ + action] + body)
}

fn task_enter_lines_exec(a: &ContextManageArgs) -> (r: Vec<Vec<char>>)
    ensures
        views(r@) == task_enter_lines(*a),
{
    let mut l: Vec<Vec<char>> = Vec::new();
    preview_line_exec(&mut l, "brief", &a.brief, 120);
    preview_line_exec(&mut l, "task", &a.task, 160);
    preview_line_exec(&mut l, "goal", &a.user_goal, 160);
    preview_line_exec(&mut l, "reason", &a.reason, 160);
    preview_line_exec(&mut l, "plan_a", &a.plan_a, 120);
    preview_line_exec(&mut l, "plan_b", &a.plan_b, 120);
    let fb = if a.fallback.is_some() {
        a.fallback.clone()
    } else {
        a.plan_c.clone()
    };
    preview_line_exec(&mut l, "fallback", &fb, 120);
    preview_line_exec(&mut l, "expected", &a.expected_result, 140);
    preview_line_exec(&mut l, "exit", &a.exit_condition, 120);
    assert(views(l@) =~= task_enter_lines(*a));
    l
}

fn opt_trimmed_line(lines: &mut Vec<Vec<char>>, key: &str, value: &Option<String>)
    ensures
        views(final(lines)@) == views(old(lines)@) + opt_line_of(
            value is Some,
            key@ + trim_spec(opt_string_view(*value)->0),
        ),
{
    let ghost before = views(lines@);
    match value {
        Some(v) => {
            let mut l = str_chars(key);
            push_chars(&mut l, &trim_chars(&str_chars(v.as_str())));
            push_line(lines, l);
        },
        None => {},
    }
    assert(views(lines@) =~= before + opt_line_of(value is Some, key@ + trim_spec(opt_string_view(*value)->0)));
}

fn task_exit_lines_exec(a: &ContextManageArgs) -> (r: Vec<Vec<char>>)
    ensures
        views(r@) == task_exit_lines(*a),
{
    let mut l: Vec<Vec<char>> = Vec::new();
    preview_line_exec(&mut l, "summary", &a.summary, 180);
    preview_line_exec(&mut l, "completed", &a.completed, 140);
    preview_line_exec(&mut l, "implemented", &a.implemented, 140);
    preview_line_exec(&mut l, "steps", &a.steps, 160);
    preview_line_exec(&mut l, "key_info", &a.key_info, 160);
    preview_line_exec(&mut l, "result", &a.result, 140);
    preview_line_exec(&mut l, "exit_reason", &a.exit_reason, 140);
    opt_trimmed_line(&mut l, "fastmemory_section: ", &a.fastmemory_section);
    preview_line_exec(&mut l, "fastmemory_text", &a.fastmemory_text, 120);
    assert(views(l@) =~= task_exit_lines(*a));
    l
}

fn context_write_lines_exec(a: &ContextManageArgs, action: &[char]) -> (r: Vec<Vec<char>>)
    ensures
        views(r@) == context_write_lines(*a, action@),
{
    let mut l: Vec<Vec<char>> = Vec::new();
    opt_trimmed_line(&mut l, "target: ", &a.target);
    opt_trimmed_line(&mut l, "section: ", &a.section);
    opt_trimmed_line(&mut l, "role: ", &a.role);
    let ghost l0 = views(l@);
    match &a.kind {
        Some(k) => {
            let t = trim_chars(&str_chars(k.as_str()));
            if t.len() > 0 {
                let mut line = str_chars("kind: ");
                push_chars(&mut line, &t);
                push_line(&mut l, line);
            }
        },
        None => {},
    }
    let ghost l1 = views(l@);
    assert(l1 =~= l0 + opt_line_of(
        a.kind is Some && trim_spec(opt_string_view(a.kind)->0).len() > 0,
        "kind: "@ + trim_spec(opt_string_view(a.kind)->0),
    ));
    if a.entry_ids.len() > 0 {
        let mut line = str_chars("entry_ids: ");
        push_chars(&mut line, &id_list_exec(&a.entry_ids));
        push_line(&mut l, line);
    }
    let ghost l2 = views(l@);
    assert(l2 =~= l1 + opt_line_of(a.entry_ids@.len() > 0, "entry_ids: "@ + id_list_spec(a.entry_ids@)));
    if a.item_ids.len() > 0 {
        let mut line = str_chars("item_ids: ");
        push_chars(&mut line, &id_list_exec(&a.item_ids));
        push_line(&mut l, line);
    }
    let ghost l3 = views(l@);
    assert(l3 =~= l2 + opt_line_of(a.item_ids@.len() > 0, "item_ids: "@ + id_list_spec(a.item_ids@)));
    if chars_eq_str(action, "compact") && a.entry_ids.len() == 0 && a.item_ids.len() == 0 {
        push_line(&mut l, literal_line("scope: all"));
    }
    let ghost l4 = views(l@);
    assert(l4 =~= l3 + opt_line_of(
        action@ == "compact"@ && a.entry_ids@.len() == 0 && a.item_ids@.len() == 0,
        "scope: all"@,
    ));
    preview_line_exec(&mut l, "text", &a.text, 200);
    l
}

/// The input preview of a `context_manage` call.
pub fn build_context_manage_input_preview(args: &ContextManageArgs) -> (r: String)
    ensures
        r@ == context_manage_preview_spec(*args),
{
    let action = context_manage_action_display_key(args);
    let av = str_chars(action.as_str());
    let mut lines: Vec<Vec<char>> = Vec::new();
    let mut first = str_chars("action: ");
    push_chars(&mut first, &av);
    push_line(&mut lines, first);
    let body = if chars_eq_str(&av, "task_enter") {
        task_enter_lines_exec(args)
    } else if chars_eq_str(&av, "task_exit") {
        task_exit_lines_exec(args)
    } else {
        context_write_lines_exec(args, &av)
    };
    let ghost bv = views(body@);
    append_all(&mut lines, body);
    proof {
        let action_s = action_display_key_spec(args.action@);
        let body_s = if action_s == "task_enter"@ {
            task_enter_lines(*args)
        } else if action_s == "task_exit"@ {
            task_exit_lines(*args)
        } else {
            context_write_lines(*args, action_s)
        };
        assert(bv == body_s);
        assert(views(lines@) =~= seq!["action: "@ + action_s] + body_s);
    }
    chars_to_string(&join_lines_exec(&lines))
}

// ---------------------------------------------------------------------------
// Task mode
// ---------------------------------------------------------------------------

/// The arguments of a `task_mode` call.
#[derive(Debug, Clone, PartialEq, Eq)]
pub struct TaskModeArgs {
    pub action: String,
    pub brief: Option<String>,
    pub task: Option<String>,
    pub user_goal: Option<String>,
    pub reason: Option<String>,
    pub plan_a: Option<String>,
    pub plan_b: Option<String>,
    pub fallback: Option<String>,
    pub plan_c: Option<String>,
    pub expected_result: Option<String>,
    pub exit_condition: Option<String>,
    pub summary: Option<String>,
    pub completed: Option<String>,
    pub implemented: Option<String>,
    pub steps: Option<String>,
    pub key_info: Option<String>,
    pub result: Option<String>,
    pub exit_reason: Option<String>,
    pub fastmemory_section: Option<String>,
    pub fastmemory_text: Option<String>,
}

/// Entering and leaving a task under their context names.
pub open spec fn task_action_key_spec(action: Seq<char>) -> Seq<char> {
    let a = lower_spec(trim_spec(action));
    if a == "enter"@ || a == "task_enter"@ || a == "focus_enter"@ {
        "task_enter"@
    } else if a == "exit"@ || a == "task_exit"@ || a == "focus_exit"@ {
        "task_exit"@
    } else {
        a
    }
}

pub fn task_mode_action_key(args: &TaskModeArgs) -> (r: String)
    ensures
        r@ == task_action_key_spec(args.action@),
{
    let a = lower_chars(&trim_chars(&str_chars(args.action.as_str())));
    if chars_eq_str(&a, "enter") || chars_eq_str(&a, "task_enter") || chars_eq_str(&a, "focus_enter") {
        chars_to_string(&str_chars("task_enter"))
    } else if chars_eq_str(&a, "exit") || chars_eq_str(&a, "task_exit") || chars_eq_str(&a, "focus_exit") {
        chars_to_string(&str_chars("task_exit"))
    } else {
        chars_to_string(&a)
    }
}

/// A task-mode call as the `context_manage` call it stands for: the action
/// renamed, the task fields carried over, no target.
pub fn task_mode_to_context_manage_args(args: TaskModeArgs) -> (r: ContextManageArgs)
    ensures
        r.action@ == task_action_key_spec(args.action@),
        r.target is None && r.section is None && r.role is None && r.kind is None && r.round_id is None,
        r.entry_ids@.len() == 0 && r.item_ids@.len() == 0,
        r.text is None,
        r.brief == args.brief && r.task == args.task && r.user_goal == args.user_goal && r.reason == args.reason,
        r.plan_a == args.plan_a && r.plan_b == args.plan_b && r.fallback == args.fallback && r.plan_c
            == args.plan_c,
        r.expected_result == args.expected_result && r.exit_condition == args.exit_condition,
        r.summary == args.summary && r.completed == args.completed && r.implemented == args.implemented,
        r.steps == args.steps && r.key_info == args.key_info && r.result == args.result && r.exit_reason
            == args.exit_reason,
        r.fastmemory_section == args.fastmemory_section && r.fastmemory_text == args.fastmemory_text,
{
    let action = task_mode_action_key(&args);
    ContextManageArgs {
        action,
        target: None,
        section: None,
        role: None,
        kind: None,
        round_id: None,
        entry_ids: Vec::new(),
        item_ids: Vec::new(),
        brief: args.brief,
        text: None,
        task: args.task,
        user_goal: args.user_goal,
        reason: args.reason,
        plan_a: args.plan_a,
        plan_b: args.plan_b,
        fallback: args.fallback,
        plan_c: args.plan_c,
        expected_result: args.expected_result,
        exit_condition: args.exit_condition,
        summary: args.summary,
        completed: args.completed,
        implemented: args.implemented,
        steps: args.steps,
        key_info: args.key_info,
        result: args.result,
        exit_reason: args.exit_reason,
        fastmemory_section: args.fastmemory_section,
        fastmemory_text: args.fastmemory_text,
    }
}

fn same_opt_string(o: &Option<String>) -> (r: Option<String>)
    ensures
        r == *o,
{
    match o {
        Some(s) => Some(s.clone()),
        None => None,
    }
}

impl TaskModeArgs {
    /// A field-for-field copy.
    pub(crate) fn duplicate(&self) -> (r: TaskModeArgs)
        ensures
            r == *self,
    {
        TaskModeArgs {
            action: self.action.clone(),
            brief: same_opt_string(&self.brief),
            task: same_opt_string(&self.task),
            user_goal: same_opt_string(&self.user_goal),
            reason: same_opt_string(&self.reason),
            plan_a: same_opt_string(&self.plan_a),
            plan_b: same_opt_string(&self.plan_b),
            fallback: same_opt_string(&self.fallback),
            plan_c: same_opt_string(&self.plan_c),
            expected_result: same_opt_string(&self.expected_result),
            exit_condition: same_opt_string(&self.exit_condition),
            summary: same_opt_string(&self.summary),
            completed: same_opt_string(&self.completed),
            implemented: same_opt_string(&self.implemented),
            steps: same_opt_string(&self.steps),
            key_info: same_opt_string(&self.key_info),
            result: same_opt_string(&self.result),
            exit_reason: same_opt_string(&self.exit_reason),
            fastmemory_section: same_opt_string(&self.fastmemory_section),
            fastmemory_text: same_opt_string(&self.fastmemory_text),
        }
    }
}

// ---------------------------------------------------------------------------
// Toolbox
// ---------------------------------------------------------------------------

/// The arguments of a `toolbox_manage` call.
#[derive(Debug, Clone, PartialEq, Eq)]
pub struct ToolboxManageArgs {
    pub action: String,
    pub tool_ids: Vec<String>,
    pub brief: Option<String>,
    pub reason: Option<String>,
    pub plan: Option<String>,
}

pub open spec fn toolbox_brief_spec(raw: Option<Seq<char>>, action: Seq<char>) -> Seq<char> {
    match brief_spec(raw) {
        Some(b) => b,
        None => {
            let a = lower_spec(trim_spec(action));
            if a == "open"@ {
                "打开工具箱"@
            } else if a == "close"@ {
                "关闭工具箱"@
            } else if a == "pin"@ {
                "固定工具箱"@
            } else if a == "unpin"@ {
                "解除工具常驻"@
            } else {
                "查看工具箱状态"@
            }
        },
    }
}

pub fn resolve_toolbox_manage_brief(raw: Option<&str>, args: &ToolboxManageArgs) -> (r: String)
    ensures
        r@ == toolbox_brief_spec(opt_str_view(raw), args.action@),
{
    match normalize_brief(raw) {
        Some(b) => b,
        None => {
            let a = lower_chars(&trim_chars(&str_chars(args.action.as_str())));
            let out: &str = if chars_eq_str(&a, "open") {
                "打开工具箱"
            } else if chars_eq_str(&a, "close") {
                "关闭工具箱"
            } else if chars_eq_str(&a, "pin") {
                "固定工具箱"
            } else if chars_eq_str(&a, "unpin") {
                "解除工具常驻"
            } else {
                "查看工具箱状态"
            };
            chars_to_string(&str_chars(out))
        },
    }
}

pub open spec fn strings_of(v: Seq<String>) -> Seq<Seq<char>> {
    v.map_values(|s: String| s@)
}

/// The input preview of a `toolbox_manage` call.
pub open spec fn toolbox_preview_spec(a: ToolboxManageArgs) -> Seq<char> {
    join_lines(
        seq!["action: "@ + upper_spec(lower_spec(trim_spec(a.action@)))] + opt_line_of(
            a.tool_ids@.len() > 0,
            "tool_ids: "@ + join_spec(strings_of(a.tool_ids@), ", "@),
        ) + opt_line_of(brief_spec(opt_string_view(a.reason)) is Some, "reason: "@ + brief_spec(
            opt_string_view(a.reason),
        )->0) + opt_line_of(brief_spec(opt_string_view(a.plan)) is Some, "plan: "@ + brief_spec(
            opt_string_view(a.plan),
        )->0),
    )
}

fn strings_to_lines(v: &Vec<String>) -> (r: Vec<Vec<char>>)
    ensures
        views(r@) == strings_of(v@),
{
    let mut out: Vec<Vec<char>> = Vec::new();
    let mut i: usize = 0;
    while i < v.len()
        invariant
            i <= v@.len(),
            views(out@) =~= strings_of(v@).take(i as int),
        decreases v@.len() - i,
    {
        let ghost before = views(out@);
        out.push(str_chars(v[i].as_str()));
        proof {
            assert(views(out@) =~= before.push(v@[i as int]@));
        }
        i += 1;
    }
    assert(strings_of(v@).take(v@.len() as int) =~= strings_of(v@));
    out
}

fn brief_line(lines: &mut Vec<Vec<char>>, key: &str, value: &Option<String>)
    ensures
        views(final(lines)@) == views(old(lines)@) + opt_line_of(
            brief_spec(opt_string_view(*value)) is Some,
            key@ + brief_spec(opt_string_view(*value))->0,
        ),
{
    let ghost before = views(lines@);
    let v: Option<&str> = match value {
        Some(s) => Some(s.as_str()),
        None => None,
    };
    assert(opt_str_view(v) == opt_string_view(*value));
    match normalize_brief(v) {
        Some(b) => {
            let mut l = str_chars(key);
            push_str(&mut l, b.as_str());
            push_line(lines, l);
        },
        None => {},
    }
    assert(views(lines@) =~= before + opt_line_of(
        brief_spec(opt_string_view(*value)) is Some,
        key@ + brief_spec(opt_string_view(*value))->0,
    ));
}

pub fn build_toolbox_manage_input_preview(args: &ToolboxManageArgs) -> (r: String)
    ensures
        r@ == toolbox_preview_spec(*args),
{
    let a = lower_chars(&trim_chars(&str_chars(args.action.as_str())));
    let mut lines: Vec<Vec<char>> = Vec::new();
    let mut first = str_chars("action: ");
    push_chars(&mut first, &upper_chars(&a));
    push_line(&mut lines, first);
    let ghost l0 = views(lines@);
    if args.tool_ids.len() > 0 {
        let mut l = str_chars("tool_ids: ");
        push_chars(&mut l, &join_chars(&strings_to_lines(&args.tool_ids), &str_chars(", ")));
        push_line(&mut lines, l);
    }
    assert(views(lines@) =~= l0 + opt_line_of(
        args.tool_ids@.len() > 0,
        "tool_ids: "@ + join_spec(strings_of(args.tool_ids@), ", "@),
    ));
    let ghost l1 = views(lines@);
    brief_line(&mut lines, "reason: ", &args.reason);
    let ghost l2 = views(lines@);
    brief_line(&mut lines, "plan: ", &args.plan);
    assert(views(lines@) =~= seq!["action: "@ + upper_spec(lower_spec(trim_spec(args.action@)))] + opt_line_of(
        args.tool_ids@.len() > 0,
        "tool_ids: "@ + join_spec(strings_of(args.tool_ids@), ", "@),
    ) + opt_line_of(brief_spec(opt_string_view(args.reason)) is Some, "reason: "@ + brief_spec(
        opt_string_view(args.reason),
    )->0) + opt_line_of(brief_spec(opt_string_view(args.plan)) is Some, "plan: "@ + brief_spec(
        opt_string_view(args.plan),
    )->0));
    chars_to_string(&join_lines_exec(&lines))
}

} // verus!
