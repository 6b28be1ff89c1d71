//! Which tools each persona may call, how tool names travel to and from a
//! provider, what a tool call does by default, and the states of agents.
use vstd::prelude::*;

use crate::persona::PersonaKind;
use crate::text::{
    chars_eq_str, chars_to_string, contains_spec, contains_str, dec_spec, lower_chars, lower_spec,
    push_chars, push_dec, push_str, starts_with_spec, starts_with_str, str_chars, trim_chars,
    trim_spec,
};

verus! {

// ---------------------------------------------------------------------------
// Tools by persona
// ---------------------------------------------------------------------------

/// The tools of the governing personas.
pub open spec fn governance_tool(name: Seq<char>) -> bool {
    ||| name == "exec_command"@
    ||| name == "write_stdin"@
    ||| name == "view_image"@
    ||| name == "toolbox_manage"@
    ||| name == "web_search"@
    ||| name == "apply_patch"@
    ||| name == "request_user_input"@
    ||| name == "update_plan"@
    ||| name == "task_mode"@
    ||| name == "context_manage"@
    ||| name == "memory_add"@
    ||| name == "memory_replace"@
    ||| name == "memory_check"@
    ||| name == "memory_search"@
    ||| name == "memory_read"@
    ||| name == "spawn_agent"@
    ||| name == "send_input"@
    ||| name == "wait_agent"@
    ||| name == "list_agent"@
    ||| name == "resume_agent"@
    ||| name == "close_agent"@
    ||| name == "spawn_agents_on_csv"@
    ||| name == "pty_list"@
    ||| name == "pty_kill"@
    ||| name == "multi_tool_use.parallel"@
}

/// The tools of the focused personas.
pub open spec fn focus_tool(name: Seq<char>) -> bool {
    ||| name == "exec_command"@
    ||| name == "multi_tool_use.parallel"@
    ||| name == "apply_patch"@
    ||| name == "request_user_input"@
    ||| name == "task_mode"@
    ||| name == "context_manage"@
    ||| name == "update_plan"@
}

/// Matrix and Advisor govern; Coding and Server work with the focused set.
pub open spec fn tool_allowed_spec(persona: PersonaKind, name: Seq<char>) -> bool {
    match persona {
        PersonaKind::Matrix | PersonaKind::Advisor => governance_tool(name),
        PersonaKind::Coding | PersonaKind::Server => focus_tool(name),
    }
}

/// The tools Coding and Server may call.
pub open spec fn focus_tool_set() -> Set<Seq<char>> {
    set![
        "exec_command"@,
        "multi_tool_use.parallel"@,
        "apply_patch"@,
        "request_user_input"@,
        "task_mode"@,
        "context_manage"@,
        "update_plan"@,
    ]
}

/// Law: Coding and Server may call exactly the shell, parallel calls,
/// patches, questions to the user, task mode, context management and the
/// plan; Matrix and Advisor may call all of those too.
pub proof fn lemma_focus_personas_tools(name: Seq<char>)
    ensures
        tool_allowed_spec(PersonaKind::Coding, name) <==> focus_tool_set().contains(name),
        tool_allowed_spec(PersonaKind::Server, name) <==> focus_tool_set().contains(name),
        focus_tool_set().contains(name) ==> tool_allowed_spec(PersonaKind::Matrix, name),
        focus_tool_set().contains(name) ==> tool_allowed_spec(PersonaKind::Advisor, name),
{
}

fn governance_tool_exec(n: &[char]) -> (r: bool)
    ensures
        r == governance_tool(n@),
{
    chars_eq_str(n, "exec_command") || chars_eq_str(n, "write_stdin") || chars_eq_str(n, "view_image") || chars_eq_str(
        n,
        "toolbox_manage",
    ) || chars_eq_str(n, "web_search") || chars_eq_str(n, "apply_patch") || chars_eq_str(n, "request_user_input")
        || chars_eq_str(n, "update_plan") || chars_eq_str(n, "task_mode") || chars_eq_str(n, "context_manage")
        || chars_eq_str(n, "memory_add") || chars_eq_str(n, "memory_replace") || chars_eq_str(n, "memory_check")
        || chars_eq_str(n, "memory_search") || chars_eq_str(n, "memory_read") || chars_eq_str(n, "spawn_agent")
        || chars_eq_str(n, "send_input") || chars_eq_str(n, "wait_agent") || chars_eq_str(n, "list_agent")
        || chars_eq_str(n, "resume_agent") || chars_eq_str(n, "close_agent") || chars_eq_str(n, "spawn_agents_on_csv")
        || chars_eq_str(n, "pty_list") || chars_eq_str(n, "pty_kill") || chars_eq_str(n, "multi_tool_use.parallel")
}

fn focus_tool_exec(n: &[char]) -> (r: bool)
    ensures
        r == focus_tool(n@),
{
    chars_eq_str(n, "exec_command") || chars_eq_str(n, "multi_tool_use.parallel") || chars_eq_str(n, "apply_patch")
        || chars_eq_str(n, "request_user_input") || chars_eq_str(n, "task_mode") || chars_eq_str(n, "context_manage")
        || chars_eq_str(n, "update_plan")
}

pub fn tool_allowed_for_persona(persona: PersonaKind, name: &str) -> (r: bool)
    ensures
        r == tool_allowed_spec(persona, name@),
{
    let n = str_chars(name);
    match persona {
        PersonaKind::Matrix | PersonaKind::Advisor => governance_tool_exec(&n),
        PersonaKind::Coding | PersonaKind::Server => focus_tool_exec(&n),
    }
}

/// Whether Matrix's tool schema leaves this tool out: it leaves none out,
/// `task_mode` and `context_manage` included, so the schema lists every
/// tool in its own order.
pub fn matrix_schema_hides_tool(name: &str) -> (r: bool)
    ensures
        !r,
{
    false
}

/// The arguments of a `context_manage` call, as parsed from its JSON.
#[derive(Debug, Clone, PartialEq, Eq)]
pub struct ContextManageArgs {
    pub action: String,
    pub target: Option<String>,
    pub section: Option<String>,
    pub role: Option<String>,
    pub kind: Option<String>,
    pub round_id: Option<u64>,
    pub entry_ids: Vec<u64>,
    pub item_ids: Vec<u64>,
    pub brief: Option<String>,
    pub text: Option<String>,
    pub task: Option<String>,
    pub user_goal: Option<String>,
    pub reason: Option<String>,
    pub plan_a: Option<String>,
    pub plan_b: Option<String>,
    pub fallback: Option<String>,
    pub plan_c: Option<String>,
    pub expected_result: Option<String>,
    pub exit_condition: Option<String>,
    pub summary: Option<String>,
    pub completed: Option<String>,
    pub implemented: Option<String>,
    pub steps: Option<String>,
    pub key_info: Option<String>,
    pub result: Option<String>,
    pub exit_reason: Option<String>,
    pub fastmemory_section: Option<String>,
    pub fastmemory_text: Option<String>,
}

/// Every persona may manage its context with any arguments that parse;
/// `parsed` is `None` when they did not.
pub fn context_manage_allowed_for_persona(persona: PersonaKind, parsed: Option<&ContextManageArgs>) -> (r: bool)
    ensures
        r == parsed is Some,
{
    match parsed {
        Some(_) => match persona {
            PersonaKind::Matrix | PersonaKind::Advisor | PersonaKind::Coding | PersonaKind::Server => true,
        },
        None => false,
    }
}

// ---------------------------------------------------------------------------
// Parallel tool use
// ---------------------------------------------------------------------------

/// The read-only tools that may run side by side.
pub open spec fn explore_tool(name: Seq<char>) -> bool {
    ||| name == "exec_command"@
    ||| name == "view_image"@
    ||| name == "memory_check"@
    ||| name == "memory_search"@
    ||| name == "memory_read"@
    ||| name == "list_agent"@
    ||| name == "pty_list"@
}

pub open spec fn parallel_allowed_spec(persona: PersonaKind, name: Seq<char>) -> bool {
    match persona {
        PersonaKind::Matrix | PersonaKind::Advisor => explore_tool(name),
        PersonaKind::Coding | PersonaKind::Server => name == "exec_command"@,
    }
}

pub fn parallel_tool_allowed_for_persona(persona: PersonaKind, name: &str) -> (r: bool)
    ensures
        r == parallel_allowed_spec(persona, name@),
{
    let n = str_chars(name);
    match persona {
        PersonaKind::Matrix | PersonaKind::Advisor => chars_eq_str(&n, "exec_command") || chars_eq_str(&n, "view_image")
            || chars_eq_str(&n, "memory_check") || chars_eq_str(&n, "memory_search") || chars_eq_str(&n, "memory_read")
            || chars_eq_str(&n, "list_agent") || chars_eq_str(&n, "pty_list"),
        PersonaKind::Coding | PersonaKind::Server => chars_eq_str(&n, "exec_command"),
    }
}

/// A command that searches: one of these words stands alone in it.
pub open spec fn is_search_command(padded: Seq<char>) -> bool {
    ||| contains_spec(padded, " rg "@)
    ||| contains_spec(padded, " grep "@)
    ||| contains_spec(padded, " git grep "@)
    ||| contains_spec(padded, " find "@)
    ||| contains_spec(padded, " fd "@)
}

/// A command that reads: one of these words stands alone in it.
pub open spec fn is_read_command(padded: Seq<char>) -> bool {
    ||| contains_spec(padded, " cat "@)
    ||| contains_spec(padded, " sed "@)
    ||| contains_spec(padded, " head "@)
    ||| contains_spec(padded, " tail "@)
    ||| contains_spec(padded, " nl "@)
    ||| contains_spec(padded, " wc "@)
    ||| contains_spec(padded, " ls "@)
    ||| contains_spec(padded, " stat "@)
    ||| contains_spec(padded, " tree "@)
}

/// Search, Read or Run: what one item of a parallel batch does.
pub open spec fn parallel_action_spec(name: Seq<char>, input: Seq<char>) -> Seq<char> {
    if name == "memory_check"@ || name == "memory_search"@ {
        "Search"@
    } else if name == "memory_read"@ || name == "view_image"@ || name == "list_agent"@ || name == "pty_list"@ {
        "Read"@
    } else if name == "exec_command"@ {
        let padded = seq![' '] + lower_spec(input) + seq![' '];
        if is_search_command(padded) {
            "Search"@
        } else if is_read_command(padded) {
            "Read"@
        } else {
            "Run"@
        }
    } else {
        "Run"@
    }
}

pub fn parallel_tool_action(name: &str, input: &str) -> (r: &'static str)
    ensures
        r@ == parallel_action_spec(name@, input@),
{
    let n = str_chars(name);
    if chars_eq_str(&n, "memory_check") || chars_eq_str(&n, "memory_search") {
        return "Search";
    }
    if chars_eq_str(&n, "memory_read") || chars_eq_str(&n, "view_image") || chars_eq_str(&n, "list_agent")
        || chars_eq_str(&n, "pty_list") {
        return "Read";
    }
    if chars_eq_str(&n, "exec_command") {
        let mut padded: Vec<char> = Vec::new();
        padded.push(' ');
        push_chars(&mut padded, &lower_chars(&str_chars(input)));
        padded.push(' ');
        assert(padded@ =~= seq![' '] + lower_spec(input@) + seq![' ']);
        if contains_str(&padded, " rg ") || contains_str(&padded, " grep ") || contains_str(&padded, " git grep ")
            || contains_str(&padded, " find ") || contains_str(&padded, " fd ") {
            return "Search";
        }
        if contains_str(&padded, " cat ") || contains_str(&padded, " sed ") || contains_str(&padded, " head ")
            || contains_str(&padded, " tail ") || contains_str(&padded, " nl ") || contains_str(&padded, " wc ")
            || contains_str(&padded, " ls ") || contains_str(&padded, " stat ") || contains_str(&padded, " tree ") {
            return "Read";
        }
        return "Run";
    }
    "Run"
}

/// What one item of a native parallel batch does.
pub fn native_parallel_item_action(name: &str, input: &str) -> (r: &'static str)
    ensures
        r@ == parallel_action_spec(name@, input@),
{
    parallel_tool_action(name, input)
}

/// A recipient name without the `functions.` namespace, trimmed.
pub open spec fn recipient_spec(raw: Seq<char>) -> Seq<char> {
    let t = trim_spec(raw);
    if starts_with_spec(t, "functions."@) {
        trim_spec(t.skip("functions."@.len() as int))
    } else {
        trim_spec(t)
    }
}

pub fn strip_parallel_recipient_name(raw: &str) -> (r: String)
    ensures
        r@ == recipient_spec(raw@),
{
    let t = trim_chars(&str_chars(raw));
    if starts_with_str(&t, "functions.") {
        let k = str_chars("functions.").len();
        let mut rest: Vec<char> = Vec::new();
        let mut i = k;
        while i < t.len()
            invariant
                k <= i <= t.len(),
                k == "functions."@.len(),
                rest@ =~= t@.subrange(k as int, i as int),
            decreases t.len() - i,
        {
            rest.push(t[i]);
            i += 1;
        }
        assert(rest@ =~= t@.skip(k as int));
        chars_to_string(&trim_chars(&rest))
    } else {
        chars_to_string(&trim_chars(&t))
    }
}

// ---------------------------------------------------------------------------
// Provider names
// ---------------------------------------------------------------------------

/// Providers do not accept a dot in a tool name.
pub fn codex_provider_tool_name(name: &str) -> (r: &str)
    ensures
        r@ == (if name@ == "multi_tool_use.parallel"@ {
            "multi_tool_use_parallel"@
        } else {
            name@
        }),
{
    if chars_eq_str(&str_chars(name), "multi_tool_use.parallel") {
        "multi_tool_use_parallel"
    } else {
        name
    }
}

/// The tool name a provider's name stands for.
pub fn canonicalize_codex_provider_tool_name(name: &str) -> (r: &str)
    ensures
        r@ == (if name@ == "multi_tool_use_parallel"@ {
            "multi_tool_use.parallel"@
        } else {
            name@
        }),
{
    if chars_eq_str(&str_chars(name), "multi_tool_use_parallel") {
        "multi_tool_use.parallel"
    } else {
        name
    }
}

/// A tool name survives the trip to a provider and back.
pub proof fn lemma_provider_name_roundtrip(name: Seq<char>)
    requires
        name != "multi_tool_use_parallel"@,
    ensures
        (if (if name == "multi_tool_use.parallel"@ {
            "multi_tool_use_parallel"@
        } else {
            name
        }) == "multi_tool_use_parallel"@ {
            "multi_tool_use.parallel"@
        } else {
            if name == "multi_tool_use.parallel"@ {
                "multi_tool_use_parallel"@
            } else {
                name
            }
        }) == name,
{
}

// ---------------------------------------------------------------------------
// Default briefs
// ---------------------------------------------------------------------------

pub open spec fn default_brief_spec(n: Seq<char>) -> Seq<char> {
    if n == "exec_command"@ || n == "command"@ || n == "shell_command"@ {
        "执行终端命令"@
    } else if n == "multi_tool_use.parallel"@ {
        "并行探索"@
    } else if n == "view_image"@ {
        "查看图片内容"@
    } else if n == "apply_patch"@ {
        "应用补丁修改文件"@
    } else if n == "rewrite_section"@ {
        "稳定改写文件片段"@
    } else if n == "update_plan"@ {
        "更新任务计划"@
    } else if n == "task_mode"@ {
        "进入或退出任务模式"@
    } else if n == "context_manage"@ {
        "管理外置上下文"@
    } else if n == "memory_add"@ {
        "写入长期记忆日记"@
    } else if n == "memory_replace"@ {
        "替换长期记忆日记"@
    } else if n == "memory_check"@ {
        "检索长期记忆"@
    } else if n == "memory_search"@ {
        "按日期区间搜索长期记忆"@
    } else if n == "memory_read"@ {
        "读取长期记忆"@
    } else if n == "request_user_input"@ {
        "发起对账"@
    } else if n == "spawn_agent"@ {
        "启动子代理"@
    } else if n == "send_input"@ {
        "继续给子代理发送任务"@
    } else if n == "wait_agent"@ {
        "等待子代理完成"@
    } else if n == "list_agent"@ {
        "查看子代理列表"@
    } else if n == "resume_agent"@ {
        "恢复子代理"@
    } else if n == "close_agent"@ {
        "关闭子代理"@
    } else if n == "spawn_agents_on_csv"@ {
        "批量处理 CSV 行任务"@
    } else if n == "report_agent_job_result"@ {
        "回写批处理结果"@
    } else if n == "write_stdin"@ {
        "继续操作终端"@
    } else if n == "pty_list"@ {
        "查看终端会话"@
    } else if n == "pty_kill"@ {
        "结束终端会话"@
    } else {
        "执行工具调用"@
    }
}

/// The brief shown for a tool call that gives none.
pub fn default_tool_brief(name: &str) -> (r: String)
    ensures
        r@ == default_brief_spec(name@),
{
    let n = str_chars(name);
    let out: &str = if chars_eq_str(&n, "exec_command") || chars_eq_str(&n, "command") || chars_eq_str(&n, "shell_command") {
        "执行终端命令"
    } else if chars_eq_str(&n, "multi_tool_use.parallel") {
        "并行探索"
    } else if chars_eq_str(&n, "view_image") {
        "查看图片内容"
    } else if chars_eq_str(&n, "apply_patch") {
        "应用补丁修改文件"
    } else if chars_eq_str(&n, "rewrite_section") {
        "稳定改写文件片段"
    } else if chars_eq_str(&n, "update_plan") {
        "更新任务计划"
    } else if chars_eq_str(&n, "task_mode") {
        "进入或退出任务模式"
    } else if chars_eq_str(&n, "context_manage") {
        "管理外置上下文"
    } else if chars_eq_str(&n, "memory_add") {
        "写入长期记忆日记"
    } else if chars_eq_str(&n, "memory_replace") {
        "替换长期记忆日记"
    } else if chars_eq_str(&n, "memory_check") {
        "检索长期记忆"
    } else if chars_eq_str(&n, "memory_search") {
        "按日期区间搜索长期记忆"
    } else if chars_eq_str(&n, "memory_read") {
        "读取长期记忆"
    } else if chars_eq_str(&n, "request_user_input") {
        "发起对账"
    } else if chars_eq_str(&n, "spawn_agent") {
        "启动子代理"
    } else if chars_eq_str(&n, "send_input") {
        "继续给子代理发送任务"
    } else if chars_eq_str(&n, "wait_agent") {
        "等待子代理完成"
    } else if chars_eq_str(&n, "list_agent") {
        "查看子代理列表"
    } else if chars_eq_str(&n, "resume_agent") {
        "恢复子代理"
    } else if chars_eq_str(&n, "close_agent") {
        "关闭子代理"
    } else if chars_eq_str(&n, "spawn_agents_on_csv") {
        "批量处理 CSV 行任务"
    } else if chars_eq_str(&n, "report_agent_job_result") {
        "回写批处理结果"
    } else if chars_eq_str(&n, "write_stdin") {
        "继续操作终端"
    } else if chars_eq_str(&n, "pty_list") {
        "查看终端会话"
    } else if chars_eq_str(&n, "pty_kill") {
        "结束终端会话"
    } else {
        "执行工具调用"
    };
    chars_to_string(&str_chars(out))
}

// ---------------------------------------------------------------------------
// Agents
// ---------------------------------------------------------------------------

#[derive(Debug, Clone, PartialEq, Eq)]
pub enum AgentStatusValue {
    PendingInit,
    Running,
    Completed(Option<String>),
    Errored(String),
    Shutdown,
    NotFound,
}

pub open spec fn status_short_spec(s: AgentStatusValue) -> Seq<char> {
    match s {
        AgentStatusValue::PendingInit => "pending_init"@,
        AgentStatusValue::Running => "running"@,
        AgentStatusValue::Completed(_) => "completed"@,
        AgentStatusValue::Errored(_) => "errored"@,
        AgentStatusValue::Shutdown => "shutdown"@,
        AgentStatusValue::NotFound => "not_found"@,
    }
}

/// The state an agent is in, for people.
pub fn agent_status_display_text(status: &AgentStatusValue) -> (r: &'static str)
    ensures
        r@ == (match *status {
            AgentStatusValue::PendingInit => "准备中"@,
            AgentStatusValue::Running => "运行中"@,
            AgentStatusValue::Completed(_) => "已完成"@,
            AgentStatusValue::Errored(_) => "失败"@,
            AgentStatusValue::Shutdown => "已关闭"@,
            AgentStatusValue::NotFound => "未找到"@,
        }),
{
    match status {
        AgentStatusValue::PendingInit => "准备中",
        AgentStatusValue::Running => "运行中",
        AgentStatusValue::Completed(_) => "已完成",
        AgentStatusValue::Errored(_) => "失败",
        AgentStatusValue::Shutdown => "已关闭",
        AgentStatusValue::NotFound => "未找到",
    }
}

/// The state an agent is in, as a key.
pub fn agent_status_short_label(status: &AgentStatusValue) -> (r: &'static str)
    ensures
        r@ == status_short_spec(*status),
{
    match status {
        AgentStatusValue::PendingInit => "pending_init",
        AgentStatusValue::Running => "running",
        AgentStatusValue::Completed(_) => "completed",
        AgentStatusValue::Errored(_) => "errored",
        AgentStatusValue::Shutdown => "shutdown",
        AgentStatusValue::NotFound => "not_found",
    }
}

/// The label of a state in JSON: a plain state is its name, a state with a
/// message is keyed by its name; so the label is always the key.
pub fn agent_status_json_label(status: &AgentStatusValue) -> (r: String)
    ensures
        r@ == status_short_spec(*status),
{
    chars_to_string(&str_chars(agent_status_short_label(status)))
}

/// Completed, errored, shut down and missing agents are done.
pub fn is_final_agent_status(status: &AgentStatusValue) -> (r: bool)
    ensures
        r == !(*status is PendingInit || *status is Running),
{
    match status {
        AgentStatusValue::PendingInit | AgentStatusValue::Running => false,
        _ => true,
    }
}

/// `str::parse::<u64>`: an optional `+`, then one or more ASCII digits whose
/// value fits in 64 bits.
pub open spec fn digits_value(d: Seq<char>) -> nat
    decreases d.len(),
{
    if d.len() == 0 {
        0
    } else {
        digits_value(d.drop_last()) * 10 + ((d.last() as u32) - 48) as nat
    }
}

pub open spec fn all_digits(d: Seq<char>) -> bool {
    forall|i: int| 0 <= i < d.len() ==> '0' <= #[trigger] d[i] && d[i] <= '9'
}

pub open spec fn parse_u64_spec(s: Seq<char>) -> Option<u64> {
    let d = if s.len() > 0 && s[0] == '+' {
        s.drop_first()
    } else {
        s
    };
    if d.len() > 0 && all_digits(d) && digits_value(d) <= u64::MAX {
        Some(digits_value(d) as u64)
    } else {
        None
    }
}

proof fn lemma_digits_value_mono(d: Seq<char>, k: int)
    requires
        0 <= k <= d.len(),
        all_digits(d),
    ensures
        digits_value(d.take(k)) <= digits_value(d),
    decreases d.len() - k,
{
    if k < d.len() {
        lemma_digits_value_mono(d, k + 1);
        assert(d.take(k + 1).drop_last() =~= d.take(k));
        assert('0' <= d[k] && d[k] <= '9');
    } else {
        assert(d.take(k) =~= d);
    }
}

/// `str::parse::<u64>` written out.
pub fn parse_u64(s: &[char]) -> (r: Option<u64>)
    ensures
        r == parse_u64_spec(s@),
{
    let start: usize = if s.len() > 0 && s[0] == '+' {
        1
    } else {
        0
    };
    let ghost d = if s@.len() > 0 && s@[0] == '+' {
        s@.drop_first()
    } else {
        s@
    };
    assert(d =~= s@.skip(start as int));
    if start >= s.len() {
        return None;
    }
    let mut v: u64 = 0;
    let mut i = start;
    let mut ok = true;
    while i < s.len()
        invariant
            start <= i <= s.len(),
            d =~= s@.skip(start as int),
            d == (if s@.len() > 0 && s@[0] == '+' {
                s@.drop_first()
            } else {
                s@
            }),
            ok ==> (all_digits(d.take(i - start)) && v == digits_value(d.take(i - start))),
            !ok ==> parse_u64_spec(s@) is None,
        decreases s.len() - i,
    {
        let c = s[i];
        proof {
            assert(d.take(i - start + 1).drop_last() =~= d.take(i - start));
            assert(d[i - start] == c);
        }
        if ok {
            if c < '0' || c > '9' {
                ok = false;
                proof {
                    assert(!all_digits(d));
                }
            } else {
                let digit = (c as u32 - 48) as u64;
                if v > (u64::MAX - digit) / 10 {
                    ok = false;
                    proof {
                        assert(digits_value(d.take(i - start + 1)) > u64::MAX) by (nonlinear_arith)
                            requires
                                digits_value(d.take(i - start + 1)) == v * 10 + digit,
                                v > (u64::MAX - digit) / 10,
                                digit <= 9,
                        ;
                        if all_digits(d) {
                            lemma_digits_value_mono(d, i - start + 1);
                        }
                    }
                } else {
                    proof {
                        assert(v * 10 + digit <= u64::MAX) by (nonlinear_arith)
                            requires
                                v <= (u64::MAX - digit) / 10,
                                digit <= 9,
                        ;
                        assert forall|j: int| 0 <= j < d.take(i - start + 1).len() implies '0' <= #[trigger] d.take(
                            i - start + 1,
                        )[j] && d.take(i - start + 1)[j] <= '9' by {
                            if j < i - start {
                                assert(d.take(i - start + 1)[j] == d.take(i - start)[j]);
                            }
                        }
                    }
                    v = v * 10 + digit;
                }
            }
        }
        i += 1;
    }
    if ok {
        assert(d.take(d.len() as int) =~= d);
        Some(v)
    } else {
        None
    }
}

/// The number of an agent id `agent-{n}`.
pub open spec fn agent_number_spec(id: Seq<char>) -> Option<u64> {
    let t = trim_spec(id);
    if starts_with_spec(t, "agent-"@) {
        parse_u64_spec(t.skip("agent-"@.len() as int))
    } else {
        None
    }
}

pub fn parse_agent_numeric_id(id: &str) -> (r: Option<u64>)
    ensures
        r == agent_number_spec(id@),
{
    let t = trim_chars(&str_chars(id));
    if !starts_with_str(&t, "agent-") {
        return None;
    }
    let k = str_chars("agent-").len();
    let mut rest: Vec<char> = Vec::new();
    let mut i = k;
    while i < t.len()
        invariant
            k <= i <= t.len(),
            k == "agent-"@.len(),
            rest@ =~= t@.subrange(k as int, i as int),
        decreases t.len() - i,
    {
        rest.push(t[i]);
        i += 1;
    }
    assert(rest@ =~= t@.skip(k as int));
    parse_u64(&rest)
}

/// `#{n}` for an agent id `agent-{n}`, else the id itself.
pub fn agent_label_text(id: &str) -> (r: String)
    ensures
        r@ == (match agent_number_spec(id@) {
            Some(n) => "#"@ + dec_spec(n as nat),
            None => id@,
        }),
{
    match parse_agent_numeric_id(id) {
        Some(n) => {
            let mut out = str_chars("#");
            push_dec(&mut out, n);
            chars_to_string(&out)
        },
        None => chars_to_string(&str_chars(id)),
    }
}

} // verus!
