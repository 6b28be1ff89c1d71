//! `spawn_agent`: what a new local agent is made of and what the call
//! answers. Registering the agent, its log file and its thread live
//! outside.
use vstd::prelude::*;

use crate::agent_args::{
    agent_prompt_spec, build_structured_agent_input_preview, build_structured_agent_prompt, derive_spawn_agent_brief,
    opt_text, spawn_brief_spec, structured_preview_spec, AgentArgsError, SpawnAgentArgs,
};
use crate::command::opt_str_view;
use crate::roles::opt_string;
use crate::terminal::{clamp_report_spec, clamp_report_text, running_notice, running_wait_notice_zh};
use crate::text::{chars_to_string, dec_spec, push_dec, push_str, str_chars, trim_chars};
use crate::tools::{agent_label_text, agent_number_spec};

verus! {

/// A value asked for in place of a default: the trimmed value, unless it
/// is blank or absent.
pub open spec fn override_spec(base: Seq<char>, o: Option<String>) -> Seq<char> {
    match opt_text(o) {
        Some(t) => t,
        None => base,
    }
}

/// An optional value asked for in place of a default, as `override_spec`.
pub open spec fn opt_override_spec(base: Option<Seq<char>>, o: Option<String>) -> Option<Seq<char>> {
    match opt_text(o) {
        Some(t) => Some(t),
        None => base,
    }
}

/// What a new local agent is made of.
pub struct SpawnAgentPlan {
    /// The first prompt sent to it.
    pub prompt: String,
    /// The model it runs on.
    pub model: String,
    /// The reasoning effort it asks for.
    pub reasoning_effort: Option<String>,
    /// `agent-{n}`.
    pub agent_id: String,
    /// `Agent #{n}`.
    pub nickname: String,
    /// The short view of its task.
    pub task_preview: String,
    /// Its first event line.
    pub started_event: String,
    /// The call's brief.
    pub brief: String,
    /// The number the next agent gets.
    pub next_agent_number: u64,
}

fn trimmed_override(o: &Option<String>) -> (r: Option<String>)
    ensures
        opt_string(r) == opt_text(*o),
{
    match o {
        Some(v) => {
            let t = trim_chars(&str_chars(v.as_str()));
            if t.len() > 0 {
                Some(chars_to_string(&t))
            } else {
                None
            }
        },
        None => None,
    }
}

/// Plans a new agent numbered `agent_number` from the call's arguments, on
/// the caller's model and reasoning effort unless the call names others:
/// refused as the prompt is refused; otherwise its prompt, model, reasoning
/// effort, id, nickname, task preview, first event line and brief, and the
/// next number (which stops at the largest).
pub fn plan_spawn_agent(args: &SpawnAgentArgs, agent_number: u64, base_model: &str, base_reasoning: Option<&str>) -> (r:
    Result<SpawnAgentPlan, AgentArgsError>)
    ensures
        match agent_prompt_spec(args.message, args.items) {
            Err(e) => r == Err::<SpawnAgentPlan, AgentArgsError>(e),
            Ok(t) => r matches Ok(p) && {
                &&& p.prompt@ == t
                &&& p.model@ == override_spec(base_model@, args.model)
                &&& opt_string(p.reasoning_effort) == opt_override_spec(opt_str_view(base_reasoning), args.reasoning_effort)
                &&& p.agent_id@ == "agent-"@ + dec_spec(agent_number as nat)
                &&& p.nickname@ == "Agent #"@ + dec_spec(agent_number as nat)
                &&& p.task_preview@ == structured_preview_spec(args.message, args.items)
                &&& p.started_event@ == "◌ 已启动 · "@ + structured_preview_spec(args.message, args.items)
                &&& p.brief@ == spawn_brief_spec(*args)
                &&& p.next_agent_number == (if agent_number == u64::MAX {
                    u64::MAX
                } else {
                    (agent_number + 1) as u64
                })
            },
        },
{
    let prompt = match build_structured_agent_prompt(&args.message, &args.items) {
        Ok(p) => p,
        Err(e) => return Err(e),
    };
    let model = match trimmed_override(&args.model) {
        Some(m) => m,
        None => chars_to_string(&str_chars(base_model)),
    };
    let reasoning_effort = match trimmed_override(&args.reasoning_effort) {
        Some(m) => Some(m),
        None => match base_reasoning {
            Some(b) => Some(chars_to_string(&str_chars(b))),
            None => None,
        },
    };
    let mut id = str_chars("agent-");
    push_dec(&mut id, agent_number);
    let mut nick = str_chars("Agent #");
    push_dec(&mut nick, agent_number);
    let task_preview = build_structured_agent_input_preview(&args.message, &args.items);
    let mut started = str_chars("◌ 已启动 · ");
    push_str(&mut started, task_preview.as_str());
    let next_agent_number = if agent_number == u64::MAX {
        u64::MAX
    } else {
        agent_number + 1
    };
    Ok(SpawnAgentPlan {
        prompt,
        model,
        reasoning_effort,
        agent_id: chars_to_string(&id),
        nickname: chars_to_string(&nick),
        task_preview,
        started_event: chars_to_string(&started),
        brief: derive_spawn_agent_brief(args),
        next_agent_number,
    })
}

/// How an agent id is shown: `#{n}` for `agent-{n}`, else the id itself.
pub open spec fn agent_label_spec(id: Seq<char>) -> Seq<char> {
    match agent_number_spec(id) {
        Some(n) => "#"@ + dec_spec(n as nat),
        None => id,
    }
}

/// What the user sees once an agent is started: its label, its log and
/// the notice to wait for it, clamped as a report.
pub fn spawn_agent_output_preview(agent_id: &str, log_path_display: &str) -> (r: String)
    ensures
        r@ == clamp_report_spec(
            agent_label_spec(agent_id@) + " · 已启动并进入运行态\nlog:"@ + log_path_display@ + "\nnotice:"@
                + running_notice(),
        ),
{
    let mut out = str_chars(agent_label_text(agent_id).as_str());
    push_str(&mut out, " · 已启动并进入运行态\nlog:");
    push_str(&mut out, log_path_display);
    push_str(&mut out, "\nnotice:");
    push_str(&mut out, running_wait_notice_zh());
    clamp_report_text(chars_to_string(&out))
}

} // verus!
