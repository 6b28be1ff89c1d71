//! A local agent's run, step by step: what each event of its thread does
//! to its status and its list of event lines, and what the thread is to do
//! next. The model calls, the log file and the transcript live outside.
use vstd::prelude::*;

use crate::agent_events::{agent_tool_event_line, event_text_spec, normalize_agent_event_text, tool_event_spec};
use crate::agent_report::{
    agent_completion_preview, completion_preview_spec, latest_stream_preview, latest_stream_spec, nonblank_trimmed_lines,
    text_lines,
};
use crate::text::{
    chars_to_string, dec_spec, push_chars, push_dec, push_str, starts_with_chars, starts_with_spec, str_chars,
    trim_chars, trim_spec, views,
};
use crate::tool_args::{truncate_preview, truncate_preview_spec};
use crate::tools::AgentStatusValue;

verus! {

/// How many event lines an agent keeps.
pub const AGENT_EVENT_LOG_LIMIT: usize = 48;

/// How many lines of a completion become event lines.
pub const AGENT_COMPLETION_EVENT_MAX_LINES: usize = 24;

pub open spec fn strings_of(v: Seq<String>) -> Seq<Seq<char>> {
    v.map_values(|s: String| s@)
}

/// The last `AGENT_EVENT_LOG_LIMIT` lines.
pub open spec fn keep_last_events(v: Seq<Seq<char>>) -> Seq<Seq<char>> {
    if v.len() > AGENT_EVENT_LOG_LIMIT {
        v.skip(v.len() - AGENT_EVENT_LOG_LIMIT)
    } else {
        v
    }
}

/// An event line added: normalized, dropped when blank or the same as the
/// last line, the oldest lines leaving past the limit.
pub open spec fn push_event_spec(v: Seq<Seq<char>>, text: Seq<char>) -> Seq<Seq<char>> {
    let n = event_text_spec(text);
    if n.len() == 0 {
        v
    } else if v.len() > 0 && v.last() == n {
        v
    } else {
        keep_last_events(v.push(n))
    }
}

/// The place of the last line that starts with `p`.
pub open spec fn last_prefixed(v: Seq<Seq<char>>, p: Seq<char>) -> Option<int>
    decreases v.len(),
{
    if v.len() == 0 {
        None
    } else if starts_with_spec(v.last(), p) {
        Some(v.len() - 1)
    } else {
        last_prefixed(v.drop_last(), p)
    }
}

/// An event line that replaces the last one with the same start, or is
/// added as a new one.
pub open spec fn upsert_event_spec(v: Seq<Seq<char>>, p: Seq<char>, text: Seq<char>) -> Seq<Seq<char>> {
    let n = event_text_spec(text);
    if n.len() == 0 {
        v
    } else {
        match last_prefixed(v, p) {
            Some(i) => v.update(i, n),
            None => keep_last_events(v.push(n)),
        }
    }
}

/// The lines written to the agent's log for these events: each normalized,
/// blank ones left out.
pub open spec fn logged_spec(texts: Seq<Seq<char>>) -> Seq<Seq<char>>
    decreases texts.len(),
{
    if texts.len() == 0 {
        Seq::empty()
    } else {
        let prev = logged_spec(texts.drop_last());
        let n = event_text_spec(texts.last());
        if n.len() == 0 {
            prev
        } else {
            prev.push(n)
        }
    }
}

/// Event lines added one after another.
pub open spec fn push_events_spec(v: Seq<Seq<char>>, texts: Seq<Seq<char>>) -> Seq<Seq<char>>
    decreases texts.len(),
{
    if texts.len() == 0 {
        v
    } else {
        push_event_spec(push_events_spec(v, texts.drop_last()), texts.last())
    }
}

/// The event lines of a completion: its first lines that are not blank,
/// the first marked as the conclusion; a plain "done" when there are none.
pub open spec fn completion_events_spec(text: Seq<char>) -> Seq<Seq<char>> {
    let all = text_lines(text);
    let ls = if all.len() > AGENT_COMPLETION_EVENT_MAX_LINES {
        all.take(AGENT_COMPLETION_EVENT_MAX_LINES as int)
    } else {
        all
    };
    if ls.len() == 0 {
        seq!["✓ 已完成"@]
    } else {
        ls.update(0, "✓ 结论 · "@ + ls[0])
    }
}

/// Adds an event line; returns the line for the log, if any.
pub fn push_agent_event(events: &mut Vec<String>, text: &str) -> (logged: Option<String>)
    ensures
        strings_of(final(events)@) == push_event_spec(strings_of(old(events)@), text@),
        match logged {
            Some(l) => event_text_spec(text@).len() > 0 && l@ == event_text_spec(text@),
            None => event_text_spec(text@).len() == 0,
        },
{
    let n = normalize_agent_event_text(text);
    if str_chars(n.as_str()).len() == 0 {
        return None;
    }
    let ghost v = strings_of(events@);
    let len = events.len();
    if len > 0 && crate::text::chars_eq(&str_chars(events[len - 1].as_str()), &str_chars(n.as_str())) {
        assert(v.last() == n@);
        return Some(n);
    }
    events.push(chars_to_string(&str_chars(n.as_str())));
    assert(strings_of(events@) =~= v.push(n@));
    trim_events(events);
    Some(n)
}

fn trim_events(events: &mut Vec<String>)
    ensures
        strings_of(final(events)@) == keep_last_events(strings_of(old(events)@)),
{
    let ghost v = strings_of(events@);
    let ghost mut d: int = 0;
    while events.len() > AGENT_EVENT_LOG_LIMIT
        invariant
            0 <= d <= v.len(),
            strings_of(events@) == v.skip(d),
            d > 0 ==> events@.len() >= AGENT_EVENT_LOG_LIMIT,
        decreases events@.len(),
    {
        let ghost before = strings_of(events@);
        events.remove(0);
        proof {
            assert(strings_of(events@) =~= before.skip(1));
            assert(v.skip(d).skip(1) =~= v.skip(d + 1));
            d = d + 1;
        }
    }
    proof {
        if v.len() > AGENT_EVENT_LOG_LIMIT {
            assert(d == v.len() - AGENT_EVENT_LOG_LIMIT);
        } else {
            assert(d == 0);
            assert(v.skip(0) =~= v);
        }
    }
}

/// Replaces the last event line that starts with `prefix`, or adds one;
/// returns the line for the log, if any.
pub fn upsert_agent_event(events: &mut Vec<String>, prefix: &str, text: &str) -> (logged: Option<String>)
    ensures
        strings_of(final(events)@) == upsert_event_spec(strings_of(old(events)@), prefix@, text@),
        match logged {
            Some(l) => event_text_spec(text@).len() > 0 && l@ == event_text_spec(text@),
            None => event_text_spec(text@).len() == 0,
        },
{
    let n = normalize_agent_event_text(text);
    if str_chars(n.as_str()).len() == 0 {
        return None;
    }
    let ghost v = strings_of(events@);
    let p = str_chars(prefix);
    let mut i: usize = events.len();
    assert(v.take(i as int) =~= v);
    while i > 0
        invariant
            n@ == event_text_spec(text@),
            event_text_spec(text@).len() > 0,
            v == strings_of(old(events)@),
            i <= events@.len(),
            v == strings_of(events@),
            p@ == prefix@,
            last_prefixed(v, prefix@) == last_prefixed(v.take(i as int), prefix@),
        decreases i,
    {
        proof {
            assert(v.take(i as int).drop_last() =~= v.take(i - 1));
            assert(v.take(i as int).last() == v[i - 1]);
        }
        if starts_with_chars(&str_chars(events[i - 1].as_str()), &p) {
            let ghost k = (i - 1) as int;
            assert(last_prefixed(v.take(i as int), prefix@) == Some(k));
            events.set(i - 1, chars_to_string(&str_chars(n.as_str())));
            assert(strings_of(events@) =~= v.update(k, n@));
            return Some(n);
        }
        i -= 1;
    }
    assert(v.take(0) =~= Seq::<Seq<char>>::empty());
    events.push(chars_to_string(&str_chars(n.as_str())));
    assert(strings_of(events@) =~= v.push(n@));
    trim_events(events);
    Some(n)
}


/// Adds event lines one after another, writing each to `log` as it goes.
fn push_agent_events(events: &mut Vec<String>, texts: &Vec<String>, log: &mut Vec<String>)
    ensures
        strings_of(final(events)@) == push_events_spec(strings_of(old(events)@), strings_of(texts@)),
        strings_of(final(log)@) == strings_of(old(log)@) + logged_spec(strings_of(texts@)),
{
    let mut i: usize = 0;
    while i < texts.len()
        invariant
            i <= texts@.len(),
            strings_of(events@) == push_events_spec(strings_of(old(events)@), strings_of(texts@).take(i as int)),
            strings_of(log@) == strings_of(old(log)@) + logged_spec(strings_of(texts@).take(i as int)),
        decreases texts@.len() - i,
    {
        proof {
            assert(strings_of(texts@).take(i + 1).drop_last() =~= strings_of(texts@).take(i as int));
            assert(strings_of(texts@).take(i + 1).last() == texts@[i as int]@);
        }
        let ghost l0 = strings_of(log@);
        match push_agent_event(events, texts[i].as_str()) {
            Some(line) => {
                let ghost lv = line@;
                log.push(line);
                assert(strings_of(log@) =~= l0.push(lv));
            },
            None => {},
        }
        i += 1;
    }
    assert(strings_of(texts@).take(texts@.len() as int) =~= strings_of(texts@));
}

proof fn lemma_one_event(v: Seq<Seq<char>>, x: Seq<char>)
    ensures
        push_events_spec(v, seq![x]) == push_event_spec(v, x),
{
    assert(seq![x].drop_last() =~= Seq::<Seq<char>>::empty());
    assert(push_events_spec(v, Seq::<Seq<char>>::empty()) == v);
    assert(seq![x].last() == x);
}

/// What happens on an agent's thread.
pub enum AgentEvent {
    /// A prompt to answer.
    Run(String),
    /// A piece of the streamed reply.
    Chunk(String),
    /// A tool call begins.
    ToolCall { name: String, brief: String, preview: String },
    /// The connection is tried again.
    Retry { attempt: u32, max_attempts: u32, reason: String },
    /// A tool call ended.
    ToolDone,
    /// The model call returned: whether the run was cancelled meanwhile,
    /// and the reply or the error.
    Ended { cancelled: bool, result: Result<String, String> },
    /// The agent is closed.
    Shutdown,
}

/// An agent as its thread keeps it.
pub struct AgentRun {
    pub status: AgentStatusValue,
    pub prompt: String,
    pub reply: String,
    pub events: Vec<String>,
}

/// What the thread is to do after an event: the lines to append to the
/// agent's log, the value to give the cancel flag, the exchange to add to
/// the transcript, whether to prune agent outputs, and whether to stop.
pub struct AgentStep {
    pub log_lines: Vec<String>,
    pub cancel_flag: Option<bool>,
    pub transcript: Option<(String, Option<String>)>,
    pub enforce_retention: bool,
    pub stop: bool,
}

pub open spec fn run_line(prompt: Seq<char>) -> Seq<char> {
    "◌ 任务 · "@ + truncate_preview_spec(prompt, 72)
}

pub open spec fn retry_line(attempt: u32, max_attempts: u32, reason: Seq<char>) -> Seq<char> {
    "↻ Reconnecting "@ + dec_spec(attempt as nat) + "/"@ + dec_spec(max_attempts as nat) + " · "@ + reason
}

/// The event lines a finished run adds, from its trimmed reply.
pub open spec fn done_texts(final_text: Seq<char>) -> Seq<Seq<char>> {
    if final_text.len() > 0 {
        completion_events_spec(final_text)
    } else {
        seq!["✓ 已完成"@]
    }
}

fn single(s: String) -> (r: Vec<String>)
    ensures
        strings_of(r@) == seq![s@],
{
    let mut v: Vec<String> = Vec::new();
    v.push(s);
    assert(strings_of(v@) =~= seq![v@[0]@]);
    v
}

fn completion_texts(final_text: &str) -> (r: Vec<String>)
    ensures
        strings_of(r@) == completion_events_spec(final_text@),
{
    let ls = nonblank_trimmed_lines(final_text);
    let n = if ls.len() > AGENT_COMPLETION_EVENT_MAX_LINES {
        AGENT_COMPLETION_EVENT_MAX_LINES
    } else {
        ls.len()
    };
    if n == 0 {
        return single(chars_to_string(&str_chars("✓ 已完成")));
    }
    let ghost want = completion_events_spec(final_text@);
    let mut out: Vec<String> = Vec::new();
    let mut first = str_chars("✓ 结论 · ");
    push_chars(&mut first, &ls[0]);
    out.push(chars_to_string(&first));
    let mut i: usize = 1;
    while i < n
        invariant
            1 <= i <= n,
            n <= ls@.len(),
            views(ls@) == text_lines(final_text@),
            n as int == want.len(),
            want == completion_events_spec(final_text@),
            out@.len() == i,
            forall|j: int| 0 <= j < i ==> (#[trigger] out@[j])@ == want[j],
        decreases n - i,
    {
        out.push(chars_to_string(&ls[i]));
        i += 1;
    }
    assert(strings_of(out@) =~= want);
    out
}

/// One step of an agent's thread (see `AgentEvent`): a run marks the agent
/// running, clears the cancel flag and notes the task; a non-blank piece of
/// reply updates the live reply line; a tool call or a retry adds its line;
/// a cancelled run notes the cancel and changes nothing else; a reply
/// completes the agent with its trimmed text (none when blank), adds the
/// exchange to the transcript and notes the conclusion; an error marks the
/// agent errored; closing sets the cancel flag, marks it shut down and
/// stops the thread. A finished run or a close prunes agent outputs.
#[verifier::rlimit(60)]
pub fn agent_step(run: &mut AgentRun, event: AgentEvent) -> (r: AgentStep)
    ensures
        match event {
            AgentEvent::Run(p) => {
                &&& final(run).status == AgentStatusValue::Running
                &&& final(run).prompt@ == p@ && final(run).reply@.len() == 0
                &&& strings_of(final(run).events@) == push_event_spec(strings_of(old(run).events@), run_line(p@))
                &&& strings_of(r.log_lines@) == logged_spec(seq![run_line(p@)])
                &&& r.cancel_flag == Some(false) && r.transcript is None && !r.enforce_retention && !r.stop
            },
            AgentEvent::Chunk(d) => {
                let reply = if trim_spec(d@).len() > 0 { old(run).reply@ + d@ } else { old(run).reply@ };
                &&& final(run).status == old(run).status && final(run).prompt == old(run).prompt
                &&& final(run).reply@ == reply
                &&& strings_of(final(run).events@) == (if trim_spec(d@).len() > 0 {
                    match latest_stream_spec(reply) {
                        Some(pv) => upsert_event_spec(strings_of(old(run).events@), "❥ "@, "❥ "@ + pv),
                        None => strings_of(old(run).events@),
                    }
                } else {
                    strings_of(old(run).events@)
                })
                &&& r.cancel_flag is None && r.transcript is None && !r.enforce_retention && !r.stop
            },
            AgentEvent::ToolCall { name, brief, preview } => {
                &&& final(run).status == old(run).status && final(run).prompt == old(run).prompt
                &&& final(run).reply == old(run).reply
                &&& strings_of(final(run).events@) == push_event_spec(
                    strings_of(old(run).events@),
                    tool_event_spec(name@, brief@, preview@),
                )
                &&& strings_of(r.log_lines@) == logged_spec(seq![tool_event_spec(name@, brief@, preview@)])
                &&& r.cancel_flag is None && r.transcript is None && !r.enforce_retention && !r.stop
            },
            AgentEvent::Retry { attempt, max_attempts, reason } => {
                &&& final(run).status == old(run).status && final(run).prompt == old(run).prompt
                &&& final(run).reply == old(run).reply
                &&& strings_of(final(run).events@) == push_event_spec(
                    strings_of(old(run).events@),
                    retry_line(attempt, max_attempts, reason@),
                )
                &&& r.cancel_flag is None && r.transcript is None && !r.enforce_retention && !r.stop
            },
            AgentEvent::ToolDone => {
                &&& final(run).status == old(run).status && final(run).prompt == old(run).prompt
                &&& final(run).reply == old(run).reply && final(run).events == old(run).events
                &&& r.log_lines@.len() == 0
                &&& r.cancel_flag is None && r.transcript is None && !r.enforce_retention && !r.stop
            },
            AgentEvent::Ended { cancelled, result } => if cancelled {
                &&& final(run).status == old(run).status && final(run).prompt == old(run).prompt
                &&& final(run).reply == old(run).reply
                &&& strings_of(final(run).events@) == push_event_spec(strings_of(old(run).events@), "✕ 已取消"@)
                &&& r.cancel_flag is None && r.transcript is None && !r.enforce_retention && !r.stop
            } else {
                match result {
                    Ok(text) => {
                        let f = trim_spec(text@);
                        &&& (if f.len() > 0 {
                            final(run).status matches AgentStatusValue::Completed(Some(t)) && t@ == f
                        } else {
                            final(run).status == AgentStatusValue::Completed(None)
                        })
                        &&& final(run).prompt == old(run).prompt && final(run).reply == old(run).reply
                        &&& strings_of(final(run).events@) == push_events_spec(strings_of(old(run).events@), done_texts(f))
                        &&& strings_of(r.log_lines@) == logged_spec(done_texts(f))
                        &&& r.transcript matches Some((p, reply)) && p@ == old(run).prompt@ && (if f.len() > 0 {
                            reply matches Some(x) && x@ == f
                        } else {
                            reply is None
                        })
                        &&& r.cancel_flag is None && r.enforce_retention && !r.stop
                    },
                    Err(e) => {
                        &&& final(run).status == AgentStatusValue::Errored(e)
                        &&& final(run).prompt == old(run).prompt && final(run).reply == old(run).reply
                        &&& strings_of(final(run).events@) == push_event_spec(
                            strings_of(old(run).events@),
                            "✕ "@ + completion_preview_spec(e@),
                        )
                        &&& r.cancel_flag is None && r.transcript is None && r.enforce_retention && !r.stop
                    },
                }
            },
            AgentEvent::Shutdown => {
                &&& final(run).status == AgentStatusValue::Shutdown
                &&& final(run).prompt == old(run).prompt && final(run).reply == old(run).reply
                &&& strings_of(final(run).events@) == push_event_spec(strings_of(old(run).events@), "◌ 已关闭"@)
                &&& r.cancel_flag == Some(true) && r.transcript is None && r.enforce_retention && r.stop
            },
        },
{
    let mut log: Vec<String> = Vec::new();
    match event {
        AgentEvent::Run(p) => {
            let mut line = str_chars("◌ 任务 · ");
            push_str(&mut line, truncate_preview(p.as_str(), 72).as_str());
            let texts = single(chars_to_string(&line));
            proof {
                lemma_one_event(strings_of(run.events@), texts@[0]@);
            }
            push_agent_events(&mut run.events, &texts, &mut log);
            run.status = AgentStatusValue::Running;
            run.prompt = p;
            run.reply = chars_to_string(&Vec::new());
            AgentStep { log_lines: log, cancel_flag: Some(false), transcript: None, enforce_retention: false, stop: false }
        },
        AgentEvent::Chunk(d) => {
            if trim_chars(&str_chars(d.as_str())).len() > 0 {
                let mut reply = str_chars(run.reply.as_str());
                push_str(&mut reply, d.as_str());
                run.reply = chars_to_string(&reply);
                match latest_stream_preview(run.reply.as_str()) {
                    Some(pv) => {
                        let mut line = str_chars("❥ ");
                        push_str(&mut line, pv.as_str());
                        match upsert_agent_event(&mut run.events, "❥ ", chars_to_string(&line).as_str()) {
                            Some(l) => log.push(l),
                            None => {},
                        }
                    },
                    None => {},
                }
            }
            AgentStep { log_lines: log, cancel_flag: None, transcript: None, enforce_retention: false, stop: false }
        },
        AgentEvent::ToolCall { name, brief, preview } => {
            let texts = single(agent_tool_event_line(name.as_str(), brief.as_str(), preview.as_str()));
            proof {
                lemma_one_event(strings_of(run.events@), texts@[0]@);
            }
            push_agent_events(&mut run.events, &texts, &mut log);
            AgentStep { log_lines: log, cancel_flag: None, transcript: None, enforce_retention: false, stop: false }
        },
        AgentEvent::Retry { attempt, max_attempts, reason } => {
            let mut line = str_chars("↻ Reconnecting ");
            push_dec(&mut line, attempt as u64);
            push_str(&mut line, "/");
            push_dec(&mut line, max_attempts as u64);
            push_str(&mut line, " · ");
            push_str(&mut line, reason.as_str());
            let texts = single(chars_to_string(&line));
            proof {
                lemma_one_event(strings_of(run.events@), texts@[0]@);
            }
            push_agent_events(&mut run.events, &texts, &mut log);
            AgentStep { log_lines: log, cancel_flag: None, transcript: None, enforce_retention: false, stop: false }
        },
        AgentEvent::ToolDone => {
            AgentStep { log_lines: log, cancel_flag: None, transcript: None, enforce_retention: false, stop: false }
        },
        AgentEvent::Ended { cancelled, result } => {
            if cancelled {
                let texts = single(chars_to_string(&str_chars("✕ 已取消")));
                proof {
                    lemma_one_event(strings_of(run.events@), texts@[0]@);
                }
                push_agent_events(&mut run.events, &texts, &mut log);
                return AgentStep {
                    log_lines: log,
                    cancel_flag: None,
                    transcript: None,
                    enforce_retention: false,
                    stop: false,
                };
            }
            match result {
                Ok(text) => {
                    let f = trim_chars(&str_chars(text.as_str()));
                    let texts = if f.len() > 0 {
                        completion_texts(chars_to_string(&f).as_str())
                    } else {
                        single(chars_to_string(&str_chars("✓ 已完成")))
                    };
                    push_agent_events(&mut run.events, &texts, &mut log);
                    let reply: Option<String> = if f.len() > 0 {
                        Some(chars_to_string(&f))
                    } else {
                        None
                    };
                    run.status = if f.len() > 0 {
                        AgentStatusValue::Completed(Some(chars_to_string(&f)))
                    } else {
                        AgentStatusValue::Completed(None)
                    };
                    let prompt = chars_to_string(&str_chars(run.prompt.as_str()));
                    AgentStep {
                        log_lines: log,
                        cancel_flag: None,
                        transcript: Some((prompt, reply)),
                        enforce_retention: true,
                        stop: false,
                    }
                },
                Err(e) => {
                    let mut line = str_chars("✕ ");
                    push_str(&mut line, agent_completion_preview(e.as_str()).as_str());
                    let texts = single(chars_to_string(&line));
                    proof {
                        lemma_one_event(strings_of(run.events@), texts@[0]@);
                    }
                    push_agent_events(&mut run.events, &texts, &mut log);
                    run.status = AgentStatusValue::Errored(e);
                    AgentStep { log_lines: log, cancel_flag: None, transcript: None, enforce_retention: true, stop: false }
                },
            }
        },
        AgentEvent::Shutdown => {
            let texts = single(chars_to_string(&str_chars("◌ 已关闭")));
            proof {
                lemma_one_event(strings_of(run.events@), texts@[0]@);
            }
            push_agent_events(&mut run.events, &texts, &mut log);
            run.status = AgentStatusValue::Shutdown;
            AgentStep { log_lines: log, cancel_flag: Some(true), transcript: None, enforce_retention: true, stop: true }
        },
    }
}

} // verus!
