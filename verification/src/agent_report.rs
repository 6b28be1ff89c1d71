//! What the chat and the model are told about sub-agents: the list of
//! agents, one agent's runtime report, and the preview of a wait on several.
use vstd::prelude::*;

use crate::agent_args::{nonblank_trimmed, strings_view};
use crate::agent_events::{event_text_spec, normalize_agent_event_text, AGENT_EVENT_MAX_CHARS};
use crate::settings::RUNNING_SNAPSHOT_INTERVAL_SECS;
use crate::terminal::{
    append_all, push_line, running_notice, running_wait_notice_zh,
};
use crate::output::{clamp_report_text, report_clamp_spec};
use crate::text::{
    chars_to_string, dec_spec, ellipsis_chars, ellipsis_spec, join_lines, join_lines_exec, join_spec, lines_chars,
    lines_spec, push_chars, push_dec, push_str, str_chars, trim_chars, trim_spec, views,
};
use crate::tools::{
    agent_label_text, agent_number_spec, agent_status_display_text, agent_status_short_label, is_final_agent_status,
    status_short_spec, AgentStatusValue,
};

verus! {

/// An agent as a wait sees it.
#[derive(Debug, Clone, PartialEq, Eq)]
pub struct AgentRuntimeSnapshot {
    pub status: AgentStatusValue,
    pub latest_event: Option<String>,
    pub event_lines: Vec<String>,
}

/// An agent as the chat lists it.
#[derive(Debug, Clone, PartialEq, Eq)]
pub struct AgentUiSnapshot {
    pub id: String,
    pub nickname: Option<String>,
    pub agent_type: Option<String>,
    pub status: AgentStatusValue,
    pub task_preview: String,
    pub event_lines: Vec<String>,
    pub log_path: String,
    pub created_at: u64,
}

pub open spec fn label_spec(id: Seq<char>) -> Seq<char> {
    match agent_number_spec(id) {
        Some(n) => "#"@ + dec_spec(n as nat),
        None => id,
    }
}

pub open spec fn display_spec(s: AgentStatusValue) -> Seq<char> {
    match s {
        AgentStatusValue::PendingInit => "准备中"@,
        AgentStatusValue::Running => "运行中"@,
        AgentStatusValue::Completed(_) => "已完成"@,
        AgentStatusValue::Errored(_) => "失败"@,
        AgentStatusValue::Shutdown => "已关闭"@,
        AgentStatusValue::NotFound => "未找到"@,
    }
}

pub open spec fn is_final(s: AgentStatusValue) -> bool {
    !(s is PendingInit || s is Running)
}

/// The lines of a text, each trimmed, blank ones dropped.
pub open spec fn text_lines(text: Seq<char>) -> Seq<Seq<char>> {
    nonblank_trimmed(lines_spec(text))
}

pub(crate) fn nonblank_trimmed_lines(text: &str) -> (r: Vec<Vec<char>>)
    ensures
        views(r@) == text_lines(text@),
{
    let ls = lines_chars(&str_chars(text));
    let ghost lv = views(ls@);
    let mut out: Vec<Vec<char>> = Vec::new();
    let mut i: usize = 0;
    while i < ls.len()
        invariant
            i <= ls@.len(),
            lv == views(ls@),
            lv == lines_spec(text@),
            views(out@) == nonblank_trimmed(lv.take(i as int)),
        decreases ls@.len() - i,
    {
        let t = trim_chars(&ls[i]);
        proof {
            assert(lv.take(i + 1).drop_last() =~= lv.take(i as int));
            assert(lv.take(i + 1).last() == lv[i as int]);
        }
        if t.len() > 0 {
            push_line(&mut out, t);
        }
        i += 1;
    }
    assert(lv.take(ls@.len() as int) =~= lv);
    out
}

/// The last line of a text that is not blank, as an event.
pub open spec fn latest_stream_spec(text: Seq<char>) -> Option<Seq<char>> {
    let ls = text_lines(text);
    if ls.len() > 0 && event_text_spec(ls.last()).len() > 0 {
        Some(event_text_spec(ls.last()))
    } else {
        None
    }
}

pub fn latest_stream_preview(text: &str) -> (r: Option<String>)
    ensures
        match r {
            Some(s) => latest_stream_spec(text@) == Some(s@),
            None => latest_stream_spec(text@) is None,
        },
{
    let ls = nonblank_trimmed_lines(text);
    if ls.len() == 0 {
        return None;
    }
    let n = ls.len();
    let line = normalize_agent_event_text(chars_to_string(&ls[n - 1]).as_str());
    if str_chars(line.as_str()).len() == 0 {
        None
    } else {
        Some(line)
    }
}

/// The first line of a completion that is not blank, as an event; the
/// whole text when every line is blank.
pub open spec fn completion_preview_spec(text: Seq<char>) -> Seq<char> {
    let ls = text_lines(text);
    event_text_spec(
        if ls.len() > 0 {
            ls[0]
        } else {
            text
        },
    )
}

pub fn agent_completion_preview(text: &str) -> (r: String)
    ensures
        r@ == completion_preview_spec(text@),
{
    let ls = nonblank_trimmed_lines(text);
    if ls.len() > 0 {
        normalize_agent_event_text(chars_to_string(&ls[0]).as_str())
    } else {
        normalize_agent_event_text(text)
    }
}

/// Whether every agent of a wait is done.
pub fn all_agent_snapshots_final(snapshots: &Vec<(String, AgentRuntimeSnapshot)>) -> (r: bool)
    ensures
        r == forall|i: int| 0 <= i < snapshots@.len() ==> is_final(#[trigger] snapshots@[i].1.status),
{
    let mut i: usize = 0;
    while i < snapshots.len()
        invariant
            i <= snapshots@.len(),
            forall|j: int| 0 <= j < i ==> is_final(#[trigger] snapshots@[j].1.status),
        decreases snapshots@.len() - i,
    {
        if !is_final_agent_status(&snapshots[i].1.status) {
            return false;
        }
        i += 1;
    }
    true
}

// ---------------------------------------------------------------------------
// The list
// ---------------------------------------------------------------------------

/// How many of these agents are not shut down.
pub open spec fn visible_count(s: Seq<AgentUiSnapshot>) -> nat
    decreases s.len(),
{
    if s.len() == 0 {
        0
    } else {
        visible_count(s.drop_last()) + if s.last().status is Shutdown {
            0nat
        } else {
            1nat
        }
    }
}

pub open spec fn list_line(a: AgentUiSnapshot) -> Seq<char> {
    label_spec(a.id@) + " · "@ + match a.agent_type {
        Some(t) => t@ + " · "@,
        None => Seq::empty(),
    } + display_spec(a.status) + " · "@ + a.log_path@
}

pub open spec fn list_preview_spec(s: Seq<AgentUiSnapshot>, include_closed: bool) -> Seq<char> {
    join_lines(
        seq![
            dec_spec(s.len()) + " 个子代理 · "@ + (if include_closed {
                "含已关闭"@
            } else {
                "仅活动"@
            }) + " 显示"@,
            "当前可见："@ + dec_spec(visible_count(s)),
        ] + s.map_values(|a: AgentUiSnapshot| list_line(a)),
    )
}

fn list_line_exec(a: &AgentUiSnapshot) -> (r: Vec<char>)
    ensures
        r@ == list_line(*a),
{
    let mut l = str_chars(agent_label_text(a.id.as_str()).as_str());
    push_str(&mut l, " · ");
    match &a.agent_type {
        Some(t) => {
            push_str(&mut l, t.as_str());
            push_str(&mut l, " · ");
        },
        None => {},
    }
    push_str(&mut l, agent_status_display_text(&a.status));
    push_str(&mut l, " · ");
    push_str(&mut l, a.log_path.as_str());
    l
}

/// The list of agents the chat shows.
pub fn build_list_agent_preview(snapshots: &Vec<AgentUiSnapshot>, include_closed: bool) -> (r: String)
    ensures
        r@ == list_preview_spec(snapshots@, include_closed),
{
    let mut visible: u64 = 0;
    let mut rows: Vec<Vec<char>> = Vec::new();
    let mut i: usize = 0;
    while i < snapshots.len()
        invariant
            i <= snapshots@.len(),
            visible == visible_count(snapshots@.take(i as int)),
            visible <= i,
            views(rows@) == snapshots@.take(i as int).map_values(|a: AgentUiSnapshot| list_line(a)),
        decreases snapshots@.len() - i,
    {
        let a = &snapshots[i];
        proof {
            assert(snapshots@.take(i + 1).drop_last() =~= snapshots@.take(i as int));
        }
        if !matches!(a.status, AgentStatusValue::Shutdown) {
            visible = visible + 1;
        }
        push_line(&mut rows, list_line_exec(a));
        proof {
            assert(snapshots@.take(i + 1).map_values(|a: AgentUiSnapshot| list_line(a)) =~= snapshots@.take(
                i as int,
            ).map_values(|a: AgentUiSnapshot| list_line(a)).push(list_line(snapshots@[i as int])));
        }
        i += 1;
    }
    assert(snapshots@.take(snapshots@.len() as int) =~= snapshots@);
    let mut lines: Vec<Vec<char>> = Vec::new();
    let mut head: Vec<char> = Vec::new();
    push_dec(&mut head, snapshots.len() as u64);
    push_str(&mut head, " 个子代理 · ");
    push_str(
        &mut head,
        if include_closed {
            "含已关闭"
        } else {
            "仅活动"
        },
    );
    push_str(&mut head, " 显示");
    push_line(&mut lines, head);
    let mut second = str_chars("当前可见：");
    push_dec(&mut second, visible);
    push_line(&mut lines, second);
    let ghost head_v = views(lines@);
    let mut k: usize = 0;
    while k < rows.len()
        invariant
            k <= rows@.len(),
            views(lines@) == head_v + views(rows@).take(k as int),
        decreases rows@.len() - k,
    {
        push_line(&mut lines, rows[k].clone());
        proof {
            assert(views(rows@).take(k + 1) =~= views(rows@).take(k as int).push(rows@[k as int]@));
        }
        k += 1;
    }
    assert(views(rows@).take(rows@.len() as int) =~= views(rows@));
    assert(views(rows@) == snapshots@.map_values(|a: AgentUiSnapshot| list_line(a)));
    assert(views(lines@) =~= seq![
        dec_spec(snapshots@.len()) + " 个子代理 · "@ + (if include_closed {
            "含已关闭"@
        } else {
            "仅活动"@
        }) + " 显示"@,
        "当前可见："@ + dec_spec(visible_count(snapshots@)),
    ] + snapshots@.map_values(|a: AgentUiSnapshot| list_line(a)));
    chars_to_string(&join_lines_exec(&lines))
}

// ---------------------------------------------------------------------------
// One agent's report
// ---------------------------------------------------------------------------

/// The last of these lines that is not blank.
pub open spec fn last_nonblank(v: Seq<Seq<char>>) -> Option<Seq<char>>
    decreases v.len(),
{
    if v.len() == 0 {
        None
    } else if trim_spec(v.last()).len() > 0 {
        Some(v.last())
    } else {
        last_nonblank(v.drop_last())
    }
}

/// What a report says of an agent with no result to show: its latest
/// event, else its task.
pub open spec fn latest_detail(a: AgentUiSnapshot) -> Seq<char> {
    match last_nonblank(strings_view(a.event_lines@)) {
        Some(l) => "latest:"@ + l,
        None => if trim_spec(a.task_preview@).len() == 0 {
            "latest:◌ 运行中"@
        } else {
            "latest:"@ + ellipsis_spec(trim_spec(a.task_preview@), AGENT_EVENT_MAX_CHARS as nat)
        },
    }
}

pub open spec fn report_detail_spec(a: AgentUiSnapshot) -> Seq<char> {
    match a.status {
        AgentStatusValue::Completed(Some(t)) => if trim_spec(t@).len() > 0 {
            "summary:"@ + completion_preview_spec(t@)
        } else {
            latest_detail(a)
        },
        AgentStatusValue::Completed(None) => "summary:✓ 已完成"@,
        AgentStatusValue::Errored(t) => if trim_spec(t@).len() > 0 {
            "summary:✕ "@ + ellipsis_spec(trim_spec(t@), AGENT_EVENT_MAX_CHARS as nat)
        } else {
            latest_detail(a)
        },
        _ => latest_detail(a),
    }
}

pub open spec fn report_summary_line(a: AgentUiSnapshot) -> Seq<char> {
    "agent_id:"@ + a.id@ + " | nickname:"@ + (match a.nickname {
        Some(n) => n@,
        None => label_spec(a.id@),
    }) + " | status:"@ + status_short_spec(a.status) + match a.agent_type {
        Some(t) => if trim_spec(t@).len() > 0 {
            " | type:"@ + trim_spec(t@)
        } else {
            Seq::empty()
        },
        None => Seq::empty(),
    }
}

pub open spec fn report_lines(a: AgentUiSnapshot, final_report: bool) -> Seq<Seq<char>> {
    seq![
        if final_report {
            "Agent Done"@
        } else {
            "Agent Snapshot"@
        },
        report_summary_line(a),
        "visible_to_user:true"@,
        "log:"@ + a.log_path@,
    ] + (if !final_report && !is_final(a.status) {
        seq![
            "snapshot_interval_secs:"@ + dec_spec(RUNNING_SNAPSHOT_INTERVAL_SECS as nat),
            "notice:"@ + running_notice(),
        ]
    } else {
        Seq::empty()
    }) + seq![report_detail_spec(a)]
}

fn latest_detail_exec(a: &AgentUiSnapshot) -> (r: Vec<char>)
    ensures
        r@ == latest_detail(*a),
{
    let ghost ev = strings_view(a.event_lines@);
    let mut i: usize = a.event_lines.len();
    assert(ev.take(i as int) =~= ev);
    while i > 0
        invariant
            i <= a.event_lines@.len(),
            ev == strings_view(a.event_lines@),
            last_nonblank(ev) == last_nonblank(ev.take(i as int)),
        decreases i,
    {
        let line = &a.event_lines[i - 1];
        proof {
            assert(ev.take(i as int).drop_last() =~= ev.take(i - 1));
            assert(ev.take(i as int).last() == line@);
        }
        if trim_chars(&str_chars(line.as_str())).len() > 0 {
            let mut out = str_chars("latest:");
            push_str(&mut out, line.as_str());
            return out;
        }
        i -= 1;
    }
    assert(ev.take(0) =~= Seq::<Seq<char>>::empty());
    let task = trim_chars(&str_chars(a.task_preview.as_str()));
    if task.len() == 0 {
        str_chars("latest:◌ 运行中")
    } else {
        let mut out = str_chars("latest:");
        push_chars(&mut out, &ellipsis_chars(&task, AGENT_EVENT_MAX_CHARS));
        out
    }
}

fn report_detail_exec(a: &AgentUiSnapshot) -> (r: Vec<char>)
    ensures
        r@ == report_detail_spec(*a),
{
    match &a.status {
        AgentStatusValue::Completed(Some(t)) => {
            if trim_chars(&str_chars(t.as_str())).len() > 0 {
                let mut out = str_chars("summary:");
                push_str(&mut out, agent_completion_preview(t.as_str()).as_str());
                out
            } else {
                latest_detail_exec(a)
            }
        },
        AgentStatusValue::Completed(None) => str_chars("summary:✓ 已完成"),
        AgentStatusValue::Errored(t) => {
            let tt = trim_chars(&str_chars(t.as_str()));
            if tt.len() > 0 {
                let mut out = str_chars("summary:✕ ");
                push_chars(&mut out, &ellipsis_chars(&tt, AGENT_EVENT_MAX_CHARS));
                out
            } else {
                latest_detail_exec(a)
            }
        },
        _ => latest_detail_exec(a),
    }
}

/// The report of one agent the model is given: a snapshot while it runs, or
/// the final report when it is done.
pub fn build_agent_runtime_report(snapshot: &AgentUiSnapshot, final_report: bool) -> (r: String)
    ensures
        r@ == report_clamp_spec(join_lines(report_lines(*snapshot, final_report))),
{
    let a = snapshot;
    let mut lines: Vec<Vec<char>> = Vec::new();
    push_line(
        &mut lines,
        str_chars(
            if final_report {
                "Agent Done"
            } else {
                "Agent Snapshot"
            },
        ),
    );
    let mut summary = str_chars("agent_id:");
    push_str(&mut summary, a.id.as_str());
    push_str(&mut summary, " | nickname:");
    match &a.nickname {
        Some(n) => push_str(&mut summary, n.as_str()),
        None => push_str(&mut summary, agent_label_text(a.id.as_str()).as_str()),
    }
    push_str(&mut summary, " | status:");
    push_str(&mut summary, agent_status_short_label(&a.status));
    let ghost before_type = summary@;
    match &a.agent_type {
        Some(t) => {
            let tt = trim_chars(&str_chars(t.as_str()));
            if tt.len() > 0 {
                push_str(&mut summary, " | type:");
                push_chars(&mut summary, &tt);
            } else {
                assert(summary@ =~= before_type + Seq::<char>::empty());
            }
        },
        None => {
            assert(summary@ =~= before_type + Seq::<char>::empty());
        },
    }
    assert(summary@ == report_summary_line(*a));
    push_line(&mut lines, summary);
    push_line(&mut lines, str_chars("visible_to_user:true"));
    let mut log = str_chars("log:");
    push_str(&mut log, a.log_path.as_str());
    push_line(&mut lines, log);
    if !final_report && !is_final_agent_status(&a.status) {
        let mut iv = str_chars("snapshot_interval_secs:");
        push_dec(&mut iv, RUNNING_SNAPSHOT_INTERVAL_SECS);
        push_line(&mut lines, iv);
        let mut notice = str_chars("notice:");
        push_str(&mut notice, running_wait_notice_zh());
        push_line(&mut lines, notice);
    }
    push_line(&mut lines, report_detail_exec(a));
    assert(views(lines@) =~= report_lines(*a, final_report));
    clamp_report_text(chars_to_string(&join_lines_exec(&lines)))
}

// ---------------------------------------------------------------------------
// A wait on several agents
// ---------------------------------------------------------------------------

/// Where a state stands in the summary of a wait: in the order of the
/// states' keys.
pub open spec fn status_rank(s: AgentStatusValue) -> int {
    match s {
        AgentStatusValue::Completed(_) => 0,
        AgentStatusValue::Errored(_) => 1,
        AgentStatusValue::NotFound => 2,
        AgentStatusValue::PendingInit => 3,
        AgentStatusValue::Running => 4,
        AgentStatusValue::Shutdown => 5,
    }
}

pub open spec fn rank_text(k: int) -> Seq<char> {
    if k == 0 {
        "已完成"@
    } else if k == 1 {
        "失败"@
    } else if k == 2 {
        "未找到"@
    } else if k == 3 {
        "准备中"@
    } else if k == 4 {
        "运行中"@
    } else {
        "已关闭"@
    }
}

/// How many of the agents are in the state of rank `k`.
pub open spec fn status_count(s: Seq<(String, AgentRuntimeSnapshot)>, k: int) -> nat
    decreases s.len(),
{
    if s.len() == 0 {
        0
    } else {
        status_count(s.drop_last(), k) + if status_rank(s.last().1.status) == k {
            1nat
        } else {
            0nat
        }
    }
}

pub open spec fn summary_part(s: Seq<(String, AgentRuntimeSnapshot)>, k: int) -> Seq<Seq<char>> {
    if status_count(s, k) > 0 {
        seq![dec_spec(status_count(s, k)) + " "@ + rank_text(k)]
    } else {
        Seq::empty()
    }
}

/// `"{count} {state}"` for each state some agent is in, in rank order.
pub open spec fn wait_summary(s: Seq<(String, AgentRuntimeSnapshot)>) -> Seq<char> {
    join_spec(
        summary_part(s, 0) + summary_part(s, 1) + summary_part(s, 2) + summary_part(s, 3) + summary_part(s, 4)
            + summary_part(s, 5),
        " · "@,
    )
}

/// The agents still at work, by label, in order.
pub open spec fn running_labels(s: Seq<(String, AgentRuntimeSnapshot)>) -> Seq<Seq<char>>
    decreases s.len(),
{
    if s.len() == 0 {
        Seq::empty()
    } else {
        running_labels(s.drop_last()) + if is_final(s.last().1.status) {
            Seq::<Seq<char>>::empty()
        } else {
            seq![label_spec(s.last().0@)]
        }
    }
}

/// The latest events of an agent: its last four event lines, else its
/// latest event.
pub open spec fn event_detail(a: AgentRuntimeSnapshot) -> Seq<Seq<char>> {
    let ev = strings_view(a.event_lines@);
    if ev.len() == 0 {
        match a.latest_event {
            Some(e) => seq![e@],
            None => Seq::empty(),
        }
    } else {
        ev.skip(if ev.len() > 4 { ev.len() - 4 } else { 0 })
    }
}

/// What a wait shows under an agent: its result, its error, or its latest
/// events.
pub open spec fn wait_detail(a: AgentRuntimeSnapshot) -> Seq<Seq<char>> {
    match a.status {
        AgentStatusValue::Completed(Some(t)) => if trim_spec(t@).len() > 0 {
            text_lines(t@)
        } else {
            event_detail(a)
        },
        AgentStatusValue::Errored(t) => if trim_spec(t@).len() > 0 {
            seq!["✕ "@ + trim_spec(t@)]
        } else {
            event_detail(a)
        },
        _ => event_detail(a),
    }
}

pub open spec fn wait_entry_lines(s: Seq<(String, AgentRuntimeSnapshot)>) -> Seq<Seq<char>>
    decreases s.len(),
{
    if s.len() == 0 {
        Seq::empty()
    } else {
        wait_entry_lines(s.drop_last()) + seq![label_spec(s.last().0@) + " · "@ + display_spec(s.last().1.status)]
            + wait_detail(s.last().1)
    }
}

pub open spec fn wait_status_line(summary: Seq<char>, timeout_ms: u64, timed_out: bool) -> Seq<char> {
    if timed_out {
        if summary.len() == 0 {
            "仍在执行 · 已等待 "@ + dec_spec((timeout_ms / 1000) as nat) + "s"@
        } else {
            summary + " · 已等待 "@ + dec_spec((timeout_ms / 1000) as nat) + "s"@
        }
    } else if summary.len() == 0 {
        "0 个子代理"@
    } else {
        summary
    }
}

/// The preview of a wait on these agents, in the order given: who is
/// still working, how many are in each state, then each agent and what it
/// has to show.
pub open spec fn wait_preview_spec(s: Seq<(String, AgentRuntimeSnapshot)>, timeout_ms: u64, timed_out: bool) -> Seq<
    char,
> {
    let run = running_labels(s);
    let head = if run.len() > 0 {
        seq![
            join_spec(run, "/"@) + " "@ + (if run.len() == 1 {
                "is"@
            } else {
                "are"@
            }) + " still working, now wait for finish."@,
        ]
    } else {
        Seq::empty()
    };
    join_lines(head + seq![wait_status_line(wait_summary(s), timeout_ms, timed_out)] + wait_entry_lines(s))
}

fn event_detail_exec(a: &AgentRuntimeSnapshot) -> (r: Vec<Vec<char>>)
    ensures
        views(r@) == event_detail(*a),
{
    let mut out: Vec<Vec<char>> = Vec::new();
    let n = a.event_lines.len();
    let ghost ev = strings_view(a.event_lines@);
    if n == 0 {
        match &a.latest_event {
            Some(e) => push_line(&mut out, str_chars(e.as_str())),
            None => {},
        }
        assert(views(out@) =~= event_detail(*a));
        return out;
    }
    let start: usize = if n > 4 {
        n - 4
    } else {
        0
    };
    let mut i: usize = start;
    while i < n
        invariant
            start <= i <= n,
            n == a.event_lines@.len(),
            ev == strings_view(a.event_lines@),
            views(out@) == ev.subrange(start as int, i as int),
        decreases n - i,
    {
        push_line(&mut out, str_chars(a.event_lines[i].as_str()));
        proof {
            assert(ev.subrange(start as int, i + 1) =~= ev.subrange(start as int, i as int).push(ev[i as int]));
        }
        i += 1;
    }
    assert(ev.subrange(start as int, n as int) =~= ev.skip(start as int));
    out
}

fn wait_detail_exec(a: &AgentRuntimeSnapshot) -> (r: Vec<Vec<char>>)
    ensures
        views(r@) == wait_detail(*a),
{
    match &a.status {
        AgentStatusValue::Completed(Some(t)) => {
            if trim_chars(&str_chars(t.as_str())).len() > 0 {
                nonblank_trimmed_lines(t.as_str())
            } else {
                event_detail_exec(a)
            }
        },
        AgentStatusValue::Errored(t) => {
            let tt = trim_chars(&str_chars(t.as_str()));
            if tt.len() > 0 {
                let mut l = str_chars("✕ ");
                push_chars(&mut l, &tt);
                let mut out: Vec<Vec<char>> = Vec::new();
                push_line(&mut out, l);
                assert(views(out@) =~= seq!["✕ "@ + trim_spec(t@)]);
                out
            } else {
                event_detail_exec(a)
            }
        },
        _ => event_detail_exec(a),
    }
}

fn rank_exec(s: &AgentStatusValue) -> (r: usize)
    ensures
        r as int == status_rank(*s),
{
    match s {
        AgentStatusValue::Completed(_) => 0,
        AgentStatusValue::Errored(_) => 1,
        AgentStatusValue::NotFound => 2,
        AgentStatusValue::PendingInit => 3,
        AgentStatusValue::Running => 4,
        AgentStatusValue::Shutdown => 5,
    }
}

fn rank_text_exec(k: usize) -> (r: &'static str)
    ensures
        r@ == rank_text(k as int),
{
    if k == 0 {
        "已完成"
    } else if k == 1 {
        "失败"
    } else if k == 2 {
        "未找到"
    } else if k == 3 {
        "准备中"
    } else if k == 4 {
        "运行中"
    } else {
        "已关闭"
    }
}

/// The preview of a wait on these agents, in the order given (the order
/// of their ids); `timeout_ms` is how long the wait lasted when it timed
/// out.
pub fn build_wait_agent_preview(snapshots: &Vec<(String, AgentRuntimeSnapshot)>, timeout_ms: u64, timed_out: bool) -> (r:
    String)
    ensures
        r@ == wait_preview_spec(snapshots@, timeout_ms, timed_out),
{
    let ghost s = snapshots@;
    let mut counts: Vec<u64> = vec![0, 0, 0, 0, 0, 0];
    let mut running: Vec<Vec<char>> = Vec::new();
    let mut entries: Vec<Vec<char>> = Vec::new();
    let mut i: usize = 0;
    while i < snapshots.len()
        invariant
            i <= s.len(),
            s == snapshots@,
            counts@.len() == 6,
            forall|k: int| 0 <= k < 6 ==> #[trigger] counts@[k] == status_count(s.take(i as int), k),
            forall|k: int| 0 <= k < 6 ==> #[trigger] counts@[k] <= i,
            views(running@) == running_labels(s.take(i as int)),
            views(entries@) == wait_entry_lines(s.take(i as int)),
        decreases s.len() - i,
    {
        let (id, snap) = (&snapshots[i].0, &snapshots[i].1);
        proof {
            assert(s.take(i + 1).drop_last() =~= s.take(i as int));
            assert(s.take(i + 1).last() == s[i as int]);
        }
        let k = rank_exec(&snap.status);
        let c = counts[k];
        counts.set(k, c + 1);
        if !is_final_agent_status(&snap.status) {
            push_line(&mut running, str_chars(agent_label_text(id.as_str()).as_str()));
        } else {
            assert(views(running@) =~= running_labels(s.take(i as int)) + Seq::<Seq<char>>::empty());
        }
        let mut head = str_chars(agent_label_text(id.as_str()).as_str());
        push_str(&mut head, " · ");
        push_str(&mut head, agent_status_display_text(&snap.status));
        push_line(&mut entries, head);
        append_all(&mut entries, wait_detail_exec(snap));
        i += 1;
    }
    assert(s.take(s.len() as int) =~= s);
    let mut parts: Vec<Vec<char>> = Vec::new();
    let mut k: usize = 0;
    while k < 6
        invariant
            k <= 6,
            counts@.len() == 6,
            forall|j: int| 0 <= j < 6 ==> #[trigger] counts@[j] == status_count(s, j),
            views(parts@) == (if k == 0 {
                Seq::empty()
            } else if k == 1 {
                summary_part(s, 0)
            } else if k == 2 {
                summary_part(s, 0) + summary_part(s, 1)
            } else if k == 3 {
                summary_part(s, 0) + summary_part(s, 1) + summary_part(s, 2)
            } else if k == 4 {
                summary_part(s, 0) + summary_part(s, 1) + summary_part(s, 2) + summary_part(s, 3)
            } else if k == 5 {
                summary_part(s, 0) + summary_part(s, 1) + summary_part(s, 2) + summary_part(s, 3) + summary_part(s, 4)
            } else {
                summary_part(s, 0) + summary_part(s, 1) + summary_part(s, 2) + summary_part(s, 3) + summary_part(s, 4)
                    + summary_part(s, 5)
            }),
        decreases 6 - k,
    {
        let ghost before = views(parts@);
        let c = counts[k];
        if c > 0 {
            let mut p: Vec<char> = Vec::new();
            push_dec(&mut p, c);
            push_str(&mut p, " ");
            push_str(&mut p, rank_text_exec(k));
            push_line(&mut parts, p);
        }
        assert(views(parts@) =~= before + summary_part(s, k as int));
        k += 1;
    }
    let summary = crate::text::join_chars(&parts, &str_chars(" · "));
    let secs = timeout_ms / 1000;
    let status_line = if timed_out {
        if summary.len() == 0 {
            let mut l = str_chars("仍在执行 · 已等待 ");
            push_dec(&mut l, secs);
            push_str(&mut l, "s");
            l
        } else {
            let mut l = summary.clone();
            push_str(&mut l, " · 已等待 ");
            push_dec(&mut l, secs);
            push_str(&mut l, "s");
            l
        }
    } else if summary.len() == 0 {
        str_chars("0 个子代理")
    } else {
        summary.clone()
    };
    assert(status_line@ == wait_status_line(wait_summary(s), timeout_ms, timed_out));
    let mut lines: Vec<Vec<char>> = Vec::new();
    if running.len() > 0 {
        let mut l = crate::text::join_chars(&running, &str_chars("/"));
        push_str(&mut l, " ");
        push_str(
            &mut l,
            if running.len() == 1 {
                "is"
            } else {
                "are"
            },
        );
        push_str(&mut l, " still working, now wait for finish.");
        push_line(&mut lines, l);
    }
    let ghost run = running_labels(s);
    let ghost head = if run.len() > 0 {
        seq![
            join_spec(run, "/"@) + " "@ + (if run.len() == 1 {
                "is"@
            } else {
                "are"@
            }) + " still working, now wait for finish."@,
        ]
    } else {
        Seq::empty()
    };
    assert(views(lines@) =~= if run.len() > 0 {
        seq![
            join_spec(run, "/"@) + " "@ + (if run.len() == 1 {
                "is"@
            } else {
                "are"@
            }) + " still working, now wait for finish."@,
        ]
    } else {
        Seq::empty()
    });
    push_line(&mut lines, status_line);
    append_all(&mut lines, entries);
    assert(views(lines@) =~= head + seq![wait_status_line(wait_summary(s), timeout_ms, timed_out)]
        + wait_entry_lines(s));
    chars_to_string(&join_lines_exec(&lines))
}

} // verus!
