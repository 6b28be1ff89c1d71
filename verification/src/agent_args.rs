//! What the agent and terminal tools were asked to do: which agents or
//! sessions a call names, and how an agent's input is shown.
use vstd::prelude::*;

use crate::roles::{lemma_lex_asym, lemma_lex_total, lemma_lex_trans, lex_less, lex_lt};
use crate::terminal::push_line;
use crate::text::{
    chars_eq_str, chars_to_string, join_chars, join_spec, push_chars, push_str, str_chars, trim_chars, trim_spec,
    views,
};
use crate::tool_args::{truncate_preview, truncate_preview_spec};

verus! {

/// Why agent or session arguments were refused.
#[derive(Debug, Clone, Copy, PartialEq, Eq, Structural)]
pub enum AgentArgsError {
    /// No agent was named.
    NoAgents,
    /// No session was named.
    NoSessions,
    /// Both a message and items were given.
    MessageAndItems,
    /// Neither a message nor items were given.
    NoInput,
    /// An input was sent to no agent.
    NoTarget,
    /// The items say nothing.
    EmptyItems,
}

impl AgentArgsError {
    pub open spec fn message_spec(self) -> Seq<char> {
        match self {
            AgentArgsError::NoAgents => "agent 参数不能为空"@,
            AgentArgsError::NoSessions => "pty_kill 需要 session_id 或 session_ids"@,
            AgentArgsError::MessageAndItems => "message 和 items 只能二选一"@,
            AgentArgsError::NoInput => "必须提供 message 或 items"@,
            AgentArgsError::NoTarget => "send_input 需要 id"@,
            AgentArgsError::EmptyItems => "items 不能为空"@,
        }
    }

    pub fn message(&self) -> (r: &'static str)
        ensures
            r@ == self.message_spec(),
    {
        match self {
            AgentArgsError::NoAgents => "agent 参数不能为空",
            AgentArgsError::NoSessions => "pty_kill 需要 session_id 或 session_ids",
            AgentArgsError::MessageAndItems => "message 和 items 只能二选一",
            AgentArgsError::NoInput => "必须提供 message 或 items",
            AgentArgsError::NoTarget => "send_input 需要 id",
            AgentArgsError::EmptyItems => "items 不能为空",
        }
    }
}

// ---------------------------------------------------------------------------
// Agent ids
// ---------------------------------------------------------------------------

/// A call that names one agent or several.
#[derive(Debug, Clone, PartialEq, Eq)]
pub struct SingleAgentArgs {
    pub id: Option<String>,
    pub ids: Vec<String>,
}

pub open spec fn strings_view(v: Seq<String>) -> Seq<Seq<char>> {
    v.map_values(|s: String| s@)
}

/// The names a call gives, trimmed, blanks dropped: `id` first, then
/// `ids`.
pub open spec fn named_ids(a: SingleAgentArgs) -> Seq<Seq<char>> {
    let first = match a.id {
        Some(s) => if trim_spec(s@).len() > 0 {
            seq![trim_spec(s@)]
        } else {
            Seq::empty()
        },
        None => Seq::empty(),
    };
    first + nonblank_trimmed(strings_view(a.ids@))
}

pub open spec fn nonblank_trimmed(v: Seq<Seq<char>>) -> Seq<Seq<char>>
    decreases v.len(),
{
    if v.len() == 0 {
        Seq::empty()
    } else {
        let prev = nonblank_trimmed(v.drop_last());
        if trim_spec(v.last()).len() > 0 {
            prev.push(trim_spec(v.last()))
        } else {
            prev
        }
    }
}

/// Strictly increasing in the order of `str`.
pub open spec fn sorted_strings(v: Seq<Seq<char>>) -> bool {
    forall|i: int, j: int| 0 <= i < j < v.len() ==> lex_lt(#[trigger] v[i], #[trigger] v[j])
}

/// The same items, each once.
pub open spec fn same_set<T>(a: Seq<T>, b: Seq<T>) -> bool {
    &&& forall|i: int| 0 <= i < a.len() ==> b.contains(#[trigger] a[i])
    &&& forall|i: int| 0 <= i < b.len() ==> a.contains(#[trigger] b[i])
}

fn insert_sorted_string(v: &mut Vec<Vec<char>>, x: Vec<char>)
    requires
        sorted_strings(views(old(v)@)),
    ensures
        sorted_strings(views(final(v)@)),
        same_set(views(final(v)@), views(old(v)@).push(x@)),
{
    let ghost before = views(v@);
    let mut p: usize = 0;
    while p < v.len() && lex_less(&v[p], &x)
        invariant
            p <= v@.len(),
            before == views(v@),
            forall|k: int| 0 <= k < p ==> lex_lt(#[trigger] before[k], x@),
        decreases v@.len() - p,
    {
        p += 1;
    }
    if p < v.len() && crate::text::chars_eq(&v[p], &x) {
        proof {
            let pushed = before.push(x@);
            assert(before[p as int] == x@);
            assert forall|i: int| 0 <= i < pushed.len() implies before.contains(#[trigger] pushed[i]) by {
                if i == before.len() {
                    assert(before[p as int] == pushed[i]);
                }
            }
            assert forall|i: int| 0 <= i < before.len() implies pushed.contains(#[trigger] before[i]) by {
                assert(pushed[i] == before[i]);
            }
        }
        return;
    }
    let ghost xv = x@;
    v.insert(p, x);
    proof {
        let after = views(v@);
        assert(after =~= before.insert(p as int, xv));
        if p < before.len() {
            lemma_lex_total(before[p as int], xv);
        }
        assert forall|k: int| p <= k < before.len() implies lex_lt(xv, #[trigger] before[k]) by {
            lemma_lex_total(before[p as int], xv);
            if k > p {
                lemma_lex_trans(xv, before[p as int], before[k]);
            }
        }
        assert forall|i: int, j: int| 0 <= i < j < after.len() implies lex_lt(#[trigger] after[i], #[trigger] after[j]) by {
            if i < p && j > p {
                assert(after[j] == before[j - 1]);
                lemma_lex_trans(before[i], xv, before[j - 1]);
            } else if i == p {
                assert(after[j] == before[j - 1]);
            } else if i > p {
                assert(after[i] == before[i - 1]);
                assert(after[j] == before[j - 1]);
            }
        }
        let pushed = before.push(xv);
        assert forall|i: int| 0 <= i < after.len() implies pushed.contains(#[trigger] after[i]) by {
            if i < p {
                assert(pushed[i] == after[i]);
            } else if i == p {
                assert(pushed[before.len() as int] == after[i]);
            } else {
                assert(pushed[i - 1] == after[i]);
            }
        }
        assert forall|i: int| 0 <= i < pushed.len() implies after.contains(#[trigger] pushed[i]) by {
            if i < p {
                assert(after[i] == pushed[i]);
            } else if i == before.len() {
                assert(after[p as int] == pushed[i]);
            } else {
                assert(after[i + 1] == pushed[i]);
            }
        }
    }
}

proof fn lemma_same_set_push<T>(a: Seq<T>, b: Seq<T>, a2: Seq<T>, x: T)
    requires
        same_set(a, b),
        same_set(a2, a.push(x)),
    ensures
        same_set(a2, b.push(x)),
{
    let ap = a.push(x);
    let bp = b.push(x);
    assert forall|i: int| 0 <= i < a2.len() implies bp.contains(#[trigger] a2[i]) by {
        assert(ap.contains(a2[i]));
        let k = choose|k: int| 0 <= k < ap.len() && ap[k] == a2[i];
        if k < a.len() {
            assert(b.contains(a[k]));
            let q = choose|q: int| 0 <= q < b.len() && b[q] == a[k];
            assert(bp[q] == a2[i]);
        } else {
            assert(bp[b.len() as int] == a2[i]);
        }
    }
    assert forall|i: int| 0 <= i < bp.len() implies a2.contains(#[trigger] bp[i]) by {
        if i < b.len() {
            assert(a.contains(b[i]));
            let q = choose|q: int| 0 <= q < a.len() && a[q] == b[i];
            assert(ap[q] == bp[i]);
            assert(a2.contains(ap[q]));
        } else {
            assert(ap[a.len() as int] == bp[i]);
            assert(a2.contains(ap[a.len() as int]));
        }
    }
}

impl SingleAgentArgs {
    /// The agents named, in order and each once; an error when none is.
    pub fn resolved_ids(&self) -> (r: Result<Vec<String>, AgentArgsError>)
        ensures
            match r {
                Ok(v) => strings_view(v@).len() > 0 && sorted_strings(strings_view(v@)) && same_set(
                    strings_view(v@),
                    named_ids(*self),
                ),
                Err(e) => e == AgentArgsError::NoAgents && named_ids(*self).len() == 0,
            },
    {
        let mut sorted: Vec<Vec<char>> = Vec::new();
        let ghost mut seen: Seq<Seq<char>> = Seq::empty();
        match &self.id {
            Some(s) => {
                let t = trim_chars(&str_chars(s.as_str()));
                if t.len() > 0 {
                    let ghost before = views(sorted@);
                    insert_sorted_string(&mut sorted, t);
                    proof {
                        lemma_same_set_push(before, seen, views(sorted@), trim_spec(s@));
                        seen = seen.push(trim_spec(s@));
                    }
                }
            },
            None => {},
        }
        let ghost first = seen;
        proof {
            assert(first =~= match self.id {
                Some(s) => if trim_spec(s@).len() > 0 {
                    seq![trim_spec(s@)]
                } else {
                    Seq::<Seq<char>>::empty()
                },
                None => Seq::<Seq<char>>::empty(),
            });
        }
        let ids = &self.ids;
        let ghost iv = strings_view(ids@);
        let mut i: usize = 0;
        assert(iv.take(0) =~= Seq::<Seq<char>>::empty());
        assert(first + nonblank_trimmed(iv.take(0)) =~= first);
        while i < ids.len()
            invariant
                i <= ids@.len(),
                iv == strings_view(ids@),
                seen == first + nonblank_trimmed(iv.take(i as int)),
                sorted_strings(views(sorted@)),
                same_set(views(sorted@), seen),
            decreases ids@.len() - i,
        {
            proof {
                assert(iv.take(i + 1).drop_last() =~= iv.take(i as int));
            }
            let t = trim_chars(&str_chars(ids[i].as_str()));
            if t.len() > 0 {
                let ghost before = views(sorted@);
                insert_sorted_string(&mut sorted, t);
                proof {
                    lemma_same_set_push(before, seen, views(sorted@), trim_spec(iv[i as int]));
                    seen = seen.push(trim_spec(iv[i as int]));
                    assert(first + nonblank_trimmed(iv.take(i + 1)) =~= (first + nonblank_trimmed(iv.take(i as int))).push(
                        trim_spec(iv[i as int]),
                    ));
                }
            }
            i += 1;
        }
        assert(iv.take(ids@.len() as int) =~= iv);
        if sorted.len() == 0 {
            proof {
                if seen.len() > 0 {
                    assert(views(sorted@).contains(seen[0]));
                }
            }
            return Err(AgentArgsError::NoAgents);
        }
        let mut out: Vec<String> = Vec::new();
        let mut k: usize = 0;
        while k < sorted.len()
            invariant
                k <= sorted@.len(),
                strings_view(out@) == views(sorted@).take(k as int),
            decreases sorted@.len() - k,
        {
            let ghost b = strings_view(out@);
            out.push(chars_to_string(&sorted[k]));
            proof {
                assert(strings_view(out@) =~= b.push(views(sorted@)[k as int]));
                assert(views(sorted@).take(k + 1) =~= views(sorted@).take(k as int).push(views(sorted@)[k as int]));
            }
            k += 1;
        }
        assert(views(sorted@).take(sorted@.len() as int) =~= views(sorted@));
        Ok(out)
    }
}

// ---------------------------------------------------------------------------
// Session ids
// ---------------------------------------------------------------------------

/// A call that ends one terminal session or several.
#[derive(Debug, Clone, PartialEq, Eq)]
pub struct PtyKillArgs {
    pub session_id: Option<u64>,
    pub session_ids: Vec<u64>,
}

pub open spec fn named_sessions(a: PtyKillArgs) -> Seq<u64> {
    (match a.session_id {
        Some(s) => seq![s],
        None => Seq::empty(),
    }) + a.session_ids@
}

pub open spec fn increasing(v: Seq<u64>) -> bool {
    forall|i: int, j: int| 0 <= i < j < v.len() ==> #[trigger] v[i] < #[trigger] v[j]
}

fn insert_sorted_u64(v: &mut Vec<u64>, x: u64)
    requires
        increasing(old(v)@),
    ensures
        increasing(final(v)@),
        same_set(final(v)@, old(v)@.push(x)),
{
    let ghost before = v@;
    let mut p: usize = 0;
    while p < v.len() && v[p] < x
        invariant
            p <= v@.len(),
            before == v@,
            forall|k: int| 0 <= k < p ==> #[trigger] before[k] < x,
        decreases v@.len() - p,
    {
        p += 1;
    }
    if p < v.len() && v[p] == x {
        proof {
            let pushed = before.push(x);
            assert forall|i: int| 0 <= i < pushed.len() implies before.contains(#[trigger] pushed[i]) by {
                if i == before.len() {
                    assert(before[p as int] == pushed[i]);
                }
            }
            assert forall|i: int| 0 <= i < before.len() implies pushed.contains(#[trigger] before[i]) by {
                assert(pushed[i] == before[i]);
            }
        }
        return;
    }
    v.insert(p, x);
    proof {
        let after = v@;
        assert(after =~= before.insert(p as int, x));
        let pushed = before.push(x);
        assert forall|i: int| 0 <= i < after.len() implies pushed.contains(#[trigger] after[i]) by {
            if i < p {
                assert(pushed[i] == after[i]);
            } else if i == p {
                assert(pushed[before.len() as int] == after[i]);
            } else {
                assert(pushed[i - 1] == after[i]);
            }
        }
        assert forall|i: int| 0 <= i < pushed.len() implies after.contains(#[trigger] pushed[i]) by {
            if i < p {
                assert(after[i] == pushed[i]);
            } else if i == before.len() {
                assert(after[p as int] == pushed[i]);
            } else {
                assert(after[i + 1] == pushed[i]);
            }
        }
        assert forall|i: int, j: int| 0 <= i < j < after.len() implies #[trigger] after[i] < #[trigger] after[j] by {
            if i < p && j > p {
                assert(after[j] == before[j - 1]);
            } else if i == p {
                assert(after[j] == before[j - 1]);
            } else if i > p {
                assert(after[i] == before[i - 1]);
                assert(after[j] == before[j - 1]);
            }
        }
    }
}

impl PtyKillArgs {
    /// The sessions named, in increasing order and each once; an error when
    /// none is.
    pub fn resolved_session_ids(&self) -> (r: Result<Vec<u64>, AgentArgsError>)
        ensures
            match r {
                Ok(v) => v@.len() > 0 && increasing(v@) && same_set(v@, named_sessions(*self)),
                Err(e) => e == AgentArgsError::NoSessions && named_sessions(*self).len() == 0,
            },
    {
        let mut out: Vec<u64> = Vec::new();
        let ghost mut seen: Seq<u64> = Seq::empty();
        match self.session_id {
            Some(s) => {
                let ghost before = out@;
                insert_sorted_u64(&mut out, s);
                proof {
                    lemma_same_set_push(before, seen, out@, s);
                    seen = seen.push(s);
                }
            },
            None => {},
        }
        let ghost first = seen;
        let ids = &self.session_ids;
        let mut i: usize = 0;
        assert(first + ids@.take(0) =~= first);
        while i < ids.len()
            invariant
                i <= ids@.len(),
                seen == first + ids@.take(i as int),
                increasing(out@),
                same_set(out@, seen),
            decreases ids@.len() - i,
        {
            let ghost before = out@;
            insert_sorted_u64(&mut out, ids[i]);
            proof {
                lemma_same_set_push(before, seen, out@, ids@[i as int]);
                seen = seen.push(ids@[i as int]);
                assert(first + ids@.take(i + 1) =~= (first + ids@.take(i as int)).push(ids@[i as int]));
            }
            i += 1;
        }
        assert(ids@.take(ids@.len() as int) =~= ids@);
        assert(seen =~= named_sessions(*self));
        if out.len() == 0 {
            proof {
                if seen.len() > 0 {
                    assert(out@.contains(seen[0]));
                }
            }
            return Err(AgentArgsError::NoSessions);
        }
        Ok(out)
    }
}

/// A wait on agents.
#[derive(Debug, Clone, PartialEq, Eq)]
pub struct WaitAgentArgs {
    pub ids: Vec<String>,
    pub timeout_ms: Option<i64>,
}

// ---------------------------------------------------------------------------
// Structured input
// ---------------------------------------------------------------------------

/// One item of an agent's structured input.
#[derive(Debug, Clone, PartialEq, Eq)]
pub struct StructuredInputItemArgs {
    pub item_type: Option<String>,
    pub text: Option<String>,
    pub image_url: Option<String>,
    pub path: Option<String>,
    pub name: Option<String>,
}

pub open spec fn or_empty(o: Option<String>) -> Seq<char> {
    match o {
        Some(s) => s@,
        None => Seq::empty(),
    }
}

/// An item as text: its text, or its kind and what it points at.
pub open spec fn item_preview_spec(it: StructuredInputItemArgs) -> Seq<char> {
    let t = match it.item_type {
        Some(s) => s@,
        None => "text"@,
    };
    if t == "text"@ {
        or_empty(it.text)
    } else if t == "image"@ {
        "[image:"@ + or_empty(it.image_url) + "]"@
    } else if t == "local_image"@ {
        "[local_image:"@ + or_empty(it.path) + "]"@
    } else if t == "skill"@ {
        "[skill:"@ + or_empty(it.name) + ":"@ + or_empty(it.path) + "]"@
    } else if t == "mention"@ {
        "[mention:"@ + or_empty(it.name) + ":"@ + or_empty(it.path) + "]"@
    } else {
        "["@ + t + "]"@
    }
}

fn push_or_empty(out: &mut Vec<char>, o: &Option<String>)
    ensures
        final(out)@ == old(out)@ + or_empty(*o),
{
    match o {
        Some(s) => push_str(out, s.as_str()),
        None => {
            assert(out@ =~= out@ + Seq::<char>::empty());
        },
    }
}

pub fn structured_item_preview(item: &StructuredInputItemArgs) -> (r: Vec<char>)
    ensures
        r@ == item_preview_spec(*item),
{
    let t = match &item.item_type {
        Some(s) => str_chars(s.as_str()),
        None => str_chars("text"),
    };
    let mut out: Vec<char> = Vec::new();
    if chars_eq_str(&t, "text") {
        push_or_empty(&mut out, &item.text);
    } else if chars_eq_str(&t, "image") {
        push_str(&mut out, "[image:");
        push_or_empty(&mut out, &item.image_url);
        push_str(&mut out, "]");
    } else if chars_eq_str(&t, "local_image") {
        push_str(&mut out, "[local_image:");
        push_or_empty(&mut out, &item.path);
        push_str(&mut out, "]");
    } else if chars_eq_str(&t, "skill") {
        push_str(&mut out, "[skill:");
        push_or_empty(&mut out, &item.name);
        push_str(&mut out, ":");
        push_or_empty(&mut out, &item.path);
        push_str(&mut out, "]");
    } else if chars_eq_str(&t, "mention") {
        push_str(&mut out, "[mention:");
        push_or_empty(&mut out, &item.name);
        push_str(&mut out, ":");
        push_or_empty(&mut out, &item.path);
        push_str(&mut out, "]");
    } else {
        push_str(&mut out, "[");
        push_chars(&mut out, &t);
        push_str(&mut out, "]");
    }
    assert(out@ =~= item_preview_spec(*item));
    out
}

pub open spec fn opt_items(o: Option<Vec<StructuredInputItemArgs>>) -> Seq<StructuredInputItemArgs> {
    match o {
        Some(v) => v@,
        None => Seq::empty(),
    }
}

pub open spec fn opt_text(o: Option<String>) -> Option<Seq<char>> {
    match o {
        Some(s) => if trim_spec(s@).len() > 0 {
            Some(trim_spec(s@))
        } else {
            None
        },
        None => None,
    }
}

/// Exactly one of a message and items is given.
pub open spec fn structured_input_check(message: Option<String>, items: Option<Vec<StructuredInputItemArgs>>) -> Option<
    AgentArgsError,
> {
    let has_message = opt_text(message) is Some;
    let has_items = opt_items(items).len() > 0;
    if has_message && has_items {
        Some(AgentArgsError::MessageAndItems)
    } else if !has_message && !has_items {
        Some(AgentArgsError::NoInput)
    } else {
        None
    }
}

pub fn validate_structured_agent_input(message: &Option<String>, items: &Option<Vec<StructuredInputItemArgs>>) -> (r:
    Result<(), AgentArgsError>)
    ensures
        match structured_input_check(*message, *items) {
            Some(e) => r == Err::<(), AgentArgsError>(e),
            None => r is Ok,
        },
{
    let has_message = match message {
        Some(m) => trim_chars(&str_chars(m.as_str())).len() > 0,
        None => false,
    };
    let has_items = match items {
        Some(v) => v.len() > 0,
        None => false,
    };
    if has_message && has_items {
        Err(AgentArgsError::MessageAndItems)
    } else if !has_message && !has_items {
        Err(AgentArgsError::NoInput)
    } else {
        Ok(())
    }
}

/// An agent's input as the chat shows it: the message, else its items one
/// per line, cut to 120 characters.
pub open spec fn structured_preview_spec(message: Option<String>, items: Option<Vec<StructuredInputItemArgs>>) -> Seq<
    char,
> {
    match opt_text(message) {
        Some(m) => truncate_preview_spec(m, 120),
        None => {
            let joined = join_spec(opt_items(items).map_values(|it: StructuredInputItemArgs| item_preview_spec(it)), "\n"@);
            if trim_spec(joined).len() == 0 {
                "(empty)"@
            } else {
                truncate_preview_spec(joined, 120)
            }
        },
    }
}

pub fn build_structured_agent_input_preview(
    message: &Option<String>,
    items: &Option<Vec<StructuredInputItemArgs>>,
) -> (r: String)
    ensures
        r@ == structured_preview_spec(*message, *items),
{
    match message {
        Some(m) => {
            let t = trim_chars(&str_chars(m.as_str()));
            if t.len() > 0 {
                return truncate_preview(chars_to_string(&t).as_str(), 120);
            }
        },
        None => {},
    }
    let mut parts: Vec<Vec<char>> = Vec::new();
    let ghost its = opt_items(*items);
    match items {
        Some(v) => {
            let mut i: usize = 0;
            while i < v.len()
                invariant
                    i <= v@.len(),
                    its == v@,
                    views(parts@) == its.take(i as int).map_values(|it: StructuredInputItemArgs| item_preview_spec(it)),
                decreases v@.len() - i,
            {
                push_line(&mut parts, structured_item_preview(&v[i]));
                proof {
                    assert(its.take(i + 1).map_values(|it: StructuredInputItemArgs| item_preview_spec(it)) =~= its.take(
                        i as int,
                    ).map_values(|it: StructuredInputItemArgs| item_preview_spec(it)).push(item_preview_spec(its[i as int])));
                }
                i += 1;
            }
            assert(its.take(v@.len() as int) =~= its);
        },
        None => {
            assert(views(parts@) =~= its.map_values(|it: StructuredInputItemArgs| item_preview_spec(it)));
        },
    }
    let joined = join_chars(&parts, &str_chars("\n"));
    if trim_chars(&joined).len() == 0 {
        chars_to_string(&str_chars("(empty)"))
    } else {
        truncate_preview(chars_to_string(&joined).as_str(), 120)
    }
}

/// The items that say something, as text.
pub open spec fn nonblank_previews(items: Seq<StructuredInputItemArgs>) -> Seq<Seq<char>>
    decreases items.len(),
{
    if items.len() == 0 {
        Seq::empty()
    } else {
        let prev = nonblank_previews(items.drop_last());
        if trim_spec(item_preview_spec(items.last())).len() > 0 {
            prev.push(item_preview_spec(items.last()))
        } else {
            prev
        }
    }
}

/// What an agent is asked: the message, trimmed, else its items one per
/// line; refused as the input check refuses, or when the items say
/// nothing.
pub open spec fn agent_prompt_spec(message: Option<String>, items: Option<Vec<StructuredInputItemArgs>>) -> Result<
    Seq<char>,
    AgentArgsError,
> {
    match structured_input_check(message, items) {
        Some(e) => Err(e),
        None => match opt_text(message) {
            Some(m) => Ok(m),
            None => {
                let joined = join_spec(nonblank_previews(opt_items(items)), "\n"@);
                if trim_spec(joined).len() == 0 {
                    Err(AgentArgsError::EmptyItems)
                } else {
                    Ok(joined)
                }
            },
        },
    }
}

pub fn build_structured_agent_prompt(message: &Option<String>, items: &Option<Vec<StructuredInputItemArgs>>) -> (r:
    Result<String, AgentArgsError>)
    ensures
        match agent_prompt_spec(*message, *items) {
            Ok(t) => r matches Ok(s) && s@ == t,
            Err(e) => r == Err::<String, AgentArgsError>(e),
        },
{
    match validate_structured_agent_input(message, items) {
        Err(e) => return Err(e),
        Ok(()) => {},
    }
    match message {
        Some(m) => {
            let t = trim_chars(&str_chars(m.as_str()));
            if t.len() > 0 {
                return Ok(chars_to_string(&t));
            }
        },
        None => {},
    }
    let mut parts: Vec<Vec<char>> = Vec::new();
    let ghost its = opt_items(*items);
    match items {
        Some(v) => {
            let mut i: usize = 0;
            while i < v.len()
                invariant
                    i <= v@.len(),
                    its == v@,
                    views(parts@) == nonblank_previews(its.take(i as int)),
                decreases v@.len() - i,
            {
                proof {
                    assert(its.take(i + 1).drop_last() =~= its.take(i as int));
                }
                let text = structured_item_preview(&v[i]);
                if trim_chars(&text).len() > 0 {
                    push_line(&mut parts, text);
                }
                i += 1;
            }
            assert(its.take(v@.len() as int) =~= its);
        },
        None => {
            assert(views(parts@) =~= nonblank_previews(its));
        },
    }
    let joined = join_chars(&parts, &str_chars("\n"));
    if trim_chars(&joined).len() == 0 {
        Err(AgentArgsError::EmptyItems)
    } else {
        Ok(chars_to_string(&joined))
    }
}

/// A new agent.
#[derive(Debug, Clone, PartialEq, Eq)]
pub struct SpawnAgentArgs {
    pub message: Option<String>,
    pub items: Option<Vec<StructuredInputItemArgs>>,
    pub agent_type: Option<String>,
    pub fork_context: bool,
    pub model: Option<String>,
    pub reasoning_effort: Option<String>,
}

/// An input for a running agent.
#[derive(Debug, Clone, PartialEq, Eq)]
pub struct SendInputArgs {
    pub id: String,
    pub message: Option<String>,
    pub items: Option<Vec<StructuredInputItemArgs>>,
    pub interrupt: bool,
}

/// The brief of a new agent: its type and the head of its input.
pub open spec fn spawn_brief_spec(a: SpawnAgentArgs) -> Seq<char> {
    let role = match opt_text(a.agent_type) {
        Some(t) => t,
        None => "子代理"@,
    };
    "启动 "@ + role + " · "@ + truncate_preview_spec(structured_preview_spec(a.message, a.items), 20)
}

pub fn derive_spawn_agent_brief(args: &SpawnAgentArgs) -> (r: String)
    ensures
        r@ == spawn_brief_spec(*args),
{
    let role: Vec<char> = match &args.agent_type {
        Some(t) => {
            let tt = trim_chars(&str_chars(t.as_str()));
            if tt.len() > 0 {
                tt
            } else {
                str_chars("子代理")
            }
        },
        None => str_chars("子代理"),
    };
    let preview = build_structured_agent_input_preview(&args.message, &args.items);
    let mut out = str_chars("启动 ");
    push_chars(&mut out, &role);
    push_str(&mut out, " · ");
    push_str(&mut out, truncate_preview(preview.as_str(), 20).as_str());
    chars_to_string(&out)
}

} // verus!
