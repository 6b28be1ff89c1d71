//! The names a tool call gives for where it acts: a context, a section of
//! the fast memory, a speaker, a memory store and a span of dates. Each is
//! read trimmed and in any ASCII case.
use vstd::prelude::*;

use crate::command::{opt_str_view, opt_string_view};
use crate::memory_args::MemoryCheckArgs;
use crate::text::{chars_eq_str, chars_to_string, lower_chars, lower_spec, push_str, str_chars, trim_chars, trim_spec};

verus! {

#[derive(Debug, Clone, Copy, PartialEq, Eq, Structural)]
pub enum ContextTarget {
    Context,
    FocusContext,
    FastMemory,
    FastContext,
    AdviceBoard,
}

#[derive(Debug, Clone, Copy, PartialEq, Eq, Structural)]
pub enum FastMemorySection {
    Environment,
    SelfState,
    User,
    Event,
}

#[derive(Debug, Clone, Copy, PartialEq, Eq, Structural)]
pub enum ContextRole {
    User,
    Assistant,
    System,
}

#[derive(Debug, Clone, Copy, PartialEq, Eq, Structural)]
pub enum MemoryTarget {
    DateMemory,
    MetaMemory,
    ContextMemory,
    ToolMemory,
}

/// Which dates a memory check looks at.
#[derive(Debug, Clone, PartialEq, Eq)]
pub enum DateMemoryScope {
    Recent,
    Past,
    Old,
    Custom { start_date: String, end_date: String },
}

/// A name that names nothing, or a span without its ends. The names are
/// kept as read: trimmed and lower-cased.
#[derive(Debug, Clone, PartialEq, Eq)]
pub enum TargetError {
    ContextTarget(String),
    FastMemorySection(String),
    ContextRole(String),
    MemoryTarget(String),
    MemoryScope(String),
    CustomScopeNeedsStartDate,
    CustomScopeNeedsEndDate,
}

pub enum TargetErr {
    ContextTarget(Seq<char>),
    FastMemorySection(Seq<char>),
    ContextRole(Seq<char>),
    MemoryTarget(Seq<char>),
    MemoryScope(Seq<char>),
    CustomScopeNeedsStartDate,
    CustomScopeNeedsEndDate,
}

impl View for TargetError {
    type V = TargetErr;

    open spec fn view(&self) -> TargetErr {
        match self {
            TargetError::ContextTarget(s) => TargetErr::ContextTarget(s@),
            TargetError::FastMemorySection(s) => TargetErr::FastMemorySection(s@),
            TargetError::ContextRole(s) => TargetErr::ContextRole(s@),
            TargetError::MemoryTarget(s) => TargetErr::MemoryTarget(s@),
            TargetError::MemoryScope(s) => TargetErr::MemoryScope(s@),
            TargetError::CustomScopeNeedsStartDate => TargetErr::CustomScopeNeedsStartDate,
            TargetError::CustomScopeNeedsEndDate => TargetErr::CustomScopeNeedsEndDate,
        }
    }
}

impl TargetError {
    pub open spec fn message_spec(self) -> Seq<char> {
        match self {
            TargetError::ContextTarget(s) => "不支持的 context target："@ + s@,
            TargetError::FastMemorySection(s) => "不支持的 fastmemory section："@ + s@,
            TargetError::ContextRole(s) => "不支持的 context role："@ + s@,
            TargetError::MemoryTarget(s) => "不支持的 memory target："@ + s@,
            TargetError::MemoryScope(s) => "不支持的 memory scope："@ + s@,
            TargetError::CustomScopeNeedsStartDate => "scope=custom 需要 start_date"@,
            TargetError::CustomScopeNeedsEndDate => "scope=custom 需要 end_date"@,
        }
    }

    /// The error as the model is told it.
    pub fn message(&self) -> (r: String)
        ensures
            r@ == self.message_spec(),
    {
        let (prefix, rest): (&str, Option<&String>) = match self {
            TargetError::ContextTarget(s) => ("不支持的 context target：", Some(s)),
            TargetError::FastMemorySection(s) => ("不支持的 fastmemory section：", Some(s)),
            TargetError::ContextRole(s) => ("不支持的 context role：", Some(s)),
            TargetError::MemoryTarget(s) => ("不支持的 memory target：", Some(s)),
            TargetError::MemoryScope(s) => ("不支持的 memory scope：", Some(s)),
            TargetError::CustomScopeNeedsStartDate => ("scope=custom 需要 start_date", None),
            TargetError::CustomScopeNeedsEndDate => ("scope=custom 需要 end_date", None),
        };
        let mut out = str_chars(prefix);
        match rest {
            Some(s) => push_str(&mut out, s.as_str()),
            None => {},
        }
        proof {
            if rest is None {
                assert(out@ =~= prefix@);
            }
        }
        chars_to_string(&out)
    }
}

/// A name as it is compared: trimmed, ASCII lower case.
pub open spec fn key_spec(raw: Seq<char>) -> Seq<char> {
    lower_spec(trim_spec(raw))
}

pub open spec fn opt_key(raw: Option<&str>) -> Seq<char> {
    match raw {
        Some(s) => key_spec(s@),
        None => Seq::empty(),
    }
}

fn key_of(raw: Option<&str>) -> (r: Vec<char>)
    ensures
        r@ == opt_key(raw),
{
    match raw {
        Some(s) => lower_chars(&trim_chars(&str_chars(s))),
        None => {
            assert(lower_spec(trim_spec(Seq::<char>::empty())) =~= Seq::<char>::empty());
            Vec::new()
        },
    }
}

pub open spec fn context_target_spec(k: Seq<char>) -> Option<ContextTarget> {
    if k == "context"@ {
        Some(ContextTarget::Context)
    } else if k == "toolcontext"@ || k == "tool_context"@ || k == "taskcontext"@ || k == "task_context"@ || k
        == "focuscontext"@ || k == "focus_context"@ {
        Some(ContextTarget::FocusContext)
    } else if k == "fastmemory"@ || k == "fast_memory"@ {
        Some(ContextTarget::FastMemory)
    } else if k == "fastcontext"@ || k == "fast_context"@ {
        Some(ContextTarget::FastContext)
    } else if k == "adviceboard"@ || k == "advice_board"@ {
        Some(ContextTarget::AdviceBoard)
    } else {
        None
    }
}

/// The context a call names; none named reads as an empty name.
pub fn parse_context_target(raw: Option<&str>) -> (r: Result<ContextTarget, TargetError>)
    ensures
        match context_target_spec(opt_key(raw)) {
            Some(t) => r == Ok::<ContextTarget, TargetError>(t),
            None => r matches Err(TargetError::ContextTarget(s)) && s@ == opt_key(raw),
        },
{
    let k = key_of(raw);
    if chars_eq_str(&k, "context") {
        Ok(ContextTarget::Context)
    } else if chars_eq_str(&k, "toolcontext") || chars_eq_str(&k, "tool_context") || chars_eq_str(&k, "taskcontext")
        || chars_eq_str(&k, "task_context") || chars_eq_str(&k, "focuscontext") || chars_eq_str(&k, "focus_context") {
        Ok(ContextTarget::FocusContext)
    } else if chars_eq_str(&k, "fastmemory") || chars_eq_str(&k, "fast_memory") {
        Ok(ContextTarget::FastMemory)
    } else if chars_eq_str(&k, "fastcontext") || chars_eq_str(&k, "fast_context") {
        Ok(ContextTarget::FastContext)
    } else if chars_eq_str(&k, "adviceboard") || chars_eq_str(&k, "advice_board") {
        Ok(ContextTarget::AdviceBoard)
    } else {
        Err(TargetError::ContextTarget(chars_to_string(&k)))
    }
}

pub open spec fn fastmemory_section_spec(k: Seq<char>) -> Option<FastMemorySection> {
    if k == "environment"@ {
        Some(FastMemorySection::Environment)
    } else if k == "self"@ || k == "self_state"@ {
        Some(FastMemorySection::SelfState)
    } else if k == "user"@ {
        Some(FastMemorySection::User)
    } else if k == "event"@ {
        Some(FastMemorySection::Event)
    } else {
        None
    }
}

pub fn parse_fastmemory_section(raw: Option<&str>) -> (r: Result<FastMemorySection, TargetError>)
    ensures
        match fastmemory_section_spec(opt_key(raw)) {
            Some(t) => r == Ok::<FastMemorySection, TargetError>(t),
            None => r matches Err(TargetError::FastMemorySection(s)) && s@ == opt_key(raw),
        },
{
    let k = key_of(raw);
    if chars_eq_str(&k, "environment") {
        Ok(FastMemorySection::Environment)
    } else if chars_eq_str(&k, "self") || chars_eq_str(&k, "self_state") {
        Ok(FastMemorySection::SelfState)
    } else if chars_eq_str(&k, "user") {
        Ok(FastMemorySection::User)
    } else if chars_eq_str(&k, "event") {
        Ok(FastMemorySection::Event)
    } else {
        Err(TargetError::FastMemorySection(chars_to_string(&k)))
    }
}

pub open spec fn context_role_spec(k: Seq<char>) -> Option<ContextRole> {
    if k == "user"@ {
        Some(ContextRole::User)
    } else if k == "assistant"@ {
        Some(ContextRole::Assistant)
    } else if k == "system"@ {
        Some(ContextRole::System)
    } else {
        None
    }
}

pub fn parse_context_role(raw: Option<&str>) -> (r: Result<ContextRole, TargetError>)
    ensures
        match context_role_spec(opt_key(raw)) {
            Some(t) => r == Ok::<ContextRole, TargetError>(t),
            None => r matches Err(TargetError::ContextRole(s)) && s@ == opt_key(raw),
        },
{
    let k = key_of(raw);
    if chars_eq_str(&k, "user") {
        Ok(ContextRole::User)
    } else if chars_eq_str(&k, "assistant") {
        Ok(ContextRole::Assistant)
    } else if chars_eq_str(&k, "system") {
        Ok(ContextRole::System)
    } else {
        Err(TargetError::ContextRole(chars_to_string(&k)))
    }
}

pub open spec fn memory_target_spec(k: Seq<char>) -> Option<MemoryTarget> {
    if k == "datememory"@ {
        Some(MemoryTarget::DateMemory)
    } else if k == "metamemory"@ {
        Some(MemoryTarget::MetaMemory)
    } else if k == "contextmemory"@ {
        Some(MemoryTarget::ContextMemory)
    } else if k == "toolmemory"@ {
        Some(MemoryTarget::ToolMemory)
    } else {
        None
    }
}

pub fn parse_memory_target(raw: &str) -> (r: Result<MemoryTarget, TargetError>)
    ensures
        match memory_target_spec(key_spec(raw@)) {
            Some(t) => r == Ok::<MemoryTarget, TargetError>(t),
            None => r matches Err(TargetError::MemoryTarget(s)) && s@ == key_spec(raw@),
        },
{
    let k = key_of(Some(raw));
    if chars_eq_str(&k, "datememory") {
        Ok(MemoryTarget::DateMemory)
    } else if chars_eq_str(&k, "metamemory") {
        Ok(MemoryTarget::MetaMemory)
    } else if chars_eq_str(&k, "contextmemory") {
        Ok(MemoryTarget::ContextMemory)
    } else if chars_eq_str(&k, "toolmemory") {
        Ok(MemoryTarget::ToolMemory)
    } else {
        Err(TargetError::MemoryTarget(chars_to_string(&k)))
    }
}

/// The span of dates a check names: none when it names no scope; a custom
/// span keeps its two ends as given, and needs both.
pub open spec fn scope_outcome(
    scope: Option<Seq<char>>,
    start_date: Option<Seq<char>>,
    end_date: Option<Seq<char>>,
    r: Result<Option<DateMemoryScope>, TargetError>,
) -> bool {
    match scope {
        None => r == Ok::<Option<DateMemoryScope>, TargetError>(None),
        Some(s) => {
            let k = key_spec(s);
            if k == "recent"@ {
                r == Ok::<Option<DateMemoryScope>, TargetError>(Some(DateMemoryScope::Recent))
            } else if k == "past"@ {
                r == Ok::<Option<DateMemoryScope>, TargetError>(Some(DateMemoryScope::Past))
            } else if k == "old"@ {
                r == Ok::<Option<DateMemoryScope>, TargetError>(Some(DateMemoryScope::Old))
            } else if k == "custom"@ {
                match (start_date, end_date) {
                    (Some(a), Some(b)) => r matches Ok(Some(DateMemoryScope::Custom { start_date, end_date }))
                        && start_date@ == a && end_date@ == b,
                    (None, _) => r == Err::<Option<DateMemoryScope>, TargetError>(
                        TargetError::CustomScopeNeedsStartDate,
                    ),
                    (Some(_), None) => r == Err::<Option<DateMemoryScope>, TargetError>(
                        TargetError::CustomScopeNeedsEndDate,
                    ),
                }
            } else {
                r matches Err(TargetError::MemoryScope(e)) && e@ == k
            }
        },
    }
}

pub fn parse_memory_scope_fields(scope: Option<&str>, start_date: Option<&str>, end_date: Option<&str>) -> (r: Result<
    Option<DateMemoryScope>,
    TargetError,
>)
    ensures
        scope_outcome(opt_str_view(scope), opt_str_view(start_date), opt_str_view(end_date), r),
{
    let s = match scope {
        Some(s) => s,
        None => return Ok(None),
    };
    let k = key_of(Some(s));
    if chars_eq_str(&k, "recent") {
        Ok(Some(DateMemoryScope::Recent))
    } else if chars_eq_str(&k, "past") {
        Ok(Some(DateMemoryScope::Past))
    } else if chars_eq_str(&k, "old") {
        Ok(Some(DateMemoryScope::Old))
    } else if chars_eq_str(&k, "custom") {
        let a = match start_date {
            Some(a) => a,
            None => return Err(TargetError::CustomScopeNeedsStartDate),
        };
        let b = match end_date {
            Some(b) => b,
            None => return Err(TargetError::CustomScopeNeedsEndDate),
        };
        Ok(
            Some(
                DateMemoryScope::Custom {
                    start_date: chars_to_string(&str_chars(a)),
                    end_date: chars_to_string(&str_chars(b)),
                },
            ),
        )
    } else {
        Err(TargetError::MemoryScope(chars_to_string(&k)))
    }
}

/// The span of dates a memory check names.
pub fn parse_memory_scope(args: &MemoryCheckArgs) -> (r: Result<Option<DateMemoryScope>, TargetError>)
    ensures
        scope_outcome(opt_string_view(args.scope), opt_string_view(args.start_date), opt_string_view(args.end_date), r),
{
    let scope: Option<&str> = match &args.scope {
        Some(s) => Some(s.as_str()),
        None => None,
    };
    let start: Option<&str> = match &args.start_date {
        Some(s) => Some(s.as_str()),
        None => None,
    };
    let end: Option<&str> = match &args.end_date {
        Some(s) => Some(s.as_str()),
        None => None,
    };
    parse_memory_scope_fields(scope, start, end)
}

} // verus!
