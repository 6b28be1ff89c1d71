//! `multi_tool_use.parallel`: which calls a batch may make, how each is
//! announced, and how their results are gathered into one reply. Running
//! the calls side by side happens outside.
use vstd::prelude::*;

use crate::describe::{
    build_parallel_preview_item, describe_function_call, describes, preview_item_of, CallContext, FunctionCall,
    FunctionCallDisplay, ParallelToolPreviewItem, ToolCallArgs,
};
use crate::persona::PersonaKind;
use crate::text::{
    chars_eq_str, chars_to_string, contains_spec, contains_str, dec_spec, join_chars, join_spec, lower_chars,
    lower_spec, push_chars, push_dec, push_dec128, push_str, str_chars, trim_chars, trim_spec, views,
};
use crate::tools::{parallel_allowed_spec, parallel_tool_allowed_for_persona, recipient_spec, strip_parallel_recipient_name};

verus! {

/// The most calls one batch may hold.
pub const PARALLEL_TOOL_MAX_USES: usize = 6;

/// One call of a batch as the model sent it: the tool it names, its
/// arguments as text, and those arguments read for that tool.
pub struct ParallelToolUse {
    pub recipient_name: String,
    pub arguments: String,
    pub args: ToolCallArgs,
}

/// A call of a batch ready to run, with the item its preview shows.
pub struct PlannedParallelTool {
    pub call: FunctionCall,
    pub item: ParallelToolPreviewItem,
}

/// Why a batch is refused.
#[derive(Debug, Clone, PartialEq, Eq)]
pub enum ParallelToolError {
    Empty,
    TooMany,
    BlankRecipient { index: usize },
    Nested,
    NotAllowed { tool_name: String },
}

/// What is wrong with one call of a batch, if anything: no tool named, a
/// nested batch, or a tool this persona may not run in a batch.
pub open spec fn use_fault(persona: PersonaKind, recipient: Seq<char>) -> Option<u8> {
    let name = recipient_spec(recipient);
    if name.len() == 0 {
        Some(0)
    } else if name == "multi_tool_use.parallel"@ {
        Some(1)
    } else if !parallel_allowed_spec(persona, name) {
        Some(2)
    } else {
        None
    }
}

pub open spec fn uses_fine(persona: PersonaKind, uses: Seq<ParallelToolUse>, n: int) -> bool {
    forall|j: int| 0 <= j < n ==> use_fault(persona, (#[trigger] uses[j]).recipient_name@) is None
}

/// The error a refused call gives, at its place in the batch.
pub open spec fn fault_error(persona: PersonaKind, recipient: Seq<char>, index: int, e: ParallelToolError) -> bool {
    match use_fault(persona, recipient) {
        Some(0u8) => e == ParallelToolError::BlankRecipient { index: index as usize },
        Some(1u8) => e == ParallelToolError::Nested,
        Some(_) => e matches ParallelToolError::NotAllowed { tool_name } && tool_name@ == recipient_spec(recipient),
        None => false,
    }
}

/// The call id of the `i`-th call (from zero) of the batch `call_id`.
pub open spec fn child_call_id(call_id: Seq<char>, i: int) -> Seq<char> {
    call_id + "::"@ + dec_spec((i + 1) as nat)
}

/// A planned call: its id, the tool it names and its arguments, and the
/// preview item of its announcement.
pub open spec fn planned_as(p: PlannedParallelTool, call_id: Seq<char>, i: int, u: ParallelToolUse, ctx: CallContext) -> bool {
    let name = recipient_spec(u.recipient_name@);
    &&& p.call.call_id@ == child_call_id(call_id, i)
    &&& p.call.name@ == name
    &&& p.call.arguments@ == u.arguments@
    &&& exists|d: FunctionCallDisplay| #[trigger] describes(name, u.arguments@, u.args, ctx, d) && preview_item_of(p.item, name, d)
}

impl ParallelToolError {
    /// The message the tool answers with.
    pub fn message(&self) -> (r: String)
        ensures
            *self == ParallelToolError::Empty ==> r@ == "tool_uses 不能为空"@,
            *self == ParallelToolError::TooMany ==> r@ == "multi_tool_use.parallel 最多支持 "@ + dec_spec(
                PARALLEL_TOOL_MAX_USES as nat,
            ) + " 项"@,
            *self == ParallelToolError::Nested ==> r@ == "multi_tool_use.parallel 不支持嵌套调用"@,
            self matches ParallelToolError::BlankRecipient { index } ==> r@ == "tool_uses["@ + dec_spec(
                (index + 1) as nat,
            ) + "].recipient_name 不能为空"@,
            self matches ParallelToolError::NotAllowed { tool_name } ==> r@ == "当前 persona 不支持并行调用工具 `"@
                + tool_name@ + "`"@,
    {
        match self {
            ParallelToolError::Empty => chars_to_string(&str_chars("tool_uses 不能为空")),
            ParallelToolError::TooMany => {
                let mut out = str_chars("multi_tool_use.parallel 最多支持 ");
                push_dec(&mut out, PARALLEL_TOOL_MAX_USES as u64);
                push_str(&mut out, " 项");
                chars_to_string(&out)
            },
            ParallelToolError::BlankRecipient { index } => {
                let mut out = str_chars("tool_uses[");
                push_dec128(&mut out, *index as u128 + 1);
                push_str(&mut out, "].recipient_name 不能为空");
                chars_to_string(&out)
            },
            ParallelToolError::Nested => chars_to_string(&str_chars("multi_tool_use.parallel 不支持嵌套调用")),
            ParallelToolError::NotAllowed { tool_name } => {
                let mut out = str_chars("当前 persona 不支持并行调用工具 `");
                push_str(&mut out, tool_name.as_str());
                push_str(&mut out, "`");
                chars_to_string(&out)
            },
        }
    }
}

fn child_id(call_id: &str, i: usize) -> (r: String)
    requires
        i < usize::MAX,
    ensures
        r@ == child_call_id(call_id@, i as int),
{
    let mut out = str_chars(call_id);
    push_str(&mut out, "::");
    push_dec(&mut out, (i + 1) as u64);
    chars_to_string(&out)
}

/// Checks a batch and plans its calls: refused when empty or longer than
/// `PARALLEL_TOOL_MAX_USES`, else at the first call that names no tool,
/// nests a batch, or names a tool the persona may not run in a batch;
/// otherwise each call, in order, with its own id and announcement.
pub fn plan_parallel_tool(call_id: &str, persona: PersonaKind, uses: &Vec<ParallelToolUse>, ctx: &CallContext) -> (r:
    Result<Vec<PlannedParallelTool>, ParallelToolError>)
    ensures
        uses@.len() == 0 <==> r == Err::<Vec<PlannedParallelTool>, ParallelToolError>(ParallelToolError::Empty),
        uses@.len() > PARALLEL_TOOL_MAX_USES <==> r == Err::<Vec<PlannedParallelTool>, ParallelToolError>(
            ParallelToolError::TooMany,
        ),
        0 < uses@.len() <= PARALLEL_TOOL_MAX_USES ==> match r {
            Ok(plans) => {
                &&& uses_fine(persona, uses@, uses@.len() as int)
                &&& plans@.len() == uses@.len()
                &&& forall|i: int| 0 <= i < uses@.len() ==> planned_as(#[trigger] plans@[i], call_id@, i, uses@[i], *ctx)
            },
            Err(e) => exists|k: int|
                0 <= k < uses@.len() && uses_fine(persona, uses@, k) && #[trigger] fault_error(
                    persona,
                    uses@[k].recipient_name@,
                    k,
                    e,
                ),
        },
{
    if uses.len() == 0 {
        return Err(ParallelToolError::Empty);
    }
    if uses.len() > PARALLEL_TOOL_MAX_USES {
        return Err(ParallelToolError::TooMany);
    }
    let mut plans: Vec<PlannedParallelTool> = Vec::new();
    let mut i: usize = 0;
    while i < uses.len()
        invariant
            0 < uses@.len() <= PARALLEL_TOOL_MAX_USES,
            i <= uses@.len(),
            plans@.len() == i,
            uses_fine(persona, uses@, i as int),
            forall|j: int| 0 <= j < i ==> planned_as(#[trigger] plans@[j], call_id@, j, uses@[j], *ctx),
        decreases uses@.len() - i,
    {
        let u = &uses[i];
        let tool_name = strip_parallel_recipient_name(u.recipient_name.as_str());
        if str_chars(tool_name.as_str()).len() == 0 {
            assert(use_fault(persona, u.recipient_name@) == Some(0u8));
            let e = ParallelToolError::BlankRecipient { index: i };
            assert(fault_error(persona, uses@[i as int].recipient_name@, i as int, e));
            return Err(e);
        }
        if chars_eq_str(&str_chars(tool_name.as_str()), "multi_tool_use.parallel") {
            let e = ParallelToolError::Nested;
            assert(fault_error(persona, uses@[i as int].recipient_name@, i as int, e));
            return Err(e);
        }
        if !parallel_tool_allowed_for_persona(persona, tool_name.as_str()) {
            let e = ParallelToolError::NotAllowed { tool_name };
            assert(fault_error(persona, uses@[i as int].recipient_name@, i as int, e));
            return Err(e);
        }
        let display = describe_function_call(tool_name.as_str(), u.arguments.as_str(), &u.args, ctx);
        let ghost d = display;
        let call = FunctionCall {
            call_id: child_id(call_id, i),
            name: chars_to_string(&str_chars(tool_name.as_str())),
            arguments: chars_to_string(&str_chars(u.arguments.as_str())),
        };
        let item = build_parallel_preview_item(tool_name.as_str(), display);
        let p = PlannedParallelTool { call, item };
        assert(planned_as(p, call_id@, i as int, uses@[i as int], *ctx));
        plans.push(p);
        i += 1;
    }
    Ok(plans)
}

/// How one call of a batch ended: its action label and preview, and the
/// text of its first output item when it had one.
pub struct ChildOutcome {
    pub action_label: String,
    pub output_preview: String,
    pub primary_text: Option<String>,
}

/// The batch's reply: the preview items with their outputs, the text for
/// the model, and whether any call failed.
pub struct ParallelMerged {
    pub items: Vec<ParallelToolPreviewItem>,
    pub model_output: String,
    pub had_failure: bool,
    pub action_label: String,
    pub exit_code: Option<i32>,
}

/// What the model reads of one call.
pub open spec fn child_text(o: ChildOutcome) -> Seq<char> {
    match o.primary_text {
        Some(t) => t@,
        None => o.output_preview@,
    }
}

/// A call failed: it says so, or its text reports a failure.
pub open spec fn child_failed(o: ChildOutcome) -> bool {
    lower_spec(trim_spec(o.action_label@)) == "failed"@ || contains_spec(child_text(o), " failed:"@)
}

pub open spec fn section_spec(i: int, it: ParallelToolPreviewItem, o: ChildOutcome) -> Seq<char> {
    "["@ + dec_spec((i + 1) as nat) + "] "@ + it.action@ + " · "@ + it.brief@ + "\nTool: "@ + it.tool_name@
        + "\nInput:\n"@ + it.input@ + "\nOutput:\n"@ + child_text(o)
}

pub open spec fn sections_spec(plans: Seq<PlannedParallelTool>, results: Seq<ChildOutcome>) -> Seq<Seq<char>> {
    Seq::new(plans.len(), |i: int| section_spec(i, plans[i].item, results[i]))
}

pub open spec fn merged_model_spec(brief: Seq<char>, plans: Seq<PlannedParallelTool>, results: Seq<ChildOutcome>) -> Seq<
    char,
> {
    "Parallel explore\nBrief: "@ + brief + "\nItems: "@ + dec_spec(plans.len()) + "\n\n"@ + join_spec(
        sections_spec(plans, results),
        "\n\n"@,
    )
}

fn child_text_of(o: &ChildOutcome) -> (r: Vec<char>)
    ensures
        r@ == child_text(*o),
{
    match &o.primary_text {
        Some(t) => str_chars(t.as_str()),
        None => str_chars(o.output_preview.as_str()),
    }
}

/// Gathers the outcomes of a batch's calls, in the batch's order: each
/// item takes its call's preview as output and is marked failed when the
/// call failed; the model reads one section per call; the batch is
/// "Completed" with exit code 1 when any call failed, else "Done" with 0.
pub fn merge_parallel_results(brief: &str, plans: &Vec<PlannedParallelTool>, results: &Vec<ChildOutcome>) -> (r:
    ParallelMerged)
    requires
        results@.len() == plans@.len(),
    ensures
        r.items@.len() == plans@.len(),
        forall|i: int|
            0 <= i < plans@.len() ==> {
                let it = #[trigger] r.items@[i];
                let p = plans@[i].item;
                &&& it.tool_name@ == p.tool_name@ && it.action@ == p.action@ && it.brief@ == p.brief@
                &&& it.input@ == p.input@
                &&& it.output matches Some(o) && o@ == results@[i].output_preview@
                &&& child_failed(results@[i]) ==> (it.status matches Some(s) && s@ == "failed"@)
                &&& !child_failed(results@[i]) ==> it.status is None
            },
        r.had_failure == exists|i: int| 0 <= i < plans@.len() && #[trigger] child_failed(results@[i]),
        r.model_output@ == merged_model_spec(brief@, plans@, results@),
        r.had_failure ==> r.action_label@ == "Completed"@ && r.exit_code == Some(1i32),
        !r.had_failure ==> r.action_label@ == "Done"@ && r.exit_code == Some(0i32),
{
    let mut items: Vec<ParallelToolPreviewItem> = Vec::new();
    let mut sections: Vec<Vec<char>> = Vec::new();
    let mut had_failure = false;
    let mut i: usize = 0;
    while i < plans.len()
        invariant
            results@.len() == plans@.len(),
            i <= plans@.len(),
            items@.len() == i,
            sections@.len() == i,
            forall|j: int| 0 <= j < i ==> (#[trigger] sections@[j])@ == section_spec(j, plans@[j].item, results@[j]),
            forall|j: int|
                0 <= j < i ==> {
                    let it = #[trigger] items@[j];
                    let p = plans@[j].item;
                    &&& it.tool_name@ == p.tool_name@ && it.action@ == p.action@ && it.brief@ == p.brief@
                    &&& it.input@ == p.input@
                    &&& it.output matches Some(o) && o@ == results@[j].output_preview@
                    &&& child_failed(results@[j]) ==> (it.status matches Some(s) && s@ == "failed"@)
                    &&& !child_failed(results@[j]) ==> it.status is None
                },
            had_failure == exists|j: int| 0 <= j < i && #[trigger] child_failed(results@[j]),
        decreases plans@.len() - i,
    {
        let p = &plans[i].item;
        let o = &results[i];
        let text = child_text_of(o);
        let label = lower_chars(&trim_chars(&str_chars(o.action_label.as_str())));
        let failed = chars_eq_str(&label, "failed") || contains_str(&text, " failed:");
        assert(failed == child_failed(results@[i as int]));
        if failed {
            had_failure = true;
        }
        let status = if failed {
            Some(chars_to_string(&str_chars("failed")))
        } else {
            None
        };
        items.push(
            ParallelToolPreviewItem {
                tool_name: chars_to_string(&str_chars(p.tool_name.as_str())),
                action: chars_to_string(&str_chars(p.action.as_str())),
                brief: chars_to_string(&str_chars(p.brief.as_str())),
                input: chars_to_string(&str_chars(p.input.as_str())),
                output: Some(chars_to_string(&str_chars(o.output_preview.as_str()))),
                status,
            },
        );
        let ghost before = sections@;
        let mut s = str_chars("[");
        push_dec(&mut s, (i + 1) as u64);
        push_str(&mut s, "] ");
        push_str(&mut s, p.action.as_str());
        push_str(&mut s, " · ");
        push_str(&mut s, p.brief.as_str());
        push_str(&mut s, "\nTool: ");
        push_str(&mut s, p.tool_name.as_str());
        push_str(&mut s, "\nInput:\n");
        push_str(&mut s, p.input.as_str());
        push_str(&mut s, "\nOutput:\n");
        push_chars(&mut s, &text);
        assert(s@ == section_spec(i as int, plans@[i as int].item, results@[i as int]));
        sections.push(s);
        proof {
            if !had_failure {
                assert forall|j: int| 0 <= j < i + 1 implies !#[trigger] child_failed(results@[j]) by {}
            }
        }
        i += 1;
    }
    let sep = str_chars("\n\n");
    assert(views(sections@) =~= sections_spec(plans@, results@));
    let joined = join_chars(&sections, &sep);
    let mut out = str_chars("Parallel explore\nBrief: ");
    push_str(&mut out, brief);
    push_str(&mut out, "\nItems: ");
    push_dec(&mut out, plans.len() as u64);
    push_str(&mut out, "\n\n");
    push_chars(&mut out, &joined);
    let action_label = if had_failure {
        chars_to_string(&str_chars("Completed"))
    } else {
        chars_to_string(&str_chars("Done"))
    };
    let exit_code: Option<i32> = if had_failure {
        Some(1)
    } else {
        Some(0)
    };
    ParallelMerged { items, model_output: chars_to_string(&out), had_failure, action_label, exit_code }
}

} // verus!
