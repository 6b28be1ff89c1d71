//! Task plans: the steps of an `update_plan` call checked and normalized,
//! and the brief and previews shown for a plan.
use vstd::prelude::*;

use crate::command::{normalize_plan_line, opt_string_view, plan_line_spec, truncate_chars};
use crate::terminal::{literal_line, push_line};
use crate::text::{
    chars_eq_str, chars_to_string, dec_spec, ellipsis_spec, join_lines, join_lines_exec, push_dec,
    push_str, str_chars, trim_chars, trim_spec, views,
};

verus! {

#[derive(Debug, Clone, Copy, PartialEq, Eq, Structural)]
pub enum UpdatePlanStatus {
    Pending,
    InProgress,
    Completed,
}

/// One step as the model wrote it.
#[derive(Debug, Clone, PartialEq, Eq)]
pub struct UpdatePlanStepArgs {
    pub step: String,
    pub status: String,
}

/// The arguments of an `update_plan` call.
#[derive(Debug, Clone, PartialEq, Eq)]
pub struct UpdatePlanArgs {
    pub explanation: Option<String>,
    pub plan: Vec<UpdatePlanStepArgs>,
}

#[derive(Debug, Clone, PartialEq, Eq)]
pub struct UpdatePlanStep {
    pub step: String,
    pub status: UpdatePlanStatus,
}

/// A plan with its lines normalized and its statuses read.
#[derive(Debug, Clone, PartialEq, Eq)]
pub struct NormalizedUpdatePlan {
    pub explanation: Option<String>,
    pub steps: Vec<UpdatePlanStep>,
}

/// Why a plan was refused.
#[derive(Debug, Clone, PartialEq, Eq)]
pub enum UpdatePlanError {
    /// A step with no text.
    EmptyStep,
    /// A status that is none of the three, trimmed.
    UnsupportedStatus(String),
    /// More than one step in progress.
    MultipleInProgress,
}

impl UpdatePlanError {
    pub fn message(&self) -> (r: String)
        ensures
            r@ == (match *self {
                UpdatePlanError::EmptyStep => "update_plan.step 不能为空"@,
                UpdatePlanError::UnsupportedStatus(s) => "update_plan.status 不支持："@ + s@,
                UpdatePlanError::MultipleInProgress => "update_plan 同时只能有一个 in_progress 步骤"@,
            }),
    {
        match self {
            UpdatePlanError::EmptyStep => chars_to_string(&str_chars("update_plan.step 不能为空")),
            UpdatePlanError::UnsupportedStatus(s) => {
                let mut out = str_chars("update_plan.status 不支持：");
                push_str(&mut out, s.as_str());
                chars_to_string(&out)
            },
            UpdatePlanError::MultipleInProgress => chars_to_string(
                &str_chars("update_plan 同时只能有一个 in_progress 步骤"),
            ),
        }
    }
}

pub open spec fn status_spec(raw: Seq<char>) -> Option<UpdatePlanStatus> {
    let t = trim_spec(raw);
    if t == "pending"@ {
        Some(UpdatePlanStatus::Pending)
    } else if t == "in_progress"@ {
        Some(UpdatePlanStatus::InProgress)
    } else if t == "completed"@ {
        Some(UpdatePlanStatus::Completed)
    } else {
        None
    }
}

/// The status a step names; the error holds the trimmed text otherwise.
pub fn parse_update_plan_status(raw: &str) -> (r: Result<UpdatePlanStatus, UpdatePlanError>)
    ensures
        match status_spec(raw@) {
            Some(s) => r == Ok::<UpdatePlanStatus, UpdatePlanError>(s),
            None => r matches Err(UpdatePlanError::UnsupportedStatus(t)) && t@ == trim_spec(raw@),
        },
{
    let t = trim_chars(&str_chars(raw));
    if chars_eq_str(&t, "pending") {
        Ok(UpdatePlanStatus::Pending)
    } else if chars_eq_str(&t, "in_progress") {
        Ok(UpdatePlanStatus::InProgress)
    } else if chars_eq_str(&t, "completed") {
        Ok(UpdatePlanStatus::Completed)
    } else {
        Err(UpdatePlanError::UnsupportedStatus(chars_to_string(&t)))
    }
}

/// The first problem among the steps, in order: an empty step before its
/// status is read.
pub enum StepProblem {
    Empty,
    Status(Seq<char>),
}

pub open spec fn step_problem(s: UpdatePlanStepArgs) -> Option<StepProblem> {
    if plan_line_spec(Some(s.step@)) is None {
        Some(StepProblem::Empty)
    } else if status_spec(s.status@) is None {
        Some(StepProblem::Status(trim_spec(s.status@)))
    } else {
        None
    }
}

pub open spec fn first_problem(steps: Seq<UpdatePlanStepArgs>) -> Option<StepProblem>
    decreases steps.len(),
{
    if steps.len() == 0 {
        None
    } else {
        match step_problem(steps[0]) {
            Some(p) => Some(p),
            None => first_problem(steps.drop_first()),
        }
    }
}

pub open spec fn in_progress_count(steps: Seq<UpdatePlanStepArgs>) -> nat
    decreases steps.len(),
{
    if steps.len() == 0 {
        0
    } else {
        in_progress_count(steps.drop_last()) + if status_spec(steps.last().status@) == Some(
            UpdatePlanStatus::InProgress,
        ) {
            1nat
        } else {
            0nat
        }
    }
}

/// A normalized step is the plan line of its text and the status it names.
pub open spec fn normalized_step(out: UpdatePlanStep, raw: UpdatePlanStepArgs) -> bool {
    &&& plan_line_spec(Some(raw.step@)) == Some(out.step@)
    &&& status_spec(raw.status@) == Some(out.status)
}

/// When a plan is accepted and what each error answers.
pub open spec fn plan_outcome(args: UpdatePlanArgs, r: Result<NormalizedUpdatePlan, UpdatePlanError>) -> bool {
    match first_problem(args.plan@) {
        Some(StepProblem::Empty) => r == Err::<NormalizedUpdatePlan, UpdatePlanError>(UpdatePlanError::EmptyStep),
        Some(StepProblem::Status(t)) => r matches Err(UpdatePlanError::UnsupportedStatus(s)) && s@ == t,
        None => if in_progress_count(args.plan@) > 1 {
            r == Err::<NormalizedUpdatePlan, UpdatePlanError>(UpdatePlanError::MultipleInProgress)
        } else {
            r matches Ok(p) && opt_string_view(p.explanation) == plan_line_spec(opt_string_view(args.explanation))
                && p.steps@.len() == args.plan@.len() && forall|i: int|
                0 <= i < p.steps@.len() ==> normalized_step(#[trigger] p.steps@[i], args.plan@[i])
        },
    }
}

proof fn lemma_first_problem_prefix(steps: Seq<UpdatePlanStepArgs>, i: int)
    requires
        0 <= i < steps.len(),
        forall|j: int| 0 <= j < i ==> step_problem(#[trigger] steps[j]) is None,
    ensures
        first_problem(steps) == first_problem(steps.skip(i)),
    decreases i,
{
    if i > 0 {
        assert(step_problem(steps[0]) is None);
        assert forall|j: int| 0 <= j < i - 1 implies step_problem(#[trigger] steps.drop_first()[j]) is None by {
            assert(steps.drop_first()[j] == steps[j + 1]);
        }
        lemma_first_problem_prefix(steps.drop_first(), i - 1);
        assert(steps.drop_first().skip(i - 1) =~= steps.skip(i));
    } else {
        assert(steps.skip(0) =~= steps);
    }
}

proof fn lemma_no_problem(steps: Seq<UpdatePlanStepArgs>)
    requires
        forall|j: int| 0 <= j < steps.len() ==> step_problem(#[trigger] steps[j]) is None,
    ensures
        first_problem(steps) is None,
    decreases steps.len(),
{
    if steps.len() > 0 {
        assert(step_problem(steps[0]) is None);
        assert forall|j: int| 0 <= j < steps.len() - 1 implies step_problem(#[trigger] steps.drop_first()[j]) is None by {
            assert(steps.drop_first()[j] == steps[j + 1]);
        }
        lemma_no_problem(steps.drop_first());
    }
}

proof fn lemma_count_bound(steps: Seq<UpdatePlanStepArgs>)
    ensures
        in_progress_count(steps) <= steps.len(),
    decreases steps.len(),
{
    if steps.len() > 0 {
        lemma_count_bound(steps.drop_last());
    }
}

/// Checks and normalizes the steps of a plan: each step a non-empty plan
/// line with a known status, at most one step in progress.
pub fn normalize_update_plan(args: &UpdatePlanArgs) -> (r: Result<NormalizedUpdatePlan, UpdatePlanError>)
    ensures
        plan_outcome(*args, r),
{
    let explanation = match &args.explanation {
        Some(e) => normalize_plan_line(Some(e.as_str())),
        None => None,
    };
    let mut steps: Vec<UpdatePlanStep> = Vec::new();
    let mut count: usize = 0;
    let mut i: usize = 0;
    while i < args.plan.len()
        invariant
            i <= args.plan@.len(),
            steps@.len() == i,
            forall|j: int| 0 <= j < i ==> step_problem(#[trigger] args.plan@[j]) is None,
            forall|j: int| 0 <= j < i ==> normalized_step(#[trigger] steps@[j], args.plan@[j]),
            count == in_progress_count(args.plan@.take(i as int)),
        decreases args.plan@.len() - i,
    {
        let raw = &args.plan[i];
        proof {
            lemma_count_bound(args.plan@.take(i + 1));
            assert(args.plan@.take(i + 1).drop_last() =~= args.plan@.take(i as int));
        }
        let step = match normalize_plan_line(Some(raw.step.as_str())) {
            Some(s) => s,
            None => {
                proof {
                    lemma_first_problem_prefix(args.plan@, i as int);
                }
                return Err(UpdatePlanError::EmptyStep);
            },
        };
        let status = match parse_update_plan_status(raw.status.as_str()) {
            Ok(s) => s,
            Err(e) => {
                proof {
                    lemma_first_problem_prefix(args.plan@, i as int);
                }
                return Err(e);
            },
        };
        if status == UpdatePlanStatus::InProgress {
            count = count + 1;
        }
        steps.push(UpdatePlanStep { step, status });
        i += 1;
    }
    proof {
        lemma_no_problem(args.plan@);
        assert(args.plan@.take(args.plan@.len() as int) =~= args.plan@);
    }
    if count > 1 {
        return Err(UpdatePlanError::MultipleInProgress);
    }
    Ok(NormalizedUpdatePlan { explanation, steps })
}

// ---------------------------------------------------------------------------
// Briefs and previews
// ---------------------------------------------------------------------------

/// The first step in progress.
pub open spec fn active_step(steps: Seq<UpdatePlanStep>) -> Option<Seq<char>>
    decreases steps.len(),
{
    if steps.len() == 0 {
        None
    } else if steps[0].status == UpdatePlanStatus::InProgress {
        Some(steps[0].step@)
    } else {
        active_step(steps.drop_first())
    }
}

fn active_step_exec(steps: &Vec<UpdatePlanStep>) -> (r: Option<String>)
    ensures
        opt_string_view(r) == active_step(steps@),
{
    let mut i: usize = 0;
    assert(steps@.skip(0) =~= steps@);
    while i < steps.len()
        invariant
            i <= steps@.len(),
            active_step(steps@) == active_step(steps@.skip(i as int)),
        decreases steps@.len() - i,
    {
        assert(steps@.skip(i as int)[0] == steps@[i as int]);
        assert(steps@.skip(i as int).drop_first() =~= steps@.skip(i + 1));
        if steps[i].status == UpdatePlanStatus::InProgress {
            return Some(chars_to_string(&str_chars(steps[i].step.as_str())));
        }
        i += 1;
    }
    None
}

/// The step in progress, else the explanation, cut to 24 characters.
pub open spec fn plan_brief_spec(p: NormalizedUpdatePlan) -> Seq<char> {
    match active_step(p.steps@) {
        Some(s) => ellipsis_spec("推进 "@ + s, 24),
        None => match opt_string_view(p.explanation) {
            Some(e) => ellipsis_spec(e, 24),
            None => "更新任务计划"@,
        },
    }
}

pub fn derive_update_plan_brief(args: &NormalizedUpdatePlan) -> (r: String)
    ensures
        r@ == plan_brief_spec(*args),
{
    match active_step_exec(&args.steps) {
        Some(s) => {
            let mut t = str_chars("推进 ");
            push_str(&mut t, s.as_str());
            truncate_chars(chars_to_string(&t).as_str(), 24)
        },
        None => match &args.explanation {
            Some(e) => truncate_chars(e.as_str(), 24),
            None => chars_to_string(&str_chars("更新任务计划")),
        },
    }
}

/// How many steps are pending, in progress and completed.
pub open spec fn status_counts(steps: Seq<UpdatePlanStep>) -> (nat, nat, nat)
    decreases steps.len(),
{
    if steps.len() == 0 {
        (0, 0, 0)
    } else {
        let (p, i, c) = status_counts(steps.drop_last());
        match steps.last().status {
            UpdatePlanStatus::Pending => (p + 1, i, c),
            UpdatePlanStatus::InProgress => (p, i + 1, c),
            UpdatePlanStatus::Completed => (p, i, c + 1),
        }
    }
}

proof fn lemma_counts_bound(steps: Seq<UpdatePlanStep>)
    ensures
        status_counts(steps).0 + status_counts(steps).1 + status_counts(steps).2 == steps.len(),
    decreases steps.len(),
{
    if steps.len() > 0 {
        lemma_counts_bound(steps.drop_last());
    }
}

pub fn update_plan_counts(args: &NormalizedUpdatePlan) -> (r: (usize, usize, usize))
    ensures
        (r.0 as nat, r.1 as nat, r.2 as nat) == status_counts(args.steps@),
{
    let mut pending: usize = 0;
    let mut in_progress: usize = 0;
    let mut completed: usize = 0;
    let mut i: usize = 0;
    while i < args.steps.len()
        invariant
            i <= args.steps@.len(),
            (pending as nat, in_progress as nat, completed as nat) == status_counts(args.steps@.take(i as int)),
        decreases args.steps@.len() - i,
    {
        proof {
            assert(args.steps@.take(i + 1).drop_last() =~= args.steps@.take(i as int));
            lemma_counts_bound(args.steps@.take(i + 1));
        }
        match args.steps[i].status {
            UpdatePlanStatus::Pending => pending = pending + 1,
            UpdatePlanStatus::InProgress => in_progress = in_progress + 1,
            UpdatePlanStatus::Completed => completed = completed + 1,
        }
        i += 1;
    }
    assert(args.steps@.take(args.steps@.len() as int) =~= args.steps@);
    (pending, in_progress, completed)
}

pub open spec fn status_name(s: UpdatePlanStatus) -> Seq<char> {
    match s {
        UpdatePlanStatus::Pending => "pending"@,
        UpdatePlanStatus::InProgress => "in_progress"@,
        UpdatePlanStatus::Completed => "completed"@,
    }
}

pub open spec fn step_lines(steps: Seq<UpdatePlanStep>) -> Seq<Seq<char>>
    decreases steps.len(),
{
    if steps.len() == 0 {
        Seq::empty()
    } else {
        step_lines(steps.drop_last()).push("["@ + status_name(steps.last().status) + "] "@ + steps.last().step@)
    }
}

/// `"{n} steps · {p} pending · {i} in_progress · {c} completed"` after a
/// prefix.
pub open spec fn counts_text(p: NormalizedUpdatePlan) -> Seq<char> {
    let (a, b, c) = status_counts(p.steps@);
    dec_spec(p.steps@.len()) + " steps · "@ + dec_spec(a) + " pending · "@ + dec_spec(b) + " in_progress · "@
        + dec_spec(c) + " completed"@
}

/// The input preview of a plan: the counts, the explanation, every step.
pub open spec fn plan_input_preview_spec(p: NormalizedUpdatePlan) -> Seq<char> {
    join_lines(
        seq!["Plan · "@ + counts_text(p)] + (match opt_string_view(p.explanation) {
            Some(e) => seq!["说明："@ + e],
            None => Seq::empty(),
        }) + step_lines(p.steps@),
    )
}

fn status_name_str(s: UpdatePlanStatus) -> (r: &'static str)
    ensures
        r@ == status_name(s),
{
    match s {
        UpdatePlanStatus::Pending => "pending",
        UpdatePlanStatus::InProgress => "in_progress",
        UpdatePlanStatus::Completed => "completed",
    }
}

fn counts_text_exec(p: &NormalizedUpdatePlan, prefix: &str) -> (r: Vec<char>)
    ensures
        r@ == prefix@ + counts_text(*p),
{
    let (a, b, c) = update_plan_counts(p);
    let mut out = str_chars(prefix);
    push_dec(&mut out, p.steps.len() as u64);
    push_str(&mut out, " steps · ");
    push_dec(&mut out, a as u64);
    push_str(&mut out, " pending · ");
    push_dec(&mut out, b as u64);
    push_str(&mut out, " in_progress · ");
    push_dec(&mut out, c as u64);
    push_str(&mut out, " completed");
    out
}

pub fn build_update_plan_input_preview(args: &NormalizedUpdatePlan) -> (r: String)
    ensures
        r@ == plan_input_preview_spec(*args),
{
    let mut lines: Vec<Vec<char>> = Vec::new();
    push_line(&mut lines, counts_text_exec(args, "Plan · "));
    match &args.explanation {
        Some(e) => {
            let mut l = str_chars("说明：");
            push_str(&mut l, e.as_str());
            push_line(&mut lines, l);
        },
        None => {},
    }
    let ghost head = views(lines@);
    let mut i: usize = 0;
    while i < args.steps.len()
        invariant
            i <= args.steps@.len(),
            views(lines@) == head + step_lines(args.steps@.take(i as int)),
        decreases args.steps@.len() - i,
    {
        proof {
            assert(args.steps@.take(i + 1).drop_last() =~= args.steps@.take(i as int));
        }
        let mut l = str_chars("[");
        push_str(&mut l, status_name_str(args.steps[i].status));
        push_str(&mut l, "] ");
        push_str(&mut l, args.steps[i].step.as_str());
        push_line(&mut lines, l);
        i += 1;
    }
    proof {
        assert(args.steps@.take(args.steps@.len() as int) =~= args.steps@);
        assert(views(lines@) =~= seq!["Plan · "@ + counts_text(*args)] + (match opt_string_view(args.explanation) {
            Some(e) => seq!["说明："@ + e],
            None => Seq::<Seq<char>>::empty(),
        }) + step_lines(args.steps@));
    }
    chars_to_string(&join_lines_exec(&lines))
}

/// The output preview of a plan: the step count, the active step, the
/// counts.
pub open spec fn plan_output_preview_spec(p: NormalizedUpdatePlan) -> Seq<char> {
    let (a, b, c) = status_counts(p.steps@);
    join_lines(
        seq![
            "Plan updated · "@ + dec_spec(p.steps@.len()) + " steps"@,
            "当前："@ + (match active_step(p.steps@) {
                Some(s) => s,
                None => "无"@,
            }),
            "统计："@ + dec_spec(a) + " pending · "@ + dec_spec(b) + " in_progress · "@ + dec_spec(c) + " completed"@,
        ],
    )
}

pub fn build_update_plan_output_preview(args: &NormalizedUpdatePlan) -> (r: String)
    ensures
        r@ == plan_output_preview_spec(*args),
{
    let (a, b, c) = update_plan_counts(args);
    let mut lines: Vec<Vec<char>> = Vec::new();
    let mut l1 = str_chars("Plan updated · ");
    push_dec(&mut l1, args.steps.len() as u64);
    push_str(&mut l1, " steps");
    push_line(&mut lines, l1);
    let mut l2 = str_chars("当前：");
    match active_step_exec(&args.steps) {
        Some(s) => push_str(&mut l2, s.as_str()),
        None => push_str(&mut l2, "无"),
    }
    push_line(&mut lines, l2);
    let mut l3 = str_chars("统计：");
    push_dec(&mut l3, a as u64);
    push_str(&mut l3, " pending · ");
    push_dec(&mut l3, b as u64);
    push_str(&mut l3, " in_progress · ");
    push_dec(&mut l3, c as u64);
    push_str(&mut l3, " completed");
    push_line(&mut lines, l3);
    proof {
        let (sa, sb, sc) = status_counts(args.steps@);
        assert(views(lines@) =~= seq![
            "Plan updated · "@ + dec_spec(args.steps@.len()) + " steps"@,
            "当前："@ + (match active_step(args.steps@) {
                Some(s) => s,
                None => "无"@,
            }),
            "统计："@ + dec_spec(sa) + " pending · "@ + dec_spec(sb) + " in_progress · "@ + dec_spec(sc)
                + " completed"@,
        ]);
    }
    chars_to_string(&join_lines_exec(&lines))
}

/// An accepted plan has at most one step in progress.
pub proof fn lemma_accepted_plan_has_one_active_step(args: UpdatePlanArgs, p: NormalizedUpdatePlan)
    requires
        plan_outcome(args, Ok(p)),
    ensures
        status_counts(p.steps@).1 <= 1,
{
    lemma_counts_match(args.plan@, p.steps@);
}

proof fn lemma_counts_match(raw: Seq<UpdatePlanStepArgs>, steps: Seq<UpdatePlanStep>)
    requires
        raw.len() == steps.len(),
        forall|i: int| 0 <= i < steps.len() ==> normalized_step(#[trigger] steps[i], raw[i]),
    ensures
        status_counts(steps).1 == in_progress_count(raw),
    decreases steps.len(),
{
    if steps.len() > 0 {
        assert forall|i: int| 0 <= i < steps.drop_last().len() implies normalized_step(
            #[trigger] steps.drop_last()[i],
            raw.drop_last()[i],
        ) by {
            assert(steps.drop_last()[i] == steps[i]);
            assert(raw.drop_last()[i] == raw[i]);
        }
        lemma_counts_match(raw.drop_last(), steps.drop_last());
        assert(normalized_step(steps[steps.len() - 1], raw[raw.len() - 1]));
    }
}

} // verus!
