//! Asking the user: which question sets are accepted, and how the questions
//! and the answers are shown.
use vstd::prelude::*;

use crate::terminal::push_line;
use crate::text::{
    chars_eq, chars_to_string, dec_spec, join_lines, join_lines_exec, join_spec, push_chars, push_dec, push_str,
    starts_with_spec, starts_with_str, str_chars, trim_chars, trim_spec, views,
};
use crate::tool_args::{truncate_preview, truncate_preview_spec};

verus! {

/// What a note typed in place of an option starts with.
pub const REQUEST_USER_INPUT_OTHER_NOTE_PREFIX: &'static str = "user_note: ";

#[derive(Debug, Clone, PartialEq, Eq)]
pub struct RequestUserInputOptionArgs {
    pub label: String,
    pub description: String,
}

#[derive(Debug, Clone, PartialEq, Eq)]
pub struct RequestUserInputQuestionArgs {
    pub id: String,
    pub header: String,
    pub question: String,
    pub options: Vec<RequestUserInputOptionArgs>,
}

#[derive(Debug, Clone, PartialEq, Eq)]
pub struct RequestUserInputArgs {
    pub questions: Vec<RequestUserInputQuestionArgs>,
}

/// Why a question set was refused; indices count from zero.
#[derive(Debug, Clone, PartialEq, Eq)]
pub enum UserInputError {
    NoQuestions,
    TooManyQuestions,
    EmptyId(usize),
    DuplicateId(usize, String),
    EmptyHeader(usize),
    HeaderTooLong(usize),
    EmptyQuestion(usize),
    NoOptions(usize),
    TooManyOptions(usize),
    EmptyOptionLabel(usize, usize),
    EmptyOptionDescription(usize, usize),
}

/// A refusal as plain values.
pub enum UserInputErr {
    NoQuestions,
    TooManyQuestions,
    EmptyId(nat),
    DuplicateId(nat, Seq<char>),
    EmptyHeader(nat),
    HeaderTooLong(nat),
    EmptyQuestion(nat),
    NoOptions(nat),
    TooManyOptions(nat),
    EmptyOptionLabel(nat, nat),
    EmptyOptionDescription(nat, nat),
}

impl View for UserInputError {
    type V = UserInputErr;

    open spec fn view(&self) -> UserInputErr {
        match self {
            UserInputError::NoQuestions => UserInputErr::NoQuestions,
            UserInputError::TooManyQuestions => UserInputErr::TooManyQuestions,
            UserInputError::EmptyId(i) => UserInputErr::EmptyId(*i as nat),
            UserInputError::DuplicateId(i, s) => UserInputErr::DuplicateId(*i as nat, s@),
            UserInputError::EmptyHeader(i) => UserInputErr::EmptyHeader(*i as nat),
            UserInputError::HeaderTooLong(i) => UserInputErr::HeaderTooLong(*i as nat),
            UserInputError::EmptyQuestion(i) => UserInputErr::EmptyQuestion(*i as nat),
            UserInputError::NoOptions(i) => UserInputErr::NoOptions(*i as nat),
            UserInputError::TooManyOptions(i) => UserInputErr::TooManyOptions(*i as nat),
            UserInputError::EmptyOptionLabel(i, k) => UserInputErr::EmptyOptionLabel(*i as nat, *k as nat),
            UserInputError::EmptyOptionDescription(i, k) => UserInputErr::EmptyOptionDescription(
                *i as nat,
                *k as nat,
            ),
        }
    }
}

impl UserInputError {
    pub open spec fn message_spec(e: UserInputErr) -> Seq<char> {
        match e {
            UserInputErr::NoQuestions => "request_user_input 需要至少 1 个 question"@,
            UserInputErr::TooManyQuestions => "request_user_input 最多只支持 10 个 question"@,
            UserInputErr::EmptyId(i) => "question["@ + dec_spec(i) + "].id 不能为空"@,
            UserInputErr::DuplicateId(i, s) => "question["@ + dec_spec(i) + "].id 重复："@ + s,
            UserInputErr::EmptyHeader(i) => "question["@ + dec_spec(i) + "].header 不能为空"@,
            UserInputErr::HeaderTooLong(i) => "question["@ + dec_spec(i) + "].header 不能超过 12 个字符"@,
            UserInputErr::EmptyQuestion(i) => "question["@ + dec_spec(i) + "].question 不能为空"@,
            UserInputErr::NoOptions(i) => "question["@ + dec_spec(i) + "].options 不能为空"@,
            UserInputErr::TooManyOptions(i) => "question["@ + dec_spec(i) + "].options 最多只支持 3 个建议选项"@,
            UserInputErr::EmptyOptionLabel(i, k) => "question["@ + dec_spec(i) + "].options["@ + dec_spec(k)
                + "].label 不能为空"@,
            UserInputErr::EmptyOptionDescription(i, k) => "question["@ + dec_spec(i) + "].options["@ + dec_spec(
                k,
            ) + "].description 不能为空"@,
        }
    }

    /// The message the caller shows.
    pub fn message(&self) -> (r: String)
        ensures
            r@ == Self::message_spec(self@),
    {
        let mut out: Vec<char> = Vec::new();
        match self {
            UserInputError::NoQuestions => push_str(&mut out, "request_user_input 需要至少 1 个 question"),
            UserInputError::TooManyQuestions => push_str(&mut out, "request_user_input 最多只支持 10 个 question"),
            UserInputError::EmptyId(i) => {
                push_str(&mut out, "question[");
                push_dec(&mut out, *i as u64);
                push_str(&mut out, "].id 不能为空");
            },
            UserInputError::DuplicateId(i, s) => {
                push_str(&mut out, "question[");
                push_dec(&mut out, *i as u64);
                push_str(&mut out, "].id 重复：");
                push_str(&mut out, s.as_str());
            },
            UserInputError::EmptyHeader(i) => {
                push_str(&mut out, "question[");
                push_dec(&mut out, *i as u64);
                push_str(&mut out, "].header 不能为空");
            },
            UserInputError::HeaderTooLong(i) => {
                push_str(&mut out, "question[");
                push_dec(&mut out, *i as u64);
                push_str(&mut out, "].header 不能超过 12 个字符");
            },
            UserInputError::EmptyQuestion(i) => {
                push_str(&mut out, "question[");
                push_dec(&mut out, *i as u64);
                push_str(&mut out, "].question 不能为空");
            },
            UserInputError::NoOptions(i) => {
                push_str(&mut out, "question[");
                push_dec(&mut out, *i as u64);
                push_str(&mut out, "].options 不能为空");
            },
            UserInputError::TooManyOptions(i) => {
                push_str(&mut out, "question[");
                push_dec(&mut out, *i as u64);
                push_str(&mut out, "].options 最多只支持 3 个建议选项");
            },
            UserInputError::EmptyOptionLabel(i, k) => {
                push_str(&mut out, "question[");
                push_dec(&mut out, *i as u64);
                push_str(&mut out, "].options[");
                push_dec(&mut out, *k as u64);
                push_str(&mut out, "].label 不能为空");
            },
            UserInputError::EmptyOptionDescription(i, k) => {
                push_str(&mut out, "question[");
                push_dec(&mut out, *i as u64);
                push_str(&mut out, "].options[");
                push_dec(&mut out, *k as u64);
                push_str(&mut out, "].description 不能为空");
            },
        }
        assert(out@ =~= Self::message_spec(self@));
        chars_to_string(&out)
    }
}

// ---------------------------------------------------------------------------
// Validation
// ---------------------------------------------------------------------------

/// The first option, from `k` on, with a blank label or description.
pub open spec fn option_problem(os: Seq<RequestUserInputOptionArgs>, qi: nat, k: int) -> Option<UserInputErr>
    decreases os.len() - k,
{
    if k < 0 || k >= os.len() {
        None
    } else if trim_spec(os[k].label@).len() == 0 {
        Some(UserInputErr::EmptyOptionLabel(qi, k as nat))
    } else if trim_spec(os[k].description@).len() == 0 {
        Some(UserInputErr::EmptyOptionDescription(qi, k as nat))
    } else {
        option_problem(os, qi, k + 1)
    }
}

/// What is wrong with question `i`, the checks in their order.
pub open spec fn question_problem(qs: Seq<RequestUserInputQuestionArgs>, i: int) -> Option<UserInputErr> {
    let q = qs[i];
    let id = trim_spec(q.id@);
    let header = trim_spec(q.header@);
    if id.len() == 0 {
        Some(UserInputErr::EmptyId(i as nat))
    } else if exists|j: int| 0 <= j < i && trim_spec((#[trigger] qs[j]).id@) == id {
        Some(UserInputErr::DuplicateId(i as nat, id))
    } else if header.len() == 0 {
        Some(UserInputErr::EmptyHeader(i as nat))
    } else if header.len() > 12 {
        Some(UserInputErr::HeaderTooLong(i as nat))
    } else if trim_spec(q.question@).len() == 0 {
        Some(UserInputErr::EmptyQuestion(i as nat))
    } else if q.options@.len() == 0 {
        Some(UserInputErr::NoOptions(i as nat))
    } else if q.options@.len() > 3 {
        Some(UserInputErr::TooManyOptions(i as nat))
    } else {
        option_problem(q.options@, i as nat, 0)
    }
}

/// The first question, from `i` on, that has a problem.
pub open spec fn first_question_problem(qs: Seq<RequestUserInputQuestionArgs>, i: int) -> Option<UserInputErr>
    decreases qs.len() - i,
{
    if i < 0 || i >= qs.len() {
        None
    } else {
        match question_problem(qs, i) {
            Some(e) => Some(e),
            None => first_question_problem(qs, i + 1),
        }
    }
}

/// A question set is accepted with one to ten questions, each with a
/// fresh id, a header of at most twelve characters, a question, and one to
/// three options with a label and a description; else the first problem.
pub open spec fn user_input_check(qs: Seq<RequestUserInputQuestionArgs>) -> Option<UserInputErr> {
    if qs.len() == 0 {
        Some(UserInputErr::NoQuestions)
    } else if qs.len() > 10 {
        Some(UserInputErr::TooManyQuestions)
    } else {
        first_question_problem(qs, 0)
    }
}

fn options_check(os: &Vec<RequestUserInputOptionArgs>, qi: usize) -> (r: Result<(), UserInputError>)
    ensures
        match option_problem(os@, qi as nat, 0) {
            Some(e) => r matches Err(x) && x@ == e,
            None => r is Ok,
        },
{
    let mut k: usize = 0;
    while k < os.len()
        invariant
            k <= os@.len(),
            option_problem(os@, qi as nat, 0) == option_problem(os@, qi as nat, k as int),
        decreases os@.len() - k,
    {
        if trim_chars(&str_chars(os[k].label.as_str())).len() == 0 {
            return Err(UserInputError::EmptyOptionLabel(qi, k));
        }
        if trim_chars(&str_chars(os[k].description.as_str())).len() == 0 {
            return Err(UserInputError::EmptyOptionDescription(qi, k));
        }
        k += 1;
    }
    Ok(())
}

proof fn lemma_first_problem_step(qs: Seq<RequestUserInputQuestionArgs>, i: int)
    requires
        0 <= i < qs.len(),
        question_problem(qs, i) is None,
    ensures
        first_question_problem(qs, i) == first_question_problem(qs, i + 1),
{
}

/// Accepts or refuses a question set, as the request tool does once the
/// arguments are read.
pub fn validate_request_user_input_arguments(args: &RequestUserInputArgs) -> (r: Result<(), UserInputError>)
    ensures
        match user_input_check(args.questions@) {
            Some(e) => r matches Err(x) && x@ == e,
            None => r is Ok,
        },
{
    let qs = &args.questions;
    if qs.len() == 0 {
        return Err(UserInputError::NoQuestions);
    }
    if qs.len() > 10 {
        return Err(UserInputError::TooManyQuestions);
    }
    let mut seen: Vec<Vec<char>> = Vec::new();
    let mut i: usize = 0;
    while i < qs.len()
        invariant
            i <= qs@.len(),
            qs@ == args.questions@,
            0 < qs@.len() <= 10,
            first_question_problem(qs@, 0) == first_question_problem(qs@, i as int),
            views(seen@) == qs@.take(i as int).map_values(|q: RequestUserInputQuestionArgs| trim_spec(q.id@)),
        decreases qs@.len() - i,
    {
        let q = &qs[i];
        let id = trim_chars(&str_chars(q.id.as_str()));
        let header = trim_chars(&str_chars(q.header.as_str()));
        if id.len() == 0 {
            return Err(UserInputError::EmptyId(i));
        }
        let mut dup = false;
        let mut j: usize = 0;
        assert(views(seen@).len() == seen@.len());
        while j < seen.len()
            invariant
                j <= seen@.len(),
                seen@.len() == i,
                i < qs@.len(),
                views(seen@) == qs@.take(i as int).map_values(|q: RequestUserInputQuestionArgs| trim_spec(q.id@)),
                !dup ==> forall|k: int| 0 <= k < j ==> trim_spec((#[trigger] qs@[k]).id@) != id@,
                dup ==> exists|k: int| 0 <= k < i && trim_spec((#[trigger] qs@[k]).id@) == id@,
            decreases seen@.len() - j,
        {
            assert(views(seen@)[j as int] == trim_spec(qs@[j as int].id@));
            if !dup && chars_eq(&seen[j], &id) {
                dup = true;
            }
            j += 1;
        }
        if dup {
            return Err(UserInputError::DuplicateId(i, chars_to_string(&id)));
        }
        if header.len() == 0 {
            return Err(UserInputError::EmptyHeader(i));
        }
        if header.len() > 12 {
            return Err(UserInputError::HeaderTooLong(i));
        }
        if trim_chars(&str_chars(q.question.as_str())).len() == 0 {
            return Err(UserInputError::EmptyQuestion(i));
        }
        if q.options.len() == 0 {
            return Err(UserInputError::NoOptions(i));
        }
        if q.options.len() > 3 {
            return Err(UserInputError::TooManyOptions(i));
        }
        match options_check(&q.options, i) {
            Err(e) => {
                return Err(e);
            },
            Ok(()) => {},
        }
        proof {
            lemma_first_problem_step(qs@, i as int);
        }
        let ghost before = views(seen@);
        seen.push(id);
        proof {
            assert(views(seen@) =~= before.push(trim_spec(qs@[i as int].id@)));
            assert(qs@.take(i + 1).map_values(|q: RequestUserInputQuestionArgs| trim_spec(q.id@)) =~= qs@.take(
                i as int,
            ).map_values(|q: RequestUserInputQuestionArgs| trim_spec(q.id@)).push(trim_spec(qs@[i as int].id@)));
        }
        i += 1;
    }
    Ok(())
}

// ---------------------------------------------------------------------------
// Briefs and previews
// ---------------------------------------------------------------------------

/// The brief of a question set: the first header, else the first question
/// cut to 18 characters, with the number of further questions.
pub open spec fn user_input_brief_spec(qs: Seq<RequestUserInputQuestionArgs>) -> Seq<char> {
    if qs.len() == 0 {
        "发起对账"@
    } else {
        let header = trim_spec(qs[0].header@);
        let question = trim_spec(qs[0].question@);
        let base = if header.len() > 0 {
            "向用户对账 "@ + header
        } else if question.len() > 0 {
            "向用户对账 "@ + truncate_preview_spec(question, 18)
        } else {
            "发起对账"@
        };
        if qs.len() == 1 {
            base
        } else {
            base + " +"@ + dec_spec((qs.len() - 1) as nat) + " 项"@
        }
    }
}

pub fn derive_request_user_input_brief(args: &RequestUserInputArgs) -> (r: String)
    ensures
        r@ == user_input_brief_spec(args.questions@),
{
    let qs = &args.questions;
    if qs.len() == 0 {
        return chars_to_string(&str_chars("发起对账"));
    }
    let header = trim_chars(&str_chars(qs[0].header.as_str()));
    let question = trim_chars(&str_chars(qs[0].question.as_str()));
    let mut base: Vec<char> = if header.len() > 0 {
        let mut b = str_chars("向用户对账 ");
        push_chars(&mut b, &header);
        b
    } else if question.len() > 0 {
        let mut b = str_chars("向用户对账 ");
        push_str(&mut b, truncate_preview(chars_to_string(&question).as_str(), 18).as_str());
        b
    } else {
        str_chars("发起对账")
    };
    if qs.len() > 1 {
        push_str(&mut base, " +");
        push_dec(&mut base, (qs.len() - 1) as u64);
        push_str(&mut base, " 项");
    }
    chars_to_string(&base)
}

/// `"{n}. {header} · {question}"`, or without the header when it is blank.
pub open spec fn question_line(i: nat, q: RequestUserInputQuestionArgs) -> Seq<char> {
    let header = trim_spec(q.header@);
    let prompt = truncate_preview_spec(trim_spec(q.question@), 72);
    if header.len() == 0 {
        dec_spec(i + 1) + ". "@ + prompt
    } else {
        dec_spec(i + 1) + ". "@ + header + " · "@ + prompt
    }
}

pub open spec fn question_lines(qs: Seq<RequestUserInputQuestionArgs>) -> Seq<Seq<char>> {
    Seq::new(qs.len(), |i: int| question_line(i as nat, qs[i]))
}

/// The questions as the chat shows them, without their options.
pub fn build_request_user_input_preview(args: &RequestUserInputArgs) -> (r: String)
    ensures
        r@ == join_lines(question_lines(args.questions@)),
{
    let qs = &args.questions;
    let mut lines: Vec<Vec<char>> = Vec::new();
    let mut i: usize = 0;
    while i < qs.len()
        invariant
            i <= qs@.len(),
            views(lines@) == question_lines(qs@).take(i as int),
        decreases qs@.len() - i,
    {
        let q = &qs[i];
        let header = trim_chars(&str_chars(q.header.as_str()));
        let prompt = truncate_preview(chars_to_string(&trim_chars(&str_chars(q.question.as_str()))).as_str(), 72);
        let mut l: Vec<char> = Vec::new();
        push_dec(&mut l, i as u64 + 1);
        push_str(&mut l, ". ");
        if header.len() > 0 {
            push_chars(&mut l, &header);
            push_str(&mut l, " · ");
        }
        push_str(&mut l, prompt.as_str());
        proof {
            assert(l@ =~= question_line(i as nat, qs@[i as int]));
            assert(question_lines(qs@).take(i + 1) =~= question_lines(qs@).take(i as int).push(
                question_line(i as nat, qs@[i as int]),
            ));
        }
        push_line(&mut lines, l);
        i += 1;
    }
    assert(question_lines(qs@).take(qs@.len() as int) =~= question_lines(qs@));
    chars_to_string(&join_lines_exec(&lines))
}

/// The answers to one question.
#[derive(Debug, Clone, PartialEq, Eq)]
pub struct UserInputAnswer {
    pub answers: Vec<String>,
}

/// The answers by question id, each id once, in id order.
#[derive(Debug, Clone, PartialEq, Eq)]
pub struct UserInputResponse {
    pub answers: Vec<(String, UserInputAnswer)>,
}

/// An answer as shown: trimmed, a note shown as `自定义：…`.
pub open spec fn answer_part(item: Seq<char>) -> Seq<char> {
    let t = trim_spec(item);
    if starts_with_spec(t, REQUEST_USER_INPUT_OTHER_NOTE_PREFIX@) {
        "自定义："@ + trim_spec(t.skip(REQUEST_USER_INPUT_OTHER_NOTE_PREFIX@.len() as int))
    } else {
        t
    }
}

/// The answers that are not blank, as shown.
pub open spec fn answer_parts(items: Seq<Seq<char>>) -> Seq<Seq<char>>
    decreases items.len(),
{
    if items.len() == 0 {
        Seq::empty()
    } else {
        let prev = answer_parts(items.drop_last());
        if trim_spec(items.last()).len() == 0 {
            prev
        } else {
            prev.push(answer_part(items.last()))
        }
    }
}

pub open spec fn strings_view(v: Seq<String>) -> Seq<Seq<char>> {
    v.map_values(|s: String| s@)
}

/// The answers joined by ` / ` and cut to 72 characters; none when all are
/// blank.
pub open spec fn answer_summary_spec(items: Seq<Seq<char>>) -> Option<Seq<char>> {
    let parts = answer_parts(items);
    if parts.len() == 0 {
        None
    } else {
        Some(truncate_preview_spec(join_spec(parts, " / "@), 72))
    }
}

pub fn summarize_request_user_input_answer(answer: &UserInputAnswer) -> (r: Option<String>)
    ensures
        match answer_summary_spec(strings_view(answer.answers@)) {
            Some(s) => r matches Some(x) && x@ == s,
            None => r is None,
        },
{
    let items = &answer.answers;
    let ghost iv = strings_view(items@);
    let mut parts: Vec<Vec<char>> = Vec::new();
    let mut i: usize = 0;
    let plen = str_chars(REQUEST_USER_INPUT_OTHER_NOTE_PREFIX).len();
    while i < items.len()
        invariant
            i <= items@.len(),
            iv == strings_view(items@),
            plen == REQUEST_USER_INPUT_OTHER_NOTE_PREFIX@.len(),
            views(parts@) == answer_parts(iv.take(i as int)),
        decreases items@.len() - i,
    {
        proof {
            assert(iv.take(i + 1).drop_last() =~= iv.take(i as int));
        }
        let t = trim_chars(&str_chars(items[i].as_str()));
        if t.len() > 0 {
            if starts_with_str(&t, REQUEST_USER_INPUT_OTHER_NOTE_PREFIX) {
                let mut rest: Vec<char> = Vec::new();
                let mut k: usize = plen;
                while k < t.len()
                    invariant
                        plen <= k <= t@.len(),
                        rest@ == t@.subrange(plen as int, k as int),
                    decreases t@.len() - k,
                {
                    rest.push(t[k]);
                    proof {
                        assert(t@.subrange(plen as int, k + 1) =~= t@.subrange(plen as int, k as int).push(
                            t@[k as int],
                        ));
                    }
                    k += 1;
                }
                proof {
                    assert(t@.subrange(plen as int, t@.len() as int) =~= t@.skip(plen as int));
                }
                let mut p = str_chars("自定义：");
                push_chars(&mut p, &trim_chars(&rest));
                push_line(&mut parts, p);
            } else {
                push_line(&mut parts, t);
            }
        }
        i += 1;
    }
    assert(iv.take(items@.len() as int) =~= iv);
    if parts.len() == 0 {
        None
    } else {
        let joined = chars_to_string(&crate::text::join_chars(&parts, &str_chars(" / ")));
        Some(truncate_preview(joined.as_str(), 72))
    }
}

/// The answer given to a question id: the first entry with that id.
pub open spec fn answer_for(
    answers: Seq<(String, UserInputAnswer)>,
    id: Seq<char>,
) -> Option<UserInputAnswer>
    decreases answers.len(),
{
    if answers.len() == 0 {
        None
    } else if answers[0].0@ == id {
        Some(answers[0].1)
    } else {
        answer_for(answers.drop_first(), id)
    }
}

pub open spec fn answered_count(answers: Seq<(String, UserInputAnswer)>) -> nat
    decreases answers.len(),
{
    if answers.len() == 0 {
        0
    } else {
        answered_count(answers.drop_last()) + if answers.last().1.answers@.len() > 0 {
            1nat
        } else {
            0nat
        }
    }
}

/// The line for question `i` when it has an answer to show.
pub open spec fn response_line(i: nat, q: RequestUserInputQuestionArgs, answers: Seq<(String, UserInputAnswer)>) -> Seq<
    Seq<char>,
> {
    match answer_for(answers, q.id@) {
        Some(a) => match answer_summary_spec(strings_view(a.answers@)) {
            Some(s) => seq![dec_spec(i + 1) + ". "@ + trim_spec(q.header@) + " · "@ + s],
            None => Seq::empty(),
        },
        None => Seq::empty(),
    }
}

pub open spec fn response_lines(
    qs: Seq<RequestUserInputQuestionArgs>,
    answers: Seq<(String, UserInputAnswer)>,
    n: nat,
) -> Seq<Seq<char>>
    decreases n,
{
    if n == 0 || n > qs.len() {
        Seq::empty()
    } else {
        response_lines(qs, answers, (n - 1) as nat) + response_line((n - 1) as nat, qs[n - 1], answers)
    }
}

/// How many questions were answered, then each answered question.
pub open spec fn response_preview_spec(
    qs: Seq<RequestUserInputQuestionArgs>,
    answers: Seq<(String, UserInputAnswer)>,
) -> Seq<char> {
    join_lines(
        seq!["已完成 "@ + dec_spec(answered_count(answers)) + "/"@ + dec_spec(qs.len()) + " 项对账"@]
            + response_lines(qs, answers, qs.len()),
    )
}

fn find_answer<'a>(answers: &'a Vec<(String, UserInputAnswer)>, id: &String) -> (r: Option<&'a UserInputAnswer>)
    ensures
        match answer_for(answers@, id@) {
            Some(a) => r matches Some(x) && *x == a,
            None => r is None,
        },
{
    let mut i: usize = 0;
    assert(answers@.skip(0) =~= answers@);
    while i < answers.len()
        invariant
            i <= answers@.len(),
            answer_for(answers@, id@) == answer_for(answers@.skip(i as int), id@),
        decreases answers@.len() - i,
    {
        proof {
            assert(answers@.skip(i as int).drop_first() =~= answers@.skip(i + 1));
        }
        if answers[i].0 == *id {
            return Some(&answers[i].1);
        }
        i += 1;
    }
    None
}

proof fn lemma_answered_bound(answers: Seq<(String, UserInputAnswer)>)
    ensures
        answered_count(answers) <= answers.len(),
    decreases answers.len(),
{
    if answers.len() > 0 {
        lemma_answered_bound(answers.drop_last());
    }
}

/// What the chat shows once the user answered.
pub fn build_request_user_input_response_preview(args: &RequestUserInputArgs, response: &UserInputResponse) -> (r:
    String)
    ensures
        r@ == response_preview_spec(args.questions@, response.answers@),
{
    let answers = &response.answers;
    let mut answered: usize = 0;
    let mut i: usize = 0;
    while i < answers.len()
        invariant
            i <= answers@.len(),
            answered == answered_count(answers@.take(i as int)),
            answered <= i,
        decreases answers@.len() - i,
    {
        proof {
            assert(answers@.take(i + 1).drop_last() =~= answers@.take(i as int));
        }
        if answers[i].1.answers.len() > 0 {
            answered = answered + 1;
        }
        i += 1;
    }
    assert(answers@.take(answers@.len() as int) =~= answers@);
    let qs = &args.questions;
    let mut lines: Vec<Vec<char>> = Vec::new();
    let mut head = str_chars("已完成 ");
    push_dec(&mut head, answered as u64);
    push_str(&mut head, "/");
    push_dec(&mut head, qs.len() as u64);
    push_str(&mut head, " 项对账");
    let ghost head_line = head@;
    push_line(&mut lines, head);
    let ghost h = views(lines@);
    assert(h =~= seq![head_line]);
    let mut k: usize = 0;
    while k < qs.len()
        invariant
            k <= qs@.len(),
            qs@ == args.questions@,
            answers@ == response.answers@,
            views(lines@) == h + response_lines(qs@, answers@, k as nat),
        decreases qs@.len() - k,
    {
        let q = &qs[k];
        let ghost before = views(lines@);
        match find_answer(answers, &q.id) {
            Some(a) => match summarize_request_user_input_answer(a) {
                Some(s) => {
                    let mut l: Vec<char> = Vec::new();
                    push_dec(&mut l, k as u64 + 1);
                    push_str(&mut l, ". ");
                    push_chars(&mut l, &trim_chars(&str_chars(q.header.as_str())));
                    push_str(&mut l, " · ");
                    push_str(&mut l, s.as_str());
                    push_line(&mut lines, l);
                },
                None => {},
            },
            None => {},
        }
        proof {
            assert(views(lines@) =~= before + response_line(k as nat, qs@[k as int], answers@));
            assert(h + response_lines(qs@, answers@, (k + 1) as nat) =~= h + response_lines(qs@, answers@, k as nat)
                + response_line(k as nat, qs@[k as int], answers@));
        }
        k += 1;
    }
    chars_to_string(&join_lines_exec(&lines))
}

/// An option as the answer sheet shows it.
#[derive(Debug, Clone, PartialEq, Eq)]
pub struct UserInputOption {
    pub label: String,
    pub description: String,
}

/// A question as the answer sheet shows it.
#[derive(Debug, Clone, PartialEq, Eq)]
pub struct UserInputQuestion {
    pub id: String,
    pub header: String,
    pub question: String,
    pub is_other: bool,
    pub is_secret: bool,
    pub options: Vec<UserInputOption>,
}

/// The sheet question made from a requested one: every text trimmed, a
/// free answer allowed, nothing secret.
pub open spec fn sheet_question_is(s: UserInputQuestion, q: RequestUserInputQuestionArgs) -> bool {
    &&& s.id@ == trim_spec(q.id@)
    &&& s.header@ == trim_spec(q.header@)
    &&& s.question@ == trim_spec(q.question@)
    &&& s.is_other
    &&& !s.is_secret
    &&& s.options@.len() == q.options@.len()
    &&& forall|k: int|
        0 <= k < s.options@.len() ==> (#[trigger] s.options@[k]).label@ == trim_spec(q.options@[k].label@)
            && s.options@[k].description@ == trim_spec(q.options@[k].description@)
}

fn trimmed_string(s: &String) -> (r: String)
    ensures
        r@ == trim_spec(s@),
{
    chars_to_string(&trim_chars(&str_chars(s.as_str())))
}

pub fn build_user_input_questions(args: &RequestUserInputArgs) -> (r: Vec<UserInputQuestion>)
    ensures
        r@.len() == args.questions@.len(),
        forall|i: int| 0 <= i < r@.len() ==> sheet_question_is(#[trigger] r@[i], args.questions@[i]),
{
    let qs = &args.questions;
    let mut out: Vec<UserInputQuestion> = Vec::new();
    let mut i: usize = 0;
    while i < qs.len()
        invariant
            i <= qs@.len(),
            qs@ == args.questions@,
            out@.len() == i,
            forall|j: int| 0 <= j < i ==> sheet_question_is(#[trigger] out@[j], qs@[j]),
        decreases qs@.len() - i,
    {
        let q = &qs[i];
        let mut options: Vec<UserInputOption> = Vec::new();
        let mut k: usize = 0;
        while k < q.options.len()
            invariant
                k <= q.options@.len(),
                options@.len() == k,
                forall|m: int|
                    0 <= m < k ==> (#[trigger] options@[m]).label@ == trim_spec(q.options@[m].label@)
                        && options@[m].description@ == trim_spec(q.options@[m].description@),
            decreases q.options@.len() - k,
        {
            options.push(
                UserInputOption {
                    label: trimmed_string(&q.options[k].label),
                    description: trimmed_string(&q.options[k].description),
                },
            );
            k += 1;
        }
        out.push(
            UserInputQuestion {
                id: trimmed_string(&q.id),
                header: trimmed_string(&q.header),
                question: trimmed_string(&q.question),
                is_other: true,
                is_secret: false,
                options,
            },
        );
        i += 1;
    }
    out
}


/// What the asking side hears back: the answers, or that the user closed
/// the question.
#[derive(Debug, Clone, PartialEq, Eq)]
pub enum UserInputToolResponse {
    Answered(UserInputResponse),
    Cancelled,
}

/// What the user said to running a dangerous command.
#[derive(Debug, Clone, Copy, PartialEq, Eq, Structural)]
pub enum PermissionDecision {
    Allowed,
    Refused,
    Cancelled,
}

/// The question id of the dangerous-command confirmation.
pub const PERMISSION_CONFIRM_ID: &'static str = "permission_confirm";

/// The option that lets the command run.
pub const PERMISSION_ALLOW_LABEL: &'static str = "继续执行";

/// The position of the first answer to question `id`, if any.
pub open spec fn first_answer_index(answers: Seq<(String, UserInputAnswer)>, id: Seq<char>) -> Option<int> {
    if exists|i: int| 0 <= i < answers.len() && (#[trigger] answers[i]).0@ == id {
        Some(choose|i: int|
            0 <= i < answers.len() && (#[trigger] answers[i]).0@ == id && forall|j: int|
                0 <= j < i ==> (#[trigger] answers[j]).0@ != id)
    } else {
        None
    }
}

/// The command runs when the first answer to the confirmation, trimmed, is
/// the allow option; a closed question cancels; anything else refuses.
pub open spec fn permission_spec(response: UserInputToolResponse) -> PermissionDecision {
    match response {
        UserInputToolResponse::Cancelled => PermissionDecision::Cancelled,
        UserInputToolResponse::Answered(r) => match first_answer_index(r.answers@, PERMISSION_CONFIRM_ID@) {
            Some(i) => {
                let given = r.answers@[i].1.answers@;
                if given.len() > 0 && trim_spec(given[0]@) == PERMISSION_ALLOW_LABEL@ {
                    PermissionDecision::Allowed
                } else {
                    PermissionDecision::Refused
                }
            },
            None => PermissionDecision::Refused,
        },
    }
}

/// Reads the user's reply to the dangerous-command confirmation.
pub fn permission_decision(response: &UserInputToolResponse) -> (r: PermissionDecision)
    ensures
        r == permission_spec(*response),
{
    match response {
        UserInputToolResponse::Cancelled => PermissionDecision::Cancelled,
        UserInputToolResponse::Answered(resp) => {
            let mut i: usize = 0;
            while i < resp.answers.len()
                invariant
                    *response == UserInputToolResponse::Answered(*resp),
                    i <= resp.answers@.len(),
                    forall|j: int| 0 <= j < i ==> (#[trigger] resp.answers@[j]).0@ != PERMISSION_CONFIRM_ID@,
                decreases resp.answers@.len() - i,
            {
                if chars_eq(&str_chars(resp.answers[i].0.as_str()), &str_chars(PERMISSION_CONFIRM_ID)) {
                    proof {
                        let k = first_answer_index(resp.answers@, PERMISSION_CONFIRM_ID@);
                        assert(k == Some(i as int)) by {
                            let c = choose|c: int|
                                0 <= c < resp.answers@.len() && (#[trigger] resp.answers@[c]).0@
                                    == PERMISSION_CONFIRM_ID@ && forall|j: int|
                                    0 <= j < c ==> (#[trigger] resp.answers@[j]).0@ != PERMISSION_CONFIRM_ID@;
                            assert(0 <= i < resp.answers@.len() && resp.answers@[i as int].0@ == PERMISSION_CONFIRM_ID@
                                && forall|j: int| 0 <= j < i ==> (#[trigger] resp.answers@[j]).0@ != PERMISSION_CONFIRM_ID@);
                            if c < i {
                            } else if c > i {
                                assert(resp.answers@[i as int].0@ != PERMISSION_CONFIRM_ID@);
                            }
                        }
                    }
                    let given = &resp.answers[i].1.answers;
                    assert(given@ == resp.answers@[i as int].1.answers@);
                    if given.len() > 0 && chars_eq(&trim_chars(&str_chars(given[0].as_str())), &str_chars(PERMISSION_ALLOW_LABEL)) {
                        assert(given@[0]@ == given[0]@);
                        return PermissionDecision::Allowed;
                    } else {
                        return PermissionDecision::Refused;
                    }
                }
                i += 1;
            }
            PermissionDecision::Refused
        },
    }
}

} // verus!
