//! What a command's output becomes for the model and for the UI: counted,
//! cut to a budget around an ellipsis, and marked as archived when it is too
//! large to show inline.
use vstd::prelude::*;

use crate::settings::{
    CommandOutputBudget, ExecCommandFamily, SaveReasonModel, COMMAND_OUTPUT_PREVIEW_MAX_CHARS,
    COMMAND_OUTPUT_PREVIEW_MAX_LINES, command_output_save_reason, opt_reason_model, min_spec,
    save_reason_spec, save_reason_text,
};
use crate::terminal_text::copy_range;
use crate::text::{
    chars_to_string, dec_spec, ellipsis_chars, ellipsis_spec, join_lines, join_lines_exec,
    lines_chars, lines_spec, push_chars, push_dec, push_str, starts_with_spec, str_chars, trim_chars, trim_end_chars, trim_end_spec,
    trim_spec, views,
};

verus! {

/// The number of lines of a text: none when it is empty, else at least one.
pub open spec fn count_lines_spec(s: Seq<char>) -> nat {
    if s.len() == 0 {
        0
    } else if lines_spec(s).len() == 0 {
        1
    } else {
        lines_spec(s).len()
    }
}

pub fn count_lines(text: &str) -> (r: usize)
    ensures
        r == count_lines_spec(text@),
{
    let t = str_chars(text);
    if t.len() == 0 {
        return 0;
    }
    let ls = lines_chars(&t);
    if ls.len() == 0 {
        1
    } else {
        ls.len()
    }
}

/// A text cut to `max_chars` characters, the last of them `'…'`; no limit
/// at zero.
pub open spec fn truncate_ellipsis_spec(s: Seq<char>, max_chars: nat) -> Seq<char> {
    if max_chars == 0 {
        s
    } else {
        ellipsis_spec(s, max_chars)
    }
}

pub fn truncate_chars_with_ellipsis(text: &str, max_chars: usize) -> (r: String)
    ensures
        r@ == truncate_ellipsis_spec(text@, max_chars as nat),
{
    let t = str_chars(text);
    if max_chars == 0 {
        return chars_to_string(&t);
    }
    chars_to_string(&ellipsis_chars(&t, max_chars))
}

/// The first half of the line budget, a `"…"` line, and the last lines that
/// fill the rest of it; then cut to `max_chars`.
pub open spec fn head_tail_preview_spec(text: Seq<char>, max_lines: nat, max_chars: nat) -> Seq<char> {
    let ls = lines_spec(text);
    if ls.len() <= max_lines {
        truncate_ellipsis_spec(text, max_chars)
    } else {
        let head = max_lines / 2;
        let tail = if max_lines >= head + 1 {
            (max_lines - (head + 1)) as nat
        } else {
            0
        };
        truncate_ellipsis_spec(
            join_lines(ls.take(head as int) + seq!["…"@] + ls.skip(ls.len() - tail)),
            max_chars,
        )
    }
}

pub fn build_head_tail_preview(text: &str, max_lines: usize, max_chars: usize) -> (r: String)
    ensures
        r@ == head_tail_preview_spec(text@, max_lines as nat, max_chars as nat),
{
    let t = str_chars(text);
    let ls = lines_chars(&t);
    let ghost v = views(ls@);
    if ls.len() <= max_lines {
        return truncate_chars_with_ellipsis(text, max_chars);
    }
    let head = max_lines / 2;
    let tail = if max_lines >= head + 1 {
        max_lines - (head + 1)
    } else {
        0
    };
    let mut kept: Vec<Vec<char>> = Vec::new();
    copy_range(&ls, &mut kept, 0, head);
    let ghost before = views(kept@);
    kept.push(str_chars("…"));
    proof {
        assert(views(kept@) =~= before.push("…"@));
    }
    copy_range(&ls, &mut kept, ls.len() - tail, ls.len());
    proof {
        assert(v.subrange(0, head as int) =~= v.take(head as int));
        assert(v.subrange(v.len() - tail, v.len() as int) =~= v.skip(v.len() - tail));
        assert(views(kept@) =~= v.take(head as int) + seq!["…"@] + v.skip(v.len() - tail));
    }
    let joined = join_lines_exec(&kept);
    if max_chars == 0 {
        return chars_to_string(&joined);
    }
    chars_to_string(&ellipsis_chars(&joined, max_chars))
}

/// The line budget of a report: the preview budget, at most 64 lines.
pub open spec fn report_max_lines() -> nat {
    min_spec(COMMAND_OUTPUT_PREVIEW_MAX_LINES as int, 64) as nat
}

/// The character budget of a report: the preview budget, at most 8000.
pub open spec fn report_max_chars() -> nat {
    min_spec(COMMAND_OUTPUT_PREVIEW_MAX_CHARS as int, 8000) as nat
}

/// A report without trailing whitespace, cut around its middle to the
/// report budget.
pub open spec fn report_clamp_spec(text: Seq<char>) -> Seq<char> {
    head_tail_preview_spec(trim_end_spec(text), report_max_lines(), report_max_chars())
}

pub fn clamp_report_text(text: String) -> (r: String)
    ensures
        r@ == report_clamp_spec(text@),
{
    let max_lines: usize = if COMMAND_OUTPUT_PREVIEW_MAX_LINES < 64 {
        COMMAND_OUTPUT_PREVIEW_MAX_LINES
    } else {
        64
    };
    let max_chars: usize = if COMMAND_OUTPUT_PREVIEW_MAX_CHARS < 8000 {
        COMMAND_OUTPUT_PREVIEW_MAX_CHARS
    } else {
        8000
    };
    let t = chars_to_string(&trim_end_chars(&str_chars(text.as_str())));
    build_head_tail_preview(t.as_str(), max_lines, max_chars)
}

/// Four characters to a token, rounded up.
pub open spec fn approximate_tokens_spec(chars: nat) -> nat {
    let sum = if chars + 3 > usize::MAX {
        usize::MAX as nat
    } else {
        chars + 3
    };
    sum / 4
}

pub fn approximate_token_count(text: &str) -> (r: usize)
    ensures
        r == approximate_tokens_spec(text@.len()),
{
    let t = str_chars(text);
    t.len().saturating_add(3) / 4
}

/// The output cut to four characters per allowed token; unchanged when no
/// positive token limit is given.
pub open spec fn truncate_output_spec(s: Seq<char>, max_output_tokens: Option<usize>) -> Seq<char> {
    match max_output_tokens {
        Some(t) if t > 0 => {
            let m = if t * 4 > usize::MAX {
                usize::MAX as nat
            } else {
                (t * 4) as nat
            };
            truncate_ellipsis_spec(s, m)
        },
        _ => s,
    }
}

pub fn truncate_output(text: &str, max_output_tokens: Option<usize>) -> (r: String)
    ensures
        r@ == truncate_output_spec(text@, max_output_tokens),
{
    match max_output_tokens {
        Some(t) => {
            if t > 0 {
                let m = if t <= usize::MAX / 4 {
                    t * 4
                } else {
                    usize::MAX
                };
                truncate_chars_with_ellipsis(text, m)
            } else {
                chars_to_string(&str_chars(text))
            }
        },
        None => chars_to_string(&str_chars(text)),
    }
}

/// The counts and previews of one command's output.
#[derive(Debug, Clone)]
pub struct CommandOutputSummary {
    pub model_preview: String,
    pub ui_preview: String,
    pub bytes: usize,
    pub lines: usize,
    pub chars: usize,
    pub budget_label: String,
    pub save_reason: Option<String>,
}

/// `"entry_id={id}"`, or `"entry_id=pending"` before the entry exists.
pub open spec fn archive_label_spec(history_entry_id: Option<u64>) -> Seq<char> {
    match history_entry_id {
        Some(id) => "entry_id="@ + dec_spec(id as nat),
        None => "entry_id=pending"@,
    }
}

/// The note that heads an archived output.
pub open spec fn saved_note_spec(
    archive: Seq<char>,
    reason: Seq<char>,
    bytes: nat,
    lines: nat,
    chars: nat,
) -> Seq<char> {
    "[HistoryTools archived · "@ + archive + " · line_range=1-"@ + dec_spec(lines) + "] "@ + reason + " · "@
        + dec_spec(bytes) + " bytes · "@ + dec_spec(lines) + " lines · "@ + dec_spec(chars) + " chars"@
}

/// The UI preview of a non-blank output: the archive note and a short
/// preview when it is archived, else the budgeted preview.
pub open spec fn ui_preview_spec(
    text: Seq<char>,
    bytes: nat,
    history_entry_id: Option<u64>,
    budget: CommandOutputBudget,
) -> Seq<char> {
    let lines = count_lines_spec(text);
    let chars = text.len();
    match save_reason_spec(bytes, lines, chars, budget) {
        Some(reason) => saved_note_spec(archive_label_spec(history_entry_id), save_reason_text(reason), bytes, lines, chars)
            + "\n"@ + head_tail_preview_spec(
            text,
            min_spec(COMMAND_OUTPUT_PREVIEW_MAX_LINES as int, budget.inline_lines as int) as nat,
            min_spec(COMMAND_OUTPUT_PREVIEW_MAX_CHARS as int, budget.inline_chars as int) as nat,
        ),
        None => head_tail_preview_spec(text, budget.inline_lines as nat, budget.inline_chars as nat),
    }
}

pub open spec fn opt_text(o: Option<String>) -> Option<Seq<char>> {
    match o {
        Some(s) => Some(s@),
        None => None,
    }
}

/// Everything a summary holds, as a function of the output and the budget.
pub open spec fn is_output_summary(
    r: CommandOutputSummary,
    text: Seq<char>,
    bytes: nat,
    max_output_tokens: Option<usize>,
    history_entry_id: Option<u64>,
    budget: CommandOutputBudget,
) -> bool {
    let lines = count_lines_spec(text);
    let reason = save_reason_spec(bytes, lines, text.len(), budget);
    &&& r.bytes == bytes
    &&& r.lines == lines
    &&& r.chars == text.len()
    &&& r.budget_label@ == budget.label@
    &&& if trim_spec(text).len() == 0 {
        &&& r.ui_preview@ == "(empty output)"@
        &&& r.model_preview@ == "(empty output)"@
        &&& r.save_reason is None
    } else {
        &&& r.ui_preview@ == ui_preview_spec(text, bytes, history_entry_id, budget)
        &&& r.model_preview@ == truncate_output_spec(r.ui_preview@, max_output_tokens)
        &&& opt_text(r.save_reason) == (match reason {
            Some(m) => Some(save_reason_text(m)),
            None => None,
        })
    }
}

fn archive_label(history_entry_id: Option<u64>) -> (r: Vec<char>)
    ensures
        r@ == archive_label_spec(history_entry_id),
{
    match history_entry_id {
        Some(id) => {
            let mut out = str_chars("entry_id=");
            push_dec(&mut out, id);
            out
        },
        None => str_chars("entry_id=pending"),
    }
}

fn saved_note(archive: &[char], reason: &str, bytes: usize, lines: usize, chars: usize) -> (r: Vec<char>)
    ensures
        r@ == saved_note_spec(archive@, reason@, bytes as nat, lines as nat, chars as nat),
{
    let mut out = str_chars("[HistoryTools archived · ");
    push_chars(&mut out, archive);
    push_str(&mut out, " · line_range=1-");
    push_dec(&mut out, lines as u64);
    push_str(&mut out, "] ");
    push_str(&mut out, reason);
    push_str(&mut out, " · ");
    push_dec(&mut out, bytes as u64);
    push_str(&mut out, " bytes · ");
    push_dec(&mut out, lines as u64);
    push_str(&mut out, " lines · ");
    push_dec(&mut out, chars as u64);
    push_str(&mut out, " chars");
    out
}

/// Counts an output and builds its model and UI previews within the budget.
/// The command family does not change the result.
pub fn summarize_command_output(
    text: &str,
    max_output_tokens: Option<usize>,
    history_entry_id: Option<u64>,
    budget: &CommandOutputBudget,
    _family: ExecCommandFamily,
) -> (r: CommandOutputSummary)
    ensures
        is_output_summary(r, text@, text.len() as nat, max_output_tokens, history_entry_id, *budget),
        r.save_reason is None && trim_spec(text@).len() > 0 && count_lines_spec(text@) <= budget.inline_lines
            && text@.len() <= budget.inline_chars ==> r.ui_preview@ == text@,
        r.save_reason is None && trim_spec(text@).len() > 0 && count_lines_spec(text@) <= budget.inline_lines
            && text@.len() <= budget.inline_chars && (max_output_tokens matches Some(t) ==> t == 0 || text@.len() <= t
            * 4) ==> r.model_preview@ == text@,
{
    let bytes = text.len();
    let t = str_chars(text);
    let chars = t.len();
    let lines = count_lines(text);
    let trimmed = trim_chars(&t);
    let label = chars_to_string(&str_chars(budget.label.as_str()));
    if trimmed.len() == 0 {
        return CommandOutputSummary {
            model_preview: chars_to_string(&str_chars("(empty output)")),
            ui_preview: chars_to_string(&str_chars("(empty output)")),
            bytes,
            lines,
            chars,
            budget_label: label,
            save_reason: None,
        };
    }
    let reason = command_output_save_reason(bytes, lines, chars, budget);
    match reason {
        Some(save_reason) => {
            let max_lines = if COMMAND_OUTPUT_PREVIEW_MAX_LINES <= budget.inline_lines {
                COMMAND_OUTPUT_PREVIEW_MAX_LINES
            } else {
                budget.inline_lines
            };
            let max_chars = if COMMAND_OUTPUT_PREVIEW_MAX_CHARS <= budget.inline_chars {
                COMMAND_OUTPUT_PREVIEW_MAX_CHARS
            } else {
                budget.inline_chars
            };
            let preview = build_head_tail_preview(text, max_lines, max_chars);
            let archive = archive_label(history_entry_id);
            let reason_text = save_reason.display_text();
            let mut ui = saved_note(&archive, reason_text, bytes, lines, chars);
            push_str(&mut ui, "\n");
            push_str(&mut ui, preview.as_str());
            let ui_preview = chars_to_string(&ui);
            let model_preview = truncate_output(ui_preview.as_str(), max_output_tokens);
            let saved = chars_to_string(&str_chars(reason_text));
            CommandOutputSummary {
                model_preview,
                ui_preview,
                bytes,
                lines,
                chars,
                budget_label: label,
                save_reason: Some(saved),
            }
        },
        None => {
            let preview = build_head_tail_preview(text, budget.inline_lines, budget.inline_chars);
            let model_preview = truncate_output(preview.as_str(), max_output_tokens);
            CommandOutputSummary {
                model_preview,
                ui_preview: preview,
                bytes,
                lines,
                chars,
                budget_label: label,
                save_reason: None,
            }
        },
    }
}

/// Law: an output that is not archived and fits the budget's inline lines
/// and characters is shown whole; the model sees it whole too when its
/// token limit (four characters a token) leaves room for it or is absent.
pub proof fn lemma_unarchived_output_shown_whole(
    r: CommandOutputSummary,
    text: Seq<char>,
    bytes: nat,
    max_output_tokens: Option<usize>,
    history_entry_id: Option<u64>,
    budget: CommandOutputBudget,
)
    requires
        is_output_summary(r, text, bytes, max_output_tokens, history_entry_id, budget),
        r.save_reason is None,
        trim_spec(text).len() > 0,
        count_lines_spec(text) <= budget.inline_lines,
        text.len() <= budget.inline_chars,
    ensures
        r.ui_preview@ == text,
        text.len() <= usize::MAX && (max_output_tokens matches Some(t) ==> t == 0 || text.len() <= t * 4)
            ==> r.model_preview@ == text,
{
}

/// Law: an archived output is announced first: its UI preview opens with
/// the archive note naming its history entry (or a pending one) and the
/// reason it was archived, and a blank output is never archived.
pub proof fn lemma_archived_output_announced(
    r: CommandOutputSummary,
    text: Seq<char>,
    bytes: nat,
    max_output_tokens: Option<usize>,
    history_entry_id: Option<u64>,
    budget: CommandOutputBudget,
)
    requires
        is_output_summary(r, text, bytes, max_output_tokens, history_entry_id, budget),
    ensures
        trim_spec(text).len() == 0 ==> r.save_reason is None,
        r.save_reason matches Some(reason) ==> (starts_with_spec(
            r.ui_preview@,
            "[HistoryTools archived · "@ + (match history_entry_id {
                Some(id) => "entry_id="@ + dec_spec(id as nat),
                None => "entry_id=pending"@,
            }) + " · line_range=1-"@ + dec_spec(r.lines as nat) + "] "@ + reason@ + " · "@,
        )),
{
    if r.save_reason is Some && trim_spec(text).len() > 0 {
        let reason = r.save_reason->0;
        let p = "[HistoryTools archived · "@ + archive_label_spec(history_entry_id) + " · line_range=1-"@ + dec_spec(
            r.lines as nat,
        ) + "] "@ + reason@ + " · "@;
        assert(r.ui_preview@.subrange(0, p.len() as int) =~= p);
    }
}

} // verus!
