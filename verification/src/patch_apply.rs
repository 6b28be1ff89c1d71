//! What applying a patch did: each file's change, the running totals, and
//! the two texts that report it (to the model and to the chat).
use vstd::prelude::*;

use crate::hunk::{lines_view, sat_add, PatchHunkApplyReport};
use crate::patch_view::{
    build_added_file_detail_lines, build_deleted_file_detail_lines, file_count_label, file_count_label_spec,
    numbered_lines,
};
use crate::terminal::{append_all, push_line};
use crate::text::{
    chars_to_string, dec_spec, join_lines, join_lines_exec, push_dec, push_str, str_chars, views,
};

verus! {

/// One file a patch changed: `'A'`dded, `'D'`eleted or `'M'`odified.
#[derive(Debug, Clone, PartialEq, Eq)]
pub struct PatchFileChange {
    pub action: char,
    pub path: String,
    pub added_lines: usize,
    pub removed_lines: usize,
    pub detail_lines: Vec<String>,
}

/// Every file a patch changed, with totals over them.
#[derive(Debug, Clone, PartialEq, Eq)]
pub struct PatchApplyResult {
    pub changes: Vec<PatchFileChange>,
    pub added_lines: usize,
    pub removed_lines: usize,
    pub added_chars: usize,
    pub removed_chars: usize,
}

/// How many characters these lines hold.
pub open spec fn chars_total(ls: Seq<Seq<char>>) -> nat
    decreases ls.len(),
{
    if ls.len() == 0 {
        0
    } else {
        chars_total(ls.drop_last()) + ls.last().len()
    }
}

proof fn lemma_chars_total_prefix(ls: Seq<Seq<char>>, i: int)
    requires
        0 <= i <= ls.len(),
    ensures
        chars_total(ls.take(i)) <= chars_total(ls),
    decreases ls.len() - i,
{
    if i < ls.len() {
        lemma_chars_total_prefix(ls, i + 1);
        assert(ls.take(i + 1).drop_last() =~= ls.take(i));
    } else {
        assert(ls.take(i) =~= ls);
    }
}

fn count_chars(lines: &Vec<String>) -> (r: usize)
    requires
        chars_total(lines_view(lines@)) <= usize::MAX,
    ensures
        r == chars_total(lines_view(lines@)),
{
    let ghost lv = lines_view(lines@);
    let mut total: usize = 0;
    let mut i: usize = 0;
    while i < lines.len()
        invariant
            i <= lines@.len(),
            lv == lines_view(lines@),
            chars_total(lv) <= usize::MAX,
            total == chars_total(lv.take(i as int)),
        decreases lines@.len() - i,
    {
        proof {
            assert(lv.take(i + 1).drop_last() =~= lv.take(i as int));
            lemma_chars_total_prefix(lv, i + 1);
        }
        let n = str_chars(lines[i].as_str()).len();
        total = total + n;
        i += 1;
    }
    assert(lv.take(lines@.len() as int) =~= lv);
    total
}

/// A file the patch adds: every line is new. The second value is how many
/// characters it adds.
pub fn added_file_change(display_path: String, lines: &Vec<String>) -> (r: (PatchFileChange, usize))
    requires
        lines@.len() < usize::MAX,
        chars_total(lines_view(lines@)) <= usize::MAX,
    ensures
        r.0.action == 'A',
        r.0.path@ == display_path@,
        r.0.added_lines == lines@.len(),
        r.0.removed_lines == 0,
        lines_view(r.0.detail_lines@) == numbered_lines(lines_view(lines@), '+'),
        r.1 == chars_total(lines_view(lines@)),
{
    let chars = count_chars(lines);
    let change = PatchFileChange {
        action: 'A',
        path: display_path,
        added_lines: lines.len(),
        removed_lines: 0,
        detail_lines: build_added_file_detail_lines(lines),
    };
    (change, chars)
}

/// A file the patch deletes: every line it held goes. The second value is
/// how many characters it removes.
pub fn deleted_file_change(display_path: String, old_lines: &Vec<String>) -> (r: (PatchFileChange, usize))
    requires
        old_lines@.len() < usize::MAX,
        chars_total(lines_view(old_lines@)) <= usize::MAX,
    ensures
        r.0.action == 'D',
        r.0.path@ == display_path@,
        r.0.added_lines == 0,
        r.0.removed_lines == old_lines@.len(),
        lines_view(r.0.detail_lines@) == numbered_lines(lines_view(old_lines@), '-'),
        r.1 == chars_total(lines_view(old_lines@)),
{
    let chars = count_chars(old_lines);
    let change = PatchFileChange {
        action: 'D',
        path: display_path,
        added_lines: 0,
        removed_lines: old_lines.len(),
        detail_lines: build_deleted_file_detail_lines(old_lines),
    };
    (change, chars)
}

/// A file the patch modifies, from the report of its hunks.
pub fn updated_file_change(display_path: String, report: PatchHunkApplyReport) -> (r: PatchFileChange)
    ensures
        r.action == 'M',
        r.path@ == display_path@,
        r.added_lines == report.added_lines,
        r.removed_lines == report.removed_lines,
        r.detail_lines@ == report.detail_lines@,
{
    PatchFileChange {
        action: 'M',
        path: display_path,
        added_lines: report.added_lines,
        removed_lines: report.removed_lines,
        detail_lines: report.detail_lines,
    }
}

fn sat(a: usize, b: usize) -> (r: usize)
    ensures
        r == sat_add(a as nat, b as nat),
{
    a.saturating_add(b)
}

impl PatchApplyResult {
    /// No file changed yet.
    pub fn new() -> (r: PatchApplyResult)
        ensures
            r.changes@.len() == 0,
            r.added_lines == 0 && r.removed_lines == 0 && r.added_chars == 0 && r.removed_chars == 0,
    {
        PatchApplyResult { changes: Vec::new(), added_lines: 0, removed_lines: 0, added_chars: 0, removed_chars: 0 }
    }

    /// One more file changed, adding and removing these many characters;
    /// the totals saturate.
    pub fn record(&mut self, change: PatchFileChange, added_chars: usize, removed_chars: usize)
        ensures
            final(self).changes@ == old(self).changes@.push(change),
            final(self).added_lines == sat_add(old(self).added_lines as nat, change.added_lines as nat),
            final(self).removed_lines == sat_add(old(self).removed_lines as nat, change.removed_lines as nat),
            final(self).added_chars == sat_add(old(self).added_chars as nat, added_chars as nat),
            final(self).removed_chars == sat_add(old(self).removed_chars as nat, removed_chars as nat),
    {
        self.added_lines = sat(self.added_lines, change.added_lines);
        self.removed_lines = sat(self.removed_lines, change.removed_lines);
        self.added_chars = sat(self.added_chars, added_chars);
        self.removed_chars = sat(self.removed_chars, removed_chars);
        self.changes.push(change);
    }
}

/// What the model is told: each changed file with its action, or that
/// nothing changed.
pub open spec fn apply_summary_spec(changes: Seq<PatchFileChange>) -> Seq<char> {
    if changes.len() == 0 {
        "No files were modified."@
    } else {
        join_lines(
            seq!["Success. Updated the following files:"@] + changes.map_values(
                |c: PatchFileChange| seq![c.action] + " "@ + c.path@,
            ),
        )
    }
}

pub fn summarize_apply_patch_result(result: &PatchApplyResult) -> (r: String)
    ensures
        r@ == apply_summary_spec(result.changes@),
{
    let cs = &result.changes;
    if cs.len() == 0 {
        return chars_to_string(&str_chars("No files were modified."));
    }
    let mut lines: Vec<Vec<char>> = Vec::new();
    push_line(&mut lines, str_chars("Success. Updated the following files:"));
    let mut i: usize = 0;
    while i < cs.len()
        invariant
            i <= cs@.len(),
            views(lines@) == seq!["Success. Updated the following files:"@] + cs@.take(i as int).map_values(
                |c: PatchFileChange| seq![c.action] + " "@ + c.path@,
            ),
        decreases cs@.len() - i,
    {
        let mut l: Vec<char> = Vec::new();
        l.push(cs[i].action);
        push_str(&mut l, " ");
        push_str(&mut l, cs[i].path.as_str());
        push_line(&mut lines, l);
        proof {
            assert(cs@.take(i + 1).map_values(|c: PatchFileChange| seq![c.action] + " "@ + c.path@) =~= cs@.take(
                i as int,
            ).map_values(|c: PatchFileChange| seq![c.action] + " "@ + c.path@).push(
                seq![cs@[i as int].action] + " "@ + cs@[i as int].path@,
            ));
        }
        i += 1;
    }
    assert(cs@.take(cs@.len() as int) =~= cs@);
    chars_to_string(&join_lines_exec(&lines))
}

/// The lines of one file in the chat's report: a blank line, the file
/// with its counts, then its numbered lines.
pub open spec fn change_block(c: PatchFileChange) -> Seq<Seq<char>> {
    seq![
        Seq::<char>::empty(),
        "• Edited "@ + c.path@ + " (+"@ + dec_spec(c.added_lines as nat) + " -"@ + dec_spec(c.removed_lines as nat)
            + ")"@,
    ] + lines_view(c.detail_lines@)
}

pub open spec fn change_blocks(cs: Seq<PatchFileChange>) -> Seq<Seq<char>>
    decreases cs.len(),
{
    if cs.len() == 0 {
        Seq::empty()
    } else {
        change_blocks(cs.drop_last()) + change_block(cs.last())
    }
}

/// Lines without the empty ones at their end.
pub open spec fn drop_empty_end(ls: Seq<Seq<char>>) -> Seq<Seq<char>>
    decreases ls.len(),
{
    if ls.len() > 0 && ls.last().len() == 0 {
        drop_empty_end(ls.drop_last())
    } else {
        ls
    }
}

pub open spec fn apply_output_preview_spec(r: PatchApplyResult) -> Seq<char> {
    join_lines(
        drop_empty_end(
            seq![
                "ApplyPatch succeeded · Edited +"@ + dec_spec(r.added_lines as nat) + " lines -"@ + dec_spec(
                    r.removed_lines as nat,
                ) + " lines · "@ + file_count_label_spec(r.changes@.len()),
            ] + change_blocks(r.changes@),
        ),
    )
}

fn strings_to_lines(v: &Vec<String>) -> (r: Vec<Vec<char>>)
    ensures
        views(r@) == lines_view(v@),
{
    let mut out: Vec<Vec<char>> = Vec::new();
    let mut i: usize = 0;
    while i < v.len()
        invariant
            i <= v@.len(),
            views(out@) == lines_view(v@).take(i as int),
        decreases v@.len() - i,
    {
        push_line(&mut out, str_chars(v[i].as_str()));
        proof {
            assert(lines_view(v@).take(i + 1) =~= lines_view(v@).take(i as int).push(v@[i as int]@));
        }
        i += 1;
    }
    assert(lines_view(v@).take(v@.len() as int) =~= lines_view(v@));
    out
}

/// The chat's report of an applied patch: the totals, then each file.
pub fn build_apply_patch_output_preview(result: &PatchApplyResult) -> (r: String)
    ensures
        r@ == apply_output_preview_spec(*result),
{
    let cs = &result.changes;
    let mut lines: Vec<Vec<char>> = Vec::new();
    let mut head = str_chars("ApplyPatch succeeded · Edited +");
    push_dec(&mut head, result.added_lines as u64);
    push_str(&mut head, " lines -");
    push_dec(&mut head, result.removed_lines as u64);
    push_str(&mut head, " lines · ");
    push_str(&mut head, file_count_label(cs.len()).as_str());
    push_line(&mut lines, head);
    let ghost h = views(lines@);
    let mut i: usize = 0;
    while i < cs.len()
        invariant
            i <= cs@.len(),
            views(lines@) == h + change_blocks(cs@.take(i as int)),
        decreases cs@.len() - i,
    {
        let c = &cs[i];
        proof {
            assert(cs@.take(i + 1).drop_last() =~= cs@.take(i as int));
        }
        let ghost before = views(lines@);
        push_line(&mut lines, Vec::new());
        let mut l = str_chars("• Edited ");
        push_str(&mut l, c.path.as_str());
        push_str(&mut l, " (+");
        push_dec(&mut l, c.added_lines as u64);
        push_str(&mut l, " -");
        push_dec(&mut l, c.removed_lines as u64);
        push_str(&mut l, ")");
        push_line(&mut lines, l);
        append_all(&mut lines, strings_to_lines(&c.detail_lines));
        assert(views(lines@) =~= before + change_block(*c));
        i += 1;
    }
    assert(cs@.take(cs@.len() as int) =~= cs@);
    assert(views(lines@) =~= seq![
        "ApplyPatch succeeded · Edited +"@ + dec_spec(result.added_lines as nat) + " lines -"@ + dec_spec(
            result.removed_lines as nat,
        ) + " lines · "@ + file_count_label_spec(result.changes@.len()),
    ] + change_blocks(result.changes@));
    let ghost full = views(lines@);
    while lines.len() > 0 && lines[lines.len() - 1].len() == 0
        invariant
            drop_empty_end(views(lines@)) == drop_empty_end(full),
        decreases lines@.len(),
    {
        let ghost before = views(lines@);
        lines.pop();
        assert(views(lines@) =~= before.drop_last());
    }
    proof {
        if views(lines@).len() > 0 {
            assert(views(lines@).last() == lines@[lines@.len() - 1]@);
        }
    }
    assert(drop_empty_end(views(lines@)) == views(lines@));
    chars_to_string(&join_lines_exec(&lines))
}

} // verus!
