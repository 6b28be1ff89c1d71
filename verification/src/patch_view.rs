//! File text as patch lines, patch statistics and the change summaries shown
//! after an `apply_patch`.
use vstd::prelude::*;

use crate::hunk::{display_line, format_patch_display_line, lines_view, sat_add};
use crate::patch::{
    CodexPatchLine, HunkModel, LineModel, OpModel, normalize_newlines_chars, normalize_newlines_spec,
    parse_codex_patch, parse_patch_spec, parse_result_view, strings_view, ops_view, hunks_view,
    patch_lines_view,
};
use crate::text::{
    chars_to_string, dec_spec, join_lines, join_spec, push_chars, push_dec, push_str, split_chars,
    split_spec, str_chars, trim_end_chars, trim_end_spec, views, lemma_split_len,
};
use vstd::string::StrSliceExecFns;

verus! {

// ---------------------------------------------------------------------------
// File text <-> lines
// ---------------------------------------------------------------------------

/// A file's text as lines: split at `'\n'`, without the empty piece after a
/// final newline.
pub open spec fn text_lines_spec(text: Seq<char>) -> Seq<Seq<char>> {
    if text.len() == 0 {
        Seq::empty()
    } else if text.last() == '\n' {
        split_spec(text, '\n').drop_last()
    } else {
        split_spec(text, '\n')
    }
}

/// Lines back to a file's text: joined by `'\n'` with a final newline.
pub open spec fn lines_text_spec(lines: Seq<Seq<char>>) -> Seq<char> {
    if lines.len() == 0 {
        Seq::empty()
    } else {
        join_spec(lines, seq!['\n']).push('\n')
    }
}

pub fn text_to_patch_lines(text: &str) -> (r: Vec<String>)
    ensures
        lines_view(r@) == text_lines_spec(text@),
{
    let t = str_chars(text);
    let mut out: Vec<String> = Vec::new();
    if t.len() == 0 {
        assert(lines_view(out@) =~= text_lines_spec(text@));
        return out;
    }
    let parts = split_chars(&t, '\n');
    proof {
        lemma_split_len(t@, '\n');
    }
    let n = if t[t.len() - 1] == '\n' {
        parts.len() - 1
    } else {
        parts.len()
    };
    let mut i: usize = 0;
    while i < n
        invariant
            i <= n,
            n <= parts@.len(),
            parts@.len() == split_spec(t@, '\n').len(),
            forall|k: int| 0 <= k < parts@.len() ==> (#[trigger] parts@[k])@ == split_spec(t@, '\n')[k],
            lines_view(out@) =~= split_spec(t@, '\n').take(i as int),
        decreases n - i,
    {
        let s = chars_to_string(&parts[i]);
        let ghost before = out@;
        out.push(s);
        proof {
            assert(lines_view(out@) =~= lines_view(before).push(s@));
        }
        i += 1;
    }
    proof {
        if t@.last() == '\n' {
            assert(split_spec(t@, '\n').take(n as int) =~= split_spec(t@, '\n').drop_last());
        } else {
            assert(split_spec(t@, '\n').take(n as int) =~= split_spec(t@, '\n'));
        }
    }
    out
}

pub fn patch_lines_to_text(lines: &Vec<String>) -> (r: String)
    ensures
        r@ == lines_text_spec(lines_view(lines@)),
{
    let mut out: Vec<char> = Vec::new();
    if lines.len() == 0 {
        return chars_to_string(&out);
    }
    let mut i: usize = 0;
    while i < lines.len()
        invariant
            i <= lines.len(),
            out@ == join_spec(lines_view(lines@.take(i as int)), seq!['\n']),
        decreases lines.len() - i,
    {
        let ghost before = out@;
        if i > 0 {
            out.push('\n');
        }
        push_str(&mut out, lines[i].as_str());
        proof {
            let vs = lines_view(lines@.take(i + 1));
            assert(vs.drop_last() =~= lines_view(lines@.take(i as int)));
            assert(vs.last() == lines@[i as int]@);
            if i == 0 {
                assert(out@ =~= vs[0]);
            } else {
                assert(out@ =~= before + seq!['\n'] + vs.last());
            }
        }
        i += 1;
    }
    out.push('\n');
    assert(lines@.take(lines@.len() as int) =~= lines@);
    chars_to_string(&out)
}

// ---------------------------------------------------------------------------
// Labels and statistics
// ---------------------------------------------------------------------------

pub open spec fn file_count_label_spec(count: nat) -> Seq<char> {
    if count == 1 {
        dec_spec(count) + " file"@
    } else {
        dec_spec(count) + " files"@
    }
}

/// "0 files", "1 file", "{n} files".
pub fn file_count_label(count: usize) -> (r: String)
    ensures
        r@ == file_count_label_spec(count as nat),
{
    let mut out: Vec<char> = Vec::new();
    push_dec(&mut out, count as u64);
    if count == 1 {
        push_str(&mut out, " file");
    } else {
        push_str(&mut out, " files");
    }
    chars_to_string(&out)
}

pub struct PatchStatsModel {
    pub file_count: nat,
    pub added_lines: nat,
    pub removed_lines: nat,
    pub added_chars: nat,
    pub removed_chars: nat,
}

#[derive(Debug, Clone, PartialEq, Eq)]
pub struct PatchTextStats {
    pub file_count: usize,
    pub added_lines: usize,
    pub removed_lines: usize,
    pub added_chars: usize,
    pub removed_chars: usize,
}

impl View for PatchTextStats {
    type V = PatchStatsModel;

    open spec fn view(&self) -> PatchStatsModel {
        PatchStatsModel {
            file_count: self.file_count as nat,
            added_lines: self.added_lines as nat,
            removed_lines: self.removed_lines as nat,
            added_chars: self.added_chars as nat,
            removed_chars: self.removed_chars as nat,
        }
    }
}

pub open spec fn zero_stats(file_count: nat) -> PatchStatsModel {
    PatchStatsModel { file_count, added_lines: 0, removed_lines: 0, added_chars: 0, removed_chars: 0 }
}

/// Counts the lines of an added file.
pub open spec fn stats_add_lines(st: PatchStatsModel, lines: Seq<Seq<char>>) -> PatchStatsModel
    decreases lines.len(),
{
    if lines.len() == 0 {
        st
    } else {
        let s = stats_add_lines(st, lines.drop_last());
        PatchStatsModel {
            added_lines: sat_add(s.added_lines, 1),
            added_chars: sat_add(s.added_chars, lines.last().len()),
            ..s
        }
    }
}

/// Counts the added and deleted lines of a hunk body.
pub open spec fn stats_hunk_lines(st: PatchStatsModel, ls: Seq<LineModel>) -> PatchStatsModel
    decreases ls.len(),
{
    if ls.len() == 0 {
        st
    } else {
        let s = stats_hunk_lines(st, ls.drop_last());
        match ls.last() {
            LineModel::Add(t) => PatchStatsModel {
                added_lines: sat_add(s.added_lines, 1),
                added_chars: sat_add(s.added_chars, t.len()),
                ..s
            },
            LineModel::Delete(t) => PatchStatsModel {
                removed_lines: sat_add(s.removed_lines, 1),
                removed_chars: sat_add(s.removed_chars, t.len()),
                ..s
            },
            LineModel::Context(_) => s,
        }
    }
}

pub open spec fn stats_hunks(st: PatchStatsModel, hs: Seq<HunkModel>) -> PatchStatsModel
    decreases hs.len(),
{
    if hs.len() == 0 {
        st
    } else {
        stats_hunk_lines(stats_hunks(st, hs.drop_last()), hs.last().lines)
    }
}

pub open spec fn stats_ops(st: PatchStatsModel, ops: Seq<OpModel>) -> PatchStatsModel
    decreases ops.len(),
{
    if ops.len() == 0 {
        st
    } else {
        let s = stats_ops(st, ops.drop_last());
        match ops.last() {
            OpModel::Add { lines, .. } => stats_add_lines(s, lines),
            OpModel::Delete { .. } => s,
            OpModel::Update { hunks, .. } => stats_hunks(s, hunks),
        }
    }
}

/// Statistics of a patch text; all zero when it does not parse.
pub open spec fn patch_stats_spec(text: Seq<char>) -> PatchStatsModel {
    match parse_patch_spec(text) {
        Ok(ops) => stats_ops(zero_stats(ops.len()), ops),
        Err(_) => zero_stats(0),
    }
}

fn sat(a: usize, b: usize) -> (r: usize)
    ensures
        r as nat == sat_add(a as nat, b as nat),
{
    a.saturating_add(b)
}

pub fn summarize_patch_text(patch_text: &str) -> (r: PatchTextStats)
    ensures
        r@ == patch_stats_spec(patch_text@),
{
    let parsed = parse_codex_patch(patch_text);
    let operations = match parsed {
        Ok(ops) => ops,
        Err(_) => {
            return PatchTextStats {
                file_count: 0,
                added_lines: 0,
                removed_lines: 0,
                added_chars: 0,
                removed_chars: 0,
            };
        },
    };
    let ghost ov = ops_view(operations@);
    let mut stats = PatchTextStats {
        file_count: operations.len(),
        added_lines: 0,
        removed_lines: 0,
        added_chars: 0,
        removed_chars: 0,
    };
    let mut i: usize = 0;
    while i < operations.len()
        invariant
            i <= operations.len(),
            ov == ops_view(operations@),
            stats@ == stats_ops(zero_stats(ov.len()), ov.take(i as int)),
        decreases operations.len() - i,
    {
        proof {
            assert(ov.take(i + 1).drop_last() =~= ov.take(i as int));
        }
        match &operations[i] {
            crate::patch::CodexPatchOperation::Add { lines, .. } => {
                let ghost s0 = stats@;
                let ghost lv = strings_view(lines@);
                let mut j: usize = 0;
                while j < lines.len()
                    invariant
                        j <= lines.len(),
                        lv == strings_view(lines@),
                        stats@ == stats_add_lines(s0, lv.take(j as int)),
                    decreases lines.len() - j,
                {
                    proof {
                        assert(lv.take(j + 1).drop_last() =~= lv.take(j as int));
                    }
                    let n = lines[j].as_str().unicode_len();
                    stats.added_lines = sat(stats.added_lines, 1);
                    stats.added_chars = sat(stats.added_chars, n);
                    j += 1;
                }
                proof {
                    assert(lv.take(lv.len() as int) =~= lv);
                }
            },
            crate::patch::CodexPatchOperation::Delete { .. } => {},
            crate::patch::CodexPatchOperation::Update { hunks, .. } => {
                let ghost s0 = stats@;
                let ghost hv = hunks_view(hunks@);
                let mut j: usize = 0;
                while j < hunks.len()
                    invariant
                        j <= hunks.len(),
                        hv == hunks_view(hunks@),
                        stats@ == stats_hunks(s0, hv.take(j as int)),
                    decreases hunks.len() - j,
                {
                    proof {
                        assert(hv.take(j + 1).drop_last() =~= hv.take(j as int));
                    }
                    let hunk = &hunks[j];
                    let ghost s1 = stats@;
                    let ghost pl = patch_lines_view(hunk.lines@);
                    let mut k: usize = 0;
                    while k < hunk.lines.len()
                        invariant
                            k <= hunk.lines.len(),
                            pl == patch_lines_view(hunk.lines@),
                            stats@ == stats_hunk_lines(s1, pl.take(k as int)),
                        decreases hunk.lines.len() - k,
                    {
                        proof {
                            assert(pl.take(k + 1).drop_last() =~= pl.take(k as int));
                        }
                        match &hunk.lines[k] {
                            CodexPatchLine::Add(t) => {
                                let n = t.as_str().unicode_len();
                                stats.added_lines = sat(stats.added_lines, 1);
                                stats.added_chars = sat(stats.added_chars, n);
                            },
                            CodexPatchLine::Delete(t) => {
                                let n = t.as_str().unicode_len();
                                stats.removed_lines = sat(stats.removed_lines, 1);
                                stats.removed_chars = sat(stats.removed_chars, n);
                            },
                            CodexPatchLine::Context(_) => {},
                        }
                        k += 1;
                    }
                    proof {
                        assert(pl.take(pl.len() as int) =~= pl);
                    }
                    j += 1;
                }
                proof {
                    assert(hv.take(hv.len() as int) =~= hv);
                }
            },
        }
        i += 1;
    }
    proof {
        assert(ov.take(ov.len() as int) =~= ov);
    }
    stats
}

/// "Edited +{a} chars -{r} chars · {n files}" and the normalized patch text.
pub open spec fn apply_patch_input_preview_spec(text: Seq<char>) -> Seq<char> {
    let st = patch_stats_spec(text);
    "Edited +"@ + dec_spec(st.added_chars) + " chars -"@ + dec_spec(st.removed_chars)
        + " chars · "@ + file_count_label_spec(st.file_count) + seq!['\n']
        + trim_end_spec(normalize_newlines_spec(text))
}

pub fn build_apply_patch_input_preview(patch_text: &str) -> (r: String)
    ensures
        r@ == apply_patch_input_preview_spec(patch_text@),
{
    let stats = summarize_patch_text(patch_text);
    let mut out: Vec<char> = Vec::new();
    push_str(&mut out, "Edited +");
    push_dec(&mut out, stats.added_chars as u64);
    push_str(&mut out, " chars -");
    push_dec(&mut out, stats.removed_chars as u64);
    push_str(&mut out, " chars · ");
    let label = file_count_label(stats.file_count);
    push_str(&mut out, label.as_str());
    out.push('\n');
    let t = str_chars(patch_text);
    let n = normalize_newlines_chars(&t);
    let tr = trim_end_chars(&n);
    push_chars(&mut out, &tr);
    assert(out@ =~= apply_patch_input_preview_spec(patch_text@));
    chars_to_string(&out)
}

// ---------------------------------------------------------------------------
// Change view of an applied patch
// ---------------------------------------------------------------------------

pub open spec fn numbered_lines(lines: Seq<Seq<char>>, marker: char) -> Seq<Seq<char>> {
    Seq::new(lines.len(), |i: int| display_line((i + 1) as nat, Some(marker), lines[i]))
}

fn numbered_detail_lines(lines: &Vec<String>, marker: char) -> (r: Vec<String>)
    requires
        lines@.len() < usize::MAX,
    ensures
        lines_view(r@) == numbered_lines(lines_view(lines@), marker),
{
    let mut out: Vec<String> = Vec::new();
    let mut i: usize = 0;
    while i < lines.len()
        invariant
            i <= lines.len(),
            lines@.len() < usize::MAX,
            lines_view(out@) =~= numbered_lines(lines_view(lines@), marker).take(i as int),
        decreases lines.len() - i,
    {
        let s = format_patch_display_line(i + 1, Some(marker), &lines[i]);
        let ghost before = out@;
        out.push(s);
        proof {
            assert(lines_view(out@) =~= lines_view(before).push(s@));
        }
        i += 1;
    }
    out
}

/// The numbered view of an added file.
pub fn build_added_file_detail_lines(lines: &Vec<String>) -> (r: Vec<String>)
    requires
        lines@.len() < usize::MAX,
    ensures
        lines_view(r@) == numbered_lines(lines_view(lines@), '+'),
{
    numbered_detail_lines(lines, '+')
}

/// The numbered view of a deleted file.
pub fn build_deleted_file_detail_lines(lines: &Vec<String>) -> (r: Vec<String>)
    requires
        lines@.len() < usize::MAX,
    ensures
        lines_view(r@) == numbered_lines(lines_view(lines@), '-'),
{
    numbered_detail_lines(lines, '-')
}


// ---------------------------------------------------------------------------
// Laws
// ---------------------------------------------------------------------------

proof fn lemma_split_append_plain(s: Seq<char>, t: Seq<char>, c: char)
    requires
        !t.contains(c),
    ensures
        split_spec(s + t, c) == split_spec(s, c).update(
            split_spec(s, c).len() - 1,
            split_spec(s, c).last() + t,
        ),
    decreases t.len(),
{
    lemma_split_len(s, c);
    if t.len() == 0 {
        assert(s + t =~= s);
        assert(split_spec(s, c).last() + t =~= split_spec(s, c).last());
        assert(split_spec(s, c).update(split_spec(s, c).len() - 1, split_spec(s, c).last())
            =~= split_spec(s, c));
    } else {
        let t2 = t.drop_last();
        assert(!t2.contains(c)) by {
            if t2.contains(c) {
                let k = choose|k: int| 0 <= k < t2.len() && t2[k] == c;
                assert(t[k] == c);
            }
        }
        lemma_split_append_plain(s, t2, c);
        assert((s + t).drop_last() =~= s + t2);
        assert((s + t).last() == t.last());
        assert(t.last() != c) by {
            assert(t[t.len() - 1] == t.last());
        }
        lemma_split_len(s + t2, c);
        assert(split_spec(s, c).last() + t =~= (split_spec(s, c).last() + t2).push(t.last()));
        assert(split_spec(s + t, c) =~= split_spec(s, c).update(
            split_spec(s, c).len() - 1,
            split_spec(s, c).last() + t,
        ));
    }
}

proof fn lemma_split_join(lines: Seq<Seq<char>>)
    requires
        lines.len() > 0,
        forall|i: int| 0 <= i < lines.len() ==> !(#[trigger] lines[i]).contains('\n'),
    ensures
        split_spec(join_spec(lines, seq!['\n']), '\n') == lines,
    decreases lines.len(),
{
    let e = Seq::<char>::empty();
    if lines.len() == 1 {
        lemma_split_append_plain(e, lines[0], '\n');
        assert(e + lines[0] =~= lines[0]);
        assert(split_spec(e, '\n') =~= seq![e]);
        assert(seq![e].update(0, e + lines[0]) =~= lines);
    } else {
        let init = lines.drop_last();
        assert forall|i: int| 0 <= i < init.len() implies !(#[trigger] init[i]).contains('\n') by {
            assert(init[i] == lines[i]);
        }
        lemma_split_join(init);
        let j = join_spec(init, seq!['\n']);
        assert(!lines.last().contains('\n')) by {
            assert(lines[lines.len() - 1] == lines.last());
        }
        lemma_split_append_plain(j.push('\n'), lines.last(), '\n');
        assert(j + seq!['\n'] + lines.last() =~= j.push('\n') + lines.last());
        assert(j.push('\n').drop_last() =~= j);
        lemma_split_len(j, '\n');
        assert(split_spec(j.push('\n'), '\n') =~= init.push(e));
        assert(init.push(e).update(init.len() as int, e + lines.last()) =~= lines);
    }
}

/// Law: joining lines that hold no newline into a file's text and splitting
/// that text again gives the same lines.
pub proof fn lemma_lines_text_roundtrip(lines: Seq<Seq<char>>)
    requires
        forall|i: int| 0 <= i < lines.len() ==> !(#[trigger] lines[i]).contains('\n'),
    ensures
        text_lines_spec(lines_text_spec(lines)) == lines,
{
    if lines.len() > 0 {
        let j = join_spec(lines, seq!['\n']);
        lemma_split_join(lines);
        let t = j.push('\n');
        assert(t.drop_last() =~= j);
        lemma_split_len(j, '\n');
        assert(split_spec(t, '\n') =~= lines.push(Seq::<char>::empty()));
        assert(lines.push(Seq::<char>::empty()).drop_last() =~= lines);
    }
}

} // verus!
