//! Locating and replacing the hunks of an update operation in a file's lines.
use vstd::prelude::*;

use crate::patch::{CodexPatchHunk, CodexPatchLine, HunkModel, LineModel, opt_view, strings_view};
use crate::patch::{hunks_view, patch_lines_view};
use crate::text::{chars_to_string, dec_spec, push_chars, push_dec, push_str, str_chars};
use vstd::string::StrSliceExecFns;

verus! {

// ---------------------------------------------------------------------------
// Spec
// ---------------------------------------------------------------------------

/// The lines a hunk expects to find: context and deleted lines.
pub open spec fn old_block(ls: Seq<LineModel>) -> Seq<Seq<char>>
    decreases ls.len(),
{
    if ls.len() == 0 {
        Seq::empty()
    } else {
        let rest = old_block(ls.drop_last());
        match ls.last() {
            LineModel::Context(t) => rest.push(t),
            LineModel::Delete(t) => rest.push(t),
            LineModel::Add(_) => rest,
        }
    }
}

/// The lines a hunk leaves behind: context and added lines.
pub open spec fn new_block(ls: Seq<LineModel>) -> Seq<Seq<char>>
    decreases ls.len(),
{
    if ls.len() == 0 {
        Seq::empty()
    } else {
        let rest = new_block(ls.drop_last());
        match ls.last() {
            LineModel::Context(t) => rest.push(t),
            LineModel::Add(t) => rest.push(t),
            LineModel::Delete(_) => rest,
        }
    }
}

/// `expected` occurs in `lines` at `k` (and reaches the end of the file when `eof`).
pub open spec fn block_at(lines: Seq<Seq<char>>, k: int, expected: Seq<Seq<char>>, eof: bool) -> bool {
    0 <= k && k + expected.len() <= lines.len() && block_eq(lines, k, expected) && (!eof || k
        + expected.len() == lines.len())
}

/// `lines[k..k + expected.len()] == expected`.
#[verifier::opaque]
pub open spec fn block_eq(lines: Seq<Seq<char>>, k: int, expected: Seq<Seq<char>>) -> bool {
    lines.subrange(k, k + expected.len()) == expected
}

/// The first line at or after `start` that equals `anchor`.
pub open spec fn first_anchor(lines: Seq<Seq<char>>, start: int, anchor: Seq<char>) -> Option<int> {
    if exists|k: int| start <= k < lines.len() && lines[k] == anchor {
        Some(
            choose|k: int|
                start <= k < lines.len() && lines[k] == anchor && forall|j: int|
                    start <= j < k ==> lines[j] != anchor,
        )
    } else {
        None
    }
}

/// The first position at or after `start` where the expected block sits; an
/// empty block sits at the end of the file.
pub open spec fn first_block(lines: Seq<Seq<char>>, start: int, expected: Seq<Seq<char>>, eof: bool) -> Option<
    int,
> {
    if expected.len() == 0 {
        Some(lines.len() as int)
    } else if exists|k: int| start <= k && block_at(lines, k, expected, eof) {
        Some(
            choose|k: int|
                start <= k && block_at(lines, k, expected, eof) && forall|j: int|
                    start <= j < k ==> !block_at(lines, j, expected, eof),
        )
    } else {
        None
    }
}

/// Where a hunk failed, with the file's lines at that moment.
pub enum HunkFailureModel {
    AnchorMissing { lines: Seq<Seq<char>>, search_start: nat, anchor: Seq<char> },
    LinesMissing { lines: Seq<Seq<char>>, search_start: nat, expected: Seq<Seq<char>>, eof: bool },
}

/// The line the hunk's replacement starts at, or the failure.
#[verifier::opaque]
pub open spec fn hunk_position(lines: Seq<Seq<char>>, h: HunkModel, cursor: nat) -> Result<
    nat,
    HunkFailureModel,
> {
    let old = old_block(h.lines);
    let search = match h.anchor {
        Some(a) => first_anchor(lines, cursor as int, a),
        None => Some(cursor as int),
    };
    match search {
        None => Err(
            HunkFailureModel::AnchorMissing {
                lines,
                search_start: cursor,
                anchor: h.anchor->0,
            },
        ),
        Some(s) => {
            if old.len() == 0 {
                if h.anchor is Some {
                    Ok((s + 1) as nat)
                } else {
                    Ok(if cursor <= lines.len() {
                        cursor
                    } else {
                        lines.len()
                    })
                }
            } else {
                match first_block(lines, s, old, h.eof) {
                    None => Err(
                        HunkFailureModel::LinesMissing {
                            lines,
                            search_start: s as nat,
                            expected: old,
                            eof: h.eof,
                        },
                    ),
                    Some(p) => Ok(p as nat),
                }
            }
        },
    }
}

/// `lines[..start] + new + lines[start + old_len..]`.
pub open spec fn splice_lines(lines: Seq<Seq<char>>, start: nat, old_len: nat, new: Seq<Seq<char>>) -> Seq<
    Seq<char>,
> {
    lines.take(start as int) + new + lines.skip((start + old_len) as int)
}

/// Applies the hunks in order; each one searches from where the previous one
/// ended.
pub open spec fn apply_hunks_spec(lines: Seq<Seq<char>>, hunks: Seq<HunkModel>, cursor: nat) -> Result<
    Seq<Seq<char>>,
    HunkFailureModel,
>
    decreases hunks.len(),
{
    if hunks.len() == 0 {
        Ok(lines)
    } else {
        let h = hunks[0];
        match hunk_position(lines, h, cursor) {
            Err(e) => Err(e),
            Ok(p) => apply_hunks_spec(
                splice_lines(lines, p, old_block(h.lines).len(), new_block(h.lines)),
                hunks.drop_first(),
                p + new_block(h.lines).len(),
            ),
        }
    }
}

// ---------------------------------------------------------------------------
// Lemmas
// ---------------------------------------------------------------------------

pub proof fn lemma_old_block_len(ls: Seq<LineModel>)
    ensures
        old_block(ls).len() <= ls.len(),
        new_block(ls).len() <= ls.len(),
    decreases ls.len(),
{
    if ls.len() > 0 {
        lemma_old_block_len(ls.drop_last());
    }
}

pub proof fn lemma_first_anchor_is(lines: Seq<Seq<char>>, start: int, a: Seq<char>, w: int)
    requires
        start <= w < lines.len(),
        lines[w] == a,
        forall|j: int| start <= j < w ==> lines[j] != a,
    ensures
        first_anchor(lines, start, a) == Some(w),
{
    assert(exists|k: int| start <= k < lines.len() && lines[k] == a);
    let c = choose|k: int|
        start <= k < lines.len() && lines[k] == a && forall|j: int| start <= j < k ==> lines[j] != a;
    assert(start <= w < lines.len() && lines[w] == a && forall|j: int|
        start <= j < w ==> lines[j] != a);
    assert(c == w) by {
        if c < w {
            assert(lines[c] != a);
        } else if c > w {
            assert(lines[w] != a);
        }
    }
}

pub proof fn lemma_first_anchor_props(lines: Seq<Seq<char>>, start: int, a: Seq<char>)
    ensures
        first_anchor(lines, start, a) matches Some(k) ==> start <= k < lines.len() && lines[k] == a,
{
    if exists|k: int| start <= k < lines.len() && lines[k] == a {
        let w = choose|k: int| start <= k < lines.len() && lines[k] == a;
        lemma_first_exists(lines, start, a, w);
    }
}

proof fn lemma_first_exists(lines: Seq<Seq<char>>, start: int, a: Seq<char>, w: int)
    requires
        start <= w < lines.len(),
        lines[w] == a,
    ensures
        exists|k: int|
            start <= k < lines.len() && lines[k] == a && forall|j: int|
                start <= j < k ==> lines[j] != a,
    decreases w - start,
{
    if exists|j: int| start <= j < w && lines[j] == a {
        let j = choose|j: int| start <= j < w && lines[j] == a;
        lemma_first_exists(lines, start, a, j);
    } else {
        assert(start <= w < lines.len() && lines[w] == a && forall|j: int|
            start <= j < w ==> lines[j] != a);
    }
}

pub proof fn lemma_first_block_is(lines: Seq<Seq<char>>, start: int, ex: Seq<Seq<char>>, eof: bool, w: int)
    requires
        ex.len() > 0,
        start <= w,
        block_at(lines, w, ex, eof),
        forall|j: int| start <= j < w ==> !block_at(lines, j, ex, eof),
    ensures
        first_block(lines, start, ex, eof) == Some(w),
{
    assert(exists|k: int| start <= k && block_at(lines, k, ex, eof));
    let c = choose|k: int|
        start <= k && block_at(lines, k, ex, eof) && forall|j: int|
            start <= j < k ==> !block_at(lines, j, ex, eof);
    assert(start <= w && block_at(lines, w, ex, eof) && forall|j: int|
        start <= j < w ==> !block_at(lines, j, ex, eof));
    assert(c == w) by {
        if c < w {
            assert(!block_at(lines, c, ex, eof));
        } else if c > w {
            assert(!block_at(lines, w, ex, eof));
        }
    }
}

pub proof fn lemma_first_block_props(lines: Seq<Seq<char>>, start: int, ex: Seq<Seq<char>>, eof: bool)
    ensures
        ex.len() > 0 ==> (first_block(lines, start, ex, eof) matches Some(k) ==> start <= k
            && block_at(lines, k, ex, eof)),
{
    if ex.len() > 0 && exists|k: int| start <= k && block_at(lines, k, ex, eof) {
        let w = choose|k: int| start <= k && block_at(lines, k, ex, eof);
        lemma_first_block_exists(lines, start, ex, eof, w);
    }
}

proof fn lemma_first_block_exists(lines: Seq<Seq<char>>, start: int, ex: Seq<Seq<char>>, eof: bool, w: int)
    requires
        start <= w,
        block_at(lines, w, ex, eof),
    ensures
        exists|k: int|
            start <= k && block_at(lines, k, ex, eof) && forall|j: int|
                start <= j < k ==> !block_at(lines, j, ex, eof),
    decreases w - start,
{
    if exists|j: int| start <= j < w && block_at(lines, j, ex, eof) {
        let j = choose|j: int| start <= j < w && block_at(lines, j, ex, eof);
        lemma_first_block_exists(lines, start, ex, eof, j);
    } else {
        assert(start <= w && block_at(lines, w, ex, eof) && forall|j: int|
            start <= j < w ==> !block_at(lines, j, ex, eof));
    }
}

pub proof fn lemma_hunk_position_bound(lines: Seq<Seq<char>>, h: HunkModel, cursor: nat)
    ensures
        hunk_position(lines, h, cursor) matches Ok(p) ==> p + old_block(h.lines).len()
            <= lines.len(),
{
    reveal(hunk_position);
    match h.anchor {
        Some(a) => {
            lemma_first_anchor_props(lines, cursor as int, a);
            match first_anchor(lines, cursor as int, a) {
                Some(s) => lemma_first_block_props(lines, s, old_block(h.lines), h.eof),
                None => {},
            }
        },
        None => {
            lemma_first_block_props(lines, cursor as int, old_block(h.lines), h.eof);
        },
    }
}

// ---------------------------------------------------------------------------
// Executable search
// ---------------------------------------------------------------------------

pub open spec fn lines_view(v: Seq<String>) -> Seq<Seq<char>> {
    strings_view(v)
}

/// The first line at or after `start` equal to `anchor`.
pub fn find_anchor_line(lines: &Vec<String>, start: usize, anchor: &String) -> (r: Option<usize>)
    ensures
        match r {
            Some(k) => first_anchor(lines_view(lines@), start as int, anchor@) == Some(k as int),
            None => first_anchor(lines_view(lines@), start as int, anchor@) is None,
        },
{
    let ghost ls = lines_view(lines@);
    let mut k: usize = start;
    while k < lines.len()
        invariant
            start <= k,
            ls == lines_view(lines@),
            forall|j: int| start <= j < k && j < ls.len() ==> ls[j] != anchor@,
        decreases lines.len() - k,
    {
        if lines[k] == *anchor {
            proof {
                lemma_first_anchor_is(ls, start as int, anchor@, k as int);
            }
            return Some(k);
        }
        k += 1;
    }
    proof {
        assert(!(exists|x: int| start <= x < ls.len() && ls[x] == anchor@));
    }
    None
}

/// `lines[k..k + expected.len()] == expected` and the eof condition.
pub fn block_matches(lines: &Vec<String>, k: usize, expected: &Vec<String>, eof: bool) -> (r: bool)
    ensures
        r == block_at(lines_view(lines@), k as int, lines_view(expected@), eof),
{
    let ghost ls = lines_view(lines@);
    let ghost ex = lines_view(expected@);
    if k > lines.len() || expected.len() > lines.len() - k {
        return false;
    }
    let mut j: usize = 0;
    while j < expected.len()
        invariant
            j <= expected.len(),
            k + expected.len() <= lines.len(),
            ls == lines_view(lines@),
            ex == lines_view(expected@),
            forall|i: int| 0 <= i < j ==> ls[k + i] == ex[i],
        decreases expected.len() - j,
    {
        if lines[k + j] != expected[j] {
            proof {
                reveal(block_eq);
                assert(ls.subrange(k as int, k + ex.len())[j as int] != ex[j as int]);
            }
            return false;
        }
        j += 1;
    }
    proof {
        reveal(block_eq);
        assert(ls.subrange(k as int, k + ex.len()) =~= ex);
    }
    !eof || k + expected.len() == lines.len()
}

/// The first position at or after `start` where `expected` sits.
pub fn find_hunk_match(lines: &Vec<String>, start: usize, expected: &Vec<String>, eof: bool) -> (r:
    Option<usize>)
    ensures
        match r {
            Some(k) => first_block(lines_view(lines@), start as int, lines_view(expected@), eof)
                == Some(k as int),
            None => first_block(lines_view(lines@), start as int, lines_view(expected@), eof) is None,
        },
{
    let ghost ls = lines_view(lines@);
    let ghost ex = lines_view(expected@);
    if expected.len() == 0 {
        return Some(lines.len());
    }
    if expected.len() > lines.len() {
        proof {
            assert(!(exists|x: int| start <= x && block_at(ls, x, ex, eof)));
        }
        return None;
    }
    let max_start = lines.len() - expected.len();
    let mut k: usize = start;
    while k <= max_start
        invariant
            start <= k,
            max_start == lines.len() - expected.len(),
            expected.len() >= 1,
            ls == lines_view(lines@),
            ex == lines_view(expected@),
            forall|j: int| start <= j < k ==> !block_at(ls, j, ex, eof),
        decreases max_start + 1 - k,
    {
        if block_matches(lines, k, expected, eof) {
            proof {
                lemma_first_block_is(ls, start as int, ex, eof, k as int);
            }
            return Some(k);
        }
        k += 1;
    }
    proof {
        assert forall|x: int| start <= x implies !block_at(ls, x, ex, eof) by {
            if x < k {
            }
        }
    }
    None
}


// ---------------------------------------------------------------------------
// Reports
// ---------------------------------------------------------------------------

pub open spec fn sat_add(a: nat, b: nat) -> nat {
    if a + b > usize::MAX {
        usize::MAX as nat
    } else {
        a + b
    }
}

pub open spec fn count_add(ls: Seq<LineModel>) -> nat
    decreases ls.len(),
{
    if ls.len() == 0 {
        0
    } else {
        count_add(ls.drop_last()) + if ls.last() is Add {
            1nat
        } else {
            0nat
        }
    }
}

pub open spec fn count_delete(ls: Seq<LineModel>) -> nat
    decreases ls.len(),
{
    if ls.len() == 0 {
        0
    } else {
        count_delete(ls.drop_last()) + if ls.last() is Delete {
            1nat
        } else {
            0nat
        }
    }
}

/// Characters on added lines, summed with saturation.
pub open spec fn chars_add(ls: Seq<LineModel>) -> nat
    decreases ls.len(),
{
    if ls.len() == 0 {
        0
    } else {
        sat_add(
            chars_add(ls.drop_last()),
            match ls.last() {
                LineModel::Add(t) => t.len(),
                _ => 0,
            },
        )
    }
}

/// Characters on deleted lines, summed with saturation.
pub open spec fn chars_delete(ls: Seq<LineModel>) -> nat
    decreases ls.len(),
{
    if ls.len() == 0 {
        0
    } else {
        sat_add(
            chars_delete(ls.drop_last()),
            match ls.last() {
                LineModel::Delete(t) => t.len(),
                _ => 0,
            },
        )
    }
}

pub open spec fn spaces(n: nat) -> Seq<char> {
    Seq::new(n, |i: int| ' ')
}

/// `format!("{:>8}", s)`.
pub open spec fn pad8(s: Seq<char>) -> Seq<char> {
    if s.len() < 8 {
        spaces((8 - s.len()) as nat) + s
    } else {
        s
    }
}

/// One numbered line of the change view.
pub open spec fn display_line(line_no: nat, marker: Option<char>, text: Seq<char>) -> Seq<char> {
    match marker {
        Some(m) => pad8(dec_spec(line_no)) + seq![' ', m, ' '] + text,
        None => pad8(dec_spec(line_no)) + seq![' ', ' ', ' '] + text,
    }
}

pub open spec fn body_detail(ls: Seq<LineModel>, old_no: nat, new_no: nat) -> Seq<Seq<char>>
    decreases ls.len(),
{
    if ls.len() == 0 {
        Seq::empty()
    } else {
        match ls[0] {
            LineModel::Context(t) => seq![display_line(old_no, None, t)] + body_detail(
                ls.drop_first(),
                old_no + 1,
                new_no + 1,
            ),
            LineModel::Delete(t) => seq![display_line(old_no, Some('-'), t)] + body_detail(
                ls.drop_first(),
                old_no + 1,
                new_no,
            ),
            LineModel::Add(t) => seq![display_line(new_no, Some('+'), t)] + body_detail(
                ls.drop_first(),
                old_no,
                new_no + 1,
            ),
        }
    }
}

pub open spec fn has_context(ls: Seq<LineModel>) -> bool {
    exists|i: int| 0 <= i < ls.len() && (#[trigger] ls[i]) is Context
}

/// The numbered change view of one hunk replaced at `start`: the anchor line
/// first when the hunk has no context and the anchor sits right above.
#[verifier::opaque]
pub open spec fn hunk_detail(src: Seq<Seq<char>>, h: HunkModel, start: nat) -> Seq<Seq<char>> {
    let head = if !has_context(h.lines) && h.anchor is Some && start > 0 && start - 1 < src.len()
        && src[start - 1] == h.anchor->0 {
        seq![display_line(start, None, h.anchor->0)]
    } else {
        Seq::empty()
    };
    head + body_detail(h.lines, start + 1, start + 1)
}

pub struct ReportModel {
    pub detail: Seq<Seq<char>>,
    pub added_lines: nat,
    pub removed_lines: nat,
    pub added_chars: nat,
    pub removed_chars: nat,
}

pub open spec fn empty_report() -> ReportModel {
    ReportModel { detail: Seq::empty(), added_lines: 0, removed_lines: 0, added_chars: 0, removed_chars: 0 }
}

pub open spec fn add_report(rep: ReportModel, src: Seq<Seq<char>>, h: HunkModel, start: nat) -> ReportModel {
    ReportModel {
        detail: rep.detail + hunk_detail(src, h, start),
        added_lines: sat_add(rep.added_lines, count_add(h.lines)),
        removed_lines: sat_add(rep.removed_lines, count_delete(h.lines)),
        added_chars: sat_add(rep.added_chars, chars_add(h.lines)),
        removed_chars: sat_add(rep.removed_chars, chars_delete(h.lines)),
    }
}

/// Hunks applied in order, with the accumulated report.
pub open spec fn apply_spec(lines: Seq<Seq<char>>, hunks: Seq<HunkModel>, cursor: nat, rep: ReportModel) -> Result<
    (Seq<Seq<char>>, ReportModel),
    HunkFailureModel,
>
    decreases hunks.len(),
{
    if hunks.len() == 0 {
        Ok((lines, rep))
    } else {
        let h = hunks[0];
        match hunk_position(lines, h, cursor) {
            Err(e) => Err(e),
            Ok(p) => apply_spec(
                splice_lines(lines, p, old_block(h.lines).len(), new_block(h.lines)),
                hunks.drop_first(),
                p + new_block(h.lines).len(),
                add_report(rep, lines, h, p),
            ),
        }
    }
}

pub open spec fn total_hunk_lines(hunks: Seq<HunkModel>) -> nat
    decreases hunks.len(),
{
    if hunks.len() == 0 {
        0
    } else {
        hunks[0].lines.len() + total_hunk_lines(hunks.drop_first())
    }
}

#[derive(Debug, Clone, PartialEq, Eq)]
pub struct PatchHunkApplyReport {
    pub detail_lines: Vec<String>,
    pub added_lines: usize,
    pub removed_lines: usize,
    pub added_chars: usize,
    pub removed_chars: usize,
}

impl View for PatchHunkApplyReport {
    type V = ReportModel;

    open spec fn view(&self) -> ReportModel {
        ReportModel {
            detail: lines_view(self.detail_lines@),
            added_lines: self.added_lines as nat,
            removed_lines: self.removed_lines as nat,
            added_chars: self.added_chars as nat,
            removed_chars: self.removed_chars as nat,
        }
    }
}

/// Where a hunk could not be placed.
#[derive(Debug, Clone, PartialEq, Eq)]
pub enum PatchHunkFailure {
    AnchorMissing { lines: Vec<String>, search_start: usize, anchor: String },
    LinesMissing { lines: Vec<String>, search_start: usize, expected: Vec<String>, eof: bool },
}

impl View for PatchHunkFailure {
    type V = HunkFailureModel;

    open spec fn view(&self) -> HunkFailureModel {
        match self {
            PatchHunkFailure::AnchorMissing { lines, search_start, anchor } => HunkFailureModel::AnchorMissing {
                lines: lines_view(lines@),
                search_start: *search_start as nat,
                anchor: anchor@,
            },
            PatchHunkFailure::LinesMissing { lines, search_start, expected, eof } => HunkFailureModel::LinesMissing {
                lines: lines_view(lines@),
                search_start: *search_start as nat,
                expected: lines_view(expected@),
                eof: *eof,
            },
        }
    }
}

// ---------------------------------------------------------------------------
// Executable application
// ---------------------------------------------------------------------------

pub fn clone_lines(v: &Vec<String>) -> (r: Vec<String>)
    ensures
        lines_view(r@) == lines_view(v@),
{
    let mut out: Vec<String> = Vec::new();
    let mut i: usize = 0;
    while i < v.len()
        invariant
            i <= v.len(),
            lines_view(out@) =~= lines_view(v@.take(i as int)),
        decreases v.len() - i,
    {
        let c = v[i].clone();
        proof {
            assert(c@ == v@[i as int]@);
            assert(v@.take(i + 1) =~= v@.take(i as int).push(v@[i as int]));
        }
        let ghost before = out@;
        out.push(c);
        proof {
            assert(out@ =~= before.push(c));
            assert(lines_view(out@) =~= lines_view(before).push(c@));
            assert(lines_view(v@.take(i + 1)) =~= lines_view(v@.take(i as int)).push(v@[i as int]@));
        }
        i += 1;
    }
    assert(v@.take(v@.len() as int) =~= v@);
    out
}

/// Context and deleted lines of a hunk.
pub fn hunk_old_block(hunk: &CodexPatchHunk) -> (r: Vec<String>)
    ensures
        lines_view(r@) == old_block(hunk@.lines),
{
    let ghost pl = hunk@.lines;
    let mut out: Vec<String> = Vec::new();
    let mut i: usize = 0;
    while i < hunk.lines.len()
        invariant
            i <= hunk.lines.len(),
            pl == patch_lines_view(hunk.lines@),
            lines_view(out@) == old_block(pl.take(i as int)),
        decreases hunk.lines.len() - i,
    {
        let ghost before = lines_view(out@);
        proof {
            assert(pl.take(i + 1).drop_last() =~= pl.take(i as int));
        }
        match &hunk.lines[i] {
            CodexPatchLine::Context(t) => {
                out.push(t.clone());
            },
            CodexPatchLine::Delete(t) => {
                out.push(t.clone());
            },
            CodexPatchLine::Add(_) => {},
        }
        proof {
            assert(lines_view(out@) =~= old_block(pl.take(i + 1)));
        }
        i += 1;
    }
    assert(pl.take(pl.len() as int) =~= pl);
    out
}

/// Context and added lines of a hunk.
pub fn hunk_new_block(hunk: &CodexPatchHunk) -> (r: Vec<String>)
    ensures
        lines_view(r@) == new_block(hunk@.lines),
{
    let ghost pl = hunk@.lines;
    let mut out: Vec<String> = Vec::new();
    let mut i: usize = 0;
    while i < hunk.lines.len()
        invariant
            i <= hunk.lines.len(),
            pl == patch_lines_view(hunk.lines@),
            lines_view(out@) == new_block(pl.take(i as int)),
        decreases hunk.lines.len() - i,
    {
        proof {
            assert(pl.take(i + 1).drop_last() =~= pl.take(i as int));
        }
        match &hunk.lines[i] {
            CodexPatchLine::Context(t) => {
                out.push(t.clone());
            },
            CodexPatchLine::Add(t) => {
                out.push(t.clone());
            },
            CodexPatchLine::Delete(_) => {},
        }
        proof {
            assert(lines_view(out@) =~= new_block(pl.take(i + 1)));
        }
        i += 1;
    }
    assert(pl.take(pl.len() as int) =~= pl);
    out
}

fn sat(a: usize, b: usize) -> (r: usize)
    ensures
        r as nat == sat_add(a as nat, b as nat),
{
    a.saturating_add(b)
}

/// Added/deleted line and character counts of one hunk.
fn hunk_counts(hunk: &CodexPatchHunk) -> (r: (usize, usize, usize, usize))
    ensures
        r.0 as nat == count_add(hunk@.lines),
        r.1 as nat == count_delete(hunk@.lines),
        r.2 as nat == chars_add(hunk@.lines),
        r.3 as nat == chars_delete(hunk@.lines),
{
    let ghost pl = hunk@.lines;
    let mut a: usize = 0;
    let mut d: usize = 0;
    let mut ac: usize = 0;
    let mut dc: usize = 0;
    let mut i: usize = 0;
    while i < hunk.lines.len()
        invariant
            i <= hunk.lines.len(),
            pl == patch_lines_view(hunk.lines@),
            a as nat == count_add(pl.take(i as int)),
            d as nat == count_delete(pl.take(i as int)),
            ac as nat == chars_add(pl.take(i as int)),
            dc as nat == chars_delete(pl.take(i as int)),
            a <= i,
            d <= i,
        decreases hunk.lines.len() - i,
    {
        proof {
            assert(pl.take(i + 1).drop_last() =~= pl.take(i as int));
        }
        match &hunk.lines[i] {
            CodexPatchLine::Add(t) => {
                let n = t.as_str().unicode_len();
                a = a + 1;
                ac = sat(ac, n);
            },
            CodexPatchLine::Delete(t) => {
                let n = t.as_str().unicode_len();
                d = d + 1;
                dc = sat(dc, n);
            },
            CodexPatchLine::Context(_) => {},
        }
        i += 1;
    }
    assert(pl.take(pl.len() as int) =~= pl);
    (a, d, ac, dc)
}

/// `format!("{line_no:>8} {marker} {text}")`, or three spaces without a marker.
pub fn format_patch_display_line(line_no: usize, marker: Option<char>, text: &String) -> (r: String)
    ensures
        r@ == display_line(line_no as nat, marker, text@),
{
    let mut num: Vec<char> = Vec::new();
    push_dec(&mut num, line_no as u64);
    let mut out: Vec<char> = Vec::new();
    if num.len() < 8 {
        let pad = 8 - num.len();
        let mut k: usize = 0;
        while k < pad
            invariant
                k <= pad,
                out@ =~= spaces(k as nat),
            decreases pad - k,
        {
            out.push(' ');
            k += 1;
        }
    }
    push_chars(&mut out, &num);
    assert(out@ =~= pad8(dec_spec(line_no as nat)));
    out.push(' ');
    match marker {
        Some(m) => {
            out.push(m);
        },
        None => {
            out.push(' ');
        },
    }
    out.push(' ');
    push_str(&mut out, text.as_str());
    proof {
        match marker {
            Some(m) => {
                assert(out@ =~= pad8(dec_spec(line_no as nat)) + seq![' ', m, ' '] + text@);
            },
            None => {
                assert(out@ =~= pad8(dec_spec(line_no as nat)) + seq![' ', ' ', ' '] + text@);
            },
        }
    }
    chars_to_string(&out)
}

fn has_context_exec(hunk: &CodexPatchHunk) -> (r: bool)
    ensures
        r == has_context(hunk@.lines),
{
    let mut i: usize = 0;
    while i < hunk.lines.len()
        invariant
            i <= hunk.lines.len(),
            forall|k: int| 0 <= k < i ==> !(#[trigger] hunk@.lines[k] is Context),
        decreases hunk.lines.len() - i,
    {
        match &hunk.lines[i] {
            CodexPatchLine::Context(_) => {
                assert(hunk@.lines[i as int] is Context);
                return true;
            },
            _ => {},
        }
        i += 1;
    }
    false
}

/// The numbered change view of a hunk replaced at `replace_start`.
pub fn build_hunk_detail_lines(source_lines: &Vec<String>, hunk: &CodexPatchHunk, replace_start: usize) -> (r:
    Vec<String>)
    requires
        replace_start + hunk.lines@.len() + 1 <= usize::MAX,
    ensures
        lines_view(r@) == hunk_detail(lines_view(source_lines@), hunk@, replace_start as nat),
{
    reveal(hunk_detail);
    let ghost pl = hunk@.lines;
    let mut out: Vec<String> = Vec::new();
    let ctx = has_context_exec(hunk);
    if !ctx && replace_start > 0 && replace_start - 1 < source_lines.len() {
        match &hunk.anchor {
            Some(a) => {
                if source_lines[replace_start - 1] == *a {
                    out.push(format_patch_display_line(replace_start, None, a));
                }
            },
            None => {},
        }
    }
    let ghost head = lines_view(out@);
    let mut old_no: usize = replace_start + 1;
    let mut new_no: usize = replace_start + 1;
    let mut i: usize = 0;
    proof {
        assert(pl.skip(0) =~= pl);
        assert(lines_view(out@) + body_detail(pl, old_no as nat, new_no as nat) =~= hunk_detail(
            lines_view(source_lines@),
            hunk@,
            replace_start as nat,
        ));
    }
    while i < hunk.lines.len()
        invariant
            i <= hunk.lines.len(),
            pl == patch_lines_view(hunk.lines@),
            old_no <= replace_start + 1 + i,
            new_no <= replace_start + 1 + i,
            replace_start + hunk.lines@.len() + 1 <= usize::MAX,
            lines_view(out@) + body_detail(pl.skip(i as int), old_no as nat, new_no as nat)
                == hunk_detail(lines_view(source_lines@), hunk@, replace_start as nat),
        decreases hunk.lines.len() - i,
    {
        let ghost before = lines_view(out@);
        let ghost rest = pl.skip(i as int);
        let ghost o0 = old_no as nat;
        let ghost n0 = new_no as nat;
        proof {
            assert(rest[0] == pl[i as int]);
            assert(rest.drop_first() =~= pl.skip(i + 1));
        }
        match &hunk.lines[i] {
            CodexPatchLine::Context(t) => {
                out.push(format_patch_display_line(old_no, None, t));
                old_no += 1;
                new_no += 1;
            },
            CodexPatchLine::Delete(t) => {
                out.push(format_patch_display_line(old_no, Some('-'), t));
                old_no += 1;
            },
            CodexPatchLine::Add(t) => {
                out.push(format_patch_display_line(new_no, Some('+'), t));
                new_no += 1;
            },
        }
        proof {
            assert(lines_view(out@) =~= before.push(lines_view(out@).last()));
            assert(lines_view(out@) + body_detail(pl.skip(i + 1), old_no as nat, new_no as nat)
                =~= before + body_detail(rest, o0, n0));
        }
        i += 1;
    }
    proof {
        assert(pl.skip(pl.len() as int) =~= Seq::<LineModel>::empty());
        assert(lines_view(out@) + Seq::<Seq<char>>::empty() =~= lines_view(out@));
    }
    out
}


/// `lines[..start] + new + lines[start + old_len..]`.
pub fn splice_exec(lines: &Vec<String>, start: usize, old_len: usize, new: &Vec<String>) -> (r: Vec<
    String,
>)
    requires
        start + old_len <= lines.len(),
    ensures
        lines_view(r@) == splice_lines(lines_view(lines@), start as nat, old_len as nat, lines_view(new@)),
{
    let ghost ls = lines_view(lines@);
    let ghost nw = lines_view(new@);
    let mut out: Vec<String> = Vec::new();
    let mut i: usize = 0;
    while i < start
        invariant
            i <= start,
            start + old_len <= lines.len(),
            ls == lines_view(lines@),
            lines_view(out@) =~= ls.take(i as int),
        decreases start - i,
    {
        let c = lines[i].clone();
        let ghost before = out@;
        out.push(c);
        proof {
            assert(lines_view(out@) =~= lines_view(before).push(c@));
        }
        i += 1;
    }
    let mut j: usize = 0;
    while j < new.len()
        invariant
            j <= new.len(),
            nw == lines_view(new@),
            lines_view(out@) =~= ls.take(start as int) + nw.take(j as int),
        decreases new.len() - j,
    {
        let c = new[j].clone();
        let ghost before = out@;
        out.push(c);
        proof {
            assert(lines_view(out@) =~= lines_view(before).push(c@));
        }
        j += 1;
    }
    let mut k: usize = start + old_len;
    while k < lines.len()
        invariant
            start + old_len <= k <= lines.len(),
            ls == lines_view(lines@),
            lines_view(out@) =~= ls.take(start as int) + nw + ls.subrange(
                (start + old_len) as int,
                k as int,
            ),
        decreases lines.len() - k,
    {
        let c = lines[k].clone();
        let ghost before = out@;
        out.push(c);
        proof {
            assert(lines_view(out@) =~= lines_view(before).push(c@));
        }
        k += 1;
    }
    out
}

/// Where the hunk's replacement starts, or why it cannot be placed.
pub fn hunk_position_exec(lines: &Vec<String>, hunk: &CodexPatchHunk, cursor: usize) -> (r: Result<
    usize,
    PatchHunkFailure,
>)
    ensures
        match r {
            Ok(p) => hunk_position(lines_view(lines@), hunk@, cursor as nat) == Ok::<
                nat,
                HunkFailureModel,
            >(p as nat),
            Err(f) => hunk_position(lines_view(lines@), hunk@, cursor as nat) == Err::<
                nat,
                HunkFailureModel,
            >(f@),
        },
{
    reveal(hunk_position);
    let ghost ls = lines_view(lines@);
    let old_block_v = hunk_old_block(hunk);
    match &hunk.anchor {
        Some(a) => {
            match find_anchor_line(lines, cursor, a) {
                Some(k) => {
                    proof {
                        lemma_first_anchor_props(ls, cursor as int, a@);
                        assert(ls.len() == lines@.len());
                        assert(k < lines.len());
                    }
                    if old_block_v.len() == 0 {
                        Ok(k + 1)
                    } else {
                        match find_hunk_match(lines, k, &old_block_v, hunk.eof) {
                            Some(p) => Ok(p),
                            None => Err(
                                PatchHunkFailure::LinesMissing {
                                    lines: clone_lines(lines),
                                    search_start: k,
                                    expected: old_block_v,
                                    eof: hunk.eof,
                                },
                            ),
                        }
                    }
                },
                None => Err(
                    PatchHunkFailure::AnchorMissing {
                        lines: clone_lines(lines),
                        search_start: cursor,
                        anchor: a.clone(),
                    },
                ),
            }
        },
        None => {
            if old_block_v.len() == 0 {
                if cursor <= lines.len() {
                    Ok(cursor)
                } else {
                    Ok(lines.len())
                }
            } else {
                match find_hunk_match(lines, cursor, &old_block_v, hunk.eof) {
                    Some(p) => Ok(p),
                    None => Err(
                        PatchHunkFailure::LinesMissing {
                            lines: clone_lines(lines),
                            search_start: cursor,
                            expected: old_block_v,
                            eof: hunk.eof,
                        },
                    ),
                }
            }
        },
    }
}

/// Adds one hunk's change view and counts to the report.
fn extend_report(report: &mut PatchHunkApplyReport, lines: &Vec<String>, hunk: &CodexPatchHunk, start: usize)
    requires
        start + hunk.lines@.len() + 1 <= usize::MAX,
    ensures
        final(report)@ == add_report(old(report)@, lines_view(lines@), hunk@, start as nat),
{
    let detail = build_hunk_detail_lines(lines, hunk, start);
    let (a, d, ac, dc) = hunk_counts(hunk);
    let ghost rep_before = report@;
    let mut di: usize = 0;
    while di < detail.len()
        invariant
            di <= detail.len(),
            lines_view(report.detail_lines@) =~= rep_before.detail + lines_view(detail@).take(
                di as int,
            ),
            report.added_lines == rep_before.added_lines,
            report.removed_lines == rep_before.removed_lines,
            report.added_chars == rep_before.added_chars,
            report.removed_chars == rep_before.removed_chars,
        decreases detail.len() - di,
    {
        let c = detail[di].clone();
        let ghost before = report.detail_lines@;
        report.detail_lines.push(c);
        proof {
            assert(lines_view(report.detail_lines@) =~= lines_view(before).push(c@));
        }
        di += 1;
    }
    report.added_lines = sat(report.added_lines, a);
    report.removed_lines = sat(report.removed_lines, d);
    report.added_chars = sat(report.added_chars, ac);
    report.removed_chars = sat(report.removed_chars, dc);
    proof {
        assert(lines_view(detail@).take(detail@.len() as int) =~= lines_view(detail@));
        assert(report@ =~= add_report(rep_before, lines_view(lines@), hunk@, start as nat));
    }
}

/// Applies the hunks of one update operation to a file's lines; on failure
/// the lines are left as the earlier hunks made them.
pub fn apply_patch_hunks(lines: &mut Vec<String>, hunks: &Vec<CodexPatchHunk>) -> (r: Result<
    PatchHunkApplyReport,
    PatchHunkFailure,
>)
    requires
        old(lines)@.len() + total_hunk_lines(hunks_view(hunks@)) + 1 <= usize::MAX,
    ensures
        match r {
            Ok(rep) => apply_spec(lines_view(old(lines)@), hunks_view(hunks@), 0, empty_report())
                == Ok::<(Seq<Seq<char>>, ReportModel), HunkFailureModel>((lines_view(final(lines)@), rep@)),
            Err(f) => apply_spec(lines_view(old(lines)@), hunks_view(hunks@), 0, empty_report())
                == Err::<(Seq<Seq<char>>, ReportModel), HunkFailureModel>(f@),
        },
{
    let ghost hs = hunks_view(hunks@);
    let ghost whole = apply_spec(lines_view(old(lines)@), hs, 0, empty_report());
    let mut cursor: usize = 0;
    let mut report = PatchHunkApplyReport {
        detail_lines: Vec::new(),
        added_lines: 0,
        removed_lines: 0,
        added_chars: 0,
        removed_chars: 0,
    };
    proof {
        assert(lines_view(report.detail_lines@) =~= Seq::<Seq<char>>::empty());
        assert(report@ =~= empty_report());
        assert(hs.skip(0) =~= hs);
    }
    let mut i: usize = 0;
    while i < hunks.len()
        invariant
            i <= hunks.len(),
            hs == hunks_view(hunks@),
            lines@.len() + total_hunk_lines(hs.skip(i as int)) + 1 <= usize::MAX,
            whole == apply_spec(lines_view(lines@), hs.skip(i as int), cursor as nat, report@),
            whole == apply_spec(lines_view(old(lines)@), hs, 0, empty_report()),
        decreases hunks.len() - i,
    {
        let hunk = &hunks[i];
        let ghost ls = lines_view(lines@);
        let ghost h = hs[i as int];
        proof {
            assert(hs.skip(i as int)[0] == h);
            assert(hs.skip(i as int).drop_first() =~= hs.skip(i + 1));
            lemma_old_block_len(h.lines);
            lemma_hunk_position_bound(ls, h, cursor as nat);
        }
        let replace_start = match hunk_position_exec(lines, hunk, cursor) {
            Ok(p) => p,
            Err(f) => {
                proof {
                    assert(hunk@ == h);
                    let sk = hs.skip(i as int);
                    assert(sk.len() > 0);
                    assert(apply_spec(ls, sk, cursor as nat, report@) == Err::<
                        (Seq<Seq<char>>, ReportModel),
                        HunkFailureModel,
                    >(f@));
                }
                return Err(f);
            },
        };
        let old_block_v = hunk_old_block(hunk);
        let new_block_v = hunk_new_block(hunk);
        extend_report(&mut report, lines, hunk, replace_start);
        let next = splice_exec(lines, replace_start, old_block_v.len(), &new_block_v);
        *lines = next;
        cursor = replace_start + new_block_v.len();
        i += 1;
    }
    proof {
        assert(hs.skip(i as int).len() == 0);
    }
    Ok(report)
}


// ---------------------------------------------------------------------------
// Laws
// ---------------------------------------------------------------------------

pub open spec fn context_only(ls: Seq<LineModel>) -> bool {
    forall|i: int| 0 <= i < ls.len() ==> (#[trigger] ls[i]) is Context
}

proof fn lemma_context_blocks_equal(ls: Seq<LineModel>)
    requires
        context_only(ls),
    ensures
        old_block(ls) == new_block(ls),
    decreases ls.len(),
{
    if ls.len() > 0 {
        assert(context_only(ls.drop_last())) by {
            assert forall|i: int| 0 <= i < ls.drop_last().len() implies (#[trigger] ls.drop_last()[i]) is Context by {
                assert(ls.drop_last()[i] == ls[i]);
            }
        }
        assert(ls[ls.len() - 1] is Context);
        lemma_context_blocks_equal(ls.drop_last());
    }
}

proof fn lemma_hunk_position_block(lines: Seq<Seq<char>>, h: HunkModel, cursor: nat)
    ensures
        hunk_position(lines, h, cursor) matches Ok(p) ==> (old_block(h.lines).len() > 0 ==> block_at(
            lines,
            p as int,
            old_block(h.lines),
            h.eof,
        )),
{
    reveal(hunk_position);
    let old = old_block(h.lines);
    match h.anchor {
        Some(a) => {
            lemma_first_anchor_props(lines, cursor as int, a);
            match first_anchor(lines, cursor as int, a) {
                Some(k) => lemma_first_block_props(lines, k, old, h.eof),
                None => {},
            }
        },
        None => {
            lemma_first_block_props(lines, cursor as int, old, h.eof);
        },
    }
}

/// Law: a hunk made only of context lines changes nothing where it applies.
pub proof fn lemma_context_hunk_keeps_lines(lines: Seq<Seq<char>>, h: HunkModel, cursor: nat)
    requires
        context_only(h.lines),
    ensures
        hunk_position(lines, h, cursor) matches Ok(p) ==> splice_lines(
            lines,
            p,
            old_block(h.lines).len(),
            new_block(h.lines),
        ) == lines,
{
    lemma_context_blocks_equal(h.lines);
    lemma_hunk_position_bound(lines, h, cursor);
    if hunk_position(lines, h, cursor) is Ok {
        let p = hunk_position(lines, h, cursor)->Ok_0;
        let old = old_block(h.lines);
        if old.len() > 0 {
            lemma_hunk_position_block(lines, h, cursor);
            reveal(block_eq);
            assert(lines.subrange(p as int, (p + old.len()) as int) == old);
        }
        assert(splice_lines(lines, p, old.len(), old) =~= lines);
    }
}

/// Law: a placed hunk leaves the lines before its position as they were,
/// puts its new block right there, and keeps the rest after the replaced
/// block; the file grows by the new block and shrinks by the old one.
pub proof fn lemma_hunk_replaces_block(lines: Seq<Seq<char>>, h: HunkModel, cursor: nat)
    ensures
        hunk_position(lines, h, cursor) matches Ok(p) ==> {
            let old = old_block(h.lines);
            let new = new_block(h.lines);
            let out = splice_lines(lines, p, old.len(), new);
            &&& out.len() == lines.len() - old.len() + new.len()
            &&& out.take(p as int) == lines.take(p as int)
            &&& out.subrange(p as int, (p + new.len()) as int) == new
            &&& out.skip((p + new.len()) as int) == lines.skip((p + old.len()) as int)
        },
{
    lemma_hunk_position_bound(lines, h, cursor);
    if hunk_position(lines, h, cursor) is Ok {
        let p = hunk_position(lines, h, cursor)->Ok_0;
        let old = old_block(h.lines);
        let new = new_block(h.lines);
        let out = splice_lines(lines, p, old.len(), new);
        assert(out.take(p as int) =~= lines.take(p as int));
        assert(out.subrange(p as int, (p + new.len()) as int) =~= new);
        assert(out.skip((p + new.len()) as int) =~= lines.skip((p + old.len()) as int));
    }
}

/// Law: a hunk with an expected block is placed where that block sits, at or
/// after the search start, and not before any earlier place it sits; with
/// `eof` the block ends the file.
pub proof fn lemma_hunk_placed_at_first_match(lines: Seq<Seq<char>>, h: HunkModel, cursor: nat)
    requires
        old_block(h.lines).len() > 0,
        h.anchor is None,
    ensures
        hunk_position(lines, h, cursor) matches Ok(p) ==> {
            &&& cursor <= p
            &&& lines.subrange(p as int, (p + old_block(h.lines).len()) as int) == old_block(h.lines)
            &&& (h.eof ==> p + old_block(h.lines).len() == lines.len())
            &&& forall|j: int| cursor <= j < p ==> !block_at(lines, j, old_block(h.lines), h.eof)
        },
{
    reveal(hunk_position);
    let old = old_block(h.lines);
    if first_block(lines, cursor as int, old, h.eof) is Some {
        let w = choose|k: int| cursor <= k && block_at(lines, k, old, h.eof);
        lemma_first_block_exists(lines, cursor as int, old, h.eof, w);
        reveal(block_eq);
    }
}

/// Law: a hunk with an anchor is placed under the first line at or after
/// the search start that equals the anchor: right after that line when it
/// expects no lines, else where its expected block first sits at or after
/// that line (never before it).
pub proof fn lemma_anchored_hunk_placed_after_anchor(lines: Seq<Seq<char>>, h: HunkModel, cursor: nat)
    requires
        h.anchor is Some,
    ensures
        hunk_position(lines, h, cursor) matches Ok(p) ==> (first_anchor(lines, cursor as int, h.anchor->0) matches Some(
            s,
        ) && {
            &&& cursor <= s < lines.len()
            &&& lines[s] == h.anchor->0
            &&& forall|j: int| cursor <= j < s ==> lines[j] != h.anchor->0
            &&& (old_block(h.lines).len() == 0 ==> p == s + 1)
            &&& (old_block(h.lines).len() > 0 ==> {
                &&& s <= p
                &&& lines.subrange(p as int, (p + old_block(h.lines).len()) as int) == old_block(h.lines)
                &&& (h.eof ==> p + old_block(h.lines).len() == lines.len())
                &&& forall|j: int| s <= j < p ==> !block_at(lines, j, old_block(h.lines), h.eof)
            })
        }),
{
    reveal(hunk_position);
    let a = h.anchor->0;
    let old = old_block(h.lines);
    lemma_first_anchor_props(lines, cursor as int, a);
    if first_anchor(lines, cursor as int, a) is Some {
        let w = choose|k: int| cursor <= k < lines.len() && lines[k] == a;
        lemma_first_exists(lines, cursor as int, a, w);
        let s = first_anchor(lines, cursor as int, a)->0;
        if old.len() > 0 && first_block(lines, s, old, h.eof) is Some {
            let v = choose|k: int| s <= k && block_at(lines, k, old, h.eof);
            lemma_first_block_exists(lines, s, old, h.eof, v);
            reveal(block_eq);
        }
    }
}

} // verus!
