//! Why a hunk could not be placed, told to the model: how close each line of
//! the file comes to what the hunk expected, the best candidates, and the
//! diagnosis that goes with the failure.
use vstd::prelude::*;

use crate::hunk::{block_at, block_matches, lines_view, HunkFailureModel, PatchHunkFailure};
use crate::output::{truncate_ellipsis_spec, truncate_chars_with_ellipsis};
use crate::terminal::{literal_line, push_line, append_all};
use crate::text::{
    chars_eq, chars_to_string, contains_chars, contains_spec, dec_spec, join_chars, join_lines, push_dec128,
    join_lines_exec, join_spec, lower_chars, lower_spec, push_chars, push_dec, push_str, str_chars,
    trim_chars, trim_spec, views,
};

verus! {

// ---------------------------------------------------------------------------
// Line similarity
// ---------------------------------------------------------------------------

/// The number of leading characters two texts share.
pub open spec fn common_prefix_len(a: Seq<char>, b: Seq<char>) -> nat
    decreases a.len(),
{
    if a.len() == 0 || b.len() == 0 || a[0] != b[0] {
        0
    } else {
        1 + common_prefix_len(a.drop_first(), b.drop_first())
    }
}

/// The number of trailing characters two texts share.
pub open spec fn common_suffix_len(a: Seq<char>, b: Seq<char>) -> nat
    decreases a.len(),
{
    if a.len() == 0 || b.len() == 0 || a.last() != b.last() {
        0
    } else {
        1 + common_suffix_len(a.drop_last(), b.drop_last())
    }
}

proof fn lemma_prefix_step(a: Seq<char>, b: Seq<char>, i: int)
    requires
        0 <= i < a.len(),
        i < b.len(),
        a[i] == b[i],
        common_prefix_len(a, b) == i + common_prefix_len(a.skip(i), b.skip(i)),
    ensures
        common_prefix_len(a, b) == i + 1 + common_prefix_len(a.skip(i + 1), b.skip(i + 1)),
{
    assert(a.skip(i).drop_first() =~= a.skip(i + 1));
    assert(b.skip(i).drop_first() =~= b.skip(i + 1));
}

pub fn shared_prefix_chars(left: &[char], right: &[char]) -> (r: usize)
    ensures
        r == common_prefix_len(left@, right@),
{
    let mut i: usize = 0;
    assert(left@.skip(0) =~= left@);
    assert(right@.skip(0) =~= right@);
    while i < left.len() && i < right.len() && left[i] == right[i]
        invariant
            i <= left@.len(),
            i <= right@.len(),
            common_prefix_len(left@, right@) == i + common_prefix_len(left@.skip(i as int), right@.skip(i as int)),
        decreases left@.len() - i,
    {
        proof {
            lemma_prefix_step(left@, right@, i as int);
        }
        i += 1;
    }
    i
}

proof fn lemma_suffix_step(a: Seq<char>, b: Seq<char>, i: int)
    requires
        0 <= i < a.len(),
        i < b.len(),
        a[a.len() - 1 - i] == b[b.len() - 1 - i],
        common_suffix_len(a, b) == i + common_suffix_len(a.take(a.len() - i), b.take(b.len() - i)),
    ensures
        common_suffix_len(a, b) == i + 1 + common_suffix_len(a.take(a.len() - i - 1), b.take(b.len() - i - 1)),
{
    assert(a.take(a.len() - i).drop_last() =~= a.take(a.len() - i - 1));
    assert(b.take(b.len() - i).drop_last() =~= b.take(b.len() - i - 1));
}

pub fn shared_suffix_chars(left: &[char], right: &[char]) -> (r: usize)
    ensures
        r == common_suffix_len(left@, right@),
{
    let mut i: usize = 0;
    assert(left@.take(left@.len() as int) =~= left@);
    assert(right@.take(right@.len() as int) =~= right@);
    while i < left.len() && i < right.len() && left[left.len() - 1 - i] == right[right.len() - 1 - i]
        invariant
            i <= left@.len(),
            i <= right@.len(),
            common_suffix_len(left@, right@) == i + common_suffix_len(
                left@.take(left@.len() - i),
                right@.take(right@.len() - i),
            ),
        decreases left@.len() - i,
    {
        proof {
            lemma_suffix_step(left@, right@, i as int);
        }
        i += 1;
    }
    i
}

pub open spec fn min_nat(a: nat, b: nat) -> nat {
    if a <= b {
        a
    } else {
        b
    }
}

pub open spec fn max_nat(a: nat, b: nat) -> nat {
    if a >= b {
        a
    } else {
        b
    }
}

/// Two trimmed lines equal but for ASCII case.
pub open spec fn eq_ignore_ascii_case_spec(a: Seq<char>, b: Seq<char>) -> bool {
    a.len() == b.len() && lower_spec(a) == lower_spec(b)
}

/// How alike an expected line and a file line are, from 0 to 100: 100 for
/// equal lines, 88 for lines equal once trimmed, else the shared head and
/// tail (up to 24 characters each) against the longer line, raised to 60
/// when one trimmed line contains the other and to 72 when they differ only
/// in case, and at most 99.
pub open spec fn similarity_spec(e: Seq<char>, c: Seq<char>) -> nat {
    let et = trim_spec(e);
    let ct = trim_spec(c);
    if e == c {
        100
    } else if et.len() > 0 && et == ct {
        88
    } else {
        let max_len = max_nat(max_nat(e.len(), c.len()), 1);
        let prefix = min_nat(common_prefix_len(e, c), 24);
        let suffix = min_nat(common_suffix_len(e, c), 24);
        let base = ((prefix + suffix) * 100) / (max_len * 2);
        let s1 = if et.len() > 0 && ct.len() > 0 && (contains_spec(et, ct) || contains_spec(ct, et)) {
            max_nat(base, 60)
        } else {
            base
        };
        let s2 = if eq_ignore_ascii_case_spec(et, ct) {
            max_nat(s1, 72)
        } else {
            s1
        };
        min_nat(s2, 99)
    }
}

proof fn lemma_prefix_le(a: Seq<char>, b: Seq<char>)
    ensures
        common_prefix_len(a, b) <= a.len(),
    decreases a.len(),
{
    if a.len() > 0 && b.len() > 0 && a[0] == b[0] {
        lemma_prefix_le(a.drop_first(), b.drop_first());
    }
}

proof fn lemma_suffix_le(a: Seq<char>, b: Seq<char>)
    ensures
        common_suffix_len(a, b) <= a.len(),
    decreases a.len(),
{
    if a.len() > 0 && b.len() > 0 && a.last() == b.last() {
        lemma_suffix_le(a.drop_last(), b.drop_last());
    }
}

pub fn patch_line_similarity_score(expected: &[char], candidate: &[char]) -> (r: usize)
    ensures
        r == similarity_spec(expected@, candidate@),
        r <= 100,
{
    if chars_eq(expected, candidate) {
        return 100;
    }
    let et = trim_chars(expected);
    let ct = trim_chars(candidate);
    if et.len() > 0 && chars_eq(&et, &ct) {
        return 88;
    }
    let mut max_len = if expected.len() >= candidate.len() {
        expected.len()
    } else {
        candidate.len()
    };
    if max_len < 1 {
        max_len = 1;
    }
    proof {
        lemma_prefix_le(expected@, candidate@);
        lemma_suffix_le(expected@, candidate@);
    }
    let p = shared_prefix_chars(expected, candidate);
    let s = shared_suffix_chars(expected, candidate);
    let prefix = if p < 24 {
        p
    } else {
        24
    };
    let suffix = if s < 24 {
        s
    } else {
        24
    };
    let denom: u128 = max_len as u128 * 2;
    let num: u128 = (prefix + suffix) as u128 * 100;
    let mut score: u128 = num / denom;
    assert(score <= 4800) by (nonlinear_arith)
        requires
            score == num / denom,
            num <= 4800,
            denom >= 2,
    ;
    if et.len() > 0 && ct.len() > 0 && (contains_chars(&et, &ct) || contains_chars(&ct, &et)) {
        if score < 60 {
            score = 60;
        }
    }
    if et.len() == ct.len() && chars_eq(&lower_chars(&et), &lower_chars(&ct)) {
        if score < 72 {
            score = 72;
        }
    }
    if score > 99 {
        99
    } else {
        score as usize
    }
}

// ---------------------------------------------------------------------------
// Candidates
// ---------------------------------------------------------------------------

/// A place in the file that comes close to what a hunk expected.
#[derive(Debug, Clone, PartialEq, Eq)]
pub struct PatchCandidateMatch {
    pub line_no: usize,
    pub score: usize,
    pub excerpt: String,
}

/// A candidate as plain values.
pub struct CandModel {
    pub line_no: nat,
    pub score: nat,
    pub excerpt: Seq<char>,
}

pub open spec fn cand_model(c: PatchCandidateMatch) -> CandModel {
    CandModel { line_no: c.line_no as nat, score: c.score as nat, excerpt: c.excerpt@ }
}

pub open spec fn cands_view(v: Seq<PatchCandidateMatch>) -> Seq<CandModel> {
    v.map_values(|c: PatchCandidateMatch| cand_model(c))
}

pub open spec fn dist(a: nat, b: nat) -> nat {
    if a >= b {
        (a - b) as nat
    } else {
        (b - a) as nat
    }
}

/// `a` is shown before `b`: a higher score first, then the line nearer the
/// search start, then the earlier line.
pub open spec fn ranks_before(a: CandModel, b: CandModel, target: nat) -> bool {
    ||| a.score > b.score
    ||| (a.score == b.score && dist(a.line_no, target) < dist(b.line_no, target))
    ||| (a.score == b.score && dist(a.line_no, target) == dist(b.line_no, target) && a.line_no < b.line_no)
}

/// Line numbers strictly increase along the candidates.
pub open spec fn lines_increase(c: Seq<CandModel>) -> bool {
    forall|i: int, j: int| 0 <= i < j < c.len() ==> (#[trigger] c[i]).line_no < (#[trigger] c[j]).line_no
}

pub open spec fn in_seq(r: Seq<CandModel>, c: CandModel) -> bool {
    exists|i: int| 0 <= i < r.len() && r[i] == c
}

/// `r` is the best `limit` candidates in the order they are shown.
pub open spec fn is_top(r: Seq<CandModel>, cands: Seq<CandModel>, limit: nat, target: nat) -> bool {
    &&& r.len() <= limit
    &&& forall|i: int, j: int| 0 <= i < j < r.len() ==> ranks_before(#[trigger] r[i], #[trigger] r[j], target)
    &&& forall|i: int| 0 <= i < r.len() ==> in_seq(cands, #[trigger] r[i])
    &&& forall|j: int|
        0 <= j < cands.len() ==> in_seq(r, #[trigger] cands[j]) || forall|i: int|
            0 <= i < r.len() ==> ranks_before(#[trigger] r[i], cands[j], target)
    &&& r.len() < limit ==> forall|j: int| 0 <= j < cands.len() ==> in_seq(r, #[trigger] cands[j])
}

/// A candidate not yet shown: it ranks after the last one chosen.
pub open spec fn after_last(rv: Seq<CandModel>, c: CandModel, target: nat) -> bool {
    rv.len() == 0 || ranks_before(rv[rv.len() - 1], c, target)
}

fn ranks_before_exec(a: &PatchCandidateMatch, b: &PatchCandidateMatch, target: u128) -> (r: bool)
    ensures
        r == ranks_before(cand_model(*a), cand_model(*b), target as nat),
{
    let la = a.line_no as u128;
    let lb = b.line_no as u128;
    let da = if la >= target {
        la - target
    } else {
        target - la
    };
    let db = if lb >= target {
        lb - target
    } else {
        target - lb
    };
    a.score > b.score || (a.score == b.score && da < db) || (a.score == b.score && da == db && a.line_no < b.line_no)
}

fn copy_cand(c: &PatchCandidateMatch) -> (r: PatchCandidateMatch)
    ensures
        cand_model(r) == cand_model(*c),
{
    PatchCandidateMatch { line_no: c.line_no, score: c.score, excerpt: c.excerpt.clone() }
}

/// The best `limit` candidates, best first.
fn select_top(cands: &Vec<PatchCandidateMatch>, limit: usize, target: u128) -> (r: Vec<PatchCandidateMatch>)
    requires
        lines_increase(cands_view(cands@)),
    ensures
        is_top(cands_view(r@), cands_view(cands@), limit as nat, target as nat),
{
    let ghost cv = cands_view(cands@);
    let mut r: Vec<PatchCandidateMatch> = Vec::new();
    let mut done = false;
    while !done && r.len() < limit
        invariant
            cv == cands_view(cands@),
            lines_increase(cv),
            r@.len() <= limit,
            forall|i: int, j: int|
                0 <= i < j < r@.len() ==> ranks_before(
                    #[trigger] cands_view(r@)[i],
                    #[trigger] cands_view(r@)[j],
                    target as nat,
                ),
            forall|i: int| 0 <= i < r@.len() ==> in_seq(cv, #[trigger] cands_view(r@)[i]),
            forall|j: int|
                0 <= j < cv.len() ==> in_seq(cands_view(r@), #[trigger] cv[j]) || (r@.len() > 0 && ranks_before(
                    cands_view(r@)[r@.len() - 1],
                    cv[j],
                    target as nat,
                )) || r@.len() == 0,
            done ==> forall|j: int| 0 <= j < cv.len() ==> in_seq(cands_view(r@), #[trigger] cv[j]),
        decreases limit - r@.len(), if done { 0int } else { 1int },
    {
        let ghost rv = cands_view(r@);
        let mut best: Option<usize> = None;
        let mut j: usize = 0;
        while j < cands.len()
            invariant
                j <= cands@.len(),
                cv == cands_view(cands@),
                rv == cands_view(r@),
                lines_increase(cv),
                best matches Some(b) ==> b < j && after_last(rv, cv[b as int], target as nat),
                forall|k: int|
                    0 <= k < j && #[trigger] after_last(rv, cv[k], target as nat) ==> (best matches Some(b) && (k == b
                        || ranks_before(cv[b as int], cv[k], target as nat))),
            decreases cands@.len() - j,
        {
            let eligible = r.len() == 0 || ranks_before_exec(&r[r.len() - 1], &cands[j], target);
            proof {
                if r@.len() > 0 {
                    assert(rv[rv.len() - 1] == cand_model(r@[r@.len() - 1]));
                }
                assert(cv[j as int] == cand_model(cands@[j as int]));
            }
            if eligible {
                match best {
                    None => {
                        best = Some(j);
                    },
                    Some(b) => {
                        if ranks_before_exec(&cands[j], &cands[b], target) {
                            proof {
                                assert(cv[b as int] == cand_model(cands@[b as int]));
                                assert forall|k: int|
                                    0 <= k < j + 1 && #[trigger] after_last(rv, cv[k], target as nat) implies k == j
                                        || ranks_before(cv[j as int], cv[k], target as nat) by {
                                    if k != j && k != b {
                                        assert(ranks_before(cv[b as int], cv[k], target as nat));
                                    }
                                }
                            }
                            best = Some(j);
                        } else {
                            proof {
                                assert(cv[b as int] == cand_model(cands@[b as int]));
                                assert(cv[b as int].line_no < cv[j as int].line_no);
                            }
                        }
                    },
                }
            }
            j += 1;
        }
        match best {
            None => {
                proof {
                    assert forall|k: int| 0 <= k < cv.len() implies in_seq(cands_view(r@), #[trigger] cv[k]) by {
                        assert(!after_last(rv, cv[k], target as nat));
                    }
                }
                done = true;
            },
            Some(b) => {
                let ghost old_r = cands_view(r@);
                let c = copy_cand(&cands[b]);
                r.push(c);
                proof {
                    let nr = cands_view(r@);
                    assert(nr =~= old_r.push(cv[b as int]));
                    assert(in_seq(cv, cv[b as int]));
                    assert forall|k: int| 0 <= k < cv.len() implies in_seq(nr, #[trigger] cv[k]) || (nr.len() > 0
                        && ranks_before(nr[nr.len() - 1], cv[k], target as nat)) || nr.len() == 0 by {
                        if in_seq(old_r, cv[k]) {
                            let i = choose|i: int| 0 <= i < old_r.len() && old_r[i] == cv[k];
                            assert(nr[i] == cv[k]);
                        } else if k == b {
                            assert(nr[nr.len() - 1] == cv[k]);
                        } else {
                            assert(after_last(rv, cv[k], target as nat));
                            assert(ranks_before(cv[b as int], cv[k], target as nat));
                        }
                    }
                    assert forall|i: int, j2: int| 0 <= i < j2 < nr.len() implies ranks_before(
                        #[trigger] nr[i],
                        #[trigger] nr[j2],
                        target as nat,
                    ) by {
                        if j2 == nr.len() - 1 && i < old_r.len() - 1 {
                            assert(ranks_before(old_r[i], old_r[old_r.len() - 1], target as nat));
                        }
                    }
                }
            },
        }
    }
    proof {
        let rr = cands_view(r@);
        assert forall|j: int| 0 <= j < cv.len() implies in_seq(rr, #[trigger] cv[j]) || forall|i: int|
            0 <= i < rr.len() ==> ranks_before(#[trigger] rr[i], cv[j], target as nat) by {
            if !in_seq(rr, cv[j]) && rr.len() > 0 {
                assert forall|i: int| 0 <= i < rr.len() implies ranks_before(#[trigger] rr[i], cv[j], target as nat) by {
                    if i < rr.len() - 1 {
                        assert(ranks_before(rr[i], rr[rr.len() - 1], target as nat));
                    }
                }
            }
        }
    }
    r
}

// ---------------------------------------------------------------------------
// Candidate lists
// ---------------------------------------------------------------------------

/// The file line at `i` as an anchor candidate.
pub open spec fn anchor_cand(lines: Seq<Seq<char>>, anchor: Seq<char>, i: int) -> CandModel {
    CandModel {
        line_no: (i + 1) as nat,
        score: similarity_spec(anchor, lines[i]),
        excerpt: truncate_ellipsis_spec(trim_spec(lines[i]), 120),
    }
}

/// The lines among the first `n` that score at least 28 against the anchor.
pub open spec fn anchor_cands(lines: Seq<Seq<char>>, anchor: Seq<char>, n: nat) -> Seq<CandModel>
    decreases n,
{
    if n == 0 {
        Seq::empty()
    } else {
        let r = anchor_cands(lines, anchor, (n - 1) as nat);
        if similarity_spec(anchor, lines[n - 1]) >= 28 {
            r.push(anchor_cand(lines, anchor, n - 1))
        } else {
            r
        }
    }
}

/// The lines closest to a missing anchor, best first.
pub fn find_anchor_candidate_matches(lines: &Vec<String>, anchor: &String, search_start: usize, limit: usize) -> (r:
    Vec<PatchCandidateMatch>)
    ensures
        is_top(
            cands_view(r@),
            anchor_cands(lines_view(lines@), anchor@, lines@.len()),
            limit as nat,
            (search_start + 1) as nat,
        ),
{
    let ghost ls = lines_view(lines@);
    let av = str_chars(anchor.as_str());
    let mut cands: Vec<PatchCandidateMatch> = Vec::new();
    let mut i: usize = 0;
    while i < lines.len()
        invariant
            i <= lines@.len(),
            ls == lines_view(lines@),
            av@ == anchor@,
            cands_view(cands@) == anchor_cands(ls, anchor@, i as nat),
            lines_increase(cands_view(cands@)),
            forall|k: int| 0 <= k < cands@.len() ==> (#[trigger] cands_view(cands@)[k]).line_no <= i,
        decreases lines@.len() - i,
    {
        let lv = str_chars(lines[i].as_str());
        let score = patch_line_similarity_score(&av, &lv);
        assert(ls[i as int] == lv@);
        if score >= 28 {
            let ghost before = cands_view(cands@);
            let excerpt = truncate_chars_with_ellipsis(chars_to_string(&trim_chars(&lv)).as_str(), 120);
            cands.push(PatchCandidateMatch { line_no: i + 1, score, excerpt });
            proof {
                assert(cands_view(cands@) =~= before.push(anchor_cand(ls, anchor@, i as int)));
            }
        }
        i += 1;
    }
    select_top(&cands, limit, search_start as u128 + 1)
}

/// The sum of the similarities of a window of the file against the
/// expected lines, over the first `k` of them.
pub open spec fn window_sum(expected: Seq<Seq<char>>, lines: Seq<Seq<char>>, idx: int, k: nat) -> nat
    decreases k,
{
    if k == 0 {
        0
    } else {
        window_sum(expected, lines, idx, (k - 1) as nat) + similarity_spec(expected[k - 1], lines[idx + k - 1])
    }
}

/// The first two lines of a window, trimmed and joined, cut to 120
/// characters.
pub open spec fn excerpt_spec(lines: Seq<Seq<char>>, start: int, len: nat) -> Seq<char> {
    let end = if start + len <= lines.len() { start + len } else { lines.len() as int };
    let part = lines.subrange(start, end);
    let two = part.take(if part.len() < 2 { part.len() as int } else { 2 });
    truncate_ellipsis_spec(join_spec(two.map_values(|l: Seq<char>| trim_spec(l)), " ↩ "@), 120)
}

/// The width of the windows compared with the expected lines.
pub open spec fn window_len(expected: Seq<Seq<char>>, lines: Seq<Seq<char>>) -> nat {
    max_nat(min_nat(expected.len(), lines.len()), 1)
}

pub open spec fn hunk_cand(lines: Seq<Seq<char>>, expected: Seq<Seq<char>>, idx: int) -> CandModel {
    let w = window_len(expected, lines);
    CandModel {
        line_no: (idx + 1) as nat,
        score: window_sum(expected, lines, idx, w) / w,
        excerpt: excerpt_spec(lines, idx, w),
    }
}

/// The windows among the first `n` whose average similarity is at least 28.
pub open spec fn hunk_cands_upto(lines: Seq<Seq<char>>, expected: Seq<Seq<char>>, n: nat) -> Seq<CandModel>
    decreases n,
{
    if n == 0 {
        Seq::empty()
    } else {
        let r = hunk_cands_upto(lines, expected, (n - 1) as nat);
        if hunk_cand(lines, expected, n - 1).score >= 28 {
            r.push(hunk_cand(lines, expected, n - 1))
        } else {
            r
        }
    }
}

/// Every window of the file, as long as the expected block, that comes
/// close to it.
pub open spec fn hunk_cands(lines: Seq<Seq<char>>, expected: Seq<Seq<char>>) -> Seq<CandModel> {
    if expected.len() == 0 || lines.len() == 0 {
        Seq::empty()
    } else {
        hunk_cands_upto(lines, expected, (lines.len() - window_len(expected, lines) + 1) as nat)
    }
}

fn excerpt_exec(lines: &Vec<String>, start: usize, len: usize) -> (r: String)
    requires
        start <= lines@.len(),
    ensures
        r@ == excerpt_spec(lines_view(lines@), start as int, len as nat),
{
    let ghost ls = lines_view(lines@);
    let end = if len <= lines.len() - start {
        start + len
    } else {
        lines.len()
    };
    let count = if end - start < 2 {
        end - start
    } else {
        2
    };
    let mut parts: Vec<Vec<char>> = Vec::new();
    let mut k: usize = 0;
    while k < count
        invariant
            k <= count,
            start + count <= end <= lines@.len(),
            ls == lines_view(lines@),
            views(parts@) =~= ls.subrange(start as int, end as int).take(k as int).map_values(
                |l: Seq<char>| trim_spec(l),
            ),
        decreases count - k,
    {
        let ghost before = views(parts@);
        parts.push(trim_chars(&str_chars(lines[start + k].as_str())));
        proof {
            assert(views(parts@) =~= before.push(trim_spec(ls[start + k])));
        }
        k += 1;
    }
    let joined = join_chars(&parts, &str_chars(" ↩ "));
    truncate_chars_with_ellipsis(chars_to_string(&joined).as_str(), 120)
}

proof fn lemma_window_sum_bound(expected: Seq<Seq<char>>, lines: Seq<Seq<char>>, idx: int, k: nat)
    ensures
        window_sum(expected, lines, idx, k) <= 100 * k,
    decreases k,
{
    if k > 0 {
        lemma_window_sum_bound(expected, lines, idx, (k - 1) as nat);
        lemma_similarity_bound(expected[k - 1], lines[idx + k - 1]);
    }
}

proof fn lemma_similarity_bound(e: Seq<char>, c: Seq<char>)
    ensures
        similarity_spec(e, c) <= 100,
{
}

fn window_score(lines: &Vec<String>, expected: &Vec<String>, idx: usize, w: usize) -> (r: usize)
    requires
        w >= 1,
        w <= expected@.len(),
        idx + w <= lines@.len(),
    ensures
        r == window_sum(lines_view(expected@), lines_view(lines@), idx as int, w as nat) / (w as nat),
{
    let ghost ls = lines_view(lines@);
    let ghost ex = lines_view(expected@);
    let mut sum: u128 = 0;
    let mut k: usize = 0;
    while k < w
        invariant
            k <= w,
            w <= expected@.len(),
            idx + w <= lines.len(),
            ls == lines_view(lines@),
            ex == lines_view(expected@),
            sum == window_sum(ex, ls, idx as int, k as nat),
            sum <= 100 * k,
        decreases w - k,
    {
        let e = str_chars(expected[k].as_str());
        let c = str_chars(lines[idx + k].as_str());
        let sc = patch_line_similarity_score(&e, &c);
        proof {
            assert(ex[k as int] == e@);
            assert(ls[idx + k] == c@);
        }
        sum = sum + sc as u128;
        k += 1;
    }
    let q = sum / (w as u128);
    assert(q <= 100) by (nonlinear_arith)
        requires
            q == sum / (w as u128),
            sum <= 100 * w,
            w >= 1,
    ;
    q as usize
}

/// The windows of the file closest to the expected lines, best first.
pub fn find_hunk_candidate_matches(lines: &Vec<String>, expected: &Vec<String>, search_start: usize, limit: usize) -> (r:
    Vec<PatchCandidateMatch>)
    ensures
        is_top(
            cands_view(r@),
            if limit == 0 { Seq::empty() } else { hunk_cands(lines_view(lines@), lines_view(expected@)) },
            limit as nat,
            (search_start + 1) as nat,
        ),
{
    let ghost ls = lines_view(lines@);
    let ghost ex = lines_view(expected@);
    if expected.len() == 0 || lines.len() == 0 || limit == 0 {
        return Vec::new();
    }
    let m = if expected.len() <= lines.len() {
        expected.len()
    } else {
        lines.len()
    };
    let w = if m < 1 {
        1
    } else {
        m
    };
    let max_start = lines.len() - w;
    let mut cands: Vec<PatchCandidateMatch> = Vec::new();
    let mut idx: usize = 0;
    while idx <= max_start
        invariant
            idx <= max_start + 1,
            max_start < usize::MAX,
            max_start == lines@.len() - w,
            w == window_len(ex, ls),
            1 <= w <= expected@.len(),
            w <= lines@.len(),
            ls == lines_view(lines@),
            ex == lines_view(expected@),
            cands_view(cands@) == hunk_cands_upto(ls, ex, idx as nat),
            lines_increase(cands_view(cands@)),
            forall|k: int| 0 <= k < cands@.len() ==> (#[trigger] cands_view(cands@)[k]).line_no <= idx,
        decreases max_start + 1 - idx,
    {
        let score = window_score(lines, expected, idx, w);
        if score >= 28 {
            let ghost before = cands_view(cands@);
            let excerpt = excerpt_exec(lines, idx, w);
            cands.push(PatchCandidateMatch { line_no: idx + 1, score, excerpt });
            proof {
                assert(cands_view(cands@) =~= before.push(hunk_cand(ls, ex, idx as int)));
            }
        }
        idx += 1;
    }
    select_top(&cands, limit, search_start as u128 + 1)
}

// ---------------------------------------------------------------------------
// Exact matches anywhere in the file
// ---------------------------------------------------------------------------

/// The positions below `n` where the expected block sits.
pub open spec fn exact_upto(lines: Seq<Seq<char>>, expected: Seq<Seq<char>>, eof: bool, n: nat) -> Seq<nat>
    decreases n,
{
    if n == 0 {
        Seq::empty()
    } else {
        let r = exact_upto(lines, expected, eof, (n - 1) as nat);
        if block_at(lines, n - 1, expected, eof) {
            r.push((n - 1) as nat)
        } else {
            r
        }
    }
}

/// Every position of the file where the expected block sits, in order; an
/// empty block sits at the end of the file.
pub open spec fn exact_matches_spec(lines: Seq<Seq<char>>, expected: Seq<Seq<char>>, eof: bool) -> Seq<nat> {
    if expected.len() == 0 {
        seq![lines.len()]
    } else if expected.len() > lines.len() {
        Seq::empty()
    } else {
        exact_upto(lines, expected, eof, (lines.len() - expected.len() + 1) as nat)
    }
}

pub fn find_exact_hunk_matches(lines: &Vec<String>, expected: &Vec<String>, eof: bool) -> (r: Vec<usize>)
    ensures
        r@.map_values(|k: usize| k as nat) == exact_matches_spec(lines_view(lines@), lines_view(expected@), eof),
{
    let ghost ls = lines_view(lines@);
    let ghost ex = lines_view(expected@);
    let mut out: Vec<usize> = Vec::new();
    if expected.len() == 0 {
        out.push(lines.len());
        assert(out@.map_values(|k: usize| k as nat) =~= seq![ls.len()]);
        return out;
    }
    if expected.len() > lines.len() {
        assert(out@.map_values(|k: usize| k as nat) =~= Seq::<nat>::empty());
        return out;
    }
    let max_start = lines.len() - expected.len();
    let mut idx: usize = 0;
    while idx <= max_start
        invariant
            idx <= max_start + 1,
            max_start < usize::MAX,
            max_start + expected@.len() == lines@.len(),
            expected@.len() > 0,
            ls == lines_view(lines@),
            ex == lines_view(expected@),
            out@.map_values(|k: usize| k as nat) == exact_upto(ls, ex, eof, idx as nat),
        decreases max_start + 1 - idx,
    {
        let ghost before = out@.map_values(|k: usize| k as nat);
        if block_matches(lines, idx, expected, eof) {
            out.push(idx);
            assert(out@.map_values(|k: usize| k as nat) =~= before.push(idx as nat));
        }
        idx += 1;
    }
    out
}

// ---------------------------------------------------------------------------
// Diagnoses
// ---------------------------------------------------------------------------

/// `"  • line {n} · score {s} · {excerpt}"`.
pub open spec fn cand_line(c: CandModel) -> Seq<char> {
    "  • line "@ + dec_spec(c.line_no) + " · score "@ + dec_spec(c.score) + " · "@ + c.excerpt
}

pub open spec fn cand_lines(c: Seq<CandModel>) -> Seq<Seq<char>>
    decreases c.len(),
{
    if c.len() == 0 {
        Seq::empty()
    } else {
        cand_lines(c.drop_last()).push(cand_line(c.last()))
    }
}

/// The closest candidates under their heading, or nothing.
pub open spec fn cand_section(c: Seq<CandModel>) -> Seq<Seq<char>> {
    if c.len() == 0 {
        Seq::empty()
    } else {
        seq!["- 最接近候选:"@] + cand_lines(c)
    }
}

pub open spec fn line_refs_upto(ns: Seq<nat>) -> Seq<Seq<char>>
    decreases ns.len(),
{
    if ns.len() == 0 {
        Seq::empty()
    } else {
        line_refs_upto(ns.drop_last()).push("line "@ + dec_spec(ns.last()))
    }
}

/// `"line a, line b, ..."` over the first five numbers.
pub open spec fn line_refs(ns: Seq<nat>) -> Seq<char> {
    join_spec(line_refs_upto(ns.take(if ns.len() < 5 { ns.len() as int } else { 5 })), ", "@)
}

/// The line numbers, among the first `n` lines, of the lines equal to the
/// anchor once both are trimmed.
pub open spec fn trimmed_hits(lines: Seq<Seq<char>>, anchor: Seq<char>, n: nat) -> Seq<nat>
    decreases n,
{
    if n == 0 {
        Seq::empty()
    } else {
        let r = trimmed_hits(lines, anchor, (n - 1) as nat);
        if trim_spec(lines[n - 1]) == trim_spec(anchor) {
            r.push(n)
        } else {
            r
        }
    }
}

/// The diagnosis for an anchor that was not found, given the candidates it
/// shows.
pub open spec fn anchor_message_lines(
    lines: Seq<Seq<char>>,
    search_start: nat,
    anchor: Seq<char>,
    path: Seq<char>,
    cands: Seq<CandModel>,
) -> Seq<Seq<char>> {
    let hits = trimmed_hits(lines, anchor, lines.len());
    seq![
        "Failed to find context '"@ + anchor + "' in "@ + path,
        Seq::empty(),
        "诊断:"@,
        "- 从 line "@ + dec_spec(search_start + 1) + " 开始未找到完全匹配的 anchor。"@,
        if hits.len() > 0 {
            "- 文件内存在 "@ + dec_spec(hits.len()) + " 处 trim 后相同的候选："@ + line_refs(hits)
        } else {
            "- 全文件没有完全相同的 anchor；可能是上下文已变化、缩进不同或 anchor 写得过宽。"@
        },
    ] + cand_section(cands) + seq!["- 如目标是大段 prompt/JSON/多行字符串，请先重新读取更小范围，再拆成几次稳定的 apply_patch。"@]
}

pub open spec fn plus_one(ns: Seq<nat>) -> Seq<nat> {
    ns.map_values(|n: nat| n + 1)
}

/// The diagnosis for expected lines that were not found, given the
/// candidates it shows.
pub open spec fn lines_message_lines(
    lines: Seq<Seq<char>>,
    search_start: nat,
    expected: Seq<Seq<char>>,
    eof: bool,
    path: Seq<char>,
    cands: Seq<CandModel>,
) -> Seq<Seq<char>> {
    let exact = exact_matches_spec(lines, expected, eof);
    seq!["Failed to find expected lines in "@ + path + ":"@] + expected + seq![Seq::empty(), "诊断:"@] + (if exact.len()
        == 0 {
        seq!["- 全文件没有完全匹配的旧片段；可能是上下文已变化、缩进/转义不同，或该片段刚被前序 hunk 改过。"@]
    } else {
        seq![
            "- 全文件共有 "@ + dec_spec(exact.len()) + " 处完全匹配，但从当前搜索起点 line "@ + dec_spec(search_start + 1)
                + " 之后没有可用命中。"@,
            "- 命中位置: "@ + line_refs(plus_one(exact)),
        ]
    }) + cand_section(cands) + seq!["- 如旧片段很长或重复，请先重新读取更小范围，再拆成几次稳定的 apply_patch。"@]
}

fn cand_lines_exec(c: &Vec<PatchCandidateMatch>) -> (r: Vec<Vec<char>>)
    ensures
        views(r@) == cand_section(cands_view(c@)),
{
    let ghost cv = cands_view(c@);
    let mut out: Vec<Vec<char>> = Vec::new();
    if c.len() == 0 {
        assert(views(out@) =~= cand_section(cv));
        return out;
    }
    push_line(&mut out, literal_line("- 最接近候选:"));
    let mut i: usize = 0;
    while i < c.len()
        invariant
            i <= c@.len(),
            c@.len() > 0,
            cv == cands_view(c@),
            views(out@) == seq!["- 最接近候选:"@] + cand_lines(cv.take(i as int)),
        decreases c@.len() - i,
    {
        let mut line = literal_line("  • line ");
        push_dec(&mut line, c[i].line_no as u64);
        push_str(&mut line, " · score ");
        push_dec(&mut line, c[i].score as u64);
        push_str(&mut line, " · ");
        push_str(&mut line, c[i].excerpt.as_str());
        proof {
            assert(cv.take(i + 1).drop_last() =~= cv.take(i as int));
            assert(cv[i as int] == cand_model(c@[i as int]));
            assert(line@ == cand_line(cv[i as int]));
        }
        push_line(&mut out, line);
        i += 1;
    }
    assert(cv.take(c@.len() as int) =~= cv);
    out
}

fn line_refs_exec(ns: &Vec<usize>, add: usize) -> (r: Vec<char>)
    requires
        add <= 1,
    ensures
        r@ == line_refs(ns@.map_values(|k: usize| (k + add) as nat)),
{
    let ghost nv = ns@.map_values(|k: usize| (k + add) as nat);
    let count = if ns.len() < 5 {
        ns.len()
    } else {
        5
    };
    let ghost tk = nv.take(count as int);
    let mut parts: Vec<Vec<char>> = Vec::new();
    let mut i: usize = 0;
    while i < count
        invariant
            i <= count <= ns@.len(),
            add <= 1,
            nv == ns@.map_values(|k: usize| (k + add) as nat),
            tk == nv.take(count as int),
            views(parts@) == line_refs_upto(tk.take(i as int)),
        decreases count - i,
    {
        let mut part = literal_line("line ");
        push_dec128(&mut part, ns[i] as u128 + add as u128);
        proof {
            assert(tk.take(i + 1).drop_last() =~= tk.take(i as int));
            assert(tk.take(i + 1).last() == (ns@[i as int] + add) as nat);
        }
        push_line(&mut parts, part);
        i += 1;
    }
    assert(tk.take(count as int) =~= tk);
    join_chars(&parts, &str_chars(", "))
}

fn trimmed_hits_exec(lines: &Vec<String>, anchor: &String) -> (r: Vec<usize>)
    ensures
        r@.map_values(|k: usize| k as nat) == trimmed_hits(lines_view(lines@), anchor@, lines@.len()),
{
    let ghost ls = lines_view(lines@);
    let at = trim_chars(&str_chars(anchor.as_str()));
    let mut out: Vec<usize> = Vec::new();
    let mut i: usize = 0;
    while i < lines.len()
        invariant
            i <= lines@.len(),
            ls == lines_view(lines@),
            at@ == trim_spec(anchor@),
            out@.map_values(|k: usize| k as nat) == trimmed_hits(ls, anchor@, i as nat),
        decreases lines@.len() - i,
    {
        let ghost before = out@.map_values(|k: usize| k as nat);
        let lt = trim_chars(&str_chars(lines[i].as_str()));
        assert(ls[i as int] == lines@[i as int]@);
        if chars_eq(&lt, &at) {
            out.push(i + 1);
            assert(out@.map_values(|k: usize| k as nat) =~= before.push((i + 1) as nat));
        }
        i += 1;
    }
    out
}

/// The diagnosis for an anchor that could not be found from `search_start`
/// on: the trimmed matches, the closest lines, and what to do next.
pub fn build_anchor_not_found_message(
    lines: &Vec<String>,
    search_start: usize,
    anchor: &String,
    display_path: &str,
) -> (r: String)
    ensures
        exists|c: Seq<CandModel>|
            is_top(
                c,
                anchor_cands(lines_view(lines@), anchor@, lines@.len()),
                3,
                (search_start + 1) as nat,
            ) && r@ == join_lines(
                anchor_message_lines(lines_view(lines@), search_start as nat, anchor@, display_path@, c),
            ),
{
    let ghost ls = lines_view(lines@);
    let mut out: Vec<Vec<char>> = Vec::new();
    let mut first = literal_line("Failed to find context '");
    push_str(&mut first, anchor.as_str());
    push_str(&mut first, "' in ");
    push_str(&mut first, display_path);
    push_line(&mut out, first);
    push_line(&mut out, Vec::new());
    push_line(&mut out, literal_line("诊断:"));
    let mut start_line = literal_line("- 从 line ");
    push_dec128(&mut start_line, search_start as u128 + 1);
    push_str(&mut start_line, " 开始未找到完全匹配的 anchor。");
    push_line(&mut out, start_line);
    let hits = trimmed_hits_exec(lines, anchor);
    let ghost hv = hits@.map_values(|k: usize| k as nat);
    if hits.len() > 0 {
        let mut hit_line = literal_line("- 文件内存在 ");
        push_dec(&mut hit_line, hits.len() as u64);
        push_str(&mut hit_line, " 处 trim 后相同的候选：");
        let refs = line_refs_exec(&hits, 0);
        proof {
            assert(hits@.map_values(|k: usize| (k + 0) as nat) =~= hv);
        }
        push_chars(&mut hit_line, &refs);
        push_line(&mut out, hit_line);
    } else {
        push_line(&mut out, literal_line("- 全文件没有完全相同的 anchor；可能是上下文已变化、缩进不同或 anchor 写得过宽。"));
    }
    let cands = find_anchor_candidate_matches(lines, anchor, search_start, 3);
    append_all(&mut out, cand_lines_exec(&cands));
    push_line(&mut out, literal_line("- 如目标是大段 prompt/JSON/多行字符串，请先重新读取更小范围，再拆成几次稳定的 apply_patch。"));
    proof {
        let c = cands_view(cands@);
        assert(views(out@) =~= anchor_message_lines(ls, search_start as nat, anchor@, display_path@, c));
    }
    chars_to_string(&join_lines_exec(&out))
}

/// The diagnosis for expected lines that could not be found from
/// `search_start` on: the exact matches elsewhere, the closest windows, and
/// what to do next.
pub fn build_expected_lines_not_found_message(
    lines: &Vec<String>,
    search_start: usize,
    expected: &Vec<String>,
    eof: bool,
    display_path: &str,
) -> (r: String)
    ensures
        exists|c: Seq<CandModel>|
            is_top(
                c,
                hunk_cands(lines_view(lines@), lines_view(expected@)),
                3,
                (search_start + 1) as nat,
            ) && r@ == join_lines(
                lines_message_lines(lines_view(lines@), search_start as nat, lines_view(expected@), eof, display_path@, c),
            ),
{
    let ghost ls = lines_view(lines@);
    let ghost ex = lines_view(expected@);
    let mut out: Vec<Vec<char>> = Vec::new();
    let mut first = literal_line("Failed to find expected lines in ");
    push_str(&mut first, display_path);
    push_str(&mut first, ":");
    push_line(&mut out, first);
    let mut i: usize = 0;
    while i < expected.len()
        invariant
            i <= expected@.len(),
            ex == lines_view(expected@),
            views(out@) == seq!["Failed to find expected lines in "@ + display_path@ + ":"@] + ex.take(i as int),
        decreases expected@.len() - i,
    {
        push_line(&mut out, str_chars(expected[i].as_str()));
        proof {
            assert(ex.take(i + 1) =~= ex.take(i as int).push(ex[i as int]));
        }
        i += 1;
    }
    assert(ex.take(expected@.len() as int) =~= ex);
    push_line(&mut out, Vec::new());
    push_line(&mut out, literal_line("诊断:"));
    let exact = find_exact_hunk_matches(lines, expected, eof);
    let ghost xv = exact@.map_values(|k: usize| k as nat);
    if exact.len() == 0 {
        push_line(&mut out, literal_line("- 全文件没有完全匹配的旧片段；可能是上下文已变化、缩进/转义不同，或该片段刚被前序 hunk 改过。"));
    } else {
        let mut count_line = literal_line("- 全文件共有 ");
        push_dec(&mut count_line, exact.len() as u64);
        push_str(&mut count_line, " 处完全匹配，但从当前搜索起点 line ");
        push_dec128(&mut count_line, search_start as u128 + 1);
        push_str(&mut count_line, " 之后没有可用命中。");
        push_line(&mut out, count_line);
        let mut at_line = literal_line("- 命中位置: ");
        let refs = line_refs_exec(&exact, 1);
        proof {
            assert(exact@.map_values(|k: usize| (k + 1) as nat) =~= plus_one(xv));
        }
        push_chars(&mut at_line, &refs);
        push_line(&mut out, at_line);
    }
    let cands = find_hunk_candidate_matches(lines, expected, search_start, 3);
    append_all(&mut out, cand_lines_exec(&cands));
    push_line(&mut out, literal_line("- 如旧片段很长或重复，请先重新读取更小范围，再拆成几次稳定的 apply_patch。"));
    proof {
        let c = cands_view(cands@);
        assert(views(out@) =~= lines_message_lines(ls, search_start as nat, ex, eof, display_path@, c));
    }
    chars_to_string(&join_lines_exec(&out))
}

/// What the message for a failed hunk says, given the candidates it shows.
pub open spec fn failure_message_spec(f: HunkFailureModel, path: Seq<char>, c: Seq<CandModel>) -> Seq<char> {
    match f {
        HunkFailureModel::AnchorMissing { lines, search_start, anchor } => join_lines(
            anchor_message_lines(lines, search_start, anchor, path, c),
        ),
        HunkFailureModel::LinesMissing { lines, search_start, expected, eof } => join_lines(
            lines_message_lines(lines, search_start, expected, eof, path, c),
        ),
    }
}

/// The candidates a failed hunk is compared with.
pub open spec fn failure_cands(f: HunkFailureModel) -> Seq<CandModel> {
    match f {
        HunkFailureModel::AnchorMissing { lines, search_start, anchor } => anchor_cands(lines, anchor, lines.len()),
        HunkFailureModel::LinesMissing { lines, search_start, expected, eof } => hunk_cands(lines, expected),
    }
}

pub open spec fn failure_start(f: HunkFailureModel) -> nat {
    match f {
        HunkFailureModel::AnchorMissing { search_start, .. } => search_start,
        HunkFailureModel::LinesMissing { search_start, .. } => search_start,
    }
}

/// `text` is the message for the failure: the diagnosis with its best three
/// candidates.
pub open spec fn explains_failure(f: HunkFailureModel, path: Seq<char>, text: Seq<char>) -> bool {
    exists|c: Seq<CandModel>|
        is_top(c, failure_cands(f), 3, failure_start(f) + 1) && text == failure_message_spec(f, path, c)
}

/// The message that goes with a hunk that could not be placed.
pub fn patch_failure_message(failure: &PatchHunkFailure, display_path: &str) -> (r: String)
    ensures
        explains_failure(failure@, display_path@, r@),
{
    match failure {
        PatchHunkFailure::AnchorMissing { lines, search_start, anchor } => {
            let r = build_anchor_not_found_message(lines, *search_start, anchor, display_path);
            proof {
                let ls = lines_view(lines@);
                let c = choose|c: Seq<CandModel>|
                    is_top(c, anchor_cands(ls, anchor@, lines@.len()), 3, (*search_start + 1) as nat) && r@
                        == join_lines(anchor_message_lines(ls, *search_start as nat, anchor@, display_path@, c));
                assert(is_top(c, failure_cands(failure@), 3, failure_start(failure@) + 1));
                assert(r@ == failure_message_spec(failure@, display_path@, c));
            }
            r
        },
        PatchHunkFailure::LinesMissing { lines, search_start, expected, eof } => {
            let r = build_expected_lines_not_found_message(lines, *search_start, expected, *eof, display_path);
            proof {
                let ls = lines_view(lines@);
                let ex = lines_view(expected@);
                let c = choose|c: Seq<CandModel>|
                    is_top(c, hunk_cands(ls, ex), 3, (*search_start + 1) as nat) && r@ == join_lines(
                        lines_message_lines(ls, *search_start as nat, ex, *eof, display_path@, c),
                    );
                assert(is_top(c, failure_cands(failure@), 3, failure_start(failure@) + 1));
                assert(r@ == failure_message_spec(failure@, display_path@, c));
            }
            r
        },
    }
}

} // verus!
