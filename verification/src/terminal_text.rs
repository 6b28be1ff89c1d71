//! Terminal output as plain text: escape sequences and control characters
//! removed, and clamped previews of the result.
use vstd::prelude::*;

use crate::text::{
    chars_to_string, dec_spec, ellipsis_chars, ellipsis_spec, is_ws, join_lines, join_lines_exec,
    lines_chars, lines_spec, middle_ellipsis_chars, middle_ellipsis_spec, push_chars, push_dec,
    push_str, str_chars, tail_ellipsis_chars, tail_ellipsis_spec, trim_end_chars, trim_end_spec,
    trim_spec, trim_chars, views,
};

verus! {

// ---------------------------------------------------------------------------
// Escape sequences
// ---------------------------------------------------------------------------

/// `char::is_control`: the general category `Cc`.
pub open spec fn is_control(c: char) -> bool {
    ('\u{0}' <= c && c <= '\u{1f}') || ('\u{7f}' <= c && c <= '\u{9f}')
}

/// After `CSI`: everything up to and including a final byte in `'@'..='~'`.
pub open spec fn csi_end(s: Seq<char>, k: int) -> int
    decreases s.len() - k,
{
    if k < 0 || k >= s.len() {
        s.len() as int
    } else if '@' <= s[k] && s[k] <= '~' {
        k + 1
    } else {
        csi_end(s, k + 1)
    }
}

/// After `OSC`: everything up to and including `BEL` or `ESC \`.
pub open spec fn osc_end(s: Seq<char>, k: int) -> int
    decreases s.len() - k,
{
    if k < 0 || k >= s.len() {
        s.len() as int
    } else if s[k] == '\u{7}' {
        k + 1
    } else if s[k] == '\u{1b}' && k + 1 < s.len() && s[k + 1] == '\\' {
        k + 2
    } else {
        osc_end(s, k + 1)
    }
}

/// Where the text resumes after an `ESC` whose next character is at `j`.
pub open spec fn escape_end(s: Seq<char>, j: int) -> int {
    if j >= s.len() {
        s.len() as int
    } else if s[j] == '[' {
        csi_end(s, j + 1)
    } else if s[j] == ']' {
        osc_end(s, j + 1)
    } else {
        j + 1
    }
}

/// Four-column tab stops.
pub open spec fn tab_spaces(col: nat) -> nat {
    (4 - (col % 4)) as nat
}

pub open spec fn push_spaces(cur: Seq<char>, n: nat) -> Seq<char> {
    cur + Seq::new(n, |i: int| ' ')
}

/// The lines of terminal output read so far (`lines`) and the line being
/// built (`cur`), as the text is read from `i`.
pub open spec fn sanitize_run(s: Seq<char>, i: int, lines: Seq<Seq<char>>, cur: Seq<char>) -> (Seq<
    Seq<char>,
>, Seq<char>)
    decreases s.len() - i,
{
    if i < 0 || i >= s.len() {
        (lines, cur)
    } else {
        let c = s[i];
        if c == '\u{1b}' {
            let e = escape_end(s, i + 1);
            if i < e && e <= s.len() {
                sanitize_run(s, e, lines, cur)
            } else {
                (lines, cur)
            }
        } else if c == '\r' {
            if i + 1 < s.len() && s[i + 1] == '\n' {
                sanitize_run(s, i + 2, lines.push(cur), Seq::empty())
            } else {
                sanitize_run(s, i + 1, lines, Seq::empty())
            }
        } else if c == '\n' {
            sanitize_run(s, i + 1, lines.push(cur), Seq::empty())
        } else if c == '\u{8}' {
            sanitize_run(
                s,
                i + 1,
                lines,
                if cur.len() > 0 {
                    cur.drop_last()
                } else {
                    cur
                },
            )
        } else if c == '\t' {
            sanitize_run(s, i + 1, lines, push_spaces(cur, tab_spaces(cur.len())))
        } else if is_control(c) {
            sanitize_run(s, i + 1, lines, cur)
        } else {
            sanitize_run(s, i + 1, lines, cur.push(c))
        }
    }
}

/// Drops trailing lines that are blank after trimming.
pub open spec fn drop_blank_tail(lines: Seq<Seq<char>>) -> Seq<Seq<char>>
    decreases lines.len(),
{
    if lines.len() > 0 && trim_spec(lines.last()).len() == 0 {
        drop_blank_tail(lines.drop_last())
    } else {
        lines
    }
}

/// Terminal output as plain lines joined by `'\n'`.
pub open spec fn sanitize_spec(s: Seq<char>) -> Seq<char> {
    let (lines, cur) = sanitize_run(s, 0, Seq::empty(), Seq::empty());
    let all = if cur.len() > 0 {
        lines.push(cur)
    } else {
        lines
    };
    join_lines(drop_blank_tail(all))
}

proof fn lemma_csi_end_bound(s: Seq<char>, k: int)
    requires
        0 <= k,
    ensures
        k <= csi_end(s, k) <= s.len() || (k > s.len() && csi_end(s, k) == s.len()),
    decreases s.len() - k,
{
    if k < s.len() && !('@' <= s[k] && s[k] <= '~') {
        lemma_csi_end_bound(s, k + 1);
    }
}

proof fn lemma_osc_end_bound(s: Seq<char>, k: int)
    requires
        0 <= k,
    ensures
        k <= osc_end(s, k) <= s.len() || (k > s.len() && osc_end(s, k) == s.len()),
    decreases s.len() - k,
{
    if k < s.len() && s[k] != '\u{7}' && !(s[k] == '\u{1b}' && k + 1 < s.len() && s[k + 1] == '\\') {
        lemma_osc_end_bound(s, k + 1);
    }
}

fn csi_end_exec(s: &[char], k: usize) -> (r: usize)
    requires
        k <= s.len(),
    ensures
        r as int == csi_end(s@, k as int),
        k <= r <= s.len(),
{
    let mut j = k;
    while j < s.len() && !('@' <= s[j] && s[j] <= '~')
        invariant
            k <= j <= s.len(),
            csi_end(s@, k as int) == csi_end(s@, j as int),
        decreases s.len() - j,
    {
        j += 1;
    }
    if j < s.len() {
        j + 1
    } else {
        j
    }
}

fn osc_end_exec(s: &[char], k: usize) -> (r: usize)
    requires
        k <= s.len(),
    ensures
        r as int == osc_end(s@, k as int),
        k <= r <= s.len(),
{
    let mut j = k;
    while j < s.len() && s[j] != '\u{7}' && !(s[j] == '\u{1b}' && j + 1 < s.len() && s[j + 1] == '\\')
        invariant
            k <= j <= s.len(),
            osc_end(s@, k as int) == osc_end(s@, j as int),
        decreases s.len() - j,
    {
        j += 1;
    }
    if j >= s.len() {
        j
    } else if s[j] == '\u{7}' {
        j + 1
    } else {
        j + 2
    }
}

fn escape_end_exec(s: &[char], j: usize) -> (r: usize)
    requires
        j <= s.len(),
    ensures
        r as int == escape_end(s@, j as int),
        j <= r <= s.len(),
{
    if j >= s.len() {
        s.len()
    } else if s[j] == '[' {
        csi_end_exec(s, j + 1)
    } else if s[j] == ']' {
        osc_end_exec(s, j + 1)
    } else {
        j + 1
    }
}

pub fn is_control_char(c: char) -> (r: bool)
    ensures
        r == is_control(c),
{
    ('\u{0}' <= c && c <= '\u{1f}') || ('\u{7f}' <= c && c <= '\u{9f}')
}

fn is_blank(line: &[char]) -> (r: bool)
    ensures
        r == (trim_spec(line@).len() == 0),
{
    let t = trim_chars(line);
    t.len() == 0
}

pub(crate) fn drop_blank_tail_exec(lines: &mut Vec<Vec<char>>)
    ensures
        views(final(lines)@) == drop_blank_tail(views(old(lines)@)),
{
    while lines.len() > 0 && is_blank(&lines[lines.len() - 1])
        invariant
            drop_blank_tail(views(lines@)) == drop_blank_tail(views(old(lines)@)),
        decreases lines.len(),
    {
        let ghost before = views(lines@);
        lines.pop();
        proof {
            assert(views(lines@) =~= before.drop_last());
        }
    }
}

/// Terminal output as plain text: escape sequences and control characters
/// removed, CR handled as a carriage return, tabs expanded, blank tail lines
/// dropped.
pub fn sanitize_terminal_chars(s: &[char]) -> (r: Vec<char>)
    ensures
        r@ == sanitize_spec(s@),
{
    let mut lines: Vec<Vec<char>> = Vec::new();
    let mut cur: Vec<char> = Vec::new();
    let mut i: usize = 0;
    let ghost whole = sanitize_run(s@, 0, Seq::empty(), Seq::empty());
    proof {
        assert(views(lines@) =~= Seq::<Seq<char>>::empty());
    }
    while i < s.len()
        invariant
            i <= s.len(),
            whole == sanitize_run(s@, 0, Seq::empty(), Seq::empty()),
            whole == sanitize_run(s@, i as int, views(lines@), cur@),
        decreases s.len() - i,
    {
        let c = s[i];
        let ghost lv = views(lines@);
        if c == '\u{1b}' {
            let e = escape_end_exec(s, i + 1);
            i = e;
        } else if c == '\r' {
            if i + 1 < s.len() && s[i + 1] == '\n' {
                lines.push(cur);
                cur = Vec::new();
                proof {
                    assert(views(lines@) =~= lv.push(views(lines@).last()));
                }
                i += 2;
            } else {
                cur = Vec::new();
                i += 1;
            }
        } else if c == '\n' {
            lines.push(cur);
            cur = Vec::new();
            proof {
                assert(views(lines@) =~= lv.push(views(lines@).last()));
            }
            i += 1;
        } else if c == '\u{8}' {
            if cur.len() > 0 {
                cur.pop();
            }
            i += 1;
        } else if c == '\t' {
            let n = 4 - (cur.len() % 4);
            let ghost c0 = cur@;
            let mut k: usize = 0;
            while k < n
                invariant
                    k <= n,
                    cur@ =~= push_spaces(c0, k as nat),
                decreases n - k,
            {
                cur.push(' ');
                k += 1;
            }
            i += 1;
        } else if is_control_char(c) {
            i += 1;
        } else {
            cur.push(c);
            i += 1;
        }
    }
    if cur.len() > 0 {
        let ghost lv = views(lines@);
        lines.push(cur);
        proof {
            assert(views(lines@) =~= lv.push(views(lines@).last()));
        }
    }
    drop_blank_tail_exec(&mut lines);
    join_lines_exec(&lines)
}

pub fn sanitize_terminal_text(text: &str) -> (r: String)
    ensures
        r@ == sanitize_spec(text@),
{
    let v = str_chars(text);
    let o = sanitize_terminal_chars(&v);
    chars_to_string(&o)
}


// ---------------------------------------------------------------------------
// Previews
// ---------------------------------------------------------------------------

/// The sanitized lines of a text, without blank lines at the end.
pub open spec fn preview_lines_spec(text: Seq<char>) -> Seq<Seq<char>> {
    drop_blank_tail(lines_spec(sanitize_spec(text)))
}

/// `"…<+{n} lines>"`.
pub open spec fn omitted_marker(n: nat) -> Seq<char> {
    "…<+"@ + dec_spec(n) + " lines>"@
}

pub open spec fn sat_sub(a: nat, b: nat) -> nat {
    if a >= b {
        (a - b) as nat
    } else {
        0
    }
}

/// Keeps `(max - 1) / 2` head lines and the rest of `max - 1` tail lines
/// around a marker that counts the omitted lines.
pub open spec fn keep_head_tail_spec(ls: Seq<Seq<char>>, max_lines: nat) -> Seq<Seq<char>> {
    if ls.len() > max_lines {
        let head = sat_sub(max_lines, 1) / 2;
        let tail = sat_sub(max_lines, head + 1);
        let omitted = sat_sub(ls.len(), head + tail);
        ls.take(head as int) + seq![omitted_marker(omitted)] + ls.skip(ls.len() - tail)
    } else {
        ls
    }
}

pub open spec fn clamp_preview_spec(text: Seq<char>, max_lines: nat, max_chars: nat) -> Seq<char> {
    let joined = join_lines(keep_head_tail_spec(preview_lines_spec(text), max_lines));
    if max_chars == usize::MAX {
        joined
    } else {
        ellipsis_spec(trim_end_spec(joined), max_chars)
    }
}

pub open spec fn clamp_tail_preview_spec(text: Seq<char>, max_lines: nat, max_chars: nat) -> Seq<char> {
    let ls = preview_lines_spec(text);
    let kept = if ls.len() > max_lines {
        seq![omitted_marker((ls.len() - max_lines) as nat)] + ls.skip(ls.len() - max_lines)
    } else {
        ls
    };
    tail_ellipsis_spec(trim_end_spec(join_lines(kept)), max_chars)
}

pub open spec fn clamp_head_tail_preview_spec(
    text: Seq<char>,
    head_lines: nat,
    tail_lines: nat,
    max_chars: nat,
) -> Seq<char> {
    let ls = preview_lines_spec(text);
    let keep = if head_lines + tail_lines > usize::MAX {
        usize::MAX as nat
    } else {
        head_lines + tail_lines
    };
    let kept = if ls.len() > keep {
        ls.take(head_lines as int) + seq![omitted_marker((ls.len() - keep) as nat)] + ls.skip(
            ls.len() - tail_lines,
        )
    } else {
        ls
    };
    middle_ellipsis_spec(trim_end_spec(join_lines(kept)), max_chars)
}

pub(crate) fn collect_preview_chars(text: &[char]) -> (r: Vec<Vec<char>>)
    ensures
        views(r@) == preview_lines_spec(text@),
{
    let s = sanitize_terminal_chars(text);
    let mut ls = lines_chars(&s);
    drop_blank_tail_exec(&mut ls);
    ls
}

/// The sanitized lines of a text, without blank lines at the end.
pub fn collect_preview_lines(text: &str) -> (r: Vec<String>)
    ensures
        r@.len() == preview_lines_spec(text@).len(),
        forall|i: int| 0 <= i < r@.len() ==> (#[trigger] r@[i])@ == preview_lines_spec(text@)[i],
{
    let t = str_chars(text);
    let ls = collect_preview_chars(&t);
    let mut out: Vec<String> = Vec::new();
    let mut i: usize = 0;
    while i < ls.len()
        invariant
            i <= ls.len(),
            views(ls@) == preview_lines_spec(text@),
            out@.len() == i,
            forall|k: int| 0 <= k < i ==> (#[trigger] out@[k])@ == views(ls@)[k],
        decreases ls.len() - i,
    {
        out.push(chars_to_string(&ls[i]));
        i += 1;
    }
    out
}

pub(crate) fn marker_line(n: usize) -> (r: Vec<char>)
    ensures
        r@ == omitted_marker(n as nat),
{
    let mut out: Vec<char> = Vec::new();
    push_str(&mut out, "…<+");
    push_dec(&mut out, n as u64);
    push_str(&mut out, " lines>");
    out
}

pub(crate) fn copy_range(ls: &Vec<Vec<char>>, out: &mut Vec<Vec<char>>, start: usize, end: usize)
    requires
        start <= end <= ls.len(),
    ensures
        views(final(out)@) == views(old(out)@) + views(ls@).subrange(start as int, end as int),
{
    let ghost o = views(out@);
    let mut k = start;
    while k < end
        invariant
            start <= k <= end,
            end <= ls.len(),
            views(out@) =~= o + views(ls@).subrange(start as int, k as int),
        decreases end - k,
    {
        let ghost before = views(out@);
        out.push(ls[k].clone());
        proof {
            assert(views(out@) =~= before.push(ls@[k as int]@));
        }
        k += 1;
    }
}

fn keep_head_tail(ls: &Vec<Vec<char>>, max_lines: usize) -> (r: Vec<Vec<char>>)
    ensures
        views(r@) == keep_head_tail_spec(views(ls@), max_lines as nat),
{
    let ghost v = views(ls@);
    let mut out: Vec<Vec<char>> = Vec::new();
    if ls.len() > max_lines {
        let head = if max_lines >= 1 {
            (max_lines - 1) / 2
        } else {
            0
        };
        let tail = if max_lines >= head + 1 {
            max_lines - (head + 1)
        } else {
            0
        };
        let omitted = ls.len() - (head + tail);
        copy_range(ls, &mut out, 0, head);
        let ghost before = views(out@);
        out.push(marker_line(omitted));
        proof {
            assert(views(out@) =~= before.push(omitted_marker(omitted as nat)));
        }
        copy_range(ls, &mut out, ls.len() - tail, ls.len());
        proof {
            assert(v.subrange(0, head as int) =~= v.take(head as int));
            assert(v.subrange(ls.len() - tail, v.len() as int) =~= v.skip(v.len() - tail));
            assert(views(out@) =~= keep_head_tail_spec(v, max_lines as nat));
        }
    } else {
        copy_range(ls, &mut out, 0, ls.len());
        proof {
            assert(views(out@) =~= v);
        }
    }
    out
}

/// Sanitized lines clamped to `max_lines` around an omission marker, then
/// to `max_chars` characters (no character limit at `usize::MAX`).
pub fn clamp_preview_text(text: &str, max_lines: usize, max_chars: usize) -> (r: String)
    ensures
        r@ == clamp_preview_spec(text@, max_lines as nat, max_chars as nat),
{
    let t = str_chars(text);
    let ls = collect_preview_chars(&t);
    let kept = keep_head_tail(&ls, max_lines);
    let joined = join_lines_exec(&kept);
    if max_chars == usize::MAX {
        chars_to_string(&joined)
    } else {
        let te = trim_end_chars(&joined);
        let out = ellipsis_chars(&te, max_chars);
        chars_to_string(&out)
    }
}

/// The last `max_lines` sanitized lines after an omission marker, then the
/// last `max_chars` characters.
pub fn clamp_tail_preview_text(text: &str, max_lines: usize, max_chars: usize) -> (r: String)
    ensures
        r@ == clamp_tail_preview_spec(text@, max_lines as nat, max_chars as nat),
{
    let t = str_chars(text);
    let ls = collect_preview_chars(&t);
    let ghost v = views(ls@);
    let mut kept: Vec<Vec<char>> = Vec::new();
    if ls.len() > max_lines {
        kept.push(marker_line(ls.len() - max_lines));
        copy_range(&ls, &mut kept, ls.len() - max_lines, ls.len());
        proof {
            assert(v.subrange(v.len() - max_lines, v.len() as int) =~= v.skip(v.len() - max_lines));
            assert(views(kept@) =~= seq![omitted_marker((v.len() - max_lines) as nat)] + v.skip(
                v.len() - max_lines,
            ));
        }
    } else {
        copy_range(&ls, &mut kept, 0, ls.len());
        proof {
            assert(views(kept@) =~= v);
        }
    }
    let joined = join_lines_exec(&kept);
    let te = trim_end_chars(&joined);
    let out = tail_ellipsis_chars(&te, max_chars);
    chars_to_string(&out)
}

/// The first `head_lines` and last `tail_lines` sanitized lines around an
/// omission marker, then a middle cut to `max_chars` characters.
pub fn clamp_head_tail_preview_text(text: &str, head_lines: usize, tail_lines: usize, max_chars: usize) -> (r:
    String)
    ensures
        r@ == clamp_head_tail_preview_spec(text@, head_lines as nat, tail_lines as nat, max_chars as nat),
{
    let t = str_chars(text);
    let ls = collect_preview_chars(&t);
    let ghost v = views(ls@);
    let keep = head_lines.saturating_add(tail_lines);
    let mut kept: Vec<Vec<char>> = Vec::new();
    if ls.len() > keep {
        copy_range(&ls, &mut kept, 0, head_lines);
        let ghost before = views(kept@);
        kept.push(marker_line(ls.len() - keep));
        proof {
            assert(views(kept@) =~= before.push(omitted_marker((v.len() - keep) as nat)));
        }
        copy_range(&ls, &mut kept, ls.len() - tail_lines, ls.len());
        proof {
            assert(v.subrange(0, head_lines as int) =~= v.take(head_lines as int));
            assert(v.subrange(v.len() - tail_lines, v.len() as int) =~= v.skip(v.len() - tail_lines));
            assert(views(kept@) =~= v.take(head_lines as int) + seq![omitted_marker((v.len() - keep) as nat)]
                + v.skip(v.len() - tail_lines));
        }
    } else {
        copy_range(&ls, &mut kept, 0, ls.len());
        proof {
            assert(views(kept@) =~= v);
        }
    }
    let joined = join_lines_exec(&kept);
    let te = trim_end_chars(&joined);
    let out = middle_ellipsis_chars(&te, max_chars);
    chars_to_string(&out)
}


// ---------------------------------------------------------------------------
// Byte counts
// ---------------------------------------------------------------------------

/// The power of two that a value is divided by to fit the 53-bit mantissa
/// of an `f64`.
pub open spec fn f64_scale(n: nat) -> nat
    decreases n,
{
    if n < 0x20_0000_0000_0000 {
        1
    } else {
        2 * f64_scale(n / 2)
    }
}

/// `n / d` rounded to the nearest integer, ties to even.
pub open spec fn round_half_even(n: nat, d: nat) -> nat {
    let q = n / d;
    let r = n % d;
    if 2 * r > d || (2 * r == d && q % 2 == 1) {
        q + 1
    } else {
        q
    }
}

/// The value of `n as f64` (round to nearest, ties to even).
pub open spec fn f64_value(n: nat) -> nat {
    round_half_even(n, f64_scale(n)) * f64_scale(n)
}

pub open spec fn pow1024(k: nat) -> nat
    decreases k,
{
    if k == 0 {
        1
    } else {
        1024 * pow1024((k - 1) as nat)
    }
}

/// How many times the value is divided by 1024 (at most five times).
pub open spec fn unit_index(v: nat, idx: nat) -> nat
    decreases 5 - idx,
{
    if idx < 5 && v >= pow1024(idx + 1) {
        unit_index(v, idx + 1)
    } else {
        idx
    }
}

pub open spec fn unit_name(k: nat) -> Seq<char> {
    if k == 1 {
        "KB"@
    } else if k == 2 {
        "MB"@
    } else if k == 3 {
        "GB"@
    } else if k == 4 {
        "TB"@
    } else {
        "PB"@
    }
}

/// `"{bytes} B"` below 1024, else the value in the largest unit up to PB
/// with one decimal.
pub open spec fn bytes_short_spec(bytes: nat) -> Seq<char> {
    let v = f64_value(bytes);
    let k = unit_index(v, 0);
    if k == 0 {
        dec_spec(bytes) + " B"@
    } else {
        let t = round_half_even(10 * v, pow1024(k));
        dec_spec(t / 10) + seq!['.', crate::text::digit_char(t % 10), ' '] + unit_name(k)
    }
}

proof fn lemma_scale_bound(n: nat, d: nat)
    requires
        n < 0x1_0000_0000_0000_0000,
        d > 0,
        n / d >= 0x20_0000_0000_0000,
    ensures
        d < 2048,
{
    assert(d * (n / d) <= n) by {
        vstd::arithmetic::div_mod::lemma_fundamental_div_mod(n as int, d as int);
    }
    assert(d * (n / d) >= d * 0x20_0000_0000_0000) by (nonlinear_arith)
        requires
            n / d >= 0x20_0000_0000_0000,
            d > 0,
    ;
}

fn f64_scale_exec(n: u64) -> (d: u128)
    ensures
        d as nat == f64_scale(n as nat),
        1 <= d <= 4096,
{
    let mut d: u128 = 1;
    while (n as u128) / d >= 0x20_0000_0000_0000
        invariant
            1 <= d < 4096,
            f64_scale(n as nat) == d * f64_scale((n as nat) / (d as nat)),
        decreases 4096 - d,
    {
        proof {
            lemma_scale_bound(n as nat, d as nat);
            vstd::arithmetic::div_mod::lemma_div_denominator(n as int, d as int, 2);
            let x = f64_scale((n as nat) / ((d * 2) as nat));
            assert(f64_scale((n as nat) / (d as nat)) == 2 * x);
            assert(d * (2 * x) == (d * 2) * x) by (nonlinear_arith);
        }
        d = d * 2;
    }
    proof {
        assert((n as nat) / (d as nat) < 0x20_0000_0000_0000);
        assert(f64_scale((n as nat) / (d as nat)) == 1);
        let one = f64_scale((n as nat) / (d as nat));
        assert(d * one == d) by (nonlinear_arith)
            requires
                one == 1,
        ;
    }
    d
}

fn round_half_even_exec(n: u128, d: u128) -> (r: u128)
    requires
        d > 0,
        d <= 0x1_0000_0000_0000_0000,
        n <= 0x1_0000_0000_0000_0000_0000,
    ensures
        r as nat == round_half_even(n as nat, d as nat),
{
    let q = n / d;
    let r = n % d;
    if 2 * r > d || (2 * r == d && q % 2 == 1) {
        q + 1
    } else {
        q
    }
}

/// Human-readable byte count: `"512 B"`, `"1.5 KB"`, ..., up to PB.
pub fn format_bytes_short(bytes: u64) -> (r: String)
    ensures
        r@ == bytes_short_spec(bytes as nat),
{
    let d = f64_scale_exec(bytes);
    let q = round_half_even_exec(bytes as u128, d);
    proof {
        vstd::arithmetic::div_mod::lemma_fundamental_div_mod(bytes as int, d as int);
        assert((d as nat) * ((bytes as nat) / (d as nat)) <= bytes);
        assert(q <= (bytes as nat) / (d as nat) + 1);
        assert(q * d <= 0x1_0000_0000_0000_0000 * 4096) by (nonlinear_arith)
            requires
                q <= (bytes as nat) / (d as nat) + 1,
                (d as nat) * ((bytes as nat) / (d as nat)) <= bytes,
                d <= 4096,
                bytes < 0x1_0000_0000_0000_0000,
        {
        }
    }
    let v = q * d;
    let mut idx: u128 = 0;
    let mut p: u128 = 1;
    while idx < 5 && v >= p * 1024
        invariant
            idx <= 5,
            p as nat == pow1024(idx as nat),
            1 <= p <= 0x4_0000_0000_0000,
            unit_index(v as nat, 0) == unit_index(v as nat, idx as nat),
        decreases 5 - idx,
    {
        proof {
            reveal_with_fuel(pow1024, 6);
            assert(idx == 0 || idx == 1 || idx == 2 || idx == 3 || idx == 4);
            assert(p <= 0x100_0000_0000);
        }
        p = p * 1024;
        idx += 1;
        proof {
            assert(pow1024(idx as nat) == 1024 * pow1024((idx - 1) as nat));
        }
    }
    let mut out: Vec<char> = Vec::new();
    if idx == 0 {
        push_dec(&mut out, bytes);
        push_str(&mut out, " B");
    } else {
        let t = round_half_even_exec(10 * v, p);
        push_dec_u128(&mut out, t / 10);
        out.push('.');
        out.push(crate::text::digit_of((t % 10) as u8));
        out.push(' ');
        if idx == 1 {
            push_str(&mut out, "KB");
        } else if idx == 2 {
            push_str(&mut out, "MB");
        } else if idx == 3 {
            push_str(&mut out, "GB");
        } else if idx == 4 {
            push_str(&mut out, "TB");
        } else {
            push_str(&mut out, "PB");
        }
    }
    chars_to_string(&out)
}

fn push_dec_u128(out: &mut Vec<char>, n: u128)
    ensures
        final(out)@ == old(out)@ + dec_spec(n as nat),
{
    crate::text::push_dec128(out, n)
}

} // verus!
