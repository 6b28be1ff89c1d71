//! Character-level text model shared by the whole library.
//!
//! Text is modelled as `Seq<char>` (the view of `str` and `String`); the
//! executable helpers work on `Vec<char>` and are proved against the spec
//! functions below.
use vstd::prelude::*;

verus! {

// ---------------------------------------------------------------------------
// Spec model
// ---------------------------------------------------------------------------

/// `char::is_whitespace`: the Unicode `White_Space` property.
pub open spec fn is_ws(c: char) -> bool {
    ||| c == ' '
    ||| ('\t' <= c && c <= '\r')
    ||| c == '\u{85}'
    ||| c == '\u{a0}'
    ||| c == '\u{1680}'
    ||| ('\u{2000}' <= c && c <= '\u{200a}')
    ||| c == '\u{2028}'
    ||| c == '\u{2029}'
    ||| c == '\u{202f}'
    ||| c == '\u{205f}'
    ||| c == '\u{3000}'
}

/// `char::is_ascii_uppercase` followed by the ASCII lower-casing map.
pub open spec fn ascii_lower(c: char) -> char {
    if 'A' <= c && c <= 'Z' {
        ((c as u32) + 32) as char
    } else {
        c
    }
}

pub open spec fn ascii_upper(c: char) -> char {
    if 'a' <= c && c <= 'z' {
        ((c as u32) - 32) as char
    } else {
        c
    }
}

/// `str::to_ascii_lowercase`.
pub open spec fn lower_spec(s: Seq<char>) -> Seq<char> {
    s.map_values(|c: char| ascii_lower(c))
}

pub open spec fn upper_spec(s: Seq<char>) -> Seq<char> {
    s.map_values(|c: char| ascii_upper(c))
}

/// `str::trim_start`.
pub open spec fn trim_start_spec(s: Seq<char>) -> Seq<char>
    decreases s.len(),
{
    if s.len() > 0 && is_ws(s[0]) {
        trim_start_spec(s.drop_first())
    } else {
        s
    }
}

/// `str::trim_end`.
pub open spec fn trim_end_spec(s: Seq<char>) -> Seq<char>
    decreases s.len(),
{
    if s.len() > 0 && is_ws(s.last()) {
        trim_end_spec(s.drop_last())
    } else {
        s
    }
}

/// `str::trim`.
pub open spec fn trim_spec(s: Seq<char>) -> Seq<char> {
    trim_end_spec(trim_start_spec(s))
}

/// `str::split(c)`: always at least one piece.
pub open spec fn split_spec(s: Seq<char>, c: char) -> Seq<Seq<char>>
    decreases s.len(),
{
    if s.len() == 0 {
        seq![Seq::<char>::empty()]
    } else {
        let r = split_spec(s.drop_last(), c);
        if s.last() == c {
            r.push(Seq::<char>::empty())
        } else {
            r.update(r.len() - 1, r.last().push(s.last()))
        }
    }
}

/// Drops one trailing `'\r'`.
pub open spec fn strip_cr(s: Seq<char>) -> Seq<char> {
    if s.len() > 0 && s.last() == '\r' {
        s.drop_last()
    } else {
        s
    }
}

/// `str::lines`: split at `'\n'`, the final line ending is optional, and a
/// `'\r'` right before a `'\n'` belongs to the line ending.
pub open spec fn lines_spec(s: Seq<char>) -> Seq<Seq<char>> {
    if s.len() == 0 {
        Seq::empty()
    } else {
        let parts = split_spec(s, '\n');
        let ends_nl = s.last() == '\n';
        let kept = if ends_nl { parts.drop_last() } else { parts };
        Seq::new(
            kept.len(),
            |i: int|
                if ends_nl || i + 1 < kept.len() {
                    strip_cr(kept[i])
                } else {
                    kept[i]
                },
        )
    }
}

/// `[..].join(sep)`.
pub open spec fn join_spec(parts: Seq<Seq<char>>, sep: Seq<char>) -> Seq<char>
    decreases parts.len(),
{
    if parts.len() == 0 {
        Seq::empty()
    } else if parts.len() == 1 {
        parts[0]
    } else {
        join_spec(parts.drop_last(), sep) + sep + parts.last()
    }
}

/// `lines.join("\n")`.
pub open spec fn join_lines(parts: Seq<Seq<char>>) -> Seq<char> {
    join_spec(parts, seq!['\n'])
}

pub open spec fn digit_char(d: nat) -> char {
    ((d % 10) + 48) as char
}

/// Decimal rendering of a natural number (`format!("{}", n)`).
pub open spec fn dec_spec(n: nat) -> Seq<char>
    decreases n,
{
    if n < 10 {
        seq![digit_char(n)]
    } else {
        dec_spec(n / 10).push(digit_char(n % 10))
    }
}

/// Decimal rendering of an integer (`format!("{}", i)`).
pub open spec fn int_dec_spec(i: int) -> Seq<char> {
    if i < 0 {
        seq!['-'] + dec_spec((-i) as nat)
    } else {
        dec_spec(i as nat)
    }
}

/// `t` occurs in `s` at position `i`.
pub open spec fn occurs_at(s: Seq<char>, t: Seq<char>, i: int) -> bool {
    0 <= i && i + t.len() <= s.len() && s.subrange(i, i + t.len()) == t
}

/// `str::contains`.
pub open spec fn contains_spec(s: Seq<char>, t: Seq<char>) -> bool {
    exists|i: int| occurs_at(s, t, i)
}

/// `str::starts_with`.
pub open spec fn starts_with_spec(s: Seq<char>, t: Seq<char>) -> bool {
    t.len() <= s.len() && s.take(t.len() as int) == t
}

/// `str::ends_with`.
pub open spec fn ends_with_spec(s: Seq<char>, t: Seq<char>) -> bool {
    t.len() <= s.len() && s.skip(s.len() - t.len()) == t
}

/// The first `n` characters followed by `'…'` when `s` is longer than `max`
/// characters (`max - 1` characters are kept).
pub open spec fn ellipsis_spec(s: Seq<char>, max: nat) -> Seq<char> {
    if s.len() <= max {
        s
    } else {
        s.take(if max == 0 { 0 } else { max - 1 }).push('…')
    }
}

/// `'…'` followed by the last `max - 1` characters when `s` is longer than `max`.
pub open spec fn tail_ellipsis_spec(s: Seq<char>, max: nat) -> Seq<char> {
    if s.len() <= max {
        s
    } else {
        let keep: int = if max == 0 { 0 } else { max - 1 };
        seq!['…'] + s.skip(s.len() - keep)
    }
}

/// Keeps the head and the tail around a middle `'…'`.
pub open spec fn middle_ellipsis_spec(s: Seq<char>, max: nat) -> Seq<char> {
    if s.len() <= max {
        s
    } else if max <= 1 {
        seq!['…']
    } else {
        let head = max / 2;
        let tail: int = max - (head + 1);
        s.take(head as int).push('…') + s.skip(s.len() - tail)
    }
}

/// Every character of `s` satisfies `f`.
pub open spec fn all_chars(s: Seq<char>, f: spec_fn(char) -> bool) -> bool {
    forall|i: int| 0 <= i < s.len() ==> f(#[trigger] s[i])
}

// ---------------------------------------------------------------------------
// Lemmas
// ---------------------------------------------------------------------------

pub proof fn lemma_split_len(s: Seq<char>, c: char)
    ensures
        split_spec(s, c).len() >= 1,
    decreases s.len(),
{
    if s.len() > 0 {
        lemma_split_len(s.drop_last(), c);
    }
}

pub proof fn lemma_trim_start_skip(s: Seq<char>, k: int)
    requires
        0 <= k <= s.len(),
        forall|j: int| 0 <= j < k ==> is_ws(#[trigger] s[j]),
    ensures
        trim_start_spec(s) == trim_start_spec(s.skip(k)),
    decreases k,
{
    if k == 0 {
        assert(s.skip(0) =~= s);
    } else {
        assert(is_ws(s[0]));
        assert(s.drop_first().skip(k - 1) =~= s.skip(k));
        assert forall|j: int| 0 <= j < k - 1 implies is_ws(#[trigger] s.drop_first()[j]) by {
            assert(s.drop_first()[j] == s[j + 1]);
        }
        lemma_trim_start_skip(s.drop_first(), k - 1);
    }
}

pub proof fn lemma_trim_end_take(s: Seq<char>, k: int)
    requires
        0 <= k <= s.len(),
        forall|j: int| k <= j < s.len() ==> is_ws(#[trigger] s[j]),
    ensures
        trim_end_spec(s) == trim_end_spec(s.take(k)),
    decreases s.len() - k,
{
    if k < s.len() {
        assert(s.drop_last().take(k) =~= s.take(k));
        assert forall|j: int| k <= j < s.drop_last().len() implies is_ws(
            #[trigger] s.drop_last()[j],
        ) by {
            assert(s.drop_last()[j] == s[j]);
        }
        lemma_trim_end_take(s.drop_last(), k);
    } else {
        assert(s.take(k) =~= s);
    }
}

proof fn lemma_trim_start_head(s: Seq<char>)
    ensures
        trim_start_spec(s).len() == 0 || !is_ws(trim_start_spec(s)[0]),
    decreases s.len(),
{
    if s.len() > 0 && is_ws(s[0]) {
        lemma_trim_start_head(s.drop_first());
    }
}

proof fn lemma_trim_end_shape(s: Seq<char>)
    ensures
        trim_end_spec(s).len() <= s.len(),
        trim_end_spec(s) == s.take(trim_end_spec(s).len() as int),
        trim_end_spec(s).len() == 0 || !is_ws(trim_end_spec(s).last()),
    decreases s.len(),
{
    if s.len() > 0 && is_ws(s.last()) {
        lemma_trim_end_shape(s.drop_last());
        assert(s.drop_last().take(trim_end_spec(s).len() as int) =~= s.take(trim_end_spec(s).len() as int));
    } else {
        assert(s.take(s.len() as int) =~= s);
    }
}

/// Trimming twice is trimming once.
pub proof fn lemma_trim_fixed(s: Seq<char>)
    ensures
        trim_spec(trim_spec(s)) == trim_spec(s),
{
    let r = trim_start_spec(s);
    let t = trim_end_spec(r);
    lemma_trim_start_head(s);
    lemma_trim_end_shape(r);
    if t.len() > 0 {
        assert(t[0] == r[0]);
        assert(trim_start_spec(t) == t);
    } else {
        assert(trim_start_spec(t) == t);
    }
}

pub proof fn lemma_dec_nonempty(n: nat)
    ensures
        dec_spec(n).len() >= 1,
    decreases n,
{
    if n >= 10 {
        lemma_dec_nonempty(n / 10);
    }
}

// ---------------------------------------------------------------------------
// Executable helpers
// ---------------------------------------------------------------------------

/// The characters of `s`, in order.
pub fn str_chars(s: &str) -> (r: Vec<char>)
    ensures
        r@ == s@,
{
    let mut out: Vec<char> = Vec::new();
    for c in it: s.chars()
        invariant
            out@ == it.seq().take(it.index() as int),
            it.seq() == s@,
    {
        out.push(c);
    }
    out
}

/// Builds a `String` holding exactly the characters of `v` (`Iterator::collect`).
#[verifier::external_body]
pub fn chars_to_string(v: &[char]) -> (r: String)
    ensures
        r@ == v@,
{
    v.iter().collect()
}

/// Appends the characters of `s` to `out`.
pub fn push_str(out: &mut Vec<char>, s: &str)
    ensures
        final(out)@ == old(out)@ + s@,
{
    let ghost start = out@;
    for c in it: s.chars()
        invariant
            out@ == start + it.seq().take(it.index() as int),
            it.seq() == s@,
    {
        out.push(c);
        proof {
            assert(it.seq().take(it.index() + 1) =~= it.seq().take(it.index() as int).push(c));
        }
    }
    proof {
        assert(s@.take(s@.len() as int) =~= s@);
    }
}

/// Appends `src` to `out`.
pub fn push_chars(out: &mut Vec<char>, src: &[char])
    ensures
        final(out)@ == old(out)@ + src@,
{
    let ghost start = out@;
    let mut i: usize = 0;
    while i < src.len()
        invariant
            i <= src.len(),
            out@ == start + src@.take(i as int),
        decreases src.len() - i,
    {
        out.push(src[i]);
        i += 1;
        proof {
            assert(src@.take(i as int) =~= src@.take(i - 1).push(src@[i - 1]));
        }
    }
    proof {
        assert(src@.take(src@.len() as int) =~= src@);
    }
}

/// What `char::is_alphanumeric` answers: whether the character is
/// alphabetic or numeric by the Unicode tables of the standard library.
pub uninterp spec fn char_is_alphanumeric(c: char) -> bool;

/// `char::is_alphanumeric`; its answer depends on the character alone and is
/// named `char_is_alphanumeric`.
#[verifier::external_body]
pub fn is_alphanumeric(c: char) -> (r: bool)
    ensures
        r == char_is_alphanumeric(c),
{
    c.is_alphanumeric()
}

pub fn is_whitespace(c: char) -> (r: bool)
    ensures
        r == is_ws(c),
{
    c == ' ' || ('\t' <= c && c <= '\r') || c == '\u{85}' || c == '\u{a0}' || c == '\u{1680}'
        || ('\u{2000}' <= c && c <= '\u{200a}') || c == '\u{2028}' || c == '\u{2029}' || c
        == '\u{202f}' || c == '\u{205f}' || c == '\u{3000}'
}

pub fn to_ascii_lower_char(c: char) -> (r: char)
    ensures
        r == ascii_lower(c),
{
    if 'A' <= c && c <= 'Z' {
        let v: u32 = c as u32 + 32;
        assert(v <= 0x7f);
        char_from_ascii(v)
    } else {
        c
    }
}

pub fn to_ascii_upper_char(c: char) -> (r: char)
    ensures
        r == ascii_upper(c),
{
    if 'a' <= c && c <= 'z' {
        let v: u32 = c as u32 - 32;
        char_from_ascii(v)
    } else {
        c
    }
}

/// `char::from_u32` on a value below `0x80`, which always is a char.
#[verifier::external_body]
fn char_from_ascii(v: u32) -> (r: char)
    requires
        v < 0x80,
    ensures
        r == v as char,
        r as u32 == v,
{
    char::from_u32(v).unwrap()
}

/// `str::to_ascii_lowercase` on characters.
pub fn lower_chars(s: &[char]) -> (r: Vec<char>)
    ensures
        r@ == lower_spec(s@),
{
    let mut out: Vec<char> = Vec::new();
    let mut i: usize = 0;
    while i < s.len()
        invariant
            i <= s.len(),
            out@ =~= lower_spec(s@.take(i as int)),
        decreases s.len() - i,
    {
        out.push(to_ascii_lower_char(s[i]));
        i += 1;
    }
    proof {
        assert(s@.take(s@.len() as int) =~= s@);
    }
    out
}

pub fn upper_chars(s: &[char]) -> (r: Vec<char>)
    ensures
        r@ == upper_spec(s@),
{
    let mut out: Vec<char> = Vec::new();
    let mut i: usize = 0;
    while i < s.len()
        invariant
            i <= s.len(),
            out@ =~= upper_spec(s@.take(i as int)),
        decreases s.len() - i,
    {
        out.push(to_ascii_upper_char(s[i]));
        i += 1;
    }
    proof {
        assert(s@.take(s@.len() as int) =~= s@);
    }
    out
}

/// Copies `s[start..end]`.
pub fn slice_chars(s: &[char], start: usize, end: usize) -> (r: Vec<char>)
    requires
        start <= end <= s.len(),
    ensures
        r@ == s@.subrange(start as int, end as int),
{
    let mut out: Vec<char> = Vec::new();
    let mut i: usize = start;
    while i < end
        invariant
            start <= i <= end,
            end <= s.len(),
            out@ =~= s@.subrange(start as int, i as int),
        decreases end - i,
    {
        out.push(s[i]);
        i += 1;
    }
    out
}

/// Index of the first non-whitespace character (or the length).
pub fn trim_start_index(s: &[char]) -> (k: usize)
    ensures
        k <= s.len(),
        trim_start_spec(s@) == s@.skip(k as int),
{
    let mut k: usize = 0;
    while k < s.len() && is_whitespace(s[k])
        invariant
            k <= s.len(),
            forall|j: int| 0 <= j < k ==> is_ws(#[trigger] s@[j]),
        decreases s.len() - k,
    {
        k += 1;
    }
    proof {
        lemma_trim_start_skip(s@, k as int);
        if k < s.len() {
            assert(s@.skip(k as int)[0] == s@[k as int]);
        }
    }
    k
}

/// One past the last non-whitespace character (or zero).
pub fn trim_end_index(s: &[char]) -> (k: usize)
    ensures
        k <= s.len(),
        trim_end_spec(s@) == s@.take(k as int),
{
    let mut k: usize = s.len();
    while k > 0 && is_whitespace(s[k - 1])
        invariant
            k <= s.len(),
            forall|j: int| k <= j < s.len() ==> is_ws(#[trigger] s@[j]),
        decreases k,
    {
        k -= 1;
    }
    proof {
        lemma_trim_end_take(s@, k as int);
        if k > 0 {
            assert(s@.take(k as int).last() == s@[k - 1]);
        }
    }
    k
}

pub fn trim_chars(s: &[char]) -> (r: Vec<char>)
    ensures
        r@ == trim_spec(s@),
{
    let a = trim_start_index(s);
    let rest = slice_chars(s, a, s.len());
    let b = trim_end_index(&rest);
    assert(s@.skip(a as int) =~= s@.subrange(a as int, s@.len() as int));
    slice_chars(&rest, 0, b)
}

pub fn trim_end_chars(s: &[char]) -> (r: Vec<char>)
    ensures
        r@ == trim_end_spec(s@),
{
    let b = trim_end_index(s);
    slice_chars(s, 0, b)
}

pub fn trim_start_chars(s: &[char]) -> (r: Vec<char>)
    ensures
        r@ == trim_start_spec(s@),
{
    let a = trim_start_index(s);
    slice_chars(s, a, s.len())
}

/// `str::trim` on a `str`, as characters.
pub fn trim_str(s: &str) -> (r: Vec<char>)
    ensures
        r@ == trim_spec(s@),
{
    let v = str_chars(s);
    trim_chars(&v)
}

/// Compares two character sequences.
pub fn chars_eq(a: &[char], b: &[char]) -> (r: bool)
    ensures
        r == (a@ == b@),
{
    if a.len() != b.len() {
        return false;
    }
    let mut i: usize = 0;
    while i < a.len()
        invariant
            i <= a.len(),
            a.len() == b.len(),
            forall|j: int| 0 <= j < i ==> a@[j] == b@[j],
        decreases a.len() - i,
    {
        if a[i] != b[i] {
            return false;
        }
        i += 1;
    }
    assert(a@ =~= b@);
    true
}

/// Compares characters with a literal.
pub fn chars_eq_str(a: &[char], b: &str) -> (r: bool)
    ensures
        r == (a@ == b@),
{
    let bv = str_chars(b);
    chars_eq(a, &bv)
}

/// `t` occurs in `s` at `i`.
pub fn occurs_at_exec(s: &[char], t: &[char], i: usize) -> (r: bool)
    ensures
        r == occurs_at(s@, t@, i as int),
{
    if i > s.len() || t.len() > s.len() - i {
        return false;
    }
    let mut j: usize = 0;
    while j < t.len()
        invariant
            j <= t.len(),
            i + t.len() <= s.len(),
            forall|k: int| 0 <= k < j ==> s@[i + k] == t@[k],
        decreases t.len() - j,
    {
        if s[i + j] != t[j] {
            assert(s@.subrange(i as int, i + t@.len())[j as int] != t@[j as int]);
            return false;
        }
        j += 1;
    }
    assert(s@.subrange(i as int, i + t@.len()) =~= t@);
    true
}

pub fn starts_with_chars(s: &[char], t: &[char]) -> (r: bool)
    ensures
        r == starts_with_spec(s@, t@),
{
    let r = occurs_at_exec(s, t, 0);
    proof {
        if t@.len() <= s@.len() {
            assert(s@.subrange(0, t@.len() as int) =~= s@.take(t@.len() as int));
        }
    }
    r
}

pub fn starts_with_str(s: &[char], t: &str) -> (r: bool)
    ensures
        r == starts_with_spec(s@, t@),
{
    let tv = str_chars(t);
    starts_with_chars(s, &tv)
}

pub fn ends_with_chars(s: &[char], t: &[char]) -> (r: bool)
    ensures
        r == ends_with_spec(s@, t@),
{
    if t.len() > s.len() {
        return false;
    }
    let r = occurs_at_exec(s, t, s.len() - t.len());
    proof {
        assert(s@.subrange(s@.len() - t@.len(), s@.len() as int) =~= s@.skip(
            s@.len() - t@.len(),
        ));
    }
    r
}

pub fn ends_with_str(s: &[char], t: &str) -> (r: bool)
    ensures
        r == ends_with_spec(s@, t@),
{
    let tv = str_chars(t);
    ends_with_chars(s, &tv)
}

/// First position at which `t` occurs in `s`.
pub fn find_chars(s: &[char], t: &[char]) -> (r: Option<usize>)
    ensures
        match r {
            Some(i) => occurs_at(s@, t@, i as int) && forall|j: int|
                0 <= j < i ==> !occurs_at(s@, t@, j),
            None => !contains_spec(s@, t@),
        },
{
    if t.len() > s.len() {
        proof {
            assert forall|j: int| !occurs_at(s@, t@, j) by {}
        }
        return None;
    }
    if t.len() == 0 {
        assert(s@.subrange(0, 0) =~= t@);
        return Some(0);
    }
    let mut i: usize = 0;
    while i <= s.len() - t.len()
        invariant
            1 <= t.len() <= s.len(),
            i <= s.len() - t.len() + 1,
            forall|j: int| 0 <= j < i ==> !occurs_at(s@, t@, j),
        decreases s.len() - t.len() + 1 - i,
    {
        if occurs_at_exec(s, t, i) {
            return Some(i);
        }
        i += 1;
    }
    proof {
        assert forall|j: int| !occurs_at(s@, t@, j) by {
            if 0 <= j < i {
            }
        }
    }
    None
}

pub fn contains_chars(s: &[char], t: &[char]) -> (r: bool)
    ensures
        r == contains_spec(s@, t@),
{
    match find_chars(s, t) {
        Some(_) => true,
        None => false,
    }
}

pub fn contains_str(s: &[char], t: &str) -> (r: bool)
    ensures
        r == contains_spec(s@, t@),
{
    let tv = str_chars(t);
    contains_chars(s, &tv)
}

/// The character `c` occurs in `s`.
pub fn has_char(s: &[char], c: char) -> (r: bool)
    ensures
        r == s@.contains(c),
{
    let mut i: usize = 0;
    while i < s.len()
        invariant
            i <= s.len(),
            forall|j: int| 0 <= j < i ==> s@[j] != c,
        decreases s.len() - i,
    {
        if s[i] == c {
            return true;
        }
        i += 1;
    }
    false
}

/// Decimal rendering of `n`.
pub fn dec_chars(n: u128) -> (r: Vec<char>)
    ensures
        r@ == dec_spec(n as nat),
    decreases n,
{
    if n < 10 {
        let d = digit(n);
        let mut v: Vec<char> = Vec::new();
        v.push(d);
        v
    } else {
        let mut v = dec_chars(n / 10);
        v.push(digit(n % 10));
        v
    }
}

/// The decimal digit character of `d`.
pub fn digit_of(d: u8) -> (r: char)
    requires
        d < 10,
    ensures
        r == digit_char(d as nat),
{
    digit(d as u128)
}

fn digit(d: u128) -> (r: char)
    requires
        d < 10,
    ensures
        r == digit_char(d as nat),
{
    let v: u32 = (d as u32) + 48;
    char_from_ascii(v)
}

/// Appends the decimal rendering of `n`.
pub fn push_dec(out: &mut Vec<char>, n: u64)
    ensures
        final(out)@ == old(out)@ + dec_spec(n as nat),
{
    let d = dec_chars(n as u128);
    push_chars(out, &d);
}

/// Appends the decimal rendering of a `u128`.
pub fn push_dec128(out: &mut Vec<char>, n: u128)
    ensures
        final(out)@ == old(out)@ + dec_spec(n as nat),
{
    let d = dec_chars(n);
    push_chars(out, &d);
}

/// Appends the decimal rendering of a signed `n`.
pub fn push_int(out: &mut Vec<char>, n: i64)
    ensures
        final(out)@ == old(out)@ + int_dec_spec(n as int),
{
    if n < 0 {
        let m: u64 = if n == i64::MIN {
            9223372036854775808u64
        } else {
            (-n) as u64
        };
        let ghost o = out@;
        out.push('-');
        push_dec(out, m);
        assert(out@ =~= o + (seq!['-'] + dec_spec((-(n as int)) as nat)));
    } else {
        push_dec(out, n as u64);
    }
}

/// `ellipsis_spec` on characters.
pub fn ellipsis_chars(s: &[char], max: usize) -> (r: Vec<char>)
    ensures
        r@ == ellipsis_spec(s@, max as nat),
{
    if s.len() <= max {
        slice_chars(s, 0, s.len())
    } else {
        let keep = if max == 0 {
            0
        } else {
            max - 1
        };
        let mut out = slice_chars(s, 0, keep);
        out.push('…');
        proof {
            assert(s@.subrange(0, keep as int) =~= s@.take(keep as int));
        }
        out
    }
}

/// `tail_ellipsis_spec` on characters.
pub fn tail_ellipsis_chars(s: &[char], max: usize) -> (r: Vec<char>)
    ensures
        r@ == tail_ellipsis_spec(s@, max as nat),
{
    if s.len() <= max {
        slice_chars(s, 0, s.len())
    } else {
        let keep = if max == 0 {
            0
        } else {
            max - 1
        };
        let mut out: Vec<char> = Vec::new();
        out.push('…');
        let rest = slice_chars(s, s.len() - keep, s.len());
        push_chars(&mut out, &rest);
        proof {
            assert(s@.subrange(s@.len() - keep, s@.len() as int) =~= s@.skip(
                s@.len() - keep,
            ));
        }
        out
    }
}

/// `middle_ellipsis_spec` on characters.
pub fn middle_ellipsis_chars(s: &[char], max: usize) -> (r: Vec<char>)
    ensures
        r@ == middle_ellipsis_spec(s@, max as nat),
{
    if s.len() <= max {
        slice_chars(s, 0, s.len())
    } else if max <= 1 {
        let mut out: Vec<char> = Vec::new();
        out.push('…');
        out
    } else {
        let head = max / 2;
        let tail = max - (head + 1);
        let mut out = slice_chars(s, 0, head);
        out.push('…');
        let rest = slice_chars(s, s.len() - tail, s.len());
        push_chars(&mut out, &rest);
        proof {
            assert(s@.subrange(0, head as int) =~= s@.take(head as int));
            assert(s@.subrange(s@.len() - tail, s@.len() as int) =~= s@.skip(
                s@.len() - tail,
            ));
        }
        out
    }
}

/// `str::split(c)` on characters.
pub fn split_chars(s: &[char], c: char) -> (r: Vec<Vec<char>>)
    ensures
        r@.len() == split_spec(s@, c).len(),
        forall|i: int| 0 <= i < r@.len() ==> (#[trigger] r@[i])@ == split_spec(s@, c)[i],
{
    let mut done: Vec<Vec<char>> = Vec::new();
    let mut cur: Vec<char> = Vec::new();
    let mut i: usize = 0;
    while i < s.len()
        invariant
            i <= s.len(),
            done@.len() + 1 == split_spec(s@.take(i as int), c).len(),
            forall|k: int|
                0 <= k < done@.len() ==> (#[trigger] done@[k])@ == split_spec(
                    s@.take(i as int),
                    c,
                )[k],
            cur@ == split_spec(s@.take(i as int), c).last(),
        decreases s.len() - i,
    {
        proof {
            assert(s@.take(i + 1).drop_last() =~= s@.take(i as int));
            lemma_split_len(s@.take(i as int), c);
        }
        if s[i] == c {
            let piece = cur;
            done.push(piece);
            cur = Vec::new();
        } else {
            cur.push(s[i]);
        }
        i += 1;
    }
    proof {
        assert(s@.take(s@.len() as int) =~= s@);
    }
    done.push(cur);
    done
}

/// Seq of views of a vector of character vectors.
pub open spec fn views(v: Seq<Vec<char>>) -> Seq<Seq<char>> {
    v.map_values(|x: Vec<char>| x@)
}

/// `str::lines` on characters.
pub fn lines_chars(s: &[char]) -> (r: Vec<Vec<char>>)
    ensures
        views(r@) == lines_spec(s@),
{
    if s.len() == 0 {
        let r: Vec<Vec<char>> = Vec::new();
        assert(views(r@) =~= lines_spec(s@));
        return r;
    }
    let parts = split_chars(s, '\n');
    let ends_nl = s[s.len() - 1] == '\n';
    let n = if ends_nl {
        parts.len() - 1
    } else {
        parts.len()
    };
    proof {
        lemma_split_len(s@, '\n');
    }
    let ghost kept = if ends_nl {
        split_spec(s@, '\n').drop_last()
    } else {
        split_spec(s@, '\n')
    };
    let mut out: Vec<Vec<char>> = Vec::new();
    let mut i: usize = 0;
    while i < n
        invariant
            i <= n,
            n == kept.len(),
            n <= parts@.len(),
            parts@.len() == split_spec(s@, '\n').len(),
            forall|k: int| 0 <= k < parts@.len() ==> (#[trigger] parts@[k])@ == split_spec(
                s@,
                '\n',
            )[k],
            forall|k: int| 0 <= k < kept.len() ==> kept[k] == split_spec(s@, '\n')[k],
            ends_nl == (s@.last() == '\n'),
            out@.len() == i,
            forall|k: int|
                0 <= k < i ==> (#[trigger] out@[k])@ == (if ends_nl || k + 1 < kept.len() {
                    strip_cr(kept[k])
                } else {
                    kept[k]
                }),
        decreases n - i,
    {
        let p = &parts[i];
        let strip = ends_nl || i + 1 < n;
        if strip && p.len() > 0 && p[p.len() - 1] == '\r' {
            let q = slice_chars(p, 0, p.len() - 1);
            proof {
                assert(p@.subrange(0, p@.len() - 1) =~= p@.drop_last());
            }
            out.push(q);
        } else {
            let q = slice_chars(p, 0, p.len());
            proof {
                assert(p@.subrange(0, p@.len() as int) =~= p@);
            }
            out.push(q);
        }
        i += 1;
    }
    assert(views(out@) =~= lines_spec(s@));
    out
}

/// `join_spec` on vectors of characters.
pub fn join_chars(parts: &Vec<Vec<char>>, sep: &[char]) -> (r: Vec<char>)
    ensures
        r@ == join_spec(views(parts@), sep@),
{
    let mut out: Vec<char> = Vec::new();
    let mut i: usize = 0;
    while i < parts.len()
        invariant
            i <= parts.len(),
            out@ == join_spec(views(parts@.take(i as int)), sep@),
        decreases parts.len() - i,
    {
        let ghost before = out@;
        if i > 0 {
            push_chars(&mut out, sep);
        }
        push_chars(&mut out, &parts[i]);
        proof {
            let vs = views(parts@.take(i + 1));
            assert(vs.drop_last() =~= views(parts@.take(i as int)));
            assert(vs.last() == parts@[i as int]@);
            if i == 0 {
                assert(vs.len() == 1);
                assert(out@ =~= vs[0]);
            } else {
                assert(out@ =~= before + sep@ + vs.last());
            }
        }
        i += 1;
    }
    assert(parts@.take(parts@.len() as int) =~= parts@);
    out
}

/// `lines.join("\n")`.
pub fn join_lines_exec(parts: &Vec<Vec<char>>) -> (r: Vec<char>)
    ensures
        r@ == join_lines(views(parts@)),
{
    let mut sep: Vec<char> = Vec::new();
    sep.push('\n');
    assert(sep@ =~= seq!['\n']);
    join_chars(parts, &sep)
}

/// Converts a literal into its characters, as a new line.
pub fn line_of(s: &str) -> (r: Vec<char>)
    ensures
        r@ == s@,
{
    str_chars(s)
}

} // verus!
