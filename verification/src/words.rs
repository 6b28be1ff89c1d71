//! Splitting text: at characters of a class, at a separator string, into
//! whitespace-separated words; and trimming characters of a class.
use vstd::prelude::*;

use crate::text::{is_ws, is_whitespace, occurs_at, occurs_at_exec, trim_spec, trim_chars, views, join_spec};

verus! {

/// The classes of characters that text is split or trimmed at.
#[derive(Debug, Clone, Copy, PartialEq, Eq, Structural)]
pub enum CharClass {
    /// `char::is_whitespace`.
    Space,
    /// `"`, `'` and a backtick.
    Quote,
    /// `(` and `)`.
    Paren,
    /// Whitespace and the shell operators `;`, `&`, `|`, `(`, `)`, `<`, `>`.
    ShellBreak,
    /// `/` and `\\`.
    PathSep,
}

pub open spec fn in_class(c: char, k: CharClass) -> bool {
    match k {
        CharClass::Space => is_ws(c),
        CharClass::Quote => c == '"' || c == '\'' || c == '`',
        CharClass::Paren => c == '(' || c == ')',
        CharClass::ShellBreak => is_ws(c) || c == ';' || c == '&' || c == '|' || c == '(' || c == ')'
            || c == '<' || c == '>',
        CharClass::PathSep => c == '/' || c == '\\',
    }
}

pub fn in_class_exec(c: char, k: CharClass) -> (r: bool)
    ensures
        r == in_class(c, k),
{
    match k {
        CharClass::Space => is_whitespace(c),
        CharClass::Quote => c == '"' || c == '\'' || c == '`',
        CharClass::Paren => c == '(' || c == ')',
        CharClass::ShellBreak => is_whitespace(c) || c == ';' || c == '&' || c == '|' || c == '('
            || c == ')' || c == '<' || c == '>',
        CharClass::PathSep => c == '/' || c == '\\',
    }
}

// ---------------------------------------------------------------------------
// Trimming a class
// ---------------------------------------------------------------------------

pub open spec fn trim_class_start(s: Seq<char>, k: CharClass) -> Seq<char>
    decreases s.len(),
{
    if s.len() > 0 && in_class(s[0], k) {
        trim_class_start(s.drop_first(), k)
    } else {
        s
    }
}

pub open spec fn trim_class_end(s: Seq<char>, k: CharClass) -> Seq<char>
    decreases s.len(),
{
    if s.len() > 0 && in_class(s.last(), k) {
        trim_class_end(s.drop_last(), k)
    } else {
        s
    }
}

/// `str::trim_matches` with the class as the pattern.
pub open spec fn trim_class(s: Seq<char>, k: CharClass) -> Seq<char> {
    trim_class_end(trim_class_start(s, k), k)
}

proof fn lemma_trim_class_start_step(s: Seq<char>, i: int, k: CharClass)
    requires
        0 <= i < s.len(),
        in_class(s[i], k),
    ensures
        trim_class_start(s.skip(i), k) == trim_class_start(s.skip(i + 1), k),
{
    assert(s.skip(i).drop_first() =~= s.skip(i + 1));
}

pub fn trim_class_chars(s: &[char], k: CharClass) -> (r: Vec<char>)
    ensures
        r@ == trim_class(s@, k),
{
    let mut i: usize = 0;
    assert(s@.skip(0) =~= s@);
    while i < s.len() && in_class_exec(s[i], k)
        invariant
            i <= s.len(),
            trim_class_start(s@, k) == trim_class_start(s@.skip(i as int), k),
        decreases s.len() - i,
    {
        proof {
            lemma_trim_class_start_step(s@, i as int, k);
        }
        i += 1;
    }
    let ghost t = s@.skip(i as int);
    assert(trim_class_start(s@, k) == t);
    let mut j: usize = s.len();
    while j > i && in_class_exec(s[j - 1], k)
        invariant
            i <= j <= s.len(),
            t == s@.skip(i as int),
            trim_class_end(t, k) == trim_class_end(s@.subrange(i as int, j as int), k),
        decreases j,
    {
        proof {
            let u = s@.subrange(i as int, j as int);
            assert(u.drop_last() =~= s@.subrange(i as int, j - 1));
        }
        j -= 1;
    }
    proof {
        assert(t =~= s@.subrange(i as int, s.len() as int));
    }
    let mut out: Vec<char> = Vec::new();
    let mut m = i;
    while m < j
        invariant
            i <= m <= j <= s.len(),
            out@ =~= s@.subrange(i as int, m as int),
        decreases j - m,
    {
        out.push(s[m]);
        m += 1;
    }
    out
}

// ---------------------------------------------------------------------------
// Splitting at a class
// ---------------------------------------------------------------------------

/// `str::split` with the class as the pattern, scanned from position `i`
/// with the finished pieces `acc` and the piece `cur` being built.
pub open spec fn split_class_run(s: Seq<char>, k: CharClass, i: int, acc: Seq<Seq<char>>, cur: Seq<char>) -> Seq<
    Seq<char>,
>
    decreases s.len() - i,
{
    if i >= s.len() || i < 0 {
        acc.push(cur)
    } else if in_class(s[i], k) {
        split_class_run(s, k, i + 1, acc.push(cur), Seq::empty())
    } else {
        split_class_run(s, k, i + 1, acc, cur.push(s[i]))
    }
}

/// `str::split` with the class as the pattern: empty pieces included.
pub open spec fn split_class(s: Seq<char>, k: CharClass) -> Seq<Seq<char>> {
    split_class_run(s, k, 0, Seq::empty(), Seq::empty())
}

pub fn split_class_chars(s: &[char], k: CharClass) -> (r: Vec<Vec<char>>)
    ensures
        views(r@) == split_class(s@, k),
{
    let mut acc: Vec<Vec<char>> = Vec::new();
    let mut cur: Vec<char> = Vec::new();
    let mut i: usize = 0;
    assert(views(acc@) =~= Seq::<Seq<char>>::empty());
    assert(cur@ =~= Seq::<char>::empty());
    while i < s.len()
        invariant
            i <= s.len(),
            split_class_run(s@, k, i as int, views(acc@), cur@) == split_class(s@, k),
        decreases s.len() - i,
    {
        if in_class_exec(s[i], k) {
            let ghost before = views(acc@);
            acc.push(cur);
            proof {
                assert(views(acc@) =~= before.push(cur@));
            }
            cur = Vec::new();
            proof {
                assert(cur@ =~= Seq::<char>::empty());
            }
        } else {
            cur.push(s[i]);
        }
        i += 1;
    }
    let ghost before = views(acc@);
    acc.push(cur);
    proof {
        assert(views(acc@) =~= before.push(cur@));
    }
    acc
}

/// The pieces that are not empty, in order.
pub open spec fn nonempty_parts(parts: Seq<Seq<char>>) -> Seq<Seq<char>>
    decreases parts.len(),
{
    if parts.len() == 0 {
        Seq::empty()
    } else {
        let r = nonempty_parts(parts.drop_last());
        if parts.last().len() > 0 {
            r.push(parts.last())
        } else {
            r
        }
    }
}

/// `str::split_whitespace`.
pub open spec fn words_spec(s: Seq<char>) -> Seq<Seq<char>> {
    nonempty_parts(split_class(s, CharClass::Space))
}

pub fn nonempty_parts_exec(parts: &Vec<Vec<char>>) -> (r: Vec<Vec<char>>)
    ensures
        views(r@) == nonempty_parts(views(parts@)),
{
    let ghost v = views(parts@);
    let mut out: Vec<Vec<char>> = Vec::new();
    let mut i: usize = 0;
    while i < parts.len()
        invariant
            i <= parts.len(),
            v == views(parts@),
            views(out@) == nonempty_parts(v.take(i as int)),
        decreases parts.len() - i,
    {
        proof {
            assert(v.take(i + 1).drop_last() =~= v.take(i as int));
        }
        if parts[i].len() > 0 {
            let ghost before = views(out@);
            out.push(parts[i].clone());
            proof {
                assert(views(out@) =~= before.push(v[i as int]));
            }
        }
        i += 1;
    }
    proof {
        assert(v.take(parts.len() as int) =~= v);
    }
    out
}

/// `str::split_whitespace`.
pub fn words_chars(s: &[char]) -> (r: Vec<Vec<char>>)
    ensures
        views(r@) == words_spec(s@),
{
    let parts = split_class_chars(s, CharClass::Space);
    nonempty_parts_exec(&parts)
}

// ---------------------------------------------------------------------------
// Splitting at a separator string
// ---------------------------------------------------------------------------

/// `str::split` with a string pattern: the leftmost occurrences, none
/// overlapping, scanned from position `i`.
pub open spec fn split_pat_run(s: Seq<char>, p: Seq<char>, i: int, acc: Seq<Seq<char>>, cur: Seq<char>) -> Seq<
    Seq<char>,
>
    decreases s.len() - i,
{
    if i >= s.len() || i < 0 || p.len() == 0 {
        acc.push(cur + s.skip(i))
    } else if occurs_at(s, p, i) {
        split_pat_run(s, p, i + p.len(), acc.push(cur), Seq::empty())
    } else {
        split_pat_run(s, p, i + 1, acc, cur.push(s[i]))
    }
}

/// `str::split` with a non-empty string pattern: empty pieces included.
pub open spec fn split_pat(s: Seq<char>, p: Seq<char>) -> Seq<Seq<char>> {
    split_pat_run(s, p, 0, Seq::empty(), Seq::empty())
}

pub fn split_pat_chars(s: &[char], p: &[char]) -> (r: Vec<Vec<char>>)
    requires
        p@.len() > 0,
    ensures
        views(r@) == split_pat(s@, p@),
{
    let mut acc: Vec<Vec<char>> = Vec::new();
    let mut cur: Vec<char> = Vec::new();
    let mut i: usize = 0;
    assert(views(acc@) =~= Seq::<Seq<char>>::empty());
    assert(cur@ =~= Seq::<char>::empty());
    while i < s.len()
        invariant
            i <= s.len(),
            p@.len() > 0,
            split_pat_run(s@, p@, i as int, views(acc@), cur@) == split_pat(s@, p@),
        decreases s.len() - i,
    {
        if occurs_at_exec(s, p, i) {
            let ghost before = views(acc@);
            acc.push(cur);
            proof {
                assert(views(acc@) =~= before.push(cur@));
            }
            cur = Vec::new();
            proof {
                assert(cur@ =~= Seq::<char>::empty());
            }
            i += p.len();
        } else {
            cur.push(s[i]);
            i += 1;
        }
    }
    let ghost before = views(acc@);
    proof {
        assert(cur@ + s@.skip(i as int) =~= cur@);
    }
    acc.push(cur);
    proof {
        assert(views(acc@) =~= before.push(cur@));
    }
    acc
}

/// Every piece split again at `p`, the results in order.
pub open spec fn flat_split(parts: Seq<Seq<char>>, p: Seq<char>) -> Seq<Seq<char>>
    decreases parts.len(),
{
    if parts.len() == 0 {
        Seq::empty()
    } else {
        flat_split(parts.drop_last(), p) + split_pat(parts.last(), p)
    }
}

pub fn flat_split_exec(parts: &Vec<Vec<char>>, p: &[char]) -> (r: Vec<Vec<char>>)
    requires
        p@.len() > 0,
    ensures
        views(r@) == flat_split(views(parts@), p@),
{
    let ghost v = views(parts@);
    let mut out: Vec<Vec<char>> = Vec::new();
    let mut i: usize = 0;
    while i < parts.len()
        invariant
            i <= parts.len(),
            p@.len() > 0,
            v == views(parts@),
            views(out@) == flat_split(v.take(i as int), p@),
        decreases parts.len() - i,
    {
        proof {
            assert(v.take(i + 1).drop_last() =~= v.take(i as int));
        }
        let pieces = split_pat_chars(&parts[i], p);
        let ghost before = views(out@);
        let mut j: usize = 0;
        while j < pieces.len()
            invariant
                j <= pieces.len(),
                views(out@) =~= before + views(pieces@).take(j as int),
            decreases pieces.len() - j,
        {
            let ghost b2 = views(out@);
            out.push(pieces[j].clone());
            proof {
                assert(views(out@) =~= b2.push(pieces@[j as int]@));
            }
            j += 1;
        }
        proof {
            assert(views(pieces@).take(pieces.len() as int) =~= views(pieces@));
        }
        i += 1;
    }
    proof {
        assert(v.take(parts.len() as int) =~= v);
    }
    out
}

/// Every piece trimmed, the empty ones dropped.
pub open spec fn trimmed_nonempty(parts: Seq<Seq<char>>) -> Seq<Seq<char>>
    decreases parts.len(),
{
    if parts.len() == 0 {
        Seq::empty()
    } else {
        let r = trimmed_nonempty(parts.drop_last());
        if trim_spec(parts.last()).len() > 0 {
            r.push(trim_spec(parts.last()))
        } else {
            r
        }
    }
}

pub fn trimmed_nonempty_exec(parts: &Vec<Vec<char>>) -> (r: Vec<Vec<char>>)
    ensures
        views(r@) == trimmed_nonempty(views(parts@)),
{
    let ghost v = views(parts@);
    let mut out: Vec<Vec<char>> = Vec::new();
    let mut i: usize = 0;
    while i < parts.len()
        invariant
            i <= parts.len(),
            v == views(parts@),
            views(out@) == trimmed_nonempty(v.take(i as int)),
        decreases parts.len() - i,
    {
        proof {
            assert(v.take(i + 1).drop_last() =~= v.take(i as int));
        }
        let t = trim_chars(&parts[i]);
        if t.len() > 0 {
            let ghost before = views(out@);
            out.push(t);
            proof {
                assert(views(out@) =~= before.push(trim_spec(v[i as int])));
            }
        }
        i += 1;
    }
    proof {
        assert(v.take(parts.len() as int) =~= v);
    }
    out
}

/// `words[start..].join(" ")` of the whitespace-separated words.
pub open spec fn join_words_from(s: Seq<char>, start: nat) -> Seq<char> {
    let w = words_spec(s);
    join_spec(if start < w.len() { w.skip(start as int) } else { Seq::empty() }, seq![' '])
}

} // verus!
