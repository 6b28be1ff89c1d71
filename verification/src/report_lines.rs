//! What survives of a report's first line when the report is cleaned and
//! clamped: a plain first line comes through whole, still first.
use vstd::prelude::*;

use crate::terminal::{
    clamp_report_spec, drop_empty_tail, hash_id, output_preview_spec, output_summary_spec, owner_label_spec,
    preview_head_lines, session_fact_lines, with_action_line, SessionSnapshot, TERMINAL_LOG_PREVIEW_MAX_CHARS,
    TERMINAL_LOG_PREVIEW_MAX_LINES,
};
use crate::registry::SessionRegistry;
use crate::terminal_report::{listed_from, session_blocks, session_list_spec, ListedSession};
use crate::terminal_text::{
    clamp_preview_spec, drop_blank_tail, is_control, keep_head_tail_spec, preview_lines_spec, sanitize_run,
    sanitize_spec, sat_sub,
};
use crate::text::{
    dec_spec, digit_char, ellipsis_spec, is_ws, join_lines, join_spec, lines_spec, split_spec, strip_cr, trim_end_spec,
    trim_spec, trim_start_spec,
};

verus! {

/// A line of printable characters that neither starts nor ends with
/// white space.
pub open spec fn plain_line(p: Seq<char>) -> bool {
    &&& p.len() > 0
    &&& forall|i: int| 0 <= i < p.len() ==> !is_control(#[trigger] p[i])
    &&& !is_ws(p[0])
    &&& !is_ws(p[p.len() - 1])
}

/// `t` is the line `p`, or starts with it and a line break.
pub open spec fn heads(t: Seq<char>, p: Seq<char>) -> bool {
    ||| t == p
    ||| (t.len() > p.len() && t.take(p.len() as int) == p && t[p.len() as int] == '\n')
}

proof fn lemma_run_plain(s: Seq<char>, i: int, k: int, lines: Seq<Seq<char>>, cur: Seq<char>)
    requires
        0 <= i <= k <= s.len(),
        forall|j: int| i <= j < k ==> !is_control(#[trigger] s[j]),
    ensures
        sanitize_run(s, i, lines, cur) == sanitize_run(s, k, lines, cur + s.subrange(i, k)),
    decreases k - i,
{
    if i == k {
        assert(cur + s.subrange(i, k) =~= cur);
    } else {
        assert(!is_control(s[i]));
        assert(cur.push(s[i]) + s.subrange(i + 1, k) =~= cur + s.subrange(i, k));
        lemma_run_plain(s, i + 1, k, lines, cur.push(s[i]));
    }
}

proof fn lemma_run_keeps_first(s: Seq<char>, i: int, lines: Seq<Seq<char>>, cur: Seq<char>)
    requires
        lines.len() > 0,
    ensures
        sanitize_run(s, i, lines, cur).0.len() > 0,
        sanitize_run(s, i, lines, cur).0[0] == lines[0],
    decreases s.len() - i,
{
    if i < 0 || i >= s.len() {
    } else {
        let c = s[i];
        if c == '\u{1b}' {
            let e = crate::terminal_text::escape_end(s, i + 1);
            if i < e && e <= s.len() {
                lemma_run_keeps_first(s, e, lines, cur);
            }
        } else if c == '\r' {
            if i + 1 < s.len() && s[i + 1] == '\n' {
                lemma_run_keeps_first(s, i + 2, lines.push(cur), Seq::empty());
            } else {
                lemma_run_keeps_first(s, i + 1, lines, Seq::empty());
            }
        } else if c == '\n' {
            lemma_run_keeps_first(s, i + 1, lines.push(cur), Seq::empty());
        } else if c == '\u{8}' {
            lemma_run_keeps_first(s, i + 1, lines, if cur.len() > 0 { cur.drop_last() } else { cur });
        } else if c == '\t' {
            lemma_run_keeps_first(s, i + 1, lines, crate::terminal_text::push_spaces(cur, crate::terminal_text::tab_spaces(cur.len())));
        } else if is_control(c) {
            lemma_run_keeps_first(s, i + 1, lines, cur);
        } else {
            lemma_run_keeps_first(s, i + 1, lines, cur.push(c));
        }
    }
}

proof fn lemma_plain_trims_to_itself(p: Seq<char>)
    requires
        plain_line(p),
    ensures
        trim_spec(p) == p,
        trim_end_spec(p) == p,
{
    assert(!is_ws(p[0]));
    assert(!is_ws(p[p.len() - 1]));
    assert(trim_start_spec(p) == p);
}

proof fn lemma_drop_blank_keeps_first(ls: Seq<Seq<char>>)
    requires
        ls.len() > 0,
        trim_spec(ls[0]).len() > 0,
    ensures
        drop_blank_tail(ls).len() > 0,
        drop_blank_tail(ls)[0] == ls[0],
        ls.len() == 1 ==> drop_blank_tail(ls) == ls,
    decreases ls.len(),
{
    if ls.len() > 0 && trim_spec(ls.last()).len() == 0 {
        assert(ls.len() > 1);
        lemma_drop_blank_keeps_first(ls.drop_last());
    }
}

proof fn lemma_drop_empty_keeps_first(ls: Seq<Seq<char>>)
    requires
        ls.len() > 0,
        ls[0].len() > 0,
    ensures
        drop_empty_tail(ls).len() > 0,
        drop_empty_tail(ls)[0] == ls[0],
        ls.len() == 1 ==> drop_empty_tail(ls) == ls,
    decreases ls.len(),
{
    if ls.len() > 0 && ls.last().len() == 0 {
        assert(ls.len() > 1);
        lemma_drop_empty_keeps_first(ls.drop_last());
    }
}

proof fn lemma_join_heads(ls: Seq<Seq<char>>, p: Seq<char>)
    requires
        ls.len() > 0,
        ls[0] == p,
    ensures
        heads(join_lines(ls), p),
        ls.len() == 1 ==> join_lines(ls) == p,
    decreases ls.len(),
{
    if ls.len() > 1 {
        let x = join_spec(ls.drop_last(), seq!['\n']);
        lemma_join_heads(ls.drop_last(), p);
        let t = x + seq!['\n'] + ls.last();
        assert(join_lines(ls) == t);
        if x == p {
            assert(t.take(p.len() as int) =~= p);
            assert(t[p.len() as int] == '\n');
        } else {
            assert(t.take(p.len() as int) =~= x.take(p.len() as int));
            assert(t[p.len() as int] == x[p.len() as int]);
        }
    }
}

proof fn lemma_trim_end_heads(t: Seq<char>, p: Seq<char>)
    requires
        heads(t, p),
        plain_line(p),
    ensures
        heads(trim_end_spec(t), p),
        t == p ==> trim_end_spec(t) == p,
    decreases t.len(),
{
    if t == p {
        lemma_plain_trims_to_itself(p);
    } else if t.len() > 0 && is_ws(t.last()) {
        let d = t.drop_last();
        if d.len() == p.len() {
            assert(d =~= p);
        } else {
            assert(d.take(p.len() as int) =~= t.take(p.len() as int));
        }
        lemma_trim_end_heads(d, p);
    }
}

proof fn lemma_split_plain(p: Seq<char>)
    requires
        forall|i: int| 0 <= i < p.len() ==> #[trigger] p[i] != '\n',
    ensures
        split_spec(p, '\n') == seq![p],
    decreases p.len(),
{
    if p.len() == 0 {
        assert(p =~= Seq::<char>::empty());
    } else {
        lemma_split_plain(p.drop_last());
        assert(p.drop_last().push(p.last()) =~= p);
        assert(seq![p.drop_last()].update(0, p) =~= seq![p]);
    }
}

proof fn lemma_split_after_line(p: Seq<char>, b: Seq<char>)
    requires
        forall|i: int| 0 <= i < p.len() ==> #[trigger] p[i] != '\n',
    ensures
        split_spec(p + seq!['\n'] + b, '\n').len() >= 2,
        split_spec(p + seq!['\n'] + b, '\n')[0] == p,
    decreases b.len(),
{
    let t = p + seq!['\n'] + b;
    if b.len() == 0 {
        assert(t =~= p.push('\n'));
        assert(t.drop_last() =~= p);
        lemma_split_plain(p);
    } else {
        lemma_split_after_line(p, b.drop_last());
        assert(t.drop_last() =~= p + seq!['\n'] + b.drop_last());
        assert(t.last() == b.last());
    }
}

proof fn lemma_lines_first(t: Seq<char>, p: Seq<char>)
    requires
        heads(t, p),
        plain_line(p),
    ensures
        lines_spec(t).len() > 0,
        lines_spec(t)[0] == p,
        t == p ==> lines_spec(t) == seq![p],
{
    assert forall|i: int| 0 <= i < p.len() implies #[trigger] p[i] != '\n' by {
        assert(!is_control(p[i]));
    }
    assert(!is_control(p.last()));
    assert(strip_cr(p) == p);
    if t == p {
        lemma_split_plain(p);
        assert(lines_spec(t) =~= seq![p]);
    } else {
        let b = t.skip(p.len() + 1int);
        assert(t =~= p + seq!['\n'] + b);
        lemma_split_after_line(p, b);
    }
}

proof fn lemma_sanitize_heads(u: Seq<char>, p: Seq<char>)
    requires
        heads(u, p),
        plain_line(p),
    ensures
        heads(sanitize_spec(u), p),
        u == p ==> sanitize_spec(u) == p,
{
    lemma_plain_trims_to_itself(p);
    let n = p.len() as int;
    assert forall|j: int| 0 <= j < n implies !is_control(#[trigger] u[j]) by {
        if u != p {
            assert(u.take(n)[j] == u[j]);
        }
        assert(!is_control(p[j]));
    }
    lemma_run_plain(u, 0, n, Seq::empty(), Seq::empty());
    if u == p {
        assert(Seq::<char>::empty() + u.subrange(0, n) =~= p);
        assert(sanitize_run(u, n, Seq::empty(), p) == (Seq::<Seq<char>>::empty(), p));
        let all = Seq::<Seq<char>>::empty().push(p);
        assert(all =~= seq![p]);
        lemma_drop_blank_keeps_first(all);
        lemma_join_heads(seq![p], p);
    } else {
        assert(Seq::<char>::empty() + u.subrange(0, n) =~= p);
        let l1 = Seq::<Seq<char>>::empty().push(p);
        assert(sanitize_run(u, n, Seq::empty(), p) == sanitize_run(u, n + 1, l1, Seq::empty()));
        lemma_run_keeps_first(u, n + 1, l1, Seq::empty());
        let (lines, cur) = sanitize_run(u, n + 1, l1, Seq::empty());
        let all = if cur.len() > 0 { lines.push(cur) } else { lines };
        assert(all[0] == p);
        lemma_drop_blank_keeps_first(all);
        lemma_join_heads(drop_blank_tail(all), p);
    }
}

proof fn lemma_ellipsis_heads(t: Seq<char>, p: Seq<char>, max: nat)
    requires
        heads(t, p),
        p.len() + 2 <= max,
    ensures
        heads(ellipsis_spec(t, max), p),
        t == p ==> ellipsis_spec(t, max) == p,
{
    if t.len() > max {
        let r = t.take(max - 1).push('…');
        assert(r.take(p.len() as int) =~= t.take(p.len() as int));
        assert(r[p.len() as int] == t[p.len() as int]);
    }
}

proof fn lemma_keep_head_tail_first(ls: Seq<Seq<char>>, max: nat)
    requires
        ls.len() > 0,
        max >= 3,
    ensures
        keep_head_tail_spec(ls, max).len() > 0,
        keep_head_tail_spec(ls, max)[0] == ls[0],
        ls.len() == 1 ==> keep_head_tail_spec(ls, max) == ls,
{
    if ls.len() > max {
        let head = sat_sub(max, 1) / 2;
        assert(head >= 1);
    }
}

/// A report whose first line is plain keeps that line, still first, when
/// it is clamped; a report of that line alone stays as it is.
pub proof fn lemma_clamp_report_keeps_first_line(t: Seq<char>, p: Seq<char>)
    requires
        heads(t, p),
        plain_line(p),
        p.len() + 2 <= TERMINAL_LOG_PREVIEW_MAX_CHARS,
    ensures
        heads(clamp_report_spec(t), p),
        lines_spec(clamp_report_spec(t)).len() > 0,
        lines_spec(clamp_report_spec(t))[0] == p,
        t == p ==> clamp_report_spec(t) == p,
{
    lemma_trim_end_heads(t, p);
    let u = trim_end_spec(t);
    lemma_sanitize_heads(u, p);
    let sa = sanitize_spec(u);
    lemma_lines_first(sa, p);
    lemma_plain_trims_to_itself(p);
    lemma_drop_blank_keeps_first(lines_spec(sa));
    let ls = preview_lines_spec(u);
    lemma_keep_head_tail_first(ls, TERMINAL_LOG_PREVIEW_MAX_LINES as nat);
    let kept = keep_head_tail_spec(ls, TERMINAL_LOG_PREVIEW_MAX_LINES as nat);
    lemma_join_heads(kept, p);
    let joined = join_lines(kept);
    lemma_trim_end_heads(joined, p);
    lemma_ellipsis_heads(trim_end_spec(joined), p, TERMINAL_LOG_PREVIEW_MAX_CHARS as nat);
    assert(clamp_report_spec(t) == ellipsis_spec(trim_end_spec(joined), TERMINAL_LOG_PREVIEW_MAX_CHARS as nat));
    lemma_lines_first(clamp_report_spec(t), p);
}

pub open spec fn pow10(k: nat) -> nat
    decreases k,
{
    if k == 0 {
        1
    } else {
        10 * pow10((k - 1) as nat)
    }
}

proof fn lemma_dec_len(n: nat, k: nat)
    requires
        k >= 1,
        n < pow10(k),
    ensures
        dec_spec(n).len() <= k,
    decreases n,
{
    if n >= 10 {
        assert(pow10(0) == 1);
        assert(pow10(1) == 10);
        assert(k >= 2);
        let k1 = (k - 1) as nat;
        let q = pow10(k1);
        assert(pow10(k) == 10 * q);
        assert(n / 10 < q) by (nonlinear_arith)
            requires
                n < 10 * q,
        ;
        lemma_dec_len(n / 10, k1);
    }
}

proof fn lemma_dec_plain(n: nat)
    ensures
        forall|i: int| 0 <= i < dec_spec(n).len() ==> !is_control(#[trigger] dec_spec(n)[i]) && !is_ws(dec_spec(n)[i]),
    decreases n,
{
    let d = digit_char(n % 10);
    assert(48 <= (n % 10) + 48 <= 57);
    assert(!is_control(d) && !is_ws(d));
    if n >= 10 {
        lemma_dec_plain(n / 10);
        let a = dec_spec(n / 10);
        assert(dec_spec(n) == a.push(digit_char(n % 10)));
        assert forall|i: int| 0 <= i < dec_spec(n).len() implies !is_control(#[trigger] dec_spec(n)[i]) && !is_ws(
            dec_spec(n)[i],
        ) by {
            if i < a.len() {
                assert(dec_spec(n)[i] == a[i]);
            }
        }
    } else {
        assert(n % 10 == n);
    }
}

/// The `pty_list` report's first line counts the sessions it lists; with
/// none listed the report is that line alone.
pub proof fn lemma_session_list_first_line(es: Seq<ListedSession>)
    requires
        es.len() <= usize::MAX,
    ensures
        lines_spec(session_list_spec(es)).len() > 0,
        lines_spec(session_list_spec(es))[0] == "running_sessions:"@ + dec_spec(es.len()),
        es.len() == 0 ==> session_list_spec(es) == "running_sessions:0"@,
{
    reveal_strlit("running_sessions:");
    let h = "running_sessions:"@;
    let p = h + dec_spec(es.len());
    reveal_with_fuel(pow10, 21);
    assert(usize::MAX < pow10(20));
    lemma_dec_len(es.len(), 20);
    lemma_dec_plain(es.len());
    assert forall|i: int| 0 <= i < p.len() implies !is_control(#[trigger] p[i]) && !is_ws(p[i]) by {
        if i >= h.len() {
            assert(p[i] == dec_spec(es.len())[i - h.len()]);
        }
    }
    let lines0 = seq![p] + session_blocks(es);
    assert(lines0[0] == p);
    lemma_drop_empty_keeps_first(lines0);
    let lines = drop_empty_tail(lines0);
    lemma_join_heads(lines, p);
    lemma_clamp_report_keeps_first_line(join_lines(lines), p);
    if es.len() == 0 {
        assert(session_blocks(es) == Seq::<Seq<char>>::empty());
        assert(lines0 =~= seq![p]);
        reveal_strlit("running_sessions:0");
        assert(dec_spec(0) == seq!['0']);
        assert(p =~= "running_sessions:0"@);
    }
}

/// The `pty_list` reply on a registry starts with the number of sessions
/// running in it; with none running the reply says only that.
pub proof fn lemma_list_reply_counts_running(registry: SessionRegistry, ages: Seq<u64>, previews: Seq<String>)
    requires
        registry.wf(),
        ages.len() == registry.running_view().len(),
        previews.len() == registry.running_view().len(),
        registry.running_view().len() <= usize::MAX,
    ensures
        lines_spec(session_list_spec(listed_from(registry.running_view(), ages, previews)))[0] == "running_sessions:"@
            + dec_spec(registry.running_view().len()),
        registry.running_view().len() == 0 ==> session_list_spec(listed_from(registry.running_view(), ages, previews))
            == "running_sessions:0"@,
{
    let es = listed_from(registry.running_view(), ages, previews);
    assert(es.len() == registry.running_view().len());
    lemma_session_list_first_line(es);
}

/// The reply to killing a session opens with what happened to it: the
/// terminal ended, whose it was, and its number.
pub proof fn lemma_kill_reply_first_line(preview: Seq<char>, s: SessionSnapshot, status: Seq<char>)
    ensures
        lines_spec(output_preview_spec(preview, s, status, Some("终止"@), None))[0] == "终端已终止 · "@
            + owner_label_spec(s.owner) + " · "@ + hash_id(s),
{
    reveal_strlit("终端已终止 · ");
    reveal_strlit(" · ");
    reveal_strlit("AI");
    reveal_strlit("USER");
    reveal_strlit("启动");
    reveal_strlit("注入");
    reveal_strlit("轮询");
    reveal_strlit("终止");
    let owner = owner_label_spec(s.owner);
    let d = dec_spec(s.session_id as nat);
    let p = "终端已终止 · "@ + owner + " · "@ + hash_id(s);
    assert("终止"@ != "启动"@) by {
        assert("终止"@[0] != "启动"@[0]);
    }
    assert("终止"@ != "注入"@) by {
        assert("终止"@[0] != "注入"@[0]);
    }
    assert("终止"@ != "轮询"@) by {
        assert("终止"@[0] != "轮询"@[0]);
    }
    assert(output_summary_spec(s, Some("终止"@)) == p);
    reveal_with_fuel(pow10, 21);
    assert(u64::MAX < pow10(20));
    lemma_dec_len(s.session_id as nat, 20);
    lemma_dec_plain(s.session_id as nat);
    let a = "终端已终止 · "@ + owner + " · "@ + seq!['#'];
    assert(p =~= a + d);
    assert forall|i: int| 0 <= i < p.len() implies !is_control(#[trigger] p[i]) by {
        if i >= a.len() {
            assert(p[i] == d[i - a.len()]);
        } else {
            assert(p[i] == a[i]);
        }
    }
    assert(p[p.len() - 1] == d[d.len() - 1]);
    let c = with_action_line(preview_head_lines(preview, s, Some("终止"@)), Some("终止"@)) + session_fact_lines(
        s,
        status,
        None,
    );
    assert(c[0] == p);
    lemma_drop_empty_keeps_first(c);
    lemma_join_heads(drop_empty_tail(c), p);
    lemma_clamp_report_keeps_first_line(join_lines(drop_empty_tail(c)), p);
}

} // verus!
