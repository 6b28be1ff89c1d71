//! What is let go when kept output grows past its limits: the oldest
//! groups of export files that nothing running still writes, and the
//! oldest finished agents.
use vstd::prelude::*;

use crate::roles::{lemma_lex_asym, lemma_lex_total, lemma_lex_trans, lex_less, lex_lt};
use crate::settings::{clamp_spec, sanitize_agent_retention_limit, MAX_AGENT_RETENTION_LIMIT, MIN_AGENT_RETENTION_LIMIT};
use crate::text::{chars_eq, str_chars};
use crate::tools::{agent_number_spec, parse_agent_numeric_id, AgentStatusValue};

verus! {

pub open spec fn picks_of(v: Seq<usize>) -> Seq<int> {
    v.map_values(|x: usize| x as int)
}

/// An item ranked by a number, then by its key.
pub open spec fn ranks_before(a: (Seq<char>, u128), b: (Seq<char>, u128)) -> bool {
    a.1 < b.1 || (a.1 == b.1 && lex_lt(a.0, b.0))
}

pub open spec fn item_view(it: (String, u128)) -> (Seq<char>, u128) {
    (it.0@, it.1)
}

pub open spec fn items_view(v: Seq<(String, u128)>) -> Seq<(Seq<char>, u128)> {
    v.map_values(|it: (String, u128)| item_view(it))
}

/// No two items share a key.
pub open spec fn distinct_keys(v: Seq<(Seq<char>, u128)>) -> bool {
    forall|i: int, j: int| 0 <= i < j < v.len() ==> (#[trigger] v[i]).0 != (#[trigger] v[j]).0
}

/// `picked` are the first items, in rank order, of those marked eligible:
/// as many as `count` allows, each at most once.
pub open spec fn smallest_first(
    items: Seq<(Seq<char>, u128)>,
    eligible: Seq<bool>,
    count: nat,
    picked: Seq<int>,
) -> bool {
    &&& forall|k: int| 0 <= k < picked.len() ==> 0 <= #[trigger] picked[k] < items.len() && eligible[picked[k]]
    &&& forall|k: int, l: int|
        0 <= k < l < picked.len() ==> ranks_before(items[#[trigger] picked[k]], items[#[trigger] picked[l]])
    &&& picked.len() <= count
    &&& (picked.len() < count ==> forall|i: int|
        0 <= i < items.len() && eligible[i] ==> #[trigger] picked.contains(i))
    &&& forall|i: int|
        0 <= i < items.len() && eligible[i] && !picked.contains(i) ==> forall|k: int|
            0 <= k < picked.len() ==> ranks_before(items[#[trigger] picked[k]], #[trigger] items[i])
}

proof fn lemma_rank_order(a: (Seq<char>, u128), b: (Seq<char>, u128), c: (Seq<char>, u128))
    ensures
        !(ranks_before(a, b) && ranks_before(b, a)),
        a.0 != b.0 ==> ranks_before(a, b) || ranks_before(b, a),
        ranks_before(a, b) && ranks_before(b, c) ==> ranks_before(a, c),
{
    lemma_lex_asym(a.0, b.0);
    lemma_lex_total(a.0, b.0);
    lemma_lex_trans(a.0, b.0, c.0);
}

fn item_before(a: &(String, u128), b: &(String, u128)) -> (r: bool)
    ensures
        r == ranks_before(item_view(*a), item_view(*b)),
{
    if a.1 < b.1 {
        true
    } else if a.1 == b.1 {
        lex_less(&str_chars(a.0.as_str()), &str_chars(b.0.as_str()))
    } else {
        false
    }
}

/// The indexes of the first `count` eligible items in rank order.
pub fn pick_smallest(items: &Vec<(String, u128)>, eligible: &Vec<bool>, count: usize) -> (r: Vec<usize>)
    requires
        eligible@.len() == items@.len(),
        distinct_keys(items_view(items@)),
    ensures
        smallest_first(items_view(items@), eligible@, count as nat, picks_of(r@)),
        forall|k: int| 0 <= k < r@.len() ==> #[trigger] r@[k] < items@.len(),
{
    let ghost iv = items_view(items@);
    let mut picked: Vec<usize> = Vec::new();
    let mut last: Option<usize> = None;
    let mut done = false;
    while picked.len() < count && !done
        invariant
            eligible@.len() == items@.len(),
            iv == items_view(items@),
            distinct_keys(iv),
            picked@.len() <= count,
            forall|k: int| 0 <= k < picked@.len() ==> (#[trigger] picked@[k]) < items@.len() && eligible@[picked@[k] as int],
            forall|k: int, l: int|
                0 <= k < l < picked@.len() ==> ranks_before(iv[#[trigger] picked@[k] as int], iv[#[trigger] picked@[l] as int]),
            last is None <==> picked@.len() == 0,
            last is Some ==> last->0 == picked@[picked@.len() - 1],
            // every eligible item ranked at or below the last pick was picked
            last is Some ==> last->0 < items@.len(),
            forall|i: int|
                0 <= i < items@.len() && eligible@[i] && last is Some && !ranks_before(
                    iv[last->0 as int],
                    iv[i],
                ) ==> #[trigger] picks_of(picked@).contains(i),
            done ==> forall|i: int|
                0 <= i < items@.len() && eligible@[i] ==> #[trigger] picks_of(picked@).contains(i),
            forall|i: int|
                0 <= i < items@.len() && eligible@[i] && !picks_of(picked@).contains(i) && last is Some ==> ranks_before(
                    iv[last->0 as int],
                    #[trigger] iv[i],
                ),
        decreases count - picked@.len(), if done { 0int } else { 1int },
    {
        // the eligible item of lowest rank above the last pick
        let mut best: Option<usize> = None;
        let mut i: usize = 0;
        while i < items.len()
            invariant
                i <= items@.len(),
                eligible@.len() == items@.len(),
                iv == items_view(items@),
                distinct_keys(iv),
                last is Some ==> last->0 < items@.len(),
                best is Some ==> {
                    let b = best->0 as int;
                    &&& b < i
                    &&& eligible@[b]
                    &&& (last is None || ranks_before(iv[last->0 as int], iv[b]))
                },
                forall|j: int|
                    0 <= j < i && eligible@[j] && (last is None || ranks_before(iv[last->0 as int], iv[j])) ==> (
                    best is Some && (best->0 == j || ranks_before(iv[best->0 as int], #[trigger] iv[j]))),
            decreases items@.len() - i,
        {
            let ghost old_best = best;
            let above = match last {
                None => true,
                Some(l) => item_before(&items[l], &items[i]),
            };
            if eligible[i] && above {
                let better = match best {
                    None => true,
                    Some(b) => item_before(&items[i], &items[b]),
                };
                if better {
                    proof {
                        match best {
                            Some(b) => {
                                assert forall|j: int|
                                    0 <= j < i && eligible@[j] && (last is None || ranks_before(
                                        iv[last->0 as int],
                                        iv[j],
                                    )) implies (j == i || ranks_before(iv[i as int], iv[j])) by {
                                    lemma_rank_order(iv[i as int], iv[b as int], iv[j]);
                                }
                            },
                            None => {},
                        }
                    }
                    best = Some(i);
                } else {
                    proof {
                        let b = best->0 as int;
                        if b != i as int {
                            assert(iv[b].0 != iv[i as int].0);
                        }
                        lemma_rank_order(iv[b], iv[i as int], iv[b]);
                    }
                }
            }
            proof {
                assert forall|j: int|
                    0 <= j < i + 1 && eligible@[j] && (last is None || ranks_before(
                        iv[last->0 as int],
                        iv[j],
                    )) implies (best is Some && (best->0 == j || ranks_before(
                        iv[best->0 as int],
                        #[trigger] iv[j],
                    ))) by {
                    if j < i {
                        let _t = iv[j];
                        assert(old_best is Some && (old_best->0 == j || ranks_before(iv[old_best->0 as int], iv[j])));
                        if best != old_best {
                            let b = old_best->0 as int;
                            lemma_rank_order(iv[i as int], iv[b], iv[j]);
                        }
                    }
                }
            }
            i += 1;
        }
        match best {
            None => {
                proof {
                    assert forall|j: int| 0 <= j < items@.len() && eligible@[j] implies #[trigger] picks_of(
                        picked@,
                    ).contains(j) by {
                        let _t = iv[j];
                        if !(last is Some && !ranks_before(iv[last->0 as int], iv[j])) {
                            assert(last is None || ranks_before(iv[last->0 as int], iv[j]));
                            assert(false);
                        }
                    }
                }
                done = true;
            },
            Some(b) => {
                let ghost old_picked = picks_of(picked@);
                proof {
                    match last {
                        Some(l) => {
                            assert(ranks_before(iv[l as int], iv[b as int]));
                            assert forall|k: int| 0 <= k < picked@.len() implies ranks_before(
                                iv[#[trigger] picked@[k] as int],
                                iv[b as int],
                            ) by {
                                if k < picked@.len() - 1 {
                                    lemma_rank_order(iv[picked@[k] as int], iv[l as int], iv[b as int]);
                                }
                            }
                        },
                        None => {},
                    }
                }
                picked.push(b);
                last = Some(b);
                proof {
                    let np = picks_of(picked@);
                    assert(np =~= old_picked.push(b as int));
                    assert forall|j: int|
                        0 <= j < items@.len() && eligible@[j] && !ranks_before(iv[b as int], iv[j]) implies #[trigger] np.contains(j) by {
                        if j == b as int {
                            assert(np[np.len() - 1] == j);
                        } else {
                            lemma_rank_order(iv[b as int], iv[j], iv[b as int]);
                            if old_picked.contains(j) {
                                let w = choose|w: int| 0 <= w < old_picked.len() && old_picked[w] == j;
                                assert(np[w] == j);
                            }
                        }
                    }
                    assert forall|j: int|
                        0 <= j < items@.len() && eligible@[j] && !np.contains(j) implies ranks_before(
                            iv[b as int],
                            #[trigger] iv[j],
                        ) by {
                        if !ranks_before(iv[b as int], iv[j]) {
                            assert(np.contains(j));
                        }
                    }
                }
            },
        }
    }
    proof {
        let np = picks_of(picked@);
        assert forall|i: int|
            0 <= i < items@.len() && eligible@[i] && !np.contains(i) implies forall|k: int|
            0 <= k < np.len() ==> ranks_before(iv[#[trigger] np[k]], #[trigger] iv[i]) by {
            let l = last->0 as int;
            assert forall|k: int| 0 <= k < np.len() implies ranks_before(iv[#[trigger] np[k]], iv[i]) by {
                if k < np.len() - 1 {
                    lemma_rank_order(iv[np[k]], iv[l], iv[i]);
                }
            }
        }
    }
    picked
}

// ---------------------------------------------------------------------------
// Export groups and agents
// ---------------------------------------------------------------------------

pub open spec fn keys_of(items: Seq<(Seq<char>, u128)>, picks: Seq<int>) -> Seq<Seq<char>> {
    picks.map_values(|i: int| items[i].0)
}

pub open spec fn strs_view(v: Seq<String>) -> Seq<Seq<char>> {
    v.map_values(|s: String| s@)
}

/// The keys of the items chosen: the first `count` in rank order of the
/// eligible ones.
pub open spec fn chosen_keys(items: Seq<(Seq<char>, u128)>, eligible: Seq<bool>, count: nat, keys: Seq<Seq<char>>) -> bool {
    exists|picks: Seq<int>| #[trigger] smallest_first(items, eligible, count, picks) && keys == keys_of(items, picks)
}

fn keys_at(items: &Vec<(String, u128)>, picks: &Vec<usize>) -> (r: Vec<String>)
    requires
        forall|k: int| 0 <= k < picks@.len() ==> #[trigger] picks@[k] < items@.len(),
    ensures
        strs_view(r@) == keys_of(items_view(items@), picks_of(picks@)),
{
    let mut out: Vec<String> = Vec::new();
    let mut k: usize = 0;
    while k < picks.len()
        invariant
            k <= picks@.len(),
            forall|j: int| 0 <= j < picks@.len() ==> #[trigger] picks@[j] < items@.len(),
            strs_view(out@) == keys_of(items_view(items@), picks_of(picks@)).take(k as int),
        decreases picks@.len() - k,
    {
        let key = crate::text::chars_to_string(&str_chars(items[picks[k]].0.as_str()));
        let ghost before = strs_view(out@);
        out.push(key);
        proof {
            assert(picks_of(picks@)[k as int] == picks@[k as int] as int);
            assert(keys_of(items_view(items@), picks_of(picks@))[k as int] == key@);
            assert(strs_view(out@) =~= before.push(key@));
            assert(strs_view(out@) =~= keys_of(items_view(items@), picks_of(picks@)).take(k + 1));
        }
        k += 1;
    }
    assert(keys_of(items_view(items@), picks_of(picks@)).take(picks@.len() as int) =~= keys_of(
        items_view(items@),
        picks_of(picks@),
    ));
    out
}

fn contains_string(v: &Vec<String>, s: &String) -> (r: bool)
    ensures
        r == strs_view(v@).contains(s@),
{
    let t = str_chars(s.as_str());
    let mut i: usize = 0;
    while i < v.len()
        invariant
            i <= v@.len(),
            t@ == s@,
            forall|j: int| 0 <= j < i ==> #[trigger] v@[j]@ != s@,
        decreases v@.len() - i,
    {
        if chars_eq(&str_chars(v[i].as_str()), &t) {
            assert(strs_view(v@)[i as int] == s@);
            return true;
        }
        i += 1;
    }
    proof {
        if strs_view(v@).contains(s@) {
            let j = choose|j: int| 0 <= j < strs_view(v@).len() && strs_view(v@)[j] == s@;
            assert(v@[j]@ == s@);
        }
    }
    false
}

/// Groups of export files open to deletion: those no running work writes.
pub open spec fn unprotected(groups: Seq<(Seq<char>, u128)>, protected: Seq<Seq<char>>) -> Seq<bool> {
    groups.map_values(|g: (Seq<char>, u128)| !protected.contains(g.0))
}

/// Which groups of export files (key, oldest modification) to delete: none
/// while there are fewer than `max_entries`; else the `prune_count` oldest,
/// by time then key, of those not protected.
pub fn select_output_groups_to_prune(
    groups: &Vec<(String, u128)>,
    max_entries: usize,
    prune_count: usize,
    protected_keys: &Vec<String>,
) -> (r: Vec<String>)
    requires
        distinct_keys(items_view(groups@)),
    ensures
        groups@.len() < max_entries ==> r@.len() == 0,
        groups@.len() >= max_entries ==> chosen_keys(
            items_view(groups@),
            unprotected(items_view(groups@), strs_view(protected_keys@)),
            prune_count as nat,
            strs_view(r@),
        ),
{
    if groups.len() < max_entries {
        return Vec::new();
    }
    let ghost gv = items_view(groups@);
    let mut eligible: Vec<bool> = Vec::new();
    let mut i: usize = 0;
    while i < groups.len()
        invariant
            i <= groups@.len(),
            gv == items_view(groups@),
            eligible@ == unprotected(gv, strs_view(protected_keys@)).take(i as int),
        decreases groups@.len() - i,
    {
        let hit = contains_string(protected_keys, &groups[i].0);
        eligible.push(!hit);
        proof {
            assert(eligible@ =~= unprotected(gv, strs_view(protected_keys@)).take(i + 1));
        }
        i += 1;
    }
    assert(unprotected(gv, strs_view(protected_keys@)).take(groups@.len() as int) =~= unprotected(
        gv,
        strs_view(protected_keys@),
    ));
    let picks = pick_smallest(groups, &eligible, prune_count);
    let r = keys_at(groups, &picks);
    assert(smallest_first(gv, eligible@, prune_count as nat, picks_of(picks@)));
    r
}

/// An agent's place among finished agents to drop: its number, unnumbered
/// ones last.
pub open spec fn agent_rank(id: Seq<char>) -> u128 {
    match agent_number_spec(id) {
        Some(n) => n as u128,
        None => u64::MAX as u128,
    }
}

pub open spec fn agent_items(agents: Seq<(String, AgentStatusValue)>) -> Seq<(Seq<char>, u128)> {
    agents.map_values(|a: (String, AgentStatusValue)| (a.0@, agent_rank(a.0@)))
}

pub open spec fn finished(agents: Seq<(String, AgentStatusValue)>) -> Seq<bool> {
    agents.map_values(|a: (String, AgentStatusValue)| !(a.1 is PendingInit || a.1 is Running))
}

/// Which agent records to drop when there are more than `limit`: finished
/// agents, lowest number first, until `limit` are left or no finished
/// agent is.
pub fn select_agent_records_to_prune(agents: &Vec<(String, AgentStatusValue)>, limit: usize) -> (r: Vec<String>)
    requires
        distinct_keys(agent_items(agents@)),
    ensures
        agents@.len() <= limit ==> r@.len() == 0,
        agents@.len() > limit ==> chosen_keys(
            agent_items(agents@),
            finished(agents@),
            (agents@.len() - limit) as nat,
            strs_view(r@),
        ),
{
    if agents.len() <= limit {
        return Vec::new();
    }
    let mut items: Vec<(String, u128)> = Vec::new();
    let mut eligible: Vec<bool> = Vec::new();
    let mut i: usize = 0;
    while i < agents.len()
        invariant
            i <= agents@.len(),
            items_view(items@) == agent_items(agents@).take(i as int),
            eligible@ == finished(agents@).take(i as int),
        decreases agents@.len() - i,
    {
        let id = &agents[i].0;
        let rank: u128 = match parse_agent_numeric_id(id.as_str()) {
            Some(n) => n as u128,
            None => 18446744073709551615u128,
        };
        let key = crate::text::chars_to_string(&str_chars(id.as_str()));
        let ghost before = items_view(items@);
        assert(rank == agent_rank(id@));
        items.push((key, rank));
        assert(items_view(items@) =~= before.push((id@, agent_rank(id@))));
        eligible.push(
            match agents[i].1 {
                AgentStatusValue::PendingInit | AgentStatusValue::Running => false,
                _ => true,
            },
        );
        proof {
            assert(items_view(items@) =~= agent_items(agents@).take(i + 1));
            assert(eligible@ =~= finished(agents@).take(i + 1));
        }
        i += 1;
    }
    assert(agent_items(agents@).take(agents@.len() as int) =~= agent_items(agents@));
    assert(finished(agents@).take(agents@.len() as int) =~= finished(agents@));
    let count = agents.len() - limit;
    let picks = pick_smallest(&items, &eligible, count);
    let r = keys_at(&items, &picks);
    assert(smallest_first(agent_items(agents@), eligible@, count as nat, picks_of(picks@)));
    r
}


/// The places marked in a list.
pub open spec fn marked(flags: Seq<bool>) -> Set<int> {
    Set::new(|i: int| 0 <= i < flags.len() && flags[i])
}

/// How many of the eligible items `smallest_first` picks: `count`, or all
/// of them when there are fewer.
pub proof fn lemma_smallest_first_len(items: Seq<(Seq<char>, u128)>, eligible: Seq<bool>, count: nat, picked: Seq<int>)
    requires
        eligible.len() == items.len(),
        smallest_first(items, eligible, count, picked),
    ensures
        picked.len() == if count < marked(eligible).len() {
            count
        } else {
            marked(eligible).len()
        },
{
    let e = marked(eligible);
    vstd::set_lib::lemma_int_range(0, items.len() as int);
    assert(e.subset_of(vstd::set_lib::set_int_range(0, items.len() as int)));
    vstd::set_lib::lemma_len_subset(e, vstd::set_lib::set_int_range(0, items.len() as int));
    assert(picked.no_duplicates()) by {
        assert forall|k: int, l: int| 0 <= k < picked.len() && 0 <= l < picked.len() && k != l implies picked[k]
            != picked[l] by {
            if k < l {
                lemma_rank_order(items[picked[k]], items[picked[l]], items[picked[l]]);
            } else {
                lemma_rank_order(items[picked[l]], items[picked[k]], items[picked[k]]);
            }
        }
    }
    picked.unique_seq_to_set();
    assert(picked.to_set().subset_of(e));
    vstd::set_lib::lemma_len_subset(picked.to_set(), e);
    if picked.len() < count {
        assert(e.subset_of(picked.to_set())) by {
            assert forall|i: int| e.contains(i) implies picked.to_set().contains(i) by {
                assert(picked.contains(i));
            }
        }
        vstd::set_lib::lemma_len_subset(e, picked.to_set());
    }
}

/// How many agents are dropped when there are more than the limit: as many
/// as exceed it, but no more than there are finished agents; the records
/// dropped are finished ones, lowest number first (`chosen_keys`).
pub proof fn lemma_agent_prune_count(agents: Seq<(String, AgentStatusValue)>, limit: nat, removed: Seq<Seq<char>>)
    requires
        agents.len() > limit,
        chosen_keys(agent_items(agents), finished(agents), (agents.len() - limit) as nat, removed),
    ensures
        removed.len() == if agents.len() - limit < marked(finished(agents)).len() {
            agents.len() - limit
        } else {
            marked(finished(agents)).len() as int
        },
{
    let items = agent_items(agents);
    let picks = choose|picks: Seq<int>| #[trigger]
        smallest_first(items, finished(agents), (agents.len() - limit) as nat, picks) && removed == keys_of(items, picks);
    lemma_smallest_first_len(items, finished(agents), (agents.len() - limit) as nat, picks);
}


/// The agent records to drop when the retention limit is set to `limit`:
/// the limit is first brought into its allowed range, then the finished
/// agents past it go, lowest number first.
pub fn agent_records_to_prune_for_limit(agents: &Vec<(String, AgentStatusValue)>, limit: usize) -> (r: (usize, Vec<String>))
    requires
        distinct_keys(agent_items(agents@)),
    ensures
        r.0 == clamp_spec(limit as int, MIN_AGENT_RETENTION_LIMIT as int, MAX_AGENT_RETENTION_LIMIT as int),
        agents@.len() <= r.0 ==> r.1@.len() == 0,
        agents@.len() > r.0 ==> chosen_keys(
            agent_items(agents@),
            finished(agents@),
            (agents@.len() - r.0) as nat,
            strs_view(r.1@),
        ),
        agents@.len() > r.0 ==> r.1@.len() == if agents@.len() - r.0 < marked(finished(agents@)).len() {
            agents@.len() - r.0
        } else {
            marked(finished(agents@)).len() as int
        },
{
    let l = sanitize_agent_retention_limit(limit);
    let removed = select_agent_records_to_prune(agents, l);
    proof {
        if agents@.len() > l {
            lemma_agent_prune_count(agents@, l as nat, strs_view(removed@));
            assert(strs_view(removed@).len() == removed@.len());
        }
    }
    (l, removed)
}

} // verus!
