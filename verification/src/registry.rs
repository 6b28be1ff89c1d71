//! Registries of sessions and background jobs: the running ones and the
//! finished ones, each kept in the order of their ids.
use vstd::prelude::*;

use crate::terminal::SessionSnapshot;

verus! {

/// A value with a numeric id, copied exactly.
pub trait Keyed: Sized {
    spec fn key_of(&self) -> u64;

    fn key(&self) -> (r: u64)
        ensures
            r == self.key_of(),
    ;

    fn duplicate(&self) -> (r: Self)
        ensures
            r == *self,
    ;
}

/// Ids strictly increase along the sequence.
pub open spec fn sorted_by_key<T: Keyed>(v: Seq<T>) -> bool {
    forall|i: int, j: int| 0 <= i < j < v.len() ==> (#[trigger] v[i]).key_of() < (#[trigger] v[j]).key_of()
}

pub open spec fn has_key<T: Keyed>(v: Seq<T>, id: u64) -> bool {
    exists|i: int| 0 <= i < v.len() && (#[trigger] v[i]).key_of() == id
}

/// The entry with this id.
pub open spec fn find<T: Keyed>(v: Seq<T>, id: u64) -> Option<T> {
    if has_key(v, id) {
        Some(v[choose|i: int| 0 <= i < v.len() && (#[trigger] v[i]).key_of() == id])
    } else {
        None
    }
}

pub proof fn lemma_find_at<T: Keyed>(v: Seq<T>, i: int)
    requires
        sorted_by_key(v),
        0 <= i < v.len(),
    ensures
        find(v, v[i].key_of()) == Some(v[i]),
{
    let id = v[i].key_of();
    assert(has_key(v, id));
    let j = choose|j: int| 0 <= j < v.len() && (#[trigger] v[j]).key_of() == id;
    if j < i {
        assert(v[j].key_of() < v[i].key_of());
    } else if i < j {
        assert(v[i].key_of() < v[j].key_of());
    }
}

pub proof fn lemma_find_none<T: Keyed>(v: Seq<T>, id: u64)
    requires
        forall|i: int| 0 <= i < v.len() ==> (#[trigger] v[i]).key_of() != id,
    ensures
        find(v, id) is None,
{
}

/// Every id in the sequence is positive.
pub open spec fn positive_keys<T: Keyed>(v: Seq<T>) -> bool {
    forall|i: int| 0 <= i < v.len() ==> (#[trigger] v[i]).key_of() > 0
}

/// How many finished entries a registry keeps: the ones with the highest ids.
pub const FINISHED_CAPACITY: usize = 64;

/// Ids found in `after` are ids found in `before`, or `extra`.
pub proof fn lemma_positive_from<T: Keyed>(before: Seq<T>, after: Seq<T>, extra: u64)
    requires
        positive_keys(before),
        sorted_by_key(after),
        extra > 0,
        forall|k: u64| k != extra && has_key(after, k) ==> find(before, k) == find(after, k),
    ensures
        positive_keys(after),
{
    assert forall|i: int| 0 <= i < after.len() implies (#[trigger] after[i]).key_of() > 0 by {
        let k = after[i].key_of();
        if k != extra {
            assert(has_key(after, k));
            lemma_find_at(after, i);
            assert(find(before, k) is Some);
            let j = choose|j: int| 0 <= j < before.len() && (#[trigger] before[j]).key_of() == k;
            assert(before[j].key_of() > 0);
        }
    }
}

/// Running and finished entries, each sorted by id.
pub struct Registry<T: Keyed> {
    running: Vec<T>,
    finished: Vec<T>,
}

impl<T: Keyed> Registry<T> {
    pub closed spec fn running_view(&self) -> Seq<T> {
        self.running@
    }

    pub closed spec fn finished_view(&self) -> Seq<T> {
        self.finished@
    }

    /// Both tables sorted by id, every id positive (ids are handed out from
    /// one), and at most `FINISHED_CAPACITY` finished entries kept.
    pub open spec fn wf(&self) -> bool {
        &&& sorted_by_key(self.running_view())
        &&& sorted_by_key(self.finished_view())
        &&& positive_keys(self.running_view())
        &&& positive_keys(self.finished_view())
        &&& self.finished_view().len() <= FINISHED_CAPACITY
    }

    /// What a lookup finds: a running entry first, else a finished one.
    pub open spec fn lookup(&self, id: u64) -> Option<T> {
        match find(self.running_view(), id) {
            Some(t) => Some(t),
            None => find(self.finished_view(), id),
        }
    }

    pub fn new() -> (r: Self)
        ensures
            r.wf(),
            r.running_view().len() == 0,
            r.finished_view().len() == 0,
    {
        Registry { running: Vec::new(), finished: Vec::new() }
    }

    pub fn has_running(&self) -> (r: bool)
        ensures
            r == (self.running_view().len() > 0),
    {
        self.running.len() > 0
    }

    /// Copies of the running entries, in id order.
    pub fn list_running(&self) -> (r: Vec<T>)
        ensures
            r@ == self.running_view(),
    {
        let mut out: Vec<T> = Vec::new();
        let mut i: usize = 0;
        while i < self.running.len()
            invariant
                i <= self.running@.len(),
                out@ =~= self.running@.take(i as int),
            decreases self.running@.len() - i,
        {
            out.push(self.running[i].duplicate());
            i += 1;
        }
        assert(self.running@.take(self.running@.len() as int) =~= self.running@);
        out
    }

    fn find_in(v: &Vec<T>, id: u64) -> (r: Option<T>)
        requires
            sorted_by_key(v@),
        ensures
            r == find(v@, id),
    {
        let mut i: usize = 0;
        while i < v.len()
            invariant
                i <= v@.len(),
                sorted_by_key(v@),
                forall|j: int| 0 <= j < i ==> (#[trigger] v@[j]).key_of() != id,
            decreases v@.len() - i,
        {
            if v[i].key() == id {
                proof {
                    lemma_find_at(v@, i as int);
                }
                return Some(v[i].duplicate());
            }
            i += 1;
        }
        proof {
            lemma_find_none(v@, id);
        }
        None
    }

    /// The running entry with this id, else the finished one.
    pub fn snapshot(&self, id: u64) -> (r: Option<T>)
        requires
            self.wf(),
        ensures
            r == self.lookup(id),
            id == 0 ==> r is None,
    {
        proof {
            lemma_find_none(self.running_view(), 0);
            lemma_find_none(self.finished_view(), 0);
        }
        match Self::find_in(&self.running, id) {
            Some(t) => Some(t),
            None => Self::find_in(&self.finished, id),
        }
    }

    fn upsert(v: &mut Vec<T>, item: T)
        requires
            sorted_by_key(old(v)@),
        ensures
            sorted_by_key(final(v)@),
            find(final(v)@, item.key_of()) == Some(item),
            forall|k: u64| k != item.key_of() ==> find(#[trigger] final(v)@, k) == find(old(v)@, k),
    {
        let key = item.key();
        let mut i: usize = 0;
        while i < v.len() && v[i].key() < key
            invariant
                i <= v@.len(),
                sorted_by_key(v@),
                forall|j: int| 0 <= j < i ==> (#[trigger] v@[j]).key_of() < key,
            decreases v@.len() - i,
        {
            i += 1;
        }
        let ghost before = v@;
        if i < v.len() && v[i].key() == key {
            v.set(i, item);
            proof {
                let after = v@;
                assert(sorted_by_key(after)) by {
                    assert forall|a: int, b: int| 0 <= a < b < after.len() implies (#[trigger] after[a]).key_of()
                        < (#[trigger] after[b]).key_of() by {
                        assert(before[a].key_of() < before[b].key_of() || a == i || b == i);
                        if a == i {
                            assert(before[i as int].key_of() < before[b].key_of());
                        } else if b == i {
                            assert(before[a].key_of() < before[i as int].key_of());
                        }
                    }
                }
                lemma_find_at(after, i as int);
                assert forall|k: u64| k != key implies find(#[trigger] v@, k) == find(before, k) by {
                    if has_key(before, k) {
                        let j = choose|j: int| 0 <= j < before.len() && (#[trigger] before[j]).key_of() == k;
                        lemma_find_at(before, j);
                        assert(j != i);
                        assert(after[j] == before[j]);
                        lemma_find_at(after, j);
                    } else {
                        assert forall|j: int| 0 <= j < after.len() implies (#[trigger] after[j]).key_of() != k by {
                            if j != i {
                                assert(after[j] == before[j]);
                            }
                        }
                        lemma_find_none(after, k);
                    }
                }
            }
        } else {
            v.insert(i, item);
            proof {
                let after = v@;
                assert(after =~= before.subrange(0, i as int).push(item) + before.subrange(i as int, before.len() as int));
                assert forall|j: int| i < j < after.len() implies after[j] == before[j - 1] by {}
                assert forall|j: int| 0 <= j < i implies after[j] == before[j] by {}
                assert(i < before.len() ==> before[i as int].key_of() > key);
                assert(sorted_by_key(after)) by {
                    assert forall|a: int, b: int| 0 <= a < b < after.len() implies (#[trigger] after[a]).key_of()
                        < (#[trigger] after[b]).key_of() by {
                        if a < i && b < i {
                            assert(before[a].key_of() < before[b].key_of());
                        } else if a < i && b == i {
                        } else if a < i {
                            assert(before[a].key_of() < before[b - 1].key_of());
                        } else if a == i {
                            assert(before[i as int].key_of() <= before[b - 1].key_of());
                        } else {
                            assert(before[a - 1].key_of() < before[b - 1].key_of());
                        }
                    }
                }
                lemma_find_at(after, i as int);
                assert forall|k: u64| k != key implies find(#[trigger] v@, k) == find(before, k) by {
                    if has_key(before, k) {
                        let j = choose|j: int| 0 <= j < before.len() && (#[trigger] before[j]).key_of() == k;
                        lemma_find_at(before, j);
                        if j < i {
                            assert(after[j] == before[j]);
                            lemma_find_at(after, j);
                        } else {
                            assert(after[j + 1] == before[j]);
                            lemma_find_at(after, j + 1);
                        }
                    } else {
                        assert forall|j: int| 0 <= j < after.len() implies (#[trigger] after[j]).key_of() != k by {
                            if j < i {
                                assert(after[j] == before[j]);
                            } else if j > i {
                                assert(after[j] == before[j - 1]);
                            }
                        }
                        lemma_find_none(after, k);
                    }
                }
            }
        }
    }

    fn remove_key(v: &mut Vec<T>, key: u64)
        requires
            sorted_by_key(old(v)@),
        ensures
            sorted_by_key(final(v)@),
            find(final(v)@, key) is None,
            forall|k: u64| k != key ==> find(#[trigger] final(v)@, k) == find(old(v)@, k),
    {
        let mut i: usize = 0;
        while i < v.len() && v[i].key() != key
            invariant
                i <= v@.len(),
                sorted_by_key(v@),
                forall|j: int| 0 <= j < i ==> (#[trigger] v@[j]).key_of() != key,
            decreases v@.len() - i,
        {
            i += 1;
        }
        if i < v.len() {
            let ghost before = v@;
            v.remove(i);
            proof {
                let after = v@;
                assert forall|j: int| 0 <= j < i implies after[j] == before[j] by {}
                assert forall|j: int| i <= j < after.len() implies after[j] == before[j + 1] by {}
                assert(sorted_by_key(after)) by {
                    assert forall|a: int, b: int| 0 <= a < b < after.len() implies (#[trigger] after[a]).key_of()
                        < (#[trigger] after[b]).key_of() by {
                        let a0 = if a < i { a } else { a + 1 };
                        let b0 = if b < i { b } else { b + 1 };
                        assert(before[a0].key_of() < before[b0].key_of());
                    }
                }
                assert forall|j: int| 0 <= j < after.len() implies (#[trigger] after[j]).key_of() != key by {
                    if j < i {
                    } else {
                        assert(before[i as int].key_of() < before[j + 1].key_of());
                    }
                }
                lemma_find_none(after, key);
                assert forall|k: u64| k != key implies find(#[trigger] v@, k) == find(before, k) by {
                    if has_key(before, k) {
                        let j = choose|j: int| 0 <= j < before.len() && (#[trigger] before[j]).key_of() == k;
                        lemma_find_at(before, j);
                        assert(j != i);
                        if j < i {
                            lemma_find_at(after, j);
                        } else {
                            lemma_find_at(after, j - 1);
                        }
                    } else {
                        assert forall|j: int| 0 <= j < after.len() implies (#[trigger] after[j]).key_of() != k by {
                            if j < i {
                            } else {
                                assert(after[j] == before[j + 1]);
                            }
                        }
                        lemma_find_none(after, k);
                    }
                }
            }
        } else {
            proof {
                lemma_find_none(v@, key);
            }
        }
    }

    /// Records a running entry, replacing the one with the same id.
    pub fn upsert_running(&mut self, item: T)
        requires
            old(self).wf(),
            item.key_of() > 0,
        ensures
            final(self).wf(),
            find(final(self).running_view(), item.key_of()) == Some(item),
            forall|k: u64| k != item.key_of() ==> find(#[trigger] final(self).running_view(), k) == find(
                old(self).running_view(),
                k,
            ),
            final(self).finished_view() == old(self).finished_view(),
    {
        let ghost before = self.running@;
        Self::upsert(&mut self.running, item);
        proof {
            lemma_positive_from(before, self.running@, item.key_of());
        }
    }

    /// Drops the entries with the lowest ids until at most
    /// `FINISHED_CAPACITY` remain.
    fn drop_lowest(v: &mut Vec<T>)
        requires
            sorted_by_key(old(v)@),
        ensures
            sorted_by_key(final(v)@),
            final(v)@.len() <= FINISHED_CAPACITY,
            old(v)@.len() <= FINISHED_CAPACITY ==> final(v)@ == old(v)@,
            old(v)@.len() > FINISHED_CAPACITY ==> final(v)@ == old(v)@.subrange(
                old(v)@.len() - FINISHED_CAPACITY,
                old(v)@.len() as int,
            ),
    {
        let ghost u = v@;
        let ghost mut d: int = 0;
        while v.len() > FINISHED_CAPACITY
            invariant
                0 <= d <= u.len(),
                v@ == u.subrange(d, u.len() as int),
                d > 0 ==> v@.len() >= FINISHED_CAPACITY,
            decreases v@.len(),
        {
            v.remove(0);
            proof {
                d = d + 1;
            }
        }
        proof {
            assert(u.subrange(0, u.len() as int) =~= u);
            assert(sorted_by_key(v@)) by {
                assert forall|a: int, b: int| 0 <= a < b < v@.len() implies (#[trigger] v@[a]).key_of()
                    < (#[trigger] v@[b]).key_of() by {
                    assert(v@[a] == u[a + d] && v@[b] == u[b + d]);
                }
            }
        }
    }

    /// Moves an entry from the running ones to the finished ones, then drops
    /// the finished entries with the lowest ids while more than
    /// `FINISHED_CAPACITY` remain.
    pub fn finish(&mut self, item: T)
        requires
            old(self).wf(),
            item.key_of() > 0,
        ensures
            final(self).wf(),
            find(final(self).running_view(), item.key_of()) is None,
            forall|k: u64| k != item.key_of() ==> find(#[trigger] final(self).running_view(), k) == find(
                old(self).running_view(),
                k,
            ),
            finished_after(old(self).finished_view(), item, final(self).finished_view()),
    {
        let key = item.key();
        let ghost run0 = self.running@;
        Self::remove_key(&mut self.running, key);
        proof {
            lemma_positive_from(run0, self.running@, key);
        }
        let ghost fin0 = self.finished@;
        Self::upsert(&mut self.finished, item);
        let ghost u = self.finished@;
        Self::drop_lowest(&mut self.finished);
        proof {
            lemma_positive_from(fin0, u, key);
            lemma_drop_lowest(fin0, item, u, self.finished@);
        }
    }

    /// Forgets every entry.
    pub fn reset(&mut self)
        ensures
            final(self).wf(),
            final(self).running_view().len() == 0,
            final(self).finished_view().len() == 0,
    {
        self.running = Vec::new();
        self.finished = Vec::new();
    }
}

/// The finished table after `item` is recorded in `before` and the lowest
/// ids are dropped down to `FINISHED_CAPACITY`: what is kept is unchanged (or
/// is `item`), at most `FINISHED_CAPACITY` entries remain, an id leaves only
/// when the table is full and every kept id is above it, and an item whose id
/// is above every earlier one is kept.
pub open spec fn finished_after<T: Keyed>(before: Seq<T>, item: T, after: Seq<T>) -> bool {
    &&& after.len() <= FINISHED_CAPACITY
    &&& forall|k: u64| #[trigger] has_key(after, k) ==> find(after, k) == (if k == item.key_of() {
        Some(item)
    } else {
        find(before, k)
    })
    &&& forall|k: u64|
        (k == item.key_of() || has_key(before, k)) && !#[trigger] has_key(after, k) ==> {
            &&& after.len() == FINISHED_CAPACITY
            &&& forall|i: int| 0 <= i < after.len() ==> (#[trigger] after[i]).key_of() > k
        }
    &&& (forall|i: int| 0 <= i < before.len() ==> (#[trigger] before[i]).key_of() < item.key_of())
        ==> find(after, item.key_of()) == Some(item)
}

proof fn lemma_drop_lowest<T: Keyed>(before: Seq<T>, item: T, u: Seq<T>, after: Seq<T>)
    requires
        sorted_by_key(before),
        sorted_by_key(u),
        find(u, item.key_of()) == Some(item),
        forall|k: u64| k != item.key_of() ==> #[trigger] find(u, k) == find(before, k),
        after.len() <= FINISHED_CAPACITY,
        u.len() <= FINISHED_CAPACITY ==> after == u,
        u.len() > FINISHED_CAPACITY ==> after == u.subrange(u.len() - FINISHED_CAPACITY, u.len() as int),
    ensures
        sorted_by_key(after),
        finished_after(before, item, after),
{
    let d: int = if u.len() > FINISHED_CAPACITY { u.len() - FINISHED_CAPACITY } else { 0 };
    assert(after =~= u.subrange(d, u.len() as int));
    assert forall|j: int| 0 <= j < after.len() implies after[j] == u[j + d] by {}
    assert(sorted_by_key(after)) by {
        assert forall|a: int, b: int| 0 <= a < b < after.len() implies (#[trigger] after[a]).key_of()
            < (#[trigger] after[b]).key_of() by {
            assert(after[a] == u[a + d] && after[b] == u[b + d]);
        }
    }
    assert forall|k: u64| #[trigger] has_key(after, k) implies find(after, k) == (if k == item.key_of() {
        Some(item)
    } else {
        find(before, k)
    }) by {
        let j = choose|j: int| 0 <= j < after.len() && (#[trigger] after[j]).key_of() == k;
        lemma_find_at(after, j);
        lemma_find_at(u, j + d);
    }
    assert forall|k: u64|
        (k == item.key_of() || has_key(before, k)) && !#[trigger] has_key(after, k) implies {
            &&& after.len() == FINISHED_CAPACITY
            &&& forall|i: int| 0 <= i < after.len() ==> (#[trigger] after[i]).key_of() > k
        } by {
        if k != item.key_of() {
            let j0 = choose|j: int| 0 <= j < before.len() && (#[trigger] before[j]).key_of() == k;
            lemma_find_at(before, j0);
        }
        assert(find(u, k) is Some);
        let m = choose|j: int| 0 <= j < u.len() && (#[trigger] u[j]).key_of() == k;
        if m >= d {
            assert(after[m - d] == u[m]);
            assert(has_key(after, k));
        }
        assert forall|i: int| 0 <= i < after.len() implies (#[trigger] after[i]).key_of() > k by {
            assert(after[i] == u[i + d]);
            assert(u[m].key_of() < u[i + d].key_of());
        }
    }
    if forall|i: int| 0 <= i < before.len() ==> (#[trigger] before[i]).key_of() < item.key_of() {
        let key = item.key_of();
        let m = choose|j: int| 0 <= j < u.len() && (#[trigger] u[j]).key_of() == key;
        lemma_find_at(u, m);
        if m < u.len() - 1 {
            let k2 = u[u.len() - 1].key_of();
            assert(u[m].key_of() < u[u.len() - 1].key_of());
            lemma_find_at(u, u.len() - 1);
            assert(find(before, k2) is Some);
            let j2 = choose|j: int| 0 <= j < before.len() && (#[trigger] before[j]).key_of() == k2;
            assert(before[j2].key_of() < key);
        }
        assert(m == u.len() - 1);
        assert(after[after.len() - 1] == u[m]);
        lemma_find_at(after, after.len() - 1);
    }
}

/// What a registry gives back of a write: an entry just recorded as running
/// is what a lookup of its id finds, and entries with other ids are found as
/// before.
pub proof fn lemma_lookup_after_upsert<T: Keyed>(before: Registry<T>, after: Registry<T>, item: T, k: u64)
    requires
        before.wf(),
        find(after.running_view(), item.key_of()) == Some(item),
        forall|k2: u64| k2 != item.key_of() ==> find(#[trigger] after.running_view(), k2) == find(
            before.running_view(),
            k2,
        ),
        after.finished_view() == before.finished_view(),
    ensures
        after.lookup(item.key_of()) == Some(item),
        k != item.key_of() ==> after.lookup(k) == before.lookup(k),
{
}

/// A finished entry is no longer running; when its id is above every earlier
/// finished id (ids are handed out in increasing order), a lookup of it finds
/// its final state, and an id dropped from the full finished table is no
/// longer found unless it runs again.
pub proof fn lemma_lookup_after_finish<T: Keyed>(before: Registry<T>, after: Registry<T>, item: T, k: u64)
    requires
        before.wf(),
        find(after.running_view(), item.key_of()) is None,
        finished_after(before.finished_view(), item, after.finished_view()),
        forall|i: int|
            0 <= i < before.finished_view().len() ==> (#[trigger] before.finished_view()[i]).key_of()
                < item.key_of(),
    ensures
        after.lookup(item.key_of()) == Some(item),
        has_key(before.finished_view(), k) && !has_key(after.finished_view(), k) && find(
            after.running_view(),
            k,
        ) is None ==> after.lookup(k) is None,
{
    if !has_key(after.finished_view(), k) {
        assert forall|i: int| 0 <= i < after.finished_view().len() implies (#[trigger] after.finished_view()[i]).key_of()
            != k by {
            assert(has_key(after.finished_view(), after.finished_view()[i].key_of()));
        }
        lemma_find_none(after.finished_view(), k);
    }
}

// ---------------------------------------------------------------------------
// Terminal sessions
// ---------------------------------------------------------------------------

impl Keyed for SessionSnapshot {
    open spec fn key_of(&self) -> u64 {
        self.session_id
    }

    fn key(&self) -> (r: u64) {
        self.session_id
    }

    fn duplicate(&self) -> (r: Self) {
        SessionSnapshot {
            session_id: self.session_id,
            brief: self.brief.clone(),
            cmd: self.cmd.clone(),
            workdir: self.workdir.clone(),
            saved_path: self.saved_path.clone(),
            status_path: self.status_path.clone(),
            started_at: self.started_at,
            pid: self.pid,
            pgrp: self.pgrp,
            output_bytes: self.output_bytes,
            output_lines: self.output_lines,
            output_tail: self.output_tail.clone(),
            running: self.running,
            exit_code: self.exit_code,
            timed_out: self.timed_out,
            user_exit: self.user_exit,
            suppressed_done: self.suppressed_done,
            mode: self.mode,
            owner: self.owner,
        }
    }
}

/// The terminal sessions of a process.
pub type SessionRegistry = Registry<SessionSnapshot>;

/// Whether any session is still running.
pub fn has_running_sessions(registry: &SessionRegistry) -> (r: bool)
    ensures
        r == (registry.running_view().len() > 0),
{
    registry.has_running()
}

/// The running sessions in the order of their ids.
pub fn list_sessions(registry: &SessionRegistry) -> (r: Vec<SessionSnapshot>)
    requires
        registry.wf(),
    ensures
        r@ == registry.running_view(),
        sorted_by_key(r@),
{
    registry.list_running()
}

/// The session with this id, running or finished.
pub fn snapshot_session(registry: &SessionRegistry, session_id: u64) -> (r: Option<SessionSnapshot>)
    requires
        registry.wf(),
    ensures
        r == registry.lookup(session_id),
{
    registry.snapshot(session_id)
}

/// What killing a session asks of the runtime: send the kill to a running
/// session, nothing to one that has stopped.
pub enum KillAction {
    SendKill(SessionSnapshot),
    AlreadyStopped(SessionSnapshot),
}

/// The first step of `pty_kill`: the session as last seen is looked up; a
/// running one has its done report suppressed and is to be sent the kill,
/// a stopped one is left alone; an unknown one is an error.
pub fn kill_session_step(registry: &mut SessionRegistry, session_id: u64) -> (r: Result<
    KillAction,
    crate::terminal_report::KillSessionError,
>)
    requires
        old(registry).wf(),
    ensures
        final(registry).wf(),
        match old(registry).lookup(session_id) {
            None => r == Err::<KillAction, crate::terminal_report::KillSessionError>(
                crate::terminal_report::KillSessionError::NotFound(session_id),
            ) && *final(registry) == *old(registry),
            Some(s) => if s.running {
                &&& r matches Ok(KillAction::SendKill(t)) && t == s
                &&& find(final(registry).running_view(), session_id) == Some(
                    SessionSnapshot { suppressed_done: true, ..s },
                )
                &&& forall|k: u64| k != session_id ==> find(#[trigger] final(registry).running_view(), k) == find(
                    old(registry).running_view(),
                    k,
                )
                &&& final(registry).finished_view() == old(registry).finished_view()
            } else {
                (r matches Ok(KillAction::AlreadyStopped(t)) && t == s) && *final(registry) == *old(registry)
            },
        },
{
    match registry.snapshot(session_id) {
        None => Err(crate::terminal_report::KillSessionError::NotFound(session_id)),
        Some(s) => {
            if s.running {
                proof {
                    lemma_lookup_key(*registry, session_id);
                }
                let mut marked = s.duplicate();
                marked.suppressed_done = true;
                registry.upsert_running(marked);
                Ok(KillAction::SendKill(s))
            } else {
                Ok(KillAction::AlreadyStopped(s))
            }
        },
    }
}

/// What a lookup finds carries the id it was looked up by, which is then
/// positive.
pub proof fn lemma_lookup_key<T: Keyed>(reg: Registry<T>, id: u64)
    requires
        reg.wf(),
    ensures
        reg.lookup(id) matches Some(t) ==> t.key_of() == id && id > 0,
{
    if has_key(reg.running_view(), id) {
        let i = choose|i: int| 0 <= i < reg.running_view().len() && (#[trigger] reg.running_view()[i]).key_of() == id;
        assert(reg.running_view()[i].key_of() > 0);
    } else if has_key(reg.finished_view(), id) {
        let i = choose|i: int| 0 <= i < reg.finished_view().len() && (#[trigger] reg.finished_view()[i]).key_of() == id;
        assert(reg.finished_view()[i].key_of() > 0);
    }
}

// ---------------------------------------------------------------------------
// Background commands
// ---------------------------------------------------------------------------

/// A command run in the background, as last seen.
#[derive(Debug, Clone)]
pub struct BackgroundCommandSnapshot {
    pub job_id: u64,
    pub brief: String,
    pub cmd: String,
    pub workdir: String,
    pub saved_path: String,
    pub status_path: String,
    pub started_at: std::time::Instant,
    pub pid: Option<u32>,
    pub running: bool,
    pub timed_out: bool,
    pub exit_code: Option<i32>,
    pub output_bytes: usize,
    pub output_lines: usize,
    pub output_tail: String,
}

/// What the background runtime reports about a job.
#[derive(Debug, Clone)]
pub enum BackgroundCommandEvent {
    Ready { snapshot: BackgroundCommandSnapshot },
    Progress { snapshot: BackgroundCommandSnapshot, tool_text: String },
    Done { snapshot: BackgroundCommandSnapshot, tool_text: String },
}

impl Keyed for BackgroundCommandSnapshot {
    open spec fn key_of(&self) -> u64 {
        self.job_id
    }

    fn key(&self) -> (r: u64) {
        self.job_id
    }

    fn duplicate(&self) -> (r: Self) {
        BackgroundCommandSnapshot {
            job_id: self.job_id,
            brief: self.brief.clone(),
            cmd: self.cmd.clone(),
            workdir: self.workdir.clone(),
            saved_path: self.saved_path.clone(),
            status_path: self.status_path.clone(),
            started_at: self.started_at,
            pid: self.pid,
            running: self.running,
            timed_out: self.timed_out,
            exit_code: self.exit_code,
            output_bytes: self.output_bytes,
            output_lines: self.output_lines,
            output_tail: self.output_tail.clone(),
        }
    }
}

/// The background jobs of a process.
pub type BackgroundRegistry = Registry<BackgroundCommandSnapshot>;

/// The running background jobs in the order of their ids.
pub fn list_background_commands(registry: &BackgroundRegistry) -> (r: Vec<BackgroundCommandSnapshot>)
    requires
        registry.wf(),
    ensures
        r@ == registry.running_view(),
        sorted_by_key(r@),
{
    registry.list_running()
}

/// The background job with this id, running or finished.
pub fn snapshot_background_command(registry: &BackgroundRegistry, job_id: u64) -> (r: Option<
    BackgroundCommandSnapshot,
>)
    requires
        registry.wf(),
    ensures
        r == registry.lookup(job_id),
{
    registry.snapshot(job_id)
}

} // verus!
