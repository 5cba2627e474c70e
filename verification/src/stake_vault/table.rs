//! The vault's stake records, one per staker, kept as a list of
//! (staker, record) entries in which no staker occurs twice.

use super::types::StakeInfo;
use crate::address::Address;
use vstd::prelude::*;

verus! {

/// Whether no staker occurs twice among `e`.
pub open spec fn keys_distinct(e: Seq<(Address, StakeInfo)>) -> bool {
    forall|i: int, j: int|
        0 <= i < e.len() && 0 <= j < e.len() && i != j ==> #[trigger] e[i].0@ != #[trigger] e[j].0@
}

/// Whether some entry of `e` belongs to the staker `k`.
pub open spec fn has_key(e: Seq<(Address, StakeInfo)>, k: Seq<char>) -> bool {
    exists|i: int| 0 <= i < e.len() && #[trigger] e[i].0@ == k
}

/// The records of `e`, by staker.
pub open spec fn entries_map(e: Seq<(Address, StakeInfo)>) -> Map<Seq<char>, StakeInfo> {
    Map::new(
        |k: Seq<char>| has_key(e, k),
        |k: Seq<char>| e[choose|i: int| 0 <= i < e.len() && #[trigger] e[i].0@ == k].1,
    )
}

/// In a list without repeated stakers, each entry is the record of its staker.
proof fn lemma_entry(e: Seq<(Address, StakeInfo)>, i: int)
    requires
        keys_distinct(e),
        0 <= i < e.len(),
    ensures
        entries_map(e).dom().contains(e[i].0@),
        entries_map(e)[e[i].0@] == e[i].1,
{
    let k = e[i].0@;
    assert(has_key(e, k));
    let j = choose|j: int| 0 <= j < e.len() && #[trigger] e[j].0@ == k;
    assert(e[j].0@ == k);
    assert(j == i);
}

/// The stake records of a vault.
pub struct StakeTable {
    entries: Vec<(Address, StakeInfo)>,
}

impl View for StakeTable {
    type V = Map<Seq<char>, StakeInfo>;

    closed spec fn view(&self) -> Map<Seq<char>, StakeInfo> {
        entries_map(self.entries@)
    }
}

impl StakeTable {
    /// No staker has two records.
    pub closed spec fn wf(&self) -> bool {
        keys_distinct(self.entries@)
    }

    /// A table without records.
    pub fn new() -> (t: StakeTable)
        ensures
            t.wf(),
            t@ == Map::<Seq<char>, StakeInfo>::empty(),
    {
        let t = StakeTable { entries: Vec::new() };
        assert(t@ =~= Map::<Seq<char>, StakeInfo>::empty());
        t
    }

    /// The position of the entry of `user`, if any.
    fn position(&self, user: &Address) -> (r: Option<usize>)
        requires
            self.wf(),
        ensures
            match r {
                Some(i) => i < self.entries@.len() && self.entries@[i as int].0@ == user@,
                None => !self@.dom().contains(user@),
            },
    {
        let n = self.entries.len();
        let mut i: usize = 0;
        while i < n
            invariant
                n == self.entries@.len(),
                i <= n,
                forall|j: int| 0 <= j < i ==> #[trigger] self.entries@[j].0@ != user@,
            decreases n - i,
        {
            if self.entries[i].0.same_as(user) {
                return Some(i);
            }
            i = i + 1;
        }
        assert(!has_key(self.entries@, user@));
        None
    }

    /// The record of `user`, if any.
    pub fn get(&self, user: &Address) -> (r: Option<StakeInfo>)
        requires
            self.wf(),
        ensures
            r == self@.get(user@),
    {
        match self.position(user) {
            Some(i) => {
                proof {
                    lemma_entry(self.entries@, i as int);
                }
                Some(self.entries[i].1)
            },
            None => None,
        }
    }

    /// Stores `info` as the record of `user`, replacing any earlier one.
    pub fn set(&mut self, user: &Address, info: StakeInfo)
        requires
            old(self).wf(),
        ensures
            final(self).wf(),
            final(self)@ == old(self)@.insert(user@, info),
    {
        let ghost e0 = self.entries@;
        match self.position(user) {
            Some(i) => {
                self.entries.set(i, (user.clone(), info));
                let ghost e1 = self.entries@;
                assert(e1 == e0.update(i as int, (e1[i as int].0, info)));
                assert forall|a: int, b: int|
                    0 <= a < e1.len() && 0 <= b < e1.len() && a != b implies #[trigger] e1[a].0@
                    != #[trigger] e1[b].0@ by {
                    assert(e0[a].0@ == e1[a].0@);
                    assert(e0[b].0@ == e1[b].0@);
                }
                assert forall|k: Seq<char>| #[trigger] has_key(e1, k) == has_key(e0, k) by {
                    if has_key(e1, k) {
                        let j = choose|j: int| 0 <= j < e1.len() && #[trigger] e1[j].0@ == k;
                        assert(e0[j].0@ == k);
                    }
                    if has_key(e0, k) {
                        let j = choose|j: int| 0 <= j < e0.len() && #[trigger] e0[j].0@ == k;
                        assert(e1[j].0@ == k);
                    }
                }
                assert forall|k: Seq<char>| #[trigger] entries_map(e1).dom().contains(k) implies entries_map(
                    e1,
                )[k] == entries_map(e0).insert(user@, info)[k] by {
                    let j = choose|j: int| 0 <= j < e1.len() && #[trigger] e1[j].0@ == k;
                    lemma_entry(e1, j);
                    if j != i {
                        lemma_entry(e0, j);
                    }
                }
                assert(self@ =~= old(self)@.insert(user@, info));
            },
            None => {
                self.entries.push((user.clone(), info));
                let ghost e1 = self.entries@;
                assert forall|a: int, b: int|
                    0 <= a < e1.len() && 0 <= b < e1.len() && a != b implies #[trigger] e1[a].0@
                    != #[trigger] e1[b].0@ by {
                    if a < e0.len() && b < e0.len() {
                        assert(e0[a] == e1[a]);
                        assert(e0[b] == e1[b]);
                    } else if a < e0.len() {
                        assert(e0[a] == e1[a]);
                        assert(has_key(e0, e1[a].0@));
                    } else {
                        assert(e0[b] == e1[b]);
                        assert(has_key(e0, e1[b].0@));
                    }
                }
                assert forall|k: Seq<char>| #[trigger] has_key(e1, k) == (has_key(e0, k) || k
                    == user@) by {
                    if has_key(e1, k) {
                        let j = choose|j: int| 0 <= j < e1.len() && #[trigger] e1[j].0@ == k;
                        if j < e0.len() {
                            assert(e0[j] == e1[j]);
                        }
                    }
                    if has_key(e0, k) {
                        let j = choose|j: int| 0 <= j < e0.len() && #[trigger] e0[j].0@ == k;
                        assert(e0[j] == e1[j]);
                    }
                    if k == user@ {
                        assert(e1[e0.len() as int].0@ == k);
                    }
                }
                assert forall|k: Seq<char>| #[trigger] entries_map(e1).dom().contains(k) implies entries_map(
                    e1,
                )[k] == entries_map(e0).insert(user@, info)[k] by {
                    let j = choose|j: int| 0 <= j < e1.len() && #[trigger] e1[j].0@ == k;
                    lemma_entry(e1, j);
                    if j < e0.len() {
                        assert(e0[j] == e1[j]);
                        lemma_entry(e0, j);
                    }
                }
                assert(self@ =~= old(self)@.insert(user@, info));
            },
        }
    }

    /// Removes the record of `user`, if any.
    pub fn remove(&mut self, user: &Address)
        requires
            old(self).wf(),
        ensures
            final(self).wf(),
            final(self)@ == old(self)@.remove(user@),
    {
        let ghost e0 = self.entries@;
        match self.position(user) {
            Some(i) => {
                let _ = self.entries.remove(i);
                let ghost e1 = self.entries@;
                assert(e1 == e0.remove(i as int));
                assert forall|j: int| 0 <= j < e1.len() implies #[trigger] e1[j] == (if j < i {
                    e0[j]
                } else {
                    e0[j + 1]
                }) by {}
                assert forall|a: int, b: int|
                    0 <= a < e1.len() && 0 <= b < e1.len() && a != b implies #[trigger] e1[a].0@
                    != #[trigger] e1[b].0@ by {
                    let a0 = if a < i {
                        a
                    } else {
                        a + 1
                    };
                    let b0 = if b < i {
                        b
                    } else {
                        b + 1
                    };
                    assert(e1[a] == e0[a0]);
                    assert(e1[b] == e0[b0]);
                }
                assert forall|k: Seq<char>| #[trigger] has_key(e1, k) == (has_key(e0, k) && k
                    != user@) by {
                    if has_key(e1, k) {
                        let j = choose|j: int| 0 <= j < e1.len() && #[trigger] e1[j].0@ == k;
                        let j0 = if j < i {
                            j
                        } else {
                            j + 1
                        };
                        assert(e1[j] == e0[j0]);
                        assert(e0[j0].0@ == k);
                        assert(j0 != i);
                    }
                    if has_key(e0, k) && k != user@ {
                        let j = choose|j: int| 0 <= j < e0.len() && #[trigger] e0[j].0@ == k;
                        assert(j != i);
                        let j1 = if j < i {
                            j
                        } else {
                            j - 1
                        };
                        assert(e1[j1] == e0[j]);
                    }
                }
                assert forall|k: Seq<char>| #[trigger] entries_map(e1).dom().contains(k) implies entries_map(
                    e1,
                )[k] == entries_map(e0)[k] by {
                    let j = choose|j: int| 0 <= j < e1.len() && #[trigger] e1[j].0@ == k;
                    lemma_entry(e1, j);
                    let j0 = if j < i {
                        j
                    } else {
                        j + 1
                    };
                    assert(e1[j] == e0[j0]);
                    lemma_entry(e0, j0);
                }
                assert(self@ =~= old(self)@.remove(user@));
            },
            None => {
                assert(self@ =~= old(self)@.remove(user@));
            },
        }
    }
}

} // verus!
