//! The ownership map of one scan: how many tasks each owner holds.

use vstd::hash_map::StringHashMap;
use vstd::prelude::*;

verus! {

/// The number of tasks that `counts` attributes to `owner`; none where it has no entry.
pub open spec fn count_of(counts: Map<Seq<char>, nat>, owner: Seq<char>) -> nat {
    if counts.contains_key(owner) {
        counts[owner]
    } else {
        0
    }
}

/// The counts after one more task has been attributed to `owner`.
pub open spec fn assigned(counts: Map<Seq<char>, nat>, owner: Seq<char>) -> Map<Seq<char>, nat> {
    counts.insert(owner, count_of(counts, owner) + 1)
}

/// Counts, per owner identity, the tasks attributed to that owner during one scan.
pub struct OwnershipMap {
    counts: StringHashMap<usize>,
}

impl View for OwnershipMap {
    type V = Map<Seq<char>, nat>;

    closed spec fn view(&self) -> Map<Seq<char>, nat> {
        Map::new(|owner: Seq<char>| self.counts@.contains_key(owner), |owner: Seq<char>| self.counts@[owner] as nat)
    }
}

impl OwnershipMap {
    /// A map in which nobody owns anything.
    pub fn new() -> (empty: OwnershipMap)
        ensures
            empty@ == Map::<Seq<char>, nat>::empty(),
    {
        let empty = OwnershipMap { counts: StringHashMap::new() };
        assert(empty@ =~= Map::<Seq<char>, nat>::empty());
        empty
    }

    /// The number of tasks attributed to `owner`.
    pub fn count(&self, owner: &str) -> (count: usize)
        ensures
            count == count_of(self@, owner@),
    {
        match self.counts.get(owner) {
            Some(count) => *count,
            None => 0,
        }
    }

    /// Attributes one more task to `owner`.
    pub fn assign(&mut self, owner: &str)
        requires
            count_of(old(self)@, owner@) < usize::MAX,
        ensures
            final(self)@ == assigned(old(self)@, owner@),
    {
        let count: usize = self.count(owner);
        self.counts.insert(owner.to_owned(), count + 1);
        assert(self@ =~= assigned(old(self)@, owner@));
    }
}

} // verus!
