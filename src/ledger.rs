use vstd::prelude::*;
use crate::address::Address;
use crate::account::RawEntry;

verus! {

/// The ledger's entries, at most one per address.
#[derive(Debug, Clone)]
pub struct Ledger {
    pub entries: Vec<RawEntry>,
}

impl Ledger {
    /// No two entries share an address.
    pub open spec fn wf(&self) -> bool {
        forall|i: int, j: int|
            0 <= i < j < self.entries@.len() ==> self.entries@[i].address@ != self.entries@[j].address@
    }

    /// An entry lives at `a`.
    pub open spec fn has(&self, a: Seq<u8>) -> bool {
        exists|i: int| 0 <= i < self.entries@.len() && self.entries@[i].address@ == a
    }

    /// The position of the entry at `a`.
    pub open spec fn index_of(&self, a: Seq<u8>) -> int {
        choose|i: int| 0 <= i < self.entries@.len() && self.entries@[i].address@ == a
    }

    /// The entry at `a`.
    pub open spec fn entry(&self, a: Seq<u8>) -> RawEntry {
        self.entries@[self.index_of(a)]
    }

    /// An empty ledger.
    pub fn new() -> (r: Ledger)
        ensures
            r.wf(),
            r.entries@.len() == 0,
    {
        Ledger { entries: Vec::new() }
    }

    /// The position of the entry at `a`, if there is one.
    pub fn find(&self, a: &Address) -> (r: Option<usize>)
        requires
            self.wf(),
        ensures
            r is Some <==> self.has(a@),
            r matches Some(i) ==> i == self.index_of(a@) && i < self.entries@.len()
                && self.entries@[i as int].address@ == a@,
    {
        let mut i: usize = 0;
        while i < self.entries.len()
            invariant
                self.wf(),
                i <= self.entries@.len(),
                forall|j: int| 0 <= j < i ==> self.entries@[j].address@ != a@,
            decreases self.entries@.len() - i,
        {
            if self.entries[i].address.same_as(a) {
                assert(self.has(a@));
                let ghost k = self.index_of(a@);
                assert(k == i) by {
                    if k < i {
                    } else if k > i {
                    }
                }
                return Some(i);
            }
            i = i + 1;
        }
        None
    }

    /// The entry at `a`, if there is one.
    pub fn get(&self, a: &Address) -> (r: Option<&RawEntry>)
        requires
            self.wf(),
        ensures
            r is Some <==> self.has(a@),
            r matches Some(e) ==> *e == self.entry(a@),
    {
        match self.find(a) {
            Some(i) => Some(&self.entries[i]),
            None => None,
        }
    }

    /// Stores `entry` at its address, replacing any entry there.
    pub fn put(&mut self, entry: RawEntry)
        requires
            old(self).wf(),
        ensures
            final(self).wf(),
            final(self).has(entry.address@),
            final(self).entry(entry.address@) == entry,
            forall|b: Seq<u8>| b != entry.address@ ==> (final(self).has(b) == old(self).has(b)),
            forall|b: Seq<u8>| b != entry.address@ && old(self).has(b) ==> final(self).entry(b) == old(self).entry(b),
    {
        let ghost a = entry.address@;
        match self.find(&entry.address) {
            Some(i) => {
                self.entries.set(i, entry);
                assert(self.entries@[i as int].address@ == a);
                assert forall|b: Seq<u8>| b != a && old(self).has(b) implies self.has(b)
                    && self.entry(b) == old(self).entry(b) by {
                    let k = old(self).index_of(b);
                    assert(self.entries@[k].address@ == b);
                    let m = self.index_of(b);
                    assert(m == k) by {
                        if m != k {
                            assert(old(self).entries@[m].address@ == b);
                        }
                    }
                }
                assert forall|b: Seq<u8>| b != a && self.has(b) implies old(self).has(b) by {
                    let m = self.index_of(b);
                    assert(old(self).entries@[m].address@ == b);
                }
                let ghost m = self.index_of(a);
                assert(m == i);
            },
            None => {
                self.entries.push(entry);
                let ghost n = old(self).entries@.len() as int;
                assert(self.entries@[n].address@ == a);
                assert forall|b: Seq<u8>| b != a && old(self).has(b) implies self.has(b)
                    && self.entry(b) == old(self).entry(b) by {
                    let k = old(self).index_of(b);
                    assert(self.entries@[k].address@ == b);
                    let m = self.index_of(b);
                    assert(m == k) by {
                        if m != k {
                            assert(old(self).entries@[m].address@ == b);
                        }
                    }
                }
                assert forall|b: Seq<u8>| b != a && self.has(b) implies old(self).has(b) by {
                    let m = self.index_of(b);
                    assert(old(self).entries@[m].address@ == b);
                }
                let ghost m = self.index_of(a);
                assert(m == n);
            },
        }
    }

    /// Replaces the data of the entry at position `i`.
    pub fn set_data(&mut self, i: usize, data: Vec<u8>)
        requires
            old(self).wf(),
            i < old(self).entries@.len(),
        ensures
            final(self).wf(),
            final(self).entries@ == old(self).entries@.update(
                i as int,
                RawEntry { data: data, ..old(self).entries@[i as int] },
            ),
    {
        let old_entry = &self.entries[i];
        let updated = RawEntry { address: old_entry.address, controller: old_entry.controller, data };
        self.entries.set(i, updated);
    }
}

} // verus!
