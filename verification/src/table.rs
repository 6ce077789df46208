//! The ordered mapping table of one compartment.
//!
//! The table owns the real-time projections of one compartment's mappings.
//! It keeps ids unique and preserves insertion order, so that iteration is
//! stable and deterministic — the tie-break between simultaneous matches
//! depends on it.

use vstd::prelude::*;
use crate::mapping::{MappingId, RealTimeMapping};

verus! {

/// An ordered collection of mappings with unique ids.
#[derive(Debug)]
pub struct MappingTable {
    /// The mappings, in insertion order. Ids are unique across the vector.
    pub entries: Vec<RealTimeMapping>,
}

/// Whether the ids of a mapping sequence are pairwise distinct.
pub open spec fn ids_unique(s: Seq<RealTimeMapping>) -> bool {
    forall|i: int, j: int|
        0 <= i < j < s.len() ==> (#[trigger] s[i].spec_id()) != (#[trigger] s[j].spec_id())
}

impl MappingTable {
    /// The table invariant: ids are pairwise distinct.
    pub open spec fn wf(self) -> bool {
        ids_unique(self.entries@)
    }

    /// Whether some entry has the given id.
    pub open spec fn spec_contains_id(self, id: MappingId) -> bool {
        exists|i: int| 0 <= i < self.entries@.len() && (#[trigger] self.entries@[i]).spec_id() == id
    }

    /// Creates an empty table.
    pub fn new() -> (r: MappingTable)
        ensures
            r.wf(),
            r.entries@.len() == 0,
    {
        MappingTable { entries: Vec::new() }
    }

    /// Creates an empty table with room for the expected population, so
    /// that ordinary growth does not allocate on the time-critical thread.
    pub fn with_capacity(capacity: usize) -> (r: MappingTable)
        ensures
            r.wf(),
            r.entries@.len() == 0,
    {
        MappingTable { entries: Vec::with_capacity(capacity) }
    }

    /// The number of mappings in the table.
    pub fn len(&self) -> (r: usize)
        ensures
            r == self.entries@.len(),
    {
        self.entries.len()
    }

    /// The position of the entry with the given id, if there is one.
    pub fn find_index(&self, id: MappingId) -> (r: Option<usize>)
        ensures
            match r {
                Some(i) => i < self.entries@.len() && self.entries@[i as int].spec_id() == id,
                None => !self.spec_contains_id(id),
            },
    {
        let mut i: usize = 0;
        while i < self.entries.len()
            invariant
                i <= self.entries@.len(),
                forall|j: int| 0 <= j < i ==> (#[trigger] self.entries@[j]).spec_id() != id,
            decreases self.entries@.len() - i,
        {
            if self.entries[i].id().value == id.value {
                return Some(i);
            }
            i = i + 1;
        }
        None
    }

    /// A reference to the entry with the given id, if there is one.
    pub fn get(&self, id: MappingId) -> (r: Option<&RealTimeMapping>)
        ensures
            match r {
                Some(m) => self.spec_contains_id(id) && m.spec_id() == id && exists|i: int|
                    0 <= i < self.entries@.len() && *m == #[trigger] self.entries@[i],
                None => !self.spec_contains_id(id),
            },
    {
        match self.find_index(id) {
            Some(i) => Some(&self.entries[i]),
            None => None,
        }
    }

    /// Inserts a mapping: replaces the entry with the same id in place,
    /// keeping its position, or appends at the end. Returns the replaced
    /// entry, if any.
    pub fn insert(&mut self, m: RealTimeMapping) -> (r: Option<RealTimeMapping>)
        requires
            old(self).wf(),
        ensures
            final(self).wf(),
            final(self).spec_contains_id(m.spec_id()),
            match r {
                Some(old_m) => old_m.spec_id() == m.spec_id() && exists|i: int|
                    0 <= i < old(self).entries@.len() && old_m == old(self).entries@[i]
                        && final(self).entries@ == old(self).entries@.update(i, m),
                None => !old(self).spec_contains_id(m.spec_id()) && final(self).entries@ == old(
                    self,
                ).entries@.push(m),
            },
    {
        match self.find_index(m.id()) {
            Some(i) => {
                let mut tmp = m;
                core::mem::swap(&mut tmp, &mut self.entries[i]);
                proof {
                    assert(self.entries@ =~= old(self).entries@.update(i as int, m));
                    assert(self.entries@[i as int].spec_id() == m.spec_id());
                }
                Some(tmp)
            },
            None => {
                self.entries.push(m);
                proof {
                    assert forall|i: int, j: int|
                        0 <= i < j < self.entries@.len() implies (
                    #[trigger] self.entries@[i].spec_id()) != (
                    #[trigger] self.entries@[j].spec_id()) by {
                        if j + 1 == self.entries@.len() {
                            assert(self.entries@[i] == old(self).entries@[i]);
                        }
                    }
                    assert(self.entries@[self.entries@.len() - 1].spec_id() == m.spec_id());
                }
                None
            },
        }
    }

    /// Replaces the whole table with the given mappings, keeping their
    /// order. An entry whose id was already taken by an earlier one
    /// replaces that earlier entry in place, which keeps ids unique. The
    /// previous entries are returned so that the caller can route them to
    /// disposal instead of freeing them here.
    pub fn replace_all(&mut self, new: Vec<RealTimeMapping>) -> (r: Vec<RealTimeMapping>)
        requires
            old(self).wf(),
        ensures
            final(self).wf(),
            r@ == old(self).entries@,
            ids_unique(new@) ==> final(self).entries@ == new@,
    {
        let mut old_entries: Vec<RealTimeMapping> = Vec::new();
        core::mem::swap(&mut old_entries, &mut self.entries);
        self.rebuild(new);
        old_entries
    }

    /// Rebuilds the table from scratch by inserting every given mapping in
    /// order.
    fn rebuild(&mut self, incoming: Vec<RealTimeMapping>)
        requires
            old(self).entries@.len() == 0,
        ensures
            final(self).wf(),
            ids_unique(incoming@) ==> final(self).entries@ == incoming@,
    {
        proof {
            assert(ids_unique(self.entries@));
        }
        let mut incoming = incoming;
        let ghost all = incoming@;
        let ghost mut done: int = 0;
        while incoming.len() > 0
            invariant
                0 <= done <= all.len(),
                incoming@ == all.skip(done),
                self.wf(),
                ids_unique(all) ==> self.entries@ == all.take(done),
            decreases incoming@.len(),
        {
            let ghost pre = self.entries@;
            let m = incoming.remove(0);
            proof {
                assert(m == all[done]);
                assert(incoming@ =~= all.skip(done + 1));
            }
            let replaced = self.insert(m);
            proof {
                if ids_unique(all) {
                    assert(pre == all.take(done));
                    assert forall|j: int| 0 <= j < done implies (#[trigger] pre[j]).spec_id()
                        != all[done].spec_id() by {
                        assert(pre[j] == all[j]);
                    }
                    assert(replaced is None);
                    assert(self.entries@ =~= all.take(done + 1));
                }
                done = done + 1;
            }
        }
        proof {
            if ids_unique(all) {
                assert(self.entries@ =~= all);
            }
        }
    }
}

} // verus!
