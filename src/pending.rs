//! The outbound correlation table: requests sent to the widget that still
//! wait for a reply, keyed by request id.

use vstd::prelude::*;
use crate::outgoing::OutgoingKind;

verus! {

#[derive(Debug)]
pub struct PendingEntry {
    pub request_id: String,
    pub kind: OutgoingKind,
}

/// Outstanding requests, oldest first; no two share a request id.
#[derive(Debug)]
pub struct PendingTable {
    pub entries: Vec<PendingEntry>,
}

impl PendingTable {
    pub open spec fn wf(&self) -> bool {
        forall|i: int, j: int|
            0 <= i < j < self.entries@.len() ==> #[trigger] self.entries@[i].request_id@
                != #[trigger] self.entries@[j].request_id@
    }

    /// Whether a request with this id waits for a reply.
    pub open spec fn has(&self, id: Seq<char>) -> bool {
        exists|i: int| 0 <= i < self.entries@.len() && #[trigger] self.entries@[i].request_id@ == id
    }

    /// The position of the request with this id.
    pub open spec fn index_of(&self, id: Seq<char>) -> int {
        choose|i: int| 0 <= i < self.entries@.len() && #[trigger] self.entries@[i].request_id@ == id
    }

    pub fn new() -> (r: PendingTable)
        ensures
            r.wf(),
            r.entries@.len() == 0,
    {
        PendingTable { entries: Vec::new() }
    }

    pub fn len(&self) -> (r: usize)
        ensures
            r == self.entries@.len(),
    {
        self.entries.len()
    }

    fn find(&self, id: &str) -> (r: Option<usize>)
        requires
            self.wf(),
        ensures
            r is Some <==> self.has(id@),
            r matches Some(i) ==> i == self.index_of(id@) && i < self.entries@.len(),
    {
        let key = String::from_str(id);
        let mut i: usize = 0;
        while i < self.entries.len()
            invariant
                i <= self.entries@.len(),
                self.wf(),
                key@ == id@,
                forall|j: int| 0 <= j < i ==> #[trigger] self.entries@[j].request_id@ != id@,
            decreases self.entries@.len() - i,
        {
            if self.entries[i].request_id == key {
                proof {
                    let k = self.index_of(id@);
                    assert(self.entries@[i as int].request_id@ == id@);
                    assert(0 <= k < self.entries@.len() && self.entries@[k].request_id@ == id@);
                    if k != i as int {
                        if k < i as int {
                            assert(self.entries@[k].request_id@ != self.entries@[i as int].request_id@);
                        } else {
                            assert(self.entries@[i as int].request_id@ != self.entries@[k].request_id@);
                        }
                    }
                }
                return Some(i);
            }
            i = i + 1;
        }
        None
    }

    pub fn contains(&self, id: &str) -> (r: bool)
        requires
            self.wf(),
        ensures
            r == self.has(id@),
    {
        self.find(id).is_some()
    }

    /// Registers a request; refused, with the table unchanged, where the id
    /// is outstanding already.
    pub fn insert(&mut self, request_id: String, kind: OutgoingKind) -> (r: bool)
        requires
            old(self).wf(),
        ensures
            final(self).wf(),
            r == !old(self).has(request_id@),
            r ==> final(self).entries@ == old(self).entries@.push(PendingEntry { request_id, kind }),
            !r ==> *final(self) == *old(self),
    {
        if self.contains(request_id.as_str()) {
            return false;
        }
        self.entries.push(PendingEntry { request_id, kind });
        true
    }

    /// Removes the request with this id and returns its kind; an unknown id
    /// leaves the table unchanged.
    pub fn take(&mut self, request_id: &str) -> (r: Option<OutgoingKind>)
        requires
            old(self).wf(),
        ensures
            final(self).wf(),
            old(self).has(request_id@) ==> {
                let i = old(self).index_of(request_id@);
                &&& r == Some(old(self).entries@[i].kind)
                &&& final(self).entries@ == old(self).entries@.remove(i)
            },
            !old(self).has(request_id@) ==> r is None && *final(self) == *old(self),
            !final(self).has(request_id@),
    {
        match self.find(request_id) {
            None => None,
            Some(i) => {
                let e = self.entries.remove(i);
                proof {
                    let o = old(self).entries@;
                    let n = self.entries@;
                    assert forall|a: int, b: int| 0 <= a < b < n.len() implies #[trigger] n[a].request_id@ != #[trigger] n[b].request_id@ by {
                        let a2 = if a < i { a } else { a + 1 };
                        let b2 = if b < i { b } else { b + 1 };
                        assert(n[a] == o[a2]);
                        assert(n[b] == o[b2]);
                    }
                    assert forall|a: int| 0 <= a < n.len() implies #[trigger] n[a].request_id@ != request_id@ by {
                        let a2 = if a < i { a } else { a + 1 };
                        assert(n[a] == o[a2]);
                        if a2 < i {
                            assert(o[a2].request_id@ != o[i as int].request_id@);
                        } else {
                            assert(o[i as int].request_id@ != o[a2].request_id@);
                        }
                    }
                }
                Some(e.kind)
            },
        }
    }

    /// Empties the table, returning every outstanding request: each resolves
    /// to a disconnection.
    pub fn flush(&mut self) -> (r: Vec<PendingEntry>)
        ensures
            r@ == old(self).entries@,
            final(self).entries@.len() == 0,
            final(self).wf(),
    {
        let mut out: Vec<PendingEntry> = Vec::new();
        std::mem::swap(&mut self.entries, &mut out);
        out
    }
}

} // verus!
