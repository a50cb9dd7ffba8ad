//! Process-local memory of the requests fulfilled so far.
//!
//! The set is empty at start-up and only grows: an id enters it once the
//! ledger has confirmed its fulfillment. After a restart the ledger program's
//! own check against fulfilling a request twice is what prevents it; this
//! set only spares the work.
use vstd::prelude::*;
use crate::bytes::bytes_eq;

verus! {

pub struct DedupTracker {
    ids: Vec<Vec<u8>>,
}

impl DedupTracker {
    /// The ids held, in the order they were marked.
    pub closed spec fn ids_seq(&self) -> Seq<Seq<u8>> {
        self.ids@.map_values(|v: Vec<u8>| v@)
    }

    /// The set of ids marked as fulfilled.
    pub closed spec fn view(&self) -> Set<Seq<u8>> {
        self.ids_seq().to_set()
    }

    /// Each id is held once.
    pub closed spec fn wf(&self) -> bool {
        self.ids_seq().no_duplicates()
    }

    /// An empty tracker.
    pub fn new() -> (r: Self)
        ensures
            r.wf(),
            r@ == Set::<Seq<u8>>::empty(),
    {
        let r = DedupTracker { ids: Vec::new() };
        proof {
            assert(r.ids_seq() =~= Seq::<Seq<u8>>::empty());
        }
        r
    }

    /// Whether `id` was marked as fulfilled.
    pub fn is_processed(&self, id: &Vec<u8>) -> (r: bool)
        ensures
            r == self@.contains(id@),
    {
        let mut i: usize = 0;
        while i < self.ids.len()
            invariant
                i <= self.ids@.len(),
                forall|j: int| 0 <= j < i ==> self.ids_seq()[j] != id@,
            decreases self.ids@.len() - i,
        {
            if bytes_eq(&self.ids[i], id) {
                proof {
                    assert(self.ids_seq()[i as int] == id@);
                }
                return true;
            }
            i = i + 1;
        }
        false
    }

    /// Marks `id` as fulfilled.
    pub fn mark_processed(&mut self, id: &Vec<u8>)
        requires
            old(self).wf(),
        ensures
            final(self).wf(),
            final(self)@ == old(self)@.insert(id@),
    {
        if self.is_processed(id) {
            proof {
                assert(self@.insert(id@) =~= self@);
            }
            return;
        }
        let ghost before = self.ids_seq();
        self.ids.push(id.clone());
        proof {
            assert(self.ids_seq() =~= before.push(id@));
            assert forall|x: Seq<u8>| #[trigger] self@.contains(x) == old(self)@.insert(id@).contains(x) by {
                if x == id@ {
                    assert(self.ids_seq()[before.len() as int] == x);
                } else if old(self)@.contains(x) {
                    let j = choose|j: int| 0 <= j < before.len() && before[j] == x;
                    assert(self.ids_seq()[j] == x);
                } else if self@.contains(x) {
                    let j = choose|j: int| 0 <= j < self.ids_seq().len() && self.ids_seq()[j] == x;
                    assert(before[j] == x);
                }
            }
            assert(self@ =~= old(self)@.insert(id@));
        }
    }

    /// How many requests were marked as fulfilled.
    pub fn len(&self) -> (r: usize)
        requires
            self.wf(),
        ensures
            r as int == self@.len(),
    {
        proof {
            self.ids_seq().unique_seq_to_set();
        }
        self.ids.len()
    }
}

} // verus!
