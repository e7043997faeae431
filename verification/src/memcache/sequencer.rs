//! The source of record versions.

use vstd::prelude::*;

verus! {

/// Hands out version ids in increasing order, starting at 1. The id 0 is
/// never handed out: in a request it means that no version is checked.
pub struct CasSequencer {
    next: u64,
}

impl View for CasSequencer {
    type V = u64;

    /// The id that the next call of `next` returns.
    closed spec fn view(&self) -> u64 {
        self.next
    }
}

impl CasSequencer {
    /// A sequencer whose first id is 1.
    pub fn new() -> (sequencer: CasSequencer)
        ensures
            sequencer@ == 1,
    {
        CasSequencer { next: 1 }
    }

    /// Whether every id but the last has been handed out, so that `next`
    /// may no longer be called.
    pub fn is_exhausted(&self) -> (exhausted: bool)
        ensures
            exhausted == (self@ == u64::MAX),
    {
        self.next == u64::MAX
    }

    /// The next id. Each call returns an id one greater than the call
    /// before it.
    pub fn next(&mut self) -> (id: u64)
        requires
            old(self)@ < u64::MAX,
        ensures
            id == old(self)@,
            final(self)@ == id + 1,
    {
        let id = self.next;
        self.next = id + 1;
        id
    }
}

} // verus!
