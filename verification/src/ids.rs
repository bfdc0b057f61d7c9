//! Identity allocator: a monotonic counter handing out unique small
//! integers for client-side object correlation.
//!
//! The counter is owned by an explicit allocator value rather than hidden
//! process-wide state, so it can be created fresh per test run; embedders
//! keep one allocator per process (behind their own synchronisation) to get
//! the process-wide guarantee.

use vstd::prelude::*;

verus! {

/// Monotonic identity allocator. Starts at 0; each allocation returns the
/// current counter and advances it by one, so issued ids are strictly
/// increasing, consecutive, and never reused within the allocator's life.
#[derive(Debug, PartialEq, Eq, Structural)]
pub struct IdAllocator {
    pub counter: u32,
}

/// The ids issued by `n` successive allocations starting from counter
/// value `start`: `start, start + 1, ..., start + n - 1`.
pub open spec fn ids_issued(start: nat, n: nat) -> Seq<nat>
    decreases n,
{
    if n == 0 {
        Seq::empty()
    } else {
        ids_issued(start, (n - 1) as nat).push((start + n - 1) as nat)
    }
}

impl IdAllocator {
    /// A fresh allocator with its counter at 0.
    pub fn new() -> (a: IdAllocator)
        ensures
            a.counter == 0,
    {
        IdAllocator { counter: 0 }
    }

    /// Allocate the next free id: returns the current counter value and
    /// advances it. Ids come out strictly increasing with no gaps and no
    /// reuse. The counter must not yet have reached its ceiling; use
    /// `try_next_free_id` when that cannot be ruled out.
    pub fn next_free_id(&mut self) -> (id: u32)
        requires
            old(self).counter < u32::MAX,
        ensures
            id == old(self).counter,
            final(self).counter == old(self).counter + 1,
    {
        let id = self.counter;
        self.counter = self.counter + 1;
        id
    }

    /// Total allocation: `None` exactly when the counter space is
    /// exhausted (the counter has reached its ceiling), in which case
    /// nothing changes; never wraps silently.
    pub fn try_next_free_id(&mut self) -> (r: Option<u32>)
        ensures
            old(self).counter < u32::MAX ==> r == Some(old(self).counter)
                && final(self).counter == old(self).counter + 1,
            old(self).counter == u32::MAX ==> r is None
                && final(self).counter == old(self).counter,
    {
        if self.counter < u32::MAX {
            Some(self.next_free_id())
        } else {
            None
        }
    }
}

/// Allocate the next free id from the given allocator. The counterpart of
/// `IdAllocator::next_free_id` as a free function, matching the external
/// surface: synchronous and monotonic.
pub fn get_next_free_id(alloc: &mut IdAllocator) -> (id: u32)
    requires
        old(alloc).counter < u32::MAX,
    ensures
        id == old(alloc).counter,
        final(alloc).counter == old(alloc).counter + 1,
{
    alloc.next_free_id()
}

/// The ids issued by successive allocations are pairwise distinct and
/// consecutive: the `i`-th id is `start + i`, so `n` allocations yield `n`
/// distinct values with no duplicates and no gaps.
pub proof fn lemma_ids_distinct_no_gaps(start: nat, n: nat)
    ensures
        ids_issued(start, n).len() == n,
        forall|i: int| 0 <= i < n ==> #[trigger] ids_issued(start, n)[i] == start + i,
        forall|i: int, j: int| 0 <= i < j < n
            ==> ids_issued(start, n)[i] != ids_issued(start, n)[j],
        forall|i: int| 0 <= i < n - 1
            ==> #[trigger] ids_issued(start, n)[i] + 1 == ids_issued(start, n)[i + 1],
    decreases n,
{
    if n > 0 {
        lemma_ids_distinct_no_gaps(start, (n - 1) as nat);
    }
}

} // verus!
