//! Counting the native engine's allocations.
//!
//! The engine allocates through hooks. Counting what passes through them is how a leak, or
//! an allocator nobody used, shows up.

use vstd::prelude::*;

verus! {

/// How many blocks are live and how many were ever allocated.
#[derive(Clone, Copy, Debug, PartialEq, Eq, Structural)]
pub struct AllocState {
    live: i64,
    total: u64,
}

impl Default for AllocState {
    fn default() -> (state: Self)
        ensures
            state.live() == 0,
            state.total() == 0,
    {
        Self { live: 0, total: 0 }
    }
}

impl AllocState {
    /// How many blocks are live.
    pub closed spec fn live(self) -> i64 {
        self.live
    }

    /// How many blocks were ever allocated.
    pub closed spec fn total(self) -> u64 {
        self.total
    }

    /// How many blocks are live.
    pub fn live_blocks(&self) -> (count: i64)
        ensures
            count == self.live(),
    {
        self.live
    }

    /// How many blocks were ever allocated.
    pub fn total_allocations(&self) -> (count: u64)
        ensures
            count == self.total(),
    {
        self.total
    }

    /// The counts once a block has been handed out.
    pub open spec fn plus_one(self, after: Self) -> bool {
        &&& after.live() == self.live().wrapping_add(1)
        &&& after.total() == self.total().wrapping_add(1)
    }

    /// The counts once a block has been taken back.
    pub open spec fn minus_one(self, after: Self) -> bool {
        &&& after.live() == self.live().wrapping_sub(1)
        &&& after.total() == self.total()
    }

    fn record_alloc(&mut self)
        ensures
            old(self).plus_one(*final(self)),
    {
        self.live = self.live.wrapping_add(1);
        self.total = self.total.wrapping_add(1);
    }

    fn record_free(&mut self)
        ensures
            old(self).minus_one(*final(self)),
    {
        self.live = self.live.wrapping_sub(1);
    }

    /// Counts an allocation, which happened only if a block came back.
    pub fn allocated(&mut self, got_block: bool)
        ensures
            got_block ==> old(self).plus_one(*final(self)),
            !got_block ==> *final(self) == *old(self),
    {
        if got_block {
            self.record_alloc();
        }
    }

    /// Counts a release, which freeing nothing is not.
    pub fn freed(&mut self, had_block: bool)
        ensures
            had_block ==> old(self).minus_one(*final(self)),
            !had_block ==> *final(self) == *old(self),
    {
        if had_block {
            self.record_free();
        }
    }

    /// Counts a reallocation, which is a new block only where there was none before and one
    /// came back.
    pub fn reallocated(&mut self, had_block: bool, got_block: bool)
        ensures
            !had_block && got_block ==> old(self).plus_one(*final(self)),
            had_block || !got_block ==> *final(self) == *old(self),
    {
        if got_block && !had_block {
            self.record_alloc();
        }
    }
}

/// Freeing what was allocated restores the number of live blocks, and leaves the record that
/// the allocation happened.
pub proof fn law_allocations_balance(before: AllocState, during: AllocState, after: AllocState)
    requires
        before.plus_one(during),
        during.minus_one(after),
    ensures
        after.live() == before.live(),
        after.total() == before.total().wrapping_add(1),
{
}

} // verus!
