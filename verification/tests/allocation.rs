//! Counting the engine's allocations.

use ngnet_quic::allocation::AllocState;

#[test]
fn allocations_are_counted_and_balance_after_freeing() {
    let mut state = AllocState::default();
    state.allocated(true);
    state.allocated(true);
    state.freed(true);
    state.freed(true);
    assert_eq!(state.live_blocks(), 0);
    assert_eq!(
        state.total_allocations(),
        2,
        "the balance above must not be able to pass without the allocator being used"
    );
}

#[test]
fn freeing_null_is_not_counted() {
    let mut state = AllocState::default();
    state.freed(false);
    assert_eq!(state.live_blocks(), 0);
}

#[test]
fn a_realloc_from_null_counts_as_a_new_block() {
    let mut state = AllocState::default();
    state.reallocated(false, true);
    assert_eq!(state.live_blocks(), 1);
    state.freed(true);
    assert_eq!(state.live_blocks(), 0);
}

#[test]
fn a_failed_allocation_and_a_grown_block_are_not_new_blocks() {
    let mut state = AllocState::default();
    state.allocated(false);
    state.allocated(true);
    state.reallocated(true, true);
    state.reallocated(false, false);
    assert_eq!(state.live_blocks(), 1);
    assert_eq!(state.total_allocations(), 1);
}
