//! Sent stream data, held until it is acknowledged.

use std::sync::Arc;

use ngnet_quic::retain::{OwnedBytes, Retained};
use ngnet_quic::stream::StreamId;

fn sid(id: i64) -> StreamId {
    StreamId::new(id).unwrap()
}

#[test]
fn an_owned_write_is_retained_without_a_copy() {
    let mut retained = Retained::new();
    let buffer: Arc<[u8]> = Arc::from(vec![1u8, 2, 3, 4].into_boxed_slice());
    let source = buffer.as_ptr();
    let len = retained.stage_owned(sid(0), OwnedBytes::new(buffer)).unwrap();
    retained.commit(sid(0), 4);
    assert_eq!(len, 4);
    let (held, _) = retained.last_pointer(sid(0)).unwrap();
    assert_eq!(held.as_ptr(), source, "the engine is pointed into the caller's buffer");
    assert_eq!(held, &[1, 2, 3, 4]);
}

#[test]
fn an_empty_owned_write_stages_nothing() {
    let mut retained = Retained::new();
    assert!(retained.stage_owned(sid(0), OwnedBytes::new(Vec::new())).is_none());
    assert_eq!(retained.bytes_held(), 0);
}

#[test]
fn a_partially_accepted_owned_write_keeps_the_prefix_and_leaves_the_suffix_intact() {
    let mut retained = Retained::new();
    let mut data = OwnedBytes::new(vec![1u8, 2, 3, 4, 5, 6, 7, 8]);
    let offered = retained.stage_owned(sid(0), data.clone()).unwrap();
    assert_eq!(offered, 8);
    let staged = retained.last_pointer(sid(0)).unwrap().0.as_ptr();

    retained.commit(sid(0), 3);

    let (held, len) = retained.last_pointer(sid(0)).unwrap();
    assert_eq!(len, 3, "only the accepted prefix counts as retained");
    assert_eq!(staged, held.as_ptr(), "the allocation the engine points into must not move");

    let _prefix = data.split_to(3);
    assert_eq!(data.as_slice(), &[4, 5, 6, 7, 8]);
    assert_eq!(retained.bytes_held(), 3);
}

#[test]
fn a_split_copies_nothing_and_leaves_an_earlier_clone_alone() {
    let mut tail = OwnedBytes::new(vec![1u8, 2, 3, 4, 5]);
    let clone = tail.clone();
    let whole = clone.as_slice();
    let head = tail.split_to(2);
    assert_eq!(head.as_slice(), &[1, 2]);
    assert_eq!(tail.as_slice(), &[3, 4, 5]);
    assert_eq!(head.as_slice().as_ptr(), whole.as_ptr());
    assert_eq!(tail.as_slice().as_ptr(), whole[2..].as_ptr());
    assert_eq!(whole, &[1, 2, 3, 4, 5]);

    let rest = tail.split_to(100);
    assert_eq!(rest.as_slice(), &[3, 4, 5], "asking for more than there is takes everything");
    assert!(tail.is_empty());
}

#[test]
fn an_owned_suffix_offered_again_starts_where_the_prefix_ended() {
    let mut retained = Retained::new();
    let mut data = OwnedBytes::new(vec![1u8, 2, 3, 4, 5, 6, 7, 8]);
    retained.stage_owned(sid(0), data.clone());
    retained.commit(sid(0), 3);
    let _prefix = data.split_to(3);

    retained.stage_owned(sid(0), data);
    retained.commit(sid(0), 5);
    assert_eq!(retained.bytes_held(), 8);

    retained.acknowledge(sid(0), 0, 3);
    assert_eq!(retained.bytes_held(), 5);
    let (held, len) = retained.last_pointer(sid(0)).unwrap();
    assert_eq!(&held[..len], &[4, 5, 6, 7, 8], "offsets follow the accepted length");
}

#[test]
fn a_rejected_owned_write_retains_nothing() {
    let mut retained = Retained::new();
    retained.stage_owned(sid(0), OwnedBytes::new(vec![1u8, 2, 3]));
    retained.commit(sid(0), 0);
    assert_eq!(retained.bytes_held(), 0);
}

#[test]
fn staged_data_is_copied_not_borrowed() {
    let mut retained = Retained::new();
    let len = {
        let caller_buffer = vec![1u8, 2, 3, 4];
        let staged = retained.stage_many(sid(0), &[&caller_buffer]).unwrap();
        retained.commit(sid(0), 4);
        staged
    };
    assert_eq!(len, 4);
    let (held, _) = retained.last_pointer(sid(0)).unwrap();
    assert_eq!(held, &[1, 2, 3, 4]);
}

#[test]
fn an_empty_write_stages_nothing() {
    let mut retained = Retained::new();
    assert!(retained.stage_many(sid(0), &[&[]]).is_none());
    assert_eq!(retained.bytes_held(), 0);
}

#[test]
fn a_partial_acceptance_retains_only_what_was_accepted() {
    let mut retained = Retained::new();
    retained.stage_many(sid(0), &[&[1, 2, 3, 4, 5, 6, 7, 8]]);
    retained.commit(sid(0), 3);
    assert_eq!(retained.bytes_held(), 3);

    let (held, len) = retained.last_pointer(sid(0)).unwrap();
    assert_eq!(&held[..len], &[1, 2, 3]);
}

#[test]
fn a_partial_acceptance_leaves_the_address_ngtcp2_was_given_alone() {
    let mut retained = Retained::new();
    let offered = retained.stage_many(sid(0), &[&[7u8; 1200]]).unwrap();
    assert_eq!(offered, 1200);
    let staged = retained.last_pointer(sid(0)).unwrap().0.as_ptr();

    retained.commit(sid(0), 1100);

    let (held, len) = retained.last_pointer(sid(0)).unwrap();
    assert_eq!(len, 1100, "only the accepted prefix counts as retained");
    assert_eq!(staged, held.as_ptr(), "the allocation the engine points into must not move");
    assert_eq!(retained.bytes_held(), 1100);
}

#[test]
fn a_partially_accepted_chunk_still_reads_back_correctly_after_more_writes() {
    let mut retained = Retained::new();
    retained.stage_many(sid(0), &[&[1, 2, 3, 4, 5, 6, 7, 8]]);
    retained.commit(sid(0), 3);
    retained.stage_many(sid(0), &[&[4, 5, 6]]);
    retained.commit(sid(0), 3);
    assert_eq!(retained.bytes_held(), 6);

    retained.acknowledge(sid(0), 0, 3);
    assert_eq!(retained.bytes_held(), 3);
    let (held, len) = retained.last_pointer(sid(0)).unwrap();
    assert_eq!(&held[..len], &[4, 5, 6], "offsets must follow the accepted length");
}

#[test]
fn a_rejected_write_retains_nothing() {
    let mut retained = Retained::new();
    retained.stage_many(sid(0), &[&[1, 2, 3]]);
    retained.commit(sid(0), 0);
    assert_eq!(retained.bytes_held(), 0);
}

#[test]
fn offsets_advance_across_writes() {
    let mut retained = Retained::new();
    retained.stage_many(sid(0), &[&[0; 10]]);
    retained.commit(sid(0), 10);
    retained.stage_many(sid(0), &[&[0; 5]]);
    retained.commit(sid(0), 5);
    assert_eq!(retained.bytes_held(), 15);
    assert_eq!(retained.next_offset(sid(0)), 15);

    retained.acknowledge(sid(0), 0, 10);
    assert_eq!(retained.bytes_held(), 5);
}

#[test]
fn a_partial_acknowledgement_releases_nothing_it_should_not() {
    let mut retained = Retained::new();
    retained.stage_many(sid(0), &[&[0; 10]]);
    retained.commit(sid(0), 10);
    retained.acknowledge(sid(0), 0, 4);
    assert_eq!(retained.bytes_held(), 10);
    retained.acknowledge(sid(0), 0, 10);
    assert_eq!(retained.bytes_held(), 0);
}

#[test]
fn accepted_bytes_stay_held_through_whatever_else_is_done() {
    let mut retained = Retained::new();
    retained.stage_many(sid(0), &[&[1, 2], &[3]]);
    assert_eq!(retained.bytes_held(), 3, "both ranges count as soon as they are copied");
    retained.commit(sid(0), 3);

    retained.stage_many(sid(4), &[&[9; 6]]);
    retained.commit(sid(4), 6);
    retained.stage_many(sid(0), &[&[4, 5]]);
    retained.commit(sid(0), 0);
    retained.acknowledge(sid(0), 0, 2);
    retained.acknowledge(sid(4), 0, 6);
    retained.forget(sid(4));
    assert_eq!(retained.first_pointer(sid(0)).unwrap(), (&[1, 2, 3][..], 3));
    assert_eq!(retained.bytes_held(), 3);

    retained.acknowledge(sid(0), 2, 1);
    assert_eq!(retained.bytes_held(), 0);
}

#[test]
fn forgetting_a_stream_releases_everything_it_held() {
    let mut retained = Retained::new();
    retained.stage_many(sid(0), &[&[0; 32]]);
    retained.commit(sid(0), 32);
    retained.forget(sid(0));
    assert_eq!(retained.bytes_held(), 0);
}

#[test]
fn streams_are_accounted_separately() {
    let mut retained = Retained::new();
    retained.stage_many(sid(0), &[&[0; 4]]);
    retained.commit(sid(0), 4);
    retained.stage_many(sid(4), &[&[0; 6]]);
    retained.commit(sid(4), 6);
    assert_eq!(retained.bytes_held(), 10);

    retained.acknowledge(sid(0), 0, 4);
    assert_eq!(retained.bytes_held(), 6);
}

#[test]
fn acknowledging_an_unknown_stream_is_harmless() {
    let mut retained = Retained::new();
    retained.acknowledge(sid(99), 0, 100);
    retained.forget(sid(99));
    assert_eq!(retained.bytes_held(), 0);
}

#[test]
fn chunk_addresses_do_not_move_when_another_chunk_is_added() {
    let mut retained = Retained::new();
    retained.stage_many(sid(0), &[&[1, 2, 3]]);
    retained.commit(sid(0), 3);
    let first = retained.last_pointer(sid(0)).unwrap().0.as_ptr();

    for _ in 0..64 {
        retained.stage_many(sid(0), &[&[9; 16]]);
        retained.commit(sid(0), 16);
    }

    assert_eq!(retained.first_pointer(sid(0)).unwrap().0.as_ptr(), first);
}

#[test]
fn the_safe_owned_bytes_surface_needs_no_unsafe() {
    let mut bytes = OwnedBytes::new(vec![1u8, 2, 3, 4, 5, 6]);
    assert_eq!(bytes.len(), 6);
    assert!(!bytes.is_empty());
    assert_eq!(bytes.as_slice(), &[1, 2, 3, 4, 5, 6]);

    let prefix = bytes.split_to(2);
    assert_eq!(prefix.as_slice(), &[1, 2]);
    assert_eq!(bytes.as_slice(), &[3, 4, 5, 6]);
    let _clone = bytes.clone();

    let mut retained = Retained::new();
    let len = retained.stage_owned(sid(0), OwnedBytes::new(vec![7u8, 8, 9])).unwrap();
    retained.commit(sid(0), len);
    assert_eq!(retained.bytes_held(), 3);
}

#[test]
fn a_clone_of_owned_bytes_shares_its_allocation() {
    let bytes = OwnedBytes::new(vec![1u8, 2, 3]);
    let copy = bytes.clone();
    assert_eq!(copy.as_slice(), bytes.as_slice());
    assert_eq!(copy.as_slice().as_ptr(), bytes.as_slice().as_ptr());
}

#[test]
fn several_ranges_are_one_run_of_bytes_and_a_bound_cuts_it_short() {
    let mut retained = Retained::new();
    let (staged, complete) = retained.stage_many_bounded(sid(0), &[&[1, 2], &[3, 4]], 3);
    assert_eq!((staged, complete), (Some(3), false));
    retained.commit(sid(0), 3);
    assert_eq!(retained.last_pointer(sid(0)).unwrap().0, &[1, 2, 3]);
    let (staged, complete) = retained.stage_many_bounded(sid(0), &[&[4]], 3);
    assert_eq!((staged, complete), (Some(1), true));
    assert_eq!(retained.backing_capacity(), 4);
}

#[test]
fn a_fully_acknowledged_stream_is_numbered_on_from_where_it_stood() {
    let mut retained = Retained::new();
    retained.stage_many(sid(0), &[&[0; 10]]).unwrap();
    retained.commit(sid(0), 10);
    retained.acknowledge(sid(0), 0, 10);
    assert_eq!(retained.bytes_held(), 0);
    assert_eq!(retained.next_offset(sid(0)), 10);
    retained.stage_many(sid(0), &[&[0; 5]]).unwrap();
    retained.commit(sid(0), 5);
    retained.acknowledge(sid(0), 10, 2);
    assert_eq!(retained.bytes_held(), 5, "only two of the five are acknowledged");
    retained.acknowledge(sid(0), 10, 5);
    assert_eq!(retained.bytes_held(), 0);
    retained.forget(sid(0));
    assert_eq!(retained.next_offset(sid(0)), 0);
}

#[test]
fn a_rejected_write_leaves_no_trace() {
    let mut retained = Retained::new();
    retained.stage_many(sid(0), &[&[1, 2]]).unwrap();
    retained.commit(sid(0), 2);
    retained.stage_many(sid(0), &[&[3, 4, 5]]).unwrap();
    retained.commit(sid(0), 0);
    assert_eq!(retained.bytes_held(), 2);
    assert_eq!(retained.next_offset(sid(0)), 2);
    assert_eq!(retained.last_pointer(sid(0)).unwrap().0, &[1, 2]);
}
