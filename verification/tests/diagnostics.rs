//! The diagnostic counters and their intervals.

use ngnet_quic::diagnostics::{
    arm, delivered, drain, is_armed, next_connection_id, parked, queued, received, record_attempt,
    record_capacity_registration,
    record_capacity_wakes, record_driver_wake, record_inbound_queue, record_inbound_wakes,
    record_outbound_queue, record_packet, record_park, record_release, record_retained,
    record_retry, record_terminal_inventory, record_timer_fire, record_timer_rearm,
    record_wake_registration, reset, set_test_staging_limit, shipped, snapshot, staging_limit,
    take_attempts, take_liveness_events, Attempt, AttemptOutcome, Diagnostics, LivenessKind,
    Snapshot,
};
use ngnet_quic::endpoint::shared::{ConnectionShared, EndpointShared};
use ngnet_quic::tls::Role;

fn attempt(connection_id: u64, role: Role, accepted_prefix: u64, outcome: AttemptOutcome) -> Attempt {
    Attempt {
        sequence: 0,
        connection_id,
        role,
        direction: "outbound",
        stream_id: 0,
        stream_offset: 0,
        offered_bytes: 8,
        sampled_payload_limit: 1200,
        prepared_backing_capacity: 8,
        accepted_prefix,
        fin_offered: false,
        zero_acceptance: accepted_prefix == 0,
        logical_retained_bytes: 0,
        retained_backing_capacity: 0,
        outcome,
    }
}

#[test]
fn enabled_but_unarmed_hooks_change_nothing() {
    let mut state = Diagnostics::new();
    reset(&mut state);
    record_packet(&mut state, 1, Role::Client, true);
    record_release(&mut state, 1, Role::Client, 7);
    assert_eq!(snapshot(&state), Snapshot::default());
    assert!(take_attempts(&mut state).is_empty());
}

#[test]
fn armed_attempts_reconcile_and_report_unavailable_fields() {
    let mut state = Diagnostics::new();
    reset(&mut state);
    arm(&mut state, true);
    record_attempt(
        &mut state,
        Attempt {
            sequence: 0,
            connection_id: 1,
            role: Role::Server,
            direction: "outbound",
            stream_id: 0,
            stream_offset: 0,
            offered_bytes: 16,
            sampled_payload_limit: 1200,
            prepared_backing_capacity: 16,
            accepted_prefix: 7,
            fin_offered: true,
            zero_acceptance: false,
            logical_retained_bytes: 7,
            retained_backing_capacity: 16,
            outcome: AttemptOutcome::Datagram,
        },
    );
    record_release(&mut state, 1, Role::Server, 7);
    record_packet(&mut state, 1, Role::Server, true);
    record_inbound_wakes(&mut state, 1, Role::Server, 1);

    let snapshot = snapshot(&state);
    assert_eq!(snapshot.server.accepted_bytes, 7);
    assert_eq!(snapshot.server.release_event_bytes, 7);
    assert_eq!(snapshot.server.stream_carrying_packets, 1);
    assert_eq!(
        snapshot.server.produced_packets,
        snapshot.server.transport_only_packets + snapshot.server.stream_carrying_packets
    );
    assert!(!snapshot.retransmissions_available);
    assert_eq!(take_attempts(&mut state).len(), 1);
    assert!(take_liveness_events(&mut state)
        .iter()
        .any(|event| event.kind == LivenessKind::EnablingEvent));
    reset(&mut state);
}

#[test]
fn equal_streams_on_different_connections_do_not_become_retries() {
    let mut state = Diagnostics::new();
    reset(&mut state);
    arm(&mut state, true);
    for connection_id in [10, 11] {
        record_attempt(&mut state, attempt(connection_id, Role::Client, 0, AttemptOutcome::Blocked));
    }
    let snapshot = snapshot(&state);
    assert_eq!(snapshot.client.zero_acceptances, 2);
    assert_eq!(snapshot.client.zero_accept_retries, 0);
    reset(&mut state);
}

#[test]
fn local_output_and_driver_wakes_do_not_enable_zero_accept_retries() {
    let mut state = Diagnostics::new();
    reset(&mut state);
    arm(&mut state, true);

    record_attempt(&mut state, attempt(77, Role::Client, 0, AttemptOutcome::Datagram));
    record_packet(&mut state, 77, Role::Client, false);
    record_driver_wake(&mut state, 77, Role::Client);
    record_attempt(&mut state, attempt(77, Role::Client, 0, AttemptOutcome::Datagram));

    let drained = drain(&mut state);
    assert_eq!(drained.snapshot.client.zero_accept_retries, 1);
    assert_eq!(drained.snapshot.client.zero_accept_retries_without_enable, 1);
    assert!(drained.liveness.iter().any(|event| {
        event.kind == LivenessKind::LocalProduction && event.reason == "transport-packet"
    }));
    assert!(drained.liveness.iter().any(|event| {
        event.kind == LivenessKind::DriverWake && event.reason == "driver-wake"
    }));
    reset(&mut state);
}

#[test]
fn drain_preserves_live_gauges_and_reseeds_high_water_marks() {
    let mut state = Diagnostics::new();
    reset(&mut state);
    arm(&mut state, true);
    record_retained(&mut state, Role::Server, 7, 16, 0, 0);
    record_inbound_queue(&mut state, 1, Role::Server, 3, false);

    let first = drain(&mut state);
    assert_eq!(first.snapshot.server.logical_retained_bytes, 7);
    assert_eq!(first.snapshot.server.logical_retained_high_water, 7);
    assert_eq!(first.snapshot.server.inbound_queue_depth, 3);
    assert_eq!(first.snapshot.server.inbound_queue_high_water, 3);

    let second = drain(&mut state);
    assert_eq!(second.snapshot.server.logical_retained_bytes, 7);
    assert_eq!(second.snapshot.server.logical_retained_high_water, 7);
    assert_eq!(second.snapshot.server.inbound_queue_depth, 3);
    assert_eq!(second.snapshot.server.inbound_queue_high_water, 3);
    reset(&mut state);
}

#[test]
fn an_event_from_outside_enables_the_retry_that_follows_it() {
    let mut state = Diagnostics::new();
    arm(&mut state, true);
    record_attempt(&mut state, attempt(5, Role::Client, 0, AttemptOutcome::Blocked));
    record_inbound_wakes(&mut state, 5, Role::Client, 1);
    record_attempt(&mut state, attempt(5, Role::Client, 8, AttemptOutcome::Datagram));
    let taken = snapshot(&state);
    assert_eq!(taken.client.zero_accept_retries, 1);
    assert_eq!(taken.client.zero_accept_retries_without_enable, 0);
}

#[test]
fn sequences_and_connection_identities_ascend() {
    let mut state = Diagnostics::new();
    arm(&mut state, true);
    let first = next_connection_id(&mut state);
    let second = next_connection_id(&mut state);
    assert!(second > first);
    record_attempt(&mut state, attempt(1, Role::Server, 8, AttemptOutcome::Datagram));
    record_attempt(&mut state, attempt(1, Role::Server, 8, AttemptOutcome::Datagram));
    let attempts = take_attempts(&mut state);
    assert!(attempts[1].sequence > attempts[0].sequence);
}

#[test]
fn a_staging_limit_set_for_a_test_bounds_the_payload_limit() {
    let mut state = Diagnostics::new();
    assert_eq!(staging_limit(&state, 1200), 1200);
    set_test_staging_limit(&mut state, Some(100));
    assert_eq!(staging_limit(&state, 1200), 100);
}

#[test]
fn every_hook_moves_its_own_counter() {
    let mut state = Diagnostics::new();
    assert!(!is_armed(&state));
    arm(&mut state, true);
    assert!(is_armed(&state));
    record_timer_rearm(&mut state, 1, Role::Client);
    record_timer_fire(&mut state, 1, Role::Client);
    record_wake_registration(&mut state, 1, Role::Client);
    record_capacity_registration(&mut state, 1, Role::Client);
    record_capacity_wakes(&mut state, 1, Role::Client, 2);
    record_retry(&mut state, 1, Role::Client);
    record_park(&mut state, 1, Role::Client);
    record_outbound_queue(&mut state, 1, Role::Client, 4, true);
    record_inbound_queue(&mut state, 1, Role::Client, 64, true);
    record_terminal_inventory(&mut state, Role::Client, 3, 5);
    let taken = snapshot(&state);
    assert_eq!(taken.server, Snapshot::default().server);
    let client = taken.client;
    assert_eq!((client.timer_rearms, client.timer_fires), (1, 1));
    assert_eq!((client.wake_registrations, client.capacity_registrations), (1, 1));
    assert_eq!((client.capacity_wakes, client.retries, client.parks), (2, 1, 2));
    assert_eq!((client.outbound_queue_depth, client.outbound_capacity_transitions), (4, 1));
    assert_eq!((client.inbound_queue_high_water, client.inbound_drops), (64, 1));
    assert_eq!(client.inbound_queue_depth, 0, "a terminal connection has nothing queued");
    assert_eq!(
        (client.terminal_discarded_inbound, client.terminal_discarded_outbound),
        (3, 5)
    );
}

#[test]
fn a_counter_stops_at_its_largest_value_and_says_so() {
    let mut state = Diagnostics::new();
    arm(&mut state, true);
    record_retained(&mut state, Role::Client, 0, 0, u64::MAX, 0);
    assert!(!snapshot(&state).overflowed);
    record_retained(&mut state, Role::Client, 0, 0, 1, 0);
    let taken = snapshot(&state);
    assert_eq!(taken.client.acknowledged_bytes, u64::MAX);
    assert!(taken.overflowed);
    assert!(drain(&mut state).snapshot.overflowed);
    assert!(!snapshot(&state).overflowed, "an interval starts without overflow");
}

#[test]
fn attempts_come_out_in_order_with_only_their_sequences_replaced() {
    let mut state = Diagnostics::new();
    record_attempt(&mut state, attempt(9, Role::Client, 1, AttemptOutcome::Datagram));
    reset(&mut state);
    arm(&mut state, true);
    record_attempt(&mut state, attempt(1, Role::Client, 0, AttemptOutcome::Blocked));
    record_timer_fire(&mut state, 1, Role::Client);
    record_attempt(&mut state, attempt(2, Role::Server, 3, AttemptOutcome::Datagram));
    let before = snapshot(&state);
    let taken = take_attempts(&mut state);
    assert_eq!(taken.len(), 2);
    assert_eq!((taken[0].connection_id, taken[0].outcome), (1, AttemptOutcome::Blocked));
    assert_eq!((taken[1].connection_id, taken[1].accepted_prefix), (2, 3));
    assert!(0 < taken[0].sequence && taken[0].sequence < taken[1].sequence);
    assert!(take_attempts(&mut state).is_empty());
    assert_eq!(snapshot(&state), before);
}

#[test]
fn a_reset_does_not_restart_connection_identities() {
    let mut state = Diagnostics::new();
    let first = next_connection_id(&mut state);
    reset(&mut state);
    drain(&mut state);
    assert!(next_connection_id(&mut state) > first);
}

#[test]
fn queue_operations_record_what_they_saw() {
    let mut state = Diagnostics::new();
    arm(&mut state, true);
    let mut shared = ConnectionShared::new(Role::Client);
    let mut endpoint = EndpointShared::new();
    let (kept, woken) = shared.deliver_inbound(vec![1]);
    delivered(&mut state, &shared, kept, woken.len());
    assert_eq!(snapshot(&state).client.inbound_queue_depth, 1);
    shared.take_inbound();
    received(&mut state, &shared);
    assert_eq!(snapshot(&state).client.inbound_queue_depth, 0);
    delivered(&mut state, &shared, false, 0);
    assert_eq!(snapshot(&state).client.inbound_drops, 1);

    while shared.outbound_has_room() {
        shared.queue_outbound(&mut endpoint, vec![2]);
        queued(&mut state, &shared);
    }
    shared.outbound_ready_or_register(7);
    parked(&mut state, &shared);
    let before = shared.outbound_len();
    let (_, woken) = shared.take_outbound();
    shipped(&mut state, &shared, before, woken.len());
    let before = shared.outbound_len();
    let (_, woken) = shared.take_outbound();
    shipped(&mut state, &shared, before, woken.len());
    let seen = snapshot(&state).client;
    assert_eq!((seen.outbound_queue_high_water, seen.outbound_queue_depth), (64, 62));
    assert_eq!((seen.capacity_registrations, seen.capacity_wakes), (1, 1));
    assert_eq!(seen.outbound_capacity_transitions, 1);
}
