//! What the diagnostics promise: that an unarmed hook is inert, that each observation counts
//! once and under its own name, and that what is drained was observed.

use vstd::prelude::*;

use crate::diagnostics::{
    arm, delivered, drain, is_armed, next_connection_id, parked, queued, received,
    record_attempt, record_capacity_registration, record_capacity_wakes, record_driver_wake,
    record_inbound_queue, record_inbound_wakes, record_outbound_queue, record_packet, record_park,
    record_release, record_retained, record_retry, record_terminal_inventory, record_timer_fire,
    record_timer_rearm, record_wake_registration, reset, set_test_staging_limit, shipped, snapshot,
    staging_limit, take_attempts, take_liveness_events, test_staging_limit, Attempt, Diagnostics,
    DiagnosticsView, DrainedDiagnostics, LivenessEvent, LivenessKind, RoleSnapshot, Snapshot,
};
use crate::endpoint::shared::ConnectionShared;
use crate::tls::Role;

verus! {

/// What was counted for one side.
pub open spec fn side(state: DiagnosticsView, role: Role) -> RoleSnapshot {
    if role == Role::Client {
        state.client
    } else {
        state.server
    }
}

/// Whether `after` is `before` with one side's counts replaced, and nothing else.
pub open spec fn only_counts(
    before: DiagnosticsView,
    after: DiagnosticsView,
    role: Role,
    counts: RoleSnapshot,
) -> bool {
    after == if role == Role::Client {
        DiagnosticsView { client: counts, ..before }
    } else {
        DiagnosticsView { server: counts, ..before }
    }
}

/// Whether `after` is `before` with one side's counts replaced and one event behind those
/// before it, under the next number.
pub open spec fn counts_and_tells(
    before: DiagnosticsView,
    after: DiagnosticsView,
    role: Role,
    counts: RoleSnapshot,
    connection_id: u64,
    kind: LivenessKind,
) -> bool {
    let event = after.liveness.last();
    &&& after.liveness.len() == before.liveness.len() + 1
    &&& after.liveness.drop_last() == before.liveness
    &&& event.sequence == before.next_sequence
    &&& event.connection_id == connection_id && event.role == role && event.kind == kind
    &&& event.attempt_sequence is None && event.parked_attempt_sequence is None
    &&& after.next_sequence == before.next_sequence + 1
    &&& side(after, role) == counts
    &&& role == Role::Client ==> after.server == before.server
    &&& role == Role::Server ==> after.client == before.client
    &&& after.overflowed == before.overflowed && after.armed == before.armed
    &&& after.attempts == before.attempts && after.zero_waiting == before.zero_waiting
    &&& after.next_connection_id == before.next_connection_id
    &&& after.staging_limit == before.staging_limit
}

/// Unarmed, no hook changes anything.
pub proof fn law_an_unarmed_hook_is_inert(
    state: &mut Diagnostics,
    id: u64,
    role: Role,
    attempt: Attempt,
    a: usize,
    b: usize,
    c: usize,
    n: u64,
    flag: bool,
)
    requires
        !old(state)@.armed,
        ({
            ||| call_ensures(record_attempt, (state, attempt), ())
            ||| call_ensures(record_retained, (state, role, a, b, n, c), ())
            ||| call_ensures(record_release, (state, id, role, a), ())
            ||| call_ensures(record_packet, (state, id, role, flag), ())
            ||| call_ensures(record_timer_rearm, (state, id, role), ())
            ||| call_ensures(record_timer_fire, (state, id, role), ())
            ||| call_ensures(record_wake_registration, (state, id, role), ())
            ||| call_ensures(record_driver_wake, (state, id, role), ())
            ||| call_ensures(record_inbound_wakes, (state, id, role, a), ())
            ||| call_ensures(record_capacity_registration, (state, id, role), ())
            ||| call_ensures(record_capacity_wakes, (state, id, role, a), ())
            ||| call_ensures(record_retry, (state, id, role), ())
            ||| call_ensures(record_park, (state, id, role), ())
            ||| call_ensures(record_inbound_queue, (state, id, role, a, flag), ())
            ||| call_ensures(record_outbound_queue, (state, id, role, a, flag), ())
            ||| call_ensures(record_terminal_inventory, (state, role, a, b), ())
        }),
    ensures
        final(state)@ == old(state)@,
{
}

/// An attempt is kept under the next number. What was offered, prepared and taken add up; what
/// is retained stands as it was last seen, with its high mark; and an attempt nothing was taken
/// of is counted as such.
pub proof fn law_an_attempt_counts_once(state: &mut Diagnostics, attempt: Attempt)
    requires
        call_ensures(record_attempt, (state, attempt), ()),
        old(state)@.armed,
    ensures
        ({
            let before = side(old(state)@, attempt.role);
            let after = side(final(state)@, attempt.role);
            let kept = final(state)@.attempts;
            &&& kept.len() == old(state)@.attempts.len() + 1
            &&& kept.drop_last() == old(state)@.attempts
            &&& kept.last() == (Attempt { sequence: old(state)@.next_sequence, ..attempt })
            &&& before.offered_bytes + attempt.offered_bytes <= u64::MAX ==> after.offered_bytes
                == before.offered_bytes + attempt.offered_bytes
            &&& before.accepted_bytes + attempt.accepted_prefix <= u64::MAX
                ==> after.accepted_bytes == before.accepted_bytes + attempt.accepted_prefix
            &&& before.prepared_backing_capacity + attempt.prepared_backing_capacity <= u64::MAX
                ==> after.prepared_backing_capacity == before.prepared_backing_capacity
                + attempt.prepared_backing_capacity
            &&& attempt.zero_acceptance && before.zero_acceptances < u64::MAX
                ==> after.zero_acceptances == before.zero_acceptances + 1
            &&& !attempt.zero_acceptance ==> after.zero_acceptances == before.zero_acceptances
                && after.parks == before.parks
            &&& attempt.zero_acceptance && before.parks < u64::MAX ==> after.parks == before.parks
                + 1
            &&& after.logical_retained_bytes == attempt.logical_retained_bytes
            &&& after.retained_backing_capacity == attempt.retained_backing_capacity
            &&& after.logical_retained_high_water >= before.logical_retained_high_water
            &&& after.logical_retained_high_water >= attempt.logical_retained_bytes
            &&& after.logical_retained_high_water == before.logical_retained_high_water
                || after.logical_retained_high_water == attempt.logical_retained_bytes
            &&& after.retained_backing_high_water >= before.retained_backing_high_water
            &&& after.retained_backing_high_water >= attempt.retained_backing_capacity
            &&& after.retained_backing_high_water == before.retained_backing_high_water
                || after.retained_backing_high_water == attempt.retained_backing_capacity
            &&& attempt.role == Role::Client ==> final(state)@.server == old(state)@.server
            &&& attempt.role == Role::Server ==> final(state)@.client == old(state)@.client
            &&& after.produced_packets == before.produced_packets
            &&& after.acknowledged_bytes == before.acknowledged_bytes
            &&& after.timer_fires == before.timer_fires
        }),
{
    assert(final(state)@.attempts.drop_last() =~= old(state)@.attempts);
}

/// An attempt nothing was taken of is waited on, at its place in its stream, until one at the
/// same place takes something. Nobody else's wait is touched. An attempt at a place waited on
/// is a retry, and a blind one where nothing outside enabled it since.
pub proof fn law_an_attempt_waits_and_retries_at_its_place(
    state: &mut Diagnostics,
    attempt: Attempt,
    other: (u64, i64, u64),
)
    requires
        call_ensures(record_attempt, (state, attempt), ()),
        old(state)@.armed,
    ensures
        ({
            let place = (attempt.connection_id, attempt.stream_id, attempt.stream_offset);
            let before = old(state)@;
            let after = final(state)@;
            let counts = side(before, attempt.role);
            let counted = side(after, attempt.role);
            let waited = before.zero_waiting.contains_key(place);
            let enabled = if before.last_enabling.contains_key(attempt.connection_id) {
                before.last_enabling[attempt.connection_id]
            } else {
                0
            };
            &&& attempt.zero_acceptance ==> after.zero_waiting.contains_key(place)
                && after.zero_waiting[place] == before.next_sequence
            &&& !attempt.zero_acceptance ==> !after.zero_waiting.contains_key(place)
            &&& other != place ==> {
                &&& after.zero_waiting.contains_key(other) == before.zero_waiting.contains_key(
                    other,
                )
                &&& before.zero_waiting.contains_key(other) ==> after.zero_waiting[other]
                    == before.zero_waiting[other]
            }
            &&& after.last_enabling == before.last_enabling
            &&& !waited ==> counted.retries == counts.retries && counted.zero_accept_retries
                == counts.zero_accept_retries && counted.zero_accept_retries_without_enable
                == counts.zero_accept_retries_without_enable
            &&& waited && counts.retries < u64::MAX ==> counted.retries == counts.retries + 1
            &&& waited && counts.zero_accept_retries < u64::MAX ==> counted.zero_accept_retries
                == counts.zero_accept_retries + 1
            &&& waited && enabled > before.zero_waiting[place]
                ==> counted.zero_accept_retries_without_enable
                == counts.zero_accept_retries_without_enable
            &&& waited && enabled <= before.zero_waiting[place]
                && counts.zero_accept_retries_without_enable < u64::MAX
                ==> counted.zero_accept_retries_without_enable
                == counts.zero_accept_retries_without_enable + 1
            &&& after.liveness.len() == before.liveness.len() + (if waited {
                1int
            } else {
                0int
            }) + (if attempt.zero_acceptance {
                1int
            } else {
                0int
            })
            &&& attempt.zero_acceptance ==> after.liveness.last().kind is Park
            &&& waited && !attempt.zero_acceptance ==> after.liveness.last().kind is Retry
        }),
{
}

/// What is retained stands as last seen, with its high mark, and what was acknowledged or
/// released adds up.
pub proof fn law_what_is_retained_is_seen(
    state: &mut Diagnostics,
    role: Role,
    logical: usize,
    backing: usize,
    acknowledged: u64,
    released: usize,
    releasing: &mut Diagnostics,
    id: u64,
    bytes: usize,
)
    requires
        call_ensures(record_retained, (state, role, logical, backing, acknowledged, released), ()),
        old(state)@.armed,
        side(old(state)@, role).acknowledged_bytes + acknowledged <= u64::MAX,
        side(old(state)@, role).released_backing_capacity + released <= u64::MAX,
        call_ensures(record_release, (releasing, id, role, bytes), ()),
        old(releasing)@.armed,
        side(old(releasing)@, role).release_event_bytes + bytes <= u64::MAX,
    ensures
        ({
            let before = side(old(state)@, role);
            only_counts(
                old(state)@,
                final(state)@,
                role,
                RoleSnapshot {
                    logical_retained_bytes: logical as u64,
                    logical_retained_high_water: if logical > before.logical_retained_high_water {
                        logical as u64
                    } else {
                        before.logical_retained_high_water
                    },
                    retained_backing_capacity: backing as u64,
                    retained_backing_high_water: if backing > before.retained_backing_high_water {
                        backing as u64
                    } else {
                        before.retained_backing_high_water
                    },
                    acknowledged_bytes: (before.acknowledged_bytes + acknowledged) as u64,
                    released_backing_capacity: (before.released_backing_capacity
                        + released) as u64,
                    ..before
                },
            )
        }),
        ({
            let before = side(old(releasing)@, role);
            only_counts(
                old(releasing)@,
                final(releasing)@,
                role,
                RoleSnapshot {
                    release_event_bytes: (before.release_event_bytes + bytes) as u64,
                    ..before
                },
            )
        }),
{
}

/// A packet counts as produced, and as carrying stream data or as the transport's own. Only the
/// transport's own is told of, and none enables a retry.
pub proof fn law_a_packet_counts_by_what_it_carries(
    state: &mut Diagnostics,
    id: u64,
    role: Role,
    carrying: bool,
)
    requires
        call_ensures(record_packet, (state, id, role, carrying), ()),
        old(state)@.armed,
        side(old(state)@, role).produced_packets < u64::MAX,
        side(old(state)@, role).transport_only_packets < u64::MAX,
        side(old(state)@, role).stream_carrying_packets < u64::MAX,
        old(state)@.next_sequence < u64::MAX,
    ensures
        ({
            let before = side(old(state)@, role);
            &&& carrying ==> only_counts(
                old(state)@,
                final(state)@,
                role,
                RoleSnapshot {
                    produced_packets: (before.produced_packets + 1) as u64,
                    stream_carrying_packets: (before.stream_carrying_packets + 1) as u64,
                    ..before
                },
            )
            &&& !carrying ==> counts_and_tells(
                old(state)@,
                final(state)@,
                role,
                RoleSnapshot {
                    produced_packets: (before.produced_packets + 1) as u64,
                    transport_only_packets: (before.transport_only_packets + 1) as u64,
                    ..before
                },
                id,
                LivenessKind::LocalProduction,
            )
            &&& final(state)@.last_enabling == old(state)@.last_enabling
        }),
{
    if !carrying {
        assert(final(state)@.liveness.drop_last() =~= old(state)@.liveness);
    }
}

/// A timer that is rearmed, and a waker that is registered, count as that alone. A driver that
/// is woken is told of and counts as nothing.
pub proof fn law_rearms_and_registrations_count_alone(
    rearming: &mut Diagnostics,
    registering: &mut Diagnostics,
    waking: &mut Diagnostics,
    id: u64,
    role: Role,
)
    requires
        call_ensures(record_timer_rearm, (rearming, id, role), ()),
        call_ensures(record_wake_registration, (registering, id, role), ()),
        call_ensures(record_driver_wake, (waking, id, role), ()),
        old(rearming)@.armed && old(registering)@.armed && old(waking)@.armed,
        side(old(rearming)@, role).timer_rearms < u64::MAX,
        side(old(registering)@, role).wake_registrations < u64::MAX,
        old(waking)@.next_sequence < u64::MAX,
    ensures
        ({
            let before = side(old(rearming)@, role);
            only_counts(
                old(rearming)@,
                final(rearming)@,
                role,
                RoleSnapshot { timer_rearms: (before.timer_rearms + 1) as u64, ..before },
            )
        }),
        ({
            let before = side(old(registering)@, role);
            only_counts(
                old(registering)@,
                final(registering)@,
                role,
                RoleSnapshot {
                    wake_registrations: (before.wake_registrations + 1) as u64,
                    ..before
                },
            )
        }),
        counts_and_tells(
            old(waking)@,
            final(waking)@,
            role,
            side(old(waking)@, role),
            id,
            LivenessKind::DriverWake,
        ),
        final(waking)@.last_enabling == old(waking)@.last_enabling,
{
    assert(final(waking)@.liveness.drop_last() =~= old(waking)@.liveness);
}

/// A timer that fired, datagrams that arrived and room that came are from outside: each counts
/// under its name, is told of, and enables the connection's next retry.
pub proof fn law_outside_events_enable_and_count(
    firing: &mut Diagnostics,
    arriving: &mut Diagnostics,
    opening: &mut Diagnostics,
    id: u64,
    role: Role,
    woken: usize,
)
    requires
        call_ensures(record_timer_fire, (firing, id, role), ()),
        call_ensures(record_inbound_wakes, (arriving, id, role, woken), ()),
        call_ensures(record_capacity_wakes, (opening, id, role, woken), ()),
        old(firing)@.armed && old(arriving)@.armed && old(opening)@.armed,
        side(old(firing)@, role).timer_fires < u64::MAX,
        side(old(arriving)@, role).inbound_wakes + woken <= u64::MAX,
        side(old(opening)@, role).capacity_wakes + woken <= u64::MAX,
        old(firing)@.next_sequence < u64::MAX,
        old(arriving)@.next_sequence < u64::MAX,
        old(opening)@.next_sequence < u64::MAX,
    ensures
        ({
            let before = side(old(firing)@, role);
            counts_and_tells(
                old(firing)@,
                final(firing)@,
                role,
                RoleSnapshot { timer_fires: (before.timer_fires + 1) as u64, ..before },
                id,
                LivenessKind::EnablingEvent,
            )
        }),
        final(firing)@.last_enabling == old(firing)@.last_enabling.insert(
            id,
            old(firing)@.next_sequence,
        ),
        ({
            let before = side(old(arriving)@, role);
            counts_and_tells(
                old(arriving)@,
                final(arriving)@,
                role,
                RoleSnapshot { inbound_wakes: (before.inbound_wakes + woken) as u64, ..before },
                id,
                LivenessKind::EnablingEvent,
            )
        }),
        final(arriving)@.last_enabling == old(arriving)@.last_enabling.insert(
            id,
            old(arriving)@.next_sequence,
        ),
        ({
            let before = side(old(opening)@, role);
            counts_and_tells(
                old(opening)@,
                final(opening)@,
                role,
                RoleSnapshot { capacity_wakes: (before.capacity_wakes + woken) as u64, ..before },
                id,
                LivenessKind::EnablingEvent,
            )
        }),
        final(opening)@.last_enabling == old(opening)@.last_enabling.insert(
            id,
            old(opening)@.next_sequence,
        ),
{
    assert(final(firing)@.liveness.drop_last() =~= old(firing)@.liveness);
    assert(final(arriving)@.liveness.drop_last() =~= old(arriving)@.liveness);
    assert(final(opening)@.liveness.drop_last() =~= old(opening)@.liveness);
}

/// Waiting, for room or with nothing to do, is told of as a park and counted as one; waiting
/// for room is counted as that too. Neither enables anything.
pub proof fn law_waiting_counts_as_a_park(
    registering: &mut Diagnostics,
    parking: &mut Diagnostics,
    id: u64,
    role: Role,
)
    requires
        call_ensures(record_capacity_registration, (registering, id, role), ()),
        call_ensures(record_park, (parking, id, role), ()),
        old(registering)@.armed && old(parking)@.armed,
        side(old(registering)@, role).capacity_registrations < u64::MAX,
        side(old(registering)@, role).parks < u64::MAX,
        side(old(parking)@, role).parks < u64::MAX,
        old(registering)@.next_sequence < u64::MAX,
        old(parking)@.next_sequence < u64::MAX,
    ensures
        ({
            let before = side(old(registering)@, role);
            counts_and_tells(
                old(registering)@,
                final(registering)@,
                role,
                RoleSnapshot {
                    capacity_registrations: (before.capacity_registrations + 1) as u64,
                    parks: (before.parks + 1) as u64,
                    ..before
                },
                id,
                LivenessKind::Park,
            )
        }),
        ({
            let before = side(old(parking)@, role);
            counts_and_tells(
                old(parking)@,
                final(parking)@,
                role,
                RoleSnapshot { parks: (before.parks + 1) as u64, ..before },
                id,
                LivenessKind::Park,
            )
        }),
        final(registering)@.last_enabling == old(registering)@.last_enabling,
        final(parking)@.last_enabling == old(parking)@.last_enabling,
{
    assert(final(registering)@.liveness.drop_last() =~= old(registering)@.liveness);
    assert(final(parking)@.liveness.drop_last() =~= old(parking)@.liveness);
}

/// A retry counts, and is told of with what last enabled its connection, if anything did.
pub proof fn law_a_retry_names_what_enabled_it(state: &mut Diagnostics, id: u64, role: Role)
    requires
        call_ensures(record_retry, (state, id, role), ()),
        old(state)@.armed,
        side(old(state)@, role).retries < u64::MAX,
        old(state)@.next_sequence < u64::MAX,
    ensures
        ({
            let before = side(old(state)@, role);
            counts_and_tells(
                old(state)@,
                final(state)@,
                role,
                RoleSnapshot { retries: (before.retries + 1) as u64, ..before },
                id,
                LivenessKind::Retry,
            )
        }),
        final(state)@.last_enabling == old(state)@.last_enabling,
        !old(state)@.last_enabling.contains_key(id)
            ==> final(state)@.liveness.last().enabling_sequence is None,
        old(state)@.last_enabling.contains_key(id) && old(state)@.last_enabling[id] > 0
            ==> final(state)@.liveness.last().enabling_sequence
            == Some(old(state)@.last_enabling[id]),
{
    assert(final(state)@.liveness.drop_last() =~= old(state)@.liveness);
}

/// A queue's depth stands as last seen, with its high mark; what it dropped, how often it had
/// room again, and what was left in it at the end add up.
pub proof fn law_queues_are_seen_at_their_depth(
    inbound: &mut Diagnostics,
    outbound: &mut Diagnostics,
    ending: &mut Diagnostics,
    id: u64,
    role: Role,
    depth: usize,
    flag: bool,
    left_in: usize,
    left_out: usize,
)
    requires
        call_ensures(record_inbound_queue, (inbound, id, role, depth, flag), ()),
        call_ensures(record_outbound_queue, (outbound, id, role, depth, flag), ()),
        call_ensures(record_terminal_inventory, (ending, role, left_in, left_out), ()),
        old(inbound)@.armed && old(outbound)@.armed && old(ending)@.armed,
        side(old(inbound)@, role).inbound_drops < u64::MAX,
        side(old(outbound)@, role).outbound_capacity_transitions < u64::MAX,
        side(old(ending)@, role).terminal_discarded_inbound + left_in <= u64::MAX,
        side(old(ending)@, role).terminal_discarded_outbound + left_out <= u64::MAX,
    ensures
        ({
            let before = side(old(inbound)@, role);
            only_counts(
                old(inbound)@,
                final(inbound)@,
                role,
                RoleSnapshot {
                    inbound_queue_depth: depth as u64,
                    inbound_queue_high_water: if depth > before.inbound_queue_high_water {
                        depth as u64
                    } else {
                        before.inbound_queue_high_water
                    },
                    inbound_drops: if flag {
                        (before.inbound_drops + 1) as u64
                    } else {
                        before.inbound_drops
                    },
                    ..before
                },
            )
        }),
        ({
            let before = side(old(outbound)@, role);
            only_counts(
                old(outbound)@,
                final(outbound)@,
                role,
                RoleSnapshot {
                    outbound_queue_depth: depth as u64,
                    outbound_queue_high_water: if depth > before.outbound_queue_high_water {
                        depth as u64
                    } else {
                        before.outbound_queue_high_water
                    },
                    outbound_capacity_transitions: if flag {
                        (before.outbound_capacity_transitions + 1) as u64
                    } else {
                        before.outbound_capacity_transitions
                    },
                    ..before
                },
            )
        }),
        ({
            let before = side(old(ending)@, role);
            only_counts(
                old(ending)@,
                final(ending)@,
                role,
                RoleSnapshot {
                    inbound_queue_depth: 0,
                    terminal_discarded_inbound: (before.terminal_discarded_inbound
                        + left_in) as u64,
                    terminal_discarded_outbound: (before.terminal_discarded_outbound
                        + left_out) as u64,
                    ..before
                },
            )
        }),
{
}

/// A count that would not fit stays at the largest there is and says so, rather than starting
/// over.
pub proof fn law_a_count_that_does_not_fit_says_so(
    state: &mut Diagnostics,
    id: u64,
    role: Role,
    bytes: usize,
)
    requires
        call_ensures(record_release, (state, id, role, bytes), ()),
        old(state)@.armed,
        side(old(state)@, role).release_event_bytes + bytes > u64::MAX,
    ensures
        side(final(state)@, role).release_event_bytes == u64::MAX,
        final(state)@.overflowed,
{
}

/// A connection's number is handed out once, and a reset does not hand it out again.
pub proof fn law_a_number_is_handed_out_once(
    state: &mut Diagnostics,
    id: u64,
    cleared: &mut Diagnostics,
    fresh: Diagnostics,
)
    requires
        call_ensures(next_connection_id, (state,), id),
        call_ensures(reset, (cleared,), ()),
        call_ensures(Diagnostics::new, (), fresh),
    ensures
        id == old(state)@.next_connection_id,
        id < u64::MAX ==> final(state)@ == (DiagnosticsView {
            next_connection_id: (id + 1) as u64,
            ..old(state)@
        }),
        id == u64::MAX ==> final(state)@.overflowed && final(state)@.next_connection_id == u64::MAX,
        final(cleared)@ == (DiagnosticsView {
            next_connection_id: old(cleared)@.next_connection_id,
            ..fresh@
        }),
        !fresh@.armed && !fresh@.overflowed && fresh@.next_sequence == 1,
        fresh@.next_connection_id == 1 && fresh@.staging_limit == u64::MAX,
        fresh@.attempts.len() == 0 && fresh@.liveness.len() == 0,
        fresh@.client == fresh@.server && fresh@.client.offered_bytes == 0,
        fresh@.client.produced_packets == 0 && fresh@.client.retries == 0 && fresh@.client.parks
            == 0,
{
}

/// Arming and limiting do that and no more. A limit stages no more than the payload allows, and
/// none leaves it alone.
pub proof fn law_arming_and_limiting_do_no_more(
    arming: &mut Diagnostics,
    enabled: bool,
    any: Diagnostics,
    armed: bool,
    limiting: &mut Diagnostics,
    limit: Option<usize>,
    then: Diagnostics,
    read: Option<usize>,
    payload: usize,
    staged: usize,
)
    requires
        call_ensures(arm, (arming, enabled), ()),
        call_ensures(is_armed, (&any,), armed),
        call_ensures(set_test_staging_limit, (limiting, limit), ()),
        then@ == final(limiting)@,
        call_ensures(test_staging_limit, (&then,), read),
        call_ensures(staging_limit, (&then, payload), staged),
    ensures
        final(arming)@ == (DiagnosticsView { armed: enabled, ..old(arming)@ }),
        armed == any@.armed,
        staged <= payload,
        limit is None ==> read is None && staged == payload,
        limit matches Some(bound) ==> {
            &&& bound < payload && (bound as u64) < u64::MAX ==> staged == bound
            &&& bound >= payload ==> staged == payload
            &&& (bound as u64) < u64::MAX ==> read == limit
        },
        final(limiting)@ == (DiagnosticsView {
            staging_limit: final(limiting)@.staging_limit,
            ..old(limiting)@
        }),
{
}

/// What is taken or drained is what was observed, all of it, once. A drain starts a new
/// interval: counts begin again, while what is retained or queued stands, as its own high mark.
pub proof fn law_what_is_drained_was_observed(
    any: Diagnostics,
    seen: Snapshot,
    attempting: &mut Diagnostics,
    attempts: Vec<Attempt>,
    living: &mut Diagnostics,
    events: Vec<LivenessEvent>,
    draining: &mut Diagnostics,
    drained: DrainedDiagnostics,
)
    requires
        call_ensures(snapshot, (&any,), seen),
        call_ensures(take_attempts, (attempting,), attempts),
        call_ensures(take_liveness_events, (living,), events),
        call_ensures(drain, (draining,), drained),
    ensures
        seen.client == any@.client && seen.server == any@.server && seen.overflowed
            == any@.overflowed && !seen.retransmissions_available,
        attempts@ == old(attempting)@.attempts,
        final(attempting)@ == (DiagnosticsView { attempts: Seq::empty(), ..old(attempting)@ }),
        events@ == old(living)@.liveness,
        final(living)@ == (DiagnosticsView { liveness: Seq::empty(), ..old(living)@ }),
        drained.attempts@ == old(draining)@.attempts,
        drained.liveness@ == old(draining)@.liveness,
        drained.snapshot.client == old(draining)@.client,
        drained.snapshot.server == old(draining)@.server,
        drained.snapshot.overflowed == old(draining)@.overflowed,
        ({
            let before = old(draining)@;
            let after = final(draining)@;
            &&& after.attempts.len() == 0 && after.liveness.len() == 0 && !after.overflowed
            &&& after.next_sequence == before.next_sequence && after.armed == before.armed
            &&& after.zero_waiting == before.zero_waiting && after.last_enabling
                == before.last_enabling
            &&& after.client.offered_bytes == 0 && after.client.produced_packets == 0
            &&& after.client.retries == 0 && after.client.parks == 0
                && after.client.acknowledged_bytes == 0
            &&& after.client.logical_retained_bytes == before.client.logical_retained_bytes
            &&& after.client.logical_retained_high_water == before.client.logical_retained_bytes
            &&& after.client.inbound_queue_depth == before.client.inbound_queue_depth
            &&& after.client.inbound_queue_high_water == before.client.inbound_queue_depth
            &&& after.client.outbound_queue_depth == before.client.outbound_queue_depth
            &&& after.client.outbound_queue_high_water == before.client.outbound_queue_depth
            &&& after.client.retained_backing_high_water == before.client.retained_backing_capacity
            &&& after.server.offered_bytes == 0 && after.server.produced_packets == 0
            &&& after.server.logical_retained_bytes == before.server.logical_retained_bytes
            &&& after.server.logical_retained_high_water == before.server.logical_retained_bytes
        }),
{
}

/// What happens to a connection's queues is recorded with that connection's role, number and
/// depth: a datagram kept wakes, one dropped counts, and room that comes to a full queue wakes
/// whoever waited for it.
pub proof fn law_queue_changes_are_recorded_as_they_happen(
    shared: ConnectionShared,
    kept: bool,
    woken: usize,
    before: usize,
    delivering: &mut Diagnostics,
    receiving: &mut Diagnostics,
    queueing: &mut Diagnostics,
    waiting: &mut Diagnostics,
    seeing: &mut Diagnostics,
    taking: &mut Diagnostics,
    sending: &mut Diagnostics,
    stopping: &mut Diagnostics,
)
    requires
        call_ensures(received, (receiving, &shared), ()),
        call_ensures(
            record_inbound_queue,
            (taking, shared@.diagnostic_id, shared@.role, shared@.inbound.len() as usize, false),
            (),
        ),
        old(taking)@ == old(receiving)@,
        call_ensures(queued, (queueing, &shared), ()),
        call_ensures(
            record_outbound_queue,
            (sending, shared@.diagnostic_id, shared@.role, shared@.outbound.len() as usize, false),
            (),
        ),
        old(sending)@ == old(queueing)@,
        call_ensures(parked, (waiting, &shared), ()),
        call_ensures(
            record_capacity_registration,
            (stopping, shared@.diagnostic_id, shared@.role),
            (),
        ),
        old(stopping)@ == old(waiting)@,
        call_ensures(delivered, (delivering, &shared, kept, woken), ()),
        call_ensures(
            record_inbound_queue,
            (seeing, shared@.diagnostic_id, shared@.role, shared@.inbound.len() as usize, true),
            (),
        ),
        old(seeing)@ == old(delivering)@,
        shared@.inbound.len() <= usize::MAX,
        shared@.outbound.len() <= usize::MAX,
    ensures
        final(receiving)@ == final(taking)@,
        final(queueing)@ == final(sending)@,
        final(waiting)@ == final(stopping)@,
        !kept ==> final(delivering)@ == final(seeing)@,
{
}

/// Room that comes to a full queue is recorded as that, and as waking whoever waited; a queue
/// that was not full is only seen.
pub proof fn law_room_is_recorded_when_a_full_queue_opens(
    shared: ConnectionShared,
    before: usize,
    woken: usize,
    state: &mut Diagnostics,
    seeing: &mut Diagnostics,
    waking: &mut Diagnostics,
)
    requires
        call_ensures(shipped, (state, &shared, before, woken), ()),
        shared@.outbound.len() <= usize::MAX,
        call_ensures(
            record_outbound_queue,
            (
                seeing,
                shared@.diagnostic_id,
                shared@.role,
                shared@.outbound.len() as usize,
                before == 64 && shared@.outbound.len() < before,
            ),
            (),
        ),
        old(seeing)@ == old(state)@,
        call_ensures(
            record_capacity_wakes,
            (waking, shared@.diagnostic_id, shared@.role, woken),
            (),
        ),
        old(waking)@ == final(seeing)@,
    ensures
        before == 64 && shared@.outbound.len() < 64 ==> final(state)@ == final(waking)@,
        !(before == 64 && shared@.outbound.len() < 64) ==> final(state)@ == final(seeing)@,
{
}

/// A datagram that was kept is seen in the queue and wakes whoever reads it.
pub proof fn law_a_kept_datagram_is_seen_and_wakes(
    shared: ConnectionShared,
    woken: usize,
    state: &mut Diagnostics,
    seeing: &mut Diagnostics,
    waking: &mut Diagnostics,
)
    requires
        call_ensures(delivered, (state, &shared, true, woken), ()),
        shared@.inbound.len() <= usize::MAX,
        call_ensures(
            record_inbound_queue,
            (seeing, shared@.diagnostic_id, shared@.role, shared@.inbound.len() as usize, false),
            (),
        ),
        old(seeing)@ == old(state)@,
        call_ensures(
            record_inbound_wakes,
            (waking, shared@.diagnostic_id, shared@.role, woken),
            (),
        ),
        old(waking)@ == final(seeing)@,
    ensures
        final(state)@ == final(waking)@,
{
}

/// An attempt whose counts all fit is no overflow, and one whose offer does not fit is.
pub proof fn law_an_attempt_that_does_not_fit_says_so(state: &mut Diagnostics, attempt: Attempt)
    requires
        call_ensures(record_attempt, (state, attempt), ()),
        old(state)@.armed,
    ensures
        ({
            let before = side(old(state)@, attempt.role);
            let after = side(final(state)@, attempt.role);
            &&& before.offered_bytes + attempt.offered_bytes > u64::MAX ==> final(state)@.overflowed
                && after.offered_bytes == u64::MAX
            &&& before.accepted_bytes + attempt.accepted_prefix > u64::MAX
                ==> final(state)@.overflowed && after.accepted_bytes == u64::MAX
            &&& before.prepared_backing_capacity + attempt.prepared_backing_capacity > u64::MAX
                ==> final(state)@.overflowed && after.prepared_backing_capacity == u64::MAX
            &&& old(state)@.overflowed ==> final(state)@.overflowed
            &&& before.offered_bytes + attempt.offered_bytes <= u64::MAX && before.accepted_bytes
                + attempt.accepted_prefix <= u64::MAX && before.prepared_backing_capacity
                + attempt.prepared_backing_capacity <= u64::MAX && before.zero_acceptances
                < u64::MAX && before.parks < u64::MAX && before.retries < u64::MAX
                && before.zero_accept_retries < u64::MAX
                && before.zero_accept_retries_without_enable < u64::MAX
                    && old(state)@.next_sequence < u64::MAX - 2 ==> final(state)@.overflowed
                    == old(state)@.overflowed
        }),
{
}

} // verus!
