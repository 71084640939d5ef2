//! Observations for deterministic stress runs.
//!
//! Everything here is inert until it is armed: an unarmed hook changes nothing. The state is
//! an ordinary value; whoever shares it between threads decides how it is locked.

use std::collections::BTreeMap;

use vstd::prelude::*;

use crate::endpoint::shared::{ConnectionShared, DATAGRAM_QUEUE};
use crate::tls::Role;

verus! {

/// One stream-write outcome recorded after the engine returned.
#[derive(Clone, Copy, Debug, PartialEq, Eq, Structural)]
pub enum AttemptOutcome {
    /// A datagram was produced.
    Datagram,
    /// Stream flow control prevented acceptance.
    StreamBlocked,
    /// Connection flow control prevented acceptance.
    ConnectionBlocked,
    /// Congestion, pacing, or datagram capacity prevented acceptance.
    Blocked,
    /// The connection had nothing to write.
    Idle,
}

/// One complete stream-write attempt.
#[derive(Clone, Copy, Debug, PartialEq, Eq)]
pub struct Attempt {
    /// Monotonic diagnostic sequence.
    pub sequence: u64,
    /// Monotonic connection identity.
    pub connection_id: u64,
    /// Endpoint role making the offer.
    pub role: Role,
    /// Direction relative to `role`; currently always `"outbound"`.
    pub direction: &'static str,
    /// QUIC stream identifier.
    pub stream_id: i64,
    /// Logical stream offset of the offered prefix.
    pub stream_offset: u64,
    /// Bytes supplied by the caller.
    pub offered_bytes: u64,
    /// Path payload limit sampled immediately before staging.
    pub sampled_payload_limit: u64,
    /// Complete backing capacity prepared for this attempt.
    pub prepared_backing_capacity: u64,
    /// Prefix accepted by the engine.
    pub accepted_prefix: u64,
    /// Whether the end of the stream was handed over with this staged prefix.
    pub fin_offered: bool,
    /// Whether a non-empty offer accepted no bytes.
    pub zero_acceptance: bool,
    /// Logical bytes retained after this attempt.
    pub logical_retained_bytes: u64,
    /// Complete backing capacity retained after this attempt.
    pub retained_backing_capacity: u64,
    /// Outcome category.
    pub outcome: AttemptOutcome,
}

/// Category of a liveness observation.
#[derive(Clone, Copy, Debug, PartialEq, Eq, Structural)]
pub enum LivenessKind {
    /// Something occurred that can make a parked write retry meaningful.
    EnablingEvent,
    /// The local adapter produced output; this does not make a retry sendable.
    LocalProduction,
    /// A task was polled again; the wake alone does not prove external progress.
    DriverWake,
    /// A path stopped retrying until another event.
    Park,
    /// A previously parked path attempted progress again.
    Retry,
}

/// A reasoned, sequenced liveness observation.
#[derive(Clone, Copy, Debug, PartialEq, Eq)]
pub struct LivenessEvent {
    /// Monotonic diagnostic sequence.
    pub sequence: u64,
    /// Monotonic connection identity.
    pub connection_id: u64,
    /// Endpoint role observing the event.
    pub role: Role,
    /// What kind of observation this is.
    pub kind: LivenessKind,
    /// Stable machine-readable reason.
    pub reason: &'static str,
    /// Stream-write attempt that parked or retried, when applicable.
    pub attempt_sequence: Option<u64>,
    /// Earlier zero-accept attempt for the same connection, stream and offset.
    pub parked_attempt_sequence: Option<u64>,
    /// Enabling event preceding a retry, or `None` when no such event was observed.
    pub enabling_sequence: Option<u64>,
}

/// Aggregate observations for one endpoint role.
#[derive(Clone, Copy, Debug, PartialEq, Eq, Structural)]
pub struct RoleSnapshot {
    /// QUIC stream bytes offered across writes.
    pub offered_bytes: u64,
    /// Complete backing capacity prepared across attempts.
    pub prepared_backing_capacity: u64,
    /// QUIC stream bytes accepted across writes.
    pub accepted_bytes: u64,
    /// Non-empty attempts accepting no bytes.
    pub zero_acceptances: u64,
    /// Current logical retained-byte observation.
    pub logical_retained_bytes: u64,
    /// Highest logical retained-byte observation.
    pub logical_retained_high_water: u64,
    /// Current complete retained backing capacity.
    pub retained_backing_capacity: u64,
    /// Highest complete retained backing capacity.
    pub retained_backing_high_water: u64,
    /// QUIC stream bytes released back to their source after copying.
    pub release_event_bytes: u64,
    /// Bytes acknowledged by the peer.
    pub acknowledged_bytes: u64,
    /// Complete retained backing capacity freed by acknowledgement or close.
    pub released_backing_capacity: u64,
    /// Packets produced without newly accepted stream data.
    pub transport_only_packets: u64,
    /// Packets produced while accepting stream data.
    pub stream_carrying_packets: u64,
    /// All packets observed at the adapter production boundary.
    pub produced_packets: u64,
    /// Timer deadline changes that created a replacement sleep.
    pub timer_rearms: u64,
    /// Armed timers observed ready.
    pub timer_fires: u64,
    /// General inbound/work wake registrations.
    pub wake_registrations: u64,
    /// Inbound deliveries that consumed general registrations.
    pub inbound_wakes: u64,
    /// Full-queue capacity registrations.
    pub capacity_registrations: u64,
    /// Full-to-available queue transitions that woke a producer.
    pub capacity_wakes: u64,
    /// Retries following an enabling event.
    pub retries: u64,
    /// Poll paths that parked for lack of an enabling event.
    pub parks: u64,
    /// Retries of zero-accept stream attempts.
    pub zero_accept_retries: u64,
    /// Zero-accept retries with no later enabling event recorded first.
    pub zero_accept_retries_without_enable: u64,
    /// Current inbound queue depth.
    pub inbound_queue_depth: u64,
    /// Highest inbound queue depth.
    pub inbound_queue_high_water: u64,
    /// Inbound datagrams dropped at the queue bound.
    pub inbound_drops: u64,
    /// Current outbound queue depth.
    pub outbound_queue_depth: u64,
    /// Highest outbound queue depth.
    pub outbound_queue_high_water: u64,
    /// Full-to-available outbound queue transitions.
    pub outbound_capacity_transitions: u64,
    /// Inbound datagrams deliberately discarded when an owner marked a connection terminal.
    pub terminal_discarded_inbound: u64,
    /// Outbound datagrams deliberately discarded at terminal transition.
    pub terminal_discarded_outbound: u64,
}

impl RoleSnapshot {
    /// Nothing observed.
    pub open spec fn nothing() -> Self {
        RoleSnapshot {
            offered_bytes: 0,
            prepared_backing_capacity: 0,
            accepted_bytes: 0,
            zero_acceptances: 0,
            logical_retained_bytes: 0,
            logical_retained_high_water: 0,
            retained_backing_capacity: 0,
            retained_backing_high_water: 0,
            release_event_bytes: 0,
            acknowledged_bytes: 0,
            released_backing_capacity: 0,
            transport_only_packets: 0,
            stream_carrying_packets: 0,
            produced_packets: 0,
            timer_rearms: 0,
            timer_fires: 0,
            wake_registrations: 0,
            inbound_wakes: 0,
            capacity_registrations: 0,
            capacity_wakes: 0,
            retries: 0,
            parks: 0,
            zero_accept_retries: 0,
            zero_accept_retries_without_enable: 0,
            inbound_queue_depth: 0,
            inbound_queue_high_water: 0,
            inbound_drops: 0,
            outbound_queue_depth: 0,
            outbound_queue_high_water: 0,
            outbound_capacity_transitions: 0,
            terminal_discarded_inbound: 0,
            terminal_discarded_outbound: 0,
        }
    }

    /// What the next interval starts from: counters at zero, live gauges as they are, and
    /// each high-water mark at its gauge.
    pub open spec fn next_interval(self) -> Self {
        RoleSnapshot {
            logical_retained_bytes: self.logical_retained_bytes,
            logical_retained_high_water: self.logical_retained_bytes,
            retained_backing_capacity: self.retained_backing_capacity,
            retained_backing_high_water: self.retained_backing_capacity,
            inbound_queue_depth: self.inbound_queue_depth,
            inbound_queue_high_water: self.inbound_queue_depth,
            outbound_queue_depth: self.outbound_queue_depth,
            outbound_queue_high_water: self.outbound_queue_depth,
            ..Self::nothing()
        }
    }
}

impl Default for RoleSnapshot {
    fn default() -> (snapshot: Self)
        ensures
            snapshot == RoleSnapshot::nothing(),
    {
        RoleSnapshot {
            offered_bytes: 0,
            prepared_backing_capacity: 0,
            accepted_bytes: 0,
            zero_acceptances: 0,
            logical_retained_bytes: 0,
            logical_retained_high_water: 0,
            retained_backing_capacity: 0,
            retained_backing_high_water: 0,
            release_event_bytes: 0,
            acknowledged_bytes: 0,
            released_backing_capacity: 0,
            transport_only_packets: 0,
            stream_carrying_packets: 0,
            produced_packets: 0,
            timer_rearms: 0,
            timer_fires: 0,
            wake_registrations: 0,
            inbound_wakes: 0,
            capacity_registrations: 0,
            capacity_wakes: 0,
            retries: 0,
            parks: 0,
            zero_accept_retries: 0,
            zero_accept_retries_without_enable: 0,
            inbound_queue_depth: 0,
            inbound_queue_high_water: 0,
            inbound_drops: 0,
            outbound_queue_depth: 0,
            outbound_queue_high_water: 0,
            outbound_capacity_transitions: 0,
            terminal_discarded_inbound: 0,
            terminal_discarded_outbound: 0,
        }
    }
}

/// A snapshot of both roles.
#[derive(Clone, Copy, Debug, PartialEq, Eq, Structural)]
pub struct Snapshot {
    /// Client-role observations.
    pub client: RoleSnapshot,
    /// Server-role observations.
    pub server: RoleSnapshot,
    /// True if any checked counter saturated.
    pub overflowed: bool,
    /// Packet retransmission attribution, which the engine does not offer.
    pub retransmissions_available: bool,
}

impl Default for Snapshot {
    fn default() -> (snapshot: Self)
        ensures
            snapshot == (Snapshot {
                client: RoleSnapshot::nothing(),
                server: RoleSnapshot::nothing(),
                overflowed: false,
                retransmissions_available: false,
            }),
    {
        Snapshot {
            client: RoleSnapshot::default(),
            server: RoleSnapshot::default(),
            overflowed: false,
            retransmissions_available: false,
        }
    }
}

/// One exclusive interval observation.
#[derive(Debug, PartialEq, Eq)]
pub struct DrainedDiagnostics {
    /// Counter and live-gauge values for the completed interval.
    pub snapshot: Snapshot,
    /// Stream-write attempts recorded during the interval.
    pub attempts: Vec<Attempt>,
    /// Liveness events recorded during the interval.
    pub liveness: Vec<LivenessEvent>,
}

/// Which zero-accept write is waiting: its connection, stream and offset.
pub type WaitKey = (u64, i64, u64);

/// Everything that has been observed.
#[verifier::ext_equal]
pub struct DiagnosticsView {
    /// Whether hooks record anything.
    pub armed: bool,
    /// Whether any counter saturated in this interval.
    pub overflowed: bool,
    /// The sequence number the next observation gets.
    pub next_sequence: u64,
    /// The identity the next connection gets.
    pub next_connection_id: u64,
    /// The staging bound tests asked for; the largest value means none.
    pub staging_limit: u64,
    /// Client-role observations.
    pub client: RoleSnapshot,
    /// Server-role observations.
    pub server: RoleSnapshot,
    /// The latest enabling event of each connection.
    pub last_enabling: Map<u64, u64>,
    /// The latest zero-accept attempt still waiting, by what it was offering.
    pub zero_waiting: Map<WaitKey, u64>,
    /// Attempts, oldest first.
    pub attempts: Seq<Attempt>,
    /// Liveness events, oldest first.
    pub liveness: Seq<LivenessEvent>,
}

/// A sum that stops at the largest counter value.
pub open spec fn saturated(current: u64, value: u64) -> u64 {
    if current + value > u64::MAX {
        u64::MAX
    } else {
        (current + value) as u64
    }
}

/// Whether a sum has to stop there.
pub open spec fn saturates(current: u64, value: u64) -> bool {
    current + value > u64::MAX
}

/// The larger of two.
pub open spec fn higher(mark: u64, value: u64) -> u64 {
    if value > mark {
        value
    } else {
        mark
    }
}

/// Which write an attempt belongs to.
pub open spec fn wait_key(attempt: Attempt) -> WaitKey {
    (attempt.connection_id, attempt.stream_id, attempt.stream_offset)
}

/// Why an attempt that accepted nothing parks.
pub open spec fn park_reason(outcome: AttemptOutcome) -> &'static str {
    match outcome {
        AttemptOutcome::Datagram => "zero-accept-datagram",
        AttemptOutcome::StreamBlocked => "stream-flow-control",
        AttemptOutcome::ConnectionBlocked => "connection-flow-control",
        AttemptOutcome::Blocked => "transport-blocked",
        AttemptOutcome::Idle => "transport-idle",
    }
}

impl DiagnosticsView {
    /// The counters of one role.
    pub open spec fn of(self, role: Role) -> RoleSnapshot {
        match role {
            Role::Client => self.client,
            Role::Server => self.server,
        }
    }

    /// The same state with other counters for one role, one of which may have saturated.
    pub open spec fn counted(self, role: Role, counters: RoleSnapshot, saturated: bool) -> Self {
        let overflowed = self.overflowed || saturated;
        match role {
            Role::Client => DiagnosticsView { client: counters, overflowed, ..self },
            Role::Server => DiagnosticsView { server: counters, overflowed, ..self },
        }
    }

    /// The same state with one sequence number used up.
    pub open spec fn numbered(self) -> Self {
        DiagnosticsView {
            next_sequence: saturated(self.next_sequence, 1),
            overflowed: self.overflowed || saturates(self.next_sequence, 1),
            ..self
        }
    }

    /// The same state with one more liveness event, under the next sequence number.
    pub open spec fn observed(self, event: LivenessEvent) -> Self {
        DiagnosticsView {
            liveness: self.liveness.push(
                LivenessEvent { sequence: self.next_sequence, ..event },
            ),
            ..self.numbered()
        }
    }

    /// The same state with one more plain event.
    pub open spec fn noted(
        self,
        connection_id: u64,
        role: Role,
        kind: LivenessKind,
        reason: &'static str,
    ) -> Self {
        self.observed(
            LivenessEvent {
                sequence: 0,
                connection_id,
                role,
                kind,
                reason,
                attempt_sequence: None,
                parked_attempt_sequence: None,
                enabling_sequence: None,
            },
        )
    }

    /// The same state once something made a retry on a connection meaningful.
    pub open spec fn enabled(self, connection_id: u64, role: Role, reason: &'static str) -> Self {
        DiagnosticsView {
            last_enabling: self.last_enabling.insert(connection_id, self.next_sequence),
            ..self.noted(connection_id, role, LivenessKind::EnablingEvent, reason)
        }
    }

    /// The latest enabling event of a connection, or zero where there was none.
    pub open spec fn enabling_of(self, connection_id: u64) -> u64 {
        if self.last_enabling.contains_key(connection_id) {
            self.last_enabling[connection_id]
        } else {
            0
        }
    }

    /// The counters every attempt moves.
    pub open spec fn offered(self, attempt: Attempt) -> Self {
        let role = self.of(attempt.role);
        let zero: u64 = if attempt.zero_acceptance {
            1
        } else {
            0
        };
        self.counted(
            attempt.role,
            RoleSnapshot {
                offered_bytes: saturated(role.offered_bytes, attempt.offered_bytes),
                prepared_backing_capacity: saturated(
                    role.prepared_backing_capacity,
                    attempt.prepared_backing_capacity,
                ),
                accepted_bytes: saturated(role.accepted_bytes, attempt.accepted_prefix),
                zero_acceptances: saturated(role.zero_acceptances, zero),
                logical_retained_bytes: attempt.logical_retained_bytes,
                logical_retained_high_water: higher(
                    role.logical_retained_high_water,
                    attempt.logical_retained_bytes,
                ),
                retained_backing_capacity: attempt.retained_backing_capacity,
                retained_backing_high_water: higher(
                    role.retained_backing_high_water,
                    attempt.retained_backing_capacity,
                ),
                ..role
            },
            saturates(role.offered_bytes, attempt.offered_bytes) || saturates(
                role.prepared_backing_capacity,
                attempt.prepared_backing_capacity,
            ) || saturates(role.accepted_bytes, attempt.accepted_prefix) || saturates(
                role.zero_acceptances,
                zero,
            ),
        )
    }

    /// The enabling event that made a retry of the attempt numbered `waiting` meaningful, if
    /// one came after it.
    pub open spec fn enabling_after(self, connection_id: u64, waiting: u64) -> Option<u64> {
        if self.enabling_of(connection_id) > waiting {
            Some(self.enabling_of(connection_id))
        } else {
            None
        }
    }

    /// The same state once an attempt turned out to retry an earlier one that accepted
    /// nothing.
    pub open spec fn retried(self, attempt: Attempt, waiting: u64) -> Self {
        let role = self.of(attempt.role);
        let enabling = self.enabling_after(attempt.connection_id, waiting);
        let blind: u64 = if enabling is None {
            1
        } else {
            0
        };
        self.counted(
            attempt.role,
            RoleSnapshot {
                retries: saturated(role.retries, 1),
                zero_accept_retries: saturated(role.zero_accept_retries, 1),
                zero_accept_retries_without_enable: saturated(
                    role.zero_accept_retries_without_enable,
                    blind,
                ),
                ..role
            },
            saturates(role.retries, 1) || saturates(role.zero_accept_retries, 1) || saturates(
                role.zero_accept_retries_without_enable,
                blind,
            ),
        ).observed(
            LivenessEvent {
                sequence: 0,
                connection_id: attempt.connection_id,
                role: attempt.role,
                kind: LivenessKind::Retry,
                reason: "zero-accept",
                attempt_sequence: Some(attempt.sequence),
                parked_attempt_sequence: Some(waiting),
                enabling_sequence: enabling,
            },
        )
    }

    /// The same state once a path of one role parked.
    pub open spec fn parked(self, role: Role) -> Self {
        let counters = self.of(role);
        self.counted(
            role,
            RoleSnapshot { parks: saturated(counters.parks, 1), ..counters },
            saturates(counters.parks, 1),
        )
    }

    /// The same state once an attempt has been recorded.
    ///
    /// An attempt that accepted nothing waits: it is remembered by what it offered, and the
    /// next attempt on the same bytes is a retry of it. An attempt that accepted something
    /// ends the wait.
    pub open spec fn attempted(self, attempt: Attempt) -> Self {
        let attempt = Attempt { sequence: self.next_sequence, ..attempt };
        let key = wait_key(attempt);
        let counted = self.numbered().offered(attempt);
        let retried = if self.zero_waiting.contains_key(key) {
            counted.retried(attempt, self.zero_waiting[key])
        } else {
            counted
        };
        let settled = if attempt.zero_acceptance {
            DiagnosticsView {
                zero_waiting: self.zero_waiting.insert(key, attempt.sequence),
                ..retried.parked(attempt.role).observed(
                    LivenessEvent {
                        sequence: 0,
                        connection_id: attempt.connection_id,
                        role: attempt.role,
                        kind: LivenessKind::Park,
                        reason: park_reason(attempt.outcome),
                        attempt_sequence: Some(attempt.sequence),
                        parked_attempt_sequence: None,
                        enabling_sequence: None,
                    },
                )
            }
        } else {
            DiagnosticsView { zero_waiting: self.zero_waiting.remove(key), ..retried }
        };
        DiagnosticsView { attempts: self.attempts.push(attempt), ..settled }
    }

    /// The state a reset leaves: nothing observed, nothing armed, and only the connection
    /// identities still counting on.
    pub open spec fn after_reset(self) -> Self {
        DiagnosticsView {
            armed: false,
            overflowed: false,
            next_sequence: 1,
            next_connection_id: self.next_connection_id,
            staging_limit: u64::MAX,
            client: RoleSnapshot::nothing(),
            server: RoleSnapshot::nothing(),
            last_enabling: Map::empty(),
            zero_waiting: Map::empty(),
            attempts: Seq::empty(),
            liveness: Seq::empty(),
        }
    }

    /// The state a drain leaves: both roles start a new interval and the logs are empty. What
    /// is waiting, and what enabled it, carries over.
    pub open spec fn after_drain(self) -> Self {
        DiagnosticsView {
            overflowed: false,
            client: self.client.next_interval(),
            server: self.server.next_interval(),
            attempts: Seq::empty(),
            liveness: Seq::empty(),
            ..self
        }
    }
}

/// The state of the diagnostics.
pub struct Diagnostics {
    armed: bool,
    overflowed: bool,
    next_sequence: u64,
    next_connection_id: u64,
    staging_limit: u64,
    client: RoleSnapshot,
    server: RoleSnapshot,
    last_enabling: BTreeMap<u64, u64>,
    zero_waiting: BTreeMap<WaitKey, u64>,
    attempts: Vec<Attempt>,
    liveness: Vec<LivenessEvent>,
}

impl View for Diagnostics {
    type V = DiagnosticsView;

    closed spec fn view(&self) -> DiagnosticsView {
        DiagnosticsView {
            armed: self.armed,
            overflowed: self.overflowed,
            next_sequence: self.next_sequence,
            next_connection_id: self.next_connection_id,
            staging_limit: self.staging_limit,
            client: self.client,
            server: self.server,
            last_enabling: self.last_enabling@,
            zero_waiting: self.zero_waiting@,
            attempts: self.attempts@,
            liveness: self.liveness@,
        }
    }
}

/// Connection identities and wait keys are ordered as integers are.
proof fn lemma_key_order()
    ensures
        vstd::laws_cmp::obeys_cmp::<u64>(),
        vstd::laws_cmp::obeys_cmp::<WaitKey>(),
{
    broadcast use vstd::laws_cmp::group_laws_cmp;
}

/// Adds to a counter, stopping at its largest value and saying so.
fn count(counter: &mut u64, overflowed: &mut bool, value: u64)
    ensures
        *final(counter) == saturated(*old(counter), value),
        *final(overflowed) == (*old(overflowed) || saturates(*old(counter), value)),
{
    match counter.checked_add(value) {
        Some(next) => {
            *counter = next;
        },
        None => {
            *overflowed = true;
            *counter = u64::MAX;
        },
    }
}

/// Raises a mark to a value above it.
fn high_water(mark: &mut u64, value: u64)
    ensures
        *final(mark) == higher(*old(mark), value),
{
    if value > *mark {
        *mark = value;
    }
}

impl Diagnostics {
    /// Nothing observed and nothing armed.
    pub fn new() -> (state: Self)
        ensures
            state@ == DiagnosticsView::fresh(),
    {
        let state = Diagnostics {
            armed: false,
            overflowed: false,
            next_sequence: 1,
            next_connection_id: 1,
            staging_limit: u64::MAX,
            client: RoleSnapshot::default(),
            server: RoleSnapshot::default(),
            last_enabling: BTreeMap::new(),
            zero_waiting: BTreeMap::new(),
            attempts: Vec::new(),
            liveness: Vec::new(),
        };
        assert(state@ =~= DiagnosticsView::fresh());
        state
    }

    /// The counters of one role.
    fn of(&self, role: Role) -> (counters: RoleSnapshot)
        ensures
            counters == self@.of(role),
    {
        match role {
            Role::Client => self.client,
            Role::Server => self.server,
        }
    }

    /// Replaces the counters of one role.
    fn put(&mut self, role: Role, counters: RoleSnapshot, overflowed: bool)
        ensures
            final(self)@ == (DiagnosticsView {
                overflowed,
                ..old(self)@.counted(role, counters, false)
            }),
    {
        self.overflowed = overflowed;
        match role {
            Role::Client => self.client = counters,
            Role::Server => self.server = counters,
        }
    }

    /// Uses up a sequence number.
    fn next_sequence(&mut self) -> (sequence: u64)
        ensures
            sequence == old(self)@.next_sequence,
            final(self)@ == old(self)@.numbered(),
    {
        let sequence: u64 = self.next_sequence;
        let mut next: u64 = sequence;
        let mut overflowed: bool = self.overflowed;
        count(&mut next, &mut overflowed, 1);
        self.next_sequence = next;
        self.overflowed = overflowed;
        sequence
    }

    /// Records a liveness event under the next sequence number.
    fn push_liveness(&mut self, event: LivenessEvent) -> (sequence: u64)
        ensures
            sequence == old(self)@.next_sequence,
            final(self)@ == old(self)@.observed(event),
    {
        let sequence: u64 = self.next_sequence();
        self.liveness.push(
            LivenessEvent {
                sequence,
                connection_id: event.connection_id,
                role: event.role,
                kind: event.kind,
                reason: event.reason,
                attempt_sequence: event.attempt_sequence,
                parked_attempt_sequence: event.parked_attempt_sequence,
                enabling_sequence: event.enabling_sequence,
            },
        );
        assert(self@ =~= old(self)@.observed(event));
        sequence
    }

    /// Records a plain event.
    fn note(&mut self, connection_id: u64, role: Role, kind: LivenessKind, reason: &'static str)
        ensures
            final(self)@ == old(self)@.noted(connection_id, role, kind, reason),
    {
        let _ = self.push_liveness(
            LivenessEvent {
                sequence: 0,
                connection_id,
                role,
                kind,
                reason,
                attempt_sequence: None,
                parked_attempt_sequence: None,
                enabling_sequence: None,
            },
        );
    }

    /// Records that something made a retry on a connection meaningful.
    fn record_enabling(&mut self, connection_id: u64, role: Role, reason: &'static str)
        ensures
            final(self)@ == old(self)@.enabled(connection_id, role, reason),
    {
        proof {
            lemma_key_order();
        }
        let sequence: u64 = self.next_sequence;
        self.note(connection_id, role, LivenessKind::EnablingEvent, reason);
        let _ = self.last_enabling.insert(connection_id, sequence);
        assert(self@ =~= old(self)@.enabled(connection_id, role, reason));
    }

    /// The latest enabling event of a connection, or zero.
    fn enabling_of(&self, connection_id: u64) -> (sequence: u64)
        ensures
            sequence == self@.enabling_of(connection_id),
    {
        proof {
            lemma_key_order();
        }
        broadcast use vstd::std_specs::btree::group_btree_axioms;

        match self.last_enabling.get(&connection_id) {
            Some(sequence) => *sequence,
            None => 0,
        }
    }

    /// Records that an attempt retried an earlier one that accepted nothing.
    fn record_zero_accept_retry(&mut self, attempt: Attempt, waiting: u64)
        ensures
            final(self)@ == old(self)@.retried(attempt, waiting),
    {
        let latest: u64 = self.enabling_of(attempt.connection_id);
        let enabling: Option<u64> = if latest > waiting {
            Some(latest)
        } else {
            None
        };
        let mut role = self.of(attempt.role);
        let mut overflowed: bool = self.overflowed;
        count(&mut role.retries, &mut overflowed, 1);
        count(&mut role.zero_accept_retries, &mut overflowed, 1);
        if enabling.is_none() {
            count(&mut role.zero_accept_retries_without_enable, &mut overflowed, 1);
        }
        self.put(attempt.role, role, overflowed);
        let _ = self.push_liveness(
            LivenessEvent {
                sequence: 0,
                connection_id: attempt.connection_id,
                role: attempt.role,
                kind: LivenessKind::Retry,
                reason: "zero-accept",
                attempt_sequence: Some(attempt.sequence),
                parked_attempt_sequence: Some(waiting),
                enabling_sequence: enabling,
            },
        );
    }

    /// Counts a path of one role that parked.
    fn count_park(&mut self, role: Role)
        ensures
            final(self)@ == old(self)@.parked(role),
    {
        let mut counters = self.of(role);
        let mut overflowed: bool = self.overflowed;
        count(&mut counters.parks, &mut overflowed, 1);
        self.put(role, counters, overflowed);
    }
}

/// Records one stream-write attempt.
pub fn record_attempt(state: &mut Diagnostics, attempt: Attempt)
    ensures
        final(state)@ == old(state)@.after(Call::Attempt(attempt)),
{
    if !state.armed {
        return;
    }
    proof {
        lemma_key_order();
    }
    broadcast use vstd::std_specs::btree::group_btree_axioms;

    let ghost before = state@;
    let sequence: u64 = state.next_sequence();
    let mut attempt = attempt;
    attempt.sequence = sequence;
    let mut role = state.of(attempt.role);
    let mut overflowed: bool = state.overflowed;
    count(&mut role.offered_bytes, &mut overflowed, attempt.offered_bytes);
    count(
        &mut role.prepared_backing_capacity,
        &mut overflowed,
        attempt.prepared_backing_capacity,
    );
    count(&mut role.accepted_bytes, &mut overflowed, attempt.accepted_prefix);
    if attempt.zero_acceptance {
        count(&mut role.zero_acceptances, &mut overflowed, 1);
    }
    role.logical_retained_bytes = attempt.logical_retained_bytes;
    high_water(&mut role.logical_retained_high_water, attempt.logical_retained_bytes);
    role.retained_backing_capacity = attempt.retained_backing_capacity;
    high_water(&mut role.retained_backing_high_water, attempt.retained_backing_capacity);
    state.put(attempt.role, role, overflowed);
    assert(state@ =~= before.numbered().offered(attempt));
    let key: WaitKey = (attempt.connection_id, attempt.stream_id, attempt.stream_offset);
    let waiting: Option<u64> = if attempt.zero_acceptance {
        state.zero_waiting.insert(key, attempt.sequence)
    } else {
        state.zero_waiting.remove(&key)
    };
    let ghost waits = state.zero_waiting@;
    match waiting {
        Some(waiting) => state.record_zero_accept_retry(attempt, waiting),
        None => {},
    }
    if attempt.zero_acceptance {
        state.count_park(attempt.role);
        let reason = match attempt.outcome {
            AttemptOutcome::Datagram => "zero-accept-datagram",
            AttemptOutcome::StreamBlocked => "stream-flow-control",
            AttemptOutcome::ConnectionBlocked => "connection-flow-control",
            AttemptOutcome::Blocked => "transport-blocked",
            AttemptOutcome::Idle => "transport-idle",
        };
        let _ = state.push_liveness(
            LivenessEvent {
                sequence: 0,
                connection_id: attempt.connection_id,
                role: attempt.role,
                kind: LivenessKind::Park,
                reason,
                attempt_sequence: Some(attempt.sequence),
                parked_attempt_sequence: None,
                enabling_sequence: None,
            },
        );
    }
    state.attempts.push(attempt);
    assert(state@ =~= before.attempted(attempt));
}

impl DiagnosticsView {
    /// The same state once the retained bytes of one role have been looked at again.
    pub open spec fn retained(
        self,
        role: Role,
        logical: u64,
        backing: u64,
        acknowledged: u64,
        released_backing: u64,
    ) -> Self {
        let counters = self.of(role);
        self.counted(
            role,
            RoleSnapshot {
                logical_retained_bytes: logical,
                logical_retained_high_water: higher(counters.logical_retained_high_water, logical),
                retained_backing_capacity: backing,
                retained_backing_high_water: higher(counters.retained_backing_high_water, backing),
                acknowledged_bytes: saturated(counters.acknowledged_bytes, acknowledged),
                released_backing_capacity: saturated(
                    counters.released_backing_capacity,
                    released_backing,
                ),
                ..counters
            },
            saturates(counters.acknowledged_bytes, acknowledged) || saturates(
                counters.released_backing_capacity,
                released_backing,
            ),
        )
    }

    /// The same state once bytes were released back to their source.
    pub open spec fn released(self, role: Role, bytes: u64) -> Self {
        let counters = self.of(role);
        self.counted(
            role,
            RoleSnapshot {
                release_event_bytes: saturated(counters.release_event_bytes, bytes),
                ..counters
            },
            saturates(counters.release_event_bytes, bytes),
        )
    }

    /// The same state once a packet was produced. One that carries no stream data is also
    /// a local production, which enables nothing.
    pub open spec fn produced(self, connection_id: u64, role: Role, stream_carrying: bool) -> Self {
        let counters = self.of(role);
        if stream_carrying {
            self.counted(
                role,
                RoleSnapshot {
                    produced_packets: saturated(counters.produced_packets, 1),
                    stream_carrying_packets: saturated(counters.stream_carrying_packets, 1),
                    ..counters
                },
                saturates(counters.produced_packets, 1) || saturates(
                    counters.stream_carrying_packets,
                    1,
                ),
            )
        } else {
            self.counted(
                role,
                RoleSnapshot {
                    produced_packets: saturated(counters.produced_packets, 1),
                    transport_only_packets: saturated(counters.transport_only_packets, 1),
                    ..counters
                },
                saturates(counters.produced_packets, 1) || saturates(
                    counters.transport_only_packets,
                    1,
                ),
            ).noted(connection_id, role, LivenessKind::LocalProduction, "transport-packet")
        }
    }

    /// The same state once an armed sleep was replaced.
    pub open spec fn timer_rearmed(self, role: Role) -> Self {
        let counters = self.of(role);
        self.counted(
            role,
            RoleSnapshot { timer_rearms: saturated(counters.timer_rearms, 1), ..counters },
            saturates(counters.timer_rearms, 1),
        )
    }

    /// The same state once an armed sleep resolved, which enables a retry.
    pub open spec fn timer_fired(self, connection_id: u64, role: Role) -> Self {
        let counters = self.of(role);
        self.counted(
            role,
            RoleSnapshot { timer_fires: saturated(counters.timer_fires, 1), ..counters },
            saturates(counters.timer_fires, 1),
        ).enabled(connection_id, role, "timer")
    }

    /// The same state once a waker was registered.
    pub open spec fn wake_registered(self, role: Role) -> Self {
        let counters = self.of(role);
        self.counted(
            role,
            RoleSnapshot {
                wake_registrations: saturated(counters.wake_registrations, 1),
                ..counters
            },
            saturates(counters.wake_registrations, 1),
        )
    }

    /// The same state once an inbound datagram woke `woken` waiters, which enables a retry.
    pub open spec fn inbound_woken(self, connection_id: u64, role: Role, woken: u64) -> Self {
        let counters = self.of(role);
        self.counted(
            role,
            RoleSnapshot { inbound_wakes: saturated(counters.inbound_wakes, woken), ..counters },
            saturates(counters.inbound_wakes, woken),
        ).enabled(connection_id, role, "inbound-datagram")
    }

    /// The same state once a producer parked on a full queue.
    pub open spec fn capacity_registered(self, connection_id: u64, role: Role) -> Self {
        let counters = self.of(role);
        self.counted(
            role,
            RoleSnapshot {
                capacity_registrations: saturated(counters.capacity_registrations, 1),
                parks: saturated(counters.parks, 1),
                ..counters
            },
            saturates(counters.capacity_registrations, 1) || saturates(counters.parks, 1),
        ).noted(connection_id, role, LivenessKind::Park, "outbound-capacity")
    }

    /// The same state once a full queue regained room and woke `woken` producers, which
    /// enables a retry.
    pub open spec fn capacity_woken(self, connection_id: u64, role: Role, woken: u64) -> Self {
        let counters = self.of(role);
        self.counted(
            role,
            RoleSnapshot { capacity_wakes: saturated(counters.capacity_wakes, woken), ..counters },
            saturates(counters.capacity_wakes, woken),
        ).enabled(connection_id, role, "outbound-capacity")
    }

    /// The same state once a producer retried after parking on a full queue.
    pub open spec fn capacity_retried(self, connection_id: u64, role: Role) -> Self {
        let counters = self.of(role);
        let enabling = self.enabling_of(connection_id);
        self.counted(
            role,
            RoleSnapshot { retries: saturated(counters.retries, 1), ..counters },
            saturates(counters.retries, 1),
        ).observed(
            LivenessEvent {
                sequence: 0,
                connection_id,
                role,
                kind: LivenessKind::Retry,
                reason: "outbound-capacity",
                attempt_sequence: None,
                parked_attempt_sequence: None,
                enabling_sequence: if enabling != 0 {
                    Some(enabling)
                } else {
                    None
                },
            },
        )
    }

    /// The same state once a poll parked with nothing ready.
    pub open spec fn poll_parked(self, connection_id: u64, role: Role) -> Self {
        self.parked(role).noted(connection_id, role, LivenessKind::Park, "poll-idle")
    }

    /// The same state once the inbound queue was seen at a depth.
    pub open spec fn inbound_queued(self, role: Role, depth: u64, dropped: bool) -> Self {
        let counters = self.of(role);
        let drops: u64 = if dropped {
            1
        } else {
            0
        };
        self.counted(
            role,
            RoleSnapshot {
                inbound_queue_depth: depth,
                inbound_queue_high_water: higher(counters.inbound_queue_high_water, depth),
                inbound_drops: saturated(counters.inbound_drops, drops),
                ..counters
            },
            saturates(counters.inbound_drops, drops),
        )
    }

    /// The same state once the outbound queue was seen at a depth.
    pub open spec fn outbound_queued(self, role: Role, depth: u64, transition: bool) -> Self {
        let counters = self.of(role);
        let transitions: u64 = if transition {
            1
        } else {
            0
        };
        self.counted(
            role,
            RoleSnapshot {
                outbound_queue_depth: depth,
                outbound_queue_high_water: higher(counters.outbound_queue_high_water, depth),
                outbound_capacity_transitions: saturated(
                    counters.outbound_capacity_transitions,
                    transitions,
                ),
                ..counters
            },
            saturates(counters.outbound_capacity_transitions, transitions),
        )
    }

    /// The same state once a connection was marked terminal and its inbound queue emptied.
    pub open spec fn terminated(self, role: Role, inbound: u64, outbound: u64) -> Self {
        let counters = self.of(role);
        self.counted(
            role,
            RoleSnapshot {
                inbound_queue_depth: 0,
                terminal_discarded_inbound: saturated(counters.terminal_discarded_inbound, inbound),
                terminal_discarded_outbound: saturated(
                    counters.terminal_discarded_outbound,
                    outbound,
                ),
                ..counters
            },
            saturates(counters.terminal_discarded_inbound, inbound) || saturates(
                counters.terminal_discarded_outbound,
                outbound,
            ),
        )
    }
}

/// Something done with the diagnostics.
pub enum Call {
    /// Everything was cleared.
    Reset,
    /// Recording was enabled or disabled.
    Arm(bool),
    /// A staging limit was set.
    Limit(u64),
    /// An identity was allocated.
    Identity,
    /// The attempts were taken.
    TakeAttempts,
    /// The liveness events were taken.
    TakeLiveness,
    /// An interval was drained.
    Drain,
    /// A stream-write attempt was recorded.
    Attempt(Attempt),
    /// Retained bytes were recorded: held, occupied, acknowledged and released.
    Retained(Role, u64, u64, u64, u64),
    /// Bytes released back to their source were recorded.
    Release(Role, u64),
    /// A produced packet was recorded, and whether it carries stream data.
    Packet(u64, Role, bool),
    /// A replaced sleep was recorded.
    TimerRearm(Role),
    /// A resolved sleep was recorded.
    TimerFire(u64, Role),
    /// A registered waker was recorded.
    WakeRegistration(Role),
    /// A connection polled again was recorded.
    DriverWake(u64, Role),
    /// Waiters woken by a datagram were recorded.
    InboundWakes(u64, Role, u64),
    /// A producer parking on a full queue was recorded.
    CapacityRegistration(u64, Role),
    /// Producers woken by room were recorded.
    CapacityWakes(u64, Role, u64),
    /// A retry after a full queue was recorded.
    Retry(u64, Role),
    /// A parked poll was recorded.
    Park(u64, Role),
    /// The inbound queue's depth was recorded, and whether a datagram was dropped.
    InboundQueue(Role, u64, bool),
    /// The outbound queue's depth was recorded, and whether it regained room.
    OutboundQueue(Role, u64, bool),
    /// What a finished connection discarded was recorded.
    TerminalInventory(Role, u64, u64),
}

impl DiagnosticsView {
    /// Nothing observed and nothing armed.
    pub open spec fn fresh() -> Self {
        DiagnosticsView {
            armed: false,
            overflowed: false,
            next_sequence: 1,
            next_connection_id: 1,
            staging_limit: u64::MAX,
            client: RoleSnapshot::nothing(),
            server: RoleSnapshot::nothing(),
            last_enabling: Map::empty(),
            zero_waiting: Map::empty(),
            attempts: Seq::empty(),
            liveness: Seq::empty(),
        }
    }

    /// The same state once something was recorded. What is no recording changes nothing.
    pub open spec fn recorded(self, call: Call) -> Self {
        match call {
            Call::Attempt(attempt) => self.attempted(attempt),
            Call::Retained(role, logical, backing, acknowledged, released) => self.retained(
                role,
                logical,
                backing,
                acknowledged,
                released,
            ),
            Call::Release(role, bytes) => self.released(role, bytes),
            Call::Packet(id, role, carrying) => self.produced(id, role, carrying),
            Call::TimerRearm(role) => self.timer_rearmed(role),
            Call::TimerFire(id, role) => self.timer_fired(id, role),
            Call::WakeRegistration(role) => self.wake_registered(role),
            Call::DriverWake(id, role) => self.noted(
                id,
                role,
                LivenessKind::DriverWake,
                "driver-wake",
            ),
            Call::InboundWakes(id, role, woken) => self.inbound_woken(id, role, woken),
            Call::CapacityRegistration(id, role) => self.capacity_registered(id, role),
            Call::CapacityWakes(id, role, woken) => self.capacity_woken(id, role, woken),
            Call::Retry(id, role) => self.capacity_retried(id, role),
            Call::Park(id, role) => self.poll_parked(id, role),
            Call::InboundQueue(role, depth, dropped) => self.inbound_queued(role, depth, dropped),
            Call::OutboundQueue(role, depth, transition) => self.outbound_queued(
                role,
                depth,
                transition,
            ),
            Call::TerminalInventory(role, inbound, outbound) => self.terminated(
                role,
                inbound,
                outbound,
            ),
            _ => self,
        }
    }

    /// The same state once something was done. Nothing is recorded while unarmed.
    pub open spec fn after(self, call: Call) -> Self {
        match call {
            Call::Reset => self.after_reset(),
            Call::Arm(enabled) => DiagnosticsView { armed: enabled, ..self },
            Call::Limit(limit) => DiagnosticsView { staging_limit: limit, ..self },
            Call::Identity => DiagnosticsView {
                next_connection_id: saturated(self.next_connection_id, 1),
                overflowed: self.overflowed || saturates(self.next_connection_id, 1),
                ..self
            },
            Call::TakeAttempts => DiagnosticsView { attempts: Seq::empty(), ..self },
            Call::TakeLiveness => DiagnosticsView { liveness: Seq::empty(), ..self },
            Call::Drain => self.after_drain(),
            _ => if self.armed {
                self.recorded(call)
            } else {
                self
            },
        }
    }

    /// The same state once a run of things was done, in order.
    pub open spec fn after_all(self, calls: Seq<Call>) -> Self
        decreases calls.len(),
    {
        if calls.len() == 0 {
            self
        } else {
            self.after_all(calls.drop_last()).after(calls.last())
        }
    }
}

impl RoleSnapshot {
    /// Takes what was counted in this interval and starts the next one.
    fn drain_interval(&mut self) -> (taken: RoleSnapshot)
        ensures
            taken == *old(self),
            *final(self) == old(self).next_interval(),
    {
        let taken = *self;
        let mut next = RoleSnapshot::default();
        next.logical_retained_bytes = taken.logical_retained_bytes;
        next.logical_retained_high_water = taken.logical_retained_bytes;
        next.retained_backing_capacity = taken.retained_backing_capacity;
        next.retained_backing_high_water = taken.retained_backing_capacity;
        next.inbound_queue_depth = taken.inbound_queue_depth;
        next.inbound_queue_high_water = taken.inbound_queue_depth;
        next.outbound_queue_depth = taken.outbound_queue_depth;
        next.outbound_queue_high_water = taken.outbound_queue_depth;
        *self = next;
        taken
    }
}

/// Allocates an identity for one connection.
pub fn next_connection_id(state: &mut Diagnostics) -> (id: u64)
    ensures
        id == old(state)@.next_connection_id,
        final(state)@ == old(state)@.after(Call::Identity),
{
    let id: u64 = state.next_connection_id;
    let mut next: u64 = id;
    let mut overflowed: bool = state.overflowed;
    count(&mut next, &mut overflowed, 1);
    state.next_connection_id = next;
    state.overflowed = overflowed;
    id
}

/// Clears all observations and leaves diagnostics unarmed.
pub fn reset(state: &mut Diagnostics)
    ensures
        final(state)@ == old(state)@.after(Call::Reset),
{
    state.armed = false;
    state.client = RoleSnapshot::default();
    state.server = RoleSnapshot::default();
    state.overflowed = false;
    state.next_sequence = 1;
    state.staging_limit = u64::MAX;
    state.last_enabling.clear();
    state.zero_waiting.clear();
    state.attempts.clear();
    state.liveness.clear();
    assert(state@ =~= old(state)@.after_reset());
}

/// Enables or disables observation recording.
pub fn arm(state: &mut Diagnostics, enabled: bool)
    ensures
        final(state)@ == old(state)@.after(Call::Arm(enabled)),
{
    state.armed = enabled;
}

/// Whether recording is currently armed.
pub fn is_armed(state: &Diagnostics) -> (armed: bool)
    ensures
        armed == state@.armed,
{
    state.armed
}

/// Sets a stricter staging limit, or none.
pub fn set_test_staging_limit(state: &mut Diagnostics, limit: Option<usize>)
    ensures
        final(state)@ == old(state)@.after(
            Call::Limit(
                match limit {
                    Some(limit) => limit as u64,
                    None => u64::MAX,
                },
            ),
        ),
{
    state.staging_limit = match limit {
        Some(limit) => limit as u64,
        None => u64::MAX,
    };
}

/// The stricter staging limit, if one is set that is not the largest value.
pub fn test_staging_limit(state: &Diagnostics) -> (limit: Option<usize>)
    ensures
        match limit {
            Some(limit) => state@.staging_limit != u64::MAX && limit == (if state@.staging_limit
                <= usize::MAX {
                state@.staging_limit as usize
            } else {
                usize::MAX
            }),
            None => state@.staging_limit == u64::MAX,
        },
{
    if state.staging_limit == u64::MAX {
        None
    } else if state.staging_limit <= usize::MAX as u64 {
        Some(state.staging_limit as usize)
    } else {
        Some(usize::MAX)
    }
}

/// How much of a write may be staged at once: the path's payload limit, lowered by the
/// stricter limit where one is set.
pub fn staging_limit(state: &Diagnostics, payload_limit: usize) -> (limit: usize)
    ensures
        limit == (if state@.staging_limit < payload_limit && state@.staging_limit != u64::MAX {
            state@.staging_limit as usize
        } else {
            payload_limit
        }),
{
    match test_staging_limit(state) {
        Some(stricter) => if stricter < payload_limit {
            stricter
        } else {
            payload_limit
        },
        None => payload_limit,
    }
}

/// Returns current aggregate observations.
pub fn snapshot(state: &Diagnostics) -> (taken: Snapshot)
    ensures
        taken == (Snapshot {
            client: state@.client,
            server: state@.server,
            overflowed: state@.overflowed,
            retransmissions_available: false,
        }),
{
    Snapshot {
        client: state.client,
        server: state.server,
        overflowed: state.overflowed,
        retransmissions_available: false,
    }
}

/// Removes and returns stream-write attempts recorded since the previous call.
pub fn take_attempts(state: &mut Diagnostics) -> (attempts: Vec<Attempt>)
    ensures
        attempts@ == old(state)@.attempts,
        final(state)@ == old(state)@.after(Call::TakeAttempts),
{
    let mut attempts: Vec<Attempt> = Vec::new();
    std::mem::swap(&mut attempts, &mut state.attempts);
    attempts
}

/// Removes and returns liveness events recorded since the previous call.
pub fn take_liveness_events(state: &mut Diagnostics) -> (events: Vec<LivenessEvent>)
    ensures
        events@ == old(state)@.liveness,
        final(state)@ == old(state)@.after(Call::TakeLiveness),
{
    let mut events: Vec<LivenessEvent> = Vec::new();
    std::mem::swap(&mut events, &mut state.liveness);
    events
}

/// Exclusively drains one coherent interval.
///
/// Cumulative counters restart at zero. Live gauges keep their current values, and their
/// high-water marks start the next interval there.
pub fn drain(state: &mut Diagnostics) -> (drained: DrainedDiagnostics)
    ensures
        drained.snapshot == (Snapshot {
            client: old(state)@.client,
            server: old(state)@.server,
            overflowed: old(state)@.overflowed,
            retransmissions_available: false,
        }),
        drained.attempts@ == old(state)@.attempts,
        drained.liveness@ == old(state)@.liveness,
        final(state)@ == old(state)@.after(Call::Drain),
{
    let overflowed: bool = state.overflowed;
    let client = state.client.drain_interval();
    let server = state.server.drain_interval();
    state.overflowed = false;
    let attempts = take_attempts(state);
    let liveness = take_liveness_events(state);
    assert(state@ =~= old(state)@.after_drain());
    DrainedDiagnostics {
        snapshot: Snapshot { client, server, overflowed, retransmissions_available: false },
        attempts,
        liveness,
    }
}

/// Records what a connection retains, and what an acknowledgement or a close released.
pub fn record_retained(
    state: &mut Diagnostics,
    role: Role,
    logical: usize,
    backing: usize,
    acknowledged: u64,
    released_backing: usize,
)
    ensures
        final(state)@ == old(state)@.after(
            Call::Retained(
                role,
                logical as u64,
                backing as u64,
                acknowledged,
                released_backing as u64,
            ),
        ),
{
    if !state.armed {
        return;
    }
    let mut counters = state.of(role);
    let mut overflowed: bool = state.overflowed;
    counters.logical_retained_bytes = logical as u64;
    high_water(&mut counters.logical_retained_high_water, logical as u64);
    counters.retained_backing_capacity = backing as u64;
    high_water(&mut counters.retained_backing_high_water, backing as u64);
    count(&mut counters.acknowledged_bytes, &mut overflowed, acknowledged);
    count(&mut counters.released_backing_capacity, &mut overflowed, released_backing as u64);
    state.put(role, counters, overflowed);
}

/// Records bytes released back to their source after copying.
pub fn record_release(state: &mut Diagnostics, _connection_id: u64, role: Role, bytes: usize)
    ensures
        final(state)@ == old(state)@.after(Call::Release(role, bytes as u64)),
{
    if !state.armed {
        return;
    }
    let mut counters = state.of(role);
    let mut overflowed: bool = state.overflowed;
    count(&mut counters.release_event_bytes, &mut overflowed, bytes as u64);
    state.put(role, counters, overflowed);
}

/// Records one packet produced by the transport adapter.
pub fn record_packet(state: &mut Diagnostics, connection_id: u64, role: Role, stream_carrying: bool)
    ensures
        final(state)@ == old(state)@.after(Call::Packet(connection_id, role, stream_carrying)),
{
    if !state.armed {
        return;
    }
    let mut counters = state.of(role);
    let mut overflowed: bool = state.overflowed;
    count(&mut counters.produced_packets, &mut overflowed, 1);
    if stream_carrying {
        count(&mut counters.stream_carrying_packets, &mut overflowed, 1);
        state.put(role, counters, overflowed);
    } else {
        count(&mut counters.transport_only_packets, &mut overflowed, 1);
        state.put(role, counters, overflowed);
        state.note(connection_id, role, LivenessKind::LocalProduction, "transport-packet");
    }
}

/// Records replacement of the adapter's armed sleep.
pub fn record_timer_rearm(state: &mut Diagnostics, _connection_id: u64, role: Role)
    ensures
        final(state)@ == old(state)@.after(Call::TimerRearm(role)),
{
    if !state.armed {
        return;
    }
    let mut counters = state.of(role);
    let mut overflowed: bool = state.overflowed;
    count(&mut counters.timer_rearms, &mut overflowed, 1);
    state.put(role, counters, overflowed);
}

/// Records an adapter sleep resolving at its deadline.
pub fn record_timer_fire(state: &mut Diagnostics, connection_id: u64, role: Role)
    ensures
        final(state)@ == old(state)@.after(Call::TimerFire(connection_id, role)),
{
    if !state.armed {
        return;
    }
    let mut counters = state.of(role);
    let mut overflowed: bool = state.overflowed;
    count(&mut counters.timer_fires, &mut overflowed, 1);
    state.put(role, counters, overflowed);
    state.record_enabling(connection_id, role, "timer");
}

/// Records a new general connection-waker registration.
pub fn record_wake_registration(state: &mut Diagnostics, _connection_id: u64, role: Role)
    ensures
        final(state)@ == old(state)@.after(Call::WakeRegistration(role)),
{
    if !state.armed {
        return;
    }
    let mut counters = state.of(role);
    let mut overflowed: bool = state.overflowed;
    count(&mut counters.wake_registrations, &mut overflowed, 1);
    state.put(role, counters, overflowed);
}

/// Records a connection future being polled again after it parked.
pub fn record_driver_wake(state: &mut Diagnostics, connection_id: u64, role: Role)
    ensures
        final(state)@ == old(state)@.after(Call::DriverWake(connection_id, role)),
{
    if !state.armed {
        return;
    }
    state.note(connection_id, role, LivenessKind::DriverWake, "driver-wake");
}

/// Records how many waiters an inbound datagram woke.
pub fn record_inbound_wakes(state: &mut Diagnostics, connection_id: u64, role: Role, woken: usize)
    ensures
        final(state)@ == old(state)@.after(Call::InboundWakes(connection_id, role, woken as u64)),
{
    if !state.armed {
        return;
    }
    let mut counters = state.of(role);
    let mut overflowed: bool = state.overflowed;
    count(&mut counters.inbound_wakes, &mut overflowed, woken as u64);
    state.put(role, counters, overflowed);
    state.record_enabling(connection_id, role, "inbound-datagram");
}

/// Records a producer parking on a full queue.
pub fn record_capacity_registration(state: &mut Diagnostics, connection_id: u64, role: Role)
    ensures
        final(state)@ == old(state)@.after(Call::CapacityRegistration(connection_id, role)),
{
    if !state.armed {
        return;
    }
    let mut counters = state.of(role);
    let mut overflowed: bool = state.overflowed;
    count(&mut counters.capacity_registrations, &mut overflowed, 1);
    count(&mut counters.parks, &mut overflowed, 1);
    state.put(role, counters, overflowed);
    state.note(connection_id, role, LivenessKind::Park, "outbound-capacity");
}

/// Records how many producers a full queue woke on regaining room.
pub fn record_capacity_wakes(state: &mut Diagnostics, connection_id: u64, role: Role, woken: usize)
    ensures
        final(state)@ == old(state)@.after(Call::CapacityWakes(connection_id, role, woken as u64)),
{
    if !state.armed {
        return;
    }
    let mut counters = state.of(role);
    let mut overflowed: bool = state.overflowed;
    count(&mut counters.capacity_wakes, &mut overflowed, woken as u64);
    state.put(role, counters, overflowed);
    state.record_enabling(connection_id, role, "outbound-capacity");
}

/// Records an actual retry after an earlier full-queue park.
pub fn record_retry(state: &mut Diagnostics, connection_id: u64, role: Role)
    ensures
        final(state)@ == old(state)@.after(Call::Retry(connection_id, role)),
{
    if !state.armed {
        return;
    }
    let mut counters = state.of(role);
    let mut overflowed: bool = state.overflowed;
    count(&mut counters.retries, &mut overflowed, 1);
    state.put(role, counters, overflowed);
    let enabling: u64 = state.enabling_of(connection_id);
    let _ = state.push_liveness(
        LivenessEvent {
            sequence: 0,
            connection_id,
            role,
            kind: LivenessKind::Retry,
            reason: "outbound-capacity",
            attempt_sequence: None,
            parked_attempt_sequence: None,
            enabling_sequence: if enabling != 0 {
                Some(enabling)
            } else {
                None
            },
        },
    );
}

/// Records a connection poll parking without an immediately ready event.
pub fn record_park(state: &mut Diagnostics, connection_id: u64, role: Role)
    ensures
        final(state)@ == old(state)@.after(Call::Park(connection_id, role)),
{
    if !state.armed {
        return;
    }
    state.count_park(role);
    state.note(connection_id, role, LivenessKind::Park, "poll-idle");
}

/// Records the inbound queue's depth, and whether a datagram was dropped there.
pub fn record_inbound_queue(
    state: &mut Diagnostics,
    _connection_id: u64,
    role: Role,
    depth: usize,
    dropped: bool,
)
    ensures
        final(state)@ == old(state)@.after(Call::InboundQueue(role, depth as u64, dropped)),
{
    if !state.armed {
        return;
    }
    let mut counters = state.of(role);
    let mut overflowed: bool = state.overflowed;
    counters.inbound_queue_depth = depth as u64;
    high_water(&mut counters.inbound_queue_high_water, depth as u64);
    if dropped {
        count(&mut counters.inbound_drops, &mut overflowed, 1);
    }
    state.put(role, counters, overflowed);
}

/// Records the outbound queue's depth, and whether it just regained room.
pub fn record_outbound_queue(
    state: &mut Diagnostics,
    _connection_id: u64,
    role: Role,
    depth: usize,
    transition: bool,
)
    ensures
        final(state)@ == old(state)@.after(Call::OutboundQueue(role, depth as u64, transition)),
{
    if !state.armed {
        return;
    }
    let mut counters = state.of(role);
    let mut overflowed: bool = state.overflowed;
    counters.outbound_queue_depth = depth as u64;
    high_water(&mut counters.outbound_queue_high_water, depth as u64);
    if transition {
        count(&mut counters.outbound_capacity_transitions, &mut overflowed, 1);
    }
    state.put(role, counters, overflowed);
}

/// Records what was discarded when a connection was marked terminal.
pub fn record_terminal_inventory(
    state: &mut Diagnostics,
    role: Role,
    inbound_discarded: usize,
    outbound_discarded: usize,
)
    ensures
        final(state)@ == old(state)@.after(
            Call::TerminalInventory(role, inbound_discarded as u64, outbound_discarded as u64),
        ),
{
    if !state.armed {
        return;
    }
    let mut counters = state.of(role);
    let mut overflowed: bool = state.overflowed;
    counters.inbound_queue_depth = 0;
    count(&mut counters.terminal_discarded_inbound, &mut overflowed, inbound_discarded as u64);
    count(&mut counters.terminal_discarded_outbound, &mut overflowed, outbound_discarded as u64);
    state.put(role, counters, overflowed);
}

/// Records a datagram handed to a connection's owner, waking `woken` waiters, or dropped for
/// want of room.
pub fn delivered(state: &mut Diagnostics, shared: &ConnectionShared, kept: bool, woken: usize)
    ensures
        ({
            let role = shared@.role;
            let seen = old(state)@.after(
                Call::InboundQueue(role, shared@.inbound.len() as u64, !kept),
            );
            final(state)@ == (if kept {
                seen.after(Call::InboundWakes(shared@.diagnostic_id, role, woken as u64))
            } else {
                seen
            })
        }),
{
    let id: u64 = shared.diagnostic_id();
    let role = shared.role();
    record_inbound_queue(state, id, role, shared.inbound_len(), !kept);
    if kept {
        record_inbound_wakes(state, id, role, woken);
    }
}

/// Records a connection's owner looking for a datagram.
pub fn received(state: &mut Diagnostics, shared: &ConnectionShared)
    ensures
        final(state)@ == old(state)@.after(
            Call::InboundQueue(shared@.role, shared@.inbound.len() as u64, false),
        ),
{
    let id: u64 = shared.diagnostic_id();
    record_inbound_queue(state, id, shared.role(), shared.inbound_len(), false);
}

/// Records a producer beginning to wait for room.
pub fn parked(state: &mut Diagnostics, shared: &ConnectionShared)
    ensures
        final(state)@ == old(state)@.after(
            Call::CapacityRegistration(shared@.diagnostic_id, shared@.role),
        ),
{
    record_capacity_registration(state, shared.diagnostic_id(), shared.role());
}

/// Records a datagram queued to be sent.
pub fn queued(state: &mut Diagnostics, shared: &ConnectionShared)
    ensures
        final(state)@ == old(state)@.after(
            Call::OutboundQueue(shared@.role, shared@.outbound.len() as u64, false),
        ),
{
    let id: u64 = shared.diagnostic_id();
    record_outbound_queue(state, id, shared.role(), shared.outbound_len(), false);
}

/// Records the endpoint looking for a datagram to send, where `before` were queued, waking
/// `woken` producers. Only a full queue that shrank has regained room.
pub fn shipped(state: &mut Diagnostics, shared: &ConnectionShared, before: usize, woken: usize)
    ensures
        ({
            let role = shared@.role;
            let depth = shared@.outbound.len();
            let opened = before == DATAGRAM_QUEUE && depth < before;
            let seen = old(state)@.after(Call::OutboundQueue(role, depth as u64, opened));
            final(state)@ == (if opened {
                seen.after(Call::CapacityWakes(shared@.diagnostic_id, role, woken as u64))
            } else {
                seen
            })
        }),
{
    let id: u64 = shared.diagnostic_id();
    let role = shared.role();
    let depth: usize = shared.outbound_len();
    let opened: bool = before == DATAGRAM_QUEUE && depth < before;
    record_outbound_queue(state, id, role, depth, opened);
    if opened {
        record_capacity_wakes(state, id, role, woken);
    }
}

impl RoleSnapshot {
    /// No gauge stands above its high-water mark.
    pub open spec fn marks_hold(self) -> bool {
        &&& self.logical_retained_bytes <= self.logical_retained_high_water
        &&& self.retained_backing_capacity <= self.retained_backing_high_water
        &&& self.inbound_queue_depth <= self.inbound_queue_high_water
        &&& self.outbound_queue_depth <= self.outbound_queue_high_water
    }

    /// Every produced packet either carried stream data or did not.
    pub open spec fn packets_reconcile(self) -> bool {
        self.produced_packets == self.transport_only_packets + self.stream_carrying_packets
    }
}

impl DiagnosticsView {
    /// The marks hold for both roles, and until a counter saturates so does the packet
    /// reconciliation.
    pub open spec fn reconciled(self) -> bool {
        &&& self.client.marks_hold()
        &&& self.server.marks_hold()
        &&& !self.overflowed ==> self.client.packets_reconcile() && self.server.packets_reconcile()
    }

    /// The logs are numbered in order, by numbers that are used up.
    pub open spec fn sequenced(self) -> bool {
        logs_ascend(self.next_sequence, self.liveness, self.attempts)
    }
}

/// Both logs carry ascending sequence numbers, all of them below `next` and none of them in
/// both, as long as there are numbers left.
pub open spec fn logs_ascend(
    next: u64,
    liveness: Seq<LivenessEvent>,
    attempts: Seq<Attempt>,
) -> bool {
    next < u64::MAX ==> {
        &&& forall|i: int|
            0 <= i < liveness.len() ==> (#[trigger] liveness[i]).sequence < next
        &&& forall|i: int, j: int|
            #![trigger liveness[i], liveness[j]]
            0 <= i < j < liveness.len() ==> liveness[i].sequence < liveness[j].sequence
        &&& forall|i: int|
            0 <= i < attempts.len() ==> (#[trigger] attempts[i]).sequence < next
        &&& forall|i: int, j: int|
            #![trigger attempts[i], attempts[j]]
            0 <= i < j < attempts.len() ==> attempts[i].sequence < attempts[j].sequence
        &&& forall|i: int, j: int|
            #![trigger attempts[i], liveness[j]]
            0 <= i < attempts.len() && 0 <= j < liveness.len() ==> attempts[i].sequence
                != liveness[j].sequence
    }
}

/// What every recording but that of an attempt has in common: it logs one event or none,
/// leaves everything that is not counted alone, and keeps the counters reconciled.
#[verifier::opaque]
spec fn merely_counts(before: DiagnosticsView, after: DiagnosticsView) -> bool {
    &&& after.armed == before.armed
    &&& after.next_connection_id == before.next_connection_id
    &&& after.attempts == before.attempts
    &&& {
        ||| after.liveness == before.liveness && after.next_sequence == before.next_sequence
        ||| after.next_sequence == saturated(before.next_sequence, 1) && after.liveness
            == before.liveness.push(
            LivenessEvent { sequence: before.next_sequence, ..after.liveness.last() },
        )
    }
    &&& before.reconciled() ==> after.reconciled()
}

proof fn lemma_retained_merely_counts(
    state: DiagnosticsView,
    role: Role,
    logical: u64,
    backing: u64,
    acknowledged: u64,
    released: u64,
)
    ensures
        merely_counts(state, state.retained(role, logical, backing, acknowledged, released)),
{
    reveal(merely_counts);
}

proof fn lemma_release_merely_counts(state: DiagnosticsView, role: Role, bytes: u64)
    ensures
        merely_counts(state, state.released(role, bytes)),
{
    reveal(merely_counts);
}

proof fn lemma_packet_merely_counts(state: DiagnosticsView, id: u64, role: Role, carrying: bool)
    ensures
        merely_counts(state, state.produced(id, role, carrying)),
{
    reveal(merely_counts);
}

proof fn lemma_timer_rearm_merely_counts(state: DiagnosticsView, role: Role)
    ensures
        merely_counts(state, state.timer_rearmed(role)),
{
    reveal(merely_counts);
}

proof fn lemma_timer_fire_merely_counts(state: DiagnosticsView, id: u64, role: Role)
    ensures
        merely_counts(state, state.timer_fired(id, role)),
{
    reveal(merely_counts);
}

proof fn lemma_wake_registration_merely_counts(state: DiagnosticsView, role: Role)
    ensures
        merely_counts(state, state.wake_registered(role)),
{
    reveal(merely_counts);
}

proof fn lemma_driver_wake_merely_counts(state: DiagnosticsView, id: u64, role: Role)
    ensures
        merely_counts(state, state.noted(id, role, LivenessKind::DriverWake, "driver-wake")),
{
    reveal(merely_counts);
}

proof fn lemma_inbound_wakes_merely_counts(state: DiagnosticsView, id: u64, role: Role, woken: u64)
    ensures
        merely_counts(state, state.inbound_woken(id, role, woken)),
{
    reveal(merely_counts);
}

proof fn lemma_capacity_registration_merely_counts(state: DiagnosticsView, id: u64, role: Role)
    ensures
        merely_counts(state, state.capacity_registered(id, role)),
{
    reveal(merely_counts);
}

proof fn lemma_capacity_wakes_merely_counts(state: DiagnosticsView, id: u64, role: Role, woken: u64)
    ensures
        merely_counts(state, state.capacity_woken(id, role, woken)),
{
    reveal(merely_counts);
}

proof fn lemma_retry_merely_counts(state: DiagnosticsView, id: u64, role: Role)
    ensures
        merely_counts(state, state.capacity_retried(id, role)),
{
    reveal(merely_counts);
}

proof fn lemma_park_merely_counts(state: DiagnosticsView, id: u64, role: Role)
    ensures
        merely_counts(state, state.poll_parked(id, role)),
{
    reveal(merely_counts);
}

proof fn lemma_inbound_queue_merely_counts(
    state: DiagnosticsView,
    role: Role,
    depth: u64,
    dropped: bool,
)
    ensures
        merely_counts(state, state.inbound_queued(role, depth, dropped)),
{
    reveal(merely_counts);
}

proof fn lemma_outbound_queue_merely_counts(
    state: DiagnosticsView,
    role: Role,
    depth: u64,
    transition: bool,
)
    ensures
        merely_counts(state, state.outbound_queued(role, depth, transition)),
{
    reveal(merely_counts);
}

proof fn lemma_terminal_inventory_merely_counts(
    state: DiagnosticsView,
    role: Role,
    inbound: u64,
    outbound: u64,
)
    ensures
        merely_counts(state, state.terminated(role, inbound, outbound)),
{
    reveal(merely_counts);
}

/// Every recording but that of an attempt merely counts.
proof fn lemma_recordings_merely_count(state: DiagnosticsView, call: Call)
    requires
        !(call is Attempt),
    ensures
        merely_counts(state, state.recorded(call)),
{
    match call {
        Call::Retained(role, logical, backing, acknowledged, released) => lemma_retained_merely_counts(
            state,
            role,
            logical,
            backing,
            acknowledged,
            released,
        ),
        Call::Release(role, bytes) => lemma_release_merely_counts(
            state,
            role,
            bytes,
        ),
        Call::Packet(id, role, carrying) => lemma_packet_merely_counts(
            state,
            id,
            role,
            carrying,
        ),
        Call::TimerRearm(role) => lemma_timer_rearm_merely_counts(
            state,
            role,
        ),
        Call::TimerFire(id, role) => lemma_timer_fire_merely_counts(
            state,
            id,
            role,
        ),
        Call::WakeRegistration(role) => lemma_wake_registration_merely_counts(
            state,
            role,
        ),
        Call::DriverWake(id, role) => lemma_driver_wake_merely_counts(
            state,
            id,
            role,
        ),
        Call::InboundWakes(id, role, woken) => lemma_inbound_wakes_merely_counts(
            state,
            id,
            role,
            woken,
        ),
        Call::CapacityRegistration(id, role) => lemma_capacity_registration_merely_counts(
            state,
            id,
            role,
        ),
        Call::CapacityWakes(id, role, woken) => lemma_capacity_wakes_merely_counts(
            state,
            id,
            role,
            woken,
        ),
        Call::Retry(id, role) => lemma_retry_merely_counts(
            state,
            id,
            role,
        ),
        Call::Park(id, role) => lemma_park_merely_counts(
            state,
            id,
            role,
        ),
        Call::InboundQueue(role, depth, dropped) => lemma_inbound_queue_merely_counts(
            state,
            role,
            depth,
            dropped,
        ),
        Call::OutboundQueue(role, depth, transition) => lemma_outbound_queue_merely_counts(
            state,
            role,
            depth,
            transition,
        ),
        Call::TerminalInventory(role, inbound, outbound) => lemma_terminal_inventory_merely_counts(
            state,
            role,
            inbound,
            outbound,
        ),
        _ => reveal(merely_counts),
    }
}

/// Merely counting keeps the sequence numbers ascending.
proof fn lemma_counting_ascends(before: DiagnosticsView, after: DiagnosticsView)
    requires
        before.sequenced(),
        merely_counts(before, after),
    ensures
        after.sequenced(),
{
    reveal(merely_counts);
    lemma_event_ascends(
        before.next_sequence,
        before.liveness,
        before.attempts,
        after.liveness.last(),
    );
}

/// Merely counting keeps the attempts that are logged, and recording on.
proof fn lemma_counting_keeps_attempts(before: DiagnosticsView, after: DiagnosticsView)
    requires
        merely_counts(before, after),
    ensures
        after.attempts == before.attempts,
        after.armed == before.armed,
        after.next_sequence >= before.next_sequence,
{
    reveal(merely_counts);
}

/// Recording an attempt logs it, leaves identities and arming alone, and keeps the counters
/// reconciled.
proof fn lemma_attempt_is_logged(state: DiagnosticsView, attempt: Attempt)
    ensures
        state.attempted(attempt).armed == state.armed,
        state.attempted(attempt).next_connection_id == state.next_connection_id,
        state.attempted(attempt).next_sequence >= state.next_sequence,
        state.attempted(attempt).attempts == state.attempts.push(
            Attempt { sequence: state.next_sequence, ..attempt },
        ),
        state.reconciled() ==> state.attempted(attempt).reconciled(),
{
}

/// Everything that is done either merely counts, records an attempt, or is one of the few
/// things that say for themselves what they change.
proof fn lemma_done(state: DiagnosticsView, call: Call)
    ensures
        state.after(call).next_connection_id >= state.next_connection_id,
        state.reconciled() ==> state.after(call).reconciled(),
        match call {
            Call::Attempt(attempt) => state.after(call) == (if state.armed {
                state.attempted(attempt)
            } else {
                state
            }),
            Call::Reset | Call::Arm(_) | Call::Limit(_) | Call::Identity | Call::TakeAttempts
            | Call::TakeLiveness | Call::Drain => true,
            _ => merely_counts(state, state.after(call)),
        },
{
    reveal(merely_counts);
    if let Call::Attempt(attempt) = call {
        lemma_attempt_is_logged(state, attempt);
    } else {
        lemma_recordings_merely_count(state, call);
    }
}

/// Whatever is done, no gauge overtakes its high-water mark, and until a counter saturates
/// every produced packet is accounted for as one kind or the other.
pub proof fn law_observations_reconcile(state: DiagnosticsView, call: Call)
    requires
        state.reconciled(),
    ensures
        state.after(call).reconciled(),
{
    lemma_done(state, call);
}

/// That holds of every state there can be, because it holds of a fresh one.
pub proof fn law_every_state_reconciles(calls: Seq<Call>)
    ensures
        DiagnosticsView::fresh().after_all(calls).reconciled(),
    decreases calls.len(),
{
    if calls.len() > 0 {
        law_every_state_reconciles(calls.drop_last());
        law_observations_reconcile(
            DiagnosticsView::fresh().after_all(calls.drop_last()),
            calls.last(),
        );
    }
}

/// Nothing takes the next identity back, a reset included.
proof fn lemma_identities_never_go_back(state: DiagnosticsView, calls: Seq<Call>)
    ensures
        state.after_all(calls).next_connection_id >= state.next_connection_id,
    decreases calls.len(),
{
    if calls.len() > 0 {
        lemma_identities_never_go_back(state, calls.drop_last());
        lemma_done(state.after_all(calls.drop_last()), calls.last());
    }
}

/// Connection identities are never reused: whatever is done after one was allocated, resets
/// included, the next one allocated is larger, as long as there are any left.
pub proof fn law_identities_are_never_reused(state: DiagnosticsView, calls: Seq<Call>)
    requires
        state.next_connection_id < u64::MAX,
    ensures
        state.after(Call::Identity).after_all(calls).next_connection_id
            > state.next_connection_id,
{
    lemma_identities_never_go_back(state.after(Call::Identity), calls);
}

/// Recording an attempt keeps the sequence numbers ascending.
proof fn lemma_attempting_ascends(state: DiagnosticsView, attempt: Attempt)
    requires
        state.sequenced(),
    ensures
        state.attempted(attempt).sequenced(),
{
    let numbered = Attempt { sequence: state.next_sequence, ..attempt };
    let attempts = state.attempts.push(numbered);
    lemma_attempt_ascends(state.next_sequence, state.liveness, state.attempts, attempt);
    let counted = state.numbered().offered(numbered);
    let key = wait_key(numbered);
    let waits = state.zero_waiting.contains_key(key);
    let retry = LivenessEvent {
        sequence: 0,
        connection_id: numbered.connection_id,
        role: numbered.role,
        kind: LivenessKind::Retry,
        reason: "zero-accept",
        attempt_sequence: Some(numbered.sequence),
        parked_attempt_sequence: Some(state.zero_waiting[key]),
        enabling_sequence: counted.enabling_after(numbered.connection_id, state.zero_waiting[key]),
    };
    lemma_event_ascends(counted.next_sequence, counted.liveness, attempts, retry);
    let retried = if waits {
        counted.retried(numbered, state.zero_waiting[key])
    } else {
        counted
    };
    assert(logs_ascend(retried.next_sequence, retried.liveness, attempts));
    let park = LivenessEvent {
        sequence: 0,
        connection_id: numbered.connection_id,
        role: numbered.role,
        kind: LivenessKind::Park,
        reason: park_reason(numbered.outcome),
        attempt_sequence: Some(numbered.sequence),
        parked_attempt_sequence: None,
        enabling_sequence: None,
    };
    lemma_event_ascends(retried.next_sequence, retried.liveness, attempts, park);
}

/// One more event keeps the sequence numbers ascending.
proof fn lemma_event_ascends(
    next: u64,
    liveness: Seq<LivenessEvent>,
    attempts: Seq<Attempt>,
    event: LivenessEvent,
)
    requires
        logs_ascend(next, liveness, attempts),
    ensures
        logs_ascend(
            saturated(next, 1),
            liveness.push(LivenessEvent { sequence: next, ..event }),
            attempts,
        ),
{
}

/// One more attempt keeps the sequence numbers ascending.
proof fn lemma_attempt_ascends(
    next: u64,
    liveness: Seq<LivenessEvent>,
    attempts: Seq<Attempt>,
    attempt: Attempt,
)
    requires
        logs_ascend(next, liveness, attempts),
    ensures
        logs_ascend(
            saturated(next, 1),
            liveness,
            attempts.push(Attempt { sequence: next, ..attempt }),
        ),
{
}

/// Sequence numbers are handed out in order, whatever is done: events and attempts never share
/// or repeat one while there are numbers left.
pub proof fn law_sequences_ascend(state: DiagnosticsView, call: Call)
    requires
        state.sequenced(),
    ensures
        state.after(call).sequenced(),
{
    lemma_done(state, call);
    match call {
        Call::Attempt(attempt) => lemma_attempting_ascends(state, attempt),
        Call::Reset | Call::Arm(_) | Call::Limit(_) | Call::Identity | Call::TakeAttempts
        | Call::TakeLiveness | Call::Drain => {},
        _ => lemma_counting_ascends(state, state.after(call)),
    }
}

/// Whether doing something leaves the attempts recorded so far, and recording on.
pub open spec fn keeps_attempts(call: Call) -> bool {
    match call {
        Call::Reset => false,
        Call::Arm(enabled) => enabled,
        Call::TakeAttempts => false,
        Call::Drain => false,
        _ => true,
    }
}

/// The attempts some calls record, in order.
pub open spec fn attempts_of(calls: Seq<Call>) -> Seq<Attempt>
    decreases calls.len(),
{
    if calls.len() == 0 {
        Seq::empty()
    } else {
        let before = attempts_of(calls.drop_last());
        match calls.last() {
            Call::Attempt(attempt) => before.push(attempt),
            _ => before,
        }
    }
}

/// Whether a log holds some attempts, each with nothing but its sequence number replaced, by
/// one that is not zero.
pub open spec fn logs(log: Seq<Attempt>, attempts: Seq<Attempt>) -> bool {
    &&& log.len() == attempts.len()
    &&& forall|i: int|
        0 <= i < log.len() ==> (#[trigger] log[i]) == (Attempt {
            sequence: log[i].sequence,
            ..attempts[i]
        }) && log[i].sequence > 0
}

/// What is recorded from a cleared state on is logged, numbered in order and recording on.
proof fn lemma_attempts_are_logged(state: DiagnosticsView, calls: Seq<Call>)
    requires
        forall|i: int| 0 <= i < calls.len() ==> keeps_attempts(#[trigger] calls[i]),
    ensures
        ({
            let after = state.after(Call::Reset).after(Call::Arm(true)).after_all(calls);
            &&& after.armed
            &&& after.next_sequence > 0
            &&& after.sequenced()
            &&& logs(after.attempts, attempts_of(calls))
        }),
    decreases calls.len(),
{
    let armed = state.after(Call::Reset).after(Call::Arm(true));
    if calls.len() > 0 {
        let front = calls.drop_last();
        assert forall|i: int| 0 <= i < front.len() implies keeps_attempts(#[trigger] front[i]) by {
            assert(front[i] == calls[i]);
        }
        lemma_attempts_are_logged(state, front);
        let before = armed.after_all(front);
        assert(keeps_attempts(calls[calls.len() - 1]));
        law_sequences_ascend(before, calls.last());
        lemma_done(before, calls.last());
        match calls.last() {
            Call::Attempt(attempt) => lemma_attempt_is_logged(before, attempt),
            Call::Reset | Call::Arm(_) | Call::Limit(_) | Call::Identity | Call::TakeAttempts
            | Call::TakeLiveness | Call::Drain => {},
            _ => lemma_counting_keeps_attempts(before, before.after(calls.last())),
        }
    }
}

/// Attempts come out as they went in. After a reset and an arming, whatever else is recorded
/// in between, taking the attempts gives every one recorded since, in order, each with nothing
/// but its sequence number replaced, and those ascend from above zero while there are numbers
/// left. Taking them again gives none, and disturbs nothing else.
pub proof fn law_attempts_come_out_in_order(state: DiagnosticsView, calls: Seq<Call>)
    requires
        forall|i: int| 0 <= i < calls.len() ==> keeps_attempts(#[trigger] calls[i]),
    ensures
        ({
            let after = state.after(Call::Reset).after(Call::Arm(true)).after_all(calls);
            let taken = after.after(Call::TakeAttempts);
            &&& logs(after.attempts, attempts_of(calls))
            &&& after.next_sequence < u64::MAX ==> forall|i: int, j: int|
                #![trigger after.attempts[i], after.attempts[j]]
                0 <= i < j < after.attempts.len() ==> after.attempts[i].sequence
                    < after.attempts[j].sequence
            &&& taken.attempts.len() == 0
            &&& taken.after(Call::TakeAttempts) == taken
            &&& taken == (DiagnosticsView { attempts: Seq::empty(), ..after })
        }),
{
    lemma_attempts_are_logged(state, calls);
}

/// Producing output and being polled again do not make a retry meaningful: neither changes
/// when a connection was last enabled. A timer and a wake for room or for data do.
pub proof fn law_only_outside_events_enable_a_retry(
    state: DiagnosticsView,
    connection_id: u64,
    role: Role,
    attempt: Attempt,
    woken: u64,
    flag: bool,
)
    ensures
        state.produced(connection_id, role, flag).last_enabling == state.last_enabling,
        state.noted(connection_id, role, LivenessKind::DriverWake, "driver-wake").last_enabling
            == state.last_enabling,
        state.attempted(attempt).last_enabling == state.last_enabling,
        state.poll_parked(connection_id, role).last_enabling == state.last_enabling,
        state.timer_fired(connection_id, role).enabling_of(connection_id) == state.next_sequence,
        state.inbound_woken(connection_id, role, woken).enabling_of(connection_id)
            == state.next_sequence,
        state.capacity_woken(connection_id, role, woken).enabling_of(connection_id)
            == state.next_sequence,
{
}

/// A write waits by its connection, stream and offset together: an attempt on another
/// connection, stream or offset neither starts nor ends its wait, and is not a retry of it.
pub proof fn law_waits_do_not_cross_connections(
    state: DiagnosticsView,
    attempt: Attempt,
    other: WaitKey,
)
    requires
        wait_key(attempt) != other,
    ensures
        state.attempted(attempt).zero_waiting.contains_key(other)
            == state.zero_waiting.contains_key(other),
        state.zero_waiting.contains_key(other) ==> state.attempted(attempt).zero_waiting[other]
            == state.zero_waiting[other],
        !state.zero_waiting.contains_key(wait_key(attempt)) ==> state.attempted(attempt).of(
            attempt.role,
        ).zero_accept_retries == state.of(attempt.role).zero_accept_retries,
{
}

} // verus!
