//! What the driver promises: where a datagram goes, when a connection leaves, what its owner
//! is told, and what the engine is asked for.

use std::collections::VecDeque;

use vstd::prelude::*;

use crate::accept::DecodedHeader;
use crate::cid::ConnectionId;
use crate::endpoint::driver::{
    broken, engine_calls, has_completed, take_note, Absorbed, Delivery, EngineCall, Flush,
    FlushTask, Inner, Next, Notice, Produced, Rearm, Report, Wakes, Write, WritePlan, Wrote,
};
use crate::endpoint::error::{CauseView, CloseView, Error, ErrorKind};
use crate::endpoint::routes::routed_all;
use crate::endpoint::shared::{
    Command, CommandView, ConnectionShared, EndpointShared, Observed, RouteUpdate,
};
use crate::endpoint::socket::{Offer, Sent};
use crate::error::{CloseError, CloseReason};
use crate::packet::{ExpiryOutcome, ReadOutcome, WriteOutcome};
use crate::path::Address;
use crate::stream::StreamId;
use crate::stream_io::StreamWrite;
use crate::time::Timestamp;

verus! {

/// A packet whose header was read goes to the connection its destination identifier names,
/// whatever form the header has: long or short, of a version spoken here or not. A packet that
/// names nobody, or that could not be read, goes to nobody.
pub proof fn law_a_packet_reaches_whom_its_identifier_names(
    inner: Inner,
    header: DecodedHeader,
    target: Option<u64>,
)
    requires
        call_ensures(Inner::route, (&inner, &header), target),
    ensures
        ({
            let long = header.version != 0 || header.rc == -235;
            let read = (header.rc == 0 || header.rc == -235) && 1 <= header.dcid@.len() <= 20 && (
            long ==> 1 <= header.scid@.len() <= 20);
            &&& read && inner@.routes.contains_key(header.dcid@) ==> target == Some(
                inner@.routes[header.dcid@],
            )
            &&& !read || !inner@.routes.contains_key(header.dcid@) ==> target is None
        }),
{
}

/// Two packets that carry the same destination identifier reach the same connection, if both
/// could be read: nothing else about them matters.
pub proof fn law_only_the_destination_identifier_routes(
    inner: Inner,
    one: DecodedHeader,
    other: DecodedHeader,
    one_target: Option<u64>,
    other_target: Option<u64>,
)
    requires
        call_ensures(Inner::route, (&inner, &one), one_target),
        call_ensures(Inner::route, (&inner, &other), other_target),
        one.dcid@ == other.dcid@,
        1 <= one.dcid@.len() <= 20,
        one.rc == 0,
        other.rc == 0,
        1 <= one.scid@.len() <= 20 || one.version == 0,
        1 <= other.scid@.len() <= 20 || other.version == 0,
    ensures
        one_target == other_target,
{
}

/// A connection leaves the table exactly when it is over and nothing of it is left to send.
/// One that this endpoint drives is over once it is closed and drained, or closed and given
/// up; one that was handed over is over only once its owner says so. Its identifiers leave
/// with it, and nothing else does.
pub proof fn law_a_connection_leaves_once_it_is_over(inner: &mut Inner, reports: &[Report])
    requires
        call_ensures(Inner::evict, (inner, reports), ()),
    ensures
        ({
            let before = old(inner)@;
            let after = final(inner)@;
            &&& forall|index: u64| #[trigger]
                after.connections.contains_key(index) <==> {
                    &&& before.connections.contains_key(index)
                    &&& forall|i: int|
                        0 <= i < reports@.len() && (#[trigger] reports@[i]).index == index ==> (
                        if before.connections[index].attached {
                            ||| !reports@[i].closed
                            ||| before.connections[index].pending is Some
                            ||| !reports@[i].draining && !before.connections[index].finished
                        } else {
                            !reports@[i].terminal || reports@[i].outbound
                        })
                }
            &&& forall|index: u64| #[trigger]
                after.connections.contains_key(index) ==> after.connections[index]
                    == before.connections[index]
            &&& forall|id: Seq<u8>| #[trigger]
                after.routes.contains_key(id) ==> before.routes.contains_key(id)
                    && after.routes[id] == before.routes[id]
            &&& before.wf() ==> forall|id: Seq<u8>| #[trigger]
                before.routes.contains_key(id) ==> (after.routes.contains_key(id)
                    <==> after.connections.contains_key(before.routes[id]))
            &&& after.next_index == before.next_index
            &&& after.outbox == before.outbox
            &&& after.sleeping_until == before.sleeping_until
            &&& after.accepts == before.accepts
            &&& after.detachable == before.detachable
        }),
{
}

/// A connection that was handed over stays for as long as its owner has not said it is done,
/// and for as long as something it queued has not been sent.
pub proof fn law_a_connection_in_its_owners_hands_is_kept(
    inner: &mut Inner,
    reports: &[Report],
    index: u64,
)
    requires
        call_ensures(Inner::evict, (inner, reports), ()),
        old(inner)@.connections.contains_key(index),
        !old(inner)@.connections[index].attached,
        forall|i: int|
            0 <= i < reports@.len() && (#[trigger] reports@[i]).index == index
                ==> !reports@[i].terminal || reports@[i].outbound,
    ensures
        final(inner)@.connections.contains_key(index),
        final(inner)@.connections[index] == old(inner)@.connections[index],
        forall|id: Seq<u8>|
            old(inner)@.routes.contains_key(id) && old(inner)@.routes[id] == index
                ==> #[trigger] final(inner)@.routes.contains_key(id) && final(inner)@.routes[id]
                == index,
{
    law_a_connection_leaves_once_it_is_over(inner, reports);
}

/// A request to reset a stream asks the engine for that reset and for nothing else, and a
/// request to stop the peer sending asks for that and for nothing else, each with the code it
/// was made with.
pub proof fn law_resets_and_stops_are_what_was_asked(
    stream: StreamId,
    code: crate::error::ApplicationErrorCode,
    reset: Vec<EngineCall>,
    stopped: Vec<EngineCall>,
)
    requires
        call_ensures(engine_calls, (&Command::Reset(stream, code),), reset),
        call_ensures(engine_calls, (&Command::StopSending(stream, code),), stopped),
    ensures
        reset@ == seq![EngineCall::ResetStream(stream, code)],
        stopped@ == seq![EngineCall::StopSending(stream, code)],
{
}

/// Consumed bytes give credit back twice, on their stream and on the connection, by exactly
/// their number: either alone would leave the peer stuck in the other.
pub proof fn law_credit_goes_back_on_both_levels(
    stream: StreamId,
    bytes: u64,
    calls: Vec<EngineCall>,
)
    requires
        call_ensures(engine_calls, (&Command::ExtendCredit { stream, bytes },), calls),
    ensures
        calls@.len() == 2,
        calls@[0] == EngineCall::ExtendStream(stream, bytes),
        calls@[1] == EngineCall::ExtendConnection(bytes),
{
}

/// A request for a stream asks the engine for one of the kind wanted. Writes and closes are
/// not for the engine to be called with directly.
pub proof fn law_a_stream_is_opened_of_the_kind_wanted(
    bidi: bool,
    command: Command,
    opening: Vec<EngineCall>,
    others: Vec<EngineCall>,
)
    requires
        call_ensures(engine_calls, (&Command::OpenStream { bidi },), opening),
        call_ensures(engine_calls, (&command,), others),
        command is Write || command is Close,
    ensures
        opening@ == seq![EngineCall::OpenStream(bidi)],
        others@.len() == 0,
{
}

/// A connection that is taken in is driven from here, under a number nothing has had, with
/// nothing waiting to be sent; no other connection is touched, and nothing routes to it yet.
pub proof fn law_a_new_connection_displaces_nothing(
    inner: &mut Inner,
    remote: Address,
    shared: u64,
    index: u64,
)
    requires
        call_ensures(Inner::adopt, (inner, remote, shared), index),
        old(inner)@.wf(),
        old(inner)@.next_index < u64::MAX,
    ensures
        !old(inner)@.connections.contains_key(index),
        final(inner)@.connections.contains_key(index),
        ({
            let entry = final(inner)@.connections[index];
            &&& entry.attached && !entry.finished && entry.pending is None
            &&& entry.remote == remote && entry.shared == shared
        }),
        forall|other: u64| #[trigger]
            old(inner)@.connections.contains_key(other)
                ==> final(inner)@.connections.contains_key(other)
                && final(inner)@.connections[other] == old(inner)@.connections[other],
        forall|other: u64| #[trigger]
            final(inner)@.connections.contains_key(other) ==> other < final(inner)@.next_index,
        final(inner)@.routes == old(inner)@.routes,
        final(inner)@.outbox == old(inner)@.outbox,
{
}

/// Installing a connection's identifiers routes each of them, and the one it was addressed
/// by, to it. Every other identifier routes where it did.
pub proof fn law_every_identifier_of_a_connection_routes_to_it(
    inner: &mut Inner,
    index: u64,
    scids: Vec<ConnectionId>,
    scid: ConnectionId,
    id: Seq<u8>,
)
    requires
        call_ensures(Inner::install_routes, (inner, index, &scids, scid), ()),
        old(inner)@.connections.contains_key(index),
        old(inner)@.connections[index].attached,
    ensures
        ({
            let named = id == scid@ || exists|i: int|
                0 <= i < scids@.len() && (#[trigger] scids@[i])@ == id;
            if named {
                final(inner)@.routes.contains_key(id) && final(inner)@.routes[id] == index
            } else {
                &&& final(inner)@.routes.contains_key(id) == old(inner)@.routes.contains_key(id)
                &&& old(inner)@.routes.contains_key(id) ==> final(inner)@.routes[id]
                    == old(inner)@.routes[id]
            }
        }),
        final(inner)@.connections == old(inner)@.connections,
{
    lemma_routed(old(inner)@.routes, scids@, index, id);
}

/// Where identifiers that were all routed to one place lead.
proof fn lemma_routed(
    routes: Map<Seq<u8>, u64>,
    ids: Seq<ConnectionId>,
    target: u64,
    id: Seq<u8>,
)
    ensures
        ({
            let after = routed_all(routes, ids, target);
            if exists|i: int| 0 <= i < ids.len() && (#[trigger] ids[i])@ == id {
                after.contains_key(id) && after[id] == target
            } else {
                &&& after.contains_key(id) == routes.contains_key(id)
                &&& routes.contains_key(id) ==> after[id] == routes[id]
            }
        }),
    decreases ids.len(),
{
    if ids.len() > 0 {
        let front = ids.drop_last();
        lemma_routed(routes, front, target, id);
        if exists|i: int| 0 <= i < ids.len() && (#[trigger] ids[i])@ == id {
            let at = choose|i: int| 0 <= i < ids.len() && (#[trigger] ids[i])@ == id;
            if at < front.len() {
                assert(front[at]@ == id);
            }
        } else {
            assert(ids[ids.len() - 1]@ != id);
            assert forall|i: int| 0 <= i < front.len() implies (#[trigger] front[i])@ != id by {
                assert(front[i] == ids[i]);
            }
        }
    }
}

/// One more identifier of a connection routes to it, and every other where it did.
pub proof fn law_one_more_identifier_routes(
    inner: &mut Inner,
    index: u64,
    id: ConnectionId,
    other: Seq<u8>,
)
    requires
        call_ensures(Inner::install_route, (inner, index, id), ()),
    ensures
        final(inner)@.routes.contains_key(id@),
        final(inner)@.routes[id@] == index,
        other != id@ ==> {
            &&& final(inner)@.routes.contains_key(other) == old(inner)@.routes.contains_key(other)
            &&& old(inner)@.routes.contains_key(other) ==> final(inner)@.routes[other]
                == old(inner)@.routes[other]
        },
        final(inner)@.connections == old(inner)@.connections,
{
}

/// An identifier that a connection was given and has not retired since routes to it; one it
/// retired routes nowhere; one it never mentioned is left alone. Each change is acted on once.
pub proof fn law_routes_follow_identifier_changes(
    inner: &mut Inner,
    index: u64,
    shared: &mut ConnectionShared,
    id: Seq<u8>,
    last: int,
)
    requires
        call_ensures(Inner::apply_routes, (inner, index, shared), ()),
        old(inner)@.connections.contains_key(index),
        0 <= last < old(shared)@.routes.len(),
        match old(shared)@.routes[last] {
            RouteUpdate::Minted(named) => named@ == id,
            RouteUpdate::Retired(named) => named@ == id,
        },
        forall|later: int|
            last < later < old(shared)@.routes.len()
                ==> match #[trigger] old(shared)@.routes[later] {
                RouteUpdate::Minted(named) => named@ != id,
                RouteUpdate::Retired(named) => named@ != id,
            },
    ensures
        old(shared)@.routes[last] is Minted ==> final(inner)@.routes.contains_key(id)
            && final(inner)@.routes[id] == index,
        old(shared)@.routes[last] is Retired ==> !final(inner)@.routes.contains_key(id),
        final(inner)@.connections == old(inner)@.connections,
        final(shared)@.routes.len() == 0,
        final(shared)@.observed == old(shared)@.observed,
        final(shared)@.commands == old(shared)@.commands,
{
    crate::endpoint::routes::law_a_connection_follows_its_identifiers(
        old(inner)@.routes,
        old(shared)@.routes,
        index,
        id,
    );
    assert(crate::endpoint::routes::mentions(old(shared)@.routes, last, id));
    assert(crate::endpoint::routes::settles(old(shared)@.routes, last, id));
}

/// A datagram for a connection this endpoint drives is for the engine to read, and is queued
/// for nobody. One for a connection that was handed over is queued for its owner, whole and
/// behind those before it, and wakes the owner; where the queue is full it is dropped and
/// counted, and what is queued stays.
pub proof fn law_a_datagram_is_read_once(
    inner: Inner,
    index: u64,
    datagram: &[u8],
    shared: &mut ConnectionShared,
    delivery: Delivery,
)
    requires
        call_ensures(Inner::deliver, (&inner, index, datagram, shared), delivery),
    ensures
        ({
            let before = old(shared)@;
            let after = final(shared)@;
            if !inner@.connections.contains_key(index) {
                delivery is Unknown && after == before
            } else if inner@.connections[index].attached {
                delivery is Read && after == before
            } else if before.inbound.len() < 64 {
                &&& delivery matches Delivery::Queued(kept, woken) && kept && woken@
                    == before.wakers
                &&& after.inbound == before.inbound.push(datagram@)
                &&& after.wakers.len() == 0
                &&& after.dropped == before.dropped
                &&& after.observed == before.observed && after.commands == before.commands
            } else {
                &&& delivery matches Delivery::Queued(kept, woken) && !kept && woken@.len() == 0
                &&& after.inbound == before.inbound
                &&& after.wakers == before.wakers
                &&& before.dropped < u64::MAX ==> after.dropped == before.dropped + 1
            }
        }),
{
}

/// A connection is given to whoever asked for it only by an endpoint that can let go of it.
/// Otherwise it is given up, and its owner told so. A connection handed over to an acceptor
/// goes under the key zero, and one that was dialled under its own.
pub proof fn law_a_connection_is_handed_over_or_given_up(
    inner: &mut Inner,
    index: u64,
    shared: &mut ConnectionShared,
    result: Absorbed,
)
    requires
        call_ensures(Inner::hand_over, (inner, index, shared), result),
        old(inner)@.connections.contains_key(index),
        old(inner)@.connections[index].attached,
    ensures
        ({
            let before = old(inner)@.connections[index];
            let after = final(inner)@.connections[index];
            &&& old(inner)@.detachable ==> {
                &&& !after.attached && after.finished == before.finished
                &&& result.handed == Some(
                    if old(shared)@.detach_to_acceptor {
                        0
                    } else {
                        before.shared
                    },
                )
                &&& result.woken@.len() == 0
                &&& final(shared)@ == old(shared)@
            }
            &&& !old(inner)@.detachable ==> {
                &&& after.attached && after.finished
                &&& result.handed is None
                &&& result.woken@ == old(shared)@.wakers
                &&& final(shared)@.closed
                &&& old(shared)@.failure is None ==> final(shared)@.failure is Some && final(
                    shared)@.failure->Some_0.kind == ErrorKind::InvalidInput
            }
            &&& after.pending == before.pending && after.remote == before.remote
                && after.shared == before.shared
            &&& final(inner)@.routes == old(inner)@.routes
            &&& forall|other: u64|
                other != index && #[trigger] old(inner)@.connections.contains_key(other)
                    ==> final(inner)@.connections.contains_key(other)
                    && final(inner)@.connections[other] == old(inner)@.connections[other]
        }),
{
}

/// Acting on what was observed of a connection establishes it where the handshake completed,
/// takes note of what is retained for it, and wakes everyone waiting once. The observations
/// stay for its owner to see.
pub proof fn law_observations_establish_a_connection_and_wake_its_owner(
    inner: &mut Inner,
    index: u64,
    retained: u64,
    shared: &mut ConnectionShared,
    result: Absorbed,
)
    requires
        call_ensures(Inner::absorb, (inner, index, retained, shared), result),
        old(inner)@.connections.contains_key(index),
    ensures
        ({
            let before = old(shared)@;
            let after = final(shared)@;
            let attached = old(inner)@.connections[index].attached;
            if before.observed.len() == 0 {
                &&& after == before
                &&& final(inner)@ == old(inner)@
                &&& result.woken@.len() == 0 && result.handed is None
            } else {
                &&& after.observed == before.observed
                &&& after.established <==> before.established || exists|i: int|
                    0 <= i < before.observed.len() && (#[trigger] before.observed[i])
                        is HandshakeCompleted
                &&& after.retained == if attached {
                    retained
                } else {
                    before.retained
                }
                &&& result.woken@ == before.wakers && after.wakers.len() == 0
                &&& result.handed is Some <==> {
                    &&& attached && before.detach && after.established
                    &&& old(inner)@.detachable
                }
                &&& result.handed is Some ==> {
                    &&& !final(inner)@.connections[index].attached
                    &&& result.handed == Some(
                        if before.detach_to_acceptor {
                            0
                        } else {
                            old(inner)@.connections[index].shared
                        },
                    )
                }
                &&& !(attached && before.detach && after.established) ==> final(inner)@
                    == old(inner)@ && after.failure == before.failure && after.closed
                    == before.closed
                &&& attached && before.detach && after.established && !old(inner)@.detachable ==> {
                    &&& final(inner)@.connections[index].finished && after.closed
                    &&& before.failure is None ==> after.failure is Some
                        && after.failure->Some_0.kind == ErrorKind::InvalidInput
                }
                &&& after.commands == before.commands && after.inbound == before.inbound
                &&& after.outbound == before.outbound && after.routes == before.routes
            }
        }),
        final(inner)@.routes == old(inner)@.routes,
        final(inner)@.outbox == old(inner)@.outbox,
        forall|other: u64|
            other != index && #[trigger] old(inner)@.connections.contains_key(other)
                ==> final(inner)@.connections.contains_key(other)
                && final(inner)@.connections[other] == old(inner)@.connections[other],
{
}

/// A connection that is not in the table is not acted on.
pub proof fn law_nothing_is_observed_of_a_connection_that_is_gone(
    inner: &mut Inner,
    index: u64,
    retained: u64,
    shared: &mut ConnectionShared,
    result: Absorbed,
)
    requires
        call_ensures(Inner::absorb, (inner, index, retained, shared), result),
        !old(inner)@.connections.contains_key(index),
    ensures
        final(inner)@ == old(inner)@,
        final(shared)@ == old(shared)@,
        result.woken@.len() == 0,
        result.handed is None,
{
}

/// A packet the engine processed, with nothing observed by it, changes nothing and wakes
/// nobody. Any other answer ends the connection and wakes everyone waiting. A peer that closed
/// it is quoted, as a timeout where it was one, and the engine lets it drain; a connection the
/// engine wants rid of, or failed on, is finished with here.
pub proof fn law_reading_ends_a_connection_as_the_engine_says(
    inner: &mut Inner,
    index: u64,
    outcome: Result<ReadOutcome, crate::error::Error>,
    close: CloseError,
    retained: u64,
    shared: &mut ConnectionShared,
    result: Absorbed,
)
    requires
        call_ensures(Inner::read, (inner, index, outcome, close, retained, shared), result),
        old(inner)@.connections.contains_key(index),
        old(inner)@.connections[index].attached,
        !old(shared)@.detach,
    ensures
        ({
            let before = old(shared)@;
            let after = final(shared)@;
            let entry = old(inner)@.connections[index];
            let left = final(inner)@.connections[index];
            let processed = outcome is Ok && outcome->Ok_0 is Processed;
            &&& result.handed is None && left.attached
            &&& processed && before.observed.len() == 0 ==> {
                &&& after == before && final(inner)@ == old(inner)@
                &&& result.woken@.len() == 0
            }
            &&& processed ==> {
                &&& after.closed == before.closed && after.failure == before.failure
                &&& left.finished == entry.finished
            }
            &&& !processed ==> {
                &&& after.closed
                &&& result.woken@ == before.wakers && after.wakers.len() == 0
                &&& before.failure is Some ==> after.failure == before.failure
            }
            &&& outcome is Ok && (outcome->Ok_0 is Draining || outcome->Ok_0 is Closing) ==> {
                &&& left.finished == entry.finished
                &&& before.failure is None ==> {
                    &&& after.failure is Some
                    &&& after.failure->Some_0.kind == (if close.reason == CloseReason::IdleTimeout {
                        ErrorKind::IdleTimeout
                    } else {
                        ErrorKind::PeerClosed
                    })
                    &&& after.failure->Some_0.close == Some(
                        CloseView { reason: close.reason, phrase: close.phrase@ },
                    )
                }
            }
            &&& outcome is Ok && (outcome->Ok_0 is SendRetry || outcome->Ok_0 is DropSilently) ==> {
                &&& left.finished
                &&& before.failure is None ==> after.failure is Some && after.failure->Some_0.kind
                    == ErrorKind::Transport
            }
            &&& outcome is Err ==> left.finished
            &&& left.pending == entry.pending && left.remote == entry.remote
            &&& after.commands == before.commands && after.observed == before.observed
        }),
        final(inner)@.routes == old(inner)@.routes,
        final(inner)@.outbox == old(inner)@.outbox,
        forall|other: u64|
            other != index && #[trigger] old(inner)@.connections.contains_key(other)
                ==> final(inner)@.connections.contains_key(other)
                && final(inner)@.connections[other] == old(inner)@.connections[other],
{
}

/// A connection whose handshake completes by a packet is handed over at once where that was
/// asked for and is possible.
pub proof fn law_a_completed_handshake_hands_the_connection_over(
    inner: &mut Inner,
    index: u64,
    close: CloseError,
    retained: u64,
    shared: &mut ConnectionShared,
    result: Absorbed,
    at: int,
)
    requires
        call_ensures(
            Inner::read,
            (inner, index, Ok(ReadOutcome::Processed), close, retained, shared),
            result,
        ),
        old(inner)@.connections.contains_key(index),
        old(inner)@.connections[index].attached,
        old(inner)@.detachable,
        old(shared)@.detach,
        0 <= at < old(shared)@.observed.len(),
        old(shared)@.observed[at] is HandshakeCompleted,
    ensures
        final(shared)@.established,
        final(shared)@.failure == old(shared)@.failure,
        !final(inner)@.connections[index].attached,
        result.handed == Some(
            if old(shared)@.detach_to_acceptor {
                0
            } else {
                old(inner)@.connections[index].shared
            },
        ),
{
}

/// A failure of the engine's is reported by what it means to the caller. One of the
/// handshake's own, before the handshake is over, is a rejection; a refused argument and a
/// connection already closing keep their meaning; everything else is the transport's. The
/// engine's own failure is kept as the cause.
pub proof fn law_a_core_failure_is_reported_by_what_it_means(
    shared: ConnectionShared,
    core: crate::error::Error,
    error: Error,
)
    requires
        call_ensures(broken, (&shared, core), error),
    ensures
        ({
            let over = shared@.established || exists|i: int|
                0 <= i < shared@.observed.len() && (#[trigger] shared@.observed[i])
                    is HandshakeCompleted;
            &&& error@.kind == (match core@.kind {
                crate::error::ErrorKind::Crypto => if over {
                    ErrorKind::Transport
                } else {
                    ErrorKind::HandshakeRejected
                },
                crate::error::ErrorKind::InvalidInput => ErrorKind::InvalidInput,
                crate::error::ErrorKind::Closing => ErrorKind::LocallyClosed,
                _ => ErrorKind::Transport,
            })
            &&& error@.cause == Some(CauseView::Transport(core@))
            &&& error@.close is None && error@.stream_code is None
        }),
{
}

/// A timer that was serviced with nothing to report changes nothing. An idle connection is
/// reported as timed out, a terminal one as broken, a handshake that ran out of time as that
/// and not as a transport failure; in each case the connection is finished with, and everyone
/// waiting is woken.
pub proof fn law_an_expiry_ends_a_connection_as_the_engine_says(
    inner: &mut Inner,
    index: u64,
    outcome: Result<ExpiryOutcome, crate::error::Error>,
    close: CloseError,
    retained: u64,
    shared: &mut ConnectionShared,
    result: Absorbed,
)
    requires
        call_ensures(Inner::handle_expiry, (inner, index, outcome, close, retained, shared), result),
        old(inner)@.connections.contains_key(index),
        old(inner)@.connections[index].attached,
        !old(shared)@.detach,
    ensures
        ({
            let before = old(shared)@;
            let after = final(shared)@;
            let entry = old(inner)@.connections[index];
            let left = final(inner)@.connections[index];
            let handled = outcome is Ok && outcome->Ok_0 is Handled;
            let fresh = before.failure is None;
            &&& result.handed is None && left.attached
            &&& handled && before.observed.len() == 0 ==> {
                &&& after == before && final(inner)@ == old(inner)@
                &&& result.woken@.len() == 0
            }
            &&& handled ==> {
                &&& after.closed == before.closed && after.failure == before.failure
                &&& left.finished == entry.finished
            }
            &&& !handled ==> {
                &&& after.closed && left.finished
                &&& result.woken@ == before.wakers && after.wakers.len() == 0
                &&& !fresh ==> after.failure == before.failure
                &&& fresh ==> after.failure is Some
            }
            &&& fresh && outcome is Ok && outcome->Ok_0 is IdleClose ==> {
                &&& after.failure->Some_0.kind == (if close.reason == CloseReason::IdleTimeout {
                    ErrorKind::IdleTimeout
                } else {
                    ErrorKind::PeerClosed
                })
                &&& after.failure->Some_0.close == Some(
                    CloseView { reason: close.reason, phrase: close.phrase@ },
                )
            }
            &&& fresh && outcome is Ok && outcome->Ok_0 is Terminal ==> after.failure->Some_0.kind
                == ErrorKind::Transport
            &&& fresh && outcome is Err ==> {
                let error = outcome->Err_0;
                &&& error@.native == Some(-236int) ==> after.failure->Some_0.kind
                    == ErrorKind::HandshakeTimeout
                &&& error@.native != Some(-236int) ==> after.failure->Some_0.kind
                    != ErrorKind::HandshakeTimeout
            }
            &&& left.pending == entry.pending && left.remote == entry.remote
        }),
        final(inner)@.routes == old(inner)@.routes,
        forall|other: u64|
            other != index && #[trigger] old(inner)@.connections.contains_key(other)
                ==> final(inner)@.connections.contains_key(other)
                && final(inner)@.connections[other] == old(inner)@.connections[other],
{
}

/// Every notice of the engine's about a stream is kept, once, behind those before it, for the
/// owner to see; nothing else about the connection changes. Only one that raises the number of
/// streams wakes anyone.
pub proof fn law_a_notice_is_kept_as_it_came(
    notice: Notice,
    shared: &mut ConnectionShared,
    endpoint: &mut EndpointShared,
    wakes: Wakes,
)
    requires
        call_ensures(take_note, (notice, shared, endpoint), wakes),
        !(notice is NewConnectionId) && !(notice is RemoveConnectionId),
    ensures
        ({
            let before = old(shared)@;
            let after = final(shared)@;
            &&& after.observed.len() == before.observed.len() + 1
            &&& after.observed.drop_last() == before.observed
            &&& match notice {
                Notice::StreamData(id, bytes, fin) => after.observed.last() == Observed::Data(
                    id,
                    bytes,
                    fin,
                ),
                Notice::StreamOpen(id) => after.observed.last() == Observed::Opened(id),
                Notice::StreamClose(id, reason) => after.observed.last() == Observed::Closed(
                    id,
                    reason,
                ),
                Notice::StreamReset(id, code) => after.observed.last() == Observed::Reset(id, code),
                Notice::StopSending(id, code) => after.observed.last() == Observed::StopSending(
                    id,
                    code,
                ),
                Notice::AckedStreamData(id, len) => after.observed.last() == Observed::Acked(
                    id,
                    len,
                ),
                Notice::HandshakeCompleted => after.observed.last() is HandshakeCompleted,
                Notice::MaxLocalStreams(max) => after.observed.last()
                    == Observed::StreamsExtended(max),
                _ => false,
            }
            &&& if notice is MaxLocalStreams {
                wakes.tasks@ == before.wakers && after.wakers.len() == 0
            } else {
                wakes.tasks@.len() == 0 && after.wakers == before.wakers
            }
            &&& wakes.driver is None && final(endpoint)@ == old(endpoint)@
            &&& after.routes == before.routes && after.commands == before.commands
            &&& after.closed == before.closed && after.failure == before.failure
        }),
{
    assert(final(shared)@.observed.drop_last() =~= old(shared)@.observed);
}

/// An identifier the connection gained or gave up is noted for the driver, which is woken to
/// act on it; the owner is not troubled with it.
pub proof fn law_an_identifier_change_wakes_the_driver(
    notice: Notice,
    shared: &mut ConnectionShared,
    endpoint: &mut EndpointShared,
    wakes: Wakes,
)
    requires
        call_ensures(take_note, (notice, shared, endpoint), wakes),
        notice is NewConnectionId || notice is RemoveConnectionId,
    ensures
        match notice {
            Notice::NewConnectionId(id) => final(shared)@.routes == old(shared)@.routes.push(
                RouteUpdate::Minted(id),
            ),
            Notice::RemoveConnectionId(id) => final(shared)@.routes == old(shared)@.routes.push(
                RouteUpdate::Retired(id),
            ),
            _ => false,
        },
        wakes.tasks@.len() == 0,
        wakes.driver == old(endpoint)@.driver_waker,
        final(endpoint)@.driver_waker is None,
        final(shared)@.observed == old(shared)@.observed,
        final(shared)@.wakers == old(shared)@.wakers,
{
}

/// The requests of a connection this endpoint drives are carried out in the order they were
/// made, each once. One that it does not drive keeps them for its owner.
pub proof fn law_requests_are_taken_in_order(
    inner: Inner,
    index: u64,
    shared: &mut ConnectionShared,
    batch: VecDeque<Command>,
)
    requires
        call_ensures(Inner::begin_commands, (&inner, index, shared), batch),
    ensures
        ({
            let driven = inner@.connections.contains_key(index)
                && inner@.connections[index].attached;
            &&& driven ==> {
                &&& batch@.len() == old(shared)@.commands.len()
                &&& forall|i: int|
                    0 <= i < batch@.len() ==> (#[trigger] batch@[i])@ == old(shared)@.commands[i]
                &&& final(shared)@.commands.len() == 0
            }
            &&& !driven ==> batch@.len() == 0 && final(shared)@.commands == old(shared)@.commands
            &&& final(shared)@.observed == old(shared)@.observed
            &&& final(shared)@.closed == old(shared)@.closed
        }),
{
    if inner@.drives(index) {
        assert(crate::endpoint::shared::requests(batch@).len() == batch@.len());
        assert forall|i: int| 0 <= i < batch@.len() implies (#[trigger] batch@[i])@
            == old(shared)@.commands[i] by {
            assert(crate::endpoint::shared::requests(batch@)[i] == batch@[i]@);
        }
    }
}

/// The next request of a batch is the oldest one left. A batch ends with the connection: one
/// that a request made this endpoint let go of has no more carried out.
pub proof fn law_a_batch_ends_with_its_connection(
    inner: Inner,
    index: u64,
    batch: &mut VecDeque<Command>,
    command: Option<Command>,
)
    requires
        call_ensures(Inner::next_command, (&inner, index, batch), command),
    ensures
        ({
            let driven = inner@.connections.contains_key(index)
                && inner@.connections[index].attached;
            &&& !driven ==> command is None && final(batch)@.len() == 0
            &&& driven && old(batch)@.len() == 0 ==> command is None && final(batch)@.len() == 0
            &&& driven && old(batch)@.len() > 0 ==> {
                &&& command == Some(old(batch)@[0])
                &&& seq![old(batch)@[0]] + final(batch)@ == old(batch)@
            }
        }),
{
    if inner@.drives(index) && old(batch)@.len() > 0 {
        assert(seq![old(batch)@[0]] + final(batch)@ =~= old(batch)@);
    }
}

/// A write is offered to the engine only while the connection has no datagram waiting for the
/// socket; until then it goes back on the queue whole, and the driver is woken to try again.
/// What is offered is a prefix of one packet's worth at most, of at least one byte where there
/// is one, and carries the end of the stream only if it is all of the write.
pub proof fn law_a_write_is_offered_a_packet_at_a_time(
    inner: Inner,
    index: u64,
    write: Write,
    permitted: usize,
    shared: &mut ConnectionShared,
    endpoint: &mut EndpointShared,
    plan: WritePlan,
)
    requires
        call_ensures(Inner::write_stream, (&inner, index, write, permitted, shared, endpoint), plan),
        inner@.connections.contains_key(index),
    ensures
        ({
            let entry = inner@.connections[index];
            let total = write.data@.len();
            &&& entry.pending is Some ==> {
                &&& plan == WritePlan::Requeued(old(endpoint)@.driver_waker)
                &&& final(endpoint)@.driver_waker is None
                &&& final(shared)@.commands == old(shared)@.commands.push(
                    CommandView::Write(write.stream@, write.data@, write.fin),
                )
            }
            &&& entry.pending is None ==> {
                &&& final(shared)@ == old(shared)@ && final(endpoint)@ == old(endpoint)@
                &&& !entry.attached ==> plan is Dropped
                &&& entry.attached ==> (plan matches WritePlan::Offer { write: offered, len, last }
                    && {
                    &&& offered == write
                    &&& len <= total
                    &&& permitted > 0 ==> len <= permitted
                    &&& total > 0 ==> len > 0
                    &&& total <= permitted ==> len == total
                    &&& total > permitted > 0 ==> len == permitted
                    &&& total > 0 && permitted == 0 ==> len == 1
                    &&& last <==> write.fin && len == total
                })
            }
        }),
{
}

/// A stream that was opened is reported to whoever is waiting for one. Where there is no
/// credit for it the request is made again rather than failed; any other refusal ends the
/// connection.
pub proof fn law_opening_a_stream_reports_waits_or_fails(
    inner: &mut Inner,
    index: u64,
    bidi: bool,
    opened: Result<StreamId, crate::error::Error>,
    shared: &mut ConnectionShared,
    endpoint: &mut EndpointShared,
    wakes: Wakes,
)
    requires
        call_ensures(Inner::stream_opened, (inner, index, bidi, opened, shared, endpoint), wakes),
        old(inner)@.connections.contains_key(index),
    ensures
        ({
            let before = old(shared)@;
            let after = final(shared)@;
            let entry = old(inner)@.connections[index];
            let left = final(inner)@.connections[index];
            let blocked = opened is Err && opened->Err_0@.kind == crate::error::ErrorKind::Blocked;
            &&& opened matches Ok(id) ==> {
                &&& after.observed == before.observed.push(Observed::LocallyOpened(id))
                &&& wakes.tasks@ == before.wakers && after.wakers.len() == 0
                &&& wakes.driver is None && left == entry
                &&& after.commands == before.commands && after.closed == before.closed
            }
            &&& blocked ==> {
                &&& after.commands == before.commands.push(CommandView::OpenStream(bidi))
                &&& after.closed == before.closed && after.failure == before.failure
                &&& wakes.tasks@.len() == 0 && after.wakers == before.wakers
                &&& wakes.driver == old(endpoint)@.driver_waker
                &&& final(endpoint)@.driver_waker is None
                &&& left == entry
            }
            &&& opened is Err && !blocked ==> {
                &&& after.closed && left.finished
                &&& after.commands == before.commands
                &&& wakes.tasks@ == before.wakers && after.wakers.len() == 0
            }
        }),
        final(inner)@.routes == old(inner)@.routes,
        forall|other: u64|
            other != index && #[trigger] old(inner)@.connections.contains_key(other)
                ==> final(inner)@.connections.contains_key(other)
                && final(inner)@.connections[other] == old(inner)@.connections[other],
{
}

/// A write that made a datagram sends it where the connection's datagrams go. One the engine
/// had no room for goes back on the queue whole, and one that failed ends the connection.
pub proof fn law_a_write_makes_a_datagram_waits_or_fails(
    inner: &mut Inner,
    index: u64,
    write: Write,
    outcome: Result<StreamWrite, crate::error::Error>,
    shared: &mut ConnectionShared,
    endpoint: &mut EndpointShared,
    result: Wrote,
)
    requires
        call_ensures(Inner::wrote, (inner, index, write, outcome, shared, endpoint), result),
        old(inner)@.connections.contains_key(index),
    ensures
        ({
            let entry = old(inner)@.connections[index];
            let left = final(inner)@.connections[index];
            &&& outcome is Ok && outcome->Ok_0 is Datagram ==> {
                &&& result matches Wrote::Datagram {
                    write: made,
                    destination,
                    len,
                    accepted,
                } && made == write && destination == entry.remote && outcome->Ok_0
                    == (StreamWrite::Datagram { len, accepted })
                &&& final(shared)@ == old(shared)@ && left == entry
                &&& final(endpoint)@ == old(endpoint)@
            }
            &&& outcome is Ok && !(outcome->Ok_0 is Datagram) ==> {
                &&& result == Wrote::Requeued(old(endpoint)@.driver_waker)
                &&& final(endpoint)@.driver_waker is None
                &&& final(shared)@.commands == old(shared)@.commands.push(
                    CommandView::Write(write.stream@, write.data@, write.fin),
                )
                &&& final(shared)@.closed == old(shared)@.closed
                &&& left == entry
            }
            &&& outcome is Err ==> {
                &&& result matches Wrote::Failed(woken) && woken@ == old(shared)@.wakers
                &&& final(shared)@.closed && left.finished
                &&& final(shared)@.commands == old(shared)@.commands
            }
        }),
        final(inner)@.routes == old(inner)@.routes,
{
}

/// However much of a write the engine took, and whatever the socket made of the datagram, no
/// byte is lost or sent twice: what was not taken is asked for again, with the end of the
/// stream still to come, and a datagram the socket did not take is kept to be offered again.
pub proof fn law_what_a_write_leaves_over_is_written_next(
    inner: &mut Inner,
    index: u64,
    write: Write,
    accepted: usize,
    datagram: &[u8],
    offer: &Offer,
    held: u64,
    shared: &mut ConnectionShared,
    endpoint: &mut EndpointShared,
    driver: Option<u64>,
)
    requires
        call_ensures(
            Inner::write_offered,
            (inner, index, write, accepted, datagram, offer, held, shared, endpoint),
            driver,
        ),
        old(inner)@.connections.contains_key(index),
    ensures
        ({
            let entry = old(inner)@.connections[index];
            let left = final(inner)@.connections[index];
            let total = write.data@.len();
            &&& final(shared)@.retained == held
            &&& *offer == Offer::Answered(Sent::Complete) ==> left == entry
            &&& *offer != Offer::Answered(Sent::Complete) ==> left.pending == Some(datagram@)
                && left.finished == entry.finished && left.attached == entry.attached
            &&& accepted >= total ==> {
                &&& final(shared)@.commands == old(shared)@.commands
                &&& driver is None && final(endpoint)@ == old(endpoint)@
            }
            &&& accepted < total ==> {
                &&& final(shared)@.commands.len() == old(shared)@.commands.len() + 1
                &&& final(shared)@.commands.drop_last() == old(shared)@.commands
                &&& final(shared)@.commands.last() matches CommandView::Write(stream, rest, fin) && {
                    &&& stream == write.stream@ && fin == write.fin
                    &&& write.data@.take(accepted as int) + rest == write.data@
                }
                &&& driver == old(endpoint)@.driver_waker
                &&& final(endpoint)@.driver_waker is None
            }
            &&& final(shared)@.closed == old(shared)@.closed
        }),
        final(inner)@.routes == old(inner)@.routes,
{
    if accepted < write.data@.len() {
        assert(final(shared)@.commands.drop_last() =~= old(shared)@.commands);
        assert(write.data@.take(accepted as int) + write.data@.skip(accepted as int)
            =~= write.data@);
    }
}

/// Closing a connection finishes it, tells everyone waiting that it was closed here, and sends
/// the peer the close the engine wrote, if it wrote one: in the connection's own slot, or
/// behind the datagram already there.
pub proof fn law_a_close_is_sent_and_told(
    inner: &mut Inner,
    index: u64,
    written: Result<usize, crate::error::Error>,
    buffer: &[u8],
    shared: &mut ConnectionShared,
    woken: Vec<u64>,
)
    requires
        call_ensures(Inner::close_connection, (inner, index, written, buffer, shared), woken),
        old(inner)@.connections.contains_key(index),
    ensures
        ({
            let entry = old(inner)@.connections[index];
            let left = final(inner)@.connections[index];
            let says = entry.attached && written is Ok && written->Ok_0 > 0;
            &&& left.finished && left.attached == entry.attached && left.remote == entry.remote
            &&& final(shared)@.closed
            &&& old(shared)@.failure is None ==> final(shared)@.failure is Some
                && final(shared)@.failure->Some_0.kind == ErrorKind::LocallyClosed
            &&& woken@ == old(shared)@.wakers && final(shared)@.wakers.len() == 0
            &&& !says ==> left.pending == entry.pending && final(inner)@.outbox
                == old(inner)@.outbox
            &&& says && entry.pending is None ==> {
                &&& left.pending == Some(buffer@.take(written->Ok_0 as int))
                &&& final(inner)@.outbox == old(inner)@.outbox
            }
            &&& says && entry.pending is Some ==> {
                &&& left.pending == entry.pending
                &&& final(inner)@.outbox == old(inner)@.outbox.push(
                    (entry.remote, buffer@.take(written->Ok_0 as int)),
                )
            }
        }),
        final(inner)@.routes == old(inner)@.routes,
        forall|other: u64|
            other != index && #[trigger] old(inner)@.connections.contains_key(other)
                ==> final(inner)@.connections.contains_key(other)
                && final(inner)@.connections[other] == old(inner)@.connections[other],
{
}

/// A flush sends the answers that belong to no connection before it serves any connection, and
/// serves each one that is in the table, once.
pub proof fn law_a_flush_answers_first_and_serves_everyone_once(inner: Inner, flush: Flush)
    requires
        call_ensures(Inner::begin_flush, (&inner,), flush),
    ensures
        flush.answering,
        flush.at == 0,
        forall|i: int, j: int|
            0 <= i < j < flush.indices@.len() ==> flush.indices@[i] != flush.indices@[j],
        forall|index: u64|
            inner@.connections.contains_key(index) <==> #[trigger] flush.indices@.contains(index),
{
    assert forall|index: u64|
        inner@.connections.contains_key(index) <==> #[trigger] flush.indices@.contains(index) by {
        assert(flush.indices@.to_set().contains(index) == flush.indices@.contains(index));
        assert(inner@.connections.dom().contains(index) == inner@.connections.contains_key(index));
    }
}

/// What a flush does next follows from how far it has got: answers while it is answering, then
/// the connection at hand, then nothing.
pub proof fn law_a_flush_does_what_is_next(flush: Flush, task: FlushTask)
    requires
        call_ensures(Flush::task, (&flush,), task),
    ensures
        task is Answer <==> flush.answering,
        !flush.answering && flush.at < flush.indices@.len() ==> task == FlushTask::Serve(
            flush.indices@[flush.at as int],
        ),
        task is Done <==> !flush.answering && flush.at >= flush.indices@.len(),
{
}

/// Answers leave in the order they were made, each to where it was addressed, and nobody's
/// connection is touched by them.
pub proof fn law_answers_leave_in_order(
    inner: &mut Inner,
    destination: Address,
    datagram: Vec<u8>,
)
    requires
        call_ensures(Inner::answer, (inner, destination, datagram), ()),
    ensures
        final(inner)@.outbox.len() == old(inner)@.outbox.len() + 1,
        final(inner)@.outbox.last() == (destination, datagram@),
        final(inner)@.outbox.drop_last() == old(inner)@.outbox,
        final(inner)@.connections == old(inner)@.connections,
        final(inner)@.routes == old(inner)@.routes,
{
    assert(final(inner)@.outbox.drop_last() =~= old(inner)@.outbox);
}

/// The next answer is the oldest one, and is gone from the outbox once taken. With none left
/// the flush turns to the connections.
pub proof fn law_the_oldest_answer_is_next(
    inner: &mut Inner,
    flush: &mut Flush,
    answer: Option<(Address, Vec<u8>)>,
)
    requires
        call_ensures(Inner::next_answer, (inner, flush), answer),
    ensures
        ({
            let before = old(inner)@.outbox;
            &&& before.len() == 0 ==> answer is None && !final(flush).answering
            &&& before.len() > 0 ==> {
                &&& answer matches Some(taken) && (taken.0, taken.1@) == before[0]
                &&& seq![before[0]] + final(inner)@.outbox == before
                &&& final(flush).answering == old(flush).answering
            }
            &&& final(flush).indices == old(flush).indices && final(flush).at == old(flush).at
            &&& final(inner)@.connections == old(inner)@.connections
        }),
{
    if old(inner)@.outbox.len() > 0 {
        assert(seq![old(inner)@.outbox[0]] + final(inner)@.outbox =~= old(inner)@.outbox);
    }
}

/// An answer the socket did not take goes back to the front, ahead of every other, and no more
/// are tried in this flush. One it took is gone. A socket that failed fails the flush.
pub proof fn law_an_answer_not_taken_is_next_again(
    inner: &mut Inner,
    flush: &mut Flush,
    destination: Address,
    datagram: Vec<u8>,
    offer: Offer,
    result: Result<(), Error>,
)
    requires
        call_ensures(Inner::answer_offered, (inner, flush, destination, datagram, offer), result),
    ensures
        ({
            let before = old(inner)@.outbox;
            let after = final(inner)@.outbox;
            &&& offer == Offer::Answered(Sent::Complete) ==> {
                &&& result is Ok && after == before
                &&& *final(flush) == *old(flush)
            }
            &&& offer == Offer::Answered(Sent::WouldBlock) || offer is Pending ==> {
                &&& result is Ok
                &&& after.len() == before.len() + 1 && after[0] == (destination, datagram@)
                &&& after.skip(1) == before
                &&& !final(flush).answering
                &&& final(flush).indices == old(flush).indices && final(flush).at == old(flush).at
            }
            &&& offer matches Offer::Failed(words) ==> {
                &&& result is Err && result->Err_0@.kind == ErrorKind::Socket
                &&& result->Err_0@.cause == Some(CauseView::Socket(words@))
                &&& after == before
            }
            &&& final(inner)@.connections == old(inner)@.connections
        }),
{
    if offer.refused() {
        assert(final(inner)@.outbox.skip(1) =~= old(inner)@.outbox);
    }
}

/// The datagram that waited longest goes first: the one the socket refused, then those queued
/// by an owner in the order they were queued, then whatever the engine writes. Each goes where
/// the connection's datagrams go, and leaves its queue as it goes. A connection that was handed
/// over is never written for.
pub proof fn law_the_oldest_datagram_goes_first(
    inner: &mut Inner,
    flush: &mut Flush,
    shared: &mut ConnectionShared,
    next: Next,
    index: u64,
)
    requires
        call_ensures(Inner::next_datagram, (inner, flush, shared), next),
        !old(flush).answering,
        old(flush).at < old(flush).indices@.len(),
        index == old(flush).indices@[old(flush).at as int],
        old(inner)@.connections.contains_key(index),
    ensures
        ({
            let entry = old(inner)@.connections[index];
            let left = final(inner)@.connections[index];
            let queued = old(shared)@.outbound;
            &&& entry.pending matches Some(waiting) ==> {
                &&& next matches Next::Send(to, datagram, woken) && to == entry.remote
                    && datagram@ == waiting && woken@.len() == 0
                &&& left.pending is None && final(shared)@ == old(shared)@
            }
            &&& entry.pending is None && queued.len() > 0 ==> {
                &&& next matches Next::Send(to, datagram, woken) && to == entry.remote
                    && datagram@ == queued[0] && (queued.len() == 64 ==> woken@
                        == old(shared)@.capacity_wakers) && (queued.len() != 64
                        ==> woken@.len() == 0)
                &&& seq![queued[0]] + final(shared)@.outbound == queued
                &&& left == entry
            }
            &&& entry.pending is None && queued.len() == 0 ==> {
                &&& entry.attached ==> next == Next::Write(entry.remote)
                &&& !entry.attached ==> next is Nothing
                &&& left == entry && final(shared)@ == old(shared)@
            }
            &&& next is Nothing ==> final(flush).at == old(flush).at + 1
            &&& !(next is Nothing) ==> final(flush).at == old(flush).at
            &&& final(flush).indices == old(flush).indices && !final(flush).answering
            &&& final(inner)@.routes == old(inner)@.routes
            &&& final(shared)@.inbound == old(shared)@.inbound
        }),
{
    if old(inner)@.connections[index].pending is None && old(shared)@.outbound.len() > 0 {
        assert(seq![old(shared)@.outbound[0]] + final(shared)@.outbound
            =~= old(shared)@.outbound);
    }
}

/// A connection the engine wrote a datagram for is asked again; one that has nothing more, or
/// that is blocked, is passed over without harm; one the engine failed on is finished with and
/// its owner told.
pub proof fn law_a_connection_is_served_until_it_has_nothing(
    inner: &mut Inner,
    flush: &mut Flush,
    outcome: Result<WriteOutcome, crate::error::Error>,
    shared: &mut ConnectionShared,
    result: (Option<usize>, Vec<u64>),
    index: u64,
)
    requires
        call_ensures(Inner::datagram_written, (inner, flush, outcome, shared), result),
        !old(flush).answering,
        old(flush).at < old(flush).indices@.len(),
        index == old(flush).indices@[old(flush).at as int],
        old(inner)@.connections.contains_key(index),
    ensures
        ({
            let entry = old(inner)@.connections[index];
            let left = final(inner)@.connections[index];
            &&& outcome matches Ok(WriteOutcome::Datagram { len }) ==> {
                &&& result.0 == Some(len) && result.1@.len() == 0
                &&& final(flush).at == old(flush).at
                &&& left == entry && final(shared)@ == old(shared)@
            }
            &&& outcome is Ok && !(outcome->Ok_0 is Datagram) ==> {
                &&& result.0 is None && result.1@.len() == 0
                &&& final(flush).at == old(flush).at + 1
                &&& left == entry && final(shared)@ == old(shared)@
            }
            &&& outcome is Err ==> {
                &&& result.0 is None && result.1@ == old(shared)@.wakers
                &&& final(flush).at == old(flush).at + 1
                &&& left.finished && final(shared)@.closed && final(shared)@.wakers.len() == 0
                &&& left.pending == entry.pending && left.attached == entry.attached
            }
            &&& final(flush).indices == old(flush).indices
                && final(flush).answering == old(flush).answering
            &&& final(inner)@.routes == old(inner)@.routes
            &&& final(inner)@.outbox == old(inner)@.outbox
        }),
{
}

/// A datagram the socket did not take is kept whole for its connection, to be the next one it
/// sends, and the flush turns to the next connection. One it took leaves nothing behind.
pub proof fn law_a_datagram_not_taken_waits_for_the_socket(
    inner: &mut Inner,
    flush: &mut Flush,
    produced: Produced,
    buffer: &[u8],
    offer: Offer,
    result: Result<(), Error>,
    index: u64,
)
    requires
        call_ensures(Inner::datagram_offered, (inner, flush, produced, buffer, offer), result),
        !old(flush).answering,
        old(flush).at < old(flush).indices@.len(),
        index == old(flush).indices@[old(flush).at as int],
        old(inner)@.connections.contains_key(index),
    ensures
        ({
            let entry = old(inner)@.connections[index];
            let left = final(inner)@.connections[index];
            &&& offer == Offer::Answered(Sent::Complete) ==> {
                &&& result is Ok && left == entry
                &&& final(flush).at == old(flush).at
            }
            &&& offer == Offer::Answered(Sent::WouldBlock) || offer is Pending ==> {
                &&& result is Ok
                &&& left.pending == Some(
                    match produced {
                        Produced::InBuffer(len) => buffer@.take(len as int),
                        Produced::Owned(datagram) => datagram@,
                    },
                )
                &&& left.finished == entry.finished && left.attached == entry.attached
                &&& final(flush).at == old(flush).at + 1
            }
            &&& offer matches Offer::Failed(words) ==> {
                &&& result is Err && result->Err_0@.kind == ErrorKind::Socket
                &&& result->Err_0@.cause == Some(CauseView::Socket(words@))
                &&& left == entry && final(flush).at == old(flush).at
            }
            &&& final(flush).indices == old(flush).indices
            &&& final(inner)@.routes == old(inner)@.routes
        }),
{
}

/// The driver has something waiting for the socket exactly when an answer is left or some
/// connection's datagram was refused.
pub proof fn law_the_driver_knows_what_waits_for_the_socket(inner: Inner, waiting: bool)
    requires
        call_ensures(Inner::has_pending, (&inner,), waiting),
    ensures
        inner@.outbox.len() > 0 ==> waiting,
        forall|index: u64| #[trigger]
            inner@.connections.contains_key(index) && inner@.connections[index].pending is Some
                ==> waiting,
        waiting && inner@.outbox.len() == 0 ==> exists|index: u64| #[trigger]
            inner@.connections.contains_key(index) && inner@.connections[index].pending is Some,
{
}

/// A timer is serviced once its deadline has come, for a connection this endpoint drives, and
/// never before.
pub proof fn law_a_timer_is_due_once_its_deadline_has_come(
    inner: Inner,
    index: u64,
    expiry: Option<Timestamp>,
    now: Timestamp,
    due: bool,
)
    requires
        call_ensures(Inner::expiry_is_due, (&inner, index, expiry, now), due),
        inner@.connections.contains_key(index),
    ensures
        !inner@.connections[index].attached ==> !due,
        inner@.connections[index].attached ==> (expiry matches Some(at) ==> (due <==> at@
            <= now@)),
        expiry is None ==> !due,
{
}

/// The timer is armed for the earliest deadline of any connection still driven here that is not
/// over, and for none of the others.
pub proof fn law_the_earliest_deadline_is_waited_for(
    inner: Inner,
    deadlines: &[(u64, Timestamp)],
    earliest: Option<Timestamp>,
    i: int,
)
    requires
        call_ensures(Inner::earliest_expiry, (&inner, deadlines), earliest),
        0 <= i < deadlines@.len(),
        inner@.connections.contains_key(deadlines@[i].0),
        inner@.connections[deadlines@[i].0].attached,
        !inner@.connections[deadlines@[i].0].finished,
    ensures
        earliest is Some,
        earliest->Some_0@ <= deadlines@[i].1@,
        exists|j: int|
            {
                &&& 0 <= j < deadlines@.len()
                &&& (#[trigger] deadlines@[j]).1 == earliest->Some_0
                &&& inner@.connections.contains_key(deadlines@[j].0)
                &&& inner@.connections[deadlines@[j].0].attached
                &&& !inner@.connections[deadlines@[j].0].finished
            },
{
    assert(crate::endpoint::driver::minds(inner@, deadlines@[i]));
    assert(crate::endpoint::driver::minded(inner@, deadlines@));
    let at = earliest->Some_0;
    let j = choose|j: int|
        0 <= j < deadlines@.len() && crate::endpoint::driver::minds(
            inner@,
            #[trigger] deadlines@[j],
        ) && deadlines@[j].1 == at;
    assert(deadlines@[j].1 == at);
}

/// With nobody left to wait for, the timer is left alone.
pub proof fn law_no_deadline_is_waited_for_in_vain(
    inner: Inner,
    deadlines: &[(u64, Timestamp)],
    earliest: Option<Timestamp>,
)
    requires
        call_ensures(Inner::earliest_expiry, (&inner, deadlines), earliest),
        forall|i: int|
            0 <= i < deadlines@.len() ==> {
                ||| !inner@.connections.contains_key((#[trigger] deadlines@[i]).0)
                ||| !inner@.connections[deadlines@[i].0].attached
                ||| inner@.connections[deadlines@[i].0].finished
            },
    ensures
        earliest is None,
{
}

/// Rearming leaves the timer at the deadline given: it is touched only where it stands
/// elsewhere, and is disarmed where there is none.
pub proof fn law_rearming_leaves_the_timer_at_the_deadline(
    inner: &mut Inner,
    earliest: Option<Timestamp>,
    rearm: Rearm,
)
    requires
        call_ensures(Inner::rearm, (inner, earliest), rearm),
    ensures
        final(inner)@.sleeping_until == earliest,
        earliest is None ==> rearm is Disarm,
        earliest is Some && old(inner)@.sleeping_until == earliest ==> rearm is Keep,
        earliest is Some && old(inner)@.sleeping_until != earliest ==> rearm == Rearm::Arm(
            earliest->Some_0,
        ),
        final(inner)@.connections == old(inner)@.connections,
        final(inner)@.routes == old(inner)@.routes,
{
}

/// A timer that fired is armed no longer, and one that did not stays armed.
pub proof fn law_a_fired_timer_is_disarmed(inner: &mut Inner, ready: bool, fired: bool)
    requires
        call_ensures(Inner::slept, (inner, ready), fired),
    ensures
        fired == ready,
        ready ==> final(inner)@.sleeping_until is None,
        !ready ==> final(inner)@.sleeping_until == old(inner)@.sleeping_until,
        final(inner)@.connections == old(inner)@.connections,
        final(inner)@.routes == old(inner)@.routes,
{
}

/// A driver starts with nobody to answer for, and says of itself what it was made as.
pub proof fn law_a_new_driver_is_empty(accepts: bool, detachable: bool, inner: Inner)
    requires
        call_ensures(Inner::new, (accepts, detachable), inner),
    ensures
        forall|index: u64| !(#[trigger] inner@.connections.contains_key(index)),
        forall|id: Seq<u8>| !(#[trigger] inner@.routes.contains_key(id)),
        inner@.outbox.len() == 0,
        inner@.sleeping_until is None,
        inner@.accepts == accepts,
        inner@.detachable == detachable,
{
}

/// What the driver says of a connection is what its table holds.
pub proof fn law_the_driver_knows_its_connections(
    inner: Inner,
    index: u64,
    known: bool,
    driven: bool,
    accepts: bool,
)
    requires
        call_ensures(Inner::tracks, (&inner, index), known),
        call_ensures(Inner::drives, (&inner, index), driven),
        call_ensures(Inner::accepts, (&inner,), accepts),
    ensures
        known <==> inner@.connections.contains_key(index),
        driven <==> known && inner@.connections[index].attached,
        accepts == inner@.accepts,
{
}

/// A handshake is over exactly when its completion is among what was observed.
pub proof fn law_a_handshake_is_over_once_observed(observed: Vec<Observed>, completed: bool)
    requires
        call_ensures(has_completed, (&observed,), completed),
    ensures
        completed ==> exists|i: int|
            0 <= i < observed@.len() && (#[trigger] observed@[i]) is HandshakeCompleted,
        forall|i: int|
            0 <= i < observed@.len() && (#[trigger] observed@[i]) is HandshakeCompleted
                ==> completed,
{
}

/// Every connection is listed, once.
pub proof fn law_every_connection_is_listed_once(inner: Inner, indices: Vec<u64>, index: u64)
    requires
        call_ensures(Inner::indices, (&inner,), indices),
    ensures
        indices@.contains(index) <==> inner@.connections.contains_key(index),
        forall|i: int, j: int|
            0 <= i < j < indices@.len() ==> #[trigger] indices@[i] != #[trigger] indices@[j],
{
    assert(indices@.to_set().contains(index) == indices@.contains(index));
}

/// A connection that is gone has nothing to send, and its turn passes with nothing changed.
pub proof fn law_a_connection_that_is_gone_sends_nothing(
    inner: &mut Inner,
    flush: &mut Flush,
    shared: &mut ConnectionShared,
    next: Next,
    index: u64,
)
    requires
        call_ensures(Inner::next_datagram, (inner, flush, shared), next),
        !old(flush).answering,
        old(flush).at < old(flush).indices@.len(),
        index == old(flush).indices@[old(flush).at as int],
        !old(inner)@.connections.contains_key(index),
    ensures
        next is Nothing,
        final(inner)@ == old(inner)@ && final(shared)@ == old(shared)@,
        final(flush).at == old(flush).at + 1,
        final(flush).indices == old(flush).indices,
{
}

} // verus!
