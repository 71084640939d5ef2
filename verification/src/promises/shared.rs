//! What the state a handle and the driver share promises both: that nothing said is lost,
//! reordered or said twice, and that whoever waits is woken.

use std::collections::VecDeque;

use vstd::prelude::*;

use crate::cid::ConnectionId;
use crate::endpoint::error::{CloseView, Error, ErrorKind};
use crate::endpoint::routes::{routed_all, Routes};
use crate::endpoint::shared::{
    registered, Command, ConnectionShared, Dial, EndpointShared, EndpointView, Observed, Progress,
    RouteUpdate, SharedView,
};
use crate::error::{CloseError, CloseReason};
use crate::tls::Role;

verus! {

/// The first failure of a connection is the one reported, and stays so; whatever fails it, it
/// is over, and everyone waiting is woken once.
pub proof fn law_a_failure_ends_a_connection(
    shared: &mut ConnectionShared,
    error: Error,
    woken: Vec<u64>,
)
    requires
        call_ensures(ConnectionShared::fail, (shared, error), woken),
    ensures
        final(shared)@.closed,
        old(shared)@.failure is None ==> final(shared)@.failure == Some(error@),
        old(shared)@.failure is Some ==> final(shared)@.failure == old(shared)@.failure,
        woken@ == old(shared)@.wakers,
        final(shared)@.wakers.len() == 0,
        final(shared)@.observed == old(shared)@.observed,
        final(shared)@.commands == old(shared)@.commands,
        final(shared)@.outbound == old(shared)@.outbound,
        final(shared)@.inbound == old(shared)@.inbound,
        final(shared)@.established == old(shared)@.established,
        final(shared)@.terminal == old(shared)@.terminal,
{
}

/// A peer that closed the connection is quoted, code and phrase. Going quiet is a timeout;
/// everything else is the peer's doing.
pub proof fn law_a_close_is_quoted(
    shared: &mut ConnectionShared,
    close: CloseError,
    woken: Vec<u64>,
)
    requires
        call_ensures(ConnectionShared::fail_with_close, (shared, close), woken),
    ensures
        final(shared)@.closed,
        old(shared)@.failure is None ==> {
            &&& final(shared)@.failure is Some
            &&& final(shared)@.failure->Some_0.close == Some(
                CloseView { reason: close.reason, phrase: close.phrase@ },
            )
            &&& final(shared)@.failure->Some_0.kind == (if close.reason
                == CloseReason::IdleTimeout {
                ErrorKind::IdleTimeout
            } else {
                ErrorKind::PeerClosed
            })
        },
        old(shared)@.failure is Some ==> final(shared)@.failure == old(shared)@.failure,
        woken@ == old(shared)@.wakers,
        final(shared)@.wakers.len() == 0,
        final(shared)@.observed == old(shared)@.observed,
        final(shared)@.commands == old(shared)@.commands,
{
}

/// What a caller is told ended a connection is the kind of the failure that did, with the
/// peer's close where there was one. A connection nothing failed was closed here.
pub proof fn law_a_caller_is_told_what_ended_the_connection(
    shared: ConnectionShared,
    error: Error,
)
    requires
        call_ensures(ConnectionShared::failure, (&shared,), error),
    ensures
        shared@.failure matches Some(first) ==> error@.kind == first.kind && error@.close
            == first.close,
        shared@.failure is None ==> error@.kind == ErrorKind::LocallyClosed && error@.close is None,
        error@.stream_code is None,
        error@.cause is None,
{
}

/// Whoever registers is woken once, by the next wake, and by no later one. Registering twice is
/// registering once.
pub proof fn law_whoever_waits_is_woken_once(
    shared: &mut ConnectionShared,
    waker: u64,
    new: bool,
    then: &mut ConnectionShared,
    woken: Vec<u64>,
)
    requires
        call_ensures(ConnectionShared::register, (shared, waker), new),
        call_ensures(ConnectionShared::wake_all, (then,), woken),
        old(then)@ == final(shared)@,
    ensures
        woken@.contains(waker),
        forall|other: u64|
            other != waker ==> (#[trigger] woken@.contains(other) <==> old(shared)@.wakers.contains(other)),
        new <==> !old(shared)@.wakers.contains(waker),
        !new ==> woken@ == old(shared)@.wakers,
        new ==> woken@.len() == old(shared)@.wakers.len() + 1,
        final(then)@ == (SharedView { wakers: Seq::empty(), ..old(shared)@ }),
{
    let before = old(shared)@.wakers;
    assert(before.push(waker).last() == waker);
    assert forall|other: u64| other != waker implies (#[trigger] woken@.contains(other)
        <==> before.contains(other)) by {
        if before.contains(other) {
            let i = choose|i: int| 0 <= i < before.len() && before[i] == other;
            assert(before.push(waker)[i] == other);
        }
    }
}

/// What is asked of the driver, and what it observes, comes out as it went in: in order, all of
/// it, once. Asking wakes the driver.
pub proof fn law_requests_and_observations_come_out_as_they_went_in(
    shared: &mut ConnectionShared,
    endpoint: &mut EndpointShared,
    command: Command,
    driver: Option<u64>,
    seen: &mut ConnectionShared,
    event: Observed,
    taking: &mut ConnectionShared,
    commands: VecDeque<Command>,
    looking: &mut ConnectionShared,
    observed: Vec<Observed>,
)
    requires
        call_ensures(ConnectionShared::push, (shared, endpoint, command), driver),
        call_ensures(ConnectionShared::observe, (seen, event), ()),
        call_ensures(ConnectionShared::take_commands, (taking,), commands),
        call_ensures(ConnectionShared::take_observed, (looking,), observed),
    ensures
        final(shared)@ == (SharedView {
            commands: old(shared)@.commands.push(command@),
            ..old(shared)@
        }),
        driver == old(endpoint)@.driver_waker,
        final(endpoint)@ == (EndpointView { driver_waker: None, ..old(endpoint)@ }),
        final(seen)@ == (SharedView { observed: old(seen)@.observed.push(event), ..old(seen)@ }),
        commands@.len() == old(taking)@.commands.len(),
        forall|i: int|
            0 <= i < commands@.len() ==> (#[trigger] commands@[i])@ == old(taking)@.commands[i],
        final(taking)@ == (SharedView { commands: Seq::empty(), ..old(taking)@ }),
        observed@ == old(looking)@.observed,
        final(looking)@ == (SharedView { observed: Seq::empty(), ..old(looking)@ }),
{
    let made = crate::endpoint::shared::requests(commands@);
    assert(made.len() == commands@.len());
    assert forall|i: int| 0 <= i < commands@.len() implies (#[trigger] commands@[i])@
        == old(taking)@.commands[i] by {
        assert(made[i] == commands@[i]@);
    }
}

/// Datagrams for an owner come out in the order they arrived, whole. Up to the bound they are
/// all kept and each wakes the owner; beyond it they are dropped and counted, and wake nobody.
pub proof fn law_arriving_datagrams_keep_their_order(
    shared: &mut ConnectionShared,
    datagram: Vec<u8>,
    outcome: (bool, Vec<u64>),
    taking: &mut ConnectionShared,
    taken: Option<Vec<u8>>,
)
    requires
        call_ensures(ConnectionShared::deliver_inbound, (shared, datagram), outcome),
        call_ensures(ConnectionShared::take_inbound, (taking,), taken),
    ensures
        outcome.0 <==> old(shared)@.inbound.len() < 64,
        outcome.0 ==> {
            &&& final(shared)@ == (SharedView {
                inbound: old(shared)@.inbound.push(datagram@),
                wakers: Seq::empty(),
                ..old(shared)@
            })
            &&& outcome.1@ == old(shared)@.wakers
        },
        !outcome.0 ==> {
            &&& final(shared)@.inbound == old(shared)@.inbound
            &&& final(shared)@.wakers == old(shared)@.wakers
            &&& outcome.1@.len() == 0
            &&& old(shared)@.dropped < u64::MAX ==> final(shared)@.dropped == old(shared)@.dropped
                + 1
        },
        taken is Some <==> old(taking)@.inbound.len() > 0,
        taken matches Some(oldest) ==> {
            &&& seq![oldest@] + final(taking)@.inbound == old(taking)@.inbound
            &&& final(taking)@.wakers == old(taking)@.wakers
        },
        taken is None ==> final(taking)@ == old(taking)@,
{
    if taken is Some {
        assert(seq![taken->Some_0@] + final(taking)@.inbound =~= old(taking)@.inbound);
    }
}

/// Datagrams from an owner leave in the order they were queued, whole, and queueing one wakes
/// the driver. Whoever waits for room is woken when a full queue lets one go, once.
pub proof fn law_leaving_datagrams_keep_their_order(
    shared: &mut ConnectionShared,
    endpoint: &mut EndpointShared,
    datagram: Vec<u8>,
    driver: Option<u64>,
    taking: &mut ConnectionShared,
    outcome: (Option<Vec<u8>>, Vec<u64>),
)
    requires
        call_ensures(ConnectionShared::queue_outbound, (shared, endpoint, datagram), driver),
        call_ensures(ConnectionShared::take_outbound, (taking,), outcome),
    ensures
        final(shared)@ == (SharedView {
            outbound: old(shared)@.outbound.push(datagram@),
            ..old(shared)@
        }),
        driver == old(endpoint)@.driver_waker,
        final(endpoint)@ == (EndpointView { driver_waker: None, ..old(endpoint)@ }),
        outcome.0 is Some <==> old(taking)@.outbound.len() > 0,
        outcome.0 matches Some(oldest) ==> seq![oldest@] + final(taking)@.outbound
            == old(taking)@.outbound,
        old(taking)@.outbound.len() == 64 ==> outcome.1@ == old(taking)@.capacity_wakers
            && final(taking)@.capacity_wakers.len() == 0,
        old(taking)@.outbound.len() != 64 ==> outcome.1@.len() == 0
            && final(taking)@.capacity_wakers == old(taking)@.capacity_wakers,
        final(taking)@.inbound == old(taking)@.inbound,
        final(taking)@.wakers == old(taking)@.wakers,
{
    if outcome.0 is Some {
        assert(seq![outcome.0->Some_0@] + final(taking)@.outbound =~= old(taking)@.outbound);
    }
}

/// There is room to queue a datagram below the bound and not at it. Whoever finds none is
/// registered for the room that comes, in the same step.
pub proof fn law_whoever_finds_no_room_is_registered(
    full: ConnectionShared,
    room: bool,
    shared: &mut ConnectionShared,
    waker: u64,
    ready: bool,
)
    requires
        call_ensures(ConnectionShared::outbound_has_room, (&full,), room),
        call_ensures(ConnectionShared::outbound_ready_or_register, (shared, waker), ready),
    ensures
        room <==> full@.outbound.len() < 64,
        ready <==> old(shared)@.outbound.len() < 64,
        ready ==> final(shared)@ == old(shared)@,
        !ready ==> {
            &&& final(shared)@.capacity_wakers.contains(waker)
            &&& forall|other: u64|
                other != waker ==> (#[trigger] final(shared)@.capacity_wakers.contains(other)
                    <==> old(shared)@.capacity_wakers.contains(other))
            &&& final(shared)@.wakers == old(shared)@.wakers
            &&& final(shared)@.outbound == old(shared)@.outbound
        },
{
    let before = old(shared)@.capacity_wakers;
    assert(before.push(waker).last() == waker);
    assert forall|other: u64|
        other != waker && before.contains(other) implies #[trigger] before.push(waker).contains(
        other,
    ) by {
        let i = choose|i: int| 0 <= i < before.len() && before[i] == other;
        assert(before.push(waker)[i] == other);
    }
}

/// Identifier changes come out in the order they happened, once, and each wakes the driver.
pub proof fn law_identifier_changes_keep_their_order(
    shared: &mut ConnectionShared,
    endpoint: &mut EndpointShared,
    update: RouteUpdate,
    driver: Option<u64>,
    taking: &mut ConnectionShared,
    updates: VecDeque<RouteUpdate>,
)
    requires
        call_ensures(ConnectionShared::observe_route, (shared, endpoint, update), driver),
        call_ensures(ConnectionShared::take_routes, (taking,), updates),
    ensures
        final(shared)@ == (SharedView { routes: old(shared)@.routes.push(update), ..old(shared)@ }),
        driver == old(endpoint)@.driver_waker,
        final(endpoint)@ == (EndpointView { driver_waker: None, ..old(endpoint)@ }),
        updates@ == old(taking)@.routes,
        final(taking)@ == (SharedView { routes: Seq::empty(), ..old(taking)@ }),
{
}

/// A detach is asked for, and to an acceptor only where that was asked; an owner that is done
/// is done for good and wakes the driver; an established connection wakes everyone waiting.
pub proof fn law_marks_are_made_as_asked(
    detaching: &mut ConnectionShared,
    accepting: &mut ConnectionShared,
    ending: &mut ConnectionShared,
    endpoint: &mut EndpointShared,
    driver: Option<u64>,
    establishing: &mut ConnectionShared,
    woken: Vec<u64>,
    counting: &mut ConnectionShared,
    bytes: u64,
)
    requires
        call_ensures(ConnectionShared::request_detach, (detaching,), ()),
        call_ensures(ConnectionShared::request_detach_to_acceptor, (accepting,), ()),
        call_ensures(ConnectionShared::mark_terminal, (ending, endpoint), driver),
        call_ensures(ConnectionShared::mark_established, (establishing,), woken),
        call_ensures(ConnectionShared::set_retained, (counting, bytes), ()),
    ensures
        final(detaching)@ == (SharedView { detach: true, ..old(detaching)@ }),
        final(accepting)@ == (SharedView {
            detach: true,
            detach_to_acceptor: true,
            ..old(accepting)@
        }),
        final(ending)@ == (SharedView { terminal: true, ..old(ending)@ }),
        driver == old(endpoint)@.driver_waker,
        final(endpoint)@.driver_waker is None,
        final(establishing)@ == (SharedView {
            established: true,
            wakers: Seq::empty(),
            ..old(establishing)@
        }),
        woken@ == old(establishing)@.wakers,
        final(counting)@ == (SharedView { retained: bytes, ..old(counting)@ }),
{
}

/// What the shared state says of itself is what it holds.
pub proof fn law_the_shared_state_says_what_it_holds(
    shared: ConnectionShared,
    closed: bool,
    established: bool,
    terminal: bool,
    waiting: bool,
    retained: u64,
    dropped: u64,
    inbound: usize,
    outbound: usize,
    wanted: bool,
    to_acceptor: bool,
)
    requires
        call_ensures(ConnectionShared::is_closed, (&shared,), closed),
        call_ensures(ConnectionShared::is_established, (&shared,), established),
        call_ensures(ConnectionShared::is_terminal, (&shared,), terminal),
        call_ensures(ConnectionShared::has_outbound, (&shared,), waiting),
        call_ensures(ConnectionShared::retained_bytes, (&shared,), retained),
        call_ensures(ConnectionShared::dropped_inbound, (&shared,), dropped),
        call_ensures(ConnectionShared::inbound_len, (&shared,), inbound),
        call_ensures(ConnectionShared::outbound_len, (&shared,), outbound),
        call_ensures(ConnectionShared::wants_detach, (&shared,), wanted),
        call_ensures(ConnectionShared::detaches_to_acceptor, (&shared,), to_acceptor),
    ensures
        closed == shared@.closed,
        established == shared@.established,
        terminal == shared@.terminal,
        waiting <==> shared@.outbound.len() > 0,
        retained == shared@.retained,
        dropped == shared@.dropped,
        inbound == shared@.inbound.len(),
        outbound == shared@.outbound.len(),
        wanted == shared@.detach,
        to_acceptor == shared@.detach_to_acceptor,
{
}

/// A connection starts open, not established, with nothing said in either direction.
pub proof fn law_a_new_connection_is_quiet(role: Role, shared: ConnectionShared)
    requires
        call_ensures(ConnectionShared::new, (role,), shared),
    ensures
        shared@.role == role,
        !shared@.closed && !shared@.established && !shared@.terminal,
        !shared@.detach && !shared@.detach_to_acceptor,
        shared@.failure is None,
        shared@.observed.len() == 0 && shared@.commands.len() == 0 && shared@.routes.len() == 0,
        shared@.inbound.len() == 0 && shared@.outbound.len() == 0,
        shared@.wakers.len() == 0 && shared@.capacity_wakers.len() == 0,
        shared@.dropped == 0 && shared@.retained == 0 && shared@.diagnostic_id == 0,
{
}

/// One observation taken out leaves the others in order.
pub proof fn law_one_observation_taken_leaves_the_rest(
    shared: &mut ConnectionShared,
    at: usize,
    event: Observed,
)
    requires
        call_ensures(ConnectionShared::remove_observed, (shared, at), event),
        at < old(shared)@.observed.len(),
    ensures
        event == old(shared)@.observed[at as int],
        final(shared)@.observed.len() == old(shared)@.observed.len() - 1,
        forall|i: int| 0 <= i < at ==> final(shared)@.observed[i] == old(shared)@.observed[i],
        forall|i: int|
            at <= i < final(shared)@.observed.len() ==> #[trigger] final(shared)@.observed[i]
                == old(shared)@.observed[i + 1],
        final(shared)@.commands == old(shared)@.commands,
{
}

/// A registered waker is known, and one that is not is not.
pub proof fn law_a_registered_waker_is_known(wakers: Vec<u64>, waker: u64, known: bool)
    requires
        call_ensures(registered, (&wakers, waker), known),
    ensures
        known <==> exists|i: int| 0 <= i < wakers@.len() && #[trigger] wakers@[i] == waker,
{
}

/// A driver that registered is woken once by the next thing asked of it. Dials are carried out
/// in the order made; a connection that arrived waits behind those before it and wakes whoever
/// is accepting; an endpoint that goes tells whoever waits.
pub proof fn law_an_endpoint_passes_on_what_it_is_told(
    waking: &mut EndpointShared,
    driver: Option<u64>,
    registering: &mut EndpointShared,
    waker: u64,
    dialling: &mut EndpointShared,
    dial: Dial,
    dial_driver: Option<u64>,
    taking: &mut EndpointShared,
    dials: VecDeque<Dial>,
    arriving: &mut EndpointShared,
    connection: u64,
    arriving_woken: Vec<u64>,
    going: &mut EndpointShared,
    going_woken: Vec<u64>,
    acceptors: &mut EndpointShared,
    acceptors_woken: Vec<u64>,
)
    requires
        call_ensures(EndpointShared::wake_driver, (waking,), driver),
        call_ensures(EndpointShared::register_driver, (registering, waker), ()),
        call_ensures(EndpointShared::dial, (dialling, dial), dial_driver),
        call_ensures(EndpointShared::take_dials, (taking,), dials),
        call_ensures(EndpointShared::push_accepted, (arriving, connection), arriving_woken),
        call_ensures(EndpointShared::mark_gone, (going,), going_woken),
        call_ensures(EndpointShared::wake_acceptors, (acceptors,), acceptors_woken),
    ensures
        driver == old(waking)@.driver_waker,
        final(waking)@ == (EndpointView { driver_waker: None, ..old(waking)@ }),
        final(registering)@ == (EndpointView { driver_waker: Some(waker), ..old(registering)@ }),
        final(dialling)@ == (EndpointView {
            dials: old(dialling)@.dials.push(dial),
            driver_waker: None,
            ..old(dialling)@
        }),
        dial_driver == old(dialling)@.driver_waker,
        dials@ == old(taking)@.dials,
        final(taking)@ == (EndpointView { dials: Seq::empty(), ..old(taking)@ }),
        final(arriving)@ == (EndpointView {
            accepted: old(arriving)@.accepted.push(connection),
            wakers: Seq::empty(),
            ..old(arriving)@
        }),
        arriving_woken@ == old(arriving)@.wakers,
        final(going)@ == (EndpointView { gone: true, wakers: Seq::empty(), ..old(going)@ }),
        going_woken@ == old(going)@.wakers,
        final(acceptors)@ == (EndpointView { wakers: Seq::empty(), ..old(acceptors)@ }),
        acceptors_woken@ == old(acceptors)@.wakers,
{
}

/// An endpoint starts with nothing asked of it, and remembers that its accepts are to be handed
/// over only once that was asked.
pub proof fn law_a_new_endpoint_is_quiet(
    shared: EndpointShared,
    asking: &mut EndpointShared,
    any: EndpointShared,
    detached: bool,
    gone: bool,
)
    requires
        call_ensures(EndpointShared::new, (), shared),
        call_ensures(EndpointShared::request_detached_accepts, (asking,), ()),
        call_ensures(EndpointShared::detached_accepts, (&any,), detached),
        call_ensures(EndpointShared::is_gone, (&any,), gone),
    ensures
        !shared@.gone && !shared@.detached_accepts && shared@.driver_waker is None,
        shared@.dials.len() == 0 && shared@.accepted.len() == 0 && shared@.wakers.len() == 0,
        final(asking)@ == (EndpointView { detached_accepts: true, ..old(asking)@ }),
        detached == any@.detached_accepts,
        gone == any@.gone,
{
}

/// Whoever waits to accept is registered once.
pub proof fn law_an_acceptor_is_registered_once(shared: &mut EndpointShared, waker: u64)
    requires
        call_ensures(EndpointShared::register, (shared, waker), ()),
    ensures
        final(shared)@.wakers.contains(waker),
        old(shared)@.wakers.contains(waker) ==> final(shared)@ == old(shared)@,
        !old(shared)@.wakers.contains(waker) ==> final(shared)@ == (EndpointView {
            wakers: old(shared)@.wakers.push(waker),
            ..old(shared)@
        }),
{
    assert(old(shared)@.wakers.push(waker).last() == waker);
}

/// An accept has something to look at once any connection waiting is established or over.
pub proof fn law_an_accept_is_due_once_something_changed(
    progress: &[Progress],
    due: bool,
)
    requires
        call_ensures(EndpointShared::accept_is_due, (progress,), due),
    ensures
        forall|i: int|
            0 <= i < progress@.len() && ((#[trigger] progress@[i]).established
                || progress@[i].closed) ==> due,
        due ==> exists|i: int|
            0 <= i < progress@.len() && ((#[trigger] progress@[i]).established
                || progress@[i].closed),
{
    assert forall|i: int|
        0 <= i < progress@.len() && ((#[trigger] progress@[i]).established
            || progress@[i].closed) implies due by {
        assert(crate::endpoint::shared::stirred(progress@));
    }
}

/// The connection accepted is the first to have arrived of those that are established. None is
/// accepted that is not.
pub proof fn law_the_first_established_is_accepted(
    shared: &mut EndpointShared,
    progress: &[Progress],
    taken: Option<u64>,
)
    requires
        call_ensures(EndpointShared::take_ready, (shared, progress), taken),
        progress@.len() == old(shared)@.accepted.len(),
    ensures
        taken matches Some(connection) ==> exists|at: int|
            {
                &&& 0 <= at < progress@.len()
                &&& (#[trigger] progress@[at]).established
                &&& old(shared)@.accepted[at] == connection
                &&& forall|i: int| 0 <= i < at ==> !(#[trigger] progress@[i]).established
            },
        taken is None ==> forall|i: int|
            0 <= i < progress@.len() ==> !(#[trigger] progress@[i]).established,
        final(shared)@.wakers == old(shared)@.wakers,
        final(shared)@.dials == old(shared)@.dials,
{
    lemma_ready(progress@);
    let at = crate::endpoint::shared::first_ready(progress@);
    if taken is Some {
        assert(progress@[at].established);
    }
}

/// Nobody before the first that is ready is.
proof fn lemma_ready(progress: Seq<Progress>)
    ensures
        ({
            let at = crate::endpoint::shared::first_ready(progress);
            &&& 0 <= at <= progress.len()
            &&& forall|i: int| 0 <= i < at ==> !(#[trigger] progress[i]).established
            &&& at < progress.len() ==> progress[at].established
        }),
    decreases progress.len(),
{
    if progress.len() > 0 && !progress[0].established {
        let rest = progress.skip(1);
        lemma_ready(rest);
        let at = crate::endpoint::shared::first_ready(rest);
        assert forall|i: int| 0 <= i < at + 1 implies !(#[trigger] progress[i]).established by {
            if i > 0 {
                assert(rest[i - 1] == progress[i]);
            }
        }
        if at < rest.len() {
            assert(rest[at] == progress[at + 1]);
        }
    }
}

/// Those left waiting after an accept are all the others that were not over, in the order they
/// arrived: nobody behind the one accepted is looked at, and nobody alive is lost.
pub proof fn law_nobody_alive_is_lost_to_an_accept(
    shared: &mut EndpointShared,
    progress: &[Progress],
    taken: Option<u64>,
)
    requires
        call_ensures(EndpointShared::take_ready, (shared, progress), taken),
        progress@.len() == old(shared)@.accepted.len(),
        forall|i: int| 0 <= i < progress@.len() ==> !(#[trigger] progress@[i]).closed,
    ensures
        taken is None ==> final(shared)@.accepted == old(shared)@.accepted,
        taken matches Some(connection) ==> exists|at: int|
            0 <= at < progress@.len() && #[trigger] old(shared)@.accepted[at] == connection
                && final(shared)@.accepted == old(shared)@.accepted.remove(at),
{
    let before = old(shared)@.accepted;
    let at = crate::endpoint::shared::first_ready(progress@);
    lemma_ready(progress@);
    lemma_all_wait(before.take(at), progress@.take(at));
    if taken is Some {
        assert(before[at] == taken->Some_0);
        assert(before.take(at) + before.skip(at + 1) =~= before.remove(at));
    } else {
        assert(before.take(at) =~= before);
    }
}

/// Where nobody is over, everyone goes on waiting.
proof fn lemma_all_wait(candidates: Seq<u64>, progress: Seq<Progress>)
    requires
        candidates.len() == progress.len(),
        forall|i: int| 0 <= i < progress.len() ==> !(#[trigger] progress[i]).closed,
    ensures
        crate::endpoint::shared::still_waiting(candidates, progress) == candidates,
    decreases candidates.len(),
{
    if candidates.len() > 0 {
        assert forall|i: int| 0 <= i < progress.drop_last().len() implies !(
        #[trigger] progress.drop_last()[i]).closed by {
            assert(progress.drop_last()[i] == progress[i]);
        }
        lemma_all_wait(candidates.drop_last(), progress.drop_last());
        assert(!progress[progress.len() - 1].closed);
        assert(candidates.drop_last().push(candidates.last()) =~= candidates);
    } else {
        assert(candidates =~= Seq::empty());
    }
}

/// A connection that is over before it was established is passed over and forgotten: where
/// none is established, those over are exactly the ones that go.
pub proof fn law_whoever_is_over_stops_waiting(
    shared: &mut EndpointShared,
    progress: &[Progress],
    taken: Option<u64>,
    connection: u64,
)
    requires
        call_ensures(EndpointShared::take_ready, (shared, progress), taken),
        progress@.len() == old(shared)@.accepted.len(),
        taken is None,
    ensures
        final(shared)@.accepted.contains(connection) <==> exists|i: int|
            0 <= i < progress@.len() && !(#[trigger] progress@[i]).closed
                && old(shared)@.accepted[i] == connection,
{
    let before = old(shared)@.accepted;
    lemma_ready(progress@);
    assert(before.take(before.len() as int) =~= before);
    assert(progress@.take(before.len() as int) =~= progress@);
    lemma_who_waits(before, progress@, connection);
}

/// Who goes on waiting.
proof fn lemma_who_waits(candidates: Seq<u64>, progress: Seq<Progress>, connection: u64)
    requires
        candidates.len() == progress.len(),
    ensures
        crate::endpoint::shared::still_waiting(candidates, progress).contains(connection)
            <==> exists|i: int|
            0 <= i < progress.len() && !(#[trigger] progress[i]).closed && candidates[i]
                == connection,
    decreases candidates.len(),
{
    if candidates.len() > 0 {
        let front = candidates.drop_last();
        let seen = progress.drop_last();
        lemma_who_waits(front, seen, connection);
        let rest = crate::endpoint::shared::still_waiting(front, seen);
        let all = crate::endpoint::shared::still_waiting(candidates, progress);
        let end = progress.len() - 1;
        assert(progress[end] == progress.last());
        if rest.contains(connection) {
            let i = choose|i: int|
                0 <= i < seen.len() && !(#[trigger] seen[i]).closed && front[i] == connection;
            assert(!progress[i].closed && candidates[i] == connection);
            let j = choose|j: int| 0 <= j < rest.len() && rest[j] == connection;
            assert(all[j] == connection);
        }
        if !progress.last().closed && candidates.last() == connection {
            assert(all.last() == connection);
        }
        if exists|i: int|
            0 <= i < progress.len() && !(#[trigger] progress[i]).closed && candidates[i]
                == connection {
            let i = choose|i: int|
                0 <= i < progress.len() && !(#[trigger] progress[i]).closed && candidates[i]
                    == connection;
            if i < end {
                assert(!seen[i].closed && front[i] == connection);
            }
        }
        if all.contains(connection) && !rest.contains(connection) {
            let j = choose|j: int| 0 <= j < all.len() && all[j] == connection;
            if !progress.last().closed {
                assert(j == rest.len() || rest[j] == connection);
                assert(!progress[end].closed && candidates[end] == connection);
            }
        }
    }
}

/// An identifier leads where it was last sent, and nowhere once it is taken out; what is done
/// with one leaves every other as it was.
pub proof fn law_an_identifier_leads_where_it_was_sent(
    routes: &mut Routes,
    id: ConnectionId,
    target: u64,
    then: Routes,
    asked: &[u8],
    found: Option<u64>,
    removing: &mut Routes,
    gone: &[u8],
    left: Routes,
    missed: Option<u64>,
)
    requires
        call_ensures(Routes::insert, (routes, id, target), ()),
        call_ensures(Routes::get, (&then, asked), found),
        then@ == final(routes)@,
        call_ensures(Routes::remove, (removing, gone), ()),
        call_ensures(Routes::get, (&left, asked), missed),
        left@ == final(removing)@,
    ensures
        asked@ == id@ ==> found == Some(target),
        asked@ != id@ ==> (found is Some <==> old(routes)@.contains_key(asked@)) && (found
            is Some ==> found->Some_0 == old(routes)@[asked@]),
        asked@ == gone@ ==> missed is None,
        asked@ != gone@ ==> (missed is Some <==> old(removing)@.contains_key(asked@)) && (missed
            is Some ==> missed->Some_0 == old(removing)@[asked@]),
{
}

/// Releasing a connection takes out every identifier that led to it and no other.
pub proof fn law_releasing_takes_out_exactly_what_led_there(
    routes: &mut Routes,
    target: u64,
    id: Seq<u8>,
)
    requires
        call_ensures(Routes::release, (routes, target), ()),
    ensures
        final(routes)@.contains_key(id) <==> old(routes)@.contains_key(id) && old(routes)@[id]
            != target,
        final(routes)@.contains_key(id) ==> final(routes)@[id] == old(routes)@[id],
{
}

proof fn lemma_installed(
    routes: Map<Seq<u8>, u64>,
    ids: Seq<ConnectionId>,
    target: u64,
    id: Seq<u8>,
)
    ensures
        ({
            let after = routed_all(routes, ids, target);
            &&& (exists|i: int| 0 <= i < ids.len() && (#[trigger] ids[i])@ == id)
                ==> after.contains_key(id) && after[id] == target
            &&& (forall|i: int| 0 <= i < ids.len() ==> (#[trigger] ids[i])@ != id) ==> {
                &&& after.contains_key(id) == routes.contains_key(id)
                &&& routes.contains_key(id) ==> after[id] == routes[id]
            }
        }),
    decreases ids.len(),
{
    if ids.len() > 0 {
        let front = ids.drop_last();
        lemma_installed(routes, front, target, id);
        assert(ids.last() == ids[ids.len() - 1]);
        if exists|i: int| 0 <= i < ids.len() && (#[trigger] ids[i])@ == id {
            let i = choose|i: int| 0 <= i < ids.len() && (#[trigger] ids[i])@ == id;
            if i < front.len() {
                assert(front[i]@ == id);
            }
        } else {
            assert forall|i: int| 0 <= i < front.len() implies (#[trigger] front[i])@ != id by {
                assert(front[i] == ids[i]);
            }
        }
    }
}

/// Installing a connection's identifiers leads each of them to it, and no other anywhere else.
pub proof fn law_installed_identifiers_lead_to_their_connection(
    routes: &mut Routes,
    ids: &Vec<ConnectionId>,
    target: u64,
    id: Seq<u8>,
)
    requires
        call_ensures(Routes::install, (routes, ids, target), ()),
    ensures
        (exists|i: int| 0 <= i < ids@.len() && (#[trigger] ids@[i])@ == id)
            ==> final(routes)@.contains_key(id) && final(routes)@[id] == target,
        (forall|i: int| 0 <= i < ids@.len() ==> (#[trigger] ids@[i])@ != id)
            ==> final(routes)@.contains_key(id) == old(routes)@.contains_key(id),
        (forall|i: int| 0 <= i < ids@.len() ==> (#[trigger] ids@[i])@ != id)
            && old(routes)@.contains_key(id) ==> final(routes)@[id] == old(routes)@[id],
{
    lemma_installed(old(routes)@, ids@, target, id);
}

/// Changes to a connection's identifiers are applied in turn: one more at the end leads the
/// identifier it minted to the connection, or the one it retired nowhere, on top of what those
/// before it did. None changes nothing.
pub proof fn law_identifier_changes_apply_in_turn(
    fewer: &mut Routes,
    updates: VecDeque<RouteUpdate>,
    more: &mut Routes,
    longer: VecDeque<RouteUpdate>,
    change: RouteUpdate,
    target: u64,
)
    requires
        call_ensures(Routes::apply, (fewer, updates, target), ()),
        call_ensures(Routes::apply, (more, longer, target), ()),
        old(fewer)@ == old(more)@,
        longer@ == updates@.push(change),
    ensures
        updates@.len() == 0 ==> final(fewer)@ == old(fewer)@,
        change matches RouteUpdate::Minted(id) ==> final(more)@ == final(fewer)@.insert(
            id@,
            target,
        ),
        change matches RouteUpdate::Retired(id) ==> final(more)@ == final(fewer)@.remove(id@),
{
    assert(longer@.drop_last() =~= updates@);
}

/// A table starts empty.
pub proof fn law_a_new_table_leads_nowhere(routes: Routes, id: Seq<u8>)
    requires
        call_ensures(Routes::new, (), routes),
    ensures
        !routes@.contains_key(id),
{
}

/// The identity diagnostics know a connection by is the one it was given, and who waits for room
/// is counted.
pub proof fn law_a_connection_keeps_its_diagnostic_identity(
    shared: &mut ConnectionShared,
    id: u64,
    then: ConnectionShared,
    known: u64,
    waiting: usize,
)
    requires
        call_ensures(ConnectionShared::bind_diagnostic_id, (shared, id), ()),
        then@ == final(shared)@,
        call_ensures(ConnectionShared::diagnostic_id, (&then,), known),
        call_ensures(ConnectionShared::capacity_waiting, (&then,), waiting),
    ensures
        known == id,
        waiting == old(shared)@.capacity_wakers.len(),
        final(shared)@ == (SharedView {
            diagnostic_id: id,
            ..old(shared)@
        }),
{
}

/// What is said of the shared state is read off it.
pub proof fn law_the_shared_state_reads_as_it_is(
    shared: ConnectionShared,
    role: Role,
    observed: &Vec<Observed>,
    waiting: usize,
    endpoint: EndpointShared,
    accepted: &VecDeque<u64>,
)
    requires
        call_ensures(ConnectionShared::role, (&shared,), role),
        call_ensures(ConnectionShared::observed, (&shared,), observed),
        call_ensures(ConnectionShared::waiting, (&shared,), waiting),
        call_ensures(EndpointShared::accepted, (&endpoint,), accepted),
    ensures
        role == shared@.role,
        observed@ == shared@.observed,
        waiting == shared@.wakers.len(),
        accepted@ == endpoint@.accepted,
{
}

} // verus!
