//! What an endpoint promises: who gets a connection, what a stranger is answered with, and that
//! whoever waits for something is told.

use vstd::prelude::*;

use crate::accept::{DecodedHeader, InitialPacket, InitialToken};
use crate::cid::ConnectionId;
use crate::endpoint::config::Config;
use crate::endpoint::driver::Inner;
use crate::endpoint::error::{Cause, CauseView, CloseView, Error, ErrorKind};
use crate::endpoint::handle::{
    accept_detached, accepting, adopt_accepted, another_pass, answer_reset, answer_unmatched,
    answer_written, begin, connect, connect_detached, connecting, detaching, detaching_any,
    dial_dropped, dispatch, driver_dropped, driver_gone, prepare_accepted, service, socket_died,
    Arrival, Begin, DetachQueue, Dispatch, EndpointBuilder, EndpointDriver, ReadPass, ServiceTask,
};
use crate::endpoint::shared::{
    ConnectionShared, EndpointShared, EndpointView, Progress, SharedView,
};
use crate::endpoint::socket::Received;
use crate::endpoint::validate::{conclude, judge, presented, Decision, Validation, Verdict};
use crate::error::{ApplicationErrorCode, CloseError};
use crate::path::Address;
use crate::rand::EntropySource;
use crate::time::{Duration, Timestamp};

verus! {

/// A datagram that names a connection is delivered to it, always. A stranger's is examined only
/// by an endpoint that accepts connections, and only if an answer to it can be shorter than it.
pub proof fn law_a_datagram_is_delivered_examined_or_ignored(
    inner: Inner,
    header: DecodedHeader,
    len: usize,
    decision: Dispatch,
    target: Option<u64>,
)
    requires
        call_ensures(dispatch, (&inner, &header, len), decision),
        call_ensures(Inner::route, (&inner, &header), target),
    ensures
        target matches Some(index) ==> decision == Dispatch::Deliver(index),
        target is None && inner@.accepts && len >= 21 ==> decision is Examine,
        target is None && !(inner@.accepts && len >= 21) ==> decision is Ignore,
{
}

/// Without a policy every first packet begins a connection, to the identifier it was addressed
/// to. With one, a connection begins only where the policy accepts, to the identifier it was
/// first addressed to; otherwise the client is told to retry, or is ignored.
pub proof fn law_a_connection_begins_as_the_policy_says(
    packet: InitialPacket,
    decision: Option<Decision>,
    beginning: Begin,
)
    requires
        call_ensures(begin, (&packet, decision), beginning),
    ensures
        decision is None ==> beginning == (Begin::Accept {
            original: packet.dcid,
            retried: false,
        }),
        decision matches Some(Decision::Accept(original)) ==> beginning == (Begin::Accept {
            original,
            retried: true,
        }),
        decision matches Some(Decision::Retry { scid, token }) ==> beginning == (Begin::Retry {
            scid,
            token,
        }),
        decision matches Some(Decision::Ignore) ==> beginning is Ignore,
{
}

/// A first packet is accepted only with a retry token that was verified, and then to the
/// identifier the token vouches for. Without one it is answered with a retry under a fresh
/// identifier, where one could be drawn and a token made, and is ignored where not: nothing is
/// ever accepted for want of entropy.
pub proof fn law_only_a_verified_client_is_accepted(
    packet: InitialPacket,
    verified: Option<ConnectionId>,
    drawn: Result<ConnectionId, crate::error::Error>,
    verdict: Verdict,
    issued: Result<Vec<u8>, crate::error::Error>,
    decision: Decision,
)
    requires
        call_ensures(judge, (&packet, verified, drawn), verdict),
        call_ensures(conclude, (verdict, issued), decision),
    ensures
        packet.token is Retry && verified is Some ==> decision == Decision::Accept(
            verified->Some_0,
        ),
        !(packet.token is Retry && verified is Some) ==> {
            &&& drawn is Ok && issued is Ok ==> decision == (Decision::Retry {
                scid: drawn->Ok_0,
                token: issued->Ok_0,
            })
            &&& drawn is Err || issued is Err ==> decision is Ignore
        },
{
}

/// A token is looked at only if it claims to be from a retry, and then whole.
pub proof fn law_only_retry_tokens_are_looked_at(packet: InitialPacket, token: Option<&[u8]>)
    requires
        call_ensures(presented, (&packet,), token),
    ensures
        packet.token matches InitialToken::Retry(bytes) ==> token is Some && token->Some_0@
            == bytes@,
        !(packet.token is Retry) ==> token is None,
{
}

/// A verified client is accepted without drawing anything. Anyone else is at most issued a
/// retry, under an identifier of eight bytes.
pub proof fn law_deciding_draws_only_for_a_retry<S, E: EntropySource>(
    policy: Validation<S>,
    packet: InitialPacket,
    verified: Option<ConnectionId>,
    entropy: &mut E,
    verdict: Verdict,
)
    requires
        call_ensures(Validation::<S>::decide::<E>, (&policy, &packet, verified, entropy), verdict),
    ensures
        packet.token is Retry && verified is Some ==> verdict == Verdict::Accept(verified->Some_0)
            && *final(entropy) == *old(entropy),
        !(packet.token is Retry && verified is Some) ==> !(verdict is Accept),
        verdict matches Verdict::Issue(scid) ==> scid@.len() == 8,
{
}

/// Strangers are answered out of a budget that refills a second after it last did, and not
/// before. Each answer takes one from it, and with none left nobody is answered.
pub proof fn law_strangers_are_answered_out_of_a_budget<S>(
    policy: &mut Validation<S>,
    now: Timestamp,
    permitted: bool,
)
    requires
        call_ensures(Validation::<S>::take_reset_budget, (policy, now), permitted),
    ensures
        ({
            let before = *old(policy);
            let after = *final(policy);
            let refills = before.refilled_at is Some && now@ - before.refilled_at->Some_0@
                >= 1_000_000_000;
            let have = if refills {
                before.reset_burst
            } else {
                before.reset_budget
            };
            &&& permitted <==> have > 0
            &&& permitted ==> after.reset_budget == have - 1
            &&& !permitted ==> after.reset_budget == 0
            &&& refills || before.refilled_at is None ==> after.refilled_at == Some(now)
            &&& !refills && before.refilled_at is Some ==> after.refilled_at == before.refilled_at
            &&& after.reset_burst == before.reset_burst && after.lifetime == before.lifetime
            &&& after.secret == before.secret
        }),
{
}

/// A policy starts with its whole budget, keeps its secret, and is changed only in what it is
/// told.
pub proof fn law_a_policy_is_what_it_is_told<S>(
    secret: S,
    policy: Validation<S>,
    timed: &mut Validation<S>,
    lifetime: Duration,
    bounded: &mut Validation<S>,
    burst: u32,
)
    requires
        call_ensures(Validation::<S>::new, (secret,), policy),
        call_ensures(Validation::<S>::lifetime, (timed, lifetime), ()),
        call_ensures(Validation::<S>::reset_burst, (bounded, burst), ()),
    ensures
        policy.secret == secret && policy.lifetime@ == 10_000_000_000,
        policy.reset_budget == 100 && policy.reset_burst == 100 && policy.refilled_at is None,
        *final(timed) == (Validation { lifetime, ..*old(timed) }),
        *final(bounded) == (Validation { reset_burst: burst, reset_budget: burst, ..*old(bounded) }),
{
}

/// A stranger's datagram is answered only by an endpoint with a policy, within its budget, and
/// only if it can be read; the answer goes by the identifier it was addressed to.
pub proof fn law_an_unmatched_datagram_is_answered_within_the_budget<S>(
    validation: &mut Option<Validation<S>>,
    header: DecodedHeader,
    now: Timestamp,
    dcid: Option<ConnectionId>,
    policy: &mut Validation<S>,
    permitted: bool,
)
    requires
        call_ensures(answer_unmatched::<S>, (validation, &header, now), dcid),
        call_ensures(Validation::<S>::take_reset_budget, (policy, now), permitted),
        *old(validation) is Some ==> old(validation)->Some_0 == *old(policy),
    ensures
        *old(validation) is None ==> dcid is None && *final(validation) is None,
        *old(validation) is Some ==> {
            &&& *final(validation) == Some(*final(policy))
            &&& dcid is Some ==> permitted && (header.rc == 0 || header.rc == -235) && dcid->Some_0@
                == header.dcid@
            &&& permitted && header.rc == 0 && header.version == 0 && 1 <= header.dcid@.len() <= 20
                ==> dcid is Some
        },
{
}

/// A reset is sent only if it is shorter than what provoked it, so that two endpoints cannot
/// keep each other answering.
pub proof fn law_a_reset_is_sent_only_if_shorter(
    inner: &mut Inner,
    destination: Address,
    written: Result<Option<usize>, crate::error::Error>,
    buffer: &[u8],
    provoked_by: usize,
)
    requires
        call_ensures(answer_reset, (inner, destination, written, buffer, provoked_by), ()),
    ensures
        ({
            let sends = written is Ok && written->Ok_0 is Some && written->Ok_0->Some_0
                < provoked_by;
            &&& sends ==> final(inner)@.outbox == old(inner)@.outbox.push(
                (destination, buffer@.take(written->Ok_0->Some_0 as int)),
            )
            &&& !sends ==> final(inner)@.outbox == old(inner)@.outbox
            &&& final(inner)@.connections == old(inner)@.connections
            &&& final(inner)@.routes == old(inner)@.routes
        }),
{
}

/// An answer that could be written is sent as it was written, to whoever is answered; one that
/// could not is not.
pub proof fn law_an_answer_is_sent_as_written(
    inner: &mut Inner,
    destination: Address,
    written: Result<usize, crate::error::Error>,
    buffer: &[u8],
)
    requires
        call_ensures(answer_written, (inner, destination, written, buffer), ()),
    ensures
        written matches Ok(len) ==> final(inner)@.outbox == old(inner)@.outbox.push(
            (destination, buffer@.take(len as int)),
        ),
        written is Err ==> final(inner)@.outbox == old(inner)@.outbox,
        final(inner)@.connections == old(inner)@.connections,
        final(inner)@.routes == old(inner)@.routes,
{
}

/// An accepted connection answers to its own identifiers and, until the client knows them, to
/// the one the client addressed.
pub proof fn law_an_accepted_connection_answers_to_its_identifiers(
    inner: &mut Inner,
    remote: Address,
    shared: u64,
    scids: Vec<ConnectionId>,
    scid: ConnectionId,
    addressed: ConnectionId,
    index: u64,
    other: u64,
)
    requires
        call_ensures(adopt_accepted, (inner, remote, shared, &scids, scid, addressed), index),
    ensures
        final(inner)@.routes.contains_key(addressed@) && final(inner)@.routes[addressed@] == index,
        final(inner)@.routes.contains_key(scid@) && final(inner)@.routes[scid@] == index,
        final(inner)@.connections.contains_key(index),
        ({
            let entry = final(inner)@.connections[index];
            &&& entry.attached && !entry.finished && entry.pending is None
            &&& entry.remote == remote && entry.shared == shared
        }),
        index == old(inner)@.next_index,
        final(inner)@.next_index == index + 1,
        final(inner)@.accepts == old(inner)@.accepts,
        final(inner)@.detachable == old(inner)@.detachable,
        final(inner)@.outbox == old(inner)@.outbox,
        final(inner)@.sleeping_until == old(inner)@.sleeping_until,
        other != index ==> final(inner)@.connections.contains_key(other)
            == old(inner)@.connections.contains_key(other),
        other != index && old(inner)@.connections.contains_key(other)
            ==> final(inner)@.connections[other] == old(inner)@.connections[other],
{
}

/// An accepted connection is handed over, to whoever accepts, only at an endpoint that was asked
/// for that.
pub proof fn law_accepts_are_handed_over_only_where_asked(
    shared: &mut ConnectionShared,
    endpoint: EndpointShared,
    asking: &mut EndpointShared,
    driver: Option<u64>,
)
    requires
        call_ensures(prepare_accepted, (shared, &endpoint), ()),
        call_ensures(accept_detached, (asking,), driver),
    ensures
        endpoint@.detached_accepts ==> final(shared)@ == (SharedView {
            detach: true,
            detach_to_acceptor: true,
            ..old(shared)@
        }),
        !endpoint@.detached_accepts ==> final(shared)@ == old(shared)@,
        final(asking)@ == (EndpointView {
            detached_accepts: true,
            driver_waker: None,
            ..old(asking)@
        }),
        driver == old(asking)@.driver_waker,
{
}

/// A dial is passed to the driver with everything it names, behind those before it, and wakes
/// the driver. Without a driver it fails at once.
pub proof fn law_a_dial_reaches_the_driver_or_fails(
    remote: Address,
    server_name: Option<&str>,
    key: u64,
    shared: &mut ConnectionShared,
    endpoint: &mut EndpointShared,
    woken: (Vec<u64>, Option<u64>),
)
    requires
        call_ensures(connect, (remote, server_name, key, shared, endpoint), woken),
    ensures
        ({
            let dials = final(endpoint)@.dials;
            &&& !old(endpoint)@.gone ==> {
                &&& final(shared)@ == old(shared)@
                &&& dials.len() == old(endpoint)@.dials.len() + 1
                &&& dials.drop_last() == old(endpoint)@.dials
                &&& dials.last().remote == remote && dials.last().shared == key
                &&& dials.last().server_name is Some <==> server_name is Some
                &&& server_name is Some ==> dials.last().server_name->Some_0@
                    == server_name->Some_0@
                &&& woken.0@.len() == 0 && woken.1 == old(endpoint)@.driver_waker
                &&& final(endpoint)@.driver_waker is None
            }
            &&& old(endpoint)@.gone ==> {
                &&& final(shared)@.closed && dials == old(endpoint)@.dials
                &&& old(shared)@.failure is None ==> final(shared)@.failure is Some
                    && final(shared)@.failure->Some_0.kind == ErrorKind::DriverGone
                &&& woken.0@ == old(shared)@.wakers && woken.1 is None
            }
            &&& final(shared)@.detach == old(shared)@.detach
            &&& final(endpoint)@ == (EndpointView {
                dials,
                driver_waker: final(endpoint)@.driver_waker,
                ..old(endpoint)@
            })
        }),
{
    if !old(endpoint)@.gone {
        assert(final(endpoint)@.dials.drop_last() =~= old(endpoint)@.dials);
    }
}

/// A dial for a connection to be handed over asks for that as well.
pub proof fn law_a_detached_dial_asks_to_be_handed_over(
    remote: Address,
    server_name: Option<&str>,
    key: u64,
    shared: &mut ConnectionShared,
    endpoint: &mut EndpointShared,
    woken: (Vec<u64>, Option<u64>),
)
    requires
        call_ensures(connect_detached, (remote, server_name, key, shared, endpoint), woken),
    ensures
        final(shared)@.detach,
        final(shared)@.detach_to_acceptor == old(shared)@.detach_to_acceptor,
        old(endpoint)@.gone ==> final(shared)@.closed && final(endpoint)@.dials
            == old(endpoint)@.dials,
        !old(endpoint)@.gone ==> {
            &&& final(shared)@.closed == old(shared)@.closed
            &&& final(endpoint)@.dials.len() == old(endpoint)@.dials.len() + 1
            &&& final(endpoint)@.dials.last().remote == remote
            &&& final(endpoint)@.dials.last().shared == key
            &&& woken.1 == old(endpoint)@.driver_waker
        },
{
}

/// A connection being dialled is ready once established, failed once over, and otherwise makes
/// its caller wait.
pub proof fn law_a_dial_ends_established_or_failed(
    waker: u64,
    shared: &mut ConnectionShared,
    result: Option<Result<(), Error>>,
)
    requires
        call_ensures(connecting, (waker, shared), result),
    ensures
        old(shared)@.established ==> result == Some(Ok::<(), Error>(())),
        !old(shared)@.established && old(shared)@.closed ==> {
            &&& result is Some && result->Some_0 is Err
            &&& result->Some_0->Err_0@.kind == (match old(shared)@.failure {
                Some(failure) => failure.kind,
                None => ErrorKind::LocallyClosed,
            })
        },
        !old(shared)@.established && !old(shared)@.closed ==> result is None
            && final(shared)@.wakers.contains(waker),
        final(shared)@.observed == old(shared)@.observed,
        final(shared)@.commands == old(shared)@.commands,
        result is Some || old(shared)@.wakers.contains(waker) ==> final(shared)@ == old(shared)@,
        result is None && !old(shared)@.wakers.contains(waker) ==> final(shared)@ == (SharedView {
            wakers: old(shared)@.wakers.push(waker),
            ..old(shared)@
        }),
{
    assert(old(shared)@.wakers.push(waker).last() == waker);
}

/// An accept yields what the endpoint has ready; with nothing ready it fails once the driver is
/// gone, and otherwise waits.
pub proof fn law_an_accept_yields_waits_or_fails(
    waker: u64,
    progress: &[Progress],
    endpoint: &mut EndpointShared,
    result: Option<Result<u64, Error>>,
    alike: &mut EndpointShared,
    taken: Option<u64>,
)
    requires
        call_ensures(accepting, (waker, progress, endpoint), result),
        call_ensures(EndpointShared::take_ready, (alike, progress), taken),
        old(alike)@ == old(endpoint)@,
        progress@.len() == old(endpoint)@.accepted.len(),
    ensures
        taken matches Some(connection) ==> result == Some(Ok::<u64, Error>(connection))
            && final(endpoint)@ == final(alike)@,
        taken is None && old(endpoint)@.gone ==> {
            &&& result is Some && result->Some_0 is Err
            &&& result->Some_0->Err_0@.kind == ErrorKind::DriverGone
        },
        taken is None && !old(endpoint)@.gone ==> result is None
            && final(endpoint)@.wakers.contains(waker),
        final(endpoint)@.accepted == final(alike)@.accepted,
        result is Some || old(endpoint)@.wakers.contains(waker) ==> final(endpoint)@
            == final(alike)@,
        result is None && !old(endpoint)@.wakers.contains(waker) ==> final(endpoint)@ == (
        EndpointView { wakers: old(endpoint)@.wakers.push(waker), ..final(alike)@ }),
{
    assert(old(endpoint)@.wakers.push(waker).last() == waker);
}

/// A connection handed over waits, behind those before it, for whoever asked for it under its
/// key, and wakes everyone waiting.
pub proof fn law_a_handed_over_connection_waits_for_its_owner<T>(
    queue: &mut DetachQueue<T>,
    key: u64,
    connection: T,
    woken: Vec<u64>,
    fresh: DetachQueue<T>,
)
    requires
        call_ensures(DetachQueue::<T>::deliver, (queue, key, connection), woken),
        call_ensures(DetachQueue::<T>::default, (), fresh),
    ensures
        final(queue).ready@ == old(queue).ready@.push((key, connection)),
        final(queue).wakers@.len() == 0,
        woken@ == old(queue).wakers@,
        fresh.ready@.len() == 0 && fresh.wakers@.len() == 0,
{
}

/// Whoever asks under a key gets the first connection under it and no other; whoever asks under
/// zero gets the first there is. What is not taken stays in order.
pub proof fn law_a_connection_is_taken_by_its_key<T>(
    queue: &mut DetachQueue<T>,
    key: u64,
    taken: Option<T>,
)
    requires
        call_ensures(DetachQueue::<T>::take, (queue, key), taken),
    ensures
        ({
            let before = old(queue).ready@;
            let after = final(queue).ready@;
            &&& taken matches Some(connection) ==> exists|at: int|
                {
                    &&& 0 <= at < before.len()
                    &&& (#[trigger] before[at]).1 == connection
                    &&& key == 0 ==> at == 0
                    &&& key != 0 ==> before[at].0 == key
                    &&& forall|i: int| 0 <= i < at ==> (#[trigger] before[i]).0 != key
                    &&& after == before.remove(at)
                }
            &&& taken is None ==> {
                &&& after == before
                &&& key == 0 ==> before.len() == 0
                &&& forall|i: int| 0 <= i < before.len() ==> (#[trigger] before[i]).0 != key
            }
        }),
{
    let before = old(queue).ready@;
    let keys = crate::endpoint::handle::keys_of(before);
    let at = crate::endpoint::handle::first_under(keys, key);
    lemma_first_key(keys, key);
    assert forall|i: int| 0 <= i < at implies (#[trigger] before[i]).0 != key by {
        assert(keys[i] == before[i].0);
    }
    if taken is Some {
        assert(before[at].1 == taken->Some_0);
        assert(keys[at] == before[at].0);
    }
}

/// Nothing before the first under a key is under it.
proof fn lemma_first_key(keys: Seq<u64>, key: u64)
    ensures
        ({
            let at = crate::endpoint::handle::first_under(keys, key);
            &&& 0 <= at <= keys.len()
            &&& forall|i: int| 0 <= i < at ==> #[trigger] keys[i] != key
            &&& key == 0 ==> at == 0
            &&& at < keys.len() ==> key == 0 || keys[at] == key
        }),
    decreases keys.len(),
{
    if keys.len() > 0 && key != 0 && keys[0] != key {
        let rest = keys.skip(1);
        lemma_first_key(rest, key);
        let at = crate::endpoint::handle::first_under(rest, key);
        assert forall|i: int| 0 <= i < at + 1 implies #[trigger] keys[i] != key by {
            if i > 0 {
                assert(rest[i - 1] == keys[i]);
            }
        }
        if at < rest.len() {
            assert(rest[at] == keys[at + 1]);
        }
    }
}

/// Whoever waits for a connection to be handed over gets it, is told why it will not be, or is
/// registered everywhere it might come from.
pub proof fn law_waiting_to_be_handed_a_connection_ends<T>(
    waker: u64,
    key: u64,
    shared: &mut ConnectionShared,
    queue: &mut DetachQueue<T>,
    endpoint: &mut EndpointShared,
    result: Option<Result<T, Error>>,
    alike: &mut DetachQueue<T>,
    taken: Option<T>,
)
    requires
        call_ensures(detaching::<T>, (waker, key, shared, queue, endpoint), result),
        call_ensures(DetachQueue::<T>::take, (alike, key), taken),
        *old(alike) == *old(queue),
    ensures
        taken matches Some(connection) ==> result == Some(Ok::<T, Error>(connection))
            && final(queue).ready@ == final(alike).ready@,
        taken is None && old(shared)@.closed ==> {
            &&& result is Some && result->Some_0 is Err
            &&& result->Some_0->Err_0@.kind == (match old(shared)@.failure {
                Some(failure) => failure.kind,
                None => ErrorKind::LocallyClosed,
            })
        },
        taken is None && !old(shared)@.closed && old(endpoint)@.gone ==> {
            &&& result is Some && result->Some_0 is Err
            &&& result->Some_0->Err_0@.kind == ErrorKind::DriverGone
        },
        taken is None && !old(shared)@.closed && !old(endpoint)@.gone ==> {
            &&& result is None
            &&& final(shared)@.wakers.contains(waker)
            &&& final(queue).wakers@.contains(waker)
            &&& final(endpoint)@.wakers.contains(waker)
            &&& final(queue).ready@ == old(queue).ready@
            &&& old(endpoint)@.wakers.contains(waker) ==> final(endpoint)@ == old(endpoint)@
            &&& !old(endpoint)@.wakers.contains(waker) ==> final(endpoint)@ == (EndpointView {
                wakers: old(endpoint)@.wakers.push(waker),
                ..old(endpoint)@
            })
        },
        result is Some ==> final(shared)@ == old(shared)@ && final(endpoint)@ == old(endpoint)@
            && final(queue).wakers@ == old(queue).wakers@,
        result is Some && result->Some_0 is Err ==> final(queue).ready@ == old(queue).ready@,
{
    assert(old(shared)@.wakers.push(waker).last() == waker);
    assert(old(queue).wakers@.push(waker).last() == waker);
    assert(old(endpoint)@.wakers.push(waker).last() == waker);
}

/// Whoever accepts connections to be handed over gets the first there is, is told that the
/// driver is gone, or waits.
pub proof fn law_accepting_a_handed_over_connection_ends<T>(
    waker: u64,
    queue: &mut DetachQueue<T>,
    endpoint: &mut EndpointShared,
    result: Option<Result<T, Error>>,
    registering: &mut DetachQueue<T>,
)
    requires
        call_ensures(detaching_any::<T>, (waker, queue, endpoint), result),
        call_ensures(DetachQueue::<T>::register, (registering, waker), ()),
    ensures
        ({
            let before = old(queue).ready@;
            &&& before.len() > 0 ==> {
                &&& result == Some(Ok::<T, Error>(before[0].1))
                &&& seq![before[0]] + final(queue).ready@ == before
            }
            &&& before.len() == 0 && old(endpoint)@.gone ==> {
                &&& result is Some && result->Some_0 is Err
                &&& result->Some_0->Err_0@.kind == ErrorKind::DriverGone
            }
            &&& before.len() == 0 && !old(endpoint)@.gone ==> {
                &&& result is None && final(queue).wakers@.contains(waker)
                &&& final(endpoint)@.wakers.contains(waker)
            }
            &&& final(registering).wakers@.contains(waker)
            &&& final(registering).ready == old(registering).ready
            &&& result is Some ==> final(endpoint)@ == old(endpoint)@ && final(queue).wakers@
                == old(queue).wakers@
            &&& before.len() == 0 ==> final(queue).ready@.len() == 0
        }),
{
    let before = old(queue).ready@;
    assert(old(queue).wakers@.push(waker).last() == waker);
    assert(old(endpoint)@.wakers.push(waker).last() == waker);
    assert(old(registering).wakers@.push(waker).last() == waker);
    if before.len() > 0 {
        assert(crate::endpoint::handle::keys_of(before).len() == before.len());
        assert(seq![before[0]] + before.remove(0) =~= before);
    }
}

/// A pass reads up to its bound and no further, stops when the socket has nothing, and knows
/// whether it read anything. A socket that fails fails the pass.
pub proof fn law_a_pass_reads_up_to_its_bound(
    config: Config,
    started: ReadPass,
    pass: &mut ReadPass,
    arrival: Arrival,
    result: Result<Option<Received>, Error>,
    any: ReadPass,
    more: bool,
)
    requires
        call_ensures(ReadPass::new, (&config,), started),
        call_ensures(ReadPass::arrived, (pass, arrival), result),
        call_ensures(ReadPass::wants_more, (&any,), more),
        old(pass).left > 0,
    ensures
        started.left == config.datagrams_per_pass && !started.progressed,
        more <==> any.left > 0,
        arrival matches Arrival::Datagram(received) ==> {
            &&& result == Ok::<Option<Received>, Error>(Some(received))
            &&& final(pass).left == old(pass).left - 1 && final(pass).progressed
        },
        arrival is Pending ==> {
            &&& result == Ok::<Option<Received>, Error>(None)
            &&& final(pass).left == 0 && final(pass).progressed == old(pass).progressed
        },
        arrival matches Arrival::Failed(words) ==> {
            &&& result is Err && result->Err_0@.kind == ErrorKind::Socket
            &&& result->Err_0@.cause == Some(CauseView::Socket(words@))
        },
{
}

/// Another pass follows one that did something, up to eight in a row.
pub proof fn law_passes_follow_while_there_is_work(
    passes: usize,
    read: bool,
    fired: bool,
    pending: bool,
    again: bool,
)
    requires
        call_ensures(another_pass, (passes, read, fired, pending), again),
    ensures
        passes >= 8 ==> !again,
        passes < 8 ==> (again <==> read || fired || pending),
{
}

/// In a pass every connection has its routes, its requests and its timer seen to, in that order,
/// before anything is flushed; and nobody is evicted before what they said was sent.
pub proof fn law_a_pass_sees_to_everyone_and_flushes_before_it_evicts(
    inner: Inner,
    tasks: Vec<ServiceTask>,
    index: u64,
)
    requires
        call_ensures(service, (&inner,), tasks),
        inner@.connections.contains_key(index),
    ensures
        exists|at: int|
            {
                &&& 0 <= at && at + 4 < tasks@.len()
                &&& #[trigger] tasks@[at] == ServiceTask::Routes(index)
                &&& tasks@[at + 1] == ServiceTask::Commands(index)
                &&& tasks@[at + 2] == ServiceTask::Expiry(index)
            },
        tasks@.len() >= 2,
        tasks@[tasks@.len() - 2] == ServiceTask::Flush,
        tasks@[tasks@.len() - 1] == ServiceTask::Evict,
{
    let indices = choose|indices: Seq<u64>|
        {
            &&& indices.no_duplicates()
            &&& indices.to_set() == inner@.connections.dom()
            &&& tasks@ == #[trigger] crate::endpoint::handle::pass_order(indices)
        };
    assert(indices.to_set().contains(index));
    let at = choose|at: int| 0 <= at < indices.len() && indices[at] == index;
    crate::endpoint::handle::law_a_pass_keeps_its_order(indices, at);
    assert(tasks@[3 * at] == ServiceTask::Routes(index));
}

/// A driver runs until it is stopped, is registered to be woken while it runs, and tells whoever
/// waits when it stops.
pub proof fn law_a_driver_runs_until_stopped<Sock, Clk, B, F, S>(
    driver: EndpointDriver<Sock, Clk, B, F, S>,
    waker: u64,
    endpoint: &mut EndpointShared,
    running: bool,
    stopping: &mut EndpointDriver<Sock, Clk, B, F, S>,
    left: &mut EndpointShared,
    woken: Vec<u64>,
)
    requires
        call_ensures(
            EndpointDriver::<Sock, Clk, B, F, S>::start,
            (&driver, waker, endpoint),
            running,
        ),
        call_ensures(EndpointDriver::<Sock, Clk, B, F, S>::stop, (stopping, left), woken),
    ensures
        running <==> !driver.stopped,
        running ==> final(endpoint)@ == (EndpointView {
            driver_waker: Some(waker),
            ..old(endpoint)@
        }),
        !running ==> final(endpoint)@ == old(endpoint)@,
        final(stopping).stopped,
        final(left)@.gone && final(left)@.wakers.len() == 0,
        woken@ == old(left)@.wakers,
{
}

/// An endpoint is built from what it was given, and refuses to be without a source of
/// randomness.
pub proof fn law_an_endpoint_is_built_as_asked<Sock, Clk, B, F, S>(
    builder: EndpointBuilder<Sock, Clk, B, F, S>,
    detachable: bool,
    result: Result<(EndpointShared, EndpointDriver<Sock, Clk, B, F, S>), Error>,
    plain: Result<(EndpointShared, EndpointDriver<Sock, Clk, B, F, S>), Error>,
    letting_go: Result<(EndpointShared, EndpointDriver<Sock, Clk, B, F, S>), Error>,
)
    requires
        call_ensures(
            EndpointBuilder::<Sock, Clk, B, F, S>::assemble,
            (builder, detachable),
            result,
        ),
        call_ensures(EndpointBuilder::<Sock, Clk, B, F, S>::build, (builder,), plain),
        call_ensures(EndpointBuilder::<Sock, Clk, B, F, S>::build_detachable, (builder,), letting_go),
    ensures
        result is Ok <==> builder.entropy is Some,
        plain is Ok <==> builder.entropy is Some,
        letting_go is Ok <==> builder.entropy is Some,
        plain is Ok ==> !plain->Ok_0.1.inner@.detachable,
        letting_go is Ok ==> letting_go->Ok_0.1.inner@.detachable,
        result is Err ==> result->Err_0@.kind == ErrorKind::InvalidInput,
        result matches Ok(made) ==> {
            let driver = made.1;
            &&& builder.entropy == Some(driver.entropy) && driver.socket == builder.socket
            &&& driver.clock == builder.clock && driver.backend == builder.backend
            &&& driver.config == builder.config && !driver.stopped
            &&& driver.inner@.accepts == builder.accepts
            &&& driver.inner@.detachable == detachable
            &&& driver.inner@.next_index == 0 && driver.inner@.outbox.len() == 0
            &&& driver.buffer@.len() == 1500 && driver.send_buffer@.len() == 1500
            &&& driver.validation is Some <==> builder.validation is Some
            &&& driver.validation is Some ==> {
                &&& builder.validation == Some(driver.validation->Some_0.secret)
                &&& driver.validation->Some_0.refilled_at is None
                &&& driver.validation->Some_0.reset_burst == driver.validation->Some_0.reset_budget
                &&& driver.validation->Some_0.reset_budget == (match builder.reset_burst {
                    Some(burst) => burst,
                    None => 100u32,
                })
                &&& driver.validation->Some_0.lifetime@ == (match builder.token_lifetime {
                    Some(lifetime) => lifetime@,
                    None => 10_000_000_000nat,
                })
            }
            &&& !made.0@.gone && made.0@.dials.len() == 0 && made.0@.accepted.len() == 0
        },
{
}

/// Only three kinds of failure may pass on their own: a handshake or a connection that timed
/// out, and a peer that closed.
pub proof fn law_what_may_be_tried_again(kind: ErrorKind, retriable: bool)
    requires
        call_ensures(ErrorKind::is_retriable, (kind,), retriable),
    ensures
        retriable <==> kind is HandshakeTimeout || kind is IdleTimeout || kind is PeerClosed,
{
}

/// A failure says what it was made with, and what is added to it changes nothing else.
pub proof fn law_a_failure_says_what_it_is(
    kind: ErrorKind,
    context: &'static str,
    made: Error,
    closing: Error,
    close: CloseError,
    closed: Error,
    sourcing: Error,
    cause: Cause,
    sourced: Error,
    coding: Error,
    code: ApplicationErrorCode,
    coded: Error,
    words: String,
    socket: Error,
    core: crate::error::Error,
    rejected: Error,
    transport: Error,
)
    requires
        call_ensures(Error::new, (kind, context), made),
        call_ensures(Error::with_close, (closing, close), closed),
        call_ensures(Error::with_source, (sourcing, cause), sourced),
        call_ensures(Error::with_stream_code, (coding, code), coded),
        call_ensures(Error::socket, (context, words), socket),
        call_ensures(Error::rejected, (core,), rejected),
        call_ensures(Error::from, (core,), transport),
    ensures
        made@.kind == kind && made@.context == context@,
        made@.close is None && made@.stream_code is None && made@.cause is None,
        closed@.close == Some(CloseView { reason: close.reason, phrase: close.phrase@ }),
        closed@.kind == closing@.kind && closed@.stream_code == closing@.stream_code,
        sourced@.cause == Some(cause@) && sourced@.kind == sourcing@.kind && sourced@.close
            == sourcing@.close,
        coded@.stream_code == Some(code) && coded@.kind == coding@.kind && coded@.close
            == coding@.close,
        socket@.kind == ErrorKind::Socket && socket@.cause == Some(CauseView::Socket(words@)),
        rejected@.kind == ErrorKind::HandshakeRejected && rejected@.cause == Some(
            CauseView::Transport(core@),
        ),
        transport@.cause == Some(CauseView::Transport(core@)),
        transport@.kind == (match core@.kind {
            crate::error::ErrorKind::InvalidInput => ErrorKind::InvalidInput,
            crate::error::ErrorKind::Closing => ErrorKind::LocallyClosed,
            _ => ErrorKind::Transport,
        }),
{
}

/// What is read of a failure is what it holds.
pub proof fn law_a_failure_reads_as_it_is(
    error: Error,
    kind: ErrorKind,
    code: Option<ApplicationErrorCode>,
    close: Option<&CloseError>,
    cause: Option<&Cause>,
    gone: Error,
    dropped: Error,
    dial: Error,
    died: Error,
)
    requires
        call_ensures(Error::kind, (&error,), kind),
        call_ensures(Error::stream_code, (&error,), code),
        call_ensures(Error::close_error, (&error,), close),
        call_ensures(Error::source, (&error,), cause),
        call_ensures(driver_gone, (), gone),
        call_ensures(driver_dropped, (), dropped),
        call_ensures(dial_dropped, (), dial),
        call_ensures(socket_died, (), died),
    ensures
        kind == error@.kind,
        code == error@.stream_code,
        close is Some <==> error@.close is Some,
        close is Some ==> error@.close->Some_0.reason == close->Some_0.reason
            && error@.close->Some_0.phrase == close->Some_0.phrase@,
        cause is Some <==> error@.cause is Some,
        cause is Some ==> error@.cause->Some_0 == cause->Some_0@,
        gone@.kind == ErrorKind::DriverGone && dropped@.kind == ErrorKind::DriverGone,
        dial@.kind == ErrorKind::DriverGone && died@.kind == ErrorKind::Socket,
{
}

/// An endpoint starts out with what it cannot do without and asks for nothing else; each thing
/// asked for is kept as asked, and nothing else changes.
pub proof fn law_an_endpoint_is_asked_for_one_thing_at_a_time<Sock, Clk, B, F, S>(
    socket: Sock,
    clock: Clk,
    backend: B,
    fresh: EndpointBuilder<Sock, Clk, B, F, S>,
    standard: Config,
    before: EndpointBuilder<Sock, Clk, B, F, S>,
    config: Config,
    configured: EndpointBuilder<Sock, Clk, B, F, S>,
    make: F,
    random: EndpointBuilder<Sock, Clk, B, F, S>,
    accepts: bool,
    open: EndpointBuilder<Sock, Clk, B, F, S>,
    secret: S,
    validating: EndpointBuilder<Sock, Clk, B, F, S>,
    lifetime: Duration,
    living: EndpointBuilder<Sock, Clk, B, F, S>,
    burst: u32,
    resetting: EndpointBuilder<Sock, Clk, B, F, S>,
)
    requires
        call_ensures(
            EndpointBuilder::<Sock, Clk, B, F, S>::new,
            (socket, clock, backend),
            fresh,
        ),
        call_ensures(Config::new, (), standard),
        call_ensures(
            EndpointBuilder::<Sock, Clk, B, F, S>::config,
            (before, config),
            configured,
        ),
        call_ensures(EndpointBuilder::<Sock, Clk, B, F, S>::entropy, (before, make), random),
        call_ensures(EndpointBuilder::<Sock, Clk, B, F, S>::accepts, (before, accepts), open),
        call_ensures(
            EndpointBuilder::<Sock, Clk, B, F, S>::validate_addresses,
            (before, secret),
            validating,
        ),
        call_ensures(
            EndpointBuilder::<Sock, Clk, B, F, S>::token_lifetime,
            (before, lifetime),
            living,
        ),
        call_ensures(
            EndpointBuilder::<Sock, Clk, B, F, S>::stateless_reset_burst,
            (before, burst),
            resetting,
        ),
    ensures
        fresh.socket == socket && fresh.clock == clock && fresh.backend == backend,
        fresh.config.datagrams_per_pass == standard.datagrams_per_pass,
        fresh.config.initial_max_stream_data == standard.initial_max_stream_data,
        fresh.config.initial_max_data == standard.initial_max_data,
        fresh.config.max_streams_bidi == standard.max_streams_bidi,
        fresh.config.max_streams_uni == standard.max_streams_uni,
        fresh.config.max_idle_timeout@ == standard.max_idle_timeout@,
        fresh.config.initial_rtt is None && fresh.config.handshake_timeout is None,
        fresh.entropy is None && !fresh.accepts && fresh.validation is None,
        fresh.token_lifetime is None && fresh.reset_burst is None,
        configured == (EndpointBuilder { config, ..before }),
        random == (EndpointBuilder { entropy: Some(make), ..before }),
        open == (EndpointBuilder { accepts, ..before }),
        validating == (EndpointBuilder { validation: Some(secret), ..before }),
        living == (EndpointBuilder { token_lifetime: Some(lifetime), ..before }),
        resetting == (EndpointBuilder { reset_burst: Some(burst), ..before }),
{
}

/// What seals tokens is what the policy was made with.
pub proof fn law_a_policy_seals_with_its_own_secret<S>(policy: Validation<S>, secret: &S)
    requires
        call_ensures(Validation::<S>::secret, (&policy,), secret),
    ensures
        *secret == policy.secret,
{
}

} // verus!
