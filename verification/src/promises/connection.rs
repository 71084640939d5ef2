//! What a connection promises whoever holds it: that a reader is told what arrived and nothing
//! else, and that what a caller asks for is what is asked.

use vstd::prelude::*;

use crate::endpoint::connection::{
    AcceptStream, Chunk, Connection, HandleView, OpenStream, ReadStream,
};
use crate::endpoint::error::{Error, ErrorKind};
use crate::endpoint::shared::{
    CommandView, ConnectionShared, EndpointShared, Observed, SharedView,
};
use crate::error::ApplicationErrorCode;
use crate::stream::StreamId;

verus! {

/// What is held of a stream that a handle may or may not have heard of: its bytes, whether it
/// is over, and the code it was reset with.
pub open spec fn held_of(handle: HandleView, id: i64) -> (Seq<u8>, bool, Option<
    ApplicationErrorCode,
>) {
    if handle.incoming.contains_key(id) {
        (handle.incoming[id].bytes, handle.incoming[id].finished, handle.incoming[id].reset)
    } else {
        (Seq::empty(), false, None)
    }
}

/// Bytes that arrive are held behind those before them, and end the stream only if they came
/// with its end. No code is made up, and no other stream hears of it.
pub proof fn law_arriving_bytes_are_held_in_order(
    connection: &mut Connection,
    stream: StreamId,
    bytes: Vec<u8>,
    fin: bool,
    other: i64,
)
    requires
        call_ensures(Connection::hear, (connection, &Observed::Data(stream, bytes, fin)), ()),
    ensures
        ({
            let before = held_of(old(connection)@, stream@ as i64);
            let after = held_of(final(connection)@, stream@ as i64);
            &&& after.0 == before.0 + bytes@
            &&& after.1 <==> before.1 || fin
            &&& after.2 == before.2
        }),
        other != stream@ as i64 ==> held_of(final(connection)@, other) == held_of(
            old(connection)@,
            other,
        ),
        final(connection)@.pending == old(connection)@.pending,
        final(connection)@.stopped == old(connection)@.stopped,
        final(connection)@.acked == old(connection)@.acked,
{
}

/// A stream the peer resets is over, with the code of the first end it met; the bytes that came
/// before stay to be read.
pub proof fn law_a_reset_ends_a_stream_and_keeps_its_bytes(
    connection: &mut Connection,
    stream: StreamId,
    code: ApplicationErrorCode,
    other: i64,
)
    requires
        call_ensures(Connection::hear, (connection, &Observed::Reset(stream, code)), ()),
    ensures
        ({
            let before = held_of(old(connection)@, stream@ as i64);
            let after = held_of(final(connection)@, stream@ as i64);
            &&& after.0 == before.0
            &&& after.1
            &&& before.2 is None ==> after.2 == Some(code)
            &&& before.2 is Some ==> after.2 == before.2
        }),
        other != stream@ as i64 ==> held_of(final(connection)@, other) == held_of(
            old(connection)@,
            other,
        ),
        final(connection)@.pending == old(connection)@.pending,
        final(connection)@.stopped == old(connection)@.stopped,
        final(connection)@.acked == old(connection)@.acked,
{
}

/// A stream that closes is over. Where its receiving side closed with a code, and it had none,
/// that code is what its reader will be told; a clean close leaves none.
pub proof fn law_a_close_ends_a_stream_with_its_receiving_code(
    connection: &mut Connection,
    stream: StreamId,
    reason: crate::handlers::StreamCloseReason,
    code: Option<ApplicationErrorCode>,
    other: i64,
)
    requires
        call_ensures(Connection::hear, (connection, &Observed::Closed(stream, reason)), ()),
        call_ensures(crate::handlers::StreamCloseReason::receiving, (&reason,), code),
    ensures
        ({
            let before = held_of(old(connection)@, stream@ as i64);
            let after = held_of(final(connection)@, stream@ as i64);
            &&& after.0 == before.0
            &&& after.1
            &&& before.2 is None ==> after.2 == code
            &&& before.2 is Some ==> after.2 == before.2
        }),
        other != stream@ as i64 ==> held_of(final(connection)@, other) == held_of(
            old(connection)@,
            other,
        ),
        final(connection)@.pending == old(connection)@.pending,
        final(connection)@.stopped == old(connection)@.stopped,
{
}

/// A stream the peer opens waits to be accepted behind those opened before it. A request to
/// stop sending is remembered with its code. Acknowledged bytes add up. Nothing of this is
/// taken for arriving data.
pub proof fn law_openings_stops_and_acknowledgements_are_kept(
    connection: &mut Connection,
    event: Observed,
)
    requires
        call_ensures(Connection::hear, (connection, &event), ()),
        !(event is Data) && !(event is Reset) && !(event is Closed),
    ensures
        ({
            let before = old(connection)@;
            let after = final(connection)@;
            &&& after.incoming == before.incoming
            &&& event matches Observed::Opened(stream) ==> after.pending == before.pending.push(
                stream,
            ) && after.stopped == before.stopped && after.acked == before.acked
            &&& event matches Observed::StopSending(stream, code) ==> {
                &&& after.stopped == before.stopped.insert(stream@ as i64, code)
                &&& after.pending == before.pending && after.acked == before.acked
            }
            &&& event matches Observed::Acked(stream, len) ==> {
                let id = stream@ as i64;
                let sum = if before.acked.contains_key(id) {
                    before.acked[id] + len
                } else {
                    len as int
                };
                &&& after.acked.contains_key(id)
                &&& sum <= u64::MAX ==> after.acked[id] == sum
                &&& forall|other: i64|
                    other != id ==> (#[trigger] after.acked.contains_key(other)
                        == before.acked.contains_key(other)) && (before.acked.contains_key(other)
                        ==> after.acked[other] == before.acked[other])
                &&& after.pending == before.pending && after.stopped == before.stopped
            }
            &&& event is LocallyOpened || event is HandshakeCompleted || event is StreamsExtended
                ==> after == before
        }),
{
}

/// Hearing everything observed is hearing each event in turn, oldest first: one more event
/// observed is one more event heard, last.
pub proof fn law_events_are_heard_in_turn(
    before: &mut Connection,
    queued: &mut ConnectionShared,
    last: Observed,
    more: &mut Connection,
    longer: &mut ConnectionShared,
    then: &mut Connection,
)
    requires
        call_ensures(Connection::absorb, (before, queued), ()),
        call_ensures(Connection::absorb, (more, longer), ()),
        call_ensures(Connection::hear, (then, &last), ()),
        old(more)@ == old(before)@,
        old(longer)@.observed == old(queued)@.observed.push(last),
        old(then)@ == final(before)@,
    ensures
        final(more)@ == final(then)@,
{
    assert(old(longer)@.observed.drop_last() =~= old(queued)@.observed);
}

/// With nothing observed nothing is heard; and whatever was observed is heard once, leaving the
/// rest of what is shared alone.
pub proof fn law_events_are_heard_once(
    connection: &mut Connection,
    shared: &mut ConnectionShared,
)
    requires
        call_ensures(Connection::absorb, (connection, shared), ()),
    ensures
        old(shared)@.observed.len() == 0 ==> final(connection)@ == old(connection)@,
        final(shared)@ == (SharedView { observed: Seq::empty(), ..old(shared)@ }),
{
}

/// A stream is over exactly when something ended it: its last bytes, its close or its reset.
/// Until then a reader is never told that it is.
pub proof fn law_a_stream_is_over_exactly_when_something_ended_it(
    connection: &mut Connection,
    shared: &mut ConnectionShared,
    id: i64,
)
    requires
        call_ensures(Connection::absorb, (connection, shared), ()),
    ensures
        held_of(final(connection)@, id).1 <==> held_of(old(connection)@, id).1 || exists|i: int|
            0 <= i < old(shared)@.observed.len() && match #[trigger] old(shared)@.observed[i] {
                Observed::Data(stream, _, fin) => stream@ as i64 == id && fin,
                Observed::Closed(stream, _) => stream@ as i64 == id,
                Observed::Reset(stream, _) => stream@ as i64 == id,
                _ => false,
            },
{
    lemma_over(old(connection)@, old(shared)@.observed, id);
}

/// Whether a stream is over once some events were heard.
proof fn lemma_over(handle: HandleView, events: Seq<Observed>, id: i64)
    ensures
        held_of(handle.heard_all(events), id).1 <==> held_of(handle, id).1 || exists|i: int|
            0 <= i < events.len() && match #[trigger] events[i] {
                Observed::Data(stream, _, fin) => stream@ as i64 == id && fin,
                Observed::Closed(stream, _) => stream@ as i64 == id,
                Observed::Reset(stream, _) => stream@ as i64 == id,
                _ => false,
            },
    decreases events.len(),
{
    if events.len() > 0 {
        let front = events.drop_last();
        lemma_over(handle, front, id);
        assert(events[events.len() - 1] == events.last());
        assert(forall|i: int| 0 <= i < front.len() ==> front[i] == #[trigger] events[i]);
        assert(forall|i: int| 0 <= i < front.len() ==> #[trigger] front[i] == events[i]);
    }
}

/// What a poll of a read answers, given everything heard by then. Bytes are handed over as they
/// were held, all of them, with the end of the stream if it is over, and are gone from the
/// handle; a stream that is over with nothing left tells its reset, if it was reset; one that
/// is not over, on a connection that is not, makes the reader wait.
pub proof fn law_a_reader_is_told_what_arrived(
    read: ReadStream,
    connection: &mut Connection,
    waker: u64,
    shared: &mut ConnectionShared,
    endpoint: &mut EndpointShared,
    result: (Option<Result<Chunk, Error>>, Option<u64>),
    alike: &mut Connection,
    observed: &mut ConnectionShared,
)
    requires
        call_ensures(ReadStream::poll, (read, connection, waker, shared, endpoint), result),
        call_ensures(Connection::absorb, (alike, observed), ()),
        old(alike)@ == old(connection)@,
        old(observed)@ == old(shared)@,
    ensures
        ({
            let (bytes, over, code) = held_of(final(alike)@, read.stream@ as i64);
            &&& bytes.len() > 0 || over && code is None ==> {
                &&& result.0 is Some && result.0->Some_0 is Ok
                &&& result.0->Some_0->Ok_0.bytes@ == bytes
                &&& result.0->Some_0->Ok_0.fin == over
                &&& held_of(final(connection)@, read.stream@ as i64) == (
                    Seq::<u8>::empty(),
                    over,
                    code,
                )
            }
            &&& bytes.len() == 0 && over && code is Some ==> {
                &&& result.0 is Some && result.0->Some_0 is Err
                &&& result.0->Some_0->Err_0@.kind == ErrorKind::StreamReset
                &&& result.0->Some_0->Err_0@.stream_code == code
            }
            &&& bytes.len() == 0 && !over && old(shared)@.closed ==> {
                &&& result.0 is Some && result.0->Some_0 is Err
                &&& result.0->Some_0->Err_0@.kind == (match old(shared)@.failure {
                    Some(failure) => failure.kind,
                    None => ErrorKind::LocallyClosed,
                })
            }
            &&& bytes.len() == 0 && !over && !old(shared)@.closed ==> {
                &&& result.0 is None
                &&& final(shared)@.wakers.contains(waker)
            }
        }),
{
    assert(old(shared)@.wakers.push(waker).last() == waker);
}

/// Reading bytes gives the peer exactly that much credit back, once, and wakes the driver to
/// do it; reading none gives none.
pub proof fn law_reading_returns_the_credit_read(
    read: ReadStream,
    connection: &mut Connection,
    waker: u64,
    shared: &mut ConnectionShared,
    endpoint: &mut EndpointShared,
    result: (Option<Result<Chunk, Error>>, Option<u64>),
)
    requires
        call_ensures(ReadStream::poll, (read, connection, waker, shared, endpoint), result),
    ensures
        ({
            let read_some = result.0 is Some && result.0->Some_0 is Ok
                && result.0->Some_0->Ok_0.bytes@.len() > 0;
            &&& read_some ==> {
                &&& final(shared)@.commands == old(shared)@.commands.push(
                    CommandView::ExtendCredit(
                        read.stream@,
                        result.0->Some_0->Ok_0.bytes@.len(),
                    ),
                )
                &&& result.1 == old(endpoint)@.driver_waker
                &&& final(endpoint)@.driver_waker is None
            }
            &&& !read_some ==> {
                &&& final(shared)@.commands == old(shared)@.commands
                &&& result.1 is None && final(endpoint)@ == old(endpoint)@
            }
            &&& final(shared)@.observed.len() == 0
            &&& final(shared)@.closed == old(shared)@.closed
            &&& final(shared)@.failure == old(shared)@.failure
        }),
{
}

/// A write on a connection that is open, to a stream the peer has not stopped, is asked for as
/// it was made. One to a stopped stream is refused with the peer's code, and one on a closed
/// connection with what ended it; neither is asked for.
pub proof fn law_a_write_is_asked_for_or_refused(
    connection: &mut Connection,
    stream: StreamId,
    data: &[u8],
    fin: bool,
    shared: &mut ConnectionShared,
    endpoint: &mut EndpointShared,
    result: Result<Option<u64>, Error>,
    alike: &mut Connection,
    observed: &mut ConnectionShared,
)
    requires
        call_ensures(Connection::write, (connection, stream, data, fin, shared, endpoint), result),
        call_ensures(Connection::absorb, (alike, observed), ()),
        old(alike)@ == old(connection)@,
        old(observed)@ == old(shared)@,
    ensures
        ({
            let stopped = final(alike)@.stopped;
            let id = stream@ as i64;
            &&& old(shared)@.closed ==> {
                &&& result is Err && final(shared)@ == old(shared)@
                &&& result->Err_0@.kind == (match old(shared)@.failure {
                    Some(failure) => failure.kind,
                    None => ErrorKind::LocallyClosed,
                })
            }
            &&& !old(shared)@.closed && stopped.contains_key(id) ==> {
                &&& result is Err && result->Err_0@.kind == ErrorKind::StreamStopped
                &&& result->Err_0@.stream_code == Some(stopped[id])
                &&& final(shared)@.commands == old(shared)@.commands
            }
            &&& !old(shared)@.closed && !stopped.contains_key(id) ==> {
                &&& result == Ok::<Option<u64>, Error>(old(endpoint)@.driver_waker)
                &&& final(endpoint)@.driver_waker is None
                &&& final(shared)@.commands == old(shared)@.commands.push(
                    CommandView::Write(stream@, data@, fin),
                )
            }
        }),
{
}

/// Opening a stream asks for one of the kind named, once, and wakes the driver.
pub proof fn law_opening_asks_for_the_kind_named(
    both: &mut ConnectionShared,
    both_endpoint: &mut EndpointShared,
    both_driver: Option<u64>,
    one: &mut ConnectionShared,
    one_endpoint: &mut EndpointShared,
    one_driver: Option<u64>,
    bidi: bool,
    any: &mut ConnectionShared,
    any_endpoint: &mut EndpointShared,
    any_driver: Option<u64>,
)
    requires
        call_ensures(Connection::open_bidi, (both, both_endpoint), both_driver),
        call_ensures(Connection::open_uni, (one, one_endpoint), one_driver),
        call_ensures(Connection::open, (bidi, any, any_endpoint), any_driver),
    ensures
        final(both)@ == (SharedView {
            commands: old(both)@.commands.push(CommandView::OpenStream(true)),
            ..old(both)@
        }),
        both_driver == old(both_endpoint)@.driver_waker,
        final(both_endpoint)@.driver_waker is None,
        final(one)@ == (SharedView {
            commands: old(one)@.commands.push(CommandView::OpenStream(false)),
            ..old(one)@
        }),
        one_driver == old(one_endpoint)@.driver_waker,
        final(one_endpoint)@.driver_waker is None,
        final(any)@ == (SharedView {
            commands: old(any)@.commands.push(CommandView::OpenStream(bidi)),
            ..old(any)@
        }),
        any_driver == old(any_endpoint)@.driver_waker,
        final(any_endpoint)@.driver_waker is None,
{
}

/// Resetting a stream asks for the reset of that stream with that code, and is refused on a
/// connection that is over.
pub proof fn law_a_reset_is_asked_for_as_made(
    stream: StreamId,
    code: ApplicationErrorCode,
    shared: &mut ConnectionShared,
    endpoint: &mut EndpointShared,
    result: Result<Option<u64>, Error>,
)
    requires
        call_ensures(Connection::reset, (stream, code, shared, endpoint), result),
    ensures
        !old(shared)@.closed ==> {
            &&& result == Ok::<Option<u64>, Error>(old(endpoint)@.driver_waker)
            &&& final(endpoint)@.driver_waker is None
            &&& final(shared)@ == (SharedView {
                commands: old(shared)@.commands.push(CommandView::Reset(stream@, code@)),
                ..old(shared)@
            })
        },
        old(shared)@.closed ==> {
            &&& result is Err && final(shared)@ == old(shared)@
            &&& final(endpoint)@ == old(endpoint)@
            &&& result->Err_0@.kind == (match old(shared)@.failure {
                Some(failure) => failure.kind,
                None => ErrorKind::LocallyClosed,
            })
        },
{
}

/// Stopping the peer asks for that, of that stream, with that code, and is refused on a
/// connection that is over.
pub proof fn law_a_stop_is_asked_for_as_made(
    stream: StreamId,
    code: ApplicationErrorCode,
    shared: &mut ConnectionShared,
    endpoint: &mut EndpointShared,
    result: Result<Option<u64>, Error>,
)
    requires
        call_ensures(Connection::stop_sending, (stream, code, shared, endpoint), result),
    ensures
        !old(shared)@.closed ==> {
            &&& result == Ok::<Option<u64>, Error>(old(endpoint)@.driver_waker)
            &&& final(endpoint)@.driver_waker is None
            &&& final(shared)@ == (SharedView {
                commands: old(shared)@.commands.push(CommandView::StopSending(stream@, code@)),
                ..old(shared)@
            })
        },
        old(shared)@.closed ==> {
            &&& result is Err && final(shared)@ == old(shared)@
            &&& final(endpoint)@ == old(endpoint)@
            &&& result->Err_0@.kind == (match old(shared)@.failure {
                Some(failure) => failure.kind,
                None => ErrorKind::LocallyClosed,
            })
        },
{
}

/// Closing asks for a close with the code and reason given. Letting go of a connection that is
/// still open closes it without complaint, and of one that is over asks for nothing.
pub proof fn law_a_close_is_asked_for_as_made(
    code: ApplicationErrorCode,
    reason: &[u8],
    closing: &mut ConnectionShared,
    closing_endpoint: &mut EndpointShared,
    closing_driver: Option<u64>,
    dropped: &mut ConnectionShared,
    dropped_endpoint: &mut EndpointShared,
    dropped_driver: Option<u64>,
)
    requires
        call_ensures(Connection::close, (code, reason, closing, closing_endpoint), closing_driver),
        call_ensures(Connection::abandon, (dropped, dropped_endpoint), dropped_driver),
    ensures
        final(closing)@ == (SharedView {
            commands: old(closing)@.commands.push(CommandView::Close(code@, reason@)),
            ..old(closing)@
        }),
        closing_driver == old(closing_endpoint)@.driver_waker,
        final(closing_endpoint)@.driver_waker is None,
        !old(dropped)@.closed ==> {
            &&& final(dropped)@ == (SharedView {
                commands: old(dropped)@.commands.push(CommandView::Close(0, Seq::empty())),
                ..old(dropped)@
            })
            &&& dropped_driver == old(dropped_endpoint)@.driver_waker
            &&& final(dropped_endpoint)@.driver_waker is None
        },
        old(dropped)@.closed ==> {
            &&& final(dropped)@ == old(dropped)@ && final(dropped_endpoint)@
                == old(dropped_endpoint)@
            &&& dropped_driver is None
        },
{
}

/// Streams the peer opened are accepted in the order they were opened, each once. Without one
/// the caller waits, unless the connection is over.
pub proof fn law_streams_are_accepted_in_the_order_opened(
    accept: AcceptStream,
    connection: &mut Connection,
    waker: u64,
    shared: &mut ConnectionShared,
    result: Option<Result<StreamId, Error>>,
    alike: &mut Connection,
    observed: &mut ConnectionShared,
)
    requires
        call_ensures(AcceptStream::poll, (accept, connection, waker, shared), result),
        call_ensures(Connection::absorb, (alike, observed), ()),
        old(alike)@ == old(connection)@,
        old(observed)@ == old(shared)@,
    ensures
        ({
            let waiting = final(alike)@.pending;
            &&& waiting.len() > 0 ==> {
                &&& result == Some(Ok::<StreamId, Error>(waiting[0]))
                &&& seq![waiting[0]] + final(connection)@.pending == waiting
            }
            &&& waiting.len() == 0 && old(shared)@.closed ==> {
                &&& result is Some && result->Some_0 is Err
                &&& result->Some_0->Err_0@.kind == ErrorKind::LocallyClosed
            }
            &&& waiting.len() == 0 && !old(shared)@.closed ==> {
                &&& result is None && final(shared)@.wakers.contains(waker)
            }
            &&& final(connection)@.incoming == final(alike)@.incoming
            &&& final(shared)@.commands == old(shared)@.commands
        }),
{
    let waiting = final(alike)@.pending;
    assert(old(shared)@.wakers.push(waker).last() == waker);
    if waiting.len() > 0 {
        assert(seq![waiting[0]] + final(connection)@.pending =~= waiting);
    }
}

/// A stream opened here goes to a caller waiting for one of its kind: the first that was
/// opened, and once. Others are left for whoever wants them.
pub proof fn law_an_opened_stream_goes_to_whoever_wants_its_kind(
    open: OpenStream,
    shared: &mut ConnectionShared,
    taken: Option<StreamId>,
)
    requires
        call_ensures(OpenStream::take, (open, shared), taken),
    ensures
        ({
            let before = old(shared)@.observed;
            let after = final(shared)@.observed;
            &&& taken matches Some(id) ==> {
                &&& (id@ / 2) % 2 == (if open.bidi {
                    0int
                } else {
                    1int
                })
                &&& after.len() == before.len() - 1
                &&& exists|at: int|
                    {
                        &&& 0 <= at < before.len()
                        &&& #[trigger] before[at] == Observed::LocallyOpened(id)
                        &&& after == before.remove(at)
                        &&& forall|i: int|
                            0 <= i < at && (#[trigger] before[i]) is LocallyOpened ==> (
                            before[i]->LocallyOpened_0@ / 2) % 2 == (if open.bidi {
                                1int
                            } else {
                                0int
                            })
                    }
            }
            &&& taken is None ==> {
                &&& after == before
                &&& forall|i: int|
                    0 <= i < before.len() && (#[trigger] before[i]) is LocallyOpened ==> (
                    before[i]->LocallyOpened_0@ / 2) % 2 == (if open.bidi {
                        1int
                    } else {
                        0int
                    })
            }
            &&& final(shared)@.commands == old(shared)@.commands
            &&& final(shared)@.wakers == old(shared)@.wakers
        }),
{
    let before = old(shared)@.observed;
    let at = crate::endpoint::connection::first_opened(before, open.wanted());
    lemma_first(before, open.wanted());
    if taken is Some {
        assert(before[at] == Observed::LocallyOpened(taken->Some_0));
    }
}

/// Nothing before the first stream of a kind is of that kind.
proof fn lemma_first(observed: Seq<Observed>, wanted: crate::stream::Directionality)
    ensures
        ({
            let at = crate::endpoint::connection::first_opened(observed, wanted);
            &&& 0 <= at <= observed.len()
            &&& forall|i: int|
                0 <= i < at ==> !crate::endpoint::connection::opened_towards(
                    #[trigger] observed[i],
                    wanted,
                )
        }),
    decreases observed.len(),
{
    if observed.len() > 0 && !crate::endpoint::connection::opened_towards(observed[0], wanted) {
        let rest = observed.skip(1);
        lemma_first(rest, wanted);
        assert forall|i: int|
            0 <= i < crate::endpoint::connection::first_opened(
                observed,
                wanted,
            ) implies !crate::endpoint::connection::opened_towards(
            #[trigger] observed[i],
            wanted,
        ) by {
            if i > 0 {
                assert(rest[i - 1] == observed[i]);
            }
        }
    }
}

/// A caller waiting for a stream is handed one, told why there is none, or woken later: one of
/// the three, in that order.
pub proof fn law_waiting_for_a_stream_ends_with_one_or_a_reason(
    open: OpenStream,
    waker: u64,
    shared: &mut ConnectionShared,
    result: Option<Result<StreamId, Error>>,
    alike: &mut ConnectionShared,
    taken: Option<StreamId>,
)
    requires
        call_ensures(OpenStream::poll, (open, waker, shared), result),
        call_ensures(OpenStream::take, (open, alike), taken),
        old(alike)@ == old(shared)@,
    ensures
        taken matches Some(id) ==> result == Some(Ok::<StreamId, Error>(id)) && final(shared)@
            == final(alike)@,
        taken is None && old(shared)@.closed ==> {
            &&& result is Some && result->Some_0 is Err
            &&& result->Some_0->Err_0@.kind == (match old(shared)@.failure {
                Some(failure) => failure.kind,
                None => ErrorKind::LocallyClosed,
            })
            &&& final(shared)@ == old(shared)@
        },
        taken is None && !old(shared)@.closed ==> {
            &&& result is None
            &&& final(shared)@.wakers.contains(waker)
            &&& final(shared)@.observed == old(shared)@.observed
        },
{
    assert(old(shared)@.wakers.push(waker).last() == waker);
}

/// What a handle says was acknowledged, and what the peer stopped a stream with, is what was
/// heard of that stream.
pub proof fn law_a_handle_says_what_it_heard(
    stream: StreamId,
    counting: &mut Connection,
    counted: &mut ConnectionShared,
    count: u64,
    asking: &mut Connection,
    asked: &mut ConnectionShared,
    code: Option<ApplicationErrorCode>,
)
    requires
        call_ensures(Connection::acked_bytes, (counting, stream, counted), count),
        call_ensures(Connection::stop_sending_code, (asking, stream, asked), code),
    ensures
        count == (if final(counting)@.acked.contains_key(stream@ as i64) {
            final(counting)@.acked[stream@ as i64]
        } else {
            0
        }),
        code is Some <==> final(asking)@.stopped.contains_key(stream@ as i64),
        code matches Some(told) ==> told == final(asking)@.stopped[stream@ as i64],
        final(counted)@.observed.len() == 0,
        final(asked)@.observed.len() == 0,
{
}

/// What a handle hears in answering a question is what it would have heard anyway.
pub proof fn law_asking_hears_what_was_observed(
    stream: StreamId,
    counting: &mut Connection,
    counted: &mut ConnectionShared,
    count: u64,
    asking: &mut Connection,
    asked: &mut ConnectionShared,
    code: Option<ApplicationErrorCode>,
    alike: &mut Connection,
    observed: &mut ConnectionShared,
)
    requires
        call_ensures(Connection::acked_bytes, (counting, stream, counted), count),
        call_ensures(Connection::stop_sending_code, (asking, stream, asked), code),
        call_ensures(Connection::absorb, (alike, observed), ()),
        old(counting)@ == old(alike)@,
        old(asking)@ == old(alike)@,
        old(counted)@ == old(observed)@,
        old(asked)@ == old(observed)@,
    ensures
        final(counting)@ == final(alike)@,
        final(asking)@ == final(alike)@,
        final(counted)@ == final(observed)@,
        final(asked)@ == final(observed)@,
{
}

/// A connection has failed, to its holder, exactly when it is over, and then says how.
pub proof fn law_a_failure_is_told_once_the_connection_is_over(
    shared: ConnectionShared,
    failure: Option<Error>,
)
    requires
        call_ensures(Connection::failure, (&shared,), failure),
    ensures
        failure is Some <==> shared@.closed,
        failure matches Some(error) ==> error@.kind == (match shared@.failure {
            Some(first) => first.kind,
            None => ErrorKind::LocallyClosed,
        }) && error@.close == (match shared@.failure {
            Some(first) => first.close,
            None => None,
        }),
{
}

/// A handle starts having heard nothing, and a read or an accept is of what it was asked for.
pub proof fn law_a_new_handle_has_heard_nothing(
    connection: Connection,
    handle: Connection,
    stream: StreamId,
    read: ReadStream,
)
    requires
        call_ensures(Connection::new, (), connection),
        call_ensures(Connection::read, (&handle, stream), read),
    ensures
        forall|id: i64| held_of(connection@, id)
            == (Seq::<u8>::empty(), false, None::<ApplicationErrorCode>),
        connection@.pending.len() == 0,
        forall|id: i64| !(#[trigger] connection@.stopped.contains_key(id)),
        forall|id: i64| !(#[trigger] connection@.acked.contains_key(id)),
        read.stream == stream,
{
}

} // verus!
