//! A live connection, from the caller's side.
//!
//! Everything here is a request to the driver rather than an operation on a connection.
//! Received bytes are already demultiplexed by the time they arrive, so a per-stream reader
//! is just a queue; a write queues bytes and waits, because which stream gets space in the
//! next packet is the driver's decision.
//!
//! Each operation looks at the shared state and, where it has to wait, registers for a wake
//! in the same step, so that nothing can happen in between.

use std::collections::BTreeMap;

use vstd::prelude::*;

use crate::endpoint::error::{Error, ErrorKind, ErrorView};
use crate::endpoint::shared::{
    with_waker, Command, CommandView, ConnectionShared, EndpointShared, EndpointView, Observed,
    SharedView,
};
use crate::error::ApplicationErrorCode;
use crate::stream::{direction, Directionality, StreamId};

verus! {

/// How a reset is described.
pub const STREAM_RESET: &'static str = "the peer reset this stream";

/// How a stop is described.
pub const STREAM_STOPPED: &'static str =
    "the peer asked this endpoint to stop sending on this stream";

/// How a connection that ended while streams were being accepted is described.
pub const ENDED_ACCEPTING: &'static str = "the connection ended before a stream was accepted";

/// Bytes and end-of-stream state a caller has not yet read.
#[derive(Debug)]
pub struct Incoming {
    bytes: Vec<u8>,
    finished: bool,
    reset: Option<ApplicationErrorCode>,
}

/// What an [`Incoming`] holds.
#[verifier::ext_equal]
pub struct IncomingView {
    /// Bytes not yet read.
    pub bytes: Seq<u8>,
    /// Whether no more are coming.
    pub finished: bool,
    /// The code the peer reset the stream with. A reset is not an ordinary end: the bytes
    /// already delivered are still valid, but no more are coming and the peer said why.
    pub reset: Option<ApplicationErrorCode>,
}

impl View for Incoming {
    type V = IncomingView;

    closed spec fn view(&self) -> IncomingView {
        IncomingView { bytes: self.bytes@, finished: self.finished, reset: self.reset }
    }
}

impl IncomingView {
    /// A stream nothing has arrived on.
    pub open spec fn quiet() -> Self {
        IncomingView { bytes: Seq::empty(), finished: false, reset: None }
    }

    /// Ended, with a code that counts where no earlier one does.
    pub open spec fn ended(self, code: Option<ApplicationErrorCode>) -> Self {
        IncomingView {
            finished: true,
            reset: if self.reset is Some {
                self.reset
            } else {
                code
            },
            ..self
        }
    }
}

/// A handle, mathematically. Streams are known by their numbers.
#[verifier::ext_equal]
pub struct HandleView {
    /// What has arrived and not been read, per stream.
    pub incoming: Map<i64, IncomingView>,
    /// Streams the peer opened that have not been accepted, oldest first.
    pub pending: Seq<StreamId>,
    /// Streams the peer asked this endpoint to stop sending on, with the code it sent.
    pub stopped: Map<i64, ApplicationErrorCode>,
    /// Bytes the peer has acknowledged, per stream.
    pub acked: Map<i64, u64>,
}

/// The number a stream is known by.
pub open spec fn number(stream: StreamId) -> i64 {
    stream@ as i64
}

/// A running total, starting over from zero past the largest.
pub open spec fn running_total(total: u64, len: u64) -> u64 {
    if total + len > u64::MAX {
        (total + len - u64::MAX - 1) as u64
    } else {
        (total + len) as u64
    }
}

impl HandleView {
    /// A handle that has heard nothing yet.
    pub open spec fn fresh() -> Self {
        HandleView {
            incoming: Map::empty(),
            pending: Seq::empty(),
            stopped: Map::empty(),
            acked: Map::empty(),
        }
    }

    /// What has arrived on a stream and not been read.
    pub open spec fn slot(self, stream: i64) -> IncomingView {
        if self.incoming.contains_key(stream) {
            self.incoming[stream]
        } else {
            IncomingView::quiet()
        }
    }

    /// How much of a stream has been acknowledged.
    pub open spec fn acknowledged(self, stream: i64) -> u64 {
        if self.acked.contains_key(stream) {
            self.acked[stream]
        } else {
            0
        }
    }

    /// With a stream's unread part in a new state.
    pub open spec fn with_slot(self, stream: i64, slot: IncomingView) -> Self {
        HandleView { incoming: self.incoming.insert(stream, slot), ..self }
    }

    /// Having heard one more thing.
    pub open spec fn heard(self, event: Observed) -> Self {
        match event {
            Observed::Data(stream, bytes, fin) => {
                let slot = self.slot(number(stream));
                self.with_slot(
                    number(stream),
                    IncomingView {
                        bytes: slot.bytes + bytes@,
                        finished: slot.finished || fin,
                        ..slot
                    },
                )
            },
            Observed::Opened(stream) => HandleView { pending: self.pending.push(stream), ..self },
            Observed::Closed(stream, reason) => self.with_slot(
                number(stream),
                self.slot(number(stream)).ended(reason.receiving_code()),
            ),
            Observed::Reset(stream, code) => self.with_slot(
                number(stream),
                self.slot(number(stream)).ended(Some(code)),
            ),
            Observed::StopSending(stream, code) => HandleView {
                stopped: self.stopped.insert(number(stream), code),
                ..self
            },
            Observed::Acked(stream, len) => HandleView {
                acked: self.acked.insert(
                    number(stream),
                    running_total(self.acknowledged(number(stream)), len),
                ),
                ..self
            },
            _ => self,
        }
    }

    /// Having heard a run of things, in order.
    pub open spec fn heard_all(self, events: Seq<Observed>) -> Self
        decreases events.len(),
    {
        if events.len() == 0 {
            self
        } else {
            self.heard_all(events.drop_last()).heard(events.last())
        }
    }

    /// What a reader of a stream is told.
    pub open spec fn told(self, stream: i64) -> Told {
        let slot = self.slot(stream);
        if slot.bytes.len() == 0 && !slot.finished {
            Told::Nothing
        } else if slot.bytes.len() == 0 && slot.reset is Some {
            Told::Reset(slot.reset->Some_0)
        } else {
            Told::Chunk(slot.bytes, slot.finished)
        }
    }

    /// With what has arrived on a stream read.
    pub open spec fn drained(self, stream: i64) -> Self {
        self.with_slot(stream, IncomingView { bytes: Seq::empty(), ..self.slot(stream) })
    }
}

/// What a reader of a stream is told.
pub enum Told {
    /// Nothing yet.
    Nothing,
    /// These bytes, and whether they are the last. A final chunk may have none, which is how
    /// a stream ends without a final byte.
    Chunk(Seq<u8>, bool),
    /// The peer reset the stream, and everything it delivered first has been read.
    Reset(ApplicationErrorCode),
}

/// Bytes read from a stream.
#[derive(Debug, PartialEq, Eq)]
pub struct Chunk {
    /// The bytes, which may be none when only the end of the stream arrived.
    pub bytes: Vec<u8>,
    /// Whether the peer will send nothing more on this stream.
    pub fin: bool,
}

impl Clone for Chunk {
    fn clone(&self) -> (copy: Self)
        ensures
            copy.bytes@ == self.bytes@,
            copy.fin == self.fin,
    {
        Chunk { bytes: vstd::slice::slice_to_vec(self.bytes.as_slice()), fin: self.fin }
    }
}

/// A shared state once everything recorded in it has been taken.
pub open spec fn unobserved(shared: SharedView) -> SharedView {
    SharedView { observed: Seq::empty(), ..shared }
}

/// What a read is answered with.
pub enum Answer {
    /// Nothing yet.
    Pending,
    /// These bytes, and whether they are the last.
    Chunk(Seq<u8>, bool),
    /// Why nothing more can be read.
    Failed(ErrorView),
}

/// A read, and everything it leaves.
pub struct ReadView {
    /// What it is answered with.
    pub answer: Answer,
    /// The handle.
    pub handle: HandleView,
    /// What the handle and the driver share.
    pub shared: SharedView,
    /// What the endpoint's handles and its driver share.
    pub endpoint: EndpointView,
    /// The driver, where this woke it.
    pub driver: Option<u64>,
}

/// What reading a stream comes to: what has arrived is handed over and the peer given back
/// that much credit; or why no more will come, which a reset says before the connection's
/// end does; or nothing yet, and the reader waits.
pub open spec fn after_read(
    handle: HandleView,
    stream: StreamId,
    waker: u64,
    shared: SharedView,
    endpoint: EndpointView,
) -> ReadView {
    let heard = handle.heard_all(shared.observed);
    let rest = unobserved(shared);
    let still = ReadView {
        answer: Answer::Pending,
        handle: heard,
        shared: rest,
        endpoint,
        driver: None,
    };
    match heard.told(number(stream)) {
        Told::Chunk(bytes, fin) => {
            let answered = ReadView {
                answer: Answer::Chunk(bytes, fin),
                handle: heard.drained(number(stream)),
                ..still
            };
            if bytes.len() > 0 {
                ReadView {
                    shared: rest.asked(CommandView::ExtendCredit(stream@, bytes.len())),
                    endpoint: endpoint.driver_woken(),
                    driver: endpoint.driver_waker,
                    ..answered
                }
            } else {
                answered
            }
        },
        Told::Reset(code) => ReadView {
            answer: Answer::Failed(
                ErrorView {
                    stream_code: Some(code),
                    ..ErrorView::plain(ErrorKind::StreamReset, STREAM_RESET@)
                },
            ),
            ..still
        },
        Told::Nothing => if rest.closed {
            ReadView { answer: Answer::Failed(rest.explanation()), ..still }
        } else {
            ReadView {
                shared: SharedView { wakers: with_waker(rest.wakers, waker), ..rest },
                ..still
            }
        },
    }
}

/// A live connection.
#[derive(Debug)]
pub struct Connection {
    incoming: BTreeMap<i64, Incoming>,
    pending_streams: Vec<StreamId>,
    stopped: BTreeMap<i64, ApplicationErrorCode>,
    acked: BTreeMap<i64, u64>,
}

impl View for Connection {
    type V = HandleView;

    closed spec fn view(&self) -> HandleView {
        HandleView {
            incoming: self.incoming@.map_values(|slot: Incoming| slot@),
            pending: self.pending_streams@,
            stopped: self.stopped@,
            acked: self.acked@,
        }
    }
}

proof fn lemma_number_order()
    ensures
        vstd::laws_cmp::obeys_cmp::<i64>(),
        vstd::std_specs::btree::key_obeys_cmp_spec::<i64>(),
{
    broadcast use vstd::laws_cmp::group_laws_cmp;
    broadcast use vstd::std_specs::btree::group_btree_axioms;
}

impl Connection {
    /// A handle that has heard nothing yet.
    pub fn new() -> (connection: Self)
        ensures
            connection@ == HandleView::fresh(),
    {
        proof {
            lemma_number_order();
        }
        broadcast use vstd::std_specs::btree::group_btree_axioms;

        let connection = Self {
            incoming: BTreeMap::new(),
            pending_streams: Vec::new(),
            stopped: BTreeMap::new(),
            acked: BTreeMap::new(),
        };
        assert(connection@ =~= HandleView::fresh());
        connection
    }

    /// Takes the unread part of a stream out of the table.
    fn take_slot(&mut self, stream: i64) -> (slot: Incoming)
        ensures
            slot@ == old(self)@.slot(stream),
            final(self)@ == (HandleView {
                incoming: old(self)@.incoming.remove(stream),
                ..old(self)@
            }),
    {
        proof {
            lemma_number_order();
        }
        broadcast use vstd::std_specs::btree::group_btree_axioms;

        let slot = match self.incoming.remove(&stream) {
            Some(slot) => slot,
            None => Incoming { bytes: Vec::new(), finished: false, reset: None },
        };
        assert(self@.incoming =~= old(self)@.incoming.remove(stream));
        assert(slot@ =~= old(self)@.slot(stream));
        slot
    }

    /// Puts the unread part of a stream into the table.
    fn put_slot(&mut self, stream: i64, slot: Incoming)
        ensures
            final(self)@ == old(self)@.with_slot(stream, slot@),
    {
        proof {
            lemma_number_order();
        }
        broadcast use vstd::std_specs::btree::group_btree_axioms;

        self.incoming.insert(stream, slot);
        assert(self@.incoming =~= old(self)@.incoming.insert(stream, slot@));
    }

    /// Ends a stream.
    fn end(&mut self, stream: i64, code: Option<ApplicationErrorCode>)
        ensures
            final(self)@ == old(self)@.with_slot(stream, old(self)@.slot(stream).ended(code)),
    {
        let mut slot = self.take_slot(stream);
        slot.finished = true;
        if slot.reset.is_none() {
            slot.reset = code;
        }
        self.put_slot(stream, slot);
        assert(self@ =~= old(self)@.with_slot(stream, old(self)@.slot(stream).ended(code)));
    }

    /// Takes in one thing the driver recorded.
    ///
    /// The receiving direction's code is the one that concerns a reader: it says why the
    /// bytes stopped. The sending direction's belongs to writes and is reported as a request
    /// to stop.
    pub fn hear(&mut self, event: &Observed)
        ensures
            final(self)@ == old(self)@.heard(*event),
    {
        proof {
            lemma_number_order();
        }
        broadcast use vstd::std_specs::btree::group_btree_axioms;

        match event {
            Observed::Data(stream, bytes, fin) => {
                let mut slot = self.take_slot(stream.get());
                let ghost before = slot@;
                slot.bytes.extend_from_slice(bytes.as_slice());
                assert(slot.bytes@ =~= before.bytes + bytes@);
                slot.finished = slot.finished || *fin;
                self.put_slot(stream.get(), slot);
                assert(self@ =~= old(self)@.heard(*event));
            },
            Observed::Opened(stream) => self.pending_streams.push(*stream),
            Observed::Closed(stream, reason) => self.end(stream.get(), reason.receiving()),
            Observed::Reset(stream, code) => self.end(stream.get(), Some(*code)),
            Observed::StopSending(stream, code) => {
                self.stopped.insert(stream.get(), *code);
            },
            Observed::Acked(stream, len) => {
                let total: u64 = match self.acked.get(&stream.get()) {
                    Some(total) => *total,
                    None => 0,
                };
                self.acked.insert(stream.get(), total.wrapping_add(*len));
            },
            Observed::LocallyOpened(_) | Observed::HandshakeCompleted | Observed::StreamsExtended(
                _,
            ) => {},
        }
    }

    /// Moves everything the driver has recorded into this handle.
    pub fn absorb(&mut self, shared: &mut ConnectionShared)
        ensures
            final(self)@ == old(self)@.heard_all(old(shared)@.observed),
            final(shared)@ == unobserved(old(shared)@),
    {
        let observed = shared.take_observed();
        let mut at: usize = 0;
        assert(observed@.take(0) =~= Seq::empty());
        while at < observed.len()
            invariant
                at <= observed@.len(),
                self@ == old(self)@.heard_all(observed@.take(at as int)),
            decreases observed.len() - at,
        {
            assert(observed@.take(at + 1).drop_last() =~= observed@.take(at as int));
            self.hear(&observed[at]);
            at += 1;
        }
        assert(observed@.take(at as int) =~= observed@);
    }

    /// Asks for a stream to be opened, and wakes the driver.
    pub fn open(bidi: bool, shared: &mut ConnectionShared, endpoint: &mut EndpointShared) -> (driver:
        Option<u64>)
        ensures
            final(shared)@ == old(shared)@.asked(CommandView::OpenStream(bidi)),
            final(endpoint)@ == old(endpoint)@.driver_woken(),
            driver == old(endpoint)@.driver_waker,
    {
        shared.push(endpoint, Command::OpenStream { bidi })
    }

    /// Asks for a bidirectional stream to be opened.
    pub fn open_bidi(shared: &mut ConnectionShared, endpoint: &mut EndpointShared) -> (driver:
        Option<u64>)
        ensures
            final(shared)@ == old(shared)@.asked(CommandView::OpenStream(true)),
            final(endpoint)@ == old(endpoint)@.driver_woken(),
            driver == old(endpoint)@.driver_waker,
    {
        Self::open(true, shared, endpoint)
    }

    /// Asks for a unidirectional stream to be opened.
    pub fn open_uni(shared: &mut ConnectionShared, endpoint: &mut EndpointShared) -> (driver:
        Option<u64>)
        ensures
            final(shared)@ == old(shared)@.asked(CommandView::OpenStream(false)),
            final(endpoint)@ == old(endpoint)@.driver_woken(),
            driver == old(endpoint)@.driver_waker,
    {
        Self::open(false, shared, endpoint)
    }

    /// Writes bytes to a stream, optionally ending it, and wakes the driver.
    ///
    /// Writing to a stream the peer has asked us to stop sending on would spend the
    /// connection's flow-control window on bytes nothing will read, so it is refused with the
    /// code the peer sent.
    pub fn write(
        &mut self,
        stream: StreamId,
        data: &[u8],
        fin: bool,
        shared: &mut ConnectionShared,
        endpoint: &mut EndpointShared,
    ) -> (result: Result<Option<u64>, Error>)
        ensures
            ({
                let handle = old(self)@.heard_all(old(shared)@.observed);
                if old(shared)@.closed {
                    &&& result matches Err(error) && error@ == old(shared)@.explanation()
                    &&& final(self)@ == old(self)@
                    &&& final(shared)@ == old(shared)@
                    &&& final(endpoint)@ == old(endpoint)@
                } else if handle.stopped.contains_key(number(stream)) {
                    &&& result matches Err(error) && error@ == (ErrorView {
                        stream_code: Some(handle.stopped[number(stream)]),
                        ..ErrorView::plain(ErrorKind::StreamStopped, STREAM_STOPPED@)
                    })
                    &&& final(self)@ == handle
                    &&& final(shared)@ == unobserved(old(shared)@)
                    &&& final(endpoint)@ == old(endpoint)@
                } else {
                    &&& result == Ok::<Option<u64>, Error>(old(endpoint)@.driver_waker)
                    &&& final(self)@ == handle
                    &&& final(shared)@ == unobserved(old(shared)@).asked(
                        CommandView::Write(stream@, data@, fin),
                    )
                    &&& final(endpoint)@ == old(endpoint)@.driver_woken()
                }
            }),
    {
        if shared.is_closed() {
            return Err(shared.failure());
        }
        self.absorb(shared);
        match self.stop_code(stream) {
            Some(code) => Err(
                Error::new(ErrorKind::StreamStopped, STREAM_STOPPED).with_stream_code(code),
            ),
            None => Ok(
                shared.push(
                    endpoint,
                    Command::Write { stream, data: vstd::slice::slice_to_vec(data), fin },
                ),
            ),
        }
    }

    /// The code the peer asked this endpoint to stop with, as far as this handle has heard.
    fn stop_code(&self, stream: StreamId) -> (code: Option<ApplicationErrorCode>)
        ensures
            code == (if self@.stopped.contains_key(number(stream)) {
                Some(self@.stopped[number(stream)])
            } else {
                None
            }),
    {
        proof {
            lemma_number_order();
        }
        broadcast use vstd::std_specs::btree::group_btree_axioms;

        match self.stopped.get(&stream.get()) {
            Some(code) => Some(*code),
            None => None,
        }
    }

    /// Reads from a stream, once polled.
    pub fn read(&self, stream: StreamId) -> (pending: ReadStream)
        ensures
            pending == (ReadStream { stream }),
    {
        ReadStream { stream }
    }

    /// Whether anything has ever arrived on a stream.
    fn has_slot(&self, stream: StreamId) -> (known: bool)
        ensures
            known == self@.incoming.contains_key(number(stream)),
    {
        proof {
            lemma_number_order();
        }
        broadcast use vstd::std_specs::btree::group_btree_axioms;

        self.incoming.contains_key(&stream.get())
    }

    /// Tells the driver the application has consumed bytes, so credit can be returned.
    fn consumed(
        stream: StreamId,
        bytes: usize,
        shared: &mut ConnectionShared,
        endpoint: &mut EndpointShared,
    ) -> (driver: Option<u64>)
        ensures
            if bytes == 0 {
                &&& final(shared)@ == old(shared)@
                &&& final(endpoint)@ == old(endpoint)@
                &&& driver is None
            } else {
                &&& final(shared)@ == old(shared)@.asked(
                    CommandView::ExtendCredit(stream@, bytes as nat),
                )
                &&& final(endpoint)@ == old(endpoint)@.driver_woken()
                &&& driver == old(endpoint)@.driver_waker
            },
    {
        if bytes == 0 {
            return None;
        }
        shared.push(endpoint, Command::ExtendCredit { stream, bytes: bytes as u64 })
    }

    /// Resets a stream, discarding anything not yet delivered.
    pub fn reset(
        stream: StreamId,
        code: ApplicationErrorCode,
        shared: &mut ConnectionShared,
        endpoint: &mut EndpointShared,
    ) -> (result: Result<Option<u64>, Error>)
        ensures
            if old(shared)@.closed {
                &&& result matches Err(error) && error@ == old(shared)@.explanation()
                &&& final(shared)@ == old(shared)@
                &&& final(endpoint)@ == old(endpoint)@
            } else {
                &&& result == Ok::<Option<u64>, Error>(old(endpoint)@.driver_waker)
                &&& final(shared)@ == old(shared)@.asked(CommandView::Reset(stream@, code@))
                &&& final(endpoint)@ == old(endpoint)@.driver_woken()
            },
    {
        if shared.is_closed() {
            return Err(shared.failure());
        }
        Ok(shared.push(endpoint, Command::Reset(stream, code)))
    }

    /// Asks the peer to stop sending on a stream.
    pub fn stop_sending(
        stream: StreamId,
        code: ApplicationErrorCode,
        shared: &mut ConnectionShared,
        endpoint: &mut EndpointShared,
    ) -> (result: Result<Option<u64>, Error>)
        ensures
            if old(shared)@.closed {
                &&& result matches Err(error) && error@ == old(shared)@.explanation()
                &&& final(shared)@ == old(shared)@
                &&& final(endpoint)@ == old(endpoint)@
            } else {
                &&& result == Ok::<Option<u64>, Error>(old(endpoint)@.driver_waker)
                &&& final(shared)@ == old(shared)@.asked(CommandView::StopSending(stream@, code@))
                &&& final(endpoint)@ == old(endpoint)@.driver_woken()
            },
    {
        if shared.is_closed() {
            return Err(shared.failure());
        }
        Ok(shared.push(endpoint, Command::StopSending(stream, code)))
    }

    /// Closes the connection, telling the peer why.
    pub fn close(
        code: ApplicationErrorCode,
        reason: &[u8],
        shared: &mut ConnectionShared,
        endpoint: &mut EndpointShared,
    ) -> (driver: Option<u64>)
        ensures
            final(shared)@ == old(shared)@.asked(CommandView::Close(code@, reason@)),
            final(endpoint)@ == old(endpoint)@.driver_woken(),
            driver == old(endpoint)@.driver_waker,
    {
        shared.push(endpoint, Command::Close(code, vstd::slice::slice_to_vec(reason)))
    }

    /// Closes the connection when its handle is dropped, unless it is over already.
    ///
    /// Leaving a connection running with nothing able to reach it would leak an entry in the
    /// endpoint until its idle timeout.
    pub fn abandon(shared: &mut ConnectionShared, endpoint: &mut EndpointShared) -> (driver: Option<
        u64,
    >)
        ensures
            if old(shared)@.closed {
                &&& final(shared)@ == old(shared)@
                &&& final(endpoint)@ == old(endpoint)@
                &&& driver is None
            } else {
                &&& final(shared)@ == old(shared)@.asked(CommandView::Close(0, Seq::empty()))
                &&& final(endpoint)@ == old(endpoint)@.driver_woken()
                &&& driver == old(endpoint)@.driver_waker
            },
    {
        if shared.is_closed() {
            return None;
        }
        shared.push(endpoint, Command::Close(ApplicationErrorCode::new(0), Vec::new()))
    }

    /// Waits for the peer to open a stream, once polled.
    pub fn accept_stream(&self) -> (pending: AcceptStream)
        ensures
            pending == (AcceptStream {}),
    {
        AcceptStream {}
    }

    /// How many bytes the peer has acknowledged on a stream.
    pub fn acked_bytes(&mut self, stream: StreamId, shared: &mut ConnectionShared) -> (count: u64)
        ensures
            final(self)@ == old(self)@.heard_all(old(shared)@.observed),
            final(shared)@ == unobserved(old(shared)@),
            count == final(self)@.acknowledged(number(stream)),
    {
        self.absorb(shared);
        proof {
            lemma_number_order();
        }
        broadcast use vstd::std_specs::btree::group_btree_axioms;

        match self.acked.get(&stream.get()) {
            Some(total) => *total,
            None => 0,
        }
    }

    /// The code the peer sent if it asked this endpoint to stop sending on a stream.
    pub fn stop_sending_code(&mut self, stream: StreamId, shared: &mut ConnectionShared) -> (code:
        Option<ApplicationErrorCode>)
        ensures
            final(self)@ == old(self)@.heard_all(old(shared)@.observed),
            final(shared)@ == unobserved(old(shared)@),
            code == (if final(self)@.stopped.contains_key(number(stream)) {
                Some(final(self)@.stopped[number(stream)])
            } else {
                None
            }),
    {
        self.absorb(shared);
        self.stop_code(stream)
    }

    /// Why the connection ended, if it has.
    pub fn failure(shared: &ConnectionShared) -> (failure: Option<Error>)
        ensures
            failure is Some <==> shared@.closed,
            failure matches Some(error) ==> error@ == shared@.explanation(),
    {
        if shared.is_closed() {
            Some(shared.failure())
        } else {
            None
        }
    }
}

/// Whether an observation is a stream this endpoint opened in a given direction.
pub open spec fn opened_towards(event: Observed, wanted: Directionality) -> bool {
    event matches Observed::LocallyOpened(id) && direction(id@) == wanted
}

/// The first stream this endpoint opened in a given direction, or past the end.
pub open spec fn first_opened(observed: Seq<Observed>, wanted: Directionality) -> int
    decreases observed.len(),
{
    if observed.len() == 0 || opened_towards(observed[0], wanted) {
        0
    } else {
        1 + first_opened(observed.skip(1), wanted)
    }
}

proof fn lemma_first_opened(observed: Seq<Observed>, wanted: Directionality, at: int)
    requires
        0 <= at <= observed.len(),
        forall|i: int| 0 <= i < at ==> !opened_towards(observed[i], wanted),
        at < observed.len() ==> opened_towards(observed[at], wanted),
    ensures
        first_opened(observed, wanted) == at,
    decreases at,
{
    if at > 0 {
        let rest = observed.skip(1);
        assert forall|i: int| 0 <= i < at - 1 implies !opened_towards(rest[i], wanted) by {
            assert(rest[i] == observed[i + 1]);
        }
        if at < observed.len() {
            assert(rest[at - 1] == observed[at]);
        }
        lemma_first_opened(rest, wanted, at - 1);
    }
}

/// A stream being opened.
#[derive(Clone, Copy, Debug)]
pub struct OpenStream {
    /// Whether a bidirectional one was asked for.
    pub bidi: bool,
}

impl OpenStream {
    /// Which direction was asked for.
    pub open spec fn wanted(self) -> Directionality {
        if self.bidi {
            Directionality::Bidirectional
        } else {
            Directionality::Unidirectional
        }
    }

    /// Takes the first stream this endpoint opened with the directionality asked for.
    ///
    /// Matching on directionality matters when a bidirectional and a unidirectional open are
    /// outstanding at once: without it the two could resolve with each other's stream.
    pub fn take(self, shared: &mut ConnectionShared) -> (taken: Option<StreamId>)
        ensures
            ({
                let observed = old(shared)@.observed;
                let at = first_opened(observed, self.wanted());
                &&& 0 <= at <= observed.len()
                &&& match taken {
                    Some(id) => {
                        &&& at < observed.len()
                        &&& observed[at] == Observed::LocallyOpened(id)
                        &&& direction(id@) == self.wanted()
                        &&& final(shared)@ == (SharedView {
                            observed: observed.remove(at),
                            ..old(shared)@
                        })
                    },
                    None => at == observed.len() && final(shared)@ == old(shared)@,
                }
            }),
    {
        let wanted = if self.bidi {
            Directionality::Bidirectional
        } else {
            Directionality::Unidirectional
        };
        let mut at: usize = 0;
        while at < shared.observed().len()
            invariant
                at <= shared@.observed.len(),
                shared@ == old(shared)@,
                wanted == self.wanted(),
                forall|i: int|
                    0 <= i < at ==> !opened_towards(#[trigger] shared@.observed[i], wanted),
            decreases shared@.observed.len() - at,
        {
            let found: Option<StreamId> = match &shared.observed()[at] {
                Observed::LocallyOpened(id) => if id.directionality() == wanted {
                    Some(*id)
                } else {
                    None
                },
                _ => None,
            };
            if let Some(id) = found {
                proof {
                    lemma_first_opened(shared@.observed, wanted, at as int);
                }
                let _ = shared.remove_observed(at);
                return Some(id);
            }
            at += 1;
        }
        proof {
            lemma_first_opened(shared@.observed, wanted, at as int);
        }
        None
    }

    /// Takes the stream once it is open, or registers to be woken.
    pub fn poll(self, waker: u64, shared: &mut ConnectionShared) -> (result: Option<
        Result<StreamId, Error>,
    >)
        ensures
            ({
                let observed = old(shared)@.observed;
                let at = first_opened(observed, self.wanted());
                if at < observed.len() {
                    &&& result matches Some(Ok(id)) && observed[at] == Observed::LocallyOpened(id)
                    &&& final(shared)@ == (SharedView {
                        observed: observed.remove(at),
                        ..old(shared)@
                    })
                } else if old(shared)@.closed {
                    &&& result matches Some(Err(error)) && error@ == old(shared)@.explanation()
                    &&& final(shared)@ == old(shared)@
                } else {
                    &&& result is None
                    &&& final(shared)@ == (SharedView {
                        wakers: with_waker(old(shared)@.wakers, waker),
                        ..old(shared)@
                    })
                }
            }),
    {
        if let Some(stream) = self.take(shared) {
            return Some(Ok(stream));
        }
        if shared.is_closed() {
            return Some(Err(shared.failure()));
        }
        let _ = shared.register(waker);
        None
    }
}

/// A pending read.
#[must_use]
#[derive(Clone, Copy, Debug)]
pub struct ReadStream {
    /// The stream to read from.
    pub stream: StreamId,
}

impl ReadStream {
    /// Reads whatever has arrived on a stream, or registers to be woken once something has.
    ///
    /// Bytes delivered before a reset are handed over first. Reading them gives the peer back
    /// that much credit; returning it on delivery instead would let a peer send past a reader
    /// that never reads. With the driver, where that woke it.
    pub fn poll(
        self,
        connection: &mut Connection,
        waker: u64,
        shared: &mut ConnectionShared,
        endpoint: &mut EndpointShared,
    ) -> (result: (Option<Result<Chunk, Error>>, Option<u64>))
        ensures
            ({
                let step = after_read(
                    old(connection)@,
                    self.stream,
                    waker,
                    old(shared)@,
                    old(endpoint)@,
                );
                &&& final(connection)@ == step.handle
                &&& final(shared)@ == step.shared
                &&& final(endpoint)@ == step.endpoint
                &&& result.1 == step.driver
                &&& match step.answer {
                    Answer::Pending => result.0 is None,
                    Answer::Chunk(bytes, fin) => result.0 matches Some(Ok(chunk)) && chunk.bytes@
                        == bytes && chunk.fin == fin,
                    Answer::Failed(failure) => result.0 matches Some(Err(error)) && error@
                        == failure,
                }
            }),
    {
        let stream = self.stream;
        connection.absorb(shared);
        let ghost handle = connection@;
        let known: bool = connection.has_slot(stream);
        if known {
            let mut slot = connection.take_slot(stream.get());
            let empty: bool = slot.bytes.len() == 0;
            if !empty || slot.finished {
                if empty {
                    if let Some(code) = slot.reset {
                        connection.put_slot(stream.get(), slot);
                        assert(connection@ =~= handle);
                        let error = Error::new(
                            ErrorKind::StreamReset,
                            STREAM_RESET,
                        ).with_stream_code(code);
                        return (Some(Err(error)), None);
                    }
                }
                let mut bytes: Vec<u8> = Vec::new();
                std::mem::swap(&mut bytes, &mut slot.bytes);
                let fin: bool = slot.finished;
                connection.put_slot(stream.get(), slot);
                assert(connection@ =~= handle.drained(number(stream)));
                let driver = Connection::consumed(stream, bytes.len(), shared, endpoint);
                return (Some(Ok(Chunk { bytes, fin })), driver);
            }
            connection.put_slot(stream.get(), slot);
            assert(connection@ =~= handle);
        }
        if shared.is_closed() {
            return (Some(Err(shared.failure())), None);
        }
        let _ = shared.register(waker);
        (None, None)
    }
}

/// A pending accept of a stream the peer opens.
#[must_use]
#[derive(Clone, Copy, Debug)]
pub struct AcceptStream {}

impl AcceptStream {
    /// Takes the next stream the peer opened, or registers to be woken once there is one.
    pub fn poll(
        self,
        connection: &mut Connection,
        waker: u64,
        shared: &mut ConnectionShared,
    ) -> (result: Option<Result<StreamId, Error>>)
        ensures
            ({
                let handle = old(connection)@.heard_all(old(shared)@.observed);
                let rest = unobserved(old(shared)@);
                if handle.pending.len() > 0 {
                    &&& result == Some(Ok::<StreamId, Error>(handle.pending[0]))
                    &&& final(connection)@ == (HandleView { pending: handle.pending.skip(1), ..handle })
                    &&& final(shared)@ == rest
                } else if rest.closed {
                    &&& result matches Some(Err(error)) && error@ == ErrorView::plain(
                        ErrorKind::LocallyClosed,
                        ENDED_ACCEPTING@,
                    )
                    &&& final(connection)@ == handle
                    &&& final(shared)@ == rest
                } else {
                    &&& result is None
                    &&& final(connection)@ == handle
                    &&& final(shared)@ == (SharedView {
                        wakers: with_waker(rest.wakers, waker),
                        ..rest
                    })
                }
            }),
    {
        connection.absorb(shared);
        let ghost handle = connection@;
        if connection.pending_streams.len() > 0 {
            let stream = connection.pending_streams.remove(0);
            assert(connection.pending_streams@ =~= handle.pending.skip(1));
            return Some(Ok(stream));
        }
        if shared.is_closed() {
            return Some(Err(Error::new(ErrorKind::LocallyClosed, ENDED_ACCEPTING)));
        }
        let _ = shared.register(waker);
        None
    }
}

/// The bytes some events deliver on a stream, joined in order.
pub open spec fn delivered(events: Seq<Observed>, stream: i64) -> Seq<u8>
    decreases events.len(),
{
    if events.len() == 0 {
        Seq::empty()
    } else {
        let before = delivered(events.drop_last(), stream);
        match events.last() {
            Observed::Data(id, bytes, _) => if number(id) == stream {
                before + bytes@
            } else {
                before
            },
            _ => before,
        }
    }
}

/// A reader sees every byte delivered on its stream, once and in order, whatever else happens
/// on the connection.
pub proof fn law_a_reader_sees_its_bytes_in_order(
    handle: HandleView,
    events: Seq<Observed>,
    stream: i64,
)
    ensures
        handle.heard_all(events).slot(stream).bytes == handle.slot(stream).bytes + delivered(
            events,
            stream,
        ),
    decreases events.len(),
{
    if events.len() == 0 {
        assert(handle.slot(stream).bytes + delivered(events, stream) =~= handle.slot(
            stream,
        ).bytes);
    } else {
        law_a_reader_sees_its_bytes_in_order(handle, events.drop_last(), stream);
        assert(handle.heard_all(events).slot(stream).bytes =~= handle.slot(stream).bytes
            + delivered(events, stream));
    }
}

/// Whether an event ends a stream, with or without a code.
pub open spec fn ends(event: Observed, stream: i64) -> bool {
    match event {
        Observed::Closed(id, _) => number(id) == stream,
        Observed::Reset(id, _) => number(id) == stream,
        _ => false,
    }
}

/// Nothing but the end of a stream gives it a reset code.
proof fn lemma_no_code_without_an_end(handle: HandleView, events: Seq<Observed>, stream: i64)
    requires
        handle.slot(stream).reset is None,
        forall|i: int| 0 <= i < events.len() ==> !ends(#[trigger] events[i], stream),
    ensures
        handle.heard_all(events).slot(stream).reset is None,
    decreases events.len(),
{
    if events.len() > 0 {
        let front = events.drop_last();
        assert forall|i: int| 0 <= i < front.len() implies !ends(#[trigger] front[i], stream) by {
            assert(front[i] == events[i]);
        }
        lemma_no_code_without_an_end(handle, front, stream);
        assert(!ends(events[events.len() - 1], stream));
    }
}

/// Bytes delivered before a reset are never lost. Whatever else happens, a reader that has
/// read everything so far and then polls twice is first given every byte delivered since, as
/// the last there will be, for exactly that much credit; and then told of the reset, which
/// returns no credit.
pub proof fn law_a_reset_is_reported_after_the_bytes_before_it(
    handle: HandleView,
    stream: StreamId,
    events: Seq<Observed>,
    code: ApplicationErrorCode,
    first_waker: u64,
    second_waker: u64,
    shared: SharedView,
    endpoint: EndpointView,
)
    requires
        handle.slot(number(stream)).bytes.len() == 0,
        handle.slot(number(stream)).reset is None,
        forall|i: int| 0 <= i < events.len() ==> !ends(#[trigger] events[i], number(stream)),
        shared.observed == events.push(Observed::Reset(stream, code)),
        delivered(events, number(stream)).len() > 0,
    ensures
        ({
            let bytes = delivered(events, number(stream));
            let first = after_read(handle, stream, first_waker, shared, endpoint);
            let second = after_read(
                first.handle,
                stream,
                second_waker,
                first.shared,
                first.endpoint,
            );
            &&& first.answer == Answer::Chunk(bytes, true)
            &&& first.shared.commands == shared.commands.push(
                CommandView::ExtendCredit(stream@, bytes.len()),
            )
            &&& second.answer == Answer::Failed(
                ErrorView {
                    stream_code: Some(code),
                    ..ErrorView::plain(ErrorKind::StreamReset, STREAM_RESET@)
                },
            )
            &&& second.shared.commands == first.shared.commands
        }),
{
    let id = number(stream);
    law_a_reader_sees_its_bytes_in_order(handle, events, id);
    lemma_no_code_without_an_end(handle, events, id);
    assert(shared.observed.drop_last() =~= events);
    assert(handle.slot(id).bytes + delivered(events, id) =~= delivered(events, id));
    let first = after_read(handle, stream, first_waker, shared, endpoint);
    assert(first.shared.observed.len() == 0);
    assert(first.handle.heard_all(first.shared.observed) == first.handle);
}

/// The first reset code a stream carried is the one reported, whatever arrives later.
pub proof fn law_the_first_reset_code_is_kept(
    handle: HandleView,
    events: Seq<Observed>,
    stream: i64,
    code: ApplicationErrorCode,
)
    requires
        handle.slot(stream).reset == Some(code),
        handle.slot(stream).finished,
    ensures
        handle.heard_all(events).slot(stream).reset == Some(code),
        handle.heard_all(events).slot(stream).finished,
    decreases events.len(),
{
    if events.len() > 0 {
        law_the_first_reset_code_is_kept(handle, events.drop_last(), stream, code);
    }
}

/// Once the peer has asked this endpoint to stop sending on a stream, it stays stopped.
pub proof fn law_a_stopped_stream_stays_stopped(
    handle: HandleView,
    events: Seq<Observed>,
    stream: i64,
)
    requires
        handle.stopped.contains_key(stream),
    ensures
        handle.heard_all(events).stopped.contains_key(stream),
    decreases events.len(),
{
    if events.len() > 0 {
        law_a_stopped_stream_stays_stopped(handle, events.drop_last(), stream);
    }
}

} // verus!
