//! What a handle and the driver say to each other.
//!
//! A connection has exactly one owner, and that is whatever polls the socket, so the handles
//! a caller holds never see one. This module is a mailbox instead: handles queue commands
//! and read results; the driver drains commands, does the work and writes results back.
//!
//! A waker is a number here. Whatever has to be woken is handed back to the caller, which
//! does the waking once it has let go of the state.

use std::collections::VecDeque;

use vstd::prelude::*;

use crate::cid::ConnectionId;
use crate::endpoint::error::{close_view, CloseView, Error, ErrorKind, ErrorView};
use crate::error::{ApplicationErrorCode, CloseError, CloseReason};
use crate::handlers::StreamCloseReason;
use crate::path::Address;
use crate::stream::StreamId;
use crate::tls::Role;

verus! {

/// Something a connection's handlers observed.
///
/// Handlers fire inside a call into the engine, so they cannot act; they can only record.
#[derive(Debug)]
pub enum Observed {
    /// Bytes arrived on a stream, and whether they end it.
    Data(StreamId, Vec<u8>, bool),
    /// The peer opened a stream.
    Opened(StreamId),
    /// This endpoint opened a stream, in response to a request from a handle.
    ///
    /// Distinct from [`Observed::Opened`] because the two go to different places: a peer's
    /// stream belongs to whoever accepts streams, and this one to whoever asked for it.
    LocallyOpened(StreamId),
    /// A stream finished.
    Closed(StreamId, StreamCloseReason),
    /// The peer reset a stream it was sending on.
    Reset(StreamId, ApplicationErrorCode),
    /// The peer asked this endpoint to stop sending on a stream.
    StopSending(StreamId, ApplicationErrorCode),
    /// The peer acknowledged stream data.
    Acked(StreamId, u64),
    /// The handshake completed.
    HandshakeCompleted,
    /// The peer raised how many streams this endpoint may open, to the given total.
    StreamsExtended(u64),
}

/// A change to where a connection can be reached.
#[derive(Clone, Copy, Debug)]
pub enum RouteUpdate {
    /// The connection now answers to this identifier as well.
    Minted(ConnectionId),
    /// The connection no longer answers to this identifier.
    Retired(ConnectionId),
}

/// How many datagrams may wait in either direction for one connection.
///
/// Inbound, past the bound the endpoint drops, which is what QUIC's loss recovery is for.
/// Outbound, the bound is a signal: a datagram already produced cannot be un-produced, so
/// the producer checks for room *before* producing.
pub const DATAGRAM_QUEUE: usize = 64;

/// Something a handle asked the driver to do to a connection.
#[derive(Debug)]
pub enum Command {
    /// Open a stream.
    OpenStream {
        /// Whether the stream is bidirectional.
        bidi: bool,
    },
    /// Write bytes to a stream.
    Write {
        /// The stream to write to.
        stream: StreamId,
        /// The bytes.
        data: Vec<u8>,
        /// Whether these are the last bytes.
        fin: bool,
    },
    /// Reset a stream.
    Reset(StreamId, ApplicationErrorCode),
    /// Ask the peer to stop sending on a stream.
    StopSending(StreamId, ApplicationErrorCode),
    /// Close the connection.
    Close(ApplicationErrorCode, Vec<u8>),
    /// Give the peer back credit for bytes the application has now consumed.
    ExtendCredit {
        /// The stream the bytes came from.
        stream: StreamId,
        /// How many bytes were consumed.
        bytes: u64,
    },
}

/// What a [`Command`] asks for.
pub enum CommandView {
    /// Open a stream.
    OpenStream(bool),
    /// Write these bytes to a stream, ending it or not.
    Write(int, Seq<u8>, bool),
    /// Reset a stream.
    Reset(int, nat),
    /// Ask the peer to stop sending on a stream.
    StopSending(int, nat),
    /// Close the connection.
    Close(nat, Seq<u8>),
    /// Give credit back.
    ExtendCredit(int, nat),
}

impl View for Command {
    type V = CommandView;

    open spec fn view(&self) -> CommandView {
        match self {
            Command::OpenStream { bidi } => CommandView::OpenStream(*bidi),
            Command::Write { stream, data, fin } => CommandView::Write(stream@, data@, *fin),
            Command::Reset(stream, code) => CommandView::Reset(stream@, code@),
            Command::StopSending(stream, code) => CommandView::StopSending(stream@, code@),
            Command::Close(code, reason) => CommandView::Close(code@, reason@),
            Command::ExtendCredit { stream, bytes } => CommandView::ExtendCredit(
                stream@,
                *bytes as nat,
            ),
        }
    }
}

/// What a queue of commands asks for, in order.
pub open spec fn requests(commands: Seq<Command>) -> Seq<CommandView> {
    Seq::new(commands.len(), |i: int| commands[i]@)
}

/// The datagrams in a queue, in order.
pub open spec fn datagrams(queue: Seq<Vec<u8>>) -> Seq<Seq<u8>> {
    Seq::new(queue.len(), |i: int| queue[i]@)
}

/// How a close is described.
pub const CONNECTION_CLOSED: &'static str = "the connection was closed";

/// How the end of a connection is described to whoever asks later.
pub const CONNECTION_ENDED: &'static str = "the connection ended";

/// The state a connection's handle and the driver share, mathematically.
#[verifier::ext_equal]
pub struct SharedView {
    /// Which side owns the connection.
    pub role: Role,
    /// The identity diagnostics know it by.
    pub diagnostic_id: u64,
    /// What handlers observed.
    pub observed: Seq<Observed>,
    /// Why the connection ended.
    pub failure: Option<ErrorView>,
    /// Who is waiting for something to change.
    pub wakers: Seq<u64>,
    /// Who is waiting for room in the outbound queue.
    pub capacity_wakers: Seq<u64>,
    /// Work for the driver.
    pub commands: Seq<CommandView>,
    /// Datagrams routed here.
    pub inbound: Seq<Seq<u8>>,
    /// Datagrams to send.
    pub outbound: Seq<Seq<u8>>,
    /// Identifier changes.
    pub routes: Seq<RouteUpdate>,
    /// How many inbound datagrams were dropped.
    pub dropped: u64,
    /// Whether the owner of a detached connection has finished with it.
    pub terminal: bool,
    /// Whether the connection has finished.
    pub closed: bool,
    /// Whether the handshake has completed.
    pub established: bool,
    /// Bytes the peer has yet to acknowledge.
    pub retained: u64,
    /// Whether the connection is handed over once established.
    pub detach: bool,
    /// Whether it is handed to whoever is accepting.
    pub detach_to_acceptor: bool,
}

impl SharedView {
    /// A connection nothing has happened to yet.
    pub open spec fn fresh(role: Role) -> Self {
        SharedView {
            role,
            diagnostic_id: 0,
            observed: Seq::empty(),
            failure: None,
            wakers: Seq::empty(),
            capacity_wakers: Seq::empty(),
            commands: Seq::empty(),
            inbound: Seq::empty(),
            outbound: Seq::empty(),
            routes: Seq::empty(),
            dropped: 0,
            terminal: false,
            closed: false,
            established: false,
            retained: 0,
            detach: false,
            detach_to_acceptor: false,
        }
    }

    /// With everyone who waits woken.
    pub open spec fn woken(self) -> Self {
        SharedView { wakers: Seq::empty(), ..self }
    }

    /// Ended for a reason. The first reason wins: it is the one that explains the others.
    pub open spec fn failed(self, error: ErrorView) -> Self {
        SharedView {
            failure: if self.failure is None {
                Some(error)
            } else {
                self.failure
            },
            closed: true,
            ..self.woken()
        }
    }

    /// With one more request for the driver.
    pub open spec fn asked(self, command: CommandView) -> Self {
        SharedView { commands: self.commands.push(command), ..self }
    }

    /// With one more observation.
    pub open spec fn noted(self, event: Observed) -> Self {
        SharedView { observed: self.observed.push(event), ..self }
    }

    /// What a handle is told about how the connection ended.
    pub open spec fn explanation(self) -> ErrorView {
        match self.failure {
            Some(error) => ErrorView {
                close: error.close,
                ..ErrorView::plain(error.kind, CONNECTION_ENDED@)
            },
            None => ErrorView::plain(ErrorKind::LocallyClosed, CONNECTION_ENDED@),
        }
    }
}

/// How a close is reported: lapsing is not the same as being closed on.
pub open spec fn closed_by(close: CloseView) -> ErrorView {
    ErrorView {
        close: Some(close),
        ..ErrorView::plain(
            if close.reason == CloseReason::IdleTimeout {
                ErrorKind::IdleTimeout
            } else {
                ErrorKind::PeerClosed
            },
            CONNECTION_CLOSED@,
        )
    }
}

/// State a connection's handle and the driver share.
#[derive(Debug)]
pub struct ConnectionShared {
    role: Role,
    diagnostic_id: u64,
    observed: Vec<Observed>,
    failure: Option<Error>,
    wakers: Vec<u64>,
    capacity_wakers: Vec<u64>,
    commands: VecDeque<Command>,
    inbound: VecDeque<Vec<u8>>,
    outbound: VecDeque<Vec<u8>>,
    routes: VecDeque<RouteUpdate>,
    dropped: u64,
    terminal: bool,
    closed: bool,
    established: bool,
    retained: u64,
    detach: bool,
    detach_to_acceptor: bool,
}

impl View for ConnectionShared {
    type V = SharedView;

    closed spec fn view(&self) -> SharedView {
        SharedView {
            role: self.role,
            diagnostic_id: self.diagnostic_id,
            observed: self.observed@,
            failure: match self.failure {
                Some(error) => Some(error@),
                None => None,
            },
            wakers: self.wakers@,
            capacity_wakers: self.capacity_wakers@,
            commands: requests(self.commands@),
            inbound: datagrams(self.inbound@),
            outbound: datagrams(self.outbound@),
            routes: self.routes@,
            dropped: self.dropped,
            terminal: self.terminal,
            closed: self.closed,
            established: self.established,
            retained: self.retained,
            detach: self.detach,
            detach_to_acceptor: self.detach_to_acceptor,
        }
    }
}

/// One more than `count`, starting over from zero past the largest.
pub open spec fn counted_up(count: u64) -> u64 {
    if count == u64::MAX {
        0
    } else {
        (count + 1) as u64
    }
}

/// Whether a waker is already on a list.
pub fn registered(wakers: &Vec<u64>, waker: u64) -> (known: bool)
    ensures
        known == wakers@.contains(waker),
{
    let mut at: usize = 0;
    while at < wakers.len()
        invariant
            at <= wakers@.len(),
            forall|i: int| 0 <= i < at ==> wakers@[i] != waker,
        decreases wakers.len() - at,
    {
        if wakers[at] == waker {
            return true;
        }
        at += 1;
    }
    false
}

/// A list of wakers with one more on it, unless it was there already.
pub open spec fn with_waker(wakers: Seq<u64>, waker: u64) -> Seq<u64> {
    if wakers.contains(waker) {
        wakers
    } else {
        wakers.push(waker)
    }
}

impl ConnectionShared {
    /// A fresh shared state.
    pub fn new(role: Role) -> (shared: Self)
        ensures
            shared@ == SharedView::fresh(role),
    {
        let shared = Self {
            role,
            diagnostic_id: 0,
            observed: Vec::new(),
            failure: None,
            wakers: Vec::new(),
            capacity_wakers: Vec::new(),
            commands: VecDeque::new(),
            inbound: VecDeque::new(),
            outbound: VecDeque::new(),
            routes: VecDeque::new(),
            dropped: 0,
            terminal: false,
            closed: false,
            established: false,
            retained: 0,
            detach: false,
            detach_to_acceptor: false,
        };
        assert(shared@ =~= SharedView::fresh(role));
        shared
    }

    /// Which side owns the connection.
    pub fn role(&self) -> (role: Role)
        ensures
            role == self@.role,
    {
        self.role
    }

    /// Records the identity diagnostics know this connection by.
    pub fn bind_diagnostic_id(&mut self, id: u64)
        ensures
            final(self)@ == (SharedView { diagnostic_id: id, ..old(self)@ }),
    {
        self.diagnostic_id = id;
    }

    /// The identity diagnostics know this connection by.
    pub fn diagnostic_id(&self) -> (id: u64)
        ensures
            id == self@.diagnostic_id,
    {
        self.diagnostic_id
    }

    /// Records something a handler observed.
    pub fn observe(&mut self, event: Observed)
        ensures
            final(self)@ == old(self)@.noted(event),
    {
        self.observed.push(event);
    }

    /// What has been observed and not taken.
    pub fn observed(&self) -> (observed: &Vec<Observed>)
        ensures
            observed@ == self@.observed,
    {
        &self.observed
    }

    /// Takes one observation out of its place.
    pub fn remove_observed(&mut self, at: usize) -> (event: Observed)
        requires
            at < old(self)@.observed.len(),
        ensures
            event == old(self)@.observed[at as int],
            final(self)@ == (SharedView {
                observed: old(self)@.observed.remove(at as int),
                ..old(self)@
            }),
    {
        self.observed.remove(at)
    }

    /// Asks that this connection be handed to its caller once the handshake completes.
    pub fn request_detach(&mut self)
        ensures
            final(self)@ == (SharedView { detach: true, ..old(self)@ }),
    {
        self.detach = true;
    }

    /// Asks that this connection go to whoever is accepting, rather than to one waiter.
    pub fn request_detach_to_acceptor(&mut self)
        ensures
            final(self)@ == (SharedView { detach: true, detach_to_acceptor: true, ..old(self)@ }),
    {
        self.detach = true;
        self.detach_to_acceptor = true;
    }

    /// Whether this connection is to be handed over rather than driven by the endpoint.
    pub fn wants_detach(&self) -> (wanted: bool)
        ensures
            wanted == self@.detach,
    {
        self.detach
    }

    /// Whether it goes to an acceptor rather than to the caller who dialled it.
    pub fn detaches_to_acceptor(&self) -> (wanted: bool)
        ensures
            wanted == self@.detach_to_acceptor,
    {
        self.detach_to_acceptor
    }

    /// Records an identifier change for the endpoint's routing table, and wakes the driver.
    pub fn observe_route(&mut self, endpoint: &mut EndpointShared, update: RouteUpdate) -> (driver:
        Option<u64>)
        ensures
            final(self)@ == (SharedView { routes: old(self)@.routes.push(update), ..old(self)@ }),
            driver == old(endpoint)@.driver_waker,
            final(endpoint)@ == old(endpoint)@.driver_woken(),
    {
        self.routes.push_back(update);
        endpoint.wake_driver()
    }

    /// Takes every pending routing change.
    pub fn take_routes(&mut self) -> (updates: VecDeque<RouteUpdate>)
        ensures
            updates@ == old(self)@.routes,
            final(self)@ == (SharedView { routes: Seq::empty(), ..old(self)@ }),
    {
        let mut updates: VecDeque<RouteUpdate> = VecDeque::new();
        std::mem::swap(&mut updates, &mut self.routes);
        updates
    }

    /// Hands a datagram to whoever drives this connection, waking everyone who waits.
    ///
    /// Past the bound the datagram is dropped and counted instead. Blocking on a consumer
    /// that is not keeping up would stall every connection on the socket.
    pub fn deliver_inbound(&mut self, datagram: Vec<u8>) -> (outcome: (bool, Vec<u64>))
        ensures
            outcome.0 == (old(self)@.inbound.len() < DATAGRAM_QUEUE),
            outcome.0 ==> {
                &&& outcome.1@ == old(self)@.wakers
                &&& final(self)@ == (SharedView {
                    inbound: old(self)@.inbound.push(datagram@),
                    ..old(self)@.woken()
                })
            },
            !outcome.0 ==> {
                &&& outcome.1@.len() == 0
                &&& final(self)@ == (SharedView {
                    dropped: counted_up(old(self)@.dropped),
                    ..old(self)@
                })
            },
    {
        if self.inbound.len() >= DATAGRAM_QUEUE {
            self.dropped = self.dropped.wrapping_add(1);
            return (false, Vec::new());
        }
        let ghost before = self.inbound@;
        self.inbound.push_back(datagram);
        assert(datagrams(self.inbound@) =~= datagrams(before).push(datagram@));
        (true, self.wake_all())
    }

    /// Takes the next datagram the endpoint routed here.
    pub fn take_inbound(&mut self) -> (datagram: Option<Vec<u8>>)
        ensures
            match datagram {
                Some(datagram) => {
                    &&& old(self)@.inbound.len() > 0
                    &&& datagram@ == old(self)@.inbound[0]
                    &&& final(self)@ == (SharedView {
                        inbound: old(self)@.inbound.skip(1),
                        ..old(self)@
                    })
                },
                None => old(self)@.inbound.len() == 0 && final(self)@ == old(self)@,
            },
    {
        let ghost before = self.inbound@;
        let datagram = self.inbound.pop_front();
        assert(before.len() > 0 ==> datagrams(self.inbound@) =~= datagrams(before).skip(1));
        assert(before.len() == 0 ==> datagrams(self.inbound@) =~= datagrams(before));
        datagram
    }

    /// How many inbound datagrams are waiting.
    pub fn inbound_len(&self) -> (len: usize)
        ensures
            len == self@.inbound.len(),
    {
        self.inbound.len()
    }

    /// How many inbound datagrams have been dropped for want of room.
    pub fn dropped_inbound(&self) -> (count: u64)
        ensures
            count == self@.dropped,
    {
        self.dropped
    }

    /// Whether there is room to produce another outgoing datagram.
    ///
    /// Asked *before* producing one: a datagram that has been produced cannot be withdrawn.
    pub fn outbound_has_room(&self) -> (room: bool)
        ensures
            room == (self@.outbound.len() < DATAGRAM_QUEUE),
    {
        self.outbound.len() < DATAGRAM_QUEUE
    }

    /// Observes outbound capacity, or registers the producer for its return.
    ///
    /// One step rather than two, which closes the window between finding the queue full and
    /// being registered.
    pub fn outbound_ready_or_register(&mut self, waker: u64) -> (ready: bool)
        ensures
            ready == (old(self)@.outbound.len() < DATAGRAM_QUEUE),
            ready ==> final(self)@ == old(self)@,
            !ready ==> final(self)@ == (SharedView {
                capacity_wakers: with_waker(old(self)@.capacity_wakers, waker),
                ..old(self)@
            }),
    {
        if self.outbound.len() < DATAGRAM_QUEUE {
            return true;
        }
        if !registered(&self.capacity_wakers, waker) {
            self.capacity_wakers.push(waker);
        }
        false
    }

    /// Queues a datagram for the endpoint to send, and wakes the driver.
    pub fn queue_outbound(&mut self, endpoint: &mut EndpointShared, datagram: Vec<u8>) -> (driver:
        Option<u64>)
        ensures
            final(self)@ == (SharedView {
                outbound: old(self)@.outbound.push(datagram@),
                ..old(self)@
            }),
            driver == old(endpoint)@.driver_waker,
            final(endpoint)@ == old(endpoint)@.driver_woken(),
    {
        let ghost before = self.outbound@;
        self.outbound.push_back(datagram);
        assert(datagrams(self.outbound@) =~= datagrams(before).push(datagram@));
        endpoint.wake_driver()
    }

    /// Whether anything is still waiting to be sent for this connection.
    pub fn has_outbound(&self) -> (waiting: bool)
        ensures
            waiting == (self@.outbound.len() > 0),
    {
        self.outbound.len() > 0
    }

    /// How many datagrams are waiting to be sent for this connection.
    pub fn outbound_len(&self) -> (len: usize)
        ensures
            len == self@.outbound.len(),
    {
        self.outbound.len()
    }

    /// How many producers are waiting for room.
    pub fn capacity_waiting(&self) -> (count: usize)
        ensures
            count == self@.capacity_wakers.len(),
    {
        self.capacity_wakers.len()
    }

    /// How many tasks are waiting for something to change.
    pub fn waiting(&self) -> (count: usize)
        ensures
            count == self@.wakers.len(),
    {
        self.wakers.len()
    }

    /// Takes the next datagram this connection wants sent, and whoever was waiting for room.
    ///
    /// Producers are released exactly when a full queue becomes available: at that moment
    /// and at no other removal.
    pub fn take_outbound(&mut self) -> (outcome: (Option<Vec<u8>>, Vec<u64>))
        ensures
            outcome.0 is Some <==> old(self)@.outbound.len() > 0,
            outcome.0 matches Some(datagram) ==> datagram@ == old(self)@.outbound[0],
            outcome.1@ == (if old(self)@.outbound.len() == DATAGRAM_QUEUE {
                old(self)@.capacity_wakers
            } else {
                Seq::empty()
            }),
            final(self)@ == old(self)@.shipped(),
    {
        let was_full: bool = self.outbound.len() == DATAGRAM_QUEUE;
        let ghost before = self.outbound@;
        let datagram = self.outbound.pop_front();
        assert(before.len() > 0 ==> datagrams(self.outbound@) =~= datagrams(before).skip(1));
        assert(before.len() == 0 ==> datagrams(self.outbound@) =~= datagrams(before));
        let mut wakers: Vec<u64> = Vec::new();
        if was_full {
            std::mem::swap(&mut wakers, &mut self.capacity_wakers);
        }
        assert(self@ =~= old(self)@.shipped());
        (datagram, wakers)
    }

    /// Whether this connection's owner has finished with it.
    pub fn is_terminal(&self) -> (terminal: bool)
        ensures
            terminal == self@.terminal,
    {
        self.terminal
    }

    /// Says this connection's owner has finished with it, so the endpoint may release it.
    pub fn mark_terminal(&mut self, endpoint: &mut EndpointShared) -> (driver: Option<u64>)
        ensures
            final(self)@ == (SharedView { terminal: true, ..old(self)@ }),
            driver == old(endpoint)@.driver_waker,
            final(endpoint)@ == old(endpoint)@.driver_woken(),
    {
        self.terminal = true;
        endpoint.wake_driver()
    }

    /// Whether the connection has finished.
    pub fn is_closed(&self) -> (closed: bool)
        ensures
            closed == self@.closed,
    {
        self.closed
    }

    /// Whether the handshake has completed.
    pub fn is_established(&self) -> (established: bool)
        ensures
            established == self@.established,
    {
        self.established
    }

    /// Marks the handshake complete and wakes anything waiting for it.
    pub fn mark_established(&mut self) -> (woken: Vec<u64>)
        ensures
            woken@ == old(self)@.wakers,
            final(self)@ == (SharedView { established: true, ..old(self)@.woken() }),
    {
        self.established = true;
        self.wake_all()
    }

    /// Bytes still held awaiting acknowledgement.
    pub fn retained_bytes(&self) -> (bytes: u64)
        ensures
            bytes == self@.retained,
    {
        self.retained
    }

    /// Records how much is currently retained.
    pub fn set_retained(&mut self, bytes: u64)
        ensures
            final(self)@ == (SharedView { retained: bytes, ..old(self)@ }),
    {
        self.retained = bytes;
    }

    /// Ends the connection, recording why, and wakes everything waiting on it.
    ///
    /// The first reason wins. A connection that fails for one reason and is then torn down
    /// for another reports the first.
    pub fn fail(&mut self, error: Error) -> (woken: Vec<u64>)
        ensures
            woken@ == old(self)@.wakers,
            final(self)@ == old(self)@.failed(error@),
    {
        if self.failure.is_none() {
            self.failure = Some(error);
        }
        self.closed = true;
        self.wake_all()
    }

    /// Ends the connection because the peer closed it, carrying what the peer said.
    pub fn fail_with_close(&mut self, close: CloseError) -> (woken: Vec<u64>)
        ensures
            woken@ == old(self)@.wakers,
            final(self)@ == old(self)@.failed(closed_by(close_view(close))),
    {
        let kind = match close.reason() {
            CloseReason::IdleTimeout => ErrorKind::IdleTimeout,
            _ => ErrorKind::PeerClosed,
        };
        self.fail(Error::new(kind, CONNECTION_CLOSED).with_close(close))
    }

    /// Builds an error describing why the connection ended.
    pub fn failure(&self) -> (error: Error)
        ensures
            error@ == self@.explanation(),
    {
        match &self.failure {
            Some(failure) => {
                let rebuilt = Error::new(failure.kind(), CONNECTION_ENDED);
                match failure.close_error() {
                    Some(close) => {
                        let copy = close.clone();
                        assert(close_view(copy) == close_view(*close));
                        rebuilt.with_close(copy)
                    },
                    None => rebuilt,
                }
            },
            None => Error::new(ErrorKind::LocallyClosed, CONNECTION_ENDED),
        }
    }

    /// Registers a waker to be woken when something changes, and says whether it was new.
    pub fn register(&mut self, waker: u64) -> (new: bool)
        ensures
            new == !old(self)@.wakers.contains(waker),
            final(self)@ == (SharedView {
                wakers: with_waker(old(self)@.wakers, waker),
                ..old(self)@
            }),
    {
        if registered(&self.wakers, waker) {
            return false;
        }
        self.wakers.push(waker);
        true
    }

    /// Takes everything waiting on this connection, to be woken.
    pub fn wake_all(&mut self) -> (woken: Vec<u64>)
        ensures
            woken@ == old(self)@.wakers,
            final(self)@ == old(self)@.woken(),
    {
        let mut woken: Vec<u64> = Vec::new();
        std::mem::swap(&mut woken, &mut self.wakers);
        woken
    }

    /// Queues work for the driver, and wakes it.
    ///
    /// The wake is not optional. A driver with nothing to read and no timer due is parked,
    /// and a command reaches neither of those.
    pub fn push(&mut self, endpoint: &mut EndpointShared, command: Command) -> (driver: Option<u64>)
        ensures
            final(self)@ == old(self)@.asked(command@),
            driver == old(endpoint)@.driver_waker,
            final(endpoint)@ == old(endpoint)@.driver_woken(),
    {
        let ghost before = self.commands@;
        self.commands.push_back(command);
        assert(requests(self.commands@) =~= requests(before).push(command@));
        endpoint.wake_driver()
    }

    /// Takes everything queued.
    pub fn take_commands(&mut self) -> (commands: VecDeque<Command>)
        ensures
            requests(commands@) == old(self)@.commands,
            final(self)@ == (SharedView { commands: Seq::empty(), ..old(self)@ }),
    {
        let mut commands: VecDeque<Command> = VecDeque::new();
        std::mem::swap(&mut commands, &mut self.commands);
        assert(requests(self.commands@) =~= Seq::empty());
        commands
    }

    /// Takes everything the handlers observed.
    pub fn take_observed(&mut self) -> (observed: Vec<Observed>)
        ensures
            observed@ == old(self)@.observed,
            final(self)@ == (SharedView { observed: Seq::empty(), ..old(self)@ }),
    {
        let mut observed: Vec<Observed> = Vec::new();
        std::mem::swap(&mut observed, &mut self.observed);
        observed
    }
}

impl SharedView {
    /// With the next outbound datagram gone, and its waiting producers with it where that
    /// made room in a full queue.
    pub open spec fn shipped(self) -> Self {
        SharedView {
            outbound: if self.outbound.len() > 0 {
                self.outbound.skip(1)
            } else {
                self.outbound
            },
            capacity_wakers: if self.outbound.len() == DATAGRAM_QUEUE {
                Seq::empty()
            } else {
                self.capacity_wakers
            },
            ..self
        }
    }
}

/// A request to open a connection.
#[derive(Debug)]
pub struct Dial {
    /// Where to connect.
    pub remote: Address,
    /// The name to present and verify.
    pub server_name: Option<String>,
    /// Which shared state the resulting connection reports to.
    pub shared: u64,
}

/// The state the endpoint's handles and its driver share, mathematically.
#[verifier::ext_equal]
pub struct EndpointView {
    /// Requests to open a connection.
    pub dials: Seq<Dial>,
    /// Connections the peer opened, waiting to be accepted.
    pub accepted: Seq<u64>,
    /// Who is waiting for one.
    pub wakers: Seq<u64>,
    /// How to wake the driver, while it is parked.
    pub driver_waker: Option<u64>,
    /// Whether the driver has gone.
    pub gone: bool,
    /// Whether accepted connections are handed to their caller.
    pub detached_accepts: bool,
}

impl EndpointView {
    /// An endpoint nothing has happened to yet.
    pub open spec fn fresh() -> Self {
        EndpointView {
            dials: Seq::empty(),
            accepted: Seq::empty(),
            wakers: Seq::empty(),
            driver_waker: None,
            gone: false,
            detached_accepts: false,
        }
    }

    /// With the driver woken.
    pub open spec fn driver_woken(self) -> Self {
        EndpointView { driver_waker: None, ..self }
    }

    /// With everyone who waits woken.
    pub open spec fn acceptors_woken(self) -> Self {
        EndpointView { wakers: Seq::empty(), ..self }
    }
}

/// State the endpoint handle and the driver share.
#[derive(Debug)]
pub struct EndpointShared {
    dials: VecDeque<Dial>,
    accepted: VecDeque<u64>,
    wakers: Vec<u64>,
    driver_waker: Option<u64>,
    gone: bool,
    detached_accepts: bool,
}

impl View for EndpointShared {
    type V = EndpointView;

    closed spec fn view(&self) -> EndpointView {
        EndpointView {
            dials: self.dials@,
            accepted: self.accepted@,
            wakers: self.wakers@,
            driver_waker: self.driver_waker,
            gone: self.gone,
            detached_accepts: self.detached_accepts,
        }
    }
}

/// Where an accepted connection has got to.
#[derive(Clone, Copy, Debug, PartialEq, Eq, Structural)]
pub struct Progress {
    /// Whether its handshake has completed.
    pub established: bool,
    /// Whether it has finished.
    pub closed: bool,
}

/// The first of some candidates that has finished its handshake, or past the end.
pub open spec fn first_ready(progress: Seq<Progress>) -> int
    decreases progress.len(),
{
    if progress.len() == 0 || progress[0].established {
        0
    } else {
        1 + first_ready(progress.skip(1))
    }
}

/// The candidates still handshaking: the ones that failed are forgotten.
pub open spec fn still_waiting(candidates: Seq<u64>, progress: Seq<Progress>) -> Seq<u64>
    decreases candidates.len(),
{
    if candidates.len() == 0 {
        Seq::empty()
    } else {
        let rest = still_waiting(candidates.drop_last(), progress.drop_last());
        if progress.last().closed {
            rest
        } else {
            rest.push(candidates.last())
        }
    }
}

/// What is left waiting once the first candidate that is ready has been taken: those before it
/// that are still handshaking, and those behind it, in the order they arrived.
pub open spec fn left_waiting(candidates: Seq<u64>, progress: Seq<Progress>) -> Seq<u64> {
    let at = first_ready(progress);
    let before = still_waiting(candidates.take(at), progress.take(at));
    if at < candidates.len() {
        before + candidates.skip(at + 1)
    } else {
        before
    }
}

/// Whether anyone who waits is established or over.
pub open spec fn stirred(progress: Seq<Progress>) -> bool {
    exists|i: int|
        0 <= i < progress.len() && ((#[trigger] progress[i]).established || progress[i].closed)
}

proof fn lemma_first_ready(progress: Seq<Progress>, at: int)
    requires
        0 <= at <= progress.len(),
        forall|i: int| 0 <= i < at ==> !progress[i].established,
        at < progress.len() ==> progress[at].established,
    ensures
        first_ready(progress) == at,
    decreases at,
{
    if at > 0 {
        assert forall|i: int| 0 <= i < at - 1 implies !progress.skip(1)[i].established by {
            assert(progress.skip(1)[i] == progress[i + 1]);
        }
        if at < progress.len() {
            assert(progress.skip(1)[at - 1] == progress[at]);
        }
        lemma_first_ready(progress.skip(1), at - 1);
    }
}

impl EndpointShared {
    /// A fresh shared state.
    pub fn new() -> (shared: Self)
        ensures
            shared@ == EndpointView::fresh(),
    {
        let shared = Self {
            dials: VecDeque::new(),
            accepted: VecDeque::new(),
            wakers: Vec::new(),
            driver_waker: None,
            gone: false,
            detached_accepts: false,
        };
        assert(shared@ =~= EndpointView::fresh());
        shared
    }

    /// Asks that accepted connections be handed to their caller rather than driven here.
    pub fn request_detached_accepts(&mut self)
        ensures
            final(self)@ == (EndpointView { detached_accepts: true, ..old(self)@ }),
    {
        self.detached_accepts = true;
    }

    /// Whether accepted connections are handed over.
    pub fn detached_accepts(&self) -> (detached: bool)
        ensures
            detached == self@.detached_accepts,
    {
        self.detached_accepts
    }

    /// Whether the driver has stopped.
    pub fn is_gone(&self) -> (gone: bool)
        ensures
            gone == self@.gone,
    {
        self.gone
    }

    /// Records that the driver has stopped, and takes everything waiting, to be woken.
    pub fn mark_gone(&mut self) -> (woken: Vec<u64>)
        ensures
            woken@ == old(self)@.wakers,
            final(self)@ == (EndpointView { gone: true, ..old(self)@.acceptors_woken() }),
    {
        self.gone = true;
        self.wake_acceptors()
    }

    /// Takes the driver's waker, so a command queued from a handle is noticed.
    pub fn wake_driver(&mut self) -> (driver: Option<u64>)
        ensures
            driver == old(self)@.driver_waker,
            final(self)@ == old(self)@.driver_woken(),
    {
        self.driver_waker.take()
    }

    /// Registers the driver's waker.
    pub fn register_driver(&mut self, waker: u64)
        ensures
            final(self)@ == (EndpointView { driver_waker: Some(waker), ..old(self)@ }),
    {
        self.driver_waker = Some(waker);
    }

    /// Registers a waker to be woken when a connection is accepted.
    pub fn register(&mut self, waker: u64)
        ensures
            final(self)@ == (EndpointView {
                wakers: with_waker(old(self)@.wakers, waker),
                ..old(self)@
            }),
    {
        if !registered(&self.wakers, waker) {
            self.wakers.push(waker);
        }
    }

    /// Takes everything waiting for an accept, to be woken.
    pub fn wake_acceptors(&mut self) -> (woken: Vec<u64>)
        ensures
            woken@ == old(self)@.wakers,
            final(self)@ == old(self)@.acceptors_woken(),
    {
        let mut woken: Vec<u64> = Vec::new();
        std::mem::swap(&mut woken, &mut self.wakers);
        woken
    }

    /// Queues a request to open a connection, and wakes the driver.
    pub fn dial(&mut self, dial: Dial) -> (driver: Option<u64>)
        ensures
            driver == old(self)@.driver_waker,
            final(self)@ == (EndpointView {
                dials: old(self)@.dials.push(dial),
                ..old(self)@.driver_woken()
            }),
    {
        self.dials.push_back(dial);
        self.wake_driver()
    }

    /// Takes every request to open a connection.
    pub fn take_dials(&mut self) -> (dials: VecDeque<Dial>)
        ensures
            dials@ == old(self)@.dials,
            final(self)@ == (EndpointView { dials: Seq::empty(), ..old(self)@ }),
    {
        let mut dials: VecDeque<Dial> = VecDeque::new();
        std::mem::swap(&mut dials, &mut self.dials);
        dials
    }

    /// Queues a connection a peer opened, and takes everyone waiting for one, to be woken.
    pub fn push_accepted(&mut self, connection: u64) -> (woken: Vec<u64>)
        ensures
            woken@ == old(self)@.wakers,
            final(self)@ == (EndpointView {
                accepted: old(self)@.accepted.push(connection),
                ..old(self)@.acceptors_woken()
            }),
    {
        self.accepted.push_back(connection);
        self.wake_acceptors()
    }

    /// The connections waiting to be accepted, in arrival order.
    pub fn accepted(&self) -> (accepted: &VecDeque<u64>)
        ensures
            accepted@ == self@.accepted,
    {
        &self.accepted
    }

    /// Whether any connection waiting to be accepted can be taken or forgotten.
    ///
    /// Waking acceptors only when one can is what keeps the driver from spinning.
    pub fn accept_is_due(progress: &[Progress]) -> (due: bool)
        ensures
            due == exists|i: int|
                0 <= i < progress@.len() && ((#[trigger] progress@[i]).established
                    || progress@[i].closed),            due == stirred(progress@),
    {
        let mut at: usize = 0;
        while at < progress.len()
            invariant
                at <= progress@.len(),
                forall|i: int|
                    0 <= i < at ==> !(#[trigger] progress@[i]).established && !progress@[i].closed,
            decreases progress.len() - at,
        {
            if progress[at].established || progress[at].closed {
                assert(progress@[at as int].established || progress@[at as int].closed);
                return true;
            }
            at += 1;
        }
        false
    }

    /// Takes the first accepted connection that has finished its handshake.
    ///
    /// `progress` says where each waiting connection has got to, in the same order.
    /// Connections still handshaking stay queued, in arrival order, and ones that failed are
    /// forgotten: a server does not want to be told about every client that could not
    /// complete a handshake.
    pub fn take_ready(&mut self, progress: &[Progress]) -> (taken: Option<u64>)
        requires
            progress@.len() == old(self)@.accepted.len(),
        ensures
            ({
                let at = first_ready(progress@);
                let before = old(self)@.accepted;
                &&& 0 <= at <= before.len()
                &&& taken is Some <==> at < before.len()
                &&& taken matches Some(connection) ==> {
                    &&& connection == before[at]
                    &&& progress@[at].established
                }
                &&& final(self)@ == (EndpointView {
                    accepted: left_waiting(before, progress@),
                    ..old(self)@
                })
            }),
    {
        let ghost before = self.accepted@;
        let total: usize = self.accepted.len();
        let mut kept: VecDeque<u64> = VecDeque::new();
        let mut examined: usize = 0;
        assert(before.take(0) =~= Seq::<u64>::empty());
        while examined < total && !progress[examined].established
            invariant
                examined <= total,
                total == before.len(),
                progress@.len() == total,
                before == self.accepted@,
                *self == *old(self),
                forall|i: int| 0 <= i < examined ==> !progress@[i].established,
                kept@ == still_waiting(
                    before.take(examined as int),
                    progress@.take(examined as int),
                ),
            decreases total - examined,
        {
            proof {
                let at = examined as int;
                assert(before.take(at + 1).drop_last() =~= before.take(at));
                assert(progress@.take(at + 1).drop_last() =~= progress@.take(at));
            }
            if !progress[examined].closed {
                kept.push_back(self.accepted[examined]);
            }
            examined += 1;
        }
        proof {
            lemma_first_ready(progress@, examined as int);
        }
        let taken: Option<u64> = if examined < total {
            Some(self.accepted[examined])
        } else {
            None
        };
        let ghost first = kept@;
        let mut at: usize = examined;
        if at < total {
            at += 1;
        }
        let ghost from = at as int;
        assert(before.subrange(from, from) =~= Seq::<u64>::empty());
        assert(first + before.subrange(from, from) =~= first);
        while at < total
            invariant
                from <= at <= total,
                total == before.len(),
                before == self.accepted@,
                *self == *old(self),
                0 <= from,
                kept@ == first + before.subrange(from, at as int),
            decreases total - at,
        {
            kept.push_back(self.accepted[at]);
            assert(kept@ =~= first + before.subrange(from, at + 1));
            at += 1;
        }
        self.accepted = kept;
        assert(self.accepted@ =~= left_waiting(before, progress@));
        taken
    }
}

/// The first failure is the one reported, whatever follows it.
pub proof fn law_the_first_failure_is_reported(state: SharedView, first: ErrorView, then: ErrorView)
    requires
        state.failure is None,
    ensures
        state.failed(first).failed(then).failure == Some(first),
        state.failed(first).failed(then).explanation() == state.failed(first).explanation(),
        state.failed(first).explanation().kind == first.kind,
        state.failed(first).explanation().close == first.close,
{
}

/// A connection that lapsed is reported as a timeout, and any other close as the peer's.
pub proof fn law_an_idle_close_is_a_timeout(state: SharedView, close: CloseView)
    requires
        state.failure is None,
    ensures
        state.failed(closed_by(close)).explanation().kind == (if close.reason
            == CloseReason::IdleTimeout {
            ErrorKind::IdleTimeout
        } else {
            ErrorKind::PeerClosed
        }),
        state.failed(closed_by(close)).explanation().close == Some(close),
{
}

/// Registering is idempotent, keeps everyone already registered, and never grows a list by
/// more than the one registering. A handle polled repeatedly does not grow it without bound.
pub proof fn law_a_waker_is_registered_once(wakers: Seq<u64>, waker: u64)
    requires
        wakers.no_duplicates(),
    ensures
        with_waker(wakers, waker).no_duplicates(),
        with_waker(wakers, waker).contains(waker),
        forall|other: u64| wakers.contains(other) ==> with_waker(wakers, waker).contains(other),
        with_waker(with_waker(wakers, waker), waker) == with_waker(wakers, waker),
{
    let after = with_waker(wakers, waker);
    if !wakers.contains(waker) {
        assert(after.last() == waker);
        assert(after.contains(waker));
        assert forall|other: u64| wakers.contains(other) implies after.contains(other) by {
            let i = choose|i: int| 0 <= i < wakers.len() && wakers[i] == other;
            assert(after[i] == other);
        }
    }
}

/// Filling the outbound queue, then removing from it, releases each waiting producer exactly
/// once: the first removal takes them all, and the next finds nobody to wake.
pub proof fn law_capacity_returns_once(state: SharedView)
    requires
        state.outbound.len() == DATAGRAM_QUEUE,
    ensures
        state.shipped().capacity_wakers.len() == 0,
        state.shipped().outbound.len() < DATAGRAM_QUEUE,
        state.shipped().shipped().capacity_wakers == state.shipped().capacity_wakers,
{
}

/// Whoever keeps waiting keeps their place: taking a connection that is ready never puts one
/// that arrived later before one that arrived earlier.
pub proof fn law_those_left_waiting_keep_arrival_order(
    candidates: Seq<u64>,
    progress: Seq<Progress>,
    i: int,
    j: int,
)
    requires
        candidates.len() == progress.len(),
        0 <= i < j < left_waiting(candidates, progress).len(),
    ensures
        exists|earlier: int, later: int|
            0 <= earlier < later < candidates.len() && #[trigger] candidates[earlier]
                == left_waiting(candidates, progress)[i] && #[trigger] candidates[later]
                == left_waiting(candidates, progress)[j],
{
    let at = first_ready(progress);
    lemma_first_ready_in_range(progress);
    let kept = still_waiting(candidates.take(at), progress.take(at));
    let left = left_waiting(candidates, progress);
    if j < kept.len() {
        lemma_still_waiting_in_order(candidates.take(at), progress.take(at), i, j);
        let (earlier, later) = choose|earlier: int, later: int|
            0 <= earlier < later < candidates.take(at).len() && #[trigger] candidates.take(
                at,
            )[earlier] == kept[i] && #[trigger] candidates.take(at)[later] == kept[j];
        assert(candidates[earlier] == left[i]);
        assert(candidates[later] == left[j]);
    } else {
        let later = at + 1 + (j - kept.len());
        assert(candidates[later] == left[j]);
        if i < kept.len() {
            lemma_still_waiting_within(candidates.take(at), progress.take(at), i);
            let earlier = choose|earlier: int|
                0 <= earlier < candidates.take(at).len() && #[trigger] candidates.take(
                    at,
                )[earlier] == kept[i];
            assert(candidates[earlier] == left[i]);
        } else {
            let earlier = at + 1 + (i - kept.len());
            assert(candidates[earlier] == left[i]);
        }
    }
}

/// The first candidate that is ready is one of them, or past the end.
proof fn lemma_first_ready_in_range(progress: Seq<Progress>)
    ensures
        0 <= first_ready(progress) <= progress.len(),
    decreases progress.len(),
{
    if progress.len() > 0 && !progress[0].established {
        lemma_first_ready_in_range(progress.skip(1));
    }
}

/// Whoever is still waiting was a candidate.
proof fn lemma_still_waiting_within(candidates: Seq<u64>, progress: Seq<Progress>, i: int)
    requires
        candidates.len() == progress.len(),
        0 <= i < still_waiting(candidates, progress).len(),
    ensures
        exists|at: int|
            0 <= at < candidates.len() && #[trigger] candidates[at] == still_waiting(
                candidates,
                progress,
            )[i],
    decreases candidates.len(),
{
    if candidates.len() > 0 {
        let front = candidates.drop_last();
        let rest = still_waiting(front, progress.drop_last());
        if i < rest.len() {
            lemma_still_waiting_within(front, progress.drop_last(), i);
            let at = choose|at: int| 0 <= at < front.len() && #[trigger] front[at] == rest[i];
            assert(candidates[at] == rest[i]);
        } else {
            assert(candidates[candidates.len() - 1] == still_waiting(candidates, progress)[i]);
        }
    }
}

/// Those still waiting are in the order they were in.
proof fn lemma_still_waiting_in_order(
    candidates: Seq<u64>,
    progress: Seq<Progress>,
    i: int,
    j: int,
)
    requires
        candidates.len() == progress.len(),
        0 <= i < j < still_waiting(candidates, progress).len(),
    ensures
        exists|earlier: int, later: int|
            0 <= earlier < later < candidates.len() && #[trigger] candidates[earlier]
                == still_waiting(candidates, progress)[i] && #[trigger] candidates[later]
                == still_waiting(candidates, progress)[j],
    decreases candidates.len(),
{
    if candidates.len() > 0 {
        let front = candidates.drop_last();
        let rest = still_waiting(front, progress.drop_last());
        if j < rest.len() {
            lemma_still_waiting_in_order(front, progress.drop_last(), i, j);
            let (earlier, later) = choose|earlier: int, later: int|
                0 <= earlier < later < front.len() && #[trigger] front[earlier] == rest[i]
                    && #[trigger] front[later] == rest[j];
            assert(candidates[earlier] == rest[i]);
            assert(candidates[later] == rest[j]);
        } else {
            lemma_still_waiting_within(front, progress.drop_last(), i);
            let earlier = choose|at: int| 0 <= at < front.len() && #[trigger] front[at] == rest[i];
            assert(candidates[earlier] == rest[i]);
            assert(candidates[candidates.len() - 1] == still_waiting(candidates, progress)[j]);
        }
    }
}

/// Queued work stays in the order it went in, each piece once, behind what was there.
pub proof fn law_commands_keep_their_order(
    state: SharedView,
    first: CommandView,
    second: CommandView,
)
    ensures
        state.asked(first).asked(second).commands == state.commands + seq![first, second],
{
    assert(state.asked(first).asked(second).commands =~= state.commands + seq![first, second]);
}

} // verus!
