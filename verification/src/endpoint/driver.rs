//! What the driver decides.
//!
//! One pass drains the handles' commands, reads datagrams and routes each to its connection,
//! services expired timers, writes until every connection says it has nothing, and rearms
//! from the earliest deadline. Reading and writing are bounded and rearming is not skippable:
//! between them those two facts are the whole liveness argument.
//!
//! Whoever runs the driver talks to the engine and the socket. Each function here takes what
//! they answered, together with the state the connection shares with its handle, and says
//! what becomes of both.

use std::collections::{BTreeMap, VecDeque};

use vstd::prelude::*;

use crate::accept::{inspect, inspectable, DecodedHeader};
use crate::cid::{ConnectionId, DEFAULT_LEN};
use crate::endpoint::error::{close_view, Error, ErrorKind, ErrorView, SOCKET_FAILED};
use crate::endpoint::routes::{routed_all, updated_all, Routes};
use crate::endpoint::shared::{
    closed_by, counted_up, requests, Command, CommandView, ConnectionShared, EndpointShared,
    Observed, RouteUpdate, SharedView, DATAGRAM_QUEUE,
};
use crate::endpoint::socket::{Offer, Sent};
use crate::error::{ApplicationErrorCode, CloseError};
use crate::handlers::StreamCloseReason;
use crate::native;
use crate::packet::{ExpiryOutcome, ReadOutcome, WriteOutcome};
use crate::path::Address;
use crate::stream::StreamId;
use crate::stream_io::StreamWrite;
use crate::time::Timestamp;

verus! {

/// The largest datagram this endpoint will read or write.
pub const MAX_DATAGRAM: usize = 1500;

/// Why a connection cannot be handed over.
pub const CANNOT_DETACH: &'static str =
    "this endpoint cannot detach connections; build it with build_detachable";

/// How a local close is described.
pub const CLOSED_HERE: &'static str = "closed by this endpoint";

/// How a terminal connection is described.
pub const TERMINAL: &'static str = "the connection reached a terminal state";

/// How a connection the engine wants rid of is described.
pub const DISCARDED: &'static str = "the transport discarded the connection";

/// How a handshake that ran out of time is described.
pub const HANDSHAKE_LATE: &'static str = "the handshake did not complete in time";

/// One connection the driver answers for.
#[derive(Debug)]
pub struct Entry {
    /// Whether this endpoint drives it. A detached connection was handed to a caller; the
    /// endpoint keeps routing for it and sending what it produces, but no longer reads or
    /// writes its protocol state, which admits exactly one owner.
    pub attached: bool,
    /// Which shared state it reports to.
    pub shared: u64,
    /// Where its datagrams go.
    pub remote: Address,
    /// A datagram the socket refused, to be offered again.
    pub pending: Option<Vec<u8>>,
    /// Whether it has been reported finished.
    pub finished: bool,
}

/// What a [`Entry`] says.
pub struct EntryView {
    /// Whether this endpoint drives it.
    pub attached: bool,
    /// Which shared state it reports to.
    pub shared: u64,
    /// Where its datagrams go.
    pub remote: Address,
    /// A datagram the socket refused.
    pub pending: Option<Seq<u8>>,
    /// Whether it has been reported finished.
    pub finished: bool,
}

impl View for Entry {
    type V = EntryView;

    open spec fn view(&self) -> EntryView {
        EntryView {
            attached: self.attached,
            shared: self.shared,
            remote: self.remote,
            pending: match self.pending {
                Some(datagram) => Some(datagram@),
                None => None,
            },
            finished: self.finished,
        }
    }
}

/// Everything the driver keeps, mathematically.
#[verifier::ext_equal]
pub struct InnerView {
    /// Connections, by an index that never repeats.
    pub connections: Map<u64, EntryView>,
    /// Which connection each identifier routes to.
    pub routes: Map<Seq<u8>, u64>,
    /// The next index.
    pub next_index: u64,
    /// Whether this endpoint accepts connections it did not initiate.
    pub accepts: bool,
    /// Whether connections can be handed to callers who drive them.
    pub detachable: bool,
    /// Datagrams that belong to no connection.
    pub outbox: Seq<(Address, Seq<u8>)>,
    /// The deadline the timer is armed for.
    pub sleeping_until: Option<Timestamp>,
}

impl InnerView {
    /// Indices are never reused, and no identifier routes to a connection that is gone.
    pub open spec fn wf(self) -> bool {
        &&& forall|index: u64| #[trigger]
            self.connections.contains_key(index) ==> index < self.next_index
        &&& forall|id: Seq<u8>| #[trigger]
            self.routes.contains_key(id) ==> self.connections.contains_key(self.routes[id])
    }

    /// Whether this endpoint drives a connection.
    pub open spec fn drives(self, index: u64) -> bool {
        self.connections.contains_key(index) && self.connections[index].attached
    }

    /// With one connection in a new state.
    pub open spec fn with(self, index: u64, held: EntryView) -> Self {
        InnerView { connections: self.connections.insert(index, held), ..self }
    }

    /// With one connection reported finished.
    pub open spec fn with_finished(self, index: u64) -> Self {
        self.with(index, EntryView { finished: true, ..self.connections[index] })
    }

    /// With the next connectionless answer taken.
    pub open spec fn answer_taken(self) -> Self {
        InnerView { outbox: self.outbox.skip(1), ..self }
    }

    /// With a connectionless answer back at the front.
    pub open spec fn answer_returned(self, answer: (Address, Seq<u8>)) -> Self {
        InnerView { outbox: seq![answer] + self.outbox, ..self }
    }

    /// With one connection's datagram slot in a new state.
    pub open spec fn with_pending(self, index: u64, pending: Option<Seq<u8>>) -> Self {
        self.with(index, EntryView { pending, ..self.connections[index] })
    }

    /// With one connection handed over.
    pub open spec fn with_detached(self, index: u64) -> Self {
        self.with(index, EntryView { attached: false, ..self.connections[index] })
    }
}

/// The datagrams of an outbox, in order.
pub open spec fn answers(outbox: Seq<(Address, Vec<u8>)>) -> Seq<(Address, Seq<u8>)> {
    Seq::new(outbox.len(), |i: int| (outbox[i].0, outbox[i].1@))
}

/// Everything the driver keeps.
#[derive(Debug)]
pub struct Inner {
    connections: BTreeMap<u64, Entry>,
    routes: Routes,
    next_index: u64,
    accepts: bool,
    detachable: bool,
    outbox: VecDeque<(Address, Vec<u8>)>,
    sleeping_until: Option<Timestamp>,
}

impl View for Inner {
    type V = InnerView;

    closed spec fn view(&self) -> InnerView {
        InnerView {
            connections: self.connections@.map_values(|held: Entry| held@),
            routes: self.routes@,
            next_index: self.next_index,
            accepts: self.accepts,
            detachable: self.detachable,
            outbox: answers(self.outbox@),
            sleeping_until: self.sleeping_until,
        }
    }
}

proof fn lemma_index_order()
    ensures
        vstd::laws_cmp::obeys_cmp::<u64>(),
        vstd::std_specs::btree::key_obeys_cmp_spec::<u64>(),
{
    broadcast use vstd::laws_cmp::group_laws_cmp;
    broadcast use vstd::std_specs::btree::group_btree_axioms;
}

/// What became of a datagram routed to a connection.
#[derive(Debug)]
pub enum Delivery {
    /// The connection is gone.
    Unknown,
    /// The connection is detached, and its owner finds the datagram in its queue unless
    /// that was full. With whoever is to be woken.
    Queued(bool, Vec<u64>),
    /// The engine is to read it.
    Read,
}

/// What acting on a connection's observations came to.
#[derive(Debug)]
pub struct Absorbed {
    /// Whoever is to be woken.
    pub woken: Vec<u64>,
    /// The connection is now its caller's, under this key: zero for whoever is accepting,
    /// and otherwise the shared state of the caller who dialled it.
    pub handed: Option<u64>,
}

/// Whether the handshake completed among some observations.
pub open spec fn completes(observed: Seq<Observed>) -> bool {
    exists|i: int| 0 <= i < observed.len() && (#[trigger] observed[i]) is HandshakeCompleted
}

/// Whether the handshake completed among some observations.
pub fn has_completed(observed: &Vec<Observed>) -> (completed: bool)
    ensures
        completed == completes(observed@),
{
    let mut at: usize = 0;
    while at < observed.len()
        invariant
            at <= observed@.len(),
            forall|i: int| 0 <= i < at ==> !((#[trigger] observed@[i]) is HandshakeCompleted),
        decreases observed.len() - at,
    {
        if matches!(observed[at], Observed::HandshakeCompleted) {
            return true;
        }
        at += 1;
    }
    false
}

/// Whether a connection with something observed on it is due to be handed over.
pub open spec fn due_to_detach(shared: SharedView, attached: bool) -> bool {
    &&& attached
    &&& shared.observed.len() > 0
    &&& shared.detach
    &&& shared.established || completes(shared.observed)
}

/// The shared state once a connection's observations have been acted on.
///
/// The observations stay for the handle to see. Where the connection is due to be handed
/// over by an endpoint that cannot, it fails instead.
pub open spec fn absorbed(
    shared: SharedView,
    attached: bool,
    detachable: bool,
    retained: u64,
) -> SharedView {
    if shared.observed.len() == 0 {
        shared
    } else {
        let told = SharedView {
            retained: if attached {
                retained
            } else {
                shared.retained
            },
            established: shared.established || completes(shared.observed),
            ..shared.woken()
        };
        if due_to_detach(shared, attached) && !detachable {
            told.failed(ErrorView::plain(ErrorKind::InvalidInput, CANNOT_DETACH@))
        } else {
            told
        }
    }
}

/// The key a connection is handed over under.
pub open spec fn detach_key(shared: SharedView, held: EntryView) -> u64 {
    if shared.detach_to_acceptor {
        0
    } else {
        held.shared
    }
}

/// How a core failure that ends a connection is reported.
///
/// One of the handshake's own, met before the handshake has completed, is a refusal:
/// retrying without changing something will fail the same way. Everything else is the
/// transport's.
pub open spec fn broken_by(shared: SharedView, core: crate::error::ErrorView) -> ErrorView {
    if core.kind == crate::error::ErrorKind::Crypto && !shared.established && !completes(
        shared.observed,
    ) {
        ErrorView::rejected(core)
    } else {
        ErrorView::transport(core)
    }
}

/// How a core failure that ends a connection is reported.
pub fn broken(shared: &ConnectionShared, core: crate::error::Error) -> (error: Error)
    ensures
        error@ == broken_by(shared@, core@),
{
    if core.kind() == crate::error::ErrorKind::Crypto && !shared.is_established()
        && !has_completed(shared.observed()) {
        Error::rejected(core)
    } else {
        Error::from(core)
    }
}

/// Whether what the engine made of a datagram ends the connection.
pub open spec fn ends_reading(outcome: Result<ReadOutcome, crate::error::Error>) -> bool {
    !(outcome is Ok && outcome->Ok_0 is Processed)
}

/// Whether what the engine made of a datagram leaves nothing more to send or read. A peer
/// that closes the connection is another matter: the engine lets that one drain.
pub open spec fn discards(outcome: Result<ReadOutcome, crate::error::Error>) -> bool {
    match outcome {
        Ok(read) => read is SendRetry || read is DropSilently,
        Err(_) => true,
    }
}

/// The shared state once the engine has read a datagram.
pub open spec fn read_by(
    shared: SharedView,
    outcome: Result<ReadOutcome, crate::error::Error>,
    close: CloseError,
) -> SharedView {
    match outcome {
        Ok(ReadOutcome::Draining) => shared.failed(closed_by(close_view(close))),
        Ok(ReadOutcome::Closing) => shared.failed(closed_by(close_view(close))),
        Ok(ReadOutcome::SendRetry) => shared.failed(
            ErrorView::plain(ErrorKind::Transport, DISCARDED@),
        ),
        Ok(ReadOutcome::DropSilently) => shared.failed(
            ErrorView::plain(ErrorKind::Transport, DISCARDED@),
        ),
        Ok(ReadOutcome::Processed) => shared,
        Err(error) => shared.failed(broken_by(shared, error@)),
    }
}

/// How an expiry that failed is reported. A handshake that ran out of time is not a
/// transport failure: nothing refused anything, and a caller may reasonably retry.
pub open spec fn expiry_failure(shared: SharedView, error: crate::error::ErrorView) -> ErrorView {
    if error.native == Some(native::ERR_HANDSHAKE_TIMEOUT as int) {
        ErrorView::plain(ErrorKind::HandshakeTimeout, HANDSHAKE_LATE@)
    } else {
        broken_by(shared, error)
    }
}

/// The shared state once a timer has been serviced.
pub open spec fn expired_with(
    shared: SharedView,
    outcome: Result<ExpiryOutcome, crate::error::Error>,
    close: CloseError,
) -> SharedView {
    match outcome {
        Ok(ExpiryOutcome::Handled) => shared,
        Ok(ExpiryOutcome::IdleClose) => shared.failed(closed_by(close_view(close))),
        Ok(ExpiryOutcome::Terminal) => shared.failed(
            ErrorView::plain(ErrorKind::Transport, TERMINAL@),
        ),
        Err(error) => shared.failed(expiry_failure(shared, error@)),
    }
}

/// The driver's state once a connection that was due to be handed over has been, or, where
/// this endpoint cannot, has been given up.
pub open spec fn handed_over(inner: InnerView, shared: SharedView, index: u64) -> InnerView {
    if !due_to_detach(shared, inner.drives(index)) {
        inner
    } else if inner.detachable {
        inner.with_detached(index)
    } else {
        inner.with_finished(index)
    }
}

/// What acting on a connection's observations comes to: everything it leaves, whom it wakes
/// and whom it hands the connection to.
pub open spec fn absorbs(
    result: Absorbed,
    inner: InnerView,
    inner_after: InnerView,
    index: u64,
    retained: u64,
    shared: SharedView,
    shared_after: SharedView,
) -> bool {
    let attached = inner.drives(index);
    if !inner.connections.contains_key(index) {
        &&& inner_after == inner
        &&& shared_after == shared
        &&& result.woken@.len() == 0
        &&& result.handed is None
    } else {
        &&& shared_after == absorbed(shared, attached, inner.detachable, retained)
        &&& result.woken@ == (if shared.observed.len() > 0 {
            shared.wakers
        } else {
            Seq::empty()
        })
        &&& inner_after == handed_over(inner, shared, index)
        &&& result.handed == (if due_to_detach(shared, attached) && inner.detachable {
            Some(detach_key(shared, inner.connections[index]))
        } else {
            None
        })
    }
}

impl Inner {
    /// The driver's state is consistent.
    pub closed spec fn wf(&self) -> bool {
        self.routes.wf() && self@.wf()
    }

    /// A driver with no connections.
    pub fn new(accepts: bool, detachable: bool) -> (inner: Self)
        ensures
            inner.wf(),
            inner@ == (InnerView {
                connections: Map::empty(),
                routes: Map::empty(),
                next_index: 0,
                accepts,
                detachable,
                outbox: Seq::empty(),
                sleeping_until: None,
            }),
    {
        proof {
            lemma_index_order();
        }
        broadcast use vstd::std_specs::btree::group_btree_axioms;

        let inner = Self {
            connections: BTreeMap::new(),
            routes: Routes::new(),
            next_index: 0,
            accepts,
            detachable,
            outbox: VecDeque::new(),
            sleeping_until: None,
        };
        assert(inner@.connections =~= Map::empty());
        assert(inner@.outbox =~= Seq::empty());
        inner
    }

    /// Takes a connection's entry out of the table.
    fn checkout(&mut self, index: u64) -> (entry: Option<Entry>)
        requires
            old(self).wf(),
        ensures
            final(self).routes.wf(),
            entry is Some <==> old(self)@.connections.contains_key(index),
            entry matches Some(held) ==> held@ == old(self)@.connections[index],
            final(self)@ == (InnerView {
                connections: old(self)@.connections.remove(index),
                ..old(self)@
            }),
    {
        proof {
            lemma_index_order();
        }
        broadcast use vstd::std_specs::btree::group_btree_axioms;

        let entry = self.connections.remove(&index);
        assert(self@.connections =~= old(self)@.connections.remove(index));
        entry
    }

    /// Puts a connection's entry into the table.
    fn checkin(&mut self, index: u64, held: Entry)
        requires
            old(self).routes.wf(),
        ensures
            final(self).routes.wf(),
            final(self)@ == old(self)@.with(index, held@),
    {
        proof {
            lemma_index_order();
        }
        broadcast use vstd::std_specs::btree::group_btree_axioms;

        self.connections.insert(index, held);
        assert(self@.connections =~= old(self)@.connections.insert(index, held@));
    }

    /// A connection's entry.
    fn entry(&self, index: u64) -> (entry: Option<&Entry>)
        ensures
            entry is Some <==> self@.connections.contains_key(index),
            entry matches Some(held) ==> held@ == self@.connections[index],
    {
        proof {
            lemma_index_order();
        }
        broadcast use vstd::std_specs::btree::group_btree_axioms;

        self.connections.get(&index)
    }

    /// Every connection's index, in order.
    pub fn indices(&self) -> (indices: Vec<u64>)
        ensures
            indices@.no_duplicates(),
            indices@.to_set() == self@.connections.dom(),
    {
        proof {
            lemma_index_order();
        }
        broadcast use vstd::std_specs::btree::group_btree_axioms;

        let keys = self.connections.keys();
        let ghost all = vstd::std_specs::iter::IteratorSpec::remaining(&keys).unref();
        let mut indices: Vec<u64> = Vec::new();
        for index in it: keys
            invariant
                it.seq().unref() == all,
                indices@ == all.take(it.index()),
        {
            indices.push(*index);
            assert(indices@ =~= all.take(it.index() + 1));
        }
        proof {
            assert(all.take(all.len() as int) =~= all);
            assert(self@.connections.dom() =~= self.connections@.dom());
        }
        indices
    }

    /// Whether a connection is in the table.
    pub fn tracks(&self, index: u64) -> (known: bool)
        ensures
            known == self@.connections.contains_key(index),
    {
        self.entry(index).is_some()
    }

    /// Whether this endpoint drives a connection.
    pub fn drives(&self, index: u64) -> (driven: bool)
        ensures
            driven == self@.drives(index),
    {
        match self.entry(index) {
            Some(held) => held.attached,
            None => false,
        }
    }

    /// Whether this endpoint accepts connections it did not initiate.
    pub fn accepts(&self) -> (accepts: bool)
        ensures
            accepts == self@.accepts,
    {
        self.accepts
    }
}

/// Whose datagram a header says it is, where it can be made sense of.
pub open spec fn addressee(header: DecodedHeader, routes: Map<Seq<u8>, u64>) -> Option<u64> {
    if inspectable(header, DEFAULT_LEN) && routes.contains_key(header.dcid@) {
        Some(routes[header.dcid@])
    } else {
        None
    }
}

impl Inner {
    /// Takes a new connection into the table, under an index nothing has had before.
    pub fn adopt(&mut self, remote: Address, shared: u64) -> (index: u64)
        requires
            old(self).wf(),
            old(self)@.next_index < u64::MAX,
        ensures
            final(self).wf(),
            index == old(self)@.next_index,
            !old(self)@.connections.contains_key(index),
            final(self)@ == (InnerView {
                next_index: (old(self)@.next_index + 1) as u64,
                ..old(self)@.with(
                    index,
                    EntryView { attached: true, shared, remote, pending: None, finished: false },
                )
            }),
    {
        let index: u64 = self.next_index;
        self.next_index = index + 1;
        self.checkin(
            index,
            Entry { attached: true, shared, remote, pending: None, finished: false },
        );
        index
    }

    /// Registers a connection under every identifier it currently answers to.
    ///
    /// A connection this endpoint does not drive cannot be asked for its identifiers, and is
    /// left as it is.
    pub fn install_routes(&mut self, index: u64, scids: &Vec<ConnectionId>, scid: ConnectionId)
        requires
            old(self).wf(),
        ensures
            final(self).wf(),
            final(self)@ == (if old(self)@.drives(index) {
                InnerView {
                    routes: routed_all(old(self)@.routes, scids@, index).insert(scid@, index),
                    ..old(self)@
                }
            } else {
                old(self)@
            }),
    {
        if self.drives(index) {
            self.routes.install(scids, index);
            self.routes.insert(scid, index);
            proof {
                lemma_routed_all(old(self)@.routes, scids@, index);
            }
        }
    }

    /// Routes one more identifier to a connection.
    ///
    /// The identifier a client first addressed routes to its connection until the handshake
    /// gives the connection its own: the client's next packet still carries it.
    pub fn install_route(&mut self, index: u64, id: ConnectionId)
        requires
            old(self).wf(),
            old(self)@.connections.contains_key(index),
        ensures
            final(self).wf(),
            final(self)@ == (InnerView {
                routes: old(self)@.routes.insert(id@, index),
                ..old(self)@
            }),
    {
        self.routes.insert(id, index);
    }

    /// Finds the connection a datagram is addressed to.
    pub fn route(&self, header: &DecodedHeader) -> (target: Option<u64>)
        requires
            self.wf(),
        ensures
            target == addressee(*header, self@.routes),
            target matches Some(index) ==> self@.connections.contains_key(index),
    {
        match inspect(header, DEFAULT_LEN) {
            Ok(inspection) => self.routes.get(inspection.dcid().as_bytes()),
            Err(_) => None,
        }
    }

    /// Passes a datagram on to whoever drives a connection.
    ///
    /// Reading it here when the connection is detached would be a second reader of state
    /// that admits only one, so it is queued for the owner instead, in a copy that outlives
    /// the receive buffer.
    pub fn deliver(&self, index: u64, datagram: &[u8], shared: &mut ConnectionShared) -> (delivery:
        Delivery)
        ensures
            if !self@.connections.contains_key(index) {
                delivery is Unknown && final(shared)@ == old(shared)@
            } else if self@.connections[index].attached {
                delivery is Read && final(shared)@ == old(shared)@
            } else {
                &&& delivery matches Delivery::Queued(kept, woken)
                &&& kept == (old(shared)@.inbound.len() < DATAGRAM_QUEUE)
                &&& woken@ == (if kept {
                    old(shared)@.wakers
                } else {
                    Seq::empty()
                })
                &&& final(shared)@ == (if kept {
                    SharedView {
                        inbound: old(shared)@.inbound.push(datagram@),
                        ..old(shared)@.woken()
                    }
                } else {
                    SharedView { dropped: counted_up(old(shared)@.dropped), ..old(shared)@ }
                })
            },
    {
        match self.entry(index) {
            None => Delivery::Unknown,
            Some(held) => if held.attached {
                Delivery::Read
            } else {
                let (kept, woken) = shared.deliver_inbound(vstd::slice::slice_to_vec(datagram));
                Delivery::Queued(kept, woken)
            },
        }
    }

    /// Marks a connection finished.
    fn finish(&mut self, index: u64)
        requires
            old(self).wf(),
            old(self)@.connections.contains_key(index),
        ensures
            final(self).wf(),
            final(self)@ == old(self)@.with_finished(index),
    {
        match self.checkout(index) {
            Some(held) => {
                let mut held = held;
                held.finished = true;
                self.checkin(index, held);
                assert(self@ =~= old(self)@.with_finished(index));
            },
            None => {},
        }
    }

    /// Replaces the datagram a connection has waiting.
    fn set_pending(&mut self, index: u64, pending: Option<Vec<u8>>)
        requires
            old(self).wf(),
            old(self)@.connections.contains_key(index),
        ensures
            final(self).wf(),
            final(self)@ == old(self)@.with_pending(
                index,
                match pending {
                    Some(datagram) => Some(datagram@),
                    None => None,
                },
            ),
    {
        match self.checkout(index) {
            Some(held) => {
                let mut held = held;
                held.pending = pending;
                self.checkin(index, held);
                assert(self@ =~= old(self)@.with_pending(
                    index,
                    match pending {
                        Some(datagram) => Some(datagram@),
                        None => None,
                    },
                ));
            },
            None => {},
        }
    }

    /// Gives a connection to the caller that asked for it, and says under which key; or
    /// fails it, where this endpoint shares no timescale with such a caller, and says whom
    /// that wakes.
    ///
    /// The endpoint keeps the entry, because it still routes datagrams there and still has to
    /// release the identifiers when the caller is done. What it gives up is the protocol
    /// state. A connection that is failed instead becomes evictable.
    pub fn hand_over(&mut self, index: u64, shared: &mut ConnectionShared) -> (result: Absorbed)
        requires
            old(self).wf(),
        ensures
            final(self).wf(),
            if !old(self)@.drives(index) {
                &&& final(self)@ == old(self)@
                &&& final(shared)@ == old(shared)@
                &&& result.handed is None
                &&& result.woken@.len() == 0
            } else if !old(self)@.detachable {
                &&& final(self)@ == old(self)@.with_finished(index)
                &&& final(shared)@ == old(shared)@.failed(
                    ErrorView::plain(ErrorKind::InvalidInput, CANNOT_DETACH@),
                )
                &&& result.handed is None
                &&& result.woken@ == old(shared)@.wakers
            } else {
                &&& final(self)@ == old(self)@.with_detached(index)
                &&& final(shared)@ == old(shared)@
                &&& result.handed == Some(detach_key(old(shared)@, old(self)@.connections[index]))
                &&& result.woken@.len() == 0
            },
    {
        if !self.drives(index) {
            return Absorbed { woken: Vec::new(), handed: None };
        }
        if !self.detachable {
            self.finish(index);
            let woken = shared.fail(Error::new(ErrorKind::InvalidInput, CANNOT_DETACH));
            return Absorbed { woken, handed: None };
        }
        let mut key: u64 = 0;
        match self.checkout(index) {
            Some(held) => {
                let mut held = held;
                if !shared.detaches_to_acceptor() {
                    key = held.shared;
                }
                held.attached = false;
                self.checkin(index, held);
                assert(self@ =~= old(self)@.with_detached(index));
            },
            None => {},
        }
        Absorbed { woken: Vec::new(), handed: Some(key) }
    }

    /// Acts on what a connection's handlers recorded.
    ///
    /// `retained` is what the engine still holds for the connection. A connection asked for
    /// by a caller who will drive it is handed over the moment it can carry anything; until
    /// then the endpoint completes the handshake.
    pub fn absorb(&mut self, index: u64, retained: u64, shared: &mut ConnectionShared) -> (result:
        Absorbed)
        requires
            old(self).wf(),
        ensures
            final(self).wf(),
            absorbs(
                result,
                old(self)@,
                final(self)@,
                index,
                retained,
                old(shared)@,
                final(shared)@,
            ),
    {
        if !self.tracks(index) || shared.observed().len() == 0 {
            return Absorbed { woken: Vec::new(), handed: None };
        }
        if self.drives(index) {
            shared.set_retained(retained);
        }
        let mut woken: Vec<u64> = Vec::new();
        if has_completed(shared.observed()) {
            woken = shared.mark_established();
        }
        let mut handed: Option<u64> = None;
        if shared.wants_detach() && shared.is_established() {
            let mut given = self.hand_over(index, shared);
            handed = given.handed;
            woken.append(&mut given.woken);
        }
        let mut rest = shared.wake_all();
        woken.append(&mut rest);
        proof {
            let attached = old(self)@.drives(index);
            assert(shared@ =~= absorbed(
                old(shared)@,
                attached,
                old(self)@.detachable,
                retained,
            ));
            assert(woken@ =~= old(shared)@.wakers);
        }
        Absorbed { woken, handed }
    }

    /// Acts on what the engine made of a datagram, and on what its handlers recorded.
    ///
    /// What a closing peer *said* is on the connection, and is the only application-level
    /// explanation available: `close` carries it. A connection the transport has given up on
    /// has nothing more to send and nothing more to read, so it becomes evictable; and so
    /// does one a server has to discard, without a word to the peer.
    pub fn read(
        &mut self,
        index: u64,
        outcome: Result<ReadOutcome, crate::error::Error>,
        close: CloseError,
        retained: u64,
        shared: &mut ConnectionShared,
    ) -> (result: Absorbed)
        requires
            old(self).wf(),
            old(self)@.drives(index),
        ensures
            final(self).wf(),
            ({
                let told = read_by(old(shared)@, outcome, close);
                let kept = if discards(outcome) {
                    old(self)@.with_finished(index)
                } else {
                    old(self)@
                };
                &&& final(shared)@ == absorbed(told, true, old(self)@.detachable, retained)
                &&& result.woken@ == (if ends_reading(outcome) || old(shared)@.observed.len() > 0 {
                    old(shared)@.wakers
                } else {
                    Seq::empty()
                })
                &&& final(self)@ == handed_over(kept, told, index)
                &&& result.handed == (if due_to_detach(told, true) && old(self)@.detachable {
                    Some(detach_key(told, old(self)@.connections[index]))
                } else {
                    None
                })
            }),
    {
        let mut woken: Vec<u64> = Vec::new();
        match outcome {
            Ok(ReadOutcome::Processed) => {},
            Ok(ReadOutcome::SendRetry) | Ok(ReadOutcome::DropSilently) => {
                self.finish(index);
                woken = shared.fail(Error::new(ErrorKind::Transport, DISCARDED));
            },
            Ok(ReadOutcome::Draining) | Ok(ReadOutcome::Closing) => {
                woken = shared.fail_with_close(close);
            },
            Err(error) => {
                self.finish(index);
                let failure = broken(shared, error);
                woken = shared.fail(failure);
            },
        }
        let mut result = self.absorb(index, retained, shared);
        woken.append(&mut result.woken);
        Absorbed { woken, handed: result.handed }
    }

    /// Applies a connection's identifier changes to the routing table.
    ///
    /// Routing is the endpoint's job for every connection, detached or not. Applied before
    /// anything is sent, so that an identifier is routable before the packet announcing it
    /// leaves.
    pub fn apply_routes(&mut self, index: u64, shared: &mut ConnectionShared)
        requires
            old(self).wf(),
        ensures
            final(self).wf(),
            if old(self)@.connections.contains_key(index) {
                &&& final(self)@ == (InnerView {
                    routes: updated_all(old(self)@.routes, old(shared)@.routes, index),
                    ..old(self)@
                })
                &&& final(shared)@ == (SharedView { routes: Seq::empty(), ..old(shared)@ })
            } else {
                final(self)@ == old(self)@ && final(shared)@ == old(shared)@
            },
    {
        if self.tracks(index) {
            let updates = shared.take_routes();
            proof {
                lemma_updated_all(self@.routes, updates@, index);
            }
            self.routes.apply(updates, index);
        }
    }
}

/// Installing identifiers routes them to the one connection and to no other.
proof fn lemma_routed_all(routes: Map<Seq<u8>, u64>, ids: Seq<ConnectionId>, target: u64)
    ensures
        forall|id: Seq<u8>| #[trigger]
            routed_all(routes, ids, target).contains_key(id) ==> routed_all(
                routes,
                ids,
                target,
            )[id] == target || routes.contains_key(id) && routed_all(routes, ids, target)[id]
                == routes[id],
    decreases ids.len(),
{
    if ids.len() > 0 {
        let front = routed_all(routes, ids.drop_last(), target);
        lemma_routed_all(routes, ids.drop_last(), target);
        assert forall|id: Seq<u8>| #[trigger]
            routed_all(routes, ids, target).contains_key(id) implies routed_all(
            routes,
            ids,
            target,
        )[id] == target || routes.contains_key(id) && routed_all(routes, ids, target)[id]
            == routes[id] by {
            if id != ids.last()@ {
                assert(front.contains_key(id));
            }
        }
    }
}

/// Identifier changes route to the one connection and to no other.
proof fn lemma_updated_all(
    routes: Map<Seq<u8>, u64>,
    updates: Seq<RouteUpdate>,
    target: u64,
)
    ensures
        forall|id: Seq<u8>| #[trigger]
            updated_all(routes, updates, target).contains_key(id) ==> updated_all(
                routes,
                updates,
                target,
            )[id] == target || routes.contains_key(id) && updated_all(routes, updates, target)[id]
                == routes[id],
    decreases updates.len(),
{
    if updates.len() > 0 {
        let front = updated_all(routes, updates.drop_last(), target);
        lemma_updated_all(routes, updates.drop_last(), target);
        assert forall|id: Seq<u8>| #[trigger]
            updated_all(routes, updates, target).contains_key(id) implies updated_all(
            routes,
            updates,
            target,
        )[id] == target || routes.contains_key(id) && updated_all(routes, updates, target)[id]
            == routes[id] by {
            let changed = match updates.last() {
                RouteUpdate::Minted(changed) => changed@,
                RouteUpdate::Retired(changed) => changed@,
            };
            if id != changed {
                assert(front.contains_key(id));
            }
        }
    }
}

/// Something the engine is asked on a handle's behalf.
#[derive(Clone, Copy, Debug)]
pub enum EngineCall {
    /// Open a stream, bidirectional or not.
    OpenStream(bool),
    /// Reset a stream.
    ResetStream(StreamId, ApplicationErrorCode),
    /// Ask the peer to stop sending.
    StopSending(StreamId, ApplicationErrorCode),
    /// Give back credit on a stream.
    ExtendStream(StreamId, u64),
    /// Give back credit on the connection.
    ExtendConnection(u64),
}

/// What the engine is asked for a command. Writing and closing have procedures of their own.
///
/// Credit is given back at both levels, because the connection's window is shared across
/// every stream: extending only the stream's stalls the connection once enough bytes have
/// flowed, late and with nothing to explain it.
pub open spec fn calls_for(command: Command) -> Seq<EngineCall> {
    match command {
        Command::OpenStream { bidi } => seq![EngineCall::OpenStream(bidi)],
        Command::Write { .. } => Seq::empty(),
        Command::Reset(stream, code) => seq![EngineCall::ResetStream(stream, code)],
        Command::StopSending(stream, code) => seq![EngineCall::StopSending(stream, code)],
        Command::Close(..) => Seq::empty(),
        Command::ExtendCredit { stream, bytes } => seq![
            EngineCall::ExtendStream(stream, bytes),
            EngineCall::ExtendConnection(bytes),
        ],
    }
}

/// What the engine is asked for a command.
pub fn engine_calls(command: &Command) -> (calls: Vec<EngineCall>)
    ensures
        calls@ == calls_for(*command),
{
    let mut calls: Vec<EngineCall> = Vec::new();
    match command {
        Command::OpenStream { bidi } => calls.push(EngineCall::OpenStream(*bidi)),
        Command::Write { .. } => {},
        Command::Reset(stream, code) => calls.push(EngineCall::ResetStream(*stream, *code)),
        Command::StopSending(stream, code) => calls.push(EngineCall::StopSending(*stream, *code)),
        Command::Close(..) => {},
        Command::ExtendCredit { stream, bytes } => {
            calls.push(EngineCall::ExtendStream(*stream, *bytes));
            calls.push(EngineCall::ExtendConnection(*bytes));
        },
    }
    assert(calls@ =~= calls_for(*command));
    calls
}

/// Whom a step wakes: tasks waiting on the connection, and the driver where it was parked.
#[derive(Debug)]
pub struct Wakes {
    /// Tasks waiting on the connection.
    pub tasks: Vec<u64>,
    /// The driver.
    pub driver: Option<u64>,
}

/// Something the engine told a connection's handlers.
#[derive(Debug)]
pub enum Notice {
    /// Bytes arrived on a stream, and whether they end it.
    StreamData(StreamId, Vec<u8>, bool),
    /// The peer opened a stream.
    StreamOpen(StreamId),
    /// A stream finished.
    StreamClose(StreamId, StreamCloseReason),
    /// The peer reset a stream.
    StreamReset(StreamId, ApplicationErrorCode),
    /// The peer asked this endpoint to stop sending.
    StopSending(StreamId, ApplicationErrorCode),
    /// The peer acknowledged stream data.
    AckedStreamData(StreamId, u64),
    /// The handshake completed.
    HandshakeCompleted,
    /// The peer raised how many streams of either direction may be opened.
    MaxLocalStreams(u64),
    /// The connection answers to a new identifier.
    NewConnectionId(ConnectionId),
    /// The connection no longer answers to an identifier.
    RemoveConnectionId(ConnectionId),
}

/// What a connection's handlers do when the engine tells them something: take a note.
///
/// Identifier changes go to the routing queue rather than the observation queue: the endpoint
/// needs them whoever is driving the connection. Room for more streams wakes whoever waits
/// for some; nothing else announces that the block has lifted.
pub fn take_note(
    notice: Notice,
    shared: &mut ConnectionShared,
    endpoint: &mut EndpointShared,
) -> (wakes: Wakes)
    ensures
        final(shared)@ == (match notice {
            Notice::StreamData(id, bytes, fin) => old(shared)@.noted(
                Observed::Data(id, bytes, fin),
            ),
            Notice::StreamOpen(id) => old(shared)@.noted(Observed::Opened(id)),
            Notice::StreamClose(id, reason) => old(shared)@.noted(Observed::Closed(id, reason)),
            Notice::StreamReset(id, code) => old(shared)@.noted(Observed::Reset(id, code)),
            Notice::StopSending(id, code) => old(shared)@.noted(Observed::StopSending(id, code)),
            Notice::AckedStreamData(id, len) => old(shared)@.noted(Observed::Acked(id, len)),
            Notice::HandshakeCompleted => old(shared)@.noted(Observed::HandshakeCompleted),
            Notice::MaxLocalStreams(max) => old(shared)@.noted(
                Observed::StreamsExtended(max),
            ).woken(),
            Notice::NewConnectionId(id) => SharedView {
                routes: old(shared)@.routes.push(RouteUpdate::Minted(id)),
                ..old(shared)@
            },
            Notice::RemoveConnectionId(id) => SharedView {
                routes: old(shared)@.routes.push(RouteUpdate::Retired(id)),
                ..old(shared)@
            },
        }),
        wakes.tasks@ == (if notice is MaxLocalStreams {
            old(shared)@.wakers
        } else {
            Seq::empty()
        }),
        if notice is NewConnectionId || notice is RemoveConnectionId {
            &&& wakes.driver == old(endpoint)@.driver_waker
            &&& final(endpoint)@ == old(endpoint)@.driver_woken()
        } else {
            wakes.driver is None && final(endpoint)@ == old(endpoint)@
        },
{
    match notice {
        Notice::StreamData(id, bytes, fin) => shared.observe(Observed::Data(id, bytes, fin)),
        Notice::StreamOpen(id) => shared.observe(Observed::Opened(id)),
        Notice::StreamClose(id, reason) => shared.observe(Observed::Closed(id, reason)),
        Notice::StreamReset(id, code) => shared.observe(Observed::Reset(id, code)),
        Notice::StopSending(id, code) => shared.observe(Observed::StopSending(id, code)),
        Notice::AckedStreamData(id, len) => shared.observe(Observed::Acked(id, len)),
        Notice::HandshakeCompleted => shared.observe(Observed::HandshakeCompleted),
        Notice::MaxLocalStreams(max) => {
            shared.observe(Observed::StreamsExtended(max));
            return Wakes { tasks: shared.wake_all(), driver: None };
        },
        Notice::NewConnectionId(id) => {
            let driver = shared.observe_route(endpoint, RouteUpdate::Minted(id));
            return Wakes { tasks: Vec::new(), driver };
        },
        Notice::RemoveConnectionId(id) => {
            let driver = shared.observe_route(endpoint, RouteUpdate::Retired(id));
            return Wakes { tasks: Vec::new(), driver };
        },
    }
    Wakes { tasks: Vec::new(), driver: None }
}

/// Stream data a handle asked to be written.
#[derive(Debug)]
pub struct Write {
    /// The stream to write to.
    pub stream: StreamId,
    /// The bytes.
    pub data: Vec<u8>,
    /// Whether these are the last bytes.
    pub fin: bool,
}

impl Write {
    /// The request this came from.
    pub open spec fn request(&self) -> CommandView {
        CommandView::Write(self.stream@, self.data@, self.fin)
    }

    /// The request for what is left once some bytes have been taken.
    pub open spec fn remainder(&self, accepted: nat) -> CommandView {
        CommandView::Write(self.stream@, self.data@.skip(accepted as int), self.fin)
    }

    /// Puts the whole request back on the queue.
    fn requeue(self, shared: &mut ConnectionShared, endpoint: &mut EndpointShared) -> (driver:
        Option<u64>)
        ensures
            final(shared)@ == old(shared)@.asked(self.request()),
            final(endpoint)@ == old(endpoint)@.driver_woken(),
            driver == old(endpoint)@.driver_waker,
    {
        shared.push(
            endpoint,
            Command::Write { stream: self.stream, data: self.data, fin: self.fin },
        )
    }
}

/// What to do with stream data.
#[derive(Debug)]
pub enum WritePlan {
    /// The connection is gone, or is not this endpoint's to write to.
    Dropped,
    /// It waits its turn. With the driver, where it was parked.
    Requeued(Option<u64>),
    /// Offer the engine this many of the bytes, and the end of the stream or not.
    Offer {
        /// The request.
        write: Write,
        /// How many of its bytes to offer.
        len: usize,
        /// Whether they end the stream.
        last: bool,
    },
}

/// What offering stream data to the engine came to.
#[derive(Debug)]
pub enum Wrote {
    /// A datagram was produced and is to be offered to the socket.
    Datagram {
        /// The request.
        write: Write,
        /// Where the datagram goes.
        destination: Address,
        /// Its length.
        len: usize,
        /// How many of the bytes it carries.
        accepted: usize,
    },
    /// The request waits for credit. With the driver, where it was parked.
    Requeued(Option<u64>),
    /// The connection failed. With whoever was waiting on it.
    Failed(Vec<u64>),
}

/// How many of `len` bytes are offered at once: one packet's worth, and always some.
pub open spec fn chunk(len: nat, permitted: nat) -> nat {
    let room = if permitted == 0 {
        1
    } else {
        permitted
    };
    if len < room {
        len
    } else {
        room
    }
}

impl Inner {
    /// Takes what a handle asked for on one connection.
    ///
    /// A detached connection's owner drives it directly and issues no commands here.
    pub fn begin_commands(&self, index: u64, shared: &mut ConnectionShared) -> (batch: VecDeque<
        Command,
    >)
        ensures
            if self@.drives(index) {
                &&& requests(batch@) == old(shared)@.commands
                &&& final(shared)@ == (SharedView { commands: Seq::empty(), ..old(shared)@ })
            } else {
                batch@.len() == 0 && final(shared)@ == old(shared)@
            },
    {
        if self.drives(index) {
            shared.take_commands()
        } else {
            VecDeque::new()
        }
    }

    /// The next command of a batch, in the order they were asked for. What is left of a batch
    /// is forgotten once the connection is no longer this endpoint's to drive.
    pub fn next_command(&self, index: u64, batch: &mut VecDeque<Command>) -> (command: Option<
        Command,
    >)
        ensures
            if !self@.drives(index) {
                command is None && final(batch)@.len() == 0
            } else if old(batch)@.len() == 0 {
                command is None && final(batch)@ == old(batch)@
            } else {
                command == Some(old(batch)@[0]) && final(batch)@ == old(batch)@.skip(1)
            },
    {
        if !self.drives(index) {
            batch.clear();
            return None;
        }
        let command = batch.pop_front();
        assert(old(batch)@.len() > 0 ==> batch@ =~= old(batch)@.skip(1));
        command
    }

    /// Decides how much stream data to offer.
    ///
    /// At most one packet's worth: whatever the engine accepts is copied and held until the
    /// peer acknowledges it, so offering a whole large payload on every attempt would recopy
    /// the remainder for every datagram. The end of the stream goes with the *last* bytes,
    /// never before. One datagram is in flight at a time per connection, so while the last
    /// one waits for the socket this write waits its turn rather than overwriting it.
    pub fn write_stream(
        &self,
        index: u64,
        write: Write,
        permitted: usize,
        shared: &mut ConnectionShared,
        endpoint: &mut EndpointShared,
    ) -> (plan: WritePlan)
        ensures
            if self@.connections.contains_key(index) && self@.connections[index].pending is Some {
                &&& plan == WritePlan::Requeued(old(endpoint)@.driver_waker)
                &&& final(shared)@ == old(shared)@.asked(write.request())
                &&& final(endpoint)@ == old(endpoint)@.driver_woken()
            } else {
                &&& final(shared)@ == old(shared)@
                &&& final(endpoint)@ == old(endpoint)@
                &&& if self@.drives(index) {
                    plan == (WritePlan::Offer {
                        write,
                        len: chunk(write.data@.len(), permitted as nat) as usize,
                        last: write.fin && chunk(write.data@.len(), permitted as nat)
                            == write.data@.len(),
                    })
                } else {
                    plan is Dropped
                }
            },
    {
        match self.entry(index) {
            None => WritePlan::Dropped,
            Some(held) => {
                if held.pending.is_some() {
                    return WritePlan::Requeued(write.requeue(shared, endpoint));
                }
                if !held.attached {
                    return WritePlan::Dropped;
                }
                let room: usize = if permitted == 0 {
                    1
                } else {
                    permitted
                };
                let total: usize = write.data.len();
                let len: usize = if total < room {
                    total
                } else {
                    room
                };
                let last: bool = write.fin && len == total;
                WritePlan::Offer { write, len, last }
            },
        }
    }

    /// Acts on the engine's answer to opening a stream.
    ///
    /// Running out of stream credit is an ordinary condition in a working connection, so the
    /// request waits for the peer to raise the limit rather than tearing the connection down. Any
    /// other failure ends it, and it becomes evictable.
    pub fn stream_opened(
        &mut self,
        index: u64,
        bidi: bool,
        opened: Result<StreamId, crate::error::Error>,
        shared: &mut ConnectionShared,
        endpoint: &mut EndpointShared,
    ) -> (wakes: Wakes)
        requires
            old(self).wf(),
            old(self)@.connections.contains_key(index),
        ensures
            final(self).wf(),
            final(self)@ == (if opened matches Err(error) && error@.kind
                != crate::error::ErrorKind::Blocked {
                old(self)@.with_finished(index)
            } else {
                old(self)@
            }),
            match opened {
                Ok(id) => {
                    &&& final(shared)@ == old(shared)@.noted(Observed::LocallyOpened(id)).woken()
                    &&& final(endpoint)@ == old(endpoint)@
                    &&& wakes.tasks@ == old(shared)@.wakers
                    &&& wakes.driver is None
                },
                Err(error) => if error@.kind == crate::error::ErrorKind::Blocked {
                    &&& final(shared)@ == old(shared)@.asked(CommandView::OpenStream(bidi))
                    &&& final(endpoint)@ == old(endpoint)@.driver_woken()
                    &&& wakes.tasks@.len() == 0
                    &&& wakes.driver == old(endpoint)@.driver_waker
                } else {
                    &&& final(shared)@ == old(shared)@.failed(
                        broken_by(old(shared)@, error@),
                    )
                    &&& final(endpoint)@ == old(endpoint)@
                    &&& wakes.tasks@ == old(shared)@.wakers
                    &&& wakes.driver is None
                },
            },
    {
        match opened {
            Ok(id) => {
                shared.observe(Observed::LocallyOpened(id));
                Wakes { tasks: shared.wake_all(), driver: None }
            },
            Err(error) => if error.kind() == crate::error::ErrorKind::Blocked {
                let driver = shared.push(endpoint, Command::OpenStream { bidi });
                Wakes { tasks: Vec::new(), driver }
            } else {
                self.finish(index);
                let failure = broken(shared, error);
                Wakes { tasks: shared.fail(failure), driver: None }
            },
        }
    }

    /// Acts on the engine's answer to stream data offered to it.
    ///
    /// Being blocked, on the stream, the connection or the congestion window, is neither an
    /// error nor the end: the request goes back on the queue. Treating any of these as
    /// "finished" is the classic stall. A failure is the end, and the connection becomes
    /// evictable.
    pub fn wrote(
        &mut self,
        index: u64,
        write: Write,
        outcome: Result<StreamWrite, crate::error::Error>,
        shared: &mut ConnectionShared,
        endpoint: &mut EndpointShared,
    ) -> (result: Wrote)
        requires
            old(self).wf(),
            old(self)@.connections.contains_key(index),
        ensures
            final(self).wf(),
            final(self)@ == (if outcome is Err {
                old(self)@.with_finished(index)
            } else {
                old(self)@
            }),
            match outcome {
                Ok(StreamWrite::Datagram { len, accepted }) => {
                    &&& result == (Wrote::Datagram {
                        write,
                        destination: old(self)@.connections[index].remote,
                        len,
                        accepted,
                    })
                    &&& final(shared)@ == old(shared)@
                    &&& final(endpoint)@ == old(endpoint)@
                },
                Ok(_) => {
                    &&& result == Wrote::Requeued(old(endpoint)@.driver_waker)
                    &&& final(shared)@ == old(shared)@.asked(write.request())
                    &&& final(endpoint)@ == old(endpoint)@.driver_woken()
                },
                Err(error) => {
                    &&& result matches Wrote::Failed(woken) && woken@ == old(shared)@.wakers
                    &&& final(shared)@ == old(shared)@.failed(
                        broken_by(old(shared)@, error@),
                    )
                    &&& final(endpoint)@ == old(endpoint)@
                },
            },
    {
        match outcome {
            Ok(StreamWrite::Datagram { len, accepted }) => match self.entry(index) {
                Some(held) => Wrote::Datagram { write, destination: held.remote, len, accepted },
                None => Wrote::Failed(Vec::new()),
            },
            Ok(StreamWrite::StreamBlocked) | Ok(StreamWrite::ConnectionBlocked) | Ok(
                StreamWrite::Blocked,
            ) | Ok(StreamWrite::Idle) => Wrote::Requeued(write.requeue(shared, endpoint)),
            Err(error) => {
                self.finish(index);
                let failure = broken(shared, error);
                Wrote::Failed(shared.fail(failure))
            },
        }
    }

    /// Acts on what the socket made of a datagram that carries stream data.
    ///
    /// One the socket did not take is kept, in a copy of its own, since the send buffer is
    /// about to be reused; where the socket failed outright, flushing meets that failure
    /// when it offers the datagram again. Whatever data the datagram does not carry, which
    /// may be all of it, goes back on the queue.
    pub fn write_offered(
        &mut self,
        index: u64,
        write: Write,
        accepted: usize,
        datagram: &[u8],
        offer: &Offer,
        held: u64,
        shared: &mut ConnectionShared,
        endpoint: &mut EndpointShared,
    ) -> (driver: Option<u64>)
        requires
            old(self).wf(),
            old(self)@.connections.contains_key(index),
        ensures
            final(self).wf(),
            final(self)@ == (if offer.complete() {
                old(self)@
            } else {
                old(self)@.with_pending(index, Some(datagram@))
            }),
            ({
                let told = SharedView { retained: held, ..old(shared)@ };
                if accepted < write.data@.len() {
                    &&& final(shared)@ == told.asked(write.remainder(accepted as nat))
                    &&& final(endpoint)@ == old(endpoint)@.driver_woken()
                    &&& driver == old(endpoint)@.driver_waker
                } else {
                    &&& final(shared)@ == told
                    &&& final(endpoint)@ == old(endpoint)@
                    &&& driver is None
                }
            }),
    {
        let complete: bool = matches!(offer, Offer::Answered(Sent::Complete));
        if !complete {
            self.set_pending(index, Some(vstd::slice::slice_to_vec(datagram)));
        }
        shared.set_retained(held);
        let total: usize = write.data.len();
        if accepted < total {
            let rest = vstd::slice::slice_to_vec(
                vstd::slice::slice_subrange(write.data.as_slice(), accepted, total),
            );
            assert(rest@ =~= write.data@.skip(accepted as int));
            let rest = Write { stream: write.stream, data: rest, fin: write.fin };
            return rest.requeue(shared, endpoint);
        }
        None
    }

    /// Ends a connection locally, given what writing its close came to.
    ///
    /// The close datagram takes the waiting slot, or queues behind the datagram already in
    /// it: overwriting that one would silently drop a packet. The connection becomes
    /// evictable once its close has gone.
    pub fn close_connection(
        &mut self,
        index: u64,
        written: Result<usize, crate::error::Error>,
        buffer: &[u8],
        shared: &mut ConnectionShared,
    ) -> (woken: Vec<u64>)
        requires
            old(self).wf(),
            written matches Ok(len) ==> len <= buffer@.len(),
        ensures
            final(self).wf(),
            if old(self)@.connections.contains_key(index) {
                let entry = old(self)@.connections[index];
                let close = if entry.attached && written is Ok && written->Ok_0 > 0 {
                    Some(buffer@.take(written->Ok_0 as int))
                } else {
                    None
                };
                &&& woken@ == old(shared)@.wakers
                &&& final(shared)@ == old(shared)@.failed(
                    ErrorView::plain(ErrorKind::LocallyClosed, CLOSED_HERE@),
                )
                &&& final(self)@ == (match close {
                    None => old(self)@.with_finished(index),
                    Some(datagram) => if entry.pending is None {
                        old(self)@.with_pending(index, Some(datagram)).with_finished(index)
                    } else {
                        InnerView {
                            outbox: old(self)@.outbox.push((entry.remote, datagram)),
                            ..old(self)@.with_finished(index)
                        }
                    },
                })
            } else {
                &&& woken@.len() == 0
                &&& final(shared)@ == old(shared)@
                &&& final(self)@ == old(self)@
            },
    {
        match self.checkout(index) {
            None => {
                assert(self@ =~= old(self)@);
                Vec::new()
            },
            Some(held) => {
                let mut held = held;
                let ghost outbox = self.outbox@;
                if held.attached {
                    if let Ok(len) = written {
                        if len > 0 {
                            let datagram = vstd::slice::slice_to_vec(
                                vstd::slice::slice_subrange(buffer, 0, len),
                            );
                            assert(datagram@ =~= buffer@.take(len as int));
                            if held.pending.is_some() {
                                self.outbox.push_back((held.remote, datagram));
                                assert(answers(self.outbox@) =~= answers(outbox).push(
                                    (held.remote, datagram@),
                                ));
                            } else {
                                held.pending = Some(datagram);
                            }
                        }
                    }
                }
                held.finished = true;
                self.checkin(index, held);
                proof {
                    let entry = old(self)@.connections[index];
                    assert(self@.connections =~= old(self)@.connections.insert(index, held@));
                }
                shared.fail(Error::new(ErrorKind::LocallyClosed, CLOSED_HERE))
            },
        }
    }
}

/// Every byte of a write is either in the datagram that was produced or on the queue again,
/// in order, and nothing is in both.
pub proof fn law_no_stream_byte_is_lost(write: Write, accepted: nat)
    requires
        accepted <= write.data@.len(),
    ensures
        write.remainder(accepted) matches CommandView::Write(stream, rest, fin) && {
            &&& stream == write.stream@
            &&& fin == write.fin
            &&& write.data@.take(accepted as int) + rest == write.data@
        },
{
    assert(write.data@.take(accepted as int) + write.data@.skip(accepted as int)
        =~= write.data@);
}

/// A write always makes an offer of some bytes unless it has none, never of more than it
/// has, and never of more than a packet carries where a packet carries any.
pub proof fn law_a_write_offers_one_packets_worth(len: nat, permitted: nat)
    ensures
        len > 0 ==> chunk(len, permitted) > 0,
        chunk(len, permitted) <= len,
        permitted > 0 ==> chunk(len, permitted) <= permitted,
        len <= permitted ==> chunk(len, permitted) == len,
{
}

/// The next datagram a connection wants to send, and where its bytes live.
///
/// One the engine just produced is in the buffer it was lent, so sending it costs no
/// allocation; one that is already owned is forwarded as itself.
#[derive(Debug)]
pub enum Produced {
    /// In the buffer lent to the engine; its length is here.
    InBuffer(usize),
    /// Already owned.
    Owned(Vec<u8>),
}

impl Produced {
    /// The datagram.
    pub open spec fn bytes(&self, buffer: Seq<u8>) -> Seq<u8> {
        match self {
            Produced::InBuffer(len) => buffer.take(*len as int),
            Produced::Owned(datagram) => datagram@,
        }
    }
}

/// How far a flush has got.
///
/// Connectionless answers go first: they are small, they reply to something that already
/// arrived, and holding them behind a bulk transfer would make a Retry arrive after the
/// client had given up. Then every connection in turn, until it has nothing to send or the
/// socket turns it away.
#[derive(Debug)]
pub struct Flush {
    /// Whether connectionless answers are still being sent.
    pub answering: bool,
    /// The connections to serve.
    pub indices: Vec<u64>,
    /// How many of them have been served.
    pub at: usize,
}

/// What a flush does next.
#[derive(Clone, Copy, Debug, PartialEq, Eq, Structural)]
pub enum FlushTask {
    /// Send a connectionless answer.
    Answer,
    /// Serve a connection.
    Serve(u64),
    /// Nothing.
    Done,
}

/// What a connection has for the socket.
#[derive(Debug)]
pub enum Next {
    /// Nothing more.
    Nothing,
    /// A datagram that is already owned. With whoever was waiting for room to queue it.
    Send(Address, Vec<u8>, Vec<u64>),
    /// The engine is to be asked for one, bound for this address.
    Write(Address),
}

impl Flush {
    /// What a flush does next.
    pub open spec fn todo(&self) -> FlushTask {
        if self.answering {
            FlushTask::Answer
        } else if self.at < self.indices@.len() {
            FlushTask::Serve(self.indices@[self.at as int])
        } else {
            FlushTask::Done
        }
    }

    /// Whether `after` is this flush with the connection it was serving done.
    pub open spec fn moved_on(&self, after: &Flush) -> bool {
        &&& after.answering == self.answering
        &&& after.indices == self.indices
        &&& after.at == self.at + 1
    }

    /// What a flush does next.
    pub fn task(&self) -> (task: FlushTask)
        ensures
            task == self.todo(),
    {
        if self.answering {
            FlushTask::Answer
        } else if self.at < self.indices.len() {
            FlushTask::Serve(self.indices[self.at])
        } else {
            FlushTask::Done
        }
    }

    /// Turns to the next connection.
    fn move_on(&mut self)
        requires
            old(self).todo() is Serve,
        ensures
            old(self).moved_on(final(self)),
    {
        let total: usize = self.indices.len();
        if self.at < total {
            self.at = self.at + 1;
        }
    }
}

impl Inner {
    /// Starts a flush that serves every connection once.
    pub fn begin_flush(&self) -> (flush: Flush)
        ensures
            flush.answering,
            flush.at == 0,
            flush.indices@.no_duplicates(),
            flush.indices@.to_set() == self@.connections.dom(),
    {
        Flush { answering: true, indices: self.indices(), at: 0 }
    }

    /// Queues a datagram that belongs to no connection.
    pub fn answer(&mut self, destination: Address, datagram: Vec<u8>)
        requires
            old(self).wf(),
        ensures
            final(self).wf(),
            final(self)@ == (InnerView {
                outbox: old(self)@.outbox.push((destination, datagram@)),
                ..old(self)@
            }),
    {
        let ghost before = self.outbox@;
        self.outbox.push_back((destination, datagram));
        assert(answers(self.outbox@) =~= answers(before).push((destination, datagram@)));
    }

    /// Takes the next connectionless answer to offer, or turns to the connections when there
    /// is none.
    pub fn next_answer(&mut self, flush: &mut Flush) -> (answer: Option<(Address, Vec<u8>)>)
        requires
            old(self).wf(),
            old(flush).todo() is Answer,
        ensures
            final(self).wf(),
            match answer {
                Some(answer) => {
                    &&& old(self)@.outbox.len() > 0
                    &&& (answer.0, answer.1@) == old(self)@.outbox[0]
                    &&& final(self)@ == old(self)@.answer_taken()
                    &&& *final(flush) == *old(flush)
                },
                None => {
                    &&& old(self)@.outbox.len() == 0
                    &&& final(self)@ == old(self)@
                    &&& *final(flush) == (Flush { answering: false, ..*old(flush) })
                },
            },
    {
        let ghost before = self.outbox@;
        let answer = self.outbox.pop_front();
        if answer.is_none() {
            flush.answering = false;
        }
        assert(before.len() > 0 ==> answers(self.outbox@) =~= answers(before).skip(1));
        assert(before.len() == 0 ==> answers(self.outbox@) =~= answers(before));
        answer
    }

    /// Acts on what the socket made of a connectionless answer. One that was turned away goes
    /// back to the front, and the flush turns to the connections.
    pub fn answer_offered(
        &mut self,
        flush: &mut Flush,
        destination: Address,
        datagram: Vec<u8>,
        offer: Offer,
    ) -> (result: Result<(), Error>)
        requires
            old(self).wf(),
            old(flush).todo() is Answer,
        ensures
            final(self).wf(),
            match offer {
                Offer::Failed(words) => {
                    &&& result matches Err(error) && error@ == ErrorView::socket(
                        SOCKET_FAILED@,
                        words@,
                    )
                    &&& final(self)@ == old(self)@
                    &&& *final(flush) == *old(flush)
                },
                _ => result is Ok,
            },
            offer.complete() ==> final(self)@ == old(self)@ && *final(flush) == *old(flush),
            offer.refused() ==> {
                &&& final(self)@ == old(self)@.answer_returned((destination, datagram@))
                &&& *final(flush) == (Flush { answering: false, ..*old(flush) })
            },
    {
        match offer {
            Offer::Answered(Sent::Complete) => Ok(()),
            Offer::Answered(Sent::WouldBlock) | Offer::Pending => {
                let ghost before = self.outbox@;
                self.outbox.push_front((destination, datagram));
                assert(answers(self.outbox@) =~= seq![(destination, datagram@)] + answers(before));
                flush.answering = false;
                Ok(())
            },
            Offer::Failed(words) => Err(Error::socket(SOCKET_FAILED, words)),
        }
    }

    /// The next datagram the connection being served wants to send.
    ///
    /// One the socket turned away comes first. Then what a detached connection queued, since
    /// it produces its own datagrams and the endpoint only forwards them. Otherwise the
    /// engine is asked, where the connection is this endpoint's to ask.
    pub fn next_datagram(&mut self, flush: &mut Flush, shared: &mut ConnectionShared) -> (next:
        Next)
        requires
            old(self).wf(),
            old(flush).todo() is Serve,
        ensures
            final(self).wf(),
            ({
                let index = old(flush).todo()->Serve_0;
                let entry = old(self)@.connections[index];
                if !old(self)@.connections.contains_key(index) {
                    &&& next is Nothing
                    &&& final(self)@ == old(self)@
                    &&& final(shared)@ == old(shared)@
                    &&& old(flush).moved_on(final(flush))
                } else if entry.pending is Some {
                    &&& next matches Next::Send(destination, datagram, woken)
                    &&& destination == entry.remote
                    &&& Some(datagram@) == entry.pending
                    &&& woken@.len() == 0
                    &&& final(self)@ == old(self)@.with_pending(index, None)
                    &&& final(shared)@ == old(shared)@
                    &&& *final(flush) == *old(flush)
                } else if old(shared)@.outbound.len() > 0 {
                    &&& next matches Next::Send(destination, datagram, woken)
                    &&& destination == entry.remote
                    &&& datagram@ == old(shared)@.outbound[0]
                    &&& woken@ == (if old(shared)@.outbound.len() == DATAGRAM_QUEUE {
                        old(shared)@.capacity_wakers
                    } else {
                        Seq::empty()
                    })
                    &&& final(self)@ == old(self)@
                    &&& final(shared)@ == old(shared)@.shipped()
                    &&& *final(flush) == *old(flush)
                } else {
                    &&& final(self)@ == old(self)@
                    &&& final(shared)@ == old(shared)@
                    &&& if entry.attached {
                        next == Next::Write(entry.remote) && *final(flush) == *old(flush)
                    } else {
                        next is Nothing && old(flush).moved_on(final(flush))
                    }
                }
            }),
    {
        let index: u64 = match flush.task() {
            FlushTask::Serve(index) => index,
            _ => 0,
        };
        match self.checkout(index) {
            None => {
                assert(self@ =~= old(self)@);
                flush.move_on();
                Next::Nothing
            },
            Some(held) => {
                let mut held = held;
                let remote = held.remote;
                let attached: bool = held.attached;
                let pending = held.pending.take();
                self.checkin(index, held);
                if let Some(datagram) = pending {
                    assert(self@ =~= old(self)@.with_pending(index, None));
                    return Next::Send(remote, datagram, Vec::new());
                }
                assert(self@ =~= old(self)@) by {
                    assert(self@.connections =~= old(self)@.connections);
                }
                if shared.has_outbound() {
                    let (queued, woken) = shared.take_outbound();
                    if let Some(datagram) = queued {
                        return Next::Send(remote, datagram, woken);
                    }
                }
                if attached {
                    Next::Write(remote)
                } else {
                    flush.move_on();
                    Next::Nothing
                }
            },
        }
    }

    /// Acts on the engine's answer to being asked for a datagram, and says how long the one
    /// it produced is and whom its failure wakes. A connection that failed becomes evictable.
    pub fn datagram_written(
        &mut self,
        flush: &mut Flush,
        outcome: Result<WriteOutcome, crate::error::Error>,
        shared: &mut ConnectionShared,
    ) -> (result: (Option<usize>, Vec<u64>))
        requires
            old(self).wf(),
            old(flush).todo() is Serve,
        ensures
            final(self).wf(),
            ({
                let index = old(flush).todo()->Serve_0;
                final(self)@ == (if outcome is Err && old(self)@.connections.contains_key(index) {
                    old(self)@.with_finished(index)
                } else {
                    old(self)@
                })
            }),
            match outcome {
                Ok(WriteOutcome::Datagram { len }) => {
                    &&& result.0 == Some(len)
                    &&& result.1@.len() == 0
                    &&& final(shared)@ == old(shared)@
                    &&& *final(flush) == *old(flush)
                },
                Ok(_) => {
                    &&& result.0 is None
                    &&& result.1@.len() == 0
                    &&& final(shared)@ == old(shared)@
                    &&& old(flush).moved_on(final(flush))
                },
                Err(error) => {
                    &&& result.0 is None
                    &&& result.1@ == old(shared)@.wakers
                    &&& final(shared)@ == old(shared)@.failed(
                        broken_by(old(shared)@, error@),
                    )
                    &&& old(flush).moved_on(final(flush))
                },
            },
    {
        match outcome {
            Ok(WriteOutcome::Datagram { len }) => (Some(len), Vec::new()),
            Ok(WriteOutcome::Blocked) | Ok(WriteOutcome::Idle) => {
                flush.move_on();
                (None, Vec::new())
            },
            Err(error) => {
                if let FlushTask::Serve(index) = flush.task() {
                    if self.tracks(index) {
                        self.finish(index);
                    }
                }
                flush.move_on();
                let failure = broken(shared, error);
                (None, shared.fail(failure))
            },
        }
    }

    /// Acts on what the socket made of a connection's datagram.
    ///
    /// One it turned away is kept, which stops a busy socket from silently losing packets,
    /// and the flush turns to the next connection. Only a datagram still in the lent buffer
    /// has to be copied for that.
    pub fn datagram_offered(
        &mut self,
        flush: &mut Flush,
        produced: Produced,
        buffer: &[u8],
        offer: Offer,
    ) -> (result: Result<(), Error>)
        requires
            old(self).wf(),
            old(flush).todo() is Serve,
            produced matches Produced::InBuffer(len) ==> len <= buffer@.len(),
        ensures
            final(self).wf(),
            match offer {
                Offer::Failed(words) => {
                    &&& result matches Err(error) && error@ == ErrorView::socket(
                        SOCKET_FAILED@,
                        words@,
                    )
                    &&& final(self)@ == old(self)@
                    &&& *final(flush) == *old(flush)
                },
                _ => result is Ok,
            },
            offer.complete() ==> final(self)@ == old(self)@ && *final(flush) == *old(flush),
            offer.refused() ==> {
                let index = old(flush).todo()->Serve_0;
                &&& old(flush).moved_on(final(flush))
                &&& final(self)@ == (if old(self)@.connections.contains_key(index) {
                    old(self)@.with_pending(index, Some(produced.bytes(buffer@)))
                } else {
                    old(self)@
                })
            },
    {
        let index: u64 = match flush.task() {
            FlushTask::Serve(index) => index,
            _ => 0,
        };
        match offer {
            Offer::Answered(Sent::Complete) => Ok(()),
            Offer::Answered(Sent::WouldBlock) | Offer::Pending => {
                if self.tracks(index) {
                    let kept = match produced {
                        Produced::InBuffer(len) => vstd::slice::slice_to_vec(
                            vstd::slice::slice_subrange(buffer, 0, len),
                        ),
                        Produced::Owned(datagram) => datagram,
                    };
                    assert(kept@ =~= produced.bytes(buffer@));
                    self.set_pending(index, Some(kept));
                }
                flush.move_on();
                Ok(())
            },
            Offer::Failed(words) => Err(Error::socket(SOCKET_FAILED, words)),
        }
    }

    /// Whether anything is waiting to be sent.
    pub fn has_pending(&self) -> (waiting: bool)
        ensures
            waiting == (self@.outbox.len() > 0 || exists|index: u64| #[trigger]
                self@.connections.contains_key(index) && self@.connections[index].pending is Some),
    {
        if self.outbox.len() > 0 {
            return true;
        }
        let indices = self.indices();
        let mut at: usize = 0;
        while at < indices.len()
            invariant
                at <= indices@.len(),
                indices@.to_set() == self@.connections.dom(),
                forall|i: int|
                    0 <= i < at ==> self@.connections[#[trigger] indices@[i]].pending is None,
            decreases indices.len() - at,
        {
            let index: u64 = indices[at];
            assert(indices@.to_set().contains(index));
            match self.entry(index) {
                Some(held) => if held.pending.is_some() {
                    assert(self@.connections.contains_key(index));
                    return true;
                },
                None => {},
            }
            at += 1;
        }
        assert forall|index: u64| #[trigger]
            self@.connections.contains_key(index) implies self@.connections[index].pending is None by {
            assert(indices@.to_set().contains(index));
            let i = choose|i: int| 0 <= i < indices@.len() && indices@[i] == index;
            assert(self@.connections[indices@[i]].pending is None);
        }
        false
    }

    /// Whether a connection's timer is due. A detached connection owns its own.
    pub fn expiry_is_due(&self, index: u64, expiry: Option<Timestamp>, now: Timestamp) -> (due:
        bool)
        ensures
            due == (self@.drives(index) && expiry is Some && expiry->Some_0@ <= now@),
    {
        if !self.drives(index) {
            return false;
        }
        match expiry {
            Some(at) => at.as_nanos() <= now.as_nanos(),
            None => false,
        }
    }

    /// Acts on what servicing a connection's timer came to, and on what its handlers
    /// recorded.
    ///
    /// A connection that lapsed is dropped without a word, so it is evictable at once, and so
    /// is one that reached a terminal state or failed.
    pub fn handle_expiry(
        &mut self,
        index: u64,
        outcome: Result<ExpiryOutcome, crate::error::Error>,
        close: CloseError,
        retained: u64,
        shared: &mut ConnectionShared,
    ) -> (result: Absorbed)
        requires
            old(self).wf(),
            old(self)@.drives(index),
        ensures
            final(self).wf(),
            ({
                let told = expired_with(old(shared)@, outcome, close);
                let kept = if outcome is Ok && outcome->Ok_0 is Handled {
                    old(self)@
                } else {
                    old(self)@.with_finished(index)
                };
                &&& final(shared)@ == absorbed(told, true, old(self)@.detachable, retained)
                &&& result.woken@ == (if !(outcome is Ok && outcome->Ok_0 is Handled)
                    || old(shared)@.observed.len() > 0 {
                    old(shared)@.wakers
                } else {
                    Seq::empty()
                })
                &&& final(self)@ == handed_over(kept, told, index)
                &&& result.handed == (if due_to_detach(told, true) && old(self)@.detachable {
                    Some(detach_key(told, old(self)@.connections[index]))
                } else {
                    None
                })
            }),
    {
        let mut woken: Vec<u64> = Vec::new();
        match outcome {
            Ok(ExpiryOutcome::Handled) => {},
            Ok(ExpiryOutcome::IdleClose) => {
                self.finish(index);
                woken = shared.fail_with_close(close);
            },
            Ok(ExpiryOutcome::Terminal) => {
                self.finish(index);
                woken = shared.fail(Error::new(ErrorKind::Transport, TERMINAL));
            },
            Err(error) => {
                self.finish(index);
                let timed_out: bool = match error.native_code() {
                    Some(code) => code.get() == native::ERR_HANDSHAKE_TIMEOUT,
                    None => false,
                };
                let failure = if timed_out {
                    Error::new(ErrorKind::HandshakeTimeout, HANDSHAKE_LATE)
                } else {
                    broken(shared, error)
                };
                woken = shared.fail(failure);
            },
        }
        let mut result = self.absorb(index, retained, shared);
        woken.append(&mut result.woken);
        Absorbed { woken, handed: result.handed }
    }
}

/// A flush that meets a refusal loses nothing: offering an answer and having it turned away
/// leaves the outbox as it was, and so does offering a datagram that was already waiting.
pub proof fn law_a_refused_datagram_keeps_its_place(inner: InnerView, index: u64)
    ensures
        inner.outbox.len() > 0 ==> inner.answer_taken().answer_returned(inner.outbox[0]) == inner,
        inner.connections.contains_key(index) && inner.connections[index].pending is Some
            ==> inner.with_pending(index, None).with_pending(
            index,
            inner.connections[index].pending,
        ) == inner,
{
    if inner.outbox.len() > 0 {
        assert(inner.answer_taken().answer_returned(inner.outbox[0]).outbox =~= inner.outbox);
    }
    if inner.connections.contains_key(index) && inner.connections[index].pending is Some {
        assert(inner.with_pending(index, None).with_pending(
            index,
            inner.connections[index].pending,
        ).connections =~= inner.connections);
    }
}

/// What a connection says about whether it is done.
#[derive(Clone, Copy, Debug)]
pub struct Report {
    /// Which connection.
    pub index: u64,
    /// Whether it has finished.
    pub closed: bool,
    /// Whether the engine says it is draining.
    pub draining: bool,
    /// Whether the owner of a detached connection has finished with it.
    pub terminal: bool,
    /// Whether anything it queued is still to be sent.
    pub outbound: bool,
}

/// Whether a connection is over *and* has nothing left to send.
///
/// Evicting one with its close still queued would drop the packet that tells the peer why.
/// A detached connection cannot be asked whether it is draining, because the endpoint does
/// not hold it; its owner says when it is finished instead.
pub open spec fn is_done(entry: EntryView, report: Report) -> bool {
    if entry.attached {
        report.closed && entry.pending is None && (report.draining || entry.finished)
    } else {
        report.terminal && !report.outbound
    }
}

/// The connections some reports say are done.
pub open spec fn done_among(connections: Map<u64, EntryView>, reports: Seq<Report>) -> Set<u64> {
    Set::new(
        |index: u64|
            connections.contains_key(index) && exists|i: int|
                0 <= i < reports.len() && (#[trigger] reports[i]).index == index && is_done(
                    connections[index],
                    reports[i],
                ),
    )
}

/// A routing table without the routes to some connections.
pub open spec fn without_targets(routes: Map<Seq<u8>, u64>, gone: Set<u64>) -> Map<Seq<u8>, u64> {
    Map::new(
        |id: Seq<u8>| routes.contains_key(id) && !gone.contains(routes[id]),
        |id: Seq<u8>| routes[id],
    )
}

/// Whether a deadline concerns this driver. A finished connection's is in the past and will
/// never move, so minding it would starve every other connection's; a detached connection's
/// belongs to its owner.
pub open spec fn minds(inner: InnerView, deadline: (u64, Timestamp)) -> bool {
    inner.drives(deadline.0) && !inner.connections[deadline.0].finished
}

/// Whether any of these deadlines concerns a driver.
pub open spec fn minded(inner: InnerView, deadlines: Seq<(u64, Timestamp)>) -> bool {
    exists|i: int| 0 <= i < deadlines.len() && minds(inner, #[trigger] deadlines[i])
}

/// What to do with the timer.
#[derive(Clone, Copy, Debug, PartialEq, Eq, Structural)]
pub enum Rearm {
    /// Nothing is due, so there is nothing to wait for.
    Disarm,
    /// Wait for a new deadline.
    Arm(Timestamp),
    /// Go on waiting for the same one.
    Keep,
}

impl Inner {
    /// Removes connections that have finished, and every route to them.
    pub fn evict(&mut self, reports: &[Report])
        requires
            old(self).wf(),
        ensures
            final(self).wf(),
            final(self)@ == (InnerView {
                connections: old(self)@.connections.remove_keys(
                    done_among(old(self)@.connections, reports@),
                ),
                routes: without_targets(
                    old(self)@.routes,
                    done_among(old(self)@.connections, reports@),
                ),
                ..old(self)@
            }),
    {
        let ghost before = self@;
        let mut at: usize = 0;
        proof {
            let none = done_among(before.connections, reports@.take(0));
            assert(before.connections.remove_keys(none) =~= before.connections);
            assert(without_targets(before.routes, none) =~= before.routes);
        }
        while at < reports.len()
            invariant
                at <= reports@.len(),
                self.wf(),
                before == old(self)@,
                self@ == (InnerView {
                    connections: before.connections.remove_keys(
                        done_among(before.connections, reports@.take(at as int)),
                    ),
                    routes: without_targets(
                        before.routes,
                        done_among(before.connections, reports@.take(at as int)),
                    ),
                    ..before
                }),
            decreases reports.len() - at,
        {
            let report = reports[at];
            let done: bool = match self.entry(report.index) {
                Some(held) => if held.attached {
                    report.closed && held.pending.is_none() && (report.draining || held.finished)
                } else {
                    report.terminal && !report.outbound
                },
                None => false,
            };
            let ghost gone = done_among(before.connections, reports@.take(at as int));
            let ghost next = done_among(before.connections, reports@.take(at + 1));
            proof {
                let shorter = reports@.take(at as int);
                let longer = reports@.take(at + 1);
                assert(longer[at as int] == report);
                assert forall|index: u64| next.contains(index) == (gone.contains(index) || (index
                    == report.index && before.connections.contains_key(index) && is_done(
                    before.connections[index],
                    report,
                ))) by {
                    if gone.contains(index) {
                        let i = choose|i: int|
                            0 <= i < shorter.len() && (#[trigger] shorter[i]).index == index
                                && is_done(before.connections[index], shorter[i]);
                        assert(longer[i] == shorter[i]);
                    }
                    if next.contains(index) {
                        let i = choose|i: int|
                            0 <= i < longer.len() && (#[trigger] longer[i]).index == index
                                && is_done(before.connections[index], longer[i]);
                        if i < at {
                            assert(shorter[i] == longer[i]);
                        }
                    }
                }
            }
            if done {
                let ghost current = self@;
                let _ = self.checkout(report.index);
                self.routes.release(report.index);
                proof {
                    assert(next =~= gone.insert(report.index));
                    assert(self@.connections =~= before.connections.remove_keys(next));
                    assert(self@.routes =~= without_targets(before.routes, next));
                }
            } else {
                proof {
                    assert(next =~= gone) by {
                        assert forall|index: u64| next.contains(index) implies gone.contains(
                            index,
                        ) by {
                            if !gone.contains(index) {
                                assert(self@.connections.contains_key(index));
                            }
                        }
                    }
                }
            }
            at += 1;
        }
        assert(reports@.take(at as int) =~= reports@);
    }

    /// The earliest deadline that concerns this driver.
    pub fn earliest_expiry(&self, deadlines: &[(u64, Timestamp)]) -> (earliest: Option<Timestamp>)
        ensures
            match earliest {
                Some(at) => {
                    &&& exists|i: int|
                        0 <= i < deadlines@.len() && minds(self@, #[trigger] deadlines@[i])
                            && deadlines@[i].1 == at
                    &&& forall|i: int|
                        0 <= i < deadlines@.len() && minds(self@, #[trigger] deadlines@[i])
                            ==> at@ <= deadlines@[i].1@
                },
                None => forall|i: int|
                    0 <= i < deadlines@.len() ==> !minds(self@, #[trigger] deadlines@[i]),
            },
            earliest is Some <==> minded(self@, deadlines@),
    {
        let mut earliest: Option<Timestamp> = None;
        let mut at: usize = 0;
        while at < deadlines.len()
            invariant
                at <= deadlines@.len(),
                match earliest {
                    Some(soonest) => {
                        &&& exists|i: int|
                            0 <= i < at && minds(self@, #[trigger] deadlines@[i])
                                && deadlines@[i].1 == soonest
                        &&& forall|i: int|
                            0 <= i < at && minds(self@, #[trigger] deadlines@[i]) ==> soonest@
                                <= deadlines@[i].1@
                    },
                    None => forall|i: int|
                        0 <= i < at ==> !minds(self@, #[trigger] deadlines@[i]),
                },
            decreases deadlines.len() - at,
        {
            let (index, deadline) = deadlines[at];
            let minded: bool = match self.entry(index) {
                Some(held) => held.attached && !held.finished,
                None => false,
            };
            assert(minded == minds(self@, deadlines@[at as int]));
            if minded {
                let sooner: bool = match earliest {
                    Some(soonest) => deadline.as_nanos() < soonest.as_nanos(),
                    None => true,
                };
                if sooner {
                    earliest = Some(deadline);
                }
            }
            at += 1;
        }
        earliest
    }

    /// Arms the timer for the earliest deadline, if there is one.
    ///
    /// Done after *every* pass, including one that only wrote: the engine reports its pacing
    /// deadline through the same expiry as everything else, so a driver that rearms only
    /// after reading sends one datagram and then sleeps until the peer speaks.
    pub fn rearm(&mut self, earliest: Option<Timestamp>) -> (rearm: Rearm)
        requires
            old(self).wf(),
        ensures
            final(self).wf(),
            final(self)@ == (InnerView { sleeping_until: earliest, ..old(self)@ }),
            rearm == (match earliest {
                None => Rearm::Disarm,
                Some(deadline) => if old(self)@.sleeping_until == Some(deadline) {
                    Rearm::Keep
                } else {
                    Rearm::Arm(deadline)
                },
            }),
    {
        match earliest {
            None => {
                self.sleeping_until = None;
                Rearm::Disarm
            },
            Some(deadline) => {
                let same: bool = match self.sleeping_until {
                    Some(armed) => armed == deadline,
                    None => false,
                };
                if same {
                    return Rearm::Keep;
                }
                self.sleeping_until = Some(deadline);
                Rearm::Arm(deadline)
            },
        }
    }

    /// Forgets the deadline once its wait is over, and says whether it is.
    pub fn slept(&mut self, ready: bool) -> (fired: bool)
        requires
            old(self).wf(),
        ensures
            final(self).wf(),
            fired == ready,
            final(self)@ == (if ready {
                InnerView { sleeping_until: None, ..old(self)@ }
            } else {
                old(self)@
            }),
    {
        if ready {
            self.sleeping_until = None;
        }
        ready
    }
}

/// A handshake that is refused is reported as refused, and a failure met after the handshake
/// never is: a caller retries one and not the other.
pub proof fn law_a_refused_handshake_is_reported_as_one(
    shared: SharedView,
    error: crate::error::Error,
    close: CloseError,
)
    requires
        shared.failure is None,
    ensures
        read_by(shared, Err(error), close).explanation().kind == ErrorKind::HandshakeRejected
            <==> error@.kind == crate::error::ErrorKind::Crypto && !shared.established
            && !completes(shared.observed),
{
}

/// A connection this endpoint has ended does not linger: reported finished, it is done as soon
/// as it is closed and nothing of it waits to be sent, whether or not the peer closed it too.
pub proof fn law_an_ended_connection_is_evictable(inner: InnerView, index: u64, report: Report)
    requires
        inner.drives(index),
        report.closed,
        inner.connections[index].pending is None,
    ensures
        is_done(inner.with_finished(index).connections[index], report),
        report.index == index ==> done_among(
            inner.with_finished(index).connections,
            seq![report],
        ).contains(index),
{
    assert(seq![report][0] == report);
}

/// Once connections have been evicted nothing routes to them, and nothing else has moved.
pub proof fn law_eviction_takes_the_routes_with_it(
    inner: InnerView,
    after: InnerView,
    gone: Set<u64>,
)
    requires
        inner.wf(),
        after == (InnerView {
            connections: inner.connections.remove_keys(gone),
            routes: without_targets(inner.routes, gone),
            ..inner
        }),
    ensures
        after.wf(),
        forall|id: Seq<u8>| #[trigger]
            after.routes.contains_key(id) <==> inner.routes.contains_key(id) && !gone.contains(
                inner.routes[id],
            ),
        forall|index: u64| gone.contains(index) ==> !after.connections.contains_key(index),
        forall|index: u64|
            !gone.contains(index) && #[trigger] inner.connections.contains_key(index)
                ==> after.connections.contains_key(index) && after.connections[index]
                == inner.connections[index],
{
}

} // verus!
