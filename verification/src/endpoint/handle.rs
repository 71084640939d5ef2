//! The endpoint: one socket, many connections, and what drives them.
//!
//! An endpoint is built once and yields a handle, which does nothing on its own, and a
//! driver, which owns the socket and every connection on it. Connecting and accepting are
//! requests the handle makes of that one driver.

use vstd::prelude::*;

use crate::accept::{inspect, inspectable, DecodedHeader, InitialPacket};
use crate::cid::{ConnectionId, DEFAULT_LEN};
use crate::endpoint::config::Config;
use crate::endpoint::driver::{addressee, Inner, InnerView, MAX_DATAGRAM};
use crate::endpoint::error::{Error, ErrorKind, ErrorView, SOCKET_FAILED};
use crate::endpoint::shared::{
    first_ready, left_waiting, registered, with_waker, ConnectionShared, Dial, EndpointShared,
    EndpointView, Progress, SharedView,
};
use crate::endpoint::socket::Received;
use crate::endpoint::validate::{Decision, Validation};
use crate::path::Address;
use crate::text;
use crate::time::{Duration, Timestamp};

verus! {

/// Why an endpoint without randomness is refused.
pub const NO_ENTROPY: &'static str =
    "an endpoint needs a source of randomness; see EndpointBuilder::entropy";

/// How an endpoint whose driver is not running is described.
pub const DRIVER_NOT_RUNNING: &'static str = "the endpoint driver is not running";

/// How a dropped driver is described to the connections on it.
pub const DRIVER_DROPPED: &'static str = "the endpoint driver was dropped";

/// How a dropped driver is described to connections that were never opened.
pub const DIAL_DROPPED: &'static str =
    "the endpoint driver was dropped before this connection was opened";

/// The shortest datagram worth answering. Anything shorter is not a QUIC packet at all, and
/// any answer would be larger than what provoked it.
pub const SHORTEST_ANSWERABLE: usize = 21;

/// How many passes the driver makes before it yields, so that a socket that is never empty
/// cannot keep it from ever reaching its timers.
pub const PASSES_PER_POLL: usize = 8;

/// Builds an endpoint.
///
/// Three things have no default and must be supplied: the socket, the clock, and a way to
/// make randomness. The first two are the runtime; choosing the third here would be choosing
/// it on the caller's behalf.
pub struct EndpointBuilder<Sock, Clk, B, F, S> {
    /// The socket.
    pub socket: Sock,
    /// The clock.
    pub clock: Clk,
    /// The TLS backend.
    pub backend: B,
    /// The configuration.
    pub config: Config,
    /// What makes a source of randomness for each connection.
    pub entropy: Option<F>,
    /// Whether connections this endpoint did not initiate are accepted.
    pub accepts: bool,
    /// The secret address validation rests on, if there is any.
    pub validation: Option<S>,
    /// How long a Retry token stays valid.
    pub token_lifetime: Option<Duration>,
    /// How many stateless resets may be sent in a burst.
    pub reset_burst: Option<u32>,
}

/// The driver: everything one poll works on.
pub struct EndpointDriver<Sock, Clk, B, F, S> {
    /// The socket.
    pub socket: Sock,
    /// The clock.
    pub clock: Clk,
    /// The TLS backend.
    pub backend: B,
    /// The configuration.
    pub config: Config,
    /// What makes a source of randomness for each connection.
    pub entropy: F,
    /// The connections and their routes.
    pub inner: Inner,
    /// How addresses are validated, if at all.
    pub validation: Option<Validation<S>>,
    /// A receive buffer, reused so that a pass allocates nothing.
    pub buffer: Vec<u8>,
    /// A send buffer, reused likewise.
    pub send_buffer: Vec<u8>,
    /// Whether the driver has stopped for good.
    pub stopped: bool,
}

/// The policy a builder describes: the defaults, with what was overridden.
pub open spec fn policy_of<S>(
    policy: Validation<S>,
    secret: S,
    lifetime: Option<Duration>,
    burst: Option<u32>,
) -> bool {
    &&& policy.secret == secret
    &&& policy.lifetime@ == (match lifetime {
        Some(lifetime) => lifetime@,
        None => crate::endpoint::validate::DEFAULT_TOKEN_LIFETIME as nat,
    })
    &&& policy.reset_burst == (match burst {
        Some(burst) => burst,
        None => crate::endpoint::validate::DEFAULT_RESET_BURST,
    })
    &&& policy.reset_budget == policy.reset_burst
    &&& policy.refilled_at is None
}

impl<Sock, Clk, B, F, S> EndpointBuilder<Sock, Clk, B, F, S> {
    /// Starts from a socket, a clock and a TLS backend.
    pub fn new(socket: Sock, clock: Clk, backend: B) -> (builder: Self)
        ensures
            builder.socket == socket,
            builder.clock == clock,
            builder.backend == backend,
            builder.config.is_default(),
            builder.entropy is None,
            !builder.accepts,
            builder.validation is None,
            builder.token_lifetime is None,
            builder.reset_burst is None,
    {
        Self {
            socket,
            clock,
            backend,
            config: Config::new(),
            entropy: None,
            accepts: false,
            validation: None,
            token_lifetime: None,
            reset_burst: None,
        }
    }

    /// Applies a configuration.
    #[must_use]
    pub fn config(self, config: Config) -> (builder: Self)
        ensures
            builder == (EndpointBuilder { config, ..self }),
    {
        let mut builder = self;
        builder.config = config;
        builder
    }

    /// Supplies the source of randomness each connection will use.
    ///
    /// It must be cryptographically secure: a predictable one lets an observer link or forge
    /// connections.
    #[must_use]
    pub fn entropy(self, make: F) -> (builder: Self)
        ensures
            builder == (EndpointBuilder { entropy: Some(make), ..self }),
    {
        let mut builder = self;
        builder.entropy = Some(make);
        builder
    }

    /// Accepts connections this endpoint did not initiate, or not.
    #[must_use]
    pub fn accepts(self, accepts: bool) -> (builder: Self)
        ensures
            builder == (EndpointBuilder { accepts, ..self }),
    {
        let mut builder = self;
        builder.accepts = accepts;
        builder
    }

    /// Validates client addresses before committing any connection state.
    #[must_use]
    pub fn validate_addresses(self, secret: S) -> (builder: Self)
        ensures
            builder == (EndpointBuilder { validation: Some(secret), ..self }),
    {
        let mut builder = self;
        builder.validation = Some(secret);
        builder
    }

    /// How long a Retry token stays valid. Ignored unless addresses are validated.
    #[must_use]
    pub fn token_lifetime(self, lifetime: Duration) -> (builder: Self)
        ensures
            builder == (EndpointBuilder { token_lifetime: Some(lifetime), ..self }),
    {
        let mut builder = self;
        builder.token_lifetime = Some(lifetime);
        builder
    }

    /// How many stateless resets this endpoint may send in a burst.
    #[must_use]
    pub fn stateless_reset_burst(self, burst: u32) -> (builder: Self)
        ensures
            builder == (EndpointBuilder { reset_burst: Some(burst), ..self }),
    {
        let mut builder = self;
        builder.reset_burst = Some(burst);
        builder
    }

    /// What assembling an endpoint yields: the driver as configured and the state it shares
    /// with its handles, or a refusal where no randomness was supplied.
    pub open spec fn assembles(
        self,
        detachable: bool,
        result: Result<(EndpointShared, EndpointDriver<Sock, Clk, B, F, S>), Error>,
    ) -> bool {
        match result {
            Ok((shared, driver)) => {
                &&& self.entropy == Some(driver.entropy)
                &&& shared@ == EndpointView::fresh()
                &&& driver.socket == self.socket
                &&& driver.clock == self.clock
                &&& driver.backend == self.backend
                &&& driver.config == self.config
                &&& driver.inner.wf()
                &&& driver.inner@ == (InnerView {
                    connections: Map::empty(),
                    routes: Map::empty(),
                    next_index: 0,
                    accepts: self.accepts,
                    detachable,
                    outbox: Seq::empty(),
                    sleeping_until: None,
                })
                &&& match self.validation {
                    None => driver.validation is None,
                    Some(secret) => driver.validation matches Some(policy) && policy_of(
                        policy,
                        secret,
                        self.token_lifetime,
                        self.reset_burst,
                    ),
                }
                &&& driver.buffer@.len() == MAX_DATAGRAM
                &&& driver.send_buffer@.len() == MAX_DATAGRAM
                &&& !driver.stopped
            },
            Err(error) => {
                &&& self.entropy is None
                &&& error@ == ErrorView::plain(ErrorKind::InvalidInput, NO_ENTROPY@)
            },
        }
    }

    /// Builds an endpoint whose connections are all driven by its driver.
    pub fn build(self) -> (result: Result<
        (EndpointShared, EndpointDriver<Sock, Clk, B, F, S>),
        Error,
    >)
        ensures
            self.assembles(false, result),
    {
        self.assemble(false)
    }

    /// Builds an endpoint whose connections may be handed to callers who drive them.
    pub fn build_detachable(self) -> (result: Result<
        (EndpointShared, EndpointDriver<Sock, Clk, B, F, S>),
        Error,
    >)
        ensures
            self.assembles(true, result),
    {
        self.assemble(true)
    }

    /// Puts an endpoint together.
    pub fn assemble(self, detachable: bool) -> (result: Result<
        (EndpointShared, EndpointDriver<Sock, Clk, B, F, S>),
        Error,
    >)
        ensures
            self.assembles(detachable, result),
    {
        let entropy = match self.entropy {
            Some(entropy) => entropy,
            None => return Err(Error::new(ErrorKind::InvalidInput, NO_ENTROPY)),
        };
        let validation = match self.validation {
            Some(secret) => {
                let mut policy = Validation::new(secret);
                if let Some(lifetime) = self.token_lifetime {
                    policy.lifetime(lifetime);
                }
                if let Some(burst) = self.reset_burst {
                    policy.reset_burst(burst);
                }
                Some(policy)
            },
            None => None,
        };
        let driver = EndpointDriver {
            socket: self.socket,
            clock: self.clock,
            backend: self.backend,
            config: self.config,
            entropy,
            inner: Inner::new(self.accepts, detachable),
            validation,
            buffer: vec![0u8; MAX_DATAGRAM],
            send_buffer: vec![0u8; MAX_DATAGRAM],
            stopped: false,
        };
        Ok((EndpointShared::new(), driver))
    }
}

/// Which of some delivered connections a waiter takes: the first under its key, where the
/// key zero stands for any. Past the end where there is none.
pub open spec fn first_under(keys: Seq<u64>, key: u64) -> int
    decreases keys.len(),
{
    if keys.len() == 0 || key == 0 || keys[0] == key {
        0
    } else {
        1 + first_under(keys.skip(1), key)
    }
}

proof fn lemma_first_under(keys: Seq<u64>, key: u64, at: int)
    requires
        0 <= at <= keys.len(),
        at > 0 ==> key != 0,
        forall|i: int| 0 <= i < at ==> #[trigger] keys[i] != key,
        at < keys.len() ==> key == 0 || keys[at] == key,
    ensures
        first_under(keys, key) == at,
    decreases at,
{
    if at > 0 {
        assert(keys[0] != key);
        let rest = keys.skip(1);
        assert forall|i: int| 0 <= i < at - 1 implies #[trigger] rest[i] != key by {
            assert(rest[i] == keys[i + 1]);
        }
        if at < keys.len() {
            assert(rest[at - 1] == keys[at]);
        }
        lemma_first_under(rest, key, at - 1);
    }
}

/// The keys of a queue, in order.
pub open spec fn keys_of<T>(ready: Seq<(u64, T)>) -> Seq<u64> {
    Seq::new(ready.len(), |i: int| ready[i].0)
}

/// Connections handed over to callers who drive them themselves.
///
/// Keyed by the shared state each waiter holds, so that a caller gets back the connection it
/// asked for rather than whichever finished first. Zero means "any", which is what an
/// acceptor wants.
#[derive(Debug)]
pub struct DetachQueue<T> {
    /// The connections, oldest first.
    pub ready: Vec<(u64, T)>,
    /// Who is waiting for one.
    pub wakers: Vec<u64>,
}

impl<T> Default for DetachQueue<T> {
    fn default() -> (queue: Self)
        ensures
            queue.ready@.len() == 0,
            queue.wakers@.len() == 0,
    {
        Self { ready: Vec::new(), wakers: Vec::new() }
    }
}

impl<T> DetachQueue<T> {
    /// Queues a connection, and takes everyone waiting for one, to be woken.
    pub fn deliver(&mut self, key: u64, connection: T) -> (woken: Vec<u64>)
        ensures
            final(self).ready@ == old(self).ready@.push((key, connection)),
            final(self).wakers@.len() == 0,
            woken@ == old(self).wakers@,
    {
        self.ready.push((key, connection));
        let mut woken: Vec<u64> = Vec::new();
        std::mem::swap(&mut woken, &mut self.wakers);
        woken
    }

    /// Takes the oldest connection under a key.
    pub fn take(&mut self, key: u64) -> (taken: Option<T>)
        ensures
            final(self).wakers == old(self).wakers,
            ({
                let at = first_under(keys_of(old(self).ready@), key);
                &&& 0 <= at <= old(self).ready@.len()
                &&& match taken {
                    Some(connection) => {
                        &&& at < old(self).ready@.len()
                        &&& connection == old(self).ready@[at].1
                        &&& final(self).ready@ == old(self).ready@.remove(at)
                    },
                    None => at == old(self).ready@.len() && final(self).ready@
                        == old(self).ready@,
                }
            }),
    {
        let ghost keys = keys_of(self.ready@);
        let mut at: usize = 0;
        while at < self.ready.len()
            invariant
                at <= self.ready@.len(),
                *self == *old(self),
                keys == keys_of(self.ready@),
                at > 0 ==> key != 0,
                forall|i: int| 0 <= i < at ==> #[trigger] keys[i] != key,
            decreases self.ready@.len() - at,
        {
            if key == 0 || self.ready[at].0 == key {
                proof {
                    lemma_first_under(keys, key, at as int);
                }
                let (_, connection) = self.ready.remove(at);
                return Some(connection);
            }
            at += 1;
        }
        proof {
            lemma_first_under(keys, key, at as int);
        }
        None
    }

    /// Registers a waker to be woken when a connection is handed over.
    pub fn register(&mut self, waker: u64)
        ensures
            final(self).ready == old(self).ready,
            final(self).wakers@ == with_waker(old(self).wakers@, waker),
    {
        if !registered(&self.wakers, waker) {
            self.wakers.push(waker);
        }
    }
}

/// The refusal a handle meets when nothing runs its endpoint.
pub fn driver_gone() -> (error: Error)
    ensures
        error@ == ErrorView::plain(ErrorKind::DriverGone, DRIVER_NOT_RUNNING@),
{
    Error::new(ErrorKind::DriverGone, DRIVER_NOT_RUNNING)
}

/// Asks for a connection to be opened, and wakes the driver; or fails it at once where the
/// driver is not running.
pub fn connect(
    remote: Address,
    server_name: Option<&str>,
    key: u64,
    shared: &mut ConnectionShared,
    endpoint: &mut EndpointShared,
) -> (woken: (Vec<u64>, Option<u64>))
    ensures
        if old(endpoint)@.gone {
            &&& final(shared)@ == old(shared)@.failed(
                ErrorView::plain(ErrorKind::DriverGone, DRIVER_NOT_RUNNING@),
            )
            &&& final(endpoint)@ == old(endpoint)@
            &&& woken.0@ == old(shared)@.wakers
            &&& woken.1 is None
        } else {
            &&& final(shared)@ == old(shared)@
            &&& final(endpoint)@.dials.len() == old(endpoint)@.dials.len() + 1
            &&& final(endpoint)@ == (EndpointView {
                dials: old(endpoint)@.dials.push(final(endpoint)@.dials.last()),
                ..old(endpoint)@.driver_woken()
            })
            &&& dial_names(final(endpoint)@.dials.last(), remote, server_name, key)
            &&& woken.0@.len() == 0
            &&& woken.1 == old(endpoint)@.driver_waker
        },
{
    if endpoint.is_gone() {
        return (shared.fail(driver_gone()), None);
    }
    let server_name = match server_name {
        Some(name) => Some(text::owned(name)),
        None => None,
    };
    let driver = endpoint.dial(Dial { remote, server_name, shared: key });
    (Vec::new(), driver)
}

/// Whether a request to open a connection says where to, under which name, and for whom.
pub open spec fn dial_names(
    dial: Dial,
    remote: Address,
    server_name: Option<&str>,
    key: u64,
) -> bool {
    &&& dial.remote == remote
    &&& dial.shared == key
    &&& dial.server_name is Some <==> server_name is Some
    &&& server_name matches Some(name) ==> dial.server_name->Some_0@ == name@
}

/// Asks for a connection to be opened and handed over once established.
pub fn connect_detached(
    remote: Address,
    server_name: Option<&str>,
    key: u64,
    shared: &mut ConnectionShared,
    endpoint: &mut EndpointShared,
) -> (woken: (Vec<u64>, Option<u64>))
    ensures
        ({
            let asked = SharedView { detach: true, ..old(shared)@ };
            if old(endpoint)@.gone {
                &&& final(shared)@ == asked.failed(
                    ErrorView::plain(ErrorKind::DriverGone, DRIVER_NOT_RUNNING@),
                )
                &&& final(endpoint)@ == old(endpoint)@
                &&& woken.0@ == old(shared)@.wakers
                &&& woken.1 is None
            } else {
                &&& final(shared)@ == asked
                &&& final(endpoint)@.dials.len() == old(endpoint)@.dials.len() + 1
                &&& final(endpoint)@ == (EndpointView {
                    dials: old(endpoint)@.dials.push(final(endpoint)@.dials.last()),
                    ..old(endpoint)@.driver_woken()
                })
                &&& dial_names(final(endpoint)@.dials.last(), remote, server_name, key)
                &&& woken.0@.len() == 0
                &&& woken.1 == old(endpoint)@.driver_waker
            }
        }),
{
    shared.request_detach();
    connect(remote, server_name, key, shared, endpoint)
}

/// Asks that accepted connections be handed over, and wakes the driver.
pub fn accept_detached(endpoint: &mut EndpointShared) -> (driver: Option<u64>)
    ensures
        final(endpoint)@ == (EndpointView {
            detached_accepts: true,
            ..old(endpoint)@.driver_woken()
        }),
        driver == old(endpoint)@.driver_waker,
{
    endpoint.request_detached_accepts();
    endpoint.wake_driver()
}

/// Whether a connection being opened is ready, has failed, or is still to be waited for, in
/// which case the waker is registered in the same step.
pub fn connecting(waker: u64, shared: &mut ConnectionShared) -> (result: Option<Result<(), Error>>)
    ensures
        if old(shared)@.established {
            result == Some(Ok::<(), Error>(())) && final(shared)@ == old(shared)@
        } else if old(shared)@.closed {
            &&& result matches Some(Err(error)) && error@ == old(shared)@.explanation()
            &&& final(shared)@ == old(shared)@
        } else {
            &&& result is None
            &&& final(shared)@ == (SharedView {
                wakers: with_waker(old(shared)@.wakers, waker),
                ..old(shared)@
            })
        },
{
    if shared.is_established() {
        return Some(Ok(()));
    }
    if shared.is_closed() {
        return Some(Err(shared.failure()));
    }
    let _ = shared.register(waker);
    None
}

/// Takes an accepted connection, or says the driver is gone, or registers to be woken.
///
/// `progress` says where each waiting connection has got to, in the order they wait.
pub fn accepting(waker: u64, progress: &[Progress], endpoint: &mut EndpointShared) -> (result:
    Option<Result<u64, Error>>)
    requires
        progress@.len() == old(endpoint)@.accepted.len(),
    ensures
        ({
            let before = old(endpoint)@.accepted;
            let at = first_ready(progress@);
            let rest = EndpointView {
                accepted: left_waiting(before, progress@),
                ..old(endpoint)@
            };
            if at < before.len() {
                result == Some(Ok::<u64, Error>(before[at])) && final(endpoint)@ == rest
            } else if old(endpoint)@.gone {
                &&& result matches Some(Err(error)) && error@ == ErrorView::plain(
                    ErrorKind::DriverGone,
                    DRIVER_NOT_RUNNING@,
                )
                &&& final(endpoint)@ == rest
            } else {
                &&& result is None
                &&& final(endpoint)@ == (EndpointView {
                    wakers: with_waker(rest.wakers, waker),
                    ..rest
                })
            }
        }),
{
    if let Some(connection) = endpoint.take_ready(progress) {
        return Some(Ok(connection));
    }
    if endpoint.is_gone() {
        return Some(Err(driver_gone()));
    }
    endpoint.register(waker);
    None
}

/// What a wait for a handed-over connection comes to, as far as the queue and the endpoint
/// are concerned. `ended` is why the connection waited for is over, where it is.
pub open spec fn detaches<T>(
    result: Option<Result<T, Error>>,
    key: u64,
    waker: u64,
    ended: Option<ErrorView>,
    queue: DetachQueue<T>,
    queue_after: DetachQueue<T>,
    endpoint: EndpointView,
    endpoint_after: EndpointView,
) -> bool {
    let at = first_under(keys_of(queue.ready@), key);
    if at < queue.ready@.len() {
        &&& result == Some(Ok::<T, Error>(queue.ready@[at].1))
        &&& queue_after.ready@ == queue.ready@.remove(at)
        &&& queue_after.wakers@ == queue.wakers@
        &&& endpoint_after == endpoint
    } else if ended is Some || endpoint.gone {
        &&& result matches Some(Err(error)) && error@ == (match ended {
            Some(explanation) => explanation,
            None => ErrorView::plain(ErrorKind::DriverGone, DRIVER_NOT_RUNNING@),
        })
        &&& queue_after.ready@ == queue.ready@
        &&& queue_after.wakers@ == queue.wakers@
        &&& endpoint_after == endpoint
    } else {
        &&& result is None
        &&& queue_after.ready@ == queue.ready@
        &&& queue_after.wakers@ == with_waker(queue.wakers@, waker)
        &&& endpoint_after == (EndpointView {
            wakers: with_waker(endpoint.wakers, waker),
            ..endpoint
        })
    }
}

/// Takes the connection a caller dialled once it has been handed over, or says why it will
/// not be, or registers to be woken.
pub fn detaching<T>(
    waker: u64,
    key: u64,
    shared: &mut ConnectionShared,
    queue: &mut DetachQueue<T>,
    endpoint: &mut EndpointShared,
) -> (result: Option<Result<T, Error>>)
    ensures
        detaches(
            result,
            key,
            waker,
            if old(shared)@.closed {
                Some(old(shared)@.explanation())
            } else {
                None
            },
            *old(queue),
            *final(queue),
            old(endpoint)@,
            final(endpoint)@,
        ),
        final(shared)@ == (if result is None {
            SharedView { wakers: with_waker(old(shared)@.wakers, waker), ..old(shared)@ }
        } else {
            old(shared)@
        }),
{
    if let Some(connection) = queue.take(key) {
        return Some(Ok(connection));
    }
    if shared.is_closed() {
        return Some(Err(shared.failure()));
    }
    if endpoint.is_gone() {
        return Some(Err(driver_gone()));
    }
    queue.register(waker);
    let _ = shared.register(waker);
    endpoint.register(waker);
    None
}

/// Takes any connection that has been handed over, or says there will be none, or registers
/// to be woken.
pub fn detaching_any<T>(waker: u64, queue: &mut DetachQueue<T>, endpoint: &mut EndpointShared) -> (
result: Option<Result<T, Error>>)
    ensures
        detaches(
            result,
            0,
            waker,
            None,
            *old(queue),
            *final(queue),
            old(endpoint)@,
            final(endpoint)@,
        ),
{
    if let Some(connection) = queue.take(0) {
        return Some(Ok(connection));
    }
    if endpoint.is_gone() {
        return Some(Err(driver_gone()));
    }
    queue.register(waker);
    endpoint.register(waker);
    None
}

/// What the socket answered to being asked for a datagram.
#[derive(Debug)]
pub enum Arrival {
    /// A datagram.
    Datagram(Received),
    /// Nothing right now.
    Pending,
    /// It failed, in its own words.
    Failed(String),
}

/// One pass over the socket, bounded so that no pass keeps the driver from its timers.
#[derive(Clone, Copy, Debug)]
pub struct ReadPass {
    /// How many more datagrams this pass may take.
    pub left: usize,
    /// Whether it has taken any.
    pub progressed: bool,
}

impl ReadPass {
    /// Starts a pass.
    pub fn new(config: &Config) -> (pass: Self)
        ensures
            pass == (ReadPass { left: config.datagrams_per_pass, progressed: false }),
    {
        ReadPass { left: config.datagrams_per_pass, progressed: false }
    }

    /// Whether the socket is to be asked again.
    pub fn wants_more(&self) -> (more: bool)
        ensures
            more == (self.left > 0),
    {
        self.left > 0
    }

    /// Acts on what the socket answered, and says which datagram there is to dispatch.
    ///
    /// A socket with nothing to give ends the pass. One that failed is fatal to the endpoint.
    pub fn arrived(&mut self, arrival: Arrival) -> (result: Result<Option<Received>, Error>)
        requires
            old(self).left > 0,
        ensures
            match arrival {
                Arrival::Datagram(received) => {
                    &&& result == Ok::<Option<Received>, Error>(Some(received))
                    &&& *final(self) == (ReadPass {
                        left: (old(self).left - 1) as usize,
                        progressed: true,
                    })
                },
                Arrival::Pending => {
                    &&& result == Ok::<Option<Received>, Error>(None)
                    &&& *final(self) == (ReadPass { left: 0, ..*old(self) })
                },
                Arrival::Failed(words) => {
                    &&& result matches Err(error) && error@ == ErrorView::socket(
                        SOCKET_FAILED@,
                        words@,
                    )
                    &&& *final(self) == *old(self)
                },
            },
    {
        match arrival {
            Arrival::Datagram(received) => {
                self.left = self.left - 1;
                self.progressed = true;
                Ok(Some(received))
            },
            Arrival::Pending => {
                self.left = 0;
                Ok(None)
            },
            Arrival::Failed(words) => Err(Error::socket(SOCKET_FAILED, words)),
        }
    }
}

/// Who should have a datagram.
#[derive(Clone, Copy, Debug, PartialEq, Eq, Structural)]
pub enum Dispatch {
    /// The connection with this index.
    Deliver(u64),
    /// Nobody.
    Ignore,
    /// Perhaps a connection that does not exist yet.
    Examine,
}

/// Decides who should have a datagram of `len` bytes.
///
/// A client endpoint answers strangers with silence, and so does every endpoint where the
/// datagram is too short to be a QUIC packet.
pub fn dispatch(inner: &Inner, header: &DecodedHeader, len: usize) -> (decision: Dispatch)
    requires
        inner.wf(),
    ensures
        decision == (match addressee(*header, inner@.routes) {
            Some(index) => Dispatch::Deliver(index),
            None => if inner@.accepts && len >= SHORTEST_ANSWERABLE {
                Dispatch::Examine
            } else {
                Dispatch::Ignore
            },
        }),
{
    match inner.route(header) {
        Some(index) => Dispatch::Deliver(index),
        None => if inner.accepts() && len >= SHORTEST_ANSWERABLE {
            Dispatch::Examine
        } else {
            Dispatch::Ignore
        },
    }
}

/// What a first packet draws.
#[derive(Debug)]
pub enum Begin {
    /// A connection, for the client that first addressed this identifier, after a Retry or
    /// not.
    Accept {
        /// The identifier the client first addressed.
        original: ConnectionId,
        /// Whether a Retry came first.
        retried: bool,
    },
    /// A Retry from this identifier, carrying this token.
    Retry {
        /// The identifier the Retry is sent from.
        scid: ConnectionId,
        /// The token it carries.
        token: Vec<u8>,
    },
    /// Silence.
    Ignore,
}

/// Decides what a first packet draws, given what address validation decided where there is
/// any. Without it the packet is taken at its word.
pub fn begin(packet: &InitialPacket, decision: Option<Decision>) -> (beginning: Begin)
    ensures
        beginning == (match decision {
            None => Begin::Accept { original: packet.dcid, retried: false },
            Some(Decision::Accept(original)) => Begin::Accept { original, retried: true },
            Some(Decision::Retry { scid, token }) => Begin::Retry { scid, token },
            Some(Decision::Ignore) => Begin::Ignore,
        }),
{
    match decision {
        None => Begin::Accept { original: packet.dcid, retried: false },
        Some(Decision::Accept(original)) => Begin::Accept { original, retried: true },
        Some(Decision::Retry { scid, token }) => Begin::Retry { scid, token },
        Some(Decision::Ignore) => Begin::Ignore,
    }
}

/// Queues a datagram that was written into a buffer as an answer, where it was written.
///
/// No connection is created for it: an answer is computed, sent and forgotten.
pub fn answer_written(
    inner: &mut Inner,
    destination: Address,
    written: Result<usize, crate::error::Error>,
    buffer: &[u8],
)
    requires
        old(inner).wf(),
        written matches Ok(len) ==> len <= buffer@.len(),
    ensures
        final(inner).wf(),
        final(inner)@ == (match written {
            Ok(len) => InnerView {
                outbox: old(inner)@.outbox.push((destination, buffer@.take(len as int))),
                ..old(inner)@
            },
            Err(_) => old(inner)@,
        }),
{
    if let Ok(len) = written {
        let datagram = vstd::slice::slice_to_vec(vstd::slice::slice_subrange(buffer, 0, len));
        assert(datagram@ =~= buffer@.take(len as int));
        inner.answer(destination, datagram);
    }
}

/// Prepares the shared state of a connection a peer opened.
///
/// An endpoint whose caller asked for detached accepts hands over every connection it
/// accepts, to whoever is accepting: a server does not know what is coming before it arrives.
pub fn prepare_accepted(shared: &mut ConnectionShared, endpoint: &EndpointShared)
    ensures
        final(shared)@ == (if endpoint@.detached_accepts {
            SharedView { detach: true, detach_to_acceptor: true, ..old(shared)@ }
        } else {
            old(shared)@
        }),
{
    if endpoint.detached_accepts() {
        shared.request_detach_to_acceptor();
    }
}

/// Takes a connection a peer opened into the table: it answers to the identifiers it has of
/// its own, and to the one the client addressed until the handshake gives the client another.
pub fn adopt_accepted(
    inner: &mut Inner,
    remote: Address,
    shared: u64,
    scids: &Vec<ConnectionId>,
    scid: ConnectionId,
    addressed: ConnectionId,
) -> (index: u64)
    requires
        old(inner).wf(),
        old(inner)@.next_index < u64::MAX,
    ensures
        final(inner).wf(),
        index == old(inner)@.next_index,
        final(inner)@.connections == old(inner)@.connections.insert(
            index,
            (crate::endpoint::driver::EntryView {
                attached: true,
                shared,
                remote,
                pending: None,
                finished: false,
            }),
        ),
        final(inner)@.routes == crate::endpoint::routes::routed_all(
            old(inner)@.routes,
            scids@,
            index,
        ).insert(scid@, index).insert(addressed@, index),
        final(inner)@.outbox == old(inner)@.outbox,
        final(inner)@.next_index == old(inner)@.next_index + 1,
        final(inner)@.accepts == old(inner)@.accepts,
        final(inner)@.detachable == old(inner)@.detachable,
        final(inner)@.sleeping_until == old(inner)@.sleeping_until,
{
    let index: u64 = inner.adopt(remote, shared);
    inner.install_routes(index, scids, scid);
    inner.install_route(index, addressed);
    index
}

/// Which connection a datagram that belongs to none here thought it was for, where telling
/// its sender so is within the budget.
///
/// A peer that has lost this endpoint's state would otherwise retransmit until its idle
/// timeout; a stateless reset tells it to stop. The reset must be derived from the identifier
/// the datagram was addressed to, since the peer recognises no other. Every datagram that
/// asks for one draws on the budget, whether or not it can be made sense of.
pub fn answer_unmatched<S>(
    validation: &mut Option<Validation<S>>,
    header: &DecodedHeader,
    now: Timestamp,
) -> (dcid: Option<ConnectionId>)
    ensures
        match *old(validation) {
            None => dcid is None && *final(validation) == *old(validation),
            Some(policy) => {
                &&& *final(validation) == Some(policy.after_asking(now))
                &&& dcid is Some <==> policy.permits(now) && inspectable(*header, DEFAULT_LEN)
                &&& dcid matches Some(id) ==> id@ == header.dcid@
            },
        },
{
    match validation.take() {
        None => None,
        Some(policy) => {
            let mut policy = policy;
            let permitted: bool = policy.take_reset_budget(now);
            *validation = Some(policy);
            if !permitted {
                return None;
            }
            match inspect(header, DEFAULT_LEN) {
                Ok(inspection) => Some(inspection.dcid()),
                Err(_) => None,
            }
        },
    }
}

/// The driver's state once a stateless reset has been written, or not: it is queued only
/// where it is strictly smaller than the datagram that provoked it.
pub open spec fn with_reset(
    inner: InnerView,
    destination: Address,
    written: Result<Option<usize>, crate::error::Error>,
    buffer: Seq<u8>,
    provoked_by: usize,
) -> InnerView {
    if written matches Ok(Some(len)) && len < provoked_by {
        InnerView {
            outbox: inner.outbox.push((destination, buffer.take(written->Ok_0->Some_0 as int))),
            ..inner
        }
    } else {
        inner
    }
}

/// Queues a stateless reset, where one was written that is strictly smaller than the datagram
/// that provoked it. Otherwise the way this endpoint says "I have lost your connection" would
/// be an amplifier.
pub fn answer_reset(
    inner: &mut Inner,
    destination: Address,
    written: Result<Option<usize>, crate::error::Error>,
    buffer: &[u8],
    provoked_by: usize,
)
    requires
        old(inner).wf(),
        written matches Ok(Some(len)) ==> len <= buffer@.len(),
    ensures
        final(inner).wf(),
        final(inner)@ == with_reset(old(inner)@, destination, written, buffer@, provoked_by),
{
    if let Ok(Some(len)) = written {
        if len < provoked_by {
            answer_written(inner, destination, Ok(len), buffer);
        }
    }
}

/// One thing a pass does.
#[derive(Clone, Copy, Debug, PartialEq, Eq, Structural)]
pub enum ServiceTask {
    /// Apply a connection's identifier changes.
    Routes(u64),
    /// Run what a handle asked for on a connection.
    Commands(u64),
    /// Service a connection's timer.
    Expiry(u64),
    /// Send whatever every connection has to send.
    Flush,
    /// Remove connections that have finished.
    Evict,
}

/// What a pass does for some connections, in order.
///
/// Routing comes first: an identifier a connection has just minted must be installed before
/// any datagram announcing it goes out. Eviction comes after flushing, so that a last
/// datagram goes before its connection does.
pub open spec fn service_order(indices: Seq<u64>) -> Seq<ServiceTask>
    decreases indices.len(),
{
    if indices.len() == 0 {
        Seq::empty()
    } else {
        service_order(indices.drop_last()) + seq![
            ServiceTask::Routes(indices.last()),
            ServiceTask::Commands(indices.last()),
            ServiceTask::Expiry(indices.last()),
        ]
    }
}

/// Everything a pass does: each connection's share, then sending, then letting go of what has
/// finished.
pub open spec fn pass_order(indices: Seq<u64>) -> Seq<ServiceTask> {
    service_order(indices) + seq![ServiceTask::Flush, ServiceTask::Evict]
}

/// Everything a pass does, in order.
pub fn service(inner: &Inner) -> (tasks: Vec<ServiceTask>)
    ensures
        exists|indices: Seq<u64>|
            {
                &&& indices.no_duplicates()
                &&& indices.to_set() == inner@.connections.dom()
                &&& tasks@ == #[trigger] pass_order(indices)
            },
{
    let indices = inner.indices();
    let mut tasks: Vec<ServiceTask> = Vec::new();
    let mut at: usize = 0;
    assert(indices@.take(0) =~= Seq::empty());
    while at < indices.len()
        invariant
            at <= indices@.len(),
            tasks@ == service_order(indices@.take(at as int)),
        decreases indices.len() - at,
    {
        let ghost before = tasks@;
        let index: u64 = indices[at];
        assert(indices@.take(at + 1).drop_last() =~= indices@.take(at as int));
        tasks.push(ServiceTask::Routes(index));
        tasks.push(ServiceTask::Commands(index));
        tasks.push(ServiceTask::Expiry(index));
        assert(tasks@ =~= before + seq![
            ServiceTask::Routes(index),
            ServiceTask::Commands(index),
            ServiceTask::Expiry(index),
        ]);
        at += 1;
    }
    assert(indices@.take(at as int) =~= indices@);
    let ghost before = tasks@;
    tasks.push(ServiceTask::Flush);
    tasks.push(ServiceTask::Evict);
    assert(tasks@ =~= pass_order(indices@));
    tasks
}

impl<Sock, Clk, B, F, S> EndpointDriver<Sock, Clk, B, F, S> {
    /// Starts a poll, and says whether there is anything to poll: a driver that has stopped
    /// is finished. One that has not registers to be woken.
    pub fn start(&self, waker: u64, endpoint: &mut EndpointShared) -> (running: bool)
        ensures
            running == !self.stopped,
            final(endpoint)@ == (if running {
                EndpointView { driver_waker: Some(waker), ..old(endpoint)@ }
            } else {
                old(endpoint)@
            }),
    {
        if self.stopped {
            return false;
        }
        endpoint.register_driver(waker);
        true
    }

    /// Stops for good, which is what a dead socket means: there is no longer a way to send or
    /// receive for any connection on it. Says who was waiting on the endpoint, to be woken.
    pub fn stop(&mut self, endpoint: &mut EndpointShared) -> (woken: Vec<u64>)
        ensures
            *final(self) == (EndpointDriver { stopped: true, ..*old(self) }),
            final(endpoint)@ == (EndpointView { gone: true, ..old(endpoint)@.acceptors_woken() }),
            woken@ == old(endpoint)@.wakers,
    {
        self.stopped = true;
        endpoint.mark_gone()
    }
}

/// What every connection on a dead socket is failed with.
pub fn socket_died() -> (error: Error)
    ensures
        error@ == ErrorView::plain(ErrorKind::Socket, SOCKET_FAILED@),
{
    Error::new(ErrorKind::Socket, SOCKET_FAILED)
}

/// What every connection of a dropped driver is failed with.
pub fn driver_dropped() -> (error: Error)
    ensures
        error@ == ErrorView::plain(ErrorKind::DriverGone, DRIVER_DROPPED@),
{
    Error::new(ErrorKind::DriverGone, DRIVER_DROPPED)
}

/// What a connection is failed with that a dropped driver never got to open.
///
/// It is not a connection yet, so failing every connection does not reach it, and a caller
/// awaiting it would wait for a driver that no longer exists.
pub fn dial_dropped() -> (error: Error)
    ensures
        error@ == ErrorView::plain(ErrorKind::DriverGone, DIAL_DROPPED@),
{
    Error::new(ErrorKind::DriverGone, DIAL_DROPPED)
}

/// Whether a poll makes another pass once one is over: while there is something to do, and
/// never more often than the bound.
pub fn another_pass(passes: usize, read: bool, fired: bool, pending: bool) -> (again: bool)
    ensures
        again == (passes < PASSES_PER_POLL && (read || fired || pending)),
{
    passes < PASSES_PER_POLL && (read || fired || pending)
}

/// A stateless reset never amplifies: whatever is queued for a datagram that belongs to no
/// connection is strictly smaller than it, and no connection comes of it.
pub proof fn law_a_reset_is_smaller_than_what_provoked_it(
    inner: InnerView,
    destination: Address,
    written: Result<Option<usize>, crate::error::Error>,
    buffer: Seq<u8>,
    provoked_by: usize,
)
    requires
        written matches Ok(Some(len)) ==> len <= buffer.len(),
    ensures
        ({
            let after = with_reset(inner, destination, written, buffer, provoked_by);
            &&& after.connections == inner.connections
            &&& after.routes == inner.routes
            &&& after.outbox != inner.outbox ==> {
                &&& after.outbox.drop_last() == inner.outbox
                &&& after.outbox.last().0 == destination
                &&& after.outbox.last().1.len() < provoked_by
            }
        }),
{
    let after = with_reset(inner, destination, written, buffer, provoked_by);
    if written matches Ok(Some(len)) && len < provoked_by {
        assert(after.outbox.drop_last() =~= inner.outbox);
    }
}

/// Within a pass every connection's routes are applied before its commands run, those before
/// its timer is serviced, and all of that before anything is flushed and finished connections
/// go.
pub proof fn law_a_pass_keeps_its_order(indices: Seq<u64>, at: int)
    ensures
        ({
            let pass = pass_order(indices);
            let count: int = 3 * indices.len() as int;
            &&& pass.len() == count + 2
            &&& 0 <= at < indices.len() ==> {
                &&& pass[3 * at] == ServiceTask::Routes(indices[at])
                &&& pass[3 * at + 1] == ServiceTask::Commands(indices[at])
                &&& pass[3 * at + 2] == ServiceTask::Expiry(indices[at])
            }
            &&& pass[count] == ServiceTask::Flush
            &&& pass[count + 1] == ServiceTask::Evict
        }),
{
    lemma_service_order(indices, at);
}

/// Each connection's share of a pass stands where its place among the connections says.
proof fn lemma_service_order(indices: Seq<u64>, at: int)
    ensures
        service_order(indices).len() == 3 * indices.len(),
        0 <= at < indices.len() ==> {
            &&& service_order(indices)[3 * at] == ServiceTask::Routes(indices[at])
            &&& service_order(indices)[3 * at + 1] == ServiceTask::Commands(indices[at])
            &&& service_order(indices)[3 * at + 2] == ServiceTask::Expiry(indices[at])
        },
    decreases indices.len(),
{
    if indices.len() > 0 {
        lemma_service_order(indices.drop_last(), at);
    }
}

} // verus!
