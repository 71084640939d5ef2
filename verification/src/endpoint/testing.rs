//! Scaffolding for exercising the endpoint layer.
//!
//! A pair of sockets that move datagrams through a shared wire, and a clock a test moves by
//! hand. The engine refuses to send before its pacing deadline, so a test that waits on a
//! real clock spends real milliseconds doing nothing, and one whose clock never advances gets
//! one datagram and then silence.

use std::collections::VecDeque;

use vstd::prelude::*;

use crate::endpoint::clock::Clock;
use crate::endpoint::socket::{Received, Sent};
use crate::path::Address;
use crate::text;
use crate::time::Timestamp;

verus! {

/// A failure injected into a test socket.
#[derive(Clone, Copy, Debug, PartialEq, Eq, Structural)]
pub enum Fault {
    /// The next send reports it would block, once.
    SendWouldBlock,
    /// Every operation from now on fails.
    Broken,
}

/// The error a test socket reports.
#[derive(Clone, Copy, Debug, PartialEq, Eq, Structural)]
pub struct TestSocketError;

/// How a broken test socket describes itself.
pub const BROKEN_DELIBERATELY: &'static str = "the test socket was broken deliberately";

impl TestSocketError {
    /// The display form.
    pub fn display_text(&self) -> (shown: String)
        ensures
            shown@ == BROKEN_DELIBERATELY@,
    {
        text::owned(BROKEN_DELIBERATELY)
    }
}

/// Datagrams and where they came from, in order.
pub open spec fn letters(queue: Seq<(Address, Vec<u8>)>) -> Seq<(Address, Seq<u8>)> {
    Seq::new(queue.len(), |i: int| (queue[i].0, queue[i].1@))
}

/// One direction of the wire.
#[derive(Debug)]
pub struct Queue {
    datagrams: VecDeque<(Address, Vec<u8>)>,
    waker: Option<u64>,
}

impl Queue {
    /// What is waiting, oldest first.
    pub closed spec fn waiting(&self) -> Seq<(Address, Seq<u8>)> {
        letters(self.datagrams@)
    }

    /// Who is to be woken when something arrives.
    pub closed spec fn listener(&self) -> Option<u64> {
        self.waker
    }

    /// An empty direction.
    pub fn new() -> (queue: Self)
        ensures
            queue.waiting() == Seq::<(Address, Seq<u8>)>::empty(),
            queue.listener() is None,
    {
        let queue = Self { datagrams: VecDeque::new(), waker: None };
        assert(queue.waiting() =~= Seq::empty());
        queue
    }

    /// Adds a datagram, and says who was listening for one.
    pub fn push(&mut self, from: Address, datagram: Vec<u8>) -> (woken: Option<u64>)
        ensures
            final(self).waiting() == old(self).waiting().push((from, datagram@)),
            final(self).listener() is None,
            woken == old(self).listener(),
    {
        let ghost before = self.datagrams@;
        self.datagrams.push_back((from, datagram));
        assert(letters(self.datagrams@) =~= letters(before).push((from, datagram@)));
        self.waker.take()
    }

    /// Takes the oldest datagram.
    fn pop(&mut self) -> (taken: Option<(Address, Vec<u8>)>)
        ensures
            final(self).listener() == old(self).listener(),
            match taken {
                Some(letter) => {
                    &&& old(self).waiting().len() > 0
                    &&& (letter.0, letter.1@) == old(self).waiting()[0]
                    &&& final(self).waiting() == old(self).waiting().skip(1)
                },
                None => old(self).waiting().len() == 0 && final(self).waiting()
                    == old(self).waiting(),
            },
    {
        let ghost before = self.datagrams@;
        let taken = self.datagrams.pop_front();
        assert(before.len() > 0 ==> letters(self.datagrams@) =~= letters(before).skip(1));
        taken
    }

    /// Takes everything waiting.
    fn drain(&mut self) -> (taken: VecDeque<(Address, Vec<u8>)>)
        ensures
            letters(taken@) == old(self).waiting(),
            final(self).waiting() == Seq::<(Address, Seq<u8>)>::empty(),
            final(self).listener() == old(self).listener(),
    {
        let mut taken: VecDeque<(Address, Vec<u8>)> = VecDeque::new();
        std::mem::swap(&mut taken, &mut self.datagrams);
        assert(self.waiting() =~= Seq::empty());
        taken
    }

    /// Listens for the next datagram.
    fn listen(&mut self, waker: u64)
        ensures
            final(self).waiting() == old(self).waiting(),
            final(self).listener() == Some(waker),
    {
        self.waker = Some(waker);
    }
}

/// What two sockets share: a direction each, and the datagrams nobody was listening for.
#[derive(Debug)]
pub struct Wire {
    /// Datagrams on their way to the first socket.
    pub to_left: Queue,
    /// Datagrams on their way to the second.
    pub to_right: Queue,
    /// Datagrams whose destination matched no peer, kept so a test can inspect them.
    pub stray: Vec<(Address, Vec<u8>)>,
}

impl Wire {
    /// The direction that ends at one of the two sockets.
    pub open spec fn inbox(&self, left: bool) -> Queue {
        if left {
            self.to_left
        } else {
            self.to_right
        }
    }
}

/// An in-memory UDP socket, one half of a [`socket_pair`].
#[derive(Debug)]
pub struct TestSocket {
    /// The address it is bound to.
    pub address: Address,
    /// Which end of the wire it is.
    pub left: bool,
    /// The fault arranged for it.
    pub fault: Option<Fault>,
    /// How many datagrams it has put on the wire.
    pub sent: usize,
    /// Whether the bytes of completed sends are dropped.
    pub sink: bool,
}

/// Two sockets that deliver to each other over a wire.
pub fn socket_pair(left: Address, right: Address) -> (pair: (TestSocket, TestSocket, Wire))
    ensures
        pair.0 == (TestSocket { address: left, left: true, fault: None, sent: 0, sink: false }),
        pair.1 == (TestSocket { address: right, left: false, fault: None, sent: 0, sink: false }),
        pair.2.to_left.waiting().len() == 0,
        pair.2.to_right.waiting().len() == 0,
        pair.2.to_left.listener() is None,
        pair.2.to_right.listener() is None,
        pair.2.stray@.len() == 0,
{
    (
        TestSocket { address: left, left: true, fault: None, sent: 0, sink: false },
        TestSocket { address: right, left: false, fault: None, sent: 0, sink: false },
        Wire { to_left: Queue::new(), to_right: Queue::new(), stray: Vec::new() },
    )
}

/// How many bytes of a datagram fit a buffer.
pub open spec fn fitting(datagram: nat, buffer: nat) -> nat {
    if datagram < buffer {
        datagram
    } else {
        buffer
    }
}

impl TestSocket {
    /// How many datagrams this socket has actually put on the wire.
    pub fn sent(&self) -> (count: usize)
        ensures
            count == self.sent,
    {
        self.sent
    }

    /// Arranges for a fault on the next operation.
    pub fn inject(&mut self, fault: Fault)
        ensures
            *final(self) == (TestSocket { fault: Some(fault), ..*old(self) }),
    {
        self.fault = Some(fault);
    }

    /// Drops the bytes of completed sends while still counting them, or not.
    pub fn set_sink(&mut self, on: bool)
        ensures
            *final(self) == (TestSocket { sink: on, ..*old(self) }),
    {
        self.sink = on;
    }

    /// The address this socket is bound to.
    pub fn local_addr(&self) -> (address: Address)
        ensures
            address == self.address,
    {
        self.address
    }

    /// A copy of the datagrams sent to an address with no peer behind it.
    pub fn stray(&self, wire: &Wire) -> (copies: Vec<(Address, Vec<u8>)>)
        ensures
            letters(copies@) == letters(wire.stray@),
    {
        let mut copies: Vec<(Address, Vec<u8>)> = Vec::new();
        let mut at: usize = 0;
        while at < wire.stray.len()
            invariant
                at <= wire.stray@.len(),
                copies@.len() == at,
                forall|i: int|
                    0 <= i < at ==> (#[trigger] copies@[i]).0 == wire.stray@[i].0 && copies@[i].1@
                        == wire.stray@[i].1@,
            decreases wire.stray.len() - at,
        {
            let destination = wire.stray[at].0;
            let datagram = vstd::slice::slice_to_vec(wire.stray[at].1.as_slice());
            copies.push((destination, datagram));
            at += 1;
        }
        assert(letters(copies@) =~= letters(wire.stray@));
        copies
    }

    /// Delivers a datagram to this socket as if it had arrived from `source`.
    pub fn deliver(&self, wire: &mut Wire, source: Address, datagram: &[u8]) -> (woken: Option<u64>)
        ensures
            final(wire).inbox(self.left).waiting() == old(wire).inbox(self.left).waiting().push(
                (source, datagram@),
            ),
            final(wire).inbox(self.left).listener() is None,
            final(wire).inbox(!self.left) == old(wire).inbox(!self.left),
            final(wire).stray == old(wire).stray,
            woken == old(wire).inbox(self.left).listener(),
    {
        let copy = vstd::slice::slice_to_vec(datagram);
        if self.left {
            wire.to_left.push(source, copy)
        } else {
            wire.to_right.push(source, copy)
        }
    }

    /// Removes and returns everything currently waiting to be received.
    pub fn drain_inbox(&self, wire: &mut Wire) -> (taken: VecDeque<(Address, Vec<u8>)>)
        ensures
            letters(taken@) == old(wire).inbox(self.left).waiting(),
            final(wire).inbox(self.left).waiting().len() == 0,
            final(wire).inbox(self.left).listener() == old(wire).inbox(self.left).listener(),
            final(wire).inbox(!self.left) == old(wire).inbox(!self.left),
            final(wire).stray == old(wire).stray,
    {
        if self.left {
            wire.to_left.drain()
        } else {
            wire.to_right.drain()
        }
    }

    /// Attempts to receive one datagram into `buffer`, or listens for the next.
    ///
    /// A datagram that does not fit is cut short.
    pub fn poll_recv(&mut self, wire: &mut Wire, waker: u64, buffer: &mut [u8]) -> (result: Option<
        Result<Received, TestSocketError>,
    >)
        ensures
            *final(self) == *old(self),
            final(wire).stray == old(wire).stray,
            final(wire).inbox(!old(self).left) == old(wire).inbox(!old(self).left),
            final(buffer)@.len() == old(buffer)@.len(),
            ({
                let inbox = old(wire).inbox(old(self).left);
                let after = final(wire).inbox(old(self).left);
                if old(self).fault == Some(Fault::Broken) {
                    &&& result == Some(Err::<Received, TestSocketError>(TestSocketError))
                    &&& after == inbox
                    &&& final(buffer)@ == old(buffer)@
                } else if inbox.waiting().len() == 0 {
                    &&& result is None
                    &&& after.waiting() == inbox.waiting()
                    &&& after.listener() == Some(waker)
                    &&& final(buffer)@ == old(buffer)@
                } else {
                    let (source, datagram) = inbox.waiting()[0];
                    let len = fitting(datagram.len(), old(buffer)@.len());
                    &&& result == Some(
                        Ok::<Received, TestSocketError>(Received { len: len as usize, source }),
                    )
                    &&& after.waiting() == inbox.waiting().skip(1)
                    &&& after.listener() == inbox.listener()
                    &&& final(buffer)@ == datagram.take(len as int) + old(buffer)@.skip(len as int)
                }
            }),
    {
        if let Some(Fault::Broken) = self.fault {
            return Some(Err(TestSocketError));
        }
        let popped = if self.left {
            wire.to_left.pop()
        } else {
            wire.to_right.pop()
        };
        match popped {
            Some((source, datagram)) => {
                let len: usize = if datagram.len() < buffer.len() {
                    datagram.len()
                } else {
                    buffer.len()
                };
                let mut at: usize = 0;
                while at < len
                    invariant
                        at <= len <= datagram@.len(),
                        len <= old(buffer)@.len(),
                        buffer@.len() == old(buffer)@.len(),
                        forall|i: int| 0 <= i < at ==> buffer@[i] == datagram@[i],
                        forall|i: int| at <= i < buffer@.len() ==> buffer@[i] == old(buffer)@[i],
                    decreases len - at,
                {
                    buffer[at] = datagram[at];
                    at += 1;
                }
                assert(buffer@ =~= datagram@.take(len as int) + old(buffer)@.skip(len as int));
                Some(Ok(Received { len, source }))
            },
            None => {
                if self.left {
                    wire.to_left.listen(waker);
                } else {
                    wire.to_right.listen(waker);
                }
                None
            },
        }
    }

    /// Attempts to send one datagram, and says whom that wakes.
    ///
    /// An arranged refusal clears itself: one that never did would be a stalled socket rather
    /// than a busy one. A datagram addressed to this very socket has nobody to receive it and
    /// is recorded instead.
    pub fn poll_send(
        &mut self,
        wire: &mut Wire,
        waker: u64,
        destination: Address,
        datagram: &[u8],
    ) -> (result: (Result<Sent, TestSocketError>, Option<u64>))
        requires
            old(self).sent < usize::MAX,
        ensures
            final(wire).inbox(old(self).left) == old(wire).inbox(old(self).left),
            ({
                let outbox = old(wire).inbox(!old(self).left);
                let after = final(wire).inbox(!old(self).left);
                match old(self).fault {
                    Some(Fault::Broken) => {
                        &&& result == (Err::<Sent, TestSocketError>(TestSocketError), None::<u64>)
                        &&& *final(self) == *old(self)
                        &&& *final(wire) == *old(wire)
                    },
                    Some(Fault::SendWouldBlock) => {
                        &&& result == (Ok::<Sent, TestSocketError>(Sent::WouldBlock), Some(waker))
                        &&& *final(self) == (TestSocket { fault: None, ..*old(self) })
                        &&& *final(wire) == *old(wire)
                    },
                    None => {
                        &&& result.0 == Ok::<Sent, TestSocketError>(Sent::Complete)
                        &&& *final(self) == (TestSocket {
                            sent: (old(self).sent + 1) as usize,
                            ..*old(self)
                        })
                        &&& if old(self).sink {
                            result.1 is None && *final(wire) == *old(wire)
                        } else if destination == old(self).address {
                            &&& result.1 is None
                            &&& after == outbox
                            &&& letters(final(wire).stray@) == letters(old(wire).stray@).push(
                                (destination, datagram@),
                            )
                        } else {
                            &&& result.1 == outbox.listener()
                            &&& after.waiting() == outbox.waiting().push(
                                (old(self).address, datagram@),
                            )
                            &&& after.listener() is None
                            &&& final(wire).stray == old(wire).stray
                        }
                    },
                }
            }),
    {
        match self.fault {
            Some(Fault::Broken) => return (Err(TestSocketError), None),
            Some(Fault::SendWouldBlock) => {
                self.fault = None;
                return (Ok(Sent::WouldBlock), Some(waker));
            },
            None => {},
        }
        self.sent = self.sent + 1;
        if self.sink {
            return (Ok(Sent::Complete), None);
        }
        let copy = vstd::slice::slice_to_vec(datagram);
        if destination.same(&self.address) {
            let ghost before = wire.stray@;
            wire.stray.push((destination, copy));
            assert(letters(wire.stray@) =~= letters(before).push((destination, datagram@)));
            return (Ok(Sent::Complete), None);
        }
        let woken = if self.left {
            wire.to_right.push(self.address, copy)
        } else {
            wire.to_left.push(self.address, copy)
        };
        (Ok(Sent::Complete), woken)
    }
}

/// Where a test clock starts. Not zero, because zero is the value the engine uses to mean "no
/// deadline", and a clock starting there makes every unset timer look expired.
pub const CLOCK_START: u64 = 1_000_000_000;

/// A clock a test moves by hand.
#[derive(Debug)]
pub struct TestClock {
    now: u64,
    sleepers: Vec<(u64, u64)>,
    armed: usize,
}

/// Something done with a [`TestClock`] or one of its waits.
pub enum ClockStep {
    /// A wait was asked for.
    Request,
    /// A wait was polled.
    Poll,
    /// The clock was moved on.
    Advance,
}

/// How many waits have been started, once one more thing was done. Only asking for a wait
/// counts.
pub open spec fn armed_after(armed: usize, step: ClockStep) -> usize {
    match step {
        ClockStep::Request => if armed == usize::MAX {
            0
        } else {
            (armed + 1) as usize
        },
        ClockStep::Poll => armed,
        ClockStep::Advance => armed,
    }
}

/// How many waits have been started, once a run of things was done.
pub open spec fn armed_after_all(armed: usize, steps: Seq<ClockStep>) -> usize
    decreases steps.len(),
{
    if steps.len() == 0 {
        armed
    } else {
        armed_after(armed_after_all(armed, steps.drop_last()), steps.last())
    }
}

/// How many of some things done were requests.
pub open spec fn requested(steps: Seq<ClockStep>) -> nat
    decreases steps.len(),
{
    if steps.len() == 0 {
        0
    } else {
        requested(steps.drop_last()) + if steps.last() is Request {
            1nat
        } else {
            0nat
        }
    }
}

/// Each request for a wait counts once, and polling waits and moving the clock on do not
/// count, in whatever order they come.
pub proof fn law_each_request_counts_once(steps: Seq<ClockStep>)
    requires
        requested(steps) <= usize::MAX,
    ensures
        armed_after_all(0, steps) == requested(steps),
    decreases steps.len(),
{
    if steps.len() > 0 {
        law_each_request_counts_once(steps.drop_last());
    }
}

/// The sleepers whose deadlines have been reached, in the order they fell asleep.
pub open spec fn reached(sleepers: Seq<(u64, u64)>, now: int) -> Seq<u64>
    decreases sleepers.len(),
{
    if sleepers.len() == 0 {
        Seq::empty()
    } else {
        let before = reached(sleepers.drop_last(), now);
        if sleepers.last().0 <= now {
            before.push(sleepers.last().1)
        } else {
            before
        }
    }
}

/// The sleepers whose deadlines have not been reached.
pub open spec fn asleep(sleepers: Seq<(u64, u64)>, now: int) -> Seq<(u64, u64)>
    decreases sleepers.len(),
{
    if sleepers.len() == 0 {
        Seq::empty()
    } else {
        let before = asleep(sleepers.drop_last(), now);
        if sleepers.last().0 <= now {
            before
        } else {
            before.push(sleepers.last())
        }
    }
}

/// What a clock reads once it has been moved on: the largest time there is is the end.
pub open spec fn later(reading: nat, nanos: u64) -> nat {
    if reading + nanos <= u64::MAX {
        reading + nanos as nat
    } else {
        u64::MAX as nat
    }
}

impl TestClock {
    /// What the clock reads.
    pub closed spec fn reading(&self) -> nat {
        self.now as nat
    }

    /// Deadlines waited for, and by whom.
    pub closed spec fn sleeping(&self) -> Seq<(u64, u64)> {
        self.sleepers@
    }

    /// How many waits have been started.
    pub closed spec fn started(&self) -> usize {
        self.armed
    }

    /// A clock that has not moved.
    pub fn new() -> (clock: Self)
        ensures
            clock.reading() == CLOCK_START,
            clock.sleeping() == Seq::<(u64, u64)>::empty(),
            clock.started() == 0,
    {
        Self { now: CLOCK_START, sleepers: Vec::new(), armed: 0 }
    }

    /// Moves time forward, as far as there is any, and takes everyone whose deadline has
    /// passed, to be woken.
    pub fn advance(&mut self, nanos: u64) -> (woken: Vec<u64>)
        ensures
            final(self).reading() == later(old(self).reading(), nanos),
            woken@ == reached(old(self).sleeping(), final(self).reading() as int),
            final(self).sleeping() == asleep(old(self).sleeping(), final(self).reading() as int),
            final(self).started() == armed_after(old(self).started(), ClockStep::Advance),
    {
        let now: u64 = self.now.saturating_add(nanos);
        self.now = now;
        let mut woken: Vec<u64> = Vec::new();
        let mut waiting: Vec<(u64, u64)> = Vec::new();
        let ghost before = self.sleepers@;
        assert(before.take(0) =~= Seq::empty());
        let mut at: usize = 0;
        while at < self.sleepers.len()
            invariant
                at <= before.len(),
                before == self.sleepers@,
                self.now == now,
                self.armed == old(self).armed,
                woken@ == reached(before.take(at as int), now as int),
                waiting@ == asleep(before.take(at as int), now as int),
            decreases before.len() - at,
        {
            assert(before.take(at + 1).drop_last() =~= before.take(at as int));
            let (deadline, waker) = self.sleepers[at];
            if deadline <= now {
                woken.push(waker);
            } else {
                waiting.push((deadline, waker));
            }
            at += 1;
        }
        assert(before.take(at as int) =~= before);
        self.sleepers = waiting;
        woken
    }

    /// How many times a wait has been started.
    pub fn timers_armed(&self) -> (count: usize)
        ensures
            count == self.started(),
    {
        self.armed
    }

    /// Adds a sleeper.
    fn enlist(&mut self, deadline: u64, waker: u64)
        ensures
            final(self).reading() == old(self).reading(),
            final(self).sleeping() == old(self).sleeping().push((deadline, waker)),
            final(self).started() == old(self).started(),
    {
        let mut sleepers: Vec<(u64, u64)> = Vec::new();
        std::mem::swap(&mut sleepers, &mut self.sleepers);
        sleepers.push((deadline, waker));
        self.sleepers = sleepers;
    }
}

impl Default for TestClock {
    fn default() -> (clock: Self)
        ensures
            clock.reading() == CLOCK_START,
            clock.sleeping() == Seq::<(u64, u64)>::empty(),
            clock.started() == 0,
    {
        Self::new()
    }
}

impl Clock for TestClock {
    type Sleep = TestSleep;

    /// The value reserved for the absence of a time is none.
    open spec fn readable(&self) -> bool {
        self.reading() < u64::MAX
    }

    fn now(&self) -> (now: Timestamp)
        ensures
            now@ == self.reading(),
    {
        match Timestamp::from_raw(self.now) {
            Some(now) => now,
            None => vstd::pervasive::unreached(),
        }
    }

    fn sleep_until(&mut self, deadline: Timestamp) -> (sleep: TestSleep)
        ensures
            sleep.until() == deadline@,
            !sleep.enlisted(),
            final(self).reading() == old(self).reading(),
            final(self).sleeping() == old(self).sleeping(),
            final(self).started() == armed_after(old(self).started(), ClockStep::Request),
    {
        self.armed = self.armed.wrapping_add(1);
        TestSleep { deadline: deadline.as_nanos(), registered: false }
    }
}

/// A pending wait on a [`TestClock`].
#[derive(Debug)]
pub struct TestSleep {
    deadline: u64,
    registered: bool,
}

impl TestSleep {
    /// The deadline.
    pub closed spec fn until(&self) -> nat {
        self.deadline as nat
    }

    /// Whether the clock knows of it.
    pub closed spec fn enlisted(&self) -> bool {
        self.registered
    }

    /// Whether the wait is over. Where it is not, the clock learns whom to wake, once.
    pub fn poll(&mut self, clock: &mut TestClock, waker: u64) -> (ready: bool)
        ensures
            ready == (old(clock).reading() >= old(self).until()),
            final(self).until() == old(self).until(),
            final(self).enlisted() == (old(self).enlisted() || !ready),
            final(clock).reading() == old(clock).reading(),
            final(clock).started() == armed_after(old(clock).started(), ClockStep::Poll),
            final(clock).sleeping() == (if ready || old(self).enlisted() {
                old(clock).sleeping()
            } else {
                old(clock).sleeping().push((old(self).until() as u64, waker))
            }),
    {
        if clock.now >= self.deadline {
            return true;
        }
        if !self.registered {
            clock.enlist(self.deadline, waker);
            self.registered = true;
        }
        false
    }
}

/// Something a test polls until it is over, and what the test does between polls.
pub trait Course {
    /// What it comes to.
    type Output;

    /// Whether polling a course in the state `before` can answer `answer` and leave it in the
    /// state `after`.
    ///
    /// Each course says so for itself. One that says nothing may do anything.
    open spec fn polls(before: &Self, answer: Option<Self::Output>, after: &Self) -> bool {
        true
    }

    /// Whether what is done between polls can take a course from `before` to `after`.
    open spec fn moves(before: &Self, after: &Self) -> bool {
        true
    }

    /// Polls it once, with nobody to wake.
    fn poll(&mut self) -> (answer: Option<Self::Output>)
        ensures
            Self::polls(old(self), answer, final(self)),
    ;

    /// Does what is done after a poll that was not the last.
    fn between(&mut self)
        ensures
            Self::moves(old(self), final(self)),
    ;
}

/// Whether a course polled up to `steps` times, with what is done in between, can come to
/// `ended` and be left in the state `after`.
pub open spec fn runs<C: Course>(
    before: C,
    steps: nat,
    ended: Option<C::Output>,
    after: C,
) -> bool
    decreases steps, 0nat,
{
    if steps == 0 {
        ended is None && after == before
    } else {
        exists|answer: Option<C::Output>, polled: C|
            {
                &&& #[trigger] C::polls(&before, answer, &polled)
                &&& if answer is Some {
                    ended == answer && after == polled
                } else {
                    runs_on(polled, (steps - 1) as nat, ended, after)
                }
            }
    }
}

/// Whether a course that was polled and is not over can come to `ended` within `steps` more
/// polls.
pub open spec fn runs_on<C: Course>(
    polled: C,
    steps: nat,
    ended: Option<C::Output>,
    after: C,
) -> bool
    decreases steps, 1nat,
{
    exists|moved: C| #[trigger] C::moves(&polled, &moved) && runs(moved, steps, ended, after)
}

/// Polls a course up to `steps` times, doing what is done in between after each time it was
/// not over, and says what it came to.
///
/// The bound makes a course that is never over fail a test instead of hanging it.
pub fn poll_until<C: Course>(course: &mut C, steps: usize) -> (ended: Option<C::Output>)
    ensures
        runs(*old(course), steps as nat, ended, *final(course)),
{
    let mut left: usize = steps;
    while left > 0
        invariant
            left <= steps,
            forall|ended: Option<C::Output>, after: C|
                #![trigger runs(*course, left as nat, ended, after)]
                runs(*course, left as nat, ended, after) ==> runs(
                    *old(course),
                    steps as nat,
                    ended,
                    after,
                ),
        decreases left,
    {
        let ghost before = *course;
        let answer = course.poll();
        let ghost polled = *course;
        assert(C::polls(&before, answer, &polled));
        if let Some(output) = answer {
            assert(runs(before, left as nat, Some(output), polled));
            return Some(output);
        }
        course.between();
        let ghost moved = *course;
        assert(C::moves(&polled, &moved));
        left -= 1;
        proof {
            assert forall|ended: Option<C::Output>, after: C|
                #![trigger runs(*course, left as nat, ended, after)]
                runs(*course, left as nat, ended, after) implies runs(
                *old(course),
                steps as nat,
                ended,
                after,
            ) by {
                assert(runs_on(polled, left as nat, ended, after));
                let more = (left + 1) as nat;
                assert((more - 1) as nat == left as nat);
                assert(runs(before, more, ended, after));
            }
        }
    }
    assert(runs(*course, 0, None, *course));
    None
}

/// A wait on a clock that a test moves on by the same time after each poll.
#[derive(Debug)]
pub struct Nap {
    /// The wait.
    pub sleep: TestSleep,
    /// The clock it waits on.
    pub clock: TestClock,
    /// How far the clock is moved on.
    pub step: u64,
}

impl Course for Nap {
    type Output = ();

    /// It is over once the clock has reached its deadline.
    open spec fn polls(before: &Self, answer: Option<()>, after: &Self) -> bool {
        let over = before.clock.reading() >= before.sleep.until();
        &&& answer is Some <==> over
        &&& after.step == before.step
        &&& after.sleep.until() == before.sleep.until()
        &&& after.sleep.enlisted() == (before.sleep.enlisted() || !over)
        &&& after.clock.reading() == before.clock.reading()
        &&& after.clock.started() == before.clock.started()
        &&& after.clock.sleeping() == (if over || before.sleep.enlisted() {
            before.clock.sleeping()
        } else {
            before.clock.sleeping().push((before.sleep.until() as u64, 0))
        })
    }

    /// The clock is moved on.
    open spec fn moves(before: &Self, after: &Self) -> bool {
        let now = later(before.clock.reading(), before.step);
        &&& after.step == before.step
        &&& after.sleep == before.sleep
        &&& after.clock.reading() == now
        &&& after.clock.started() == before.clock.started()
        &&& after.clock.sleeping() == asleep(before.clock.sleeping(), now as int)
    }

    fn poll(&mut self) -> (answer: Option<()>) {
        if self.sleep.poll(&mut self.clock, 0) {
            Some(())
        } else {
            None
        }
    }

    fn between(&mut self) {
        let _ = self.clock.advance(self.step);
    }
}

/// A nap polled a number of times ends exactly where its deadline is reached by the last of
/// those polls, the clock having been moved on before each but the first.
pub proof fn law_a_nap_ends_once_its_deadline_is_reached(
    nap: Nap,
    steps: nat,
    ended: Option<()>,
    after: Nap,
)
    requires
        runs(nap, steps, ended, after),
    ensures
        ended is Some <==> steps > 0 && nap.clock.reading() + (steps - 1) * nap.step
            >= nap.sleep.until(),
    decreases steps,
{
    if steps > 0 {
        let (answer, polled) = choose|answer: Option<()>, polled: Nap|
            {
                &&& #[trigger] Nap::polls(&nap, answer, &polled)
                &&& if answer is Some {
                    ended == answer && after == polled
                } else {
                    runs_on(polled, (steps - 1) as nat, ended, after)
                }
            };
        assert((steps - 1) * nap.step >= 0) by (nonlinear_arith)
            requires
                steps > 0,
        ;
        if answer is None {
            let moved = choose|moved: Nap|
                #[trigger] Nap::moves(&polled, &moved) && runs(
                    moved,
                    (steps - 1) as nat,
                    ended,
                    after,
                );
            law_a_nap_ends_once_its_deadline_is_reached(moved, (steps - 1) as nat, ended, after);
            if steps > 1 {
                assert((steps - 1) * nap.step == nap.step + (steps - 2) * nap.step)
                    by (nonlinear_arith);
                assert((steps - 2) * nap.step >= 0) by (nonlinear_arith)
                    requires
                        steps > 1,
                ;
            } else {
                assert((steps - 1) * nap.step == 0) by (nonlinear_arith)
                    requires
                        steps == 1,
                ;
            }
        }
    }
}

} // verus!
