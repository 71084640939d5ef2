//! What the scaffolding promises: that the wire carries what was sent, that the clock wakes
//! whoever is due, and that the counted allocations balance.

use std::collections::VecDeque;

use vstd::prelude::*;

use crate::allocation::AllocState;
use crate::endpoint::clock::Clock;
use crate::endpoint::socket::{Received, Sent};
use crate::endpoint::testing::{
    law_a_nap_ends_once_its_deadline_is_reached, letters, poll_until, socket_pair, Course, Fault,
    Nap, Queue, TestClock, TestSleep, TestSocket, TestSocketError, Wire,
};
use crate::endpoint::tokio::{reading, TokioClock};
use crate::path::Address;
use crate::time::Timestamp;

verus! {

/// A queue hands out what was put in, first in first out, and telling whoever listens uses that
/// listener up.
pub proof fn law_a_queue_keeps_its_order(
    empty: Queue,
    pushing: &mut Queue,
    from: Address,
    datagram: Vec<u8>,
    woken: Option<u64>,
)
    requires
        call_ensures(Queue::new, (), empty),
        call_ensures(Queue::push, (pushing, from, datagram), woken),
    ensures
        empty.waiting().len() == 0 && empty.listener() is None,
        final(pushing).waiting().len() == old(pushing).waiting().len() + 1,
        final(pushing).waiting().drop_last() == old(pushing).waiting(),
        final(pushing).waiting().last() == (from, datagram@),
        woken == old(pushing).listener(),
        final(pushing).listener() is None,
{
    assert(final(pushing).waiting().drop_last() =~= old(pushing).waiting());
}

/// The two sockets of a pair are each other's far end, and nothing is between them yet.
pub proof fn law_a_pair_starts_empty(
    left: Address,
    right: Address,
    pair: (TestSocket, TestSocket, Wire),
    first: Address,
    second: Address,
    sent: usize,
)
    requires
        call_ensures(socket_pair, (left, right), pair),
        call_ensures(TestSocket::local_addr, (&pair.0,), first),
        call_ensures(TestSocket::local_addr, (&pair.1,), second),
        call_ensures(TestSocket::sent, (&pair.0,), sent),
    ensures
        first == left && second == right && sent == 0,
        pair.0.left && !pair.1.left,
        pair.0.fault is None && pair.1.fault is None,
        !pair.0.sink && !pair.1.sink,
        pair.2.to_left.waiting().len() == 0 && pair.2.to_right.waiting().len() == 0,
        pair.2.to_left.listener() is None && pair.2.to_right.listener() is None,
        pair.2.stray@.len() == 0,
{
}

/// What the left socket sends elsewhere, the right one receives: the next datagram it is given
/// once those before it are gone, from the address it was sent from, cut to the room there is.
pub proof fn law_what_is_sent_is_received(
    sender: &mut TestSocket,
    wire: &mut Wire,
    waker: u64,
    destination: Address,
    datagram: &[u8],
    sent: (Result<Sent, TestSocketError>, Option<u64>),
    receiver: &mut TestSocket,
    after: &mut Wire,
    reader: u64,
    buffer: &mut [u8],
    got: Option<Result<Received, TestSocketError>>,
)
    requires
        call_ensures(TestSocket::poll_send, (sender, wire, waker, destination, datagram), sent),
        old(sender).fault is None && !old(sender).sink && destination != old(sender).address,
        old(sender).sent < usize::MAX,
        *old(after) == *final(wire),
        old(receiver).left != old(sender).left && old(receiver).fault is None,
        old(sender).left ==> old(wire).to_right.waiting().len() == 0,
        !old(sender).left ==> old(wire).to_left.waiting().len() == 0,
        old(buffer)@.len() <= usize::MAX,
        call_ensures(TestSocket::poll_recv, (receiver, after, reader, buffer), got),
    ensures
        sent.0 is Ok && sent.0->Ok_0 is Complete,
        sent.1 == (if old(sender).left {
            old(wire).to_right.listener()
        } else {
            old(wire).to_left.listener()
        }),
        final(sender).sent == old(sender).sent + 1,
        old(sender).left ==> final(wire).to_right.listener() is None,
        !old(sender).left ==> final(wire).to_left.listener() is None,
        got is Some && got->Some_0 is Ok,
        got->Some_0->Ok_0.source == old(sender).address,
        datagram@.len() <= old(buffer)@.len() ==> got->Some_0->Ok_0.len == datagram@.len(),
        datagram@.len() > old(buffer)@.len() ==> got->Some_0->Ok_0.len == old(buffer)@.len(),
        forall|i: int|
            0 <= i < got->Some_0->Ok_0.len ==> #[trigger] final(buffer)@[i] == datagram@[i],
        forall|i: int|
            got->Some_0->Ok_0.len <= i < old(buffer)@.len() ==> #[trigger] final(buffer)@[i]
                == old(buffer)@[i],
        final(after).to_left.waiting() == old(wire).to_left.waiting(),
        final(after).to_right.waiting() == old(wire).to_right.waiting(),
        final(after).stray == old(wire).stray,
{
    assert(final(after).to_left.waiting() =~= old(wire).to_left.waiting());
    assert(final(after).to_right.waiting() =~= old(wire).to_right.waiting());
}

/// A broken socket sends and receives nothing. One told it would block does so once and keeps
/// the datagram to itself. A sink swallows, and what is addressed to its own sender goes astray.
pub proof fn law_faults_do_what_they_say(
    sender: &mut TestSocket,
    wire: &mut Wire,
    waker: u64,
    destination: Address,
    datagram: &[u8],
    sent: (Result<Sent, TestSocketError>, Option<u64>),
)
    requires
        call_ensures(TestSocket::poll_send, (sender, wire, waker, destination, datagram), sent),
        old(sender).sent < usize::MAX,
    ensures
        old(sender).fault == Some(Fault::Broken) ==> sent.0 is Err && sent.1 is None
            && *final(sender) == *old(sender) && *final(wire) == *old(wire),
        old(sender).fault == Some(Fault::SendWouldBlock) ==> {
            &&& sent.0 is Ok && sent.0->Ok_0 is WouldBlock && sent.1 == Some(waker)
            &&& final(sender).fault is None && final(sender).sent == old(sender).sent
            &&& final(sender).address == old(sender).address && final(sender).sink
                == old(sender).sink && final(sender).left == old(sender).left
            &&& *final(wire) == *old(wire)
        },
        old(sender).fault is None ==> {
            &&& sent.0 is Ok && sent.0->Ok_0 is Complete
            &&& final(sender).sent == old(sender).sent + 1 && final(sender).fault is None
            &&& final(sender).address == old(sender).address && final(sender).sink
                == old(sender).sink && final(sender).left == old(sender).left
        },
        old(sender).fault is None && old(sender).sink ==> sent.1 is None && *final(wire)
            == *old(wire),
        old(sender).fault is None && !old(sender).sink && destination == old(sender).address ==> {
            &&& sent.1 is None
            &&& final(wire).to_left == old(wire).to_left && final(wire).to_right
                == old(wire).to_right
            &&& letters(final(wire).stray@) == letters(old(wire).stray@).push(
                (destination, datagram@),
            )
        },
{
}

/// A socket with nothing waiting listens, and one that is broken does not even that. Receiving
/// takes the first that waits and leaves the rest.
pub proof fn law_receiving_takes_the_first(
    receiver: &mut TestSocket,
    wire: &mut Wire,
    waker: u64,
    buffer: &mut [u8],
    got: Option<Result<Received, TestSocketError>>,
)
    requires
        call_ensures(TestSocket::poll_recv, (receiver, wire, waker, buffer), got),
        old(receiver).left,
    ensures
        *final(receiver) == *old(receiver),
        final(wire).to_right == old(wire).to_right && final(wire).stray == old(wire).stray,
        final(buffer)@.len() == old(buffer)@.len(),
        old(receiver).fault == Some(Fault::Broken) ==> got is Some && got->Some_0 is Err
            && *final(wire) == *old(wire),
        old(receiver).fault != Some(Fault::Broken) && old(wire).to_left.waiting().len() == 0 ==> got
            is None && final(wire).to_left.listener() == Some(waker)
                && final(wire).to_left.waiting().len() == 0 && final(buffer)@ == old(buffer)@,
        old(receiver).fault != Some(Fault::Broken) && old(wire).to_left.waiting().len() > 0 ==> {
            &&& got is Some && got->Some_0 is Ok
            &&& got->Some_0->Ok_0.source == old(wire).to_left.waiting()[0].0
            &&& final(wire).to_left.waiting().len() == old(wire).to_left.waiting().len() - 1
            &&& final(wire).to_left.waiting() == old(wire).to_left.waiting().skip(1)
            &&& final(wire).to_left.listener() == old(wire).to_left.listener()
        },
{
}

/// A test may put a datagram in a socket's inbox, take all there is, see what went astray, break
/// the socket and turn it into a sink, and none of these does more.
pub proof fn law_a_test_reaches_the_wire(
    socket: TestSocket,
    wire: &mut Wire,
    source: Address,
    datagram: &[u8],
    woken: Option<u64>,
    draining: &mut Wire,
    taken: VecDeque<(Address, Vec<u8>)>,
    any: Wire,
    copies: Vec<(Address, Vec<u8>)>,
    faulty: &mut TestSocket,
    fault: Fault,
    sinking: &mut TestSocket,
    on: bool,
)
    requires
        socket.left,
        call_ensures(TestSocket::deliver, (&socket, wire, source, datagram), woken),
        call_ensures(TestSocket::drain_inbox, (&socket, draining), taken),
        call_ensures(TestSocket::stray, (&socket, &any), copies),
        call_ensures(TestSocket::inject, (faulty, fault), ()),
        call_ensures(TestSocket::set_sink, (sinking, on), ()),
    ensures
        final(wire).to_left.waiting() == old(wire).to_left.waiting().push((source, datagram@)),
        final(wire).to_left.listener() is None && woken == old(wire).to_left.listener(),
        final(wire).to_right == old(wire).to_right && final(wire).stray == old(wire).stray,
        letters(taken@) == old(draining).to_left.waiting(),
        final(draining).to_left.waiting().len() == 0,
        final(draining).to_left.listener() == old(draining).to_left.listener(),
        final(draining).to_right == old(draining).to_right,
        final(draining).stray == old(draining).stray,
        letters(copies@) == letters(any.stray@),
        *final(faulty) == (TestSocket { fault: Some(fault), ..*old(faulty) }),
        *final(sinking) == (TestSocket { sink: on, ..*old(sinking) }),
{
}

/// The clock starts a second in, reads what it was moved to, counts each timer asked of it, and
/// stops at the last time there is.
pub proof fn law_the_clock_moves_by_hand(
    fresh: TestClock,
    standard: TestClock,
    clock: &mut TestClock,
    nanos: u64,
    woken: Vec<u64>,
    at: TestClock,
    now: Timestamp,
    asked: &mut TestClock,
    deadline: Timestamp,
    sleep: TestSleep,
    count: usize,
)
    requires
        call_ensures(TestClock::new, (), fresh),
        call_ensures(TestClock::default, (), standard),
        call_ensures(TestClock::advance, (clock, nanos), woken),
        at.reading() < u64::MAX,
        call_ensures(<TestClock as Clock>::now, (&at,), now),
        call_ensures(<TestClock as Clock>::sleep_until, (asked, deadline), sleep),
        call_ensures(TestClock::timers_armed, (&at,), count),
    ensures
        fresh.reading() == 1_000_000_000 && fresh.sleeping().len() == 0 && fresh.started() == 0,
        standard.reading() == 1_000_000_000 && standard.sleeping().len() == 0 && standard.started()
            == 0,
        old(clock).reading() + nanos <= u64::MAX ==> final(clock).reading() == old(clock).reading()
            + nanos,
        old(clock).reading() + nanos > u64::MAX ==> final(clock).reading() == u64::MAX,
        final(clock).started() == old(clock).started(),
        now@ == at.reading(),
        count == at.started(),
        sleep.until() == deadline@ && !sleep.enlisted(),
        final(asked).reading() == old(asked).reading(),
        final(asked).sleeping() == old(asked).sleeping(),
        old(asked).started() < usize::MAX ==> final(asked).started() == old(asked).started() + 1,
{
}

/// Moving the clock wakes every sleeper whose deadline came, in the order they fell asleep, and
/// no other: one sleeper more changes what is woken, and what sleeps on, by that sleeper alone.
pub proof fn law_the_clock_wakes_who_is_due(
    none: &mut TestClock,
    nobody: Vec<u64>,
    fewer: &mut TestClock,
    woken: Vec<u64>,
    more: &mut TestClock,
    awake: Vec<u64>,
    nanos: u64,
    deadline: u64,
    waker: u64,
)
    requires
        call_ensures(TestClock::advance, (none, nanos), nobody),
        call_ensures(TestClock::advance, (fewer, nanos), woken),
        call_ensures(TestClock::advance, (more, nanos), awake),
        old(none).sleeping().len() == 0,
        old(fewer).reading() == old(more).reading(),
        old(more).sleeping() == old(fewer).sleeping().push((deadline, waker)),
    ensures
        nobody@.len() == 0 && final(none).sleeping().len() == 0,
        deadline <= final(more).reading() ==> awake@ == woken@.push(waker) && final(more).sleeping()
            == final(fewer).sleeping(),
        deadline > final(more).reading() ==> awake@ == woken@ && final(more).sleeping()
            == final(fewer).sleeping().push((deadline, waker)),
{
    assert(old(more).sleeping().drop_last() =~= old(fewer).sleeping());
}

/// A sleep is over when the clock has reached it. Until then it is enlisted once, with whoever
/// polled it first.
pub proof fn law_a_sleep_is_over_at_its_deadline(
    sleep: &mut TestSleep,
    clock: &mut TestClock,
    waker: u64,
    ready: bool,
)
    requires
        call_ensures(TestSleep::poll, (sleep, clock, waker), ready),
        old(sleep).until() <= u64::MAX,
    ensures
        ready <==> old(clock).reading() >= old(sleep).until(),
        final(sleep).until() == old(sleep).until(),
        final(clock).reading() == old(clock).reading(),
        final(clock).started() == old(clock).started(),
        ready ==> final(clock).sleeping() == old(clock).sleeping() && final(sleep).enlisted()
            == old(sleep).enlisted(),
        !ready ==> final(sleep).enlisted(),
        old(sleep).enlisted() ==> final(clock).sleeping() == old(clock).sleeping(),
        !ready && !old(sleep).enlisted() ==> {
            &&& final(clock).sleeping().len() == old(clock).sleeping().len() + 1
            &&& final(clock).sleeping().drop_last() == old(clock).sleeping()
            &&& final(clock).sleeping().last().0 == old(sleep).until()
            &&& final(clock).sleeping().last().1 == waker
        },
{
    if !ready && !old(sleep).enlisted() {
        assert(final(clock).sleeping().drop_last() =~= old(clock).sleeping());
    }
}

/// Polling until something ends gives what it ended with, and gives up after as many polls as
/// were allowed. A nap ends exactly when the clock, moved between the polls, reaches its deadline
/// in time.
pub proof fn law_polling_ends_in_time(nap: &mut Nap, steps: usize, ended: Option<()>)
    requires
        call_ensures(poll_until::<Nap>, (nap, steps), ended),
    ensures
        ended is Some <==> steps > 0 && old(nap).clock.reading() + (steps - 1) * old(nap).step
            >= old(nap).sleep.until(),
{
    law_a_nap_ends_once_its_deadline_is_reached(*old(nap), steps as nat, ended, *final(nap));
}

/// A nap polls its sleep and moves its clock, by its step, and does nothing else.
pub proof fn law_a_nap_is_a_sleep_and_a_clock(
    nap: &mut Nap,
    answer: Option<()>,
    sleep: &mut TestSleep,
    clock: &mut TestClock,
    ready: bool,
    moving: &mut Nap,
    moved: &mut TestClock,
    woken: Vec<u64>,
)
    requires
        call_ensures(<Nap as Course>::poll, (nap,), answer),
        *old(sleep) == old(nap).sleep && *old(clock) == old(nap).clock,
        call_ensures(TestSleep::poll, (sleep, clock, 0), ready),
        call_ensures(<Nap as Course>::between, (moving,), ()),
        *old(moved) == old(moving).clock,
        call_ensures(TestClock::advance, (moved, old(moving).step), woken),
    ensures
        answer is Some <==> ready,
        final(nap).step == old(nap).step,
        final(nap).sleep.until() == final(sleep).until(),
        final(nap).sleep.enlisted() == final(sleep).enlisted(),
        final(nap).clock.reading() == final(clock).reading(),
        final(nap).clock.sleeping() == final(clock).sleeping(),
        final(nap).clock.started() == final(clock).started(),
        final(moving).step == old(moving).step && final(moving).sleep == old(moving).sleep,
        final(moving).clock.reading() == final(moved).reading(),
        final(moving).clock.sleeping() == final(moved).sleeping(),
        final(moving).clock.started() == final(moved).started(),
{
}

/// A broken test socket says that it was broken on purpose.
pub proof fn law_a_broken_socket_says_so(error: TestSocketError, shown: String)
    requires
        call_ensures(TestSocketError::display_text, (&error,), shown),
    ensures
        shown@ == "the test socket was broken deliberately"@,
{
}

/// Each block the engine got is live until it is freed, and counted for good. A block that moved
/// is the same block; a failure changes nothing.
pub proof fn law_blocks_are_counted(
    fresh: AllocState,
    taking: &mut AllocState,
    got: bool,
    giving: &mut AllocState,
    had: bool,
    moving: &mut AllocState,
    moved: bool,
    kept: bool,
    any: AllocState,
    live: i64,
    total: u64,
)
    requires
        call_ensures(AllocState::default, (), fresh),
        call_ensures(AllocState::allocated, (taking, got), ()),
        call_ensures(AllocState::freed, (giving, had), ()),
        call_ensures(AllocState::reallocated, (moving, kept, moved), ()),
        call_ensures(AllocState::live_blocks, (&any,), live),
        call_ensures(AllocState::total_allocations, (&any,), total),
    ensures
        fresh.live() == 0 && fresh.total() == 0,
        live == any.live() && total == any.total(),
        !got ==> *final(taking) == *old(taking),
        got && old(taking).live() < i64::MAX ==> final(taking).live() == old(taking).live() + 1,
        got && old(taking).total() < u64::MAX ==> final(taking).total() == old(taking).total() + 1,
        !had ==> *final(giving) == *old(giving),
        had && old(giving).live() > i64::MIN ==> final(giving).live() == old(giving).live() - 1,
        final(giving).total() == old(giving).total(),
        kept || !moved ==> *final(moving) == *old(moving),
        !kept && moved && old(moving).live() < i64::MAX ==> final(moving).live()
            == old(moving).live() + 1,
        !kept && moved && old(moving).total() < u64::MAX ==> final(moving).total()
            == old(moving).total() + 1,
{
}

/// A reading is the nanoseconds that passed, as long as a timestamp can hold them, and the last
/// timestamp there is from then on. A clock reads each instant from its own origin.
pub proof fn law_a_reading_is_what_passed(
    elapsed: u128,
    now: Timestamp,
    clock: TokioClock,
    origin: std::time::Instant,
    at: std::time::Instant,
    reads: Timestamp,
    other: TokioClock,
    same: Timestamp,
)
    requires
        call_ensures(reading, (elapsed,), now),
        call_ensures(TokioClock::origin, (&clock,), origin),
        call_ensures(TokioClock::at, (&clock, &at), reads),
        call_ensures(TokioClock::origin, (&other,), origin),
        call_ensures(TokioClock::at, (&other, &at), same),
    ensures
        elapsed < u64::MAX ==> now@ == elapsed,
        elapsed >= u64::MAX ==> now@ == u64::MAX - 1,
        reads@ == same@,
{
}

/// What a queue is said to hold is what it holds, letter by letter.
pub proof fn law_letters_are_what_was_queued(queue: Seq<(Address, Vec<u8>)>, at: int)
    requires
        0 <= at < queue.len(),
    ensures
        letters(queue).len() == queue.len(),
        letters(queue)[at].0 == queue[at].0,
        letters(queue)[at].1 == queue[at].1@,
{
}

} // verus!
