//! Configuration, shared state, routing, address validation, and the in-memory socket and
//! clocks.

use std::collections::VecDeque;

use ngnet_quic::accept::{InitialPacket, InitialToken, VERSION_V1};
use ngnet_quic::cid::ConnectionId;
use ngnet_quic::endpoint::clock::Clock;
use ngnet_quic::endpoint::config::{Config, DEFAULT_DATAGRAMS_PER_PASS};
use ngnet_quic::endpoint::error::{Cause, Error, ErrorKind};
use ngnet_quic::endpoint::routes::Routes;
use ngnet_quic::endpoint::shared::{
    Command, ConnectionShared, Dial, EndpointShared, Observed, Progress, RouteUpdate,
    DATAGRAM_QUEUE,
};
use ngnet_quic::endpoint::socket::Sent;
use ngnet_quic::endpoint::testing::{
    poll_until, socket_pair, Course, Fault, Nap, TestClock, TestSocketError,
};
use ngnet_quic::endpoint::tokio::{reading, TokioClock};
use ngnet_quic::endpoint::validate::{
    conclude, judge, presented, Decision, Validation, Verdict, DEFAULT_RESET_BURST,
    DEFAULT_TOKEN_LIFETIME,
};
use ngnet_quic::error::{ApplicationErrorCode, CloseError, CloseReason};
use ngnet_quic::native;
use ngnet_quic::params::{
    NativeTransportParams, DEFAULT_CONNECTION_DATA, DEFAULT_IDLE_TIMEOUT, DEFAULT_MAX_STREAMS,
    DEFAULT_STREAM_DATA,
};
use ngnet_quic::path::Address;
use ngnet_quic::rand::EntropySource;
use ngnet_quic::settings::NativeSettings;
use ngnet_quic::stream::StreamId;
use ngnet_quic::time::{Duration, Timestamp};
use ngnet_quic::tls::Role;

fn engine_settings() -> NativeSettings {
    NativeSettings {
        initial_ts: 0,
        initial_rtt: 333_000_000,
        max_tx_udp_payload_size: 1452,
        max_window: 0,
        max_stream_window: 0,
        handshake_timeout: u64::MAX,
        initial_pkt_num: 0,
        no_pmtud: false,
        token: Vec::new(),
        token_kind: None,
    }
}

fn engine_params() -> NativeTransportParams {
    NativeTransportParams {
        initial_max_stream_data_bidi_local: 0,
        initial_max_stream_data_bidi_remote: 0,
        initial_max_stream_data_uni: 0,
        initial_max_data: 0,
        initial_max_streams_bidi: 0,
        initial_max_streams_uni: 0,
        max_idle_timeout: 0,
        active_connection_id_limit: 2,
        max_ack_delay: 25_000_000,
        original_dcid: None,
        retry_scid: None,
        initial_scid_present: false,
        stateless_reset_token_present: false,
        preferred_addr_present: false,
    }
}

fn sid(id: i64) -> StreamId {
    StreamId::new(id).unwrap()
}

fn cid(byte: u8) -> ConnectionId {
    ConnectionId::new(&[byte; 8]).unwrap()
}

#[test]
fn a_zero_work_bound_is_raised_to_one() {
    assert_eq!(Config::new().datagrams_per_pass(0).datagrams_per_pass, 1);
    assert_eq!(Config::new().datagrams_per_pass(9).datagrams_per_pass, 9);
}

#[test]
fn the_defaults_match_the_cores_own() {
    let config = Config::new();
    assert_eq!(config.initial_max_stream_data, DEFAULT_STREAM_DATA);
    assert_eq!(config.initial_max_data, DEFAULT_CONNECTION_DATA);
    assert_eq!(config.max_streams_bidi, DEFAULT_MAX_STREAMS);
    assert_eq!(config.max_idle_timeout.as_nanos(), DEFAULT_IDLE_TIMEOUT);
    assert_eq!(config.datagrams_per_pass, DEFAULT_DATAGRAMS_PER_PASS);
}

#[test]
fn every_field_reaches_the_core() {
    let config = Config::new()
        .initial_max_stream_data(1234)
        .initial_max_data(5678)
        .max_streams_bidi(7)
        .max_streams_uni(9)
        .max_idle_timeout(Duration::from_nanos(1_000_000));
    let params = config.transport_params(engine_params()).build(false).unwrap();
    assert_eq!(params.initial_max_stream_data_bidi_local, 1234);
    assert_eq!(params.initial_max_stream_data_bidi_remote, 1234);
    assert_eq!(params.initial_max_stream_data_uni, 1234);
    assert_eq!(params.initial_max_data, 5678);
    assert_eq!(params.initial_max_streams_bidi, 7);
    assert_eq!(params.initial_max_streams_uni, 9);
    assert_eq!(params.max_idle_timeout, 1_000_000);
}

#[test]
fn an_unset_timing_field_leaves_the_cores_default_alone() {
    let now = Timestamp::from_nanos(1).unwrap();
    let default = Config::new().settings(now, engine_settings()).build().unwrap();
    assert!(default.initial_rtt != 0);

    let set = Config::new()
        .initial_rtt(Duration::from_nanos(5_000_000))
        .settings(now, engine_settings())
        .build()
        .unwrap();
    assert_eq!(set.initial_rtt, 5_000_000);

    let bounded = Config::new()
        .handshake_timeout(Duration::from_nanos(77))
        .settings(now, engine_settings())
        .build()
        .unwrap();
    assert_eq!(bounded.handshake_timeout, 77);
}

fn client() -> (ConnectionShared, EndpointShared) {
    (ConnectionShared::new(Role::Client), EndpointShared::new())
}

#[test]
fn the_first_failure_is_the_one_reported() {
    let (mut shared, _) = client();
    shared.fail(Error::new(ErrorKind::HandshakeRejected, "first"));
    shared.fail(Error::new(ErrorKind::DriverGone, "second"));
    assert_eq!(shared.failure().kind(), ErrorKind::HandshakeRejected);
    assert!(shared.is_closed());
}

#[test]
fn an_idle_close_is_reported_as_a_timeout_rather_than_a_peer_close() {
    let (mut shared, _) = client();
    shared.fail_with_close(CloseError::idle());
    assert_eq!(shared.failure().kind(), ErrorKind::IdleTimeout);

    let (mut shared, _) = client();
    let close =
        CloseError::new(CloseReason::Application(ApplicationErrorCode::new(9)), b"bye".to_vec());
    shared.fail_with_close(close);
    assert_eq!(shared.failure().kind(), ErrorKind::PeerClosed);
    assert_eq!(shared.failure().close_error().unwrap().phrase(), b"bye");
}

#[test]
fn commands_are_taken_in_order() {
    let (mut shared, mut endpoint) = client();
    shared.push(&mut endpoint, Command::Reset(sid(0), ApplicationErrorCode::new(1)));
    shared.push(&mut endpoint, Command::Reset(sid(4), ApplicationErrorCode::new(2)));
    let taken = shared.take_commands();
    assert_eq!(taken.len(), 2);
    assert!(matches!(taken[0], Command::Reset(stream, _) if stream.get() == 0));
    assert!(matches!(taken[1], Command::Reset(stream, _) if stream.get() == 4));
    assert!(shared.take_commands().is_empty(), "commands were taken twice");
}

#[test]
fn a_waker_is_registered_once() {
    let (mut shared, _) = client();
    shared.register(1);
    shared.register(1);
    assert_eq!(shared.waiting(), 1, "the same waker was stored twice");

    shared.register(2);
    assert_eq!(shared.waiting(), 2);

    assert_eq!(shared.wake_all(), [1, 2]);
    assert_eq!(shared.waiting(), 0);
}

#[test]
fn removing_from_a_full_outbound_queue_wakes_one_capacity_retry() {
    let (mut shared, mut endpoint) = client();
    for byte in 0..DATAGRAM_QUEUE {
        shared.queue_outbound(&mut endpoint, vec![byte as u8]);
    }
    assert!(!shared.outbound_has_room(), "the seam must sustain a full queue");

    assert!(!shared.outbound_ready_or_register(3));
    assert!(!shared.outbound_ready_or_register(3));
    assert_eq!(shared.capacity_waiting(), 1, "one parked producer must have one registration");

    assert_eq!(
        shared.take_outbound(),
        (Some(vec![0]), vec![3]),
        "the full-to-available transition must enable exactly one retry"
    );
    assert_eq!(shared.capacity_waiting(), 0);

    assert_eq!(
        shared.take_outbound(),
        (Some(vec![1]), vec![]),
        "removal while already available must not enable another retry"
    );
    assert_eq!(shared.outbound_len(), DATAGRAM_QUEUE - 2);
    assert_eq!(shared.dropped_inbound(), 0, "the quiesced inbound side did not drop");
}

#[test]
fn capacity_restored_before_registration_is_observed_without_a_lost_wake() {
    let (mut shared, mut endpoint) = client();
    for _ in 0..DATAGRAM_QUEUE {
        shared.queue_outbound(&mut endpoint, vec![0]);
    }
    assert!(!shared.outbound_has_room(), "the producer's earlier observation sees full");

    assert!(shared.take_outbound().0.is_some());

    assert!(
        shared.outbound_ready_or_register(8),
        "the atomic recheck must let the producer retry immediately"
    );
    assert_eq!(shared.capacity_waiting(), 0, "a ready producer must not leave a registration");
}

#[test]
fn inbound_datagrams_past_the_bound_are_dropped_and_counted() {
    let (mut shared, _) = client();
    shared.register(5);
    assert_eq!(shared.deliver_inbound(vec![0]), (true, vec![5]));
    for _ in 1..DATAGRAM_QUEUE {
        shared.deliver_inbound(vec![1]);
    }
    assert_eq!(shared.deliver_inbound(vec![2]), (false, vec![]));
    assert_eq!(shared.inbound_len(), DATAGRAM_QUEUE);
    assert_eq!(shared.dropped_inbound(), 1);
    assert_eq!(shared.take_inbound(), Some(vec![0]));
}

#[test]
fn what_the_driver_must_act_on_wakes_it_once() {
    let (mut shared, mut endpoint) = client();
    endpoint.register_driver(11);
    assert_eq!(shared.push(&mut endpoint, Command::OpenStream { bidi: true }), Some(11));
    assert_eq!(shared.push(&mut endpoint, Command::OpenStream { bidi: true }), None);
    endpoint.register_driver(11);
    assert_eq!(shared.queue_outbound(&mut endpoint, vec![1]), Some(11));
    endpoint.register_driver(11);
    assert_eq!(shared.observe_route(&mut endpoint, RouteUpdate::Minted(cid(1))), Some(11));
    endpoint.register_driver(11);
    assert_eq!(shared.mark_terminal(&mut endpoint), Some(11));
    assert!(shared.is_terminal());
}

#[test]
fn a_detachment_remembers_whom_it_is_for() {
    let (mut shared, _) = client();
    assert!(!shared.wants_detach());
    shared.request_detach();
    assert!(shared.wants_detach() && !shared.detaches_to_acceptor());
    let (mut shared, _) = client();
    shared.request_detach_to_acceptor();
    assert!(shared.wants_detach() && shared.detaches_to_acceptor());
}

#[test]
fn the_first_established_connection_is_accepted_and_the_rest_wait() {
    let mut endpoint = EndpointShared::new();
    endpoint.register(1);
    assert_eq!(endpoint.push_accepted(7), [1]);
    endpoint.push_accepted(8);
    endpoint.push_accepted(9);
    let waiting = Progress { established: false, closed: false };
    let ready = Progress { established: true, closed: false };
    assert!(!EndpointShared::accept_is_due(&[waiting, waiting, waiting]));
    assert!(EndpointShared::accept_is_due(&[waiting, ready, waiting]));
    assert_eq!(endpoint.take_ready(&[waiting, ready, waiting]), Some(8));
    assert_eq!(endpoint.accepted(), &VecDeque::from([7, 9]), "in arrival order");
    let failed = Progress { established: false, closed: true };
    assert!(EndpointShared::accept_is_due(&[failed, waiting]));
    assert_eq!(endpoint.take_ready(&[failed, waiting]), None);
    assert_eq!(endpoint.accepted(), &VecDeque::from([9]), "a failed connection is forgotten");
}

#[test]
fn dials_are_taken_once_and_a_gone_driver_wakes_everyone() {
    let mut endpoint = EndpointShared::new();
    endpoint.register_driver(3);
    let remote = Address::V4 { octets: [127, 0, 0, 1], port: 9 };
    assert_eq!(endpoint.dial(Dial { remote, server_name: None, shared: 1 }), Some(3));
    assert_eq!(endpoint.take_dials().len(), 1);
    assert!(endpoint.take_dials().is_empty());
    endpoint.register(4);
    endpoint.register(4);
    assert_eq!(endpoint.mark_gone(), [4]);
    assert!(endpoint.is_gone());
}

#[test]
fn every_failure_says_whether_trying_again_could_help() {
    assert!(ErrorKind::IdleTimeout.is_retriable());
    assert!(!ErrorKind::InvalidInput.is_retriable());
    assert!(!ErrorKind::StreamReset.is_retriable());
}

#[test]
fn a_failure_carries_its_cause_and_its_words() {
    let core = ngnet_quic::error::Error::native(native::ERR_PROTO, "could not read a packet");
    let error = Error::from(core);
    assert_eq!(error.kind(), ErrorKind::Transport);
    assert!(matches!(error.source(), Some(Cause::Transport(_))));
    let error = Error::socket("the socket failed", "no route".to_string());
    assert!(matches!(error.source(), Some(Cause::Socket(words)) if words.0 == "no route"));
    let error = Error::new(ErrorKind::StreamReset, "reset")
        .with_stream_code(ApplicationErrorCode::new(4));
    assert_eq!(error.stream_code().unwrap().get(), 4);
    assert!(error.display_text("").contains("reset"));
}

#[test]
fn routes_follow_a_connections_identifiers() {
    let mut routes = Routes::new();
    routes.install(&vec![cid(1), cid(2)], 5);
    assert_eq!(routes.get(&[1; 8]), Some(5));
    routes.apply(
        VecDeque::from([RouteUpdate::Minted(cid(3)), RouteUpdate::Retired(cid(1))]),
        5,
    );
    assert_eq!(routes.get(&[1; 8]), None);
    assert_eq!(routes.get(&[3; 8]), Some(5));
    routes.insert(cid(4), 6);
    routes.release(5);
    assert_eq!(routes.get(&[2; 8]), None);
    assert_eq!(routes.get(&[4; 8]), Some(6));
    routes.remove(&[4; 8]);
    assert_eq!(routes.get(&[4; 8]), None);
}

fn addrs() -> (Address, Address) {
    (
        Address::V4 { octets: [127, 0, 0, 1], port: 1 },
        Address::V4 { octets: [127, 0, 0, 1], port: 2 },
    )
}

#[test]
fn a_datagram_sent_to_the_peer_arrives() {
    let (left, right) = addrs();
    let (mut a, mut b, mut wire) = socket_pair(left, right);
    let mut buffer = [0u8; 64];
    assert!(b.poll_recv(&mut wire, 9, &mut buffer).is_none());
    let (sent, woken) = a.poll_send(&mut wire, 1, right, b"hello");
    assert_eq!(sent.unwrap(), Sent::Complete);
    assert_eq!(woken, Some(9), "the listener is woken");
    let received = b.poll_recv(&mut wire, 9, &mut buffer).unwrap().unwrap();
    assert_eq!(&buffer[..received.len], b"hello");
    assert_eq!(received.source, left);
}

#[test]
fn an_injected_would_block_reports_itself_once() {
    let (left, right) = addrs();
    let (mut a, _b, mut wire) = socket_pair(left, right);
    a.inject(Fault::SendWouldBlock);
    let (first, _) = a.poll_send(&mut wire, 1, right, b"x");
    assert_eq!(first.unwrap(), Sent::WouldBlock);
    assert_eq!(a.sent(), 0, "a would-blocked datagram was not sent");

    let (second, _) = a.poll_send(&mut wire, 1, right, b"x");
    assert_eq!(second.unwrap(), Sent::Complete);
    assert_eq!(a.sent(), 1);
}

#[test]
fn a_broken_socket_fails_every_operation() {
    let (left, right) = addrs();
    let (mut a, _b, mut wire) = socket_pair(left, right);
    a.inject(Fault::Broken);
    let mut buffer = [0u8; 8];
    assert!(a.poll_recv(&mut wire, 1, &mut buffer).unwrap().is_err());
    assert!(a.poll_send(&mut wire, 1, right, b"x").0.is_err());
    assert_eq!(TestSocketError.display_text(), "the test socket was broken deliberately");
}

#[test]
fn a_long_datagram_is_cut_to_the_buffer() {
    let (left, right) = addrs();
    let (a, mut b, mut wire) = socket_pair(left, right);
    b.deliver(&mut wire, left, b"0123456789");
    let mut buffer = [0u8; 4];
    assert_eq!(b.poll_recv(&mut wire, 1, &mut buffer).unwrap().unwrap().len, 4);
    assert_eq!(&buffer, b"0123");
    a.deliver(&mut wire, right, b"one");
    assert_eq!(a.drain_inbox(&mut wire), VecDeque::from([(right, b"one".to_vec())]));
    assert!(a.drain_inbox(&mut wire).is_empty());
}

#[test]
fn the_clock_only_moves_when_told_to() {
    let mut clock = TestClock::new();
    let start = clock.now().as_nanos();
    assert_eq!(clock.now().as_nanos(), start, "time passed on its own");
    clock.advance(5);
    assert_eq!(clock.now().as_nanos(), start + 5);
}

#[test]
fn a_sleep_resolves_only_once_its_deadline_is_reached() {
    let mut clock = TestClock::new();
    let deadline = Timestamp::from_nanos(clock.now().as_nanos() + 100).unwrap();

    let sleep = clock.sleep_until(deadline);
    let mut nap = Nap { sleep, clock, step: 0 };
    assert!(poll_until(&mut nap, 4).is_none(), "a sleep resolved too early");

    let mut clock = nap.clock;
    let sleep = clock.sleep_until(deadline);
    let mut nap = Nap { sleep, clock, step: 50 };
    assert!(poll_until(&mut nap, 8).is_some(), "a sleep never resolved");
}

#[test]
fn a_deadline_already_past_resolves_at_once() {
    let mut clock = TestClock::new();
    let past = Timestamp::from_nanos(1).unwrap();
    let sleep = clock.sleep_until(past);
    assert!(poll_until(&mut Nap { sleep, clock, step: 0 }, 2).is_some());
}

/// Comes to the number of polls it took.
struct Countdown {
    left: u32,
    polls: u32,
    between: u32,
}

impl Course for Countdown {
    type Output = u32;

    fn poll(&mut self) -> Option<u32> {
        self.polls += 1;
        if self.left == 0 {
            Some(self.polls)
        } else {
            None
        }
    }

    fn between(&mut self) {
        self.left -= 1;
        self.between += 1;
    }
}

#[test]
fn anything_can_be_polled_until_it_is_over_or_the_bound_is_reached() {
    let mut course = Countdown { left: 3, polls: 0, between: 0 };
    assert_eq!(poll_until(&mut course, 3), None);
    assert_eq!((course.polls, course.between), (3, 3));
    assert_eq!(poll_until(&mut course, 1), Some(4));
    assert_eq!(course.between, 3, "nothing is done after the last poll");
    assert_eq!(poll_until(&mut course, 0), None);
}

#[test]
fn a_nap_whose_deadline_is_past_ends_however_far_the_clock_would_be_moved() {
    let mut clock = TestClock::new();
    let past = Timestamp::from_nanos(1).unwrap();
    let sleep = clock.sleep_until(past);
    let mut nap = Nap { sleep, clock, step: u64::MAX };
    assert!(poll_until(&mut nap, usize::MAX).is_some());
    assert_eq!(nap.clock.now().as_nanos(), 1_000_000_000);
}

#[test]
fn a_datagram_nobody_can_receive_is_kept_and_a_sink_keeps_nothing() {
    let (left, right) = addrs();
    let (mut a, b, mut wire) = socket_pair(left, right);
    assert_eq!(a.poll_send(&mut wire, 1, left, b"self").0.unwrap(), Sent::Complete);
    assert_eq!(a.stray(&wire), [(left, b"self".to_vec())]);
    a.set_sink(true);
    assert_eq!(a.poll_send(&mut wire, 1, right, b"gone").0.unwrap(), Sent::Complete);
    assert!(b.drain_inbox(&mut wire).is_empty());
    assert_eq!(a.sent(), 2);
    assert_eq!(a.local_addr(), left);
}

#[test]
fn the_test_socket_is_deliberately_not_send() {
    fn assert_not_required<T>(_: &T) {}
    let (left, right) = addrs();
    let (a, _b, _wire) = socket_pair(left, right);
    assert_not_required(&a);
}

#[test]
fn advancing_wakes_exactly_the_sleeps_that_are_due() {
    let mut clock = TestClock::new();
    let start = clock.now().as_nanos();
    let mut near = clock.sleep_until(Timestamp::from_nanos(start + 10).unwrap());
    let mut far = clock.sleep_until(Timestamp::from_nanos(start + 100).unwrap());
    assert!(!near.poll(&mut clock, 1));
    assert!(!far.poll(&mut clock, 2));
    assert_eq!(clock.timers_armed(), 2);
    assert_eq!(clock.advance(10), [1]);
    assert!(near.poll(&mut clock, 1));
    assert!(!far.poll(&mut clock, 2));
}

#[test]
fn a_clocks_first_reading_is_near_its_origin() {
    let clock = TokioClock::new();
    assert!(clock.now().as_nanos() < 1_000_000_000);
}

#[test]
fn a_clocks_readings_do_not_go_backwards() {
    let clock = TokioClock::new();
    let first = clock.now().as_nanos();
    let second = clock.now().as_nanos();
    assert!(second >= first, "the clock went backwards");
}

#[test]
fn clones_share_an_origin() {
    let clock = TokioClock::new();
    let clone = clock.clone();
    assert_eq!(clone.origin(), clock.origin());
    let a = clock.now().as_nanos();
    let b = clone.now().as_nanos();
    assert!(b.abs_diff(a) < 1_000_000_000);
}

#[test]
fn a_clock_reads_the_nanoseconds_since_its_origin() {
    let clock = TokioClock::default();
    let later = clock.origin() + std::time::Duration::new(2, 7);
    assert_eq!(clock.at(&clock.origin()).as_nanos(), 0);
    assert_eq!(clock.at(&later).as_nanos(), 2_000_000_007);
}

#[test]
fn a_reading_saturates_below_the_reserved_value() {
    assert_eq!(reading(0).as_nanos(), 0);
    assert_eq!(reading(123).as_nanos(), 123);
    assert_eq!(reading(u64::MAX as u128).as_nanos(), u64::MAX - 1);
    assert_eq!(reading(u128::MAX).as_nanos(), u64::MAX - 1);
}

struct Counter(u64);

impl EntropySource for Counter {
    fn fill(&mut self, out: &mut [u8]) -> Result<(), ngnet_quic::error::Error> {
        for byte in out.iter_mut() {
            self.0 = self.0.wrapping_add(1);
            *byte = self.0 as u8;
        }
        Ok(())
    }
}

fn packet(token: InitialToken) -> InitialPacket {
    InitialPacket { version: VERSION_V1, dcid: cid(1), scid: cid(2), token }
}

fn now() -> Timestamp {
    Timestamp::from_nanos(1_000_000_000).unwrap()
}

fn remote() -> Address {
    Address::V4 { octets: [127, 0, 0, 1], port: 4433 }
}

fn validation() -> Validation<[u8; 32]> {
    Validation::new([0x11; 32])
}

/// A token that names the address it was issued to, the identifier it is to be presented
/// from, and the one the client first addressed.
fn issue(from: Address, scid: &ConnectionId, original: &ConnectionId) -> Vec<u8> {
    let mut token = format!("{from:?}").into_bytes();
    token.extend_from_slice(scid.as_bytes());
    token.extend_from_slice(original.as_bytes());
    token
}

fn verify(token: &[u8], from: Address, dcid: &ConnectionId) -> Option<ConnectionId> {
    let (rest, original) = token.split_at_checked(token.len().checked_sub(8)?)?;
    let original = ConnectionId::new(original).ok()?;
    let honest = issue(from, dcid, &cid(1));
    if rest == &honest[..honest.len() - 8] && original.as_bytes() == [1; 8] {
        Some(original)
    } else {
        None
    }
}

fn decide(
    policy: &Validation<[u8; 32]>,
    packet: &InitialPacket,
    from: Address,
    entropy: &mut Counter,
) -> Decision {
    let verified = presented(packet).and_then(|token| verify(token, from, &packet.dcid));
    let verdict = policy.decide(packet, verified, entropy);
    let issued = match &verdict {
        Verdict::Issue(scid) => Ok(issue(from, scid, &packet.dcid)),
        _ => Ok(Vec::new()),
    };
    conclude(verdict, issued)
}

fn retried(scid: ConnectionId, token: Vec<u8>) -> InitialPacket {
    InitialPacket { version: VERSION_V1, dcid: scid, scid: cid(2), token: InitialToken::Retry(token) }
}

#[test]
fn a_first_packet_with_no_token_draws_a_retry() {
    let policy = validation();
    let mut entropy = Counter(0);
    match decide(&policy, &packet(InitialToken::Absent), remote(), &mut entropy) {
        Decision::Retry { token, .. } => assert!(!token.is_empty()),
        other => panic!("expected a Retry, got {other:?}"),
    }
}

#[test]
fn a_retried_packet_carrying_its_token_is_accepted() {
    let policy = validation();
    let mut entropy = Counter(0);
    let Decision::Retry { scid, token } =
        decide(&policy, &packet(InitialToken::Absent), remote(), &mut entropy)
    else {
        panic!("expected a Retry");
    };
    match decide(&policy, &retried(scid, token), remote(), &mut entropy) {
        Decision::Accept(original) => assert_eq!(original, cid(1)),
        other => panic!("expected an accept, got {other:?}"),
    }
}

#[test]
fn a_token_replayed_from_another_address_draws_another_retry() {
    let policy = validation();
    let mut entropy = Counter(0);
    let Decision::Retry { scid, token } =
        decide(&policy, &packet(InitialToken::Absent), remote(), &mut entropy)
    else {
        panic!("expected a Retry");
    };
    let elsewhere = Address::V4 { octets: [127, 0, 0, 2], port: 9999 };
    match decide(&policy, &retried(scid, token), elsewhere, &mut entropy) {
        Decision::Retry { .. } => {}
        other => panic!("a token from another address was accepted: {other:?}"),
    }
}

#[test]
fn a_tampered_token_draws_another_retry_rather_than_an_error() {
    let policy = validation();
    let mut entropy = Counter(0);
    let Decision::Retry { scid, mut token } =
        decide(&policy, &packet(InitialToken::Absent), remote(), &mut entropy)
    else {
        panic!("expected a Retry");
    };
    let last = token.len() - 1;
    token[last] ^= 0xff;
    assert!(matches!(
        decide(&policy, &retried(scid, token), remote(), &mut entropy),
        Decision::Retry { .. }
    ));
}

#[test]
fn the_reset_budget_runs_out_and_then_refills() {
    let mut policy = validation();
    policy.reset_burst(3);

    assert!(policy.take_reset_budget(now()));
    assert!(policy.take_reset_budget(now()));
    assert!(policy.take_reset_budget(now()));
    assert!(
        !policy.take_reset_budget(now()),
        "the budget did not run out, so a flood would be answered without limit"
    );

    let later = Timestamp::from_nanos(now().as_nanos() + 2_000_000_000).unwrap();
    assert!(
        policy.take_reset_budget(later),
        "the budget never refilled, so one burst would silence the endpoint for good"
    );
}

#[test]
fn deciding_creates_no_state() {
    let policy = validation();
    let mut entropy = Counter(0);
    for _ in 0..1000 {
        let _ = decide(&policy, &packet(InitialToken::Absent), remote(), &mut entropy);
    }
    assert_eq!(policy.reset_budget, DEFAULT_RESET_BURST);
    assert_eq!(policy.lifetime.as_nanos(), DEFAULT_TOKEN_LIFETIME);
    assert_eq!(policy.secret(), &[0x11; 32]);
}

#[test]
fn without_an_identifier_or_a_token_a_packet_is_ignored() {
    let failed = || ngnet_quic::error::Error::invalid_input("no entropy");
    let verdict = judge(&packet(InitialToken::Absent), None, Err(failed()));
    assert!(matches!(verdict, Verdict::Ignore));
    let verdict = judge(&packet(InitialToken::Absent), None, Ok(cid(3)));
    assert!(matches!(conclude(verdict, Err(failed())), Decision::Ignore));
    let verdict = judge(&packet(InitialToken::Other(vec![1])), Some(cid(1)), Ok(cid(3)));
    assert!(matches!(verdict, Verdict::Issue(scid) if scid == cid(3)));
}

#[test]
fn what_a_handler_saw_is_kept_in_order() {
    let (mut shared, _) = client();
    shared.observe(Observed::Opened(sid(0)));
    shared.observe(Observed::HandshakeCompleted);
    assert!(matches!(shared.remove_observed(0), Observed::Opened(stream) if stream.get() == 0));
    let rest = shared.take_observed();
    assert!(matches!(rest[..], [Observed::HandshakeCompleted]));
    assert!(shared.observed().is_empty());
}
