//! The driver's decisions: routing, reading, writing, flushing, evicting, and what handles ask
//! of it.

use std::collections::VecDeque;

use ngnet_quic::accept::{DecodedHeader, InitialPacket, InitialToken, VERSION_V1};
use ngnet_quic::cid::ConnectionId;
use ngnet_quic::endpoint::config::Config;
use ngnet_quic::endpoint::connection::{Connection, OpenStream};
use ngnet_quic::endpoint::driver::{
    engine_calls, take_note, Delivery, EngineCall, FlushTask, Inner, Next, Notice,
    Produced, Rearm, Report, Write, WritePlan, Wrote,
};
use ngnet_quic::endpoint::error::{Error, ErrorKind};
use ngnet_quic::endpoint::handle::{
    accept_detached, accepting, adopt_accepted, another_pass, answer_reset, answer_unmatched,
    answer_written, begin, connect, connect_detached, connecting, detaching, detaching_any,
    dial_dropped, dispatch, driver_dropped, prepare_accepted, service, socket_died, Arrival,
    Begin, DetachQueue, Dispatch, EndpointBuilder, ReadPass, ServiceTask, PASSES_PER_POLL,
    SHORTEST_ANSWERABLE,
};
use ngnet_quic::endpoint::opening::{accept, dial, Surroundings};
use ngnet_quic::endpoint::shared::{
    Command, ConnectionShared, EndpointShared, Observed, Progress, RouteUpdate, DATAGRAM_QUEUE,
};
use ngnet_quic::endpoint::socket::{Offer, Received, Sent};
use ngnet_quic::endpoint::validate::{Decision, Validation};
use ngnet_quic::error::{ApplicationErrorCode, CloseError, CloseReason};
use ngnet_quic::native;
use ngnet_quic::packet::{ExpiryOutcome, ReadOutcome, WriteOutcome};
use ngnet_quic::params::NativeTransportParams;
use ngnet_quic::path::Address;
use ngnet_quic::rand::CountingEntropy;
use ngnet_quic::settings::{NativeSettings, TokenKind};
use ngnet_quic::stream::StreamId;
use ngnet_quic::stream_io::StreamWrite;
use ngnet_quic::time::{Duration, Timestamp};
use ngnet_quic::tls::{
    Backend, CryptoError, Direction, DirectionalKeys, Handshaking, HeaderKey, InitialKeys, Level,
    PacketKey, Role, RotatedKeys, Session, SessionEvent, HP_MASK_LEN,
};

fn sid(id: i64) -> StreamId {
    StreamId::new(id).unwrap()
}

fn cid(byte: u8) -> ConnectionId {
    ConnectionId::new(&[byte; 8]).unwrap()
}

fn code(code: u64) -> ApplicationErrorCode {
    ApplicationErrorCode::new(code)
}

fn at(nanos: u64) -> Timestamp {
    Timestamp::from_nanos(nanos).unwrap()
}

fn peer() -> Address {
    Address::V4 { octets: [192, 0, 2, 1], port: 4433 }
}

fn core_error() -> ngnet_quic::error::Error {
    ngnet_quic::error::Error::native(native::ERR_PROTO, "could not read a packet")
}

fn blocked() -> ngnet_quic::error::Error {
    ngnet_quic::error::Error::native(native::ERR_STREAM_ID_BLOCKED, "no stream credit")
}

fn closed_by_peer() -> CloseError {
    CloseError::new(CloseReason::Application(code(3)), b"enough".to_vec())
}

fn header(dcid: &[u8], version: u32) -> DecodedHeader {
    DecodedHeader { rc: 0, version, dcid: dcid.to_vec(), scid: vec![9; 8] }
}

/// A driver of one connection, reachable at one identifier.
fn one_connection(detachable: bool) -> (Inner, u64, ConnectionShared, EndpointShared) {
    let mut inner = Inner::new(true, detachable);
    let index = inner.adopt(peer(), 5);
    inner.install_routes(index, &vec![cid(1)], cid(2));
    (inner, index, ConnectionShared::new(Role::Client), EndpointShared::new())
}

/// One connection that has been handed to its caller.
fn detached_connection() -> (Inner, u64, ConnectionShared, EndpointShared) {
    let (mut inner, index, mut shared, endpoint) = one_connection(true);
    shared.request_detach();
    shared.observe(Observed::HandshakeCompleted);
    assert_eq!(inner.absorb(index, 0, &mut shared).handed, Some(5));
    shared.take_observed();
    (inner, index, shared, endpoint)
}

fn write(data: &[u8], fin: bool) -> Write {
    Write { stream: sid(0), data: data.to_vec(), fin }
}

#[test]
fn a_datagram_is_routed_by_its_destination() {
    let (inner, index, ..) = one_connection(false);
    assert_eq!(inner.route(&header(&[1; 8], 1)), Some(index));
    assert_eq!(inner.route(&header(&[2; 8], 1)), Some(index));
    assert_eq!(inner.route(&header(&[7; 8], 1)), None);
}

#[test]
fn a_new_connection_never_reuses_an_index() {
    let (mut inner, first, ..) = one_connection(false);
    let second = inner.adopt(peer(), 6);
    assert_ne!(first, second);
    assert!(inner.tracks(first) && inner.drives(second));
    assert_eq!(inner.indices().len(), 2);
}

#[test]
fn only_an_attached_connection_is_read_here() {
    let (inner, index, mut shared, _) = one_connection(false);
    assert!(matches!(inner.deliver(index, b"x", &mut shared), Delivery::Read));
    assert!(matches!(inner.deliver(99, b"x", &mut shared), Delivery::Unknown));
    assert_eq!(shared.inbound_len(), 0);

    let (inner, index, mut shared, _) = detached_connection();
    shared.register(4);
    match inner.deliver(index, b"x", &mut shared) {
        Delivery::Queued(kept, woken) => assert_eq!((kept, woken), (true, vec![4])),
        other => panic!("expected a queued datagram, got {other:?}"),
    }
    assert_eq!(shared.take_inbound(), Some(b"x".to_vec()));
    assert!(!inner.drives(index) && inner.tracks(index));
}

#[test]
fn a_completed_handshake_establishes_the_connection_and_wakes_everyone_once() {
    let (mut inner, index, mut shared, _) = one_connection(false);
    shared.register(1);
    shared.register(2);
    shared.observe(Observed::HandshakeCompleted);
    let absorbed = inner.absorb(index, 77, &mut shared);
    assert_eq!(absorbed.woken, [1, 2]);
    assert_eq!(absorbed.handed, None);
    assert!(shared.is_established());
    assert_eq!(shared.retained_bytes(), 77);
}

#[test]
fn an_accepted_connection_is_handed_over_under_the_reserved_key() {
    let (mut inner, index, mut shared, mut endpoint) = one_connection(true);
    assert_eq!(accept_detached(&mut endpoint), None);
    prepare_accepted(&mut shared, &endpoint);
    shared.observe(Observed::HandshakeCompleted);
    assert_eq!(inner.absorb(index, 0, &mut shared).handed, Some(0));
}

#[test]
fn an_endpoint_that_cannot_detach_says_so() {
    let (mut inner, index, mut shared, _) = one_connection(false);
    shared.request_detach();
    shared.observe(Observed::HandshakeCompleted);
    assert_eq!(inner.absorb(index, 0, &mut shared).handed, None);
    assert_eq!(shared.failure().kind(), ErrorKind::InvalidInput);
    assert!(inner.drives(index));
}

#[test]
fn a_peer_that_closes_is_quoted_and_a_broken_connection_is_finished() {
    let (mut inner, index, mut shared, _) = one_connection(false);
    shared.register(6);
    let result =
        inner.read(index, Ok(ReadOutcome::Draining), closed_by_peer(), 0, &mut shared);
    assert_eq!(result.woken, [6]);
    assert_eq!(shared.failure().kind(), ErrorKind::PeerClosed);
    assert_eq!(shared.failure().close_error().unwrap().phrase(), b"enough");

    let (mut inner, index, mut shared, _) = one_connection(false);
    inner.read(index, Err(core_error()), closed_by_peer(), 0, &mut shared);
    assert_eq!(shared.failure().kind(), ErrorKind::Transport);

    let (mut inner, index, mut shared, _) = one_connection(false);
    inner.read(index, Ok(ReadOutcome::Processed), closed_by_peer(), 0, &mut shared);
    assert!(!shared.is_closed());
}

#[test]
fn identifier_changes_reach_the_routing_table() {
    let (mut inner, index, mut shared, mut endpoint) = one_connection(false);
    shared.observe_route(&mut endpoint, RouteUpdate::Minted(cid(3)));
    shared.observe_route(&mut endpoint, RouteUpdate::Retired(cid(1)));
    inner.apply_routes(index, &mut shared);
    assert_eq!(inner.route(&header(&[3; 8], 1)), Some(index));
    assert_eq!(inner.route(&header(&[1; 8], 1)), None);
    assert_eq!(shared.take_routes().len(), 0);
}

#[test]
fn consumed_bytes_give_credit_back_at_both_levels() {
    let calls = engine_calls(&Command::ExtendCredit { stream: sid(0), bytes: 10 });
    assert!(matches!(
        calls[..],
        [EngineCall::ExtendStream(_, 10), EngineCall::ExtendConnection(10)]
    ));
    assert!(engine_calls(&Command::Close(code(0), vec![])).is_empty());
    assert!(matches!(
        engine_calls(&Command::OpenStream { bidi: false })[..],
        [EngineCall::OpenStream(false)]
    ));
}

#[test]
fn running_out_of_stream_credit_waits_rather_than_failing() {
    let (mut inner, index, mut shared, mut endpoint) = one_connection(false);
    endpoint.register_driver(8);
    let wakes = inner.stream_opened(index, true, Err(blocked()), &mut shared, &mut endpoint);
    assert_eq!(wakes.driver, Some(8));
    assert!(matches!(shared.take_commands()[0], Command::OpenStream { bidi: true }));
    assert!(!shared.is_closed());

    let wakes = inner.stream_opened(index, true, Ok(sid(0)), &mut shared, &mut endpoint);
    assert!(wakes.driver.is_none());
    assert!(matches!(shared.observed()[0], Observed::LocallyOpened(_)));

    inner.stream_opened(index, true, Err(core_error()), &mut shared, &mut endpoint);
    assert_eq!(shared.failure().kind(), ErrorKind::Transport);
    inner.evict(&[ended(index)]);
    assert!(!inner.tracks(index));
}

#[test]
fn a_handler_only_takes_note() {
    let (_, _, mut shared, mut endpoint) = one_connection(false);
    take_note(Notice::StreamData(sid(0), vec![1], true), &mut shared, &mut endpoint);
    assert!(matches!(&shared.observed()[0], Observed::Data(_, bytes, true) if bytes == &[1]));
    take_note(Notice::NewConnectionId(cid(4)), &mut shared, &mut endpoint);
    assert!(matches!(shared.take_routes()[0], RouteUpdate::Minted(id) if id == cid(4)));
}

#[test]
fn a_write_offers_one_packets_worth_and_ends_the_stream_with_its_last_bytes() {
    let (inner, index, mut shared, mut endpoint) = one_connection(false);
    let plan = inner.write_stream(index, write(&[0; 10], true), 4, &mut shared, &mut endpoint);
    assert!(matches!(plan, WritePlan::Offer { len: 4, last: false, .. }));
    let plan = inner.write_stream(index, write(&[0; 3], true), 4, &mut shared, &mut endpoint);
    assert!(matches!(plan, WritePlan::Offer { len: 3, last: true, .. }));
    let plan = inner.write_stream(index, write(&[0; 3], true), 0, &mut shared, &mut endpoint);
    assert!(matches!(plan, WritePlan::Offer { len: 1, last: false, .. }));
    let plan = inner.write_stream(99, write(&[0; 3], true), 4, &mut shared, &mut endpoint);
    assert!(matches!(plan, WritePlan::Dropped));
}

#[test]
fn a_blocked_write_goes_back_on_the_queue_whole() {
    for outcome in [
        StreamWrite::StreamBlocked,
        StreamWrite::ConnectionBlocked,
        StreamWrite::Blocked,
        StreamWrite::Idle,
    ] {
        let (mut inner, index, mut shared, mut endpoint) = one_connection(false);
        endpoint.register_driver(2);
        let wrote =
            inner.wrote(index, write(b"abc", true), Ok(outcome), &mut shared, &mut endpoint);
        assert!(matches!(wrote, Wrote::Requeued(Some(2))));
        assert!(matches!(
            &shared.take_commands()[0],
            Command::Write { data, fin: true, .. } if data == b"abc"
        ));
    }
    let (mut inner, index, mut shared, mut endpoint) = one_connection(false);
    let wrote =
        inner.wrote(index, write(b"abc", true), Err(core_error()), &mut shared, &mut endpoint);
    assert!(matches!(wrote, Wrote::Failed(_)));
    assert!(shared.is_closed());
}

#[test]
fn no_stream_byte_is_lost_to_a_short_write_or_a_busy_socket() {
    let (mut inner, index, mut shared, mut endpoint) = one_connection(false);
    let outcome = Ok(StreamWrite::Datagram { len: 5, accepted: 2 });
    let Wrote::Datagram { write, destination, len, accepted } =
        inner.wrote(index, write(b"abcd", true), outcome, &mut shared, &mut endpoint)
    else {
        panic!("expected a datagram");
    };
    assert_eq!((destination, len, accepted), (peer(), 5, 2));
    let refused = Offer::Answered(Sent::WouldBlock);
    inner.write_offered(
        index,
        write,
        accepted,
        b"wire!",
        &refused,
        40,
        &mut shared,
        &mut endpoint,
    );
    assert!(matches!(
        &shared.take_commands()[0],
        Command::Write { data, fin: true, .. } if data == b"cd"
    ));
    assert_eq!(shared.retained_bytes(), 40);
    assert!(inner.has_pending(), "the refused datagram waits");
    let plan = inner.write_stream(
        index,
        Write { stream: sid(4), data: b"next".to_vec(), fin: false },
        100,
        &mut shared,
        &mut endpoint,
    );
    assert!(matches!(plan, WritePlan::Requeued(_)), "one datagram is in flight at a time");
}

#[test]
fn a_batch_keeps_its_order_and_ends_with_the_connection() {
    let (inner, index, mut shared, mut endpoint) = one_connection(false);
    shared.push(&mut endpoint, Command::OpenStream { bidi: true });
    shared.push(&mut endpoint, Command::OpenStream { bidi: false });
    let mut batch = inner.begin_commands(index, &mut shared);
    assert_eq!(batch.len(), 2);
    let first = inner.next_command(index, &mut batch);
    assert!(matches!(first, Some(Command::OpenStream { bidi: true })));
    assert!(inner.next_command(99, &mut batch).is_none());
    assert!(batch.is_empty());
}

#[test]
fn a_close_waits_behind_the_datagram_already_in_the_slot() {
    let (mut inner, index, mut shared, _) = one_connection(false);
    shared.register(3);
    let woken = inner.close_connection(index, Ok(3), b"byeXX", &mut shared);
    assert_eq!(woken, [3]);
    assert_eq!(shared.failure().kind(), ErrorKind::LocallyClosed);
    assert!(inner.has_pending());
    let mut flush = inner.begin_flush();
    assert!(inner.next_answer(&mut flush).is_none());

    inner.close_connection(index, Ok(2), b"!!X", &mut shared);
    let mut flush = inner.begin_flush();
    let (to, datagram) = inner.next_answer(&mut flush).unwrap();
    assert_eq!((to, datagram), (peer(), b"!!".to_vec()));
}

#[test]
fn a_flush_answers_first_and_then_serves_every_connection() {
    let (mut inner, index, mut shared, _) = one_connection(false);
    inner.answer(peer(), vec![7]);
    let mut flush = inner.begin_flush();
    assert_eq!(flush.task(), FlushTask::Answer);
    let (to, datagram) = inner.next_answer(&mut flush).unwrap();
    inner.answer_offered(&mut flush, to, datagram, Offer::Answered(Sent::Complete)).unwrap();
    assert!(inner.next_answer(&mut flush).is_none());
    assert_eq!(flush.task(), FlushTask::Serve(index));

    assert!(matches!(inner.next_datagram(&mut flush, &mut shared), Next::Write(to) if to == peer()));
    let written = Ok(WriteOutcome::Datagram { len: 2 });
    let (len, woken) = inner.datagram_written(&mut flush, written, &mut shared);
    assert_eq!((len, woken), (Some(2), vec![]));
    let kept = Produced::InBuffer(2);
    inner.datagram_offered(&mut flush, kept, b"ab..", Offer::Pending).unwrap();
    assert_eq!(flush.task(), FlushTask::Done);

    let mut flush = inner.begin_flush();
    assert!(inner.next_answer(&mut flush).is_none());
    match inner.next_datagram(&mut flush, &mut shared) {
        Next::Send(to, datagram, _) => assert_eq!((to, datagram), (peer(), b"ab".to_vec())),
        other => panic!("the refused datagram was lost: {other:?}"),
    }
    assert!(!inner.has_pending());
    let (len, _) = inner.datagram_written(&mut flush, Ok(WriteOutcome::Blocked), &mut shared);
    assert_eq!(len, None);
    assert_eq!(flush.task(), FlushTask::Done);
}

#[test]
fn a_refused_answer_goes_back_to_the_front() {
    let mut inner = Inner::new(true, false);
    inner.answer(peer(), vec![1]);
    inner.answer(peer(), vec![2]);
    let mut flush = inner.begin_flush();
    let (to, datagram) = inner.next_answer(&mut flush).unwrap();
    let refused = Offer::Answered(Sent::WouldBlock);
    inner.answer_offered(&mut flush, to, datagram, refused).unwrap();
    assert_eq!(flush.task(), FlushTask::Done);
    let mut flush = inner.begin_flush();
    assert_eq!(inner.next_answer(&mut flush).unwrap().1, [1]);
    let failed = Offer::Failed("gone".to_string());
    let error = inner.answer_offered(&mut flush, peer(), vec![1], failed).unwrap_err();
    assert_eq!(error.kind(), ErrorKind::Socket);
}

#[test]
fn a_detached_connections_datagrams_are_forwarded_as_they_are() {
    let (mut inner, _, mut shared, mut endpoint) = detached_connection();
    for _ in 0..DATAGRAM_QUEUE {
        shared.queue_outbound(&mut endpoint, vec![6]);
    }
    assert!(!shared.outbound_ready_or_register(12));
    let mut flush = inner.begin_flush();
    assert!(inner.next_answer(&mut flush).is_none());
    match inner.next_datagram(&mut flush, &mut shared) {
        Next::Send(to, datagram, woken) => {
            assert_eq!((to, datagram, woken), (peer(), vec![6], vec![12]));
        }
        other => panic!("expected a queued datagram, got {other:?}"),
    }
    while shared.has_outbound() {
        shared.take_outbound();
    }
    assert!(matches!(inner.next_datagram(&mut flush, &mut shared), Next::Nothing));
    assert_eq!(flush.task(), FlushTask::Done);
}

#[test]
fn an_expired_timer_is_a_timeout_of_one_kind_or_another() {
    let (inner, index, ..) = one_connection(false);
    assert!(inner.expiry_is_due(index, Some(at(5)), at(5)));
    assert!(!inner.expiry_is_due(index, Some(at(6)), at(5)));
    assert!(!inner.expiry_is_due(index, None, at(5)));
    assert!(!inner.expiry_is_due(99, Some(at(5)), at(5)));

    let (mut inner, index, mut shared, _) = one_connection(false);
    inner.handle_expiry(index, Ok(ExpiryOutcome::IdleClose), CloseError::idle(), 0, &mut shared);
    assert_eq!(shared.failure().kind(), ErrorKind::IdleTimeout);

    let (mut inner, index, mut shared, _) = one_connection(false);
    let late = ngnet_quic::error::Error::native(native::ERR_HANDSHAKE_TIMEOUT, "a timer expired");
    inner.handle_expiry(index, Err(late), CloseError::idle(), 0, &mut shared);
    assert_eq!(shared.failure().kind(), ErrorKind::HandshakeTimeout);

    let (mut inner, index, mut shared, _) = one_connection(false);
    inner.handle_expiry(index, Ok(ExpiryOutcome::Handled), CloseError::idle(), 0, &mut shared);
    assert!(!shared.is_closed());
}

/// A report of a closed connection whose peer did not close it.
fn ended(index: u64) -> Report {
    Report { index, closed: true, draining: false, terminal: false, outbound: false }
}

#[test]
fn a_connection_a_server_has_to_discard_is_closed_and_evicted() {
    for outcome in [ReadOutcome::SendRetry, ReadOutcome::DropSilently] {
        let (mut inner, index, mut shared, _) = one_connection(false);
        shared.register(4);
        let absorbed = inner.read(index, Ok(outcome), closed_by_peer(), 0, &mut shared);
        assert_eq!(absorbed.woken, [4]);
        assert!(shared.is_closed());
        assert_eq!(shared.failure().kind(), ErrorKind::Transport);
        assert!(!inner.has_pending(), "nothing is said to the peer");
        inner.evict(&[ended(index)]);
        assert!(!inner.tracks(index));
    }
}

#[test]
fn a_refused_handshake_is_told_apart_from_a_broken_transport() {
    let refused = || ngnet_quic::error::Error::native(native::ERR_CRYPTO, "the handshake failed");
    let (mut inner, index, mut shared, _) = one_connection(false);
    inner.read(index, Err(refused()), closed_by_peer(), 0, &mut shared);
    assert_eq!(shared.failure().kind(), ErrorKind::HandshakeRejected);
    assert!(!shared.failure().kind().is_retriable());

    let (mut inner, index, mut shared, _) = one_connection(false);
    inner.read(index, Err(core_error()), closed_by_peer(), 0, &mut shared);
    assert_eq!(shared.failure().kind(), ErrorKind::Transport);

    let (mut inner, index, mut shared, _) = one_connection(false);
    shared.mark_established();
    inner.read(index, Err(refused()), closed_by_peer(), 0, &mut shared);
    assert_eq!(shared.failure().kind(), ErrorKind::Transport, "the handshake was over");
}

#[test]
fn a_connection_this_endpoint_gave_up_on_is_evicted() {
    let (mut inner, index, mut shared, _) = one_connection(false);
    inner.evict(&[ended(index)]);
    assert!(inner.tracks(index), "nothing has ended it yet");
    inner.handle_expiry(index, Err(core_error()), CloseError::idle(), 0, &mut shared);
    inner.evict(&[ended(index)]);
    assert!(!inner.tracks(index));

    let (mut inner, index, mut shared, mut endpoint) = one_connection(false);
    inner.wrote(index, write(b"abc", true), Err(core_error()), &mut shared, &mut endpoint);
    inner.evict(&[ended(index)]);
    assert!(!inner.tracks(index));

    let (mut inner, index, mut shared, _) = one_connection(false);
    let mut flush = inner.begin_flush();
    assert!(inner.next_answer(&mut flush).is_none());
    inner.datagram_written(&mut flush, Err(core_error()), &mut shared);
    inner.evict(&[ended(index)]);
    assert!(!inner.tracks(index));

    let (mut inner, index, mut shared, _) = one_connection(false);
    inner.hand_over(index, &mut shared);
    assert_eq!(shared.failure().kind(), ErrorKind::InvalidInput);
    inner.evict(&[ended(index)]);
    assert!(!inner.tracks(index));
}

#[test]
fn evicting_a_connection_takes_its_routes_with_it() {
    let (mut inner, index, mut shared, _) = one_connection(false);
    let report =
        Report { index, closed: true, draining: false, terminal: false, outbound: false };
    inner.evict(&[Report { closed: false, ..report }]);
    assert!(inner.tracks(index));
    inner.read(index, Err(core_error()), closed_by_peer(), 0, &mut shared);
    inner.evict(&[report]);
    assert!(!inner.tracks(index));
    assert_eq!(inner.route(&header(&[1; 8], 1)), None);
}

#[test]
fn the_timer_follows_the_earliest_deadline() {
    let (mut inner, index, ..) = one_connection(false);
    let second = inner.adopt(peer(), 6);
    let earliest = inner.earliest_expiry(&[(index, at(9)), (second, at(4)), (99, at(1))]);
    assert_eq!(earliest.unwrap().as_nanos(), 4);
    assert!(matches!(inner.rearm(earliest), Rearm::Arm(when) if when.as_nanos() == 4));
    assert!(matches!(inner.rearm(earliest), Rearm::Keep));
    assert!(!inner.slept(false));
    assert!(inner.slept(true));
    assert!(matches!(inner.rearm(earliest), Rearm::Arm(_)), "a fired timer is armed anew");
    assert!(matches!(inner.rearm(None), Rearm::Disarm));
}

fn builder() -> EndpointBuilder<&'static str, &'static str, &'static str, fn() -> u8, [u8; 4]> {
    EndpointBuilder::new("socket", "clock", "backend")
}

fn seven() -> u8 {
    7
}

#[test]
fn an_endpoint_needs_randomness() {
    let error = builder().build().err().unwrap();
    assert_eq!(error.kind(), ErrorKind::InvalidInput);
}

#[test]
fn an_endpoint_is_assembled_from_what_it_was_given() {
    let (endpoint, driver) = builder()
        .entropy(seven)
        .accepts(true)
        .config(Config::new().datagrams_per_pass(3))
        .validate_addresses([1, 2, 3, 4])
        .token_lifetime(Duration::from_nanos(55))
        .stateless_reset_burst(2)
        .build_detachable()
        .unwrap();
    assert!(!endpoint.is_gone());
    assert_eq!((driver.socket, driver.clock, driver.backend), ("socket", "clock", "backend"));
    assert!(driver.inner.accepts());
    assert_eq!(driver.config.datagrams_per_pass, 3);
    let validation = driver.validation.unwrap();
    assert_eq!(validation.secret(), &[1, 2, 3, 4]);
    assert_eq!(validation.lifetime.as_nanos(), 55);
    assert_eq!((validation.reset_burst, validation.reset_budget), (2, 2));

    let (_, driver) = builder().entropy(seven).build().unwrap();
    assert!(driver.validation.is_none());
    assert!(!driver.inner.accepts());
    assert_eq!((driver.entropy)(), 7);
}

#[test]
fn a_driver_stops_once_and_wakes_everyone() {
    let (mut endpoint, mut driver) = builder().entropy(seven).build().unwrap();
    assert!(driver.start(1, &mut endpoint));
    endpoint.register(2);
    assert_eq!(driver.stop(&mut endpoint), [2]);
    assert!(endpoint.is_gone());
    assert!(!driver.start(1, &mut endpoint));
}

#[test]
fn connecting_asks_the_driver_and_waits_for_the_handshake() {
    let (mut shared, mut endpoint) = (ConnectionShared::new(Role::Client), EndpointShared::new());
    endpoint.register_driver(9);
    let (_, driver) = connect(peer(), Some("example.org"), 5, &mut shared, &mut endpoint);
    assert_eq!(driver, Some(9));
    let dials = endpoint.take_dials();
    assert_eq!(dials[0].server_name.as_deref(), Some("example.org"));
    assert_eq!((dials[0].remote, dials[0].shared), (peer(), 5));
    assert!(!shared.wants_detach());

    assert!(connecting(4, &mut shared).is_none());
    assert_eq!(shared.mark_established(), [4]);
    assert!(connecting(4, &mut shared).unwrap().is_ok());
}

#[test]
fn connecting_on_a_stopped_endpoint_fails() {
    let (mut shared, mut endpoint) = (ConnectionShared::new(Role::Client), EndpointShared::new());
    endpoint.mark_gone();
    connect_detached(peer(), None, 5, &mut shared, &mut endpoint);
    let error = connecting(4, &mut shared).unwrap().unwrap_err();
    assert_eq!(error.kind(), ErrorKind::DriverGone);
}

#[test]
fn accepting_waits_takes_or_fails() {
    let mut endpoint = EndpointShared::new();
    assert!(accepting(1, &[], &mut endpoint).is_none());
    assert_eq!(endpoint.push_accepted(6), [1]);
    let ready = Progress { established: true, closed: false };
    assert_eq!(accepting(1, &[ready], &mut endpoint).unwrap().unwrap(), 6);
    endpoint.mark_gone();
    let error = accepting(1, &[], &mut endpoint).unwrap().unwrap_err();
    assert_eq!(error.kind(), ErrorKind::DriverGone);
}

#[test]
fn a_detached_connection_reaches_the_caller_it_belongs_to() {
    let mut queue = DetachQueue { ready: Vec::new(), wakers: Vec::new() };
    let (mut shared, mut endpoint) = (ConnectionShared::new(Role::Client), EndpointShared::new());
    assert!(detaching(3, 5, &mut shared, &mut queue, &mut endpoint).is_none());
    assert_eq!(queue.deliver(0, "accepted"), [3]);
    queue.deliver(5, "dialed");
    let taken = detaching(3, 5, &mut shared, &mut queue, &mut endpoint);
    assert_eq!(taken.unwrap().unwrap(), "dialed");
    assert_eq!(detaching_any(4, &mut queue, &mut endpoint).unwrap().unwrap(), "accepted");
    assert!(detaching_any(4, &mut queue, &mut endpoint).is_none());
    endpoint.mark_gone();
    let error = detaching_any(4, &mut queue, &mut endpoint).unwrap().unwrap_err();
    assert_eq!(error.kind(), ErrorKind::DriverGone);

    shared.fail(Error::new(ErrorKind::HandshakeRejected, "no"));
    let error = detaching(3, 5, &mut shared, &mut queue, &mut endpoint).unwrap().unwrap_err();
    assert_eq!(error.kind(), ErrorKind::HandshakeRejected);
}

#[test]
fn a_pass_reads_no_more_than_its_bound() {
    let mut pass = ReadPass::new(&Config::new().datagrams_per_pass(2));
    let received = Received { len: 3, source: peer() };
    assert!(pass.wants_more());
    assert_eq!(pass.arrived(Arrival::Datagram(received)).unwrap().unwrap().len, 3);
    assert!(pass.arrived(Arrival::Datagram(received)).unwrap().is_some());
    assert!(!pass.wants_more());
    assert!(pass.progressed);

    let mut pass = ReadPass::new(&Config::new());
    assert!(pass.arrived(Arrival::Pending).unwrap().is_none());
    assert!(!pass.wants_more() && !pass.progressed);
    let mut pass = ReadPass::new(&Config::new());
    let error = pass.arrived(Arrival::Failed("gone".to_string())).unwrap_err();
    assert_eq!(error.kind(), ErrorKind::Socket);
}

#[test]
fn a_datagram_for_nobody_is_examined_only_where_connections_are_accepted() {
    let (inner, index, ..) = one_connection(false);
    assert!(matches!(dispatch(&inner, &header(&[1; 8], 1), 100), Dispatch::Deliver(i) if i == index));
    assert!(matches!(dispatch(&inner, &header(&[7; 8], 1), 100), Dispatch::Examine));
    let short = SHORTEST_ANSWERABLE - 1;
    assert!(matches!(dispatch(&inner, &header(&[7; 8], 1), short), Dispatch::Ignore));
    let client = Inner::new(false, false);
    assert!(matches!(dispatch(&client, &header(&[7; 8], 1), 100), Dispatch::Ignore));
}

#[test]
fn a_first_packet_begins_a_connection_or_draws_a_retry() {
    let packet = InitialPacket {
        version: VERSION_V1,
        dcid: cid(1),
        scid: cid(2),
        token: InitialToken::Absent,
    };
    assert!(matches!(
        begin(&packet, None),
        Begin::Accept { original, retried: false } if original == cid(1)
    ));
    assert!(matches!(
        begin(&packet, Some(Decision::Accept(cid(8)))),
        Begin::Accept { original, retried: true } if original == cid(8)
    ));
    let retry = Decision::Retry { scid: cid(3), token: vec![1] };
    assert!(matches!(begin(&packet, Some(retry)), Begin::Retry { scid, .. } if scid == cid(3)));
    assert!(matches!(begin(&packet, Some(Decision::Ignore)), Begin::Ignore));
}

#[test]
fn an_accepted_connection_answers_to_the_identifier_the_client_addressed() {
    let mut inner = Inner::new(true, false);
    let index = adopt_accepted(&mut inner, peer(), 5, &vec![cid(3)], cid(4), cid(1));
    for id in [1u8, 3, 4] {
        assert_eq!(inner.route(&header(&[id; 8], 1)), Some(index));
    }
}

#[test]
fn an_answer_is_queued_only_where_one_was_written() {
    let mut inner = Inner::new(true, false);
    answer_written(&mut inner, peer(), Err(core_error()), b"xyz");
    answer_written(&mut inner, peer(), Ok(2), b"xyz");
    let mut flush = inner.begin_flush();
    assert_eq!(inner.next_answer(&mut flush).unwrap(), (peer(), b"xy".to_vec()));
    assert!(inner.next_answer(&mut flush).is_none());
}

#[test]
fn a_reset_is_smaller_than_what_provoked_it_and_within_the_budget() {
    let mut inner = Inner::new(true, false);
    answer_reset(&mut inner, peer(), Ok(Some(30)), &[0; 40], 30);
    answer_reset(&mut inner, peer(), Ok(None), &[0; 40], 100);
    answer_reset(&mut inner, peer(), Ok(Some(29)), &[0; 40], 30);
    let mut flush = inner.begin_flush();
    assert_eq!(inner.next_answer(&mut flush).unwrap().1.len(), 29);
    assert!(inner.next_answer(&mut flush).is_none());

    let mut policy = Some(Validation::new(()));
    policy.as_mut().unwrap().reset_burst(1);
    let short = header(&[7; 8], 0);
    assert_eq!(answer_unmatched(&mut policy, &short, at(1)), Some(cid(7)));
    assert_eq!(answer_unmatched(&mut policy, &short, at(1)), None, "the budget is spent");
    assert_eq!(answer_unmatched(&mut None::<Validation<()>>, &short, at(1)), None);
}

#[test]
fn a_pass_serves_its_connections_in_order_before_it_flushes() {
    let (inner, index, ..) = one_connection(false);
    let tasks = service(&inner);
    assert!(matches!(
        tasks[..],
        [
            ServiceTask::Routes(a),
            ServiceTask::Commands(b),
            ServiceTask::Expiry(c),
            ServiceTask::Flush,
            ServiceTask::Evict,
        ] if a == index && b == index && c == index
    ));
}

#[test]
fn the_driver_yields_after_a_bounded_number_of_passes() {
    assert!(another_pass(0, true, false, false));
    assert!(another_pass(0, false, true, false));
    assert!(!another_pass(0, false, false, false));
    assert!(!another_pass(PASSES_PER_POLL, true, true, true));
}

#[test]
fn the_ways_a_driver_goes_are_told_apart() {
    assert_eq!(socket_died().kind(), ErrorKind::Socket);
    assert_eq!(driver_dropped().kind(), ErrorKind::DriverGone);
    assert_eq!(dial_dropped().kind(), ErrorKind::DriverGone);
}

#[test]
fn a_reader_sees_its_bytes_in_order_and_gives_credit_back() {
    let (_, _, mut shared, mut endpoint) = one_connection(false);
    let mut connection = Connection::new();
    assert!(connection.read(sid(0)).poll(&mut connection, 7, &mut shared, &mut endpoint).0.is_none());
    assert_eq!(shared.waiting(), 1);
    shared.observe(Observed::Data(sid(0), b"ab".to_vec(), false));
    shared.observe(Observed::Data(sid(0), b"cd".to_vec(), true));
    let (chunk, _) = connection.read(sid(0)).poll(&mut connection, 7, &mut shared, &mut endpoint);
    let chunk = chunk.unwrap().unwrap();
    assert_eq!((chunk.bytes.as_slice(), chunk.fin), (b"abcd".as_slice(), true));
    assert!(matches!(shared.take_commands()[0], Command::ExtendCredit { bytes: 4, .. }));
}

#[test]
fn a_reset_is_reported_after_the_bytes_before_it() {
    let (_, _, mut shared, mut endpoint) = one_connection(false);
    let mut connection = Connection::new();
    connection.hear(&Observed::Data(sid(0), b"ab".to_vec(), false));
    connection.hear(&Observed::Reset(sid(0), code(6)));
    connection.hear(&Observed::Reset(sid(0), code(7)));
    let (chunk, _) = connection.read(sid(0)).poll(&mut connection, 7, &mut shared, &mut endpoint);
    assert_eq!(chunk.unwrap().unwrap().bytes, b"ab");
    let credit = shared.take_commands();
    assert_eq!(credit.len(), 1);
    assert!(matches!(credit[0], Command::ExtendCredit { bytes: 2, .. }));
    let (chunk, _) = connection.read(sid(0)).poll(&mut connection, 7, &mut shared, &mut endpoint);
    let error = chunk.unwrap().err().unwrap();
    assert!(shared.take_commands().is_empty(), "a reset returns no credit");
    assert_eq!(error.kind(), ErrorKind::StreamReset);
    assert_eq!(error.stream_code().unwrap().get(), 6, "the first code is kept");
}

#[test]
fn a_stopped_stream_refuses_writes() {
    let (_, _, mut shared, mut endpoint) = one_connection(false);
    let mut connection = Connection::new();
    assert!(connection.write(sid(0), b"x", false, &mut shared, &mut endpoint).is_ok());
    shared.observe(Observed::StopSending(sid(0), code(2)));
    let error = connection.write(sid(0), b"x", false, &mut shared, &mut endpoint).unwrap_err();
    assert_eq!(error.kind(), ErrorKind::StreamStopped);
    assert_eq!(connection.stop_sending_code(sid(0), &mut shared).unwrap().get(), 2);
    assert!(connection.write(sid(4), b"x", false, &mut shared, &mut endpoint).is_ok());
}

#[test]
fn a_peers_stream_goes_to_the_acceptor_and_a_local_one_to_its_opener() {
    let (_, _, mut shared, mut endpoint) = one_connection(false);
    let mut connection = Connection::new();
    assert!(connection.accept_stream().poll(&mut connection, 1, &mut shared).is_none());
    Connection::open_bidi(&mut shared, &mut endpoint);
    Connection::open_uni(&mut shared, &mut endpoint);
    assert_eq!(shared.take_commands().len(), 2);
    shared.observe(Observed::LocallyOpened(sid(2)));
    shared.observe(Observed::LocallyOpened(sid(0)));
    shared.observe(Observed::Opened(sid(1)));
    assert_eq!(OpenStream { bidi: true }.poll(1, &mut shared).unwrap().unwrap().get(), 0);
    assert_eq!(OpenStream { bidi: false }.poll(1, &mut shared).unwrap().unwrap().get(), 2);
    assert_eq!(connection.accept_stream().poll(&mut connection, 1, &mut shared).unwrap().unwrap().get(), 1);
    shared.fail(Error::new(ErrorKind::PeerClosed, "gone"));
    assert!(OpenStream { bidi: true }.poll(1, &mut shared).unwrap().is_err());
    assert!(connection.accept_stream().poll(&mut connection, 1, &mut shared).unwrap().is_err());
    assert_eq!(Connection::failure(&shared).unwrap().kind(), ErrorKind::PeerClosed);
}

#[test]
fn acknowledged_bytes_add_up_and_controls_are_asked_of_the_driver() {
    let (_, _, mut shared, mut endpoint) = one_connection(false);
    let mut connection = Connection::new();
    shared.observe(Observed::Acked(sid(0), 5));
    shared.observe(Observed::Acked(sid(0), 6));
    assert_eq!(connection.acked_bytes(sid(0), &mut shared), 11);
    assert_eq!(connection.acked_bytes(sid(4), &mut shared), 0);
    Connection::reset(sid(0), code(1), &mut shared, &mut endpoint).unwrap();
    Connection::stop_sending(sid(0), code(2), &mut shared, &mut endpoint).unwrap();
    Connection::close(code(3), b"bye", &mut shared, &mut endpoint);
    let commands = shared.take_commands();
    assert!(matches!(commands[0], Command::Reset(..)));
    assert!(matches!(commands[1], Command::StopSending(..)));
    assert!(matches!(&commands[2], Command::Close(_, phrase) if phrase == b"bye"));
    Connection::abandon(&mut shared, &mut endpoint);
    assert!(matches!(&shared.take_commands()[0], Command::Close(close, _) if close.get() == 0));
}

fn engine_settings() -> NativeSettings {
    NativeSettings {
        initial_ts: 0,
        initial_rtt: 333_000_000,
        max_tx_udp_payload_size: 1452,
        max_window: 0,
        max_stream_window: 0,
        handshake_timeout: u64::MAX,
        initial_pkt_num: 0,
        no_pmtud: false,
        token: Vec::new(),
        token_kind: None,
    }
}

fn engine_params() -> NativeTransportParams {
    NativeTransportParams {
        initial_max_stream_data_bidi_local: 0,
        initial_max_stream_data_bidi_remote: 0,
        initial_max_stream_data_uni: 0,
        initial_max_data: 0,
        initial_max_streams_bidi: 0,
        initial_max_streams_uni: 0,
        max_idle_timeout: 0,
        active_connection_id_limit: 2,
        max_ack_delay: 25_000_000,
        original_dcid: None,
        retry_scid: None,
        initial_scid_present: false,
        stateless_reset_token_present: false,
        preferred_addr_present: false,
    }
}

fn around(local: Result<Address, String>) -> Surroundings<CountingEntropy> {
    Surroundings {
        local,
        remote: peer(),
        now: at(1_000),
        settings: engine_settings(),
        params: engine_params(),
        entropy: CountingEntropy::default(),
        reserved: false,
    }
}

fn local() -> Address {
    Address::V4 { octets: [127, 0, 0, 1], port: 1 }
}

struct NullKey;

impl PacketKey for NullKey {
    fn seal(&self, _: &mut [u8], _: usize, _: &[u8], _: &[u8]) -> Result<(), CryptoError> {
        Ok(())
    }
    fn open(&self, _: &mut [u8], text: &[u8], _: &[u8], _: &[u8]) -> Result<usize, CryptoError> {
        Ok(text.len())
    }
    fn tag_len(&self) -> usize {
        16
    }
    fn confidentiality_limit(&self) -> u64 {
        1
    }
    fn integrity_limit(&self) -> u64 {
        1
    }
}

impl HeaderKey for NullKey {
    fn mask(&self, _: &[u8]) -> Result<[u8; HP_MASK_LEN], CryptoError> {
        Ok([0; HP_MASK_LEN])
    }
}

type CoreError = ngnet_quic::error::Error;

#[derive(Debug)]
struct NullSession {
    role: Role,
    server_name: Option<String>,
}

impl Session for NullSession {
    type PacketKey = NullKey;
    type HeaderKey = NullKey;

    fn initial_keys(
        &mut self,
        _: u32,
        _: &[u8],
    ) -> Result<InitialKeys<NullKey, NullKey>, CoreError> {
        let keys = || DirectionalKeys { packet: NullKey, header: NullKey, iv: vec![0; 12] };
        Ok(InitialKeys { rx: keys(), tx: keys() })
    }
    fn retry_key(&mut self, _: u32) -> Result<NullKey, CoreError> {
        Ok(NullKey)
    }
    fn set_local_transport_params(&mut self, _: &[u8]) -> Result<(), CoreError> {
        Ok(())
    }
    fn start_handshake<C: Handshaking<NullKey, NullKey>>(
        &mut self,
        conn: &mut C,
    ) -> Result<(), CoreError> {
        let keys = DirectionalKeys { packet: NullKey, header: NullKey, iv: vec![0; 12] };
        conn.install_keys(Level::Handshake, Direction::Write, keys, &[])
    }
    fn read_handshake<C: Handshaking<NullKey, NullKey>>(
        &mut self,
        level: Level,
        data: &[u8],
        conn: &mut C,
    ) -> Result<(), CoreError> {
        conn.submit_handshake(level, data)
    }
    fn poll_event(&mut self) -> Option<SessionEvent> {
        None
    }
    fn rotate_keys(&mut self, _: &[u8], _: &[u8]) -> Result<RotatedKeys<NullKey>, CoreError> {
        Err(core_error())
    }
    fn negotiated_alpn(&self) -> Option<Vec<u8>> {
        None
    }
}

/// Makes sessions, or refuses to.
struct NullBackend(bool);

impl Backend for NullBackend {
    type Session = NullSession;

    fn new_session(
        &self,
        role: Role,
        server_name: Option<&str>,
    ) -> Result<NullSession, CoreError> {
        if self.0 {
            Ok(NullSession { role, server_name: server_name.map(str::to_string) })
        } else {
            Err(core_error())
        }
    }
}

#[test]
fn a_dialed_connection_is_planned_from_the_configuration() {
    let config = Config::new().initial_max_data(5678);
    let plan =
        dial(&NullBackend(true), Some("example.org"), &config, around(Ok(local()))).unwrap();
    assert_eq!(plan.role, Role::Client);
    assert_eq!(plan.params.initial_max_data, 5678);
    assert_eq!(plan.settings.initial_ts, 1_000);
    assert_eq!((plan.local, plan.remote), (local(), peer()));
    assert_eq!(plan.version, VERSION_V1);
    assert_eq!(plan.dcid.as_bytes().len(), 8);
    assert_eq!(plan.tls.role, Role::Client);
    assert_eq!(plan.tls.server_name.as_deref(), Some("example.org"));
}

#[test]
fn what_keeps_a_connection_from_being_planned_is_reported() {
    let config = Config::new();
    let nowhere = around(Err("unbound".to_string()));
    let error = dial(&NullBackend(true), None, &config, nowhere).err().unwrap();
    assert_eq!(error.kind(), ErrorKind::Socket);
    let error = dial(&NullBackend(false), None, &config, around(Ok(local()))).err().unwrap();
    assert_eq!(error.kind(), ErrorKind::Transport);
    let config = config.initial_rtt(Duration::from_nanos(0));
    let error = dial(&NullBackend(true), None, &config, around(Ok(local()))).err().unwrap();
    assert_eq!(error.kind(), ErrorKind::InvalidInput);
}

#[test]
fn an_accepted_connection_is_planned_from_the_first_packet() {
    let packet = InitialPacket {
        version: VERSION_V1,
        dcid: cid(3),
        scid: cid(2),
        token: InitialToken::Retry(vec![5, 6]),
    };
    let config = Config::new();
    let plan =
        accept(&NullBackend(true), &packet, &cid(1), true, &config, around(Ok(local()))).unwrap();
    assert_eq!(plan.role, Role::Server);
    assert_eq!(plan.dcid, cid(2), "the server addresses the client by its own identifier");
    assert_eq!(plan.params.original_dcid, Some(cid(1)));
    assert_eq!(plan.params.retry_scid, Some(cid(3)));
    assert_eq!((plan.settings.token.as_slice(), plan.settings.token_kind), (
        [5u8, 6].as_slice(),
        Some(TokenKind::Retry)
    ));
    assert_eq!(plan.tls.role, Role::Server);

    let plan =
        accept(&NullBackend(true), &packet, &cid(3), false, &config, around(Ok(local()))).unwrap();
    assert_eq!(plan.params.retry_scid, None);
    assert!(plan.settings.token.is_empty());
}

#[test]
fn queued_datagrams_keep_their_order() {
    let mut shared = ConnectionShared::new(Role::Server);
    shared.deliver_inbound(vec![1]);
    shared.deliver_inbound(vec![2]);
    let mut seen = VecDeque::new();
    while let Some(datagram) = shared.take_inbound() {
        seen.push_back(datagram);
    }
    assert_eq!(seen, [vec![1], vec![2]]);
}
