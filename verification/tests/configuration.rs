//! Settings, transport parameters and building a connection.

use ngnet_quic::cid::ConnectionId;
use ngnet_quic::conn::{set_client_local_params, ConnBuilder};
use ngnet_quic::error::{Error, ErrorKind};
use ngnet_quic::native;
use ngnet_quic::params::{NativeTransportParams, TransportParams};
use ngnet_quic::path::Address;
use ngnet_quic::rand::{CountingEntropy, EntropySource};
use ngnet_quic::settings::{NativeSettings, Settings, TokenKind};
use ngnet_quic::time::{Duration, Timestamp};
use ngnet_quic::tls::Role;

fn engine_settings() -> NativeSettings {
    NativeSettings {
        initial_ts: 0,
        initial_rtt: 333_000_000,
        max_tx_udp_payload_size: 1452,
        max_window: 0,
        max_stream_window: 0,
        handshake_timeout: u64::MAX,
        initial_pkt_num: 0,
        no_pmtud: false,
        token: Vec::new(),
        token_kind: None,
    }
}

fn engine_params() -> NativeTransportParams {
    NativeTransportParams {
        initial_max_stream_data_bidi_local: 0,
        initial_max_stream_data_bidi_remote: 0,
        initial_max_stream_data_uni: 0,
        initial_max_data: 0,
        initial_max_streams_bidi: 0,
        initial_max_streams_uni: 0,
        max_idle_timeout: 0,
        active_connection_id_limit: 2,
        max_ack_delay: 25_000_000,
        original_dcid: None,
        retry_scid: None,
        initial_scid_present: false,
        stateless_reset_token_present: false,
        preferred_addr_present: false,
    }
}

fn params() -> TransportParams {
    TransportParams::new(engine_params())
}

fn ts() -> Timestamp {
    Timestamp::from_nanos(1_000_000).unwrap()
}

fn settings() -> Settings {
    Settings::new(ts(), engine_settings())
}

#[test]
fn the_defaults_describe_a_connection_that_can_actually_carry_data() {
    let raw = params().build(false).unwrap();
    assert_ne!(raw.initial_max_data, 0);
    assert_ne!(raw.initial_max_stream_data_bidi_local, 0);
    assert_ne!(raw.initial_max_stream_data_bidi_remote, 0);
    assert_ne!(raw.initial_max_stream_data_uni, 0);
    assert_ne!(raw.initial_max_streams_bidi, 0);
    assert_ne!(raw.max_idle_timeout, 0);
}

#[test]
fn the_library_defaults_survive_where_they_are_useful() {
    assert_eq!(params().build(false).unwrap().active_connection_id_limit, 2);
}

#[test]
fn a_client_configuration_builds() {
    assert!(params().build(false).is_ok());
}

#[test]
fn a_server_without_an_original_dcid_is_rejected() {
    let Err(err) = params().build(true) else {
        panic!("a server without an original_dcid must be rejected");
    };
    assert_eq!(err.kind(), ErrorKind::InvalidInput);
}

#[test]
fn a_server_with_an_original_dcid_builds() {
    let dcid = ConnectionId::new(&[9; 8]).unwrap();
    assert!(params().original_dcid(&dcid).build(true).is_ok());
}

#[test]
fn a_client_with_an_original_dcid_is_rejected() {
    let dcid = ConnectionId::new(&[9; 8]).unwrap();
    assert!(params().original_dcid(&dcid).build(false).is_err());
}

#[test]
fn the_original_dcid_bytes_are_carried_through() {
    let dcid = ConnectionId::new(&[1, 2, 3, 4, 5, 6, 7, 8]).unwrap();
    let raw = params().original_dcid(&dcid).build(true).unwrap();
    assert_eq!(raw.original_dcid.unwrap().as_bytes(), &[1, 2, 3, 4, 5, 6, 7, 8]);
}

#[test]
fn too_few_active_connection_ids_is_rejected() {
    let Err(err) = params().active_connection_id_limit(1).build(false) else {
        panic!("an active_connection_id_limit below 2 must be rejected");
    };
    assert_eq!(err.kind(), ErrorKind::InvalidInput);
}

#[test]
fn params_builders_round_trip_into_the_raw_struct() {
    let raw = params()
        .initial_max_data(1234)
        .initial_max_streams_bidi(7)
        .max_idle_timeout(Duration::from_nanos(99))
        .build(false)
        .unwrap();
    assert_eq!(raw.initial_max_data, 1234);
    assert_eq!(raw.initial_max_streams_bidi, 7);
    assert_eq!(raw.max_idle_timeout, 99);
}

#[test]
fn a_limit_beyond_what_quic_can_say_is_rejected() {
    assert!(params().initial_max_data(u64::MAX).build(false).is_err());
    assert!(params().initial_max_stream_data_uni(u64::MAX).build(false).is_err());
    assert!(params().max_ack_delay(Duration::from_millis(1 << 14).unwrap()).build(false).is_err());
    assert!(params().max_ack_delay(Duration::from_nanos(5)).build(false).is_ok());
}

#[test]
fn a_client_cannot_announce_where_a_retry_came_from() {
    let scid = ConnectionId::new(&[3; 8]).unwrap();
    assert!(params().retry_scid(&scid).build(false).is_err());
    let raw = params().original_dcid(&scid).retry_scid(&scid).build(true).unwrap();
    assert_eq!(raw.retry_scid.unwrap().as_bytes(), &[3; 8]);
}

#[test]
fn the_clock_base_is_carried_through() {
    assert_eq!(settings().build().unwrap().initial_ts, 1_000_000);
}

#[test]
fn the_library_defaults_are_the_starting_point() {
    assert_ne!(
        settings().build().unwrap().initial_rtt,
        0,
        "the initialiser supplies a non-zero initial RTT"
    );
}

#[test]
fn settings_builders_round_trip_into_the_raw_struct() {
    let raw = settings().max_window(4096).max_stream_window(2048).no_pmtud(true).build().unwrap();
    assert_eq!(raw.max_window, 4096);
    assert_eq!(raw.max_stream_window, 2048);
    assert!(raw.no_pmtud);
}

#[test]
fn a_valid_configuration_builds() {
    assert!(settings().build().is_ok());
}

#[test]
fn a_zero_initial_rtt_is_rejected_at_build_time() {
    let err = settings().initial_rtt(Duration::from_nanos(0)).build().unwrap_err();
    assert_eq!(err.kind(), ErrorKind::InvalidInput);
}

#[test]
fn an_undersized_udp_payload_is_rejected_at_build_time() {
    let err = settings().max_tx_udp_payload_size(16).build().unwrap_err();
    assert_eq!(err.kind(), ErrorKind::InvalidInput);
}

#[test]
fn windows_and_packet_numbers_beyond_what_quic_can_say_are_rejected() {
    assert!(settings().max_window(u64::MAX).build().is_err());
    assert!(settings().max_stream_window(u64::MAX).build().is_err());
    assert!(settings().initial_pkt_num(u32::MAX).build().is_err());
    assert_eq!(
        settings().handshake_timeout(Duration::from_nanos(7)).build().unwrap().handshake_timeout,
        7
    );
}

#[test]
fn a_validated_token_travels_with_its_kind() {
    let raw = settings().validated_token(vec![1, 2, 3], TokenKind::Retry).build().unwrap();
    assert_eq!(raw.token, [1, 2, 3]);
    assert_eq!(raw.token_kind, Some(TokenKind::Retry));
}

fn addrs() -> (Address, Address) {
    (
        Address::V4 { octets: [127, 0, 0, 1], port: 1000 },
        Address::V4 { octets: [127, 0, 0, 1], port: 2000 },
    )
}

fn builder(role: Role, params: TransportParams) -> ConnBuilder<CountingEntropy, &'static str> {
    let (local, remote) = addrs();
    ConnBuilder::new(
        role,
        settings(),
        params,
        CountingEntropy::default(),
        "a session",
        local,
        remote,
    )
}

#[test]
fn a_client_connection_can_be_built_and_dropped() {
    let conn = builder(Role::Client, params()).build(false).unwrap().constructed(0, false).unwrap();
    assert_eq!(conn.role(), Role::Client);
    assert_eq!(*conn.tls(), "a session");
    assert_eq!(conn.retained_bytes(), 0);
    drop(conn);
}

#[test]
fn a_connection_reports_the_addresses_it_was_built_with() {
    let conn = builder(Role::Client, params()).build(false).unwrap().constructed(0, false).unwrap();
    let (local, remote) = addrs();
    assert_eq!(conn.local_addr(), local);
    assert_eq!(conn.remote_addr(), remote);
}

#[test]
fn a_connection_can_be_dropped_without_any_method_being_called() {
    for _ in 0..8 {
        drop(
            builder(Role::Client, params()).build(false).unwrap().constructed(0, false).unwrap(),
        );
    }
}

#[test]
fn construction_draws_on_the_entropy_source() {
    let plan = builder(Role::Client, params()).build(false).unwrap();
    assert_eq!(plan.dcid.as_bytes(), &[0, 1, 2, 3, 4, 5, 6, 7]);
    assert_eq!(plan.entropy.bytes_produced(), 16);
    let conn = plan.constructed(0, false).unwrap();
    assert_eq!(conn.scid().as_bytes().len(), 8);
    assert_eq!(conn.scid().as_bytes(), &[8, 9, 10, 11, 12, 13, 14, 15]);
}

#[test]
fn a_server_without_an_original_dcid_is_refused_in_both_profiles() {
    assert!(builder(Role::Server, params()).build(false).is_err());
    let client = ConnectionId::new(&[0xbb; 8]).unwrap();
    assert!(builder(Role::Server, params()).dcid(client).build(false).is_err());
    let error = builder(Role::Server, params()).dcid(client).build(false).err().unwrap();
    assert_eq!(error.kind(), ErrorKind::InvalidInput);
}

#[test]
fn a_server_connection_can_be_built_from_a_decoded_initial() {
    let original_dcid = ConnectionId::new(&[0xaa; 8]).unwrap();
    let client_scid = ConnectionId::new(&[0xbb; 8]).unwrap();
    let plan = builder(Role::Server, params().original_dcid(&original_dcid))
        .dcid(client_scid)
        .scid(ConnectionId::new(&[0xcc; 8]).unwrap())
        .build(false)
        .unwrap();
    assert_eq!(plan.dcid.as_bytes(), &[0xbb; 8]);
    let conn = plan.constructed(0, false).unwrap();
    assert_eq!(conn.role(), Role::Server);
    assert_eq!(conn.scid().as_bytes(), &[0xcc; 8]);
}

#[test]
fn a_reserved_version_is_refused_for_a_server() {
    let dcid = ConnectionId::new(&[0xaa; 8]).unwrap();
    let result = builder(Role::Server, params().original_dcid(&dcid))
        .dcid(dcid)
        .version(0x0a0a_0a0a)
        .build(true);
    assert!(result.is_err());
    let client = builder(Role::Client, params()).version(0x0a0a_0a0a).build(true).unwrap();
    assert_eq!(client.version, 0x0a0a_0a0a);
}

#[test]
fn an_identifier_length_quic_forbids_is_refused_without_drawing() {
    let err = builder(Role::Client, params()).cid_len(21).build(false).err().unwrap();
    assert_eq!(err.kind(), ErrorKind::InvalidInput);
    assert_eq!(builder(Role::Client, params()).cid_len(4).build(false).unwrap().scid.as_bytes(), &[
        4, 5, 6, 7
    ]);
}

#[test]
fn a_connection_built_on_failed_randomness_is_refused() {
    let plan = builder(Role::Client, params()).build(false).unwrap();
    let err = plan.constructed(0, true).err().unwrap();
    assert_eq!(err.kind(), ErrorKind::Internal);
    let plan = builder(Role::Client, params()).build(false).unwrap();
    let err = plan.constructed(native::ERR_NOMEM, true).err().unwrap();
    assert_eq!(err.kind(), ErrorKind::Exhausted);
}

struct Failing;

impl EntropySource for Failing {
    fn fill(&mut self, _dest: &mut [u8]) -> Result<(), Error> {
        Err(Error::with_kind(ErrorKind::Internal, "no entropy today"))
    }
}

#[test]
fn a_source_that_fails_stops_a_connection_that_needs_it() {
    let (local, remote) = addrs();
    let plan = ConnBuilder::new(Role::Client, settings(), params(), Failing, (), local, remote)
        .build(false);
    assert_eq!(plan.err().unwrap().kind(), ErrorKind::Internal);
}

#[test]
fn only_a_client_hands_its_parameters_over_when_it_is_bound() {
    let conn = builder(Role::Client, params()).build(false).unwrap().constructed(0, false).unwrap();
    assert!(conn.bind_tls(0).is_ok());
    assert!(conn.bind_tls(native::ERR_CALLBACK_FAILURE).is_err());
    assert_eq!(set_client_local_params(true, true), 0);
    assert_eq!(set_client_local_params(true, false), native::ERR_CALLBACK_FAILURE);
    assert_eq!(set_client_local_params(false, true), native::ERR_CALLBACK_FAILURE);
}
