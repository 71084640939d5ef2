//! The rules of the exchange with a TLS session.

use std::collections::BTreeSet;

use ngnet_quic::native;
use ngnet_quic::tls::{CryptoError, Direction, Level, SessionEvent};
use ngnet_quic::tls_bridge::{
    decrypt, encode_local_params, from_native, hp_mask, install_slot, to_native, EncodeStep,
    Exchange, SessionSlot,
};
use ngnet_quic::validate::{iv_len, iv_pair};

#[test]
fn the_exchange_tracks_what_has_happened() {
    let mut exchange = Exchange::default();
    assert!(!exchange.peer_taken);
    assert!(!exchange.handshake_tx_installed);

    exchange.peer_taken = true;
    exchange.handshake_tx_installed = true;
    exchange.local_yielded = true;
    assert!(exchange.peer_taken && exchange.handshake_tx_installed && exchange.local_yielded);
}

#[test]
fn a_backend_cannot_hand_the_library_a_vector_it_cannot_handle() {
    assert!(iv_len(12).is_ok());
    assert!(iv_pair(12, 12).is_ok());

    assert!(iv_len(0).is_err());
    assert!(iv_len(7).is_err());
    assert!(iv_len(65).is_err());
    assert!(iv_len(usize::MAX).is_err());
    assert!(iv_pair(12, 16).is_err());
}

#[test]
fn the_two_application_directions_must_share_a_vector_length() {
    assert!(iv_pair(12, 12).is_ok());
    assert!(iv_pair(12, 16).is_err());
    assert!(iv_pair(16, 12).is_err());
}

#[test]
fn the_install_slots_match_the_librarys_key_storage() {
    assert_eq!(
        install_slot(Level::ZeroRtt, Direction::Read),
        install_slot(Level::ZeroRtt, Direction::Write),
        "0-RTT is one key in the library, so it must be one slot here"
    );

    let mut seen = BTreeSet::new();
    for level in [Level::Initial, Level::Handshake, Level::OneRtt] {
        for direction in [Direction::Read, Direction::Write] {
            assert!(
                seen.insert(install_slot(level, direction)),
                "{level:?}/{direction:?} collides with another slot"
            );
        }
    }
    seen.insert(install_slot(Level::ZeroRtt, Direction::Read));
    assert_eq!(seen.len(), 7);
    assert!(seen.iter().all(|s| *s < 7), "a slot index is out of range");
}

#[test]
fn a_slot_carries_a_session_and_its_exchange() {
    let slot = SessionSlot { session: (), exchange: Exchange::default() };
    assert!(!slot.exchange.peer_taken);
    let _: () = slot.session;
}

#[test]
fn the_level_mapping_round_trips() {
    for level in [Level::Initial, Level::ZeroRtt, Level::Handshake, Level::OneRtt] {
        assert_eq!(
            from_native(to_native(level)),
            Some(level),
            "encryption level did not survive the round trip"
        );
    }
}

#[test]
fn an_unknown_level_is_not_invented() {
    assert_eq!(from_native(u32::MAX), None);
}

#[test]
fn the_peers_parameters_are_taken_once() {
    let mut exchange = Exchange::default();
    assert!(exchange.set_peer_transport_params(native::ERR_MALFORMED_TRANSPORT_PARAM).is_err());
    assert!(!exchange.peer_taken);
    assert!(exchange.set_peer_transport_params(0).is_ok());
    assert!(exchange.set_peer_transport_params(0).is_err());
}

#[test]
fn a_key_is_installed_once_and_only_with_a_usable_vector() {
    let mut exchange = Exchange::default();
    assert!(exchange.install_keys(Level::OneRtt, Direction::Read, 65, 0).is_err());
    assert!(exchange.install_keys(Level::OneRtt, Direction::Read, 12, 0).is_ok());
    assert!(exchange.install_keys(Level::OneRtt, Direction::Read, 12, 0).is_err());
    assert!(exchange.install_keys(Level::OneRtt, Direction::Write, 16, 0).is_err());
    assert!(exchange.install_keys(Level::OneRtt, Direction::Write, 12, 0).is_ok());
    assert!(exchange.install_keys(Level::Handshake, Direction::Write, 65, 0).is_err());
    assert!(exchange.install_keys(Level::ZeroRtt, Direction::Read, 7, 0).is_err());
    assert!(exchange.install_keys(Level::Initial, Direction::Read, 12, 0).is_err());
    assert!(!exchange.handshake_tx_installed);
    let refused = exchange
        .install_keys(Level::Handshake, Direction::Write, 12, native::ERR_NOMEM)
        .unwrap_err();
    assert_eq!(refused.native_code().unwrap().get(), native::ERR_CALLBACK_FAILURE);
    assert!(exchange.install_keys(Level::Handshake, Direction::Write, 12, 0).is_ok());
    assert!(exchange.handshake_tx_installed);
    assert_eq!(exchange.update_key(12, 12, 32, 32, 32), 0);
    assert_eq!(exchange.update_key(12, 16, 32, 32, 32), native::ERR_CALLBACK_FAILURE);
    assert_eq!(exchange.update_key(12, 12, 32, 48, 32), native::ERR_CALLBACK_FAILURE);
}

#[test]
fn a_handshake_without_the_peers_parameters_is_not_complete() {
    let mut exchange = Exchange::default();
    assert_eq!(
        exchange.session_event(SessionEvent::HandshakeComplete),
        native::ERR_CALLBACK_FAILURE
    );
    exchange.set_peer_transport_params(0).unwrap();
    assert_eq!(exchange.session_event(SessionEvent::HandshakeComplete), 0);
}

#[test]
fn parameters_that_do_not_fit_are_tried_once_more() {
    assert_eq!(encode_local_params(40, false), EncodeStep::Done(40));
    assert_eq!(encode_local_params(native::ERR_NOBUF as isize, false), EncodeStep::Enlarge);
    assert_eq!(encode_local_params(native::ERR_NOBUF as isize, true), EncodeStep::Fail);
}

#[test]
fn a_packet_that_does_not_open_is_not_a_broken_backend() {
    assert_eq!(decrypt(Ok(10)), 0);
    assert_eq!(decrypt(Err(CryptoError::Decrypt)), native::ERR_DECRYPT);
    assert_eq!(decrypt(Err(CryptoError::Fatal)), native::ERR_CALLBACK_FAILURE);
    assert_eq!(hp_mask(true), 0);
    assert_eq!(hp_mask(false), native::ERR_CALLBACK_FAILURE);
}
