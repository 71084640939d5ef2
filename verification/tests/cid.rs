//! Connection identifiers.

use ngnet_quic::cid::{ConnectionId, MAX_LEN, MIN_LEN};
use ngnet_quic::rand::CountingEntropy;

#[test]
fn a_connection_id_round_trips_its_bytes() {
    let cid = ConnectionId::new(&[1, 2, 3, 4, 5, 6, 7, 8]).unwrap();
    assert_eq!(cid.as_bytes(), &[1, 2, 3, 4, 5, 6, 7, 8]);
}

#[test]
fn lengths_outside_the_permitted_range_are_rejected() {
    assert!(ConnectionId::new(&[0; MAX_LEN + 1]).is_err());
    assert!(ConnectionId::new(&[]).is_err());
    assert!(ConnectionId::new(&[0; MAX_LEN]).is_ok());
    assert!(ConnectionId::new(&[0; MIN_LEN]).is_ok());
}

#[test]
fn generation_asks_the_entropy_source_for_exactly_the_length_requested() {
    let mut source = CountingEntropy::default();
    let cid = ConnectionId::generate(&mut source, 16).unwrap();
    assert_eq!(cid.as_bytes().len(), 16);
    assert_eq!(source.bytes_produced(), 16);
}

#[test]
fn generation_rejects_an_out_of_range_length_without_consuming_entropy() {
    let mut source = CountingEntropy::default();
    assert!(ConnectionId::generate(&mut source, MAX_LEN + 1).is_err());
    assert_eq!(source.bytes_produced(), 0);
}

#[test]
fn the_debug_form_is_hex() {
    let cid = ConnectionId::new(&[0xde, 0xad, 0xbe, 0xef, 0, 0, 0, 0]).unwrap();
    assert_eq!(cid.debug_text(), "ConnectionId(deadbeef00000000)");
}

#[test]
fn identifiers_are_equal_when_their_bytes_are() {
    let a = ConnectionId::new(&[1, 2]).unwrap();
    let b = ConnectionId::new(&[1, 2]).unwrap();
    let c = ConnectionId::new(&[1, 2, 0]).unwrap();
    assert!(a == b);
    assert!(a != c);
}

#[test]
fn equal_identifiers_hash_alike() {
    let mut seen = std::collections::HashSet::new();
    assert!(seen.insert(ConnectionId::new(&[1, 2, 3]).unwrap()));
    assert!(!seen.insert(ConnectionId::new(&[1, 2, 3]).unwrap()));
    assert!(seen.insert(ConnectionId::new(&[1, 2, 3, 0]).unwrap()));
}
