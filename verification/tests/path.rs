//! Socket addresses in the platform's layout.

use std::mem::size_of;

use ngnet_quic::path::{Address, PathStorage, SockaddrIn, SockaddrIn6, SockaddrStorage};

const INET6: u16 = 10;

fn v4(last: u8, port: u16) -> Address {
    Address::V4 { octets: [192, 0, 2, last], port }
}

fn v6(port: u16) -> Address {
    let mut octets = [0u8; 16];
    octets[..4].copy_from_slice(&[0x20, 0x01, 0x0d, 0xb8]);
    octets[15] = 1;
    Address::V6 { octets, port, flowinfo: 0, scope_id: 0 }
}

#[test]
fn an_ipv4_address_round_trips() {
    let addr = v4(1, 443);
    assert_eq!(SockaddrStorage::new(addr, INET6).to_socket_addr(), addr);
}

#[test]
fn an_ipv6_address_round_trips() {
    let addr = v6(443);
    assert_eq!(SockaddrStorage::new(addr, INET6).to_socket_addr(), addr);
}

#[test]
fn the_port_is_stored_in_network_order() {
    match SockaddrStorage::new(v4(1, 443), INET6) {
        SockaddrStorage::V4(raw) => assert_eq!(raw.port, 443u16.to_be_bytes()),
        other => panic!("expected an IPv4 address, got {other:?}"),
    }
}

#[test]
fn the_reported_length_matches_the_family() {
    let small = SockaddrStorage::new(v4(1, 1), INET6);
    let large = SockaddrStorage::new(v6(1), INET6);
    assert_eq!(small.len() as usize, size_of::<SockaddrIn>());
    assert_eq!(large.len() as usize, size_of::<SockaddrIn6>());
    assert!(large.len() > small.len());
}

#[test]
fn the_layouts_match_the_platform_abi() {
    assert_eq!(size_of::<SockaddrIn>(), 16);
    assert_eq!(size_of::<SockaddrIn6>(), 28);
}

#[test]
fn a_path_reports_the_addresses_it_was_built_from() {
    let local = v6(1);
    let remote = v4(2, 2);
    let storage = PathStorage::new(local, remote, INET6);
    assert_eq!(storage.local(), local);
    assert_eq!(storage.remote(), remote);
}

#[test]
fn every_byte_is_initialised_so_equal_addresses_compare_equal() {
    let a = SockaddrStorage::new(v4(1, 443), INET6);
    let b = SockaddrStorage::new(v4(1, 443), INET6);
    match (a, b) {
        (SockaddrStorage::V4(a), SockaddrStorage::V4(b)) => {
            assert_eq!((a.family, a.port, a.addr, a.zero), (b.family, b.port, b.addr, b.zero));
            assert_eq!(a.zero, [0; 8]);
        }
        other => panic!("expected two IPv4 addresses, got {other:?}"),
    }
}

#[test]
fn addresses_are_the_same_only_when_every_part_is() {
    assert!(v4(1, 443).same(&v4(1, 443)));
    assert!(!v4(1, 443).same(&v4(2, 443)));
    assert!(!v4(1, 443).same(&v4(1, 444)));
    assert!(v6(1).same(&v6(1)));
    assert!(!v6(1).same(&v6(2)));
    assert!(!v6(1).same(&v4(1, 1)));
}

#[test]
fn a_flow_label_and_a_scope_read_back_too() {
    let mut octets = [0u8; 16];
    octets[15] = 1;
    let local = Address::V6 { octets, port: 443, flowinfo: 7, scope_id: 3 };
    let storage = PathStorage::new(local, v4(2, 2), INET6);
    assert_eq!(storage.local(), local);
}
