//! Socket addresses, as the native engine reads them.

use vstd::prelude::*;

use crate::cid::same_bytes;

verus! {

/// A socket address.
#[derive(Clone, Copy, Debug, PartialEq, Eq)]
#[allow(inconsistent_fields)]
pub enum Address {
    /// An IPv4 address and port.
    V4 {
        /// The address, most significant byte first.
        octets: [u8; 4],
        /// The port.
        port: u16,
    },
    /// An IPv6 address and port.
    V6 {
        /// The address, most significant byte first.
        octets: [u8; 16],
        /// The port.
        port: u16,
        /// The flow label.
        flowinfo: u32,
        /// The scope.
        scope_id: u32,
    },
}

impl Address {
    /// Whether two addresses are the same.
    pub fn same(&self, other: &Self) -> (same: bool)
        ensures
            same == (*self == *other),
    {
        match (self, other) {
            (
                Address::V4 { octets: left, port: left_port },
                Address::V4 { octets: right, port: right_port },
            ) => {
                let same: bool = same_bytes(left.as_slice(), right.as_slice());
                assert(same ==> left =~= right);
                same && *left_port == *right_port
            },
            (
                Address::V6 {
                    octets: left,
                    port: left_port,
                    flowinfo: left_flow,
                    scope_id: left_scope,
                },
                Address::V6 {
                    octets: right,
                    port: right_port,
                    flowinfo: right_flow,
                    scope_id: right_scope,
                },
            ) => {
                let same: bool = same_bytes(left.as_slice(), right.as_slice());
                assert(same ==> left =~= right);
                same && *left_port == *right_port && *left_flow == *right_flow && *left_scope
                    == *right_scope
            },
            _ => false,
        }
    }
}

/// The address family of IPv4, which every platform agrees on.
pub const AF_INET: u16 = 2;

/// An IPv4 socket address in the platform's layout.
#[derive(Clone, Copy, Debug)]
pub struct SockaddrIn {
    /// The address family.
    pub family: u16,
    /// The port, in network order.
    pub port: [u8; 2],
    /// The address.
    pub addr: [u8; 4],
    /// Padding.
    pub zero: [u8; 8],
}

/// An IPv6 socket address in the platform's layout.
#[derive(Clone, Copy, Debug)]
pub struct SockaddrIn6 {
    /// The address family.
    pub family: u16,
    /// The port, in network order.
    pub port: [u8; 2],
    /// The flow label.
    pub flowinfo: u32,
    /// The address.
    pub addr: [u8; 16],
    /// The scope.
    pub scope_id: u32,
}

/// A socket address of either family, with every byte of it set.
#[derive(Clone, Copy, Debug)]
pub enum SockaddrStorage {
    /// IPv4.
    V4(SockaddrIn),
    /// IPv6.
    V6(SockaddrIn6),
}

/// How long an IPv4 socket address is.
pub const SOCKADDR_IN_LEN: u32 = 16;

/// How long an IPv6 socket address is.
pub const SOCKADDR_IN6_LEN: u32 = 28;

/// A port written most significant byte first.
pub open spec fn network_order(port: u16) -> Seq<u8> {
    seq![(port / 256) as u8, (port % 256) as u8]
}

impl SockaddrStorage {
    /// Whether this is `address` laid out for a platform whose IPv6 family is `inet6`.
    pub open spec fn lays_out(self, address: Address, inet6: u16) -> bool {
        match (self, address) {
            (SockaddrStorage::V4(raw), Address::V4 { octets, port }) => {
                &&& raw.family == AF_INET
                &&& raw.port@ == network_order(port)
                &&& raw.addr == octets
                &&& raw.zero@ == Seq::new(8, |i: int| 0u8)
            },
            (
                SockaddrStorage::V6(raw),
                Address::V6 { octets, port, flowinfo, scope_id },
            ) => {
                &&& raw.family == inet6
                &&& raw.port@ == network_order(port)
                &&& raw.flowinfo == flowinfo
                &&& raw.addr == octets
                &&& raw.scope_id == scope_id
            },
            _ => false,
        }
    }

    /// Lays an address out for a platform whose IPv6 family is `inet6`.
    pub fn new(address: Address, inet6: u16) -> (storage: Self)
        ensures
            storage.lays_out(address, inet6),
    {
        match address {
            Address::V4 { octets, port } => {
                let bytes: [u8; 2] = [(port / 256) as u8, (port % 256) as u8];
                assert(bytes@ =~= network_order(port));
                let zero: [u8; 8] = [0;8];
                assert(zero@ =~= Seq::new(8, |i: int| 0u8));
                SockaddrStorage::V4(
                    SockaddrIn { family: AF_INET, port: bytes, addr: octets, zero },
                )
            },
            Address::V6 { octets, port, flowinfo, scope_id } => {
                let bytes: [u8; 2] = [(port / 256) as u8, (port % 256) as u8];
                assert(bytes@ =~= network_order(port));
                SockaddrStorage::V6(
                    SockaddrIn6 { family: inet6, port: bytes, flowinfo, addr: octets, scope_id },
                )
            },
        }
    }

    /// How long the address is in the platform's layout.
    pub fn len(&self) -> (len: u32)
        ensures
            len == (match self {
                SockaddrStorage::V4(_) => SOCKADDR_IN_LEN,
                SockaddrStorage::V6(_) => SOCKADDR_IN6_LEN,
            }),
    {
        match self {
            SockaddrStorage::V4(_) => SOCKADDR_IN_LEN,
            SockaddrStorage::V6(_) => SOCKADDR_IN6_LEN,
        }
    }

    /// The address this lays out.
    pub open spec fn address(self) -> Address {
        match self {
            SockaddrStorage::V4(raw) => Address::V4 {
                octets: raw.addr,
                port: (raw.port@[0] * 256 + raw.port@[1]) as u16,
            },
            SockaddrStorage::V6(raw) => Address::V6 {
                octets: raw.addr,
                port: (raw.port@[0] * 256 + raw.port@[1]) as u16,
                flowinfo: raw.flowinfo,
                scope_id: raw.scope_id,
            },
        }
    }

    /// Reads the address back.
    pub fn to_socket_addr(&self) -> (address: Address)
        ensures
            address == self.address(),
    {
        match self {
            SockaddrStorage::V4(raw) => Address::V4 {
                octets: raw.addr,
                port: raw.port[0] as u16 * 256 + raw.port[1] as u16,
            },
            SockaddrStorage::V6(raw) => Address::V6 {
                octets: raw.addr,
                port: raw.port[0] as u16 * 256 + raw.port[1] as u16,
                flowinfo: raw.flowinfo,
                scope_id: raw.scope_id,
            },
        }
    }
}

/// What is laid out reads back as the same address, on every platform.
pub proof fn law_addresses_round_trip(storage: SockaddrStorage, address: Address, inet6: u16)
    requires
        storage.lays_out(address, inet6),
    ensures
        storage.address() == address,
{
}

/// The two ends of a path, laid out for the engine.
#[derive(Clone, Copy, Debug)]
pub struct PathStorage {
    /// This endpoint.
    pub local: SockaddrStorage,
    /// The peer.
    pub remote: SockaddrStorage,
}

impl PathStorage {
    /// Lays out both ends of a path.
    pub fn new(local: Address, remote: Address, inet6: u16) -> (path: Self)
        ensures
            path.local.lays_out(local, inet6),
            path.remote.lays_out(remote, inet6),
    {
        Self {
            local: SockaddrStorage::new(local, inet6),
            remote: SockaddrStorage::new(remote, inet6),
        }
    }

    /// This endpoint's address.
    pub fn local(&self) -> (address: Address)
        ensures
            address == self.local.address(),
    {
        self.local.to_socket_addr()
    }

    /// The peer's address.
    pub fn remote(&self) -> (address: Address)
        ensures
            address == self.remote.address(),
    {
        self.remote.to_socket_addr()
    }
}

} // verus!
