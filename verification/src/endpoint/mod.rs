//! A QUIC endpoint over the core: one socket, many connections.
//!
//! A caller must bind a socket, decide which connection each arriving datagram belongs to,
//! drain outgoing datagrams until there are none, arm a timer for whichever connection wants
//! attention soonest, and take connections out of service once they finish. Each of those
//! has a way to be subtly wrong that shows up as a connection which stalls rather than as an
//! error. The rules for all of them are here; the sockets, timers and wakers they speak of
//! are named by plain numbers and moved by whoever runs the endpoint.

pub mod clock;
pub mod config;
pub mod connection;
pub mod driver;
pub mod error;
pub mod handle;
pub mod opening;
pub mod routes;
pub mod shared;
pub mod socket;
pub mod testing;
pub mod tokio;
pub mod validate;
