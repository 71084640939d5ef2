//! What the operations of this crate promise their callers.
//!
//! Each law here is stated of a call. Whenever an operation is called on the values named and
//! comes back with the ones named, what the law says holds of them, in terms of those values
//! alone.

pub mod building;
pub mod connection;
pub mod diagnostics;
pub mod driver;
pub mod endpoint;
pub mod engine;
pub mod handshake;
pub mod sending;
pub mod shared;
pub mod testing;
pub mod text;
