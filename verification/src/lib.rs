//! A sans-I/O QUIC connection layer over a native transport engine, and the endpoint logic
//! that drives many connections over one socket.
//!
//! Nothing in this crate performs I/O or calls the native engine, and only
//! [`endpoint::tokio`] reads the operating system's clock. Every other function takes what
//! the engine, the socket or the clock reported as a plain value, and answers with the
//! decision that follows from it. The contracts say exactly which one.

pub mod accept;
pub mod allocation;
pub mod callbacks;
pub mod cid;
pub mod conn;
pub mod diagnostics;
pub mod endpoint;
pub mod error;
pub mod handlers;
pub mod native;
pub mod packet;
pub mod params;
pub mod path;
pub mod promises;
pub mod rand;
pub mod retain;
pub mod settings;
pub mod stream;
pub mod stream_io;
pub mod text;
pub mod time;
pub mod tls;
pub mod tls_bridge;
pub mod validate;
