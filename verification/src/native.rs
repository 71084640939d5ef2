//! The numbers the native engine speaks in.
//!
//! Error codes are small negative integers; flags and levels are small non-negative ones.
//! They are part of the engine's stable interface, so they are written out here once and
//! named everywhere else.

use vstd::prelude::*;

verus! {

/// An argument was out of range.
pub const ERR_INVALID_ARGUMENT: i32 = -201;

/// A buffer was too small for what had to go into it.
pub const ERR_NOBUF: i32 = -202;

/// The peer violated the protocol.
pub const ERR_PROTO: i32 = -203;

/// The operation is not permitted in the current state.
pub const ERR_INVALID_STATE: i32 = -204;

/// An ACK frame was malformed.
pub const ERR_ACK_FRAME: i32 = -205;

/// The peer's stream limit has been reached.
pub const ERR_STREAM_ID_BLOCKED: i32 = -206;

/// A stream has no flow-control credit left.
pub const ERR_STREAM_DATA_BLOCKED: i32 = -208;

/// The peer exceeded a flow-control limit.
pub const ERR_FLOW_CONTROL: i32 = -209;

/// The peer exceeded a stream limit.
pub const ERR_STREAM_LIMIT: i32 = -211;

/// The final size of a stream changed.
pub const ERR_FINAL_SIZE: i32 = -212;

/// The TLS handshake failed.
pub const ERR_CRYPTO: i32 = -213;

/// A required transport parameter was absent.
pub const ERR_REQUIRED_TRANSPORT_PARAM: i32 = -215;

/// A transport parameter could not be decoded.
pub const ERR_MALFORMED_TRANSPORT_PARAM: i32 = -216;

/// A frame could not be decoded.
pub const ERR_FRAME_ENCODING: i32 = -217;

/// A packet failed to authenticate.
pub const ERR_DECRYPT: i32 = -218;

/// The write side of a stream is shut.
pub const ERR_STREAM_SHUT_WR: i32 = -219;

/// There is no such stream.
pub const ERR_STREAM_NOT_FOUND: i32 = -220;

/// The connection is in its closing period.
pub const ERR_CLOSING: i32 = -223;

/// The connection is in its draining period.
pub const ERR_DRAINING: i32 = -224;

/// A transport parameter had an unacceptable value.
pub const ERR_TRANSPORT_PARAM: i32 = -225;

/// No connection identifier is available.
pub const ERR_CONN_ID_BLOCKED: i32 = -227;

/// The engine failed internally.
pub const ERR_INTERNAL: i32 = -228;

/// The packet has room for more stream data.
pub const ERR_WRITE_MORE: i32 = -230;

/// A server should answer with a Retry.
pub const ERR_RETRY: i32 = -231;

/// The connection should be dropped without a word.
pub const ERR_DROP_CONN: i32 = -232;

/// The packet names a version that has to be negotiated.
pub const ERR_VERSION_NEGOTIATION: i32 = -235;

/// The handshake ran out of time.
pub const ERR_HANDSHAKE_TIMEOUT: i32 = -236;

/// Version negotiation failed.
pub const ERR_VERSION_NEGOTIATION_FAILURE: i32 = -237;

/// The idle timeout expired.
pub const ERR_IDLE_CLOSE: i32 = -238;

/// The threshold below which every code is fatal to the connection.
pub const ERR_FATAL: i32 = -500;

/// An allocation failed.
pub const ERR_NOMEM: i32 = -501;

/// A callback reported failure.
pub const ERR_CALLBACK_FAILURE: i32 = -502;

/// The first version of QUIC.
pub const PROTO_VER_V1: u32 = 1;

/// The write flags that ask for nothing.
pub const WRITE_STREAM_FLAG_NONE: u32 = 0;

/// The write flag that ends a stream.
pub const WRITE_STREAM_FLAG_FIN: u32 = 2;

/// The delivery flag that says the bytes end their stream.
pub const STREAM_DATA_FLAG_FIN: u32 = 1;

/// The first encryption level.
pub const ENCRYPTION_LEVEL_INITIAL: u32 = 0;

/// The handshake's encryption level.
pub const ENCRYPTION_LEVEL_HANDSHAKE: u32 = 1;

/// The application's encryption level.
pub const ENCRYPTION_LEVEL_1RTT: u32 = 2;

/// The encryption level of early data.
pub const ENCRYPTION_LEVEL_0RTT: u32 = 3;

/// How long a stateless reset token is.
pub const STATELESS_RESET_TOKENLEN: usize = 16;

} // verus!
