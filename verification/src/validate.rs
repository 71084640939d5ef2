//! The preconditions the native engine takes for granted.
//!
//! The engine checks most of what it is given with assertions, and a release build deletes
//! them. What they would have caught is refused here instead, by name.

use vstd::prelude::*;

use crate::error::{Error, ErrorView};

verus! {

/// The largest value a QUIC variable-length integer holds.
pub const MAX_VARINT: u64 = 0x3fff_ffff_ffff_ffff;

/// The smallest UDP payload a QUIC path must carry.
pub const MIN_UDP_PAYLOAD: usize = 1200;

/// The largest packet number a connection may start from.
pub const MAX_INITIAL_PKT_NUM: u64 = 0x7fff_ffff;

/// The fewest connection identifiers a peer may be held to.
pub const MIN_ACTIVE_CONNECTION_IDS: u64 = 2;

/// The most connection identifiers the engine can track.
pub const MAX_ACTIVE_CONNECTION_IDS: u64 = 8;

/// The first acknowledgement delay QUIC does not allow: 2^14 milliseconds, in nanoseconds.
pub const ACK_DELAY_LIMIT: u64 = 16_384_000_000;

/// The shortest initialisation vector the engine can derive a nonce from.
pub const MIN_IV_LEN: usize = 8;

/// The longest initialisation vector the engine has room for.
pub const MAX_IV_LEN: usize = 64;

/// Why a connection window is refused.
pub const BAD_MAX_WINDOW: &'static str = "max_window exceeds the largest variable-length integer";

/// Why a stream window is refused.
pub const BAD_MAX_STREAM_WINDOW: &'static str =
    "max_stream_window exceeds the largest variable-length integer";

/// Why a payload size is refused.
pub const BAD_UDP_PAYLOAD: &'static str =
    "max_tx_udp_payload_size is below the smallest datagram QUIC permits";

/// Why a starting packet number is refused.
pub const BAD_INITIAL_PKT_NUM: &'static str = "initial_pkt_num exceeds i32::MAX";

/// Why a round-trip estimate is refused.
pub const BAD_INITIAL_RTT: &'static str = "initial_rtt must not be zero";

/// Why an identifier limit is refused.
pub const BAD_ACTIVE_CONNECTION_IDS: &'static str =
    "active_connection_id_limit must be between 2 and 8";

/// Why a connection credit is refused.
pub const BAD_MAX_DATA: &'static str =
    "initial_max_data exceeds the largest variable-length integer";

/// Why a stream credit is refused.
pub const BAD_STREAM_DATA: &'static str =
    "an initial_max_stream_data limit exceeds the largest variable-length integer";

/// Why an acknowledgement delay is refused.
pub const BAD_ACK_DELAY: &'static str = "max_ack_delay must be below 2^14 milliseconds";

/// Why a server without the client's first identifier is refused.
pub const SERVER_NEEDS_ORIGINAL_DCID: &'static str =
    "a server must be given the original destination connection ID";

/// Why an announced source identifier is refused.
pub const SCID_IS_NOT_YOURS: &'static str = "initial_scid is filled in by the engine";

/// Why a client with a server's parameter is refused.
pub const CLIENT_FORBIDS: &'static str = "a client cannot carry a server's transport parameter";

/// Why a reserved version is refused.
pub const RESERVED_VERSION: &'static str = "a server cannot be built for a reserved version";

/// Why an initialisation vector's length is refused.
pub const BAD_IV_LEN: &'static str = "an initialisation vector must be between 8 and 64 bytes";

/// Why two initialisation vectors are refused.
pub const IV_MISMATCH: &'static str = "both directions must share an initialisation vector length";

/// Why a secret's length is refused.
pub const BAD_SECRET_LEN: &'static str = "a rotated secret must be as long as the one it replaces";

/// What is wrong with a set of settings, if anything; the first fault counts.
pub open spec fn settings_fault(
    max_window: u64,
    max_stream_window: u64,
    max_tx_udp_payload_size: usize,
    initial_pkt_num: u64,
    initial_rtt: u64,
) -> Option<Seq<char>> {
    if max_window > MAX_VARINT {
        Some(BAD_MAX_WINDOW@)
    } else if max_stream_window > MAX_VARINT {
        Some(BAD_MAX_STREAM_WINDOW@)
    } else if max_tx_udp_payload_size < MIN_UDP_PAYLOAD {
        Some(BAD_UDP_PAYLOAD@)
    } else if initial_pkt_num > MAX_INITIAL_PKT_NUM {
        Some(BAD_INITIAL_PKT_NUM@)
    } else if initial_rtt == 0 {
        Some(BAD_INITIAL_RTT@)
    } else {
        None
    }
}

/// Checks the settings the engine asserts on.
pub fn settings(
    max_window: u64,
    max_stream_window: u64,
    max_tx_udp_payload_size: usize,
    initial_pkt_num: u64,
    initial_rtt: u64,
) -> (checked: Result<(), Error>)
    ensures
        refused_for(
            checked,
            settings_fault(
                max_window,
                max_stream_window,
                max_tx_udp_payload_size,
                initial_pkt_num,
                initial_rtt,
            ),
        ),
{
    if max_window > MAX_VARINT {
        return Err(Error::invalid_input(BAD_MAX_WINDOW));
    }
    if max_stream_window > MAX_VARINT {
        return Err(Error::invalid_input(BAD_MAX_STREAM_WINDOW));
    }
    if max_tx_udp_payload_size < MIN_UDP_PAYLOAD {
        return Err(Error::invalid_input(BAD_UDP_PAYLOAD));
    }
    if initial_pkt_num > MAX_INITIAL_PKT_NUM {
        return Err(Error::invalid_input(BAD_INITIAL_PKT_NUM));
    }
    if initial_rtt == 0 {
        return Err(Error::invalid_input(BAD_INITIAL_RTT));
    }
    Ok(())
}

/// Whether a check succeeded where there is no fault, and otherwise named the fault.
pub open spec fn refused_for(checked: Result<(), Error>, fault: Option<Seq<char>>) -> bool {
    match fault {
        None => checked is Ok,
        Some(context) => checked matches Err(error) && error@ == ErrorView::invalid_input(context),
    }
}

/// What is wrong with the parameters either role announces, if anything.
pub open spec fn params_fault(
    active_connection_id_limit: u64,
    initial_max_data: u64,
    bidi_local: u64,
    bidi_remote: u64,
    uni: u64,
    max_ack_delay: u64,
) -> Option<Seq<char>> {
    if active_connection_id_limit < MIN_ACTIVE_CONNECTION_IDS || active_connection_id_limit
        > MAX_ACTIVE_CONNECTION_IDS {
        Some(BAD_ACTIVE_CONNECTION_IDS@)
    } else if initial_max_data > MAX_VARINT {
        Some(BAD_MAX_DATA@)
    } else if bidi_local > MAX_VARINT || bidi_remote > MAX_VARINT || uni > MAX_VARINT {
        Some(BAD_STREAM_DATA@)
    } else if max_ack_delay >= ACK_DELAY_LIMIT {
        Some(BAD_ACK_DELAY@)
    } else {
        None
    }
}

/// Checks the parameters either role announces.
///
/// Every idle timeout is acceptable: zero disables it, and the engine announces whole
/// milliseconds, which always fit.
pub fn transport_params_common(
    active_connection_id_limit: u64,
    initial_max_data: u64,
    initial_max_stream_data_bidi_local: u64,
    initial_max_stream_data_bidi_remote: u64,
    initial_max_stream_data_uni: u64,
    max_ack_delay: u64,
) -> (checked: Result<(), Error>)
    ensures
        refused_for(
            checked,
            params_fault(
                active_connection_id_limit,
                initial_max_data,
                initial_max_stream_data_bidi_local,
                initial_max_stream_data_bidi_remote,
                initial_max_stream_data_uni,
                max_ack_delay,
            ),
        ),
{
    if active_connection_id_limit < MIN_ACTIVE_CONNECTION_IDS || active_connection_id_limit
        > MAX_ACTIVE_CONNECTION_IDS {
        return Err(Error::invalid_input(BAD_ACTIVE_CONNECTION_IDS));
    }
    if initial_max_data > MAX_VARINT {
        return Err(Error::invalid_input(BAD_MAX_DATA));
    }
    if initial_max_stream_data_bidi_local > MAX_VARINT || initial_max_stream_data_bidi_remote
        > MAX_VARINT || initial_max_stream_data_uni > MAX_VARINT {
        return Err(Error::invalid_input(BAD_STREAM_DATA));
    }
    if max_ack_delay >= ACK_DELAY_LIMIT {
        return Err(Error::invalid_input(BAD_ACK_DELAY));
    }
    Ok(())
}

/// What is wrong with the parameters for a role, if anything.
///
/// A server cannot be built without the identifier the client first addressed. A client
/// announces nothing only a server can know. Neither announces its own source identifier,
/// which the engine fills in.
pub open spec fn role_fault(
    server: bool,
    original_dcid: bool,
    initial_scid: bool,
    stateless_reset_token: bool,
    preferred_addr: bool,
    retry_scid: bool,
) -> Option<Seq<char>> {
    if server && !original_dcid {
        Some(SERVER_NEEDS_ORIGINAL_DCID@)
    } else if initial_scid {
        Some(SCID_IS_NOT_YOURS@)
    } else if !server && (original_dcid || stateless_reset_token || preferred_addr || retry_scid) {
        Some(CLIENT_FORBIDS@)
    } else {
        None
    }
}

/// Checks which parameters are present against the role announcing them.
pub fn transport_params_role(
    server: bool,
    original_dcid_present: bool,
    initial_scid_present: bool,
    stateless_reset_token_present: bool,
    preferred_addr_present: bool,
    retry_scid_present: bool,
) -> (checked: Result<(), Error>)
    ensures
        refused_for(
            checked,
            role_fault(
                server,
                original_dcid_present,
                initial_scid_present,
                stateless_reset_token_present,
                preferred_addr_present,
                retry_scid_present,
            ),
        ),
{
    if server && !original_dcid_present {
        return Err(Error::invalid_input(SERVER_NEEDS_ORIGINAL_DCID));
    }
    if initial_scid_present {
        return Err(Error::invalid_input(SCID_IS_NOT_YOURS));
    }
    if !server && (original_dcid_present || stateless_reset_token_present || preferred_addr_present
        || retry_scid_present) {
        return Err(Error::invalid_input(CLIENT_FORBIDS));
    }
    Ok(())
}

/// Refuses a version the engine reserves for exercising negotiation, where a server is to be
/// built for it.
pub fn server_version(server: bool, reserved: bool) -> (checked: Result<(), Error>)
    ensures
        refused_for(
            checked,
            if server && reserved {
                Some(RESERVED_VERSION@)
            } else {
                None
            },
        ),
{
    if server && reserved {
        return Err(Error::invalid_input(RESERVED_VERSION));
    }
    Ok(())
}

/// Whether the engine can build a nonce from an initialisation vector of this length.
pub open spec fn usable_iv(len: int) -> bool {
    MIN_IV_LEN <= len <= MAX_IV_LEN
}

/// Checks the length of one initialisation vector.
///
/// A shorter one wraps a pointer inside the engine and a longer one overruns a buffer there.
pub fn iv_len(len: usize) -> (checked: Result<(), Error>)
    ensures
        refused_for(
            checked,
            if usable_iv(len as int) {
                None
            } else {
                Some(BAD_IV_LEN@)
            },
        ),
{
    if len < MIN_IV_LEN || len > MAX_IV_LEN {
        return Err(Error::invalid_input(BAD_IV_LEN));
    }
    Ok(())
}

/// What is wrong with the lengths of a pair of initialisation vectors, if anything.
pub open spec fn iv_pair_fault(first: int, second: int) -> Option<Seq<char>> {
    if !usable_iv(first) || !usable_iv(second) {
        Some(BAD_IV_LEN@)
    } else if first != second {
        Some(IV_MISMATCH@)
    } else {
        None
    }
}

/// Checks the lengths of both directions' initialisation vectors.
///
/// The engine takes one length for the pair, so a shorter one would be read at the longer
/// one's length.
pub fn iv_pair(first: usize, second: usize) -> (checked: Result<(), Error>)
    ensures
        refused_for(checked, iv_pair_fault(first as int, second as int)),
{
    match iv_len(first) {
        Ok(()) => {},
        Err(error) => return Err(error),
    }
    match iv_len(second) {
        Ok(()) => {},
        Err(error) => return Err(error),
    }
    if first != second {
        return Err(Error::invalid_input(IV_MISMATCH));
    }
    Ok(())
}

/// Checks the length of a rotated secret against the one it replaces.
pub fn secret_len(len: usize, expected: usize) -> (checked: Result<(), Error>)
    ensures
        refused_for(
            checked,
            if len == expected {
                None
            } else {
                Some(BAD_SECRET_LEN@)
            },
        ),
{
    if len != expected {
        return Err(Error::invalid_input(BAD_SECRET_LEN));
    }
    Ok(())
}

} // verus!
