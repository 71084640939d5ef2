//! Transport parameters: the negotiated half of the configuration.
//!
//! These are the limits each endpoint announces to the other during the handshake. The
//! engine's own defaults describe an endpoint that accepts no data, permits no streams and
//! never times out, so [`TransportParams::new`] fills in small but functional ones.

use vstd::prelude::*;

use crate::cid::ConnectionId;
use crate::error::{Error, ErrorView};
use crate::time::Duration;
use crate::validate;

verus! {

/// Flow-control credit granted per stream, in bytes, unless overridden.
pub const DEFAULT_STREAM_DATA: u64 = 262_144;

/// Flow-control credit granted for the connection as a whole, in bytes, unless overridden.
pub const DEFAULT_CONNECTION_DATA: u64 = 1_048_576;

/// Concurrent streams permitted in each direction, unless overridden.
pub const DEFAULT_MAX_STREAMS: u64 = 100;

/// How long a connection may be idle before it is closed, in nanoseconds, unless overridden.
pub const DEFAULT_IDLE_TIMEOUT: u64 = 30_000_000_000;

/// The parameters as the engine takes them.
#[derive(Clone, Copy, Debug)]
pub struct NativeTransportParams {
    /// Credit for each bidirectional stream this endpoint opened.
    pub initial_max_stream_data_bidi_local: u64,
    /// Credit for each bidirectional stream the peer opened.
    pub initial_max_stream_data_bidi_remote: u64,
    /// Credit for each unidirectional stream.
    pub initial_max_stream_data_uni: u64,
    /// Credit for the connection.
    pub initial_max_data: u64,
    /// How many bidirectional streams the peer may open.
    pub initial_max_streams_bidi: u64,
    /// How many unidirectional streams the peer may open.
    pub initial_max_streams_uni: u64,
    /// The idle timeout, in nanoseconds.
    pub max_idle_timeout: u64,
    /// How many connection identifiers the peer may keep active.
    pub active_connection_id_limit: u64,
    /// The longest an acknowledgement may be delayed, in nanoseconds.
    pub max_ack_delay: u64,
    /// The identifier the client first addressed.
    pub original_dcid: Option<ConnectionId>,
    /// The identifier a Retry was sent from.
    pub retry_scid: Option<ConnectionId>,
    /// Whether a source identifier is announced.
    pub initial_scid_present: bool,
    /// Whether a stateless reset token is announced.
    pub stateless_reset_token_present: bool,
    /// Whether a preferred address is announced.
    pub preferred_addr_present: bool,
}

impl NativeTransportParams {
    /// What is wrong with these parameters for a role, if anything; the limits come first.
    pub open spec fn fault(self, server: bool) -> Option<Seq<char>> {
        let limits = validate::params_fault(
            self.active_connection_id_limit,
            self.initial_max_data,
            self.initial_max_stream_data_bidi_local,
            self.initial_max_stream_data_bidi_remote,
            self.initial_max_stream_data_uni,
            self.max_ack_delay,
        );
        if limits is Some {
            limits
        } else {
            validate::role_fault(
                server,
                self.original_dcid is Some,
                self.initial_scid_present,
                self.stateless_reset_token_present,
                self.preferred_addr_present,
                self.retry_scid is Some,
            )
        }
    }

    /// The engine's defaults with working limits in place of its zeroes.
    pub open spec fn working(self) -> Self {
        NativeTransportParams {
            initial_max_stream_data_bidi_local: DEFAULT_STREAM_DATA,
            initial_max_stream_data_bidi_remote: DEFAULT_STREAM_DATA,
            initial_max_stream_data_uni: DEFAULT_STREAM_DATA,
            initial_max_data: DEFAULT_CONNECTION_DATA,
            initial_max_streams_bidi: DEFAULT_MAX_STREAMS,
            initial_max_streams_uni: DEFAULT_MAX_STREAMS,
            max_idle_timeout: DEFAULT_IDLE_TIMEOUT,
            ..self
        }
    }
}

/// Builder for the transport parameters announced to the peer.
#[derive(Clone, Copy, Debug)]
pub struct TransportParams {
    raw: NativeTransportParams,
}

impl View for TransportParams {
    type V = NativeTransportParams;

    closed spec fn view(&self) -> NativeTransportParams {
        self.raw
    }
}

impl TransportParams {
    /// Starts from a working configuration on top of the engine's defaults.
    pub fn new(defaults: NativeTransportParams) -> (params: Self)
        ensures
            params@ == defaults.working(),
    {
        let mut raw = defaults;
        raw.initial_max_stream_data_bidi_local = DEFAULT_STREAM_DATA;
        raw.initial_max_stream_data_bidi_remote = DEFAULT_STREAM_DATA;
        raw.initial_max_stream_data_uni = DEFAULT_STREAM_DATA;
        raw.initial_max_data = DEFAULT_CONNECTION_DATA;
        raw.initial_max_streams_bidi = DEFAULT_MAX_STREAMS;
        raw.initial_max_streams_uni = DEFAULT_MAX_STREAMS;
        raw.max_idle_timeout = DEFAULT_IDLE_TIMEOUT;
        Self { raw }
    }

    /// Sets the per-stream credit for streams this endpoint opened.
    pub fn initial_max_stream_data_bidi_local(self, bytes: u64) -> (params: Self)
        ensures
            params@ == (NativeTransportParams {
                initial_max_stream_data_bidi_local: bytes,
                ..self@
            }),
    {
        let mut raw = self.raw;
        raw.initial_max_stream_data_bidi_local = bytes;
        Self { raw }
    }

    /// Sets the per-stream credit for bidirectional streams the peer opened.
    pub fn initial_max_stream_data_bidi_remote(self, bytes: u64) -> (params: Self)
        ensures
            params@ == (NativeTransportParams {
                initial_max_stream_data_bidi_remote: bytes,
                ..self@
            }),
    {
        let mut raw = self.raw;
        raw.initial_max_stream_data_bidi_remote = bytes;
        Self { raw }
    }

    /// Sets the per-stream credit for unidirectional streams.
    pub fn initial_max_stream_data_uni(self, bytes: u64) -> (params: Self)
        ensures
            params@ == (NativeTransportParams { initial_max_stream_data_uni: bytes, ..self@ }),
    {
        let mut raw = self.raw;
        raw.initial_max_stream_data_uni = bytes;
        Self { raw }
    }

    /// Sets the connection-wide credit.
    pub fn initial_max_data(self, bytes: u64) -> (params: Self)
        ensures
            params@ == (NativeTransportParams { initial_max_data: bytes, ..self@ }),
    {
        let mut raw = self.raw;
        raw.initial_max_data = bytes;
        Self { raw }
    }

    /// Sets how many bidirectional streams the peer may open.
    pub fn initial_max_streams_bidi(self, count: u64) -> (params: Self)
        ensures
            params@ == (NativeTransportParams { initial_max_streams_bidi: count, ..self@ }),
    {
        let mut raw = self.raw;
        raw.initial_max_streams_bidi = count;
        Self { raw }
    }

    /// Sets how many unidirectional streams the peer may open.
    pub fn initial_max_streams_uni(self, count: u64) -> (params: Self)
        ensures
            params@ == (NativeTransportParams { initial_max_streams_uni: count, ..self@ }),
    {
        let mut raw = self.raw;
        raw.initial_max_streams_uni = count;
        Self { raw }
    }

    /// Sets the idle timeout. Zero disables it.
    pub fn max_idle_timeout(self, timeout: Duration) -> (params: Self)
        ensures
            params@ == (NativeTransportParams { max_idle_timeout: timeout@ as u64, ..self@ }),
    {
        let mut raw = self.raw;
        raw.max_idle_timeout = timeout.as_raw();
        Self { raw }
    }

    /// Sets how many connection identifiers the peer may keep active.
    pub fn active_connection_id_limit(self, limit: u64) -> (params: Self)
        ensures
            params@ == (NativeTransportParams { active_connection_id_limit: limit, ..self@ }),
    {
        let mut raw = self.raw;
        raw.active_connection_id_limit = limit;
        Self { raw }
    }

    /// Sets the longest a packet may be delayed before acknowledgement.
    pub fn max_ack_delay(self, delay: Duration) -> (params: Self)
        ensures
            params@ == (NativeTransportParams { max_ack_delay: delay@ as u64, ..self@ }),
    {
        let mut raw = self.raw;
        raw.max_ack_delay = delay.as_raw();
        Self { raw }
    }

    /// Records the destination identifier from the client's first packet.
    ///
    /// Servers only, and required for them.
    pub fn original_dcid(self, dcid: &ConnectionId) -> (params: Self)
        ensures
            params@ == (NativeTransportParams { original_dcid: Some(*dcid), ..self@ }),
    {
        let mut raw = self.raw;
        raw.original_dcid = Some(*dcid);
        Self { raw }
    }

    /// Records the identifier this server's Retry was sent from.
    ///
    /// Servers only, and required after a Retry: the client verifies that the identifier it
    /// was told to address really came from one.
    pub fn retry_scid(self, scid: &ConnectionId) -> (params: Self)
        ensures
            params@ == (NativeTransportParams { retry_scid: Some(*scid), ..self@ }),
    {
        let mut raw = self.raw;
        raw.retry_scid = Some(*scid);
        Self { raw }
    }

    /// Validates for the given role and yields the parameters as the engine takes them.
    pub fn build(self, server: bool) -> (built: Result<NativeTransportParams, Error>)
        ensures
            match built {
                Ok(raw) => self@.fault(server) is None && raw == self@,
                Err(error) => self@.fault(server) matches Some(context) && error@
                    == ErrorView::invalid_input(context),
            },
    {
        match validate::transport_params_common(
            self.raw.active_connection_id_limit,
            self.raw.initial_max_data,
            self.raw.initial_max_stream_data_bidi_local,
            self.raw.initial_max_stream_data_bidi_remote,
            self.raw.initial_max_stream_data_uni,
            self.raw.max_ack_delay,
        ) {
            Ok(()) => {},
            Err(error) => return Err(error),
        }
        match validate::transport_params_role(
            server,
            self.raw.original_dcid.is_some(),
            self.raw.initial_scid_present,
            self.raw.stateless_reset_token_present,
            self.raw.preferred_addr_present,
            self.raw.retry_scid.is_some(),
        ) {
            Ok(()) => Ok(self.raw),
            Err(error) => Err(error),
        }
    }
}

} // verus!
