//! Connection settings: the local, non-negotiated half of the configuration.
//!
//! Settings hold what this endpoint does regardless of the peer: its clock base, its
//! loss-recovery starting point, its limits. The negotiated half, which the peer is told
//! about, is in [`crate::params`].

use vstd::prelude::*;

use crate::error::{Error, ErrorView};
use crate::time::{Duration, Timestamp};
use crate::validate;

verus! {

/// What kind of address-validation token a connection was accepted on.
#[derive(Clone, Copy, Debug, PartialEq, Eq, Structural)]
pub enum TokenKind {
    /// The token came back from a Retry.
    Retry,
    /// The token was handed out on an earlier connection.
    NewToken,
}

/// The settings as the engine takes them.
#[derive(Debug)]
pub struct NativeSettings {
    /// The clock base.
    pub initial_ts: u64,
    /// The round-trip estimate before one has been measured, in nanoseconds.
    pub initial_rtt: u64,
    /// The largest UDP payload to send.
    pub max_tx_udp_payload_size: usize,
    /// The connection-level flow-control auto-tuning ceiling.
    pub max_window: u64,
    /// The stream-level flow-control auto-tuning ceiling.
    pub max_stream_window: u64,
    /// How long the handshake may take, in nanoseconds.
    pub handshake_timeout: u64,
    /// The packet number to start from.
    pub initial_pkt_num: u32,
    /// Whether path MTU discovery is off.
    pub no_pmtud: bool,
    /// The validated token the connection was accepted on, if there was one.
    pub token: Vec<u8>,
    /// What kind of token that is.
    pub token_kind: Option<TokenKind>,
}

impl NativeSettings {
    /// What is wrong with these settings, if anything.
    pub open spec fn fault(&self) -> Option<Seq<char>> {
        validate::settings_fault(
            self.max_window,
            self.max_stream_window,
            self.max_tx_udp_payload_size,
            self.initial_pkt_num as u64,
            self.initial_rtt,
        )
    }
}

/// Builder for a connection's local settings.
///
/// There is deliberately no default: the engine's defaults leave the clock base at zero,
/// which describes a connection whose timers all appear to have expired. Only the caller
/// can supply a reading, so [`Settings::new`] requires it.
#[derive(Debug)]
pub struct Settings {
    raw: NativeSettings,
}

impl View for Settings {
    type V = NativeSettings;

    closed spec fn view(&self) -> NativeSettings {
        self.raw
    }
}

impl Settings {
    /// Starts from the engine's defaults, with the clock base they do not set.
    pub fn new(initial_ts: Timestamp, defaults: NativeSettings) -> (settings: Self)
        ensures
            settings@ == (NativeSettings { initial_ts: initial_ts@ as u64, ..defaults }),
    {
        let mut raw = defaults;
        raw.initial_ts = initial_ts.as_raw();
        Self { raw }
    }

    /// Sets the estimate of the round-trip time used before one has been measured.
    pub fn initial_rtt(self, rtt: Duration) -> (settings: Self)
        ensures
            settings@ == (NativeSettings { initial_rtt: rtt@ as u64, ..self@ }),
    {
        let mut raw = self.raw;
        raw.initial_rtt = rtt.as_raw();
        Self { raw }
    }

    /// Sets the largest UDP payload this endpoint will send.
    pub fn max_tx_udp_payload_size(self, size: usize) -> (settings: Self)
        ensures
            settings@ == (NativeSettings { max_tx_udp_payload_size: size, ..self@ }),
    {
        let mut raw = self.raw;
        raw.max_tx_udp_payload_size = size;
        Self { raw }
    }

    /// Sets the connection-level flow-control auto-tuning ceiling.
    pub fn max_window(self, bytes: u64) -> (settings: Self)
        ensures
            settings@ == (NativeSettings { max_window: bytes, ..self@ }),
    {
        let mut raw = self.raw;
        raw.max_window = bytes;
        Self { raw }
    }

    /// Sets the stream-level flow-control auto-tuning ceiling.
    pub fn max_stream_window(self, bytes: u64) -> (settings: Self)
        ensures
            settings@ == (NativeSettings { max_stream_window: bytes, ..self@ }),
    {
        let mut raw = self.raw;
        raw.max_stream_window = bytes;
        Self { raw }
    }

    /// Sets how long the handshake may take before it is abandoned.
    pub fn handshake_timeout(self, timeout: Duration) -> (settings: Self)
        ensures
            settings@ == (NativeSettings { handshake_timeout: timeout@ as u64, ..self@ }),
    {
        let mut raw = self.raw;
        raw.handshake_timeout = timeout.as_raw();
        Self { raw }
    }

    /// Sets the packet number the connection starts from.
    pub fn initial_pkt_num(self, num: u32) -> (settings: Self)
        ensures
            settings@ == (NativeSettings { initial_pkt_num: num, ..self@ }),
    {
        let mut raw = self.raw;
        raw.initial_pkt_num = num;
        Self { raw }
    }

    /// Disables path MTU discovery.
    pub fn no_pmtud(self, disabled: bool) -> (settings: Self)
        ensures
            settings@ == (NativeSettings { no_pmtud: disabled, ..self@ }),
    {
        let mut raw = self.raw;
        raw.no_pmtud = disabled;
        Self { raw }
    }

    /// Records the token a connection was accepted on.
    pub fn validated_token(self, token: Vec<u8>, kind: TokenKind) -> (settings: Self)
        ensures
            settings@ == (NativeSettings { token, token_kind: Some(kind), ..self@ }),
    {
        let mut raw = self.raw;
        raw.token = token;
        raw.token_kind = Some(kind);
        Self { raw }
    }

    /// Validates the settings and yields them as the engine takes them.
    pub fn build(self) -> (built: Result<NativeSettings, Error>)
        ensures
            match built {
                Ok(raw) => self@.fault() is None && raw == self@,
                Err(error) => self@.fault() matches Some(context) && error@
                    == ErrorView::invalid_input(context),
            },
    {
        match validate::settings(
            self.raw.max_window,
            self.raw.max_stream_window,
            self.raw.max_tx_udp_payload_size,
            self.raw.initial_pkt_num as u64,
            self.raw.initial_rtt,
        ) {
            Ok(()) => Ok(self.raw),
            Err(error) => Err(error),
        }
    }
}

} // verus!
