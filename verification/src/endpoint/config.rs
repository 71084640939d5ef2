//! What an endpoint advertises, and how much of it runs at once.
//!
//! Every field maps onto something the core already takes, except the work bound, which is
//! about the driver rather than about QUIC.

use vstd::prelude::*;

use crate::params::{
    NativeTransportParams, TransportParams, DEFAULT_CONNECTION_DATA, DEFAULT_IDLE_TIMEOUT,
    DEFAULT_MAX_STREAMS, DEFAULT_STREAM_DATA,
};
use crate::settings::{NativeSettings, Settings};
use crate::time::{Duration, Timestamp};

verus! {

/// How many datagrams one scheduling pass may take from the socket, unless overridden.
///
/// A driver that drained the socket until it was empty would let one busy endpoint
/// monopolise the runtime, and would never get to its timers on a socket that never empties.
pub const DEFAULT_DATAGRAMS_PER_PASS: usize = 64;

/// Settings for an endpoint and the connections it carries.
#[derive(Clone, Copy, Debug)]
pub struct Config {
    /// How many datagrams one pass may take from the socket.
    pub datagrams_per_pass: usize,
    /// Credit for each stream.
    pub initial_max_stream_data: u64,
    /// Credit for the connection.
    pub initial_max_data: u64,
    /// How many bidirectional streams the peer may open.
    pub max_streams_bidi: u64,
    /// How many unidirectional streams the peer may open.
    pub max_streams_uni: u64,
    /// How long a connection may sit idle.
    pub max_idle_timeout: Duration,
    /// The round-trip estimate before one has been measured.
    pub initial_rtt: Option<Duration>,
    /// How long a handshake may take.
    pub handshake_timeout: Option<Duration>,
}

impl Config {
    /// Whether this is the configuration nobody has changed.
    pub open spec fn is_default(self) -> bool {
        &&& self.datagrams_per_pass == DEFAULT_DATAGRAMS_PER_PASS
        &&& self.initial_max_stream_data == DEFAULT_STREAM_DATA
        &&& self.initial_max_data == DEFAULT_CONNECTION_DATA
        &&& self.max_streams_bidi == DEFAULT_MAX_STREAMS
        &&& self.max_streams_uni == DEFAULT_MAX_STREAMS
        &&& self.max_idle_timeout@ == DEFAULT_IDLE_TIMEOUT
        &&& self.initial_rtt is None
        &&& self.handshake_timeout is None
    }
}

impl Default for Config {
    fn default() -> (config: Self)
        ensures
            config.is_default(),
    {
        Self {
            datagrams_per_pass: DEFAULT_DATAGRAMS_PER_PASS,
            initial_max_stream_data: DEFAULT_STREAM_DATA,
            initial_max_data: DEFAULT_CONNECTION_DATA,
            max_streams_bidi: DEFAULT_MAX_STREAMS,
            max_streams_uni: DEFAULT_MAX_STREAMS,
            max_idle_timeout: Duration::from_nanos(DEFAULT_IDLE_TIMEOUT),
            initial_rtt: None,
            handshake_timeout: None,
        }
    }
}

impl Config {
    /// The defaults.
    #[must_use]
    pub fn new() -> (config: Self)
        ensures
            config.is_default(),
    {
        Self::default()
    }

    /// How many datagrams one scheduling pass may take from the socket.
    ///
    /// Zero is treated as one, because a bound of zero would be an endpoint that never reads.
    #[must_use]
    pub fn datagrams_per_pass(self, datagrams: usize) -> (config: Self)
        ensures
            config == (Config {
                datagrams_per_pass: if datagrams == 0 {
                    1
                } else {
                    datagrams
                },
                ..self
            }),
    {
        let mut config = self;
        config.datagrams_per_pass = if datagrams == 0 {
            1
        } else {
            datagrams
        };
        config
    }

    /// How many bytes the peer may send on each stream before waiting for credit.
    #[must_use]
    pub fn initial_max_stream_data(self, bytes: u64) -> (config: Self)
        ensures
            config == (Config { initial_max_stream_data: bytes, ..self }),
    {
        let mut config = self;
        config.initial_max_stream_data = bytes;
        config
    }

    /// How many bytes the peer may send across all streams before waiting for credit.
    #[must_use]
    pub fn initial_max_data(self, bytes: u64) -> (config: Self)
        ensures
            config == (Config { initial_max_data: bytes, ..self }),
    {
        let mut config = self;
        config.initial_max_data = bytes;
        config
    }

    /// How many bidirectional streams the peer may open.
    #[must_use]
    pub fn max_streams_bidi(self, count: u64) -> (config: Self)
        ensures
            config == (Config { max_streams_bidi: count, ..self }),
    {
        let mut config = self;
        config.max_streams_bidi = count;
        config
    }

    /// How many unidirectional streams the peer may open.
    #[must_use]
    pub fn max_streams_uni(self, count: u64) -> (config: Self)
        ensures
            config == (Config { max_streams_uni: count, ..self }),
    {
        let mut config = self;
        config.max_streams_uni = count;
        config
    }

    /// How long a connection may sit idle before it lapses.
    #[must_use]
    pub fn max_idle_timeout(self, timeout: Duration) -> (config: Self)
        ensures
            config == (Config { max_idle_timeout: timeout, ..self }),
    {
        let mut config = self;
        config.max_idle_timeout = timeout;
        config
    }

    /// The round-trip estimate to use before one has been measured.
    #[must_use]
    pub fn initial_rtt(self, rtt: Duration) -> (config: Self)
        ensures
            config == (Config { initial_rtt: Some(rtt), ..self }),
    {
        let mut config = self;
        config.initial_rtt = Some(rtt);
        config
    }

    /// How long a handshake may take before it is abandoned.
    #[must_use]
    pub fn handshake_timeout(self, timeout: Duration) -> (config: Self)
        ensures
            config == (Config { handshake_timeout: Some(timeout), ..self }),
    {
        let mut config = self;
        config.handshake_timeout = Some(timeout);
        config
    }

    /// The transport parameters this configuration describes, on top of the engine's own.
    pub open spec fn params_over(self, defaults: NativeTransportParams) -> NativeTransportParams {
        NativeTransportParams {
            initial_max_stream_data_bidi_local: self.initial_max_stream_data,
            initial_max_stream_data_bidi_remote: self.initial_max_stream_data,
            initial_max_stream_data_uni: self.initial_max_stream_data,
            initial_max_data: self.initial_max_data,
            initial_max_streams_bidi: self.max_streams_bidi,
            initial_max_streams_uni: self.max_streams_uni,
            max_idle_timeout: self.max_idle_timeout@ as u64,
            ..defaults
        }
    }

    /// Builds the core transport parameters this configuration describes.
    pub fn transport_params(&self, defaults: NativeTransportParams) -> (params: TransportParams)
        ensures
            params@ == self.params_over(defaults),
    {
        TransportParams::new(defaults).initial_max_stream_data_bidi_local(
            self.initial_max_stream_data,
        ).initial_max_stream_data_bidi_remote(
            self.initial_max_stream_data,
        ).initial_max_stream_data_uni(self.initial_max_stream_data).initial_max_data(
            self.initial_max_data,
        ).initial_max_streams_bidi(self.max_streams_bidi).initial_max_streams_uni(
            self.max_streams_uni,
        ).max_idle_timeout(self.max_idle_timeout)
    }

    /// The settings this configuration describes, on top of the engine's own. A timing field
    /// nobody set leaves the engine's default alone.
    pub open spec fn settings_over(self, now: nat, defaults: NativeSettings) -> NativeSettings {
        NativeSettings {
            initial_ts: now as u64,
            initial_rtt: match self.initial_rtt {
                Some(rtt) => rtt@ as u64,
                None => defaults.initial_rtt,
            },
            handshake_timeout: match self.handshake_timeout {
                Some(timeout) => timeout@ as u64,
                None => defaults.handshake_timeout,
            },
            ..defaults
        }
    }

    /// Builds the core settings this configuration describes.
    pub fn settings(&self, now: Timestamp, defaults: NativeSettings) -> (settings: Settings)
        ensures
            settings@ == self.settings_over(now@, defaults),
    {
        let mut settings = Settings::new(now, defaults);
        if let Some(rtt) = self.initial_rtt {
            settings = settings.initial_rtt(rtt);
        }
        if let Some(timeout) = self.handshake_timeout {
            settings = settings.handshake_timeout(timeout);
        }
        settings
    }
}

} // verus!
