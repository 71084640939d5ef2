//! What a TLS backend and this crate say to each other.

use vstd::prelude::*;

use crate::error::Error;

verus! {

/// Which side of a connection a session is on.
#[derive(Clone, Copy, Debug, PartialEq, Eq, Hash, Structural)]
pub enum Role {
    /// Initiates the connection.
    Client,
    /// Accepts it.
    Server,
}

impl Role {
    /// Whether this is the server side.
    pub fn is_server(self) -> (server: bool)
        ensures
            server == (self == Role::Server),
    {
        match self {
            Role::Client => false,
            Role::Server => true,
        }
    }
}

/// The length of a header protection mask.
pub const HP_MASK_LEN: usize = 5;

/// The number of bytes sampled to produce that mask.
pub const HP_SAMPLE_LEN: usize = 16;

/// The stage of the handshake a key or a piece of handshake data belongs to.
#[derive(Clone, Copy, Debug, PartialEq, Eq, Hash, Structural)]
pub enum Level {
    /// Before any handshake key exists.
    Initial,
    /// Early data. Not implemented by this crate, but part of the level space.
    ZeroRtt,
    /// The handshake itself, once the first keys are agreed.
    Handshake,
    /// Application data.
    OneRtt,
}

/// Which way a key protects.
#[derive(Clone, Copy, Debug, PartialEq, Eq, Hash, Structural)]
pub enum Direction {
    /// Decrypting what the peer sent.
    Read,
    /// Encrypting what this endpoint sends.
    Write,
}

/// Why a cryptographic operation did not succeed.
///
/// A packet that fails to decrypt is an ordinary event: it may have been reordered past the
/// point where its key was discarded, or forged by anyone who can send a datagram. Treating
/// it as fatal would hand any third party a way to close the connection.
#[derive(Clone, Copy, Debug, PartialEq, Eq, Hash, Structural)]
pub enum CryptoError {
    /// The payload did not authenticate. The packet is discarded and the connection
    /// continues.
    Decrypt,
    /// Something is wrong with the backend or its configuration. The connection ends.
    Fatal,
}

/// A key that protects one direction of one encryption level's payloads.
///
/// A key is an object rather than a method on the session because the engine asks for
/// protection with nothing but the key in hand.
pub trait PacketKey: Send + 'static {
    /// Protects the first `plaintext_len` bytes of `buf` in place, leaving the tag behind
    /// them.
    fn seal(&self, buf: &mut [u8], plaintext_len: usize, nonce: &[u8], aad: &[u8]) -> Result<
        (),
        CryptoError,
    >;

    /// Unprotects `ciphertext` into `dest`, and says how long the plaintext is.
    fn open(&self, dest: &mut [u8], ciphertext: &[u8], nonce: &[u8], aad: &[u8]) -> Result<
        usize,
        CryptoError,
    >;

    /// How many bytes protection adds.
    fn tag_len(&self) -> usize;

    /// How many packets may be protected under this key.
    fn confidentiality_limit(&self) -> u64;

    /// How many packets may fail to authenticate under this key.
    fn integrity_limit(&self) -> u64;
}

/// A key that masks packet headers.
pub trait HeaderKey: Send + 'static {
    /// The mask for a sample of protected payload.
    fn mask(&self, sample: &[u8]) -> Result<[u8; HP_MASK_LEN], CryptoError>;
}

/// The keys for one direction of one encryption level.
#[derive(Debug)]
pub struct DirectionalKeys<P, H> {
    /// Protects payloads.
    pub packet: P,
    /// Masks headers.
    pub header: H,
    /// The initialisation vector.
    pub iv: Vec<u8>,
}

/// The keys for both directions of the Initial level.
#[derive(Debug)]
pub struct InitialKeys<P, H> {
    /// Decrypts what the peer sent.
    pub rx: DirectionalKeys<P, H>,
    /// Encrypts what this endpoint sends.
    pub tx: DirectionalKeys<P, H>,
}

/// The next generation of application keys.
///
/// Header protection keys stay as they were, so there is no place for them here.
#[derive(Debug)]
pub struct RotatedKeys<P> {
    /// Decrypts what the peer sends from now on.
    pub rx_packet: P,
    /// Its initialisation vector.
    pub rx_iv: Vec<u8>,
    /// The secret it came from.
    pub rx_secret: Vec<u8>,
    /// Encrypts what this endpoint sends from now on.
    pub tx_packet: P,
    /// Its initialisation vector.
    pub tx_iv: Vec<u8>,
    /// The secret it came from.
    pub tx_secret: Vec<u8>,
}

/// The connection, as a session sees it while a handshake is running.
///
/// Everything here takes effect before the call returns.
pub trait Handshaking<P, H> {
    /// Hands over the peer's transport parameters. Once.
    fn set_peer_transport_params(&mut self, peer: &[u8]) -> Result<(), Error>;

    /// This endpoint's transport parameters, once the peer's have arrived.
    fn local_transport_params(&mut self) -> Result<Vec<u8>, Error>;

    /// Installs the keys for one level and direction. Once for each.
    fn install_keys(
        &mut self,
        level: Level,
        direction: Direction,
        keys: DirectionalKeys<P, H>,
        secret: &[u8],
    ) -> Result<(), Error>;

    /// Submits handshake bytes to be sent at a level.
    fn submit_handshake(&mut self, level: Level, data: &[u8]) -> Result<(), Error>;
}

/// Something a session reports after the fact.
#[derive(Clone, Copy, Debug, PartialEq, Eq, Structural)]
pub enum SessionEvent {
    /// The handshake completed.
    HandshakeComplete,
    /// The session raised a TLS alert.
    Alert(u8),
}

/// One TLS session.
pub trait Session: Send + 'static {
    /// The key type that protects payloads.
    type PacketKey: PacketKey;

    /// The key type that masks headers.
    type HeaderKey: HeaderKey;

    /// The Initial keys for a version and a destination identifier.
    fn initial_keys(&mut self, version: u32, dcid: &[u8]) -> Result<
        InitialKeys<Self::PacketKey, Self::HeaderKey>,
        Error,
    >;

    /// The fixed key that a Retry's integrity tag is checked with.
    fn retry_key(&mut self, version: u32) -> Result<Self::PacketKey, Error>;

    /// Hands a client the transport parameters it will advertise.
    fn set_local_transport_params(&mut self, params: &[u8]) -> Result<(), Error>;

    /// Starts the handshake.
    fn start_handshake<C: Handshaking<Self::PacketKey, Self::HeaderKey>>(
        &mut self,
        conn: &mut C,
    ) -> Result<(), Error>;

    /// Feeds handshake bytes that arrived at a level.
    fn read_handshake<C: Handshaking<Self::PacketKey, Self::HeaderKey>>(
        &mut self,
        level: Level,
        data: &[u8],
        conn: &mut C,
    ) -> Result<(), Error>;

    /// The next thing the session has to report.
    fn poll_event(&mut self) -> Option<SessionEvent>;

    /// The next generation of application keys.
    fn rotate_keys(&mut self, rx_secret: &[u8], tx_secret: &[u8]) -> Result<
        RotatedKeys<Self::PacketKey>,
        Error,
    >;

    /// The application protocol the handshake settled on.
    fn negotiated_alpn(&self) -> Option<Vec<u8>>;

    /// Why the handshake failed, in words, where the session can say.
    fn failure_reason(&self) -> Option<String> {
        None
    }
}

/// Makes TLS sessions.
pub trait Backend {
    /// The session type it makes.
    type Session: Session;

    /// Whether the backend, asked for a session of a role that is to verify `server_name`
    /// where there is one, can answer `made`.
    ///
    /// Each backend says so for itself. One that says nothing may answer anything.
    open spec fn makes(
        &self,
        role: Role,
        server_name: Option<&str>,
        made: Result<Self::Session, Error>,
    ) -> bool {
        true
    }

    /// A session for one connection.
    fn new_session(&self, role: Role, server_name: Option<&str>) -> (made: Result<
        Self::Session,
        Error,
    >)
        ensures
            self.makes(role, server_name, made),
    ;
}

} // verus!
