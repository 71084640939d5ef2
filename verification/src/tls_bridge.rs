//! The rules between a TLS backend and the native engine.
//!
//! The engine takes the peer's transport parameters more than once without complaint,
//! encodes an incomplete set of its own rather than failing, and catches a key installed
//! twice only with assertions a release build deletes. None of these mistakes is visible on
//! this side; all of them surface as a peer that stops responding. So the refusals are made
//! here, where they can be attributed.

use vstd::prelude::*;

use crate::error::{Error, ErrorView};
use crate::native;
use crate::tls::{CryptoError, Direction, Level, SessionEvent};
use crate::validate::{iv_len, iv_pair, iv_pair_fault, secret_len, usable_iv, BAD_IV_LEN};

verus! {

/// Why the peer's parameters are refused a second time.
pub const PEER_PARAMS_TWICE: &'static str = "the peer's transport parameters were offered twice";

/// What failed when the engine rejected the peer's parameters.
pub const PEER_PARAMS_REJECTED: &'static str = "the peer's transport parameters were rejected";

/// Why local parameters are refused before the peer's.
pub const LOCAL_BEFORE_PEER: &'static str =
    "this endpoint's transport parameters were asked for before the peer's arrived";

/// Why a server's parameters are refused before its handshake write key.
pub const SERVER_PARAMS_INCOMPLETE: &'static str =
    "a server's transport parameters were asked for before its handshake write key \
     was installed, and would have been incomplete";

/// Why a key is refused a second time.
pub const KEYS_TWICE: &'static str =
    "a TLS backend installed keys twice for the same level and direction";

/// What failed when the engine would not take a key.
pub const INSTALL_FAILED: &'static str = "the key could not be installed";

/// What failed when the engine would not take handshake bytes.
pub const SUBMIT_FAILED: &'static str = "handshake data could not be submitted";

/// What failed when local parameters could not be encoded.
pub const ENCODE_FAILED: &'static str = "the local transport parameters could not be encoded";

/// How much room an ordinary parameter set is given.
pub const PARAMS_BUFFER: usize = 256;

/// How much room is given to one that did not fit.
pub const LARGE_PARAMS_BUFFER: usize = 4096;

/// What a connection stores behind its TLS handle: the session, and this crate's own record
/// of how far the exchange has got.
#[derive(Debug)]
pub struct SessionSlot<S> {
    /// The backend's session.
    pub session: S,
    /// This crate's bookkeeping about it.
    pub exchange: Exchange,
}

/// How far the transport-parameter exchange has got, and which keys are in.
#[derive(Clone, Copy, Debug)]
pub struct Exchange {
    /// Whether the peer's parameters have been taken.
    pub peer_taken: bool,
    /// Whether this endpoint's have been produced.
    pub local_yielded: bool,
    /// Whether the handshake write key is installed, which completes a server's set.
    pub handshake_tx_installed: bool,
    /// How long the receiving application key's initialisation vector is.
    ///
    /// A key update is sized from this one alone, and applies that size to both directions.
    pub onertt_rx_iv_len: Option<usize>,
    /// How long the sending application key's initialisation vector is.
    pub onertt_tx_iv_len: Option<usize>,
    /// Which of the engine's key slots have been filled.
    pub installed: [bool; 7],
}

/// Which of the engine's key slots a level and direction fill.
///
/// Seven, not eight: early data is one key, whichever direction it is offered as.
pub open spec fn slot_of(level: Level, direction: Direction) -> int {
    match (level, direction) {
        (Level::Initial, Direction::Read) => 0,
        (Level::Initial, Direction::Write) => 1,
        (Level::Handshake, Direction::Read) => 2,
        (Level::Handshake, Direction::Write) => 3,
        (Level::OneRtt, Direction::Read) => 4,
        (Level::OneRtt, Direction::Write) => 5,
        (Level::ZeroRtt, _) => 6,
    }
}

/// Which of the engine's key slots a level and direction fill.
pub fn install_slot(level: Level, direction: Direction) -> (slot: usize)
    ensures
        slot == slot_of(level, direction),
        slot < 7,
{
    let base: usize = match level {
        Level::ZeroRtt => return 6,
        Level::Initial => 0,
        Level::Handshake => 2,
        Level::OneRtt => 4,
    };
    match direction {
        Direction::Read => base,
        Direction::Write => base + 1,
    }
}

impl Default for Exchange {
    fn default() -> (exchange: Self)
        ensures
            exchange.untouched(),
            exchange.wf(),
    {
        Exchange {
            peer_taken: false,
            local_yielded: false,
            handshake_tx_installed: false,
            onertt_rx_iv_len: None,
            onertt_tx_iv_len: None,
            installed: [false;7],
        }
    }
}

impl Exchange {
    /// Nothing has happened yet.
    pub open spec fn untouched(self) -> bool {
        &&& !self.peer_taken
        &&& !self.local_yielded
        &&& !self.handshake_tx_installed
        &&& self.onertt_rx_iv_len is None
        &&& self.onertt_tx_iv_len is None
        &&& forall|slot: int| 0 <= slot < 7 ==> !(#[trigger] self.installed@[slot])
    }

    /// What has been recorded is consistent: local parameters were produced only after the
    /// peer's, the handshake write key's record agrees with its slot, and the application
    /// keys that are in share one usable vector length.
    pub open spec fn wf(self) -> bool {
        &&& self.local_yielded ==> self.peer_taken
        &&& self.handshake_tx_installed == self.installed@[slot_of(
            Level::Handshake,
            Direction::Write,
        )]
        &&& self.onertt_rx_iv_len is Some == self.installed@[slot_of(
            Level::OneRtt,
            Direction::Read,
        )]
        &&& self.onertt_tx_iv_len is Some == self.installed@[slot_of(
            Level::OneRtt,
            Direction::Write,
        )]
        &&& self.onertt_rx_iv_len matches Some(len) ==> usable_iv(len as int)
        &&& self.onertt_tx_iv_len matches Some(len) ==> usable_iv(len as int)
        &&& (self.onertt_rx_iv_len is Some && self.onertt_tx_iv_len is Some)
            ==> self.onertt_rx_iv_len == self.onertt_tx_iv_len
    }

    /// Whether the peer's parameters may be handed to the engine, which they may once.
    pub fn check_peer_params(&self) -> (checked: Result<(), Error>)
        ensures
            match checked {
                Ok(()) => !self.peer_taken,
                Err(error) => self.peer_taken && error@ == ErrorView::backend(PEER_PARAMS_TWICE@),
            },
    {
        if self.peer_taken {
            return Err(Error::backend(PEER_PARAMS_TWICE));
        }
        Ok(())
    }

    /// Records the engine's answer to the peer's parameters.
    pub fn set_peer_transport_params(&mut self, rv: i32) -> (result: Result<(), Error>)
        requires
            old(self).wf(),
        ensures
            final(self).wf(),
            match result {
                Ok(()) => {
                    &&& !old(self).peer_taken && rv == 0
                    &&& *final(self) == (Exchange { peer_taken: true, ..*old(self) })
                },
                Err(error) => {
                    &&& *final(self) == *old(self)
                    &&& if old(self).peer_taken {
                        error@ == ErrorView::backend(PEER_PARAMS_TWICE@)
                    } else {
                        rv != 0 && error@ == ErrorView::from_native(
                            rv as int,
                            PEER_PARAMS_REJECTED@,
                        )
                    }
                },
            },
    {
        match self.check_peer_params() {
            Ok(()) => {},
            Err(error) => return Err(error),
        }
        if rv != 0 {
            return Err(Error::native(rv, PEER_PARAMS_REJECTED));
        }
        self.peer_taken = true;
        Ok(())
    }

    /// Why local parameters cannot be produced yet, if they cannot.
    pub open spec fn local_params_fault(self, server: bool) -> Option<Seq<char>> {
        if !self.peer_taken {
            Some(LOCAL_BEFORE_PEER@)
        } else if server && !self.handshake_tx_installed {
            Some(SERVER_PARAMS_INCOMPLETE@)
        } else {
            None
        }
    }

    /// Whether the engine may be asked to encode this endpoint's parameters.
    pub fn check_local_params(&self, server: bool) -> (checked: Result<(), Error>)
        ensures
            match checked {
                Ok(()) => self.local_params_fault(server) is None,
                Err(error) => self.local_params_fault(server) matches Some(context) && error@
                    == ErrorView::backend(context),
            },
    {
        if !self.peer_taken {
            return Err(Error::backend(LOCAL_BEFORE_PEER));
        }
        if server && !self.handshake_tx_installed {
            return Err(Error::backend(SERVER_PARAMS_INCOMPLETE));
        }
        Ok(())
    }

    /// Records what encoding this endpoint's parameters came to, and hands them on.
    pub fn local_transport_params(
        &mut self,
        server: bool,
        encoded: Result<Vec<u8>, Error>,
    ) -> (result: Result<Vec<u8>, Error>)
        requires
            old(self).wf(),
        ensures
            final(self).wf(),
            match result {
                Ok(params) => {
                    &&& old(self).local_params_fault(server) is None
                    &&& encoded == Ok::<Vec<u8>, Error>(params)
                    &&& *final(self) == (Exchange { local_yielded: true, ..*old(self) })
                },
                Err(error) => {
                    &&& *final(self) == *old(self)
                    &&& match old(self).local_params_fault(server) {
                        Some(context) => error@ == ErrorView::backend(context),
                        None => encoded == Err::<Vec<u8>, Error>(error),
                    }
                },
            },
    {
        match self.check_local_params(server) {
            Ok(()) => {},
            Err(error) => return Err(error),
        }
        match encoded {
            Ok(params) => {
                self.local_yielded = true;
                Ok(params)
            },
            Err(error) => Err(error),
        }
    }

    /// The length the other application direction already has, if this is one of them.
    pub open spec fn other_direction(self, direction: Direction) -> Option<usize> {
        match direction {
            Direction::Read => self.onertt_tx_iv_len,
            Direction::Write => self.onertt_rx_iv_len,
        }
    }

    /// Why a key is refused before the engine sees it, if it is.
    pub open spec fn key_fault(
        self,
        level: Level,
        direction: Direction,
        iv: usize,
    ) -> Option<ErrorView> {
        if self.installed@[slot_of(level, direction)] {
            Some(ErrorView::backend(KEYS_TWICE@))
        } else if level == Level::OneRtt {
            let fault = match self.other_direction(direction) {
                Some(other) => iv_pair_fault(iv as int, other as int),
                None => if usable_iv(iv as int) {
                    None
                } else {
                    Some(BAD_IV_LEN@)
                },
            };
            match fault {
                Some(context) => Some(ErrorView::invalid_input(context)),
                None => None,
            }
        } else {
            None
        }
    }

    /// Whether a key may be handed to the engine.
    ///
    /// A slot is filled once: a second key would overwrite the engine's only reference to
    /// the first. The two application directions must share a vector length.
    pub fn check_key(&self, level: Level, direction: Direction, iv: usize) -> (checked: Result<
        (),
        Error,
    >)
        ensures
            match checked {
                Ok(()) => self.key_fault(level, direction, iv) is None,
                Err(error) => self.key_fault(level, direction, iv) == Some(error@),
            },
    {
        if self.installed[install_slot(level, direction)] {
            return Err(Error::backend(KEYS_TWICE));
        }
        if level == Level::OneRtt {
            let other: Option<usize> = match direction {
                Direction::Read => self.onertt_tx_iv_len,
                Direction::Write => self.onertt_rx_iv_len,
            };
            match other {
                Some(other) => iv_pair(iv, other),
                None => iv_len(iv),
            }
        } else {
            Ok(())
        }
    }

    /// The record once a key is in.
    pub open spec fn with_key(self, level: Level, direction: Direction, iv: usize) -> Self {
        Exchange {
            handshake_tx_installed: self.handshake_tx_installed || (level == Level::Handshake
                && direction == Direction::Write),
            onertt_rx_iv_len: if level == Level::OneRtt && direction == Direction::Read {
                Some(iv)
            } else {
                self.onertt_rx_iv_len
            },
            onertt_tx_iv_len: if level == Level::OneRtt && direction == Direction::Write {
                Some(iv)
            } else {
                self.onertt_tx_iv_len
            },
            ..self
        }
    }

    /// Records the engine's answer to a key: only one it took counts as installed.
    ///
    /// No level takes a vector the engine cannot use, and the Initial level is not installed
    /// this way: see [`install_level`].
    pub fn install_keys(
        &mut self,
        level: Level,
        direction: Direction,
        iv: usize,
        rv: i32,
    ) -> (result: Result<(), Error>)
        requires
            old(self).wf(),
        ensures
            final(self).wf(),
            match result {
                Ok(()) => {
                    &&& old(self).key_fault(level, direction, iv) is None
                    &&& usable_iv(iv as int) && level != Level::Initial && rv == 0
                    &&& final(self).installed@ == old(self).installed@.update(
                        slot_of(level, direction),
                        true,
                    )
                    &&& *final(self) == (Exchange {
                        installed: final(self).installed,
                        ..old(self).with_key(level, direction, iv)
                    })
                },
                Err(error) => {
                    &&& *final(self) == *old(self)
                    &&& match old(self).key_fault(level, direction, iv) {
                        Some(fault) => error@ == fault,
                        None => {
                            &&& !(usable_iv(iv as int) && level != Level::Initial && rv == 0)
                            &&& error@ == ErrorView::from_native(
                                native::ERR_CALLBACK_FAILURE as int,
                                INSTALL_FAILED@,
                            )
                        },
                    }
                },
            },
    {
        match self.check_key(level, direction, iv) {
            Ok(()) => {},
            Err(error) => return Err(error),
        }
        let code: i32 = install_level(level, iv, rv);
        if code != 0 {
            return Err(Error::native(code, INSTALL_FAILED));
        }
        let slot: usize = install_slot(level, direction);
        self.installed[slot] = true;
        if level == Level::Handshake && direction == Direction::Write {
            self.handshake_tx_installed = true;
        }
        if level == Level::OneRtt {
            match direction {
                Direction::Read => {
                    self.onertt_rx_iv_len = Some(iv);
                },
                Direction::Write => {
                    self.onertt_tx_iv_len = Some(iv);
                },
            }
        }
        Ok(())
    }

    /// What a session's report is answered with: a handshake that completes without the
    /// peer's parameters ever having arrived is not a completed handshake.
    pub fn session_event(&self, event: SessionEvent) -> (code: i32)
        ensures
            code == (if event == SessionEvent::HandshakeComplete && !self.peer_taken {
                native::ERR_CALLBACK_FAILURE
            } else {
                0
            }),
    {
        match event {
            SessionEvent::HandshakeComplete => if self.peer_taken {
                0
            } else {
                native::ERR_CALLBACK_FAILURE
            },
            SessionEvent::Alert(_) => 0,
        }
    }

    /// Whether a rotated generation fits the buffers the engine sized for it: both vectors
    /// as long as the installed receiving one, both secrets as long as the current ones.
    pub open spec fn rotation_fits(
        self,
        rx_iv: usize,
        tx_iv: usize,
        rx_secret: usize,
        tx_secret: usize,
        secretlen: usize,
    ) -> bool {
        &&& self.onertt_rx_iv_len == Some(rx_iv)
        &&& usable_iv(rx_iv as int)
        &&& tx_iv == rx_iv
        &&& rx_secret == secretlen
        &&& tx_secret == secretlen
    }

    /// Checks a rotated generation before anything is written or kept.
    pub fn update_key(
        &self,
        rx_iv: usize,
        tx_iv: usize,
        rx_secret: usize,
        tx_secret: usize,
        secretlen: usize,
    ) -> (code: i32)
        ensures
            code == (if self.rotation_fits(rx_iv, tx_iv, rx_secret, tx_secret, secretlen) {
                0
            } else {
                native::ERR_CALLBACK_FAILURE
            }),
    {
        let expected: usize = match self.onertt_rx_iv_len {
            Some(len) => len,
            None => 0,
        };
        if iv_pair(rx_iv, tx_iv).is_err() || rx_iv != expected || secret_len(
            rx_secret,
            secretlen,
        ).is_err() || secret_len(tx_secret, secretlen).is_err() {
            return native::ERR_CALLBACK_FAILURE;
        }
        0
    }
}

/// What installing the Initial keys, for the first version or a negotiated one, is answered
/// with. The engine takes one vector length for the pair.
pub fn install_initial(rx_iv: usize, tx_iv: usize, rv: i32) -> (code: i32)
    ensures
        code == (if iv_pair_fault(rx_iv as int, tx_iv as int) is None && rv == 0 {
            0
        } else {
            native::ERR_CALLBACK_FAILURE
        }),
{
    if iv_pair(rx_iv, tx_iv).is_err() || rv != 0 {
        return native::ERR_CALLBACK_FAILURE;
    }
    0
}

/// What installing one direction's keys above the Initial level is answered with.
///
/// The Initial level is not installed this way.
pub fn install_level(level: Level, iv: usize, rv: i32) -> (code: i32)
    ensures
        code == (if usable_iv(iv as int) && level != Level::Initial && rv == 0 {
            0
        } else {
            native::ERR_CALLBACK_FAILURE
        }),
{
    if iv_len(iv).is_err() || level == Level::Initial || rv != 0 {
        return native::ERR_CALLBACK_FAILURE;
    }
    0
}

/// What submitting handshake bytes came to.
pub fn submit_handshake(rv: i32) -> (result: Result<(), Error>)
    ensures
        match result {
            Ok(()) => rv == 0,
            Err(error) => rv != 0 && error@ == ErrorView::from_native(rv as int, SUBMIT_FAILED@),
        },
{
    if rv != 0 {
        return Err(Error::native(rv, SUBMIT_FAILED));
    }
    Ok(())
}

/// What to do after an attempt to encode local parameters.
#[derive(Clone, Copy, Debug, PartialEq, Eq, Structural)]
pub enum EncodeStep {
    /// This many bytes were written.
    Done(usize),
    /// They did not fit; try the larger buffer.
    Enlarge,
    /// They cannot be encoded.
    Fail,
}

/// Decides what an attempt to encode local parameters came to.
///
/// A set that does not fit the ordinary buffer is tried once more in a larger one rather
/// than reported: a truncated encoding would be a handshake that fails with nothing to point
/// at.
pub fn encode_local_params(written: isize, enlarged: bool) -> (step: EncodeStep)
    ensures
        step == (if written >= 0 {
            EncodeStep::Done(written as usize)
        } else if written == native::ERR_NOBUF && !enlarged {
            EncodeStep::Enlarge
        } else {
            EncodeStep::Fail
        }),
{
    if written >= 0 {
        EncodeStep::Done(written as usize)
    } else if written == native::ERR_NOBUF as isize && !enlarged {
        EncodeStep::Enlarge
    } else {
        EncodeStep::Fail
    }
}

/// The engine's number for an encryption level.
pub open spec fn native_level(level: Level) -> u32 {
    match level {
        Level::Initial => native::ENCRYPTION_LEVEL_INITIAL,
        Level::Handshake => native::ENCRYPTION_LEVEL_HANDSHAKE,
        Level::OneRtt => native::ENCRYPTION_LEVEL_1RTT,
        Level::ZeroRtt => native::ENCRYPTION_LEVEL_0RTT,
    }
}

/// Maps an encryption level onto the engine's.
pub fn to_native(level: Level) -> (number: u32)
    ensures
        number == native_level(level),
{
    match level {
        Level::Initial => native::ENCRYPTION_LEVEL_INITIAL,
        Level::Handshake => native::ENCRYPTION_LEVEL_HANDSHAKE,
        Level::OneRtt => native::ENCRYPTION_LEVEL_1RTT,
        Level::ZeroRtt => native::ENCRYPTION_LEVEL_0RTT,
    }
}

/// The encryption level with an engine's number, where it has one.
pub open spec fn level_of(number: u32) -> Option<Level> {
    if number == native::ENCRYPTION_LEVEL_INITIAL {
        Some(Level::Initial)
    } else if number == native::ENCRYPTION_LEVEL_0RTT {
        Some(Level::ZeroRtt)
    } else if number == native::ENCRYPTION_LEVEL_HANDSHAKE {
        Some(Level::Handshake)
    } else if number == native::ENCRYPTION_LEVEL_1RTT {
        Some(Level::OneRtt)
    } else {
        None
    }
}

/// Maps the engine's encryption level onto this crate's; a number it does not define is
/// rejected rather than guessed at.
pub fn from_native(number: u32) -> (level: Option<Level>)
    ensures
        level == level_of(number),
{
    if number == native::ENCRYPTION_LEVEL_INITIAL {
        Some(Level::Initial)
    } else if number == native::ENCRYPTION_LEVEL_0RTT {
        Some(Level::ZeroRtt)
    } else if number == native::ENCRYPTION_LEVEL_HANDSHAKE {
        Some(Level::Handshake)
    } else if number == native::ENCRYPTION_LEVEL_1RTT {
        Some(Level::OneRtt)
    } else {
        None
    }
}

/// What protecting a payload is answered with.
pub fn encrypt(sealed: Result<(), CryptoError>) -> (code: i32)
    ensures
        code == (if sealed is Ok {
            0
        } else {
            native::ERR_CALLBACK_FAILURE
        }),
{
    match sealed {
        Ok(()) => 0,
        Err(_) => native::ERR_CALLBACK_FAILURE,
    }
}

/// What unprotecting a payload is answered with.
///
/// A payload that does not authenticate is an ordinary event, and the engine discards the
/// packet and carries on. Reporting it as a failure of the callback would let anyone able to
/// send a datagram close the connection.
pub fn decrypt(opened: Result<usize, CryptoError>) -> (code: i32)
    ensures
        code == (match opened {
            Ok(_) => 0i32,
            Err(CryptoError::Decrypt) => native::ERR_DECRYPT,
            Err(CryptoError::Fatal) => native::ERR_CALLBACK_FAILURE,
        }),
{
    match opened {
        Ok(_) => 0,
        Err(CryptoError::Decrypt) => native::ERR_DECRYPT,
        Err(CryptoError::Fatal) => native::ERR_CALLBACK_FAILURE,
    }
}

/// What masking a header is answered with.
pub fn hp_mask(masked: bool) -> (code: i32)
    ensures
        code == (if masked {
            0
        } else {
            native::ERR_CALLBACK_FAILURE
        }),
{
    if masked {
        0
    } else {
        native::ERR_CALLBACK_FAILURE
    }
}

/// What feeding a session handshake bytes is answered with: a session that could not read
/// them failed the handshake.
pub fn recv_crypto_data(read: bool) -> (code: i32)
    ensures
        code == (if read {
            0
        } else {
            native::ERR_CRYPTO
        }),
{
    if read {
        0
    } else {
        native::ERR_CRYPTO
    }
}

/// The level mappings are inverses: a level comes back from its number, and a number from
/// the level it names, where it names one.
pub proof fn law_the_level_mapping_round_trips(level: Level, number: u32)
    ensures
        level_of(native_level(level)) == Some(level),
        level_of(number) matches Some(named) ==> native_level(named) == number,
{
}

/// No two keys share a slot, except the two directions of early data, which are one key; and
/// every slot is one the engine has.
pub proof fn law_slots_mirror_the_engines_key_storage(
    level: Level,
    direction: Direction,
    other_level: Level,
    other_direction: Direction,
)
    ensures
        0 <= slot_of(level, direction) < 7,
        slot_of(level, direction) == slot_of(other_level, other_direction) <==> level
            == other_level && (direction == other_direction || level == Level::ZeroRtt),
{
}

/// A key that is in stays in: no second key for its slot gets past the check.
pub proof fn law_no_slot_is_filled_twice(
    exchange: Exchange,
    level: Level,
    direction: Direction,
    iv: usize,
)
    requires
        exchange.installed@[slot_of(level, direction)],
    ensures
        exchange.key_fault(level, direction, iv) == Some(ErrorView::backend(KEYS_TWICE@)),
{
}

/// A rotation that is accepted fits both buffers the engine sized from the receiving key,
/// because the two application directions were held to one length when they were installed.
pub proof fn law_an_accepted_rotation_fits_both_directions(
    exchange: Exchange,
    rx_iv: usize,
    tx_iv: usize,
    rx_secret: usize,
    tx_secret: usize,
    secretlen: usize,
)
    requires
        exchange.wf(),
        exchange.onertt_tx_iv_len is Some,
        exchange.rotation_fits(rx_iv, tx_iv, rx_secret, tx_secret, secretlen),
    ensures
        exchange.onertt_rx_iv_len == Some(rx_iv),
        exchange.onertt_tx_iv_len == Some(tx_iv),
        rx_secret == secretlen && tx_secret == secretlen,
{
}

} // verus!
