//! What the bridge to a TLS backend promises: that parameters and keys change hands in the one
//! order that works, and that what the engine would silently get wrong never reaches it.

use vstd::prelude::*;

use crate::error::{Error, ErrorKind};
use crate::tls::{CryptoError, Direction, Level, SessionEvent};
use crate::tls_bridge::{
    decrypt, encode_local_params, encrypt, from_native, hp_mask, install_initial, install_level,
    install_slot, recv_crypto_data, submit_handshake, to_native, EncodeStep, Exchange,
    KEYS_TWICE, LOCAL_BEFORE_PEER, PEER_PARAMS_REJECTED, PEER_PARAMS_TWICE,
    SERVER_PARAMS_INCOMPLETE, SUBMIT_FAILED,
};
use crate::validate::{iv_len, iv_pair, secret_len};

verus! {

/// The place a key is kept, of the seven there are: one for each direction of three levels,
/// and one for early data, which has a single direction.
pub open spec fn key_place(level: Level, direction: Direction) -> int {
    match level {
        Level::ZeroRtt => 6,
        Level::Initial => if direction == Direction::Read {
            0
        } else {
            1
        },
        Level::Handshake => if direction == Direction::Read {
            2
        } else {
            3
        },
        Level::OneRtt => if direction == Direction::Read {
            4
        } else {
            5
        },
    }
}

/// Each level and direction keeps its key in a place of its own, but for early data, whose two
/// directions share one.
pub proof fn law_every_key_has_its_own_place(
    level: Level,
    direction: Direction,
    other_level: Level,
    other_direction: Direction,
    slot: usize,
    other_slot: usize,
)
    requires
        call_ensures(install_slot, (level, direction), slot),
        call_ensures(install_slot, (other_level, other_direction), other_slot),
    ensures
        slot < 7,
        slot == other_slot <==> level == other_level && (direction == other_direction || level
            == Level::ZeroRtt),
        slot == key_place(level, direction),
{
}

/// An exchange starts with nothing taken, nothing given and no key in.
pub proof fn law_an_exchange_starts_empty(exchange: Exchange)
    requires
        call_ensures(Exchange::default, (), exchange),
    ensures
        !exchange.peer_taken && !exchange.local_yielded && !exchange.handshake_tx_installed,
        exchange.onertt_rx_iv_len is None && exchange.onertt_tx_iv_len is None,
        forall|slot: int| 0 <= slot < 7 ==> !(#[trigger] exchange.installed@[slot]),
{
}

/// The peer's parameters are taken once, and only if the engine took them. A second offer is
/// refused and changes nothing.
pub proof fn law_the_peers_parameters_are_taken_once(
    exchange: &mut Exchange,
    rv: i32,
    result: Result<(), Error>,
)
    requires
        call_ensures(Exchange::set_peer_transport_params, (exchange, rv), result),
    ensures
        result is Ok <==> !old(exchange).peer_taken && rv == 0,
        final(exchange).peer_taken <==> old(exchange).peer_taken || rv == 0,
        result is Err ==> *final(exchange) == *old(exchange),
        *final(exchange) == (Exchange { peer_taken: final(exchange).peer_taken, ..*old(exchange) }),
        old(exchange).peer_taken ==> result->Err_0@.kind == ErrorKind::Crypto
            && result->Err_0@.native is None && result->Err_0@.context == PEER_PARAMS_TWICE@,
        !old(exchange).peer_taken && rv != 0 ==> result->Err_0@.native == Some(rv as int)
            && result->Err_0@.context == PEER_PARAMS_REJECTED@,
{
}

/// What a check of the peer's parameters says is what taking them would have said.
pub proof fn law_the_peers_parameters_are_checked_first(
    exchange: Exchange,
    checked: Result<(), Error>,
)
    requires
        call_ensures(Exchange::check_peer_params, (&exchange,), checked),
    ensures
        checked is Ok <==> !exchange.peer_taken,
        checked is Err ==> checked->Err_0@.kind == ErrorKind::Crypto && checked->Err_0@.context
            == PEER_PARAMS_TWICE@,
{
}

/// Local parameters are given exactly when they are complete: once the peer's have arrived,
/// and, for a server, once its handshake write key is in. A client needs no key.
pub proof fn law_local_parameters_are_given_once_complete(
    exchange: Exchange,
    server: bool,
    checked: Result<(), Error>,
)
    requires
        call_ensures(Exchange::check_local_params, (&exchange, server), checked),
    ensures
        checked is Ok <==> exchange.peer_taken && (!server || exchange.handshake_tx_installed),
        exchange.wf() ==> (checked is Ok <==> exchange.peer_taken && (!server
            || exchange.installed@[3])),
        !exchange.peer_taken ==> checked->Err_0@.kind == ErrorKind::Crypto
            && checked->Err_0@.context == LOCAL_BEFORE_PEER@,
        exchange.peer_taken && checked is Err ==> checked->Err_0@.kind == ErrorKind::Crypto
            && checked->Err_0@.context == SERVER_PARAMS_INCOMPLETE@,
{
}

/// Local parameters that are due and could be encoded are handed over as they were encoded, and
/// counted as given; any others are not.
pub proof fn law_local_parameters_are_handed_over_as_encoded(
    exchange: &mut Exchange,
    server: bool,
    encoded: Result<Vec<u8>, Error>,
    result: Result<Vec<u8>, Error>,
)
    requires
        call_ensures(Exchange::local_transport_params, (exchange, server, encoded), result),
    ensures
        ({
            let due = old(exchange).peer_taken && (!server || old(exchange).handshake_tx_installed);
            &&& due && encoded is Ok ==> {
                &&& result == encoded
                &&& *final(exchange) == (Exchange { local_yielded: true, ..*old(exchange) })
            }
            &&& due && encoded is Err ==> result == encoded && *final(exchange) == *old(exchange)
            &&& !due ==> {
                &&& result is Err && *final(exchange) == *old(exchange)
                &&& result->Err_0@.kind == ErrorKind::Crypto
            }
        }),
{
}

/// The order a handshake takes: once the peer's parameters were taken and, at a server, the
/// handshake write key installed, local parameters are given. Before the key, a server's are
/// refused.
pub proof fn law_a_handshake_in_order_gives_the_parameters(
    taking: &mut Exchange,
    taken: Result<(), Error>,
    installing: &mut Exchange,
    iv: usize,
    installed: Result<(), Error>,
    early: Exchange,
    before: Result<(), Error>,
    ready: Exchange,
    after: Result<(), Error>,
)
    requires
        call_ensures(Exchange::set_peer_transport_params, (taking, 0), taken),
        taken is Ok,
        *old(installing) == *final(taking),
        !old(installing).handshake_tx_installed,
        call_ensures(
            Exchange::install_keys,
            (installing, Level::Handshake, Direction::Write, iv, 0),
            installed,
        ),
        installed is Ok,
        early == *old(installing),
        call_ensures(Exchange::check_local_params, (&early, true), before),
        ready == *final(installing),
        call_ensures(Exchange::check_local_params, (&ready, true), after),
    ensures
        before is Err,
        after is Ok,
{
}

/// A key goes in exactly once: into a place that has none, with a vector the engine can use,
/// as long as that of the other direction where both carry application data, above the Initial
/// level, and if the engine took it. One that does not go in changes nothing.
pub proof fn law_a_key_goes_in_once_and_only_if_usable(
    exchange: &mut Exchange,
    level: Level,
    direction: Direction,
    iv: usize,
    rv: i32,
    result: Result<(), Error>,
)
    requires
        call_ensures(Exchange::install_keys, (exchange, level, direction, iv, rv), result),
    ensures
        ({
            let before = *old(exchange);
            let after = *final(exchange);
            let other = if direction == Direction::Read {
                before.onertt_tx_iv_len
            } else {
                before.onertt_rx_iv_len
            };
            let place = key_place(level, direction);
            &&& before.wf() ==> (result is Ok <==> {
                &&& !before.installed@[place]
                &&& 8 <= iv <= 64
                &&& level != Level::Initial
                &&& rv == 0
                &&& level == Level::OneRtt ==> (other is Some ==> other == Some(iv))
            })
            &&& result is Err ==> after == before
            &&& result is Ok ==> {
                &&& 8 <= iv <= 64 && rv == 0 && level != Level::Initial
                &&& !before.installed@[place] && after.installed@[place]
                &&& forall|slot: int|
                    0 <= slot < 7 && slot != place ==> #[trigger] after.installed@[slot]
                        == before.installed@[slot]
                &&& after.peer_taken == before.peer_taken
                &&& after.local_yielded == before.local_yielded
                &&& after.handshake_tx_installed <==> before.handshake_tx_installed || level
                    == Level::Handshake && direction == Direction::Write
                &&& after.onertt_rx_iv_len == (if level == Level::OneRtt && direction
                    == Direction::Read {
                    Some(iv)
                } else {
                    before.onertt_rx_iv_len
                })
                &&& after.onertt_tx_iv_len == (if level == Level::OneRtt && direction
                    == Direction::Write {
                    Some(iv)
                } else {
                    before.onertt_tx_iv_len
                })
            }
            &&& before.installed@[place] ==> result->Err_0@.context == KEYS_TWICE@
                && result->Err_0@.kind == ErrorKind::Crypto
        }),
{
}

/// A key is checked, before the engine sees it, for everything but what the engine itself
/// says.
pub proof fn law_a_key_is_checked_before_the_engine_sees_it(
    exchange: Exchange,
    level: Level,
    direction: Direction,
    iv: usize,
    checked: Result<(), Error>,
)
    requires
        call_ensures(Exchange::check_key, (&exchange, level, direction, iv), checked),
        exchange.wf(),
    ensures
        ({
            let other = if direction == Direction::Read {
                exchange.onertt_tx_iv_len
            } else {
                exchange.onertt_rx_iv_len
            };
            checked is Ok <==> {
                &&& !exchange.installed@[key_place(level, direction)]
                &&& level == Level::OneRtt ==> 8 <= iv <= 64 && (other is Some ==> other
                    == Some(iv))
            }
        }),
{
}

/// A rotated generation is taken exactly when it fits what the engine sized for it: both
/// vectors as long as the one that is in, both secrets as long as those they replace.
pub proof fn law_a_rotation_fits_or_is_refused(
    exchange: Exchange,
    rx_iv: usize,
    tx_iv: usize,
    rx_secret: usize,
    tx_secret: usize,
    secretlen: usize,
    code: i32,
)
    requires
        call_ensures(
            Exchange::update_key,
            (&exchange, rx_iv, tx_iv, rx_secret, tx_secret, secretlen),
            code,
        ),
    ensures
        code == 0 <==> {
            &&& exchange.onertt_rx_iv_len == Some(rx_iv)
            &&& 8 <= rx_iv <= 64
            &&& tx_iv == rx_iv
            &&& rx_secret == secretlen && tx_secret == secretlen
        },
        code == 0 || code == -502,
{
}

/// A handshake counts as complete only if the peer's parameters arrived. An alert is for the
/// backend alone.
pub proof fn law_a_handshake_completes_with_the_peers_parameters(
    exchange: Exchange,
    event: SessionEvent,
    code: i32,
)
    requires
        call_ensures(Exchange::session_event, (&exchange, event), code),
    ensures
        event is HandshakeComplete && !exchange.peer_taken ==> code == -502,
        event is HandshakeComplete && exchange.peer_taken ==> code == 0,
        event is Alert ==> code == 0,
{
}

/// Initial keys go in as a pair that shares a usable vector length, others one at a time; in
/// both cases only if the engine took them.
pub proof fn law_only_usable_keys_are_reported_installed(
    rx_iv: usize,
    tx_iv: usize,
    rv: i32,
    initial: i32,
    level: Level,
    iv: usize,
    other: i32,
)
    requires
        call_ensures(install_initial, (rx_iv, tx_iv, rv), initial),
        call_ensures(install_level, (level, iv, rv), other),
    ensures
        initial == 0 <==> 8 <= rx_iv <= 64 && tx_iv == rx_iv && rv == 0,
        initial == 0 || initial == -502,
        other == 0 <==> 8 <= iv <= 64 && level != Level::Initial && rv == 0,
        other == 0 || other == -502,
{
}

/// The lengths that are allowed: vectors of eight to sixty-four bytes, alike in both
/// directions, and secrets as long as expected.
pub proof fn law_the_lengths_that_are_allowed(
    first: usize,
    second: usize,
    single: Result<(), Error>,
    pair: Result<(), Error>,
    secret: Result<(), Error>,
)
    requires
        call_ensures(iv_len, (first,), single),
        call_ensures(iv_pair, (first, second), pair),
        call_ensures(secret_len, (first, second), secret),
    ensures
        single is Ok <==> 8 <= first <= 64,
        pair is Ok <==> 8 <= first <= 64 && first == second,
        secret is Ok <==> first == second,
        single is Err ==> single->Err_0@.kind == ErrorKind::InvalidInput,
        pair is Err ==> pair->Err_0@.kind == ErrorKind::InvalidInput,
        secret is Err ==> secret->Err_0@.kind == ErrorKind::InvalidInput,
{
}

/// Handshake bytes are submitted if the engine took them.
pub proof fn law_handshake_bytes_are_submitted_if_taken(rv: i32, result: Result<(), Error>)
    requires
        call_ensures(submit_handshake, (rv,), result),
    ensures
        result is Ok <==> rv == 0,
        result is Err ==> result->Err_0@.native == Some(rv as int) && result->Err_0@.context
            == SUBMIT_FAILED@,
{
}

/// Parameters that do not fit are tried once more in the larger buffer, and never reported
/// truncated.
pub proof fn law_parameters_that_do_not_fit_are_tried_again_once(
    written: isize,
    enlarged: bool,
    step: EncodeStep,
)
    requires
        call_ensures(encode_local_params, (written, enlarged), step),
    ensures
        written >= 0 ==> step == EncodeStep::Done(written as usize),
        written == -202 && !enlarged ==> step is Enlarge,
        written == -202 && enlarged ==> step is Fail,
        written < 0 && written != -202 ==> step is Fail,
{
}

/// A level survives the trip to the engine's number and back, and a number the engine does not
/// define is no level.
pub proof fn law_levels_are_numbered_as_the_engine_numbers_them(
    level: Level,
    number: u32,
    named: u32,
    found: Option<Level>,
    back: Option<Level>,
)
    requires
        call_ensures(to_native, (level,), named),
        call_ensures(from_native, (named,), back),
        call_ensures(from_native, (number,), found),
    ensures
        back == Some(level),
        named == (match level {
            Level::Initial => 0u32,
            Level::Handshake => 1u32,
            Level::OneRtt => 2u32,
            Level::ZeroRtt => 3u32,
        }),
        found is None <==> number > 3,
{
}

/// A packet that does not open is the peer's affair; any other failure of a key is fatal. A
/// backend that could not read what the peer sent fails the handshake.
pub proof fn law_a_packet_that_does_not_open_is_not_a_broken_key(
    sealed: Result<(), CryptoError>,
    sealing: i32,
    opened: Result<usize, CryptoError>,
    opening: i32,
    done: bool,
    masking: i32,
    reading: i32,
)
    requires
        call_ensures(encrypt, (sealed,), sealing),
        call_ensures(decrypt, (opened,), opening),
        call_ensures(hp_mask, (done,), masking),
        call_ensures(recv_crypto_data, (done,), reading),
    ensures
        sealed is Ok ==> sealing == 0,
        sealed is Err ==> sealing == -502,
        opened is Ok ==> opening == 0,
        opened is Err && opened->Err_0 is Decrypt ==> opening == -218,
        opened is Err && opened->Err_0 is Fatal ==> opening == -502,
        done ==> masking == 0 && reading == 0,
        !done ==> masking == -502 && reading == -213,
{
}

} // verus!
