//! What the native engine reports while a call into it is running.
//!
//! The engine speaks in raw identifiers and flags. Each function here decodes one report,
//! applies what it means for retained data, and says what the connection's owner should be
//! told. A report naming something that cannot exist is ignored.

use vstd::prelude::*;

use crate::cid::{blank, permitted_len, ConnectionId};
use crate::error::{ApplicationErrorCode, Error};
use crate::handlers::StreamCloseReason;
use crate::native;
use crate::rand::EntropySource;
use crate::retain::{after_acknowledge, Retained};
use crate::stream::StreamId;

verus! {

/// A connection's source of randomness, and whether it has ever failed.
///
/// The engine's request for randomness cannot report failure, and it uses the buffer it
/// passed regardless. A failure is therefore remembered, and the buffer is zeroed so that
/// what the engine reads is at least defined.
#[derive(Debug)]
pub struct RandCtx<E> {
    /// Where the bytes come from.
    pub source: E,
    /// Whether it has ever failed.
    pub failed: bool,
}

/// Whether every byte of a buffer is zero.
pub open spec fn zeroed(bytes: Seq<u8>) -> bool {
    forall|i: int| 0 <= i < bytes.len() ==> bytes[i] == 0
}

/// Zeroes a buffer.
fn zero_fill(dest: &mut [u8])
    ensures
        final(dest)@.len() == old(dest)@.len(),
        zeroed(final(dest)@),
{
    let len: usize = dest.len();
    let mut at: usize = 0;
    while at < len
        invariant
            at <= len,
            len == dest@.len(),
            len == old(dest)@.len(),
            forall|i: int| 0 <= i < at ==> dest@[i] == 0,
        decreases len - at,
    {
        dest[at] = 0;
        at += 1;
    }
}

/// Whether serving a request for a buffer that held `asked` can take `before` to `after` and
/// leave `given` in the buffer.
///
/// An empty buffer changes nothing. Otherwise the source is asked once, with the buffer as it
/// came. What it left there stands where it succeeded; where it failed every byte is zero and
/// the failure is remembered.
pub open spec fn served<E: EntropySource>(
    before: RandCtx<E>,
    asked: Seq<u8>,
    after: RandCtx<E>,
    given: Seq<u8>,
) -> bool {
    if asked.len() == 0 {
        after == before && given == asked
    } else {
        exists|left: Seq<u8>, filled: Result<(), Error>|
            {
                &&& #[trigger] before.source.answers(asked, left, filled, after.source.progress())
                &&& match filled {
                    Ok(()) => given == left && after.failed == before.failed,
                    Err(_) => zeroed(given) && after.failed,
                }
            }
    }
}

impl<E: EntropySource> RandCtx<E> {
    /// Whether the source has ever failed.
    pub open spec fn has_failed(&self) -> bool {
        self.failed
    }

    /// Wraps a source that has not failed yet.
    pub fn new(source: E) -> (ctx: Self)
        ensures
            ctx.source == source,
            !ctx.has_failed(),
    {
        Self { source, failed: false }
    }

    /// Whether the source has ever failed.
    pub fn failed(&self) -> (failed: bool)
        ensures
            failed == self.has_failed(),
    {
        self.failed
    }

    /// Settles a request the source has just answered: a failure is remembered and leaves
    /// the buffer zeroed.
    pub fn settle(&mut self, filled: Result<(), Error>, dest: &mut [u8])
        ensures
            final(dest)@.len() == old(dest)@.len(),
            final(self).source == old(self).source,
            filled is Ok ==> final(dest)@ == old(dest)@ && final(self).has_failed()
                == old(self).has_failed(),
            filled is Err ==> zeroed(final(dest)@) && final(self).has_failed(),
    {
        match filled {
            Ok(()) => {},
            Err(_) => {
                self.failed = true;
                zero_fill(dest);
            },
        }
    }

    /// Fills a buffer the engine will use whatever happens.
    ///
    /// The source is asked once, with the buffer as it came. Either it filled it, what it
    /// left there stands and nothing is newly remembered, or it failed, which is remembered,
    /// and every byte is zero. An empty buffer is not worth asking for.
    pub fn rand(&mut self, dest: &mut [u8])
        ensures
            final(dest)@.len() == old(dest)@.len(),
            served(*old(self), old(dest)@, *final(self), final(dest)@),
            old(self).has_failed() ==> final(self).has_failed(),
            final(self).has_failed() && !old(self).has_failed() ==> zeroed(final(dest)@),
    {
        if dest.len() == 0 {
            return;
        }
        let filled = self.source.fill(dest);
        let ghost left = dest@;
        self.settle(filled, dest);
        assert(old(self).source.answers(old(dest)@, left, filled, self.source.progress()));
    }

    /// Fills a path challenge, which unlike ordinary randomness can be refused.
    ///
    /// The source is asked once, and what it left in the buffer stands. The challenge is
    /// refused exactly where it failed, and the failure is remembered.
    pub fn path_challenge(&mut self, dest: &mut [u8]) -> (code: i32)
        ensures
            final(dest)@.len() == old(dest)@.len(),
            exists|filled: Result<(), Error>|
                {
                    &&& #[trigger] old(self).source.answers(
                        old(dest)@,
                        final(dest)@,
                        filled,
                        final(self).source.progress(),
                    )
                    &&& code == (if filled is Ok {
                        0
                    } else {
                        native::ERR_CALLBACK_FAILURE
                    })
                    &&& final(self).has_failed() == (old(self).has_failed() || filled is Err)
                },
    {
        let filled = self.source.fill(dest);
        let code: i32 = match &filled {
            Ok(()) => 0,
            Err(_) => {
                self.failed = true;
                native::ERR_CALLBACK_FAILURE
            },
        };
        assert(old(self).source.answers(old(dest)@, dest@, filled, self.source.progress()));
        code
    }
}

/// Fills a buffer the engine will use whatever happens, from a connection's source or, where
/// the engine asks before there is one, with zeroes. A source that fails is remembered.
///
/// The engine passes buffers it has not initialised. Zeroes are predictable, and only
/// acceptable because a connection built on them is refused.
pub fn rand<E: EntropySource>(ctx: Option<&mut RandCtx<E>>, dest: &mut [u8])
    ensures
        final(dest)@.len() == old(dest)@.len(),
        match ctx {
            Some(kept) => served(*kept, old(dest)@, *final(kept), final(dest)@),
            None => zeroed(final(dest)@),
        },
{
    match ctx {
        Some(ctx) => ctx.rand(dest),
        None => zero_fill(dest),
    }
}

/// What minting an identifier came to, given what the source did for each half.
///
/// `cid` and `token` are what it left in the two buffers. The token is drawn only once the
/// identifier has been, and neither half is made up.
pub fn minted(
    cid_filled: Result<(), Error>,
    cid: &[u8],
    token_filled: Result<(), Error>,
    token: Vec<u8>,
) -> (result: Result<(ConnectionId, Vec<u8>), i32>)
    requires
        permitted_len(cid@.len() as int),
    ensures
        match result {
            Ok((minted, reset)) => {
                &&& cid_filled is Ok && token_filled is Ok
                &&& minted@ == cid@
                &&& reset == token
            },
            Err(code) => {
                &&& cid_filled is Err || token_filled is Err
                &&& code == native::ERR_CALLBACK_FAILURE
            },
        },
{
    if cid_filled.is_err() || token_filled.is_err() {
        return Err(native::ERR_CALLBACK_FAILURE);
    }
    match ConnectionId::new(cid) {
        Ok(minted) => Ok((minted, token)),
        Err(_) => Err(native::ERR_CALLBACK_FAILURE),
    }
}

/// Whether minting an identifier of `len` bytes and its token from a source can come to
/// `result` and leave the source as far as `after`.
///
/// The source is asked for the identifier, and only where that succeeds for the token; what
/// it left in the two buffers is what is minted.
pub open spec fn mints<E: EntropySource>(
    source: E,
    len: nat,
    result: Result<(ConnectionId, Vec<u8>), i32>,
    after: Seq<nat>,
) -> bool {
    exists|cid: Seq<u8>, filled: Result<(), Error>, between: E|
        {
            &&& #[trigger] source.answers(blank(len), cid, filled, between.progress())
            &&& match filled {
                Ok(()) => mints_token(between, cid, result, after),
                Err(_) => result is Err && after == between.progress(),
            }
        }
}

/// Whether drawing the token for an identifier can come to `result` and leave the source as
/// far as `after`.
pub open spec fn mints_token<E: EntropySource>(
    source: E,
    cid: Seq<u8>,
    result: Result<(ConnectionId, Vec<u8>), i32>,
    after: Seq<nat>,
) -> bool {
    exists|token: Seq<u8>, filled: Result<(), Error>|
        {
            &&& #[trigger] source.answers(
                blank(native::STATELESS_RESET_TOKENLEN as nat),
                token,
                filled,
                after,
            )
            &&& match filled {
                Ok(()) => {
                    &&& result matches Ok(minted)
                    &&& minted.0@ == cid
                    &&& minted.1@ == token
                },
                Err(_) => result is Err,
            }
        }
}

/// Mints a connection identifier of `len` bytes and its stateless reset token.
///
/// Both come from the connection's own source, so that it has one source of randomness
/// rather than two. Without a source, or with one that fails, nothing is minted.
pub fn get_new_connection_id<E: EntropySource>(source: Option<&mut E>, len: usize) -> (result:
    Result<(ConnectionId, Vec<u8>), i32>)
    requires
        permitted_len(len as int),
    ensures
        match source {
            Some(kept) => mints(*kept, len as nat, result, (*final(kept)).progress()),
            None => result is Err,
        },
        match result {
            Ok((minted, token)) => {
                &&& minted@.len() == len
                &&& token@.len() == native::STATELESS_RESET_TOKENLEN
            },
            Err(code) => code == native::ERR_CALLBACK_FAILURE,
        },
{
    match source {
        None => Err(native::ERR_CALLBACK_FAILURE),
        Some(source) => {
            let ghost before = *source;
            let mut cid: Vec<u8> = vec![0u8; len];
            assert(cid@ =~= blank(len as nat));
            let cid_filled = source.fill(cid.as_mut_slice());
            let ghost between = *source;
            assert(before.answers(blank(len as nat), cid@, cid_filled, between.progress()));
            if cid_filled.is_err() {
                return Err(native::ERR_CALLBACK_FAILURE);
            }
            let mut token: Vec<u8> = vec![0u8; native::STATELESS_RESET_TOKENLEN];
            assert(token@ =~= blank(native::STATELESS_RESET_TOKENLEN as nat));
            let token_filled = source.fill(token.as_mut_slice());
            assert(between.answers(
                blank(native::STATELESS_RESET_TOKENLEN as nat),
                token@,
                token_filled,
                (*source).progress(),
            ));
            minted(cid_filled, cid.as_slice(), token_filled, token)
        },
    }
}

/// Whether a raw stream number names a stream.
pub open spec fn names_a_stream(stream_id: i64) -> bool {
    0 <= stream_id <= StreamId::MAX
}

/// A raw stream number as a stream, if it names one.
pub fn stream_named(stream_id: i64) -> (stream: Option<StreamId>)
    ensures
        match stream {
            Some(stream) => names_a_stream(stream_id) && stream@ == stream_id,
            None => !names_a_stream(stream_id),
        },
{
    match StreamId::new(stream_id) {
        Ok(stream) => Some(stream),
        Err(_) => None,
    }
}

/// Data arrived on a stream: which one, and whether the bytes end it.
pub fn recv_stream_data(flags: u32, stream_id: i64) -> (report: Option<(StreamId, bool)>)
    ensures
        match report {
            Some((stream, fin)) => {
                &&& names_a_stream(stream_id)
                &&& stream@ == stream_id
                &&& fin == (flags & native::STREAM_DATA_FLAG_FIN != 0)
            },
            None => !names_a_stream(stream_id),
        },
{
    match stream_named(stream_id) {
        Some(stream) => Some((stream, flags & native::STREAM_DATA_FLAG_FIN != 0)),
        None => None,
    }
}

/// A stream closed: everything held for it is released, and each direction carries a code
/// only where the engine says one was set.
///
/// A direction without a code closed cleanly, which is not the same as code zero.
pub fn stream_close(
    retained: &mut Retained,
    stream_id: i64,
    rx_code_set: bool,
    rx_code: u64,
    tx_code_set: bool,
    tx_code: u64,
) -> (report: Option<(StreamId, StreamCloseReason)>)
    requires
        old(retained).wf(),
    ensures
        final(retained).wf(),
        match report {
            Some((stream, reason)) => {
                &&& names_a_stream(stream_id)
                &&& stream@ == stream_id
                &&& final(retained)@ == old(retained)@.remove(stream_id as int)
                &&& reason.receiving_code() is Some <==> rx_code_set
                &&& reason.receiving_code() matches Some(code) ==> code@ == rx_code
                &&& reason.sending_code() is Some <==> tx_code_set
                &&& reason.sending_code() matches Some(code) ==> code@ == tx_code
            },
            None => !names_a_stream(stream_id) && final(retained)@ == old(retained)@,
        },
{
    match stream_named(stream_id) {
        None => None,
        Some(stream) => {
            retained.forget(stream);
            let receiving = if rx_code_set {
                Some(ApplicationErrorCode::new(rx_code))
            } else {
                None
            };
            let sending = if tx_code_set {
                Some(ApplicationErrorCode::new(tx_code))
            } else {
                None
            };
            Some((stream, StreamCloseReason::new(receiving, sending)))
        },
    }
}

/// The peer reset a stream, or asked this endpoint to stop sending on it: which one, and
/// with what code.
pub fn stream_code(stream_id: i64, code: u64) -> (report: Option<(StreamId, ApplicationErrorCode)>)
    ensures
        match report {
            Some((stream, sent)) => names_a_stream(stream_id) && stream@ == stream_id && sent@
                == code,
            None => !names_a_stream(stream_id),
        },
{
    match stream_named(stream_id) {
        Some(stream) => Some((stream, ApplicationErrorCode::new(code))),
        None => None,
    }
}

/// The peer acknowledged stream data: what that covers is released, whether or not anyone is
/// told.
pub fn acked_stream_data_offset(
    retained: &mut Retained,
    stream_id: i64,
    offset: u64,
    len: u64,
) -> (report: Option<(StreamId, u64)>)
    requires
        old(retained).wf(),
    ensures
        final(retained).wf(),
        match report {
            Some((stream, count)) => {
                &&& names_a_stream(stream_id)
                &&& stream@ == stream_id
                &&& count == len
                &&& final(retained)@ == after_acknowledge(
                    old(retained)@,
                    stream_id as int,
                    if offset + len <= u64::MAX {
                        (offset + len) as nat
                    } else {
                        u64::MAX as nat
                    },
                )
            },
            None => !names_a_stream(stream_id) && final(retained)@ == old(retained)@,
        },
{
    match stream_named(stream_id) {
        None => None,
        Some(stream) => {
            retained.acknowledge(stream, offset, len);
            Some((stream, len))
        },
    }
}

} // verus!
