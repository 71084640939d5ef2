//! Streams, flow control, and closing the connection.
//!
//! A write has two halves. First its bytes are retained, because the engine keeps the
//! address it is given; then, once the engine has answered, what it took is recorded and
//! the answer is given a meaning.

use vstd::prelude::*;

use crate::diagnostics::{Attempt, AttemptOutcome};
use crate::error::{Error, ErrorView};
use crate::native;
use crate::packet::{code_from, code_of, writable, EMPTY_BUFFER};
use crate::retain::{
    after_commit, after_stage, capacity_total, held_total, joined, stream_of, taken, OwnedBytes,
    Retained,
};
use crate::stream::{StreamId, NEGATIVE_STREAM_ID, OVERSIZED_STREAM_ID};
use crate::tls::Role;

verus! {

/// What happened when stream data was offered to the connection.
#[derive(Clone, Copy, Debug, PartialEq, Eq, Structural)]
pub enum StreamWrite {
    /// A datagram was produced, and this many bytes of the offered data went into it.
    ///
    /// `accepted` may be less than what was offered, or zero: the packet may have been
    /// filled with control frames instead. Whatever was not accepted must be offered again.
    Datagram {
        /// Bytes of the datagram buffer that were filled.
        len: usize,
        /// Bytes of the caller's stream data the connection took.
        accepted: usize,
    },
    /// The stream's flow-control window is full. Wait for the peer to grant more.
    StreamBlocked,
    /// The connection's flow-control window is full.
    ConnectionBlocked,
    /// There is something to send but not right now: the datagram buffer was too small, or
    /// the congestion window is closed. Not "finished".
    Blocked,
    /// Nothing to send at the moment.
    Idle,
}

impl StreamWrite {
    /// How much of the offered data was taken, which without a datagram is nothing.
    pub open spec fn taken(self) -> nat {
        match self {
            StreamWrite::Datagram { accepted, .. } => accepted as nat,
            _ => 0,
        }
    }

    /// How much of the offered data was taken.
    pub fn accepted(&self) -> (count: usize)
        ensures
            count == self.taken(),
    {
        match self {
            StreamWrite::Datagram { accepted, .. } => *accepted,
            _ => 0,
        }
    }
}

/// The result of an owned write: what happened, and what the caller must offer again.
#[derive(Debug)]
pub struct OwnedWrite {
    /// What the write did, exactly as a borrowed write would report it.
    pub outcome: StreamWrite,
    /// The bytes that were not accepted, to be offered again.
    pub unsent: OwnedBytes,
}

/// What failed when a bidirectional stream could not be opened.
pub const OPEN_BIDI_FAILED: &'static str = "could not open a bidirectional stream";

/// What failed when a unidirectional stream could not be opened.
pub const OPEN_UNI_FAILED: &'static str = "could not open a unidirectional stream";

/// Why a write to a shut stream is refused.
pub const WRITE_SIDE_CLOSED: &'static str = "the write side of this stream is already closed";

/// What failed when stream data could not be written.
pub const STREAM_WRITE_FAILED: &'static str = "could not write stream data";

/// What failed when a stream could not be shut down.
pub const SHUTDOWN_FAILED: &'static str = "could not shut down the stream";

/// What failed when a stream could not be reset.
pub const RESET_FAILED: &'static str = "could not reset the stream";

/// What failed when the peer could not be asked to stop.
pub const STOP_FAILED: &'static str = "could not stop the peer sending";

/// What failed when a stream's window could not be extended.
pub const EXTEND_FAILED: &'static str = "could not extend the stream window";

/// What failed when a close could not be written.
pub const CLOSE_FAILED: &'static str = "could not write a connection close";

/// The write flags for a staged prefix: the end of the stream goes with its last bytes only.
pub fn stream_flags(fin: bool, staged_complete: bool) -> (flags: u32)
    ensures
        flags == (if fin && staged_complete {
            native::WRITE_STREAM_FLAG_FIN
        } else {
            native::WRITE_STREAM_FLAG_NONE
        }),
{
    if fin && staged_complete {
        native::WRITE_STREAM_FLAG_FIN
    } else {
        native::WRITE_STREAM_FLAG_NONE
    }
}

/// What opening a stream came to.
pub open spec fn opened(
    result: Result<StreamId, Error>,
    rc: i32,
    id: i64,
    context: Seq<char>,
) -> bool {
    match result {
        Ok(stream) => rc == 0 && 0 <= id <= StreamId::MAX && stream@ == id,
        Err(error) => if rc != 0 {
            error@ == ErrorView::from_native(rc as int, context)
        } else if id < 0 {
            error@ == ErrorView::invalid_input(NEGATIVE_STREAM_ID@)
        } else {
            id > StreamId::MAX && error@ == ErrorView::invalid_input(OVERSIZED_STREAM_ID@)
        },
    }
}

/// What the engine's answer to opening a bidirectional stream means.
pub fn open_bidi_stream(rc: i32, id: i64) -> (result: Result<StreamId, Error>)
    ensures
        opened(result, rc, id, OPEN_BIDI_FAILED@),
{
    if rc != 0 {
        return Err(Error::native(rc, OPEN_BIDI_FAILED));
    }
    StreamId::new(id)
}

/// What the engine's answer to opening a unidirectional stream means.
pub fn open_uni_stream(rc: i32, id: i64) -> (result: Result<StreamId, Error>)
    ensures
        opened(result, rc, id, OPEN_UNI_FAILED@),
{
    if rc != 0 {
        return Err(Error::native(rc, OPEN_UNI_FAILED));
    }
    StreamId::new(id)
}

/// A write that is staged and ready to be handed to the engine.
#[derive(Clone, Copy, Debug, PartialEq, Eq, Structural)]
pub struct StagedWrite {
    /// How long the staged chunk is, or `None` where nothing was staged.
    ///
    /// Nothing staged is a legitimate write: it may carry only the end of the stream.
    pub staged: Option<usize>,
    /// The flags to hand over with it.
    pub flags: u32,
}

/// The bytes of an offer that are staged at once.
pub open spec fn bounded(bytes: Seq<u8>, limit: int) -> Seq<u8> {
    if bytes.len() <= limit {
        bytes
    } else {
        bytes.take(limit)
    }
}

/// The flags handed over with an offer of at most `limit` bytes.
pub open spec fn offered_flags(bytes: Seq<u8>, limit: int, fin: bool) -> u32 {
    if fin && bytes.len() <= limit {
        native::WRITE_STREAM_FLAG_FIN
    } else {
        native::WRITE_STREAM_FLAG_NONE
    }
}

/// Stages a write made of several separate ranges, at most `limit` bytes of it.
///
/// The ranges are treated as one contiguous run of bytes. The end of the stream is handed
/// over only with the true final suffix: a bounded prefix suppresses it.
pub fn write_stream_vectored(
    retained: &mut Retained,
    buffer_len: usize,
    stream: StreamId,
    ranges: &[&[u8]],
    fin: bool,
    limit: usize,
) -> (result: Result<StagedWrite, Error>)
    requires
        old(retained).wf(),
        joined(ranges@).len() <= usize::MAX,
        stream_of(old(retained)@, stream@).next_offset + joined(ranges@).len() <= u64::MAX,
    ensures
        final(retained).wf(),
        match result {
            Ok(write) => {
                let bytes = bounded(joined(ranges@), limit as int);
                &&& buffer_len > 0
                &&& final(retained)@ == after_stage(old(retained)@, stream@, bytes, None)
                &&& match write.staged {
                    Some(len) => len == bytes.len() && len > 0,
                    None => bytes.len() == 0,
                }
                &&& write.flags == offered_flags(joined(ranges@), limit as int, fin)
            },
            Err(error) => {
                &&& buffer_len == 0
                &&& error@ == ErrorView::invalid_input(EMPTY_BUFFER@)
                &&& final(retained)@ == old(retained)@
            },
        },
{
    match writable(buffer_len) {
        Ok(()) => {},
        Err(error) => return Err(error),
    }
    let (staged, complete) = retained.stage_many_bounded(stream, ranges, limit);
    Ok(StagedWrite { staged, flags: stream_flags(fin, complete) })
}

/// Stages a buffer whose ownership the caller hands over, without copying it: what is held is
/// a handle to it.
pub fn write_stream_owned(
    retained: &mut Retained,
    buffer_len: usize,
    stream: StreamId,
    data: &OwnedBytes,
    fin: bool,
) -> (result: Result<StagedWrite, Error>)
    requires
        old(retained).wf(),
        stream_of(old(retained)@, stream@).next_offset + data@.len() <= u64::MAX,
    ensures
        final(retained).wf(),
        match result {
            Ok(write) => {
                &&& buffer_len > 0
                &&& final(retained)@ == after_stage(old(retained)@, stream@, data@, Some(*data))
                &&& match write.staged {
                    Some(len) => len == data@.len() && len > 0,
                    None => data@.len() == 0,
                }
                &&& write.flags == (if fin {
                    native::WRITE_STREAM_FLAG_FIN
                } else {
                    native::WRITE_STREAM_FLAG_NONE
                })
            },
            Err(error) => {
                &&& buffer_len == 0
                &&& error@ == ErrorView::invalid_input(EMPTY_BUFFER@)
                &&& final(retained)@ == old(retained)@
            },
        },
{
    match writable(buffer_len) {
        Ok(()) => {},
        Err(error) => return Err(error),
    }
    let staged: Option<usize> = retained.stage_owned(stream, data.clone());
    Ok(StagedWrite { staged, flags: stream_flags(fin, true) })
}

/// How much of a staged chunk the engine took: what it claims, and only with a datagram.
pub open spec fn taken_of(written: int, accepted: int) -> nat {
    if written > 0 && accepted > 0 {
        accepted as nat
    } else {
        0
    }
}

/// The retained data once the engine has answered a write. Only a staged write has a chunk
/// to settle.
pub open spec fn after_submit(
    streams: Map<int, crate::retain::StreamView>,
    stream: int,
    staged: bool,
    written: int,
    accepted: int,
) -> Map<int, crate::retain::StreamView> {
    if staged {
        after_commit(streams, stream, taken_of(written, accepted))
    } else {
        streams
    }
}

/// The outcomes of a stream write that are not failures.
pub open spec fn stream_write_of(
    written: int,
    accepted: int,
    connection_credit: u64,
) -> Option<StreamWrite> {
    if written > 0 {
        Some(
            StreamWrite::Datagram {
                len: written as usize,
                accepted: taken_of(written, accepted) as usize,
            },
        )
    } else if written == 0 && connection_credit == 0 {
        Some(StreamWrite::ConnectionBlocked)
    } else if written == 0 {
        Some(StreamWrite::Blocked)
    } else if written == native::ERR_STREAM_DATA_BLOCKED {
        Some(StreamWrite::StreamBlocked)
    } else if written == native::ERR_CLOSING || written == native::ERR_DRAINING {
        Some(StreamWrite::Idle)
    } else {
        None
    }
}

/// What failed, where a stream write did.
pub open spec fn stream_write_context(written: int) -> Seq<char> {
    if code_of(written) == native::ERR_STREAM_SHUT_WR {
        WRITE_SIDE_CLOSED@
    } else {
        STREAM_WRITE_FAILED@
    }
}

/// Records what the engine took of a staged write, and says what its answer means.
///
/// Whatever it did not take was never handed over, so it does not stay retained. Zero with
/// no connection credit left is the connection's window being full; zero otherwise means
/// "not now", never "finished". A failure leaves the connection unusable.
pub fn submit_one_vec(
    retained: &mut Retained,
    stream: StreamId,
    staged: bool,
    written: isize,
    accepted: isize,
    connection_credit: u64,
) -> (result: Result<StreamWrite, Error>)
    requires
        old(retained).wf(),
    ensures
        final(retained).wf(),
        final(retained)@ == after_submit(
            old(retained)@,
            stream@,
            staged,
            written as int,
            accepted as int,
        ),
        match result {
            Ok(outcome) => stream_write_of(written as int, accepted as int, connection_credit)
                == Some(outcome),
            Err(error) => {
                &&& stream_write_of(written as int, accepted as int, connection_credit) is None
                &&& error@ == ErrorView::from_native(
                    code_of(written as int),
                    stream_write_context(written as int),
                ).made_unusable()
            },
        },
{
    let taken: usize = if written > 0 && accepted > 0 {
        accepted as usize
    } else {
        0
    };
    if staged {
        retained.commit(stream, taken);
    }
    if written > 0 {
        return Ok(StreamWrite::Datagram { len: written as usize, accepted: taken });
    }
    if written == 0 {
        if connection_credit == 0 {
            return Ok(StreamWrite::ConnectionBlocked);
        }
        return Ok(StreamWrite::Blocked);
    }
    let code: i32 = code_from(written);
    if code == native::ERR_STREAM_DATA_BLOCKED {
        Ok(StreamWrite::StreamBlocked)
    } else if code == native::ERR_STREAM_SHUT_WR {
        Err(Error::native(code, WRITE_SIDE_CLOSED).into_unusable())
    } else if code == native::ERR_CLOSING || code == native::ERR_DRAINING {
        Ok(StreamWrite::Idle)
    } else {
        Err(Error::native(code, STREAM_WRITE_FAILED).into_unusable())
    }
}

/// Splits an owned write into what was taken and what has to be offered again.
///
/// On anything but a datagram nothing was taken, so the whole buffer comes back. What comes
/// back is a handle into the allocation that was offered.
pub fn owned_write(outcome: StreamWrite, data: OwnedBytes) -> (write: OwnedWrite)
    ensures
        write.outcome == outcome,
        ({
            let count = taken(data@.len(), outcome.taken()) as int;
            &&& write.unsent@ == data@.skip(count)
            &&& write.unsent.is_part(data, count, data@.len() as int)
        }),
{
    let mut unsent = data;
    let _ = unsent.split_to(outcome.accepted());
    OwnedWrite { outcome, unsent }
}

/// The category a write is recorded under.
pub fn attempt_outcome(outcome: StreamWrite) -> (category: AttemptOutcome)
    ensures
        category == (match outcome {
            StreamWrite::Datagram { .. } => AttemptOutcome::Datagram,
            StreamWrite::StreamBlocked => AttemptOutcome::StreamBlocked,
            StreamWrite::ConnectionBlocked => AttemptOutcome::ConnectionBlocked,
            StreamWrite::Blocked => AttemptOutcome::Blocked,
            StreamWrite::Idle => AttemptOutcome::Idle,
        }),
{
    match outcome {
        StreamWrite::Datagram { .. } => AttemptOutcome::Datagram,
        StreamWrite::StreamBlocked => AttemptOutcome::StreamBlocked,
        StreamWrite::ConnectionBlocked => AttemptOutcome::ConnectionBlocked,
        StreamWrite::Blocked => AttemptOutcome::Blocked,
        StreamWrite::Idle => AttemptOutcome::Idle,
    }
}

/// The record of one write attempt.
///
/// `offset` is the stream's next offset before the write was staged, and `prepared` how much
/// was staged. An offer of something that took nothing is a zero acceptance.
pub fn write_attempt(
    connection_id: u64,
    role: Role,
    stream: StreamId,
    offset: u64,
    offered: usize,
    limit: usize,
    prepared: usize,
    fin_offered: bool,
    outcome: StreamWrite,
    retained: &Retained,
) -> (attempt: Attempt)
    requires
        held_total(retained@) <= usize::MAX,
        capacity_total(retained@) <= usize::MAX,
    ensures
        attempt == (Attempt {
            sequence: 0,
            connection_id,
            role,
            direction: "outbound",
            stream_id: stream@ as i64,
            stream_offset: offset,
            offered_bytes: offered as u64,
            sampled_payload_limit: limit as u64,
            prepared_backing_capacity: prepared as u64,
            accepted_prefix: outcome.taken() as u64,
            fin_offered,
            zero_acceptance: offered > 0 && outcome.taken() == 0,
            logical_retained_bytes: held_total(retained@) as u64,
            retained_backing_capacity: capacity_total(retained@) as u64,
            outcome: attempt.outcome,
        }),
        attempt.outcome == (match outcome {
            StreamWrite::Datagram { .. } => AttemptOutcome::Datagram,
            StreamWrite::StreamBlocked => AttemptOutcome::StreamBlocked,
            StreamWrite::ConnectionBlocked => AttemptOutcome::ConnectionBlocked,
            StreamWrite::Blocked => AttemptOutcome::Blocked,
            StreamWrite::Idle => AttemptOutcome::Idle,
        }),
{
    let accepted: usize = outcome.accepted();
    Attempt {
        sequence: 0,
        connection_id,
        role,
        direction: "outbound",
        stream_id: stream.get(),
        stream_offset: offset,
        offered_bytes: offered as u64,
        sampled_payload_limit: limit as u64,
        prepared_backing_capacity: prepared as u64,
        accepted_prefix: accepted as u64,
        fin_offered,
        zero_acceptance: offered > 0 && accepted == 0,
        logical_retained_bytes: retained.bytes_held() as u64,
        retained_backing_capacity: retained.backing_capacity() as u64,
        outcome: attempt_outcome(outcome),
    }
}

/// What an engine answer that is zero or a failure means.
pub open spec fn done(result: Result<(), Error>, rc: i32, context: Seq<char>) -> bool {
    match result {
        Ok(()) => rc == 0,
        Err(error) => rc != 0 && error@ == ErrorView::from_native(rc as int, context),
    }
}

fn succeeded(rc: i32, context: &'static str) -> (result: Result<(), Error>)
    ensures
        done(result, rc, context@),
{
    if rc != 0 {
        return Err(Error::native(rc, context));
    }
    Ok(())
}

/// What abandoning a stream in both directions came to.
pub fn shutdown_stream(rc: i32) -> (result: Result<(), Error>)
    ensures
        done(result, rc, SHUTDOWN_FAILED@),
{
    succeeded(rc, SHUTDOWN_FAILED)
}

/// What resetting the sending side of a stream came to.
pub fn reset_stream(rc: i32) -> (result: Result<(), Error>)
    ensures
        done(result, rc, RESET_FAILED@),
{
    succeeded(rc, RESET_FAILED)
}

/// What asking the peer to stop sending came to.
pub fn stop_sending(rc: i32) -> (result: Result<(), Error>)
    ensures
        done(result, rc, STOP_FAILED@),
{
    succeeded(rc, STOP_FAILED)
}

/// What granting the peer more credit on one stream came to.
pub fn extend_max_stream_offset(rc: i32) -> (result: Result<(), Error>)
    ensures
        done(result, rc, EXTEND_FAILED@),
{
    succeeded(rc, EXTEND_FAILED)
}

/// The engine code a transport close is derived from: the failure's own, or an internal
/// failure where it did not come from the engine.
pub fn transport_close_code(cause: &Error) -> (code: i32)
    ensures
        code == (match cause@.native {
            Some(native) => native,
            None => native::ERR_INTERNAL as int,
        }),
{
    match cause.native_code() {
        Some(native) => native.get(),
        None => native::ERR_INTERNAL,
    }
}

/// What writing a close packet came to: how long it is, which may be nothing at all.
pub fn write_close_with(written: isize) -> (result: Result<usize, Error>)
    ensures
        match result {
            Ok(len) => written >= 0 && len == written,
            Err(error) => written < 0 && error@ == ErrorView::from_native(
                code_of(written as int),
                CLOSE_FAILED@,
            ),
        },
{
    if written < 0 {
        return Err(Error::native(code_from(written), CLOSE_FAILED));
    }
    Ok(written as usize)
}

/// The end of a stream is handed over with the last byte of an offer or not at all: a write
/// that stages only a prefix never carries it.
pub proof fn law_the_end_goes_with_the_final_suffix(bytes: Seq<u8>, limit: int, fin: bool)
    requires
        0 <= limit,
    ensures
        offered_flags(bytes, limit, fin) == native::WRITE_STREAM_FLAG_FIN <==> fin && bounded(
            bytes,
            limit,
        ) == bytes,
{
    if bytes.len() > limit {
        assert(bounded(bytes, limit).len() == limit);
    }
}

/// A write that produced no datagram leaves a stream exactly as it was before it was staged:
/// the bytes can be offered again without being numbered or held twice.
pub proof fn law_a_blocked_write_leaves_no_trace(
    streams: Map<int, crate::retain::StreamView>,
    stream: int,
    bytes: Seq<u8>,
    handle: Option<OwnedBytes>,
    written: int,
    accepted: int,
)
    requires
        written <= 0,
    ensures
        stream_of(
            after_submit(
                after_stage(streams, stream, bytes, handle),
                stream,
                bytes.len() > 0,
                written,
                accepted,
            ),
            stream,
        ) == stream_of(streams, stream),
{
    if bytes.len() > 0 {
        crate::retain::law_a_write_retains_exactly_what_was_accepted(
            stream_of(streams, stream),
            bytes,
            handle,
            0,
        );
    }
}

} // verus!
