//! Reading packets, writing packets, and timers.
//!
//! Each function here takes what the engine answered and says what that means. Where the
//! engine must not be asked at all, a check comes first.

use vstd::prelude::*;

use crate::error::{Error, ErrorView};
use crate::native;
use crate::time::Timestamp;

verus! {

/// What happened to a datagram handed to a connection.
#[derive(Clone, Copy, Debug, PartialEq, Eq, Structural)]
pub enum ReadOutcome {
    /// The packet was processed, or was discarded as uninteresting.
    Processed,
    /// A server must answer with a Retry packet and discard this connection.
    SendRetry,
    /// A server must drop the connection silently.
    DropSilently,
    /// The connection has entered the draining period. No further packets may be sent.
    Draining,
    /// The connection has entered the closing period. No further packets may be sent.
    Closing,
}

/// What happened when a connection was asked for a datagram.
#[derive(Clone, Copy, Debug, PartialEq, Eq, Structural)]
pub enum WriteOutcome {
    /// A datagram was written. Send it, then ask again.
    Datagram {
        /// How many bytes of the buffer were filled.
        len: usize,
    },
    /// Nothing more to send at this moment. Wait for input or for the expiry deadline.
    Idle,
    /// There is data to send but not right now: the congestion window is closed, or the
    /// buffer offered was too small.
    ///
    /// Not the same as [`WriteOutcome::Idle`]. A caller that treats it as "finished" stalls
    /// the connection until something else happens to wake it.
    Blocked,
}

/// What happened when a timer expired.
#[derive(Clone, Copy, Debug, PartialEq, Eq, Structural)]
pub enum ExpiryOutcome {
    /// The expiry was handled. Ask for anything it produced.
    Handled,
    /// The connection has been idle too long. Drop it without a word.
    IdleClose,
    /// The connection is draining or closing and the timer changed nothing.
    Terminal,
}

/// Why an empty datagram is refused.
pub const EMPTY_DATAGRAM: &'static str = "an empty datagram cannot be read";

/// Why an empty buffer is refused.
pub const EMPTY_BUFFER: &'static str = "a datagram buffer must have room to write into";

/// What failed when a packet could not be read.
pub const READ_FAILED: &'static str = "could not read the packet";

/// What failed when a packet could not be written.
pub const WRITE_FAILED: &'static str = "could not write a packet";

/// What failed when an expiry could not be handled.
pub const EXPIRY_FAILED: &'static str = "could not handle the expiry";

/// Checks that a datagram may be handed to the engine, which an empty one may not.
pub fn readable(datagram: &[u8]) -> (checked: Result<(), Error>)
    ensures
        match checked {
            Ok(()) => datagram@.len() > 0,
            Err(error) => datagram@.len() == 0 && error@ == ErrorView::invalid_input(
                EMPTY_DATAGRAM@,
            ),
        },
{
    if datagram.is_empty() {
        return Err(Error::invalid_input(EMPTY_DATAGRAM));
    }
    Ok(())
}

/// Checks that a buffer of `len` bytes may be lent to the engine, which an empty one may not.
pub fn writable(len: usize) -> (checked: Result<(), Error>)
    ensures
        match checked {
            Ok(()) => len > 0,
            Err(error) => len == 0 && error@ == ErrorView::invalid_input(EMPTY_BUFFER@),
        },
{
    if len == 0 {
        return Err(Error::invalid_input(EMPTY_BUFFER));
    }
    Ok(())
}

/// The code a signed engine result stands for: itself where it is one, and an internal
/// failure where it is not.
pub open spec fn code_of(result: int) -> int {
    if i32::MIN <= result <= i32::MAX {
        result
    } else {
        native::ERR_INTERNAL as int
    }
}

/// Narrows a signed engine result to a code.
pub fn code_from(result: isize) -> (code: i32)
    ensures
        code == code_of(result as int),
{
    if result < i32::MIN as isize || result > i32::MAX as isize {
        native::ERR_INTERNAL
    } else {
        result as i32
    }
}

/// The outcomes of reading a packet that are not failures.
pub open spec fn read_outcome_of(rc: int) -> Option<ReadOutcome> {
    if rc == 0 {
        Some(ReadOutcome::Processed)
    } else if rc == native::ERR_RETRY {
        Some(ReadOutcome::SendRetry)
    } else if rc == native::ERR_DROP_CONN {
        Some(ReadOutcome::DropSilently)
    } else if rc == native::ERR_DRAINING {
        Some(ReadOutcome::Draining)
    } else if rc == native::ERR_CLOSING {
        Some(ReadOutcome::Closing)
    } else {
        None
    }
}

/// What the engine's answer to a packet means. Anything it does not document as an outcome
/// leaves the connection unusable.
pub fn read_pkt(rc: i32) -> (outcome: Result<ReadOutcome, Error>)
    ensures
        match outcome {
            Ok(read) => read_outcome_of(rc as int) == Some(read),
            Err(error) => read_outcome_of(rc as int) is None && error@ == ErrorView::from_native(
                rc as int,
                READ_FAILED@,
            ).made_unusable(),
        },
{
    if rc == 0 {
        Ok(ReadOutcome::Processed)
    } else if rc == native::ERR_RETRY {
        Ok(ReadOutcome::SendRetry)
    } else if rc == native::ERR_DROP_CONN {
        Ok(ReadOutcome::DropSilently)
    } else if rc == native::ERR_DRAINING {
        Ok(ReadOutcome::Draining)
    } else if rc == native::ERR_CLOSING {
        Ok(ReadOutcome::Closing)
    } else {
        Err(Error::native(rc, READ_FAILED).into_unusable())
    }
}

/// The outcomes of asking for a packet that are not failures: a length, "not now", or
/// "nothing left" once the connection is closing or draining.
pub open spec fn write_outcome_of(written: int) -> Option<WriteOutcome> {
    if written > 0 {
        Some(WriteOutcome::Datagram { len: written as usize })
    } else if written == 0 || written == native::ERR_WRITE_MORE {
        Some(WriteOutcome::Blocked)
    } else if written == native::ERR_CLOSING || written == native::ERR_DRAINING {
        Some(WriteOutcome::Idle)
    } else {
        None
    }
}

/// What the engine's answer to a request for a packet means.
///
/// Zero does not mean "done": it means the engine has something to send and cannot.
pub fn write_pkt(written: isize) -> (outcome: Result<WriteOutcome, Error>)
    ensures
        match outcome {
            Ok(write) => write_outcome_of(written as int) == Some(write),
            Err(error) => write_outcome_of(written as int) is None && error@
                == ErrorView::from_native(code_of(written as int), WRITE_FAILED@).made_unusable(),
        },
{
    if written > 0 {
        return Ok(WriteOutcome::Datagram { len: written as usize });
    }
    if written == 0 || written == native::ERR_WRITE_MORE as isize {
        return Ok(WriteOutcome::Blocked);
    }
    let code: i32 = code_from(written);
    if code == native::ERR_CLOSING || code == native::ERR_DRAINING {
        return Ok(WriteOutcome::Idle);
    }
    Err(Error::native(code, WRITE_FAILED).into_unusable())
}

/// When a connection next needs attention, given the raw deadline the engine reports.
///
/// `None` means no timer is pending, which is not the same as a very distant deadline.
pub fn expiry(raw: u64) -> (deadline: Option<Timestamp>)
    ensures
        deadline is Some <==> raw != u64::MAX,
        deadline matches Some(at) ==> at@ == raw,
{
    Timestamp::from_raw(raw)
}

/// The outcomes of a timer that are not failures.
pub open spec fn expiry_outcome_of(rc: int) -> Option<ExpiryOutcome> {
    if rc == 0 {
        Some(ExpiryOutcome::Handled)
    } else if rc == native::ERR_IDLE_CLOSE {
        Some(ExpiryOutcome::IdleClose)
    } else if rc == native::ERR_CLOSING || rc == native::ERR_DRAINING {
        Some(ExpiryOutcome::Terminal)
    } else {
        None
    }
}

/// What the engine's answer to an expired timer means.
pub fn handle_expiry(rc: i32) -> (outcome: Result<ExpiryOutcome, Error>)
    ensures
        match outcome {
            Ok(expiry) => expiry_outcome_of(rc as int) == Some(expiry),
            Err(error) => expiry_outcome_of(rc as int) is None && error@ == ErrorView::from_native(
                rc as int,
                EXPIRY_FAILED@,
            ).made_unusable(),
        },
{
    if rc == 0 {
        Ok(ExpiryOutcome::Handled)
    } else if rc == native::ERR_IDLE_CLOSE {
        Ok(ExpiryOutcome::IdleClose)
    } else if rc == native::ERR_CLOSING || rc == native::ERR_DRAINING {
        Ok(ExpiryOutcome::Terminal)
    } else {
        Err(Error::native(rc, EXPIRY_FAILED).into_unusable())
    }
}

/// A connection that has something to send but cannot is never reported as having nothing
/// left: only a closing or draining connection is idle.
pub proof fn law_blocked_is_never_reported_as_idle(written: int)
    requires
        write_outcome_of(written) == Some(WriteOutcome::Idle),
    ensures
        written == native::ERR_CLOSING || written == native::ERR_DRAINING,
        written != 0,
        written != native::ERR_WRITE_MORE,
{
}

} // verus!
