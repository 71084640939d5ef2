//! What a connection reports to its owner about the end of a stream.

use vstd::prelude::*;

use crate::error::ApplicationErrorCode;

verus! {

/// Why a stream ended.
///
/// QUIC closes the two directions of a stream independently, so there are two error codes
/// and either may be absent. A direction with no code closed cleanly.
#[derive(Clone, Copy, Debug, PartialEq, Eq)]
pub struct StreamCloseReason {
    receiving: Option<ApplicationErrorCode>,
    sending: Option<ApplicationErrorCode>,
}

impl StreamCloseReason {
    /// The code that shut down the receiving side.
    pub closed spec fn receiving_code(self) -> Option<ApplicationErrorCode> {
        self.receiving
    }

    /// The code that shut down the sending side.
    pub closed spec fn sending_code(self) -> Option<ApplicationErrorCode> {
        self.sending
    }

    /// A reason with the given per-direction codes.
    pub fn new(
        receiving: Option<ApplicationErrorCode>,
        sending: Option<ApplicationErrorCode>,
    ) -> (reason: Self)
        ensures
            reason.receiving_code() == receiving,
            reason.sending_code() == sending,
    {
        Self { receiving, sending }
    }

    /// The code that shut down the receiving side, if it did not end cleanly.
    pub fn receiving(&self) -> (code: Option<ApplicationErrorCode>)
        ensures
            code == self.receiving_code(),
    {
        self.receiving
    }

    /// The code that shut down the sending side, if it did not end cleanly.
    pub fn sending(&self) -> (code: Option<ApplicationErrorCode>)
        ensures
            code == self.sending_code(),
    {
        self.sending
    }

    /// Whether both directions ended cleanly.
    pub fn is_clean(&self) -> (clean: bool)
        ensures
            clean == (self.receiving_code() is None && self.sending_code() is None),
    {
        self.receiving.is_none() && self.sending.is_none()
    }
}

impl Default for StreamCloseReason {
    fn default() -> (reason: Self)
        ensures
            reason.receiving_code() is None,
            reason.sending_code() is None,
    {
        Self { receiving: None, sending: None }
    }
}

} // verus!
