//! What a UDP socket reports to the endpoint that runs over it.

use vstd::prelude::*;

use crate::path::Address;

verus! {

/// A datagram that arrived, and where it came from.
#[derive(Clone, Copy, Debug)]
pub struct Received {
    /// How many bytes of the buffer were filled.
    pub len: usize,
    /// The address the datagram came from.
    pub source: Address,
}

/// What happened to a send.
///
/// UDP sends either take the datagram or say they cannot right now, and modelling that as an
/// outcome lets the driver decide what to do about it.
#[derive(Clone, Copy, Debug, PartialEq, Eq, Structural)]
pub enum Sent {
    /// The datagram was handed to the operating system.
    Complete,
    /// The socket could not take it now. The datagram has **not** been sent and must be
    /// offered again.
    WouldBlock,
}

/// What the socket made of one datagram offered to it, its own failure rendered as text.
#[derive(Debug)]
pub enum Offer {
    /// It answered.
    Answered(Sent),
    /// It is not ready to answer, which for the datagram means what a full buffer would.
    Pending,
    /// It failed, in its own words.
    Failed(String),
}

impl Offer {
    /// Whether the datagram is on its way.
    pub open spec fn complete(&self) -> bool {
        self matches Offer::Answered(sent) && sent == Sent::Complete
    }

    /// Whether the datagram was turned away and has to be offered again.
    pub open spec fn refused(&self) -> bool {
        !self.complete() && !(self is Failed)
    }
}

} // verus!
