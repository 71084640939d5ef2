//! Stream identifiers.
//!
//! QUIC encodes two things in the low bits of a stream identifier: who opened it, and
//! whether it is bidirectional. Bit 0 is the initiator (0 = client, 1 = server) and bit 1
//! the directionality (0 = bidirectional, 1 = unidirectional). The rest is a counter.

use vstd::prelude::*;

use crate::error::{Error, ErrorView};
use crate::text;

verus! {

/// Which endpoint opened a stream.
#[derive(Clone, Copy, Debug, PartialEq, Eq, Hash, Structural)]
pub enum Initiator {
    /// The client opened it.
    Client,
    /// The server opened it.
    Server,
}

/// Whether a stream carries data in both directions.
#[derive(Clone, Copy, Debug, PartialEq, Eq, Hash, Structural)]
pub enum Directionality {
    /// Both endpoints may send.
    Bidirectional,
    /// Only the initiator may send.
    Unidirectional,
}

/// Why a negative identifier is refused.
pub const NEGATIVE_STREAM_ID: &'static str = "a stream identifier cannot be negative";

/// Why an identifier that is too large is refused.
pub const OVERSIZED_STREAM_ID: &'static str = "a stream identifier cannot exceed 2^62 - 1";

/// A QUIC stream identifier.
///
/// Always non-negative: the engine uses `-1` to mean "no stream", and this type exists
/// partly so that value can never be mistaken for a real identifier.
#[derive(Clone, Copy, Debug, PartialEq, Eq, PartialOrd, Ord, Hash, Structural)]
pub struct StreamId(i64);

impl View for StreamId {
    type V = int;

    closed spec fn view(&self) -> int {
        self.0 as int
    }
}

/// Who opens the streams numbered `id`: the lowest bit says.
pub open spec fn opener(id: int) -> Initiator {
    if id % 2 == 0 {
        Initiator::Client
    } else {
        Initiator::Server
    }
}

/// Which directions the streams numbered `id` have: the second lowest bit says.
pub open spec fn direction(id: int) -> Directionality {
    if (id / 2) % 2 == 0 {
        Directionality::Bidirectional
    } else {
        Directionality::Unidirectional
    }
}

/// Who may send on the streams numbered `id`: both sides where they carry data both ways,
/// and otherwise whoever opened them.
pub open spec fn writable_by(id: int, is_server: bool) -> bool {
    direction(id) == Directionality::Bidirectional || (opener(id) == Initiator::Server)
        == is_server
}

impl StreamId {
    /// The largest identifier QUIC permits: identifiers are 62-bit integers.
    pub const MAX: i64 = 0x3fff_ffff_ffff_ffff;

    /// Every identifier is in range.
    #[verifier::type_invariant]
    spec fn in_range(self) -> bool {
        0 <= self.0 <= Self::MAX
    }

    /// Wraps a raw identifier, refusing a negative one or one above the largest.
    pub fn new(id: i64) -> (made: Result<Self, Error>)
        ensures
            match made {
                Ok(stream) => 0 <= id <= Self::MAX && stream@ == id,
                Err(error) => if id < 0 {
                    error@ == ErrorView::invalid_input(NEGATIVE_STREAM_ID@)
                } else {
                    id > Self::MAX && error@ == ErrorView::invalid_input(OVERSIZED_STREAM_ID@)
                },
            },
    {
        if id < 0 {
            return Err(Error::invalid_input(NEGATIVE_STREAM_ID));
        }
        if id > Self::MAX {
            return Err(Error::invalid_input(OVERSIZED_STREAM_ID));
        }
        Ok(Self(id))
    }

    /// The raw identifier.
    pub fn get(self) -> (id: i64)
        ensures
            id == self@,
            0 <= id <= Self::MAX,
    {
        proof {
            use_type_invariant(&self);
        }
        self.0
    }

    /// Which endpoint opened this stream.
    pub fn initiator(self) -> (initiator: Initiator)
        ensures
            initiator == opener(self@),
    {
        let id: i64 = self.0;
        proof {
            use_type_invariant(&self);
            assert(id & 1 == id % 2) by (bit_vector)
                requires
                    id >= 0,
            ;
        }
        if id & 0x1 == 0 {
            Initiator::Client
        } else {
            Initiator::Server
        }
    }

    /// Whether this stream is bidirectional.
    pub fn directionality(self) -> (directionality: Directionality)
        ensures
            directionality == direction(self@),
    {
        let id: i64 = self.0;
        proof {
            use_type_invariant(&self);
            assert((id & 2 == 0) == ((id / 2) % 2 == 0)) by (bit_vector)
                requires
                    id >= 0,
            ;
        }
        if id & 0x2 == 0 {
            Directionality::Bidirectional
        } else {
            Directionality::Unidirectional
        }
    }

    /// Whether the given role may send on this stream.
    pub fn is_writable_by(self, is_server: bool) -> (writable: bool)
        ensures
            writable == writable_by(self@, is_server),
    {
        match self.directionality() {
            Directionality::Bidirectional => true,
            Directionality::Unidirectional => match self.initiator() {
                Initiator::Server => is_server,
                Initiator::Client => !is_server,
            },
        }
    }

    /// The display form: the number alone.
    pub fn display_text(self) -> (shown: String)
        ensures
            shown@ == text::decimal(self@ as nat),
    {
        let mut shown = text::owned("");
        proof {
            reveal_strlit("");
            assert(shown@ =~= Seq::<char>::empty());
        }
        text::append_decimal(&mut shown, self.get() as u64);
        assert(shown@ =~= text::decimal(self@ as nat));
        shown
    }

    /// The debug form, which names the role and the direction.
    pub fn debug_text(self) -> (shown: String)
        ensures
            shown@ == "StreamId("@ + text::decimal(self@ as nat) + ", "@ + (if opener(self@)
                == Initiator::Client {
                "client"@
            } else {
                "server"@
            }) + " "@ + (if direction(self@) == Directionality::Bidirectional {
                "bidi"@
            } else {
                "uni"@
            }) + ")"@,
    {
        let mut shown = text::owned("StreamId(");
        text::append_decimal(&mut shown, self.get() as u64);
        text::append(&mut shown, ", ");
        match self.initiator() {
            Initiator::Client => text::append(&mut shown, "client"),
            Initiator::Server => text::append(&mut shown, "server"),
        }
        text::append(&mut shown, " ");
        match self.directionality() {
            Directionality::Bidirectional => text::append(&mut shown, "bidi"),
            Directionality::Unidirectional => text::append(&mut shown, "uni"),
        }
        text::append(&mut shown, ")");
        shown
    }
}

} // verus!
