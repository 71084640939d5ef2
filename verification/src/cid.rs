//! Connection identifiers.

use vstd::prelude::*;
use vstd::slice::slice_subrange;

use crate::error::{Error, ErrorView};
use crate::rand::EntropySource;
use crate::text;

verus! {

/// The longest connection identifier QUIC version 1 allows.
pub const MAX_LEN: usize = 20;

/// The shortest non-empty connection identifier the engine accepts.
pub const MIN_LEN: usize = 1;

/// The length of the identifiers this crate chooses for itself.
pub const DEFAULT_LEN: usize = 8;

/// Why an identifier's length is refused.
pub const BAD_LENGTH: &'static str =
    "a connection ID must be between NGTCP2_MIN_CIDLEN and NGTCP2_MAX_CIDLEN bytes";

/// Whether `len` is a length a connection identifier may have.
pub open spec fn permitted_len(len: int) -> bool {
    MIN_LEN <= len <= MAX_LEN
}

/// A buffer of `len` zeroes, which is what a source is asked to fill.
pub open spec fn blank(len: nat) -> Seq<u8> {
    Seq::new(len, |i: int| 0u8)
}

/// Whether asking a source for `len` fresh bytes can come to `made` and leave the source as
/// far as `after`: the identifier is what the source left in the buffer, and its failure is
/// passed on as it is.
pub open spec fn draws<E: EntropySource>(
    source: E,
    len: nat,
    made: Result<ConnectionId, Error>,
    after: Seq<nat>,
) -> bool {
    exists|left: Seq<u8>, filled: Result<(), Error>|
        {
            &&& #[trigger] source.answers(blank(len), left, filled, after)
            &&& match filled {
                Ok(()) => made matches Ok(cid) && cid@ == left,
                Err(error) => made == Err::<ConnectionId, Error>(error),
            }
        }
}

/// A QUIC connection identifier.
///
/// A connection identifier is not a secret, but it must be *unpredictable*: an observer who
/// can guess the identifiers an endpoint will issue can correlate or interfere with its
/// connections. That is why [`ConnectionId::generate`] takes an [`EntropySource`].
#[derive(Clone, Copy, Debug, Eq, Hash)]
pub struct ConnectionId {
    data: [u8; 20],
    len: usize,
}

impl View for ConnectionId {
    type V = Seq<u8>;

    closed spec fn view(&self) -> Seq<u8> {
        self.data@.take(self.len as int)
    }
}

impl ConnectionId {
    /// Every identifier has a permitted length, and zeroes beyond it: equal identifiers are
    /// the same all through, and so hash alike.
    #[verifier::type_invariant]
    spec fn sized(self) -> bool {
        &&& permitted_len(self.len as int)
        &&& forall|i: int| self.len <= i < MAX_LEN ==> self.data@[i] == 0
    }

    /// Builds a connection identifier from bytes, refusing a length that is not permitted.
    pub fn new(bytes: &[u8]) -> (made: Result<Self, Error>)
        ensures
            match made {
                Ok(cid) => permitted_len(bytes@.len() as int) && cid@ == bytes@,
                Err(error) => !permitted_len(bytes@.len() as int) && error@
                    == ErrorView::invalid_input(BAD_LENGTH@),
            },
    {
        let len: usize = bytes.len();
        if len < MIN_LEN || len > MAX_LEN {
            return Err(Error::invalid_input(BAD_LENGTH));
        }
        let mut data: [u8; 20] = [0;20];
        let mut at: usize = 0;
        while at < len
            invariant
                at <= len <= MAX_LEN,
                len == bytes@.len(),
                forall|i: int| 0 <= i < at ==> data@[i] == bytes@[i],
                forall|i: int| at <= i < MAX_LEN ==> data@[i] == 0,
            decreases len - at,
        {
            data[at] = bytes[at];
            at += 1;
        }
        let cid = Self { data, len };
        assert(cid@ =~= bytes@);
        Ok(cid)
    }

    /// What a request for `len` fresh bytes comes to, given what the source did.
    ///
    /// `filled` is the source's verdict and `bytes` what it left in the buffer.
    pub fn generated(len: usize, filled: Result<(), Error>, bytes: &[u8]) -> (made: Result<
        Self,
        Error,
    >)
        requires
            bytes@.len() == len,
        ensures
            match made {
                Ok(cid) => permitted_len(len as int) && filled is Ok && cid@ == bytes@,
                Err(error) => if filled is Err {
                    error == filled->Err_0
                } else {
                    !permitted_len(len as int) && error@ == ErrorView::invalid_input(BAD_LENGTH@)
                },
            },
    {
        match filled {
            Err(error) => Err(error),
            Ok(()) => Self::new(bytes),
        }
    }

    /// Generates a connection identifier of `len` bytes from an entropy source.
    ///
    /// A length that is not permitted is refused without drawing on the source; otherwise
    /// the source is asked once for exactly `len` bytes, they are the identifier, and its
    /// failure is passed on.
    pub fn generate<E: EntropySource>(source: &mut E, len: usize) -> (made: Result<Self, Error>)
        ensures
            !permitted_len(len as int) ==> {
                &&& *final(source) == *old(source)
                &&& made matches Err(error) && error@ == ErrorView::invalid_input(BAD_LENGTH@)
            },
            permitted_len(len as int) ==> draws(
                *old(source),
                len as nat,
                made,
                (*final(source)).progress(),
            ),
            made matches Ok(cid) ==> permitted_len(len as int) && cid@.len() == len,
    {
        if len < MIN_LEN || len > MAX_LEN {
            return Err(Error::invalid_input(BAD_LENGTH));
        }
        let mut bytes: Vec<u8> = vec![0u8; len];
        assert(bytes@ =~= blank(len as nat));
        let filled = source.fill(bytes.as_mut_slice());
        assert((*old(source)).answers(blank(len as nat), bytes@, filled, (*source).progress()));
        Self::generated(len, filled, bytes.as_slice())
    }

    /// The identifier's bytes.
    pub fn as_bytes(&self) -> (bytes: &[u8])
        ensures
            bytes@ == self@,
            permitted_len(bytes@.len() as int),
    {
        proof {
            use_type_invariant(self);
        }
        slice_subrange(self.data.as_slice(), 0, self.len)
    }

    /// The debug form, in hexadecimal.
    pub fn debug_text(&self) -> (shown: String)
        ensures
            shown@ == "ConnectionId("@ + text::hex_bytes(self@) + ")"@,
    {
        let mut shown = text::owned("ConnectionId(");
        text::append_hex_bytes(&mut shown, self.as_bytes());
        text::append(&mut shown, ")");
        shown
    }
}

/// Whether two byte strings are the same.
pub fn same_bytes(left: &[u8], right: &[u8]) -> (same: bool)
    ensures
        same == (left@ == right@),
{
    if left.len() != right.len() {
        return false;
    }
    let mut at: usize = 0;
    while at < left.len()
        invariant
            at <= left@.len(),
            left@.len() == right@.len(),
            forall|i: int| 0 <= i < at ==> left@[i] == right@[i],
        decreases left.len() - at,
    {
        if left[at] != right[at] {
            return false;
        }
        at += 1;
    }
    assert(left@ =~= right@);
    true
}

/// Identifiers are equal when their significant bytes are; what lies beyond them is padding.
impl PartialEq for ConnectionId {
    fn eq(&self, other: &Self) -> (same: bool) {
        same_bytes(self.as_bytes(), other.as_bytes())
    }
}

impl vstd::std_specs::cmp::PartialEqSpecImpl for ConnectionId {
    open spec fn obeys_eq_spec() -> bool {
        true
    }

    open spec fn eq_spec(&self, other: &Self) -> bool {
        self@ == other@
    }
}

} // verus!
