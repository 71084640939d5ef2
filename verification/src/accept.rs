//! Deciding what to do with a datagram before any connection exists.
//!
//! A server receives packets on one socket for many connections, including packets for
//! connections that do not exist yet. Something has to look at a datagram and decide: is
//! this a new connection, does it belong to an existing one, is its version supported?

use vstd::prelude::*;

use crate::cid::{permitted_len, ConnectionId, BAD_LENGTH, MAX_LEN};
use crate::error::{Error, ErrorView};
use crate::native;

verus! {

/// The QUIC version this build treats as primary.
pub const VERSION_V1: u32 = native::PROTO_VER_V1;

/// Why a short-header identifier length is refused.
pub const OVERSIZED_SHORT_DCIDLEN: &'static str = "short_dcidlen exceeds NGTCP2_MAX_CIDLEN";

/// What failed when a header could not be decoded.
pub const DECODE_FAILED: &'static str = "could not decode the packet header";

/// What failed when a Version Negotiation packet could not be written.
pub const NEGOTIATION_FAILED: &'static str = "could not write a Version Negotiation packet";

/// What a datagram turned out to be.
#[derive(Clone, Copy, Debug)]
pub enum Inspection {
    /// A long-header packet whose version this build supports.
    Supported {
        /// The QUIC version the client chose.
        version: u32,
        /// The destination identifier the client addressed.
        dcid: ConnectionId,
        /// The client's own source identifier.
        scid: ConnectionId,
    },
    /// A long-header packet naming a QUIC version this build does not support.
    ///
    /// The identifiers are still present, and are exactly what a Version Negotiation packet
    /// must echo back, which is why this is an outcome rather than an error.
    UnsupportedVersion {
        /// The version the client asked for.
        version: u32,
        /// The destination identifier, to be echoed as the source.
        dcid: ConnectionId,
        /// The source identifier, to be echoed as the destination.
        scid: ConnectionId,
    },
    /// A short-header packet, which belongs to a connection that already exists.
    ShortHeader {
        /// The destination identifier, for routing to that connection.
        dcid: ConnectionId,
    },
}

impl Inspection {
    /// The identifier a datagram is addressed to, whatever else it is.
    pub open spec fn addressed_to(self) -> Seq<u8> {
        match self {
            Inspection::Supported { dcid, .. } => dcid@,
            Inspection::UnsupportedVersion { dcid, .. } => dcid@,
            Inspection::ShortHeader { dcid } => dcid@,
        }
    }

    /// The identifier a datagram is addressed to.
    pub fn dcid(&self) -> (dcid: ConnectionId)
        ensures
            dcid@ == self.addressed_to(),
    {
        match self {
            Inspection::Supported { dcid, .. } => *dcid,
            Inspection::UnsupportedVersion { dcid, .. } => *dcid,
            Inspection::ShortHeader { dcid } => *dcid,
        }
    }
}

/// What the engine read out of a packet header.
///
/// The identifiers are empty where it found none. Where the version has to be negotiated the
/// engine answers with an error code and fills everything in regardless.
#[derive(Debug)]
pub struct DecodedHeader {
    /// The engine's answer.
    pub rc: i32,
    /// The version field, or zero where the header has none.
    pub version: u32,
    /// The destination identifier.
    pub dcid: Vec<u8>,
    /// The source identifier.
    pub scid: Vec<u8>,
}

/// Checks the length of the identifiers this endpoint issues, which a short header does not
/// carry and the engine therefore has to be told.
pub fn check_short_dcidlen(short_dcidlen: usize) -> (checked: Result<(), Error>)
    ensures
        match checked {
            Ok(()) => short_dcidlen <= MAX_LEN,
            Err(error) => short_dcidlen > MAX_LEN && error@ == ErrorView::invalid_input(
                OVERSIZED_SHORT_DCIDLEN@,
            ),
        },
{
    if short_dcidlen > MAX_LEN {
        return Err(Error::invalid_input(OVERSIZED_SHORT_DCIDLEN));
    }
    Ok(())
}

/// Whether the header was read, whatever its version.
pub open spec fn decoded(rc: i32) -> bool {
    rc == 0 || rc == native::ERR_VERSION_NEGOTIATION
}

/// Whether the header has a source identifier to read: a short header has none.
pub open spec fn has_source(header: DecodedHeader) -> bool {
    header.rc == native::ERR_VERSION_NEGOTIATION || header.version != 0
}

/// Whether a datagram can be made sense of: its header was read, and every identifier in it
/// has a length QUIC allows.
pub open spec fn inspectable(header: DecodedHeader, short_dcidlen: usize) -> bool {
    &&& short_dcidlen <= MAX_LEN
    &&& decoded(header.rc)
    &&& permitted_len(header.dcid@.len() as int)
    &&& has_source(header) ==> permitted_len(header.scid@.len() as int)
}

/// Examines a datagram that arrived with no connection attached, given what the engine read
/// out of its header.
///
/// A version that has to be negotiated is not a failure: discarding the identifiers with the
/// error would leave nothing to answer with. A datagram that is no well-formed packet is a
/// protocol error, and carries the engine's code.
pub fn inspect(header: &DecodedHeader, short_dcidlen: usize) -> (inspection: Result<
    Inspection,
    Error,
>)
    ensures
        inspection is Ok <==> inspectable(*header, short_dcidlen),
        match inspection {
            Ok(found) => {
                &&& found.addressed_to() == header.dcid@
                &&& found is ShortHeader <==> !has_source(*header)
                &&& found is UnsupportedVersion <==> header.rc == native::ERR_VERSION_NEGOTIATION
                &&& found matches Inspection::Supported { version, scid, .. } ==> version
                    == header.version && scid@ == header.scid@
                &&& found matches Inspection::UnsupportedVersion { version, scid, .. } ==> version
                    == header.version && scid@ == header.scid@
            },
            Err(error) => if short_dcidlen > MAX_LEN {
                error@ == ErrorView::invalid_input(OVERSIZED_SHORT_DCIDLEN@)
            } else if !decoded(header.rc) {
                error@ == ErrorView::malformed(header.rc as int, DECODE_FAILED@)
            } else {
                error@ == ErrorView::invalid_input(BAD_LENGTH@)
            },
        },
{
    match check_short_dcidlen(short_dcidlen) {
        Ok(()) => {},
        Err(error) => return Err(error),
    }
    if header.rc == 0 {
        let dcid = match ConnectionId::new(header.dcid.as_slice()) {
            Ok(dcid) => dcid,
            Err(error) => return Err(error),
        };
        if header.version == 0 {
            return Ok(Inspection::ShortHeader { dcid });
        }
        match ConnectionId::new(header.scid.as_slice()) {
            Ok(scid) => Ok(Inspection::Supported { version: header.version, dcid, scid }),
            Err(error) => Err(error),
        }
    } else if header.rc == native::ERR_VERSION_NEGOTIATION {
        let dcid = match ConnectionId::new(header.dcid.as_slice()) {
            Ok(dcid) => dcid,
            Err(error) => return Err(error),
        };
        match ConnectionId::new(header.scid.as_slice()) {
            Ok(scid) => Ok(
                Inspection::UnsupportedVersion { version: header.version, dcid, scid },
            ),
            Err(error) => Err(error),
        }
    } else {
        Err(Error::malformed(header.rc, DECODE_FAILED))
    }
}

/// Whether a datagram is acceptable as the very first packet of a new connection, given the
/// engine's answer to that question.
pub fn is_acceptable_initial(rc: i32) -> (acceptable: bool)
    ensures
        acceptable == (rc == 0),
{
    rc == 0
}

/// What writing a Version Negotiation packet came to: how many bytes it took, or why it did
/// not fit.
pub fn write_version_negotiation(written: isize) -> (result: Result<usize, Error>)
    ensures
        match result {
            Ok(len) => written >= 0 && len == written,
            Err(error) => written < 0 && error@ == ErrorView::from_native(
                (written as i32) as int,
                NEGOTIATION_FAILED@,
            ),
        },
{
    if written < 0 {
        return Err(Error::native(#[verifier::truncate] (written as i32), NEGOTIATION_FAILED));
    }
    Ok(written as usize)
}

/// Every QUIC version this build supports, in preference order.
pub fn supported_versions() -> (versions: [u32; 1])
    ensures
        versions@ == seq![VERSION_V1],
{
    let versions: [u32; 1] = [VERSION_V1];
    assert(versions@ =~= seq![VERSION_V1]);
    versions
}

/// The token a client's first packet carried.
#[derive(Debug)]
pub enum InitialToken {
    /// None.
    Absent,
    /// One that says it came from a Retry.
    Retry(Vec<u8>),
    /// One of another kind.
    Other(Vec<u8>),
}

impl InitialToken {
    /// The bytes of the token, which for an absent one are none.
    pub open spec fn content(&self) -> Seq<u8> {
        match self {
            InitialToken::Absent => Seq::empty(),
            InitialToken::Retry(bytes) => bytes@,
            InitialToken::Other(bytes) => bytes@,
        }
    }

    /// A copy of the token's bytes.
    pub fn bytes(&self) -> (bytes: Vec<u8>)
        ensures
            bytes@ == self.content(),
    {
        match self {
            InitialToken::Absent => Vec::new(),
            InitialToken::Retry(bytes) => vstd::slice::slice_to_vec(bytes.as_slice()),
            InitialToken::Other(bytes) => vstd::slice::slice_to_vec(bytes.as_slice()),
        }
    }
}

/// A client's first packet.
#[derive(Debug)]
pub struct InitialPacket {
    /// The version the client chose.
    pub version: u32,
    /// The destination identifier the client addressed.
    pub dcid: ConnectionId,
    /// The client's own source identifier.
    pub scid: ConnectionId,
    /// The token it carried.
    pub token: InitialToken,
}

} // verus!
