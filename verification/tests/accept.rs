//! What a datagram without a connection turns out to be.

use ngnet_quic::accept::{
    inspect, is_acceptable_initial, supported_versions, write_version_negotiation, DecodedHeader,
    InitialToken, Inspection, VERSION_V1,
};
use ngnet_quic::cid::MAX_LEN;
use ngnet_quic::error::ErrorKind;
use ngnet_quic::native;

/// What the engine reads out of a long header.
fn long_header(rc: i32, version: u32, dcid: &[u8], scid: &[u8]) -> DecodedHeader {
    DecodedHeader { rc, version, dcid: dcid.to_vec(), scid: scid.to_vec() }
}

#[test]
fn a_supported_version_yields_its_identifiers() {
    let header = long_header(0, VERSION_V1, &[1; 8], &[2; 8]);
    match inspect(&header, 8).unwrap() {
        Inspection::Supported { version, dcid, scid } => {
            assert_eq!(version, VERSION_V1);
            assert_eq!(dcid.as_bytes(), &[1; 8]);
            assert_eq!(scid.as_bytes(), &[2; 8]);
        }
        other => panic!("expected a supported version, got {other:?}"),
    }
}

#[test]
fn an_unsupported_version_still_yields_its_identifiers() {
    let header =
        long_header(native::ERR_VERSION_NEGOTIATION, 0x0badf00d, &[3; 8], &[4; 8]);
    match inspect(&header, 8).unwrap() {
        Inspection::UnsupportedVersion { version, dcid, scid } => {
            assert_eq!(version, 0x0badf00d);
            assert_eq!(dcid.as_bytes(), &[3; 8]);
            assert_eq!(scid.as_bytes(), &[4; 8]);
        }
        other => panic!("expected an unsupported version, got {other:?}"),
    }
}

#[test]
fn the_identifiers_survive_the_datagram_being_dropped() {
    let inspection = {
        let header = long_header(0, VERSION_V1, &[7; 12], &[8; 12]);
        inspect(&header, 8).unwrap()
    };
    match inspection {
        Inspection::Supported { dcid, scid, .. } => {
            assert_eq!(dcid.as_bytes(), &[7; 12]);
            assert_eq!(scid.as_bytes(), &[8; 12]);
        }
        other => panic!("expected a supported version, got {other:?}"),
    }
}

#[test]
fn a_truncated_datagram_is_rejected() {
    let header = long_header(native::ERR_INVALID_ARGUMENT, 0, &[], &[]);
    let Err(err) = inspect(&header, 8) else {
        panic!("a truncated packet must be rejected");
    };
    assert!(matches!(
        err.kind(),
        ErrorKind::Protocol | ErrorKind::InvalidInput | ErrorKind::Internal
    ));
    assert_eq!(err.kind(), ErrorKind::Protocol, "a malformed datagram");
    assert_eq!(err.native_code().unwrap().get(), native::ERR_INVALID_ARGUMENT);
}

#[test]
fn an_oversized_short_dcidlen_is_rejected_before_reaching_c() {
    let header = long_header(0, VERSION_V1, &[1; 8], &[2; 8]);
    let Err(err) = inspect(&header, MAX_LEN + 1) else {
        panic!("an out-of-range short_dcidlen must be rejected");
    };
    assert_eq!(err.kind(), ErrorKind::InvalidInput);
}

#[test]
fn a_well_formed_initial_is_acceptable() {
    assert!(is_acceptable_initial(0));
}

#[test]
fn a_tiny_datagram_is_not_an_acceptable_initial() {
    assert!(!is_acceptable_initial(native::ERR_INVALID_ARGUMENT));
}

#[test]
fn a_version_negotiation_packet_into_a_tiny_buffer_fails() {
    let failed = write_version_negotiation(native::ERR_NOBUF as isize).unwrap_err();
    assert_eq!(failed.native_code().unwrap().get(), native::ERR_NOBUF);
    assert_eq!(write_version_negotiation(27).unwrap(), 27);
}

#[test]
fn version_one_is_supported() {
    assert!(supported_versions().contains(&VERSION_V1));
    assert_eq!(supported_versions(), [1]);
}

#[test]
fn a_short_header_has_no_source_and_still_says_whose_it_is() {
    let header = long_header(0, 0, &[9; 8], &[]);
    match inspect(&header, 8).unwrap() {
        Inspection::ShortHeader { dcid } => assert_eq!(dcid.as_bytes(), &[9; 8]),
        other => panic!("expected a short header, got {other:?}"),
    }
}

#[test]
fn identifiers_of_a_length_quic_forbids_are_refused() {
    let no_dcid = inspect(&long_header(0, 0, &[], &[]), 8).unwrap_err();
    assert_eq!(no_dcid.kind(), ErrorKind::InvalidInput);
    let long_scid = inspect(&long_header(0, VERSION_V1, &[1; 8], &[2; 21]), 8).unwrap_err();
    assert_eq!(long_scid.kind(), ErrorKind::InvalidInput);
    assert!(long_scid.native_code().is_none());
}

#[test]
fn a_token_gives_its_bytes_back() {
    assert!(InitialToken::Absent.bytes().is_empty());
    assert_eq!(InitialToken::Retry(vec![1, 2]).bytes(), [1, 2]);
    assert_eq!(InitialToken::Other(vec![3]).bytes(), [3]);
}
