//! Streams, time, randomness, roles, outcomes and text.

use ngnet_quic::error::{ApplicationErrorCode, ErrorKind};
use ngnet_quic::handlers::StreamCloseReason;
use ngnet_quic::native;
use ngnet_quic::packet::{
    expiry, handle_expiry, read_pkt, readable, writable, write_pkt, ExpiryOutcome, ReadOutcome,
    WriteOutcome,
};
use ngnet_quic::rand::{CountingEntropy, EntropySource};
use ngnet_quic::stream::{Directionality, Initiator, StreamId};
use ngnet_quic::time::{Duration, Timestamp};
use ngnet_quic::tls::{CryptoError, Direction, Level, Role, HP_MASK_LEN, HP_SAMPLE_LEN};

#[test]
fn the_sentinel_ngtcp2_uses_for_no_stream_is_not_a_valid_identifier() {
    assert!(StreamId::new(-1).is_err());
    assert!(StreamId::new(0).is_ok());
}

#[test]
fn identifiers_above_the_varint_range_are_rejected() {
    assert!(StreamId::new(StreamId::MAX).is_ok());
    assert!(StreamId::new(StreamId::MAX + 1).is_err());
}

#[test]
fn the_low_two_bits_decode_as_quic_specifies() {
    let cases = [
        (0, Initiator::Client, Directionality::Bidirectional),
        (1, Initiator::Server, Directionality::Bidirectional),
        (2, Initiator::Client, Directionality::Unidirectional),
        (3, Initiator::Server, Directionality::Unidirectional),
    ];
    for (raw, initiator, directionality) in cases {
        let id = StreamId::new(raw).unwrap();
        assert_eq!(id.initiator(), initiator, "initiator of {raw}");
        assert_eq!(id.directionality(), directionality, "direction of {raw}");
    }
}

#[test]
fn the_counter_above_the_low_bits_does_not_disturb_the_decoding() {
    let id = StreamId::new(0xff_00 | 0x3).unwrap();
    assert_eq!(id.initiator(), Initiator::Server);
    assert_eq!(id.directionality(), Directionality::Unidirectional);
}

#[test]
fn only_the_opener_may_write_a_unidirectional_stream() {
    let client_uni = StreamId::new(2).unwrap();
    let server_uni = StreamId::new(3).unwrap();
    assert!(client_uni.is_writable_by(false));
    assert!(!client_uni.is_writable_by(true));
    assert!(server_uni.is_writable_by(true));
    assert!(!server_uni.is_writable_by(false));
}

#[test]
fn both_roles_may_write_a_bidirectional_stream() {
    for raw in [0, 1] {
        let id = StreamId::new(raw).unwrap();
        assert!(id.is_writable_by(true));
        assert!(id.is_writable_by(false));
    }
}

#[test]
fn the_debug_form_names_the_role_and_direction() {
    assert_eq!(StreamId::new(3).unwrap().debug_text(), "StreamId(3, server uni)");
}

#[test]
fn a_stream_is_shown_by_its_number() {
    assert_eq!(StreamId::new(0).unwrap().display_text(), "0");
    assert_eq!(StreamId::new(1204).unwrap().display_text(), "1204");
}

#[test]
fn the_reserved_sentinel_is_not_a_timestamp() {
    assert!(Timestamp::from_nanos(u64::MAX).is_err());
    assert!(Timestamp::from_nanos(u64::MAX - 1).is_ok());
}

#[test]
fn the_reserved_sentinel_reads_back_as_no_time() {
    assert_eq!(Timestamp::from_raw(u64::MAX), None);
    assert_eq!(Timestamp::from_raw(0).map(Timestamp::as_nanos), Some(0));
}

#[test]
fn milliseconds_that_overflow_are_rejected() {
    assert!(Duration::from_millis(u64::MAX).is_err());
    assert_eq!(Duration::from_millis(5).unwrap().as_nanos(), 5_000_000);
}

#[test]
fn times_are_shown_in_nanoseconds() {
    assert_eq!(Timestamp::from_nanos(12).unwrap().debug_text(), "Timestamp(12ns)");
    assert_eq!(Duration::from_nanos(0).debug_text(), "Duration(0ns)");
}

#[test]
fn a_source_fills_the_whole_buffer() {
    let mut source = CountingEntropy::default();
    let mut buf = [0xffu8; 4];
    source.fill(&mut buf).unwrap();
    assert_eq!(buf, [0, 1, 2, 3]);
    assert_eq!(source.bytes_produced(), 4);
}

#[test]
fn the_blanket_impl_forwards_through_a_mutable_reference() {
    let mut source = CountingEntropy::default();
    let indirect = &mut &mut source;
    let mut buf = [0u8; 2];
    indirect.fill(&mut buf).unwrap();
    assert_eq!(buf, [0, 1]);
}

#[test]
fn a_role_knows_whether_it_is_a_server() {
    assert!(Role::Server.is_server());
    assert!(!Role::Client.is_server());
}

#[test]
fn the_header_protection_lengths_match_the_library() {
    assert_eq!(HP_MASK_LEN, 5, "header protection mask length");
    assert_eq!(HP_SAMPLE_LEN, 16, "header protection sample length");
}

#[test]
fn a_failed_decryption_is_distinguishable_from_a_fatal_error() {
    assert_ne!(CryptoError::Decrypt, CryptoError::Fatal);
}

#[test]
fn the_encryption_levels_are_distinct() {
    let levels = [Level::Initial, Level::ZeroRtt, Level::Handshake, Level::OneRtt];
    for (index, left) in levels.iter().enumerate() {
        for right in &levels[index + 1..] {
            assert_ne!(left, right, "two encryption levels compare equal");
        }
    }
    assert_ne!(Direction::Read, Direction::Write);
}

#[test]
fn the_three_write_outcomes_are_distinguishable() {
    assert_ne!(WriteOutcome::Idle, WriteOutcome::Blocked);
    assert_ne!(WriteOutcome::Datagram { len: 1 }, WriteOutcome::Idle);
    assert_ne!(WriteOutcome::Datagram { len: 1 }, WriteOutcome::Blocked);
}

#[test]
fn an_empty_datagram_is_rejected_rather_than_silently_accepted() {
    assert!(readable(&[]).is_err());
    assert!(readable(&[1]).is_ok());
}

#[test]
fn an_empty_write_buffer_is_rejected() {
    assert!(writable(0).is_err());
    assert!(writable(1500).is_ok());
}

#[test]
fn reading_has_five_outcomes_and_the_rest_are_failures() {
    assert_eq!(read_pkt(0).unwrap(), ReadOutcome::Processed);
    assert_eq!(read_pkt(native::ERR_RETRY).unwrap(), ReadOutcome::SendRetry);
    assert_eq!(read_pkt(native::ERR_DROP_CONN).unwrap(), ReadOutcome::DropSilently);
    assert_eq!(read_pkt(native::ERR_DRAINING).unwrap(), ReadOutcome::Draining);
    assert_eq!(read_pkt(native::ERR_CLOSING).unwrap(), ReadOutcome::Closing);
    assert_eq!(read_pkt(native::ERR_PROTO).unwrap_err().kind(), ErrorKind::Protocol);
}

#[test]
fn writing_tells_blocked_from_idle() {
    assert_eq!(write_pkt(1200).unwrap(), WriteOutcome::Datagram { len: 1200 });
    assert_eq!(write_pkt(0).unwrap(), WriteOutcome::Blocked);
    assert_eq!(write_pkt(native::ERR_WRITE_MORE as isize).unwrap(), WriteOutcome::Blocked);
    assert_eq!(write_pkt(native::ERR_CLOSING as isize).unwrap(), WriteOutcome::Idle);
    assert!(write_pkt(native::ERR_NOMEM as isize).is_err());
}

#[test]
fn an_expiry_is_handled_or_ends_the_connection() {
    assert_eq!(handle_expiry(0).unwrap(), ExpiryOutcome::Handled);
    assert_eq!(handle_expiry(native::ERR_IDLE_CLOSE).unwrap(), ExpiryOutcome::IdleClose);
    assert_eq!(handle_expiry(native::ERR_DRAINING).unwrap(), ExpiryOutcome::Terminal);
    assert!(handle_expiry(native::ERR_HANDSHAKE_TIMEOUT).is_err());
    assert!(expiry(u64::MAX).is_none());
    assert_eq!(expiry(5).unwrap().as_nanos(), 5);
}

#[test]
fn a_stream_that_carries_no_code_closed_cleanly() {
    assert!(StreamCloseReason::default().is_clean());
    let reason = StreamCloseReason::new(None, Some(ApplicationErrorCode::new(0)));
    assert!(!reason.is_clean());
    assert!(reason.receiving().is_none());
}
