//! Writing streams and closing connections.

use ngnet_quic::error::{Error, ErrorKind};
use ngnet_quic::native;
use ngnet_quic::retain::{OwnedBytes, Retained};
use ngnet_quic::stream::{Directionality, StreamId};
use ngnet_quic::stream_io::{
    open_bidi_stream, open_uni_stream, owned_write, reset_stream, shutdown_stream, stop_sending,
    stream_flags, submit_one_vec, transport_close_code, write_close_with, write_stream_owned,
    write_stream_vectored, StreamWrite,
};

fn sid(id: i64) -> StreamId {
    StreamId::new(id).unwrap()
}

#[test]
fn fin_is_only_attached_to_the_true_final_suffix() {
    assert_eq!(
        stream_flags(true, true),
        native::WRITE_STREAM_FLAG_FIN,
        "an empty FIN and a complete final suffix must carry FIN"
    );
    assert_eq!(
        stream_flags(true, false),
        native::WRITE_STREAM_FLAG_NONE,
        "a bounded prefix omitting a caller suffix must suppress FIN"
    );
    assert_eq!(stream_flags(false, true), native::WRITE_STREAM_FLAG_NONE);
    assert_eq!(stream_flags(false, false), native::WRITE_STREAM_FLAG_NONE);
}

#[test]
fn opening_a_stream_before_the_handshake_is_blocked_not_broken() {
    match open_bidi_stream(native::ERR_STREAM_ID_BLOCKED, -1) {
        Err(err) => assert_eq!(err.kind(), ErrorKind::Blocked),
        Ok(id) => assert_eq!(id.directionality(), Directionality::Bidirectional),
    }
    assert_eq!(open_bidi_stream(0, 4).unwrap().get(), 4);
    assert_eq!(open_uni_stream(0, 2).unwrap().get(), 2);
    assert!(open_uni_stream(0, -1).is_err());
}

#[test]
fn an_empty_buffer_is_rejected_by_every_write_path() {
    let mut retained = Retained::new();
    assert!(write_stream_vectored(&mut retained, 0, sid(0), &[b"x"], false, 1200).is_err());
    assert!(
        write_stream_owned(&mut retained, 0, sid(0), &OwnedBytes::new(b"x".to_vec()), false).is_err()
    );
    assert_eq!(retained.bytes_held(), 0);
}

#[test]
fn the_stream_write_outcomes_are_distinguishable() {
    assert_ne!(StreamWrite::Idle, StreamWrite::StreamBlocked);
    assert_ne!(StreamWrite::StreamBlocked, StreamWrite::ConnectionBlocked);
    assert_ne!(
        StreamWrite::Datagram { len: 1, accepted: 0 },
        StreamWrite::Datagram { len: 1, accepted: 1 }
    );
}

#[test]
fn a_write_retains_what_was_accepted_and_gives_back_the_rest() {
    let mut retained = Retained::new();
    let data = OwnedBytes::new(vec![1, 2, 3, 4, 5]);
    let staged = write_stream_owned(&mut retained, 1500, sid(0), &data, true).unwrap();
    assert_eq!(staged.staged, Some(5));
    assert_eq!(staged.flags, native::WRITE_STREAM_FLAG_FIN);
    let outcome = submit_one_vec(&mut retained, sid(0), true, 1200, 3, 100).unwrap();
    assert_eq!(outcome, StreamWrite::Datagram { len: 1200, accepted: 3 });
    assert_eq!(retained.bytes_held(), 3);
    let offered = data.clone();
    let (held, len) = retained.last_pointer(sid(0)).unwrap();
    assert_eq!(len, 3);
    assert_eq!(held.as_ptr(), offered.as_slice().as_ptr(), "the accepted bytes were not copied");
    let unsent = owned_write(outcome, data).unsent;
    assert_eq!(unsent.as_slice(), &[4, 5]);
    assert_eq!(unsent.as_slice().as_ptr(), offered.as_slice()[3..].as_ptr());
}

#[test]
fn a_blocked_write_leaves_no_trace() {
    for (written, credit, expected) in [
        (0, 0, StreamWrite::ConnectionBlocked),
        (0, 10, StreamWrite::Blocked),
        (native::ERR_STREAM_DATA_BLOCKED as isize, 10, StreamWrite::StreamBlocked),
        (native::ERR_CLOSING as isize, 10, StreamWrite::Idle),
    ] {
        let mut retained = Retained::new();
        let staged =
            write_stream_vectored(&mut retained, 1500, sid(0), &[b"hello"], false, 1200).unwrap();
        let outcome =
            submit_one_vec(&mut retained, sid(0), staged.staged.is_some(), written, -1, credit);
        assert_eq!(outcome.unwrap(), expected);
        assert_eq!(retained.bytes_held(), 0);
    }
}

#[test]
fn writing_to_a_stream_that_does_not_exist_is_reported_not_ignored() {
    let mut retained = Retained::new();
    let staged =
        write_stream_vectored(&mut retained, 1500, sid(0), &[b"hello"], false, 1200).unwrap();
    let written = native::ERR_STREAM_NOT_FOUND as isize;
    match submit_one_vec(&mut retained, sid(0), staged.staged.is_some(), written, -1, 10) {
        Err(err) => assert!(err.native_code().is_some()),
        Ok(StreamWrite::Datagram { accepted, .. }) => {
            assert_eq!(accepted, 0, "no data can be accepted for an unopened stream");
        }
        Ok(_) => {}
    }
    let shut = native::ERR_STREAM_SHUT_WR as isize;
    let err = submit_one_vec(&mut retained, sid(0), false, shut, -1, 10).unwrap_err();
    assert_eq!(err.context(), "the write side of this stream is already closed");
    assert!(err.is_fatal(), "a refused write leaves the connection unusable");
    let refused = native::ERR_STREAM_NOT_FOUND as isize;
    let err = submit_one_vec(&mut retained, sid(0), false, refused, -1, 10).unwrap_err();
    assert_eq!(err.context(), "could not write stream data");
    assert!(err.is_fatal());
}

#[test]
fn a_bounded_write_suppresses_the_end_of_the_stream() {
    let mut retained = Retained::new();
    let first = write_stream_vectored(&mut retained, 1500, sid(0), &[&[0; 10]], true, 4).unwrap();
    assert_eq!((first.staged, first.flags), (Some(4), native::WRITE_STREAM_FLAG_NONE));
    let mut retained = Retained::new();
    let last = write_stream_vectored(&mut retained, 1500, sid(0), &[&[0; 4]], true, 4).unwrap();
    assert_eq!((last.staged, last.flags), (Some(4), native::WRITE_STREAM_FLAG_FIN));
    let only_fin = write_stream_vectored(&mut retained, 1500, sid(4), &[&[]], true, 4).unwrap();
    assert_eq!((only_fin.staged, only_fin.flags), (None, native::WRITE_STREAM_FLAG_FIN));
}

#[test]
fn a_transport_close_can_be_written_from_a_native_error() {
    let cause = Error::native(native::ERR_PROTO, "a protocol violation");
    assert_eq!(transport_close_code(&cause), native::ERR_PROTO);
    assert_eq!(write_close_with(40).unwrap(), 40);
    assert!(write_close_with(native::ERR_NOBUF as isize).is_err());
}

#[test]
fn stream_controls_pass_the_engines_refusal_on() {
    assert!(shutdown_stream(0).is_ok());
    assert_eq!(reset_stream(native::ERR_NOMEM).unwrap_err().kind(), ErrorKind::Exhausted);
    assert_eq!(
        stop_sending(native::ERR_STREAM_NOT_FOUND).unwrap_err().kind(),
        ErrorKind::Blocked
    );
}
