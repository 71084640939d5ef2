//! Error codes and kinds.

use ngnet_quic::error::{
    classify, ApplicationErrorCode, CloseError, CloseReason, Error, ErrorKind, NativeCode,
    TransportErrorCode,
};
use ngnet_quic::native;

#[test]
fn a_code_is_described_in_the_engines_words_where_it_has_any() {
    let code = NativeCode::new(native::ERR_NOMEM);
    assert_eq!(code.describe(Some("ERR_NOMEM")), "ERR_NOMEM");
    assert_eq!(code.describe(None), "unknown error");
}

#[test]
fn a_code_ngtcp2_does_not_know_still_yields_a_description() {
    let code = NativeCode::new(-999_999);
    assert!(!code.describe(None).is_empty());
}

#[test]
fn out_of_memory_is_fatal_and_classified_as_exhausted() {
    let code = NativeCode::new(native::ERR_NOMEM);
    assert!(code.is_fatal());
    assert_eq!(classify(code), ErrorKind::Exhausted);
}

#[test]
fn blocking_conditions_are_not_protocol_errors() {
    for raw in [native::ERR_STREAM_DATA_BLOCKED, native::ERR_STREAM_ID_BLOCKED] {
        assert_eq!(classify(NativeCode::new(raw)), ErrorKind::Blocked);
    }
}

#[test]
fn an_unknown_code_classifies_as_internal_rather_than_being_lost() {
    assert_eq!(classify(NativeCode::new(-31_337)), ErrorKind::Internal);
}

#[test]
fn validation_errors_carry_no_native_code() {
    let err = Error::invalid_input("test");
    assert_eq!(err.kind(), ErrorKind::InvalidInput);
    assert!(err.native_code().is_none());
    assert!(err.transport_error_code(TransportErrorCode::new(0)).is_none());
}

#[test]
fn the_two_error_code_spaces_are_distinct_types() {
    let transport = TransportErrorCode::new(0x0a);
    let application = ApplicationErrorCode::new(0x0a);
    assert_eq!(transport.get(), application.get());
}

#[test]
fn only_a_failure_of_the_engine_closes_with_the_code_inferred_for_it() {
    let inferred = TransportErrorCode::new(3);
    let err = Error::native(native::ERR_FLOW_CONTROL, "test");
    assert_eq!(err.transport_error_code(inferred), Some(inferred));
    assert_eq!(Error::backend("test").transport_error_code(inferred), None);
}

#[test]
fn every_kind_of_native_code_has_its_class() {
    for (raw, kind) in [
        (native::ERR_INVALID_ARGUMENT, ErrorKind::InvalidInput),
        (native::ERR_INVALID_STATE, ErrorKind::InvalidInput),
        (native::ERR_CRYPTO, ErrorKind::Crypto),
        (native::ERR_TRANSPORT_PARAM, ErrorKind::Crypto),
        (native::ERR_STREAM_SHUT_WR, ErrorKind::Blocked),
        (native::ERR_CLOSING, ErrorKind::Closing),
        (native::ERR_DRAINING, ErrorKind::Closing),
        (native::ERR_PROTO, ErrorKind::Protocol),
        (native::ERR_FINAL_SIZE, ErrorKind::Protocol),
        (native::ERR_CALLBACK_FAILURE, ErrorKind::ConnectionUnusable),
    ] {
        assert_eq!(classify(NativeCode::new(raw)), kind, "class of {raw}");
    }
}

#[test]
fn an_unusable_error_is_fatal_whatever_it_was() {
    let err = Error::invalid_input("test");
    assert!(!err.is_fatal());
    assert!(err.into_unusable().is_fatal());
    assert!(Error::unusable().is_fatal());
    assert!(Error::native(native::ERR_NOMEM, "x").is_fatal());
    assert_eq!(Error::backend("x").kind(), ErrorKind::Crypto);
}

#[test]
fn codes_are_shown_in_hexadecimal() {
    assert_eq!(TransportErrorCode::new(0x0a).display_text(), "transport error 0xa");
    assert_eq!(ApplicationErrorCode::new(0xff).display_text(), "application error 0xff");
}

#[test]
fn a_close_keeps_its_reason_and_phrase() {
    let close = CloseError::new(
        CloseReason::Application(ApplicationErrorCode::new(7)),
        b"bye".to_vec(),
    );
    let copy = close.clone();
    assert_eq!(copy.phrase(), b"bye");
    assert_eq!(copy.reason(), CloseReason::Application(ApplicationErrorCode::new(7)));
    assert_eq!(CloseError::idle().reason(), CloseReason::IdleTimeout);
    assert!(CloseError::idle().phrase().is_empty());
}
