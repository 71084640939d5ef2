//! Error types.
//!
//! The native engine reports failures as small negative integers, and this module keeps
//! three things separate that are easy to conflate.
//!
//! First, the **native code**: the exact value the engine returned. It is preserved rather
//! than discarded, because no fixed set of variants can cover every condition it defines.
//!
//! Second, the **kind**: a coarse classification a caller can branch on without matching
//! two dozen codes.
//!
//! Third, QUIC has **two error-code spaces**. Transport error codes describe the connection
//! itself; application error codes mean whatever the protocol above QUIC says they mean.
//! The same integer means different things in each, so they are different types here.

use vstd::prelude::*;

use crate::native;
use crate::text;

verus! {

/// A raw engine error code.
#[derive(Clone, Copy, Debug, PartialEq, Eq, Hash, Structural)]
pub struct NativeCode(i32);

impl View for NativeCode {
    type V = int;

    closed spec fn view(&self) -> int {
        self.0 as int
    }
}

/// Whether the engine considers `code` fatal to the connection: everything below its fatal
/// threshold is.
pub open spec fn fatal_code(code: int) -> bool {
    code < native::ERR_FATAL
}

/// What to call a code the engine has no words for.
pub const UNKNOWN_ERROR: &'static str = "unknown error";

impl NativeCode {
    /// Wraps a raw code as the engine returned it.
    pub fn new(code: i32) -> (native: Self)
        ensures
            native@ == code,
    {
        Self(code)
    }

    /// The raw value.
    pub fn get(self) -> (code: i32)
        ensures
            code == self@,
    {
        self.0
    }

    /// Whether the engine considers this code fatal to the connection.
    pub fn is_fatal(self) -> (fatal: bool)
        ensures
            fatal == fatal_code(self@),
    {
        self.0 < native::ERR_FATAL
    }

    /// A short description: the engine's own words for this code where it has any that can
    /// be read as text.
    pub fn describe(self, worded: Option<&'static str>) -> (words: &'static str)
        ensures
            words@ == (match worded {
                Some(text) => text@,
                None => UNKNOWN_ERROR@,
            }),
    {
        match worded {
            Some(text) => text,
            None => UNKNOWN_ERROR,
        }
    }

    /// The display form: the description, then the code.
    pub fn display_text(self, worded: Option<&'static str>) -> (shown: String)
        ensures
            shown@ == native_text(self@, (match worded {
                Some(text) => text@,
                None => UNKNOWN_ERROR@,
            })),
    {
        let mut shown = text::owned(self.describe(worded));
        text::append(&mut shown, " (");
        text::append_signed(&mut shown, self.0 as i64);
        text::append(&mut shown, ")");
        shown
    }
}

/// How a native code reads: its description with the number behind it.
pub open spec fn native_text(code: int, words: Seq<char>) -> Seq<char> {
    words + " ("@ + text::signed_decimal(code) + ")"@
}

/// A QUIC **transport** error code.
#[derive(Clone, Copy, Debug, PartialEq, Eq, Hash, Structural)]
pub struct TransportErrorCode(u64);

impl View for TransportErrorCode {
    type V = nat;

    closed spec fn view(&self) -> nat {
        self.0 as nat
    }
}

impl TransportErrorCode {
    /// The raw code for no error: the peer is closing the connection without complaint.
    pub const NO_ERROR: u64 = 0;

    /// Wraps a raw transport error code.
    pub fn new(code: u64) -> (wrapped: Self)
        ensures
            wrapped@ == code,
    {
        Self(code)
    }

    /// The raw value.
    pub fn get(self) -> (code: u64)
        ensures
            code == self@,
    {
        self.0
    }

    /// The display form, in hexadecimal.
    pub fn display_text(self) -> (shown: String)
        ensures
            shown@ == "transport error 0x"@ + text::hexadecimal(self@),
    {
        let mut shown = text::owned("transport error 0x");
        text::append_hex(&mut shown, self.0);
        shown
    }
}

/// A QUIC **application** error code.
#[derive(Clone, Copy, Debug, PartialEq, Eq, Hash, Structural)]
pub struct ApplicationErrorCode(u64);

impl View for ApplicationErrorCode {
    type V = nat;

    closed spec fn view(&self) -> nat {
        self.0 as nat
    }
}

impl ApplicationErrorCode {
    /// Wraps a raw application error code.
    pub fn new(code: u64) -> (wrapped: Self)
        ensures
            wrapped@ == code,
    {
        Self(code)
    }

    /// The raw value.
    pub fn get(self) -> (code: u64)
        ensures
            code == self@,
    {
        self.0
    }

    /// The display form, in hexadecimal.
    pub fn display_text(self) -> (shown: String)
        ensures
            shown@ == "application error 0x"@ + text::hexadecimal(self@),
    {
        let mut shown = text::owned("application error 0x");
        text::append_hex(&mut shown, self.0);
        shown
    }
}

/// The broad category of a failure.
#[derive(Clone, Copy, Debug, PartialEq, Eq, Hash, Structural)]
pub enum ErrorKind {
    /// The peer violated the transport protocol.
    Protocol,
    /// An allocation failed. Always fatal to the connection.
    Exhausted,
    /// This crate's caller passed something invalid.
    InvalidInput,
    /// The TLS handshake failed.
    Crypto,
    /// The connection is no longer usable and only dropping it is permitted.
    ConnectionUnusable,
    /// The connection is closing or draining and will accept no new work.
    Closing,
    /// The peer's limits prevent this right now; it may succeed later.
    Blocked,
    /// Anything else, including conditions a future engine adds.
    Internal,
}

/// The codes that mean the handshake or its parameters were unacceptable.
pub open spec fn crypto_codes() -> Set<int> {
    set![
        native::ERR_CRYPTO as int,
        native::ERR_REQUIRED_TRANSPORT_PARAM as int,
        native::ERR_MALFORMED_TRANSPORT_PARAM as int,
        native::ERR_TRANSPORT_PARAM as int,
        native::ERR_VERSION_NEGOTIATION_FAILURE as int,
    ]
}

/// The codes that mean "not now", which a working connection meets all the time.
pub open spec fn blocked_codes() -> Set<int> {
    set![
        native::ERR_STREAM_DATA_BLOCKED as int,
        native::ERR_STREAM_ID_BLOCKED as int,
        native::ERR_STREAM_SHUT_WR as int,
        native::ERR_STREAM_NOT_FOUND as int,
        native::ERR_CONN_ID_BLOCKED as int,
    ]
}

/// The codes that mean the peer broke the protocol.
pub open spec fn protocol_codes() -> Set<int> {
    set![
        native::ERR_PROTO as int,
        native::ERR_FRAME_ENCODING as int,
        native::ERR_ACK_FRAME as int,
        native::ERR_FINAL_SIZE as int,
        native::ERR_FLOW_CONTROL as int,
        native::ERR_STREAM_LIMIT as int,
    ]
}

/// The category of a native code. Codes nothing here names are [`ErrorKind::Internal`].
pub open spec fn classification(code: int) -> ErrorKind {
    if code == native::ERR_NOMEM {
        ErrorKind::Exhausted
    } else if code == native::ERR_INVALID_ARGUMENT || code == native::ERR_INVALID_STATE {
        ErrorKind::InvalidInput
    } else if crypto_codes().contains(code) {
        ErrorKind::Crypto
    } else if blocked_codes().contains(code) {
        ErrorKind::Blocked
    } else if code == native::ERR_CLOSING || code == native::ERR_DRAINING {
        ErrorKind::Closing
    } else if protocol_codes().contains(code) {
        ErrorKind::Protocol
    } else if code == native::ERR_CALLBACK_FAILURE || code == native::ERR_INTERNAL {
        ErrorKind::ConnectionUnusable
    } else {
        ErrorKind::Internal
    }
}

/// Maps a raw engine code onto a coarse category.
pub fn classify(native: NativeCode) -> (kind: ErrorKind)
    ensures
        kind == classification(native@),
{
    let code: i32 = native.get();
    if code == native::ERR_NOMEM {
        ErrorKind::Exhausted
    } else if code == native::ERR_INVALID_ARGUMENT || code == native::ERR_INVALID_STATE {
        ErrorKind::InvalidInput
    } else if code == native::ERR_CRYPTO
        || code == native::ERR_REQUIRED_TRANSPORT_PARAM
        || code == native::ERR_MALFORMED_TRANSPORT_PARAM
        || code == native::ERR_TRANSPORT_PARAM
        || code == native::ERR_VERSION_NEGOTIATION_FAILURE {
        ErrorKind::Crypto
    } else if code == native::ERR_STREAM_DATA_BLOCKED
        || code == native::ERR_STREAM_ID_BLOCKED
        || code == native::ERR_STREAM_SHUT_WR
        || code == native::ERR_STREAM_NOT_FOUND
        || code == native::ERR_CONN_ID_BLOCKED {
        ErrorKind::Blocked
    } else if code == native::ERR_CLOSING || code == native::ERR_DRAINING {
        ErrorKind::Closing
    } else if code == native::ERR_PROTO
        || code == native::ERR_FRAME_ENCODING
        || code == native::ERR_ACK_FRAME
        || code == native::ERR_FINAL_SIZE
        || code == native::ERR_FLOW_CONTROL
        || code == native::ERR_STREAM_LIMIT {
        ErrorKind::Protocol
    } else if code == native::ERR_CALLBACK_FAILURE || code == native::ERR_INTERNAL {
        ErrorKind::ConnectionUnusable
    } else {
        ErrorKind::Internal
    }
}

/// What an [`Error`] says.
pub struct ErrorView {
    /// The broad category.
    pub kind: ErrorKind,
    /// The engine's own code, where it came from the engine.
    pub native: Option<int>,
    /// What was being attempted, or why it was refused.
    pub context: Seq<char>,
    /// Whether the connection it came from is now unusable.
    pub unusable: bool,
}

impl ErrorView {
    /// An engine failure.
    pub open spec fn from_native(code: int, context: Seq<char>) -> Self {
        ErrorView { kind: classification(code), native: Some(code), context, unusable: false }
    }

    /// A datagram the engine could not read, whatever class its code has of its own.
    pub open spec fn malformed(code: int, context: Seq<char>) -> Self {
        ErrorView { kind: ErrorKind::Protocol, ..ErrorView::from_native(code, context) }
    }

    /// A precondition this crate checked itself.
    pub open spec fn invalid_input(context: Seq<char>) -> Self {
        ErrorView { kind: ErrorKind::InvalidInput, native: None, context, unusable: false }
    }

    /// A TLS backend that broke the rules of the exchange.
    pub open spec fn backend(context: Seq<char>) -> Self {
        ErrorView { kind: ErrorKind::Crypto, native: None, context, unusable: false }
    }

    /// The same failure, having left its connection unusable.
    pub open spec fn made_unusable(self) -> Self {
        ErrorView { unusable: true, ..self }
    }

    /// Whether nothing but dropping the connection is left.
    pub open spec fn fatal(self) -> bool {
        ||| self.unusable
        ||| self.kind == ErrorKind::ConnectionUnusable
        ||| (self.native matches Some(code) && fatal_code(code))
    }
}

/// Why a poisoned connection refuses everything.
pub const UNUSABLE_CONTEXT: &'static str =
    "the connection encountered an unrecoverable error and cannot be used";

/// A failure from the engine, or from this crate's own validation.
#[derive(Debug, PartialEq, Eq)]
pub struct Error {
    kind: ErrorKind,
    native: Option<NativeCode>,
    context: &'static str,
    unusable: bool,
}

impl View for Error {
    type V = ErrorView;

    closed spec fn view(&self) -> ErrorView {
        ErrorView {
            kind: self.kind,
            native: match self.native {
                Some(code) => Some(code@),
                None => None,
            },
            context: self.context@,
            unusable: self.unusable,
        }
    }
}

impl Clone for Error {
    fn clone(&self) -> (copy: Self)
        ensures
            copy == *self,
    {
        Self {
            kind: self.kind,
            native: self.native,
            context: self.context,
            unusable: self.unusable,
        }
    }
}

impl Error {
    /// Builds an error from a raw engine code.
    pub fn native(code: i32, context: &'static str) -> (error: Self)
        ensures
            error@ == ErrorView::from_native(code as int, context@),
    {
        let native = NativeCode::new(code);
        Self { kind: classify(native), native: Some(native), context, unusable: false }
    }

    /// Builds an error for a datagram the engine could not read.
    pub fn malformed(code: i32, context: &'static str) -> (error: Self)
        ensures
            error@ == ErrorView::malformed(code as int, context@),
    {
        Self {
            kind: ErrorKind::Protocol,
            native: Some(NativeCode::new(code)),
            context,
            unusable: false,
        }
    }

    /// Marks this failure as one that left the connection unusable.
    pub fn into_unusable(self) -> (error: Self)
        ensures
            error@ == self@.made_unusable(),
    {
        Self { kind: self.kind, native: self.native, context: self.context, unusable: true }
    }

    /// Builds an error for a precondition this crate checked itself.
    pub fn invalid_input(context: &'static str) -> (error: Self)
        ensures
            error@ == ErrorView::invalid_input(context@),
    {
        Self { kind: ErrorKind::InvalidInput, native: None, context, unusable: false }
    }

    /// Builds an error of a given kind that carries no engine code.
    pub fn with_kind(kind: ErrorKind, context: &'static str) -> (error: Self)
        ensures
            error@ == (ErrorView { kind, native: None, context: context@, unusable: false }),
    {
        Self { kind, native: None, context, unusable: false }
    }

    /// Builds an error for a TLS backend that broke the rules of the exchange.
    pub fn backend(context: &'static str) -> (error: Self)
        ensures
            error@ == ErrorView::backend(context@),
    {
        Self { kind: ErrorKind::Crypto, native: None, context, unusable: false }
    }

    /// Builds the error every operation returns once the connection is poisoned.
    pub fn unusable() -> (error: Self)
        ensures
            error@ == (ErrorView {
                kind: ErrorKind::ConnectionUnusable,
                native: None,
                context: UNUSABLE_CONTEXT@,
                unusable: true,
            }),
    {
        Self {
            kind: ErrorKind::ConnectionUnusable,
            native: None,
            context: UNUSABLE_CONTEXT,
            unusable: true,
        }
    }

    /// The broad category of this failure.
    pub fn kind(&self) -> (kind: ErrorKind)
        ensures
            kind == self@.kind,
    {
        self.kind
    }

    /// The underlying engine code, if this came from the engine.
    pub fn native_code(&self) -> (code: Option<NativeCode>)
        ensures
            code is Some <==> self@.native is Some,
            code matches Some(native) ==> Some(native@) == self@.native,
    {
        self.native
    }

    /// What was being attempted, or why it was refused.
    pub fn context(&self) -> (context: &'static str)
        ensures
            context@ == self@.context,
    {
        self.context
    }

    /// Whether this failure left the connection unusable.
    pub fn is_fatal(&self) -> (fatal: bool)
        ensures
            fatal == self@.fatal(),
    {
        self.unusable || self.kind == ErrorKind::ConnectionUnusable || (match self.native {
            Some(code) => code.is_fatal(),
            None => false,
        })
    }

    /// The QUIC transport error code to close the connection with.
    ///
    /// `inferred` is what the engine infers for this failure's code. A failure that did not
    /// come from the engine has no transport meaning to convey, and yields nothing.
    pub fn transport_error_code(&self, inferred: TransportErrorCode) -> (code: Option<
        TransportErrorCode,
    >)
        ensures
            code == (if self@.native is Some { Some(inferred) } else { None }),
    {
        match self.native {
            Some(_) => Some(inferred),
            None => None,
        }
    }

    /// The display form: the context, with the engine's own words behind it where the
    /// failure came from the engine.
    pub fn display_text(&self, worded: Option<&'static str>) -> (shown: String)
        ensures
            shown@ == (match self@.native {
                Some(code) => self@.context + ": "@ + native_text(code, match worded {
                    Some(text) => text@,
                    None => UNKNOWN_ERROR@,
                }),
                None => self@.context,
            }),
    {
        let mut shown = text::owned(self.context);
        match self.native {
            Some(native) => {
                text::append(&mut shown, ": ");
                let tail = native.display_text(worded);
                text::append(&mut shown, tail.as_str());
            },
            None => {},
        }
        shown
    }
}

/// Why a connection ended, as far as the engine knows.
#[derive(Clone, Copy, Debug, PartialEq, Eq, Structural)]
pub enum CloseReason {
    /// The transport closed it, with a transport error code.
    Transport(TransportErrorCode),
    /// The application closed it, with an application error code.
    Application(ApplicationErrorCode),
    /// The versions could not be reconciled.
    VersionNegotiation,
    /// Nothing arrived for the idle timeout. No frame was exchanged.
    IdleTimeout,
    /// It was dropped without a word.
    Dropped,
}

/// What a peer said when it closed the connection.
#[derive(Debug, PartialEq, Eq)]
pub struct CloseError {
    /// Why the connection ended.
    pub reason: CloseReason,
    /// The reason phrase that came with it.
    pub phrase: Vec<u8>,
}

impl CloseError {
    /// A close with a reason and a phrase.
    pub fn new(reason: CloseReason, phrase: Vec<u8>) -> (close: Self)
        ensures
            close == (CloseError { reason, phrase }),
    {
        CloseError { reason, phrase }
    }

    /// A connection that lapsed.
    pub fn idle() -> (close: Self)
        ensures
            close.reason == CloseReason::IdleTimeout,
            close.phrase@ == Seq::<u8>::empty(),
    {
        CloseError { reason: CloseReason::IdleTimeout, phrase: Vec::new() }
    }

    /// Why the connection ended.
    pub fn reason(&self) -> (reason: CloseReason)
        ensures
            reason == self.reason,
    {
        self.reason
    }

    /// The reason phrase that came with the close.
    pub fn phrase(&self) -> (phrase: &[u8])
        ensures
            phrase@ == self.phrase@,
    {
        self.phrase.as_slice()
    }

    /// Whether two closes say the same.
    pub open spec fn same(&self, other: &Self) -> bool {
        self.reason == other.reason && self.phrase@ == other.phrase@
    }
}

impl Clone for CloseError {
    fn clone(&self) -> (copy: Self)
        ensures
            copy.same(self),
    {
        CloseError {
            reason: self.reason,
            phrase: vstd::slice::slice_to_vec(self.phrase.as_slice()),
        }
    }
}

} // verus!
