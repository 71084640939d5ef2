//! What can go wrong once there is a socket involved.
//!
//! The core's own errors describe what the engine refused to do. This layer additionally has
//! a socket that can fail, a handshake that can be rejected, a peer that can go quiet and a
//! caller that can drop things. Each kind exists because a caller would plausibly *do*
//! something different about it.

use vstd::prelude::*;

use crate::error::{ApplicationErrorCode, CloseError, CloseReason};
use crate::text;

verus! {

/// What went wrong.
#[derive(Clone, Copy, Debug, PartialEq, Eq, Hash, Structural)]
pub enum ErrorKind {
    /// The TLS handshake was rejected. Retrying without changing something fails again.
    HandshakeRejected,
    /// The handshake did not complete within the configured timeout. Nothing refused
    /// anything.
    HandshakeTimeout,
    /// The peer sent nothing for the idle timeout, so the connection lapsed.
    IdleTimeout,
    /// The peer closed the connection.
    PeerClosed,
    /// This endpoint closed the connection.
    LocallyClosed,
    /// The transport failed.
    Transport,
    /// The socket failed, which is fatal to every connection on it.
    Socket,
    /// The driver is gone, so nothing will make progress.
    DriverGone,
    /// The operation was abandoned because its handle was dropped.
    Cancelled,
    /// The caller asked for something this build cannot do.
    Unsupported,
    /// The caller's configuration is inconsistent.
    InvalidInput,
    /// The peer reset the stream being read.
    StreamReset,
    /// The peer asked this endpoint to stop sending on the stream being written.
    StreamStopped,
}

impl ErrorKind {
    /// Whether a failure was something other than a refusal.
    pub open spec fn retriable(self) -> bool {
        self is HandshakeTimeout || self is IdleTimeout || self is PeerClosed
    }

    /// Whether retrying the same operation could plausibly succeed.
    ///
    /// Advisory: it says the failure was not a refusal, not that a retry will work.
    pub fn is_retriable(self) -> (retriable: bool)
        ensures
            retriable == self.retriable(),
    {
        matches!(
            self,
            ErrorKind::HandshakeTimeout | ErrorKind::IdleTimeout | ErrorKind::PeerClosed
        )
    }
}

/// A socket failure, rendered as text so it can cross the error boundary.
#[derive(Debug)]
pub struct SocketError(pub String);

/// The underlying cause of a failure.
#[derive(Debug)]
pub enum Cause {
    /// The transport refused something.
    Transport(crate::error::Error),
    /// The socket failed.
    Socket(SocketError),
}

/// What a [`Cause`] says.
pub enum CauseView {
    /// The transport refused something.
    Transport(crate::error::ErrorView),
    /// The socket failed, in its own words.
    Socket(Seq<char>),
}

impl View for Cause {
    type V = CauseView;

    open spec fn view(&self) -> CauseView {
        match self {
            Cause::Transport(error) => CauseView::Transport(error@),
            Cause::Socket(error) => CauseView::Socket(error.0@),
        }
    }
}

/// What a close says.
pub struct CloseView {
    /// Why the connection ended.
    pub reason: CloseReason,
    /// The reason phrase that came with it.
    pub phrase: Seq<u8>,
}

/// What a close error says.
pub open spec fn close_view(close: CloseError) -> CloseView {
    CloseView { reason: close.reason, phrase: close.phrase@ }
}

/// What an [`Error`] says.
pub struct ErrorView {
    /// What went wrong.
    pub kind: ErrorKind,
    /// A description.
    pub context: Seq<char>,
    /// What the peer said, where the failure was a close.
    pub close: Option<CloseView>,
    /// The code a stream carried.
    pub stream_code: Option<ApplicationErrorCode>,
    /// The underlying cause.
    pub cause: Option<CauseView>,
}

/// How a transport failure is described.
pub const TRANSPORT_FAILED: &'static str = "the transport failed";

/// How a refused handshake is described.
pub const HANDSHAKE_REJECTED: &'static str = "the handshake was rejected";

/// How a socket failure is described.
pub const SOCKET_FAILED: &'static str = "the socket failed";

impl ErrorView {
    /// A failure of a kind, with a description and nothing else.
    pub open spec fn plain(kind: ErrorKind, context: Seq<char>) -> Self {
        ErrorView { kind, context, close: None, stream_code: None, cause: None }
    }

    /// A core failure. Everything the core reports is a transport condition, except a
    /// configuration mistake, which stays one, and a connection that is already closing.
    pub open spec fn transport(core: crate::error::ErrorView) -> Self {
        ErrorView {
            cause: Some(CauseView::Transport(core)),
            ..ErrorView::plain(
                match core.kind {
                    crate::error::ErrorKind::InvalidInput => ErrorKind::InvalidInput,
                    crate::error::ErrorKind::Closing => ErrorKind::LocallyClosed,
                    _ => ErrorKind::Transport,
                },
                TRANSPORT_FAILED@,
            )
        }
    }

    /// A core failure that refused the handshake.
    pub open spec fn rejected(core: crate::error::ErrorView) -> Self {
        ErrorView {
            cause: Some(CauseView::Transport(core)),
            ..ErrorView::plain(ErrorKind::HandshakeRejected, HANDSHAKE_REJECTED@)
        }
    }

    /// A failed socket, in its own words.
    pub open spec fn socket(context: Seq<char>, words: Seq<char>) -> Self {
        ErrorView {
            cause: Some(CauseView::Socket(words)),
            ..ErrorView::plain(ErrorKind::Socket, context)
        }
    }
}

/// An endpoint failure.
#[derive(Debug)]
pub struct Error {
    kind: ErrorKind,
    context: &'static str,
    close: Option<CloseError>,
    stream_code: Option<ApplicationErrorCode>,
    cause: Option<Cause>,
}

impl View for Error {
    type V = ErrorView;

    closed spec fn view(&self) -> ErrorView {
        ErrorView {
            kind: self.kind,
            context: self.context@,
            close: match self.close {
                Some(close) => Some(close_view(close)),
                None => None,
            },
            stream_code: self.stream_code,
            cause: match self.cause {
                Some(cause) => Some(cause@),
                None => None,
            },
        }
    }
}

impl Error {
    /// Builds an error of `kind` with a static description.
    pub fn new(kind: ErrorKind, context: &'static str) -> (error: Self)
        ensures
            error@ == ErrorView::plain(kind, context@),
    {
        Self { kind, context, close: None, stream_code: None, cause: None }
    }

    /// Attaches the reason a connection closed.
    pub fn with_close(self, close: CloseError) -> (error: Self)
        ensures
            error@ == (ErrorView { close: Some(close_view(close)), ..self@ }),
    {
        let mut error = self;
        error.close = Some(close);
        error
    }

    /// Attaches an underlying cause.
    pub fn with_source(self, cause: Cause) -> (error: Self)
        ensures
            error@ == (ErrorView { cause: Some(cause@), ..self@ }),
    {
        let mut error = self;
        error.cause = Some(cause);
        error
    }

    /// Attaches the application error code a stream carried.
    pub fn with_stream_code(self, code: ApplicationErrorCode) -> (error: Self)
        ensures
            error@ == (ErrorView { stream_code: Some(code), ..self@ }),
    {
        let mut error = self;
        error.stream_code = Some(code);
        error
    }

    /// Maps a core failure onto an endpoint one.
    pub fn from(core: crate::error::Error) -> (error: Self)
        ensures
            error@ == ErrorView::transport(core@),
    {
        let kind = match core.kind() {
            crate::error::ErrorKind::InvalidInput => ErrorKind::InvalidInput,
            crate::error::ErrorKind::Closing => ErrorKind::LocallyClosed,
            _ => ErrorKind::Transport,
        };
        Self::new(kind, TRANSPORT_FAILED).with_source(Cause::Transport(core))
    }

    /// A core failure that refused the handshake.
    pub fn rejected(core: crate::error::Error) -> (error: Self)
        ensures
            error@ == ErrorView::rejected(core@),
    {
        Self::new(ErrorKind::HandshakeRejected, HANDSHAKE_REJECTED).with_source(
            Cause::Transport(core),
        )
    }

    /// A failed socket, keeping what it said.
    pub fn socket(context: &'static str, words: String) -> (error: Self)
        ensures
            error@ == ErrorView::socket(context@, words@),
    {
        Self::new(ErrorKind::Socket, context).with_source(Cause::Socket(SocketError(words)))
    }

    /// The application error code the peer sent, for a stream reset or stop-sending.
    pub fn stream_code(&self) -> (code: Option<ApplicationErrorCode>)
        ensures
            code == self@.stream_code,
    {
        self.stream_code
    }

    /// What kind of failure this is.
    pub fn kind(&self) -> (kind: ErrorKind)
        ensures
            kind == self@.kind,
    {
        self.kind
    }

    /// Why the connection closed, when the failure was a close.
    pub fn close_error(&self) -> (close: Option<&CloseError>)
        ensures
            close is Some <==> self@.close is Some,
            close matches Some(close) ==> self@.close == Some(close_view(*close)),
    {
        self.close.as_ref()
    }

    /// The underlying cause, where one is known.
    pub fn source(&self) -> (cause: Option<&Cause>)
        ensures
            cause is Some <==> self@.cause is Some,
            cause matches Some(cause) ==> self@.cause == Some(cause@),
    {
        self.cause.as_ref()
    }

    /// The display form: the description, and what the close said where there was one.
    pub fn display_text(&self, close: &str) -> (shown: String)
        ensures
            shown@ == (if self@.close is Some {
                self@.context + ": "@ + close@
            } else {
                self@.context
            }),
    {
        let mut shown = text::owned(self.context);
        if self.close.is_some() {
            text::append(&mut shown, ": ");
            text::append(&mut shown, close);
        }
        shown
    }
}

} // verus!
