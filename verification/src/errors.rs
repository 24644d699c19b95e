//! Error taxonomy of the session core.
//!
//! Transport-level failures end a session and surface to whoever started
//! it; per-payload decode failures never do — a handler that cannot
//! decode a payload simply declines it, and only the routing layer's own
//! inability to make sense of a frame is fatal.  A refused enqueue is
//! reported to the one producer concerned and leaves the rest of the
//! system untouched.

use vstd::prelude::*;

verus! {

/// The failure classes of a session, by where they strike.
#[derive(Clone, Copy, Debug, PartialEq, Eq, Structural)]
pub enum SessionError {
    /// The transport could not be established; fatal to the attempt.
    ConnectionError,
    /// The greeting exchange failed; the attempt is aborted before the
    /// session ever counts as connected.
    HandshakeError,
    /// A frame's payload could not be read as any record; fatal because
    /// the stream has no recovery point after a malformed frame.
    DecodeError,
    /// A transport write failed; ends the session.
    SendError,
    /// An enqueue was refused because the session has already torn
    /// down; reported to the producer only.
    QueueClosed,
}

impl SessionError {
    /// A short description for logs and operators.
    pub fn text(&self) -> (s: String)
        ensures
            match self {
                SessionError::ConnectionError => s@ == "connection failed"@,
                SessionError::HandshakeError => s@ == "handshake failed"@,
                SessionError::DecodeError => s@ == "malformed frame"@,
                SessionError::SendError => s@ == "transport write failed"@,
                SessionError::QueueClosed => s@ == "outbound queue closed"@,
            },
    {
        match self {
            SessionError::ConnectionError => "connection failed".to_owned(),
            SessionError::HandshakeError => "handshake failed".to_owned(),
            SessionError::DecodeError => "malformed frame".to_owned(),
            SessionError::SendError => "transport write failed".to_owned(),
            SessionError::QueueClosed => "outbound queue closed".to_owned(),
        }
    }
}

/// Application-level error record: one descriptive message.
#[derive(Debug)]
pub enum AppErrors {
    CommonError(String),
}

impl AppErrors {
    /// The message carried by this error.
    pub fn message(&self) -> (s: &String)
        ensures
            *self matches AppErrors::CommonError(m) && s == m,
    {
        match self {
            AppErrors::CommonError(m) => m,
        }
    }
}

impl AppErrors {
    /// Wraps a borrowed message; the owned-text counterpart of the
    /// `From<String>` conversion.
    pub fn of_text(err: &str) -> (r: AppErrors)
        ensures
            r matches AppErrors::CommonError(m) && m@ == err@,
    {
        AppErrors::CommonError(err.to_owned())
    }
}

impl From<String> for AppErrors {
    fn from(err: String) -> (r: AppErrors) {
        AppErrors::CommonError(err)
    }
}

impl vstd::std_specs::convert::FromSpecImpl<String> for AppErrors {
    open spec fn obeys_from_spec() -> bool {
        true
    }

    open spec fn from_spec(err: String) -> AppErrors {
        AppErrors::CommonError(err)
    }
}

} // verus!
