//! The vocabulary of a session: what can go wrong, which failures end a
//! session, and how a session's end is reported to the host process.

use vstd::prelude::*;

verus! {

/// The ways in which work against the store can fail.
#[derive(Clone, Copy, Debug, PartialEq, Eq, Structural)]
pub enum ErrorKind {
    /// A required connection parameter is missing.
    Configuration,
    /// The initial handshake with the store failed.
    Connection,
    /// A single read failed.
    Query,
    /// The change feed's cursor was invalidated or expired.
    SubscriptionClosed,
    /// An epoch value has no human-readable form.
    TimestampDecode,
}

/// The kinds of session the host can run.
#[derive(Clone, Copy, Debug, PartialEq, Eq, Structural)]
pub enum SessionKind {
    Snapshot,
    Poll,
    Feed,
    HealthCheck,
}

/// How a session ended.
#[derive(Clone, Copy, Debug, PartialEq, Eq, Structural)]
pub enum SessionEnd {
    /// The host asked the session to stop.
    Cancelled,
    /// A fatal error ended the session.
    Failed(ErrorKind),
}

/// Whether an error of `kind` ends a session of kind `session`.
///
/// Configuration and connection errors are fatal at startup and a closed
/// subscription ends the feed. A failed read is fatal to every session but
/// the feed, which reports it and goes on listening. A timestamp without a
/// readable form never ends anything.
pub open spec fn fatal_in(kind: ErrorKind, session: SessionKind) -> bool {
    match kind {
        ErrorKind::Configuration => true,
        ErrorKind::Connection => true,
        ErrorKind::Query => !(session is Feed),
        ErrorKind::SubscriptionClosed => true,
        ErrorKind::TimestampDecode => false,
    }
}

/// Decides `fatal_in`.
pub fn is_fatal(kind: ErrorKind, session: SessionKind) -> (fatal: bool)
    ensures
        fatal == fatal_in(kind, session),
{
    match kind {
        ErrorKind::Configuration | ErrorKind::Connection | ErrorKind::SubscriptionClosed => true,
        ErrorKind::Query => match session {
            SessionKind::Feed => false,
            _ => true,
        },
        ErrorKind::TimestampDecode => false,
    }
}

/// The exit status of a clean shutdown.
pub const EXIT_CLEAN: u8 = 0;

/// The exit status of a fatal session error, and of invalid arguments.
pub const EXIT_FAILURE: u8 = 1;

/// The exit status that reports `end` to the host's caller.
pub open spec fn exit_status(end: SessionEnd) -> u8 {
    match end {
        SessionEnd::Cancelled => EXIT_CLEAN,
        SessionEnd::Failed(_) => EXIT_FAILURE,
    }
}

/// Computes `exit_status`.
pub fn exit_code(end: SessionEnd) -> (code: u8)
    ensures
        code == exit_status(end),
        code == 0 <==> end is Cancelled,
{
    match end {
        SessionEnd::Cancelled => EXIT_CLEAN,
        SessionEnd::Failed(_) => EXIT_FAILURE,
    }
}

} // verus!
