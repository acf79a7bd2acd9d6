//! The failures a connection reports to its caller.

use vstd::prelude::*;

verus! {

/// `std::io::Error`, carried through unread: the transport's failure is
/// handed to the session and to the caller as it came.
#[verifier::external_type_specification]
#[verifier::external_body]
pub struct ExIoError(std::io::Error);

/// Why a handshake did not lead to a session.
#[derive(Clone, Copy, Debug, PartialEq, Eq, Structural)]
pub enum SessionError {
    /// No message could be decoded before the logon deadline.
    LogonNeverReceived,
    /// The first message names a session that is not configured.
    UnknownSession,
}

/// Why a connection ended in failure.
#[derive(Debug)]
pub enum Error {
    /// The transport failed.
    Io(std::io::Error),
    /// The handshake failed.
    SessionError(SessionError),
}

} // verus!
