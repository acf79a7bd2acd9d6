//! What the two halves of a connection produce.

use vstd::prelude::*;
use crate::message::FixtMessage;

verus! {

/// The session's verdict that the connection is to be given up.
#[derive(Clone, Copy, Debug, PartialEq, Eq, Structural)]
pub struct Disconnect;

/// Why a session ended.
#[derive(Clone, Copy, Debug, PartialEq, Eq, Structural)]
pub enum DisconnectReason {
    /// The transport went away, or the outbound channel was closed.
    ConnectionLost,
    /// This side asked for the logout.
    LocalRequestedLogout,
    /// The counterparty asked for the logout.
    RemoteRequestedLogout,
    /// The counterparty broke the protocol.
    ProtocolViolation,
}

/// What the codec found wrong with a frame.
#[derive(Clone, Debug, PartialEq, Eq)]
pub struct DeserializeError {
    pub detail: String,
}

/// One occurrence on the inbound side, in arrival order.
#[derive(Debug)]
pub enum InputEvent {
    /// A frame was decoded.
    Message(Box<FixtMessage>),
    /// A frame could not be decoded.
    DeserializeError(DeserializeError),
    /// Reading from the transport failed.
    IoError(std::io::Error),
    /// Nothing arrived within the inactivity window.
    Timeout,
}

/// One occurrence on the outbound side.
#[derive(Clone, Debug, PartialEq, Eq)]
pub enum OutputEvent {
    /// Encoded bytes, ready to be written.
    Message(Vec<u8>),
    /// Nothing was sent for a whole heartbeat interval.
    Timeout,
    /// The session ends; nothing follows.
    Disconnect(DisconnectReason),
}

} // verus!
