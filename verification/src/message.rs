//! The messages that travel through a connection, as far as the connection
//! looks at them: the routing fields of the header, and a payload that is
//! carried through untouched.

use vstd::prelude::*;

verus! {

/// The routing fields of a message header.
#[derive(Clone, Debug, PartialEq, Eq)]
pub struct Header {
    pub begin_string: String,
    pub sender_comp_id: String,
    pub target_comp_id: String,
}

/// A business payload: the message type and the encoded fields of the body.
#[derive(Clone, Debug, PartialEq, Eq)]
pub struct Message {
    pub msg_type: String,
    pub fields: Vec<u8>,
}

/// A complete protocol message: header and payload.
#[derive(Clone, Debug, PartialEq, Eq)]
pub struct FixtMessage {
    pub header: Header,
    pub body: Message,
}

} // verus!
