//! The identity of a FIX session.

use vstd::prelude::*;
use crate::message::FixtMessage;

verus! {

/// The mathematical value of a [`SessionId`]: its four parts as sequences of
/// characters. Two identities are the same session exactly when their views
/// are equal.
pub struct SessionIdView {
    pub begin_string: Seq<char>,
    pub sender_comp_id: Seq<char>,
    pub target_comp_id: Seq<char>,
    pub session_qualifier: Seq<char>,
}

/// Identity of a FIX session: the protocol version, the two counterparties
/// as seen from this side, and an optional qualifier that tells apart
/// several sessions between the same pair.
#[derive(Debug, PartialEq, Eq, Hash)]
pub struct SessionId {
    begin_string: String,
    sender_comp_id: String,
    target_comp_id: String,
    session_qualifier: String,
}

impl View for SessionId {
    type V = SessionIdView;

    closed spec fn view(&self) -> SessionIdView {
        SessionIdView {
            begin_string: self.begin_string@,
            sender_comp_id: self.sender_comp_id@,
            target_comp_id: self.target_comp_id@,
            session_qualifier: self.session_qualifier@,
        }
    }
}

impl Clone for SessionId {
    fn clone(&self) -> (copy: SessionId)
        ensures
            copy == *self,
    {
        SessionId {
            begin_string: self.begin_string.clone(),
            sender_comp_id: self.sender_comp_id.clone(),
            target_comp_id: self.target_comp_id.clone(),
            session_qualifier: self.session_qualifier.clone(),
        }
    }
}

/// The session that an inbound message belongs to. The message names the
/// counterparty as its sender and this side as its target, so the two
/// change places.
pub open spec fn input_session_id(msg: FixtMessage) -> SessionIdView {
    SessionIdView {
        begin_string: msg.header.begin_string@,
        sender_comp_id: msg.header.target_comp_id@,
        target_comp_id: msg.header.sender_comp_id@,
        session_qualifier: Seq::<char>::empty(),
    }
}

impl SessionId {
    /// An identity without a qualifier.
    pub fn new(begin_string: String, sender_comp_id: String, target_comp_id: String) -> (id:
        SessionId)
        ensures
            id@ == (SessionIdView {
                begin_string: begin_string@,
                sender_comp_id: sender_comp_id@,
                target_comp_id: target_comp_id@,
                session_qualifier: Seq::<char>::empty(),
            }),
    {
        SessionId { begin_string, sender_comp_id, target_comp_id, session_qualifier: String::new() }
    }

    /// An identity with a qualifier.
    pub fn with_session_qualifier(
        begin_string: String,
        sender_comp_id: String,
        target_comp_id: String,
        session_qualifier: String,
    ) -> (id: SessionId)
        ensures
            id@ == (SessionIdView {
                begin_string: begin_string@,
                sender_comp_id: sender_comp_id@,
                target_comp_id: target_comp_id@,
                session_qualifier: session_qualifier@,
            }),
    {
        SessionId { begin_string, sender_comp_id, target_comp_id, session_qualifier }
    }

    /// The identity of the session that an inbound message belongs to.
    pub fn from_input_msg(msg: &FixtMessage) -> (id: SessionId)
        ensures
            id@ == input_session_id(*msg),
    {
        SessionId {
            begin_string: msg.header.begin_string.clone(),
            sender_comp_id: msg.header.target_comp_id.clone(),
            target_comp_id: msg.header.sender_comp_id.clone(),
            session_qualifier: String::new(),
        }
    }

    /// The protocol version.
    pub fn begin_string(&self) -> (part: &String)
        ensures
            part@ == self@.begin_string,
    {
        &self.begin_string
    }

    /// This side of the session.
    pub fn sender_comp_id(&self) -> (part: &String)
        ensures
            part@ == self@.sender_comp_id,
    {
        &self.sender_comp_id
    }

    /// The counterparty.
    pub fn target_comp_id(&self) -> (part: &String)
        ensures
            part@ == self@.target_comp_id,
    {
        &self.target_comp_id
    }

    /// The qualifier; empty where the session has none.
    pub fn session_qualifier(&self) -> (part: &String)
        ensures
            part@ == self@.session_qualifier,
    {
        &self.session_qualifier
    }

    /// Whether two identities name the same session.
    pub fn same_session(&self, other: &SessionId) -> (same: bool)
        ensures
            same == (self@ == other@),
    {
        self.begin_string == other.begin_string && self.sender_comp_id == other.sender_comp_id
            && self.target_comp_id == other.target_comp_id && self.session_qualifier
            == other.session_qualifier
    }
}

} // verus!
