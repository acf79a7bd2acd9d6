//! One connection from admission to teardown.
//!
//! An acceptor admits a connection on its first message; an initiator knows
//! its session beforehand and registers it at once. Either way the session
//! then runs its two loops, and when they have ended the connection is
//! closed: the session leaves the directory of senders and the table of
//! active sessions.

use vstd::prelude::*;
use crate::error::{Error, SessionError};
use crate::event::InputEvent;
use crate::input_loop::{input_step, InputDirective, InputLoop, InputPhase, InputReport};
use crate::message::FixtMessage;
use crate::output_loop::{output_step, OutputDirective, OutputLoop, OutputPhase, OutputReport};
use crate::registry::{register_sender, registered, unregister_sender, SenderRegistry};
use crate::sender::Sender;
use crate::session_id::{input_session_id, SessionId, SessionIdView};
use crate::table::SessionTable;
use tokio::time::error::Elapsed;

verus! {

/// `tokio::time::error::Elapsed`, the error with which
/// `tokio::time::timeout` marks an expired deadline. It holds nothing.
#[verifier::external_type_specification]
#[verifier::external_body]
pub struct ExElapsed(Elapsed);

/// What an acceptor makes of its wait for the first event. Only a decoded
/// message opens a session. An expired deadline, a closed stream, a read
/// failure and an undecodable frame all mean that the logon never came.
pub open spec fn first_msg_outcome(waited: Result<Option<InputEvent>, Elapsed>) -> Result<
    Box<FixtMessage>,
    Error,
> {
    match waited {
        Ok(Some(InputEvent::Message(msg))) => Ok(msg),
        _ => Err(Error::SessionError(SessionError::LogonNeverReceived)),
    }
}

/// The first message of a connection, from what the wait for it gave.
pub fn first_msg(waited: Result<Option<InputEvent>, Elapsed>) -> (first: Result<
    Box<FixtMessage>,
    Error,
>)
    ensures
        first == first_msg_outcome(waited),
{
    match waited {
        Ok(Some(InputEvent::Message(msg))) => Ok(msg),
        _ => Err(Error::SessionError(SessionError::LogonNeverReceived)),
    }
}

/// A connection that an acceptor has admitted.
pub struct Admission<'a, C> {
    /// The session the connection belongs to.
    pub session_id: SessionId,
    /// The message that opened it; the session has not seen it yet.
    pub first_message: Box<FixtMessage>,
    /// What is configured for the session.
    pub config: &'a C,
}

/// Whether an acceptor admits a connection, given what the wait for the
/// first event gave and which sessions are configured: the first message,
/// the session it names and what is configured for it, or the reason for
/// turning the connection away.
pub open spec fn admission<C>(
    waited: Result<Option<InputEvent>, Elapsed>,
    sessions: Map<SessionIdView, C>,
) -> Result<(Box<FixtMessage>, SessionIdView, C), Error> {
    match first_msg_outcome(waited) {
        Ok(msg) => {
            let id = input_session_id(*msg);
            if sessions.contains_key(id) {
                Ok((msg, id, sessions[id]))
            } else {
                Err(Error::SessionError(SessionError::UnknownSession))
            }
        },
        Err(error) => Err(error),
    }
}

/// Admits a connection on the acceptor's side or turns it away.
///
/// A connection is admitted when its first event is a decoded message that
/// names a configured session. `sender` is then registered for the session,
/// unless the session has a sender already. A connection that is turned
/// away leaves the directory as it was.
pub fn acceptor_handshake<'a, C>(
    registry: &mut SenderRegistry,
    sessions: &'a SessionTable<C>,
    waited: Result<Option<InputEvent>, Elapsed>,
    sender: Sender,
) -> (admitted: Result<Admission<'a, C>, Error>)
    ensures
        match admission(waited, sessions@) {
            Ok((msg, id, config)) => admitted matches Ok(a) && a.first_message == msg
                && a.session_id@ == id && *a.config == config && final(registry)@ == registered(
                old(registry)@,
                id,
                sender,
            ),
            Err(error) => admitted matches Err(e) && e == error && final(registry)@ == old(
                registry,
            )@,
        },
{
    let first_message = first_msg(waited)?;
    let session_id = SessionId::from_input_msg(&first_message);
    match sessions.get(&session_id) {
        Some(config) => {
            register_sender(registry, session_id.clone(), sender);
            Ok(Admission { session_id, first_message, config })
        },
        None => Err(Error::SessionError(SessionError::UnknownSession)),
    }
}

/// One session's connection: the session, which the connection owns for as
/// long as it lives, and its two loops.
pub struct Connection<S> {
    session: S,
    input: InputLoop,
    output: OutputLoop,
}

impl<S> Connection<S> {
    /// A connection for `session`, with both loops about to poll.
    pub fn new(session: S) -> (connection: Connection<S>)
        ensures
            connection.session() == session,
            connection.input_phase() == InputPhase::Polling,
            connection.output_phase() == OutputPhase::Polling,
    {
        Connection { session, input: InputLoop::new(), output: OutputLoop::new() }
    }

    /// The session of this connection.
    pub closed spec fn session(&self) -> S {
        self.session
    }

    /// Where the inbound loop stands.
    pub closed spec fn input_phase(&self) -> InputPhase {
        self.input.phase()
    }

    /// Where the outbound loop stands.
    pub closed spec fn output_phase(&self) -> OutputPhase {
        self.output.phase()
    }

    /// The session of this connection.
    pub fn session_ref(&self) -> (session: &S)
        ensures
            *session == self.session(),
    {
        &self.session
    }

    /// Closes the connection once its loops have ended with `joined`: the
    /// session leaves the directory of senders and the table of active
    /// sessions, and the result of the loops is the result of the
    /// connection. The connection is used up, so this happens once.
    pub fn close<H>(
        self,
        registry: &mut SenderRegistry,
        active_sessions: &mut SessionTable<H>,
        session_id: &SessionId,
        joined: Result<((), ()), Error>,
    ) -> (result: Result<(), Error>)
        ensures
            final(registry)@ == old(registry)@.remove(session_id@),
            final(active_sessions)@ == old(active_sessions)@.remove(session_id@),
            result == (match joined {
                Ok(_) => Ok::<(), Error>(()),
                Err(error) => Err::<(), Error>(error),
            }),
    {
        unregister_sender(registry, session_id);
        let _ = active_sessions.remove(session_id);
        match joined {
            Ok(_) => Ok(()),
            Err(error) => Err(error),
        }
    }

    /// One step of the inbound loop. The outbound loop stands as it stood.
    pub fn input_loop(&mut self, report: InputReport) -> (directive: InputDirective)
        ensures
            (final(self).input_phase(), directive) == input_step(old(self).input_phase(), report),
            final(self).output_phase() == old(self).output_phase(),
            final(self).session() == old(self).session(),
    {
        self.input.step(report)
    }

    /// One step of the outbound loop. The inbound loop stands as it stood.
    pub fn output_loop(&mut self, report: OutputReport) -> (directive: OutputDirective)
        ensures
            (final(self).output_phase(), directive) == output_step(
                old(self).output_phase(),
                report,
            ),
            final(self).input_phase() == old(self).input_phase(),
            final(self).session() == old(self).session(),
    {
        self.output.step(report)
    }
}

/// Without a decoded first message there is no admission: whatever else
/// the wait gave, the connection is turned away because the logon never
/// came, whichever sessions are configured.
pub proof fn no_logon_no_admission<C>(
    waited: Result<Option<InputEvent>, Elapsed>,
    sessions: Map<SessionIdView, C>,
)
    requires
        !(waited matches Ok(Some(InputEvent::Message(_)))),
    ensures
        admission(waited, sessions) == Err::<(Box<FixtMessage>, SessionIdView, C), Error>(
            Error::SessionError(SessionError::LogonNeverReceived),
        ),
{
}

/// After a connection is closed its session is in neither table, whatever
/// the tables held and however the loops ended; every other session is
/// where it was.
pub proof fn closed_connection_leaves_no_entry<H>(
    senders: Map<SessionIdView, Sender>,
    active_sessions: Map<SessionIdView, H>,
    id: SessionIdView,
)
    ensures
        !senders.remove(id).contains_key(id),
        !active_sessions.remove(id).contains_key(id),
        forall|other: SessionIdView|
            other != id ==> (senders.remove(id).contains_key(other) == senders.contains_key(other)
                && active_sessions.remove(id).contains_key(other) == active_sessions.contains_key(
                other,
            )),
{
}

} // verus!
