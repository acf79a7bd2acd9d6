//! The directory of senders: for each running session, the handle through
//! which any part of the program can push a message into it.
//!
//! The directory is made once and handed to whoever opens connections. It
//! is not shared between threads.

use vstd::prelude::*;
use crate::message::{FixtMessage, Message};
use crate::sender::Sender;
use crate::session_id::{SessionId, SessionIdView};
use crate::table::SessionTable;

verus! {

/// For each registered session, its sender.
pub struct SenderRegistry {
    senders: SessionTable<Sender>,
}

impl View for SenderRegistry {
    type V = Map<SessionIdView, Sender>;

    closed spec fn view(&self) -> Map<SessionIdView, Sender> {
        self.senders@
    }
}

impl SenderRegistry {
    /// A directory with no session in it.
    pub fn new() -> (registry: SenderRegistry)
        ensures
            registry@ == Map::<SessionIdView, Sender>::empty(),
    {
        SenderRegistry { senders: SessionTable::new() }
    }
}

/// The directory after `sender` was registered for `id`: the first
/// registration stands, a later one for the same identity changes nothing.
pub open spec fn registered(
    senders: Map<SessionIdView, Sender>,
    id: SessionIdView,
    sender: Sender,
) -> Map<SessionIdView, Sender> {
    if senders.contains_key(id) {
        senders
    } else {
        senders.insert(id, sender)
    }
}

/// The sender that a message for `id` is routed to.
pub open spec fn routed(senders: Map<SessionIdView, Sender>, id: SessionIdView) -> Option<Sender> {
    if senders.contains_key(id) {
        Some(senders[id])
    } else {
        None
    }
}

/// Registers `sender` for `session_id` unless the session has a sender
/// already, in which case nothing changes.
pub fn register_sender(registry: &mut SenderRegistry, session_id: SessionId, sender: Sender)
    ensures
        final(registry)@ == registered(old(registry)@, session_id@, sender),
{
    let _ = registry.senders.insert_if_absent(session_id, sender);
}

/// Takes the session out of the directory. A session that is not there is
/// passed over in silence.
pub fn unregister_sender(registry: &mut SenderRegistry, session_id: &SessionId)
    ensures
        final(registry)@ == old(registry)@.remove(session_id@),
{
    let _ = registry.senders.remove(session_id);
}

/// The sender registered for the session, if there is one.
pub fn sender<'a>(registry: &'a SenderRegistry, session_id: &SessionId) -> (found: Option<
    &'a Sender,
>)
    ensures
        match found {
            Some(sender) => routed(registry@, session_id@) == Some(*sender),
            None => routed(registry@, session_id@) is None,
        },
{
    registry.senders.get(session_id)
}

/// Hands a business payload to the session's sender. For a session that is
/// not registered the payload comes back as the error.
pub fn send(registry: &SenderRegistry, session_id: &SessionId, msg: Box<Message>) -> (outcome:
    Result<(), Box<Message>>)
    ensures
        outcome == (if registry@.contains_key(session_id@) {
            Ok::<(), Box<Message>>(())
        } else {
            Err::<(), Box<Message>>(msg)
        }),
{
    match sender(registry, session_id) {
        Some(found) => {
            found.send(msg);
            Ok(())
        },
        None => Err(msg),
    }
}

/// Hands a complete message to the session's sender. For a session that is
/// not registered the message comes back as the error.
pub fn send_raw(registry: &SenderRegistry, session_id: &SessionId, msg: Box<FixtMessage>) -> (outcome:
    Result<(), Box<FixtMessage>>)
    ensures
        outcome == (if registry@.contains_key(session_id@) {
            Ok::<(), Box<FixtMessage>>(())
        } else {
            Err::<(), Box<FixtMessage>>(msg)
        }),
{
    match sender(registry, session_id) {
        Some(found) => {
            found.send_raw(msg);
            Ok(())
        },
        None => Err(msg),
    }
}

/// The first registration wins: once `first` is registered for an identity
/// that had no sender, registering `second` for it changes nothing, and
/// messages for the identity are still routed to `first`. Other identities
/// are not touched by either registration.
pub proof fn first_registration_wins(
    senders: Map<SessionIdView, Sender>,
    id: SessionIdView,
    first: Sender,
    second: Sender,
)
    requires
        !senders.contains_key(id),
    ensures
        registered(registered(senders, id, first), id, second) == registered(senders, id, first),
        routed(registered(registered(senders, id, first), id, second), id) == Some(first),
        forall|other: SessionIdView|
            other != id ==> routed(registered(registered(senders, id, first), id, second), other)
                == routed(senders, other),
{
}

/// A registration stands until the identity is unregistered: registering
/// for an identity that has a sender never changes where its messages go.
pub proof fn registration_never_replaces(
    senders: Map<SessionIdView, Sender>,
    id: SessionIdView,
    later: Sender,
)
    requires
        senders.contains_key(id),
    ensures
        registered(senders, id, later) == senders,
        routed(registered(senders, id, later), id) == Some(senders[id]),
{
}

/// Unregistering ends a registration: the identity has no sender left, the
/// others keep theirs, and the next registration for it takes effect.
pub proof fn unregistering_frees_the_identity(
    senders: Map<SessionIdView, Sender>,
    id: SessionIdView,
    next: Sender,
)
    ensures
        routed(senders.remove(id), id) == None::<Sender>,
        forall|other: SessionIdView|
            other != id ==> routed(senders.remove(id), other) == routed(senders, other),
        routed(registered(senders.remove(id), id, next), id) == Some(next),
{
}

} // verus!
