//! The handle through which messages are pushed into a running session.

use vstd::prelude::*;
use crate::event::DisconnectReason;
use crate::message::{FixtMessage, Message};
use tokio::sync::mpsc::UnboundedSender;

verus! {

/// `tokio::sync::mpsc::UnboundedSender`, the sending half of an unbounded
/// channel. Nothing is known of what it holds.
#[verifier::external_type_specification]
#[verifier::external_body]
#[verifier::reject_recursive_types(T)]
pub struct ExUnboundedSender<T>(UnboundedSender<T>);

/// `Clone` for `tokio::sync::mpsc::UnboundedSender`: one more handle on the
/// same channel. Nothing is claimed of the copy.
pub assume_specification<T>[ <UnboundedSender<T> as Clone>::clone ](
    handle: &UnboundedSender<T>,
) -> (copy: UnboundedSender<T>)
;

/// What travels on a session's outbound channel.
#[derive(Debug)]
pub enum SenderMsg {
    /// A business payload, still to be framed by the session.
    Application(Box<Message>),
    /// A complete message, to be written as it is.
    Raw(Box<FixtMessage>),
    /// The session is to end for the given reason.
    Disconnect(DisconnectReason),
}

/// A cloneable handle on a session's outbound channel.
#[derive(Clone, Debug)]
pub struct Sender {
    inner: UnboundedSender<SenderMsg>,
}

/// Calls `tokio::sync::mpsc::UnboundedSender::send`, which queues the value
/// without waiting, or refuses it when the receiving half is closed or
/// dropped. Claimed: a refusal hands back the very value that was passed.
/// Whether the channel is open is not known here, so nothing is claimed of
/// which of the two happens. (tokio aborts the process when the count of
/// queued values overflows `usize`.)
#[verifier::external_body]
fn channel_send(channel: &UnboundedSender<SenderMsg>, msg: SenderMsg) -> (outcome: Result<
    (),
    SenderMsg,
>)
    ensures
        outcome matches Err(refused) ==> refused == msg,
{
    channel.send(msg).map_err(|e| e.0)
}

impl Sender {
    /// A handle on the given channel.
    pub fn new(writer: UnboundedSender<SenderMsg>) -> (sender: Sender)
        ensures
            sender.channel() == writer,
    {
        Sender { inner: writer }
    }

    /// The channel this handle sends on.
    pub closed spec fn channel(&self) -> UnboundedSender<SenderMsg> {
        self.inner
    }

    /// Queues a business payload for the session to frame and send. Does not
    /// wait; a message for a channel that is already closed is dropped.
    pub fn send(&self, msg: Box<Message>) {
        let _ = channel_send(&self.inner, SenderMsg::Application(msg));
    }

    /// Queues a complete message, to be sent as it is. Does not wait; a
    /// message for a channel that is already closed is dropped.
    pub fn send_raw(&self, msg: Box<FixtMessage>) {
        let _ = channel_send(&self.inner, SenderMsg::Raw(msg));
    }

    /// Asks the session to end for the given reason.
    pub fn disconnect(&self, reason: DisconnectReason) {
        let _ = channel_send(&self.inner, SenderMsg::Disconnect(reason));
    }
}

} // verus!
