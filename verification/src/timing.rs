//! The two deadlines of a connection: how long an acceptor waits for the
//! first message, and how long the inbound side may stay silent.

use vstd::prelude::*;

verus! {

/// A length of time, in whole nanoseconds.
#[derive(Clone, Copy, Debug, PartialEq, Eq, Structural)]
pub struct Span {
    pub nanos: u128,
}

impl Span {
    /// A span of so many nanoseconds.
    pub fn from_nanos(nanos: u128) -> (span: Span)
        ensures
            span.nanos == nanos,
    {
        Span { nanos }
    }

    /// A span of so many milliseconds.
    pub fn from_millis(millis: u64) -> (span: Span)
        ensures
            span.nanos == millis * 1_000_000,
    {
        Span { nanos: (millis as u128) * 1_000_000 }
    }

    /// A span of so many seconds.
    pub fn from_secs(secs: u64) -> (span: Span)
        ensures
            span.nanos == secs * 1_000_000_000,
    {
        Span { nanos: (secs as u128) * 1_000_000_000 }
    }

    /// The sum of two spans, where it can be represented.
    pub fn checked_add(self, other: Span) -> (sum: Option<Span>)
        ensures
            sum == padded(self, other),
    {
        if self.nanos <= u128::MAX - other.nanos {
            Some(Span { nanos: self.nanos + other.nanos })
        } else {
            None
        }
    }
}

/// `span` lengthened by `padding`; nothing where the sum has no
/// representation.
pub open spec fn padded(span: Span, padding: Span) -> Option<Span> {
    if span.nanos + padding.nanos <= u128::MAX {
        Some(Span { nanos: (span.nanos + padding.nanos) as u128 })
    } else {
        None
    }
}

/// The timing settings a connection consumes.
#[derive(Clone, Copy, Debug, PartialEq, Eq, Structural)]
pub struct Settings {
    /// How long an acceptor waits for the first message.
    pub auto_disconnect_after_no_logon_received: Span,
    /// What is added to every inbound deadline, to allow for delay on the
    /// way.
    pub no_inbound_timeout_padding: Span,
}

/// How long an acceptor waits for the first event before it gives the
/// connection up: the configured wait, lengthened by the padding.
pub fn logon_timeout(settings: &Settings) -> (deadline: Option<Span>)
    ensures
        deadline == padded(
            settings.auto_disconnect_after_no_logon_received,
            settings.no_inbound_timeout_padding,
        ),
{
    settings.auto_disconnect_after_no_logon_received.checked_add(
        settings.no_inbound_timeout_padding,
    )
}

/// How long the inbound side may stay silent before a timeout event is
/// due: the session's heartbeat interval, lengthened by the padding.
pub fn inbound_timeout(heartbeat_interval: Span, settings: &Settings) -> (window: Option<Span>)
    ensures
        window == padded(heartbeat_interval, settings.no_inbound_timeout_padding),
{
    heartbeat_interval.checked_add(settings.no_inbound_timeout_padding)
}

} // verus!
