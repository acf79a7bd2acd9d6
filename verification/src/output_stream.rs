//! The producer of output events.
//!
//! Receiving from the outbound channel and framing are done elsewhere. The
//! producer is told what a wait on the channel gave, and what the session
//! made of a message, and says which event, if any, is next in the output
//! sequence.

use vstd::prelude::*;
use crate::event::OutputEvent;
use crate::message::{FixtMessage, Message};
use crate::sender::SenderMsg;
use tokio::time::error::Elapsed;

verus! {

/// Where the producer stands.
#[derive(Clone, Copy, Debug, PartialEq, Eq, Structural)]
pub enum OutputStreamPhase {
    /// Waiting on the outbound channel.
    Receiving,
    /// A message is with the session to be turned into bytes.
    Framing,
    /// The sequence has ended.
    Ended,
}

/// What the driver tells the producer.
#[derive(Debug)]
pub enum OutputStreamReport {
    /// What a wait on the channel for one heartbeat interval gave: a
    /// message, the end of the channel, or the expired interval.
    Received(Result<Option<SenderMsg>, Elapsed>),
    /// The bytes that the session made of the message it was given.
    Framed(Vec<u8>),
}

/// What the producer tells the driver.
#[derive(Debug)]
pub enum OutputStreamDirective {
    /// Have the session frame and encode this payload; report the bytes.
    FrameApplication(Box<Message>),
    /// Have the session encode this message; report the bytes.
    FrameRaw(Box<FixtMessage>),
    /// This event is next in the sequence.
    Yield(OutputEvent),
    /// The sequence ends here.
    End,
    /// The report answers nothing the producer asked for. It is handed
    /// back and the producer stays as it was.
    Unexpected(OutputStreamReport),
}

/// One step of the producer.
pub open spec fn output_stream_step(phase: OutputStreamPhase, report: OutputStreamReport) -> (
    OutputStreamPhase,
    OutputStreamDirective,
) {
    match (phase, report) {
        (
            OutputStreamPhase::Receiving,
            OutputStreamReport::Received(Ok(Some(SenderMsg::Application(msg)))),
        ) => (OutputStreamPhase::Framing, OutputStreamDirective::FrameApplication(msg)),
        (OutputStreamPhase::Receiving, OutputStreamReport::Received(Ok(Some(SenderMsg::Raw(msg))))) => (
            OutputStreamPhase::Framing,
            OutputStreamDirective::FrameRaw(msg),
        ),
        (
            OutputStreamPhase::Receiving,
            OutputStreamReport::Received(Ok(Some(SenderMsg::Disconnect(reason)))),
        ) => (
            OutputStreamPhase::Ended,
            OutputStreamDirective::Yield(OutputEvent::Disconnect(reason)),
        ),
        (OutputStreamPhase::Receiving, OutputStreamReport::Received(Ok(None))) => (
            OutputStreamPhase::Ended,
            OutputStreamDirective::End,
        ),
        (OutputStreamPhase::Receiving, OutputStreamReport::Received(Err(_))) => (
            OutputStreamPhase::Receiving,
            OutputStreamDirective::Yield(OutputEvent::Timeout),
        ),
        (OutputStreamPhase::Framing, OutputStreamReport::Framed(bytes)) => (
            OutputStreamPhase::Receiving,
            OutputStreamDirective::Yield(OutputEvent::Message(bytes)),
        ),
        (phase, report) => (phase, OutputStreamDirective::Unexpected(report)),
    }
}

/// The phase of a producer that started receiving and was given `reports`
/// in order.
pub open spec fn output_stream_phase_after(reports: Seq<OutputStreamReport>) -> OutputStreamPhase
    decreases reports.len(),
{
    if reports.len() == 0 {
        OutputStreamPhase::Receiving
    } else {
        output_stream_step(output_stream_phase_after(reports.drop_last()), reports.last()).0
    }
}

/// The events that a producer which started receiving and was given
/// `reports` in order has yielded, in order.
pub open spec fn output_events(reports: Seq<OutputStreamReport>) -> Seq<OutputEvent>
    decreases reports.len(),
{
    if reports.len() == 0 {
        Seq::<OutputEvent>::empty()
    } else {
        let earlier = reports.drop_last();
        match output_stream_step(output_stream_phase_after(earlier), reports.last()).1 {
            OutputStreamDirective::Yield(event) => output_events(earlier).push(event),
            _ => output_events(earlier),
        }
    }
}

/// The producer of one connection's output events.
#[derive(Debug)]
pub struct OutputStream {
    phase: OutputStreamPhase,
}

impl OutputStream {
    /// A producer that has not received anything yet.
    pub fn new() -> (started: OutputStream)
        ensures
            started.phase() == OutputStreamPhase::Receiving,
    {
        OutputStream { phase: OutputStreamPhase::Receiving }
    }

    /// Where the producer stands.
    pub closed spec fn phase(&self) -> OutputStreamPhase {
        self.phase
    }

    /// Where the producer stands.
    pub fn current_phase(&self) -> (phase: OutputStreamPhase)
        ensures
            phase == self.phase(),
    {
        self.phase
    }

    /// Takes one report and says what is next.
    pub fn step(&mut self, report: OutputStreamReport) -> (directive: OutputStreamDirective)
        ensures
            (final(self).phase(), directive) == output_stream_step(old(self).phase(), report),
    {
        match self.phase {
            OutputStreamPhase::Receiving => match report {
                OutputStreamReport::Received(Ok(Some(SenderMsg::Application(msg)))) => {
                    self.phase = OutputStreamPhase::Framing;
                    OutputStreamDirective::FrameApplication(msg)
                },
                OutputStreamReport::Received(Ok(Some(SenderMsg::Raw(msg)))) => {
                    self.phase = OutputStreamPhase::Framing;
                    OutputStreamDirective::FrameRaw(msg)
                },
                OutputStreamReport::Received(Ok(Some(SenderMsg::Disconnect(reason)))) => {
                    self.phase = OutputStreamPhase::Ended;
                    OutputStreamDirective::Yield(OutputEvent::Disconnect(reason))
                },
                OutputStreamReport::Received(Ok(None)) => {
                    self.phase = OutputStreamPhase::Ended;
                    OutputStreamDirective::End
                },
                OutputStreamReport::Received(Err(_)) => OutputStreamDirective::Yield(
                    OutputEvent::Timeout,
                ),
                other => OutputStreamDirective::Unexpected(other),
            },
            OutputStreamPhase::Framing => match report {
                OutputStreamReport::Framed(bytes) => {
                    self.phase = OutputStreamPhase::Receiving;
                    OutputStreamDirective::Yield(OutputEvent::Message(bytes))
                },
                other => OutputStreamDirective::Unexpected(other),
            },
            OutputStreamPhase::Ended => OutputStreamDirective::Unexpected(report),
        }
    }
}

/// A disconnect is the last event of the sequence: only the last event
/// yielded can be one, and a producer that has not ended has yielded none.
pub proof fn disconnect_is_terminal(reports: Seq<OutputStreamReport>)
    ensures
        forall|i: int|
            0 <= i < output_events(reports).len() - 1 ==> !(output_events(reports)[i] is Disconnect),
        output_stream_phase_after(reports) != OutputStreamPhase::Ended ==> forall|i: int|
            0 <= i < output_events(reports).len() ==> !(output_events(reports)[i] is Disconnect),
    decreases reports.len(),
{
    if reports.len() > 0 {
        disconnect_is_terminal(reports.drop_last());
    }
}

/// A heartbeat interval without outbound traffic yields one timeout event
/// and leaves the producer receiving: it is no disconnect.
pub proof fn silent_interval_yields_one_timeout(reports: Seq<OutputStreamReport>, expired: Elapsed)
    requires
        output_stream_phase_after(reports) == OutputStreamPhase::Receiving,
    ensures
        output_events(reports.push(OutputStreamReport::Received(Err(expired)))) == output_events(
            reports,
        ).push(OutputEvent::Timeout),
        output_stream_phase_after(reports.push(OutputStreamReport::Received(Err(expired))))
            == OutputStreamPhase::Receiving,
{
    assert(reports.push(OutputStreamReport::Received(Err(expired))).drop_last() =~= reports);
}

} // verus!
