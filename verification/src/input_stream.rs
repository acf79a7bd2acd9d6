//! The producer of input events.
//!
//! Reading and decoding are done elsewhere. The producer is told what a
//! read gave and says which event, if any, is next in the input sequence.

use vstd::prelude::*;
use crate::event::{DeserializeError, InputEvent};
use crate::input_loop::timeout_or;
use crate::message::FixtMessage;

verus! {

/// Where the producer stands.
#[derive(Clone, Copy, Debug, PartialEq, Eq, Structural)]
pub enum InputStreamPhase {
    /// More input may come.
    Reading,
    /// The sequence has ended.
    Ended,
}

/// What reading from the transport gave.
#[derive(Debug)]
pub enum InputStreamReport {
    /// A complete frame, decoded or found undecodable.
    Decoded(Result<Box<FixtMessage>, DeserializeError>),
    /// The read failed.
    ReadFailed(std::io::Error),
    /// The transport has no more bytes.
    Closed,
}

/// What the producer hands on.
#[derive(Debug)]
pub enum InputStreamDirective {
    /// This event is next in the sequence.
    Yield(InputEvent),
    /// The sequence ends here.
    End,
    /// The sequence has ended already; the report is handed back.
    Unexpected(InputStreamReport),
}

/// One step of the producer.
pub open spec fn input_stream_step(phase: InputStreamPhase, report: InputStreamReport) -> (
    InputStreamPhase,
    InputStreamDirective,
) {
    match (phase, report) {
        (InputStreamPhase::Reading, InputStreamReport::Decoded(Ok(msg))) => (
            InputStreamPhase::Reading,
            InputStreamDirective::Yield(InputEvent::Message(msg)),
        ),
        (InputStreamPhase::Reading, InputStreamReport::Decoded(Err(error))) => (
            InputStreamPhase::Reading,
            InputStreamDirective::Yield(InputEvent::DeserializeError(error)),
        ),
        (InputStreamPhase::Reading, InputStreamReport::ReadFailed(error)) => (
            InputStreamPhase::Ended,
            InputStreamDirective::Yield(InputEvent::IoError(error)),
        ),
        (InputStreamPhase::Reading, InputStreamReport::Closed) => (
            InputStreamPhase::Ended,
            InputStreamDirective::End,
        ),
        (InputStreamPhase::Ended, report) => (
            InputStreamPhase::Ended,
            InputStreamDirective::Unexpected(report),
        ),
    }
}

/// The phase of a producer that started reading and was given `reports`
/// in order.
pub open spec fn input_stream_phase_after(reports: Seq<InputStreamReport>) -> InputStreamPhase
    decreases reports.len(),
{
    if reports.len() == 0 {
        InputStreamPhase::Reading
    } else {
        input_stream_step(input_stream_phase_after(reports.drop_last()), reports.last()).0
    }
}

/// The events that a producer which started reading and was given
/// `reports` in order has yielded, in order.
pub open spec fn input_events(reports: Seq<InputStreamReport>) -> Seq<InputEvent>
    decreases reports.len(),
{
    if reports.len() == 0 {
        Seq::<InputEvent>::empty()
    } else {
        let earlier = reports.drop_last();
        match input_stream_step(input_stream_phase_after(earlier), reports.last()).1 {
            InputStreamDirective::Yield(event) => input_events(earlier).push(event),
            _ => input_events(earlier),
        }
    }
}

/// The producer of one connection's input events.
#[derive(Debug)]
pub struct InputStream {
    phase: InputStreamPhase,
}

impl InputStream {
    /// A producer that has not read anything yet.
    pub fn new() -> (started: InputStream)
        ensures
            started.phase() == InputStreamPhase::Reading,
    {
        InputStream { phase: InputStreamPhase::Reading }
    }

    /// Where the producer stands.
    pub closed spec fn phase(&self) -> InputStreamPhase {
        self.phase
    }

    /// Whether the sequence has ended.
    pub fn has_ended(&self) -> (ended: bool)
        ensures
            ended == (self.phase() == InputStreamPhase::Ended),
    {
        match self.phase {
            InputStreamPhase::Reading => false,
            InputStreamPhase::Ended => true,
        }
    }

    /// Takes what a read gave and says what is next in the sequence.
    pub fn step(&mut self, report: InputStreamReport) -> (directive: InputStreamDirective)
        ensures
            (final(self).phase(), directive) == input_stream_step(old(self).phase(), report),
    {
        match self.phase {
            InputStreamPhase::Reading => match report {
                InputStreamReport::Decoded(Ok(msg)) => InputStreamDirective::Yield(
                    InputEvent::Message(msg),
                ),
                InputStreamReport::Decoded(Err(error)) => InputStreamDirective::Yield(
                    InputEvent::DeserializeError(error),
                ),
                InputStreamReport::ReadFailed(error) => {
                    self.phase = InputStreamPhase::Ended;
                    InputStreamDirective::Yield(InputEvent::IoError(error))
                },
                InputStreamReport::Closed => {
                    self.phase = InputStreamPhase::Ended;
                    InputStreamDirective::End
                },
            },
            InputStreamPhase::Ended => InputStreamDirective::Unexpected(report),
        }
    }
}

/// A read failure is the last event of the sequence: it is yielded, and
/// whatever is reported afterwards yields nothing more.
pub proof fn read_failure_ends_the_sequence(
    reports: Seq<InputStreamReport>,
    error: std::io::Error,
    later: InputStreamReport,
)
    requires
        input_stream_phase_after(reports) == InputStreamPhase::Reading,
    ensures
        input_events(reports.push(InputStreamReport::ReadFailed(error))) == input_events(
            reports,
        ).push(InputEvent::IoError(error)),
        input_events(reports.push(InputStreamReport::ReadFailed(error)).push(later))
            == input_events(reports.push(InputStreamReport::ReadFailed(error))),
{
    let failed = reports.push(InputStreamReport::ReadFailed(error));
    assert(failed.drop_last() =~= reports);
    assert(failed.push(later).drop_last() =~= failed);
}

/// The producer never yields a timeout of its own, and a read failure can
/// only be the last event it yields.
pub proof fn input_events_are_in_order(reports: Seq<InputStreamReport>)
    ensures
        forall|i: int| 0 <= i < input_events(reports).len() ==> !(input_events(reports)[i] is Timeout),
        forall|i: int|
            0 <= i < input_events(reports).len() - 1 ==> !(input_events(reports)[i] is IoError),
        input_stream_phase_after(reports) == InputStreamPhase::Reading ==> forall|i: int|
            0 <= i < input_events(reports).len() ==> !(input_events(reports)[i] is IoError),
    decreases reports.len(),
{
    if reports.len() > 0 {
        input_events_are_in_order(reports.drop_last());
    }
}

/// How many items of a deadline-guarded sequence are expired deadlines.
pub open spec fn expiries(items: Seq<Result<InputEvent, tokio_stream::Elapsed>>) -> nat
    decreases items.len(),
{
    if items.len() == 0 {
        0
    } else if items.last() is Err {
        expiries(items.drop_last()) + 1
    } else {
        expiries(items.drop_last())
    }
}

/// How many events of a sequence are timeouts.
pub open spec fn timeouts(events: Seq<InputEvent>) -> nat
    decreases events.len(),
{
    if events.len() == 0 {
        0
    } else if events.last() is Timeout {
        timeouts(events.drop_last()) + 1
    } else {
        timeouts(events.drop_last())
    }
}

/// Each expired deadline becomes exactly one timeout event, in its place
/// in the sequence. Where the guarded sequence holds no timeout of its
/// own, as the producer's never does, there are as many timeout events as
/// deadlines expired: one for each silent window, never a burst.
pub proof fn one_timeout_per_expiry(items: Seq<Result<InputEvent, tokio_stream::Elapsed>>)
    requires
        forall|i: int|
            0 <= i < items.len() ==> (#[trigger] items[i]) != Ok::<InputEvent, tokio_stream::Elapsed>(
                InputEvent::Timeout,
            ),
    ensures
        forall|i: int|
            0 <= i < items.len() ==> ((#[trigger] timeout_or(items[i])) is Timeout <==> items[i] is Err),
        timeouts(items.map_values(|item: Result<InputEvent, tokio_stream::Elapsed>| timeout_or(item)))
            == expiries(items),
    decreases items.len(),
{
    let to_event = |item: Result<InputEvent, tokio_stream::Elapsed>| timeout_or(item);
    if items.len() > 0 {
        one_timeout_per_expiry(items.drop_last());
        assert(items.map_values(to_event).drop_last() =~= items.drop_last().map_values(to_event));
        assert(items.map_values(to_event).last() == timeout_or(items.last()));
        assert(items[items.len() - 1] != Ok::<InputEvent, tokio_stream::Elapsed>(
            InputEvent::Timeout,
        ));
    }
}

} // verus!
