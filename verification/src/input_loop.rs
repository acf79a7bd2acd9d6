//! The inbound half of a connection.
//!
//! The loop itself waits for nothing. Its driver reports each event, and
//! each answer of the session, and is told what to do next.

use vstd::prelude::*;
use crate::error::Error;
use crate::event::{DeserializeError, Disconnect, InputEvent};
use crate::message::FixtMessage;

verus! {

/// `tokio_stream::Elapsed`, the error with which a stream under
/// `StreamExt::timeout` marks an expired deadline. It holds nothing.
#[verifier::external_type_specification]
#[verifier::external_body]
pub struct ExStreamElapsed(tokio_stream::Elapsed);

/// The event that an item of the deadline-guarded input sequence stands
/// for: the event itself, or a timeout where the deadline expired.
pub open spec fn timeout_or(item: Result<InputEvent, tokio_stream::Elapsed>) -> InputEvent {
    match item {
        Ok(event) => event,
        Err(_) => InputEvent::Timeout,
    }
}

/// Turns an item of the deadline-guarded input sequence into an event.
pub fn or_timeout(item: Result<InputEvent, tokio_stream::Elapsed>) -> (event: InputEvent)
    ensures
        event == timeout_or(item),
{
    match item {
        Ok(event) => event,
        Err(_) => InputEvent::Timeout,
    }
}

/// Where the inbound loop stands.
#[derive(Clone, Copy, Debug, PartialEq, Eq, Structural)]
pub enum InputPhase {
    /// Waiting for the next event.
    Polling,
    /// A message is with the session; waiting for its verdict.
    Delivering,
    /// A read failure is with the session; waiting for its result.
    Reporting,
    /// The loop has ended.
    Finished,
}

/// What the driver tells the loop.
#[derive(Debug)]
pub enum InputReport {
    /// The next item of the input sequence; `None` when it has ended.
    Event(Option<InputEvent>),
    /// The session's verdict on the message it was given.
    MessageHandled(Option<Disconnect>),
    /// What the session made of the read failure.
    IoErrorHandled(Result<(), Error>),
}

/// What the loop tells the driver to do.
#[derive(Debug)]
pub enum InputDirective {
    /// Give the message to the session and report its verdict.
    Deliver(Box<FixtMessage>),
    /// Tell the session of the undecodable frame, then poll again.
    ReportDeserializeError(DeserializeError),
    /// Tell the session of the read failure and report its result.
    ReportIoError(std::io::Error),
    /// Tell the session that the inbound side was silent, then poll again.
    NotifyTimeout,
    /// Poll for the next event.
    Poll,
    /// Stop; this is the loop's result.
    Finish(Result<(), Error>),
    /// The report answers nothing the loop asked for. It is handed back
    /// and the loop stays as it was.
    Unexpected(InputReport),
}

/// One step of the inbound loop: the phase it moves to and what it asks of
/// the driver.
pub open spec fn input_step(phase: InputPhase, report: InputReport) -> (
    InputPhase,
    InputDirective,
) {
    match (phase, report) {
        (InputPhase::Polling, InputReport::Event(Some(InputEvent::Message(msg)))) => (
            InputPhase::Delivering,
            InputDirective::Deliver(msg),
        ),
        (InputPhase::Polling, InputReport::Event(Some(InputEvent::DeserializeError(error)))) => (
            InputPhase::Polling,
            InputDirective::ReportDeserializeError(error),
        ),
        (InputPhase::Polling, InputReport::Event(Some(InputEvent::IoError(error)))) => (
            InputPhase::Reporting,
            InputDirective::ReportIoError(error),
        ),
        (InputPhase::Polling, InputReport::Event(Some(InputEvent::Timeout))) => (
            InputPhase::Polling,
            InputDirective::NotifyTimeout,
        ),
        (InputPhase::Polling, InputReport::Event(None)) => (
            InputPhase::Finished,
            InputDirective::Finish(Ok(())),
        ),
        (InputPhase::Delivering, InputReport::MessageHandled(Some(_))) => (
            InputPhase::Finished,
            InputDirective::Finish(Ok(())),
        ),
        (InputPhase::Delivering, InputReport::MessageHandled(None)) => (
            InputPhase::Polling,
            InputDirective::Poll,
        ),
        (InputPhase::Reporting, InputReport::IoErrorHandled(result)) => (
            InputPhase::Finished,
            InputDirective::Finish(result),
        ),
        (phase, report) => (phase, InputDirective::Unexpected(report)),
    }
}

/// The phase of a loop that started polling and was given `reports` in
/// order.
pub open spec fn input_phase_after(reports: Seq<InputReport>) -> InputPhase
    decreases reports.len(),
{
    if reports.len() == 0 {
        InputPhase::Polling
    } else {
        input_step(input_phase_after(reports.drop_last()), reports.last()).0
    }
}

/// The inbound loop of one connection.
#[derive(Debug)]
pub struct InputLoop {
    phase: InputPhase,
}

impl InputLoop {
    /// A loop that has not seen anything yet.
    pub fn new() -> (started: InputLoop)
        ensures
            started.phase() == InputPhase::Polling,
    {
        InputLoop { phase: InputPhase::Polling }
    }

    /// Where the loop stands.
    pub closed spec fn phase(&self) -> InputPhase {
        self.phase
    }

    /// Where the loop stands.
    pub fn current_phase(&self) -> (phase: InputPhase)
        ensures
            phase == self.phase(),
    {
        self.phase
    }

    /// Takes one report and says what to do next.
    pub fn step(&mut self, report: InputReport) -> (directive: InputDirective)
        ensures
            (final(self).phase(), directive) == input_step(old(self).phase(), report),
    {
        match self.phase {
            InputPhase::Polling => match report {
                InputReport::Event(Some(InputEvent::Message(msg))) => {
                    self.phase = InputPhase::Delivering;
                    InputDirective::Deliver(msg)
                },
                InputReport::Event(Some(InputEvent::DeserializeError(error))) => {
                    InputDirective::ReportDeserializeError(error)
                },
                InputReport::Event(Some(InputEvent::IoError(error))) => {
                    self.phase = InputPhase::Reporting;
                    InputDirective::ReportIoError(error)
                },
                InputReport::Event(Some(InputEvent::Timeout)) => InputDirective::NotifyTimeout,
                InputReport::Event(None) => {
                    self.phase = InputPhase::Finished;
                    InputDirective::Finish(Ok(()))
                },
                other => InputDirective::Unexpected(other),
            },
            InputPhase::Delivering => match report {
                InputReport::MessageHandled(Some(_)) => {
                    self.phase = InputPhase::Finished;
                    InputDirective::Finish(Ok(()))
                },
                InputReport::MessageHandled(None) => {
                    self.phase = InputPhase::Polling;
                    InputDirective::Poll
                },
                other => InputDirective::Unexpected(other),
            },
            InputPhase::Reporting => match report {
                InputReport::IoErrorHandled(result) => {
                    self.phase = InputPhase::Finished;
                    InputDirective::Finish(result)
                },
                other => InputDirective::Unexpected(other),
            },
            InputPhase::Finished => InputDirective::Unexpected(report),
        }
    }
}

/// Appending a report to a run moves the loop by one step.
pub proof fn input_run_extends(reports: Seq<InputReport>, next: InputReport)
    ensures
        input_phase_after(reports.push(next)) == input_step(input_phase_after(reports), next).0,
{
    assert(reports.push(next).drop_last() =~= reports);
}

/// A frame that cannot be decoded never ends the loop: whatever came
/// before, a loop that has not finished has not finished after it either.
/// A polling loop hands the failure to the session and goes on polling.
pub proof fn decode_failure_never_ends_the_loop(reports: Seq<InputReport>, error: DeserializeError)
    requires
        input_phase_after(reports) != InputPhase::Finished,
    ensures
        input_phase_after(reports.push(InputReport::Event(Some(InputEvent::DeserializeError(error)))))
            == input_phase_after(reports),
        input_phase_after(reports) == InputPhase::Polling ==> input_step(
            InputPhase::Polling,
            InputReport::Event(Some(InputEvent::DeserializeError(error))),
        ).1 == InputDirective::ReportDeserializeError(error),
{
    input_run_extends(reports, InputReport::Event(Some(InputEvent::DeserializeError(error))));
}

/// A silent inbound side never ends the loop either.
pub proof fn timeout_never_ends_the_loop(reports: Seq<InputReport>)
    requires
        input_phase_after(reports) != InputPhase::Finished,
    ensures
        input_phase_after(reports.push(InputReport::Event(Some(InputEvent::Timeout))))
            == input_phase_after(reports),
{
    input_run_extends(reports, InputReport::Event(Some(InputEvent::Timeout)));
}

/// A read failure always ends the loop: a polling loop hands it to the
/// session, and whatever the session makes of it is the loop's result.
pub proof fn io_failure_ends_the_loop(
    reports: Seq<InputReport>,
    error: std::io::Error,
    result: Result<(), Error>,
)
    requires
        input_phase_after(reports) == InputPhase::Polling,
    ensures
        input_step(InputPhase::Polling, InputReport::Event(Some(InputEvent::IoError(error))))
            == (InputPhase::Reporting, InputDirective::ReportIoError(error)),
        input_step(InputPhase::Reporting, InputReport::IoErrorHandled(result)) == (
            InputPhase::Finished,
            InputDirective::Finish(result),
        ),
        input_phase_after(
            reports.push(InputReport::Event(Some(InputEvent::IoError(error)))).push(
                InputReport::IoErrorHandled(result),
            ),
        ) == InputPhase::Finished,
{
    let first = InputReport::Event(Some(InputEvent::IoError(error)));
    input_run_extends(reports, first);
    input_run_extends(reports.push(first), InputReport::IoErrorHandled(result));
}

/// A finished loop stays finished, whatever it is told.
pub proof fn finished_input_loop_stays_finished(reports: Seq<InputReport>, next: InputReport)
    requires
        input_phase_after(reports) == InputPhase::Finished,
    ensures
        input_phase_after(reports.push(next)) == InputPhase::Finished,
        input_step(InputPhase::Finished, next).1 == InputDirective::Unexpected(next),
{
    input_run_extends(reports, next);
}

} // verus!
