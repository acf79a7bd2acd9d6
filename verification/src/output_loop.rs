//! The outbound half of a connection.
//!
//! The loop itself writes nothing. Its driver reports each event, the
//! outcome of each write and flush, and each answer of the session, and is
//! told what to do next.

use vstd::prelude::*;
use crate::error::Error;
use crate::event::{DisconnectReason, OutputEvent};

verus! {

/// Where the outbound loop stands.
#[derive(Clone, Copy, Debug, PartialEq, Eq, Structural)]
pub enum OutputPhase {
    /// Waiting for the next event.
    Polling,
    /// Bytes are being written; waiting for the outcome.
    Writing,
    /// The transport is being flushed before the logout for this reason.
    Flushing(DisconnectReason),
    /// A write failure is with the session; waiting for its result.
    Reporting,
    /// The loop has ended with the final logout.
    LoggedOut,
    /// The loop has ended on a write failure, without a logout.
    Aborted,
}

/// What the driver tells the loop.
#[derive(Debug)]
pub enum OutputReport {
    /// The next item of the output sequence; `None` when it has ended.
    Event(Option<OutputEvent>),
    /// How the write went.
    Written(Result<(), std::io::Error>),
    /// How the flush went.
    Flushed(Result<(), std::io::Error>),
    /// What the session made of the write failure.
    IoErrorHandled(Result<(), Error>),
}

/// What the loop tells the driver to do.
#[derive(Debug)]
pub enum OutputDirective {
    /// Write all of these bytes to the transport and report the outcome.
    Write(Vec<u8>),
    /// Tell the session that the outbound side was silent, then poll again.
    NotifyTimeout,
    /// Flush the transport and report the outcome.
    Flush,
    /// Have the session emit its final logout for this reason, then stop:
    /// the loop has succeeded.
    EmitLogout(DisconnectReason),
    /// Tell the session of the write failure and report its result.
    ReportIoError(std::io::Error),
    /// Poll for the next event.
    Poll,
    /// Stop; this is the loop's result.
    Finish(Result<(), Error>),
    /// The report answers nothing the loop asked for. It is handed back
    /// and the loop stays as it was.
    Unexpected(OutputReport),
}

/// One step of the outbound loop: the phase it moves to and what it asks of
/// the driver.
pub open spec fn output_step(phase: OutputPhase, report: OutputReport) -> (
    OutputPhase,
    OutputDirective,
) {
    match (phase, report) {
        (OutputPhase::Polling, OutputReport::Event(Some(OutputEvent::Message(bytes)))) => (
            OutputPhase::Writing,
            OutputDirective::Write(bytes),
        ),
        (OutputPhase::Polling, OutputReport::Event(Some(OutputEvent::Timeout))) => (
            OutputPhase::Polling,
            OutputDirective::NotifyTimeout,
        ),
        (OutputPhase::Polling, OutputReport::Event(Some(OutputEvent::Disconnect(reason)))) => (
            OutputPhase::Flushing(reason),
            OutputDirective::Flush,
        ),
        (OutputPhase::Polling, OutputReport::Event(None)) => (
            OutputPhase::LoggedOut,
            OutputDirective::EmitLogout(DisconnectReason::ConnectionLost),
        ),
        (OutputPhase::Writing, OutputReport::Written(Ok(_))) => (
            OutputPhase::Polling,
            OutputDirective::Poll,
        ),
        (OutputPhase::Writing, OutputReport::Written(Err(error))) => (
            OutputPhase::Reporting,
            OutputDirective::ReportIoError(error),
        ),
        (OutputPhase::Flushing(reason), OutputReport::Flushed(_)) => (
            OutputPhase::LoggedOut,
            OutputDirective::EmitLogout(reason),
        ),
        (OutputPhase::Reporting, OutputReport::IoErrorHandled(result)) => (
            OutputPhase::Aborted,
            OutputDirective::Finish(result),
        ),
        (phase, report) => (phase, OutputDirective::Unexpected(report)),
    }
}

/// The phase of a loop that started polling and was given `reports` in
/// order.
pub open spec fn output_phase_after(reports: Seq<OutputReport>) -> OutputPhase
    decreases reports.len(),
{
    if reports.len() == 0 {
        OutputPhase::Polling
    } else {
        output_step(output_phase_after(reports.drop_last()), reports.last()).0
    }
}

/// How many times a loop that started polling and was given `reports` in
/// order asked for the final logout.
pub open spec fn logouts_emitted(reports: Seq<OutputReport>) -> nat
    decreases reports.len(),
{
    if reports.len() == 0 {
        0
    } else {
        let earlier = reports.drop_last();
        let asked = output_step(output_phase_after(earlier), reports.last()).1;
        if asked is EmitLogout {
            logouts_emitted(earlier) + 1
        } else {
            logouts_emitted(earlier)
        }
    }
}

/// The outbound loop of one connection.
#[derive(Debug)]
pub struct OutputLoop {
    phase: OutputPhase,
}

impl OutputLoop {
    /// A loop that has not seen anything yet.
    pub fn new() -> (started: OutputLoop)
        ensures
            started.phase() == OutputPhase::Polling,
    {
        OutputLoop { phase: OutputPhase::Polling }
    }

    /// Where the loop stands.
    pub closed spec fn phase(&self) -> OutputPhase {
        self.phase
    }

    /// Where the loop stands.
    pub fn current_phase(&self) -> (phase: OutputPhase)
        ensures
            phase == self.phase(),
    {
        self.phase
    }

    /// Takes one report and says what to do next.
    pub fn step(&mut self, report: OutputReport) -> (directive: OutputDirective)
        ensures
            (final(self).phase(), directive) == output_step(old(self).phase(), report),
    {
        match self.phase {
            OutputPhase::Polling => match report {
                OutputReport::Event(Some(OutputEvent::Message(bytes))) => {
                    self.phase = OutputPhase::Writing;
                    OutputDirective::Write(bytes)
                },
                OutputReport::Event(Some(OutputEvent::Timeout)) => OutputDirective::NotifyTimeout,
                OutputReport::Event(Some(OutputEvent::Disconnect(reason))) => {
                    self.phase = OutputPhase::Flushing(reason);
                    OutputDirective::Flush
                },
                OutputReport::Event(None) => {
                    self.phase = OutputPhase::LoggedOut;
                    OutputDirective::EmitLogout(DisconnectReason::ConnectionLost)
                },
                other => OutputDirective::Unexpected(other),
            },
            OutputPhase::Writing => match report {
                OutputReport::Written(Ok(_)) => {
                    self.phase = OutputPhase::Polling;
                    OutputDirective::Poll
                },
                OutputReport::Written(Err(error)) => {
                    self.phase = OutputPhase::Reporting;
                    OutputDirective::ReportIoError(error)
                },
                other => OutputDirective::Unexpected(other),
            },
            OutputPhase::Flushing(reason) => match report {
                OutputReport::Flushed(_) => {
                    self.phase = OutputPhase::LoggedOut;
                    OutputDirective::EmitLogout(reason)
                },
                other => OutputDirective::Unexpected(other),
            },
            OutputPhase::Reporting => match report {
                OutputReport::IoErrorHandled(result) => {
                    self.phase = OutputPhase::Aborted;
                    OutputDirective::Finish(result)
                },
                other => OutputDirective::Unexpected(other),
            },
            OutputPhase::LoggedOut => OutputDirective::Unexpected(report),
            OutputPhase::Aborted => OutputDirective::Unexpected(report),
        }
    }
}

/// Appending a report to a run moves the loop by one step.
pub proof fn output_run_extends(reports: Seq<OutputReport>, next: OutputReport)
    ensures
        output_phase_after(reports.push(next)) == output_step(output_phase_after(reports), next).0,
        logouts_emitted(reports.push(next)) == logouts_emitted(reports) + (if output_step(
            output_phase_after(reports),
            next,
        ).1 is EmitLogout {
            1nat
        } else {
            0nat
        }),
{
    assert(reports.push(next).drop_last() =~= reports);
}

/// The final logout is asked for exactly once in every run that ends in
/// the logged-out phase, and never in any other run: never twice, and not
/// at all while the loop is still running or after it was given up on a
/// write failure.
pub proof fn logout_is_emitted_once(reports: Seq<OutputReport>)
    ensures
        logouts_emitted(reports) == (if output_phase_after(reports) == OutputPhase::LoggedOut {
            1nat
        } else {
            0nat
        }),
    decreases reports.len(),
{
    if reports.len() > 0 {
        logout_is_emitted_once(reports.drop_last());
    }
}

/// An explicit disconnect ends the loop with the logout for its reason,
/// whether the flush before it succeeds or fails.
pub proof fn disconnect_flushes_then_logs_out(
    reports: Seq<OutputReport>,
    reason: DisconnectReason,
    flushed: Result<(), std::io::Error>,
)
    requires
        output_phase_after(reports) == OutputPhase::Polling,
    ensures
        output_step(
            OutputPhase::Polling,
            OutputReport::Event(Some(OutputEvent::Disconnect(reason))),
        ) == (OutputPhase::Flushing(reason), OutputDirective::Flush),
        output_step(OutputPhase::Flushing(reason), OutputReport::Flushed(flushed)) == (
            OutputPhase::LoggedOut,
            OutputDirective::EmitLogout(reason),
        ),
        logouts_emitted(
            reports.push(OutputReport::Event(Some(OutputEvent::Disconnect(reason)))).push(
                OutputReport::Flushed(flushed),
            ),
        ) == 1,
{
    let first = OutputReport::Event(Some(OutputEvent::Disconnect(reason)));
    output_run_extends(reports, first);
    output_run_extends(reports.push(first), OutputReport::Flushed(flushed));
    logout_is_emitted_once(reports.push(first).push(OutputReport::Flushed(flushed)));
}

/// An output sequence that ends without a disconnect ends the loop with
/// the logout for a lost connection.
pub proof fn closed_channel_logs_out(reports: Seq<OutputReport>)
    requires
        output_phase_after(reports) == OutputPhase::Polling,
    ensures
        output_step(OutputPhase::Polling, OutputReport::Event(None)) == (
            OutputPhase::LoggedOut,
            OutputDirective::EmitLogout(DisconnectReason::ConnectionLost),
        ),
        logouts_emitted(reports.push(OutputReport::Event(None))) == 1,
{
    output_run_extends(reports, OutputReport::Event(None));
    logout_is_emitted_once(reports.push(OutputReport::Event(None)));
}

/// A silent outbound side never ends the loop: the session is told, and
/// the loop goes on polling.
pub proof fn heartbeat_timeout_keeps_the_loop_running(reports: Seq<OutputReport>)
    requires
        output_phase_after(reports) == OutputPhase::Polling,
    ensures
        output_step(OutputPhase::Polling, OutputReport::Event(Some(OutputEvent::Timeout))) == (
            OutputPhase::Polling,
            OutputDirective::NotifyTimeout,
        ),
        output_phase_after(reports.push(OutputReport::Event(Some(OutputEvent::Timeout))))
            == OutputPhase::Polling,
{
    output_run_extends(reports, OutputReport::Event(Some(OutputEvent::Timeout)));
}

/// A write failure ends the loop with whatever the session makes of it,
/// and without a logout.
pub proof fn write_failure_ends_the_loop(
    reports: Seq<OutputReport>,
    error: std::io::Error,
    result: Result<(), Error>,
)
    requires
        output_phase_after(reports) == OutputPhase::Writing,
    ensures
        output_step(OutputPhase::Writing, OutputReport::Written(Err(error))) == (
            OutputPhase::Reporting,
            OutputDirective::ReportIoError(error),
        ),
        output_step(OutputPhase::Reporting, OutputReport::IoErrorHandled(result)) == (
            OutputPhase::Aborted,
            OutputDirective::Finish(result),
        ),
        logouts_emitted(
            reports.push(OutputReport::Written(Err(error))).push(
                OutputReport::IoErrorHandled(result),
            ),
        ) == 0,
{
    let first = OutputReport::Written(Err(error));
    output_run_extends(reports, first);
    output_run_extends(reports.push(first), OutputReport::IoErrorHandled(result));
    logout_is_emitted_once(reports.push(first).push(OutputReport::IoErrorHandled(result)));
}

} // verus!
