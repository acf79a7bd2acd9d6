use easyfix_session::error::{Error, SessionError};
use easyfix_session::event::{DisconnectReason, OutputEvent};
use easyfix_session::output_loop::{OutputDirective, OutputLoop, OutputPhase, OutputReport};
use std::io::{Error as IoError, ErrorKind};

fn event(event: OutputEvent) -> OutputReport {
    OutputReport::Event(Some(event))
}

/// Runs the reports through a fresh loop and counts the logouts asked for.
fn logouts(reports: Vec<OutputReport>) -> (usize, OutputPhase) {
    let mut lp = OutputLoop::new();
    let mut count = 0;
    for report in reports {
        if let OutputDirective::EmitLogout(_) = lp.step(report) {
            count += 1;
        }
    }
    (count, lp.current_phase())
}

#[test]
fn output_loop_starts_polling() {
    assert_eq!(OutputLoop::new().current_phase(), OutputPhase::Polling);
}

#[test]
fn message_is_written_and_loop_goes_on() {
    let mut lp = OutputLoop::new();
    match lp.step(event(OutputEvent::Message(vec![0x38, 0x3d, 0x46]))) {
        OutputDirective::Write(bytes) => assert_eq!(bytes, vec![0x38, 0x3d, 0x46]),
        other => panic!("unexpected {:?}", other),
    }
    assert_eq!(lp.current_phase(), OutputPhase::Writing);
    assert!(matches!(lp.step(OutputReport::Written(Ok(()))), OutputDirective::Poll));
    assert_eq!(lp.current_phase(), OutputPhase::Polling);
}

#[test]
fn write_failure_is_reported_and_ends_the_loop() {
    let mut lp = OutputLoop::new();
    lp.step(event(OutputEvent::Message(vec![1])));
    match lp.step(OutputReport::Written(Err(IoError::new(ErrorKind::BrokenPipe, "pipe")))) {
        OutputDirective::ReportIoError(error) => assert_eq!(error.kind(), ErrorKind::BrokenPipe),
        other => panic!("unexpected {:?}", other),
    }
    assert_eq!(lp.current_phase(), OutputPhase::Reporting);
    let verdict = Err(Error::Io(IoError::new(ErrorKind::BrokenPipe, "pipe")));
    match lp.step(OutputReport::IoErrorHandled(verdict)) {
        OutputDirective::Finish(Err(Error::Io(error))) => {
            assert_eq!(error.kind(), ErrorKind::BrokenPipe)
        }
        other => panic!("unexpected {:?}", other),
    }
    assert_eq!(lp.current_phase(), OutputPhase::Aborted);
}

#[test]
fn heartbeat_timeout_invokes_the_hook_and_is_no_disconnect() {
    let mut lp = OutputLoop::new();
    assert!(matches!(lp.step(event(OutputEvent::Timeout)), OutputDirective::NotifyTimeout));
    assert_eq!(lp.current_phase(), OutputPhase::Polling);
    match lp.step(event(OutputEvent::Message(vec![7]))) {
        OutputDirective::Write(bytes) => assert_eq!(bytes, vec![7]),
        other => panic!("unexpected {:?}", other),
    }
}

#[test]
fn disconnect_connection_lost_flushes_then_logs_out() {
    let mut lp = OutputLoop::new();
    assert!(matches!(
        lp.step(event(OutputEvent::Disconnect(DisconnectReason::ConnectionLost))),
        OutputDirective::Flush
    ));
    assert_eq!(lp.current_phase(), OutputPhase::Flushing(DisconnectReason::ConnectionLost));
    match lp.step(OutputReport::Flushed(Ok(()))) {
        OutputDirective::EmitLogout(reason) => assert_eq!(reason, DisconnectReason::ConnectionLost),
        other => panic!("unexpected {:?}", other),
    }
    assert_eq!(lp.current_phase(), OutputPhase::LoggedOut);
}

#[test]
fn flush_failure_is_not_fatal() {
    let mut lp = OutputLoop::new();
    lp.step(event(OutputEvent::Disconnect(DisconnectReason::ConnectionLost)));
    match lp.step(OutputReport::Flushed(Err(IoError::new(ErrorKind::BrokenPipe, "pipe")))) {
        OutputDirective::EmitLogout(reason) => assert_eq!(reason, DisconnectReason::ConnectionLost),
        other => panic!("unexpected {:?}", other),
    }
    assert_eq!(lp.current_phase(), OutputPhase::LoggedOut);
}

#[test]
fn logout_carries_the_reason_of_the_disconnect() {
    for reason in [
        DisconnectReason::ConnectionLost,
        DisconnectReason::LocalRequestedLogout,
        DisconnectReason::RemoteRequestedLogout,
        DisconnectReason::ProtocolViolation,
    ] {
        let mut lp = OutputLoop::new();
        lp.step(event(OutputEvent::Disconnect(reason)));
        match lp.step(OutputReport::Flushed(Ok(()))) {
            OutputDirective::EmitLogout(emitted) => assert_eq!(emitted, reason),
            other => panic!("unexpected {:?}", other),
        }
    }
}

#[test]
fn closed_channel_logs_out_as_connection_lost() {
    let mut lp = OutputLoop::new();
    match lp.step(OutputReport::Event(None)) {
        OutputDirective::EmitLogout(reason) => assert_eq!(reason, DisconnectReason::ConnectionLost),
        other => panic!("unexpected {:?}", other),
    }
    assert_eq!(lp.current_phase(), OutputPhase::LoggedOut);
}

#[test]
fn logout_is_asked_for_once_on_disconnect() {
    let run = vec![
        event(OutputEvent::Message(vec![1])),
        OutputReport::Written(Ok(())),
        event(OutputEvent::Timeout),
        event(OutputEvent::Disconnect(DisconnectReason::RemoteRequestedLogout)),
        OutputReport::Flushed(Ok(())),
        // Whatever is reported after the end asks for nothing more.
        OutputReport::Event(None),
        event(OutputEvent::Disconnect(DisconnectReason::ConnectionLost)),
        OutputReport::Flushed(Ok(())),
    ];
    assert_eq!(logouts(run), (1, OutputPhase::LoggedOut));
}

#[test]
fn logout_is_asked_for_once_on_closed_channel() {
    let run = vec![
        event(OutputEvent::Timeout),
        OutputReport::Event(None),
        OutputReport::Event(None),
        OutputReport::Flushed(Ok(())),
    ];
    assert_eq!(logouts(run), (1, OutputPhase::LoggedOut));
}

#[test]
fn no_logout_after_a_write_failure() {
    let run = vec![
        event(OutputEvent::Message(vec![1])),
        OutputReport::Written(Err(IoError::new(ErrorKind::BrokenPipe, "pipe"))),
        OutputReport::IoErrorHandled(Err(Error::SessionError(SessionError::LogonNeverReceived))),
        OutputReport::Event(None),
        event(OutputEvent::Disconnect(DisconnectReason::ConnectionLost)),
    ];
    assert_eq!(logouts(run), (0, OutputPhase::Aborted));
}

#[test]
fn no_logout_while_the_loop_runs() {
    let run = vec![
        event(OutputEvent::Timeout),
        event(OutputEvent::Message(vec![1])),
        OutputReport::Written(Ok(())),
        event(OutputEvent::Timeout),
    ];
    assert_eq!(logouts(run), (0, OutputPhase::Polling));
}

#[test]
fn output_report_that_was_not_asked_for_is_handed_back() {
    let mut lp = OutputLoop::new();
    assert!(matches!(
        lp.step(OutputReport::Written(Ok(()))),
        OutputDirective::Unexpected(OutputReport::Written(Ok(())))
    ));
    assert!(matches!(
        lp.step(OutputReport::Flushed(Ok(()))),
        OutputDirective::Unexpected(OutputReport::Flushed(Ok(())))
    ));
    assert_eq!(lp.current_phase(), OutputPhase::Polling);
    lp.step(event(OutputEvent::Message(vec![1])));
    match lp.step(event(OutputEvent::Message(vec![2]))) {
        OutputDirective::Unexpected(OutputReport::Event(Some(OutputEvent::Message(bytes)))) => {
            assert_eq!(bytes, vec![2])
        }
        other => panic!("unexpected {:?}", other),
    }
    assert_eq!(lp.current_phase(), OutputPhase::Writing);
}
