use easyfix_session::event::{DeserializeError, DisconnectReason, InputEvent, OutputEvent};
use easyfix_session::input_loop::{or_timeout, InputDirective, InputLoop, InputPhase, InputReport};
use easyfix_session::input_stream::{InputStream, InputStreamDirective, InputStreamReport};
use easyfix_session::message::{FixtMessage, Header, Message};
use easyfix_session::output_loop::{OutputDirective, OutputLoop, OutputPhase, OutputReport};
use easyfix_session::output_stream::{
    OutputStream, OutputStreamDirective, OutputStreamPhase, OutputStreamReport,
};
use easyfix_session::sender::{Sender, SenderMsg};
use easyfix_session::timing::{inbound_timeout, Settings, Span};
use std::io::{Error as IoError, ErrorKind};
use std::time::Duration;
use tokio::sync::mpsc::unbounded_channel;
use tokio_stream::wrappers::UnboundedReceiverStream;
use tokio_stream::StreamExt;

fn message(msg_type: &str) -> Box<FixtMessage> {
    Box::new(FixtMessage {
        header: Header {
            begin_string: "FIXT.1.1".to_string(),
            sender_comp_id: "BANK".to_string(),
            target_comp_id: "FUND".to_string(),
        },
        body: Message { msg_type: msg_type.to_string(), fields: vec![] },
    })
}

fn paused_runtime() -> tokio::runtime::Runtime {
    tokio::runtime::Builder::new_current_thread().enable_time().start_paused(true).build().unwrap()
}

fn duration(span: Span) -> Duration {
    Duration::new((span.nanos / 1_000_000_000) as u64, (span.nanos % 1_000_000_000) as u32)
}

#[test]
fn input_stream_yields_messages_and_decode_failures_in_order() {
    let mut stream = InputStream::new();
    match stream.step(InputStreamReport::Decoded(Ok(message("A")))) {
        InputStreamDirective::Yield(InputEvent::Message(msg)) => assert_eq!(msg, message("A")),
        other => panic!("unexpected {:?}", other),
    }
    let garbled = DeserializeError { detail: "tag".to_string() };
    match stream.step(InputStreamReport::Decoded(Err(garbled.clone()))) {
        InputStreamDirective::Yield(InputEvent::DeserializeError(error)) => {
            assert_eq!(error, garbled)
        }
        other => panic!("unexpected {:?}", other),
    }
    assert!(!stream.has_ended());
    match stream.step(InputStreamReport::Decoded(Ok(message("0")))) {
        InputStreamDirective::Yield(InputEvent::Message(msg)) => assert_eq!(msg, message("0")),
        other => panic!("unexpected {:?}", other),
    }
}

#[test]
fn input_stream_ends_after_one_read_failure() {
    let mut stream = InputStream::new();
    match stream.step(InputStreamReport::ReadFailed(IoError::new(ErrorKind::TimedOut, "t"))) {
        InputStreamDirective::Yield(InputEvent::IoError(error)) => {
            assert_eq!(error.kind(), ErrorKind::TimedOut)
        }
        other => panic!("unexpected {:?}", other),
    }
    assert!(stream.has_ended());
    assert!(matches!(
        stream.step(InputStreamReport::Decoded(Ok(message("A")))),
        InputStreamDirective::Unexpected(InputStreamReport::Decoded(Ok(_)))
    ));
    assert!(matches!(
        stream.step(InputStreamReport::ReadFailed(IoError::new(ErrorKind::TimedOut, "t"))),
        InputStreamDirective::Unexpected(_)
    ));
    assert!(stream.has_ended());
}

#[test]
fn input_stream_ends_when_the_transport_closes() {
    let mut stream = InputStream::new();
    assert!(matches!(stream.step(InputStreamReport::Closed), InputStreamDirective::End));
    assert!(stream.has_ended());
    assert!(matches!(
        stream.step(InputStreamReport::Closed),
        InputStreamDirective::Unexpected(InputStreamReport::Closed)
    ));
}

#[test]
fn output_stream_frames_messages_of_both_kinds() {
    let mut stream = OutputStream::new();
    let payload = Box::new(Message { msg_type: "D".to_string(), fields: vec![1] });
    match stream.step(OutputStreamReport::Received(Ok(Some(SenderMsg::Application(
        payload.clone(),
    ))))) {
        OutputStreamDirective::FrameApplication(msg) => assert_eq!(msg, payload),
        other => panic!("unexpected {:?}", other),
    }
    assert_eq!(stream.current_phase(), OutputStreamPhase::Framing);
    match stream.step(OutputStreamReport::Framed(vec![0x38, 0x3d])) {
        OutputStreamDirective::Yield(event) => {
            assert_eq!(event, OutputEvent::Message(vec![0x38, 0x3d]))
        }
        other => panic!("unexpected {:?}", other),
    }
    assert_eq!(stream.current_phase(), OutputStreamPhase::Receiving);
    match stream.step(OutputStreamReport::Received(Ok(Some(SenderMsg::Raw(message("8")))))) {
        OutputStreamDirective::FrameRaw(msg) => assert_eq!(msg, message("8")),
        other => panic!("unexpected {:?}", other),
    }
    assert!(matches!(
        stream.step(OutputStreamReport::Received(Ok(None))),
        OutputStreamDirective::Unexpected(_)
    ));
    assert_eq!(stream.current_phase(), OutputStreamPhase::Framing);
}

#[test]
fn output_stream_disconnect_is_terminal() {
    let mut stream = OutputStream::new();
    match stream.step(OutputStreamReport::Received(Ok(Some(SenderMsg::Disconnect(
        DisconnectReason::ProtocolViolation,
    ))))) {
        OutputStreamDirective::Yield(event) => {
            assert_eq!(event, OutputEvent::Disconnect(DisconnectReason::ProtocolViolation))
        }
        other => panic!("unexpected {:?}", other),
    }
    assert_eq!(stream.current_phase(), OutputStreamPhase::Ended);
    assert!(matches!(
        stream.step(OutputStreamReport::Received(Ok(Some(SenderMsg::Raw(message("8")))))),
        OutputStreamDirective::Unexpected(_)
    ));
    assert!(matches!(
        stream.step(OutputStreamReport::Framed(vec![1])),
        OutputStreamDirective::Unexpected(_)
    ));
    assert_eq!(stream.current_phase(), OutputStreamPhase::Ended);
}

#[test]
fn output_stream_ends_with_the_channel() {
    let mut stream = OutputStream::new();
    assert!(matches!(
        stream.step(OutputStreamReport::Received(Ok(None))),
        OutputStreamDirective::End
    ));
    assert_eq!(stream.current_phase(), OutputStreamPhase::Ended);
}

/// Drives the producer and the outbound loop over a real channel on a
/// virtual clock for `run_for`, counting what the session is asked to do.
fn drive_output(heartbeat: Duration, run_for: Duration) -> (usize, usize, OutputPhase) {
    paused_runtime().block_on(async {
        let (tx, mut rx) = unbounded_channel::<SenderMsg>();
        let _sender = Sender::new(tx);
        let mut stream = OutputStream::new();
        let mut lp = OutputLoop::new();
        let mut heartbeats = 0;
        let mut logouts = 0;
        let started = tokio::time::Instant::now();
        while started.elapsed() < run_for {
            let received = tokio::time::timeout(heartbeat, rx.recv()).await;
            if started.elapsed() > run_for {
                break;
            }
            let event = match stream.step(OutputStreamReport::Received(received)) {
                OutputStreamDirective::Yield(event) => Some(event),
                OutputStreamDirective::End => None,
                other => panic!("unexpected {:?}", other),
            };
            match lp.step(OutputReport::Event(event)) {
                OutputDirective::NotifyTimeout => heartbeats += 1,
                OutputDirective::EmitLogout(_) => logouts += 1,
                other => panic!("unexpected {:?}", other),
            }
        }
        (heartbeats, logouts, lp.current_phase())
    })
}

#[test]
fn initiator_silent_for_35_seconds_gets_one_heartbeat_timeout() {
    let outcome = drive_output(Duration::from_secs(30), Duration::from_secs(35));
    assert_eq!(outcome, (1, 0, OutputPhase::Polling));
}

#[test]
fn each_silent_heartbeat_interval_gives_one_timeout() {
    let outcome = drive_output(Duration::from_secs(30), Duration::from_secs(95));
    assert_eq!(outcome, (3, 0, OutputPhase::Polling));
}

#[test]
fn idle_window_yields_exactly_one_timeout_event() {
    let settings = Settings {
        auto_disconnect_after_no_logon_received: Span::from_secs(10),
        no_inbound_timeout_padding: Span::from_millis(250),
    };
    let window = duration(inbound_timeout(Span::from_secs(30), &settings).unwrap());
    assert_eq!(window, Duration::from_millis(30_250));
    paused_runtime().block_on(async {
        let (tx, rx) = unbounded_channel::<InputEvent>();
        let mut guarded = Box::pin(UnboundedReceiverStream::new(rx).timeout(window));
        let mut lp = InputLoop::new();
        let started = tokio::time::Instant::now();

        // Silence for a whole window: one timeout event, when the window ends.
        let event = or_timeout(guarded.next().await.unwrap());
        assert_eq!(started.elapsed(), window);
        assert!(matches!(event, InputEvent::Timeout));
        assert!(matches!(lp.step(InputReport::Event(Some(event))), InputDirective::NotifyTimeout));
        assert_eq!(lp.current_phase(), InputPhase::Polling);

        // Silence goes on for ten more windows: no second event.
        let more = tokio::time::timeout(window * 10, guarded.next()).await;
        assert!(more.is_err());

        // Traffic starts a new window, which again ends in one timeout.
        tx.send(InputEvent::Message(message("0"))).unwrap();
        let event = or_timeout(guarded.next().await.unwrap());
        assert!(matches!(event, InputEvent::Message(_)));
        assert!(matches!(lp.step(InputReport::Event(Some(event))), InputDirective::Deliver(_)));
        assert!(matches!(lp.step(InputReport::MessageHandled(None)), InputDirective::Poll));
        let resumed = tokio::time::Instant::now();
        let event = or_timeout(guarded.next().await.unwrap());
        assert_eq!(resumed.elapsed(), window);
        assert!(matches!(event, InputEvent::Timeout));
        assert!(matches!(lp.step(InputReport::Event(Some(event))), InputDirective::NotifyTimeout));
        let more = tokio::time::timeout(window * 10, guarded.next()).await;
        assert!(more.is_err());
    });
}

#[test]
fn traffic_within_the_window_yields_no_timeout() {
    paused_runtime().block_on(async {
        let (tx, rx) = unbounded_channel::<InputEvent>();
        let window = Duration::from_secs(31);
        let mut guarded = Box::pin(UnboundedReceiverStream::new(rx).timeout(window));
        for _ in 0..5 {
            tokio::time::sleep(Duration::from_secs(30)).await;
            tx.send(InputEvent::Message(message("0"))).unwrap();
            let event = or_timeout(guarded.next().await.unwrap());
            assert!(matches!(event, InputEvent::Message(_)));
        }
    });
}
