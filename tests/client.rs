use build_runner::buffer::{Emission, OutputLine, TruncatingBuffer};
use build_runner::client::{
    build_failed, is_stop_ack, on_build_response, on_build_stream_end, read_status, BuildStep,
    ERROR_EXIT_CODE,
};
use build_runner::protocol::{frame_message, Request, Response};
use build_runner::server::{completion, Dispatch, DrainAction, ServerState, StreamDrain, StreamEvent};

#[test]
fn exit_code_is_passed_through() {
    for code in [0, 1, 2, 137, -1, i32::MIN] {
        let mut buffer = TruncatingBuffer::new(10);
        let r = on_build_response(&mut buffer, Response::BuildComplete { exit_code: code });
        assert_eq!(r, BuildStep::Finished { exit_code: code });
        assert_eq!(build_failed(code), code != 0);
    }
}

#[test]
fn abnormal_exit_reaches_the_client() {
    let mut buffer = TruncatingBuffer::new(10);
    let r = on_build_response(&mut buffer, completion(None));
    assert_eq!(r, BuildStep::Finished { exit_code: -1 });
}

#[test]
fn error_response_fails_with_one() {
    let mut buffer = TruncatingBuffer::new(10);
    let r = on_build_response(&mut buffer, Response::Error { message: "Empty command".to_string() });
    assert_eq!(r, BuildStep::Failed { message: "Empty command".to_string(), exit_code: 1 });
    assert_eq!(ERROR_EXIT_CODE, 1);
}

#[test]
fn other_responses_are_ignored_during_a_build() {
    let mut buffer = TruncatingBuffer::new(10);
    assert_eq!(on_build_response(&mut buffer, Response::Stopping), BuildStep::Continue(None));
    assert_eq!(buffer.total_count(), 0);
}

#[test]
fn stream_end_finishes_with_zero() {
    assert_eq!(on_build_stream_end(), BuildStep::Finished { exit_code: 0 });
}

#[test]
fn status_reply_is_read() {
    let r = read_status(Response::Status { initialized: true, init_script: Some("a".to_string()) });
    assert_eq!(r, Some((true, Some("a".to_string()))));
    assert_eq!(read_status(Response::Stopping), None);
}

#[test]
fn stop_is_acknowledged_by_stopping_only() {
    assert!(is_stop_ack(&Response::Stopping));
    assert!(!is_stop_ack(&Response::Error { message: "x".to_string() }));
}

#[test]
fn messages_are_framed_one_per_line() {
    assert_eq!(frame_message("{\"Stopping\"}"), Some("{\"Stopping\"}\n".to_string()));
    assert_eq!(frame_message(""), Some("\n".to_string()));
    assert_eq!(frame_message("a\nb"), None);
}

#[test]
fn echo_build_end_to_end() {
    let mut state = ServerState::new(None);
    let plan = state.handle_request(Request::Build {
        dir: "/tmp".to_string(),
        command: "echo hi".to_string(),
    });
    assert!(matches!(plan, Dispatch::RunBuild(_)));
    let mut drain = StreamDrain::new();
    let mut sent = Vec::new();
    let events = vec![
        StreamEvent::Line { line: "hi".to_string(), is_stderr: false },
        StreamEvent::Closed { is_stderr: false },
        StreamEvent::Closed { is_stderr: true },
    ];
    for event in events {
        match drain.on_event(event) {
            DrainAction::Forward(r) => sent.push(r),
            DrainAction::KeepReading => {}
            DrainAction::AwaitExit => sent.push(completion(Some(0))),
        }
    }
    assert_eq!(
        sent,
        vec![
            Response::Output { line: "hi".to_string(), is_stderr: false },
            Response::BuildComplete { exit_code: 0 },
        ]
    );
    let mut buffer = TruncatingBuffer::new(500);
    let mut printed = Vec::new();
    let mut exit = None;
    for r in sent {
        match on_build_response(&mut buffer, r) {
            BuildStep::Continue(Some(l)) => printed.push(l),
            BuildStep::Continue(None) => {}
            BuildStep::Finished { exit_code } => exit = Some(exit_code),
            BuildStep::Failed { .. } => panic!("unexpected failure"),
        }
    }
    assert_eq!(buffer.finish(), Vec::<Emission>::new());
    assert_eq!(printed, vec![OutputLine { content: "hi".to_string(), is_stderr: false }]);
    assert_eq!(exit, Some(0));
}

#[test]
fn stop_then_no_more_accepting() {
    let mut state = ServerState::new(None);
    let r = state.handle_request(Request::Stop);
    assert_eq!(r, Dispatch::Reply(Response::Stopping));
    assert!(!state.running());
}
