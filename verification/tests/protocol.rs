use impulse_voice::protocol::{
    parse_command, reply_id_field, Action, Command, Daemon, ErrorCode, IdField, Message,
    PasteOutcome, RecordingSummary, Request, StartFailure, StopOutcome, VoiceState,
};

fn request(command: &str, paste: Option<bool>) -> Request {
    Request { command: command.to_string(), paste }
}

fn summary() -> RecordingSummary {
    RecordingSummary { duration_ms: 1_840, samples: 29_440, device: "Mic".to_string() }
}

#[test]
fn commands_are_recognised_by_name() {
    assert_eq!(parse_command("ping"), Command::Ping);
    assert_eq!(parse_command("status"), Command::Status);
    assert_eq!(parse_command("start"), Command::Start);
    assert_eq!(parse_command("stop"), Command::Stop);
    assert_eq!(parse_command("toggle"), Command::Toggle);
    assert_eq!(parse_command("cancel"), Command::Cancel);
    assert_eq!(parse_command("Start"), Command::Unknown);
    assert_eq!(parse_command(""), Command::Unknown);
}

#[test]
fn ping_status_and_unknown_keep_the_state() {
    let mut daemon = Daemon::new(true);
    assert!(matches!(daemon.on_request(&request("ping", None)), Action::Reply(Message::Pong)));
    assert!(matches!(
        daemon.on_request(&request("status", None)),
        Action::Reply(Message::Status { state: VoiceState::Idle })
    ));
    match daemon.on_request(&request("jump", None)) {
        Action::Reply(Message::Error { code, detail, state }) => {
            assert_eq!(code, ErrorCode::UnknownCommand);
            assert_eq!(code.name(), "unknown_command");
            assert_eq!(detail, "commande inconnue: jump");
            assert_eq!(state, VoiceState::Idle);
        },
        _ => panic!("expected an error"),
    }
    assert_eq!(daemon.state(), VoiceState::Idle);
}

#[test]
fn a_full_dictation_returns_to_idle() {
    let mut daemon = Daemon::new(true);
    assert!(matches!(daemon.on_request(&request("start", None)), Action::StartRecorder));
    assert_eq!(daemon.state(), VoiceState::Idle);
    match daemon.on_recorder_started(Ok("Mic".to_string())) {
        Message::Listening { device } => assert_eq!(device, "Mic"),
        _ => panic!("expected the listening event"),
    }
    assert_eq!(daemon.state(), VoiceState::Listening);
    match daemon.on_request(&request("stop", Some(false))) {
        Action::StopRecorder { announce: Message::State { state }, paste } => {
            assert_eq!(state, VoiceState::Processing);
            assert!(!paste);
        },
        _ => panic!("expected a stop"),
    }
    assert_eq!(daemon.state(), VoiceState::Processing);
    let outcome = StopOutcome::Transcribed {
        text: "Bonjour".to_string(),
        paste: PasteOutcome::Skipped,
        recording: summary(),
    };
    match daemon.finish_stop(outcome) {
        Message::Transcript { text, pasted, paste_error, duration_ms, samples, device } => {
            assert_eq!(text, "Bonjour");
            assert!(!pasted);
            assert_eq!(paste_error, None);
            assert_eq!(duration_ms, 1_840);
            assert_eq!(samples, 29_440);
            assert_eq!(device, "Mic");
        },
        _ => panic!("expected a transcript"),
    }
    assert_eq!(daemon.state(), VoiceState::Idle);
}

#[test]
fn start_is_refused_while_busy() {
    let mut daemon = Daemon::new(true);
    daemon.on_recorder_started(Ok("Mic".to_string()));
    match daemon.on_request(&request("start", None)) {
        Action::Reply(Message::Error { code, detail, state }) => {
            assert_eq!(code, ErrorCode::Busy);
            assert_eq!(detail, "Impulse Voice est occup\u{e9}");
            assert_eq!(state, VoiceState::Listening);
        },
        _ => panic!("expected busy"),
    }
    assert_eq!(daemon.state(), VoiceState::Listening);
}

#[test]
fn stop_without_recording_is_refused() {
    let mut daemon = Daemon::new(true);
    match daemon.on_request(&request("stop", None)) {
        Action::Reply(Message::Error { code, detail, state }) => {
            assert_eq!(code, ErrorCode::NotRecording);
            assert_eq!(detail, "aucun enregistrement en cours");
            assert_eq!(state, VoiceState::Idle);
        },
        _ => panic!("expected not_recording"),
    }
}

#[test]
fn toggle_starts_stops_and_refuses_while_processing() {
    let mut daemon = Daemon::new(true);
    assert!(matches!(daemon.on_request(&request("toggle", None)), Action::StartRecorder));
    daemon.on_recorder_started(Ok("Mic".to_string()));
    match daemon.on_request(&request("toggle", None)) {
        Action::StopRecorder { paste, .. } => assert!(paste),
        _ => panic!("expected a stop"),
    }
    match daemon.on_request(&request("toggle", None)) {
        Action::Reply(Message::Error { code, detail, state }) => {
            assert_eq!(code, ErrorCode::Busy);
            assert_eq!(detail, "transcription en cours");
            assert_eq!(state, VoiceState::Processing);
        },
        _ => panic!("expected busy"),
    }
}

#[test]
fn a_failed_start_stays_idle() {
    let mut daemon = Daemon::new(false);
    let failure = StartFailure::Failed("failed to start the microphone".to_string());
    match daemon.on_recorder_started(Err(failure)) {
        Message::Error { code, detail, state } => {
            assert_eq!(code, ErrorCode::AudioStartFailed);
            assert_eq!(code.name(), "audio_start_failed");
            assert_eq!(detail, "failed to start the microphone");
            assert_eq!(state, VoiceState::Idle);
        },
        _ => panic!("expected an error"),
    }
    assert_eq!(daemon.state(), VoiceState::Idle);
}

#[test]
fn an_unavailable_microphone_is_reported_as_such() {
    let mut daemon = Daemon::new(true);
    daemon.on_request(&request("start", None));
    match daemon.on_recorder_started(Err(StartFailure::Unavailable)) {
        Message::Error { code, detail, state } => {
            assert_eq!(code, ErrorCode::AudioDeviceUnavailable);
            assert_eq!(code.name(), "audio_device_unavailable");
            assert_eq!(detail, "Microphone indisponible.");
            assert_eq!(state, VoiceState::Idle);
        },
        _ => panic!("expected an error"),
    }
    assert_eq!(daemon.state(), VoiceState::Idle);
}

#[test]
fn replies_echo_the_request_id() {
    let state = Message::State { state: VoiceState::Processing };
    assert_eq!(reply_id_field(&state, true), IdField::Given);
    assert_eq!(reply_id_field(&state, false), IdField::Absent);
    assert_eq!(reply_id_field(&Message::Pong, true), IdField::Given);
    assert_eq!(reply_id_field(&Message::Pong, false), IdField::Null);
    let error = Message::Error {
        code: ErrorCode::Busy,
        detail: "transcription en cours".to_string(),
        state: VoiceState::Processing,
    };
    assert_eq!(reply_id_field(&error, false), IdField::Null);
}

#[test]
fn every_stop_outcome_ends_idle() {
    let failures = vec![
        (StopOutcome::StopFailed("a".to_string()), ErrorCode::AudioStopFailed),
        (StopOutcome::TranscriptionFailed("b".to_string()), ErrorCode::TranscriptionFailed),
        (StopOutcome::TaskFailed("c".to_string()), ErrorCode::TranscriptionTaskFailed),
    ];
    for (outcome, expected) in failures {
        let mut daemon = Daemon::new(true);
        daemon.on_recorder_started(Ok("Mic".to_string()));
        daemon.on_request(&request("stop", None));
        match daemon.finish_stop(outcome) {
            Message::Error { code, state, .. } => {
                assert_eq!(code, expected);
                assert_eq!(state, VoiceState::Idle);
            },
            _ => panic!("expected an error"),
        }
        assert_eq!(daemon.state(), VoiceState::Idle);
    }
}

#[test]
fn pasted_means_requested_and_succeeded() {
    let mut daemon = Daemon::new(true);
    let done = StopOutcome::Transcribed {
        text: "a".to_string(),
        paste: PasteOutcome::Done,
        recording: summary(),
    };
    assert!(matches!(daemon.finish_stop(done), Message::Transcript { pasted: true, .. }));
    let failed = StopOutcome::Transcribed {
        text: "a".to_string(),
        paste: PasteOutcome::Failed("wtype failed".to_string()),
        recording: summary(),
    };
    match daemon.finish_stop(failed) {
        Message::Transcript { pasted, paste_error, .. } => {
            assert!(!pasted);
            assert_eq!(paste_error.as_deref(), Some("wtype failed"));
        },
        _ => panic!("expected a transcript"),
    }
}

#[test]
fn cancel_always_returns_to_idle() {
    let mut daemon = Daemon::new(true);
    daemon.on_recorder_started(Ok("Mic".to_string()));
    assert!(matches!(daemon.on_request(&request("cancel", None)), Action::CancelRecorder));
    assert!(matches!(daemon.on_cancelled(), Message::State { state: VoiceState::Idle }));
    assert_eq!(daemon.state(), VoiceState::Idle);
}

#[test]
fn invalid_lines_report_the_current_state() {
    let daemon = Daemon::new(true);
    match daemon.on_invalid_request("expected value".to_string()) {
        Message::Error { code, state, .. } => {
            assert_eq!(code.name(), "invalid_request");
            assert_eq!(state.name(), "idle");
        },
        _ => panic!("expected an error"),
    }
    assert!(matches!(daemon.greeting(), Message::Status { state: VoiceState::Idle }));
}
