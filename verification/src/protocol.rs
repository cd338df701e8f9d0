//! The daemon's dictation state machine and its newline-delimited JSON
//! protocol, as decisions over plain values.
//!
//! The daemon serves `ping`, `status`, `start`, `stop`, `toggle` and
//! `cancel` requests. Work that touches the microphone, the speech engine or
//! the focused application is not done here: a request yields an [`Action`]
//! that the caller performs, and the caller hands the outcome back.
use vstd::prelude::*;

use crate::text::str_eq;

verus! {

/// The dictation state shared by every client.
#[derive(Clone, Copy, Debug, PartialEq, Eq, Structural)]
pub enum VoiceState {
    Idle,
    Listening,
    Processing,
}

impl VoiceState {
    pub open spec fn spec_name(self) -> Seq<char> {
        match self {
            VoiceState::Idle => "idle"@,
            VoiceState::Listening => "listening"@,
            VoiceState::Processing => "processing"@,
        }
    }

    /// The name the protocol uses for the state.
    pub fn name(&self) -> (s: &'static str)
        ensures
            s@ == self.spec_name(),
    {
        match self {
            VoiceState::Idle => "idle",
            VoiceState::Listening => "listening",
            VoiceState::Processing => "processing",
        }
    }
}

/// The commands of the protocol.
#[derive(Clone, Copy, Debug, PartialEq, Eq, Structural)]
pub enum Command {
    Ping,
    Status,
    Start,
    Stop,
    Toggle,
    Cancel,
    Unknown,
}

pub open spec fn spec_command(name: Seq<char>) -> Command {
    if name == "ping"@ {
        Command::Ping
    } else if name == "status"@ {
        Command::Status
    } else if name == "start"@ {
        Command::Start
    } else if name == "stop"@ {
        Command::Stop
    } else if name == "toggle"@ {
        Command::Toggle
    } else if name == "cancel"@ {
        Command::Cancel
    } else {
        Command::Unknown
    }
}

/// Recognises a command name; anything else is `Unknown`.
pub fn parse_command(name: &str) -> (c: Command)
    ensures
        c == spec_command(name@),
{
    if str_eq(name, "ping") {
        Command::Ping
    } else if str_eq(name, "status") {
        Command::Status
    } else if str_eq(name, "start") {
        Command::Start
    } else if str_eq(name, "stop") {
        Command::Stop
    } else if str_eq(name, "toggle") {
        Command::Toggle
    } else if str_eq(name, "cancel") {
        Command::Cancel
    } else {
        Command::Unknown
    }
}

/// A request line, without its `id`, which the caller echoes.
pub struct Request {
    pub command: String,
    /// Overrides the daemon's paste default for one `stop` or `toggle`.
    pub paste: Option<bool>,
}

/// The `code` of an error event.
#[derive(Clone, Copy, Debug, PartialEq, Eq, Structural)]
pub enum ErrorCode {
    Busy,
    AudioDeviceUnavailable,
    AudioStartFailed,
    NotRecording,
    AudioStopFailed,
    TranscriptionFailed,
    TranscriptionTaskFailed,
    InvalidRequest,
    UnknownCommand,
}

impl ErrorCode {
    pub open spec fn spec_name(self) -> Seq<char> {
        match self {
            ErrorCode::Busy => "busy"@,
            ErrorCode::AudioDeviceUnavailable => "audio_device_unavailable"@,
            ErrorCode::AudioStartFailed => "audio_start_failed"@,
            ErrorCode::NotRecording => "not_recording"@,
            ErrorCode::AudioStopFailed => "audio_stop_failed"@,
            ErrorCode::TranscriptionFailed => "transcription_failed"@,
            ErrorCode::TranscriptionTaskFailed => "transcription_task_failed"@,
            ErrorCode::InvalidRequest => "invalid_request"@,
            ErrorCode::UnknownCommand => "unknown_command"@,
        }
    }

    pub fn name(&self) -> (s: &'static str)
        ensures
            s@ == self.spec_name(),
    {
        match self {
            ErrorCode::Busy => "busy",
            ErrorCode::AudioDeviceUnavailable => "audio_device_unavailable",
            ErrorCode::AudioStartFailed => "audio_start_failed",
            ErrorCode::NotRecording => "not_recording",
            ErrorCode::AudioStopFailed => "audio_stop_failed",
            ErrorCode::TranscriptionFailed => "transcription_failed",
            ErrorCode::TranscriptionTaskFailed => "transcription_task_failed",
            ErrorCode::InvalidRequest => "invalid_request",
            ErrorCode::UnknownCommand => "unknown_command",
        }
    }
}

/// An event the daemon sends to a client.
pub enum Message {
    /// `{"type":"state","state":..}`
    State { state: VoiceState },
    /// The state event that follows a successful start, naming the device.
    Listening { device: String },
    /// The state event of a `status` request or of a new connection; the
    /// caller adds what it knows of the speech model.
    Status { state: VoiceState },
    Pong,
    Error { code: ErrorCode, detail: String, state: VoiceState },
    Transcript {
        text: String,
        pasted: bool,
        paste_error: Option<String>,
        duration_ms: u64,
        samples: usize,
        device: String,
    },
}

/// [`Message`] with its strings as character sequences.
pub enum MessageView {
    State { state: VoiceState },
    Listening { device: Seq<char> },
    Status { state: VoiceState },
    Pong,
    Error { code: ErrorCode, detail: Seq<char>, state: VoiceState },
    Transcript {
        text: Seq<char>,
        pasted: bool,
        paste_error: Option<Seq<char>>,
        duration_ms: u64,
        samples: usize,
        device: Seq<char>,
    },
}

pub open spec fn opt_string_view(o: Option<String>) -> Option<Seq<char>> {
    match o {
        Some(s) => Some(s@),
        None => None,
    }
}

impl View for Message {
    type V = MessageView;

    open spec fn view(&self) -> MessageView {
        match self {
            Message::State { state } => MessageView::State { state: *state },
            Message::Listening { device } => MessageView::Listening { device: device@ },
            Message::Status { state } => MessageView::Status { state: *state },
            Message::Pong => MessageView::Pong,
            Message::Error { code, detail, state } => MessageView::Error {
                code: *code,
                detail: detail@,
                state: *state,
            },
            Message::Transcript { text, pasted, paste_error, duration_ms, samples, device } =>
                MessageView::Transcript {
                text: text@,
                pasted: *pasted,
                paste_error: opt_string_view(*paste_error),
                duration_ms: *duration_ms,
                samples: *samples,
                device: device@,
            },
        }
    }
}

/// What the caller must do after a request.
pub enum Action {
    /// Send the message; nothing else.
    Reply(Message),
    /// Open the microphone, then report through `on_recorder_started`
    /// before any other request is decided.
    StartRecorder,
    /// Send `announce`, stop the microphone, transcribe the recording, insert
    /// the text when `paste` is set, then report through `finish_stop`.
    StopRecorder { announce: Message, paste: bool },
    /// Drop any recording, then report through `on_cancelled`.
    CancelRecorder,
}

pub enum ActionView {
    Reply(MessageView),
    StartRecorder,
    StopRecorder { announce: MessageView, paste: bool },
    CancelRecorder,
}

impl View for Action {
    type V = ActionView;

    open spec fn view(&self) -> ActionView {
        match self {
            Action::Reply(m) => ActionView::Reply(m@),
            Action::StartRecorder => ActionView::StartRecorder,
            Action::StopRecorder { announce, paste } => ActionView::StopRecorder {
                announce: announce@,
                paste: *paste,
            },
            Action::CancelRecorder => ActionView::CancelRecorder,
        }
    }
}

/// Why the microphone did not open.
pub enum StartFailure {
    /// There is no input device to open.
    Unavailable,
    /// The microphone could not be opened (a configured device that is not
    /// there among the reasons); the text says why.
    Failed(String),
}

pub enum StartFailureView {
    Unavailable,
    Failed(Seq<char>),
}

impl View for StartFailure {
    type V = StartFailureView;

    open spec fn view(&self) -> StartFailureView {
        match self {
            StartFailure::Unavailable => StartFailureView::Unavailable,
            StartFailure::Failed(e) => StartFailureView::Failed(e@),
        }
    }
}

/// Where an event carries the `id` of the request it answers.
#[derive(Clone, Copy, Debug, PartialEq, Eq, Structural)]
pub enum IdField {
    /// No `id` field.
    Absent,
    /// The request's `id`.
    Given,
    /// An `id` field that is `null`.
    Null,
}

/// A state event echoes the request's `id` only when one was given; every
/// other event always has the field, `null` when there was none.
pub fn reply_id_field(message: &Message, id_given: bool) -> (f: IdField)
    ensures
        id_given ==> f == IdField::Given,
        !id_given && message@ is State ==> f == IdField::Absent,
        !id_given && !(message@ is State) ==> f == IdField::Null,
{
    if id_given {
        IdField::Given
    } else {
        match message {
            Message::State { .. } => IdField::Absent,
            _ => IdField::Null,
        }
    }
}

/// What became of inserting the transcript into the focused application.
pub enum PasteOutcome {
    /// Insertion was not requested.
    Skipped,
    Done,
    Failed(String),
}

/// What the caller learnt of a recording that stopped.
pub struct RecordingSummary {
    pub duration_ms: u64,
    pub samples: usize,
    pub device: String,
}

/// How a stop that the daemon accepted ended.
pub enum StopOutcome {
    /// The microphone could not be stopped cleanly.
    StopFailed(String),
    /// The speech engine failed.
    TranscriptionFailed(String),
    /// The worker that ran the speech engine did not complete.
    TaskFailed(String),
    Transcribed { text: String, paste: PasteOutcome, recording: RecordingSummary },
}

pub enum PasteOutcomeView {
    Skipped,
    Done,
    Failed(Seq<char>),
}

pub enum StopOutcomeView {
    StopFailed(Seq<char>),
    TranscriptionFailed(Seq<char>),
    TaskFailed(Seq<char>),
    Transcribed {
        text: Seq<char>,
        paste: PasteOutcomeView,
        duration_ms: u64,
        samples: usize,
        device: Seq<char>,
    },
}

impl View for PasteOutcome {
    type V = PasteOutcomeView;

    open spec fn view(&self) -> PasteOutcomeView {
        match self {
            PasteOutcome::Skipped => PasteOutcomeView::Skipped,
            PasteOutcome::Done => PasteOutcomeView::Done,
            PasteOutcome::Failed(e) => PasteOutcomeView::Failed(e@),
        }
    }
}

impl View for StopOutcome {
    type V = StopOutcomeView;

    open spec fn view(&self) -> StopOutcomeView {
        match self {
            StopOutcome::StopFailed(e) => StopOutcomeView::StopFailed(e@),
            StopOutcome::TranscriptionFailed(e) => StopOutcomeView::TranscriptionFailed(e@),
            StopOutcome::TaskFailed(e) => StopOutcomeView::TaskFailed(e@),
            StopOutcome::Transcribed { text, paste, recording } => StopOutcomeView::Transcribed {
                text: text@,
                paste: paste@,
                duration_ms: recording.duration_ms,
                samples: recording.samples,
                device: recording.device@,
            },
        }
    }
}

// ---------------------------------------------------------------------------
// The model of the state machine
// ---------------------------------------------------------------------------

pub open spec fn busy_detail() -> Seq<char> {
    "Impulse Voice est occup\u{e9}"@
}

pub open spec fn transcribing_detail() -> Seq<char> {
    "transcription en cours"@
}

pub open spec fn unavailable_detail() -> Seq<char> {
    "Microphone indisponible."@
}

pub open spec fn not_recording_detail() -> Seq<char> {
    "aucun enregistrement en cours"@
}

pub open spec fn unknown_command_detail(name: Seq<char>) -> Seq<char> {
    "commande inconnue: "@ + name
}

/// Whether a stop inserts the transcript: the request's override, else the
/// daemon's default.
pub open spec fn should_paste(paste: Option<bool>, paste_default: bool) -> bool {
    match paste {
        Some(p) => p,
        None => paste_default,
    }
}

pub open spec fn start_step(state: VoiceState) -> (VoiceState, ActionView) {
    if state == VoiceState::Idle {
        (state, ActionView::StartRecorder)
    } else {
        (
            state,
            ActionView::Reply(
                MessageView::Error { code: ErrorCode::Busy, detail: busy_detail(), state },
            ),
        )
    }
}

pub open spec fn stop_step(state: VoiceState, paste_default: bool, paste: Option<bool>) -> (
    VoiceState,
    ActionView,
) {
    if state == VoiceState::Listening {
        (
            VoiceState::Processing,
            ActionView::StopRecorder {
                announce: MessageView::State { state: VoiceState::Processing },
                paste: should_paste(paste, paste_default),
            },
        )
    } else {
        (
            state,
            ActionView::Reply(
                MessageView::Error {
                    code: ErrorCode::NotRecording,
                    detail: not_recording_detail(),
                    state,
                },
            ),
        )
    }
}

/// The state after a request, and what the caller must do.
pub open spec fn request_step(
    state: VoiceState,
    paste_default: bool,
    command: Seq<char>,
    paste: Option<bool>,
) -> (VoiceState, ActionView) {
    match spec_command(command) {
        Command::Ping => (state, ActionView::Reply(MessageView::Pong)),
        Command::Status => (state, ActionView::Reply(MessageView::Status { state })),
        Command::Start => start_step(state),
        Command::Stop => stop_step(state, paste_default, paste),
        Command::Toggle => match state {
            VoiceState::Idle => start_step(state),
            VoiceState::Listening => stop_step(state, paste_default, paste),
            VoiceState::Processing => (
                state,
                ActionView::Reply(
                    MessageView::Error {
                        code: ErrorCode::Busy,
                        detail: transcribing_detail(),
                        state: VoiceState::Processing,
                    },
                ),
            ),
        },
        Command::Cancel => (state, ActionView::CancelRecorder),
        Command::Unknown => (
            state,
            ActionView::Reply(
                MessageView::Error {
                    code: ErrorCode::UnknownCommand,
                    detail: unknown_command_detail(command),
                    state,
                },
            ),
        ),
    }
}

/// The state and event after the microphone was asked to start.
pub open spec fn started_step(state: VoiceState, result: Result<Seq<char>, StartFailureView>) -> (
    VoiceState,
    MessageView,
) {
    match result {
        Ok(device) => (VoiceState::Listening, MessageView::Listening { device }),
        Err(StartFailureView::Unavailable) => (
            state,
            MessageView::Error {
                code: ErrorCode::AudioDeviceUnavailable,
                detail: unavailable_detail(),
                state: VoiceState::Idle,
            },
        ),
        Err(StartFailureView::Failed(e)) => (
            state,
            MessageView::Error {
                code: ErrorCode::AudioStartFailed,
                detail: e,
                state: VoiceState::Idle,
            },
        ),
    }
}

/// The event that ends an accepted stop.
pub open spec fn finish_message(outcome: StopOutcomeView) -> MessageView {
    match outcome {
        StopOutcomeView::StopFailed(e) => MessageView::Error {
            code: ErrorCode::AudioStopFailed,
            detail: e,
            state: VoiceState::Idle,
        },
        StopOutcomeView::TranscriptionFailed(e) => MessageView::Error {
            code: ErrorCode::TranscriptionFailed,
            detail: e,
            state: VoiceState::Idle,
        },
        StopOutcomeView::TaskFailed(e) => MessageView::Error {
            code: ErrorCode::TranscriptionTaskFailed,
            detail: e,
            state: VoiceState::Idle,
        },
        StopOutcomeView::Transcribed { text, paste, duration_ms, samples, device } =>
            MessageView::Transcript {
            text,
            pasted: paste is Done,
            paste_error: match paste {
                PasteOutcomeView::Failed(e) => Some(e),
                _ => None,
            },
            duration_ms,
            samples,
            device,
        },
    }
}

fn string_of(s: &str) -> (r: String)
    ensures
        r@ == s@,
{
    String::from_str(s)
}

/// The shared state of the daemon.
pub struct Daemon {
    state: VoiceState,
    paste_enabled: bool,
}

impl Daemon {
    pub closed spec fn spec_state(&self) -> VoiceState {
        self.state
    }

    pub closed spec fn spec_paste_enabled(&self) -> bool {
        self.paste_enabled
    }

    /// A daemon at rest; `paste_enabled` is the default for inserting
    /// transcripts.
    pub fn new(paste_enabled: bool) -> (d: Daemon)
        ensures
            d.spec_state() == VoiceState::Idle,
            d.spec_paste_enabled() == paste_enabled,
    {
        Daemon { state: VoiceState::Idle, paste_enabled }
    }

    pub fn state(&self) -> (s: VoiceState)
        ensures
            s == self.spec_state(),
    {
        self.state
    }

    pub fn paste_enabled(&self) -> (p: bool)
        ensures
            p == self.spec_paste_enabled(),
    {
        self.paste_enabled
    }

    /// The state event sent when a client connects.
    pub fn greeting(&self) -> (m: Message)
        ensures
            m@ == (MessageView::Status { state: self.spec_state() }),
    {
        Message::Status { state: self.state }
    }

    /// The answer to a line that is not a valid request.
    pub fn on_invalid_request(&self, detail: String) -> (m: Message)
        ensures
            m@ == (MessageView::Error {
                code: ErrorCode::InvalidRequest,
                detail: detail@,
                state: self.spec_state(),
            }),
    {
        Message::Error { code: ErrorCode::InvalidRequest, detail, state: self.state }
    }

    fn busy(state: VoiceState) -> (a: Action)
        requires
            state != VoiceState::Idle,
        ensures
            a@ == start_step(state).1,
    {
        Action::Reply(
            Message::Error {
                code: ErrorCode::Busy,
                detail: string_of("Impulse Voice est occup\u{e9}"),
                state,
            },
        )
    }

    fn start(&mut self) -> (a: Action)
        ensures
            (final(self).state, a@) == start_step(old(self).state),
            final(self).paste_enabled == old(self).paste_enabled,
    {
        if self.state == VoiceState::Idle {
            Action::StartRecorder
        } else {
            Self::busy(self.state)
        }
    }

    fn stop(&mut self, paste: Option<bool>) -> (a: Action)
        ensures
            (final(self).state, a@) == stop_step(old(self).state, old(self).paste_enabled, paste),
            final(self).paste_enabled == old(self).paste_enabled,
    {
        if self.state == VoiceState::Listening {
            self.state = VoiceState::Processing;
            let p = match paste {
                Some(p) => p,
                None => self.paste_enabled,
            };
            Action::StopRecorder {
                announce: Message::State { state: VoiceState::Processing },
                paste: p,
            }
        } else {
            Action::Reply(
                Message::Error {
                    code: ErrorCode::NotRecording,
                    detail: string_of("aucun enregistrement en cours"),
                    state: self.state,
                },
            )
        }
    }

    /// Decides a request.
    pub fn on_request(&mut self, request: &Request) -> (a: Action)
        ensures
            (final(self).spec_state(), a@) == request_step(
                old(self).spec_state(),
                old(self).spec_paste_enabled(),
                request.command@,
                request.paste,
            ),
            final(self).spec_paste_enabled() == old(self).spec_paste_enabled(),
    {
        match parse_command(request.command.as_str()) {
            Command::Ping => Action::Reply(Message::Pong),
            Command::Status => Action::Reply(Message::Status { state: self.state }),
            Command::Start => self.start(),
            Command::Stop => self.stop(request.paste),
            Command::Toggle => match self.state {
                VoiceState::Idle => self.start(),
                VoiceState::Listening => self.stop(request.paste),
                VoiceState::Processing => Action::Reply(
                    Message::Error {
                        code: ErrorCode::Busy,
                        detail: string_of("transcription en cours"),
                        state: VoiceState::Processing,
                    },
                ),
            },
            Command::Cancel => Action::CancelRecorder,
            Command::Unknown => {
                let detail = string_of("commande inconnue: ").concat(request.command.as_str());
                Action::Reply(
                    Message::Error { code: ErrorCode::UnknownCommand, detail, state: self.state },
                )
            },
        }
    }

    /// Reports the outcome of `Action::StartRecorder`: the device's name, or
    /// why the microphone did not open.
    pub fn on_recorder_started(&mut self, result: Result<String, StartFailure>) -> (m: Message)
        ensures
            (final(self).spec_state(), m@) == started_step(
                old(self).spec_state(),
                match result {
                    Ok(d) => Ok(d@),
                    Err(e) => Err(e@),
                },
            ),
            final(self).spec_paste_enabled() == old(self).spec_paste_enabled(),
    {
        match result {
            Ok(device) => {
                self.state = VoiceState::Listening;
                Message::Listening { device }
            },
            Err(StartFailure::Unavailable) => Message::Error {
                code: ErrorCode::AudioDeviceUnavailable,
                detail: string_of("Microphone indisponible."),
                state: VoiceState::Idle,
            },
            Err(StartFailure::Failed(detail)) => Message::Error {
                code: ErrorCode::AudioStartFailed,
                detail,
                state: VoiceState::Idle,
            },
        }
    }

    /// Reports how an accepted stop ended; the daemon is idle again.
    pub fn finish_stop(&mut self, outcome: StopOutcome) -> (m: Message)
        ensures
            final(self).spec_state() == VoiceState::Idle,
            m@ == finish_message(outcome@),
            final(self).spec_paste_enabled() == old(self).spec_paste_enabled(),
    {
        self.state = VoiceState::Idle;
        match outcome {
            StopOutcome::StopFailed(detail) => Message::Error {
                code: ErrorCode::AudioStopFailed,
                detail,
                state: VoiceState::Idle,
            },
            StopOutcome::TranscriptionFailed(detail) => Message::Error {
                code: ErrorCode::TranscriptionFailed,
                detail,
                state: VoiceState::Idle,
            },
            StopOutcome::TaskFailed(detail) => Message::Error {
                code: ErrorCode::TranscriptionTaskFailed,
                detail,
                state: VoiceState::Idle,
            },
            StopOutcome::Transcribed { text, paste, recording } => {
                let (pasted, paste_error) = match paste {
                    PasteOutcome::Skipped => (false, None),
                    PasteOutcome::Done => (true, None),
                    PasteOutcome::Failed(e) => (false, Some(e)),
                };
                Message::Transcript {
                    text,
                    pasted,
                    paste_error,
                    duration_ms: recording.duration_ms,
                    samples: recording.samples,
                    device: recording.device,
                }
            },
        }
    }

    /// Reports that `Action::CancelRecorder` was carried out.
    pub fn on_cancelled(&mut self) -> (m: Message)
        ensures
            final(self).spec_state() == VoiceState::Idle,
            m@ == (MessageView::State { state: VoiceState::Idle }),
            final(self).spec_paste_enabled() == old(self).spec_paste_enabled(),
    {
        self.state = VoiceState::Idle;
        Message::State { state: VoiceState::Idle }
    }
}

// ---------------------------------------------------------------------------
// Laws
// ---------------------------------------------------------------------------

/// Each command name is recognised as its command.
pub proof fn lemma_command_names()
    ensures
        spec_command("ping"@) == Command::Ping,
        spec_command("status"@) == Command::Status,
        spec_command("start"@) == Command::Start,
        spec_command("stop"@) == Command::Stop,
        spec_command("toggle"@) == Command::Toggle,
        spec_command("cancel"@) == Command::Cancel,
{
    reveal_strlit("ping");
    reveal_strlit("status");
    reveal_strlit("start");
    reveal_strlit("stop");
    reveal_strlit("toggle");
    reveal_strlit("cancel");
    assert("status"@.len() != "ping"@.len());
    assert("start"@.len() != "ping"@.len());
    assert("start"@.len() != "status"@.len());
    assert("stop"@[0] != "ping"@[0]);
    assert("stop"@.len() != "status"@.len());
    assert("stop"@.len() != "start"@.len());
    assert("toggle"@[0] != "status"@[0]);
    assert("toggle"@.len() != "ping"@.len());
    assert("toggle"@.len() != "start"@.len());
    assert("toggle"@.len() != "stop"@.len());
    assert("cancel"@[0] != "status"@[0]);
    assert("cancel"@[0] != "toggle"@[0]);
    assert("cancel"@.len() != "ping"@.len());
    assert("cancel"@.len() != "start"@.len());
    assert("cancel"@.len() != "stop"@.len());
}

/// `toggle` starts when idle, stops when listening, and is refused as busy
/// while a transcription runs.
pub proof fn law_toggle(state: VoiceState, paste_default: bool, paste: Option<bool>)
    ensures
        state == VoiceState::Idle ==> request_step(state, paste_default, "toggle"@, paste)
            == request_step(state, paste_default, "start"@, paste),
        state == VoiceState::Listening ==> request_step(state, paste_default, "toggle"@, paste)
            == request_step(state, paste_default, "stop"@, paste),
        state == VoiceState::Processing ==> request_step(state, paste_default, "toggle"@, paste)
            == (state, ActionView::Reply(
            MessageView::Error {
                code: ErrorCode::Busy,
                detail: transcribing_detail(),
                state: VoiceState::Processing,
            },
        )),
{
    lemma_command_names();
}

/// No request opens the microphone by itself: a request never moves the
/// daemon into `listening`; only a start whose microphone opened does. A
/// start that failed leaves the state and reports `idle`; an unavailable
/// microphone is reported as `audio_device_unavailable`.
pub proof fn law_listening_only_after_start(
    state: VoiceState,
    paste_default: bool,
    command: Seq<char>,
    paste: Option<bool>,
    result: Result<Seq<char>, StartFailureView>,
)
    ensures
        request_step(state, paste_default, command, paste).0 == VoiceState::Listening ==> state
            == VoiceState::Listening,
        started_step(state, result).0 == VoiceState::Listening ==> (result is Ok || state
            == VoiceState::Listening),
        result is Err ==> started_step(state, result).0 == state,
        result is Err ==> (started_step(state, result).1 matches MessageView::Error {
            state: s,
            ..
        } && s == VoiceState::Idle),
        result matches Err(StartFailureView::Unavailable) ==> started_step(state, result).1
            == (MessageView::Error {
            code: ErrorCode::AudioDeviceUnavailable,
            detail: unavailable_detail(),
            state: VoiceState::Idle,
        }),
{
}

/// A refused request leaves the state as it was, and the error names that
/// state.
pub proof fn law_refusal_keeps_state(
    state: VoiceState,
    paste_default: bool,
    command: Seq<char>,
    paste: Option<bool>,
)
    ensures
        ({
            let (next, action) = request_step(state, paste_default, command, paste);
            action matches ActionView::Reply(MessageView::Error { state: s, .. }) ==> next
                == state && s == state
        }),
{
}

/// `ping`, `status`, `cancel` and unknown commands do not change the state;
/// only `start`, `stop` and `toggle` decide a change.
pub proof fn law_queries_keep_state(
    state: VoiceState,
    paste_default: bool,
    command: Seq<char>,
    paste: Option<bool>,
)
    ensures
        spec_command(command) != Command::Stop && spec_command(command) != Command::Toggle
            ==> request_step(state, paste_default, command, paste).0 == state,
{
}

/// A stop that the daemon accepts moves it to `processing`, carries the
/// paste decision, and however it ends the daemon is idle again.
pub proof fn law_stop_round_trip(
    paste_default: bool,
    paste: Option<bool>,
    outcome: StopOutcomeView,
)
    ensures
        request_step(VoiceState::Listening, paste_default, "stop"@, paste) == (
            VoiceState::Processing,
            ActionView::StopRecorder {
                announce: MessageView::State { state: VoiceState::Processing },
                paste: should_paste(paste, paste_default),
            },
        ),
        finish_message(outcome) matches MessageView::Transcript { pasted, paste_error, .. } ==> (
        pasted <==> (outcome matches StopOutcomeView::Transcribed { paste, .. } && paste is Done))
            && (paste_error is Some ==> !pasted),
        finish_message(outcome) matches MessageView::Error { state, .. } ==> state
            == VoiceState::Idle,
{
    lemma_command_names();
}

/// A `status` request reports the daemon's current state and changes
/// nothing, whatever that state is.
pub proof fn law_status_reports_current_state(
    state: VoiceState,
    paste_default: bool,
    paste: Option<bool>,
)
    ensures
        request_step(state, paste_default, "status"@, paste) == (
            state,
            ActionView::Reply(MessageView::Status { state: state }),
        ),
        request_step(VoiceState::Listening, paste_default, "status"@, paste) == (
            VoiceState::Listening,
            ActionView::Reply(MessageView::Status { state: VoiceState::Listening }),
        ),
        request_step(VoiceState::Processing, paste_default, "status"@, paste) == (
            VoiceState::Processing,
            ActionView::Reply(MessageView::Status { state: VoiceState::Processing }),
        ),
{
    lemma_command_names();
}

/// A request's `paste` value decides whether an accepted stop inserts the
/// transcript, overriding the daemon's default both ways; without one the
/// default decides. This holds for `stop` and for `toggle` while listening.
pub proof fn law_paste_override(paste_default: bool, p: bool)
    ensures
        request_step(VoiceState::Listening, paste_default, "stop"@, Some(p)) == (
            VoiceState::Processing,
            ActionView::StopRecorder {
                announce: MessageView::State { state: VoiceState::Processing },
                paste: p,
            },
        ),
        request_step(VoiceState::Listening, paste_default, "stop"@, None) == (
            VoiceState::Processing,
            ActionView::StopRecorder {
                announce: MessageView::State { state: VoiceState::Processing },
                paste: paste_default,
            },
        ),
        request_step(VoiceState::Listening, paste_default, "toggle"@, Some(p)) == (
            VoiceState::Processing,
            ActionView::StopRecorder {
                announce: MessageView::State { state: VoiceState::Processing },
                paste: p,
            },
        ),
        request_step(VoiceState::Listening, false, "stop"@, Some(true))
            == (
            VoiceState::Processing,
            ActionView::StopRecorder {
                announce: MessageView::State { state: VoiceState::Processing },
                paste: true,
            },
        ),
        request_step(VoiceState::Listening, true, "stop"@, Some(false))
            == (
            VoiceState::Processing,
            ActionView::StopRecorder {
                announce: MessageView::State { state: VoiceState::Processing },
                paste: false,
            },
        ),
{
    lemma_command_names();
}

} // verus!
