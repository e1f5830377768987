//! From the stop of a recording to the delivery of its text: ask the daemon,
//! and fall back on a single run of the backend where no daemon answers.

use crate::faster_whisper::direct::{direct_notice, shown_error, transcribe_with_faster_whisper, RunResult};
use crate::helpers::Notification;
use crate::recording::stop::StopOutcome;
use crate::socket::{
    encode_request, interpretation, reaction_to, request_envelope, send_transcription_request,
    Exchange, Reaction, ReactionView,
};
use crate::text::{trim, view_of};
use vstd::prelude::*;
use vstd::string::StringExecFns;

verus! {

/// Which of the two paths transcribed the audio.
#[derive(Clone, Copy, Debug, PartialEq, Eq, Structural)]
pub enum Route {
    Daemon,
    Fallback,
}

/// One thing for the driver to do.
#[derive(Clone, Debug, PartialEq, Eq)]
pub enum Task {
    /// Show a notification.
    Notify(Notification),
    /// Remove the audio file.
    Remove(String),
    /// Connect to the daemon, send the payload, and read the response to its
    /// end. Reported back as `Event::Exchanged`.
    Exchange { socket_path: String, payload: String },
    /// Run the backend once on the audio file. Reported back as
    /// `Event::FellBack`.
    Fallback { audio_file: String, model: String },
    /// Hand the text to the output sink.
    Deliver { text: String, use_clipboard: bool, backend_name: String },
}

/// What the driver reports back.
#[derive(Clone, Debug, PartialEq, Eq)]
pub enum Event {
    /// How the stop of the recording ended.
    Stopped(StopOutcome),
    /// What came of the connection to the daemon.
    Exchanged(Exchange),
    /// How the run of the backend went.
    FellBack(RunResult),
}

/// How the operation ended.
#[derive(Clone, Debug, PartialEq, Eq)]
pub enum TranscribeOutcome {
    /// The text went to the output sink, transcribed by the path given.
    Delivered(Route),
    /// There was no recording to stop.
    NoRecording,
    /// The recording's file is not there.
    NoAudio,
    /// The recording holds no audio.
    EmptyAudio,
    /// The daemon answered that the backend failed, with this detail.
    BackendFailed(Option<String>),
    /// The daemon answered with a success from which no text can be read.
    MalformedResponse,
    /// No daemon answered, and the run of the backend failed too: both
    /// causes.
    FallbackFailed { daemon: String, fallback: String },
    /// The capture process could not be killed.
    KillFailed(u32),
    /// The recording could not be stopped for another reason.
    StopFailed,
    /// The driver reported what was not asked for.
    OutOfStep,
}

/// A task, with its texts as sequences of characters.
pub enum TaskView {
    Notify { title: Seq<char>, message: Seq<char>, timeout_ms: u32 },
    Remove(Seq<char>),
    Exchange { socket_path: Seq<char>, payload: Seq<char> },
    Fallback { audio_file: Seq<char>, model: Seq<char> },
    Deliver { text: Seq<char>, use_clipboard: bool, backend_name: Seq<char> },
}

/// An outcome, with its texts as sequences of characters.
pub enum OutcomeView {
    Delivered(Route),
    NoRecording,
    NoAudio,
    EmptyAudio,
    BackendFailed(Option<Seq<char>>),
    MalformedResponse,
    FallbackFailed { daemon: Seq<char>, fallback: Seq<char> },
    KillFailed(u32),
    StopFailed,
    OutOfStep,
}

impl View for Task {
    type V = TaskView;

    open spec fn view(&self) -> TaskView {
        match *self {
            Task::Notify(notice) => TaskView::Notify {
                title: notice.title@,
                message: notice.message@,
                timeout_ms: notice.timeout_ms,
            },
            Task::Remove(path) => TaskView::Remove(path@),
            Task::Exchange { socket_path, payload } => TaskView::Exchange {
                socket_path: socket_path@,
                payload: payload@,
            },
            Task::Fallback { audio_file, model } => TaskView::Fallback {
                audio_file: audio_file@,
                model: model@,
            },
            Task::Deliver { text, use_clipboard, backend_name } => TaskView::Deliver {
                text: text@,
                use_clipboard,
                backend_name: backend_name@,
            },
        }
    }
}

impl View for TranscribeOutcome {
    type V = OutcomeView;

    open spec fn view(&self) -> OutcomeView {
        match *self {
            TranscribeOutcome::Delivered(route) => OutcomeView::Delivered(route),
            TranscribeOutcome::NoRecording => OutcomeView::NoRecording,
            TranscribeOutcome::NoAudio => OutcomeView::NoAudio,
            TranscribeOutcome::EmptyAudio => OutcomeView::EmptyAudio,
            TranscribeOutcome::BackendFailed(detail) => OutcomeView::BackendFailed(view_of(detail)),
            TranscribeOutcome::MalformedResponse => OutcomeView::MalformedResponse,
            TranscribeOutcome::FallbackFailed { daemon, fallback } => OutcomeView::FallbackFailed {
                daemon: daemon@,
                fallback: fallback@,
            },
            TranscribeOutcome::KillFailed(pid) => OutcomeView::KillFailed(pid),
            TranscribeOutcome::StopFailed => OutcomeView::StopFailed,
            TranscribeOutcome::OutOfStep => OutcomeView::OutOfStep,
        }
    }
}

/// Where the operation stands: what it is waiting to hear.
#[derive(Clone, Copy, Debug, PartialEq, Eq, Structural)]
pub enum Phase {
    /// How the stop of the recording ended.
    Stopping,
    /// What the daemon answered.
    Exchanging,
    /// How the run of the backend went.
    FallingBack,
    /// Nothing more.
    Finished,
}

/// The state of one stop-and-transcribe.
#[derive(Clone, Debug)]
pub struct Transcription {
    phase: Phase,
    socket_path: String,
    use_clipboard: bool,
    model: String,
    acceleration: String,
    audio_file: String,
    daemon_fault: String,
}

/// The state of one stop-and-transcribe, with its texts as sequences of
/// characters.
pub struct TranscriptionModel {
    pub phase: Phase,
    pub socket_path: Seq<char>,
    pub use_clipboard: bool,
    pub model: Seq<char>,
    pub acceleration: Seq<char>,
    /// The recording, once there is one.
    pub audio_file: Seq<char>,
    /// Why the daemon was not reached, once it was not.
    pub daemon_fault: Seq<char>,
}

/// What one step comes to: the tasks to do in order, and the outcome where
/// the operation ends with them.
pub struct Turn {
    pub tasks: Vec<Task>,
    pub outcome: Option<TranscribeOutcome>,
}

/// What one step comes to, with its texts as sequences of characters.
pub struct TurnView {
    pub tasks: Seq<TaskView>,
    pub outcome: Option<OutcomeView>,
}

impl View for Transcription {
    type V = TranscriptionModel;

    closed spec fn view(&self) -> TranscriptionModel {
        TranscriptionModel {
            phase: self.phase,
            socket_path: self.socket_path@,
            use_clipboard: self.use_clipboard,
            model: self.model@,
            acceleration: self.acceleration@,
            audio_file: self.audio_file@,
            daemon_fault: self.daemon_fault@,
        }
    }
}

impl View for Turn {
    type V = TurnView;

    open spec fn view(&self) -> TurnView {
        TurnView {
            tasks: Seq::new(self.tasks@.len(), |i: int| self.tasks@[i]@),
            outcome: match self.outcome {
                Some(outcome) => Some(outcome@),
                None => None,
            },
        }
    }
}

/// The state in which the operation begins.
pub open spec fn transcribe_initial(
    socket_path: Seq<char>,
    use_clipboard: bool,
    model: Seq<char>,
    acceleration: Seq<char>,
) -> TranscriptionModel {
    TranscriptionModel {
        phase: Phase::Stopping,
        socket_path,
        use_clipboard,
        model,
        acceleration,
        audio_file: Seq::empty(),
        daemon_fault: Seq::empty(),
    }
}

/// A notification under the title `Voice Input`, shown for two seconds.
pub open spec fn plain_notice(message: Seq<char>) -> TaskView {
    TaskView::Notify { title: "Voice Input"@, message, timeout_ms: 2000 }
}

/// A notification under the daemon's title, shown for two seconds.
pub open spec fn daemon_notice(message: Seq<char>) -> TaskView {
    TaskView::Notify { title: "Voice Input (daemon)"@, message, timeout_ms: 2000 }
}

/// The notification that transcription has begun.
pub open spec fn transcribing_message(acceleration: Seq<char>, model: Seq<char>) -> Seq<char> {
    "⏳ Transcribing...\nBackend: faster-whisper ("@ + acceleration + ") | Model: "@ + model
}

/// The operation ends with `tasks` and `outcome`.
pub open spec fn ends_with(m: TranscriptionModel, tasks: Seq<TaskView>, outcome: OutcomeView) -> (
    TranscriptionModel,
    TurnView,
) {
    (
        TranscriptionModel { phase: Phase::Finished, ..m },
        TurnView { tasks, outcome: Some(outcome) },
    )
}

/// What follows the stop of the recording.
pub open spec fn after_stop(m: TranscriptionModel, stopped: StopOutcome) -> (
    TranscriptionModel,
    TurnView,
) {
    match stopped {
        StopOutcome::Artifact(path) => (
            TranscriptionModel { phase: Phase::Exchanging, audio_file: path@, ..m },
            TurnView {
                tasks: seq![
                    plain_notice(transcribing_message(m.acceleration, m.model)),
                    TaskView::Exchange {
                        socket_path: m.socket_path,
                        payload: request_envelope(path@),
                    },
                ],
                outcome: None,
            },
        ),
        StopOutcome::NotFound => ends_with(
            m,
            seq![daemon_notice("❌ No recording found"@)],
            OutcomeView::NoRecording,
        ),
        StopOutcome::MissingArtifact(_) => ends_with(
            m,
            seq![plain_notice("❌ No audio recorded\nBackend: faster-whisper"@)],
            OutcomeView::NoAudio,
        ),
        StopOutcome::EmptyArtifact(path) => ends_with(
            m,
            seq![
                plain_notice("❌ Audio file is empty\nBackend: faster-whisper"@),
                TaskView::Remove(path@),
            ],
            OutcomeView::EmptyAudio,
        ),
        StopOutcome::KillFailed(pid) => ends_with(m, seq![], OutcomeView::KillFailed(pid)),
        StopOutcome::ImportFailed => ends_with(m, seq![], OutcomeView::StopFailed),
        StopOutcome::OutOfStep => ends_with(m, seq![], OutcomeView::StopFailed),
    }
}

/// What follows the daemon's answer, or the lack of one.
pub open spec fn after_exchange(m: TranscriptionModel, exchange: Exchange) -> (
    TranscriptionModel,
    TurnView,
) {
    match exchange {
        Exchange::Answered(response) => {
            match reaction_to(interpretation(response@), "faster-whisper"@, m.use_clipboard) {
                ReactionView::Deliver { text, use_clipboard, backend_name } => ends_with(
                    m,
                    seq![
                        TaskView::Deliver { text, use_clipboard, backend_name },
                        TaskView::Remove(m.audio_file),
                    ],
                    OutcomeView::Delivered(Route::Daemon),
                ),
                ReactionView::Malformed { message } => ends_with(
                    m,
                    seq![plain_notice(message), TaskView::Remove(m.audio_file)],
                    OutcomeView::MalformedResponse,
                ),
                ReactionView::Failed { message, detail } => ends_with(
                    m,
                    seq![plain_notice(message), TaskView::Remove(m.audio_file)],
                    OutcomeView::BackendFailed(detail),
                ),
            }
        },
        Exchange::Unreachable(fault) => (
            TranscriptionModel { phase: Phase::FallingBack, daemon_fault: fault@, ..m },
            TurnView {
                tasks: seq![
                    daemon_notice("⚠️ Daemon not running, using direct mode"@),
                    TaskView::Notify {
                        title: "Voice Input (faster-whisper)"@,
                        message: "⏳ Transcribing... ("@ + m.acceleration + ")"@,
                        timeout_ms: 2000,
                    },
                    TaskView::Fallback { audio_file: m.audio_file, model: m.model },
                ],
                outcome: None,
            },
        ),
    }
}

/// What follows the run of the backend.
pub open spec fn after_fallback(m: TranscriptionModel, run: RunResult) -> (
    TranscriptionModel,
    TurnView,
) {
    match run {
        RunResult::Ran { success, stdout, stderr } => {
            if success {
                ends_with(
                    m,
                    seq![
                        TaskView::Deliver {
                            text: trim(stdout@),
                            use_clipboard: m.use_clipboard,
                            backend_name: "faster-whisper"@,
                        },
                        TaskView::Remove(m.audio_file),
                    ],
                    OutcomeView::Delivered(Route::Fallback),
                )
            } else {
                ends_with(
                    m,
                    seq![
                        TaskView::Notify {
                            title: "Voice Input (faster-whisper)"@,
                            message: "❌ Transcription failed\n"@ + shown_error(stderr@),
                            timeout_ms: 3000,
                        },
                        TaskView::Remove(m.audio_file),
                    ],
                    OutcomeView::FallbackFailed {
                        daemon: m.daemon_fault,
                        fallback: "Transcription failed: "@ + stderr@,
                    },
                )
            }
        },
        RunResult::NotRun => ends_with(
            m,
            seq![TaskView::Remove(m.audio_file)],
            OutcomeView::FallbackFailed {
                daemon: m.daemon_fault,
                fallback: "Failed to run faster-whisper transcription"@,
            },
        ),
    }
}

/// One step of the operation: from the state and what the driver reports,
/// the next state, the tasks to do, and the outcome where the operation ends.
pub open spec fn transcribe_next(m: TranscriptionModel, event: Event) -> (
    TranscriptionModel,
    TurnView,
) {
    match (m.phase, event) {
        (Phase::Stopping, Event::Stopped(stopped)) => after_stop(m, stopped),
        (Phase::Exchanging, Event::Exchanged(exchange)) => after_exchange(m, exchange),
        (Phase::FallingBack, Event::FellBack(run)) => after_fallback(m, run),
        _ => ends_with(m, seq![], OutcomeView::OutOfStep),
    }
}

fn notice(title: &str, message: &str) -> (task: Task)
    ensures
        task@ == (TaskView::Notify { title: title@, message: message@, timeout_ms: 2000 }),
{
    Task::Notify(
        Notification {
            title: String::from_str(title),
            message: String::from_str(message),
            timeout_ms: 2000,
        },
    )
}

impl Transcription {
    /// Begins a stop-and-transcribe. The driver stops the recording and
    /// reports how that ended.
    pub fn new(socket_path: &str, use_clipboard: bool, model: &str, acceleration: &str) -> (begun:
        Transcription)
        ensures
            begun@ == transcribe_initial(socket_path@, use_clipboard, model@, acceleration@),
    {
        Transcription {
            phase: Phase::Stopping,
            socket_path: String::from_str(socket_path),
            use_clipboard,
            model: String::from_str(model),
            acceleration: String::from_str(acceleration),
            audio_file: String::new(),
            daemon_fault: String::new(),
        }
    }

    /// Where the operation stands.
    pub fn phase(&self) -> (phase: Phase)
        ensures
            phase == self@.phase,
    {
        self.phase
    }

    fn end(self, tasks: Vec<Task>, outcome: TranscribeOutcome) -> (next: (Transcription, Turn))
        ensures
            (next.0@, next.1@) == ends_with(
                self@,
                Seq::new(tasks@.len(), |i: int| tasks@[i]@),
                outcome@,
            ),
    {
        (Transcription { phase: Phase::Finished, ..self }, Turn { tasks, outcome: Some(outcome) })
    }

    fn stopped(self, stopped: StopOutcome) -> (next: (Transcription, Turn))
        ensures
            (next.0@, next.1@) == after_stop(self@, stopped),
    {
        let mut tasks: Vec<Task> = Vec::new();
        match stopped {
            StopOutcome::Artifact(path) => {
                let mut message = String::from_str("⏳ Transcribing...\nBackend: faster-whisper (");
                message.append(self.acceleration.as_str());
                message.append(") | Model: ");
                message.append(self.model.as_str());
                tasks.push(notice("Voice Input", message.as_str()));
                tasks.push(
                    Task::Exchange {
                        socket_path: self.socket_path.clone(),
                        payload: encode_request(path.as_str()),
                    },
                );
                let turn = Turn { tasks, outcome: None };
                assert(turn@.tasks =~= after_stop(self@, stopped).1.tasks);
                (Transcription { phase: Phase::Exchanging, audio_file: path, ..self }, turn)
            },
            StopOutcome::NotFound => {
                tasks.push(notice("Voice Input (daemon)", "❌ No recording found"));
                assert(Seq::new(tasks@.len(), |i: int| tasks@[i]@) =~= seq![
                    daemon_notice("❌ No recording found"@),
                ]);
                self.end(tasks, TranscribeOutcome::NoRecording)
            },
            StopOutcome::MissingArtifact(_) => {
                tasks.push(notice("Voice Input", "❌ No audio recorded\nBackend: faster-whisper"));
                assert(Seq::new(tasks@.len(), |i: int| tasks@[i]@) =~= seq![
                    plain_notice("❌ No audio recorded\nBackend: faster-whisper"@),
                ]);
                self.end(tasks, TranscribeOutcome::NoAudio)
            },
            StopOutcome::EmptyArtifact(path) => {
                tasks.push(notice("Voice Input", "❌ Audio file is empty\nBackend: faster-whisper"));
                tasks.push(Task::Remove(path));
                assert(Seq::new(tasks@.len(), |i: int| tasks@[i]@) =~= seq![
                    plain_notice("❌ Audio file is empty\nBackend: faster-whisper"@),
                    TaskView::Remove(path@),
                ]);
                self.end(tasks, TranscribeOutcome::EmptyAudio)
            },
            StopOutcome::KillFailed(pid) => {
                assert(Seq::new(tasks@.len(), |i: int| tasks@[i]@) =~= Seq::<TaskView>::empty());
                self.end(tasks, TranscribeOutcome::KillFailed(pid))
            },
            StopOutcome::ImportFailed => {
                assert(Seq::new(tasks@.len(), |i: int| tasks@[i]@) =~= Seq::<TaskView>::empty());
                self.end(tasks, TranscribeOutcome::StopFailed)
            },
            StopOutcome::OutOfStep => {
                assert(Seq::new(tasks@.len(), |i: int| tasks@[i]@) =~= Seq::<TaskView>::empty());
                self.end(tasks, TranscribeOutcome::StopFailed)
            },
        }
    }

    fn exchanged(self, exchange: Exchange) -> (next: (Transcription, Turn))
        ensures
            (next.0@, next.1@) == after_exchange(self@, exchange),
    {
        let mut tasks: Vec<Task> = Vec::new();
        match send_transcription_request(exchange, "faster-whisper", self.use_clipboard) {
            Ok(Reaction::Deliver { text, use_clipboard, backend_name }) => {
                tasks.push(Task::Deliver { text, use_clipboard, backend_name });
                tasks.push(Task::Remove(self.audio_file.clone()));
                assert(Seq::new(tasks@.len(), |i: int| tasks@[i]@) =~= after_exchange(
                    self@,
                    exchange,
                ).1.tasks);
                self.end(tasks, TranscribeOutcome::Delivered(Route::Daemon))
            },
            Ok(Reaction::Malformed { notice }) => {
                tasks.push(Task::Notify(notice));
                tasks.push(Task::Remove(self.audio_file.clone()));
                assert(Seq::new(tasks@.len(), |i: int| tasks@[i]@) =~= after_exchange(
                    self@,
                    exchange,
                ).1.tasks);
                self.end(tasks, TranscribeOutcome::MalformedResponse)
            },
            Ok(Reaction::Failed { notice, detail }) => {
                tasks.push(Task::Notify(notice));
                tasks.push(Task::Remove(self.audio_file.clone()));
                assert(Seq::new(tasks@.len(), |i: int| tasks@[i]@) =~= after_exchange(
                    self@,
                    exchange,
                ).1.tasks);
                self.end(tasks, TranscribeOutcome::BackendFailed(detail))
            },
            Err(fault) => {
                tasks.push(notice("Voice Input (daemon)", "⚠️ Daemon not running, using direct mode"));
                tasks.push(Task::Notify(direct_notice(self.acceleration.as_str())));
                tasks.push(
                    Task::Fallback { audio_file: self.audio_file.clone(), model: self.model.clone() },
                );
                let turn = Turn { tasks, outcome: None };
                assert(turn@.tasks =~= after_exchange(self@, exchange).1.tasks);
                (Transcription { phase: Phase::FallingBack, daemon_fault: fault, ..self }, turn)
            },
        }
    }

    fn fell_back(self, run: RunResult) -> (next: (Transcription, Turn))
        ensures
            (next.0@, next.1@) == after_fallback(self@, run),
    {
        let mut tasks: Vec<Task> = Vec::new();
        match transcribe_with_faster_whisper(run) {
            Ok(text) => {
                tasks.push(
                    Task::Deliver {
                        text,
                        use_clipboard: self.use_clipboard,
                        backend_name: String::from_str("faster-whisper"),
                    },
                );
                tasks.push(Task::Remove(self.audio_file.clone()));
                assert(Seq::new(tasks@.len(), |i: int| tasks@[i]@) =~= after_fallback(
                    self@,
                    run,
                ).1.tasks);
                self.end(tasks, TranscribeOutcome::Delivered(Route::Fallback))
            },
            Err(failure) => {
                match failure.notice {
                    Some(shown) => {
                        tasks.push(Task::Notify(shown));
                    },
                    None => {},
                }
                tasks.push(Task::Remove(self.audio_file.clone()));
                assert(Seq::new(tasks@.len(), |i: int| tasks@[i]@) =~= after_fallback(
                    self@,
                    run,
                ).1.tasks);
                let daemon = self.daemon_fault.clone();
                self.end(tasks, TranscribeOutcome::FallbackFailed { daemon, fallback: failure.detail })
            },
        }
    }
}

/// Advances a stop-and-transcribe by one step: takes what the driver reports
/// and gives the tasks to do next, in order, with the outcome where the
/// operation ends.
///
/// Where no daemon answers, the backend is run once in its place; where that
/// fails too, the outcome carries both causes. A report of what was not asked
/// for ends the operation with `TranscribeOutcome::OutOfStep`.
pub fn stop_and_transcribe_daemon(state: Transcription, event: Event) -> (next: (
    Transcription,
    Turn,
))
    ensures
        (next.0@, next.1@) == transcribe_next(state@, event),
{
    match state.phase {
        Phase::Stopping => match event {
            Event::Stopped(stopped) => state.stopped(stopped),
            _ => {
                let tasks: Vec<Task> = Vec::new();
                assert(Seq::new(tasks@.len(), |i: int| tasks@[i]@) =~= Seq::<TaskView>::empty());
                state.end(tasks, TranscribeOutcome::OutOfStep)
            },
        },
        Phase::Exchanging => match event {
            Event::Exchanged(exchange) => state.exchanged(exchange),
            _ => {
                let tasks: Vec<Task> = Vec::new();
                assert(Seq::new(tasks@.len(), |i: int| tasks@[i]@) =~= Seq::<TaskView>::empty());
                state.end(tasks, TranscribeOutcome::OutOfStep)
            },
        },
        Phase::FallingBack => match event {
            Event::FellBack(run) => state.fell_back(run),
            _ => {
                let tasks: Vec<Task> = Vec::new();
                assert(Seq::new(tasks@.len(), |i: int| tasks@[i]@) =~= Seq::<TaskView>::empty());
                state.end(tasks, TranscribeOutcome::OutOfStep)
            },
        },
        Phase::Finished => {
            let tasks: Vec<Task> = Vec::new();
            assert(Seq::new(tasks@.len(), |i: int| tasks@[i]@) =~= Seq::<TaskView>::empty());
            state.end(tasks, TranscribeOutcome::OutOfStep)
        },
    }
}

} // verus!
