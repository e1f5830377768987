//! Stopping the recording in progress: wait briefly for the session record,
//! terminate the capture process by escalation, clear the record and what is
//! left of the lock, and hand back the recording.

use crate::artifact::{artifact_state, classify_artifact, override_name, override_path, ArtifactState};
use crate::escalation::{
    escalation_stages, next_move, standard_stages, terminate_with_escalation, Stage, Verdict,
};
use crate::probe::{is_process_running, shows_alive, valid_pid};
use crate::record::{parse_record, read_record, RecordContent};
use crate::recording::session::{Key, Reply, ReplyView, Request, RequestView, Step, StepView};
use crate::text::{trim, trim_text, view_of};
use vstd::prelude::*;
use vstd::string::StringExecFns;

verus! {

/// How often `stop` looks for a session record that is not there yet.
pub const RECORD_POLLS: u32 = 10;

/// Milliseconds between two looks for the session record.
pub const RECORD_POLL_MS: u64 = 20;

/// How stopping a recording ended.
#[derive(Clone, Debug, PartialEq, Eq)]
pub enum StopOutcome {
    /// The recording, ready to be transcribed.
    Artifact(String),
    /// There was no recording to stop.
    NotFound,
    /// A recording was made, but its file is not there.
    MissingArtifact(String),
    /// A recording was made, but its file holds no audio.
    EmptyArtifact(String),
    /// The capture process survived every stage of the escalation.
    KillFailed(u32),
    /// The caller's own audio file could not be copied.
    ImportFailed,
    /// The driver's reply did not answer the pending request.
    OutOfStep,
}

/// How stopping a recording ended, with its texts as sequences of characters.
pub enum StopOutcomeView {
    Artifact(Seq<char>),
    NotFound,
    MissingArtifact(Seq<char>),
    EmptyArtifact(Seq<char>),
    KillFailed(u32),
    ImportFailed,
    OutOfStep,
}

impl View for StopOutcome {
    type V = StopOutcomeView;

    open spec fn view(&self) -> StopOutcomeView {
        match *self {
            StopOutcome::Artifact(path) => StopOutcomeView::Artifact(path@),
            StopOutcome::NotFound => StopOutcomeView::NotFound,
            StopOutcome::MissingArtifact(path) => StopOutcomeView::MissingArtifact(path@),
            StopOutcome::EmptyArtifact(path) => StopOutcomeView::EmptyArtifact(path@),
            StopOutcome::KillFailed(pid) => StopOutcomeView::KillFailed(pid),
            StopOutcome::ImportFailed => StopOutcomeView::ImportFailed,
            StopOutcome::OutOfStep => StopOutcomeView::OutOfStep,
        }
    }
}

/// Where the stopping of a recording stands: the request that is pending.
#[derive(Clone, Copy, Debug, PartialEq, Eq, Structural)]
pub enum StopPhase {
    /// Waiting to hear whether the session record exists.
    Awaiting,
    /// Reading the session record.
    Reading,
    /// Probing the capture process for the first time.
    Probing,
    /// A stage of the escalation is under way.
    Striking,
    /// Removing the session record.
    ClearingRecord,
    /// Removing what is left of the lock.
    ClearingLock,
    /// Removing the pointer of a session whose capture process had died.
    ClearingPointer,
    /// Reading the clock, to name the slot for the caller's own audio file.
    Timing,
    /// Copying the caller's own audio file.
    Importing,
    /// Reading the pointer to the recording.
    Locating,
    /// Removing the pointer to the recording.
    Forgetting,
    /// Looking up the size of the recording.
    Inspecting,
    /// The outcome has been handed out.
    Finished,
}

/// What follows once the record and the lock have been cleared.
#[derive(Clone, Copy, Debug, PartialEq, Eq, Structural)]
pub enum Sequel {
    /// Find the recording and hand it back.
    Resolve,
    /// Report that there was nothing to stop.
    Nothing,
    /// The capture process had died: clear the pointer too, then report
    /// that there was nothing to stop.
    Crashed,
    /// Report that the capture process could not be killed.
    Stuck,
}

/// The state of one `stop`.
#[derive(Clone, Debug)]
pub struct StopState {
    phase: StopPhase,
    runtime_dir: String,
    audio_file_override: Option<String>,
    stages: Vec<Stage>,
    max_polls: u32,
    poll_ms: u64,
    polls: u32,
    pid: u32,
    delivered: usize,
    sequel: Sequel,
    artifact: String,
}

/// The state of one `stop`, with its texts as sequences of characters.
pub struct StopModel {
    pub phase: StopPhase,
    pub runtime_dir: Seq<char>,
    pub audio_file_override: Option<Seq<char>>,
    pub stages: Seq<Stage>,
    pub max_polls: u32,
    pub poll_ms: u64,
    /// Polls made after the first look.
    pub polls: u32,
    /// The capture process named by the record.
    pub pid: u32,
    /// Stages of the escalation delivered so far.
    pub delivered: usize,
    pub sequel: Sequel,
    /// The recording that is being handed back.
    pub artifact: Seq<char>,
}

impl View for StopState {
    type V = StopModel;

    closed spec fn view(&self) -> StopModel {
        StopModel {
            phase: self.phase,
            runtime_dir: self.runtime_dir@,
            audio_file_override: view_of(self.audio_file_override),
            stages: self.stages@,
            max_polls: self.max_polls,
            poll_ms: self.poll_ms,
            polls: self.polls,
            pid: self.pid,
            delivered: self.delivered,
            sequel: self.sequel,
            artifact: self.artifact@,
        }
    }
}

/// The state in which `stop` begins, its first request being pending.
pub open spec fn stop_initial(
    runtime_dir: Seq<char>,
    audio_file_override: Option<Seq<char>>,
    stages: Seq<Stage>,
    max_polls: u32,
    poll_ms: u64,
) -> StopModel {
    StopModel {
        phase: StopPhase::Awaiting,
        runtime_dir,
        audio_file_override,
        stages,
        max_polls,
        poll_ms,
        polls: 0,
        pid: 0,
        delivered: 0,
        sequel: Sequel::Resolve,
        artifact: Seq::empty(),
    }
}

/// The first request of `stop`: look for the session record at once.
pub open spec fn stop_first() -> RequestView {
    RequestView::Await { pause_ms: 0 }
}

/// Ends the operation with `outcome`.
pub open spec fn stop_finish(
    m: StopModel,
    outcome: StopOutcomeView,
) -> (StopModel, StepView<StopOutcomeView>) {
    (StopModel { phase: StopPhase::Finished, ..m }, StepView::Done(outcome))
}

/// Clears the record, then the lock, then goes on with `sequel`.
pub open spec fn stop_clear(
    m: StopModel,
    sequel: Sequel,
) -> (StopModel, StepView<StopOutcomeView>) {
    (
        StopModel { phase: StopPhase::ClearingRecord, sequel, ..m },
        StepView::Ask(RequestView::Delete(Key::Record)),
    )
}

/// Goes on with the escalation against the capture process, which was found
/// alive or not after `m.delivered` stages.
pub open spec fn stop_escalate(
    m: StopModel,
    alive: bool,
) -> (StopModel, StepView<StopOutcomeView>) {
    match next_move(m.stages, m.delivered as nat, alive) {
        Verdict::Stopped => stop_clear(m, Sequel::Resolve),
        Verdict::Strike(stage) => (
            StopModel { phase: StopPhase::Striking, delivered: (m.delivered + 1) as usize, ..m },
            StepView::Ask(
                RequestView::Strike { pid: m.pid, signal: stage.signal, pause_ms: stage.pause_ms },
            ),
        ),
        Verdict::Stuck => (
            StopModel { phase: StopPhase::ClearingLock, sequel: Sequel::Stuck, ..m },
            StepView::Ask(RequestView::Delete(Key::Lock)),
        ),
    }
}

/// Begins to find the recording: the caller's own file if there is one,
/// else the one that `start` left a pointer to.
pub open spec fn stop_resolve(m: StopModel) -> (StopModel, StepView<StopOutcomeView>) {
    if m.audio_file_override is Some {
        (StopModel { phase: StopPhase::Timing, ..m }, StepView::Ask(RequestView::Clock))
    } else {
        (
            StopModel { phase: StopPhase::Locating, ..m },
            StepView::Ask(RequestView::Get(Key::Pointer)),
        )
    }
}

/// The outcome for a recording at `path` whose file has the size `size`.
pub open spec fn stop_verdict(path: Seq<char>, size: Option<u64>) -> StopOutcomeView {
    match artifact_state(size) {
        ArtifactState::Missing => StopOutcomeView::MissingArtifact(path),
        ArtifactState::Empty => StopOutcomeView::EmptyArtifact(path),
        ArtifactState::Ready => StopOutcomeView::Artifact(path),
    }
}

/// One step of `stop`: from the state and the reply to the pending request,
/// the next state and the next request or the outcome.
pub open spec fn stop_next(
    m: StopModel,
    reply: ReplyView,
) -> (StopModel, StepView<StopOutcomeView>) {
    match (m.phase, reply) {
        (StopPhase::Awaiting, ReplyView::Present(found)) => {
            if found {
                (
                    StopModel { phase: StopPhase::Reading, ..m },
                    StepView::Ask(RequestView::Get(Key::Record)),
                )
            } else if m.polls < m.max_polls {
                (
                    StopModel { polls: (m.polls + 1) as u32, ..m },
                    StepView::Ask(RequestView::Await { pause_ms: m.poll_ms }),
                )
            } else {
                stop_clear(m, Sequel::Resolve)
            }
        },
        (StopPhase::Reading, ReplyView::Value(None)) => stop_clear(m, Sequel::Resolve),
        (StopPhase::Reading, ReplyView::Value(Some(text))) => {
            match read_record(text) {
                RecordContent::Blank => stop_clear(m, Sequel::Nothing),
                RecordContent::Garbage => stop_clear(m, Sequel::Resolve),
                RecordContent::Pid(pid) => (
                    StopModel { phase: StopPhase::Probing, pid, delivered: 0, ..m },
                    StepView::Ask(RequestView::Probe { pid }),
                ),
            }
        },
        (StopPhase::Probing, ReplyView::Probed(outcome)) => {
            if valid_pid(m.pid) && shows_alive(outcome) {
                stop_escalate(m, true)
            } else {
                stop_clear(m, Sequel::Crashed)
            }
        },
        (StopPhase::Striking, ReplyView::Probed(outcome)) => stop_escalate(
            m,
            valid_pid(m.pid) && shows_alive(outcome),
        ),
        (StopPhase::ClearingRecord, ReplyView::Done(_)) => (
            StopModel { phase: StopPhase::ClearingLock, ..m },
            StepView::Ask(RequestView::Delete(Key::Lock)),
        ),
        (StopPhase::ClearingLock, ReplyView::Done(_)) => {
            match m.sequel {
                Sequel::Resolve => stop_resolve(m),
                Sequel::Nothing => stop_finish(m, StopOutcomeView::NotFound),
                Sequel::Crashed => (
                    StopModel { phase: StopPhase::ClearingPointer, ..m },
                    StepView::Ask(RequestView::Delete(Key::Pointer)),
                ),
                Sequel::Stuck => stop_finish(m, StopOutcomeView::KillFailed(m.pid)),
            }
        },
        (StopPhase::ClearingPointer, ReplyView::Done(_)) => stop_finish(m, StopOutcomeView::NotFound),
        (StopPhase::Timing, ReplyView::Time(millis)) => {
            match m.audio_file_override {
                Some(from) => {
                    let to = override_name(m.runtime_dir, millis as nat);
                    (
                        StopModel { phase: StopPhase::Importing, artifact: to, ..m },
                        StepView::Ask(RequestView::Import { from, to }),
                    )
                },
                None => stop_finish(m, StopOutcomeView::OutOfStep),
            }
        },
        (StopPhase::Importing, ReplyView::Done(ok)) => {
            if ok {
                (
                    StopModel { phase: StopPhase::Inspecting, ..m },
                    StepView::Ask(RequestView::Inspect { path: m.artifact }),
                )
            } else {
                stop_finish(m, StopOutcomeView::ImportFailed)
            }
        },
        (StopPhase::Locating, ReplyView::Value(None)) => stop_finish(m, StopOutcomeView::NotFound),
        (StopPhase::Locating, ReplyView::Value(Some(text))) => (
            StopModel { phase: StopPhase::Forgetting, artifact: trim(text), ..m },
            StepView::Ask(RequestView::Delete(Key::Pointer)),
        ),
        (StopPhase::Forgetting, ReplyView::Done(_)) => (
            StopModel { phase: StopPhase::Inspecting, ..m },
            StepView::Ask(RequestView::Inspect { path: m.artifact }),
        ),
        (StopPhase::Inspecting, ReplyView::Size(size)) => stop_finish(
            m,
            stop_verdict(m.artifact, size),
        ),
        _ => stop_finish(m, StopOutcomeView::OutOfStep),
    }
}

impl StopState {
    /// Begins a `stop` with the standard stages and polling: the state, and
    /// the first request.
    pub fn new(
        runtime_dir: &str,
        audio_file_override: Option<&str>,
    ) -> (begun: (StopState, Request))
        ensures
            begun.0@ == stop_initial(
                runtime_dir@,
                match audio_file_override {
                    Some(path) => Some(path@),
                    None => None,
                },
                standard_stages(),
                RECORD_POLLS,
                RECORD_POLL_MS,
            ),
            begun.1@ == stop_first(),
    {
        StopState::with_policy(
            runtime_dir,
            audio_file_override,
            escalation_stages(),
            RECORD_POLLS,
            RECORD_POLL_MS,
        )
    }

    /// Begins a `stop` with the given stages, and with `max_polls` further
    /// looks for the session record, `poll_ms` milliseconds apart.
    pub fn with_policy(
        runtime_dir: &str,
        audio_file_override: Option<&str>,
        stages: Vec<Stage>,
        max_polls: u32,
        poll_ms: u64,
    ) -> (begun: (StopState, Request))
        ensures
            begun.0@ == stop_initial(
                runtime_dir@,
                match audio_file_override {
                    Some(path) => Some(path@),
                    None => None,
                },
                stages@,
                max_polls,
                poll_ms,
            ),
            begun.1@ == stop_first(),
    {
        let state = StopState {
            phase: StopPhase::Awaiting,
            runtime_dir: String::from_str(runtime_dir),
            audio_file_override: match audio_file_override {
                Some(path) => Some(String::from_str(path)),
                None => None,
            },
            stages,
            max_polls,
            poll_ms,
            polls: 0,
            pid: 0,
            delivered: 0,
            sequel: Sequel::Resolve,
            artifact: String::new(),
        };
        (state, Request::Await { pause_ms: 0 })
    }

    /// Where the operation stands.
    pub fn phase(&self) -> (phase: StopPhase)
        ensures
            phase == self@.phase,
    {
        self.phase
    }

    fn finish(self, outcome: StopOutcome) -> (next: (StopState, Step<StopOutcome>))
        ensures
            (next.0@, next.1@) == stop_finish(self@, outcome@),
    {
        (StopState { phase: StopPhase::Finished, ..self }, Step::Done(outcome))
    }

    fn clear(self, sequel: Sequel) -> (next: (StopState, Step<StopOutcome>))
        ensures
            (next.0@, next.1@) == stop_clear(self@, sequel),
    {
        (
            StopState { phase: StopPhase::ClearingRecord, sequel, ..self },
            Step::Ask(Request::Delete(Key::Record)),
        )
    }

    fn escalate(self, alive: bool) -> (next: (StopState, Step<StopOutcome>))
        ensures
            (next.0@, next.1@) == stop_escalate(self@, alive),
    {
        let count = self.stages.len();
        match terminate_with_escalation(&self.stages, self.delivered, alive) {
            Verdict::Stopped => self.clear(Sequel::Resolve),
            Verdict::Strike(stage) => {
                assert(self.delivered < count);
                let pid = self.pid;
                let delivered = self.delivered + 1;
                (
                    StopState { phase: StopPhase::Striking, delivered, ..self },
                    Step::Ask(
                        Request::Strike { pid, signal: stage.signal, pause_ms: stage.pause_ms },
                    ),
                )
            },
            Verdict::Stuck => (
                StopState { phase: StopPhase::ClearingLock, sequel: Sequel::Stuck, ..self },
                Step::Ask(Request::Delete(Key::Lock)),
            ),
        }
    }

    fn resolve(self) -> (next: (StopState, Step<StopOutcome>))
        ensures
            (next.0@, next.1@) == stop_resolve(self@),
    {
        if self.audio_file_override.is_some() {
            (StopState { phase: StopPhase::Timing, ..self }, Step::Ask(Request::Clock))
        } else {
            (StopState { phase: StopPhase::Locating, ..self }, Step::Ask(Request::Get(Key::Pointer)))
        }
    }

    fn inspect(self) -> (next: (StopState, Step<StopOutcome>))
        ensures
            next.0@ == (StopModel { phase: StopPhase::Inspecting, ..self@ }),
            next.1@ == StepView::<StopOutcomeView>::Ask(RequestView::Inspect { path: self@.artifact }),
    {
        let path = self.artifact.clone();
        (StopState { phase: StopPhase::Inspecting, ..self }, Step::Ask(Request::Inspect { path }))
    }
}

/// The outcome for the recording at `path` whose file has the size `size`.
pub fn judge_artifact(path: String, size: Option<u64>) -> (outcome: StopOutcome)
    ensures
        outcome@ == stop_verdict(path@, size),
{
    match classify_artifact(size) {
        ArtifactState::Missing => StopOutcome::MissingArtifact(path),
        ArtifactState::Empty => StopOutcome::EmptyArtifact(path),
        ArtifactState::Ready => StopOutcome::Artifact(path),
    }
}

/// Advances the stopping of a recording by one step: takes the reply to the
/// pending request and gives the next request, or the outcome.
///
/// A reply that does not answer the pending request ends the operation with
/// `StopOutcome::OutOfStep`.
pub fn stop_recording(state: StopState, reply: Reply) -> (next: (StopState, Step<StopOutcome>))
    ensures
        (next.0@, next.1@) == stop_next(state@, reply@),
{
    match state.phase {
        StopPhase::Awaiting => match reply {
            Reply::Present(found) => {
                if found {
                    (
                        StopState { phase: StopPhase::Reading, ..state },
                        Step::Ask(Request::Get(Key::Record)),
                    )
                } else if state.polls < state.max_polls {
                    let polls = state.polls + 1;
                    let pause_ms = state.poll_ms;
                    (StopState { polls, ..state }, Step::Ask(Request::Await { pause_ms }))
                } else {
                    state.clear(Sequel::Resolve)
                }
            },
            _ => state.finish(StopOutcome::OutOfStep),
        },
        StopPhase::Reading => match reply {
            Reply::Value(None) => state.clear(Sequel::Resolve),
            Reply::Value(Some(text)) => match parse_record(text.as_str()) {
                RecordContent::Blank => state.clear(Sequel::Nothing),
                RecordContent::Garbage => state.clear(Sequel::Resolve),
                RecordContent::Pid(pid) => (
                    StopState { phase: StopPhase::Probing, pid, delivered: 0, ..state },
                    Step::Ask(Request::Probe { pid }),
                ),
            },
            _ => state.finish(StopOutcome::OutOfStep),
        },
        StopPhase::Probing => match reply {
            Reply::Probed(outcome) => {
                if is_process_running(state.pid, outcome) {
                    state.escalate(true)
                } else {
                    state.clear(Sequel::Crashed)
                }
            },
            _ => state.finish(StopOutcome::OutOfStep),
        },
        StopPhase::Striking => match reply {
            Reply::Probed(outcome) => {
                let alive = is_process_running(state.pid, outcome);
                state.escalate(alive)
            },
            _ => state.finish(StopOutcome::OutOfStep),
        },
        StopPhase::ClearingRecord => match reply {
            Reply::Done(_) => (
                StopState { phase: StopPhase::ClearingLock, ..state },
                Step::Ask(Request::Delete(Key::Lock)),
            ),
            _ => state.finish(StopOutcome::OutOfStep),
        },
        StopPhase::ClearingLock => match reply {
            Reply::Done(_) => match state.sequel {
                Sequel::Resolve => state.resolve(),
                Sequel::Nothing => state.finish(StopOutcome::NotFound),
                Sequel::Crashed => (
                    StopState { phase: StopPhase::ClearingPointer, ..state },
                    Step::Ask(Request::Delete(Key::Pointer)),
                ),
                Sequel::Stuck => {
                    let pid = state.pid;
                    state.finish(StopOutcome::KillFailed(pid))
                },
            },
            _ => state.finish(StopOutcome::OutOfStep),
        },
        StopPhase::ClearingPointer => match reply {
            Reply::Done(_) => state.finish(StopOutcome::NotFound),
            _ => state.finish(StopOutcome::OutOfStep),
        },
        StopPhase::Timing => match reply {
            Reply::Time(millis) => match &state.audio_file_override {
                Some(from) => {
                    let from = from.clone();
                    let to = override_path(state.runtime_dir.as_str(), millis);
                    let artifact = to.clone();
                    (
                        StopState { phase: StopPhase::Importing, artifact, ..state },
                        Step::Ask(Request::Import { from, to }),
                    )
                },
                None => state.finish(StopOutcome::OutOfStep),
            },
            _ => state.finish(StopOutcome::OutOfStep),
        },
        StopPhase::Importing => match reply {
            Reply::Done(ok) => {
                if ok {
                    state.inspect()
                } else {
                    state.finish(StopOutcome::ImportFailed)
                }
            },
            _ => state.finish(StopOutcome::OutOfStep),
        },
        StopPhase::Locating => match reply {
            Reply::Value(None) => state.finish(StopOutcome::NotFound),
            Reply::Value(Some(text)) => {
                let artifact = trim_text(text.as_str());
                (
                    StopState { phase: StopPhase::Forgetting, artifact, ..state },
                    Step::Ask(Request::Delete(Key::Pointer)),
                )
            },
            _ => state.finish(StopOutcome::OutOfStep),
        },
        StopPhase::Forgetting => match reply {
            Reply::Done(_) => state.inspect(),
            _ => state.finish(StopOutcome::OutOfStep),
        },
        StopPhase::Inspecting => match reply {
            Reply::Size(size) => {
                let outcome = judge_artifact(state.artifact.clone(), size);
                state.finish(outcome)
            },
            _ => state.finish(StopOutcome::OutOfStep),
        },
        StopPhase::Finished => state.finish(StopOutcome::OutOfStep),
    }
}

} // verus!
