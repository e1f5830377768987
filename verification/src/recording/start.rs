//! Starting a recording: sweep old recordings, terminate what an earlier
//! session left running, take the lock, launch the capture process and record
//! it, then give the lock back. A capture process that cannot be recorded is
//! terminated again.

use crate::artifact::{artifact_name, artifact_path};
use crate::faster_whisper::direct::Invocation;
use crate::helpers::Notification;
use crate::escalation::{
    escalation_stages, next_move, standard_stages, terminate_with_escalation, Stage, Verdict,
};
use crate::lock::{acquire_lock, attempt_result, LockError};
use crate::probe::{is_process_running, shows_alive, valid_pid};
use crate::record::{parse_record, read_record, render_record, RecordContent};
use crate::recording::session::{Key, Reply, ReplyView, Request, RequestView, Step, StepView};
use crate::text::{decimal, trim, trim_text, views};
use vstd::prelude::*;
use vstd::string::StringExecFns;

verus! {

/// How starting a recording ended.
#[derive(Clone, Debug, PartialEq, Eq)]
pub enum StartOutcome {
    /// The capture process `pid` is running and writes to `audio_file`.
    Started { pid: u32, audio_file: String },
    /// The capture process of an earlier session survived every stage of the
    /// escalation.
    KillFailed(u32),
    /// Another session is being started right now.
    Busy,
    /// The lock could not be taken, for the reason that the operating system
    /// gave.
    LockUnavailable(i32),
    /// The pointer to the recording could not be written.
    PointerNotWritten,
    /// The capture process could not be launched.
    SpawnFailed,
    /// The session record could not be written. The capture process that
    /// had been launched was terminated again.
    RecordNotWritten,
    /// The driver's reply did not answer the pending request.
    OutOfStep,
}

/// How starting a recording ended, with its texts as sequences of characters.
pub enum StartOutcomeView {
    Started { pid: u32, audio_file: Seq<char> },
    KillFailed(u32),
    Busy,
    LockUnavailable(i32),
    PointerNotWritten,
    SpawnFailed,
    RecordNotWritten,
    OutOfStep,
}

impl View for StartOutcome {
    type V = StartOutcomeView;

    open spec fn view(&self) -> StartOutcomeView {
        match *self {
            StartOutcome::Started { pid, audio_file } => StartOutcomeView::Started {
                pid,
                audio_file: audio_file@,
            },
            StartOutcome::KillFailed(pid) => StartOutcomeView::KillFailed(pid),
            StartOutcome::Busy => StartOutcomeView::Busy,
            StartOutcome::LockUnavailable(errno) => StartOutcomeView::LockUnavailable(errno),
            StartOutcome::PointerNotWritten => StartOutcomeView::PointerNotWritten,
            StartOutcome::SpawnFailed => StartOutcomeView::SpawnFailed,
            StartOutcome::RecordNotWritten => StartOutcomeView::RecordNotWritten,
            StartOutcome::OutOfStep => StartOutcomeView::OutOfStep,
        }
    }
}

/// Where the starting of a recording stands: the request that is pending.
#[derive(Clone, Copy, Debug, PartialEq, Eq, Structural)]
pub enum StartPhase {
    /// Reading the pointer of an earlier session, whose recording the sweep
    /// is to leave alone.
    Surveying,
    /// Old recordings are being removed.
    Sweeping,
    /// Reading the session record of an earlier session.
    Reading,
    /// Probing the capture process of an earlier session.
    Probing,
    /// A stage of the escalation is under way.
    Striking,
    /// Removing the session record of an earlier session.
    Clearing,
    /// Trying to take the lock.
    Locking,
    /// Reading the clock, to name the recording.
    Timing,
    /// Writing the pointer to the recording.
    Pointing,
    /// Launching the capture process.
    Spawning,
    /// Writing the session record.
    Recording,
    /// The record could not be written: a stage of the escalation against
    /// the capture process that was just launched is under way.
    Undoing,
    /// Giving the lock back.
    Releasing,
    /// The outcome has been handed out.
    Finished,
}

/// What the operation reports once the lock has been given back.
#[derive(Clone, Copy, Debug, PartialEq, Eq, Structural)]
pub enum Ending {
    Started,
    PointerNotWritten,
    SpawnFailed,
    /// The record could not be written, and the capture process is gone
    /// again.
    RecordNotWritten,
    /// The record could not be written, and the capture process could not be
    /// killed.
    Runaway,
}

/// The state of one `start`.
#[derive(Clone, Debug)]
pub struct StartState {
    phase: StartPhase,
    runtime_dir: String,
    stages: Vec<Stage>,
    pid: u32,
    delivered: usize,
    artifact: String,
    ending: Ending,
}

/// The state of one `start`, with its texts as sequences of characters.
pub struct StartModel {
    pub phase: StartPhase,
    pub runtime_dir: Seq<char>,
    pub stages: Seq<Stage>,
    /// The capture process at hand: first the one of an earlier session,
    /// then the one that was launched.
    pub pid: u32,
    /// Stages of the escalation delivered so far.
    pub delivered: usize,
    /// The recording that the capture process writes.
    pub artifact: Seq<char>,
    pub ending: Ending,
}

impl View for StartState {
    type V = StartModel;

    closed spec fn view(&self) -> StartModel {
        StartModel {
            phase: self.phase,
            runtime_dir: self.runtime_dir@,
            stages: self.stages@,
            pid: self.pid,
            delivered: self.delivered,
            artifact: self.artifact@,
            ending: self.ending,
        }
    }
}

/// The state in which `start` begins, its first request being pending.
pub open spec fn start_initial(runtime_dir: Seq<char>, stages: Seq<Stage>) -> StartModel {
    StartModel {
        phase: StartPhase::Surveying,
        runtime_dir,
        stages,
        pid: 0,
        delivered: 0,
        artifact: Seq::empty(),
        ending: Ending::Started,
    }
}

/// The first request of `start`: read the pointer of an earlier session.
pub open spec fn start_first() -> RequestView {
    RequestView::Get(Key::Pointer)
}

/// The recording that a pointer with the text `text` names.
pub open spec fn pointer_target(text: Option<Seq<char>>) -> Option<Seq<char>> {
    match text {
        Some(t) => Some(trim(t)),
        None => None,
    }
}

/// Ends the operation with `outcome`.
pub open spec fn start_finish(m: StartModel, outcome: StartOutcomeView) -> (
    StartModel,
    StepView<StartOutcomeView>,
) {
    (StartModel { phase: StartPhase::Finished, ..m }, StepView::Done(outcome))
}

/// Moves to `phase` with `request` pending.
pub open spec fn start_ask(m: StartModel, phase: StartPhase, request: RequestView) -> (
    StartModel,
    StepView<StartOutcomeView>,
) {
    (StartModel { phase, ..m }, StepView::Ask(request))
}

/// Gives the lock back, to report `ending` afterwards.
pub open spec fn start_release(m: StartModel, ending: Ending) -> (
    StartModel,
    StepView<StartOutcomeView>,
) {
    (StartModel { phase: StartPhase::Releasing, ending, ..m }, StepView::Ask(RequestView::Release))
}

/// Goes on with the escalation against the capture process of an earlier
/// session, which was found alive or not after `m.delivered` stages.
pub open spec fn start_escalate(m: StartModel, alive: bool) -> (
    StartModel,
    StepView<StartOutcomeView>,
) {
    match next_move(m.stages, m.delivered as nat, alive) {
        Verdict::Stopped => start_ask(m, StartPhase::Clearing, RequestView::Delete(Key::Record)),
        Verdict::Strike(stage) => (
            StartModel { phase: StartPhase::Striking, delivered: (m.delivered + 1) as usize, ..m },
            StepView::Ask(
                RequestView::Strike { pid: m.pid, signal: stage.signal, pause_ms: stage.pause_ms },
            ),
        ),
        Verdict::Stuck => start_finish(m, StartOutcomeView::KillFailed(m.pid)),
    }
}

/// Goes on with terminating the capture process that was just launched and
/// could not be recorded, which was found alive or not after `m.delivered`
/// stages. No capture process is left running without a record to name it,
/// unless it cannot be killed.
pub open spec fn start_undo(m: StartModel, alive: bool) -> (StartModel, StepView<StartOutcomeView>) {
    match next_move(m.stages, m.delivered as nat, alive) {
        Verdict::Stopped => start_release(m, Ending::RecordNotWritten),
        Verdict::Strike(stage) => (
            StartModel { phase: StartPhase::Undoing, delivered: (m.delivered + 1) as usize, ..m },
            StepView::Ask(
                RequestView::Strike { pid: m.pid, signal: stage.signal, pause_ms: stage.pause_ms },
            ),
        ),
        Verdict::Stuck => start_release(m, Ending::Runaway),
    }
}

/// What is reported for `ending`.
pub open spec fn start_report(m: StartModel) -> StartOutcomeView {
    match m.ending {
        Ending::Started => StartOutcomeView::Started { pid: m.pid, audio_file: m.artifact },
        Ending::PointerNotWritten => StartOutcomeView::PointerNotWritten,
        Ending::SpawnFailed => StartOutcomeView::SpawnFailed,
        Ending::RecordNotWritten => StartOutcomeView::RecordNotWritten,
        Ending::Runaway => StartOutcomeView::KillFailed(m.pid),
    }
}

/// One step of `start`: from the state and the reply to the pending request,
/// the next state and the next request or the outcome.
pub open spec fn start_next(m: StartModel, reply: ReplyView) -> (
    StartModel,
    StepView<StartOutcomeView>,
) {
    match (m.phase, reply) {
        (StartPhase::Surveying, ReplyView::Value(text)) => start_ask(
            m,
            StartPhase::Sweeping,
            RequestView::Sweep { keep: pointer_target(text) },
        ),
        (StartPhase::Sweeping, ReplyView::Done(_)) => start_ask(
            m,
            StartPhase::Reading,
            RequestView::Get(Key::Record),
        ),
        (StartPhase::Reading, ReplyView::Value(None)) => start_ask(
            m,
            StartPhase::Locking,
            RequestView::Acquire,
        ),
        (StartPhase::Reading, ReplyView::Value(Some(text))) => {
            match read_record(text) {
                RecordContent::Pid(pid) => (
                    StartModel { phase: StartPhase::Probing, pid, delivered: 0, ..m },
                    StepView::Ask(RequestView::Probe { pid }),
                ),
                _ => start_ask(m, StartPhase::Clearing, RequestView::Delete(Key::Record)),
            }
        },
        (StartPhase::Probing, ReplyView::Probed(outcome)) => start_escalate(
            m,
            valid_pid(m.pid) && shows_alive(outcome),
        ),
        (StartPhase::Striking, ReplyView::Probed(outcome)) => start_escalate(
            m,
            valid_pid(m.pid) && shows_alive(outcome),
        ),
        (StartPhase::Clearing, ReplyView::Done(_)) => start_ask(
            m,
            StartPhase::Locking,
            RequestView::Acquire,
        ),
        (StartPhase::Locking, ReplyView::Lock(attempt)) => {
            match attempt_result(attempt) {
                Ok(_) => start_ask(m, StartPhase::Timing, RequestView::Clock),
                Err(LockError::Busy) => start_finish(m, StartOutcomeView::Busy),
                Err(LockError::Unavailable(errno)) => start_finish(
                    m,
                    StartOutcomeView::LockUnavailable(errno),
                ),
            }
        },
        (StartPhase::Timing, ReplyView::Time(millis)) => {
            let artifact = artifact_name(m.runtime_dir, millis as nat);
            (
                StartModel { phase: StartPhase::Pointing, artifact, ..m },
                StepView::Ask(RequestView::Put(Key::Pointer, artifact)),
            )
        },
        (StartPhase::Pointing, ReplyView::Done(ok)) => {
            if ok {
                start_ask(m, StartPhase::Spawning, RequestView::Spawn { path: m.artifact })
            } else {
                start_release(m, Ending::PointerNotWritten)
            }
        },
        (StartPhase::Spawning, ReplyView::Spawned(Some(pid))) => (
            StartModel { phase: StartPhase::Recording, pid, ..m },
            StepView::Ask(RequestView::Put(Key::Record, decimal(pid as nat))),
        ),
        (StartPhase::Spawning, ReplyView::Spawned(None)) => start_release(m, Ending::SpawnFailed),
        (StartPhase::Recording, ReplyView::Done(ok)) => {
            if ok {
                start_release(m, Ending::Started)
            } else {
                start_undo(StartModel { delivered: 0, ..m }, true)
            }
        },
        (StartPhase::Undoing, ReplyView::Probed(outcome)) => start_undo(
            m,
            valid_pid(m.pid) && shows_alive(outcome),
        ),
        (StartPhase::Releasing, ReplyView::Done(_)) => start_finish(m, start_report(m)),
        _ => start_finish(m, StartOutcomeView::OutOfStep),
    }
}

impl StartState {
    /// Begins a `start` with the standard stages: the state, and the first
    /// request.
    pub fn new(runtime_dir: &str) -> (begun: (StartState, Request))
        ensures
            begun.0@ == start_initial(runtime_dir@, standard_stages()),
            begun.1@ == start_first(),
    {
        StartState::with_stages(runtime_dir, escalation_stages())
    }

    /// Begins a `start` that terminates an earlier capture process by the
    /// given stages.
    pub fn with_stages(runtime_dir: &str, stages: Vec<Stage>) -> (begun: (StartState, Request))
        ensures
            begun.0@ == start_initial(runtime_dir@, stages@),
            begun.1@ == start_first(),
    {
        let state = StartState {
            phase: StartPhase::Surveying,
            runtime_dir: String::from_str(runtime_dir),
            stages,
            pid: 0,
            delivered: 0,
            artifact: String::new(),
            ending: Ending::Started,
        };
        (state, Request::Get(Key::Pointer))
    }

    /// Where the operation stands.
    pub fn phase(&self) -> (phase: StartPhase)
        ensures
            phase == self@.phase,
    {
        self.phase
    }

    fn finish(self, outcome: StartOutcome) -> (next: (StartState, Step<StartOutcome>))
        ensures
            (next.0@, next.1@) == start_finish(self@, outcome@),
    {
        (StartState { phase: StartPhase::Finished, ..self }, Step::Done(outcome))
    }

    fn ask(self, phase: StartPhase, request: Request) -> (next: (StartState, Step<StartOutcome>))
        ensures
            (next.0@, next.1@) == start_ask(self@, phase, request@),
    {
        (StartState { phase, ..self }, Step::Ask(request))
    }

    fn release(self, ending: Ending) -> (next: (StartState, Step<StartOutcome>))
        ensures
            (next.0@, next.1@) == start_release(self@, ending),
    {
        (StartState { phase: StartPhase::Releasing, ending, ..self }, Step::Ask(Request::Release))
    }

    /// Goes on with terminating what an earlier session left running.
    fn kill_existing_recording(self, alive: bool) -> (next: (StartState, Step<StartOutcome>))
        ensures
            (next.0@, next.1@) == start_escalate(self@, alive),
    {
        let count = self.stages.len();
        match terminate_with_escalation(&self.stages, self.delivered, alive) {
            Verdict::Stopped => self.ask(StartPhase::Clearing, Request::Delete(Key::Record)),
            Verdict::Strike(stage) => {
                assert(self.delivered < count);
                let pid = self.pid;
                let delivered = self.delivered + 1;
                (
                    StartState { phase: StartPhase::Striking, delivered, ..self },
                    Step::Ask(
                        Request::Strike { pid, signal: stage.signal, pause_ms: stage.pause_ms },
                    ),
                )
            },
            Verdict::Stuck => {
                let pid = self.pid;
                self.finish(StartOutcome::KillFailed(pid))
            },
        }
    }

    fn undo(self, alive: bool) -> (next: (StartState, Step<StartOutcome>))
        ensures
            (next.0@, next.1@) == start_undo(self@, alive),
    {
        let count = self.stages.len();
        match terminate_with_escalation(&self.stages, self.delivered, alive) {
            Verdict::Stopped => self.release(Ending::RecordNotWritten),
            Verdict::Strike(stage) => {
                assert(self.delivered < count);
                let pid = self.pid;
                let delivered = self.delivered + 1;
                (
                    StartState { phase: StartPhase::Undoing, delivered, ..self },
                    Step::Ask(
                        Request::Strike { pid, signal: stage.signal, pause_ms: stage.pause_ms },
                    ),
                )
            },
            Verdict::Stuck => self.release(Ending::Runaway),
        }
    }

    fn report(&self) -> (outcome: StartOutcome)
        ensures
            outcome@ == start_report(self@),
    {
        match self.ending {
            Ending::Started => StartOutcome::Started {
                pid: self.pid,
                audio_file: self.artifact.clone(),
            },
            Ending::PointerNotWritten => StartOutcome::PointerNotWritten,
            Ending::SpawnFailed => StartOutcome::SpawnFailed,
            Ending::RecordNotWritten => StartOutcome::RecordNotWritten,
            Ending::Runaway => StartOutcome::KillFailed(self.pid),
        }
    }
}

/// The arguments of the capture program for a recording at `path`: one
/// channel, 16000 samples a second, 16 bits a sample, and a raised volume.
pub open spec fn capture_args(path: Seq<char>) -> Seq<Seq<char>> {
    seq![
        "--channels"@,
        "1"@,
        "--rate"@,
        "16000"@,
        "--format"@,
        "s16"@,
        "--volume"@,
        "1.5"@,
        path,
    ]
}

/// The capture program and its arguments for a recording at `path`. It
/// inherits its environment.
pub fn capture_invocation(path: &str) -> (invocation: Invocation)
    ensures
        invocation.program@ == "pw-record"@,
        views(invocation.args@) == capture_args(path@),
        invocation.env@.len() == 0,
{
    let mut args: Vec<String> = Vec::new();
    args.push(String::from_str("--channels"));
    args.push(String::from_str("1"));
    args.push(String::from_str("--rate"));
    args.push(String::from_str("16000"));
    args.push(String::from_str("--format"));
    args.push(String::from_str("s16"));
    args.push(String::from_str("--volume"));
    args.push(String::from_str("1.5"));
    args.push(String::from_str(path));
    assert(views(args@) =~= capture_args(path@));
    Invocation { program: String::from_str("pw-record"), args, env: Vec::new() }
}

/// The notification that a recording has begun, with the settings in use.
pub fn started_notice(backend: &str, acceleration: &str, model: &str) -> (notice: Notification)
    ensures
        notice.title@ == "Voice Input"@,
        notice.message@ == "Recording... (release to stop)\nBackend: "@ + backend@ + " ("@
            + acceleration@ + ") | Model: "@ + model@,
        notice.timeout_ms == 30000,
{
    let mut message = String::from_str("Recording... (release to stop)\nBackend: ");
    message.append(backend);
    message.append(" (");
    message.append(acceleration);
    message.append(") | Model: ");
    message.append(model);
    Notification { title: String::from_str("Voice Input"), message, timeout_ms: 30000 }
}

/// Advances the starting of a recording by one step: takes the reply to the
/// pending request and gives the next request, or the outcome.
///
/// A reply that does not answer the pending request ends the operation with
/// `StartOutcome::OutOfStep`.
pub fn start_recording(state: StartState, reply: Reply) -> (next: (StartState, Step<StartOutcome>))
    ensures
        (next.0@, next.1@) == start_next(state@, reply@),
{
    match state.phase {
        StartPhase::Surveying => match reply {
            Reply::Value(text) => {
                let keep = match text {
                    Some(t) => Some(trim_text(t.as_str())),
                    None => None,
                };
                state.ask(StartPhase::Sweeping, Request::Sweep { keep })
            },
            _ => state.finish(StartOutcome::OutOfStep),
        },
        StartPhase::Sweeping => match reply {
            Reply::Done(_) => state.ask(StartPhase::Reading, Request::Get(Key::Record)),
            _ => state.finish(StartOutcome::OutOfStep),
        },
        StartPhase::Reading => match reply {
            Reply::Value(None) => state.ask(StartPhase::Locking, Request::Acquire),
            Reply::Value(Some(text)) => match parse_record(text.as_str()) {
                RecordContent::Pid(pid) => (
                    StartState { phase: StartPhase::Probing, pid, delivered: 0, ..state },
                    Step::Ask(Request::Probe { pid }),
                ),
                _ => state.ask(StartPhase::Clearing, Request::Delete(Key::Record)),
            },
            _ => state.finish(StartOutcome::OutOfStep),
        },
        StartPhase::Probing => match reply {
            Reply::Probed(outcome) => {
                let alive = is_process_running(state.pid, outcome);
                state.kill_existing_recording(alive)
            },
            _ => state.finish(StartOutcome::OutOfStep),
        },
        StartPhase::Striking => match reply {
            Reply::Probed(outcome) => {
                let alive = is_process_running(state.pid, outcome);
                state.kill_existing_recording(alive)
            },
            _ => state.finish(StartOutcome::OutOfStep),
        },
        StartPhase::Clearing => match reply {
            Reply::Done(_) => state.ask(StartPhase::Locking, Request::Acquire),
            _ => state.finish(StartOutcome::OutOfStep),
        },
        StartPhase::Locking => match reply {
            Reply::Lock(attempt) => match acquire_lock(attempt) {
                Ok(_) => state.ask(StartPhase::Timing, Request::Clock),
                Err(LockError::Busy) => state.finish(StartOutcome::Busy),
                Err(LockError::Unavailable(errno)) => state.finish(
                    StartOutcome::LockUnavailable(errno),
                ),
            },
            _ => state.finish(StartOutcome::OutOfStep),
        },
        StartPhase::Timing => match reply {
            Reply::Time(millis) => {
                let artifact = artifact_path(state.runtime_dir.as_str(), millis);
                let path = artifact.clone();
                (
                    StartState { phase: StartPhase::Pointing, artifact, ..state },
                    Step::Ask(Request::Put(Key::Pointer, path)),
                )
            },
            _ => state.finish(StartOutcome::OutOfStep),
        },
        StartPhase::Pointing => match reply {
            Reply::Done(ok) => {
                if ok {
                    let path = state.artifact.clone();
                    state.ask(StartPhase::Spawning, Request::Spawn { path })
                } else {
                    state.release(Ending::PointerNotWritten)
                }
            },
            _ => state.finish(StartOutcome::OutOfStep),
        },
        StartPhase::Spawning => match reply {
            Reply::Spawned(Some(pid)) => (
                StartState { phase: StartPhase::Recording, pid, ..state },
                Step::Ask(Request::Put(Key::Record, render_record(pid))),
            ),
            Reply::Spawned(None) => state.release(Ending::SpawnFailed),
            _ => state.finish(StartOutcome::OutOfStep),
        },
        StartPhase::Recording => match reply {
            Reply::Done(ok) => {
                if ok {
                    state.release(Ending::Started)
                } else {
                    let fresh = StartState { delivered: 0, ..state };
                    fresh.undo(true)
                }
            },
            _ => state.finish(StartOutcome::OutOfStep),
        },
        StartPhase::Undoing => match reply {
            Reply::Probed(outcome) => {
                let alive = is_process_running(state.pid, outcome);
                state.undo(alive)
            },
            _ => state.finish(StartOutcome::OutOfStep),
        },
        StartPhase::Releasing => match reply {
            Reply::Done(_) => {
                let outcome = state.report();
                state.finish(outcome)
            },
            _ => state.finish(StartOutcome::OutOfStep),
        },
        StartPhase::Finished => state.finish(StartOutcome::OutOfStep),
    }
}

} // verus!
