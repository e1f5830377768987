//! Whether a recording is in progress: the union of what the session record
//! and the session lock show, since each of them can be stale by itself.

use crate::lock::{is_held, LockProbe};
use crate::probe::{is_process_running, shows_alive, valid_pid, ProbeOutcome};
use crate::record::{parse_record, read_record, RecordContent};
use crate::recording::session::{Key, Reply, ReplyView, Request, RequestView, Step, StepView};
use crate::recording::world::{observe_lock, probe, react, World};
use vstd::prelude::*;

verus! {

/// What a look at the session record showed.
#[derive(Clone, Copy, Debug, PartialEq, Eq, Structural)]
pub enum RecordProbe {
    /// There is no record, or it could not be read.
    Missing,
    /// There is a record, and it names no process.
    Unreadable,
    /// The record names the process `pid`, and probing it gave `outcome`.
    Names { pid: u32, outcome: ProbeOutcome },
}

/// Whether the record names a process that is alive.
pub open spec fn record_live(record: RecordProbe) -> bool {
    record matches RecordProbe::Names { pid, outcome } && valid_pid(pid) && shows_alive(outcome)
}

/// Whether a recording is in progress: the record names a live process, or
/// a live process holds the lock.
pub open spec fn in_progress(record: RecordProbe, lock: LockProbe) -> bool {
    record_live(record) || lock is Held
}

/// The process to probe for a session record with the text `text`, `None`
/// standing for a record that is missing or could not be read.
pub fn record_target(text: Option<&str>) -> (pid: Option<u32>)
    ensures
        pid == match text {
            Some(t) => match read_record(t@) {
                RecordContent::Pid(p) => Some(p),
                _ => None,
            },
            None => None,
        },
{
    match text {
        Some(t) => match parse_record(t) {
            RecordContent::Pid(p) => Some(p),
            _ => None,
        },
        None => None,
    }
}

/// Whether a recording is in progress.
///
/// A record that names a dead process does not count, nor does a lock file
/// that nobody holds the lock on.
pub fn is_recording(record: RecordProbe, lock: LockProbe) -> (recording: bool)
    ensures
        recording == in_progress(record, lock),
{
    let live = match record {
        RecordProbe::Names { pid, outcome } => is_process_running(pid, outcome),
        _ => false,
    };
    live || is_held(lock)
}

/// What a look at the session record of the world shows.
pub open spec fn observe_record(w: World) -> RecordProbe {
    if !w.store.contains_key(Key::Record) {
        RecordProbe::Missing
    } else {
        match read_record(w.store[Key::Record]) {
            RecordContent::Pid(pid) => RecordProbe::Names { pid, outcome: probe(w, pid) },
            _ => RecordProbe::Unreadable,
        }
    }
}

/// A recording is in progress exactly when the session record names a live
/// process or a live process holds the lock on the lock file. A record whose
/// process is dead and a lock file that nobody holds show no recording,
/// each by itself and both together.
#[verifier::rlimit(40)]
pub proof fn law_is_recording(w: World)
    requires
        crate::recording::world::well_formed(w),
    ensures
        in_progress(observe_record(w), observe_lock(w)) <==> (w.store.contains_key(Key::Record)
            && (read_record(w.store[Key::Record]) matches RecordContent::Pid(pid)
            && w.processes.contains_key(pid))) || (w.store.contains_key(Key::Lock) && w.rival),
        (observe_record(w) matches RecordProbe::Names { pid, outcome } && !shows_alive(outcome))
            && observe_lock(w) is Free ==> !in_progress(observe_record(w), observe_lock(w)),
{
}

/// Where the query stands: the request that is pending.
#[derive(Clone, Copy, Debug, PartialEq, Eq, Structural)]
pub enum StatusPhase {
    /// Reading the session record.
    Reading,
    /// Probing the process that the record names.
    Probing,
    /// Looking at the lock file.
    Looking,
    /// The answer has been handed out.
    Finished,
}

/// The state of one query whether a recording is in progress.
#[derive(Clone, Copy, Debug, PartialEq, Eq, Structural)]
pub struct StatusState {
    pub phase: StatusPhase,
    /// What the look at the session record showed.
    pub record: RecordProbe,
    /// The process that the record names.
    pub pid: u32,
}

/// The state in which the query begins, its first request being pending.
pub open spec fn status_initial() -> StatusState {
    StatusState { phase: StatusPhase::Reading, record: RecordProbe::Missing, pid: 0 }
}

/// The first request of the query: read the session record.
pub open spec fn status_first() -> RequestView {
    RequestView::Get(Key::Record)
}

/// Goes on to look at the lock, the record having shown `record`.
pub open spec fn status_look(s: StatusState, record: RecordProbe) -> (StatusState, StepView<bool>) {
    (StatusState { phase: StatusPhase::Looking, record, ..s }, StepView::Ask(RequestView::Look))
}

/// Ends the query with `answer`.
pub open spec fn status_finish(s: StatusState, answer: bool) -> (StatusState, StepView<bool>) {
    (StatusState { phase: StatusPhase::Finished, ..s }, StepView::Done(answer))
}

/// One step of the query: from the state and the reply to the pending
/// request, the next state and the next request or the answer. The query asks
/// only to read the record, to probe a process and to look at the lock.
pub open spec fn status_next(s: StatusState, reply: ReplyView) -> (StatusState, StepView<bool>) {
    match (s.phase, reply) {
        (StatusPhase::Reading, ReplyView::Value(None)) => status_look(s, RecordProbe::Missing),
        (StatusPhase::Reading, ReplyView::Value(Some(text))) => {
            match read_record(text) {
                RecordContent::Pid(pid) => (
                    StatusState { phase: StatusPhase::Probing, pid, ..s },
                    StepView::Ask(RequestView::Probe { pid }),
                ),
                _ => status_look(s, RecordProbe::Unreadable),
            }
        },
        (StatusPhase::Probing, ReplyView::Probed(outcome)) => {
            if valid_pid(s.pid) && shows_alive(outcome) {
                status_finish(s, true)
            } else {
                status_look(s, RecordProbe::Names { pid: s.pid, outcome })
            }
        },
        (StatusPhase::Looking, ReplyView::Looked(lock)) => status_finish(
            s,
            in_progress(s.record, lock),
        ),
        _ => status_finish(s, false),
    }
}

/// Begins a query whether a recording is in progress: the state, and the
/// first request.
pub fn begin_status() -> (begun: (StatusState, Request))
    ensures
        begun.0 == status_initial(),
        begun.1@ == status_first(),
{
    (
        StatusState { phase: StatusPhase::Reading, record: RecordProbe::Missing, pid: 0 },
        Request::Get(Key::Record),
    )
}

/// Advances the query whether a recording is in progress by one step: takes
/// the reply to the pending request and gives the next request, or the answer.
/// A reply that does not answer the pending request ends the query with no.
pub fn check_recording(state: StatusState, reply: Reply) -> (next: (StatusState, Step<bool>))
    ensures
        (next.0, next.1@) == status_next(state, reply@),
{
    match state.phase {
        StatusPhase::Reading => match reply {
            Reply::Value(text) => {
                let target = match &text {
                    Some(t) => record_target(Some(t.as_str())),
                    None => None,
                };
                match target {
                    Some(pid) => (
                        StatusState { phase: StatusPhase::Probing, pid, ..state },
                        Step::Ask(Request::Probe { pid }),
                    ),
                    None => {
                        let record = if text.is_some() {
                            RecordProbe::Unreadable
                        } else {
                            RecordProbe::Missing
                        };
                        (
                            StatusState { phase: StatusPhase::Looking, record, ..state },
                            Step::Ask(Request::Look),
                        )
                    },
                }
            },
            _ => (StatusState { phase: StatusPhase::Finished, ..state }, Step::Done(false)),
        },
        StatusPhase::Probing => match reply {
            Reply::Probed(outcome) => {
                if is_process_running(state.pid, outcome) {
                    (StatusState { phase: StatusPhase::Finished, ..state }, Step::Done(true))
                } else {
                    let record = RecordProbe::Names { pid: state.pid, outcome };
                    (
                        StatusState { phase: StatusPhase::Looking, record, ..state },
                        Step::Ask(Request::Look),
                    )
                }
            },
            _ => (StatusState { phase: StatusPhase::Finished, ..state }, Step::Done(false)),
        },
        StatusPhase::Looking => match reply {
            Reply::Looked(lock) => {
                let answer = is_recording(state.record, lock);
                (StatusState { phase: StatusPhase::Finished, ..state }, Step::Done(answer))
            },
            _ => (StatusState { phase: StatusPhase::Finished, ..state }, Step::Done(false)),
        },
        StatusPhase::Finished => (
            StatusState { phase: StatusPhase::Finished, ..state },
            Step::Done(false),
        ),
    }
}

/// Runs a query against the world for at most `fuel` requests: the answer,
/// if the query got that far, and the world as it is then.
pub open spec fn status_run(s: StatusState, w: World, request: RequestView, fuel: nat) -> (
    Option<bool>,
    World,
)
    decreases fuel,
{
    if fuel == 0 {
        (None, w)
    } else {
        let (w1, reply) = react(w, request);
        let (s1, step) = status_next(s, reply);
        match step {
            StepView::Done(answer) => (Some(answer), w1),
            StepView::Ask(next) => status_run(s1, w1, next, (fuel - 1) as nat),
        }
    }
}

/// The query is pure: it ends within three requests, it leaves the world as
/// it found it, and its answer is yes exactly when the session record names a
/// live process or a live process holds the lock.
#[verifier::rlimit(40)]
pub proof fn law_status_is_a_pure_query(w: World)
    requires
        crate::recording::world::well_formed(w),
    ensures
        status_run(status_initial(), w, status_first(), 3) == (
            Some(in_progress(observe_record(w), observe_lock(w))),
            w,
        ),
{
    reveal_with_fuel(status_run, 4);
}

} // verus!
