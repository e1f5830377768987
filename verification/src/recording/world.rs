//! A model of what the coordinator works on: the session store, the lock,
//! the process table and the artifact directory, and how each request changes
//! them when one operation runs at a time and the store does not fail.

use crate::escalation::Signal;
use crate::lock::{LockAttempt, LockProbe};
use crate::probe::{valid_pid, ProbeOutcome};
use crate::recording::session::{Key, ReplyView, RequestView, StepView};
use crate::recording::start::{start_first, start_initial, start_next, StartModel, StartOutcomeView};
use crate::recording::stop::{stop_first, stop_initial, stop_next, StopModel, StopOutcomeView};
use crate::text::decimal;
use vstd::prelude::*;

verus! {

/// A live process, as far as the coordinator can tell it from others.
pub struct Process {
    /// Whether it is a capture process.
    pub capture: bool,
    /// The signals on which it exits. It ignores the others.
    pub heeds: Set<Signal>,
}

/// A file in the artifact directory.
pub struct FileModel {
    /// Its length in bytes.
    pub size: u64,
    /// Whether it is an old recording that a sweep removes.
    pub stale: bool,
}

/// The world around one operation.
pub struct World {
    /// The entries of the session store that exist, with their texts.
    pub store: Map<Key, Seq<char>>,
    /// Whether another live process holds the session lock.
    pub rival: bool,
    /// Whether the operation itself holds the session lock.
    pub held: bool,
    /// The live processes, by identifier.
    pub processes: Map<u32, Process>,
    /// The files of the artifact directory, by path.
    pub files: Map<Seq<char>, FileModel>,
    /// Milliseconds since the epoch.
    pub clock: u128,
    /// The signals on which a newly launched capture process exits.
    pub temper: Set<Signal>,
}

/// Every live process has an identifier that can name a single process.
pub open spec fn well_formed(w: World) -> bool {
    forall|pid: u32| w.processes.contains_key(pid) ==> valid_pid(pid)
}

/// What a probe of `pid` shows.
pub open spec fn probe(w: World, pid: u32) -> ProbeOutcome {
    if w.processes.contains_key(pid) {
        ProbeOutcome::Delivered
    } else {
        ProbeOutcome::NoSuchProcess
    }
}

/// The identifier that the next launched process gets: one that can name a
/// single process and that no live process has, if there is such a one.
pub open spec fn fresh_pid(w: World) -> u32 {
    choose|pid: u32| valid_pid(pid) && !w.processes.contains_key(pid)
}

/// The world after `signal` was sent to `pid`: the process is gone if it was
/// alive and heeds the signal.
pub open spec fn after_signal(w: World, pid: u32, signal: Signal) -> World {
    if w.processes.contains_key(pid) && w.processes[pid].heeds.contains(signal) {
        World { processes: w.processes.remove(pid), ..w }
    } else {
        w
    }
}

/// The paths of the old recordings, but for `keep`.
pub open spec fn stale_paths(w: World, keep: Option<Seq<char>>) -> Set<Seq<char>> {
    Set::new(
        |path: Seq<char>| w.files.contains_key(path) && w.files[path].stale && keep != Some(path),
    )
}

/// What a look at the lock file of the world shows to a process that does
/// not hold the lock itself.
pub open spec fn observe_lock(w: World) -> LockProbe {
    if !w.store.contains_key(Key::Lock) {
        LockProbe::Missing
    } else if w.rival {
        LockProbe::Held
    } else {
        LockProbe::Free
    }
}

/// How the world answers a request, and what it is afterwards.
pub open spec fn react(w: World, request: RequestView) -> (World, ReplyView) {
    match request {
        RequestView::Await { pause_ms } => (w, ReplyView::Present(w.store.contains_key(Key::Record))),
        RequestView::Get(key) => (
            w,
            ReplyView::Value(
                if w.store.contains_key(key) {
                    Some(w.store[key])
                } else {
                    None
                },
            ),
        ),
        RequestView::Put(key, text) => (
            World { store: w.store.insert(key, text), ..w },
            ReplyView::Done(true),
        ),
        RequestView::Delete(key) => (World { store: w.store.remove(key), ..w }, ReplyView::Done(true)),
        RequestView::Acquire => {
            let store = w.store.insert(Key::Lock, Seq::empty());
            if w.rival {
                (World { store, ..w }, ReplyView::Lock(LockAttempt::WouldBlock))
            } else {
                (World { store, held: true, ..w }, ReplyView::Lock(LockAttempt::Acquired))
            }
        },
        RequestView::Release => (
            World { store: w.store.remove(Key::Lock), held: false, ..w },
            ReplyView::Done(true),
        ),
        RequestView::Look => (w, ReplyView::Looked(observe_lock(w))),
        RequestView::Probe { pid } => (w, ReplyView::Probed(probe(w, pid))),
        RequestView::Strike { pid, signal, pause_ms } => {
            let after = after_signal(w, pid, signal);
            (after, ReplyView::Probed(probe(after, pid)))
        },
        RequestView::Sweep { keep } => (
            World { files: w.files.remove_keys(stale_paths(w, keep)), ..w },
            ReplyView::Done(true),
        ),
        RequestView::Clock => (w, ReplyView::Time(w.clock)),
        RequestView::Spawn { path } => {
            let pid = fresh_pid(w);
            if valid_pid(pid) && !w.processes.contains_key(pid) {
                (
                    World {
                        processes: w.processes.insert(
                            pid,
                            Process { capture: true, heeds: w.temper },
                        ),
                        files: w.files.insert(path, FileModel { size: 44, stale: false }),
                        ..w
                    },
                    ReplyView::Spawned(Some(pid)),
                )
            } else {
                (w, ReplyView::Spawned(None))
            }
        },
        RequestView::Import { from, to } => {
            if w.files.contains_key(from) {
                (
                    World {
                        files: w.files.insert(
                            to,
                            FileModel { size: w.files[from].size, stale: false },
                        ),
                        ..w
                    },
                    ReplyView::Done(true),
                )
            } else {
                (w, ReplyView::Done(false))
            }
        },
        RequestView::Inspect { path } => (
            w,
            ReplyView::Size(
                if w.files.contains_key(path) {
                    Some(w.files[path].size)
                } else {
                    None
                },
            ),
        ),
    }
}

/// Runs a `stop` against the world for at most `fuel` requests, from the
/// state `m` with `request` pending: the outcome, if the operation got that
/// far, and the world as it is then.
pub open spec fn stop_run(m: StopModel, w: World, request: RequestView, fuel: nat) -> (
    Option<StopOutcomeView>,
    World,
)
    decreases fuel,
{
    if fuel == 0 {
        (None, w)
    } else {
        let (w1, reply) = react(w, request);
        let (m1, step) = stop_next(m, reply);
        match step {
            StepView::Done(outcome) => (Some(outcome), w1),
            StepView::Ask(next) => stop_run(m1, w1, next, (fuel - 1) as nat),
        }
    }
}

/// Runs a `start` against the world for at most `fuel` requests, from the
/// state `m` with `request` pending: the outcome, if the operation got that
/// far, and the world as it is then.
pub open spec fn start_run(m: StartModel, w: World, request: RequestView, fuel: nat) -> (
    Option<StartOutcomeView>,
    World,
)
    decreases fuel,
{
    if fuel == 0 {
        (None, w)
    } else {
        let (w1, reply) = react(w, request);
        let (m1, step) = start_next(m, reply);
        match step {
            StepView::Done(outcome) => (Some(outcome), w1),
            StepView::Ask(next) => start_run(m1, w1, next, (fuel - 1) as nat),
        }
    }
}

/// Whether at most one capture process is alive in every world that a
/// `start` passes through in its first `fuel` requests.
pub open spec fn single_throughout(m: StartModel, w: World, request: RequestView, fuel: nat) -> bool
    decreases fuel,
{
    &&& single_capture(w)
    &&& fuel > 0 ==> {
        let (w1, reply) = react(w, request);
        let (m1, step) = start_next(m, reply);
        match step {
            StepView::Done(_) => single_capture(w1),
            StepView::Ask(next) => single_throughout(m1, w1, next, (fuel - 1) as nat),
        }
    }
}

/// A number of requests that is enough for any `stop` in the state `m`.
pub open spec fn stop_budget(m: StopModel) -> nat {
    (m.max_polls + m.stages.len() + 12) as nat
}

/// A number of requests that is enough for any `start` in the state `m`.
pub open spec fn start_budget(m: StartModel) -> nat {
    (2 * m.stages.len() + 14) as nat
}

/// A whole `stop` in the directory `dir`, with the standard stages and
/// polling, against the world `w`.
pub open spec fn stop(dir: Seq<char>, audio_file_override: Option<Seq<char>>, w: World) -> (
    Option<StopOutcomeView>,
    World,
) {
    let m = stop_initial(
        dir,
        audio_file_override,
        crate::escalation::standard_stages(),
        crate::recording::stop::RECORD_POLLS,
        crate::recording::stop::RECORD_POLL_MS,
    );
    stop_run(m, w, stop_first(), stop_budget(m))
}

/// A whole `start` in the directory `dir`, with the standard stages, against
/// the world `w`.
pub open spec fn start(dir: Seq<char>, w: World) -> (Option<StartOutcomeView>, World) {
    let m = start_initial(dir, crate::escalation::standard_stages());
    start_run(m, w, start_first(), start_budget(m))
}

/// Whether `pid` is a live capture process.
pub open spec fn is_capture(w: World, pid: u32) -> bool {
    w.processes.contains_key(pid) && w.processes[pid].capture
}

/// At most one capture process is alive.
pub open spec fn single_capture(w: World) -> bool {
    forall|p: u32, q: u32| #[trigger] is_capture(w, p) && #[trigger] is_capture(w, q) ==> p == q
}

/// No capture process is alive.
pub open spec fn no_capture(w: World) -> bool {
    forall|p: u32| !#[trigger] is_capture(w, p)
}

/// No capture process but `pid` is alive.
pub open spec fn only_capture(w: World, pid: u32) -> bool {
    forall|p: u32| #[trigger] is_capture(w, p) ==> p == pid
}

/// Every live capture process is the one that the session record names.
pub open spec fn tidy(w: World) -> bool {
    forall|p: u32|
        #[trigger] is_capture(w, p) ==> w.store.contains_key(Key::Record) && w.store[Key::Record] == decimal(
            p as nat,
        )
}

} // verus!
