//! What holds of `start` and `stop` when they run against the world.

use crate::escalation::{standard_stages, Signal, Stage};
use crate::lock::LockAttempt;
use crate::probe::valid_pid;
use crate::record::{lemma_record_round_trip, read_record, RecordContent};
use crate::recording::session::{Key, ReplyView, RequestView, StepView};
use crate::recording::start::{
    start_first, start_initial, start_next, StartModel, StartOutcomeView, StartPhase,
};
use crate::recording::stop::{
    stop_first, stop_initial, stop_next, Sequel, StopModel, StopOutcomeView, StopPhase,
};
use crate::recording::world::{
    is_capture, no_capture, only_capture, react, single_capture, single_throughout, start,
    start_budget, start_run, stop, stop_budget, stop_run, tidy, well_formed, World,
};
use crate::text::{decimal, trim};
use vstd::prelude::*;

verus! {

/// Whether `request` is what a `stop` in the state `m` is waiting on.
pub open spec fn stop_pending(m: StopModel, request: RequestView) -> bool {
    &&& m.stages.len() <= usize::MAX
    &&& match m.phase {
        StopPhase::Awaiting => request is Await && m.polls <= m.max_polls,
        StopPhase::Reading => request == RequestView::Get(Key::Record),
        StopPhase::Probing => request == (RequestView::Probe { pid: m.pid }) && m.delivered == 0,
        StopPhase::Striking => request matches RequestView::Strike { pid, .. } && pid == m.pid
            && m.delivered <= m.stages.len(),
        StopPhase::ClearingRecord => request == RequestView::Delete(Key::Record),
        StopPhase::ClearingLock => request == RequestView::Delete(Key::Lock),
        StopPhase::ClearingPointer => request == RequestView::Delete(Key::Pointer),
        StopPhase::Timing => request == RequestView::Clock && m.audio_file_override is Some,
        StopPhase::Importing => request is Import,
        StopPhase::Locating => request == RequestView::Get(Key::Pointer),
        StopPhase::Forgetting => request == RequestView::Delete(Key::Pointer),
        StopPhase::Inspecting => request is Inspect,
        StopPhase::Finished => false,
    }
}

/// The most requests that a `stop` in the state `m` still makes, the pending
/// one included.
pub open spec fn stop_rank(m: StopModel) -> nat {
    match m.phase {
        StopPhase::Awaiting => (m.max_polls - m.polls + m.stages.len() + 9) as nat,
        StopPhase::Reading => m.stages.len() + 8,
        StopPhase::Probing => m.stages.len() + 7,
        StopPhase::Striking => (m.stages.len() - m.delivered + 6) as nat,
        StopPhase::ClearingRecord => 5,
        StopPhase::ClearingLock => 4,
        StopPhase::ClearingPointer => 1,
        StopPhase::Timing => 3,
        StopPhase::Importing => 2,
        StopPhase::Locating => 3,
        StopPhase::Forgetting => 2,
        StopPhase::Inspecting => 1,
        StopPhase::Finished => 0,
    }
}

/// Whether the lock file has been removed by the time a `stop` is in the
/// state `m`.
pub open spec fn stop_past_lock(m: StopModel) -> bool {
    match m.phase {
        StopPhase::ClearingPointer | StopPhase::Timing | StopPhase::Importing | StopPhase::Locating
        | StopPhase::Forgetting | StopPhase::Inspecting => true,
        _ => false,
    }
}

/// Whether `request` is what a `start` in the state `m` is waiting on.
pub open spec fn start_pending(m: StartModel, request: RequestView) -> bool {
    &&& m.stages.len() <= usize::MAX
    &&& match m.phase {
        StartPhase::Surveying => request == RequestView::Get(Key::Pointer),
        StartPhase::Sweeping => request is Sweep,
        StartPhase::Reading => request == RequestView::Get(Key::Record),
        StartPhase::Probing => request == (RequestView::Probe { pid: m.pid }) && m.delivered == 0,
        StartPhase::Striking => request matches RequestView::Strike { pid, .. } && pid == m.pid
            && m.delivered <= m.stages.len(),
        StartPhase::Clearing => request == RequestView::Delete(Key::Record),
        StartPhase::Locking => request == RequestView::Acquire,
        StartPhase::Timing => request == RequestView::Clock,
        StartPhase::Pointing => request == RequestView::Put(Key::Pointer, m.artifact),
        StartPhase::Spawning => request == (RequestView::Spawn { path: m.artifact }),
        StartPhase::Recording => request == RequestView::Put(Key::Record, decimal(m.pid as nat)),
        StartPhase::Undoing => false,
        StartPhase::Releasing => request == RequestView::Release && (m.ending is Started
            || m.ending is SpawnFailed),
        StartPhase::Finished => false,
    }
}

/// The most requests that a `start` in the state `m` still makes, the
/// pending one included.
pub open spec fn start_rank(m: StartModel) -> nat {
    match m.phase {
        StartPhase::Surveying => 2 * m.stages.len() + 13,
        StartPhase::Sweeping => 2 * m.stages.len() + 12,
        StartPhase::Reading => 2 * m.stages.len() + 11,
        StartPhase::Probing => 2 * m.stages.len() + 10,
        StartPhase::Striking => (2 * m.stages.len() - m.delivered + 9) as nat,
        StartPhase::Clearing => m.stages.len() + 8,
        StartPhase::Locking => m.stages.len() + 7,
        StartPhase::Timing => m.stages.len() + 6,
        StartPhase::Pointing => m.stages.len() + 5,
        StartPhase::Spawning => m.stages.len() + 4,
        StartPhase::Recording => m.stages.len() + 3,
        StartPhase::Undoing => (m.stages.len() - m.delivered + 2) as nat,
        StartPhase::Releasing => 1,
        StartPhase::Finished => 0,
    }
}

/// The counters of a `stop` are within their bounds.
pub open spec fn stop_well_formed(m: StopModel) -> bool {
    m.polls <= m.max_polls && m.delivered <= m.stages.len() <= usize::MAX
}

/// The counter of a `start` is within its bound.
pub open spec fn start_well_formed(m: StartModel) -> bool {
    m.delivered <= m.stages.len() <= usize::MAX
}

/// Whatever the driver replies, each step of a `stop` brings it closer to
/// its end: the step hands out the outcome, or the number of requests that
/// the `stop` can still make goes down. The waits of a `stop` are bounded by
/// its polling and its stages, and by nothing that the world does.
#[verifier::rlimit(40)]
pub proof fn law_stop_makes_progress(m: StopModel, reply: ReplyView)
    requires
        stop_well_formed(m),
    ensures
        stop_well_formed(stop_next(m, reply).0),
        stop_next(m, reply).1 is Ask ==> stop_rank(stop_next(m, reply).0) < stop_rank(m),
        stop_next(m, reply).1 is Done ==> stop_next(m, reply).0.phase == StopPhase::Finished,
        m.phase == StopPhase::Finished ==> stop_next(m, reply).1 is Done,
{
}

/// Whatever the driver replies, each step of a `start` brings it closer to
/// its end: the step hands out the outcome, or the number of requests that
/// the `start` can still make goes down.
#[verifier::rlimit(40)]
pub proof fn law_start_makes_progress(m: StartModel, reply: ReplyView)
    requires
        start_well_formed(m),
    ensures
        start_well_formed(start_next(m, reply).0),
        start_next(m, reply).1 is Ask ==> start_rank(start_next(m, reply).0) < start_rank(m),
        start_next(m, reply).1 is Done ==> start_next(m, reply).0.phase == StartPhase::Finished,
        m.phase == StartPhase::Finished ==> start_next(m, reply).1 is Done,
{
}

/// A `stop` that is driven by the world comes to an end within its rank. It
/// is never out of step, it launches nothing, it leaves the lock to whoever
/// holds it, and it leaves no lock file behind.
#[verifier::rlimit(40)]
pub proof fn lemma_stop_run(m: StopModel, w: World, request: RequestView, fuel: nat)
    requires
        stop_pending(m, request),
        fuel >= stop_rank(m),
        well_formed(w),
        stop_past_lock(m) ==> !w.store.contains_key(Key::Lock),
    ensures
        stop_run(m, w, request, fuel).0 is Some,
        stop_run(m, w, request, fuel).0 != Some(StopOutcomeView::OutOfStep),
        stop_run(m, w, request, fuel).1.rival == w.rival,
        stop_run(m, w, request, fuel).1.held == w.held,
        !stop_run(m, w, request, fuel).1.store.contains_key(Key::Lock),
        well_formed(stop_run(m, w, request, fuel).1),
        stop_run(m, w, request, fuel).1.processes.submap_of(w.processes),
        w.files.dom().subset_of(stop_run(m, w, request, fuel).1.files.dom()),
    decreases fuel,
{
    let (w1, reply) = react(w, request);
    let (m1, step) = stop_next(m, reply);
    assert(w1.processes.submap_of(w.processes));
    match step {
        StepView::Done(_) => {},
        StepView::Ask(next) => {
            lemma_stop_run(m1, w1, next, (fuel - 1) as nat);
            let end = stop_run(m1, w1, next, (fuel - 1) as nat).1;
            assert forall|pid: u32| end.processes.dom().contains(pid) implies w.processes.dom().contains(
                pid,
            ) && end.processes[pid] == w.processes[pid] by {
                assert(w1.processes.dom().contains(pid));
            }
        },
    }
}

/// Whether a `start` in the state `m` has not yet tried to take the lock.
pub open spec fn start_before_lock(m: StartModel) -> bool {
    match m.phase {
        StartPhase::Surveying | StartPhase::Sweeping | StartPhase::Reading | StartPhase::Probing
        | StartPhase::Striking
        | StartPhase::Clearing | StartPhase::Locking => true,
        _ => false,
    }
}

/// A `start` that is driven by the world comes to an end within its rank. It
/// is never out of step, it finds the lock busy only where another live
/// process holds it, and it does not keep the lock.
#[verifier::rlimit(40)]
pub proof fn lemma_start_run(m: StartModel, w: World, request: RequestView, fuel: nat)
    requires
        start_pending(m, request),
        fuel >= start_rank(m),
        well_formed(w),
        start_before_lock(m) ==> !w.held,
    ensures
        !start_run(m, w, request, fuel).1.held,
        start_run(m, w, request, fuel).0 is Some,
        start_run(m, w, request, fuel).0 != Some(StartOutcomeView::OutOfStep),
        start_run(m, w, request, fuel).0 == Some(StartOutcomeView::Busy) ==> w.rival,
        !(start_run(m, w, request, fuel).0->0 is LockUnavailable),
        !(start_run(m, w, request, fuel).0->0 is PointerNotWritten),
        !(start_run(m, w, request, fuel).0->0 is RecordNotWritten),
        start_run(m, w, request, fuel).1.rival == w.rival,
        well_formed(start_run(m, w, request, fuel).1),
    decreases fuel,
{
    let (w1, reply) = react(w, request);
    let (m1, step) = start_next(m, reply);
    match step {
        StepView::Done(_) => {},
        StepView::Ask(next) => {
            lemma_start_run(m1, w1, next, (fuel - 1) as nat);
        },
    }
}

/// `stop` always ends, whatever it finds: within a number of requests that
/// its polling and its stages bound, with an outcome other than
/// `OutOfStep`, and with the lock file gone. It launches no process and
/// removes no file of the artifact directory.
pub proof fn law_stop_ends(
    dir: Seq<char>,
    audio_file_override: Option<Seq<char>>,
    stages: Seq<Stage>,
    max_polls: u32,
    poll_ms: u64,
    w: World,
)
    requires
        well_formed(w),
        stages.len() <= usize::MAX,
    ensures
        ({
            let m = stop_initial(dir, audio_file_override, stages, max_polls, poll_ms);
            let end = stop_run(m, w, stop_first(), stop_budget(m));
            &&& end.0 is Some
            &&& end.0 != Some(StopOutcomeView::OutOfStep)
            &&& !end.1.store.contains_key(Key::Lock)
            &&& end.1.rival == w.rival
            &&& end.1.processes.submap_of(w.processes)
            &&& w.files.dom().subset_of(end.1.files.dom())
        }),
{
    let m = stop_initial(dir, audio_file_override, stages, max_polls, poll_ms);
    lemma_stop_run(m, w, stop_first(), stop_budget(m));
}

/// `start` always ends, whatever it finds: within a number of requests that
/// its stages bound, and with an outcome other than `OutOfStep`. It reports
/// `Busy` only where another live process holds the lock.
pub proof fn law_start_ends(dir: Seq<char>, stages: Seq<Stage>, w: World)
    requires
        well_formed(w),
        stages.len() <= usize::MAX,
    ensures
        ({
            let m = start_initial(dir, stages);
            let end = start_run(m, w, start_first(), start_budget(m));
            &&& end.0 is Some
            &&& end.0 != Some(StartOutcomeView::OutOfStep)
            &&& end.0 == Some(StartOutcomeView::Busy) ==> w.rival
            &&& !w.held ==> !end.1.held
        }),
{
    let m = start_initial(dir, stages);
    if !w.held {
        lemma_start_run(m, w, start_first(), start_budget(m));
    } else {
        lemma_start_run(m, World { held: false, ..w }, start_first(), start_budget(m));
        lemma_start_ignores_held(m, w, start_first(), start_budget(m));
    }
}

/// Whether the operation holds the lock when a `start` begins has no part
/// in how the `start` ends.
#[verifier::rlimit(40)]
proof fn lemma_start_ignores_held(m: StartModel, w: World, request: RequestView, fuel: nat)
    ensures
        start_run(m, w, request, fuel).0 == start_run(
            m,
            World { held: false, ..w },
            request,
            fuel,
        ).0,
    decreases fuel,
{
    if fuel > 0 {
        let v = World { held: false, ..w };
        let (w1, reply) = react(w, request);
        let (v1, reply_v) = react(v, request);
        let (m1, step) = start_next(m, reply);
        assert(reply == reply_v);
        assert(v1 == World { held: v1.held, ..w1 });
        match step {
            StepView::Done(_) => {},
            StepView::Ask(next) => {
                lemma_start_ignores_held(m1, w1, next, (fuel - 1) as nat);
                lemma_start_ignores_held(m1, v1, next, (fuel - 1) as nat);
                assert((World { held: false, ..w1 }) == (World { held: false, ..v1 }));
            },
        }
    }
}

/// A `start` right after a `stop` does not find the lock busy on account of
/// what the earlier session left: where no other live process holds the
/// lock, `stop` leaves no lock file, and the `start` that follows does not
/// report `Busy`.
pub proof fn law_start_after_stop(
    stop_dir: Seq<char>,
    audio_file_override: Option<Seq<char>>,
    start_dir: Seq<char>,
    w: World,
)
    requires
        well_formed(w),
        !w.rival,
    ensures
        !stop(stop_dir, audio_file_override, w).1.store.contains_key(Key::Lock),
        start(start_dir, stop(stop_dir, audio_file_override, w).1).0 is Some,
        start(start_dir, stop(stop_dir, audio_file_override, w).1).0 != Some(StartOutcomeView::Busy),
{
    let m = stop_initial(
        stop_dir,
        audio_file_override,
        standard_stages(),
        crate::recording::stop::RECORD_POLLS,
        crate::recording::stop::RECORD_POLL_MS,
    );
    lemma_stop_run(m, w, stop_first(), stop_budget(m));
    let after = stop(stop_dir, audio_file_override, w).1;
    let n = start_initial(start_dir, standard_stages());
    lemma_start_run(n, World { held: false, ..after }, start_first(), start_budget(n));
    lemma_start_ignores_held(n, after, start_first(), start_budget(n));
}

/// What holds of the world while a `start` in the state `m` waits on
/// `request`, given that every capture process was named by the session
/// record when the `start` began.
pub open spec fn start_sound(m: StartModel, w: World, request: RequestView) -> bool {
    &&& start_pending(m, request)
    &&& well_formed(w)
    &&& match m.phase {
        StartPhase::Surveying | StartPhase::Sweeping | StartPhase::Reading => tidy(w),
        StartPhase::Probing | StartPhase::Striking => tidy(w) && only_capture(w, m.pid),
        StartPhase::Clearing => no_capture(w),
        StartPhase::Locking | StartPhase::Timing | StartPhase::Pointing | StartPhase::Spawning => {
            no_capture(w) && !w.store.contains_key(Key::Record)
        },
        StartPhase::Recording => only_capture(w, m.pid),
        StartPhase::Undoing => false,
        StartPhase::Releasing => tidy(w),
        StartPhase::Finished => false,
    }
}

/// Where the session record names every live capture process, at most one
/// capture process is alive, and it is the one that the record reads as.
pub proof fn lemma_tidy_single(w: World)
    requires
        tidy(w),
    ensures
        single_capture(w),
        !w.store.contains_key(Key::Record) ==> no_capture(w),
        w.store.contains_key(Key::Record) ==> match read_record(w.store[Key::Record]) {
            RecordContent::Pid(pid) => only_capture(w, pid),
            _ => no_capture(w),
        },
{
    assert forall|p: u32| is_capture(w, p) implies read_record(w.store[Key::Record])
        == RecordContent::Pid(p) by {
        lemma_record_round_trip(p);
    }
}

/// Where every capture process of `after` is one of `before`, what held of
/// the capture processes of `before` holds of those of `after`.
proof fn lemma_captures_carried(before: World, after: World)
    requires
        forall|p: u32| #[trigger] is_capture(after, p) ==> is_capture(before, p),
    ensures
        no_capture(before) ==> no_capture(after),
        forall|pid: u32| only_capture(before, pid) ==> only_capture(after, pid),
        tidy(before) && after.store.contains_key(Key::Record) == before.store.contains_key(
            Key::Record,
        ) && after.store[Key::Record] == before.store[Key::Record] ==> tidy(after),
{
    if no_capture(before) {
        assert forall|p: u32| !#[trigger] is_capture(after, p) by {
            if is_capture(after, p) {
                assert(is_capture(before, p));
            }
        }
    }
    assert forall|pid: u32| only_capture(before, pid) implies only_capture(after, pid) by {
        assert forall|p: u32| #[trigger] is_capture(after, p) implies p == pid by {
            assert(is_capture(before, p));
        }
    }
    if tidy(before) && after.store.contains_key(Key::Record) == before.store.contains_key(
        Key::Record,
    ) && after.store[Key::Record] == before.store[Key::Record] {
        assert forall|p: u32| #[trigger] is_capture(after, p) implies after.store.contains_key(
            Key::Record,
        ) && after.store[Key::Record] == decimal(p as nat) by {
            assert(is_capture(before, p));
        }
    }
}

/// A `start` that begins where the session record names every live capture
/// process never has two capture processes alive, and leaves the world as it
/// found it in this respect.
#[verifier::rlimit(40)]
pub proof fn lemma_start_single(m: StartModel, w: World, request: RequestView, fuel: nat)
    requires
        start_sound(m, w, request),
    ensures
        single_throughout(m, w, request, fuel),
        fuel >= start_rank(m) ==> tidy(start_run(m, w, request, fuel).1),
    decreases fuel,
{
    if tidy(w) {
        lemma_tidy_single(w);
    }
    assert(single_capture(w));
    if fuel > 0 {
        let (w1, reply) = react(w, request);
        let (m1, step) = start_next(m, reply);
        match m.phase {
            StartPhase::Spawning => {
                if reply is Spawned && reply->Spawned_0 is Some {
                    let pid = reply->Spawned_0->0;
                    assert forall|p: u32| #[trigger] is_capture(w1, p) implies p == pid by {
                        if p != pid {
                            assert(is_capture(w, p));
                        }
                    }
                } else {
                    lemma_captures_carried(w, w1);
                }
            },
            StartPhase::Recording => {
                lemma_captures_carried(w, w1);
                assert forall|p: u32| #[trigger] is_capture(w1, p) implies w1.store.contains_key(
                    Key::Record,
                ) && w1.store[Key::Record] == decimal(p as nat) by {
                    assert(p == m.pid);
                }
            },
            _ => {
                lemma_captures_carried(w, w1);
            },
        }
        match step {
            StepView::Done(_) => {
                assert(tidy(w1));
                lemma_tidy_single(w1);
            },
            StepView::Ask(next) => {
                assert(start_sound(m1, w1, next));
                lemma_start_single(m1, w1, next, (fuel - 1) as nat);
            },
        }
    }
}

/// A `start` leaves every live process with an identifier that can name a
/// single process.
#[verifier::rlimit(40)]
proof fn lemma_start_kept_well_formed(m: StartModel, w: World, request: RequestView, fuel: nat)
    requires
        well_formed(w),
    ensures
        well_formed(start_run(m, w, request, fuel).1),
    decreases fuel,
{
    if fuel > 0 {
        let (w1, reply) = react(w, request);
        let (m1, step) = start_next(m, reply);
        match step {
            StepView::Done(_) => {},
            StepView::Ask(next) => {
                lemma_start_kept_well_formed(m1, w1, next, (fuel - 1) as nat);
            },
        }
    }
}

/// However often `start` is called with no `stop` in between, at most one
/// capture process is ever alive: where every live capture process is named
/// by the session record, a `start` passes through no world with two live
/// capture processes, and it ends in a world where the record again names
/// every live capture process, so that the same holds of the next `start`.
pub proof fn law_single_capture(dir: Seq<char>, stages: Seq<Stage>, w: World)
    requires
        well_formed(w),
        tidy(w),
        stages.len() <= usize::MAX,
    ensures
        ({
            let m = start_initial(dir, stages);
            &&& single_throughout(m, w, start_first(), start_budget(m))
            &&& tidy(start_run(m, w, start_first(), start_budget(m)).1)
            &&& well_formed(start_run(m, w, start_first(), start_budget(m)).1)
            &&& single_capture(start_run(m, w, start_first(), start_budget(m)).1)
        }),
{
    let m = start_initial(dir, stages);
    lemma_start_single(m, w, start_first(), start_budget(m));
    lemma_start_kept_well_formed(m, w, start_first(), start_budget(m));
    lemma_tidy_single(start_run(m, w, start_first(), start_budget(m)).1);
}

/// The recording that the pointer of the world names, if there is a
/// pointer.
pub open spec fn active_target(w: World) -> Option<Seq<char>> {
    if w.store.contains_key(Key::Pointer) {
        Some(trim(w.store[Key::Pointer]))
    } else {
        None
    }
}

/// Whether the recording that the pointer names in `before` is still there
/// in `after`, if it was there in `before`.
pub open spec fn target_kept(before: World, after: World) -> bool {
    match active_target(before) {
        Some(target) => before.files.contains_key(target) ==> after.files.contains_key(target),
        None => true,
    }
}

/// Whether no request among the first `fuel` of a `start` removes the
/// recording that the pointer names when the request is made.
pub open spec fn target_kept_throughout(
    m: StartModel,
    w: World,
    request: RequestView,
    fuel: nat,
) -> bool
    decreases fuel,
{
    fuel > 0 ==> {
        let (w1, reply) = react(w, request);
        let (m1, step) = start_next(m, reply);
        &&& target_kept(w, w1)
        &&& match step {
            StepView::Done(_) => true,
            StepView::Ask(next) => target_kept_throughout(m1, w1, next, (fuel - 1) as nat),
        }
    }
}

/// A `start` whose sweep, once it is pending, spares the recording that the
/// pointer names removes that recording at no point.
#[verifier::rlimit(40)]
proof fn lemma_target_kept(m: StartModel, w: World, request: RequestView, fuel: nat)
    requires
        start_pending(m, request),
        m.phase == StartPhase::Sweeping ==> request == (RequestView::Sweep {
            keep: active_target(w),
        }),
    ensures
        target_kept_throughout(m, w, request, fuel),
    decreases fuel,
{
    if fuel > 0 {
        let (w1, reply) = react(w, request);
        let (m1, step) = start_next(m, reply);
        match step {
            StepView::Done(_) => {},
            StepView::Ask(next) => {
                lemma_target_kept(m1, w1, next, (fuel - 1) as nat);
            },
        }
    }
}

/// A recording is never removed while the pointer names it: no request of a
/// `start` removes the file that the pointer names at that moment, however
/// old the file is.
pub proof fn law_active_recording_is_kept(dir: Seq<char>, stages: Seq<Stage>, w: World)
    requires
        stages.len() <= usize::MAX,
    ensures
        target_kept_throughout(
            start_initial(dir, stages),
            w,
            start_first(),
            start_budget(start_initial(dir, stages)),
        ),
{
    let m = start_initial(dir, stages);
    lemma_target_kept(m, w, start_first(), start_budget(m));
}

/// The world after `n` calls of `start` in a row, with no `stop` in between.
pub open spec fn after_starts(dir: Seq<char>, w: World, n: nat) -> World
    decreases n,
{
    if n == 0 {
        w
    } else {
        start(dir, after_starts(dir, w, (n - 1) as nat)).1
    }
}

/// From a world in which no capture process is alive, any number of calls of
/// `start` in a row leaves at most one capture process alive, and the call
/// that follows them passes through no world with two.
pub proof fn law_repeated_starts(dir: Seq<char>, w: World, n: nat)
    requires
        well_formed(w),
        no_capture(w),
    ensures
        well_formed(after_starts(dir, w, n)),
        tidy(after_starts(dir, w, n)),
        single_capture(after_starts(dir, w, n)),
        single_throughout(
            start_initial(dir, standard_stages()),
            after_starts(dir, w, n),
            start_first(),
            start_budget(start_initial(dir, standard_stages())),
        ),
    decreases n,
{
    if n > 0 {
        law_repeated_starts(dir, w, (n - 1) as nat);
        law_single_capture(dir, standard_stages(), after_starts(dir, w, (n - 1) as nat));
    } else {
        assert(tidy(w));
    }
    law_single_capture(dir, standard_stages(), after_starts(dir, w, n));
    lemma_tidy_single(after_starts(dir, w, n));
}

/// What holds of the world while a `stop` in the state `m` waits on
/// `request`, given that every capture process was named by the session
/// record when the `stop` began.
pub open spec fn stop_sound(m: StopModel, w: World, request: RequestView) -> bool {
    &&& stop_pending(m, request)
    &&& well_formed(w)
    &&& match m.phase {
        StopPhase::Awaiting | StopPhase::Reading => tidy(w),
        StopPhase::Probing | StopPhase::Striking => tidy(w) && only_capture(w, m.pid),
        StopPhase::ClearingRecord => no_capture(w) && !(m.sequel is Stuck),
        StopPhase::ClearingLock => {
            if m.sequel is Stuck {
                tidy(w) && w.processes.contains_key(m.pid)
            } else {
                no_capture(w) && !w.store.contains_key(Key::Record)
            }
        },
        StopPhase::Finished => false,
        _ => no_capture(w) && !w.store.contains_key(Key::Record),
    }
}

/// A `stop` that begins where the session record names every live capture
/// process leaves no capture process alive and no record behind, unless it
/// reports that the capture process could not be killed; that process is then
/// still alive, and still named by the record.
#[verifier::rlimit(40)]
pub proof fn lemma_stop_sound(m: StopModel, w: World, request: RequestView, fuel: nat)
    requires
        stop_sound(m, w, request),
        fuel >= stop_rank(m),
    ensures
        match stop_run(m, w, request, fuel).0 {
            Some(StopOutcomeView::KillFailed(pid)) => {
                &&& tidy(stop_run(m, w, request, fuel).1)
                &&& stop_run(m, w, request, fuel).1.processes.contains_key(pid)
            },
            _ => {
                &&& no_capture(stop_run(m, w, request, fuel).1)
                &&& !stop_run(m, w, request, fuel).1.store.contains_key(Key::Record)
            },
        },
    decreases fuel,
{
    if tidy(w) {
        lemma_tidy_single(w);
    }
    let (w1, reply) = react(w, request);
    let (m1, step) = stop_next(m, reply);
    lemma_captures_carried(w, w1);
    match step {
        StepView::Done(_) => {},
        StepView::Ask(next) => {
            assert(stop_sound(m1, w1, next));
            lemma_stop_sound(m1, w1, next, (fuel - 1) as nat);
        },
    }
}

/// `stop` never leaves a capture process running in silence: where the
/// session record names every live capture process, no capture process is
/// alive after a `stop` and the record is gone, or else the `stop` reports
/// `KillFailed` for a process that is then still alive and still named by the
/// record.
pub proof fn law_stop_leaves_no_capture(
    dir: Seq<char>,
    audio_file_override: Option<Seq<char>>,
    stages: Seq<Stage>,
    max_polls: u32,
    poll_ms: u64,
    w: World,
)
    requires
        well_formed(w),
        tidy(w),
        stages.len() <= usize::MAX,
    ensures
        ({
            let m = stop_initial(dir, audio_file_override, stages, max_polls, poll_ms);
            let end = stop_run(m, w, stop_first(), stop_budget(m));
            match end.0 {
                Some(StopOutcomeView::KillFailed(pid)) => tidy(end.1) && end.1.processes.contains_key(
                    pid,
                ),
                _ => no_capture(end.1) && !end.1.store.contains_key(Key::Record),
            }
        }),
{
    let m = stop_initial(dir, audio_file_override, stages, max_polls, poll_ms);
    lemma_stop_sound(m, w, stop_first(), stop_budget(m));
}

/// What holds of the world while a `start` in the state `m` waits on
/// `request`, as far as the session that it sets up goes.
pub open spec fn start_session(m: StartModel, w: World, request: RequestView) -> bool {
    &&& start_pending(m, request)
    &&& match m.phase {
        StartPhase::Spawning => w.store.contains_key(Key::Pointer) && w.store[Key::Pointer]
            == m.artifact,
        StartPhase::Recording => {
            &&& w.store.contains_key(Key::Pointer) && w.store[Key::Pointer] == m.artifact
            &&& w.files.contains_key(m.artifact)
            &&& is_capture(w, m.pid)
        },
        StartPhase::Releasing => m.ending is Started ==> {
            &&& w.store.contains_key(Key::Pointer) && w.store[Key::Pointer] == m.artifact
            &&& w.store.contains_key(Key::Record) && w.store[Key::Record] == decimal(m.pid as nat)
            &&& w.files.contains_key(m.artifact)
            &&& is_capture(w, m.pid)
        },
        _ => true,
    }
}

/// Whether the world holds the session of the capture process `pid` that
/// writes to `audio_file`: the record names the process, the pointer names
/// the file, the process is alive, the file is there, and the lock is free.
pub open spec fn session_of(w: World, pid: u32, audio_file: Seq<char>) -> bool {
    &&& w.store.contains_key(Key::Record) && w.store[Key::Record] == decimal(pid as nat)
    &&& w.store.contains_key(Key::Pointer) && w.store[Key::Pointer] == audio_file
    &&& is_capture(w, pid)
    &&& w.files.contains_key(audio_file)
    &&& !w.held
    &&& !w.store.contains_key(Key::Lock)
}

/// A `start` that reports success has set up the session that it reports.
#[verifier::rlimit(40)]
proof fn lemma_start_session(m: StartModel, w: World, request: RequestView, fuel: nat)
    requires
        start_session(m, w, request),
    ensures
        match start_run(m, w, request, fuel).0 {
            Some(StartOutcomeView::Started { pid, audio_file }) => session_of(
                start_run(m, w, request, fuel).1,
                pid,
                audio_file,
            ),
            _ => true,
        },
    decreases fuel,
{
    if fuel > 0 {
        let (w1, reply) = react(w, request);
        let (m1, step) = start_next(m, reply);
        match step {
            StepView::Done(_) => {},
            StepView::Ask(next) => {
                lemma_start_session(m1, w1, next, (fuel - 1) as nat);
            },
        }
    }
}

/// Where `start` reports that a recording has started, the session is in
/// place: the record names the capture process, the pointer names the
/// recording, the process is alive, the recording's file is there, and the
/// lock has been given back and its file removed.
pub proof fn law_start_sets_up_the_session(dir: Seq<char>, stages: Seq<Stage>, w: World)
    requires
        stages.len() <= usize::MAX,
    ensures
        ({
            let m = start_initial(dir, stages);
            let end = start_run(m, w, start_first(), start_budget(m));
            end.0 matches Some(StartOutcomeView::Started { pid, audio_file }) ==> session_of(
                end.1,
                pid,
                audio_file,
            )
        }),
{
    let m = start_initial(dir, stages);
    lemma_start_session(m, w, start_first(), start_budget(m));
}

/// What holds while a `start` takes back the launch of a capture process
/// that it could not record.
pub open spec fn undo_pending(m: StartModel, w: World, request: RequestView) -> bool {
    &&& m.stages.len() <= usize::MAX
    &&& valid_pid(m.pid)
    &&& match m.phase {
        StartPhase::Undoing => {
            &&& request matches RequestView::Strike { pid, .. } && pid == m.pid
            &&& m.delivered <= m.stages.len()
            &&& w.processes.contains_key(m.pid)
        },
        StartPhase::Releasing => {
            &&& request == RequestView::Release
            &&& m.ending is RecordNotWritten || m.ending is Runaway
            &&& m.ending is RecordNotWritten ==> !w.processes.contains_key(m.pid)
            &&& m.ending is Runaway ==> w.processes.contains_key(m.pid)
        },
        _ => false,
    }
}

/// Taking back a launch ends with the capture process gone, or with the
/// report that it could not be killed.
#[verifier::rlimit(40)]
proof fn lemma_undo_run(m: StartModel, w: World, request: RequestView, fuel: nat)
    requires
        undo_pending(m, w, request),
        fuel >= start_rank(m),
    ensures
        !start_run(m, w, request, fuel).1.held,
        match start_run(m, w, request, fuel).0 {
            Some(StartOutcomeView::RecordNotWritten) => !start_run(
                m,
                w,
                request,
                fuel,
            ).1.processes.contains_key(m.pid),
            Some(StartOutcomeView::KillFailed(pid)) => pid == m.pid && start_run(
                m,
                w,
                request,
                fuel,
            ).1.processes.contains_key(pid),
            _ => false,
        },
    decreases fuel,
{
    let (w1, reply) = react(w, request);
    let (m1, step) = start_next(m, reply);
    match step {
        StepView::Done(_) => {},
        StepView::Ask(next) => {
            lemma_undo_run(m1, w1, next, (fuel - 1) as nat);
        },
    }
}

/// A capture process that was launched but could not be recorded is not
/// left running without a name: when the write of the record fails, `start`
/// terminates the process by escalation and reports `RecordNotWritten`, or,
/// where the process survives every stage, reports `KillFailed` for it. Either
/// way the lock is given back.
pub proof fn law_unrecorded_capture_is_undone(m: StartModel, w: World)
    requires
        m.phase == StartPhase::Recording,
        m.stages.len() <= usize::MAX,
        valid_pid(m.pid),
        w.processes.contains_key(m.pid),
    ensures
        ({
            let (m1, step) = start_next(m, ReplyView::Done(false));
            &&& step is Ask
            &&& !start_run(m1, w, step->Ask_0, start_budget(m)).1.held
            &&& match start_run(m1, w, step->Ask_0, start_budget(m)).0 {
                Some(StartOutcomeView::RecordNotWritten) => !start_run(
                    m1,
                    w,
                    step->Ask_0,
                    start_budget(m),
                ).1.processes.contains_key(m.pid),
                Some(StartOutcomeView::KillFailed(pid)) => pid == m.pid && start_run(
                    m1,
                    w,
                    step->Ask_0,
                    start_budget(m),
                ).1.processes.contains_key(pid),
                _ => false,
            }
        }),
{
    let (m1, step) = start_next(m, ReplyView::Done(false));
    lemma_undo_run(m1, w, step->Ask_0, start_budget(m));
}

/// Giving the lock back is idempotent: a second release changes nothing.
pub proof fn law_release_is_idempotent(w: World)
    ensures
        react(react(w, RequestView::Release).0, RequestView::Release) == react(
            w,
            RequestView::Release,
        ),
{
    let once = react(w, RequestView::Release).0;
    assert(once.store.remove(Key::Lock) =~= once.store);
}

/// A lock file that was left behind does not stand in the way: where no
/// live process holds the lock, a fresh attempt takes it, whether the file is
/// there or not.
pub proof fn law_stale_lock_is_reclaimed(w: World)
    requires
        !w.rival,
    ensures
        react(w, RequestView::Acquire).1 == ReplyView::Lock(LockAttempt::Acquired),
        react(w, RequestView::Acquire).0.held,
{
}

/// Stopping a session whose capture process has died: the record is there,
/// the process is not. `stop` reports that there was nothing to stop, and
/// leaves neither the record nor the lock file nor the pointer behind.
#[verifier::rlimit(40)]
pub proof fn law_stop_after_crash(
    dir: Seq<char>,
    audio_file_override: Option<Seq<char>>,
    w: World,
    pid: u32,
)
    requires
        w.store.contains_key(Key::Record),
        read_record(w.store[Key::Record]) == RecordContent::Pid(pid),
        !w.processes.contains_key(pid),
    ensures
        stop(dir, audio_file_override, w).0 == Some(StopOutcomeView::NotFound),
        !stop(dir, audio_file_override, w).1.store.contains_key(Key::Record),
        !stop(dir, audio_file_override, w).1.store.contains_key(Key::Lock),
        !stop(dir, audio_file_override, w).1.store.contains_key(Key::Pointer),
        stop(dir, audio_file_override, w).1.processes == w.processes,
{
    reveal_with_fuel(stop_run, 7);
}

/// The request that delivers the stage `index` of the stages of `m`.
pub open spec fn strike_request(m: StopModel, index: int) -> RequestView {
    RequestView::Strike {
        pid: m.pid,
        signal: m.stages[index].signal,
        pause_ms: m.stages[index].pause_ms,
    }
}

/// A `stop` that finds the record of a live process goes on to deliver the
/// first stage to it.
#[verifier::rlimit(40)]
proof fn lemma_stop_opening(m: StopModel, w: World, pid: u32, fuel: nat)
    requires
        m.phase == StopPhase::Awaiting,
        m.stages.len() > 0,
        w.store.contains_key(Key::Record),
        read_record(w.store[Key::Record]) == RecordContent::Pid(pid),
        valid_pid(pid),
        w.processes.contains_key(pid),
        fuel >= 3,
    ensures
        stop_run(m, w, stop_first(), fuel) == stop_run(
            StopModel { phase: StopPhase::Striking, pid, delivered: 1, ..m },
            w,
            strike_request(StopModel { pid, ..m }, 0),
            (fuel - 3) as nat,
        ),
{
    reveal_with_fuel(stop_run, 4);
}

/// One stage against a live process: the process is gone if it heeds the
/// signal, and the next stage follows if it does not.
#[verifier::rlimit(40)]
proof fn lemma_stop_strike(m: StopModel, w: World, fuel: nat)
    requires
        m.phase == StopPhase::Striking,
        0 < m.delivered <= m.stages.len() <= usize::MAX,
        valid_pid(m.pid),
        w.processes.contains_key(m.pid),
        fuel >= 1,
    ensures
        w.processes[m.pid].heeds.contains(m.stages[m.delivered - 1].signal) ==> stop_run(
            m,
            w,
            strike_request(m, m.delivered - 1),
            fuel,
        ) == stop_run(
            StopModel { phase: StopPhase::ClearingRecord, sequel: Sequel::Resolve, ..m },
            World { processes: w.processes.remove(m.pid), ..w },
            RequestView::Delete(Key::Record),
            (fuel - 1) as nat,
        ),
        !w.processes[m.pid].heeds.contains(m.stages[m.delivered - 1].signal) && m.delivered
            < m.stages.len() ==> stop_run(m, w, strike_request(m, m.delivered - 1), fuel)
            == stop_run(
            StopModel { delivered: (m.delivered + 1) as usize, ..m },
            w,
            strike_request(m, m.delivered as int),
            (fuel - 1) as nat,
        ),
{
}

/// A `stop` whose capture process is gone clears the record and the lock
/// file, and hands back the recording that the pointer names.
#[verifier::rlimit(40)]
proof fn lemma_stop_closing(m: StopModel, w: World, fuel: nat)
    requires
        m.phase == StopPhase::ClearingRecord,
        m.sequel == Sequel::Resolve,
        m.audio_file_override is None,
        w.store.contains_key(Key::Pointer),
        w.files.contains_key(trim(w.store[Key::Pointer])),
        w.files[trim(w.store[Key::Pointer])].size > 44,
        fuel >= 5,
    ensures
        stop_run(m, w, RequestView::Delete(Key::Record), fuel).0 == Some(
            StopOutcomeView::Artifact(trim(w.store[Key::Pointer])),
        ),
        stop_run(m, w, RequestView::Delete(Key::Record), fuel).1 == (World {
            store: w.store.remove(Key::Record).remove(Key::Lock).remove(Key::Pointer),
            ..w
        }),
{
    reveal_with_fuel(stop_run, 6);
}

/// What `law_kill_escalation` states, for a process that is known to ignore
/// the first `ignored` of the three standard stages and to heed the next.
proof fn lemma_kill_escalation_case(dir: Seq<char>, w: World, pid: u32, ignored: nat)
    requires
        w.store.contains_key(Key::Record),
        read_record(w.store[Key::Record]) == RecordContent::Pid(pid),
        valid_pid(pid),
        w.processes.contains_key(pid),
        ignored < 3,
        forall|i: int|
            0 <= i < ignored ==> !w.processes[pid].heeds.contains(
                #[trigger] standard_stages()[i].signal,
            ),
        w.processes[pid].heeds.contains(standard_stages()[ignored as int].signal),
        w.store.contains_key(Key::Pointer),
        w.files.contains_key(trim(w.store[Key::Pointer])),
        w.files[trim(w.store[Key::Pointer])].size > 44,
    ensures
        stop(dir, None, w).0 == Some(StopOutcomeView::Artifact(trim(w.store[Key::Pointer]))),
        !stop(dir, None, w).1.processes.contains_key(pid),
        !stop(dir, None, w).1.store.contains_key(Key::Record),
        !stop(dir, None, w).1.store.contains_key(Key::Lock),
        !stop(dir, None, w).1.store.contains_key(Key::Pointer),
{
    let stages = standard_stages();
    let m0 = stop_initial(
        dir,
        None,
        stages,
        crate::recording::stop::RECORD_POLLS,
        crate::recording::stop::RECORD_POLL_MS,
    );
    assert(stop_budget(m0) == 25);
    lemma_stop_opening(m0, w, pid, 25);
    let m1 = StopModel { phase: StopPhase::Striking, pid, delivered: 1, ..m0 };
    let m2 = StopModel { delivered: 2, ..m1 };
    let m3 = StopModel { delivered: 3, ..m1 };
    assert(strike_request(StopModel { pid, ..m0 }, 0) == strike_request(m1, 0));
    assert(strike_request(m1, 1) == strike_request(m2, 1));
    assert(strike_request(m2, 2) == strike_request(m3, 2));
    lemma_stop_strike(m1, w, 22);
    let gone = World { processes: w.processes.remove(pid), ..w };
    if ignored == 0 {
        lemma_stop_closing(
            StopModel { phase: StopPhase::ClearingRecord, sequel: Sequel::Resolve, ..m1 },
            gone,
            21,
        );
    } else {
        assert(!w.processes[pid].heeds.contains(stages[0].signal));
        lemma_stop_strike(m2, w, 21);
        if ignored == 1 {
            lemma_stop_closing(
                StopModel { phase: StopPhase::ClearingRecord, sequel: Sequel::Resolve, ..m2 },
                gone,
                20,
            );
        } else {
            assert(!w.processes[pid].heeds.contains(stages[1].signal));
            lemma_stop_strike(m3, w, 20);
            lemma_stop_closing(
                StopModel { phase: StopPhase::ClearingRecord, sequel: Sequel::Resolve, ..m3 },
                gone,
                19,
            );
        }
    }
}

/// Stopping a live session whose capture process cannot ignore the kill
/// signal, whatever else it ignores: the process is gone afterwards, the
/// record, the lock file and the pointer are cleared, and `stop` hands back
/// the recording that the pointer named.
pub proof fn law_kill_escalation(dir: Seq<char>, w: World, pid: u32)
    requires
        w.store.contains_key(Key::Record),
        read_record(w.store[Key::Record]) == RecordContent::Pid(pid),
        valid_pid(pid),
        w.processes.contains_key(pid),
        w.processes[pid].heeds.contains(Signal::Kill),
        w.store.contains_key(Key::Pointer),
        w.files.contains_key(trim(w.store[Key::Pointer])),
        w.files[trim(w.store[Key::Pointer])].size > 44,
    ensures
        stop(dir, None, w).0 == Some(StopOutcomeView::Artifact(trim(w.store[Key::Pointer]))),
        !stop(dir, None, w).1.processes.contains_key(pid),
        !stop(dir, None, w).1.store.contains_key(Key::Record),
        !stop(dir, None, w).1.store.contains_key(Key::Lock),
        !stop(dir, None, w).1.store.contains_key(Key::Pointer),
{
    let stages = standard_stages();
    let heeds = w.processes[pid].heeds;
    assert(stages[0].signal == Signal::Interrupt);
    assert(stages[1].signal == Signal::Terminate);
    assert(stages[2].signal == Signal::Kill);
    if heeds.contains(Signal::Interrupt) {
        lemma_kill_escalation_case(dir, w, pid, 0);
    } else if heeds.contains(Signal::Terminate) {
        lemma_kill_escalation_case(dir, w, pid, 1);
    } else {
        lemma_kill_escalation_case(dir, w, pid, 2);
    }
}

} // verus!
