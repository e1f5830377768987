//! What holds of the two paths to a transcript taken together.

use crate::faster_whisper::client::{
    after_exchange, after_fallback, after_stop, transcribe_initial, transcribe_next, Event, OutcomeView, Phase,
    Route, TaskView, TranscriptionModel,
};
use crate::faster_whisper::direct::RunResult;
use crate::recording::stop::StopOutcome;
use crate::socket::laws::{
    law_failure_round_trip, law_request_round_trip, law_success_round_trip,
};
use crate::socket::{
    failure_detail, path_field, response_envelope, success_envelope, Exchange,
};
use crate::text::trim;
use vstd::prelude::*;

verus! {

/// How many of `tasks` run the backend in the daemon's place.
pub open spec fn fallbacks(tasks: Seq<TaskView>) -> nat
    decreases tasks.len(),
{
    if tasks.len() == 0 {
        0
    } else {
        fallbacks(tasks.drop_last()) + if tasks.last() is Fallback {
            1nat
        } else {
            0nat
        }
    }
}

/// How many times the backend is run in the daemon's place when the driver
/// reports `events`, one after the other, from the state `m` on.
pub open spec fn fallbacks_over(m: TranscriptionModel, events: Seq<Event>) -> nat
    decreases events.len(),
{
    if events.len() == 0 {
        0
    } else {
        let (next, turn) = transcribe_next(m, events[0]);
        fallbacks(turn.tasks) + fallbacks_over(next, events.drop_first())
    }
}

/// Whether the step from `m` on `event` is the one that finds the daemon
/// unreachable.
pub open spec fn finds_unreachable(m: TranscriptionModel, event: Event) -> bool {
    m.phase == Phase::Exchanging && event is Exchanged && event->Exchanged_0 is Unreachable
}

/// How many fallbacks one step comes to: one where the daemon was waited for
/// and could not be reached, none otherwise.
#[verifier::rlimit(40)]
proof fn lemma_step_fallbacks(m: TranscriptionModel, event: Event)
    ensures
        fallbacks(transcribe_next(m, event).1.tasks) == if finds_unreachable(m, event) {
            1nat
        } else {
            0nat
        },
        finds_unreachable(m, event) ==> transcribe_next(m, event).0.phase == Phase::FallingBack,
        transcribe_next(m, event).0.phase == Phase::Exchanging ==> m.phase == Phase::Stopping,
        transcribe_next(m, event).0.phase != Phase::Stopping,
{
    reveal_with_fuel(fallbacks, 4);
    let tasks = transcribe_next(m, event).1.tasks;
    if tasks.len() == 3 {
        assert(tasks.drop_last().drop_last().drop_last() =~= Seq::<TaskView>::empty());
    } else if tasks.len() == 2 {
        assert(tasks.drop_last().drop_last() =~= Seq::<TaskView>::empty());
    } else if tasks.len() == 1 {
        assert(tasks.drop_last() =~= Seq::<TaskView>::empty());
    }
}

/// From a state that no longer waits for the stop of the recording, the
/// backend is run in the daemon's place at most once, and not at all once
/// the daemon has answered or the fallback has run.
proof fn lemma_fallbacks_bounded(m: TranscriptionModel, events: Seq<Event>)
    ensures
        fallbacks_over(m, events) <= 1,
        m.phase == Phase::FallingBack || m.phase == Phase::Finished ==> fallbacks_over(m, events)
            == 0,
    decreases events.len(),
{
    if events.len() > 0 {
        let (next, turn) = transcribe_next(m, events[0]);
        lemma_step_fallbacks(m, events[0]);
        lemma_fallbacks_bounded(next, events.drop_first());
    }
}

/// Whatever the driver reports, and in whatever order, the backend is run in
/// the daemon's place at most once in one stop-and-transcribe.
pub proof fn law_fallback_at_most_once(
    socket_path: Seq<char>,
    use_clipboard: bool,
    model: Seq<char>,
    acceleration: Seq<char>,
    events: Seq<Event>,
)
    ensures
        fallbacks_over(
            transcribe_initial(socket_path, use_clipboard, model, acceleration),
            events,
        ) <= 1,
{
    lemma_fallbacks_bounded(
        transcribe_initial(socket_path, use_clipboard, model, acceleration),
        events,
    );
}

/// Where there is a recording and no daemon can be reached, the backend is
/// run in the daemon's place exactly once, on that recording and with the
/// model that was asked for, however the operation goes on.
#[verifier::rlimit(40)]
pub proof fn law_unreachable_daemon_falls_back(
    socket_path: Seq<char>,
    use_clipboard: bool,
    model: Seq<char>,
    acceleration: Seq<char>,
    events: Seq<Event>,
)
    requires
        events.len() >= 2,
        events[0] is Stopped && events[0]->Stopped_0 is Artifact,
        events[1] is Exchanged && events[1]->Exchanged_0 is Unreachable,
    ensures
        fallbacks_over(
            transcribe_initial(socket_path, use_clipboard, model, acceleration),
            events,
        ) == 1,
        ({
            let m = transcribe_initial(socket_path, use_clipboard, model, acceleration);
            let (m1, first) = transcribe_next(m, events[0]);
            let (m2, second) = transcribe_next(m1, events[1]);
            &&& second.outcome is None
            &&& second.tasks.last() == (TaskView::Fallback {
                audio_file: events[0]->Stopped_0->Artifact_0@,
                model,
            })
        }),
{
    let m = transcribe_initial(socket_path, use_clipboard, model, acceleration);
    let (m1, first) = transcribe_next(m, events[0]);
    let (m2, second) = transcribe_next(m1, events[1]);
    let rest = events.drop_first();
    assert(rest[0] == events[1]);
    lemma_step_fallbacks(m, events[0]);
    lemma_step_fallbacks(m1, events[1]);
    lemma_fallbacks_bounded(m2, rest.drop_first());
    assert(fallbacks_over(m, events) == fallbacks(first.tasks) + fallbacks_over(m1, rest));
    assert(fallbacks_over(m1, rest) == fallbacks(second.tasks) + fallbacks_over(
        m2,
        rest.drop_first(),
    ));
}

/// The request that is sent for a recording names that recording, whatever
/// its path holds.
#[verifier::rlimit(40)]
pub proof fn law_request_names_the_recording(m: TranscriptionModel, path: String)
    ensures
        ({
            let turn = after_stop(m, StopOutcome::Artifact(path)).1;
            &&& turn.outcome is None
            &&& turn.tasks.len() == 2
            &&& turn.tasks[1] is Exchange
            &&& turn.tasks[1]->Exchange_socket_path == m.socket_path
            &&& path_field(turn.tasks[1]->Exchange_payload) == Some(path@)
        }),
{
    law_request_round_trip(path@);
}

/// A failure of the backend reaches the caller with its detail, whatever
/// the detail holds, and nothing is handed to the output sink.
#[verifier::rlimit(40)]
pub proof fn law_failure_reaches_the_caller(
    m: TranscriptionModel,
    detail: Seq<char>,
    response: String,
)
    requires
        response@ == response_envelope(Err(detail)),
    ensures
        ({
            let turn = after_exchange(m, Exchange::Answered(response)).1;
            &&& turn.outcome == Some(OutcomeView::BackendFailed(Some(failure_detail(detail))))
            &&& failure_detail(detail).len() > 0
            &&& turn.tasks.len() == 2
            &&& turn.tasks[0] is Notify
            &&& turn.tasks[1] == TaskView::Remove(m.audio_file)
        }),
{
    law_failure_round_trip(detail);
}

/// The fallback hands its text to the output sink as the daemon path does:
/// for the same transcript, the two paths come to the same delivery, but for
/// the name of the path, and both then remove the recording.
#[verifier::rlimit(40)]
pub proof fn law_fallback_delivers_alike(
    m: TranscriptionModel,
    text: Seq<char>,
    stdout: String,
    stderr: String,
    response: String,
)
    requires
        response@ == success_envelope(text),
        stdout@ == text,
    ensures
        ({
            let daemon = after_exchange(m, Exchange::Answered(response)).1;
            let fallback = after_fallback(m, RunResult::Ran { success: true, stdout, stderr }).1;
            &&& daemon.outcome == Some(OutcomeView::Delivered(Route::Daemon))
            &&& fallback.outcome == Some(OutcomeView::Delivered(Route::Fallback))
            &&& daemon.tasks.len() == 2 && fallback.tasks.len() == 2
            &&& daemon.tasks[0] == (TaskView::Deliver {
                text: trim(text),
                use_clipboard: m.use_clipboard,
                backend_name: "faster-whisper"@ + " daemon"@,
            })
            &&& fallback.tasks[0] == (TaskView::Deliver {
                text: trim(text),
                use_clipboard: m.use_clipboard,
                backend_name: "faster-whisper"@,
            })
            &&& daemon.tasks[1] == fallback.tasks[1]
        }),
{
    law_success_round_trip(text);
}

} // verus!
