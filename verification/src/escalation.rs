//! Terminating a process by escalating signals: an ordered list of stages,
//! each a signal and the pause that follows it, and the one routine that
//! consumes the list.

use vstd::prelude::*;

verus! {

/// The signals that the escalation sends, weakest first.
#[derive(Clone, Copy, Debug, PartialEq, Eq, Structural)]
pub enum Signal {
    /// Asks the process to finish what it is writing and exit.
    Interrupt,
    /// Asks the process to exit.
    Terminate,
    /// Ends the process; it cannot be caught or ignored.
    Kill,
}

/// One stage of the escalation: the signal to send and how long to wait
/// before looking at the process again.
#[derive(Clone, Copy, Debug, PartialEq, Eq, Structural)]
pub struct Stage {
    pub signal: Signal,
    pub pause_ms: u64,
}

/// The next move of the escalation.
#[derive(Clone, Copy, Debug, PartialEq, Eq, Structural)]
pub enum Verdict {
    /// Send this stage's signal, wait, and probe the process again.
    Strike(Stage),
    /// The process is gone.
    Stopped,
    /// Every stage was delivered and the process is still alive.
    Stuck,
}

/// The stages used for a capture process: interrupt, terminate, kill.
pub open spec fn standard_stages() -> Seq<Stage> {
    seq![
        Stage { signal: Signal::Interrupt, pause_ms: 100 },
        Stage { signal: Signal::Terminate, pause_ms: 100 },
        Stage { signal: Signal::Kill, pause_ms: 50 },
    ]
}

/// The next move once `delivered` stages have been delivered and the process
/// was then found alive or not.
pub open spec fn next_move(stages: Seq<Stage>, delivered: nat, alive: bool) -> Verdict {
    if !alive {
        Verdict::Stopped
    } else if delivered < stages.len() {
        Verdict::Strike(stages[delivered as int])
    } else {
        Verdict::Stuck
    }
}

/// The number that the kernel gives to `signal`.
pub open spec fn signal_code(signal: Signal) -> i32 {
    match signal {
        Signal::Interrupt => 2,
        Signal::Terminate => 15,
        Signal::Kill => 9,
    }
}

/// The number that the kernel gives to `signal`.
pub fn signal_number(signal: Signal) -> (n: i32)
    ensures
        n == signal_code(signal),
{
    match signal {
        Signal::Interrupt => 2,
        Signal::Terminate => 15,
        Signal::Kill => 9,
    }
}

/// The stages used for a capture process.
pub fn escalation_stages() -> (stages: Vec<Stage>)
    ensures
        stages@ == standard_stages(),
{
    let mut stages: Vec<Stage> = Vec::new();
    stages.push(Stage { signal: Signal::Interrupt, pause_ms: 100 });
    stages.push(Stage { signal: Signal::Terminate, pause_ms: 100 });
    stages.push(Stage { signal: Signal::Kill, pause_ms: 50 });
    assert(stages@ =~= standard_stages());
    stages
}

/// Decides the next move in terminating a process: nothing more once it is
/// gone, the next stage while there is one, and failure when the last stage
/// has left it alive.
pub fn terminate_with_escalation(stages: &Vec<Stage>, delivered: usize, alive: bool) -> (verdict:
    Verdict)
    ensures
        verdict == next_move(stages@, delivered as nat, alive),
{
    if !alive {
        Verdict::Stopped
    } else if delivered < stages.len() {
        Verdict::Strike(stages[delivered])
    } else {
        Verdict::Stuck
    }
}

/// How the escalation ends for a live process that exits on the signals in
/// `heeds` and on no other, from the point where `delivered` stages have been
/// delivered and left it alive: the last verdict, and the number of stages
/// delivered in all.
pub open spec fn escalate(stages: Seq<Stage>, heeds: Set<Signal>, delivered: nat) -> (Verdict, nat)
    decreases stages.len() - delivered,
{
    match next_move(stages, delivered, true) {
        Verdict::Strike(stage) => {
            if heeds.contains(stage.signal) {
                (next_move(stages, delivered + 1, false), delivered + 1)
            } else {
                escalate(stages, heeds, delivered + 1)
            }
        },
        verdict => (verdict, delivered),
    }
}

/// The escalation stops a process exactly when some stage that is still to
/// come carries a signal that the process heeds. It then ends right after the
/// first such stage, and the process survived every stage before it. Where
/// there is no such stage, every stage is delivered and the escalation fails.
pub proof fn law_escalation_outcome(stages: Seq<Stage>, heeds: Set<Signal>, delivered: nat)
    requires
        delivered <= stages.len(),
    ensures
        escalate(stages, heeds, delivered).0 is Stopped <==> exists|i: int|
            delivered <= i < stages.len() && heeds.contains(#[trigger] stages[i].signal),
        escalate(stages, heeds, delivered).0 is Stopped || escalate(
            stages,
            heeds,
            delivered,
        ).0 is Stuck,
        escalate(stages, heeds, delivered).0 is Stuck ==> escalate(stages, heeds, delivered).1
            == stages.len(),
        escalate(stages, heeds, delivered).0 is Stopped ==> {
            let n = escalate(stages, heeds, delivered).1;
            &&& delivered < n <= stages.len()
            &&& heeds.contains(stages[n - 1].signal)
            &&& forall|i: int|
                delivered <= i < n - 1 ==> !heeds.contains(#[trigger] stages[i].signal)
        },
    decreases stages.len() - delivered,
{
    if delivered < stages.len() && !heeds.contains(stages[delivered as int].signal) {
        law_escalation_outcome(stages, heeds, (delivered + 1) as nat);
    }
}

/// A process that cannot ignore the kill signal is stopped by the standard
/// stages, and where it ignores the interrupt and the terminate signal it
/// takes all three of them.
pub proof fn law_kill_is_final(heeds: Set<Signal>)
    requires
        heeds.contains(Signal::Kill),
    ensures
        escalate(standard_stages(), heeds, 0).0 is Stopped,
        !heeds.contains(Signal::Interrupt) && !heeds.contains(Signal::Terminate) ==> escalate(
            standard_stages(),
            heeds,
            0,
        ).1 == 3,
{
    let stages = standard_stages();
    assert(stages[2].signal == Signal::Kill);
    law_escalation_outcome(stages, heeds, 0);
    reveal_with_fuel(escalate, 4);
}

} // verus!
