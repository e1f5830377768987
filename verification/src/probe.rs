//! Process probe: interpreting the result of sending the null signal to a
//! process identifier.

use vstd::prelude::*;

verus! {

/// What came back from sending the null signal to a process.
#[derive(Clone, Copy, Debug, PartialEq, Eq, Structural)]
pub enum ProbeOutcome {
    /// The signal could be delivered.
    Delivered,
    /// The process exists but belongs to somebody else.
    PermissionDenied,
    /// No process has this identifier.
    NoSuchProcess,
    /// The probe itself could not be carried out.
    Failed,
}

/// Whether `pid` can name a single process: the identifier is positive and
/// fits the signed type that the kernel uses.
pub open spec fn valid_pid(pid: u32) -> bool {
    1 <= pid <= 0x7fff_ffff
}

/// Whether a probe outcome shows that a process exists.
pub open spec fn shows_alive(outcome: ProbeOutcome) -> bool {
    outcome is Delivered || outcome is PermissionDenied
}

/// The identifier to send the null signal to, or `None` where `pid` cannot
/// name a single process and must not be probed at all.
pub fn probe_target(pid: u32) -> (target: Option<i32>)
    ensures
        target is Some <==> valid_pid(pid),
        target matches Some(t) ==> t == pid,
{
    if pid == 0 || pid > 0x7fff_ffff {
        None
    } else {
        Some(pid as i32)
    }
}

/// Whether the process `pid` is alive, given the outcome of probing it.
///
/// An identifier that cannot name a single process is never alive, whatever
/// the probe reported.
pub fn is_process_running(pid: u32, outcome: ProbeOutcome) -> (alive: bool)
    ensures
        alive == (valid_pid(pid) && shows_alive(outcome)),
{
    if pid == 0 || pid > 0x7fff_ffff {
        return false;
    }
    match outcome {
        ProbeOutcome::Delivered => true,
        ProbeOutcome::PermissionDenied => true,
        ProbeOutcome::NoSuchProcess => false,
        ProbeOutcome::Failed => false,
    }
}

} // verus!
