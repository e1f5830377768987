//! What a recording operation asks of the world around it, and what the
//! world answers: a small store of named entries, the session lock, processes
//! and the artifact directory.

use crate::escalation::Signal;
use crate::lock::{LockAttempt, LockProbe};
use crate::probe::ProbeOutcome;
use crate::text::{decimal, push_decimal, view_of};
use vstd::string::StringExecFns;
use vstd::prelude::*;

verus! {

/// The entries of the session store.
#[derive(Clone, Copy, Debug, PartialEq, Eq, Structural)]
pub enum Key {
    /// The session record: the identifier of the capture process.
    Record,
    /// The path of the recording that the capture process writes.
    Pointer,
    /// The file that the session lock is taken on.
    Lock,
}

/// One thing for the driver to do. Each request is answered by one reply.
#[derive(Clone, Debug, PartialEq, Eq)]
pub enum Request {
    /// Wait `pause_ms` milliseconds, then tell whether the session record
    /// exists. Answered by `Reply::Present`.
    Await { pause_ms: u64 },
    /// Read an entry of the store. Answered by `Reply::Value`.
    Get(Key),
    /// Write an entry of the store. Answered by `Reply::Done`.
    Put(Key, String),
    /// Remove an entry of the store, if it is there. Answered by
    /// `Reply::Done`.
    Delete(Key),
    /// Try once, without waiting, to take the session lock. Answered by
    /// `Reply::Lock`.
    Acquire,
    /// Give the session lock back and remove its file. Answered by
    /// `Reply::Done`.
    Release,
    /// Look at the lock file without keeping the lock. Answered by
    /// `Reply::Looked`.
    Look,
    /// Probe a process. Answered by `Reply::Probed`.
    Probe { pid: u32 },
    /// Send `signal` to a process, wait `pause_ms` milliseconds and probe the
    /// process. Answered by `Reply::Probed`.
    Strike { pid: u32, signal: Signal, pause_ms: u64 },
    /// Remove the old recordings from the artifact directory, but for the
    /// recording `keep`. Answered by `Reply::Done`.
    Sweep { keep: Option<String> },
    /// Read the clock. Answered by `Reply::Time`.
    Clock,
    /// Launch the capture process, writing to `path`. Answered by
    /// `Reply::Spawned`.
    Spawn { path: String },
    /// Copy the file `from` to `to`. Answered by `Reply::Done`.
    Import { from: String, to: String },
    /// Look up the size of the file `path`. Answered by `Reply::Size`.
    Inspect { path: String },
}

/// The driver's answer to a request.
#[derive(Clone, Debug, PartialEq, Eq)]
pub enum Reply {
    /// Whether the session record exists.
    Present(bool),
    /// The text of an entry, or `None` where it is missing or unreadable.
    Value(Option<String>),
    /// Whether the action succeeded.
    Done(bool),
    /// How the attempt to take the lock went.
    Lock(LockAttempt),
    /// What the look at the lock file showed.
    Looked(LockProbe),
    /// What the probe of the process showed.
    Probed(ProbeOutcome),
    /// Milliseconds since the epoch.
    Time(u128),
    /// The identifier of the launched process, or `None` where the launch
    /// failed.
    Spawned(Option<u32>),
    /// The size of the file in bytes, or `None` where there is no such file.
    Size(Option<u64>),
}

/// One step of an operation: the next request, or the operation's outcome.
#[derive(Clone, Debug, PartialEq, Eq)]
pub enum Step<O> {
    Ask(Request),
    Done(O),
}

/// A request, with its texts as sequences of characters.
pub enum RequestView {
    Await { pause_ms: u64 },
    Get(Key),
    Put(Key, Seq<char>),
    Delete(Key),
    Acquire,
    Release,
    Look,
    Probe { pid: u32 },
    Strike { pid: u32, signal: Signal, pause_ms: u64 },
    Sweep { keep: Option<Seq<char>> },
    Clock,
    Spawn { path: Seq<char> },
    Import { from: Seq<char>, to: Seq<char> },
    Inspect { path: Seq<char> },
}

/// A reply, with its texts as sequences of characters.
pub enum ReplyView {
    Present(bool),
    Value(Option<Seq<char>>),
    Done(bool),
    Lock(LockAttempt),
    Looked(LockProbe),
    Probed(ProbeOutcome),
    Time(u128),
    Spawned(Option<u32>),
    Size(Option<u64>),
}

/// A step, with its texts as sequences of characters.
pub enum StepView<O> {
    Ask(RequestView),
    Done(O),
}

/// Where an entry of the session store is kept for the user `uid`. The
/// record and the lock file are shared by all sessions of the machine; the
/// pointer is the user's own.
pub open spec fn entry_path(key: Key, uid: u32) -> Seq<char> {
    match key {
        Key::Record => "/tmp/whisp-away-recording.pid"@,
        Key::Lock => "/tmp/whisp-away-recording.lock"@,
        Key::Pointer => "/run/user/"@ + decimal(uid as nat) + "/voice-audio-file.tmp"@,
    }
}

/// The path of the file that holds an entry of the session store.
pub fn store_path(key: Key, uid: u32) -> (path: String)
    ensures
        path@ == entry_path(key, uid),
{
    match key {
        Key::Record => String::from_str("/tmp/whisp-away-recording.pid"),
        Key::Lock => String::from_str("/tmp/whisp-away-recording.lock"),
        Key::Pointer => {
            let mut path = String::from_str("/run/user/");
            push_decimal(&mut path, uid as u128);
            path.append("/voice-audio-file.tmp");
            path
        },
    }
}

impl View for Request {
    type V = RequestView;

    open spec fn view(&self) -> RequestView {
        match *self {
            Request::Await { pause_ms } => RequestView::Await { pause_ms },
            Request::Get(key) => RequestView::Get(key),
            Request::Put(key, text) => RequestView::Put(key, text@),
            Request::Delete(key) => RequestView::Delete(key),
            Request::Acquire => RequestView::Acquire,
            Request::Release => RequestView::Release,
            Request::Look => RequestView::Look,
            Request::Probe { pid } => RequestView::Probe { pid },
            Request::Strike { pid, signal, pause_ms } => RequestView::Strike {
                pid,
                signal,
                pause_ms,
            },
            Request::Sweep { keep } => RequestView::Sweep { keep: view_of(keep) },
            Request::Clock => RequestView::Clock,
            Request::Spawn { path } => RequestView::Spawn { path: path@ },
            Request::Import { from, to } => RequestView::Import { from: from@, to: to@ },
            Request::Inspect { path } => RequestView::Inspect { path: path@ },
        }
    }
}

impl View for Reply {
    type V = ReplyView;

    open spec fn view(&self) -> ReplyView {
        match *self {
            Reply::Present(found) => ReplyView::Present(found),
            Reply::Value(text) => ReplyView::Value(view_of(text)),
            Reply::Done(ok) => ReplyView::Done(ok),
            Reply::Lock(attempt) => ReplyView::Lock(attempt),
            Reply::Looked(probe) => ReplyView::Looked(probe),
            Reply::Probed(outcome) => ReplyView::Probed(outcome),
            Reply::Time(millis) => ReplyView::Time(millis),
            Reply::Spawned(pid) => ReplyView::Spawned(pid),
            Reply::Size(size) => ReplyView::Size(size),
        }
    }
}

impl<O: View> View for Step<O> {
    type V = StepView<O::V>;

    open spec fn view(&self) -> StepView<O::V> {
        match *self {
            Step::Ask(request) => StepView::Ask(request@),
            Step::Done(outcome) => StepView::Done(outcome@),
        }
    }
}

} // verus!
