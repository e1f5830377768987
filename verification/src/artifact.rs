//! Audio artifacts: how recordings are named, which of them are garbage,
//! and when a finished recording holds any audio at all.

use crate::text::{
    decimal, ends_with, has_prefix, has_suffix, push_decimal, same_text, starts_with, to_chars,
    views,
};
use vstd::prelude::*;
use vstd::string::StringExecFns;

verus! {

/// Recordings older than this many seconds are garbage.
pub const MAX_RECORDING_AGE_SECS: u64 = 600;

/// The length of the header of a recording. A file no longer than this
/// holds no audio.
pub const WAV_HEADER_BYTES: u64 = 44;

/// A file found in the artifact directory.
#[derive(Clone, Debug, PartialEq, Eq)]
pub struct ArtifactInfo {
    /// The file's name within the directory.
    pub name: String,
    /// The file's full path.
    pub path: String,
    /// Seconds since the file was last written, where that is known and not
    /// in the future.
    pub age_secs: Option<u64>,
}

/// What a recording turned out to be once the capture process was gone.
#[derive(Clone, Copy, Debug, PartialEq, Eq, Structural)]
pub enum ArtifactState {
    /// There is no such file.
    Missing,
    /// The file holds a header at most, and no audio.
    Empty,
    /// The file holds audio.
    Ready,
}

/// The path of the recording that starts at `millis` milliseconds since the
/// epoch, in the directory `dir`.
pub open spec fn artifact_name(dir: Seq<char>, millis: nat) -> Seq<char> {
    dir + "/voice-recording-"@ + decimal(millis) + ".wav"@
}

/// The path of the slot that receives a copy of a caller's own audio file at
/// `millis` milliseconds since the epoch, in the directory `dir`.
pub open spec fn override_name(dir: Seq<char>, millis: nat) -> Seq<char> {
    dir + "/voice-recording-override-"@ + decimal(millis) + ".wav"@
}

/// What a file of `size` bytes is as a recording, `None` standing for a file
/// that does not exist.
pub open spec fn artifact_state(size: Option<u64>) -> ArtifactState {
    match size {
        None => ArtifactState::Missing,
        Some(n) => if n <= WAV_HEADER_BYTES {
            ArtifactState::Empty
        } else {
            ArtifactState::Ready
        },
    }
}

/// Whether the file is an old recording that may be removed: it is named as
/// recordings are, it is not the recording `current`, and it was last written
/// more than `MAX_RECORDING_AGE_SECS` seconds ago.
pub open spec fn is_garbage(entry: ArtifactInfo, current: Option<Seq<char>>) -> bool {
    &&& starts_with(entry.name@, "voice-recording-"@)
    &&& ends_with(entry.name@, ".wav"@)
    &&& current != Some(entry.path@)
    &&& entry.age_secs matches Some(age)
    &&& age > MAX_RECORDING_AGE_SECS
}

/// The paths of the garbage among `entries`, in the order of `entries`.
pub open spec fn garbage_paths(entries: Seq<ArtifactInfo>, current: Option<Seq<char>>) -> Seq<
    Seq<char>,
>
    decreases entries.len(),
{
    if entries.len() == 0 {
        Seq::empty()
    } else {
        let rest = garbage_paths(entries.drop_last(), current);
        if is_garbage(entries.last(), current) {
            rest.push(entries.last().path@)
        } else {
            rest
        }
    }
}

/// Names the recording that starts at `millis` milliseconds since the epoch.
pub fn artifact_path(runtime_dir: &str, millis: u128) -> (path: String)
    ensures
        path@ == artifact_name(runtime_dir@, millis as nat),
{
    let mut path = String::from_str(runtime_dir);
    path.append("/voice-recording-");
    push_decimal(&mut path, millis);
    path.append(".wav");
    path
}

/// Names the slot that receives a copy of a caller's own audio file.
pub fn override_path(runtime_dir: &str, millis: u128) -> (path: String)
    ensures
        path@ == override_name(runtime_dir@, millis as nat),
{
    let mut path = String::from_str(runtime_dir);
    path.append("/voice-recording-override-");
    push_decimal(&mut path, millis);
    path.append(".wav");
    path
}

/// Tells a recording with audio from a header-only file and from no file.
pub fn classify_artifact(size: Option<u64>) -> (state: ArtifactState)
    ensures
        state == artifact_state(size),
{
    match size {
        None => ArtifactState::Missing,
        Some(n) => if n <= WAV_HEADER_BYTES {
            ArtifactState::Empty
        } else {
            ArtifactState::Ready
        },
    }
}

/// Whether `entry` is an old recording that may be removed.
pub fn is_old_recording(entry: &ArtifactInfo, current: Option<&str>) -> (old: bool)
    ensures
        old == is_garbage(
            *entry,
            match current {
                Some(c) => Some(c@),
                None => None,
            },
        ),
{
    let name = to_chars(entry.name.as_str());
    let prefix = to_chars("voice-recording-");
    let suffix = to_chars(".wav");
    if !has_prefix(&name, &prefix) || !has_suffix(&name, &suffix) {
        return false;
    }
    if let Some(c) = current {
        let kept = to_chars(c);
        let path = to_chars(entry.path.as_str());
        if same_text(&kept, &path) {
            return false;
        }
    }
    match entry.age_secs {
        Some(age) => age > MAX_RECORDING_AGE_SECS,
        None => false,
    }
}

/// Picks the old recordings to remove from what was found in the artifact
/// directory, leaving `current_audio_file` alone whatever its age.
pub fn cleanup_old_recordings(
    entries: &Vec<ArtifactInfo>,
    current_audio_file: Option<&str>,
) -> (doomed: Vec<String>)
    ensures
        views(doomed@) == garbage_paths(
            entries@,
            match current_audio_file {
                Some(c) => Some(c@),
                None => None,
            },
        ),
{
    let ghost current: Option<Seq<char>> = match current_audio_file {
        Some(c) => Some(c@),
        None => None,
    };
    let mut doomed: Vec<String> = Vec::new();
    let mut i: usize = 0;
    assert(entries@.take(0) =~= Seq::<ArtifactInfo>::empty());
    assert(views(doomed@) =~= Seq::<Seq<char>>::empty());
    while i < entries.len()
        invariant
            i <= entries.len(),
            current == match current_audio_file {
                Some(c) => Some(c@),
                None => None,
            },
            views(doomed@) == garbage_paths(entries@.take(i as int), current),
        decreases entries.len() - i,
    {
        let ghost before = doomed@;
        if is_old_recording(&entries[i], current_audio_file) {
            doomed.push(entries[i].path.clone());
        }
        proof {
            let upto = entries@.take(i + 1);
            assert(upto.drop_last() =~= entries@.take(i as int));
            assert(upto.last() == entries@[i as int]);
            if is_garbage(entries@[i as int], current) {
                assert(views(doomed@) =~= views(before).push(entries@[i as int].path@));
            }
        }
        i += 1;
    }
    assert(entries@.take(i as int) =~= entries@);
    doomed
}

/// A path is picked for removal exactly when it is the path of some entry
/// that is garbage.
pub proof fn law_only_garbage_is_removed(
    entries: Seq<ArtifactInfo>,
    current: Option<Seq<char>>,
    path: Seq<char>,
)
    ensures
        garbage_paths(entries, current).contains(path) <==> exists|i: int|
            0 <= i < entries.len() && is_garbage(#[trigger] entries[i], current) && entries[i].path@
                == path,
    decreases entries.len(),
{
    if entries.len() > 0 {
        let front = entries.drop_last();
        let rest = garbage_paths(front, current);
        law_only_garbage_is_removed(front, current, path);
        if garbage_paths(entries, current).contains(path) {
            if is_garbage(entries.last(), current) && entries.last().path@ == path {
                assert(is_garbage(entries[entries.len() - 1], current));
            } else {
                if is_garbage(entries.last(), current) {
                    let k = choose|k: int|
                        0 <= k < rest.push(entries.last().path@).len() && rest.push(
                            entries.last().path@,
                        )[k] == path;
                    assert(rest[k] == path);
                }
                assert(rest.contains(path));
                let i = choose|i: int|
                    0 <= i < front.len() && is_garbage(#[trigger] front[i], current) && front[i].path@
                        == path;
                assert(entries[i] == front[i]);
            }
        }
        if exists|i: int|
            0 <= i < entries.len() && is_garbage(#[trigger] entries[i], current) && entries[i].path@
                == path {
            let i = choose|i: int|
                0 <= i < entries.len() && is_garbage(#[trigger] entries[i], current)
                    && entries[i].path@ == path;
            if i < front.len() {
                assert(front[i] == entries[i]);
                assert(rest.contains(path));
                let k = choose|k: int| 0 <= k < rest.len() && rest[k] == path;
                if is_garbage(entries.last(), current) {
                    assert(rest.push(entries.last().path@)[k] == path);
                }
            } else {
                assert(rest.push(path)[rest.len() as int] == path);
            }
        }
    }
}

/// The recording that is current is never picked for removal, whatever its
/// age.
pub proof fn law_current_recording_is_kept(entries: Seq<ArtifactInfo>, current: Seq<char>)
    ensures
        !garbage_paths(entries, Some(current)).contains(current),
{
    law_only_garbage_is_removed(entries, Some(current), current);
}

} // verus!
