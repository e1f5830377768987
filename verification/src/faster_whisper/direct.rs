//! The fallback path: one run of the backend as a program of its own, for
//! when no daemon can be reached.

use crate::helpers::{value_or, Notification};
use crate::text::{from_chars, to_chars, trim, trim_text, views};
use vstd::prelude::*;
use vstd::string::StringExecFns;

verus! {

/// How many characters of the backend's error output a notification shows.
pub const SHOWN_ERROR_CHARS: usize = 100;

/// What the environment says about the backend.
#[derive(Clone, Debug)]
pub struct BackendEnv {
    /// The Python interpreter to run.
    pub python: Option<String>,
    /// Where Python finds the backend's modules.
    pub pythonpath: Option<String>,
    /// The script to run.
    pub script: Option<String>,
    /// The devices that the backend may use, handed on as it is.
    pub cuda_visible_devices: Option<String>,
    /// Where the backend finds its libraries, handed on as it is.
    pub ld_library_path: Option<String>,
}

/// A program to run with its arguments and the variables to set for it.
#[derive(Clone, Debug, PartialEq, Eq)]
pub struct Invocation {
    pub program: String,
    pub args: Vec<String>,
    pub env: Vec<(String, String)>,
}

/// How a run of the backend went.
#[derive(Clone, Debug, PartialEq, Eq)]
pub enum RunResult {
    /// The backend ran. `success` tells how it exited.
    Ran { success: bool, stdout: String, stderr: String },
    /// The backend could not be run at all.
    NotRun,
}

/// Why the fallback path gave no text.
#[derive(Clone, Debug, PartialEq, Eq)]
pub struct DirectFailure {
    /// What to tell the user, if anything.
    pub notice: Option<Notification>,
    /// The cause, for whoever reports the failure.
    pub detail: String,
}

/// The variables and their values in `env`, as texts.
pub open spec fn bindings(env: Seq<(String, String)>) -> Seq<(Seq<char>, Seq<char>)> {
    Seq::new(env.len(), |i: int| (env[i].0@, env[i].1@))
}

/// The value, or the default where there is none.
pub open spec fn text_or(value: Option<String>, default: Seq<char>) -> Seq<char> {
    match value {
        Some(v) => v@,
        None => default,
    }
}

/// At most the first `SHOWN_ERROR_CHARS` characters of `s`.
pub open spec fn shown_error(s: Seq<char>) -> Seq<char> {
    if s.len() > SHOWN_ERROR_CHARS {
        s.take(SHOWN_ERROR_CHARS as int)
    } else {
        s
    }
}

/// Whether `invocation` runs the backend's one-shot script on `audio_file`
/// with `model`, as `env` has it.
pub open spec fn is_fallback_invocation(
    invocation: Invocation,
    audio_file: Seq<char>,
    model: Seq<char>,
    env: BackendEnv,
) -> bool {
    &&& invocation.program@ == text_or(env.python, "python3"@)
    &&& views(invocation.args@) == seq![
        text_or(env.script, "/run/current-system/sw/bin/transcribe_faster.py"@),
        audio_file,
        model,
    ]
    &&& bindings(invocation.env@) == seq![
        ("PYTHONPATH"@, text_or(env.pythonpath, ""@)),
        ("CUDA_VISIBLE_DEVICES"@, text_or(env.cuda_visible_devices, ""@)),
        ("LD_LIBRARY_PATH"@, text_or(env.ld_library_path, ""@)),
    ]
}

/// Whether `result` is what the run `run` of the backend comes to: the
/// trimmed output of a run that succeeded, else a failure with its cause.
pub open spec fn is_direct_result(result: Result<String, DirectFailure>, run: RunResult) -> bool {
    match run {
        RunResult::Ran { success, stdout, stderr } => {
            if success {
                result matches Ok(text) && text@ == trim(stdout@)
            } else {
                &&& result matches Err(failure)
                &&& failure.detail@ == "Transcription failed: "@ + stderr@
                &&& failure.notice matches Some(notice)
                &&& notice.title@ == "Voice Input (faster-whisper)"@
                &&& notice.message@ == "❌ Transcription failed\n"@ + shown_error(stderr@)
                &&& notice.timeout_ms == 3000
            }
        },
        RunResult::NotRun => {
            &&& result matches Err(failure)
            &&& failure.detail@ == "Failed to run faster-whisper transcription"@
            &&& failure.notice is None
        },
    }
}

/// The notification that the fallback path has begun.
pub fn direct_notice(acceleration: &str) -> (notice: Notification)
    ensures
        notice.title@ == "Voice Input (faster-whisper)"@,
        notice.message@ == "⏳ Transcribing... ("@ + acceleration@ + ")"@,
        notice.timeout_ms == 2000,
{
    let mut message = String::from_str("⏳ Transcribing... (");
    message.append(acceleration);
    message.append(")");
    Notification { title: String::from_str("Voice Input (faster-whisper)"), message, timeout_ms: 2000 }
}

/// The program that transcribes `audio_file` with `model` in one run.
pub fn fallback_invocation(audio_file: &str, model: &str, env: BackendEnv) -> (invocation:
    Invocation)
    ensures
        is_fallback_invocation(invocation, audio_file@, model@, env),
{
    let program = value_or(env.python, "python3");
    let mut args: Vec<String> = Vec::new();
    args.push(value_or(env.script, "/run/current-system/sw/bin/transcribe_faster.py"));
    args.push(String::from_str(audio_file));
    args.push(String::from_str(model));
    let mut vars: Vec<(String, String)> = Vec::new();
    vars.push((String::from_str("PYTHONPATH"), value_or(env.pythonpath, "")));
    vars.push((String::from_str("CUDA_VISIBLE_DEVICES"), value_or(env.cuda_visible_devices, "")));
    vars.push((String::from_str("LD_LIBRARY_PATH"), value_or(env.ld_library_path, "")));
    let invocation = Invocation { program, args, env: vars };
    assert(views(invocation.args@) =~= seq![
        text_or(env.script, "/run/current-system/sw/bin/transcribe_faster.py"@),
        audio_file@,
        model@,
    ]);
    assert(bindings(invocation.env@) =~= seq![
        ("PYTHONPATH"@, text_or(env.pythonpath, ""@)),
        ("CUDA_VISIBLE_DEVICES"@, text_or(env.cuda_visible_devices, ""@)),
        ("LD_LIBRARY_PATH"@, text_or(env.ld_library_path, ""@)),
    ]);
    invocation
}

/// At most the first `SHOWN_ERROR_CHARS` characters of `s`.
pub fn truncate_error(s: &str) -> (shown: String)
    ensures
        shown@ == shown_error(s@),
{
    let v = to_chars(s);
    if v.len() > SHOWN_ERROR_CHARS {
        from_chars(&v, 0, SHOWN_ERROR_CHARS)
    } else {
        let shown = from_chars(&v, 0, v.len());
        assert(v@.subrange(0, v@.len() as int) =~= v@);
        shown
    }
}

/// Makes of one run of the backend what the fallback path returns: the
/// transcribed text without the white space around it, or the failure with
/// the notification that tells the user of it.
pub fn transcribe_with_faster_whisper(run: RunResult) -> (result: Result<String, DirectFailure>)
    ensures
        is_direct_result(result, run),
{
    match run {
        RunResult::Ran { success, stdout, stderr } => {
            if success {
                Ok(trim_text(stdout.as_str()))
            } else {
                let mut message = String::from_str("❌ Transcription failed\n");
                let shown = truncate_error(stderr.as_str());
                message.append(shown.as_str());
                let mut detail = String::from_str("Transcription failed: ");
                detail.append(stderr.as_str());
                Err(
                    DirectFailure {
                        notice: Some(
                            Notification {
                                title: String::from_str("Voice Input (faster-whisper)"),
                                message,
                                timeout_ms: 3000,
                            },
                        ),
                        detail,
                    },
                )
            }
        },
        RunResult::NotRun => Err(
            DirectFailure {
                notice: None,
                detail: String::from_str("Failed to run faster-whisper transcription"),
            },
        ),
    }
}

} // verus!
