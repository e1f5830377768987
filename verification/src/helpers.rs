//! Settings and small helpers shared by the commands: the daemon's
//! configuration, the layered lookup of a setting, the runtime directory, and
//! desktop notifications.

use crate::text::{decimal, push_decimal, view_of, views};
use vstd::prelude::*;
use vstd::string::StringExecFns;

verus! {

/// The text of `s` with every character in lower case, as `str::to_lowercase`
/// gives it.
pub uninterp spec fn lowercase(s: Seq<char>) -> Seq<char>;

/// The text of `s` with every character in upper case, as `str::to_uppercase`
/// gives it.
pub uninterp spec fn uppercase(s: Seq<char>) -> Seq<char>;

/// `str::to_lowercase`: the lower-case form of a text. The mapping is
/// Unicode's, so it is named here and not written out.
#[verifier::external_body]
pub(crate) fn to_lowercase(s: &str) -> (lowered: String)
    ensures
        lowered@ == lowercase(s@),
{
    s.to_lowercase()
}

/// `str::to_uppercase`: the upper-case form of a text. The mapping is
/// Unicode's, so it is named here and not written out.
#[verifier::external_body]
pub(crate) fn to_uppercase(s: &str) -> (raised: String)
    ensures
        raised@ == uppercase(s@),
{
    s.to_uppercase()
}

/// What the daemon runs with. The daemon writes it down when it starts, and
/// the other commands read it, so that they use the daemon's settings.
#[derive(Clone, Debug)]
pub struct DaemonConfig {
    pub backend: Option<String>,
    pub model: Option<String>,
    pub socket_path: Option<String>,
    pub use_clipboard: Option<bool>,
}

impl Default for DaemonConfig {
    fn default() -> (config: DaemonConfig)
        ensures
            config.backend is None,
            config.model is None,
            config.socket_path is None,
            config.use_clipboard is None,
    {
        DaemonConfig { backend: None, model: None, socket_path: None, use_clipboard: None }
    }
}

/// Why audio could not be read from a recording.
#[derive(Clone, Copy, Debug, PartialEq, Eq, Structural)]
pub enum WavError {
    /// The data is shorter than the header of a recording.
    TooShort,
}

/// The length of the header of a recording.
pub const WAV_HEADER_LEN: usize = 44;

/// The sample that two bytes write, the low byte first, as a signed number
/// of 16 bits.
pub open spec fn sample_value(low: u8, high: u8) -> int {
    let raw = low + 256 * high;
    if raw >= 32768 {
        raw - 65536
    } else {
        raw
    }
}

/// The samples of a recording: the pairs of bytes behind the header, each a
/// signed number of 16 bits with the low byte first. A last byte without a
/// partner is left out.
pub open spec fn wav_samples(data: Seq<u8>) -> Seq<int> {
    Seq::new(
        ((data.len() - WAV_HEADER_LEN) / 2) as nat,
        |i: int| sample_value(data[WAV_HEADER_LEN + 2 * i], data[WAV_HEADER_LEN + 2 * i + 1]),
    )
}

/// A desktop notification.
#[derive(Clone, Debug, PartialEq, Eq)]
pub struct Notification {
    pub title: String,
    pub message: String,
    pub timeout_ms: u32,
}

/// The first of the three sources that has a value, else the default.
pub open spec fn layered(
    arg: Option<Seq<char>>,
    env: Option<Seq<char>>,
    configured: Option<Seq<char>>,
    default: Seq<char>,
) -> Seq<char> {
    match arg {
        Some(value) => value,
        None => match env {
            Some(value) => value,
            None => match configured {
                Some(value) => value,
                None => default,
            },
        },
    }
}

/// The socket path that the daemon's configuration gives, if any.
pub open spec fn configured_socket_path(config: Option<DaemonConfig>) -> Option<Seq<char>> {
    match config {
        Some(c) => view_of(c.socket_path),
        None => None,
    }
}

/// The backend that the daemon's configuration gives, if any.
pub open spec fn configured_backend(config: Option<DaemonConfig>) -> Option<Seq<char>> {
    match config {
        Some(c) => view_of(c.backend),
        None => None,
    }
}

/// The model that the daemon's configuration gives, if any.
pub open spec fn configured_model(config: Option<DaemonConfig>) -> Option<Seq<char>> {
    match config {
        Some(c) => view_of(c.model),
        None => None,
    }
}

/// The clipboard setting that the daemon's configuration gives, if any.
pub open spec fn configured_clipboard(config: Option<DaemonConfig>) -> Option<bool> {
    match config {
        Some(c) => c.use_clipboard,
        None => None,
    }
}

/// Whether to use the clipboard: the argument, else the environment, where
/// only `true` in any case counts as yes, else the daemon's configuration,
/// else no.
pub open spec fn clipboard_setting(
    arg: Option<bool>,
    env: Option<Seq<char>>,
    config: Option<DaemonConfig>,
) -> bool {
    match arg {
        Some(value) => value,
        None => match env {
            Some(value) => lowercase(value) == "true"@,
            None => match configured_clipboard(config) {
                Some(value) => value,
                None => false,
            },
        },
    }
}

/// The arguments of the notification command for `notice`.
pub open spec fn notification_args(title: Seq<char>, message: Seq<char>, timeout_ms: u32) -> Seq<
    Seq<char>,
> {
    seq![
        title,
        message,
        "-t"@,
        decimal(timeout_ms as nat),
        "-h"@,
        "string:x-canonical-private-synchronous:voice"@,
    ]
}

fn pick(
    arg: Option<String>,
    env: Option<String>,
    configured: Option<String>,
    default: &str,
) -> (value: String)
    ensures
        value@ == layered(view_of(arg), view_of(env), view_of(configured), default@),
{
    match arg {
        Some(value) => value,
        None => match env {
            Some(value) => value,
            None => match configured {
                Some(value) => value,
                None => String::from_str(default),
            },
        },
    }
}

/// The value, or the default where there is none.
pub fn value_or(value: Option<String>, default: &str) -> (chosen: String)
    ensures
        chosen@ == match value {
            Some(v) => v@,
            None => default@,
        },
{
    match value {
        Some(v) => v,
        None => String::from_str(default),
    }
}

/// The path of the file that holds the daemon's configuration.
pub fn get_daemon_config_path(runtime_dir: &str) -> (path: String)
    ensures
        path@ == runtime_dir@ + "/whisp-away-daemon.json"@,
{
    let mut path = String::from_str(runtime_dir);
    path.append("/whisp-away-daemon.json");
    path
}

/// The runtime directory: the one that the session provides, else a
/// directory of the user's own under `/tmp`.
pub fn get_runtime_dir(xdg_runtime_dir: Option<String>, uid: u32) -> (dir: String)
    ensures
        dir@ == match xdg_runtime_dir {
            Some(d) => d@,
            None => "/tmp/whisp-away-"@ + decimal(uid as nat),
        },
{
    match xdg_runtime_dir {
        Some(dir) => dir,
        None => {
            let mut dir = String::from_str("/tmp/whisp-away-");
            push_decimal(&mut dir, uid as u128);
            dir
        },
    }
}

/// The socket path: the argument, else the environment, else the daemon's
/// configuration, else `/tmp/whisp-away-daemon.sock`.
pub fn resolve_socket_path(
    arg: Option<String>,
    env: Option<String>,
    config: Option<DaemonConfig>,
) -> (path: String)
    ensures
        path@ == layered(
            view_of(arg),
            view_of(env),
            configured_socket_path(config),
            "/tmp/whisp-away-daemon.sock"@,
        ),
{
    let configured = match config {
        Some(c) => c.socket_path,
        None => None,
    };
    pick(arg, env, configured, "/tmp/whisp-away-daemon.sock")
}

/// The backend: the argument, else the environment, else the daemon's
/// configuration, else `faster-whisper`.
pub fn resolve_backend(
    arg: Option<String>,
    env: Option<String>,
    config: Option<DaemonConfig>,
) -> (backend: String)
    ensures
        backend@ == layered(
            view_of(arg),
            view_of(env),
            configured_backend(config),
            "faster-whisper"@,
        ),
{
    let configured = match config {
        Some(c) => c.backend,
        None => None,
    };
    pick(arg, env, configured, "faster-whisper")
}

/// The model: the argument, else the environment, else the daemon's
/// configuration, else `base.en`.
pub fn resolve_model(
    arg: Option<String>,
    env: Option<String>,
    config: Option<DaemonConfig>,
) -> (model: String)
    ensures
        model@ == layered(view_of(arg), view_of(env), configured_model(config), "base.en"@),
{
    let configured = match config {
        Some(c) => c.model,
        None => None,
    };
    pick(arg, env, configured, "base.en")
}

/// The kind of acceleration in use: what the environment says, else
/// `unknown`.
pub fn get_acceleration_type(env: Option<String>) -> (kind: String)
    ensures
        kind@ == match env {
            Some(k) => k@,
            None => "unknown"@,
        },
{
    match env {
        Some(kind) => kind,
        None => String::from_str("unknown"),
    }
}

/// Whether a lower-cased setting says yes.
pub fn says_true(lowered: &str) -> (yes: bool)
    ensures
        yes == (lowered@ == "true"@),
{
    let a = String::from_str(lowered);
    let b = String::from_str("true");
    a == b
}

/// Whether to use the clipboard: the argument, else the environment, where
/// only `true` in any case counts as yes, else the daemon's configuration,
/// else no.
pub fn resolve_use_clipboard(
    arg: Option<bool>,
    env: Option<String>,
    config: Option<DaemonConfig>,
) -> (use_clipboard: bool)
    ensures
        use_clipboard == clipboard_setting(arg, view_of(env), config),
{
    match arg {
        Some(value) => value,
        None => match env {
            Some(value) => {
                let lowered = to_lowercase(value.as_str());
                says_true(lowered.as_str())
            },
            None => match config {
                Some(c) => match c.use_clipboard {
                    Some(value) => value,
                    None => false,
                },
                None => false,
            },
        },
    }
}

/// Reads the samples of a recording of one channel with 16 bits a sample:
/// the header is skipped, and data shorter than a header is refused.
pub fn wav_to_samples(wav_data: &[u8]) -> (result: Result<Vec<i16>, WavError>)
    ensures
        match result {
            Ok(samples) => {
                &&& wav_data@.len() >= WAV_HEADER_LEN
                &&& samples@.len() == wav_samples(wav_data@).len()
                &&& forall|i: int|
                    0 <= i < samples@.len() ==> #[trigger] samples@[i] == wav_samples(
                        wav_data@,
                    )[i]
            },
            Err(error) => wav_data@.len() < WAV_HEADER_LEN && error == WavError::TooShort,
        },
{
    if wav_data.len() < WAV_HEADER_LEN {
        return Err(WavError::TooShort);
    }
    let len: usize = wav_data.len();
    let count: usize = (len - WAV_HEADER_LEN) / 2;
    let mut samples: Vec<i16> = Vec::new();
    let mut i: usize = 0;
    while i < count
        invariant
            i <= count,
            len == wav_data@.len(),
            len >= WAV_HEADER_LEN,
            count == (len - WAV_HEADER_LEN) / 2,
            samples@.len() == i,
            forall|k: int| 0 <= k < i ==> #[trigger] samples@[k] == wav_samples(wav_data@)[k],
        decreases count - i,
    {
        let low: u8 = wav_data[WAV_HEADER_LEN + 2 * i];
        let high: u8 = wav_data[WAV_HEADER_LEN + 2 * i + 1];
        let raw: i32 = low as i32 + 256 * (high as i32);
        let sample: i16 = if raw >= 32768 {
            (raw - 65536) as i16
        } else {
            raw as i16
        };
        samples.push(sample);
        i += 1;
    }
    Ok(samples)
}

/// The arguments of the `notify-send` command that shows a notification. All
/// notifications of this program replace one another on the screen.
pub fn send_notification(title: &str, message: &str, timeout_ms: u32) -> (args: Vec<String>)
    ensures
        views(args@) == notification_args(title@, message@, timeout_ms),
{
    let mut args: Vec<String> = Vec::new();
    args.push(String::from_str(title));
    args.push(String::from_str(message));
    args.push(String::from_str("-t"));
    let mut timeout = String::new();
    push_decimal(&mut timeout, timeout_ms as u128);
    args.push(timeout);
    args.push(String::from_str("-h"));
    args.push(String::from_str("string:x-canonical-private-synchronous:voice"));
    assert(views(args@) =~= notification_args(title@, message@, timeout_ms));
    args
}

/// The line that stands in for a notification that could not be shown.
pub fn console_notice(title: &str, message: &str) -> (line: String)
    ensures
        line@ == "[whisp-away] "@ + title@ + ": "@ + message@,
{
    let mut line = String::from_str("[whisp-away] ");
    line.append(title);
    line.append(": ");
    line.append(message);
    line
}

} // verus!
