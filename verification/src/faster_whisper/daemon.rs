//! Launching the daemon: what it is configured with, and the program that
//! runs it.

use crate::faster_whisper::direct::{bindings, text_or, Invocation};
use crate::helpers::{value_or, DaemonConfig};
use crate::text::{view_of, views};
use vstd::prelude::*;
use vstd::string::StringExecFns;

verus! {

/// What the environment says about the daemon.
#[derive(Clone, Debug)]
pub struct DaemonEnv {
    /// The Python interpreter to run.
    pub python: Option<String>,
    /// Where Python finds the backend's modules.
    pub pythonpath: Option<String>,
    /// The daemon's script.
    pub script: Option<String>,
    /// The devices that the backend may use, handed on as it is.
    pub cuda_visible_devices: Option<String>,
    /// Where the backend finds its libraries, handed on as it is.
    pub ld_library_path: Option<String>,
}

/// Why the daemon cannot be launched.
#[derive(Clone, Copy, Debug, PartialEq, Eq, Structural)]
pub enum DaemonError {
    /// `FASTER_WHISPER_PYTHON` is not set.
    PythonNotSet,
    /// `FASTER_WHISPER_PYTHONPATH` is not set.
    PythonPathNotSet,
    /// `FASTER_WHISPER_DAEMON_SCRIPT` is not set.
    ScriptNotSet,
    /// There is no file at the path of the daemon's script.
    ScriptNotFound,
    /// The daemon could not be run at all.
    NotRun,
    /// The daemon ran and exited with an error.
    ExitedWithError,
}

/// How the run of the daemon went.
#[derive(Clone, Copy, Debug, PartialEq, Eq, Structural)]
pub enum DaemonExit {
    /// The daemon could not be run at all.
    NotRun,
    /// The daemon ran until it exited, with success or not.
    Exited { success: bool },
}

/// What the launch of the daemon comes to, given whether its script is
/// there and, where it is, how the run went.
pub open spec fn daemon_result(script_exists: bool, exit: DaemonExit) -> Result<(), DaemonError> {
    if !script_exists {
        Err(DaemonError::ScriptNotFound)
    } else {
        match exit {
            DaemonExit::NotRun => Err(DaemonError::NotRun),
            DaemonExit::Exited { success } => if success {
                Ok(())
            } else {
                Err(DaemonError::ExitedWithError)
            },
        }
    }
}

/// The daemon, ready to be launched.
#[derive(Clone, Debug)]
pub struct DaemonLaunch {
    /// What to write down for the other commands before the launch.
    pub config: DaemonConfig,
    /// The daemon's script. The launch fails if there is no such file.
    pub script: String,
    /// The program to run until it exits.
    pub invocation: Invocation,
}

/// Whether `config` is the configuration of a daemon with these settings.
pub open spec fn is_daemon_config(
    config: DaemonConfig,
    model: Seq<char>,
    socket_path: Seq<char>,
    use_clipboard: bool,
) -> bool {
    &&& view_of(config.backend) == Some("faster-whisper"@)
    &&& view_of(config.model) == Some(model)
    &&& view_of(config.socket_path) == Some(socket_path)
    &&& config.use_clipboard == Some(use_clipboard)
}

/// The first of the three variables that is not set, if any.
pub open spec fn missing_variable(env: DaemonEnv) -> Option<DaemonError> {
    if env.python is None {
        Some(DaemonError::PythonNotSet)
    } else if env.pythonpath is None {
        Some(DaemonError::PythonPathNotSet)
    } else if env.script is None {
        Some(DaemonError::ScriptNotSet)
    } else {
        None
    }
}

/// Whether `launch` launches the daemon with these settings, as `env` has
/// it.
pub open spec fn is_daemon_launch(
    launch: DaemonLaunch,
    model: Seq<char>,
    socket_path: Seq<char>,
    use_clipboard: bool,
    env: DaemonEnv,
) -> bool {
    &&& is_daemon_config(launch.config, model, socket_path, use_clipboard)
    &&& Some(launch.script@) == view_of(env.script)
    &&& Some(launch.invocation.program@) == view_of(env.python)
    &&& views(launch.invocation.args@) == seq![launch.script@]
    &&& bindings(launch.invocation.env@) == seq![
        ("PYTHONPATH"@, text_or(env.pythonpath, ""@)),
        ("WA_WHISPER_MODEL"@, model),
        ("WA_WHISPER_SOCKET"@, socket_path),
        ("CUDA_VISIBLE_DEVICES"@, text_or(env.cuda_visible_devices, ""@)),
        ("LD_LIBRARY_PATH"@, text_or(env.ld_library_path, ""@)),
    ]
}

/// The configuration that a daemon with these settings writes down.
pub fn daemon_config(model: &str, socket_path: &str, use_clipboard: bool) -> (config: DaemonConfig)
    ensures
        is_daemon_config(config, model@, socket_path@, use_clipboard),
{
    DaemonConfig {
        backend: Some(String::from_str("faster-whisper")),
        model: Some(String::from_str(model)),
        socket_path: Some(String::from_str(socket_path)),
        use_clipboard: Some(use_clipboard),
    }
}

/// Whether the daemon may be run: only where its script is there.
pub fn check_script(script_exists: bool) -> (result: Result<(), DaemonError>)
    ensures
        result == if script_exists {
            Ok::<(), DaemonError>(())
        } else {
            Err::<(), DaemonError>(DaemonError::ScriptNotFound)
        },
{
    if script_exists {
        Ok(())
    } else {
        Err(DaemonError::ScriptNotFound)
    }
}

/// What the launch of the daemon comes to, given whether its script is
/// there and, where it is, how the run went: a missing script, a daemon that
/// could not be run and a daemon that exited with an error are failures.
pub fn daemon_outcome(script_exists: bool, exit: DaemonExit) -> (result: Result<(), DaemonError>)
    ensures
        result == daemon_result(script_exists, exit),
{
    match check_script(script_exists) {
        Err(error) => Err(error),
        Ok(_) => match exit {
            DaemonExit::NotRun => Err(DaemonError::NotRun),
            DaemonExit::Exited { success } => if success {
                Ok(())
            } else {
                Err(DaemonError::ExitedWithError)
            },
        },
    }
}

/// Prepares the launch of the daemon for `model` on `socket_path`: the
/// configuration to write down and the program to run. The interpreter, its
/// module path and the script must all be set in the environment.
pub fn run_daemon(model: &str, socket_path: &str, use_clipboard: bool, env: DaemonEnv) -> (result:
    Result<DaemonLaunch, DaemonError>)
    ensures
        match result {
            Ok(launch) => missing_variable(env) is None && is_daemon_launch(
                launch,
                model@,
                socket_path@,
                use_clipboard,
                env,
            ),
            Err(error) => missing_variable(env) == Some(error),
        },
{
    let config = daemon_config(model, socket_path, use_clipboard);
    let program = match env.python {
        Some(p) => p,
        None => {
            return Err(DaemonError::PythonNotSet);
        },
    };
    let pythonpath = match env.pythonpath {
        Some(p) => p,
        None => {
            return Err(DaemonError::PythonPathNotSet);
        },
    };
    let script = match env.script {
        Some(s) => s,
        None => {
            return Err(DaemonError::ScriptNotSet);
        },
    };
    let mut args: Vec<String> = Vec::new();
    args.push(script.clone());
    let mut vars: Vec<(String, String)> = Vec::new();
    vars.push((String::from_str("PYTHONPATH"), pythonpath));
    vars.push((String::from_str("WA_WHISPER_MODEL"), String::from_str(model)));
    vars.push((String::from_str("WA_WHISPER_SOCKET"), String::from_str(socket_path)));
    vars.push((String::from_str("CUDA_VISIBLE_DEVICES"), value_or(env.cuda_visible_devices, "")));
    vars.push((String::from_str("LD_LIBRARY_PATH"), value_or(env.ld_library_path, "")));
    let launch = DaemonLaunch { config, script, invocation: Invocation { program, args, env: vars } };
    assert(views(launch.invocation.args@) =~= seq![launch.script@]);
    assert(bindings(launch.invocation.env@) =~= seq![
        ("PYTHONPATH"@, text_or(env.pythonpath, ""@)),
        ("WA_WHISPER_MODEL"@, model@),
        ("WA_WHISPER_SOCKET"@, socket_path@),
        ("CUDA_VISIBLE_DEVICES"@, text_or(env.cuda_visible_devices, ""@)),
        ("LD_LIBRARY_PATH"@, text_or(env.ld_library_path, ""@)),
    ]);
    Ok(launch)
}

} // verus!
