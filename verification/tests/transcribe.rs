use whisp_away::faster_whisper::client::{
    Event, Phase, Route, Task, TranscribeOutcome, Transcription,
};
use whisp_away::faster_whisper::daemon::{
    check_script, daemon_config, daemon_outcome, DaemonEnv, DaemonError, DaemonExit,
};
use whisp_away::faster_whisper::direct::{
    direct_notice, fallback_invocation, truncate_error, BackendEnv, RunResult,
};
use whisp_away::faster_whisper::{
    run_daemon, stop_and_transcribe_daemon, transcribe_with_faster_whisper,
};
use whisp_away::helpers::Notification;
use whisp_away::recording::StopOutcome;
use whisp_away::socket::{encode_response, Exchange};

fn notice(title: &str, message: &str, timeout_ms: u32) -> Task {
    Task::Notify(Notification {
        title: title.to_string(),
        message: message.to_string(),
        timeout_ms,
    })
}

fn begun() -> Transcription {
    Transcription::new("/tmp/whisp-away-daemon.sock", false, "base.en", "cuda")
}

fn stopped_with_artifact() -> Transcription {
    let (state, turn) = stop_and_transcribe_daemon(
        begun(),
        Event::Stopped(StopOutcome::Artifact("/d/voice-recording-1.wav".to_string())),
    );
    assert_eq!(turn.outcome, None);
    assert_eq!(
        turn.tasks,
        vec![
            notice(
                "Voice Input",
                "\u{23f3} Transcribing...\nBackend: faster-whisper (cuda) | Model: base.en",
                2000
            ),
            Task::Exchange {
                socket_path: "/tmp/whisp-away-daemon.sock".to_string(),
                payload: "{\"audio_path\": \"/d/voice-recording-1.wav\"}".to_string(),
            },
        ]
    );
    assert_eq!(state.phase(), Phase::Exchanging);
    state
}

#[test]
fn daemon_path_delivers_the_text() {
    let state = stopped_with_artifact();
    let response = encode_response(Ok("hello world"));
    let (state, turn) =
        stop_and_transcribe_daemon(state, Event::Exchanged(Exchange::Answered(response)));
    assert_eq!(
        turn.tasks,
        vec![
            Task::Deliver {
                text: "hello world".to_string(),
                use_clipboard: false,
                backend_name: "faster-whisper daemon".to_string(),
            },
            Task::Remove("/d/voice-recording-1.wav".to_string()),
        ]
    );
    assert_eq!(turn.outcome, Some(TranscribeOutcome::Delivered(Route::Daemon)));
    assert_eq!(state.phase(), Phase::Finished);
}

#[test]
fn unreachable_daemon_falls_back_exactly_once() {
    let state = stopped_with_artifact();
    let (state, turn) = stop_and_transcribe_daemon(
        state,
        Event::Exchanged(Exchange::Unreachable("Connection refused".to_string())),
    );
    assert_eq!(turn.outcome, None);
    assert_eq!(
        turn.tasks,
        vec![
            notice(
                "Voice Input (daemon)",
                "\u{26a0}\u{fe0f} Daemon not running, using direct mode",
                2000
            ),
            notice("Voice Input (faster-whisper)", "\u{23f3} Transcribing... (cuda)", 2000),
            Task::Fallback {
                audio_file: "/d/voice-recording-1.wav".to_string(),
                model: "base.en".to_string(),
            },
        ]
    );
    assert_eq!(state.phase(), Phase::FallingBack);
    let run = RunResult::Ran {
        success: true,
        stdout: "hello world\n".to_string(),
        stderr: String::new(),
    };
    let (state, turn) = stop_and_transcribe_daemon(state, Event::FellBack(run));
    assert_eq!(
        turn.tasks,
        vec![
            Task::Deliver {
                text: "hello world".to_string(),
                use_clipboard: false,
                backend_name: "faster-whisper".to_string(),
            },
            Task::Remove("/d/voice-recording-1.wav".to_string()),
        ]
    );
    assert_eq!(turn.outcome, Some(TranscribeOutcome::Delivered(Route::Fallback)));
    let (state, turn) = stop_and_transcribe_daemon(
        state,
        Event::Exchanged(Exchange::Unreachable("again".to_string())),
    );
    assert!(turn.tasks.is_empty());
    assert_eq!(turn.outcome, Some(TranscribeOutcome::OutOfStep));
    assert_eq!(state.phase(), Phase::Finished);
}

#[test]
fn fallback_and_daemon_deliver_alike() {
    let (_, by_daemon) = stop_and_transcribe_daemon(
        stopped_with_artifact(),
        Event::Exchanged(Exchange::Answered(encode_response(Ok("same words")))),
    );
    let (state, _) = stop_and_transcribe_daemon(
        stopped_with_artifact(),
        Event::Exchanged(Exchange::Unreachable("down".to_string())),
    );
    let (_, by_fallback) = stop_and_transcribe_daemon(
        state,
        Event::FellBack(RunResult::Ran {
            success: true,
            stdout: "same words".to_string(),
            stderr: String::new(),
        }),
    );
    match (&by_daemon.tasks[0], &by_fallback.tasks[0]) {
        (
            Task::Deliver { text: a, use_clipboard: ca, .. },
            Task::Deliver { text: b, use_clipboard: cb, .. },
        ) => {
            assert_eq!(a, b);
            assert_eq!(ca, cb);
        }
        other => panic!("unexpected tasks {:?}", other),
    }
    assert_eq!(by_daemon.tasks[1], by_fallback.tasks[1]);
    assert_eq!(by_daemon.tasks.len(), by_fallback.tasks.len());
}

#[test]
fn fallback_and_daemon_deliver_alike_for_a_quoted_text() {
    let text = "he said \"a\\b\" twice";
    let (_, by_daemon) = stop_and_transcribe_daemon(
        stopped_with_artifact(),
        Event::Exchanged(Exchange::Answered(encode_response(Ok(text)))),
    );
    let (state, _) = stop_and_transcribe_daemon(
        stopped_with_artifact(),
        Event::Exchanged(Exchange::Unreachable("down".to_string())),
    );
    let (_, by_fallback) = stop_and_transcribe_daemon(
        state,
        Event::FellBack(RunResult::Ran {
            success: true,
            stdout: text.to_string(),
            stderr: String::new(),
        }),
    );
    assert_eq!(
        by_daemon.tasks[0],
        Task::Deliver {
            text: text.to_string(),
            use_clipboard: false,
            backend_name: "faster-whisper daemon".to_string(),
        }
    );
    assert_eq!(
        by_fallback.tasks[0],
        Task::Deliver {
            text: text.to_string(),
            use_clipboard: false,
            backend_name: "faster-whisper".to_string(),
        }
    );
}

#[test]
fn request_carries_a_path_with_a_quote() {
    let (_, turn) = stop_and_transcribe_daemon(
        begun(),
        Event::Stopped(StopOutcome::Artifact("/d/my \"best\" take.wav".to_string())),
    );
    match &turn.tasks[1] {
        Task::Exchange { payload, .. } => {
            assert_eq!(
                whisp_away::socket::decode_request(payload),
                Some("/d/my \"best\" take.wav".to_string())
            );
        }
        other => panic!("unexpected task {:?}", other),
    }
}

#[test]
fn failed_fallback_reports_both_causes() {
    let state = stopped_with_artifact();
    let (state, _) = stop_and_transcribe_daemon(
        state,
        Event::Exchanged(Exchange::Unreachable("Connection refused".to_string())),
    );
    let run = RunResult::Ran {
        success: false,
        stdout: String::new(),
        stderr: "no module named faster_whisper".to_string(),
    };
    let (_, turn) = stop_and_transcribe_daemon(state, Event::FellBack(run));
    assert_eq!(
        turn.tasks,
        vec![
            notice(
                "Voice Input (faster-whisper)",
                "\u{274c} Transcription failed\nno module named faster_whisper",
                3000
            ),
            Task::Remove("/d/voice-recording-1.wav".to_string()),
        ]
    );
    assert_eq!(
        turn.outcome,
        Some(TranscribeOutcome::FallbackFailed {
            daemon: "Connection refused".to_string(),
            fallback: "Transcription failed: no module named faster_whisper".to_string(),
        })
    );
}

#[test]
fn fallback_that_cannot_run_reports_both_causes() {
    let state = stopped_with_artifact();
    let (state, _) = stop_and_transcribe_daemon(
        state,
        Event::Exchanged(Exchange::Unreachable("down".to_string())),
    );
    let (_, turn) = stop_and_transcribe_daemon(state, Event::FellBack(RunResult::NotRun));
    assert_eq!(turn.tasks, vec![Task::Remove("/d/voice-recording-1.wav".to_string())]);
    assert_eq!(
        turn.outcome,
        Some(TranscribeOutcome::FallbackFailed {
            daemon: "down".to_string(),
            fallback: "Failed to run faster-whisper transcription".to_string(),
        })
    );
}

#[test]
fn daemon_failure_is_told_and_not_retried() {
    let state = stopped_with_artifact();
    let (_, turn) = stop_and_transcribe_daemon(
        state,
        Event::Exchanged(Exchange::Answered(encode_response(Err("out of memory")))),
    );
    assert_eq!(
        turn.tasks,
        vec![
            notice("Voice Input", "\u{274c} Transcription failed\nBackend: faster-whisper", 2000),
            Task::Remove("/d/voice-recording-1.wav".to_string()),
        ]
    );
    assert_eq!(
        turn.outcome,
        Some(TranscribeOutcome::BackendFailed(Some("out of memory".to_string())))
    );
}

#[test]
fn malformed_response_is_its_own_outcome() {
    let state = stopped_with_artifact();
    let (_, turn) = stop_and_transcribe_daemon(
        state,
        Event::Exchanged(Exchange::Answered("{\"success\": true}".to_string())),
    );
    assert_eq!(turn.outcome, Some(TranscribeOutcome::MalformedResponse));
    assert_eq!(
        turn.tasks[0],
        notice(
            "Voice Input",
            "\u{26a0}\u{fe0f} Could not parse response\nBackend: faster-whisper",
            2000
        )
    );
}

#[test]
fn nothing_recorded_ends_with_a_notice() {
    let (state, turn) = stop_and_transcribe_daemon(begun(), Event::Stopped(StopOutcome::NotFound));
    assert_eq!(
        turn.tasks,
        vec![notice("Voice Input (daemon)", "\u{274c} No recording found", 2000)]
    );
    assert_eq!(turn.outcome, Some(TranscribeOutcome::NoRecording));
    assert_eq!(state.phase(), Phase::Finished);
}

#[test]
fn missing_audio_ends_with_a_notice() {
    let (_, turn) = stop_and_transcribe_daemon(
        begun(),
        Event::Stopped(StopOutcome::MissingArtifact("/d/a.wav".to_string())),
    );
    assert_eq!(
        turn.tasks,
        vec![notice("Voice Input", "\u{274c} No audio recorded\nBackend: faster-whisper", 2000)]
    );
    assert_eq!(turn.outcome, Some(TranscribeOutcome::NoAudio));
}

#[test]
fn empty_audio_is_removed_and_not_transcribed() {
    let (_, turn) = stop_and_transcribe_daemon(
        begun(),
        Event::Stopped(StopOutcome::EmptyArtifact("/d/a.wav".to_string())),
    );
    assert_eq!(
        turn.tasks,
        vec![
            notice("Voice Input", "\u{274c} Audio file is empty\nBackend: faster-whisper", 2000),
            Task::Remove("/d/a.wav".to_string()),
        ]
    );
    assert_eq!(turn.outcome, Some(TranscribeOutcome::EmptyAudio));
}

#[test]
fn failed_stop_is_passed_on() {
    let (_, turn) =
        stop_and_transcribe_daemon(begun(), Event::Stopped(StopOutcome::KillFailed(4242)));
    assert!(turn.tasks.is_empty());
    assert_eq!(turn.outcome, Some(TranscribeOutcome::KillFailed(4242)));
    let (_, turn) = stop_and_transcribe_daemon(begun(), Event::Stopped(StopOutcome::ImportFailed));
    assert_eq!(turn.outcome, Some(TranscribeOutcome::StopFailed));
}

#[test]
fn report_out_of_turn_ends_the_operation() {
    let (_, turn) = stop_and_transcribe_daemon(begun(), Event::FellBack(RunResult::NotRun));
    assert!(turn.tasks.is_empty());
    assert_eq!(turn.outcome, Some(TranscribeOutcome::OutOfStep));
}

#[test]
fn direct_run_gives_the_trimmed_output() {
    let run = RunResult::Ran {
        success: true,
        stdout: "  hello world\n".to_string(),
        stderr: "loading model".to_string(),
    };
    assert_eq!(transcribe_with_faster_whisper(run), Ok("hello world".to_string()));
}

#[test]
fn direct_failure_shows_the_first_hundred_characters() {
    let stderr = "e".repeat(150);
    let run = RunResult::Ran { success: false, stdout: String::new(), stderr: stderr.clone() };
    let failure = transcribe_with_faster_whisper(run).unwrap_err();
    assert_eq!(failure.detail, format!("Transcription failed: {}", stderr));
    let shown = failure.notice.unwrap();
    assert_eq!(shown.title, "Voice Input (faster-whisper)");
    assert_eq!(shown.message, format!("\u{274c} Transcription failed\n{}", "e".repeat(100)));
    assert_eq!(shown.timeout_ms, 3000);
    assert_eq!(truncate_error("short"), "short");
    assert_eq!(truncate_error(&"\u{fc}".repeat(101)), "\u{fc}".repeat(100));
}

#[test]
fn direct_run_that_cannot_start_has_no_notice() {
    let failure = transcribe_with_faster_whisper(RunResult::NotRun).unwrap_err();
    assert_eq!(failure.notice, None);
    assert_eq!(failure.detail, "Failed to run faster-whisper transcription");
}

#[test]
fn direct_notice_names_the_acceleration() {
    let shown = direct_notice("vulkan");
    assert_eq!(shown.title, "Voice Input (faster-whisper)");
    assert_eq!(shown.message, "\u{23f3} Transcribing... (vulkan)");
    assert_eq!(shown.timeout_ms, 2000);
}

#[test]
fn fallback_invocation_uses_defaults_where_nothing_is_set() {
    let env = BackendEnv {
        python: None,
        pythonpath: None,
        script: None,
        cuda_visible_devices: None,
        ld_library_path: None,
    };
    let invocation = fallback_invocation("/d/a.wav", "base.en", env);
    assert_eq!(invocation.program, "python3");
    assert_eq!(
        invocation.args,
        vec![
            "/run/current-system/sw/bin/transcribe_faster.py".to_string(),
            "/d/a.wav".to_string(),
            "base.en".to_string(),
        ]
    );
    assert_eq!(
        invocation.env,
        vec![
            ("PYTHONPATH".to_string(), String::new()),
            ("CUDA_VISIBLE_DEVICES".to_string(), String::new()),
            ("LD_LIBRARY_PATH".to_string(), String::new()),
        ]
    );
}

#[test]
fn fallback_invocation_takes_what_the_environment_sets() {
    let env = BackendEnv {
        python: Some("/nix/python".to_string()),
        pythonpath: Some("/nix/site".to_string()),
        script: Some("/nix/transcribe.py".to_string()),
        cuda_visible_devices: Some("0".to_string()),
        ld_library_path: Some("/nix/lib".to_string()),
    };
    let invocation = fallback_invocation("/d/a.wav", "small", env);
    assert_eq!(invocation.program, "/nix/python");
    assert_eq!(invocation.args[0], "/nix/transcribe.py");
    assert_eq!(invocation.args[2], "small");
    assert_eq!(invocation.env[0], ("PYTHONPATH".to_string(), "/nix/site".to_string()));
    assert_eq!(invocation.env[1], ("CUDA_VISIBLE_DEVICES".to_string(), "0".to_string()));
    assert_eq!(invocation.env[2], ("LD_LIBRARY_PATH".to_string(), "/nix/lib".to_string()));
}

fn daemon_env() -> DaemonEnv {
    DaemonEnv {
        python: Some("/nix/python".to_string()),
        pythonpath: Some("/nix/site".to_string()),
        script: Some("/nix/whisper_daemon.py".to_string()),
        cuda_visible_devices: None,
        ld_library_path: Some("/nix/lib".to_string()),
    }
}

#[test]
fn daemon_launch_carries_its_settings() {
    let launch = run_daemon("base.en", "/tmp/s.sock", true, daemon_env()).unwrap();
    assert_eq!(launch.config.backend, Some("faster-whisper".to_string()));
    assert_eq!(launch.config.model, Some("base.en".to_string()));
    assert_eq!(launch.config.socket_path, Some("/tmp/s.sock".to_string()));
    assert_eq!(launch.config.use_clipboard, Some(true));
    assert_eq!(launch.script, "/nix/whisper_daemon.py");
    assert_eq!(launch.invocation.program, "/nix/python");
    assert_eq!(launch.invocation.args, vec!["/nix/whisper_daemon.py".to_string()]);
    assert_eq!(
        launch.invocation.env,
        vec![
            ("PYTHONPATH".to_string(), "/nix/site".to_string()),
            ("WA_WHISPER_MODEL".to_string(), "base.en".to_string()),
            ("WA_WHISPER_SOCKET".to_string(), "/tmp/s.sock".to_string()),
            ("CUDA_VISIBLE_DEVICES".to_string(), String::new()),
            ("LD_LIBRARY_PATH".to_string(), "/nix/lib".to_string()),
        ]
    );
}

#[test]
fn daemon_launch_needs_its_three_variables() {
    let mut env = daemon_env();
    env.script = None;
    assert_eq!(run_daemon("m", "s", false, env).unwrap_err(), DaemonError::ScriptNotSet);
    let mut env = daemon_env();
    env.pythonpath = None;
    env.script = None;
    assert_eq!(run_daemon("m", "s", false, env).unwrap_err(), DaemonError::PythonPathNotSet);
    let mut env = daemon_env();
    env.python = None;
    env.pythonpath = None;
    assert_eq!(run_daemon("m", "s", false, env).unwrap_err(), DaemonError::PythonNotSet);
}

#[test]
fn daemon_config_is_written_for_the_other_commands() {
    let config = daemon_config("tiny", "/tmp/x.sock", false);
    assert_eq!(config.backend, Some("faster-whisper".to_string()));
    assert_eq!(config.model, Some("tiny".to_string()));
    assert_eq!(config.socket_path, Some("/tmp/x.sock".to_string()));
    assert_eq!(config.use_clipboard, Some(false));
}

#[test]
fn daemon_needs_its_script_and_a_clean_exit() {
    assert_eq!(check_script(true), Ok(()));
    assert_eq!(check_script(false), Err(DaemonError::ScriptNotFound));
    assert_eq!(daemon_outcome(true, DaemonExit::Exited { success: true }), Ok(()));
    assert_eq!(
        daemon_outcome(true, DaemonExit::Exited { success: false }),
        Err(DaemonError::ExitedWithError)
    );
    assert_eq!(daemon_outcome(true, DaemonExit::NotRun), Err(DaemonError::NotRun));
    assert_eq!(
        daemon_outcome(false, DaemonExit::Exited { success: true }),
        Err(DaemonError::ScriptNotFound)
    );
    assert_eq!(daemon_outcome(false, DaemonExit::NotRun), Err(DaemonError::ScriptNotFound));
}
