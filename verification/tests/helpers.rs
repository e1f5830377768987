use whisp_away::helpers::{
    console_notice, get_acceleration_type, get_daemon_config_path, get_runtime_dir,
    resolve_backend, resolve_model, resolve_socket_path, resolve_use_clipboard, says_true,
    send_notification, value_or, wav_to_samples, DaemonConfig, WavError,
};

fn config() -> DaemonConfig {
    DaemonConfig {
        backend: Some("whisper-cpp".to_string()),
        model: Some("small".to_string()),
        socket_path: Some("/run/daemon.sock".to_string()),
        use_clipboard: Some(true),
    }
}

fn s(text: &str) -> Option<String> {
    Some(text.to_string())
}

#[test]
fn default_config_sets_nothing() {
    let config = DaemonConfig::default();
    assert_eq!(config.backend, None);
    assert_eq!(config.model, None);
    assert_eq!(config.socket_path, None);
    assert_eq!(config.use_clipboard, None);
}

#[test]
fn socket_path_comes_from_the_first_source_that_has_one() {
    assert_eq!(resolve_socket_path(s("/arg"), s("/env"), Some(config())), "/arg");
    assert_eq!(resolve_socket_path(None, s("/env"), Some(config())), "/env");
    assert_eq!(resolve_socket_path(None, None, Some(config())), "/run/daemon.sock");
    assert_eq!(
        resolve_socket_path(None, None, Some(DaemonConfig::default())),
        "/tmp/whisp-away-daemon.sock"
    );
    assert_eq!(resolve_socket_path(None, None, None), "/tmp/whisp-away-daemon.sock");
}

#[test]
fn backend_comes_from_the_first_source_that_has_one() {
    assert_eq!(resolve_backend(s("a"), s("e"), Some(config())), "a");
    assert_eq!(resolve_backend(None, s("e"), Some(config())), "e");
    assert_eq!(resolve_backend(None, None, Some(config())), "whisper-cpp");
    assert_eq!(resolve_backend(None, None, None), "faster-whisper");
}

#[test]
fn model_comes_from_the_first_source_that_has_one() {
    assert_eq!(resolve_model(s("a"), s("e"), Some(config())), "a");
    assert_eq!(resolve_model(None, s("e"), Some(config())), "e");
    assert_eq!(resolve_model(None, None, Some(config())), "small");
    assert_eq!(resolve_model(None, None, None), "base.en");
}

#[test]
fn clipboard_setting_comes_from_the_first_source_that_has_one() {
    assert!(!resolve_use_clipboard(Some(false), s("true"), Some(config())));
    assert!(resolve_use_clipboard(Some(true), s("false"), None));
    assert!(resolve_use_clipboard(None, s("true"), None));
    assert!(!resolve_use_clipboard(None, s("false"), Some(config())));
    assert!(resolve_use_clipboard(None, None, Some(config())));
    assert!(!resolve_use_clipboard(None, None, Some(DaemonConfig::default())));
    assert!(!resolve_use_clipboard(None, None, None));
}

#[test]
fn clipboard_setting_in_the_environment_counts_in_any_case() {
    assert!(resolve_use_clipboard(None, s("TRUE"), None));
    assert!(resolve_use_clipboard(None, s("True"), None));
    assert!(!resolve_use_clipboard(None, s("yes"), None));
    assert!(!resolve_use_clipboard(None, s("1"), None));
    assert!(!resolve_use_clipboard(None, s(" true"), None));
    assert!(!resolve_use_clipboard(None, s(""), None));
}

#[test]
fn only_the_word_true_says_yes() {
    assert!(says_true("true"));
    assert!(!says_true("TRUE"));
    assert!(!says_true("tru"));
    assert!(!says_true("truer"));
}

#[test]
fn runtime_dir_is_the_sessions_or_the_users_own() {
    assert_eq!(get_runtime_dir(s("/run/user/1000"), 1000), "/run/user/1000");
    assert_eq!(get_runtime_dir(None, 1000), "/tmp/whisp-away-1000");
    assert_eq!(get_runtime_dir(None, 0), "/tmp/whisp-away-0");
    assert_eq!(get_runtime_dir(None, u32::MAX), "/tmp/whisp-away-4294967295");
}

#[test]
fn daemon_config_lives_in_the_runtime_dir() {
    assert_eq!(
        get_daemon_config_path("/run/user/1000"),
        "/run/user/1000/whisp-away-daemon.json"
    );
}

#[test]
fn acceleration_is_unknown_unless_set() {
    assert_eq!(get_acceleration_type(s("vulkan")), "vulkan");
    assert_eq!(get_acceleration_type(None), "unknown");
}

#[test]
fn value_or_gives_the_default_for_nothing() {
    assert_eq!(value_or(s("x"), "d"), "x");
    assert_eq!(value_or(None, "d"), "d");
    assert_eq!(value_or(s(""), "d"), "");
}

#[test]
fn notification_command_replaces_earlier_notifications() {
    assert_eq!(
        send_notification("Voice Input", "Recording...", 30000),
        vec![
            "Voice Input".to_string(),
            "Recording...".to_string(),
            "-t".to_string(),
            "30000".to_string(),
            "-h".to_string(),
            "string:x-canonical-private-synchronous:voice".to_string(),
        ]
    );
    assert_eq!(send_notification("t", "m", 0)[3], "0");
}

#[test]
fn console_stands_in_for_a_notification() {
    assert_eq!(
        console_notice("Voice Input", "No recording found"),
        "[whisp-away] Voice Input: No recording found"
    );
}

#[test]
fn wav_shorter_than_a_header_is_refused() {
    assert_eq!(wav_to_samples(&[]), Err(WavError::TooShort));
    assert_eq!(wav_to_samples(&[0u8; 43]), Err(WavError::TooShort));
}

#[test]
fn wav_with_a_header_only_has_no_samples() {
    assert_eq!(wav_to_samples(&[7u8; 44]), Ok(vec![]));
    assert_eq!(wav_to_samples(&[7u8; 45]), Ok(vec![]));
}

#[test]
fn wav_samples_are_little_endian_and_signed() {
    let mut data = vec![0u8; 44];
    data.extend_from_slice(&[0x00, 0x00, 0x01, 0x00, 0xff, 0x7f, 0x00, 0x80, 0xff, 0xff, 0x34, 0x12]);
    data.push(0x55);
    assert_eq!(wav_to_samples(&data), Ok(vec![0, 1, 32767, -32768, -1, 0x1234]));
}

#[test]
fn wav_samples_agree_with_the_platform() {
    let mut data = vec![0u8; 44];
    for low in [0u8, 1, 127, 128, 255] {
        for high in [0u8, 1, 127, 128, 255] {
            data.push(low);
            data.push(high);
        }
    }
    let samples = wav_to_samples(&data).unwrap();
    let mut k = 0;
    for low in [0u8, 1, 127, 128, 255] {
        for high in [0u8, 1, 127, 128, 255] {
            assert_eq!(samples[k], i16::from_le_bytes([low, high]));
            k += 1;
        }
    }
}
