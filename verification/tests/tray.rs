use whisp_away::tray::{
    compose_menu, compose_settings, compose_tooltip, MenuEntry, TrayStatus, VoiceInputTray,
    POLL_INTERVAL_MS,
};

fn tray(recording: bool, backend: &str) -> VoiceInputTray {
    let mut status = TrayStatus::new(backend.to_string(), "base.en".to_string(), "cuda".to_string());
    status.recording = recording;
    VoiceInputTray::new(status)
}

#[test]
fn new_status_is_not_recording() {
    let status = TrayStatus::new("b".to_string(), "m".to_string(), "a".to_string());
    assert!(!status.recording);
    assert_eq!(status.backend, "b");
    assert_eq!(status.model, "m");
    assert_eq!(status.acceleration, "a");
    assert_eq!(VoiceInputTray::new(status.clone()).status, status);
}

#[test]
fn icon_follows_the_recording() {
    assert_eq!(tray(true, "x").get_icon_name(), "microphone-sensitivity-high-symbolic");
    assert_eq!(tray(false, "x").get_icon_name(), "microphone-sensitivity-muted-symbolic");
    assert_eq!(tray(true, "x").icon_name(), "microphone-sensitivity-high-symbolic");
}

#[test]
fn backend_is_shown_under_its_display_name() {
    assert_eq!(tray(false, "faster-whisper").get_backend_display(), "Faster Whisper");
    assert_eq!(tray(false, "whisper-cpp").get_backend_display(), "Whisper.cpp");
    assert_eq!(tray(false, "vosk").get_backend_display(), "vosk");
    assert_eq!(tray(false, "").get_backend_display(), "");
}

#[test]
fn tooltip_tells_state_and_settings() {
    assert_eq!(
        tray(false, "faster-whisper").get_tooltip(),
        "Voice Input - Ready\n\nBackend: Faster Whisper\nModel: base.en\nAcceleration: CUDA"
    );
    assert_eq!(
        tray(true, "whisper-cpp").get_tooltip(),
        "Voice Input - \u{1f399}\u{fe0f} Recording...\n\nBackend: Whisper.cpp\nModel: base.en\nAcceleration: CUDA"
    );
    assert_eq!(tray(true, "x").tool_tip(), tray(true, "x").get_tooltip());
}

#[test]
fn indicator_has_a_fixed_name_and_title() {
    assert_eq!(tray(false, "x").id(), "whisp-away-indicator");
    assert_eq!(tray(false, "x").title(), "Voice Input");
    assert_eq!(POLL_INTERVAL_MS, 200);
}

#[test]
fn menu_lists_state_settings_and_the_way_out() {
    assert_eq!(
        tray(false, "faster-whisper").menu(),
        vec![
            MenuEntry::Info("\u{23f8}\u{fe0f} Not recording".to_string()),
            MenuEntry::Separator,
            MenuEntry::Info("Backend: Faster Whisper".to_string()),
            MenuEntry::Info("Model: base.en".to_string()),
            MenuEntry::Info("Acceleration: CUDA".to_string()),
            MenuEntry::Separator,
            MenuEntry::Quit("Quit Indicator".to_string()),
        ]
    );
    assert_eq!(
        tray(true, "vosk").menu()[0],
        MenuEntry::Info("\u{1f399}\u{fe0f} Recording in progress".to_string())
    );
    assert_eq!(tray(true, "vosk").menu()[2], MenuEntry::Info("Backend: vosk".to_string()));
}

#[test]
fn indicator_changes_only_when_the_recording_does() {
    let mut shown = tray(false, "old");
    let before = shown.clone();
    let changed = shown.observe(false, "new".to_string(), "m2".to_string(), "cpu".to_string());
    assert!(!changed);
    assert_eq!(shown, before);
    let changed = shown.observe(true, "new".to_string(), "m2".to_string(), "cpu".to_string());
    assert!(changed);
    assert_eq!(
        shown.status,
        TrayStatus {
            recording: true,
            backend: "new".to_string(),
            model: "m2".to_string(),
            acceleration: "cpu".to_string(),
        }
    );
    assert!(!shown.observe(true, "x".to_string(), "y".to_string(), "z".to_string()));
    assert_eq!(shown.status.backend, "new");
    assert!(shown.observe(false, "x".to_string(), "y".to_string(), "z".to_string()));
    assert_eq!(shown.status.backend, "x");
}

#[test]
fn acceleration_is_shown_in_upper_case() {
    let mut status = TrayStatus::new("x".to_string(), "m".to_string(), "vulkan".to_string());
    status.recording = false;
    let shown = VoiceInputTray::new(status);
    assert!(shown.get_tooltip().ends_with("Acceleration: VULKAN"));
    assert_eq!(shown.menu()[4], MenuEntry::Info("Acceleration: VULKAN".to_string()));
}

#[test]
fn settings_are_written_in_three_lines() {
    assert_eq!(
        compose_settings("Faster Whisper", "base.en", "CUDA"),
        "Backend: Faster Whisper\nModel: base.en\nAcceleration: CUDA"
    );
    assert_eq!(compose_settings("", "", ""), "Backend: \nModel: \nAcceleration: ");
}

#[test]
fn tooltip_stands_above_the_settings() {
    assert_eq!(compose_tooltip(false, "S"), "Voice Input - Ready\n\nS");
    assert_eq!(compose_tooltip(true, "S"), "Voice Input - \u{1f399}\u{fe0f} Recording...\n\nS");
}

#[test]
fn menu_is_written_from_what_it_is_given() {
    assert_eq!(
        compose_menu(true, "D", "M", "A"),
        vec![
            MenuEntry::Info("\u{1f399}\u{fe0f} Recording in progress".to_string()),
            MenuEntry::Separator,
            MenuEntry::Info("Backend: D".to_string()),
            MenuEntry::Info("Model: M".to_string()),
            MenuEntry::Info("Acceleration: A".to_string()),
            MenuEntry::Separator,
            MenuEntry::Quit("Quit Indicator".to_string()),
        ]
    );
}
