use whisp_away::probe::{is_process_running, probe_target, ProbeOutcome};

#[test]
fn delivered_signal_means_alive() {
    assert!(is_process_running(4242, ProbeOutcome::Delivered));
}

#[test]
fn permission_denied_means_alive() {
    assert!(is_process_running(1, ProbeOutcome::PermissionDenied));
}

#[test]
fn no_such_process_means_dead() {
    assert!(!is_process_running(4242, ProbeOutcome::NoSuchProcess));
}

#[test]
fn failed_probe_means_dead() {
    assert!(!is_process_running(4242, ProbeOutcome::Failed));
}

#[test]
fn invalid_identifier_is_never_alive() {
    assert!(!is_process_running(0, ProbeOutcome::Delivered));
    assert!(!is_process_running(u32::MAX, ProbeOutcome::Delivered));
    assert!(!is_process_running(0x8000_0000, ProbeOutcome::PermissionDenied));
    assert!(is_process_running(0x7fff_ffff, ProbeOutcome::Delivered));
}

#[test]
fn only_a_valid_identifier_is_probed() {
    assert_eq!(probe_target(0), None);
    assert_eq!(probe_target(1), Some(1));
    assert_eq!(probe_target(4242), Some(4242));
    assert_eq!(probe_target(0x7fff_ffff), Some(i32::MAX));
    assert_eq!(probe_target(0x8000_0000), None);
    assert_eq!(probe_target(u32::MAX), None);
}
