use whisp_away::escalation::{Signal, Stage};
use whisp_away::lock::{LockAttempt, LockProbe};
use whisp_away::probe::ProbeOutcome;
use whisp_away::recording::{
    begin_status, capture_invocation, check_recording, is_recording, record_target, start_recording, started_notice,
    stop_recording, store_path, Key,
    RecordProbe, Reply, Request, StartOutcome, StartPhase, StartState, Step, StopOutcome,
    StopPhase, StopState,
};

/// A process of the simulated world.
#[derive(Clone, Debug)]
struct Proc {
    pid: u32,
    capture: bool,
    heeds: Vec<Signal>,
}

/// A simulated world: the store, the lock, the processes and the files.
#[derive(Clone, Debug, Default)]
struct World {
    record: Option<String>,
    pointer: Option<String>,
    lock_file: bool,
    rival: bool,
    held: bool,
    procs: Vec<Proc>,
    files: Vec<(String, u64, bool)>,
    clock: u128,
    next_pid: u32,
    temper: Vec<Signal>,
    log: Vec<Request>,
    most_captures: usize,
}

impl World {
    fn new() -> World {
        World { next_pid: 5000, temper: vec![Signal::Interrupt], ..World::default() }
    }

    fn alive(&self, pid: u32) -> bool {
        self.procs.iter().any(|p| p.pid == pid)
    }

    fn captures(&self) -> usize {
        self.procs.iter().filter(|p| p.capture).count()
    }

    fn probe(&self, pid: u32) -> ProbeOutcome {
        if self.alive(pid) {
            ProbeOutcome::Delivered
        } else {
            ProbeOutcome::NoSuchProcess
        }
    }

    fn size_of(&self, path: &str) -> Option<u64> {
        self.files.iter().find(|f| f.0 == path).map(|f| f.1)
    }

    fn react(&mut self, request: &Request) -> Reply {
        self.log.push(request.clone());
        let reply = match request {
            Request::Await { .. } => Reply::Present(self.record.is_some()),
            Request::Get(Key::Record) => Reply::Value(self.record.clone()),
            Request::Get(Key::Pointer) => Reply::Value(self.pointer.clone()),
            Request::Get(Key::Lock) => Reply::Value(if self.lock_file {
                Some(String::new())
            } else {
                None
            }),
            Request::Put(Key::Record, text) => {
                self.record = Some(text.clone());
                Reply::Done(true)
            }
            Request::Put(Key::Pointer, text) => {
                self.pointer = Some(text.clone());
                Reply::Done(true)
            }
            Request::Put(Key::Lock, _) => {
                self.lock_file = true;
                Reply::Done(true)
            }
            Request::Delete(Key::Record) => {
                self.record = None;
                Reply::Done(true)
            }
            Request::Delete(Key::Pointer) => {
                self.pointer = None;
                Reply::Done(true)
            }
            Request::Delete(Key::Lock) => {
                self.lock_file = false;
                Reply::Done(true)
            }
            Request::Acquire => {
                self.lock_file = true;
                if self.rival {
                    Reply::Lock(LockAttempt::WouldBlock)
                } else {
                    self.held = true;
                    Reply::Lock(LockAttempt::Acquired)
                }
            }
            Request::Release => {
                self.held = false;
                self.lock_file = false;
                Reply::Done(true)
            }
            Request::Look => Reply::Looked(if !self.lock_file {
                LockProbe::Missing
            } else if self.rival {
                LockProbe::Held
            } else {
                LockProbe::Free
            }),
            Request::Probe { pid } => Reply::Probed(self.probe(*pid)),
            Request::Strike { pid, signal, .. } => {
                self.procs.retain(|p| !(p.pid == *pid && p.heeds.contains(signal)));
                Reply::Probed(self.probe(*pid))
            }
            Request::Sweep { keep } => {
                self.files.retain(|f| !f.2 || keep.as_deref() == Some(f.0.as_str()));
                Reply::Done(true)
            }
            Request::Clock => Reply::Time(self.clock),
            Request::Spawn { path } => {
                let pid = self.next_pid;
                self.next_pid += 1;
                self.procs.push(Proc { pid, capture: true, heeds: self.temper.clone() });
                self.files.push((path.clone(), 44, false));
                Reply::Spawned(Some(pid))
            }
            Request::Import { from, to } => match self.size_of(from) {
                Some(size) => {
                    self.files.push((to.clone(), size, false));
                    Reply::Done(true)
                }
                None => Reply::Done(false),
            },
            Request::Inspect { path } => Reply::Size(self.size_of(path)),
        };
        if self.captures() > self.most_captures {
            self.most_captures = self.captures();
        }
        reply
    }
}

fn run_stop(world: &mut World, dir: &str, audio_file_override: Option<&str>) -> StopOutcome {
    let (mut state, mut request) = StopState::new(dir, audio_file_override);
    for _ in 0..100 {
        let reply = world.react(&request);
        let (next, step) = stop_recording(state, reply);
        state = next;
        match step {
            Step::Ask(r) => request = r,
            Step::Done(outcome) => {
                assert_eq!(state.phase(), StopPhase::Finished);
                return outcome;
            }
        }
    }
    panic!("stop did not end");
}

fn run_start(world: &mut World, dir: &str) -> StartOutcome {
    let (mut state, mut request) = StartState::new(dir);
    for _ in 0..100 {
        let reply = world.react(&request);
        let (next, step) = start_recording(state, reply);
        state = next;
        match step {
            Step::Ask(r) => request = r,
            Step::Done(outcome) => {
                assert_eq!(state.phase(), StartPhase::Finished);
                return outcome;
            }
        }
    }
    panic!("start did not end");
}

fn live_session(heeds: Vec<Signal>, size: u64) -> World {
    let mut world = World::new();
    world.record = Some("4242".to_string());
    world.pointer = Some("/run/user/1000/voice-recording-17.wav\n".to_string());
    world.procs.push(Proc { pid: 4242, capture: true, heeds });
    world.files.push(("/run/user/1000/voice-recording-17.wav".to_string(), size, false));
    world
}

#[test]
fn start_launches_and_records_the_capture_process() {
    let mut world = World::new();
    world.clock = 1_700_000_000_123;
    let outcome = run_start(&mut world, "/run/user/1000");
    assert_eq!(
        outcome,
        StartOutcome::Started {
            pid: 5000,
            audio_file: "/run/user/1000/voice-recording-1700000000123.wav".to_string(),
        }
    );
    assert_eq!(world.record, Some("5000".to_string()));
    assert_eq!(
        world.pointer,
        Some("/run/user/1000/voice-recording-1700000000123.wav".to_string())
    );
    assert!(!world.held);
    assert!(!world.lock_file);
    assert!(world.alive(5000));
}

#[test]
fn start_asks_in_the_order_of_its_steps() {
    let mut world = World::new();
    world.clock = 9;
    run_start(&mut world, "/d");
    assert_eq!(
        world.log,
        vec![
            Request::Get(Key::Pointer),
            Request::Sweep { keep: None },
            Request::Get(Key::Record),
            Request::Acquire,
            Request::Clock,
            Request::Put(Key::Pointer, "/d/voice-recording-9.wav".to_string()),
            Request::Spawn { path: "/d/voice-recording-9.wav".to_string() },
            Request::Put(Key::Record, "5000".to_string()),
            Request::Release,
        ]
    );
}

#[test]
fn repeated_starts_keep_at_most_one_capture_alive() {
    let mut world = World::new();
    for round in 0..4 {
        world.clock = 1000 + round;
        let outcome = run_start(&mut world, "/d");
        assert!(matches!(outcome, StartOutcome::Started { .. }));
        assert_eq!(world.captures(), 1);
    }
    assert_eq!(world.most_captures, 1);
    assert_eq!(world.record, Some("5003".to_string()));
    assert!(world.alive(5003));
    assert!(!world.alive(5000));
}

#[test]
fn start_kills_a_stubborn_earlier_capture_before_it_launches() {
    let mut world = live_session(vec![Signal::Kill], 1000);
    let outcome = run_start(&mut world, "/d");
    assert!(matches!(outcome, StartOutcome::Started { pid: 5000, .. }));
    assert!(!world.alive(4242));
    assert_eq!(world.most_captures, 1);
    let strikes: Vec<&Request> =
        world.log.iter().filter(|r| matches!(r, Request::Strike { .. })).collect();
    assert_eq!(strikes.len(), 3);
    let spawn = world.log.iter().position(|r| matches!(r, Request::Spawn { .. })).unwrap();
    let last_strike =
        world.log.iter().rposition(|r| matches!(r, Request::Strike { .. })).unwrap();
    assert!(last_strike < spawn);
}

#[test]
fn start_fails_when_the_earlier_capture_cannot_be_killed() {
    let mut world = live_session(vec![], 1000);
    let outcome = run_start(&mut world, "/d");
    assert_eq!(outcome, StartOutcome::KillFailed(4242));
    assert!(world.alive(4242));
    assert_eq!(world.captures(), 1);
    assert_eq!(world.record, Some("4242".to_string()));
    assert!(!world.log.iter().any(|r| matches!(r, Request::Spawn { .. })));
    assert!(!world.log.iter().any(|r| matches!(r, Request::Acquire)));
}

#[test]
fn start_reports_busy_when_another_process_holds_the_lock() {
    let mut world = World::new();
    world.rival = true;
    let outcome = run_start(&mut world, "/d");
    assert_eq!(outcome, StartOutcome::Busy);
    assert_eq!(world.captures(), 0);
    assert!(!world.log.iter().any(|r| matches!(r, Request::Spawn { .. })));
}

#[test]
fn start_clears_a_stale_record() {
    let mut world = World::new();
    world.record = Some("4242".to_string());
    let outcome = run_start(&mut world, "/d");
    assert!(matches!(outcome, StartOutcome::Started { .. }));
    assert!(world.log.contains(&Request::Probe { pid: 4242 }));
    assert!(world.log.contains(&Request::Delete(Key::Record)));
    assert!(!world.log.iter().any(|r| matches!(r, Request::Strike { .. })));
}

#[test]
fn start_reports_a_lock_that_is_unavailable() {
    let (state, first) = StartState::new("/d");
    assert_eq!(first, Request::Get(Key::Pointer));
    let (state, step) = start_recording(state, Reply::Value(Some(" /d/old.wav\n".to_string())));
    assert_eq!(step, Step::Ask(Request::Sweep { keep: Some("/d/old.wav".to_string()) }));
    let (state, _) = start_recording(state, Reply::Done(true));
    let (state, step) = start_recording(state, Reply::Value(None));
    assert_eq!(step, Step::Ask(Request::Acquire));
    let (state, step) = start_recording(state, Reply::Lock(LockAttempt::Failed(13)));
    assert_eq!(step, Step::Done(StartOutcome::LockUnavailable(13)));
    assert_eq!(state.phase(), StartPhase::Finished);
}

#[test]
fn start_gives_the_lock_back_when_the_launch_fails() {
    let (state, _) = StartState::new("/d");
    let (state, _) = start_recording(state, Reply::Value(None));
    let (state, _) = start_recording(state, Reply::Done(true));
    let (state, _) = start_recording(state, Reply::Value(None));
    let (state, _) = start_recording(state, Reply::Lock(LockAttempt::Acquired));
    let (state, _) = start_recording(state, Reply::Time(5));
    let (state, step) = start_recording(state, Reply::Done(true));
    assert_eq!(step, Step::Ask(Request::Spawn { path: "/d/voice-recording-5.wav".to_string() }));
    let (state, step) = start_recording(state, Reply::Spawned(None));
    assert_eq!(step, Step::Ask(Request::Release));
    let (_, step) = start_recording(state, Reply::Done(true));
    assert_eq!(step, Step::Done(StartOutcome::SpawnFailed));
}

#[test]
fn start_gives_the_lock_back_when_a_write_fails() {
    let (state, _) = StartState::new("/d");
    let (state, _) = start_recording(state, Reply::Value(None));
    let (state, _) = start_recording(state, Reply::Done(true));
    let (state, _) = start_recording(state, Reply::Value(None));
    let (state, _) = start_recording(state, Reply::Lock(LockAttempt::Acquired));
    let (state, _) = start_recording(state, Reply::Time(5));
    let (state, step) = start_recording(state.clone(), Reply::Done(false));
    assert_eq!(step, Step::Ask(Request::Release));
    let (_, step) = start_recording(state, Reply::Done(true));
    assert_eq!(step, Step::Done(StartOutcome::PointerNotWritten));

    let (state, _) = StartState::new("/d");
    let (state, _) = start_recording(state, Reply::Value(None));
    let (state, _) = start_recording(state, Reply::Done(true));
    let (state, _) = start_recording(state, Reply::Value(None));
    let (state, _) = start_recording(state, Reply::Lock(LockAttempt::Acquired));
    let (state, _) = start_recording(state, Reply::Time(5));
    let (state, _) = start_recording(state, Reply::Done(true));
    let (state, step) = start_recording(state, Reply::Spawned(Some(77)));
    assert_eq!(step, Step::Ask(Request::Put(Key::Record, "77".to_string())));
    let (state, step) = start_recording(state, Reply::Done(false));
    assert_eq!(step, Step::Ask(Request::Strike { pid: 77, signal: Signal::Interrupt, pause_ms: 100 }));
    let (state, step) = start_recording(state, Reply::Probed(ProbeOutcome::Delivered));
    assert_eq!(step, Step::Ask(Request::Strike { pid: 77, signal: Signal::Terminate, pause_ms: 100 }));
    let (state, step) = start_recording(state, Reply::Probed(ProbeOutcome::NoSuchProcess));
    assert_eq!(step, Step::Ask(Request::Release));
    let (_, step) = start_recording(state, Reply::Done(true));
    assert_eq!(step, Step::Done(StartOutcome::RecordNotWritten));
}

#[test]
fn start_reports_a_launched_capture_that_it_cannot_take_back() {
    let (state, _) = StartState::new("/d");
    let (state, _) = start_recording(state, Reply::Value(None));
    let (state, _) = start_recording(state, Reply::Done(true));
    let (state, _) = start_recording(state, Reply::Value(None));
    let (state, _) = start_recording(state, Reply::Lock(LockAttempt::Acquired));
    let (state, _) = start_recording(state, Reply::Time(5));
    let (state, _) = start_recording(state, Reply::Done(true));
    let (state, _) = start_recording(state, Reply::Spawned(Some(77)));
    let (mut state, mut step) = start_recording(state, Reply::Done(false));
    let mut strikes = Vec::new();
    while let Step::Ask(Request::Strike { signal, .. }) = step {
        strikes.push(signal);
        let (next, then) = start_recording(state, Reply::Probed(ProbeOutcome::Delivered));
        state = next;
        step = then;
    }
    assert_eq!(strikes, vec![Signal::Interrupt, Signal::Terminate, Signal::Kill]);
    assert_eq!(step, Step::Ask(Request::Release));
    let (_, step) = start_recording(state, Reply::Done(true));
    assert_eq!(step, Step::Done(StartOutcome::KillFailed(77)));
}

#[test]
fn capture_program_records_one_channel_of_sixteen_bits() {
    let invocation = capture_invocation("/d/voice-recording-1.wav");
    assert_eq!(invocation.program, "pw-record");
    assert_eq!(
        invocation.args,
        vec![
            "--channels".to_string(),
            "1".to_string(),
            "--rate".to_string(),
            "16000".to_string(),
            "--format".to_string(),
            "s16".to_string(),
            "--volume".to_string(),
            "1.5".to_string(),
            "/d/voice-recording-1.wav".to_string(),
        ]
    );
    assert!(invocation.env.is_empty());
}

#[test]
fn start_is_out_of_step_on_a_reply_that_was_not_asked_for() {
    let (state, _) = StartState::new("/d");
    let (state, step) = start_recording(state, Reply::Time(1));
    assert_eq!(step, Step::Done(StartOutcome::OutOfStep));
    let (_, step) = start_recording(state, Reply::Done(true));
    assert_eq!(step, Step::Done(StartOutcome::OutOfStep));
}

#[test]
fn stop_after_a_crash_reports_nothing_and_leaves_nothing() {
    let mut world = World::new();
    world.record = Some("4242".to_string());
    world.pointer = Some("/d/voice-recording-1.wav".to_string());
    world.lock_file = true;
    let outcome = run_stop(&mut world, "/d", None);
    assert_eq!(outcome, StopOutcome::NotFound);
    assert_eq!(world.record, None);
    assert_eq!(world.pointer, None);
    assert!(!world.lock_file);
}

#[test]
fn stop_after_a_crash_ignores_an_override() {
    let mut world = World::new();
    world.record = Some("4242".to_string());
    world.files.push(("/home/me/take.wav".to_string(), 9000, false));
    let outcome = run_stop(&mut world, "/d", Some("/home/me/take.wav"));
    assert_eq!(outcome, StopOutcome::NotFound);
    assert!(!world.log.iter().any(|r| matches!(r, Request::Import { .. })));
}

#[test]
fn stop_then_start_is_not_busy() {
    let mut world = live_session(vec![Signal::Interrupt], 1000);
    world.lock_file = true;
    let stopped = run_stop(&mut world, "/d", None);
    assert_eq!(stopped, StopOutcome::Artifact("/run/user/1000/voice-recording-17.wav".to_string()));
    assert!(!world.lock_file);
    let started = run_start(&mut world, "/d");
    assert!(matches!(started, StartOutcome::Started { .. }));
}

#[test]
fn stop_hands_back_the_recording_of_a_polite_capture() {
    let mut world = live_session(vec![Signal::Interrupt, Signal::Terminate, Signal::Kill], 1000);
    let outcome = run_stop(&mut world, "/d", None);
    assert_eq!(outcome, StopOutcome::Artifact("/run/user/1000/voice-recording-17.wav".to_string()));
    assert_eq!(
        world.log,
        vec![
            Request::Await { pause_ms: 0 },
            Request::Get(Key::Record),
            Request::Probe { pid: 4242 },
            Request::Strike { pid: 4242, signal: Signal::Interrupt, pause_ms: 100 },
            Request::Delete(Key::Record),
            Request::Delete(Key::Lock),
            Request::Get(Key::Pointer),
            Request::Delete(Key::Pointer),
            Request::Inspect { path: "/run/user/1000/voice-recording-17.wav".to_string() },
        ]
    );
    assert_eq!(world.record, None);
    assert_eq!(world.pointer, None);
}

#[test]
fn stop_escalates_to_kill_and_still_hands_back_the_recording() {
    let mut world = live_session(vec![Signal::Kill], 1000);
    let outcome = run_stop(&mut world, "/d", None);
    assert_eq!(outcome, StopOutcome::Artifact("/run/user/1000/voice-recording-17.wav".to_string()));
    assert!(!world.alive(4242));
    let strikes: Vec<Request> =
        world.log.iter().filter(|r| matches!(r, Request::Strike { .. })).cloned().collect();
    assert_eq!(
        strikes,
        vec![
            Request::Strike { pid: 4242, signal: Signal::Interrupt, pause_ms: 100 },
            Request::Strike { pid: 4242, signal: Signal::Terminate, pause_ms: 100 },
            Request::Strike { pid: 4242, signal: Signal::Kill, pause_ms: 50 },
        ]
    );
}

#[test]
fn stop_fails_when_the_capture_cannot_be_killed() {
    let mut world = live_session(vec![], 1000);
    world.lock_file = true;
    let outcome = run_stop(&mut world, "/d", None);
    assert_eq!(outcome, StopOutcome::KillFailed(4242));
    assert!(world.alive(4242));
    assert_eq!(world.record, Some("4242".to_string()));
    assert!(!world.lock_file);
}

#[test]
fn stop_tells_a_header_only_recording_from_a_real_one() {
    let mut world = live_session(vec![Signal::Interrupt], 44);
    let outcome = run_stop(&mut world, "/d", None);
    assert_eq!(
        outcome,
        StopOutcome::EmptyArtifact("/run/user/1000/voice-recording-17.wav".to_string())
    );

    let mut world = live_session(vec![Signal::Interrupt], 0);
    let outcome = run_stop(&mut world, "/d", None);
    assert_eq!(
        outcome,
        StopOutcome::EmptyArtifact("/run/user/1000/voice-recording-17.wav".to_string())
    );

    let mut world = live_session(vec![Signal::Interrupt], 45);
    let outcome = run_stop(&mut world, "/d", None);
    assert_eq!(outcome, StopOutcome::Artifact("/run/user/1000/voice-recording-17.wav".to_string()));
}

#[test]
fn stop_reports_a_recording_whose_file_is_gone() {
    let mut world = live_session(vec![Signal::Interrupt], 1000);
    world.files.clear();
    let outcome = run_stop(&mut world, "/d", None);
    assert_eq!(
        outcome,
        StopOutcome::MissingArtifact("/run/user/1000/voice-recording-17.wav".to_string())
    );
}

#[test]
fn stop_gives_up_waiting_for_a_record_after_ten_polls() {
    let mut world = World::new();
    let outcome = run_stop(&mut world, "/d", None);
    assert_eq!(outcome, StopOutcome::NotFound);
    let awaits: Vec<Request> =
        world.log.iter().filter(|r| matches!(r, Request::Await { .. })).cloned().collect();
    assert_eq!(awaits.len(), 11);
    assert_eq!(awaits[0], Request::Await { pause_ms: 0 });
    for later in &awaits[1..] {
        assert_eq!(*later, Request::Await { pause_ms: 20 });
    }
    assert!(!world.lock_file);
}

#[test]
fn stop_polls_as_its_policy_says() {
    let stages = vec![Stage { signal: Signal::Kill, pause_ms: 7 }];
    let (state, first) = StopState::with_policy("/d", None, stages, 2, 5);
    assert_eq!(first, Request::Await { pause_ms: 0 });
    let (state, step) = stop_recording(state, Reply::Present(false));
    assert_eq!(step, Step::Ask(Request::Await { pause_ms: 5 }));
    let (state, step) = stop_recording(state, Reply::Present(false));
    assert_eq!(step, Step::Ask(Request::Await { pause_ms: 5 }));
    let (state, step) = stop_recording(state, Reply::Present(true));
    assert_eq!(step, Step::Ask(Request::Get(Key::Record)));
    let (state, step) = stop_recording(state, Reply::Value(Some(" 31 ".to_string())));
    assert_eq!(step, Step::Ask(Request::Probe { pid: 31 }));
    let (state, step) = stop_recording(state, Reply::Probed(ProbeOutcome::PermissionDenied));
    assert_eq!(step, Step::Ask(Request::Strike { pid: 31, signal: Signal::Kill, pause_ms: 7 }));
    let (state, step) = stop_recording(state, Reply::Probed(ProbeOutcome::Delivered));
    assert_eq!(step, Step::Ask(Request::Delete(Key::Lock)));
    let (_, step) = stop_recording(state, Reply::Done(true));
    assert_eq!(step, Step::Done(StopOutcome::KillFailed(31)));
}

#[test]
fn stop_copies_the_callers_own_file_into_a_fresh_slot() {
    let mut world = live_session(vec![Signal::Interrupt], 1000);
    world.clock = 77;
    world.files.push(("/home/me/take.wav".to_string(), 9000, false));
    let outcome = run_stop(&mut world, "/d", Some("/home/me/take.wav"));
    assert_eq!(outcome, StopOutcome::Artifact("/d/voice-recording-override-77.wav".to_string()));
    assert!(world.log.contains(&Request::Import {
        from: "/home/me/take.wav".to_string(),
        to: "/d/voice-recording-override-77.wav".to_string(),
    }));
    assert_eq!(world.size_of("/d/voice-recording-override-77.wav"), Some(9000));
}

#[test]
fn stop_reports_a_copy_that_failed() {
    let mut world = World::new();
    let outcome = run_stop(&mut world, "/d", Some("/nowhere.wav"));
    assert_eq!(outcome, StopOutcome::ImportFailed);
}

#[test]
fn stop_treats_a_blank_record_as_nothing_to_stop() {
    let mut world = World::new();
    world.record = Some("  \n".to_string());
    world.pointer = Some("/d/voice-recording-1.wav".to_string());
    world.lock_file = true;
    let outcome = run_stop(&mut world, "/d", None);
    assert_eq!(outcome, StopOutcome::NotFound);
    assert_eq!(world.record, None);
    assert!(!world.lock_file);
    assert!(!world.log.iter().any(|r| matches!(r, Request::Probe { .. })));
}

#[test]
fn stop_skips_the_kill_for_a_record_that_names_no_process() {
    let mut world = World::new();
    world.record = Some("not a pid".to_string());
    world.pointer = Some("/d/voice-recording-1.wav".to_string());
    world.files.push(("/d/voice-recording-1.wav".to_string(), 500, false));
    let outcome = run_stop(&mut world, "/d", None);
    assert_eq!(outcome, StopOutcome::Artifact("/d/voice-recording-1.wav".to_string()));
    assert!(!world.log.iter().any(|r| matches!(r, Request::Probe { .. })));
    assert_eq!(world.record, None);
}

#[test]
fn stop_is_out_of_step_on_a_reply_that_was_not_asked_for() {
    let (state, _) = StopState::new("/d", None);
    let (state, step) = stop_recording(state, Reply::Done(true));
    assert_eq!(step, Step::Done(StopOutcome::OutOfStep));
    let (_, step) = stop_recording(state, Reply::Present(true));
    assert_eq!(step, Step::Done(StopOutcome::OutOfStep));
}

#[test]
fn recording_is_in_progress_when_the_record_names_a_live_process() {
    let record = RecordProbe::Names { pid: 4242, outcome: ProbeOutcome::Delivered };
    assert!(is_recording(record, LockProbe::Missing));
    assert!(is_recording(record, LockProbe::Free));
    let denied = RecordProbe::Names { pid: 4242, outcome: ProbeOutcome::PermissionDenied };
    assert!(is_recording(denied, LockProbe::Missing));
}

#[test]
fn recording_is_in_progress_when_the_lock_is_held() {
    assert!(is_recording(RecordProbe::Missing, LockProbe::Held));
    assert!(is_recording(RecordProbe::Unreadable, LockProbe::Held));
    let dead = RecordProbe::Names { pid: 4242, outcome: ProbeOutcome::NoSuchProcess };
    assert!(is_recording(dead, LockProbe::Held));
}

#[test]
fn stale_record_and_stale_lock_show_no_recording() {
    let dead = RecordProbe::Names { pid: 4242, outcome: ProbeOutcome::NoSuchProcess };
    assert!(!is_recording(dead, LockProbe::Missing));
    assert!(!is_recording(RecordProbe::Missing, LockProbe::Free));
    assert!(!is_recording(dead, LockProbe::Free));
    assert!(!is_recording(RecordProbe::Missing, LockProbe::Missing));
    assert!(!is_recording(RecordProbe::Unreadable, LockProbe::Unreadable));
    let nobody = RecordProbe::Names { pid: 0, outcome: ProbeOutcome::Delivered };
    assert!(!is_recording(nobody, LockProbe::Free));
}

#[test]
fn record_target_is_the_process_that_the_record_names() {
    assert_eq!(record_target(Some("4242\n")), Some(4242));
    assert_eq!(record_target(Some("")), None);
    assert_eq!(record_target(Some("x")), None);
    assert_eq!(record_target(None), None);
}

#[test]
fn store_entries_live_at_well_known_paths() {
    assert_eq!(store_path(Key::Record, 1000), "/tmp/whisp-away-recording.pid");
    assert_eq!(store_path(Key::Lock, 1000), "/tmp/whisp-away-recording.lock");
    assert_eq!(store_path(Key::Pointer, 1000), "/run/user/1000/voice-audio-file.tmp");
    assert_eq!(store_path(Key::Pointer, 0), "/run/user/0/voice-audio-file.tmp");
}

#[test]
fn started_notice_tells_the_settings_in_use() {
    let notice = started_notice("faster-whisper", "cuda", "base.en");
    assert_eq!(notice.title, "Voice Input");
    assert_eq!(
        notice.message,
        "Recording... (release to stop)\nBackend: faster-whisper (cuda) | Model: base.en"
    );
    assert_eq!(notice.timeout_ms, 30000);
}

#[test]
fn start_sets_up_the_session_that_it_reports() {
    let mut world = live_session(vec![Signal::Terminate], 1000);
    world.lock_file = true;
    world.clock = 31;
    match run_start(&mut world, "/d") {
        StartOutcome::Started { pid, audio_file } => {
            assert_eq!(world.record, Some(pid.to_string()));
            assert_eq!(world.pointer, Some(audio_file.clone()));
            assert!(world.alive(pid));
            assert!(world.size_of(&audio_file).is_some());
            assert!(!world.held);
            assert!(!world.lock_file);
        }
        other => panic!("unexpected outcome {:?}", other),
    }
}

#[test]
fn stop_leaves_no_capture_alive_unless_it_says_so() {
    for heeds in [
        vec![Signal::Interrupt],
        vec![Signal::Terminate],
        vec![Signal::Kill],
        vec![Signal::Interrupt, Signal::Kill],
        vec![],
    ] {
        let mut world = live_session(heeds, 1000);
        match run_stop(&mut world, "/d", None) {
            StopOutcome::KillFailed(pid) => {
                assert!(world.alive(pid));
                assert_eq!(world.record, Some(pid.to_string()));
            }
            _ => {
                assert_eq!(world.captures(), 0);
                assert_eq!(world.record, None);
            }
        }
        assert!(!world.lock_file);
    }
}

#[test]
fn every_step_ends_or_asks_within_bounds() {
    let replies = [
        Reply::Present(false),
        Reply::Present(true),
        Reply::Value(None),
        Reply::Value(Some("12".to_string())),
        Reply::Done(true),
        Reply::Lock(LockAttempt::Acquired),
        Reply::Probed(ProbeOutcome::Delivered),
        Reply::Time(3),
        Reply::Spawned(Some(9)),
        Reply::Size(Some(100)),
    ];
    for seed in 0..200usize {
        let (mut state, _) = StopState::new("/d", Some("/x.wav"));
        let mut steps = 0;
        let mut pick = seed;
        loop {
            let reply = replies[pick % replies.len()].clone();
            pick = pick / replies.len() + seed + steps * 7;
            let (next, step) = stop_recording(state, reply);
            state = next;
            steps += 1;
            if let Step::Done(_) = step {
                break;
            }
            assert!(steps <= 25);
        }
        let (mut state, _) = StartState::new("/d");
        let mut steps = 0;
        let mut pick = seed;
        loop {
            let reply = replies[pick % replies.len()].clone();
            pick = pick / replies.len() + seed + steps * 7;
            let (next, step) = start_recording(state, reply);
            state = next;
            steps += 1;
            if let Step::Done(_) = step {
                break;
            }
            assert!(steps <= 20);
        }
    }
}

#[test]
fn sweep_spares_the_recording_that_the_pointer_names() {
    let mut world = live_session(vec![Signal::Interrupt], 1000);
    world.files[0].2 = true;
    world.files.push(("/d/voice-recording-3.wav".to_string(), 1000, true));
    world.files.push(("/d/voice-recording-4.wav".to_string(), 1000, false));
    let outcome = run_start(&mut world, "/d");
    assert!(matches!(outcome, StartOutcome::Started { .. }));
    assert_eq!(
        world.log[1],
        Request::Sweep { keep: Some("/run/user/1000/voice-recording-17.wav".to_string()) }
    );
    assert!(world.size_of("/run/user/1000/voice-recording-17.wav").is_some());
    assert!(world.size_of("/d/voice-recording-3.wav").is_none());
    assert!(world.size_of("/d/voice-recording-4.wav").is_some());
}

fn run_status(world: &mut World) -> bool {
    let (mut state, mut request) = begin_status();
    for _ in 0..10 {
        let reply = world.react(&request);
        let (next, step) = check_recording(state, reply);
        state = next;
        match step {
            Step::Ask(r) => request = r,
            Step::Done(answer) => return answer,
        }
    }
    panic!("the query did not end");
}

#[test]
fn status_query_tells_a_live_session_and_changes_nothing() {
    let mut world = live_session(vec![Signal::Interrupt], 1000);
    world.lock_file = true;
    let before = (world.record.clone(), world.pointer.clone(), world.lock_file, world.files.clone());
    assert!(run_status(&mut world));
    assert_eq!(world.log, vec![Request::Get(Key::Record), Request::Probe { pid: 4242 }]);
    let after = (world.record.clone(), world.pointer.clone(), world.lock_file, world.files.clone());
    assert_eq!(before, after);
    assert!(world.alive(4242));
}

#[test]
fn status_query_resolves_stale_record_and_stale_lock_to_no() {
    let mut world = World::new();
    world.record = Some("4242".to_string());
    world.lock_file = true;
    assert!(!run_status(&mut world));
    assert_eq!(
        world.log,
        vec![Request::Get(Key::Record), Request::Probe { pid: 4242 }, Request::Look]
    );
    assert_eq!(world.record, Some("4242".to_string()));
    assert!(world.lock_file);

    let mut world = World::new();
    world.lock_file = true;
    assert!(!run_status(&mut world));

    let mut world = World::new();
    world.record = Some("garbage".to_string());
    assert!(!run_status(&mut world));
}

#[test]
fn status_query_sees_a_held_lock() {
    let mut world = World::new();
    world.lock_file = true;
    world.rival = true;
    assert!(run_status(&mut world));
    let mut world = World::new();
    world.record = Some("4242".to_string());
    world.lock_file = true;
    world.rival = true;
    assert!(run_status(&mut world));
}

#[test]
fn status_query_is_out_of_step_on_a_reply_that_was_not_asked_for() {
    let (state, _) = begin_status();
    let (state, step) = check_recording(state, Reply::Done(true));
    assert_eq!(step, Step::Done(false));
    let (_, step) = check_recording(state, Reply::Looked(LockProbe::Held));
    assert_eq!(step, Step::Done(false));
}
