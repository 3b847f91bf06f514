use backend_supervisor::supervisor::GRACE_PERIOD_MILLIS;
use backend_supervisor::{
    get_backend_status, shutdown, start_backend, stop_backend, BackendState, StartAction,
    StartEvent, StopAction, StopEvent,
};

fn running_with(handle: u32) -> BackendState<u32> {
    let mut state = BackendState::new();
    let action = start_backend(&mut state, StartEvent::Spawned(handle));
    assert!(matches!(action, StartAction::Watch { .. }));
    state
}

#[test]
fn new_supervisor_tracks_nothing() {
    let state: BackendState<u32> = BackendState::new();
    assert!(!get_backend_status(&state));
    let state: BackendState<String> = BackendState::default();
    assert!(!get_backend_status(&state));
}

#[test]
fn start_request_asks_for_the_sidecar() {
    let mut state: BackendState<u32> = BackendState::new();
    let action = start_backend(&mut state, StartEvent::Requested);
    assert_eq!(action, StartAction::Spawn { executable: "localai-backend".to_string() });
    assert!(!get_backend_status(&state));
}

#[test]
fn spawned_process_is_tracked_and_announced() {
    let mut state: BackendState<u32> = BackendState::new();
    let action = start_backend(&mut state, StartEvent::Spawned(41));
    assert_eq!(
        action,
        StartAction::Watch { grace_millis: 500, reply: "Backend started".to_string() }
    );
    assert_eq!(GRACE_PERIOD_MILLIS, 500);
    assert!(get_backend_status(&state));
    assert_eq!(stop_backend(&mut state, StopEvent::Requested), StopAction::Kill(41));
}

#[test]
fn start_stop_cycle() {
    let mut state: BackendState<u32> = BackendState::new();

    let action = start_backend(&mut state, StartEvent::Requested);
    assert!(matches!(action, StartAction::Spawn { .. }));
    let action = start_backend(&mut state, StartEvent::Spawned(7));
    match action {
        StartAction::Watch { reply, .. } => assert_eq!(reply, "Backend started"),
        other => panic!("unexpected action {:?}", other),
    }
    assert!(get_backend_status(&state));

    let action = start_backend(&mut state, StartEvent::Requested);
    assert_eq!(action, StartAction::Reply(Ok("Backend already running".to_string())));
    assert!(get_backend_status(&state));

    let action = stop_backend(&mut state, StopEvent::Requested);
    assert_eq!(action, StopAction::Kill(7));
    assert!(!get_backend_status(&state));
    let action = stop_backend(&mut state, StopEvent::Killed);
    assert_eq!(action, StopAction::Reply(Ok("Backend stopped".to_string())));
    assert!(!get_backend_status(&state));

    let action = stop_backend(&mut state, StopEvent::Requested);
    assert_eq!(action, StopAction::Reply(Ok("Backend was not running".to_string())));
    assert!(!get_backend_status(&state));
}

#[test]
fn spawn_failure_is_reported_with_its_cause() {
    let mut state: BackendState<u32> = BackendState::new();
    let action = start_backend(&mut state, StartEvent::Requested);
    assert!(matches!(action, StartAction::Spawn { .. }));
    let cause = "No such file or directory (os error 2)";
    let action = start_backend(&mut state, StartEvent::SpawnFailed(cause.to_string()));
    match action {
        StartAction::Reply(Err(text)) => {
            assert_eq!(text, "Failed to spawn backend: No such file or directory (os error 2)");
            assert!(text.contains(cause));
        }
        other => panic!("unexpected action {:?}", other),
    }
    assert!(!get_backend_status(&state));
}

#[test]
fn command_failure_is_reported_with_its_cause() {
    let mut state: BackendState<u32> = BackendState::new();
    let action =
        start_backend(&mut state, StartEvent::CommandFailed("sidecar not configured".to_string()));
    assert_eq!(
        action,
        StartAction::Reply(Err(
            "Failed to create sidecar command: sidecar not configured".to_string()
        ))
    );
    assert!(!get_backend_status(&state));
}

#[test]
fn failure_reports_leave_a_tracked_backend_alone() {
    let mut state = running_with(3);
    let action = start_backend(&mut state, StartEvent::SpawnFailed(String::new()));
    assert_eq!(action, StartAction::Reply(Err("Failed to spawn backend: ".to_string())));
    let action = start_backend(&mut state, StartEvent::CommandFailed("x".to_string()));
    assert_eq!(action, StartAction::Reply(Err("Failed to create sidecar command: x".to_string())));
    assert!(get_backend_status(&state));
    assert_eq!(stop_backend(&mut state, StopEvent::Requested), StopAction::Kill(3));
}

#[test]
fn second_handle_is_rejected_not_stored() {
    let mut state = running_with(1);
    let action = start_backend(&mut state, StartEvent::Spawned(2));
    assert_eq!(
        action,
        StartAction::Discard { handle: 2, reply: "Backend already running".to_string() }
    );
    assert!(get_backend_status(&state));
    assert_eq!(stop_backend(&mut state, StopEvent::Requested), StopAction::Kill(1));
}

#[test]
fn kill_failure_is_reported_and_slot_stays_empty() {
    let mut state = running_with(9);
    assert_eq!(stop_backend(&mut state, StopEvent::Requested), StopAction::Kill(9));
    let action = stop_backend(&mut state, StopEvent::KillFailed("Operation not permitted".to_string()));
    assert_eq!(
        action,
        StopAction::Reply(Err("Failed to kill backend: Operation not permitted".to_string()))
    );
    assert!(!get_backend_status(&state));
}

#[test]
fn kill_reports_do_not_touch_a_new_backend() {
    let mut state = running_with(1);
    assert_eq!(stop_backend(&mut state, StopEvent::Requested), StopAction::Kill(1));
    let action = start_backend(&mut state, StartEvent::Spawned(2));
    assert!(matches!(action, StartAction::Watch { .. }));
    let action: StopAction<u32> = stop_backend(&mut state, StopEvent::Killed);
    assert_eq!(action, StopAction::Reply(Ok("Backend stopped".to_string())));
    assert!(get_backend_status(&state));
    assert_eq!(shutdown(&mut state), Some(2));
}

#[test]
fn shutdown_takes_the_handle() {
    let mut state = running_with(5);
    assert_eq!(shutdown(&mut state), Some(5));
    assert!(!get_backend_status(&state));
    assert_eq!(shutdown(&mut state), None);
    assert!(!get_backend_status(&state));
}

#[test]
fn handles_need_not_be_numbers() {
    let mut state: BackendState<Vec<String>> = BackendState::new();
    let handle = vec!["pid".to_string(), "4711".to_string()];
    let action = start_backend(&mut state, StartEvent::Spawned(handle.clone()));
    assert!(matches!(action, StartAction::Watch { .. }));
    assert_eq!(stop_backend(&mut state, StopEvent::Requested), StopAction::Kill(handle));
}

#[test]
fn any_run_tracks_at_most_one_and_loses_no_handle() {
    // A fixed pseudo-random run of steps. Handles are numbered as they are
    // spawned; each must end up handed back exactly once or still be held.
    let mut state: BackendState<u32> = BackendState::new();
    let mut seed: u32 = 0x2545_f491;
    let mut next_handle: u32 = 0;
    let mut taken_in: Vec<u32> = Vec::new();
    let mut handed_back: Vec<u32> = Vec::new();
    let mut expected: Option<u32> = None;
    for _ in 0..2000 {
        seed ^= seed << 13;
        seed ^= seed >> 17;
        seed ^= seed << 5;
        match seed % 8 {
            0 => {
                let action = start_backend(&mut state, StartEvent::Requested);
                match (expected, action) {
                    (Some(_), StartAction::Reply(Ok(text))) => {
                        assert_eq!(text, "Backend already running")
                    }
                    (None, StartAction::Spawn { executable }) => {
                        assert_eq!(executable, "localai-backend")
                    }
                    (_, other) => panic!("unexpected action {:?}", other),
                }
            }
            1 | 2 => {
                let handle = next_handle;
                next_handle += 1;
                taken_in.push(handle);
                match start_backend(&mut state, StartEvent::Spawned(handle)) {
                    StartAction::Watch { .. } => {
                        assert_eq!(expected, None);
                        expected = Some(handle);
                    }
                    StartAction::Discard { handle: back, .. } => {
                        assert!(expected.is_some());
                        assert_eq!(back, handle);
                        handed_back.push(back);
                    }
                    other => panic!("unexpected action {:?}", other),
                }
            }
            3 => {
                let action = start_backend(&mut state, StartEvent::SpawnFailed("e".to_string()));
                assert!(matches!(action, StartAction::Reply(Err(_))));
            }
            4 | 5 => match stop_backend(&mut state, StopEvent::Requested) {
                StopAction::Kill(back) => {
                    assert_eq!(expected, Some(back));
                    handed_back.push(back);
                    expected = None;
                }
                StopAction::Reply(answer) => {
                    assert_eq!(expected, None);
                    assert_eq!(answer, Ok("Backend was not running".to_string()));
                }
            },
            6 => {
                let action: StopAction<u32> =
                    stop_backend(&mut state, StopEvent::KillFailed("e".to_string()));
                assert!(matches!(action, StopAction::Reply(Err(_))));
            }
            _ => {
                let back = shutdown(&mut state);
                assert_eq!(back, expected);
                if let Some(back) = back {
                    handed_back.push(back);
                }
                expected = None;
            }
        }
        assert_eq!(get_backend_status(&state), expected.is_some());
        let held = taken_in.len() - handed_back.len();
        assert!(held <= 1);
        assert_eq!(held == 1, get_backend_status(&state));
    }
    if let Some(last) = shutdown(&mut state) {
        handed_back.push(last);
    }
    handed_back.sort();
    assert_eq!(taken_in, handed_back);
    assert!(next_handle > 100);
}

/// What the world outside answers when it is asked to spawn the executable.
enum World {
    Spawns(u32),
    NoCommand(&'static str),
    NoSpawn(&'static str),
}

/// Runs one start conversation to its answer, as a caller does. Returns the
/// answer, the spawns that were asked for, and the handles given back.
fn start(state: &mut BackendState<u32>, world: World) -> (Result<String, String>, Vec<String>, Vec<u32>) {
    let mut asked = Vec::new();
    let mut given_back = Vec::new();
    let mut world = Some(world);
    let mut event = StartEvent::Requested;
    loop {
        match start_backend(state, event) {
            StartAction::Reply(answer) => return (answer, asked, given_back),
            StartAction::Spawn { executable } => {
                asked.push(executable);
                event = match world.take().expect("one spawn per conversation") {
                    World::Spawns(handle) => StartEvent::Spawned(handle),
                    World::NoCommand(cause) => StartEvent::CommandFailed(cause.to_string()),
                    World::NoSpawn(cause) => StartEvent::SpawnFailed(cause.to_string()),
                };
            }
            StartAction::Watch { grace_millis, reply } => {
                assert_eq!(grace_millis, 500);
                return (Ok(reply), asked, given_back);
            }
            StartAction::Discard { handle, reply } => {
                given_back.push(handle);
                return (Ok(reply), asked, given_back);
            }
        }
    }
}

/// Runs one stop conversation to its answer. Returns the answer and the
/// handles whose kill was asked for.
fn stop(state: &mut BackendState<u32>, kill: Result<(), &'static str>) -> (Result<String, String>, Vec<u32>) {
    let mut killed = Vec::new();
    let mut event = StopEvent::Requested;
    loop {
        match stop_backend(state, event) {
            StopAction::Reply(answer) => return (answer, killed),
            StopAction::Kill(handle) => {
                killed.push(handle);
                event = match kill {
                    Ok(()) => StopEvent::Killed,
                    Err(cause) => StopEvent::KillFailed(cause.to_string()),
                };
            }
        }
    }
}

#[test]
fn scenario_start_start_stop_stop() {
    let mut state = BackendState::new();

    let (answer, asked, given_back) = start(&mut state, World::Spawns(100));
    assert_eq!(answer, Ok("Backend started".to_string()));
    assert_eq!(asked, vec!["localai-backend".to_string()]);
    assert!(given_back.is_empty());
    assert!(get_backend_status(&state));

    let (answer, asked, given_back) = start(&mut state, World::Spawns(101));
    assert_eq!(answer, Ok("Backend already running".to_string()));
    assert!(asked.is_empty());
    assert!(given_back.is_empty());
    assert!(get_backend_status(&state));

    let (answer, killed) = stop(&mut state, Ok(()));
    assert_eq!(answer, Ok("Backend stopped".to_string()));
    assert_eq!(killed, vec![100]);
    assert!(!get_backend_status(&state));

    let (answer, killed) = stop(&mut state, Ok(()));
    assert_eq!(answer, Ok("Backend was not running".to_string()));
    assert!(killed.is_empty());
    assert!(!get_backend_status(&state));
}

#[test]
fn scenario_spawn_failure() {
    let mut state = BackendState::new();
    let (answer, asked, given_back) =
        start(&mut state, World::NoSpawn("program not found: localai-backend"));
    assert_eq!(asked.len(), 1);
    assert!(given_back.is_empty());
    let text = answer.unwrap_err();
    assert_eq!(text, "Failed to spawn backend: program not found: localai-backend");
    assert!(text.contains("program not found: localai-backend"));
    assert!(!get_backend_status(&state));

    let (answer, _, _) = start(&mut state, World::NoCommand("sidecar not allowed"));
    assert_eq!(answer, Err("Failed to create sidecar command: sidecar not allowed".to_string()));
    assert!(!get_backend_status(&state));

    let (answer, _, _) = start(&mut state, World::Spawns(1));
    assert_eq!(answer, Ok("Backend started".to_string()));
    assert!(get_backend_status(&state));
}

#[test]
fn scenario_kill_failure() {
    let mut state = BackendState::new();
    let (answer, _, _) = start(&mut state, World::Spawns(8));
    assert!(answer.is_ok());
    let (answer, killed) = stop(&mut state, Err("No such process"));
    assert_eq!(answer, Err("Failed to kill backend: No such process".to_string()));
    assert_eq!(killed, vec![8]);
    assert!(!get_backend_status(&state));
    let (answer, killed) = stop(&mut state, Ok(()));
    assert_eq!(answer, Ok("Backend was not running".to_string()));
    assert!(killed.is_empty());
}

#[test]
fn scenario_many_cycles() {
    let mut state = BackendState::new();
    for round in 0..50u32 {
        let (answer, asked, _) = start(&mut state, World::Spawns(round));
        assert_eq!(answer, Ok("Backend started".to_string()));
        assert_eq!(asked.len(), 1);
        assert!(get_backend_status(&state));
        let (answer, killed) = stop(&mut state, Ok(()));
        assert_eq!(answer, Ok("Backend stopped".to_string()));
        assert_eq!(killed, vec![round]);
        assert!(!get_backend_status(&state));
    }
}
