use backend_supervisor::error::SupervisorError;
use backend_supervisor::locator::{DeploymentMode, Locator};
use backend_supervisor::path::Platform;
use backend_supervisor::probe::HealthStatus;
use backend_supervisor::shutdown::{conclude, on_exit};
use backend_supervisor::supervisor::{
    autostart, spawn_command, EnvVar, Observations, ProcessState, ReplaceStep, SpawnCommand, StartRequest,
    StartStep, StopStep, Supervisor,
};
use std::sync::Mutex;

/// A machine that counts what is asked of it. A child's handle is its
/// number.
struct Machine {
    spawned: u32,
    killed: Vec<u32>,
    spawn_fails: bool,
    kill_fails: bool,
}

impl Machine {
    fn new() -> Self {
        Machine { spawned: 0, killed: Vec::new(), spawn_fails: false, kill_fails: false }
    }

    fn spawn(&mut self, _command: &SpawnCommand) -> Result<u32, String> {
        if self.spawn_fails {
            Err("No such file or directory (os error 2)".to_string())
        } else {
            self.spawned += 1;
            Ok(self.spawned)
        }
    }

    fn kill(&mut self, child: u32) -> Result<(), String> {
        self.killed.push(child);
        if self.kill_fails {
            Err("Operation not permitted (os error 1)".to_string())
        } else {
            Ok(())
        }
    }

    fn alive(&self) -> u32 {
        self.spawned - self.killed.len() as u32
    }
}

fn locator() -> Locator {
    Locator {
        mode: DeploymentMode::Packaged,
        platform: Platform::Unix,
        exe_dir: "/opt/app".to_string(),
        resource_dir: "/opt/app/resources".to_string(),
        data_dir: "/var/lib/biome".to_string(),
    }
}

fn request() -> StartRequest {
    StartRequest { port: 3001, backend_root: "/proj/backend".to_string() }
}

fn seen(entry_script_present: bool, probe: HealthStatus) -> Observations {
    Observations { entry_script_present, probe, runtime_present: vec![false, true] }
}

/// A whole start, as a caller runs it.
fn start(
    supervisor: Supervisor<u32>,
    machine: &mut Machine,
    seen: &Observations,
) -> (Supervisor<u32>, Result<u16, SupervisorError>) {
    let pending = match supervisor.begin_start(&locator(), &request(), seen) {
        StartStep::Settled(end) => return (end.supervisor, end.answer),
        StartStep::Launch(pending) => pending,
        StartStep::Replace { stale, next } => match next.stale_stopped(machine.kill(stale)) {
            ReplaceStep::Settled(end) => return (end.supervisor, end.answer),
            ReplaceStep::Launch(pending) => pending,
        },
    };
    let spawned = machine.spawn(pending.command());
    let end = pending.complete(spawned);
    (end.supervisor, end.answer)
}

/// A whole stop, as a caller runs it.
fn stop(
    supervisor: Supervisor<u32>,
    machine: &mut Machine,
) -> (Supervisor<u32>, Result<(), SupervisorError>) {
    match supervisor.begin_stop() {
        StopStep::Settled(end) => (end.supervisor, end.answer),
        StopStep::Kill { child, next } => {
            let end = next.complete(machine.kill(child));
            (end.supervisor, end.answer)
        }
    }
}

/// The forced stop, as the close handler runs it.
fn exit(supervisor: Supervisor<u32>, machine: &mut Machine) -> Supervisor<u32> {
    match on_exit(supervisor) {
        StopStep::Settled(end) => end.supervisor,
        StopStep::Kill { child, next } => conclude(next, machine.kill(child)),
    }
}

#[test]
fn a_new_supervisor_is_idle() {
    let supervisor: Supervisor<u32> = Supervisor::new();
    assert_eq!(supervisor.state(), ProcessState::Idle);
    assert_eq!(supervisor.handle(), None);
}

#[test]
fn start_without_entry_script_names_the_missing_path() {
    let mut machine = Machine::new();
    let (supervisor, answer) =
        start(Supervisor::new(), &mut machine, &seen(false, HealthStatus::Unreachable));
    assert_eq!(
        answer,
        Err(SupervisorError::DiscoveryFailed {
            searched: vec!["/proj/backend/src/server.js".to_string()]
        })
    );
    assert_eq!(supervisor.state(), ProcessState::Idle);
    assert_eq!(machine.spawned, 0);
}

#[test]
fn start_without_entry_script_fails_even_if_a_backend_answers() {
    let mut machine = Machine::new();
    let (supervisor, answer) =
        start(Supervisor::new(), &mut machine, &seen(false, HealthStatus::Responding));
    assert!(matches!(answer, Err(SupervisorError::DiscoveryFailed { .. })));
    assert_eq!(supervisor.state(), ProcessState::Idle);
}

#[test]
fn start_spawns_and_holds_the_child() {
    let mut machine = Machine::new();
    let (supervisor, answer) =
        start(Supervisor::new(), &mut machine, &seen(true, HealthStatus::Unreachable));
    assert_eq!(answer, Ok(3001));
    assert_eq!(supervisor.state(), ProcessState::Running);
    assert_eq!(supervisor.handle(), Some(&1));
    assert_eq!(machine.spawned, 1);
}

#[test]
fn start_reuses_a_backend_that_answers() {
    let mut machine = Machine::new();
    let (supervisor, answer) =
        start(Supervisor::new(), &mut machine, &seen(true, HealthStatus::Responding));
    assert_eq!(answer, Ok(3001));
    assert_eq!(supervisor.state(), ProcessState::Idle);
    assert_eq!(machine.spawned, 0);

    let (supervisor, _) = start(supervisor, &mut machine, &seen(true, HealthStatus::Unreachable));
    assert_eq!(supervisor.handle(), Some(&1));
    let (supervisor, answer) =
        start(supervisor, &mut machine, &seen(true, HealthStatus::Responding));
    assert_eq!(answer, Ok(3001));
    assert_eq!(supervisor.handle(), Some(&1));
    assert_eq!(machine.spawned, 1);
    assert!(machine.killed.is_empty());
}

#[test]
fn start_replaces_a_child_that_does_not_answer_only_after_stopping_it() {
    let mut machine = Machine::new();
    let (supervisor, _) =
        start(Supervisor::new(), &mut machine, &seen(true, HealthStatus::Unreachable));
    let (supervisor, answer) =
        start(supervisor, &mut machine, &seen(true, HealthStatus::NotResponding));
    assert_eq!(answer, Ok(3001));
    assert_eq!(supervisor.handle(), Some(&2));
    assert_eq!(machine.killed, vec![1]);
    assert_eq!(machine.alive(), 1);
}

#[test]
fn start_does_not_spawn_when_the_stale_child_cannot_be_stopped() {
    let mut machine = Machine::new();
    let (supervisor, _) =
        start(Supervisor::new(), &mut machine, &seen(true, HealthStatus::Unreachable));
    machine.kill_fails = true;
    let (supervisor, answer) =
        start(supervisor, &mut machine, &seen(true, HealthStatus::Unreachable));
    assert_eq!(
        answer,
        Err(SupervisorError::TerminationFailed {
            reason: "Operation not permitted (os error 1)".to_string()
        })
    );
    assert_eq!(supervisor.state(), ProcessState::Idle);
    assert_eq!(machine.spawned, 1);
}

#[test]
fn failed_spawn_leaves_the_supervisor_idle() {
    let mut machine = Machine::new();
    machine.spawn_fails = true;
    let (supervisor, answer) =
        start(Supervisor::new(), &mut machine, &seen(true, HealthStatus::Unreachable));
    assert_eq!(
        answer,
        Err(SupervisorError::SpawnFailed {
            reason: "No such file or directory (os error 2)".to_string()
        })
    );
    assert_eq!(supervisor.state(), ProcessState::Idle);
    assert_eq!(supervisor.handle(), None);
}

#[test]
fn stop_on_idle_is_a_no_op_that_succeeds() {
    let mut machine = Machine::new();
    let (supervisor, answer) = stop(Supervisor::new(), &mut machine);
    assert_eq!(answer, Ok(()));
    assert_eq!(supervisor.state(), ProcessState::Idle);
    let (supervisor, answer) = stop(supervisor, &mut machine);
    assert_eq!(answer, Ok(()));
    assert_eq!(supervisor.state(), ProcessState::Idle);
    assert!(machine.killed.is_empty());
}

#[test]
fn stop_terminates_the_child_and_clears_the_handle() {
    let mut machine = Machine::new();
    let (supervisor, _) =
        start(Supervisor::new(), &mut machine, &seen(true, HealthStatus::Unreachable));
    let (supervisor, answer) = stop(supervisor, &mut machine);
    assert_eq!(answer, Ok(()));
    assert_eq!(supervisor.state(), ProcessState::Idle);
    assert_eq!(machine.killed, vec![1]);
}

#[test]
fn failed_termination_is_reported_but_the_handle_is_released() {
    let mut machine = Machine::new();
    let (supervisor, _) =
        start(Supervisor::new(), &mut machine, &seen(true, HealthStatus::Unreachable));
    machine.kill_fails = true;
    let (supervisor, answer) = stop(supervisor, &mut machine);
    assert_eq!(
        answer,
        Err(SupervisorError::TerminationFailed {
            reason: "Operation not permitted (os error 1)".to_string()
        })
    );
    assert_eq!(supervisor.state(), ProcessState::Idle);
    assert_eq!(supervisor.handle(), None);
}

#[test]
fn exit_always_ends_idle() {
    let mut machine = Machine::new();
    let supervisor = exit(Supervisor::new(), &mut machine);
    assert_eq!(supervisor.state(), ProcessState::Idle);
    assert!(machine.killed.is_empty());

    let (supervisor, _) = start(supervisor, &mut machine, &seen(true, HealthStatus::Unreachable));
    let supervisor = exit(supervisor, &mut machine);
    assert_eq!(supervisor.state(), ProcessState::Idle);
    assert_eq!(machine.killed, vec![1]);

    let (supervisor, _) = start(supervisor, &mut machine, &seen(true, HealthStatus::Unreachable));
    machine.kill_fails = true;
    let supervisor = exit(supervisor, &mut machine);
    assert_eq!(supervisor.state(), ProcessState::Idle);
    assert_eq!(supervisor.handle(), None);
    assert_eq!(machine.killed, vec![1, 2]);
}

#[test]
fn pending_steps_report_their_state() {
    let supervisor: Supervisor<u32> = Supervisor::new();
    let pending = match supervisor.begin_start(
        &locator(),
        &request(),
        &seen(true, HealthStatus::Unreachable),
    ) {
        StartStep::Launch(pending) => pending,
        _ => panic!("an idle supervisor spawns"),
    };
    assert_eq!(pending.state(), ProcessState::Starting);
    assert_eq!(pending.requested_port(), 3001);
    let end = pending.complete(Ok(7u32));
    match end.supervisor.begin_stop() {
        StopStep::Kill { child, next } => {
            assert_eq!(child, 7);
            assert_eq!(next.state(), ProcessState::Stopping);
        }
        StopStep::Settled(_) => panic!("a running supervisor has a child to terminate"),
    }
    let running = Supervisor::<u32>::new()
        .begin_start(&locator(), &request(), &seen(true, HealthStatus::Unreachable));
    let running = match running {
        StartStep::Launch(pending) => pending.complete(Ok(9u32)).supervisor,
        _ => panic!("an idle supervisor spawns"),
    };
    match running.begin_start(&locator(), &request(), &seen(true, HealthStatus::NotResponding)) {
        StartStep::Replace { stale, next } => {
            assert_eq!(stale, 9);
            assert_eq!(next.state(), ProcessState::Stopping);
        }
        _ => panic!("a child that does not answer is replaced"),
    }
}

#[test]
fn at_most_one_child_over_a_long_run() {
    let probes = [
        HealthStatus::Unreachable,
        HealthStatus::NotResponding,
        HealthStatus::Responding,
    ];
    let mut machine = Machine::new();
    let mut supervisor: Supervisor<u32> = Supervisor::new();
    let mut seed: u32 = 12345;
    for _ in 0..2000 {
        seed = seed.wrapping_mul(1103515245).wrapping_add(12345);
        let pick = (seed >> 16) % 8;
        machine.kill_fails = (seed >> 8) % 5 == 0;
        machine.spawn_fails = (seed >> 11) % 7 == 0;
        supervisor = match pick {
            0..=3 => {
                let probe = probes[((seed >> 20) % 3) as usize];
                start(supervisor, &mut machine, &seen((seed >> 4) % 4 != 0, probe)).0
            }
            4..=6 => stop(supervisor, &mut machine).0,
            _ => exit(supervisor, &mut machine),
        };
        let held = if supervisor.handle().is_some() { 1 } else { 0 };
        assert_eq!(machine.alive(), held);
        assert!(machine.alive() <= 1);
        if let Some(child) = supervisor.handle() {
            assert_eq!(*child, machine.spawned);
            assert!(!machine.killed.contains(child));
        }
    }
    assert!(machine.spawned > 10);
}

#[test]
fn two_starts_on_one_lock_end_with_one_child() {
    for backend_comes_up in [true, false] {
        let machine = Mutex::new(Machine::new());
        let shared: Mutex<Option<Supervisor<u32>>> = Mutex::new(Some(Supervisor::new()));
        let mut answers = Vec::new();
        for _caller in 0..2 {
            let mut guard = shared.lock().unwrap();
            let mut machine = machine.lock().unwrap();
            let probe = if machine.alive() > 0 && backend_comes_up {
                HealthStatus::Responding
            } else {
                HealthStatus::Unreachable
            };
            let supervisor = guard.take().unwrap();
            let (supervisor, answer) = start(supervisor, &mut machine, &seen(true, probe));
            *guard = Some(supervisor);
            answers.push(answer);
        }
        let machine = machine.lock().unwrap();
        let guard = shared.lock().unwrap();
        let supervisor = guard.as_ref().unwrap();
        assert_eq!(answers, vec![Ok(3001), Ok(3001)]);
        assert_eq!(supervisor.state(), ProcessState::Running);
        assert_eq!(machine.alive(), 1);
        if backend_comes_up {
            assert_eq!(machine.spawned, 1);
            assert_eq!(supervisor.handle(), Some(&1));
        } else {
            assert_eq!(machine.killed, vec![1]);
            assert_eq!(supervisor.handle(), Some(&2));
        }
    }
}

#[test]
fn spawn_command_of_a_packaged_application() {
    let command = spawn_command(&locator(), 3001, "/proj/backend", "/opt/app/node.exe".to_string());
    assert_eq!(
        command,
        SpawnCommand {
            program: "/opt/app/node.exe".to_string(),
            args: vec!["/proj/backend/src/server.js".to_string()],
            working_dir: "/proj/backend".to_string(),
            env: vec![
                EnvVar { name: "PORT".to_string(), value: "3001".to_string() },
                EnvVar { name: "NODE_ENV".to_string(), value: "production".to_string() },
                EnvVar { name: "TAURI_APP_DATA".to_string(), value: "/var/lib/biome".to_string() },
                EnvVar { name: "DEBUG".to_string(), value: "biome:*".to_string() },
            ],
            hide_console: false,
        }
    );
}

#[test]
fn spawn_command_in_development_on_windows() {
    let locator = Locator {
        mode: DeploymentMode::Development,
        platform: Platform::Windows,
        exe_dir: "C:\\dev\\target".to_string(),
        resource_dir: "C:\\dev\\target".to_string(),
        data_dir: "C:\\Users\\me\\AppData\\Roaming\\biome".to_string(),
    };
    let command = spawn_command(&locator, 8080, "D:\\DEV\\backend", "node.exe".to_string());
    assert_eq!(command.program, "node.exe");
    assert_eq!(command.args, vec!["D:\\DEV\\backend\\src\\server.js".to_string()]);
    assert_eq!(command.working_dir, "D:\\DEV\\backend");
    assert_eq!(
        command.env,
        vec![
            EnvVar { name: "PORT".to_string(), value: "8080".to_string() },
            EnvVar {
                name: "TAURI_APP_DATA".to_string(),
                value: "C:\\Users\\me\\AppData\\Roaming\\biome".to_string()
            },
        ]
    );
    assert!(command.hide_console);
}

#[test]
fn start_launches_the_runtime_that_the_locator_settles_on() {
    let supervisor: Supervisor<u32> = Supervisor::new();
    let step = supervisor.begin_start(&locator(), &request(), &seen(true, HealthStatus::Unreachable));
    match step {
        StartStep::Launch(pending) => {
            assert_eq!(pending.command().program, "/opt/app/node.exe");
            assert_eq!(pending.command().working_dir, "/proj/backend");
        }
        _ => panic!("an idle supervisor spawns"),
    }
    let nothing_bundled = Observations {
        entry_script_present: true,
        probe: HealthStatus::NotResponding,
        runtime_present: vec![false; 6],
    };
    match Supervisor::<u32>::new().begin_start(&locator(), &request(), &nothing_bundled) {
        StartStep::Launch(pending) => assert_eq!(pending.command().program, "node"),
        _ => panic!("an idle supervisor spawns"),
    }
}

#[test]
fn status_reports_state_probe_and_endpoint() {
    let supervisor: Supervisor<u32> = Supervisor::new();
    let report =
        supervisor.status_at(3001, HealthStatus::Unreachable, "2024-05-01T12:00:00+00:00".to_string());
    assert_eq!(report.process_state, ProcessState::Idle);
    assert_eq!(report.http_status, HealthStatus::Unreachable);
    assert_eq!(report.port, 3001);
    assert_eq!(report.endpoint_url, "http://localhost:3001");
    assert_eq!(report.timestamp, "2024-05-01T12:00:00+00:00");

    let mut machine = Machine::new();
    let (supervisor, _) = start(supervisor, &mut machine, &seen(true, HealthStatus::Unreachable));
    let report = supervisor.status_at(8080, HealthStatus::Responding, "t".to_string());
    assert_eq!(report.process_state, ProcessState::Running);
    assert_eq!(report.http_status, HealthStatus::Responding);
    assert_eq!(report.endpoint_url, "http://localhost:8080");
    assert_eq!(supervisor.handle(), Some(&1));
}

#[test]
fn status_is_stamped_with_the_moment_given() {
    let supervisor: Supervisor<u32> = Supervisor::new();
    let report = supervisor
        .status(3001, HealthStatus::NotResponding, 1714564800, 0)
        .expect("a moment in 2024 can be written");
    assert_eq!(report.process_state, ProcessState::Idle);
    assert_eq!(report.http_status, HealthStatus::NotResponding);
    assert_eq!(report.port, 3001);
    assert_eq!(report.endpoint_url, "http://localhost:3001");
    assert_eq!(report.timestamp, "2024-05-01T12:00:00+00:00");

    let report = supervisor.status(8080, HealthStatus::Responding, 0, 500_000_000).unwrap();
    assert_eq!(report.timestamp, "1970-01-01T00:00:00.500+00:00");
    assert_eq!(report.endpoint_url, "http://localhost:8080");
    let report = supervisor.status(8080, HealthStatus::Responding, -1, 0).unwrap();
    assert_eq!(report.timestamp, "1969-12-31T23:59:59+00:00");
}

#[test]
fn status_has_no_report_for_a_moment_out_of_range() {
    let supervisor: Supervisor<u32> = Supervisor::new();
    assert_eq!(supervisor.status(3001, HealthStatus::Responding, i64::MAX, 0), None);
    assert_eq!(supervisor.status(3001, HealthStatus::Responding, i64::MIN, 0), None);
    assert_eq!(supervisor.status(3001, HealthStatus::Responding, 0, 2_000_000_000), None);
}

#[test]
fn status_stamp_agrees_with_the_clock_library() {
    let supervisor: Supervisor<u32> = Supervisor::new();
    let now = chrono::Utc::now();
    let report = supervisor
        .status(3001, HealthStatus::Unreachable, now.timestamp(), now.timestamp_subsec_nanos())
        .unwrap();
    assert_eq!(report.timestamp, now.to_rfc3339());
}

#[test]
fn autostart_only_when_packaged() {
    let development = Locator { mode: DeploymentMode::Development, ..locator() };
    assert_eq!(autostart(&development, &vec![true, true, true, true]), Ok(None));
    assert_eq!(
        autostart(&locator(), &vec![false, true, false, false]),
        Ok(Some(StartRequest { port: 3001, backend_root: "/opt/app/backend".to_string() }))
    );
    assert_eq!(
        autostart(&locator(), &vec![false, false, false, false]),
        Err(SupervisorError::DiscoveryFailed {
            searched: vec![
                "/opt/app/resources/backend/src/server.js".to_string(),
                "/opt/app/backend/src/server.js".to_string(),
                "/var/lib/biome/backend/src/server.js".to_string(),
                "/var/lib/backend/src/server.js".to_string(),
            ]
        })
    );
}
