use mcserverd::server::{
    classify_exit, encode_command, launch, launch_with, Action, Config, Event, Launch, Outcome,
    Phase, Supervisor, SupervisorError, STOP_COMMAND,
};
use std::time::Duration;

fn config() -> Config {
    Config {
        directory: "/srv/minecraft".to_string(),
        shutdown_timeout: Duration::from_millis(50),
        min_memory: "512M".to_string(),
        max_memory: "2G".to_string(),
    }
}

fn running() -> Supervisor {
    let (supervisor, _) = Supervisor::new(&config());
    let (supervisor, action) = supervisor.step(Event::Spawned);
    assert_eq!(action, Action::Wait);
    assert_eq!(supervisor.phase, Phase::Running);
    supervisor
}

/// Feeds the events in order; gives back the last state, what was written to
/// the child's input, and the other actions that were not `Wait`.
fn replay(mut supervisor: Supervisor, events: Vec<Event>) -> (Supervisor, Vec<u8>, Vec<Action>) {
    let mut written = Vec::new();
    let mut others = Vec::new();
    for event in events {
        let (next, action) = supervisor.step(event);
        supervisor = next;
        match action {
            Action::Wait => {}
            Action::Write(bytes) => written.extend_from_slice(&bytes),
            other => others.push(other),
        }
    }
    (supervisor, written, others)
}

#[test]
fn launch_with_builds_the_java_command_line() {
    let launch = launch_with(&config(), "/srv/minecraft/server.jar".to_string());
    assert_eq!(
        launch,
        Launch {
            program: "java".to_string(),
            args: vec![
                "-Xms512M".to_string(),
                "-Xmx2G".to_string(),
                "-jar".to_string(),
                "/srv/minecraft/server.jar".to_string(),
                "nogui".to_string(),
            ],
            directory: "/srv/minecraft".to_string(),
        }
    );
}

#[test]
fn launch_points_at_the_jar_in_the_directory() {
    let launch = launch(&config());
    assert_eq!(launch.program, "java");
    assert_eq!(launch.directory, "/srv/minecraft");
    assert_eq!(launch.args.len(), 5);
    assert_eq!(launch.args[0], "-Xms512M");
    assert_eq!(launch.args[1], "-Xmx2G");
    assert_eq!(launch.args[2], "-jar");
    assert_eq!(launch.args[3], "/srv/minecraft/server.jar");
    assert_eq!(launch.args[4], "nogui");
}

#[test]
fn launch_joins_rather_than_echoes_the_directory() {
    let launch = launch(&config());
    assert_ne!(launch.args[3], "/srv/minecraft");
    assert_ne!(launch.args[3], "server.jar");
}

#[test]
fn encode_command_appends_a_line_feed() {
    assert_eq!(encode_command("help"), b"help\n");
    assert_eq!(encode_command(""), b"\n");
    assert_eq!(encode_command("say h\u{e9}llo"), "say h\u{e9}llo\n".as_bytes());
}

#[test]
fn stop_command_is_stop() {
    assert_eq!(STOP_COMMAND, "stop");
}

#[test]
fn classify_exit_by_status() {
    assert_eq!(classify_exit(Some(0)), Ok(Outcome::Success));
    assert_eq!(classify_exit(Some(1)), Err(SupervisorError::AbnormalExit { status: Some(1) }));
    assert_eq!(classify_exit(Some(-1)), Err(SupervisorError::AbnormalExit { status: Some(-1) }));
    assert_eq!(classify_exit(None), Err(SupervisorError::AbnormalExit { status: None }));
}

#[test]
fn new_supervisor_is_starting() {
    let (supervisor, launch) = Supervisor::new(&config());
    assert_eq!(supervisor.phase, Phase::Starting);
    assert!(supervisor.input_open);
    assert_eq!(supervisor.shutdown_timeout, Duration::from_millis(50));
    assert_eq!(launch.program, "java");
}

#[test]
fn spawn_failure_ends_the_run() {
    let (supervisor, _) = Supervisor::new(&config());
    let (supervisor, action) = supervisor.step(Event::SpawnFailed("java: not found".to_string()));
    assert_eq!(
        action,
        Action::Finish(Err(SupervisorError::SpawnError { detail: "java: not found".to_string() }))
    );
    assert_eq!(supervisor.phase, Phase::Exited);
}

#[test]
fn queued_lines_reach_the_child_before_stop() {
    let supervisor = running();
    let (supervisor, written, others) = replay(
        supervisor,
        vec![Event::Line("help".to_string()), Event::Line("list".to_string()), Event::Terminate],
    );
    assert_eq!(written, b"help\nlist\n");
    assert_eq!(
        others,
        vec![Action::Stop { line: "stop".to_string(), timeout: Duration::from_millis(50) }]
    );
    assert_eq!(supervisor.phase, Phase::ShuttingDown);
    let (_, written, others) = replay(supervisor, vec![Event::Line("stop".to_string())]);
    assert_eq!(written, b"stop\n");
    assert!(others.is_empty());
}

#[test]
fn child_input_receives_help_list_stop_in_order() {
    let mut supervisor = running();
    let mut channel: std::collections::VecDeque<String> = std::collections::VecDeque::new();
    let mut child_input: Vec<u8> = Vec::new();
    channel.push_back("help".to_string());
    channel.push_back("list".to_string());
    let (next, action) = supervisor.step(Event::Terminate);
    supervisor = next;
    match action {
        Action::Stop { line, .. } => channel.push_back(line),
        other => panic!("unexpected action {:?}", other),
    }
    while let Some(line) = channel.pop_front() {
        let (next, action) = supervisor.step(Event::Line(line));
        supervisor = next;
        match action {
            Action::Write(bytes) => child_input.extend_from_slice(&bytes),
            other => panic!("unexpected action {:?}", other),
        }
    }
    assert_eq!(child_input, b"help\nlist\nstop\n");
}

#[test]
fn timeout_forces_termination() {
    let supervisor = running();
    let (supervisor, action) = supervisor.step(Event::Terminate);
    assert_eq!(
        action,
        Action::Stop { line: "stop".to_string(), timeout: Duration::from_millis(50) }
    );
    let (supervisor, action) = supervisor.step(Event::Line("stop".to_string()));
    assert_eq!(action, Action::Write(b"stop\n".to_vec()));
    let (supervisor, action) = supervisor.step(Event::TimedOut);
    assert_eq!(action, Action::Kill);
    assert_eq!(supervisor.phase, Phase::Killing);
    let (supervisor, action) = supervisor.step(Event::Killed);
    assert_eq!(action, Action::Finish(Ok(Outcome::ForcedTermination)));
    assert_eq!(supervisor.phase, Phase::Exited);
}

#[test]
fn kill_failure_is_an_error() {
    let supervisor = running();
    let (supervisor, _) = supervisor.step(Event::Terminate);
    let (supervisor, _) = supervisor.step(Event::TimedOut);
    let (_, action) = supervisor.step(Event::KillFailed("no such process".to_string()));
    assert_eq!(
        action,
        Action::Finish(Err(SupervisorError::Io { detail: "no such process".to_string() }))
    );
}

#[test]
fn natural_exit_with_status_zero_is_success() {
    let (supervisor, action) = running().step(Event::Exited(Some(0)));
    assert_eq!(action, Action::Finish(Ok(Outcome::Success)));
    assert_eq!(supervisor.phase, Phase::Exited);
}

#[test]
fn natural_exit_with_nonzero_status_is_abnormal() {
    let (_, action) = running().step(Event::Exited(Some(3)));
    assert_eq!(action, Action::Finish(Err(SupervisorError::AbnormalExit { status: Some(3) })));
    let (_, action) = running().step(Event::Exited(None));
    assert_eq!(action, Action::Finish(Err(SupervisorError::AbnormalExit { status: None })));
}

#[test]
fn exit_during_shutdown_is_graceful_whatever_the_status() {
    for status in [Some(0), Some(1), Some(143), None] {
        let (supervisor, _) = running().step(Event::Terminate);
        let (supervisor, action) = supervisor.step(Event::Exited(status));
        assert_eq!(action, Action::Finish(Ok(Outcome::Success)));
        assert_eq!(supervisor.phase, Phase::Exited);
    }
}

#[test]
fn second_signal_changes_nothing() {
    let (supervisor, _) = running().step(Event::Terminate);
    let (again, action) = supervisor.step(Event::Terminate);
    assert_eq!(action, Action::Wait);
    assert_eq!(again.phase, Phase::ShuttingDown);
    let (_, _, others) = replay(
        running(),
        vec![Event::Terminate, Event::Terminate, Event::Terminate, Event::TimedOut, Event::Terminate],
    );
    let stops = others.iter().filter(|a| matches!(a, Action::Stop { .. })).count();
    assert_eq!(stops, 1);
}

#[test]
fn wait_failure_is_an_error() {
    let (_, action) = running().step(Event::WaitFailed("interrupted".to_string()));
    assert_eq!(
        action,
        Action::Finish(Err(SupervisorError::Io { detail: "interrupted".to_string() }))
    );
    let (supervisor, _) = running().step(Event::Terminate);
    let (_, action) = supervisor.step(Event::WaitFailed("interrupted".to_string()));
    assert_eq!(
        action,
        Action::Finish(Err(SupervisorError::Io { detail: "interrupted".to_string() }))
    );
}

#[test]
fn failed_write_stops_forwarding_silently() {
    let (supervisor, action) = running().step(Event::WriteFailed);
    assert_eq!(action, Action::Wait);
    assert!(!supervisor.input_open);
    assert_eq!(supervisor.phase, Phase::Running);
    let (supervisor, action) = supervisor.step(Event::Line("help".to_string()));
    assert_eq!(action, Action::Wait);
    let (supervisor, action) = supervisor.step(Event::Terminate);
    assert!(matches!(action, Action::Stop { .. }));
    let (_, action) = supervisor.step(Event::Line("stop".to_string()));
    assert_eq!(action, Action::Wait);
}

#[test]
fn events_without_meaning_in_a_phase_are_ignored() {
    let (starting, _) = Supervisor::new(&config());
    for event in [
        Event::Line("help".to_string()),
        Event::Terminate,
        Event::TimedOut,
        Event::Killed,
        Event::Exited(Some(0)),
        Event::WriteFailed,
    ] {
        let (next, action) = starting.step(event);
        assert_eq!(action, Action::Wait);
        assert_eq!(next.phase, Phase::Starting);
        assert!(next.input_open);
    }
    let (next, action) = running().step(Event::TimedOut);
    assert_eq!((next.phase, action), (Phase::Running, Action::Wait));
    let (next, action) = running().step(Event::Killed);
    assert_eq!((next.phase, action), (Phase::Running, Action::Wait));
    let (exited, _) = running().step(Event::Exited(Some(0)));
    for event in [Event::Line("x".to_string()), Event::Terminate, Event::Exited(Some(1)), Event::Spawned] {
        let (next, action) = exited.step(event);
        assert_eq!((next.phase, action), (Phase::Exited, Action::Wait));
    }
}

#[test]
fn config_clone_keeps_every_field() {
    let c = config();
    let copy = c.clone();
    assert_eq!(copy.directory, c.directory);
    assert_eq!(copy.shutdown_timeout, c.shutdown_timeout);
    assert_eq!(copy.min_memory, c.min_memory);
    assert_eq!(copy.max_memory, c.max_memory);
}
