use vstd::prelude::*;
use vstd::utf8::encode_utf8;
use std::time::Duration;

verus! {

/// How to run the server.
#[derive(Debug)]
pub struct Config {
    /// The directory that holds `server.jar`.
    pub directory: String,
    /// How long to wait for a graceful shutdown before killing the server.
    pub shutdown_timeout: Duration,
    /// The smallest heap of the virtual machine, such as `1G` or `512M`.
    pub min_memory: String,
    /// The largest heap of the virtual machine, such as `1G` or `512M`.
    pub max_memory: String,
}

/// The mathematical content of a [`Config`].
pub struct ConfigView {
    pub directory: Seq<char>,
    pub shutdown_timeout: Duration,
    pub min_memory: Seq<char>,
    pub max_memory: Seq<char>,
}

impl View for Config {
    type V = ConfigView;

    open spec fn view(&self) -> ConfigView {
        ConfigView {
            directory: self.directory@,
            shutdown_timeout: self.shutdown_timeout,
            min_memory: self.min_memory@,
            max_memory: self.max_memory@,
        }
    }
}

impl Clone for Config {
    fn clone(&self) -> (copy: Self)
        ensures
            copy == *self,
    {
        Config {
            directory: self.directory.clone(),
            shutdown_timeout: self.shutdown_timeout,
            min_memory: self.min_memory.clone(),
            max_memory: self.max_memory.clone(),
        }
    }
}

/// A process to start: the program, its arguments, and the directory to run
/// it in.
#[derive(Debug, PartialEq, Eq)]
pub struct Launch {
    pub program: String,
    pub args: Vec<String>,
    pub directory: String,
}

/// The mathematical content of a [`Launch`].
pub struct LaunchView {
    pub program: Seq<char>,
    pub args: Seq<Seq<char>>,
    pub directory: Seq<char>,
}

impl View for Launch {
    type V = LaunchView;

    open spec fn view(&self) -> LaunchView {
        LaunchView {
            program: self.program@,
            args: Seq::new(self.args@.len(), |i: int| self.args@[i]@),
            directory: self.directory@,
        }
    }
}

/// The process that runs the server archive at `jar_path` under `config`: the
/// virtual machine with both heap limits, the archive, and no graphical
/// console, started in the configured directory.
pub open spec fn launch_of(config: ConfigView, jar_path: Seq<char>) -> LaunchView {
    LaunchView {
        program: "java"@,
        args: seq![
            "-Xms"@ + config.min_memory,
            "-Xmx"@ + config.max_memory,
            "-jar"@,
            jar_path,
            "nogui"@,
        ],
        directory: config.directory,
    }
}

/// The process that runs the server archive at `jar_path` under `config`.
pub fn launch_with(config: &Config, jar_path: String) -> (launch: Launch)
    ensures
        launch@ == launch_of(config@, jar_path@),
{
    let mut xms = "-Xms".to_owned();
    xms.append(config.min_memory.as_str());
    let mut xmx = "-Xmx".to_owned();
    xmx.append(config.max_memory.as_str());
    let mut args: Vec<String> = Vec::new();
    args.push(xms);
    args.push(xmx);
    args.push("-jar".to_owned());
    args.push(jar_path);
    args.push("nogui".to_owned());
    let launch = Launch {
        program: "java".to_owned(),
        args,
        directory: config.directory.clone(),
    };
    assert(launch@.args =~= launch_of(config@, jar_path@).args);
    launch
}

/// The path of `name` inside `directory`.
///
/// This is `Utf8Path::join` of the `camino` crate, on strings. Nothing is
/// promised of the result: how two paths are joined is the platform's matter.
#[verifier::external_body]
fn join_path(directory: &str, name: &str) -> (path: String) {
    camino::Utf8Path::new(directory).join(name).into_string()
}

/// The process that runs the server under `config`: `server.jar` of the
/// configured directory, by whatever path the platform gives it.
pub fn launch(config: &Config) -> (launch: Launch)
    ensures
        exists|jar_path: Seq<char>| launch@ == launch_of(config@, jar_path),
{
    let jar_path = join_path(config.directory.as_str(), "server.jar");
    launch_with(config, jar_path)
}

/// The command that asks the server to stop.
pub const STOP_COMMAND: &'static str = "stop";

/// What is written to the server's input for one command line: the line's
/// bytes and a line feed.
pub open spec fn command_bytes(line: Seq<char>) -> Seq<u8> {
    encode_utf8(line).push(10u8)
}

/// What to write to the server's input for one command line.
pub fn encode_command(line: &str) -> (bytes: Vec<u8>)
    ensures
        bytes@ == command_bytes(line@),
{
    let mut bytes = line.as_bytes_vec();
    bytes.push(10u8);
    bytes
}

/// How a run of the server ended without an error.
#[derive(Debug, PartialEq, Eq, Clone, Copy, Structural)]
pub enum Outcome {
    /// The server exited by itself with status zero, or exited after it was
    /// asked to stop.
    Success,
    /// The server did not exit in time after it was asked to stop, and was
    /// killed.
    ForcedTermination,
}

/// Why a run of the server failed.
#[derive(Debug, PartialEq, Eq)]
pub enum SupervisorError {
    /// The server could not be started.
    SpawnError { detail: String },
    /// The server exited by itself with a status other than zero, or without
    /// one.
    AbnormalExit { status: Option<i32> },
    /// Waiting for the server, or killing it, failed.
    Io { detail: String },
}

/// The mathematical content of a [`SupervisorError`].
pub enum SupervisorErrorView {
    SpawnError { detail: Seq<char> },
    AbnormalExit { status: Option<i32> },
    Io { detail: Seq<char> },
}

impl View for SupervisorError {
    type V = SupervisorErrorView;

    open spec fn view(&self) -> SupervisorErrorView {
        match self {
            SupervisorError::SpawnError { detail } => SupervisorErrorView::SpawnError {
                detail: detail@,
            },
            SupervisorError::AbnormalExit { status } => SupervisorErrorView::AbnormalExit {
                status: *status,
            },
            SupervisorError::Io { detail } => SupervisorErrorView::Io { detail: detail@ },
        }
    }
}

/// What an exit of the server by itself amounts to: status zero is a success,
/// any other status, or none, an abnormal exit that carries it.
pub open spec fn exit_result(status: Option<i32>) -> Result<Outcome, SupervisorErrorView> {
    if status == Some(0i32) {
        Ok(Outcome::Success)
    } else {
        Err(SupervisorErrorView::AbnormalExit { status })
    }
}

/// The views of a result's two sides.
pub open spec fn result_view(r: Result<Outcome, SupervisorError>) -> Result<
    Outcome,
    SupervisorErrorView,
> {
    match r {
        Ok(outcome) => Ok(outcome),
        Err(e) => Err(e@),
    }
}

/// What an exit of the server by itself amounts to.
pub fn classify_exit(status: Option<i32>) -> (result: Result<Outcome, SupervisorError>)
    ensures
        result_view(result) == exit_result(status),
{
    match status {
        Some(0) => Ok(Outcome::Success),
        _ => Err(SupervisorError::AbnormalExit { status }),
    }
}

/// Where a supervised run stands.
#[derive(Debug, PartialEq, Eq, Clone, Copy, Structural)]
pub enum Phase {
    /// The server is being started.
    Starting,
    /// The server runs.
    Running,
    /// A termination signal was seen and the server was asked to stop.
    ShuttingDown,
    /// The server did not stop in time and is being killed; still part of the
    /// shutdown.
    Killing,
    /// The run has ended.
    Exited,
}

/// What happens around a supervised server.
#[derive(Debug, PartialEq, Eq)]
pub enum Event {
    /// The server was started and its input captured.
    Spawned,
    /// The server could not be started.
    SpawnFailed(String),
    /// A line came off the command channel.
    Line(String),
    /// Writing to the server's input failed.
    WriteFailed,
    /// A termination signal arrived.
    Terminate,
    /// The server exited, with this status if it has one.
    Exited(Option<i32>),
    /// Waiting for the server failed.
    WaitFailed(String),
    /// The shutdown timer ran out.
    TimedOut,
    /// The server was killed.
    Killed,
    /// The server could not be killed.
    KillFailed(String),
}

/// The mathematical content of an [`Event`].
pub enum EventView {
    Spawned,
    SpawnFailed(Seq<char>),
    Line(Seq<char>),
    WriteFailed,
    Terminate,
    Exited(Option<i32>),
    WaitFailed(Seq<char>),
    TimedOut,
    Killed,
    KillFailed(Seq<char>),
}

impl View for Event {
    type V = EventView;

    open spec fn view(&self) -> EventView {
        match self {
            Event::Spawned => EventView::Spawned,
            Event::SpawnFailed(detail) => EventView::SpawnFailed(detail@),
            Event::Line(line) => EventView::Line(line@),
            Event::WriteFailed => EventView::WriteFailed,
            Event::Terminate => EventView::Terminate,
            Event::Exited(status) => EventView::Exited(*status),
            Event::WaitFailed(detail) => EventView::WaitFailed(detail@),
            Event::TimedOut => EventView::TimedOut,
            Event::Killed => EventView::Killed,
            Event::KillFailed(detail) => EventView::KillFailed(detail@),
        }
    }
}

/// What the supervisor asks for in answer to an event.
#[derive(Debug, PartialEq, Eq)]
pub enum Action {
    /// Nothing; await the next event.
    Wait,
    /// Write these bytes to the server's input.
    Write(Vec<u8>),
    /// Put this line on the command channel, behind what it holds, and start
    /// the shutdown timer.
    Stop { line: String, timeout: Duration },
    /// Kill the server.
    Kill,
    /// The run has ended with this result.
    Finish(Result<Outcome, SupervisorError>),
}

/// The mathematical content of an [`Action`].
pub enum ActionView {
    Wait,
    Write(Seq<u8>),
    Stop { line: Seq<char>, timeout: Duration },
    Kill,
    Finish(Result<Outcome, SupervisorErrorView>),
}

impl View for Action {
    type V = ActionView;

    open spec fn view(&self) -> ActionView {
        match self {
            Action::Wait => ActionView::Wait,
            Action::Write(bytes) => ActionView::Write(bytes@),
            Action::Stop { line, timeout } => ActionView::Stop { line: line@, timeout: *timeout },
            Action::Kill => ActionView::Kill,
            Action::Finish(result) => ActionView::Finish(result_view(*result)),
        }
    }
}

/// The supervisor of one server process.
#[derive(Debug, Clone, Copy)]
pub struct Supervisor {
    /// Where the run stands.
    pub phase: Phase,
    /// Whether lines are still written to the server's input; no longer once
    /// a write has failed.
    pub input_open: bool,
    /// How long the server gets to stop.
    pub shutdown_timeout: Duration,
}

impl Supervisor {
    /// This supervisor in another phase.
    pub open spec fn at(self, phase: Phase) -> Supervisor {
        Supervisor { phase, ..self }
    }

    /// The end of the run with `result`.
    pub open spec fn finished(self, result: Result<Outcome, SupervisorErrorView>) -> (
        Supervisor,
        ActionView,
    ) {
        (self.at(Phase::Exited), ActionView::Finish(result))
    }

    /// What becomes of a line off the command channel: it is written to the
    /// server's input as long as no write has failed.
    pub open spec fn forward(self, line: Seq<char>) -> (Supervisor, ActionView) {
        if self.input_open {
            (self, ActionView::Write(command_bytes(line)))
        } else {
            (self, ActionView::Wait)
        }
    }

    /// The state and the action that follow `event`.
    ///
    /// While the server runs, its exit ends the run by its status, and a
    /// termination signal has the stop command queued and the timer started.
    /// During the shutdown an exit is a success whatever the status, a second
    /// signal changes nothing, and the timer running out has the server
    /// killed, which ends the run as a forced termination. Lines are written
    /// through in the order they come, until a write fails. An event that has
    /// no meaning in the phase changes nothing.
    pub open spec fn next(self, event: EventView) -> (Supervisor, ActionView) {
        match (self.phase, event) {
            (Phase::Starting, EventView::Spawned) => (self.at(Phase::Running), ActionView::Wait),
            (Phase::Starting, EventView::SpawnFailed(detail)) => self.finished(
                Err(SupervisorErrorView::SpawnError { detail }),
            ),
            (Phase::Running, EventView::Line(line)) => self.forward(line),
            (Phase::ShuttingDown, EventView::Line(line)) => self.forward(line),
            (Phase::Killing, EventView::Line(line)) => self.forward(line),
            (Phase::Running, EventView::WriteFailed) => (
                Supervisor { input_open: false, ..self },
                ActionView::Wait,
            ),
            (Phase::ShuttingDown, EventView::WriteFailed) => (
                Supervisor { input_open: false, ..self },
                ActionView::Wait,
            ),
            (Phase::Killing, EventView::WriteFailed) => (
                Supervisor { input_open: false, ..self },
                ActionView::Wait,
            ),
            (Phase::Running, EventView::Terminate) => (
                self.at(Phase::ShuttingDown),
                ActionView::Stop { line: STOP_COMMAND@, timeout: self.shutdown_timeout },
            ),
            (Phase::Running, EventView::Exited(status)) => self.finished(exit_result(status)),
            (Phase::Running, EventView::WaitFailed(detail)) => self.finished(
                Err(SupervisorErrorView::Io { detail }),
            ),
            (Phase::ShuttingDown, EventView::Exited(status)) => self.finished(
                Ok(Outcome::Success),
            ),
            (Phase::ShuttingDown, EventView::WaitFailed(detail)) => self.finished(
                Err(SupervisorErrorView::Io { detail }),
            ),
            (Phase::ShuttingDown, EventView::TimedOut) => (
                self.at(Phase::Killing),
                ActionView::Kill,
            ),
            (Phase::Killing, EventView::Killed) => self.finished(Ok(Outcome::ForcedTermination)),
            (Phase::Killing, EventView::KillFailed(detail)) => self.finished(
                Err(SupervisorErrorView::Io { detail }),
            ),
            _ => (self, ActionView::Wait),
        }
    }

    /// A supervisor for a server under `config`, and the process to start.
    pub fn new(config: &Config) -> (start: (Supervisor, Launch))
        ensures
            start.0 == (Supervisor {
                phase: Phase::Starting,
                input_open: true,
                shutdown_timeout: config.shutdown_timeout,
            }),
            exists|jar_path: Seq<char>| start.1@ == launch_of(config@, jar_path),
    {
        let supervisor = Supervisor {
            phase: Phase::Starting,
            input_open: true,
            shutdown_timeout: config.shutdown_timeout,
        };
        (supervisor, launch(config))
    }

    fn end(self, result: Result<Outcome, SupervisorError>) -> (r: (Supervisor, Action))
        ensures
            (r.0, r.1@) == self.finished(result_view(result)),
    {
        (
            Supervisor {
                phase: Phase::Exited,
                input_open: self.input_open,
                shutdown_timeout: self.shutdown_timeout,
            },
            Action::Finish(result),
        )
    }

    fn pass_on(self, line: String) -> (r: (Supervisor, Action))
        ensures
            (r.0, r.1@) == self.forward(line@),
    {
        if self.input_open {
            (self, Action::Write(encode_command(line.as_str())))
        } else {
            (self, Action::Wait)
        }
    }

    fn close_input(self) -> (r: (Supervisor, Action))
        ensures
            r.0 == (Supervisor { input_open: false, ..self }),
            r.1@ == ActionView::Wait,
    {
        (
            Supervisor {
                phase: self.phase,
                input_open: false,
                shutdown_timeout: self.shutdown_timeout,
            },
            Action::Wait,
        )
    }

    fn enter(self, phase: Phase) -> (next: Supervisor)
        ensures
            next == self.at(phase),
    {
        Supervisor { phase, input_open: self.input_open, shutdown_timeout: self.shutdown_timeout }
    }

    /// Takes an event and gives the action that answers it.
    pub fn step(self, event: Event) -> (r: (Supervisor, Action))
        ensures
            (r.0, r.1@) == self.next(event@),
    {
        match (self.phase, event) {
            (Phase::Starting, Event::Spawned) => (self.enter(Phase::Running), Action::Wait),
            (Phase::Starting, Event::SpawnFailed(detail)) => self.end(
                Err(SupervisorError::SpawnError { detail }),
            ),
            (Phase::Running, Event::Line(line)) => self.pass_on(line),
            (Phase::ShuttingDown, Event::Line(line)) => self.pass_on(line),
            (Phase::Killing, Event::Line(line)) => self.pass_on(line),
            (Phase::Running, Event::WriteFailed) => self.close_input(),
            (Phase::ShuttingDown, Event::WriteFailed) => self.close_input(),
            (Phase::Killing, Event::WriteFailed) => self.close_input(),
            (Phase::Running, Event::Terminate) => (
                self.enter(Phase::ShuttingDown),
                Action::Stop { line: STOP_COMMAND.to_owned(), timeout: self.shutdown_timeout },
            ),
            (Phase::Running, Event::Exited(status)) => self.end(classify_exit(status)),
            (Phase::Running, Event::WaitFailed(detail)) => self.end(
                Err(SupervisorError::Io { detail }),
            ),
            (Phase::ShuttingDown, Event::Exited(_)) => self.end(Ok(Outcome::Success)),
            (Phase::ShuttingDown, Event::WaitFailed(detail)) => self.end(
                Err(SupervisorError::Io { detail }),
            ),
            (Phase::ShuttingDown, Event::TimedOut) => (self.enter(Phase::Killing), Action::Kill),
            (Phase::Killing, Event::Killed) => self.end(Ok(Outcome::ForcedTermination)),
            (Phase::Killing, Event::KillFailed(detail)) => self.end(
                Err(SupervisorError::Io { detail }),
            ),
            _ => (self, Action::Wait),
        }
    }
}

} // verus!
