use vstd::prelude::*;
use crate::digest::{absorbed, finish_hex, hasher_new, hasher_update, sha1_hex, sha1_hex_of, Sha1Hasher};
use crate::hex::{hex_of_nat, hex_of_u64};
use crate::manifest::{Download, DownloadView};
use crate::text::push_char;

verus! {

/// The name of the installed artifact within the working directory.
pub const SERVER_PATH: &'static str = "server.jar";

/// How an installation succeeded.
#[derive(Debug, PartialEq, Eq, Clone, Copy, Structural)]
pub enum Installed {
    /// The file in place already had the expected digest; nothing was fetched.
    AlreadyPresent,
    /// A download was verified and moved into place.
    Downloaded,
}

/// Why an installation failed.
#[derive(Debug, PartialEq, Eq)]
pub enum InstallError {
    /// The downloaded bytes do not hash to the expected digest.
    ChecksumMismatch { expected: String, actual: String },
    /// Reading, writing, renaming or the transfer itself failed.
    Io { detail: String },
}

/// The mathematical content of an [`InstallError`].
pub enum InstallErrorView {
    ChecksumMismatch { expected: Seq<char>, actual: Seq<char> },
    Io { detail: Seq<char> },
}

impl View for InstallError {
    type V = InstallErrorView;

    open spec fn view(&self) -> InstallErrorView {
        match self {
            InstallError::ChecksumMismatch { expected, actual } => {
                InstallErrorView::ChecksumMismatch { expected: expected@, actual: actual@ }
            },
            InstallError::Io { detail } => InstallErrorView::Io { detail: detail@ },
        }
    }
}

/// A failed installation: the error that ended it and, where removing the
/// temporary file failed as well, what that removal reported.
#[derive(Debug, PartialEq, Eq)]
pub struct Failure {
    pub error: InstallError,
    pub cleanup: Option<String>,
}

/// The mathematical content of a [`Failure`].
pub struct FailureView {
    pub error: InstallErrorView,
    pub cleanup: Option<Seq<char>>,
}

impl View for Failure {
    type V = FailureView;

    open spec fn view(&self) -> FailureView {
        FailureView {
            error: self.error@,
            cleanup: match self.cleanup {
                Some(detail) => Some(detail@),
                None => None,
            },
        }
    }
}

/// What the outside world reports back to the installer.
#[derive(Debug, PartialEq, Eq)]
pub enum Event {
    /// The file that was read exists and holds these bytes.
    Existing(Vec<u8>),
    /// The file that was read does not exist.
    Missing,
    /// The last action succeeded.
    Done,
    /// The transfer delivered these bytes.
    Chunk(Vec<u8>),
    /// The transfer delivered all its bytes.
    EndOfStream,
    /// The last action failed.
    Failed(String),
}

/// The mathematical content of an [`Event`].
pub enum EventView {
    Existing(Seq<u8>),
    Missing,
    Done,
    Chunk(Seq<u8>),
    EndOfStream,
    Failed(Seq<char>),
}

impl View for Event {
    type V = EventView;

    open spec fn view(&self) -> EventView {
        match self {
            Event::Existing(data) => EventView::Existing(data@),
            Event::Missing => EventView::Missing,
            Event::Done => EventView::Done,
            Event::Chunk(data) => EventView::Chunk(data@),
            Event::EndOfStream => EventView::EndOfStream,
            Event::Failed(detail) => EventView::Failed(detail@),
        }
    }
}

/// What the installer asks the outside world to do next. File names are
/// relative to the working directory.
#[derive(Debug, PartialEq, Eq)]
pub enum Action {
    /// Read the whole file; answer `Existing`, `Missing` or `Failed`.
    ReadFile { name: String },
    /// Create the file empty, truncating one that exists; answer `Done` or `Failed`.
    CreateFile { name: String },
    /// Start the transfer from this address; answer `Done` or `Failed`.
    OpenStream { url: String },
    /// Await the next part of the transfer; answer `Chunk`, `EndOfStream` or `Failed`.
    NextChunk,
    /// Append the bytes to the file; answer `Done` or `Failed`.
    Append { name: String, bytes: Vec<u8> },
    /// Remove the file; answer `Done` or `Failed`.
    Remove { name: String },
    /// Move the file over the other in one step; answer `Done` or `Failed`.
    Rename { from: String, to: String },
    /// The installation has ended with this result.
    Finish(Result<Installed, Failure>),
    /// The event does not answer the action that is under way; nothing changed.
    Rejected,
}

/// The mathematical content of an [`Action`].
pub enum ActionView {
    ReadFile { name: Seq<char> },
    CreateFile { name: Seq<char> },
    OpenStream { url: Seq<char> },
    NextChunk,
    Append { name: Seq<char>, bytes: Seq<u8> },
    Remove { name: Seq<char> },
    Rename { from: Seq<char>, to: Seq<char> },
    Finish(Result<Installed, FailureView>),
    Rejected,
}

impl View for Action {
    type V = ActionView;

    open spec fn view(&self) -> ActionView {
        match self {
            Action::ReadFile { name } => ActionView::ReadFile { name: name@ },
            Action::CreateFile { name } => ActionView::CreateFile { name: name@ },
            Action::OpenStream { url } => ActionView::OpenStream { url: url@ },
            Action::NextChunk => ActionView::NextChunk,
            Action::Append { name, bytes } => ActionView::Append { name: name@, bytes: bytes@ },
            Action::Remove { name } => ActionView::Remove { name: name@ },
            Action::Rename { from, to } => ActionView::Rename { from: from@, to: to@ },
            Action::Finish(Ok(how)) => ActionView::Finish(Ok(*how)),
            Action::Finish(Err(failure)) => ActionView::Finish(Err(failure@)),
            Action::Rejected => ActionView::Rejected,
        }
    }
}

/// Where an installation stands.
enum Phase {
    Checking,
    Creating,
    Opening,
    Streaming { hasher: Sha1Hasher },
    Writing { hasher: Sha1Hasher },
    Committing,
    Cleaning { error: InstallError },
    Finished,
}

/// The mathematical content of an installation's phase. Each phase but the
/// last awaits the answer to one action.
pub enum PhaseView {
    /// Awaiting the content of the file in place.
    Checking,
    /// Awaiting the creation of the temporary file.
    Creating,
    /// Awaiting the start of the transfer.
    Opening,
    /// Awaiting the next part of the transfer, having hashed these bytes.
    Streaming { hashed: Seq<u8> },
    /// Awaiting the write of the last part, having hashed these bytes.
    Writing { hashed: Seq<u8> },
    /// Awaiting the move of the verified temporary file into place.
    Committing,
    /// Awaiting the removal of the temporary file, to then report this error.
    Cleaning { error: InstallErrorView },
    /// Ended.
    Finished,
}

/// An installation under way: fetch an artifact, verify its digest, and move
/// it into place in one step.
pub struct Installer {
    phase: Phase,
    expected: String,
    url: String,
    target: String,
    temp: String,
}

/// The mathematical content of an [`Installer`].
pub struct InstallerView {
    pub phase: PhaseView,
    /// The digest that the artifact must have, as lowercase hexadecimal text.
    pub expected: Seq<char>,
    /// Where the artifact is fetched from.
    pub url: Seq<char>,
    /// The name of the installed file.
    pub target: Seq<char>,
    /// The name of the file that the download is written to.
    pub temp: Seq<char>,
}

impl View for Installer {
    type V = InstallerView;

    closed spec fn view(&self) -> InstallerView {
        InstallerView {
            phase: match self.phase {
                Phase::Checking => PhaseView::Checking,
                Phase::Creating => PhaseView::Creating,
                Phase::Opening => PhaseView::Opening,
                Phase::Streaming { hasher } => PhaseView::Streaming { hashed: absorbed(hasher) },
                Phase::Writing { hasher } => PhaseView::Writing { hashed: absorbed(hasher) },
                Phase::Committing => PhaseView::Committing,
                Phase::Cleaning { error } => PhaseView::Cleaning { error: error@ },
                Phase::Finished => PhaseView::Finished,
            },
            expected: self.expected@,
            url: self.url@,
            target: self.target@,
            temp: self.temp@,
        }
    }
}

/// The name of the temporary file for `target`: the prefix in lowercase
/// hexadecimal, a hyphen, and the target's name.
pub open spec fn temp_name(prefix: u64, target: Seq<char>) -> Seq<char> {
    hex_of_nat(prefix as nat).push('-') + target
}

/// The name of the temporary file for `target` under the given prefix.
pub fn temp_file_name(prefix: u64, target: &str) -> (name: String)
    ensures
        name@ == temp_name(prefix, target@),
{
    let mut name = hex_of_u64(prefix);
    push_char(&mut name, '-');
    name.append(target);
    name
}

/// The state in which an installation starts.
pub open spec fn initial(download: DownloadView, target: Seq<char>, prefix: u64) -> InstallerView {
    InstallerView {
        phase: PhaseView::Checking,
        expected: download.sha1,
        url: download.url,
        target,
        temp: temp_name(prefix, target),
    }
}

impl InstallerView {
    /// This state in another phase.
    pub open spec fn at(self, phase: PhaseView) -> InstallerView {
        InstallerView { phase, ..self }
    }

    /// The state that cleans up before it reports `error`.
    pub open spec fn cleaning(self, error: InstallErrorView) -> (InstallerView, ActionView) {
        (self.at(PhaseView::Cleaning { error }), ActionView::Remove { name: self.temp })
    }

    /// The end of the installation with `result`.
    pub open spec fn finished(self, result: Result<Installed, FailureView>) -> (
        InstallerView,
        ActionView,
    ) {
        (self.at(PhaseView::Finished), ActionView::Finish(result))
    }

    /// The end of the installation with `error` and no cleanup to report.
    pub open spec fn failed(self, error: InstallErrorView) -> (InstallerView, ActionView) {
        self.finished(Err(FailureView { error, cleanup: None }))
    }

    /// The state and the action that follow `event`.
    ///
    /// A file in place with the expected digest ends the installation at once.
    /// Otherwise the download goes to the temporary file, part by part, each
    /// part hashed as it is written. At the end of the transfer the digest
    /// decides: the temporary file is moved into place, or removed and the
    /// mismatch reported. A failure after the temporary file was created has
    /// it removed before the failure is reported.
    pub open spec fn next(self, event: EventView) -> (InstallerView, ActionView) {
        match (self.phase, event) {
            (PhaseView::Checking, EventView::Existing(data)) => if sha1_hex_of(data)
                == self.expected {
                self.finished(Ok(Installed::AlreadyPresent))
            } else {
                (self.at(PhaseView::Creating), ActionView::CreateFile { name: self.temp })
            },
            (PhaseView::Checking, EventView::Missing) => (
                self.at(PhaseView::Creating),
                ActionView::CreateFile { name: self.temp },
            ),
            (PhaseView::Checking, EventView::Failed(detail)) => self.failed(
                InstallErrorView::Io { detail },
            ),
            (PhaseView::Creating, EventView::Done) => (
                self.at(PhaseView::Opening),
                ActionView::OpenStream { url: self.url },
            ),
            (PhaseView::Creating, EventView::Failed(detail)) => self.failed(
                InstallErrorView::Io { detail },
            ),
            (PhaseView::Opening, EventView::Done) => (
                self.at(PhaseView::Streaming { hashed: Seq::empty() }),
                ActionView::NextChunk,
            ),
            (PhaseView::Streaming { hashed }, EventView::Chunk(bytes)) => (
                self.at(PhaseView::Writing { hashed: hashed + bytes }),
                ActionView::Append { name: self.temp, bytes },
            ),
            (PhaseView::Streaming { hashed }, EventView::EndOfStream) => if sha1_hex_of(hashed)
                == self.expected {
                (
                    self.at(PhaseView::Committing),
                    ActionView::Rename { from: self.temp, to: self.target },
                )
            } else {
                self.cleaning(
                    InstallErrorView::ChecksumMismatch {
                        expected: self.expected,
                        actual: sha1_hex_of(hashed),
                    },
                )
            },
            (PhaseView::Writing { hashed }, EventView::Done) => (
                self.at(PhaseView::Streaming { hashed }),
                ActionView::NextChunk,
            ),
            (PhaseView::Committing, EventView::Done) => self.finished(Ok(Installed::Downloaded)),
            (PhaseView::Opening, EventView::Failed(detail)) => self.cleaning(
                InstallErrorView::Io { detail },
            ),
            (PhaseView::Streaming { hashed }, EventView::Failed(detail)) => self.cleaning(
                InstallErrorView::Io { detail },
            ),
            (PhaseView::Writing { hashed }, EventView::Failed(detail)) => self.cleaning(
                InstallErrorView::Io { detail },
            ),
            (PhaseView::Committing, EventView::Failed(detail)) => self.cleaning(
                InstallErrorView::Io { detail },
            ),
            (PhaseView::Cleaning { error }, EventView::Done) => self.failed(error),
            (PhaseView::Cleaning { error }, EventView::Failed(detail)) => self.finished(
                Err(FailureView { error, cleanup: Some(detail) }),
            ),
            _ => (self, ActionView::Rejected),
        }
    }
}

/// A number to name a temporary file after.
///
/// This is `rand::random` of the `rand` crate, for a `u64`. Nothing is
/// promised of the number: any may come, and two calls may give the same.
#[verifier::external_body]
fn random_prefix() -> (prefix: u64) {
    rand::random()
}

impl Installer {
    /// Starts an installation of `download` as the file `target`, with a
    /// temporary file named after a random number. The first action reads the
    /// file in place.
    pub fn begin(download: &Download, target: &str) -> (start: (Installer, Action))
        ensures
            exists|prefix: u64| start.0@ == initial(download@, target@, prefix),
            start.1@ == (ActionView::ReadFile { name: target@ }),
    {
        let prefix = random_prefix();
        Installer::new(download, target, prefix)
    }

    /// Starts an installation of `download` as the file `target`, with the
    /// temporary file named after `prefix`. The first action reads the file
    /// in place.
    pub fn new(download: &Download, target: &str, prefix: u64) -> (start: (Installer, Action))
        ensures
            start.0@ == initial(download@, target@, prefix),
            start.1@ == (ActionView::ReadFile { name: target@ }),
    {
        let installer = Installer {
            phase: Phase::Checking,
            expected: download.sha1.clone(),
            url: download.url.clone(),
            target: target.to_owned(),
            temp: temp_file_name(prefix, target),
        };
        (installer, Action::ReadFile { name: target.to_owned() })
    }

    /// The name of the installed file.
    pub fn target(&self) -> (name: &str)
        ensures
            name@ == self@.target,
    {
        self.target.as_str()
    }

    /// The name of the temporary file.
    pub fn temp(&self) -> (name: &str)
        ensures
            name@ == self@.temp,
    {
        self.temp.as_str()
    }

    /// Whether the installation has ended.
    pub fn is_finished(&self) -> (ended: bool)
        ensures
            ended == (self@.phase is Finished),
    {
        match &self.phase {
            Phase::Finished => true,
            _ => false,
        }
    }

    fn clean_up(self, detail: String) -> (r: (Installer, Action))
        ensures
            (r.0@, r.1@) == self@.cleaning(InstallErrorView::Io { detail: detail@ }),
    {
        let Installer { phase, expected, url, target, temp } = self;
        let name = temp.clone();
        (
            Installer {
                phase: Phase::Cleaning { error: InstallError::Io { detail } },
                expected,
                url,
                target,
                temp,
            },
            Action::Remove { name },
        )
    }

    fn finish(self, result: Result<Installed, Failure>) -> (r: (Installer, Action))
        ensures
            (r.0@, r.1@) == self@.finished(
                match result {
                    Ok(how) => Ok(how),
                    Err(failure) => Err(failure@),
                },
            ),
    {
        let Installer { phase, expected, url, target, temp } = self;
        (Installer { phase: Phase::Finished, expected, url, target, temp }, Action::Finish(result))
    }

    /// Takes the answer to the action under way and gives the next action.
    pub fn step(self, event: Event) -> (r: (Installer, Action))
        ensures
            (r.0@, r.1@) == self@.next(event@),
    {
        let Installer { phase, expected, url, target, temp } = self;
        match (phase, event) {
            (Phase::Checking, Event::Existing(data)) => {
                let actual = sha1_hex(data.as_slice());
                let this = Installer { phase: Phase::Checking, expected, url, target, temp };
                if actual.eq(&this.expected) {
                    this.finish(Ok(Installed::AlreadyPresent))
                } else {
                    let name = this.temp.clone();
                    let Installer { phase, expected, url, target, temp } = this;
                    (
                        Installer { phase: Phase::Creating, expected, url, target, temp },
                        Action::CreateFile { name },
                    )
                }
            },
            (Phase::Checking, Event::Missing) => {
                let name = temp.clone();
                (
                    Installer { phase: Phase::Creating, expected, url, target, temp },
                    Action::CreateFile { name },
                )
            },
            (Phase::Checking, Event::Failed(detail)) => {
                let this = Installer { phase: Phase::Checking, expected, url, target, temp };
                this.finish(Err(Failure { error: InstallError::Io { detail }, cleanup: None }))
            },
            (Phase::Creating, Event::Done) => {
                let from = url.clone();
                (
                    Installer { phase: Phase::Opening, expected, url, target, temp },
                    Action::OpenStream { url: from },
                )
            },
            (Phase::Creating, Event::Failed(detail)) => {
                let this = Installer { phase: Phase::Creating, expected, url, target, temp };
                this.finish(Err(Failure { error: InstallError::Io { detail }, cleanup: None }))
            },
            (Phase::Opening, Event::Done) => {
                let hasher = hasher_new();
                (
                    Installer { phase: Phase::Streaming { hasher }, expected, url, target, temp },
                    Action::NextChunk,
                )
            },
            (Phase::Streaming { hasher }, Event::Chunk(bytes)) => {
                let mut hasher = hasher;
                hasher_update(&mut hasher, bytes.as_slice());
                let name = temp.clone();
                (
                    Installer { phase: Phase::Writing { hasher }, expected, url, target, temp },
                    Action::Append { name, bytes },
                )
            },
            (Phase::Streaming { hasher }, Event::EndOfStream) => {
                let actual = finish_hex(hasher);
                if actual.eq(&expected) {
                    let from = temp.clone();
                    let to = target.clone();
                    (
                        Installer { phase: Phase::Committing, expected, url, target, temp },
                        Action::Rename { from, to },
                    )
                } else {
                    let name = temp.clone();
                    let error = InstallError::ChecksumMismatch {
                        expected: expected.clone(),
                        actual,
                    };
                    (
                        Installer { phase: Phase::Cleaning { error }, expected, url, target, temp },
                        Action::Remove { name },
                    )
                }
            },
            (Phase::Writing { hasher }, Event::Done) => {
                (
                    Installer { phase: Phase::Streaming { hasher }, expected, url, target, temp },
                    Action::NextChunk,
                )
            },
            (Phase::Committing, Event::Done) => {
                let this = Installer { phase: Phase::Committing, expected, url, target, temp };
                this.finish(Ok(Installed::Downloaded))
            },
            (Phase::Opening, Event::Failed(detail)) => {
                let this = Installer { phase: Phase::Opening, expected, url, target, temp };
                this.clean_up(detail)
            },
            (Phase::Streaming { hasher }, Event::Failed(detail)) => {
                let this = Installer { phase: Phase::Streaming { hasher }, expected, url, target, temp };
                this.clean_up(detail)
            },
            (Phase::Writing { hasher }, Event::Failed(detail)) => {
                let this = Installer { phase: Phase::Writing { hasher }, expected, url, target, temp };
                this.clean_up(detail)
            },
            (Phase::Committing, Event::Failed(detail)) => {
                let this = Installer { phase: Phase::Committing, expected, url, target, temp };
                this.clean_up(detail)
            },
            (Phase::Cleaning { error }, Event::Done) => {
                let this = Installer { phase: Phase::Finished, expected, url, target, temp };
                (this, Action::Finish(Err(Failure { error, cleanup: None })))
            },
            (Phase::Cleaning { error }, Event::Failed(detail)) => {
                let this = Installer { phase: Phase::Finished, expected, url, target, temp };
                (this, Action::Finish(Err(Failure { error, cleanup: Some(detail) })))
            },
            (phase, _) => (Installer { phase, expected, url, target, temp }, Action::Rejected),
        }
    }
}

} // verus!
