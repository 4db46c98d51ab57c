//! The start-up of a server, as decisions taken between the caller's I/O steps.
//!
//! The caller begins with [`begin`], performs each [`Action`] it is handed, reports how it went
//! as an [`Event`], and passes that to [`step`] for the next action, until it is handed
//! [`Action::Finish`] or [`Action::Fail`].
use vstd::prelude::*;
use vstd::string::*;
use crate::{EmbeddedView, MongoEmbedded};
use crate::downloader::{get_download_url, get_os, os_named, release_url, MongoUrl, PlatformError};
use crate::process::{binary_name, server_args, server_arguments, server_binary, texts};
use crate::text::tail_after_slash;

verus! {

/// How long the server is given to accept connections, in milliseconds.
pub const READY_TIMEOUT_MS: u64 = 30000;

/// The pause between two readiness probes, in milliseconds.
pub const PROBE_INTERVAL_MS: u64 = 500;

/// The progress notices handed to the caller during start-up.
#[derive(Debug, Clone, Copy, PartialEq, Eq, Structural)]
pub enum InitStage {
    CheckingDB,
    ValidatingInstallation,
    Downloading,
    SettingUpUser,
    VerifyingCredentials,
    DBInitialized,
}

/// What a readiness probe (listing the databases) came back with.
#[derive(Debug, Clone, Copy, PartialEq, Eq, Structural)]
pub enum ProbeOutcome {
    /// The server answered.
    Reachable,
    /// The server refused the command with this error code.
    CommandError(i32),
    /// No answer: the connection failed or timed out.
    OtherError,
}

/// Why a start-up failed.
#[derive(Debug, Clone, PartialEq, Eq)]
pub enum StartError {
    /// No release fits the host.
    Platform(PlatformError),
    /// A file, network or process operation failed with this message.
    Io(String),
    /// The server did not accept connections in time; it has been stopped.
    Timeout,
    /// The configured credentials were refused with this message; the server has been stopped.
    AuthFailed(String),
    /// An event arrived that the current step does not expect.
    OutOfOrder,
}

/// How the caller's last operation went.
#[derive(Debug, Clone, PartialEq, Eq)]
pub enum Event {
    /// It completed (for a notice: it was delivered).
    Done,
    /// The path asked about exists, or not.
    Exists(bool),
    /// It failed with this message.
    Failed(String),
    /// This many milliseconds have passed since the clock was started.
    Elapsed(u64),
    /// A readiness probe came back.
    Probed(ProbeOutcome),
    /// The server refused the command, with this message.
    Rejected(String),
}

/// Where a start-up stands: which operation's outcome it waits for.
#[derive(Debug, Clone, PartialEq, Eq)]
pub enum StartState {
    AwaitChecking,
    AwaitValidating(MongoUrl),
    AwaitArchiveCheck(MongoUrl),
    AwaitDownloadDirCheck(MongoUrl),
    AwaitDownloadDirCreated(MongoUrl),
    AwaitDownloading(MongoUrl),
    AwaitDownload(MongoUrl),
    AwaitInstallCheck(MongoUrl),
    AwaitExtract,
    AwaitLaunch,
    AwaitOptions,
    AwaitClockStart,
    AwaitClock,
    AwaitProbe,
    AwaitSleep,
    AwaitTimeoutKill,
    AwaitSettingUp,
    AwaitCreateUser,
    AwaitVerifying,
    AwaitVerification,
    AwaitAuthKill(String),
    AwaitInitialized,
    Finished,
    Failed,
}

/// The operation the caller is to perform next.
#[derive(Debug, Clone, PartialEq, Eq)]
pub enum Action {
    /// Hand this notice to the progress callback.
    Notify(InitStage),
    /// Tell whether the file `name` exists in the download directory.
    CheckArchive { name: String },
    /// Tell whether the download directory exists.
    CheckDownloadDir,
    /// Create the download directory and its parents.
    CreateDownloadDir,
    /// Fetch `url` into the file `name` of the download directory, reporting progress.
    Download { url: String, name: String },
    /// Tell whether the directory named by the version exists in the extraction directory.
    CheckInstall,
    /// Unpack the file `archive` of the download directory into the directory named by the
    /// version in the extraction directory.
    Extract { archive: String },
    /// Find the file `binary` under the unpacked release, make it executable, create the
    /// database directory if missing, and start it with `args`.
    Launch { binary: String, args: Vec<String> },
    /// Parse `uri` into client options with two-second connect and selection timeouts.
    ParseOptions { uri: String },
    /// Start the readiness clock.
    StartClock,
    /// Tell how many milliseconds have passed since the clock was started.
    ReadClock,
    /// Build a client from the options and list the databases.
    Probe,
    /// Wait this many milliseconds.
    Sleep { millis: u64 },
    /// Stop the server and wait for it to exit.
    Kill,
    /// Create `username` with `password` and the `root` role on `admin`.
    CreateUser { username: String, password: String },
    /// Ping `admin` as `username` with `password`, authenticating against `admin`.
    VerifyCredentials { username: String, password: String },
    /// The server is up and reached at `connection_string`.
    Finish { connection_string: String },
    /// The start-up failed.
    Fail(StartError),
}

// ----- the same shapes, with characters in place of strings -----

pub struct UrlView {
    pub url: Seq<char>,
    pub filename: Seq<char>,
}

pub enum ErrorView {
    Platform(PlatformError),
    Io(Seq<char>),
    Timeout,
    AuthFailed(Seq<char>),
    OutOfOrder,
}

pub enum EventView {
    Done,
    Exists(bool),
    Failed(Seq<char>),
    Elapsed(u64),
    Probed(ProbeOutcome),
    Rejected(Seq<char>),
}

pub enum StateView {
    AwaitChecking,
    AwaitValidating(UrlView),
    AwaitArchiveCheck(UrlView),
    AwaitDownloadDirCheck(UrlView),
    AwaitDownloadDirCreated(UrlView),
    AwaitDownloading(UrlView),
    AwaitDownload(UrlView),
    AwaitInstallCheck(UrlView),
    AwaitExtract,
    AwaitLaunch,
    AwaitOptions,
    AwaitClockStart,
    AwaitClock,
    AwaitProbe,
    AwaitSleep,
    AwaitTimeoutKill,
    AwaitSettingUp,
    AwaitCreateUser,
    AwaitVerifying,
    AwaitVerification,
    AwaitAuthKill(Seq<char>),
    AwaitInitialized,
    Finished,
    Failed,
}

pub enum ActionView {
    Notify(InitStage),
    CheckArchive { name: Seq<char> },
    CheckDownloadDir,
    CreateDownloadDir,
    Download { url: Seq<char>, name: Seq<char> },
    CheckInstall,
    Extract { archive: Seq<char> },
    Launch { binary: Seq<char>, args: Seq<Seq<char>> },
    ParseOptions { uri: Seq<char> },
    StartClock,
    ReadClock,
    Probe,
    Sleep { millis: u64 },
    Kill,
    CreateUser { username: Seq<char>, password: Seq<char> },
    VerifyCredentials { username: Seq<char>, password: Seq<char> },
    Finish { connection_string: Seq<char> },
    Fail(ErrorView),
}

impl View for MongoUrl {
    type V = UrlView;

    open spec fn view(&self) -> UrlView {
        UrlView { url: self.url@, filename: self.filename@ }
    }
}

impl View for StartError {
    type V = ErrorView;

    open spec fn view(&self) -> ErrorView {
        match self {
            StartError::Platform(e) => ErrorView::Platform(*e),
            StartError::Io(m) => ErrorView::Io(m@),
            StartError::Timeout => ErrorView::Timeout,
            StartError::AuthFailed(m) => ErrorView::AuthFailed(m@),
            StartError::OutOfOrder => ErrorView::OutOfOrder,
        }
    }
}

impl View for Event {
    type V = EventView;

    open spec fn view(&self) -> EventView {
        match self {
            Event::Done => EventView::Done,
            Event::Exists(b) => EventView::Exists(*b),
            Event::Failed(m) => EventView::Failed(m@),
            Event::Elapsed(ms) => EventView::Elapsed(*ms),
            Event::Probed(o) => EventView::Probed(*o),
            Event::Rejected(m) => EventView::Rejected(m@),
        }
    }
}

impl View for StartState {
    type V = StateView;

    open spec fn view(&self) -> StateView {
        match self {
            StartState::AwaitChecking => StateView::AwaitChecking,
            StartState::AwaitValidating(u) => StateView::AwaitValidating(u@),
            StartState::AwaitArchiveCheck(u) => StateView::AwaitArchiveCheck(u@),
            StartState::AwaitDownloadDirCheck(u) => StateView::AwaitDownloadDirCheck(u@),
            StartState::AwaitDownloadDirCreated(u) => StateView::AwaitDownloadDirCreated(u@),
            StartState::AwaitDownloading(u) => StateView::AwaitDownloading(u@),
            StartState::AwaitDownload(u) => StateView::AwaitDownload(u@),
            StartState::AwaitInstallCheck(u) => StateView::AwaitInstallCheck(u@),
            StartState::AwaitExtract => StateView::AwaitExtract,
            StartState::AwaitLaunch => StateView::AwaitLaunch,
            StartState::AwaitOptions => StateView::AwaitOptions,
            StartState::AwaitClockStart => StateView::AwaitClockStart,
            StartState::AwaitClock => StateView::AwaitClock,
            StartState::AwaitProbe => StateView::AwaitProbe,
            StartState::AwaitSleep => StateView::AwaitSleep,
            StartState::AwaitTimeoutKill => StateView::AwaitTimeoutKill,
            StartState::AwaitSettingUp => StateView::AwaitSettingUp,
            StartState::AwaitCreateUser => StateView::AwaitCreateUser,
            StartState::AwaitVerifying => StateView::AwaitVerifying,
            StartState::AwaitVerification => StateView::AwaitVerification,
            StartState::AwaitAuthKill(m) => StateView::AwaitAuthKill(m@),
            StartState::AwaitInitialized => StateView::AwaitInitialized,
            StartState::Finished => StateView::Finished,
            StartState::Failed => StateView::Failed,
        }
    }
}

impl View for Action {
    type V = ActionView;

    open spec fn view(&self) -> ActionView {
        match self {
            Action::Notify(s) => ActionView::Notify(*s),
            Action::CheckArchive { name } => ActionView::CheckArchive { name: name@ },
            Action::CheckDownloadDir => ActionView::CheckDownloadDir,
            Action::CreateDownloadDir => ActionView::CreateDownloadDir,
            Action::Download { url, name } => ActionView::Download { url: url@, name: name@ },
            Action::CheckInstall => ActionView::CheckInstall,
            Action::Extract { archive } => ActionView::Extract { archive: archive@ },
            Action::Launch { binary, args } => ActionView::Launch {
                binary: binary@,
                args: texts(args@),
            },
            Action::ParseOptions { uri } => ActionView::ParseOptions { uri: uri@ },
            Action::StartClock => ActionView::StartClock,
            Action::ReadClock => ActionView::ReadClock,
            Action::Probe => ActionView::Probe,
            Action::Sleep { millis } => ActionView::Sleep { millis: *millis },
            Action::Kill => ActionView::Kill,
            Action::CreateUser { username, password } => ActionView::CreateUser {
                username: username@,
                password: password@,
            },
            Action::VerifyCredentials { username, password } => ActionView::VerifyCredentials {
                username: username@,
                password: password@,
            },
            Action::Finish { connection_string } => ActionView::Finish {
                connection_string: connection_string@,
            },
            Action::Fail(e) => ActionView::Fail(e@),
        }
    }
}

// ----- the decisions -----

/// A probe outcome shows the server up when it answered, or refused the command with code
/// 13 (unauthorized), 18 (authentication failed) or 51 (user already exists): it is
/// listening, and only wants credentials.
pub open spec fn counts_as_ready(o: ProbeOutcome) -> bool {
    match o {
        ProbeOutcome::Reachable => true,
        ProbeOutcome::CommandError(code) => code == 51 || code == 13 || code == 18,
        ProbeOutcome::OtherError => false,
    }
}

/// Whether a probe outcome shows the server up.
pub fn is_ready(o: ProbeOutcome) -> (r: bool)
    ensures
        r == counts_as_ready(o),
{
    match o {
        ProbeOutcome::Reachable => true,
        ProbeOutcome::CommandError(code) => code == 51 || code == 13 || code == 18,
        ProbeOutcome::OtherError => false,
    }
}

/// Stop with `e`.
pub open spec fn fail_with(e: ErrorView) -> (StateView, ActionView) {
    (StateView::Failed, ActionView::Fail(e))
}

/// Once the release is in place: start the server for the host's operating system.
pub open spec fn launch_step(cfg: EmbeddedView, os_name: Seq<char>) -> (StateView, ActionView) {
    match os_named(os_name) {
        None => fail_with(ErrorView::Platform(PlatformError::UnsupportedOs)),
        Some(os) => (
            StateView::AwaitLaunch,
            ActionView::Launch {
                binary: server_binary(os),
                args: server_args(cfg.port, cfg.db_path, cfg.bind_ip, cfg.auth_enabled()),
            },
        ),
    }
}

/// Once the server is up: set up the user when credentials are set, else report success.
pub open spec fn connected_step(cfg: EmbeddedView) -> (StateView, ActionView) {
    if cfg.auth_enabled() {
        (StateView::AwaitSettingUp, ActionView::Notify(InitStage::SettingUpUser))
    } else {
        (StateView::AwaitInitialized, ActionView::Notify(InitStage::DBInitialized))
    }
}

/// Ask for an operation on the configured credentials, or stop when there are none.
pub open spec fn with_credentials_step(cfg: EmbeddedView, s: StateView, create: bool) -> (
    StateView,
    ActionView,
) {
    match (cfg.username, cfg.password) {
        (Some(u), Some(p)) => if create {
            (s, ActionView::CreateUser { username: u, password: p })
        } else {
            (s, ActionView::VerifyCredentials { username: u, password: p })
        },
        _ => fail_with(ErrorView::OutOfOrder),
    }
}

/// The first step: announce that the database is being checked.
pub open spec fn first_step() -> (StateView, ActionView) {
    (StateView::AwaitChecking, ActionView::Notify(InitStage::CheckingDB))
}

/// The step a start-up of `cfg`, on the host named `os_name`/`arch_name`, takes from `s`
/// when the last operation ended with `e`.
pub open spec fn next_step(
    cfg: EmbeddedView,
    os_name: Seq<char>,
    arch_name: Seq<char>,
    s: StateView,
    e: EventView,
) -> (StateView, ActionView) {
    match (s, e) {
        (StateView::AwaitChecking, EventView::Done) => match release_url(
            cfg.version,
            os_name,
            arch_name,
        ) {
            Err(pe) => fail_with(ErrorView::Platform(pe)),
            Ok(url) => (
                StateView::AwaitValidating(UrlView { url, filename: tail_after_slash(url) }),
                ActionView::Notify(InitStage::ValidatingInstallation),
            ),
        },
        (StateView::AwaitValidating(u), EventView::Done) => (
            StateView::AwaitArchiveCheck(u),
            ActionView::CheckArchive { name: u.filename },
        ),
        (StateView::AwaitArchiveCheck(u), EventView::Exists(present)) => if present {
            (StateView::AwaitInstallCheck(u), ActionView::CheckInstall)
        } else {
            (StateView::AwaitDownloadDirCheck(u), ActionView::CheckDownloadDir)
        },
        (StateView::AwaitDownloadDirCheck(u), EventView::Exists(present)) => if present {
            (StateView::AwaitDownloading(u), ActionView::Notify(InitStage::Downloading))
        } else {
            (StateView::AwaitDownloadDirCreated(u), ActionView::CreateDownloadDir)
        },
        (StateView::AwaitDownloadDirCreated(u), EventView::Done) => (
            StateView::AwaitDownloading(u),
            ActionView::Notify(InitStage::Downloading),
        ),
        (StateView::AwaitDownloading(u), EventView::Done) => (
            StateView::AwaitDownload(u),
            ActionView::Download { url: u.url, name: u.filename },
        ),
        (StateView::AwaitDownload(u), EventView::Done) => (
            StateView::AwaitInstallCheck(u),
            ActionView::CheckInstall,
        ),
        (StateView::AwaitInstallCheck(u), EventView::Exists(present)) => if present {
            launch_step(cfg, os_name)
        } else {
            (StateView::AwaitExtract, ActionView::Extract { archive: u.filename })
        },
        (StateView::AwaitExtract, EventView::Done) => launch_step(cfg, os_name),
        (StateView::AwaitLaunch, EventView::Done) => (
            StateView::AwaitOptions,
            ActionView::ParseOptions { uri: cfg.readiness_uri() },
        ),
        (StateView::AwaitOptions, EventView::Done) => (
            StateView::AwaitClockStart,
            ActionView::StartClock,
        ),
        (StateView::AwaitClockStart, EventView::Done) => (
            StateView::AwaitClock,
            ActionView::ReadClock,
        ),
        (StateView::AwaitClock, EventView::Elapsed(ms)) => if ms < READY_TIMEOUT_MS {
            (StateView::AwaitProbe, ActionView::Probe)
        } else {
            (StateView::AwaitTimeoutKill, ActionView::Kill)
        },
        (StateView::AwaitProbe, EventView::Probed(o)) => if counts_as_ready(o) {
            connected_step(cfg)
        } else {
            (StateView::AwaitSleep, ActionView::Sleep { millis: PROBE_INTERVAL_MS })
        },
        (StateView::AwaitSleep, EventView::Done) => (StateView::AwaitClock, ActionView::ReadClock),
        (StateView::AwaitTimeoutKill, EventView::Done) => fail_with(ErrorView::Timeout),
        (StateView::AwaitSettingUp, EventView::Done) => with_credentials_step(
            cfg,
            StateView::AwaitCreateUser,
            true,
        ),
        (StateView::AwaitCreateUser, EventView::Done) => (
            StateView::AwaitInitialized,
            ActionView::Notify(InitStage::DBInitialized),
        ),
        (StateView::AwaitCreateUser, EventView::Rejected(_)) => (
            StateView::AwaitVerifying,
            ActionView::Notify(InitStage::VerifyingCredentials),
        ),
        (StateView::AwaitVerifying, EventView::Done) => with_credentials_step(
            cfg,
            StateView::AwaitVerification,
            false,
        ),
        (StateView::AwaitVerification, EventView::Done) => (
            StateView::AwaitInitialized,
            ActionView::Notify(InitStage::DBInitialized),
        ),
        (StateView::AwaitVerification, EventView::Rejected(m)) => (
            StateView::AwaitAuthKill(m),
            ActionView::Kill,
        ),
        (StateView::AwaitAuthKill(m), EventView::Done) => fail_with(ErrorView::AuthFailed(m)),
        (StateView::AwaitInitialized, EventView::Done) => (
            StateView::Finished,
            ActionView::Finish { connection_string: cfg.connection_string() },
        ),
        (StateView::AwaitDownloadDirCreated(_), EventView::Failed(m)) => fail_with(
            ErrorView::Io(m),
        ),
        (StateView::AwaitDownload(_), EventView::Failed(m)) => fail_with(ErrorView::Io(m)),
        (StateView::AwaitExtract, EventView::Failed(m)) => fail_with(ErrorView::Io(m)),
        (StateView::AwaitLaunch, EventView::Failed(m)) => fail_with(ErrorView::Io(m)),
        (StateView::AwaitOptions, EventView::Failed(m)) => fail_with(ErrorView::Io(m)),
        (StateView::AwaitProbe, EventView::Failed(m)) => fail_with(ErrorView::Io(m)),
        (StateView::AwaitTimeoutKill, EventView::Failed(m)) => fail_with(ErrorView::Io(m)),
        (StateView::AwaitCreateUser, EventView::Failed(m)) => fail_with(ErrorView::Io(m)),
        (StateView::AwaitVerification, EventView::Failed(m)) => fail_with(ErrorView::Io(m)),
        (StateView::AwaitAuthKill(_), EventView::Failed(m)) => fail_with(ErrorView::Io(m)),
        _ => fail_with(ErrorView::OutOfOrder),
    }
}


// ----- the executable steps -----

/// Stops with `e`.
fn fail(e: StartError) -> (r: (StartState, Action))
    ensures
        (r.0@, r.1@) == fail_with(e@),
{
    (StartState::Failed, Action::Fail(e))
}

/// Stops because `event` does not fit the current step.
fn out_of_order() -> (r: (StartState, Action))
    ensures
        (r.0@, r.1@) == fail_with(ErrorView::OutOfOrder),
{
    fail(StartError::OutOfOrder)
}

/// Stops on an operation's failure message, or on an event that does not fit.
fn fail_on(event: Event) -> (r: (StartState, Action))
    ensures
        (r.0@, r.1@) == match event@ {
            EventView::Failed(m) => fail_with(ErrorView::Io(m)),
            _ => fail_with(ErrorView::OutOfOrder),
        },
{
    match event {
        Event::Failed(m) => fail(StartError::Io(m)),
        _ => out_of_order(),
    }
}

/// Starts the server for the host's operating system.
fn launch(cfg: &MongoEmbedded, os_name: &str) -> (r: (StartState, Action))
    ensures
        (r.0@, r.1@) == launch_step(cfg@, os_name@),
{
    match get_os(os_name) {
        Err(e) => fail(StartError::Platform(e)),
        Ok(os) => {
            let binary = String::from_str(binary_name(os));
            let args = server_arguments(
                cfg.port,
                cfg.db_path.as_str(),
                cfg.bind_ip.as_str(),
                cfg.auth_enabled(),
            );
            (StartState::AwaitLaunch, Action::Launch { binary, args })
        },
    }
}

/// Moves on once the server accepts connections.
fn connected(cfg: &MongoEmbedded) -> (r: (StartState, Action))
    ensures
        (r.0@, r.1@) == connected_step(cfg@),
{
    if cfg.auth_enabled() {
        (StartState::AwaitSettingUp, Action::Notify(InitStage::SettingUpUser))
    } else {
        (StartState::AwaitInitialized, Action::Notify(InitStage::DBInitialized))
    }
}

/// Asks to create (when `create`) or to check the configured user.
fn credentials(cfg: &MongoEmbedded, create: bool) -> (r: (StartState, Action))
    ensures
        (r.0@, r.1@) == with_credentials_step(
            cfg@,
            if create {
                StateView::AwaitCreateUser
            } else {
                StateView::AwaitVerification
            },
            create,
        ),
{
    match (&cfg.username, &cfg.password) {
        (Some(u), Some(p)) => {
            let username = u.clone();
            let password = p.clone();
            if create {
                (StartState::AwaitCreateUser, Action::CreateUser { username, password })
            } else {
                (StartState::AwaitVerification, Action::VerifyCredentials { username, password })
            }
        },
        _ => out_of_order(),
    }
}

/// The first step of a start-up.
pub fn begin() -> (r: (StartState, Action))
    ensures
        (r.0@, r.1@) == first_step(),
{
    (StartState::AwaitChecking, Action::Notify(InitStage::CheckingDB))
}

/// The next step of a start-up of `cfg` on the host whose operating system and architecture
/// are named `os_name` and `arch_name` (as `std::env::consts` spells them), from `state`,
/// once the last operation ended with `event`.
#[verifier::rlimit(50)]
pub fn step(cfg: &MongoEmbedded, os_name: &str, arch_name: &str, state: StartState, event: Event) -> (r: (
    StartState,
    Action,
))
    ensures
        (r.0@, r.1@) == next_step(cfg@, os_name@, arch_name@, state@, event@),
{
    match state {
        StartState::AwaitChecking => match event {
            Event::Done => match get_download_url(cfg.version.as_str(), os_name, arch_name) {
                Err(e) => fail(StartError::Platform(e)),
                Ok(u) => (
                    StartState::AwaitValidating(u),
                    Action::Notify(InitStage::ValidatingInstallation),
                ),
            },
            _ => out_of_order(),
        },
        StartState::AwaitValidating(u) => match event {
            Event::Done => {
                let name = u.filename.clone();
                (StartState::AwaitArchiveCheck(u), Action::CheckArchive { name })
            },
            _ => out_of_order(),
        },
        StartState::AwaitArchiveCheck(u) => match event {
            Event::Exists(present) => if present {
                (StartState::AwaitInstallCheck(u), Action::CheckInstall)
            } else {
                (StartState::AwaitDownloadDirCheck(u), Action::CheckDownloadDir)
            },
            _ => out_of_order(),
        },
        StartState::AwaitDownloadDirCheck(u) => match event {
            Event::Exists(present) => if present {
                (StartState::AwaitDownloading(u), Action::Notify(InitStage::Downloading))
            } else {
                (StartState::AwaitDownloadDirCreated(u), Action::CreateDownloadDir)
            },
            _ => out_of_order(),
        },
        StartState::AwaitDownloadDirCreated(u) => match event {
            Event::Done => (
                StartState::AwaitDownloading(u),
                Action::Notify(InitStage::Downloading),
            ),
            other => fail_on(other),
        },
        StartState::AwaitDownloading(u) => match event {
            Event::Done => {
                let url = u.url.clone();
                let name = u.filename.clone();
                (StartState::AwaitDownload(u), Action::Download { url, name })
            },
            _ => out_of_order(),
        },
        StartState::AwaitDownload(u) => match event {
            Event::Done => (StartState::AwaitInstallCheck(u), Action::CheckInstall),
            other => fail_on(other),
        },
        StartState::AwaitInstallCheck(u) => match event {
            Event::Exists(present) => if present {
                launch(cfg, os_name)
            } else {
                (StartState::AwaitExtract, Action::Extract { archive: u.filename })
            },
            _ => out_of_order(),
        },
        StartState::AwaitExtract => match event {
            Event::Done => launch(cfg, os_name),
            other => fail_on(other),
        },
        StartState::AwaitLaunch => match event {
            Event::Done => (
                StartState::AwaitOptions,
                Action::ParseOptions { uri: cfg.readiness_uri() },
            ),
            other => fail_on(other),
        },
        StartState::AwaitOptions => match event {
            Event::Done => (StartState::AwaitClockStart, Action::StartClock),
            other => fail_on(other),
        },
        StartState::AwaitClockStart => match event {
            Event::Done => (StartState::AwaitClock, Action::ReadClock),
            _ => out_of_order(),
        },
        StartState::AwaitClock => match event {
            Event::Elapsed(ms) => if ms < READY_TIMEOUT_MS {
                (StartState::AwaitProbe, Action::Probe)
            } else {
                (StartState::AwaitTimeoutKill, Action::Kill)
            },
            _ => out_of_order(),
        },
        StartState::AwaitProbe => match event {
            Event::Probed(o) => if is_ready(o) {
                connected(cfg)
            } else {
                (StartState::AwaitSleep, Action::Sleep { millis: PROBE_INTERVAL_MS })
            },
            other => fail_on(other),
        },
        StartState::AwaitSleep => match event {
            Event::Done => (StartState::AwaitClock, Action::ReadClock),
            _ => out_of_order(),
        },
        StartState::AwaitTimeoutKill => match event {
            Event::Done => fail(StartError::Timeout),
            other => fail_on(other),
        },
        StartState::AwaitSettingUp => match event {
            Event::Done => credentials(cfg, true),
            _ => out_of_order(),
        },
        StartState::AwaitCreateUser => match event {
            Event::Done => (
                StartState::AwaitInitialized,
                Action::Notify(InitStage::DBInitialized),
            ),
            Event::Rejected(_) => (
                StartState::AwaitVerifying,
                Action::Notify(InitStage::VerifyingCredentials),
            ),
            other => fail_on(other),
        },
        StartState::AwaitVerifying => match event {
            Event::Done => credentials(cfg, false),
            _ => out_of_order(),
        },
        StartState::AwaitVerification => match event {
            Event::Done => (
                StartState::AwaitInitialized,
                Action::Notify(InitStage::DBInitialized),
            ),
            Event::Rejected(m) => (StartState::AwaitAuthKill(m), Action::Kill),
            other => fail_on(other),
        },
        StartState::AwaitAuthKill(m) => match event {
            Event::Done => fail(StartError::AuthFailed(m)),
            other => fail_on(other),
        },
        StartState::AwaitInitialized => match event {
            Event::Done => (
                StartState::Finished,
                Action::Finish { connection_string: cfg.connection_string() },
            ),
            _ => out_of_order(),
        },
        StartState::Finished => out_of_order(),
        StartState::Failed => out_of_order(),
    }
}


// ----- laws of the start-up -----

/// Every state that carries a release location carries the one that fits `cfg` on the host,
/// with its file name.
pub open spec fn carries_release(
    cfg: EmbeddedView,
    os_name: Seq<char>,
    arch_name: Seq<char>,
    s: StateView,
) -> bool {
    let fits = |u: UrlView|
        release_url(cfg.version, os_name, arch_name) == Ok::<Seq<char>, PlatformError>(u.url)
            && u.filename == tail_after_slash(u.url);
    match s {
        StateView::AwaitValidating(u) => fits(u),
        StateView::AwaitArchiveCheck(u) => fits(u),
        StateView::AwaitDownloadDirCheck(u) => fits(u),
        StateView::AwaitDownloadDirCreated(u) => fits(u),
        StateView::AwaitDownloading(u) => fits(u),
        StateView::AwaitDownload(u) => fits(u),
        StateView::AwaitInstallCheck(u) => fits(u),
        _ => true,
    }
}

/// Every step keeps the release location that the start-up carries the right one, starting
/// from the first; so what is downloaded, and the name it is stored under, are the release
/// URL of the configured version for the host and that URL's last segment.
pub proof fn law_download_fetches_release(
    cfg: EmbeddedView,
    os_name: Seq<char>,
    arch_name: Seq<char>,
    s: StateView,
    e: EventView,
)
    requires
        carries_release(cfg, os_name, arch_name, s),
    ensures
        carries_release(cfg, os_name, arch_name, first_step().0),
        carries_release(cfg, os_name, arch_name, next_step(cfg, os_name, arch_name, s, e).0),
        next_step(cfg, os_name, arch_name, s, e).1 matches ActionView::Download { url, name } ==> {
            &&& release_url(cfg.version, os_name, arch_name) == Ok::<Seq<char>, PlatformError>(url)
            &&& crate::text::is_last_segment(url, name)
        },
{
    match release_url(cfg.version, os_name, arch_name) {
        Ok(url) => crate::text::lemma_tail_is_last_segment(url),
        Err(_) => {},
    }
}

/// A timeout is reported only once the server has been stopped: the start-up reports it only
/// after a completed `Kill`, and it waits on that `Kill` only after asking for it.
pub proof fn law_timeout_only_after_kill(
    cfg: EmbeddedView,
    os_name: Seq<char>,
    arch_name: Seq<char>,
    s: StateView,
    e: EventView,
)
    ensures
        next_step(cfg, os_name, arch_name, s, e).1 == ActionView::Fail(ErrorView::Timeout) ==> s
            == StateView::AwaitTimeoutKill && e == EventView::Done,
        next_step(cfg, os_name, arch_name, s, e).0 == StateView::AwaitTimeoutKill
            ==> next_step(cfg, os_name, arch_name, s, e).1 == ActionView::Kill,
{
}

/// Refused credentials are reported only once the server has been stopped, with the message
/// of the refusal.
pub proof fn law_auth_failure_only_after_kill(
    cfg: EmbeddedView,
    os_name: Seq<char>,
    arch_name: Seq<char>,
    s: StateView,
    e: EventView,
    m: Seq<char>,
)
    ensures
        next_step(cfg, os_name, arch_name, s, e).1 == ActionView::Fail(ErrorView::AuthFailed(m))
            ==> s == StateView::AwaitAuthKill(m) && e == EventView::Done,
        next_step(cfg, os_name, arch_name, s, e).0 == StateView::AwaitAuthKill(m) ==> {
            &&& s == StateView::AwaitVerification
            &&& e == EventView::Rejected(m)
            &&& next_step(cfg, os_name, arch_name, s, e).1 == ActionView::Kill
        },
{
}

/// Success is reported only right after `DBInitialized` was delivered, and with the
/// configuration's connection string (credentials included when both are set).
pub proof fn law_finish_after_initialized(
    cfg: EmbeddedView,
    os_name: Seq<char>,
    arch_name: Seq<char>,
    s: StateView,
    e: EventView,
)
    ensures
        next_step(cfg, os_name, arch_name, s, e).1 matches ActionView::Finish { connection_string }
            ==> s == StateView::AwaitInitialized && e == EventView::Done && connection_string
            == cfg.connection_string(),
        next_step(cfg, os_name, arch_name, s, e).0 == StateView::AwaitInitialized
            ==> next_step(cfg, os_name, arch_name, s, e).1 == ActionView::Notify(
            InitStage::DBInitialized,
        ),
{
}

/// The server is probed while less than 30 s have passed, and stopped once they have.
pub proof fn law_probe_deadline(
    cfg: EmbeddedView,
    os_name: Seq<char>,
    arch_name: Seq<char>,
    ms: u64,
)
    ensures
        next_step(cfg, os_name, arch_name, StateView::AwaitClock, EventView::Elapsed(ms)).1 == (
        if ms < 30000 {
            ActionView::Probe
        } else {
            ActionView::Kill
        }),
{
}

/// An archive already in the download directory is not fetched again, and a release already
/// unpacked is not unpacked again; a download is asked for only after the archive was found
/// missing.
pub proof fn law_present_files_reused(
    cfg: EmbeddedView,
    os_name: Seq<char>,
    arch_name: Seq<char>,
    s: StateView,
    e: EventView,
)
    ensures
        (s is AwaitArchiveCheck && e == EventView::Exists(true)) ==> next_step(
            cfg,
            os_name,
            arch_name,
            s,
            e,
        ).1 == ActionView::CheckInstall,
        (s is AwaitInstallCheck && e == EventView::Exists(true)) ==> !(next_step(
            cfg,
            os_name,
            arch_name,
            s,
            e,
        ).1 is Extract),
        next_step(cfg, os_name, arch_name, s, e).1 is Download ==> s is AwaitDownloading,
        next_step(cfg, os_name, arch_name, s, e).0 is AwaitDownloading ==> (s is AwaitDownloadDirCheck
            || s is AwaitDownloadDirCreated),
        next_step(cfg, os_name, arch_name, s, e).0 is AwaitDownloadDirCheck ==> (s is AwaitArchiveCheck
            && e == EventView::Exists(false)),
{
}

/// Once the server answers, a configuration with both credentials goes on to set up the
/// user, and one without reports success; a refusal with code 13, 18 or 51 counts as an
/// answer.
pub proof fn law_ready_server_moves_on(
    cfg: EmbeddedView,
    os_name: Seq<char>,
    arch_name: Seq<char>,
    o: ProbeOutcome,
)
    requires
        counts_as_ready(o),
    ensures
        next_step(cfg, os_name, arch_name, StateView::AwaitProbe, EventView::Probed(o)).1 == (
        if cfg.auth_enabled() {
            ActionView::Notify(InitStage::SettingUpUser)
        } else {
            ActionView::Notify(InitStage::DBInitialized)
        }),
        counts_as_ready(ProbeOutcome::CommandError(13)),
        counts_as_ready(ProbeOutcome::CommandError(18)),
        counts_as_ready(ProbeOutcome::CommandError(51)),
{
}

/// `bind_ip` names a Unix socket: it holds a `/`, or its last five characters are `.sock`.
pub open spec fn names_socket(bind_ip: Seq<char>) -> bool {
    ||| bind_ip.contains('/')
    ||| (bind_ip.len() >= 5 && bind_ip.subrange(bind_ip.len() - 5, bind_ip.len() as int)
        == ".sock"@)
}

/// The credential-free address to wait on: over TCP `mongodb://HOST:PORT/?directConnection=true`,
/// over a socket `mongodb://` + the path with `/` written `%2F` + `/?directConnection=true`.
pub open spec fn plain_probe_uri(bind_ip: Seq<char>, port: u16) -> Seq<char> {
    if names_socket(bind_ip) {
        "mongodb://"@ + crate::text::encode_slashes(bind_ip) + "/?directConnection=true"@
    } else {
        "mongodb://"@ + bind_ip + ":"@ + crate::text::decimal(port as nat)
            + "/?directConnection=true"@
    }
}

/// `cfg` with a user name and password set.
pub open spec fn credentialed(cfg: EmbeddedView, username: Seq<char>, password: Seq<char>) -> EmbeddedView {
    EmbeddedView { username: Some(username), password: Some(password), ..cfg }
}

/// After a completed launch, the start-up parses the address used to wait for the server,
/// which never carries credentials: the plain TCP or socket address of the bind address and
/// port; and setting credentials does not change it.
pub proof fn law_readiness_client_has_no_credentials(
    cfg: EmbeddedView,
    os_name: Seq<char>,
    arch_name: Seq<char>,
    username: Seq<char>,
    password: Seq<char>,
)
    ensures
        next_step(cfg, os_name, arch_name, StateView::AwaitLaunch, EventView::Done).1
            == (ActionView::ParseOptions { uri: plain_probe_uri(cfg.bind_ip, cfg.port) }),
        next_step(
            credentialed(cfg, username, password),
            os_name,
            arch_name,
            StateView::AwaitLaunch,
            EventView::Done,
        ) == next_step(cfg, os_name, arch_name, StateView::AwaitLaunch, EventView::Done),
{
    reveal_strlit(".sock");
}

/// With a user name and a password configured, the user is created under that name with that
/// password, and an existing one is checked with the same pair.
pub proof fn law_user_is_the_configured_one(
    cfg: EmbeddedView,
    os_name: Seq<char>,
    arch_name: Seq<char>,
    username: Seq<char>,
    password: Seq<char>,
)
    requires
        cfg.username == Some(username),
        cfg.password == Some(password),
    ensures
        next_step(cfg, os_name, arch_name, StateView::AwaitSettingUp, EventView::Done).0
            == StateView::AwaitCreateUser,
        next_step(cfg, os_name, arch_name, StateView::AwaitSettingUp, EventView::Done).1
            == (ActionView::CreateUser { username: username, password: password }),
        next_step(cfg, os_name, arch_name, StateView::AwaitVerifying, EventView::Done).0
            == StateView::AwaitVerification,
        next_step(cfg, os_name, arch_name, StateView::AwaitVerifying, EventView::Done).1
            == (ActionView::VerifyCredentials { username: username, password: password }),
{
}

/// Only an answer, or a refusal with code 13, 18 or 51, shows the server up; after any other
/// outcome the start-up waits 500 ms and reads the clock again.
pub proof fn law_probe_outcomes(
    cfg: EmbeddedView,
    os_name: Seq<char>,
    arch_name: Seq<char>,
    o: ProbeOutcome,
)
    ensures
        counts_as_ready(o) <==> (o == ProbeOutcome::Reachable || o == ProbeOutcome::CommandError(13)
            || o == ProbeOutcome::CommandError(18) || o == ProbeOutcome::CommandError(51)),
        !counts_as_ready(o) ==> next_step(
            cfg,
            os_name,
            arch_name,
            StateView::AwaitProbe,
            EventView::Probed(o),
        ) == (StateView::AwaitSleep, ActionView::Sleep { millis: 500 }),
        next_step(cfg, os_name, arch_name, StateView::AwaitSleep, EventView::Done) == (
        StateView::AwaitClock,
        ActionView::ReadClock,
        ),
{
}

} // verus!
