//! Locating the interpreter installation a build links against.
//!
//! The installation lives under an environment root. A build needs three
//! things of it: the root itself, the interpreter executable and the package
//! directory. When the root or the executable is missing, the package-sync
//! tool is run once to create them; a missing package directory is never
//! repaired.
//!
//! Looking at the disk and running the tool is the caller's work. The
//! [`Resolver`] decides: it names the next thing to do as an [`Action`], and
//! takes what came of it as an [`Event`].

use vstd::prelude::*;
use vstd::string::*;
use crate::directives::{
    rerun_if_changed, rerun_line, set_variable, variable_line, warning, warning_line,
};
use crate::paths::{join, joined, Platform};
use crate::text::{debug_quoted, quote};

verus! {

/// The variable that names the environment root.
pub const ROOT_VARIABLE: &'static str = "VIRTUAL_ENV";

/// The environment root when the variable is not set.
pub const DEFAULT_ROOT: &'static str = ".venv";

/// The package-sync tool, looked up on the command search path.
pub const SYNC_PROGRAM: &'static str = "uv";

/// The one argument the package-sync tool is run with.
pub const SYNC_ARGUMENT: &'static str = "sync";

/// The variable that carries the package directory to later build steps.
pub const SEARCH_PATH_VARIABLE: &'static str = "PYTHONPATH";

/// Why an environment could not be resolved.
#[derive(Clone, Copy, Debug, PartialEq, Eq, Structural)]
pub enum Failure {
    /// The package-sync tool could not be started.
    SyncNotStarted,
    /// The executable is missing, also after the package-sync tool ran.
    ExecutableMissing,
    /// The package directory is missing.
    PackagesMissing,
    /// An event arrived that does not answer the pending action.
    OutOfTurn,
}

/// How far the resolution has come.
#[derive(Clone, Copy, Debug, PartialEq, Eq, Structural)]
pub enum Phase {
    /// Waiting to learn whether the root and the executable exist.
    Probing,
    /// Waiting for the package-sync tool to return.
    Syncing,
    /// Waiting to learn whether the executable exists now.
    CheckingExecutable,
    /// Waiting to learn whether the package directory exists.
    CheckingPackages,
    /// Root, executable and package directory were found.
    Resolved,
    /// The resolution ended without an environment.
    Failed(Failure),
}

/// What the caller observed.
#[derive(Clone, Copy, Debug, PartialEq, Eq, Structural)]
pub enum Event {
    /// Whether the root and the executable exist on disk.
    Probed { root_exists: bool, executable_exists: bool },
    /// The package-sync tool returned, or could not be started.
    SyncReturned { started: bool },
    /// Whether the executable exists on disk.
    ExecutableChecked { exists: bool },
    /// Whether the package directory exists on disk.
    PackagesChecked { exists: bool },
}

/// What the caller is asked to do next.
#[derive(Clone, Copy, Debug, PartialEq, Eq, Structural)]
pub enum Action {
    /// Look for the root and the executable; answer with [`Event::Probed`].
    Probe,
    /// Run the package-sync tool and wait for it; answer with
    /// [`Event::SyncReturned`].
    RunSync,
    /// Look for the executable; answer with [`Event::ExecutableChecked`].
    CheckExecutable,
    /// Look for the package directory; answer with
    /// [`Event::PackagesChecked`].
    CheckPackages,
    /// The environment is resolved: emit the directives.
    Finish,
    /// Stop the build with the failure's message.
    Abort(Failure),
}

/// The phase that follows `phase` when `event` arrives.
///
/// An event that does not answer what `phase` waits for ends the resolution;
/// the two final phases keep every event out.
pub open spec fn next(phase: Phase, event: Event) -> Phase {
    match (phase, event) {
        (Phase::Resolved, _) => Phase::Resolved,
        (Phase::Failed(failure), _) => Phase::Failed(failure),
        (Phase::Probing, Event::Probed { root_exists, executable_exists }) => {
            if root_exists && executable_exists {
                Phase::CheckingExecutable
            } else {
                Phase::Syncing
            }
        },
        (Phase::Syncing, Event::SyncReturned { started }) => {
            if started {
                Phase::CheckingExecutable
            } else {
                Phase::Failed(Failure::SyncNotStarted)
            }
        },
        (Phase::CheckingExecutable, Event::ExecutableChecked { exists }) => {
            if exists {
                Phase::CheckingPackages
            } else {
                Phase::Failed(Failure::ExecutableMissing)
            }
        },
        (Phase::CheckingPackages, Event::PackagesChecked { exists }) => {
            if exists {
                Phase::Resolved
            } else {
                Phase::Failed(Failure::PackagesMissing)
            }
        },
        _ => Phase::Failed(Failure::OutOfTurn),
    }
}

/// The action that `phase` waits on.
pub open spec fn request(phase: Phase) -> Action {
    match phase {
        Phase::Probing => Action::Probe,
        Phase::Syncing => Action::RunSync,
        Phase::CheckingExecutable => Action::CheckExecutable,
        Phase::CheckingPackages => Action::CheckPackages,
        Phase::Resolved => Action::Finish,
        Phase::Failed(failure) => Action::Abort(failure),
    }
}

/// Where the executable lies under the environment root.
pub open spec fn executable_subpath(platform: Platform) -> Seq<char> {
    match platform {
        Platform::Windows => "Scripts/python.exe"@,
        Platform::Unix => "bin/python"@,
    }
}

/// Where the package directory lies under the environment root.
pub open spec fn packages_subpath() -> Seq<char> {
    "Lib/site-packages"@
}

/// The environment root: the variable's value where it is set, else the
/// default.
pub open spec fn chosen_root(root_override: Option<String>) -> Seq<char> {
    match root_override {
        Some(root) => root@,
        None => DEFAULT_ROOT@,
    }
}

/// What is said before the package-sync tool runs, with the root written as
/// `shown_root`.
pub open spec fn sync_announcement_text(shown_root: Seq<char>) -> Seq<char> {
    "Virtual environment not found at "@ + shown_root + ". Running `uv sync`..."@
}

/// Writes what is said before the package-sync tool runs.
pub fn sync_announcement(shown_root: &str) -> (text: String)
    ensures
        text@ == sync_announcement_text(shown_root@),
{
    String::from_str("Virtual environment not found at ").concat(shown_root).concat(
        ". Running `uv sync`...",
    )
}

impl Failure {
    /// What the failure says, with the path it is about written as
    /// `shown_path`. A failure that is about no path says the same whatever
    /// `shown_path` is.
    pub open spec fn text(self, shown_path: Seq<char>) -> Seq<char> {
        match self {
            Failure::SyncNotStarted => "Failed to execute `uv sync`"@,
            Failure::ExecutableMissing => "Python executable not found at "@ + shown_path,
            Failure::PackagesMissing => "site-packages directory not found at "@ + shown_path,
            Failure::OutOfTurn => "event does not answer the pending action"@,
        }
    }

    /// Writes what the failure says.
    pub fn describe(self, shown_path: &str) -> (text: String)
        ensures
            text@ == self.text(shown_path@),
    {
        match self {
            Failure::SyncNotStarted => String::from_str("Failed to execute `uv sync`"),
            Failure::ExecutableMissing => String::from_str("Python executable not found at ").concat(
                shown_path,
            ),
            Failure::PackagesMissing => String::from_str(
                "site-packages directory not found at ",
            ).concat(shown_path),
            Failure::OutOfTurn => String::from_str("event does not answer the pending action"),
        }
    }
}

/// What a [`Resolver`] stands for.
pub struct ResolverView {
    pub platform: Platform,
    pub root: Seq<char>,
    pub working_directory: Seq<char>,
    pub phase: Phase,
}

impl ResolverView {
    /// The executable's path: its subpath placed under the root.
    pub open spec fn executable(self) -> Seq<char> {
        joined(self.platform, self.root, executable_subpath(self.platform))
    }

    /// The package directory's path: its subpath placed under the root.
    pub open spec fn packages(self) -> Seq<char> {
        joined(self.platform, self.root, packages_subpath())
    }

    /// The package directory as later build steps are told it: resolved
    /// against the working directory, so that it does not depend on where
    /// they run.
    pub open spec fn search_path(self) -> Seq<char> {
        joined(self.platform, self.working_directory, self.packages())
    }

    /// The warning that announces a run of the package-sync tool. It shows
    /// the root as the standard library's `Debug` writes a string.
    pub open spec fn sync_warning(self) -> Seq<char> {
        warning_line(sync_announcement_text(debug_quoted(self.root)))
    }

    /// The lines the build prints on reaching the phase: the warning before
    /// the package-sync tool runs; for a resolved environment the package
    /// directory for later build steps, then the two paths whose change makes
    /// the build run again; else nothing.
    pub open spec fn directives(self) -> Seq<Seq<char>> {
        match self.phase {
            Phase::Syncing => seq![self.sync_warning()],
            Phase::Resolved => seq![
                variable_line(SEARCH_PATH_VARIABLE@, self.search_path()),
                rerun_line(self.root),
                rerun_line(self.executable()),
            ],
            _ => Seq::empty(),
        }
    }

    /// The path that `failure` is about; empty where it is about none.
    pub open spec fn missing_path(self, failure: Failure) -> Seq<char> {
        match failure {
            Failure::ExecutableMissing => self.executable(),
            Failure::PackagesMissing => self.packages(),
            _ => Seq::empty(),
        }
    }

    /// What a failure says. A missing path is named in the message, written
    /// as the standard library's `Debug` writes a string.
    pub open spec fn failure_text(self, failure: Failure) -> Seq<char> {
        failure.text(debug_quoted(self.missing_path(failure)))
    }
}

/// A resolved environment: the paths that were found on disk.
#[derive(Debug)]
pub struct Environment {
    /// The environment root.
    pub environment_root: String,
    /// The interpreter executable.
    pub executable_path: String,
    /// The directory of the installed packages.
    pub package_directory_path: String,
    /// The directory of the shared runtime library. Resolving an environment
    /// leaves it empty; a Windows build fills it in from the runtime library
    /// query.
    pub runtime_library_directory: Option<String>,
}

/// The resolution of one environment, from the first look at the disk to an
/// environment or a failure.
#[derive(Debug)]
pub struct Resolver {
    platform: Platform,
    root: String,
    working_directory: String,
    phase: Phase,
}

impl View for Resolver {
    type V = ResolverView;

    closed spec fn view(&self) -> ResolverView {
        ResolverView {
            platform: self.platform,
            root: self.root@,
            working_directory: self.working_directory@,
            phase: self.phase,
        }
    }
}

impl Resolver {
    /// Starts a resolution. `root_override` is the value of
    /// [`ROOT_VARIABLE`], if it is set; `working_directory` is the directory
    /// the build runs in.
    pub fn new(
        platform: Platform,
        root_override: Option<String>,
        working_directory: String,
    ) -> (resolver: Resolver)
        ensures
            resolver@ == (ResolverView {
                platform,
                root: chosen_root(root_override),
                working_directory: working_directory@,
                phase: Phase::Probing,
            }),
    {
        let root = match root_override {
            Some(root) => root,
            None => String::from_str(DEFAULT_ROOT),
        };
        Resolver { platform, root, working_directory, phase: Phase::Probing }
    }

    /// How far the resolution has come.
    pub fn phase(&self) -> (phase: Phase)
        ensures
            phase == self@.phase,
    {
        self.phase
    }

    /// The action the resolver waits on.
    pub fn pending(&self) -> (action: Action)
        ensures
            action == request(self@.phase),
    {
        match self.phase {
            Phase::Probing => Action::Probe,
            Phase::Syncing => Action::RunSync,
            Phase::CheckingExecutable => Action::CheckExecutable,
            Phase::CheckingPackages => Action::CheckPackages,
            Phase::Resolved => Action::Finish,
            Phase::Failed(failure) => Action::Abort(failure),
        }
    }

    /// Takes what the caller observed and names what to do next. Only the
    /// phase changes.
    pub fn advance(&mut self, event: Event) -> (action: Action)
        ensures
            final(self)@ == (ResolverView { phase: next(old(self)@.phase, event), ..old(self)@ }),
            action == request(final(self)@.phase),
    {
        let phase = match (self.phase, event) {
            (Phase::Resolved, _) => Phase::Resolved,
            (Phase::Failed(failure), _) => Phase::Failed(failure),
            (Phase::Probing, Event::Probed { root_exists, executable_exists }) => {
                if root_exists && executable_exists {
                    Phase::CheckingExecutable
                } else {
                    Phase::Syncing
                }
            },
            (Phase::Syncing, Event::SyncReturned { started }) => {
                if started {
                    Phase::CheckingExecutable
                } else {
                    Phase::Failed(Failure::SyncNotStarted)
                }
            },
            (Phase::CheckingExecutable, Event::ExecutableChecked { exists }) => {
                if exists {
                    Phase::CheckingPackages
                } else {
                    Phase::Failed(Failure::ExecutableMissing)
                }
            },
            (Phase::CheckingPackages, Event::PackagesChecked { exists }) => {
                if exists {
                    Phase::Resolved
                } else {
                    Phase::Failed(Failure::PackagesMissing)
                }
            },
            _ => Phase::Failed(Failure::OutOfTurn),
        };
        self.phase = phase;
        self.pending()
    }

    /// The environment root.
    pub fn environment_root(&self) -> (path: &str)
        ensures
            path@ == self@.root,
    {
        self.root.as_str()
    }

    /// The executable's path.
    pub fn executable_path(&self) -> (path: String)
        ensures
            path@ == self@.executable(),
    {
        let subpath = match self.platform {
            Platform::Windows => "Scripts/python.exe",
            Platform::Unix => "bin/python",
        };
        join(self.platform, self.root.as_str(), subpath)
    }

    /// The package directory's path.
    pub fn package_directory_path(&self) -> (path: String)
        ensures
            path@ == self@.packages(),
    {
        join(self.platform, self.root.as_str(), "Lib/site-packages")
    }

    /// The package directory, resolved against the working directory.
    pub fn search_path(&self) -> (path: String)
        ensures
            path@ == self@.search_path(),
    {
        let packages = self.package_directory_path();
        join(self.platform, self.working_directory.as_str(), packages.as_str())
    }

    /// The environment, once it is resolved.
    pub fn environment(&self) -> (environment: Option<Environment>)
        ensures
            match environment {
                Some(found) => {
                    &&& self@.phase == Phase::Resolved
                    &&& found.environment_root@ == self@.root
                    &&& found.executable_path@ == self@.executable()
                    &&& found.package_directory_path@ == self@.packages()
                    &&& found.runtime_library_directory is None
                },
                None => self@.phase != Phase::Resolved,
            },
    {
        match self.phase {
            Phase::Resolved => Some(
                Environment {
                    environment_root: self.root.clone(),
                    executable_path: self.executable_path(),
                    package_directory_path: self.package_directory_path(),
                    runtime_library_directory: None,
                },
            ),
            _ => None,
        }
    }

    /// The lines to print on reaching the current phase.
    pub fn directives(&self) -> (lines: Vec<String>)
        ensures
            lines.deep_view() == self@.directives(),
    {
        let mut lines: Vec<String> = Vec::new();
        match self.phase {
            Phase::Syncing => {
                let root = quote(self.root.as_str());
                let announcement = sync_announcement(root.as_str());
                lines.push(warning(announcement.as_str()));
            },
            Phase::Resolved => {
                let search_path = self.search_path();
                let executable = self.executable_path();
                lines.push(set_variable(SEARCH_PATH_VARIABLE, search_path.as_str()));
                lines.push(rerun_if_changed(self.root.as_str()));
                lines.push(rerun_if_changed(executable.as_str()));
            },
            _ => {},
        }
        lines
    }

    /// What went wrong, once the resolution has failed.
    pub fn failure_message(&self) -> (message: Option<String>)
        ensures
            match self@.phase {
                Phase::Failed(failure) => message matches Some(text) && text@
                    == self@.failure_text(failure),
                _ => message is None,
            },
    {
        match self.phase {
            Phase::Failed(failure) => {
                let path = match failure {
                    Failure::ExecutableMissing => self.executable_path(),
                    Failure::PackagesMissing => self.package_directory_path(),
                    _ => String::new(),
                };
                let shown = quote(path.as_str());
                Some(failure.describe(shown.as_str()))
            },
            _ => None,
        }
    }
}

} // verus!
