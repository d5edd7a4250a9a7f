//! The reasons for which an operation is refused or fails.

use vstd::prelude::*;
use vstd::string::*;

verus! {

/// Why an operation was refused or failed.
#[derive(Debug)]
pub enum Error {
    /// No entry has the name asked for.
    NotFound,
    /// An entry already has the new server's name.
    DuplicateName,
    /// An entry already has the new server's path.
    DuplicatePath,
    /// An entry already has the new server's port.
    DuplicatePort,
    /// The server's directory holds no application to run.
    InvalidServerDirectory,
    /// The server's framework is not one the launcher knows.
    UnsupportedFramework,
    /// The server's directory holds no entry point for its framework.
    NoEntrypointFound,
    /// The server's directory is not under version control.
    NotAGitRepository,
    /// The server's log directory could not be resolved; `reason` is what
    /// the host said.
    LogPathUnresolved { reason: String },
    /// The launch command failed; `stderr` is what it printed.
    ProcessSpawnFailed { name: String, stderr: String },
    /// The termination command failed; `stderr` is what it printed.
    ProcessTerminateFailed { name: String, stderr: String },
    /// The server's log could not be read.
    LogsUnavailable { stderr: String },
    /// The server's log could not be emptied.
    LogsNotCleared { stderr: String },
    /// Pulling the latest changes failed.
    PullFailed { stderr: String },
    /// The changed files could not be listed.
    DiffFailed { stderr: String },
    /// Configuring the build failed.
    ConfigureFailed { stderr: String },
    /// Compiling and installing failed.
    BuildFailed { stderr: String },
    /// A repository could not be set up.
    VcsFailed { stderr: String },
    /// The snapshot could not be written.
    SerializationFailed { reason: String },
    /// The stored snapshot could not be read back.
    DeserializationFailed { reason: String },
    /// The path given for a new server is not a directory.
    InvalidServerPath,
    /// The path given for a new key-value-store instance is not a directory.
    InvalidStorePath,
    /// The name given for a new server is reserved for the key-value store.
    ReservedName,
    /// The server has no log to visualize.
    LogFileUnavailable,
    /// Logs of key-value-store instances cannot be visualized.
    VisualizationUnsupported,
    /// The visualization failed.
    VisualizationFailed { stderr: String },
}

/// An error as contracts speak of it: each text by its characters.
pub enum ErrorView {
    NotFound,
    DuplicateName,
    DuplicatePath,
    DuplicatePort,
    InvalidServerDirectory,
    UnsupportedFramework,
    NoEntrypointFound,
    NotAGitRepository,
    LogPathUnresolved { reason: Seq<char> },
    ProcessSpawnFailed { name: Seq<char>, stderr: Seq<char> },
    ProcessTerminateFailed { name: Seq<char>, stderr: Seq<char> },
    LogsUnavailable { stderr: Seq<char> },
    LogsNotCleared { stderr: Seq<char> },
    PullFailed { stderr: Seq<char> },
    DiffFailed { stderr: Seq<char> },
    ConfigureFailed { stderr: Seq<char> },
    BuildFailed { stderr: Seq<char> },
    VcsFailed { stderr: Seq<char> },
    SerializationFailed { reason: Seq<char> },
    DeserializationFailed { reason: Seq<char> },
    InvalidServerPath,
    InvalidStorePath,
    ReservedName,
    LogFileUnavailable,
    VisualizationUnsupported,
    VisualizationFailed { stderr: Seq<char> },
}

impl View for Error {
    type V = ErrorView;

    open spec fn view(&self) -> ErrorView {
        match self {
            Error::NotFound => ErrorView::NotFound,
            Error::DuplicateName => ErrorView::DuplicateName,
            Error::DuplicatePath => ErrorView::DuplicatePath,
            Error::DuplicatePort => ErrorView::DuplicatePort,
            Error::InvalidServerDirectory => ErrorView::InvalidServerDirectory,
            Error::UnsupportedFramework => ErrorView::UnsupportedFramework,
            Error::NoEntrypointFound => ErrorView::NoEntrypointFound,
            Error::NotAGitRepository => ErrorView::NotAGitRepository,
            Error::LogPathUnresolved { reason } => ErrorView::LogPathUnresolved {
                reason: reason@,
            },
            Error::ProcessSpawnFailed { name, stderr } => ErrorView::ProcessSpawnFailed {
                name: name@,
                stderr: stderr@,
            },
            Error::ProcessTerminateFailed { name, stderr } => ErrorView::ProcessTerminateFailed {
                name: name@,
                stderr: stderr@,
            },
            Error::LogsUnavailable { stderr } => ErrorView::LogsUnavailable { stderr: stderr@ },
            Error::LogsNotCleared { stderr } => ErrorView::LogsNotCleared { stderr: stderr@ },
            Error::PullFailed { stderr } => ErrorView::PullFailed { stderr: stderr@ },
            Error::DiffFailed { stderr } => ErrorView::DiffFailed { stderr: stderr@ },
            Error::ConfigureFailed { stderr } => ErrorView::ConfigureFailed { stderr: stderr@ },
            Error::BuildFailed { stderr } => ErrorView::BuildFailed { stderr: stderr@ },
            Error::VcsFailed { stderr } => ErrorView::VcsFailed { stderr: stderr@ },
            Error::SerializationFailed { reason } => ErrorView::SerializationFailed {
                reason: reason@,
            },
            Error::DeserializationFailed { reason } => ErrorView::DeserializationFailed {
                reason: reason@,
            },
            Error::InvalidServerPath => ErrorView::InvalidServerPath,
            Error::InvalidStorePath => ErrorView::InvalidStorePath,
            Error::ReservedName => ErrorView::ReservedName,
            Error::LogFileUnavailable => ErrorView::LogFileUnavailable,
            Error::VisualizationUnsupported => ErrorView::VisualizationUnsupported,
            Error::VisualizationFailed { stderr } => ErrorView::VisualizationFailed {
                stderr: stderr@,
            },
        }
    }
}

impl ErrorView {
    /// The reason in words, as it is shown to the operator.
    pub open spec fn message(self) -> Seq<char> {
        match self {
            ErrorView::NotFound => "Server not found"@,
            ErrorView::DuplicateName => "Server name already exists"@,
            ErrorView::DuplicatePath => "Server path already exists"@,
            ErrorView::DuplicatePort => "Server port already exists"@,
            ErrorView::InvalidServerDirectory => "Not a valid server directory."@,
            ErrorView::UnsupportedFramework => "Unsupported framework."@,
            ErrorView::NoEntrypointFound => "No entry point found."@,
            ErrorView::NotAGitRepository => "Not a valid git repository."@,
            ErrorView::LogPathUnresolved { reason } => reason,
            ErrorView::ProcessSpawnFailed { name, stderr } => "Failed to start ["@ + name + "]: "@
                + stderr,
            ErrorView::ProcessTerminateFailed { name, stderr } => "Failed to stop ["@ + name
                + "]: "@ + stderr,
            ErrorView::LogsUnavailable { stderr } => "Failed retrieve server logs: "@ + stderr,
            ErrorView::LogsNotCleared { stderr } => "Failed clear server logs: "@ + stderr,
            ErrorView::PullFailed { stderr } =>
                "Failed to pull the latest changes from the Git repository: "@ + stderr,
            ErrorView::DiffFailed { stderr } => "Failed to get the diff: "@ + stderr,
            ErrorView::ConfigureFailed { stderr } => "Failed to run cmake: "@ + stderr,
            ErrorView::BuildFailed { stderr } => "Failed to compile and install the project: "@
                + stderr,
            ErrorView::VcsFailed { stderr } => "Failed to execute Git command: "@ + stderr,
            ErrorView::SerializationFailed { reason } => "Failed to serialize servers: "@ + reason,
            ErrorView::DeserializationFailed { reason } => "Failed to deserialize servers: "@
                + reason,
            ErrorView::InvalidServerPath => "Invalid server path"@,
            ErrorView::InvalidStorePath => "Invalid redis config path"@,
            ErrorView::ReservedName =>
                "Name reserved for Redis, use `redis --path [path to redis config file]` instead."@,
            ErrorView::LogFileUnavailable => "Log file unavailable."@,
            ErrorView::VisualizationUnsupported =>
                "Visualization for Redis servers not implemented."@,
            ErrorView::VisualizationFailed { stderr } => "Failed to execute Python script: "@
                + stderr,
        }
    }
}

/// A result as contracts speak of it: the view of the value, or the view
/// of the error.
pub open spec fn outcome<T: View>(r: Result<T, Error>) -> Result<T::V, ErrorView> {
    match r {
        Ok(value) => Ok(value@),
        Err(e) => Err(e@),
    }
}

/// `head` followed by `tail`.
fn joined(head: &str, tail: &String) -> (r: String)
    ensures
        r@ == head@ + tail@,
{
    let mut r = String::from_str(head);
    r.append(tail.as_str());
    r
}

/// `head`, then `name`, then `"]: "`, then `tail`.
fn bracketed(head: &str, name: &String, tail: &String) -> (r: String)
    ensures
        r@ == head@ + name@ + "]: "@ + tail@,
{
    let mut r = String::from_str(head);
    r.append(name.as_str());
    r.append("]: ");
    r.append(tail.as_str());
    r
}

impl Error {
    /// The reason in words, as it is shown to the operator.
    pub fn message(&self) -> (r: String)
        ensures
            r@ == self@.message(),
    {
        match self {
            Error::NotFound => String::from_str("Server not found"),
            Error::DuplicateName => String::from_str("Server name already exists"),
            Error::DuplicatePath => String::from_str("Server path already exists"),
            Error::DuplicatePort => String::from_str("Server port already exists"),
            Error::InvalidServerDirectory => String::from_str("Not a valid server directory."),
            Error::UnsupportedFramework => String::from_str("Unsupported framework."),
            Error::NoEntrypointFound => String::from_str("No entry point found."),
            Error::NotAGitRepository => String::from_str("Not a valid git repository."),
            Error::LogPathUnresolved { reason } => reason.clone(),
            Error::ProcessSpawnFailed { name, stderr } => bracketed(
                "Failed to start [",
                name,
                stderr,
            ),
            Error::ProcessTerminateFailed { name, stderr } => bracketed(
                "Failed to stop [",
                name,
                stderr,
            ),
            Error::LogsUnavailable { stderr } => joined("Failed retrieve server logs: ", stderr),
            Error::LogsNotCleared { stderr } => joined("Failed clear server logs: ", stderr),
            Error::PullFailed { stderr } => joined(
                "Failed to pull the latest changes from the Git repository: ",
                stderr,
            ),
            Error::DiffFailed { stderr } => joined("Failed to get the diff: ", stderr),
            Error::ConfigureFailed { stderr } => joined("Failed to run cmake: ", stderr),
            Error::BuildFailed { stderr } => joined(
                "Failed to compile and install the project: ",
                stderr,
            ),
            Error::VcsFailed { stderr } => joined("Failed to execute Git command: ", stderr),
            Error::SerializationFailed { reason } => joined(
                "Failed to serialize servers: ",
                reason,
            ),
            Error::DeserializationFailed { reason } => joined(
                "Failed to deserialize servers: ",
                reason,
            ),
            Error::InvalidServerPath => String::from_str("Invalid server path"),
            Error::InvalidStorePath => String::from_str("Invalid redis config path"),
            Error::ReservedName => String::from_str(
                "Name reserved for Redis, use `redis --path [path to redis config file]` instead.",
            ),
            Error::LogFileUnavailable => String::from_str("Log file unavailable."),
            Error::VisualizationUnsupported => String::from_str(
                "Visualization for Redis servers not implemented.",
            ),
            Error::VisualizationFailed { stderr } => joined(
                "Failed to execute Python script: ",
                stderr,
            ),
        }
    }
}

} // verus!
