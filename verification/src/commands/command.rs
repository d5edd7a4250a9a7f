//! The commands an operator can give.

use vstd::prelude::*;

verus! {

/// A command of the operator.
#[derive(Debug)]
pub enum Command {
    /// Register an application server.
    Add {
        name: String,
        framework: String,
        path: String,
        workers: u32,
        bind: String,
        port: u32,
        timeout: u32,
        log_path: Option<String>,
    },
    /// Stop a server and take it out of the registry.
    Remove { name: String },
    Start { name: String },
    Stop { name: String },
    Restart { name: String },
    /// Pull a server's source and build it again where needed.
    Update { name: String },
    /// Show a server's log.
    Monitor { name: String },
    /// Empty a server's log.
    ClearLogs { name: String },
    /// Plot a server's log.
    Visualize { name: String, show: bool },
    /// Make a server's directory a repository.
    GitInit { name: String },
    /// Set the remote origin of a server's repository.
    AddOrigin { name: String, remote_url: String },
    /// Register a key-value-store instance under the next free name.
    Redis { path: String, bind: String, port: u32, log_path: Option<String> },
    /// Show the machine's processor and memory usage.
    Hardware,
    /// List all servers.
    List,
    /// Stop all servers and empty the registry.
    Flush,
}

/// A command as contracts speak of it: each text by its characters.
pub enum CommandView {
    Add {
        name: Seq<char>,
        framework: Seq<char>,
        path: Seq<char>,
        workers: u32,
        bind: Seq<char>,
        port: u32,
        timeout: u32,
        log_path: Option<Seq<char>>,
    },
    Remove { name: Seq<char> },
    Start { name: Seq<char> },
    Stop { name: Seq<char> },
    Restart { name: Seq<char> },
    Update { name: Seq<char> },
    Monitor { name: Seq<char> },
    ClearLogs { name: Seq<char> },
    Visualize { name: Seq<char>, show: bool },
    GitInit { name: Seq<char> },
    AddOrigin { name: Seq<char>, remote_url: Seq<char> },
    Redis { path: Seq<char>, bind: Seq<char>, port: u32, log_path: Option<Seq<char>> },
    Hardware,
    List,
    Flush,
}

/// The text of an optional text.
pub open spec fn optional_text(text: Option<String>) -> Option<Seq<char>> {
    match text {
        Some(t) => Some(t@),
        None => None,
    }
}

impl View for Command {
    type V = CommandView;

    open spec fn view(&self) -> CommandView {
        match self {
            Command::Add { name, framework, path, workers, bind, port, timeout, log_path } => {
                CommandView::Add {
                    name: name@,
                    framework: framework@,
                    path: path@,
                    workers: *workers,
                    bind: bind@,
                    port: *port,
                    timeout: *timeout,
                    log_path: optional_text(*log_path),
                }
            },
            Command::Remove { name } => CommandView::Remove { name: name@ },
            Command::Start { name } => CommandView::Start { name: name@ },
            Command::Stop { name } => CommandView::Stop { name: name@ },
            Command::Restart { name } => CommandView::Restart { name: name@ },
            Command::Update { name } => CommandView::Update { name: name@ },
            Command::Monitor { name } => CommandView::Monitor { name: name@ },
            Command::ClearLogs { name } => CommandView::ClearLogs { name: name@ },
            Command::Visualize { name, show } => CommandView::Visualize {
                name: name@,
                show: *show,
            },
            Command::GitInit { name } => CommandView::GitInit { name: name@ },
            Command::AddOrigin { name, remote_url } => CommandView::AddOrigin {
                name: name@,
                remote_url: remote_url@,
            },
            Command::Redis { path, bind, port, log_path } => CommandView::Redis {
                path: path@,
                bind: bind@,
                port: *port,
                log_path: optional_text(*log_path),
            },
            Command::Hardware => CommandView::Hardware,
            Command::List => CommandView::List,
            Command::Flush => CommandView::Flush,
        }
    }
}

impl CommandView {
    /// The name of the server that the command is about, if it is about
    /// one that the registry holds.
    pub open spec fn subject(self) -> Option<Seq<char>> {
        match self {
            CommandView::Remove { name } => Some(name),
            CommandView::Start { name } => Some(name),
            CommandView::Stop { name } => Some(name),
            CommandView::Restart { name } => Some(name),
            CommandView::Update { name } => Some(name),
            CommandView::Monitor { name } => Some(name),
            CommandView::ClearLogs { name } => Some(name),
            CommandView::Visualize { name, .. } => Some(name),
            CommandView::GitInit { name } => Some(name),
            CommandView::AddOrigin { name, .. } => Some(name),
            _ => None,
        }
    }

    /// The path that the command offers for a new server, if it offers
    /// one.
    pub open spec fn offered_path(self) -> Option<Seq<char>> {
        match self {
            CommandView::Add { path, .. } => Some(path),
            CommandView::Redis { path, .. } => Some(path),
            _ => None,
        }
    }
}

impl Command {
    /// The name of the server that the command is about, if it is about
    /// one that the registry holds. The host looks at that server's
    /// directory before the command is carried out.
    pub fn subject(&self) -> (r: Option<&String>)
        ensures
            match r {
                Some(name) => self@.subject() == Some(name@),
                None => self@.subject() is None,
            },
    {
        match self {
            Command::Remove { name } => Some(name),
            Command::Start { name } => Some(name),
            Command::Stop { name } => Some(name),
            Command::Restart { name } => Some(name),
            Command::Update { name } => Some(name),
            Command::Monitor { name } => Some(name),
            Command::ClearLogs { name } => Some(name),
            Command::Visualize { name, .. } => Some(name),
            Command::GitInit { name } => Some(name),
            Command::AddOrigin { name, .. } => Some(name),
            _ => None,
        }
    }

    /// The path that the command offers for a new server, if it offers
    /// one. The host looks at that path before the command is carried out.
    pub fn offered_path(&self) -> (r: Option<&String>)
        ensures
            match r {
                Some(path) => self@.offered_path() == Some(path@),
                None => self@.offered_path() is None,
            },
    {
        match self {
            Command::Add { path, .. } => Some(path),
            Command::Redis { path, .. } => Some(path),
            _ => None,
        }
    }
}

} // verus!
