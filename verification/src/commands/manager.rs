//! The supervisor: a registry, the command at hand, and the rules by
//! which the command is carried out.

use vstd::prelude::*;
use vstd::string::*;
use crate::commands::command::{optional_text, Command, CommandView};
use crate::error::{Error, ErrorView};
use crate::host::{
    report_views, Action, ActionView, Report, ReportView, Site, SiteView, Step, StepView,
};
use crate::server::server::{Server, ServerView};
use crate::server::laws::lemma_registry_waits_unchanged;
use crate::server::names::{next_store, store_name};
use crate::server::servers::{
    add_error, added, cleared, flushed, initialized, monitored, origin_added, removed, restarted,
    started, stopped, summary, unique, updated, visualized, FlushedView, RemovalView, Servers,
};
use crate::text::{contains, lowercase, text_contains, to_lowercase};

verus! {

/// What the host saw when the command was given.
pub struct World {
    /// The directory the supervisor runs in.
    pub current_dir: String,
    /// Whether the path that the command names is a directory.
    pub is_dir: bool,
    /// Whether that path lies inside a version-controlled working tree.
    pub in_work_tree: bool,
    /// What is at the directory of the server that the command names.
    pub site: Site,
}

/// What the host saw, as contracts speak of it.
pub struct WorldView {
    pub current_dir: Seq<char>,
    pub is_dir: bool,
    pub in_work_tree: bool,
    pub site: SiteView,
}

impl View for World {
    type V = WorldView;

    open spec fn view(&self) -> WorldView {
        WorldView {
            current_dir: self.current_dir@,
            is_dir: self.is_dir,
            in_work_tree: self.in_work_tree,
            site: self.site@,
        }
    }
}

/// What a command that was carried out has to say.
pub enum Reply {
    /// There was no command.
    NoCommand,
    /// There is no registry to work on.
    NoRegistry,
    Added,
    /// The server is gone; `stop_error` says why its stop failed, if it did.
    Removed { stop_error: Option<Error> },
    Started,
    Stopped,
    Restarted,
    /// One line for each server.
    Listing { lines: Vec<String> },
    /// One line for each server that could not be stopped, and so stayed.
    Flushed { failures: Vec<String> },
    /// The server's log.
    Log { text: String },
    LogsCleared,
    /// The source is up to date; `rebuilt` says whether it was built again.
    Updated { rebuilt: bool },
    /// The directory is a repository; `initialized` says whether it was
    /// made one just now.
    RepositoryReady { initialized: bool },
    OriginAdded,
    /// What the plotting script printed.
    Visualized { output: String, errors: String },
    HardwareShown,
}

/// A reply as contracts speak of it.
pub enum ReplyView {
    NoCommand,
    NoRegistry,
    Added,
    Removed { stop_error: Option<ErrorView> },
    Started,
    Stopped,
    Restarted,
    Listing { lines: Seq<Seq<char>> },
    Flushed { failures: Seq<Seq<char>> },
    Log { text: Seq<char> },
    LogsCleared,
    Updated { rebuilt: bool },
    RepositoryReady { initialized: bool },
    OriginAdded,
    Visualized { output: Seq<char>, errors: Seq<char> },
    HardwareShown,
}

impl View for Reply {
    type V = ReplyView;

    open spec fn view(&self) -> ReplyView {
        match self {
            Reply::NoCommand => ReplyView::NoCommand,
            Reply::NoRegistry => ReplyView::NoRegistry,
            Reply::Added => ReplyView::Added,
            Reply::Removed { stop_error } => ReplyView::Removed {
                stop_error: match stop_error {
                    Some(e) => Some(e@),
                    None => None,
                },
            },
            Reply::Started => ReplyView::Started,
            Reply::Stopped => ReplyView::Stopped,
            Reply::Restarted => ReplyView::Restarted,
            Reply::Listing { lines } => ReplyView::Listing {
                lines: lines@.map_values(|line: String| line@),
            },
            Reply::Flushed { failures } => ReplyView::Flushed {
                failures: failures@.map_values(|line: String| line@),
            },
            Reply::Log { text } => ReplyView::Log { text: text@ },
            Reply::LogsCleared => ReplyView::LogsCleared,
            Reply::Updated { rebuilt } => ReplyView::Updated { rebuilt: *rebuilt },
            Reply::RepositoryReady { initialized } => ReplyView::RepositoryReady {
                initialized: *initialized,
            },
            Reply::OriginAdded => ReplyView::OriginAdded,
            Reply::Visualized { output, errors } => ReplyView::Visualized {
                output: output@,
                errors: errors@,
            },
            Reply::HardwareShown => ReplyView::HardwareShown,
        }
    }
}

/// The end of a command: what it has to say, and the snapshot to persist
/// if the command calls for one.
pub struct Answer {
    pub reply: Reply,
    pub snapshot: Option<Servers>,
}

/// The end of a command as contracts speak of it.
pub struct AnswerView {
    pub reply: ReplyView,
    pub snapshot: Option<Seq<ServerView>>,
}

impl View for Answer {
    type V = AnswerView;

    open spec fn view(&self) -> AnswerView {
        AnswerView {
            reply: self.reply@,
            snapshot: match self.snapshot {
                Some(snapshot) => Some(snapshot@),
                None => None,
            },
        }
    }
}

/// The supervisor: the registry, if there is one, and the command at hand.
#[derive(Debug)]
pub struct ServerManager {
    pub servers: Option<Servers>,
    pub cmd: Option<Command>,
}

/// The supervisor as contracts speak of it.
pub struct ManagerView {
    pub servers: Option<Seq<ServerView>>,
    pub cmd: Option<CommandView>,
}

impl ManagerView {
    /// No two entries of the registry, if there is one, share a name, a
    /// path or a port.
    pub open spec fn keeps_apart(self) -> bool {
        match self.servers {
            Some(servers) => unique(servers),
            None => true,
        }
    }
}

impl View for ServerManager {
    type V = ManagerView;

    open spec fn view(&self) -> ManagerView {
        ManagerView {
            servers: match self.servers {
                Some(servers) => Some(servers@),
                None => None,
            },
            cmd: match self.cmd {
                Some(cmd) => Some(cmd@),
                None => None,
            },
        }
    }
}

/// The server that an `add` command describes: not running, its log
/// beside the application unless a log directory is given.
pub open spec fn application(
    name: Seq<char>,
    framework: Seq<char>,
    path: Seq<char>,
    workers: u32,
    bind: Seq<char>,
    port: u32,
    timeout: u32,
    log_path: Option<Seq<char>>,
    world: WorldView,
) -> ServerView {
    ServerView {
        name,
        path,
        bind,
        port,
        workers,
        timeout,
        log_path: match log_path {
            Some(dir) => dir,
            None => path,
        },
        github: world.in_work_tree,
        running: false,
        framework,
        original_dir: world.current_dir,
    }
}

/// The server that a `redis` command describes for a registry: a store
/// instance under the next free name, with one worker and a timeout of
/// thirty seconds.
pub open spec fn store(
    servers: Seq<ServerView>,
    path: Seq<char>,
    bind: Seq<char>,
    port: u32,
    log_path: Option<Seq<char>>,
    world: WorldView,
) -> ServerView {
    ServerView {
        name: store_name(next_store(servers)),
        path,
        bind,
        port,
        workers: 1,
        timeout: 30,
        log_path: match log_path {
            Some(dir) => dir,
            None => path,
        },
        github: world.in_work_tree,
        running: false,
        framework: "redis"@,
        original_dir: world.current_dir,
    }
}

/// An answer of the registry, put as the end of a command.
pub open spec fn answered<T>(step: StepView<T>, answer: spec_fn(T) -> AnswerView) -> StepView<
    AnswerView,
> {
    match step {
        StepView::Run(action) => StepView::Run(action),
        StepView::Done(Err(e)) => StepView::Done(Err(e)),
        StepView::Done(Ok(value)) => StepView::Done(Ok(answer(value))),
    }
}

/// The end of a command that only has something to say.
pub open spec fn said(reply: ReplyView) -> StepView<AnswerView> {
    StepView::Done(Ok(AnswerView { reply, snapshot: None }))
}

/// The answer to offering `s` to the registry.
pub open spec fn offered(servers: Seq<ServerView>, s: ServerView) -> StepView<AnswerView> {
    match add_error(servers, s) {
        Some(e) => StepView::Done(Err(e)),
        None => StepView::Done(
            Ok(AnswerView { reply: ReplyView::Added, snapshot: Some(added(servers, s)) }),
        ),
    }
}

/// What a command comes to on a registry: the answer, and the registry
/// after it.
pub open spec fn carried_out(
    servers: Seq<ServerView>,
    cmd: CommandView,
    world: WorldView,
    reports: Seq<ReportView>,
) -> (StepView<AnswerView>, Seq<ServerView>) {
    match cmd {
        CommandView::Add { name, framework, path, workers, bind, port, timeout, log_path } => {
            let s = application(name, framework, path, workers, bind, port, timeout, log_path, world);
            (offered(servers, s), added(servers, s))
        },
        CommandView::Redis { path, bind, port, log_path } => {
            let s = store(servers, path, bind, port, log_path, world);
            (offered(servers, s), added(servers, s))
        },
        CommandView::Remove { name } => {
            let (step, after) = removed(servers, name, reports);
            (
                answered(
                    step,
                    |removal: RemovalView|
                        AnswerView {
                            reply: ReplyView::Removed { stop_error: removal.stop_error },
                            snapshot: Some(removal.snapshot),
                        },
                ),
                after,
            )
        },
        CommandView::Start { name } => {
            let (step, after) = started(servers, name, world.site, reports);
            (
                answered(
                    step,
                    |snapshot: Seq<ServerView>|
                        AnswerView { reply: ReplyView::Started, snapshot: Some(snapshot) },
                ),
                after,
            )
        },
        CommandView::Stop { name } => {
            let (step, after) = stopped(servers, name, reports);
            (
                answered(
                    step,
                    |snapshot: Seq<ServerView>|
                        AnswerView { reply: ReplyView::Stopped, snapshot: Some(snapshot) },
                ),
                after,
            )
        },
        CommandView::Restart { name } => {
            let (step, after) = restarted(servers, name, world.site, reports);
            (
                answered(
                    step,
                    |snapshot: Seq<ServerView>|
                        AnswerView { reply: ReplyView::Restarted, snapshot: Some(snapshot) },
                ),
                after,
            )
        },
        CommandView::Update { name } => (
            answered(
                updated(servers, name, world.site, reports),
                |done: (bool, Seq<ServerView>)|
                    AnswerView {
                        reply: ReplyView::Updated { rebuilt: done.0 },
                        snapshot: Some(done.1),
                    },
            ),
            servers,
        ),
        CommandView::GitInit { name } => (
            answered(
                initialized(servers, name, reports),
                |done: (bool, Seq<ServerView>)|
                    AnswerView {
                        reply: ReplyView::RepositoryReady { initialized: done.0 },
                        snapshot: Some(done.1),
                    },
            ),
            servers,
        ),
        CommandView::AddOrigin { name, remote_url } => (
            answered(
                origin_added(servers, name, remote_url, reports),
                |done: ()| AnswerView { reply: ReplyView::OriginAdded, snapshot: None },
            ),
            servers,
        ),
        CommandView::Monitor { name } => (
            answered(
                monitored(servers, name, world.site, reports),
                |text: Seq<char>| AnswerView { reply: ReplyView::Log { text }, snapshot: None },
            ),
            servers,
        ),
        CommandView::ClearLogs { name } => (
            answered(
                cleared(servers, name, world.site, reports),
                |done: ()| AnswerView { reply: ReplyView::LogsCleared, snapshot: None },
            ),
            servers,
        ),
        CommandView::Visualize { name, show } => (
            answered(
                visualized(servers, name, show, world.site, reports),
                |printed: (Seq<char>, Seq<char>)|
                    AnswerView {
                        reply: ReplyView::Visualized { output: printed.0, errors: printed.1 },
                        snapshot: None,
                    },
            ),
            servers,
        ),
        CommandView::List => (
            said(ReplyView::Listing { lines: servers.map_values(|s: ServerView| summary(s)) }),
            servers,
        ),
        CommandView::Flush => {
            let (step, after) = flushed(servers, reports);
            (
                answered(
                    step,
                    |end: FlushedView|
                        AnswerView {
                            reply: ReplyView::Flushed { failures: end.failures },
                            snapshot: Some(end.snapshot),
                        },
                ),
                after,
            )
        },
        CommandView::Hardware => (said(ReplyView::HardwareShown), servers),
    }
}

/// Why a command is turned down before the registry is looked at, if it
/// is: a new server whose path is no directory or whose name is reserved,
/// a new store instance whose path is no directory, a plot of a store
/// instance's log.
pub open spec fn refusal(cmd: CommandView, world: WorldView) -> Option<ErrorView> {
    match cmd {
        CommandView::Add { name, .. } => if !world.is_dir {
            Some(ErrorView::InvalidServerPath)
        } else if contains(lowercase(name), "redis"@) {
            Some(ErrorView::ReservedName)
        } else {
            None
        },
        CommandView::Redis { .. } => if !world.is_dir {
            Some(ErrorView::InvalidStorePath)
        } else {
            None
        },
        CommandView::Visualize { name, .. } => if contains(lowercase(name), "redis"@) {
            Some(ErrorView::VisualizationUnsupported)
        } else {
            None
        },
        _ => None,
    }
}

/// What the command at hand comes to: the answer, and the registry after
/// it. Without a command there is only that to say. The hardware display
/// needs no registry: the host is asked to show it. A command that is
/// turned down changes nothing. Any other command needs a registry, and
/// is carried out on it.
pub open spec fn executed(m: ManagerView, world: WorldView, reports: Seq<ReportView>) -> (
    StepView<AnswerView>,
    Option<Seq<ServerView>>,
) {
    match m.cmd {
        None => (said(ReplyView::NoCommand), m.servers),
        Some(CommandView::Hardware) => if reports.len() == 0 {
            (StepView::Run(ActionView::ShowHardware), m.servers)
        } else {
            (said(ReplyView::HardwareShown), m.servers)
        },
        Some(cmd) => match refusal(cmd, world) {
            Some(e) => (StepView::Done(Err(e)), m.servers),
            None => match m.servers {
                None => (said(ReplyView::NoRegistry), None),
                Some(servers) => {
                    let (step, after) = carried_out(servers, cmd, world, reports);
                    (step, Some(after))
                },
            },
        },
    }
}

/// The directory that receives a new server's log.
fn log_directory(log_path: &Option<String>, path: &String) -> (dir: String)
    ensures
        dir@ == match optional_text(*log_path) {
            Some(given) => given,
            None => path@,
        },
{
    match log_path {
        Some(given) => given.clone(),
        None => path.clone(),
    }
}

/// Whether `name`, in lower case, holds the name of the key-value store.
fn names_store(name: &str) -> (r: bool)
    ensures
        r == contains(lowercase(name@), "redis"@),
{
    let lowered = to_lowercase(name);
    text_contains(lowered.as_str(), "redis")
}

/// Why `cmd` is turned down before the registry is looked at, if it is.
fn refuse(cmd: &Command, world: &World) -> (r: Option<Error>)
    ensures
        match r {
            Some(e) => refusal(cmd@, world@) == Some(e@),
            None => refusal(cmd@, world@) is None,
        },
{
    match cmd {
        Command::Add { name, .. } => {
            if !world.is_dir {
                Some(Error::InvalidServerPath)
            } else if names_store(name.as_str()) {
                Some(Error::ReservedName)
            } else {
                None
            }
        },
        Command::Redis { .. } => {
            if !world.is_dir {
                Some(Error::InvalidStorePath)
            } else {
                None
            }
        },
        Command::Visualize { name, .. } => {
            if names_store(name.as_str()) {
                Some(Error::VisualizationUnsupported)
            } else {
                None
            }
        },
        _ => None,
    }
}

/// Puts an answer of the registry that carries a snapshot as the end of a
/// command.
fn saved(step: Step<Servers>, reply: Reply) -> (r: Step<Answer>)
    ensures
        r@ == answered(
            step@,
            |snapshot: Seq<ServerView>| AnswerView { reply: reply@, snapshot: Some(snapshot) },
        ),
{
    match step {
        Step::Run(action) => Step::Run(action),
        Step::Done(Err(e)) => Step::Done(Err(e)),
        Step::Done(Ok(snapshot)) => Step::Done(Ok(Answer { reply, snapshot: Some(snapshot) })),
    }
}

/// Puts the answer to an offer as the end of a command.
fn offer(registry: &mut Servers, server: Server) -> (r: Step<Answer>)
    ensures
        r@ == offered(old(registry)@, server@),
        final(registry)@ == added(old(registry)@, server@),
        unique(old(registry)@) ==> unique(final(registry)@),
{
    match registry.add_server(server) {
        Ok(snapshot) => Step::Done(Ok(Answer { reply: Reply::Added, snapshot: Some(snapshot) })),
        Err(e) => Step::Done(Err(e)),
    }
}

/// Carries `cmd` out on `registry`.
fn carry_out(registry: &mut Servers, cmd: &Command, world: &World, reports: &[Report]) -> (step:
    Step<Answer>)
    ensures
        (step@, final(registry)@) == carried_out(
            old(registry)@,
            cmd@,
            world@,
            report_views(reports@),
        ),
        unique(old(registry)@) ==> unique(final(registry)@),
{
    match cmd {
        Command::Add { name, framework, path, workers, bind, port, timeout, log_path } => {
            let server = Server {
                name: name.clone(),
                path: path.clone(),
                bind: bind.clone(),
                port: *port,
                workers: *workers,
                timeout: *timeout,
                log_path: log_directory(log_path, path),
                github: world.in_work_tree,
                running: false,
                framework: framework.clone(),
                original_dir: world.current_dir.clone(),
            };
            offer(registry, server)
        },
        Command::Redis { path, bind, port, log_path } => {
            let server = Server {
                name: registry.next_store_name(),
                path: path.clone(),
                bind: bind.clone(),
                port: *port,
                workers: 1,
                timeout: 30,
                log_path: log_directory(log_path, path),
                github: world.in_work_tree,
                running: false,
                framework: String::from_str("redis"),
                original_dir: world.current_dir.clone(),
            };
            offer(registry, server)
        },
        Command::Remove { name } => {
            match registry.remove_server(name.as_str(), reports) {
                Step::Run(action) => Step::Run(action),
                Step::Done(Err(e)) => Step::Done(Err(e)),
                Step::Done(Ok(removal)) => Step::Done(
                    Ok(
                        Answer {
                            reply: Reply::Removed { stop_error: removal.stop_error },
                            snapshot: Some(removal.snapshot),
                        },
                    ),
                ),
            }
        },
        Command::Start { name } => saved(
            registry.start_server(name.as_str(), &world.site, reports),
            Reply::Started,
        ),
        Command::Stop { name } => saved(registry.stop_server(name.as_str(), reports), Reply::Stopped),
        Command::Restart { name } => saved(
            registry.restart_server(name.as_str(), &world.site, reports),
            Reply::Restarted,
        ),
        Command::Update { name } => {
            match registry.update(name.as_str(), &world.site, reports) {
                Step::Run(action) => Step::Run(action),
                Step::Done(Err(e)) => Step::Done(Err(e)),
                Step::Done(Ok((rebuilt, snapshot))) => Step::Done(
                    Ok(Answer { reply: Reply::Updated { rebuilt }, snapshot: Some(snapshot) }),
                ),
            }
        },
        Command::GitInit { name } => {
            match registry.git_init(name.as_str(), reports) {
                Step::Run(action) => Step::Run(action),
                Step::Done(Err(e)) => Step::Done(Err(e)),
                Step::Done(Ok((initialized, snapshot))) => Step::Done(
                    Ok(
                        Answer {
                            reply: Reply::RepositoryReady { initialized },
                            snapshot: Some(snapshot),
                        },
                    ),
                ),
            }
        },
        Command::AddOrigin { name, remote_url } => {
            match registry.add_origin(name.as_str(), remote_url.as_str(), reports) {
                Step::Run(action) => Step::Run(action),
                Step::Done(Err(e)) => Step::Done(Err(e)),
                Step::Done(Ok(())) => Step::Done(
                    Ok(Answer { reply: Reply::OriginAdded, snapshot: None }),
                ),
            }
        },
        Command::Monitor { name } => {
            match registry.monitor(name.as_str(), &world.site, reports) {
                Step::Run(action) => Step::Run(action),
                Step::Done(Err(e)) => Step::Done(Err(e)),
                Step::Done(Ok(text)) => Step::Done(
                    Ok(Answer { reply: Reply::Log { text }, snapshot: None }),
                ),
            }
        },
        Command::ClearLogs { name } => {
            match registry.clear_logs(name.as_str(), &world.site, reports) {
                Step::Run(action) => Step::Run(action),
                Step::Done(Err(e)) => Step::Done(Err(e)),
                Step::Done(Ok(())) => Step::Done(
                    Ok(Answer { reply: Reply::LogsCleared, snapshot: None }),
                ),
            }
        },
        Command::Visualize { name, show } => {
            match registry.visualize(name.as_str(), show, &world.site, reports) {
                Step::Run(action) => Step::Run(action),
                Step::Done(Err(e)) => Step::Done(Err(e)),
                Step::Done(Ok((output, errors))) => Step::Done(
                    Ok(Answer { reply: Reply::Visualized { output, errors }, snapshot: None }),
                ),
            }
        },
        Command::List => Step::Done(
            Ok(Answer { reply: Reply::Listing { lines: registry.list_all() }, snapshot: None }),
        ),
        Command::Flush => {
            match registry.flush(reports) {
                Step::Run(action) => Step::Run(action),
                Step::Done(Err(e)) => Step::Done(Err(e)),
                Step::Done(Ok(end)) => Step::Done(
                    Ok(
                        Answer {
                            reply: Reply::Flushed { failures: end.failures },
                            snapshot: Some(end.snapshot),
                        },
                    ),
                ),
            }
        },
        Command::Hardware => Step::Done(Ok(Answer { reply: Reply::HardwareShown, snapshot: None })),
    }
}

impl ServerManager {
    /// A supervisor with an empty registry and no command.
    pub fn new() -> (r: ServerManager)
        ensures
            r@ == (ManagerView { servers: Some(Seq::<ServerView>::empty()), cmd: None }),
            r@.keeps_apart(),
    {
        ServerManager { servers: Some(Servers::new()), cmd: None }
    }

    /// Carries out the command at hand, as far as the reports allow. With
    /// too few reports nothing changes, and the answer is the next action
    /// for the host; the command at hand stays in either case.
    pub fn execute(&mut self, world: &World, reports: &[Report]) -> (step: Step<Answer>)
        ensures
            (step@, final(self)@.servers) == executed(old(self)@, world@, report_views(reports@)),
            final(self)@.cmd == old(self)@.cmd,
            old(self)@.keeps_apart() ==> final(self)@.keeps_apart(),
    {
        match &self.cmd {
            None => Step::Done(Ok(Answer { reply: Reply::NoCommand, snapshot: None })),
            Some(Command::Hardware) => {
                if reports.len() == 0 {
                    Step::Run(Action::ShowHardware)
                } else {
                    Step::Done(Ok(Answer { reply: Reply::HardwareShown, snapshot: None }))
                }
            },
            Some(cmd) => match refuse(cmd, world) {
                Some(e) => Step::Done(Err(e)),
                None => match &mut self.servers {
                    None => Step::Done(Ok(Answer { reply: Reply::NoRegistry, snapshot: None })),
                    Some(registry) => carry_out(registry, cmd, world, reports),
                },
            },
        }
    }
}

/// While a command waits for the host, the registry is as it was: the
/// command can be given again with one more report.
pub proof fn lemma_command_waits_unchanged(
    m: ManagerView,
    world: WorldView,
    reports: Seq<ReportView>,
)
    ensures
        executed(m, world, reports).0 is Run ==> executed(m, world, reports).1 == m.servers,
{
    if m.cmd is Some && m.servers is Some {
        let servers = m.servers.unwrap();
        match m.cmd.unwrap() {
            CommandView::Remove { name } => {
                lemma_registry_waits_unchanged(servers, name, world.site, reports);
            },
            CommandView::Start { name } => {
                lemma_registry_waits_unchanged(servers, name, world.site, reports);
            },
            CommandView::Stop { name } => {
                lemma_registry_waits_unchanged(servers, name, world.site, reports);
            },
            CommandView::Restart { name } => {
                lemma_registry_waits_unchanged(servers, name, world.site, reports);
            },
            CommandView::Flush => {
                lemma_registry_waits_unchanged(servers, Seq::empty(), world.site, reports);
            },
            _ => {},
        }
    }
}

} // verus!
