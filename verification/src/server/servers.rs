//! The registry: the ordered collection of managed servers, the rules on
//! what may enter it, and the operations that are addressed by name.

use vstd::prelude::*;
use vstd::slice::slice_subrange;
use vstd::string::*;
use crate::error::{outcome, Error, ErrorView};
use crate::host::{
    report_views, Action, ActionView, Invocation, InvocationView, Report, ReportView, Site,
    SiteView, Step, StepView,
};
use crate::server::laws::{
    lemma_add_keeps_unique, lemma_flush_keeps_unique, lemma_lifecycle_keeps_claims,
    lemma_position, lemma_remove_keeps_unique, lemma_swept_waits, lemma_update_keeps_unique,
};
use crate::server::server::{Server, ServerView};
use crate::text::{decimal, decimal_string};

verus! {

/// The registry of managed servers.
#[derive(Debug)]
pub struct Servers {
    /// The entries, in the order in which they were added.
    pub servers: Vec<Server>,
}

impl View for Servers {
    type V = Seq<ServerView>;

    open spec fn view(&self) -> Seq<ServerView> {
        self.servers@.map_values(|s: Server| s@)
    }
}

/// What the store held when the supervisor asked for the last snapshot.
pub enum Stored {
    /// Nothing was ever written.
    Absent,
    /// Something was written that cannot be read back; the text says why.
    Unreadable(String),
    /// The snapshot that was written last.
    Snapshot(Servers),
}

/// What a removal gives back: the failure of the stop that went before
/// it, if it failed, and the snapshot to persist.
pub struct Removal {
    pub stop_error: Option<Error>,
    pub snapshot: Servers,
}

/// A removal as contracts speak of it.
pub struct RemovalView {
    pub stop_error: Option<ErrorView>,
    pub snapshot: Seq<ServerView>,
}

impl View for Removal {
    type V = RemovalView;

    open spec fn view(&self) -> RemovalView {
        RemovalView {
            stop_error: match self.stop_error {
                Some(e) => Some(e@),
                None => None,
            },
            snapshot: self.snapshot@,
        }
    }
}

/// What a flush gives back: one line for each entry that could not be
/// stopped, and the snapshot to persist.
pub struct Flushed {
    pub failures: Vec<String>,
    pub snapshot: Servers,
}

/// The end of a flush as contracts speak of it.
pub struct FlushedView {
    pub failures: Seq<Seq<char>>,
    pub snapshot: Seq<ServerView>,
}

impl View for Flushed {
    type V = FlushedView;

    open spec fn view(&self) -> FlushedView {
        FlushedView {
            failures: self.failures@.map_values(|line: String| line@),
            snapshot: self.snapshot@,
        }
    }
}

/// How far a flush has come: the entries it keeps, the lines it has
/// written, the number of reports it has read, and the action it waits
/// for, if it waits.
pub struct Sweep {
    pub kept: Seq<ServerView>,
    pub failures: Seq<Seq<char>>,
    pub used: nat,
    pub pending: Option<ActionView>,
}

/// Some entry is called `name`.
pub open spec fn has_name(servers: Seq<ServerView>, name: Seq<char>) -> bool {
    exists|i: int| 0 <= i < servers.len() && (#[trigger] servers[i]).name == name
}

/// Some entry is at `path`.
pub open spec fn has_path(servers: Seq<ServerView>, path: Seq<char>) -> bool {
    exists|i: int| 0 <= i < servers.len() && (#[trigger] servers[i]).path == path
}

/// Some entry claims `port`.
pub open spec fn has_port(servers: Seq<ServerView>, port: u32) -> bool {
    exists|i: int| 0 <= i < servers.len() && (#[trigger] servers[i]).port == port
}

/// No two entries share a name, a path or a port.
pub open spec fn unique(servers: Seq<ServerView>) -> bool {
    forall|i: int, j: int|
        0 <= i < j < servers.len() ==> {
            &&& (#[trigger] servers[i]).name != (#[trigger] servers[j]).name
            &&& servers[i].path != servers[j].path
            &&& servers[i].port != servers[j].port
        }
}

/// Two entries claim the same name, path and port.
pub open spec fn same_claims(a: ServerView, b: ServerView) -> bool {
    a.name == b.name && a.path == b.path && a.port == b.port
}

/// Entry `i` is the first that is called `name`.
pub open spec fn is_first_named(servers: Seq<ServerView>, name: Seq<char>, i: int) -> bool {
    &&& 0 <= i < servers.len()
    &&& servers[i].name == name
    &&& forall|j: int| 0 <= j < i ==> (#[trigger] servers[j]).name != name
}

/// The place of the first entry called `name`.
pub open spec fn position(servers: Seq<ServerView>, name: Seq<char>) -> Option<int> {
    if has_name(servers, name) {
        Some(choose|i: int| is_first_named(servers, name, i))
    } else {
        None
    }
}

/// Why `s` may not enter `servers`, if it may not: its name is taken, or
/// else its path, or else its port.
pub open spec fn add_error(servers: Seq<ServerView>, s: ServerView) -> Option<ErrorView> {
    if has_name(servers, s.name) {
        Some(ErrorView::DuplicateName)
    } else if has_path(servers, s.path) {
        Some(ErrorView::DuplicatePath)
    } else if has_port(servers, s.port) {
        Some(ErrorView::DuplicatePort)
    } else {
        None
    }
}

/// The registry after an attempt to add `s`: `s` is appended if it may
/// enter, and nothing changes if it may not.
pub open spec fn added(servers: Seq<ServerView>, s: ServerView) -> Seq<ServerView> {
    if add_error(servers, s) is None {
        servers.push(s)
    } else {
        servers
    }
}

/// The registry after a look into the store: a snapshot replaces the
/// entries, anything else leaves them.
pub open spec fn restored(servers: Seq<ServerView>, stored: Stored) -> Seq<ServerView> {
    match stored {
        Stored::Snapshot(snapshot) => snapshot@,
        _ => servers,
    }
}

/// What an operation on entry `i` comes to for the registry: the entry is
/// replaced by what the operation made of it, and an operation that
/// succeeded answers with the snapshot to persist.
pub open spec fn settled(servers: Seq<ServerView>, i: int, step: StepView<()>, entry: ServerView) -> (
    StepView<Seq<ServerView>>,
    Seq<ServerView>,
) {
    let after = servers.update(i, entry);
    match step {
        StepView::Run(action) => (StepView::Run(action), after),
        StepView::Done(Err(e)) => (StepView::Done(Err(e)), after),
        StepView::Done(Ok(_)) => (StepView::Done(Ok(after)), after),
    }
}

/// Starting by name: `NotFound` without an entry of that name; else the
/// start of the first such entry.
pub open spec fn started(
    servers: Seq<ServerView>,
    name: Seq<char>,
    site: SiteView,
    reports: Seq<ReportView>,
) -> (StepView<Seq<ServerView>>, Seq<ServerView>) {
    match position(servers, name) {
        None => (StepView::Done(Err(ErrorView::NotFound)), servers),
        Some(i) => {
            let (step, entry) = servers[i].start(site, reports);
            settled(servers, i, step, entry)
        },
    }
}

/// Stopping by name: `NotFound` without an entry of that name; else the
/// stop of the first such entry.
pub open spec fn stopped(servers: Seq<ServerView>, name: Seq<char>, reports: Seq<ReportView>) -> (
    StepView<Seq<ServerView>>,
    Seq<ServerView>,
) {
    match position(servers, name) {
        None => (StepView::Done(Err(ErrorView::NotFound)), servers),
        Some(i) => {
            let (step, entry) = servers[i].stop(reports);
            settled(servers, i, step, entry)
        },
    }
}

/// Restarting by name: `NotFound` without an entry of that name; else the
/// restart of the first such entry.
pub open spec fn restarted(
    servers: Seq<ServerView>,
    name: Seq<char>,
    site: SiteView,
    reports: Seq<ReportView>,
) -> (StepView<Seq<ServerView>>, Seq<ServerView>) {
    match position(servers, name) {
        None => (StepView::Done(Err(ErrorView::NotFound)), servers),
        Some(i) => {
            let (step, entry) = servers[i].restart(site, reports);
            settled(servers, i, step, entry)
        },
    }
}

/// Removing by name: `NotFound` without an entry of that name; else the
/// first such entry is stopped, and once the stop is complete the entry
/// leaves the registry, whether the stop succeeded or not.
pub open spec fn removed(servers: Seq<ServerView>, name: Seq<char>, reports: Seq<ReportView>) -> (
    StepView<RemovalView>,
    Seq<ServerView>,
) {
    match position(servers, name) {
        None => (StepView::Done(Err(ErrorView::NotFound)), servers),
        Some(i) => match servers[i].stop(reports).0 {
            StepView::Run(action) => (StepView::Run(action), servers),
            StepView::Done(result) => {
                let after = servers.remove(i);
                (
                    StepView::Done(
                        Ok(
                            RemovalView {
                                stop_error: match result {
                                    Ok(_) => None,
                                    Err(e) => Some(e),
                                },
                                snapshot: after,
                            },
                        ),
                    ),
                    after,
                )
            },
        },
    }
}

/// The line that reports that the entry called `name` could not be
/// stopped.
pub open spec fn failure_line(name: Seq<char>, e: ErrorView) -> Seq<char> {
    "Failed to stop server "@ + name + ": "@ + e.message()
}

/// A flush after its first `n` entries. The entries are stopped in order,
/// each running entry reading the next report. An entry that is stopped,
/// or was not running, is dropped; an entry whose stop failed is kept and
/// gets a line; at the first entry that finds no report the flush waits
/// for that entry's stop.
pub open spec fn swept(servers: Seq<ServerView>, reports: Seq<ReportView>, n: nat) -> Sweep
    decreases n,
{
    if n == 0 {
        Sweep { kept: Seq::empty(), failures: Seq::empty(), used: 0, pending: None }
    } else {
        let before = swept(servers, reports, (n - 1) as nat);
        let entry = servers[n - 1];
        if before.pending is Some {
            before
        } else {
            match entry.stop(reports.skip(before.used as int)).0 {
                StepView::Run(action) => Sweep { pending: Some(action), ..before },
                StepView::Done(Ok(_)) => Sweep {
                    used: if entry.running {
                        before.used + 1
                    } else {
                        before.used
                    },
                    ..before
                },
                StepView::Done(Err(e)) => Sweep {
                    kept: before.kept.push(entry),
                    failures: before.failures.push(failure_line(entry.name, e)),
                    used: before.used + 1,
                    pending: None,
                },
            }
        }
    }
}

/// Flushing: while the flush waits for a stop, nothing changes; once every
/// entry has been dealt with, only the entries whose stop failed remain.
pub open spec fn flushed(servers: Seq<ServerView>, reports: Seq<ReportView>) -> (
    StepView<FlushedView>,
    Seq<ServerView>,
) {
    let end = swept(servers, reports, servers.len());
    match end.pending {
        Some(action) => (StepView::Run(action), servers),
        None => (
            StepView::Done(Ok(FlushedView { failures: end.failures, snapshot: end.kept })),
            end.kept,
        ),
    }
}

/// The line that shows one entry in a listing.
pub open spec fn summary(s: ServerView) -> Seq<char> {
    "["@ + (if s.running {
        "*"@
    } else {
        " "@
    }) + "] Name: "@ + s.name + " | Address: "@ + s.bind + ":"@ + decimal(s.port as nat)
        + " | Workers: "@ + decimal(s.workers as nat) + " | Timeout: "@ + decimal(
        s.timeout as nat,
    ) + "s | Log Path: "@ + s.log_path + " |"@
}

/// Reading a log by name.
pub open spec fn monitored(
    servers: Seq<ServerView>,
    name: Seq<char>,
    site: SiteView,
    reports: Seq<ReportView>,
) -> StepView<Seq<char>> {
    match position(servers, name) {
        None => StepView::Done(Err(ErrorView::NotFound)),
        Some(i) => servers[i].monitor(site, reports),
    }
}

/// Emptying a log by name.
pub open spec fn cleared(
    servers: Seq<ServerView>,
    name: Seq<char>,
    site: SiteView,
    reports: Seq<ReportView>,
) -> StepView<()> {
    match position(servers, name) {
        None => StepView::Done(Err(ErrorView::NotFound)),
        Some(i) => servers[i].clear_logs(site, reports),
    }
}

/// The invocation that draws the log of `s`: the plotting script, the
/// log file in the server's directory, and whether to show the plot.
pub open spec fn visualize_invocation(s: ServerView, show: bool) -> InvocationView {
    InvocationView {
        program: "python"@,
        args: seq![
            "scripts/main.py"@,
            s.path + "/server.log"@,
            if show {
                "True"@
            } else {
                "False"@
            },
        ],
        dir: s.original_dir,
    }
}

/// Visualizing by name: `NotFound` without an entry of that name;
/// `LogFileUnavailable` where the entry's directory holds no log; else
/// the host is asked to run the plotting script, and what the script
/// printed, on its output and on its error stream, is the answer.
pub open spec fn visualized(
    servers: Seq<ServerView>,
    name: Seq<char>,
    show: bool,
    site: SiteView,
    reports: Seq<ReportView>,
) -> StepView<(Seq<char>, Seq<char>)> {
    match position(servers, name) {
        None => StepView::Done(Err(ErrorView::NotFound)),
        Some(i) => if !site.has("server.log"@) {
            StepView::Done(Err(ErrorView::LogFileUnavailable))
        } else if reports.len() == 0 {
            StepView::Run(ActionView::Execute(visualize_invocation(servers[i], show)))
        } else if reports[0].success {
            StepView::Done(Ok((reports[0].stdout, reports[0].stderr)))
        } else {
            StepView::Done(Err(ErrorView::VisualizationFailed { stderr: reports[0].stderr }))
        },
    }
}

/// Setting a remote origin by name.
pub open spec fn origin_added(
    servers: Seq<ServerView>,
    name: Seq<char>,
    remote_url: Seq<char>,
    reports: Seq<ReportView>,
) -> StepView<()> {
    match position(servers, name) {
        None => StepView::Done(Err(ErrorView::NotFound)),
        Some(i) => servers[i].git_set_origin(remote_url, reports),
    }
}

/// An answer of an entry together with the snapshot to persist.
pub open spec fn with_snapshot(step: StepView<bool>, servers: Seq<ServerView>) -> StepView<
    (bool, Seq<ServerView>),
> {
    match step {
        StepView::Run(action) => StepView::Run(action),
        StepView::Done(Err(e)) => StepView::Done(Err(e)),
        StepView::Done(Ok(done)) => StepView::Done(Ok((done, servers))),
    }
}

/// Updating by name.
pub open spec fn updated(
    servers: Seq<ServerView>,
    name: Seq<char>,
    site: SiteView,
    reports: Seq<ReportView>,
) -> StepView<(bool, Seq<ServerView>)> {
    match position(servers, name) {
        None => StepView::Done(Err(ErrorView::NotFound)),
        Some(i) => with_snapshot(servers[i].update(site, reports), servers),
    }
}

/// Making a repository by name.
pub open spec fn initialized(
    servers: Seq<ServerView>,
    name: Seq<char>,
    reports: Seq<ReportView>,
) -> StepView<(bool, Seq<ServerView>)> {
    match position(servers, name) {
        None => StepView::Done(Err(ErrorView::NotFound)),
        Some(i) => with_snapshot(servers[i].git_init(reports), servers),
    }
}

impl Clone for Servers {
    fn clone(&self) -> (r: Self)
        ensures
            r@ == self@,
    {
        let mut servers: Vec<Server> = Vec::new();
        let mut i: usize = 0;
        while i < self.servers.len()
            invariant
                i <= self.servers.len(),
                servers.len() == i,
                forall|j: int| 0 <= j < i ==> servers[j]@ == self.servers[j]@,
            decreases self.servers.len() - i,
        {
            servers.push(self.servers[i].clone());
            i += 1;
        }
        let r = Servers { servers };
        r
    }
}

impl Servers {
    /// An empty registry.
    pub fn new() -> (r: Self)
        ensures
            r@ == Seq::<ServerView>::empty(),
            unique(r@),
    {
        let r = Servers { servers: Vec::new() };
        r
    }

    /// The number of entries.
    pub fn num_servers(&self) -> (n: usize)
        ensures
            n == self@.len(),
    {
        self.servers.len()
    }

    /// The place of the first entry called `name`.
    pub fn index_of(&self, name: &str) -> (r: Option<usize>)
        ensures
            match r {
                Some(i) => position(self@, name@) == Some(i as int) && i < self.servers.len(),
                None => position(self@, name@) is None,
            },
    {
        let key = String::from_str(name);
        let mut i: usize = 0;
        while i < self.servers.len()
            invariant
                i <= self.servers.len(),
                key@ == name@,
                forall|j: int| 0 <= j < i ==> (#[trigger] self@[j]).name != name@,
            decreases self.servers.len() - i,
        {
            if self.servers[i].name == key {
                proof {
                    lemma_position(self@, name@, i as int);
                }
                return Some(i);
            }
            i += 1;
        }
        None
    }

    /// The first entry called `name`.
    pub fn fetch_server(&self, name: &str) -> (r: Option<&Server>)
        ensures
            match r {
                Some(s) => position(self@, name@) is Some && s@ == self@[position(
                    self@,
                    name@,
                ).unwrap()],
                None => position(self@, name@) is None,
            },
    {
        match self.index_of(name) {
            Some(i) => Some(&self.servers[i]),
            None => None,
        }
    }

    /// Whether some entry is called `name`.
    pub fn name_exists(&self, name: &str) -> (r: bool)
        ensures
            r == has_name(self@, name@),
    {
        self.index_of(name).is_some()
    }

    /// Whether some entry is at `path`.
    pub fn path_exists(&self, path: &str) -> (r: bool)
        ensures
            r == has_path(self@, path@),
    {
        let key = String::from_str(path);
        let mut i: usize = 0;
        while i < self.servers.len()
            invariant
                i <= self.servers.len(),
                key@ == path@,
                forall|j: int| 0 <= j < i ==> (#[trigger] self@[j]).path != path@,
            decreases self.servers.len() - i,
        {
            if self.servers[i].path == key {
                assert(self@[i as int].path == path@);
                return true;
            }
            i += 1;
        }
        false
    }

    /// Whether some entry claims `port`.
    pub fn port_exists(&self, port: u32) -> (r: bool)
        ensures
            r == has_port(self@, port),
    {
        let mut i: usize = 0;
        while i < self.servers.len()
            invariant
                i <= self.servers.len(),
                forall|j: int| 0 <= j < i ==> (#[trigger] self@[j]).port != port,
            decreases self.servers.len() - i,
        {
            if self.servers[i].port == port {
                assert(self@[i as int].port == port);
                return true;
            }
            i += 1;
        }
        false
    }

    /// The snapshot of the registry: every entry, with every field.
    pub fn backup(&self) -> (snapshot: Servers)
        ensures
            snapshot@ == self@,
    {
        self.clone()
    }

    /// Takes over what the store held. A snapshot replaces the entries; an
    /// empty store leaves them as they are, which on a first run is empty;
    /// a store that cannot be read is an error and changes nothing.
    pub fn restore(&mut self, stored: Stored) -> (r: Result<(), Error>)
        ensures
            final(self)@ == restored(old(self)@, stored),
            match stored {
                Stored::Unreadable(reason) => outcome(r) == Err::<(), ErrorView>(
                    ErrorView::DeserializationFailed { reason: reason@ },
                ),
                _ => r is Ok,
            },
    {
        match stored {
            Stored::Absent => Ok(()),
            Stored::Unreadable(reason) => Err(Error::DeserializationFailed { reason }),
            Stored::Snapshot(snapshot) => {
                self.servers = snapshot.servers;
                Ok(())
            },
        }
    }

    /// Adds a server. Refused with `DuplicateName`, `DuplicatePath` or
    /// `DuplicatePort`, in that order, where an entry already has the
    /// server's name, path or port; else the server becomes the last entry
    /// and the answer is the snapshot to persist.
    pub fn add_server(&mut self, new_server: Server) -> (r: Result<Servers, Error>)
        ensures
            final(self)@ == added(old(self)@, new_server@),
            match r {
                Ok(snapshot) => {
                    &&& add_error(old(self)@, new_server@) is None
                    &&& snapshot@ == final(self)@
                },
                Err(e) => add_error(old(self)@, new_server@) == Some(e@),
            },
            unique(old(self)@) ==> unique(final(self)@),
    {
        if self.name_exists(new_server.name.as_str()) {
            return Err(Error::DuplicateName);
        }
        if self.path_exists(new_server.path.as_str()) {
            return Err(Error::DuplicatePath);
        }
        if self.port_exists(new_server.port) {
            return Err(Error::DuplicatePort);
        }
        self.servers.push(new_server);
        proof {
            if unique(old(self)@) {
                lemma_add_keeps_unique(old(self)@, new_server@);
            }
        }
        Ok(self.backup())
    }

    /// Attaches the snapshot to persist to an answer of success.
    fn sealed(&self, step: Step<()>) -> (r: Step<Servers>)
        ensures
            r@ == match step@ {
                StepView::Run(action) => StepView::<Seq<ServerView>>::Run(action),
                StepView::Done(Err(e)) => StepView::Done(Err(e)),
                StepView::Done(Ok(_)) => StepView::Done(Ok(self@)),
            },
    {
        match step {
            Step::Run(action) => Step::Run(action),
            Step::Done(Err(e)) => Step::Done(Err(e)),
            Step::Done(Ok(())) => Step::Done(Ok(self.backup())),
        }
    }

    /// Attaches the snapshot to persist to an answer of success.
    fn sealed_with(&self, step: Step<bool>) -> (r: Step<(bool, Servers)>)
        ensures
            r@ == with_snapshot(step@, self@),
    {
        match step {
            Step::Run(action) => Step::Run(action),
            Step::Done(Err(e)) => Step::Done(Err(e)),
            Step::Done(Ok(done)) => Step::Done(Ok((done, self.backup()))),
        }
    }

    /// Starts the first entry called `name`; `NotFound` if there is none.
    /// A start that succeeded answers with the snapshot to persist.
    pub fn start_server(&mut self, name: &str, site: &Site, reports: &[Report]) -> (step: Step<
        Servers,
    >)
        ensures
            (step@, final(self)@) == started(old(self)@, name@, site@, report_views(reports@)),
            unique(old(self)@) ==> unique(final(self)@),
    {
        match self.index_of(name) {
            None => Step::Done(Err(Error::NotFound)),
            Some(i) => {
                let step = self.servers[i].start(site, reports);
                proof {
                    assert(self@ =~= old(self)@.update(i as int, self.servers[i as int]@));
                    lemma_lifecycle_keeps_claims(old(self)@[i as int], site@, report_views(reports@));
                    if unique(old(self)@) {
                        lemma_update_keeps_unique(old(self)@, i as int, self.servers[i as int]@);
                    }
                }
                self.sealed(step)
            },
        }
    }

    /// Stops the first entry called `name`; `NotFound` if there is none.
    /// A stop that succeeded answers with the snapshot to persist.
    pub fn stop_server(&mut self, name: &str, reports: &[Report]) -> (step: Step<Servers>)
        ensures
            (step@, final(self)@) == stopped(old(self)@, name@, report_views(reports@)),
            unique(old(self)@) ==> unique(final(self)@),
    {
        match self.index_of(name) {
            None => Step::Done(Err(Error::NotFound)),
            Some(i) => {
                let step = self.servers[i].stop(reports);
                proof {
                    assert(self@ =~= old(self)@.update(i as int, self.servers[i as int]@));
                    if unique(old(self)@) {
                        lemma_update_keeps_unique(old(self)@, i as int, self.servers[i as int]@);
                    }
                }
                self.sealed(step)
            },
        }
    }

    /// Restarts the first entry called `name`; `NotFound` if there is
    /// none. A restart that succeeded answers with the snapshot to persist.
    pub fn restart_server(&mut self, name: &str, site: &Site, reports: &[Report]) -> (step: Step<
        Servers,
    >)
        ensures
            (step@, final(self)@) == restarted(old(self)@, name@, site@, report_views(reports@)),
            unique(old(self)@) ==> unique(final(self)@),
    {
        match self.index_of(name) {
            None => Step::Done(Err(Error::NotFound)),
            Some(i) => {
                let step = self.servers[i].restart(site, reports);
                proof {
                    assert(self@ =~= old(self)@.update(i as int, self.servers[i as int]@));
                    lemma_lifecycle_keeps_claims(old(self)@[i as int], site@, report_views(reports@));
                    if unique(old(self)@) {
                        lemma_update_keeps_unique(old(self)@, i as int, self.servers[i as int]@);
                    }
                }
                self.sealed(step)
            },
        }
    }

    /// Removes the first entry called `name`; `NotFound` if there is none.
    /// The entry is stopped first. A stop that failed does not keep the
    /// entry: it leaves all the same, and the failure is handed back with
    /// the snapshot to persist.
    pub fn remove_server(&mut self, name: &str, reports: &[Report]) -> (step: Step<Removal>)
        ensures
            (step@, final(self)@) == removed(old(self)@, name@, report_views(reports@)),
            unique(old(self)@) ==> unique(final(self)@),
    {
        match self.index_of(name) {
            None => Step::Done(Err(Error::NotFound)),
            Some(i) => {
                let step = self.servers[i].stop(reports);
                match step {
                    Step::Run(action) => Step::Run(action),
                    Step::Done(result) => {
                        self.servers.remove(i);
                        proof {
                            assert(self@ =~= old(self)@.remove(i as int));
                            if unique(old(self)@) {
                                lemma_remove_keeps_unique(old(self)@, i as int);
                            }
                        }
                        let stop_error = match result {
                            Ok(()) => None,
                            Err(e) => Some(e),
                        };
                        Step::Done(Ok(Removal { stop_error, snapshot: self.backup() }))
                    },
                }
            },
        }
    }

    /// Writes the line that reports that `entry` could not be stopped.
    fn failure(entry: &Server, e: &Error) -> (line: String)
        ensures
            line@ == failure_line(entry@.name, e@),
    {
        let mut line = String::from_str("Failed to stop server ");
        line.append(entry.name.as_str());
        line.append(": ");
        line.append(e.message().as_str());
        line
    }

    /// Stops every entry and removes those that stopped. The reports are
    /// those of the stops of the running entries, in the order of the
    /// entries. An entry whose stop failed stays, and a line says why; the
    /// other entries are not held up by it. The answer carries the lines
    /// and the snapshot to persist.
    pub fn flush(&mut self, reports: &[Report]) -> (step: Step<Flushed>)
        ensures
            (step@, final(self)@) == flushed(old(self)@, report_views(reports@)),
            unique(old(self)@) ==> unique(final(self)@),
    {
        let ghost seen = report_views(reports@);
        let mut kept: Vec<Server> = Vec::new();
        let mut failures: Vec<String> = Vec::new();
        let mut used: usize = 0;
        let mut i: usize = 0;
        assert(kept@.map_values(|s: Server| s@) =~= Seq::<ServerView>::empty());
        assert(failures@.map_values(|line: String| line@) =~= Seq::<Seq<char>>::empty());
        while i < self.servers.len()
            invariant
                i <= self.servers.len(),
                used <= reports.len(),
                seen == report_views(reports@),
                self@ == old(self)@,
                swept(self@, seen, i as nat) == (Sweep {
                    kept: kept@.map_values(|s: Server| s@),
                    failures: failures@.map_values(|line: String| line@),
                    used: used as nat,
                    pending: None,
                }),
            decreases self.servers.len() - i,
        {
            let ghost before = swept(self@, seen, i as nat);
            let mut entry = self.servers[i].clone();
            let was_running = entry.running;
            let rest = slice_subrange(reports, used, reports.len());
            match entry.stop(rest) {
                Step::Run(action) => {
                    proof {
                        lemma_swept_waits(self@, seen, (i + 1) as nat, self@.len());
                    }
                    return Step::Run(action);
                },
                Step::Done(Ok(())) => {
                    if was_running {
                        used += 1;
                    }
                },
                Step::Done(Err(e)) => {
                    failures.push(Self::failure(&entry, &e));
                    kept.push(entry);
                    used += 1;
                    assert(kept@.map_values(|s: Server| s@) =~= before.kept.push(self@[i as int]));
                    assert(failures@.map_values(|line: String| line@) =~= before.failures.push(
                        failure_line(self@[i as int].name, e@),
                    ));
                },
            }
            i += 1;
        }
        proof {
            if unique(old(self)@) {
                lemma_flush_keeps_unique(old(self)@, seen, old(self)@.len());
            }
        }
        self.servers = kept;
        Step::Done(Ok(Flushed { failures, snapshot: self.backup() }))
    }

    /// Writes the line that shows `entry` in a listing.
    fn summarize(entry: &Server) -> (line: String)
        ensures
            line@ == summary(entry@),
    {
        let mut line = String::from_str("[");
        if entry.running {
            line.append("*");
        } else {
            line.append(" ");
        }
        line.append("] Name: ");
        line.append(entry.name.as_str());
        line.append(" | Address: ");
        line.append(entry.bind.as_str());
        line.append(":");
        line.append(decimal_string(entry.port as u128).as_str());
        line.append(" | Workers: ");
        line.append(decimal_string(entry.workers as u128).as_str());
        line.append(" | Timeout: ");
        line.append(decimal_string(entry.timeout as u128).as_str());
        line.append("s | Log Path: ");
        line.append(entry.log_path.as_str());
        line.append(" |");
        line
    }

    /// The line of the entry at place `index` of the listing, if there is
    /// such an entry. A caller that walks the places from 0 up reads the
    /// listing line by line, and can begin again at any time.
    pub fn summary_at(&self, index: usize) -> (line: Option<String>)
        ensures
            match line {
                Some(text) => index < self@.len() && text@ == summary(self@[index as int]),
                None => index >= self@.len(),
            },
    {
        if index < self.servers.len() {
            Some(Self::summarize(&self.servers[index]))
        } else {
            None
        }
    }

    /// One line for each entry, in the order of the entries: running
    /// marker, name, address, workers, timeout and log directory.
    pub fn list_all(&self) -> (lines: Vec<String>)
        ensures
            lines@.map_values(|line: String| line@) == self@.map_values(|s: ServerView| summary(s)),
    {
        let mut lines: Vec<String> = Vec::new();
        let mut i: usize = 0;
        while i < self.servers.len()
            invariant
                i <= self.servers.len(),
                lines.len() == i,
                forall|j: int| 0 <= j < i ==> lines[j]@ == summary(self@[j]),
            decreases self.servers.len() - i,
        {
            lines.push(Self::summarize(&self.servers[i]));
            i += 1;
        }
        assert(lines@.map_values(|line: String| line@) =~= self@.map_values(
            |s: ServerView| summary(s),
        ));
        lines
    }

    /// Reads the log of the first entry called `name`.
    pub fn monitor(&mut self, name: &str, site: &Site, reports: &[Report]) -> (step: Step<String>)
        ensures
            step@ == monitored(old(self)@, name@, site@, report_views(reports@)),
            final(self)@ == old(self)@,
    {
        match self.index_of(name) {
            None => Step::Done(Err(Error::NotFound)),
            Some(i) => self.servers[i].monitor(site, reports),
        }
    }

    /// Empties the log of the first entry called `name`.
    pub fn clear_logs(&mut self, name: &str, site: &Site, reports: &[Report]) -> (step: Step<()>)
        ensures
            step@ == cleared(old(self)@, name@, site@, report_views(reports@)),
            final(self)@ == old(self)@,
    {
        match self.index_of(name) {
            None => Step::Done(Err(Error::NotFound)),
            Some(i) => self.servers[i].clear_logs(site, reports),
        }
    }

    /// Draws the log of the first entry called `name`. With no report,
    /// answers with the command that runs the plotting script; with the
    /// report of that command, gives what the script printed.
    pub fn visualize(&self, name: &str, show: &bool, site: &Site, reports: &[Report]) -> (step:
        Step<(String, String)>)
        ensures
            step@ == visualized(self@, name@, *show, site@, report_views(reports@)),
    {
        match self.index_of(name) {
            None => Step::Done(Err(Error::NotFound)),
            Some(i) => {
                if !site.has("server.log") {
                    Step::Done(Err(Error::LogFileUnavailable))
                } else if reports.len() == 0 {
                    let entry = &self.servers[i];
                    let mut log = entry.path.clone();
                    log.append("/server.log");
                    let mut args: Vec<String> = Vec::new();
                    args.push(String::from_str("scripts/main.py"));
                    args.push(log);
                    if *show {
                        args.push(String::from_str("True"));
                    } else {
                        args.push(String::from_str("False"));
                    }
                    let invocation = Invocation {
                        program: String::from_str("python"),
                        args,
                        dir: entry.original_dir.clone(),
                    };
                    assert(invocation@.args =~= visualize_invocation(self@[i as int], *show).args);
                    Step::Run(Action::Execute(invocation))
                } else if reports[0].success {
                    Step::Done(Ok((reports[0].stdout.clone(), reports[0].stderr.clone())))
                } else {
                    Step::Done(Err(Error::VisualizationFailed { stderr: reports[0].stderr.clone() }))
                }
            },
        }
    }

    /// Updates the first entry called `name`. An update that succeeded
    /// says whether the project was built again, and answers with the
    /// snapshot to persist.
    pub fn update(&mut self, name: &str, site: &Site, reports: &[Report]) -> (step: Step<
        (bool, Servers),
    >)
        ensures
            step@ == updated(old(self)@, name@, site@, report_views(reports@)),
            final(self)@ == old(self)@,
    {
        match self.index_of(name) {
            None => Step::Done(Err(Error::NotFound)),
            Some(i) => {
                let step = self.servers[i].update(site, reports);
                assert(self@ =~= old(self)@);
                self.sealed_with(step)
            },
        }
    }

    /// Makes the directory of the first entry called `name` a repository.
    /// Success says whether the host had to set one up, and answers with
    /// the snapshot to persist.
    pub fn git_init(&mut self, name: &str, reports: &[Report]) -> (step: Step<(bool, Servers)>)
        ensures
            step@ == initialized(old(self)@, name@, report_views(reports@)),
            final(self)@ == old(self)@,
    {
        match self.index_of(name) {
            None => Step::Done(Err(Error::NotFound)),
            Some(i) => {
                let step = self.servers[i].git_init(reports);
                assert(self@ =~= old(self)@);
                self.sealed_with(step)
            },
        }
    }

    /// Sets the remote origin of the first entry called `name`.
    pub fn add_origin(&mut self, name: &str, remote_url: &str, reports: &[Report]) -> (step: Step<
        (),
    >)
        ensures
            step@ == origin_added(old(self)@, name@, remote_url@, report_views(reports@)),
            final(self)@ == old(self)@,
    {
        match self.index_of(name) {
            None => Step::Done(Err(Error::NotFound)),
            Some(i) => self.servers[i].git_set_origin(remote_url, reports),
        }
    }
}

} // verus!
