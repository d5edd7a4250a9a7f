//! One managed process: its configuration, the supervisor's belief about
//! whether it runs, and its lifecycle.

use vstd::prelude::*;
use vstd::string::*;
use crate::error::{outcome, Error, ErrorView};
use crate::host::{
    report_views, Action, ActionView, Invocation, InvocationView, Report, ReportView, Site, SiteView,
    Step, StepView,
};
use crate::server::gunicorn::{
    gunicorn_halt, gunicorn_launch, shell, shell_invocation, start_gunicorn, stop_gunicorn,
};
use crate::server::redis::{redis_halt, redis_launch, start_redis, stop_redis};
use crate::text::{contains, lowercase, text_contains, to_lowercase};
use crate::utils::rebuild::{
    compiled_files_changed, contains_compiled_files, contains_manifest, manifest_changed,
};
use vstd::slice::slice_subrange;

verus! {

/// One managed process: what it is launched with, and whether the
/// supervisor believes it to be running.
#[derive(Debug)]
pub struct Server {
    /// The name given to the server; the key of every lookup.
    pub name: String,
    /// The directory that holds the application.
    pub path: String,
    /// The address the process binds.
    pub bind: String,
    /// The port the process binds.
    pub port: u32,
    /// The number of workers.
    pub workers: u32,
    /// The worker timeout, in seconds.
    pub timeout: u32,
    /// The directory that receives the log.
    pub log_path: String,
    /// Whether the directory is inside a version-controlled working tree.
    pub github: bool,
    /// Whether the supervisor believes the process to be running.
    pub running: bool,
    /// The application framework.
    pub framework: String,
    /// The directory the supervisor was started in.
    pub original_dir: String,
}

/// A server as contracts speak of it: each text by its characters.
pub struct ServerView {
    pub name: Seq<char>,
    pub path: Seq<char>,
    pub bind: Seq<char>,
    pub port: u32,
    pub workers: u32,
    pub timeout: u32,
    pub log_path: Seq<char>,
    pub github: bool,
    pub running: bool,
    pub framework: Seq<char>,
    pub original_dir: Seq<char>,
}

impl View for Server {
    type V = ServerView;

    open spec fn view(&self) -> ServerView {
        ServerView {
            name: self.name@,
            path: self.path@,
            bind: self.bind@,
            port: self.port,
            workers: self.workers,
            timeout: self.timeout,
            log_path: self.log_path@,
            github: self.github,
            running: self.running,
            framework: self.framework@,
            original_dir: self.original_dir@,
        }
    }
}

impl Clone for Server {
    fn clone(&self) -> (r: Self)
        ensures
            r@ == self@,
    {
        Server {
            name: self.name.clone(),
            path: self.path.clone(),
            bind: self.bind.clone(),
            port: self.port,
            workers: self.workers,
            timeout: self.timeout,
            log_path: self.log_path.clone(),
            github: self.github,
            running: self.running,
            framework: self.framework.clone(),
            original_dir: self.original_dir.clone(),
        }
    }
}

impl ServerView {
    /// The entry is a key-value-store instance: its name, in lower case,
    /// holds the reserved pattern.
    pub open spec fn is_store(self) -> bool {
        contains(lowercase(self.name), "redis-server"@)
    }

    /// The entry can be launched: its directory holds `main.py` or
    /// `app.py`, or it is a key-value-store instance, which needs neither.
    pub open spec fn is_valid(self, site: SiteView) -> bool {
        site.has("main.py"@) || site.has("app.py"@) || self.is_store()
    }

    /// The invocation that launches the entry, by its kind.
    pub open spec fn launch(self, site: SiteView) -> Result<InvocationView, ErrorView> {
        if !self.is_valid(site) {
            Err(ErrorView::InvalidServerDirectory)
        } else if !self.is_store() {
            gunicorn_launch(self, site)
        } else {
            redis_launch(self, site)
        }
    }

    /// The invocation that stops the entry, by its kind.
    pub open spec fn halt(self) -> InvocationView {
        if !self.is_store() {
            gunicorn_halt(self)
        } else {
            redis_halt(self)
        }
    }

    /// Starting: the launch of the entry, carried through.
    pub open spec fn start(self, site: SiteView, reports: Seq<ReportView>) -> (
        StepView<()>,
        ServerView,
    ) {
        launched(self, self.launch(site), reports)
    }

    /// Stopping: nothing to do for an entry that is not running; else the
    /// termination of the entry, carried through.
    pub open spec fn stop(self, reports: Seq<ReportView>) -> (StepView<()>, ServerView) {
        if !self.running {
            (StepView::Done(Ok(())), self)
        } else {
            halted(self, self.halt(), reports)
        }
    }

    /// Restarting: a stop, and after a stop that succeeded, a start with
    /// the reports that the stop left over. Until both are complete
    /// nothing changes; a stop that failed is the answer, and no start is
    /// planned.
    pub open spec fn restart(self, site: SiteView, reports: Seq<ReportView>) -> (
        StepView<()>,
        ServerView,
    ) {
        let (first, stopped) = self.stop(reports);
        match first {
            StepView::Done(Ok(_)) => {
                let rest = if self.running {
                    reports.skip(1)
                } else {
                    reports
                };
                let (second, started) = stopped.start(site, rest);
                match second {
                    StepView::Run(_) => (second, self),
                    StepView::Done(_) => (second, started),
                }
            },
            _ => (first, self),
        }
    }

    /// The command that prints the entry's log.
    pub open spec fn monitor_command(self) -> Seq<char> {
        "cat "@ + self.log_path + "/"@ + self.name + ".log"@
    }

    /// The command that empties the entry's log.
    pub open spec fn clear_command(self) -> Seq<char> {
        "> "@ + self.log_path + "/"@ + self.name + ".log"@
    }

    /// Reading the log: refused for an entry that is not valid; else the
    /// host is asked to print the log, and what it printed is the answer.
    pub open spec fn monitor(self, site: SiteView, reports: Seq<ReportView>) -> StepView<
        Seq<char>,
    > {
        if !self.is_valid(site) {
            StepView::Done(Err(ErrorView::InvalidServerDirectory))
        } else if reports.len() == 0 {
            StepView::Run(ActionView::Execute(shell(self.monitor_command(), self.original_dir)))
        } else if reports[0].success {
            StepView::Done(Ok(reports[0].stdout))
        } else {
            StepView::Done(Err(ErrorView::LogsUnavailable { stderr: reports[0].stderr }))
        }
    }

    /// Emptying the log: refused for an entry that is not valid; else
    /// the host is asked to truncate the log.
    pub open spec fn clear_logs(self, site: SiteView, reports: Seq<ReportView>) -> StepView<()> {
        if !self.is_valid(site) {
            StepView::Done(Err(ErrorView::InvalidServerDirectory))
        } else if reports.len() == 0 {
            StepView::Run(ActionView::Execute(shell(self.clear_command(), self.original_dir)))
        } else if reports[0].success {
            StepView::Done(Ok(()))
        } else {
            StepView::Done(Err(ErrorView::LogsNotCleared { stderr: reports[0].stderr }))
        }
    }

    /// Making the directory a repository: nothing to do, and `false`, for
    /// an entry already under version control; else the host is asked to
    /// set the repository up, and `true` says that it did.
    pub open spec fn git_init(self, reports: Seq<ReportView>) -> StepView<bool> {
        if self.github {
            StepView::Done(Ok(false))
        } else if reports.len() == 0 {
            StepView::Run(ActionView::InitRepository { path: self.path })
        } else if reports[0].success {
            StepView::Done(Ok(true))
        } else {
            StepView::Done(Err(ErrorView::VcsFailed { stderr: reports[0].stderr }))
        }
    }

    /// Setting the remote origin: the host is asked to set it.
    pub open spec fn git_set_origin(
        self,
        remote_url: Seq<char>,
        reports: Seq<ReportView>,
    ) -> StepView<()> {
        if reports.len() == 0 {
            StepView::Run(ActionView::SetRemote { path: self.path, url: remote_url })
        } else if reports[0].success {
            StepView::Done(Ok(()))
        } else {
            StepView::Done(Err(ErrorView::VcsFailed { stderr: reports[0].stderr }))
        }
    }

    /// The last stage of an update: compile and install.
    pub open spec fn build(self, reports: Seq<ReportView>) -> StepView<bool> {
        if reports.len() == 0 {
            StepView::Run(ActionView::Build { path: self.path })
        } else if reports[0].success {
            StepView::Done(Ok(true))
        } else {
            StepView::Done(Err(ErrorView::BuildFailed { stderr: reports[0].stderr }))
        }
    }

    /// What the changed files `diff` ask for: nothing, and `false`, where no
    /// compiled source changed; else the build, configured anew first where
    /// the manifest itself changed.
    pub open spec fn rebuild(self, diff: Seq<char>, reports: Seq<ReportView>) -> StepView<bool> {
        if !compiled_files_changed(diff) {
            StepView::Done(Ok(false))
        } else if !manifest_changed(diff) {
            self.build(reports)
        } else if reports.len() == 0 {
            StepView::Run(ActionView::Configure { path: self.path })
        } else if reports[0].success {
            self.build(reports.skip(1))
        } else {
            StepView::Done(Err(ErrorView::ConfigureFailed { stderr: reports[0].stderr }))
        }
    }

    /// Updating: refused, before anything is asked of the host, for an
    /// entry that is not under version control or is not valid;
    /// else a pull, then the names of the files that the last revision
    /// changed, then what those files ask for. The first failure is the
    /// answer. `true` says that the project was built again.
    pub open spec fn update(self, site: SiteView, reports: Seq<ReportView>) -> StepView<bool> {
        if !(self.github && self.is_valid(site)) {
            StepView::Done(Err(ErrorView::NotAGitRepository))
        } else if reports.len() == 0 {
            StepView::Run(ActionView::Pull { path: self.path })
        } else if !reports[0].success {
            StepView::Done(Err(ErrorView::PullFailed { stderr: reports[0].stderr }))
        } else if reports.len() == 1 {
            StepView::Run(
                ActionView::DiffNames { from: "HEAD"@, to: "HEAD~1"@, path: self.path },
            )
        } else if !reports[1].success {
            StepView::Done(Err(ErrorView::DiffFailed { stderr: reports[1].stderr }))
        } else {
            self.rebuild(reports[1].stdout, reports.skip(2))
        }
    }
}

/// What a launch comes to. A plan that failed is the answer; with no
/// report yet the host is asked to run the command; a report of success
/// makes the entry running; a report of failure leaves it as it was.
pub open spec fn launched(
    s: ServerView,
    plan: Result<InvocationView, ErrorView>,
    reports: Seq<ReportView>,
) -> (StepView<()>, ServerView) {
    match plan {
        Err(e) => (StepView::Done(Err(e)), s),
        Ok(invocation) => if reports.len() == 0 {
            (StepView::Run(ActionView::Execute(invocation)), s)
        } else if reports[0].success {
            (StepView::Done(Ok(())), ServerView { running: true, ..s })
        } else {
            (
                StepView::Done(
                    Err(ErrorView::ProcessSpawnFailed { name: s.name, stderr: reports[0].stderr }),
                ),
                s,
            )
        },
    }
}

/// What a termination comes to. With no report yet the host is asked to
/// run the command; a report of success makes the entry stopped; a report
/// of failure leaves it as it was.
pub open spec fn halted(s: ServerView, invocation: InvocationView, reports: Seq<ReportView>) -> (
    StepView<()>,
    ServerView,
) {
    if reports.len() == 0 {
        (StepView::Run(ActionView::Execute(invocation)), s)
    } else if reports[0].success {
        (StepView::Done(Ok(())), ServerView { running: false, ..s })
    } else {
        (
            StepView::Done(
                Err(ErrorView::ProcessTerminateFailed { name: s.name, stderr: reports[0].stderr }),
            ),
            s,
        )
    }
}

/// Carries a launch through, as `launched` says.
pub(crate) fn settle_launch(
    server: &mut Server,
    plan: Result<Invocation, Error>,
    reports: &[Report],
) -> (step: Step<()>)
    ensures
        (step@, final(server)@) == launched(old(server)@, outcome(plan), report_views(reports@)),
{
    match plan {
        Err(e) => Step::Done(Err(e)),
        Ok(invocation) => {
            if reports.len() == 0 {
                Step::Run(Action::Execute(invocation))
            } else if reports[0].success {
                server.running = true;
                Step::Done(Ok(()))
            } else {
                Step::Done(
                    Err(
                        Error::ProcessSpawnFailed {
                            name: server.name.clone(),
                            stderr: reports[0].stderr.clone(),
                        },
                    ),
                )
            }
        },
    }
}

/// Carries a termination through, as `halted` says.
pub(crate) fn settle_halt(server: &mut Server, invocation: Invocation, reports: &[Report]) -> (step:
    Step<()>)
    ensures
        (step@, final(server)@) == halted(old(server)@, invocation@, report_views(reports@)),
{
    if reports.len() == 0 {
        Step::Run(Action::Execute(invocation))
    } else if reports[0].success {
        server.running = false;
        Step::Done(Ok(()))
    } else {
        Step::Done(
            Err(
                Error::ProcessTerminateFailed {
                    name: server.name.clone(),
                    stderr: reports[0].stderr.clone(),
                },
            ),
        )
    }
}

impl Server {
    /// Whether the entry is a key-value-store instance.
    pub fn is_store(&self) -> (r: bool)
        ensures
            r == self@.is_store(),
    {
        let lowered = to_lowercase(self.name.as_str());
        text_contains(lowered.as_str(), "redis-server")
    }

    /// Whether the entry can be launched: whether its directory, as seen
    /// at `site`, holds `main.py` or `app.py`, or the entry is a
    /// key-value-store instance.
    pub fn is_valid(&self, site: &Site) -> (r: bool)
        ensures
            r == self@.is_valid(site@),
    {
        site.has("main.py") || site.has("app.py") || self.is_store()
    }

    /// Starts the entry. With no report, answers with the launch command of
    /// the entry's kind and changes nothing; with the report of that
    /// command, marks the entry running or gives the reason it is not.
    pub fn start(&mut self, site: &Site, reports: &[Report]) -> (step: Step<()>)
        ensures
            (step@, final(self)@) == old(self)@.start(site@, report_views(reports@)),
    {
        if !self.is_valid(site) {
            Step::Done(Err(Error::InvalidServerDirectory))
        } else if !self.is_store() {
            start_gunicorn(self, site, reports)
        } else {
            start_redis(self, site, reports)
        }
    }

    /// Stops the entry. An entry that is not running is left alone. Else,
    /// with no report, answers with the termination command of the entry's
    /// kind and changes nothing; with the report of that command, marks the
    /// entry stopped or gives the reason it is not.
    pub fn stop(&mut self, reports: &[Report]) -> (step: Step<()>)
        ensures
            (step@, final(self)@) == old(self)@.stop(report_views(reports@)),
    {
        if !self.running {
            Step::Done(Ok(()))
        } else if !self.is_store() {
            stop_gunicorn(self, reports)
        } else {
            stop_redis(self, reports)
        }
    }

    /// Stops the entry, then starts it. The reports are those of the stop,
    /// if the entry was running, and then of the start. Nothing changes
    /// until both are complete or one has failed; after a stop that failed
    /// no start is attempted.
    pub fn restart(&mut self, site: &Site, reports: &[Report]) -> (step: Step<()>)
        ensures
            (step@, final(self)@) == old(self)@.restart(site@, report_views(reports@)),
    {
        let mut next = self.clone();
        let used: usize = if self.running {
            1
        } else {
            0
        };
        match next.stop(reports) {
            Step::Run(action) => Step::Run(action),
            Step::Done(Err(e)) => Step::Done(Err(e)),
            Step::Done(Ok(())) => {
                let rest = slice_subrange(reports, used, reports.len());
                match next.start(site, rest) {
                    Step::Run(action) => Step::Run(action),
                    Step::Done(result) => {
                        *self = next;
                        Step::Done(result)
                    },
                }
            },
        }
    }

    /// Reads the entry's log. With no report, answers with the command that
    /// prints it; with the report of that command, gives what it printed.
    pub fn monitor(&self, site: &Site, reports: &[Report]) -> (step: Step<String>)
        ensures
            step@ == self@.monitor(site@, report_views(reports@)),
    {
        if !self.is_valid(site) {
            Step::Done(Err(Error::InvalidServerDirectory))
        } else if reports.len() == 0 {
            let mut command = String::from_str("cat ");
            command.append(self.log_path.as_str());
            command.append("/");
            command.append(self.name.as_str());
            command.append(".log");
            Step::Run(Action::Execute(shell_invocation(command, &self.original_dir)))
        } else if reports[0].success {
            Step::Done(Ok(reports[0].stdout.clone()))
        } else {
            Step::Done(Err(Error::LogsUnavailable { stderr: reports[0].stderr.clone() }))
        }
    }

    /// Empties the entry's log. With no report, answers with the command
    /// that truncates it.
    pub fn clear_logs(&mut self, site: &Site, reports: &[Report]) -> (step: Step<()>)
        ensures
            step@ == old(self)@.clear_logs(site@, report_views(reports@)),
            final(self)@ == old(self)@,
    {
        if !self.is_valid(site) {
            Step::Done(Err(Error::InvalidServerDirectory))
        } else if reports.len() == 0 {
            let mut command = String::from_str("> ");
            command.append(self.log_path.as_str());
            command.append("/");
            command.append(self.name.as_str());
            command.append(".log");
            Step::Run(Action::Execute(shell_invocation(command, &self.original_dir)))
        } else if reports[0].success {
            Step::Done(Ok(()))
        } else {
            Step::Done(Err(Error::LogsNotCleared { stderr: reports[0].stderr.clone() }))
        }
    }

    /// Makes the entry's directory a repository, unless it is under
    /// version control already. `true` says that the host set one up.
    pub fn git_init(&mut self, reports: &[Report]) -> (step: Step<bool>)
        ensures
            step@ == old(self)@.git_init(report_views(reports@)),
            final(self)@ == old(self)@,
    {
        if self.github {
            Step::Done(Ok(false))
        } else if reports.len() == 0 {
            Step::Run(Action::InitRepository { path: self.path.clone() })
        } else if reports[0].success {
            Step::Done(Ok(true))
        } else {
            Step::Done(Err(Error::VcsFailed { stderr: reports[0].stderr.clone() }))
        }
    }

    /// Sets the remote origin of the entry's repository.
    pub fn git_set_origin(&mut self, remote_url: &str, reports: &[Report]) -> (step: Step<()>)
        ensures
            step@ == old(self)@.git_set_origin(remote_url@, report_views(reports@)),
            final(self)@ == old(self)@,
    {
        if reports.len() == 0 {
            Step::Run(
                Action::SetRemote { path: self.path.clone(), url: String::from_str(remote_url) },
            )
        } else if reports[0].success {
            Step::Done(Ok(()))
        } else {
            Step::Done(Err(Error::VcsFailed { stderr: reports[0].stderr.clone() }))
        }
    }

    /// The last stage of an update, from the report at `at` on.
    fn build_from(&self, reports: &[Report], at: usize) -> (step: Step<bool>)
        requires
            at <= reports.len(),
        ensures
            step@ == self@.build(report_views(reports@).skip(at as int)),
    {
        if reports.len() == at {
            Step::Run(Action::Build { path: self.path.clone() })
        } else if reports[at].success {
            Step::Done(Ok(true))
        } else {
            Step::Done(Err(Error::BuildFailed { stderr: reports[at].stderr.clone() }))
        }
    }

    /// Brings the entry's source up to date and builds it again where the
    /// change asks for it. The reports are those of the pull, of the list
    /// of changed files, of the configuration where the manifest changed,
    /// and of the build. `true` says that the project was built again.
    pub fn update(&mut self, site: &Site, reports: &[Report]) -> (step: Step<bool>)
        ensures
            step@ == old(self)@.update(site@, report_views(reports@)),
            final(self)@ == old(self)@,
    {
        if !(self.github && self.is_valid(site)) {
            Step::Done(Err(Error::NotAGitRepository))
        } else if reports.len() == 0 {
            Step::Run(Action::Pull { path: self.path.clone() })
        } else if !reports[0].success {
            Step::Done(Err(Error::PullFailed { stderr: reports[0].stderr.clone() }))
        } else if reports.len() == 1 {
            Step::Run(
                Action::DiffNames {
                    from: String::from_str("HEAD"),
                    to: String::from_str("HEAD~1"),
                    path: self.path.clone(),
                },
            )
        } else if !reports[1].success {
            Step::Done(Err(Error::DiffFailed { stderr: reports[1].stderr.clone() }))
        } else {
            let diff = reports[1].stdout.as_str();
            if !contains_compiled_files(diff) {
                Step::Done(Ok(false))
            } else if !contains_manifest(diff) {
                self.build_from(reports, 2)
            } else if reports.len() == 2 {
                Step::Run(Action::Configure { path: self.path.clone() })
            } else if reports[2].success {
                self.build_from(reports, 3)
            } else {
                Step::Done(Err(Error::ConfigureFailed { stderr: reports[2].stderr.clone() }))
            }
        }
    }
}

} // verus!
