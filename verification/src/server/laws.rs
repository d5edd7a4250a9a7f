//! What holds of the registry and of its entries whatever their content.

use vstd::prelude::*;
use crate::error::ErrorView;
use crate::host::{ActionView, ReportView, SiteView, StepView};
use crate::server::gunicorn::{
    address_flag, gunicorn_command, is_full_stack, is_micro, log_file, pid_flag, timeout_flag,
    workers_flag,
};
use crate::text::{
    contains, ends_with, lemma_contains_grows, lemma_contains_last, lemma_ends_with_last,
};
use crate::server::server::ServerView;
use crate::server::servers::{
    add_error, added, flushed, has_name, is_first_named, position, removed, restarted, restored,
    same_claims, started, stopped, swept, unique, updated, Servers, Stored,
};

verus! {

/// The first entry called `name` is the one that `position` gives.
pub proof fn lemma_position(servers: Seq<ServerView>, name: Seq<char>, i: int)
    requires
        is_first_named(servers, name, i),
    ensures
        position(servers, name) == Some(i),
{
}

/// Below an entry called `name` there is a first entry called `name`.
proof fn lemma_first_named_exists(servers: Seq<ServerView>, name: Seq<char>, k: int)
    requires
        0 <= k < servers.len(),
        servers[k].name == name,
    ensures
        exists|i: int| is_first_named(servers, name, i),
    decreases k,
{
    if forall|j: int| 0 <= j < k ==> (#[trigger] servers[j]).name != name {
        assert(is_first_named(servers, name, k));
    } else {
        let j = choose|j: int| 0 <= j < k && (#[trigger] servers[j]).name == name;
        lemma_first_named_exists(servers, name, j);
    }
}

/// The place that `position` gives is that of the first entry called
/// `name`, and it gives none only where no entry is called `name`.
pub proof fn lemma_position_first(servers: Seq<ServerView>, name: Seq<char>)
    ensures
        match position(servers, name) {
            Some(i) => is_first_named(servers, name, i),
            None => !has_name(servers, name),
        },
{
    if has_name(servers, name) {
        let k = choose|k: int| 0 <= k < servers.len() && (#[trigger] servers[k]).name == name;
        lemma_first_named_exists(servers, name, k);
    }
}

/// Adding keeps the registry free of shared names, paths and ports.
pub proof fn lemma_add_keeps_unique(servers: Seq<ServerView>, s: ServerView)
    requires
        unique(servers),
    ensures
        unique(added(servers, s)),
{
    if add_error(servers, s) is None {
        let after = servers.push(s);
        assert forall|i: int, j: int| 0 <= i < j < after.len() implies {
            &&& (#[trigger] after[i]).name != (#[trigger] after[j]).name
            &&& after[i].path != after[j].path
            &&& after[i].port != after[j].port
        } by {}
    }
}

/// Starting, stopping and restarting leave an entry its name, its path
/// and its port.
pub proof fn lemma_lifecycle_keeps_claims(
    s: ServerView,
    site: SiteView,
    reports: Seq<ReportView>,
)
    ensures
        same_claims(s, s.start(site, reports).1),
        same_claims(s, s.stop(reports).1),
        same_claims(s, s.restart(site, reports).1),
{
}

/// An entry replaced by one with the same claims shares nothing new.
pub proof fn lemma_update_keeps_unique(servers: Seq<ServerView>, i: int, entry: ServerView)
    requires
        unique(servers),
        0 <= i < servers.len(),
        same_claims(servers[i], entry),
    ensures
        unique(servers.update(i, entry)),
{
    let after = servers.update(i, entry);
    assert forall|a: int, b: int| 0 <= a < b < after.len() implies {
        &&& (#[trigger] after[a]).name != (#[trigger] after[b]).name
        &&& after[a].path != after[b].path
        &&& after[a].port != after[b].port
    } by {}
}

/// The entries that stay when one leaves share nothing.
pub proof fn lemma_remove_keeps_unique(servers: Seq<ServerView>, i: int)
    requires
        unique(servers),
        0 <= i < servers.len(),
    ensures
        unique(servers.remove(i)),
{
    let after = servers.remove(i);
    assert forall|a: int, b: int| 0 <= a < b < after.len() implies {
        &&& (#[trigger] after[a]).name != (#[trigger] after[b]).name
        &&& after[a].path != after[b].path
        &&& after[a].port != after[b].port
    } by {}
}

/// A flush that waits goes no further.
pub proof fn lemma_swept_waits(
    servers: Seq<ServerView>,
    reports: Seq<ReportView>,
    n: nat,
    m: nat,
)
    requires
        n <= m,
        swept(servers, reports, n).pending is Some,
    ensures
        swept(servers, reports, m) == swept(servers, reports, n),
    decreases m,
{
    if n < m {
        lemma_swept_waits(servers, reports, n, (m - 1) as nat);
    }
}

/// The entries that a flush keeps are entries of the registry, and share
/// nothing if the registry's entries share nothing.
pub proof fn lemma_flush_keeps_unique(servers: Seq<ServerView>, reports: Seq<ReportView>, n: nat)
    requires
        unique(servers),
        n <= servers.len(),
    ensures
        unique(swept(servers, reports, n).kept),
        forall|k: int|
            0 <= k < swept(servers, reports, n).kept.len() ==> exists|i: int|
                0 <= i < n && #[trigger] swept(servers, reports, n).kept[k] == servers[i],
    decreases n,
{
    if n > 0 {
        lemma_flush_keeps_unique(servers, reports, (n - 1) as nat);
        let before = swept(servers, reports, (n - 1) as nat).kept;
        let after = swept(servers, reports, n).kept;
        assert forall|k: int| 0 <= k < after.len() implies exists|i: int|
            0 <= i < n && #[trigger] after[k] == servers[i] by {
            if k < before.len() {
                let i = choose|i: int| 0 <= i < n - 1 && before[k] == servers[i];
                assert(after[k] == servers[i]);
            }
        }
        assert forall|a: int, b: int| 0 <= a < b < after.len() implies {
            &&& (#[trigger] after[a]).name != (#[trigger] after[b]).name
            &&& after[a].path != after[b].path
            &&& after[a].port != after[b].port
        } by {
            if b >= before.len() {
                let i = choose|i: int| 0 <= i < n - 1 && before[a] == servers[i];
                assert(after[a] == servers[i]);
            }
        }
    }
}

/// The registry after the first `n` servers of `batch` have been offered
/// to it, one after the other.
pub open spec fn added_all(servers: Seq<ServerView>, batch: Seq<ServerView>, n: nat) -> Seq<
    ServerView,
>
    decreases n,
{
    if n == 0 {
        servers
    } else {
        added(added_all(servers, batch, (n - 1) as nat), batch[n - 1])
    }
}

/// However many servers are offered to a registry, and whatever they are,
/// after each of them no two entries share a name, a path or a port.
pub proof fn lemma_adds_keep_unique(servers: Seq<ServerView>, batch: Seq<ServerView>, n: nat)
    requires
        unique(servers),
        n <= batch.len(),
    ensures
        unique(added_all(servers, batch, n)),
    decreases n,
{
    if n > 0 {
        lemma_adds_keep_unique(servers, batch, (n - 1) as nat);
        lemma_add_keeps_unique(added_all(servers, batch, (n - 1) as nat), batch[n - 1]);
    }
}

/// A server that was added and is removed at once leaves the registry as
/// it was before. The removal finds the server, and while it waits for
/// the server's stop it changes nothing.
pub proof fn lemma_add_then_remove(
    servers: Seq<ServerView>,
    s: ServerView,
    reports: Seq<ReportView>,
)
    requires
        add_error(servers, s) is None,
    ensures
        removed(added(servers, s), s.name, reports).0 is Run ==> removed(
            added(servers, s),
            s.name,
            reports,
        ).1 == added(servers, s),
        removed(added(servers, s), s.name, reports).0 is Done ==> {
            &&& removed(added(servers, s), s.name, reports).0 matches StepView::Done(Ok(removal))
            &&& removal.snapshot == servers
            &&& removed(added(servers, s), s.name, reports).1 == servers
        },
{
    let after = servers.push(s);
    assert forall|j: int| 0 <= j < servers.len() implies (#[trigger] after[j]).name != s.name by {}
    lemma_position(after, s.name, servers.len() as int);
}

/// A key-value-store instance is valid whatever its directory holds. If
/// it is under version control its update begins with the pull, as that
/// of any valid entry does.
pub proof fn lemma_store_is_valid(s: ServerView, site: SiteView, reports: Seq<ReportView>)
    requires
        s.is_store(),
    ensures
        s.is_valid(site),
        s.github && reports.len() == 0 ==> s.update(site, reports) == StepView::<bool>::Run(
            ActionView::Pull { path: s.path },
        ),
        s.github && reports.len() > 0 && !reports[0].success ==> s.update(site, reports)
            == StepView::<bool>::Done(Err(ErrorView::PullFailed { stderr: reports[0].stderr })),
{
}

/// Whatever the framework, the launch command of an application carries
/// the address, the timeout, the daemon flag, the number of workers, and
/// the access log and the error log under the log directory, named after
/// the server; and it ends with the application.
pub proof fn lemma_command_carries(
    s: ServerView,
    framework: Seq<char>,
    app: Seq<char>,
    log_dir: Seq<char>,
)
    requires
        is_micro(framework) || is_full_stack(framework),
    ensures
        gunicorn_command(s, framework, app, log_dir) matches Ok(command) && {
            &&& contains(command, address_flag(s))
            &&& contains(command, timeout_flag(s))
            &&& contains(command, " --daemon"@)
            &&& contains(command, " --access-logfile "@ + log_file(s, log_dir))
            &&& contains(command, " --error-logfile "@ + log_file(s, log_dir))
            &&& contains(command, workers_flag(s))
            &&& ends_with(command, app)
        },
{
    let command = gunicorn_command(s, framework, app, log_dir)->Ok_0;
    let class = if is_micro(framework) {
        " --worker-class=gevent "@
    } else {
        " --worker-type=gevent "@
    };
    let log = log_file(s, log_dir);
    let p1 = "gunicorn"@ + address_flag(s);
    let p2 = p1 + timeout_flag(s);
    let p3 = p2 + " --daemon"@;
    let p4 = p3 + " --access-logfile "@ + log;
    let p5 = p4 + " --error-logfile "@ + log;
    let p6 = p5 + pid_flag(s);
    let p7 = p6 + workers_flag(s);
    let p8 = p7 + class;
    assert(command == p8 + app);
    lemma_ends_with_last(p8, app);
    lemma_contains_last("gunicorn"@, address_flag(s));
    lemma_contains_last(p1, timeout_flag(s));
    lemma_contains_last(p2, " --daemon"@);
    assert(p4 =~= p3 + (" --access-logfile "@ + log));
    lemma_contains_last(p3, " --access-logfile "@ + log);
    assert(p5 =~= p4 + (" --error-logfile "@ + log));
    lemma_contains_last(p4, " --error-logfile "@ + log);
    lemma_contains_last(p6, workers_flag(s));
    lemma_contains_grows(p1, timeout_flag(s), address_flag(s));
    lemma_contains_grows(p2, " --daemon"@, address_flag(s));
    lemma_contains_grows(p2, " --daemon"@, timeout_flag(s));
    lemma_contains_grows(p3, " --access-logfile "@ + log, address_flag(s));
    lemma_contains_grows(p3, " --access-logfile "@ + log, timeout_flag(s));
    lemma_contains_grows(p3, " --access-logfile "@ + log, " --daemon"@);
    lemma_contains_grows(p4, " --error-logfile "@ + log, address_flag(s));
    lemma_contains_grows(p4, " --error-logfile "@ + log, timeout_flag(s));
    lemma_contains_grows(p4, " --error-logfile "@ + log, " --daemon"@);
    lemma_contains_grows(p4, " --error-logfile "@ + log, " --access-logfile "@ + log);
    lemma_carried_on(p5, pid_flag(s), workers_flag(s), class, app, address_flag(s));
    lemma_carried_on(p5, pid_flag(s), workers_flag(s), class, app, timeout_flag(s));
    lemma_carried_on(p5, pid_flag(s), workers_flag(s), class, app, " --daemon"@);
    lemma_carried_on(
        p5,
        pid_flag(s),
        workers_flag(s),
        class,
        app,
        " --access-logfile "@ + log,
    );
    lemma_carried_on(p5, pid_flag(s), workers_flag(s), class, app, " --error-logfile "@ + log);
    lemma_contains_grows(p7, class, workers_flag(s));
    lemma_contains_grows(p8, app, workers_flag(s));
}

/// What a text holds it still holds after four more parts.
proof fn lemma_carried_on(
    text: Seq<char>,
    a: Seq<char>,
    b: Seq<char>,
    c: Seq<char>,
    d: Seq<char>,
    part: Seq<char>,
)
    requires
        contains(text, part),
    ensures
        contains(text + a + b + c + d, part),
{
    lemma_contains_grows(text, a, part);
    lemma_contains_grows(text + a, b, part);
    lemma_contains_grows(text + a + b, c, part);
    lemma_contains_grows(text + a + b + c, d, part);
}

/// An application that is no store instance, of a known framework, whose
/// directory holds `app.py` and no `main.py`, is launched in its own
/// directory by a command that ends with `app:app` and carries its
/// address; and started by name with no report yet, that launch is what
/// the host is asked for.
pub proof fn lemma_application_launch(
    servers: Seq<ServerView>,
    name: Seq<char>,
    site: SiteView,
)
    requires
        position(servers, name) is Some,
        !servers[position(servers, name).unwrap()].is_store(),
        is_micro(servers[position(servers, name).unwrap()].framework) || is_full_stack(
            servers[position(servers, name).unwrap()].framework,
        ),
        site.has("app.py"@),
        !site.has("main.py"@),
        site.log_dir is Ok,
    ensures
        ({
            let s = servers[position(servers, name).unwrap()];
            &&& s.launch(site) matches Ok(invocation)
            &&& invocation.program == "sh"@
            &&& invocation.args.len() == 2
            &&& invocation.dir == s.path
            &&& ends_with(invocation.args[1], "app:app"@)
            &&& contains(invocation.args[1], address_flag(s))
            &&& started(servers, name, site, Seq::empty()) == (
                StepView::<Seq<ServerView>>::Run(ActionView::Execute(invocation)),
                servers,
            )
        }),
{
    lemma_position_first(servers, name);
    let i = position(servers, name).unwrap();
    let s = servers[i];
    lemma_command_carries(s, s.framework, "app:app"@, site.log_dir->Ok_0);
    assert(servers.update(i, s) =~= servers);
}

/// A launch can be planned for an application of a known framework whose
/// directory holds `main.py` or `app.py`, and for a store instance,
/// provided that the host could resolve the log directory.
pub proof fn lemma_launch_possible(s: ServerView, site: SiteView)
    requires
        site.log_dir is Ok,
        s.is_store() || (s.is_valid(site) && (is_micro(s.framework) || is_full_stack(s.framework))),
    ensures
        s.launch(site) is Ok,
{
}

/// Starting a server by name, where its launch can be planned and the
/// host reports success, makes that entry running, changes nothing else,
/// and answers with the new snapshot.
pub proof fn lemma_start_runs(
    servers: Seq<ServerView>,
    name: Seq<char>,
    site: SiteView,
    reports: Seq<ReportView>,
)
    requires
        position(servers, name) is Some,
        servers[position(servers, name).unwrap()].launch(site) is Ok,
        reports.len() > 0,
        reports[0].success,
    ensures
        ({
            let i = position(servers, name).unwrap();
            let after = servers.update(i, ServerView { running: true, ..servers[i] });
            started(servers, name, site, reports) == (StepView::Done(Ok(after)), after)
        }),
{
}

/// Stopping a running server by name, where the host reports success,
/// makes that entry stopped, changes nothing else, and answers with the
/// new snapshot.
pub proof fn lemma_stop_halts(servers: Seq<ServerView>, name: Seq<char>, reports: Seq<ReportView>)
    requires
        position(servers, name) is Some,
        servers[position(servers, name).unwrap()].running,
        reports.len() > 0,
        reports[0].success,
    ensures
        ({
            let i = position(servers, name).unwrap();
            let after = servers.update(i, ServerView { running: false, ..servers[i] });
            stopped(servers, name, reports) == (StepView::Done(Ok(after)), after)
        }),
{
}

/// Stopping a server that is not running does nothing and succeeds.
pub proof fn lemma_stop_of_stopped(
    servers: Seq<ServerView>,
    name: Seq<char>,
    reports: Seq<ReportView>,
)
    requires
        position(servers, name) is Some,
        !servers[position(servers, name).unwrap()].running,
    ensures
        stopped(servers, name, reports) == (StepView::Done(Ok(servers)), servers),
{
    lemma_position_first(servers, name);
    let i = position(servers, name).unwrap();
    assert(servers.update(i, servers[i]) =~= servers);
}

/// A restart is a stop followed by a start: where the stop succeeds and
/// the start comes to an end, the restart answers as the start does, and
/// leaves the entry as the start leaves the stopped entry.
pub proof fn lemma_restart_composes(s: ServerView, site: SiteView, reports: Seq<ReportView>)
    requires
        s.stop(reports).0 == StepView::<()>::Done(Ok(())),
    ensures
        ({
            let stopped = s.stop(reports).1;
            let rest = if s.running {
                reports.skip(1)
            } else {
                reports
            };
            stopped.start(site, rest).0 is Done ==> s.restart(site, reports) == stopped.start(
                site,
                rest,
            )
        }),
{
}

/// A restart whose stop fails ends there: it answers with the failure of
/// the stop, asks for no launch, and leaves the entry running.
pub proof fn lemma_restart_fails_fast(s: ServerView, site: SiteView, reports: Seq<ReportView>)
    requires
        s.running,
        reports.len() > 0,
        !reports[0].success,
    ensures
        s.restart(site, reports) == (
            StepView::<()>::Done(
                Err(ErrorView::ProcessTerminateFailed { name: s.name, stderr: reports[0].stderr }),
            ),
            s,
        ),
{
}

/// By name, a restart whose stop fails changes nothing in the registry.
pub proof fn lemma_restart_server_fails_fast(
    servers: Seq<ServerView>,
    name: Seq<char>,
    site: SiteView,
    reports: Seq<ReportView>,
)
    requires
        position(servers, name) is Some,
        servers[position(servers, name).unwrap()].running,
        reports.len() > 0,
        !reports[0].success,
    ensures
        restarted(servers, name, site, reports) == (
            StepView::<Seq<ServerView>>::Done(
                Err(ErrorView::ProcessTerminateFailed { name: name, stderr: reports[0].stderr }),
            ),
            servers,
        ),
{
    lemma_position_first(servers, name);
    let i = position(servers, name).unwrap();
    lemma_restart_fails_fast(servers[i], site, reports);
}

/// A snapshot that is restored into an empty registry gives the registry
/// that was backed up, entry for entry and field for field.
pub proof fn lemma_restore_of_backup(registry: Servers, snapshot: Servers)
    requires
        snapshot@ == registry@,
    ensures
        restored(Seq::<ServerView>::empty(), Stored::Snapshot(snapshot)) == registry@,
{
}

/// An update of a server that is not under version control is refused
/// whatever the host has reported: nothing is ever asked of the host.
pub proof fn lemma_update_needs_repository(s: ServerView, site: SiteView, reports: Seq<ReportView>)
    requires
        !s.github,
    ensures
        s.update(site, reports) == StepView::<bool>::Done(Err(ErrorView::NotAGitRepository)),
{
}

/// By name, an update of a server that is not under version control is
/// refused whatever the host has reported.
pub proof fn lemma_update_by_name_needs_repository(
    servers: Seq<ServerView>,
    name: Seq<char>,
    site: SiteView,
    reports: Seq<ReportView>,
)
    requires
        position(servers, name) is Some,
        !servers[position(servers, name).unwrap()].github,
    ensures
        updated(servers, name, site, reports) == StepView::<(bool, Seq<ServerView>)>::Done(
            Err(ErrorView::NotAGitRepository),
        ),
{
}

/// While a start, a stop or a restart waits for the host, the entry is
/// as it was; so is it after a start or a stop that failed.
pub proof fn lemma_entry_waits_unchanged(s: ServerView, site: SiteView, reports: Seq<ReportView>)
    ensures
        s.start(site, reports).0 is Run ==> s.start(site, reports).1 == s,
        s.stop(reports).0 is Run ==> s.stop(reports).1 == s,
        s.restart(site, reports).0 is Run ==> s.restart(site, reports).1 == s,
        s.start(site, reports).0 matches StepView::Done(Err(_)) ==> s.start(site, reports).1 == s,
        s.stop(reports).0 matches StepView::Done(Err(_)) ==> s.stop(reports).1 == s,
{
}

/// While an operation of the registry waits for the host, the registry is
/// as it was: the operation can be asked again with one more report.
pub proof fn lemma_registry_waits_unchanged(
    servers: Seq<ServerView>,
    name: Seq<char>,
    site: SiteView,
    reports: Seq<ReportView>,
)
    ensures
        started(servers, name, site, reports).0 is Run ==> started(servers, name, site, reports).1
            == servers,
        stopped(servers, name, reports).0 is Run ==> stopped(servers, name, reports).1 == servers,
        restarted(servers, name, site, reports).0 is Run ==> restarted(
            servers,
            name,
            site,
            reports,
        ).1 == servers,
        removed(servers, name, reports).0 is Run ==> removed(servers, name, reports).1 == servers,
        flushed(servers, reports).0 is Run ==> flushed(servers, reports).1 == servers,
{
    lemma_position_first(servers, name);
    if position(servers, name) is Some {
        let i = position(servers, name).unwrap();
        lemma_entry_waits_unchanged(servers[i], site, reports);
    }
}

/// A lookup that fails, and a start or a stop that fails, leave the
/// registry as it was.
pub proof fn lemma_failure_changes_nothing(
    servers: Seq<ServerView>,
    name: Seq<char>,
    site: SiteView,
    reports: Seq<ReportView>,
)
    ensures
        started(servers, name, site, reports).0 matches StepView::Done(Err(_)) ==> started(
            servers,
            name,
            site,
            reports,
        ).1 == servers,
        stopped(servers, name, reports).0 matches StepView::Done(Err(_)) ==> stopped(
            servers,
            name,
            reports,
        ).1 == servers,
        removed(servers, name, reports).0 matches StepView::Done(Err(_)) ==> removed(
            servers,
            name,
            reports,
        ).1 == servers,
        position(servers, name) is None ==> restarted(servers, name, site, reports) == (
            StepView::<Seq<ServerView>>::Done(Err(ErrorView::NotFound)),
            servers,
        ),
{
    lemma_position_first(servers, name);
    if position(servers, name) is Some {
        let i = position(servers, name).unwrap();
        lemma_entry_waits_unchanged(servers[i], site, reports);
    }
}

/// What a flush keeps: only entries that were running, one line for each
/// of them; nothing at all where no report tells of a failure. And it
/// never reads more reports than it was given.
pub proof fn lemma_flush_outcome(servers: Seq<ServerView>, reports: Seq<ReportView>, n: nat)
    requires
        n <= servers.len(),
    ensures
        swept(servers, reports, n).used <= reports.len(),
        swept(servers, reports, n).kept.len() == swept(servers, reports, n).failures.len(),
        forall|k: int|
            0 <= k < swept(servers, reports, n).kept.len() ==> (#[trigger] swept(
                servers,
                reports,
                n,
            ).kept[k]).running,
        (forall|j: int| 0 <= j < reports.len() ==> (#[trigger] reports[j]).success) ==> swept(
            servers,
            reports,
            n,
        ).kept.len() == 0,
    decreases n,
{
    if n > 0 {
        lemma_flush_outcome(servers, reports, (n - 1) as nat);
    }
}

} // verus!
