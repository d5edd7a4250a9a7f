//! The launcher for the key-value store: the commands that start an
//! instance and ask it to shut down.

use vstd::prelude::*;
use vstd::string::*;
use crate::error::{outcome, Error, ErrorView};
use crate::host::{report_views, Invocation, InvocationView, Report, Site, SiteView, Step};
use crate::server::gunicorn::{shell, shell_invocation};
use crate::server::server::{halted, launched, settle_halt, settle_launch, Server, ServerView};
use crate::text::{decimal, decimal_string};

verus! {

/// The store binary, followed by the configuration file where the
/// server's directory holds one.
pub open spec fn redis_head(s: ServerView, site: SiteView) -> Seq<char> {
    if site.has("redis.conf"@) {
        "redis-server "@ + s.path + "/redis.conf"@
    } else {
        "redis-server"@
    }
}

/// The launch command of a store instance with its log under `log_dir`:
/// the binary, the configuration file if there is one, and the flags that
/// override address, port, timeout, working directory and log file.
pub open spec fn redis_command(s: ServerView, site: SiteView, log_dir: Seq<char>) -> Seq<char> {
    redis_head(s, site) + " --daemonize yes --bind "@ + s.bind + " --port "@ + decimal(
        s.port as nat,
    ) + " --timeout "@ + decimal(s.timeout as nat) + " --dir ./"@ + s.path + " --logfile "@
        + log_dir + "/"@ + s.name + ".log"@
}

/// The invocation that launches a store instance, run in the directory the
/// supervisor was started in. It needs the absolute log directory.
pub open spec fn redis_launch(s: ServerView, site: SiteView) -> Result<InvocationView, ErrorView> {
    match site.log_dir {
        Err(reason) => Err(ErrorView::LogPathUnresolved { reason }),
        Ok(log_dir) => Ok(shell(redis_command(s, site, log_dir), s.original_dir)),
    }
}

/// The invocation that stops a store instance: a shutdown request to the
/// instance that listens on the server's port.
pub open spec fn redis_halt(s: ServerView) -> InvocationView {
    InvocationView {
        program: "redis-cli"@,
        args: seq!["-p"@, decimal(s.port as nat), "shutdown"@],
        dir: s.original_dir,
    }
}

/// Writes the launch command of a store instance with its log under
/// `absolute_log_path`.
pub fn get_redis_command(server: &Server, site: &Site, absolute_log_path: &str) -> (r: String)
    ensures
        r@ == redis_command(server@, site@, absolute_log_path@),
{
    let mut r = String::from_str("redis-server");
    if site.has("redis.conf") {
        r = String::from_str("redis-server ");
        r.append(server.path.as_str());
        r.append("/redis.conf");
    }
    r.append(" --daemonize yes --bind ");
    r.append(server.bind.as_str());
    r.append(" --port ");
    r.append(decimal_string(server.port as u128).as_str());
    r.append(" --timeout ");
    r.append(decimal_string(server.timeout as u128).as_str());
    r.append(" --dir ./");
    r.append(server.path.as_str());
    r.append(" --logfile ");
    r.append(absolute_log_path);
    r.append("/");
    r.append(server.name.as_str());
    r.append(".log");
    r
}

/// Plans the launch of a store instance as seen at `site`.
pub fn redis_launch_plan(server: &Server, site: &Site) -> (r: Result<Invocation, Error>)
    ensures
        outcome(r) == redis_launch(server@, site@),
{
    match &site.log_dir {
        Err(reason) => Err(Error::LogPathUnresolved { reason: reason.clone() }),
        Ok(log_dir) => Ok(
            shell_invocation(
                get_redis_command(server, site, log_dir.as_str()),
                &server.original_dir,
            ),
        ),
    }
}

/// Plans the shutdown of a store instance.
pub fn redis_halt_plan(server: &Server) -> (r: Invocation)
    ensures
        r@ == redis_halt(server@),
{
    let mut args: Vec<String> = Vec::new();
    args.push(String::from_str("-p"));
    args.push(decimal_string(server.port as u128));
    args.push(String::from_str("shutdown"));
    let r = Invocation {
        program: String::from_str("redis-cli"),
        args,
        dir: server.original_dir.clone(),
    };
    assert(r@.args =~= seq!["-p"@, decimal(server@.port as nat), "shutdown"@]);
    r
}

/// Starts a store instance. With no report, answers with the launch
/// command and changes nothing; with the report of that command, marks the
/// entry running or gives the reason it is not.
pub fn start_redis(server: &mut Server, site: &Site, reports: &[Report]) -> (step: Step<()>)
    ensures
        (step@, final(server)@) == launched(
            old(server)@,
            redis_launch(old(server)@, site@),
            report_views(reports@),
        ),
{
    let plan = redis_launch_plan(server, site);
    settle_launch(server, plan, reports)
}

/// Stops a store instance. With no report, answers with the shutdown
/// request and changes nothing; with the report of that request, marks the
/// entry stopped or gives the reason it is not.
pub fn stop_redis(server: &mut Server, reports: &[Report]) -> (step: Step<()>)
    ensures
        (step@, final(server)@) == halted(
            old(server)@,
            redis_halt(old(server)@),
            report_views(reports@),
        ),
{
    let invocation = redis_halt_plan(server);
    settle_halt(server, invocation, reports)
}

} // verus!
