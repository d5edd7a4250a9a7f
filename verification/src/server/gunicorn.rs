//! The launcher for applications served by a pre-fork worker server:
//! where the application's entry point is, and the commands that start and
//! stop it.

use vstd::prelude::*;
use vstd::string::*;
use crate::error::{outcome, Error, ErrorView};
use crate::host::{
    report_views, Entry, EntryView, Invocation, InvocationView, Report, Site, SiteView, Step,
};
use crate::server::server::{halted, launched, settle_halt, settle_launch, Server, ServerView};
use crate::text::{decimal, decimal_string, ends_with, letters, same_text, text_ends_with};

verus! {

/// The framework addresses its application as `module:app`.
pub open spec fn is_micro(framework: Seq<char>) -> bool {
    framework == "flask"@ || framework == "fastapi"@
}

/// The framework names its application in a gateway file.
pub open spec fn is_full_stack(framework: Seq<char>) -> bool {
    framework == "django"@
}

/// The entry is a regular file whose extension is `wsgi`.
pub open spec fn is_wsgi_file(entry: EntryView) -> bool {
    entry.is_file && entry.name.len() > 5 && ends_with(entry.name, ".wsgi"@)
}

/// The name of the first gateway file among `entries`.
pub open spec fn first_wsgi(entries: Seq<EntryView>) -> Option<Seq<char>>
    decreases entries.len(),
{
    if entries.len() == 0 {
        None
    } else if is_wsgi_file(entries[0]) {
        Some(entries[0].name)
    } else {
        first_wsgi(entries.skip(1))
    }
}

/// How the application at `site` is addressed: `main:app` where `main.py`
/// is present, else `app:app` where `app.py` is, else, for a full-stack
/// framework, the name of the first gateway file.
pub open spec fn app_string(site: SiteView, framework: Seq<char>) -> Result<Seq<char>, ErrorView> {
    if !is_micro(framework) && !is_full_stack(framework) {
        Err(ErrorView::UnsupportedFramework)
    } else if site.has("main.py"@) {
        Ok("main:app"@)
    } else if site.has("app.py"@) {
        Ok("app:app"@)
    } else if is_full_stack(framework) {
        match first_wsgi(site.entries) {
            Some(name) => Ok(name),
            None => Err(ErrorView::NoEntrypointFound),
        }
    } else {
        Err(ErrorView::NoEntrypointFound)
    }
}

/// The flag that gives the launcher the server's address.
pub open spec fn address_flag(s: ServerView) -> Seq<char> {
    " --bind="@ + s.bind + ":"@ + decimal(s.port as nat)
}

/// The flag that gives the launcher the worker timeout.
pub open spec fn timeout_flag(s: ServerView) -> Seq<char> {
    " --timeout="@ + decimal(s.timeout as nat)
}

/// The server's log file under `log_dir`.
pub open spec fn log_file(s: ServerView, log_dir: Seq<char>) -> Seq<char> {
    log_dir + "/"@ + s.name + ".log"@
}

/// The flag that names the file that receives the process id.
pub open spec fn pid_flag(s: ServerView) -> Seq<char> {
    " --pid "@ + s.name + ".pid"@
}

/// The flag that gives the launcher the number of workers.
pub open spec fn workers_flag(s: ServerView) -> Seq<char> {
    " --workers="@ + decimal(s.workers as nat)
}

/// The part of the launch command that all frameworks share: address,
/// timeout, daemon mode, the access log and the error log, the file that
/// receives the process id, and the number of workers.
pub open spec fn gunicorn_prefix(s: ServerView, log_dir: Seq<char>) -> Seq<char> {
    "gunicorn"@ + address_flag(s) + timeout_flag(s) + " --daemon"@ + " --access-logfile "@
        + log_file(s, log_dir) + " --error-logfile "@ + log_file(s, log_dir) + pid_flag(s)
        + workers_flag(s)
}

/// The launch command of `s` for the application addressed as `app`, with
/// its logs under `log_dir`: the shared part, the worker class as the
/// framework's launcher names it, and the application.
pub open spec fn gunicorn_command(
    s: ServerView,
    framework: Seq<char>,
    app: Seq<char>,
    log_dir: Seq<char>,
) -> Result<Seq<char>, ErrorView> {
    if is_micro(framework) {
        Ok(gunicorn_prefix(s, log_dir) + " --worker-class=gevent "@ + app)
    } else if is_full_stack(framework) {
        Ok(gunicorn_prefix(s, log_dir) + " --worker-type=gevent "@ + app)
    } else {
        Err(ErrorView::UnsupportedFramework)
    }
}

/// `command` handed to the shell, run in `dir`.
pub open spec fn shell(command: Seq<char>, dir: Seq<char>) -> InvocationView {
    InvocationView { program: "sh"@, args: seq!["-c"@, command], dir }
}

/// The invocation that launches `s`, run in the server's own directory.
/// It needs the application's entry point, and then the absolute log
/// directory.
pub open spec fn gunicorn_launch(s: ServerView, site: SiteView) -> Result<
    InvocationView,
    ErrorView,
> {
    match app_string(site, s.framework) {
        Err(e) => Err(e),
        Ok(app) => match site.log_dir {
            Err(reason) => Err(ErrorView::LogPathUnresolved { reason }),
            Ok(log_dir) => match gunicorn_command(s, s.framework, app, log_dir) {
                Err(e) => Err(e),
                Ok(command) => Ok(shell(command, s.path)),
            },
        },
    }
}

/// The invocation that stops `s`: a signal to the process whose id the
/// launch recorded, run in the server's own directory.
pub open spec fn gunicorn_halt(s: ServerView) -> InvocationView {
    InvocationView { program: "pkill"@, args: seq!["-F"@, s.name + ".pid"@], dir: s.path }
}

/// Whether `entry` is a regular file whose extension is `wsgi`.
fn wsgi_file(entry: &Entry) -> (r: bool)
    ensures
        r == is_wsgi_file(entry@),
{
    entry.is_file && letters(entry.name.as_str()).len() > 5 && text_ends_with(
        entry.name.as_str(),
        ".wsgi",
    )
}

/// The name of the first gateway file that `site` lists.
fn find_wsgi(site: &Site) -> (r: Option<String>)
    ensures
        match r {
            Some(name) => first_wsgi(site@.entries) == Some(name@),
            None => first_wsgi(site@.entries) is None,
        },
{
    let mut i: usize = 0;
    assert(site@.entries.skip(0) =~= site@.entries);
    while i < site.entries.len()
        invariant
            i <= site.entries.len(),
            first_wsgi(site@.entries) == first_wsgi(site@.entries.skip(i as int)),
        decreases site.entries.len() - i,
    {
        let ghost rest = site@.entries.skip(i as int);
        assert(rest.skip(1) =~= site@.entries.skip(i + 1));
        if wsgi_file(&site.entries[i]) {
            return Some(site.entries[i].name.clone());
        }
        i += 1;
    }
    None
}

/// Finds how the application at `site` is addressed.
pub fn get_app_string(site: &Site, framework: &str) -> (r: Result<String, Error>)
    ensures
        outcome(r) == app_string(site@, framework@),
{
    let micro = same_text(framework, "flask") || same_text(framework, "fastapi");
    let full_stack = same_text(framework, "django");
    if !micro && !full_stack {
        Err(Error::UnsupportedFramework)
    } else if site.has("main.py") {
        Ok(String::from_str("main:app"))
    } else if site.has("app.py") {
        Ok(String::from_str("app:app"))
    } else if full_stack {
        match find_wsgi(site) {
            Some(name) => Ok(name),
            None => Err(Error::NoEntrypointFound),
        }
    } else {
        Err(Error::NoEntrypointFound)
    }
}

/// Writes a flag that ends with a number.
fn numbered_flag(flag: &str, n: u32) -> (r: String)
    ensures
        r@ == flag@ + decimal(n as nat),
{
    let mut r = String::from_str(flag);
    r.append(decimal_string(n as u128).as_str());
    r
}

/// Writes the flag that gives the launcher the server's address.
fn write_address_flag(server: &Server) -> (r: String)
    ensures
        r@ == address_flag(server@),
{
    let mut r = String::from_str(" --bind=");
    r.append(server.bind.as_str());
    r.append(":");
    r.append(decimal_string(server.port as u128).as_str());
    r
}

/// Writes the server's log file under `absolute_log_path`.
fn write_log_file(server: &Server, absolute_log_path: &str) -> (r: String)
    ensures
        r@ == log_file(server@, absolute_log_path@),
{
    let mut r = String::from_str(absolute_log_path);
    r.append("/");
    r.append(server.name.as_str());
    r.append(".log");
    r
}

/// Writes the flag that names the file that receives the process id.
fn write_pid_flag(server: &Server) -> (r: String)
    ensures
        r@ == pid_flag(server@),
{
    let mut r = String::from_str(" --pid ");
    r.append(server.name.as_str());
    r.append(".pid");
    r
}

/// Writes the part of the launch command that all frameworks share.
fn command_prefix(server: &Server, absolute_log_path: &str) -> (r: String)
    ensures
        r@ == gunicorn_prefix(server@, absolute_log_path@),
{
    let log = write_log_file(server, absolute_log_path);
    let mut r = String::from_str("gunicorn");
    r.append(write_address_flag(server).as_str());
    r.append(numbered_flag(" --timeout=", server.timeout).as_str());
    r.append(" --daemon");
    r.append(" --access-logfile ");
    r.append(log.as_str());
    r.append(" --error-logfile ");
    r.append(log.as_str());
    r.append(write_pid_flag(server).as_str());
    r.append(numbered_flag(" --workers=", server.workers).as_str());
    r
}

/// Writes the launch command of `server` for the application addressed as
/// `app`, with its logs under `absolute_log_path`.
pub fn get_gunicorn_command(
    server: &Server,
    framework: &str,
    app: &str,
    absolute_log_path: &str,
) -> (r: Result<String, Error>)
    ensures
        outcome(r) == gunicorn_command(server@, framework@, app@, absolute_log_path@),
{
    if same_text(framework, "flask") || same_text(framework, "fastapi") {
        let mut r = command_prefix(server, absolute_log_path);
        r.append(" --worker-class=gevent ");
        r.append(app);
        Ok(r)
    } else if same_text(framework, "django") {
        let mut r = command_prefix(server, absolute_log_path);
        r.append(" --worker-type=gevent ");
        r.append(app);
        Ok(r)
    } else {
        Err(Error::UnsupportedFramework)
    }
}

/// Hands `command` to the shell, to be run in `dir`.
pub(crate) fn shell_invocation(command: String, dir: &String) -> (r: Invocation)
    ensures
        r@ == shell(command@, dir@),
{
    let mut args: Vec<String> = Vec::new();
    args.push(String::from_str("-c"));
    args.push(command);
    let r = Invocation { program: String::from_str("sh"), args, dir: dir.clone() };
    assert(r@.args =~= seq!["-c"@, command@]);
    r
}

/// Plans the launch of `server` as seen at `site`.
pub fn gunicorn_launch_plan(server: &Server, site: &Site) -> (r: Result<Invocation, Error>)
    ensures
        outcome(r) == gunicorn_launch(server@, site@),
{
    match get_app_string(site, server.framework.as_str()) {
        Err(e) => Err(e),
        Ok(app) => match &site.log_dir {
            Err(reason) => Err(Error::LogPathUnresolved { reason: reason.clone() }),
            Ok(log_dir) => match get_gunicorn_command(
                server,
                server.framework.as_str(),
                app.as_str(),
                log_dir.as_str(),
            ) {
                Err(e) => Err(e),
                Ok(command) => Ok(shell_invocation(command, &server.path)),
            },
        },
    }
}

/// Plans the termination of `server`.
pub fn gunicorn_halt_plan(server: &Server) -> (r: Invocation)
    ensures
        r@ == gunicorn_halt(server@),
{
    let mut pid_file = server.name.clone();
    pid_file.append(".pid");
    let mut args: Vec<String> = Vec::new();
    args.push(String::from_str("-F"));
    args.push(pid_file);
    let r = Invocation { program: String::from_str("pkill"), args, dir: server.path.clone() };
    assert(r@.args =~= seq!["-F"@, server@.name + ".pid"@]);
    r
}

/// Starts an application server. With no report, answers with the launch
/// command and changes nothing; with the report of that command, marks the
/// entry running or gives the reason it is not.
pub fn start_gunicorn(server: &mut Server, site: &Site, reports: &[Report]) -> (step: Step<()>)
    ensures
        (step@, final(server)@) == launched(
            old(server)@,
            gunicorn_launch(old(server)@, site@),
            report_views(reports@),
        ),
{
    let plan = gunicorn_launch_plan(server, site);
    settle_launch(server, plan, reports)
}

/// Stops an application server. With no report, answers with the
/// termination command and changes nothing; with the report of that
/// command, marks the entry stopped or gives the reason it is not.
pub fn stop_gunicorn(server: &mut Server, reports: &[Report]) -> (step: Step<()>)
    ensures
        (step@, final(server)@) == halted(
            old(server)@,
            gunicorn_halt(old(server)@),
            report_views(reports@),
        ),
{
    let invocation = gunicorn_halt_plan(server);
    settle_halt(server, invocation, reports)
}

} // verus!
