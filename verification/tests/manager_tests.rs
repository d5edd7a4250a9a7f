use gserver_manager::commands::command::Command;
use gserver_manager::commands::manager::{Answer, Reply, ServerManager, World};
use gserver_manager::error::Error;
use gserver_manager::host::{Action, Entry, Report, Site, Step};
use gserver_manager::server::servers::Servers;

fn world(is_dir: bool, in_work_tree: bool, names: &[&str]) -> World {
    World {
        current_dir: String::from("/home/operator"),
        is_dir,
        in_work_tree,
        site: Site {
            entries: names.iter().map(|n| Entry { name: String::from(*n), is_file: true }).collect(),
            log_dir: Ok(String::from("/var/log/servers")),
        },
    }
}

fn success() -> Report {
    Report { success: true, stdout: String::new(), stderr: String::new() }
}

fn add(name: &str, path: &str, port: u32) -> Command {
    Command::Add {
        name: String::from(name),
        framework: String::from("flask"),
        path: String::from(path),
        workers: 4,
        bind: String::from("0.0.0.0"),
        port,
        timeout: 30,
        log_path: None,
    }
}

fn redis(path: &str, port: u32) -> Command {
    Command::Redis {
        path: String::from(path),
        bind: String::from("127.0.0.1"),
        port,
        log_path: None,
    }
}

fn done(step: Step<Answer>) -> Result<Answer, Error> {
    match step {
        Step::Done(result) => result,
        Step::Run(_) => panic!("the command is not complete"),
    }
}

fn run(manager: &mut ServerManager, cmd: Command, world: &World) -> Result<Answer, Error> {
    manager.cmd = Some(cmd);
    done(manager.execute(world, &[]))
}

fn names(manager: &ServerManager) -> Vec<String> {
    manager.servers.as_ref().unwrap().servers.iter().map(|s| s.name.clone()).collect()
}

#[test]
fn new_manager_has_an_empty_registry_and_no_command() {
    let mut manager = ServerManager::new();
    assert_eq!(manager.servers.as_ref().unwrap().num_servers(), 0);
    assert!(manager.cmd.is_none());
    let answer = done(manager.execute(&world(true, false, &[]), &[])).unwrap();
    assert!(matches!(answer.reply, Reply::NoCommand));
    assert!(answer.snapshot.is_none());
}

#[test]
fn three_store_instances_are_named_in_turn() {
    let mut manager = ServerManager::new();
    let here = world(true, false, &[]);
    for (path, port) in [("/srv/r1", 6379), ("/srv/r2", 6380), ("/srv/r3", 6381)] {
        let answer = run(&mut manager, redis(path, port), &here).unwrap();
        assert!(matches!(answer.reply, Reply::Added));
    }
    assert_eq!(names(&manager), vec!["redis-server", "redis-server-2", "redis-server-3"]);
    let registry = manager.servers.as_ref().unwrap();
    for instance in &registry.servers {
        assert!(instance.is_store());
        assert_eq!(instance.workers, 1);
        assert_eq!(instance.timeout, 30);
        assert_eq!(instance.bind, "127.0.0.1");
        assert_eq!(instance.log_path, instance.path);
        assert_eq!(instance.original_dir, "/home/operator");
        assert!(!instance.running);
    }
}

#[test]
fn add_builds_the_server_from_the_command_and_the_world() {
    let mut manager = ServerManager::new();
    let answer = run(&mut manager, add("api", "/srv/api", 9000), &world(true, true, &[])).unwrap();
    assert!(matches!(answer.reply, Reply::Added));
    assert_eq!(answer.snapshot.unwrap().num_servers(), 1);
    let registry = manager.servers.as_ref().unwrap();
    let api = registry.fetch_server("api").unwrap();
    assert_eq!(api.path, "/srv/api");
    assert_eq!(api.bind, "0.0.0.0");
    assert_eq!(api.port, 9000);
    assert_eq!(api.workers, 4);
    assert_eq!(api.timeout, 30);
    assert_eq!(api.framework, "flask");
    // Without a log directory the log goes beside the application.
    assert_eq!(api.log_path, "/srv/api");
    assert!(api.github);
    assert!(!api.running);
    assert_eq!(api.original_dir, "/home/operator");

    manager.cmd = Some(Command::Add {
        name: String::from("web"),
        framework: String::from("django"),
        path: String::from("/srv/web"),
        workers: 2,
        bind: String::from("127.0.0.1"),
        port: 80,
        timeout: 5,
        log_path: Some(String::from("/var/log/web")),
    });
    done(manager.execute(&world(true, false, &[]), &[])).unwrap();
    let registry = manager.servers.as_ref().unwrap();
    let web = registry.fetch_server("web").unwrap();
    assert_eq!(web.log_path, "/var/log/web");
    assert_eq!(web.framework, "django");
    assert!(!web.github);
    assert_eq!(names(&manager), vec!["api", "web"]);
}

#[test]
fn add_is_turned_down_for_a_bad_path_or_a_reserved_name() {
    let mut manager = ServerManager::new();
    match run(&mut manager, add("api", "/nowhere", 9000), &world(false, false, &[])) {
        Err(e) => {
            assert!(matches!(e, Error::InvalidServerPath));
            assert_eq!(e.message(), "Invalid server path");
        }
        Ok(_) => panic!("a path that is no directory is turned down"),
    }
    for name in ["redis", "my-Redis-cache", "REDIS-SERVER"] {
        match run(&mut manager, add(name, "/srv/api", 9000), &world(true, false, &[])) {
            Err(e) => {
                assert!(matches!(e, Error::ReservedName));
                assert_eq!(
                    e.message(),
                    "Name reserved for Redis, use `redis --path [path to redis config file]` \
                     instead."
                );
            }
            Ok(_) => panic!("the name is reserved"),
        }
    }
    match run(&mut manager, redis("/nowhere", 6379), &world(false, false, &[])) {
        Err(e) => {
            assert!(matches!(e, Error::InvalidStorePath));
            assert_eq!(e.message(), "Invalid redis config path");
        }
        Ok(_) => panic!("a path that is no directory is turned down"),
    }
    assert_eq!(manager.servers.as_ref().unwrap().num_servers(), 0);

    run(&mut manager, add("api", "/srv/api", 9000), &world(true, false, &[])).unwrap();
    assert!(matches!(
        run(&mut manager, add("web", "/srv/web", 9000), &world(true, false, &[])),
        Err(Error::DuplicatePort)
    ));
    assert!(matches!(
        run(&mut manager, redis("/srv/api", 6379), &world(true, false, &[])),
        Err(Error::DuplicatePath)
    ));
    assert_eq!(names(&manager), vec!["api"]);
}

#[test]
fn commands_are_carried_out_step_by_step() {
    let mut manager = ServerManager::new();
    let here = world(true, false, &["app.py"]);
    run(&mut manager, add("api", "/srv/api", 9000), &here).unwrap();

    manager.cmd = Some(Command::Start { name: String::from("api") });
    let mut reports: Vec<Report> = Vec::new();
    let mut asked = 0;
    let answer = loop {
        match manager.execute(&here, &reports) {
            Step::Run(Action::Execute(invocation)) => {
                assert_eq!(invocation.program, "sh");
                asked += 1;
                reports.push(success());
            }
            Step::Run(_) => panic!("a start only runs a command"),
            Step::Done(result) => break result.unwrap(),
        }
    };
    assert_eq!(asked, 1);
    assert!(matches!(answer.reply, Reply::Started));
    assert!(answer.snapshot.unwrap().servers[0].running);
    assert!(manager.servers.as_ref().unwrap().servers[0].running);
    // The command at hand stays.
    assert!(matches!(manager.cmd, Some(Command::Start { .. })));

    manager.cmd = Some(Command::Restart { name: String::from("api") });
    let answer = done(manager.execute(&here, &[success(), success()])).unwrap();
    assert!(matches!(answer.reply, Reply::Restarted));
    assert!(answer.snapshot.is_some());

    manager.cmd = Some(Command::Stop { name: String::from("api") });
    let answer = done(manager.execute(&here, &[success()])).unwrap();
    assert!(matches!(answer.reply, Reply::Stopped));
    assert!(!manager.servers.as_ref().unwrap().servers[0].running);

    manager.cmd = Some(Command::List);
    match done(manager.execute(&here, &[])).unwrap() {
        Answer { reply: Reply::Listing { lines }, snapshot: None } => {
            assert_eq!(
                lines,
                vec![String::from(
                    "[ ] Name: api | Address: 0.0.0.0:9000 | Workers: 4 | Timeout: 30s | \
                     Log Path: /srv/api |"
                )]
            );
        }
        _ => panic!("a listing has lines and nothing to persist"),
    }

    manager.cmd = Some(Command::Remove { name: String::from("api") });
    match done(manager.execute(&here, &[])).unwrap() {
        Answer { reply: Reply::Removed { stop_error: None }, snapshot: Some(snapshot) } => {
            assert_eq!(snapshot.num_servers(), 0)
        }
        _ => panic!("the removal has nothing to complain of"),
    }
    assert_eq!(manager.servers.as_ref().unwrap().num_servers(), 0);

    manager.cmd = Some(Command::Remove { name: String::from("api") });
    assert!(matches!(done(manager.execute(&here, &[])), Err(Error::NotFound)));
}

#[test]
fn commands_that_only_ask_do_not_persist() {
    let mut manager = ServerManager::new();
    let here = world(true, true, &["app.py", "server.log"]);
    run(&mut manager, add("api", "/srv/api", 9000), &here).unwrap();

    manager.cmd = Some(Command::Monitor { name: String::from("api") });
    let log = Report { success: true, stdout: String::from("line"), stderr: String::new() };
    match done(manager.execute(&here, &[log])).unwrap() {
        Answer { reply: Reply::Log { text }, snapshot: None } => assert_eq!(text, "line"),
        _ => panic!("the log is the reply"),
    }

    manager.cmd = Some(Command::ClearLogs { name: String::from("api") });
    let answer = done(manager.execute(&here, &[success()])).unwrap();
    assert!(matches!(answer, Answer { reply: Reply::LogsCleared, snapshot: None }));

    manager.cmd = Some(Command::AddOrigin {
        name: String::from("api"),
        remote_url: String::from("git@example.org:api.git"),
    });
    match manager.execute(&here, &[]) {
        Step::Run(Action::SetRemote { path, url }) => {
            assert_eq!(path, "/srv/api");
            assert_eq!(url, "git@example.org:api.git");
        }
        _ => panic!("the host must set the origin"),
    }
    let answer = done(manager.execute(&here, &[success()])).unwrap();
    assert!(matches!(answer, Answer { reply: Reply::OriginAdded, snapshot: None }));

    manager.cmd = Some(Command::Visualize { name: String::from("api"), show: true });
    let printed = Report { success: true, stdout: String::from("out"), stderr: String::from("err") };
    match done(manager.execute(&here, &[printed])).unwrap() {
        Answer { reply: Reply::Visualized { output, errors }, snapshot: None } => {
            assert_eq!(output, "out");
            assert_eq!(errors, "err");
        }
        _ => panic!("what the script printed is the reply"),
    }

    manager.cmd = Some(Command::Visualize { name: String::from("Redis-server"), show: true });
    match done(manager.execute(&here, &[])) {
        Err(e) => {
            assert!(matches!(e, Error::VisualizationUnsupported));
            assert_eq!(e.message(), "Visualization for Redis servers not implemented.");
        }
        Ok(_) => panic!("logs of store instances are not plotted"),
    }
}

#[test]
fn update_and_git_init_persist() {
    let mut manager = ServerManager::new();
    let here = world(true, true, &["app.py"]);
    run(&mut manager, add("api", "/srv/api", 9000), &here).unwrap();

    manager.cmd = Some(Command::Update { name: String::from("api") });
    let diff = Report { success: true, stdout: String::from("app.py"), stderr: String::new() };
    match done(manager.execute(&here, &[success(), diff])).unwrap() {
        Answer { reply: Reply::Updated { rebuilt }, snapshot: Some(snapshot) } => {
            assert!(!rebuilt);
            assert_eq!(snapshot.num_servers(), 1);
        }
        _ => panic!("an update persists"),
    }

    manager.cmd = Some(Command::GitInit { name: String::from("api") });
    match done(manager.execute(&here, &[])).unwrap() {
        Answer { reply: Reply::RepositoryReady { initialized }, snapshot: Some(_) } => {
            assert!(!initialized)
        }
        _ => panic!("the directory is a repository already"),
    }

    let mut plain = ServerManager::new();
    run(&mut plain, add("web", "/srv/web", 80), &world(true, false, &["app.py"])).unwrap();
    plain.cmd = Some(Command::Update { name: String::from("web") });
    assert!(matches!(
        done(plain.execute(&world(true, false, &["app.py"]), &[])),
        Err(Error::NotAGitRepository)
    ));
    plain.cmd = Some(Command::GitInit { name: String::from("web") });
    match plain.execute(&world(true, false, &["app.py"]), &[]) {
        Step::Run(Action::InitRepository { path }) => assert_eq!(path, "/srv/web"),
        _ => panic!("the host must set the repository up"),
    }
    match done(plain.execute(&world(true, false, &["app.py"]), &[success()])).unwrap() {
        Answer { reply: Reply::RepositoryReady { initialized }, snapshot: Some(_) } => {
            assert!(initialized)
        }
        _ => panic!("the repository was set up"),
    }
}

#[test]
fn flush_and_hardware() {
    let mut manager = ServerManager::new();
    let here = world(true, false, &["app.py"]);
    run(&mut manager, add("api", "/srv/api", 9000), &here).unwrap();
    manager.cmd = Some(Command::Start { name: String::from("api") });
    done(manager.execute(&here, &[success()])).unwrap();

    manager.cmd = Some(Command::Flush);
    assert!(matches!(manager.execute(&here, &[]), Step::Run(Action::Execute(_))));
    match done(manager.execute(&here, &[success()])).unwrap() {
        Answer { reply: Reply::Flushed { failures }, snapshot: Some(snapshot) } => {
            assert!(failures.is_empty());
            assert_eq!(snapshot.num_servers(), 0);
        }
        _ => panic!("a flush persists"),
    }
    assert_eq!(manager.servers.as_ref().unwrap().num_servers(), 0);

    manager.cmd = Some(Command::Hardware);
    assert!(matches!(manager.execute(&here, &[]), Step::Run(Action::ShowHardware)));
    let answer = done(manager.execute(&here, &[success()])).unwrap();
    assert!(matches!(answer, Answer { reply: Reply::HardwareShown, snapshot: None }));
}

#[test]
fn without_a_registry_commands_have_nothing_to_work_on() {
    let mut manager = ServerManager { servers: None, cmd: None };
    let here = world(true, false, &["app.py"]);
    for cmd in [
        add("api", "/srv/api", 9000),
        redis("/srv/r", 6379),
        Command::Start { name: String::from("api") },
        Command::List,
        Command::Flush,
    ] {
        let answer = run(&mut manager, cmd, &here).unwrap();
        assert!(matches!(answer, Answer { reply: Reply::NoRegistry, snapshot: None }));
        assert!(manager.servers.is_none());
    }
    // What is turned down is turned down all the same.
    assert!(matches!(
        run(&mut manager, add("api", "/nowhere", 9000), &world(false, false, &[])),
        Err(Error::InvalidServerPath)
    ));
    // The hardware display needs no registry.
    manager.cmd = Some(Command::Hardware);
    assert!(matches!(manager.execute(&here, &[]), Step::Run(Action::ShowHardware)));
    manager.servers = Some(Servers::new());
    assert!(matches!(
        run(&mut manager, Command::List, &here).unwrap().reply,
        Reply::Listing { .. }
    ));
}

#[test]
fn commands_say_what_the_host_has_to_look_at() {
    let start = Command::Start { name: String::from("api") };
    assert_eq!(start.subject().map(|n| n.as_str()), Some("api"));
    assert!(start.offered_path().is_none());
    let origin = Command::AddOrigin { name: String::from("web"), remote_url: String::from("u") };
    assert_eq!(origin.subject().map(|n| n.as_str()), Some("web"));
    let plot = Command::Visualize { name: String::from("web"), show: false };
    assert_eq!(plot.subject().map(|n| n.as_str()), Some("web"));
    let new = add("api", "/srv/api", 9000);
    assert!(new.subject().is_none());
    assert_eq!(new.offered_path().map(|p| p.as_str()), Some("/srv/api"));
    let store = redis("/srv/r", 6379);
    assert!(store.subject().is_none());
    assert_eq!(store.offered_path().map(|p| p.as_str()), Some("/srv/r"));
    for cmd in [Command::List, Command::Flush, Command::Hardware] {
        assert!(cmd.subject().is_none());
        assert!(cmd.offered_path().is_none());
    }
}
