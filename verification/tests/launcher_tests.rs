use gserver_manager::error::Error;
use gserver_manager::host::{Action, Entry, Report, Site, Step};
use gserver_manager::server::gunicorn::{
    get_app_string, get_gunicorn_command, gunicorn_halt_plan, gunicorn_launch_plan, start_gunicorn,
    stop_gunicorn,
};
use gserver_manager::server::redis::{
    get_redis_command, redis_halt_plan, redis_launch_plan, start_redis, stop_redis,
};
use gserver_manager::server::server::Server;

fn api() -> Server {
    Server {
        name: String::from("api"),
        path: String::from("/srv/api"),
        bind: String::from("0.0.0.0"),
        port: 9000,
        workers: 4,
        timeout: 30,
        log_path: String::from("logs"),
        github: false,
        running: false,
        framework: String::from("flask"),
        original_dir: String::from("/home/operator"),
    }
}

fn cache() -> Server {
    Server {
        name: String::from("redis-server"),
        path: String::from("configs"),
        bind: String::from("127.0.0.1"),
        port: 6379,
        workers: 1,
        timeout: 30,
        log_path: String::from("configs"),
        github: false,
        running: false,
        framework: String::from("redis"),
        original_dir: String::from("/home/operator"),
    }
}

fn entry(name: &str, is_file: bool) -> Entry {
    Entry { name: String::from(name), is_file }
}

fn site(entries: Vec<Entry>) -> Site {
    Site { entries, log_dir: Ok(String::from("/var/log/servers")) }
}

fn success() -> Report {
    Report { success: true, stdout: String::new(), stderr: String::new() }
}

#[test]
fn entry_point_is_main_then_app() {
    let both = site(vec![entry("app.py", true), entry("main.py", true)]);
    assert_eq!(get_app_string(&both, "flask").unwrap(), "main:app");
    assert_eq!(get_app_string(&both, "fastapi").unwrap(), "main:app");
    let app_only = site(vec![entry("README", true), entry("app.py", true)]);
    assert_eq!(get_app_string(&app_only, "flask").unwrap(), "app:app");
    assert_eq!(get_app_string(&app_only, "fastapi").unwrap(), "app:app");
    assert_eq!(get_app_string(&app_only, "django").unwrap(), "app:app");
}

#[test]
fn entry_point_of_a_full_stack_project_is_its_first_gateway_file() {
    let project = site(vec![
        entry("manage.py", true),
        entry("old.wsgi", false),
        entry(".wsgi", true),
        entry("wsgi", true),
        entry("site.wsgi.bak", true),
        entry("site.wsgi", true),
        entry("other.wsgi", true),
    ]);
    assert_eq!(get_app_string(&project, "django").unwrap(), "site.wsgi");
    let dotted = site(vec![entry("..wsgi", true)]);
    assert_eq!(get_app_string(&dotted, "django").unwrap(), "..wsgi");
}

#[test]
fn entry_point_that_is_missing_is_an_error() {
    let bare = site(vec![entry("manage.py", true), entry(".wsgi", true)]);
    assert!(matches!(get_app_string(&bare, "django"), Err(Error::NoEntrypointFound)));
    assert!(matches!(get_app_string(&bare, "flask"), Err(Error::NoEntrypointFound)));
    // A gateway file is no entry point for the other frameworks.
    let gateway = site(vec![entry("site.wsgi", true)]);
    assert!(matches!(get_app_string(&gateway, "fastapi"), Err(Error::NoEntrypointFound)));
    assert_eq!(Error::NoEntrypointFound.message(), "No entry point found.");
}

#[test]
fn unknown_framework_is_unsupported() {
    let ready = site(vec![entry("main.py", true)]);
    assert!(matches!(get_app_string(&ready, "rails"), Err(Error::UnsupportedFramework)));
    assert!(matches!(get_app_string(&ready, "Flask"), Err(Error::UnsupportedFramework)));
    assert!(matches!(get_app_string(&ready, ""), Err(Error::UnsupportedFramework)));
    assert!(matches!(
        get_gunicorn_command(&api(), "rails", "main:app", "/var/log"),
        Err(Error::UnsupportedFramework)
    ));
    assert_eq!(Error::UnsupportedFramework.message(), "Unsupported framework.");
}

#[test]
fn launch_command_of_each_framework() {
    let expected = "gunicorn --bind=0.0.0.0:9000 --timeout=30 --daemon \
                    --access-logfile /var/log/servers/api.log \
                    --error-logfile /var/log/servers/api.log \
                    --pid api.pid --workers=4 --worker-class=gevent main:app";
    assert_eq!(
        get_gunicorn_command(&api(), "flask", "main:app", "/var/log/servers").unwrap(),
        expected
    );
    assert_eq!(
        get_gunicorn_command(&api(), "fastapi", "main:app", "/var/log/servers").unwrap(),
        expected
    );
    assert_eq!(
        get_gunicorn_command(&api(), "django", "site.wsgi", "/var/log/servers").unwrap(),
        "gunicorn --bind=0.0.0.0:9000 --timeout=30 --daemon \
         --access-logfile /var/log/servers/api.log \
         --error-logfile /var/log/servers/api.log \
         --pid api.pid --workers=4 --worker-type=gevent site.wsgi"
    );
}

#[test]
fn every_launch_command_carries_the_worker_count() {
    let mut server = api();
    server.workers = 2;
    server.port = 9000;
    server.timeout = 30;
    for framework in ["flask", "fastapi", "django"] {
        let command = get_gunicorn_command(&server, framework, "main:app", "/logs").unwrap();
        assert!(command.contains(" --workers=2 "));
        assert!(command.contains(" --bind=0.0.0.0:9000 "));
        assert!(command.contains(" --timeout=30 "));
        assert!(command.contains(" --daemon "));
        assert!(command.contains(" --access-logfile /logs/api.log "));
        assert!(command.contains(" --error-logfile /logs/api.log "));
        assert!(command.ends_with(" main:app"));
    }
    server.workers = 17;
    let command = get_gunicorn_command(&server, "django", "site.wsgi", "/logs").unwrap();
    assert_eq!(
        command,
        "gunicorn --bind=0.0.0.0:9000 --timeout=30 --daemon \
         --access-logfile /logs/api.log --error-logfile /logs/api.log \
         --pid api.pid --workers=17 --worker-type=gevent site.wsgi"
    );
}

#[test]
fn launch_command_carries_the_numbers_as_they_are() {
    let mut server = api();
    server.bind = String::from("10.1.2.3");
    server.port = 4294967295;
    server.workers = 0;
    server.timeout = 1000;
    assert_eq!(
        get_gunicorn_command(&server, "flask", "app:app", "").unwrap(),
        "gunicorn --bind=10.1.2.3:4294967295 --timeout=1000 --daemon \
         --access-logfile /api.log --error-logfile /api.log \
         --pid api.pid --workers=0 --worker-class=gevent app:app"
    );
}

#[test]
fn launch_plan_runs_in_the_server_directory() {
    let plan = gunicorn_launch_plan(&api(), &site(vec![entry("app.py", true)])).unwrap();
    assert_eq!(plan.program, "sh");
    assert_eq!(plan.args.len(), 2);
    assert_eq!(plan.args[0], "-c");
    assert!(plan.args[1].ends_with(" app:app"));
    assert!(plan.args[1].contains("/var/log/servers/api.log"));
    assert_eq!(plan.dir, "/srv/api");
    assert!(matches!(
        gunicorn_launch_plan(&api(), &site(vec![])),
        Err(Error::NoEntrypointFound)
    ));
    let halt = gunicorn_halt_plan(&api());
    assert_eq!(halt.program, "pkill");
    assert_eq!(halt.args, vec![String::from("-F"), String::from("api.pid")]);
    assert_eq!(halt.dir, "/srv/api");
}

#[test]
fn application_server_starts_and_stops() {
    let mut server = api();
    let ready = site(vec![entry("main.py", true)]);
    assert!(matches!(start_gunicorn(&mut server, &ready, &[]), Step::Run(Action::Execute(_))));
    assert!(!server.running);
    assert!(matches!(start_gunicorn(&mut server, &ready, &[success()]), Step::Done(Ok(()))));
    assert!(server.running);
    assert!(matches!(stop_gunicorn(&mut server, &[]), Step::Run(Action::Execute(_))));
    assert!(server.running);
    assert!(matches!(stop_gunicorn(&mut server, &[success()]), Step::Done(Ok(()))));
    assert!(!server.running);
}

#[test]
fn store_command_with_and_without_configuration() {
    let plain = site(vec![entry("dump.rdb", true)]);
    assert_eq!(
        get_redis_command(&cache(), &plain, "/var/log/servers"),
        "redis-server --daemonize yes --bind 127.0.0.1 --port 6379 --timeout 30 \
         --dir ./configs --logfile /var/log/servers/redis-server.log"
    );
    let configured = site(vec![entry("redis.conf", true)]);
    assert_eq!(
        get_redis_command(&cache(), &configured, "/var/log/servers"),
        "redis-server configs/redis.conf --daemonize yes --bind 127.0.0.1 --port 6379 \
         --timeout 30 --dir ./configs --logfile /var/log/servers/redis-server.log"
    );
}

#[test]
fn store_plans_run_where_the_supervisor_runs() {
    let plan = redis_launch_plan(&cache(), &site(vec![])).unwrap();
    assert_eq!(plan.program, "sh");
    assert_eq!(plan.args[0], "-c");
    assert!(plan.args[1].starts_with("redis-server --daemonize yes"));
    assert_eq!(plan.dir, "/home/operator");
    let halt = redis_halt_plan(&cache());
    assert_eq!(halt.program, "redis-cli");
    assert_eq!(
        halt.args,
        vec![String::from("-p"), String::from("6379"), String::from("shutdown")]
    );
    assert_eq!(halt.dir, "/home/operator");
}

#[test]
fn store_instance_starts_and_stops() {
    let mut server = cache();
    let nothing = site(vec![]);
    assert!(matches!(start_redis(&mut server, &nothing, &[]), Step::Run(Action::Execute(_))));
    assert!(!server.running);
    assert!(matches!(start_redis(&mut server, &nothing, &[success()]), Step::Done(Ok(()))));
    assert!(server.running);
    let refused =
        Report { success: false, stdout: String::new(), stderr: String::from("refused") };
    match stop_redis(&mut server, &[refused]) {
        Step::Done(Err(e)) => assert_eq!(e.message(), "Failed to stop [redis-server]: refused"),
        _ => panic!("the stop must fail"),
    }
    assert!(server.running);
    assert!(matches!(stop_redis(&mut server, &[success()]), Step::Done(Ok(()))));
    assert!(!server.running);
}

#[test]
fn store_instance_needs_no_application() {
    // A store instance is started by its kind, whatever its directory holds.
    let mut server = cache();
    match server.start(&site(vec![]), &[]) {
        Step::Run(Action::Execute(invocation)) => {
            assert!(invocation.args[1].starts_with("redis-server "));
        }
        _ => panic!("the launch of the store is asked for"),
    }
    server.running = true;
    match server.stop(&[]) {
        Step::Run(Action::Execute(invocation)) => assert_eq!(invocation.program, "redis-cli"),
        _ => panic!("the shutdown of the store is asked for"),
    }
}

#[test]
fn launch_needs_the_absolute_log_directory() {
    let unresolved = Site {
        entries: vec![entry("app.py", true)],
        log_dir: Err(String::from("No such file or directory (os error 2)")),
    };
    match gunicorn_launch_plan(&api(), &unresolved) {
        Err(e) => {
            assert!(matches!(e, Error::LogPathUnresolved { .. }));
            assert_eq!(e.message(), "No such file or directory (os error 2)");
        }
        Ok(_) => panic!("the launch cannot be planned"),
    }
    assert!(matches!(
        redis_launch_plan(&cache(), &unresolved),
        Err(Error::LogPathUnresolved { .. })
    ));
    // What is wrong with the application is said first.
    let bare = Site { entries: vec![], log_dir: Err(String::from("gone")) };
    assert!(matches!(gunicorn_launch_plan(&api(), &bare), Err(Error::NoEntrypointFound)));
    let mut server = api();
    assert!(matches!(
        server.start(&bare, &[success()]),
        Step::Done(Err(Error::InvalidServerDirectory))
    ));
    assert!(matches!(
        server.start(&unresolved, &[success()]),
        Step::Done(Err(Error::LogPathUnresolved { .. }))
    ));
    assert!(!server.running);
    // Reading the log and stopping do not need it.
    assert!(matches!(server.monitor(&unresolved, &[]), Step::Run(Action::Execute(_))));
    server.running = true;
    assert!(matches!(server.stop(&[success()]), Step::Done(Ok(()))));
}
