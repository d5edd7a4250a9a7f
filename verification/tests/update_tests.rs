use gserver_manager::error::Error;
use gserver_manager::host::{Action, Entry, Report, Site, Step};
use gserver_manager::server::server::Server;
use gserver_manager::utils::rebuild::{contains_compiled_files, contains_manifest};

fn linked() -> Server {
    Server {
        name: String::from("api"),
        path: String::from("/srv/api"),
        bind: String::from("0.0.0.0"),
        port: 9000,
        workers: 4,
        timeout: 30,
        log_path: String::from("/srv/api"),
        github: true,
        running: true,
        framework: String::from("flask"),
        original_dir: String::from("/home/operator"),
    }
}

fn ready() -> Site {
    Site {
        entries: vec![Entry { name: String::from("app.py"), is_file: true }],
        log_dir: Ok(String::from("/srv/api")),
    }
}

fn success() -> Report {
    Report { success: true, stdout: String::new(), stderr: String::new() }
}

fn diff(names: &str) -> Report {
    Report { success: true, stdout: String::from(names), stderr: String::new() }
}

fn failure(text: &str) -> Report {
    Report { success: false, stdout: String::new(), stderr: String::from(text) }
}

#[test]
fn compiled_sources_are_the_manifest_and_the_source_directory() {
    assert!(contains_compiled_files("CMakeLists.txt"));
    assert!(contains_compiled_files("README.md\nsrc/engine.cpp"));
    assert!(contains_compiled_files("docs/CMakeLists.txt.in"));
    assert!(!contains_compiled_files("README.md\napp.py"));
    assert!(!contains_compiled_files("sr\nc"));
    assert!(!contains_compiled_files(""));
    assert!(contains_manifest("a\nCMakeLists.txt\nb"));
    assert!(!contains_manifest("src/engine.cpp"));
    assert!(!contains_manifest("cmakelists.txt"));
}

#[test]
fn update_needs_a_repository_and_an_application() {
    let mut server = linked();
    server.github = false;
    assert!(matches!(server.update(&ready(), &[]), Step::Done(Err(Error::NotAGitRepository))));
    assert!(matches!(
        server.update(&ready(), &[success(), diff("src/a.cpp"), success()]),
        Step::Done(Err(Error::NotAGitRepository))
    ));
    let mut server = linked();
    let empty = Site { entries: vec![], log_dir: Ok(String::new()) };
    assert!(matches!(server.update(&empty, &[]), Step::Done(Err(Error::NotAGitRepository))));
}

#[test]
fn update_pulls_then_lists_the_changed_files() {
    let mut server = linked();
    match server.update(&ready(), &[]) {
        Step::Run(Action::Pull { path }) => assert_eq!(path, "/srv/api"),
        _ => panic!("the pull comes first"),
    }
    match server.update(&ready(), &[success()]) {
        Step::Run(Action::DiffNames { from, to, path }) => {
            assert_eq!(from, "HEAD");
            assert_eq!(to, "HEAD~1");
            assert_eq!(path, "/srv/api");
        }
        _ => panic!("the list of changed files comes second"),
    }
    match server.update(&ready(), &[failure("no remote")]) {
        Step::Done(Err(e)) => {
            assert!(matches!(e, Error::PullFailed { .. }));
            assert_eq!(
                e.message(),
                "Failed to pull the latest changes from the Git repository: no remote"
            );
        }
        _ => panic!("a pull that failed ends the update"),
    }
    match server.update(&ready(), &[success(), failure("bad revision")]) {
        Step::Done(Err(e)) => {
            assert!(matches!(e, Error::DiffFailed { .. }));
            assert_eq!(e.message(), "Failed to get the diff: bad revision");
        }
        _ => panic!("a list that failed ends the update"),
    }
}

#[test]
fn update_without_compiled_changes_builds_nothing() {
    let mut server = linked();
    assert!(matches!(
        server.update(&ready(), &[success(), diff("app.py\nREADME.md")]),
        Step::Done(Ok(false))
    ));
    assert!(matches!(server.update(&ready(), &[success(), diff("")]), Step::Done(Ok(false))));
    // The process is left alone.
    assert!(server.running);
}

#[test]
fn update_with_source_changes_builds_without_configuring() {
    let mut server = linked();
    let changed = "src/engine.cpp\napp.py";
    match server.update(&ready(), &[success(), diff(changed)]) {
        Step::Run(Action::Build { path }) => assert_eq!(path, "/srv/api"),
        _ => panic!("the build is asked for"),
    }
    assert!(matches!(
        server.update(&ready(), &[success(), diff(changed), success()]),
        Step::Done(Ok(true))
    ));
    match server.update(&ready(), &[success(), diff(changed), failure("make: error")]) {
        Step::Done(Err(e)) => {
            assert!(matches!(e, Error::BuildFailed { .. }));
            assert_eq!(e.message(), "Failed to compile and install the project: make: error");
        }
        _ => panic!("a build that failed ends the update"),
    }
}

#[test]
fn update_with_a_changed_manifest_configures_first() {
    let mut server = linked();
    let changed = "CMakeLists.txt\nsrc/engine.cpp";
    match server.update(&ready(), &[success(), diff(changed)]) {
        Step::Run(Action::Configure { path }) => assert_eq!(path, "/srv/api"),
        _ => panic!("the configuration is asked for"),
    }
    match server.update(&ready(), &[success(), diff(changed), success()]) {
        Step::Run(Action::Build { path }) => assert_eq!(path, "/srv/api"),
        _ => panic!("the build is asked for"),
    }
    assert!(matches!(
        server.update(&ready(), &[success(), diff(changed), success(), success()]),
        Step::Done(Ok(true))
    ));
    match server.update(&ready(), &[success(), diff(changed), failure("cmake: error")]) {
        Step::Done(Err(e)) => {
            assert!(matches!(e, Error::ConfigureFailed { .. }));
            assert_eq!(e.message(), "Failed to run cmake: cmake: error");
        }
        _ => panic!("a configuration that failed ends the update"),
    }
    match server.update(&ready(), &[success(), diff(changed), success(), failure("ld: error")]) {
        Step::Done(Err(e)) => assert!(matches!(e, Error::BuildFailed { .. })),
        _ => panic!("a build that failed ends the update"),
    }
}

#[test]
fn update_of_a_store_instance_under_version_control_begins_with_the_pull() {
    let mut store = linked();
    store.name = String::from("redis-server");
    let empty = Site { entries: vec![], log_dir: Ok(String::new()) };
    match store.update(&empty, &[]) {
        Step::Run(Action::Pull { path }) => assert_eq!(path, "/srv/api"),
        _ => panic!("the pull comes first"),
    }
    match store.update(&empty, &[failure("no remote")]) {
        Step::Done(Err(e)) => assert!(matches!(e, Error::PullFailed { .. })),
        _ => panic!("a pull that failed ends the update"),
    }
    assert!(matches!(
        store.update(&empty, &[success(), diff("README.md")]),
        Step::Done(Ok(false))
    ));
    match store.update(&empty, &[success(), diff("CMakeLists.txt")]) {
        Step::Run(Action::Configure { .. }) => {}
        _ => panic!("the configuration is asked for"),
    }
    store.github = false;
    assert!(matches!(store.update(&empty, &[]), Step::Done(Err(Error::NotAGitRepository))));
    assert!(store.running);
}
