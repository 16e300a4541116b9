use tack::args::{ArgOptions, RecordMode};
use tack::background::{
    BackgroundAction, BackgroundEvent, BackgroundState, RunEvent, RunStep,
};
use tack::classpath::TackMeta;
use tack::errors::Error;
use tack::launcher::{
    AotCacheAction, JvmStart, LaunchAction, LaunchEvent, LaunchState, Launcher, LauncherBuilder,
    MainEnd,
};
use tack::path::{FilePath, Platform};
use tack::util::jni::{Notice, Stream};
use tack::util::ThreadPanicked;

fn text(s: &str) -> String {
    s.to_string()
}

fn path(s: &str) -> FilePath {
    FilePath::from_text(Platform::Unix, s)
}

fn options() -> ArgOptions {
    ArgOptions {
        jar: text("paper.jar"),
        jvm_args: vec![text("-Xmx1G"), text("-XX:+UseZGC")],
        app_args: vec![text("nogui")],
        record: RecordMode::Normal,
        compat: false,
    }
}

fn builder() -> LauncherBuilder {
    Launcher::builder(options(), true, path("/repo")).unwrap()
}

fn launcher(action: AotCacheAction) -> Launcher {
    let mut b = builder();
    b.check_java_version(Ok((text("/jdk"), Ok(())))).unwrap();
    let meta = TackMeta { main_class: text("org.example.Main") };
    b.setup_classpath(Ok((vec![path("/a.jar"), path("/b.jar")], meta))).unwrap();
    let l = b.build(Ok(path("/srv"))).unwrap();
    l.check_aot_options(Ok(action)).unwrap()
}

#[test]
fn a_builder_knows_the_files_of_the_cache() {
    let b = builder();
    assert_eq!(b.jar.display(), "paper.jar");
    assert_eq!(b.aot_files.meta.display(), "/repo/.paper/cache/paper.aot.meta");
    assert_eq!(b.aot_files.cache.display(), "/repo/.paper/cache/paper.aot");
    assert_eq!(b.aot_files.conf.display(), "/repo/.paper/cache/paper.aot.config");
    assert_eq!(b.args.jvm, vec!["-Xmx1G", "-XX:+UseZGC"]);
    assert_eq!(b.args.app, vec!["nogui"]);
    assert_eq!(b.action, None);
    assert_eq!(b.classpath, None);
    assert_eq!(b.java_home, None);
}

#[test]
fn a_jar_must_exist() {
    assert_eq!(
        Launcher::builder(options(), false, path("/repo")),
        Err(Error::generic("Jar file does not exist: paper.jar"))
    );
}

#[test]
fn a_run_needs_its_class_path_and_java() {
    assert_eq!(builder().build(Ok(path("/srv"))), Err(Error::Exit(1)));
    let mut b = builder();
    b.check_java_version(Ok((text("/jdk"), Ok(())))).unwrap();
    assert_eq!(b.build(Ok(path("/srv"))), Err(Error::Exit(1)));
    assert_eq!(
        builder().build(Err(Error::io(text("gone")))).unwrap_err().message(),
        "Failed to get current directory\nCaused by: IO error: gone"
    );
}

#[test]
fn a_java_that_is_refused_is_not_taken() {
    let mut b = builder();
    assert_eq!(
        b.check_java_version(Ok((text("/jdk"), Err(Error::Exit(1))))),
        Err(Error::Exit(1))
    );
    assert_eq!(b.java_home, None);
    assert_eq!(
        b.check_java_version(Err(Error::java_loc(text("none")))).unwrap_err().message(),
        "Failed to locate Java home\nCaused by: Failed to find Java installation: none"
    );
    assert_eq!(b.java_home, None);
    assert_eq!(b.check_java_version(Ok((text("/jdk"), Ok(())))), Ok(()));
    assert_eq!(b.java_home, Some(text("/jdk")));
}

#[test]
fn a_class_path_that_is_not_had_changes_nothing() {
    let mut b = builder();
    assert_eq!(b.setup_classpath(Err(Error::Exit(4))), Err(Error::Exit(4)));
    assert_eq!(b.classpath, None);
    assert_eq!(b.tack_meta, None);
}

#[test]
fn a_run_logs_where_it_runs() {
    let l = launcher(AotCacheAction::NoCache);
    assert_eq!(l.log_files.dir.display(), "/srv/.paper/logs");
    assert_eq!(l.log_files.record.display(), "/srv/.paper/logs/aot-record.log");
    assert_eq!(l.log_files.create.display(), "/srv/.paper/logs/aot-create.log");
    assert_eq!(l.log_files.use_aot.display(), "/srv/.paper/logs/aot-use.log");
}

#[test]
fn a_check_sets_the_action_only() {
    let before = launcher(AotCacheAction::NoCache);
    let same = launcher(AotCacheAction::NoCache);
    assert_eq!(before.check_aot_options(Ok(AotCacheAction::NoCache)), Ok(same));
    let used = launcher(AotCacheAction::NoCache).check_aot_options(Ok(AotCacheAction::Use));
    let used = used.unwrap();
    assert!(used.action.is_use() && !used.action.is_record() && !used.action.is_none());
    assert_eq!(used.args.app, vec!["nogui"]);
    assert_eq!(
        launcher(AotCacheAction::Use).check_aot_options(Err(Error::Exit(33))),
        Err(Error::Exit(33))
    );
}

/// Follows a launch with these replies.
fn follow_launch(l: &Launcher, events: Vec<LaunchEvent<Error>>) -> (Vec<String>, Option<Result<(), Error>>) {
    let mut actions = vec![];
    let mut end = None;
    let (mut state, mut action) = l.launch(false, false);
    let mut events = events.into_iter();
    loop {
        match action {
            LaunchAction::Delete(f) => actions.push(format!("{} {}", f.name, f.path.display())),
            LaunchAction::RunThread => actions.push(text("thread")),
            LaunchAction::Finish(r) => end = Some(r),
            LaunchAction::Rest => actions.push(text("rest")),
        }
        match events.next() {
            Some(e) => (state, action) = l.launch_next(state, e),
            None => return (actions, end),
        }
    }
}

fn gone() -> LaunchEvent<Error> {
    LaunchEvent::Deleted { exists: true, removed: Ok(()) }
}

#[test]
fn patching_alone_ends_the_run() {
    let l = launcher(AotCacheAction::Record);
    let over = || (LaunchState::Finished, LaunchAction::Finish(Err(Error::Exit(0))));
    assert_eq!(l.launch(true, false), over());
    assert_eq!(l.launch(false, true), over());
}

#[test]
fn a_recording_deletes_the_old_files_first() {
    let (actions, end) = follow_launch(
        &launcher(AotCacheAction::Record),
        vec![
            gone(),
            LaunchEvent::Deleted { exists: false, removed: Ok(()) },
            gone(),
            LaunchEvent::ThreadEnded(Ok(Ok(()))),
        ],
    );
    assert_eq!(
        actions,
        vec![
            "meta /repo/.paper/cache/paper.aot.meta",
            "cache /repo/.paper/cache/paper.aot",
            "config /repo/.paper/cache/paper.aot.config",
            "thread",
        ]
    );
    assert_eq!(end, Some(Ok(())));
}

#[test]
fn a_file_that_is_not_deleted_ends_the_launch() {
    let (actions, end) = follow_launch(
        &launcher(AotCacheAction::Record),
        vec![
            gone(),
            LaunchEvent::Deleted { exists: true, removed: Err(Error::io(text("busy"))) },
        ],
    );
    assert_eq!(actions.len(), 2);
    assert_eq!(
        end.unwrap().unwrap_err().message(),
        "Failed to delete existing AOT cache file\nCaused by: IO error: busy"
    );
}

#[test]
fn a_run_that_does_not_record_deletes_nothing() {
    for action in [AotCacheAction::Use, AotCacheAction::NoCache] {
        let (actions, end) =
            follow_launch(&launcher(action), vec![LaunchEvent::ThreadEnded(Err(ThreadPanicked))]);
        assert_eq!(actions, vec!["thread"]);
        assert_eq!(end, Some(Err(Error::Exit(1))));
    }
}

#[test]
fn what_a_launch_does_not_wait_for_changes_nothing() {
    let l = launcher(AotCacheAction::Record);
    for state in [LaunchState::AwaitThread, LaunchState::AwaitDeletion(3), LaunchState::Finished] {
        assert_eq!(l.launch_next(state, gone()), (state, LaunchAction::Rest));
    }
}

#[test]
fn an_exception_of_the_server_is_described() {
    assert_eq!(
        Launcher::main_returned(Ok(true)),
        MainEnd { describe_exception: true, result: Ok(()) }
    );
    assert_eq!(
        Launcher::main_returned(Ok(false)),
        MainEnd { describe_exception: false, result: Ok(()) }
    );
    assert_eq!(
        Launcher::main_returned(Err(Error::jni(text("x")))),
        MainEnd { describe_exception: false, result: Err(Error::jni(text("x"))) }
    );
}

#[test]
fn a_panic_of_the_run_is_exit_code_one() {
    assert_eq!(Launcher::launched(Err(ThreadPanicked)), Err(Error::Exit(1)));
    assert_eq!(Launcher::launched(Ok(Ok(()))), Ok(()));
    assert_eq!(Launcher::launched(Ok(Err(Error::Exit(3)))), Err(Error::Exit(3)));
}

#[test]
fn a_run_without_a_cache_has_few_options() {
    assert_eq!(
        launcher(AotCacheAction::NoCache).init_jvm().unwrap(),
        vec![
            "--enable-native-access=ALL-UNNAMED",
            "--sun-misc-unsafe-memory-access=allow",
            "-Djava.class.path=/a.jar:/b.jar",
            "-Xmx1G",
            "-XX:+UseZGC",
        ]
    );
}

#[test]
fn a_run_that_uses_a_cache_names_it() {
    assert_eq!(
        launcher(AotCacheAction::Use).init_jvm().unwrap()[2..5],
        [
            "-Xlog:aot*=off",
            "-Xlog:aot*=info:file=.paper/logs/aot-use.log",
            "-XX:AOTCache=/repo/.paper/cache/paper.aot",
        ]
    );
}

#[test]
fn a_run_that_records_names_the_configuration() {
    let mut l = launcher(AotCacheAction::Record);
    assert_eq!(
        l.init_jvm().unwrap()[2..6],
        [
            "-Xlog:aot*=off",
            "-Xlog:aot*=info:file=.paper/logs/aot-record.log",
            "-XX:AOTMode=record",
            "-XX:AOTConfiguration=/repo/.paper/cache/paper.aot.config",
        ]
    );
    l.compat = true;
    assert_eq!(
        l.init_jvm().unwrap()[4..7],
        [
            "-XX:+UnlockDiagnosticVMOptions",
            "-XX:-AOTInvokeDynamicLinking",
            "-XX:AOTMode=record",
        ]
    );
}

#[test]
fn a_windows_class_path_has_semicolons() {
    let mut l = launcher(AotCacheAction::NoCache);
    l.repo_dir = FilePath::from_text(Platform::Windows, "C:\\repo");
    let options = l.init_jvm().unwrap();
    assert_eq!(options[2], "-Djava.class.path=/a.jar;/b.jar");
}

#[test]
fn options_that_are_not_text_are_refused() {
    let odd = || FilePath::new(Platform::Unix, vec![b'/', 0xff]);
    let mut l = launcher(AotCacheAction::NoCache);
    l.classpath = vec![path("/a.jar"), odd()];
    assert_eq!(
        l.init_jvm(),
        Err(Error::generic("Failed to convert classpath to string: /a.jar:/\u{fffd}"))
    );
    let mut l = launcher(AotCacheAction::Use);
    l.aot_files.cache = odd();
    assert_eq!(
        l.init_jvm(),
        Err(Error::generic("Failed to convert AOT cache file path to string: /\u{fffd}"))
    );
    let mut l = launcher(AotCacheAction::Record);
    l.aot_files.conf = odd();
    assert_eq!(
        l.init_jvm(),
        Err(Error::generic("Failed to convert AOT conf file path to string: /\u{fffd}"))
    );
}

#[test]
fn the_server_is_called_by_its_class() {
    let call = launcher(AotCacheAction::NoCache).exec_jvm();
    assert_eq!(call.class_name, "org/example/Main");
    assert_eq!(call.args, vec!["nogui"]);
}

#[test]
fn a_machine_that_is_not_made_says_why() {
    assert_eq!(Launcher::jvm_started(JvmStart::Started), Ok(()));
    assert_eq!(
        Launcher::jvm_started(JvmStart::OptionsRefused(Error::jvm(text("o"))))
            .unwrap_err()
            .message(),
        "Failed to initialize JVM\nCaused by: JVM error: o"
    );
    assert_eq!(
        Launcher::jvm_started(JvmStart::NotStarted(Error::start_jvm(text("s"))))
            .unwrap_err()
            .message(),
        "Failed to start JVM\nCaused by: JVM start error: s"
    );
}

/// Follows the thread with these replies, to its last step.
fn follow(l: &Launcher, events: Vec<RunEvent>) -> (Vec<String>, Vec<Notice>, Option<Result<(), Error>>) {
    let mut actions = vec![];
    let mut notices = vec![];
    let mut end = None;
    let mut events = events.into_iter();
    let mut step: RunStep = l.start_background_thread();
    loop {
        notices.append(&mut step.notices);
        match step.action {
            BackgroundAction::DeleteLog(p) => actions.push(format!("delete {}", p.display())),
            BackgroundAction::CreateDirectory(p) => actions.push(format!("mkdir {}", p.display())),
            BackgroundAction::StartJvm(o) => actions.push(format!("jvm {}", o.len())),
            BackgroundAction::RunServer => actions.push(text("server")),
            BackgroundAction::RunRecorder => actions.push(text("recorder")),
            BackgroundAction::DestroyJvm => actions.push(text("destroy")),
            BackgroundAction::Finish(r) => {
                actions.push(text("finish"));
                end = Some(r);
            }
            BackgroundAction::Rest => actions.push(text("rest")),
        }
        match events.next() {
            Some(e) => step = l.background_next(step.state, e),
            None => return (actions, notices, end),
        }
    }
}

#[test]
fn a_run_without_a_cache_runs_the_server_alone() {
    let (actions, notices, end) = follow(
        &launcher(AotCacheAction::NoCache),
        vec![
            BackgroundEvent::DirectoryCreated(Ok(())),
            BackgroundEvent::JvmMade(JvmStart::Started),
            BackgroundEvent::ServerEnded(Ok(Ok(()))),
            BackgroundEvent::Destroyed(Ok(())),
        ],
    );
    assert_eq!(actions, vec!["mkdir /srv/.paper/logs", "jvm 5", "server", "destroy", "finish"]);
    assert_eq!(notices, vec![]);
    assert_eq!(end, Some(Ok(())));
}

#[test]
fn a_recording_run_tells_all_that_failed() {
    let (actions, notices, end) = follow(
        &launcher(AotCacheAction::Record),
        vec![
            BackgroundEvent::Deleted,
            BackgroundEvent::DirectoryCreated(Err(text("denied"))),
            BackgroundEvent::JvmMade(JvmStart::Started),
            BackgroundEvent::ServerEnded(Err(ThreadPanicked)),
            BackgroundEvent::RecorderEnded(Some(Ok(Err(Error::generic("no cache"))))),
            BackgroundEvent::Destroyed(Err(text("Busy"))),
        ],
    );
    assert_eq!(
        actions,
        vec![
            "delete /srv/.paper/logs/aot-record.log",
            "mkdir /srv/.paper/logs",
            "jvm 9",
            "server",
            "recorder",
            "destroy",
            "finish",
        ]
    );
    let line = |stream: Stream, s: &str| Notice { stream, text: text(s) };
    assert_eq!(
        notices,
        vec![
            line(
                Stream::Error,
                "Failed to create AOT logs directory (/srv/.paper/logs): denied"
            ),
            line(
                Stream::Output,
                "Beginning AOT cache recording (This may cause slowdowns while the JVM is recording)..."
            ),
            line(Stream::Error, "Error during JVM shutdown: Busy"),
            line(Stream::Error, "Error during AOT recording: no cache"),
        ]
    );
    assert_eq!(
        end.unwrap().unwrap_err().message(),
        "Error during server thread\nCaused by: Thread error"
    );
}

#[test]
fn a_recorder_that_was_not_started_is_not_told() {
    let (_, notices, end) = follow(
        &launcher(AotCacheAction::Record),
        vec![
            BackgroundEvent::Deleted,
            BackgroundEvent::DirectoryCreated(Ok(())),
            BackgroundEvent::JvmMade(JvmStart::Started),
            BackgroundEvent::ServerEnded(Ok(Ok(()))),
            BackgroundEvent::RecorderEnded(None),
            BackgroundEvent::Destroyed(Ok(())),
        ],
    );
    assert_eq!(notices.len(), 1);
    assert_eq!(end, Some(Ok(())));
}

#[test]
fn a_machine_that_is_not_made_ends_the_run() {
    let (actions, _, end) = follow(
        &launcher(AotCacheAction::Use),
        vec![
            BackgroundEvent::Deleted,
            BackgroundEvent::DirectoryCreated(Ok(())),
            BackgroundEvent::JvmMade(JvmStart::NotStarted(Error::start_jvm(text("s")))),
        ],
    );
    assert_eq!(
        actions,
        vec!["delete /srv/.paper/logs/aot-use.log", "mkdir /srv/.paper/logs", "jvm 8", "finish"]
    );
    assert_eq!(
        end.unwrap().unwrap_err().message(),
        "Failed to create JVM\nCaused by: Failed to start JVM\nCaused by: JVM start error: s"
    );
}

#[test]
fn options_that_fail_end_the_run_before_the_machine() {
    let mut l = launcher(AotCacheAction::NoCache);
    l.classpath = vec![FilePath::new(Platform::Unix, vec![0xff])];
    let (actions, _, end) = follow(&l, vec![BackgroundEvent::DirectoryCreated(Ok(()))]);
    assert_eq!(actions, vec!["mkdir /srv/.paper/logs", "finish"]);
    assert_eq!(
        end.unwrap().unwrap_err().message(),
        "Failed to create JVM\nCaused by: Failed to convert classpath to string: \u{fffd}"
    );
}

#[test]
fn what_the_thread_does_not_wait_for_changes_nothing() {
    let l = launcher(AotCacheAction::NoCache);
    let step = l.background_next(BackgroundState::AwaitServer, BackgroundEvent::Deleted);
    assert_eq!(step.state, BackgroundState::AwaitServer);
    assert_eq!(step.action, BackgroundAction::Rest);
    assert_eq!(step.notices, vec![]);
}
