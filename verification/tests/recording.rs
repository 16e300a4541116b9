use tack::aot::create::{CreateAction, CreateEvent, CreateReply, CreateState, SpawnOutcome};
use tack::aot::logs::{check_logs_for_errors, record_log_file, LogRead};
use tack::aot::meta::AotMeta;
use tack::aot::record::{
    AotRecorder, MetaThreadAction, Message, RecordAction, RecordEvent, RecordReply, RecordState,
    ServerCall, StartedRead,
};
use tack::aot::threads::{
    check_threads_are_running, thread_name, ThreadAction, ThreadEvent, ThreadReply, ThreadScan,
};
use tack::args::{ArgOptions, RecordMode};
use tack::classpath::TackMeta;
use tack::errors::Error;
use tack::launcher::Launcher;
use tack::path::{FilePath, Platform};
use tack::util::jni::LogKind;

fn text(s: &str) -> String {
    s.to_string()
}

fn path(s: &str) -> FilePath {
    FilePath::from_text(Platform::Unix, s)
}

fn launcher(record: RecordMode, compat: bool) -> Launcher {
    let options = ArgOptions {
        jar: text("paper.jar"),
        jvm_args: vec![text("-Xmx1G"), text("-XX:+UseZGC"), text("-XX:Foo=1"), text("x-XX:")],
        app_args: vec![],
        record,
        compat,
    };
    let mut b = Launcher::builder(options, true, path("/repo")).unwrap();
    b.check_java_version(Ok((text("/jdk"), Ok(())))).unwrap();
    let meta = TackMeta { main_class: text("Main") };
    b.setup_classpath(Ok((vec![], meta))).unwrap();
    b.build(Ok(path("/srv"))).unwrap()
}

fn meta() -> AotMeta {
    AotMeta {
        jvm_ident: text("vm"),
        jvm_args: vec![],
        classpath: vec![],
        aot_cache_hash: [3; 32],
    }
}

fn scan(replies: Vec<ThreadReply>) -> (Vec<String>, Option<Result<bool, Error>>) {
    let mut asked = vec![];
    let mut end = None;
    let (mut state, mut action) = check_threads_are_running();
    let mut replies = replies.into_iter();
    loop {
        match action {
            ThreadAction::Finish(r) => end = Some(r),
            other => asked.push(format!("{other:?}")),
        }
        match replies.next() {
            Some(r) => (state, action) = state.next(r),
            None => return (asked, end),
        }
    }
}

fn begin(len: usize) -> Vec<ThreadReply> {
    vec![
        ThreadEvent::Bean(Ok(false)),
        ThreadEvent::Dump(Ok(len)),
        ThreadEvent::Terminated(Ok(())),
    ]
}

#[test]
fn a_live_server_thread_is_found() {
    let mut replies = begin(4);
    replies.push(ThreadEvent::Thread(Ok(true)));
    replies.push(ThreadEvent::Thread(Ok(false)));
    replies.push(ThreadEvent::Name(Ok(Some(text("main")))));
    replies.push(ThreadEvent::State(Ok(false)));
    replies.push(ThreadEvent::Comparison(Ok(true)));
    replies.push(ThreadEvent::Thread(Ok(false)));
    replies.push(ThreadEvent::Name(Ok(Some(text("Netty IO")))));
    replies.push(ThreadEvent::Thread(Ok(false)));
    replies.push(ThreadEvent::Name(Ok(Some(text("Server thread")))));
    replies.push(ThreadEvent::State(Ok(false)));
    replies.push(ThreadEvent::Comparison(Ok(false)));
    let (asked, end) = scan(replies);
    assert_eq!(
        asked,
        vec![
            "GetThreadBean",
            "DumpAllThreads",
            "GetTerminatedState",
            "GetThread(0)",
            "GetThread(1)",
            "GetThreadName",
            "GetThreadState",
            "CompareState",
            "GetThread(2)",
            "GetThreadName",
            "GetThread(3)",
            "GetThreadName",
            "GetThreadState",
            "CompareState",
        ]
    );
    assert_eq!(end, Some(Ok(true)));
}

#[test]
fn a_live_main_thread_alone_is_a_running_server() {
    let mut replies = begin(1);
    replies.push(ThreadEvent::Thread(Ok(false)));
    replies.push(ThreadEvent::Name(Ok(Some(text("main")))));
    replies.push(ThreadEvent::State(Ok(false)));
    replies.push(ThreadEvent::Comparison(Ok(false)));
    assert_eq!(scan(replies).1, Some(Ok(true)));
}

#[test]
fn a_server_is_gone_once_both_its_threads_are() {
    let mut replies = begin(2);
    for name in ["main", "Server thread"] {
        replies.push(ThreadEvent::Thread(Ok(false)));
        replies.push(ThreadEvent::Name(Ok(Some(text(name)))));
        replies.push(ThreadEvent::State(Ok(false)));
        replies.push(ThreadEvent::Comparison(Ok(true)));
    }
    assert_eq!(scan(replies).1, Some(Ok(false)));
}

#[test]
fn a_server_thread_that_ended_does_not_run() {
    let mut replies = begin(1);
    replies.push(ThreadEvent::Thread(Ok(false)));
    replies.push(ThreadEvent::Name(Ok(Some(text("Server thread")))));
    replies.push(ThreadEvent::State(Ok(false)));
    replies.push(ThreadEvent::Comparison(Ok(true)));
    assert_eq!(scan(replies).1, Some(Ok(false)));
    assert_eq!(
        scan(vec![ThreadEvent::Bean(Ok(false)), ThreadEvent::Dump(Ok(0))]).1,
        Some(Ok(false))
    );
}

#[test]
fn an_object_that_is_null_is_an_error() {
    let message = |replies| scan(replies).1.unwrap().unwrap_err().message();
    assert_eq!(
        message(vec![ThreadEvent::Bean(Ok(true))]),
        "ManagementFactory::getThreadMXBean() returned 'null'"
    );
    let mut replies = begin(1);
    replies.push(ThreadEvent::Thread(Ok(false)));
    replies.push(ThreadEvent::Name(Ok(None)));
    assert_eq!(message(replies), "ThreadInfo::getThreadName() returned 'null'");
    let mut replies = begin(1);
    replies.push(ThreadEvent::Thread(Ok(false)));
    replies.push(ThreadEvent::Name(Ok(Some(text("Server thread")))));
    replies.push(ThreadEvent::State(Ok(true)));
    assert_eq!(message(replies), "ThreadInfo::getThreadState() returned 'null'");
    assert_eq!(thread_name(Ok(Some(text("x")))), Ok(text("x")));
    assert_eq!(thread_name(Err(Error::Exit(1))), Err(Error::Exit(1)));
}

#[test]
fn a_failing_virtual_machine_ends_the_scan() {
    let failure = || Error::jni(text("down"));
    assert_eq!(scan(vec![ThreadEvent::Bean(Err(failure()))]).1, Some(Err(failure())));
    let mut replies = begin(1);
    replies.push(ThreadEvent::Thread(Err(failure())));
    assert_eq!(scan(replies).1, Some(Err(failure())));
}

#[test]
fn a_reply_that_was_not_asked_for_is_passed_over() {
    let (state, action) = ThreadScan::AwaitDump.next(ThreadEvent::Bean(Ok(true)));
    assert_eq!(state, ThreadScan::AwaitDump);
    assert_eq!(action, ThreadAction::DumpAllThreads);
    assert_eq!(ThreadScan::Finished.request(), ThreadAction::Rest);
}

#[test]
fn a_log_is_clean_without_marked_lines() {
    assert_eq!(record_log_file(Platform::Unix).display(), ".paper/logs/aot-record.log");
    let line = |s: &str| -> Result<String, Error> { Ok(text(s)) };
    let failure = || -> Result<String, Error> { Err(Error::io(text("e"))) };
    assert_eq!(
        check_logs_for_errors(LogRead::Lines(vec![line("[info   ] ok"), line("[error ] near")])),
        Ok(true)
    );
    assert_eq!(check_logs_for_errors(LogRead::Lines(vec![])), Ok(true));
    assert_eq!(
        check_logs_for_errors(LogRead::Lines(vec![line("x[error  ]y"), failure()])),
        Ok(false)
    );
    assert_eq!(
        check_logs_for_errors(LogRead::Lines(vec![failure(), line("[error  ]")]))
            .unwrap_err()
            .message(),
        "Failed to check AOT logs for errors\nCaused by: IO error: e"
    );
}

#[test]
fn a_log_that_is_not_had_is_an_error() {
    assert_eq!(
        check_logs_for_errors(LogRead::Missing),
        Err(Error::generic("No AOT log file found"))
    );
    assert_eq!(
        check_logs_for_errors(LogRead::NotOpened(Error::io(text("e")))).unwrap_err().message(),
        "Failed to check AOT logs for errors\nCaused by: IO error: e"
    );
}

fn record(l: &Launcher, events: Vec<RecordReply>) -> (Vec<String>, Vec<String>, Option<Result<(), Error>>) {
    let recorder = AotRecorder::new(l);
    let mut actions = vec![];
    let mut logged = vec![];
    let mut end = None;
    let mut step = recorder.record_aot_cache();
    let mut events = events.into_iter();
    loop {
        for m in step.messages {
            assert_eq!(m.kind, LogKind::Info);
            logged.push(m.text);
        }
        match step.action {
            RecordAction::LookFor(p) => actions.push(format!("look {}", p.display())),
            RecordAction::WriteMeta(m, p) => {
                assert_eq!(m, meta());
                actions.push(format!("write {}", p.display()));
            }
            RecordAction::Finish(r) => end = Some(r),
            other => actions.push(format!("{other:?}")),
        }
        match events.next() {
            Some(e) => step = recorder.record_next(step.state, e),
            None => return (actions, logged, end),
        }
    }
}

fn until_started() -> Vec<RecordReply> {
    let mut events = look(StartedRead::Value(true));
    events.push(RecordEvent::Detached);
    events
}

fn look(read: StartedRead<Error>) -> Vec<RecordReply> {
    vec![
        RecordEvent::Tick,
        RecordEvent::Attached(Ok(())),
        RecordEvent::Threads(Ok(true)),
        RecordEvent::Started(read),
    ]
}

#[test]
fn a_recording_runs_through() {
    let l = launcher(RecordMode::Normal, false);
    let mut events = look(StartedRead::Value(false));
    events.push(RecordEvent::Detached);
    events.extend(look(StartedRead::Exception));
    events.push(RecordEvent::Cleared);
    events.push(RecordEvent::Detached);
    events.extend(until_started());
    events.extend([
        RecordEvent::Ended(Ok(true)),
        RecordEvent::Created(Ok(())),
        RecordEvent::Found(true),
        RecordEvent::MetaBuilt(Ok(meta())),
        RecordEvent::MetaWritten(Ok(())),
    ]);
    let (actions, logged, end) = record(&l, events);
    assert_eq!(
        actions,
        vec![
            "Wait",
            "Attach",
            "CheckThreads",
            "ReadStarted",
            "Detach",
            "Wait",
            "Attach",
            "CheckThreads",
            "ReadStarted",
            "ClearException",
            "Detach",
            "Wait",
            "Attach",
            "CheckThreads",
            "ReadStarted",
            "Detach",
            "EndRecording",
            "CreateCache",
            "look /repo/.paper/cache/paper.aot",
            "BuildMeta",
            "write /repo/.paper/cache/paper.aot.meta",
        ]
    );
    assert_eq!(
        logged,
        vec![
            "AOT cache file written successfully, writing meta file...",
            "AOT cache meta written successfully.",
            "AOT cache recording complete!",
        ]
    );
    assert_eq!(end, Some(Ok(())));
}

#[test]
fn a_recording_of_a_stopped_server_just_ends() {
    let l = launcher(RecordMode::Normal, false);
    let (actions, _, end) = record(
        &l,
        vec![
            RecordEvent::Tick,
            RecordEvent::Attached(Ok(())),
            RecordEvent::Threads(Ok(false)),
            RecordEvent::Detached,
        ],
    );
    assert_eq!(actions, vec!["Wait", "Attach", "CheckThreads", "Detach"]);
    assert_eq!(end, Some(Ok(())));
    let mut events = until_started();
    events.push(RecordEvent::Ended(Ok(false)));
    assert_eq!(record(&l, events).2, Some(Ok(())));
}

#[test]
fn each_failure_of_a_recording_is_told_apart() {
    let l = launcher(RecordMode::Normal, false);
    let failure = || Error::jni(text("x"));
    let message = |events| record(&l, events).2.unwrap().unwrap_err().message();
    let then = |more: Vec<RecordReply>| {
        let mut events = until_started();
        events.extend(more);
        events
    };
    assert_eq!(
        message(vec![RecordEvent::Tick, RecordEvent::Attached(Err(failure()))]),
        "JNI error: x"
    );
    assert_eq!(
        message(vec![
            RecordEvent::Tick,
            RecordEvent::Attached(Ok(())),
            RecordEvent::Threads(Err(failure())),
            RecordEvent::Detached,
        ]),
        "JNI error: x"
    );
    for read in [StartedRead::Failed(failure()), StartedRead::Unusable(failure())] {
        let mut events = look(read);
        events.push(RecordEvent::Detached);
        assert_eq!(message(events), "JNI error: x");
    }
    assert_eq!(
        message(then(vec![RecordEvent::Ended(Err(failure()))])),
        "Failed to end AOT cache recording\nCaused by: JNI error: x"
    );
    assert_eq!(
        message(then(vec![RecordEvent::Ended(Ok(true)), RecordEvent::Created(Err(failure()))])),
        "Failed to create AOT cache\nCaused by: JNI error: x"
    );
    let created = || vec![RecordEvent::Ended(Ok(true)), RecordEvent::Created(Ok(()))];
    let mut missing = created();
    missing.push(RecordEvent::Found(false));
    assert_eq!(message(then(missing)), "No AOT cache file found after recording!");
    let mut unbuilt = created();
    unbuilt.extend([RecordEvent::Found(true), RecordEvent::MetaBuilt(Err(failure()))]);
    assert_eq!(
        message(then(unbuilt)),
        "Failed to generate AOT cache meta\nCaused by: JNI error: x"
    );
    let mut unwritten = created();
    unwritten.extend([
        RecordEvent::Found(true),
        RecordEvent::MetaBuilt(Ok(meta())),
        RecordEvent::MetaWritten(Err(failure())),
    ]);
    assert_eq!(
        message(then(unwritten)),
        "Failed to write AOT cache meta\nCaused by: JNI error: x"
    );
}

#[test]
fn meta_data_out_of_turn_is_not_written() {
    let l = launcher(RecordMode::Normal, false);
    let step = AotRecorder::new(&l)
        .record_next(RecordState::AwaitCreation, RecordEvent::MetaBuilt(Ok(meta())));
    assert_eq!(step.state, RecordState::AwaitCreation);
    assert_eq!(step.action, RecordAction::Rest);
}

#[test]
fn the_recorder_starts_where_there_is_no_meta_data() {
    let l = launcher(RecordMode::Normal, false);
    let recorder = AotRecorder::new(&l);
    assert!(recorder.start_record_thread(false));
    assert!(!recorder.start_record_thread(true));
}

#[test]
fn a_run_for_recording_alone_stops_the_server() {
    let normal = launcher(RecordMode::Normal, false);
    let only = launcher(RecordMode::OnlyRecord, false);
    let end = AotRecorder::new(&normal).exec_meta_thread(&Err(Error::generic("x")));
    assert_eq!(end.notice, Some(text("Failed to write AOT cache: x")));
    assert_eq!(end.action, MetaThreadAction::Finish(Ok(())));
    let end = AotRecorder::new(&only).exec_meta_thread(&Ok(()));
    assert_eq!(end.notice, None);
    assert_eq!(end.action, MetaThreadAction::StopServer { recording_failed: false });
    let end = AotRecorder::new(&only).exec_meta_thread(&Err(Error::generic("x")));
    assert_eq!(end.action, MetaThreadAction::StopServer { recording_failed: true });
    assert_eq!(AotRecorder::server_stopped(Ok(())), Ok(()));
    assert_eq!(AotRecorder::server_stopped(Err(Error::Exit(1))), Ok(()));
    assert_eq!(AotRecorder::stop_calls(true, true), vec![]);
    assert_eq!(AotRecorder::stop_calls(false, false), vec![ServerCall::Halt]);
    assert_eq!(
        AotRecorder::stop_calls(false, true),
        vec![ServerCall::SetAbnormalExit, ServerCall::Halt]
    );
}

#[test]
fn ending_a_recording_looks_at_the_log() {
    let l = launcher(RecordMode::Normal, false);
    let recorder = AotRecorder::new(&l);
    assert_eq!(
        AotRecorder::ending_message(),
        Message {
            kind: LogKind::Info,
            text: text("AOT cache recording ended. Writing AOT config file..."),
        }
    );
    assert_eq!(AotRecorder::require_bean(false), Ok(()));
    assert_eq!(
        AotRecorder::require_bean(true),
        Err(Error::generic("ManagementFactory::getPlatformMXBean() returned 'null'"))
    );
    let clean = || LogRead::Lines(vec![Ok(text("[info   ] fine"))]);
    let marked = || LogRead::Lines(vec![Ok(text("[error  ] bad"))]);
    let good = recorder.end_aot_recording(true, clean());
    assert!(good.recorded);
    assert_eq!(good.warning, None);
    assert_eq!(good.message.text, "AOT cache config recorded successfully.");
    let unsure = recorder.end_aot_recording(true, LogRead::Missing);
    assert!(unsure.recorded);
    assert_eq!(
        unsure.warning,
        Some(text("Failed to check AOT logs for errors: No AOT log file found"))
    );
    for (ended, log) in [(true, marked()), (false, clean()), (false, marked())] {
        let bad = recorder.end_aot_recording(ended, log);
        assert!(!bad.recorded);
        assert_eq!(bad.message.kind, LogKind::Error);
        assert_eq!(
            bad.message.text,
            "AOT cache file writing failed. Check logs at '.paper/logs/aot-record.log'.\n\
             You can try using '--aot-compat'."
        );
    }
    let compat = launcher(RecordMode::Normal, true);
    let bad = AotRecorder::new(&compat).end_aot_recording(false, clean());
    assert_eq!(
        bad.message.text,
        "AOT cache file writing failed. Check logs at '.paper/logs/aot-record.log'."
    );
}

type CreateEnd = (Vec<String>, Vec<String>, Vec<Message>, Option<Result<(), Error>>);

fn create(l: &Launcher, events: Vec<CreateReply>) -> CreateEnd {
    let recorder = AotRecorder::new(l);
    let mut actions = vec![];
    let mut command = vec![];
    let mut logged = vec![];
    let mut end = None;
    let mut step = recorder.create_aot_cache();
    let mut events = events.into_iter();
    loop {
        logged.extend(step.message);
        match step.action {
            CreateAction::DeleteFile(p) => actions.push(format!("delete {}", p.display())),
            CreateAction::EnsureDirectory(p) => actions.push(format!("mkdir {}", p.display())),
            CreateAction::Spawn(args) => {
                command = args;
                actions.push(text("spawn"));
            }
            CreateAction::Finish(r) => end = Some(r),
            other => actions.push(format!("{other:?}")),
        }
        match events.next() {
            Some(e) => step = recorder.create_next(step.state, e),
            None => return (actions, command, logged, end),
        }
    }
}

fn until_spawned(outcome: SpawnOutcome<Error>) -> Vec<CreateReply> {
    vec![
        CreateEvent::Executable(Ok(())),
        CreateEvent::Deleted,
        CreateEvent::DirectoryEnsured,
        CreateEvent::Spawned(outcome),
    ]
}

#[test]
fn a_cache_is_created_by_another_run() {
    let l = launcher(RecordMode::Normal, true);
    let mut events = until_spawned(SpawnOutcome::Running);
    events.push(CreateEvent::Exited(Ok(true)));
    let (actions, command, logged, end) = create(&l, events);
    assert_eq!(
        actions,
        vec![
            "FindExecutable",
            "delete /srv/.paper/logs/aot-create.log",
            "mkdir /srv/.paper/logs",
            "spawn",
            "WaitForExit",
        ]
    );
    assert_eq!(
        command,
        vec![
            "--no-aot",
            "-Xlog:aot*=off",
            "-Xlog:aot*=info:file=.paper/logs/aot-create.log",
            "-XX:AOTMode=create",
            "-XX:+UnlockDiagnosticVMOptions",
            "-XX:-AOTInvokeDynamicLinking",
            "-XX:+UseZGC",
            "-XX:Foo=1",
            "-XX:AOTConfiguration=/repo/.paper/cache/paper.aot.config",
            "-XX:AOTCache=/repo/.paper/cache/paper.aot",
            "-jar",
            "paper.jar",
        ]
    );
    assert_eq!(
        logged,
        vec![Message { kind: LogKind::Info, text: text("Creating AOT cache file...") }]
    );
    assert_eq!(end, Some(Ok(())));
}

#[test]
fn a_creation_without_compatibility_has_fewer_options() {
    let l = launcher(RecordMode::Normal, false);
    let (_, command, _, _) = create(&l, until_spawned(SpawnOutcome::Running));
    assert_eq!(command.len(), 10);
    assert_eq!(command[4], "-XX:+UseZGC");
}

#[test]
fn a_creation_that_fails_shows_what_was_printed() {
    let l = launcher(RecordMode::Normal, false);
    let failed = |output: Result<String, Error>| {
        let mut events = until_spawned(SpawnOutcome::Running);
        events.push(CreateEvent::Exited(Ok(false)));
        events.push(CreateEvent::Output(output));
        let (_, _, logged, end) = create(&l, events);
        (logged, end.unwrap().unwrap_err().message())
    };
    let hint = "Failed to record AOT cache. Check logs at '.paper/logs/aot-create.log'.\n\
                You can try using '--aot-compat'.";
    let (logged, message) = failed(Ok(text("  out of memory\n\n")));
    assert_eq!(logged[1].kind, LogKind::Error);
    assert_eq!(logged[1].text, format!("{hint}\nout of memory"));
    assert_eq!(message, "Failed to create AOT cache");
    let (logged, _) = failed(Ok(text("")));
    assert_eq!(logged[1].text, hint);
    let (logged, _) = failed(Ok(text(" \n")));
    assert_eq!(logged[1].text, format!("{hint}\n"));
    let (logged, message) = failed(Err(Error::io(text("e"))));
    assert_eq!(logged.len(), 1);
    assert_eq!(message, "IO error: e");
}

#[test]
fn each_failure_of_a_creation_is_told_apart() {
    let l = launcher(RecordMode::Normal, false);
    let io = || Error::io(text("e"));
    let message = |l: &Launcher, events| create(l, events).3.unwrap().unwrap_err().message();
    assert_eq!(
        message(&l, vec![CreateEvent::Executable(Err(io()))]),
        "Failed to get path to current executable\nCaused by: IO error: e"
    );
    assert_eq!(message(&l, until_spawned(SpawnOutcome::NoPipe(io()))), "IO error: e");
    assert_eq!(
        message(&l, until_spawned(SpawnOutcome::NotStarted(io()))),
        "Failed to create child process\nCaused by: IO error: e"
    );
    let mut events = until_spawned(SpawnOutcome::Running);
    events.push(CreateEvent::Exited(Err(io())));
    assert_eq!(message(&l, events), "Failed to wait for child process\nCaused by: IO error: e");

    let odd = || FilePath::new(Platform::Unix, vec![0xff]);
    let found = || vec![CreateEvent::Executable(Ok(()))];
    let mut conf = launcher(RecordMode::Normal, false);
    conf.aot_files.conf = odd();
    assert_eq!(message(&conf, found()), "Failed to convert AOT config file to String");
    let mut cache = launcher(RecordMode::Normal, false);
    cache.repo_dir = odd();
    assert_eq!(message(&cache, found()), "Failed to convert AOT cache file to String");
    let mut jar = launcher(RecordMode::Normal, false);
    jar.jar = odd();
    let events = vec![
        CreateEvent::Executable(Ok(())),
        CreateEvent::Deleted,
        CreateEvent::DirectoryEnsured,
    ];
    assert_eq!(message(&jar, events), "Failed to convert jar path to String");
}

#[test]
fn what_a_creation_does_not_wait_for_changes_nothing() {
    let l = launcher(RecordMode::Normal, false);
    let step = AotRecorder::new(&l).create_next(CreateState::AwaitExit, CreateEvent::Deleted);
    assert_eq!(step.state, CreateState::AwaitExit);
    assert_eq!(step.action, CreateAction::Rest);
    assert_eq!(step.message, None);
}
