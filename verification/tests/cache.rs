use tack::aot::meta::{
    AotMeta, MetaBuild, MetaEvent, MetaRequest, MetaStep, WriteAction, WriteEvent,
    WriteReply,
};
use tack::aot::{
    check_aot_opt, decide_with_cache, decide_without_cache, AotCheck, AotCheckAction,
    AotCheckEvent, AotCheckReply, Decision,
};
use tack::args::{ArgOptions, RecordMode};
use tack::classpath::TackMeta;
use tack::errors::Error;
use tack::launcher::{AotCacheAction, Launcher};
use tack::path::{FilePath, Platform};
use tack::util::fs::{file_hash, FileRead};
use tack::util::parse_hex;

fn text(s: &str) -> String {
    s.to_string()
}

fn path(s: &str) -> FilePath {
    FilePath::from_text(Platform::Unix, s)
}

fn launcher(record: RecordMode) -> Launcher {
    let options = ArgOptions {
        jar: text("paper.jar"),
        jvm_args: vec![text("-Xmx1G")],
        app_args: vec![],
        record,
        compat: false,
    };
    let mut b = Launcher::builder(options, true, path("/repo")).unwrap();
    b.check_java_version(Ok((text("/jdk"), Ok(())))).unwrap();
    let meta = TackMeta { main_class: text("Main") };
    b.setup_classpath(Ok((vec![path("/a.jar"), path("/b.jar")], meta))).unwrap();
    b.build(Ok(path("/srv"))).unwrap()
}

fn meta() -> AotMeta {
    AotMeta {
        jvm_ident: text("vm 26"),
        jvm_args: vec![text("-Xmx1G")],
        classpath: vec![[1; 32], [2; 32]],
        aot_cache_hash: [3; 32],
    }
}

fn written(m: &AotMeta) -> Vec<u8> {
    m.to_bytes().unwrap()
}

fn quiet(result: Result<AotCacheAction, Error>) -> Decision {
    Decision { notice: None, result }
}

fn told(notice: &str) -> Decision {
    Decision { notice: Some(text(notice)), result: Err(Error::Exit(33)) }
}

/// Follows a check with these replies; what was asked for, and the decision.
fn follow(l: &Launcher, events: Vec<AotCheckReply>) -> (Vec<String>, Option<Decision>) {
    let mut asked = vec![];
    let mut decision = None;
    let (mut state, mut action) = check_aot_opt(l);
    let mut events = events.into_iter();
    loop {
        match action {
            AotCheckAction::CreateDirectory(p) => asked.push(format!("mkdir {}", p.display())),
            AotCheckAction::LookFor(p) => asked.push(format!("look {}", p.display())),
            AotCheckAction::ReadMeta(p) => asked.push(format!("read {}", p.display())),
            AotCheckAction::BuildMeta => asked.push(text("build")),
            AotCheckAction::Finish(d) => decision = Some(d),
            AotCheckAction::Rest => asked.push(text("rest")),
        }
        match events.next() {
            Some(e) => (state, action) = state.next(l, e),
            None => return (asked, decision),
        }
    }
}

fn with_saved(record: RecordMode, saved: &AotMeta, current: Result<AotMeta, Error>) -> Decision {
    let events = vec![
        AotCheckEvent::DirectoryCreated(Ok(())),
        AotCheckEvent::Found(true),
        AotCheckEvent::Found(true),
        AotCheckEvent::MetaRead(Ok(written(saved))),
        AotCheckEvent::MetaBuilt(current),
    ];
    follow(&launcher(record), events).1.unwrap()
}

#[test]
fn a_check_looks_in_order() {
    let events = vec![
        AotCheckEvent::DirectoryCreated(Ok(())),
        AotCheckEvent::Found(true),
        AotCheckEvent::Found(true),
        AotCheckEvent::MetaRead(Ok(written(&meta()))),
        AotCheckEvent::MetaBuilt(Ok(meta())),
    ];
    let (asked, decision) = follow(&launcher(RecordMode::Normal), events);
    assert_eq!(
        asked,
        vec![
            "mkdir /repo/.paper/cache",
            "look /repo/.paper/cache/paper.aot",
            "look /repo/.paper/cache/paper.aot.meta",
            "read /repo/.paper/cache/paper.aot.meta",
            "build",
        ]
    );
    assert_eq!(decision, Some(quiet(Ok(AotCacheAction::Use))));
}

#[test]
fn a_run_without_aot_looks_at_nothing() {
    let (asked, decision) = follow(&launcher(RecordMode::NoAot), vec![]);
    assert!(asked.is_empty());
    assert_eq!(decision, Some(quiet(Ok(AotCacheAction::NoCache))));
}

#[test]
fn a_directory_that_is_not_created_ends_the_check() {
    let events = vec![AotCheckEvent::DirectoryCreated(Err(Error::io(text("e"))))];
    let (_, decision) = follow(&launcher(RecordMode::Normal), events);
    assert_eq!(
        decision.unwrap().result.unwrap_err().message(),
        "Failed to create directory: /repo/.paper/cache\nCaused by: IO error: e"
    );
}

#[test]
fn a_missing_file_is_a_missing_cache() {
    for events in [
        vec![AotCheckEvent::DirectoryCreated(Ok(())), AotCheckEvent::Found(false)],
        vec![
            AotCheckEvent::DirectoryCreated(Ok(())),
            AotCheckEvent::Found(true),
            AotCheckEvent::Found(false),
        ],
        vec![
            AotCheckEvent::DirectoryCreated(Ok(())),
            AotCheckEvent::Found(true),
            AotCheckEvent::Found(true),
            AotCheckEvent::MetaRead(Ok(vec![0xff, 0xff])),
        ],
    ] {
        let (_, decision) = follow(&launcher(RecordMode::OnlyUse), events);
        assert_eq!(decision, Some(told("No AOT cache found")));
    }
}

#[test]
fn meta_data_that_is_not_read_ends_the_check() {
    let events = vec![
        AotCheckEvent::DirectoryCreated(Ok(())),
        AotCheckEvent::Found(true),
        AotCheckEvent::Found(true),
        AotCheckEvent::MetaRead(Err(Error::io(text("e")))),
    ];
    let (_, decision) = follow(&launcher(RecordMode::Check), events);
    assert_eq!(
        decision.unwrap().result.unwrap_err().message(),
        "Failed to read AOT meta file: /repo/.paper/cache/paper.aot.meta\nCaused by: IO error: e"
    );
}

#[test]
fn meta_data_that_is_not_collected_ends_the_check() {
    assert_eq!(
        with_saved(RecordMode::Normal, &meta(), Err(Error::Exit(7))),
        quiet(Err(Error::Exit(7)))
    );
}

#[test]
fn a_valid_cache_is_used_in_its_modes() {
    let now = |record| with_saved(record, &meta(), Ok(meta()));
    assert_eq!(now(RecordMode::Normal), quiet(Ok(AotCacheAction::Use)));
    assert_eq!(now(RecordMode::OnlyUse), quiet(Ok(AotCacheAction::Use)));
    assert_eq!(now(RecordMode::NoRecord), quiet(Ok(AotCacheAction::Use)));
    assert_eq!(now(RecordMode::Check), quiet(Err(Error::Exit(0))));
    assert_eq!(now(RecordMode::OnlyRecord), quiet(Err(Error::Exit(0))));
    assert_eq!(now(RecordMode::ForceRecord), quiet(Ok(AotCacheAction::Record)));
}

#[test]
fn an_invalid_cache_is_never_used() {
    let mut others = vec![meta(), meta(), meta(), meta(), meta(), meta()];
    others[0].jvm_ident = text("vm 27");
    others[1].jvm_args.push(text("-Xms1G"));
    others[2].classpath.pop();
    others[3].classpath[1][31] = 0;
    others[4].aot_cache_hash[0] = 0;
    others[5].jvm_args[0] = text("-Xmx2G");
    for other in others {
        assert_ne!(other, meta());
        for (record, expected) in [
            (RecordMode::Normal, quiet(Ok(AotCacheAction::Record))),
            (RecordMode::OnlyUse, told("AOT cache is invalid")),
            (RecordMode::NoRecord, quiet(Ok(AotCacheAction::NoCache))),
            (RecordMode::Check, quiet(Err(Error::Exit(1)))),
            (RecordMode::OnlyRecord, quiet(Ok(AotCacheAction::Record))),
            (RecordMode::ForceRecord, quiet(Ok(AotCacheAction::Record))),
        ] {
            assert_eq!(decide_with_cache(record, &meta(), &other), expected);
        }
    }
}

#[test]
fn without_a_cache_the_mode_decides() {
    for (record, expected) in [
        (RecordMode::Normal, quiet(Ok(AotCacheAction::Record))),
        (RecordMode::OnlyRecord, quiet(Ok(AotCacheAction::Record))),
        (RecordMode::ForceRecord, quiet(Ok(AotCacheAction::Record))),
        (RecordMode::Check, quiet(Err(Error::Exit(1)))),
        (RecordMode::OnlyUse, told("No AOT cache found")),
        (RecordMode::NoRecord, quiet(Ok(AotCacheAction::NoCache))),
    ] {
        assert_eq!(decide_without_cache(record), expected);
    }
}

#[test]
fn what_a_check_did_not_ask_for_changes_nothing() {
    let l = launcher(RecordMode::Normal);
    let (state, action) = AotCheck::AwaitMetaFile.next(&l, AotCheckEvent::MetaRead(Ok(vec![])));
    assert_eq!(state, AotCheck::AwaitMetaFile);
    assert_eq!(action, state.request(&l));
    let (state, action) = AotCheck::Finished.next(&l, AotCheckEvent::Found(true));
    assert_eq!((state, action), (AotCheck::Finished, AotCheckAction::Rest));
}

#[test]
fn the_files_lie_in_one_directory() {
    let (cache, meta) = AotMeta::aot_files(&path("/repo"));
    assert_eq!(cache.display(), "/repo/.paper/cache/paper.aot");
    assert_eq!(meta.display(), "/repo/.paper/cache/paper.aot.meta");
    assert_eq!(
        AotMeta::aot_conf_file(&path("/repo")).display(),
        "/repo/.paper/cache/paper.aot.config"
    );
}

/// Follows the writing of meta data to `file` with these replies.
fn follow_write(file: &FilePath, events: Vec<WriteReply>) -> (Vec<String>, Option<Result<(), Error>>) {
    let mut asked = vec![];
    let mut end = None;
    let (mut write, mut action) = meta().write(file).unwrap();
    let mut events = events.into_iter();
    loop {
        match action {
            WriteAction::Locate(p, name) => asked.push(format!("locate {} {}", p.display(), name)),
            WriteAction::CreateDirectory(p) => asked.push(format!("mkdir {}", p.display())),
            WriteAction::WriteContent(p, bytes) => {
                assert_eq!(bytes, written(&meta()));
                asked.push(format!("write {}", p.display()));
            }
            WriteAction::Rename(from, to) => {
                asked.push(format!("rename {} {}", from.display(), to.display()));
            }
            WriteAction::Finish(r) => end = Some(r),
            WriteAction::Rest => asked.push(text("rest")),
        }
        match events.next() {
            Some(e) => (write, action) = write.next(e),
            None => return (asked, end),
        }
    }
}

#[test]
fn meta_data_is_written_beside_its_file() {
    let file = AotMeta::aot_meta_file(&path("/repo"));
    let (asked, end) = follow_write(
        &file,
        vec![
            WriteEvent::DirectoryCreated(Ok(())),
            WriteEvent::ContentWritten(Ok(())),
            WriteEvent::Renamed(Ok(())),
        ],
    );
    assert_eq!(
        asked,
        vec![
            "mkdir /repo/.paper/cache",
            "write /repo/.paper/cache/paper.aot.meta.tmp",
            "rename /repo/.paper/cache/paper.aot.meta.tmp /repo/.paper/cache/paper.aot.meta",
        ]
    );
    assert_eq!(end, Some(Ok(())));
}

#[test]
fn the_first_failure_ends_the_writing() {
    let file = AotMeta::aot_meta_file(&path("/repo"));
    let io = || Err(Error::io(text("e")));
    let shown = |events: Vec<WriteReply>| {
        let n = events.len();
        let (asked, end) = follow_write(&file, events);
        assert_eq!(asked.len(), n);
        end.unwrap().unwrap_err().message()
    };
    assert_eq!(
        shown(vec![WriteEvent::DirectoryCreated(io())]),
        "Failed to create directory: /repo/.paper/cache\nCaused by: IO error: e"
    );
    assert_eq!(
        shown(vec![WriteEvent::DirectoryCreated(Ok(())), WriteEvent::ContentWritten(io())]),
        "Failed to write AOT meta file: /repo/.paper/cache/paper.aot.meta.tmp\nCaused by: IO error: e"
    );
    assert_eq!(
        shown(vec![
            WriteEvent::DirectoryCreated(Ok(())),
            WriteEvent::ContentWritten(Ok(())),
            WriteEvent::Renamed(io()),
        ]),
        "Failed to rename AOT meta file: /repo/.paper/cache/paper.aot.meta.tmp -> \
         /repo/.paper/cache/paper.aot.meta\nCaused by: IO error: e"
    );
}

#[test]
fn meta_data_is_written_to_a_path_given_whole() {
    let (asked, end) = follow_write(
        &path("/x/meta"),
        vec![
            WriteEvent::Located {
                parent: Some(path("/x")),
                tmp: path("/x/paper.aot.meta.tmp"),
            },
            WriteEvent::DirectoryCreated(Ok(())),
            WriteEvent::ContentWritten(Ok(())),
            WriteEvent::Renamed(Ok(())),
        ],
    );
    assert_eq!(
        asked,
        vec![
            "locate /x/meta paper.aot.meta.tmp",
            "mkdir /x",
            "write /x/paper.aot.meta.tmp",
            "rename /x/paper.aot.meta.tmp /x/meta",
        ]
    );
    assert_eq!(end, Some(Ok(())));
    let (asked, _) = follow_write(
        &path("/"),
        vec![WriteEvent::Located { parent: None, tmp: path("/paper.aot.meta.tmp") }],
    );
    assert_eq!(asked, vec!["locate / paper.aot.meta.tmp", "write /paper.aot.meta.tmp"]);
}

#[test]
fn what_writing_did_not_ask_for_changes_nothing() {
    let file = AotMeta::aot_meta_file(&path("/repo"));
    let (asked, end) = follow_write(
        &file,
        vec![WriteEvent::Renamed(Ok(())), WriteEvent::DirectoryCreated(Ok(()))],
    );
    assert_eq!(
        asked,
        vec!["mkdir /repo/.paper/cache", "rest", "write /repo/.paper/cache/paper.aot.meta.tmp"]
    );
    assert_eq!(end, None);
}

#[test]
fn meta_data_has_its_format() {
    let mut expected = vec![5];
    expected.extend_from_slice(b"vm 26");
    expected.extend_from_slice(&[1, 6]);
    expected.extend_from_slice(b"-Xmx1G");
    expected.push(2);
    expected.extend_from_slice(&[1; 32]);
    expected.extend_from_slice(&[2; 32]);
    expected.extend_from_slice(&[3; 32]);
    assert_eq!(written(&meta()), expected);
}

#[test]
fn meta_data_is_read_back_as_it_was_written() {
    let file = path("m");
    assert_eq!(AotMeta::read(&file, Ok(written(&meta()))), Ok(Some(meta())));
    let empty = AotMeta {
        jvm_ident: text(""),
        jvm_args: vec![],
        classpath: vec![],
        aot_cache_hash: [0; 32],
    };
    assert_eq!(AotMeta::read(&file, Ok(written(&empty))), Ok(Some(empty)));
}

#[test]
fn what_is_not_meta_data_counts_as_none() {
    let file = path("m");
    assert_eq!(AotMeta::read(&file, Ok(vec![])), Ok(None));
    let mut cut = written(&meta());
    cut.pop();
    assert_eq!(AotMeta::read(&file, Ok(cut)), Ok(None));
    assert_eq!(
        AotMeta::read(&file, Err(Error::io(text("e")))).unwrap_err().message(),
        "Failed to read AOT meta file: m\nCaused by: IO error: e"
    );
}

fn collect(l: &Launcher, build: MetaBuild, events: Vec<MetaEvent>) -> (Vec<String>, MetaStep) {
    let mut asked = vec![];
    let mut step = MetaStep::More(build);
    for e in events {
        step = match step {
            MetaStep::More(b) => {
                match b.request(l) {
                    MetaRequest::Probe(p) => asked.push(format!("probe {}", p.display())),
                    MetaRequest::ReadCache(p) => asked.push(format!("cache {}", p.display())),
                }
                b.next(l, e)
            }
            done => done,
        };
    }
    (asked, step)
}

fn content(text: &str) -> FileRead {
    FileRead::Content(text.as_bytes().to_vec())
}

fn digest(text: &str) -> [u8; 32] {
    file_hash(&path("f"), content(text)).unwrap()
}

#[test]
fn meta_data_is_collected_along_the_class_path() {
    let l = launcher(RecordMode::Normal);
    assert_eq!(AotMeta::ident_program(&l).display(), "/jdk/bin/java");
    let build = AotMeta::build(&l, Ok(b"\n vm 26\t\r\n".to_vec())).unwrap();
    let (asked, step) = collect(
        &l,
        build,
        vec![
            MetaEvent::Probed(Some(content("a"))),
            MetaEvent::Probed(Some(content("b"))),
            MetaEvent::CacheRead(content("abc")),
        ],
    );
    assert_eq!(
        asked,
        vec!["probe /a.jar", "probe /b.jar", "cache /repo/.paper/cache/paper.aot"]
    );
    let abc = parse_hex("ba7816bf8f01cfea414140de5dae2223b00361a396177a9cb410ff61f20015ad");
    assert_eq!(
        step,
        MetaStep::Done(Ok(AotMeta {
            jvm_ident: text("vm 26"),
            jvm_args: vec![text("-Xmx1G")],
            classpath: vec![digest("a"), digest("b")],
            aot_cache_hash: abc.unwrap(),
        }))
    );
}

#[test]
fn a_java_that_does_not_answer_has_no_meta_data() {
    let l = launcher(RecordMode::Normal);
    assert_eq!(
        AotMeta::build(&l, Err(Error::io(text("e")))).unwrap_err().message(),
        "Failed to execute 'java -Xinternalversion' command (/jdk/bin/java)\nCaused by: IO error: e"
    );
}

#[test]
fn the_first_file_that_is_not_hashed_ends_the_collection() {
    let l = launcher(RecordMode::Normal);
    let build = || AotMeta::build(&l, Ok(vec![])).unwrap();
    let (_, step) = collect(&l, build(), vec![MetaEvent::Probed(None)]);
    assert_eq!(
        step,
        MetaStep::Done(Err(Error::generic(
            "Cannot compute AOT info: classpath entry does not exist: /a.jar"
        )))
    );
    let message = |events| match collect(&l, build(), events).1 {
        MetaStep::Done(Err(e)) => e.message(),
        other => panic!("{other:?}"),
    };
    assert_eq!(
        message(vec![
            MetaEvent::Probed(Some(content("a"))),
            MetaEvent::Probed(Some(FileRead::NotOpened(Error::io(text("e"))))),
        ]),
        "Failed to hash file /b.jar\nCaused by: Failed to open file: /b.jar\nCaused by: IO error: e"
    );
    assert_eq!(
        message(vec![
            MetaEvent::Probed(Some(content("a"))),
            MetaEvent::Probed(Some(content("b"))),
            MetaEvent::CacheRead(FileRead::Broken(Error::io(text("e")))),
        ]),
        "Failed to hash file /repo/.paper/cache/paper.aot\nCaused by: IO error: e"
    );
    let (_, step) = collect(&l, build(), vec![MetaEvent::CacheRead(content("abc"))]);
    assert_eq!(step, MetaStep::More(build()));
}
