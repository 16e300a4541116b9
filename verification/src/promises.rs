//! What callers can rely on: laws over every result that a function of the
//! library can give.

use crate::aot::create::{CreateAction, CreateReply, CreateState, CreateStep};
use crate::aot::logs::{check_logs_for_errors, law_marked_line_settles, LogRead};
use crate::aot::meta::{cache_file, AotMeta, MetaBuild};
use crate::aot::record::{
    AotRecorder, EndReport, MetaThreadAction, MetaThreadEnd, Message, ServerCall,
};
use crate::args::{ArgOptions, RecordMode};
use crate::errors::{seen, Error, ErrorView};
use crate::launcher::{
    jvm_options, law_class_path_option, law_jvm_options_by_action, split_at_byte, AotCacheAction,
    Launcher, LauncherBuilder, MainCall, MainEnd,
};
use crate::outside::{sha256_of, utf8_error_text};
use crate::path::{law_path_text, FilePath, PathView, Platform};
use crate::run::{cache_checked, classpath_ready, conclude, require_options, Ending};
use crate::text::{
    decimal, dots_to_slashes, is_space, law_decimal, law_readable, law_replaced, law_trimmed, trim,
};
use crate::util::fs::{
    bytes_matches_hash, create_directory, create_file, file_hash, file_matches_hash, find_zip_entry,
    finish_extraction, open_file, open_zip, read_zip_entry, read_zip_entry_text, require_zip_entry,
    try_delete_file, write_file, FileRead, ZipFailure,
};
use crate::util::jni::{
    check_java_output, log, log_ended, start_java_check, JavaCheck, LogKind, LogPlan, Notice,
    Stream, VersionCheck,
};
use crate::util::windows::{check_gui_launch, Dialog};
use crate::util::{is_env_true, parse_hex_named, ThreadPanicked};
use vstd::prelude::*;
use vstd::utf8::{encode_utf8, valid_utf8};

verus! {

/// A text that was trimmed is the text between white space, with none left at
/// either end.
pub proof fn law_trim(s: &str, r: String) -> (ends: (Seq<char>, Seq<char>))
    requires
        call_ensures(trim, (s,), r),
    ensures
        s@ == ends.0 + r@ + ends.1,
        forall|i: int| 0 <= i < ends.0.len() ==> is_space(#[trigger] ends.0[i]),
        forall|i: int| 0 <= i < ends.1.len() ==> is_space(#[trigger] ends.1[i]),
        r@.len() > 0 ==> !is_space(r@[0]) && !is_space(r@.last()),
{
    law_trimmed(s@)
}

/// A name with slashes is as long as the one with dots, and differs from it
/// exactly where that has a dot, which becomes a slash.
pub proof fn law_dots_to_slashes(s: &str, r: String)
    requires
        call_ensures(dots_to_slashes, (s,), r),
    ensures
        r@.len() == s@.len(),
        !r@.contains('.'),
        forall|i: int| 0 <= i < r@.len() && s@[i] == '.' ==> #[trigger] r@[i] == '/',
        forall|i: int| 0 <= i < r@.len() && s@[i] != '.' ==> #[trigger] r@[i] == s@[i],
{
    law_replaced(s@, '.', '/');
}

/// Two numbers that are written alike are equal.
pub proof fn law_decimal_tells_apart(m: u64, n: u64, r: String)
    requires
        call_ensures(decimal, (m,), r),
        call_ensures(decimal, (n,), r),
    ensures
        m == n,
{
    law_decimal(m as nat);
    law_decimal(n as nat);
}

/// A log with a line that holds the mark of an error, after lines that could be
/// read, is never told to be clean.
pub proof fn law_marked_log_is_not_clean(
    lines: Vec<Result<String, Error>>,
    i: int,
    a: Seq<char>,
    b: Seq<char>,
    r: Result<bool, Error>,
)
    requires
        call_ensures(check_logs_for_errors, (LogRead::Lines(lines),), r),
        0 <= i < lines@.len(),
        forall|j: int| 0 <= j < i ==> (#[trigger] lines@[j]) is Ok,
        lines@[i] matches Ok(line) && line@ == a + "[error  ]"@ + b,
    ensures
        r matches Ok(clean) && !clean,
{
    law_marked_line_settles(lines@, i, a, b);
}

/// The end of a recording: there is a configuration only where the virtual
/// machine ended the recording and the log shows no error. A log that is missing
/// shows none, and that is told. What is logged says which, and names the option
/// that may help exactly where it is not used yet.
pub proof fn law_end_of_recording<'a>(
    recorder: AotRecorder<'a>,
    ended: bool,
    log: LogRead,
    r: EndReport,
)
    requires
        call_ensures(AotRecorder::end_aot_recording, (&recorder, ended, log), r),
    ensures
        r.recorded ==> ended,
        r.recorded <==> r.message.kind == LogKind::Info,
        r.recorded ==> r.message.text@ == "AOT cache config recorded successfully."@,
        !r.recorded && recorder.launcher.compat ==> r.message.text@
            == "AOT cache file writing failed. Check logs at '.paper/logs/aot-record.log'."@,
        !r.recorded && !recorder.launcher.compat ==> r.message.text@
            == "AOT cache file writing failed. Check logs at '.paper/logs/aot-record.log'."@
            + "\nYou can try using '--aot-compat'."@,
        log is Missing ==> r.recorded == ended && (r.warning matches Some(t) && t@
            == "Failed to check AOT logs for errors: "@ + "No AOT log file found"@),
        log matches LogRead::NotOpened(e) ==> r.recorded == ended && (r.warning matches Some(t)
            && t@ == "Failed to check AOT logs for errors: "@ + (
        "Failed to check AOT logs for errors"@ + "\nCaused by: "@ + e@.text())),
        log matches LogRead::Lines(lines) ==> lines@.len() == 0 ==> r.recorded == ended
            && r.warning is None,
{
    reveal_with_fuel(ErrorView::text, 2);
}

/// A recording whose log holds the mark of an error gives no configuration, even
/// where the virtual machine ended it.
pub proof fn law_marked_log_is_not_recorded<'a>(
    recorder: AotRecorder<'a>,
    ended: bool,
    lines: Vec<Result<String, Error>>,
    i: int,
    a: Seq<char>,
    b: Seq<char>,
    r: EndReport,
)
    requires
        call_ensures(
            AotRecorder::end_aot_recording,
            (&recorder, ended, LogRead::Lines(lines)),
            r,
        ),
        0 <= i < lines@.len(),
        forall|j: int| 0 <= j < i ==> (#[trigger] lines@[j]) is Ok,
        lines@[i] matches Ok(line) && line@ == a + "[error  ]"@ + b,
    ensures
        !r.recorded,
        r.message.kind == LogKind::Error,
        r.warning is None,
{
    law_marked_line_settles(lines@, i, a, b);
}

/// Before a recording is ended that is logged, and the bean for it must be there.
pub proof fn law_recording_is_ended_by_a_bean(m: Message, is_null: bool, r: Result<(), Error>)
    requires
        call_ensures(AotRecorder::ending_message, (), m),
        call_ensures(AotRecorder::require_bean, (is_null,), r),
    ensures
        m.kind == LogKind::Info,
        m.text@ == "AOT cache recording ended. Writing AOT config file..."@,
        r is Ok <==> !is_null,
        r matches Err(e) ==> e@.text() == "ManagementFactory"@ + "::"@ + "getPlatformMXBean()"@
            + " returned 'null'"@,
{
}

/// A recorder runs only where there is no meta data yet. A failure of it is told,
/// and only a run for recording alone stops the server; whether that worked does
/// not matter.
pub proof fn law_recording_thread<'a>(
    recorder: AotRecorder<'a>,
    meta_exists: bool,
    starts: bool,
    recorded: Result<(), Error>,
    r: MetaThreadEnd,
    stopped: Result<(), Error>,
    out: Result<(), Error>,
)
    requires
        call_ensures(AotRecorder::start_record_thread, (&recorder, meta_exists), starts),
        call_ensures(AotRecorder::exec_meta_thread, (&recorder, &recorded), r),
        call_ensures(AotRecorder::server_stopped, (stopped,), out),
    ensures
        starts <==> !meta_exists,
        recorded is Ok <==> r.notice is None,
        recorded matches Err(e) ==> (r.notice matches Some(t) && t@
            == "Failed to write AOT cache: "@ + e@.text()),
        r.action is StopServer <==> recorder.launcher.record == RecordMode::OnlyRecord,
        r.action matches MetaThreadAction::StopServer { recording_failed } ==> (recording_failed
            <==> recorded is Err),
        r.action matches MetaThreadAction::Finish(end) ==> end is Ok,
        out is Ok,
{
    assert(r.action@ is StopServer <==> r.action is StopServer);
}

/// A server that is there is halted, last; it is told before that the exit is
/// abnormal exactly where recording failed. One that is not there is not called.
pub proof fn law_stop_calls(is_null: bool, failed: bool, r: Vec<ServerCall>)
    requires
        call_ensures(AotRecorder::stop_calls, (is_null, failed), r),
    ensures
        is_null <==> r@.len() == 0,
        !is_null ==> r@.last() == ServerCall::Halt,
        !is_null && !failed ==> r@.len() == 1,
        !is_null && failed ==> r@.len() == 2 && r@[0] == ServerCall::SetAbnormalExit,
{
}

/// The program that is started to create a cache is given the file of the
/// configuration after the key for it, the file of the cache after its own, and
/// the jar last.
pub proof fn law_creation_command<'a>(
    recorder: AotRecorder<'a>,
    r: CreateStep,
    args: Vec<String>,
)
    requires
        call_ensures(
            AotRecorder::create_next,
            (&recorder, CreateState::AwaitDirectory, CreateReply::DirectoryEnsured),
            r,
        ),
        r.action == CreateAction::<FilePath, Vec<String>, Result<(), Error>>::Spawn(args),
    ensures
        ({
            let l = *recorder.launcher;
            let n = args@.len();
            &&& n >= 8
            &&& args@[0]@ == "--no-aot"@
            &&& l.aot_files.conf@.text() matches Some(conf) && args@[n - 4]@
                == "-XX:AOTConfiguration="@ + conf
            &&& cache_file(l.repo_dir@).text() matches Some(cache) && args@[n - 3]@
                == "-XX:AOTCache="@ + cache
            &&& args@[n - 2]@ == "-jar"@
            &&& l.jar@.text() matches Some(jar) && args@[n - 1]@ == jar
        }),
{
    let n = args@.len() as int;
    let a = args.deep_view();
    assert(a.len() == n);
    assert(r@.action == CreateAction::<PathView, Seq<Seq<char>>, Result<(), ErrorView>>::Spawn(a));
    assert(a[0] == args@[0]@ && a[n - 4] == args@[n - 4]@ && a[n - 3] == args@[n - 3]@ && a[n - 2]
        == args@[n - 2]@ && a[n - 1] == args@[n - 1]@);
}

/// The options that a virtual machine is started with hold the class path of the
/// run: split at the separator of the platform, what follows the key is its files,
/// all of them and in order.
pub proof fn law_class_path_is_whole(l: Launcher, sep: u8, options: Vec<String>) -> (at: int)
    requires
        call_ensures(Launcher::init_jvm, (&l,), Ok(options)),
        l.classpath@.len() > 0,
        l.repo_dir@.platform == Platform::Unix ==> sep == 0x3a,
        l.repo_dir@.platform == Platform::Windows ==> sep == 0x3b,
        forall|i: int|
            0 <= i < l.classpath@.len() ==> !(#[trigger] l.classpath@[i])@.bytes().contains(sep),
    ensures
        at == options@.len() - l.args.jvm@.len() - 1,
        0 <= at < options@.len(),
        ({
            let key = "-Djava.class.path="@;
            let option = options@[at]@;
            let parts = split_at_byte(encode_utf8(option.skip(key.len() as int)), sep);
            &&& option.len() >= key.len()
            &&& option.take(key.len() as int) == key
            &&& parts.len() == l.classpath@.len()
            &&& forall|i: int|
                0 <= i < parts.len() ==> #[trigger] parts[i] == l.classpath@[i]@.bytes()
        }),
{
    let o = options.deep_view();
    assert(jvm_options(l) == Ok::<Seq<Seq<char>>, ErrorView>(o));
    law_jvm_options_by_action(l);
    law_class_path_option(l, sep);
    let at = options@.len() - l.args.jvm@.len() - 1;
    assert(o[at] == options@[at]@);
    at
}

/// The call that starts the server is of the main class, by its name with
/// slashes, with the arguments of the user for the server, all and in order.
pub proof fn law_main_call(l: Launcher, r: MainCall)
    requires
        call_ensures(Launcher::exec_jvm, (&l,), r),
    ensures
        r.class_name@.len() == l.tack_meta.main_class@.len(),
        forall|i: int|
            0 <= i < r.class_name@.len() && l.tack_meta.main_class@[i] == '.'
                ==> #[trigger] r.class_name@[i] == '/',
        forall|i: int|
            0 <= i < r.class_name@.len() && l.tack_meta.main_class@[i] != '.'
                ==> #[trigger] r.class_name@[i] == l.tack_meta.main_class@[i],
        r.args@.len() == l.args.app@.len(),
        forall|i: int| 0 <= i < r.args@.len() ==> (#[trigger] r.args@[i])@ == l.args.app@[i]@,
{
    law_replaced(l.tack_meta.main_class@, '.', '/');
    assert(r.args.deep_view().len() == l.args.app.deep_view().len());
    assert forall|i: int| 0 <= i < r.args@.len() implies (#[trigger] r.args@[i])@
        == l.args.app@[i]@ by {
        assert(r.args.deep_view()[i] == l.args.app.deep_view()[i]);
    }
}

/// An exception that the server left is described and is no failure; a call that
/// was not made fails, and then there is none to describe.
pub proof fn law_main_end(called: Result<bool, Error>, r: MainEnd)
    requires
        call_ensures(Launcher::main_returned, (called,), r),
    ensures
        called is Ok <==> r.result is Ok,
        r.describe_exception <==> called == Ok::<bool, Error>(true),
        called matches Err(e) ==> r.result == Err::<(), Error>(e),
{
}

/// A run that was checked is the run that was prepared, but for what it does with
/// the cache, which is what the check came to; nothing else of it changes.
pub proof fn law_checked_run(l: Launcher, action: AotCacheAction, r: Result<Launcher, Error>)
    requires
        call_ensures(Launcher::check_aot_options, (l, Ok(action)), r),
    ensures
        r matches Ok(out) && out.action == action && out.jar == l.jar && out.repo_dir == l.repo_dir
            && out.classpath == l.classpath && out.tack_meta == l.tack_meta && out.java_home
            == l.java_home && out.args == l.args && out.record == l.record && out.compat == l.compat
            && out.aot_files == l.aot_files && out.log_files == l.log_files,
{
}

/// A run is prepared only for a jar that exists, and keeps the options that it was
/// given.
pub proof fn law_prepared_run(
    options: ArgOptions,
    present: bool,
    repo: FilePath,
    r: Result<LauncherBuilder, Error>,
)
    requires
        call_ensures(Launcher::builder, (options, present, repo), r),
    ensures
        r is Ok <==> present,
        r matches Err(e) ==> e@.text() == "Jar file does not exist: "@ + options.jar@,
        r matches Ok(b) ==> {
            &&& b.jar@.text() == Some(options.jar@)
            &&& b.args.jvm == options.jvm_args
            &&& b.args.app == options.app_args
            &&& b.record == options.record
            &&& b.compat == options.compat
            &&& b.repo_dir == repo
            &&& b.aot_files.cache@ == repo@.child(".paper"@).child("cache"@).child("paper.aot"@)
            &&& b.aot_files.conf@ == repo@.child(".paper"@).child("cache"@).child(
                "paper.aot.config"@,
            )
            &&& b.aot_files.meta@ == repo@.child(".paper"@).child("cache"@).child(
                "paper.aot.meta"@,
            )
        },
{
    if let Ok(b) = r {
        law_path_text(b.jar@, options.jar@);
    }
}

/// A run is ready exactly where its class path, its server and its Java are known
/// and the directory that it is in is. It is what was prepared; where nothing was
/// said of the cache it goes without one.
pub proof fn law_ready_run(b: LauncherBuilder, dir: Result<FilePath, Error>, r: Result<Launcher, Error>)
    requires
        call_ensures(LauncherBuilder::build, (b, dir), r),
    ensures
        r is Ok <==> dir is Ok && b.classpath is Some && b.tack_meta is Some && b.java_home is Some,
        dir matches Err(e) ==> r->Err_0@.text() == "Failed to get current directory"@
            + "\nCaused by: "@ + e@.text(),
        dir is Ok && r is Err ==> r->Err_0@ == ErrorView::Exit(1),
        r matches Ok(l) ==> {
            &&& b.classpath == Some(l.classpath) && b.tack_meta == Some(l.tack_meta)
            &&& b.java_home == Some(l.java_home) && b.jar == l.jar && b.repo_dir == l.repo_dir
            &&& b.args == l.args && b.record == l.record && b.compat == l.compat
            &&& b.aot_files == l.aot_files
            &&& b.action is None ==> l.action == AotCacheAction::NoCache
            &&& b.action matches Some(a) ==> l.action == a
            &&& l.log_files.record@ == dir->Ok_0@.child(".paper"@).child("logs"@).child(
                "aot-record.log"@,
            )
            &&& l.log_files.create@ == dir->Ok_0@.child(".paper"@).child("logs"@).child(
                "aot-create.log"@,
            )
            &&& l.log_files.use_aot@ == dir->Ok_0@.child(".paper"@).child("logs"@).child(
                "aot-use.log"@,
            )
            &&& l.log_files.dir@ == dir->Ok_0@.child(".paper"@).child("logs"@)
        },
{
}

/// A thread that panicked ends the run with exit code 1; any other outcome is that
/// of the run.
pub proof fn law_launched(joined: Result<Result<(), Error>, ThreadPanicked>, r: Result<(), Error>)
    requires
        call_ensures(Launcher::launched, (joined,), r),
    ensures
        joined matches Ok(out) ==> r == out,
        joined is Err ==> (r matches Err(e) && e@ == ErrorView::Exit(1)),
{
}

/// What is written of meta data is read back as the same meta data.
pub proof fn law_meta_is_read_back(
    m: AotMeta,
    file: FilePath,
    written: Result<Vec<u8>, Error>,
    bytes: Vec<u8>,
    r: Result<Option<AotMeta>, Error>,
)
    requires
        call_ensures(AotMeta::to_bytes, (&m,), written),
        written matches Ok(b) && b@ == bytes@,
        call_ensures(AotMeta::read, (&file, Ok(bytes)), r),
    ensures
        r matches Ok(Some(back)) && back.jvm_ident@ == m.jvm_ident@ && back.jvm_args.deep_view()
            == m.jvm_args.deep_view() && back.classpath.deep_view() == m.classpath.deep_view()
            && back.aot_cache_hash@ == m.aot_cache_hash@,
{
}

/// A file of meta data that could not be read is an error that names it.
pub proof fn law_unread_meta(file: FilePath, e: Error, r: Result<Option<AotMeta>, Error>)
    requires
        call_ensures(AotMeta::read, (&file, Err(e)), r),
    ensures
        r is Err,
        r->Err_0@.text() == "Failed to read AOT meta file: "@ + file@.shown() + "\nCaused by: "@
            + e@.text(),
        r->Err_0.trace() == e.trace(),
{
}

/// What is saved of a virtual machine is what it said of its version, between
/// white space, and no digest is had before a file was read.
pub proof fn law_ident_is_kept(
    l: Launcher,
    said: Seq<char>,
    bytes: Vec<u8>,
    r: Result<MetaBuild, Error>,
) -> (ends: (Seq<char>, Seq<char>))
    requires
        call_ensures(AotMeta::build, (&l, Ok(bytes)), r),
        bytes@ == encode_utf8(said),
    ensures
        r is Ok,
        said == ends.0 + r->Ok_0.ident() + ends.1,
        forall|i: int| 0 <= i < ends.0.len() ==> is_space(#[trigger] ends.0[i]),
        forall|i: int| 0 <= i < ends.1.len() ==> is_space(#[trigger] ends.1[i]),
        r->Ok_0.hashes().len() == 0,
{
    law_readable(said, Seq::empty());
    law_trimmed(said)
}

/// A message is logged by the method of its kind, whole; one that could not be
/// logged is printed instead, on the stream of its kind, and so is never lost.
pub proof fn law_message_is_not_lost(
    kind: LogKind,
    msg: &str,
    plan: LogPlan,
    logged: Result<(), Error>,
    r: Option<Notice>,
)
    requires
        call_ensures(log, (kind, msg), plan),
        call_ensures(log_ended, (kind, msg, logged), r),
    ensures
        kind == LogKind::Info ==> plan.method@ == "info"@ && plan.lines@.len() == 1
            && plan.lines@[0]@ == msg@,
        kind == LogKind::Error ==> plan.method@ == "error"@ && plan.lines@.len() == 3
            && plan.lines@[1]@ == msg@ && plan.lines@[0]@ == plan.lines@[2]@,
        logged is Ok <==> r is None,
        r matches Some(n) ==> n.text@ == msg@ && (n.stream == Stream::Error <==> kind
            == LogKind::Error),
{
    let lines = plan.lines.deep_view();
    assert(lines.len() == plan.lines@.len());
    if kind == LogKind::Info {
        assert(lines[0] == plan.lines@[0]@);
    } else {
        assert(lines[0] == plan.lines@[0]@ && lines[1] == plan.lines@[1]@ && lines[2]
            == plan.lines@[2]@);
    }
}

/// A check of Java that is switched off runs nothing and succeeds; otherwise the
/// program of the installation is run.
pub proof fn law_java_check_starts(off: bool, home: FilePath, r: JavaCheck)
    requires
        call_ensures(start_java_check, (off, &home), r),
    ensures
        off ==> (r matches JavaCheck::Over(check) && check.result is Ok && check.notice is None),
        !off ==> (r matches JavaCheck::Run(java) && java@.base == home@.base && java@.names.len()
            == home@.names.len() + 2 && java@.names[home@.names.len() as int] == "bin"@),
{
}

/// A Java that could not be run is an error that names its program and keeps the
/// reason.
pub proof fn law_java_not_run(java: FilePath, e: Error, r: Option<VersionCheck>)
    requires
        call_ensures(check_java_output, (&java, Err(e)), r),
    ensures
        r is Some,
        r->Some_0.notice is None,
        r->Some_0.result is Err,
        r->Some_0.result->Err_0@.text() == "Failed to execute 'java -version' command ("@
            + java@.shown() + ")"@ + "\nCaused by: "@ + e@.text(),
        r->Some_0.result->Err_0.trace() == e.trace(),
{
}

/// A file matches exactly the digest that it has: the one that `file_hash` gives,
/// which is that of its content as data.
pub proof fn law_file_matches_its_digest(
    path: FilePath,
    read: FileRead,
    hash: Result<[u8; 32], Error>,
    expected: &[u8],
    matched: Result<bool, Error>,
    data: &[u8],
    same: bool,
)
    requires
        call_ensures(file_hash, (&path, read), hash),
        call_ensures(file_matches_hash, (&path, read, expected), matched),
        call_ensures(bytes_matches_hash, (data, expected), same),
    ensures
        hash is Ok <==> matched is Ok,
        hash matches Ok(h) ==> (matched matches Ok(m) && (m <==> expected@ == h@)),
        read matches FileRead::Content(content) ==> hash is Ok && hash->Ok_0@ == sha256_of(content@),
        read matches FileRead::Content(content) ==> content@ == data@ ==> (same <==> expected@
            == hash->Ok_0@),
        read matches FileRead::NotOpened(e) ==> matched->Err_0@.text() == "Failed to hash file"@
            + "\nCaused by: "@ + ("Failed to open file: "@ + path@.shown() + "\nCaused by: "@
            + e@.text()),
{
    reveal_with_fuel(ErrorView::text, 3);
}

/// A file that is there and could not be deleted is told, by its name and the
/// reason; nothing else is.
pub proof fn law_undeleted_file_is_told(
    name: String,
    present: bool,
    deleted: Result<(), String>,
    r: Option<String>,
)
    requires
        call_ensures(try_delete_file, (Some(name), present, deleted), r),
    ensures
        r is Some <==> present && deleted is Err,
        r matches Some(t) ==> t@ == "Failed to delete existing "@ + name@ + " file: "@
            + deleted->Err_0@,
{
}

/// What fails on a file is told by what was being done, the path, and the reason.
pub proof fn law_file_failures(
    path: FilePath,
    e: Error,
    a: Result<(), Error>,
    b: Result<(), Error>,
    c: Result<(), Error>,
    d: Result<(), Error>,
    f: Result<(), Error>,
)
    requires
        call_ensures(create_directory, (&path, Err(e)), a),
        call_ensures(write_file, (&path, Err(e)), b),
        call_ensures(create_file::<()>, (&path, Err(e)), c),
        call_ensures(open_file::<()>, (&path, Err(e)), d),
        call_ensures(open_zip::<()>, (&path, Ok(Err(e))), f),
    ensures
        a is Err && a->Err_0@.text() == "Failed to create directory: "@ + path@.shown()
            + "\nCaused by: "@ + e@.text(),
        b is Err && b->Err_0@.text() == "Failed to write file: "@ + path@.shown() + "\nCaused by: "@
            + e@.text(),
        c is Err && c->Err_0@.text() == "Failed to create file: "@ + path@.shown()
            + "\nCaused by: "@ + e@.text(),
        d is Err && d->Err_0@.text() == "Failed to open file: "@ + path@.shown() + "\nCaused by: "@
            + e@.text(),
        f is Err && f->Err_0@.text() == "Failed to open zip: "@ + path@.shown() + "\nCaused by: "@
            + e@.text(),
        a->Err_0.trace() == e.trace() && b->Err_0.trace() == e.trace() && c->Err_0.trace()
            == e.trace() && d->Err_0.trace() == e.trace() && f->Err_0.trace() == e.trace(),
{
}

/// An entry that an archive must have is the one that it has; where it has none
/// that is an error which names it, while an entry that is only looked for is then
/// just not there.
pub proof fn law_zip_entries<T>(
    found: Result<T, ZipFailure>,
    name: &str,
    looked: Result<Option<T>, Error>,
    required: Result<T, Error>,
)
    requires
        call_ensures(find_zip_entry::<T>, (found,), looked),
        call_ensures(require_zip_entry::<T>, (found, name), required),
    ensures
        found matches Ok(entry) ==> looked == Ok::<Option<T>, Error>(Some(entry)) && required
            == Ok::<T, Error>(entry),
        found matches Err(ZipFailure::FileNotFound) ==> looked == Ok::<Option<T>, Error>(None)
            && required is Err && required->Err_0@.text() == "Failed to find entry in zip: "@
            + name@,
        found matches Err(ZipFailure::Other(detail)) ==> looked is Err && looked->Err_0@.text()
            == "Zip error: "@ + detail@ && required is Err && required->Err_0@.text()
            == "Zip error: "@ + detail@,
{
}

/// An entry is read as the text that it encodes, and one that encodes none is an
/// error; what could not be read or copied names the entry and keeps the reason.
pub proof fn law_zip_entry_text(
    name: &str,
    text: Seq<char>,
    data: Vec<u8>,
    e: Error,
    destination: FilePath,
    good: Result<String, Error>,
    bad: Result<String, Error>,
    raw: Result<Vec<u8>, Error>,
    copied: Result<(), Error>,
)
    requires
        call_ensures(read_zip_entry_text, (name, Ok(data)), good),
        call_ensures(read_zip_entry_text, (name, Err(e)), bad),
        call_ensures(read_zip_entry, (name, Err(e)), raw),
        call_ensures(finish_extraction, (name, &destination, Err(e)), copied),
    ensures
        data@ == encode_utf8(text) ==> (good matches Ok(t) && t@ == text),
        !valid_utf8(data@) ==> good is Err && good->Err_0@.text() == "Invalid UTF-8 in "@ + name@
            + "\nCaused by: "@ + ("UTF-8 error: "@ + utf8_error_text(data@)),
        bad is Err && bad->Err_0@.text() == "Failed to read entry: "@ + name@ + "\nCaused by: "@
            + e@.text(),
        raw is Err && raw->Err_0@.text() == "Failed to read entry: "@ + name@ + "\nCaused by: "@
            + e@.text(),
        copied is Err && copied->Err_0@.text() == "Failed to extract "@ + name@ + " from zip to "@
            + destination@.shown() + "\nCaused by: "@ + e@.text(),
{
    vstd::utf8::encode_utf8_valid_utf8(text);
    vstd::utf8::encode_utf8_decode_utf8(text);
    reveal_with_fuel(ErrorView::text, 3);
}

/// A failure of a stage says which stage it was; an exit code and a success are
/// handed on. Arguments that ask for no run end the process with exit code 0.
pub proof fn law_stages(
    done: Result<(), Error>,
    r: Result<(), Error>,
    checked: Result<Launcher, Error>,
    out: Result<Launcher, Error>,
    split: Result<Option<ArgOptions>, Error>,
    options: Result<ArgOptions, Error>,
)
    requires
        call_ensures(classpath_ready, (done,), r),
        call_ensures(cache_checked, (checked,), out),
        call_ensures(require_options, (split,), options),
    ensures
        done is Ok <==> r is Ok,
        done matches Err(e) ==> !(e@ is Exit) ==> r->Err_0@.text() == "Failed to setup classpath"@
            + "\nCaused by: "@ + e@.text() && r->Err_0.trace() == e.trace(),
        done matches Err(e) ==> e@ is Exit ==> r->Err_0@ == e@,
        checked matches Ok(l) ==> out == Ok::<Launcher, Error>(l),
        checked matches Err(e) ==> !(e@ is Exit) ==> out is Err && out->Err_0@.text()
            == "Failed to check AOT cache"@ + "\nCaused by: "@ + e@.text(),
        checked matches Err(e) ==> e@ is Exit ==> out is Err && out->Err_0@ == e@,
        split matches Ok(Some(o)) ==> options == Ok::<ArgOptions, Error>(o),
        split matches Ok(None) ==> (options matches Err(e) && e@ == ErrorView::Exit(0)),
        split matches Err(e) ==> options == Err::<ArgOptions, Error>(e),
{
    if let Ok(l) = checked {
        assert(seen(out) == Ok::<Launcher, ErrorView>(l));
    }
}

/// The process prints the text of a failure and ends with exit code 1; an exit
/// code is taken as it is, without a word; a run that succeeds sets none.
pub proof fn law_process_ends(result: Result<(), Error>, r: Ending)
    requires
        call_ensures(conclude, (result,), r),
    ensures
        result is Ok ==> r.notice is None && r.backtrace is None && r.code is None,
        result matches Err(e) ==> (e@ matches ErrorView::Exit(code) ==> r.notice is None
            && r.backtrace is None && r.code == Some(code)),
        result matches Err(e) ==> !(e@ is Exit) ==> (r.notice matches Some(t) && t@ == e@.text())
            && r.code == Some(1u8) && (r.backtrace is Some <==> e.trace() is Some),
{
    assert(r@.notice is None <==> r.notice is None);
    assert(r@.backtrace is None <==> r.backtrace is None);
}

/// A text that is no digest is an error that names it and what it was read for.
pub proof fn law_named_hex(name: &str, s: &str, r: Result<[u8; 32], Error>)
    requires
        call_ensures(parse_hex_named, (name, s), r),
    ensures
        r is Err ==> (r->Err_0@ matches ErrorView::Wrapped { msg, cause } && msg
            == "Failed to parse hex string '"@ + name@ + "': "@ + s@),
        r is Ok ==> encode_utf8(s@).len() == 64,
{
}

/// A variable that is not set switches nothing on; one that is set to `1` does.
pub proof fn law_unset_is_off(value: Vec<u8>, unset: bool, set: bool)
    requires
        call_ensures(is_env_true, (None,), unset),
        call_ensures(is_env_true, (Some(value),), set),
    ensures
        !unset,
        value@ == seq![0x31u8] ==> set,
        value@.len() != 1 && value@.len() != 4 ==> !set,
{
}

/// A run whose console holds no other process is shown the dialog, and no other.
pub proof fn law_gui_launch(count: u32, r: Option<Dialog>)
    requires
        call_ensures(check_gui_launch, (count,), r),
    ensures
        r is Some <==> count <= 1,
        r matches Some(d) ==> d.title@ == "tack"@ && d.message@
            == "tack is a command-line application and must be run from the terminal."@,
{
}

} // verus!
