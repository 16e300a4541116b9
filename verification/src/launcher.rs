//! A run of the launcher: what it is made of, what the virtual machine is
//! started with, and the order of its steps.

use crate::aot::meta::{cache_file, conf_file, meta_file, AotMeta};
use crate::args::{ArgOptions, RecordMode};
use crate::classpath::TackMeta;
use crate::errors::{
    generic_error, in_context, result_trace, seen, wrapped_error, Error, ErrorView, WithContext,
};
use crate::outside::string_from_utf8;
use crate::path::{
    law_names_are_written, plain_name, show, shown_text, takes_names, written_separator, FilePath,
    PathView, Platform,
};
use crate::text::{begins, cat2, cat3, dots_to_slashes, law_replaced, replaced};
use crate::util::fs::{classpath_sep, classpath_separator, law_classpath_separator};
use crate::util::ThreadPanicked;
use vstd::prelude::*;
use vstd::string::*;
use vstd::utf8::{decode_utf8, encode_utf8, valid_utf8};

verus! {

/// The arguments that are passed on.
#[derive(Debug, PartialEq, Eq)]
pub struct Args {
    /// To the virtual machine.
    pub jvm: Vec<String>,
    /// To the server.
    pub app: Vec<String>,
}

/// What a run does with the AOT cache.
#[derive(Clone, Copy, Debug, PartialEq, Eq, Structural)]
pub enum AotCacheAction {
    Use,
    Record,
    NoCache,
}

impl AotCacheAction {
    pub fn is_use(self) -> (r: bool)
        ensures
            r == (self == AotCacheAction::Use),
    {
        self == AotCacheAction::Use
    }

    pub fn is_record(self) -> (r: bool)
        ensures
            r == (self == AotCacheAction::Record),
    {
        self == AotCacheAction::Record
    }

    pub fn is_none(self) -> (r: bool)
        ensures
            r == (self == AotCacheAction::NoCache),
    {
        self == AotCacheAction::NoCache
    }
}

/// The files of the AOT cache.
#[derive(Debug, PartialEq, Eq)]
pub struct AotFiles {
    pub meta: FilePath,
    pub cache: FilePath,
    pub conf: FilePath,
}

/// The log files about the AOT cache.
#[derive(Debug, PartialEq, Eq)]
pub struct LogFiles {
    pub dir: FilePath,
    pub record: FilePath,
    pub create: FilePath,
    pub use_aot: FilePath,
}

/// A run that is ready.
#[derive(Debug, PartialEq, Eq)]
pub struct Launcher {
    pub jar: FilePath,
    pub repo_dir: FilePath,
    pub classpath: Vec<FilePath>,
    pub tack_meta: TackMeta,
    pub java_home: String,
    pub args: Args,
    pub record: RecordMode,
    pub action: AotCacheAction,
    pub compat: bool,
    pub aot_files: AotFiles,
    pub log_files: LogFiles,
}

/// A run that is being prepared.
#[derive(Debug, PartialEq, Eq)]
pub struct LauncherBuilder {
    pub jar: FilePath,
    pub repo_dir: FilePath,
    pub classpath: Option<Vec<FilePath>>,
    pub tack_meta: Option<TackMeta>,
    pub java_home: Option<String>,
    pub args: Args,
    pub record: RecordMode,
    pub action: Option<AotCacheAction>,
    pub compat: bool,
    pub aot_files: AotFiles,
}

/// The paths in `files` are those of the cache in the repository `dir`.
pub open spec fn aot_files_in(files: AotFiles, dir: PathView) -> bool {
    &&& files.meta@ == meta_file(dir)
    &&& files.cache@ == cache_file(dir)
    &&& files.conf@ == conf_file(dir)
}

/// The directory of the logs, in the directory that the run is in.
pub open spec fn logs_dir(dir: PathView) -> PathView {
    dir.child(".paper"@).child("logs"@)
}

/// The paths in `files` are those of the logs of a run in `dir`.
pub open spec fn log_files_in(files: LogFiles, dir: PathView) -> bool {
    &&& files.dir@ == logs_dir(dir)
    &&& files.record@ == logs_dir(dir).child("aot-record.log"@)
    &&& files.create@ == logs_dir(dir).child("aot-create.log"@)
    &&& files.use_aot@ == logs_dir(dir).child("aot-use.log"@)
}

/// The names of the log files are names of one component each.
pub proof fn lemma_log_names_plain()
    ensures
        plain_name("logs"@),
        plain_name("aot-record.log"@),
        plain_name("aot-create.log"@),
        plain_name("aot-use.log"@),
{
    reveal_strlit("logs");
    assert("logs"@ =~= seq!['l', 'o', 'g', 's']);
    reveal_strlit("aot-record.log");
    assert("aot-record.log"@ =~= seq!['a', 'o', 't', '-', 'r', 'e', 'c', 'o', 'r', 'd', '.', 'l', 'o', 'g']);
    reveal_strlit("aot-create.log");
    assert("aot-create.log"@ =~= seq!['a', 'o', 't', '-', 'c', 'r', 'e', 'a', 't', 'e', '.', 'l', 'o', 'g']);
    reveal_strlit("aot-use.log");
    assert("aot-use.log"@ =~= seq!['a', 'o', 't', '-', 'u', 's', 'e', '.', 'l', 'o', 'g']);
}

/// The bytes of the paths, with `sep` between them.
pub open spec fn joined_bytes(paths: Seq<PathView>, sep: Seq<u8>) -> Seq<u8>
    decreases paths.len(),
{
    if paths.len() == 0 {
        Seq::empty()
    } else if paths.len() == 1 {
        paths[0].bytes()
    } else {
        joined_bytes(paths.drop_last(), sep) + sep + paths.last().bytes()
    }
}

fn join_paths(paths: &Vec<FilePath>, sep: &str) -> (r: Vec<u8>)
    ensures
        r@ == joined_bytes(paths.deep_view(), encode_utf8(sep@)),
{
    let mut out: Vec<u8> = Vec::new();
    let ghost all = paths.deep_view();
    let mut i: usize = 0;
    while i < paths.len()
        invariant
            i <= paths.len(),
            all == paths.deep_view(),
            all.len() == paths.len(),
            out@ == joined_bytes(all.take(i as int), encode_utf8(sep@)),
        decreases paths.len() - i,
    {
        let ghost next = all.take(i + 1);
        assert(next.drop_last() =~= all.take(i as int));
        assert(next.last() == paths@[i as int]@);
        let ghost before = out@;
        if i > 0 {
            out.extend_from_slice(sep.as_bytes());
            assert(out@ =~= before + encode_utf8(sep@));
        }
        let ghost with_sep = out@;
        let bytes = paths[i].bytes();
        out.extend_from_slice(bytes.as_slice());
        assert(out@ =~= with_sep + paths@[i as int]@.bytes());
        i += 1;
        assert(out@ == joined_bytes(next, encode_utf8(sep@)));
    }
    assert(all.take(i as int) =~= all);
    out
}

/// The bytes of the class path.
pub open spec fn classpath_bytes(classpath: Seq<PathView>, platform: Platform) -> Seq<u8> {
    joined_bytes(classpath, encode_utf8(classpath_separator(platform)))
}

/// The options that every run starts the virtual machine with.
pub open spec fn common_options() -> Seq<Seq<char>> {
    seq!["--enable-native-access=ALL-UNNAMED"@, "--sun-misc-unsafe-memory-access=allow"@]
}

/// The options that work around limits of the AOT cache.
pub open spec fn compat_options(compat: bool) -> Seq<Seq<char>> {
    if compat {
        seq!["-XX:+UnlockDiagnosticVMOptions"@, "-XX:-AOTInvokeDynamicLinking"@]
    } else {
        Seq::empty()
    }
}

/// The options about the AOT cache, or why they cannot be given: the path of
/// the file that they name is not text.
pub open spec fn aot_options(
    action: AotCacheAction,
    compat: bool,
    cache: PathView,
    conf: PathView,
) -> Result<Seq<Seq<char>>, ErrorView> {
    match action {
        AotCacheAction::Use => match cache.text() {
            Some(file) => Ok(
                seq![
                    "-Xlog:aot*=off"@,
                    "-Xlog:aot*=info:file=.paper/logs/aot-use.log"@,
                    "-XX:AOTCache="@ + file,
                ],
            ),
            None => Err(
                generic_error(
                    "Failed to convert AOT cache file path to string: "@ + cache.shown(),
                ),
            ),
        },
        AotCacheAction::Record => match conf.text() {
            Some(file) => Ok(
                seq!["-Xlog:aot*=off"@, "-Xlog:aot*=info:file=.paper/logs/aot-record.log"@]
                    + compat_options(compat) + seq![
                    "-XX:AOTMode=record"@,
                    "-XX:AOTConfiguration="@ + file,
                ],
            ),
            None => Err(
                generic_error("Failed to convert AOT conf file path to string: "@ + conf.shown()),
            ),
        },
        AotCacheAction::NoCache => Ok(Seq::empty()),
    }
}

/// All options that a run starts the virtual machine with: the common ones,
/// those about the cache, the class path, and last those of the user, in order.
pub open spec fn jvm_options(l: Launcher) -> Result<Seq<Seq<char>>, ErrorView> {
    let cp = classpath_bytes(l.classpath.deep_view(), l.repo_dir@.platform);
    match aot_options(l.action, l.compat, l.aot_files.cache@, l.aot_files.conf@) {
        Err(e) => Err(e),
        Ok(aot) => if valid_utf8(cp) {
            Ok(
                common_options() + aot + seq!["-Djava.class.path="@ + decode_utf8(cp)]
                    + l.args.jvm.deep_view(),
            )
        } else {
            Err(
                generic_error(
                    "Failed to convert classpath to string: "@ + shown_text(
                        l.repo_dir@.platform,
                        cp,
                    ),
                ),
            )
        },
    }
}

/// A result of texts over their characters.
pub open spec fn seen_texts(r: Result<Vec<String>, Error>) -> Result<Seq<Seq<char>>, ErrorView> {
    match r {
        Ok(v) => Ok(v.deep_view()),
        Err(e) => Err(e@),
    }
}

/// Appends copies of `more` to `list`.
pub(crate) fn append_texts(list: &mut Vec<String>, more: &Vec<String>)
    ensures
        final(list).deep_view() == old(list).deep_view() + more.deep_view(),
{
    let ghost before = list.deep_view();
    let ghost added = more.deep_view();
    let mut i: usize = 0;
    assert(list.deep_view() =~= before + added.take(0));
    while i < more.len()
        invariant
            i <= more.len(),
            added == more.deep_view(),
            added.len() == more.len(),
            list.deep_view() == before + added.take(i as int),
        decreases more.len() - i,
    {
        let ghost so_far = list.deep_view();
        list.push(more[i].clone());
        assert(list.deep_view() =~= so_far.push(added[i as int]));
        i += 1;
        assert(added.take(i as int) =~= added.take(i - 1).push(added[i - 1]));
        assert(list.deep_view() =~= before + added.take(i as int));
    }
    assert(added.take(i as int) =~= added);
}

/// Appends a text to a list.
pub(crate) fn append_text(list: &mut Vec<String>, text: &str)
    ensures
        final(list).deep_view() == old(list).deep_view().push(text@),
{
    let ghost before = list.deep_view();
    list.push(text.to_string());
    assert(list.deep_view() =~= before.push(text@));
}

/// What follows the call that started the server.
#[derive(Debug, PartialEq, Eq)]
pub struct MainEnd {
    /// Whether an exception is described on the standard stream for errors and
    /// then forgotten.
    pub describe_exception: bool,
    pub result: Result<(), Error>,
}

/// The call that starts the server.
#[derive(Debug, PartialEq, Eq)]
pub struct MainCall {
    /// The class whose `main` is called, as the virtual machine names it.
    pub class_name: String,
    /// The arguments of `main`.
    pub args: Vec<String>,
}

/// A file of an old cache.
#[derive(Debug, PartialEq, Eq)]
pub struct StaleFile {
    pub path: FilePath,
    /// What the file is.
    pub name: String,
}

/// The files that are deleted before a run, in order, with what they are.
pub open spec fn stale_files(action: AotCacheAction, files: AotFiles) -> Seq<(PathView, Seq<char>)> {
    match action {
        AotCacheAction::Record => seq![
            (files.meta@, "meta"@),
            (files.cache@, "cache"@),
            (files.conf@, "config"@),
        ],
        _ => Seq::empty(),
    }
}

impl View for StaleFile {
    type V = (PathView, Seq<char>);

    open spec fn view(&self) -> (PathView, Seq<char>) {
        (self.path@, self.name@)
    }
}

impl DeepView for StaleFile {
    type V = (PathView, Seq<char>);

    open spec fn deep_view(&self) -> (PathView, Seq<char>) {
        self@
    }
}

/// What comes of deleting the file that is called `name`; where it does not
/// exist there is nothing to delete.
pub open spec fn delete_outcome(
    name: Seq<char>,
    exists: bool,
    removed: Result<(), ErrorView>,
) -> Result<(), ErrorView> {
    if exists {
        in_context(removed, "Failed to delete existing AOT "@ + name + " file"@)
    } else {
        Ok(())
    }
}

impl StaleFile {
    /// What comes of deleting the file.
    pub fn delete(&self, exists: bool, removed: Result<(), Error>) -> (r: Result<(), Error>)
        ensures
            seen(r) == delete_outcome(self.name@, exists, seen(removed)),
            exists ==> result_trace(r) == result_trace(removed),
    {
        if exists {
            let context = cat3("Failed to delete existing AOT ", self.name.as_str(), " file");
            removed.err_ctx(context)
        } else {
            Ok(())
        }
    }
}

/// How far the launch of a run has come.
#[derive(Clone, Copy, Debug, PartialEq, Eq, Structural)]
pub enum LaunchState {
    /// The file at this place of those that are deleted first.
    AwaitDeletion(usize),
    AwaitThread,
    Finished,
}

/// What is to be done next. `F` is a file, `R` an outcome.
#[derive(Debug, PartialEq, Eq)]
pub enum LaunchAction<F, R> {
    /// Delete the file if it exists.
    Delete(F),
    /// Run the thread beside the main thread, and wait for it.
    RunThread,
    /// The run is over.
    Finish(R),
    /// There is nothing more to do.
    Rest,
}

/// What came of what was to be done. `E` is an error.
#[derive(Debug, PartialEq, Eq)]
pub enum LaunchEvent<E> {
    /// Whether the file existed, and what came of removing it then.
    Deleted { exists: bool, removed: Result<(), E> },
    ThreadEnded(Result<Result<(), E>, ThreadPanicked>),
}

/// What an event is, over sequences.
pub type LaunchEventView = LaunchEvent<ErrorView>;

/// What an action is, over sequences.
pub type LaunchActionView = LaunchAction<(PathView, Seq<char>), Result<(), ErrorView>>;

/// The view of an event.
pub open spec fn launch_event_view(e: LaunchEvent<Error>) -> LaunchEventView {
    match e {
        LaunchEvent::Deleted { exists, removed } => LaunchEvent::Deleted {
            exists,
            removed: seen(removed),
        },
        LaunchEvent::ThreadEnded(Ok(r)) => LaunchEvent::ThreadEnded(Ok(seen(r))),
        LaunchEvent::ThreadEnded(Err(p)) => LaunchEvent::ThreadEnded(Err(p)),
    }
}

/// The backtrace of the error that an event brings.
pub open spec fn launch_event_trace(e: LaunchEvent<Error>) -> Option<Seq<char>> {
    match e {
        LaunchEvent::Deleted { exists: _, removed } => result_trace(removed),
        LaunchEvent::ThreadEnded(Ok(r)) => result_trace(r),
        LaunchEvent::ThreadEnded(Err(_)) => None,
    }
}

impl View for LaunchAction<StaleFile, Result<(), Error>> {
    type V = LaunchActionView;

    open spec fn view(&self) -> LaunchActionView {
        match *self {
            LaunchAction::Delete(f) => LaunchAction::Delete(f@),
            LaunchAction::RunThread => LaunchAction::RunThread,
            LaunchAction::Finish(r) => LaunchAction::Finish(seen(r)),
            LaunchAction::Rest => LaunchAction::Rest,
        }
    }
}

/// A step of a launch.
pub type LaunchStep = (LaunchState, LaunchAction<StaleFile, Result<(), Error>>);

/// What a step is, over sequences.
pub type LaunchStepView = (LaunchState, LaunchActionView);

/// What a run came to: what its thread returned, or exit code 1 where the
/// thread panicked.
pub open spec fn launched_outcome(joined: Result<Result<(), ErrorView>, ThreadPanicked>) -> Result<
    (),
    ErrorView,
> {
    match joined {
        Ok(r) => r,
        Err(_) => Err(ErrorView::Exit(1)),
    }
}

/// The step to the next file that is deleted, and to the thread after the last.
pub open spec fn launch_at(l: Launcher, at: int) -> LaunchStepView {
    let stale = stale_files(l.action, l.aot_files);
    if at < stale.len() {
        (LaunchState::AwaitDeletion(at as usize), LaunchAction::Delete(stale[at]))
    } else {
        (LaunchState::AwaitThread, LaunchAction::RunThread)
    }
}

/// Where a launch begins. A run that is to patch alone ends with exit code 0.
pub open spec fn launch_start(l: Launcher, patch_only: bool) -> LaunchStepView {
    if patch_only {
        (LaunchState::Finished, LaunchAction::Finish(Err(ErrorView::Exit(0))))
    } else {
        launch_at(l, 0)
    }
}

/// The step that a launch takes on an event. What was not asked for changes
/// nothing.
pub open spec fn launch_step(l: Launcher, s: LaunchState, e: LaunchEventView) -> LaunchStepView {
    let stale = stale_files(l.action, l.aot_files);
    match (s, e) {
        (LaunchState::AwaitDeletion(at), LaunchEvent::Deleted { exists, removed }) => if at
            < stale.len() {
            match delete_outcome(stale[at as int].1, exists, removed) {
                Ok(_) => launch_at(l, at + 1),
                Err(e) => (LaunchState::Finished, LaunchAction::Finish(Err(e))),
            }
        } else {
            (s, LaunchAction::Rest)
        },
        (LaunchState::AwaitThread, LaunchEvent::ThreadEnded(joined)) => (
            LaunchState::Finished,
            LaunchAction::Finish(launched_outcome(joined)),
        ),
        _ => (s, LaunchAction::Rest),
    }
}

/// The outcome of making a virtual machine.
#[derive(Debug, PartialEq, Eq)]
pub enum JvmStart {
    /// Its options were refused.
    OptionsRefused(Error),
    /// It did not start.
    NotStarted(Error),
    Started,
}

/// What is told of the outcome of making a virtual machine.
pub open spec fn jvm_start_outcome(start: JvmStart) -> Result<(), ErrorView> {
    match start {
        JvmStart::OptionsRefused(e) => Err(wrapped_error("Failed to initialize JVM"@, e@)),
        JvmStart::NotStarted(e) => Err(wrapped_error("Failed to start JVM"@, e@)),
        JvmStart::Started => Ok(()),
    }
}

/// The backtrace of a virtual machine that was not made.
pub open spec fn jvm_start_trace(start: JvmStart) -> Option<Seq<char>> {
    match start {
        JvmStart::OptionsRefused(e) => e.trace(),
        JvmStart::NotStarted(e) => e.trace(),
        JvmStart::Started => None,
    }
}

impl Launcher {
    /// Begins to prepare a run in the repository `repo_dir`.
    pub fn builder(args: ArgOptions, jar_exists: bool, repo_dir: FilePath) -> (r: Result<
        LauncherBuilder,
        Error,
    >)
        ensures
            r is Ok <==> jar_exists,
            r matches Err(e) ==> e@ == generic_error("Jar file does not exist: "@ + args.jar@),
            r matches Ok(b) ==> {
                &&& b.jar@ == (PathView {
                    platform: repo_dir@.platform,
                    base: encode_utf8(args.jar@),
                    names: Seq::empty(),
                })
                &&& b.repo_dir == repo_dir
                &&& b.classpath is None
                &&& b.tack_meta is None
                &&& b.java_home is None
                &&& b.args.jvm == args.jvm_args
                &&& b.args.app == args.app_args
                &&& b.record == args.record
                &&& b.action is None
                &&& b.compat == args.compat
                &&& aot_files_in(b.aot_files, repo_dir@)
            },
    {
        let jar = FilePath::from_text(repo_dir.platform(), args.jar.as_str());
        if !jar_exists {
            proof {
                vstd::utf8::encode_utf8_valid_utf8(args.jar@);
                vstd::utf8::encode_utf8_decode_utf8(args.jar@);
                assert(jar@.bytes() == encode_utf8(args.jar@));
            }
            let shown = jar.display();
            return Err(Error::generic(cat2("Jar file does not exist: ", shown.as_str())));
        }
        let meta = AotMeta::aot_meta_file(&repo_dir);
        let cache = AotMeta::aot_cache_file(&repo_dir);
        let conf = AotMeta::aot_conf_file(&repo_dir);
        Ok(
            LauncherBuilder {
                jar,
                repo_dir,
                classpath: None,
                tack_meta: None,
                java_home: None,
                args: Args { jvm: args.jvm_args, app: args.app_args },
                record: args.record,
                action: None,
                compat: args.compat,
                aot_files: AotFiles { meta, cache, conf },
            },
        )
    }

    /// Sets what the run does with the cache to what the check of the cache
    /// came to.
    pub fn check_aot_options(self, checked: Result<AotCacheAction, Error>) -> (r: Result<
        Self,
        Error,
    >)
        ensures
            match checked {
                Ok(action) => r == Ok::<Launcher, Error>(Launcher { action, ..self }),
                Err(e) => r == Err::<Launcher, Error>(e),
            },
    {
        let action = match checked {
            Ok(action) => action,
            Err(e) => return Err(e),
        };
        if action == self.action {
            return Ok(self);
        }
        Ok(
            Launcher {
                jar: self.jar,
                repo_dir: self.repo_dir,
                classpath: self.classpath,
                tack_meta: self.tack_meta,
                java_home: self.java_home,
                args: self.args,
                record: self.record,
                action,
                compat: self.compat,
                aot_files: self.aot_files,
                log_files: self.log_files,
            },
        )
    }

    fn stale_file(&self, at: usize) -> (r: Option<StaleFile>)
        ensures
            match r {
                Some(f) => at < stale_files(self.action, self.aot_files).len() && f@ == stale_files(
                    self.action,
                    self.aot_files,
                )[at as int],
                None => at >= stale_files(self.action, self.aot_files).len(),
            },
    {
        if !self.action.is_record() {
            return None;
        }
        if at == 0 {
            Some(StaleFile { path: self.aot_files.meta.copy(), name: "meta".to_string() })
        } else if at == 1 {
            Some(StaleFile { path: self.aot_files.cache.copy(), name: "cache".to_string() })
        } else if at == 2 {
            Some(StaleFile { path: self.aot_files.conf.copy(), name: "config".to_string() })
        } else {
            None
        }
    }

    fn launch_on(&self, at: usize) -> (r: LaunchStep)
        ensures
            (r.0, r.1@) == launch_at(*self, at as int),
    {
        match self.stale_file(at) {
            Some(file) => (LaunchState::AwaitDeletion(at), LaunchAction::Delete(file)),
            None => (LaunchState::AwaitThread, LaunchAction::RunThread),
        }
    }

    /// Starts a run: the files of an old cache are deleted first where the run
    /// records, and nothing is run where one of the two switches for patching
    /// alone is on.
    pub fn launch(&self, tack_patch_only: bool, paperclip_patch_only: bool) -> (r: LaunchStep)
        ensures
            (r.0, r.1@) == launch_start(*self, tack_patch_only || paperclip_patch_only),
    {
        if tack_patch_only || paperclip_patch_only {
            return (LaunchState::Finished, LaunchAction::Finish(Err(Error::Exit(0))));
        }
        self.launch_on(0)
    }

    /// Goes on with what came of the last action.
    pub fn launch_next(&self, state: LaunchState, event: LaunchEvent<Error>) -> (r: LaunchStep)
        ensures
            (r.0, r.1@) == launch_step(*self, state, launch_event_view(event)),
            r.1 matches LaunchAction::Finish(out) ==> result_trace(out) == launch_event_trace(event),
    {
        match (state, event) {
            (LaunchState::AwaitDeletion(at), LaunchEvent::Deleted { exists, removed }) => {
                match self.stale_file(at) {
                    Some(file) => match file.delete(exists, removed) {
                        Ok(()) => self.launch_on(at + 1),
                        Err(e) => (LaunchState::Finished, LaunchAction::Finish(Err(e))),
                    },
                    None => (state, LaunchAction::Rest),
                }
            },
            (LaunchState::AwaitThread, LaunchEvent::ThreadEnded(joined)) => (
                LaunchState::Finished,
                LaunchAction::Finish(Launcher::launched(joined)),
            ),
            (s, _) => (s, LaunchAction::Rest),
        }
    }

    /// What a run came to: what its thread returned, or exit code 1 where the
    /// thread panicked.
    pub fn launched(joined: Result<Result<(), Error>, ThreadPanicked>) -> (r: Result<(), Error>)
        ensures
            joined matches Ok(out) ==> r == out,
            joined is Err ==> seen(r) == Err::<(), ErrorView>(ErrorView::Exit(1)),
    {
        match joined {
            Ok(out) => out,
            Err(_) => Err(Error::Exit(1)),
        }
    }

    /// The options that the virtual machine is started with.
    pub fn init_jvm(&self) -> (r: Result<Vec<String>, Error>)
        ensures
            seen_texts(r) == jvm_options(*self),
    {
        let mut options: Vec<String> = Vec::new();
        append_text(&mut options, "--enable-native-access=ALL-UNNAMED");
        append_text(&mut options, "--sun-misc-unsafe-memory-access=allow");
        assert(options.deep_view() =~= common_options());
        if self.action.is_record() || self.action.is_use() {
            append_text(&mut options, "-Xlog:aot*=off");
        }
        match self.action {
            AotCacheAction::Use => match self.aot_files.cache.text() {
                Some(aot_cache_file) => {
                    append_text(&mut options, "-Xlog:aot*=info:file=.paper/logs/aot-use.log");
                    let option = cat2("-XX:AOTCache=", aot_cache_file.as_str());
                    append_text(&mut options, option.as_str());
                },
                None => {
                    let shown = self.aot_files.cache.display();
                    return Err(
                        Error::generic(
                            cat2(
                                "Failed to convert AOT cache file path to string: ",
                                shown.as_str(),
                            ),
                        ),
                    );
                },
            },
            AotCacheAction::Record => match self.aot_files.conf.text() {
                Some(aot_conf_file) => {
                    append_text(&mut options, "-Xlog:aot*=info:file=.paper/logs/aot-record.log");
                    if self.compat {
                        append_text(&mut options, "-XX:+UnlockDiagnosticVMOptions");
                        append_text(&mut options, "-XX:-AOTInvokeDynamicLinking");
                    }
                    append_text(&mut options, "-XX:AOTMode=record");
                    let option = cat2("-XX:AOTConfiguration=", aot_conf_file.as_str());
                    append_text(&mut options, option.as_str());
                },
                None => {
                    let shown = self.aot_files.conf.display();
                    return Err(
                        Error::generic(
                            cat2(
                                "Failed to convert AOT conf file path to string: ",
                                shown.as_str(),
                            ),
                        ),
                    );
                },
            },
            AotCacheAction::NoCache => {},
        }
        let ghost aot = aot_options(
            self.action,
            self.compat,
            self.aot_files.cache@,
            self.aot_files.conf@,
        );
        assert(aot is Ok);
        assert(options.deep_view() =~= common_options() + aot->Ok_0);

        let sep = classpath_sep(self.repo_dir.platform());
        let classpath = join_paths(&self.classpath, sep.as_str());
        let shown = show(self.repo_dir.platform(), &classpath);
        let classpath_text = match string_from_utf8(classpath) {
            Ok(t) => t,
            Err(_) => return Err(
                Error::generic(cat2("Failed to convert classpath to string: ", shown.as_str())),
            ),
        };
        let option = cat2("-Djava.class.path=", classpath_text.as_str());
        append_text(&mut options, option.as_str());
        append_texts(&mut options, &self.args.jvm);
        assert(options.deep_view() =~= jvm_options(*self)->Ok_0);
        Ok(options)
    }

    /// What is told of the outcome of making a virtual machine.
    pub fn jvm_started(start: JvmStart) -> (r: Result<(), Error>)
        ensures
            seen(r) == jvm_start_outcome(start),
            result_trace(r) == jvm_start_trace(start),
    {
        match start {
            JvmStart::OptionsRefused(e) => Err(Error::wrap("Failed to initialize JVM", e)),
            JvmStart::NotStarted(e) => Err(Error::wrap("Failed to start JVM", e)),
            JvmStart::Started => Ok(()),
        }
    }

    /// The call that starts the server.
    pub fn exec_jvm(&self) -> (r: MainCall)
        ensures
            r.class_name@ == replaced(self.tack_meta.main_class@, '.', '/'),
            r.class_name@.len() == self.tack_meta.main_class@.len(),
            !r.class_name@.contains('.'),
            r.args.deep_view() == self.args.app.deep_view(),
    {
        proof {
            law_class_name(self.tack_meta.main_class@);
        }
        let mut args: Vec<String> = Vec::new();
        append_texts(&mut args, &self.args.app);
        assert(args.deep_view() =~= self.args.app.deep_view());
        MainCall { class_name: dots_to_slashes(self.tack_meta.main_class.as_str()), args }
    }

    /// What follows the call that started the server. Where the call was made,
    /// it is known whether an exception is left: that is described and
    /// forgotten, and is no failure, since the user has then seen it.
    pub fn main_returned(called: Result<bool, Error>) -> (r: MainEnd)
        ensures
            match called {
                Ok(exception) => r.describe_exception == exception && r.result is Ok,
                Err(e) => !r.describe_exception && r.result == Err::<(), Error>(e),
            },
    {
        match called {
            Ok(exception) => MainEnd { describe_exception: exception, result: Ok(()) },
            Err(e) => MainEnd { describe_exception: false, result: Err(e) },
        }
    }
}

impl LauncherBuilder {
    /// Ends the preparation of a run in the directory `current_dir`. A run
    /// whose class path, server or Java is not known yet ends with exit code 1.
    pub fn build(self, current_dir: Result<FilePath, Error>) -> (r: Result<Launcher, Error>)
        ensures
            match current_dir {
                Err(e) => r matches Err(out) && out@ == wrapped_error(
                    "Failed to get current directory"@,
                    e@,
                ) && out.trace() == e.trace(),
                Ok(dir) => match r {
                    Err(e) => e@ == ErrorView::Exit(1) && (self.classpath is None
                        || self.tack_meta is None || self.java_home is None),
                    Ok(l) => {
                        &&& self.classpath == Some(l.classpath)
                        &&& self.tack_meta == Some(l.tack_meta)
                        &&& self.java_home == Some(l.java_home)
                        &&& l.jar == self.jar
                        &&& l.repo_dir == self.repo_dir
                        &&& l.args == self.args
                        &&& l.record == self.record
                        &&& l.action == (match self.action {
                            Some(a) => a,
                            None => AotCacheAction::NoCache,
                        })
                        &&& l.compat == self.compat
                        &&& l.aot_files == self.aot_files
                        &&& log_files_in(l.log_files, dir@)
                    },
                },
            },
    {
        let dir = match current_dir.err_ctx("Failed to get current directory") {
            Ok(dir) => dir,
            Err(e) => return Err(e),
        };
        proof {
            crate::aot::meta::lemma_names_plain();
            lemma_log_names_plain();
        }
        let logs_dir = dir.child(".paper").child("logs");
        let record = logs_dir.child("aot-record.log");
        let create = logs_dir.child("aot-create.log");
        let use_aot = logs_dir.child("aot-use.log");
        let classpath = match self.classpath {
            Some(c) => c,
            None => return Err(Error::Exit(1)),
        };
        let tack_meta = match self.tack_meta {
            Some(m) => m,
            None => return Err(Error::Exit(1)),
        };
        let java_home = match self.java_home {
            Some(h) => h,
            None => return Err(Error::Exit(1)),
        };
        let action = match self.action {
            Some(a) => a,
            None => AotCacheAction::NoCache,
        };
        Ok(
            Launcher {
                jar: self.jar,
                repo_dir: self.repo_dir,
                classpath,
                tack_meta,
                java_home,
                args: self.args,
                record: self.record,
                action,
                compat: self.compat,
                aot_files: self.aot_files,
                log_files: LogFiles { dir: logs_dir, record, create, use_aot },
            },
        )
    }

    /// Takes the Java installation that was located, once its version has been
    /// checked.
    pub fn check_java_version(
        &mut self,
        located: Result<(String, Result<(), Error>), Error>,
    ) -> (r: Result<(), Error>)
        ensures
            match located {
                Err(e) => {
                    &&& seen(r) == Err::<(), ErrorView>(
                        wrapped_error("Failed to locate Java home"@, e@),
                    )
                    &&& result_trace(r) == e.trace()
                    &&& *final(self) == *old(self)
                },
                Ok((java_home, checked)) => {
                    &&& r == checked
                    &&& checked is Ok ==> *final(self) == (LauncherBuilder {
                        java_home: Some(java_home),
                        ..*old(self)
                    })
                    &&& checked is Err ==> *final(self) == *old(self)
                },
            },
    {
        let (java_home, checked) = match located.err_ctx("Failed to locate Java home") {
            Ok(found) => found,
            Err(e) => return Err(e),
        };
        if checked.is_ok() {
            self.java_home = Some(java_home);
        }
        checked
    }

    /// Takes the class path and what is known of the server.
    pub fn setup_classpath(&mut self, found: Result<(Vec<FilePath>, TackMeta), Error>) -> (r:
        Result<(), Error>)
        ensures
            match found {
                Err(e) => r == Err::<(), Error>(e) && *final(self) == *old(self),
                Ok((classpath, meta)) => r is Ok && *final(self) == (LauncherBuilder {
                    classpath: Some(classpath),
                    tack_meta: Some(meta),
                    ..*old(self)
                }),
            },
    {
        let (classpath, meta) = match found {
            Ok(f) => f,
            Err(e) => return Err(e),
        };
        self.classpath = Some(classpath);
        self.tack_meta = Some(meta);
        Ok(())
    }
}

/// Where the options can be given, the common ones come first, the arguments of
/// the user last and in their order, and the class path right before them; a
/// run without a cache has no others. They can be given exactly where the class
/// path and the file that the run names are text.
pub proof fn law_jvm_options(l: Launcher)
    ensures
        jvm_options(l) is Ok <==> {
            &&& valid_utf8(classpath_bytes(l.classpath.deep_view(), l.repo_dir@.platform))
            &&& l.action == AotCacheAction::Use ==> l.aot_files.cache@.text() is Some
            &&& l.action == AotCacheAction::Record ==> l.aot_files.conf@.text() is Some
        },
        jvm_options(l) matches Ok(o) ==> {
            let n = l.args.jvm@.len();
            &&& o.len() >= n + 3
            &&& o.take(2) == common_options()
            &&& o.skip(o.len() - n) == l.args.jvm.deep_view()
            &&& o[o.len() - n - 1] == "-Djava.class.path="@ + decode_utf8(
                classpath_bytes(l.classpath.deep_view(), l.repo_dir@.platform),
            )
            &&& l.action == AotCacheAction::NoCache ==> o.len() == n + 3
        },
{
    if let Ok(o) = jvm_options(l) {
        let n = l.args.jvm@.len();
        assert(o.take(2) =~= common_options());
        assert(o.skip(o.len() - n) =~= l.args.jvm.deep_view());
    }
}

/// A run that uses a cache names the cache and no configuration; one that
/// records names the configuration and no cache; one without a cache names
/// neither.
pub proof fn law_cache_or_configuration(
    action: AotCacheAction,
    compat: bool,
    cache: PathView,
    conf: PathView,
)
    ensures
        aot_options(action, compat, cache, conf) matches Ok(o) ==> {
            &&& (exists|i: int| 0 <= i < o.len() && begins(#[trigger] o[i], "-XX:AOTCache="@))
                <==> action == AotCacheAction::Use
            &&& (exists|i: int|
                0 <= i < o.len() && begins(#[trigger] o[i], "-XX:AOTConfiguration="@)) <==> action
                == AotCacheAction::Record
        },
{
    reveal_strlit("-XX:AOTCache=");
    reveal_strlit("-XX:AOTConfiguration=");
    reveal_strlit("-Xlog:aot*=off");
    reveal_strlit("-Xlog:aot*=info:file=.paper/logs/aot-use.log");
    reveal_strlit("-Xlog:aot*=info:file=.paper/logs/aot-record.log");
    reveal_strlit("-XX:+UnlockDiagnosticVMOptions");
    reveal_strlit("-XX:-AOTInvokeDynamicLinking");
    reveal_strlit("-XX:AOTMode=record");
    if let Ok(o) = aot_options(action, compat, cache, conf) {
        let cache_key = "-XX:AOTCache="@;
        let conf_key = "-XX:AOTConfiguration="@;
        assert forall|i: int| 0 <= i < o.len() implies (begins(#[trigger] o[i], cache_key) ==> action
            == AotCacheAction::Use) && (begins(o[i], conf_key) ==> action
            == AotCacheAction::Record) by {
            if begins(o[i], cache_key) {
                assert(o[i].take(cache_key.len() as int) == cache_key);
                assert(o[i][2] == cache_key[2] && o[i][4] == cache_key[4] && o[i][7] == cache_key[7]
                    && o[i][8] == cache_key[8]);
            }
            if begins(o[i], conf_key) {
                assert(o[i].take(conf_key.len() as int) == conf_key);
                assert(o[i][2] == conf_key[2] && o[i][4] == conf_key[4] && o[i][7] == conf_key[7]
                    && o[i][8] == conf_key[8]);
            }
        }
        if action == AotCacheAction::Use {
            assert(o[2].take(cache_key.len() as int) =~= cache_key);
            assert(begins(o[2], cache_key));
        }
        if action == AotCacheAction::Record {
            let last = o[o.len() - 1];
            assert(last.take(conf_key.len() as int) =~= conf_key);
            assert(begins(last, conf_key));
        }
    }
}

/// A run that records deletes all files of the old cache, and the meta data
/// before the cache that it vouches for; any other run deletes nothing.
pub proof fn law_meta_is_deleted_first(action: AotCacheAction, files: AotFiles)
    ensures
        action == AotCacheAction::Record ==> {
            let stale = stale_files(action, files);
            &&& stale.len() == 3
            &&& stale[0].0 == files.meta@
            &&& stale[1].0 == files.cache@
            &&& stale[2].0 == files.conf@
        },
        action != AotCacheAction::Record ==> stale_files(action, files).len() == 0,
{
}

/// What a launch finds when it acts.
pub struct LaunchFacts {
    /// Whether each of the files that are deleted exists, and what comes of
    /// removing it.
    pub deletions: Seq<(bool, Result<(), ErrorView>)>,
    /// What the thread comes to.
    pub joined: Result<Result<(), ErrorView>, ThreadPanicked>,
}

/// What comes of what a launch waits for, on these facts.
pub open spec fn launch_reply(f: LaunchFacts, s: LaunchState) -> LaunchEventView {
    match s {
        LaunchState::AwaitDeletion(at) => LaunchEvent::Deleted {
            exists: f.deletions[at as int].0,
            removed: f.deletions[at as int].1,
        },
        _ => LaunchEvent::ThreadEnded(f.joined),
    }
}

/// The actions that a launch asks for within `steps` steps, up to its end.
pub open spec fn launch_actions(l: Launcher, f: LaunchFacts, at: LaunchStepView, steps: nat) -> Seq<
    LaunchActionView,
>
    decreases steps,
{
    match at.1 {
        LaunchAction::Finish(_) => seq![at.1],
        a => if steps == 0 {
            seq![a]
        } else {
            seq![a] + launch_actions(
                l,
                f,
                launch_step(l, at.0, launch_reply(f, at.0)),
                (steps - 1) as nat,
            )
        },
    }
}

/// What a launch does from the file at this place on.
pub open spec fn launch_script(l: Launcher, f: LaunchFacts, at: int) -> Seq<LaunchActionView>
    decreases stale_files(l.action, l.aot_files).len() - at,
{
    let stale = stale_files(l.action, l.aot_files);
    if at >= stale.len() {
        seq![LaunchAction::RunThread, LaunchAction::Finish(launched_outcome(f.joined))]
    } else {
        seq![LaunchAction::Delete(stale[at])] + match delete_outcome(
            stale[at].1,
            f.deletions[at].0,
            f.deletions[at].1,
        ) {
            Err(e) => seq![LaunchAction::Finish(Err(e))],
            Ok(_) => launch_script(l, f, at + 1),
        }
    }
}

/// A launch ends, after four replies at most: the old files are deleted one
/// after the other, then the thread runs, and its outcome is that of the run.
/// The first file that is not deleted ends the launch.
pub proof fn law_launch_ends(l: Launcher, f: LaunchFacts)
    ensures
        launch_actions(l, f, launch_start(l, false), 4) == launch_script(l, f, 0),
        launch_actions(l, f, launch_start(l, true), 4) == seq![
            LaunchAction::<(PathView, Seq<char>), Result<(), ErrorView>>::Finish(
                Err(ErrorView::Exit(0)),
            ),
        ],
{
    reveal_with_fuel(launch_actions, 5);
    reveal_with_fuel(launch_script, 4);
    assert(launch_actions(l, f, launch_start(l, false), 4) =~= launch_script(l, f, 0));
}

/// The thread runs exactly where every file of an old cache that the run has to
/// delete is gone.
pub proof fn law_thread_runs_on_clean_ground(l: Launcher, f: LaunchFacts)
    ensures
        (exists|i: int|
            0 <= i < launch_script(l, f, 0).len() && #[trigger] launch_script(l, f, 0)[i]
                is RunThread) <==> forall|i: int|
            0 <= i < stale_files(l.action, l.aot_files).len() ==> delete_outcome(
                stale_files(l.action, l.aot_files)[i].1,
                (#[trigger] f.deletions[i]).0,
                f.deletions[i].1,
            ) is Ok,
{
    let stale = stale_files(l.action, l.aot_files);
    let script = launch_script(l, f, 0);
    reveal_with_fuel(launch_script, 4);
    let all_gone = forall|i: int|
        0 <= i < stale.len() ==> delete_outcome(
            stale[i].1,
            (#[trigger] f.deletions[i]).0,
            f.deletions[i].1,
        ) is Ok;
    if all_gone {
        if stale.len() > 0 {
            assert(delete_outcome(stale[0].1, f.deletions[0].0, f.deletions[0].1) is Ok);
            assert(delete_outcome(stale[1].1, f.deletions[1].0, f.deletions[1].1) is Ok);
            assert(delete_outcome(stale[2].1, f.deletions[2].0, f.deletions[2].1) is Ok);
        }
        assert(script[stale.len() as int] is RunThread);
    } else {
        let i = choose|i: int|
            0 <= i < stale.len() && !(delete_outcome(
                stale[i].1,
                (#[trigger] f.deletions[i]).0,
                f.deletions[i].1,
            ) is Ok);
        assert(i == 0 || i == 1 || i == 2);
        assert(stale.len() == 3);
    }
}

/// Joining puts the separator between every two neighbours: nothing and one path
/// have none, and each further path comes after one more.
pub proof fn law_joining_adds_a_separator(paths: Seq<PathView>, path: PathView, sep: Seq<u8>)
    ensures
        joined_bytes(Seq::empty(), sep) == Seq::<u8>::empty(),
        joined_bytes(seq![path], sep) == path.bytes(),
        paths.len() > 0 ==> joined_bytes(paths.push(path), sep) == joined_bytes(paths, sep) + sep
            + path.bytes(),
        paths.len() > 0 ==> joined_bytes(paths.push(path), sep).len() == joined_bytes(
            paths,
            sep,
        ).len() + sep.len() + path.bytes().len(),
{
    assert(paths.push(path).drop_last() =~= paths);
}

/// The parts of `bytes` between the places where `sep` stands.
pub open spec fn split_at_byte(bytes: Seq<u8>, sep: u8) -> Seq<Seq<u8>>
    decreases bytes.len(),
{
    if bytes.len() == 0 {
        seq![Seq::empty()]
    } else {
        let parts = split_at_byte(bytes.drop_last(), sep);
        if bytes.last() == sep {
            parts.push(Seq::empty())
        } else {
            parts.drop_last().push(parts.last().push(bytes.last()))
        }
    }
}

proof fn lemma_split_further(bytes: Seq<u8>, more: Seq<u8>, sep: u8)
    requires
        !more.contains(sep),
    ensures
        split_at_byte(bytes, sep).len() > 0,
        split_at_byte(bytes + more, sep) == split_at_byte(bytes, sep).drop_last().push(
            split_at_byte(bytes, sep).last() + more,
        ),
    decreases bytes.len() + more.len(),
{
    let parts = split_at_byte(bytes, sep);
    if bytes.len() > 0 {
        lemma_split_further(bytes.drop_last(), Seq::empty(), sep);
    }
    if more.len() == 0 {
        assert(bytes + more =~= bytes);
        assert(parts.last() + more =~= parts.last());
        assert(parts =~= parts.drop_last().push(parts.last()));
    } else {
        let less = more.drop_last();
        assert forall|i: int| 0 <= i < less.len() implies less[i] != sep by {
            assert(less[i] == more[i]);
        }
        lemma_split_further(bytes, less, sep);
        assert((bytes + more).drop_last() =~= bytes + less);
        assert(more[more.len() - 1] != sep);
        assert((parts.last() + less).push(more.last()) =~= parts.last() + more);
        let shorter = split_at_byte(bytes + less, sep);
        assert(shorter.drop_last() =~= parts.drop_last());
    }
}

/// Paths that do not hold the separator are had back, all of them and in order,
/// by splitting what they were joined to at the separator.
pub proof fn law_joined_paths_split(paths: Seq<PathView>, sep: u8)
    requires
        paths.len() > 0,
        forall|i: int| 0 <= i < paths.len() ==> !(#[trigger] paths[i]).bytes().contains(sep),
    ensures
        ({
            let parts = split_at_byte(joined_bytes(paths, seq![sep]), sep);
            &&& parts.len() == paths.len()
            &&& forall|i: int| 0 <= i < paths.len() ==> #[trigger] parts[i] == paths[i].bytes()
        }),
    decreases paths.len(),
{
    let last = paths.last().bytes();
    assert(!paths[paths.len() - 1].bytes().contains(sep));
    if paths.len() == 1 {
        assert(split_at_byte(Seq::empty(), sep) =~= seq![Seq::<u8>::empty()]);
        lemma_split_further(Seq::empty(), last, sep);
        assert(Seq::empty() + last =~= last);
    } else {
        let rest = paths.drop_last();
        assert forall|i: int| 0 <= i < rest.len() implies !(#[trigger] rest[i]).bytes().contains(
            sep,
        ) by {
            assert(rest[i] == paths[i]);
        }
        law_joined_paths_split(rest, sep);
        let head = joined_bytes(rest, seq![sep]) + seq![sep];
        assert(head.drop_last() =~= joined_bytes(rest, seq![sep]));
        lemma_split_further(head, last, sep);
        let parts = split_at_byte(joined_bytes(rest, seq![sep]), sep);
        assert(split_at_byte(head, sep) == parts.push(Seq::empty()));
        assert(parts.push(Seq::empty()).drop_last() =~= parts);
        assert(Seq::empty() + last =~= last);
    }
}

/// The entries of a class path are joined by a colon on Unix and by a semicolon
/// on Windows, and are had back by splitting there.
pub proof fn law_classpath_splits(classpath: Seq<PathView>, platform: Platform, sep: u8)
    requires
        classpath.len() > 0,
        platform == Platform::Unix ==> sep == 0x3a,
        platform == Platform::Windows ==> sep == 0x3b,
        forall|i: int| 0 <= i < classpath.len() ==> !(#[trigger] classpath[i]).bytes().contains(sep),
    ensures
        ({
            let parts = split_at_byte(classpath_bytes(classpath, platform), sep);
            &&& parts.len() == classpath.len()
            &&& forall|i: int|
                0 <= i < classpath.len() ==> #[trigger] parts[i] == classpath[i].bytes()
        }),
{
    law_classpath_separator();
    law_joined_paths_split(classpath, sep);
}

/// What the virtual machine is started with, option by option. The first two are
/// the same in every run. A run that uses a cache then logs to the log of uses
/// and names the cache; one that records logs to the log of recordings, works
/// around limits where that is asked for, and names the configuration; one
/// without a cache has neither. The class path and the arguments of the user
/// follow.
pub proof fn law_jvm_options_by_action(l: Launcher)
    requires
        jvm_options(l) is Ok,
    ensures
        ({
            let o = jvm_options(l)->Ok_0;
            let n = l.args.jvm@.len();
            let cp = classpath_bytes(l.classpath.deep_view(), l.repo_dir@.platform);
            &&& o.len() >= n + 3
            &&& o[0] == "--enable-native-access=ALL-UNNAMED"@
            &&& o[1] == "--sun-misc-unsafe-memory-access=allow"@
            &&& o[o.len() - n - 1] == "-Djava.class.path="@ + decode_utf8(cp)
            &&& forall|i: int| 0 <= i < n ==> #[trigger] o[o.len() - n + i] == l.args.jvm@[i]@
            &&& l.action == AotCacheAction::NoCache ==> o.len() == n + 3
            &&& l.action == AotCacheAction::Use ==> {
                &&& o.len() == n + 6
                &&& o[2] == "-Xlog:aot*=off"@
                &&& o[3] == "-Xlog:aot*=info:file=.paper/logs/aot-use.log"@
                &&& l.aot_files.cache@.text() matches Some(file) && o[4] == "-XX:AOTCache="@ + file
            }
            &&& l.action == AotCacheAction::Record ==> {
                let k: int = if l.compat {
                    2
                } else {
                    0
                };
                &&& o.len() == n + 7 + k
                &&& o[2] == "-Xlog:aot*=off"@
                &&& o[3] == "-Xlog:aot*=info:file=.paper/logs/aot-record.log"@
                &&& l.compat ==> o[4] == "-XX:+UnlockDiagnosticVMOptions"@ && o[5]
                    == "-XX:-AOTInvokeDynamicLinking"@
                &&& o[4 + k] == "-XX:AOTMode=record"@
                &&& l.aot_files.conf@.text() matches Some(file) && o[5 + k]
                    == "-XX:AOTConfiguration="@ + file
            }
        }),
{
}

/// The class path that the virtual machine is told holds every file on the class
/// path of the run, in order, with the separator of the platform between them.
pub proof fn law_class_path_option(l: Launcher, sep: u8)
    requires
        jvm_options(l) is Ok,
        l.classpath@.len() > 0,
        l.repo_dir@.platform == Platform::Unix ==> sep == 0x3a,
        l.repo_dir@.platform == Platform::Windows ==> sep == 0x3b,
        forall|i: int|
            0 <= i < l.classpath@.len() ==> !(#[trigger] l.classpath@[i])@.bytes().contains(sep),
    ensures
        ({
            let o = jvm_options(l)->Ok_0;
            let key = "-Djava.class.path="@;
            let option = o[o.len() - l.args.jvm@.len() - 1];
            let parts = split_at_byte(encode_utf8(option.skip(key.len() as int)), sep);
            &&& option.len() >= key.len()
            &&& option.take(key.len() as int) == key
            &&& parts.len() == l.classpath@.len()
            &&& forall|i: int|
                0 <= i < parts.len() ==> #[trigger] parts[i] == l.classpath@[i]@.bytes()
        }),
{
    let o = jvm_options(l)->Ok_0;
    let key = "-Djava.class.path="@;
    let cp = classpath_bytes(l.classpath.deep_view(), l.repo_dir@.platform);
    let option = o[o.len() - l.args.jvm@.len() - 1];
    law_jvm_options_by_action(l);
    assert(option.take(key.len() as int) =~= key);
    assert(option.skip(key.len() as int) =~= decode_utf8(cp));
    vstd::utf8::decode_utf8_encode_utf8(cp);
    let paths = l.classpath.deep_view();
    assert forall|i: int| 0 <= i < paths.len() implies #[trigger] paths[i] == l.classpath@[i]@ by {}
    law_classpath_splits(paths, l.repo_dir@.platform, sep);
}

/// Options that cannot be given are told by the path that is not text: that of
/// the cache in a run that uses it, of the configuration in one that records, and
/// otherwise the class path.
pub proof fn law_jvm_options_errors(l: Launcher)
    ensures
        ({
            let out = jvm_options(l);
            let cp = classpath_bytes(l.classpath.deep_view(), l.repo_dir@.platform);
            let cache_bad = l.action == AotCacheAction::Use && l.aot_files.cache@.text() is None;
            let conf_bad = l.action == AotCacheAction::Record && l.aot_files.conf@.text() is None;
            &&& cache_bad ==> out is Err && out->Err_0.text()
                == "Failed to convert AOT cache file path to string: "@
                + l.aot_files.cache@.shown()
            &&& conf_bad ==> out is Err && out->Err_0.text()
                == "Failed to convert AOT conf file path to string: "@ + l.aot_files.conf@.shown()
            &&& !cache_bad && !conf_bad && !valid_utf8(cp) ==> out is Err && out->Err_0.text()
                == "Failed to convert classpath to string: "@ + shown_text(
                l.repo_dir@.platform,
                cp,
            )
            &&& !cache_bad && !conf_bad && valid_utf8(cp) ==> out is Ok
        }),
{
}

/// The class that is started is the main class as the virtual machine names it:
/// as long as the name with dots, with a slash at every place where that has a
/// dot, no dot left, and the same character at every other place.
pub proof fn law_class_name(main_class: Seq<char>)
    ensures
        ({
            let name = replaced(main_class, '.', '/');
            &&& name.len() == main_class.len()
            &&& !name.contains('.')
            &&& forall|i: int|
                0 <= i < name.len() ==> #[trigger] name[i] == (match main_class[i] {
                    '.' => '/',
                    c => c,
                })
        }),
{
    law_replaced(main_class, '.', '/');
}

/// A file that is not there is not deleted, which is no failure; one that is
/// there is gone exactly where it could be removed, and the text of a failure says
/// what the file was.
pub proof fn law_delete_outcome(name: Seq<char>, present: bool, removed: Result<(), ErrorView>)
    ensures
        delete_outcome(name, present, removed) is Ok <==> !present || removed is Ok,
        present ==> (removed matches Err(e) ==> delete_outcome(name, present, removed)->Err_0.text()
            == "Failed to delete existing AOT "@ + name + " file"@ + "\nCaused by: "@ + e.text()),
{
}

/// A launch that records deletes the meta data, the cache and the configuration,
/// in this order, and runs the thread after that; what the thread came to is the
/// outcome, and exit code 1 where it panicked. Any other launch runs the thread at
/// once.
pub proof fn law_launch_in_order(l: Launcher, f: LaunchFacts)
    requires
        l.action == AotCacheAction::Record ==> f.deletions.len() == 3 && forall|i: int|
            0 <= i < 3 ==> !(#[trigger] f.deletions[i]).0 || f.deletions[i].1 is Ok,
    ensures
        ({
            let done = launch_actions(l, f, launch_start(l, false), 4);
            let n = done.len();
            &&& n >= 2
            &&& l.action == AotCacheAction::Record ==> {
                &&& n == 5
                &&& done[0] == LaunchAction::<(PathView, Seq<char>), Result<(), ErrorView>>::Delete(
                    (l.aot_files.meta@, "meta"@),
                )
                &&& done[1] == LaunchAction::<(PathView, Seq<char>), Result<(), ErrorView>>::Delete(
                    (l.aot_files.cache@, "cache"@),
                )
                &&& done[2] == LaunchAction::<(PathView, Seq<char>), Result<(), ErrorView>>::Delete(
                    (l.aot_files.conf@, "config"@),
                )
            }
            &&& l.action != AotCacheAction::Record ==> n == 2
            &&& done[n - 2] is RunThread
            &&& done[n - 1] == LaunchAction::<(PathView, Seq<char>), Result<(), ErrorView>>::Finish(
                match f.joined {
                    Ok(out) => out,
                    Err(_) => Err(ErrorView::Exit(1)),
                },
            )
        }),
{
    reveal_with_fuel(launch_actions, 5);
    if l.action == AotCacheAction::Record {
        assert(!f.deletions[0].0 || f.deletions[0].1 is Ok);
        assert(!f.deletions[1].0 || f.deletions[1].1 is Ok);
        assert(!f.deletions[2].0 || f.deletions[2].1 is Ok);
    }
}

/// The first file that a recording launch fails to delete ends it: the thread
/// does not run, and the text of the error names the file.
pub proof fn law_undeleted_file_ends_launch(l: Launcher, f: LaunchFacts, at: int)
    requires
        l.action == AotCacheAction::Record,
        0 <= at < 3,
        f.deletions.len() == 3,
        forall|i: int|
            0 <= i < at ==> !(#[trigger] f.deletions[i]).0 || f.deletions[i].1 is Ok,
        f.deletions[at].0,
        f.deletions[at].1 is Err,
    ensures
        ({
            let done = launch_actions(l, f, launch_start(l, false), 4);
            let name = seq!["meta"@, "cache"@, "config"@][at];
            &&& done.len() == at + 2
            &&& forall|i: int| 0 <= i <= at ==> (#[trigger] done[i]) is Delete
            &&& done[at + 1] matches LaunchAction::Finish(Err(e)) && e.text()
                == "Failed to delete existing AOT "@ + name + " file"@ + "\nCaused by: "@
                + f.deletions[at].1->Err_0.text()
        }),
{
    reveal_with_fuel(launch_actions, 5);
    reveal_with_fuel(ErrorView::text, 2);
    assert(at == 0 || at == 1 || at == 2);
    if at > 0 {
        assert(!f.deletions[0].0 || f.deletions[0].1 is Ok);
    }
    if at > 1 {
        assert(!f.deletions[1].0 || f.deletions[1].1 is Ok);
    }
}

/// A launch whose switches say to patch alone does nothing and ends with exit
/// code 0.
pub proof fn law_patching_alone_runs_nothing(l: Launcher)
    ensures
        launch_start(l, true).1 == LaunchAction::<(PathView, Seq<char>), Result<(), ErrorView>>::Finish(
            Err(ErrorView::Exit(0)),
        ),
{
}

/// The text of why a virtual machine was not made says whether its options were
/// refused or it did not start, and ends in the reason, whose backtrace is kept.
pub proof fn law_jvm_start(start: JvmStart)
    ensures
        ({
            let out = jvm_start_outcome(start);
            &&& out is Ok <==> start is Started
            &&& start matches JvmStart::OptionsRefused(e) ==> out->Err_0.text()
                == "Failed to initialize JVM"@ + "\nCaused by: "@ + e@.text() && jvm_start_trace(
                start,
            ) == e.trace()
            &&& start matches JvmStart::NotStarted(e) ==> out->Err_0.text()
                == "Failed to start JVM"@ + "\nCaused by: "@ + e@.text() && jvm_start_trace(start)
                == e.trace()
        }),
{
}

/// The files of a run are those of the cache in its repository, and its logs are
/// in `.paper/logs` of the directory that it is in.
pub proof fn law_files_of_a_run(
    files: AotFiles,
    logs: LogFiles,
    repo: PathView,
    dir: PathView,
    text: Seq<char>,
)
    requires
        aot_files_in(files, repo),
        log_files_in(logs, dir),
        dir.text() == Some(text),
        takes_names(dir.platform, text),
    ensures
        files.meta@.names == repo.names.push(".paper"@).push("cache"@).push("paper.aot.meta"@),
        files.cache@.names == repo.names.push(".paper"@).push("cache"@).push("paper.aot"@),
        files.conf@.names == repo.names.push(".paper"@).push("cache"@).push("paper.aot.config"@),
        files.meta@.base == repo.base && files.cache@.base == repo.base && files.conf@.base
            == repo.base,
        dir.platform == Platform::Unix ==> {
            &&& logs.dir@.text() == Some(text + "/.paper/logs"@)
            &&& logs.record@.text() == Some(text + "/.paper/logs/aot-record.log"@)
            &&& logs.create@.text() == Some(text + "/.paper/logs/aot-create.log"@)
            &&& logs.use_aot@.text() == Some(text + "/.paper/logs/aot-use.log"@)
        },
        dir.platform == Platform::Windows ==> {
            &&& logs.dir@.text() == Some(text + "\\.paper\\logs"@)
            &&& logs.record@.text() == Some(text + "\\.paper\\logs\\aot-record.log"@)
            &&& logs.create@.text() == Some(text + "\\.paper\\logs\\aot-create.log"@)
            &&& logs.use_aot@.text() == Some(text + "\\.paper\\logs\\aot-use.log"@)
        },
{
    crate::aot::meta::lemma_names_plain();
    lemma_log_names_plain();
    law_names_are_written(dir, text, ".paper"@, "logs"@, "aot-record.log"@);
    law_names_are_written(dir, text, ".paper"@, "logs"@, "aot-create.log"@);
    law_names_are_written(dir, text, ".paper"@, "logs"@, "aot-use.log"@);
    reveal_strlit(".paper");
    reveal_strlit("logs");
    reveal_strlit("aot-record.log");
    reveal_strlit("aot-create.log");
    reveal_strlit("aot-use.log");
    let sep = written_separator(dir.platform);
    let folder = text + sep + ".paper"@ + sep + "logs"@;
    match dir.platform {
        Platform::Unix => {
            reveal_strlit("/.paper/logs");
            reveal_strlit("/.paper/logs/aot-record.log");
            reveal_strlit("/.paper/logs/aot-create.log");
            reveal_strlit("/.paper/logs/aot-use.log");
            assert(folder =~= text + "/.paper/logs"@);
            assert(folder + sep + "aot-record.log"@ =~= text + "/.paper/logs/aot-record.log"@);
            assert(folder + sep + "aot-create.log"@ =~= text + "/.paper/logs/aot-create.log"@);
            assert(folder + sep + "aot-use.log"@ =~= text + "/.paper/logs/aot-use.log"@);
        },
        Platform::Windows => {
            reveal_strlit("\\.paper\\logs");
            reveal_strlit("\\.paper\\logs\\aot-record.log");
            reveal_strlit("\\.paper\\logs\\aot-create.log");
            reveal_strlit("\\.paper\\logs\\aot-use.log");
            assert(folder =~= text + "\\.paper\\logs"@);
            assert(folder + sep + "aot-record.log"@ =~= text + "\\.paper\\logs\\aot-record.log"@);
            assert(folder + sep + "aot-create.log"@ =~= text + "\\.paper\\logs\\aot-create.log"@);
            assert(folder + sep + "aot-use.log"@ =~= text + "\\.paper\\logs\\aot-use.log"@);
        },
    }
}

/// The view of an event of a launch is the same event over views, and its
/// backtrace that of the error in it.
pub proof fn law_launch_event_view(exists: bool, r: Result<(), Error>)
    ensures
        launch_event_view(LaunchEvent::Deleted { exists, removed: r }) == (LaunchEvent::<
            ErrorView,
        >::Deleted { exists, removed: seen(r) }),
        launch_event_view(LaunchEvent::ThreadEnded(Ok(r))) == LaunchEvent::<ErrorView>::ThreadEnded(
            Ok(seen(r)),
        ),
        launch_event_view(LaunchEvent::ThreadEnded(Err(ThreadPanicked))) matches LaunchEvent::ThreadEnded(
            Err(_),
        ),
        launch_event_trace(LaunchEvent::Deleted { exists, removed: r }) == result_trace(r),
        launch_event_trace(LaunchEvent::ThreadEnded(Ok(r))) == result_trace(r),
{
}

/// The class path is its entries, joined by one colon each on Unix and by one
/// semicolon each on Windows.
pub proof fn law_classpath_bytes(classpath: Seq<PathView>)
    ensures
        classpath_bytes(classpath, Platform::Unix) == joined_bytes(classpath, seq![0x3au8]),
        classpath_bytes(classpath, Platform::Windows) == joined_bytes(classpath, seq![0x3bu8]),
{
    law_classpath_separator();
}

/// An event that a launch does not wait for changes nothing.
pub proof fn law_launch_ignores_the_unasked(l: Launcher, s: LaunchState, e: LaunchEventView)
    requires
        !(s is AwaitDeletion && e is Deleted && l.action == AotCacheAction::Record
            && s->AwaitDeletion_0 < 3),
        !(s is AwaitThread && e is ThreadEnded),
    ensures
        launch_step(l, s, e).0 == s,
        launch_step(l, s, e).1 is Rest,
{
}

/// The logs of a run are names below the directory that it is in, whatever the
/// path of that is.
pub proof fn law_logs_are_below(logs: LogFiles, dir: PathView)
    requires
        log_files_in(logs, dir),
    ensures
        logs.dir@.names == dir.names.push(".paper"@).push("logs"@),
        logs.record@.names == dir.names.push(".paper"@).push("logs"@).push("aot-record.log"@),
        logs.create@.names == dir.names.push(".paper"@).push("logs"@).push("aot-create.log"@),
        logs.use_aot@.names == dir.names.push(".paper"@).push("logs"@).push("aot-use.log"@),
        logs.dir@.base == dir.base && logs.dir@.platform == dir.platform,
        logs.record@.base == dir.base && logs.record@.platform == dir.platform,
        logs.create@.base == dir.base && logs.create@.platform == dir.platform,
        logs.use_aot@.base == dir.base && logs.use_aot@.platform == dir.platform,
{
}

/// The view of an action of a launch is the same action over views.
pub proof fn law_launch_action_view(f: StaleFile, r: Result<(), Error>)
    ensures
        LaunchAction::<StaleFile, Result<(), Error>>::Delete(f)@ == LaunchAction::<
            (PathView, Seq<char>),
            Result<(), ErrorView>,
        >::Delete((f.path@, f.name@)),
        LaunchAction::<StaleFile, Result<(), Error>>::RunThread@ is RunThread,
        LaunchAction::<StaleFile, Result<(), Error>>::Finish(r)@ == LaunchAction::<
            (PathView, Seq<char>),
            Result<(), ErrorView>,
        >::Finish(seen(r)),
        LaunchAction::<StaleFile, Result<(), Error>>::Rest@ is Rest,
{
}

/// Options are seen as the characters of each, in order, and an error as what it
/// says.
pub proof fn law_seen_texts(options: Vec<String>, e: Error, i: int)
    requires
        0 <= i < options@.len(),
    ensures
        seen_texts(Ok(options)) matches Ok(o) && o.len() == options@.len() && o[i] == options@[i]@,
        seen_texts(Err(e)) == Err::<Seq<Seq<char>>, ErrorView>(e@),
{
}

} // verus!
