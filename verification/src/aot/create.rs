//! Creating an AOT cache from a recording, by a run of the launcher of its own.

use crate::aot::meta::{cache_file, AotMeta};
use crate::aot::record::{add_hint, with_hint, AotRecorder, Message};
use crate::errors::{
    error_in, generic_error, keeps_trace, seen, wrapped_error, Error, ErrorView, WithContext,
};
use crate::launcher::{append_text, compat_options, Launcher};
use crate::path::{FilePath, PathView};
use crate::text::{begins, cat2, starts_with, trim, trimmed};
use crate::util::jni::LogKind;
use vstd::prelude::*;
use vstd::string::*;

verus! {

/// The argument is an option of the virtual machine that creating a cache must
/// share with the run.
pub open spec fn is_vm_flag(arg: Seq<char>) -> bool {
    begins(arg, "-XX:"@)
}

/// The options of the virtual machine among the arguments, in order.
pub open spec fn vm_flags(args: Seq<Seq<char>>) -> Seq<Seq<char>> {
    args.filter(|a: Seq<char>| is_vm_flag(a))
}

/// What the run that creates a cache begins with.
pub open spec fn creation_options() -> Seq<Seq<char>> {
    seq![
        "--no-aot"@,
        "-Xlog:aot*=off"@,
        "-Xlog:aot*=info:file=.paper/logs/aot-create.log"@,
        "-XX:AOTMode=create"@,
    ]
}

/// The arguments of the run that creates the cache `cache` from the
/// configuration `conf`.
pub open spec fn creation_args(
    compat: bool,
    jvm_args: Seq<Seq<char>>,
    conf: Seq<char>,
    cache: Seq<char>,
    jar: Seq<char>,
) -> Seq<Seq<char>> {
    creation_options() + compat_options(compat) + vm_flags(jvm_args) + seq![
        "-XX:AOTConfiguration="@ + conf,
        "-XX:AOTCache="@ + cache,
        "-jar"@,
        jar,
    ]
}

fn append_vm_flags(list: &mut Vec<String>, args: &Vec<String>)
    ensures
        final(list).deep_view() == old(list).deep_view() + vm_flags(args.deep_view()),
{
    let ghost before = list.deep_view();
    let ghost all = args.deep_view();
    let ghost pred = |a: Seq<char>| is_vm_flag(a);
    let mut i: usize = 0;
    assert(all.take(0).filter(pred) =~= Seq::empty()) by {
        reveal(Seq::filter);
    }
    assert(list.deep_view() =~= before + all.take(0).filter(pred));
    while i < args.len()
        invariant
            i <= args.len(),
            all == args.deep_view(),
            all.len() == args.len(),
            pred == (|a: Seq<char>| is_vm_flag(a)),
            list.deep_view() == before + all.take(i as int).filter(pred),
        decreases args.len() - i,
    {
        let ghost next = all.take(i + 1);
        assert(next.drop_last() =~= all.take(i as int));
        assert(next.last() == args@[i as int]@);
        reveal(Seq::filter);
        if starts_with(args[i].as_str(), "-XX:") {
            append_text(list, args[i].as_str());
            assert(pred(next.last()));
        } else {
            assert(!pred(next.last()));
        }
        i += 1;
        assert(list.deep_view() =~= before + next.filter(pred));
    }
    assert(all.take(i as int) =~= all);
}

/// What is logged of a creation that failed: where to look, what may help, and
/// what the run printed.
pub open spec fn creation_failure(compat: bool, output: Seq<char>) -> Seq<char> {
    let msg = with_hint(
        "Failed to record AOT cache. Check logs at '.paper/logs/aot-create.log'."@,
        compat,
    );
    if output.len() == 0 {
        msg
    } else {
        msg + "\n"@ + trimmed(output)
    }
}

/// How far a creation has come.
#[derive(Clone, Copy, Debug, PartialEq, Eq, Structural)]
pub enum CreateState {
    AwaitExecutable,
    AwaitDeletion,
    AwaitDirectory,
    AwaitChild,
    AwaitExit,
    AwaitOutput,
    Finished,
}

/// What is to be done next. `P` is a path, `A` a list of arguments, `R` an
/// outcome.
#[derive(Debug, PartialEq, Eq)]
pub enum CreateAction<P, A, R> {
    /// Find the program of the launcher itself.
    FindExecutable,
    /// Delete the file if it exists; a failure is told and does not matter.
    DeleteFile(P),
    /// Create the directory with its parents if it does not exist; a failure
    /// does not matter.
    EnsureDirectory(P),
    /// Start the program with these arguments, with both of its streams for
    /// output in one pipe.
    Spawn(A),
    /// Wait for the end of the program.
    WaitForExit,
    /// Read what the program printed.
    ReadOutput,
    /// The creation is over.
    Finish(R),
    /// There is nothing more to do.
    Rest,
}

/// The outcome of starting a program. `E` is an error.
#[derive(Debug, PartialEq, Eq)]
pub enum SpawnOutcome<E> {
    /// There was no pipe for its output.
    NoPipe(E),
    NotStarted(E),
    Running,
}

/// What came of what was to be done. `E` is an error, `S` a text.
#[derive(Debug, PartialEq, Eq)]
pub enum CreateEvent<E, S> {
    Executable(Result<(), E>),
    Deleted,
    DirectoryEnsured,
    Spawned(SpawnOutcome<E>),
    /// Whether the program succeeded.
    Exited(Result<bool, E>),
    Output(Result<S, E>),
}

/// An event of a creation.
pub type CreateReply = CreateEvent<Error, String>;

/// What an event is, over sequences.
pub type CreateReplyView = CreateEvent<ErrorView, Seq<char>>;

/// What an action is, over sequences.
pub type CreateActionView = CreateAction<PathView, Seq<Seq<char>>, Result<(), ErrorView>>;

/// The view of an event.
pub open spec fn create_reply_view(e: CreateReply) -> CreateReplyView {
    match e {
        CreateEvent::Executable(r) => CreateEvent::Executable(seen(r)),
        CreateEvent::Deleted => CreateEvent::Deleted,
        CreateEvent::DirectoryEnsured => CreateEvent::DirectoryEnsured,
        CreateEvent::Spawned(s) => CreateEvent::Spawned(
            match s {
                SpawnOutcome::NoPipe(e) => SpawnOutcome::NoPipe(e@),
                SpawnOutcome::NotStarted(e) => SpawnOutcome::NotStarted(e@),
                SpawnOutcome::Running => SpawnOutcome::Running,
            },
        ),
        CreateEvent::Exited(r) => CreateEvent::Exited(seen(r)),
        CreateEvent::Output(r) => CreateEvent::Output(
            match r {
                Ok(t) => Ok(t@),
                Err(e) => Err(e@),
            },
        ),
    }
}

impl View for CreateAction<FilePath, Vec<String>, Result<(), Error>> {
    type V = CreateActionView;

    open spec fn view(&self) -> CreateActionView {
        match *self {
            CreateAction::FindExecutable => CreateAction::FindExecutable,
            CreateAction::DeleteFile(p) => CreateAction::DeleteFile(p@),
            CreateAction::EnsureDirectory(p) => CreateAction::EnsureDirectory(p@),
            CreateAction::Spawn(args) => CreateAction::Spawn(args.deep_view()),
            CreateAction::WaitForExit => CreateAction::WaitForExit,
            CreateAction::ReadOutput => CreateAction::ReadOutput,
            CreateAction::Finish(r) => CreateAction::Finish(seen(r)),
            CreateAction::Rest => CreateAction::Rest,
        }
    }
}

/// A step of a creation: the next state, what is logged, and what is to be done
/// then.
pub struct CreateStepView {
    pub state: CreateState,
    pub message: Option<(LogKind, Seq<char>)>,
    pub action: CreateActionView,
}

/// A step of a creation.
#[derive(Debug, PartialEq, Eq)]
pub struct CreateStep {
    pub state: CreateState,
    pub message: Option<Message>,
    pub action: CreateAction<FilePath, Vec<String>, Result<(), Error>>,
}

impl View for CreateStep {
    type V = CreateStepView;

    open spec fn view(&self) -> CreateStepView {
        CreateStepView {
            state: self.state,
            message: match self.message {
                Some(m) => Some(m@),
                None => None,
            },
            action: self.action@,
        }
    }
}

/// The error that an event brings.
pub open spec fn create_error(e: CreateReply) -> Option<Error> {
    match e {
        CreateEvent::Executable(r) => error_in(r),
        CreateEvent::Spawned(SpawnOutcome::NoPipe(e)) => Some(e),
        CreateEvent::Spawned(SpawnOutcome::NotStarted(e)) => Some(e),
        CreateEvent::Exited(r) => error_in(r),
        CreateEvent::Output(r) => error_in(r),
        _ => None,
    }
}

/// What a creation comes to, at its end.
pub open spec fn create_end(step: CreateStep) -> Option<Result<(), Error>> {
    match step.action {
        CreateAction::Finish(r) => Some(r),
        _ => None,
    }
}

/// A step without a message.
pub open spec fn create_on(state: CreateState, action: CreateActionView) -> CreateStepView {
    CreateStepView { state, message: None, action }
}

/// The step to the end.
pub open spec fn create_over(r: Result<(), ErrorView>) -> CreateStepView {
    create_on(CreateState::Finished, CreateAction::Finish(r))
}

/// The step that a creation takes on an event. What is not awaited changes
/// nothing.
pub open spec fn create_step(l: Launcher, s: CreateState, e: CreateReplyView) -> CreateStepView {
    let conf = l.aot_files.conf@.text();
    let cache = cache_file(l.repo_dir@).text();
    match (s, e) {
        (CreateState::AwaitExecutable, CreateEvent::Executable(r)) => match r {
            Err(e) => create_over(
                Err(wrapped_error("Failed to get path to current executable"@, e)),
            ),
            Ok(_) => if conf is None {
                create_over(Err(generic_error("Failed to convert AOT config file to String"@)))
            } else if cache is None {
                create_over(Err(generic_error("Failed to convert AOT cache file to String"@)))
            } else {
                create_on(
                    CreateState::AwaitDeletion,
                    CreateAction::DeleteFile(l.log_files.create@),
                )
            },
        },
        (CreateState::AwaitDeletion, CreateEvent::Deleted) => create_on(
            CreateState::AwaitDirectory,
            CreateAction::EnsureDirectory(l.log_files.dir@),
        ),
        (CreateState::AwaitDirectory, CreateEvent::DirectoryEnsured) => match (
            conf,
            cache,
            l.jar@.text(),
        ) {
            (None, _, _) => create_over(
                Err(generic_error("Failed to convert AOT config file to String"@)),
            ),
            (_, None, _) => create_over(
                Err(generic_error("Failed to convert AOT cache file to String"@)),
            ),
            (_, _, None) => create_over(
                Err(generic_error("Failed to convert jar path to String"@)),
            ),
            (Some(conf), Some(cache), Some(jar)) => create_on(
                CreateState::AwaitChild,
                CreateAction::Spawn(
                    creation_args(l.compat, l.args.jvm.deep_view(), conf, cache, jar),
                ),
            ),
        },
        (CreateState::AwaitChild, CreateEvent::Spawned(o)) => match o {
            SpawnOutcome::NoPipe(e) => create_over(Err(e)),
            SpawnOutcome::NotStarted(e) => create_over(
                Err(wrapped_error("Failed to create child process"@, e)),
            ),
            SpawnOutcome::Running => CreateStepView {
                state: CreateState::AwaitExit,
                message: Some((LogKind::Info, "Creating AOT cache file..."@)),
                action: CreateAction::WaitForExit,
            },
        },
        (CreateState::AwaitExit, CreateEvent::Exited(r)) => match r {
            Ok(true) => create_over(Ok(())),
            Ok(false) => create_on(CreateState::AwaitOutput, CreateAction::ReadOutput),
            Err(e) => create_over(Err(wrapped_error("Failed to wait for child process"@, e))),
        },
        (CreateState::AwaitOutput, CreateEvent::Output(r)) => match r {
            Err(e) => create_over(Err(e)),
            Ok(output) => CreateStepView {
                state: CreateState::Finished,
                message: Some((LogKind::Error, creation_failure(l.compat, output))),
                action: CreateAction::Finish(Err(generic_error("Failed to create AOT cache"@))),
            },
        },
        _ => create_on(s, CreateAction::Rest),
    }
}

fn proceed(
    state: CreateState,
    action: CreateAction<FilePath, Vec<String>, Result<(), Error>>,
) -> (r: CreateStep)
    ensures
        r@ == create_on(state, action@),
        r.action == action,
{
    CreateStep { state, message: None, action }
}

fn finish(out: Result<(), Error>) -> (r: CreateStep)
    ensures
        r@ == create_over(seen(out)),
        create_end(r) == Some(out),
{
    proceed(CreateState::Finished, CreateAction::Finish(out))
}

impl<'a> AotRecorder<'a> {
    /// Begins to create the cache.
    pub fn create_aot_cache(&self) -> (r: CreateStep)
        ensures
            r@ == create_on(CreateState::AwaitExecutable, CreateAction::FindExecutable),
    {
        proceed(CreateState::AwaitExecutable, CreateAction::FindExecutable)
    }

    fn conf_text(&self) -> (r: Result<String, Error>)
        ensures
            match self.launcher.aot_files.conf@.text() {
                Some(t) => r matches Ok(s) && s@ == t,
                None => seen(r) == Err::<String, ErrorView>(
                    generic_error("Failed to convert AOT config file to String"@),
                ),
            },
    {
        match self.launcher.aot_files.conf.text() {
            Some(f) => Ok(f),
            None => Err(Error::generic("Failed to convert AOT config file to String")),
        }
    }

    fn cache_text(&self) -> (r: Result<String, Error>)
        ensures
            match cache_file(self.launcher.repo_dir@).text() {
                Some(t) => r matches Ok(s) && s@ == t,
                None => seen(r) == Err::<String, ErrorView>(
                    generic_error("Failed to convert AOT cache file to String"@),
                ),
            },
    {
        let file = AotMeta::aot_cache_file(&self.launcher.repo_dir);
        match file.text() {
            Some(f) => Ok(f),
            None => Err(Error::generic("Failed to convert AOT cache file to String")),
        }
    }

    /// The command of the run that creates the cache, once its files are known.
    fn command(&self, conf: &str, cache: &str, jar: &str) -> (r: Vec<String>)
        ensures
            r.deep_view() == creation_args(
                self.launcher.compat,
                self.launcher.args.jvm.deep_view(),
                conf@,
                cache@,
                jar@,
            ),
    {
        let mut args: Vec<String> = Vec::new();
        append_text(&mut args, "--no-aot");
        append_text(&mut args, "-Xlog:aot*=off");
        append_text(&mut args, "-Xlog:aot*=info:file=.paper/logs/aot-create.log");
        append_text(&mut args, "-XX:AOTMode=create");
        assert(args.deep_view() =~= creation_options());
        if self.launcher.compat {
            append_text(&mut args, "-XX:+UnlockDiagnosticVMOptions");
            append_text(&mut args, "-XX:-AOTInvokeDynamicLinking");
        }
        assert(args.deep_view() =~= creation_options() + compat_options(self.launcher.compat));
        append_vm_flags(&mut args, &self.launcher.args.jvm);
        let conf_option = cat2("-XX:AOTConfiguration=", conf);
        append_text(&mut args, conf_option.as_str());
        let cache_option = cat2("-XX:AOTCache=", cache);
        append_text(&mut args, cache_option.as_str());
        append_text(&mut args, "-jar");
        append_text(&mut args, jar);
        assert(args.deep_view() =~= creation_args(
            self.launcher.compat,
            self.launcher.args.jvm.deep_view(),
            conf@,
            cache@,
            jar@,
        ));
        args
    }

    fn failure_text(&self, output: &str) -> (r: String)
        ensures
            r@ == creation_failure(self.launcher.compat, output@),
    {
        let mut msg = add_hint(
            "Failed to record AOT cache. Check logs at '.paper/logs/aot-create.log'.",
            self.launcher.compat,
        );
        if !output.is_empty() {
            msg.append("\n");
            msg.append(trim(output).as_str());
        }
        msg
    }

    /// Goes on with what came of the last action.
    pub fn create_next(&self, state: CreateState, event: CreateReply) -> (r: CreateStep)
        ensures
            r@ == create_step(*self.launcher, state, create_reply_view(event)),
            keeps_trace(create_error(event), create_end(r)),
    {
        match (state, event) {
            (CreateState::AwaitExecutable, CreateEvent::Executable(found)) => {
                match found.err_ctx("Failed to get path to current executable") {
                    Err(e) => finish(Err(e)),
                    Ok(()) => match self.conf_text() {
                        Err(e) => finish(Err(e)),
                        Ok(_) => match self.cache_text() {
                            Err(e) => finish(Err(e)),
                            Ok(_) => proceed(
                                CreateState::AwaitDeletion,
                                CreateAction::DeleteFile(self.launcher.log_files.create.copy()),
                            ),
                        },
                    },
                }
            },
            (CreateState::AwaitDeletion, CreateEvent::Deleted) => proceed(
                CreateState::AwaitDirectory,
                CreateAction::EnsureDirectory(self.launcher.log_files.dir.copy()),
            ),
            (CreateState::AwaitDirectory, CreateEvent::DirectoryEnsured) => {
                let conf = match self.conf_text() {
                    Ok(t) => t,
                    Err(e) => return finish(Err(e)),
                };
                let cache = match self.cache_text() {
                    Ok(t) => t,
                    Err(e) => return finish(Err(e)),
                };
                match self.launcher.jar.text() {
                    None => finish(Err(Error::generic("Failed to convert jar path to String"))),
                    Some(jar) => proceed(
                        CreateState::AwaitChild,
                        CreateAction::Spawn(
                            self.command(conf.as_str(), cache.as_str(), jar.as_str()),
                        ),
                    ),
                }
            },
            (CreateState::AwaitChild, CreateEvent::Spawned(outcome)) => match outcome {
                SpawnOutcome::NoPipe(e) => finish(Err(e)),
                SpawnOutcome::NotStarted(e) => finish(
                    Err(Error::wrap("Failed to create child process", e)),
                ),
                SpawnOutcome::Running => CreateStep {
                    state: CreateState::AwaitExit,
                    message: Some(
                        Message {
                            kind: LogKind::Info,
                            text: "Creating AOT cache file...".to_string(),
                        },
                    ),
                    action: CreateAction::WaitForExit,
                },
            },
            (CreateState::AwaitExit, CreateEvent::Exited(status)) => match status.err_ctx(
                "Failed to wait for child process",
            ) {
                Ok(success) => {
                    if success {
                        finish(Ok(()))
                    } else {
                        proceed(CreateState::AwaitOutput, CreateAction::ReadOutput)
                    }
                },
                Err(e) => finish(Err(e)),
            },
            (CreateState::AwaitOutput, CreateEvent::Output(read)) => match read {
                Err(e) => finish(Err(e)),
                Ok(output) => CreateStep {
                    state: CreateState::Finished,
                    message: Some(
                        Message {
                            kind: LogKind::Error,
                            text: self.failure_text(output.as_str()),
                        },
                    ),
                    action: CreateAction::Finish(
                        Err(Error::generic("Failed to create AOT cache")),
                    ),
                },
            },
            (s, _) => proceed(s, CreateAction::Rest),
        }
    }
}

/// The run that creates a cache is told first to go without one, so that it
/// records nothing itself. Of the user's arguments for the virtual machine it
/// has exactly those that are options of the form `-XX:`.
pub proof fn law_creation_args(
    compat: bool,
    jvm_args: Seq<Seq<char>>,
    conf: Seq<char>,
    cache: Seq<char>,
    jar: Seq<char>,
)
    ensures
        creation_args(compat, jvm_args, conf, cache, jar)[0] == "--no-aot"@,
        forall|i: int|
            0 <= i < vm_flags(jvm_args).len() ==> is_vm_flag(#[trigger] vm_flags(jvm_args)[i])
                && jvm_args.contains(vm_flags(jvm_args)[i]),
        forall|i: int|
            0 <= i < jvm_args.len() && is_vm_flag(#[trigger] jvm_args[i]) ==> creation_args(
                compat,
                jvm_args,
                conf,
                cache,
                jar,
            ).contains(jvm_args[i]),
{
    let pred = |a: Seq<char>| is_vm_flag(a);
    let flags = vm_flags(jvm_args);
    let all = creation_args(compat, jvm_args, conf, cache, jar);
    assert forall|i: int| 0 <= i < flags.len() implies is_vm_flag(#[trigger] flags[i])
        && jvm_args.contains(flags[i]) by {
        jvm_args.lemma_filter_pred(pred, i);
        assert(flags.contains(flags[i]));
        jvm_args.lemma_filter_contains_rev(pred, flags[i]);
    }
    let before = creation_options() + compat_options(compat);
    assert forall|i: int| 0 <= i < jvm_args.len() && is_vm_flag(#[trigger] jvm_args[i]) implies
        all.contains(jvm_args[i]) by {
        jvm_args.lemma_filter_contains(pred, i);
        let j = choose|j: int| 0 <= j < flags.len() && flags[j] == jvm_args[i];
        assert(all[before.len() + j] == flags[j]);
    }
}

/// What a creation finds when it looks.
pub struct CreateFacts {
    /// The outcome of finding the program.
    pub executable: Result<(), ErrorView>,
    pub spawned: SpawnOutcome<ErrorView>,
    /// Whether the program succeeded.
    pub exited: Result<bool, ErrorView>,
    /// What the program printed.
    pub output: Result<Seq<char>, ErrorView>,
}

/// What a creation comes to on these facts.
pub open spec fn create_outcome(l: Launcher, f: CreateFacts) -> Result<(), ErrorView> {
    if f.executable is Err {
        Err(wrapped_error("Failed to get path to current executable"@, f.executable->Err_0))
    } else if l.aot_files.conf@.text() is None {
        Err(generic_error("Failed to convert AOT config file to String"@))
    } else if cache_file(l.repo_dir@).text() is None {
        Err(generic_error("Failed to convert AOT cache file to String"@))
    } else if l.jar@.text() is None {
        Err(generic_error("Failed to convert jar path to String"@))
    } else {
        match f.spawned {
            SpawnOutcome::NoPipe(e) => Err(e),
            SpawnOutcome::NotStarted(e) => Err(
                wrapped_error("Failed to create child process"@, e),
            ),
            SpawnOutcome::Running => match f.exited {
                Err(e) => Err(wrapped_error("Failed to wait for child process"@, e)),
                Ok(true) => Ok(()),
                Ok(false) => match f.output {
                    Err(e) => Err(e),
                    Ok(_) => Err(generic_error("Failed to create AOT cache"@)),
                },
            },
        }
    }
}

/// What comes of an action on these facts.
pub open spec fn create_reply(f: CreateFacts, a: CreateActionView) -> CreateReplyView {
    match a {
        CreateAction::FindExecutable => CreateEvent::Executable(f.executable),
        CreateAction::DeleteFile(_) => CreateEvent::Deleted,
        CreateAction::EnsureDirectory(_) => CreateEvent::DirectoryEnsured,
        CreateAction::Spawn(_) => CreateEvent::Spawned(f.spawned),
        CreateAction::WaitForExit => CreateEvent::Exited(f.exited),
        _ => CreateEvent::Output(f.output),
    }
}

/// The outcome that a creation comes to within `steps` steps.
pub open spec fn create_run(l: Launcher, f: CreateFacts, at: CreateStepView, steps: nat) -> Option<
    Result<(), ErrorView>,
>
    decreases steps,
{
    match at.action {
        CreateAction::Finish(r) => Some(r),
        a => if steps == 0 {
            None
        } else {
            create_run(l, f, create_step(l, at.state, create_reply(f, a)), (steps - 1) as nat)
        },
    }
}

/// A creation ends, after six replies at most, with the outcome of what it found.
pub proof fn law_create_ends(l: Launcher, f: CreateFacts)
    ensures
        create_run(
            l,
            f,
            create_on(CreateState::AwaitExecutable, CreateAction::FindExecutable),
            6,
        ) == Some(create_outcome(l, f)),
{
    reveal_with_fuel(create_run, 7);
}

/// A creation succeeds exactly where a program was started for it and that
/// program succeeded.
pub proof fn law_created(l: Launcher, f: CreateFacts)
    ensures
        create_outcome(l, f) is Ok <==> {
            &&& f.executable is Ok
            &&& l.aot_files.conf@.text() is Some
            &&& cache_file(l.repo_dir@).text() is Some
            &&& l.jar@.text() is Some
            &&& f.spawned == SpawnOutcome::<ErrorView>::Running
            &&& f.exited == Ok::<bool, ErrorView>(true)
        },
{
}

/// The run that creates a cache begins with the same four options each time: go
/// without a cache, log to the log of the creation alone, and create. The two
/// that work around limits of the cache follow exactly where they are asked for.
pub proof fn law_creation_begins(
    compat: bool,
    jvm_args: Seq<Seq<char>>,
    conf: Seq<char>,
    cache: Seq<char>,
    jar: Seq<char>,
)
    ensures
        ({
            let a = creation_args(compat, jvm_args, conf, cache, jar);
            &&& a.len() >= 8
            &&& a[0] == "--no-aot"@
            &&& a[1] == "-Xlog:aot*=off"@
            &&& a[2] == "-Xlog:aot*=info:file=.paper/logs/aot-create.log"@
            &&& a[3] == "-XX:AOTMode=create"@
            &&& compat ==> {
                &&& a.len() >= 10
                &&& a[4] == "-XX:+UnlockDiagnosticVMOptions"@
                &&& a[5] == "-XX:-AOTInvokeDynamicLinking"@
            }
            &&& creation_args(compat, Seq::empty(), conf, cache, jar).len() == 8 + 2 * (
            compat as int)
        }),
{
    assert(vm_flags(Seq::empty()).len() == 0) by {
        reveal(Seq::filter);
    }
}

/// Whatever else it is given, the run that creates a cache reads the
/// configuration from the file of the configuration, writes the cache to the file
/// of the cache, and is of the jar: these are its last arguments, each file
/// stands after its own key, and neither key is given another file after the
/// options of the user.
pub proof fn law_creation_names_files(
    compat: bool,
    jvm_args: Seq<Seq<char>>,
    conf: Seq<char>,
    cache: Seq<char>,
    jar: Seq<char>,
)
    ensures
        ({
            let a = creation_args(compat, jvm_args, conf, cache, jar);
            let n = a.len();
            &&& n >= 8
            &&& a[n - 4] == "-XX:AOTConfiguration="@ + conf
            &&& a[n - 3] == "-XX:AOTCache="@ + cache
            &&& a[n - 2] == "-jar"@
            &&& a[n - 1] == jar
            &&& forall|i: int|
                n - 4 <= i < n - 1 && begins(#[trigger] a[i], "-XX:AOTConfiguration="@) ==> i == n
                    - 4
            &&& forall|i: int|
                n - 4 <= i < n - 1 && begins(#[trigger] a[i], "-XX:AOTCache="@) ==> i == n - 3
        }),
{
    let a = creation_args(compat, jvm_args, conf, cache, jar);
    let n = a.len();
    let conf_key = "-XX:AOTConfiguration="@;
    let cache_key = "-XX:AOTCache="@;
    reveal_strlit("-XX:AOTConfiguration=");
    reveal_strlit("-XX:AOTCache=");
    reveal_strlit("-jar");
    assert(conf_key[7] == 'C' && conf_key[8] == 'o' && cache_key[7] == 'C' && cache_key[8] == 'a');
    assert forall|i: int| n - 4 <= i < n - 1 && begins(#[trigger] a[i], conf_key) implies i == n
        - 4 by {
        assert(a[i].take(conf_key.len() as int)[8] == conf_key[8]);
        assert((cache_key + cache)[8] == cache_key[8]);
    }
    assert forall|i: int| n - 4 <= i < n - 1 && begins(#[trigger] a[i], cache_key) implies i == n
        - 3 by {
        assert(a[i].take(cache_key.len() as int)[8] == cache_key[8]);
        assert((conf_key + conf)[8] == conf_key[8]);
    }
}

/// One more argument of the user for the virtual machine adds itself to the run
/// that creates a cache, after those before it, where it begins with `-XX:`, and
/// changes nothing otherwise. So the run has these options of the user in their
/// order, between its own options and its files.
pub proof fn law_creation_flags_in_order(
    compat: bool,
    jvm_args: Seq<Seq<char>>,
    arg: Seq<char>,
    conf: Seq<char>,
    cache: Seq<char>,
    jar: Seq<char>,
)
    ensures
        ({
            let a = creation_args(compat, jvm_args, conf, cache, jar);
            let more = creation_args(compat, jvm_args.push(arg), conf, cache, jar);
            let n = a.len();
            &&& n >= 4
            &&& arg.len() >= 4 && arg.take(4) == "-XX:"@ ==> more == a.take(n - 4).push(arg)
                + a.skip(n - 4)
            &&& arg.len() < 4 || arg.take(4) != "-XX:"@ ==> more == a
        }),
{
    reveal_strlit("-XX:");
    reveal(Seq::filter);
    let pred = |a: Seq<char>| is_vm_flag(a);
    let args = jvm_args.push(arg);
    assert(args.drop_last() =~= jvm_args);
    assert(args.last() == arg);
    assert(vm_flags(args) == args.filter(pred));
    let a = creation_args(compat, jvm_args, conf, cache, jar);
    let more = creation_args(compat, args, conf, cache, jar);
    let n = a.len();
    if pred(arg) {
        assert(vm_flags(args) == vm_flags(jvm_args).push(arg));
        assert(more =~= a.take(n - 4).push(arg) + a.skip(n - 4));
    }
}

/// The program that is started to create the cache of a run names the
/// configuration of the run, the cache in its repository and its jar.
pub proof fn law_started_program_names_files(
    l: Launcher,
    conf: Seq<char>,
    cache: Seq<char>,
    jar: Seq<char>,
)
    requires
        l.aot_files.conf@.text() == Some(conf),
        cache_file(l.repo_dir@).text() == Some(cache),
        l.jar@.text() == Some(jar),
    ensures
        create_step(l, CreateState::AwaitDirectory, CreateEvent::DirectoryEnsured).action matches CreateAction::Spawn(
            a,
        ) && a.len() >= 8 && a[0] == "--no-aot"@ && a[a.len() - 4] == "-XX:AOTConfiguration="@ + conf
            && a[a.len() - 3] == "-XX:AOTCache="@ + cache && a[a.len() - 2] == "-jar"@ && a[a.len()
            - 1] == jar,
{
}

/// A creation that failed is told by where its log is, by the option that may
/// help where that is not used yet, and by what the program printed, if it
/// printed anything, on a line of its own.
pub proof fn law_creation_failure(compat: bool, output: Seq<char>)
    ensures
        creation_failure(true, Seq::empty())
            == "Failed to record AOT cache. Check logs at '.paper/logs/aot-create.log'."@,
        creation_failure(false, Seq::empty())
            == "Failed to record AOT cache. Check logs at '.paper/logs/aot-create.log'."@
            + "\nYou can try using '--aot-compat'."@,
        output.len() > 0 ==> creation_failure(compat, output) == creation_failure(
            compat,
            Seq::empty(),
        ) + "\n"@ + trimmed(output),
{
}

/// The actions that a creation asks for within `steps` steps, up to its end.
pub open spec fn create_actions(l: Launcher, f: CreateFacts, at: CreateStepView, steps: nat) -> Seq<
    CreateActionView,
>
    decreases steps,
{
    match at.action {
        CreateAction::Finish(_) => seq![at.action],
        a => if steps == 0 {
            seq![a]
        } else {
            seq![a] + create_actions(
                l,
                f,
                create_step(l, at.state, create_reply(f, a)),
                (steps - 1) as nat,
            )
        },
    }
}

/// A creation finds the program, deletes the old log of creations, sees to the
/// directory of the logs, and only then starts the program, waits for it, and
/// reads what it printed exactly where it failed.
pub proof fn law_creation_in_order(l: Launcher, f: CreateFacts)
    requires
        f.executable is Ok,
        l.aot_files.conf@.text() is Some,
        cache_file(l.repo_dir@).text() is Some,
        l.jar@.text() is Some,
        f.spawned is Running,
    ensures
        ({
            let done = create_actions(
                l,
                f,
                create_on(CreateState::AwaitExecutable, CreateAction::FindExecutable),
                6,
            );
            &&& done.len() >= 6
            &&& done[0] is FindExecutable
            &&& done[1] == CreateAction::<PathView, Seq<Seq<char>>, Result<(), ErrorView>>::DeleteFile(
                l.log_files.create@,
            )
            &&& done[2] == CreateAction::<
                PathView,
                Seq<Seq<char>>,
                Result<(), ErrorView>,
            >::EnsureDirectory(l.log_files.dir@)
            &&& done[3] is Spawn
            &&& done[4] is WaitForExit
            &&& f.exited == Ok::<bool, ErrorView>(true) ==> done.len() == 6
                && (done[5] matches CreateAction::Finish(Ok(_)))
            &&& f.exited == Ok::<bool, ErrorView>(false) ==> done.len() == 7 && done[5]
                is ReadOutput && (done[6] matches CreateAction::Finish(Err(_)))
            &&& f.exited is Err ==> done.len() == 6
                && (done[5] matches CreateAction::Finish(Err(_)))
        }),
{
    reveal_with_fuel(create_actions, 7);
}

/// The text of what a creation fails with says what was being done, and after it
/// the reason where there is one: the first thing that fails is told.
pub proof fn law_creation_errors(l: Launcher, f: CreateFacts)
    ensures
        ({
            let out = create_outcome(l, f);
            let conf = l.aot_files.conf@.text();
            let cache = cache_file(l.repo_dir@).text();
            let jar = l.jar@.text();
            let ready = f.executable is Ok && conf is Some && cache is Some && jar is Some;
            let running = ready && f.spawned is Running;
            &&& f.executable matches Err(e) ==> out is Err && out->Err_0.text()
                == "Failed to get path to current executable"@ + "\nCaused by: "@ + e.text()
            &&& f.executable is Ok && conf is None ==> out is Err && out->Err_0.text()
                == "Failed to convert AOT config file to String"@
            &&& f.executable is Ok && conf is Some && cache is None ==> out is Err
                && out->Err_0.text() == "Failed to convert AOT cache file to String"@
            &&& f.executable is Ok && conf is Some && cache is Some && jar is None ==> out is Err
                && out->Err_0.text() == "Failed to convert jar path to String"@
            &&& ready && f.spawned is NoPipe ==> out is Err && out->Err_0 == f.spawned->NoPipe_0
            &&& ready && f.spawned is NotStarted ==> out is Err && out->Err_0.text()
                == "Failed to create child process"@ + "\nCaused by: "@
                + f.spawned->NotStarted_0.text()
            &&& running && f.exited is Err ==> out is Err && out->Err_0.text()
                == "Failed to wait for child process"@ + "\nCaused by: "@ + f.exited->Err_0.text()
            &&& running && f.exited == Ok::<bool, ErrorView>(false) && f.output is Ok ==> out is Err
                && out->Err_0.text() == "Failed to create AOT cache"@
            &&& running && f.exited == Ok::<bool, ErrorView>(false) && f.output is Err ==> out
                is Err && out->Err_0 == f.output->Err_0
        }),
{
}

/// A creation logs that it has begun once its program runs, and as an error why
/// it failed once the program did; it logs nothing else.
pub proof fn law_creation_messages(l: Launcher, s: CreateState, e: CreateReplyView)
    ensures
        ({
            let message = create_step(l, s, e).message;
            let begun = s is AwaitChild && (e matches CreateEvent::Spawned(o) && o is Running);
            let failed = s is AwaitOutput && (e matches CreateEvent::Output(Ok(_)));
            &&& begun ==> message == Some((LogKind::Info, "Creating AOT cache file..."@))
            &&& failed ==> (e matches CreateEvent::Output(Ok(o)) && message == Some(
                (LogKind::Error, creation_failure(l.compat, o)),
            ))
            &&& !begun && !failed ==> message is None
        }),
{
}

/// The view of an event of a creation is the same event over views.
pub proof fn law_create_reply_view(
    u: Result<(), Error>,
    b: Result<bool, Error>,
    text: String,
    e: Error,
)
    ensures
        create_reply_view(CreateEvent::Executable(u)) == CreateEvent::<
            ErrorView,
            Seq<char>,
        >::Executable(seen(u)),
        create_reply_view(CreateEvent::Deleted) is Deleted,
        create_reply_view(CreateEvent::DirectoryEnsured) is DirectoryEnsured,
        create_reply_view(CreateEvent::Spawned(SpawnOutcome::NoPipe(e))) == CreateEvent::<
            ErrorView,
            Seq<char>,
        >::Spawned(SpawnOutcome::NoPipe(e@)),
        create_reply_view(CreateEvent::Spawned(SpawnOutcome::NotStarted(e))) == CreateEvent::<
            ErrorView,
            Seq<char>,
        >::Spawned(SpawnOutcome::NotStarted(e@)),
        create_reply_view(CreateEvent::Spawned(SpawnOutcome::Running)) == CreateEvent::<
            ErrorView,
            Seq<char>,
        >::Spawned(SpawnOutcome::Running),
        create_reply_view(CreateEvent::Exited(b)) == CreateEvent::<ErrorView, Seq<char>>::Exited(
            seen(b),
        ),
        create_reply_view(CreateEvent::Output(Ok(text))) == CreateEvent::<
            ErrorView,
            Seq<char>,
        >::Output(Ok(text@)),
        create_reply_view(CreateEvent::Output(Err(e))) == CreateEvent::<
            ErrorView,
            Seq<char>,
        >::Output(Err(e@)),
{
}

/// The error that an event of a creation brings is the one in it, and what a
/// creation comes to is what it ends with.
pub proof fn law_create_error(e: Error, step: CreateStep, r: Result<(), Error>)
    ensures
        create_error(CreateEvent::Executable(Err(e))) == Some(e),
        create_error(CreateEvent::Spawned(SpawnOutcome::NoPipe(e))) == Some(e),
        create_error(CreateEvent::Spawned(SpawnOutcome::NotStarted(e))) == Some(e),
        create_error(CreateEvent::Exited(Err(e))) == Some(e),
        create_error(CreateEvent::Output(Err(e))) == Some(e),
        step.action == CreateAction::<FilePath, Vec<String>, Result<(), Error>>::Finish(r)
            ==> create_end(step) == Some(r),
{
}

/// An event that a creation does not wait for changes nothing.
pub proof fn law_creation_ignores_the_unasked(l: Launcher, s: CreateState, e: CreateReplyView)
    requires
        !(s is AwaitExecutable && e is Executable),
        !(s is AwaitDeletion && e is Deleted),
        !(s is AwaitDirectory && e is DirectoryEnsured),
        !(s is AwaitChild && e is Spawned),
        !(s is AwaitExit && e is Exited),
        !(s is AwaitOutput && e is Output),
    ensures
        create_step(l, s, e).state == s,
        create_step(l, s, e).message is None,
        create_step(l, s, e).action is Rest,
{
}

/// The view of a step of a creation is its state, what is logged, and its action
/// over views.
pub proof fn law_create_step_view(step: CreateStep, p: FilePath, args: Vec<String>, r: Result<(), Error>)
    ensures
        step@.state == step.state,
        step@.action == step.action@,
        step.message is None <==> step@.message is None,
        step.message matches Some(m) ==> step@.message == Some((m.kind, m.text@)),
        CreateAction::<FilePath, Vec<String>, Result<(), Error>>::DeleteFile(p)@ == CreateAction::<
            PathView,
            Seq<Seq<char>>,
            Result<(), ErrorView>,
        >::DeleteFile(p@),
        CreateAction::<FilePath, Vec<String>, Result<(), Error>>::EnsureDirectory(p)@
            == CreateAction::<PathView, Seq<Seq<char>>, Result<(), ErrorView>>::EnsureDirectory(p@),
        CreateAction::<FilePath, Vec<String>, Result<(), Error>>::Spawn(args)@ == CreateAction::<
            PathView,
            Seq<Seq<char>>,
            Result<(), ErrorView>,
        >::Spawn(args.deep_view()),
        CreateAction::<FilePath, Vec<String>, Result<(), Error>>::Finish(r)@ == CreateAction::<
            PathView,
            Seq<Seq<char>>,
            Result<(), ErrorView>,
        >::Finish(seen(r)),
        CreateAction::<FilePath, Vec<String>, Result<(), Error>>::FindExecutable@ is FindExecutable,
        CreateAction::<FilePath, Vec<String>, Result<(), Error>>::WaitForExit@ is WaitForExit,
        CreateAction::<FilePath, Vec<String>, Result<(), Error>>::ReadOutput@ is ReadOutput,
        CreateAction::<FilePath, Vec<String>, Result<(), Error>>::Rest@ is Rest,
{
}

} // verus!
