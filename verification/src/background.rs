//! The thread beside the main thread: it makes the virtual machine, runs the
//! server and the recorder on it, and takes it down again.

use crate::errors::{
    generic_error, in_context, keeps_trace, result_trace, seen, wrapped_error, Error, ErrorView,
    WithContext,
};
use crate::launcher::{
    jvm_options, jvm_start_outcome, jvm_start_trace, AotCacheAction, JvmStart, Launcher,
};
use crate::path::{FilePath, PathView};
use crate::text::{cat2, cat4};
use crate::util::jni::{Notice, Stream};
use crate::util::{JoinHandleRes, ThreadPanicked};
use vstd::prelude::*;

verus! {

/// How far the thread has come. `E` is an error.
#[derive(Debug, PartialEq, Eq)]
pub enum BackgroundState<E> {
    AwaitDeletion,
    AwaitDirectory,
    AwaitJvm,
    AwaitServer,
    /// The server is over, with this outcome.
    AwaitRecorder(Result<(), E>),
    /// The server is over, and so is the recorder, where there was one.
    AwaitShutdown { server: Result<(), E>, recorder: Option<Result<(), E>> },
    Finished,
}

/// What is to be done next. `P` is a path, `A` a list of options, `R` an
/// outcome.
#[derive(Debug, PartialEq, Eq)]
pub enum BackgroundAction<P, A, R> {
    /// Delete the log file if it exists; a failure is told and does not matter.
    DeleteLog(P),
    /// Create the directory with its parents.
    CreateDirectory(P),
    /// Make a virtual machine with these options.
    StartJvm(A),
    /// Run the server in a thread, and wait for the thread.
    RunServer,
    /// Start the recorder in a thread, and wait for the thread.
    RunRecorder,
    /// Take the virtual machine down.
    DestroyJvm,
    /// The thread is over.
    Finish(R),
    /// There is nothing more to do.
    Rest,
}

/// What a thread came to. `E` is an error.
pub type Joined<E> = Result<Result<(), E>, ThreadPanicked>;

/// What came of what was to be done. `E` is an error, `S` the text of a
/// failure, `J` the outcome of making a virtual machine.
#[derive(Debug, PartialEq, Eq)]
pub enum BackgroundEvent<E, S, J> {
    Deleted,
    DirectoryCreated(Result<(), S>),
    JvmMade(J),
    ServerEnded(Joined<E>),
    /// What the thread of the recorder came to; `None` where none was started.
    RecorderEnded(Option<Joined<E>>),
    Destroyed(Result<(), S>),
}

/// A state of the thread.
pub type RunState = BackgroundState<Error>;

/// What a state is, over sequences.
pub type RunStateView = BackgroundState<ErrorView>;

/// An event of the thread.
pub type RunEvent = BackgroundEvent<Error, String, JvmStart>;

/// What an event is, over sequences.
pub type RunEventView = BackgroundEvent<ErrorView, Seq<char>, Result<(), ErrorView>>;

/// What an action is, over sequences.
pub type RunActionView = BackgroundAction<PathView, Seq<Seq<char>>, Result<(), ErrorView>>;

/// The view of a state.
pub open spec fn run_state_view(s: RunState) -> RunStateView {
    match s {
        BackgroundState::AwaitDeletion => BackgroundState::AwaitDeletion,
        BackgroundState::AwaitDirectory => BackgroundState::AwaitDirectory,
        BackgroundState::AwaitJvm => BackgroundState::AwaitJvm,
        BackgroundState::AwaitServer => BackgroundState::AwaitServer,
        BackgroundState::AwaitRecorder(server) => BackgroundState::AwaitRecorder(seen(server)),
        BackgroundState::AwaitShutdown { server, recorder } => BackgroundState::AwaitShutdown {
            server: seen(server),
            recorder: match recorder {
                Some(r) => Some(seen(r)),
                None => None,
            },
        },
        BackgroundState::Finished => BackgroundState::Finished,
    }
}

/// The view of what a thread came to.
pub open spec fn joined_view(j: Joined<Error>) -> Joined<ErrorView> {
    match j {
        Ok(r) => Ok(seen(r)),
        Err(p) => Err(p),
    }
}

/// The view of a failure.
pub open spec fn told(r: Result<(), String>) -> Result<(), Seq<char>> {
    match r {
        Ok(_) => Ok(()),
        Err(t) => Err(t@),
    }
}

/// The view of an event.
pub open spec fn run_event_view(e: RunEvent) -> RunEventView {
    match e {
        BackgroundEvent::Deleted => BackgroundEvent::Deleted,
        BackgroundEvent::DirectoryCreated(r) => BackgroundEvent::DirectoryCreated(told(r)),
        BackgroundEvent::JvmMade(start) => BackgroundEvent::JvmMade(jvm_start_outcome(start)),
        BackgroundEvent::ServerEnded(j) => BackgroundEvent::ServerEnded(joined_view(j)),
        BackgroundEvent::RecorderEnded(o) => BackgroundEvent::RecorderEnded(
            match o {
                Some(j) => Some(joined_view(j)),
                None => None,
            },
        ),
        BackgroundEvent::Destroyed(r) => BackgroundEvent::Destroyed(told(r)),
    }
}

impl View for BackgroundAction<FilePath, Vec<String>, Result<(), Error>> {
    type V = RunActionView;

    open spec fn view(&self) -> RunActionView {
        match *self {
            BackgroundAction::DeleteLog(p) => BackgroundAction::DeleteLog(p@),
            BackgroundAction::CreateDirectory(p) => BackgroundAction::CreateDirectory(p@),
            BackgroundAction::StartJvm(options) => BackgroundAction::StartJvm(options.deep_view()),
            BackgroundAction::RunServer => BackgroundAction::RunServer,
            BackgroundAction::RunRecorder => BackgroundAction::RunRecorder,
            BackgroundAction::DestroyJvm => BackgroundAction::DestroyJvm,
            BackgroundAction::Finish(r) => BackgroundAction::Finish(seen(r)),
            BackgroundAction::Rest => BackgroundAction::Rest,
        }
    }
}

/// A step of the thread: the next state, what the user is told, and what is to
/// be done then.
pub struct RunStepView {
    pub state: RunStateView,
    pub notices: Seq<(Stream, Seq<char>)>,
    pub action: RunActionView,
}

/// A step of the thread.
#[derive(Debug, PartialEq, Eq)]
pub struct RunStep {
    pub state: RunState,
    pub notices: Vec<Notice>,
    pub action: BackgroundAction<FilePath, Vec<String>, Result<(), Error>>,
}

impl View for RunStep {
    type V = RunStepView;

    open spec fn view(&self) -> RunStepView {
        RunStepView {
            state: run_state_view(self.state),
            notices: self.notices.deep_view(),
            action: self.action@,
        }
    }
}

/// A step on which the user is told nothing.
pub open spec fn run_on(state: RunStateView, action: RunActionView) -> RunStepView {
    RunStepView { state, notices: Seq::empty(), action }
}

/// What a thread returned; one that panicked failed.
pub open spec fn join_outcome(j: Joined<ErrorView>) -> Result<(), ErrorView> {
    match j {
        Ok(r) => r,
        Err(_) => Err(generic_error("Thread error"@)),
    }
}

/// What the user is told of a directory for the logs that was not created.
pub open spec fn directory_notices(dir: PathView, created: Result<(), Seq<char>>) -> Seq<
    (Stream, Seq<char>),
> {
    match created {
        Ok(_) => Seq::empty(),
        Err(reason) => seq![
            (
                Stream::Error,
                "Failed to create AOT logs directory ("@ + dir.shown() + "): "@ + reason,
            ),
        ],
    }
}

/// What the user is told when a recording begins.
pub open spec fn start_notices(action: AotCacheAction) -> Seq<(Stream, Seq<char>)> {
    if action == AotCacheAction::Record {
        seq![
            (
                Stream::Output,
                "Beginning AOT cache recording (This may cause slowdowns while the JVM is recording)..."@,
            ),
        ]
    } else {
        Seq::empty()
    }
}

/// What the user is told of a shutdown that failed.
pub open spec fn shutdown_notices(destroyed: Result<(), Seq<char>>) -> Seq<(Stream, Seq<char>)> {
    match destroyed {
        Ok(_) => Seq::empty(),
        Err(reason) => seq![(Stream::Error, "Error during JVM shutdown: "@ + reason)],
    }
}

/// What the user is told of a recorder that failed.
pub open spec fn recorder_notices(recorder: Option<Result<(), ErrorView>>) -> Seq<
    (Stream, Seq<char>),
> {
    match recorder {
        Some(Err(e)) => seq![(Stream::Error, "Error during AOT recording: "@ + e.text())],
        _ => Seq::empty(),
    }
}

/// The first step: the log that the run will write is deleted.
pub open spec fn run_start(l: Launcher) -> RunStepView {
    match l.action {
        AotCacheAction::Use => run_on(
            BackgroundState::AwaitDeletion,
            BackgroundAction::DeleteLog(l.log_files.use_aot@),
        ),
        AotCacheAction::Record => run_on(
            BackgroundState::AwaitDeletion,
            BackgroundAction::DeleteLog(l.log_files.record@),
        ),
        AotCacheAction::NoCache => run_on(
            BackgroundState::AwaitDirectory,
            BackgroundAction::CreateDirectory(l.log_files.dir@),
        ),
    }
}

/// The step that the thread takes on an event. What is not awaited changes
/// nothing.
pub open spec fn run_step(l: Launcher, s: RunStateView, e: RunEventView) -> RunStepView {
    match (s, e) {
        (BackgroundState::AwaitDeletion, BackgroundEvent::Deleted) => run_on(
            BackgroundState::AwaitDirectory,
            BackgroundAction::CreateDirectory(l.log_files.dir@),
        ),
        (BackgroundState::AwaitDirectory, BackgroundEvent::DirectoryCreated(created)) => {
            let notices = directory_notices(l.log_files.dir@, created);
            match jvm_options(l) {
                Ok(options) => RunStepView {
                    state: BackgroundState::AwaitJvm,
                    notices,
                    action: BackgroundAction::StartJvm(options),
                },
                Err(e) => RunStepView {
                    state: BackgroundState::Finished,
                    notices,
                    action: BackgroundAction::Finish(
                        Err(wrapped_error("Failed to create JVM"@, e)),
                    ),
                },
            }
        },
        (BackgroundState::AwaitJvm, BackgroundEvent::JvmMade(made)) => match made {
            Ok(_) => RunStepView {
                state: BackgroundState::AwaitServer,
                notices: start_notices(l.action),
                action: BackgroundAction::RunServer,
            },
            Err(e) => run_on(
                BackgroundState::Finished,
                BackgroundAction::Finish(Err(wrapped_error("Failed to create JVM"@, e))),
            ),
        },
        (BackgroundState::AwaitServer, BackgroundEvent::ServerEnded(j)) => if l.action
            == AotCacheAction::Record {
            run_on(
                BackgroundState::AwaitRecorder(join_outcome(j)),
                BackgroundAction::RunRecorder,
            )
        } else {
            run_on(
                BackgroundState::AwaitShutdown { server: join_outcome(j), recorder: None },
                BackgroundAction::DestroyJvm,
            )
        },
        (BackgroundState::AwaitRecorder(server), BackgroundEvent::RecorderEnded(o)) => run_on(
            BackgroundState::AwaitShutdown {
                server,
                recorder: match o {
                    Some(j) => Some(join_outcome(j)),
                    None => None,
                },
            },
            BackgroundAction::DestroyJvm,
        ),
        (
            BackgroundState::AwaitShutdown { server, recorder },
            BackgroundEvent::Destroyed(destroyed),
        ) => RunStepView {
            state: BackgroundState::Finished,
            notices: shutdown_notices(destroyed) + recorder_notices(recorder),
            action: BackgroundAction::Finish(in_context(server, "Error during server thread"@)),
        },
        _ => run_on(s, BackgroundAction::Rest),
    }
}

/// The error that the thread comes to on an event, where the state or the event
/// holds one.
pub open spec fn run_error(state: RunState, event: RunEvent) -> Option<Error> {
    match (state, event) {
        (BackgroundState::AwaitJvm, BackgroundEvent::JvmMade(JvmStart::OptionsRefused(e))) => Some(
            e,
        ),
        (BackgroundState::AwaitJvm, BackgroundEvent::JvmMade(JvmStart::NotStarted(e))) => Some(e),
        (BackgroundState::AwaitServer, BackgroundEvent::ServerEnded(Ok(Err(e)))) => Some(e),
        (BackgroundState::AwaitRecorder(Err(e)), BackgroundEvent::RecorderEnded(_)) => Some(e),
        (
            BackgroundState::AwaitShutdown { server: Err(e), recorder: _ },
            BackgroundEvent::Destroyed(_),
        ) => Some(e),
        _ => None,
    }
}

/// What the thread comes to: at its end, and before that as far as it is settled
/// by the server.
pub open spec fn run_end(step: RunStep) -> Option<Result<(), Error>> {
    match (step.state, step.action) {
        (_, BackgroundAction::Finish(r)) => Some(r),
        (BackgroundState::AwaitRecorder(server), _) => Some(server),
        (BackgroundState::AwaitShutdown { server, recorder: _ }, _) => Some(server),
        _ => None,
    }
}

fn proceed(
    state: RunState,
    action: BackgroundAction<FilePath, Vec<String>, Result<(), Error>>,
) -> (r: RunStep)
    ensures
        r@ == run_on(run_state_view(state), action@),
        r.state == state,
        r.action == action,
{
    let notices: Vec<Notice> = Vec::new();
    assert(notices.deep_view() =~= Seq::empty());
    RunStep { state, notices, action }
}

fn tell(notices: &mut Vec<Notice>, stream: Stream, text: String)
    ensures
        final(notices).deep_view() == old(notices).deep_view().push((stream, text@)),
{
    let ghost before = notices.deep_view();
    notices.push(Notice { stream, text });
    assert(notices.deep_view() =~= before.push((stream, text@)));
}

impl Launcher {
    /// Begins the thread beside the main thread.
    pub fn start_background_thread(&self) -> (r: RunStep)
        ensures
            r@ == run_start(*self),
    {
        match self.action {
            AotCacheAction::Use => proceed(
                BackgroundState::AwaitDeletion,
                BackgroundAction::DeleteLog(self.log_files.use_aot.copy()),
            ),
            AotCacheAction::Record => proceed(
                BackgroundState::AwaitDeletion,
                BackgroundAction::DeleteLog(self.log_files.record.copy()),
            ),
            AotCacheAction::NoCache => proceed(
                BackgroundState::AwaitDirectory,
                BackgroundAction::CreateDirectory(self.log_files.dir.copy()),
            ),
        }
    }

    fn make_jvm(&self, created: Result<(), String>) -> (r: RunStep)
        ensures
            r@ == run_step(
                *self,
                BackgroundState::AwaitDirectory,
                BackgroundEvent::DirectoryCreated(told(created)),
            ),
    {
        let mut notices: Vec<Notice> = Vec::new();
        assert(notices.deep_view() =~= Seq::empty());
        if let Err(reason) = created {
            let shown = self.log_files.dir.display();
            let text = cat4(
                "Failed to create AOT logs directory (",
                shown.as_str(),
                "): ",
                reason.as_str(),
            );
            tell(&mut notices, Stream::Error, text);
        }
        assert(notices.deep_view() =~= directory_notices(self.log_files.dir@, told(created)));
        match self.init_jvm().err_ctx("Failed to create JVM") {
            Ok(options) => RunStep {
                state: BackgroundState::AwaitJvm,
                notices,
                action: BackgroundAction::StartJvm(options),
            },
            Err(e) => RunStep {
                state: BackgroundState::Finished,
                notices,
                action: BackgroundAction::Finish(Err(e)),
            },
        }
    }

    fn run_server(&self, start: JvmStart) -> (r: RunStep)
        ensures
            r@ == run_step(
                *self,
                BackgroundState::AwaitJvm,
                BackgroundEvent::JvmMade(jvm_start_outcome(start)),
            ),
            run_end(r) matches Some(out) ==> result_trace(out) == jvm_start_trace(start),
    {
        match Launcher::jvm_started(start).err_ctx("Failed to create JVM") {
            Err(e) => proceed(BackgroundState::Finished, BackgroundAction::Finish(Err(e))),
            Ok(()) => {
                let mut notices: Vec<Notice> = Vec::new();
                assert(notices.deep_view() =~= Seq::empty());
                if self.action.is_record() {
                    tell(
                        &mut notices,
                        Stream::Output,
                        "Beginning AOT cache recording (This may cause slowdowns while the JVM is recording)...".to_string(),
                    );
                }
                assert(notices.deep_view() =~= start_notices(self.action));
                RunStep {
                    state: BackgroundState::AwaitServer,
                    notices,
                    action: BackgroundAction::RunServer,
                }
            },
        }
    }

    fn end_run(
        &self,
        server: Result<(), Error>,
        recorder: Option<Result<(), Error>>,
        destroyed: Result<(), String>,
    ) -> (r: RunStep)
        ensures
            r@ == run_step(
                *self,
                run_state_view(BackgroundState::AwaitShutdown { server, recorder }),
                BackgroundEvent::Destroyed(told(destroyed)),
            ),
            run_end(r) matches Some(out) ==> result_trace(out) == result_trace(server),
    {
        let mut notices: Vec<Notice> = Vec::new();
        assert(notices.deep_view() =~= Seq::empty());
        if let Err(reason) = destroyed {
            tell(
                &mut notices,
                Stream::Error,
                cat2("Error during JVM shutdown: ", reason.as_str()),
            );
        }
        assert(notices.deep_view() =~= shutdown_notices(told(destroyed)));
        let ghost shutdown = notices.deep_view();
        if let Some(Err(e)) = &recorder {
            tell(
                &mut notices,
                Stream::Error,
                cat2("Error during AOT recording: ", e.message().as_str()),
            );
        }
        let ghost recorder_view = match recorder {
            Some(r) => Some(seen(r)),
            None => None,
        };
        assert(notices.deep_view() =~= shutdown + recorder_notices(recorder_view));
        RunStep {
            state: BackgroundState::Finished,
            notices,
            action: BackgroundAction::Finish(server.err_ctx("Error during server thread")),
        }
    }

    /// Goes on with what came of the last action.
    pub fn background_next(&self, state: RunState, event: RunEvent) -> (r: RunStep)
        ensures
            r@ == run_step(*self, run_state_view(state), run_event_view(event)),
            keeps_trace(run_error(state, event), run_end(r)),
    {
        match (state, event) {
            (BackgroundState::AwaitDeletion, BackgroundEvent::Deleted) => proceed(
                BackgroundState::AwaitDirectory,
                BackgroundAction::CreateDirectory(self.log_files.dir.copy()),
            ),
            (BackgroundState::AwaitDirectory, BackgroundEvent::DirectoryCreated(created)) =>
                self.make_jvm(created),
            (BackgroundState::AwaitJvm, BackgroundEvent::JvmMade(start)) => self.run_server(start),
            (BackgroundState::AwaitServer, BackgroundEvent::ServerEnded(joined)) => {
                let server = joined.join_res();
                if self.action.is_record() {
                    proceed(
                        BackgroundState::AwaitRecorder(server),
                        BackgroundAction::RunRecorder,
                    )
                } else {
                    proceed(
                        BackgroundState::AwaitShutdown { server, recorder: None },
                        BackgroundAction::DestroyJvm,
                    )
                }
            },
            (BackgroundState::AwaitRecorder(server), BackgroundEvent::RecorderEnded(joined)) => {
                let recorder = match joined {
                    Some(j) => Some(j.join_res()),
                    None => None,
                };
                proceed(
                    BackgroundState::AwaitShutdown { server, recorder },
                    BackgroundAction::DestroyJvm,
                )
            },
            (
                BackgroundState::AwaitShutdown { server, recorder },
                BackgroundEvent::Destroyed(destroyed),
            ) => self.end_run(server, recorder, destroyed),
            (s, _) => proceed(s, BackgroundAction::Rest),
        }
    }
}

/// What the thread finds when it looks.
pub struct RunFacts {
    /// The outcome of creating the directory for the logs.
    pub created: Result<(), Seq<char>>,
    /// The outcome of making the virtual machine.
    pub made: Result<(), ErrorView>,
    pub server: Joined<ErrorView>,
    pub recorder: Option<Joined<ErrorView>>,
    /// The outcome of taking the virtual machine down.
    pub destroyed: Result<(), Seq<char>>,
}

/// What comes of an action on these facts.
pub open spec fn run_reply(f: RunFacts, a: RunActionView) -> RunEventView {
    match a {
        BackgroundAction::DeleteLog(_) => BackgroundEvent::Deleted,
        BackgroundAction::CreateDirectory(_) => BackgroundEvent::DirectoryCreated(f.created),
        BackgroundAction::StartJvm(_) => BackgroundEvent::JvmMade(f.made),
        BackgroundAction::RunServer => BackgroundEvent::ServerEnded(f.server),
        BackgroundAction::RunRecorder => BackgroundEvent::RecorderEnded(f.recorder),
        _ => BackgroundEvent::Destroyed(f.destroyed),
    }
}

/// The actions that the thread asks for within `steps` steps, up to its end.
pub open spec fn run_actions(l: Launcher, f: RunFacts, at: RunStepView, steps: nat) -> Seq<
    RunActionView,
>
    decreases steps,
{
    match at.action {
        BackgroundAction::Finish(_) => seq![at.action],
        a => if steps == 0 {
            seq![a]
        } else {
            seq![a] + run_actions(
                l,
                f,
                run_step(l, at.state, run_reply(f, a)),
                (steps - 1) as nat,
            )
        },
    }
}

/// What is done before the virtual machine is made.
pub open spec fn preparations(l: Launcher) -> Seq<RunActionView> {
    let dir = BackgroundAction::CreateDirectory(l.log_files.dir@);
    match l.action {
        AotCacheAction::Use => seq![BackgroundAction::DeleteLog(l.log_files.use_aot@), dir],
        AotCacheAction::Record => seq![BackgroundAction::DeleteLog(l.log_files.record@), dir],
        AotCacheAction::NoCache => seq![dir],
    }
}

/// What is done while there is a virtual machine.
pub open spec fn machine_work(action: AotCacheAction) -> Seq<RunActionView> {
    if action == AotCacheAction::Record {
        seq![
            BackgroundAction::RunServer,
            BackgroundAction::RunRecorder,
            BackgroundAction::DestroyJvm,
        ]
    } else {
        seq![BackgroundAction::RunServer, BackgroundAction::DestroyJvm]
    }
}

/// The whole of what the thread does on these facts.
pub open spec fn run_script(l: Launcher, f: RunFacts) -> Seq<RunActionView> {
    match jvm_options(l) {
        Err(e) => preparations(l) + seq![
            BackgroundAction::Finish(Err(wrapped_error("Failed to create JVM"@, e))),
        ],
        Ok(options) => preparations(l) + seq![BackgroundAction::StartJvm(options)] + match f.made {
            Err(e) => seq![
                BackgroundAction::Finish(Err(wrapped_error("Failed to create JVM"@, e))),
            ],
            Ok(_) => machine_work(l.action) + seq![
                BackgroundAction::Finish(
                    in_context(join_outcome(f.server), "Error during server thread"@),
                ),
            ],
        },
    }
}

/// The thread ends, after six replies at most. A virtual machine that was made
/// is always taken down again; a recorder runs after the server in a run that
/// records and in no other; and the outcome is that of the server, whatever
/// came of the recorder and of taking the machine down.
pub proof fn law_background_ends(l: Launcher, f: RunFacts)
    ensures
        run_actions(l, f, run_start(l), 6) == run_script(l, f),
{
    reveal_with_fuel(run_actions, 7);
    assert(run_actions(l, f, run_start(l), 6) =~= run_script(l, f));
}

/// What the thread does while nothing fails, in order: it deletes the log that
/// the run will write, where it will write one; creates the directory of the
/// logs; makes the virtual machine with the options of the run; runs the server;
/// after that the recorder, exactly where the run records; and takes the machine
/// down. What the server came to is the outcome, whatever came of the directory,
/// of the recorder and of taking the machine down.
pub proof fn law_thread_in_order(l: Launcher, f: RunFacts)
    requires
        jvm_options(l) is Ok,
        f.made is Ok,
    ensures
        ({
            let done = run_actions(l, f, run_start(l), 6);
            let n = done.len();
            let cached: int = if l.action == AotCacheAction::NoCache {
                0
            } else {
                1
            };
            let recorded: int = if l.action == AotCacheAction::Record {
                1
            } else {
                0
            };
            &&& n == 5 + cached + recorded
            &&& l.action == AotCacheAction::Use ==> done[0] == BackgroundAction::<
                PathView,
                Seq<Seq<char>>,
                Result<(), ErrorView>,
            >::DeleteLog(l.log_files.use_aot@)
            &&& l.action == AotCacheAction::Record ==> done[0] == BackgroundAction::<
                PathView,
                Seq<Seq<char>>,
                Result<(), ErrorView>,
            >::DeleteLog(l.log_files.record@)
            &&& done[cached] == BackgroundAction::<
                PathView,
                Seq<Seq<char>>,
                Result<(), ErrorView>,
            >::CreateDirectory(l.log_files.dir@)
            &&& done[cached + 1] == BackgroundAction::<
                PathView,
                Seq<Seq<char>>,
                Result<(), ErrorView>,
            >::StartJvm(jvm_options(l)->Ok_0)
            &&& done[cached + 2] is RunServer
            &&& l.action == AotCacheAction::Record ==> done[cached + 3] is RunRecorder
            &&& done[n - 2] is DestroyJvm
            &&& f.server matches Ok(Ok(_)) ==> (done[n - 1] matches BackgroundAction::Finish(Ok(_)))
            &&& f.server matches Ok(Err(e)) ==> (done[n - 1] matches BackgroundAction::Finish(
                Err(out),
            ) && out.text() == "Error during server thread"@ + "\nCaused by: "@ + e.text())
            &&& f.server is Err ==> (done[n - 1] matches BackgroundAction::Finish(Err(out))
                && out.text() == "Error during server thread"@ + "\nCaused by: "@
                + "Thread error"@)
        }),
{
    reveal_with_fuel(run_actions, 7);
    reveal_with_fuel(ErrorView::text, 2);
}

/// A virtual machine whose options cannot be given, or that was not made, ends
/// the thread: no server runs, there is nothing to take down, and the text of the
/// error ends in the reason.
pub proof fn law_no_machine_no_server(l: Launcher, f: RunFacts)
    requires
        jvm_options(l) is Err || f.made is Err,
    ensures
        ({
            let done = run_actions(l, f, run_start(l), 6);
            let n = done.len();
            &&& n > 0
            &&& forall|i: int|
                0 <= i < n ==> !(#[trigger] done[i] is RunServer) && !(done[i] is RunRecorder) && !(
                done[i] is DestroyJvm)
            &&& jvm_options(l) matches Err(e) ==> (done[n - 1] matches BackgroundAction::Finish(
                Err(out),
            ) && out.text() == "Failed to create JVM"@ + "\nCaused by: "@ + e.text()) && forall|
                i: int,
            |
                0 <= i < n ==> !(#[trigger] done[i] is StartJvm)
            &&& jvm_options(l) is Ok ==> (done[n - 1] matches BackgroundAction::Finish(Err(out))
                && out.text() == "Failed to create JVM"@ + "\nCaused by: "@ + f.made->Err_0.text())
        }),
{
    reveal_with_fuel(run_actions, 7);
    reveal_with_fuel(ErrorView::text, 2);
}

/// What the user is told, and on which stream: a directory for the logs that was
/// not created, that a recording begins, a shutdown that failed, and then a
/// recorder that failed. Each is told exactly where it is so.
pub proof fn law_notices(
    l: Launcher,
    reason: Seq<char>,
    e: ErrorView,
    server: Result<(), ErrorView>,
)
    ensures
        ({
            let made = |created: Result<(), Seq<char>>|
                run_step(
                    l,
                    BackgroundState::AwaitDirectory,
                    BackgroundEvent::DirectoryCreated(created),
                ).notices;
            let down = |recorder: Option<Result<(), ErrorView>>, destroyed: Result<(), Seq<char>>|
                run_step(
                    l,
                    BackgroundState::AwaitShutdown { server, recorder },
                    BackgroundEvent::Destroyed(destroyed),
                ).notices;
            let recorder_told = (Stream::Error, "Error during AOT recording: "@ + e.text());
            let shutdown_told = (Stream::Error, "Error during JVM shutdown: "@ + reason);
            &&& made(Ok(())).len() == 0
            &&& made(Err(reason)) == seq![
                (
                    Stream::Error,
                    "Failed to create AOT logs directory ("@ + l.log_files.dir@.shown() + "): "@
                        + reason,
                ),
            ]
            &&& down(None, Ok(())).len() == 0
            &&& down(Some(Ok(())), Ok(())).len() == 0
            &&& down(None, Err(reason)) == seq![shutdown_told]
            &&& down(Some(Ok(())), Err(reason)) == seq![shutdown_told]
            &&& down(Some(Err(e)), Ok(())) == seq![recorder_told]
            &&& down(Some(Err(e)), Err(reason)) == seq![shutdown_told, recorder_told]
        }),
        ({
            let begun = run_step(l, BackgroundState::AwaitJvm, BackgroundEvent::JvmMade(Ok(()))).notices;
            &&& l.action == AotCacheAction::Record ==> begun == seq![
                (
                    Stream::Output,
                    "Beginning AOT cache recording (This may cause slowdowns while the JVM is recording)..."@,
                ),
            ]
            &&& l.action != AotCacheAction::Record ==> begun.len() == 0
        }),
{
    let recorder_told = (Stream::Error, "Error during AOT recording: "@ + e.text());
    let shutdown_told = (Stream::Error, "Error during JVM shutdown: "@ + reason);
    assert(shutdown_notices(Err(reason)) + recorder_notices(Some(Err(e))) =~= seq![
        shutdown_told,
        recorder_told,
    ]);
    assert(shutdown_notices(Err(reason)) + recorder_notices(None) =~= seq![shutdown_told]);
    assert(shutdown_notices(Err(reason)) + recorder_notices(Some(Ok(()))) =~= seq![shutdown_told]);
    assert(shutdown_notices(Ok(())) + recorder_notices(Some(Err(e))) =~= seq![recorder_told]);
}

/// The view of an event of the thread is the same event over views; a virtual
/// machine that was not made is seen as the error that is told of it.
pub proof fn law_run_event_view(
    told_text: String,
    start: JvmStart,
    r: Result<(), Error>,
)
    ensures
        run_event_view(BackgroundEvent::Deleted) is Deleted,
        run_event_view(BackgroundEvent::DirectoryCreated(Ok(()))) matches BackgroundEvent::DirectoryCreated(
            Ok(_),
        ),
        run_event_view(BackgroundEvent::DirectoryCreated(Err(told_text)))
            == BackgroundEvent::<ErrorView, Seq<char>, Result<(), ErrorView>>::DirectoryCreated(
            Err(told_text@),
        ),
        run_event_view(BackgroundEvent::JvmMade(start)) == BackgroundEvent::<
            ErrorView,
            Seq<char>,
            Result<(), ErrorView>,
        >::JvmMade(jvm_start_outcome(start)),
        run_event_view(BackgroundEvent::ServerEnded(Ok(r))) == BackgroundEvent::<
            ErrorView,
            Seq<char>,
            Result<(), ErrorView>,
        >::ServerEnded(Ok(seen(r))),
        run_event_view(BackgroundEvent::ServerEnded(Err(ThreadPanicked))) matches BackgroundEvent::ServerEnded(
            Err(_),
        ),
        run_event_view(BackgroundEvent::RecorderEnded(None)) matches BackgroundEvent::RecorderEnded(
            None,
        ),
        run_event_view(BackgroundEvent::RecorderEnded(Some(Ok(r)))) == BackgroundEvent::<
            ErrorView,
            Seq<char>,
            Result<(), ErrorView>,
        >::RecorderEnded(Some(Ok(seen(r)))),
        run_event_view(BackgroundEvent::Destroyed(Ok(()))) matches BackgroundEvent::Destroyed(
            Ok(_),
        ),
        run_event_view(BackgroundEvent::Destroyed(Err(told_text))) == BackgroundEvent::<
            ErrorView,
            Seq<char>,
            Result<(), ErrorView>,
        >::Destroyed(Err(told_text@)),
{
}

/// The error that the thread comes to is that of the virtual machine that was not
/// made, or of the server, which is kept until the machine is taken down.
pub proof fn law_run_error(
    e: Error,
    j: Option<Joined<Error>>,
    recorder: Option<Result<(), Error>>,
    destroyed: Result<(), String>,
    step: RunStep,
    r: Result<(), Error>,
)
    ensures
        run_error(
            BackgroundState::AwaitJvm,
            BackgroundEvent::JvmMade(JvmStart::OptionsRefused(e)),
        ) == Some(e),
        run_error(BackgroundState::AwaitJvm, BackgroundEvent::JvmMade(JvmStart::NotStarted(e)))
            == Some(e),
        run_error(BackgroundState::AwaitServer, BackgroundEvent::ServerEnded(Ok(Err(e)))) == Some(e),
        run_error(BackgroundState::AwaitRecorder(Err(e)), BackgroundEvent::RecorderEnded(j)) == Some(
            e,
        ),
        run_error(
            BackgroundState::AwaitShutdown { server: Err(e), recorder },
            BackgroundEvent::Destroyed(destroyed),
        ) == Some(e),
        step.action == BackgroundAction::<FilePath, Vec<String>, Result<(), Error>>::Finish(r)
            ==> run_end(step) == Some(r),
        step.action is RunRecorder && step.state == BackgroundState::AwaitRecorder(r) ==> run_end(
            step,
        ) == Some(r),
        step.action is DestroyJvm && step.state == (BackgroundState::AwaitShutdown {
            server: r,
            recorder,
        }) ==> run_end(step) == Some(r),
{
}

/// An event that the thread does not wait for changes nothing.
pub proof fn law_thread_ignores_the_unasked(l: Launcher, s: RunStateView, e: RunEventView)
    requires
        !(s is AwaitDeletion && e is Deleted),
        !(s is AwaitDirectory && e is DirectoryCreated),
        !(s is AwaitJvm && e is JvmMade),
        !(s is AwaitServer && e is ServerEnded),
        !(s is AwaitRecorder && e is RecorderEnded),
        !(s is AwaitShutdown && e is Destroyed),
    ensures
        run_step(l, s, e).state == s,
        run_step(l, s, e).notices.len() == 0,
        run_step(l, s, e).action is Rest,
{
}

/// The view of a step of the thread is its state, what the user is told, and its
/// action over views.
pub proof fn law_run_step_view(step: RunStep, p: FilePath, options: Vec<String>, r: Result<(), Error>)
    ensures
        step@.state == run_state_view(step.state),
        step@.action == step.action@,
        step@.notices.len() == step.notices@.len(),
        forall|i: int|
            0 <= i < step.notices@.len() ==> #[trigger] step@.notices[i] == (
                step.notices@[i].stream,
                step.notices@[i].text@,
            ),
        BackgroundAction::<FilePath, Vec<String>, Result<(), Error>>::DeleteLog(p)@
            == BackgroundAction::<PathView, Seq<Seq<char>>, Result<(), ErrorView>>::DeleteLog(p@),
        BackgroundAction::<FilePath, Vec<String>, Result<(), Error>>::CreateDirectory(p)@
            == BackgroundAction::<PathView, Seq<Seq<char>>, Result<(), ErrorView>>::CreateDirectory(
            p@,
        ),
        BackgroundAction::<FilePath, Vec<String>, Result<(), Error>>::StartJvm(options)@
            == BackgroundAction::<PathView, Seq<Seq<char>>, Result<(), ErrorView>>::StartJvm(
            options.deep_view(),
        ),
        BackgroundAction::<FilePath, Vec<String>, Result<(), Error>>::Finish(r)@
            == BackgroundAction::<PathView, Seq<Seq<char>>, Result<(), ErrorView>>::Finish(seen(r)),
        BackgroundAction::<FilePath, Vec<String>, Result<(), Error>>::RunServer@ is RunServer,
        BackgroundAction::<FilePath, Vec<String>, Result<(), Error>>::RunRecorder@ is RunRecorder,
        BackgroundAction::<FilePath, Vec<String>, Result<(), Error>>::DestroyJvm@ is DestroyJvm,
        BackgroundAction::<FilePath, Vec<String>, Result<(), Error>>::Rest@ is Rest,
{
}

/// The view of a state of the thread is the same state over views: what the
/// server and the recorder came to is kept.
pub proof fn law_run_state_view(server: Result<(), Error>, r: Result<(), Error>)
    ensures
        run_state_view(BackgroundState::AwaitDeletion) is AwaitDeletion,
        run_state_view(BackgroundState::AwaitDirectory) is AwaitDirectory,
        run_state_view(BackgroundState::AwaitJvm) is AwaitJvm,
        run_state_view(BackgroundState::AwaitServer) is AwaitServer,
        run_state_view(BackgroundState::AwaitRecorder(server)) == BackgroundState::<
            ErrorView,
        >::AwaitRecorder(seen(server)),
        run_state_view(BackgroundState::AwaitShutdown { server, recorder: Some(r) }) == (
        BackgroundState::<ErrorView>::AwaitShutdown {
            server: seen(server),
            recorder: Some(seen(r)),
        }),
        run_state_view(BackgroundState::AwaitShutdown { server, recorder: None }) == (
        BackgroundState::<ErrorView>::AwaitShutdown { server: seen(server), recorder: None }),
        run_state_view(BackgroundState::Finished) is Finished,
{
}

/// What the recorder came to is kept beside what the server came to: nothing
/// where no recorder was started, and the error `Thread error` where its thread
/// panicked. The same error stands for a server whose thread panicked.
pub proof fn law_what_threads_came_to(
    l: Launcher,
    server: Result<(), ErrorView>,
    r: Result<(), ErrorView>,
)
    ensures
        ({
            let after = |o: Option<Joined<ErrorView>>|
                run_step(
                    l,
                    BackgroundState::AwaitRecorder(server),
                    BackgroundEvent::RecorderEnded(o),
                ).state;
            let panicked = ErrorView::Generic { msg: "Thread error"@ };
            &&& after(None) == (BackgroundState::<ErrorView>::AwaitShutdown {
                server,
                recorder: None,
            })
            &&& after(Some(Ok(r))) == (BackgroundState::<ErrorView>::AwaitShutdown {
                server,
                recorder: Some(r),
            })
            &&& after(Some(Err(ThreadPanicked))) == (BackgroundState::<ErrorView>::AwaitShutdown {
                server,
                recorder: Some(Err(panicked)),
            })
        }),
        ({
            let ended = |j: Joined<ErrorView>|
                run_step(l, BackgroundState::AwaitServer, BackgroundEvent::ServerEnded(j)).state;
            let panicked = ErrorView::Generic { msg: "Thread error"@ };
            &&& l.action == AotCacheAction::Record ==> ended(Ok(r)) == BackgroundState::<
                ErrorView,
            >::AwaitRecorder(r) && ended(Err(ThreadPanicked)) == BackgroundState::<
                ErrorView,
            >::AwaitRecorder(Err(panicked))
            &&& l.action != AotCacheAction::Record ==> ended(Ok(r)) == (BackgroundState::<
                ErrorView,
            >::AwaitShutdown { server: r, recorder: None }) && ended(Err(ThreadPanicked)) == (
            BackgroundState::<ErrorView>::AwaitShutdown { server: Err(panicked), recorder: None })
        }),
{
}

} // verus!
