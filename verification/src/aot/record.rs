//! Recording an AOT cache while the server runs.

use crate::aot::logs::{check_logs_for_errors, logs_outcome, LogRead};
use crate::aot::meta::{meta_file, AotMeta, MetaView};
use crate::aot::threads::{null_error, returned_null};
use crate::args::RecordMode;
use crate::errors::{
    error_in, generic_error, keeps_trace, seen, wrapped_error, Error, ErrorView, WithContext,
};
use crate::launcher::Launcher;
use crate::path::{FilePath, PathView};
use crate::text::cat2;
use crate::util::jni::LogKind;
use vstd::prelude::*;
use vstd::string::*;

verus! {

/// A message for the log of the virtual machine.
#[derive(Debug, PartialEq, Eq)]
pub struct Message {
    pub kind: LogKind,
    pub text: String,
}

impl View for Message {
    type V = (LogKind, Seq<char>);

    open spec fn view(&self) -> (LogKind, Seq<char>) {
        (self.kind, self.text@)
    }
}

impl DeepView for Message {
    type V = (LogKind, Seq<char>);

    open spec fn deep_view(&self) -> (LogKind, Seq<char>) {
        self@
    }
}

fn info(text: &str) -> (r: Message)
    ensures
        r@ == (LogKind::Info, text@),
{
    Message { kind: LogKind::Info, text: text.to_string() }
}

/// The message that tells of a failure and, where it is not used yet, of the
/// option that may help.
pub open spec fn with_hint(failure: Seq<char>, compat: bool) -> Seq<char> {
    if compat {
        failure
    } else {
        failure + "\nYou can try using '--aot-compat'."@
    }
}

/// The message that tells of a failure, with the hint where it is due.
pub(crate) fn add_hint(failure: &str, compat: bool) -> (r: String)
    ensures
        r@ == with_hint(failure@, compat),
{
    if compat {
        failure.to_string()
    } else {
        cat2(failure, "\nYou can try using '--aot-compat'.")
    }
}

/// Records the AOT cache of a run.
pub struct AotRecorder<'a> {
    pub launcher: &'a Launcher,
}

/// What is called on the server in order to stop it.
#[derive(Clone, Copy, Debug, PartialEq, Eq, Structural)]
pub enum ServerCall {
    /// Set `abnormalExit`; whether this fails does not matter.
    SetAbnormalExit,
    /// Call `halt(true)`.
    Halt,
}

/// What the recording thread does once recording is over. `R` is an outcome.
#[derive(Debug, PartialEq, Eq)]
pub enum MetaThreadAction<R> {
    /// Stop the server.
    StopServer { recording_failed: bool },
    /// The thread is over.
    Finish(R),
}

/// How the recording thread ends.
#[derive(Debug, PartialEq, Eq)]
pub struct MetaThreadEnd {
    /// What the user is told.
    pub notice: Option<String>,
    pub action: MetaThreadAction<Result<(), Error>>,
}

impl View for MetaThreadAction<Result<(), Error>> {
    type V = MetaThreadAction<Result<(), ErrorView>>;

    open spec fn view(&self) -> MetaThreadAction<Result<(), ErrorView>> {
        match *self {
            MetaThreadAction::StopServer { recording_failed } => MetaThreadAction::StopServer {
                recording_failed,
            },
            MetaThreadAction::Finish(r) => MetaThreadAction::Finish(seen(r)),
        }
    }
}

/// What the recording thread does once recording came to `recorded`: only a run
/// for recording alone stops the server.
pub open spec fn meta_thread_action(record: RecordMode, recorded: Result<(), ErrorView>) -> MetaThreadAction<
    Result<(), ErrorView>,
> {
    if record == RecordMode::OnlyRecord {
        MetaThreadAction::StopServer { recording_failed: recorded is Err }
    } else {
        MetaThreadAction::Finish(Ok(()))
    }
}

/// The recording thread succeeds, whatever recording came to: it is over with
/// success, or stops the server first, after which it succeeds whatever came of
/// that.
pub proof fn law_meta_thread_succeeds(record: RecordMode, recorded: Result<(), ErrorView>)
    ensures
        meta_thread_action(record, recorded) matches MetaThreadAction::Finish(r) ==> r is Ok,
        meta_thread_action(record, recorded) is StopServer <==> record == RecordMode::OnlyRecord,
{
}

/// What came of the end of a recording.
#[derive(Debug, PartialEq, Eq)]
pub struct EndReport {
    /// What the user is told on the standard stream for errors.
    pub warning: Option<String>,
    /// What is logged.
    pub message: Message,
    /// Whether there is a configuration to create a cache from.
    pub recorded: bool,
}

impl<'a> AotRecorder<'a> {
    pub fn new(launcher: &'a Launcher) -> (r: Self)
        ensures
            r.launcher == launcher,
    {
        Self { launcher }
    }

    /// Whether the recording thread is started: only where there is no meta data
    /// yet.
    pub fn start_record_thread(&self, meta_exists: bool) -> (r: bool)
        ensures
            r == !meta_exists,
    {
        !meta_exists
    }

    /// Ends the recording thread: a failure is told, and a run for recording
    /// alone stops the server.
    pub fn exec_meta_thread(&self, recorded: &Result<(), Error>) -> (r: MetaThreadEnd)
        ensures
            r.notice is Some <==> recorded is Err,
            r.notice matches Some(t) ==> t@ == "Failed to write AOT cache: "@
                + recorded->Err_0@.text(),
            r.action@ == meta_thread_action(self.launcher.record, seen(*recorded)),
    {
        let notice = match recorded {
            Ok(_) => None,
            Err(e) => Some(cat2("Failed to write AOT cache: ", e.message().as_str())),
        };
        let action = if self.launcher.record.is_record() {
            MetaThreadAction::StopServer { recording_failed: recorded.is_err() }
        } else {
            MetaThreadAction::Finish(Ok(()))
        };
        MetaThreadEnd { notice, action }
    }

    /// What the recording thread comes to once the server was to be stopped: a
    /// failure to stop it is dropped.
    pub fn server_stopped(stopped: Result<(), Error>) -> (r: Result<(), Error>)
        ensures
            r is Ok,
    {
        Ok(())
    }

    /// The calls that stop the server: none where there is no server, and after
    /// a recording that failed it is told that the exit is abnormal.
    pub fn stop_calls(server_is_null: bool, recording_failed: bool) -> (r: Vec<ServerCall>)
        ensures
            server_is_null ==> r@ == Seq::<ServerCall>::empty(),
            !server_is_null && recording_failed ==> r@ == seq![
                ServerCall::SetAbnormalExit,
                ServerCall::Halt,
            ],
            !server_is_null && !recording_failed ==> r@ == seq![ServerCall::Halt],
    {
        let mut calls: Vec<ServerCall> = Vec::new();
        if !server_is_null {
            if recording_failed {
                calls.push(ServerCall::SetAbnormalExit);
            }
            calls.push(ServerCall::Halt);
        }
        assert(!server_is_null && recording_failed ==> calls@ =~= seq![
            ServerCall::SetAbnormalExit,
            ServerCall::Halt,
        ]);
        assert(!server_is_null && !recording_failed ==> calls@ =~= seq![ServerCall::Halt]);
        calls
    }

    /// What is logged before a recording is ended.
    pub fn ending_message() -> (r: Message)
        ensures
            r@ == (LogKind::Info, "AOT cache recording ended. Writing AOT config file..."@),
    {
        info("AOT cache recording ended. Writing AOT config file...")
    }

    /// The bean through which a recording is ended; none is an error.
    pub fn require_bean(is_null: bool) -> (r: Result<(), Error>)
        ensures
            !is_null ==> r is Ok,
            is_null ==> seen(r) == Err::<(), ErrorView>(
                null_error("ManagementFactory"@, "getPlatformMXBean()"@),
            ),
    {
        if is_null {
            Err(returned_null("ManagementFactory", "getPlatformMXBean()"))
        } else {
            Ok(())
        }
    }

    /// What came of ending a recording: it is recorded where the virtual machine
    /// ended it and the log shows no error. A log that could not be checked
    /// counts as one without errors, and that is told.
    pub fn end_aot_recording(&self, ended: bool, log: LogRead) -> (r: EndReport)
        ensures
            r.recorded == (ended && logs_outcome(log) != Ok::<bool, ErrorView>(false)),
            r.warning is Some <==> logs_outcome(log) is Err,
            r.warning matches Some(t) ==> t@ == "Failed to check AOT logs for errors: "@
                + logs_outcome(log)->Err_0.text(),
            r.recorded ==> r.message@ == (
                LogKind::Info,
                "AOT cache config recorded successfully."@,
            ),
            !r.recorded ==> r.message@ == (
                LogKind::Error,
                with_hint(
                    "AOT cache file writing failed. Check logs at '.paper/logs/aot-record.log'."@,
                    self.launcher.compat,
                ),
            ),
    {
        let mut warning: Option<String> = None;
        let is_ok = match check_logs_for_errors(log) {
            Ok(clean) => clean,
            Err(e) => {
                warning = Some(
                    cat2("Failed to check AOT logs for errors: ", e.message().as_str()),
                );
                true
            },
        };
        let recorded = ended && is_ok;
        let message = if recorded {
            info("AOT cache config recorded successfully.")
        } else {
            Message {
                kind: LogKind::Error,
                text: add_hint(
                    "AOT cache file writing failed. Check logs at '.paper/logs/aot-record.log'.",
                    self.launcher.compat,
                ),
            }
        };
        EndReport { warning, message, recorded }
    }
}

/// What follows a look at the server. `R` is an outcome.
#[derive(Debug, PartialEq, Eq)]
pub enum AfterLook<R> {
    /// Another look.
    Again,
    /// The server has started.
    Started,
    /// Recording is over.
    Over(R),
}

/// How far recording has come. `R` is an outcome.
#[derive(Debug, PartialEq, Eq)]
pub enum RecordState<R> {
    /// The next look at the server is waited for.
    AwaitTick,
    AwaitAttached,
    /// Whether the threads of the server run is looked at.
    AwaitThreads,
    /// Whether the server has started is looked at.
    AwaitStarted,
    AwaitCleared,
    AwaitDetached(AfterLook<R>),
    AwaitEnd,
    AwaitCreation,
    AwaitCacheFile,
    AwaitMeta,
    AwaitWrite,
    Finished,
}

/// What is to be done next. `P` is a path, `M` meta data, `R` an outcome.
#[derive(Debug, PartialEq, Eq)]
pub enum RecordAction<P, M, R> {
    /// Wait for a tenth of a second.
    Wait,
    /// Attach the thread to the virtual machine.
    Attach,
    /// Look whether the threads of the server run.
    CheckThreads,
    /// Read whether the server has started.
    ReadStarted,
    /// Forget the exception of the virtual machine.
    ClearException,
    /// Detach the thread from the virtual machine.
    Detach,
    /// End the recording of the virtual machine.
    EndRecording,
    /// Create the cache from what was recorded.
    CreateCache,
    /// Look whether the file exists.
    LookFor(P),
    /// Collect the meta data of the run.
    BuildMeta,
    /// Write the meta data to the file.
    WriteMeta(M, P),
    /// Recording is over.
    Finish(R),
    /// There is nothing more to do.
    Rest,
}

/// What reading whether the server has started gave. `E` is an error.
#[derive(Debug, PartialEq, Eq)]
pub enum StartedRead<E> {
    /// The field could not be read.
    Failed(E),
    Value(bool),
    /// The value is not a truth value because of an exception.
    Exception,
    /// The value is not a truth value.
    Unusable(E),
}

/// What came of what was to be done. `E` is an error, `M` meta data.
#[derive(Debug, PartialEq, Eq)]
pub enum RecordEvent<E, M> {
    Tick,
    Attached(Result<(), E>),
    Threads(Result<bool, E>),
    Started(StartedRead<E>),
    Cleared,
    Detached,
    Ended(Result<bool, E>),
    Created(Result<(), E>),
    Found(bool),
    MetaBuilt(Result<M, E>),
    MetaWritten(Result<(), E>),
}

/// A state of a recording.
pub type RecordingState = RecordState<Result<(), Error>>;

/// What a state is, over sequences.
pub type RecordStateView = RecordState<Result<(), ErrorView>>;

impl View for RecordState<Result<(), Error>> {
    type V = RecordStateView;

    open spec fn view(&self) -> RecordStateView {
        match *self {
            RecordState::AwaitTick => RecordState::AwaitTick,
            RecordState::AwaitAttached => RecordState::AwaitAttached,
            RecordState::AwaitThreads => RecordState::AwaitThreads,
            RecordState::AwaitStarted => RecordState::AwaitStarted,
            RecordState::AwaitCleared => RecordState::AwaitCleared,
            RecordState::AwaitDetached(after) => RecordState::AwaitDetached(
                match after {
                    AfterLook::Again => AfterLook::Again,
                    AfterLook::Started => AfterLook::Started,
                    AfterLook::Over(r) => AfterLook::Over(seen(r)),
                },
            ),
            RecordState::AwaitEnd => RecordState::AwaitEnd,
            RecordState::AwaitCreation => RecordState::AwaitCreation,
            RecordState::AwaitCacheFile => RecordState::AwaitCacheFile,
            RecordState::AwaitMeta => RecordState::AwaitMeta,
            RecordState::AwaitWrite => RecordState::AwaitWrite,
            RecordState::Finished => RecordState::Finished,
        }
    }
}

/// An event of a recording.
pub type RecordReply = RecordEvent<Error, AotMeta>;

/// What an event is, over sequences.
pub type RecordReplyView = RecordEvent<ErrorView, MetaView>;

/// What an action is, over sequences.
pub type RecordActionView = RecordAction<PathView, MetaView, Result<(), ErrorView>>;

/// The view of an event.
pub open spec fn record_reply_view(e: RecordReply) -> RecordReplyView {
    match e {
        RecordEvent::Tick => RecordEvent::Tick,
        RecordEvent::Attached(r) => RecordEvent::Attached(seen(r)),
        RecordEvent::Cleared => RecordEvent::Cleared,
        RecordEvent::Detached => RecordEvent::Detached,
        RecordEvent::Threads(r) => RecordEvent::Threads(seen(r)),
        RecordEvent::Started(s) => RecordEvent::Started(
            match s {
                StartedRead::Failed(e) => StartedRead::Failed(e@),
                StartedRead::Value(b) => StartedRead::Value(b),
                StartedRead::Exception => StartedRead::Exception,
                StartedRead::Unusable(e) => StartedRead::Unusable(e@),
            },
        ),
        RecordEvent::Ended(r) => RecordEvent::Ended(seen(r)),
        RecordEvent::Created(r) => RecordEvent::Created(seen(r)),
        RecordEvent::Found(b) => RecordEvent::Found(b),
        RecordEvent::MetaBuilt(r) => RecordEvent::MetaBuilt(
            match r {
                Ok(m) => Ok(m@),
                Err(e) => Err(e@),
            },
        ),
        RecordEvent::MetaWritten(r) => RecordEvent::MetaWritten(seen(r)),
    }
}

impl View for RecordAction<FilePath, AotMeta, Result<(), Error>> {
    type V = RecordActionView;

    open spec fn view(&self) -> RecordActionView {
        match *self {
            RecordAction::Wait => RecordAction::Wait,
            RecordAction::Attach => RecordAction::Attach,
            RecordAction::CheckThreads => RecordAction::CheckThreads,
            RecordAction::ReadStarted => RecordAction::ReadStarted,
            RecordAction::ClearException => RecordAction::ClearException,
            RecordAction::Detach => RecordAction::Detach,
            RecordAction::EndRecording => RecordAction::EndRecording,
            RecordAction::CreateCache => RecordAction::CreateCache,
            RecordAction::LookFor(p) => RecordAction::LookFor(p@),
            RecordAction::BuildMeta => RecordAction::BuildMeta,
            RecordAction::WriteMeta(m, p) => RecordAction::WriteMeta(m@, p@),
            RecordAction::Finish(r) => RecordAction::Finish(seen(r)),
            RecordAction::Rest => RecordAction::Rest,
        }
    }
}

/// A step of a recording: the next state, what is logged, and what is to be
/// done then.
pub struct RecordStepView {
    pub state: RecordStateView,
    pub messages: Seq<(LogKind, Seq<char>)>,
    pub action: RecordActionView,
}

/// A step of a recording.
#[derive(Debug, PartialEq, Eq)]
pub struct RecordStep {
    pub state: RecordingState,
    pub messages: Vec<Message>,
    pub action: RecordAction<FilePath, AotMeta, Result<(), Error>>,
}

impl View for RecordStep {
    type V = RecordStepView;

    open spec fn view(&self) -> RecordStepView {
        RecordStepView {
            state: self.state@,
            messages: self.messages.deep_view(),
            action: self.action@,
        }
    }
}

/// The error that a recording comes to on an event, where the state or the event
/// holds one.
pub open spec fn record_error(s: RecordingState, e: RecordReply) -> Option<Error> {
    match (s, e) {
        (RecordState::AwaitDetached(AfterLook::Over(r)), RecordEvent::Detached) => error_in(r),
        (_, RecordEvent::Attached(r)) => error_in(r),
        (_, RecordEvent::Threads(r)) => error_in(r),
        (_, RecordEvent::Started(StartedRead::Failed(e))) => Some(e),
        (_, RecordEvent::Started(StartedRead::Unusable(e))) => Some(e),
        (_, RecordEvent::Ended(r)) => error_in(r),
        (_, RecordEvent::Created(r)) => error_in(r),
        (_, RecordEvent::MetaBuilt(r)) => error_in(r),
        (_, RecordEvent::MetaWritten(r)) => error_in(r),
        _ => None,
    }
}

/// What a recording comes to by a step, once that is settled.
pub open spec fn record_outcome(step: RecordStep) -> Option<Result<(), Error>> {
    match (step.state, step.action) {
        (_, RecordAction::Finish(r)) => Some(r),
        (RecordState::AwaitDetached(AfterLook::Over(r)), RecordAction::Detach) => Some(r),
        _ => None,
    }
}

/// A step without messages.
pub open spec fn record_on(state: RecordStateView, action: RecordActionView) -> RecordStepView {
    RecordStepView { state, messages: Seq::empty(), action }
}

/// The step to the end.
pub open spec fn record_over(r: Result<(), ErrorView>) -> RecordStepView {
    record_on(RecordState::Finished, RecordAction::Finish(r))
}

/// The step off the virtual machine, after a look at the server.
pub open spec fn record_leave(after: AfterLook<Result<(), ErrorView>>) -> RecordStepView {
    record_on(RecordState::AwaitDetached(after), RecordAction::Detach)
}

/// The step to the end in an error, with what was being done.
pub open spec fn record_failed(doing: Seq<char>, e: ErrorView) -> RecordStepView {
    record_over(Err(wrapped_error(doing, e)))
}

/// The step that a recording takes on an event. `cache` is the file of the
/// cache, `meta` that of its meta data. What is not awaited changes nothing.
pub open spec fn record_step(
    cache: PathView,
    meta: PathView,
    s: RecordStateView,
    e: RecordReplyView,
) -> RecordStepView {
    match (s, e) {
        (RecordState::AwaitTick, RecordEvent::Tick) => record_on(
            RecordState::AwaitAttached,
            RecordAction::Attach,
        ),
        (RecordState::AwaitAttached, RecordEvent::Attached(r)) => match r {
            Ok(_) => record_on(RecordState::AwaitThreads, RecordAction::CheckThreads),
            Err(e) => record_over(Err(e)),
        },
        (RecordState::AwaitThreads, RecordEvent::Threads(r)) => match r {
            Ok(true) => record_on(RecordState::AwaitStarted, RecordAction::ReadStarted),
            Ok(false) => record_leave(AfterLook::Over(Ok(()))),
            Err(e) => record_leave(AfterLook::Over(Err(e))),
        },
        (RecordState::AwaitStarted, RecordEvent::Started(r)) => match r {
            StartedRead::Value(true) => record_leave(AfterLook::Started),
            StartedRead::Value(false) => record_leave(AfterLook::Again),
            StartedRead::Exception => record_on(
                RecordState::AwaitCleared,
                RecordAction::ClearException,
            ),
            StartedRead::Failed(e) => record_leave(AfterLook::Over(Err(e))),
            StartedRead::Unusable(e) => record_leave(AfterLook::Over(Err(e))),
        },
        (RecordState::AwaitCleared, RecordEvent::Cleared) => record_leave(AfterLook::Again),
        (RecordState::AwaitDetached(after), RecordEvent::Detached) => match after {
            AfterLook::Again => record_on(RecordState::AwaitTick, RecordAction::Wait),
            AfterLook::Started => record_on(RecordState::AwaitEnd, RecordAction::EndRecording),
            AfterLook::Over(r) => record_over(r),
        },
        (RecordState::AwaitEnd, RecordEvent::Ended(r)) => match r {
            Ok(true) => record_on(RecordState::AwaitCreation, RecordAction::CreateCache),
            Ok(false) => record_over(Ok(())),
            Err(e) => record_failed("Failed to end AOT cache recording"@, e),
        },
        (RecordState::AwaitCreation, RecordEvent::Created(r)) => match r {
            Ok(_) => RecordStepView {
                state: RecordState::AwaitCacheFile,
                messages: seq![
                    (
                        LogKind::Info,
                        "AOT cache file written successfully, writing meta file..."@,
                    ),
                ],
                action: RecordAction::LookFor(cache),
            },
            Err(e) => record_failed("Failed to create AOT cache"@, e),
        },
        (RecordState::AwaitCacheFile, RecordEvent::Found(found)) => if found {
            record_on(RecordState::AwaitMeta, RecordAction::BuildMeta)
        } else {
            record_over(Err(generic_error("No AOT cache file found after recording!"@)))
        },
        (RecordState::AwaitMeta, RecordEvent::MetaBuilt(r)) => match r {
            Ok(m) => record_on(RecordState::AwaitWrite, RecordAction::WriteMeta(m, meta)),
            Err(e) => record_failed("Failed to generate AOT cache meta"@, e),
        },
        (RecordState::AwaitWrite, RecordEvent::MetaWritten(r)) => match r {
            Ok(_) => RecordStepView {
                state: RecordState::Finished,
                messages: seq![
                    (LogKind::Info, "AOT cache meta written successfully."@),
                    (LogKind::Info, "AOT cache recording complete!"@),
                ],
                action: RecordAction::Finish(Ok(())),
            },
            Err(e) => record_failed("Failed to write AOT cache meta"@, e),
        },
        _ => record_on(s, RecordAction::Rest),
    }
}

fn proceed(state: RecordingState, action: RecordAction<FilePath, AotMeta, Result<(), Error>>) -> (r:
    RecordStep)
    ensures
        r@ == record_on(state@, action@),
        r.state == state,
        r.action == action,
{
    let messages: Vec<Message> = Vec::new();
    assert(messages.deep_view() =~= Seq::empty());
    RecordStep { state, messages, action }
}

fn finish(out: Result<(), Error>) -> (r: RecordStep)
    ensures
        r@ == record_over(seen(out)),
        record_outcome(r) == Some(out),
{
    proceed(RecordState::Finished, RecordAction::Finish(out))
}

fn leave(after: AfterLook<Result<(), Error>>) -> (r: RecordStep)
    ensures
        r@ == record_on(RecordState::AwaitDetached(after)@, RecordAction::Detach),
        r.state == RecordState::AwaitDetached(after),
{
    proceed(RecordState::AwaitDetached(after), RecordAction::Detach)
}

impl<'a> AotRecorder<'a> {
    /// Begins to record: the server is waited for.
    pub fn record_aot_cache(&self) -> (r: RecordStep)
        ensures
            r@ == record_on(RecordState::AwaitTick, RecordAction::Wait),
    {
        proceed(RecordState::AwaitTick, RecordAction::Wait)
    }

    /// Goes on with what came of the last action.
    pub fn record_next(&self, state: RecordingState, event: RecordReply) -> (r: RecordStep)
        ensures
            r@ == record_step(
                self.launcher.aot_files.cache@,
                meta_file(self.launcher.repo_dir@),
                state@,
                record_reply_view(event),
            ),
            keeps_trace(record_error(state, event), record_outcome(r)),
    {
        match (state, event) {
            (RecordState::AwaitTick, RecordEvent::Tick) => proceed(
                RecordState::AwaitAttached,
                RecordAction::Attach,
            ),
            (RecordState::AwaitAttached, RecordEvent::Attached(attached)) => match attached {
                Ok(()) => proceed(RecordState::AwaitThreads, RecordAction::CheckThreads),
                Err(e) => finish(Err(e)),
            },
            (RecordState::AwaitThreads, RecordEvent::Threads(running)) => match running {
                Ok(running) => {
                    if running {
                        proceed(RecordState::AwaitStarted, RecordAction::ReadStarted)
                    } else {
                        leave(AfterLook::Over(Ok(())))
                    }
                },
                Err(e) => leave(AfterLook::Over(Err(e))),
            },
            (RecordState::AwaitStarted, RecordEvent::Started(read)) => match read {
                StartedRead::Value(started) => {
                    if started {
                        leave(AfterLook::Started)
                    } else {
                        leave(AfterLook::Again)
                    }
                },
                StartedRead::Exception => proceed(
                    RecordState::AwaitCleared,
                    RecordAction::ClearException,
                ),
                StartedRead::Failed(e) => leave(AfterLook::Over(Err(e))),
                StartedRead::Unusable(e) => leave(AfterLook::Over(Err(e))),
            },
            (RecordState::AwaitCleared, RecordEvent::Cleared) => leave(AfterLook::Again),
            (RecordState::AwaitDetached(after), RecordEvent::Detached) => match after {
                AfterLook::Again => proceed(RecordState::AwaitTick, RecordAction::Wait),
                AfterLook::Started => proceed(RecordState::AwaitEnd, RecordAction::EndRecording),
                AfterLook::Over(r) => finish(r),
            },
            (RecordState::AwaitEnd, RecordEvent::Ended(ended)) => match ended.err_ctx(
                "Failed to end AOT cache recording",
            ) {
                Ok(ended) => {
                    if ended {
                        proceed(RecordState::AwaitCreation, RecordAction::CreateCache)
                    } else {
                        finish(Ok(()))
                    }
                },
                Err(e) => finish(Err(e)),
            },
            (RecordState::AwaitCreation, RecordEvent::Created(created)) => match created.err_ctx(
                "Failed to create AOT cache",
            ) {
                Ok(()) => {
                    let mut messages: Vec<Message> = Vec::new();
                    messages.push(
                        info("AOT cache file written successfully, writing meta file..."),
                    );
                    let step = RecordStep {
                        state: RecordState::AwaitCacheFile,
                        messages,
                        action: RecordAction::LookFor(self.launcher.aot_files.cache.copy()),
                    };
                    assert(step@.messages =~= seq![
                        (
                            LogKind::Info,
                            "AOT cache file written successfully, writing meta file..."@,
                        ),
                    ]);
                    step
                },
                Err(e) => finish(Err(e)),
            },
            (RecordState::AwaitCacheFile, RecordEvent::Found(found)) => {
                if found {
                    proceed(RecordState::AwaitMeta, RecordAction::BuildMeta)
                } else {
                    finish(Err(Error::generic("No AOT cache file found after recording!")))
                }
            },
            (RecordState::AwaitMeta, RecordEvent::MetaBuilt(built)) => match built.err_ctx(
                "Failed to generate AOT cache meta",
            ) {
                Ok(meta) => {
                    let file = AotMeta::aot_meta_file(&self.launcher.repo_dir);
                    proceed(RecordState::AwaitWrite, RecordAction::WriteMeta(meta, file))
                },
                Err(e) => finish(Err(e)),
            },
            (RecordState::AwaitWrite, RecordEvent::MetaWritten(written)) => match written.err_ctx(
                "Failed to write AOT cache meta",
            ) {
                Ok(()) => {
                    let mut messages: Vec<Message> = Vec::new();
                    messages.push(info("AOT cache meta written successfully."));
                    messages.push(info("AOT cache recording complete!"));
                    let step = RecordStep {
                        state: RecordState::Finished,
                        messages,
                        action: RecordAction::Finish(Ok(())),
                    };
                    assert(step@.messages =~= seq![
                        (LogKind::Info, "AOT cache meta written successfully."@),
                        (LogKind::Info, "AOT cache recording complete!"@),
                    ]);
                    step
                },
                Err(e) => finish(Err(e)),
            },
            (s, _) => proceed(s, RecordAction::Rest),
        }
    }
}

/// Where a recording stands after these events.
pub open spec fn record_trace(cache: PathView, meta: PathView, events: Seq<RecordReplyView>) -> RecordStepView
    decreases events.len(),
{
    if events.len() == 0 {
        record_on(RecordState::AwaitTick, RecordAction::Wait)
    } else {
        record_step(
            cache,
            meta,
            record_trace(cache, meta, events.drop_last()).state,
            events.last(),
        )
    }
}

/// How many of the things that a recording needs are done in a state.
pub open spec fn record_stage(s: RecordStateView) -> u8 {
    match s {
        RecordState::AwaitStarted | RecordState::AwaitCleared => 1,
        RecordState::AwaitDetached(AfterLook::Started) | RecordState::AwaitEnd => 2,
        RecordState::AwaitCreation => 3,
        RecordState::AwaitCacheFile => 4,
        RecordState::AwaitMeta => 5,
        RecordState::AwaitWrite => 6,
        _ => 0,
    }
}

/// The event that completes a stage.
pub open spec fn completes(e: RecordReplyView, stage: u8) -> bool {
    match stage {
        1 => e == RecordEvent::<ErrorView, MetaView>::Threads(Ok(true)),
        2 => e == RecordEvent::<ErrorView, MetaView>::Started(StartedRead::Value(true)),
        3 => e == RecordEvent::<ErrorView, MetaView>::Ended(Ok(true)),
        4 => e matches RecordEvent::Created(Ok(_)),
        5 => e == RecordEvent::<ErrorView, MetaView>::Found(true),
        6 => e matches RecordEvent::MetaBuilt(Ok(_)),
        _ => false,
    }
}

/// A stage was completed by one of the events.
pub open spec fn completed(events: Seq<RecordReplyView>, stage: u8) -> bool {
    exists|i: int| 0 <= i < events.len() && completes(#[trigger] events[i], stage)
}

/// A recording is in a state only after all stages up to it were completed: the
/// server ran, it had started, the recording was ended, the cache was created,
/// its file was found, and the meta data was collected.
pub proof fn law_record_in_order(
    cache: PathView,
    meta: PathView,
    events: Seq<RecordReplyView>,
    stage: u8,
)
    requires
        1 <= stage <= record_stage(record_trace(cache, meta, events).state),
    ensures
        completed(events, stage),
    decreases events.len(),
{
    let before = events.drop_last();
    let s = record_trace(cache, meta, before).state;
    let e = events.last();
    assert(events[events.len() - 1] == e);
    if stage <= record_stage(s) {
        law_record_in_order(cache, meta, before, stage);
        let i = choose|i: int| 0 <= i < before.len() && completes(#[trigger] before[i], stage);
        assert(completes(events[i], stage));
    } else {
        assert(completes(e, stage));
    }
}

/// Meta data is written only to its own file, only the meta data that was
/// collected just before, and only after the cache was created and found.
pub proof fn law_meta_is_written_last(
    cache: PathView,
    meta: PathView,
    events: Seq<RecordReplyView>,
)
    ensures
        record_trace(cache, meta, events).action matches RecordAction::WriteMeta(m, p) ==> {
            &&& p == meta
            &&& events.len() > 0
            &&& events.last() == RecordEvent::<ErrorView, MetaView>::MetaBuilt(Ok(m))
            &&& completed(events, 4)
            &&& completed(events, 5)
        },
{
    let now = record_trace(cache, meta, events);
    if now.action is WriteMeta {
        assert(now.state is AwaitWrite);
        law_record_in_order(cache, meta, events, 4);
        law_record_in_order(cache, meta, events, 5);
    }
}

proof fn lemma_server_gone(cache: PathView, meta: PathView, events: Seq<RecordReplyView>) -> (at: int)
    requires
        record_trace(cache, meta, events).state matches RecordState::AwaitDetached(
            AfterLook::Over(Ok(_)),
        ),
    ensures
        0 <= at < events.len(),
        events[at] == RecordEvent::<ErrorView, MetaView>::Threads(Ok(false)),
    decreases events.len(),
{
    let before = events.drop_last();
    let s = record_trace(cache, meta, before).state;
    if s matches RecordState::AwaitDetached(AfterLook::Over(Ok(_))) {
        let at = lemma_server_gone(cache, meta, before);
        assert(events[at] == before[at]);
        at
    } else {
        events.len() - 1
    }
}

/// A recording ends well only where the server is gone, where the virtual
/// machine recorded nothing, or where the meta data was written. Nothing moves
/// it after its end.
pub proof fn law_record_end(cache: PathView, meta: PathView, events: Seq<RecordReplyView>)
    ensures
        record_trace(cache, meta, events).action matches RecordAction::Finish(Ok(_)) ==> {
            &&& events.len() > 0
            &&& {
                ||| events.last() == RecordEvent::<ErrorView, MetaView>::Detached
                    && events.contains(RecordEvent::<ErrorView, MetaView>::Threads(Ok(false)))
                ||| events.last() == RecordEvent::<ErrorView, MetaView>::Ended(Ok(false))
                ||| events.last() matches RecordEvent::MetaWritten(Ok(_))
            }
        },
        forall|e: RecordReplyView| #[trigger]
            record_step(cache, meta, RecordState::Finished, e) == record_on(
                RecordState::Finished,
                RecordAction::Rest,
            ),
{
    if record_trace(cache, meta, events).action matches RecordAction::Finish(Ok(_)) {
        let before = events.drop_last();
        let s = record_trace(cache, meta, before).state;
        if s matches RecordState::AwaitDetached(AfterLook::Over(Ok(_))) {
            let at = lemma_server_gone(cache, meta, before);
            assert(events[at] == before[at]);
        }
    }
}

/// Whether the thread is attached to the virtual machine after these events,
/// where it was not before: it is from when attaching succeeded to when it was
/// detached. What was not asked for changes nothing.
pub open spec fn is_attached(cache: PathView, meta: PathView, events: Seq<RecordReplyView>) -> bool
    decreases events.len(),
{
    if events.len() == 0 {
        false
    } else {
        let before = events.drop_last();
        match (record_trace(cache, meta, before).state, events.last()) {
            (RecordState::AwaitAttached, RecordEvent::Attached(Ok(_))) => true,
            (RecordState::AwaitDetached(_), RecordEvent::Detached) => false,
            _ => is_attached(cache, meta, before),
        }
    }
}

/// The thread is attached exactly while it looks at the server. It is not while
/// it waits, so that a server that stops early can be taken down without it, nor
/// while a recording is ended, a cache created or meta data written, nor once
/// recording is over.
pub proof fn law_waits_detached(cache: PathView, meta: PathView, events: Seq<RecordReplyView>)
    ensures
        ({
            let now = record_trace(cache, meta, events);
            &&& is_attached(cache, meta, events) <==> (now.state is AwaitThreads
                || now.state is AwaitStarted || now.state is AwaitCleared
                || now.state is AwaitDetached)
            &&& now.action is Wait || now.action is EndRecording || now.action is CreateCache
                || now.action is WriteMeta || now.action is Finish ==> !is_attached(
                cache,
                meta,
                events,
            )
            &&& now.action is CheckThreads || now.action is ReadStarted || now.action
                is ClearException || now.action is Detach ==> is_attached(cache, meta, events)
        }),
    decreases events.len(),
{
    if events.len() > 0 {
        law_waits_detached(cache, meta, events.drop_last());
    }
}

/// The option that may help is named exactly where it is not used yet, after the
/// failure and on a line of its own.
pub proof fn law_hint(failure: Seq<char>)
    ensures
        with_hint(failure, true) == failure,
        with_hint(failure, false) == failure + "\nYou can try using '--aot-compat'."@,
{
}

/// A run for recording alone stops the server, and tells it that the exit is
/// abnormal exactly where recording failed.
pub proof fn law_server_is_stopped(recorded: Result<(), ErrorView>)
    ensures
        meta_thread_action(RecordMode::OnlyRecord, recorded) == (MetaThreadAction::<
            Result<(), ErrorView>,
        >::StopServer { recording_failed: recorded is Err }),
{
}

/// A recording that goes well: each tick the thread attaches and looks whether
/// the server runs and has started; once it has, the thread detaches, ends the
/// recording, creates the cache, looks for the file of the cache, collects the
/// meta data, writes just that to the file of the meta data, and is done.
pub proof fn law_recording_goes_well(cache: PathView, meta: PathView, m: MetaView)
    ensures
        ({
            let step = |s: RecordStateView, e: RecordReplyView| record_step(cache, meta, s, e);
            let attach = step(RecordState::AwaitTick, RecordEvent::Tick);
            let look = step(attach.state, RecordEvent::Attached(Ok(())));
            let read = step(look.state, RecordEvent::Threads(Ok(true)));
            let leave = step(read.state, RecordEvent::Started(StartedRead::Value(true)));
            let end = step(leave.state, RecordEvent::Detached);
            let create = step(end.state, RecordEvent::Ended(Ok(true)));
            let find = step(create.state, RecordEvent::Created(Ok(())));
            let build = step(find.state, RecordEvent::Found(true));
            let write = step(build.state, RecordEvent::MetaBuilt(Ok(m)));
            let done = step(write.state, RecordEvent::MetaWritten(Ok(())));
            &&& attach.action is Attach
            &&& look.action is CheckThreads
            &&& read.action is ReadStarted
            &&& leave.action is Detach
            &&& end.action is EndRecording
            &&& create.action is CreateCache
            &&& find.action == RecordAction::<PathView, MetaView, Result<(), ErrorView>>::LookFor(
                cache,
            )
            &&& build.action is BuildMeta
            &&& write.action == RecordAction::<PathView, MetaView, Result<(), ErrorView>>::WriteMeta(
                m,
                meta,
            )
            &&& done.action matches RecordAction::Finish(Ok(_))
            &&& find.messages == seq![
                (LogKind::Info, "AOT cache file written successfully, writing meta file..."@),
            ]
            &&& done.messages == seq![
                (LogKind::Info, "AOT cache meta written successfully."@),
                (LogKind::Info, "AOT cache recording complete!"@),
            ]
        }),
{
}

/// A server that has not started yet is looked at again: the thread detaches and
/// waits. An exception that kept it from telling is forgotten before that.
pub proof fn law_recording_looks_again(cache: PathView, meta: PathView)
    ensures
        ({
            let step = |s: RecordStateView, e: RecordReplyView| record_step(cache, meta, s, e);
            let not_yet = step(
                RecordState::AwaitStarted,
                RecordEvent::Started(StartedRead::Value(false)),
            );
            let exception = step(
                RecordState::AwaitStarted,
                RecordEvent::Started(StartedRead::Exception),
            );
            let cleared = step(exception.state, RecordEvent::Cleared);
            &&& not_yet.action is Detach
            &&& exception.action is ClearException
            &&& cleared.action is Detach
            &&& step(not_yet.state, RecordEvent::Detached).action is Wait
            &&& step(not_yet.state, RecordEvent::Detached).state is AwaitTick
            &&& step(cleared.state, RecordEvent::Detached).action is Wait
            &&& step(cleared.state, RecordEvent::Detached).state is AwaitTick
        }),
{
}

/// A recording of a server that is gone ends well, after the thread has detached,
/// and so does one that the virtual machine did not end with a recording.
pub proof fn law_nothing_to_record(cache: PathView, meta: PathView)
    ensures
        ({
            let gone = record_step(
                cache,
                meta,
                RecordState::AwaitThreads,
                RecordEvent::Threads(Ok(false)),
            );
            &&& gone.action is Detach
            &&& record_step(cache, meta, gone.state, RecordEvent::Detached).action matches RecordAction::Finish(
                Ok(_),
            )
        }),
        record_step(cache, meta, RecordState::AwaitEnd, RecordEvent::Ended(Ok(false))).action matches RecordAction::Finish(
            Ok(_),
        ),
{
}

/// The first thing that fails ends a recording. While the thread is attached it
/// detaches first, and the error is what it was; after that the text of the error
/// says what was being done, and ends in the reason.
pub proof fn law_recording_fails(cache: PathView, meta: PathView, e: ErrorView)
    ensures
        ({
            let step = |s: RecordStateView, r: RecordReplyView| record_step(cache, meta, s, r);
            let threads = step(RecordState::AwaitThreads, RecordEvent::Threads(Err(e)));
            let failed = step(
                RecordState::AwaitStarted,
                RecordEvent::Started(StartedRead::Failed(e)),
            );
            let unusable = step(
                RecordState::AwaitStarted,
                RecordEvent::Started(StartedRead::Unusable(e)),
            );
            &&& step(RecordState::AwaitAttached, RecordEvent::Attached(Err(e))).action
                == RecordAction::<PathView, MetaView, Result<(), ErrorView>>::Finish(Err(e))
            &&& threads.action is Detach
            &&& step(threads.state, RecordEvent::Detached).action == RecordAction::<
                PathView,
                MetaView,
                Result<(), ErrorView>,
            >::Finish(Err(e))
            &&& failed.action is Detach
            &&& step(failed.state, RecordEvent::Detached).action == RecordAction::<
                PathView,
                MetaView,
                Result<(), ErrorView>,
            >::Finish(Err(e))
            &&& unusable.action is Detach
            &&& step(unusable.state, RecordEvent::Detached).action == RecordAction::<
                PathView,
                MetaView,
                Result<(), ErrorView>,
            >::Finish(Err(e))
            &&& step(RecordState::AwaitEnd, RecordEvent::Ended(Err(e))).action matches RecordAction::Finish(
                Err(out),
            ) && out.text() == "Failed to end AOT cache recording"@ + "\nCaused by: "@ + e.text()
            &&& step(RecordState::AwaitCreation, RecordEvent::Created(Err(e))).action matches RecordAction::Finish(
                Err(out),
            ) && out.text() == "Failed to create AOT cache"@ + "\nCaused by: "@ + e.text()
            &&& step(RecordState::AwaitCacheFile, RecordEvent::Found(false)).action matches RecordAction::Finish(
                Err(out),
            ) && out.text() == "No AOT cache file found after recording!"@
            &&& step(RecordState::AwaitMeta, RecordEvent::MetaBuilt(Err(e))).action matches RecordAction::Finish(
                Err(out),
            ) && out.text() == "Failed to generate AOT cache meta"@ + "\nCaused by: "@ + e.text()
            &&& step(RecordState::AwaitWrite, RecordEvent::MetaWritten(Err(e))).action matches RecordAction::Finish(
                Err(out),
            ) && out.text() == "Failed to write AOT cache meta"@ + "\nCaused by: "@ + e.text()
        }),
{
    reveal_with_fuel(ErrorView::text, 2);
}

/// A recording logs something only when the cache was created and when its meta
/// data was written.
pub proof fn law_recording_messages(
    cache: PathView,
    meta: PathView,
    s: RecordStateView,
    e: RecordReplyView,
)
    ensures
        record_step(cache, meta, s, e).messages.len() > 0 ==> {
            ||| s is AwaitCreation && (e matches RecordEvent::Created(Ok(_)))
            ||| s is AwaitWrite && (e matches RecordEvent::MetaWritten(Ok(_)))
        },
{
}

/// The view of an event of a recording is the same event over views.
pub proof fn law_record_reply_view(
    u: Result<(), Error>,
    b: Result<bool, Error>,
    found: bool,
    m: AotMeta,
    e: Error,
)
    ensures
        record_reply_view(RecordEvent::Tick) is Tick,
        record_reply_view(RecordEvent::Cleared) is Cleared,
        record_reply_view(RecordEvent::Detached) is Detached,
        record_reply_view(RecordEvent::Attached(u)) == RecordEvent::<ErrorView, MetaView>::Attached(
            seen(u),
        ),
        record_reply_view(RecordEvent::Threads(b)) == RecordEvent::<ErrorView, MetaView>::Threads(
            seen(b),
        ),
        record_reply_view(RecordEvent::Ended(b)) == RecordEvent::<ErrorView, MetaView>::Ended(
            seen(b),
        ),
        record_reply_view(RecordEvent::Created(u)) == RecordEvent::<ErrorView, MetaView>::Created(
            seen(u),
        ),
        record_reply_view(RecordEvent::Found(found)) == RecordEvent::<ErrorView, MetaView>::Found(
            found,
        ),
        record_reply_view(RecordEvent::MetaBuilt(Ok(m))) == RecordEvent::<
            ErrorView,
            MetaView,
        >::MetaBuilt(Ok(m@)),
        record_reply_view(RecordEvent::MetaBuilt(Err(e))) == RecordEvent::<
            ErrorView,
            MetaView,
        >::MetaBuilt(Err(e@)),
        record_reply_view(RecordEvent::MetaWritten(u)) == RecordEvent::<
            ErrorView,
            MetaView,
        >::MetaWritten(seen(u)),
        record_reply_view(RecordEvent::Started(StartedRead::Value(found))) == RecordEvent::<
            ErrorView,
            MetaView,
        >::Started(StartedRead::Value(found)),
        record_reply_view(RecordEvent::Started(StartedRead::Exception)) == RecordEvent::<
            ErrorView,
            MetaView,
        >::Started(StartedRead::Exception),
        record_reply_view(RecordEvent::Started(StartedRead::Failed(e))) == RecordEvent::<
            ErrorView,
            MetaView,
        >::Started(StartedRead::Failed(e@)),
        record_reply_view(RecordEvent::Started(StartedRead::Unusable(e))) == RecordEvent::<
            ErrorView,
            MetaView,
        >::Started(StartedRead::Unusable(e@)),
{
}

/// The error that an event of a recording brings is the one in it, or the one
/// that the thread detached with; what a recording comes to is what it ends with,
/// and before that what it detaches with.
pub proof fn law_record_error(e: Error, s: RecordingState, step: RecordStep, r: Result<(), Error>)
    ensures
        record_error(s, RecordEvent::Attached(Err(e))) == Some(e),
        record_error(s, RecordEvent::Threads(Err(e))) == Some(e),
        record_error(s, RecordEvent::Started(StartedRead::Failed(e))) == Some(e),
        record_error(s, RecordEvent::Started(StartedRead::Unusable(e))) == Some(e),
        record_error(s, RecordEvent::Ended(Err(e))) == Some(e),
        record_error(s, RecordEvent::Created(Err(e))) == Some(e),
        record_error(s, RecordEvent::MetaBuilt(Err(e))) == Some(e),
        record_error(s, RecordEvent::MetaWritten(Err(e))) == Some(e),
        record_error(RecordState::AwaitDetached(AfterLook::Over(Err(e))), RecordEvent::Detached)
            == Some(e),
        step.action == RecordAction::<FilePath, AotMeta, Result<(), Error>>::Finish(r)
            ==> record_outcome(step) == Some(r),
        step.action is Detach && step.state == RecordState::AwaitDetached(AfterLook::Over(r))
            ==> record_outcome(step) == Some(r),
{
}

/// An event that a recording does not wait for changes nothing.
pub proof fn law_recording_ignores_the_unasked(
    cache: PathView,
    meta: PathView,
    s: RecordStateView,
    e: RecordReplyView,
)
    requires
        !(s is AwaitTick && e is Tick),
        !(s is AwaitAttached && e is Attached),
        !(s is AwaitThreads && e is Threads),
        !(s is AwaitStarted && e is Started),
        !(s is AwaitCleared && e is Cleared),
        !(s is AwaitDetached && e is Detached),
        !(s is AwaitEnd && e is Ended),
        !(s is AwaitCreation && e is Created),
        !(s is AwaitCacheFile && e is Found),
        !(s is AwaitMeta && e is MetaBuilt),
        !(s is AwaitWrite && e is MetaWritten),
    ensures
        record_step(cache, meta, s, e).state == s,
        record_step(cache, meta, s, e).messages.len() == 0,
        record_step(cache, meta, s, e).action is Rest,
{
}

/// The view of a step of a recording is its state, what is logged, and its action
/// over views.
pub proof fn law_record_step_view(step: RecordStep, p: FilePath, m: AotMeta, r: Result<(), Error>)
    ensures
        step@.state == step.state@,
        step@.action == step.action@,
        step@.messages.len() == step.messages@.len(),
        forall|i: int|
            0 <= i < step.messages@.len() ==> #[trigger] step@.messages[i] == (
                step.messages@[i].kind,
                step.messages@[i].text@,
            ),
        RecordAction::<FilePath, AotMeta, Result<(), Error>>::LookFor(p)@ == RecordAction::<
            PathView,
            MetaView,
            Result<(), ErrorView>,
        >::LookFor(p@),
        RecordAction::<FilePath, AotMeta, Result<(), Error>>::WriteMeta(m, p)@ == RecordAction::<
            PathView,
            MetaView,
            Result<(), ErrorView>,
        >::WriteMeta(m@, p@),
        RecordAction::<FilePath, AotMeta, Result<(), Error>>::Finish(r)@ == RecordAction::<
            PathView,
            MetaView,
            Result<(), ErrorView>,
        >::Finish(seen(r)),
        RecordAction::<FilePath, AotMeta, Result<(), Error>>::Wait@ is Wait,
        RecordAction::<FilePath, AotMeta, Result<(), Error>>::Attach@ is Attach,
        RecordAction::<FilePath, AotMeta, Result<(), Error>>::CheckThreads@ is CheckThreads,
        RecordAction::<FilePath, AotMeta, Result<(), Error>>::ReadStarted@ is ReadStarted,
        RecordAction::<FilePath, AotMeta, Result<(), Error>>::ClearException@ is ClearException,
        RecordAction::<FilePath, AotMeta, Result<(), Error>>::Detach@ is Detach,
        RecordAction::<FilePath, AotMeta, Result<(), Error>>::EndRecording@ is EndRecording,
        RecordAction::<FilePath, AotMeta, Result<(), Error>>::CreateCache@ is CreateCache,
        RecordAction::<FilePath, AotMeta, Result<(), Error>>::BuildMeta@ is BuildMeta,
        RecordAction::<FilePath, AotMeta, Result<(), Error>>::Rest@ is Rest,
{
}

/// The view of a state of a recording is the same state over views.
pub proof fn law_record_state_view(r: Result<(), Error>)
    ensures
        RecordState::<Result<(), Error>>::AwaitTick@ is AwaitTick,
        RecordState::<Result<(), Error>>::AwaitAttached@ is AwaitAttached,
        RecordState::<Result<(), Error>>::AwaitThreads@ is AwaitThreads,
        RecordState::<Result<(), Error>>::AwaitStarted@ is AwaitStarted,
        RecordState::<Result<(), Error>>::AwaitCleared@ is AwaitCleared,
        RecordState::<Result<(), Error>>::AwaitDetached(AfterLook::Again)@ matches RecordState::AwaitDetached(
            AfterLook::Again,
        ),
        RecordState::<Result<(), Error>>::AwaitDetached(AfterLook::Started)@ matches RecordState::AwaitDetached(
            AfterLook::Started,
        ),
        RecordState::<Result<(), Error>>::AwaitDetached(AfterLook::Over(r))@ == RecordState::<
            Result<(), ErrorView>,
        >::AwaitDetached(AfterLook::Over(seen(r))),
        RecordState::<Result<(), Error>>::AwaitEnd@ is AwaitEnd,
        RecordState::<Result<(), Error>>::AwaitCreation@ is AwaitCreation,
        RecordState::<Result<(), Error>>::AwaitCacheFile@ is AwaitCacheFile,
        RecordState::<Result<(), Error>>::AwaitMeta@ is AwaitMeta,
        RecordState::<Result<(), Error>>::AwaitWrite@ is AwaitWrite,
        RecordState::<Result<(), Error>>::Finished@ is Finished,
{
}

/// The view of how the recording thread ends is the same over views.
pub proof fn law_meta_thread_action_view(recording_failed: bool, r: Result<(), Error>)
    ensures
        (MetaThreadAction::<Result<(), Error>>::StopServer { recording_failed })@ == (
        MetaThreadAction::<Result<(), ErrorView>>::StopServer { recording_failed }),
        MetaThreadAction::<Result<(), Error>>::Finish(r)@ == MetaThreadAction::<
            Result<(), ErrorView>,
        >::Finish(seen(r)),
{
}

} // verus!
