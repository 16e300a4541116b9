//! A run of the launcher from end to end: what its stages hand on, and how the
//! process ends.

use crate::args::ArgOptions;
use crate::errors::{
    in_context, result_trace, seen, trace_view, wrapped_error, Error, ErrorView, Trace, WithContext,
};
use crate::launcher::Launcher;
use vstd::prelude::*;

verus! {

/// How the process ends.
#[derive(Debug, PartialEq, Eq)]
pub struct Ending {
    /// What is printed on the standard stream for errors.
    pub notice: Option<String>,
    /// The backtrace that is printed after it.
    pub backtrace: Trace,
    /// The exit code that the process ends with at once; `None` where it just
    /// comes to its end.
    pub code: Option<u8>,
}

/// What an ending is, over sequences.
pub struct EndingView {
    pub notice: Option<Seq<char>>,
    pub backtrace: Option<Seq<char>>,
    pub code: Option<u8>,
}

impl View for Ending {
    type V = EndingView;

    open spec fn view(&self) -> EndingView {
        EndingView {
            notice: match self.notice {
                Some(t) => Some(t@),
                None => None,
            },
            backtrace: trace_view(self.backtrace),
            code: self.code,
        }
    }
}

/// How the process ends after a run with this outcome, whose error has the
/// backtrace `trace`: an exit code is taken as it is and nothing is printed; any
/// other error is printed with its backtrace, and the exit code is 1.
pub open spec fn ending(result: Result<(), ErrorView>, trace: Option<Seq<char>>) -> EndingView {
    match result {
        Ok(_) => EndingView { notice: None, backtrace: None, code: None },
        Err(ErrorView::Exit(code)) => EndingView {
            notice: None,
            backtrace: None,
            code: Some(code),
        },
        Err(e) => EndingView { notice: Some(e.text()), backtrace: trace, code: Some(1) },
    }
}

/// How the process ends after a run with this outcome.
pub fn conclude(result: Result<(), Error>) -> (r: Ending)
    ensures
        r@ == ending(seen(result), result_trace(result)),
{
    match result {
        Ok(()) => Ending { notice: None, backtrace: None, code: None },
        Err(Error::Exit(code)) => Ending { notice: None, backtrace: None, code: Some(code) },
        Err(e) => Ending { notice: Some(e.message()), backtrace: e.backtrace(), code: Some(1) },
    }
}

/// The options of the run; where the arguments ask for no run the process ends
/// with exit code 0.
pub fn require_options(split: Result<Option<ArgOptions>, Error>) -> (r: Result<ArgOptions, Error>)
    ensures
        match split {
            Ok(Some(options)) => r == Ok::<ArgOptions, Error>(options),
            Ok(None) => seen(r) == Err::<ArgOptions, ErrorView>(ErrorView::Exit(0)),
            Err(e) => r == Err::<ArgOptions, Error>(e),
        },
{
    match split {
        Ok(Some(options)) => Ok(options),
        Ok(None) => Err(Error::Exit(0)),
        Err(e) => Err(e),
    }
}

/// The outcome of a stage of the run: a failure gets context, and an exit code,
/// which is not a failure to report, is handed on as it is.
pub open spec fn stage_outcome<T>(r: Result<T, ErrorView>, msg: Seq<char>) -> Result<T, ErrorView> {
    match r {
        Err(ErrorView::Exit(code)) => Err(ErrorView::Exit(code)),
        _ => in_context(r, msg),
    }
}

fn stage<T>(r: Result<T, Error>, msg: &'static str) -> (out: Result<T, Error>)
    ensures
        seen(out) == stage_outcome(seen(r), msg@),
        result_trace(out) == result_trace(r),
{
    match r {
        Err(Error::Exit(code)) => Err(Error::Exit(code)),
        _ => r.err_ctx(msg),
    }
}

/// Gives context to a failure of setting up the class path.
pub fn classpath_ready(done: Result<(), Error>) -> (r: Result<(), Error>)
    ensures
        seen(r) == stage_outcome(seen(done), "Failed to setup classpath"@),
        result_trace(r) == result_trace(done),
{
    stage(done, "Failed to setup classpath")
}

/// Gives context to a failure of checking the cache.
pub fn cache_checked(checked: Result<Launcher, Error>) -> (r: Result<Launcher, Error>)
    ensures
        seen(r) == stage_outcome(seen(checked), "Failed to check AOT cache"@),
        result_trace(r) == result_trace(checked),
{
    stage(checked, "Failed to check AOT cache")
}

/// The process prints something exactly where the run failed with an error that
/// is not an exit code, a backtrace never without the error, and a run that
/// succeeded sets no exit code.
pub proof fn law_only_failures_are_printed(
    result: Result<(), ErrorView>,
    trace: Option<Seq<char>>,
)
    ensures
        ending(result, trace).notice is Some <==> result is Err && !(result->Err_0 is Exit),
        ending(result, trace).notice is Some ==> ending(result, trace).backtrace == trace,
        ending(result, trace).notice is None ==> ending(result, trace).backtrace is None,
        ending(result, trace).code is None <==> result is Ok,
{
}

/// An exit code that a stage of the run comes to is the one that the process
/// ends with, and nothing is printed.
pub proof fn law_exit_code_is_kept<T>(msg: Seq<char>, code: u8, trace: Option<Seq<char>>)
    ensures
        stage_outcome::<T>(Err(ErrorView::Exit(code)), msg) == Err::<T, ErrorView>(
            ErrorView::Exit(code),
        ),
        ending(Err(ErrorView::Exit(code)), trace) == (EndingView {
            notice: None,
            backtrace: None,
            code: Some(code),
        }),
{
}

/// A failure of a stage is printed after what was being done, with its
/// backtrace, and the process ends with exit code 1.
pub proof fn law_failed_stage_is_printed(
    msg: Seq<char>,
    e: ErrorView,
    trace: Option<Seq<char>>,
)
    requires
        !(e is Exit),
    ensures
        ending(stage_outcome(Err(e), msg), trace) == (EndingView {
            notice: Some(msg + "\nCaused by: "@ + e.text()),
            backtrace: trace,
            code: Some(1),
        }),
{
    assert(wrapped_error(msg, e).text() == msg + "\nCaused by: "@ + e.text());
}

/// A failure of the run is printed as its text with its backtrace, and the
/// process ends with exit code 1; a run that succeeds prints nothing and lets the
/// process come to its end.
pub proof fn law_failure_is_printed(e: ErrorView, trace: Option<Seq<char>>)
    requires
        !(e is Exit),
    ensures
        ending(Err(e), trace) == (EndingView {
            notice: Some(e.text()),
            backtrace: trace,
            code: Some(1),
        }),
        ending(Ok(()), trace) == (EndingView { notice: None, backtrace: None, code: None }),
{
}

/// A stage that succeeds hands on its value.
pub proof fn law_stage_hands_on<T>(value: T, msg: Seq<char>)
    ensures
        stage_outcome::<T>(Ok(value), msg) == Ok::<T, ErrorView>(value),
{
}

/// The view of an ending is what is printed and the exit code.
pub proof fn law_ending_view(e: Ending)
    ensures
        e.notice is None <==> e@.notice is None,
        e.notice matches Some(t) ==> e@.notice == Some(t@),
        e.backtrace is None <==> e@.backtrace is None,
        e.backtrace matches Some(t) ==> e@.backtrace == Some(t@),
        e@.code == e.code,
{
}

} // verus!
