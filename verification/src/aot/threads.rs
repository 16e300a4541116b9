//! Whether the server still runs, by the threads of the virtual machine.

use crate::errors::{error_in, generic_error, keeps_trace, seen, Error, ErrorView};
use crate::text::{cat4, same};
use vstd::prelude::*;

verus! {

/// The name of the thread that the server runs in.
pub const SERVER_THREAD: &'static str = "Server thread";

/// The name of the thread that starts the server.
pub const MAIN_THREAD: &'static str = "main";

/// The thread is one of the two that the server runs in. Once both are gone the
/// server is gone.
pub open spec fn is_watched(name: Seq<char>) -> bool {
    name == SERVER_THREAD@ || name == MAIN_THREAD@
}

fn watched(name: &str) -> (r: bool)
    ensures
        r == is_watched(name@),
{
    same(name, SERVER_THREAD) || same(name, MAIN_THREAD)
}

/// The error of a method of the virtual machine that gave no object.
pub open spec fn null_error(class: Seq<char>, method: Seq<char>) -> ErrorView {
    generic_error(class + "::"@ + method + " returned 'null'"@)
}

/// The error of a method of the virtual machine that gave no object.
pub fn returned_null(class: &str, method: &str) -> (r: Error)
    ensures
        r@ == null_error(class@, method@),
{
    Error::generic(cat4(class, "::", method, " returned 'null'"))
}

/// The outcome of asking a thread for its name; no name is an error.
pub open spec fn name_outcome(found: Result<Option<Seq<char>>, ErrorView>) -> Result<
    Seq<char>,
    ErrorView,
> {
    match found {
        Ok(Some(name)) => Ok(name),
        Ok(None) => Err(null_error("ThreadInfo"@, "getThreadName()"@)),
        Err(e) => Err(e),
    }
}

/// The view of a name that was asked for.
pub open spec fn seen_name(found: Result<Option<String>, Error>) -> Result<
    Option<Seq<char>>,
    ErrorView,
> {
    match found {
        Ok(Some(name)) => Ok(Some(name@)),
        Ok(None) => Ok(None),
        Err(e) => Err(e@),
    }
}

/// The name of a thread.
pub fn thread_name(found: Result<Option<String>, Error>) -> (r: Result<String, Error>)
    ensures
        (match r {
            Ok(name) => Ok(name@),
            Err(e) => Err(e@),
        }) == name_outcome(seen_name(found)),
        keeps_trace(error_in(found), Some(r)),
{
    match found {
        Ok(Some(name)) => Ok(name),
        Ok(None) => Err(returned_null("ThreadInfo", "getThreadName()")),
        Err(e) => Err(e),
    }
}

/// How far the look at the threads has come. `at` is the thread that is looked
/// at, `len` is how many there are.
#[derive(Clone, Copy, Debug, PartialEq, Eq, Structural)]
pub enum ThreadScan {
    AwaitBean,
    AwaitDump,
    AwaitTerminated { len: usize },
    AwaitThread { at: usize, len: usize },
    AwaitName { at: usize, len: usize },
    AwaitState { at: usize, len: usize },
    AwaitComparison { at: usize, len: usize },
    Finished,
}

/// What is to be asked of the virtual machine next. `R` is the outcome.
#[derive(Debug, PartialEq, Eq)]
pub enum ThreadAction<R> {
    /// `ManagementFactory.getThreadMXBean()`.
    GetThreadBean,
    /// `ThreadMXBean.dumpAllThreads(false, false, 0)`.
    DumpAllThreads,
    /// `Thread.State.TERMINATED`.
    GetTerminatedState,
    /// The thread at this place of the dump.
    GetThread(usize),
    /// `ThreadInfo.getThreadName()` of that thread.
    GetThreadName,
    /// `ThreadInfo.getThreadState()` of that thread.
    GetThreadState,
    /// Whether that state is the terminated one.
    CompareState,
    /// The look is over.
    Finish(R),
    /// There is nothing more to do.
    Rest,
}

/// What the virtual machine replied. `E` is an error, `S` a text; an object is
/// told by whether it is null.
#[derive(Debug, PartialEq, Eq)]
pub enum ThreadEvent<E, S> {
    Bean(Result<bool, E>),
    /// How many threads there are.
    Dump(Result<usize, E>),
    Terminated(Result<(), E>),
    Thread(Result<bool, E>),
    Name(Result<Option<S>, E>),
    State(Result<bool, E>),
    Comparison(Result<bool, E>),
}

/// A reply of the virtual machine.
pub type ThreadReply = ThreadEvent<Error, String>;

/// What a reply is, over sequences.
pub type ThreadReplyView = ThreadEvent<ErrorView, Seq<char>>;

/// What an action is, over views.
pub type ThreadActionView = ThreadAction<Result<bool, ErrorView>>;

/// The view of a reply.
pub open spec fn thread_reply_view(e: ThreadReply) -> ThreadReplyView {
    match e {
        ThreadEvent::Bean(r) => ThreadEvent::Bean(seen(r)),
        ThreadEvent::Dump(r) => ThreadEvent::Dump(seen(r)),
        ThreadEvent::Terminated(r) => ThreadEvent::Terminated(seen(r)),
        ThreadEvent::Thread(r) => ThreadEvent::Thread(seen(r)),
        ThreadEvent::Name(r) => ThreadEvent::Name(seen_name(r)),
        ThreadEvent::State(r) => ThreadEvent::State(seen(r)),
        ThreadEvent::Comparison(r) => ThreadEvent::Comparison(seen(r)),
    }
}

/// The error that a reply brings.
pub open spec fn reply_error(e: ThreadReply) -> Option<Error> {
    match e {
        ThreadEvent::Bean(r) => error_in(r),
        ThreadEvent::Dump(r) => error_in(r),
        ThreadEvent::Terminated(r) => error_in(r),
        ThreadEvent::Thread(r) => error_in(r),
        ThreadEvent::Name(r) => error_in(r),
        ThreadEvent::State(r) => error_in(r),
        ThreadEvent::Comparison(r) => error_in(r),
    }
}

/// What the look comes to, at its end.
pub open spec fn scan_end(a: ThreadAction<Result<bool, Error>>) -> Option<Result<bool, Error>> {
    match a {
        ThreadAction::Finish(r) => Some(r),
        _ => None,
    }
}

impl View for ThreadAction<Result<bool, Error>> {
    type V = ThreadActionView;

    open spec fn view(&self) -> ThreadActionView {
        match *self {
            ThreadAction::GetThreadBean => ThreadAction::GetThreadBean,
            ThreadAction::DumpAllThreads => ThreadAction::DumpAllThreads,
            ThreadAction::GetTerminatedState => ThreadAction::GetTerminatedState,
            ThreadAction::GetThread(i) => ThreadAction::GetThread(i),
            ThreadAction::GetThreadName => ThreadAction::GetThreadName,
            ThreadAction::GetThreadState => ThreadAction::GetThreadState,
            ThreadAction::CompareState => ThreadAction::CompareState,
            ThreadAction::Finish(r) => ThreadAction::Finish(seen(r)),
            ThreadAction::Rest => ThreadAction::Rest,
        }
    }
}

/// What is to be asked in a state.
pub open spec fn thread_request(s: ThreadScan) -> ThreadActionView {
    match s {
        ThreadScan::AwaitBean => ThreadAction::GetThreadBean,
        ThreadScan::AwaitDump => ThreadAction::DumpAllThreads,
        ThreadScan::AwaitTerminated { len: _ } => ThreadAction::GetTerminatedState,
        ThreadScan::AwaitThread { at, len: _ } => ThreadAction::GetThread(at),
        ThreadScan::AwaitName { at: _, len: _ } => ThreadAction::GetThreadName,
        ThreadScan::AwaitState { at: _, len: _ } => ThreadAction::GetThreadState,
        ThreadScan::AwaitComparison { at: _, len: _ } => ThreadAction::CompareState,
        ThreadScan::Finished => ThreadAction::Rest,
    }
}

/// The step to a state in which there is more to be asked.
pub open spec fn scan_on(s: ThreadScan) -> (ThreadScan, ThreadActionView) {
    (s, thread_request(s))
}

/// The step to the end.
pub open spec fn scan_over(r: Result<bool, ErrorView>) -> (ThreadScan, ThreadActionView) {
    (ThreadScan::Finished, ThreadAction::Finish(r))
}

/// The step from the thread `at` to the next; after the last one the server
/// does not run.
pub open spec fn scan_past(at: usize, len: usize) -> (ThreadScan, ThreadActionView) {
    if at + 1 < len {
        scan_on(ThreadScan::AwaitThread { at: (at + 1) as usize, len })
    } else {
        scan_over(Ok(false))
    }
}

/// The step that the look takes on a reply. What was not asked for changes
/// nothing.
pub open spec fn scan_step(s: ThreadScan, e: ThreadReplyView) -> (ThreadScan, ThreadActionView) {
    match (s, e) {
        (ThreadScan::AwaitBean, ThreadEvent::Bean(r)) => match r {
            Ok(false) => scan_on(ThreadScan::AwaitDump),
            Ok(true) => scan_over(Err(null_error("ManagementFactory"@, "getThreadMXBean()"@))),
            Err(e) => scan_over(Err(e)),
        },
        (ThreadScan::AwaitDump, ThreadEvent::Dump(r)) => match r {
            Ok(len) => if len == 0 {
                scan_over(Ok(false))
            } else {
                scan_on(ThreadScan::AwaitTerminated { len })
            },
            Err(e) => scan_over(Err(e)),
        },
        (ThreadScan::AwaitTerminated { len }, ThreadEvent::Terminated(r)) => match r {
            Ok(_) => scan_on(ThreadScan::AwaitThread { at: 0, len }),
            Err(e) => scan_over(Err(e)),
        },
        (ThreadScan::AwaitThread { at, len }, ThreadEvent::Thread(r)) => match r {
            Ok(true) => scan_past(at, len),
            Ok(false) => scan_on(ThreadScan::AwaitName { at, len }),
            Err(e) => scan_over(Err(e)),
        },
        (ThreadScan::AwaitName { at, len }, ThreadEvent::Name(r)) => match name_outcome(r) {
            Ok(name) => if is_watched(name) {
                scan_on(ThreadScan::AwaitState { at, len })
            } else {
                scan_past(at, len)
            },
            Err(e) => scan_over(Err(e)),
        },
        (ThreadScan::AwaitState { at, len }, ThreadEvent::State(r)) => match r {
            Ok(false) => scan_on(ThreadScan::AwaitComparison { at, len }),
            Ok(true) => scan_over(Err(null_error("ThreadInfo"@, "getThreadState()"@))),
            Err(e) => scan_over(Err(e)),
        },
        (ThreadScan::AwaitComparison { at, len }, ThreadEvent::Comparison(r)) => match r {
            Ok(true) => scan_past(at, len),
            Ok(false) => scan_over(Ok(true)),
            Err(e) => scan_over(Err(e)),
        },
        _ => scan_on(s),
    }
}

/// Begins to look whether the server still runs.
pub fn check_threads_are_running() -> (r: (ThreadScan, ThreadAction<Result<bool, Error>>))
    ensures
        (r.0, r.1@) == scan_on(ThreadScan::AwaitBean),
{
    go_on(ThreadScan::AwaitBean)
}

fn go_on(s: ThreadScan) -> (r: (ThreadScan, ThreadAction<Result<bool, Error>>))
    ensures
        (r.0, r.1@) == scan_on(s),
        scan_end(r.1) is None,
{
    let a = s.request();
    (s, a)
}

fn over(out: Result<bool, Error>) -> (r: (ThreadScan, ThreadAction<Result<bool, Error>>))
    ensures
        (r.0, r.1@) == scan_over(seen(out)),
        r.1 == ThreadAction::Finish(out),
{
    (ThreadScan::Finished, ThreadAction::Finish(out))
}

fn go_past(at: usize, len: usize) -> (r: (ThreadScan, ThreadAction<Result<bool, Error>>))
    ensures
        (r.0, r.1@) == scan_past(at, len),
{
    if at < len && at + 1 < len {
        go_on(ThreadScan::AwaitThread { at: at + 1, len })
    } else {
        over(Ok(false))
    }
}

impl ThreadScan {
    /// What is to be asked next.
    pub fn request(self) -> (r: ThreadAction<Result<bool, Error>>)
        ensures
            r@ == thread_request(self),
    {
        match self {
            ThreadScan::AwaitBean => ThreadAction::GetThreadBean,
            ThreadScan::AwaitDump => ThreadAction::DumpAllThreads,
            ThreadScan::AwaitTerminated { len: _ } => ThreadAction::GetTerminatedState,
            ThreadScan::AwaitThread { at, len: _ } => ThreadAction::GetThread(at),
            ThreadScan::AwaitName { at: _, len: _ } => ThreadAction::GetThreadName,
            ThreadScan::AwaitState { at: _, len: _ } => ThreadAction::GetThreadState,
            ThreadScan::AwaitComparison { at: _, len: _ } => ThreadAction::CompareState,
            ThreadScan::Finished => ThreadAction::Rest,
        }
    }

    /// Goes on with a reply of the virtual machine.
    pub fn next(self, reply: ThreadReply) -> (r: (ThreadScan, ThreadAction<Result<bool, Error>>))
        ensures
            (r.0, r.1@) == scan_step(self, thread_reply_view(reply)),
            keeps_trace(reply_error(reply), scan_end(r.1)),
    {
        match (self, reply) {
            (ThreadScan::AwaitBean, ThreadEvent::Bean(bean)) => match bean {
                Ok(is_null) => {
                    if is_null {
                        over(Err(returned_null("ManagementFactory", "getThreadMXBean()")))
                    } else {
                        go_on(ThreadScan::AwaitDump)
                    }
                },
                Err(e) => over(Err(e)),
            },
            (ThreadScan::AwaitDump, ThreadEvent::Dump(dump)) => match dump {
                Ok(len) => {
                    if len == 0 {
                        over(Ok(false))
                    } else {
                        go_on(ThreadScan::AwaitTerminated { len })
                    }
                },
                Err(e) => over(Err(e)),
            },
            (ThreadScan::AwaitTerminated { len }, ThreadEvent::Terminated(found)) => match found {
                Ok(()) => go_on(ThreadScan::AwaitThread { at: 0, len }),
                Err(e) => over(Err(e)),
            },
            (ThreadScan::AwaitThread { at, len }, ThreadEvent::Thread(found)) => match found {
                Ok(is_null) => {
                    if is_null {
                        go_past(at, len)
                    } else {
                        go_on(ThreadScan::AwaitName { at, len })
                    }
                },
                Err(e) => over(Err(e)),
            },
            (ThreadScan::AwaitName { at, len }, ThreadEvent::Name(found)) => match thread_name(
                found,
            ) {
                Ok(name) => {
                    if watched(name.as_str()) {
                        go_on(ThreadScan::AwaitState { at, len })
                    } else {
                        go_past(at, len)
                    }
                },
                Err(e) => over(Err(e)),
            },
            (ThreadScan::AwaitState { at, len }, ThreadEvent::State(found)) => match found {
                Ok(is_null) => {
                    if is_null {
                        over(Err(returned_null("ThreadInfo", "getThreadState()")))
                    } else {
                        go_on(ThreadScan::AwaitComparison { at, len })
                    }
                },
                Err(e) => over(Err(e)),
            },
            (ThreadScan::AwaitComparison { at, len }, ThreadEvent::Comparison(terminated)) => {
                match terminated {
                    Ok(is_terminated) => {
                        if is_terminated {
                            go_past(at, len)
                        } else {
                            over(Ok(true))
                        }
                    },
                    Err(e) => over(Err(e)),
                }
            },
            (s, _) => go_on(s),
        }
    }
}

/// What the virtual machine replies about one thread.
pub struct ThreadFacts {
    /// Whether the entry of the dump is null.
    pub is_null: Result<bool, ErrorView>,
    pub name: Result<Option<Seq<char>>, ErrorView>,
    /// Whether the state is null.
    pub state_is_null: Result<bool, ErrorView>,
    /// Whether the state is the terminated one.
    pub is_terminated: Result<bool, ErrorView>,
}

/// What the look comes to on these threads: the first one that is watched and
/// has not ended, or that fails to reply, settles it.
pub open spec fn threads_outcome(threads: Seq<ThreadFacts>) -> Result<bool, ErrorView>
    decreases threads.len(),
{
    if threads.len() == 0 {
        Ok(false)
    } else {
        let t = threads[0];
        let rest = threads_outcome(threads.drop_first());
        match t.is_null {
            Err(e) => Err(e),
            Ok(true) => rest,
            Ok(false) => match name_outcome(t.name) {
                Err(e) => Err(e),
                Ok(name) => if !is_watched(name) {
                    rest
                } else {
                    match t.state_is_null {
                        Err(e) => Err(e),
                        Ok(true) => Err(null_error("ThreadInfo"@, "getThreadState()"@)),
                        Ok(false) => match t.is_terminated {
                            Err(e) => Err(e),
                            Ok(true) => rest,
                            Ok(false) => Ok(true),
                        },
                    }
                },
            },
        }
    }
}

/// What the virtual machine replies to the whole look.
pub struct MachineFacts {
    /// Whether the bean is null.
    pub bean_is_null: Result<bool, ErrorView>,
    /// Whether the threads are dumped.
    pub dumped: Result<(), ErrorView>,
    /// Whether the terminated state is had.
    pub terminated: Result<(), ErrorView>,
    pub threads: Seq<ThreadFacts>,
}

/// What the look comes to on these facts.
pub open spec fn scan_outcome(vm: MachineFacts) -> Result<bool, ErrorView> {
    match vm.bean_is_null {
        Err(e) => Err(e),
        Ok(true) => Err(null_error("ManagementFactory"@, "getThreadMXBean()"@)),
        Ok(false) => match vm.dumped {
            Err(e) => Err(e),
            Ok(_) => if vm.threads.len() == 0 {
                Ok(false)
            } else {
                match vm.terminated {
                    Err(e) => Err(e),
                    Ok(_) => threads_outcome(vm.threads),
                }
            },
        },
    }
}

/// What the virtual machine replies in a state.
pub open spec fn reply_in(vm: MachineFacts, s: ThreadScan) -> ThreadReplyView {
    match s {
        ThreadScan::AwaitBean => ThreadEvent::Bean(vm.bean_is_null),
        ThreadScan::AwaitDump => ThreadEvent::Dump(
            match vm.dumped {
                Ok(_) => Ok(vm.threads.len() as usize),
                Err(e) => Err(e),
            },
        ),
        ThreadScan::AwaitTerminated { len: _ } => ThreadEvent::Terminated(vm.terminated),
        ThreadScan::AwaitThread { at, len: _ } => ThreadEvent::Thread(
            vm.threads[at as int].is_null,
        ),
        ThreadScan::AwaitName { at, len: _ } => ThreadEvent::Name(vm.threads[at as int].name),
        ThreadScan::AwaitState { at, len: _ } => ThreadEvent::State(
            vm.threads[at as int].state_is_null,
        ),
        ThreadScan::AwaitComparison { at, len: _ } => ThreadEvent::Comparison(
            vm.threads[at as int].is_terminated,
        ),
        ThreadScan::Finished => ThreadEvent::Bean(vm.bean_is_null),
    }
}

/// The outcome that a look comes to within `steps` replies.
pub open spec fn scan_run(
    vm: MachineFacts,
    at: (ThreadScan, ThreadActionView),
    steps: nat,
) -> Option<Result<bool, ErrorView>>
    decreases steps,
{
    match at.1 {
        ThreadAction::Finish(r) => Some(r),
        _ => if steps == 0 {
            None
        } else {
            scan_run(vm, scan_step(at.0, reply_in(vm, at.0)), (steps - 1) as nat)
        },
    }
}

proof fn lemma_scan_from(vm: MachineFacts, at: usize, steps: nat)
    requires
        at < vm.threads.len() <= usize::MAX,
        steps >= 4 * (vm.threads.len() - at),
    ensures
        scan_run(
            vm,
            scan_on(ThreadScan::AwaitThread { at, len: vm.threads.len() as usize }),
            steps,
        ) == Some(threads_outcome(vm.threads.skip(at as int))),
    decreases vm.threads.len() - at,
{
    let len = vm.threads.len() as usize;
    let rest = vm.threads.skip(at as int);
    assert(rest[0] == vm.threads[at as int]);
    assert(rest.drop_first() =~= vm.threads.skip(at + 1));
    reveal_with_fuel(scan_run, 5);
    if at + 1 < len {
        let next = (at + 1) as usize;
        lemma_scan_from(vm, next, (steps - 1) as nat);
        lemma_scan_from(vm, next, (steps - 2) as nat);
        lemma_scan_from(vm, next, (steps - 4) as nat);
    } else {
        assert(vm.threads.skip(at + 1).len() == 0);
    }
}

/// The look ends, after three replies and four for each thread at most, and
/// comes to what the replies in order come to.
pub proof fn law_scan_ends(vm: MachineFacts)
    requires
        vm.threads.len() <= usize::MAX,
    ensures
        scan_run(vm, scan_on(ThreadScan::AwaitBean), 3 + 4 * vm.threads.len()) == Some(
            scan_outcome(vm),
        ),
{
    reveal_with_fuel(scan_run, 4);
    if vm.threads.len() > 0 {
        lemma_scan_from(vm, 0, 4 * vm.threads.len());
        assert(vm.threads.skip(0) =~= vm.threads);
    }
}

/// The thread is one of the two that the server runs in, and has not ended.
pub open spec fn is_live_watched(t: ThreadFacts) -> bool {
    &&& t.is_null == Ok::<bool, ErrorView>(false)
    &&& t.name matches Ok(Some(name)) && is_watched(name)
    &&& t.is_terminated == Ok::<bool, ErrorView>(false)
}

/// Nothing that is asked of the thread fails.
pub open spec fn replies(t: ThreadFacts) -> bool {
    &&& t.is_null is Ok
    &&& t.name matches Ok(n) && n is Some
    &&& t.state_is_null == Ok::<bool, ErrorView>(false)
    &&& t.is_terminated is Ok
}

/// Where every thread replies, the server runs exactly where one of its two
/// threads is there and has not ended: it is gone only once both are.
pub proof fn law_server_runs(threads: Seq<ThreadFacts>)
    requires
        forall|i: int| 0 <= i < threads.len() ==> replies(#[trigger] threads[i]),
    ensures
        threads_outcome(threads) == Ok::<bool, ErrorView>(
            exists|i: int| 0 <= i < threads.len() && is_live_watched(#[trigger] threads[i]),
        ),
    decreases threads.len(),
{
    if threads.len() > 0 {
        let rest = threads.drop_first();
        assert forall|i: int| 0 <= i < rest.len() implies replies(#[trigger] rest[i]) by {
            assert(rest[i] == threads[i + 1]);
        }
        law_server_runs(rest);
        assert(replies(threads[0]));
        if exists|i: int| 0 <= i < rest.len() && is_live_watched(#[trigger] rest[i]) {
            let i = choose|i: int| 0 <= i < rest.len() && is_live_watched(#[trigger] rest[i]);
            assert(is_live_watched(threads[i + 1]));
        }
        if exists|i: int| 0 <= i < threads.len() && is_live_watched(#[trigger] threads[i]) {
            let i = choose|i: int| 0 <= i < threads.len() && is_live_watched(#[trigger] threads[i]);
            if i > 0 {
                assert(is_live_watched(rest[i - 1]));
            }
        }
    }
}

/// Where every thread replies, the server runs exactly where there is a thread
/// that is called `Server thread` or `main`, is there, and has not ended.
pub proof fn law_server_runs_by_name(threads: Seq<ThreadFacts>)
    requires
        forall|i: int|
            0 <= i < threads.len() ==> (#[trigger] threads[i]).is_null is Ok && (
            threads[i].name matches Ok(n) && n is Some) && threads[i].state_is_null == Ok::<
                bool,
                ErrorView,
            >(false) && threads[i].is_terminated is Ok,
    ensures
        threads_outcome(threads) is Ok,
        threads_outcome(threads)->Ok_0 <==> exists|i: int|
            0 <= i < threads.len() && (#[trigger] threads[i]).is_null == Ok::<bool, ErrorView>(false)
                && (threads[i].name == Ok::<Option<Seq<char>>, ErrorView>(Some("Server thread"@))
                || threads[i].name == Ok::<Option<Seq<char>>, ErrorView>(Some("main"@)))
                && threads[i].is_terminated == Ok::<bool, ErrorView>(false),
{
    assert forall|i: int| 0 <= i < threads.len() implies replies(#[trigger] threads[i]) by {}
    law_server_runs(threads);
    if exists|i: int| 0 <= i < threads.len() && is_live_watched(#[trigger] threads[i]) {
        let i = choose|i: int| 0 <= i < threads.len() && is_live_watched(#[trigger] threads[i]);
        assert(threads[i].is_null == Ok::<bool, ErrorView>(false));
    }
    if exists|i: int|
        0 <= i < threads.len() && (#[trigger] threads[i]).is_null == Ok::<bool, ErrorView>(false)
            && (threads[i].name == Ok::<Option<Seq<char>>, ErrorView>(Some("Server thread"@))
            || threads[i].name == Ok::<Option<Seq<char>>, ErrorView>(Some("main"@)))
            && threads[i].is_terminated == Ok::<bool, ErrorView>(false) {
        let i = choose|i: int|
            0 <= i < threads.len() && (#[trigger] threads[i]).is_null == Ok::<bool, ErrorView>(
                false,
            ) && (threads[i].name == Ok::<Option<Seq<char>>, ErrorView>(Some("Server thread"@))
                || threads[i].name == Ok::<Option<Seq<char>>, ErrorView>(Some("main"@)))
                && threads[i].is_terminated == Ok::<bool, ErrorView>(false);
        assert(is_live_watched(threads[i]));
    }
}

/// The text of a method that gave no object names its class and itself.
pub proof fn law_null_error(class: Seq<char>, method: Seq<char>)
    ensures
        null_error(class, method).text() == class + "::"@ + method + " returned 'null'"@,
{
}

/// What is asked of one thread, in this order: whether it is there, its name, and
/// of the two threads of the server its state. The first that fails is what the
/// look comes to; a thread that is not there, has another name, or has ended
/// leaves it to those after it; any other settles that the server runs.
pub proof fn law_first_thread(t: ThreadFacts, rest: Seq<ThreadFacts>)
    ensures
        ({
            let out = threads_outcome(seq![t] + rest);
            let later = threads_outcome(rest);
            let there = t.is_null == Ok::<bool, ErrorView>(false);
            let named = t.name == Ok::<Option<Seq<char>>, ErrorView>(Some("Server thread"@))
                || t.name == Ok::<Option<Seq<char>>, ErrorView>(Some("main"@));
            let stated = t.state_is_null == Ok::<bool, ErrorView>(false);
            &&& t.is_null matches Err(e) ==> out == Err::<bool, ErrorView>(e)
            &&& t.is_null == Ok::<bool, ErrorView>(true) ==> out == later
            &&& there && t.name is Err ==> out == Err::<bool, ErrorView>(t.name->Err_0)
            &&& there && t.name == Ok::<Option<Seq<char>>, ErrorView>(None) ==> out is Err
                && out->Err_0.text() == "ThreadInfo"@ + "::"@ + "getThreadName()"@
                + " returned 'null'"@
            &&& there && (t.name matches Ok(n) && n is Some) && !named ==> out == later
            &&& there && named && t.state_is_null is Err ==> out == Err::<bool, ErrorView>(
                t.state_is_null->Err_0,
            )
            &&& there && named && t.state_is_null == Ok::<bool, ErrorView>(true) ==> out is Err
                && out->Err_0.text() == "ThreadInfo"@ + "::"@ + "getThreadState()"@
                + " returned 'null'"@
            &&& there && named && stated && t.is_terminated is Err ==> out == Err::<
                bool,
                ErrorView,
            >(t.is_terminated->Err_0)
            &&& there && named && stated && t.is_terminated == Ok::<bool, ErrorView>(true) ==> out
                == later
            &&& there && named && stated && t.is_terminated == Ok::<bool, ErrorView>(false) ==> out
                == Ok::<bool, ErrorView>(true)
        }),
        threads_outcome(Seq::empty()) == Ok::<bool, ErrorView>(false),
{
    let all = seq![t] + rest;
    assert(all.drop_first() =~= rest);
    assert(all[0] == t);
}

/// Before any thread, the bean, the dump and the terminated state are asked for;
/// the first that fails is what the look comes to, and where there are no threads
/// the server does not run.
pub proof fn law_machine_is_asked_first(vm: MachineFacts)
    ensures
        ({
            let out = scan_outcome(vm);
            let bean = vm.bean_is_null == Ok::<bool, ErrorView>(false);
            &&& vm.bean_is_null matches Err(e) ==> out == Err::<bool, ErrorView>(e)
            &&& vm.bean_is_null == Ok::<bool, ErrorView>(true) ==> out is Err && out->Err_0.text()
                == "ManagementFactory"@ + "::"@ + "getThreadMXBean()"@ + " returned 'null'"@
            &&& bean && vm.dumped is Err ==> out == Err::<bool, ErrorView>(vm.dumped->Err_0)
            &&& bean && vm.dumped is Ok && vm.threads.len() == 0 ==> out == Ok::<bool, ErrorView>(
                false,
            )
            &&& bean && vm.dumped is Ok && vm.threads.len() > 0 && vm.terminated is Err ==> out
                == Err::<bool, ErrorView>(vm.terminated->Err_0)
            &&& bean && vm.dumped is Ok && vm.threads.len() > 0 && vm.terminated is Ok ==> out
                == threads_outcome(vm.threads)
        }),
{
}

/// In each state the look asks for what it waits for.
pub proof fn law_scan_asks_for_what_it_awaits(at: usize, len: usize)
    ensures
        thread_request(ThreadScan::AwaitBean) is GetThreadBean,
        thread_request(ThreadScan::AwaitDump) is DumpAllThreads,
        thread_request(ThreadScan::AwaitTerminated { len }) is GetTerminatedState,
        thread_request(ThreadScan::AwaitThread { at, len }) == ThreadAction::<
            Result<bool, ErrorView>,
        >::GetThread(at),
        thread_request(ThreadScan::AwaitName { at, len }) is GetThreadName,
        thread_request(ThreadScan::AwaitState { at, len }) is GetThreadState,
        thread_request(ThreadScan::AwaitComparison { at, len }) is CompareState,
        thread_request(ThreadScan::Finished) is Rest,
        scan_on(ThreadScan::AwaitBean) == (
            ThreadScan::AwaitBean,
            ThreadAction::<Result<bool, ErrorView>>::GetThreadBean,
        ),
{
}

/// A step of the look either ends it or asks for what the next state waits for;
/// once it is over nothing moves it.
pub proof fn law_scan_step_asks(s: ThreadScan, e: ThreadReplyView)
    ensures
        ({
            let next = scan_step(s, e);
            &&& next.1 is Finish ==> next.0 == ThreadScan::Finished
            &&& !(next.1 is Finish) ==> next.1 == thread_request(next.0)
            &&& s == ThreadScan::Finished ==> next.0 == ThreadScan::Finished && next.1 is Rest
        }),
{
}

/// The view of a reply is the same reply over views.
pub proof fn law_thread_reply_view(
    b: Result<bool, Error>,
    n: Result<usize, Error>,
    u: Result<(), Error>,
    name: String,
    e: Error,
)
    ensures
        thread_reply_view(ThreadEvent::Bean(b)) == ThreadEvent::<ErrorView, Seq<char>>::Bean(seen(b)),
        thread_reply_view(ThreadEvent::Dump(n)) == ThreadEvent::<ErrorView, Seq<char>>::Dump(seen(n)),
        thread_reply_view(ThreadEvent::Terminated(u)) == ThreadEvent::<
            ErrorView,
            Seq<char>,
        >::Terminated(seen(u)),
        thread_reply_view(ThreadEvent::Thread(b)) == ThreadEvent::<ErrorView, Seq<char>>::Thread(
            seen(b),
        ),
        thread_reply_view(ThreadEvent::State(b)) == ThreadEvent::<ErrorView, Seq<char>>::State(
            seen(b),
        ),
        thread_reply_view(ThreadEvent::Comparison(b)) == ThreadEvent::<
            ErrorView,
            Seq<char>,
        >::Comparison(seen(b)),
        thread_reply_view(ThreadEvent::Name(Ok(Some(name)))) == ThreadEvent::<
            ErrorView,
            Seq<char>,
        >::Name(Ok(Some(name@))),
        thread_reply_view(ThreadEvent::Name(Ok(None))) == ThreadEvent::<
            ErrorView,
            Seq<char>,
        >::Name(Ok(None)),
        thread_reply_view(ThreadEvent::Name(Err(e))) == ThreadEvent::<ErrorView, Seq<char>>::Name(
            Err(e@),
        ),
{
}

/// The error that a reply brings is the one in it, and what the look comes to is
/// what it ends with.
pub proof fn law_reply_error(e: Error, r: Result<bool, Error>)
    ensures
        reply_error(ThreadEvent::Bean(Err(e))) == Some(e),
        reply_error(ThreadEvent::Dump(Err(e))) == Some(e),
        reply_error(ThreadEvent::Terminated(Err(e))) == Some(e),
        reply_error(ThreadEvent::Thread(Err(e))) == Some(e),
        reply_error(ThreadEvent::Name(Err(e))) == Some(e),
        reply_error(ThreadEvent::State(Err(e))) == Some(e),
        reply_error(ThreadEvent::Comparison(Err(e))) == Some(e),
        scan_end(ThreadAction::Finish(r)) == Some(r),
{
}

/// A reply that the look did not ask for leaves it where it is, and what it asked
/// for is asked again.
pub proof fn law_scan_ignores_the_unasked(s: ThreadScan, e: ThreadReplyView)
    requires
        !(s is AwaitBean && e is Bean),
        !(s is AwaitDump && e is Dump),
        !(s is AwaitTerminated && e is Terminated),
        !(s is AwaitThread && e is Thread),
        !(s is AwaitName && e is Name),
        !(s is AwaitState && e is State),
        !(s is AwaitComparison && e is Comparison),
    ensures
        scan_step(s, e).0 == s,
        scan_step(s, e).1 == thread_request(s),
{
}

/// The view of an action of the look is the same action over views.
pub proof fn law_thread_action_view(at: usize, r: Result<bool, Error>)
    ensures
        ThreadAction::<Result<bool, Error>>::GetThreadBean@ is GetThreadBean,
        ThreadAction::<Result<bool, Error>>::DumpAllThreads@ is DumpAllThreads,
        ThreadAction::<Result<bool, Error>>::GetTerminatedState@ is GetTerminatedState,
        ThreadAction::<Result<bool, Error>>::GetThread(at)@ == ThreadAction::<
            Result<bool, ErrorView>,
        >::GetThread(at),
        ThreadAction::<Result<bool, Error>>::GetThreadName@ is GetThreadName,
        ThreadAction::<Result<bool, Error>>::GetThreadState@ is GetThreadState,
        ThreadAction::<Result<bool, Error>>::CompareState@ is CompareState,
        ThreadAction::<Result<bool, Error>>::Finish(r)@ == ThreadAction::<
            Result<bool, ErrorView>,
        >::Finish(seen(r)),
        ThreadAction::<Result<bool, Error>>::Rest@ is Rest,
{
}

/// A thread that was asked for its name has the one that it gave; none is an
/// error whose text says so.
pub proof fn law_thread_name(name: Seq<char>, e: ErrorView, text: String, error: Error)
    ensures
        name_outcome(Ok(Some(name))) == Ok::<Seq<char>, ErrorView>(name),
        name_outcome(Err(e)) == Err::<Seq<char>, ErrorView>(e),
        name_outcome(Ok(None)) matches Err(out) && out.text() == "ThreadInfo"@ + "::"@
            + "getThreadName()"@ + " returned 'null'"@,
        seen_name(Ok(Some(text))) == Ok::<Option<Seq<char>>, ErrorView>(Some(text@)),
        seen_name(Ok(None)) == Ok::<Option<Seq<char>>, ErrorView>(None),
        seen_name(Err(error)) == Err::<Option<Seq<char>>, ErrorView>(error@),
{
}

} // verus!
