//! The errors of the launcher, their texts, and how they get their context.

use crate::outside::{backtrace_text, char_debug, char_debug_text, is_captured};
use crate::text::{cat2, cat3, decimal, decimal_of, same};
use vstd::prelude::*;
use vstd::string::*;

verus! {

/// The exit code of a run that was told to use the AOT cache only and could not.
pub const ONLY_USE_AOT_FAILED_EXIT_CODE: u8 = 33;

/// Why a text is not hexadecimal.
#[derive(Clone, Copy, Debug, PartialEq, Eq, Structural)]
pub enum HexError {
    /// The character, and its position in bytes, that is no hexadecimal digit.
    InvalidHexCharacter { c: char, index: usize },
    OddLength,
    InvalidStringLength,
}

impl HexError {
    /// The text of the error.
    pub open spec fn text(self) -> Seq<char> {
        match self {
            HexError::InvalidHexCharacter { c, index } => "InvalidHexCharacter { c: "@
                + char_debug_text(c) + (", index: "@ + decimal_of(index as nat) + " }"@),
            HexError::OddLength => "OddLength"@,
            HexError::InvalidStringLength => "InvalidStringLength"@,
        }
    }

    /// Writes the error as text.
    pub fn message(self) -> (r: String)
        ensures
            r@ == self.text(),
    {
        match self {
            HexError::InvalidHexCharacter { c, index } => {
                let number = decimal(index as u64);
                let rest = cat3(", index: ", number.as_str(), " }");
                let shown = char_debug(c);
                cat3("InvalidHexCharacter { c: ", shown.as_str(), rest.as_str())
            },
            HexError::OddLength => "OddLength".to_string(),
            HexError::InvalidStringLength => "InvalidStringLength".to_string(),
        }
    }
}

/// The backtrace of the place where an error came up, where the environment asks
/// for backtraces.
pub type Trace = Option<String>;

fn capture_trace() -> Trace {
    let backtrace = std::backtrace::Backtrace::capture();
    if is_captured(&backtrace) {
        Some(backtrace_text(&backtrace))
    } else {
        None
    }
}

/// An error of the launcher. The variants that begin with a text carry the
/// detail of an error that the platform, the virtual machine or a library
/// reported.
#[derive(Debug)]
pub enum Error {
    Jni(String, Trace),
    JVM(String, Trace),
    StartJvm(String, Trace),
    JavaLoc(String, Trace),
    Io(String, Trace),
    Time(String, Trace),
    Net(String, Trace),
    Zip(String, Trace),
    Utf(String, Trace),
    Hex(HexError, Trace),
    Int(String, Trace),
    Postcard(String, Trace),
    /// An error with what was being done when it came up.
    Wrapped { msg: String, cause: Box<Error> },
    /// An error of the launcher itself.
    Generic { msg: String, backtrace: Trace },
    /// Not a failure to report: the process ends with this code.
    Exit(u8),
}

/// What an error says, over sequences of characters. Its backtrace is had by
/// `Error::trace`.
pub enum ErrorView {
    Jni(Seq<char>),
    JVM(Seq<char>),
    StartJvm(Seq<char>),
    JavaLoc(Seq<char>),
    Io(Seq<char>),
    Time(Seq<char>),
    Net(Seq<char>),
    Zip(Seq<char>),
    Utf(Seq<char>),
    Hex(HexError),
    Int(Seq<char>),
    Postcard(Seq<char>),
    Wrapped { msg: Seq<char>, cause: Box<ErrorView> },
    Generic { msg: Seq<char> },
    Exit(u8),
}

/// What an error says.
pub open spec fn error_view(e: Error) -> ErrorView
    decreases e,
{
    match e {
        Error::Jni(d, _) => ErrorView::Jni(d@),
        Error::JVM(d, _) => ErrorView::JVM(d@),
        Error::StartJvm(d, _) => ErrorView::StartJvm(d@),
        Error::JavaLoc(d, _) => ErrorView::JavaLoc(d@),
        Error::Io(d, _) => ErrorView::Io(d@),
        Error::Time(d, _) => ErrorView::Time(d@),
        Error::Net(d, _) => ErrorView::Net(d@),
        Error::Zip(d, _) => ErrorView::Zip(d@),
        Error::Utf(d, _) => ErrorView::Utf(d@),
        Error::Hex(h, _) => ErrorView::Hex(h),
        Error::Int(d, _) => ErrorView::Int(d@),
        Error::Postcard(d, _) => ErrorView::Postcard(d@),
        Error::Wrapped { msg, cause } => ErrorView::Wrapped {
            msg: msg@,
            cause: Box::new(error_view(*cause)),
        },
        Error::Generic { msg, backtrace: _ } => ErrorView::Generic { msg: msg@ },
        Error::Exit(code) => ErrorView::Exit(code),
    }
}

impl View for Error {
    type V = ErrorView;

    open spec fn view(&self) -> ErrorView {
        error_view(*self)
    }
}

/// The view of a backtrace.
pub open spec fn trace_view(t: Trace) -> Option<Seq<char>> {
    match t {
        Some(text) => Some(text@),
        None => None,
    }
}

fn copy_trace(t: &Trace) -> (r: Trace)
    ensures
        trace_view(r) == trace_view(*t),
{
    match t {
        Some(text) => Some(text.clone()),
        None => None,
    }
}

/// The backtrace of the error of a result.
pub open spec fn result_trace<T>(r: Result<T, Error>) -> Option<Seq<char>> {
    match r {
        Ok(_) => None,
        Err(e) => e.trace(),
    }
}

/// An error that comes out where `of` went in has the backtrace of `of`.
pub open spec fn keeps_trace<T>(of: Option<Error>, out: Option<Result<T, Error>>) -> bool {
    match (of, out) {
        (Some(e), Some(Err(out))) => out.trace() == e.trace(),
        _ => true,
    }
}

/// The error of a result.
pub open spec fn error_in<T>(r: Result<T, Error>) -> Option<Error> {
    match r {
        Ok(_) => None,
        Err(e) => Some(e),
    }
}

/// The error of the launcher itself with this message.
pub open spec fn generic_error(msg: Seq<char>) -> ErrorView {
    ErrorView::Generic { msg }
}

/// The error `cause`, with what was being done when it came up.
pub open spec fn wrapped_error(msg: Seq<char>, cause: ErrorView) -> ErrorView {
    ErrorView::Wrapped { msg, cause: Box::new(cause) }
}

/// A result over the view of its error.
pub open spec fn seen<T>(r: Result<T, Error>) -> Result<T, ErrorView> {
    match r {
        Ok(t) => Ok(t),
        Err(e) => Err(e@),
    }
}

/// A result with context on its error.
pub open spec fn in_context<T>(r: Result<T, ErrorView>, msg: Seq<char>) -> Result<T, ErrorView> {
    match r {
        Ok(t) => Ok(t),
        Err(e) => Err(wrapped_error(msg, e)),
    }
}

/// `out` is `r` with context on its error, which is otherwise kept as it is.
pub open spec fn put_in_context<T>(r: Result<T, Error>, out: Result<T, Error>, msg: Seq<char>) -> bool {
    match r {
        Ok(t) => out == Ok::<T, Error>(t),
        Err(e) => out matches Err(Error::Wrapped { msg: m, cause }) && m@ == msg && *cause == e,
    }
}

impl ErrorView {
    /// The text of the error: what it is, then the detail; an error with context
    /// is followed by its cause.
    pub open spec fn text(self) -> Seq<char>
        decreases self,
    {
        match self {
            ErrorView::Jni(d) => "JNI error: "@ + d,
            ErrorView::JVM(d) => "JVM error: "@ + d,
            ErrorView::StartJvm(d) => "JVM start error: "@ + d,
            ErrorView::JavaLoc(d) => "Failed to find Java installation: "@ + d,
            ErrorView::Io(d) => "IO error: "@ + d,
            ErrorView::Time(d) => "Time error: "@ + d,
            ErrorView::Net(d) => "Download error: "@ + d,
            ErrorView::Zip(d) => "Zip error: "@ + d,
            ErrorView::Utf(d) => "UTF-8 error: "@ + d,
            ErrorView::Hex(h) => "Hex error: "@ + h.text(),
            ErrorView::Int(d) => "Parse error: "@ + d,
            ErrorView::Postcard(d) => "Serialization error: "@ + d,
            ErrorView::Wrapped { msg, cause } => msg + "\nCaused by: "@ + cause.text(),
            ErrorView::Generic { msg } => msg,
            ErrorView::Exit(code) => "Exiting with code "@ + decimal_of(code as nat),
        }
    }
}

impl Error {
    /// The backtrace of the error: that of its cause where it has context. An
    /// exit code has none.
    pub open spec fn trace(self) -> Option<Seq<char>>
        decreases self,
    {
        match self {
            Error::Wrapped { msg: _, cause } => cause.trace(),
            Error::Exit(_) => None,
            Error::Generic { msg: _, backtrace } => trace_view(backtrace),
            Error::Hex(_, t) => trace_view(t),
            Error::Jni(_, t) => trace_view(t),
            Error::JVM(_, t) => trace_view(t),
            Error::StartJvm(_, t) => trace_view(t),
            Error::JavaLoc(_, t) => trace_view(t),
            Error::Io(_, t) => trace_view(t),
            Error::Time(_, t) => trace_view(t),
            Error::Net(_, t) => trace_view(t),
            Error::Zip(_, t) => trace_view(t),
            Error::Utf(_, t) => trace_view(t),
            Error::Int(_, t) => trace_view(t),
            Error::Postcard(_, t) => trace_view(t),
        }
    }

    /// The backtrace of the error.
    pub fn backtrace(&self) -> (r: Trace)
        ensures
            trace_view(r) == self.trace(),
        decreases self,
    {
        match self {
            Error::Wrapped { msg: _, cause } => cause.backtrace(),
            Error::Exit(_) => None,
            Error::Generic { msg: _, backtrace } => copy_trace(backtrace),
            Error::Hex(_, t) => copy_trace(t),
            Error::Jni(_, t) => copy_trace(t),
            Error::JVM(_, t) => copy_trace(t),
            Error::StartJvm(_, t) => copy_trace(t),
            Error::JavaLoc(_, t) => copy_trace(t),
            Error::Io(_, t) => copy_trace(t),
            Error::Time(_, t) => copy_trace(t),
            Error::Net(_, t) => copy_trace(t),
            Error::Zip(_, t) => copy_trace(t),
            Error::Utf(_, t) => copy_trace(t),
            Error::Int(_, t) => copy_trace(t),
            Error::Postcard(_, t) => copy_trace(t),
        }
    }

    /// An error of the launcher itself, that came up here.
    pub fn generic<M: Into<String>>(msg: M) -> (r: Self)
        ensures
            r matches Error::Generic { msg: m, backtrace: _ } && call_ensures(M::into, (msg,), m)
                && r@ == generic_error(m@),
    {
        let msg = msg.into();
        Error::Generic { msg, backtrace: capture_trace() }
    }

    /// `err` with what was being done when it came up.
    pub fn wrap<M: Into<String>, E: Into<Error>>(msg: M, err: E) -> (r: Self)
        ensures
            r matches Error::Wrapped { msg: m, cause } && call_ensures(M::into, (msg,), m)
                && call_ensures(E::into, (err,), *cause) && r@ == wrapped_error(m@, cause@)
                && r.trace() == cause.trace(),
    {
        let msg = msg.into();
        let cause = err.into();
        Error::Wrapped { msg, cause: Box::new(cause) }
    }

    /// An error of the interface of the virtual machine, that came up here.
    pub fn jni(detail: String) -> (r: Self)
        ensures
            r@ == ErrorView::Jni(detail@),
    {
        Error::Jni(detail, capture_trace())
    }

    /// An error of the options of a virtual machine, that came up here.
    pub fn jvm(detail: String) -> (r: Self)
        ensures
            r@ == ErrorView::JVM(detail@),
    {
        Error::JVM(detail, capture_trace())
    }

    /// An error of the start of a virtual machine, that came up here.
    pub fn start_jvm(detail: String) -> (r: Self)
        ensures
            r@ == ErrorView::StartJvm(detail@),
    {
        Error::StartJvm(detail, capture_trace())
    }

    /// An error of the search for Java, that came up here.
    pub fn java_loc(detail: String) -> (r: Self)
        ensures
            r@ == ErrorView::JavaLoc(detail@),
    {
        Error::JavaLoc(detail, capture_trace())
    }

    /// An error of the file system or a process, that came up here.
    pub fn io(detail: String) -> (r: Self)
        ensures
            r@ == ErrorView::Io(detail@),
    {
        Error::Io(detail, capture_trace())
    }

    /// An error of the clock, that came up here.
    pub fn time(detail: String) -> (r: Self)
        ensures
            r@ == ErrorView::Time(detail@),
    {
        Error::Time(detail, capture_trace())
    }

    /// An error of a download, that came up here.
    pub fn net(detail: String) -> (r: Self)
        ensures
            r@ == ErrorView::Net(detail@),
    {
        Error::Net(detail, capture_trace())
    }

    /// An error of an archive, that came up here.
    pub fn zip(detail: String) -> (r: Self)
        ensures
            r@ == ErrorView::Zip(detail@),
    {
        Error::Zip(detail, capture_trace())
    }

    /// An error of a text that is not UTF-8, that came up here.
    pub fn utf(detail: String) -> (r: Self)
        ensures
            r@ == ErrorView::Utf(detail@),
    {
        Error::Utf(detail, capture_trace())
    }

    /// An error of a text that is no number, that came up here.
    pub fn number(detail: String) -> (r: Self)
        ensures
            r@ == ErrorView::Int(detail@),
    {
        Error::Int(detail, capture_trace())
    }

    /// An error of the format of the meta data, that came up here.
    pub fn postcard(detail: String) -> (r: Self)
        ensures
            r@ == ErrorView::Postcard(detail@),
    {
        Error::Postcard(detail, capture_trace())
    }

    /// Writes the error as text.
    pub fn message(&self) -> (r: String)
        ensures
            r@ == self@.text(),
        decreases self,
    {
        match self {
            Error::Jni(d, _) => cat2("JNI error: ", d.as_str()),
            Error::JVM(d, _) => cat2("JVM error: ", d.as_str()),
            Error::StartJvm(d, _) => cat2("JVM start error: ", d.as_str()),
            Error::JavaLoc(d, _) => cat2("Failed to find Java installation: ", d.as_str()),
            Error::Io(d, _) => cat2("IO error: ", d.as_str()),
            Error::Time(d, _) => cat2("Time error: ", d.as_str()),
            Error::Net(d, _) => cat2("Download error: ", d.as_str()),
            Error::Zip(d, _) => cat2("Zip error: ", d.as_str()),
            Error::Utf(d, _) => cat2("UTF-8 error: ", d.as_str()),
            Error::Hex(h, _) => {
                let detail = h.message();
                cat2("Hex error: ", detail.as_str())
            },
            Error::Int(d, _) => cat2("Parse error: ", d.as_str()),
            Error::Postcard(d, _) => cat2("Serialization error: ", d.as_str()),
            Error::Wrapped { msg, cause } => {
                let inner = cause.message();
                cat3(msg.as_str(), "\nCaused by: ", inner.as_str())
            },
            Error::Generic { msg, backtrace: _ } => msg.clone(),
            Error::Exit(code) => {
                let number = decimal(*code as u64);
                cat2("Exiting with code ", number.as_str())
            },
        }
    }
}

impl From<HexError> for Error {
    fn from(e: HexError) -> (r: Self)
        ensures
            r@ == ErrorView::Hex(e),
    {
        Error::Hex(e, capture_trace())
    }
}

/// Two errors from one cause may differ in their backtraces, so no one value is
/// stated for the conversion.
impl vstd::std_specs::convert::FromSpecImpl<HexError> for Error {
    open spec fn obeys_from_spec() -> bool {
        false
    }

    open spec fn from_spec(e: HexError) -> Self {
        Error::Hex(e, None)
    }
}

fn same_error(a: &Error, b: &Error) -> (r: bool)
    ensures
        r == (a@ == b@),
    decreases a,
{
    match (a, b) {
        (Error::Jni(x, _), Error::Jni(y, _)) => same(x.as_str(), y.as_str()),
        (Error::JVM(x, _), Error::JVM(y, _)) => same(x.as_str(), y.as_str()),
        (Error::StartJvm(x, _), Error::StartJvm(y, _)) => same(x.as_str(), y.as_str()),
        (Error::JavaLoc(x, _), Error::JavaLoc(y, _)) => same(x.as_str(), y.as_str()),
        (Error::Io(x, _), Error::Io(y, _)) => same(x.as_str(), y.as_str()),
        (Error::Time(x, _), Error::Time(y, _)) => same(x.as_str(), y.as_str()),
        (Error::Net(x, _), Error::Net(y, _)) => same(x.as_str(), y.as_str()),
        (Error::Zip(x, _), Error::Zip(y, _)) => same(x.as_str(), y.as_str()),
        (Error::Utf(x, _), Error::Utf(y, _)) => same(x.as_str(), y.as_str()),
        (Error::Int(x, _), Error::Int(y, _)) => same(x.as_str(), y.as_str()),
        (Error::Postcard(x, _), Error::Postcard(y, _)) => same(x.as_str(), y.as_str()),
        (Error::Hex(x, _), Error::Hex(y, _)) => *x == *y,
        (
            Error::Wrapped { msg: x, cause: c },
            Error::Wrapped { msg: y, cause: d },
        ) => same(x.as_str(), y.as_str()) && same_error(c, d),
        (
            Error::Generic { msg: x, backtrace: _ },
            Error::Generic { msg: y, backtrace: _ },
        ) => same(x.as_str(), y.as_str()),
        (Error::Exit(x), Error::Exit(y)) => *x == *y,
        _ => false,
    }
}

/// Two errors are equal where they say the same, wherever they came up.
impl PartialEq for Error {
    fn eq(&self, other: &Self) -> (r: bool) {
        same_error(self, other)
    }
}

impl vstd::std_specs::cmp::PartialEqSpecImpl for Error {
    open spec fn obeys_eq_spec() -> bool {
        true
    }

    open spec fn eq_spec(&self, other: &Self) -> bool {
        self@ == other@
    }
}

impl Eq for Error {

}

/// What can be the message of an error.
pub trait IntoErrorMsg: Sized {
    /// Whether the message can be asked for.
    spec fn ready(self) -> bool;

    /// Whether `msg` is a message that comes out.
    spec fn gives(self, msg: Seq<char>) -> bool;

    fn into_error_msg(self) -> (r: String)
        requires
            self.ready(),
        ensures
            self.gives(r@),
    ;
}

impl IntoErrorMsg for &'static str {
    open spec fn ready(self) -> bool {
        true
    }

    open spec fn gives(self, msg: Seq<char>) -> bool {
        msg == self@
    }

    fn into_error_msg(self) -> (r: String) {
        self.to_string()
    }
}

impl IntoErrorMsg for String {
    open spec fn ready(self) -> bool {
        true
    }

    open spec fn gives(self, msg: Seq<char>) -> bool {
        msg == self@
    }

    fn into_error_msg(self) -> (r: String) {
        self
    }
}

/// A function that writes the message is called only where there is an error.
impl<S: Into<String>, F: FnOnce() -> S> IntoErrorMsg for F {
    open spec fn ready(self) -> bool {
        call_requires(self, ())
    }

    open spec fn gives(self, msg: Seq<char>) -> bool {
        exists|s: S, t: String|
            call_ensures(self, (), s) && call_ensures(S::into, (s,), t) && t@ == msg
    }

    fn into_error_msg(self) -> (r: String) {
        let s = self();
        s.into()
    }
}

/// A result whose error can be given context.
pub trait WithContext<E: Into<Error>>: Sized {
    type Output;

    /// Whether there is an error.
    spec fn fails(self) -> bool;

    /// Whether `out` is the result unchanged but for context on its error.
    spec fn kept_in(self, out: Self::Output) -> bool;

    /// The context of the error in `out`.
    spec fn context_of(out: Self::Output) -> Seq<char>;

    fn err_ctx<M: IntoErrorMsg>(self, msg: M) -> (r: Self::Output)
        requires
            self.fails() ==> msg.ready(),
        ensures
            self.kept_in(r),
            self.fails() ==> msg.gives(Self::context_of(r)),
    ;
}

impl<T, E: Into<Error>> WithContext<E> for Result<T, E> {
    type Output = Result<T, Error>;

    open spec fn fails(self) -> bool {
        self is Err
    }

    open spec fn kept_in(self, out: Result<T, Error>) -> bool {
        match self {
            Ok(t) => out == Ok::<T, Error>(t),
            Err(e) => out matches Err(Error::Wrapped { msg: _, cause }) && call_ensures(
                E::into,
                (e,),
                *cause,
            ),
        }
    }

    open spec fn context_of(out: Result<T, Error>) -> Seq<char> {
        match out {
            Err(Error::Wrapped { msg, cause: _ }) => msg@,
            _ => Seq::empty(),
        }
    }

    fn err_ctx<M: IntoErrorMsg>(self, msg: M) -> (r: Result<T, Error>) {
        match self {
            Ok(t) => Ok(t),
            Err(e) => Err(Error::wrap(msg.into_error_msg(), e)),
        }
    }
}

/// A result whose error can be replaced by an error of the launcher itself.
pub trait MapErrGeneric<E>: Sized {
    type Output;

    /// The error, where there is one.
    spec fn error(self) -> Option<E>;

    /// Whether `out` is the result unchanged but for its error, which is one of
    /// the launcher itself.
    spec fn kept_in(self, out: Self::Output) -> bool;

    /// The message of the error in `out`.
    spec fn message_of(out: Self::Output) -> String;

    fn map_err_generic<S: Into<String>, F: FnOnce(E) -> S>(self, f: F) -> (r: Self::Output)
        requires
            self.error() matches Some(e) ==> call_requires(f, (e,)),
        ensures
            self.kept_in(r),
            self.error() matches Some(e) ==> exists|s: S| #[trigger]
                call_ensures(f, (e,), s) && call_ensures(S::into, (s,), Self::message_of(r)),
    ;
}

impl<T, E> MapErrGeneric<E> for Result<T, E> {
    type Output = Result<T, Error>;

    open spec fn error(self) -> Option<E> {
        match self {
            Ok(_) => None,
            Err(e) => Some(e),
        }
    }

    open spec fn kept_in(self, out: Result<T, Error>) -> bool {
        match self {
            Ok(t) => out == Ok::<T, Error>(t),
            Err(_) => out matches Err(Error::Generic { msg: _, backtrace: _ }),
        }
    }

    open spec fn message_of(out: Result<T, Error>) -> String {
        match out {
            Err(Error::Generic { msg, backtrace: _ }) => msg,
            _ => arbitrary(),
        }
    }

    fn map_err_generic<S: Into<String>, F: FnOnce(E) -> S>(self, f: F) -> (r: Result<T, Error>) {
        match self {
            Ok(t) => Ok(t),
            Err(e) => Err(Error::generic(f(e))),
        }
    }
}

/// A result whose error is one of those that an `Error` is made from.
pub trait IntoError<T>: Sized {
    /// Whether `out` is the result over the error of the launcher.
    spec fn into_error_done(self, out: Result<T, Error>) -> bool;

    fn into_error(self) -> (r: Result<T, Error>)
        ensures
            self.into_error_done(r),
    ;
}

impl<T, E: Into<Error>> IntoError<T> for Result<T, E> {
    open spec fn into_error_done(self, out: Result<T, Error>) -> bool {
        match self {
            Ok(t) => out == Ok::<T, Error>(t),
            Err(e) => out is Err && call_ensures(E::into, (e,), out->Err_0),
        }
    }

    fn into_error(self) -> (r: Result<T, Error>) {
        match self {
            Ok(t) => Ok(t),
            Err(e) => Err(e.into()),
        }
    }
}

/// Context on an error hides nothing: the text of the cause ends the text of
/// the whole, and the context begins it.
pub proof fn law_context_shows_cause(msg: Seq<char>, cause: ErrorView)
    ensures
        wrapped_error(msg, cause).text() == msg + "\nCaused by: "@ + cause.text(),
        cause.text().is_suffix_of(wrapped_error(msg, cause).text()),
        msg.is_prefix_of(wrapped_error(msg, cause).text()),
{
    let whole = wrapped_error(msg, cause).text();
    assert(whole == msg + "\nCaused by: "@ + cause.text());
    assert(whole.subrange(
        whole.len() - cause.text().len(),
        whole.len() as int,
    ) =~= cause.text());
    assert(whole.subrange(0, msg.len() as int) =~= msg);
}

/// The text of an error says what kind it is and then its detail, unless it is
/// one of the launcher itself, which is its message alone.
pub proof fn law_error_texts(d: Seq<char>, h: HexError, code: u8)
    ensures
        ErrorView::Jni(d).text() == "JNI error: "@ + d,
        ErrorView::JVM(d).text() == "JVM error: "@ + d,
        ErrorView::StartJvm(d).text() == "JVM start error: "@ + d,
        ErrorView::JavaLoc(d).text() == "Failed to find Java installation: "@ + d,
        ErrorView::Io(d).text() == "IO error: "@ + d,
        ErrorView::Time(d).text() == "Time error: "@ + d,
        ErrorView::Net(d).text() == "Download error: "@ + d,
        ErrorView::Zip(d).text() == "Zip error: "@ + d,
        ErrorView::Utf(d).text() == "UTF-8 error: "@ + d,
        ErrorView::Hex(h).text() == "Hex error: "@ + h.text(),
        ErrorView::Int(d).text() == "Parse error: "@ + d,
        ErrorView::Postcard(d).text() == "Serialization error: "@ + d,
        generic_error(d).text() == d,
        ErrorView::Exit(code).text() == "Exiting with code "@ + decimal_of(code as nat),
{
}

/// The text of why a text is not hexadecimal names the character and its place,
/// or says what is wrong with the length.
pub proof fn law_hex_error_texts(c: char, index: usize)
    ensures
        (HexError::InvalidHexCharacter { c, index }).text() == "InvalidHexCharacter { c: "@
            + char_debug_text(c) + ", index: "@ + decimal_of(index as nat) + " }"@,
        HexError::OddLength.text() == "OddLength"@,
        HexError::InvalidStringLength.text() == "InvalidStringLength"@,
{
    let whole = (HexError::InvalidHexCharacter { c, index }).text();
    assert(whole =~= "InvalidHexCharacter { c: "@ + char_debug_text(c) + ", index: "@ + decimal_of(
        index as nat,
    ) + " }"@);
}

/// What an error says keeps its kind and its detail, and leaves out its
/// backtrace alone.
pub proof fn law_error_view(d: String, t: Trace, h: HexError, cause: Box<Error>, code: u8)
    ensures
        Error::Jni(d, t)@ == ErrorView::Jni(d@),
        Error::JVM(d, t)@ == ErrorView::JVM(d@),
        Error::StartJvm(d, t)@ == ErrorView::StartJvm(d@),
        Error::JavaLoc(d, t)@ == ErrorView::JavaLoc(d@),
        Error::Io(d, t)@ == ErrorView::Io(d@),
        Error::Time(d, t)@ == ErrorView::Time(d@),
        Error::Net(d, t)@ == ErrorView::Net(d@),
        Error::Zip(d, t)@ == ErrorView::Zip(d@),
        Error::Utf(d, t)@ == ErrorView::Utf(d@),
        Error::Hex(h, t)@ == ErrorView::Hex(h),
        Error::Int(d, t)@ == ErrorView::Int(d@),
        Error::Postcard(d, t)@ == ErrorView::Postcard(d@),
        (Error::Wrapped { msg: d, cause })@ == (ErrorView::Wrapped {
            msg: d@,
            cause: Box::new((*cause)@),
        }),
        (Error::Generic { msg: d, backtrace: t })@ == (ErrorView::Generic { msg: d@ }),
        Error::Exit(code)@ == ErrorView::Exit(code),
{
}

/// The backtrace of an error is the one that was captured where it came up, and
/// context does not change it; an exit code has none.
pub proof fn law_error_trace(d: String, t: String, h: HexError, cause: Box<Error>, code: u8)
    ensures
        Error::Jni(d, Some(t)).trace() == Some(t@) && Error::Jni(d, None).trace() is None,
        Error::JVM(d, Some(t)).trace() == Some(t@) && Error::JVM(d, None).trace() is None,
        Error::StartJvm(d, Some(t)).trace() == Some(t@) && Error::StartJvm(d, None).trace() is None,
        Error::JavaLoc(d, Some(t)).trace() == Some(t@) && Error::JavaLoc(d, None).trace() is None,
        Error::Io(d, Some(t)).trace() == Some(t@) && Error::Io(d, None).trace() is None,
        Error::Time(d, Some(t)).trace() == Some(t@) && Error::Time(d, None).trace() is None,
        Error::Net(d, Some(t)).trace() == Some(t@) && Error::Net(d, None).trace() is None,
        Error::Zip(d, Some(t)).trace() == Some(t@) && Error::Zip(d, None).trace() is None,
        Error::Utf(d, Some(t)).trace() == Some(t@) && Error::Utf(d, None).trace() is None,
        Error::Hex(h, Some(t)).trace() == Some(t@) && Error::Hex(h, None).trace() is None,
        Error::Int(d, Some(t)).trace() == Some(t@) && Error::Int(d, None).trace() is None,
        Error::Postcard(d, Some(t)).trace() == Some(t@) && Error::Postcard(d, None).trace() is None,
        (Error::Generic { msg: d, backtrace: Some(t) }).trace() == Some(t@),
        (Error::Generic { msg: d, backtrace: None }).trace() is None,
        (Error::Wrapped { msg: d, cause }).trace() == (*cause).trace(),
        Error::Exit(code).trace() is None,
{
}

/// A result is seen with its value, or with what its error says, and with the
/// backtrace of that error.
pub proof fn law_seen<T>(value: T, e: Error)
    ensures
        seen::<T>(Ok(value)) == Ok::<T, ErrorView>(value),
        seen::<T>(Err(e)) == Err::<T, ErrorView>(e@),
        result_trace::<T>(Ok(value)) is None,
        result_trace::<T>(Err(e)) == e.trace(),
        error_in::<T>(Ok(value)) is None,
        error_in::<T>(Err(e)) == Some(e),
{
}

/// Context leaves a value alone and hides nothing of an error: the text begins
/// with the context and ends in the text of the error.
pub proof fn law_context<T>(value: T, e: ErrorView, msg: Seq<char>)
    ensures
        in_context::<T>(Ok(value), msg) == Ok::<T, ErrorView>(value),
        in_context::<T>(Err(e), msg) is Err,
        in_context::<T>(Err(e), msg)->Err_0.text() == msg + "\nCaused by: "@ + e.text(),
        in_context::<T>(Err(e), msg)->Err_0 matches ErrorView::Wrapped { msg: m, cause } && m == msg
            && *cause == e,
{
}

/// A result that is put in context is the same where it has a value; where it has
/// an error it has that error still, with its backtrace, after the context.
pub proof fn law_put_in_context<T>(r: Result<T, Error>, out: Result<T, Error>, msg: Seq<char>)
    requires
        put_in_context(r, out, msg),
    ensures
        r is Ok ==> out == r,
        r matches Err(e) ==> {
            &&& out is Err
            &&& out->Err_0@.text() == msg + "\nCaused by: "@ + e@.text()
            &&& out->Err_0.trace() == e.trace()
        },
{
}

/// An error that comes out has the backtrace of the one that went in.
pub proof fn law_trace_is_kept<T>(e: Error, out: Error)
    ensures
        keeps_trace::<T>(Some(e), Some(Err(out))) <==> out.trace() == e.trace(),
{
}

/// Two errors are equal exactly where they say the same.
pub proof fn law_errors_are_equal(a: Error, b: Error)
    ensures
        vstd::std_specs::cmp::PartialEqSpec::eq_spec(&a, &b) <==> a@ == b@,
{
}

/// A text gives itself as the message of an error, and nothing else.
pub proof fn law_text_is_its_message(literal: &'static str, text: String, msg: Seq<char>)
    ensures
        IntoErrorMsg::ready(literal) && IntoErrorMsg::ready(text),
        IntoErrorMsg::gives(literal, msg) <==> msg == literal@,
        IntoErrorMsg::gives(text, msg) <==> msg == text@,
{
}

/// A result whose error is replaced keeps its value, or has an error of the
/// launcher itself, whose message is the one that was made.
pub proof fn law_replaced_error<T, E>(value: T, e: E, out: Result<T, Error>, msg: String, t: Trace)
    ensures
        MapErrGeneric::<E>::kept_in(Ok::<T, E>(value), out) <==> out == Ok::<T, Error>(value),
        MapErrGeneric::<E>::kept_in(Err::<T, E>(e), out) <==> (out matches Err(Error::Generic {
            msg: _,
            backtrace: _,
        })),
        MapErrGeneric::<E>::error(Ok::<T, E>(value)) is None,
        MapErrGeneric::<E>::error(Err::<T, E>(e)) == Some(e),
        <Result<T, E> as MapErrGeneric<E>>::message_of(
            Err(Error::Generic { msg, backtrace: t }),
        ) == msg,
{
}

/// The context of a result is the message of the error that holds its cause, and
/// a result is put in context only where it has an error.
pub proof fn law_context_of<T, E: Into<Error>>(r: Result<T, E>, msg: String, cause: Box<Error>)
    ensures
        WithContext::<E>::fails(r) <==> r is Err,
        <Result<T, E> as WithContext<E>>::context_of(Err(Error::Wrapped { msg, cause })) == msg@,
        forall|out: Result<T, Error>| #[trigger]
            WithContext::<E>::kept_in(r, out) ==> match r {
                Ok(value) => out == Ok::<T, Error>(value),
                Err(_) => out matches Err(e) && e is Wrapped,
            },
{
}

/// A result whose error becomes one of the launcher keeps its value.
pub proof fn law_into_error<T, E: Into<Error>>(r: Result<T, E>, out: Result<T, Error>)
    requires
        IntoError::<T>::into_error_done(r, out),
    ensures
        r matches Ok(value) ==> out == Ok::<T, Error>(value),
        r matches Err(e) ==> out is Err && call_ensures(E::into, (e,), out->Err_0),
{
}

} // verus!
