//! The Java installation and the log of the Java virtual machine.

use crate::errors::{
    generic_error, result_trace, seen, wrapped_error, Error, ErrorView,
};
use crate::outside::{all_digits, digits_value, parse_u16, u16_error_text, u16_of};
use crate::path::{
    law_child_is_written, plain_name, takes_names, written_separator, FilePath, PathView, Platform,
};
use crate::text::{
    before, before_char, cat2, cat3, chars_of, decimal, decimal_of, decode_lossy, first_index,
    first_line, first_line_of, index_of, law_before, law_first_line, law_without_suffix,
    lemma_first_index_is, readable, stars, strip_suffix, without_suffix,
};
use vstd::prelude::*;
use vstd::string::*;
use vstd::utf8::{decode_utf8, encode_utf8, is_ascii_chars, is_char_boundary};

verus! {

/// The level of a message in the log.
#[derive(Clone, Copy, Debug, PartialEq, Eq, Structural)]
pub enum LogKind {
    Info,
    Error,
}

/// One of the two standard streams for output.
#[derive(Clone, Copy, Debug, PartialEq, Eq, Structural)]
pub enum Stream {
    Output,
    Error,
}

/// How a message gets into the log of the virtual machine.
#[derive(Debug, PartialEq, Eq)]
pub struct LogPlan {
    /// The method of the logger that is called.
    pub method: String,
    /// What it is called with, in order.
    pub lines: Vec<String>,
}

/// A line for the user.
#[derive(Debug, PartialEq, Eq)]
pub struct Notice {
    pub stream: Stream,
    pub text: String,
}

impl View for Notice {
    type V = (Stream, Seq<char>);

    open spec fn view(&self) -> (Stream, Seq<char>) {
        (self.stream, self.text@)
    }
}

impl DeepView for Notice {
    type V = (Stream, Seq<char>);

    open spec fn deep_view(&self) -> (Stream, Seq<char>) {
        self@
    }
}

/// A line of stars as long as the first line of the message is in bytes.
pub open spec fn bar_for(msg: Seq<char>) -> Seq<char> {
    let first = match first_line_of(msg) {
        Some(line) => line,
        None => Seq::empty(),
    };
    Seq::new(encode_utf8(first).len(), |i: int| '*')
}

/// What is written for a message: itself, and around an error a bar.
pub open spec fn log_lines(kind: LogKind, msg: Seq<char>) -> Seq<Seq<char>> {
    match kind {
        LogKind::Info => seq![msg],
        LogKind::Error => seq![bar_for(msg), msg, bar_for(msg)],
    }
}

/// Plans how a message is logged.
pub fn log(kind: LogKind, msg: &str) -> (r: LogPlan)
    ensures
        r.lines.deep_view() == log_lines(kind, msg@),
        r.method@ == (match kind {
            LogKind::Info => "info"@,
            LogKind::Error => "error"@,
        }),
{
    let mut lines: Vec<String> = Vec::new();
    match kind {
        LogKind::Info => {
            lines.push(msg.to_string());
            assert(lines.deep_view() =~= log_lines(kind, msg@));
            LogPlan { method: "info".to_string(), lines }
        },
        LogKind::Error => {
            let first = match first_line(msg) {
                Some(line) => line,
                None => String::new(),
            };
            let bar = stars(first.as_str().as_bytes().len());
            lines.push(bar.clone());
            lines.push(msg.to_string());
            lines.push(bar);
            assert(lines.deep_view() =~= log_lines(kind, msg@));
            LogPlan { method: "error".to_string(), lines }
        },
    }
}

/// The stream for messages of a kind that cannot be logged.
pub open spec fn stream_of(kind: LogKind) -> Stream {
    match kind {
        LogKind::Info => Stream::Output,
        LogKind::Error => Stream::Error,
    }
}

/// What is printed once a message was to be logged: the message itself, without
/// a bar, exactly where logging failed, so that it is never lost.
pub fn log_ended(kind: LogKind, msg: &str, logged: Result<(), Error>) -> (r: Option<Notice>)
    ensures
        r is None <==> logged is Ok,
        r matches Some(n) ==> n@ == (stream_of(kind), msg@),
{
    match logged {
        Ok(()) => None,
        Err(_) => {
            let stream = match kind {
                LogKind::Info => Stream::Output,
                LogKind::Error => Stream::Error,
            };
            Some(Notice { stream, text: msg.to_string() })
        },
    }
}

/// The program that starts Java, in an installation at `base`.
pub open spec fn java_program(base: PathView) -> PathView {
    base.child("bin"@).child(
        match base.platform {
            Platform::Unix => "java"@,
            Platform::Windows => "java.exe"@,
        },
    )
}

/// The program that starts Java, in an installation at `base`.
pub fn java_bin(base: &FilePath) -> (r: FilePath)
    ensures
        r@ == java_program(base@),
{
    proof {
        reveal_strlit("bin");
        reveal_strlit("java");
        reveal_strlit("java.exe");
        assert("bin"@ =~= seq!['b', 'i', 'n']);
        assert(plain_name("bin"@));
        assert("java"@ =~= seq!['j', 'a', 'v', 'a']);
        assert(plain_name("java"@));
        assert("java.exe"@ =~= seq!['j', 'a', 'v', 'a', '.', 'e', 'x', 'e']);
        assert(plain_name("java.exe"@));
    }
    let bin = base.child("bin");
    match base.platform() {
        Platform::Unix => bin.child("java"),
        Platform::Windows => bin.child("java.exe"),
    }
}

/// What stands in `s` from byte `at` on.
pub open spec fn byte_tail(s: Seq<char>, at: int) -> Seq<char> {
    decode_utf8(encode_utf8(s).skip(at))
}

/// What stands in `s` before byte `at`.
pub open spec fn byte_head(s: Seq<char>, at: int) -> Seq<char> {
    decode_utf8(encode_utf8(s).take(at))
}

/// Where the text after the first quote of the line starts. The place is
/// counted in characters and taken in bytes.
pub open spec fn version_start(line: Seq<char>) -> int {
    first_index(line, '"') + 1
}

/// The text after the first quote of the line.
pub open spec fn after_quote(line: Seq<char>) -> Seq<char> {
    byte_tail(line, version_start(line))
}

/// The places at which the line is cut are places between characters.
pub open spec fn version_readable(text: Seq<char>) -> bool {
    first_line_of(text) matches Some(line) ==> line.contains('"') ==> {
        let rest = after_quote(line);
        &&& is_char_boundary(encode_utf8(line), version_start(line))
        &&& rest.contains('"') ==> is_char_boundary(encode_utf8(rest), first_index(rest, '"'))
    }
}

/// The text between the first two quotes in the first line, where there are
/// two; `None` where there is no line at all.
pub open spec fn quoted_version(text: Seq<char>) -> Option<Option<Seq<char>>> {
    match first_line_of(text) {
        None => None,
        Some(line) => {
            let rest = after_quote(line);
            if line.contains('"') && rest.contains('"') {
                Some(Some(byte_head(rest, first_index(rest, '"'))))
            } else {
                Some(None)
            }
        },
    }
}

/// The major version in a version: what stands before the first dot, without
/// the mark of an early access build.
pub open spec fn major_part(version: Seq<char>) -> Seq<char> {
    before(without_suffix(version, "-ea"@), '.')
}

/// The lowest major version of Java that the launcher accepts.
pub const MIN_JAVA_VERSION: u16 = 26;

/// What comes of checking what `java -version` printed: the launcher goes on,
/// ends with exit code 1 where the version is too low, or fails where no
/// version can be read.
pub open spec fn version_outcome(text: Seq<char>) -> Result<(), ErrorView> {
    match quoted_version(text) {
        None => Err(generic_error("Failed to parse 'java -version' (no output)"@)),
        Some(None) => Err(
            generic_error("Failed to parse 'java -version' (no version number found)"@),
        ),
        Some(Some(version)) => match u16_of(major_part(version)) {
            None => Err(
                wrapped_error(
                    "Failed to parse 'java -version' (unrecognized version number)"@,
                    ErrorView::Int(u16_error_text(major_part(version))),
                ),
            ),
            Some(n) => if n < MIN_JAVA_VERSION {
                Err(ErrorView::Exit(1))
            } else {
                Ok(())
            },
        },
    }
}

/// What the user is told of a version that is too low.
pub open spec fn version_notice(text: Seq<char>) -> Option<Seq<char>> {
    match quoted_version(text) {
        Some(Some(version)) => match u16_of(major_part(version)) {
            Some(n) => if n < MIN_JAVA_VERSION {
                Some(
                    "Unsupported Java version: Java 26 or higher is required, found: "@ + decimal_of(
                        n,
                    ),
                )
            } else {
                None
            },
            None => None,
        },
        _ => None,
    }
}

/// The outcome of a check, and what the user is told of it.
#[derive(Debug, PartialEq, Eq)]
pub struct VersionCheck {
    pub notice: Option<String>,
    pub result: Result<(), Error>,
}

impl VersionCheck {
    /// The notice over its characters.
    pub open spec fn told(self) -> Option<Seq<char>> {
        match self.notice {
            Some(t) => Some(t@),
            None => None,
        }
    }
}

/// How the check of an installation begins.
#[derive(Debug, PartialEq, Eq)]
pub enum JavaCheck {
    /// The check is over, and nothing is run.
    Over(VersionCheck),
    /// Run the program with the argument `-version`, and check what it prints.
    Run(FilePath),
}

/// Begins to check the version of the installation at `java_home`. A check that
/// is switched off is over at once: it succeeds, whatever the installation
/// holds, and nothing is told.
pub fn start_java_check(switched_off: bool, java_home: &FilePath) -> (r: JavaCheck)
    ensures
        switched_off ==> (r matches JavaCheck::Over(check) && check.told() is None && check.result
            is Ok),
        !switched_off ==> (r matches JavaCheck::Run(java) && java@ == java_program(java_home@)),
{
    if switched_off {
        JavaCheck::Over(VersionCheck { notice: None, result: Ok(()) })
    } else {
        JavaCheck::Run(java_bin(java_home))
    }
}

fn failed(e: Error) -> (r: VersionCheck)
    ensures
        r.told() is None,
        r.result == Err::<(), Error>(e),
{
    VersionCheck { notice: None, result: Err(e) }
}

/// Checks the version in what `java -version` printed.
pub fn check_java_version(version_text: &str) -> (r: VersionCheck)
    requires
        version_readable(version_text@),
    ensures
        seen(r.result) == version_outcome(version_text@),
        r.told() == version_notice(version_text@),
{
    let line = match first_line(version_text) {
        Some(line) => line,
        None => return failed(Error::generic("Failed to parse 'java -version' (no output)")),
    };
    let line_chars = chars_of(line.as_str());
    let quote = index_of(&line_chars, '"');
    proof {
        crate::text::lemma_first_index(line@, '"');
    }
    if quote == line_chars.len() {
        return failed(
            Error::generic("Failed to parse 'java -version' (no version number found)"),
        );
    }
    let rest = line.as_str().split_at(quote + 1).1;
    proof {
        assert(encode_utf8(line@).skip(quote + 1) =~= encode_utf8(line@).subrange(
            quote + 1,
            encode_utf8(line@).len() as int,
        ));
        vstd::utf8::encode_utf8_decode_utf8(rest@);
        assert(rest@ == after_quote(line@));
        crate::text::lemma_first_index(rest@, '"');
    }
    let rest_chars = chars_of(rest);
    let end = index_of(&rest_chars, '"');
    if end == rest_chars.len() {
        return failed(
            Error::generic("Failed to parse 'java -version' (no version number found)"),
        );
    }
    let version = rest.split_at(end).0;
    proof {
        assert(encode_utf8(rest@).take(end as int) =~= encode_utf8(rest@).subrange(0, end as int));
        vstd::utf8::encode_utf8_decode_utf8(version@);
        assert(version@ == byte_head(rest@, end as int));
    }
    let version = strip_suffix(version, "-ea");
    let major = before_char(version.as_str(), '.');
    match parse_u16(major.as_str()) {
        Ok(n) => {
            if n < MIN_JAVA_VERSION {
                let found = decimal(n as u64);
                VersionCheck {
                    notice: Some(
                        cat2(
                            "Unsupported Java version: Java 26 or higher is required, found: ",
                            found.as_str(),
                        ),
                    ),
                    result: Err(Error::Exit(1)),
                }
            } else {
                VersionCheck { notice: None, result: Ok(()) }
            }
        },
        Err(detail) => {
            let cause = Error::number(detail);
            assert(cause@ == ErrorView::Int(detail@));
            failed(
                Error::wrap(
                    "Failed to parse 'java -version' (unrecognized version number)",
                    cause,
                ),
            )
        },
    }
}

/// Whether the version in a text can be read without cutting a character.
pub fn is_version_readable(version_text: &str) -> (r: bool)
    ensures
        r == version_readable(version_text@),
{
    let line = match first_line(version_text) {
        Some(line) => line,
        None => return true,
    };
    let line_chars = chars_of(line.as_str());
    let quote = index_of(&line_chars, '"');
    proof {
        crate::text::lemma_first_index(line@, '"');
    }
    if quote == line_chars.len() {
        return true;
    }
    if !line.as_str().is_char_boundary(quote + 1) {
        return false;
    }
    let rest = line.as_str().split_at(quote + 1).1;
    proof {
        assert(encode_utf8(line@).skip(quote + 1) =~= encode_utf8(line@).subrange(
            quote + 1,
            encode_utf8(line@).len() as int,
        ));
        vstd::utf8::encode_utf8_decode_utf8(rest@);
        assert(rest@ == after_quote(line@));
        crate::text::lemma_first_index(rest@, '"');
    }
    let rest_chars = chars_of(rest);
    let end = index_of(&rest_chars, '"');
    end == rest_chars.len() || rest.is_char_boundary(end)
}

/// Checks the version in the output of `java -version`, whose program is
/// `java`. `None` where the version cannot be read without cutting a character.
pub fn check_java_output(java: &FilePath, output: Result<Vec<u8>, Error>) -> (r: Option<
    VersionCheck,
>)
    ensures
        match output {
            Err(e) => {
                &&& r matches Some(check)
                &&& check.told() is None
                &&& seen(check.result) == Err::<(), ErrorView>(
                    wrapped_error(
                        "Failed to execute 'java -version' command ("@ + java@.shown() + ")"@,
                        e@,
                    ),
                )
                &&& result_trace(check.result) == e.trace()
            },
            Ok(bytes) => {
                &&& r is Some <==> version_readable(readable(bytes@))
                &&& r matches Some(check) ==> seen(check.result) == version_outcome(
                    readable(bytes@),
                ) && check.told() == version_notice(readable(bytes@))
            },
        },
{
    match output {
        Err(e) => {
            let shown = java.display();
            let context = cat3("Failed to execute 'java -version' command (", shown.as_str(), ")");
            Some(failed(Error::wrap(context, e)))
        },
        Ok(bytes) => {
            let text = decode_lossy(bytes.as_slice());
            if is_version_readable(text.as_str()) {
                Some(check_java_version(text.as_str()))
            } else {
                None
            }
        },
    }
}

/// The encoding of two texts in a row is that of the first and then that of the
/// second, and a character begins between them.
pub proof fn lemma_encode_parts(a: Seq<char>, b: Seq<char>)
    ensures
        encode_utf8(a + b) == encode_utf8(a) + encode_utf8(b),
        is_char_boundary(encode_utf8(a + b), encode_utf8(a).len() as int),
    decreases a.len(),
{
    let whole = a + b;
    vstd::utf8::encode_utf8_valid_utf8(whole);
    if a.len() == 0 {
        assert(whole =~= b);
        assert(encode_utf8(a) + encode_utf8(b) =~= encode_utf8(b));
    } else {
        let rest = a.drop_first();
        assert(whole.drop_first() =~= rest + b);
        lemma_encode_parts(rest, b);
        vstd::utf8::encode_utf8_first_scalar(whole);
        let head = vstd::utf8::encode_scalar(a[0] as u32);
        assert(whole[0] == a[0]);
        assert(encode_utf8(whole) == head + encode_utf8(rest + b));
        assert(encode_utf8(a) == head + encode_utf8(rest));
        assert(head + (encode_utf8(rest) + encode_utf8(b)) =~= head + encode_utf8(rest)
            + encode_utf8(b));
        let bytes = encode_utf8(whole);
        assert(vstd::utf8::pop_first_scalar(bytes) =~= encode_utf8(rest + b));
    }
}

/// The version is what stands between the first two quotes of the first line,
/// where there is nothing but ASCII before the second of them. Java is then
/// accepted exactly where the number before the first dot of the version, read
/// without the mark of an early access build, is 26 at least.
pub proof fn law_version_in_quotes(
    text: Seq<char>,
    prefix: Seq<char>,
    version: Seq<char>,
    suffix: Seq<char>,
)
    requires
        first_line_of(text) == Some(prefix + seq!['"'] + version + seq!['"'] + suffix),
        is_ascii_chars(prefix),
        is_ascii_chars(version),
        !prefix.contains('"'),
        !version.contains('"'),
    ensures
        version_readable(text),
        quoted_version(text) == Some(Some(version)),
        version_outcome(text) is Ok <==> (u16_of(major_part(version)) matches Some(n) && n
            >= MIN_JAVA_VERSION),
{
    let quote = seq!['"'];
    let line = prefix + quote + version + quote + suffix;
    let head = prefix + quote;
    let rest = version + quote + suffix;
    let tail = quote + suffix;
    assert(line =~= head + rest);
    assert(rest =~= version + tail);

    crate::text::lemma_first_index(line, '"');
    assert(line[prefix.len() as int] == '"');
    assert(first_index(line, '"') == prefix.len()) by {
        let f = first_index(line, '"');
        if f < prefix.len() {
            assert(prefix[f] == line[f]);
            assert(prefix.contains('"'));
        }
    }
    assert(is_ascii_chars(head));
    vstd::utf8::is_ascii_chars_encode_utf8(head);
    lemma_encode_parts(head, rest);
    assert(version_start(line) == encode_utf8(head).len());
    assert(encode_utf8(line).skip(version_start(line)) =~= encode_utf8(rest));
    vstd::utf8::encode_utf8_decode_utf8(rest);
    assert(after_quote(line) == rest);

    crate::text::lemma_first_index(rest, '"');
    assert(rest[version.len() as int] == '"');
    assert(first_index(rest, '"') == version.len()) by {
        let f = first_index(rest, '"');
        if f < version.len() {
            assert(version[f] == rest[f]);
            assert(version.contains('"'));
        }
    }
    vstd::utf8::is_ascii_chars_encode_utf8(version);
    lemma_encode_parts(version, tail);
    assert(encode_utf8(rest).take(version.len() as int) =~= encode_utf8(version));
    vstd::utf8::encode_utf8_decode_utf8(version);
}

/// The user is told of a version that is too low exactly where the launcher
/// ends with exit code 1 because of it.
pub proof fn law_low_version_is_told(text: Seq<char>)
    ensures
        version_notice(text) is Some <==> version_outcome(text) == Err::<(), ErrorView>(
            ErrorView::Exit(1),
        ),
{
}

/// The program that starts Java is `bin/java` in the installation, and
/// `bin\java.exe` on Windows.
pub proof fn law_java_program(base: PathView, text: Seq<char>)
    requires
        base.text() == Some(text),
        takes_names(base.platform, text),
    ensures
        base.platform == Platform::Unix ==> java_program(base).text() == Some(text + "/bin/java"@),
        base.platform == Platform::Windows ==> java_program(base).text() == Some(
            text + "\\bin\\java.exe"@,
        ),
        java_program(base).text() matches Some(t) && java_program(base).shown() == t,
{
    reveal_strlit("bin");
    reveal_strlit("java");
    reveal_strlit("java.exe");
    reveal_strlit("/bin/java");
    reveal_strlit("\\bin\\java.exe");
    law_child_is_written(base, text, "bin"@);
    let bin = text + written_separator(base.platform) + "bin"@;
    assert(bin.last() == 'n');
    assert(bin[0] == text[0]);
    match base.platform {
        Platform::Unix => {
            law_child_is_written(base.child("bin"@), bin, "java"@);
            assert(bin + seq!['/'] + "java"@ =~= text + "/bin/java"@);
        },
        Platform::Windows => {
            law_child_is_written(base.child("bin"@), bin, "java.exe"@);
            assert(bin + seq!['\\'] + "java.exe"@ =~= text + "\\bin\\java.exe"@);
        },
    }
}

/// An error is logged between two bars, and anything else alone. The message is
/// logged whole; the bars are equal, hold nothing but stars, and are as long as
/// the encoding of what stands before the first line feed of the message, or of
/// all of it where it has none.
pub proof fn law_log_lines(line: Seq<char>, rest: Seq<char>, msg: Seq<char>)
    requires
        !line.contains('\n'),
        line.len() == 0 || line.last() != '\r',
        msg == line || msg == line + seq!['\n'] + rest,
    ensures
        log_lines(LogKind::Info, msg) == seq![msg],
        ({
            let lines = log_lines(LogKind::Error, msg);
            &&& lines.len() == 3
            &&& lines[1] == msg
            &&& lines[0] == lines[2]
            &&& lines[0].len() == encode_utf8(line).len()
            &&& forall|i: int| 0 <= i < lines[0].len() ==> #[trigger] lines[0][i] == '*'
        }),
{
    law_first_line(line, rest);
}

/// What cannot be logged goes to the stream of its kind: errors to the one for
/// errors, anything else to the one for output.
pub proof fn law_stream(kind: LogKind)
    ensures
        stream_of(kind) == Stream::Error <==> kind == LogKind::Error,
        stream_of(kind) == Stream::Output <==> kind == LogKind::Info,
{
}

/// A text is cut at a place in its encoding into what stands before it and what
/// stands after it.
pub proof fn law_cut_at_byte(head: Seq<char>, tail: Seq<char>)
    ensures
        byte_head(head + tail, encode_utf8(head).len() as int) == head,
        byte_tail(head + tail, encode_utf8(head).len() as int) == tail,
{
    lemma_encode_parts(head, tail);
    let bytes = encode_utf8(head + tail);
    let n = encode_utf8(head).len() as int;
    assert(bytes.take(n) =~= encode_utf8(head));
    assert(bytes.skip(n) =~= encode_utf8(tail));
    vstd::utf8::encode_utf8_decode_utf8(head);
    vstd::utf8::encode_utf8_decode_utf8(tail);
}

/// The major version is what stands before the first dot; of a version without
/// one it is all of it, less the mark of an early access build at its end.
pub proof fn law_major_part(major: Seq<char>, minor: Seq<char>)
    requires
        !major.contains('.'),
    ensures
        major_part(major + seq!['.'] + minor) == major,
        major_part(major + "-ea"@) == major,
        !(exists|kept: Seq<char>| major == #[trigger] (kept + "-ea"@)) ==> major_part(major)
            == major,
{
    reveal_strlit("-ea");
    let mark = "-ea"@;
    law_before(major, '.', minor);
    law_without_suffix(major, mark, major);
    let whole = major + seq!['.'] + minor;
    law_without_suffix(major, mark, whole);
    let kept = without_suffix(whole, mark);
    if kept != whole {
        let n = major.len() as int;
        assert(whole == kept + mark);
        assert(n < kept.len()) by {
            if n >= kept.len() {
                assert(whole[n] == '.');
                assert((kept + mark)[n] == mark[n - kept.len()]);
            }
        }
        let less = kept.skip(n + 1);
        assert(kept =~= major + seq!['.'] + less) by {
            assert forall|i: int| 0 <= i < kept.len() implies kept[i] == (major + seq!['.']
                + less)[i] by {
                assert(kept[i] == whole[i]);
            }
        }
        law_before(major, '.', less);
    }
    if without_suffix(major, mark) != major {
        assert(major == without_suffix(major, mark) + mark);
    }
}

/// What `java -version` prints is accepted exactly by the number between the
/// first quote of its first line and the first dot after it: 26 or more. A lower
/// one ends the launcher with exit code 1, and the user is told the number. One
/// that is too large for any version is refused as no number.
pub proof fn law_java_version(
    text: Seq<char>,
    prefix: Seq<char>,
    major: Seq<char>,
    minor: Seq<char>,
    suffix: Seq<char>,
)
    requires
        first_line_of(text) == Some(
            prefix + seq!['"'] + (major + minor) + seq!['"'] + suffix,
        ),
        is_ascii_chars(prefix) && !prefix.contains('"'),
        major.len() > 0 && all_digits(major),
        is_ascii_chars(minor) && !minor.contains('"'),
        minor.len() == 0 || minor[0] == '.' || minor == "-ea"@,
    ensures
        ({
            let n = digits_value(major);
            &&& version_readable(text)
            &&& 26 <= n <= 65535 ==> version_outcome(text) is Ok && version_notice(text) is None
            &&& n < 26 ==> {
                &&& version_outcome(text) == Err::<(), ErrorView>(ErrorView::Exit(1))
                &&& version_notice(text) == Some(
                    "Unsupported Java version: Java 26 or higher is required, found: "@
                        + decimal_of(n),
                )
            }
            &&& n > 65535 ==> version_outcome(text) is Err && version_outcome(text)->Err_0.text()
                == "Failed to parse 'java -version' (unrecognized version number)"@
                + "\nCaused by: "@ + ("Parse error: "@ + u16_error_text(major))
                && version_notice(text) is None
        }),
{
    let version = major + minor;
    reveal_strlit("-ea");
    assert forall|i: int| 0 <= i < version.len() implies version[i] != '"' && '\0' <= #[trigger] version[i]
        <= '\u{7f}' by {
        if i < major.len() {
            assert(version[i] == major[i]);
        } else {
            assert(version[i] == minor[i - major.len()]);
            assert(minor.contains(minor[i - major.len()]));
        }
    }
    assert(is_ascii_chars(version));
    law_version_in_quotes(text, prefix, version, suffix);
    assert(!major.contains('.'));
    if minor.len() == 0 {
        assert(version =~= major);
        assert forall|kept: Seq<char>| major != #[trigger] (kept + "-ea"@) by {
            let whole = kept + "-ea"@;
            assert(whole.last() == 'a');
        }
        law_major_part(major, Seq::empty());
    } else if minor[0] == '.' {
        assert(version =~= major + seq!['.'] + minor.drop_first());
        law_major_part(major, minor.drop_first());
    } else {
        law_major_part(major, Seq::empty());
    }
    assert(major_part(version) == major);
    assert('0' <= major[0] <= '9');
    reveal_with_fuel(ErrorView::text, 3);
}

/// A version whose part before the first dot is no number that a version can have
/// is refused, for the reason that is given for that part.
pub proof fn law_unrecognized_java_version(
    text: Seq<char>,
    prefix: Seq<char>,
    major: Seq<char>,
    minor: Seq<char>,
    suffix: Seq<char>,
)
    requires
        first_line_of(text) == Some(
            prefix + seq!['"'] + (major + seq!['.'] + minor) + seq!['"'] + suffix,
        ),
        is_ascii_chars(prefix) && !prefix.contains('"'),
        is_ascii_chars(major) && !major.contains('"') && !major.contains('.'),
        is_ascii_chars(minor) && !minor.contains('"'),
        major.len() == 0 || major[0] != '+' && !all_digits(major),
    ensures
        version_outcome(text) is Err,
        version_outcome(text)->Err_0.text()
            == "Failed to parse 'java -version' (unrecognized version number)"@ + "\nCaused by: "@ + (
        "Parse error: "@ + u16_error_text(major)),
        version_notice(text) is None,
{
    let version = major + seq!['.'] + minor;
    assert forall|i: int| 0 <= i < version.len() implies version[i] != '"' && '\0' <= #[trigger] version[i]
        <= '\u{7f}' by {
        if i < major.len() {
            assert(version[i] == major[i]);
            assert(major.contains(major[i]));
        } else if i > major.len() {
            assert(version[i] == minor[i - major.len() - 1]);
            assert(minor.contains(minor[i - major.len() - 1]));
        }
    }
    assert(is_ascii_chars(version));
    law_version_in_quotes(text, prefix, version, suffix);
    law_major_part(major, minor);
    reveal_with_fuel(ErrorView::text, 3);
}

/// A text in which no version can be found is refused, and the text of the error
/// says whether there was no line at all or no version in quotes in the first.
pub proof fn law_no_java_version(text: Seq<char>)
    ensures
        text.len() == 0 ==> version_outcome(text) is Err && version_outcome(text)->Err_0.text()
            == "Failed to parse 'java -version' (no output)"@,
        first_line_of(text) matches Some(line) ==> !line.contains('"') ==> {
            &&& version_readable(text)
            &&& version_outcome(text) is Err
            &&& version_outcome(text)->Err_0.text()
                == "Failed to parse 'java -version' (no version number found)"@
        },
        text.len() == 0 ==> version_readable(text),
        version_outcome(text) is Err && !(version_outcome(text)->Err_0 is Exit) ==> version_notice(
            text,
        ) is None,
{
}

/// A quote that is not followed by a second one quotes no version.
pub proof fn law_unclosed_quote(text: Seq<char>, prefix: Seq<char>, rest: Seq<char>)
    requires
        first_line_of(text) == Some(prefix + seq!['"'] + rest),
        is_ascii_chars(prefix) && !prefix.contains('"'),
        !rest.contains('"'),
    ensures
        version_readable(text),
        version_outcome(text) is Err,
        version_outcome(text)->Err_0.text()
            == "Failed to parse 'java -version' (no version number found)"@,
{
    let head = prefix + seq!['"'];
    let line = head + rest;
    law_before(prefix, '"', rest);
    crate::text::lemma_first_index(line, '"');
    assert(line[prefix.len() as int] == '"');
    assert(first_index(line, '"') == prefix.len()) by {
        let f = first_index(line, '"');
        if f < prefix.len() {
            assert(prefix[f] == line[f]);
            assert(prefix.contains('"'));
        }
    }
    assert(is_ascii_chars(head));
    vstd::utf8::is_ascii_chars_encode_utf8(head);
    law_cut_at_byte(head, rest);
    lemma_encode_parts(head, rest);
    assert(after_quote(line) == rest);
}

/// The notice of a check is seen as its characters.
pub proof fn law_version_check_told(text: String, result: Result<(), Error>)
    ensures
        (VersionCheck { notice: Some(text), result }).told() == Some(text@),
        (VersionCheck { notice: None, result }).told() is None,
{
}

/// The places of the quotes are counted in characters and taken in bytes: the
/// version can be read exactly where these are places between characters, and is
/// then what stands between them.
pub proof fn law_version_place(
    text: Seq<char>,
    line: Seq<char>,
    first: int,
    rest: Seq<char>,
    second: int,
)
    requires
        first_line_of(text) == Some(line),
        0 <= first < line.len() && line[first] == '"',
        forall|j: int| 0 <= j < first ==> line[j] != '"',
        rest == decode_utf8(encode_utf8(line).skip(first + 1)),
        0 <= second <= rest.len(),
        second < rest.len() ==> rest[second] == '"',
        forall|j: int| 0 <= j < second ==> rest[j] != '"',
    ensures
        second == rest.len() ==> (version_readable(text) <==> is_char_boundary(
            encode_utf8(line),
            first + 1,
        )),
        second < rest.len() ==> (version_readable(text) <==> is_char_boundary(
            encode_utf8(line),
            first + 1,
        ) && is_char_boundary(encode_utf8(rest), second)),
        second == rest.len() ==> quoted_version(text) == Some(None::<Seq<char>>),
        second < rest.len() ==> quoted_version(text) == Some(
            Some(decode_utf8(encode_utf8(rest).take(second))),
        ),
{
    lemma_first_index_is(line, '"', first);
    lemma_first_index_is(rest, '"', second);
    crate::text::lemma_first_index(line, '"');
    crate::text::lemma_first_index(rest, '"');
}

/// The bars around an error are as long as the encoding of the first line of the
/// message, whatever ends that line; a message without a line has empty bars.
pub proof fn law_log_bar(msg: Seq<char>)
    ensures
        ({
            let lines = log_lines(LogKind::Error, msg);
            &&& lines.len() == 3
            &&& lines[1] == msg
            &&& lines[0] == lines[2]
            &&& forall|i: int| 0 <= i < lines[0].len() ==> #[trigger] lines[0][i] == '*'
            &&& first_line_of(msg) matches Some(line) ==> lines[0].len() == encode_utf8(line).len()
            &&& first_line_of(msg) is None ==> lines[0].len() == 0
        }),
{
    assert(encode_utf8(Seq::<char>::empty()).len() == 0);
}

/// The program that starts Java is two names below the installation, whatever the
/// path of that is.
pub proof fn law_java_program_is_below(base: PathView)
    ensures
        java_program(base).base == base.base,
        java_program(base).platform == base.platform,
        base.platform == Platform::Unix ==> java_program(base).names == base.names.push(
            "bin"@,
        ).push("java"@),
        base.platform == Platform::Windows ==> java_program(base).names == base.names.push(
            "bin"@,
        ).push("java.exe"@),
{
}

/// What is made of a version that was found: its major version, read as a number,
/// is accepted from 26 on; a lower one ends the launcher with exit code 1 and is
/// told; what is no number is refused for the reason that is given.
pub proof fn law_version_by_number(text: Seq<char>, version: Seq<char>)
    requires
        quoted_version(text) == Some(Some(version)),
    ensures
        ({
            let out = version_outcome(text);
            let told = version_notice(text);
            match u16_of(major_part(version)) {
                Some(n) => {
                    &&& n >= 26 ==> out is Ok && told is None
                    &&& n < 26 ==> out == Err::<(), ErrorView>(ErrorView::Exit(1)) && told == Some(
                        "Unsupported Java version: Java 26 or higher is required, found: "@
                            + decimal_of(n),
                    )
                },
                None => {
                    &&& told is None
                    &&& out is Err
                    &&& out->Err_0.text()
                        == "Failed to parse 'java -version' (unrecognized version number)"@
                        + "\nCaused by: "@ + ("Parse error: "@ + u16_error_text(
                        major_part(version),
                    ))
                },
            }
        }),
{
    reveal_with_fuel(ErrorView::text, 3);
}

} // verus!
