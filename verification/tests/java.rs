use tack::errors::Error;
use tack::path::{FilePath, Platform};
use tack::util::jni::{
    check_java_output, check_java_version, is_version_readable, java_bin, log, log_ended,
    start_java_check, JavaCheck, LogKind, Notice, Stream, VersionCheck, MIN_JAVA_VERSION,
};

fn accepted() -> VersionCheck {
    VersionCheck { notice: None, result: Ok(()) }
}

fn too_low(found: &str) -> VersionCheck {
    VersionCheck {
        notice: Some(format!(
            "Unsupported Java version: Java 26 or higher is required, found: {found}"
        )),
        result: Err(Error::Exit(1)),
    }
}

fn failed(text: &str) -> String {
    let check = check_java_version(text);
    assert_eq!(check.notice, None);
    check.result.unwrap_err().message()
}

#[test]
fn java_from_26_on_is_accepted() {
    assert_eq!(MIN_JAVA_VERSION, 26);
    assert_eq!(check_java_version("openjdk version \"26\" 2026-03-17\n"), accepted());
    assert_eq!(check_java_version("openjdk version \"26.0.1\" 2026\r\nmore"), accepted());
    assert_eq!(check_java_version("openjdk version \"27-ea\" 2026\n"), accepted());
    assert_eq!(check_java_version("\"65535\""), accepted());
}

#[test]
fn older_java_is_refused() {
    assert_eq!(check_java_version("openjdk version \"25.0.2\" 2026\n"), too_low("25"));
    assert_eq!(check_java_version("java version \"1.8.0_292\"\n"), too_low("1"));
    assert_eq!(check_java_version("openjdk version \"25-ea\" 2025\n"), too_low("25"));
    assert_eq!(check_java_version("\"+7.1\""), too_low("7"));
}

#[test]
fn an_output_without_a_version_is_refused() {
    assert_eq!(failed(""), "Failed to parse 'java -version' (no output)");
    let missing = "Failed to parse 'java -version' (no version number found)";
    assert_eq!(failed("\n\"26\""), missing);
    assert_eq!(failed("no quotes"), missing);
    assert_eq!(failed("one \" quote"), missing);
}

#[test]
fn an_unreadable_number_is_refused() {
    let context = "Failed to parse 'java -version' (unrecognized version number)\nCaused by: ";
    assert_eq!(
        failed("version \"x26\""),
        format!("{context}Parse error: ParseIntError {{ kind: InvalidDigit }}")
    );
    assert_eq!(
        failed("version \"\""),
        format!("{context}Parse error: ParseIntError {{ kind: Empty }}")
    );
    assert_eq!(
        failed("version \"65536.1\""),
        format!("{context}Parse error: ParseIntError {{ kind: PosOverflow }}")
    );
    assert_eq!(
        failed("version \"26-beta\""),
        format!("{context}Parse error: ParseIntError {{ kind: InvalidDigit }}")
    );
}

#[test]
fn only_the_first_two_quotes_of_the_first_line_count() {
    assert_eq!(check_java_version("a \"26\" b \"1\"\n\"2\""), accepted());
}

#[test]
fn a_place_inside_a_character_is_not_readable() {
    assert!(is_version_readable("openjdk version \"26\""));
    assert!(is_version_readable(""));
    assert!(is_version_readable("\u{20ac} no quote"));
    assert!(!is_version_readable("\u{20ac}\"26\""));
    assert!(!is_version_readable("\"\u{20ac}\""));
}

#[test]
fn the_output_of_java_is_checked() {
    let java = FilePath::from_text(Platform::Unix, "/jdk/bin/java");
    assert_eq!(
        check_java_output(&java, Ok(b"openjdk version \"26\"\n".to_vec())),
        Some(accepted())
    );
    assert_eq!(
        check_java_output(&java, Ok("\u{20ac}\"26\"".as_bytes().to_vec())),
        None
    );
    assert_eq!(
        check_java_output(&java, Ok(b"v \"26\" \xff".to_vec())),
        Some(accepted())
    );
    let missing = check_java_output(&java, Err(Error::io("no".to_string()))).unwrap();
    assert_eq!(missing.notice, None);
    assert_eq!(
        missing.result.unwrap_err().message(),
        "Failed to execute 'java -version' command (/jdk/bin/java)\nCaused by: IO error: no"
    );
}

#[test]
fn java_lies_in_the_installation() {
    let unix = FilePath::from_text(Platform::Unix, "/jdk");
    assert_eq!(java_bin(&unix).display(), "/jdk/bin/java");
    let windows = FilePath::from_text(Platform::Windows, "C:\\jdk");
    assert_eq!(java_bin(&windows).display(), "C:\\jdk\\bin\\java.exe");
    assert_eq!(start_java_check(false, &unix), JavaCheck::Run(java_bin(&unix)));
}

#[test]
fn a_check_that_is_switched_off_succeeds() {
    let nowhere = FilePath::from_text(Platform::Unix, "/no/such/place");
    assert_eq!(start_java_check(true, &nowhere), JavaCheck::Over(accepted()));
}

#[test]
fn information_is_logged_as_it_is() {
    let plan = log(LogKind::Info, "two\nlines");
    assert_eq!(plan.method, "info");
    assert_eq!(plan.lines, vec!["two\nlines"]);
}

#[test]
fn an_error_is_logged_between_bars() {
    let plan = log(LogKind::Error, "four\nlonger line");
    assert_eq!(plan.method, "error");
    assert_eq!(plan.lines, vec!["****", "four\nlonger line", "****"]);
    assert_eq!(log(LogKind::Error, "\u{e9}").lines, vec!["**", "\u{e9}", "**"]);
    assert_eq!(log(LogKind::Error, "").lines, vec!["", "", ""]);
    assert_eq!(log(LogKind::Error, "ab\r\nc").lines[0], "**");
}

#[test]
fn a_message_that_is_not_logged_is_printed() {
    for (kind, stream) in [(LogKind::Info, Stream::Output), (LogKind::Error, Stream::Error)] {
        assert_eq!(log_ended(kind, "two\nlines", Ok(())), None);
        assert_eq!(
            log_ended(kind, "two\nlines", Err(Error::jni("down".to_string()))),
            Some(Notice { stream, text: "two\nlines".to_string() })
        );
    }
}
