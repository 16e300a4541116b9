use tack::args::{ArgOptions, RecordMode};
use tack::errors::{
    Error, HexError, IntoError, IntoErrorMsg, MapErrGeneric, WithContext,
    ONLY_USE_AOT_FAILED_EXIT_CODE,
};
use tack::run::{cache_checked, classpath_ready, conclude, require_options, Ending};

fn text(s: &str) -> String {
    s.to_string()
}

#[test]
fn every_error_has_its_text() {
    let cases = [
        (Error::jni(text("x")), "JNI error: x"),
        (Error::jvm(text("x")), "JVM error: x"),
        (Error::start_jvm(text("x")), "JVM start error: x"),
        (Error::java_loc(text("x")), "Failed to find Java installation: x"),
        (Error::io(text("x")), "IO error: x"),
        (Error::time(text("x")), "Time error: x"),
        (Error::net(text("x")), "Download error: x"),
        (Error::zip(text("x")), "Zip error: x"),
        (Error::utf(text("x")), "UTF-8 error: x"),
        (Error::number(text("x")), "Parse error: x"),
        (Error::postcard(text("x")), "Serialization error: x"),
        (Error::from(HexError::OddLength), "Hex error: OddLength"),
        (
            Error::from(HexError::InvalidStringLength),
            "Hex error: InvalidStringLength",
        ),
        (
            Error::from(HexError::InvalidHexCharacter { c: 'g', index: 12 }),
            "Hex error: InvalidHexCharacter { c: 'g', index: 12 }",
        ),
        (
            Error::from(HexError::InvalidHexCharacter { c: '\'', index: 0 }),
            "Hex error: InvalidHexCharacter { c: '\\'', index: 0 }",
        ),
        (Error::generic("plain"), "plain"),
        (Error::Exit(0), "Exiting with code 0"),
        (Error::Exit(255), "Exiting with code 255"),
    ];
    for (error, expected) in cases {
        assert_eq!(error.message(), expected);
    }
}

#[test]
fn context_is_shown_before_its_cause() {
    let inner = Error::wrap("middle", Error::io(text("gone")));
    let outer = Error::wrap(text("outer"), inner);
    assert_eq!(
        outer.message(),
        "outer\nCaused by: middle\nCaused by: IO error: gone"
    );
}

#[test]
fn err_ctx_leaves_success_alone() {
    let ok: Result<u8, Error> = Ok(7);
    assert_eq!(ok.err_ctx("never seen"), Ok(7));
    let failed: Result<u8, Error> = Err(Error::Exit(2));
    assert_eq!(
        failed.err_ctx(|| text("lazy")),
        Err(Error::Wrapped { msg: text("lazy"), cause: Box::new(Error::Exit(2)) })
    );
}

#[test]
fn err_ctx_converts_the_error() {
    let failed: Result<u8, HexError> = Err(HexError::OddLength);
    let out = failed.err_ctx("hex").unwrap_err();
    assert_eq!(out.message(), "hex\nCaused by: Hex error: OddLength");
    assert_eq!(
        Error::wrap(text("hex"), HexError::OddLength),
        Error::wrap("hex", Error::from(HexError::OddLength))
    );
}

#[test]
fn messages_come_from_texts_and_functions() {
    assert_eq!("a".into_error_msg(), "a");
    assert_eq!(text("b").into_error_msg(), "b");
    assert_eq!((|| text("c")).into_error_msg(), "c");
    assert_eq!((|| "d").into_error_msg(), "d");
}

#[test]
fn map_err_generic_replaces_the_error() {
    let ok: Result<u8, u16> = Ok(1);
    assert_eq!(ok.map_err_generic(|e: u16| format!("bad {e}")), Ok(1));
    let failed: Result<u8, u16> = Err(404);
    assert_eq!(
        failed.map_err_generic(|e: u16| format!("bad {e}")),
        Err(Error::generic(text("bad 404")))
    );
    let failed: Result<u8, u16> = Err(1);
    assert_eq!(failed.map_err_generic(|_: u16| "plain"), Err(Error::generic("plain")));
}

#[test]
fn into_error_converts() {
    let failed: Result<u8, HexError> = Err(HexError::OddLength);
    assert_eq!(failed.into_error(), Err(Error::from(HexError::OddLength)));
    let ok: Result<u8, HexError> = Ok(3);
    assert_eq!(ok.into_error(), Ok(3));
}

#[test]
fn a_successful_run_sets_no_code() {
    assert_eq!(conclude(Ok(())), Ending { notice: None, backtrace: None, code: None });
}

#[test]
fn an_exit_code_is_silent() {
    assert_eq!(
        conclude(Err(Error::Exit(ONLY_USE_AOT_FAILED_EXIT_CODE))),
        Ending { notice: None, backtrace: None, code: Some(33) }
    );
}

/// An error that came up at a known place.
fn placed(msg: &str) -> Error {
    Error::Generic { msg: text(msg), backtrace: Some(text("at main")) }
}

#[test]
fn a_failure_is_printed_with_code_one() {
    assert_eq!(
        conclude(Err(Error::Generic { msg: text("no luck"), backtrace: None })),
        Ending { notice: Some(text("no luck")), backtrace: None, code: Some(1) }
    );
}

#[test]
fn the_backtrace_of_a_failure_is_printed() {
    let inner = Error::Io(text("gone"), Some(text("at io")));
    assert_eq!(inner.backtrace(), Some(text("at io")));
    assert_eq!(
        conclude(Err(Error::wrap("outer", inner))),
        Ending {
            notice: Some(text("outer\nCaused by: IO error: gone")),
            backtrace: Some(text("at io")),
            code: Some(1),
        }
    );
    assert_eq!(Error::Exit(1).backtrace(), None);
    assert_eq!(conclude(Err(Error::Exit(1))).backtrace, None);
}

#[test]
fn errors_are_equal_where_they_say_the_same() {
    assert_eq!(placed("x"), Error::Generic { msg: text("x"), backtrace: None });
    assert_ne!(placed("x"), placed("y"));
    assert_ne!(Error::io(text("x")), Error::jni(text("x")));
    assert_ne!(Error::Exit(1), Error::Exit(2));
    assert_ne!(Error::wrap("a", Error::Exit(1)), Error::wrap("a", Error::Exit(2)));
    assert_ne!(
        Error::from(HexError::OddLength),
        Error::from(HexError::InvalidStringLength)
    );
}

#[test]
fn an_exit_code_of_a_stage_is_kept() {
    for code in [0, 1, 33] {
        let silent = Ending { notice: None, backtrace: None, code: Some(code) };
        assert_eq!(conclude(classpath_ready(Err(Error::Exit(code)))), silent);
        assert_eq!(conclude(cache_checked(Err(Error::Exit(code))).map(|_| ())), silent);
    }
}

#[test]
fn a_failed_stage_says_what_was_done() {
    assert_eq!(classpath_ready(Ok(())), Ok(()));
    assert_eq!(
        conclude(classpath_ready(Err(placed("no jar")))),
        Ending {
            notice: Some(text("Failed to setup classpath\nCaused by: no jar")),
            backtrace: Some(text("at main")),
            code: Some(1),
        }
    );
    assert_eq!(
        conclude(cache_checked(Err(placed("no disk"))).map(|_| ())),
        Ending {
            notice: Some(text("Failed to check AOT cache\nCaused by: no disk")),
            backtrace: Some(text("at main")),
            code: Some(1),
        }
    );
}

#[test]
fn options_are_required() {
    let options = || ArgOptions {
        jar: text("paper.jar"),
        jvm_args: vec![],
        app_args: vec![],
        record: RecordMode::Normal,
        compat: false,
    };
    assert_eq!(require_options(Ok(Some(options()))), Ok(options()));
    assert_eq!(require_options(Ok(None)), Err(Error::Exit(0)));
    assert_eq!(
        require_options(Err(Error::generic("bad flag"))),
        Err(Error::generic("bad flag"))
    );
}
