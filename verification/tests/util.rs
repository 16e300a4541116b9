use tack::errors::{Error, HexError};
use tack::util::windows::check_gui_launch;
use tack::util::{
    copy_owned, is_env_true, parse_hex, parse_hex_named, ComposingIterator, JoinHandleRes,
    ThreadPanicked,
};

fn env(value: &str) -> Option<Vec<u8>> {
    Some(value.as_bytes().to_vec())
}

#[test]
fn copies_are_in_order() {
    let items = vec!["a".to_string(), "b".to_string()];
    assert_eq!(copy_owned(&items), items);
    let none: [u8; 0] = [];
    assert_eq!(copy_owned(&none), Vec::<u8>::new());
}

#[test]
fn one_and_true_switch_on() {
    for value in ["1", "true", "TRUE", "tRuE"] {
        assert!(is_env_true(env(value)), "{}", value);
    }
}

#[test]
fn anything_else_leaves_off() {
    for value in ["", "0", "2", "yes", "tru", "true ", "11", "TRUA"] {
        assert!(!is_env_true(env(value)), "{}", value);
    }
    assert!(!is_env_true(None));
    assert!(!is_env_true(Some(vec![0xff, 0xfe, 0x00, 0x80])));
}

#[test]
fn a_digest_is_read_in_either_case() {
    let lower = "00ff".to_string() + &"1a".repeat(30);
    let upper = lower.to_uppercase();
    let mut expected = [0x1au8; 32];
    expected[0] = 0;
    expected[1] = 0xff;
    assert_eq!(parse_hex(&lower), Ok(expected));
    assert_eq!(parse_hex(&upper), Ok(expected));
}

#[test]
fn a_text_of_odd_length_is_refused_first() {
    assert_eq!(parse_hex("abc"), Err(Error::from(HexError::OddLength)));
    assert_eq!(parse_hex("zzz"), Err(Error::from(HexError::OddLength)));
}

#[test]
fn the_first_character_that_is_no_digit_is_named() {
    assert_eq!(
        parse_hex("0x10"),
        Err(Error::from(HexError::InvalidHexCharacter { c: 'x', index: 1 }))
    );
    assert_eq!(
        parse_hex("00\u{e9}"),
        Err(Error::from(HexError::InvalidHexCharacter { c: '\u{c3}', index: 2 }))
    );
}

#[test]
fn a_digest_has_32_bytes() {
    assert_eq!(
        parse_hex(""),
        Err(Error::generic("Invalid hex string (not 32 bytes long): "))
    );
    assert_eq!(
        parse_hex("abcd"),
        Err(Error::generic("Invalid hex string (not 32 bytes long): abcd"))
    );
    let long = "00".repeat(33);
    assert_eq!(
        parse_hex(&long),
        Err(Error::generic(format!("Invalid hex string (not 32 bytes long): {long}")))
    );
}

#[test]
fn a_named_digest_says_which_it_was() {
    assert!(parse_hex_named("jar", &"00".repeat(32)).is_ok());
    assert_eq!(
        parse_hex_named("jar", "0g").map_err(|e| e.message()),
        Err("Failed to parse hex string 'jar': 0g\nCaused by: Hex error: \
             InvalidHexCharacter { c: 'g', index: 1 }"
            .to_string())
    );
}

#[test]
fn a_joined_thread_gives_what_it_returned() {
    let ok: Result<Result<u8, Error>, ThreadPanicked> = Ok(Ok(5));
    assert_eq!(ok.join_res(), Ok(5));
    let failed: Result<Result<u8, Error>, ThreadPanicked> = Ok(Err(Error::Exit(9)));
    assert_eq!(failed.join_res(), Err(Error::Exit(9)));
    let panicked: Result<Result<u8, Error>, ThreadPanicked> = Err(ThreadPanicked);
    assert_eq!(panicked.join_res(), Err(Error::generic("Thread error")));
}

#[test]
fn a_layer_is_taken_from_first() {
    let mut it = ComposingIterator::new(vec![1, 2, 3].into_iter());
    assert!(!it.is_nested());
    assert_eq!(it.next(), Some(1));
    it.push_layer(vec![10, 20].into_iter());
    assert!(it.is_nested());
    assert_eq!(it.next(), Some(10));
    assert_eq!(it.next(), Some(20));
    assert!(it.is_nested());
    assert_eq!(it.next(), Some(2));
    assert!(!it.is_nested());
    assert_eq!(it.next(), Some(3));
    assert_eq!(it.next(), None);
    assert_eq!(it.next(), None);
}

#[test]
fn an_empty_layer_is_passed_over() {
    let mut it = ComposingIterator::new(vec![1].into_iter());
    it.push_layer(vec![].into_iter());
    assert_eq!(it.next(), Some(1));
    assert!(!it.is_nested());
}

#[test]
fn a_new_layer_replaces_the_old_one() {
    let mut it = ComposingIterator::new(vec![1].into_iter());
    it.push_layer(vec![5, 6].into_iter());
    it.push_layer(vec![7].into_iter());
    assert_eq!(it.next(), Some(7));
    assert_eq!(it.next(), Some(1));
    assert_eq!(it.next(), None);
}

#[test]
fn layers_of_different_iterators_can_be_boxed() {
    let base: Box<dyn Iterator<Item = u8>> = Box::new(0..2u8);
    let mut it = ComposingIterator::new(base);
    let layer: Box<dyn Iterator<Item = u8>> = Box::new(vec![9u8].into_iter());
    it.push_layer(layer);
    assert_eq!(it.next(), Some(9));
    assert_eq!(it.next(), Some(0));
    assert_eq!(it.next(), Some(1));
    assert_eq!(it.next(), None);
}

#[test]
fn a_start_without_a_terminal_shows_a_dialog() {
    for count in [0, 1] {
        let dialog = check_gui_launch(count).unwrap();
        assert_eq!(dialog.title, "tack");
        assert_eq!(
            dialog.message,
            "tack is a command-line application and must be run from the terminal."
        );
    }
    assert_eq!(check_gui_launch(2), None);
    assert_eq!(check_gui_launch(u32::MAX), None);
}
