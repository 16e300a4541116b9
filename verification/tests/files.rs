use tack::errors::Error;
use tack::path::{FilePath, Platform};
use tack::util::fs::{
    bytes_matches_hash, classpath_sep, create_directory, create_file, extract_zip_entry,
    file_hash, file_matches_hash, find_zip_entry, finish_extraction, open_file, open_zip,
    read_zip_entry, read_zip_entry_text, require_zip_entry, try_delete_file, write_file,
    ExtractStep, FileRead, ZipFailure,
};
use tack::util::parse_hex;

const ABC: &str = "ba7816bf8f01cfea414140de5dae2223b00361a396177a9cb410ff61f20015ad";

fn path(text: &str) -> FilePath {
    FilePath::from_text(Platform::Unix, text)
}

fn io(detail: &str) -> Error {
    Error::io(detail.to_string())
}

fn shown<T>(r: Result<T, Error>) -> Result<T, String> {
    r.map_err(|e| e.message())
}

#[test]
fn paths_are_joined_by_the_platform() {
    let unix = path("/srv").child("a").child("b");
    assert_eq!(unix.display(), "/srv/a/b");
    assert_eq!(path("/").child("a").display(), "/a");
    assert_eq!(path("").child("a").display(), "a");
    assert_eq!(path("dir/").child("a").text(), Some("dir/a".to_string()));
    let windows = |t: &str| FilePath::from_text(Platform::Windows, t).child("a").display();
    assert_eq!(windows("C:\\srv"), "C:\\srv\\a");
    assert_eq!(windows("C:\\"), "C:\\a");
    assert_eq!(windows("C:/"), "C:/a");
    assert_eq!(windows("C:"), "C:a");
    assert_eq!(windows("srv"), "srv\\a");
    assert_eq!(windows("\\\\?\\C:\\srv"), "\\\\?\\C:\\srv\\a");
    assert_eq!(windows("\\\\?\\C:\\srv\\\\"), "\\\\?\\C:\\srv\\a");
    assert_eq!(windows("\\\\?\\C:\\x\\\\srv/"), "\\\\?\\C:\\x\\srv/\\a");
    assert_eq!(unix.parent().display(), "/srv/a");
    assert!(unix.is_child() && !path("/srv").is_child());
    assert_eq!(unix.copy(), unix);
    assert_eq!(unix.bytes(), b"/srv/a/b".to_vec());
    assert_eq!(unix.platform(), Platform::Unix);
}

#[test]
fn a_path_that_is_not_text_is_shown_with_replacements() {
    let p = FilePath::new(Platform::Unix, vec![b'/', 0xff]).child("a");
    assert_eq!(p.text(), None);
    assert_eq!(p.display(), "/\u{fffd}/a");
    let half = || vec![b'x', 0xed, 0xa0, 0x80, b'y'];
    assert_eq!(FilePath::new(Platform::Windows, half()).display(), "x\u{fffd}y");
    assert_eq!(FilePath::new(Platform::Windows, half()).text(), None);
    assert_eq!(
        FilePath::new(Platform::Unix, half()).display(),
        "x\u{fffd}\u{fffd}\u{fffd}y"
    );
}

#[test]
fn a_file_is_hashed() {
    let expected = parse_hex(ABC).unwrap();
    let read = FileRead::Content(b"abc".to_vec());
    assert_eq!(file_hash(&path("f"), read), Ok(expected));
}

#[test]
fn a_file_that_is_not_opened_has_no_hash() {
    assert_eq!(
        shown(file_hash(&path("f"), FileRead::NotOpened(io("no")))),
        Err("Failed to hash file f\nCaused by: Failed to open file: f\nCaused by: IO error: no"
            .to_string())
    );
    assert_eq!(
        shown(file_hash(&path("f"), FileRead::Broken(io("half")))),
        Err("Failed to hash file f\nCaused by: IO error: half".to_string())
    );
}

#[test]
fn a_file_matches_its_hash_only() {
    let expected = parse_hex(ABC).unwrap();
    let read = || FileRead::Content(b"abc".to_vec());
    assert_eq!(file_matches_hash(&path("f"), read(), &expected), Ok(true));
    assert_eq!(file_matches_hash(&path("f"), read(), &expected[..31]), Ok(false));
    assert_eq!(file_matches_hash(&path("f"), read(), &[0; 32]), Ok(false));
    let other = FileRead::Content(b"abd".to_vec());
    assert_eq!(file_matches_hash(&path("f"), other, &expected), Ok(false));
    assert_eq!(
        shown(file_matches_hash(&path("f"), FileRead::NotOpened(io("no")), &expected)),
        Err("Failed to hash file\nCaused by: Failed to open file: f\nCaused by: IO error: no"
            .to_string())
    );
    assert_eq!(
        shown(file_matches_hash(&path("f"), FileRead::Broken(io("x")), &expected)),
        Err("Failed to hash file\nCaused by: IO error: x".to_string())
    );
}

#[test]
fn bytes_match_their_hash_only() {
    let expected = parse_hex(ABC).unwrap();
    assert!(bytes_matches_hash(b"abc", &expected));
    assert!(!bytes_matches_hash(b"", &expected));
    assert!(!bytes_matches_hash(b"abc", &[]));
    let empty =
        parse_hex("e3b0c44298fc1c149afbf4c8996fb92427ae41e4649b934ca495991b7852b855").unwrap();
    assert!(bytes_matches_hash(b"", &empty));
}

#[test]
fn hashes_of_one_content_agree() {
    let data = b"some content".to_vec();
    let hash = file_hash(&path("f"), FileRead::Content(data.clone())).unwrap();
    assert!(bytes_matches_hash(&data, &hash));
    assert_eq!(file_matches_hash(&path("g"), FileRead::Content(data), &hash), Ok(true));
}

#[test]
fn operations_on_files_name_the_file() {
    let p = path("/srv/x");
    assert_eq!(create_directory(&p, Ok(())), Ok(()));
    assert_eq!(
        shown(create_directory(&p, Err(io("e")))),
        Err("Failed to create directory: /srv/x\nCaused by: IO error: e".to_string())
    );
    assert_eq!(
        shown(write_file(&p, Err(io("e")))),
        Err("Failed to write file: /srv/x\nCaused by: IO error: e".to_string())
    );
    assert_eq!(write_file(&p, Ok(())), Ok(()));
    assert_eq!(
        shown(create_file::<u8>(&p, Err(io("e")))),
        Err("Failed to create file: /srv/x\nCaused by: IO error: e".to_string())
    );
    assert_eq!(create_file(&p, Ok(4u8)), Ok(4));
    assert_eq!(
        shown(open_file::<u8>(&p, Err(io("e")))),
        Err("Failed to open file: /srv/x\nCaused by: IO error: e".to_string())
    );
    assert_eq!(open_file(&p, Ok(4u8)), Ok(4));
}

#[test]
fn a_failed_deletion_is_told() {
    let name = || Some("aot-use.log".to_string());
    assert_eq!(try_delete_file(name(), true, Ok(())), None);
    assert_eq!(try_delete_file(name(), false, Err("busy".to_string())), None);
    assert_eq!(
        try_delete_file(name(), true, Err("busy".to_string())),
        Some("Failed to delete existing aot-use.log file: busy".to_string())
    );
    assert_eq!(
        try_delete_file(None, true, Err("busy".to_string())),
        Some("Failed to delete existing  file: busy".to_string())
    );
}

fn steps(is_dir: bool, parent: Option<(FilePath, bool)>) -> Vec<String> {
    extract_zip_entry(is_dir, path("out/a"), parent)
        .into_iter()
        .map(|s| match s {
            ExtractStep::CreateDirectory(p) => format!("mkdir {}", p.display()),
            ExtractStep::CopyInto(p) => format!("copy {}", p.display()),
        })
        .collect()
}

#[test]
fn an_entry_is_unpacked_into_its_directory() {
    assert_eq!(steps(true, Some((path("out"), false))), vec!["mkdir out/a"]);
    assert_eq!(steps(false, Some((path("out"), true))), vec!["copy out/a"]);
    assert_eq!(steps(false, None), vec!["copy out/a"]);
    assert_eq!(
        steps(false, Some((path("out"), false))),
        vec!["mkdir out", "copy out/a"]
    );
}

#[test]
fn a_failed_extraction_names_both_ends() {
    assert_eq!(
        shown(finish_extraction("META-INF/x", &path("out/x"), Err(io("e")))),
        Err("Failed to extract META-INF/x from zip to out/x\nCaused by: IO error: e".to_string())
    );
    assert_eq!(finish_extraction("x", &path("out/x"), Ok(())), Ok(()));
}

#[test]
fn an_archive_is_opened_in_two_steps() {
    let p = path("a.jar");
    assert_eq!(open_zip(&p, Ok(Ok(1u8))), Ok(1));
    assert_eq!(
        shown(open_zip::<u8>(&p, Err(io("e")))),
        Err("Failed to open file: a.jar\nCaused by: IO error: e".to_string())
    );
    assert_eq!(
        shown(open_zip::<u8>(&p, Ok(Err(Error::zip("bad".to_string()))))),
        Err("Failed to open zip: a.jar\nCaused by: Zip error: bad".to_string())
    );
}

#[test]
fn an_entry_that_is_not_there_may_be_fine() {
    assert_eq!(find_zip_entry(Ok(1u8)), Ok(Some(1)));
    assert_eq!(find_zip_entry::<u8>(Err(ZipFailure::FileNotFound)), Ok(None));
    assert_eq!(
        find_zip_entry::<u8>(Err(ZipFailure::Other("bad".to_string()))),
        Err(Error::zip("bad".to_string()))
    );
    assert_eq!(require_zip_entry(Ok(1u8), "x"), Ok(1));
    assert_eq!(
        require_zip_entry::<u8>(Err(ZipFailure::FileNotFound), "x"),
        Err(Error::generic("Failed to find entry in zip: x"))
    );
    assert_eq!(
        require_zip_entry::<u8>(Err(ZipFailure::Other("bad".to_string())), "x"),
        Err(Error::zip("bad".to_string()))
    );
}

#[test]
fn an_entry_is_read_as_text() {
    assert_eq!(read_zip_entry("x", Ok(vec![1, 2])), Ok(vec![1, 2]));
    assert_eq!(
        read_zip_entry_text("x", Ok("gr\u{fc}n".as_bytes().to_vec())),
        Ok("gr\u{fc}n".to_string())
    );
    assert_eq!(
        shown(read_zip_entry_text("x", Err(io("e")))),
        Err("Failed to read entry: x\nCaused by: IO error: e".to_string())
    );
    assert_eq!(
        shown(read_zip_entry_text("x", Ok(vec![b'a', 0xff]))),
        Err("Invalid UTF-8 in x\nCaused by: UTF-8 error: FromUtf8Error { bytes: [97, 255], \
             error: Utf8Error { valid_up_to: 1, error_len: Some(1) } }"
            .to_string())
    );
}

#[test]
fn the_class_path_has_its_separator() {
    assert_eq!(classpath_sep(Platform::Unix), ":");
    assert_eq!(classpath_sep(Platform::Windows), ";");
}
