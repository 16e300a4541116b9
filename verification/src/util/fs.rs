//! Files, directories and zip archives: what is made of the outcomes of the
//! operations on them.

use crate::errors::{
    generic_error, in_context, put_in_context, result_trace, seen, wrapped_error, Error, ErrorView,
    WithContext,
};
use crate::outside::{sha256, sha256_of, string_from_utf8, utf8_error_text};
use crate::path::{lemma_ascii_byte, FilePath, Platform};
use crate::text::{cat2, cat4};
use vstd::prelude::*;
use vstd::utf8::{decode_utf8, encode_utf8, valid_utf8};

verus! {

/// The outcome of reading a whole file.
#[derive(Debug, PartialEq, Eq)]
pub enum FileRead {
    /// The file could not be opened.
    NotOpened(Error),
    /// The file was opened, and reading it failed.
    Broken(Error),
    Content(Vec<u8>),
}

/// The digest of a file's content, or why there is none.
pub open spec fn content_digest(path: Seq<char>, read: FileRead) -> Result<Seq<u8>, ErrorView> {
    match read {
        FileRead::NotOpened(e) => Err(wrapped_error("Failed to open file: "@ + path, e@)),
        FileRead::Broken(e) => Err(e@),
        FileRead::Content(data) => Ok(sha256_of(data@)),
    }
}

/// The backtrace of a read that failed.
pub open spec fn read_trace(read: FileRead) -> Option<Seq<char>> {
    match read {
        FileRead::NotOpened(e) => e.trace(),
        FileRead::Broken(e) => e.trace(),
        FileRead::Content(_) => None,
    }
}

/// The outcome of `file_hash`.
pub open spec fn hash_outcome(path: Seq<char>, read: FileRead) -> Result<Seq<u8>, ErrorView> {
    in_context(content_digest(path, read), "Failed to hash file "@ + path)
}

/// A digest over its bytes.
pub open spec fn seen_hash(r: Result<[u8; 32], Error>) -> Result<Seq<u8>, ErrorView> {
    match r {
        Ok(hash) => Ok(hash@),
        Err(e) => Err(e@),
    }
}

fn digest_content(path: &FilePath, read: FileRead) -> (r: Result<[u8; 32], Error>)
    ensures
        seen_hash(r) == content_digest(path@.shown(), read),
        result_trace(r) == read_trace(read),
{
    match read {
        FileRead::NotOpened(e) => open_file(path, Err(e)),
        FileRead::Broken(e) => Err(e),
        FileRead::Content(data) => Ok(sha256(data.as_slice())),
    }
}

/// The SHA-256 digest of a file.
pub fn file_hash(path: &FilePath, read: FileRead) -> (r: Result<[u8; 32], Error>)
    ensures
        seen_hash(r) == hash_outcome(path@.shown(), read),
        result_trace(r) == read_trace(read),
{
    let context = cat2("Failed to hash file ", path.display().as_str());
    digest_content(path, read).err_ctx(context)
}

fn same_bytes(a: &[u8], b: &[u8]) -> (r: bool)
    ensures
        r == (a@ == b@),
{
    if a.len() != b.len() {
        return false;
    }
    let mut i: usize = 0;
    while i < a.len()
        invariant
            i <= a@.len(),
            a@.len() == b@.len(),
            forall|j: int| 0 <= j < i ==> a@[j] == b@[j],
        decreases a@.len() - i,
    {
        if a[i] != b[i] {
            return false;
        }
        i += 1;
    }
    assert(a@ =~= b@);
    true
}

/// Whether a file has the digest that is expected of it.
pub fn file_matches_hash(path: &FilePath, read: FileRead, expected_hash: &[u8]) -> (r: Result<
    bool,
    Error,
>)
    ensures
        seen(r) == in_context(
            match content_digest(path@.shown(), read) {
                Ok(hash) => Ok(expected_hash@ == hash),
                Err(e) => Err(e),
            },
            "Failed to hash file"@,
        ),
        result_trace(r) == read_trace(read),
{
    let matched: Result<bool, Error> = match digest_content(path, read) {
        Ok(actual) => Ok(same_bytes(expected_hash, actual.as_slice())),
        Err(e) => Err(e),
    };
    matched.err_ctx("Failed to hash file")
}

/// Whether data has the digest that is expected of it.
pub fn bytes_matches_hash(data: &[u8], expected_hash: &[u8]) -> (r: bool)
    ensures
        r == (expected_hash@ == sha256_of(data@)),
{
    let actual = sha256(data);
    same_bytes(expected_hash, actual.as_slice())
}

/// Gives context to the outcome of creating a directory with its parents.
pub fn create_directory(path: &FilePath, created: Result<(), Error>) -> (r: Result<(), Error>)
    ensures
        put_in_context(created, r, "Failed to create directory: "@ + path@.shown()),
{
    let context = cat2("Failed to create directory: ", path.display().as_str());
    created.err_ctx(context)
}

/// Gives context to the outcome of writing a file.
pub fn write_file(path: &FilePath, written: Result<(), Error>) -> (r: Result<(), Error>)
    ensures
        put_in_context(written, r, "Failed to write file: "@ + path@.shown()),
{
    let context = cat2("Failed to write file: ", path.display().as_str());
    written.err_ctx(context)
}

/// Gives context to the outcome of creating a file.
pub fn create_file<T>(path: &FilePath, created: Result<T, Error>) -> (r: Result<T, Error>)
    ensures
        put_in_context(created, r, "Failed to create file: "@ + path@.shown()),
{
    let context = cat2("Failed to create file: ", path.display().as_str());
    created.err_ctx(context)
}

/// Gives context to the outcome of opening a file.
pub fn open_file<T>(path: &FilePath, opened: Result<T, Error>) -> (r: Result<T, Error>)
    ensures
        put_in_context(opened, r, "Failed to open file: "@ + path@.shown()),
{
    let context = cat2("Failed to open file: ", path.display().as_str());
    opened.err_ctx(context)
}

/// What is told of the attempt to delete a file: a failure, by the name of the
/// file and the text of the reason; a file that is not there is not deleted.
pub fn try_delete_file(file_name: Option<String>, exists: bool, deleted: Result<(), String>) -> (r:
    Option<String>)
    ensures
        r is Some <==> exists && deleted is Err,
        r matches Some(text) ==> text@ == "Failed to delete existing "@ + (match file_name {
            Some(n) => n@,
            None => Seq::empty(),
        }) + " file: "@ + deleted->Err_0@,
{
    if !exists {
        return None;
    }
    match deleted {
        Ok(()) => None,
        Err(reason) => {
            let name = match file_name {
                Some(n) => n,
                None => String::new(),
            };
            Some(cat4("Failed to delete existing ", name.as_str(), " file: ", reason.as_str()))
        },
    }
}

/// One thing to do in order to unpack an entry of an archive.
pub enum ExtractStep<P> {
    /// Create the directory with its parents.
    CreateDirectory(P),
    /// Create the file, and copy the content of the entry into it.
    CopyInto(P),
}

/// What is done to unpack an entry: a directory is created, and a file is
/// copied, in a directory that is created first where it is missing.
pub open spec fn extract_steps<P>(is_dir: bool, destination: P, parent: Option<(P, bool)>) -> Seq<
    ExtractStep<P>,
> {
    if is_dir {
        seq![ExtractStep::CreateDirectory(destination)]
    } else {
        match parent {
            Some((dir, false)) => seq![
                ExtractStep::CreateDirectory(dir),
                ExtractStep::CopyInto(destination),
            ],
            _ => seq![ExtractStep::CopyInto(destination)],
        }
    }
}

/// Plans how an entry of an archive is unpacked. `parent` is the directory that
/// holds the destination, where it has one, and whether that exists.
pub fn extract_zip_entry(
    is_dir: bool,
    destination: FilePath,
    parent: Option<(FilePath, bool)>,
) -> (r: Vec<ExtractStep<FilePath>>)
    ensures
        r@ == extract_steps(is_dir, destination, parent),
{
    let mut steps: Vec<ExtractStep<FilePath>> = Vec::new();
    if is_dir {
        steps.push(ExtractStep::CreateDirectory(destination));
    } else {
        if let Some((dir, exists)) = parent {
            if !exists {
                steps.push(ExtractStep::CreateDirectory(dir));
            }
        }
        steps.push(ExtractStep::CopyInto(destination));
    }
    assert(steps@ =~= extract_steps(is_dir, destination, parent));
    steps
}

/// Gives context to the outcome of copying an entry to its destination.
pub fn finish_extraction(
    internal_path: &str,
    destination: &FilePath,
    copied: Result<(), Error>,
) -> (r: Result<(), Error>)
    ensures
        put_in_context(
            copied,
            r,
            "Failed to extract "@ + internal_path@ + " from zip to "@ + destination@.shown(),
        ),
{
    let context = cat4(
        "Failed to extract ",
        internal_path,
        " from zip to ",
        destination.display().as_str(),
    );
    copied.err_ctx(context)
}

/// Gives context to the outcome of opening an archive: the file first, then the
/// archive in it.
pub fn open_zip<T>(path: &FilePath, opened: Result<Result<T, Error>, Error>) -> (r: Result<
    T,
    Error,
>)
    ensures
        seen(r) == match opened {
            Err(e) => Err(wrapped_error("Failed to open file: "@ + path@.shown(), e@)),
            Ok(archive) => in_context(seen(archive), "Failed to open zip: "@ + path@.shown()),
        },
        result_trace(r) == match opened {
            Err(e) => e.trace(),
            Ok(archive) => result_trace(archive),
        },
{
    match open_file(path, opened) {
        Err(e) => Err(e),
        Ok(archive) => {
            let context = cat2("Failed to open zip: ", path.display().as_str());
            archive.err_ctx(context)
        },
    }
}

/// Why an entry is not had from an archive.
#[derive(Debug, PartialEq, Eq)]
pub enum ZipFailure {
    FileNotFound,
    /// Any other failure, by its text.
    Other(String),
}

/// An entry of an archive, if the archive has it.
pub fn find_zip_entry<T>(found: Result<T, ZipFailure>) -> (r: Result<Option<T>, Error>)
    ensures
        seen(r) == match found {
            Ok(entry) => Ok(Some(entry)),
            Err(ZipFailure::FileNotFound) => Ok(None),
            Err(ZipFailure::Other(detail)) => Err(ErrorView::Zip(detail@)),
        },
{
    match found {
        Ok(entry) => Ok(Some(entry)),
        Err(ZipFailure::FileNotFound) => Ok(None),
        Err(ZipFailure::Other(detail)) => Err(Error::zip(detail)),
    }
}

/// An entry that the archive must have.
pub fn require_zip_entry<T>(found: Result<T, ZipFailure>, name: &str) -> (r: Result<T, Error>)
    ensures
        seen(r) == match found {
            Ok(entry) => Ok(entry),
            Err(ZipFailure::FileNotFound) => Err(
                generic_error("Failed to find entry in zip: "@ + name@),
            ),
            Err(ZipFailure::Other(detail)) => Err(ErrorView::Zip(detail@)),
        },
{
    match find_zip_entry(found) {
        Err(e) => Err(e),
        Ok(Some(entry)) => Ok(entry),
        Ok(None) => Err(Error::generic(cat2("Failed to find entry in zip: ", name))),
    }
}

/// Gives context to the outcome of reading an entry.
pub fn read_zip_entry(name: &str, read: Result<Vec<u8>, Error>) -> (r: Result<Vec<u8>, Error>)
    ensures
        put_in_context(read, r, "Failed to read entry: "@ + name@),
{
    read.err_ctx(cat2("Failed to read entry: ", name))
}

/// An entry as text.
pub fn read_zip_entry_text(name: &str, read: Result<Vec<u8>, Error>) -> (r: Result<String, Error>)
    ensures
        match r {
            Ok(text) => read matches Ok(data) && valid_utf8(data@) && text@ == decode_utf8(data@),
            Err(e) => match read {
                Ok(data) => !valid_utf8(data@) && e@ == wrapped_error(
                    "Invalid UTF-8 in "@ + name@,
                    ErrorView::Utf(utf8_error_text(data@)),
                ),
                Err(cause) => e@ == wrapped_error("Failed to read entry: "@ + name@, cause@)
                    && e.trace() == cause.trace(),
            },
        },
{
    match read_zip_entry(name, read) {
        Err(e) => Err(e),
        Ok(data) => match string_from_utf8(data) {
            Ok(text) => Ok(text),
            Err(detail) => {
                let cause = Error::utf(detail);
                assert(cause@ == ErrorView::Utf(detail@));
                let text: Result<String, Error> = Err(cause);
                text.err_ctx(cat2("Invalid UTF-8 in ", name))
            },
        },
    }
}

/// What the platform puts between the entries of a class path.
pub open spec fn classpath_separator(platform: Platform) -> Seq<char> {
    match platform {
        Platform::Unix => ":"@,
        Platform::Windows => ";"@,
    }
}

/// What the platform puts between the entries of a class path.
pub fn classpath_sep(platform: Platform) -> (r: String)
    ensures
        r@ == classpath_separator(platform),
{
    match platform {
        Platform::Unix => ":".to_string(),
        Platform::Windows => ";".to_string(),
    }
}

/// A file matches exactly the digest that `file_hash` gives for it, and data
/// exactly the digest of a file with that content; both fail on the same reads.
pub proof fn law_hashes_agree(path: Seq<char>, read: FileRead, expected: Seq<u8>)
    ensures
        hash_outcome(path, read) is Ok <==> content_digest(path, read) is Ok,
        hash_outcome(path, read) matches Ok(hash) ==> content_digest(path, read) == Ok::<
            Seq<u8>,
            ErrorView,
        >(hash),
        read matches FileRead::Content(data) ==> ((expected == sha256_of(data@)) <==> hash_outcome(
            path,
            read,
        ) == Ok::<Seq<u8>, ErrorView>(expected)),
{
}

/// The entries of a class path are parted by a colon on Unix and by a semicolon
/// on Windows, each one byte.
pub proof fn law_classpath_separator()
    ensures
        classpath_separator(Platform::Unix) == seq![':'],
        classpath_separator(Platform::Windows) == seq![';'],
        encode_utf8(classpath_separator(Platform::Unix)) == seq![0x3au8],
        encode_utf8(classpath_separator(Platform::Windows)) == seq![0x3bu8],
{
    reveal_strlit(":");
    reveal_strlit(";");
    assert(":"@ =~= seq![':']);
    assert(";"@ =~= seq![';']);
    lemma_ascii_byte(':');
    lemma_ascii_byte(';');
}

/// The digest of a file is that of its whole content. A file that could not be
/// opened or read has none, and the text of the error names it, says what failed
/// where that was opening, and ends in the reason, whose backtrace is kept.
pub proof fn law_file_digest(path: Seq<char>, read: FileRead)
    ensures
        read matches FileRead::Content(data) ==> hash_outcome(path, read) == Ok::<
            Seq<u8>,
            ErrorView,
        >(sha256_of(data@)) && content_digest(path, read) == Ok::<Seq<u8>, ErrorView>(
            sha256_of(data@),
        ),
        read matches FileRead::NotOpened(e) ==> {
            &&& hash_outcome(path, read) is Err
            &&& hash_outcome(path, read)->Err_0.text() == "Failed to hash file "@ + path
                + "\nCaused by: "@ + ("Failed to open file: "@ + path + "\nCaused by: "@
                + e@.text())
            &&& content_digest(path, read)->Err_0.text() == "Failed to open file: "@ + path
                + "\nCaused by: "@ + e@.text()
            &&& content_digest(path, read) is Err
            &&& read_trace(read) == e.trace()
        },
        read matches FileRead::Broken(e) ==> {
            &&& hash_outcome(path, read) is Err
            &&& hash_outcome(path, read)->Err_0.text() == "Failed to hash file "@ + path
                + "\nCaused by: "@ + e@.text()
            &&& content_digest(path, read) == Err::<Seq<u8>, ErrorView>(e@)
            &&& read_trace(read) == e.trace()
        },
{
    reveal_with_fuel(ErrorView::text, 3);
}

/// Unpacking creates a directory for an entry that is one, and copies any other
/// entry to its destination, once and last; the directory of the destination is
/// created before that exactly where it is known and missing.
pub proof fn law_extract_steps<P>(is_dir: bool, destination: P, parent: Option<(P, bool)>)
    ensures
        ({
            let steps = extract_steps(is_dir, destination, parent);
            let n = steps.len();
            let missing = !is_dir && (parent matches Some((_, exists)) && !exists);
            &&& n == 1 || n == 2
            &&& is_dir ==> n == 1 && steps[0] == ExtractStep::CreateDirectory(destination)
            &&& !is_dir ==> steps[n - 1] == ExtractStep::CopyInto(destination)
            &&& n == 2 <==> missing
            &&& missing ==> steps[0] == ExtractStep::CreateDirectory(parent->Some_0.0)
        }),
{
}

/// A digest is seen as its bytes, and an error as what it says.
pub proof fn law_seen_hash(hash: [u8; 32], e: Error)
    ensures
        seen_hash(Ok(hash)) == Ok::<Seq<u8>, ErrorView>(hash@),
        seen_hash(Err(e)) == Err::<Seq<u8>, ErrorView>(e@),
{
}

} // verus!
