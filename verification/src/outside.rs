//! The calls into the standard library and into other crates whose results are
//! taken on trust. Each item says what is claimed of the function that it calls.

use crate::errors::HexError;
use sha2::Digest;
use vstd::prelude::*;
use vstd::utf8::{decode_utf8, encode_utf8, valid_utf8};

verus! {

/// The text of the error that `String::from_utf8` gives on `bytes`, as its
/// `Debug` form writes it.
pub uninterp spec fn utf8_error_text(bytes: Seq<u8>) -> Seq<char>;

/// Calls `String::from_utf8`. It succeeds exactly on valid UTF-8, with the
/// characters that the bytes encode; the error is reported by its `Debug` text.
#[verifier::external_body]
pub(crate) fn string_from_utf8(bytes: Vec<u8>) -> (r: Result<String, String>)
    ensures
        r is Ok <==> valid_utf8(bytes@),
        r matches Ok(s) ==> s@ == decode_utf8(bytes@),
        r matches Err(e) ==> e@ == utf8_error_text(bytes@),
{
    String::from_utf8(bytes).map_err(|e| format!("{:?}", e))
}

/// The text that `String::from_utf8_lossy` makes of `bytes`.
pub uninterp spec fn lossy_text(bytes: Seq<u8>) -> Seq<char>;

/// Calls `String::from_utf8_lossy`. Valid UTF-8 gives the characters that it
/// encodes; which replacement characters stand for invalid parts is not stated.
#[verifier::external_body]
pub(crate) fn from_utf8_lossy(bytes: &[u8]) -> (r: String)
    ensures
        r@ == lossy_text(bytes@),
        valid_utf8(bytes@) ==> r@ == decode_utf8(bytes@),
{
    String::from_utf8_lossy(bytes).into_owned()
}

/// The text of a character as its `Debug` form writes it, in quotes and with
/// its escapes.
pub uninterp spec fn char_debug_text(c: char) -> Seq<char>;

/// Calls the `Debug` form of `char`. Nothing is stated of the text beyond that
/// it depends on the character alone.
#[verifier::external_body]
pub(crate) fn char_debug(c: char) -> (r: String)
    ensures
        r@ == char_debug_text(c),
{
    format!("{:?}", c)
}

/// Every character is a decimal digit.
pub open spec fn all_digits(s: Seq<char>) -> bool {
    forall|i: int| 0 <= i < s.len() ==> '0' <= #[trigger] s[i] <= '9'
}

/// The value of the decimal digits `s`.
pub open spec fn digits_value(s: Seq<char>) -> nat
    decreases s.len(),
{
    if s.len() == 0 {
        0
    } else {
        10 * digits_value(s.drop_last()) + (s.last() as u32 - '0' as u32) as nat
    }
}

/// The number that `s` writes: an optional plus sign and then decimal digits,
/// at least one of them, up to the largest 16-bit number.
pub open spec fn u16_of(s: Seq<char>) -> Option<nat> {
    let digits = if s.len() > 0 && s[0] == '+' {
        s.drop_first()
    } else {
        s
    };
    if digits.len() > 0 && all_digits(digits) && digits_value(digits) <= u16::MAX {
        Some(digits_value(digits))
    } else {
        None
    }
}

/// The text of the error that `str::parse::<u16>` gives on `s`, as its `Debug`
/// form writes it.
pub uninterp spec fn u16_error_text(s: Seq<char>) -> Seq<char>;

/// Calls `str::parse::<u16>`. It reads exactly the texts that `u16_of` gives a
/// number; the error is reported by its `Debug` text.
#[verifier::external_body]
pub(crate) fn parse_u16(s: &str) -> (r: Result<u16, String>)
    ensures
        r is Ok <==> u16_of(s@) is Some,
        r matches Ok(n) ==> n as nat == u16_of(s@).unwrap(),
        r matches Err(e) ==> e@ == u16_error_text(s@),
{
    s.parse::<u16>().map_err(|e| format!("{:?}", e))
}

/// The value of a hexadecimal digit, of either case.
pub open spec fn hex_value(b: u8) -> Option<nat> {
    if 0x30 <= b <= 0x39 {
        Some((b - 0x30) as nat)
    } else if 0x41 <= b <= 0x46 {
        Some((b - 0x41 + 10) as nat)
    } else if 0x61 <= b <= 0x66 {
        Some((b - 0x61 + 10) as nat)
    } else {
        None
    }
}

/// Whether `data` is what the hexadecimal digits `digits` write, two to a byte.
pub open spec fn hex_writes(digits: Seq<u8>, data: Seq<u8>) -> bool {
    &&& digits.len() == 2 * data.len()
    &&& forall|i: int| #![trigger data[i]]
        0 <= i < data.len() ==> hex_value(digits[2 * i]) is Some && hex_value(digits[2 * i + 1])
            is Some && data[i] == 16 * hex_value(digits[2 * i]).unwrap() + hex_value(
            digits[2 * i + 1],
        ).unwrap()
}

/// The error of a text that is not hexadecimal: its length in bytes is odd, or
/// it holds a byte, the first of them at `index`, that is no digit.
pub open spec fn hex_fails(digits: Seq<u8>, e: HexError) -> bool {
    match e {
        HexError::OddLength => digits.len() % 2 == 1,
        HexError::InvalidHexCharacter { c, index } => {
            &&& digits.len() % 2 == 0
            &&& index < digits.len()
            &&& hex_value(digits[index as int]) is None
            &&& c == digits[index as int] as char
            &&& forall|j: int| 0 <= j < index ==> hex_value(#[trigger] digits[j]) is Some
        },
        HexError::InvalidStringLength => false,
    }
}

/// Calls `hex::decode` on the bytes of the text. It gives the bytes that the
/// digits write, and otherwise the first thing that is wrong with the text.
#[verifier::external_body]
pub(crate) fn hex_decode(s: &str) -> (r: Result<Vec<u8>, HexError>)
    ensures
        r matches Ok(data) ==> hex_writes(encode_utf8(s@), data@),
        r matches Err(e) ==> hex_fails(encode_utf8(s@), e),
{
    hex::decode(s).map_err(
        |e|
            match e {
                hex::FromHexError::InvalidHexCharacter { c, index } => {
                    HexError::InvalidHexCharacter { c, index }
                },
                hex::FromHexError::OddLength => HexError::OddLength,
                hex::FromHexError::InvalidStringLength => HexError::InvalidStringLength,
            },
    )
}

/// The SHA-256 digest of `data`.
pub uninterp spec fn sha256_of(data: Seq<u8>) -> Seq<u8>;

/// Calls `sha2::Sha256::digest`. The digest depends on the data alone and has
/// 32 bytes.
#[verifier::external_body]
pub(crate) fn sha256(data: &[u8]) -> (r: [u8; 32])
    ensures
        r@ == sha256_of(data@),
{
    sha2::Sha256::digest(data).0
}

/// The bytes that postcard writes for a text, a list of texts, a list of
/// digests and a digest, in this order.
pub uninterp spec fn postcard_bytes(
    ident: Seq<char>,
    args: Seq<Seq<char>>,
    classpath: Seq<Seq<u8>>,
    cache: Seq<u8>,
) -> Seq<u8>;

/// What postcard reads from `bytes` as a text, a list of texts, a list of
/// digests and a digest, on a machine whose words have `word_bits` bits: the
/// size of a word limits how a length may be written.
pub uninterp spec fn postcard_parts(word_bits: u32, bytes: Seq<u8>) -> Option<
    (Seq<char>, Seq<Seq<char>>, Seq<Seq<u8>>, Seq<u8>),
>;

/// Calls `postcard::to_extend` with an empty vector. Such values are always
/// written, and postcard reads from the bytes what was written.
#[verifier::external_body]
pub(crate) fn postcard_encode(
    ident: &String,
    args: &Vec<String>,
    classpath: &Vec<[u8; 32]>,
    cache: &[u8; 32],
) -> (r: Result<Vec<u8>, String>)
    ensures
        r is Ok,
        r matches Ok(bytes) ==> bytes@ == postcard_bytes(
            ident@,
            args.deep_view(),
            classpath.deep_view(),
            cache@,
        ),
        r matches Ok(bytes) ==> postcard_parts(usize::BITS, bytes@) == Some(
            (ident@, args.deep_view(), classpath.deep_view(), cache@),
        ),
{
    postcard::to_extend(&(ident, args, classpath, cache), Vec::new()).map_err(
        |e| format!("{:?}", e),
    )
}

/// Calls `postcard::from_bytes`. What it reads depends on the bytes and the size
/// of a word alone; which bytes it refuses is not stated.
#[verifier::external_body]
pub(crate) fn postcard_decode(bytes: &[u8]) -> (r: Option<
    (String, Vec<String>, Vec<[u8; 32]>, [u8; 32]),
>)
    ensures
        r is Some <==> postcard_parts(usize::BITS, bytes@) is Some,
        r matches Some(parts) ==> postcard_parts(usize::BITS, bytes@) == Some(
            (parts.0@, parts.1.deep_view(), parts.2.deep_view(), parts.3@),
        ),
{
    postcard::from_bytes::<(String, Vec<String>, Vec<[u8; 32]>, [u8; 32])>(bytes).ok()
}

/// A backtrace of the standard library.
#[verifier::external_type_specification]
#[verifier::external_body]
pub struct ExBacktrace(std::backtrace::Backtrace);

/// `std::backtrace::Backtrace::capture`. What it captures, if anything, rests on
/// the environment and on the machine, so nothing is stated.
pub assume_specification[ std::backtrace::Backtrace::capture ]() -> (r: std::backtrace::Backtrace)
;

/// Calls `std::backtrace::Backtrace::status`, and tells whether there is a
/// backtrace. That rests on the environment, so nothing is stated.
#[verifier::external_body]
pub(crate) fn is_captured(backtrace: &std::backtrace::Backtrace) -> (r: bool) {
    match backtrace.status() {
        std::backtrace::BacktraceStatus::Captured => true,
        _ => false,
    }
}

/// Calls the `Display` form of `std::backtrace::Backtrace`. The text rests on the
/// machine, so nothing is stated.
#[verifier::external_body]
pub(crate) fn backtrace_text(backtrace: &std::backtrace::Backtrace) -> (r: String) {
    format!("{}", backtrace)
}

/// `From` of a type for itself, in the standard library. It gives its argument
/// back.
pub assume_specification<Val>[ <Val as std::convert::From<Val>>::from ](value: Val) -> (r: Val)
    ensures
        r == value,
;

/// `From` of `&str` for `String`. The string holds the same text.
pub assume_specification<'a>[ <std::string::String as std::convert::From<&'a str>>::from ](
    text: &str,
) -> (r: std::string::String)
    ensures
        r@ == text@,
;

} // verus!
