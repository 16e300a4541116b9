//! Small tools that the rest of the launcher uses.

pub mod fs;
pub mod jni;
pub mod windows;

use crate::errors::{
    generic_error, seen, Error, ErrorView, HexError, IntoError, WithContext,
};
use crate::outside::{hex_decode, hex_fails, hex_value, hex_writes};
use crate::text::{cat2, cat4};
use vstd::prelude::*;
use vstd::std_specs::iter::IteratorSpec;
use vstd::utf8::encode_utf8;

verus! {

/// The items of a slice, each cloned, in order.
pub fn copy_owned<S: Clone>(slice: &[S]) -> (r: Vec<S>)
    ensures
        r@.len() == slice@.len(),
        forall|i: int| 0 <= i < r@.len() ==> cloned(slice@[i], #[trigger] r@[i]),
{
    let mut res: Vec<S> = Vec::with_capacity(slice.len());
    let mut i: usize = 0;
    while i < slice.len()
        invariant
            i <= slice@.len(),
            res@.len() == i,
            forall|j: int| 0 <= j < i ==> cloned(slice@[j], #[trigger] res@[j]),
        decreases slice@.len() - i,
    {
        res.push(slice[i].clone());
        i += 1;
    }
    res
}

/// An ASCII letter in lower case; any other byte itself.
pub open spec fn ascii_lower(b: u8) -> u8 {
    if 0x41 <= b <= 0x5a {
        (b + 0x20) as u8
    } else {
        b
    }
}

/// Whether the value of an environment variable, as its bytes, switches
/// something on: it is `1`, or `true` in letters of any case.
pub open spec fn switches_on(value: Seq<u8>) -> bool {
    ||| value == seq![0x31u8]
    ||| value.len() == 4 && ascii_lower(value[0]) == 0x74 && ascii_lower(value[1]) == 0x72
        && ascii_lower(value[2]) == 0x75 && ascii_lower(value[3]) == 0x65
}

fn lower(b: u8) -> (r: u8)
    ensures
        r == ascii_lower(b),
{
    if 0x41 <= b && b <= 0x5a {
        b + 0x20
    } else {
        b
    }
}

/// Whether an environment variable is set to something that switches on.
pub fn is_env_true(value: Option<Vec<u8>>) -> (r: bool)
    ensures
        r == (value matches Some(v) && switches_on(v@)),
{
    match value {
        None => false,
        Some(v) => {
            if v.len() == 1 {
                assert(v@ =~= seq![v@[0]]);
                v[0] == 0x31
            } else if v.len() == 4 {
                lower(v[0]) == 0x74 && lower(v[1]) == 0x72 && lower(v[2]) == 0x75 && lower(v[3])
                    == 0x65
            } else {
                false
            }
        },
    }
}

/// The outcome of reading `s` as a digest of 32 bytes in hexadecimal: the
/// digest, the error of a text that is not hexadecimal, or one that names the
/// text where the length is not that of a digest.
pub open spec fn hex_outcome(s: Seq<char>, r: Result<[u8; 32], ErrorView>) -> bool {
    match r {
        Ok(hash) => hex_writes(encode_utf8(s), hash@),
        Err(ErrorView::Hex(e)) => hex_fails(encode_utf8(s), e),
        Err(e) => {
            &&& e == generic_error("Invalid hex string (not 32 bytes long): "@ + s)
            &&& encode_utf8(s).len() != 64
            &&& exists|data: Seq<u8>| hex_writes(encode_utf8(s), data)
        },
    }
}

/// Reads a digest of 32 bytes from its hexadecimal text.
pub fn parse_hex(s: &str) -> (r: Result<[u8; 32], Error>)
    ensures
        hex_outcome(s@, seen(r)),
{
    let decoded = match hex_decode(s).into_error() {
        Ok(d) => d,
        Err(e) => return Err(e),
    };
    if decoded.len() != 32 {
        return Err(
            Error::generic(cat2("Invalid hex string (not 32 bytes long): ", s)),
        );
    }
    let mut res: [u8; 32] = [0u8; 32];
    let mut i: usize = 0;
    while i < 32
        invariant
            i <= 32,
            decoded@.len() == 32,
            forall|j: int| 0 <= j < i ==> res@[j] == decoded@[j],
        decreases 32 - i,
    {
        res[i] = decoded[i];
        i += 1;
    }
    assert(res@ =~= decoded@);
    Ok(res)
}

/// Reads a digest of 32 bytes from its hexadecimal text; an error says which
/// text it was.
pub fn parse_hex_named(name: &str, s: &str) -> (r: Result<[u8; 32], Error>)
    ensures
        match r {
            Ok(hash) => hex_outcome(s@, Ok(hash)),
            Err(e) => e@ matches ErrorView::Wrapped { msg, cause } && msg
                == "Failed to parse hex string '"@ + name@ + "': "@ + s@ && hex_outcome(
                s@,
                Err(*cause),
            ),
        },
{
    let context = cat4("Failed to parse hex string '", name, "': ", s);
    parse_hex(s).err_ctx(context)
}

/// Reading succeeds on exactly the texts of 64 hexadecimal digits, of either
/// case. The digest, and the error otherwise, is determined by the text.
pub proof fn law_parse_hex(s: Seq<char>, a: Result<[u8; 32], ErrorView>, b: Result<[u8; 32], ErrorView>)
    requires
        hex_outcome(s, a),
        hex_outcome(s, b),
    ensures
        a is Ok <==> encode_utf8(s).len() == 64 && forall|i: int|
            0 <= i < 64 ==> hex_value(#[trigger] encode_utf8(s)[i]) is Some,
        a is Ok ==> b is Ok && a->Ok_0@ == b->Ok_0@,
        a is Err ==> b == a,
{
    let d = encode_utf8(s);
    assert forall|r: Result<[u8; 32], ErrorView>| #[trigger] hex_outcome(s, r) implies (r is Ok
        <==> d.len() == 64 && forall|i: int| 0 <= i < 64 ==> hex_value(#[trigger] d[i]) is Some) by {
        match r {
            Ok(hash) => {
                assert forall|i: int| 0 <= i < 64 implies hex_value(#[trigger] d[i]) is Some by {
                    let byte = hash@[i / 2];
                    assert(i == 2 * (i / 2) || i == 2 * (i / 2) + 1);
                }
            },
            Err(ErrorView::Hex(HexError::InvalidHexCharacter { c, index })) => {
                assert(hex_value(d[index as int]) is None);
            },
            Err(_) => {},
        }
    }
    if a is Ok {
        assert(b is Ok);
        assert forall|i: int| 0 <= i < 32 implies a->Ok_0@[i] == b->Ok_0@[i] by {
            assert(a->Ok_0@[i] == b->Ok_0@[i]);
        }
        assert(a->Ok_0@ =~= b->Ok_0@);
    } else {
        assert(b is Err);
        lemma_hex_error(s, a->Err_0, b->Err_0);
    }
}

proof fn lemma_hex_error(s: Seq<char>, a: ErrorView, b: ErrorView)
    requires
        hex_outcome(s, Err(a)),
        hex_outcome(s, Err(b)),
    ensures
        a == b,
{
    let d = encode_utf8(s);
    assert forall|data: Seq<u8>, e: HexError| #[trigger]
        hex_writes(d, data) implies !#[trigger] hex_fails(d, e) by {
        if let HexError::InvalidHexCharacter { c, index } = e {
            if hex_fails(d, e) {
                let i = index as int / 2;
                let byte = data[i];
                assert(index == 2 * i || index == 2 * i + 1);
            }
        }
    }
    match (a, b) {
        (
            ErrorView::Hex(HexError::InvalidHexCharacter { c: c, index: i }),
            ErrorView::Hex(HexError::InvalidHexCharacter { c: e, index: j }),
        ) => {
            if i < j {
                assert(hex_value(d[i as int]) is Some);
            } else if j < i {
                assert(hex_value(d[j as int]) is Some);
            }
        },
        _ => {},
    }
}

/// The end of a thread that did not return.
#[derive(Clone, Copy, Debug, PartialEq, Eq, Structural)]
pub struct ThreadPanicked;

/// What comes of waiting for a thread that returns a result.
pub trait JoinHandleRes: Sized {
    type Output;

    /// What the thread returned, or that it panicked.
    spec fn joined(self) -> Result<Self::Output, ThreadPanicked>;

    /// Whether `out` reports that the thread panicked.
    spec fn reports_panic(out: Self::Output) -> bool;

    fn join_res(self) -> (r: Self::Output)
        ensures
            self.joined() matches Ok(out) ==> r == out,
            self.joined() is Err ==> Self::reports_panic(r),
    ;
}

impl<T> JoinHandleRes for Result<Result<T, Error>, ThreadPanicked> {
    type Output = Result<T, Error>;

    open spec fn joined(self) -> Result<Result<T, Error>, ThreadPanicked> {
        self
    }

    open spec fn reports_panic(out: Result<T, Error>) -> bool {
        seen(out) == Err::<T, ErrorView>(generic_error("Thread error"@))
    }

    fn join_res(self) -> (r: Result<T, Error>) {
        match self {
            Ok(out) => out,
            Err(_) => Err(Error::generic("Thread error")),
        }
    }
}

/// An iterator with another one put in front of it for a while: the layer is
/// taken from first, and once it has nothing more it is dropped.
pub struct ComposingIterator<B: Iterator> {
    base: B,
    layer: Option<B>,
}

impl<B: Iterator> ComposingIterator<B> {
    /// The iterator that is taken from when there is no layer.
    pub closed spec fn base(&self) -> B {
        self.base
    }

    /// The iterator that is taken from first.
    pub closed spec fn layer(&self) -> Option<B> {
        self.layer
    }

    /// Both iterators keep the rule of iterators: they yield their items in
    /// order, and then `None` for good.
    pub open spec fn lawful(&self) -> bool {
        &&& IteratorSpec::obeys_prophetic_iter_laws(&self.base())
        &&& self.layer() matches Some(l) ==> IteratorSpec::obeys_prophetic_iter_laws(&l)
    }

    /// Iterates over `base` alone.
    pub fn new(base: B) -> (r: Self)
        ensures
            r.base() == base,
            r.layer() is None,
    {
        Self { base, layer: None }
    }

    /// Puts `layer` in front; a layer that was there is dropped.
    pub fn push_layer(&mut self, layer: B)
        ensures
            final(self).base() == old(self).base(),
            final(self).layer() == Some(layer),
    {
        self.layer = Some(layer);
    }

    /// Whether there is a layer.
    pub fn is_nested(&self) -> (r: bool)
        ensures
            r == (self.layer() is Some),
    {
        self.layer.is_some()
    }

    /// The next item: of the layer while it has one, then of the base. What is
    /// still to come is what was to come, without that item.
    pub fn next(&mut self) -> (r: Option<B::Item>)
        ensures
            old(self).lawful() ==> {
                let layered = match old(self).layer() {
                    Some(l) => IteratorSpec::remaining(&l),
                    None => Seq::empty(),
                };
                let based = IteratorSpec::remaining(&old(self).base());
                let layered_after = match final(self).layer() {
                    Some(l) => IteratorSpec::remaining(&l),
                    None => Seq::empty(),
                };
                let based_after = IteratorSpec::remaining(&final(self).base());
                &&& final(self).lawful()
                &&& layered.len() > 0 ==> final(self).layer() is Some && final(self).base()
                    == old(self).base()
                &&& layered.len() == 0 ==> final(self).layer() is None
                &&& if layered.len() + based.len() > 0 {
                    &&& r == Some((layered + based)[0])
                    &&& layered_after + based_after == (layered + based).drop_first()
                } else {
                    &&& r is None
                    &&& layered_after + based_after == layered + based
                }
            },
            old(self).layer() is None ==> final(self).layer() is None,
            final(self).layer() is Some ==> final(self).base() == old(self).base(),
    {
        let ghost before = *self;
        if let Some(layer) = &mut self.layer {
            match layer.next() {
                Some(n) => {
                    return Some(n);
                },
                None => {
                    self.layer = None;
                },
            }
        }
        self.base.next()
    }
}

/// An environment variable switches something on exactly where it is `1`, or the
/// four letters of `true`, each in either case.
pub proof fn law_switches_on(value: Seq<u8>)
    ensures
        switches_on(value) <==> {
            ||| value.len() == 1 && value[0] == 0x31
            ||| value.len() == 4 && (value[0] == 0x74 || value[0] == 0x54) && (value[1] == 0x72
                || value[1] == 0x52) && (value[2] == 0x75 || value[2] == 0x55) && (value[3] == 0x65
                || value[3] == 0x45)
        },
{
    if value.len() == 1 {
        assert(value =~= seq![value[0]]);
    }
}

/// Each byte of a digest is written by two characters, the first for its upper
/// half and the second for its lower half.
pub proof fn law_digest_is_written(s: Seq<char>, hash: [u8; 32], i: int)
    requires
        hex_outcome(s, Ok(hash)),
        0 <= i < 32,
    ensures
        ({
            let d = encode_utf8(s);
            &&& d.len() == 64
            &&& hex_value(d[2 * i]) matches Some(high) && hex_value(d[2 * i + 1]) matches Some(low)
                && hash@[i] == 16 * high + low
        }),
{
    assert(hash@.len() == 32);
    let b = hash@[i];
}

/// The values of the hexadecimal digits: ten for the decimal digits, and the six
/// after them for the letters from `a` to `f` of either case; nothing else is one.
pub proof fn law_hex_digits(b: u8, n: nat)
    ensures
        hex_value(b) == Some(n) <==> {
            ||| n < 10 && b == 0x30 + n
            ||| 10 <= n < 16 && (b == 0x61 + (n - 10) || b == 0x41 + (n - 10))
        },
{
}

/// A text that is no digest is told by what is wrong with it: first an odd length
/// in bytes, then the first byte that is no digit with its place, and last, of a
/// text of digits alone, that it is not 64 of them; that error names the text.
pub proof fn law_hex_errors(s: Seq<char>, e: ErrorView)
    requires
        hex_outcome(s, Err(e)),
    ensures
        ({
            let d = encode_utf8(s);
            let digits = forall|i: int| 0 <= i < d.len() ==> hex_value(#[trigger] d[i]) is Some;
            &&& d.len() % 2 == 1 ==> e == ErrorView::Hex(HexError::OddLength)
            &&& d.len() % 2 == 0 && !digits ==> (e matches ErrorView::Hex(
                HexError::InvalidHexCharacter { c, index },
            ) && index < d.len() && c == d[index as int] as char && hex_value(d[index as int])
                is None && forall|j: int| 0 <= j < index ==> hex_value(#[trigger] d[j]) is Some)
            &&& d.len() % 2 == 0 && digits ==> d.len() != 64 && e.text()
                == "Invalid hex string (not 32 bytes long): "@ + s
        }),
{
    let d = encode_utf8(s);
    if !(e is Hex) {
        let data = choose|data: Seq<u8>| hex_writes(d, data);
        assert(d.len() == 2 * data.len());
        assert forall|i: int| 0 <= i < d.len() implies hex_value(#[trigger] d[i]) is Some by {
            let byte = data[i / 2];
            assert(i == 2 * (i / 2) || i == 2 * (i / 2) + 1);
        }
    }
}

/// A thread that panicked is told as the error `Thread error`; one that returned
/// is told as what it returned.
pub proof fn law_thread_panic<T>(out: Result<T, Error>)
    ensures
        <Result<Result<T, Error>, ThreadPanicked> as JoinHandleRes>::reports_panic(out) <==> (
        out matches Err(e) && e@ == (ErrorView::Generic { msg: "Thread error"@ })),
        JoinHandleRes::joined(Ok::<Result<T, Error>, ThreadPanicked>(out)) == Ok::<
            Result<T, Error>,
            ThreadPanicked,
        >(out),
{
}

} // verus!
