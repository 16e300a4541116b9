//! Paths in the file system, as a base that the platform gave and the names
//! that were appended to it.

use crate::outside::{lossy_text, string_from_utf8};
use crate::text::{decode_lossy, readable};
use crate::util::jni::lemma_encode_parts;
use vstd::prelude::*;
use vstd::string::*;
use vstd::utf8::{decode_utf8, encode_scalar, encode_utf8, valid_utf8};

verus! {

/// The family of platforms that the launcher runs on.
#[derive(Clone, Copy, Debug, PartialEq, Eq, Structural)]
pub enum Platform {
    Unix,
    Windows,
}

/// The byte that the platform puts between the names of a path.
pub open spec fn separator_of(platform: Platform) -> u8 {
    match platform {
        Platform::Unix => 0x2f,
        Platform::Windows => 0x5c,
    }
}

/// Whether the platform takes `b` as a separator in a path.
pub open spec fn is_separator(platform: Platform, b: u8) -> bool {
    b == 0x2f || (platform == Platform::Windows && b == 0x5c)
}

/// A Windows drive without a directory, such as `C:`. A name after it is
/// relative to the current directory of the drive.
pub open spec fn is_bare_drive(platform: Platform, dir: Seq<u8>) -> bool {
    &&& platform == Platform::Windows
    &&& dir.len() == 2
    &&& dir[1] == 0x3a
    &&& (0x41 <= dir[0] <= 0x5a || 0x61 <= dir[0] <= 0x7a)
}

/// A Windows path that is taken word for word, such as `\\?\C:\srv`: only the
/// backslash separates its names.
pub open spec fn is_verbatim(platform: Platform, dir: Seq<u8>) -> bool {
    &&& platform == Platform::Windows
    &&& dir.len() >= 4
    &&& dir[0] == 0x5c
    &&& dir[1] == 0x5c
    &&& dir[2] == 0x3f
    &&& dir[3] == 0x5c
}

/// The bytes with one backslash in place of several in a row, and none at the
/// end.
pub open spec fn squeezed(s: Seq<u8>) -> Seq<u8>
    decreases s.len(),
{
    if s.len() == 0 {
        s
    } else if s.last() == 0x5c {
        squeezed(s.drop_last())
    } else if s.len() > 1 && s[s.len() - 2] == 0x5c {
        squeezed(s.drop_last()).push(0x5c).push(s.last())
    } else {
        squeezed(s.drop_last()).push(s.last())
    }
}

/// The path of `name` in the directory `dir`: a separator stands between them
/// unless `dir` is empty, ends in one, or is a bare drive. A directory that is
/// taken word for word has single separators afterwards.
pub open spec fn joined(platform: Platform, dir: Seq<u8>, name: Seq<u8>) -> Seq<u8> {
    if is_verbatim(platform, dir) {
        dir.take(4) + squeezed(dir.skip(4)).push(0x5c) + name
    } else if dir.len() == 0 || is_separator(platform, dir.last()) || is_bare_drive(platform, dir) {
        dir + name
    } else {
        dir.push(separator_of(platform)) + name
    }
}

/// A name that is one component of a path on every platform: it is not empty,
/// not `.` or `..`, and holds no `/`, `\` or `:`.
pub open spec fn plain_name(name: Seq<char>) -> bool {
    &&& name.len() > 0
    &&& name != seq!['.']
    &&& name != seq!['.', '.']
    &&& forall|i: int|
        0 <= i < name.len() ==> name[i] != '/' && name[i] != '\\' && #[trigger] name[i] != ':'
}

/// Half of a character in the encoding of Windows, which is no character of its
/// own, starts at this place.
pub open spec fn surrogate_at(bytes: Seq<u8>, i: int) -> bool {
    &&& 0 <= i
    &&& i + 2 < bytes.len()
    &&& bytes[i] == 0xed
    &&& 0xa0 <= bytes[i + 1] <= 0xbf
    &&& 0x80 <= bytes[i + 2] <= 0xbf
}

/// The bytes with the replacement character in place of each half of a
/// character.
pub open spec fn surrogates_replaced(bytes: Seq<u8>) -> Seq<u8> {
    Seq::new(
        bytes.len(),
        |i: int|
            if surrogate_at(bytes, i) {
                0xefu8
            } else if surrogate_at(bytes, i - 1) {
                0xbfu8
            } else if surrogate_at(bytes, i - 2) {
                0xbdu8
            } else {
                bytes[i]
            },
    )
}

/// The text in which `bytes`, in the encoding of the platform, are shown: what
/// they encode where that is valid UTF-8, and otherwise what is left once
/// invalid parts are replaced.
pub open spec fn shown_text(platform: Platform, bytes: Seq<u8>) -> Seq<char> {
    if valid_utf8(bytes) {
        decode_utf8(bytes)
    } else {
        match platform {
            Platform::Unix => readable(bytes),
            Platform::Windows => readable(surrogates_replaced(bytes)),
        }
    }
}

fn is_surrogate(bytes: &[u8], i: usize) -> (r: bool)
    ensures
        r == surrogate_at(bytes@, i as int),
{
    let n = bytes.len();
    n >= 3 && i < n - 2 && bytes[i] == 0xed && 0xa0 <= bytes[i + 1] && bytes[i + 1] <= 0xbf && 0x80
        <= bytes[i + 2] && bytes[i + 2] <= 0xbf
}

fn replace_surrogates(bytes: &[u8]) -> (r: Vec<u8>)
    ensures
        r@ == surrogates_replaced(bytes@),
{
    let mut out: Vec<u8> = Vec::new();
    let mut i: usize = 0;
    while i < bytes.len()
        invariant
            i <= bytes@.len(),
            out@ == surrogates_replaced(bytes@).take(i as int),
        decreases bytes@.len() - i,
    {
        let b: u8 = if is_surrogate(bytes, i) {
            0xef
        } else if i >= 1 && is_surrogate(bytes, i - 1) {
            0xbf
        } else if i >= 2 && is_surrogate(bytes, i - 2) {
            0xbd
        } else {
            bytes[i]
        };
        out.push(b);
        i += 1;
        assert(out@ =~= surrogates_replaced(bytes@).take(i as int));
    }
    assert(out@ =~= surrogates_replaced(bytes@));
    out
}

/// Shows bytes in the encoding of the platform as text.
pub(crate) fn show(platform: Platform, bytes: &Vec<u8>) -> (r: String)
    ensures
        r@ == shown_text(platform, bytes@),
{
    let copy = bytes.clone();
    assert(copy@ =~= bytes@);
    match string_from_utf8(copy) {
        Ok(text) => text,
        Err(_) => match platform {
            Platform::Unix => decode_lossy(bytes.as_slice()),
            Platform::Windows => decode_lossy(replace_surrogates(bytes.as_slice()).as_slice()),
        },
    }
}

fn squeeze(bytes: &Vec<u8>, from: usize) -> (r: Vec<u8>)
    requires
        from <= bytes.len(),
    ensures
        r@ == squeezed(bytes@.skip(from as int)),
{
    let mut out: Vec<u8> = Vec::new();
    let ghost all = bytes@.skip(from as int);
    assert(all.take(0) =~= Seq::empty());
    let mut i: usize = from;
    while i < bytes.len()
        invariant
            from <= i <= bytes.len(),
            all == bytes@.skip(from as int),
            out@ == squeezed(all.take(i - from)),
        decreases bytes.len() - i,
    {
        let ghost next = all.take(i - from + 1);
        assert(next.drop_last() =~= all.take(i - from));
        assert(next.last() == bytes@[i as int]);
        if bytes[i] != 0x5c {
            if i > from && bytes[i - 1] == 0x5c {
                assert(next[next.len() - 2] == 0x5c);
                out.push(0x5c);
            }
            out.push(bytes[i]);
        }
        i += 1;
        assert(out@ =~= squeezed(next));
    }
    assert(all.take(i - from) =~= all);
    out
}

fn join(platform: Platform, dir: Vec<u8>, name: &[u8]) -> (r: Vec<u8>)
    ensures
        r@ == joined(platform, dir@, name@),
{
    let n = dir.len();
    if platform == Platform::Windows && n >= 4 && dir[0] == 0x5c && dir[1] == 0x5c && dir[2] == 0x3f
        && dir[3] == 0x5c {
        let mut rest = squeeze(&dir, 4);
        let mut out: Vec<u8> = Vec::new();
        out.push(0x5c);
        out.push(0x5c);
        out.push(0x3f);
        out.push(0x5c);
        assert(out@ =~= dir@.take(4));
        out.append(&mut rest);
        out.push(0x5c);
        let ghost before = out@;
        out.extend_from_slice(name);
        assert(out@ =~= before + name@);
        assert(out@ =~= joined(platform, dir@, name@));
        return out;
    }
    let mut out = dir;
    let bare = platform == Platform::Windows && n == 2 && out[1] == 0x3a && ((0x41 <= out[0]
        && out[0] <= 0x5a) || (0x61 <= out[0] && out[0] <= 0x7a));
    if n == 0 || bare {
    } else if out[n - 1] == 0x2f || (platform == Platform::Windows && out[n - 1] == 0x5c) {
    } else {
        match platform {
            Platform::Unix => out.push(0x2f),
            Platform::Windows => out.push(0x5c),
        }
    }
    let ghost before = out@;
    out.extend_from_slice(name);
    assert(out@ =~= before + name@);
    out
}

/// What a path is: the bytes of its base, in the encoding of the platform, and
/// the names that follow it.
#[verifier::ext_equal]
pub struct PathView {
    pub platform: Platform,
    pub base: Seq<u8>,
    pub names: Seq<Seq<char>>,
}

impl PathView {
    /// The path of `name` in this directory.
    pub open spec fn child(self, name: Seq<char>) -> PathView {
        PathView { names: self.names.push(name), ..self }
    }

    /// The directory that holds this path.
    pub open spec fn parent(self) -> PathView {
        PathView { names: self.names.drop_last(), ..self }
    }

    /// The bytes of the whole path, in the encoding of the platform.
    pub open spec fn bytes(self) -> Seq<u8>
        decreases self.names.len(),
    {
        if self.names.len() == 0 {
            self.base
        } else {
            joined(self.platform, self.parent().bytes(), encode_utf8(self.names.last()))
        }
    }

    /// The path as text, where its bytes are valid UTF-8.
    pub open spec fn text(self) -> Option<Seq<char>> {
        if valid_utf8(self.bytes()) {
            Some(decode_utf8(self.bytes()))
        } else {
            None
        }
    }

    /// The path as it is shown to the user; parts that are not valid UTF-8 are
    /// replaced.
    pub open spec fn shown(self) -> Seq<char> {
        shown_text(self.platform, self.bytes())
    }
}

/// A path in the file system.
#[derive(Debug, PartialEq, Eq)]
pub struct FilePath {
    platform: Platform,
    base: Vec<u8>,
    names: Vec<String>,
}

impl View for FilePath {
    type V = PathView;

    closed spec fn view(&self) -> PathView {
        PathView { platform: self.platform, base: self.base@, names: self.names.deep_view() }
    }
}

impl DeepView for FilePath {
    type V = PathView;

    open spec fn deep_view(&self) -> PathView {
        self@
    }
}

impl FilePath {
    /// The path whose bytes, in the encoding of the platform, are `base`.
    pub fn new(platform: Platform, base: Vec<u8>) -> (r: Self)
        ensures
            r@ == (PathView { platform, base: base@, names: Seq::empty() }),
    {
        let r = FilePath { platform, base, names: Vec::new() };
        assert(r@.names =~= Seq::empty());
        r
    }

    /// The path that is written `text`.
    pub fn from_text(platform: Platform, text: &str) -> (r: Self)
        ensures
            r@ == (PathView { platform, base: encode_utf8(text@), names: Seq::empty() }),
    {
        FilePath::new(platform, text.as_bytes_vec())
    }

    /// The same path again.
    pub fn copy(&self) -> (r: Self)
        ensures
            r@ == self@,
    {
        let r = FilePath {
            platform: self.platform,
            base: self.base.clone(),
            names: self.names.clone(),
        };
        assert(r@.base =~= self@.base);
        assert(r@.names =~= self@.names);
        r
    }

    /// The platform whose paths this one belongs to.
    pub fn platform(&self) -> (r: Platform)
        ensures
            r == self@.platform,
    {
        self.platform
    }

    /// The path of `name` in this directory.
    pub fn child(&self, name: &str) -> (r: Self)
        requires
            plain_name(name@),
        ensures
            r@ == self@.child(name@),
    {
        let mut r = self.copy();
        r.names.push(name.to_string());
        assert(r@.names =~= self@.names.push(name@));
        r
    }

    /// Whether this is a name in a directory that is known.
    pub fn is_child(&self) -> (r: bool)
        ensures
            r == (self@.names.len() > 0),
    {
        assert(self@.names.len() == self.names@.len());
        self.names.len() > 0
    }

    /// The directory that holds this path.
    pub fn parent(&self) -> (r: Self)
        requires
            self@.names.len() > 0,
        ensures
            r@ == self@.parent(),
    {
        let mut r = self.copy();
        let ghost before = r.names@;
        assert(before.len() == self@.names.len());
        r.names.pop();
        assert(r@.names =~= self@.names.drop_last()) by {
            assert forall|i: int| 0 <= i < r@.names.len() implies r@.names[i] == self@.names[i] by {
                assert(r.names@[i] == before[i]);
            }
        }
        r
    }

    /// The bytes of the whole path, in the encoding of the platform.
    pub fn bytes(&self) -> (r: Vec<u8>)
        ensures
            r@ == self@.bytes(),
    {
        let mut out: Vec<u8> = self.base.clone();
        assert(out@ =~= self.base@);
        let ghost whole = self@;
        let ghost part = PathView { names: whole.names.take(0), ..whole };
        assert(part.bytes() == part.base);
        let mut i: usize = 0;
        while i < self.names.len()
            invariant
                i <= self.names.len(),
                whole == self@,
                whole.names.len() == self.names.len(),
                out@ == (PathView { names: whole.names.take(i as int), ..whole }).bytes(),
            decreases self.names.len() - i,
        {
            let ghost next = PathView { names: whole.names.take(i + 1), ..whole };
            assert(next.names.drop_last() =~= whole.names.take(i as int));
            assert(next.names.last() == self.names@[i as int]@);
            let name = self.names[i].as_str().as_bytes();
            out = join(self.platform, out, name);
            i += 1;
            assert(out@ == next.bytes());
        }
        assert(whole.names.take(i as int) =~= whole.names);
        out
    }

    /// The path as text, where it is valid UTF-8.
    pub fn text(&self) -> (r: Option<String>)
        ensures
            r is Some <==> self@.text() is Some,
            r matches Some(t) ==> t@ == self@.text().unwrap(),
    {
        match string_from_utf8(self.bytes()) {
            Ok(t) => Some(t),
            Err(_) => None,
        }
    }

    /// The path as it is shown to the user.
    pub fn display(&self) -> (r: String)
        ensures
            r@ == self@.shown(),
            self@.text() matches Some(t) ==> r@ == t,
    {
        show(self.platform, &self.bytes())
    }
}

/// On Unix a name follows its directory after one slash, which is added where
/// the directory does not end in it; the empty directory adds nothing.
pub proof fn law_joined_on_unix(dir: Seq<u8>, name: Seq<u8>)
    ensures
        dir.len() > 0 && dir.last() != 0x2f ==> joined(Platform::Unix, dir, name) == dir + seq![
            0x2fu8,
        ] + name,
        dir.len() == 0 || dir.last() == 0x2f ==> joined(Platform::Unix, dir, name) == dir + name,
{
    assert(dir.push(0x2f) =~= dir + seq![0x2fu8]);
}

/// On Windows a name follows its directory after a backslash, which is added
/// where the directory ends neither in a slash nor in a backslash and is no bare
/// drive. This is so of every directory that is not taken word for word.
pub proof fn law_joined_on_windows(dir: Seq<u8>, name: Seq<u8>)
    requires
        dir.len() < 4 || dir.take(4) != seq![0x5cu8, 0x5c, 0x3f, 0x5c],
    ensures
        ({
            let ends = dir.len() > 0 && (dir.last() == 0x2f || dir.last() == 0x5c);
            let letter = dir.len() == 2 && (0x41 <= dir[0] <= 0x5a || 0x61 <= dir[0] <= 0x7a);
            let drive = letter && dir[1] == 0x3a;
            &&& dir.len() == 0 || ends || drive ==> joined(Platform::Windows, dir, name) == dir
                + name
            &&& dir.len() > 0 && !ends && !drive ==> joined(Platform::Windows, dir, name) == dir
                + seq![0x5cu8] + name
        }),
{
    if is_verbatim(Platform::Windows, dir) {
        assert(dir.take(4) =~= seq![0x5cu8, 0x5c, 0x3f, 0x5c]);
    }
    assert(dir.push(0x5c) =~= dir + seq![0x5cu8]);
}

/// Squeezing leaves bytes alone that have no two backslashes in a row and none at
/// the end; two in a row count as one, and one at the end as none.
pub proof fn law_squeezed(a: Seq<u8>, b: Seq<u8>)
    ensures
        (a.len() == 0 || a.last() != 0x5c) && (forall|i: int, j: int|
            0 <= i < a.len() && j == i + 1 && j < a.len() && #[trigger] a[i] == 0x5c
                ==> #[trigger] a[j] != 0x5c) ==> squeezed(a) == a,
        squeezed(a + seq![0x5cu8]) == squeezed(a),
        squeezed(a + seq![0x5cu8, 0x5cu8] + b) == squeezed(a + seq![0x5cu8] + b),
    decreases a.len() + b.len(),
{
    let one = a + seq![0x5cu8];
    assert(one.drop_last() =~= a);
    if a.len() > 0 {
        let rest = a.drop_last();
        if a.last() != 0x5c && (forall|i: int, j: int|
            0 <= i < a.len() && j == i + 1 && j < a.len() && #[trigger] a[i] == 0x5c
                ==> #[trigger] a[j] != 0x5c) {
            if rest.len() > 0 && rest.last() == 0x5c {
                let before = rest.drop_last();
                assert(before.len() > 0 ==> before.last() == a[a.len() - 3]);
                assert(a[a.len() - 2] == 0x5c);
                law_squeezed(before, Seq::empty());
                assert(squeezed(rest) == before);
                assert(a =~= before.push(0x5c).push(a.last()));
            } else {
                law_squeezed(rest, Seq::empty());
                assert(a =~= rest.push(a.last()));
            }
        }
    }
    let two = a + seq![0x5cu8, 0x5cu8];
    if b.len() == 0 {
        assert(two + b =~= two);
        assert(two.drop_last() =~= one);
        assert(one + b =~= one);
    } else {
        let c = b.drop_last();
        let x = two + b;
        let y = one + b;
        assert(x.drop_last() =~= two + c);
        assert(y.drop_last() =~= one + c);
        law_squeezed(a, c);
        assert(x.last() == b.last() && y.last() == b.last());
        assert(x[x.len() - 2] == y[y.len() - 2]) by {
            if c.len() > 0 {
                assert(x[x.len() - 2] == c.last() && y[y.len() - 2] == c.last());
            }
        }
    }
}

/// A Windows directory that is taken word for word keeps its mark; the name
/// follows after one backslash, however many the directory ends in.
pub proof fn law_joined_verbatim(rest: Seq<u8>, name: Seq<u8>)
    ensures
        ({
            let mark = seq![0x5cu8, 0x5c, 0x3f, 0x5c];
            let path = joined(Platform::Windows, mark + rest, name);
            &&& path == joined(Platform::Windows, mark + rest + seq![0x5cu8], name)
            &&& (rest.len() == 0 || rest.last() != 0x5c) && (forall|i: int, j: int|
                0 <= i < rest.len() && j == i + 1 && j < rest.len() && #[trigger] rest[i] == 0x5c
                    ==> #[trigger] rest[j] != 0x5c) ==> path == mark + rest + seq![0x5cu8] + name
        }),
{
    let mark = seq![0x5cu8, 0x5c, 0x3f, 0x5c];
    let dir = mark + rest;
    let longer = dir + seq![0x5cu8];
    assert(dir.take(4) =~= mark);
    assert(dir.skip(4) =~= rest);
    assert(longer.take(4) =~= mark);
    assert(longer.skip(4) =~= rest + seq![0x5cu8]);
    law_squeezed(rest, Seq::empty());
    assert(mark + rest.push(0x5c) =~= mark + rest + seq![0x5cu8]);
}

/// Each half of a character becomes the three bytes of the replacement
/// character, and every byte that belongs to none is kept.
pub proof fn law_surrogates(bytes: Seq<u8>, i: int)
    requires
        0 <= i < bytes.len(),
    ensures
        ({
            let out = surrogates_replaced(bytes);
            let half = |k: int|
                0 <= k && k + 2 < bytes.len() && bytes[k] == 0xed && 0xa0 <= bytes[k + 1] <= 0xbf
                    && 0x80 <= bytes[k + 2] <= 0xbf;
            &&& out.len() == bytes.len()
            &&& half(i) ==> out[i] == 0xef && out[i + 1] == 0xbf && out[i + 2] == 0xbd
            &&& !half(i) && !half(i - 1) && !half(i - 2) ==> out[i] == bytes[i]
        }),
{
}

/// What encodes a text is shown as that text on every platform. Other bytes are
/// shown as what reading them with replacements gives; on Windows the halves of
/// characters are replaced before.
pub proof fn law_shown(platform: Platform, text: Seq<char>, bytes: Seq<u8>)
    ensures
        shown_text(platform, encode_utf8(text)) == text,
        !valid_utf8(bytes) ==> shown_text(Platform::Unix, bytes) == lossy_text(bytes),
        !valid_utf8(bytes) && valid_utf8(surrogates_replaced(bytes)) ==> shown_text(
            Platform::Windows,
            bytes,
        ) == decode_utf8(surrogates_replaced(bytes)),
        !valid_utf8(bytes) && !valid_utf8(surrogates_replaced(bytes)) ==> shown_text(
            Platform::Windows,
            bytes,
        ) == lossy_text(surrogates_replaced(bytes)),
{
    vstd::utf8::encode_utf8_valid_utf8(text);
    vstd::utf8::encode_utf8_decode_utf8(text);
}

proof fn lemma_scalar_bytes(c: char)
    ensures
        (c as u32) < 0x80 ==> encode_scalar(c as u32) == seq![c as u8],
        c as u32 >= 0x80 ==> forall|i: int|
            0 <= i < encode_scalar(c as u32).len() ==> #[trigger] encode_scalar(c as u32)[i] >= 0x80,
        encode_scalar(c as u32).len() >= 1,
{
    let n = c as u32;
    assert(n < 0x80 ==> (n & 0x7f) as u8 == n as u8) by (bit_vector);
    assert((0xc0u8 | ((n >> 6) & 0x1f) as u8) >= 0x80 && (0xe0u8 | ((n >> 12) & 0x0f) as u8) >= 0x80
        && (0xf0u8 | ((n >> 18) & 0x07) as u8) >= 0x80 && (0x80u8 | (n & 0x3f) as u8) >= 0x80 && (
    0x80u8 | ((n >> 6) & 0x3f) as u8) >= 0x80 && (0x80u8 | ((n >> 12) & 0x3f) as u8) >= 0x80)
        by (bit_vector);
}

/// An ASCII character is encoded as one byte, its number.
pub proof fn lemma_ascii_byte(c: char)
    requires
        (c as u32) < 0x80,
    ensures
        encode_utf8(seq![c]) == seq![c as u8],
{
    lemma_scalar_bytes(c);
    reveal_with_fuel(encode_utf8, 2);
    assert(seq![c].drop_first() =~= Seq::empty());
    assert(encode_utf8(seq![c]) =~= seq![c as u8]);
}

proof fn lemma_ascii_apart(a: char, c: char)
    requires
        (c as u32) < 0x80,
    ensures
        encode_scalar(a as u32)[0] == c as u8 <==> a == c,
        encode_scalar(a as u32).last() == c as u8 <==> a == c,
{
    lemma_scalar_bytes(a);
    assert(c as u32 == c as u8);
    if (a as u32) < 0x80 {
        assert(a as u32 == a as u8);
    }
}

proof fn lemma_ends_of_encoding(text: Seq<char>, c: char)
    requires
        text.len() > 0,
        (c as u32) < 0x80,
    ensures
        encode_utf8(text).len() >= text.len(),
        encode_utf8(text).last() == c as u8 <==> text.last() == c,
        encode_utf8(text)[0] == c as u8 <==> text[0] == c,
    decreases text.len(),
{
    lemma_scalar_bytes(text[0]);
    lemma_ascii_apart(text[0], c);
    let rest = text.drop_first();
    let head = encode_scalar(text[0] as u32);
    assert(encode_utf8(text) == head + encode_utf8(rest));
    assert(encode_utf8(text)[0] == head[0]);
    if rest.len() > 0 {
        lemma_ends_of_encoding(rest, c);
    } else {
        assert(encode_utf8(rest).len() == 0);
        assert(encode_utf8(text) =~= head);
    }
}

/// A path that is written as a text is that text, and is shown as it.
pub proof fn law_path_from_text(platform: Platform, text: Seq<char>)
    ensures
        ({
            let path = PathView { platform, base: encode_utf8(text), names: Seq::empty() };
            path.text() == Some(text) && path.shown() == text
        }),
{
    vstd::utf8::encode_utf8_valid_utf8(text);
    vstd::utf8::encode_utf8_decode_utf8(text);
}

/// The directory of a name in a directory is that directory.
pub proof fn law_parent_of_child(dir: PathView, name: Seq<char>)
    ensures
        dir.child(name).parent() == dir,
        dir.child(name).names.last() == name,
        dir.child(name).platform == dir.platform,
{
    assert(dir.child(name).parent() =~= dir);
}

/// The path of a name in a directory is written as the directory, the separator
/// of the platform, and the name. A slash at the end of a directory, or on
/// Windows a backslash, serves as the separator. (Windows directories that begin
/// with a backslash, and bare drives, are left out here.)
pub proof fn law_child_is_written(dir: PathView, text: Seq<char>, name: Seq<char>)
    requires
        dir.text() == Some(text),
        text.len() > 0,
        dir.platform == Platform::Windows ==> text[0] != '\\' && text.len() > 2,
    ensures
        ({
            let path = dir.child(name);
            let ends = text.last() == '/' || (dir.platform == Platform::Windows && text.last()
                == '\\');
            &&& ends ==> path.text() == Some(text + name)
            &&& !ends && dir.platform == Platform::Unix ==> path.text() == Some(
                text + seq!['/'] + name,
            )
            &&& !ends && dir.platform == Platform::Windows ==> path.text() == Some(
                text + seq!['\\'] + name,
            )
            &&& path.text() matches Some(t) && path.shown() == t
        }),
{
    let path = dir.child(name);
    let bytes = dir.bytes();
    let sep = seq![
        match dir.platform {
            Platform::Unix => '/',
            Platform::Windows => '\\',
        },
    ];
    law_parent_of_child(dir, name);
    assert(path.bytes() == joined(dir.platform, bytes, encode_utf8(name)));
    vstd::utf8::decode_utf8_encode_utf8(bytes);
    assert(encode_utf8(text) == bytes);
    lemma_ends_of_encoding(text, '/');
    lemma_ends_of_encoding(text, '\\');
    lemma_ascii_byte(sep[0]);
    lemma_encode_parts(text, name);
    lemma_encode_parts(text, sep);
    lemma_encode_parts(text + sep, name);
    match dir.platform {
        Platform::Unix => law_joined_on_unix(bytes, encode_utf8(name)),
        Platform::Windows => {
            if bytes.len() >= 4 {
                assert(bytes.take(4)[0] == bytes[0]);
            }
            law_joined_on_windows(bytes, encode_utf8(name));
        },
    }
    vstd::utf8::encode_utf8_valid_utf8(text + name);
    vstd::utf8::encode_utf8_decode_utf8(text + name);
    vstd::utf8::encode_utf8_valid_utf8(text + sep + name);
    vstd::utf8::encode_utf8_decode_utf8(text + sep + name);
}

/// What the platform writes between the names of a path.
pub open spec fn written_separator(platform: Platform) -> Seq<char> {
    match platform {
        Platform::Unix => seq!['/'],
        Platform::Windows => seq!['\\'],
    }
}

/// The text of a directory to which names can be added with a separator each.
pub open spec fn takes_names(platform: Platform, text: Seq<char>) -> bool {
    &&& text.len() > 0
    &&& text.last() != '/'
    &&& platform == Platform::Windows ==> text[0] != '\\' && text.last() != '\\' && text.len() > 2
}

/// Three names in a row are written after their directory with a separator
/// before each of them.
pub proof fn law_names_are_written(
    dir: PathView,
    text: Seq<char>,
    a: Seq<char>,
    b: Seq<char>,
    c: Seq<char>,
)
    requires
        dir.text() == Some(text),
        takes_names(dir.platform, text),
        plain_name(a),
        plain_name(b),
        plain_name(c),
    ensures
        ({
            let sep = written_separator(dir.platform);
            let path = dir.child(a).child(b).child(c);
            &&& dir.child(a).text() == Some(text + sep + a)
            &&& dir.child(a).child(b).text() == Some(text + sep + a + sep + b)
            &&& path.text() == Some(text + sep + a + sep + b + sep + c)
            &&& path.shown() == text + sep + a + sep + b + sep + c
        }),
{
    let sep = written_separator(dir.platform);
    law_child_is_written(dir, text, a);
    let first = text + sep + a;
    assert(first.last() == a[a.len() - 1]);
    assert(first[0] == text[0]);
    law_child_is_written(dir.child(a), first, b);
    let second = first + sep + b;
    assert(second.last() == b[b.len() - 1]);
    assert(second[0] == text[0]);
    law_child_is_written(dir.child(a).child(b), second, c);
}

/// The bytes of a path: those that the platform gave, and then each name in turn
/// in the directory so far.
pub proof fn law_path_bytes(dir: PathView, name: Seq<char>)
    ensures
        dir.names.len() == 0 ==> dir.bytes() == dir.base,
        dir.child(name).bytes() == joined(dir.platform, dir.bytes(), encode_utf8(name)),
        dir.child(name).base == dir.base,
{
    law_parent_of_child(dir, name);
}

/// A path is a text exactly where its bytes encode that text, and is then shown
/// as it; any other is shown as its bytes are.
pub proof fn law_path_text(path: PathView, text: Seq<char>)
    ensures
        path.text() == Some(text) <==> path.bytes() == encode_utf8(text),
        path.text() == Some(text) ==> path.shown() == text,
        path.shown() == shown_text(path.platform, path.bytes()),
{
    vstd::utf8::encode_utf8_valid_utf8(text);
    vstd::utf8::encode_utf8_decode_utf8(text);
    if path.text() is Some {
        vstd::utf8::decode_utf8_encode_utf8(path.bytes());
    }
}

/// A directory that is taken word for word holds its names after single
/// backslashes, however many stood there.
pub proof fn law_joined_verbatim_is_squeezed(a: Seq<u8>, b: Seq<u8>, name: Seq<u8>)
    ensures
        ({
            let mark = seq![0x5cu8, 0x5c, 0x3f, 0x5c];
            joined(Platform::Windows, mark + (a + seq![0x5cu8, 0x5cu8] + b), name) == joined(
                Platform::Windows,
                mark + (a + seq![0x5cu8] + b),
                name,
            )
        }),
{
    let mark = seq![0x5cu8, 0x5c, 0x3f, 0x5c];
    let x = a + seq![0x5cu8, 0x5cu8] + b;
    let y = a + seq![0x5cu8] + b;
    assert((mark + x).take(4) =~= mark && (mark + x).skip(4) =~= x);
    assert((mark + y).take(4) =~= mark && (mark + y).skip(4) =~= y);
    law_squeezed(a, b);
}

} // verus!
