//! Operations on text, stated over sequences of characters.

use crate::outside::{digits_value, from_utf8_lossy, lossy_text};
use vstd::prelude::*;
use vstd::string::*;
use vstd::utf8::{decode_utf8, encode_utf8, valid_utf8};

verus! {

/// The characters of a text, in order.
pub fn chars_of(s: &str) -> (r: Vec<char>)
    ensures
        r@ == s@,
{
    let mut out: Vec<char> = Vec::new();
    for c in it: s.chars()
        invariant
            it.seq() == s@,
            out@ == it.seq().take(it.index() as int),
    {
        out.push(c);
    }
    out
}

/// Whether two texts hold the same characters.
pub fn same(a: &str, b: &str) -> (r: bool)
    ensures
        r == (a@ == b@),
{
    let x = chars_of(a);
    let y = chars_of(b);
    same_chars(&x, &y)
}

fn same_chars(x: &Vec<char>, y: &Vec<char>) -> (r: bool)
    ensures
        r == (x@ == y@),
{
    if x.len() != y.len() {
        return false;
    }
    let mut i: usize = 0;
    while i < x.len()
        invariant
            i <= x.len(),
            x.len() == y.len(),
            forall|j: int| 0 <= j < i ==> x@[j] == y@[j],
        decreases x.len() - i,
    {
        if x[i] != y[i] {
            return false;
        }
        i += 1;
    }
    assert(x@ =~= y@);
    true
}

/// `a` followed by `b`.
pub fn cat2(a: &str, b: &str) -> (r: String)
    ensures
        r@ == a@ + b@,
{
    let mut s = a.to_string();
    s.append(b);
    s
}

/// `a`, `b` and `c` in this order.
pub fn cat3(a: &str, b: &str, c: &str) -> (r: String)
    ensures
        r@ == a@ + b@ + c@,
{
    let mut s = cat2(a, b);
    s.append(c);
    s
}

/// `a`, `b`, `c` and `d` in this order.
pub fn cat4(a: &str, b: &str, c: &str, d: &str) -> (r: String)
    ensures
        r@ == a@ + b@ + c@ + d@,
{
    let mut s = cat3(a, b, c);
    s.append(d);
    s
}

/// `s` begins with `prefix`.
pub open spec fn begins(s: Seq<char>, prefix: Seq<char>) -> bool {
    prefix.len() <= s.len() && s.take(prefix.len() as int) == prefix
}

/// `pattern` stands in `s`, starting at position `at`.
pub open spec fn occurs_at(s: Seq<char>, pattern: Seq<char>, at: int) -> bool {
    0 <= at && at + pattern.len() <= s.len() && s.subrange(at, at + pattern.len()) == pattern
}

/// `pattern` stands somewhere in `s`.
pub open spec fn occurs(s: Seq<char>, pattern: Seq<char>) -> bool {
    exists|at: int| occurs_at(s, pattern, at)
}

fn matches_at(s: &Vec<char>, pattern: &Vec<char>, at: usize) -> (r: bool)
    requires
        at + pattern.len() <= s.len(),
    ensures
        r == occurs_at(s@, pattern@, at as int),
{
    let ghost window = s@.subrange(at as int, at + pattern.len());
    let mut i: usize = 0;
    while i < pattern.len()
        invariant
            i <= pattern.len(),
            at + pattern.len() <= s.len(),
            window == s@.subrange(at as int, at + pattern.len()),
            forall|j: int| 0 <= j < i ==> window[j] == pattern@[j],
        decreases pattern.len() - i,
    {
        if s[at + i] != pattern[i] {
            assert(window[i as int] != pattern@[i as int]);
            return false;
        }
        i += 1;
    }
    assert(window =~= pattern@);
    true
}

/// Whether `s` begins with `prefix`.
pub fn starts_with(s: &str, prefix: &str) -> (r: bool)
    ensures
        r == begins(s@, prefix@),
{
    let x = chars_of(s);
    let p = chars_of(prefix);
    if p.len() > x.len() {
        return false;
    }
    matches_at(&x, &p, 0)
}

/// Whether `pattern` stands somewhere in `s`.
pub fn contains(s: &str, pattern: &str) -> (r: bool)
    ensures
        r == occurs(s@, pattern@),
{
    let x = chars_of(s);
    let p = chars_of(pattern);
    if p.len() > x.len() {
        return false;
    }
    let last: usize = x.len() - p.len();
    let mut at: usize = 0;
    while at <= last
        invariant
            x@ == s@,
            p@ == pattern@,
            last + p.len() == x.len(),
            at <= last + 1,
            forall|j: int| 0 <= j < at ==> !occurs_at(x@, p@, j),
        decreases last + 1 - at,
    {
        if matches_at(&x, &p, at) {
            return true;
        }
        if at == last {
            return false;
        }
        at += 1;
    }
    false
}

/// The position of the first `c` in `s`, or the length of `s` where there is none.
pub open spec fn first_index(s: Seq<char>, c: char) -> int
    decreases s.len(),
{
    if s.len() == 0 {
        0
    } else if s[0] == c {
        0
    } else {
        1 + first_index(s.drop_first(), c)
    }
}

/// What `first_index` promises: no `c` stands before it, and one stands at it
/// unless it is the length.
pub proof fn lemma_first_index(s: Seq<char>, c: char)
    ensures
        0 <= first_index(s, c) <= s.len(),
        forall|j: int| 0 <= j < first_index(s, c) ==> s[j] != c,
        first_index(s, c) < s.len() ==> s[first_index(s, c)] == c,
        s.contains(c) <==> first_index(s, c) < s.len(),
    decreases s.len(),
{
    if s.len() > 0 && s[0] != c {
        let t = s.drop_first();
        lemma_first_index(t, c);
        assert forall|j: int| 0 <= j < first_index(s, c) implies s[j] != c by {
            if j > 0 {
                assert(t[j - 1] == s[j]);
            }
        }
        if first_index(s, c) < s.len() {
            assert(t[first_index(t, c)] == s[first_index(s, c)]);
        }
    }
}

/// A position before which `c` does not stand, and at which it does or which
/// is the length, is the first index.
pub proof fn lemma_first_index_is(s: Seq<char>, c: char, i: int)
    requires
        0 <= i <= s.len(),
        forall|j: int| 0 <= j < i ==> s[j] != c,
        i < s.len() ==> s[i] == c,
    ensures
        first_index(s, c) == i,
{
    lemma_first_index(s, c);
    let f = first_index(s, c);
    if f < i {
        assert(s[f] != c);
    }
}

/// The position of the first `c`, or the length of `s` where there is none.
pub fn index_of(s: &Vec<char>, c: char) -> (r: usize)
    ensures
        r == first_index(s@, c),
        r <= s.len(),
{
    let mut i: usize = 0;
    while i < s.len()
        invariant
            i <= s.len(),
            forall|j: int| 0 <= j < i ==> s@[j] != c,
        decreases s.len() - i,
    {
        if s[i] == c {
            proof {
                lemma_first_index_is(s@, c, i as int);
            }
            return i;
        }
        i += 1;
    }
    proof {
        lemma_first_index_is(s@, c, i as int);
    }
    i
}

/// What stands before the first `c`, or all of `s` where there is none.
pub open spec fn before(s: Seq<char>, c: char) -> Seq<char> {
    s.take(first_index(s, c))
}

/// What stands in `s` before the first `c`.
pub fn before_char(s: &str, c: char) -> (r: String)
    ensures
        r@ == before(s@, c),
{
    let x = chars_of(s);
    let i = index_of(&x, c);
    let r = s.substring_char(0, i).to_string();
    assert(r@ =~= before(s@, c));
    r
}

/// The first line of a text: a line ends at a line feed, or at a carriage
/// return followed by one, or with the text; an empty text has no line.
pub open spec fn first_line_of(s: Seq<char>) -> Option<Seq<char>> {
    let line = before(s, '\n');
    if s.len() == 0 {
        None
    } else if line.len() < s.len() && line.len() > 0 && line.last() == '\r' {
        Some(line.drop_last())
    } else {
        Some(line)
    }
}

/// The first line of a text, without its line ending.
pub fn first_line(s: &str) -> (r: Option<String>)
    ensures
        (match r {
            Some(line) => Some(line@),
            None => None,
        }) == first_line_of(s@),
{
    let x = chars_of(s);
    if x.len() == 0 {
        return None;
    }
    let i = index_of(&x, '\n');
    let ghost line = before(s@, '\n');
    assert(line.len() == i);
    if i < x.len() && i > 0 && x[i - 1] == '\r' {
        let r = s.substring_char(0, i - 1).to_string();
        assert(line.last() == x@[i - 1]);
        assert(r@ =~= line.drop_last());
        Some(r)
    } else {
        let r = s.substring_char(0, i).to_string();
        assert(i > 0 ==> line.last() == x@[i - 1]);
        assert(r@ =~= line);
        Some(r)
    }
}

/// `s` without `suffix` at its end, or `s` itself where it does not end so.
pub open spec fn without_suffix(s: Seq<char>, suffix: Seq<char>) -> Seq<char> {
    if suffix.len() <= s.len() && s.skip(s.len() - suffix.len()) == suffix {
        s.take(s.len() - suffix.len())
    } else {
        s
    }
}

/// Takes `suffix` off the end of `s` where it stands there.
pub fn strip_suffix(s: &str, suffix: &str) -> (r: String)
    ensures
        r@ == without_suffix(s@, suffix@),
{
    let x = chars_of(s);
    let p = chars_of(suffix);
    if p.len() > x.len() {
        return s.to_string();
    }
    let at: usize = x.len() - p.len();
    assert(s@.skip(at as int) =~= s@.subrange(at as int, at + p.len()));
    if matches_at(&x, &p, at) {
        let r = s.substring_char(0, at).to_string();
        assert(r@ =~= s@.take(at as int));
        r
    } else {
        s.to_string()
    }
}

/// The characters with the Unicode property White_Space.
pub open spec fn is_space(c: char) -> bool {
    let n = c as u32;
    ||| 0x9 <= n <= 0xd
    ||| n == 0x20
    ||| n == 0x85
    ||| n == 0xa0
    ||| n == 0x1680
    ||| 0x2000 <= n <= 0x200a
    ||| n == 0x2028
    ||| n == 0x2029
    ||| n == 0x202f
    ||| n == 0x205f
    ||| n == 0x3000
}

fn space(c: char) -> (r: bool)
    ensures
        r == is_space(c),
{
    let n: u32 = c as u32;
    (0x9 <= n && n <= 0xd) || n == 0x20 || n == 0x85 || n == 0xa0 || n == 0x1680 || (0x2000 <= n
        && n <= 0x200a) || n == 0x2028 || n == 0x2029 || n == 0x202f || n == 0x205f || n == 0x3000
}

/// `s` without the white space at its start.
pub open spec fn trimmed_start(s: Seq<char>) -> Seq<char>
    decreases s.len(),
{
    if s.len() > 0 && is_space(s[0]) {
        trimmed_start(s.drop_first())
    } else {
        s
    }
}

/// `s` without the white space at its end.
pub open spec fn trimmed_end(s: Seq<char>) -> Seq<char>
    decreases s.len(),
{
    if s.len() > 0 && is_space(s.last()) {
        trimmed_end(s.drop_last())
    } else {
        s
    }
}

/// `s` without the white space at its two ends.
pub open spec fn trimmed(s: Seq<char>) -> Seq<char> {
    trimmed_end(trimmed_start(s))
}

/// Removes the white space at both ends of a text.
pub fn trim(s: &str) -> (r: String)
    ensures
        r@ == trimmed(s@),
{
    let x = chars_of(s);
    let mut a: usize = 0;
    assert(s@.skip(0) =~= s@);
    while a < x.len() && space(x[a])
        invariant
            a <= x.len(),
            x@ == s@,
            trimmed_start(s@) == trimmed_start(s@.skip(a as int)),
        decreases x.len() - a,
    {
        assert(s@.skip(a as int)[0] == x@[a as int]);
        assert(s@.skip(a as int).drop_first() =~= s@.skip(a + 1));
        a += 1;
    }
    assert(a < x.len() ==> s@.skip(a as int)[0] == x@[a as int]);
    assert(trimmed_start(s@) == s@.skip(a as int));
    let mut b: usize = x.len();
    assert(s@.subrange(a as int, b as int) =~= s@.skip(a as int));
    while a < b && space(x[b - 1])
        invariant
            a <= b <= x.len(),
            x@ == s@,
            trimmed(s@) == trimmed_end(s@.subrange(a as int, b as int)),
        decreases b - a,
    {
        let ghost t = s@.subrange(a as int, b as int);
        assert(t.last() == x@[b - 1]);
        assert(t.drop_last() =~= s@.subrange(a as int, b - 1));
        b -= 1;
    }
    assert(a < b ==> s@.subrange(a as int, b as int).last() == x@[b - 1]);
    s.substring_char(a, b).to_string()
}

/// `s` with every `from` replaced by `to`.
pub open spec fn replaced(s: Seq<char>, from: char, to: char) -> Seq<char> {
    s.map_values(
        |c: char|
            if c == from {
                to
            } else {
                c
            },
    )
}

/// Writes a slash for every dot.
pub fn dots_to_slashes(s: &str) -> (r: String)
    ensures
        r@ == replaced(s@, '.', '/'),
{
    proof {
        reveal_strlit("/");
    }
    let x = chars_of(s);
    let mut out = String::new();
    let ghost goal = replaced(s@, '.', '/');
    let mut i: usize = 0;
    while i < x.len()
        invariant
            i <= x.len(),
            x@ == s@,
            goal == replaced(s@, '.', '/'),
            "/"@ == seq!['/'],
            out@ == goal.take(i as int),
        decreases x.len() - i,
    {
        if x[i] == '.' {
            out.append("/");
        } else {
            out.append(s.substring_char(i, i + 1));
        }
        i += 1;
        assert(out@ =~= goal.take(i as int));
    }
    assert(goal.take(i as int) =~= goal);
    out
}

/// The digit of a number below ten.
pub open spec fn digit(d: nat) -> char {
    "0123456789"@[d as int]
}

/// A number in decimal, without leading zeros.
pub open spec fn decimal_of(n: nat) -> Seq<char>
    decreases n,
{
    if n < 10 {
        seq![digit(n)]
    } else {
        decimal_of(n / 10).push(digit(n % 10))
    }
}

/// Writes a number in decimal.
pub fn decimal(n: u64) -> (r: String)
    ensures
        r@ == decimal_of(n as nat),
    decreases n,
{
    proof {
        reveal_strlit("0123456789");
    }
    let d: usize = (n % 10) as usize;
    let last = "0123456789".substring_char(d, d + 1);
    assert(last@ =~= seq![digit((n % 10) as nat)]);
    if n < 10 {
        last.to_string()
    } else {
        let mut s = decimal(n / 10);
        s.append(last);
        assert(s@ =~= decimal_of(n as nat));
        s
    }
}

/// A text of `n` stars.
pub fn stars(n: usize) -> (r: String)
    ensures
        r@ == Seq::new(n as nat, |i: int| '*'),
{
    proof {
        reveal_strlit("*");
    }
    let mut s = String::new();
    let mut i: usize = 0;
    while i < n
        invariant
            i <= n,
            s@ == Seq::new(i as nat, |j: int| '*'),
            "*"@ == seq!['*'],
        decreases n - i,
    {
        s.append("*");
        i += 1;
        assert(s@ =~= Seq::new(i as nat, |j: int| '*'));
    }
    s
}

/// The text of `bytes`: the characters that they encode where they are valid
/// UTF-8, and otherwise what is left once invalid parts are replaced.
pub open spec fn readable(bytes: Seq<u8>) -> Seq<char> {
    if valid_utf8(bytes) {
        decode_utf8(bytes)
    } else {
        lossy_text(bytes)
    }
}

/// The text of `bytes`, with invalid parts replaced.
pub fn decode_lossy(bytes: &[u8]) -> (r: String)
    ensures
        r@ == readable(bytes@),
{
    from_utf8_lossy(bytes)
}

/// A text begins with `prefix` exactly where it is `prefix` and something after
/// it: `prefix` followed by anything does, and whatever does can be split so.
pub proof fn law_begins(prefix: Seq<char>, rest: Seq<char>, s: Seq<char>)
    ensures
        begins(prefix + rest, prefix),
        begins(s, prefix) ==> s == prefix + s.skip(prefix.len() as int) && prefix.len() <= s.len(),
{
    assert((prefix + rest).take(prefix.len() as int) =~= prefix);
    if begins(s, prefix) {
        assert(s =~= s.take(prefix.len() as int) + s.skip(prefix.len() as int));
    }
}

/// A pattern occurs in every text that holds it, whatever stands before and
/// after it.
pub proof fn law_occurs(a: Seq<char>, pattern: Seq<char>, b: Seq<char>)
    ensures
        occurs(a + pattern + b, pattern),
{
    let s = a + pattern + b;
    let at = a.len() as int;
    assert(s.subrange(at, at + pattern.len()) =~= pattern);
    assert(occurs_at(s, pattern, at));
}

/// A text in which a pattern occurs is the pattern with something before it and
/// something after it.
pub proof fn law_occurs_splits(s: Seq<char>, pattern: Seq<char>) -> (around: (Seq<char>, Seq<char>))
    requires
        occurs(s, pattern),
    ensures
        s == around.0 + pattern + around.1,
{
    let at = choose|at: int| occurs_at(s, pattern, at);
    let a = s.take(at);
    let b = s.skip(at + pattern.len());
    assert(s =~= a + s.subrange(at, at + pattern.len()) + b);
    (a, b)
}

/// What stands before a character: of a text in which it stands, all that
/// precedes its first place, whatever follows; of any other, the whole text.
pub proof fn law_before(a: Seq<char>, c: char, b: Seq<char>)
    requires
        !a.contains(c),
    ensures
        before(a, c) == a,
        before(a + seq![c] + b, c) == a,
{
    lemma_first_index(a, c);
    assert(before(a, c) =~= a);
    let s = a + seq![c] + b;
    assert(s[a.len() as int] == c);
    assert forall|j: int| 0 <= j < a.len() implies s[j] != c by {
        assert(a[j] == s[j]);
    }
    lemma_first_index_is(s, c, a.len() as int);
    assert(before(s, c) =~= a);
}

/// The first line of a text that holds no line feed is the whole text, unless
/// that is empty; otherwise it is what stands before the first line feed, less
/// one carriage return before that.
pub proof fn law_first_line(line: Seq<char>, rest: Seq<char>)
    requires
        !line.contains('\n'),
    ensures
        line.len() == 0 ==> first_line_of(line) is None,
        line.len() > 0 ==> first_line_of(line) == Some(line),
        line.len() == 0 || line.last() != '\r' ==> first_line_of(line + seq!['\n'] + rest) == Some(
            line,
        ),
        first_line_of(line + seq!['\r'] + seq!['\n'] + rest) == Some(line),
{
    law_before(line, '\n', rest);
    let with_return = line + seq!['\r'];
    assert(!with_return.contains('\n')) by {
        if with_return.contains('\n') {
            let j = choose|j: int| 0 <= j < with_return.len() && with_return[j] == '\n';
            assert(line[j] == '\n');
        }
    }
    law_before(with_return, '\n', rest);
    assert(with_return.drop_last() =~= line);
}

/// A suffix is taken off a text that ends in it, once, and a text that does not
/// is left as it is.
pub proof fn law_without_suffix(kept: Seq<char>, suffix: Seq<char>, s: Seq<char>)
    ensures
        without_suffix(kept + suffix, suffix) == kept,
        without_suffix(s, suffix) == s || s == without_suffix(s, suffix) + suffix,
        without_suffix(s, suffix) == s && suffix.len() > 0 ==> s != kept + suffix,
{
    let whole = kept + suffix;
    assert(whole.skip(kept.len() as int) =~= suffix);
    assert(whole.take(kept.len() as int) =~= kept);
    let n = s.len() - suffix.len();
    if n >= 0 {
        assert(s =~= s.take(n) + s.skip(n));
    }
}

/// White space is exactly the tabs and line ends, the space, and the characters
/// beyond ASCII that Unicode counts among them.
pub proof fn law_space(c: char)
    ensures
        is_space(c) <==> seq![
            '\t',
            '\n',
            '\u{b}',
            '\u{c}',
            '\r',
            ' ',
            '\u{85}',
            '\u{a0}',
            '\u{1680}',
            '\u{2000}',
            '\u{2001}',
            '\u{2002}',
            '\u{2003}',
            '\u{2004}',
            '\u{2005}',
            '\u{2006}',
            '\u{2007}',
            '\u{2008}',
            '\u{2009}',
            '\u{200a}',
            '\u{2028}',
            '\u{2029}',
            '\u{202f}',
            '\u{205f}',
            '\u{3000}',
        ].contains(c),
{
    let all = seq![
        '\t',
        '\n',
        '\u{b}',
        '\u{c}',
        '\r',
        ' ',
        '\u{85}',
        '\u{a0}',
        '\u{1680}',
        '\u{2000}',
        '\u{2001}',
        '\u{2002}',
        '\u{2003}',
        '\u{2004}',
        '\u{2005}',
        '\u{2006}',
        '\u{2007}',
        '\u{2008}',
        '\u{2009}',
        '\u{200a}',
        '\u{2028}',
        '\u{2029}',
        '\u{202f}',
        '\u{205f}',
        '\u{3000}',
    ];
    if is_space(c) {
        assert(c == all[0] || c == all[1] || c == all[2] || c == all[3] || c == all[4] || c == all[5]
            || c == all[6] || c == all[7] || c == all[8] || c == all[9] || c == all[10] || c
            == all[11] || c == all[12] || c == all[13] || c == all[14] || c == all[15] || c
            == all[16] || c == all[17] || c == all[18] || c == all[19] || c == all[20] || c
            == all[21] || c == all[22] || c == all[23] || c == all[24]);
    }
}

proof fn lemma_trimmed_start(s: Seq<char>) -> (a: Seq<char>)
    ensures
        s == a + trimmed_start(s),
        forall|i: int| 0 <= i < a.len() ==> is_space(#[trigger] a[i]),
        trimmed_start(s).len() > 0 ==> !is_space(trimmed_start(s)[0]),
    decreases s.len(),
{
    if s.len() > 0 && is_space(s[0]) {
        let rest = lemma_trimmed_start(s.drop_first());
        let a = seq![s[0]] + rest;
        assert(s =~= seq![s[0]] + s.drop_first());
        assert(seq![s[0]] + (rest + trimmed_start(s)) =~= a + trimmed_start(s));
        a
    } else {
        assert(s =~= Seq::empty() + s);
        Seq::empty()
    }
}

proof fn lemma_trimmed_end(s: Seq<char>) -> (b: Seq<char>)
    ensures
        s == trimmed_end(s) + b,
        forall|i: int| 0 <= i < b.len() ==> is_space(#[trigger] b[i]),
        trimmed_end(s).len() > 0 ==> !is_space(trimmed_end(s).last()),
    decreases s.len(),
{
    if s.len() > 0 && is_space(s.last()) {
        let rest = lemma_trimmed_end(s.drop_last());
        let b = rest.push(s.last());
        assert(s =~= s.drop_last().push(s.last()));
        assert((trimmed_end(s) + rest).push(s.last()) =~= trimmed_end(s) + b);
        b
    } else {
        assert(s =~= s + Seq::empty());
        Seq::empty()
    }
}

/// Trimming takes white space off the two ends of a text and nothing else, and
/// leaves none there: the text is what is left, between white space.
pub proof fn law_trimmed(s: Seq<char>) -> (ends: (Seq<char>, Seq<char>))
    ensures
        s == ends.0 + trimmed(s) + ends.1,
        forall|i: int| 0 <= i < ends.0.len() ==> is_space(#[trigger] ends.0[i]),
        forall|i: int| 0 <= i < ends.1.len() ==> is_space(#[trigger] ends.1[i]),
        trimmed(s).len() > 0 ==> !is_space(trimmed(s)[0]) && !is_space(trimmed(s).last()),
{
    let a = lemma_trimmed_start(s);
    let t = trimmed_start(s);
    let b = lemma_trimmed_end(t);
    assert(s =~= a + trimmed(s) + b);
    if trimmed(s).len() > 0 {
        assert(trimmed(s)[0] == t[0]);
    }
    (a, b)
}

/// White space around a text does not change what is left once it is trimmed,
/// and what has none at its ends is left whole. So texts that differ otherwise
/// than by white space at their ends differ once they are trimmed.
pub proof fn law_trimmed_is_kept(a: Seq<char>, kept: Seq<char>, b: Seq<char>)
    requires
        forall|i: int| 0 <= i < a.len() ==> is_space(#[trigger] a[i]),
        forall|i: int| 0 <= i < b.len() ==> is_space(#[trigger] b[i]),
        kept.len() > 0 ==> !is_space(kept[0]) && !is_space(kept.last()),
    ensures
        trimmed(a + kept + b) == kept,
{
    let s = a + kept + b;
    let ends = law_trimmed(s);
    let t = trimmed(s);
    let n = ends.0.len();
    if kept.len() == 0 {
        if t.len() > 0 {
            assert(t[0] == s[n as int]);
            if n < a.len() {
                assert(s[n as int] == a[n as int]);
            } else {
                assert(s[n as int] == b[n - a.len()]);
            }
        }
        assert(t =~= kept);
    } else {
        let first = a.len() as int;
        let last = a.len() + kept.len() - 1;
        assert(s[first] == kept[0]);
        assert(s[last] == kept.last());
        if t.len() == 0 {
            if first < n {
                assert(s[first] == ends.0[first]);
            } else {
                assert(s[first] == ends.1[first - n]);
            }
        }
        if n < first {
            assert(t[0] == s[n as int]);
            assert(s[n as int] == a[n as int]);
        } else if n > first {
            assert(s[first] == ends.0[first]);
        }
        let m = (n + t.len()) as int;
        assert(t.last() == s[m - 1]);
        if m - 1 < last {
            assert(s[last] == ends.1[last - m]);
        } else if m - 1 > last {
            assert(s[m - 1] == b[m - 1 - first - kept.len()]);
        }
        assert(t.len() == kept.len());
        assert forall|i: int| 0 <= i < t.len() implies t[i] == kept[i] by {
            assert(t[i] == s[first + i]);
        }
        assert(t =~= kept);
    }
}

/// Replacing a character changes each of its places and no other: the text keeps
/// its length, has `to` wherever it had `from`, and is the same everywhere else.
/// So none is left, unless it is replaced by itself.
pub proof fn law_replaced(s: Seq<char>, from: char, to: char)
    ensures
        replaced(s, from, to).len() == s.len(),
        forall|i: int|
            0 <= i < s.len() && s[i] == from ==> (#[trigger] replaced(s, from, to)[i]) == to,
        forall|i: int|
            0 <= i < s.len() && s[i] != from ==> (#[trigger] replaced(s, from, to)[i]) == s[i],
        from != to ==> !replaced(s, from, to).contains(from),
{
}

/// A number is written in decimal digits that have its value, without a leading
/// zero unless it is zero.
pub proof fn law_decimal(n: nat)
    ensures
        decimal_of(n).len() > 0,
        forall|i: int| 0 <= i < decimal_of(n).len() ==> '0' <= #[trigger] decimal_of(n)[i] <= '9',
        digits_value(decimal_of(n)) == n,
        decimal_of(n)[0] == '0' ==> n == 0 && decimal_of(n).len() == 1,
    decreases n,
{
    reveal_strlit("0123456789");
    reveal_with_fuel(digits_value, 2);
    let d = decimal_of(n);
    if n < 10 {
        assert(d.drop_last() =~= Seq::empty());
    } else {
        law_decimal(n / 10);
        assert(d.drop_last() =~= decimal_of(n / 10));
        assert(d[0] == decimal_of(n / 10)[0]);
    }
}

/// What encodes a text is read as that text.
pub proof fn law_readable(s: Seq<char>, bytes: Seq<u8>)
    ensures
        readable(encode_utf8(s)) == s,
        !valid_utf8(bytes) ==> readable(bytes) == lossy_text(bytes),
{
    vstd::utf8::encode_utf8_valid_utf8(s);
    vstd::utf8::encode_utf8_decode_utf8(s);
}

/// Digits are read from the left, each ten times as much as the next.
pub proof fn law_digits_value(s: Seq<char>, d: char)
    requires
        '0' <= d <= '9',
    ensures
        digits_value(Seq::empty()) == 0,
        digits_value(s.push(d)) == 10 * digits_value(s) + (d as u32 - '0' as u32),
{
    assert(s.push(d).drop_last() =~= s);
}

} // verus!
