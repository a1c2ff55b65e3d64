//! Character-level helpers shared by the rest of the library.
//!
//! Strings are modelled by their view, a `Seq<char>`, and every position is an
//! index into that sequence. The delimiters the library looks for are ASCII, so
//! comparing two such positions gives the same answer as comparing the byte
//! offsets of the same characters.

use vstd::prelude::*;
use vstd::string::{StrSliceExecFns, StringExecFns};
use vstd::utf8::{char_is_scalar, encode_scalar, encode_utf8};

verus! {

/// The characters that count as whitespace: the code points that carry the
/// Unicode `White_Space` property.
pub open spec fn is_whitespace(c: char) -> bool {
    let n = c as u32;
    ||| 0x09 <= n <= 0x0D
    ||| n == 0x20
    ||| n == 0x85
    ||| n == 0xA0
    ||| n == 0x1680
    ||| 0x2000 <= n <= 0x200A
    ||| n == 0x2028
    ||| n == 0x2029
    ||| n == 0x202F
    ||| n == 0x205F
    ||| n == 0x3000
}

/// The decimal digit for `d`, as a text of one character.
pub open spec fn digit_text(d: nat) -> Seq<char> {
    if d == 0 {
        "0"@
    } else if d == 1 {
        "1"@
    } else if d == 2 {
        "2"@
    } else if d == 3 {
        "3"@
    } else if d == 4 {
        "4"@
    } else if d == 5 {
        "5"@
    } else if d == 6 {
        "6"@
    } else if d == 7 {
        "7"@
    } else if d == 8 {
        "8"@
    } else {
        "9"@
    }
}

/// The number `n` written in decimal, without leading zeros.
pub open spec fn decimal_text(n: nat) -> Seq<char>
    decreases n,
{
    if n < 10 {
        digit_text(n)
    } else {
        decimal_text(n / 10) + digit_text(n % 10)
    }
}

/// `s` without the whitespace in front of it.
pub open spec fn trim_start(s: Seq<char>) -> Seq<char>
    decreases s.len(),
{
    if s.len() > 0 && is_whitespace(s[0]) {
        trim_start(s.drop_first())
    } else {
        s
    }
}

/// `s` without the whitespace at its end.
pub open spec fn trim_end(s: Seq<char>) -> Seq<char>
    decreases s.len(),
{
    if s.len() > 0 && is_whitespace(s.last()) {
        trim_end(s.drop_last())
    } else {
        s
    }
}

/// `s` without the whitespace around it.
pub open spec fn trimmed(s: Seq<char>) -> Seq<char> {
    trim_end(trim_start(s))
}

/// The byte offset, in the UTF-8 encoding of `s`, of the character at position
/// `i`: the number of bytes that the characters in front of it take. A position
/// behind the end counts as the end.
pub open spec fn byte_offset(s: Seq<char>, i: int) -> int {
    if i <= 0 {
        0
    } else if i >= s.len() {
        encode_utf8(s).len() as int
    } else {
        encode_utf8(s.take(i)).len() as int
    }
}

/// A text that may be absent, as a character sequence.
pub open spec fn text_of(t: Option<String>) -> Option<Seq<char>> {
    match t {
        Some(s) => Some(s@),
        None => None,
    }
}

/// A found position as a mathematical integer.
pub open spec fn position(found: Option<usize>) -> Option<int> {
    match found {
        Some(i) => Some(i as int),
        None => None,
    }
}

/// Position of the first `c` in `s` at or after `from`.
pub open spec fn first_from(s: Seq<char>, c: char, from: int) -> Option<int> {
    if 0 <= from <= s.len() {
        match s.skip(from).index_of_first(c) {
            Some(i) => Some(from + i),
            None => None,
        }
    } else {
        None
    }
}

/// Position of the first whitespace character in `s`.
pub open spec fn first_whitespace(s: Seq<char>) -> Option<int> {
    s.map_values(|c: char| is_whitespace(c)).index_of_first(true)
}

/// Whether two adjacent slashes start at position `i` of `s`.
pub open spec fn double_slash_at(s: Seq<char>, i: int) -> bool {
    0 <= i && i + 1 < s.len() && s[i] == '/' && s[i + 1] == '/'
}

/// Whether `s` holds two adjacent slashes anywhere.
pub open spec fn has_double_slash(s: Seq<char>) -> bool {
    exists|i: int| double_slash_at(s, i)
}

/// A value found at `i` with none before it is the first one.
pub proof fn lemma_first_is<A>(s: Seq<A>, needle: A, i: int)
    requires
        0 <= i < s.len(),
        s[i] == needle,
        forall|j: int| 0 <= j < i ==> s[j] != needle,
    ensures
        s.index_of_first(needle) == Some(i),
{
    s.index_of_first_ensures(needle);
    assert(s.contains(needle));
}

/// A value found at `i` with none after it is the last one.
pub proof fn lemma_last_is<A>(s: Seq<A>, needle: A, i: int)
    requires
        0 <= i < s.len(),
        s[i] == needle,
        forall|j: int| i < j < s.len() ==> s[j] != needle,
    ensures
        s.index_of_last(needle) == Some(i),
{
    s.index_of_last_ensures(needle);
    assert(s.contains(needle));
}

/// A value that occurs nowhere has neither a first nor a last position.
pub proof fn lemma_absent<A>(s: Seq<A>, needle: A)
    requires
        forall|j: int| 0 <= j < s.len() ==> s[j] != needle,
    ensures
        s.index_of_first(needle) is None,
        s.index_of_last(needle) is None,
{
    s.index_of_first_ensures(needle);
    s.index_of_last_ensures(needle);
}

/// What the first position of `c` at or after `from` is: `c` stands there, and
/// nowhere between `from` and it; without one, `c` stands nowhere from `from` on.
pub proof fn lemma_first_from(s: Seq<char>, c: char, from: int)
    requires
        0 <= from <= s.len(),
    ensures
        match first_from(s, c, from) {
            Some(i) => {
                &&& from <= i < s.len()
                &&& s[i] == c
                &&& forall|j: int| from <= j < i ==> s[j] != c
            },
            None => forall|j: int| from <= j < s.len() ==> s[j] != c,
        },
{
    let tail = s.skip(from);
    tail.index_of_first_ensures(c);
    match tail.index_of_first(c) {
        Some(i) => {
            assert forall|j: int| from <= j < from + i implies s[j] != c by {
                assert(tail[j - from] == s[j]);
            }
        },
        None => {
            assert forall|j: int| from <= j < s.len() implies s[j] != c by {
                assert(tail[j - from] == s[j]);
            }
        },
    }
}

/// What the first position of `c` is: `c` stands there, and nowhere before it;
/// without one, `c` stands nowhere.
pub proof fn lemma_first(s: Seq<char>, c: char)
    ensures
        match s.index_of_first(c) {
            Some(i) => {
                &&& 0 <= i < s.len()
                &&& s[i] == c
                &&& forall|j: int| 0 <= j < i ==> s[j] != c
            },
            None => forall|j: int| 0 <= j < s.len() ==> s[j] != c,
        },
{
    s.index_of_first_ensures(c);
}

/// What the first whitespace position is: a whitespace character stands there,
/// and none before it; without one, `s` holds no whitespace.
pub proof fn lemma_first_whitespace(s: Seq<char>)
    ensures
        match first_whitespace(s) {
            Some(i) => {
                &&& 0 <= i < s.len()
                &&& is_whitespace(s[i])
                &&& forall|j: int| 0 <= j < i ==> !is_whitespace(s[j])
            },
            None => forall|j: int| 0 <= j < s.len() ==> !is_whitespace(s[j]),
        },
{
    let flags = s.map_values(|c: char| is_whitespace(c));
    flags.index_of_first_ensures(true);
    match flags.index_of_first(true) {
        Some(i) => {
            assert forall|j: int| 0 <= j < i implies !is_whitespace(s[j]) by {
                assert(flags[j] == is_whitespace(s[j]));
            }
        },
        None => {
            assert forall|j: int| 0 <= j < s.len() implies !is_whitespace(s[j]) by {
                assert(flags[j] == is_whitespace(s[j]));
            }
        },
    }
}

/// The encoding of two texts, one behind the other, is their encodings one
/// behind the other.
pub proof fn lemma_encode_concat(a: Seq<char>, b: Seq<char>)
    ensures
        encode_utf8(a + b) == encode_utf8(a) + encode_utf8(b),
    decreases a.len(),
{
    if a.len() == 0 {
        assert(a + b =~= b);
        assert(encode_utf8(a) + encode_utf8(b) =~= encode_utf8(b));
    } else {
        assert((a + b).drop_first() =~= a.drop_first() + b);
        assert((a + b)[0] == a[0]);
        lemma_encode_concat(a.drop_first(), b);
        assert(encode_utf8(a + b) =~= encode_utf8(a) + encode_utf8(b));
    }
}

/// Byte offsets grow with positions, by the width of the character passed, and
/// stay within the length of the encoding.
pub proof fn lemma_byte_offset_step(s: Seq<char>, i: int)
    requires
        0 <= i < s.len(),
    ensures
        encode_utf8(s.take(i + 1)).len() == encode_utf8(s.take(i)).len() + encode_scalar(
            s[i] as u32,
        ).len(),
        encode_utf8(s.take(i + 1)).len() <= encode_utf8(s).len(),
{
    let one = seq![s[i]];
    assert(s.take(i + 1) =~= s.take(i) + one);
    lemma_encode_concat(s.take(i), one);
    assert(one.drop_first() =~= Seq::<char>::empty());
    assert(encode_utf8(one) =~= encode_scalar(s[i] as u32)) by {
        assert(encode_utf8(one.drop_first()) =~= Seq::<u8>::empty());
    }
    assert(s =~= s.take(i + 1) + s.skip(i + 1));
    lemma_encode_concat(s.take(i + 1), s.skip(i + 1));
}

/// Whether `c` is a whitespace character.
pub fn char_is_whitespace(c: char) -> (r: bool)
    ensures
        r == is_whitespace(c),
{
    let n: u32 = c as u32;
    (0x09 <= n && n <= 0x0D) || n == 0x20 || n == 0x85 || n == 0xA0 || n == 0x1680 || (0x2000 <= n
        && n <= 0x200A) || n == 0x2028 || n == 0x2029 || n == 0x202F || n == 0x205F || n == 0x3000
}

/// The characters of `s`, in order, as a vector that can be indexed in constant time.
pub fn chars_of(s: &str) -> (out: Vec<char>)
    ensures
        out@ == s@,
{
    let mut out: Vec<char> = Vec::new();
    for c in it: s.chars()
        invariant
            out@ == it.seq().take(it.index() as int),
    {
        out.push(c);
    }
    out
}

fn digit(d: u64) -> (r: &'static str)
    requires
        d < 10,
    ensures
        r@ == digit_text(d as nat),
{
    if d == 0 {
        "0"
    } else if d == 1 {
        "1"
    } else if d == 2 {
        "2"
    } else if d == 3 {
        "3"
    } else if d == 4 {
        "4"
    } else if d == 5 {
        "5"
    } else if d == 6 {
        "6"
    } else if d == 7 {
        "7"
    } else if d == 8 {
        "8"
    } else {
        "9"
    }
}

/// Writes `n` in decimal.
pub fn decimal(n: u64) -> (r: String)
    ensures
        r@ == decimal_text(n as nat),
    decreases n,
{
    if n < 10 {
        digit(n).to_owned()
    } else {
        decimal(n / 10).concat(digit(n % 10))
    }
}

/// Removes the whitespace around `s`.
pub fn trim(s: &str) -> (r: String)
    ensures
        r@ == trimmed(s@),
{
    let chars = chars_of(s);
    let len: usize = chars.len();
    let mut start: usize = 0;
    assert(s@.skip(0) =~= s@);
    while start < len && char_is_whitespace(chars[start])
        invariant
            start <= len,
            len == chars.len(),
            chars@ == s@,
            trim_start(s@) == trim_start(s@.skip(start as int)),
        decreases len - start,
    {
        assert(s@.skip(start as int).drop_first() =~= s@.skip(start + 1));
        start += 1;
    }
    let ghost rest = s@.skip(start as int);
    assert(trim_start(s@) == rest);
    let mut end: usize = len;
    assert(s@.subrange(start as int, len as int) =~= rest);
    while end > start && char_is_whitespace(chars[end - 1])
        invariant
            start <= end <= len,
            len == chars.len(),
            chars@ == s@,
            trim_end(rest) == trim_end(s@.subrange(start as int, end as int)),
        decreases end,
    {
        assert(s@.subrange(start as int, end as int).drop_last() =~= s@.subrange(
            start as int,
            end - 1,
        ));
        end -= 1;
    }
    s.substring_char(start, end).to_owned()
}

fn utf8_width(c: char) -> (w: usize)
    ensures
        w == encode_scalar(c as u32).len(),
        1 <= w <= 4,
{
    proof {
        char_is_scalar(c);
    }
    let n: u32 = c as u32;
    if n < 0x80 {
        1
    } else if n < 0x800 {
        2
    } else if n < 0x10000 {
        3
    } else {
        4
    }
}

/// The byte offset of the character at position `index` of `s`.
pub fn utf8_offset(s: &str, index: usize) -> (r: usize)
    ensures
        r == byte_offset(s@, index as int),
{
    let chars = chars_of(s);
    let total: usize = s.as_bytes().len();
    let stop: usize = if index < chars.len() {
        index
    } else {
        chars.len()
    };
    let mut offset: usize = 0;
    let mut i: usize = 0;
    assert(s@.take(0) =~= Seq::<char>::empty());
    while i < stop
        invariant
            i <= stop <= chars.len(),
            chars@ == s@,
            total == encode_utf8(s@).len(),
            offset == encode_utf8(s@.take(i as int)).len(),
        decreases stop - i,
    {
        proof {
            lemma_byte_offset_step(s@, i as int);
        }
        offset += utf8_width(chars[i]);
        i += 1;
    }
    assert(s@.take(s@.len() as int) =~= s@);
    offset
}

/// Whether `a` and `b` hold the same characters.
pub fn same_text(a: &str, b: &str) -> (r: bool)
    ensures
        r == (a@ == b@),
{
    let x: String = a.to_owned();
    let y: String = b.to_owned();
    x == y
}

/// Finds the first `c` at or after `from`.
pub fn find_from(chars: &Vec<char>, c: char, from: usize) -> (r: Option<usize>)
    ensures
        position(r) == first_from(chars@, c, from as int),
        r matches Some(i) ==> from <= i < chars.len() && chars[i as int] == c,
{
    if from > chars.len() {
        return None;
    }
    let ghost tail = chars@.skip(from as int);
    let mut i: usize = from;
    while i < chars.len()
        invariant
            from <= i <= chars.len(),
            tail == chars@.skip(from as int),
            forall|j: int| 0 <= j < i - from ==> tail[j] != c,
        decreases chars.len() - i,
    {
        if chars[i] == c {
            proof {
                lemma_first_is(tail, c, i - from);
            }
            return Some(i);
        }
        i += 1;
    }
    proof {
        lemma_absent(tail, c);
    }
    None
}

/// Finds the first `c`.
pub fn find_first(chars: &Vec<char>, c: char) -> (r: Option<usize>)
    ensures
        position(r) == chars@.index_of_first(c),
        r matches Some(i) ==> i < chars.len() && chars[i as int] == c,
{
    assert(chars@.skip(0) =~= chars@);
    find_from(chars, c, 0)
}

/// Finds the last `c` among the first `end` characters, or among all of them
/// where there are fewer.
pub fn find_last_before(chars: &Vec<char>, c: char, end: usize) -> (r: Option<usize>)
    ensures
        position(r) == chars@.take(
            if end <= chars.len() {
                end as int
            } else {
                chars.len() as int
            },
        ).index_of_last(c),
        r matches Some(i) ==> i < end && i < chars.len() && chars[i as int] == c,
{
    let limit: usize = if end <= chars.len() {
        end
    } else {
        chars.len()
    };
    let ghost head = chars@.take(limit as int);
    let mut i: usize = limit;
    while i > 0
        invariant
            i <= limit <= chars.len(),
            limit <= end,
            end <= chars.len() ==> limit == end,
            end > chars.len() ==> limit == chars.len(),
            head == chars@.take(limit as int),
            forall|j: int| i <= j < limit ==> head[j] != c,
        decreases i,
    {
        i -= 1;
        if chars[i] == c {
            proof {
                lemma_last_is(head, c, i as int);
            }
            return Some(i);
        }
    }
    proof {
        lemma_absent(head, c);
    }
    None
}

/// Finds the first whitespace character.
pub fn find_whitespace(chars: &Vec<char>) -> (r: Option<usize>)
    ensures
        position(r) == first_whitespace(chars@),
        r matches Some(i) ==> i < chars.len() && is_whitespace(chars[i as int]),
{
    let ghost flags = chars@.map_values(|c: char| is_whitespace(c));
    let mut i: usize = 0;
    while i < chars.len()
        invariant
            i <= chars.len(),
            flags == chars@.map_values(|c: char| is_whitespace(c)),
            forall|j: int| 0 <= j < i ==> !flags[j],
        decreases chars.len() - i,
    {
        if char_is_whitespace(chars[i]) {
            proof {
                lemma_first_is(flags, true, i as int);
            }
            return Some(i);
        }
        i += 1;
    }
    proof {
        lemma_absent(flags, true);
    }
    None
}

/// Whether two adjacent slashes occur anywhere.
pub fn contains_double_slash(chars: &Vec<char>) -> (r: bool)
    ensures
        r == has_double_slash(chars@),
{
    let n: usize = chars.len();
    if n < 2 {
        return false;
    }
    let mut i: usize = 0;
    while i < n - 1
        invariant
            n == chars.len(),
            n >= 2,
            i <= n - 1,
            forall|j: int| 0 <= j < i ==> !double_slash_at(chars@, j),
        decreases n - i,
    {
        if chars[i] == '/' && chars[i + 1] == '/' {
            assert(double_slash_at(chars@, i as int));
            return true;
        }
        i += 1;
    }
    false
}

} // verus!
