//! Text as a sequence of characters: searching, trimming and reading numbers.
//!
//! The functions here work on slices of `char`, so that every position is an
//! index, and state their results over `Seq<char>`.

use vstd::prelude::*;
use vstd::utf8::{decode_utf8, valid_utf8};

verus! {

/// The index of the first element of `s` that satisfies `p`, or the length of
/// `s` where none does.
pub open spec fn first_index<T>(s: Seq<T>, p: spec_fn(T) -> bool) -> int
    decreases s.len(),
{
    if s.len() == 0 || p(s[0]) {
        0
    } else {
        1 + first_index(s.drop_first(), p)
    }
}

/// The index behind the last element of `s` that satisfies `p`, or 0 where
/// none does.
pub open spec fn end_index<T>(s: Seq<T>, p: spec_fn(T) -> bool) -> int
    decreases s.len(),
{
    if s.len() == 0 || p(s.last()) {
        s.len() as int
    } else {
        end_index(s.drop_last(), p)
    }
}

/// `first_index` is the one position with nothing that satisfies `p` before
/// it and, unless it is the end, an element that satisfies `p` at it.
pub proof fn lemma_first_index<T>(s: Seq<T>, p: spec_fn(T) -> bool, k: int)
    requires
        0 <= k <= s.len(),
        forall|j: int| 0 <= j < k ==> !p(#[trigger] s[j]),
        k == s.len() || p(s[k]),
    ensures
        first_index(s, p) == k,
    decreases s.len(),
{
    if s.len() == 0 || p(s[0]) {
    } else {
        let t = s.drop_first();
        assert forall|j: int| 0 <= j < k - 1 implies !p(#[trigger] t[j]) by {
            assert(t[j] == s[j + 1]);
        }
        lemma_first_index(t, p, k - 1);
    }
}

/// What `first_index` returns lies within `s`, follows only elements that do
/// not satisfy `p`, and points at one that does unless it is the end.
pub proof fn lemma_first_index_found<T>(s: Seq<T>, p: spec_fn(T) -> bool)
    ensures
        0 <= first_index(s, p) <= s.len(),
        forall|j: int| 0 <= j < first_index(s, p) ==> !p(#[trigger] s[j]),
        first_index(s, p) < s.len() ==> p(s[first_index(s, p)]),
    decreases s.len(),
{
    if s.len() == 0 || p(s[0]) {
    } else {
        let t = s.drop_first();
        lemma_first_index_found(t, p);
        assert forall|j: int| 0 <= j < first_index(s, p) implies !p(#[trigger] s[j]) by {
            if j > 0 {
                assert(s[j] == t[j - 1]);
            }
        }
    }
}

/// `end_index` is the one position with nothing that satisfies `p` from it
/// on and, unless it is the start, an element that satisfies `p` before it.
pub proof fn lemma_end_index<T>(s: Seq<T>, p: spec_fn(T) -> bool, k: int)
    requires
        0 <= k <= s.len(),
        forall|j: int| k <= j < s.len() ==> !p(#[trigger] s[j]),
        k == 0 || p(s[k - 1]),
    ensures
        end_index(s, p) == k,
    decreases s.len(),
{
    if s.len() == 0 || p(s.last()) {
    } else {
        let t = s.drop_last();
        lemma_end_index(t, p, k);
    }
}

/// Whether `c` is white space: the characters that Unicode gives the
/// property White_Space.
pub open spec fn is_space(c: char) -> bool {
    let n = c as u32;
    ||| 0x09 <= n <= 0x0d
    ||| n == 0x20
    ||| n == 0x85
    ||| n == 0xa0
    ||| n == 0x1680
    ||| 0x2000 <= n <= 0x200a
    ||| n == 0x2028
    ||| n == 0x2029
    ||| n == 0x202f
    ||| n == 0x205f
    ||| n == 0x3000
}

/// Whether `c` is not white space.
pub open spec fn is_ink(c: char) -> bool {
    !is_space(c)
}

/// `s` without the white space at its two ends.
pub open spec fn trimmed(s: Seq<char>) -> Seq<char> {
    let a = first_index(s, |c: char| is_ink(c));
    let b = end_index(s, |c: char| is_ink(c));
    if a < b {
        s.subrange(a, b)
    } else {
        Seq::empty()
    }
}

/// Whether `c` is white space.
pub fn is_whitespace(c: char) -> (b: bool)
    ensures
        b == is_space(c),
{
    let n: u32 = c as u32;
    (0x09 <= n && n <= 0x0d) || n == 0x20 || n == 0x85 || n == 0xa0 || n == 0x1680 || (0x2000 <= n
        && n <= 0x200a) || n == 0x2028 || n == 0x2029 || n == 0x202f || n == 0x205f || n == 0x3000
}

/// The characters of `s`, in order.
pub fn chars_of(s: &str) -> (v: Vec<char>)
    ensures
        v@ == s@,
{
    let mut v: Vec<char> = Vec::new();
    for c in it: s.chars()
        invariant
            it.seq() == s@,
            v@ == s@.take(it.index() as int),
    {
        v.push(c);
    }
    v
}

/// `String::push` appends one character at the end of the string.
pub assume_specification[ std::string::String::push ](s: &mut std::string::String, c: char)
    ensures
        final(s)@ == old(s)@.push(c),
;

/// The string made of the characters of `v`, in order.
pub fn string_of(v: &[char]) -> (s: String)
    ensures
        s@ == v@,
{
    let mut s = String::new();
    let mut i: usize = 0;
    while i < v.len()
        invariant
            i <= v.len(),
            s@ == v@.take(i as int),
        decreases v.len() - i,
    {
        s.push(v[i]);
        i += 1;
    }
    s
}

/// `String::from_utf8` turns bytes that are valid UTF-8 into the string they
/// encode, and refuses all other bytes.
#[verifier::external_body]
pub(crate) fn string_from_utf8(bytes: Vec<u8>) -> (r: Option<String>)
    ensures
        match r {
            Some(s) => valid_utf8(bytes@) && s@ == decode_utf8(bytes@),
            None => !valid_utf8(bytes@),
        },
{
    String::from_utf8(bytes).ok()
}

/// The index of the first element of `v` equal to `x`, or the length of `v`.
pub fn find_byte(v: &[u8], x: u8) -> (k: usize)
    ensures
        k == first_index(v@, |b: u8| b == x),
{
    let mut i: usize = 0;
    while i < v.len() && v[i] != x
        invariant
            i <= v.len(),
            forall|j: int| 0 <= j < i ==> v@[j] != x,
        decreases v.len() - i,
    {
        i += 1;
    }
    proof {
        lemma_first_index(v@, |b: u8| b == x, i as int);
    }
    i
}

/// The index of the first character of `v` equal to `x`, or the length of `v`.
pub fn find_char(v: &[char], x: char) -> (k: usize)
    ensures
        k == first_index(v@, |c: char| c == x),
{
    let mut i: usize = 0;
    while i < v.len() && v[i] != x
        invariant
            i <= v.len(),
            forall|j: int| 0 <= j < i ==> v@[j] != x,
        decreases v.len() - i,
    {
        i += 1;
    }
    proof {
        lemma_first_index(v@, |c: char| c == x, i as int);
    }
    i
}

/// The index of the first white-space character of `v`, or the length of `v`.
pub fn find_space(v: &[char]) -> (k: usize)
    ensures
        k == first_index(v@, |c: char| is_space(c)),
{
    let mut i: usize = 0;
    while i < v.len() && !is_whitespace(v[i])
        invariant
            i <= v.len(),
            forall|j: int| 0 <= j < i ==> !is_space(v@[j]),
        decreases v.len() - i,
    {
        i += 1;
    }
    proof {
        lemma_first_index(v@, |c: char| is_space(c), i as int);
    }
    i
}

/// The part of `v` that is left when the white space at its two ends is
/// taken away.
pub fn trim(v: &[char]) -> (t: &[char])
    ensures
        t@ == trimmed(v@),
{
    let mut a: usize = 0;
    while a < v.len() && is_whitespace(v[a])
        invariant
            a <= v.len(),
            forall|j: int| 0 <= j < a ==> !is_ink(v@[j]),
        decreases v.len() - a,
    {
        a += 1;
    }
    let mut b: usize = v.len();
    while b > 0 && is_whitespace(v[b - 1])
        invariant
            b <= v.len(),
            forall|j: int| b <= j < v.len() ==> !is_ink(v@[j]),
        decreases b,
    {
        b -= 1;
    }
    proof {
        lemma_first_index(v@, |c: char| is_ink(c), a as int);
        lemma_end_index(v@, |c: char| is_ink(c), b as int);
    }
    if a < b {
        vstd::slice::slice_subrange(v, a, b)
    } else {
        vstd::slice::slice_subrange(v, 0, 0)
    }
}

/// Whether `v` begins with the characters of `prefix`.
pub fn starts_with(v: &[char], prefix: &str) -> (b: bool)
    ensures
        b == prefix@.is_prefix_of(v@),
{
    let p = chars_of(prefix);
    if p.len() > v.len() {
        return false;
    }
    let mut i: usize = 0;
    while i < p.len()
        invariant
            i <= p.len() <= v.len(),
            p@ == prefix@,
            forall|j: int| 0 <= j < i ==> v@[j] == p@[j],
        decreases p.len() - i,
    {
        if v[i] != p[i] {
            return false;
        }
        i += 1;
    }
    assert(p@ =~= v@.subrange(0, p@.len() as int));
    true
}

/// Whether two texts hold the same characters.
pub fn same_text(a: &str, b: &str) -> (r: bool)
    ensures
        r == (a@ == b@),
{
    let v = chars_of(a);
    let same_start = starts_with(v.as_slice(), b);
    let w = chars_of(b);
    if same_start && v.len() == w.len() {
        assert(a@ =~= b@);
        true
    } else {
        false
    }
}

/// The text that bytes encode, without the white space at its two ends;
/// nothing where the bytes are not valid UTF-8.
pub open spec fn trimmed_text(bytes: Seq<u8>) -> Option<Seq<char>> {
    if valid_utf8(bytes) {
        Some(trimmed(decode_utf8(bytes)))
    } else {
        None
    }
}

/// Decodes bytes to text and takes the white space at its two ends away.
pub fn decode_trimmed(bytes: Vec<u8>) -> (r: Option<String>)
    ensures
        match r {
            Some(s) => trimmed_text(bytes@) == Some(s@),
            None => trimmed_text(bytes@) is None,
        },
{
    match string_from_utf8(bytes) {
        Some(s) => {
            let v = chars_of(s.as_str());
            Some(string_of(trim(v.as_slice())))
        },
        None => None,
    }
}

/// Whether `c` is one of the digits `0` to `9`.
pub open spec fn is_digit(c: char) -> bool {
    0x30 <= c as u32 <= 0x39
}

/// The number that a digit stands for.
pub open spec fn digit_value(c: char) -> nat {
    (c as u32 - 0x30) as nat
}

/// The number that a sequence of digits writes in base ten.
pub open spec fn decimal(s: Seq<char>) -> nat
    decreases s.len(),
{
    if s.len() == 0 {
        0
    } else {
        10 * decimal(s.drop_last()) + digit_value(s.last())
    }
}

/// Whether every character of `s` is a digit.
pub open spec fn all_digits(s: Seq<char>) -> bool {
    forall|i: int| 0 <= i < s.len() ==> is_digit(#[trigger] s[i])
}

/// `s` without the plus sign that may stand before a number.
pub open spec fn unsigned_part(s: Seq<char>) -> Seq<char> {
    if s.len() > 0 && s[0] == '+' {
        s.drop_first()
    } else {
        s
    }
}

/// The number that `s` writes: one digit or more in base ten, with or
/// without a plus sign before them, that give a number within `usize`.
pub open spec fn number_of(s: Seq<char>) -> Option<nat> {
    let d = unsigned_part(s);
    if d.len() > 0 && all_digits(d) && decimal(d) <= usize::MAX {
        Some(decimal(d))
    } else {
        None
    }
}

/// The digits of a number that begin it write a number that is no greater.
pub proof fn lemma_decimal_prefix(s: Seq<char>, i: int)
    requires
        0 <= i <= s.len(),
    ensures
        decimal(s.take(i)) <= decimal(s),
    decreases s.len(),
{
    if i == s.len() {
        assert(s.take(i) =~= s);
    } else {
        assert(s.take(i) =~= s.drop_last().take(i));
        lemma_decimal_prefix(s.drop_last(), i);
    }
}

/// Reads a number as `number_of` describes it.
pub fn parse_number(v: &[char]) -> (r: Option<usize>)
    ensures
        match r {
            Some(n) => number_of(v@) == Some(n as nat),
            None => number_of(v@) is None,
        },
{
    let start: usize = if v.len() > 0 && v[0] == '+' {
        1
    } else {
        0
    };
    let d = vstd::slice::slice_subrange(v, start, v.len());
    assert(d@ =~= unsigned_part(v@));
    if d.len() == 0 {
        return None;
    }
    let mut acc: usize = 0;
    let mut i: usize = 0;
    while i < d.len()
        invariant
            i <= d.len(),
            d@.len() > 0,
            d@ == unsigned_part(v@),
            all_digits(d@.take(i as int)),
            acc == decimal(d@.take(i as int)),
        decreases d.len() - i,
    {
        let ch: char = d[i];
        let c: u32 = ch as u32;
        if c < 0x30 || c > 0x39 {
            assert(!is_digit(d@[i as int]));
            return None;
        }
        proof {
            assert(d@.take(i + 1).drop_last() =~= d@.take(i as int));
            assert(d@.take(i + 1).last() == ch);
            assert(decimal(d@.take(i + 1)) == 10 * acc + digit_value(ch));
            lemma_decimal_prefix(d@, i + 1);
        }
        let digit: usize = (c - 0x30) as usize;
        let tens = match acc.checked_mul(10) {
            Some(t) => t,
            None => {
                return None;
            },
        };
        acc = match tens.checked_add(digit) {
            Some(t) => t,
            None => {
                return None;
            },
        };
        i += 1;
    }
    assert(d@.take(i as int) =~= d@);
    Some(acc)
}

} // verus!
