//! Character-level helpers shared by the parsers and the code generators.
//!
//! Generated text is assembled in a `Vec<char>` buffer (whose view is the
//! exact character sequence) and turned into a `String` once at the end.

use vstd::prelude::*;

verus! {

/// The characters of `s`, in order.
pub fn chars_of(s: &str) -> (r: Vec<char>)
    ensures
        r@ == s@,
{
    let mut r: Vec<char> = Vec::new();
    for c in it: s.chars()
        invariant
            r@ == it.seq().take(it.index() as int),
            it.seq() == s@,
    {
        r.push(c);
    }
    r
}

/// Append the characters of `s` to `buf`.
pub fn push_str(buf: &mut Vec<char>, s: &str)
    ensures
        final(buf)@ == old(buf)@ + s@,
{
    let cs = chars_of(s);
    let n = cs.len();
    let ghost start = buf@;
    for i in 0..n
        invariant
            n == cs@.len(),
            cs@ == s@,
            buf@ == start + cs@.take(i as int),
    {
        buf.push(cs[i]);
        assert(cs@.take(i + 1) == cs@.take(i as int).push(cs@[i as int]));
    }
    assert(cs@.take(n as int) == cs@);
}

/// Append the characters held in `other` to `buf`.
pub fn push_chars(buf: &mut Vec<char>, other: &Vec<char>)
    ensures
        final(buf)@ == old(buf)@ + other@,
{
    let n = other.len();
    let ghost start = buf@;
    for i in 0..n
        invariant
            n == other@.len(),
            buf@ == start + other@.take(i as int),
    {
        buf.push(other[i]);
        assert(other@.take(i + 1) == other@.take(i as int).push(other@[i as int]));
    }
    assert(other@.take(n as int) == other@);
}

/// std `String: FromIterator<char>`: the string made of the characters of
/// `chars`, in order.
#[verifier::external_body]
pub fn string_from_chars(chars: &Vec<char>) -> (s: String)
    ensures
        s@ == chars@,
{
    chars.iter().collect()
}

/// Equality of two string slices as character sequences.
pub fn str_eq(a: &str, b: &str) -> (r: bool)
    ensures
        r == (a@ == b@),
{
    let x = a.to_owned();
    let y = b.to_owned();
    x == y
}

/// The Unicode lowercase mapping of std's `str::to_lowercase`.
pub uninterp spec fn spec_to_lowercase(s: Seq<char>) -> Seq<char>;

/// ASCII-only lowercase of one character.
pub open spec fn ascii_lower_char(c: char) -> char {
    if 'A' <= c && c <= 'Z' {
        ((c as u32) + 32) as char
    } else {
        c
    }
}

/// Every character is ASCII.
pub open spec fn all_ascii(s: Seq<char>) -> bool {
    forall|i: int| 0 <= i < s.len() ==> (s[i] as u32) < 128
}

/// ASCII-only lowercase of a character sequence.
pub open spec fn ascii_lower(s: Seq<char>) -> Seq<char> {
    Seq::new(s.len(), |i: int| ascii_lower_char(s[i]))
}

/// std `str::to_lowercase`. The Unicode case mapping is named, not
/// restated; what is claimed is that the result depends on the input
/// alone and that, for an ASCII input, it lowers exactly `A`..=`Z` (the
/// documented behaviour of lowercasing on the ASCII range).
#[verifier::external_body]
pub fn to_lowercase(s: &str) -> (r: String)
    ensures
        r@ == spec_to_lowercase(s@),
        all_ascii(s@) ==> r@ == ascii_lower(s@),
{
    s.to_lowercase()
}

/// The decimal digits of `n` (no sign, no leading zeros; `"0"` for zero).
pub open spec fn decimal(n: nat) -> Seq<char>
    decreases n,
{
    if n < 10 {
        seq![digit_char(n)]
    } else {
        decimal(n / 10).push(digit_char(n % 10))
    }
}

/// The ASCII digit for `d < 10`.
pub open spec fn digit_char(d: nat) -> char {
    (('0' as nat) + d) as char
}

/// The decimal rendering of a signed integer (`-` prefix for negatives).
pub open spec fn signed_decimal(n: int) -> Seq<char> {
    if n < 0 {
        seq!['-'] + decimal((-n) as nat)
    } else {
        decimal(n as nat)
    }
}

fn digit(d: u64) -> (c: char)
    requires
        d < 10,
    ensures
        c == digit_char(d as nat),
{
    let c = match d {
        0 => '0',
        1 => '1',
        2 => '2',
        3 => '3',
        4 => '4',
        5 => '5',
        6 => '6',
        7 => '7',
        8 => '8',
        _ => '9',
    };
    c
}

/// Append the decimal rendering of `n` to `buf`.
pub fn push_u64(buf: &mut Vec<char>, n: u64)
    ensures
        final(buf)@ == old(buf)@ + decimal(n as nat),
    decreases n,
{
    if n < 10 {
        buf.push(digit(n));
        assert(decimal(n as nat) == seq![digit_char(n as nat)]);
    } else {
        push_u64(buf, n / 10);
        buf.push(digit(n % 10));
        assert(decimal(n as nat) == decimal((n / 10) as nat).push(digit_char((n % 10) as nat)));
    }
}

/// Append the signed decimal rendering of `n` to `buf`.
pub fn push_i64(buf: &mut Vec<char>, n: i64)
    ensures
        final(buf)@ == old(buf)@ + signed_decimal(n as int),
{
    if n < 0 {
        buf.push('-');
        let m: u64 = if n == i64::MIN {
            9223372036854775808u64
        } else {
            (-n) as u64
        };
        let ghost mid = buf@;
        push_u64(buf, m);
        assert(buf@ == old(buf)@ + (seq!['-'] + decimal(m as nat)));
    } else {
        push_u64(buf, n as u64);
    }
}

/// The decimal rendering of `n` as a string.
pub fn u64_to_string(n: u64) -> (s: String)
    ensures
        s@ == decimal(n as nat),
{
    let mut buf: Vec<char> = Vec::new();
    push_u64(&mut buf, n);
    assert(buf@ == decimal(n as nat));
    string_from_chars(&buf)
}

/// Decimal renderings of distinct numbers are distinct.
pub proof fn lemma_decimal_injective(a: nat, b: nat)
    requires
        decimal(a) == decimal(b),
    ensures
        a == b,
    decreases a,
{
    if a < 10 && b < 10 {
        assert(decimal(a) == seq![digit_char(a)]);
        assert(decimal(b) == seq![digit_char(b)]);
        assert(decimal(a)[0] == decimal(b)[0]);
        assert(seq![digit_char(a)][0] == digit_char(a));
        assert(seq![digit_char(b)][0] == digit_char(b));
        lemma_digit_char_injective(a, b);
    } else if a < 10 {
        lemma_decimal_len(b / 10);
        assert(decimal(b).len() >= 2);
    } else if b < 10 {
        lemma_decimal_len(a / 10);
        assert(decimal(a).len() >= 2);
    } else {
        let da = decimal(a / 10);
        let db = decimal(b / 10);
        assert(da == decimal(a).drop_last());
        assert(db == decimal(b).drop_last());
        assert(decimal(a).last() == digit_char(a % 10));
        assert(decimal(b).last() == digit_char(b % 10));
        lemma_decimal_injective(a / 10, b / 10);
        lemma_digit_char_injective(a % 10, b % 10);
    }
}

/// Distinct digits have distinct characters.
pub proof fn lemma_digit_char_injective(a: nat, b: nat)
    requires
        a < 10,
        b < 10,
        digit_char(a) == digit_char(b),
    ensures
        a == b,
{
    assert(digit_char(a) as u32 == 48 + a);
    assert(digit_char(b) as u32 == 48 + b);
}

/// A decimal rendering is never empty.
pub proof fn lemma_decimal_len(n: nat)
    ensures
        decimal(n).len() >= 1,
    decreases n,
{
    if n >= 10 {
        lemma_decimal_len(n / 10);
    }
}

} // verus!

verus! {

/// std's `Debug` rendering of a string slice (quoted, escaped).
pub uninterp spec fn spec_debug_str(s: Seq<char>) -> Seq<char>;

/// std `<str as Debug>::fmt` (through `format!("{:?}")`): the quoted and
/// escaped form of `s`. Claimed: a function of `s` alone.
#[verifier::external_body]
pub fn debug_str(s: &str) -> (r: String)
    ensures
        r@ == spec_debug_str(s@),
{
    format!("{:?}", s)
}

/// std's `Debug` rendering of a character (single-quoted, escaped).
pub uninterp spec fn spec_debug_char(c: char) -> Seq<char>;

/// std `<char as Debug>::fmt` (through `format!("{:?}")`): the quoted and
/// escaped form of `c`. Claimed: a function of `c` alone.
#[verifier::external_body]
pub fn debug_char(c: char) -> (r: String)
    ensures
        r@ == spec_debug_char(c),
{
    format!("{:?}", c)
}

/// A string made of `a` followed by `b`.
pub fn concat2(a: &str, b: &str) -> (r: String)
    ensures
        r@ == a@ + b@,
{
    let mut buf: Vec<char> = Vec::new();
    push_str(&mut buf, a);
    push_str(&mut buf, b);
    assert(buf@ == a@ + b@);
    string_from_chars(&buf)
}

/// A string made of `a`, `b` and `c`, in order.
pub fn concat3(a: &str, b: &str, c: &str) -> (r: String)
    ensures
        r@ == a@ + b@ + c@,
{
    let mut buf: Vec<char> = Vec::new();
    push_str(&mut buf, a);
    push_str(&mut buf, b);
    push_str(&mut buf, c);
    string_from_chars(&buf)
}

} // verus!
