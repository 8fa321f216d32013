//! SHA-256 digests and the canonical, length-prefixed byte encoding that
//! provenance hashes are computed over.

use vstd::prelude::*;

use sha2::{Digest, Sha256};
use vstd::utf8::{encode_utf8, encode_utf8_decode_utf8};

verus! {

/// The SHA-256 digest of a byte sequence (computed by the sha2 crate).
pub uninterp spec fn spec_sha256(data: Seq<u8>) -> Seq<u8>;

/// sha2 `Sha256::digest`: the SHA-256 digest of `data`. Claimed: the result
/// is a function of `data` alone, 32 bytes long.
#[verifier::external_body]
pub fn sha256(data: &[u8]) -> (r: Vec<u8>)
    ensures
        r@ == spec_sha256(data@),
        r@.len() == 32,
{
    Sha256::digest(data).to_vec()
}

/// Lowercase hexadecimal digit for `d < 16`.
pub open spec fn hex_digit(d: u8) -> char {
    if d < 10 {
        (('0' as u8) + d) as char
    } else {
        (('a' as u8) + (d - 10)) as char
    }
}

/// Lowercase hexadecimal rendering, two digits per byte.
pub open spec fn hex_lower(data: Seq<u8>) -> Seq<char>
    decreases data.len(),
{
    if data.len() == 0 {
        Seq::empty()
    } else {
        hex_lower(data.drop_last()) + seq![hex_digit(data.last() / 16), hex_digit(data.last() % 16)]
    }
}

fn hex_char(d: u8) -> (c: char)
    requires
        d < 16,
    ensures
        c == hex_digit(d),
{
    let c = match d {
        0 => '0',
        1 => '1',
        2 => '2',
        3 => '3',
        4 => '4',
        5 => '5',
        6 => '6',
        7 => '7',
        8 => '8',
        9 => '9',
        10 => 'a',
        11 => 'b',
        12 => 'c',
        13 => 'd',
        14 => 'e',
        _ => 'f',
    };
    c
}

/// The lowercase hexadecimal rendering of `data`.
pub fn to_hex_lower(data: &Vec<u8>) -> (r: Vec<char>)
    ensures
        r@ == hex_lower(data@),
{
    let mut r: Vec<char> = Vec::new();
    let n = data.len();
    for i in 0..n
        invariant
            n == data@.len(),
            r@ == hex_lower(data@.take(i as int)),
    {
        let b = data[i];
        r.push(hex_char(b / 16));
        r.push(hex_char(b % 16));
        assert(data@.take(i + 1).drop_last() == data@.take(i as int));
    }
    assert(data@.take(n as int) == data@);
    r
}

// ---------------------------------------------------------------------------
// Length-prefixed field encoding
// ---------------------------------------------------------------------------

/// Big-endian eight-byte encoding of `n`.
pub open spec fn be_u64(n: u64) -> Seq<u8> {
    seq![
        (n >> 56u64) as u8,
        (n >> 48u64) as u8,
        (n >> 40u64) as u8,
        (n >> 32u64) as u8,
        (n >> 24u64) as u8,
        (n >> 16u64) as u8,
        (n >> 8u64) as u8,
        n as u8,
    ]
}

/// A text field: its UTF-8 byte length (eight bytes, big-endian), then
/// its UTF-8 bytes.
pub open spec fn text_field(s: Seq<char>) -> Seq<u8> {
    be_u64(encode_utf8(s).len() as u64) + encode_utf8(s)
}

/// An optional text field: a `0` tag for `None`, or a `1` tag followed by
/// the text field.
pub open spec fn opt_text_field(o: Option<Seq<char>>) -> Seq<u8> {
    match o {
        None => seq![0u8],
        Some(s) => seq![1u8] + text_field(s),
    }
}

/// A text field can be encoded in memory (its length fits in 64 bits).
pub open spec fn encodable(s: Seq<char>) -> bool {
    encode_utf8(s).len() < 0x1_0000_0000_0000_0000
}

/// An optional text field can be encoded in memory.
pub open spec fn opt_encodable(o: Option<Seq<char>>) -> bool {
    match o {
        None => true,
        Some(s) => encodable(s),
    }
}

fn push_be_u64(buf: &mut Vec<u8>, n: u64)
    ensures
        final(buf)@ == old(buf)@ + be_u64(n),
{
    buf.push((n >> 56u64) as u8);
    buf.push((n >> 48u64) as u8);
    buf.push((n >> 40u64) as u8);
    buf.push((n >> 32u64) as u8);
    buf.push((n >> 24u64) as u8);
    buf.push((n >> 16u64) as u8);
    buf.push((n >> 8u64) as u8);
    buf.push(n as u8);
    assert(buf@ == old(buf)@ + be_u64(n));
}

/// Append `text_field(s)` to `buf`.
pub fn push_text_field(buf: &mut Vec<u8>, s: &str)
    ensures
        final(buf)@ == old(buf)@ + text_field(s@),
{
    let bytes = s.as_bytes();
    let n = bytes.len();
    push_be_u64(buf, n as u64);
    let ghost mid = buf@;
    for i in 0..n
        invariant
            n == bytes@.len(),
            bytes@ == encode_utf8(s@),
            buf@ == mid + bytes@.take(i as int),
    {
        buf.push(bytes[i]);
        assert(bytes@.take(i + 1) == bytes@.take(i as int).push(bytes@[i as int]));
    }
    assert(bytes@.take(n as int) == bytes@);
    assert(buf@ == old(buf)@ + text_field(s@));
}

/// Append `opt_text_field(o)` to `buf`.
pub fn push_opt_text_field(buf: &mut Vec<u8>, o: Option<&str>)
    ensures
        final(buf)@ == old(buf)@ + opt_text_field(
            match o {
                None => None,
                Some(s) => Some(s@),
            },
        ),
{
    match o {
        None => {
            buf.push(0u8);
        },
        Some(s) => {
            buf.push(1u8);
            let ghost mid = buf@;
            push_text_field(buf, s);
            assert(buf@ == old(buf)@ + (seq![1u8] + text_field(s@)));
        },
    }
}

/// Distinct lengths have distinct big-endian encodings.
pub proof fn lemma_be_u64_injective(a: u64, b: u64)
    requires
        be_u64(a) == be_u64(b),
    ensures
        a == b,
{
    assert(be_u64(a)[0] == be_u64(b)[0]);
    assert(be_u64(a)[1] == be_u64(b)[1]);
    assert(be_u64(a)[2] == be_u64(b)[2]);
    assert(be_u64(a)[3] == be_u64(b)[3]);
    assert(be_u64(a)[4] == be_u64(b)[4]);
    assert(be_u64(a)[5] == be_u64(b)[5]);
    assert(be_u64(a)[6] == be_u64(b)[6]);
    assert(be_u64(a)[7] == be_u64(b)[7]);
    assert(a == b) by (bit_vector)
        requires
            (a >> 56u64) as u8 == (b >> 56u64) as u8,
            (a >> 48u64) as u8 == (b >> 48u64) as u8,
            (a >> 40u64) as u8 == (b >> 40u64) as u8,
            (a >> 32u64) as u8 == (b >> 32u64) as u8,
            (a >> 24u64) as u8 == (b >> 24u64) as u8,
            (a >> 16u64) as u8 == (b >> 16u64) as u8,
            (a >> 8u64) as u8 == (b >> 8u64) as u8,
            a as u8 == b as u8,
    ;
}

/// A text field followed by anything determines the text and the rest:
/// the length prefix says where the text ends.
pub proof fn lemma_text_field_prefix(a: Seq<char>, ra: Seq<u8>, b: Seq<char>, rb: Seq<u8>)
    requires
        encodable(a),
        encodable(b),
        text_field(a) + ra == text_field(b) + rb,
    ensures
        a == b,
        ra == rb,
{
    let ea = encode_utf8(a);
    let eb = encode_utf8(b);
    let x = text_field(a) + ra;
    let y = text_field(b) + rb;
    assert(x.take(8) == be_u64(ea.len() as u64));
    assert(y.take(8) == be_u64(eb.len() as u64));
    lemma_be_u64_injective(ea.len() as u64, eb.len() as u64);
    assert(ea.len() == eb.len());
    assert(x.subrange(8, 8 + ea.len() as int) == ea);
    assert(y.subrange(8, 8 + eb.len() as int) == eb);
    encode_utf8_decode_utf8(a);
    encode_utf8_decode_utf8(b);
    assert(x.skip(8 + ea.len() as int) == ra);
    assert(y.skip(8 + eb.len() as int) == rb);
}

/// An optional text field followed by anything determines both.
pub proof fn lemma_opt_text_field_prefix(
    a: Option<Seq<char>>,
    ra: Seq<u8>,
    b: Option<Seq<char>>,
    rb: Seq<u8>,
)
    requires
        opt_encodable(a),
        opt_encodable(b),
        opt_text_field(a) + ra == opt_text_field(b) + rb,
    ensures
        a == b,
        ra == rb,
{
    let x = opt_text_field(a) + ra;
    let y = opt_text_field(b) + rb;
    assert(x[0] == opt_text_field(a)[0]);
    assert(y[0] == opt_text_field(b)[0]);
    match (a, b) {
        (None, None) => {
            assert(x.skip(1) == ra);
            assert(y.skip(1) == rb);
        },
        (Some(sa), Some(sb)) => {
            assert(x.skip(1) == text_field(sa) + ra);
            assert(y.skip(1) == text_field(sb) + rb);
            lemma_text_field_prefix(sa, ra, sb, rb);
        },
        (None, Some(sb)) => {
            assert(x[0] == 0u8);
            assert(y[0] == 1u8);
        },
        (Some(sa), None) => {
            assert(x[0] == 1u8);
            assert(y[0] == 0u8);
        },
    }
}

} // verus!
