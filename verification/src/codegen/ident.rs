//! Identifier validation for any user-controlled name flowing into generated
//! DDL. The code generators interpolate table and column names directly into
//! SQL, so an unchecked name like `posts'); DROP TABLE x;--` would be
//! injected verbatim.

use vstd::prelude::*;

use vstd::string::StringSliceAdditionalSpecFns;
use vstd::utf8::{decode_utf8, encode_utf8};

use crate::text::{
    debug_char, decimal, push_str, push_u64, spec_debug_char, string_from_chars,
};

verus! {

/// Longest accepted identifier, in bytes (PostgreSQL's NAMEDATALEN minus
/// the terminator).
pub const MAX_IDENT_LEN: usize = 63;

/// Bytes of an identifier kept when it is quoted in an error.
pub const DISPLAY_LIMIT: usize = 60;

/// An ASCII letter.
pub open spec fn is_ascii_letter(c: char) -> bool {
    ('a' <= c && c <= 'z') || ('A' <= c && c <= 'Z')
}

/// An ASCII digit.
pub open spec fn is_ascii_digit(c: char) -> bool {
    '0' <= c && c <= '9'
}

/// May start an identifier: an ASCII letter or `_`.
pub open spec fn ident_start(c: char) -> bool {
    is_ascii_letter(c) || c == '_'
}

/// May continue an identifier: an ASCII letter, digit or `_`.
pub open spec fn ident_char(c: char) -> bool {
    is_ascii_letter(c) || is_ascii_digit(c) || c == '_'
}

/// Matches `^[A-Za-z_][A-Za-z0-9_]*$`.
pub open spec fn ident_shape(s: Seq<char>) -> bool {
    s.len() > 0 && ident_start(s[0]) && forall|i: int| 1 <= i < s.len() ==> ident_char(#[trigger] s[i])
}

/// Length of the UTF-8 encoding.
pub open spec fn byte_len(s: Seq<char>) -> nat {
    encode_utf8(s).len()
}

/// A name that is safe to interpolate into generated DDL: the identifier
/// shape and at most [`MAX_IDENT_LEN`] bytes.
pub open spec fn safe_identifier(s: Seq<char>) -> bool {
    ident_shape(s) && byte_len(s) <= MAX_IDENT_LEN
}

/// The last character boundary of `bytes` at or below `b` (`0` is one).
pub open spec fn boundary_at_or_below(bytes: Seq<u8>, b: nat) -> nat
    decreases b,
{
    if b == 0 || vstd::utf8::is_char_boundary(bytes, b as int) {
        b
    } else {
        boundary_at_or_below(bytes, (b - 1) as nat)
    }
}

/// A name as quoted in an error: whole if it fits in [`DISPLAY_LIMIT`]
/// bytes, else its longest prefix of whole characters within
/// [`DISPLAY_LIMIT`] bytes and an ellipsis.
pub open spec fn display_truncated_text(s: Seq<char>) -> Seq<char> {
    if byte_len(s) <= DISPLAY_LIMIT {
        s
    } else {
        decode_utf8(
            encode_utf8(s).subrange(
                0,
                boundary_at_or_below(encode_utf8(s), DISPLAY_LIMIT as nat) as int,
            ),
        ) + seq!['\u{2026}']
    }
}

/// The first position at or after `i` whose character may not continue an
/// identifier.
pub open spec fn first_bad_from(s: Seq<char>, i: int) -> Option<int>
    decreases s.len() - i,
{
    if i >= s.len() {
        None
    } else if !ident_char(s[i]) {
        Some(i)
    } else {
        first_bad_from(s, i + 1)
    }
}

/// The validation verdict for `s` as a `kind` (its error text on refusal).
pub open spec fn identifier_verdict(s: Seq<char>, kind: Seq<char>) -> Result<(), Seq<char>> {
    let shown = display_truncated_text(s);
    if s.len() == 0 {
        Err("invalid "@ + kind + ": empty identifier"@)
    } else if byte_len(s) > MAX_IDENT_LEN {
        Err("invalid "@ + kind + " '"@ + shown + "': identifier too long ("@ + decimal(byte_len(s))
            + " > 63 chars)"@)
    } else if !ident_start(s[0]) {
        Err("invalid "@ + kind + " '"@ + shown + "': must start with a letter or underscore"@)
    } else {
        match first_bad_from(s, 1) {
            Some(i) => Err("invalid "@ + kind + " '"@ + shown
                + "': contains disallowed character "@ + spec_debug_char(s[i])
                + " (only [A-Za-z0-9_] permitted)"@),
            None => Ok(()),
        }
    }
}

proof fn lemma_boundary_at_or_below(bytes: Seq<u8>, b: nat)
    requires
        vstd::utf8::valid_utf8(bytes),
        b <= bytes.len(),
    ensures
        boundary_at_or_below(bytes, b) <= b,
        vstd::utf8::is_char_boundary(bytes, boundary_at_or_below(bytes, b) as int),
    decreases b,
{
    if b > 0 && !vstd::utf8::is_char_boundary(bytes, b as int) {
        lemma_boundary_at_or_below(bytes, (b - 1) as nat);
    }
}

proof fn lemma_first_bad_none(s: Seq<char>, i: int)
    requires
        0 <= i,
    ensures
        first_bad_from(s, i) is None <==> forall|k: int| i <= k < s.len() ==> ident_char(#[trigger] s[k]),
        first_bad_from(s, i) matches Some(k) ==> i <= k < s.len() && !ident_char(s[k]),
    decreases s.len() - i,
{
    if i < s.len() {
        lemma_first_bad_none(s, i + 1);
    }
}

proof fn lemma_ascii_byte_len(s: Seq<char>)
    requires
        forall|i: int| 0 <= i < s.len() ==> ident_char(#[trigger] s[i]),
    ensures
        byte_len(s) == s.len(),
{
    assert(vstd::utf8::is_ascii_chars(s)) by {
        assert forall|i: int| 0 <= i < s.len() implies (#[trigger] s[i]) as nat <= 127 by {
            assert(ident_char(s[i]));
        }
    }
    vstd::utf8::is_ascii_chars_encode_utf8(s);
}

/// The name as quoted in an error message.
pub fn display_truncated(s: &str) -> (r: String)
    ensures
        r@ == display_truncated_text(s@),
{
    proof {
        assert(s.spec_bytes() == encode_utf8(s@));
        vstd::utf8::encode_utf8_valid_utf8(s@);
    }
    if s.as_bytes().len() <= DISPLAY_LIMIT {
        return s.to_owned();
    }
    let ghost bytes = s.spec_bytes();
    let mut cut: usize = DISPLAY_LIMIT;
    while cut > 0 && !s.is_char_boundary(cut)
        invariant
            cut <= DISPLAY_LIMIT,
            DISPLAY_LIMIT < bytes.len(),
            bytes == s.spec_bytes(),
            boundary_at_or_below(bytes, cut as nat) == boundary_at_or_below(
                bytes,
                DISPLAY_LIMIT as nat,
            ),
        decreases cut,
    {
        cut = cut - 1;
    }
    proof {
        lemma_boundary_at_or_below(bytes, DISPLAY_LIMIT as nat);
        assert(boundary_at_or_below(bytes, cut as nat) == cut);
    }
    let (head, _) = s.split_at(cut);
    proof {
        vstd::utf8::encode_utf8_decode_utf8(head@);
        assert(head.spec_bytes() == encode_utf8(head@));
    }
    let mut buf: Vec<char> = Vec::new();
    push_str(&mut buf, head);
    buf.push('\u{2026}');
    string_from_chars(&buf)
}

/// Validate a single identifier (table or column name) for safe
/// interpolation into generated DDL: `^[A-Za-z_][A-Za-z0-9_]*$` and at
/// most [`MAX_IDENT_LEN`] bytes. The error names the `kind` and quotes the
/// offending identifier (truncated).
pub fn validate_identifier<'a>(ident: &'a str, kind: &str) -> (r: Result<&'a str, String>)
    ensures
        r is Ok <==> safe_identifier(ident@),
        r matches Ok(s) ==> s == ident,
        identifier_verdict(ident@, kind@) matches Err(m) ==> r matches Err(e) && e@ == m,
        identifier_verdict(ident@, kind@) is Ok <==> r is Ok,
{
    proof {
        lemma_first_bad_none(ident@, 1);
        if ident_shape(ident@) {
            lemma_ascii_byte_len(ident@);
        }
    }
    let chars = crate::text::chars_of(ident);
    let n = chars.len();
    if n == 0 {
        let mut buf: Vec<char> = Vec::new();
        push_str(&mut buf, "invalid ");
        push_str(&mut buf, kind);
        push_str(&mut buf, ": empty identifier");
        assert(buf@ =~= "invalid "@ + kind@ + ": empty identifier"@);
        return Err(string_from_chars(&buf));
    }
    let shown = display_truncated(ident);
    let mut buf: Vec<char> = Vec::new();
    push_str(&mut buf, "invalid ");
    push_str(&mut buf, kind);
    push_str(&mut buf, " '");
    push_str(&mut buf, shown.as_str());
    let ghost pre = "invalid "@ + kind@ + " '"@ + display_truncated_text(ident@);
    assert(buf@ =~= pre);
    proof {
        assert(ident.spec_bytes() == encode_utf8(ident@));
    }
    let len = ident.as_bytes().len();
    if len > MAX_IDENT_LEN {
        push_str(&mut buf, "': identifier too long (");
        push_u64(&mut buf, len as u64);
        push_str(&mut buf, " > 63 chars)");
        assert(buf@ =~= pre + "': identifier too long ("@ + decimal(byte_len(ident@))
            + " > 63 chars)"@);
        return Err(string_from_chars(&buf));
    }
    let first = chars[0];
    if !(('a' <= first && first <= 'z') || ('A' <= first && first <= 'Z') || first == '_') {
        push_str(&mut buf, "': must start with a letter or underscore");
        assert(buf@ =~= pre + "': must start with a letter or underscore"@);
        return Err(string_from_chars(&buf));
    }
    let mut i: usize = 1;
    while i < n
        invariant
            1 <= i <= n,
            n == chars@.len(),
            chars@ == ident@,
            first_bad_from(ident@, 1) == first_bad_from(ident@, i as int),
            buf@ == pre,
            pre == "invalid "@ + kind@ + " '"@ + display_truncated_text(ident@),
            byte_len(ident@) <= MAX_IDENT_LEN,
            ident_start(ident@[0]),
        decreases n - i,
    {
        let c = chars[i];
        if !(('a' <= c && c <= 'z') || ('A' <= c && c <= 'Z') || ('0' <= c && c <= '9') || c
            == '_') {
            assert(!ident_char(ident@[i as int]));
            assert(first_bad_from(ident@, i as int) == Some(i as int));
            push_str(&mut buf, "': contains disallowed character ");
            let d = debug_char(c);
            push_str(&mut buf, d.as_str());
            push_str(&mut buf, " (only [A-Za-z0-9_] permitted)");
            assert(buf@ =~= pre + "': contains disallowed character "@ + spec_debug_char(
                ident@[i as int],
            ) + " (only [A-Za-z0-9_] permitted)"@);
            return Err(string_from_chars(&buf));
        }
        i += 1;
    }
    Ok(ident)
}

} // verus!
