//! Wall-clock time (through std) and RFC 3339 timestamps (through chrono).
//!
//! An instant is the pair `(seconds since the Unix epoch, sub-second
//! nanoseconds)`, ordered lexicographically, which is how chrono orders
//! `DateTime<Utc>` (a leap second carries nanoseconds `>= 1_000_000_000`).

use vstd::prelude::*;

use chrono::DateTime;

verus! {

/// chrono's RFC 3339 rendering (`DateTime::to_rfc3339`, UTC offset) of the
/// instant `(secs, nanos)`; `None` when chrono cannot represent it.
pub uninterp spec fn spec_format_rfc3339(secs: i64, nanos: u32) -> Option<Seq<char>>;

/// chrono's RFC 3339 parse (`DateTime::parse_from_rfc3339`) of `text`, as the
/// UTC instant it denotes; `None` when `text` is not RFC 3339.
pub uninterp spec fn spec_parse_rfc3339(text: Seq<char>) -> Option<(i64, u32)>;

/// Lexicographic order on instants.
pub open spec fn instant_lt(a: (i64, u32), b: (i64, u32)) -> bool {
    a.0 < b.0 || (a.0 == b.0 && a.1 < b.1)
}

/// `a` is at or before `b`.
pub open spec fn instant_le(a: (i64, u32), b: (i64, u32)) -> bool {
    a == b || instant_lt(a, b)
}

/// The text parses as an RFC 3339 timestamp.
pub open spec fn is_rfc3339(text: Seq<char>) -> bool {
    spec_parse_rfc3339(text) is Some
}

/// Seconds of the first instant of year 0 and of year 10000 (UTC): chrono
/// renders the years in between with exactly four digits, the only years
/// its RFC 3339 parser reads back.
pub open spec fn four_digit_year(secs: i64) -> bool {
    -62167219200 <= secs < 253402300800
}

/// std `SystemTime::elapsed` of `UNIX_EPOCH`: the time since the epoch as
/// seconds and sub-second nanoseconds, `None` when the system clock reads
/// before the epoch. Claimed: the nanoseconds are below one second (as
/// `Duration::subsec_nanos` documents); nothing about the value itself.
#[verifier::external_body]
fn elapsed_since_epoch() -> (r: Option<(u64, u32)>)
    ensures
        r matches Some(d) ==> d.1 < 1_000_000_000,
{
    match std::time::UNIX_EPOCH.elapsed() {
        Ok(d) => Some((d.as_secs(), d.subsec_nanos())),
        Err(_) => None,
    }
}

/// The current time. A system clock that reads before the Unix epoch, or
/// in year 10000 or later, gives the epoch itself, so that every instant
/// returned renders and parses back.
pub fn now() -> (r: (i64, u32))
    ensures
        four_digit_year(r.0),
        0 <= r.0,
        r.1 < 1_000_000_000,
{
    match elapsed_since_epoch() {
        Some((secs, nanos)) => {
            if secs < 253402300800 {
                (secs as i64, nanos)
            } else {
                (0, 0)
            }
        },
        None => (0, 0),
    }
}

/// chrono `DateTime::from_timestamp` rendered by `DateTime::to_rfc3339`.
/// Claimed: the result is the named rendering of the arguments; and for an
/// instant in the years 0 to 9999 with nanoseconds below one second, chrono
/// represents it and the rendered text parses back (`parse_from_rfc3339`)
/// to the same instant. Outside those years chrono writes a signed year of
/// five or more digits, which its parser refuses, and nothing is claimed.
#[verifier::external_body]
pub fn format_rfc3339(secs: i64, nanos: u32) -> (r: Option<String>)
    ensures
        match r {
            Some(s) => spec_format_rfc3339(secs, nanos) == Some(s@),
            None => spec_format_rfc3339(secs, nanos) is None,
        },
        four_digit_year(secs) && nanos < 1_000_000_000 ==> r is Some,
        r matches Some(s) ==> (four_digit_year(secs) && nanos < 1_000_000_000 ==> spec_parse_rfc3339(s@) == Some((secs, nanos))),
{
    match DateTime::from_timestamp(secs, nanos) {
        Some(t) => Some(t.to_rfc3339()),
        None => None,
    }
}

/// chrono `DateTime::parse_from_rfc3339`, as a UTC instant. Claimed: the
/// result is the named parse of `text`.
#[verifier::external_body]
pub fn parse_rfc3339(text: &str) -> (r: Option<(i64, u32)>)
    ensures
        r == spec_parse_rfc3339(text@),
{
    match DateTime::parse_from_rfc3339(text) {
        Ok(t) => Some((t.timestamp(), t.timestamp_subsec_nanos())),
        Err(_) => None,
    }
}

/// The current time rendered as RFC 3339 text, in canonical form.
pub fn now_rfc3339() -> (r: String)
    ensures
        is_rfc3339(r@),
        is_canonical_timestamp(r@),
{
    let (secs, nanos) = now();
    let s = format_rfc3339(secs, nanos);
    match s {
        Some(text) => text,
        None => {
            assert(false);
            String::new()
        },
    }
}

/// The text re-rendered as chrono renders the instant it denotes (its
/// canonical UTC form); `None` when it does not parse or cannot be rendered.
pub open spec fn spec_canonical_timestamp(text: Seq<char>) -> Option<Seq<char>> {
    match spec_parse_rfc3339(text) {
        Some(t) => spec_format_rfc3339(t.0, t.1),
        None => None,
    }
}

/// The text is already in canonical form.
pub open spec fn is_canonical_timestamp(text: Seq<char>) -> bool {
    spec_canonical_timestamp(text) == Some(text)
}

/// Re-render an RFC 3339 timestamp in canonical UTC form.
pub fn canonical_timestamp(text: &str) -> (r: Option<String>)
    ensures
        match r {
            Some(c) => spec_canonical_timestamp(text@) == Some(c@),
            None => spec_canonical_timestamp(text@) is None,
        },
{
    match parse_rfc3339(text) {
        None => None,
        Some(t) => format_rfc3339(t.0, t.1),
    }
}

/// Exec comparison of instants.
pub fn instant_before(a: (i64, u32), b: (i64, u32)) -> (r: bool)
    ensures
        r == instant_lt(a, b),
{
    a.0 < b.0 || (a.0 == b.0 && a.1 < b.1)
}

} // verus!
