//! Text helpers over std and chrono: case folding, integer parsing and
//! printing, UTF-8 decoding and UTC time display.
use vstd::prelude::*;
use vstd::utf8::{decode_utf8, valid_utf8};

verus! {

/// The lowercase form of a text, as `str::to_lowercase` gives it.
pub uninterp spec fn lower_of(s: Seq<char>) -> Seq<char>;

/// A UTC instant, given in seconds since the Unix epoch, as chrono displays it.
pub uninterp spec fn utc_text(secs: int) -> Seq<char>;

/// The last second that chrono can hold: the end of year 262142.
pub const MAX_INSTANT: i64 = 8210266876799;

/// Relies on chrono's `Utc::now`: the current time, in whole seconds since
/// the Unix epoch. It panics on a clock set before 1970 and builds a
/// `DateTime`, so the reading lies between 0 and `MAX_INSTANT`; nothing else
/// is promised of it.
#[verifier::external_body]
pub(crate) fn now_seconds() -> (r: i64)
    ensures
        0 <= r <= MAX_INSTANT,
{
    chrono::Utc::now().timestamp()
}

/// Relies on `str::to_lowercase`: the result depends on the characters alone.
#[verifier::external_body]
pub(crate) fn lowercase(s: &str) -> (r: String)
    ensures
        r@ == lower_of(s@),
{
    s.to_lowercase()
}

/// Relies on chrono's `DateTime::<Utc>::from_timestamp` and its `Display`:
/// `None` only for an instant out of chrono's range, which holds every
/// second from the Unix epoch to `MAX_INSTANT`.
#[verifier::external_body]
pub(crate) fn utc_display(secs: i64) -> (r: Option<String>)
    ensures
        r matches Some(s) ==> s@ == utc_text(secs as int),
        0 <= secs <= MAX_INSTANT ==> r is Some,
{
    chrono::DateTime::<chrono::Utc>::from_timestamp(secs, 0).map(|t| t.to_string())
}

/// A UTC instant, given in seconds since the Unix epoch, in the HTTP date
/// format (`Sun, 06 Nov 1994 08:49:37 GMT`) as chrono formats it.
pub uninterp spec fn http_date_text(secs: int) -> Seq<char>;

/// Relies on chrono's `DateTime::<Utc>::from_timestamp` and its `format`
/// with `%a, %d %b %Y %T GMT`: `None` only for an instant out of chrono's
/// range, which holds every second from the Unix epoch to `MAX_INSTANT`.
#[verifier::external_body]
pub(crate) fn http_date(secs: i64) -> (r: Option<String>)
    ensures
        r matches Some(s) ==> s@ == http_date_text(secs as int),
        0 <= secs <= MAX_INSTANT ==> r is Some,
{
    chrono::DateTime::<chrono::Utc>::from_timestamp(secs, 0)
        .map(|t| t.format("%a, %d %b %Y %T GMT").to_string())
}

/// Relies on `String::from_utf8`: `Ok` exactly for valid UTF-8, holding the
/// characters that the bytes encode.
#[verifier::external_body]
pub(crate) fn utf8_text(bytes: Vec<u8>) -> (r: Option<String>)
    ensures
        r is Some <==> valid_utf8(bytes@),
        r matches Some(s) ==> s@ == decode_utf8(bytes@),
{
    String::from_utf8(bytes).ok()
}

/// Whether a character is an ASCII decimal digit.
pub open spec fn is_digit(c: char) -> bool {
    48 <= c as u32 && c as u32 <= 57
}

/// The value of a run of decimal digits.
pub open spec fn digits_value(d: Seq<char>) -> int
    decreases d.len(),
{
    if d.len() == 0 {
        0
    } else {
        digits_value(d.drop_last()) * 10 + (d.last() as u32 - 48)
    }
}

/// The integer that `s` spells: an optional sign, then one or more decimal
/// digits; `None` for anything else or a value out of the `i64` range.
pub open spec fn integer_of(s: Seq<char>) -> Option<int> {
    let signed = s.len() > 0 && (s[0] == '-' || s[0] == '+');
    let d = if signed {
        s.subrange(1, s.len() as int)
    } else {
        s
    };
    let v = if s.len() > 0 && s[0] == '-' {
        -digits_value(d)
    } else {
        digits_value(d)
    };
    if d.len() > 0 && (forall|i: int| 0 <= i < d.len() ==> is_digit(#[trigger] d[i])) && i64::MIN
        <= v <= i64::MAX {
        Some(v)
    } else {
        None
    }
}

/// Relies on `<i64 as FromStr>::from_str`: an optional `+` or `-`, then
/// decimal digits, within range; no other character is accepted.
#[verifier::external_body]
pub(crate) fn parse_i64(s: &str) -> (r: Option<i64>)
    ensures
        r is Some <==> integer_of(s@) is Some,
        r matches Some(v) ==> integer_of(s@) == Some(v as int),
{
    s.parse::<i64>().ok()
}

/// The decimal digit for a value below 10.
pub open spec fn digit_char(v: nat) -> char {
    (48 + v) as u8 as char
}

/// Decimal text of `n`, without leading zeros.
pub open spec fn decimal(n: nat) -> Seq<char>
    decreases n,
{
    if n < 10 {
        seq![digit_char(n)]
    } else {
        decimal(n / 10) + seq![digit_char(n % 10)]
    }
}

/// Relies on `u64::to_string`: decimal digits without leading zeros.
#[verifier::external_body]
pub(crate) fn decimal_text(n: u64) -> (r: String)
    ensures
        r@ == decimal(n as nat),
{
    n.to_string()
}

} // verus!
