//! Trusted boundary to the outside crates the scanner computes with:
//! identifier generation, the wall clock, timestamp text, regular-expression
//! matching and URL encoding. Each wrapper's contract states only what the
//! outside crate's source shows; everything that depends on the returned
//! values is verified in the rest of the library.

use vstd::prelude::*;

verus! {

/// Largest millisecond timestamp the scanner formats (end of year 9999);
/// far inside the range chrono accepts.
pub const MAX_FORMATTED_MILLIS: i64 = 253402300799999;

/// What `urlencoding::encode` returns for a given string.
pub uninterp spec fn urlencoded_of(s: Seq<char>) -> Seq<char>;

/// What `chrono::DateTime::to_rfc3339` returns for a given millisecond
/// timestamp.
pub uninterp spec fn rfc3339_of(millis: i64) -> Seq<char>;

/// What parsing RFC 3339 text to a millisecond timestamp yields, `None` where
/// the text is not a valid RFC 3339 date-time.
pub uninterp spec fn rfc3339_parse_of(s: Seq<char>) -> Option<i64>;

/// Whether a regular-expression pattern compiles.
pub uninterp spec fn regex_valid_of(pat: Seq<char>) -> bool;

/// Whether a compiled pattern matches somewhere in a text.
pub uninterp spec fn regex_match_of(pat: Seq<char>, text: Seq<char>) -> bool;

/// The first capture group of the first match of a pattern in a text, `None`
/// where the pattern does not match or the group does not participate.
pub uninterp spec fn regex_capture1_of(pat: Seq<char>, text: Seq<char>) -> Option<Seq<char>>;

/// Identifier text freshly generated for a new record.
///
/// Relies on `uuid::Uuid::new_v4` rendered in the hyphenated form, which is
/// 36 ASCII characters. The value is random, so nothing more is promised;
/// callers that need uniqueness check the value against their own state.
#[verifier::external_body]
pub(crate) fn fresh_id() -> (r: String)
    ensures
        r@.len() == 36,
{
    uuid::Uuid::new_v4().to_string()
}

/// Milliseconds since the Unix epoch, read from the wall clock.
///
/// Relies on `chrono::Utc::now`. A wall clock promises nothing about
/// successive readings, so the stores order timestamps themselves.
#[verifier::external_body]
pub(crate) fn now_millis() -> (r: i64) {
    chrono::Utc::now().timestamp_millis()
}

/// RFC 3339 text for a millisecond timestamp.
///
/// Relies on `chrono::DateTime::<Utc>::from_timestamp_millis` (documented to
/// return `Some` for any in-range millisecond count, which covers every value
/// from the epoch through year 9999) and `DateTime::to_rfc3339`, a function
/// of the timestamp alone.
#[verifier::external_body]
pub(crate) fn format_rfc3339(millis: i64) -> (r: Option<String>)
    ensures
        r is Some ==> r->0@ == rfc3339_of(millis),
        0 <= millis <= MAX_FORMATTED_MILLIS ==> r is Some,
{
    chrono::DateTime::<chrono::Utc>::from_timestamp_millis(millis).map(|d| d.to_rfc3339())
}

/// Millisecond timestamp parsed from RFC 3339 text.
///
/// Relies on `chrono::DateTime::parse_from_rfc3339` followed by
/// `timestamp_millis`; success and value are functions of the text alone.
#[verifier::external_body]
pub(crate) fn parse_rfc3339_millis(s: &str) -> (r: Option<i64>)
    ensures
        r == rfc3339_parse_of(s@),
{
    match chrono::DateTime::parse_from_rfc3339(s) {
        Ok(d) => Some(d.timestamp_millis()),
        Err(_) => None,
    }
}

/// Whether a regular expression matches a text; `None` where the pattern does
/// not compile.
///
/// Relies on `regex::Regex::new` and `Regex::is_match`: whether the pattern
/// compiles, and whether it matches, are functions of the pattern and the
/// text alone.
#[verifier::external_body]
pub(crate) fn regex_is_match(pat: &str, text: &str) -> (r: Option<bool>)
    ensures
        r is Some <==> regex_valid_of(pat@),
        r is Some ==> r->0 == regex_match_of(pat@, text@),
{
    match regex::Regex::new(pat) {
        Ok(re) => Some(re.is_match(text)),
        Err(_) => None,
    }
}

/// The first capture group of the first match; `None` where the pattern does
/// not compile, does not match, or the group is absent.
///
/// Relies on `regex::Regex::new`, `Regex::captures` and `Captures::get`, all
/// functions of the pattern and the text alone.
#[verifier::external_body]
pub(crate) fn regex_capture1(pat: &str, text: &str) -> (r: Option<String>)
    ensures
        regex_valid_of(pat@) ==> (r is Some <==> regex_capture1_of(pat@, text@) is Some),
        regex_valid_of(pat@) && r is Some ==> r->0@ == regex_capture1_of(pat@, text@)->0,
        !regex_valid_of(pat@) ==> r is None,
{
    match regex::Regex::new(pat) {
        Ok(re) => re.captures(text).and_then(|c| c.get(1)).map(|m| m.as_str().to_string()),
        Err(_) => None,
    }
}

/// Percent-encoding of a string for use in a URL query.
///
/// Relies on `urlencoding::encode`: percent-encodes every byte except ASCII
/// alphanumerics and `-`, `_`, `.`, `~`; a function of the input alone.
#[verifier::external_body]
pub(crate) fn url_encode(s: &str) -> (r: String)
    ensures
        r@ == urlencoded_of(s@),
{
    urlencoding::encode(s).into_owned()
}

} // verus!
