use vstd::prelude::*;

verus! {

/// The instant an RFC 3339 date-time denotes, as (seconds since the Unix
/// epoch, nanoseconds past that second); `None` when it is not one.
pub uninterp spec fn rfc3339_instant(s: Seq<char>) -> Option<(i64, u32)>;

/// Parses an RFC 3339 date-time with `chrono::DateTime::parse_from_rfc3339`;
/// the result, converted to seconds and nanoseconds since the epoch, is
/// claimed to depend on the text alone.
#[verifier::external_body]
pub(crate) fn parse_rfc3339(s: &str) -> (r: Option<(i64, u32)>)
    ensures
        r == rfc3339_instant(s@),
{
    match chrono::DateTime::parse_from_rfc3339(s) {
        Ok(t) => Some((t.timestamp(), t.timestamp_subsec_nanos())),
        Err(_) => None,
    }
}

/// The instant `s` denotes when read with the strftime format `fmt`, as
/// (seconds since the Unix epoch, nanoseconds past that second); `None`
/// when it does not match or names no instant.
pub uninterp spec fn formatted_instant(s: Seq<char>, fmt: Seq<char>) -> Option<(i64, u32)>;

/// Parses a date-time in a strftime format with
/// `chrono::DateTime::parse_from_str`; the result, converted to seconds and
/// nanoseconds since the epoch, is claimed to depend on the text and the
/// format alone.
#[verifier::external_body]
pub(crate) fn parse_with_format(s: &str, fmt: &str) -> (r: Option<(i64, u32)>)
    ensures
        r == formatted_instant(s@, fmt@),
{
    match chrono::DateTime::parse_from_str(s, fmt) {
        Ok(t) => Some((t.timestamp(), t.timestamp_subsec_nanos())),
        Err(_) => None,
    }
}

} // verus!
