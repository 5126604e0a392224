//! Instants, in microseconds since the Unix epoch, and their written form.

use vstd::prelude::*;

verus! {

/// The instant `micros` written as date and time with offset (RFC 3339),
/// `None` where it is beyond the calendar.
pub uninterp spec fn rfc3339_text(micros: i64) -> Option<Seq<char>>;

/// Trusted: `to_rfc3339` of `chrono::DateTime<Utc>`, on the date-time that
/// `DateTime::from_timestamp_micros` makes of the instant.
#[verifier::external_body]
fn to_rfc3339(micros: i64) -> (r: Option<String>)
    ensures
        r.deep_view() == rfc3339_text(micros),
{
    chrono::DateTime::from_timestamp_micros(micros).map(|d| d.to_rfc3339())
}

/// Writes an instant as date and time with offset.
pub fn instant_text(micros: i64) -> (r: Option<String>)
    ensures
        r.deep_view() == rfc3339_text(micros),
{
    to_rfc3339(micros)
}

} // verus!
