//! Conversion of an epoch second count to the UTC calendar datetime text
//! that the session descriptor's `expires` field carries.

use vstd::prelude::*;

verus! {

/// Characters of the UTC calendar datetime for an epoch second count; the
/// text is a function of the seconds alone.
pub uninterp spec fn utc_datetime_text(secs: i64) -> Seq<char>;

/// Relies on chrono::DateTime::from_timestamp, which returns None exactly
/// on an out-of-range number of seconds (its documentation; seconds up to
/// the year 9999 are in range), and on chrono's naive-datetime formatting,
/// whose output is a function of the seconds alone.
#[verifier::external_body]
pub fn format_epoch_utc(secs: i64) -> (r: Option<String>)
    ensures
        r matches Some(s) ==> s@ == utc_datetime_text(secs),
        0 <= secs <= 253402300799 ==> r is Some,
{
    chrono::DateTime::from_timestamp(secs, 0).map(
        |dt| dt.naive_utc().format("%Y-%m-%dT%H:%M:%S%.f").to_string(),
    )
}

} // verus!
