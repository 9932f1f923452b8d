//! The one place the engine reads a timestamp: extracting the hour of day
//! from an RFC 3339 string, in the string's own offset, through chrono.

use vstd::prelude::*;

use std::str::FromStr;

verus! {

/// The hour of day that chrono parses out of an RFC 3339 timestamp string,
/// or `None` where the string does not parse. The result is a function of
/// the characters alone.
pub uninterp spec fn spec_hour_of(s: Seq<char>) -> Option<u32>;

/// Relies on chrono's `FromStr` for `DateTime<FixedOffset>` (a relaxed
/// RFC 3339 parser, deciding success from the characters alone) and on
/// `Timelike::hour`, documented to return the hour number from 0 to 23,
/// taken in the timestamp's own offset.
#[verifier::external_body]
pub fn timestamp_hour(s: &str) -> (r: Option<u32>)
    ensures
        r == spec_hour_of(s@),
        r matches Some(h) ==> h < 24,
{
    match chrono::DateTime::<chrono::FixedOffset>::from_str(s) {
        Ok(t) => Some(chrono::Timelike::hour(&t)),
        Err(_) => None,
    }
}

} // verus!
