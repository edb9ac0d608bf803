//! Moments in time as text.

use vstd::prelude::*;
use crate::text::option_text;

verus! {

/// The moment that lies `nanos` nanoseconds behind the `secs`-th second
/// since the beginning of 1970, written in UTC as an RFC 3339 date and
/// time; nothing where the moment is out of the range of dates that can be
/// written.
pub uninterp spec fn rfc3339_text(secs: i64, nanos: u32) -> Option<Seq<char>>;

/// Writes a moment as an RFC 3339 date and time in UTC.
///
/// This calls `chrono::DateTime::from_timestamp`, which gives nothing for
/// seconds out of range and for nanoseconds that no second holds, and
/// `chrono::DateTime::to_rfc3339` on the moment that it gives. The text
/// depends on the two numbers alone.
#[verifier::external_body]
pub(crate) fn rfc3339_at(secs: i64, nanos: u32) -> (res: Option<String>)
    ensures
        option_text(res) == rfc3339_text(secs, nanos),
{
    match chrono::DateTime::from_timestamp(secs, nanos) {
        Some(moment) => Some(moment.to_rfc3339()),
        None => None,
    }
}

} // verus!
