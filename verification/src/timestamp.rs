//! Points in time, as the billing API writes them.

use vstd::prelude::*;

verus! {

/// A point in time, together with the offset from UTC in which it is
/// written.
#[derive(Debug, Clone, Copy, PartialEq, Eq, Structural, Hash)]
pub struct Timestamp {
    /// Nanoseconds since 1970-01-01T00:00:00Z, negative before it.
    pub unix_nanos: i128,
    /// Seconds east of UTC of the local time in which the point is written.
    pub offset_seconds: i32,
}

/// The RFC 3339 text of the point in time `unix_nanos`, written in the local
/// time `offset_seconds` east of UTC; `None` where RFC 3339 has no text for
/// it.
pub uninterp spec fn rfc3339_text(unix_nanos: i128, offset_seconds: i32) -> Option<Seq<char>>;

/// Formats a point in time as RFC 3339 text.
///
/// Calls the `time` crate: `OffsetDateTime::format` with the well-known
/// format `Rfc3339`, on the date-time that `from_unix_timestamp_nanos`,
/// `UtcOffset::from_whole_seconds` and `checked_to_offset` make of the two
/// numbers. Each of the four fails on values out of its range, and none
/// panics; any failure is handed on as `None`. The contract names the
/// outcome and claims nothing more of it.
#[verifier::external_body]
fn format_rfc3339(unix_nanos: i128, offset_seconds: i32) -> (r: Option<String>)
    ensures
        match r {
            Some(text) => rfc3339_text(unix_nanos, offset_seconds) == Some(text@),
            None => rfc3339_text(unix_nanos, offset_seconds) is None,
        },
{
    let offset = time::UtcOffset::from_whole_seconds(offset_seconds).ok()?;
    let utc = time::OffsetDateTime::from_unix_timestamp_nanos(unix_nanos).ok()?;
    let local = utc.checked_to_offset(offset)?;
    local.format(&time::format_description::well_known::Rfc3339).ok()
}

impl Timestamp {
    /// The RFC 3339 text of this timestamp, where it has one.
    pub open spec fn rfc3339(self) -> Option<Seq<char>> {
        rfc3339_text(self.unix_nanos, self.offset_seconds)
    }

    /// Writes the timestamp as RFC 3339 text, such as
    /// `2024-01-01T00:00:00Z`.
    ///
    /// Returns `None` where RFC 3339 has no text for it: the year in local
    /// time is not within 0 to 9999, or the offset is not a whole number of
    /// minutes less than a day.
    pub fn to_rfc3339(&self) -> (r: Option<String>)
        ensures
            match r {
                Some(text) => self.rfc3339() == Some(text@),
                None => self.rfc3339() is None,
            },
    {
        format_rfc3339(self.unix_nanos, self.offset_seconds)
    }
}

} // verus!
