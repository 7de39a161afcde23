use vstd::prelude::*;

verus! {

/// The UTC calendar day, as `YYYY-MM-DD`, of the instant `secs` seconds after
/// the Unix epoch; `None` where that instant lies outside the dates chrono
/// can represent.
pub uninterp spec fn utc_date_of(secs: int) -> Option<Seq<char>>;

/// The view of an optional string.
pub open spec fn opt_view(s: Option<String>) -> Option<Seq<char>> {
    match s {
        Some(t) => Some(t@),
        None => None,
    }
}

/// Relies on chrono's `DateTime::from_timestamp` (`None` on an out-of-range
/// number of seconds) and on formatting its result with `%Y-%m-%d`. Years 0
/// to 9999 lie well inside chrono's range of about 262,000 years either side
/// of the common era.
#[verifier::external_body]
fn utc_calendar_date(secs: i64) -> (r: Option<String>)
    ensures
        opt_view(r) == utc_date_of(secs as int),
        0 <= secs <= 253402300799 ==> r is Some,
{
    match chrono::DateTime::from_timestamp(secs, 0) {
        Some(dt) => Some(dt.format("%Y-%m-%d").to_string()),
        None => None,
    }
}

/// The date string of a raw view timestamp (seconds since the Unix epoch),
/// or `None` where it cannot be converted.
pub open spec fn viewed_at_of(timestamp: nat) -> Option<Seq<char>> {
    if timestamp > i64::MAX {
        None
    } else {
        utc_date_of(timestamp as int)
    }
}

/// A view timestamp that names no representable date.
#[derive(Debug, Clone, Copy, PartialEq, Eq)]
pub struct InvalidTimestamp {
    pub timestamp: u64,
}

/// Converts a raw view timestamp, in seconds since the Unix epoch, to the
/// UTC calendar date it falls on, formatted `YYYY-MM-DD`. A timestamp beyond
/// the representable dates is an error, which fails the decoding of the
/// whole page that holds it.
pub fn viewed_at_from_timestamp(timestamp: u64) -> (r: Result<String, InvalidTimestamp>)
    ensures
        match r {
            Ok(s) => viewed_at_of(timestamp as nat) == Some(s@),
            Err(e) => viewed_at_of(timestamp as nat) is None && e.timestamp == timestamp,
        },
        timestamp <= 253402300799 ==> r is Ok,
{
    if timestamp > i64::MAX as u64 {
        return Err(InvalidTimestamp { timestamp });
    }
    match utc_calendar_date(timestamp as i64) {
        Some(s) => Ok(s),
        None => Err(InvalidTimestamp { timestamp }),
    }
}

} // verus!
