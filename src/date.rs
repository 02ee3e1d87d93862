//! The academic year, which runs from May to April.

use chrono::Datelike;
use vstd::prelude::*;

verus! {

/// The academic year that a calendar month falls in: January to April
/// belong to the year that began the previous May.
pub open spec fn academic_year_of(year: i32, month: u32) -> int {
    if month <= 4 {
        year - 1
    } else {
        year as int
    }
}

/// The academic year that a calendar month falls in.
pub fn academic_year(year: i32, month: u32) -> (r: i64)
    ensures
        r == academic_year_of(year, month),
{
    if month <= 4 {
        year as i64 - 1
    } else {
        year as i64
    }
}

/// The time now in UTC: its year, its month and its RFC 3339 form.
pub struct UtcNow {
    pub year: i32,
    /// Numbered from 1 to 12.
    pub month: u32,
    /// To the second, with a `Z` suffix.
    pub rfc3339: String,
}

/// Relies on `chrono::Utc::now`, on `Datelike::{year, month}`, whose month
/// is numbered from 1 to 12, and on `DateTime::to_rfc3339_opts`. Nothing is
/// promised of the time itself.
#[verifier::external_body]
pub(crate) fn utc_now() -> (r: UtcNow)
    ensures
        1 <= r.month <= 12,
{
    let now = chrono::Utc::now();
    UtcNow {
        year: now.year(),
        month: now.month(),
        rfc3339: now.to_rfc3339_opts(chrono::SecondsFormat::Secs, true),
    }
}

/// The academic year of today, in UTC.
pub fn get_current_academic_year() -> (r: i64)
    ensures
        exists|y: i32, m: u32| 1 <= m <= 12 && r == academic_year_of(y, m),
{
    let now = utc_now();
    academic_year(now.year, now.month)
}

} // verus!
