//! Timestamps: seconds since 1904-01-01 00:00:00 UTC.
use vstd::prelude::*;

use crate::element::ElementParseError;
use crate::field::{be32, read_u32_at, IoError};

verus! {

pub const EPOCH_YEAR: i32 = 1904;

pub const EPOCH_MONTH: u32 = 1;

pub const EPOCH_DAY: u32 = 1;

/// A point in time, counted in seconds from the start of 1904 (UTC).
#[derive(Debug, Clone, Copy, PartialEq, Eq, Structural)]
pub struct QtFileDateTime {
    pub value: u32,
}

/// The text `YYYY-MM-DD hh:mm:ss` that chrono writes for the given date at
/// midnight UTC plus `seconds`.
pub uninterp spec fn utc_text_after(year: int, month: int, day: int, seconds: int) -> Seq<char>;

/// Relies on chrono's `NaiveDate::from_ymd_opt`, `and_hms_opt`,
/// `checked_add_signed` and `format("%Y-%m-%d %H:%M:%S")`: the calendar text of
/// a date plus a number of seconds. The dates admitted are all in chrono's
/// range, so the `None` arm is not taken.
#[verifier::external_body]
fn format_utc_after(year: i32, month: u32, day: u32, seconds: u32) -> (r: String)
    requires
        1900 <= year <= 2100,
        1 <= month <= 12,
        1 <= day <= 28,
    ensures
        r@ == utc_text_after(year as int, month as int, day as int, seconds as int),
{
    let start = chrono::NaiveDate::from_ymd_opt(year, month, day).and_then(|d| d.and_hms_opt(0, 0, 0));
    match start.and_then(|t| t.checked_add_signed(chrono::TimeDelta::seconds(seconds as i64))) {
        Some(t) => t.format("%Y-%m-%d %H:%M:%S").to_string(),
        None => String::new(),
    }
}

impl QtFileDateTime {
    pub fn new(value: u32) -> (r: Self)
        ensures
            r.value == value,
    {
        QtFileDateTime { value }
    }

    /// Reads the 32-bit big-endian count of seconds at `pos`.
    pub fn parse(data: &[u8], pos: usize) -> (r: Result<Self, ElementParseError>)
        ensures
            pos + 4 <= data@.len() ==> r == Ok::<Self, ElementParseError>(
                QtFileDateTime { value: be32(data@, pos as int) },
            ),
            pos + 4 > data@.len() ==> r == Err::<Self, ElementParseError>(
                ElementParseError::IoError(IoError::UnexpectedEof(pos as u64)),
            ),
    {
        if pos > data.len() || data.len() - pos < 4 {
            Err(ElementParseError::IoError(IoError::UnexpectedEof(pos as u64)))
        } else {
            Ok(QtFileDateTime::new(read_u32_at(data, pos)))
        }
    }

    /// The calendar time, as `YYYY-MM-DD hh:mm:ss` in UTC.
    pub fn to_string(&self) -> (r: String)
        ensures
            r@ == utc_text_after(
                EPOCH_YEAR as int,
                EPOCH_MONTH as int,
                EPOCH_DAY as int,
                self.value as int,
            ),
    {
        format_utc_after(EPOCH_YEAR, EPOCH_MONTH, EPOCH_DAY, self.value)
    }
}

} // verus!
