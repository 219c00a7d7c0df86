//! The time source handed to the SD card driver: a clock that always reads
//! the start of 1970.
use vstd::prelude::*;

verus! {

/// A calendar date and time as the FAT file system records it.
#[derive(Clone, Copy, Debug, PartialEq, Eq, Structural)]
pub struct Timestamp {
    /// Add 1970 to get the calendar year.
    pub year_since_1970: u8,
    /// Add one to get the calendar month.
    pub zero_indexed_month: u8,
    /// Add one to get the calendar day.
    pub zero_indexed_day: u8,
    /// Hours past midnight.
    pub hours: u8,
    /// Minutes past the hour.
    pub minutes: u8,
    /// Seconds past the minute.
    pub seconds: u8,
}

/// Midnight of the first of January 1970.
pub open spec fn epoch() -> Timestamp {
    Timestamp {
        year_since_1970: 0,
        zero_indexed_month: 0,
        zero_indexed_day: 0,
        hours: 0,
        minutes: 0,
        seconds: 0,
    }
}

/// The board has no battery-backed clock: files are stamped with the epoch.
pub struct Clock;

impl Clock {
    /// The current time, which this clock always gives as the epoch.
    pub fn get_timestamp(&self) -> (t: Timestamp)
        ensures
            t == epoch(),
    {
        Timestamp {
            year_since_1970: 0,
            zero_indexed_month: 0,
            zero_indexed_day: 0,
            hours: 0,
            minutes: 0,
            seconds: 0,
        }
    }
}

} // verus!
