//! The clock boundary: what a hardware real-time-clock reading means to
//! the rest of the core, and the local-time view derived from it.
//!
//! The RTC itself sits on an I2C bus outside this crate and always
//! stores UTC. The core models its readings as plain `UtcTime` values,
//! decides what an access outcome means, and derives the local-time
//! quantities the daily loop needs.

use vstd::prelude::*;

use crate::calendar::spec_days_in_month;
use crate::calendar::Date;

verus! {

/// Timestamps this core works with stay below this bound — the last
/// second of year 2399. The calendar encoding itself ends at year 4095;
/// the clock conversions stop well before that.
pub const MAX_CLOCK_SECS: u64 = 13569465599;

/// A UTC instant: whole seconds since the Unix epoch, plus microseconds
/// within that second.
#[derive(Debug, Clone, Copy, PartialEq, Eq, Structural)]
pub struct UtcTime {
    pub secs: u64,
    pub micros: u32,
}

impl UtcTime {
    pub open spec fn valid(self) -> bool {
        self.micros < 1_000_000 && self.secs <= MAX_CLOCK_SECS
    }
}

/// Why a clock access failed.
#[derive(Debug, Clone, Copy, PartialEq, Eq, Structural)]
pub enum ClockError {
    /// The RTC slot was read before its one-time initialization.
    ClockNotInitialized,
    /// The RTC bus answered with a fault, carried as its code.
    ClockBusError(u8),
}

/// The single process-wide RTC slot: empty until its one-time
/// initialization, then ready for every later access.
pub struct ClockSlot {
    pub ready: bool,
}

impl ClockSlot {
    /// The slot as it is at startup, before the hardware handle exists.
    pub fn new() -> (r: Self)
        ensures
            !r.ready,
    {
        ClockSlot { ready: false }
    }

    /// Record the one-time creation of the hardware handle. Happens
    /// exactly once, before any access.
    pub fn initialize(&mut self)
        requires
            !old(self).ready,
        ensures
            final(self).ready,
    {
        self.ready = true;
    }

    /// Whether an access may proceed: an access before initialization
    /// fails cleanly instead of blocking or panicking.
    pub fn check_access(&self) -> (r: Result<(), ClockError>)
        ensures
            r == (if self.ready {
                Result::<(), ClockError>::Ok(())
            } else {
                Result::<(), ClockError>::Err(ClockError::ClockNotInitialized)
            }),
    {
        if self.ready {
            Ok(())
        } else {
            Err(ClockError::ClockNotInitialized)
        }
    }
}

/// What one bus transaction against the RTC means: its value on
/// success, a typed clock error carrying the fault code otherwise.
pub fn classify_bus_result<T>(bus: Result<T, u8>) -> (r: Result<T, ClockError>)
    ensures
        r == (match bus {
            Ok(v) => Result::<T, ClockError>::Ok(v),
            Err(code) => Result::<T, ClockError>::Err(ClockError::ClockBusError(code)),
        }),
{
    match bus {
        Ok(v) => Ok(v),
        Err(code) => Err(ClockError::ClockBusError(code)),
    }
}

/// Relies on chrono-tz (`Tz::offset_from_utc_datetime` for the display
/// timezone) and chrono's `FixedOffset`: the timezone's offset from UTC
/// at the given instant, which chrono keeps strictly within one day.
#[verifier::external_body]
pub fn local_offset_seconds(secs: u64) -> (r: i32)
    requires
        secs <= MAX_CLOCK_SECS,
    ensures
        -86400 < r < 86400,
{
    let dt = chrono::DateTime::from_timestamp(secs as i64, 0).unwrap();
    let offset = chrono::offset::TimeZone::offset_from_utc_datetime(
        &chrono_tz::Europe::Moscow,
        &dt.naive_utc(),
    );
    chrono::Offset::fix(&offset).local_minus_utc()
}

/// Seconds since the epoch of the local-time view of an instant: the
/// UTC seconds shifted by the timezone offset.
pub fn local_seconds(utc: UtcTime, offset: i32) -> (r: i64)
    requires
        utc.valid(),
        -86400 < offset < 86400,
    ensures
        r == utc.secs + offset,
{
    utc.secs as i64 + offset as i64
}

/// How long the daily loop sleeps: the seconds from a local clock
/// reading to the next local midnight, plus a small grace delay.
pub fn seconds_until_next_midnight(local_secs: i64, grace: u32) -> (r: i64)
    requires
        0 <= local_secs,
        grace <= 3600,
    ensures
        r == 86400 - local_secs % 86400 + grace,
        0 < r <= 86400 + grace,
{
    86400 - local_secs % 86400 + grace as i64
}

/// The civil (year, month, day) of an instant in the proleptic
/// Gregorian calendar; a function of the timestamp alone.
/// `civil_date_fields` computes it.
pub uninterp spec fn civil_of_unix(secs: int) -> (int, int, int);

/// Relies on chrono's `DateTime::from_timestamp` and `date_naive`: the
/// civil date the given timestamp falls on. chrono hands back a real
/// calendar date, with the month and day in range for its year, and a
/// year below 2400 for every timestamp this core admits.
#[verifier::external_body]
fn civil_date_fields(secs: i64) -> (r: (u16, u8, u8))
    requires
        0 <= secs <= MAX_CLOCK_SECS,
    ensures
        (r.0 as int, r.1 as int, r.2 as int) == civil_of_unix(secs as int),
        r.0 < 2400,
        1 <= r.1 <= 12,
        1 <= r.2 <= spec_days_in_month(r.0 as int, r.1 as int),
{
    let date = chrono::DateTime::from_timestamp(secs, 0).unwrap().date_naive();
    let (_, year) = chrono::Datelike::year_ce(&date);
    (year as u16, chrono::Datelike::month(&date) as u8, chrono::Datelike::day(&date) as u8)
}

/// The calendar date an instant falls on, in the clock's supported
/// range.
pub fn date_of_unix(secs: i64) -> (r: Date)
    requires
        0 <= secs <= MAX_CLOCK_SECS,
    ensures
        (r.year as int, r.month as int, r.day as int) == civil_of_unix(secs as int),
        r.valid(),
{
    let (year, month, day) = civil_date_fields(secs);
    Date::new(year, month, day)
}

} // verus!
