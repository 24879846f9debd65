//! Core of a battery-powered e-paper calendar: the month/date model, the
//! per-month day-off bitmask, a bounded cache of remotely fetched day-off
//! data, and the clock-synchronization decision logic.
//!
//! Hardware access (the e-paper panel, the I2C real-time clock, the WiFi
//! stack) stays outside this crate; everything here works on plain values
//! handed in from that boundary.

pub mod cache;
pub mod calendar;
pub mod clock;
pub mod daysoff_mask;
pub mod isdayoff;
pub mod month_date;
pub mod sync;
pub mod weekday;
