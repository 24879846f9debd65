//! A calendar month paired with its day-off mask, and the date facts
//! (month lengths, start weekday, ISO week) needed to lay it out.

use vstd::prelude::*;

use crate::daysoff_mask::DaysOffMask;
use crate::month_date::MonthDate;
use crate::weekday::Weekday;

verus! {

/// A Common-Era calendar date as plain values.
#[derive(Debug, Clone, Copy, PartialEq, Eq, Structural)]
pub struct Date {
    pub year: u16,
    pub month: u8,
    pub day: u8,
}

/// Gregorian leap-year rule.
pub open spec fn spec_is_leap_year(year: int) -> bool {
    (year % 4 == 0 && year % 100 != 0) || year % 400 == 0
}

/// Length of a Gregorian month: 28, 29, 30 or 31 days.
pub open spec fn spec_days_in_month(year: int, month: int) -> int {
    if month == 2 {
        if spec_is_leap_year(year) {
            29
        } else {
            28
        }
    } else if month == 4 || month == 6 || month == 9 || month == 11 {
        30
    } else {
        31
    }
}

impl Date {
    pub open spec fn valid(self) -> bool {
        self.year <= 4095 && 1 <= self.month <= 12 && 1 <= self.day <= spec_days_in_month(
            self.year as int,
            self.month as int,
        )
    }

    pub fn new(year: u16, month: u8, day: u8) -> (r: Self)
        requires
            year <= 4095,
            1 <= month <= 12,
            1 <= day <= spec_days_in_month(year as int, month as int),
        ensures
            r == (Date { year, month, day }),
            r.valid(),
    {
        Date { year, month, day }
    }
}

pub fn is_leap_year(year: u16) -> (r: bool)
    ensures
        r == spec_is_leap_year(year as int),
{
    (year % 4 == 0 && year % 100 != 0) || year % 400 == 0
}

pub fn days_in_month(year: u16, month: u8) -> (r: u8)
    requires
        1 <= month <= 12,
    ensures
        r == spec_days_in_month(year as int, month as int),
        28 <= r <= 31,
{
    match month {
        2 => if is_leap_year(year) {
            29
        } else {
            28
        },
        4 | 6 | 9 | 11 => 30,
        _ => 31,
    }
}

/// Weekday of the first day of a month, as its distance from Monday,
/// in the proleptic Gregorian calendar. A function of year and month
/// alone; `month_start_weekday_offset` computes it.
pub uninterp spec fn weekday_offset_of_month_start(year: int, month: int) -> int;

/// 0-based ISO week number of the first day of a month. A function of
/// year and month alone; `month_start_iso_week0` computes it.
pub uninterp spec fn iso_week0_of_month_start(year: int, month: int) -> int;

/// Relies on chrono's `NaiveDate::from_ymd_opt` and `Datelike::weekday`:
/// the weekday of a proleptic-Gregorian date, here of day 1 of the given
/// month, counted from Monday as 0. Determined by year and month alone.
#[verifier::external_body]
fn month_start_weekday_offset(year: u16, month: u8) -> (r: u8)
    requires
        year <= 4095,
        1 <= month <= 12,
    ensures
        r == weekday_offset_of_month_start(year as int, month as int),
        r < 7,
{
    let date = chrono::NaiveDate::from_ymd_opt(year as i32, month as u32, 1).unwrap();
    chrono::Datelike::weekday(&date).num_days_from_monday() as u8
}

/// Relies on chrono's `Datelike::iso_week` and `IsoWeek::week0`: the
/// 0-based ISO week number of day 1 of the given month, in `0..=52`.
/// Determined by year and month alone.
#[verifier::external_body]
fn month_start_iso_week0(year: u16, month: u8) -> (r: u8)
    requires
        year <= 4095,
        1 <= month <= 12,
    ensures
        r == iso_week0_of_month_start(year as int, month as int),
        r <= 52,
{
    let date = chrono::NaiveDate::from_ymd_opt(year as i32, month as u32, 1).unwrap();
    chrono::Datelike::iso_week(&date).week0() as u8
}

impl MonthDate {
    /// The (year, month) a calendar date falls in.
    pub fn new_from_date(date: Date) -> (r: Self)
        requires
            date.valid(),
        ensures
            r.spec_year() == date.year,
            r.spec_month() == date.month,
            r.valid(),
    {
        MonthDate::new(date.year, date.month)
    }
}

/// One month of the calendar: which (year, month) it is, and which of
/// its days are off.
#[derive(Debug, Clone, Copy)]
pub struct CalendarMonth {
    pub date: MonthDate,
    pub days_off_mask: DaysOffMask,
}

impl CalendarMonth {
    pub open spec fn wf(self) -> bool {
        self.date.valid()
    }

    /// The month of `date`, anchored to its day 1, seeded with the
    /// default weekend mask for the weekday that day 1 falls on.
    pub fn from_date(date: Date) -> (r: Self)
        requires
            date.valid(),
        ensures
            r.wf(),
            r.date.spec_year() == date.year,
            r.date.spec_month() == date.month,
            forall|i: u32|
                i < 32 ==> (r.days_off_mask.spec_is_off(i) == ((i
                    + weekday_offset_of_month_start(date.year as int, date.month as int)) % 7
                    >= 5)),
    {
        let offset = month_start_weekday_offset(date.year, date.month);
        let weekday = Weekday::from_offset(offset);
        CalendarMonth {
            days_off_mask: DaysOffMask::default_days_off(weekday),
            date: MonthDate::new(date.year, date.month),
        }
    }

    pub fn month_date(self) -> (r: MonthDate)
        ensures
            r == self.date,
    {
        self.date
    }

    pub fn new_raw(date: MonthDate, day_off_mask: DaysOffMask) -> (r: Self)
        ensures
            r.date == date,
            r.days_off_mask == day_off_mask,
    {
        CalendarMonth { date, days_off_mask: day_off_mask }
    }

    /// First day of this month.
    pub fn start_date(&self) -> (r: Date)
        requires
            self.wf(),
        ensures
            r.year == self.date.spec_year(),
            r.month == self.date.spec_month(),
            r.day == 1,
            r.valid(),
    {
        Date { year: self.date.year(), month: self.date.month(), day: 1 }
    }

    /// How many days this month has.
    pub fn days_amount(&self) -> (r: u8)
        requires
            self.wf(),
        ensures
            r == spec_days_in_month(self.date.spec_year(), self.date.spec_month()),
            28 <= r <= 31,
    {
        days_in_month(self.date.year(), self.date.month())
    }

    /// The weekday this month starts on.
    pub fn start_weekday(&self) -> (r: Weekday)
        requires
            self.wf(),
        ensures
            r.spec_offset() == weekday_offset_of_month_start(
                self.date.spec_year(),
                self.date.spec_month(),
            ),
    {
        Weekday::from_offset(month_start_weekday_offset(self.date.year(), self.date.month()))
    }

    /// The 0-based ISO week number this month starts in.
    pub fn start_week_num(&self) -> (r: u8)
        requires
            self.wf(),
        ensures
            r == iso_week0_of_month_start(self.date.spec_year(), self.date.spec_month()),
            r <= 52,
    {
        month_start_iso_week0(self.date.year(), self.date.month())
    }

    /// The month number, `1..=12`.
    pub fn month(&self) -> (r: u8)
        requires
            self.wf(),
        ensures
            r == self.date.spec_month(),
    {
        self.date.month()
    }

    /// The Common-Era year, `0..=4095`.
    pub fn year(&self) -> (r: u16)
        ensures
            r == self.date.spec_year(),
    {
        self.date.year()
    }

    /// Store `days_off_mask`, cut down to this month's length.
    pub fn set_days_off(&mut self, days_off_mask: DaysOffMask)
        requires
            old(self).wf(),
        ensures
            final(self).date == old(self).date,
            final(self).wf(),
            final(self).days_off_mask.0 == crate::daysoff_mask::spec_truncate(
                days_off_mask.0,
                spec_days_in_month(old(self).date.spec_year(), old(self).date.spec_month()) as u32,
            ),
            forall|i: u32|
                i < 32 ==> (final(self).days_off_mask.spec_is_off(i) == (i < spec_days_in_month(
                    old(self).date.spec_year(),
                    old(self).date.spec_month(),
                ) && days_off_mask.spec_is_off(i))),
    {
        let days = self.days_amount();
        self.days_off_mask = days_off_mask.truncate(days);
    }

    /// 0-based position of `today` within this month.
    ///
    /// Meaningful only when `today` lies in this very month, which the
    /// caller guarantees.
    pub fn today_day_num(&self, today: Date) -> (r: u8)
        requires
            self.wf(),
            today.valid(),
            today.year == self.date.spec_year(),
            today.month == self.date.spec_month(),
        ensures
            r == today.day - 1,
    {
        today.day - 1
    }

    /// A fresh cursor over `(day_index0, is_off)` for every day of this
    /// month. Each call starts an independent iteration over the same
    /// mask.
    pub fn days_iter(&self) -> (r: DaysIter)
        requires
            self.wf(),
        ensures
            r.wf(),
            r.pos == 0,
            r.end == spec_days_in_month(self.date.spec_year(), self.date.spec_month()),
            r.mask == self.days_off_mask,
    {
        DaysIter { pos: 0, end: self.days_amount(), mask: self.days_off_mask }
    }
}

/// A finite cursor over the days of one month: yields each 0-based day
/// index together with whether that day is off.
pub struct DaysIter {
    pub pos: u8,
    pub end: u8,
    pub mask: DaysOffMask,
}

impl DaysIter {
    pub open spec fn wf(self) -> bool {
        self.pos <= self.end <= 31
    }

    /// The next `(day_index0, is_off)` pair, or `None` once every day of
    /// the month has been yielded.
    pub fn next(&mut self) -> (r: Option<(u8, bool)>)
        requires
            old(self).wf(),
        ensures
            final(self).wf(),
            final(self).end == old(self).end,
            final(self).mask == old(self).mask,
            match r {
                Some(p) => old(self).pos < old(self).end && p.0 == old(self).pos && p.1
                    == old(self).mask.spec_is_off(old(self).pos as u32) && final(self).pos == old(
                    self,
                ).pos + 1,
                None => old(self).pos == old(self).end && *final(self) == *old(self),
            },
    {
        if self.pos < self.end {
            let idx = self.pos;
            self.pos = idx + 1;
            Some((idx, self.mask.is_day0_off(idx)))
        } else {
            None
        }
    }
}

/// Where a day lands in the rendered grid: its column is its weekday
/// slot (Monday first), its row the week it falls in, for a month whose
/// first day sits `start_offset` slots from Monday.
pub fn grid_position(day0: u8, start_offset: u8) -> (r: (u8, u8))
    requires
        day0 < 31,
        start_offset < 7,
    ensures
        r.0 == (day0 + start_offset) % 7,
        r.1 == (day0 + start_offset) / 7,
        r.0 < 7,
        r.1 <= 5,
{
    let slot = day0 + start_offset;
    (slot % 7, slot / 7)
}

} // verus!
