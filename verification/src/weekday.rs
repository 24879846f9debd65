//! Days of the week, counted from Monday.

use vstd::prelude::*;

verus! {

/// A day of the week.
#[derive(Debug, Clone, Copy, PartialEq, Eq, Structural)]
pub enum Weekday {
    Monday,
    Tuesday,
    Wednesday,
    Thursday,
    Friday,
    Saturday,
    Sunday,
}

impl Weekday {
    /// Distance from Monday: Monday is 0, Sunday is 6.
    pub open spec fn spec_offset(self) -> u32 {
        match self {
            Weekday::Monday => 0,
            Weekday::Tuesday => 1,
            Weekday::Wednesday => 2,
            Weekday::Thursday => 3,
            Weekday::Friday => 4,
            Weekday::Saturday => 5,
            Weekday::Sunday => 6,
        }
    }

    pub fn offset_from_monday(self) -> (r: u8)
        ensures
            r == self.spec_offset(),
            r < 7,
    {
        match self {
            Weekday::Monday => 0,
            Weekday::Tuesday => 1,
            Weekday::Wednesday => 2,
            Weekday::Thursday => 3,
            Weekday::Friday => 4,
            Weekday::Saturday => 5,
            Weekday::Sunday => 6,
        }
    }

    pub fn from_offset(offset: u8) -> (r: Self)
        requires
            offset < 7,
        ensures
            r.spec_offset() == offset,
    {
        match offset {
            0 => Weekday::Monday,
            1 => Weekday::Tuesday,
            2 => Weekday::Wednesday,
            3 => Weekday::Thursday,
            4 => Weekday::Friday,
            5 => Weekday::Saturday,
            _ => Weekday::Sunday,
        }
    }

    /// Abbreviated English name, as shown in the weekday header row.
    pub open spec fn spec_short_name(self) -> Seq<char> {
        match self {
            Weekday::Monday => "mon"@,
            Weekday::Tuesday => "tue"@,
            Weekday::Wednesday => "wed"@,
            Weekday::Thursday => "thu"@,
            Weekday::Friday => "fri"@,
            Weekday::Saturday => "sat"@,
            Weekday::Sunday => "sun"@,
        }
    }
}

/// The week in display order, Monday first.
pub fn all_weekdays() -> (r: [Weekday; 7])
    ensures
        forall|i: int| 0 <= i < 7 ==> r[i].spec_offset() == i,
{
    [
        Weekday::Monday,
        Weekday::Tuesday,
        Weekday::Wednesday,
        Weekday::Thursday,
        Weekday::Friday,
        Weekday::Saturday,
        Weekday::Sunday,
    ]
}

pub fn weekday_short_name(val: Weekday) -> (r: &'static str)
    ensures
        r@ == val.spec_short_name(),
{
    match val {
        Weekday::Monday => "mon",
        Weekday::Tuesday => "tue",
        Weekday::Wednesday => "wed",
        Weekday::Thursday => "thu",
        Weekday::Friday => "fri",
        Weekday::Saturday => "sat",
        Weekday::Sunday => "sun",
    }
}

/// Abbreviated English weekday names, Monday first.
pub fn all_weekdays_short_en() -> (r: [&'static str; 7])
    ensures
        forall|i: int| 0 <= i < 7
            ==> r[i]@ == #[trigger] Weekday::from_offset_spec(i).spec_short_name(),
{
    ["mon", "tue", "wed", "thu", "fri", "sat", "sun"]
}

impl Weekday {
    /// The weekday at a given distance from Monday.
    pub open spec fn from_offset_spec(offset: int) -> Weekday {
        if offset == 0 {
            Weekday::Monday
        } else if offset == 1 {
            Weekday::Tuesday
        } else if offset == 2 {
            Weekday::Wednesday
        } else if offset == 3 {
            Weekday::Thursday
        } else if offset == 4 {
            Weekday::Friday
        } else if offset == 5 {
            Weekday::Saturday
        } else {
            Weekday::Sunday
        }
    }
}

} // verus!
