use epaper_calendar::calendar::{days_in_month, is_leap_year, grid_position, CalendarMonth, Date};
use epaper_calendar::daysoff_mask::DaysOffMask;
use epaper_calendar::month_date::MonthDate;
use epaper_calendar::weekday::{all_weekdays, all_weekdays_short_en, weekday_short_name, Weekday};

#[test]
fn add_months_carries_into_year() {
    let jan24 = MonthDate::new(2024, 1);
    let feb24 = jan24.add_months(1);
    assert_eq!((feb24.year(), feb24.month()), (2024, 2));
    let jan25 = jan24.add_months(12);
    assert_eq!((jan25.year(), jan25.month()), (2025, 1));
    let nov24 = MonthDate::new(2024, 12).sub_months(1);
    assert_eq!((nov24.year(), nov24.month()), (2024, 11));
}

#[test]
fn sub_months_borrows_from_year() {
    let jan24 = MonthDate::new(2024, 1);
    let dec23 = jan24.sub_months(1);
    assert_eq!((dec23.year(), dec23.month()), (2023, 12));
    let jan23 = jan24.sub_months(12);
    assert_eq!((jan23.year(), jan23.month()), (2023, 1));
    let may21 = MonthDate::new(2024, 5).sub_months(36);
    assert_eq!((may21.year(), may21.month()), (2021, 5));
}

#[test]
fn add_then_sub_months_round_trips() {
    for &(year, month) in &[(0u16, 1u8), (2024, 5), (1999, 12), (4095, 12)] {
        let d = MonthDate::new(year, month);
        for &n in &[0u16, 1, 2, 11, 12, 13, 4000] {
            if (year as u32) * 12 + (month as u32) - 1 + n as u32 <= 4095 * 12 + 11 {
                let back = d.add_months(n).sub_months(n);
                assert_eq!((back.year(), back.month()), (year, month));
            }
        }
    }
}

#[test]
fn packed_order_is_lexicographic() {
    let dates = [
        MonthDate::new(2023, 12),
        MonthDate::new(2024, 1),
        MonthDate::new(2024, 2),
        MonthDate::new(2024, 12),
        MonthDate::new(2025, 1),
    ];
    for i in 0..dates.len() {
        for j in 0..dates.len() {
            assert_eq!(dates[i].is_before(dates[j]), i < j);
            assert_eq!(dates[i] < dates[j], i < j);
            assert_eq!(dates[i] >= dates[j], i >= j);
        }
    }
}

#[test]
fn february_lengths_follow_leap_years() {
    let feb24 = CalendarMonth::from_date(Date::new(2024, 2, 1));
    assert_eq!(feb24.days_amount(), 29);
    let feb23 = CalendarMonth::from_date(Date::new(2023, 2, 1));
    assert_eq!(feb23.days_amount(), 28);
    assert_eq!(days_in_month(2000, 2), 29);
    assert_eq!(days_in_month(1900, 2), 28);
    assert_eq!(days_in_month(2024, 4), 30);
    assert_eq!(days_in_month(2024, 7), 31);
    assert!(is_leap_year(2024));
    assert!(!is_leap_year(2023));
    assert!(!is_leap_year(1900));
    assert!(is_leap_year(2000));
}

#[test]
fn default_weekend_mask_for_monday_start() {
    let mask = DaysOffMask::default_days_off(Weekday::Monday);
    let off: Vec<u8> = (0u8..31).filter(|&d| mask.is_day0_off(d)).collect();
    assert_eq!(off, vec![5, 6, 12, 13, 19, 20, 26, 27]);
}

#[test]
fn default_weekend_mask_for_sunday_start() {
    let mask = DaysOffMask::default_days_off(Weekday::Sunday);
    let off: Vec<u8> = (0u8..31).filter(|&d| mask.is_day0_off(d)).collect();
    assert_eq!(off, vec![0, 6, 7, 13, 14, 20, 21, 27, 28]);
}

#[test]
fn truncate_clears_only_high_bits() {
    let mask = DaysOffMask::new(0xffff_ffff).truncate(10);
    for d in 0u8..10 {
        assert!(mask.is_day0_off(d));
    }
    for d in 10u8..32 {
        assert!(!mask.is_day0_off(d));
    }
    let sparse = DaysOffMask::new(0b1000_0000_0011).truncate(10);
    assert!(sparse.is_day0_off(0) && sparse.is_day0_off(1));
    assert!(!sparse.is_day0_off(11));
}

#[test]
fn day_queries_by_zero_and_one_based_index() {
    let mask = DaysOffMask::new(0b101);
    assert!(mask.is_day0_off(0) && !mask.is_day0_off(1) && mask.is_day0_off(2));
    assert!(mask.is_day1_off(1) && !mask.is_day1_off(2) && mask.is_day1_off(3));
}

#[test]
fn month_start_weekday_and_week_number() {
    let feb24 = CalendarMonth::from_date(Date::new(2024, 2, 1));
    assert_eq!(feb24.start_weekday(), Weekday::Thursday);
    assert_eq!(feb24.start_week_num(), 4);
    let jan24 = CalendarMonth::from_date(Date::new(2024, 1, 1));
    assert_eq!(jan24.start_weekday(), Weekday::Monday);
    assert_eq!(jan24.start_week_num(), 0);
}

#[test]
fn from_date_seeds_default_weekend_mask() {
    // 2024-01-01 is a Monday: the seeded mask is the Monday pattern.
    let jan24 = CalendarMonth::from_date(Date::new(2024, 1, 15));
    let days: Vec<(u8, bool)> = {
        let mut iter = jan24.days_iter();
        let mut v = Vec::new();
        while let Some(p) = iter.next() {
            v.push(p);
        }
        v
    };
    assert_eq!(days.len(), 31);
    for &(d, off) in &days {
        assert_eq!(off, [5, 6, 12, 13, 19, 20, 26, 27].contains(&d));
    }
}

#[test]
fn days_iter_restarts_independently() {
    let feb23 = CalendarMonth::from_date(Date::new(2023, 2, 1));
    let mut first = feb23.days_iter();
    let mut n1 = 0;
    while first.next().is_some() {
        n1 += 1;
    }
    let mut second = feb23.days_iter();
    let mut n2 = 0;
    while second.next().is_some() {
        n2 += 1;
    }
    assert_eq!(n1, 28);
    assert_eq!(n2, 28);
}

#[test]
fn set_days_off_truncates_to_month_length() {
    let mut feb24 = CalendarMonth::from_date(Date::new(2024, 2, 1));
    feb24.set_days_off(DaysOffMask::new(0xffff_ffff));
    assert!(feb24.days_off_mask.is_day0_off(28));
    assert!(!feb24.days_off_mask.is_day0_off(29));
    assert!(!feb24.days_off_mask.is_day0_off(31));
}

#[test]
fn today_day_num_is_zero_based() {
    let feb24 = CalendarMonth::from_date(Date::new(2024, 2, 1));
    assert_eq!(feb24.today_day_num(Date::new(2024, 2, 15)), 14);
    assert_eq!(feb24.today_day_num(Date::new(2024, 2, 1)), 0);
}

#[test]
fn grid_positions_wrap_weekly() {
    assert_eq!(grid_position(0, 3), (3, 0));
    assert_eq!(grid_position(3, 3), (6, 0));
    assert_eq!(grid_position(4, 3), (0, 1));
    assert_eq!(grid_position(30, 6), (1, 5));
}

#[test]
fn weekday_names_and_order() {
    assert_eq!(weekday_short_name(Weekday::Monday), "mon");
    assert_eq!(weekday_short_name(Weekday::Saturday), "sat");
    assert_eq!(all_weekdays_short_en(), ["mon", "tue", "wed", "thu", "fri", "sat", "sun"]);
    let days = all_weekdays();
    assert_eq!(days[0], Weekday::Monday);
    assert_eq!(days[6], Weekday::Sunday);
    for (i, d) in days.iter().enumerate() {
        assert_eq!(d.offset_from_monday() as usize, i);
    }
}

#[test]
fn month_date_projections() {
    let d = MonthDate::new(2024, 11);
    assert_eq!(d.year(), 2024);
    assert_eq!(d.month(), 11);
    let from_date = MonthDate::new_from_date(Date::new(2024, 11, 30));
    assert_eq!((from_date.year(), from_date.month()), (2024, 11));
    let m = CalendarMonth::from_date(Date::new(2024, 11, 5));
    assert_eq!(m.year(), 2024);
    assert_eq!(m.month(), 11);
    assert_eq!(m.month_date().year(), 2024);
    let start = m.start_date();
    assert_eq!((start.year, start.month, start.day), (2024, 11, 1));
}
