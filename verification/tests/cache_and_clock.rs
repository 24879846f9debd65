use epaper_calendar::cache::{months_triplet, OffDayCache};
use epaper_calendar::clock::{
    classify_bus_result, date_of_unix, local_offset_seconds, local_seconds,
    seconds_until_next_midnight, ClockError, ClockSlot, UtcTime,
};
use epaper_calendar::daysoff_mask::DaysOffMask;
use epaper_calendar::month_date::MonthDate;
use epaper_calendar::sync::{
    apply_sync_result, fraction_to_micros, next_action, ntp_instant, sync_step, SyncAction,
    SyncEvent, SyncPhase,
};

#[test]
fn triplet_spans_the_neighbouring_months() {
    let may24 = MonthDate::new(2024, 5);
    let t = months_triplet(may24);
    assert_eq!((t[0].year(), t[0].month()), (2024, 4));
    assert_eq!((t[1].year(), t[1].month()), (2024, 5));
    assert_eq!((t[2].year(), t[2].month()), (2024, 6));
    let jan = months_triplet(MonthDate::new(2024, 1));
    assert_eq!((jan[0].year(), jan[0].month()), (2023, 12));
    assert_eq!((jan[2].year(), jan[2].month()), (2024, 2));
}

#[test]
fn populate_then_rotate_keeps_at_most_three() {
    let mut cache = OffDayCache::new();
    let may24 = MonthDate::new(2024, 5);
    cache.populate_triplet(may24, [Some(1), Some(2), Some(3)]);
    assert_eq!(cache.len(), 3);
    assert_eq!(cache.get(MonthDate::new(2024, 4)), Some(DaysOffMask::new(1)));
    assert_eq!(cache.get(may24), Some(DaysOffMask::new(2)));
    assert_eq!(cache.get(MonthDate::new(2024, 6)), Some(DaysOffMask::new(3)));

    // The visible month advances to June: April leaves, July enters.
    let jun24 = MonthDate::new(2024, 6);
    cache.rotate(jun24, Some(4));
    assert!(cache.len() <= 3);
    assert_eq!(cache.get(MonthDate::new(2024, 4)), None);
    assert_eq!(cache.get(MonthDate::new(2024, 7)), Some(DaysOffMask::new(4)));
}

#[test]
fn rotate_without_fetched_mask_only_evicts() {
    let mut cache = OffDayCache::new();
    let may24 = MonthDate::new(2024, 5);
    cache.populate_triplet(may24, [Some(1), Some(2), Some(3)]);
    cache.rotate(MonthDate::new(2024, 6), None);
    assert_eq!(cache.len(), 2);
    assert_eq!(cache.get(MonthDate::new(2024, 4)), None);
    assert_eq!(cache.get(MonthDate::new(2024, 7)), None);
}

#[test]
fn populate_skips_missing_masks() {
    let mut cache = OffDayCache::new();
    cache.populate_triplet(MonthDate::new(2024, 5), [None, Some(7), None]);
    assert_eq!(cache.len(), 1);
    assert_eq!(cache.get(MonthDate::new(2024, 4)), None);
    assert_eq!(cache.get(MonthDate::new(2024, 5)), Some(DaysOffMask::new(7)));
}

#[test]
fn insert_over_capacity_is_rejected() {
    let mut cache = OffDayCache::new();
    assert!(cache.insert(MonthDate::new(2024, 1), DaysOffMask::new(1)));
    assert!(cache.insert(MonthDate::new(2024, 2), DaysOffMask::new(2)));
    assert!(cache.insert(MonthDate::new(2024, 3), DaysOffMask::new(3)));
    assert!(!cache.insert(MonthDate::new(2024, 4), DaysOffMask::new(4)));
    assert_eq!(cache.len(), 3);
    assert_eq!(cache.get(MonthDate::new(2024, 4)), None);
    // An existing key still updates in place at capacity.
    assert!(cache.insert(MonthDate::new(2024, 2), DaysOffMask::new(9)));
    assert_eq!(cache.get(MonthDate::new(2024, 2)), Some(DaysOffMask::new(9)));
    cache.clear();
    assert_eq!(cache.len(), 0);
    cache.remove(MonthDate::new(2024, 2));
    assert_eq!(cache.len(), 0);
}

#[test]
fn clock_slot_initializes_exactly_once() {
    let mut slot = ClockSlot::new();
    assert_eq!(slot.check_access(), Err(ClockError::ClockNotInitialized));
    slot.initialize();
    assert_eq!(slot.check_access(), Ok(()));
}

#[test]
fn bus_results_become_typed_clock_errors() {
    assert_eq!(classify_bus_result::<u32>(Ok(5)), Ok(5));
    assert_eq!(classify_bus_result::<u32>(Err(7)), Err(ClockError::ClockBusError(7)));
}

#[test]
fn civil_date_of_timestamp() {
    // 2024-01-01T00:00:00Z
    let d = date_of_unix(1704067200);
    assert_eq!((d.year, d.month, d.day), (2024, 1, 1));
    // One second before the next midnight, 2024-02-29T23:59:59Z
    let d = date_of_unix(1709251199);
    assert_eq!((d.year, d.month, d.day), (2024, 2, 29));
}

#[test]
fn local_view_applies_timezone_offset() {
    let utc = UtcTime { secs: 1704067200, micros: 0 };
    let offset = local_offset_seconds(utc.secs);
    // The configured display timezone holds UTC+3 year-round.
    assert_eq!(offset, 3 * 3600);
    assert_eq!(local_seconds(utc, offset), 1704067200 + 10800);
}

#[test]
fn sleep_reaches_just_past_local_midnight() {
    let local = 86400 * 19723 + 3600; // 01:00 local
    assert_eq!(seconds_until_next_midnight(local, 5), 82805);
    assert_eq!(seconds_until_next_midnight(86400 * 19723, 5), 86405);
}

#[test]
fn ntp_fraction_to_micros_values() {
    assert_eq!(fraction_to_micros(0), 0);
    assert_eq!(fraction_to_micros(0x8000_0000), 500_000);
    assert_eq!(fraction_to_micros(u32::MAX), 999_999);
    let t = ntp_instant(1704067200, 0x8000_0000);
    assert_eq!(t.secs, 1704067200);
    assert_eq!(t.micros, 500_000);
}

#[test]
fn sync_walks_hosts_then_addresses() {
    let n_hosts = 2;
    let phase = SyncPhase::Resolving { host_idx: 0 };
    assert!(matches!(next_action(&phase), SyncAction::QueryDns { host_idx: 0 }));
    // First hostname fails to resolve, second resolves to two addresses.
    let phase = sync_step(phase, SyncEvent::DnsFailed, n_hosts);
    assert!(matches!(phase, SyncPhase::Resolving { host_idx: 1 }));
    let phase = sync_step(phase, SyncEvent::DnsResolved { n_addrs: 2 }, n_hosts);
    assert!(matches!(phase, SyncPhase::Exchanging { n_addrs: 2, addr_idx: 0 }));
    assert!(matches!(next_action(&phase), SyncAction::Exchange { addr_idx: 0 }));
    // First address times out, second answers.
    let phase = sync_step(phase, SyncEvent::ExchangeFailed, n_hosts);
    assert!(matches!(phase, SyncPhase::Exchanging { n_addrs: 2, addr_idx: 1 }));
    let phase = sync_step(phase, SyncEvent::ExchangeSucceeded { sec: 1704067200, frac: 0 }, n_hosts);
    match next_action(&phase) {
        SyncAction::WriteRtc { time } => {
            assert_eq!(time.secs, 1704067200);
            assert_eq!(time.micros, 0);
        },
        _ => panic!("expected a write-back"),
    }
}

#[test]
fn exhausted_sync_leaves_clock_unchanged() {
    let n_hosts = 2;
    let pre = UtcTime { secs: 1704067200, micros: 250 };
    let mut phase = SyncPhase::Resolving { host_idx: 0 };
    // Every resolution and every exchange fails.
    let events = [
        SyncEvent::DnsFailed,
        SyncEvent::DnsResolved { n_addrs: 3 },
        SyncEvent::ExchangeFailed,
        SyncEvent::ExchangeFailed,
        SyncEvent::ExchangeFailed,
    ];
    for e in events {
        phase = sync_step(phase, e, n_hosts);
    }
    let result = match phase {
        SyncPhase::Done { result } => result,
        _ => panic!("session should be over"),
    };
    assert!(result.is_none());
    assert!(matches!(next_action(&phase), SyncAction::SkipCycle));
    assert_eq!(apply_sync_result(pre, result), pre);
}

#[test]
fn empty_dns_answers_count_as_failures() {
    let phase = SyncPhase::Resolving { host_idx: 0 };
    let phase = sync_step(phase, SyncEvent::DnsResolved { n_addrs: 0 }, 1);
    assert!(matches!(phase, SyncPhase::Done { result: None }));
}
