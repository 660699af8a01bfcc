use shelflife::clock::{Age, Timestamp};
use shelflife::tier::{classify, effective_age, reference_timestamp, Tier};

const WEEK: i128 = 604_800_000_000_000;

fn at(secs: i64) -> Timestamp {
    Timestamp { secs, nanos: 0, offset: 0 }
}

#[test]
fn twelve_weeks_exactly_is_fresh() {
    assert_eq!(classify(Age { nanos: 12 * WEEK }), Tier::Fresh);
    assert_eq!(classify(Age { nanos: 12 * WEEK + 1 }), Tier::Nudge);
}

#[test]
fn sixteen_weeks_exactly_is_nudge() {
    assert_eq!(classify(Age { nanos: 16 * WEEK }), Tier::Nudge);
    assert_eq!(classify(Age { nanos: 16 * WEEK + 1 }), Tier::SpinDown);
}

#[test]
fn twenty_four_weeks_exactly_is_spin_down() {
    assert_eq!(classify(Age { nanos: 24 * WEEK }), Tier::SpinDown);
    assert_eq!(classify(Age { nanos: 24 * WEEK + 1 }), Tier::Archive);
}

#[test]
fn zero_and_negative_ages_are_fresh() {
    assert_eq!(classify(Age { nanos: 0 }), Tier::Fresh);
    assert_eq!(classify(Age { nanos: -30 * WEEK }), Tier::Fresh);
    assert_eq!(classify(Age { nanos: i128::MIN }), Tier::Fresh);
    assert_eq!(classify(Age { nanos: i128::MAX }), Tier::Archive);
}

#[test]
fn tiers_never_get_milder_as_age_grows() {
    let rank = |t: Tier| match t {
        Tier::Fresh => 0,
        Tier::Nudge => 1,
        Tier::SpinDown => 2,
        Tier::Archive => 3,
    };
    let mut last = 0;
    for days in 0..200i128 {
        let now = rank(classify(Age { nanos: days * 86_400_000_000_000 }));
        assert!(now >= last);
        last = now;
    }
    assert_eq!(last, 3);
}

#[test]
fn reference_is_the_later_of_the_two_dates() {
    let early = at(1_000);
    let late = at(2_000);
    assert_eq!(reference_timestamp(Some(early), late), late);
    assert_eq!(reference_timestamp(Some(late), early), late);
    assert_eq!(reference_timestamp(None, early), early);
}

#[test]
fn reference_prefers_discovery_on_a_tie() {
    let discovery = Timestamp { secs: 5_000, nanos: 7, offset: 3_600 };
    let update = Timestamp { secs: 5_000, nanos: 7, offset: 0 };
    assert_eq!(reference_timestamp(Some(discovery), update), discovery);
}

#[test]
fn age_counts_from_the_reference() {
    let now = at(1_600_000_000);
    let discovery = at(1_600_000_000 - 30 * 604_800);
    let update = at(1_600_000_000 - 13 * 604_800);
    let idle = effective_age(Some(discovery), update, now);
    assert_eq!(idle.nanos, 13 * WEEK);
    assert_eq!(idle.weeks(), 13);
    // A stale last update does not hide a later discovery.
    let idle = effective_age(Some(update), discovery, now);
    assert_eq!(idle.nanos, 13 * WEEK);
}

#[test]
fn age_has_sub_second_precision() {
    let now = Timestamp { secs: 10, nanos: 1, offset: 0 };
    let then = Timestamp { secs: 9, nanos: 999_999_999, offset: 0 };
    assert_eq!(effective_age(None, then, now), Age { nanos: 2 });
    assert!(now.is_after(&then));
    assert!(!then.is_after(&now));
    assert!(!now.is_after(&now));
}

#[test]
fn age_is_not_negative_and_grows_between_runs() {
    let discovery = at(1_500_000_000);
    let update = at(1_500_000_500);
    let mut last = 0;
    for step in 0..50i64 {
        let now = at(1_500_000_500 + step * 1_000_000);
        let idle = effective_age(Some(discovery), update, now).nanos;
        assert!(idle >= 0);
        assert!(idle >= last);
        last = idle;
    }
}

#[test]
fn age_before_the_reference_is_negative() {
    let idle = effective_age(None, at(2_000), at(1_000));
    assert_eq!(idle.nanos, -1_000_000_000_000);
    assert_eq!(classify(idle), Tier::Fresh);
}

#[test]
fn offsets_do_not_change_the_instant() {
    let utc = Timestamp { secs: 1_000, nanos: 0, offset: 0 };
    let east = Timestamp { secs: 1_000, nanos: 0, offset: 7_200 };
    assert_eq!(utc.nanos_since(&east).nanos, 0);
    assert!(!utc.is_after(&east));
}

#[test]
fn weeks_round_toward_zero() {
    assert_eq!(Age { nanos: WEEK - 1 }.weeks(), 0);
    assert_eq!(Age { nanos: WEEK }.weeks(), 1);
    assert_eq!(Age { nanos: -WEEK + 1 }.weeks(), 0);
    assert_eq!(Age { nanos: -WEEK }.weeks(), -1);
    assert_eq!(Age { nanos: 30 * WEEK + 5 }.weeks(), 30);
    assert_eq!(Age { nanos: i128::MAX }.weeks(), i64::MAX);
    assert_eq!(Age { nanos: i128::MIN }.weeks(), i64::MIN);
}

#[test]
fn extreme_timestamps_do_not_overflow() {
    let first = Timestamp { secs: i64::MIN, nanos: 0, offset: 0 };
    let last = Timestamp { secs: i64::MAX, nanos: u32::MAX, offset: 0 };
    let span = last.nanos_since(&first);
    assert!(span.nanos > 0);
    assert_eq!(classify(span), Tier::Archive);
    assert_eq!(classify(first.nanos_since(&last)), Tier::Fresh);
}

#[test]
fn printable_range_is_the_four_digit_years() {
    assert!(at(0).is_printable());
    assert!(at(-62_167_219_200).is_printable());
    assert!(!at(-62_167_219_201).is_printable());
    assert!(at(253_402_300_799).is_printable());
    assert!(!at(253_402_300_800).is_printable());
    // The local year counts.
    assert!(Timestamp { secs: 253_402_300_799, nanos: 0, offset: -1 }.is_printable());
    assert!(!Timestamp { secs: 253_402_300_799, nanos: 0, offset: 1 }.is_printable());
    assert!(!Timestamp { secs: 0, nanos: 0, offset: 86_400 }.is_printable());
    assert!(!Timestamp { secs: 0, nanos: 0, offset: -86_400 }.is_printable());
    assert!(Timestamp { secs: 0, nanos: 0, offset: 86_399 }.is_printable());
}

#[test]
fn leap_fraction_fits_only_the_last_second_of_a_minute() {
    assert!(Timestamp { secs: 59, nanos: 1_500_000_000, offset: 0 }.is_printable());
    assert!(!Timestamp { secs: 58, nanos: 1_500_000_000, offset: 0 }.is_printable());
    assert!(!Timestamp { secs: 59, nanos: 2_000_000_000, offset: 0 }.is_printable());
    assert!(Timestamp { secs: -1, nanos: 1_000_000_000, offset: 0 }.is_printable());
    assert!(!Timestamp { secs: -2, nanos: 1_000_000_000, offset: 0 }.is_printable());
    assert!(Timestamp { secs: 58, nanos: 999_999_999, offset: 0 }.is_printable());
}

fn clock_of(t: &Timestamp) -> chrono::DateTime<chrono::Utc> {
    chrono::DateTime::from_timestamp(t.secs, t.nanos).unwrap()
}

#[test]
fn order_and_span_are_those_of_the_calendar_clock() {
    // Around the leap second at the end of 2016, and one that ends a minute
    // in the middle of a day.
    let end_of_2016: i64 = 1_483_228_799;
    let noon: i64 = 1_483_185_659;
    let mut times = vec![];
    for secs in [end_of_2016 - 1, end_of_2016, end_of_2016 + 1, noon, noon + 1, -1, 0, 59] {
        for nanos in [0u32, 1, 500_000_000, 999_999_999] {
            times.push(Timestamp { secs, nanos, offset: 0 });
        }
    }
    for secs in [end_of_2016, noon, -1, 59] {
        for nanos in [1_000_000_000u32, 1_500_000_000, 1_999_999_999] {
            times.push(Timestamp { secs, nanos, offset: 3_600 });
        }
    }
    for a in &times {
        for b in &times {
            let span = clock_of(a).signed_duration_since(clock_of(b));
            let nanos = (span.num_seconds() as i128) * 1_000_000_000 + (span.subsec_nanos() as i128);
            assert_eq!(a.nanos_since(b).nanos, nanos, "{:?} since {:?}", a, b);
            assert_eq!(a.is_after(b), clock_of(a) > clock_of(b), "{:?} after {:?}", a, b);
        }
    }
}

#[test]
fn leap_second_comes_before_the_second_that_follows_it() {
    let leap = Timestamp { secs: 1_483_228_799, nanos: 1_500_000_000, offset: 0 };
    let next = Timestamp { secs: 1_483_228_800, nanos: 0, offset: 0 };
    let before = Timestamp { secs: 1_483_228_799, nanos: 999_999_999, offset: 0 };
    assert!(next.is_after(&leap));
    assert!(!leap.is_after(&next));
    assert!(leap.is_after(&before));
    // Within one day the leap second is counted into the span.
    let morning = Timestamp { secs: 1_483_228_799 - 3_600, nanos: 1_500_000_000, offset: 0 };
    let evening = Timestamp { secs: 1_483_228_799, nanos: 0, offset: 0 };
    assert_eq!(evening.nanos_since(&morning).nanos, 3_599_500_000_000);
    assert_eq!(morning.nanos_since(&evening).nanos, -3_599_500_000_000);
    // Across midnight it is not.
    assert_eq!(next.nanos_since(&leap).nanos, -500_000_000);
}

#[test]
fn idle_time_counted_from_a_leap_second_can_shrink() {
    // A last update within a leap second at noon, looked at just before
    // and just after the following midnight.
    let update = Timestamp { secs: 1_483_185_659, nanos: 1_500_000_000, offset: 0 };
    let before_midnight = Timestamp { secs: 1_483_228_799, nanos: 900_000_000, offset: 0 };
    let after_midnight = Timestamp { secs: 1_483_228_800, nanos: 0, offset: 0 };
    assert!(after_midnight.is_after(&before_midnight));
    let first = effective_age(None, update, before_midnight).nanos;
    let second = effective_age(None, update, after_midnight).nanos;
    assert_eq!(first - second, 900_000_000);
    for look in [before_midnight, after_midnight] {
        let span = clock_of(&look).signed_duration_since(clock_of(&update));
        assert_eq!(
            effective_age(None, update, look).nanos,
            (span.num_seconds() as i128) * 1_000_000_000 + (span.subsec_nanos() as i128)
        );
    }
}
