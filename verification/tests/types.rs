use chrono::{Datelike, Duration, NaiveDate, NaiveDateTime, Timelike};

use reminder_bot::db::types::{
    ChatId, DueTimestamp, Recurrence, RecurrenceUnit, RecurrenceUnitParseError, MAX_YEAR, MIN_YEAR,
};

fn at(year: i32, month: u32, day: u32, hour: u32, minute: u32) -> DueTimestamp {
    DueTimestamp::from_ymd_hms(year, month, day, hour, minute, 0).expect("no such moment")
}

fn naive(ts: DueTimestamp) -> NaiveDateTime {
    NaiveDate::from_ymd_opt(ts.year(), ts.month(), ts.day())
        .unwrap()
        .and_hms_opt(ts.hour(), ts.minute(), ts.second())
        .unwrap()
}

fn every(unit: RecurrenceUnit, amount: u8) -> Recurrence {
    Recurrence::new(amount, unit).expect("invalid period")
}

#[test]
fn months_roll_over_the_year() {
    assert_eq!(every(RecurrenceUnit::Months, 3).advance(at(2020, 11, 1, 0, 0)), at(2021, 2, 1, 0, 0));
    assert_eq!(every(RecurrenceUnit::Months, 1).advance(at(2020, 11, 5, 7, 45)), at(2020, 12, 5, 7, 45));
    assert_eq!(every(RecurrenceUnit::Months, 1).advance(at(2020, 12, 5, 7, 45)), at(2021, 1, 5, 7, 45));
    assert_eq!(every(RecurrenceUnit::Months, 12).advance(at(2020, 6, 15, 0, 0)), at(2021, 6, 15, 0, 0));
    assert_eq!(every(RecurrenceUnit::Months, 63).advance(at(2020, 12, 1, 0, 0)), at(2026, 3, 1, 0, 0));
}

#[test]
fn years_keep_month_and_day() {
    assert_eq!(every(RecurrenceUnit::Years, 1).advance(at(2020, 2, 1, 0, 0)), at(2021, 2, 1, 0, 0));
    assert_eq!(every(RecurrenceUnit::Years, 9).advance(at(1999, 12, 31, 23, 59)), at(2008, 12, 31, 23, 59));
}

#[test]
fn a_day_that_the_month_lacks_becomes_its_last() {
    assert_eq!(every(RecurrenceUnit::Months, 1).advance(at(2021, 1, 31, 9, 30)), at(2021, 2, 28, 9, 30));
    assert_eq!(every(RecurrenceUnit::Months, 1).advance(at(2020, 1, 31, 9, 30)), at(2020, 2, 29, 9, 30));
    assert_eq!(every(RecurrenceUnit::Months, 1).advance(at(2021, 3, 31, 9, 30)), at(2021, 4, 30, 9, 30));
    assert_eq!(every(RecurrenceUnit::Years, 1).advance(at(2020, 2, 29, 9, 30)), at(2021, 2, 28, 9, 30));
    assert_eq!(every(RecurrenceUnit::Years, 4).advance(at(2020, 2, 29, 9, 30)), at(2024, 2, 29, 9, 30));
}

#[test]
fn fixed_units_add_their_length() {
    let from = at(2020, 2, 28, 23, 30);
    assert_eq!(every(RecurrenceUnit::Minutes, 45).advance(from), at(2020, 2, 29, 0, 15));
    assert_eq!(every(RecurrenceUnit::Hours, 1).advance(from), at(2020, 2, 29, 0, 30));
    assert_eq!(every(RecurrenceUnit::Days, 1).advance(from), at(2020, 2, 29, 23, 30));
    assert_eq!(every(RecurrenceUnit::Days, 2).advance(from), at(2020, 3, 1, 23, 30));
    assert_eq!(every(RecurrenceUnit::Weeks, 2).advance(from), at(2020, 3, 13, 23, 30));
    assert_eq!(every(RecurrenceUnit::Days, 98).advance(at(2020, 12, 31, 0, 0)), at(2021, 4, 8, 0, 0));
}

#[test]
fn fixed_units_agree_with_the_calendar_arithmetic_of_chrono() {
    let starts = [at(1999, 12, 31, 23, 59), at(2020, 2, 28, 12, 0), at(2023, 10, 29, 2, 30), at(1, 1, 1, 0, 0)];
    for start in starts {
        for amount in 1..90u8 {
            let minutes = (Recurrence { amount, unit: RecurrenceUnit::Minutes }).advance(start);
            assert_eq!(naive(minutes), naive(start) + Duration::minutes(amount as i64));
            let hours = (Recurrence { amount, unit: RecurrenceUnit::Hours }).advance(start);
            assert_eq!(naive(hours), naive(start) + Duration::hours(amount as i64));
            let days = (Recurrence { amount, unit: RecurrenceUnit::Days }).advance(start);
            assert_eq!(naive(days), naive(start) + Duration::days(amount as i64));
            let weeks = (Recurrence { amount, unit: RecurrenceUnit::Weeks }).advance(start);
            assert_eq!(naive(weeks), naive(start) + Duration::weeks(amount as i64));
        }
    }
}

#[test]
fn checked_advance_agrees_with_advance() {
    let start = at(2020, 11, 30, 8, 0);
    for unit in [
        RecurrenceUnit::Minutes,
        RecurrenceUnit::Hours,
        RecurrenceUnit::Days,
        RecurrenceUnit::Weeks,
        RecurrenceUnit::Months,
        RecurrenceUnit::Years,
    ] {
        let recurrence = Recurrence { amount: 3, unit };
        assert_eq!(recurrence.checked_advance(start), Some(recurrence.advance(start)));
    }
}

#[test]
fn checked_advance_stops_at_the_last_year() {
    let last = at(MAX_YEAR, 12, 31, 23, 59);
    assert_eq!(every(RecurrenceUnit::Minutes, 1).checked_advance(last), None);
    assert_eq!(every(RecurrenceUnit::Days, 1).checked_advance(last), None);
    assert_eq!(every(RecurrenceUnit::Months, 1).checked_advance(last), None);
    assert_eq!(every(RecurrenceUnit::Years, 1).checked_advance(last), None);
    assert_eq!(
        every(RecurrenceUnit::Months, 1).checked_advance(at(MAX_YEAR, 11, 30, 0, 0)),
        Some(at(MAX_YEAR, 12, 30, 0, 0))
    );
    assert_eq!(
        every(RecurrenceUnit::Years, 2).checked_advance(at(MAX_YEAR - 2, 1, 1, 0, 0)),
        Some(at(MAX_YEAR, 1, 1, 0, 0))
    );
    assert_eq!(
        every(RecurrenceUnit::Minutes, 1).checked_advance(at(MAX_YEAR, 12, 31, 23, 58)),
        Some(at(MAX_YEAR, 12, 31, 23, 59))
    );
}

#[test]
fn moments_exist_as_in_the_calendar() {
    assert!(DueTimestamp::from_ymd_hms(2020, 2, 29, 0, 0, 0).is_some());
    assert!(DueTimestamp::from_ymd_hms(2021, 2, 29, 0, 0, 0).is_none());
    assert!(DueTimestamp::from_ymd_hms(1900, 2, 29, 0, 0, 0).is_none());
    assert!(DueTimestamp::from_ymd_hms(2000, 2, 29, 0, 0, 0).is_some());
    assert!(DueTimestamp::from_ymd_hms(2020, 4, 31, 0, 0, 0).is_none());
    assert!(DueTimestamp::from_ymd_hms(2020, 0, 1, 0, 0, 0).is_none());
    assert!(DueTimestamp::from_ymd_hms(2020, 13, 1, 0, 0, 0).is_none());
    assert!(DueTimestamp::from_ymd_hms(2020, 1, 0, 0, 0, 0).is_none());
    assert!(DueTimestamp::from_ymd_hms(2020, 1, 1, 24, 0, 0).is_none());
    assert!(DueTimestamp::from_ymd_hms(2020, 1, 1, 23, 60, 0).is_none());
    assert!(DueTimestamp::from_ymd_hms(2020, 1, 1, 23, 59, 60).is_none());
    assert!(DueTimestamp::from_ymd_hms(2020, 1, 1, 23, 59, 59).is_some());
    assert!(DueTimestamp::from_ymd_hms(MAX_YEAR, 1, 1, 0, 0, 0).is_some());
    assert!(DueTimestamp::from_ymd_hms(MAX_YEAR + 1, 1, 1, 0, 0, 0).is_none());
    assert!(DueTimestamp::from_ymd_hms(MIN_YEAR, 1, 1, 0, 0, 0).is_some());
    assert!(DueTimestamp::from_ymd_hms(MIN_YEAR - 1, 1, 1, 0, 0, 0).is_none());
}

#[test]
fn moment_gives_back_its_fields() {
    let ts = DueTimestamp::from_ymd_hms(2021, 7, 14, 19, 5, 42).unwrap();
    assert_eq!(
        (ts.year(), ts.month(), ts.day(), ts.hour(), ts.minute(), ts.second()),
        (2021, 7, 14, 19, 5, 42)
    );
}

#[test]
fn moments_are_ordered_in_time() {
    let a = at(2020, 2, 3, 10, 0);
    assert!(a.is_before(&at(2020, 2, 3, 10, 1)));
    assert!(a.is_before(&at(2020, 2, 4, 0, 0)));
    assert!(a.is_before(&at(2020, 3, 1, 0, 0)));
    assert!(a.is_before(&at(2021, 1, 1, 0, 0)));
    assert!(!a.is_before(&a));
    assert!(!a.is_before(&at(2020, 2, 3, 9, 59)));
    assert!(!a.is_before(&at(2019, 12, 31, 23, 59)));
    assert!(a.is_before(&DueTimestamp::from_ymd_hms(2020, 2, 3, 10, 0, 1).unwrap()));
    assert!(a < at(2020, 2, 3, 10, 1));
}

#[test]
fn moment_is_written_to_the_minute() {
    assert_eq!(at(2020, 2, 3, 0, 0).render(), "2020-02-03 00:00");
    assert_eq!(DueTimestamp::from_ymd_hms(2020, 12, 31, 23, 59, 58).unwrap().render(), "2020-12-31 23:59");
    assert_eq!(at(987, 1, 9, 7, 5).render(), "0987-01-09 07:05");
    assert_eq!(at(0, 1, 1, 0, 0).render(), "0000-01-01 00:00");
    assert_eq!(at(12345, 6, 7, 8, 9).render(), "+12345-06-07 08:09");
    assert_eq!(at(-5, 6, 7, 8, 9).render(), "-0005-06-07 08:09");
    assert_eq!(at(-12345, 6, 7, 8, 9).render(), "-12345-06-07 08:09");
}

#[test]
fn moment_is_written_as_chrono_writes_it() {
    for ts in [at(2020, 2, 3, 23, 59), at(5, 11, 30, 1, 2), at(10000, 1, 1, 0, 0), at(-1, 3, 4, 5, 6), at(-1000, 1, 1, 1, 1), at(9999, 12, 31, 23, 59)] {
        assert_eq!(ts.render(), naive(ts).format("%Y-%m-%d %H:%M").to_string());
    }
}

#[test]
fn recurrence_is_written_as_a_suffix() {
    assert_eq!(every(RecurrenceUnit::Minutes, 5).render(), "+5m");
    assert_eq!(every(RecurrenceUnit::Hours, 23).render(), "+23h");
    assert_eq!(every(RecurrenceUnit::Days, 1).render(), "+1d");
    assert_eq!(every(RecurrenceUnit::Weeks, 2).render(), "+2w");
    assert_eq!(every(RecurrenceUnit::Months, 63).render(), "+63M");
    assert_eq!(every(RecurrenceUnit::Years, 9).render(), "+9y");
    assert_eq!((Recurrence { amount: 200, unit: RecurrenceUnit::Days }).render(), "+200d");
}

#[test]
fn recurrence_must_stay_below_its_ceiling() {
    let ceilings = [
        (RecurrenceUnit::Minutes, 90),
        (RecurrenceUnit::Hours, 24),
        (RecurrenceUnit::Days, 99),
        (RecurrenceUnit::Weeks, 10),
        (RecurrenceUnit::Months, 64),
        (RecurrenceUnit::Years, 10),
    ];
    for (unit, ceiling) in ceilings {
        assert_eq!(unit.max_amount(), ceiling);
        assert_eq!(Recurrence::new(0, unit), None);
        assert_eq!(Recurrence::new(1, unit), Some(Recurrence { amount: 1, unit }));
        assert_eq!(
            Recurrence::new(ceiling - 1, unit),
            Some(Recurrence { amount: ceiling - 1, unit })
        );
        assert_eq!(Recurrence::new(ceiling, unit), None);
        assert_eq!(Recurrence::new(255, unit), None);
    }
}

#[test]
fn unit_from_its_number() {
    assert_eq!(RecurrenceUnit::try_from(1u8), Ok(RecurrenceUnit::Minutes));
    assert_eq!(RecurrenceUnit::try_from(2u8), Ok(RecurrenceUnit::Hours));
    assert_eq!(RecurrenceUnit::try_from(3u8), Ok(RecurrenceUnit::Days));
    assert_eq!(RecurrenceUnit::try_from(4u8), Ok(RecurrenceUnit::Weeks));
    assert_eq!(RecurrenceUnit::try_from(5u8), Ok(RecurrenceUnit::Months));
    assert_eq!(RecurrenceUnit::try_from(6u8), Ok(RecurrenceUnit::Years));
    assert_eq!(RecurrenceUnit::try_from(0u8), Err(RecurrenceUnitParseError(0)));
    assert_eq!(RecurrenceUnit::try_from(7u8), Err(RecurrenceUnitParseError(7)));
    assert_eq!(RecurrenceUnit::Weeks.to_code(), 4);
    assert_eq!(RecurrenceUnit::Months.to_letter(), 'M');
    assert_eq!(RecurrenceUnit::from_letter('m'), Some(RecurrenceUnit::Minutes));
    assert_eq!(RecurrenceUnit::from_letter('x'), None);
    assert!(RecurrenceUnit::Minutes < RecurrenceUnit::Years);
}

#[test]
fn recurrence_is_stored_as_low_and_high_byte() {
    let weekly = Recurrence { amount: 2, unit: RecurrenceUnit::Weeks };
    assert_eq!(weekly.encode(), i32::from_le_bytes([2, 0, 0, 4]));
    assert_eq!(weekly.encode(), 0x0400_0002);
    assert_eq!(Recurrence::decode(0x0400_0002), Ok(weekly));
    assert_eq!(Recurrence::decode(0x04ab_cd02), Ok(weekly));
    assert_eq!(Recurrence::decode(2), Err(RecurrenceUnitParseError(0)));
    assert_eq!(Recurrence::decode(0x0700_0002), Err(RecurrenceUnitParseError(7)));
    assert_eq!(Recurrence::decode(-1), Err(RecurrenceUnitParseError(255)));
    assert_eq!(Recurrence::decode(i32::MIN), Err(RecurrenceUnitParseError(128)));
}

#[test]
fn stored_recurrence_reads_back() {
    for code in 1..=6u8 {
        let unit = RecurrenceUnit::try_from(code).unwrap();
        for amount in 0..=255u8 {
            let recurrence = Recurrence { amount, unit };
            assert_eq!(Recurrence::decode(recurrence.encode()), Ok(recurrence));
            assert_eq!(recurrence.encode().to_le_bytes(), [amount, 0, 0, code]);
        }
    }
}

#[test]
fn chat_id_from_its_number() {
    let id: ChatId = 42i64.into();
    assert_eq!(id, ChatId(42));
    assert_eq!(ChatId::from(-7).value(), -7);
}

#[test]
fn chrono_fields_carry_over() {
    let moment = NaiveDate::from_ymd_opt(2020, 2, 3).unwrap().and_hms_opt(4, 5, 6).unwrap();
    let ts = DueTimestamp::from_ymd_hms(
        moment.year(),
        moment.month(),
        moment.day(),
        moment.hour(),
        moment.minute(),
        moment.second(),
    )
    .unwrap();
    assert_eq!(naive(ts), moment);
}

#[test]
fn moment_is_stored_as_seconds_since_the_epoch() {
    assert_eq!(DueTimestamp::from_ymd_hms(1970, 1, 1, 0, 0, 0).unwrap().timestamp(), 0);
    assert_eq!(DueTimestamp::from_ymd_hms(1970, 1, 1, 0, 1, 1).unwrap().timestamp(), 61);
    assert_eq!(DueTimestamp::from_ymd_hms(1969, 12, 31, 23, 59, 59).unwrap().timestamp(), -1);
    assert_eq!(at(2020, 2, 3, 23, 59).timestamp(), 1580774340);
    assert_eq!(at(2001, 9, 9, 1, 46).timestamp(), 999999960);
    for ts in [at(2020, 2, 29, 12, 0), at(1, 1, 1, 0, 0), at(9999, 12, 31, 23, 59), at(-100, 3, 4, 5, 6)] {
        assert_eq!(ts.timestamp(), naive(ts).and_utc().timestamp());
    }
}

#[test]
fn stored_moment_reads_back() {
    assert_eq!(DueTimestamp::from_timestamp(0), DueTimestamp::from_ymd_hms(1970, 1, 1, 0, 0, 0));
    assert_eq!(DueTimestamp::from_timestamp(1580774340), Some(at(2020, 2, 3, 23, 59)));
    assert_eq!(DueTimestamp::from_timestamp(-1), DueTimestamp::from_ymd_hms(1969, 12, 31, 23, 59, 59));
    assert_eq!(DueTimestamp::from_timestamp(i64::MAX), None);
    assert_eq!(DueTimestamp::from_timestamp(i64::MIN), None);
    for ts in [at(2020, 2, 29, 12, 0), at(1, 1, 1, 0, 0), at(9999, 12, 31, 23, 59), at(1969, 7, 20, 20, 17)] {
        assert_eq!(DueTimestamp::from_timestamp(ts.timestamp()), Some(ts));
    }
}

#[test]
fn earlier_moments_are_stored_as_lesser_numbers() {
    let moments = [at(1969, 12, 31, 23, 59), at(1970, 1, 1, 0, 0), at(2020, 2, 3, 0, 0), at(2020, 2, 3, 0, 1), at(2021, 1, 1, 0, 0)];
    for a in moments {
        for b in moments {
            assert_eq!(a.is_before(&b), a.timestamp() < b.timestamp());
        }
    }
}

fn days_in_month(year: i32, month: u32) -> u32 {
    let leap = year.rem_euclid(4) == 0 && (year.rem_euclid(100) != 0 || year.rem_euclid(400) == 0);
    match month {
        2 if leap => 29,
        2 => 28,
        4 | 6 | 9 | 11 => 30,
        _ => 31,
    }
}

#[test]
fn days_exist_by_the_gregorian_rule() {
    let years = (-2001..=2401).chain([MIN_YEAR, MIN_YEAR + 1, MAX_YEAR - 1, MAX_YEAR]);
    for year in years {
        for month in 0..=13u32 {
            for day in [0u32, 1, 27, 28, 29, 30, 31, 32] {
                let exists = (1..=12).contains(&month) && 1 <= day && day <= days_in_month(year, month);
                assert_eq!(
                    DueTimestamp::from_ymd_hms(year, month, day, 0, 0, 0).is_some(),
                    exists,
                    "{}-{}-{}",
                    year,
                    month,
                    day
                );
            }
        }
    }
}

#[test]
fn times_exist_below_their_bounds() {
    for hour in 0..=25u32 {
        for minute in [0u32, 1, 30, 59, 60, 61, 100] {
            for second in [0u32, 1, 59, 60, 61] {
                assert_eq!(
                    DueTimestamp::from_ymd_hms(2020, 1, 1, hour, minute, second).is_some(),
                    hour < 24 && minute < 60 && second < 60
                );
            }
        }
    }
    assert!(DueTimestamp::from_ymd_hms(2020, 1, 1, u32::MAX, 0, 0).is_none());
    assert!(DueTimestamp::from_ymd_hms(2020, u32::MAX, 1, 0, 0, 0).is_none());
    assert!(DueTimestamp::from_ymd_hms(i32::MAX, 1, 1, 0, 0, 0).is_none());
    assert!(DueTimestamp::from_ymd_hms(i32::MIN, 1, 1, 0, 0, 0).is_none());
}

#[test]
fn months_and_years_advance_by_the_calendar() {
    for year in [1999, 2000, 2019, 2020] {
        for month in 1..=12u32 {
            for day in [1u32, 28, 29, 30, 31] {
                let Some(from) = DueTimestamp::from_ymd_hms(year, month, day, 13, 37, 0) else {
                    continue;
                };
                for amount in 1..64u8 {
                    let to = (Recurrence { amount, unit: RecurrenceUnit::Months }).advance(from);
                    let total = month - 1 + amount as u32;
                    let (to_year, to_month) = (year + (total / 12) as i32, total % 12 + 1);
                    assert_eq!((to.year(), to.month()), (to_year, to_month));
                    assert_eq!(to.day(), day.min(days_in_month(to_year, to_month)));
                    assert_eq!((to.hour(), to.minute(), to.second()), (13, 37, 0));
                }
                for amount in 1..10u8 {
                    let to = (Recurrence { amount, unit: RecurrenceUnit::Years }).advance(from);
                    assert_eq!((to.year(), to.month()), (year + amount as i32, month));
                    assert_eq!(to.day(), day.min(days_in_month(year + amount as i32, month)));
                }
            }
        }
    }
}
