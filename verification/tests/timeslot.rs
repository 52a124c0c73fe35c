use chrono::{Datelike, NaiveTime, TimeZone, Timelike, Utc};
use timetableau::{ActiveDay, Period, RangedUsize, TimeOfDay, TimeSlot, Week, Weekday};

/// Reduces a chrono time to the library's hour-and-minute time of day.
fn time_of_day(time: NaiveTime) -> TimeOfDay {
    TimeOfDay::new(time.hour() as u8, time.minute() as u8).unwrap()
}

/// Converts a chrono weekday to the library's calendar weekday.
fn weekday(day: chrono::Weekday) -> Weekday {
    match day {
        chrono::Weekday::Mon => Weekday::Monday,
        chrono::Weekday::Tue => Weekday::Tuesday,
        chrono::Weekday::Wed => Weekday::Wednesday,
        chrono::Weekday::Thu => Weekday::Thursday,
        chrono::Weekday::Fri => Weekday::Friday,
        chrono::Weekday::Sat => Weekday::Saturday,
        chrono::Weekday::Sun => Weekday::Sunday,
    }
}

#[test]
fn period_valid() {
    let period = Period::from_time(time_of_day(NaiveTime::from_hms_opt(12, 40, 23).unwrap()));

    assert_eq!(period, Some(Period::Fourth))
}

#[test]
fn period_boundary() {
    let period_lower = Period::from_time(time_of_day(NaiveTime::from_hms_opt(8, 50, 22).unwrap()));

    let period_upper =
        Period::from_time(time_of_day(NaiveTime::from_hms_opt(14, 54, 45).unwrap()));

    assert_eq!(period_lower, Some(Period::First));
    assert_eq!(period_upper, Some(Period::Fifth));
}

#[test]
fn period_invalid() {
    let period = Period::from_time(time_of_day(NaiveTime::from_hms_opt(8, 24, 59).unwrap()));

    assert_eq!(period, None);
}

#[test]
fn timeslot_index_valid() {
    let timeslot = TimeSlot::with_index(RangedUsize::new(23).unwrap());

    assert_eq!(timeslot.week, Week::One);
    assert_eq!(timeslot.day, ActiveDay::Wednesday);
    assert_eq!(timeslot.period, Period::Fifth);
    assert_eq!(timeslot.index(), 23);
}

#[test]
fn timeslot_index_boundary() {
    let timeslot_lower = TimeSlot::with_index(RangedUsize::new(0).unwrap());

    let timeslot_upper = TimeSlot::with_index(RangedUsize::new(79).unwrap());

    assert_eq!(timeslot_lower.week, Week::One);
    assert_eq!(timeslot_lower.day, ActiveDay::Monday);
    assert_eq!(timeslot_lower.period, Period::Tutor);
    assert_eq!(timeslot_lower.index(), 0);

    assert_eq!(timeslot_upper.week, Week::Two);
    assert_eq!(timeslot_upper.day, ActiveDay::Friday);
    assert_eq!(timeslot_upper.period, Period::Fifth);
    assert_eq!(timeslot_upper.index(), 79);
}

#[test]
fn timeslot_time_valid() {
    let datetime = Utc.with_ymd_and_hms(2023, 1, 2, 10, 30, 10).unwrap();
    let timeslot = TimeSlot::from_datetime(
        Week::Two,
        weekday(datetime.weekday()),
        time_of_day(datetime.time()),
    );

    assert_eq!(
        timeslot,
        Some(TimeSlot {
            week: Week::Two,
            day: ActiveDay::Monday,
            period: Period::Second
        })
    );
}

#[test]
fn timeslot_time_boundary() {
    let datetime_lower = Utc.with_ymd_and_hms(2023, 1, 2, 8, 25, 0).unwrap();
    let timeslot_lower = TimeSlot::from_datetime(
        Week::One,
        weekday(datetime_lower.weekday()),
        time_of_day(datetime_lower.time()),
    );

    let datetime_upper = Utc.with_ymd_and_hms(2023, 1, 13, 14, 54, 59).unwrap();
    let timeslot_upper = TimeSlot::from_datetime(
        Week::Two,
        weekday(datetime_upper.weekday()),
        time_of_day(datetime_upper.time()),
    );

    assert_eq!(
        timeslot_lower,
        Some(TimeSlot::with_index(RangedUsize::new(0).unwrap()))
    );
    assert_eq!(
        timeslot_upper,
        Some(TimeSlot::with_index(RangedUsize::new(79).unwrap()))
    );
}

#[test]
fn timeslot_time_invalid() {
    let datetime = Utc.with_ymd_and_hms(2023, 1, 1, 8, 50, 0).unwrap();
    let timeslot = TimeSlot::from_datetime(
        Week::One,
        weekday(datetime.weekday()),
        time_of_day(datetime.time()),
    );

    assert_eq!(timeslot, None);
}

#[test]
fn timeslot_macro_valid() {
    let timeslot = timetableau::notation::decode("W2RP3").unwrap();

    assert_eq!(timeslot.week, Week::Two);
    assert_eq!(timeslot.day, ActiveDay::Thursday);
    assert_eq!(timeslot.period, Period::Third);
}

#[test]
fn index_round_trip_every_slot() {
    for i in 0..80 {
        let timeslot = TimeSlot::with_index(RangedUsize::new(i).unwrap());
        assert_eq!(timeslot.index(), i);
    }
}

#[test]
fn first_index_is_week_one_monday_tutor() {
    let timeslot = TimeSlot::with_index(RangedUsize::new(0).unwrap());
    assert_eq!(
        timeslot,
        TimeSlot {
            week: Week::One,
            day: ActiveDay::Monday,
            period: Period::Tutor
        }
    );
}

#[test]
fn last_index_is_week_two_friday_fifth() {
    let timeslot = TimeSlot::with_index(RangedUsize::new(79).unwrap());
    assert_eq!(
        timeslot,
        TimeSlot {
            week: Week::Two,
            day: ActiveDay::Friday,
            period: Period::Fifth
        }
    );
}

#[test]
fn classifier_end_minute_belongs_to_next_period() {
    // 09:50 is the end of the first period and the start of the second: the
    // end minute is excluded, so it classifies to the second period.
    let at_end = Period::from_time(TimeOfDay::new(9, 50).unwrap());
    assert_eq!(at_end, Some(Period::Second));
    assert_ne!(at_end, Some(Period::First));

    // The same at every internal boundary of the day.
    let boundaries = [
        (8, 50, Period::First),
        (9, 50, Period::Second),
        (10, 50, Period::Break),
        (11, 10, Period::Third),
        (12, 10, Period::Fourth),
        (13, 10, Period::Lunch),
        (13, 55, Period::Fifth),
    ];
    for (hour, minute, next) in boundaries {
        let classified = Period::from_time(TimeOfDay::new(hour, minute).unwrap());
        assert_eq!(classified, Some(next));
    }

    // After the end of the last period nothing is scheduled.
    assert_eq!(Period::from_time(TimeOfDay::new(14, 55).unwrap()), None);
}

#[test]
fn classifier_first_minute_of_day() {
    assert_eq!(
        Period::from_time(TimeOfDay::new(8, 25).unwrap()),
        Some(Period::Tutor)
    );
    assert_eq!(Period::from_time(TimeOfDay::new(8, 24).unwrap()), None);
}

#[test]
fn classifier_twelve_forty_is_fourth() {
    assert_eq!(
        Period::from_time(TimeOfDay::new(12, 40).unwrap()),
        Some(Period::Fourth)
    );
}

#[test]
fn classifier_nine_fifty_is_second() {
    assert_eq!(
        Period::from_time(TimeOfDay::new(9, 50).unwrap()),
        Some(Period::Second)
    );
}

#[test]
fn from_weekday_fails_for_weekend() {
    assert_eq!(ActiveDay::from_weekday(Weekday::Saturday), None);
    assert_eq!(ActiveDay::from_weekday(Weekday::Sunday), None);
    assert_eq!(
        ActiveDay::from_weekday(Weekday::Monday),
        Some(ActiveDay::Monday)
    );
    assert_eq!(
        ActiveDay::from_weekday(Weekday::Friday),
        Some(ActiveDay::Friday)
    );
}

#[test]
fn saturday_never_resolves() {
    let timeslot =
        TimeSlot::from_datetime(Week::One, Weekday::Saturday, TimeOfDay::new(10, 0).unwrap());
    assert_eq!(timeslot, None);
}

#[test]
fn weekday_conversion_round_trip() {
    let days = [
        ActiveDay::Monday,
        ActiveDay::Tuesday,
        ActiveDay::Wednesday,
        ActiveDay::Thursday,
        ActiveDay::Friday,
    ];
    for day in days {
        assert_eq!(ActiveDay::from_weekday(day.to_weekday()), Some(day));
    }
}

#[test]
fn active_day_ordinals() {
    assert_eq!(ActiveDay::Monday.num_days_from_monday(), 0);
    assert_eq!(ActiveDay::Friday.num_days_from_monday(), 4);
    assert_eq!(ActiveDay::from_ordinal(2), Some(ActiveDay::Wednesday));
    assert_eq!(ActiveDay::from_ordinal(5), None);
    assert_eq!(ActiveDay::from_u64(3), Some(ActiveDay::Thursday));
    assert_eq!(ActiveDay::from_u64(7), None);
    assert_eq!(ActiveDay::from_i64(1), Some(ActiveDay::Tuesday));
    assert_eq!(ActiveDay::from_i64(-1), None);
}

#[test]
fn time_of_day_validation() {
    assert!(TimeOfDay::new(23, 59).is_some());
    assert!(TimeOfDay::new(0, 0).is_some());
    assert!(TimeOfDay::new(24, 0).is_none());
    assert!(TimeOfDay::new(12, 60).is_none());
    let time = TimeOfDay::new(12, 40).unwrap();
    assert_eq!(time.hour(), 12);
    assert_eq!(time.minute(), 40);
    assert_eq!(time.minutes_from_midnight(), 760);
}

#[test]
fn week_ordinals() {
    assert_eq!(Week::One.to_ordinal(), 0);
    assert_eq!(Week::Two.to_ordinal(), 1);
    assert_eq!(Week::from_ordinal(0), Some(Week::One));
    assert_eq!(Week::from_ordinal(1), Some(Week::Two));
    assert_eq!(Week::from_ordinal(2), None);
}

#[test]
fn period_ordinals() {
    assert_eq!(Period::Tutor.to_ordinal(), 0);
    assert_eq!(Period::Fifth.to_ordinal(), 7);
    assert_eq!(Period::from_ordinal(3), Some(Period::Break));
    assert_eq!(Period::from_ordinal(6), Some(Period::Lunch));
    assert_eq!(Period::from_ordinal(8), None);
}

#[test]
fn sunday_never_resolves() {
    let timeslot =
        TimeSlot::from_datetime(Week::Two, Weekday::Sunday, TimeOfDay::new(12, 30).unwrap());
    assert_eq!(timeslot, None);
}
