use relativedelta::CivilDateTime;
use relativedelta::RelativeDelta;
use relativedelta::Weekday;

fn ymd_hms(year: i32, month: u8, day: u8, hour: u8, minute: u8, second: u8) -> CivilDateTime {
    CivilDateTime::new(year, month, day, hour, minute, second, 0).expect("valid date-time")
}

#[test]
fn chrono_impl_test_add() {
    let year = 2020;
    let month = 4;
    let day = 28;
    let hour = 12;
    let min = 35;
    let sec = 48;
    let dt = ymd_hms(year, month, day, hour, min, sec);

    let add_1_year = RelativeDelta::with_years(1).build();
    assert_eq!(add_1_year.add_to(&dt), Some(ymd_hms(2021, month, day, hour, min, sec)));

    let sub_1_year = RelativeDelta::with_years(-1).build();
    assert_eq!(sub_1_year.add_to(&dt), Some(ymd_hms(2019, month, day, hour, min, sec)));

    let set_year = RelativeDelta::with_year(2010).build();
    assert_eq!(set_year.add_to(&dt), Some(ymd_hms(2010, month, day, hour, min, sec)));

    let set_year = RelativeDelta::with_year(-1).build();
    assert_eq!(set_year.add_to(&dt), Some(ymd_hms(-1, month, day, hour, min, sec)));

    let add_69_months = RelativeDelta::with_months(69).build();
    // Expected after normalization
    assert_eq!(add_69_months.years(), 5);
    assert_eq!(add_69_months.months(), 9);
    assert_eq!(add_69_months.add_to(&dt), Some(ymd_hms(2026, 1, day, hour, min, sec)));

    let sub_6_months = RelativeDelta::with_months(-6).build();
    assert_eq!(sub_6_months.add_to(&dt), Some(ymd_hms(2019, 10, day, hour, min, sec)));

    let sub_47_months = RelativeDelta::with_months(-47).build();
    // Expected after normalization
    assert_eq!(sub_47_months.years(), -3);
    assert_eq!(sub_47_months.months(), -11);
    assert_eq!(sub_47_months.add_to(&dt), Some(ymd_hms(2016, 5, day, hour, min, sec)));

    let add_400_days = RelativeDelta::with_days(400).build();
    assert_eq!(add_400_days.add_to(&dt), Some(ymd_hms(2021, 6, 2, hour, min, sec)));

    let sub_400_days = RelativeDelta::with_days(-400).build();
    assert_eq!(sub_400_days.add_to(&dt), Some(ymd_hms(2019, 3, 25, hour, min, sec)));

    let monday = RelativeDelta::with_years(1)
        .and_weekday(Some((Weekday::Mon, 1)))
        .build();
    assert_eq!(monday.add_to(&dt), Some(ymd_hms(2021, 5, 3, hour, min, sec)));

    let monday = RelativeDelta::with_years(1)
        .and_weekday(Some((Weekday::Mon, -1)))
        .build();
    assert_eq!(monday.add_to(&dt), Some(ymd_hms(2021, 4, 26, hour, min, sec)));

    let pay1 = RelativeDelta::with_day(1)
        .and_days(-1)
        .and_month(Some(3))
        .and_months(1)
        .build();
    assert_eq!(pay1.add_to(&dt), Some(ymd_hms(2020, 3, 31, hour, min, sec)));

    let pay2 = RelativeDelta::with_day(1)
        .and_days(-1)
        .and_month(Some(6))
        .and_months(1)
        .build();
    assert_eq!(pay2.add_to(&dt), Some(ymd_hms(2020, 6, 30, hour, min, sec)));

    let pay3 = RelativeDelta::with_day(1)
        .and_days(-1)
        .and_month(Some(9))
        .and_months(1)
        .build();
    assert_eq!(pay3.add_to(&dt), Some(ymd_hms(2020, 9, 30, hour, min, sec)));

    let pay4 = RelativeDelta::with_day(1)
        .and_days(-1)
        .and_month(Some(12))
        .and_months(1)
        .build();
    assert_eq!(pay4.add_to(&dt), Some(ymd_hms(2020, 12, 31, hour, min, sec)));
}

#[test]
fn time_impl_test_add() {
    let year = 2020;
    let month = 4;
    let day = 28;
    let hour = 12;
    let min = 35;
    let sec = 48;
    let dt = ymd_hms(year, month, day, hour, min, sec);

    let add_1_year = RelativeDelta::with_years(1).build();
    assert_eq!(add_1_year.add_to(&dt), Some(ymd_hms(2021, month, day, hour, min, sec)));

    let sub_1_year = RelativeDelta::with_years(-1).build();
    assert_eq!(sub_1_year.add_to(&dt), Some(ymd_hms(2019, month, day, hour, min, sec)));

    let set_year = RelativeDelta::with_year(2010).build();
    assert_eq!(set_year.add_to(&dt), Some(ymd_hms(2010, month, day, hour, min, sec)));

    let set_year = RelativeDelta::with_year(-1).build();
    assert_eq!(set_year.add_to(&dt), Some(ymd_hms(-1, month, day, hour, min, sec)));

    let add_69_months = RelativeDelta::with_months(69).build();
    assert_eq!(add_69_months.years(), 5);
    assert_eq!(add_69_months.months(), 9);
    assert_eq!(add_69_months.add_to(&dt), Some(ymd_hms(2026, 1, day, hour, min, sec)));

    let sub_6_months = RelativeDelta::with_months(-6).build();
    assert_eq!(sub_6_months.add_to(&dt), Some(ymd_hms(2019, 10, day, hour, min, sec)));

    let sub_47_months = RelativeDelta::with_months(-47).build();
    assert_eq!(sub_47_months.years(), -3);
    assert_eq!(sub_47_months.months(), -11);
    assert_eq!(sub_47_months.add_to(&dt), Some(ymd_hms(2016, 5, day, hour, min, sec)));

    let add_400_days = RelativeDelta::with_days(400).build();
    assert_eq!(add_400_days.add_to(&dt), Some(ymd_hms(2021, 6, 2, hour, min, sec)));

    let sub_400_days = RelativeDelta::with_days(-400).build();
    assert_eq!(sub_400_days.add_to(&dt), Some(ymd_hms(2019, 3, 25, hour, min, sec)));

    let monday = RelativeDelta::with_years(1)
        .and_weekday(Some((Weekday::Mon, 1)))
        .build();
    assert_eq!(monday.add_to(&dt), Some(ymd_hms(2021, 5, 3, hour, min, sec)));

    let monday = RelativeDelta::with_years(1)
        .and_weekday(Some((Weekday::Mon, -1)))
        .build();
    assert_eq!(monday.add_to(&dt), Some(ymd_hms(2021, 4, 26, hour, min, sec)));

    let pay1 = RelativeDelta::with_day(1)
        .and_days(-1)
        .and_month(Some(3))
        .and_months(1)
        .build();
    assert_eq!(pay1.add_to(&dt), Some(ymd_hms(2020, 3, 31, hour, min, sec)));

    let pay2 = RelativeDelta::with_day(1)
        .and_days(-1)
        .and_month(Some(6))
        .and_months(1)
        .build();
    assert_eq!(pay2.add_to(&dt), Some(ymd_hms(2020, 6, 30, hour, min, sec)));

    let pay3 = RelativeDelta::with_day(1)
        .and_days(-1)
        .and_month(Some(9))
        .and_months(1)
        .build();
    assert_eq!(pay3.add_to(&dt), Some(ymd_hms(2020, 9, 30, hour, min, sec)));

    let pay4 = RelativeDelta::with_day(1)
        .and_days(-1)
        .and_month(Some(12))
        .and_months(1)
        .build();
    assert_eq!(pay4.add_to(&dt), Some(ymd_hms(2020, 12, 31, hour, min, sec)));
}

#[test]
fn chrono_impl_test_sub() {
    let year = 2020;
    let month = 4;
    let day = 28;
    let hour = 12;
    let min = 35;
    let sec = 48;
    let dt = ymd_hms(year, month, day, hour, min, sec);

    let sub_1_year = RelativeDelta::with_years(1).build();
    assert_eq!(sub_1_year.sub_from(&dt), Some(ymd_hms(2019, month, day, hour, min, sec)));

    let add_1_year = RelativeDelta::with_years(-1).build();
    assert_eq!(add_1_year.sub_from(&dt), Some(ymd_hms(2021, month, day, hour, min, sec)));

    let set_year = RelativeDelta::with_year(2010).build();
    assert_eq!(set_year.sub_from(&dt), Some(ymd_hms(2010, month, day, hour, min, sec)));

    let set_year = RelativeDelta::with_year(-1).build();
    assert_eq!(set_year.sub_from(&dt), Some(ymd_hms(-1, month, day, hour, min, sec)));

    let sub_6_months = RelativeDelta::with_months(-6).build();
    assert_eq!(sub_6_months.sub_from(&dt), Some(ymd_hms(2020, 10, day, hour, min, sec)));

    let sub_47_months = RelativeDelta::with_months(-47).build();
    assert_eq!(sub_47_months.sub_from(&dt), Some(ymd_hms(2024, 3, day, hour, min, sec)));
}

#[test]
fn time_impl_test_sub() {
    let year = 2020;
    let month = 4;
    let day = 28;
    let hour = 12;
    let min = 35;
    let sec = 48;
    let dt = ymd_hms(year, month, day, hour, min, sec);

    let sub_1_year = RelativeDelta::with_years(1).build();
    assert_eq!(sub_1_year.sub_from(&dt), Some(ymd_hms(2019, month, day, hour, min, sec)));

    let add_1_year = RelativeDelta::with_years(-1).build();
    assert_eq!(add_1_year.sub_from(&dt), Some(ymd_hms(2021, month, day, hour, min, sec)));

    let set_year = RelativeDelta::with_year(2010).build();
    assert_eq!(set_year.sub_from(&dt), Some(ymd_hms(2010, month, day, hour, min, sec)));

    let set_year = RelativeDelta::with_year(-1).build();
    assert_eq!(set_year.sub_from(&dt), Some(ymd_hms(-1, month, day, hour, min, sec)));

    let sub_6_months = RelativeDelta::with_months(-6).build();
    assert_eq!(sub_6_months.sub_from(&dt), Some(ymd_hms(2020, 10, day, hour, min, sec)));

    let sub_47_months = RelativeDelta::with_months(-47).build();
    assert_eq!(sub_47_months.sub_from(&dt), Some(ymd_hms(2024, 3, day, hour, min, sec)));
}

#[test]
fn test_time_of_day_carries_into_days() {
    let dt = ymd_hms(2020, 12, 31, 23, 59, 59);
    let one_second = RelativeDelta::with_seconds(1).build();
    assert_eq!(one_second.add_to(&dt), Some(ymd_hms(2021, 1, 1, 0, 0, 0)));

    let back_one_minute = RelativeDelta::with_minutes(-60).build();
    assert_eq!(
        back_one_minute.add_to(&ymd_hms(2020, 3, 1, 0, 30, 0)),
        Some(ymd_hms(2020, 2, 29, 23, 30, 0))
    );
}

#[test]
fn test_apply_out_of_range_is_none() {
    let dt = ymd_hms(2020, 4, 28, 12, 35, 48);
    let far_future = RelativeDelta::with_years(8000).build();
    assert_eq!(far_future.add_to(&dt), None);
    let far_past = RelativeDelta::with_days(-100_000_000).build();
    assert_eq!(far_past.add_to(&dt), None);
}

#[test]
fn test_weekday_backward_two_fridays() {
    // 2020-04-28 is a Tuesday; the most recent Friday at-or-before it is
    // 2020-04-24, and one more week back is 2020-04-17.
    let dt = ymd_hms(2020, 4, 28, 0, 0, 0);
    let two_fridays_back = RelativeDelta::with_weekday(Weekday::Fri, -2).build();
    assert_eq!(two_fridays_back.add_to(&dt), Some(ymd_hms(2020, 4, 17, 0, 0, 0)));
}
