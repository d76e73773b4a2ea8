use relativedelta::CivilDateTime;
use relativedelta::FromError;
use relativedelta::RelativeDelta;

#[test]
fn chrono_impl_test_try_from() {
    let rddt = RelativeDelta::with_year(2020)
        .and_month(Some(4))
        .and_day(Some(28))
        .and_hour(Some(12))
        .and_minute(Some(35))
        .and_second(Some(48))
        .build();

    let naive_dt = rddt.try_to_datetime().expect("conversion succeeds");

    assert_eq!(naive_dt.year, 2020);
    assert_eq!(naive_dt.month, 4);
    assert_eq!(naive_dt.day, 28);
    assert_eq!(naive_dt.hour, 12);
    assert_eq!(naive_dt.minute, 35);
    assert_eq!(naive_dt.second, 48);
}

#[test]
fn time_impl_test_try_from() {
    let rddt = RelativeDelta::with_year(2020)
        .and_month(Some(4))
        .and_day(Some(28))
        .and_hour(Some(12))
        .and_minute(Some(35))
        .and_second(Some(48))
        .build();

    let naive_dt = rddt.try_to_datetime().expect("Failed to convert");

    assert_eq!(naive_dt.year, 2020);
    assert_eq!(naive_dt.month, 4);
    assert_eq!(naive_dt.day, 28);
    assert_eq!(naive_dt.hour, 12);
    assert_eq!(naive_dt.minute, 35);
    assert_eq!(naive_dt.second, 48);
}

#[test]
fn test_try_from_missing_fields() {
    let no_year = RelativeDelta::with_month(4).and_day(Some(28)).build();
    assert_eq!(no_year.try_to_datetime(), Err(FromError::MissingYear));

    let no_month = RelativeDelta::with_year(2020).and_day(Some(28)).build();
    assert_eq!(no_month.try_to_datetime(), Err(FromError::MissingMonth));

    let no_day = RelativeDelta::with_year(2020).and_month(Some(4)).build();
    assert_eq!(no_day.try_to_datetime(), Err(FromError::MissingDay));
}

#[test]
fn test_try_from_year_out_of_range() {
    // A year that cannot be narrowed to the date-time's year type is
    // reported like a missing year.
    let far = RelativeDelta::with_year(5_000_000_000)
        .and_month(Some(1))
        .and_day(Some(1))
        .build();
    assert_eq!(far.try_to_datetime(), Err(FromError::MissingYear));
}

#[test]
fn test_civil_datetime_rejects_invalid_fields() {
    assert!(CivilDateTime::new(2021, 2, 29, 0, 0, 0, 0).is_none());
    assert!(CivilDateTime::new(2020, 13, 1, 0, 0, 0, 0).is_none());
    assert!(CivilDateTime::new(2020, 2, 29, 24, 0, 0, 0).is_none());
    assert!(CivilDateTime::new(2020, 2, 29, 0, 0, 0, 0).is_some());
}

#[test]
fn test_try_from_invalid_date() {
    // Day 30 passes the per-field range check but does not exist in
    // February.
    let feb_30 = RelativeDelta::with_year(2021)
        .and_month(Some(2))
        .and_day(Some(30))
        .build();
    assert_eq!(feb_30.try_to_datetime(), Err(FromError::InvalidDateComponents));
}

#[test]
fn test_try_from_defaults_missing_time_to_zero() {
    let rd = RelativeDelta::with_year(1999)
        .and_month(Some(12))
        .and_day(Some(31))
        .build();
    let dt = rd.try_to_datetime().expect("conversion succeeds");
    assert_eq!(dt.year, 1999);
    assert_eq!(dt.month, 12);
    assert_eq!(dt.day, 31);
    assert_eq!(dt.hour, 0);
    assert_eq!(dt.minute, 0);
    assert_eq!(dt.second, 0);
    assert_eq!(dt.nanosecond, 0);
}

#[test]
fn test_round_trip_all_fields() {
    let rd = RelativeDelta::with_year(2020)
        .and_month(Some(4))
        .and_day(Some(28))
        .and_hour(Some(12))
        .and_minute(Some(35))
        .and_second(Some(48))
        .and_nanosecond(Some(123_456_789))
        .build();
    let dt = rd.try_to_datetime().expect("conversion succeeds");
    assert_eq!(dt.year, 2020);
    assert_eq!(dt.month, 4);
    assert_eq!(dt.day, 28);
    assert_eq!(dt.hour, 12);
    assert_eq!(dt.minute, 35);
    assert_eq!(dt.second, 48);
    assert_eq!(dt.nanosecond, 123_456_789);
}
