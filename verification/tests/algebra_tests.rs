use relativedelta::RelativeDelta;

#[test]
fn test_add_self() {
    let lhs = RelativeDelta::with_years(1).build();
    let rhs = RelativeDelta::with_years(2).build();

    assert_eq!(lhs.add(&rhs), RelativeDelta::with_years(3).build());
    assert_eq!(lhs.add(&rhs), rhs.add(&lhs));
}

#[test]
fn test_negate() {
    let rd = RelativeDelta::with_year(2020).and_years(1).build();
    let negated = rd.negated();
    assert_eq!(negated.year, Some(2020));
    assert_eq!(negated.years, -1);
}

#[test]
fn test_add_drops_overrides() {
    let lhs = RelativeDelta::yysmmsdds(Some(2020), -4, Some(1), 3, None, 0).build();
    let rhs = RelativeDelta::yysmmsdds(Some(2020), 1, Some(1), 42, None, 0).build();
    assert_eq!(
        lhs.add(&rhs),
        RelativeDelta::with_years(-3).and_months(45).build()
    );
    assert_eq!(
        lhs.sub(&rhs),
        RelativeDelta::with_years(-5).and_months(-39).build()
    );
    assert_eq!(
        lhs.negated().add(&rhs),
        RelativeDelta::with_years(5).and_months(39).build()
    );
    let sum = lhs.add(&rhs);
    assert_eq!(sum.year, None);
    assert_eq!(sum.month, None);
}

#[test]
fn test_negate_keeps_all_relative_fields() {
    let rd = RelativeDelta::with_years(1)
        .and_months(2)
        .and_days(3)
        .and_hours(4)
        .and_minutes(5)
        .and_seconds(6)
        .and_nanoseconds(7)
        .build();
    let negated = rd.negated();
    assert_eq!(negated.years, -1);
    assert_eq!(negated.months, -2);
    assert_eq!(negated.days, -3);
    assert_eq!(negated.hours, -4);
    assert_eq!(negated.minutes, -5);
    assert_eq!(negated.seconds, -6);
    assert_eq!(negated.nanoseconds, -7);
    assert_eq!(negated.negated(), rd);
}

#[test]
fn test_sub_is_not_commutative() {
    let lhs = RelativeDelta::with_years(1).build();
    let rhs = RelativeDelta::with_months(6).build();
    let forward = lhs.sub(&rhs);
    let backward = rhs.sub(&lhs);
    assert_eq!(forward.negated(), backward);
    assert_eq!(forward.months, -6);
    assert_eq!(forward.years, 1);
}
