use world_sim::{Filler, UNIT};

#[test]
fn fill_rises_by_rate_inside_bounds() {
    let f = Filler::new(2 * UNIT, 500_000, 10 * UNIT).fill();
    assert_eq!(f.amount(), 2_500_000);
    assert_eq!(f.rate(), 500_000);
    assert_eq!(f.max(), 10 * UNIT);
}

#[test]
fn fill_stops_at_bound_when_rising() {
    let f = Filler::new(9_900_000, 500_000, 10 * UNIT).fill();
    assert_eq!(f.amount(), 10 * UNIT);
}

#[test]
fn fill_stops_at_zero_when_falling() {
    let f = Filler::new(300, -1000, 10 * UNIT).fill();
    assert_eq!(f.amount(), 0);
}

#[test]
fn fill_leaves_saturated_value_alone() {
    let full = Filler::new(10 * UNIT, 1000, 10 * UNIT);
    assert_eq!(full.fill(), full);
    let empty = Filler::new(0, -1000, 10 * UNIT);
    assert_eq!(empty.fill(), empty);
}

#[test]
fn fill_keeps_in_bounds_values_in_bounds() {
    for &(amount, rate) in &[(0, 7_000_000), (5 * UNIT, -9 * UNIT), (10 * UNIT, -1), (3, 0)] {
        let f = Filler::new(amount, rate, 10 * UNIT).fill();
        assert!(0 <= f.amount() && f.amount() <= f.max());
    }
}

#[test]
fn fill_shrinks_overflow_gradually() {
    let f = Filler::new(12 * UNIT, -1000, 10 * UNIT).fill();
    assert_eq!(f.amount(), 12 * UNIT - 1000);
}

#[test]
fn over_max_is_zero_within_bound() {
    assert_eq!(Filler::new(4 * UNIT, 0, 10 * UNIT).over_max(), 0);
    assert_eq!(Filler::new(10 * UNIT, 0, 10 * UNIT).over_max(), 0);
}

#[test]
fn over_max_is_excess_above_bound() {
    assert_eq!(Filler::new(13 * UNIT, 0, 10 * UNIT).over_max(), 3 * UNIT);
}

#[test]
fn is_empty_only_at_zero() {
    assert!(Filler::new(0, 5, 1).is_empty());
    assert!(!Filler::new(1, 5, 1).is_empty());
}

#[test]
fn setters_replace_one_field() {
    let f = Filler::new(1, 2, 3);
    assert_eq!(f.set(9), Filler::new(9, 2, 3));
    assert_eq!(f.set_rate(9), Filler::new(1, 9, 3));
    assert_eq!(f.set_max(9), Filler::new(1, 2, 9));
    assert_eq!(f.add_max(4), Filler::new(1, 2, 7));
}

#[test]
fn force_add_may_pass_bound() {
    let f = Filler::new(9 * UNIT, 0, 10 * UNIT).force_add(3 * UNIT);
    assert_eq!(f.amount(), 12 * UNIT);
}

#[test]
fn force_take_may_go_negative() {
    let f = Filler::new(UNIT, 0, 10 * UNIT).force_take(3 * UNIT);
    assert_eq!(f.amount(), -2 * UNIT);
}

#[test]
fn add_succeeds_when_it_fits() {
    let f = Filler::new(9 * UNIT, 0, 10 * UNIT).add(UNIT);
    assert_eq!(f, Ok(Filler::new(10 * UNIT, 0, 10 * UNIT)));
}

#[test]
fn add_reports_room_when_it_does_not_fit() {
    assert_eq!(Filler::new(9_500_000, 0, 10 * UNIT).add(UNIT), Err(500_000));
}

#[test]
fn take_succeeds_when_covered() {
    let f = Filler::new(10 * UNIT, 0, 10 * UNIT).take(10 * UNIT);
    assert_eq!(f, Ok(Filler::new(0, 0, 10 * UNIT)));
}

#[test]
fn take_reports_amount_when_short() {
    assert_eq!(Filler::new(9 * UNIT, 0, 10 * UNIT).take(10 * UNIT), Err(9 * UNIT));
}

#[test]
fn add_then_take_restores() {
    let s = Filler::new(3 * UNIT, 7, 10 * UNIT);
    let after = s.add(2 * UNIT).unwrap();
    assert_eq!(after.take(2 * UNIT), Ok(s));
}

#[test]
fn take_then_add_restores() {
    let s = Filler::new(3 * UNIT, 7, 10 * UNIT);
    let after = s.take(2 * UNIT).unwrap();
    assert_eq!(after.add(2 * UNIT), Ok(s));
}

#[test]
fn text_has_two_decimals() {
    assert_eq!(Filler::new(3_250_000, 0, 10 * UNIT).text(), "3.25/10.00");
    assert_eq!(Filler::new(-1_234_567, 0, 0).text(), "-1.23/0.00");
}

#[test]
fn text_rounds_to_nearest_hundredth() {
    assert_eq!(Filler::new(1_236_000, 0, 99_994_999).text(), "1.24/99.99");
    assert_eq!(Filler::new(5_000, 0, 15_000).text(), "0.00/0.02");
    assert_eq!(Filler::new(1_995_000, 0, 123_456_789_000).text(), "2.00/123456.79");
}

#[test]
fn fill_with_extreme_rates_stays_in_bounds() {
    assert_eq!(Filler::new(5, i64::MAX, 10).fill().amount(), 10);
    assert_eq!(Filler::new(5, i64::MIN, 10).fill().amount(), 0);
}
