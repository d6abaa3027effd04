use exchange::price::{MinTicksize, Price, PRICE_SCALE};

fn whole(n: i64) -> Price {
    Price::from_units(n * PRICE_SCALE)
}

#[test]
fn rounding_goes_to_the_nearest_tick() {
    let tick = MinTicksize { units: 100 };
    assert_eq!(Price::from_units(1_234).round_to_min_tick(tick).units, 1_200);
    assert_eq!(Price::from_units(1_250).round_to_min_tick(tick).units, 1_300);
    assert_eq!(Price::from_units(1_299).round_to_min_tick(tick).units, 1_300);
    assert_eq!(Price::from_units(1_200).round_to_min_tick(tick).units, 1_200);
}

#[test]
fn rounding_of_negative_prices_goes_half_up() {
    let tick = MinTicksize { units: 100 };
    assert_eq!(Price::from_units(-1_250).round_to_min_tick(tick).units, -1_200);
    assert_eq!(Price::from_units(-1_251).round_to_min_tick(tick).units, -1_300);
    assert_eq!(Price::from_units(-1).round_to_min_tick(tick).units, 0);
}

#[test]
fn rounding_twice_is_rounding_once() {
    let ticks = [1i64, 2, 3, 7, 10, 100, 1_000, 12_345, PRICE_SCALE];
    let prices = [0i64, 1, -1, 49, 50, 51, -49, -50, -51, 999_999, 123_456_789_012, -987_654_321];
    for t in ticks {
        for p in prices {
            let tick = MinTicksize { units: t };
            let once = Price::from_units(p).round_to_min_tick(tick);
            let twice = once.round_to_min_tick(tick);
            assert_eq!(once, twice);
        }
    }
}

#[test]
fn rounding_at_the_ends_of_the_range_stays_a_multiple() {
    let tick = MinTicksize { units: 1_000 };
    let top = Price::from_units(i64::MAX).round_to_min_tick(tick);
    assert_eq!(top.units % 1_000, 0);
    assert_eq!(top.units, i64::MAX - i64::MAX % 1_000);
    let bottom = Price::from_units(i64::MIN).round_to_min_tick(tick);
    assert_eq!(bottom.units % 1_000, 0);
    assert_eq!(bottom.round_to_min_tick(tick), bottom);
}

#[test]
fn a_tick_of_one_unit_or_less_changes_nothing() {
    for t in [1i64, 0, -5] {
        let p = Price::from_units(123_456_789);
        assert_eq!(p.round_to_min_tick(MinTicksize { units: t }), p);
    }
}

#[test]
fn sums_saturate() {
    assert_eq!(whole(2).saturating_add(whole(3)), whole(5));
    assert_eq!(Price::from_units(i64::MAX).saturating_add(whole(1)).units, i64::MAX);
    assert_eq!(Price::from_units(i64::MIN).saturating_add(whole(-1)).units, i64::MIN);
}

#[test]
fn midpoint_is_the_average() {
    assert_eq!(whole(100).midpoint(whole(101)).units, 10_050_000_000);
    assert_eq!(Price::from_units(3).midpoint(Price::from_units(4)).units, 3);
    assert_eq!(Price::from_units(-3).midpoint(Price::from_units(-4)).units, -4);
    assert_eq!(Price::from_units(i64::MAX).midpoint(Price::from_units(i64::MAX)).units, i64::MAX);
}

#[test]
fn prices_are_ordered_by_their_units() {
    assert!(whole(99) < whole(100));
    assert!(Price::from_units(-1) < Price::from_units(0));
}
