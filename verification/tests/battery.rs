use battery_dispatch::BatteryState;
use battery_dispatch::DispatchError;

#[test]
fn new_battery_reports_its_fields() {
    let b = BatteryState::new(250_000, 500_000, 400_000);
    assert_eq!(b.capacity_wh, 250_000);
    assert_eq!(b.max_capacity_wh, 500_000);
    assert_eq!(b.max_charge_rate_w, 400_000);
    assert_eq!(b.available_capacity(), 250_000);
    assert_eq!(b.headroom(), 250_000);
    assert!(!b.is_full());
}

#[test]
fn at_fraction_half_of_max() {
    let b = BatteryState::at_fraction(500_000, 400_000, 50);
    assert_eq!(b.capacity_wh, 250_000);
    let empty = BatteryState::at_fraction(500_000, 400_000, 0);
    assert_eq!(empty.capacity_wh, 0);
    let full = BatteryState::at_fraction(500_000, 400_000, 100);
    assert!(full.is_full());
}

#[test]
fn charge_is_bounded_by_rate_and_headroom() {
    let mut b = BatteryState::new(0, 500_000, 400_000);
    // bounded by the charge-rate ceiling
    assert_eq!(b.charge(1_000_000), 400_000);
    assert_eq!(b.capacity_wh, 400_000);
    // bounded by the remaining headroom
    assert_eq!(b.charge(400_000), 100_000);
    assert_eq!(b.capacity_wh, 500_000);
    assert!(b.is_full());
    // a full battery absorbs nothing
    assert_eq!(b.charge(400_000), 0);
    assert_eq!(b.capacity_wh, 500_000);
}

#[test]
fn charge_below_all_bounds_absorbs_the_request() {
    let mut b = BatteryState::new(100_000, 500_000, 400_000);
    assert_eq!(b.charge(50_000), 50_000);
    assert_eq!(b.capacity_wh, 150_000);
}

#[test]
fn one_watt_hour_short_of_full_is_not_full() {
    let mut b = BatteryState::new(499_999, 500_000, 400_000);
    assert!(!b.is_full());
    assert_eq!(b.charge(400_000), 1);
    assert!(b.is_full());
}

#[test]
fn discharge_draws_exactly_the_request() {
    let mut b = BatteryState::new(250_000, 500_000, 400_000);
    assert_eq!(b.discharge(100_000), Ok(()));
    assert_eq!(b.capacity_wh, 150_000);
}

#[test]
fn discharge_over_capacity_fails_and_changes_nothing() {
    let mut b = BatteryState::new(100_000, 500_000, 400_000);
    assert_eq!(b.discharge(100_001), Err(DispatchError::InsufficientCapacity));
    assert_eq!(b.capacity_wh, 100_000);
    // the whole stored energy can still be drawn
    assert_eq!(b.discharge(100_000), Ok(()));
    assert_eq!(b.capacity_wh, 0);
}
