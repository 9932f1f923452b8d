use battery_dispatch::BatteryState;
use battery_dispatch::BatteryUsagePlan;
use battery_dispatch::Decision;
use battery_dispatch::Diagnostic;
use battery_dispatch::DispatchConfig;
use battery_dispatch::DispatchError;
use battery_dispatch::apply_decision;
use battery_dispatch::dispatch_interval;
use battery_dispatch::evaluate_dispatch_rule;
use battery_dispatch::EnergyConsumption;
use battery_dispatch::OptimizationPlan;
use battery_dispatch::kilowatts_to_watts;

fn observed_config() -> DispatchConfig {
    DispatchConfig::from_kilowatt_units(7_850, 430_000, 500, 400, 50, 90)
}

fn demand_record(power_w: u64) -> EnergyConsumption {
    EnergyConsumption {
        start: "2022-12-12T10:00:00Z".to_string(),
        end: "2022-12-12T10:15:00Z".to_string(),
        consumption_average_power_interval: power_w,
    }
}

#[test]
fn config_from_kilowatts_is_exact() {
    let cfg = observed_config();
    assert_eq!(cfg.grid_limit_w, 7_850_000);
    assert_eq!(cfg.average_price_threshold_micro, 430_000);
    assert_eq!(cfg.battery_max_capacity_wh, 500_000);
    assert_eq!(cfg.battery_max_charge_rate_w, 400_000);
    assert_eq!(cfg, DispatchConfig::default());
    let b = cfg.initial_battery();
    assert_eq!(b.capacity_wh, 250_000);
    assert_eq!(b.max_capacity_wh, 500_000);
    assert_eq!(b.max_charge_rate_w, 400_000);
}

// Scenario: grid limit 7850 kW, maximum capacity 500 kWh, charge rate
// 400 kW, threshold 0.43, stored energy 250 kWh; demand 4656 kW at price
// 0.3057 charges min(7850 - 4656, 400, 250) = 250 kWh and fills the battery.
#[test]
fn scenario_cheap_hour_fills_the_battery() {
    let cfg = observed_config();
    let mut b = BatteryState::new(250_000, 500_000, 400_000);
    let d = evaluate_dispatch_rule(4_656_000, 305_700, &b, &cfg);
    assert_eq!(d, Ok(Decision::Charge { energy_wh: 250_000 }));
    assert_eq!(apply_decision(&mut b, &d.unwrap()), Ok(()));
    assert_eq!(b.capacity_wh, 500_000);
    assert!(b.is_full());
}

// Scenario: demand 8200 kW overflows the 7850 kW limit by 350 kWh while only
// 100 kWh is stored; the interval is reported unmet and the battery is left
// unchanged.
#[test]
fn scenario_unmet_overflow_leaves_battery_unchanged() {
    let cfg = observed_config();
    let mut b = BatteryState::new(100_000, 500_000, 400_000);
    assert_eq!(
        evaluate_dispatch_rule(8_200_000, 305_700, &b, &cfg),
        Err(DispatchError::UnmetDemand)
    );
    let r = dispatch_interval(&demand_record(8_200_000), 305_700, &mut b, &cfg);
    assert_eq!(
        r,
        Err(Diagnostic::UnmetDemand {
            start: "2022-12-12T10:00:00Z".to_string(),
            end: "2022-12-12T10:15:00Z".to_string(),
            shortfall_wh: 350_000,
        })
    );
    assert_eq!(b.capacity_wh, 100_000);
}

#[test]
fn overflow_within_capacity_discharges_exactly_the_overflow() {
    let cfg = observed_config();
    let mut b = BatteryState::new(400_000, 500_000, 400_000);
    let r = dispatch_interval(&demand_record(8_000_000), 305_700, &mut b, &cfg);
    let action = r.unwrap().unwrap();
    assert_eq!(action.energy_from_battery_wh, 150_000);
    assert_eq!(action.energy_to_battery_wh, 0);
    assert_eq!(action.start, "2022-12-12T10:00:00Z");
    assert_eq!(action.end, "2022-12-12T10:15:00Z");
    assert_eq!(b.capacity_wh, 250_000);
}

#[test]
fn overflow_equal_to_capacity_still_discharges() {
    let cfg = observed_config();
    let mut b = BatteryState::new(150_000, 500_000, 400_000);
    let r = dispatch_interval(&demand_record(8_000_000), 305_700, &mut b, &cfg);
    assert_eq!(r.unwrap().unwrap().energy_from_battery_wh, 150_000);
    assert_eq!(b.capacity_wh, 0);
}

#[test]
fn demand_exactly_at_the_limit_is_not_an_overflow() {
    let cfg = observed_config();
    let mut b = BatteryState::new(250_000, 500_000, 400_000);
    // grid slack is zero, so the recorded charge is zero, not a discharge
    let r = dispatch_interval(&demand_record(7_850_000), 305_700, &mut b, &cfg);
    let action = r.unwrap().unwrap();
    assert_eq!(action.energy_from_battery_wh, 0);
    assert_eq!(action.energy_to_battery_wh, 0);
    assert_eq!(b.capacity_wh, 250_000);
}

#[test]
fn high_price_idles() {
    let cfg = observed_config();
    let mut b = BatteryState::new(250_000, 500_000, 400_000);
    assert_eq!(
        evaluate_dispatch_rule(4_656_000, 430_001, &b, &cfg),
        Ok(Decision::Idle)
    );
    let r = dispatch_interval(&demand_record(4_656_000), 430_001, &mut b, &cfg);
    assert_eq!(r, Ok(None));
    assert_eq!(b.capacity_wh, 250_000);
}

#[test]
fn price_exactly_at_the_threshold_still_charges() {
    let cfg = observed_config();
    let b = BatteryState::new(0, 500_000, 400_000);
    assert_eq!(
        evaluate_dispatch_rule(4_656_000, 430_000, &b, &cfg),
        Ok(Decision::Charge { energy_wh: 400_000 })
    );
}

#[test]
fn full_battery_idles_even_when_cheap() {
    let cfg = observed_config();
    let mut b = BatteryState::new(500_000, 500_000, 400_000);
    let r = dispatch_interval(&demand_record(4_656_000), 305_700, &mut b, &cfg);
    assert_eq!(r, Ok(None));
    assert_eq!(b.capacity_wh, 500_000);
}

#[test]
fn charge_is_bounded_by_grid_slack() {
    let cfg = observed_config();
    // slack 7850 - 7800 = 50 kW is below both the rate and the headroom
    let b = BatteryState::new(0, 500_000, 400_000);
    assert_eq!(
        evaluate_dispatch_rule(7_800_000, 305_700, &b, &cfg),
        Ok(Decision::Charge { energy_wh: 50_000 })
    );
}

#[test]
fn apply_decision_discharge_over_capacity_fails() {
    let mut b = BatteryState::new(100_000, 500_000, 400_000);
    let r = apply_decision(&mut b, &Decision::Discharge { energy_wh: 200_000 });
    assert_eq!(r, Err(DispatchError::InsufficientCapacity));
    assert_eq!(b.capacity_wh, 100_000);
}

#[test]
fn apply_decision_idle_changes_nothing() {
    let mut b = BatteryState::new(100_000, 500_000, 400_000);
    assert_eq!(apply_decision(&mut b, &Decision::Idle), Ok(()));
    assert_eq!(b, BatteryState::new(100_000, 500_000, 400_000));
}

#[test]
fn usage_plan_records_one_sided_transfers() {
    let p = BatteryUsagePlan::new(
        Some(150_000),
        None,
        "2022-12-12T10:00:00Z",
        "2022-12-12T10:15:00Z",
    );
    assert_eq!(p.energy_from_battery_wh, 150_000);
    assert_eq!(p.energy_to_battery_wh, 0);
    assert_eq!(p.start, "2022-12-12T10:00:00Z");
    assert_eq!(p.end, "2022-12-12T10:15:00Z");
    let q = BatteryUsagePlan::new(None, Some(42), "a", "b");
    assert_eq!(q.energy_from_battery_wh, 0);
    assert_eq!(q.energy_to_battery_wh, 42);
}

#[test]
fn optimization_plan_appends_in_order() {
    let mut plan = OptimizationPlan::new();
    assert_eq!(plan.len(), 0);
    plan.extend_plan_with(BatteryUsagePlan::new(Some(1), None, "a", "b"));
    plan.extend_plan_with(BatteryUsagePlan::new(None, Some(2), "c", "d"));
    assert_eq!(plan.len(), 2);
    let entries = plan.entries();
    assert_eq!(entries[0].energy_from_battery_wh, 1);
    assert_eq!(entries[1].energy_to_battery_wh, 2);
}

#[test]
fn kilowatts_convert_exactly() {
    assert_eq!(kilowatts_to_watts(0), 0);
    assert_eq!(kilowatts_to_watts(7_850), 7_850_000);
}
