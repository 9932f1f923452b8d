//! The named configuration constants of a dispatch run, with the observed
//! defaults. All are overridable: a run takes a `DispatchConfig` value, never
//! the constants themselves.

use vstd::prelude::*;

use crate::battery::BatteryState;

verus! {

/// Observed default grid contractual limit: 7850 kW, in watts.
pub const ENERGY_CONTRACTUAL_LIMIT_FROM_GRID_W: u64 = 7_850_000;

/// Observed default battery maximum capacity: 500 kWh, in watt-hours.
pub const BATTERY_CAPACITY_WH: u64 = 500_000;

/// Observed default battery charge-rate ceiling: 400 kW, in watts.
pub const BATTERY_CHARGE_RATE_W: u64 = 400_000;

/// Observed default price threshold: 0.43 per kWh, in millionths of the
/// currency unit.
pub const AVERAGE_ELECTRICITY_PRICE_MICRO: u64 = 430_000;

/// Observed default starting charge: half of the maximum capacity.
pub const INITIAL_CHARGE_PERCENT: u64 = 50;

/// Observed round-trip efficiency: 90 percent. Recorded but inert: the
/// dispatch rules do not apply it to any amount.
pub const BATTERY_ROUND_TRIP_EFFICIENCY_PERCENT: u64 = 90;

/// One thousand watts to the kilowatt: the unit normalization between the
/// kilowatt scale that limits and rates are quoted in and the watt scale the
/// engine computes in.
pub const WATTS_PER_KILOWATT: u64 = 1000;

/// Convert a power quoted in kilowatts to watts, exactly.
pub fn kilowatts_to_watts(kw: u64) -> (w: u64)
    requires
        kw * WATTS_PER_KILOWATT <= u64::MAX,
    ensures
        w == kw * WATTS_PER_KILOWATT,
{
    kw * WATTS_PER_KILOWATT
}

/// The configuration of a dispatch run. Powers are in watts, energies in
/// watt-hours, prices in millionths of the currency unit per kilowatt-hour,
/// percentages in whole percent.
#[derive(Clone, Copy, Debug, PartialEq, Eq, Structural)]
pub struct DispatchConfig {
    /// Maximum power the grid may supply before demand counts as overflow,
    /// in watts.
    pub grid_limit_w: u64,
    /// Price above which charging is disallowed; a price exactly at the
    /// threshold still allows charging.
    pub average_price_threshold_micro: u64,
    /// Battery maximum capacity, in watt-hours.
    pub battery_max_capacity_wh: u64,
    /// Battery per-action charge ceiling, in watts.
    pub battery_max_charge_rate_w: u64,
    /// Starting charge at the beginning of a run, in percent of the maximum
    /// capacity.
    pub initial_charge_percent: u64,
    /// Round-trip efficiency in percent. Documented but inert: the observed
    /// rules never apply it, and this engine keeps that behaviour.
    pub round_trip_efficiency_percent: u64,
}

impl DispatchConfig {
    /// The percentages are percentages, and the battery constants are small
    /// enough that a starting charge can be computed without overflow.
    pub open spec fn wf(self) -> bool {
        &&& self.initial_charge_percent <= 100
        &&& self.round_trip_efficiency_percent <= 100
        &&& self.battery_max_capacity_wh * self.initial_charge_percent <= u64::MAX
    }

    /// A configuration whose powers and energies are quoted on the kilowatt
    /// scale, normalized to the watt scale the engine computes in.
    pub fn from_kilowatt_units(
        grid_limit_kw: u64,
        average_price_threshold_micro: u64,
        battery_max_capacity_kwh: u64,
        battery_max_charge_rate_kw: u64,
        initial_charge_percent: u64,
        round_trip_efficiency_percent: u64,
    ) -> (cfg: DispatchConfig)
        requires
            grid_limit_kw * WATTS_PER_KILOWATT <= u64::MAX,
            battery_max_capacity_kwh * WATTS_PER_KILOWATT <= u64::MAX,
            battery_max_charge_rate_kw * WATTS_PER_KILOWATT <= u64::MAX,
            initial_charge_percent <= 100,
            round_trip_efficiency_percent <= 100,
            battery_max_capacity_kwh * WATTS_PER_KILOWATT * initial_charge_percent <= u64::MAX,
        ensures
            cfg == (DispatchConfig {
                grid_limit_w: (grid_limit_kw * WATTS_PER_KILOWATT) as u64,
                average_price_threshold_micro,
                battery_max_capacity_wh: (battery_max_capacity_kwh * WATTS_PER_KILOWATT) as u64,
                battery_max_charge_rate_w: (battery_max_charge_rate_kw * WATTS_PER_KILOWATT) as u64,
                initial_charge_percent,
                round_trip_efficiency_percent,
            }),
            cfg.wf(),
    {
        DispatchConfig {
            grid_limit_w: kilowatts_to_watts(grid_limit_kw),
            average_price_threshold_micro,
            battery_max_capacity_wh: kilowatts_to_watts(battery_max_capacity_kwh),
            battery_max_charge_rate_w: kilowatts_to_watts(battery_max_charge_rate_kw),
            initial_charge_percent,
            round_trip_efficiency_percent,
        }
    }

    /// The battery a run starts with: the configured battery at its
    /// configured starting fraction.
    pub fn initial_battery(&self) -> (b: BatteryState)
        requires
            self.wf(),
        ensures
            b.capacity_wh == self.battery_max_capacity_wh * self.initial_charge_percent / 100,
            b.max_capacity_wh == self.battery_max_capacity_wh,
            b.max_charge_rate_w == self.battery_max_charge_rate_w,
            b.wf(),
    {
        BatteryState::at_fraction(
            self.battery_max_capacity_wh,
            self.battery_max_charge_rate_w,
            self.initial_charge_percent,
        )
    }
}

impl Default for DispatchConfig {
    /// The observed default configuration.
    fn default() -> (cfg: DispatchConfig)
        ensures
            cfg == (DispatchConfig {
                grid_limit_w: ENERGY_CONTRACTUAL_LIMIT_FROM_GRID_W,
                average_price_threshold_micro: AVERAGE_ELECTRICITY_PRICE_MICRO,
                battery_max_capacity_wh: BATTERY_CAPACITY_WH,
                battery_max_charge_rate_w: BATTERY_CHARGE_RATE_W,
                initial_charge_percent: INITIAL_CHARGE_PERCENT,
                round_trip_efficiency_percent: BATTERY_ROUND_TRIP_EFFICIENCY_PERCENT,
            }),
            cfg.wf(),
    {
        DispatchConfig {
            grid_limit_w: ENERGY_CONTRACTUAL_LIMIT_FROM_GRID_W,
            average_price_threshold_micro: AVERAGE_ELECTRICITY_PRICE_MICRO,
            battery_max_capacity_wh: BATTERY_CAPACITY_WH,
            battery_max_charge_rate_w: BATTERY_CHARGE_RATE_W,
            initial_charge_percent: INITIAL_CHARGE_PERCENT,
            round_trip_efficiency_percent: BATTERY_ROUND_TRIP_EFFICIENCY_PERCENT,
        }
    }
}

} // verus!
