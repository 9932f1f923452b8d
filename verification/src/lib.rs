//! Battery dispatch planning: decide, for each forecast interval of a day,
//! whether to draw power from a battery, charge it from the grid, or idle,
//! so that grid draw stays under a contractual limit and charging happens
//! when electricity is cheap.
//!
//! All powers are in watts, energies in watt-hours, and prices in millionths
//! of the currency unit per kilowatt-hour, so that every quantity is an exact
//! integer.

mod battery;
mod config;
mod errors;
mod horizon;
mod plan;
mod records;
mod rule;
mod timestamp;

pub use battery::BatteryState;
pub use battery::min3;
pub use config::AVERAGE_ELECTRICITY_PRICE_MICRO;
pub use config::BATTERY_CAPACITY_WH;
pub use config::BATTERY_CHARGE_RATE_W;
pub use config::BATTERY_ROUND_TRIP_EFFICIENCY_PERCENT;
pub use config::DispatchConfig;
pub use config::ENERGY_CONTRACTUAL_LIMIT_FROM_GRID_W;
pub use config::INITIAL_CHARGE_PERCENT;
pub use config::WATTS_PER_KILOWATT;
pub use config::kilowatts_to_watts;
pub use errors::DiagModel;
pub use errors::Diagnostic;
pub use errors::DispatchError;
pub use horizon::HOURS_PER_HORIZON;
pub use horizon::RunModel;
pub use horizon::RunOutcome;
pub use horizon::demand_for_hour;
pub use horizon::hour_has_interval;
pub use horizon::lemma_run_actions_one_sided;
pub use horizon::lemma_run_deterministic;
pub use horizon::lemma_run_preserves_invariant;
pub use horizon::price_for_hour;
pub use horizon::run_horizon;
pub use horizon::spec_demand_for_hour;
pub use horizon::spec_hour_has_interval;
pub use horizon::spec_malformed_demand_diags;
pub use horizon::spec_malformed_price_diags;
pub use horizon::spec_price_for_hour;
pub use horizon::spec_run;
pub use horizon::spec_run_hour;
pub use horizon::spec_run_hour_prefix;
pub use horizon::spec_run_hours;
pub use plan::ActionModel;
pub use plan::BatteryUsagePlan;
pub use plan::OptimizationPlan;
pub use records::DemandRecordModel;
pub use records::ElectricityPricePerHour;
pub use records::ElectricityPrices;
pub use records::EnergyConsumption;
pub use records::EnergyConsumptionForecast;
pub use records::PriceRecordModel;
pub use rule::Decision;
pub use rule::StepModel;
pub use rule::apply_decision;
pub use rule::dispatch_interval;
pub use rule::evaluate_dispatch_rule;
pub use rule::lemma_charge_when_cheap;
pub use rule::lemma_discharge_covers_overflow;
pub use rule::lemma_step_action_one_sided;
pub use rule::lemma_step_preserves_invariant;
pub use rule::lemma_unmet_demand_leaves_battery;
pub use rule::spec_evaluate;
pub use rule::spec_step;
pub use timestamp::spec_hour_of;
pub use timestamp::timestamp_hour;
