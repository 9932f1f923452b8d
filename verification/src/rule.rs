//! The dispatch rule: the pure decision for one interval, and its
//! application to the battery.
//!
//! The rule is evaluated in a fixed priority order. Demand over the grid
//! limit is covered from the battery, or reported as unmet where the battery
//! cannot cover it. Demand within the limit charges the battery from the
//! grid slack, unless the price is over the threshold or the battery is
//! full. Demand exactly at the limit counts as within it.

use vstd::prelude::*;

use crate::battery::BatteryState;
use crate::battery::min3;
use crate::config::DispatchConfig;
use crate::errors::DiagModel;
use crate::errors::Diagnostic;
use crate::errors::DispatchError;
use crate::plan::ActionModel;
use crate::plan::BatteryUsagePlan;
use crate::records::DemandRecordModel;
use crate::records::EnergyConsumption;
use vstd::pervasive::unreached;

verus! {

/// The decision for one interval: draw from the battery, feed into it, or
/// do nothing.
#[derive(Clone, Copy, Debug, PartialEq, Eq, Structural)]
pub enum Decision {
    /// Draw this much energy from the battery to cover demand over the grid
    /// limit.
    Discharge { energy_wh: u64 },
    /// Feed this much energy into the battery from the grid slack.
    Charge { energy_wh: u64 },
    /// Do nothing: the price is too high, or the battery is full.
    Idle,
}

/// The dispatch rule as a mathematical function: what decision the engine
/// takes for an interval with the given demand and price, against the given
/// battery and configuration.
///
/// In priority order: demand over the grid limit discharges the overflow, or
/// fails as unmet demand where the overflow exceeds the stored energy; a
/// price strictly over the threshold idles; a full battery idles; otherwise
/// the battery charges by the grid slack, bounded by the charge-rate ceiling
/// and the headroom.
pub open spec fn spec_evaluate(
    demand_w: u64,
    price_micro: u64,
    battery: BatteryState,
    cfg: DispatchConfig,
) -> Result<Decision, DispatchError> {
    if demand_w > cfg.grid_limit_w {
        let overflow = demand_w - cfg.grid_limit_w;
        if overflow > battery.capacity_wh {
            Err(DispatchError::UnmetDemand)
        } else {
            Ok(Decision::Discharge { energy_wh: overflow as u64 })
        }
    } else if price_micro > cfg.average_price_threshold_micro {
        Ok(Decision::Idle)
    } else if battery.capacity_wh == battery.max_capacity_wh {
        Ok(Decision::Idle)
    } else {
        Ok(
            Decision::Charge {
                energy_wh: min3(
                    cfg.grid_limit_w - demand_w,
                    battery.max_charge_rate_w as int,
                    battery.spec_headroom(),
                ) as u64,
            },
        )
    }
}

/// Evaluate the dispatch rule for one interval, without touching the
/// battery.
pub fn evaluate_dispatch_rule(
    demand_w: u64,
    price_micro: u64,
    battery: &BatteryState,
    cfg: &DispatchConfig,
) -> (r: Result<Decision, DispatchError>)
    requires
        battery.wf(),
    ensures
        r == spec_evaluate(demand_w, price_micro, *battery, *cfg),
{
    if demand_w > cfg.grid_limit_w {
        let overflow = demand_w - cfg.grid_limit_w;
        if overflow > battery.available_capacity() {
            Err(DispatchError::UnmetDemand)
        } else {
            Ok(Decision::Discharge { energy_wh: overflow })
        }
    } else if price_micro > cfg.average_price_threshold_micro {
        Ok(Decision::Idle)
    } else if battery.is_full() {
        Ok(Decision::Idle)
    } else {
        let slack = cfg.grid_limit_w - demand_w;
        let rate_bound = if slack <= battery.max_charge_rate_w {
            slack
        } else {
            battery.max_charge_rate_w
        };
        let headroom = battery.headroom();
        let amount = if rate_bound <= headroom {
            rate_bound
        } else {
            headroom
        };
        Ok(Decision::Charge { energy_wh: amount })
    }
}

/// Apply a decision to the battery: a discharge draws the energy (failing
/// with `InsufficientCapacity` where more is asked than stored), a charge
/// absorbs up to the requested energy, idling changes nothing.
pub fn apply_decision(battery: &mut BatteryState, decision: &Decision) -> (r: Result<
    (),
    DispatchError,
>)
    requires
        old(battery).wf(),
    ensures
        final(battery).max_capacity_wh == old(battery).max_capacity_wh,
        final(battery).max_charge_rate_w == old(battery).max_charge_rate_w,
        final(battery).wf(),
        match *decision {
            Decision::Idle => r is Ok && *final(battery) == *old(battery),
            Decision::Charge { energy_wh } => r is Ok && final(battery).capacity_wh == old(
                battery).capacity_wh + old(battery).spec_absorbed(energy_wh as int),
            Decision::Discharge { energy_wh } => {
                &&& energy_wh <= old(battery).capacity_wh ==> r is Ok && final(
                    battery).capacity_wh == old(battery).capacity_wh - energy_wh
                &&& energy_wh > old(battery).capacity_wh ==> r == Err::<(), DispatchError>(
                    DispatchError::InsufficientCapacity,
                ) && *final(battery) == *old(battery)
            },
        },
{
    match decision {
        Decision::Idle => Ok(()),
        Decision::Charge { energy_wh } => {
            let _absorbed = battery.charge(*energy_wh);
            Ok(())
        },
        Decision::Discharge { energy_wh } => battery.discharge(*energy_wh),
    }
}

/// Mathematical model of one driver step: the battery after the interval,
/// the action appended to the plan (if any), and the diagnostic recorded
/// (if any).
#[verifier::ext_equal]
pub ghost struct StepModel {
    pub battery: BatteryState,
    pub action: Option<ActionModel>,
    pub diag: Option<DiagModel>,
}

/// One driver step as a mathematical function: evaluate the dispatch rule
/// for the record at the given price and apply the outcome. A discharge or
/// charge moves the battery and yields an action carrying the record's
/// timestamps; idling yields nothing; unmet demand leaves the battery
/// unchanged and yields a diagnostic carrying the shortfall.
pub open spec fn spec_step(
    b: BatteryState,
    r: DemandRecordModel,
    price_micro: u64,
    cfg: DispatchConfig,
) -> StepModel {
    match spec_evaluate(r.power_w, price_micro, b, cfg) {
        Ok(Decision::Discharge { energy_wh }) => StepModel {
            battery: BatteryState {
                capacity_wh: (b.capacity_wh - energy_wh) as u64,
                max_capacity_wh: b.max_capacity_wh,
                max_charge_rate_w: b.max_charge_rate_w,
            },
            action: Some(
                ActionModel {
                    start: r.start,
                    end: r.end,
                    energy_from_battery_wh: energy_wh,
                    energy_to_battery_wh: 0,
                },
            ),
            diag: None,
        },
        Ok(Decision::Charge { energy_wh }) => StepModel {
            battery: BatteryState {
                capacity_wh: (b.capacity_wh + energy_wh) as u64,
                max_capacity_wh: b.max_capacity_wh,
                max_charge_rate_w: b.max_charge_rate_w,
            },
            action: Some(
                ActionModel {
                    start: r.start,
                    end: r.end,
                    energy_from_battery_wh: 0,
                    energy_to_battery_wh: energy_wh,
                },
            ),
            diag: None,
        },
        Ok(Decision::Idle) => StepModel { battery: b, action: None, diag: None },
        Err(_) => StepModel {
            battery: b,
            action: None,
            diag: Some(
                DiagModel::UnmetDemand {
                    start: r.start,
                    end: r.end,
                    shortfall_wh: (r.power_w - cfg.grid_limit_w) as u64,
                },
            ),
        },
    }
}

/// Evaluate the dispatch rule for one demand record and apply the outcome
/// to the battery: the executable form of [`spec_step`]. Returns the action
/// to append to the plan, nothing for an idle interval, or the diagnostic
/// for an interval whose demand the battery cannot cover.
pub fn dispatch_interval(
    demand: &EnergyConsumption,
    price_micro: u64,
    battery: &mut BatteryState,
    cfg: &DispatchConfig,
) -> (r: Result<Option<BatteryUsagePlan>, Diagnostic>)
    requires
        old(battery).wf(),
    ensures
        ({
            let step = spec_step(*old(battery), demand@, price_micro, *cfg);
            &&& *final(battery) == step.battery
            &&& final(battery).wf()
            &&& match r {
                Ok(Some(a)) => step.action == Some(a@) && step.diag is None,
                Ok(None) => step.action is None && step.diag is None,
                Err(d) => step.action is None && step.diag == Some(d@),
            }
        }),
{
    match evaluate_dispatch_rule(demand.consumption_average_power_interval, price_micro, battery, cfg) {
        Ok(Decision::Discharge { energy_wh }) => {
            match battery.discharge(energy_wh) {
                Ok(()) => Ok(
                    Some(
                        BatteryUsagePlan::new(
                            Some(energy_wh),
                            None,
                            demand.start.as_str(),
                            demand.end.as_str(),
                        ),
                    ),
                ),
                Err(_) => unreached(),
            }
        },
        Ok(Decision::Charge { energy_wh }) => {
            let absorbed = battery.charge(energy_wh);
            Ok(
                Some(
                    BatteryUsagePlan::new(
                        None,
                        Some(absorbed),
                        demand.start.as_str(),
                        demand.end.as_str(),
                    ),
                ),
            )
        },
        Ok(Decision::Idle) => Ok(None),
        Err(_) => {
            let shortfall_wh = demand.consumption_average_power_interval - cfg.grid_limit_w;
            Err(
                Diagnostic::UnmetDemand {
                    start: demand.start.clone(),
                    end: demand.end.clone(),
                    shortfall_wh,
                },
            )
        },
    }
}

/// Law: for every interval whose demand is within the grid limit, whose
/// price is at most the threshold, and whose battery is not full, the step
/// produces a charge action of exactly the least of the grid slack, the
/// charge-rate ceiling and the headroom, and the battery gains exactly that
/// energy.
pub proof fn lemma_charge_when_cheap(
    b: BatteryState,
    r: DemandRecordModel,
    price_micro: u64,
    cfg: DispatchConfig,
)
    requires
        b.wf(),
        r.power_w <= cfg.grid_limit_w,
        price_micro <= cfg.average_price_threshold_micro,
        b.capacity_wh < b.max_capacity_wh,
    ensures
        ({
            let step = spec_step(b, r, price_micro, cfg);
            let amount = min3(
                cfg.grid_limit_w - r.power_w,
                b.max_charge_rate_w as int,
                b.spec_headroom(),
            );
            &&& step.action == Some(
                ActionModel {
                    start: r.start,
                    end: r.end,
                    energy_from_battery_wh: 0,
                    energy_to_battery_wh: amount as u64,
                },
            )
            &&& step.battery.capacity_wh == b.capacity_wh + amount
            &&& step.diag is None
        }),
{
}

/// Law: for every interval whose demand exceeds the grid limit by no more
/// than the stored energy, the step produces a discharge action of exactly
/// the overflow, and the stored energy decreases by exactly the overflow.
pub proof fn lemma_discharge_covers_overflow(
    b: BatteryState,
    r: DemandRecordModel,
    price_micro: u64,
    cfg: DispatchConfig,
)
    requires
        b.wf(),
        r.power_w > cfg.grid_limit_w,
        r.power_w - cfg.grid_limit_w <= b.capacity_wh,
    ensures
        ({
            let step = spec_step(b, r, price_micro, cfg);
            let overflow = r.power_w - cfg.grid_limit_w;
            &&& step.action == Some(
                ActionModel {
                    start: r.start,
                    end: r.end,
                    energy_from_battery_wh: overflow as u64,
                    energy_to_battery_wh: 0,
                },
            )
            &&& step.battery.capacity_wh == b.capacity_wh - overflow
            &&& step.diag is None
        }),
{
}

/// Law: for every interval whose demand exceeds the grid limit by more than
/// the stored energy, the battery is not touched, no action is produced,
/// and an unmet-demand diagnostic carrying the shortfall is recorded.
pub proof fn lemma_unmet_demand_leaves_battery(
    b: BatteryState,
    r: DemandRecordModel,
    price_micro: u64,
    cfg: DispatchConfig,
)
    requires
        b.wf(),
        r.power_w > cfg.grid_limit_w,
        r.power_w - cfg.grid_limit_w > b.capacity_wh,
    ensures
        ({
            let step = spec_step(b, r, price_micro, cfg);
            &&& step.battery == b
            &&& step.action is None
            &&& step.diag == Some(
                DiagModel::UnmetDemand {
                    start: r.start,
                    end: r.end,
                    shortfall_wh: (r.power_w - cfg.grid_limit_w) as u64,
                },
            )
        }),
{
}

/// Law: every action a step produces carries exactly one direction of
/// energy transfer. A discharge feeds nothing into the battery and a charge
/// draws nothing from it; an idle interval produces no action at all.
pub proof fn lemma_step_action_one_sided(
    b: BatteryState,
    r: DemandRecordModel,
    price_micro: u64,
    cfg: DispatchConfig,
)
    ensures
        spec_step(b, r, price_micro, cfg).action matches Some(a) ==> a.one_sided(),
{
}

/// Law: every step keeps the battery invariant. The stored energy stays
/// between zero and the maximum capacity, and the battery's constants do
/// not move.
pub proof fn lemma_step_preserves_invariant(
    b: BatteryState,
    r: DemandRecordModel,
    price_micro: u64,
    cfg: DispatchConfig,
)
    requires
        b.wf(),
    ensures
        ({
            let step = spec_step(b, r, price_micro, cfg);
            &&& 0 <= step.battery.capacity_wh <= step.battery.max_capacity_wh
            &&& step.battery.wf()
            &&& step.battery.max_capacity_wh == b.max_capacity_wh
            &&& step.battery.max_charge_rate_w == b.max_charge_rate_w
        }),
{
}

} // verus!
