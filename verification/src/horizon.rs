//! The horizon driver: one pass over all hours of the day, and within each
//! hour over the demand intervals belonging to it, threading the battery
//! through every decision and collecting the plan and the diagnostics.

use vstd::prelude::*;

use crate::battery::BatteryState;
use crate::config::DispatchConfig;
use crate::errors::DiagModel;
use crate::errors::Diagnostic;
use crate::plan::ActionModel;
use crate::plan::OptimizationPlan;
use crate::records::DemandRecordModel;
use crate::records::ElectricityPrices;
use crate::records::EnergyConsumption;
use crate::records::EnergyConsumptionForecast;
use crate::records::PriceRecordModel;
use crate::rule::dispatch_interval;
use crate::rule::lemma_step_action_one_sided;
use crate::rule::lemma_step_preserves_invariant;
use crate::rule::spec_step;
use crate::timestamp::spec_hour_of;
use crate::timestamp::timestamp_hour;

verus! {

/// How many hours the horizon spans: one day.
pub const HOURS_PER_HORIZON: u32 = 24;

/// The price that resolves for the given hour: the price of the last record
/// whose start timestamp parses to that hour, or `None` where no record
/// does. A later record overrides an earlier one for the same hour.
pub open spec fn spec_price_for_hour(prices: Seq<PriceRecordModel>, hour: u32) -> Option<u64>
    decreases prices.len(),
{
    if prices.len() == 0 {
        None
    } else if spec_hour_of(prices.last().start) == Some(hour) {
        Some(prices.last().price_micro)
    } else {
        spec_price_for_hour(prices.drop_last(), hour)
    }
}

/// Resolve the price for an hour of day from the price schedule: the last
/// record whose start lies in that hour wins; records whose start does not
/// parse never match.
pub fn price_for_hour(prices: &ElectricityPrices, hour: u32) -> (r: Option<u64>)
    ensures
        r == spec_price_for_hour(prices@, hour),
{
    let mut found: Option<u64> = None;
    let n = prices.prices.len();
    for i in 0..n
        invariant
            n == prices.prices.len(),
            found == spec_price_for_hour(prices@.subrange(0, i as int), hour),
    {
        proof {
            assert(prices@.subrange(0, i + 1).drop_last() =~= prices@.subrange(0, i as int));
            assert(prices@.subrange(0, i + 1).last() == prices@[i as int]);
        }
        match timestamp_hour(prices.prices[i].start.as_str()) {
            Some(h) => {
                if h == hour {
                    found = Some(prices.prices[i].market_price_per_kwh);
                }
            },
            None => {},
        }
    }
    proof {
        assert(prices@.subrange(0, prices@.len() as int) =~= prices@);
    }
    found
}

/// The demand records whose start lies in the given hour, in source order.
pub open spec fn spec_demand_for_hour(forecast: Seq<DemandRecordModel>, hour: u32) -> Seq<
    DemandRecordModel,
>
    decreases forecast.len(),
{
    if forecast.len() == 0 {
        Seq::empty()
    } else {
        let rest = spec_demand_for_hour(forecast.drop_last(), hour);
        if spec_hour_of(forecast.last().start) == Some(hour) {
            rest.push(forecast.last())
        } else {
            rest
        }
    }
}

/// The demand records of one hour of day, in source order: those whose start
/// timestamp parses to that hour. Records whose start does not parse belong
/// to no hour.
pub fn demand_for_hour(forecast: &EnergyConsumptionForecast, hour: u32) -> (r: Vec<
    EnergyConsumption,
>)
    ensures
        r@.map_values(|rec: EnergyConsumption| rec@) == spec_demand_for_hour(forecast@, hour),
{
    let mut out: Vec<EnergyConsumption> = Vec::new();
    let n = forecast.forecasts.len();
    for i in 0..n
        invariant
            n == forecast.forecasts.len(),
            out@.map_values(|rec: EnergyConsumption| rec@) == spec_demand_for_hour(
                forecast@.subrange(0, i as int),
                hour,
            ),
    {
        proof {
            assert(forecast@.subrange(0, i + 1).drop_last() =~= forecast@.subrange(0, i as int));
            assert(forecast@.subrange(0, i + 1).last() == forecast@[i as int]);
        }
        let rec = &forecast.forecasts[i];
        match timestamp_hour(rec.start.as_str()) {
            Some(h) => {
                if h == hour {
                    let copy = EnergyConsumption {
                        start: rec.start.clone(),
                        end: rec.end.clone(),
                        consumption_average_power_interval: rec.consumption_average_power_interval,
                    };
                    out.push(copy);
                    proof {
                        assert(out@.map_values(|r2: EnergyConsumption| r2@) =~= out@.drop_last()
                            .map_values(|r2: EnergyConsumption| r2@).push(forecast@[i as int]));
                    }
                }
            },
            None => {},
        }
    }
    proof {
        assert(forecast@.subrange(0, forecast@.len() as int) =~= forecast@);
    }
    out
}

/// Whether some demand record's start lies in the given hour.
pub open spec fn spec_hour_has_interval(forecast: Seq<DemandRecordModel>, hour: u32) -> bool {
    exists|i: int|
        0 <= i < forecast.len() && spec_hour_of(forecast[i].start) == Some(hour)
}

/// Whether the hour has at least one demand record: only such an hour needs
/// a price.
pub fn hour_has_interval(forecast: &EnergyConsumptionForecast, hour: u32) -> (r: bool)
    ensures
        r == spec_hour_has_interval(forecast@, hour),
{
    let n = forecast.forecasts.len();
    for i in 0..n
        invariant
            n == forecast.forecasts.len(),
            forall|j: int|
                0 <= j < i ==> spec_hour_of(forecast@[j].start) != Some(hour),
    {
        match timestamp_hour(forecast.forecasts[i].start.as_str()) {
            Some(h) => {
                if h == hour {
                    proof {
                        assert(spec_hour_of(forecast@[i as int].start) == Some(hour));
                    }
                    return true;
                }
            },
            None => {},
        }
    }
    false
}

/// The mathematical view of a diagnostics vector.
pub open spec fn diags_view(diags: Seq<Diagnostic>) -> Seq<DiagModel> {
    diags.map_values(|d: Diagnostic| d@)
}

/// Mathematical model of a run in progress or finished: the battery, the
/// plan so far, and the diagnostics so far.
#[verifier::ext_equal]
pub ghost struct RunModel {
    pub battery: BatteryState,
    pub plan: Seq<ActionModel>,
    pub diags: Seq<DiagModel>,
}

/// Diagnostics for the demand records whose start does not parse, in source
/// order. Such a record is skipped by every hour of the run.
pub open spec fn spec_malformed_demand_diags(forecast: Seq<DemandRecordModel>) -> Seq<DiagModel>
    decreases forecast.len(),
{
    if forecast.len() == 0 {
        Seq::empty()
    } else {
        let rest = spec_malformed_demand_diags(forecast.drop_last());
        if spec_hour_of(forecast.last().start) is None {
            rest.push(
                DiagModel::MalformedTimestamp {
                    start: forecast.last().start,
                    end: forecast.last().end,
                },
            )
        } else {
            rest
        }
    }
}

/// Diagnostics for the price records whose start does not parse, in source
/// order. Such a record resolves no hour.
pub open spec fn spec_malformed_price_diags(prices: Seq<PriceRecordModel>) -> Seq<DiagModel>
    decreases prices.len(),
{
    if prices.len() == 0 {
        Seq::empty()
    } else {
        let rest = spec_malformed_price_diags(prices.drop_last());
        if spec_hour_of(prices.last().start) is None {
            rest.push(
                DiagModel::MalformedTimestamp {
                    start: prices.last().start,
                    end: prices.last().end,
                },
            )
        } else {
            rest
        }
    }
}

/// The run state after the first `n` demand records have been considered for
/// the given hour: each record whose start lies in the hour is stepped, in
/// source order; every other record is passed over.
pub open spec fn spec_run_hour_prefix(
    forecast: Seq<DemandRecordModel>,
    n: int,
    hour: u32,
    price_micro: u64,
    state: RunModel,
    cfg: DispatchConfig,
) -> RunModel
    decreases n,
{
    if n <= 0 {
        state
    } else {
        let prev = spec_run_hour_prefix(forecast, n - 1, hour, price_micro, state, cfg);
        let r = forecast[n - 1];
        if spec_hour_of(r.start) == Some(hour) {
            let step = spec_step(prev.battery, r, price_micro, cfg);
            RunModel {
                battery: step.battery,
                plan: match step.action {
                    Some(a) => prev.plan.push(a),
                    None => prev.plan,
                },
                diags: match step.diag {
                    Some(d) => prev.diags.push(d),
                    None => prev.diags,
                },
            }
        } else {
            prev
        }
    }
}

/// The run state after one whole hour. An hour whose price resolves steps
/// every demand record of that hour; an hour that has demand records but no
/// price adds one missing-price diagnostic and touches nothing else; an
/// hour with neither is a no-op.
pub open spec fn spec_run_hour(
    forecast: Seq<DemandRecordModel>,
    prices: Seq<PriceRecordModel>,
    hour: u32,
    state: RunModel,
    cfg: DispatchConfig,
) -> RunModel {
    match spec_price_for_hour(prices, hour) {
        Some(price_micro) => spec_run_hour_prefix(
            forecast,
            forecast.len() as int,
            hour,
            price_micro,
            state,
            cfg,
        ),
        None => if spec_hour_has_interval(forecast, hour) {
            RunModel {
                battery: state.battery,
                plan: state.plan,
                diags: state.diags.push(DiagModel::MissingPriceForHour { hour }),
            }
        } else {
            state
        },
    }
}

/// The run state after the first `n` hours of the day.
pub open spec fn spec_run_hours(
    forecast: Seq<DemandRecordModel>,
    prices: Seq<PriceRecordModel>,
    n: int,
    state: RunModel,
    cfg: DispatchConfig,
) -> RunModel
    decreases n,
{
    if n <= 0 {
        state
    } else {
        spec_run_hour(
            forecast,
            prices,
            (n - 1) as u32,
            spec_run_hours(forecast, prices, n - 1, state, cfg),
            cfg,
        )
    }
}

/// A whole run as a mathematical function of the inputs: first the
/// malformed-timestamp diagnostics for the demand records and then for the
/// price records, both in source order; then the twenty-four hours of the
/// day in order, each as [`spec_run_hour`].
pub open spec fn spec_run(
    forecast: Seq<DemandRecordModel>,
    prices: Seq<PriceRecordModel>,
    battery: BatteryState,
    cfg: DispatchConfig,
) -> RunModel {
    let start = RunModel {
        battery,
        plan: Seq::empty(),
        diags: spec_malformed_demand_diags(forecast) + spec_malformed_price_diags(prices),
    };
    spec_run_hours(forecast, prices, HOURS_PER_HORIZON as int, start, cfg)
}

/// Everything a run produces: the ordered plan of dispatch actions, and the
/// diagnostics for the intervals, hours and records that could not be
/// served.
pub struct RunOutcome {
    pub plan: OptimizationPlan,
    pub diagnostics: Vec<Diagnostic>,
}

/// Run the full horizon: for each hour of the day resolve the hour's price
/// and evaluate the dispatch rule for each demand interval of that hour, in
/// source order, threading the battery through every decision. The plan
/// collects the actions in evaluation order; records that fail are reported
/// as diagnostics and the run continues.
pub fn run_horizon(
    forecast: &EnergyConsumptionForecast,
    prices: &ElectricityPrices,
    battery: &mut BatteryState,
    cfg: &DispatchConfig,
) -> (outcome: RunOutcome)
    requires
        old(battery).wf(),
    ensures
        ({
            let model = spec_run(forecast@, prices@, *old(battery), *cfg);
            &&& *final(battery) == model.battery
            &&& final(battery).wf()
            &&& outcome.plan@ == model.plan
            &&& diags_view(outcome.diagnostics@) == model.diags
        }),
{
    let mut plan = OptimizationPlan::new();
    let mut diagnostics: Vec<Diagnostic> = Vec::new();

    let nf = forecast.forecasts.len();
    for i in 0..nf
        invariant
            nf == forecast.forecasts.len(),
            diags_view(diagnostics@) == spec_malformed_demand_diags(
                forecast@.subrange(0, i as int),
            ),
    {
        proof {
            assert(forecast@.subrange(0, i + 1).drop_last() =~= forecast@.subrange(0, i as int));
            assert(forecast@.subrange(0, i + 1).last() == forecast@[i as int]);
        }
        let rec = &forecast.forecasts[i];
        match timestamp_hour(rec.start.as_str()) {
            Some(_) => {},
            None => {
                diagnostics.push(
                    Diagnostic::MalformedTimestamp { start: rec.start.clone(), end: rec.end.clone() },
                );
                proof {
                    assert(diags_view(diagnostics@) =~= diags_view(diagnostics@.drop_last()).push(
                        diagnostics@.last()@,
                    ));
                }
            },
        }
    }
    proof {
        assert(forecast@.subrange(0, forecast@.len() as int) =~= forecast@);
    }

    let np = prices.prices.len();
    for i in 0..np
        invariant
            np == prices.prices.len(),
            diags_view(diagnostics@) == spec_malformed_demand_diags(forecast@)
                + spec_malformed_price_diags(prices@.subrange(0, i as int)),
    {
        proof {
            assert(prices@.subrange(0, i + 1).drop_last() =~= prices@.subrange(0, i as int));
            assert(prices@.subrange(0, i + 1).last() == prices@[i as int]);
        }
        let rec = &prices.prices[i];
        match timestamp_hour(rec.start.as_str()) {
            Some(_) => {},
            None => {
                let d = Diagnostic::MalformedTimestamp {
                    start: rec.start.clone(),
                    end: rec.end.clone(),
                };
                let ghost dv = d@;
                let ghost pre = diagnostics@;
                diagnostics.push(d);
                proof {
                    let m = DiagModel::MalformedTimestamp {
                        start: prices@[i as int].start,
                        end: prices@[i as int].end,
                    };
                    assert(prices@[i as int] == prices.prices@[i as int]@);
                    assert(dv == m);
                    assert(diags_view(diagnostics@) =~= diags_view(pre).push(m));
                    assert(spec_malformed_price_diags(prices@.subrange(0, i + 1))
                        == spec_malformed_price_diags(prices@.subrange(0, i as int)).push(m));
                    assert(diags_view(diagnostics@) =~= spec_malformed_demand_diags(forecast@)
                        + spec_malformed_price_diags(prices@.subrange(0, i + 1)));
                }
            },
        }
    }
    proof {
        assert(prices@.subrange(0, prices@.len() as int) =~= prices@);
        assert(diags_view(diagnostics@) == spec_malformed_demand_diags(forecast@)
            + spec_malformed_price_diags(prices@));
    }

    let ghost start_state = RunModel {
        battery: *old(battery),
        plan: Seq::empty(),
        diags: spec_malformed_demand_diags(forecast@) + spec_malformed_price_diags(prices@),
    };

    let mut hour: u32 = 0;
    while hour < HOURS_PER_HORIZON
        invariant
            hour <= HOURS_PER_HORIZON,
            nf == forecast.forecasts.len(),
            battery.wf(),
            (RunModel {
                battery: *battery,
                plan: plan@,
                diags: diags_view(diagnostics@),
            }) == spec_run_hours(forecast@, prices@, hour as int, start_state, *cfg),
        decreases HOURS_PER_HORIZON - hour,
    {
        let ghost hour_state = RunModel {
            battery: *battery,
            plan: plan@,
            diags: diags_view(diagnostics@),
        };
        match price_for_hour(prices, hour) {
            None => {
                if hour_has_interval(forecast, hour) {
                    diagnostics.push(Diagnostic::MissingPriceForHour { hour });
                    proof {
                        assert(diags_view(diagnostics@) =~= diags_view(
                            diagnostics@.drop_last(),
                        ).push(diagnostics@.last()@));
                        assert(diags_view(diagnostics@) == hour_state.diags.push(
                            DiagModel::MissingPriceForHour { hour },
                        ));
                    }
                }
            },
            Some(price_micro) => {
                for i in 0..nf
                    invariant
                        nf == forecast.forecasts.len(),
                        battery.wf(),
                        spec_price_for_hour(prices@, hour) == Some(price_micro),
                        (RunModel {
                            battery: *battery,
                            plan: plan@,
                            diags: diags_view(diagnostics@),
                        }) == spec_run_hour_prefix(
                            forecast@,
                            i as int,
                            hour,
                            price_micro,
                            hour_state,
                            *cfg,
                        ),
                {
                    proof {
                        assert(forecast@[i as int] == forecast.forecasts@[i as int]@);
                    }
                    let rec = &forecast.forecasts[i];
                    match timestamp_hour(rec.start.as_str()) {
                        Some(h) => {
                            if h == hour {
                                match dispatch_interval(rec, price_micro, battery, cfg) {
                                    Ok(Some(action)) => {
                                        plan.extend_plan_with(action);
                                    },
                                    Ok(None) => {},
                                    Err(diag) => {
                                        diagnostics.push(diag);
                                        proof {
                                            assert(diags_view(diagnostics@) =~= diags_view(
                                                diagnostics@.drop_last(),
                                            ).push(diagnostics@.last()@));
                                        }
                                    },
                                }
                            }
                        },
                        None => {},
                    }
                }
            },
        }
        hour = hour + 1;
    }
    RunOutcome { plan, diagnostics }
}

/// Law: a run is a function of its inputs alone. Re-running the horizon
/// from the same initial battery, the same forecast, the same price
/// schedule and the same configuration yields the identical plan, the
/// identical diagnostics and the identical final battery: there is no
/// hidden randomness and no dependence on the clock.
pub proof fn lemma_run_deterministic(
    forecast1: Seq<DemandRecordModel>,
    forecast2: Seq<DemandRecordModel>,
    prices1: Seq<PriceRecordModel>,
    prices2: Seq<PriceRecordModel>,
    battery1: BatteryState,
    battery2: BatteryState,
    cfg1: DispatchConfig,
    cfg2: DispatchConfig,
)
    requires
        forecast1 == forecast2,
        prices1 == prices2,
        battery1 == battery2,
        cfg1 == cfg2,
    ensures
        spec_run(forecast1, prices1, battery1, cfg1) == spec_run(forecast2, prices2, battery2, cfg2),
{
}

/// Helper for [`lemma_run_preserves_invariant`]: stepping the records of one
/// hour keeps the battery invariant and the battery's constants.
proof fn lemma_hour_prefix_preserves_wf(
    forecast: Seq<DemandRecordModel>,
    n: int,
    hour: u32,
    price_micro: u64,
    state: RunModel,
    cfg: DispatchConfig,
)
    requires
        state.battery.wf(),
    ensures
        ({
            let after = spec_run_hour_prefix(forecast, n, hour, price_micro, state, cfg);
            &&& after.battery.wf()
            &&& after.battery.max_capacity_wh == state.battery.max_capacity_wh
            &&& after.battery.max_charge_rate_w == state.battery.max_charge_rate_w
        }),
    decreases n,
{
    if n > 0 {
        lemma_hour_prefix_preserves_wf(forecast, n - 1, hour, price_micro, state, cfg);
        let prev = spec_run_hour_prefix(forecast, n - 1, hour, price_micro, state, cfg);
        lemma_step_preserves_invariant(prev.battery, forecast[n - 1], price_micro, cfg);
    }
}

/// Helper for [`lemma_run_preserves_invariant`]: the first `n` hours keep
/// the battery invariant and the battery's constants.
proof fn lemma_hours_preserve_wf(
    forecast: Seq<DemandRecordModel>,
    prices: Seq<PriceRecordModel>,
    n: int,
    state: RunModel,
    cfg: DispatchConfig,
)
    requires
        state.battery.wf(),
    ensures
        ({
            let after = spec_run_hours(forecast, prices, n, state, cfg);
            &&& after.battery.wf()
            &&& after.battery.max_capacity_wh == state.battery.max_capacity_wh
            &&& after.battery.max_charge_rate_w == state.battery.max_charge_rate_w
        }),
    decreases n,
{
    if n > 0 {
        lemma_hours_preserve_wf(forecast, prices, n - 1, state, cfg);
        let prev = spec_run_hours(forecast, prices, n - 1, state, cfg);
        lemma_hour_prefix_preserves_wf(
            forecast,
            forecast.len() as int,
            (n - 1) as u32,
            match spec_price_for_hour(prices, (n - 1) as u32) {
                Some(p) => p,
                None => 0,
            },
            prev,
            cfg,
        );
    }
}

/// Helper for [`lemma_run_actions_one_sided`]: stepping the records of one
/// hour appends only one-sided actions to the plan.
proof fn lemma_hour_prefix_actions_one_sided(
    forecast: Seq<DemandRecordModel>,
    n: int,
    hour: u32,
    price_micro: u64,
    state: RunModel,
    cfg: DispatchConfig,
)
    requires
        forall|i: int| 0 <= i < state.plan.len() ==> state.plan[i].one_sided(),
    ensures
        ({
            let after = spec_run_hour_prefix(forecast, n, hour, price_micro, state, cfg);
            forall|i: int| 0 <= i < after.plan.len() ==> after.plan[i].one_sided()
        }),
    decreases n,
{
    if n > 0 {
        lemma_hour_prefix_actions_one_sided(forecast, n - 1, hour, price_micro, state, cfg);
        let prev = spec_run_hour_prefix(forecast, n - 1, hour, price_micro, state, cfg);
        lemma_step_action_one_sided(prev.battery, forecast[n - 1], price_micro, cfg);
    }
}

/// Helper for [`lemma_run_actions_one_sided`]: the first `n` hours append
/// only one-sided actions to the plan.
proof fn lemma_hours_actions_one_sided(
    forecast: Seq<DemandRecordModel>,
    prices: Seq<PriceRecordModel>,
    n: int,
    state: RunModel,
    cfg: DispatchConfig,
)
    requires
        forall|i: int| 0 <= i < state.plan.len() ==> state.plan[i].one_sided(),
    ensures
        ({
            let after = spec_run_hours(forecast, prices, n, state, cfg);
            forall|i: int| 0 <= i < after.plan.len() ==> after.plan[i].one_sided()
        }),
    decreases n,
{
    if n > 0 {
        lemma_hours_actions_one_sided(forecast, prices, n - 1, state, cfg);
        let prev = spec_run_hours(forecast, prices, n - 1, state, cfg);
        lemma_hour_prefix_actions_one_sided(
            forecast,
            forecast.len() as int,
            (n - 1) as u32,
            match spec_price_for_hour(prices, (n - 1) as u32) {
                Some(p) => p,
                None => 0,
            },
            prev,
            cfg,
        );
    }
}

/// Law: every action of a run's plan carries exactly one direction of
/// energy transfer: a discharge feeds nothing into the battery and a charge
/// draws nothing from it.
pub proof fn lemma_run_actions_one_sided(
    forecast: Seq<DemandRecordModel>,
    prices: Seq<PriceRecordModel>,
    battery: BatteryState,
    cfg: DispatchConfig,
)
    ensures
        ({
            let after = spec_run(forecast, prices, battery, cfg);
            forall|i: int| 0 <= i < after.plan.len() ==> after.plan[i].one_sided()
        }),
{
    let start = RunModel {
        battery,
        plan: Seq::empty(),
        diags: spec_malformed_demand_diags(forecast) + spec_malformed_price_diags(prices),
    };
    lemma_hours_actions_one_sided(forecast, prices, HOURS_PER_HORIZON as int, start, cfg);
}

/// Law: a whole run keeps the battery invariant. From any battery whose
/// stored energy is within its maximum, the run ends with stored energy
/// between zero and that same maximum, and the battery's constants do not
/// move.
pub proof fn lemma_run_preserves_invariant(
    forecast: Seq<DemandRecordModel>,
    prices: Seq<PriceRecordModel>,
    battery: BatteryState,
    cfg: DispatchConfig,
)
    requires
        battery.wf(),
    ensures
        ({
            let after = spec_run(forecast, prices, battery, cfg);
            &&& 0 <= after.battery.capacity_wh <= after.battery.max_capacity_wh
            &&& after.battery.wf()
            &&& after.battery.max_capacity_wh == battery.max_capacity_wh
            &&& after.battery.max_charge_rate_w == battery.max_charge_rate_w
        }),
{
    let start = RunModel {
        battery,
        plan: Seq::empty(),
        diags: spec_malformed_demand_diags(forecast) + spec_malformed_price_diags(prices),
    };
    lemma_hours_preserve_wf(forecast, prices, HOURS_PER_HORIZON as int, start, cfg);
}

} // verus!
