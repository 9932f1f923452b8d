//! The output of a run: an ordered, append-only plan of dispatch actions.

use vstd::prelude::*;

verus! {

/// Mathematical model of a [`BatteryUsagePlan`] entry.
#[verifier::ext_equal]
pub ghost struct ActionModel {
    pub start: Seq<char>,
    pub end: Seq<char>,
    pub energy_from_battery_wh: u64,
    pub energy_to_battery_wh: u64,
}

impl ActionModel {
    /// A dispatch action carries exactly one kind of energy transfer: a
    /// discharge draws from the battery, a charge feeds into it, never both.
    pub open spec fn one_sided(self) -> bool {
        self.energy_from_battery_wh == 0 || self.energy_to_battery_wh == 0
    }
}

/// One dispatch action: how much energy to draw from the battery or to feed
/// into it over one interval. The interval's timestamps are carried over
/// from the demand record that produced the action.
#[derive(Clone, Debug, PartialEq)]
pub struct BatteryUsagePlan {
    /// When usage or recharge starts, an RFC 3339 timestamp.
    pub start: String,
    /// When usage or recharge ends, an RFC 3339 timestamp.
    pub end: String,
    /// Energy drawn from the battery over the interval, in watt-hours.
    pub energy_from_battery_wh: u64,
    /// Energy fed into the battery over the interval, in watt-hours.
    pub energy_to_battery_wh: u64,
}

impl View for BatteryUsagePlan {
    type V = ActionModel;

    open spec fn view(&self) -> ActionModel {
        ActionModel {
            start: self.start@,
            end: self.end@,
            energy_from_battery_wh: self.energy_from_battery_wh,
            energy_to_battery_wh: self.energy_to_battery_wh,
        }
    }
}

impl BatteryUsagePlan {
    /// An action over `start..end` with the given energy transfers; an
    /// absent transfer is recorded as zero.
    pub fn new(
        energy_drawn_from_battery: Option<u64>,
        energy_fed_into_battery: Option<u64>,
        start: &str,
        end: &str,
    ) -> (p: BatteryUsagePlan)
        ensures
            p@ == (ActionModel {
                start: start@,
                end: end@,
                energy_from_battery_wh: match energy_drawn_from_battery {
                    Some(e) => e,
                    None => 0,
                },
                energy_to_battery_wh: match energy_fed_into_battery {
                    Some(e) => e,
                    None => 0,
                },
            }),
    {
        BatteryUsagePlan {
            start: start.to_string(),
            end: end.to_string(),
            energy_from_battery_wh: match energy_drawn_from_battery {
                Some(e) => e,
                None => 0,
            },
            energy_to_battery_wh: match energy_fed_into_battery {
                Some(e) => e,
                None => 0,
            },
        }
    }
}

/// The ordered plan of dispatch actions produced across the horizon, in
/// evaluation (that is, chronological) order. Append-only.
#[derive(Clone, Debug, PartialEq)]
pub struct OptimizationPlan {
    planning: Vec<BatteryUsagePlan>,
}

impl View for OptimizationPlan {
    type V = Seq<ActionModel>;

    closed spec fn view(&self) -> Seq<ActionModel> {
        self.planning@.map_values(|p: BatteryUsagePlan| p@)
    }
}

impl OptimizationPlan {
    /// The empty plan.
    pub fn new() -> (plan: OptimizationPlan)
        ensures
            plan@ == Seq::<ActionModel>::empty(),
    {
        OptimizationPlan { planning: Vec::new() }
    }

    /// Append one action to the plan.
    pub fn extend_plan_with(&mut self, plan: BatteryUsagePlan)
        ensures
            final(self)@ == old(self)@.push(plan@),
    {
        self.planning.push(plan);
    }

    /// How many actions the plan holds.
    pub fn len(&self) -> (n: usize)
        ensures
            n == self@.len(),
    {
        self.planning.len()
    }

    /// The actions of the plan, in order.
    pub fn entries(&self) -> (entries: &Vec<BatteryUsagePlan>)
        ensures
            entries@.map_values(|p: BatteryUsagePlan| p@) == self@,
    {
        &self.planning
    }
}

} // verus!
