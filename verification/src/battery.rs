//! The battery model: a capacity tracker with a fixed maximum capacity and a
//! fixed ceiling on how much energy a single charge action may absorb.

use vstd::prelude::*;

use crate::errors::DispatchError;

verus! {

/// The smallest of three integers.
pub open spec fn min3(a: int, b: int, c: int) -> int {
    if a <= b && a <= c {
        a
    } else if b <= c {
        b
    } else {
        c
    }
}

/// Current stored energy of the facility's battery, together with the two
/// constants of the battery itself: its maximum capacity and the most energy
/// one charge action may feed into it.
///
/// Energies are in watt-hours, the charge ceiling in watts; one dispatch
/// action spans one forecast interval, so the two scales are used
/// interchangeably, as the dispatch rule does.
#[derive(Clone, Copy, Debug, PartialEq, Eq, Structural)]
pub struct BatteryState {
    /// Stored energy in watt-hours; never exceeds `max_capacity_wh`.
    pub capacity_wh: u64,
    /// Maximum stored energy in watt-hours (constant over a run).
    pub max_capacity_wh: u64,
    /// Ceiling on the energy absorbed by a single charge action, in watts
    /// (constant over a run).
    pub max_charge_rate_w: u64,
}

impl BatteryState {
    /// The battery invariant: stored energy never exceeds the maximum.
    pub open spec fn wf(self) -> bool {
        self.capacity_wh <= self.max_capacity_wh
    }

    /// Energy the battery can still absorb before it is full, ignoring the
    /// charge-rate ceiling.
    pub open spec fn spec_headroom(self) -> int {
        self.max_capacity_wh - self.capacity_wh
    }

    /// Energy a charge request of `amount_wh` actually feeds into the
    /// battery: bounded by the request, the charge-rate ceiling, and the
    /// remaining headroom.
    pub open spec fn spec_absorbed(self, amount_wh: int) -> int {
        min3(amount_wh, self.max_charge_rate_w as int, self.spec_headroom())
    }

    /// A battery with the given stored energy and constants.
    pub fn new(capacity_wh: u64, max_capacity_wh: u64, max_charge_rate_w: u64) -> (b: BatteryState)
        requires
            capacity_wh <= max_capacity_wh,
        ensures
            b == (BatteryState { capacity_wh, max_capacity_wh, max_charge_rate_w }),
            b.wf(),
    {
        BatteryState { capacity_wh, max_capacity_wh, max_charge_rate_w }
    }

    /// A battery whose stored energy is the given percentage of its maximum
    /// capacity, rounded down to a whole watt-hour.
    pub fn at_fraction(max_capacity_wh: u64, max_charge_rate_w: u64, charge_percent: u64) -> (b:
        BatteryState)
        requires
            charge_percent <= 100,
            max_capacity_wh * charge_percent <= u64::MAX,
        ensures
            b.capacity_wh == max_capacity_wh * charge_percent / 100,
            b.max_capacity_wh == max_capacity_wh,
            b.max_charge_rate_w == max_charge_rate_w,
            b.wf(),
    {
        let capacity_wh = max_capacity_wh * charge_percent / 100;
        proof {
            assert(max_capacity_wh * charge_percent <= max_capacity_wh * 100) by (nonlinear_arith)
                requires
                    charge_percent <= 100,
            ;
            assert(max_capacity_wh * 100 / 100 == max_capacity_wh);
        }
        BatteryState { capacity_wh, max_capacity_wh, max_charge_rate_w }
    }

    /// Energy that can still be discharged: the stored energy itself.
    pub fn available_capacity(&self) -> (r: u64)
        ensures
            r == self.capacity_wh,
    {
        self.capacity_wh
    }

    /// Energy the battery can still absorb before it is full, ignoring the
    /// charge-rate ceiling.
    pub fn headroom(&self) -> (r: u64)
        requires
            self.wf(),
        ensures
            r == self.spec_headroom(),
    {
        self.max_capacity_wh - self.capacity_wh
    }

    /// Whether the battery is exactly at its maximum capacity. The check is
    /// exact on purpose: a battery one watt-hour short of full is not full,
    /// and a subsequent charge absorbs that one watt-hour.
    pub fn is_full(&self) -> (r: bool)
        ensures
            r == (self.capacity_wh == self.max_capacity_wh),
    {
        self.capacity_wh == self.max_capacity_wh
    }

    /// Feed energy into the battery. The amount absorbed is bounded by the
    /// request, the charge-rate ceiling, and the remaining headroom, so the
    /// stored energy never exceeds the maximum; the absorbed amount (which
    /// may be less than requested) is returned.
    pub fn charge(&mut self, amount_wh: u64) -> (absorbed: u64)
        requires
            old(self).wf(),
        ensures
            absorbed == old(self).spec_absorbed(amount_wh as int),
            final(self).capacity_wh == old(self).capacity_wh + absorbed,
            final(self).max_capacity_wh == old(self).max_capacity_wh,
            final(self).max_charge_rate_w == old(self).max_charge_rate_w,
            final(self).wf(),
    {
        let rate_bound = if amount_wh <= self.max_charge_rate_w {
            amount_wh
        } else {
            self.max_charge_rate_w
        };
        let headroom = self.max_capacity_wh - self.capacity_wh;
        let absorbed = if rate_bound <= headroom {
            rate_bound
        } else {
            headroom
        };
        self.capacity_wh = self.capacity_wh + absorbed;
        absorbed
    }

    /// Draw energy from the battery. Fails with `InsufficientCapacity`, and
    /// leaves the battery unchanged, exactly when more is requested than is
    /// stored.
    pub fn discharge(&mut self, amount_wh: u64) -> (r: Result<(), DispatchError>)
        requires
            old(self).wf(),
        ensures
            amount_wh <= old(self).capacity_wh ==> r is Ok && final(self).capacity_wh == old(
                self,
            ).capacity_wh - amount_wh,
            amount_wh > old(self).capacity_wh ==> r == Err::<(), DispatchError>(
                DispatchError::InsufficientCapacity,
            ) && *final(self) == *old(self),
            final(self).max_capacity_wh == old(self).max_capacity_wh,
            final(self).max_charge_rate_w == old(self).max_charge_rate_w,
            final(self).wf(),
    {
        if amount_wh > self.capacity_wh {
            Err(DispatchError::InsufficientCapacity)
        } else {
            self.capacity_wh = self.capacity_wh - amount_wh;
            Ok(())
        }
    }
}

} // verus!
