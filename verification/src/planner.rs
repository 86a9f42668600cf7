//! The capacity of a day's pools.

use vstd::prelude::*;
use vstd::arithmetic::div_mod::lemma_div_multiples_vanish_quotient;
use crate::decimal::{
    decimal_checked_mul, decimal_from_atomics, decimal_percent, decimal_to_uint_floor,
    lemma_pow10_values, product_atomics, Decimal,
};
use crate::tribute::{sum_interest, total_interest, FullTributeData};

verus! {

/// The pools of a day, and the runs that mint them.
pub const POOL_COUNT: u16 = 24;

/// The allocation periods of a day: twelve a minute.
pub const PERIODS_PER_DAY: u128 = 17280;

/// The share of the total allocation that the deficit is at least, in
/// hundredths.
pub const BASE_DEFICIT_PERCENT: u64 = 8;

/// What a day has to hand out, and how much of it one pool can take.
#[derive(Clone, Copy, Debug, PartialEq, Eq, Structural)]
pub struct CapacityPlan {
    pub total_allocation: u128,
    pub pool_allocation: u128,
    pub total_deficit: u128,
    pub pool_deficit: u128,
    pub pool_capacity: u128,
}

/// The allocation of a whole day at `period_rate` a period.
pub open spec fn day_allocation(period_rate: int) -> int {
    period_rate * 17280
}

/// Eight percent of the total allocation, rounded down.
pub open spec fn base_deficit_of(total_allocation: int) -> int {
    total_allocation * 8 / 100
}

/// The deficit of a day: the base deficit, or what the interest has over the
/// allocation where that is more.
pub open spec fn deficit_of(total_allocation: int, interest: int) -> int {
    let base = base_deficit_of(total_allocation);
    if interest > total_allocation && interest - total_allocation > base {
        interest - total_allocation
    } else {
        base
    }
}

/// The largest total allocation that fixed-point arithmetic takes: one whose
/// atomic units, 10^18 to a whole, fit 128 bits.
pub open spec fn allocation_in_range(total_allocation: int) -> bool {
    0 <= total_allocation && total_allocation * 1_000_000_000_000_000_000 <= u128::MAX
}

impl CapacityPlan {
    /// Whether the plan is the one for this total allocation and interest.
    pub open spec fn is_plan_of(self, total_allocation: int, interest: int) -> bool {
        &&& self.total_allocation == total_allocation
        &&& self.pool_allocation == total_allocation / 24
        &&& self.total_deficit == deficit_of(total_allocation, interest)
        &&& self.pool_deficit == deficit_of(total_allocation, interest) / 24
        &&& self.pool_capacity == total_allocation / 24 + deficit_of(total_allocation, interest)
            / 24
    }

    /// What the fields of a plan owe each other.
    pub open spec fn wf(self) -> bool {
        &&& self.pool_allocation == self.total_allocation / 24
        &&& self.pool_deficit == self.total_deficit / 24
        &&& self.pool_capacity == self.pool_allocation + self.pool_deficit
    }
}

/// Eight percent of `total_allocation`, rounded down, computed in fixed point.
/// `None` says that the allocation is out of the range of fixed-point
/// arithmetic, and only then is there none.
pub fn base_deficit(total_allocation: u128) -> (deficit: Option<u128>)
    ensures
        deficit is Some <==> allocation_in_range(total_allocation as int),
        deficit is Some ==> deficit->0 == base_deficit_of(total_allocation as int),
{
    proof {
        lemma_pow10_values();
    }
    let share: Decimal = decimal_percent(BASE_DEFICIT_PERCENT);
    match decimal_from_atomics(total_allocation, 0) {
        None => None,
        Some(whole) => {
            assert(whole.atomics == total_allocation * 1_000_000_000_000_000_000);
            assert(share.atomics == 80_000_000_000_000_000);
            let ghost t = total_allocation as int;
            assert(share.atomics as nat * whole.atomics as nat == (80_000_000_000_000_000 * t)
                * 1_000_000_000_000_000_000) by (nonlinear_arith)
                requires
                    share.atomics == 80_000_000_000_000_000,
                    whole.atomics == t * 1_000_000_000_000_000_000,
                    t >= 0,
            ;
            assert(((80_000_000_000_000_000 * t) * 1_000_000_000_000_000_000)
                / 1_000_000_000_000_000_000 == 80_000_000_000_000_000 * t) by (nonlinear_arith)
                requires
                    t >= 0,
            ;
            assert(product_atomics(share, whole) == 80_000_000_000_000_000 * t);
            proof {
                lemma_div_multiples_vanish_quotient(10_000_000_000_000_000, 8 * t, 100);
                assert(10_000_000_000_000_000 * (8 * t) == 80_000_000_000_000_000 * t);
                assert(10_000_000_000_000_000 * 100 == 1_000_000_000_000_000_000int);
            }
            match decimal_checked_mul(share, whole) {
                None => None,
                Some(part) => Some(decimal_to_uint_floor(part)),
            }
        },
    }
}

/// Plans the capacity of a day's pools from the rate of one allocation period
/// and the day's tributes.
///
/// The total allocation is the rate times the periods of a day, the deficit is
/// eight percent of it or the excess of the total interest over it, whichever
/// is more, and a pool takes a twenty-fourth of each. `None` says that the
/// total interest does not fit 128 bits or that the total allocation is out of
/// the range of fixed-point arithmetic, and only then is there none.
pub fn plan(tributes: &Vec<FullTributeData>, period_rate: u128) -> (plan: Option<CapacityPlan>)
    ensures
        plan is Some <==> allocation_in_range(day_allocation(period_rate as int))
            && total_interest(tributes@) <= u128::MAX,
        plan is Some ==> plan->0.is_plan_of(
            day_allocation(period_rate as int),
            total_interest(tributes@),
        ),
        plan is Some ==> plan->0.wf(),
{
    if period_rate > u128::MAX / PERIODS_PER_DAY {
        return None;
    }
    let total_allocation: u128 = period_rate * PERIODS_PER_DAY;
    let interest: u128 = match sum_interest(tributes) {
        None => {
            return None;
        },
        Some(sum) => sum,
    };
    plan_for(total_allocation, interest)
}

/// Plans the capacity of a day's pools from what the day has to hand out
/// and the total interest of its tributes. `None` says that the total
/// allocation is out of the range of fixed-point arithmetic, and only then is
/// there none.
pub fn plan_for(total_allocation: u128, interest: u128) -> (plan: Option<CapacityPlan>)
    ensures
        plan is Some <==> allocation_in_range(total_allocation as int),
        plan is Some ==> plan->0.is_plan_of(total_allocation as int, interest as int),
        plan is Some ==> plan->0.wf(),
{
    let base: u128 = match base_deficit(total_allocation) {
        None => {
            return None;
        },
        Some(base) => base,
    };
    let pool_allocation: u128 = total_allocation / 24;
    let mut total_deficit: u128 = base;
    if interest > total_allocation && interest - total_allocation > total_deficit {
        total_deficit = interest - total_allocation;
    }
    let pool_deficit: u128 = total_deficit / 24;
    let pool_capacity: u128 = pool_allocation + pool_deficit;
    Some(
        CapacityPlan { total_allocation, pool_allocation, total_deficit, pool_deficit, pool_capacity },
    )
}

/// Floor division never hands out more than there is: twenty-four pool
/// allocations are at most the total allocation, and twenty-four pool
/// deficits at most the total deficit.
pub proof fn lemma_capacity_conserved(plan: CapacityPlan)
    requires
        plan.wf(),
    ensures
        plan.pool_allocation * 24 <= plan.total_allocation,
        plan.pool_deficit * 24 <= plan.total_deficit,
        plan.pool_capacity * 24 <= plan.total_allocation + plan.total_deficit,
{
}

/// The deficit is never under the base deficit, and with it the allocation
/// covers the interest.
pub proof fn lemma_deficit_covers_interest(total_allocation: int, interest: int)
    requires
        0 <= total_allocation,
        0 <= interest,
    ensures
        deficit_of(total_allocation, interest) >= base_deficit_of(total_allocation),
        total_allocation + deficit_of(total_allocation, interest) >= interest,
{
}

} // verus!
