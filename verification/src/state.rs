//! What the raffle keeps between calls.

use vstd::prelude::*;
use crate::counter::{runs_of, RunCounter};
use crate::date::Timestamp;
use crate::distribution::{
    lemma_replay_returns_pool, no_record_of, replayed, with_pools, DistributionStore, RecordKey,
};
use crate::ids::{clone_ids, ids_view, pools_view};
use crate::packer::{pack, pool_fill, pool_members, Packing};
use crate::planner::{
    allocation_in_range, day_allocation, deficit_of, plan, CapacityPlan,
};
use crate::tribute::{total_interest, FullTributeData};

verus! {

/// The addresses of the raffle's collaborators. One that is not set yet is
/// `None`.
#[derive(Clone, Debug, PartialEq)]
pub struct Config {
    pub vector: Option<String>,
    pub tribute: Option<String>,
    pub nod: Option<String>,
    pub token_allocator: Option<String>,
    pub price_oracle: Option<String>,
}

/// What one pool of a day was planned with and what it took.
#[derive(Clone, Copy, Debug, PartialEq, Eq, Structural)]
pub struct RaffleRunData {
    /// The day, at midnight.
    pub raffle_date: Timestamp,
    /// The time that the raffle was asked for.
    pub raffle_date_time: Timestamp,
    /// The pool, counted from zero.
    pub pool_index: u16,
    pub total_allocation: u128,
    pub pool_allocation: u128,
    pub total_deficit: u128,
    pub pool_deficit: u128,
    pub pool_capacity: u128,
    /// How many tributes the pool took.
    pub assigned_tributes: usize,
    /// The sum of the weights of the tributes that the pool took.
    pub assigned_tributes_sum: u128,
}

/// The pools of the day that was distributed last.
#[derive(Clone, Debug)]
pub struct RaffleHistory {
    pub data: Vec<RaffleRunData>,
}

/// The state of the raffle.
pub struct ContractState {
    /// Who created the raffle.
    pub creator: Option<String>,
    /// The addresses of the collaborators, once the raffle is set up.
    pub config: Option<Config>,
    /// The runs of each day.
    pub daily_raffle: RunCounter,
    /// The pools of each day that was distributed.
    pub tributes_distribution: DistributionStore,
    /// The history of the distribution that was made last.
    pub history: Option<RaffleHistory>,
}

/// The pools that packing `tributes` at `capacity` gives, each as the
/// identifiers of its members.
pub open spec fn packed_pools(tributes: Seq<FullTributeData>, capacity: int) -> Seq<
    Seq<Seq<char>>,
> {
    Seq::new(24, |p: int| pool_members(tributes, capacity, p))
}

/// The capacity of a pool of a day with these tributes at this rate.
pub open spec fn capacity_of(tributes: Seq<FullTributeData>, period_rate: int) -> int {
    day_allocation(period_rate) / 24 + deficit_of(
        day_allocation(period_rate),
        total_interest(tributes),
    ) / 24
}

/// Whether a day with these tributes at this rate can be planned.
pub open spec fn plannable(tributes: Seq<FullTributeData>, period_rate: int) -> bool {
    allocation_in_range(day_allocation(period_rate)) && total_interest(tributes) <= u128::MAX
}

impl RaffleHistory {
    /// Whether this is the history of the distribution of `tributes` on the
    /// day `date` under `plan`: one entry for each pool, in the order of the
    /// pools.
    pub open spec fn is_history_of(
        self,
        date: Timestamp,
        date_time: Timestamp,
        plan: CapacityPlan,
        tributes: Seq<FullTributeData>,
    ) -> bool {
        &&& self.data.len() == 24
        &&& forall|p: int|
            0 <= p < 24 ==> #[trigger] self.data[p] == (RaffleRunData {
                raffle_date: date,
                raffle_date_time: date_time,
                pool_index: p as u16,
                total_allocation: plan.total_allocation,
                pool_allocation: plan.pool_allocation,
                total_deficit: plan.total_deficit,
                pool_deficit: plan.pool_deficit,
                pool_capacity: plan.pool_capacity,
                assigned_tributes: pool_members(tributes, plan.pool_capacity as int, p).len() as usize,
                assigned_tributes_sum: pool_fill(
                    tributes,
                    plan.pool_capacity as int,
                    p,
                ).allocated as u128,
            })
    }
}

/// Writes the history of a distribution: for each pool what it was planned
/// with, how many tributes it took and what they weigh together.
pub(crate) fn history_of(
    date: Timestamp,
    date_time: Timestamp,
    plan: CapacityPlan,
    packing: &Packing,
    Ghost(tributes): Ghost<Seq<FullTributeData>>,
) -> (history: RaffleHistory)
    requires
        packing.is_packing_of(tributes, plan.pool_capacity as int),
    ensures
        history.is_history_of(date, date_time, plan, tributes),
{
    let mut data: Vec<RaffleRunData> = Vec::new();
    let mut pool_index: u16 = 0;
    while pool_index < 24
        invariant
            0 <= pool_index <= 24,
            data.len() == pool_index,
            packing.is_packing_of(tributes, plan.pool_capacity as int),
            forall|p: int|
                0 <= p < pool_index ==> #[trigger] data[p] == (RaffleRunData {
                    raffle_date: date,
                    raffle_date_time: date_time,
                    pool_index: p as u16,
                    total_allocation: plan.total_allocation,
                    pool_allocation: plan.pool_allocation,
                    total_deficit: plan.total_deficit,
                    pool_deficit: plan.pool_deficit,
                    pool_capacity: plan.pool_capacity,
                    assigned_tributes: pool_members(
                        tributes,
                        plan.pool_capacity as int,
                        p,
                    ).len() as usize,
                    assigned_tributes_sum: pool_fill(
                        tributes,
                        plan.pool_capacity as int,
                        p,
                    ).allocated as u128,
                }),
        decreases 24 - pool_index,
    {
        let p: usize = pool_index as usize;
        assert(ids_view(packing.pools[p as int]@).len() == packing.pools[p as int]@.len());
        data.push(
            RaffleRunData {
                raffle_date: date,
                raffle_date_time: date_time,
                pool_index,
                total_allocation: plan.total_allocation,
                pool_allocation: plan.pool_allocation,
                total_deficit: plan.total_deficit,
                pool_deficit: plan.pool_deficit,
                pool_capacity: plan.pool_capacity,
                assigned_tributes: packing.pools[p].len(),
                assigned_tributes_sum: packing.utilization[p],
            },
        );
        pool_index = pool_index + 1;
    }
    RaffleHistory { data }
}

/// The later runs of a day mint what its first run packed: where the records
/// held nothing of the day before its pools were recorded, replaying the pool
/// with the number `p + 1` gives the members of pool `p` as they were packed.
pub proof fn lemma_first_run_replays(
    before: ContractState,
    after: ContractState,
    date: Timestamp,
    date_time: Timestamp,
    tributes: Seq<FullTributeData>,
    period_rate: int,
    p: int,
)
    requires
        no_record_of(before.tributes_distribution@, date.spec_seconds()),
        after.is_distribution_of(before, date, date_time, tributes, period_rate),
        0 <= p < 24,
    ensures
        replayed(after.tributes_distribution@, date.spec_seconds(), p + 1) == pool_members(
            tributes,
            capacity_of(tributes, period_rate),
            p,
        ),
{
    lemma_replay_returns_pool(
        before.tributes_distribution@,
        date.spec_seconds(),
        packed_pools(tributes, capacity_of(tributes, period_rate)),
        p,
    );
}

/// A day's records are not touched by the distribution of another day.
pub proof fn lemma_other_days_kept(
    before: ContractState,
    after: ContractState,
    date: Timestamp,
    date_time: Timestamp,
    tributes: Seq<FullTributeData>,
    period_rate: int,
    key: RecordKey,
)
    requires
        after.is_distribution_of(before, date, date_time, tributes, period_rate),
        key.0 != date.spec_seconds(),
    ensures
        after.tributes_distribution@.contains_key(key)
            <==> before.tributes_distribution@.contains_key(key),
        before.tributes_distribution@.contains_key(key) ==> after.tributes_distribution@[key]
            == before.tributes_distribution@[key],
{
}

impl ContractState {
    /// The state of a raffle that was not set up yet.
    pub fn new() -> (state: ContractState)
        ensures
            state.creator is None,
            state.config is None,
            state.history is None,
            state.daily_raffle@ == Map::<u64, u16>::empty(),
            state.tributes_distribution@ == Map::<RecordKey, Seq<char>>::empty(),
            state.wf(),
    {
        ContractState {
            creator: None,
            config: None,
            daily_raffle: RunCounter::new(),
            tributes_distribution: DistributionStore::new(),
            history: None,
        }
    }

    /// The records are those of days that were raffled: where a day has had
    /// no run, nothing is recorded for it.
    pub open spec fn wf(self) -> bool {
        forall|date: u64|
            runs_of(self.daily_raffle@, date) == 0 ==> no_record_of(
                self.tributes_distribution@,
                date as int,
            )
    }

    /// Whether `after` is this state but for its records and its history.
    pub open spec fn distributed_into(self, after: ContractState) -> bool {
        &&& after.creator == self.creator
        &&& after.config == self.config
        &&& after.daily_raffle == self.daily_raffle
    }

    /// What the distribution of `tributes` on the day `date` leaves behind,
    /// where the day can be planned: the day's pools among the records, and
    /// the history of the distribution.
    pub open spec fn is_distribution_of(
        self,
        before: ContractState,
        date: Timestamp,
        date_time: Timestamp,
        tributes: Seq<FullTributeData>,
        period_rate: int,
    ) -> bool {
        let capacity = capacity_of(tributes, period_rate);
        &&& before.distributed_into(self)
        &&& self.tributes_distribution@ == with_pools(
            before.tributes_distribution@,
            date.spec_seconds(),
            packed_pools(tributes, capacity),
        )
        &&& self.history is Some
        &&& self.history->0.data.len() == 24
        &&& forall|p: int|
            0 <= p < 24 ==> {
                let entry = #[trigger] self.history->0.data[p];
                &&& entry.raffle_date == date
                &&& entry.raffle_date_time == date_time
                &&& entry.pool_index == p
                &&& entry.total_allocation == day_allocation(period_rate)
                &&& entry.pool_allocation == day_allocation(period_rate) / 24
                &&& entry.total_deficit == deficit_of(
                    day_allocation(period_rate),
                    total_interest(tributes),
                )
                &&& entry.pool_deficit == deficit_of(
                    day_allocation(period_rate),
                    total_interest(tributes),
                ) / 24
                &&& entry.pool_capacity == capacity
                &&& entry.assigned_tributes == pool_members(tributes, capacity, p).len()
                &&& entry.assigned_tributes_sum == pool_fill(tributes, capacity, p).allocated
            }
    }

    /// Keeps `history` as the history of the distribution that was made last,
    /// in place of the one that was kept before.
    pub fn save_history(&mut self, history: RaffleHistory)
        ensures
            final(self).history == Some(history),
            final(self).creator == old(self).creator,
            final(self).config == old(self).config,
            final(self).daily_raffle == old(self).daily_raffle,
            final(self).tributes_distribution == old(self).tributes_distribution,
    {
        self.history = Some(history);
    }

    /// Drops the history.
    pub fn clear_history(&mut self)
        ensures
            final(self).history is None,
            final(self).creator == old(self).creator,
            final(self).config == old(self).config,
            final(self).daily_raffle == old(self).daily_raffle,
            final(self).tributes_distribution == old(self).tributes_distribution,
    {
        self.history = None;
    }

    /// The first run of a day: plans the capacity of the pools, packs the
    /// tributes, records the pools and writes the history over the one that
    /// was there. Returns the members of the first pool, or `None`, with
    /// nothing changed, where the day cannot be planned.
    pub fn distribute(
        &mut self,
        date: Timestamp,
        date_time: Timestamp,
        tributes: &Vec<FullTributeData>,
        period_rate: u128,
    ) -> (members: Option<Vec<String>>)
        ensures
            members is Some <==> plannable(tributes@, period_rate as int),
            members is None ==> *final(self) == *old(self),
            members is Some ==> final(self).is_distribution_of(
                *old(self),
                date,
                date_time,
                tributes@,
                period_rate as int,
            ),
            members is Some ==> ids_view(members->0@) == pool_members(
                tributes@,
                capacity_of(tributes@, period_rate as int),
                0,
            ),
    {
        let plan: CapacityPlan = match plan(tributes, period_rate) {
            None => {
                return None;
            },
            Some(plan) => plan,
        };
        let ghost capacity = capacity_of(tributes@, period_rate as int);
        assert(plan.pool_capacity as int == capacity);
        let packing: Packing = pack(tributes, plan.pool_capacity);
        proof {
            crate::packer::lemma_pool_within_capacity(tributes@, capacity, 0);
        }
        self.tributes_distribution.record_pools(date.seconds(), &packing.pools);
        assert(pools_view(packing.pools@) =~= packed_pools(tributes@, capacity));
        let history: RaffleHistory = history_of(date, date_time, plan, &packing, Ghost(tributes@));
        proof {
            assert forall|p: int| 0 <= p < 24 implies 0 <= pool_fill(
                tributes@,
                capacity,
                p,
            ).allocated <= u128::MAX && pool_members(tributes@, capacity, p).len()
                <= usize::MAX by {
                crate::packer::lemma_pool_within_capacity(tributes@, capacity, p);
                let pool = packing.pools[p];
                assert(ids_view(pool@) == pool_members(tributes@, capacity, p));
                assert(ids_view(pool@).len() == pool.len());
            }
        }
        self.save_history(history);
        let members: Vec<String> = clone_ids(&packing.pools[0]);
        Some(members)
    }
}

} // verus!
