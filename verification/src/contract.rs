//! The calls of the raffle.
//!
//! A run of the raffle needs answers from other contracts, and which it needs
//! depends on the answers before. So a run is carried out in steps: `execute`
//! starts it and returns the first question, and `resume` takes the answer to
//! the question that is open and returns the next one, or the response when
//! the run is done. The caller asks the questions.

use vstd::prelude::*;
use vstd::string::*;
use crate::counter::{bumped, runs_of};
use crate::date::{normalize_to_date, Timestamp};
use crate::decimal::Decimal;
use crate::distribution::{lemma_replay_of_nothing, replayed};
use crate::error::ContractError;
use crate::ids::ids_view;
use crate::mint::mint_command;
use crate::mint::floor_price_in_range;
use crate::msg::{Env, ExecuteMsg, InstantiateMsg, MessageInfo};
use crate::nft::NftInfoResponse;
use crate::nod::MintCommand;
use crate::packer::pool_members;
use crate::query::{Answer, Query, QueryMsg, Status};
use crate::response::{logged, Attribute, Event, Response};
use crate::state::{capacity_of, lemma_first_run_replays, plannable, Config, ContractState};
use crate::text::{decimal_digits, decimal_string, owned};
use crate::tribute::{FullTributeData, TributeData};
use crate::vector::{find_vector, has_vector, vector_rate_for};

verus! {

/// The answer that a run waits for.
#[derive(Clone, Copy, Debug, PartialEq, Eq, Structural)]
pub enum Stage {
    /// The tributes of the day.
    Tributes,
    /// The allocation of one period.
    Allocation,
    /// The settings of the tribute ledger.
    ContractInfo,
    /// The rate tiers.
    Vectors,
    /// The price of the day.
    Price,
    /// The tribute that is minted next.
    Tribute,
}

/// The addresses of the collaborators of a run.
#[derive(Clone, Debug)]
pub struct Addresses {
    pub tribute: String,
    pub token_allocator: String,
    pub vector: String,
    pub price_oracle: String,
    pub nod: String,
}

/// A run of the raffle that is under way.
#[derive(Debug)]
pub struct RaffleRun {
    pub stage: Stage,
    pub addresses: Addresses,
    /// The time that the raffle was asked for.
    pub date_time: Timestamp,
    /// The day of the raffle, at midnight.
    pub date: Timestamp,
    /// The index of the run, counted from one.
    pub run: u16,
    /// The tributes of the day, in a first run.
    pub tributes: Vec<FullTributeData>,
    /// The members of the run's pool.
    pub members: Vec<String>,
    pub symbolic_rate: Decimal,
    pub vector_rate: u128,
    pub price: Decimal,
    /// The orders to mint that are made so far: one for each of the first
    /// members of the pool.
    pub messages: Vec<MintCommand>,
}

/// How far a call has come.
#[derive(Debug)]
pub enum Progress {
    /// The call is done.
    Finished(Response),
    /// The run goes on with the answer to this question.
    Pending(RaffleRun, Query),
}

impl Config {
    /// Whether every collaborator has its address.
    pub open spec fn complete(self) -> bool {
        &&& self.vector is Some
        &&& self.tribute is Some
        &&& self.nod is Some
        &&& self.token_allocator is Some
        &&& self.price_oracle is Some
    }
}

impl Addresses {
    /// Whether these are the addresses that `config` holds.
    pub open spec fn are_of(self, config: Config) -> bool {
        &&& config.complete()
        &&& self.vector@ == config.vector->0@
        &&& self.tribute@ == config.tribute->0@
        &&& self.nod@ == config.nod->0@
        &&& self.token_allocator@ == config.token_allocator->0@
        &&& self.price_oracle@ == config.price_oracle->0@
    }
}

impl RaffleRun {
    /// Whether `query` is the question that the run waits for an answer to.
    pub open spec fn asks(self, query: Query) -> bool {
        match self.stage {
            Stage::Tributes => {
                &&& query.contract_addr@ == self.addresses.tribute@
                &&& query.msg == (QueryMsg::DailyTributes {
                    date: self.date_time,
                    status: Some(Status::Accepted),
                })
            },
            Stage::Allocation => {
                &&& query.contract_addr@ == self.addresses.token_allocator@
                &&& query.msg == (QueryMsg::GetData {  })
            },
            Stage::ContractInfo => {
                &&& query.contract_addr@ == self.addresses.tribute@
                &&& query.msg == (QueryMsg::ContractInfo {  })
            },
            Stage::Vectors => {
                &&& query.contract_addr@ == self.addresses.vector@
                &&& query.msg == (QueryMsg::Vectors {  })
            },
            Stage::Price => {
                &&& query.contract_addr@ == self.addresses.price_oracle@
                &&& query.msg == (QueryMsg::GetPrice {  })
            },
            Stage::Tribute => {
                &&& query.contract_addr@ == self.addresses.tribute@
                &&& self.messages.len() < self.members.len()
                &&& match query.msg {
                    QueryMsg::NftInfo { token_id } => token_id@
                        == self.members[self.messages.len() as int]@,
                    _ => false,
                }
            },
        }
    }

    /// Whether every member of the pool has its order to mint.
    pub open spec fn minted_all(self) -> bool {
        self.messages.len() >= self.members.len()
    }

    /// Whether `response` logs the end of this run: the action, and an event
    /// that tells the run's index and the number of members of its pool.
    pub open spec fn logs_end(self, response: Response) -> bool {
        response.logs_two(
            "raffle::raffle"@,
            "run"@,
            decimal_digits(self.run as nat),
            "tributes_count"@,
            decimal_digits(self.members.len() as nat),
        )
    }

    /// Whether `response` is the response of this run, once it is done: the
    /// orders to mint in the order of the pool's members, and the log of
    /// the run's end.
    pub open spec fn finishes_with(self, response: Response) -> bool {
        &&& response.messages == self.messages
        &&& self.logs_end(response)
    }

    /// Whether `messages` are the orders of this run and, after them, the
    /// order to mint the member that is next, with what `tribute` tells of
    /// it.
    pub open spec fn mints_next(
        self,
        tribute: NftInfoResponse<TributeData>,
        messages: Seq<MintCommand>,
    ) -> bool {
        let n = self.messages.len() as int;
        &&& messages.len() == n + 1
        &&& messages.take(n) == self.messages@
        &&& messages[n].is_mint_of(
            self.addresses.nod@,
            self.members@[n]@,
            self.run,
            tribute,
            self.symbolic_rate,
            self.vector_rate,
            self.price,
        )
    }

    /// Whether `result` says that the run goes on as `self`, with the
    /// question that `self` waits for.
    pub open spec fn goes_on(self, result: Result<Progress, ContractError>) -> bool {
        match result {
            Ok(Progress::Pending(run, query)) => run == self && self.asks(query),
            _ => false,
        }
    }

    /// Whether `result` says that the run `self` is done.
    pub open spec fn is_done(self, result: Result<Progress, ContractError>) -> bool {
        match result {
            Ok(Progress::Finished(response)) => self.finishes_with(response),
            _ => false,
        }
    }

    /// Whether `result` is how the run `self` goes on once its price is
    /// known: with the next tribute to mint, or with the response where
    /// none is left.
    pub open spec fn mints_on(self, result: Result<Progress, ContractError>) -> bool {
        if self.minted_all() {
            self.is_done(result)
        } else {
            self.goes_on(result)
        }
    }
}

/// The question that a run waits for.
fn question(run: &RaffleRun) -> (query: Query)
    requires
        run.stage == Stage::Tribute ==> run.messages.len() < run.members.len(),
    ensures
        run.asks(query),
{
    match run.stage {
        Stage::Tributes => Query {
            contract_addr: run.addresses.tribute.clone(),
            msg: QueryMsg::DailyTributes { date: run.date_time, status: Some(Status::Accepted) },
        },
        Stage::Allocation => Query {
            contract_addr: run.addresses.token_allocator.clone(),
            msg: QueryMsg::GetData {  },
        },
        Stage::ContractInfo => Query {
            contract_addr: run.addresses.tribute.clone(),
            msg: QueryMsg::ContractInfo {  },
        },
        Stage::Vectors => Query {
            contract_addr: run.addresses.vector.clone(),
            msg: QueryMsg::Vectors {  },
        },
        Stage::Price => Query {
            contract_addr: run.addresses.price_oracle.clone(),
            msg: QueryMsg::GetPrice {  },
        },
        Stage::Tribute => Query {
            contract_addr: run.addresses.tribute.clone(),
            msg: QueryMsg::NftInfo { token_id: run.members[run.messages.len()].clone() },
        },
    }
}

/// The run goes on: with the question that it waits for.
fn pending(run: RaffleRun) -> (result: Result<Progress, ContractError>)
    requires
        run.stage == Stage::Tribute ==> run.messages.len() < run.members.len(),
    ensures
        run.goes_on(result),
{
    let query: Query = question(&run);
    Ok(Progress::Pending(run, query))
}

/// The response of a run that is done.
fn finish(run: RaffleRun) -> (result: Result<Progress, ContractError>)
    ensures
        run.is_done(result),
{
    let mut attributes: Vec<Attribute> = Vec::new();
    attributes.push(Attribute { key: owned("action"), value: owned("raffle::raffle") });
    let mut event_attributes: Vec<Attribute> = Vec::new();
    event_attributes.push(Attribute { key: owned("run"), value: decimal_string(run.run as u64) });
    event_attributes.push(
        Attribute {
            key: owned("tributes_count"),
            value: decimal_string(run.members.len() as u64),
        },
    );
    let mut events: Vec<Event> = Vec::new();
    events.push(Event { ty: owned("raffle::raffle"), attributes: event_attributes });
    Ok(Progress::Finished(Response { messages: run.messages, attributes, events }))
}

/// The run goes on with the next tribute to mint, or is done where none is
/// left.
fn mint_on(run: RaffleRun) -> (result: Result<Progress, ContractError>)
    requires
        run.stage == Stage::Tribute,
    ensures
        run.mints_on(result),
{
    if run.messages.len() >= run.members.len() {
        finish(run)
    } else {
        pending(run)
    }
}

/// The time that a raffle is asked for: the one named, or the block's.
pub open spec fn raffle_time(env: Env, raffle_date: Option<Timestamp>) -> Timestamp {
    match raffle_date {
        Some(time) => time,
        None => env.block.time,
    }
}

/// The second of the day that a raffle is asked for.
pub open spec fn raffle_day(env: Env, raffle_date: Option<Timestamp>) -> u64 {
    raffle_time(env, raffle_date).spec_normalized().spec_seconds() as u64
}

/// Whether `run` is the run that starts at count `count` of its day, with
/// the state `before`.
pub open spec fn is_start_of(
    run: RaffleRun,
    before: ContractState,
    env: Env,
    raffle_date: Option<Timestamp>,
    count: int,
) -> bool {
    &&& run.date_time == raffle_time(env, raffle_date)
    &&& run.date == raffle_time(env, raffle_date).spec_normalized()
    &&& run.run == count + 1
    &&& before.config is Some
    &&& run.addresses.are_of(before.config->0)
    &&& run.tributes@.len() == 0
    &&& run.messages@.len() == 0
    &&& run.symbolic_rate.atomics == 0
    &&& run.vector_rate == 0
    &&& run.price.atomics == 0
    &&& if count == 0 {
        &&& run.stage == Stage::Tributes
        &&& run.members@.len() == 0
    } else {
        &&& run.stage == Stage::ContractInfo
        &&& ids_view(run.members@) == replayed(
            before.tributes_distribution@,
            raffle_day(env, raffle_date) as int,
            count + 1,
        )
    }
}

/// What the start of a run does. The run is counted first. A day that has
/// been raffled 65535 times has no further run; a raffle whose collaborators
/// are not all known fails after its run was counted. The first run of a day
/// starts by asking for the day's tributes; a later run takes the members of
/// its pool from the records and starts by asking for the ledger's settings.
pub open spec fn started(
    before: ContractState,
    env: Env,
    raffle_date: Option<Timestamp>,
    after: ContractState,
    result: Result<Progress, ContractError>,
) -> bool {
    let day = raffle_day(env, raffle_date);
    let count = runs_of(before.daily_raffle@, day);
    if count >= u16::MAX {
        &&& after == before
        &&& result == Err::<Progress, ContractError>(ContractError::BadRunConfiguration {  })
    } else {
        &&& after.creator == before.creator
        &&& after.config == before.config
        &&& after.tributes_distribution == before.tributes_distribution
        &&& after.history == before.history
        &&& after.daily_raffle@ == bumped(before.daily_raffle@, day)
        &&& if before.config is Some && before.config->0.complete() {
            match result {
                Ok(Progress::Pending(run, query)) => {
                    &&& is_start_of(run, before, env, raffle_date, count)
                    &&& run.asks(query)
                },
                _ => false,
            }
        } else {
            result == Err::<Progress, ContractError>(ContractError::NotInitialized {  })
        }
    }
}

/// The addresses of a configuration that has them all.
fn addresses_of(config: &Config) -> (addresses: Option<Addresses>)
    ensures
        addresses is Some <==> config.complete(),
        addresses is Some ==> addresses->0.are_of(*config),
{
    match (
        &config.vector,
        &config.tribute,
        &config.nod,
        &config.token_allocator,
        &config.price_oracle,
    ) {
        (Some(vector), Some(tribute), Some(nod), Some(token_allocator), Some(price_oracle)) => Some(
            Addresses {
                tribute: tribute.clone(),
                token_allocator: token_allocator.clone(),
                vector: vector.clone(),
                price_oracle: price_oracle.clone(),
                nod: nod.clone(),
            },
        ),
        _ => None,
    }
}

/// Starts a run of the raffle of the day of `raffle_date`, or of the block's
/// day where none is given.
pub fn execute_raffle(state: &mut ContractState, env: &Env, raffle_date: Option<Timestamp>) -> (result:
    Result<Progress, ContractError>)
    ensures
        started(*old(state), *env, raffle_date, *final(state), result),
        old(state).wf() ==> final(state).wf(),
{
    let date_time: Timestamp = match raffle_date {
        Some(time) => time,
        None => env.block.time,
    };
    let date: Timestamp = normalize_to_date(date_time);
    let day: u64 = date.seconds();
    if state.daily_raffle.current(day) == u16::MAX {
        return Err(ContractError::BadRunConfiguration {  });
    }
    let run: u16 = state.daily_raffle.next_run(day);
    let addresses: Addresses = match &state.config {
        None => {
            return Err(ContractError::NotInitialized {  });
        },
        Some(config) => match addresses_of(config) {
            None => {
                return Err(ContractError::NotInitialized {  });
            },
            Some(addresses) => addresses,
        },
    };
    let mut stage: Stage = Stage::Tributes;
    let mut members: Vec<String> = Vec::new();
    if run != 1 {
        stage = Stage::ContractInfo;
        members = state.tributes_distribution.replay(day, run);
    }
    pending(
        RaffleRun {
            stage,
            addresses,
            date_time,
            date,
            run,
            tributes: Vec::new(),
            members,
            symbolic_rate: Decimal::raw(0),
            vector_rate: 0,
            price: Decimal::raw(0),
            messages: Vec::new(),
        },
    )
}

/// Whether `result` is the error of an answer that cannot be worked with.
pub open spec fn fails_upstream(result: Result<Progress, ContractError>) -> bool {
    result == Err::<Progress, ContractError>(ContractError::UpstreamQueryFailure {  })
}

/// What the allocation of one period, `amount`, does to a first run that has
/// the day's tributes: where the day can be planned, the pools are packed and
/// recorded, the history is written, and the run goes on with the first pool
/// as its members; else the run fails and nothing is changed.
pub open spec fn allocated(
    before: ContractState,
    run: RaffleRun,
    amount: u128,
    after: ContractState,
    result: Result<Progress, ContractError>,
) -> bool {
    if plannable(run.tributes@, amount as int) {
        &&& after.is_distribution_of(before, run.date, run.date_time, run.tributes@, amount as int)
        &&& match result {
            Ok(Progress::Pending(next, query)) => {
                &&& next == (RaffleRun { stage: Stage::ContractInfo, members: next.members, ..run })
                &&& ids_view(next.members@) == pool_members(
                    run.tributes@,
                    capacity_of(run.tributes@, amount as int),
                    0,
                )
                &&& next.asks(query)
            },
            _ => false,
        }
    } else {
        &&& after == before
        &&& fails_upstream(result)
    }
}

/// What the tribute `tribute` does to a run that mints: where a member is
/// left and the floor price is in range, the order to mint the next member
/// is added, and the run goes on with the member after it, or is done where
/// that was the last; else the run fails.
pub open spec fn minted(
    run: RaffleRun,
    tribute: NftInfoResponse<TributeData>,
    result: Result<Progress, ContractError>,
) -> bool {
    let n = run.messages.len() as int;
    if n < run.members.len() && floor_price_in_range(run.price, run.vector_rate as int) {
        match result {
            Ok(Progress::Pending(next, query)) => {
                &&& n + 1 < run.members.len()
                &&& next == (RaffleRun { messages: next.messages, ..run })
                &&& run.mints_next(tribute, next.messages@)
                &&& next.asks(query)
            },
            Ok(Progress::Finished(response)) => {
                &&& n + 1 == run.members.len()
                &&& run.mints_next(tribute, response.messages@)
                &&& run.logs_end(response)
            },
            Err(_) => false,
        }
    } else {
        fails_upstream(result)
    }
}

/// What an answer does to a run and to the state. Only the allocation
/// changes the state. An answer that the run does not wait for, or none,
/// fails the run, and so does a day that has no tier for the run.
pub open spec fn resumed(
    before: ContractState,
    run: RaffleRun,
    answer: Answer,
    after: ContractState,
    result: Result<Progress, ContractError>,
) -> bool {
    match (run.stage, answer) {
        (Stage::Tributes, Answer::DailyTributes(daily)) => {
            &&& after == before
            &&& (RaffleRun { stage: Stage::Allocation, tributes: daily.tributes, ..run }).goes_on(
                result,
            )
        },
        (Stage::Allocation, Answer::GetData(data)) => allocated(
            before,
            run,
            data.amount,
            after,
            result,
        ),
        (Stage::ContractInfo, Answer::ContractInfo(info)) => {
            &&& after == before
            &&& (RaffleRun {
                stage: Stage::Vectors,
                symbolic_rate: info.collection_config.symbolic_rate,
                ..run
            }).goes_on(result)
        },
        (Stage::Vectors, Answer::Vectors(all)) => {
            &&& after == before
            &&& if has_vector(all.vectors@, run.run) {
                (RaffleRun {
                    stage: Stage::Price,
                    vector_rate: vector_rate_for(all.vectors@, run.run),
                    ..run
                }).goes_on(result)
            } else {
                result == Err::<Progress, ContractError>(ContractError::BadRunConfiguration {  })
            }
        },
        (Stage::Price, Answer::GetPrice(pair)) => {
            &&& after == before
            &&& (RaffleRun { stage: Stage::Tribute, price: pair.price, ..run }).mints_on(result)
        },
        (Stage::Tribute, Answer::NftInfo(tribute)) => {
            &&& after == before
            &&& minted(run, tribute, result)
        },
        _ => {
            &&& after == before
            &&& fails_upstream(result)
        },
    }
}

/// Takes the allocation of one period into a first run.
fn allocate(state: &mut ContractState, run: RaffleRun, amount: u128) -> (result: Result<
    Progress,
    ContractError,
>)
    requires
        run.stage == Stage::Allocation,
    ensures
        allocated(*old(state), run, amount, *final(state), result),
{
    let mut next: RaffleRun = run;
    match state.distribute(next.date, next.date_time, &next.tributes, amount) {
        None => Err(ContractError::UpstreamQueryFailure {  }),
        Some(members) => {
            next.stage = Stage::ContractInfo;
            next.members = members;
            pending(next)
        },
    }
}

/// Takes the tribute that is minted next into a run.
fn mint(run: RaffleRun, tribute: &NftInfoResponse<TributeData>) -> (result: Result<
    Progress,
    ContractError,
>)
    requires
        run.stage == Stage::Tribute,
    ensures
        minted(run, *tribute, result),
{
    let mut next: RaffleRun = run;
    let n: usize = next.messages.len();
    if n >= next.members.len() {
        return Err(ContractError::UpstreamQueryFailure {  });
    }
    let command: MintCommand = match mint_command(
        &next.addresses.nod,
        &next.members[n],
        next.run,
        tribute,
        next.symbolic_rate,
        next.vector_rate,
        next.price,
    ) {
        None => {
            return Err(ContractError::UpstreamQueryFailure {  });
        },
        Some(command) => command,
    };
    next.messages.push(command);
    assert(next.messages@.take(n as int) =~= run.messages@);
    mint_on(next)
}

/// Goes on with a run: takes the answer to the question that the run waits
/// for and returns the next question, or the response when the run is done.
pub fn resume(state: &mut ContractState, run: RaffleRun, answer: Answer) -> (result: Result<
    Progress,
    ContractError,
>)
    ensures
        resumed(*old(state), run, answer, *final(state), result),
        old(state).wf() && runs_of(old(state).daily_raffle@, run.date.spec_seconds() as u64) >= 1
            ==> final(state).wf(),
{
    let mut next: RaffleRun = run;
    match (next.stage, answer) {
        (Stage::Tributes, Answer::DailyTributes(daily)) => {
            next.stage = Stage::Allocation;
            next.tributes = daily.tributes;
            pending(next)
        },
        (Stage::Allocation, Answer::GetData(data)) => allocate(state, next, data.amount),
        (Stage::ContractInfo, Answer::ContractInfo(info)) => {
            next.stage = Stage::Vectors;
            next.symbolic_rate = info.collection_config.symbolic_rate;
            pending(next)
        },
        (Stage::Vectors, Answer::Vectors(all)) => {
            match find_vector(&all.vectors, next.run) {
                None => Err(ContractError::BadRunConfiguration {  }),
                Some(i) => {
                    next.stage = Stage::Price;
                    next.vector_rate = all.vectors[i].vector_rate;
                    pending(next)
                },
            }
        },
        (Stage::Price, Answer::GetPrice(pair)) => {
            next.stage = Stage::Tribute;
            next.price = pair.price;
            mint_on(next)
        },
        (Stage::Tribute, Answer::NftInfo(tribute)) => mint(next, &tribute),
        _ => Err(ContractError::UpstreamQueryFailure {  }),
    }
}

/// What setting the raffle up does: it fails where the raffle was set up
/// before; else the addresses of the message are kept, and the creator is
/// the one that the message names, or the sender where it names none.
pub open spec fn instantiated(
    before: ContractState,
    info: MessageInfo,
    msg: InstantiateMsg,
    after: ContractState,
    result: Result<Response, ContractError>,
) -> bool {
    if before.config is Some {
        &&& after == before
        &&& result == Err::<Response, ContractError>(ContractError::AlreadyInitialized {  })
    } else {
        let creator = match msg.creator {
            Some(creator) => creator@,
            None => info.sender@,
        };
        &&& after.config == Some(
            Config {
                vector: msg.vector,
                tribute: msg.tribute,
                nod: msg.nod,
                token_allocator: msg.token_allocator,
                price_oracle: msg.price_oracle,
            },
        )
        &&& after.creator is Some
        &&& after.creator->0@ == creator
        &&& after.daily_raffle == before.daily_raffle
        &&& after.tributes_distribution == before.tributes_distribution
        &&& after.history == before.history
        &&& match result {
            Ok(response) => {
                &&& response.messages@.len() == 0
                &&& response.logs_one("raffle::instantiate"@, "creator"@, creator)
            },
            Err(_) => false,
        }
    }
}

/// Sets the raffle up: keeps the addresses of the collaborators and the
/// creator.
pub fn instantiate(state: &mut ContractState, _env: &Env, info: &MessageInfo, msg: InstantiateMsg) -> (result:
    Result<Response, ContractError>)
    ensures
        instantiated(*old(state), *info, msg, *final(state), result),
        old(state).wf() ==> final(state).wf(),
{
    if state.config.is_some() {
        return Err(ContractError::AlreadyInitialized {  });
    }
    let creator: String = match &msg.creator {
        Some(creator) => creator.clone(),
        None => info.sender.clone(),
    };
    state.creator = Some(creator.clone());
    state.config = Some(
        Config {
            vector: msg.vector,
            tribute: msg.tribute,
            nod: msg.nod,
            token_allocator: msg.token_allocator,
            price_oracle: msg.price_oracle,
        },
    );
    Ok(logged("raffle::instantiate", "creator", creator))
}

/// What a reset leaves: no run, no record and no history. The creator and
/// the addresses stay.
pub open spec fn burned(
    before: ContractState,
    info: MessageInfo,
    after: ContractState,
    result: Result<Progress, ContractError>,
) -> bool {
    &&& after.creator == before.creator
    &&& after.config == before.config
    &&& after.history is None
    &&& after.daily_raffle@ == Map::<u64, u16>::empty()
    &&& after.tributes_distribution@ == Map::<crate::distribution::RecordKey, Seq<char>>::empty()
    &&& match result {
        Ok(Progress::Finished(response)) => {
            &&& response.messages@.len() == 0
            &&& response.logs_one("raffle::burn_all"@, "sender"@, info.sender@)
        },
        _ => false,
    }
}

/// Forgets every run of every day, every record and the history, whoever
/// asks.
pub fn execute_burn_all(state: &mut ContractState, _env: &Env, info: &MessageInfo) -> (result: Result<
    Progress,
    ContractError,
>)
    ensures
        burned(*old(state), *info, *final(state), result),
        final(state).wf(),
{
    state.clear_history();
    state.daily_raffle.clear();
    state.tributes_distribution.clear_all();
    Ok(Progress::Finished(logged("raffle::burn_all", "sender", info.sender.clone())))
}

/// Carries out a message: starts a run of the raffle, or resets the raffle.
pub fn execute(state: &mut ContractState, env: &Env, info: &MessageInfo, msg: ExecuteMsg) -> (result: Result<
    Progress,
    ContractError,
>)
    ensures
        match msg {
            ExecuteMsg::Raffle { raffle_date } => started(
                *old(state),
                *env,
                raffle_date,
                *final(state),
                result,
            ),
            ExecuteMsg::BurnAll {  } => burned(*old(state), *info, *final(state), result),
        },
        old(state).wf() ==> final(state).wf(),
{
    match msg {
        ExecuteMsg::Raffle { raffle_date } => execute_raffle(state, env, raffle_date),
        ExecuteMsg::BurnAll {  } => execute_burn_all(state, env, info),
    }
}

/// The runs of a day are numbered as they come: a run that starts where the
/// day has had `n` runs has the index `n + 1`, and the day has had `n + 1`
/// runs once it has started, whether it then got its configuration or not.
pub proof fn lemma_runs_are_numbered(
    before: ContractState,
    env: Env,
    raffle_date: Option<Timestamp>,
    after: ContractState,
    result: Result<Progress, ContractError>,
)
    requires
        started(before, env, raffle_date, after, result),
        runs_of(before.daily_raffle@, raffle_day(env, raffle_date)) < u16::MAX,
    ensures
        runs_of(after.daily_raffle@, raffle_day(env, raffle_date)) == runs_of(
            before.daily_raffle@,
            raffle_day(env, raffle_date),
        ) + 1,
        match result {
            Ok(Progress::Pending(run, _)) => run.run == runs_of(
                after.daily_raffle@,
                raffle_day(env, raffle_date),
            ),
            Ok(Progress::Finished(_)) => false,
            Err(error) => error == (ContractError::NotInitialized {  }),
        },
{
}

/// What the first run of a day packs is what its later runs mint. Let the
/// first run of a day start on a well-formed state, and let it plan and pack
/// the tributes `run.tributes` once the allocation is known. Then the pool
/// with the number `p + 1` replays, from the state that the first run
/// leaves, to the members that were packed into pool `p`.
pub proof fn lemma_replay_equals_packing(
    before: ContractState,
    env: Env,
    raffle_date: Option<Timestamp>,
    under_way: ContractState,
    first: Result<Progress, ContractError>,
    run: RaffleRun,
    amount: u128,
    after: ContractState,
    second: Result<Progress, ContractError>,
    p: int,
)
    requires
        before.wf(),
        runs_of(before.daily_raffle@, raffle_day(env, raffle_date)) == 0,
        started(before, env, raffle_date, under_way, first),
        run.date == raffle_time(env, raffle_date).spec_normalized(),
        plannable(run.tributes@, amount as int),
        allocated(under_way, run, amount, after, second),
        0 <= p < 24,
    ensures
        replayed(after.tributes_distribution@, raffle_day(env, raffle_date) as int, p + 1)
            == pool_members(run.tributes@, capacity_of(run.tributes@, amount as int), p),
{
    let day = raffle_day(env, raffle_date);
    crate::date::lemma_normalize_idempotent(raffle_time(env, raffle_date));
    assert(run.date.spec_seconds() == day as int);
    lemma_first_run_replays(
        under_way,
        after,
        run.date,
        run.date_time,
        run.tributes@,
        amount as int,
        p,
    );
}

/// After a reset every pool of every day replays to nothing.
pub proof fn lemma_burned_replays_nothing(
    before: ContractState,
    info: MessageInfo,
    after: ContractState,
    result: Result<Progress, ContractError>,
    date: int,
    pool_number: int,
)
    requires
        burned(before, info, after, result),
    ensures
        replayed(after.tributes_distribution@, date, pool_number) == Seq::<Seq<char>>::empty(),
        after.wf(),
{
    lemma_replay_of_nothing(date, pool_number);
}

} // verus!
