use raffle::contract::{execute, instantiate, resume, Progress, RaffleRun, Stage};
use raffle::date::Timestamp;
use raffle::decimal::Decimal;
use raffle::error::ContractError;
use raffle::msg::{BlockInfo, Env, ExecuteMsg, InstantiateMsg, MessageInfo};
use raffle::nft::{CollectionInfo, ContractInfoResponse, NftInfoResponse};
use raffle::query::{Answer, Query, QueryMsg, Status, TokenAllocatorData, TokenPairPrice};
use raffle::response::Response;
use raffle::state::ContractState;
use raffle::tribute::{DailyTributesResponse, FullTributeData, TributeConfig, TributeData};
use raffle::vector::{AllVectorsResponse, Vector};

const DAY: u64 = 86400 * 19_000;

fn env_at(seconds: u64) -> Env {
    Env { block: BlockInfo { time: Timestamp::from_seconds(seconds) } }
}

fn sender() -> MessageInfo {
    MessageInfo { sender: "sender".to_string() }
}

fn full_msg() -> InstantiateMsg {
    InstantiateMsg {
        creator: Some("creator".to_string()),
        vector: Some("vector-addr".to_string()),
        tribute: Some("tribute-addr".to_string()),
        nod: Some("nod-addr".to_string()),
        token_allocator: Some("allocator-addr".to_string()),
        price_oracle: Some("oracle-addr".to_string()),
    }
}

fn ready() -> ContractState {
    let mut state = ContractState::new();
    instantiate(&mut state, &env_at(DAY), &sender(), full_msg()).unwrap();
    state
}

fn tribute(id: &str, load: u128) -> FullTributeData {
    FullTributeData {
        token_id: id.to_string(),
        owner: format!("owner-of-{}", id),
        data: TributeData {
            settlement_token: "usdc".to_string(),
            nominal_minor_qty: 1_000,
            symbolic_load: load,
        },
    }
}

/// The collaborators of a test: what each of them answers.
struct World {
    tributes: Vec<FullTributeData>,
    amount: u128,
    vectors: Vec<Vector>,
    price: Decimal,
    asked: Vec<Query>,
}

impl World {
    fn new(tributes: Vec<FullTributeData>) -> World {
        let mut vectors = Vec::new();
        for id in 1..=24u16 {
            vectors.push(Vector {
                vector_id: id,
                name: format!("tier {}", id),
                vector_rate: 10 * id as u128,
            });
        }
        World {
            tributes,
            amount: 2,
            vectors,
            price: Decimal::raw(2_000_000_000_000_000_000),
            asked: Vec::new(),
        }
    }

    fn answer(&mut self, query: &Query) -> Answer {
        self.asked.push(query.clone());
        match &query.msg {
            QueryMsg::DailyTributes { .. } => {
                Answer::DailyTributes(DailyTributesResponse { tributes: self.tributes.clone() })
            }
            QueryMsg::GetData {} => Answer::GetData(TokenAllocatorData { amount: self.amount }),
            QueryMsg::ContractInfo {} => Answer::ContractInfo(ContractInfoResponse {
                collection_info: CollectionInfo {
                    name: "tributes".to_string(),
                    symbol: "TRB".to_string(),
                    updated_at: Timestamp::from_seconds(0),
                },
                collection_config: TributeConfig {
                    symbolic_rate: Decimal::raw(80_000_000_000_000_000),
                },
            }),
            QueryMsg::Vectors {} => {
                Answer::Vectors(AllVectorsResponse { vectors: self.vectors.clone() })
            }
            QueryMsg::GetPrice {} => Answer::GetPrice(TokenPairPrice { price: self.price }),
            QueryMsg::NftInfo { token_id } => {
                match self.tributes.iter().find(|t| &t.token_id == token_id) {
                    Some(t) => Answer::NftInfo(NftInfoResponse {
                        extension: t.data.clone(),
                        owner: t.owner.clone(),
                        token_id: t.token_id.clone(),
                    }),
                    None => Answer::Failed,
                }
            }
        }
    }

    fn raffle(
        &mut self,
        state: &mut ContractState,
        env: &Env,
        raffle_date: Option<Timestamp>,
    ) -> Result<Response, ContractError> {
        let mut progress = execute(state, env, &sender(), ExecuteMsg::Raffle { raffle_date })?;
        loop {
            match progress {
                Progress::Finished(response) => return Ok(response),
                Progress::Pending(run, query) => {
                    let answer = self.answer(&query);
                    progress = resume(state, run, answer)?;
                }
            }
        }
    }
}

fn event_value(response: &Response, key: &str) -> String {
    response.events[0].attributes.iter().find(|a| a.key == key).unwrap().value.clone()
}

fn minted_ids(response: &Response) -> Vec<String> {
    response.messages.iter().map(|m| m.msg.token_id.clone()).collect()
}

#[test]
fn instantiate_keeps_the_addresses() {
    let mut state = ContractState::new();
    let response = instantiate(&mut state, &env_at(DAY), &sender(), full_msg()).unwrap();
    assert_eq!(state.creator, Some("creator".to_string()));
    let config = state.config.clone().unwrap();
    assert_eq!(config.vector, Some("vector-addr".to_string()));
    assert_eq!(config.tribute, Some("tribute-addr".to_string()));
    assert_eq!(config.nod, Some("nod-addr".to_string()));
    assert_eq!(config.token_allocator, Some("allocator-addr".to_string()));
    assert_eq!(config.price_oracle, Some("oracle-addr".to_string()));
    assert!(response.messages.is_empty());
    assert_eq!(response.attributes.len(), 1);
    assert_eq!(response.attributes[0].key, "action");
    assert_eq!(response.attributes[0].value, "raffle::instantiate");
    assert_eq!(response.events.len(), 1);
    assert_eq!(response.events[0].ty, "raffle::instantiate");
    assert_eq!(event_value(&response, "creator"), "creator");
}

#[test]
fn instantiate_takes_the_sender_for_creator() {
    let mut state = ContractState::new();
    let mut msg = full_msg();
    msg.creator = None;
    let response = instantiate(&mut state, &env_at(DAY), &sender(), msg).unwrap();
    assert_eq!(state.creator, Some("sender".to_string()));
    assert_eq!(event_value(&response, "creator"), "sender");
}

#[test]
fn instantiate_fails_the_second_time() {
    let mut state = ready();
    let mut other = full_msg();
    other.tribute = Some("other".to_string());
    let result = instantiate(&mut state, &env_at(DAY), &sender(), other);
    assert_eq!(result.unwrap_err(), ContractError::AlreadyInitialized {});
    assert_eq!(state.config.unwrap().tribute, Some("tribute-addr".to_string()));
}

#[test]
fn raffle_fails_before_instantiate() {
    let mut state = ContractState::new();
    let mut world = World::new(vec![tribute("t1", 100)]);
    let result = world.raffle(&mut state, &env_at(DAY), None);
    assert_eq!(result.unwrap_err(), ContractError::NotInitialized {});
    assert!(world.asked.is_empty());
    assert_eq!(state.daily_raffle.current(DAY), 1);
}

#[test]
fn raffle_fails_without_an_address() {
    let mut state = ContractState::new();
    let mut msg = full_msg();
    msg.price_oracle = None;
    instantiate(&mut state, &env_at(DAY), &sender(), msg).unwrap();
    let mut world = World::new(vec![tribute("t1", 100)]);
    let result = world.raffle(&mut state, &env_at(DAY), None);
    assert_eq!(result.unwrap_err(), ContractError::NotInitialized {});
}

#[test]
fn first_run_mints_the_first_pool() {
    let mut state = ready();
    let mut world = World::new(vec![tribute("t1", 100)]);
    let response = world.raffle(&mut state, &env_at(DAY + 4_000), None).unwrap();
    assert_eq!(minted_ids(&response), vec!["t1_1".to_string()]);
    assert_eq!(response.attributes[0].key, "action");
    assert_eq!(response.attributes[0].value, "raffle::raffle");
    assert_eq!(response.events[0].ty, "raffle::raffle");
    assert_eq!(event_value(&response, "run"), "1");
    assert_eq!(event_value(&response, "tributes_count"), "1");
    let command = &response.messages[0];
    assert_eq!(command.contract_addr, "nod-addr");
    assert_eq!(command.msg.owner, "owner-of-t1");
    let entity = &command.msg.extension.entity;
    assert_eq!(entity.nod_id, "t1_1");
    assert_eq!(entity.symbolic_minor_load, 100);
    assert_eq!(entity.nominal_minor_rate, 1_000);
    assert_eq!(entity.vector_minor_rate, 10);
    assert_eq!(entity.symbolic_rate, Decimal::raw(80_000_000_000_000_000));
    assert_eq!(entity.issuance_minor_rate, Decimal::raw(2_000_000_000_000_000_000));
    assert_eq!(entity.floor_minor_price, Decimal::raw(2_020_000_000_000_000_000));
    assert_eq!(state.daily_raffle.current(DAY), 1);
    assert_eq!(state.tributes_distribution.replay(DAY, 1), vec!["t1".to_string()]);
    for pool in 2..=24u16 {
        assert!(state.tributes_distribution.replay(DAY, pool).is_empty());
    }
    let history = state.history.clone().unwrap();
    assert_eq!(history.data.len(), 24);
    assert_eq!(history.data[0].pool_index, 0);
    assert_eq!(history.data[0].raffle_date, Timestamp::from_seconds(DAY));
    assert_eq!(history.data[0].raffle_date_time, Timestamp::from_seconds(DAY + 4_000));
    assert_eq!(history.data[0].total_allocation, 34_560);
    assert_eq!(history.data[0].pool_allocation, 1_440);
    assert_eq!(history.data[0].total_deficit, 2_764);
    assert_eq!(history.data[0].pool_deficit, 115);
    assert_eq!(history.data[0].pool_capacity, 1_555);
    assert_eq!(history.data[0].assigned_tributes, 1);
    assert_eq!(history.data[0].assigned_tributes_sum, 100);
    for p in 1..24 {
        assert_eq!(history.data[p].pool_index, p as u16);
        assert_eq!(history.data[p].pool_capacity, 1_555);
        assert_eq!(history.data[p].assigned_tributes, 0);
        assert_eq!(history.data[p].assigned_tributes_sum, 0);
    }
}

#[test]
fn first_run_asks_in_order() {
    let mut state = ready();
    let mut world = World::new(vec![tribute("t1", 100), tribute("t2", 200)]);
    let time = Timestamp::from_seconds(DAY + 77);
    world.raffle(&mut state, &env_at(1), Some(time)).unwrap();
    let asked: Vec<(String, QueryMsg)> =
        world.asked.iter().map(|q| (q.contract_addr.clone(), q.msg.clone())).collect();
    assert_eq!(asked.len(), 7);
    assert_eq!(asked[0].0, "tribute-addr");
    assert!(matches!(
        &asked[0].1,
        QueryMsg::DailyTributes { date, status: Some(Status::Accepted) } if *date == time
    ));
    assert_eq!(asked[1].0, "allocator-addr");
    assert!(matches!(asked[1].1, QueryMsg::GetData {}));
    assert_eq!(asked[2].0, "tribute-addr");
    assert!(matches!(asked[2].1, QueryMsg::ContractInfo {}));
    assert_eq!(asked[3].0, "vector-addr");
    assert!(matches!(asked[3].1, QueryMsg::Vectors {}));
    assert_eq!(asked[4].0, "oracle-addr");
    assert!(matches!(asked[4].1, QueryMsg::GetPrice {}));
    assert_eq!(asked[5].0, "tribute-addr");
    assert!(matches!(&asked[5].1, QueryMsg::NftInfo { token_id } if token_id == "t1"));
    assert!(matches!(&asked[6].1, QueryMsg::NftInfo { token_id } if token_id == "t2"));
}

#[test]
fn later_runs_replay_their_pool() {
    let mut state = ready();
    let tributes =
        vec![tribute("a", 1_000), tribute("b", 900), tribute("c", 500), tribute("d", 55)];
    let mut world = World::new(tributes);
    let env = env_at(DAY + 10);
    let first = world.raffle(&mut state, &env, None).unwrap();
    assert_eq!(minted_ids(&first), vec!["a_1".to_string(), "c_1".to_string(), "d_1".to_string()]);
    assert_eq!(first.messages[1].msg.extension.entity.floor_minor_price.atomics, 2_020_000_000_000_000_000);
    world.asked.clear();
    world.tributes.push(tribute("late", 1));
    let second = world.raffle(&mut state, &env_at(DAY + 5_000), None).unwrap();
    assert_eq!(minted_ids(&second), vec!["b_2".to_string()]);
    assert_eq!(event_value(&second, "run"), "2");
    assert_eq!(event_value(&second, "tributes_count"), "1");
    assert_eq!(second.messages[0].msg.extension.entity.vector_minor_rate, 20);
    assert_eq!(
        second.messages[0].msg.extension.entity.floor_minor_price.atomics,
        2_040_000_000_000_000_000
    );
    assert_eq!(world.asked.len(), 4);
    assert!(matches!(world.asked[0].msg, QueryMsg::ContractInfo {}));
    let third = world.raffle(&mut state, &env, None).unwrap();
    assert!(third.messages.is_empty());
    assert_eq!(event_value(&third, "run"), "3");
    assert_eq!(event_value(&third, "tributes_count"), "0");
    assert_eq!(state.daily_raffle.current(DAY), 3);
    assert_eq!(state.tributes_distribution.replay(DAY, 1), vec!["a", "c", "d"]);
    assert_eq!(state.tributes_distribution.replay(DAY, 2), vec!["b"]);
}

#[test]
fn days_are_raffled_apart() {
    let mut state = ready();
    let mut world = World::new(vec![tribute("t1", 100)]);
    world.raffle(&mut state, &env_at(DAY), None).unwrap();
    world.tributes = vec![tribute("u1", 100)];
    let next_day = world.raffle(&mut state, &env_at(DAY + 86400), None).unwrap();
    assert_eq!(minted_ids(&next_day), vec!["u1_1".to_string()]);
    assert_eq!(state.daily_raffle.current(DAY), 1);
    assert_eq!(state.daily_raffle.current(DAY + 86400), 1);
    assert_eq!(state.tributes_distribution.replay(DAY, 1), vec!["t1"]);
    assert_eq!(state.tributes_distribution.replay(DAY + 86400, 1), vec!["u1"]);
    assert_eq!(state.history.unwrap().data[0].raffle_date, Timestamp::from_seconds(DAY + 86400));
}

#[test]
fn a_run_without_a_tier_fails() {
    let mut state = ready();
    let mut world = World::new(vec![tribute("t1", 100)]);
    world.vectors.retain(|v| v.vector_id != 2);
    world.raffle(&mut state, &env_at(DAY), None).unwrap();
    let result = world.raffle(&mut state, &env_at(DAY), None);
    assert_eq!(result.unwrap_err(), ContractError::BadRunConfiguration {});
    assert_eq!(state.daily_raffle.current(DAY), 2);
    assert!(world.raffle(&mut state, &env_at(DAY), None).is_ok());
}

#[test]
fn a_failed_answer_fails_the_run() {
    let mut state = ready();
    let progress =
        execute(&mut state, &env_at(DAY), &sender(), ExecuteMsg::Raffle { raffle_date: None })
            .unwrap();
    let run = match progress {
        Progress::Pending(run, _) => run,
        Progress::Finished(_) => panic!("a run that has asked nothing is not done"),
    };
    assert_eq!(run.stage, Stage::Tributes);
    let result = resume(&mut state, run, Answer::Failed);
    assert_eq!(result.unwrap_err(), ContractError::UpstreamQueryFailure {});
}

#[test]
fn an_answer_to_another_question_fails_the_run() {
    let mut state = ready();
    let progress =
        execute(&mut state, &env_at(DAY), &sender(), ExecuteMsg::Raffle { raffle_date: None })
            .unwrap();
    let run: RaffleRun = match progress {
        Progress::Pending(run, _) => run,
        Progress::Finished(_) => panic!("a run that has asked nothing is not done"),
    };
    let answer = Answer::GetPrice(TokenPairPrice { price: Decimal::raw(1) });
    let result = resume(&mut state, run, answer);
    assert_eq!(result.unwrap_err(), ContractError::UpstreamQueryFailure {});
    assert!(state.history.is_none());
}

#[test]
fn an_allocation_out_of_range_fails_the_run() {
    let mut state = ready();
    let mut world = World::new(vec![tribute("t1", 100)]);
    world.amount = u128::MAX / 17_280;
    let result = world.raffle(&mut state, &env_at(DAY), None);
    assert_eq!(result.unwrap_err(), ContractError::UpstreamQueryFailure {});
    assert!(state.history.is_none());
    assert!(state.tributes_distribution.replay(DAY, 1).is_empty());
}

#[test]
fn a_price_out_of_range_fails_the_run() {
    let mut state = ready();
    let mut world = World::new(vec![tribute("t1", 100)]);
    world.price = Decimal::raw(u128::MAX);
    let result = world.raffle(&mut state, &env_at(DAY), None);
    assert_eq!(result.unwrap_err(), ContractError::UpstreamQueryFailure {});
}

#[test]
fn a_day_without_tributes_mints_nothing() {
    let mut state = ready();
    let mut world = World::new(Vec::new());
    let response = world.raffle(&mut state, &env_at(DAY), None).unwrap();
    assert!(response.messages.is_empty());
    assert_eq!(event_value(&response, "tributes_count"), "0");
    assert_eq!(world.asked.len(), 5);
    assert_eq!(state.history.unwrap().data.len(), 24);
}

#[test]
fn burn_all_empties_every_replay() {
    let mut state = ready();
    let mut world = World::new(vec![tribute("a", 1_000), tribute("b", 900)]);
    world.raffle(&mut state, &env_at(DAY), None).unwrap();
    assert_eq!(state.tributes_distribution.replay(DAY, 2), vec!["b"]);
    let progress = execute(&mut state, &env_at(DAY), &sender(), ExecuteMsg::BurnAll {}).unwrap();
    let response = match progress {
        Progress::Finished(response) => response,
        Progress::Pending(_, _) => panic!("a reset asks nothing"),
    };
    assert_eq!(response.attributes[0].value, "raffle::burn_all");
    assert_eq!(response.events[0].ty, "raffle::burn_all");
    assert_eq!(event_value(&response, "sender"), "sender");
    assert!(response.messages.is_empty());
    assert!(state.history.is_none());
    assert_eq!(state.daily_raffle.current(DAY), 0);
    for pool in 0..=25u16 {
        assert!(state.tributes_distribution.replay(DAY, pool).is_empty());
    }
    assert!(state.config.is_some());
    assert_eq!(state.creator, Some("creator".to_string()));
}

#[test]
fn a_day_is_raffled_anew_after_burn_all() {
    let mut state = ready();
    let mut world = World::new(vec![tribute("a", 1_000)]);
    world.raffle(&mut state, &env_at(DAY), None).unwrap();
    execute(&mut state, &env_at(DAY), &sender(), ExecuteMsg::BurnAll {}).unwrap();
    world.tributes = vec![tribute("z", 10)];
    let response = world.raffle(&mut state, &env_at(DAY), None).unwrap();
    assert_eq!(minted_ids(&response), vec!["z_1".to_string()]);
    assert_eq!(state.tributes_distribution.replay(DAY, 1), vec!["z"]);
}

#[test]
fn a_day_has_no_run_after_the_last_index() {
    let mut state = ready();
    state.daily_raffle.set(DAY, u16::MAX);
    let result =
        execute(&mut state, &env_at(DAY), &sender(), ExecuteMsg::Raffle { raffle_date: None });
    assert_eq!(result.unwrap_err(), ContractError::BadRunConfiguration {});
    assert_eq!(state.daily_raffle.current(DAY), u16::MAX);
}

#[test]
fn errors_have_their_words() {
    assert_eq!(ContractError::AlreadyInitialized {}.message(), "AlreadyInitialized");
    assert_eq!(ContractError::NotInitialized {}.message(), "NotInitialized");
    assert_eq!(ContractError::BadRunConfiguration {}.message(), "BadRunConfiguration");
    assert_eq!(ContractError::UpstreamQueryFailure {}.message(), "UpstreamQueryFailure");
    assert_eq!(ContractError::StorageFailure {}.message(), "StorageFailure");
    assert_eq!(ContractError::Unauthorized {}.message(), "Unauthorized");
}

#[test]
fn the_history_is_replaced_whole() {
    let mut state = ready();
    let mut world = World::new(vec![tribute("a", 1_000), tribute("b", 900)]);
    world.raffle(&mut state, &env_at(DAY), None).unwrap();
    let first = state.history.clone().unwrap();
    assert_eq!(first.data[1].assigned_tributes, 1);
    world.tributes = Vec::new();
    world.amount = 3;
    world.raffle(&mut state, &env_at(DAY + 86400 * 2), None).unwrap();
    let second = state.history.clone().unwrap();
    assert_eq!(second.data.len(), 24);
    for entry in &second.data {
        assert_eq!(entry.raffle_date, Timestamp::from_seconds(DAY + 86400 * 2));
        assert_eq!(entry.total_allocation, 51_840);
        assert_eq!(entry.assigned_tributes, 0);
    }
    state.clear_history();
    assert!(state.history.is_none());
    state.save_history(first.clone());
    assert_eq!(state.history.unwrap().data, first.data);
}
