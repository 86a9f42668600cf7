//! The questions that a run of the raffle puts to its collaborators, and
//! their answers.

use vstd::prelude::*;
use crate::date::Timestamp;
use crate::decimal::Decimal;
use crate::nft::{ContractInfoResponse, NftInfoResponse};
use crate::tribute::{DailyTributesResponse, TributeConfig, TributeData};
use crate::vector::AllVectorsResponse;

verus! {

/// Whether the ledger has accepted a tribute.
#[derive(Clone, Copy, Debug, PartialEq, Eq, Structural)]
pub enum Status {
    Accepted,
}

/// The allocation provider's answer: what is allocated in one period.
#[derive(Clone, Copy, Debug, PartialEq, Eq, Structural)]
pub struct TokenAllocatorData {
    pub amount: u128,
}

/// The price oracle's answer: the price of the day.
#[derive(Clone, Copy, Debug, PartialEq, Eq, Structural)]
pub struct TokenPairPrice {
    pub price: Decimal,
}

/// A question to a collaborator.
#[derive(Clone, Debug)]
pub enum QueryMsg {
    /// To the tribute ledger: the tributes of the day of `date` that have
    /// the status `status`.
    DailyTributes { date: Timestamp, status: Option<Status> },
    /// To the allocation provider: the allocation of one period.
    GetData {},
    /// To the tribute ledger: its settings.
    ContractInfo {},
    /// To the tier provider: all rate tiers.
    Vectors {},
    /// To the price oracle: the price of the day.
    GetPrice {},
    /// To the tribute ledger: the tribute `token_id`.
    NftInfo { token_id: String },
}

/// A question and the address of the collaborator that it goes to.
#[derive(Clone, Debug)]
pub struct Query {
    pub contract_addr: String,
    pub msg: QueryMsg,
}

/// What came back for a question.
#[derive(Clone, Debug)]
pub enum Answer {
    DailyTributes(DailyTributesResponse),
    GetData(TokenAllocatorData),
    ContractInfo(ContractInfoResponse<TributeConfig>),
    Vectors(AllVectorsResponse),
    GetPrice(TokenPairPrice),
    NftInfo(NftInfoResponse<TributeData>),
    /// The collaborator did not answer, or what it answered could not be
    /// read.
    Failed,
}

} // verus!
