//! What the raffle is called with.

use vstd::prelude::*;
use crate::date::Timestamp;

verus! {

/// The message that sets the raffle up.
#[derive(Clone, Debug, PartialEq)]
pub struct InstantiateMsg {
    /// Who creates the raffle; the sender where none is named.
    pub creator: Option<String>,
    /// The address of the provider of the rate tiers.
    pub vector: Option<String>,
    /// The address of the tribute ledger.
    pub tribute: Option<String>,
    /// The address of the collection that mints.
    pub nod: Option<String>,
    /// The address of the provider of the allocation rate.
    pub token_allocator: Option<String>,
    /// The address of the price oracle.
    pub price_oracle: Option<String>,
}

/// The messages that the raffle carries out.
#[derive(Clone, Debug, PartialEq)]
pub enum ExecuteMsg {
    /// One run of the raffle of a day: the day of `raffle_date`, or the day
    /// of the block where none is given.
    Raffle { raffle_date: Option<Timestamp> },
    /// Forget every run, every assignment and the history.
    BurnAll {},
}

/// The block in which a call runs.
#[derive(Clone, Copy, Debug, PartialEq)]
pub struct BlockInfo {
    pub time: Timestamp,
}

/// Where a call runs.
#[derive(Clone, Copy, Debug, PartialEq)]
pub struct Env {
    pub block: BlockInfo,
}

/// Who calls.
#[derive(Clone, Debug, PartialEq)]
pub struct MessageInfo {
    pub sender: String,
}

} // verus!
