//! What is sent to the collection that mints the raffle's records.

use vstd::prelude::*;
use crate::date::Timestamp;
use crate::decimal::Decimal;

verus! {

/// Where a minted record stands in its life.
#[derive(Clone, Copy, Debug, PartialEq, Eq, Structural)]
pub enum State {
    Issued,
}

/// The record that is minted for one tribute of a pool.
#[derive(Clone, Debug)]
pub struct NodEntity {
    pub nod_id: String,
    pub settlement_token: String,
    pub symbolic_rate: Decimal,
    pub nominal_minor_rate: u128,
    pub symbolic_minor_load: u128,
    pub vector_minor_rate: u128,
    pub issuance_minor_rate: Decimal,
    pub floor_minor_price: Decimal,
    pub state: State,
    pub address: String,
}

#[derive(Clone, Debug)]
pub struct SubmitExtension {
    pub entity: NodEntity,
    pub created_at: Option<Timestamp>,
}

/// The order to mint one record.
#[derive(Clone, Debug)]
pub struct Submit {
    pub token_id: String,
    pub owner: String,
    pub extension: SubmitExtension,
}

/// An order to mint, and the collection it goes to. No funds go with it.
#[derive(Clone, Debug)]
pub struct MintCommand {
    pub contract_addr: String,
    pub msg: Submit,
}

} // verus!
