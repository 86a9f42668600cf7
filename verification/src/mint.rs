//! The record that a run mints for a tribute of its pool.

use vstd::prelude::*;
use vstd::string::*;
use crate::decimal::{
    decimal_checked_add, decimal_checked_mul, decimal_from_atomics, decimal_one,
    lemma_pow10_values, Decimal,
};
use crate::nft::NftInfoResponse;
use crate::nod::{MintCommand, NodEntity, State, Submit, SubmitExtension};
use crate::text::{decimal_digits, decimal_string};
use crate::tribute::TributeData;

verus! {

/// The atomic units of the factor that a tier puts on the price: one and
/// `vector_rate` thousandths.
pub open spec fn markup_factor(vector_rate: int) -> int {
    1_000_000_000_000_000_000 + vector_rate * 1_000_000_000_000_000
}

/// The atomic units of the floor price: the price times the factor of the
/// tier, rounded down to the eighteenth place.
pub open spec fn floor_price_of(price: Decimal, vector_rate: int) -> int {
    (price.atomics * markup_factor(vector_rate)) / 1_000_000_000_000_000_000
}

/// Whether the floor price can be computed in 128 bits.
pub open spec fn floor_price_in_range(price: Decimal, vector_rate: int) -> bool {
    &&& markup_factor(vector_rate) <= u128::MAX
    &&& floor_price_of(price, vector_rate) <= u128::MAX
}

/// The floor price of a record: the price with the markup of the tier on it,
/// `price × (1 + vector_rate / 1000)`. `None` says that the factor or the
/// floor price does not fit 128 bits of atomic units, and only then is there
/// none.
pub fn floor_price(price: Decimal, vector_rate: u128) -> (floor: Option<Decimal>)
    ensures
        floor is Some <==> floor_price_in_range(price, vector_rate as int),
        floor is Some ==> floor->0.atomics == floor_price_of(price, vector_rate as int),
{
    proof {
        lemma_pow10_values();
    }
    let markup: Decimal = match decimal_from_atomics(vector_rate, 3) {
        None => {
            return None;
        },
        Some(markup) => markup,
    };
    let factor: Decimal = match decimal_checked_add(decimal_one(), markup) {
        None => {
            return None;
        },
        Some(factor) => factor,
    };
    assert(factor.atomics == markup_factor(vector_rate as int));
    assert(price.atomics as nat * factor.atomics as nat == price.atomics * markup_factor(
        vector_rate as int,
    )) by (nonlinear_arith)
        requires
            factor.atomics == markup_factor(vector_rate as int),
    ;
    decimal_checked_mul(price, factor)
}

/// The identifier of the record minted for a tribute in a run: the
/// tribute's identifier, an underscore, and the run's index.
pub open spec fn nod_id_of(tribute_id: Seq<char>, run: u16) -> Seq<char> {
    tribute_id + seq!['_'] + decimal_digits(run as nat)
}

/// Makes the identifier of the record minted for a tribute in a run.
pub fn nod_id(tribute_id: &String, run: u16) -> (id: String)
    ensures
        id@ == nod_id_of(tribute_id@, run),
{
    proof {
        reveal_strlit("_");
    }
    let mut id: String = tribute_id.clone();
    id.append("_");
    assert(id@ =~= tribute_id@ + seq!['_']);
    let digits: String = decimal_string(run as u64);
    id.append(digits.as_str());
    id
}

impl MintCommand {
    /// Whether this is the order to mint, at the collection `nod_address`,
    /// the record of the tribute `tribute_id` in run `run`.
    pub open spec fn is_mint_of(
        self,
        nod_address: Seq<char>,
        tribute_id: Seq<char>,
        run: u16,
        tribute: NftInfoResponse<TributeData>,
        symbolic_rate: Decimal,
        vector_rate: u128,
        price: Decimal,
    ) -> bool {
        let entity = self.msg.extension.entity;
        &&& self.contract_addr@ == nod_address
        &&& self.msg.token_id@ == nod_id_of(tribute_id, run)
        &&& self.msg.owner@ == tribute.owner@
        &&& self.msg.extension.created_at is None
        &&& entity.nod_id@ == nod_id_of(tribute_id, run)
        &&& entity.settlement_token@ == tribute.extension.settlement_token@
        &&& entity.symbolic_rate == symbolic_rate
        &&& entity.nominal_minor_rate == tribute.extension.nominal_minor_qty
        &&& entity.symbolic_minor_load == tribute.extension.symbolic_load
        &&& entity.vector_minor_rate == vector_rate
        &&& entity.issuance_minor_rate == price
        &&& entity.floor_minor_price.atomics == floor_price_of(price, vector_rate as int)
        &&& entity.state == State::Issued
        &&& entity.address@ == tribute.owner@
    }
}

/// Makes the order to mint the record of one tribute of a run's pool. The
/// record goes to the tribute's owner and is issued at the price of the
/// day with the markup of the run's tier as its floor. `None` says that the
/// floor price is out of range, and only then is there none.
pub fn mint_command(
    nod_address: &String,
    tribute_id: &String,
    run: u16,
    tribute: &NftInfoResponse<TributeData>,
    symbolic_rate: Decimal,
    vector_rate: u128,
    price: Decimal,
) -> (command: Option<MintCommand>)
    ensures
        command is Some <==> floor_price_in_range(price, vector_rate as int),
        command is Some ==> command->0.is_mint_of(
            nod_address@,
            tribute_id@,
            run,
            *tribute,
            symbolic_rate,
            vector_rate,
            price,
        ),
{
    let floor: Decimal = match floor_price(price, vector_rate) {
        None => {
            return None;
        },
        Some(floor) => floor,
    };
    let id: String = nod_id(tribute_id, run);
    let entity = NodEntity {
        nod_id: id.clone(),
        settlement_token: tribute.extension.settlement_token.clone(),
        symbolic_rate,
        nominal_minor_rate: tribute.extension.nominal_minor_qty,
        symbolic_minor_load: tribute.extension.symbolic_load,
        vector_minor_rate: vector_rate,
        issuance_minor_rate: price,
        floor_minor_price: floor,
        state: State::Issued,
        address: tribute.owner.clone(),
    };
    Some(
        MintCommand {
            contract_addr: nod_address.clone(),
            msg: Submit {
                token_id: id,
                owner: tribute.owner.clone(),
                extension: SubmitExtension { entity, created_at: None },
            },
        },
    )
}

} // verus!
