//! What the tribute ledger tells of its records.

use vstd::prelude::*;

verus! {

/// The fields of a tribute that the raffle reads.
#[derive(Clone, Debug)]
pub struct TributeData {
    /// The token in which the tribute was settled.
    pub settlement_token: String,
    /// The nominal quantity, in minor units.
    pub nominal_minor_qty: u128,
    /// The tribute's weight in the raffle.
    pub symbolic_load: u128,
}

/// A tribute as the ledger lists it for a day.
#[derive(Clone, Debug)]
pub struct FullTributeData {
    pub token_id: String,
    pub owner: String,
    pub data: TributeData,
}

/// The ledger's answer to the question for a day's tributes.
#[derive(Clone, Debug)]
pub struct DailyTributesResponse {
    pub tributes: Vec<FullTributeData>,
}

/// The ledger's own settings.
#[derive(Clone, Copy, Debug)]
pub struct TributeConfig {
    pub symbolic_rate: crate::decimal::Decimal,
}

/// The sum of the weights of the first `n` tributes.
pub open spec fn interest_upto(tributes: Seq<FullTributeData>, n: int) -> int
    decreases n,
{
    if n <= 0 {
        0
    } else {
        interest_upto(tributes, n - 1) + tributes[n - 1].data.symbolic_load
    }
}

/// The total interest of a day: the sum of the weights of all its tributes.
pub open spec fn total_interest(tributes: Seq<FullTributeData>) -> int {
    interest_upto(tributes, tributes.len() as int)
}

/// The partial sums of the weights grow with the number of tributes summed.
pub proof fn lemma_interest_monotone(tributes: Seq<FullTributeData>, m: int, n: int)
    requires
        0 <= m <= n,
    ensures
        0 <= interest_upto(tributes, m) <= interest_upto(tributes, n),
    decreases n,
{
    if n > 0 {
        if m < n {
            lemma_interest_monotone(tributes, m, n - 1);
        } else {
            lemma_interest_monotone(tributes, m - 1, n - 1);
        }
    }
}

/// Adds up the weights of the tributes. `None` says that the sum does not fit
/// 128 bits, and only then is there none.
pub fn sum_interest(tributes: &Vec<FullTributeData>) -> (sum: Option<u128>)
    ensures
        sum is Some <==> total_interest(tributes@) <= u128::MAX,
        sum is Some ==> sum->0 == total_interest(tributes@),
{
    let mut acc: u128 = 0;
    let mut i: usize = 0;
    while i < tributes.len()
        invariant
            0 <= i <= tributes.len(),
            acc == interest_upto(tributes@, i as int),
        decreases tributes.len() - i,
    {
        let load: u128 = tributes[i].data.symbolic_load;
        if load > u128::MAX - acc {
            proof {
                lemma_interest_monotone(tributes@, i + 1, tributes@.len() as int);
            }
            return None;
        }
        acc = acc + load;
        i = i + 1;
    }
    Some(acc)
}

} // verus!
