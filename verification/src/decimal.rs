//! Fixed-point numbers with eighteen decimal places.
//!
//! The arithmetic is that of `cosmwasm_std::Decimal`. A [`Decimal`] of this
//! module holds the same atomic units as a plain integer, so that contracts
//! can speak of them; each operation hands the units to `cosmwasm_std` and
//! takes the units of the result back.

use vstd::prelude::*;

verus! {

/// Atomic units in one whole: ten to the eighteenth.
pub const DECIMAL_FRACTIONAL: u128 = 1_000_000_000_000_000_000;

/// A non-negative fixed-point number: `atomics` counts units of 10^-18.
#[derive(Clone, Copy, Debug, PartialEq, Eq, Structural)]
pub struct Decimal {
    pub atomics: u128,
}

/// Ten to the power `n`.
pub open spec fn pow10(n: nat) -> nat
    decreases n,
{
    if n == 0 {
        1
    } else {
        10 * pow10((n - 1) as nat)
    }
}

/// The atomic units, at eighteen places, of the number that `atomics` units
/// at `decimal_places` places stand for; digits beyond the eighteenth are cut.
pub open spec fn rescaled(atomics: nat, decimal_places: nat) -> nat {
    if decimal_places <= 18 {
        atomics * pow10((18 - decimal_places) as nat)
    } else {
        atomics / pow10((decimal_places - 18) as nat)
    }
}

/// The atomic units of the product of two decimals, rounded down.
pub open spec fn product_atomics(a: Decimal, b: Decimal) -> nat {
    (a.atomics as nat * b.atomics as nat) / 1_000_000_000_000_000_000
}

/// `cosmwasm_std::Decimal::percent`: `x` hundredths, which is `x` times
/// 10^16 atomic units.
#[verifier::external_body]
pub(crate) fn decimal_percent(x: u64) -> (d: Decimal)
    ensures
        d.atomics == x * 10_000_000_000_000_000,
{
    Decimal { atomics: cosmwasm_std::Decimal::percent(x).atomics().u128() }
}

/// `cosmwasm_std::Decimal::one`: the number one, 10^18 atomic units.
#[verifier::external_body]
pub(crate) fn decimal_one() -> (d: Decimal)
    ensures
        d.atomics == 1_000_000_000_000_000_000,
{
    Decimal { atomics: cosmwasm_std::Decimal::one().atomics().u128() }
}

/// `cosmwasm_std::Decimal::from_atomics`: rescales to eighteen places, by a
/// multiplication where fewer places are given and by a floor division where
/// more are. It fails exactly when the rescaled units do not fit 128 bits.
#[verifier::external_body]
pub(crate) fn decimal_from_atomics(atomics: u128, decimal_places: u32) -> (r: Option<Decimal>)
    ensures
        r is Some <==> rescaled(atomics as nat, decimal_places as nat) <= u128::MAX,
        r is Some ==> r->0.atomics == rescaled(atomics as nat, decimal_places as nat),
{
    let units = cosmwasm_std::Uint128::new(atomics);
    match cosmwasm_std::Decimal::from_atomics(units, decimal_places) {
        Ok(d) => Some(Decimal { atomics: d.atomics().u128() }),
        Err(_) => None,
    }
}

/// `cosmwasm_std::Decimal::checked_mul`: the full product of the atomic units,
/// floor-divided by 10^18. It fails exactly when that does not fit 128 bits.
#[verifier::external_body]
pub(crate) fn decimal_checked_mul(a: Decimal, b: Decimal) -> (r: Option<Decimal>)
    ensures
        r is Some <==> product_atomics(a, b) <= u128::MAX,
        r is Some ==> r->0.atomics == product_atomics(a, b),
{
    let x = cosmwasm_std::Decimal::raw(a.atomics);
    let y = cosmwasm_std::Decimal::raw(b.atomics);
    match x.checked_mul(y) {
        Ok(d) => Some(Decimal { atomics: d.atomics().u128() }),
        Err(_) => None,
    }
}

/// `cosmwasm_std::Decimal::checked_add`: the sum of the atomic units. It fails
/// exactly when the sum does not fit 128 bits.
#[verifier::external_body]
pub(crate) fn decimal_checked_add(a: Decimal, b: Decimal) -> (r: Option<Decimal>)
    ensures
        r is Some <==> a.atomics + b.atomics <= u128::MAX,
        r is Some ==> r->0.atomics == a.atomics + b.atomics,
{
    let x = cosmwasm_std::Decimal::raw(a.atomics);
    let y = cosmwasm_std::Decimal::raw(b.atomics);
    match x.checked_add(y) {
        Ok(d) => Some(Decimal { atomics: d.atomics().u128() }),
        Err(_) => None,
    }
}

/// `cosmwasm_std::Decimal::to_uint_floor`: the whole part, which is the atomic
/// units floor-divided by 10^18.
#[verifier::external_body]
pub(crate) fn decimal_to_uint_floor(d: Decimal) -> (whole: u128)
    ensures
        whole == d.atomics / 1_000_000_000_000_000_000,
{
    cosmwasm_std::Decimal::raw(d.atomics).to_uint_floor().u128()
}

/// The first powers of ten that rescaling meets.
pub proof fn lemma_pow10_values()
    ensures
        pow10(0) == 1,
        pow10(15) == 1_000_000_000_000_000,
        pow10(18) == 1_000_000_000_000_000_000,
{
    reveal_with_fuel(pow10, 19);
}

impl Decimal {
    /// The decimal of `atomics` units of 10^-18.
    pub fn raw(atomics: u128) -> (d: Decimal)
        ensures
            d.atomics == atomics,
    {
        Decimal { atomics }
    }

    pub fn atomics(&self) -> (a: u128)
        ensures
            a == self.atomics,
    {
        self.atomics
    }
}

} // verus!
