//! 128-bit token arithmetic, delegated to `cosmwasm_std::Uint128`, together with the
//! facts about floored division that the reward accounting rests on.

use cosmwasm_std::Uint128;
use vstd::prelude::*;

verus! {

#[verifier::external_type_specification]
#[verifier::external_body]
pub struct ExOverflowError(cosmwasm_std::OverflowError);

/// Relies on `cosmwasm_std::Uint128::multiply_ratio`: the product `value * numerator` is
/// formed in 256 bits and divided by `denominator`, rounding down. The function panics when
/// the denominator is zero or the quotient does not fit in 128 bits; the precondition rules
/// both out.
#[verifier::external_body]
pub(crate) fn multiply_ratio(value: u128, numerator: u128, denominator: u128) -> (r: u128)
    requires
        denominator > 0,
        (value as int) * (numerator as int) / (denominator as int) <= u128::MAX,
    ensures
        r == (value as int) * (numerator as int) / (denominator as int),
{
    Uint128::new(value).multiply_ratio(numerator, denominator).u128()
}

/// Relies on `cosmwasm_std::Uint128::checked_mul`: the exact product, or an overflow error
/// when the product does not fit in 128 bits.
#[verifier::external_body]
pub(crate) fn checked_mul(a: u128, b: u128) -> (r: Result<u128, cosmwasm_std::OverflowError>)
    ensures
        r is Ok <==> (a as int) * (b as int) <= u128::MAX,
        r matches Ok(v) ==> v == (a as int) * (b as int),
{
    Uint128::new(a).checked_mul(Uint128::new(b)).map(|v| v.u128())
}

/// A floored share of a budget is never more than the exact share:
/// `c * (d * a / c) <= d * a`.
pub proof fn lemma_floor_share(d: int, a: int, c: int)
    requires
        c > 0,
        d >= 0,
        a >= 0,
    ensures
        c * ((d * a) / c) <= d * a,
        (d * a) / c >= 0,
{
    vstd::arithmetic::div_mod::lemma_fundamental_div_mod(d * a, c);
    vstd::arithmetic::mul::lemma_mul_nonnegative(d, a);
    vstd::arithmetic::div_mod::lemma_div_pos_is_pos(d * a, c);
}

/// The share of an amount that does not exceed the whole never exceeds the budget:
/// `a <= c` gives `d * a / c <= d`.
pub proof fn lemma_share_within_budget(d: int, a: int, c: int)
    requires
        c > 0,
        d >= 0,
        0 <= a <= c,
    ensures
        0 <= (d * a) / c <= d,
{
    vstd::arithmetic::mul::lemma_mul_inequality(a, c, d);
    vstd::arithmetic::mul::lemma_mul_is_commutative(a, d);
    vstd::arithmetic::mul::lemma_mul_is_commutative(c, d);
    vstd::arithmetic::div_mod::lemma_div_is_ordered(d * a, d * c, c);
    vstd::arithmetic::div_mod::lemma_div_multiples_vanish(d, c);
    vstd::arithmetic::mul::lemma_mul_nonnegative(d, a);
    vstd::arithmetic::div_mod::lemma_div_pos_is_pos(d * a, c);
}

} // verus!
