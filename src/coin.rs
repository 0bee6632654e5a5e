//! Coins attached to a call, and how a payment is picked out of them.

use vstd::prelude::*;

verus! {

/// A coin attached to a call.
#[derive(Debug, Clone, PartialEq, Eq)]
pub struct Coin {
    pub denom: String,
    pub amount: u128,
}

/// The amount of the first attached coin of the given denomination, if any.
pub open spec fn payment_of(funds: Seq<Coin>, denom: Seq<char>) -> Option<u128>
    decreases funds.len(),
{
    if funds.len() == 0 {
        None
    } else if funds[0].denom@ == denom {
        Some(funds[0].amount)
    } else {
        payment_of(funds.subrange(1, funds.len() as int), denom)
    }
}

/// The amount of the first attached coin of the given denomination, if any.
pub fn find_payment(funds: &Vec<Coin>, denom: &String) -> (r: Option<u128>)
    ensures
        r == payment_of(funds@, denom@),
{
    let mut i: usize = 0;
    assert(funds@.subrange(0, funds@.len() as int) =~= funds@);
    while i < funds.len()
        invariant
            0 <= i <= funds@.len(),
            payment_of(funds@, denom@) == payment_of(
                funds@.subrange(i as int, funds@.len() as int),
                denom@,
            ),
        decreases funds.len() - i,
    {
        let ghost rest = funds@.subrange(i as int, funds@.len() as int);
        assert(rest.subrange(1, rest.len() as int) =~= funds@.subrange(
            i + 1,
            funds@.len() as int,
        ));
        if funds[i].denom == *denom {
            return Some(funds[i].amount);
        }
        i = i + 1;
    }
    None
}

} // verus!
