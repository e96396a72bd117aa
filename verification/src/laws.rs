//! Laws of the fee and reserve arithmetic, stated and proved once, for every
//! input, rather than sampled by tests.

use vstd::prelude::*;
use crate::account::spec_fee;
use crate::account::spec_saturating_sub;
use crate::account::spend_permitted;

verus! {

/// The withheld fee is the exact ceiling of three percent of the amount: it
/// is the least integer whose hundredfold reaches `3 * amount`.
pub proof fn lemma_fee_is_ceiling(amount: int)
    requires
        amount >= 0,
    ensures
        100 * spec_fee(amount) >= 3 * amount,
        100 * spec_fee(amount) < 3 * amount + 100,
{
    let n = 3 * amount + 99;
    assert(n == 100 * (n / 100) + n % 100) by {
        vstd::arithmetic::div_mod::lemma_fundamental_div_mod(n, 100);
    }
}

/// Every positive spend withholds at least one unit of fee.
pub proof fn lemma_fee_minimum(amount: int)
    requires
        amount > 0,
    ensures
        spec_fee(amount) >= 1,
{
    lemma_fee_is_ceiling(amount);
}

/// Reserve law for spends: a permitted spend leaves the account's balance
/// strictly above the minimum reserve, even before the withheld fee is
/// counted.
pub proof fn lemma_spend_preserves_reserve(balance: int, reserve: int, amount: int)
    requires
        amount >= 0,
        spend_permitted(balance, reserve, amount),
    ensures
        balance - amount > reserve,
{
}

/// Reserve law for withdrawals: whenever the savings fit in the balance and
/// the remainder check passes, paying the savings out keeps the balance at
/// or above the minimum reserve.
pub proof fn lemma_withdraw_preserves_reserve(balance: int, amount_held: int, reserve: int)
    requires
        0 <= amount_held <= balance,
        spec_saturating_sub(balance, amount_held) >= reserve,
    ensures
        balance - amount_held >= reserve,
{
}

} // verus!
