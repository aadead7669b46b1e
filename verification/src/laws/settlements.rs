//! Laws of the settlement of gas.
use crate::finalize::{refund, settlement};
use crate::uint::{group_words, u256_range};
use vstd::arithmetic::mul::{lemma_mul_inequality, lemma_mul_is_distributive_add_other_way};
use vstd::prelude::*;

verus! {

/// Gas is conserved: what was used and what is left is what was bought, and what the sender gets
/// back and what the author is paid is the price of it.
pub proof fn law_gas_is_conserved(gas: nat, gas_price: nat, unused: nat, earned: nat)
    requires
        unused <= gas < u256_range(),
        gas * gas_price < u256_range(),
    ensures
        ({
            let settled = settlement(gas, gas_price, unused, earned);
            &&& settled.gas_used@ + settled.gas_left@ == gas
            &&& settled.refund_value@ + settled.fees_value@ == gas * gas_price
            &&& settled.refund_value@ == settled.gas_left@ * gas_price
            &&& settled.fees_value@ == settled.gas_used@ * gas_price
        }),
{
    broadcast use group_words;

    let gas_left = unused + refund(gas, unused, earned);
    let gas_used = (gas - gas_left) as nat;
    lemma_mul_inequality(gas_left as int, gas as int, gas_price as int);
    lemma_mul_inequality(gas_used as int, gas as int, gas_price as int);
    lemma_mul_is_distributive_add_other_way(gas_price as int, gas_left as int, gas_used as int);
}

/// The refund is what was earned, but at most half of what was used before it, so at least half of
/// that is paid for; and nobody gets more back than was refunded and left.
pub proof fn law_at_most_half_is_refunded(gas: nat, gas_price: nat, unused: nat, earned: nat)
    requires
        unused <= gas < u256_range(),
    ensures
        ({
            let settled = settlement(gas, gas_price, unused, earned);
            let spent = gas - unused;
            &&& settled.refunded@ <= earned
            &&& 2 * settled.refunded@ <= spent
            &&& 2 * settled.gas_used@ >= spent
            &&& settled.refunded@ <= settled.gas_used@ <= spent
            &&& settled.refunded@ == earned || 2 * settled.refunded@ + 1 >= spent
        }),
{
    broadcast use group_words;

}

/// To earn a larger refund never costs more gas.
pub proof fn law_refunds_save_gas(
    gas: nat,
    gas_price: nat,
    unused: nat,
    less_earned: nat,
    more_earned: nat,
)
    requires
        unused <= gas < u256_range(),
        less_earned <= more_earned,
    ensures
        settlement(gas, gas_price, unused, more_earned).gas_used@ <= settlement(
            gas,
            gas_price,
            unused,
            less_earned,
        ).gas_used@,
{
    broadcast use group_words;

}

/// What was used, what was refunded and what the action left make up the gas, and what is left is
/// the refund and what the action left.
pub proof fn law_settled_gas_adds_up(gas: nat, gas_price: nat, unused: nat, earned: nat)
    requires
        unused <= gas < u256_range(),
    ensures
        ({
            let settled = settlement(gas, gas_price, unused, earned);
            &&& settled.gas_used@ + settled.refunded@ + unused == gas
            &&& settled.gas_left@ == unused + settled.refunded@
            &&& settled.refunded@ == refund(gas, unused, earned)
            &&& 2 * earned <= gas - unused ==> settled.refunded@ == earned
            &&& 2 * earned > gas - unused ==> settled.refunded@ == (gas - unused) / 2
        }),
{
    broadcast use group_words;

}

} // verus!
