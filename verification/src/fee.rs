//! The fee calculator: a pure function from token, amount and the registry's
//! per-token rate to the fee owed on a loan.

use vstd::prelude::*;

use vstd::arithmetic::div_mod::lemma_div_is_ordered;
use vstd::arithmetic::mul::lemma_mul_inequality;

use crate::addr::Address;
use crate::registry::TokenRegistry;

verus! {

/// The fee on a loan: the amount times the rate in parts per ten thousand,
/// rounded down.
pub open spec fn spec_fee(rate: u128, amount: u128) -> int {
    amount * rate / 10000
}

/// Quotes the fee for a loan of `amount` units of `token`. A token without a
/// rate on record is lent for free. The multiply must not exceed the machine
/// bound: overflowing the one place where monetary value is computed would be
/// a fatal violation, so it is ruled out up front.
pub fn flash_fee(registry: &TokenRegistry, token: Address, amount: u128) -> (r: u128)
    requires
        amount * registry.spec_fee_rate(token) <= u128::MAX,
    ensures
        r == spec_fee(registry.spec_fee_rate(token), amount),
{
    let rate = registry.fee_rate(token);
    (amount * rate) / 10000
}

/// Fee monotonicity: at any fixed rate, a larger loan is never charged a
/// smaller fee.
pub proof fn lemma_fee_monotonic(rate: u128, a1: u128, a2: u128)
    requires
        a1 <= a2,
    ensures
        spec_fee(rate, a1) <= spec_fee(rate, a2),
{
    lemma_mul_inequality(a1 as int, a2 as int, rate as int);
    lemma_div_is_ordered(a1 * rate, a2 * rate, 10000);
}

/// Fee monotonicity over a registry: whatever rate a token is at, a larger
/// loan of it is never charged a smaller fee.
pub proof fn lemma_flash_fee_monotonic(reg: TokenRegistry, token: Address, a1: u128, a2: u128)
    requires
        a1 <= a2,
    ensures
        spec_fee(reg.spec_fee_rate(token), a1) <= spec_fee(reg.spec_fee_rate(token), a2),
{
    lemma_fee_monotonic(reg.spec_fee_rate(token), a1, a2);
}

/// The fee never exceeds the amount while the rate stays within one whole:
/// the bound every caller needs to see that `amount + fee` cannot wrap far.
pub proof fn lemma_fee_bounded(rate: u128, amount: u128)
    requires
        rate <= 10000,
    ensures
        0 <= spec_fee(rate, amount) <= amount,
{
    lemma_mul_inequality(rate as int, 10000, amount as int);
    lemma_div_is_ordered(amount * rate, amount * 10000, 10000);
    assert(amount * 10000 / 10000 == amount) by (nonlinear_arith);
    assert(amount * rate >= 0) by (nonlinear_arith);
    lemma_div_is_ordered(0, amount * rate, 10000);
}

} // verus!
