//! The protocol-level transfer tax and its deduction.
//!
//! Every monetary transfer hop in the pool's settlement currency pays a tax
//! of `min(amount * (1 - 1/(1 + rate)), cap)`, where the rate and the
//! per-denomination cap are read fresh from the chain for each handler call.
//! [`compute_tax`] and [`deduct_tax`] are proved to compute exactly the
//! flooring integer formulas [`tax_of`] and [`deduct_of`]; a tax never
//! exceeds the amount it is levied on, so a deduction never underflows.

use vstd::arithmetic::div_mod::{
    lemma_div_is_ordered, lemma_div_is_ordered_by_denominator, lemma_div_multiples_vanish,
    lemma_div_pos_is_pos,
};
use vstd::arithmetic::mul::lemma_mul_inequality;
use vstd::prelude::*;

use crate::math::{Rate, RATE_ONE};

verus! {

/// Tax parameters of the pool's settlement denomination, as read from the
/// chain at the start of a handler call.
#[derive(Clone, Copy, Debug, PartialEq, Eq, Structural)]
pub struct TaxInfo {
    /// Tax rate per transfer hop.
    pub rate: Rate,
    /// Cap on the tax of a single transfer, in the settlement denomination.
    pub cap: u64,
}

/// Numerator over [`RATE_ONE`] of `1 - 1/(1 + rate)`, the effective tax
/// ratio, where `num` is the rate's numerator.  Both divisions floor.
pub open spec fn one_sub_inv_of(num: int) -> int {
    RATE_ONE - (RATE_ONE * RATE_ONE) / (RATE_ONE + num)
}

/// The tax levied on `amount`: the rate-proportional part, floored, but
/// never more than the cap.
pub open spec fn tax_of(t: TaxInfo, amount: int) -> int {
    let proportional = (amount * one_sub_inv_of(t.rate.num as int)) / (RATE_ONE as int);
    if proportional < t.cap {
        proportional
    } else {
        t.cap as int
    }
}

/// What is left of `amount` after one application of the tax.
pub open spec fn deduct_of(t: TaxInfo, amount: int) -> int {
    amount - tax_of(t, amount)
}

/// The effective tax ratio lies between zero and one.
pub proof fn lemma_one_sub_inv_bounds(num: int)
    requires
        0 <= num,
    ensures
        0 <= one_sub_inv_of(num) <= RATE_ONE,
{
    let one = RATE_ONE as int;
    lemma_div_pos_is_pos(one * one, one + num);
    lemma_div_is_ordered_by_denominator(one * one, one, one + num);
    lemma_div_multiples_vanish(one, one);
    assert((one * one) / one == one);
}

/// A tax is never negative and never exceeds the amount it is levied on;
/// equivalently, the deduction and the tax together conserve the amount.
pub proof fn lemma_tax_bounds(t: TaxInfo, amount: int)
    requires
        0 <= amount,
    ensures
        0 <= tax_of(t, amount) <= amount,
        deduct_of(t, amount) + tax_of(t, amount) == amount,
        0 <= deduct_of(t, amount) <= amount,
{
    let one = RATE_ONE as int;
    let num = t.rate.num as int;
    let omi = one_sub_inv_of(num);
    lemma_one_sub_inv_bounds(num);
    lemma_mul_inequality(omi, one, amount);
    assert(amount * omi == omi * amount) by (nonlinear_arith);
    assert(amount * one == one * amount) by (nonlinear_arith);
    assert(amount * omi >= 0) by (nonlinear_arith)
        requires
            amount >= 0,
            omi >= 0,
    ;
    lemma_div_pos_is_pos(amount * omi, one);
    lemma_div_is_ordered(amount * omi, amount * one, one);
    lemma_div_multiples_vanish(amount, one);
    assert((one * amount) / one == amount);
}

/// The tax on `amount` under the parameters `t`.
pub fn compute_tax(t: &TaxInfo, amount: u64) -> (r: u64)
    ensures
        r == tax_of(*t, amount as int),
        r <= amount,
{
    let one: u128 = RATE_ONE as u128;
    let denom: u128 = one + (t.rate.num as u128);
    let inv: u128 = 1_000_000_000_000_000_000_000_000_000_000_000_000u128 / denom;
    proof {
        assert(1_000_000_000_000_000_000_000_000_000_000_000_000 == (RATE_ONE as int) * (
        RATE_ONE as int));
        lemma_div_is_ordered_by_denominator((RATE_ONE as int) * (RATE_ONE as int),
            RATE_ONE as int, denom as int);
        lemma_div_multiples_vanish(RATE_ONE as int, RATE_ONE as int);
        lemma_div_pos_is_pos((RATE_ONE as int) * (RATE_ONE as int), denom as int);
    }
    let omi: u128 = one - inv;
    proof {
        assert((amount as int) * (omi as int) <= (u64::MAX as int) * (RATE_ONE as int))
            by (nonlinear_arith)
            requires
                amount <= u64::MAX,
                omi <= RATE_ONE,
                0 <= omi,
        ;
        lemma_mul_inequality(omi as int, RATE_ONE as int, amount as int);
        assert((amount as int) * (omi as int) == (omi as int) * (amount as int))
            by (nonlinear_arith);
        assert((amount as int) * (RATE_ONE as int) == (RATE_ONE as int) * (amount as int))
            by (nonlinear_arith);
        assert((amount as int) * (omi as int) >= 0) by (nonlinear_arith);
        lemma_div_is_ordered((amount as int) * (omi as int), (amount as int) * (RATE_ONE as int),
            RATE_ONE as int);
        lemma_div_multiples_vanish(amount as int, RATE_ONE as int);
        lemma_div_pos_is_pos((amount as int) * (omi as int), RATE_ONE as int);
    }
    let prod: u128 = (amount as u128) * omi;
    let q: u128 = prod / one;
    let proportional: u64 = q as u64;
    if proportional < t.cap {
        proportional
    } else {
        t.cap
    }
}

/// What is left of `amount` after one tax deduction.
pub fn deduct_tax(t: &TaxInfo, amount: u64) -> (r: u64)
    ensures
        r == deduct_of(*t, amount as int),
        r <= amount,
{
    let tax = compute_tax(t, amount);
    amount - tax
}

} // verus!
