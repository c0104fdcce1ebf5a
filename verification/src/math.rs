//! Fixed-point rates and the exact integer arithmetic behind them.
//!
//! A [`Rate`] is an unsigned fixed-point ratio with eighteen fractional
//! decimal digits: the value it denotes is `num / RATE_ONE`.  Multiplying or
//! dividing an amount by a rate always rounds down, and the executable
//! operations are proved to compute exactly the flooring integer formulas
//! [`mul_rate_of`] and [`div_rate_of`].

use vstd::prelude::*;

verus! {

/// Scale of a [`Rate`]: the representation of the ratio one.
pub const RATE_ONE: u64 = 1_000_000_000_000_000_000;

/// An unsigned fixed-point ratio, denoting `num / RATE_ONE`.
#[derive(Clone, Copy, Debug, PartialEq, Eq, Structural)]
pub struct Rate {
    /// Numerator over the fixed scale [`RATE_ONE`].
    pub num: u64,
}

impl Rate {
    /// The ratio zero.
    pub fn zero() -> (r: Rate)
        ensures
            r.num == 0,
    {
        Rate { num: 0 }
    }

    /// The ratio one.
    pub fn one() -> (r: Rate)
        ensures
            r.num == RATE_ONE,
    {
        Rate { num: RATE_ONE }
    }

    /// The ratio `p / 100`.
    pub fn percent(p: u64) -> (r: Rate)
        requires
            p * 10_000_000_000_000_000 <= u64::MAX,
        ensures
            r.num == p * 10_000_000_000_000_000,
    {
        Rate { num: p * 10_000_000_000_000_000 }
    }

    /// Exact numerator of this ratio over [`RATE_ONE`].
    pub fn from_num(num: u64) -> (r: Rate)
        ensures
            r.num == num,
    {
        Rate { num }
    }
}

/// `amount` scaled down by a rate with numerator `num`: the product floored
/// to an integer.
pub open spec fn mul_rate_of(amount: int, num: int) -> int {
    (amount * num) / (RATE_ONE as int)
}

/// `amount` scaled up by the inverse of a rate with numerator `num`: the
/// quotient floored to an integer.
pub open spec fn div_rate_of(amount: int, num: int) -> int {
    (amount * (RATE_ONE as int)) / num
}

/// `amount * rate`, or `None` when the exact result does not fit a `u64`.
pub fn checked_mul_rate(amount: u64, rate: Rate) -> (r: Option<u64>)
    ensures
        match r {
            Some(v) => v == mul_rate_of(amount as int, rate.num as int),
            None => mul_rate_of(amount as int, rate.num as int) > u64::MAX,
        },
{
    proof {
        assert((amount as int) * (rate.num as int) <= (u64::MAX as int) * (u64::MAX as int))
            by (nonlinear_arith)
            requires
                amount <= u64::MAX,
                rate.num <= u64::MAX,
        ;
    }
    let prod: u128 = (amount as u128) * (rate.num as u128);
    let q: u128 = prod / (RATE_ONE as u128);
    if q > u64::MAX as u128 {
        None
    } else {
        Some(q as u64)
    }
}

/// `amount / rate`, or `None` when the exact result does not fit a `u64`.
pub fn checked_div_rate(amount: u64, rate: Rate) -> (r: Option<u64>)
    requires
        rate.num > 0,
    ensures
        match r {
            Some(v) => v == div_rate_of(amount as int, rate.num as int),
            None => div_rate_of(amount as int, rate.num as int) > u64::MAX,
        },
{
    proof {
        assert((amount as int) * (RATE_ONE as int) <= (u64::MAX as int) * (u64::MAX as int))
            by (nonlinear_arith)
            requires
                amount <= u64::MAX,
                RATE_ONE <= u64::MAX,
        ;
    }
    let prod: u128 = (amount as u128) * (RATE_ONE as u128);
    let q: u128 = prod / (rate.num as u128);
    if q > u64::MAX as u128 {
        None
    } else {
        Some(q as u64)
    }
}

} // verus!
