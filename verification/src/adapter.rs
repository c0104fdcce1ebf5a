//! Read-only access to the external money-market adapter.
//!
//! The handlers never talk to the chain themselves: they build a query
//! description here, the host executes it synchronously against state as of
//! the current block, and hands the decoded answer back as plain values.

use vstd::prelude::*;

use crate::math::Rate;
use crate::types::{dup_bytes, Addr};

verus! {

/// A query for the host to execute against the adapter contract.
#[derive(Clone, Debug)]
pub enum AdapterQuery {
    /// The adapter's configuration (stable denomination, yield token).
    Config { contract: Addr },
    /// The current exchange rate for the given input denomination.
    ExchangeRate { contract: Addr, input_denom: Vec<u8> },
    /// The messages that deposit `amount` through the adapter.
    Deposit { contract: Addr, amount: u64 },
    /// The messages that redeem `amount` through the adapter.
    Redeem { contract: Addr, amount: u64 },
}

/// The adapter's answer to an exchange-rate query.
#[derive(Clone, Copy, Debug, PartialEq, Eq, Structural)]
pub struct ExchangeRateResponse {
    /// The current exchange rate.
    pub exchange_rate: Rate,
}

/// The configuration query against `adapter`.
pub fn config(adapter: &Addr) -> (q: AdapterQuery)
    ensures
        q matches AdapterQuery::Config { contract } && contract@ == adapter@,
{
    AdapterQuery::Config { contract: adapter.dup() }
}

/// The exchange-rate query against `adapter` for `input_denom`; the rate in
/// the host's answer is `resp.exchange_rate`.
pub fn exchange_rate(adapter: &Addr, input_denom: &Vec<u8>) -> (q: AdapterQuery)
    ensures
        q matches AdapterQuery::ExchangeRate { contract, input_denom: d } && contract@ == adapter@
            && d@ == input_denom@,
{
    AdapterQuery::ExchangeRate { contract: adapter.dup(), input_denom: dup_bytes(input_denom) }
}

/// The query for the messages that deposit `amount` through `adapter`.
pub fn deposit(adapter: &Addr, amount: u64) -> (q: AdapterQuery)
    ensures
        q matches AdapterQuery::Deposit { contract, amount: a } && contract@ == adapter@ && a
            == amount,
{
    AdapterQuery::Deposit { contract: adapter.dup(), amount }
}

/// The query for the messages that redeem `amount` through `adapter`.
pub fn redeem(adapter: &Addr, amount: u64) -> (q: AdapterQuery)
    ensures
        q matches AdapterQuery::Redeem { contract, amount: a } && contract@ == adapter@ && a
            == amount,
{
    AdapterQuery::Redeem { contract: adapter.dup(), amount }
}

} // verus!
