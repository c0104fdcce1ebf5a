//! The pool's external message surface: initialization, handler dispatch,
//! the redeem callback payload, queries, and migration.
//!
//! The host decodes incoming bytes into these closed tagged unions before a
//! handler runs; a payload that decodes to no known variant is handed over
//! as `None` and rejected with an invalid-request error.

use vstd::prelude::*;

use crate::types::Addr;

verus! {

/// Arguments of pool initialization.
#[derive(Clone, Debug)]
pub struct InitMsg {
    /// Display name of the pool, used to label its derivative token.
    pub pool_name: Vec<u8>,
    /// Receives harvested yield, less the fee.
    pub beneficiary: Addr,
    /// Receives the harvested fee.
    pub fee_collector: Addr,
    /// Source of the virtual exchange rate.
    pub exchange_rate_feeder: Addr,
    /// The external money market to deposit into.
    pub moneymarket: Addr,
    /// Code id the host instantiates the derivative token from.
    pub dp_code_id: u64,
}

/// A transfer of derivative tokens into the pool, forwarded by the token
/// contract together with the original sender and an optional payload.
#[derive(Clone, Debug)]
pub struct Cw20ReceiveMsg {
    /// The account that sent the tokens to the pool.
    pub sender: Addr,
    /// How many tokens were sent.
    pub amount: u64,
    /// Decoded payload; `None` when missing or undecodable.
    pub msg: Option<Cw20HookMsg>,
}

/// The handler surface of the pool.
#[derive(Clone, Debug)]
pub enum HandleMsg {
    /// One-time binding of the derivative token, called by the token itself.
    RegisterDPToken {},
    /// Callback carrying derivative tokens and a payload.
    Receive(Cw20ReceiveMsg),
    /// Deposit the attached stable funds.
    Deposit {},
    /// Harvest the spread; beneficiary only.
    Earn {},
    /// Owner-gated reconfiguration of payout addresses.
    Configure { beneficiary: Option<Addr>, fee_collector: Option<Addr> },
}

/// Payload of a derivative-token transfer into the pool.
#[derive(Clone, Debug, PartialEq, Eq, Structural)]
pub enum Cw20HookMsg {
    /// Redeem the sent derivative tokens for stable funds.
    Redeem {},
}

/// The query surface of the pool.
#[derive(Clone, Debug)]
pub enum QueryMsg {
    /// Derivative balance of one owner.
    DepositAmountOf { owner: Addr },
    /// Total derivative supply.
    TotalDepositAmount {},
    /// The configuration record.
    Config {},
    /// Yield over principal currently harvestable.
    ClaimableReward {},
}

/// Migration takes no arguments.
#[derive(Clone, Debug, PartialEq, Eq, Structural)]
pub struct MigrateMsg {}

} // verus!
