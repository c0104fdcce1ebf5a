//! Message surface of the launchpad swap pool: a fixed-liquidity virtual
//! pool selling a project token against a stable denomination.

use vstd::prelude::*;

use crate::types::Addr;

verus! {

/// Arguments of swap-pool initialization.
#[derive(Clone, Debug)]
pub struct InitMsg {
    /// Receives the collected stable funds.
    pub beneficiary: Addr,
    /// Stable denomination paid in.
    pub x_denom: Vec<u8>,
    /// The token sold.
    pub y_addr: Addr,
    /// Virtual liquidity of the stable side.
    pub liq_x: u64,
    /// Virtual liquidity of the token side; also the pool's cap.
    pub liq_y: u64,
    /// Start of the sale.
    pub start: u64,
    /// Length of the sale.
    pub period: u64,
}

/// The handler surface of the swap pool.
#[derive(Clone, Debug)]
pub enum HandleMsg {
    /// Swap the attached stable funds for the token.
    Deposit {},
    /// Withdraw part of a position.
    Withdraw { amount: u64 },
    /// Collect the proceeds; beneficiary only.
    Earn {},
}

/// The query surface of the swap pool.
#[derive(Clone, Debug)]
pub enum QueryMsg {
    /// The pool's configuration.
    Config {},
    /// Position of one owner.
    BalanceOf { owner: Addr },
    /// Total sold.
    TotalSupply {},
    /// Current virtual-pool price.
    CurrentPrice {},
}

/// Migration takes no arguments.
#[derive(Clone, Debug, PartialEq, Eq, Structural)]
pub struct MigrateMsg {}

} // verus!
