//! Accounting core of a yield-bearing deposit pool.
//!
//! Depositors hand stable funds to the pool and receive a derivative claim
//! token one to one with the net (after-tax) deposit; the pool forwards the
//! funds into an external money market.  Redeeming burns the claim and pays
//! the holder back at the market's real exchange rate, after two sequential
//! tax deductions.  A privileged beneficiary periodically harvests the spread
//! between the pool's value at the real rate and at an externally fed
//! "virtual" rate.
//!
//! Every handler is a pure function: the host reads the chain (configuration
//! record, exchange rates, balances, tax parameters) and passes plain values
//! in; the handler returns the ordered list of messages the host must execute
//! atomically, or an error that aborts the whole transaction.

pub mod adapter;
pub mod config;
pub mod contract;
pub mod gateway_config;
pub mod handler;
pub mod handler_exec;
pub mod math;
pub mod pool_msg;
pub mod staker;
pub mod swap_migrate;
pub mod swap_msg;
pub mod tax;
pub mod types;
