//! The pool's entry points: initialization, handler dispatch, queries, and
//! migration.
//!
//! The host decodes the incoming message, reads the chain state the call
//! needs into a [`StateSnapshot`], and passes both in; everything after that
//! is pure and verified.

use vstd::prelude::*;

use crate::config::Config;
use crate::handler;
use crate::handler::{
    configure_outcome, deposit_outcome, earn_outcome, pool_value_of, receive_outcome,
    register_outcome,
};
use crate::math::{mul_rate_of, Rate};
use crate::pool_msg::{HandleMsg, InitMsg, MigrateMsg, QueryMsg};
use crate::tax::TaxInfo;
use crate::types::{Addr, Coin, Error, Msg, Response};

verus! {

/// The money market's own configuration, as queried at initialization.
#[derive(Clone, Debug)]
pub struct MarketConfig {
    /// The market's stable denomination; becomes the pool's settlement
    /// currency.
    pub stable_denom: Vec<u8>,
    /// The market's yield-bearing receipt token.
    pub aterra_contract: Addr,
}

/// Chain state read by the host for one handler call, all as of the current
/// block: no other staleness window exists.
#[derive(Clone, Debug)]
pub struct StateSnapshot {
    /// The money market's real exchange rate.
    pub exchange_rate: Rate,
    /// The externally fed virtual exchange rate.
    pub virtual_rate: Rate,
    /// The pool's balance of the market's yield-bearing token.
    pub atoken_balance: u64,
    /// Total supply of the derivative token.
    pub dp_total_supply: u64,
    /// Tax parameters of the settlement denomination.
    pub tax: TaxInfo,
}

/// Create the pool's configuration and ask the host to instantiate the
/// derivative token, with the pool as its minter and a registration
/// callback pointing back at the pool, so registration is self-driven.
pub fn init(msg: &InitMsg, sender: &Addr, contract_addr: &Addr, market: &MarketConfig) -> (r: (
    Config,
    Response,
))
    ensures
        r.0.this@ == contract_addr@,
        r.0.owner@ == sender@,
        r.0.beneficiary@ == msg.beneficiary@,
        r.0.fee_collector@ == msg.fee_collector@,
        r.0.exchange_rate_feeder@ == msg.exchange_rate_feeder@,
        r.0.moneymarket@ == msg.moneymarket@,
        r.0.stable_denom@ == market.stable_denom@,
        r.0.atoken@ == market.aterra_contract@,
        r.0.dp_token@ == Seq::<u8>::empty(),
        r.1.messages@.len() == 1,
        r.1.messages@[0] matches Msg::Instantiate { code_id, pool_name, minter, init_hook }
            && code_id == msg.dp_code_id && pool_name@ == msg.pool_name@ && minter@
            == contract_addr@ && init_hook@ == contract_addr@,
        r.1.logs@.len() == 0,
{
    let cfg = Config {
        this: contract_addr.dup(),
        owner: sender.dup(),
        beneficiary: msg.beneficiary.dup(),
        fee_collector: msg.fee_collector.dup(),
        exchange_rate_feeder: msg.exchange_rate_feeder.dup(),
        moneymarket: msg.moneymarket.dup(),
        stable_denom: crate::types::dup_bytes(&market.stable_denom),
        atoken: market.aterra_contract.dup(),
        dp_token: Addr::unset(),
    };
    let mut messages: Vec<Msg> = Vec::new();
    messages.push(Msg::Instantiate {
        code_id: msg.dp_code_id,
        pool_name: crate::types::dup_bytes(&msg.pool_name),
        minter: contract_addr.dup(),
        init_hook: contract_addr.dup(),
    });
    (cfg, Response { messages, logs: Vec::new() })
}

/// Dispatch one handler call.  The configuration is rewritten only by
/// registration and reconfiguration; every other variant leaves it
/// untouched.
pub fn handle(
    cfg: &mut Config,
    sender: &Addr,
    funds: &Vec<Coin>,
    msg: &HandleMsg,
    q: &StateSnapshot,
) -> (r: Result<Response, Error>)
    requires
        q.exchange_rate.num > 0,
        sender@.len() > 0,
    ensures
        match msg {
            HandleMsg::RegisterDPToken {} => register_outcome(*old(cfg), *final(cfg), *sender, r),
            HandleMsg::Receive(rm) => *final(cfg) == *old(cfg) && receive_outcome(
                *old(cfg),
                *sender,
                rm.sender,
                rm.amount,
                rm.msg,
                q.exchange_rate,
                q.tax,
                r,
            ),
            HandleMsg::Deposit {} => *final(cfg) == *old(cfg) && deposit_outcome(
                *old(cfg),
                *sender,
                funds@,
                q.tax,
                r,
            ),
            HandleMsg::Earn {} => *final(cfg) == *old(cfg) && earn_outcome(
                *old(cfg),
                *sender,
                q.exchange_rate,
                q.virtual_rate,
                q.atoken_balance,
                q.dp_total_supply,
                q.tax,
                r,
            ),
            HandleMsg::Configure { beneficiary, fee_collector } => configure_outcome(
                *old(cfg),
                *final(cfg),
                *sender,
                *beneficiary,
                *fee_collector,
                r,
            ),
        },
{
    match msg {
        HandleMsg::RegisterDPToken {} => handler::register_dp_token(cfg, sender),
        HandleMsg::Receive(rm) => handler::receive(
            cfg,
            sender,
            &rm.sender,
            rm.amount,
            &rm.msg,
            q.exchange_rate,
            &q.tax,
        ),
        HandleMsg::Deposit {} => handler::deposit(cfg, sender, funds, &q.tax),
        HandleMsg::Earn {} => handler::earn(
            cfg,
            sender,
            q.exchange_rate,
            q.virtual_rate,
            q.atoken_balance,
            q.dp_total_supply,
            &q.tax,
        ),
        HandleMsg::Configure { beneficiary, fee_collector } => handler::configure(
            cfg,
            sender,
            beneficiary,
            fee_collector,
        ),
    }
}

/// Answer of one pool query.
#[derive(Clone, Debug)]
pub enum QueryAnswer {
    /// Derivative balance of the asked-for owner.
    DepositAmount { amount: u64 },
    /// Total derivative supply.
    TotalDepositAmount { amount: u64 },
    /// Snapshot of the configuration record.
    ConfigInfo { config: Config },
    /// Yield over principal currently harvestable, clamped at zero.
    ClaimableReward { amount: u64 },
}

/// Answer a query from the configuration and the queried chain state.
/// `owner_balance` is the derivative balance of the owner a
/// `DepositAmountOf` query asks about.  The claimable reward is the pool
/// value at the real rate less the derivative supply, clamped at zero.
pub fn query(cfg: &Config, msg: &QueryMsg, q: &StateSnapshot, owner_balance: u64) -> (r: Result<
    QueryAnswer,
    Error,
>)
    ensures
        match msg {
            QueryMsg::DepositAmountOf { .. } => {
                &&& r is Ok
                &&& r->Ok_0 matches QueryAnswer::DepositAmount { amount } && amount
                    == owner_balance
            },
            QueryMsg::TotalDepositAmount {} => {
                &&& r is Ok
                &&& r->Ok_0 matches QueryAnswer::TotalDepositAmount { amount } && amount
                    == q.dp_total_supply
            },
            QueryMsg::Config {} => {
                &&& r is Ok
                &&& r->Ok_0 matches QueryAnswer::ConfigInfo { config } && config.this@
                    == cfg.this@ && config.owner@ == cfg.owner@ && config.beneficiary@
                    == cfg.beneficiary@ && config.fee_collector@ == cfg.fee_collector@
                    && config.exchange_rate_feeder@ == cfg.exchange_rate_feeder@
                    && config.moneymarket@ == cfg.moneymarket@ && config.stable_denom@
                    == cfg.stable_denom@ && config.atoken@ == cfg.atoken@ && config.dp_token@
                    == cfg.dp_token@
            },
            QueryMsg::ClaimableReward {} => if mul_rate_of(
                q.atoken_balance as int,
                q.exchange_rate.num as int,
            ) > u64::MAX {
                r == Err::<QueryAnswer, Error>(Error::Overflow)
            } else {
                let pool_value = pool_value_of(
                    q.tax,
                    q.atoken_balance as int,
                    q.exchange_rate.num as int,
                );
                &&& r is Ok
                &&& r->Ok_0 matches QueryAnswer::ClaimableReward { amount } && amount == (
                if pool_value >= q.dp_total_supply {
                    pool_value - q.dp_total_supply
                } else {
                    0
                })
            },
        },
{
    match msg {
        QueryMsg::DepositAmountOf { .. } => Ok(QueryAnswer::DepositAmount { amount: owner_balance }),
        QueryMsg::TotalDepositAmount {} => Ok(
            QueryAnswer::TotalDepositAmount { amount: q.dp_total_supply },
        ),
        QueryMsg::Config {} => {
            let config = Config {
                this: cfg.this.dup(),
                owner: cfg.owner.dup(),
                beneficiary: cfg.beneficiary.dup(),
                fee_collector: cfg.fee_collector.dup(),
                exchange_rate_feeder: cfg.exchange_rate_feeder.dup(),
                moneymarket: cfg.moneymarket.dup(),
                stable_denom: crate::types::dup_bytes(&cfg.stable_denom),
                atoken: cfg.atoken.dup(),
                dp_token: cfg.dp_token.dup(),
            };
            Ok(QueryAnswer::ConfigInfo { config })
        },
        QueryMsg::ClaimableReward {} => {
            let raw = match crate::math::checked_mul_rate(q.atoken_balance, q.exchange_rate) {
                Some(v) => v,
                None => {
                    return Err(Error::Overflow);
                },
            };
            let pool_value = crate::tax::deduct_tax(&q.tax, raw);
            let amount = if pool_value >= q.dp_total_supply {
                pool_value - q.dp_total_supply
            } else {
                0
            };
            Ok(QueryAnswer::ClaimableReward { amount })
        },
    }
}

/// Migration carries no arguments and changes nothing.
pub fn migrate(_msg: &MigrateMsg) -> (r: Response)
    ensures
        r.messages@.len() == 0,
        r.logs@.len() == 0,
{
    Response { messages: Vec::new(), logs: Vec::new() }
}

} // verus!
