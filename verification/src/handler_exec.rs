//! The earlier generation of the pool's handlers.  They share the
//! configuration record, the arithmetic, and the deposit/redeem behaviour
//! with the current handlers — tax netting, multi-denomination rejection,
//! the rate-feeder notification ahead of any supply change, and the
//! registration gate — and differ in shape: their logs record the caller
//! under the operator key, and the harvest pays the whole reward, twice
//! taxed, to the beneficiary with no fee split.

use vstd::prelude::*;

use crate::config::Config;
use crate::handler::{received_of, register_allowed, register_outcome};
use crate::math::{checked_div_rate, checked_mul_rate, div_rate_of, mul_rate_of, Rate};
use crate::pool_msg::Cw20HookMsg;
use crate::tax::{deduct_of, deduct_tax, lemma_tax_bounds, TaxInfo};
use crate::types::{addr_eq, bytes_eq, dup_bytes, ActionTag, Addr, Coin, Error, LogEntry, Msg,
    Response};

verus! {

/// Exact result of an early-generation deposit: until the derivative token
/// is registered every value-moving call fails; a zero or missing
/// settlement-denomination amount is an invalid deposit; more than one
/// attached denomination is an unsupported asset; otherwise the net
/// (after-tax) amount is forwarded into the money market and minted, with
/// the feeder notified first.
pub open spec fn exec_deposit_outcome(
    cfg: Config,
    sender: Addr,
    funds: Seq<Coin>,
    t: TaxInfo,
    r: Result<Response, Error>,
) -> bool {
    let recv = received_of(funds, cfg.stable_denom@);
    if register_allowed(cfg.dp_token@) {
        r == Err::<Response, Error>(Error::Unauthorized)
    } else if recv == 0 {
        r == Err::<Response, Error>(Error::InsufficientDeposit)
    } else if funds.len() > 1 {
        r == Err::<Response, Error>(Error::UnsupportedAsset)
    } else {
        let net = deduct_of(t, recv);
        &&& r is Ok
        &&& r->Ok_0.messages@.len() == 3
        &&& r->Ok_0.messages@[0] matches Msg::FeederUpdate { feeder, token } && feeder@
            == cfg.exchange_rate_feeder@ && token@ == cfg.dp_token@
        &&& r->Ok_0.messages@[1] matches Msg::MarketDeposit { market, coin } && market@
            == cfg.moneymarket@ && coin.denom@ == cfg.stable_denom@ && coin.amount == net
        &&& r->Ok_0.messages@[2] matches Msg::Mint { token, recipient, amount } && token@
            == cfg.dp_token@ && recipient@ == sender@ && amount == net
        &&& r->Ok_0.logs@.len() == 3
        &&& r->Ok_0.logs@[0] matches LogEntry::Action(a) && a == ActionTag::Deposit
        &&& r->Ok_0.logs@[1] matches LogEntry::Operator(s) && s@ == sender@
        &&& r->Ok_0.logs@[2] matches LogEntry::Amount(m) && m == net
    }
}

/// Accept the attached stable funds: net out one tax, forward the net
/// amount into the money market, and mint derivative tokens one to one
/// with it.  Fails until the derivative token is registered.
pub fn handle_deposit(cfg: &Config, sender: &Addr, funds: &Vec<Coin>, t: &TaxInfo) -> (r: Result<
    Response,
    Error,
>)
    ensures
        exec_deposit_outcome(*cfg, *sender, funds@, *t, r),
{
    if cfg.dp_token.is_unset() {
        return Err(Error::Unauthorized);
    }
    let ghost denom = cfg.stable_denom@;
    let mut i: usize = 0;
    let mut received: u64 = 0;
    let mut matched: bool = false;
    proof {
        assert(funds@.skip(0) =~= funds@);
    }
    while i < funds.len() && !matched
        invariant
            0 <= i <= funds@.len(),
            !matched ==> received == 0 && received_of(funds@, denom) == received_of(
                funds@.skip(i as int),
                denom,
            ),
            matched ==> received == received_of(funds@, denom),
            denom == cfg.stable_denom@,
        decreases funds@.len() - i, (if matched { 0int } else { 1int }),
    {
        proof {
            let s = funds@.skip(i as int);
            assert(s[0] == funds@[i as int]);
            assert(s.subrange(1, s.len() as int) =~= funds@.skip(i as int + 1));
        }
        if bytes_eq(&funds[i].denom, &cfg.stable_denom) {
            received = funds[i].amount;
            matched = true;
        } else {
            i = i + 1;
        }
    }
    proof {
        if !matched {
            assert(funds@.skip(funds@.len() as int) =~= Seq::<Coin>::empty());
        }
    }
    if received == 0 {
        return Err(Error::InsufficientDeposit);
    }
    if funds.len() > 1 {
        return Err(Error::UnsupportedAsset);
    }
    let net = deduct_tax(t, received);
    let mut messages: Vec<Msg> = Vec::new();
    messages.push(Msg::FeederUpdate {
        feeder: cfg.exchange_rate_feeder.dup(),
        token: cfg.dp_token.dup(),
    });
    messages.push(Msg::MarketDeposit {
        market: cfg.moneymarket.dup(),
        coin: Coin { denom: dup_bytes(&cfg.stable_denom), amount: net },
    });
    messages.push(Msg::Mint { token: cfg.dp_token.dup(), recipient: sender.dup(), amount: net });
    let mut logs: Vec<LogEntry> = Vec::new();
    logs.push(LogEntry::Action(ActionTag::Deposit));
    logs.push(LogEntry::Operator(sender.dup()));
    logs.push(LogEntry::Amount(net));
    Ok(Response { messages, logs })
}

/// Exact result of an early-generation redemption: notify the rate feeder,
/// burn the sent derivative amount, redeem the floored market amount, and
/// pay the user the twice-taxed value.
pub open spec fn exec_redeem_outcome(
    cfg: Config,
    caller: Addr,
    user: Addr,
    amount: u64,
    rate: Rate,
    t: TaxInfo,
    r: Result<Response, Error>,
) -> bool {
    let market_amount = div_rate_of(amount as int, rate.num as int);
    if market_amount > u64::MAX {
        r == Err::<Response, Error>(Error::Overflow)
    } else {
        let user_amount = deduct_of(t, deduct_of(t, market_amount));
        &&& r is Ok
        &&& r->Ok_0.messages@.len() == 4
        &&& r->Ok_0.messages@[0] matches Msg::FeederUpdate { feeder, token } && feeder@
            == cfg.exchange_rate_feeder@ && token@ == cfg.dp_token@
        &&& r->Ok_0.messages@[1] matches Msg::Burn { token, amount: burned } && token@
            == cfg.dp_token@ && burned == amount
        &&& r->Ok_0.messages@[2] matches Msg::MarketRedeem { market, atoken, amount: m }
            && market@ == cfg.moneymarket@ && atoken@ == cfg.atoken@ && m == market_amount
        &&& r->Ok_0.messages@[3] matches Msg::BankSend { from, to, coin } && from@ == cfg.this@
            && to@ == user@ && coin.denom@ == cfg.stable_denom@ && coin.amount == user_amount
        &&& r->Ok_0.logs@.len() == 3
        &&& r->Ok_0.logs@[0] matches LogEntry::Action(a) && a == ActionTag::Redeem
        &&& r->Ok_0.logs@[1] matches LogEntry::Operator(s) && s@ == caller@
        &&& r->Ok_0.logs@[2] matches LogEntry::Amount(m) && m == user_amount
    }
}

/// Redeem `amount` derivative tokens for `user`; `caller` is the
/// transaction sender (the derivative token contract).
pub fn handle_redeem(
    cfg: &Config,
    caller: &Addr,
    user: &Addr,
    amount: u64,
    rate: Rate,
    t: &TaxInfo,
) -> (r: Result<Response, Error>)
    requires
        rate.num > 0,
    ensures
        exec_redeem_outcome(*cfg, *caller, *user, amount, rate, *t, r),
{
    let market_amount = match checked_div_rate(amount, rate) {
        Some(m) => m,
        None => {
            return Err(Error::Overflow);
        },
    };
    proof {
        lemma_tax_bounds(*t, market_amount as int);
        lemma_tax_bounds(*t, deduct_of(*t, market_amount as int));
    }
    let once = deduct_tax(t, market_amount);
    let user_amount = deduct_tax(t, once);
    let mut messages: Vec<Msg> = Vec::new();
    messages.push(Msg::FeederUpdate {
        feeder: cfg.exchange_rate_feeder.dup(),
        token: cfg.dp_token.dup(),
    });
    messages.push(Msg::Burn { token: cfg.dp_token.dup(), amount });
    messages.push(Msg::MarketRedeem {
        market: cfg.moneymarket.dup(),
        atoken: cfg.atoken.dup(),
        amount: market_amount,
    });
    messages.push(Msg::BankSend {
        from: cfg.this.dup(),
        to: user.dup(),
        coin: Coin { denom: dup_bytes(&cfg.stable_denom), amount: user_amount },
    });
    let mut logs: Vec<LogEntry> = Vec::new();
    logs.push(LogEntry::Action(ActionTag::Redeem));
    logs.push(LogEntry::Operator(caller.dup()));
    logs.push(LogEntry::Amount(user_amount));
    Ok(Response { messages, logs })
}

/// Entry point of the derivative token's callback in the earlier handler
/// generation: only the registered token itself may trigger a redemption,
/// and never before registration has bound it.
pub fn handle_receive(
    cfg: &Config,
    caller: &Addr,
    user: &Addr,
    amount: u64,
    msg: &Option<Cw20HookMsg>,
    rate: Rate,
    t: &TaxInfo,
) -> (r: Result<Response, Error>)
    requires
        (*msg) is Some && !register_allowed(cfg.dp_token@) && caller@ == cfg.dp_token@
            ==> rate.num > 0,
    ensures
        match msg {
            Option::None => r == Err::<Response, Error>(Error::InvalidRequest),
            Option::Some(Cw20HookMsg::Redeem {}) => if register_allowed(cfg.dp_token@) || caller@
                != cfg.dp_token@ {
                r == Err::<Response, Error>(Error::Unauthorized)
            } else {
                exec_redeem_outcome(*cfg, *caller, *user, amount, rate, *t, r)
            },
        },
{
    match msg {
        Option::None => Err(Error::InvalidRequest),
        Option::Some(Cw20HookMsg::Redeem {}) => {
            if cfg.dp_token.is_unset() || !addr_eq(caller, &cfg.dp_token) {
                return Err(Error::Unauthorized);
            }
            handle_redeem(cfg, caller, user, amount, rate, t)
        },
    }
}

/// Exact result of the early-generation harvest: until the derivative
/// token is registered every value-moving call fails, and only the
/// beneficiary may call; the whole reward — the pool's taxed value at the
/// real rate over the derivative supply — is redeemed from the market and
/// paid, twice taxed, to the beneficiary.
pub open spec fn claim_reward_outcome(
    cfg: Config,
    sender: Addr,
    rate: Rate,
    balance: u64,
    supply: u64,
    t: TaxInfo,
    r: Result<Response, Error>,
) -> bool {
    if register_allowed(cfg.dp_token@) {
        r == Err::<Response, Error>(Error::Unauthorized)
    } else if sender@ != cfg.beneficiary@ {
        r == Err::<Response, Error>(Error::Unauthorized)
    } else if mul_rate_of(balance as int, rate.num as int) > u64::MAX {
        r == Err::<Response, Error>(Error::Overflow)
    } else {
        let pool_value = deduct_of(t, mul_rate_of(balance as int, rate.num as int));
        if pool_value < supply {
            r == Err::<Response, Error>(Error::Underflow)
        } else {
            let reward = pool_value - supply;
            let market_amount = div_rate_of(reward, rate.num as int);
            if market_amount > u64::MAX {
                r == Err::<Response, Error>(Error::Overflow)
            } else {
                let user_amount = deduct_of(t, deduct_of(t, market_amount));
                &&& r is Ok
                &&& r->Ok_0.messages@.len() == 2
                &&& r->Ok_0.messages@[0] matches Msg::MarketRedeem { market, atoken, amount }
                    && market@ == cfg.moneymarket@ && atoken@ == cfg.atoken@ && amount
                    == market_amount
                &&& r->Ok_0.messages@[1] matches Msg::BankSend { from, to, coin } && from@
                    == cfg.this@ && to@ == sender@ && coin.denom@ == cfg.stable_denom@
                    && coin.amount == user_amount
                &&& r->Ok_0.logs@.len() == 3
                &&& r->Ok_0.logs@[0] matches LogEntry::Action(a) && a == ActionTag::ClaimReward
                &&& r->Ok_0.logs@[1] matches LogEntry::Operator(s) && s@ == sender@
                &&& r->Ok_0.logs@[2] matches LogEntry::Amount(m) && m == user_amount
            }
        }
    }
}

/// Pay the beneficiary the pool's realized yield over principal;
/// beneficiary only, and only once the derivative token is registered.
/// The exchange rate is only touched — and so only needs to be positive —
/// once those gates have passed.
pub fn handle_claim_reward(
    cfg: &Config,
    sender: &Addr,
    rate: Rate,
    balance: u64,
    supply: u64,
    t: &TaxInfo,
) -> (r: Result<Response, Error>)
    requires
        !register_allowed(cfg.dp_token@) && sender@ == cfg.beneficiary@ ==> rate.num > 0,
    ensures
        claim_reward_outcome(*cfg, *sender, rate, balance, supply, *t, r),
{
    if cfg.dp_token.is_unset() {
        return Err(Error::Unauthorized);
    }
    if !addr_eq(sender, &cfg.beneficiary) {
        return Err(Error::Unauthorized);
    }
    let raw = match checked_mul_rate(balance, rate) {
        Some(v) => v,
        None => {
            return Err(Error::Overflow);
        },
    };
    let pool_value = deduct_tax(t, raw);
    if pool_value < supply {
        return Err(Error::Underflow);
    }
    let reward = pool_value - supply;
    let market_amount = match checked_div_rate(reward, rate) {
        Some(m) => m,
        None => {
            return Err(Error::Overflow);
        },
    };
    proof {
        lemma_tax_bounds(*t, market_amount as int);
        lemma_tax_bounds(*t, deduct_of(*t, market_amount as int));
    }
    let once = deduct_tax(t, market_amount);
    let user_amount = deduct_tax(t, once);
    let mut messages: Vec<Msg> = Vec::new();
    messages.push(Msg::MarketRedeem {
        market: cfg.moneymarket.dup(),
        atoken: cfg.atoken.dup(),
        amount: market_amount,
    });
    messages.push(Msg::BankSend {
        from: cfg.this.dup(),
        to: sender.dup(),
        coin: Coin { denom: dup_bytes(&cfg.stable_denom), amount: user_amount },
    });
    let mut logs: Vec<LogEntry> = Vec::new();
    logs.push(LogEntry::Action(ActionTag::ClaimReward));
    logs.push(LogEntry::Operator(sender.dup()));
    logs.push(LogEntry::Amount(user_amount));
    Ok(Response { messages, logs })
}

/// One-time binding of the derivative token, identical in behaviour to the
/// current generation's registration.
pub fn handle_register_dp_token(cfg: &mut Config, sender: &Addr) -> (r: Result<Response, Error>)
    requires
        sender@.len() > 0,
    ensures
        register_outcome(*old(cfg), *final(cfg), *sender, r),
{
    crate::handler::register_dp_token(cfg, sender)
}

} // verus!
