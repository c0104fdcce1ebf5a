//! The pool's value-moving handlers: deposit, redeem (via the token
//! callback), harvest, one-time token registration, and owner
//! reconfiguration.
//!
//! Each handler takes the configuration record and the chain state the host
//! read for this call (exchange rates, balances, tax parameters) as plain
//! values, and returns the ordered message list the host executes
//! atomically.  The `*_outcome` spec functions state each handler's result
//! exactly, error cases included.

use vstd::prelude::*;

use crate::config::Config;
use crate::math::{checked_div_rate, checked_mul_rate, div_rate_of, mul_rate_of, Rate};
use crate::pool_msg::Cw20HookMsg;
use crate::tax::{compute_tax, deduct_of, deduct_tax, lemma_tax_bounds, tax_of, TaxInfo};
use crate::types::{addr_eq, bytes_eq, dup_bytes, ActionTag, Addr, Coin, Error, LogEntry, Msg,
    Response};

verus! {

/// Amount of the first attached coin whose denomination is `denom`, or zero
/// when none matches.
pub open spec fn received_of(funds: Seq<Coin>, denom: Seq<u8>) -> int
    decreases funds.len(),
{
    if funds.len() == 0 {
        0
    } else if funds[0].denom@ == denom {
        funds[0].amount as int
    } else {
        received_of(funds.subrange(1, funds.len() as int), denom)
    }
}

/// The response of a successful deposit of `net` (the received amount less
/// one tax): notify the rate feeder, forward `net` into the money market,
/// and mint `net` derivative tokens to the sender.
pub open spec fn deposit_response_matches(
    cfg: Config,
    sender: Addr,
    net: int,
    resp: Response,
) -> bool {
    &&& resp.messages@.len() == 3
    &&& resp.messages@[0] matches Msg::FeederUpdate { feeder, token } && feeder@
        == cfg.exchange_rate_feeder@ && token@ == cfg.dp_token@
    &&& resp.messages@[1] matches Msg::MarketDeposit { market, coin } && market@
        == cfg.moneymarket@ && coin.denom@ == cfg.stable_denom@ && coin.amount == net
    &&& resp.messages@[2] matches Msg::Mint { token, recipient, amount } && token@
        == cfg.dp_token@ && recipient@ == sender@ && amount == net
    &&& resp.logs@.len() == 3
    &&& resp.logs@[0] matches LogEntry::Action(a) && a == ActionTag::Deposit
    &&& resp.logs@[1] matches LogEntry::Sender(s) && s@ == sender@
    &&& resp.logs@[2] matches LogEntry::Amount(m) && m == net
}

/// Exact result of a deposit call: until the derivative token is
/// registered every value-moving call fails; a zero or missing
/// settlement-denomination amount is an invalid deposit; more than one
/// attached denomination is an unsupported asset; otherwise the call
/// succeeds with the net amount.
pub open spec fn deposit_outcome(
    cfg: Config,
    sender: Addr,
    funds: Seq<Coin>,
    t: TaxInfo,
    r: Result<Response, Error>,
) -> bool {
    let recv = received_of(funds, cfg.stable_denom@);
    if register_allowed(cfg.dp_token@) {
        r == Err::<Response, Error>(Error::Unauthorized)
    } else if recv == 0 {
        r == Err::<Response, Error>(Error::InsufficientDeposit)
    } else if funds.len() > 1 {
        r == Err::<Response, Error>(Error::UnsupportedAsset)
    } else {
        &&& r is Ok
        &&& deposit_response_matches(cfg, sender, deduct_of(t, recv), r->Ok_0)
    }
}

/// Accept the attached stable funds: net out one tax, forward the net amount
/// into the money market, and mint derivative tokens one to one with it.
/// Fails until the derivative token is registered.
pub fn deposit(cfg: &Config, sender: &Addr, funds: &Vec<Coin>, t: &TaxInfo) -> (r: Result<
    Response,
    Error,
>)
    ensures
        deposit_outcome(*cfg, *sender, funds@, *t, r),
{
    if cfg.dp_token.is_unset() {
        return Err(Error::Unauthorized);
    }
    let ghost denom = cfg.stable_denom@;
    let mut i: usize = 0;
    let mut received: u64 = 0;
    let mut matched: bool = false;
    proof {
        assert(funds@.skip(0) =~= funds@);
    }
    while i < funds.len() && !matched
        invariant
            0 <= i <= funds@.len(),
            !matched ==> received == 0 && received_of(funds@, denom) == received_of(
                funds@.skip(i as int),
                denom,
            ),
            matched ==> received == received_of(funds@, denom),
            denom == cfg.stable_denom@,
        decreases funds@.len() - i, (if matched { 0int } else { 1int }),
    {
        proof {
            let s = funds@.skip(i as int);
            assert(s[0] == funds@[i as int]);
            assert(s.subrange(1, s.len() as int) =~= funds@.skip(i as int + 1));
        }
        if bytes_eq(&funds[i].denom, &cfg.stable_denom) {
            received = funds[i].amount;
            matched = true;
        } else {
            i = i + 1;
        }
    }
    proof {
        if !matched {
            assert(funds@.skip(funds@.len() as int) =~= Seq::<Coin>::empty());
        }
    }
    if received == 0 {
        return Err(Error::InsufficientDeposit);
    }
    if funds.len() > 1 {
        return Err(Error::UnsupportedAsset);
    }
    let net = deduct_tax(t, received);
    let mut messages: Vec<Msg> = Vec::new();
    messages.push(Msg::FeederUpdate {
        feeder: cfg.exchange_rate_feeder.dup(),
        token: cfg.dp_token.dup(),
    });
    messages.push(Msg::MarketDeposit {
        market: cfg.moneymarket.dup(),
        coin: Coin { denom: dup_bytes(&cfg.stable_denom), amount: net },
    });
    messages.push(Msg::Mint { token: cfg.dp_token.dup(), recipient: sender.dup(), amount: net });
    let mut logs: Vec<LogEntry> = Vec::new();
    logs.push(LogEntry::Action(ActionTag::Deposit));
    logs.push(LogEntry::Sender(sender.dup()));
    logs.push(LogEntry::Amount(net));
    Ok(Response { messages, logs })
}

/// The response of a successful redemption: notify the rate feeder, burn the
/// sent derivative amount, redeem `market_amount` yield-bearing tokens from
/// the market, and pay the redeeming user the twice-taxed value.
pub open spec fn redeem_response_matches(
    cfg: Config,
    caller: Addr,
    user: Addr,
    amount: u64,
    market_amount: int,
    user_amount: int,
    resp: Response,
) -> bool {
    &&& resp.messages@.len() == 4
    &&& resp.messages@[0] matches Msg::FeederUpdate { feeder, token } && feeder@
        == cfg.exchange_rate_feeder@ && token@ == cfg.dp_token@
    &&& resp.messages@[1] matches Msg::Burn { token, amount: burned } && token@ == cfg.dp_token@
        && burned == amount
    &&& resp.messages@[2] matches Msg::MarketRedeem { market, atoken, amount: m } && market@
        == cfg.moneymarket@ && atoken@ == cfg.atoken@ && m == market_amount
    &&& resp.messages@[3] matches Msg::BankSend { from, to, coin } && from@ == cfg.this@ && to@
        == user@ && coin.denom@ == cfg.stable_denom@ && coin.amount == user_amount
    &&& resp.logs@.len() == 3
    &&& resp.logs@[0] matches LogEntry::Action(a) && a == ActionTag::Redeem
    &&& resp.logs@[1] matches LogEntry::Sender(s) && s@ == caller@
    &&& resp.logs@[2] matches LogEntry::Amount(m) && m == user_amount
}

/// Exact result of a redemption: the derivative amount is converted into
/// yield-bearing-token units by flooring division through the real exchange
/// rate, and the user is paid that stable value after two sequential tax
/// deductions — one per monetary transfer hop, deliberately not collapsed
/// into a single compounded deduction.
pub open spec fn redeem_outcome(
    cfg: Config,
    caller: Addr,
    user: Addr,
    amount: u64,
    rate: Rate,
    t: TaxInfo,
    r: Result<Response, Error>,
) -> bool {
    let market_amount = div_rate_of(amount as int, rate.num as int);
    if market_amount > u64::MAX {
        r == Err::<Response, Error>(Error::Overflow)
    } else {
        let user_amount = deduct_of(t, deduct_of(t, market_amount));
        &&& r is Ok
        &&& redeem_response_matches(cfg, caller, user, amount, market_amount, user_amount, r->Ok_0)
    }
}

/// Redeem `amount` derivative tokens for the user `user`; `caller` is the
/// transaction sender (the derivative token contract, already checked by
/// [`receive`]).
pub fn redeem(
    cfg: &Config,
    caller: &Addr,
    user: &Addr,
    amount: u64,
    rate: Rate,
    t: &TaxInfo,
) -> (r: Result<Response, Error>)
    requires
        rate.num > 0,
    ensures
        redeem_outcome(*cfg, *caller, *user, amount, rate, *t, r),
{
    let market_amount = match checked_div_rate(amount, rate) {
        Some(m) => m,
        None => {
            return Err(Error::Overflow);
        },
    };
    proof {
        lemma_tax_bounds(*t, market_amount as int);
        lemma_tax_bounds(*t, deduct_of(*t, market_amount as int));
    }
    let once = deduct_tax(t, market_amount);
    let user_amount = deduct_tax(t, once);
    let mut messages: Vec<Msg> = Vec::new();
    messages.push(Msg::FeederUpdate {
        feeder: cfg.exchange_rate_feeder.dup(),
        token: cfg.dp_token.dup(),
    });
    messages.push(Msg::Burn { token: cfg.dp_token.dup(), amount });
    messages.push(Msg::MarketRedeem {
        market: cfg.moneymarket.dup(),
        atoken: cfg.atoken.dup(),
        amount: market_amount,
    });
    messages.push(Msg::BankSend {
        from: cfg.this.dup(),
        to: user.dup(),
        coin: Coin { denom: dup_bytes(&cfg.stable_denom), amount: user_amount },
    });
    let mut logs: Vec<LogEntry> = Vec::new();
    logs.push(LogEntry::Action(ActionTag::Redeem));
    logs.push(LogEntry::Sender(caller.dup()));
    logs.push(LogEntry::Amount(user_amount));
    Ok(Response { messages, logs })
}

/// Exact result of the token callback: a missing or undecodable payload is
/// an invalid request; until the derivative token is registered, and for
/// any caller other than the registered token, a redeem payload is
/// unauthorized; otherwise the call redeems.
pub open spec fn receive_outcome(
    cfg: Config,
    caller: Addr,
    user: Addr,
    amount: u64,
    msg: Option<Cw20HookMsg>,
    rate: Rate,
    t: TaxInfo,
    r: Result<Response, Error>,
) -> bool {
    match msg {
        Option::None => r == Err::<Response, Error>(Error::InvalidRequest),
        Option::Some(Cw20HookMsg::Redeem {}) => if register_allowed(cfg.dp_token@) || caller@
            != cfg.dp_token@ {
            r == Err::<Response, Error>(Error::Unauthorized)
        } else {
            redeem_outcome(cfg, caller, user, amount, rate, t, r)
        },
    }
}

/// Entry point of the derivative token's "send with payload" callback: only
/// the registered token itself may trigger a redemption, and never before
/// registration has bound it.
pub fn receive(
    cfg: &Config,
    caller: &Addr,
    user: &Addr,
    amount: u64,
    msg: &Option<Cw20HookMsg>,
    rate: Rate,
    t: &TaxInfo,
) -> (r: Result<Response, Error>)
    requires
        (*msg) is Some && !register_allowed(cfg.dp_token@) && caller@ == cfg.dp_token@
            ==> rate.num > 0,
    ensures
        receive_outcome(*cfg, *caller, *user, amount, *msg, rate, *t, r),
{
    match msg {
        Option::None => Err(Error::InvalidRequest),
        Option::Some(Cw20HookMsg::Redeem {}) => {
            if cfg.dp_token.is_unset() || !addr_eq(caller, &cfg.dp_token) {
                return Err(Error::Unauthorized);
            }
            redeem(cfg, caller, user, amount, rate, t)
        },
    }
}

/// The pool's stable value at the rate with numerator `num`: the yield-token
/// balance scaled by the rate, less one tax.
pub open spec fn pool_value_of(t: TaxInfo, balance: int, num: int) -> int {
    deduct_of(t, mul_rate_of(balance, num))
}

/// Realized yield over principal at the real rate.
pub open spec fn earnable_of(t: TaxInfo, balance: int, real_num: int, supply: int) -> int {
    pool_value_of(t, balance, real_num) - supply
}

/// The spread the virtual rate failed to capture: the protocol's cut.
pub open spec fn fee_of(t: TaxInfo, balance: int, real_num: int, virt_num: int) -> int {
    pool_value_of(t, balance, real_num) - pool_value_of(t, balance, virt_num)
}

/// The response of a successful harvest: notify the rate feeder, redeem the
/// earnable amount (expressed back in yield-token units) from the market,
/// pay the beneficiary the earnable amount less the fee, and pay the fee
/// collector the fee.
pub open spec fn earn_response_matches(
    cfg: Config,
    sender: Addr,
    earnable: int,
    fee: int,
    market_amount: int,
    resp: Response,
) -> bool {
    &&& resp.messages@.len() == 4
    &&& resp.messages@[0] matches Msg::FeederUpdate { feeder, token } && feeder@
        == cfg.exchange_rate_feeder@ && token@ == cfg.dp_token@
    &&& resp.messages@[1] matches Msg::MarketRedeem { market, atoken, amount } && market@
        == cfg.moneymarket@ && atoken@ == cfg.atoken@ && amount == market_amount
    &&& resp.messages@[2] matches Msg::BankSend { from, to, coin } && from@ == cfg.this@ && to@
        == cfg.beneficiary@ && coin.denom@ == cfg.stable_denom@ && coin.amount == earnable - fee
    &&& resp.messages@[3] matches Msg::BankSend { from, to, coin } && from@ == cfg.this@ && to@
        == cfg.fee_collector@ && coin.denom@ == cfg.stable_denom@ && coin.amount == fee
    &&& resp.logs@.len() == 4
    &&& resp.logs@[0] matches LogEntry::Action(a) && a == ActionTag::ClaimReward
    &&& resp.logs@[1] matches LogEntry::Sender(s) && s@ == sender@
    &&& resp.logs@[2] matches LogEntry::Amount(m) && m == earnable - fee
    &&& resp.logs@[3] matches LogEntry::Fee(f) && f == fee
}

/// Exact result of a harvest.  Until the derivative token is registered
/// every value-moving call fails, and only the beneficiary may call.  A
/// pool value below the derivative supply, a virtual value above the
/// real-rate value, or a fee above the earnable amount would make a payout
/// negative: the call then fails with an underflow error rather than wrap
/// or silently clamp — the two rates evolve independently and the spread
/// may legitimately invert.
pub open spec fn earn_outcome(
    cfg: Config,
    sender: Addr,
    real_rate: Rate,
    virt_rate: Rate,
    balance: u64,
    supply: u64,
    t: TaxInfo,
    r: Result<Response, Error>,
) -> bool {
    if register_allowed(cfg.dp_token@) {
        r == Err::<Response, Error>(Error::Unauthorized)
    } else if sender@ != cfg.beneficiary@ {
        r == Err::<Response, Error>(Error::Unauthorized)
    } else if mul_rate_of(balance as int, real_rate.num as int) > u64::MAX {
        r == Err::<Response, Error>(Error::Overflow)
    } else if mul_rate_of(balance as int, virt_rate.num as int) > u64::MAX {
        r == Err::<Response, Error>(Error::Overflow)
    } else {
        let pool_value = pool_value_of(t, balance as int, real_rate.num as int);
        let virtual_value = pool_value_of(t, balance as int, virt_rate.num as int);
        let earnable = pool_value - supply;
        let fee = pool_value - virtual_value;
        if earnable < 0 {
            r == Err::<Response, Error>(Error::Underflow)
        } else if fee < 0 {
            r == Err::<Response, Error>(Error::Underflow)
        } else if earnable < fee {
            r == Err::<Response, Error>(Error::Underflow)
        } else if mul_rate_of(earnable, real_rate.num as int) > u64::MAX {
            r == Err::<Response, Error>(Error::Overflow)
        } else {
            &&& r is Ok
            &&& earn_response_matches(
                cfg,
                sender,
                earnable,
                fee,
                mul_rate_of(earnable, real_rate.num as int),
                r->Ok_0,
            )
        }
    }
}

/// Harvest the spread between the pool's value at the real rate and at the
/// virtual rate; beneficiary only, and only once the derivative token is
/// registered.
pub fn earn(
    cfg: &Config,
    sender: &Addr,
    real_rate: Rate,
    virt_rate: Rate,
    balance: u64,
    supply: u64,
    t: &TaxInfo,
) -> (r: Result<Response, Error>)
    ensures
        earn_outcome(*cfg, *sender, real_rate, virt_rate, balance, supply, *t, r),
{
    if cfg.dp_token.is_unset() {
        return Err(Error::Unauthorized);
    }
    if !addr_eq(sender, &cfg.beneficiary) {
        return Err(Error::Unauthorized);
    }
    let pool_value_raw = match checked_mul_rate(balance, real_rate) {
        Some(v) => v,
        None => {
            return Err(Error::Overflow);
        },
    };
    let virtual_value_raw = match checked_mul_rate(balance, virt_rate) {
        Some(v) => v,
        None => {
            return Err(Error::Overflow);
        },
    };
    let pool_value = deduct_tax(t, pool_value_raw);
    let virtual_value = deduct_tax(t, virtual_value_raw);
    if pool_value < supply {
        return Err(Error::Underflow);
    }
    let earnable = pool_value - supply;
    if pool_value < virtual_value {
        return Err(Error::Underflow);
    }
    let fee = pool_value - virtual_value;
    if earnable < fee {
        return Err(Error::Underflow);
    }
    let market_amount = match checked_mul_rate(earnable, real_rate) {
        Some(v) => v,
        None => {
            return Err(Error::Overflow);
        },
    };
    let mut messages: Vec<Msg> = Vec::new();
    messages.push(Msg::FeederUpdate {
        feeder: cfg.exchange_rate_feeder.dup(),
        token: cfg.dp_token.dup(),
    });
    messages.push(Msg::MarketRedeem {
        market: cfg.moneymarket.dup(),
        atoken: cfg.atoken.dup(),
        amount: market_amount,
    });
    messages.push(Msg::BankSend {
        from: cfg.this.dup(),
        to: cfg.beneficiary.dup(),
        coin: Coin { denom: dup_bytes(&cfg.stable_denom), amount: earnable - fee },
    });
    messages.push(Msg::BankSend {
        from: cfg.this.dup(),
        to: cfg.fee_collector.dup(),
        coin: Coin { denom: dup_bytes(&cfg.stable_denom), amount: fee },
    });
    let mut logs: Vec<LogEntry> = Vec::new();
    logs.push(LogEntry::Action(ActionTag::ClaimReward));
    logs.push(LogEntry::Sender(sender.dup()));
    logs.push(LogEntry::Amount(earnable - fee));
    logs.push(LogEntry::Fee(fee));
    Ok(Response { messages, logs })
}

/// Whether registration is still open: the derivative token is unset.
pub open spec fn register_allowed(dp_token: Seq<u8>) -> bool {
    dp_token.len() == 0
}

/// Exact result of a registration call on the configuration `prev`, leaving
/// the configuration `next`: while the token is unset the caller is bound,
/// afterwards every call fails and changes nothing; no other field is ever
/// touched.
pub open spec fn register_outcome(
    prev: Config,
    next: Config,
    sender: Addr,
    r: Result<Response, Error>,
) -> bool {
    &&& register_allowed(prev.dp_token@) ==> {
        &&& r is Ok
        &&& next.dp_token@ == sender@
        &&& r->Ok_0.messages@.len() == 0
        &&& r->Ok_0.logs@.len() == 1
        &&& r->Ok_0.logs@[0] matches LogEntry::DpToken(a) && a@ == sender@
    }
    &&& !register_allowed(prev.dp_token@) ==> {
        &&& r == Err::<Response, Error>(Error::Unauthorized)
        &&& next.dp_token@ == prev.dp_token@
    }
    &&& next.this@ == prev.this@
    &&& next.owner@ == prev.owner@
    &&& next.beneficiary@ == prev.beneficiary@
    &&& next.fee_collector@ == prev.fee_collector@
    &&& next.exchange_rate_feeder@ == prev.exchange_rate_feeder@
    &&& next.moneymarket@ == prev.moneymarket@
    &&& next.stable_denom@ == prev.stable_denom@
    &&& next.atoken@ == prev.atoken@
}

/// Bind the caller as the pool's derivative token.  Callable by anyone, but
/// only ever succeeds once: while the token is unset the caller is bound;
/// afterwards every call fails and leaves the configuration untouched.
pub fn register_dp_token(cfg: &mut Config, sender: &Addr) -> (r: Result<Response, Error>)
    requires
        sender@.len() > 0,
    ensures
        register_outcome(*old(cfg), *final(cfg), *sender, r),
{
    if !cfg.dp_token.is_unset() {
        return Err(Error::Unauthorized);
    }
    cfg.dp_token = sender.dup();
    let mut logs: Vec<LogEntry> = Vec::new();
    logs.push(LogEntry::DpToken(sender.dup()));
    Ok(Response { messages: Vec::new(), logs })
}

/// Exact result of a reconfiguration call on the configuration `prev`,
/// leaving the configuration `next`: only the owner may replace the
/// beneficiary and/or the fee collector; no other field is ever touched.
pub open spec fn configure_outcome(
    prev: Config,
    next: Config,
    sender: Addr,
    beneficiary: Option<Addr>,
    fee_collector: Option<Addr>,
    r: Result<Response, Error>,
) -> bool {
    &&& sender@ != prev.owner@ ==> {
        &&& r == Err::<Response, Error>(Error::Unauthorized)
        &&& next.beneficiary@ == prev.beneficiary@
        &&& next.fee_collector@ == prev.fee_collector@
    }
    &&& sender@ == prev.owner@ ==> {
        &&& r is Ok
        &&& next.beneficiary@ == (match beneficiary {
            Option::Some(b) => b@,
            Option::None => prev.beneficiary@,
        })
        &&& next.fee_collector@ == (match fee_collector {
            Option::Some(f) => f@,
            Option::None => prev.fee_collector@,
        })
        &&& r->Ok_0.messages@.len() == 0
        &&& r->Ok_0.logs@.len() == 1
        &&& r->Ok_0.logs@[0] matches LogEntry::Action(a) && a == ActionTag::Configure
    }
    &&& next.this@ == prev.this@
    &&& next.owner@ == prev.owner@
    &&& next.exchange_rate_feeder@ == prev.exchange_rate_feeder@
    &&& next.moneymarket@ == prev.moneymarket@
    &&& next.stable_denom@ == prev.stable_denom@
    &&& next.atoken@ == prev.atoken@
    &&& next.dp_token@ == prev.dp_token@
}

/// Owner-gated reconfiguration: replace the beneficiary and/or the fee
/// collector; every other field is untouched.
pub fn configure(
    cfg: &mut Config,
    sender: &Addr,
    beneficiary: &Option<Addr>,
    fee_collector: &Option<Addr>,
) -> (r: Result<Response, Error>)
    ensures
        configure_outcome(*old(cfg), *final(cfg), *sender, *beneficiary, *fee_collector, r),
{
    if !addr_eq(sender, &cfg.owner) {
        return Err(Error::Unauthorized);
    }
    match beneficiary {
        Option::Some(b) => {
            cfg.beneficiary = b.dup();
        },
        Option::None => {},
    }
    match fee_collector {
        Option::Some(f) => {
            cfg.fee_collector = f.dup();
        },
        Option::None => {},
    }
    let mut logs: Vec<LogEntry> = Vec::new();
    logs.push(LogEntry::Action(ActionTag::Configure));
    Ok(Response { messages: Vec::new(), logs })
}

/// Law: deposit conservation.  For every deposit amount, the minted
/// derivative amount — the received amount after one tax deduction — and the
/// declared tax together are exactly the received amount: no stable value is
/// created or destroyed beyond the tax.
pub proof fn lemma_deposit_conservation(t: TaxInfo, amount: u64)
    ensures
        deduct_of(t, amount as int) + tax_of(t, amount as int) == amount as int,
        0 <= deduct_of(t, amount as int) <= amount,
        0 <= tax_of(t, amount as int) <= amount,
{
    lemma_tax_bounds(t, amount as int);
}

/// Law: redemption applies exactly two sequential tax deductions to the
/// stable value obtained by flooring division through the real rate — never
/// a single collapsed deduction.  Whenever the conversion fits, the call
/// succeeds and the user's payout is the twice-deducted amount.
pub proof fn lemma_redeem_double_tax(
    cfg: Config,
    caller: Addr,
    user: Addr,
    amount: u64,
    rate: Rate,
    t: TaxInfo,
    r: Result<Response, Error>,
)
    requires
        rate.num > 0,
        div_rate_of(amount as int, rate.num as int) <= u64::MAX,
        redeem_outcome(cfg, caller, user, amount, rate, t, r),
    ensures
        r is Ok,
        r->Ok_0.messages@[3] matches Msg::BankSend { coin, .. } && coin.amount == deduct_of(
            t,
            deduct_of(t, div_rate_of(amount as int, rate.num as int)),
        ),
{
}

/// Law: registration binds exactly once.  On a fresh pool the first
/// registration call succeeds and binds its caller; every call after it —
/// from the same or any other caller — fails with an authorization error
/// and leaves the binding as the first call made it.
pub proof fn lemma_register_exactly_once(
    fresh: Config,
    registered: Config,
    later: Config,
    first_caller: Addr,
    second_caller: Addr,
    r1: Result<Response, Error>,
    r2: Result<Response, Error>,
)
    requires
        register_allowed(fresh.dp_token@),
        first_caller@.len() > 0,
        register_outcome(fresh, registered, first_caller, r1),
        register_outcome(registered, later, second_caller, r2),
    ensures
        r1 is Ok,
        registered.dp_token@ == first_caller@,
        r2 == Err::<Response, Error>(Error::Unauthorized),
        later.dp_token@ == first_caller@,
{
}

/// Law: the harvest's two payouts split the earnable amount exactly.  In
/// every successful harvest the beneficiary's and the fee collector's
/// payments sum to the realized yield over principal, with nothing lost or
/// created, and the fee collector's payment is exactly the rate spread.
pub proof fn lemma_earn_payout_split(
    cfg: Config,
    sender: Addr,
    real_rate: Rate,
    virt_rate: Rate,
    balance: u64,
    supply: u64,
    t: TaxInfo,
    r: Result<Response, Error>,
)
    requires
        earn_outcome(cfg, sender, real_rate, virt_rate, balance, supply, t, r),
        r is Ok,
    ensures
        r->Ok_0.messages@[2] matches Msg::BankSend { coin: to_beneficiary, .. }
            && (r->Ok_0.messages@[3] matches Msg::BankSend { coin: to_collector, .. }
            && to_beneficiary.amount + to_collector.amount == earnable_of(
            t,
            balance as int,
            real_rate.num as int,
            supply as int,
        ) && to_collector.amount == fee_of(
            t,
            balance as int,
            real_rate.num as int,
            virt_rate.num as int,
        )),
{
}

} // verus!
