use pylon_pool::config::Config;
use pylon_pool::handler_exec::{
    handle_claim_reward, handle_deposit, handle_receive, handle_redeem, handle_register_dp_token,
};
use pylon_pool::math::Rate;
use pylon_pool::pool_msg::Cw20HookMsg;
use pylon_pool::swap_migrate::{refund, Config as SwapConfig, VPool};
use pylon_pool::tax::TaxInfo;
use pylon_pool::types::{Addr, Coin, Error, Msg};

fn addr(s: &str) -> Addr {
    Addr::from_bytes(s.as_bytes().to_vec())
}

fn coin(denom: &str, amount: u64) -> Coin {
    Coin { denom: denom.as_bytes().to_vec(), amount }
}

fn pool_config() -> Config {
    Config {
        this: addr("pool"),
        owner: addr("owner"),
        beneficiary: addr("beneficiary"),
        fee_collector: addr("collector"),
        exchange_rate_feeder: addr("feeder"),
        moneymarket: addr("market"),
        stable_denom: "uusd".as_bytes().to_vec(),
        atoken: addr("atoken"),
        dp_token: addr("dp"),
    }
}

fn no_tax() -> TaxInfo {
    TaxInfo { rate: Rate::zero(), cap: 0 }
}

#[test]
fn early_deposit_nets_tax_and_notifies_the_feeder() {
    let cfg = pool_config();
    let t = TaxInfo { rate: Rate::percent(1), cap: 1_000_000 };
    let funds = vec![coin("uusd", 1_000_000)];
    let r = handle_deposit(&cfg, &addr("alice"), &funds, &t).unwrap();
    // tax on 1_000_000 at 1% is 9_900, so the net amount is 990_100
    assert_eq!(r.messages.len(), 3);
    assert!(matches!(r.messages[0], Msg::FeederUpdate { .. }));
    match &r.messages[1] {
        Msg::MarketDeposit { coin, .. } => assert_eq!(coin.amount, 990_100),
        _ => panic!("expected a market deposit"),
    }
    match &r.messages[2] {
        Msg::Mint { amount, .. } => assert_eq!(*amount, 990_100),
        _ => panic!("expected a mint"),
    }
    let empty: Vec<Coin> = vec![];
    assert_eq!(handle_deposit(&cfg, &addr("alice"), &empty, &t).unwrap_err(),
        Error::InsufficientDeposit);
    // one of the two coins matches, yet the whole deposit is rejected
    let mixed = vec![coin("uusd", 5_000), coin("ukrw", 7_000)];
    assert_eq!(handle_deposit(&cfg, &addr("alice"), &mixed, &t).unwrap_err(),
        Error::UnsupportedAsset);
}

#[test]
fn early_redeem_still_deducts_twice() {
    let cfg = pool_config();
    let t = TaxInfo { rate: Rate::percent(1), cap: 100 };
    let r = handle_redeem(&cfg, &addr("dp"), &addr("alice"), 50_000_000, Rate::one(), &t).unwrap();
    // the feeder update accompanies the supply-changing burn
    assert_eq!(r.messages.len(), 4);
    assert!(matches!(r.messages[0], Msg::FeederUpdate { .. }));
    assert!(matches!(r.messages[1], Msg::Burn { .. }));
    match &r.messages[3] {
        Msg::BankSend { coin, .. } => assert_eq!(coin.amount, 49_999_800),
        _ => panic!("expected the user payout"),
    }
}

#[test]
fn early_handlers_fail_until_registration() {
    let mut cfg = pool_config();
    cfg.dp_token = Addr::unset();
    let t = TaxInfo { rate: Rate::percent(1), cap: 1_000_000 };
    let funds = vec![coin("uusd", 1_000)];
    assert_eq!(handle_deposit(&cfg, &addr("alice"), &funds, &t).unwrap_err(),
        Error::Unauthorized);
    let payload = Some(Cw20HookMsg::Redeem {});
    let recv = handle_receive(&cfg, &Addr::unset(), &addr("alice"), 100, &payload, Rate::one(),
        &no_tax());
    assert_eq!(recv.unwrap_err(), Error::Unauthorized);
    let claim = handle_claim_reward(&cfg, &addr("beneficiary"), Rate::one(), 1_000, 0, &no_tax());
    assert_eq!(claim.unwrap_err(), Error::Unauthorized);
}

#[test]
fn early_receive_authenticates_the_token() {
    let cfg = pool_config();
    let payload = Some(Cw20HookMsg::Redeem {});
    let r = handle_receive(&cfg, &addr("mallory"), &addr("alice"), 100, &payload, Rate::one(),
        &no_tax());
    assert_eq!(r.unwrap_err(), Error::Unauthorized);
    let none = handle_receive(&cfg, &addr("dp"), &addr("alice"), 100, &None, Rate::one(),
        &no_tax());
    assert_eq!(none.unwrap_err(), Error::InvalidRequest);
}

#[test]
fn early_claim_pays_the_whole_reward() {
    let cfg = pool_config();
    let real = Rate::from_num(1_100_000_000_000_000_000);
    // pool value 1100 over a supply of 1000: reward 100, redeemed at 1.10
    let r = handle_claim_reward(&cfg, &addr("beneficiary"), real, 1_000, 1_000, &no_tax()).unwrap();
    match &r.messages[0] {
        Msg::MarketRedeem { amount, .. } => assert_eq!(*amount, 90), // 100 / 1.10, floored
        _ => panic!("expected a market redemption"),
    }
    match &r.messages[1] {
        Msg::BankSend { to, coin, .. } => {
            assert_eq!(to.bytes, "beneficiary".as_bytes());
            assert_eq!(coin.amount, 90);
        }
        _ => panic!("expected the payout"),
    }
    let denied = handle_claim_reward(&cfg, &addr("mallory"), real, 1_000, 1_000, &no_tax());
    assert_eq!(denied.unwrap_err(), Error::Unauthorized);
}

#[test]
fn early_registration_binds_once() {
    let mut cfg = pool_config();
    cfg.dp_token = Addr::unset();
    assert!(handle_register_dp_token(&mut cfg, &addr("dp")).is_ok());
    assert_eq!(handle_register_dp_token(&mut cfg, &addr("dp")).unwrap_err(), Error::Unauthorized);
}

#[test]
fn swap_refund_carries_the_old_records_over() {
    let cfg = SwapConfig { owner: addr("owner"), base_price: Rate::percent(80) };
    let vpool = VPool { x_denom: "uusd".as_bytes().to_vec(), liq_x: 10, liq_y: 20 };
    let r = refund(&cfg, &vpool);
    assert_eq!(r.manager.bytes, "owner".as_bytes());
    assert_eq!(r.refund_denom, "uusd".as_bytes());
    assert_eq!(r.base_price, Rate::percent(80));
}
