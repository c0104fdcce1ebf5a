use pylon_pool::config::Config;
use pylon_pool::contract::{handle, init, migrate, query, MarketConfig, QueryAnswer, StateSnapshot};
use pylon_pool::math::Rate;
use pylon_pool::pool_msg::{Cw20HookMsg, Cw20ReceiveMsg, HandleMsg, InitMsg, MigrateMsg, QueryMsg};
use pylon_pool::tax::TaxInfo;
use pylon_pool::types::{Addr, Coin, Error, Msg};

fn addr(s: &str) -> Addr {
    Addr::from_bytes(s.as_bytes().to_vec())
}

fn coin(denom: &str, amount: u64) -> Coin {
    Coin { denom: denom.as_bytes().to_vec(), amount }
}

fn snapshot() -> StateSnapshot {
    StateSnapshot {
        exchange_rate: Rate::one(),
        virtual_rate: Rate::one(),
        atoken_balance: 0,
        dp_total_supply: 0,
        tax: TaxInfo { rate: Rate::zero(), cap: 0 },
    }
}

fn fresh_pool() -> Config {
    let msg = InitMsg {
        pool_name: "Luna".as_bytes().to_vec(),
        beneficiary: addr("beneficiary"),
        fee_collector: addr("collector"),
        exchange_rate_feeder: addr("feeder"),
        moneymarket: addr("market"),
        dp_code_id: 42,
    };
    let market = MarketConfig {
        stable_denom: "uusd".as_bytes().to_vec(),
        aterra_contract: addr("atoken"),
    };
    let (cfg, _) = init(&msg, &addr("owner"), &addr("pool"), &market);
    cfg
}

#[test]
fn init_derives_the_settlement_assets_from_the_market() {
    let msg = InitMsg {
        pool_name: "Luna".as_bytes().to_vec(),
        beneficiary: addr("beneficiary"),
        fee_collector: addr("collector"),
        exchange_rate_feeder: addr("feeder"),
        moneymarket: addr("market"),
        dp_code_id: 42,
    };
    let market = MarketConfig {
        stable_denom: "uusd".as_bytes().to_vec(),
        aterra_contract: addr("atoken"),
    };
    let (cfg, resp) = init(&msg, &addr("owner"), &addr("pool"), &market);
    assert_eq!(cfg.stable_denom, "uusd".as_bytes());
    assert_eq!(cfg.atoken.bytes, "atoken".as_bytes());
    assert!(cfg.dp_token.bytes.is_empty());
    assert_eq!(resp.messages.len(), 1);
    match &resp.messages[0] {
        Msg::Instantiate { code_id, pool_name, minter, init_hook } => {
            assert_eq!(*code_id, 42);
            assert_eq!(pool_name, "Luna".as_bytes());
            assert_eq!(minter.bytes, "pool".as_bytes());
            assert_eq!(init_hook.bytes, "pool".as_bytes());
        }
        _ => panic!("expected the token instantiation"),
    }
}

#[test]
fn handle_runs_registration_then_deposit() {
    let mut cfg = fresh_pool();
    let no_funds: Vec<Coin> = vec![];
    let q = snapshot();
    let reg = handle(&mut cfg, &addr("dp"), &no_funds, &HandleMsg::RegisterDPToken {}, &q);
    assert!(reg.is_ok());
    assert_eq!(cfg.dp_token.bytes, "dp".as_bytes());

    let funds = vec![coin("uusd", 1_000)];
    let dep = handle(&mut cfg, &addr("alice"), &funds, &HandleMsg::Deposit {}, &q).unwrap();
    assert_eq!(dep.messages.len(), 3);
    match &dep.messages[2] {
        Msg::Mint { recipient, amount, .. } => {
            assert_eq!(recipient.bytes, "alice".as_bytes());
            assert_eq!(*amount, 1_000); // no tax configured
        }
        _ => panic!("expected a mint"),
    }
}

#[test]
fn handle_dispatches_the_receive_callback() {
    let mut cfg = fresh_pool();
    cfg.dp_token = addr("dp");
    let no_funds: Vec<Coin> = vec![];
    let msg = HandleMsg::Receive(Cw20ReceiveMsg {
        sender: addr("alice"),
        amount: 500,
        msg: Some(Cw20HookMsg::Redeem {}),
    });
    let r = handle(&mut cfg, &addr("dp"), &no_funds, &msg, &snapshot()).unwrap();
    assert_eq!(r.messages.len(), 4);
    match &r.messages[3] {
        Msg::BankSend { to, coin, .. } => {
            assert_eq!(to.bytes, "alice".as_bytes());
            assert_eq!(coin.amount, 500);
        }
        _ => panic!("expected the user payout"),
    }
}

#[test]
fn handle_configure_is_owner_gated() {
    let mut cfg = fresh_pool();
    let no_funds: Vec<Coin> = vec![];
    let q = snapshot();
    let msg = HandleMsg::Configure {
        beneficiary: Some(addr("beneficiary2")),
        fee_collector: None,
    };
    let denied = handle(&mut cfg, &addr("mallory"), &no_funds, &msg, &q);
    assert_eq!(denied.unwrap_err(), Error::Unauthorized);
    assert_eq!(cfg.beneficiary.bytes, "beneficiary".as_bytes());
    let granted = handle(&mut cfg, &addr("owner"), &no_funds, &msg, &q);
    assert!(granted.is_ok());
    assert_eq!(cfg.beneficiary.bytes, "beneficiary2".as_bytes());
    assert_eq!(cfg.fee_collector.bytes, "collector".as_bytes());
}

#[test]
fn query_answers_each_variant() {
    let cfg = fresh_pool();
    let mut q = snapshot();
    q.exchange_rate = Rate::from_num(1_100_000_000_000_000_000);
    q.atoken_balance = 1_000;
    q.dp_total_supply = 1_000;

    let owner_balance = 77;
    let dep = query(&cfg, &QueryMsg::DepositAmountOf { owner: addr("alice") }, &q, owner_balance);
    assert!(matches!(dep.unwrap(), QueryAnswer::DepositAmount { amount: 77 }));

    let total = query(&cfg, &QueryMsg::TotalDepositAmount {}, &q, 0);
    assert!(matches!(total.unwrap(), QueryAnswer::TotalDepositAmount { amount: 1_000 }));

    match query(&cfg, &QueryMsg::Config {}, &q, 0).unwrap() {
        QueryAnswer::ConfigInfo { config } => {
            assert_eq!(config.owner.bytes, cfg.owner.bytes);
            assert_eq!(config.stable_denom, cfg.stable_denom);
        }
        _ => panic!("expected the configuration"),
    }

    // pool value 1100 against a supply of 1000: 100 claimable
    let claim = query(&cfg, &QueryMsg::ClaimableReward {}, &q, 0);
    assert!(matches!(claim.unwrap(), QueryAnswer::ClaimableReward { amount: 100 }));
}

#[test]
fn claimable_reward_clamps_at_zero() {
    let cfg = fresh_pool();
    let mut q = snapshot();
    // pool value 900 against a supply of 1000: nothing is claimable
    q.exchange_rate = Rate::from_num(900_000_000_000_000_000);
    q.atoken_balance = 1_000;
    q.dp_total_supply = 1_000;
    let claim = query(&cfg, &QueryMsg::ClaimableReward {}, &q, 0);
    assert!(matches!(claim.unwrap(), QueryAnswer::ClaimableReward { amount: 0 }));
}

#[test]
fn migrate_changes_nothing() {
    let r = migrate(&MigrateMsg {});
    assert!(r.messages.is_empty());
    assert!(r.logs.is_empty());
}
