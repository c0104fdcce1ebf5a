use pylon_pool::gateway_config::{
    check_time_range, Config, DepositConfig, DistributionConfig, TimeRange,
};
use pylon_pool::math::Rate;
use pylon_pool::types::{Addr, Error};

fn addr(s: &str) -> Addr {
    Addr::from_bytes(s.as_bytes().to_vec())
}

fn range(start: u64, finish: u64) -> TimeRange {
    TimeRange { start, finish, inverse: false }
}

fn schedule(start: u64, finish: u64, rate: Rate, total: u64) -> DistributionConfig {
    DistributionConfig { time: range(start, finish), reward_rate: rate, total_reward_amount: total }
}

fn gateway_config() -> Config {
    Config {
        owner: addr("owner"),
        share_token: addr("share"),
        deposit_config: DepositConfig { time: range(100, 200), user_cap: 0, total_cap: 0 },
        withdraw_time: vec![range(300, 400), range(500, 600)],
        reward_token: addr("reward"),
        claim_time: range(700, 800),
        distribution_config: schedule(0, 1_000, Rate::one(), 1_000),
    }
}

#[test]
fn time_range_membership() {
    let tr = range(100, 200);
    assert!(!tr.is_in_range(99));
    assert!(tr.is_in_range(100));
    assert!(tr.is_in_range(199));
    assert!(!tr.is_in_range(200));
    let inv = TimeRange { start: 100, finish: 200, inverse: true };
    assert!(inv.is_in_range(99));
    assert!(!inv.is_in_range(150));
    assert!(inv.is_in_range(200));
}

#[test]
fn inverted_ranges_are_rejected() {
    assert!(range(100, 200).validate().is_ok());
    let bad = range(200, 100);
    assert_eq!(bad.validate().unwrap_err(), Error::InvalidTimeRange);
    let dflt = TimeRange::default();
    assert!(dflt.validate().is_ok());
    assert_eq!(DepositConfig::default().user_cap, 0);
}

#[test]
fn distribution_total_must_match_rate_and_period() {
    // a window of 1000 at rate 1.0 distributes exactly 1000
    assert!(schedule(0, 1_000, Rate::one(), 1_000).validate().is_ok());
    let wrong = schedule(0, 1_000, Rate::one(), 999);
    assert_eq!(wrong.validate().unwrap_err(), Error::RewardAmountMismatch);
    // a half rate over the same window distributes 500
    let half = Rate::from_num(500_000_000_000_000_000);
    assert!(schedule(0, 1_000, half, 500).validate().is_ok());
}

#[test]
fn applicable_times_clamp_into_the_window() {
    let d = schedule(100, 200, Rate::one(), 100);
    assert_eq!(d.applicable_finish_time(150), 150);
    assert_eq!(d.applicable_finish_time(250), 200);
    assert_eq!(d.applicable_start_time(50), 100);
    assert_eq!(d.applicable_start_time(150), 150);
    assert_eq!(d.applicable_reward_time(50), 100);
    assert_eq!(d.applicable_reward_time(150), 150);
    assert_eq!(d.applicable_reward_time(250), 200);
}

#[test]
fn config_validation_checks_every_window() {
    assert!(gateway_config().validate().is_ok());
    let mut bad = gateway_config();
    bad.withdraw_time[1] = range(600, 500);
    assert_eq!(bad.validate().unwrap_err(), Error::InvalidTimeRange);
    let mut mismatch = gateway_config();
    mismatch.distribution_config.total_reward_amount = 1;
    assert_eq!(mismatch.validate().unwrap_err(), Error::RewardAmountMismatch);
}

#[test]
fn window_checks_follow_the_block_time() {
    let cfg = gateway_config();
    assert!(cfg.check_deposit_time(150).is_ok());
    assert_eq!(cfg.check_deposit_time(250).unwrap_err(), Error::NotInTimeRange);
    // withdrawing is open in either of the two windows
    assert!(cfg.check_withdraw_time(350).is_ok());
    assert!(cfg.check_withdraw_time(550).is_ok());
    assert_eq!(cfg.check_withdraw_time(450).unwrap_err(), Error::NotInTimeRange);
    assert!(cfg.check_claim_time(750).is_ok());
    assert_eq!(cfg.check_claim_time(650).unwrap_err(), Error::NotInTimeRange);
    assert!(check_time_range(150, &range(100, 200)).is_ok());
}
