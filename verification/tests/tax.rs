use pylon_pool::math::Rate;
use pylon_pool::tax::{compute_tax, deduct_tax, TaxInfo};

#[test]
fn tax_rate_querier() {
    let rate = Rate::percent(1);
    assert_eq!(rate.num, 10_000_000_000_000_000);
}

#[test]
fn test_compute_tax() {
    let t = TaxInfo { rate: Rate::percent(1), cap: 1_000_000 };

    // cap to 1000000
    assert_eq!(compute_tax(&t, 10_000_000_000), 1_000_000);

    // normal tax
    assert_eq!(compute_tax(&t, 50_000_000), 495_049);
}

#[test]
fn test_deduct_tax() {
    let t = TaxInfo { rate: Rate::percent(1), cap: 1_000_000 };

    // cap to 1000000
    assert_eq!(deduct_tax(&t, 10_000_000_000), 9_999_000_000);

    // normal tax
    assert_eq!(deduct_tax(&t, 50_000_000), 49_504_951);
}

#[test]
fn zero_rate_taxes_nothing() {
    let t = TaxInfo { rate: Rate::zero(), cap: 1_000_000 };
    assert_eq!(compute_tax(&t, 123_456_789), 0);
    assert_eq!(deduct_tax(&t, 123_456_789), 123_456_789);
}

#[test]
fn tax_and_net_conserve_the_amount() {
    let t = TaxInfo { rate: Rate::percent(3), cap: 700 };
    for amount in [0u64, 1, 999, 1_000_000, 10_000_000_000] {
        let tax = compute_tax(&t, amount);
        let net = deduct_tax(&t, amount);
        assert!(tax <= amount);
        assert_eq!(tax + net, amount);
    }
}
