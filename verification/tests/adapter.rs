use pylon_pool::adapter::{config, deposit, exchange_rate, redeem, AdapterQuery};
use pylon_pool::types::Addr;

fn addr(s: &str) -> Addr {
    Addr::from_bytes(s.as_bytes().to_vec())
}

#[test]
fn adapter_queries_carry_their_arguments() {
    let market = addr("market");
    assert!(matches!(config(&market), AdapterQuery::Config { contract }
        if contract.bytes == "market".as_bytes()));
    let q = exchange_rate(&market, &"uusd".as_bytes().to_vec());
    assert!(matches!(q, AdapterQuery::ExchangeRate { contract, input_denom }
        if contract.bytes == "market".as_bytes() && input_denom == "uusd".as_bytes()));
    assert!(matches!(deposit(&market, 123), AdapterQuery::Deposit { amount: 123, .. }));
    assert!(matches!(redeem(&market, 456), AdapterQuery::Redeem { amount: 456, .. }));
}
