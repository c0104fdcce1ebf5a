use pylon_pool::staker::{
    compute_locked_balance, stake_voting_tokens, withdraw_voting_tokens, Config, LockedBalance,
    Poll, PollStatus, State, TokenManager,
};
use pylon_pool::types::{ActionTag, Addr, Error, LogEntry, Msg};

fn addr(s: &str) -> Addr {
    Addr::from_bytes(s.as_bytes().to_vec())
}

fn gov_state(total_share: u64, total_deposit: u64) -> State {
    State { contract_addr: addr("gov"), total_share, total_deposit }
}

#[test]
fn stake_one_for_one_while_the_pool_is_empty() {
    let mut state = gov_state(0, 0);
    let mut manager = TokenManager { share: 0, locked_balance: vec![] };
    // the queried balance already includes the incoming 1000
    let r = stake_voting_tokens(&mut state, &mut manager, &addr("alice"), 1_000, 1_000).unwrap();
    assert_eq!(state.total_share, 1_000);
    assert_eq!(manager.share, 1_000);
    assert!(r.messages.is_empty());
    assert!(matches!(&r.logs[0], LogEntry::Action(ActionTag::Staking)));
    assert!(matches!(&r.logs[2], LogEntry::Share(1_000)));
}

#[test]
fn stake_proportionally_against_the_pool() {
    // 1000 shares over a balance of 2000: staking 500 mints 250 shares
    let mut state = gov_state(1_000, 0);
    let mut manager = TokenManager { share: 0, locked_balance: vec![] };
    stake_voting_tokens(&mut state, &mut manager, &addr("bob"), 500, 2_500).unwrap();
    assert_eq!(manager.share, 250);
    assert_eq!(state.total_share, 1_250);
}

#[test]
fn stake_rejects_zero_and_short_balances() {
    let mut state = gov_state(0, 0);
    let mut manager = TokenManager { share: 0, locked_balance: vec![] };
    let zero = stake_voting_tokens(&mut state, &mut manager, &addr("alice"), 0, 1_000);
    assert_eq!(zero.unwrap_err(), Error::InsufficientFunds);
    // the queried balance cannot cover the deposits plus the new stake
    let mut state2 = gov_state(0, 600);
    let short = stake_voting_tokens(&mut state2, &mut manager, &addr("alice"), 500, 1_000);
    assert_eq!(short.unwrap_err(), Error::Underflow);
}

#[test]
fn locked_balance_keeps_only_open_polls() {
    let mut manager = TokenManager {
        share: 100,
        locked_balance: vec![
            LockedBalance { poll_id: 1, balance: 40 },
            LockedBalance { poll_id: 2, balance: 90 },
            LockedBalance { poll_id: 3, balance: 60 },
        ],
    };
    let polls = vec![
        Poll { id: 1, status: PollStatus::InProgress },
        Poll { id: 2, status: PollStatus::Rejected },
        Poll { id: 3, status: PollStatus::InProgress },
    ];
    let (max_locked, removals) = compute_locked_balance(&mut manager, &polls);
    assert_eq!(max_locked, 60);
    assert_eq!(removals, vec![2]);
    assert_eq!(manager.locked_balance.len(), 2);
    assert_eq!(manager.locked_balance[0].poll_id, 1);
    assert_eq!(manager.locked_balance[1].poll_id, 3);
}

#[test]
fn withdraw_needs_a_stake() {
    let cfg = Config { pylon_token: addr("pylon") };
    let mut state = gov_state(1_000, 0);
    let mut manager: Option<TokenManager> = None;
    let r = withdraw_voting_tokens(&cfg, &mut state, &mut manager, &vec![], &addr("alice"), None,
        1_000);
    assert_eq!(r.unwrap_err(), Error::NothingStaked);
}

#[test]
fn withdraw_everything_unlocked() {
    let cfg = Config { pylon_token: addr("pylon") };
    let mut state = gov_state(1_000, 0);
    let mut manager = Some(TokenManager { share: 400, locked_balance: vec![] });
    let polls: Vec<Poll> = vec![];
    // balance 2000 over 1000 shares: 400 shares pay out 800 tokens
    let (resp, removals) = withdraw_voting_tokens(&cfg, &mut state, &mut manager, &polls,
        &addr("alice"), None, 2_000)
        .unwrap();
    assert!(removals.is_empty());
    assert_eq!(state.total_share, 600);
    assert_eq!(manager.as_ref().unwrap().share, 0);
    match &resp.messages[0] {
        Msg::Transfer { token, recipient, amount } => {
            assert_eq!(token.bytes, "pylon".as_bytes());
            assert_eq!(recipient.bytes, "alice".as_bytes());
            assert_eq!(*amount, 800);
        }
        _ => panic!("expected the payout transfer"),
    }
}

#[test]
fn withdraw_a_requested_amount() {
    let cfg = Config { pylon_token: addr("pylon") };
    let mut state = gov_state(1_000, 0);
    let mut manager = Some(TokenManager { share: 400, locked_balance: vec![] });
    let polls: Vec<Poll> = vec![];
    // 300 tokens at 1000 shares / 2000 balance cost 150 shares
    let (resp, _) = withdraw_voting_tokens(&cfg, &mut state, &mut manager, &polls, &addr("alice"),
        Some(300), 2_000)
        .unwrap();
    assert_eq!(state.total_share, 850);
    assert_eq!(manager.as_ref().unwrap().share, 250);
    match &resp.messages[0] {
        Msg::Transfer { amount, .. } => assert_eq!(*amount, 300),
        _ => panic!("expected the payout transfer"),
    }
}

#[test]
fn withdraw_cannot_touch_locked_tokens() {
    let cfg = Config { pylon_token: addr("pylon") };
    let mut state = gov_state(1_000, 0);
    // 400 of the staker's tokens are locked in an open poll: at a balance of
    // 1000 per 1000 shares those lock 400 shares, leaving none to withdraw
    let mut manager = Some(TokenManager {
        share: 400,
        locked_balance: vec![LockedBalance { poll_id: 7, balance: 400 }],
    });
    let polls = vec![Poll { id: 7, status: PollStatus::InProgress }];
    let r = withdraw_voting_tokens(&cfg, &mut state, &mut manager, &polls, &addr("alice"),
        Some(300), 1_000);
    assert_eq!(r.unwrap_err(), Error::TooManyTokens);
    assert_eq!(state.total_share, 1_000);
}
