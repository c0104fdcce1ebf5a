//! Staking of voting tokens in the governance share pool.
//!
//! Stakers hold shares of a common token balance; staking converts an
//! amount into shares at the current ratio, withdrawal converts shares
//! back, and tokens locked as votes in polls still in progress cannot
//! leave.  The host supplies the queried token balance and the status of
//! every poll a staker has locked tokens in, and persists the rewritten
//! state, bank record, and the voter records to drop.

use vstd::prelude::*;

use vstd::arithmetic::div_mod::{lemma_div_is_ordered, lemma_div_multiples_vanish};
use vstd::arithmetic::mul::lemma_mul_inequality;

use crate::types::{ActionTag, Addr, Error, LogEntry, Msg, Response};

verus! {

/// Status of a governance poll.
#[derive(Clone, Copy, Debug, PartialEq, Eq, Structural)]
pub enum PollStatus {
    /// Voting is open; locked tokens stay locked.
    InProgress,
    /// The poll passed.
    Passed,
    /// The poll was rejected.
    Rejected,
    /// The poll passed and its payload ran.
    Executed,
}

/// A poll's id and current status, as read by the host.
#[derive(Clone, Copy, Debug, PartialEq, Eq, Structural)]
pub struct Poll {
    pub id: u64,
    pub status: PollStatus,
}

/// Tokens a staker has locked as a vote in one poll.
#[derive(Clone, Copy, Debug, PartialEq, Eq, Structural)]
pub struct LockedBalance {
    /// The poll voted in.
    pub poll_id: u64,
    /// Tokens locked by that vote.
    pub balance: u64,
}

/// One staker's record: their shares and their locked votes.
#[derive(Clone, Debug)]
pub struct TokenManager {
    /// Shares of the pool held by the staker.
    pub share: u64,
    /// Votes in polls, with the tokens they lock.
    pub locked_balance: Vec<LockedBalance>,
}

/// The share pool's global record.
#[derive(Clone, Debug)]
pub struct State {
    /// The governance contract's own address.
    pub contract_addr: Addr,
    /// Shares over all stakers.
    pub total_share: u64,
    /// Token deposits (poll deposits) excluded from the stake balance.
    pub total_deposit: u64,
}

/// The governance contract's configuration.
#[derive(Clone, Debug)]
pub struct Config {
    /// The voting token.
    pub pylon_token: Addr,
}

/// Whether some poll in `polls` has the id `id`.
pub open spec fn has_poll(polls: Seq<Poll>, id: u64) -> bool {
    exists|j: int| 0 <= j < polls.len() && polls[j].id == id
}

/// Status of the first poll in `polls` with the id `id`.
pub open spec fn poll_status_of(polls: Seq<Poll>, id: u64) -> PollStatus
    decreases polls.len(),
{
    if polls.len() == 0 {
        PollStatus::InProgress
    } else if polls[0].id == id {
        polls[0].status
    } else {
        poll_status_of(polls.subrange(1, polls.len() as int), id)
    }
}

/// The locked votes whose poll is still in progress, in order.
pub open spec fn in_progress_of(s: Seq<LockedBalance>, polls: Seq<Poll>) -> Seq<LockedBalance>
    decreases s.len(),
{
    if s.len() == 0 {
        Seq::empty()
    } else {
        let prefix = in_progress_of(s.drop_last(), polls);
        if poll_status_of(polls, s.last().poll_id) is InProgress {
            prefix.push(s.last())
        } else {
            prefix
        }
    }
}

/// The poll ids of the locked votes whose poll is no longer in progress,
/// in order: their voter records are to be dropped.
pub open spec fn finished_ids_of(s: Seq<LockedBalance>, polls: Seq<Poll>) -> Seq<u64>
    decreases s.len(),
{
    if s.len() == 0 {
        Seq::empty()
    } else {
        let prefix = finished_ids_of(s.drop_last(), polls);
        if poll_status_of(polls, s.last().poll_id) is InProgress {
            prefix
        } else {
            prefix.push(s.last().poll_id)
        }
    }
}

/// The largest balance locked in a poll still in progress, zero if none.
pub open spec fn max_locked_of(s: Seq<LockedBalance>, polls: Seq<Poll>) -> int
    decreases s.len(),
{
    if s.len() == 0 {
        0
    } else {
        let m = max_locked_of(s.drop_last(), polls);
        if poll_status_of(polls, s.last().poll_id) is InProgress && s.last().balance > m {
            s.last().balance as int
        } else {
            m
        }
    }
}

/// Status of the poll `id`, by first match in `polls`.
fn lookup_poll_status(polls: &Vec<Poll>, id: u64) -> (r: PollStatus)
    requires
        has_poll(polls@, id),
    ensures
        r == poll_status_of(polls@, id),
{
    let mut i: usize = 0;
    proof {
        assert(polls@.skip(0) =~= polls@);
    }
    while i < polls.len()
        invariant
            0 <= i <= polls@.len(),
            has_poll(polls@, id),
            forall|j: int| 0 <= j < i ==> polls@[j].id != id,
            poll_status_of(polls@, id) == poll_status_of(polls@.skip(i as int), id),
        decreases polls@.len() - i,
    {
        proof {
            let s = polls@.skip(i as int);
            assert(s[0] == polls@[i as int]);
            assert(s.subrange(1, s.len() as int) =~= polls@.skip(i as int + 1));
        }
        if polls[i].id == id {
            return polls[i].status;
        }
        i = i + 1;
    }
    proof {
        let j = choose|j: int| 0 <= j < polls@.len() && polls@[j].id == id;
        assert(false);
    }
    PollStatus::InProgress
}

/// Drop the caller's votes in polls no longer in progress, and return the
/// largest balance still locked together with the poll ids whose voter
/// records the host must remove.
pub fn compute_locked_balance(manager: &mut TokenManager, polls: &Vec<Poll>) -> (r: (u64, Vec<u64>))
    requires
        forall|k: int|
            0 <= k < old(manager).locked_balance@.len() ==> has_poll(
                polls@,
                #[trigger] old(manager).locked_balance@[k].poll_id,
            ),
    ensures
        final(manager).share == old(manager).share,
        final(manager).locked_balance@ == in_progress_of(old(manager).locked_balance@, polls@),
        r.0 == max_locked_of(old(manager).locked_balance@, polls@),
        r.1@ == finished_ids_of(old(manager).locked_balance@, polls@),
{
    let ghost lb = manager.locked_balance@;
    let mut kept: Vec<LockedBalance> = Vec::new();
    let mut removals: Vec<u64> = Vec::new();
    let mut maxb: u64 = 0;
    let mut i: usize = 0;
    proof {
        assert(lb.take(0) =~= Seq::<LockedBalance>::empty());
    }
    while i < manager.locked_balance.len()
        invariant
            0 <= i <= lb.len(),
            manager.locked_balance@ == lb,
            manager.share == old(manager).share,
            forall|k: int| 0 <= k < lb.len() ==> has_poll(polls@, #[trigger] lb[k].poll_id),
            kept@ == in_progress_of(lb.take(i as int), polls@),
            removals@ == finished_ids_of(lb.take(i as int), polls@),
            maxb == max_locked_of(lb.take(i as int), polls@),
        decreases lb.len() - i,
    {
        proof {
            assert(lb.take(i as int + 1).drop_last() =~= lb.take(i as int));
            assert(lb.take(i as int + 1).last() == lb[i as int]);
        }
        let entry = manager.locked_balance[i];
        let status = lookup_poll_status(polls, entry.poll_id);
        match status {
            PollStatus::InProgress => {
                kept.push(entry);
                if entry.balance > maxb {
                    maxb = entry.balance;
                }
            },
            _ => {
                removals.push(entry.poll_id);
            },
        }
        i = i + 1;
    }
    proof {
        assert(lb.take(lb.len() as int) =~= lb);
    }
    manager.locked_balance = kept;
    (maxb, removals)
}

/// Shares minted for staking `amount` against the pool's current totals:
/// one for one while the pool is empty, else proportional, floored.
pub open spec fn stake_share_of(amount: int, total_share: int, total_balance: int) -> int {
    if total_balance == 0 || total_share == 0 {
        amount
    } else {
        (amount * total_share) / total_balance
    }
}

/// Stake `amount` voting tokens for `sender`.  `token_balance` is the
/// governance contract's voting-token balance as already increased by this
/// very transfer, so the stake balance is what remains after the poll
/// deposits and the incoming amount are taken back out.
pub fn stake_voting_tokens(
    state: &mut State,
    manager: &mut TokenManager,
    sender: &Addr,
    amount: u64,
    token_balance: u64,
) -> (r: Result<Response, Error>)
    requires
        old(state).total_deposit + amount <= u64::MAX,
        token_balance >= old(state).total_deposit + amount ==> {
            let share = stake_share_of(
                amount as int,
                old(state).total_share as int,
                token_balance - old(state).total_deposit - amount,
            );
            &&& old(state).total_share + share <= u64::MAX
            &&& old(manager).share + share <= u64::MAX
        },
    ensures
        final(state).contract_addr@ == old(state).contract_addr@,
        final(state).total_deposit == old(state).total_deposit,
        final(manager).locked_balance@ == old(manager).locked_balance@,
        amount == 0 ==> {
            &&& r == Err::<Response, Error>(Error::InsufficientFunds)
            &&& final(state).total_share == old(state).total_share
            &&& final(manager).share == old(manager).share
        },
        amount > 0 && token_balance < old(state).total_deposit + amount ==> {
            &&& r == Err::<Response, Error>(Error::Underflow)
            &&& final(state).total_share == old(state).total_share
            &&& final(manager).share == old(manager).share
        },
        amount > 0 && token_balance >= old(state).total_deposit + amount ==> {
            let share = stake_share_of(
                amount as int,
                old(state).total_share as int,
                token_balance - old(state).total_deposit - amount,
            );
            &&& r is Ok
            &&& final(state).total_share == old(state).total_share + share
            &&& final(manager).share == old(manager).share + share
            &&& r->Ok_0.messages@.len() == 0
            &&& r->Ok_0.logs@.len() == 4
            &&& r->Ok_0.logs@[0] matches LogEntry::Action(a) && a == ActionTag::Staking
            &&& r->Ok_0.logs@[1] matches LogEntry::Sender(s) && s@ == sender@
            &&& r->Ok_0.logs@[2] matches LogEntry::Share(v) && v == share
            &&& r->Ok_0.logs@[3] matches LogEntry::Amount(v) && v == amount
        },
{
    if amount == 0 {
        return Err(Error::InsufficientFunds);
    }
    let spoken_for = state.total_deposit + amount;
    if token_balance < spoken_for {
        return Err(Error::Underflow);
    }
    let total_balance = token_balance - spoken_for;
    let share: u64 = if total_balance == 0 || state.total_share == 0 {
        amount
    } else {
        proof {
            assert((amount as int) * (state.total_share as int) <= (u64::MAX as int) * (
            u64::MAX as int)) by (nonlinear_arith)
                requires
                    amount <= u64::MAX,
                    state.total_share <= u64::MAX,
            ;
        }
        let q: u128 = (amount as u128) * (state.total_share as u128) / (total_balance as u128);
        q as u64
    };
    manager.share = manager.share + share;
    state.total_share = state.total_share + share;
    let mut logs: Vec<LogEntry> = Vec::new();
    logs.push(LogEntry::Action(ActionTag::Staking));
    logs.push(LogEntry::Sender(sender.dup()));
    logs.push(LogEntry::Share(share));
    logs.push(LogEntry::Amount(amount));
    Ok(Response { messages: Vec::new(), logs })
}

/// The transfer that pays out withdrawn tokens, with its log entries.
pub fn send_tokens(asset_token: &Addr, recipient: &Addr, amount: u64, action: ActionTag) -> (r:
    Response)
    ensures
        r.messages@.len() == 1,
        r.messages@[0] matches Msg::Transfer { token, recipient: to, amount: a } && token@
            == asset_token@ && to@ == recipient@ && a == amount,
        r.logs@.len() == 3,
        r.logs@[0] matches LogEntry::Action(a) && a == action,
        r.logs@[1] matches LogEntry::Recipient(to) && to@ == recipient@,
        r.logs@[2] matches LogEntry::Amount(v) && v == amount,
{
    let mut messages: Vec<Msg> = Vec::new();
    messages.push(Msg::Transfer {
        token: asset_token.dup(),
        recipient: recipient.dup(),
        amount,
    });
    let mut logs: Vec<LogEntry> = Vec::new();
    logs.push(LogEntry::Action(action));
    logs.push(LogEntry::Recipient(recipient.dup()));
    logs.push(LogEntry::Amount(amount));
    Response { messages, logs }
}

/// Shares leaving the pool for a withdrawal request: a requested amount
/// converts at the current ratio (at least one share); no request means all
/// unlocked shares.
pub open spec fn withdraw_share_of(
    amount: Option<u64>,
    user_share: int,
    locked_share: int,
    total_share: int,
    total_balance: int,
) -> int {
    match amount {
        Option::Some(a) => {
            let w = ((a as int) * total_share) / total_balance;
            if w < 1 {
                1
            } else {
                w
            }
        },
        Option::None => user_share - locked_share,
    }
}

/// Tokens paid out for a withdrawal request: the requested amount, or the
/// withdrawn shares converted back at the current ratio.
pub open spec fn withdraw_amount_of(
    amount: Option<u64>,
    withdraw_share: int,
    total_share: int,
    total_balance: int,
) -> int {
    match amount {
        Option::Some(a) => a as int,
        Option::None => (withdraw_share * total_balance) / total_share,
    }
}

/// Withdraw staked tokens; by default all unlocked tokens.  Returns the
/// response together with the poll ids whose voter records the host must
/// remove.  For a staker with a record the stake balance must be positive
/// (pricing the locked shares divides by it), and when no amount is
/// requested the total share must be positive too (converting shares back
/// divides by it); a requested-amount call against a zero total share
/// instead ends in the too-many-tokens error.
pub fn withdraw_voting_tokens(
    cfg: &Config,
    state: &mut State,
    manager: &mut Option<TokenManager>,
    polls: &Vec<Poll>,
    sender: &Addr,
    amount: Option<u64>,
    token_balance: u64,
) -> (r: Result<(Response, Vec<u64>), Error>)
    requires
        *old(manager) matches Option::Some(tm) ==> {
            &&& forall|k: int|
                0 <= k < tm.locked_balance@.len() ==> has_poll(
                    polls@,
                    #[trigger] tm.locked_balance@[k].poll_id,
                )
            &&& tm.share <= old(state).total_share
            &&& token_balance >= old(state).total_deposit ==> token_balance - old(
                state,
            ).total_deposit > 0
            &&& amount is None && token_balance >= old(state).total_deposit ==> {
                let locked = max_locked_of(tm.locked_balance@, polls@);
                let tb = token_balance - old(state).total_deposit;
                &&& old(state).total_share > 0
                &&& (locked * old(state).total_share) / tb <= tm.share
            }
        },
    ensures
        final(state).contract_addr@ == old(state).contract_addr@,
        final(state).total_deposit == old(state).total_deposit,
        *old(manager) is None ==> {
            &&& r == Err::<(Response, Vec<u64>), Error>(Error::NothingStaked)
            &&& final(state).total_share == old(state).total_share
            &&& *final(manager) is None
        },
        *old(manager) matches Option::Some(tm) ==> {
            let tb = token_balance - old(state).total_deposit;
            let ts = old(state).total_share as int;
            let locked = max_locked_of(tm.locked_balance@, polls@);
            let locked_share = (locked * ts) / tb;
            let user_share = tm.share as int;
            let ws = withdraw_share_of(amount, user_share, locked_share, ts, tb);
            let wa = withdraw_amount_of(amount, ws, ts, tb);
            if token_balance < old(state).total_deposit {
                &&& r == Err::<(Response, Vec<u64>), Error>(Error::Underflow)
                &&& final(state).total_share == old(state).total_share
                &&& *final(manager) == *old(manager)
            } else if locked_share + ws > user_share {
                &&& r == Err::<(Response, Vec<u64>), Error>(Error::TooManyTokens)
                &&& final(state).total_share == old(state).total_share
                &&& *final(manager) matches Option::Some(next) && next.share == tm.share
            } else {
                &&& r is Ok
                &&& final(state).total_share == ts - ws
                &&& *final(manager) matches Option::Some(next) && next.share == user_share - ws
                    && next.locked_balance@ == in_progress_of(tm.locked_balance@, polls@)
                &&& r->Ok_0.1@ == finished_ids_of(tm.locked_balance@, polls@)
                &&& r->Ok_0.0.messages@.len() == 1
                &&& r->Ok_0.0.messages@[0] matches Msg::Transfer { token, recipient, amount: a }
                    && token@ == cfg.pylon_token@ && recipient@ == sender@ && a == wa
                &&& r->Ok_0.0.logs@.len() == 3
                &&& r->Ok_0.0.logs@[0] matches LogEntry::Action(a) && a == ActionTag::Withdraw
                &&& r->Ok_0.0.logs@[1] matches LogEntry::Recipient(to) && to@ == sender@
                &&& r->Ok_0.0.logs@[2] matches LogEntry::Amount(v) && v == wa
            }
        },
{
    match manager {
        Option::None => Err(Error::NothingStaked),
        Option::Some(tm) => {
            if token_balance < state.total_deposit {
                return Err(Error::Underflow);
            }
            let total_share = state.total_share;
            let total_balance = token_balance - state.total_deposit;
            let (locked_balance, removals) = compute_locked_balance(tm, polls);
            proof {
                assert((locked_balance as int) * (total_share as int) <= (u64::MAX as int) * (
                u64::MAX as int)) by (nonlinear_arith)
                    requires
                        locked_balance <= u64::MAX,
                        total_share <= u64::MAX,
                ;
            }
            let locked_share: u128 = (locked_balance as u128) * (total_share as u128) / (
            total_balance as u128);
            let user_share: u128 = tm.share as u128;
            let withdraw_share: u128 = match amount {
                Option::Some(a) => {
                    proof {
                        assert((a as int) * (total_share as int) <= (u64::MAX as int) * (
                        u64::MAX as int)) by (nonlinear_arith)
                            requires
                                a <= u64::MAX,
                                total_share <= u64::MAX,
                        ;
                    }
                    let w: u128 = (a as u128) * (total_share as u128) / (total_balance as u128);
                    if w < 1 {
                        1
                    } else {
                        w
                    }
                },
                Option::None => user_share - (locked_share as u128),
            };
            let withdraw_amount: u128 = match amount {
                Option::Some(a) => a as u128,
                Option::None => {
                    proof {
                        assert((withdraw_share as int) * (total_balance as int) <= (
                        u64::MAX as int) * (u64::MAX as int)) by (nonlinear_arith)
                            requires
                                withdraw_share <= u64::MAX,
                                total_balance <= u64::MAX,
                        ;
                    }
                    withdraw_share * (total_balance as u128) / (total_share as u128)
                },
            };
            if withdraw_share > user_share || locked_share > user_share - withdraw_share {
                return Err(Error::TooManyTokens);
            }
            proof {
                if amount is None {
                    lemma_mul_inequality(
                        withdraw_share as int,
                        total_share as int,
                        total_balance as int,
                    );
                    lemma_div_is_ordered(
                        (withdraw_share as int) * (total_balance as int),
                        (total_share as int) * (total_balance as int),
                        total_share as int,
                    );
                    assert((total_share as int) * (total_balance as int) == (total_balance as int)
                        * (total_share as int)) by (nonlinear_arith);
                    lemma_div_multiples_vanish(total_balance as int, total_share as int);
                }
            }
            let share_left: u64 = (user_share - withdraw_share) as u64;
            tm.share = share_left;
            state.total_share = (total_share as u128 - withdraw_share) as u64;
            let resp = send_tokens(
                &cfg.pylon_token,
                sender,
                withdraw_amount as u64,
                ActionTag::Withdraw,
            );
            Ok((resp, removals))
        },
    }
}

} // verus!
