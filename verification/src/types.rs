//! Plain data the handlers work on: addresses, coins, log entries, the
//! outgoing messages a handler asks the host to execute, and the errors that
//! abort a call.
//!
//! Addresses and denominations are opaque byte strings; the logic only ever
//! compares them and copies them.  A handler never performs a transfer
//! itself: it returns a [`Response`] whose ordered message list the host
//! executes atomically, rolling everything back if any message fails.

use vstd::prelude::*;
use vstd::std_specs::cmp::PartialEqSpec;

verus! {

/// An account or contract address: an opaque byte string.  The empty byte
/// string is the sentinel for "not set".
#[derive(Clone, Debug)]
pub struct Addr {
    /// Canonical form of the address.
    pub bytes: Vec<u8>,
}

impl View for Addr {
    type V = Seq<u8>;

    open spec fn view(&self) -> Seq<u8> {
        self.bytes@
    }
}

impl Addr {
    /// An address from its canonical bytes.
    pub fn from_bytes(bytes: Vec<u8>) -> (r: Addr)
        ensures
            r@ == bytes@,
    {
        Addr { bytes }
    }

    /// The sentinel address: not set.
    pub fn unset() -> (r: Addr)
        ensures
            r@ == Seq::<u8>::empty(),
    {
        Addr { bytes: Vec::new() }
    }

    /// Whether this address is the sentinel.
    pub fn is_unset(&self) -> (r: bool)
        ensures
            r == (self@.len() == 0),
    {
        self.bytes.len() == 0
    }

    /// A copy of this address.
    pub fn dup(&self) -> (r: Addr)
        ensures
            r@ == self@,
    {
        let bytes = self.bytes.clone();
        proof {
            assert(bytes@ =~= self.bytes@);
        }
        Addr { bytes }
    }
}

/// Whether two addresses are the same.
pub fn addr_eq(a: &Addr, b: &Addr) -> (r: bool)
    ensures
        r == (a@ == b@),
{
    let r = a.bytes == b.bytes;
    proof {
        if r {
            assert(a.bytes@ =~= b.bytes@);
        } else if a@ == b@ {
            assert(a.bytes.eq_spec(&b.bytes));
            assert(false);
        }
    }
    r
}

/// A copy of a byte string (used for denominations).
pub fn dup_bytes(v: &Vec<u8>) -> (r: Vec<u8>)
    ensures
        r@ == v@,
{
    let r = v.clone();
    proof {
        assert(r@ =~= v@);
    }
    r
}

/// Whether two byte strings (denominations) are the same.
pub fn bytes_eq(a: &Vec<u8>, b: &Vec<u8>) -> (r: bool)
    ensures
        r == (a@ == b@),
{
    let r = a == b;
    proof {
        if r {
            assert(a@ =~= b@);
        } else if a@ == b@ {
            assert(a.eq_spec(b));
            assert(false);
        }
    }
    r
}

/// A quantity of one denomination.
#[derive(Clone, Debug)]
pub struct Coin {
    /// Denomination, an opaque byte string.
    pub denom: Vec<u8>,
    /// Quantity, in the denomination's smallest unit.
    pub amount: u64,
}

/// Why a handler call was aborted.  Every error is terminal for the current
/// transaction: no state is written and no message is executed.
#[derive(Clone, Copy, Debug, PartialEq, Eq, Structural)]
pub enum Error {
    /// The caller may not perform this operation.
    Unauthorized,
    /// The request payload was missing or did not decode to a known intent.
    InvalidRequest,
    /// No (or zero) funds of the pool's settlement denomination were attached.
    InsufficientDeposit,
    /// More than one coin denomination was attached.
    UnsupportedAsset,
    /// A computed quantity would have gone negative.
    Underflow,
    /// A computed quantity does not fit the representable range.
    Overflow,
    /// A zero amount was handed to a staking operation.
    InsufficientFunds,
    /// The caller has no stake to withdraw from.
    NothingStaked,
    /// The caller asked to withdraw more than their unlocked stake.
    TooManyTokens,
    /// A configured time range is inverted or inconsistent.
    InvalidTimeRange,
    /// A distribution's declared total does not match its rate and period.
    RewardAmountMismatch,
    /// The current block time lies outside the configured time range.
    NotInTimeRange,
}

/// Tag of a handler action, recorded in the structured log.
#[derive(Clone, Copy, Debug, PartialEq, Eq, Structural)]
pub enum ActionTag {
    Deposit,
    Redeem,
    ClaimReward,
    Staking,
    Withdraw,
    Configure,
}

/// One structured log entry of a handler result.
#[derive(Clone, Debug)]
pub enum LogEntry {
    /// Which action ran.
    Action(ActionTag),
    /// The transaction sender.
    Sender(Addr),
    /// The transaction sender, as the earlier handler generation logs it.
    Operator(Addr),
    /// An amount the action moved or minted.
    Amount(u64),
    /// The protocol's cut of a harvest.
    Fee(u64),
    /// A share quantity of the staking pool.
    Share(u64),
    /// The recipient of a transfer.
    Recipient(Addr),
    /// The derivative token bound by registration.
    DpToken(Addr),
}

/// An outgoing message for the host to execute as part of the same atomic
/// transaction, in list order.
#[derive(Clone, Debug)]
pub enum Msg {
    /// Tell the rate feeder to refresh its record of the token's supply.
    FeederUpdate { feeder: Addr, token: Addr },
    /// Forward funds into the money market.
    MarketDeposit { market: Addr, coin: Coin },
    /// Redeem `amount` of the market's yield-bearing token for stable funds.
    MarketRedeem { market: Addr, atoken: Addr, amount: u64 },
    /// Mint derivative tokens to a recipient.
    Mint { token: Addr, recipient: Addr, amount: u64 },
    /// Burn derivative tokens held by the pool.
    Burn { token: Addr, amount: u64 },
    /// Pay out a coin from one account to another.
    BankSend { from: Addr, to: Addr, coin: Coin },
    /// Transfer fungible tokens to a recipient.
    Transfer { token: Addr, recipient: Addr, amount: u64 },
    /// Instantiate the pool's derivative token, with the pool as minter and
    /// a registration callback to the pool once deployed.
    Instantiate { code_id: u64, pool_name: Vec<u8>, minter: Addr, init_hook: Addr },
}

/// What a successful handler call hands back to the host: the ordered
/// messages to execute and the structured log entries to record.
#[derive(Clone, Debug)]
pub struct Response {
    /// Messages the host executes in order, atomically with this call.
    pub messages: Vec<Msg>,
    /// Structured log entries.
    pub logs: Vec<LogEntry>,
}

} // verus!
