//! Configuration of a gateway distribution pool: deposit, withdraw and
//! claim time windows, and the reward-distribution schedule.
//!
//! Validation is pure: a record is checked before the host stores it, and
//! the time-window checks take the current block time as a plain value.

use vstd::prelude::*;

use crate::math::{checked_mul_rate, mul_rate_of, Rate};
use crate::types::{Addr, Error};

verus! {

/// A half-open window of block times, `[start, finish)`; with `inverse` set
/// it denotes the complement of that window.
#[derive(Clone, Copy, Debug, PartialEq, Eq, Structural)]
pub struct TimeRange {
    /// First block time inside the (non-inverse) window.
    pub start: u64,
    /// First block time after the (non-inverse) window.
    pub finish: u64,
    /// Whether the range denotes the complement of the window.
    pub inverse: bool,
}

/// A well-formed range does not end before it starts.
pub open spec fn time_range_wf(tr: TimeRange) -> bool {
    tr.start <= tr.finish
}

/// Whether block time `t` lies inside the range.
pub open spec fn in_range(tr: TimeRange, t: int) -> bool {
    if tr.inverse {
        t < tr.start || tr.finish <= t
    } else {
        tr.start <= t && t < tr.finish
    }
}

impl TimeRange {
    /// Length of the (non-inverse) window; an inverse range has no period.
    pub fn period(&self) -> (r: u64)
        requires
            time_range_wf(*self),
        ensures
            r == if self.inverse {
                0int
            } else {
                self.finish - self.start
            },
    {
        if self.inverse {
            0
        } else {
            self.finish - self.start
        }
    }

    /// Whether block time `t` lies inside the range.
    pub fn is_in_range(&self, t: u64) -> (r: bool)
        ensures
            r == in_range(*self, t as int),
    {
        if self.inverse {
            t < self.start || self.finish <= t
        } else {
            self.start <= t && t < self.finish
        }
    }

    /// Reject a range that ends before it starts.
    pub fn validate(&self) -> (r: Result<(), Error>)
        ensures
            r is Ok <==> time_range_wf(*self),
            r is Err ==> r == Err::<(), Error>(Error::InvalidTimeRange),
    {
        if self.start > self.finish {
            Err(Error::InvalidTimeRange)
        } else {
            Ok(())
        }
    }
}

impl Default for TimeRange {
    /// The empty window at time zero.
    fn default() -> (r: TimeRange)
        ensures
            r.start == 0 && r.finish == 0 && !r.inverse,
    {
        TimeRange { start: 0, finish: 0, inverse: false }
    }
}

/// Deposit limits of the pool.
#[derive(Clone, Copy, Debug, PartialEq, Eq, Structural)]
pub struct DepositConfig {
    /// When deposits are open.
    pub time: TimeRange,
    /// Cap per user; zero means no deposits.
    pub user_cap: u64,
    /// Cap over all users.
    pub total_cap: u64,
}

impl Default for DepositConfig {
    /// No deposit window and zero caps.
    fn default() -> (r: DepositConfig)
        ensures
            r.time.start == 0 && r.time.finish == 0 && !r.time.inverse,
            r.user_cap == 0,
            r.total_cap == 0,
    {
        DepositConfig {
            time: TimeRange { start: 0, finish: 0, inverse: false },
            user_cap: 0,
            total_cap: 0,
        }
    }
}

impl DepositConfig {
    /// Reject an inverted deposit window.
    pub fn validate(&self) -> (r: Result<(), Error>)
        ensures
            r is Ok <==> time_range_wf(self.time),
            r is Err ==> r == Err::<(), Error>(Error::InvalidTimeRange),
    {
        self.time.validate()
    }
}

/// The reward-distribution schedule: a window and a per-block-time rate.
#[derive(Clone, Copy, Debug, PartialEq, Eq, Structural)]
pub struct DistributionConfig {
    /// When rewards accrue.
    pub time: TimeRange,
    /// Reward per unit of time.
    pub reward_rate: Rate,
    /// Declared total of the schedule; must equal `period * reward_rate`.
    pub total_reward_amount: u64,
}

/// The declared total matches the window's length scaled by the rate.
pub open spec fn distribution_total_matches(d: DistributionConfig) -> bool {
    let period = if d.time.inverse {
        0int
    } else {
        d.time.finish - d.time.start
    };
    mul_rate_of(period, d.reward_rate.num as int) == d.total_reward_amount
}

impl DistributionConfig {
    /// Reject an inverted window, then a declared total that does not equal
    /// the window length scaled by the rate.
    pub fn validate(&self) -> (r: Result<(), Error>)
        ensures
            r is Ok <==> time_range_wf(self.time) && distribution_total_matches(*self),
            !time_range_wf(self.time) ==> r == Err::<(), Error>(Error::InvalidTimeRange),
            time_range_wf(self.time) && !distribution_total_matches(*self) ==> r == Err::<
                (),
                Error,
            >(Error::RewardAmountMismatch),
    {
        if self.time.start > self.time.finish {
            return Err(Error::InvalidTimeRange);
        }
        let period = self.time.period();
        match checked_mul_rate(period, self.reward_rate) {
            Some(calculated) => {
                if calculated != self.total_reward_amount {
                    Err(Error::RewardAmountMismatch)
                } else {
                    Ok(())
                }
            },
            None => Err(Error::RewardAmountMismatch),
        }
    }

    /// The latest time rewards can be counted to: the earlier of `timestamp`
    /// and the window's end.
    pub fn applicable_finish_time(&self, timestamp: u64) -> (r: u64)
        ensures
            r == if self.time.finish < timestamp {
                self.time.finish
            } else {
                timestamp
            },
    {
        if self.time.finish < timestamp {
            self.time.finish
        } else {
            timestamp
        }
    }

    /// The earliest time rewards can be counted from: the later of
    /// `timestamp` and the window's start.
    pub fn applicable_start_time(&self, timestamp: u64) -> (r: u64)
        ensures
            r == if self.time.start > timestamp {
                self.time.start
            } else {
                timestamp
            },
    {
        if self.time.start > timestamp {
            self.time.start
        } else {
            timestamp
        }
    }

    /// `timestamp` clamped into the distribution window.
    pub fn applicable_reward_time(&self, timestamp: u64) -> (r: u64)
        ensures
            r == ({
                let capped = if self.time.finish < timestamp {
                    self.time.finish as int
                } else {
                    timestamp as int
                };
                if self.time.start > capped {
                    self.time.start as int
                } else {
                    capped
                }
            }),
    {
        self.applicable_start_time(self.applicable_finish_time(timestamp))
    }
}

/// Configuration of one gateway distribution pool.
#[derive(Clone, Debug)]
pub struct Config {
    /// May rewrite this record.
    pub owner: Addr,
    /// Token whose deposits the pool shares.
    pub share_token: Addr,
    /// Deposit window and caps.
    pub deposit_config: DepositConfig,
    /// Withdrawals are open whenever any of these ranges contains the
    /// current block time.
    pub withdraw_time: Vec<TimeRange>,
    /// Token the rewards are paid in.
    pub reward_token: Addr,
    /// When rewards may be claimed.
    pub claim_time: TimeRange,
    /// The reward schedule.
    pub distribution_config: DistributionConfig,
}

/// All time windows of the record are well-formed.
pub open spec fn config_times_wf(c: Config) -> bool {
    &&& time_range_wf(c.deposit_config.time)
    &&& forall|j: int| 0 <= j < c.withdraw_time@.len() ==> time_range_wf(#[trigger] c.withdraw_time@[j])
    &&& time_range_wf(c.claim_time)
    &&& time_range_wf(c.distribution_config.time)
}

impl Config {
    /// Reject any inverted time window, then a reward schedule whose
    /// declared total does not match its rate and period.
    pub fn validate(&self) -> (r: Result<(), Error>)
        ensures
            r is Ok <==> config_times_wf(*self) && distribution_total_matches(
                self.distribution_config,
            ),
            !config_times_wf(*self) ==> r == Err::<(), Error>(Error::InvalidTimeRange),
            config_times_wf(*self) && !distribution_total_matches(self.distribution_config) ==> r
                == Err::<(), Error>(Error::RewardAmountMismatch),
    {
        if self.deposit_config.time.start > self.deposit_config.time.finish {
            return Err(Error::InvalidTimeRange);
        }
        let mut i: usize = 0;
        while i < self.withdraw_time.len()
            invariant
                0 <= i <= self.withdraw_time@.len(),
                forall|j: int| 0 <= j < i ==> time_range_wf(#[trigger] self.withdraw_time@[j]),
            decreases self.withdraw_time@.len() - i,
        {
            if self.withdraw_time[i].start > self.withdraw_time[i].finish {
                return Err(Error::InvalidTimeRange);
            }
            i = i + 1;
        }
        if self.claim_time.start > self.claim_time.finish {
            return Err(Error::InvalidTimeRange);
        }
        self.distribution_config.validate()
    }

    /// Whether the current block time admits a deposit.
    pub fn check_deposit_time(&self, now: u64) -> (r: Result<(), Error>)
        ensures
            r is Ok <==> in_range(self.deposit_config.time, now as int),
            r is Err ==> r == Err::<(), Error>(Error::NotInTimeRange),
    {
        check_time_range(now, &self.deposit_config.time)
    }

    /// Whether the current block time lies in any withdraw window.
    pub fn check_withdraw_time(&self, now: u64) -> (r: Result<(), Error>)
        ensures
            r is Ok <==> exists|j: int|
                0 <= j < self.withdraw_time@.len() && in_range(
                    #[trigger] self.withdraw_time@[j],
                    now as int,
                ),
            r is Err ==> r == Err::<(), Error>(Error::NotInTimeRange),
    {
        let mut i: usize = 0;
        while i < self.withdraw_time.len()
            invariant
                0 <= i <= self.withdraw_time@.len(),
                forall|j: int|
                    0 <= j < i ==> !in_range(#[trigger] self.withdraw_time@[j], now as int),
            decreases self.withdraw_time@.len() - i,
        {
            if self.withdraw_time[i].is_in_range(now) {
                return Ok(());
            }
            i = i + 1;
        }
        Err(Error::NotInTimeRange)
    }

    /// Whether the current block time admits a reward claim.
    pub fn check_claim_time(&self, now: u64) -> (r: Result<(), Error>)
        ensures
            r is Ok <==> in_range(self.claim_time, now as int),
            r is Err ==> r == Err::<(), Error>(Error::NotInTimeRange),
    {
        check_time_range(now, &self.claim_time)
    }
}

/// Whether the current block time lies inside `origin`; outside it, the
/// caller is told the window was missed.
pub fn check_time_range(now: u64, origin: &TimeRange) -> (r: Result<(), Error>)
    ensures
        r is Ok <==> in_range(*origin, now as int),
        r is Err ==> r == Err::<(), Error>(Error::NotInTimeRange),
{
    if origin.is_in_range(now) {
        Ok(())
    } else {
        Err(Error::NotInTimeRange)
    }
}

} // verus!
