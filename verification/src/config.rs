//! The pool's configuration record: a single record created at
//! initialization, rewritten only by the one-time token registration and by
//! the owner-gated reconfiguration.
//!
//! The host owns persistence; every handler receives the current record as a
//! plain value and, where it rewrites it, does so through a `&mut` borrow
//! whose new value the host stores back atomically with the call.

use vstd::prelude::*;

use crate::types::Addr;

verus! {

/// The pool's identity and linkage addresses.
///
/// `stable_denom` and `atoken` are derived from the money market's own
/// configuration at initialization, never supplied by a caller.
/// `dp_token` starts as the sentinel (unset) address and is bound exactly
/// once by the registration handler.
#[derive(Clone, Debug)]
pub struct Config {
    /// The pool contract's own address.
    pub this: Addr,
    /// May reconfigure beneficiary and fee collector.
    pub owner: Addr,
    /// Receives the harvested yield over principal, less the fee.
    pub beneficiary: Addr,
    /// Receives the harvested fee.
    pub fee_collector: Addr,
    /// Feeds the virtual exchange rate and must be notified whenever the
    /// derivative token's supply changes.
    pub exchange_rate_feeder: Addr,
    /// The external money market the pool deposits into.
    pub moneymarket: Addr,
    /// Settlement currency, read from the money market's configuration.
    pub stable_denom: Vec<u8>,
    /// The money market's yield-bearing receipt token.
    pub atoken: Addr,
    /// The pool's derivative claim token; unset until registration.
    pub dp_token: Addr,
}

} // verus!
