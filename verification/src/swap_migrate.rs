//! Destructive migration of a retired swap pool into a refund contract:
//! the stored configuration is replaced by a refund record derived from the
//! old configuration and the virtual pool.
//!
//! The transform is pure; the host reads the two old records and stores the
//! new one in their place.

use vstd::prelude::*;

use crate::math::Rate;
use crate::types::{dup_bytes, Addr};

verus! {

/// The retired swap pool's configuration, as read from storage.
#[derive(Clone, Debug)]
pub struct Config {
    /// Owner of the retired pool; becomes the refund manager.
    pub owner: Addr,
    /// Price the sale ran at; refunds are computed against it.
    pub base_price: Rate,
}

/// The retired pool's virtual liquidity record.
#[derive(Clone, Debug)]
pub struct VPool {
    /// Stable denomination of the pool; refunds are paid in it.
    pub x_denom: Vec<u8>,
    /// Virtual liquidity of the stable side.
    pub liq_x: u64,
    /// Virtual liquidity of the token side.
    pub liq_y: u64,
}

/// The refund contract's configuration that replaces the pool's.
#[derive(Clone, Debug)]
pub struct NewRefundConfig {
    /// May run the refund.
    pub manager: Addr,
    /// Denomination refunds are paid in.
    pub refund_denom: Vec<u8>,
    /// Price the refunds are computed against.
    pub base_price: Rate,
}

/// The refund record that replaces the retired pool's configuration: the
/// old owner becomes the manager, the pool's stable denomination the refund
/// denomination, and the sale price is carried over.
pub fn refund(config: &Config, vpool: &VPool) -> (r: NewRefundConfig)
    ensures
        r.manager@ == config.owner@,
        r.refund_denom@ == vpool.x_denom@,
        r.base_price == config.base_price,
{
    NewRefundConfig {
        manager: config.owner.dup(),
        refund_denom: dup_bytes(&vpool.x_denom),
        base_price: config.base_price,
    }
}

} // verus!
