//! Shares and utilization of a liquidity pool, in hundredths of a percent.

use crate::conversion::Currency;
use crate::utils::{fits, quotient, BASIS_POINTS};
use vstd::prelude::*;

verus! {

/// The liquidity held for one currency.
#[derive(Clone, Copy, Debug, PartialEq, Eq, Structural)]
pub struct LiquidityPool {
    pub currency: Currency,
    /// All liquidity in the pool.
    pub total_liquidity: i128,
    /// The part that conversions can draw on.
    pub available_liquidity: i128,
    /// The part locked in conversions under way.
    pub reserved_liquidity: i128,
    pub provider_count: u32,
    pub created_at: u64,
    pub last_activity_at: u64,
    pub min_liquidity_threshold: i128,
    /// The utilization last computed.
    pub utilization_rate_bps: u32,
}

/// `part` of `whole` in hundredths of a percent, rounded towards zero;
/// zero of an empty whole.
pub open spec fn basis_points_of(part: int, whole: int) -> int {
    if whole == 0 {
        0
    } else {
        quotient(part * BASIS_POINTS, whole)
    }
}

/// The rules of the liquidity pools.
pub struct PoolManagerContract;

impl PoolManagerContract {
    /// The share of a position in its pool.
    pub fn calculate_pool_share(position_amount: i128, total_pool_amount: i128) -> (share: u32)
        requires
            total_pool_amount != 0 ==> fits(position_amount * BASIS_POINTS),
            0 <= basis_points_of(position_amount as int, total_pool_amount as int) <= u32::MAX,
        ensures
            share == basis_points_of(position_amount as int, total_pool_amount as int),
    {
        if total_pool_amount == 0 {
            return 0;
        }
        ((position_amount * 10000) / total_pool_amount) as u32
    }

    /// The part of a pool's liquidity that is in use.
    pub fn calculate_utilization_rate(pool: &LiquidityPool) -> (rate: u32)
        requires
            pool.total_liquidity != 0 ==> fits(pool.total_liquidity - pool.available_liquidity)
                && fits((pool.total_liquidity - pool.available_liquidity) * BASIS_POINTS),
            0 <= basis_points_of(
                pool.total_liquidity - pool.available_liquidity,
                pool.total_liquidity as int,
            ) <= u32::MAX,
        ensures
            rate == basis_points_of(
                pool.total_liquidity - pool.available_liquidity,
                pool.total_liquidity as int,
            ),
    {
        if pool.total_liquidity == 0 {
            return 0;
        }
        let utilized = pool.total_liquidity - pool.available_liquidity;
        ((utilized * 10000) / pool.total_liquidity) as u32
    }
}

} // verus!
