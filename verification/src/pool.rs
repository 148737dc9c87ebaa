//! The liquidity-pool side of the system: pooled collateral for a separate
//! leveraged-trading feature. Only its decision logic lives here — leverage
//! limits, admin checks, overflow-safe bookkeeping and position records built
//! from plain values. Collateral transfers, price-feed reads and clocks are
//! the host's work; the host hands their results in as arguments.

use vstd::prelude::*;

verus! {

/// Largest leverage multiplier a position may be opened with.
pub const MAX_LEVERAGE: u64 = 50;

/// Failures of pool operations.
#[derive(Clone, Copy, Debug, PartialEq, Eq)]
pub enum CustomError {
    /// The caller is not the pool admin.
    Unauthorized,
    /// The requested leverage exceeds `MAX_LEVERAGE`.
    MaxLeverageExceeded,
    /// Open interest would exceed the configured share of pool liquidity.
    GoldenRatioBreached,
}

/// State of the shared liquidity pool.
#[derive(Clone, Copy, Debug, PartialEq, Eq)]
pub struct PoolState {
    /// Identity allowed to configure the pool.
    pub admin: u64,
    /// Total collateral escrowed with the pool.
    pub total_liquidity: u64,
    /// Share of trading fees the admin takes, in basis points.
    pub admin_fee_bps: u64,
}

/// A recorded leveraged position. `entry_price` and `timestamp` come from the
/// host's price feed and clock, already reduced to plain values.
#[derive(Debug, PartialEq, Eq)]
pub struct PositionState {
    /// Identity that opened the position.
    pub trader: u64,
    /// Market the position is in, e.g. "SOL-USD". Opaque to the pool.
    pub market_id: String,
    /// Direction of the position.
    pub is_long: bool,
    /// Notional size: collateral times leverage.
    pub size: u64,
    /// Collateral escrowed for the position.
    pub collateral: u64,
    /// Oracle price at which the position was entered.
    pub entry_price: i64,
    /// Time the position was opened, in seconds.
    pub timestamp: i64,
}

/// Creates an empty pool owned by `admin`.
pub fn initialize(admin: u64, admin_fee_bps: u64) -> (p: PoolState)
    ensures
        p == (PoolState { admin, total_liquidity: 0, admin_fee_bps }),
{
    PoolState { admin, total_liquidity: 0, admin_fee_bps }
}

impl PoolState {
    /// Admin-gated configuration of a market's open-interest ceiling. The
    /// pool only decides whether the caller may set it; storing the limit per
    /// market is the host's work, so the accepted limit is handed back.
    pub fn set_max_oi(&self, caller: u64, limit: u64) -> (r: Result<u64, CustomError>)
        ensures
            r is Ok <==> caller == self.admin,
            r is Ok ==> r->Ok_0 == limit,
            r is Err ==> r == Result::<u64, CustomError>::Err(CustomError::Unauthorized),
    {
        if caller != self.admin {
            return Err(CustomError::Unauthorized);
        }
        Ok(limit)
    }

    /// Books collateral that the host has already transferred into the pool.
    /// The host must refuse deposits that would push the pool past `u64::MAX`
    /// before it moves any funds.
    pub fn add_liquidity(&mut self, amount: u64)
        requires
            old(self).total_liquidity + amount <= u64::MAX,
        ensures
            *final(self) == (PoolState {
                total_liquidity: (old(self).total_liquidity + amount) as u64,
                ..*old(self)
            }),
    {
        self.total_liquidity = self.total_liquidity + amount;
    }

    /// Builds the position record for a leveraged trade, enforcing the
    /// leverage ceiling. The host transfers the collateral only after this
    /// succeeds, and aborts the whole operation if the transfer fails.
    pub fn open_position(
        &self,
        trader: u64,
        market_id: String,
        is_long: bool,
        collateral: u64,
        leverage: u64,
        entry_price: i64,
        timestamp: i64,
    ) -> (r: Result<PositionState, CustomError>)
        requires
            leverage <= MAX_LEVERAGE ==> collateral * leverage <= u64::MAX,
        ensures
            r is Ok <==> leverage <= MAX_LEVERAGE,
            r is Ok ==> r->Ok_0 == (PositionState {
                trader,
                market_id,
                is_long,
                size: (collateral * leverage) as u64,
                collateral,
                entry_price,
                timestamp,
            }),
            r is Err ==> r == Result::<PositionState, CustomError>::Err(
                CustomError::MaxLeverageExceeded,
            ),
    {
        if leverage > MAX_LEVERAGE {
            return Err(CustomError::MaxLeverageExceeded);
        }
        let size: u64 = collateral * leverage;
        Ok(PositionState { trader, market_id, is_long, size, collateral, entry_price, timestamp })
    }
}

} // verus!
