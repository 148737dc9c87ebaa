//! A bonding-curve fair-launch engine: a fixed token supply is sold along a
//! deterministic constant-product price curve until a funding goal is reached,
//! after which the curve graduates and trading through it stops for good.
//!
//! The crate verifies the engine's integer math and state machine: fee-on-input
//! swaps, slippage and anti-whale checks, rate limiting, overflow-safe reserve
//! bookkeeping, and the one-way graduation latch. Token transfers, account
//! storage and clocks are collaborators of the host; the engine only decides,
//! over plain values, what they should do and when its state may be committed.

pub mod curve;
pub mod pool;
