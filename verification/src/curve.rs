//! The bonding-curve engine: one `CurveState` per listed token, mutated only
//! by `buy` and `sell`, created once by `initialize`, latched forever by
//! graduation.
//!
//! Every operation follows a staged-transaction discipline: `prepare_buy` /
//! `prepare_sell` validate all preconditions and compute the complete next
//! state without touching anything; the host then executes the external
//! transfers and, only if all of them succeeded, applies the plan with
//! `commit`. The convenience entry points `buy` and `sell` combine the two
//! stages for hosts that run each operation as an all-or-nothing unit.
//!
//! Identities (creator, trader, admin, fee recipient) and token mints are
//! opaque numeric identifiers assigned by the host; the engine never
//! interprets them.

use vstd::arithmetic::div_mod::lemma_fundamental_div_mod;
use vstd::arithmetic::div_mod::lemma_div_pos_is_pos;
use vstd::arithmetic::div_mod::lemma_mod_division_less_than_divisor;
use vstd::prelude::*;

verus! {

/// Initial virtual external-asset reserve of every new curve, in lamport
/// precision (30 units of the external asset).
pub const VIRTUAL_SOL_RES: u64 = 30_000_000_000;

/// Initial virtual token reserve. Deliberately larger than the real
/// circulating supply so that the price curve rises smoothly from the start.
pub const VIRTUAL_TOKEN_RES: u64 = 1_073_000_000_000_000;

/// Fixed token supply minted into curve custody at creation (1 billion
/// tokens at six decimals). It never changes afterwards.
pub const TOTAL_SUPPLY: u64 = 1_000_000_000_000_000;

/// External-asset threshold on the virtual reserve that triggers graduation
/// (85 units).
pub const FUNDING_GOAL_SOL: u64 = 85_000_000_000;

/// Trading fee taken on the input side of every swap, in basis points (1%).
pub const FEE_BPS: u64 = 100;

/// Basis-point denominator.
pub const BPS_DENOMINATOR: u64 = 10_000;

/// Anti-whale ceiling: the largest external-asset amount a single Buy may
/// spend (50 units).
pub const MAX_BUY: u64 = 50_000_000_000;

/// Rate limit: seconds that must pass after a successful trade before the
/// next one is accepted.
pub const COOLDOWN_SECONDS: u64 = 5;

/// Trading phase of a curve: a one-way latch. A curve starts `Trading` and
/// moves to `Graduated` at most once, inside a successful Buy; nothing ever
/// moves it back.
#[derive(Clone, Copy, Debug, PartialEq, Eq)]
pub enum Phase {
    Trading,
    Graduated,
}

/// Everything that can go wrong in a curve or gate operation. Each failure is
/// terminal for the current operation and leaves all state untouched.
#[derive(Clone, Copy, Debug, PartialEq, Eq)]
pub enum CustomError {
    /// The configuration gate is paused.
    AlreadyPaused,
    /// A curve for this token mint already exists.
    DuplicateCurve,
    /// The curve has graduated; trading through it is over for good.
    CurveGraduated,
    /// The trade amount was zero.
    ZeroAmount,
    /// A Buy exceeded the per-transaction anti-whale cap.
    OverCap,
    /// The cooldown since the last successful trade has not elapsed.
    RateLimited,
    /// The swap formula produced nothing for the given input.
    ZeroOutput,
    /// The output fell short of the caller's slippage floor.
    SlippageExceeded,
    /// The curve cannot pay the computed output out of its reserves.
    InsufficientLiquidity,
    /// A checked arithmetic step would have overflowed or underflowed.
    MathOverflow,
    /// The caller is not the identity the operation requires.
    Unauthorized,
}

/// State of one bonding curve. Virtual reserves drive pricing only; real
/// reserves mirror the balances actually escrowed by the host's transfers.
#[derive(Clone, Copy, Debug, PartialEq, Eq)]
pub struct CurveState {
    /// Identity that created the curve. Immutable.
    pub creator: u64,
    /// Mint of the tradable token. Immutable.
    pub token_mint: u64,
    /// Fixed token supply; never changes after creation.
    pub total_supply: u64,
    /// Tokens handed out to traders so far.
    pub tokens_sold: u64,
    /// Virtual external-asset reserve used by the pricing formula.
    pub virtual_sol_res: u64,
    /// Virtual token reserve used by the pricing formula.
    pub virtual_token_res: u64,
    /// External asset actually escrowed with the curve.
    pub real_sol_res: u64,
    /// Tokens actually remaining in curve custody.
    pub real_token_res: u64,
    /// Graduation threshold on the virtual external reserve.
    pub funding_goal: u64,
    /// Time of the last successful trade, in seconds.
    pub last_trade_timestamp: u64,
    /// One-way trading latch.
    pub phase: Phase,
}

/// Read-only configuration every operation runs under, injected by the host:
/// the pause flag gates trading, the fee recipient receives the input-side
/// fee, and only the admin may change either.
#[derive(Clone, Copy, Debug, PartialEq, Eq)]
pub struct ConfigGate {
    /// Identity allowed to mutate the config gate.
    pub admin: u64,
    /// Identity the trade fee is paid to.
    pub fee_recipient: u64,
    /// While true, curve creation and trading are rejected.
    pub paused: bool,
}

/// Fee taken on the input side of a swap: `floor(amount * FEE_BPS / 10_000)`.
pub open spec fn spec_fee(amount: int) -> int {
    amount * FEE_BPS / (BPS_DENOMINATOR as int)
}

/// Input that actually enters the constant-product formula after the fee.
pub open spec fn spec_net_in(amount: int) -> int {
    amount - spec_fee(amount)
}

/// Constant-product swap output for a Buy: tokens paid out for `net_in` of
/// the external asset against reserves `(vsr, vtr)`.
pub open spec fn spec_tokens_out(vsr: int, vtr: int, net_in: int) -> int {
    vtr * net_in / (vsr + net_in)
}

/// Constant-product swap output for a Sell: gross external asset paid out for
/// `tokens_in` against reserves `(vsr, vtr)`.
pub open spec fn spec_gross_out(vsr: int, vtr: int, tokens_in: int) -> int {
    vsr * tokens_in / (vtr + tokens_in)
}

impl CurveState {
    /// Well-formedness: what `initialize` establishes and every successful
    /// trade preserves. Virtual reserves exceed their real counterparts by
    /// the fixed creation offsets, and trading neither creates nor destroys
    /// tokens.
    pub open spec fn wf(self) -> bool {
        &&& self.total_supply == TOTAL_SUPPLY
        &&& self.virtual_sol_res == self.real_sol_res + VIRTUAL_SOL_RES
        &&& self.virtual_token_res == self.real_token_res + (VIRTUAL_TOKEN_RES - TOTAL_SUPPLY)
        &&& self.real_token_res + self.tokens_sold == self.total_supply
    }

    /// Whether the one-way latch has fired.
    pub open spec fn graduated(self) -> bool {
        self.phase is Graduated
    }

    /// Executable view of the graduation latch.
    pub fn is_graduated(&self) -> (b: bool)
        ensures
            b == self.graduated(),
    {
        match self.phase {
            Phase::Graduated => true,
            Phase::Trading => false,
        }
    }
}

/// The state a fresh curve starts in.
pub open spec fn spec_initial_curve(creator: u64, token_mint: u64) -> CurveState {
    CurveState {
        creator,
        token_mint,
        total_supply: TOTAL_SUPPLY,
        tokens_sold: 0,
        virtual_sol_res: VIRTUAL_SOL_RES,
        virtual_token_res: VIRTUAL_TOKEN_RES,
        real_sol_res: 0,
        real_token_res: TOTAL_SUPPLY,
        funding_goal: FUNDING_GOAL_SOL,
        last_trade_timestamp: 0,
        phase: Phase::Trading,
    }
}

/// The first check a Buy fails on, in the order the engine runs them, or
/// `None` when the whole validation pipeline passes. This is the exact
/// success/failure semantics of `prepare_buy` and `buy`.
pub open spec fn buy_error(
    pre: CurveState,
    paused: bool,
    amount_in: u64,
    min_tokens_out: u64,
    now: u64,
) -> Option<CustomError> {
    if paused {
        Some(CustomError::AlreadyPaused)
    } else if pre.graduated() {
        Some(CustomError::CurveGraduated)
    } else if amount_in == 0 {
        Some(CustomError::ZeroAmount)
    } else if amount_in > MAX_BUY {
        Some(CustomError::OverCap)
    } else if now < pre.last_trade_timestamp + COOLDOWN_SECONDS {
        Some(CustomError::RateLimited)
    } else {
        let net_in: int = spec_net_in(amount_in as int);
        let tokens_out: int = spec_tokens_out(
            pre.virtual_sol_res as int,
            pre.virtual_token_res as int,
            net_in,
        );
        if tokens_out == 0 {
            Some(CustomError::ZeroOutput)
        } else if tokens_out < min_tokens_out {
            Some(CustomError::SlippageExceeded)
        } else if tokens_out > pre.virtual_token_res {
            Some(CustomError::InsufficientLiquidity)
        } else if pre.virtual_sol_res + net_in > u64::MAX {
            Some(CustomError::MathOverflow)
        } else if tokens_out > pre.real_token_res {
            Some(CustomError::MathOverflow)
        } else {
            None
        }
    }
}

/// The state a successful Buy of `amount_in` at time `now` commits:
/// constant-product pricing on the fee-excluded input, reserves moved in
/// lockstep, the timestamp advanced, and the graduation latch evaluated on
/// the new virtual external reserve.
pub open spec fn buy_committed(pre: CurveState, amount_in: u64, now: u64) -> CurveState {
    let net_in: int = spec_net_in(amount_in as int);
    let tokens_out: int = spec_tokens_out(
        pre.virtual_sol_res as int,
        pre.virtual_token_res as int,
        net_in,
    );
    CurveState {
        creator: pre.creator,
        token_mint: pre.token_mint,
        total_supply: pre.total_supply,
        tokens_sold: (pre.tokens_sold + tokens_out) as u64,
        virtual_sol_res: (pre.virtual_sol_res + net_in) as u64,
        virtual_token_res: (pre.virtual_token_res - tokens_out) as u64,
        real_sol_res: (pre.real_sol_res + net_in) as u64,
        real_token_res: (pre.real_token_res - tokens_out) as u64,
        funding_goal: pre.funding_goal,
        last_trade_timestamp: now,
        phase: if pre.virtual_sol_res + net_in >= pre.funding_goal {
            Phase::Graduated
        } else {
            pre.phase
        },
    }
}

/// A validated Buy, staged but not yet committed: the transfers the host must
/// execute and the exact state to commit once all of them succeeded.
#[derive(Clone, Copy, Debug, PartialEq, Eq)]
pub struct BuyPlan {
    /// Fee to transfer from the buyer to the fee recipient.
    pub fee: u64,
    /// Fee-excluded amount to transfer from the buyer into curve custody.
    pub amount_invested: u64,
    /// Tokens to transfer from curve custody to the buyer.
    pub tokens_out: u64,
    /// Whether committing this trade fires the graduation latch.
    pub graduates: bool,
    /// The complete state to commit.
    pub next: CurveState,
}

/// Emitted once, when a Buy pushes the curve to its funding goal.
#[derive(Clone, Copy, Debug, PartialEq, Eq)]
pub struct GraduatedEvent {
    /// Mint of the graduated token.
    pub token_mint: u64,
    /// External asset escrowed with the curve at graduation.
    pub sol_collected: u64,
}

impl CurveState {
    /// Validates a Buy against the config gate's pause flag and the curve's state,
    /// and stages the trade. Nothing is mutated: the caller executes the
    /// plan's transfers and commits `plan.next` only if all of them succeed.
    pub fn prepare_buy(&self, paused: bool, amount_in: u64, min_tokens_out: u64, now: u64) -> (r:
        Result<BuyPlan, CustomError>)
        requires
            self.wf(),
        ensures
            match r {
                Ok(plan) => {
                    &&& buy_error(*self, paused, amount_in, min_tokens_out, now) is None
                    &&& plan.fee == spec_fee(amount_in as int)
                    &&& plan.amount_invested == spec_net_in(amount_in as int)
                    &&& plan.tokens_out == spec_tokens_out(
                        self.virtual_sol_res as int,
                        self.virtual_token_res as int,
                        spec_net_in(amount_in as int),
                    )
                    &&& plan.next == buy_committed(*self, amount_in, now)
                    &&& plan.graduates == plan.next.graduated()
                    &&& plan.next.wf()
                },
                Err(e) => buy_error(*self, paused, amount_in, min_tokens_out, now) == Some(e),
            },
    {
        if paused {
            return Err(CustomError::AlreadyPaused);
        }
        if self.is_graduated() {
            return Err(CustomError::CurveGraduated);
        }
        if amount_in == 0 {
            return Err(CustomError::ZeroAmount);
        }
        if amount_in > MAX_BUY {
            return Err(CustomError::OverCap);
        }
        if (now as u128) < (self.last_trade_timestamp as u128) + (COOLDOWN_SECONDS as u128) {
            return Err(CustomError::RateLimited);
        }
        let fee128: u128 = (amount_in as u128) * (FEE_BPS as u128) / (BPS_DENOMINATOR as u128);
        proof {
            lemma_fee_bounds(amount_in as int);
        }
        let fee: u64 = fee128 as u64;
        let net_in: u64 = amount_in - fee;
        let denom: u128 = (self.virtual_sol_res as u128) + (net_in as u128);
        proof {
            lemma_u64_mul_fits_u128(self.virtual_token_res as int, net_in as int);
        }
        let tokens_out128: u128 = (self.virtual_token_res as u128) * (net_in as u128) / denom;
        if tokens_out128 == 0 {
            return Err(CustomError::ZeroOutput);
        }
        if tokens_out128 < (min_tokens_out as u128) {
            return Err(CustomError::SlippageExceeded);
        }
        if tokens_out128 > (self.virtual_token_res as u128) {
            return Err(CustomError::InsufficientLiquidity);
        }
        let tokens_out: u64 = tokens_out128 as u64;
        if net_in > u64::MAX - self.virtual_sol_res {
            return Err(CustomError::MathOverflow);
        }
        if tokens_out > self.real_token_res {
            return Err(CustomError::MathOverflow);
        }
        let new_virtual_sol: u64 = self.virtual_sol_res + net_in;
        let graduates: bool = new_virtual_sol >= self.funding_goal;
        let next = CurveState {
            creator: self.creator,
            token_mint: self.token_mint,
            total_supply: self.total_supply,
            tokens_sold: self.tokens_sold + tokens_out,
            virtual_sol_res: new_virtual_sol,
            virtual_token_res: self.virtual_token_res - tokens_out,
            real_sol_res: self.real_sol_res + net_in,
            real_token_res: self.real_token_res - tokens_out,
            funding_goal: self.funding_goal,
            last_trade_timestamp: now,
            phase: if graduates {
                Phase::Graduated
            } else {
                self.phase
            },
        };
        Ok(BuyPlan { fee, amount_invested: net_in, tokens_out, graduates, next })
    }

    /// The single commit point of the staged-transaction pattern: replaces
    /// the state with a fully computed next state, atomically from the
    /// engine's point of view. Called once, after every external transfer of
    /// the plan succeeded.
    pub fn commit(&mut self, next: CurveState)
        ensures
            *final(self) == next,
    {
        *self = next;
    }
}

/// The first check a Sell fails on, in the order the engine runs them, or
/// `None` when the whole validation pipeline passes. This is the exact
/// success/failure semantics of `prepare_sell` and `sell`.
pub open spec fn sell_error(
    pre: CurveState,
    paused: bool,
    tokens_in: u64,
    min_sol_out: u64,
    now: u64,
) -> Option<CustomError> {
    if paused {
        Some(CustomError::AlreadyPaused)
    } else if pre.graduated() {
        Some(CustomError::CurveGraduated)
    } else if tokens_in == 0 {
        Some(CustomError::ZeroAmount)
    } else if now < pre.last_trade_timestamp + COOLDOWN_SECONDS {
        Some(CustomError::RateLimited)
    } else {
        let gross_out: int = spec_gross_out(
            pre.virtual_sol_res as int,
            pre.virtual_token_res as int,
            tokens_in as int,
        );
        let net_out: int = gross_out - spec_fee(gross_out);
        if net_out == 0 {
            Some(CustomError::ZeroOutput)
        } else if net_out < min_sol_out {
            Some(CustomError::SlippageExceeded)
        } else if pre.virtual_token_res + tokens_in > u64::MAX {
            Some(CustomError::MathOverflow)
        } else if gross_out > pre.real_sol_res {
            Some(CustomError::InsufficientLiquidity)
        } else if tokens_in > pre.tokens_sold {
            Some(CustomError::InsufficientLiquidity)
        } else {
            None
        }
    }
}

/// The state a successful Sell of `tokens_in` at time `now` commits: the
/// mirror of a Buy, with the whole gross output (fee included) leaving the
/// external reserves and no graduation check.
pub open spec fn sell_committed(pre: CurveState, tokens_in: u64, now: u64) -> CurveState {
    let gross_out: int = spec_gross_out(
        pre.virtual_sol_res as int,
        pre.virtual_token_res as int,
        tokens_in as int,
    );
    CurveState {
        creator: pre.creator,
        token_mint: pre.token_mint,
        total_supply: pre.total_supply,
        tokens_sold: (pre.tokens_sold - tokens_in) as u64,
        virtual_sol_res: (pre.virtual_sol_res - gross_out) as u64,
        virtual_token_res: (pre.virtual_token_res + tokens_in) as u64,
        real_sol_res: (pre.real_sol_res - gross_out) as u64,
        real_token_res: (pre.real_token_res + tokens_in) as u64,
        funding_goal: pre.funding_goal,
        last_trade_timestamp: now,
        phase: pre.phase,
    }
}

/// A validated Sell, staged but not yet committed.
#[derive(Clone, Copy, Debug, PartialEq, Eq)]
pub struct SellPlan {
    /// Gross external asset the swap frees from the curve's reserves.
    pub gross_out: u64,
    /// Fee to transfer from curve custody to the fee recipient.
    pub fee: u64,
    /// Fee-excluded amount to transfer from curve custody to the seller.
    pub net_out: u64,
    /// The complete state to commit.
    pub next: CurveState,
}

impl CurveState {
    /// Validates a Sell and stages the trade, the mirror of `prepare_buy`:
    /// tokens come back into custody, the gross output leaves the external
    /// reserves, and the fee is carved out of the seller's proceeds.
    pub fn prepare_sell(&self, paused: bool, tokens_in: u64, min_sol_out: u64, now: u64) -> (r:
        Result<SellPlan, CustomError>)
        requires
            self.wf(),
        ensures
            match r {
                Ok(plan) => {
                    &&& sell_error(*self, paused, tokens_in, min_sol_out, now) is None
                    &&& plan.gross_out == spec_gross_out(
                        self.virtual_sol_res as int,
                        self.virtual_token_res as int,
                        tokens_in as int,
                    )
                    &&& plan.fee == spec_fee(plan.gross_out as int)
                    &&& plan.net_out == plan.gross_out - plan.fee
                    &&& plan.next == sell_committed(*self, tokens_in, now)
                    &&& plan.next.wf()
                },
                Err(e) => sell_error(*self, paused, tokens_in, min_sol_out, now) == Some(e),
            },
    {
        if paused {
            return Err(CustomError::AlreadyPaused);
        }
        if self.is_graduated() {
            return Err(CustomError::CurveGraduated);
        }
        if tokens_in == 0 {
            return Err(CustomError::ZeroAmount);
        }
        if (now as u128) < (self.last_trade_timestamp as u128) + (COOLDOWN_SECONDS as u128) {
            return Err(CustomError::RateLimited);
        }
        proof {
            lemma_u64_mul_fits_u128(self.virtual_sol_res as int, tokens_in as int);
        }
        let denom: u128 = (self.virtual_token_res as u128) + (tokens_in as u128);
        let gross128: u128 = (self.virtual_sol_res as u128) * (tokens_in as u128) / denom;
        proof {
            lemma_swap_output_bounded(
                self.virtual_sol_res as int,
                self.virtual_token_res as int,
                tokens_in as int,
            );
        }
        let fee128: u128 = gross128 * (FEE_BPS as u128) / (BPS_DENOMINATOR as u128);
        proof {
            if gross128 >= 1 {
                lemma_fee_bounds(gross128 as int);
            }
        }
        let net128: u128 = gross128 - fee128;
        if net128 == 0 {
            return Err(CustomError::ZeroOutput);
        }
        if net128 < (min_sol_out as u128) {
            return Err(CustomError::SlippageExceeded);
        }
        if tokens_in > u64::MAX - self.virtual_token_res {
            return Err(CustomError::MathOverflow);
        }
        if gross128 > (self.real_sol_res as u128) {
            return Err(CustomError::InsufficientLiquidity);
        }
        if tokens_in > self.tokens_sold {
            return Err(CustomError::InsufficientLiquidity);
        }
        let gross_out: u64 = gross128 as u64;
        let fee: u64 = fee128 as u64;
        let net_out: u64 = gross_out - fee;
        let next = CurveState {
            creator: self.creator,
            token_mint: self.token_mint,
            total_supply: self.total_supply,
            tokens_sold: self.tokens_sold - tokens_in,
            virtual_sol_res: self.virtual_sol_res - gross_out,
            virtual_token_res: self.virtual_token_res + tokens_in,
            real_sol_res: self.real_sol_res - gross_out,
            real_token_res: self.real_token_res + tokens_in,
            funding_goal: self.funding_goal,
            last_trade_timestamp: now,
            phase: self.phase,
        };
        Ok(SellPlan { gross_out, fee, net_out, next })
    }
}

/// The notification a successful trade emits, for external monitoring: who
/// traded what, at which fee, and where the virtual reserves now stand. For a
/// Buy, `amount_in` is external asset and `amount_out` tokens; for a Sell the
/// other way round, with `amount_out` the seller's fee-excluded proceeds.
#[derive(Clone, Copy, Debug, PartialEq, Eq)]
pub struct TradeExecuted {
    /// Mint of the traded token.
    pub token_mint: u64,
    /// Identity that traded.
    pub trader: u64,
    /// What the trader put in.
    pub amount_in: u64,
    /// Fee taken on the trade.
    pub fee: u64,
    /// What the trader got out.
    pub amount_out: u64,
    /// Virtual external-asset reserve after the trade.
    pub new_virtual_sol_res: u64,
    /// Virtual token reserve after the trade.
    pub new_virtual_token_res: u64,
    /// Present exactly when this trade fired the graduation latch.
    pub graduated: Option<GraduatedEvent>,
}

impl CurveState {
    /// Buys tokens with `amount_in` of the external asset: `prepare_buy` and
    /// `commit` in one call, for hosts that run the operation as an
    /// all-or-nothing unit. On any failure the state is left untouched; on
    /// success the committed state is exactly `buy_committed` and the
    /// returned notification reports the trade and, at most once in the
    /// curve's life, its graduation.
    pub fn buy(&mut self, paused: bool, trader: u64, amount_in: u64, min_tokens_out: u64, now: u64)
        -> (r: Result<TradeExecuted, CustomError>)
        requires
            old(self).wf(),
        ensures
            final(self).wf(),
            final(self).last_trade_timestamp >= old(self).last_trade_timestamp,
            r is Ok <==> buy_error(*old(self), paused, amount_in, min_tokens_out, now) is None,
            match r {
                Ok(out) => {
                    &&& *final(self) == buy_committed(*old(self), amount_in, now)
                    &&& out.token_mint == old(self).token_mint
                    &&& out.trader == trader
                    &&& out.amount_in == amount_in
                    &&& out.fee == spec_fee(amount_in as int)
                    &&& out.amount_out == spec_tokens_out(
                        old(self).virtual_sol_res as int,
                        old(self).virtual_token_res as int,
                        spec_net_in(amount_in as int),
                    )
                    &&& out.new_virtual_sol_res == final(self).virtual_sol_res
                    &&& out.new_virtual_token_res == final(self).virtual_token_res
                    &&& out.graduated is Some <==> final(self).graduated()
                    &&& out.graduated matches Some(ev) ==> ev == (GraduatedEvent {
                        token_mint: old(self).token_mint,
                        sol_collected: final(self).real_sol_res,
                    })
                },
                Err(e) => {
                    &&& *final(self) == *old(self)
                    &&& buy_error(*old(self), paused, amount_in, min_tokens_out, now) == Some(e)
                },
            },
    {
        let plan = match self.prepare_buy(paused, amount_in, min_tokens_out, now) {
            Ok(plan) => plan,
            Err(e) => {
                return Err(e);
            },
        };
        self.commit(plan.next);
        let graduated: Option<GraduatedEvent> = if plan.graduates {
            Some(GraduatedEvent { token_mint: self.token_mint, sol_collected: self.real_sol_res })
        } else {
            None
        };
        Ok(
            TradeExecuted {
                token_mint: self.token_mint,
                trader,
                amount_in,
                fee: plan.fee,
                amount_out: plan.tokens_out,
                new_virtual_sol_res: self.virtual_sol_res,
                new_virtual_token_res: self.virtual_token_res,
                graduated,
            },
        )
    }

    /// Sells `tokens_in` tokens back to the curve: `prepare_sell` and
    /// `commit` in one call, with the same all-or-nothing contract as `buy`.
    /// Selling never graduates a curve.
    pub fn sell(&mut self, paused: bool, trader: u64, tokens_in: u64, min_sol_out: u64, now: u64)
        -> (r: Result<TradeExecuted, CustomError>)
        requires
            old(self).wf(),
        ensures
            final(self).wf(),
            final(self).last_trade_timestamp >= old(self).last_trade_timestamp,
            final(self).graduated() == old(self).graduated(),
            r is Ok <==> sell_error(*old(self), paused, tokens_in, min_sol_out, now) is None,
            match r {
                Ok(out) => {
                    &&& *final(self) == sell_committed(*old(self), tokens_in, now)
                    &&& out.token_mint == old(self).token_mint
                    &&& out.trader == trader
                    &&& out.amount_in == tokens_in
                    &&& out.fee == spec_fee(
                        spec_gross_out(
                            old(self).virtual_sol_res as int,
                            old(self).virtual_token_res as int,
                            tokens_in as int,
                        ),
                    )
                    &&& out.amount_out == spec_gross_out(
                        old(self).virtual_sol_res as int,
                        old(self).virtual_token_res as int,
                        tokens_in as int,
                    ) - out.fee
                    &&& out.new_virtual_sol_res == final(self).virtual_sol_res
                    &&& out.new_virtual_token_res == final(self).virtual_token_res
                    &&& out.graduated is None
                },
                Err(e) => {
                    &&& *final(self) == *old(self)
                    &&& sell_error(*old(self), paused, tokens_in, min_sol_out, now) == Some(e)
                },
            },
    {
        let plan = match self.prepare_sell(paused, tokens_in, min_sol_out, now) {
            Ok(plan) => plan,
            Err(e) => {
                return Err(e);
            },
        };
        self.commit(plan.next);
        Ok(
            TradeExecuted {
                token_mint: self.token_mint,
                trader,
                amount_in: tokens_in,
                fee: plan.fee,
                amount_out: plan.net_out,
                new_virtual_sol_res: self.virtual_sol_res,
                new_virtual_token_res: self.virtual_token_res,
                graduated: None,
            },
        )
    }
}

impl ConfigGate {
    /// A fresh, unpaused gate owned by `admin`.
    pub fn new(admin: u64, fee_recipient: u64) -> (g: ConfigGate)
        ensures
            g == (ConfigGate { admin, fee_recipient, paused: false }),
    {
        ConfigGate { admin, fee_recipient, paused: false }
    }

    /// Whether curve creation and trading are currently rejected.
    pub fn is_paused(&self) -> (b: bool)
        ensures
            b == self.paused,
    {
        self.paused
    }

    /// Identity the trade fee is paid to.
    pub fn fee_recipient(&self) -> (r: u64)
        ensures
            r == self.fee_recipient,
    {
        self.fee_recipient
    }

    /// Admin-gated pause toggle; any other caller changes nothing.
    pub fn set_paused(&mut self, caller: u64, value: bool) -> (r: Result<(), CustomError>)
        ensures
            r is Ok <==> caller == old(self).admin,
            r is Ok ==> *final(self) == (ConfigGate { paused: value, ..*old(self) }),
            r is Err ==> *final(self) == *old(self) && r == Result::<(), CustomError>::Err(
                CustomError::Unauthorized,
            ),
    {
        if caller != self.admin {
            return Err(CustomError::Unauthorized);
        }
        self.paused = value;
        Ok(())
    }

    /// Admin-gated change of the fee recipient; any other caller changes
    /// nothing.
    pub fn set_fee_recipient(&mut self, caller: u64, fee_recipient: u64) -> (r: Result<
        (),
        CustomError,
    >)
        ensures
            r is Ok <==> caller == old(self).admin,
            r is Ok ==> *final(self) == (ConfigGate { fee_recipient, ..*old(self) }),
            r is Err ==> *final(self) == *old(self) && r == Result::<(), CustomError>::Err(
                CustomError::Unauthorized,
            ),
    {
        if caller != self.admin {
            return Err(CustomError::Unauthorized);
        }
        self.fee_recipient = fee_recipient;
        Ok(())
    }
}

/// A constant-product swap never pays out more than the reserve it draws on:
/// `x * d / (y + d) <= x` whenever the values are non-negative and `d >= 1`.
proof fn lemma_swap_output_bounded(x: int, y: int, d: int)
    requires
        0 <= x,
        0 <= y,
        1 <= d,
    ensures
        0 <= x * d / (y + d) <= x,
{
    assert(0 <= x * d / (y + d) <= x) by (nonlinear_arith)
        requires
            0 <= x,
            0 <= y,
            1 <= d,
    ;
}

/// Constant-product law for Buy: across any successful Buy, the product of
/// the virtual reserves grows by exactly the flooring remainder of the swap
/// division — evaluated on the fee-excluded input, it never decreases, and it
/// is preserved exactly whenever that division is exact.
pub proof fn lemma_buy_constant_product(
    pre: CurveState,
    paused: bool,
    amount_in: u64,
    min_tokens_out: u64,
    now: u64,
)
    requires
        pre.wf(),
        buy_error(pre, paused, amount_in, min_tokens_out, now) is None,
    ensures
        ({
            let net_in = spec_net_in(amount_in as int);
            let post = buy_committed(pre, amount_in, now);
            let k_pre = pre.virtual_sol_res * pre.virtual_token_res;
            let k_post = post.virtual_sol_res * post.virtual_token_res;
            let rem = pre.virtual_token_res * net_in % (pre.virtual_sol_res + net_in);
            &&& k_post == k_pre + rem
            &&& 0 <= rem < pre.virtual_sol_res + net_in
            &&& k_post >= k_pre
            &&& (rem == 0 ==> k_post == k_pre)
        }),
{
    let vsr = pre.virtual_sol_res as int;
    let vtr = pre.virtual_token_res as int;
    lemma_fee_bounds(amount_in as int);
    let net = spec_net_in(amount_in as int);
    let d = vsr + net;
    let x = vtr * net;
    assert(vtr * net >= 0) by (nonlinear_arith)
        requires
            vtr >= 0,
            net >= 0,
    ;
    let q = x / d;
    let r = x % d;
    lemma_fundamental_div_mod(x, d);
    lemma_div_pos_is_pos(x, d);
    lemma_mod_division_less_than_divisor(x, d);
    let post = buy_committed(pre, amount_in, now);
    assert(post.virtual_sol_res == d);
    assert(post.virtual_token_res == vtr - q);
    assert(d * (vtr - q) == vsr * vtr + r) by (nonlinear_arith)
        requires
            x == d * q + r,
            x == vtr * net,
            d == vsr + net,
    ;
}

/// Constant-product law for Sell: the mirror of the Buy law, with the swap
/// division running against the token reserve.
pub proof fn lemma_sell_constant_product(
    pre: CurveState,
    paused: bool,
    tokens_in: u64,
    min_sol_out: u64,
    now: u64,
)
    requires
        pre.wf(),
        sell_error(pre, paused, tokens_in, min_sol_out, now) is None,
    ensures
        ({
            let post = sell_committed(pre, tokens_in, now);
            let k_pre = pre.virtual_sol_res * pre.virtual_token_res;
            let k_post = post.virtual_sol_res * post.virtual_token_res;
            let rem = pre.virtual_sol_res * tokens_in % (pre.virtual_token_res + tokens_in);
            &&& k_post == k_pre + rem
            &&& 0 <= rem < pre.virtual_token_res + tokens_in
            &&& k_post >= k_pre
            &&& (rem == 0 ==> k_post == k_pre)
        }),
{
    let vsr = pre.virtual_sol_res as int;
    let vtr = pre.virtual_token_res as int;
    let tin = tokens_in as int;
    let d = vtr + tin;
    let x = vsr * tin;
    assert(vsr * tin >= 0) by (nonlinear_arith)
        requires
            vsr >= 0,
            tin >= 0,
    ;
    let q = x / d;
    let r = x % d;
    lemma_fundamental_div_mod(x, d);
    lemma_div_pos_is_pos(x, d);
    lemma_mod_division_less_than_divisor(x, d);
    lemma_swap_output_bounded(vsr, vtr, tin);
    let post = sell_committed(pre, tokens_in, now);
    assert(post.virtual_sol_res == vsr - q);
    assert(post.virtual_token_res == d);
    assert((vsr - q) * d == vsr * vtr + r) by (nonlinear_arith)
        requires
            x == d * q + r,
            x == vsr * tin,
            d == vtr + tin,
    ;
}

/// Token conservation: in every well-formed state, the tokens still in curve
/// custody never exceed the fixed supply, and together with the tokens handed
/// out they account for it exactly. Underflows are rejected by the checked
/// updates, never wrapped, so this holds across every operation.
pub proof fn lemma_real_token_reserve_bounded(s: CurveState)
    requires
        s.wf(),
    ensures
        s.real_token_res <= s.total_supply,
        s.real_token_res + s.tokens_sold == s.total_supply,
        s.virtual_token_res <= VIRTUAL_TOKEN_RES,
{
}

/// The graduation latch: once a curve has graduated, every Buy and every
/// Sell fails with `CurveGraduated`, whatever its inputs. (Only the pause
/// flag is checked earlier, and a paused gate rejects trades anyway.)
/// Together with the failure contracts of `buy` and `sell` — a failing call
/// leaves the state untouched — no operation ever leaves the `Graduated`
/// phase.
pub proof fn lemma_graduated_latch(s: CurveState, amount_in: u64, min_out: u64, now: u64)
    requires
        s.graduated(),
    ensures
        buy_error(s, false, amount_in, min_out, now) == Some(CustomError::CurveGraduated),
        sell_error(s, false, amount_in, min_out, now) == Some(CustomError::CurveGraduated),
{
}

/// The input-side fee never reaches the full amount, so the net input of a
/// positive trade stays positive.
proof fn lemma_fee_bounds(amount: int)
    requires
        amount >= 1,
    ensures
        0 <= spec_fee(amount) < amount,
        1 <= spec_net_in(amount) <= amount,
{
    assert(0 <= amount * FEE_BPS / (BPS_DENOMINATOR as int) < amount) by (nonlinear_arith)
        requires
            amount >= 1,
    ;
}

/// A product of two `u64` values fits in a `u128`.
proof fn lemma_u64_mul_fits_u128(x: int, y: int)
    requires
        0 <= x <= u64::MAX,
        0 <= y <= u64::MAX,
    ensures
        0 <= x * y <= u128::MAX,
{
    assert(0 <= x * y <= 0xffffffffffffffff * 0xffffffffffffffff) by (nonlinear_arith)
        requires
            0 <= x <= 0xffffffffffffffff,
            0 <= y <= 0xffffffffffffffff,
    ;
}

/// Creates the curve for `token_mint` from the template constants.
///
/// `paused` is the config gate's pause flag and `exists` whether the host already
/// holds a curve for this mint; both are checked here, in that order, so a
/// caller learns exactly why creation was refused. On success the host must
/// mint `total_supply` tokens into curve custody before the state is used.
pub fn initialize(paused: bool, exists: bool, creator: u64, token_mint: u64) -> (r: Result<
    CurveState,
    CustomError,
>)
    ensures
        r is Ok <==> !paused && !exists,
        r is Ok ==> r->Ok_0 == spec_initial_curve(creator, token_mint),
        r is Ok ==> r->Ok_0.wf() && !r->Ok_0.graduated(),
        paused ==> r == Result::<CurveState, CustomError>::Err(CustomError::AlreadyPaused),
        !paused && exists ==> r == Result::<CurveState, CustomError>::Err(
            CustomError::DuplicateCurve,
        ),
{
    if paused {
        return Err(CustomError::AlreadyPaused);
    }
    if exists {
        return Err(CustomError::DuplicateCurve);
    }
    Ok(
        CurveState {
            creator,
            token_mint,
            total_supply: TOTAL_SUPPLY,
            tokens_sold: 0,
            virtual_sol_res: VIRTUAL_SOL_RES,
            virtual_token_res: VIRTUAL_TOKEN_RES,
            real_sol_res: 0,
            real_token_res: TOTAL_SUPPLY,
            funding_goal: FUNDING_GOAL_SOL,
            last_trade_timestamp: 0,
            phase: Phase::Trading,
        },
    )
}

} // verus!
