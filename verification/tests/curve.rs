use fair_launch::curve::initialize;
use fair_launch::curve::ConfigGate;
use fair_launch::curve::CurveState;
use fair_launch::curve::CustomError;
use fair_launch::curve::Phase;
use fair_launch::curve::COOLDOWN_SECONDS;
use fair_launch::curve::FUNDING_GOAL_SOL;
use fair_launch::curve::MAX_BUY;
use fair_launch::curve::TOTAL_SUPPLY;
use fair_launch::curve::VIRTUAL_SOL_RES;
use fair_launch::curve::VIRTUAL_TOKEN_RES;

fn fresh_curve() -> CurveState {
    initialize(false, false, 7, 42).unwrap()
}

#[test]
fn initialize_sets_template_constants() {
    let s = fresh_curve();
    assert_eq!(s.creator, 7);
    assert_eq!(s.token_mint, 42);
    assert_eq!(s.total_supply, TOTAL_SUPPLY);
    assert_eq!(s.tokens_sold, 0);
    assert_eq!(s.virtual_sol_res, 30_000_000_000);
    assert_eq!(s.virtual_token_res, 1_073_000_000_000_000);
    assert_eq!(s.real_sol_res, 0);
    assert_eq!(s.real_token_res, TOTAL_SUPPLY);
    assert_eq!(s.funding_goal, FUNDING_GOAL_SOL);
    assert_eq!(s.last_trade_timestamp, 0);
    assert_eq!(s.phase, Phase::Trading);
    assert!(!s.is_graduated());
}

#[test]
fn initialize_rejected_when_paused() {
    assert_eq!(initialize(true, false, 7, 42), Err(CustomError::AlreadyPaused));
    assert_eq!(initialize(true, true, 7, 42), Err(CustomError::AlreadyPaused));
}

#[test]
fn initialize_rejects_duplicate() {
    assert_eq!(initialize(false, true, 7, 42), Err(CustomError::DuplicateCurve));
}

#[test]
fn buy_one_sol_exact_amounts() {
    let mut s = fresh_curve();
    let out = s.buy(false, 9, 1_000_000_000, 0, 10).unwrap();
    assert_eq!(out.fee, 10_000_000);
    assert_eq!(out.amount_in, 1_000_000_000);
    assert_eq!(out.amount_out, 34_277_831_558_567);
    assert_eq!(out.trader, 9);
    assert_eq!(out.token_mint, 42);
    assert_eq!(s.virtual_sol_res, 30_990_000_000);
    assert_eq!(s.virtual_token_res, 1_038_722_168_441_433);
    assert_eq!(s.real_sol_res, 990_000_000);
    assert_eq!(s.real_token_res, 965_722_168_441_433);
    assert_eq!(s.tokens_sold, 34_277_831_558_567);
    assert_eq!(s.last_trade_timestamp, 10);
    assert_eq!(out.new_virtual_sol_res, s.virtual_sol_res);
    assert_eq!(out.new_virtual_token_res, s.virtual_token_res);
    assert!(out.graduated.is_none());
    assert!(!s.is_graduated());
}

#[test]
fn buy_one_lamport_pays_no_fee_and_still_outputs() {
    let mut s = fresh_curve();
    let out = s.buy(false, 9, 1, 0, 10).unwrap();
    assert_eq!(out.fee, 0);
    assert_eq!(out.amount_out, 35_766);
    assert_eq!(s.virtual_sol_res, 30_000_000_001);
    assert_eq!(s.real_sol_res, 1);
}

#[test]
fn buy_constant_product_grows_by_division_remainder() {
    let mut s = fresh_curve();
    let k_pre = (s.virtual_sol_res as u128) * (s.virtual_token_res as u128);
    let net_in: u128 = 990_000_000;
    let rem = (s.virtual_token_res as u128) * net_in % ((s.virtual_sol_res as u128) + net_in);
    s.buy(false, 9, 1_000_000_000, 0, 10).unwrap();
    let k_post = (s.virtual_sol_res as u128) * (s.virtual_token_res as u128);
    assert_eq!(k_post, k_pre + rem);
    assert_eq!(rem, 8_670_000_000);
    assert!(k_post >= k_pre);
}

#[test]
fn rate_limit_two_buys_two_seconds_apart() {
    let mut s = fresh_curve();
    s.buy(false, 9, 1_000_000_000, 0, 10).unwrap();
    let snapshot = s;
    let r = s.buy(false, 9, 1_000_000_000, 0, 12);
    assert_eq!(r, Err(CustomError::RateLimited));
    assert_eq!(s, snapshot);
}

#[test]
fn rate_limit_two_buys_six_seconds_apart() {
    let mut s = fresh_curve();
    assert!(s.buy(false, 9, 1_000_000_000, 0, 10).is_ok());
    assert!(s.buy(false, 9, 1_000_000_000, 0, 16).is_ok());
    assert_eq!(s.last_trade_timestamp, 16);
}

#[test]
fn buy_over_anti_whale_cap_rejected() {
    let mut s = fresh_curve();
    let snapshot = s;
    let r = s.buy(false, 9, MAX_BUY + 1, 0, 10);
    assert_eq!(r, Err(CustomError::OverCap));
    assert_eq!(s, snapshot);
    assert!(s.buy(false, 9, MAX_BUY, 0, 10).is_ok());
}

#[test]
fn buy_zero_amount_rejected() {
    let mut s = fresh_curve();
    let snapshot = s;
    assert_eq!(s.buy(false, 9, 0, 0, 10), Err(CustomError::ZeroAmount));
    assert_eq!(s, snapshot);
}

#[test]
fn sell_zero_amount_rejected() {
    let mut s = fresh_curve();
    let snapshot = s;
    assert_eq!(s.sell(false, 9, 0, 0, 10), Err(CustomError::ZeroAmount));
    assert_eq!(s, snapshot);
}

#[test]
fn trading_rejected_while_paused() {
    let mut s = fresh_curve();
    let snapshot = s;
    assert_eq!(s.buy(true, 9, 1_000_000_000, 0, 10), Err(CustomError::AlreadyPaused));
    assert_eq!(s.sell(true, 9, 1_000_000_000, 0, 10), Err(CustomError::AlreadyPaused));
    assert_eq!(s, snapshot);
}

#[test]
fn buy_slippage_floor_enforced() {
    let mut s = fresh_curve();
    let snapshot = s;
    let r = s.buy(false, 9, 1_000_000_000, 34_277_831_558_568, 10);
    assert_eq!(r, Err(CustomError::SlippageExceeded));
    assert_eq!(s, snapshot);
    assert!(s.buy(false, 9, 1_000_000_000, 34_277_831_558_567, 10).is_ok());
}

#[test]
fn sell_after_buy_exact_amounts() {
    let mut s = fresh_curve();
    s.buy(false, 9, 1_000_000_000, 0, 10).unwrap();
    let out = s.sell(false, 9, 1_000_000_000_000, 0, 20).unwrap();
    assert_eq!(out.amount_in, 1_000_000_000_000);
    assert_eq!(out.fee, 298_060);
    assert_eq!(out.amount_out, 29_507_979);
    assert!(out.graduated.is_none());
    assert_eq!(s.virtual_sol_res, 30_960_193_961);
    assert_eq!(s.virtual_token_res, 1_039_722_168_441_433);
    assert_eq!(s.real_sol_res, 960_193_961);
    assert_eq!(s.real_token_res, 966_722_168_441_433);
    assert_eq!(s.tokens_sold, 33_277_831_558_567);
    assert_eq!(s.last_trade_timestamp, 20);
}

#[test]
fn sell_slippage_floor_enforced() {
    let mut s = fresh_curve();
    s.buy(false, 9, 1_000_000_000, 0, 10).unwrap();
    let snapshot = s;
    let r = s.sell(false, 9, 1_000_000_000_000, 29_507_980, 20);
    assert_eq!(r, Err(CustomError::SlippageExceeded));
    assert_eq!(s, snapshot);
}

#[test]
fn rate_limit_applies_to_sells_too() {
    let mut s = fresh_curve();
    s.buy(false, 9, 1_000_000_000, 0, 10).unwrap();
    let snapshot = s;
    let r = s.sell(false, 9, 1_000_000_000_000, 0, 13);
    assert_eq!(r, Err(CustomError::RateLimited));
    assert_eq!(s, snapshot);
    assert!(s.sell(false, 9, 1_000_000_000_000, 0, 15).is_ok());
}

#[test]
fn sell_dust_yields_zero_output() {
    let mut s = fresh_curve();
    let snapshot = s;
    let r = s.sell(false, 9, 1, 0, 10);
    assert_eq!(r, Err(CustomError::ZeroOutput));
    assert_eq!(s, snapshot);
}

#[test]
fn token_conservation_across_trades() {
    let mut s = fresh_curve();
    s.buy(false, 9, 1_000_000_000, 0, 10).unwrap();
    assert_eq!(s.real_token_res as u128 + s.tokens_sold as u128, s.total_supply as u128);
    assert!(s.real_token_res <= s.total_supply);
    s.sell(false, 9, 1_000_000_000_000, 0, 20).unwrap();
    assert_eq!(s.real_token_res as u128 + s.tokens_sold as u128, s.total_supply as u128);
    assert!(s.real_token_res <= s.total_supply);
}

#[test]
fn timestamp_non_decreasing_across_trades() {
    let mut s = fresh_curve();
    let mut last = s.last_trade_timestamp;
    s.buy(false, 9, 1_000_000_000, 0, 10).unwrap();
    assert!(s.last_trade_timestamp >= last);
    last = s.last_trade_timestamp;
    let _ = s.buy(false, 9, 1_000_000_000, 0, 12);
    assert!(s.last_trade_timestamp >= last);
    last = s.last_trade_timestamp;
    s.sell(false, 9, 1_000_000_000_000, 0, 30).unwrap();
    assert!(s.last_trade_timestamp >= last);
}

#[test]
fn graduation_fires_once_and_latches() {
    let mut s = fresh_curve();
    let first = s.buy(false, 9, MAX_BUY, 0, 10).unwrap();
    assert!(first.graduated.is_none());
    assert!(!s.is_graduated());
    assert_eq!(s.virtual_sol_res, 79_500_000_000);

    let second = s.buy(false, 9, MAX_BUY, 0, 15).unwrap();
    assert!(s.is_graduated());
    assert_eq!(s.phase, Phase::Graduated);
    assert_eq!(s.virtual_sol_res, 129_000_000_000);
    assert!(s.virtual_sol_res >= FUNDING_GOAL_SOL);
    let event = second.graduated.expect("the goal-crossing buy must emit the event");
    assert_eq!(event.token_mint, 42);
    assert_eq!(event.sol_collected, 99_000_000_000);
    assert_eq!(event.sol_collected, s.real_sol_res);

    let snapshot = s;
    assert_eq!(
        s.buy(false, 9, 1_000_000_000, 0, 15 + COOLDOWN_SECONDS),
        Err(CustomError::CurveGraduated)
    );
    assert_eq!(
        s.sell(false, 9, 1_000_000_000, 0, 15 + COOLDOWN_SECONDS),
        Err(CustomError::CurveGraduated)
    );
    assert_eq!(s, snapshot);
}

#[test]
fn buy_reserve_overflow_fails_closed() {
    let mut s = CurveState {
        creator: 7,
        token_mint: 42,
        total_supply: TOTAL_SUPPLY,
        tokens_sold: 0,
        virtual_sol_res: u64::MAX,
        virtual_token_res: TOTAL_SUPPLY + (VIRTUAL_TOKEN_RES - TOTAL_SUPPLY),
        real_sol_res: u64::MAX - VIRTUAL_SOL_RES,
        real_token_res: TOTAL_SUPPLY,
        funding_goal: u64::MAX,
        last_trade_timestamp: 0,
        phase: Phase::Trading,
    };
    let snapshot = s;
    let r = s.buy(false, 9, 1_000_000_000, 0, 10);
    assert_eq!(r, Err(CustomError::MathOverflow));
    assert_eq!(s, snapshot);
}

#[test]
fn buy_with_empty_custody_fails_closed() {
    let mut s = CurveState {
        creator: 7,
        token_mint: 42,
        total_supply: TOTAL_SUPPLY,
        tokens_sold: TOTAL_SUPPLY,
        virtual_sol_res: VIRTUAL_SOL_RES,
        virtual_token_res: VIRTUAL_TOKEN_RES - TOTAL_SUPPLY,
        real_sol_res: 0,
        real_token_res: 0,
        funding_goal: FUNDING_GOAL_SOL,
        last_trade_timestamp: 0,
        phase: Phase::Trading,
    };
    let snapshot = s;
    let r = s.buy(false, 9, 1_000_000_000, 0, 10);
    assert_eq!(r, Err(CustomError::MathOverflow));
    assert_eq!(s, snapshot);
}

#[test]
fn sell_beyond_escrow_fails_closed() {
    let mut s = CurveState {
        creator: 7,
        token_mint: 42,
        total_supply: TOTAL_SUPPLY,
        tokens_sold: 995_000_000_000_000,
        virtual_sol_res: VIRTUAL_SOL_RES,
        virtual_token_res: 5_000_000_000_000 + (VIRTUAL_TOKEN_RES - TOTAL_SUPPLY),
        real_sol_res: 0,
        real_token_res: 5_000_000_000_000,
        funding_goal: FUNDING_GOAL_SOL,
        last_trade_timestamp: 0,
        phase: Phase::Trading,
    };
    let snapshot = s;
    let r = s.sell(false, 9, 1_000_000_000_000, 0, 10);
    assert_eq!(r, Err(CustomError::InsufficientLiquidity));
    assert_eq!(s, snapshot);
}

#[test]
fn staged_buy_commits_only_on_request() {
    let mut s = fresh_curve();
    let snapshot = s;
    let plan = s.prepare_buy(false, 1_000_000_000, 0, 10).unwrap();
    assert_eq!(s, snapshot);
    assert_eq!(plan.fee, 10_000_000);
    assert_eq!(plan.amount_invested, 990_000_000);
    assert_eq!(plan.tokens_out, 34_277_831_558_567);
    assert!(!plan.graduates);
    s.commit(plan.next);
    assert_eq!(s.virtual_sol_res, 30_990_000_000);
    assert_eq!(s.virtual_token_res, 1_038_722_168_441_433);
}

#[test]
fn staged_sell_commits_only_on_request() {
    let mut s = fresh_curve();
    s.buy(false, 9, 1_000_000_000, 0, 10).unwrap();
    let snapshot = s;
    let plan = s.prepare_sell(false, 1_000_000_000_000, 0, 20).unwrap();
    assert_eq!(s, snapshot);
    assert_eq!(plan.gross_out, 29_806_039);
    assert_eq!(plan.fee, 298_060);
    assert_eq!(plan.net_out, 29_507_979);
    s.commit(plan.next);
    assert_eq!(s.virtual_sol_res, 30_960_193_961);
    assert_eq!(s.real_sol_res, 960_193_961);
}

#[test]
fn gate_pause_is_admin_only() {
    let mut g = ConfigGate::new(1, 2);
    assert!(!g.is_paused());
    assert_eq!(g.fee_recipient(), 2);
    assert_eq!(g.set_paused(3, true), Err(CustomError::Unauthorized));
    assert!(!g.is_paused());
    assert_eq!(g.set_paused(1, true), Ok(()));
    assert!(g.is_paused());
    assert_eq!(initialize(g.is_paused(), false, 7, 42), Err(CustomError::AlreadyPaused));
    assert_eq!(g.set_paused(1, false), Ok(()));
    assert!(!g.is_paused());
}

#[test]
fn gate_fee_recipient_is_admin_only() {
    let mut g = ConfigGate::new(1, 2);
    assert_eq!(g.set_fee_recipient(3, 4), Err(CustomError::Unauthorized));
    assert_eq!(g.fee_recipient(), 2);
    assert_eq!(g.set_fee_recipient(1, 4), Ok(()));
    assert_eq!(g.fee_recipient(), 4);
}
