use fair_launch::pool::initialize;
use fair_launch::pool::CustomError;
use fair_launch::pool::PoolState;
use fair_launch::pool::PositionState;
use fair_launch::pool::MAX_LEVERAGE;

#[test]
fn pool_initialize_sets_fields() {
    let p = initialize(1, 3000);
    assert_eq!(p, PoolState { admin: 1, total_liquidity: 0, admin_fee_bps: 3000 });
}

#[test]
fn set_max_oi_is_admin_only() {
    let p = initialize(1, 3000);
    assert_eq!(p.set_max_oi(1, 500_000), Ok(500_000));
    assert_eq!(p.set_max_oi(2, 500_000), Err(CustomError::Unauthorized));
}

#[test]
fn add_liquidity_accumulates() {
    let mut p = initialize(1, 3000);
    p.add_liquidity(250_000);
    assert_eq!(p.total_liquidity, 250_000);
    p.add_liquidity(750_000);
    assert_eq!(p.total_liquidity, 1_000_000);
    assert_eq!(p.admin, 1);
    assert_eq!(p.admin_fee_bps, 3000);
}

#[test]
fn open_position_records_exact_fields() {
    let p = initialize(1, 3000);
    let pos = p
        .open_position(9, String::from("SOL-USD"), true, 1_000, MAX_LEVERAGE, 17_500, 1_700_000_000)
        .unwrap();
    assert_eq!(
        pos,
        PositionState {
            trader: 9,
            market_id: String::from("SOL-USD"),
            is_long: true,
            size: 50_000,
            collateral: 1_000,
            entry_price: 17_500,
            timestamp: 1_700_000_000,
        }
    );
}

#[test]
fn open_position_rejects_excess_leverage() {
    let p = initialize(1, 3000);
    let r = p.open_position(9, String::from("SOL-USD"), false, 1_000, MAX_LEVERAGE + 1, 17_500, 0);
    assert_eq!(r, Err(CustomError::MaxLeverageExceeded));
}
