use nodara::frame::{DispatchError, Origin};
use nodara::pallets::liquidity_flow::{Config, Error, Event, GenesisConfig, LiquidityRecord, Pallet};

fn module() -> Pallet {
    Pallet::new(Config { baseline_liquidity: 1000, smoothing_factor: 10 })
}

#[test]
fn liquidity_lib_test_initialize_state() {
    let mut m = module();
    assert_eq!(m.initialize_state(Origin::Root), Ok(()));
    assert_eq!(m.state.current_level, 1000);
    assert_eq!(m.state.history.len(), 1);
    assert_eq!(m.state.history[0].new_level, 1000);
}

#[test]
fn lib_test_update_liquidity() {
    let mut m = module();
    assert_eq!(m.initialize_state(Origin::Root), Ok(()));
    let initial_level = m.state.current_level;
    assert_eq!(m.update_liquidity(Origin::Signed(1), 50), Ok(()));
    assert_eq!(m.state.current_level, initial_level + 5);
    assert_eq!(m.state.history.len(), 2);
}

#[test]
fn test_update_liquidity_fail_invalid_adjustment() {
    let mut m = module();
    assert_eq!(m.update_liquidity(Origin::Signed(1), 0), Err(DispatchError::Module(Error::InvalidAdjustmentMetric)));
}

#[test]
fn test_initialize_liquidity() {
    let mut m = module();
    assert_eq!(m.initialize_state(Origin::Root), Ok(()));
    assert_eq!(m.state.current_level, 1000);
}

#[test]
fn tests_test_update_liquidity() {
    let mut m = module();
    assert_eq!(m.initialize_state(Origin::Root), Ok(()));
    let baseline = m.state.current_level;
    assert_eq!(m.update_liquidity(Origin::Signed(1), 100), Ok(()));
    assert_eq!(m.state.current_level, baseline.saturating_add(100 / 10));
}

#[test]
fn liquidity_logs_each_adjustment() {
    let mut m = module();
    m.set_block_number(8);
    assert_eq!(m.initialize_state(Origin::Root), Ok(()));
    assert_eq!(m.update_liquidity(Origin::Signed(2), 9), Ok(()));
    assert_eq!(
        m.state.history.last(),
        Some(&LiquidityRecord { timestamp: 8, previous_level: 1000, new_level: 1000, adjustment_metric: 9 })
    );
    assert_eq!(m.events.last(), Some(&Event::LiquidityUpdated(1000, 1000, 9)));
    assert_eq!(m.update_liquidity(Origin::Root, 9), Err(DispatchError::BadOrigin));
    let mut z = Pallet::new(Config { baseline_liquidity: 1, smoothing_factor: 0 });
    assert_eq!(z.update_liquidity(Origin::Signed(1), 9), Err(DispatchError::Module(Error::ZeroSmoothingFactor)));
    let g = GenesisConfig::default().build(Config { baseline_liquidity: 4, smoothing_factor: 1 });
    assert_eq!(g.state.current_level, 4);
}
