use nodara::frame::{DispatchError, Origin};
use nodara::pallets::growth_model::{Config, Error, Event, GenesisConfig, GrowthData, GrowthState, Pallet};

#[test]
fn growth_lib_test_initialize_state() {
    let mut m = Pallet::new(Config { baseline_multiplier: 100, smoothing_factor: 5 });
    assert_eq!(m.initialize_state(Origin::Root), Ok(()));
    assert_eq!(m.state.current_multiplier, 100);
    assert_eq!(m.state.history.len(), 1);
}

#[test]
fn lib_test_update_multiplier() {
    let mut m = Pallet::new(Config { baseline_multiplier: 100, smoothing_factor: 5 });
    assert_eq!(m.initialize_state(Origin::Root), Ok(()));
    assert_eq!(m.update_multiplier(Origin::Signed(1), 50), Ok(()));
    assert_eq!(m.state.current_multiplier, 100 + 10);
    assert_eq!(m.state.history.len(), 2);
}

#[test]
fn test_initialize_growth() {
    let mut m = Pallet::new(Config { baseline_multiplier: 100, smoothing_factor: 10 });
    assert_eq!(m.initialize_state(Origin::Root), Ok(()));
    assert_eq!(m.state.current_multiplier, 100);
}

#[test]
fn tests_test_update_multiplier() {
    let mut m = Pallet::new(Config { baseline_multiplier: 100, smoothing_factor: 10 });
    assert_eq!(m.initialize_state(Origin::Root), Ok(()));
    let baseline = m.state.current_multiplier;
    assert_eq!(m.update_multiplier(Origin::Signed(1), 50), Ok(()));
    assert_eq!(m.state.current_multiplier, baseline.saturating_add(50 / 10));
}

#[test]
fn growth_errors_change_nothing() {
    let mut m = Pallet::new(Config { baseline_multiplier: 100, smoothing_factor: 10 });
    assert_eq!(m.initialize_state(Origin::Root), Ok(()));
    let before = m.clone();
    assert_eq!(m.update_multiplier(Origin::Signed(1), 0), Err(DispatchError::Module(Error::InvalidSignal)));
    assert_eq!(m.update_multiplier(Origin::Unsigned, 5), Err(DispatchError::BadOrigin));
    assert_eq!(m.initialize_state(Origin::Signed(2)), Err(DispatchError::BadOrigin));
    assert_eq!(m, before);
    let mut z = Pallet::new(Config { baseline_multiplier: 1, smoothing_factor: 0 });
    assert_eq!(z.update_multiplier(Origin::Signed(1), 5), Err(DispatchError::Module(Error::ZeroSmoothingFactor)));
}

#[test]
fn growth_saturates_and_logs() {
    let mut m = Pallet::new(Config { baseline_multiplier: u32::MAX - 1, smoothing_factor: 1 });
    m.set_block_number(3);
    assert_eq!(m.initialize_state(Origin::Root), Ok(()));
    assert_eq!(m.update_multiplier(Origin::Signed(1), 10), Ok(()));
    assert_eq!(m.state.current_multiplier, u32::MAX);
    assert_eq!(m.state.history.last(), Some(&GrowthData { multiplier: u32::MAX, signal: 10, timestamp: 3 }));
    assert_eq!(m.events, vec![Event::GrowthMultiplierUpdated(u32::MAX - 1, u32::MAX, 10)]);
}

#[test]
fn growth_genesis() {
    let c = Config { baseline_multiplier: 7, smoothing_factor: 2 };
    let m = GenesisConfig::default().build(c);
    assert_eq!(m.state.current_multiplier, 7);
    assert_eq!(m.state.history, vec![GrowthData { multiplier: 7, signal: 0, timestamp: 0 }]);
    let given = GrowthState { current_multiplier: 9, history: vec![] };
    let m = GenesisConfig { growth_state: Some(given.clone()) }.build(c);
    assert_eq!(m.state, given);
}
