use nodara::frame::{DispatchError, Origin};
use nodara::pallets::aura;
use nodara::pallets::risk_management;
use nodara::pallets::stability_guard::{Config, Error, Event, Pallet, StabilityRecord};

fn stability() -> Pallet {
    Pallet::new(Config { baseline_parameter: 100, smoothing_factor: 10, max_stability_parameter: 150, min_stability_parameter: 50 })
}

#[test]
fn stability_parameter_follows_the_average_within_bounds() {
    let mut m = stability();
    assert_eq!(m.initialize_state(Origin::Root), Ok(()));
    assert_eq!(m.update_parameter(Origin::Signed(1), 30), Ok(()));
    assert_eq!(m.state.volatility_ema, 30);
    assert_eq!(m.state.current_parameter, 130);
    // (100 + 9 * 30) / 10 = 37: the average rises by 7.
    assert_eq!(m.update_parameter(Origin::Signed(1), 100), Ok(()));
    assert_eq!(m.state.volatility_ema, 37);
    assert_eq!(m.state.current_parameter, 137);
    // (10 + 9 * 37) / 10 = 34: the average falls by 3, and so does the parameter.
    assert_eq!(m.update_parameter(Origin::Signed(1), 10), Ok(()));
    assert_eq!(m.state.volatility_ema, 34);
    assert_eq!(m.state.current_parameter, 134);
    assert_eq!(m.update_parameter(Origin::Signed(1), 1000), Ok(()));
    assert_eq!(m.state.current_parameter, 150);
    assert_eq!(m.state.history.len(), 5);
    assert_eq!(
        m.state.history[1],
        StabilityRecord { timestamp: 0, old_parameter: 100, new_parameter: 130, volatility: 30, new_ema: 30 }
    );
    assert_eq!(m.events[0], Event::StabilityParameterUpdated(100, 130, 30, 30));
}

#[test]
fn stability_errors() {
    let mut m = stability();
    assert_eq!(m.initialize_state(Origin::Signed(1)), Err(DispatchError::BadOrigin));
    assert_eq!(m.update_parameter(Origin::Signed(1), 0), Err(DispatchError::Module(Error::InvalidVolatility)));
    assert_eq!(m.update_parameter(Origin::Root, 5), Err(DispatchError::BadOrigin));
    let mut z = Pallet::new(Config { baseline_parameter: 1, smoothing_factor: 0, max_stability_parameter: 9, min_stability_parameter: 0 });
    assert_eq!(z.update_parameter(Origin::Signed(1), 5), Err(DispatchError::Module(Error::ZeroSmoothingFactor)));
}

#[test]
fn falling_average_lowers_the_parameter() {
    let mut m = Pallet::new(Config { baseline_parameter: 140, smoothing_factor: 10, max_stability_parameter: 200, min_stability_parameter: 50 });
    assert_eq!(m.initialize_state(Origin::Root), Ok(()));
    assert_eq!(m.update_parameter(Origin::Signed(1), 40), Ok(()));
    assert_eq!(m.state.current_parameter, 180);
    // (20 + 9 * 40) / 10 = 38: the parameter moves from 180 by -2.
    assert_eq!(m.update_parameter(Origin::Signed(1), 20), Ok(()));
    assert_eq!(m.state.current_parameter, 178);
    let mut low = Pallet::new(Config { baseline_parameter: 0, smoothing_factor: 2, max_stability_parameter: 100, min_stability_parameter: 0 });
    assert_eq!(low.initialize_state(Origin::Root), Ok(()));
    assert_eq!(low.update_parameter(Origin::Signed(1), 10), Ok(()));
    assert_eq!(low.state.current_parameter, 10);
    assert_eq!(low.update_parameter(Origin::Signed(1), 1), Ok(()));
    // average (1 + 10) / 2 = 5: 10 - 5 = 5
    assert_eq!(low.state.current_parameter, 5);
}

#[test]
fn stability_minimum_lifts_the_parameter() {
    let mut m = Pallet::new(Config { baseline_parameter: 0, smoothing_factor: 2, max_stability_parameter: 100, min_stability_parameter: 20 });
    assert_eq!(m.initialize_state(Origin::Root), Ok(()));
    assert_eq!(m.update_parameter(Origin::Signed(1), 5), Ok(()));
    assert_eq!(m.state.current_parameter, 20);
}

fn risk() -> risk_management::Pallet {
    risk_management::Pallet::new(risk_management::Config { baseline_risk: 10, risk_threshold: 50, risk_smoothing_factor: 4 })
}

#[test]
fn risk_events_move_score_and_average() {
    let mut m = risk();
    m.set_time(5);
    assert_eq!(m.initialize_risk(Origin::Root), Ok(()));
    assert_eq!(m.state.current_risk, 10);
    assert_eq!(m.submit_risk_event(Origin::Signed(2), 30, b"spike".to_vec()), Ok(()));
    // (30 + 3 * 10) / 4 = 15
    assert_eq!(m.state.risk_ema, 15);
    assert_eq!(m.state.current_risk, 40);
    assert_eq!(m.events.last(), Some(&risk_management::Event::RiskEventSubmitted(2, 30, 15, 40)));
    assert_eq!(m.submit_risk_event(Origin::Signed(2), 20, b"more".to_vec()), Ok(()));
    assert_eq!(m.state.current_risk, 60);
    let n = m.events.len();
    assert_eq!(m.events[n - 2], risk_management::Event::RiskAlert(2, 60));
    // (-100 + 3 * 16) / 4 = -13, rounding toward zero; the score floors at 0.
    assert_eq!(m.submit_risk_event(Origin::Signed(2), -100, b"calm".to_vec()), Ok(()));
    assert_eq!(m.state.risk_ema, -13);
    assert_eq!(m.state.current_risk, 0);
    assert_eq!(m.state.history.len(), 4);
    assert_eq!(m.state.history[3].timestamp, 5);
}

#[test]
fn risk_errors_and_threshold() {
    let mut m = risk();
    assert_eq!(m.initialize_risk(Origin::Signed(1)), Err(DispatchError::BadOrigin));
    assert_eq!(
        m.submit_risk_event(Origin::Signed(1), 0, vec![]),
        Err(DispatchError::Module(risk_management::Error::InvalidRiskFactor))
    );
    assert_eq!(m.submit_risk_event(Origin::Root, 3, vec![]), Err(DispatchError::BadOrigin));
    assert_eq!(m.update_threshold(Origin::Signed(1), 3), Err(DispatchError::BadOrigin));
    assert_eq!(m.update_threshold(Origin::Root, 3), Ok(()));
    assert_eq!(m.state.threshold, 3);
    assert_eq!(m.events.last(), Some(&risk_management::Event::RiskThresholdUpdated(0, 3)));
}

#[test]
fn aura_authority_is_set_by_root() {
    let mut a: aura::Pallet<[u8; 32]> = aura::Pallet::new();
    assert_eq!(a.set_authority(Origin::Signed(1), [7u8; 32]), Err(DispatchError::BadOrigin));
    assert!(a.authority.is_none());
    assert_eq!(a.set_authority(Origin::Root, [7u8; 32]), Ok(()));
    assert_eq!(a.authority, Some([7u8; 32]));
    assert_eq!(a.events, vec![aura::Event::AuthoritySet([7u8; 32])]);
}

#[test]
fn large_averages_do_not_overflow() {
    let mut m = Pallet::new(Config { baseline_parameter: 0, smoothing_factor: 10, max_stability_parameter: u32::MAX, min_stability_parameter: 0 });
    assert_eq!(m.initialize_state(Origin::Root), Ok(()));
    assert_eq!(m.update_parameter(Origin::Signed(1), u32::MAX), Ok(()));
    assert_eq!(m.state.volatility_ema, u32::MAX);
    assert_eq!(m.update_parameter(Origin::Signed(1), 1), Ok(()));
    let expected = ((1u128 + 9 * u32::MAX as u128) / 10) as u32;
    assert_eq!(m.state.volatility_ema, expected);
    assert_eq!(m.state.current_parameter, expected);

    let mut r = risk_management::Pallet::new(risk_management::Config {
        baseline_risk: 2_000_000_000,
        risk_threshold: 2_100_000_000,
        risk_smoothing_factor: 1000,
    });
    assert_eq!(r.initialize_risk(Origin::Root), Ok(()));
    assert_eq!(r.submit_risk_event(Origin::Signed(1), -5, vec![]), Ok(()));
    let expected = ((-5i64 + 999 * 2_000_000_000i64) / 1000) as i32;
    assert_eq!(r.state.risk_ema, expected);
    assert_eq!(r.state.current_risk, 1_999_999_995);
}
