use nodara::frame::{DispatchError, Origin};
use nodara::pallets::pow::{Config, Error, Event, Pallet};

fn module() -> Pallet {
    Pallet::new(Config { baseline_difficulty: 100, pow_smoothing_factor: 10 })
}

#[test]
fn test_initialize_pow() {
    let mut m = module();
    assert_eq!(m.initialize_pow(Origin::Root), Ok(()));
    assert_eq!(m.state.difficulty, 100);
}

#[test]
fn test_submit_work_valid() {
    let mut m = module();
    assert_eq!(m.initialize_pow(Origin::Root), Ok(()));
    assert_eq!(m.submit_work(Origin::Signed(1), 100, b"Signature".to_vec()), Ok(()));
}

#[test]
fn test_submit_work_rejected() {
    let mut m = module();
    assert_eq!(m.initialize_pow(Origin::Root), Ok(()));
    assert_eq!(
        m.submit_work(Origin::Signed(1), 50, b"Signature".to_vec()),
        Err(DispatchError::Module(Error::WorkRejected))
    );
}

#[test]
fn test_adjust_difficulty() {
    let mut m = module();
    assert_eq!(m.initialize_pow(Origin::Root), Ok(()));
    let baseline = m.state.difficulty;
    assert_eq!(m.adjust_difficulty(Origin::Signed(1), 50), Ok(()));
    let expected = baseline.saturating_add(50 / 10);
    assert_eq!(m.state.difficulty, expected);
}

#[test]
fn invalid_work_and_signals() {
    let mut m = module();
    assert_eq!(m.initialize_pow(Origin::Root), Ok(()));
    assert_eq!(m.submit_work(Origin::Signed(1), 0, b"s".to_vec()), Err(DispatchError::Module(Error::InvalidWork)));
    assert_eq!(m.submit_work(Origin::Signed(1), 200, vec![]), Err(DispatchError::Module(Error::InvalidWork)));
    assert_eq!(m.adjust_difficulty(Origin::Signed(1), 0), Err(DispatchError::Module(Error::InvalidWork)));
    assert_eq!(m.submit_work(Origin::Root, 200, b"s".to_vec()), Err(DispatchError::BadOrigin));
    assert_eq!(m.initialize_pow(Origin::Signed(1)), Err(DispatchError::BadOrigin));
}

#[test]
fn work_accumulates_and_adjustments_are_logged() {
    let mut m = module();
    m.set_block_number(12);
    assert_eq!(m.initialize_pow(Origin::Root), Ok(()));
    assert_eq!(m.submit_work(Origin::Signed(3), 150, b"s".to_vec()), Ok(()));
    assert_eq!(m.submit_work(Origin::Signed(4), 100, b"s".to_vec()), Ok(()));
    assert_eq!(m.state.total_work, 250);
    assert_eq!(m.adjust_difficulty(Origin::Signed(1), 9), Ok(()));
    assert_eq!(m.state.difficulty, 100);
    assert_eq!(m.adjust_difficulty(Origin::Signed(1), 1234), Ok(()));
    assert_eq!(m.state.difficulty, 223);
    assert_eq!(m.state.history.last(), Some(&(12, 100, 223, 1234)));
    assert_eq!(m.events.last(), Some(&Event::DifficultyAdjusted(100, 223, 1234)));
}
