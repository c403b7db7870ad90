use nodara::frame::{DispatchError, Origin};
use nodara::pallets::reward_engine::{calculate_dynamic_reward, Config, Error, Event, Pallet};

const BASELINE: u128 = 1_000_000;

fn module() -> Pallet {
    Pallet::new(Config { baseline_reward_pool: BASELINE })
}

#[test]
fn initialize_rewards_works() {
    let mut m = module();
    assert_eq!(m.initialize_rewards(Origin::Root), Ok(()));
    assert_eq!(m.state.reward_pool, BASELINE);
    assert!(m.state.history.is_empty());
}

#[test]
fn distribute_reward_works() {
    let mut m = module();
    let account = 1;
    assert_eq!(m.initialize_rewards(Origin::Root), Ok(()));
    let reward = 100_000;
    let details = b"Test reward".to_vec();
    assert_eq!(m.distribute_reward(Origin::Signed(2), account, reward, details.clone()), Ok(()));
    assert_eq!(m.state.reward_pool, BASELINE - reward);
    assert!(!m.state.history.is_empty());
}

#[test]
fn distribute_dynamic_reward_works() {
    let mut m = module();
    let account = 1;
    assert_eq!(m.initialize_rewards(Origin::Root), Ok(()));
    let work = 200_000;
    let reputation = 5_000;
    assert_eq!(
        m.distribute_dynamic_reward(Origin::Signed(2), account, work, reputation, b"Dynamic".to_vec()),
        Err(DispatchError::Module(Error::InsufficientRewardPool))
    );
    assert_eq!(m.update_reward_pool(Origin::Signed(2), 1_500_000, true), Ok(()));
    assert_eq!(m.distribute_dynamic_reward(Origin::Signed(2), account, work, reputation, b"Dynamic".to_vec()), Ok(()));
}

#[test]
fn update_reward_pool_works() {
    let mut m = module();
    assert_eq!(m.initialize_rewards(Origin::Root), Ok(()));
    let current_pool = m.state.reward_pool;
    let increase_amount = 200_000;
    assert_eq!(m.update_reward_pool(Origin::Signed(2), increase_amount, true), Ok(()));
    assert_eq!(m.state.reward_pool, current_pool + increase_amount);
    let decrease_amount = 100_000;
    assert_eq!(m.update_reward_pool(Origin::Signed(2), decrease_amount, false), Ok(()));
    assert_eq!(m.state.reward_pool, current_pool + increase_amount - decrease_amount);
}

#[test]
fn test_initialize_rewards() {
    let mut m = Pallet::new(Config { baseline_reward_pool: 1000 });
    assert_eq!(m.initialize_rewards(Origin::Root), Ok(()));
    assert_eq!(m.state.reward_pool, 1000);
}

#[test]
fn dynamic_reward_formula() {
    assert_eq!(calculate_dynamic_reward(200_000, 5_000), 1_200_000);
    assert_eq!(calculate_dynamic_reward(7, 999), 7);
    assert_eq!(calculate_dynamic_reward(7, 1000), 14);
    assert_eq!(calculate_dynamic_reward(u128::MAX, 2000), u128::MAX);
}

#[test]
fn payout_is_logged_and_pool_decreases_exactly() {
    let mut m = module();
    m.set_timestamp(9);
    assert_eq!(m.initialize_rewards(Origin::Root), Ok(()));
    assert_eq!(m.distribute_dynamic_reward(Origin::Signed(5), 4, 10, 3000, b"d".to_vec()), Ok(()));
    assert_eq!(m.state.reward_pool, BASELINE - 40);
    let rec = m.state.history.last().unwrap();
    assert_eq!((rec.timestamp, rec.account, rec.reward_amount), (9, 4, 40));
    assert_eq!(
        m.events,
        vec![Event::RewardDistributed(4, 40, b"d".to_vec()), Event::RewardPoolUpdated(BASELINE, BASELINE - 40)]
    );
}

#[test]
fn decrease_beyond_pool_is_refused() {
    let mut m = module();
    assert_eq!(m.initialize_rewards(Origin::Root), Ok(()));
    let before = m.clone();
    assert_eq!(
        m.update_reward_pool(Origin::Signed(1), BASELINE + 1, false),
        Err(DispatchError::Module(Error::InsufficientRewardPool))
    );
    assert_eq!(m, before);
    assert_eq!(m.update_reward_pool(Origin::Root, 1, true), Err(DispatchError::BadOrigin));
    assert_eq!(m.initialize_rewards(Origin::Signed(1)), Err(DispatchError::BadOrigin));
}
