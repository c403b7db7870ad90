use nodara::frame::Origin;
use nodara::pallets::{
    biosphere, growth_model, identity, interop, iot_bridge, liquidity_flow, marketplace, pow, predictive_guard,
    reputation, reserve_fund, reward_engine, stability_guard, standards,
};
use nodara::runtime::Runtime;

fn runtime() -> Runtime {
    Runtime {
        biosphere: biosphere::Pallet::new(biosphere::Config {
            required_confirmations: 2,
            smoothing_factor: 2,
            baseline_energy: 100,
            baseline_quantum_flux: 50,
            baseline_phase: biosphere::BioPhase::Defense,
        }),
        growth: growth_model::Pallet::new(growth_model::Config { baseline_multiplier: 100, smoothing_factor: 5 }),
        identity: identity::Pallet::new(identity::Config { default_verification: true, max_kyc_length: 256 }),
        interop: interop::Pallet::new(interop::Config { base_timeout: 300, max_payload_length: 1024 }),
        iot: iot_bridge::Pallet::new(iot_bridge::Config { max_payload_length: 512, base_timeout: 300 }),
        liquidity_flow: liquidity_flow::Pallet::new(liquidity_flow::Config { baseline_liquidity: 1000, smoothing_factor: 10 }),
        reward_engine: reward_engine::Pallet::new(reward_engine::Config { baseline_reward_pool: 1_000_000 }),
        stability_guard: stability_guard::Pallet::new(stability_guard::Config {
            baseline_parameter: 100,
            smoothing_factor: 10,
            max_stability_parameter: 150,
            min_stability_parameter: 50,
        }),
        standards: standards::Pallet::new(standards::Config { max_standard_length: 256 }),
        pow: pow::Pallet::new(pow::Config { baseline_difficulty: 100, pow_smoothing_factor: 10 }),
        predictive_guard: predictive_guard::Pallet::new(predictive_guard::Config {
            baseline_predictive_value: 100,
            max_predictive_value: 1000,
            min_predictive_value: 10,
        }),
        reputation: reputation::Pallet::new(reputation::Config { initial_reputation: 100, proposal_threshold: 2 }),
        reserve_fund: reserve_fund::Pallet::new(reserve_fund::Config { baseline_reserve: 1000, minimum_reserve_ratio: 50 }),
        marketplace: marketplace::Pallet::new(marketplace::Config { max_asset_metadata_length: 256, base_trade_fee: 10 }),
    }
}

#[test]
fn runtime_queries_read_pallet_storage() {
    let mut rt = runtime();
    assert_eq!(rt.dummy(), 42);
    assert_eq!(rt.marketplace_get_asset(7), None);
    assert_eq!(rt.marketplace.register_asset(Origin::Signed(1), 7, b"meta".to_vec()), Ok(()));
    assert_eq!(rt.marketplace_get_asset(7), Some(b"meta".to_vec()));
    assert_eq!(rt.pow.initialize_pow(Origin::Root), Ok(()));
    assert_eq!(rt.pow_get_state().difficulty, 100);
    assert_eq!(rt.predictive_guard.initialize_predictive(Origin::Signed(1)), Ok(()));
    assert_eq!(rt.predictive_get_value(), 100);
    assert!(rt.identity_get(1).is_none());
    assert_eq!(rt.identity.register_identity(Origin::Signed(1), b"kyc".to_vec()), Ok(()));
    assert_eq!(rt.identity_get(1).map(|d| d.kyc_details.clone()), Some(b"kyc".to_vec()));
    assert_eq!(rt.reputation.initialize_reputation(Origin::Signed(3)), Ok(()));
    assert_eq!(rt.reputation_get(3).map(|r| r.score), Some(100));
    assert_eq!(rt.reserve_fund.initialize_reserve(Origin::Root), Ok(()));
    assert_eq!(rt.reserve_get_state().balance, 1000);
    assert_eq!(rt.biosphere_get_state().energy_level, 0);
    assert_eq!(rt.growth_get_state().current_multiplier, 0);
    assert_eq!(rt.liquidity_get_state().current_level, 0);
    assert_eq!(rt.reward_get_state().reward_pool, 0);
    assert_eq!(rt.stability_get_state().current_parameter, 0);
    assert!(rt.interop_get_history().is_empty());
    assert!(rt.iot_get_record(1).is_none());
    assert!(rt.standards_get_standard(b"S".to_vec()).is_none());
    assert_eq!(rt.standards.define_standard(Origin::Root, b"S".to_vec(), vec![], vec![1]), Ok(()));
    assert_eq!(rt.standards_get_standard(b"S".to_vec()).map(|s| s.parameters.clone()), Some(vec![1]));
}
