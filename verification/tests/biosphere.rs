use nodara::frame::{DispatchError, Origin};
use nodara::pallets::biosphere::{BioPhase, Config, Error, Event, GenesisConfig, Pallet};

fn lib_module() -> Pallet {
    Pallet::new(Config {
        required_confirmations: 2,
        smoothing_factor: 2,
        baseline_energy: 100,
        baseline_quantum_flux: 50,
        baseline_phase: BioPhase::Defense,
    })
}

fn tests_module() -> Pallet {
    Pallet::new(Config {
        required_confirmations: 2,
        smoothing_factor: 10,
        baseline_energy: 50,
        baseline_quantum_flux: 10,
        baseline_phase: BioPhase::Mutation,
    })
}

#[test]
fn lib_test_initialize_state() {
    let mut m = lib_module();
    assert_eq!(m.initialize_state(Origin::Root), Ok(()));
    let state = &m.bio_state;
    assert_eq!(state.current_phase, BioPhase::Defense);
    assert_eq!(state.energy_level, 100);
    assert_eq!(state.quantum_flux, 50);
    assert!(!state.history.is_empty());
}

#[test]
fn test_transition_phase() {
    let mut m = lib_module();
    assert_eq!(m.initialize_state(Origin::Root), Ok(()));
    assert_eq!(m.transition_phase(Origin::Signed(1), 120, vec![1, 2, 3]), Ok(()));
    let state = &m.bio_state;
    assert_eq!(state.current_phase, BioPhase::Growth);
    assert_eq!(state.energy_level, 650);
    assert_eq!(state.quantum_flux, 3625);
    assert_eq!(state.history.len(), 2);
}

#[test]
fn tests_test_initialize_state() {
    let mut m = tests_module();
    assert_eq!(m.initialize_state(Origin::Root), Ok(()));
    assert_eq!(m.bio_state.current_phase, BioPhase::Mutation);
    assert_eq!(m.bio_state.energy_level, 50);
    assert_eq!(m.bio_state.quantum_flux, 10);
}

#[test]
fn test_transition_phase_valid() {
    let mut m = tests_module();
    assert_eq!(m.initialize_state(Origin::Root), Ok(()));
    assert_eq!(m.transition_phase(Origin::Signed(1), 80, vec![1, 2, 3]), Ok(()));
    assert_eq!(m.bio_state.current_phase, BioPhase::Defense);
}

#[test]
fn transition_errors_leave_state() {
    let mut m = lib_module();
    assert_eq!(m.initialize_state(Origin::Root), Ok(()));
    assert_eq!(m.transition_phase(Origin::Signed(1), 0, vec![1]), Err(DispatchError::Module(Error::InvalidSignal)));
    assert_eq!(
        m.transition_phase(Origin::Signed(1), 5, vec![]),
        Err(DispatchError::Module(Error::SignatureVerificationFailed))
    );
    assert_eq!(m.transition_phase(Origin::Root, 5, vec![1]), Err(DispatchError::BadOrigin));
    assert_eq!(m.initialize_state(Origin::Signed(1)), Err(DispatchError::BadOrigin));
    assert_eq!(m.bio_state.history.len(), 1);
    let mut z = Pallet::new(Config {
        required_confirmations: 2,
        smoothing_factor: 0,
        baseline_energy: 1,
        baseline_quantum_flux: 1,
        baseline_phase: BioPhase::Growth,
    });
    assert_eq!(z.transition_phase(Origin::Signed(1), 5, vec![1]), Err(DispatchError::Module(Error::ZeroSmoothingFactor)));
}

#[test]
fn low_signal_moves_to_mutation_and_logs() {
    let mut m = lib_module();
    m.set_block_number(4);
    assert_eq!(m.initialize_state(Origin::Root), Ok(()));
    assert_eq!(m.transition_phase(Origin::Signed(1), 3, vec![9]), Ok(()));
    // energy: (30 + 100) / 2 = 65; flux: (9 / 2 + 50) / 2 = 27.
    assert_eq!(m.bio_state.energy_level, 65);
    assert_eq!(m.bio_state.quantum_flux, 27);
    assert_eq!(m.bio_state.current_phase, BioPhase::Mutation);
    assert_eq!(m.bio_state.history.last(), Some(&(4, BioPhase::Mutation, 65, 27)));
    assert_eq!(m.events, vec![Event::BioStateUpdated(BioPhase::Defense, BioPhase::Mutation, 65, 27)]);
}

#[test]
fn genesis_registers_default_bridge_assets() {
    let m = Pallet::from_genesis(
        Config {
            required_confirmations: 2,
            smoothing_factor: 2,
            baseline_energy: 100,
            baseline_quantum_flux: 50,
            baseline_phase: BioPhase::Defense,
        },
        GenesisConfig::default(),
    );
    assert!(m.bridge.supported_assets.contains_key(&b"DOGE".to_vec()));
    assert_eq!(m.bio_state.energy_level, 0);
}

#[test]
fn large_energy_averages_do_not_overflow() {
    let mut m = Pallet::new(Config {
        required_confirmations: 2,
        smoothing_factor: 1000,
        baseline_energy: u32::MAX - 1,
        baseline_quantum_flux: u32::MAX,
        baseline_phase: BioPhase::Growth,
    });
    assert_eq!(m.initialize_state(Origin::Root), Ok(()));
    assert_eq!(m.transition_phase(Origin::Signed(1), 5, vec![1]), Ok(()));
    let energy = ((50u128 + 999 * (u32::MAX as u128 - 1)) / 1000) as u32;
    let flux = ((0u128 + 999 * u32::MAX as u128) / 1000) as u32;
    assert_eq!(m.bio_state.energy_level, energy);
    assert_eq!(m.bio_state.quantum_flux, flux);
    assert_eq!(m.bio_state.current_phase, BioPhase::Growth);
}
