//! Biosphere: the network's adaptive state. Energy and quantum flux are
//! smoothed with an exponential moving average of signal-derived measures and
//! the operational phase (Growth, Defense, Mutation) follows from the energy.
//! The module also carries a cross-chain bridge of its own.

use vstd::prelude::*;
use crate::frame::{
    ema_step_u32, ema_u32, ensure_root, ensure_signed, lemma_ema_u32_between, sat_mul_u32, saturating_mul_u32,
    DispatchError, DispatchResult, Origin,
};
use crate::pallets::bridge;
pub use crate::pallets::bridge::GenesisConfig;

verus! {

/// The network's operational phases.
#[derive(Clone, Copy, Debug, PartialEq, Eq)]
pub enum BioPhase {
    Growth,
    Defense,
    Mutation,
}

/// The adaptive state and its log of (block, phase, energy, quantum flux).
#[derive(Clone, Debug, PartialEq, Eq)]
pub struct BioState {
    pub current_phase: BioPhase,
    pub energy_level: u32,
    pub quantum_flux: u32,
    pub last_updated: u64,
    pub history: Vec<(u64, BioPhase, u32, u32)>,
}

#[derive(Clone, Copy, Debug, PartialEq, Eq)]
pub enum Event {
    /// (old phase, new phase, new energy, new quantum flux)
    BioStateUpdated(BioPhase, BioPhase, u32, u32),
}

#[derive(Clone, Copy, Debug, PartialEq, Eq)]
pub enum Error {
    InvalidSignal,
    SignatureVerificationFailed,
    ZeroSmoothingFactor,
}

/// The pallet's constants.
#[derive(Clone, Copy, Debug, PartialEq, Eq)]
pub struct Config {
    /// Confirmations the bridge requires to finalise a transfer.
    pub required_confirmations: u32,
    /// Smoothing factor of the moving averages.
    pub smoothing_factor: u32,
    pub baseline_energy: u32,
    pub baseline_quantum_flux: u32,
    pub baseline_phase: BioPhase,
}

/// The pallet's storage and the events it has deposited.
#[derive(Debug)]
pub struct Pallet {
    pub config: Config,
    /// The module's bridge (supported assets and transfers).
    pub bridge: bridge::Pallet,
    pub bio_state: BioState,
    pub events: Vec<Event>,
    /// Current block number.
    pub block_number: u64,
}

/// Exponential moving average step: the measure itself where there is no
/// average yet, else `(measured + (smoothing - 1) * current) / smoothing`.
pub open spec fn ema(measured: u32, current: u32, smoothing: u32) -> int {
    ema_u32(measured, current, smoothing)
}

/// Energy measured from a signal: `signal * 10`, saturating.
pub open spec fn measured_energy(signal: u32) -> u32 {
    sat_mul_u32(signal, 10)
}

/// Flux measured from a signal: `signal * signal` (saturating) divided by the smoothing factor.
pub open spec fn measured_flux(signal: u32, smoothing: u32) -> u32 {
    (sat_mul_u32(signal, signal) / smoothing) as u32
}

/// The phase that an energy level puts the network in.
pub open spec fn phase_for(energy: int) -> BioPhase {
    if energy > 150 {
        BioPhase::Growth
    } else if energy > 75 {
        BioPhase::Defense
    } else {
        BioPhase::Mutation
    }
}

impl Pallet {
    /// A pallet with empty storage: no bridge assets or transfers, and a state
    /// in the baseline phase with zero energy and flux and no history.
    pub fn new(config: Config) -> (p: Self)
        ensures
            p.config == config,
            p.bridge.config.required_confirmations == config.required_confirmations,
            p.bridge.supported_assets.view() == Map::<Seq<u8>, bridge::AssetMetadata>::empty(),
            p.bridge.pending_transfers@ == Map::<u64, bridge::TransferRequest>::empty(),
            p.bridge.next_transfer_id == 0,
            p.bio_state.current_phase == config.baseline_phase,
            p.bio_state.energy_level == 0,
            p.bio_state.quantum_flux == 0,
            p.bio_state.last_updated == 0,
            p.bio_state.history@.len() == 0,
            p.events@.len() == 0,
            p.block_number == 0,
    {
        Pallet {
            config,
            bridge: bridge::Pallet::new(bridge::Config { required_confirmations: config.required_confirmations }),
            bio_state: BioState {
                current_phase: config.baseline_phase,
                energy_level: 0,
                quantum_flux: 0,
                last_updated: 0,
                history: Vec::new(),
            },
            events: Vec::new(),
            block_number: 0,
        }
    }

    /// The pallet at genesis: the bridge with the genesis assets registered
    /// in order, and otherwise as `new` leaves it.
    pub fn from_genesis(config: Config, genesis: GenesisConfig) -> (p: Self)
        ensures
            p.config == config,
            p.bridge.config.required_confirmations == config.required_confirmations,
            p.bridge.supported_assets.view() == bridge::assets_map(genesis.initial_assets@),
            p.bridge.pending_transfers@ == Map::<u64, bridge::TransferRequest>::empty(),
            p.bridge.next_transfer_id == 0,
            p.bio_state.current_phase == config.baseline_phase,
            p.bio_state.energy_level == 0,
            p.bio_state.quantum_flux == 0,
            p.bio_state.last_updated == 0,
            p.bio_state.history@.len() == 0,
            p.events@.len() == 0,
            p.block_number == 0,
    {
        let mut p = Pallet::new(config);
        p.bridge = genesis.build(bridge::Config { required_confirmations: config.required_confirmations });
        p
    }

    /// Sets the current block number.
    pub fn set_block_number(&mut self, n: u64)
        ensures
            final(self).block_number == n,
            final(self).config == old(self).config,
            final(self).bio_state == old(self).bio_state,
            final(self).events == old(self).events,
            final(self).bridge == old(self).bridge,
    {
        self.block_number = n;
    }

    /// Root only: puts the state at the baseline phase, energy and flux, with
    /// a single log entry.
    pub fn initialize_state(&mut self, origin: Origin) -> (r: DispatchResult<Error>)
        ensures
            origin != Origin::Root ==> r == Err::<(), DispatchError<Error>>(DispatchError::BadOrigin)
                && final(self).bio_state == old(self).bio_state,
            origin == Origin::Root ==> {
                let c = old(self).config;
                let n = old(self).block_number;
                &&& r is Ok
                &&& final(self).bio_state.current_phase == c.baseline_phase
                &&& final(self).bio_state.energy_level == c.baseline_energy
                &&& final(self).bio_state.quantum_flux == c.baseline_quantum_flux
                &&& final(self).bio_state.last_updated == n
                &&& final(self).bio_state.history@ == seq![(n, c.baseline_phase, c.baseline_energy, c.baseline_quantum_flux)]
            },
            final(self).config == old(self).config,
            final(self).events == old(self).events,
            final(self).block_number == old(self).block_number,
            final(self).bridge == old(self).bridge,
    {
        ensure_root::<Error>(origin)?;
        let c = self.config;
        let now = self.block_number;
        let mut history: Vec<(u64, BioPhase, u32, u32)> = Vec::new();
        history.push((now, c.baseline_phase, c.baseline_energy, c.baseline_quantum_flux));
        self.bio_state = BioState {
            current_phase: c.baseline_phase,
            energy_level: c.baseline_energy,
            quantum_flux: c.baseline_quantum_flux,
            last_updated: now,
            history,
        };
        Ok(())
    }

    /// Signed: updates the state from a positive signal and a non-empty
    /// signature. Energy measured is `signal * 10`, flux measured is
    /// `signal^2 / smoothing`; each is folded into its moving average and the
    /// phase follows from the new energy (Growth above 150, Defense above 75,
    /// Mutation otherwise). The update is logged.
    pub fn transition_phase(&mut self, origin: Origin, signal: u32, signature: Vec<u8>) -> (r: DispatchResult<Error>)
        ensures
            !(origin is Signed) ==> r == Err::<(), DispatchError<Error>>(DispatchError::BadOrigin),
            origin is Signed && signal == 0 ==>
                r == Err::<(), DispatchError<Error>>(DispatchError::Module(Error::InvalidSignal)),
            origin is Signed && signal > 0 && signature@.len() == 0 ==>
                r == Err::<(), DispatchError<Error>>(DispatchError::Module(Error::SignatureVerificationFailed)),
            origin is Signed && signal > 0 && signature@.len() > 0 && old(self).config.smoothing_factor == 0 ==>
                r == Err::<(), DispatchError<Error>>(DispatchError::Module(Error::ZeroSmoothingFactor)),
            r is Err ==> final(self).bio_state == old(self).bio_state && final(self).events == old(self).events,
            origin is Signed && signal > 0 && signature@.len() > 0 && old(self).config.smoothing_factor > 0 ==> {
                let s = old(self).config.smoothing_factor;
                let old_state = old(self).bio_state;
                let e = ema(measured_energy(signal), old_state.energy_level, s);
                let f = ema(measured_flux(signal, s), old_state.quantum_flux, s);
                let n = old(self).block_number;
                &&& r is Ok
                &&& final(self).bio_state.current_phase == phase_for(e)
                &&& final(self).bio_state.energy_level == e
                &&& final(self).bio_state.quantum_flux == f
                &&& final(self).bio_state.last_updated == n
                &&& final(self).bio_state.history@ == old_state.history@.push((n, phase_for(e), e as u32, f as u32))
                &&& final(self).events@ == old(self).events@.push(
                    Event::BioStateUpdated(old_state.current_phase, phase_for(e), e as u32, f as u32))
            },
            r is Ok && old(self).bio_state.energy_level == 0 ==> final(self).bio_state.energy_level
                == (if signal * 10 > u32::MAX { u32::MAX as int } else { signal * 10 }),
            r is Ok && old(self).bio_state.quantum_flux == 0 ==> final(self).bio_state.quantum_flux
                == (if signal * signal > u32::MAX { u32::MAX as int } else { signal * signal })
                    / (old(self).config.smoothing_factor as int),
            r is Ok ==> (final(self).bio_state.energy_level > 150 <==> final(self).bio_state.current_phase == BioPhase::Growth)
                && (75 < final(self).bio_state.energy_level <= 150 <==> final(self).bio_state.current_phase == BioPhase::Defense)
                && (final(self).bio_state.energy_level <= 75 <==> final(self).bio_state.current_phase == BioPhase::Mutation),
            final(self).config == old(self).config,
            final(self).block_number == old(self).block_number,
            final(self).bridge == old(self).bridge,
    {
        ensure_signed::<Error>(origin)?;
        if signal == 0 {
            return Err(DispatchError::Module(Error::InvalidSignal));
        }
        if signature.len() == 0 {
            return Err(DispatchError::Module(Error::SignatureVerificationFailed));
        }
        let now = self.block_number;
        let smoothing = self.config.smoothing_factor;
        if smoothing == 0 {
            return Err(DispatchError::Module(Error::ZeroSmoothingFactor));
        }
        let measured_e = saturating_mul_u32(signal, 10);
        let new_energy = ema_step_u32(measured_e, self.bio_state.energy_level, smoothing);
        let measured_f = saturating_mul_u32(signal, signal) / smoothing;
        let new_quantum_flux = ema_step_u32(measured_f, self.bio_state.quantum_flux, smoothing);
        let new_phase = if new_energy > 150 {
            BioPhase::Growth
        } else if new_energy > 75 {
            BioPhase::Defense
        } else {
            BioPhase::Mutation
        };
        let old_phase = self.bio_state.current_phase;
        self.bio_state.current_phase = new_phase;
        self.bio_state.energy_level = new_energy;
        self.bio_state.quantum_flux = new_quantum_flux;
        self.bio_state.last_updated = now;
        self.bio_state.history.push((now, new_phase, new_energy, new_quantum_flux));
        self.events.push(Event::BioStateUpdated(old_phase, new_phase, new_energy, new_quantum_flux));
        Ok(())
    }
}

/// The biosphere's moving average takes the measure itself while there is no
/// average yet (the current value is 0), and otherwise
/// `(measured + (smoothing - 1) * current) / smoothing`, which lies between
/// the current value and the measure.
pub proof fn law_biosphere_average(measured: u32, current: u32, smoothing: u32)
    requires
        smoothing > 0,
    ensures
        current == 0 ==> ema(measured, current, smoothing) == measured,
        current != 0 ==> ema(measured, current, smoothing) == (measured + (smoothing - 1) * current) / (smoothing as int),
        current != 0 && measured <= current ==> measured <= ema(measured, current, smoothing) <= current,
        current != 0 && current <= measured ==> current <= ema(measured, current, smoothing) <= measured,
{
    lemma_ema_u32_between(measured, current, smoothing);
}

} // verus!
