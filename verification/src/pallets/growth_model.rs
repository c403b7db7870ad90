//! Growth model: a reward multiplier raised by network signals, smoothed by a
//! constant factor, with every update logged.

use vstd::prelude::*;
use crate::frame::{ensure_root, ensure_signed, DispatchError, DispatchResult, Origin};

verus! {

/// One logged multiplier value.
#[derive(Clone, Copy, Debug, PartialEq, Eq)]
pub struct GrowthData {
    pub multiplier: u32,
    pub signal: u32,
    pub timestamp: u64,
}

/// The multiplier and its log.
#[derive(Clone, Debug, PartialEq, Eq, Default)]
pub struct GrowthState {
    pub current_multiplier: u32,
    pub history: Vec<GrowthData>,
}

#[derive(Clone, Copy, Debug, PartialEq, Eq)]
pub enum Event {
    /// (old multiplier, new multiplier, signal)
    GrowthMultiplierUpdated(u32, u32, u32),
}

#[derive(Clone, Copy, Debug, PartialEq, Eq)]
pub enum Error {
    InvalidSignal,
    ZeroSmoothingFactor,
}

/// The pallet's constants.
#[derive(Clone, Copy, Debug, PartialEq, Eq)]
pub struct Config {
    pub baseline_multiplier: u32,
    pub smoothing_factor: u32,
}

/// The pallet's storage and the events it has deposited.
#[derive(Clone, Debug, PartialEq, Eq)]
pub struct Pallet {
    pub config: Config,
    pub state: GrowthState,
    pub events: Vec<Event>,
    /// Current block number.
    pub block_number: u64,
}

/// Genesis settings: a given state, or the baseline one.
#[derive(Clone, Debug, PartialEq, Eq, Default)]
pub struct GenesisConfig {
    pub growth_state: Option<GrowthState>,
}

/// The state at the baseline: one log entry with signal 0.
pub open spec fn is_baseline_state(s: GrowthState, baseline: u32, block: u64) -> bool {
    s.current_multiplier == baseline
        && s.history@ == seq![GrowthData { multiplier: baseline, signal: 0, timestamp: block }]
}

fn baseline_state(baseline: u32, block: u64) -> (s: GrowthState)
    ensures
        is_baseline_state(s, baseline, block),
{
    let mut history: Vec<GrowthData> = Vec::new();
    history.push(GrowthData { multiplier: baseline, signal: 0, timestamp: block });
    GrowthState { current_multiplier: baseline, history }
}

impl GenesisConfig {
    /// The pallet at genesis: with the given state, else at the baseline.
    pub fn build(self, config: Config) -> (p: Pallet)
        ensures
            p.config == config,
            p.block_number == 0,
            p.events@.len() == 0,
            match self.growth_state {
                Some(s) => p.state == s,
                None => is_baseline_state(p.state, config.baseline_multiplier, 0),
            },
    {
        let state = match self.growth_state {
            Some(s) => s,
            None => baseline_state(config.baseline_multiplier, 0),
        };
        Pallet { config, state, events: Vec::new(), block_number: 0 }
    }
}

impl Pallet {
    /// A pallet with empty storage.
    pub fn new(config: Config) -> (p: Self)
        ensures
            p.config == config,
            p.state.current_multiplier == 0,
            p.state.history@.len() == 0,
            p.events@.len() == 0,
            p.block_number == 0,
    {
        Pallet { config, state: GrowthState { current_multiplier: 0, history: Vec::new() }, events: Vec::new(), block_number: 0 }
    }

    /// Sets the current block number.
    pub fn set_block_number(&mut self, n: u64)
        ensures
            *final(self) == (Pallet { block_number: n, ..*old(self) }),
    {
        self.block_number = n;
    }

    /// Root only: resets the state to the baseline multiplier with one log entry.
    pub fn initialize_state(&mut self, origin: Origin) -> (r: DispatchResult<Error>)
        ensures
            origin != Origin::Root ==> r == Err::<(), DispatchError<Error>>(DispatchError::BadOrigin)
                && *final(self) == *old(self),
            origin == Origin::Root ==> r is Ok
                && is_baseline_state(final(self).state, old(self).config.baseline_multiplier, old(self).block_number)
                && final(self).events == old(self).events
                && final(self).config == old(self).config
                && final(self).block_number == old(self).block_number,
    {
        ensure_root::<Error>(origin)?;
        self.state = baseline_state(self.config.baseline_multiplier, self.block_number);
        Ok(())
    }

    /// Signed: raises the multiplier by `signal / smoothing` (saturating) for a
    /// positive signal, and logs the new value.
    pub fn update_multiplier(&mut self, origin: Origin, signal: u32) -> (r: DispatchResult<Error>)
        ensures
            !(origin is Signed) ==> r == Err::<(), DispatchError<Error>>(DispatchError::BadOrigin),
            origin is Signed && signal == 0 ==>
                r == Err::<(), DispatchError<Error>>(DispatchError::Module(Error::InvalidSignal)),
            origin is Signed && signal > 0 && old(self).config.smoothing_factor == 0 ==>
                r == Err::<(), DispatchError<Error>>(DispatchError::Module(Error::ZeroSmoothingFactor)),
            r is Err ==> *final(self) == *old(self),
            origin is Signed && signal > 0 && old(self).config.smoothing_factor > 0 ==> {
                let old_m = old(self).state.current_multiplier;
                let m = old_m.saturating_add(signal / old(self).config.smoothing_factor);
                &&& r is Ok
                &&& final(self).state.current_multiplier == m
                &&& final(self).state.history@ == old(self).state.history@.push(
                    GrowthData { multiplier: m, signal, timestamp: old(self).block_number })
                &&& final(self).events@ == old(self).events@.push(Event::GrowthMultiplierUpdated(old_m, m, signal))
                &&& final(self).config == old(self).config
                &&& final(self).block_number == old(self).block_number
            },
    {
        ensure_signed::<Error>(origin)?;
        if signal == 0 {
            return Err(DispatchError::Module(Error::InvalidSignal));
        }
        let smoothing = self.config.smoothing_factor;
        if smoothing == 0 {
            return Err(DispatchError::Module(Error::ZeroSmoothingFactor));
        }
        let old_multiplier = self.state.current_multiplier;
        let new_multiplier = old_multiplier.saturating_add(signal / smoothing);
        self.state.current_multiplier = new_multiplier;
        self.state.history.push(GrowthData { multiplier: new_multiplier, signal, timestamp: self.block_number });
        self.events.push(Event::GrowthMultiplierUpdated(old_multiplier, new_multiplier, signal));
        Ok(())
    }
}

} // verus!
