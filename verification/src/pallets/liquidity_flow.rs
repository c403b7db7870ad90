//! Liquidity flow: a liquidity level raised by adjustment metrics, smoothed by
//! a constant factor, with every adjustment logged.

use vstd::prelude::*;
use crate::frame::{ensure_root, ensure_signed, DispatchError, DispatchResult, Origin};

verus! {

/// One logged adjustment.
#[derive(Clone, Copy, Debug, PartialEq, Eq)]
pub struct LiquidityRecord {
    pub timestamp: u64,
    pub previous_level: u32,
    pub new_level: u32,
    pub adjustment_metric: u32,
}

/// The level and its log.
#[derive(Clone, Debug, PartialEq, Eq, Default)]
pub struct LiquidityState {
    pub current_level: u32,
    pub history: Vec<LiquidityRecord>,
}

#[derive(Clone, Copy, Debug, PartialEq, Eq)]
pub enum Event {
    /// (previous level, new level, adjustment metric)
    LiquidityUpdated(u32, u32, u32),
}

#[derive(Clone, Copy, Debug, PartialEq, Eq)]
pub enum Error {
    InvalidAdjustmentMetric,
    ZeroSmoothingFactor,
}

/// The pallet's constants.
#[derive(Clone, Copy, Debug, PartialEq, Eq)]
pub struct Config {
    pub baseline_liquidity: u32,
    pub smoothing_factor: u32,
}

/// The pallet's storage and the events it has deposited.
#[derive(Clone, Debug, PartialEq, Eq)]
pub struct Pallet {
    pub config: Config,
    pub state: LiquidityState,
    pub events: Vec<Event>,
    /// Current block number.
    pub block_number: u64,
}

/// Genesis settings: a given state, or the baseline one.
#[derive(Clone, Debug, PartialEq, Eq, Default)]
pub struct GenesisConfig {
    pub liquidity_state: Option<LiquidityState>,
}

/// The state at the baseline: one log entry from 0 to the baseline.
pub open spec fn is_baseline_state(s: LiquidityState, baseline: u32, block: u64) -> bool {
    s.current_level == baseline && s.history@ == seq![LiquidityRecord {
        timestamp: block,
        previous_level: 0,
        new_level: baseline,
        adjustment_metric: 0,
    }]
}

fn baseline_state(baseline: u32, block: u64) -> (s: LiquidityState)
    ensures
        is_baseline_state(s, baseline, block),
{
    let mut history: Vec<LiquidityRecord> = Vec::new();
    history.push(LiquidityRecord { timestamp: block, previous_level: 0, new_level: baseline, adjustment_metric: 0 });
    LiquidityState { current_level: baseline, history }
}

impl GenesisConfig {
    /// The pallet at genesis: with the given state, else at the baseline.
    pub fn build(self, config: Config) -> (p: Pallet)
        ensures
            p.config == config,
            p.block_number == 0,
            p.events@.len() == 0,
            match self.liquidity_state {
                Some(s) => p.state == s,
                None => is_baseline_state(p.state, config.baseline_liquidity, 0),
            },
    {
        let state = match self.liquidity_state {
            Some(s) => s,
            None => baseline_state(config.baseline_liquidity, 0),
        };
        Pallet { config, state, events: Vec::new(), block_number: 0 }
    }
}

impl Pallet {
    /// A pallet with empty storage.
    pub fn new(config: Config) -> (p: Self)
        ensures
            p.config == config,
            p.state.current_level == 0,
            p.state.history@.len() == 0,
            p.events@.len() == 0,
            p.block_number == 0,
    {
        Pallet { config, state: LiquidityState { current_level: 0, history: Vec::new() }, events: Vec::new(), block_number: 0 }
    }

    /// Sets the current block number.
    pub fn set_block_number(&mut self, n: u64)
        ensures
            *final(self) == (Pallet { block_number: n, ..*old(self) }),
    {
        self.block_number = n;
    }

    /// Root only: resets the state to the baseline level with one log entry.
    pub fn initialize_state(&mut self, origin: Origin) -> (r: DispatchResult<Error>)
        ensures
            origin != Origin::Root ==> r == Err::<(), DispatchError<Error>>(DispatchError::BadOrigin)
                && *final(self) == *old(self),
            origin == Origin::Root ==> r is Ok
                && is_baseline_state(final(self).state, old(self).config.baseline_liquidity, old(self).block_number)
                && final(self).events == old(self).events
                && final(self).config == old(self).config
                && final(self).block_number == old(self).block_number,
    {
        ensure_root::<Error>(origin)?;
        self.state = baseline_state(self.config.baseline_liquidity, self.block_number);
        Ok(())
    }

    /// Signed: raises the level by `metric / smoothing` (saturating) for a
    /// positive metric, and logs the adjustment.
    pub fn update_liquidity(&mut self, origin: Origin, adjustment_metric: u32) -> (r: DispatchResult<Error>)
        ensures
            !(origin is Signed) ==> r == Err::<(), DispatchError<Error>>(DispatchError::BadOrigin),
            origin is Signed && adjustment_metric == 0 ==>
                r == Err::<(), DispatchError<Error>>(DispatchError::Module(Error::InvalidAdjustmentMetric)),
            origin is Signed && adjustment_metric > 0 && old(self).config.smoothing_factor == 0 ==>
                r == Err::<(), DispatchError<Error>>(DispatchError::Module(Error::ZeroSmoothingFactor)),
            r is Err ==> *final(self) == *old(self),
            origin is Signed && adjustment_metric > 0 && old(self).config.smoothing_factor > 0 ==> {
                let prev = old(self).state.current_level;
                let new = prev.saturating_add(adjustment_metric / old(self).config.smoothing_factor);
                &&& r is Ok
                &&& final(self).state.current_level == new
                &&& final(self).state.history@ == old(self).state.history@.push(LiquidityRecord {
                    timestamp: old(self).block_number,
                    previous_level: prev,
                    new_level: new,
                    adjustment_metric,
                })
                &&& final(self).events@ == old(self).events@.push(Event::LiquidityUpdated(prev, new, adjustment_metric))
                &&& final(self).config == old(self).config
                &&& final(self).block_number == old(self).block_number
            },
    {
        ensure_signed::<Error>(origin)?;
        if adjustment_metric == 0 {
            return Err(DispatchError::Module(Error::InvalidAdjustmentMetric));
        }
        let smoothing = self.config.smoothing_factor;
        if smoothing == 0 {
            return Err(DispatchError::Module(Error::ZeroSmoothingFactor));
        }
        let previous_level = self.state.current_level;
        let new_level = previous_level.saturating_add(adjustment_metric / smoothing);
        self.state.current_level = new_level;
        self.state.history.push(LiquidityRecord {
            timestamp: self.block_number,
            previous_level,
            new_level,
            adjustment_metric,
        });
        self.events.push(Event::LiquidityUpdated(previous_level, new_level, adjustment_metric));
        Ok(())
    }
}

} // verus!
