//! Predictive guard: a predictive parameter adjusted by economic signals and
//! kept within bounds; every adjustment is logged.

use vstd::prelude::*;
use crate::frame::{ensure_signed, DispatchError, DispatchResult, Origin};

verus! {

/// One logged adjustment.
#[derive(Clone, Copy, Debug, PartialEq, Eq)]
pub struct PredictiveLog {
    pub timestamp: u64,
    pub previous_value: u32,
    pub new_value: u32,
    pub economic_signal: u32,
}

#[derive(Clone, Copy, Debug, PartialEq, Eq)]
pub enum Event {
    /// (previous value, new value, economic signal)
    PredictiveAdjusted(u32, u32, u32),
}

#[derive(Clone, Copy, Debug, PartialEq, Eq)]
pub enum Error {
    PredictiveValueOutOfBounds,
    InvalidEconomicSignal,
}

/// The pallet's constants.
#[derive(Clone, Copy, Debug, PartialEq, Eq)]
pub struct Config {
    pub baseline_predictive_value: u32,
    pub max_predictive_value: u32,
    pub min_predictive_value: u32,
}

/// The pallet's storage and the events it has deposited.
#[derive(Clone, Debug, PartialEq, Eq)]
pub struct Pallet {
    pub config: Config,
    pub predictive_value: u32,
    pub predictive_history: Vec<PredictiveLog>,
    pub events: Vec<Event>,
}

/// The smoothing divisor applied to economic signals.
pub const SIGNAL_SMOOTHING: u32 = 10;

/// The timestamp the pallet stamps its log with.
pub const FIXED_TIMESTAMP: u64 = 1_640_000_000;

/// The value that `signal` would move `current` to: `current + signal / 10`, saturating.
pub open spec fn predicted(current: u32, signal: u32) -> u32 {
    current.saturating_add(signal / SIGNAL_SMOOTHING)
}

/// Whether `v` lies within the configured bounds.
pub open spec fn within_bounds(config: Config, v: u32) -> bool {
    config.min_predictive_value <= v <= config.max_predictive_value
}

impl Pallet {
    /// A pallet with empty storage.
    pub fn new(config: Config) -> (p: Self)
        ensures
            p.config == config,
            p.predictive_value == 0,
            p.predictive_history@.len() == 0,
            p.events@.len() == 0,
    {
        Pallet { config, predictive_value: 0, predictive_history: Vec::new(), events: Vec::new() }
    }

    /// Signed: sets the value to the baseline and logs the change from 0.
    pub fn initialize_predictive(&mut self, origin: Origin) -> (r: DispatchResult<Error>)
        ensures
            !(origin is Signed) ==> r == Err::<(), DispatchError<Error>>(DispatchError::BadOrigin)
                && *final(self) == *old(self),
            origin is Signed ==> {
                let b = old(self).config.baseline_predictive_value;
                &&& r is Ok
                &&& final(self).predictive_value == b
                &&& final(self).predictive_history@ == old(self).predictive_history@.push(PredictiveLog {
                    timestamp: FIXED_TIMESTAMP,
                    previous_value: 0,
                    new_value: b,
                    economic_signal: 0,
                })
                &&& final(self).events == old(self).events
                &&& final(self).config == old(self).config
            },
    {
        let _ = ensure_signed::<Error>(origin)?;
        let baseline = self.config.baseline_predictive_value;
        self.predictive_value = baseline;
        self.predictive_history.push(PredictiveLog {
            timestamp: FIXED_TIMESTAMP,
            previous_value: 0,
            new_value: baseline,
            economic_signal: 0,
        });
        Ok(())
    }

    /// Signed: moves the value by `signal / 10` (saturating) for a positive
    /// signal, provided the result stays within the bounds; logs the change.
    pub fn update_predictive(&mut self, origin: Origin, economic_signal: u32) -> (r: DispatchResult<Error>)
        ensures
            !(origin is Signed) ==> r == Err::<(), DispatchError<Error>>(DispatchError::BadOrigin),
            origin is Signed && economic_signal == 0 ==>
                r == Err::<(), DispatchError<Error>>(DispatchError::Module(Error::InvalidEconomicSignal)),
            origin is Signed && economic_signal > 0
                && !within_bounds(old(self).config, predicted(old(self).predictive_value, economic_signal)) ==>
                r == Err::<(), DispatchError<Error>>(DispatchError::Module(Error::PredictiveValueOutOfBounds)),
            r is Err ==> *final(self) == *old(self),
            r is Ok ==> within_bounds(old(self).config, final(self).predictive_value),
            origin is Signed && economic_signal > 0
                && within_bounds(old(self).config, predicted(old(self).predictive_value, economic_signal)) ==> {
                let prev = old(self).predictive_value;
                let new = predicted(prev, economic_signal);
                &&& r is Ok
                &&& final(self).predictive_value == new
                &&& final(self).predictive_history@ == old(self).predictive_history@.push(PredictiveLog {
                    timestamp: FIXED_TIMESTAMP,
                    previous_value: prev,
                    new_value: new,
                    economic_signal,
                })
                &&& final(self).events@ == old(self).events@.push(Event::PredictiveAdjusted(prev, new, economic_signal))
                &&& final(self).config == old(self).config
            },
    {
        let _ = ensure_signed::<Error>(origin)?;
        if economic_signal == 0 {
            return Err(DispatchError::Module(Error::InvalidEconomicSignal));
        }
        let current = self.predictive_value;
        let new_value = current.saturating_add(economic_signal / SIGNAL_SMOOTHING);
        if !(new_value >= self.config.min_predictive_value && new_value <= self.config.max_predictive_value) {
            return Err(DispatchError::Module(Error::PredictiveValueOutOfBounds));
        }
        self.predictive_value = new_value;
        self.predictive_history.push(PredictiveLog {
            timestamp: FIXED_TIMESTAMP,
            previous_value: current,
            new_value,
            economic_signal,
        });
        self.events.push(Event::PredictiveAdjusted(current, new_value, economic_signal));
        Ok(())
    }
}


/// A prediction never falls below the current value, and a signal below the
/// smoothing divisor predicts no change.
pub proof fn law_prediction_never_falls(current: u32, signal: u32)
    ensures
        predicted(current, signal) >= current,
        signal < SIGNAL_SMOOTHING ==> predicted(current, signal) == current,
{
}

} // verus!
