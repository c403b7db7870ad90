//! Stability guard: a stability parameter that follows the changes of an
//! exponential moving average of reported volatility, clamped to bounds.

use vstd::prelude::*;
use crate::frame::{ema_step_u32, ema_u32, ensure_root, ensure_signed, lemma_ema_u32_between, DispatchError, DispatchResult, Origin};

verus! {

/// One logged adjustment.
#[derive(Clone, Copy, Debug, PartialEq, Eq)]
pub struct StabilityRecord {
    pub timestamp: u64,
    pub old_parameter: u32,
    pub new_parameter: u32,
    pub volatility: u32,
    pub new_ema: u32,
}

/// The parameter, the volatility average and the adjustment log.
#[derive(Clone, Debug, PartialEq, Eq, Default)]
pub struct StabilityState {
    pub current_parameter: u32,
    pub volatility_ema: u32,
    pub history: Vec<StabilityRecord>,
}

#[derive(Clone, Copy, Debug, PartialEq, Eq)]
pub enum Event {
    /// (old parameter, new parameter, volatility, new average)
    StabilityParameterUpdated(u32, u32, u32, u32),
}

#[derive(Clone, Copy, Debug, PartialEq, Eq)]
pub enum Error {
    InvalidVolatility,
    ZeroSmoothingFactor,
}

/// The pallet's constants.
#[derive(Clone, Copy, Debug, PartialEq, Eq)]
pub struct Config {
    pub baseline_parameter: u32,
    pub smoothing_factor: u32,
    pub max_stability_parameter: u32,
    pub min_stability_parameter: u32,
}

/// The pallet's storage and the events it has deposited.
#[derive(Clone, Debug, PartialEq, Eq)]
pub struct Pallet {
    pub config: Config,
    pub state: StabilityState,
    pub events: Vec<Event>,
    /// Current block number.
    pub block_number: u64,
}

/// The new average: the volatility itself where there is no average yet, else
/// `(volatility + (smoothing - 1) * old) / smoothing`, which lies between the
/// two (see `law_ema_between`).
pub open spec fn next_ema(volatility: u32, old_ema: u32, smoothing: u32) -> u32 {
    ema_u32(volatility, old_ema, smoothing) as u32
}

/// `x` brought down to `max`, then up to `min` (the upper bound is applied first).
pub open spec fn clamp(x: int, min: u32, max: u32) -> u32 {
    let capped = if x > max { max as int } else { x };
    (if capped < min { min as int } else { capped }) as u32
}

/// The new parameter: the old one moved by the change of the average (a
/// fall lowers it), clamped to the bounds.
pub open spec fn next_parameter(config: Config, old_parameter: u32, old_ema: u32, new_ema: u32) -> u32 {
    clamp(old_parameter + (new_ema - old_ema), config.min_stability_parameter, config.max_stability_parameter)
}

impl Pallet {
    /// A pallet with empty storage.
    pub fn new(config: Config) -> (p: Self)
        ensures
            p.config == config,
            p.state.current_parameter == 0,
            p.state.volatility_ema == 0,
            p.state.history@.len() == 0,
            p.events@.len() == 0,
            p.block_number == 0,
    {
        Pallet {
            config,
            state: StabilityState { current_parameter: 0, volatility_ema: 0, history: Vec::new() },
            events: Vec::new(),
            block_number: 0,
        }
    }

    /// Sets the current block number.
    pub fn set_block_number(&mut self, n: u64)
        ensures
            *final(self) == (Pallet { block_number: n, ..*old(self) }),
    {
        self.block_number = n;
    }

    /// Root only: sets the parameter to the baseline, the average to zero, and
    /// the log to a single entry.
    pub fn initialize_state(&mut self, origin: Origin) -> (r: DispatchResult<Error>)
        ensures
            origin != Origin::Root ==> r == Err::<(), DispatchError<Error>>(DispatchError::BadOrigin)
                && *final(self) == *old(self),
            origin == Origin::Root ==> {
                let b = old(self).config.baseline_parameter;
                &&& r is Ok
                &&& final(self).state.current_parameter == b
                &&& final(self).state.volatility_ema == 0
                &&& final(self).state.history@ == seq![StabilityRecord {
                    timestamp: old(self).block_number,
                    old_parameter: b,
                    new_parameter: b,
                    volatility: 0,
                    new_ema: 0,
                }]
                &&& final(self).events == old(self).events
                &&& final(self).config == old(self).config
                &&& final(self).block_number == old(self).block_number
            },
    {
        ensure_root::<Error>(origin)?;
        let baseline = self.config.baseline_parameter;
        let mut history: Vec<StabilityRecord> = Vec::new();
        history.push(StabilityRecord {
            timestamp: self.block_number,
            old_parameter: baseline,
            new_parameter: baseline,
            volatility: 0,
            new_ema: 0,
        });
        self.state = StabilityState { current_parameter: baseline, volatility_ema: 0, history };
        Ok(())
    }

    /// Signed: folds a positive volatility into the average, moves the
    /// parameter by the change of the average (up or down), clamps it to the
    /// bounds, and logs it.
    pub fn update_parameter(&mut self, origin: Origin, volatility: u32) -> (r: DispatchResult<Error>)
        ensures
            !(origin is Signed) ==> r == Err::<(), DispatchError<Error>>(DispatchError::BadOrigin),
            origin is Signed && volatility == 0 ==>
                r == Err::<(), DispatchError<Error>>(DispatchError::Module(Error::InvalidVolatility)),
            origin is Signed && volatility > 0 && old(self).config.smoothing_factor == 0 ==>
                r == Err::<(), DispatchError<Error>>(DispatchError::Module(Error::ZeroSmoothingFactor)),
            r is Err ==> *final(self) == *old(self),
            origin is Signed && volatility > 0 && old(self).config.smoothing_factor > 0 ==> {
                let c = old(self).config;
                let old_p = old(self).state.current_parameter;
                let old_e = old(self).state.volatility_ema;
                let e = next_ema(volatility, old_e, c.smoothing_factor);
                let p = next_parameter(c, old_p, old_e, e);
                &&& r is Ok
                &&& final(self).state.current_parameter == p
                &&& final(self).state.volatility_ema == e
                &&& final(self).state.history@ == old(self).state.history@.push(StabilityRecord {
                    timestamp: old(self).block_number,
                    old_parameter: old_p,
                    new_parameter: p,
                    volatility,
                    new_ema: e,
                })
                &&& final(self).events@ == old(self).events@.push(Event::StabilityParameterUpdated(old_p, p, volatility, e))
                &&& final(self).config == c
                &&& final(self).block_number == old(self).block_number
            },
    {
        ensure_signed::<Error>(origin)?;
        if volatility == 0 {
            return Err(DispatchError::Module(Error::InvalidVolatility));
        }
        let smoothing = self.config.smoothing_factor;
        if smoothing == 0 {
            return Err(DispatchError::Module(Error::ZeroSmoothingFactor));
        }
        let old_parameter = self.state.current_parameter;
        let old_ema = self.state.volatility_ema;
        let new_ema = ema_step_u32(volatility, old_ema, smoothing);
        self.state.volatility_ema = new_ema;
        let moved: i64 = old_parameter as i64 + (new_ema as i64 - old_ema as i64);
        let max = self.config.max_stability_parameter;
        let min = self.config.min_stability_parameter;
        let capped: i64 = if moved > max as i64 { max as i64 } else { moved };
        let new_parameter: u32 = if capped < min as i64 { min } else { capped as u32 };
        self.state.current_parameter = new_parameter;
        self.state.history.push(StabilityRecord {
            timestamp: self.block_number,
            old_parameter,
            new_parameter,
            volatility,
            new_ema,
        });
        self.events.push(Event::StabilityParameterUpdated(old_parameter, new_parameter, volatility, new_ema));
        Ok(())
    }
}


/// Whatever the average does, the stability parameter lands within the
/// configured bounds (when the bounds are ordered).
pub proof fn law_parameter_within_bounds(config: Config, old_parameter: u32, old_ema: u32, new_ema: u32)
    requires
        config.min_stability_parameter <= config.max_stability_parameter,
    ensures
        config.min_stability_parameter <= next_parameter(config, old_parameter, old_ema, new_ema)
            <= config.max_stability_parameter,
{
}

/// The moving average moves toward the new measure: it lies between the old
/// average and the measured volatility, for any inputs.
pub proof fn law_ema_between(volatility: u32, old_ema: u32, smoothing: u32)
    requires
        smoothing > 0,
    ensures
        old_ema == 0 ==> next_ema(volatility, old_ema, smoothing) == volatility,
        old_ema != 0 && volatility <= old_ema ==> volatility <= next_ema(volatility, old_ema, smoothing) <= old_ema,
        old_ema != 0 && old_ema <= volatility ==> old_ema <= next_ema(volatility, old_ema, smoothing) <= volatility,
        next_ema(volatility, old_ema, smoothing) == ema_u32(volatility, old_ema, smoothing),
{
    lemma_ema_u32_between(volatility, old_ema, smoothing);
}

} // verus!
