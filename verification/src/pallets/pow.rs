//! Proof of work: miners submit work that must meet the current difficulty;
//! the difficulty is raised by signals, smoothed by a constant factor, and
//! every adjustment is logged.

use vstd::prelude::*;
use crate::frame::{ensure_root, ensure_signed, DispatchError, DispatchResult, Origin};

verus! {

/// Difficulty, accumulated work, and the log of adjustments as
/// (block, previous difficulty, new difficulty, signal).
#[derive(Clone, Debug, PartialEq, Eq, Default)]
pub struct PowState {
    pub difficulty: u32,
    pub total_work: u32,
    pub history: Vec<(u64, u32, u32, u32)>,
}

#[derive(Clone, Copy, Debug, PartialEq, Eq)]
pub enum Event {
    /// (miner, work)
    PowSubmitted(u64, u32),
    /// (previous difficulty, new difficulty, signal)
    DifficultyAdjusted(u32, u32, u32),
}

#[derive(Clone, Copy, Debug, PartialEq, Eq)]
pub enum Error {
    WorkRejected,
    InvalidWork,
}

/// The pallet's constants.
#[derive(Clone, Copy, Debug, PartialEq, Eq)]
pub struct Config {
    pub baseline_difficulty: u32,
    pub pow_smoothing_factor: u32,
}

/// The pallet's storage and the events it has deposited.
#[derive(Clone, Debug, PartialEq, Eq)]
pub struct Pallet {
    pub config: Config,
    pub state: PowState,
    pub events: Vec<Event>,
    /// Current block number.
    pub block_number: u64,
}

/// The difficulty after a signal: `difficulty + signal / smoothing`, saturating.
pub open spec fn adjusted_difficulty(difficulty: u32, signal: u32, smoothing: u32) -> u32 {
    difficulty.saturating_add(signal / smoothing)
}

impl Pallet {
    /// A pallet with empty storage.
    pub fn new(config: Config) -> (p: Self)
        ensures
            p.config == config,
            p.state.difficulty == 0,
            p.state.total_work == 0,
            p.state.history@.len() == 0,
            p.events@.len() == 0,
            p.block_number == 0,
    {
        Pallet {
            config,
            state: PowState { difficulty: 0, total_work: 0, history: Vec::new() },
            events: Vec::new(),
            block_number: 0,
        }
    }

    /// Sets the current block number.
    pub fn set_block_number(&mut self, n: u64)
        ensures
            *final(self) == (Pallet { block_number: n, ..*old(self) }),
    {
        self.block_number = n;
    }

    /// Root only: sets the difficulty to the baseline, the total work to 0,
    /// and the log to the single entry (block, 0, baseline, 0).
    pub fn initialize_pow(&mut self, origin: Origin) -> (r: DispatchResult<Error>)
        ensures
            origin != Origin::Root ==> r == Err::<(), DispatchError<Error>>(DispatchError::BadOrigin)
                && *final(self) == *old(self),
            origin == Origin::Root ==> {
                let b = old(self).config.baseline_difficulty;
                &&& r is Ok
                &&& final(self).state.difficulty == b
                &&& final(self).state.total_work == 0
                &&& final(self).state.history@ == seq![(old(self).block_number, 0u32, b, 0u32)]
                &&& final(self).events == old(self).events
                &&& final(self).config == old(self).config
                &&& final(self).block_number == old(self).block_number
            },
    {
        ensure_root::<Error>(origin)?;
        let baseline = self.config.baseline_difficulty;
        let mut history: Vec<(u64, u32, u32, u32)> = Vec::new();
        history.push((self.block_number, 0, baseline, 0));
        self.state = PowState { difficulty: baseline, total_work: 0, history };
        Ok(())
    }

    /// Signed: accepts work that is positive, comes with a non-empty signature
    /// and meets the difficulty, and adds it to the total (saturating).
    pub fn submit_work(&mut self, origin: Origin, work_value: u32, signature: Vec<u8>) -> (r: DispatchResult<Error>)
        ensures
            !(origin is Signed) ==> r == Err::<(), DispatchError<Error>>(DispatchError::BadOrigin)
                && *final(self) == *old(self),
            origin is Signed && (work_value == 0 || signature@.len() == 0) ==>
                r == Err::<(), DispatchError<Error>>(DispatchError::Module(Error::InvalidWork))
                && *final(self) == *old(self),
            origin is Signed && work_value > 0 && signature@.len() > 0 && work_value < old(self).state.difficulty ==>
                r == Err::<(), DispatchError<Error>>(DispatchError::Module(Error::WorkRejected))
                && *final(self) == *old(self),
            origin is Signed && work_value > 0 && signature@.len() > 0 && work_value >= old(self).state.difficulty ==> {
                &&& r is Ok
                &&& final(self).state == (PowState {
                    total_work: old(self).state.total_work.saturating_add(work_value),
                    ..old(self).state
                })
                &&& final(self).events@ == old(self).events@.push(Event::PowSubmitted(origin->Signed_0, work_value))
                &&& final(self).config == old(self).config
                &&& final(self).block_number == old(self).block_number
            },
    {
        let miner = ensure_signed::<Error>(origin)?;
        if work_value == 0 {
            return Err(DispatchError::Module(Error::InvalidWork));
        }
        if signature.len() == 0 {
            return Err(DispatchError::Module(Error::InvalidWork));
        }
        if work_value < self.state.difficulty {
            return Err(DispatchError::Module(Error::WorkRejected));
        }
        self.state.total_work = self.state.total_work.saturating_add(work_value);
        self.events.push(Event::PowSubmitted(miner, work_value));
        Ok(())
    }

    /// Signed: raises the difficulty by `signal / smoothing` (saturating) for a
    /// positive signal, and logs the adjustment.
    pub fn adjust_difficulty(&mut self, origin: Origin, signal: u32) -> (r: DispatchResult<Error>)
        requires
            origin is Signed && signal > 0 ==> old(self).config.pow_smoothing_factor > 0,
        ensures
            !(origin is Signed) ==> r == Err::<(), DispatchError<Error>>(DispatchError::BadOrigin)
                && *final(self) == *old(self),
            origin is Signed && signal == 0 ==>
                r == Err::<(), DispatchError<Error>>(DispatchError::Module(Error::InvalidWork))
                && *final(self) == *old(self),
            origin is Signed && signal > 0 ==> {
                let prev = old(self).state.difficulty;
                let new = adjusted_difficulty(prev, signal, old(self).config.pow_smoothing_factor);
                &&& r is Ok
                &&& final(self).state.difficulty == new
                &&& final(self).state.total_work == old(self).state.total_work
                &&& final(self).state.history@ == old(self).state.history@.push((old(self).block_number, prev, new, signal))
                &&& final(self).events@ == old(self).events@.push(Event::DifficultyAdjusted(prev, new, signal))
                &&& final(self).config == old(self).config
                &&& final(self).block_number == old(self).block_number
            },
    {
        ensure_signed::<Error>(origin)?;
        if signal == 0 {
            return Err(DispatchError::Module(Error::InvalidWork));
        }
        let previous = self.state.difficulty;
        let adjustment = signal / self.config.pow_smoothing_factor;
        let new_difficulty = previous.saturating_add(adjustment);
        self.state.history.push((self.block_number, previous, new_difficulty, signal));
        self.state.difficulty = new_difficulty;
        self.events.push(Event::DifficultyAdjusted(previous, new_difficulty, signal));
        Ok(())
    }
}


/// A difficulty adjustment never lowers the difficulty, and a signal below
/// the smoothing factor leaves it unchanged.
pub proof fn law_difficulty_never_falls(difficulty: u32, signal: u32, smoothing: u32)
    requires
        smoothing > 0,
    ensures
        adjusted_difficulty(difficulty, signal, smoothing) >= difficulty,
        signal < smoothing ==> adjusted_difficulty(difficulty, signal, smoothing) == difficulty,
{
    assert(signal < smoothing ==> signal / smoothing == 0) by (nonlinear_arith)
        requires
            smoothing > 0,
    ;
}

} // verus!
