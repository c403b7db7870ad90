//! Risk management: risk events move a risk score (never below zero) and an
//! exponential moving average of risk factors; an alert is raised when the
//! score exceeds a threshold that root may change. Every event is logged.

use vstd::prelude::*;
use vstd::string::StringSliceAdditionalSpecFns;
use crate::frame::{ensure_root, ensure_signed, str_bytes, DispatchError, DispatchResult, Origin};

verus! {

/// A logged risk event.
#[derive(Clone, Debug, PartialEq, Eq)]
pub struct RiskEvent {
    pub timestamp: u64,
    pub risk_factor: i32,
    pub description: Vec<u8>,
}

/// Score, average, threshold and log.
#[derive(Clone, Debug, PartialEq, Eq, Default)]
pub struct RiskState {
    pub current_risk: i32,
    pub risk_ema: i32,
    pub threshold: i32,
    pub history: Vec<RiskEvent>,
}

#[derive(Clone, Copy, Debug, PartialEq, Eq)]
pub enum Event {
    /// (account, risk factor, new average, new score)
    RiskEventSubmitted(u64, i32, i32, i32),
    /// (old threshold, new threshold)
    RiskThresholdUpdated(i32, i32),
    /// (account, new score)
    RiskAlert(u64, i32),
}

#[derive(Clone, Copy, Debug, PartialEq, Eq)]
pub enum Error {
    InvalidRiskFactor,
    InvalidThreshold,
}

/// The pallet's constants (taken as `i32` where they enter the state).
#[derive(Clone, Copy, Debug, PartialEq, Eq)]
pub struct Config {
    pub baseline_risk: u32,
    pub risk_threshold: u32,
    pub risk_smoothing_factor: u32,
}

/// The pallet's storage and the events it has deposited.
#[derive(Clone, Debug, PartialEq, Eq)]
pub struct Pallet {
    pub config: Config,
    pub state: RiskState,
    pub events: Vec<Event>,
    /// Current Unix time in seconds, as given by the time provider.
    pub now: u64,
}

/// Division rounding toward zero, as Rust's `/` on integers does.
pub open spec fn div_toward_zero(a: int, b: int) -> int {
    if a >= 0 { a / b } else { -((-a) / b) }
}

/// The new average: the factor itself where the average is 0, else
/// `(factor + (smoothing - 1) * old) / smoothing`, rounding toward zero.
pub open spec fn next_ema(factor: i32, old_ema: i32, smoothing: i32) -> int {
    if old_ema == 0 {
        factor as int
    } else {
        div_toward_zero(factor + (smoothing - 1) * old_ema, smoothing as int)
    }
}

/// With a negative smoothing factor (a `u32` constant above `i32::MAX`,
/// taken as an `i32`), the average step stays within `i32`.
pub open spec fn negative_smoothing_fits(factor: i32, old_ema: i32, smoothing: i32) -> bool {
    &&& i32::MIN <= smoothing - 1
    &&& i32::MIN <= (smoothing - 1) * old_ema <= i32::MAX
    &&& i32::MIN <= factor + (smoothing - 1) * old_ema <= i32::MAX
    &&& i32::MIN <= next_ema(factor, old_ema, smoothing) <= i32::MAX
}

/// `submit_risk_event` computes without leaving `i32` or dividing by zero:
/// the score must fit; the average needs a non-zero smoothing factor, and
/// only a negative one can take it out of `i32`.
pub open spec fn submission_fits(config: Config, state: RiskState, factor: i32) -> bool {
    let s = config.risk_smoothing_factor as i32;
    &&& i32::MIN <= state.current_risk + factor <= i32::MAX
    &&& state.risk_ema != 0 ==> s != 0
    &&& state.risk_ema != 0 && s < 0 ==> negative_smoothing_fits(factor, state.risk_ema, s)
}

/// With a positive smoothing factor the average lies between the old
/// average and the new factor, so it is always an `i32`.
pub proof fn law_risk_ema_between(factor: i32, old_ema: i32, smoothing: i32)
    requires
        smoothing > 0,
    ensures
        old_ema == 0 ==> next_ema(factor, old_ema, smoothing) == factor,
        old_ema != 0 && factor <= old_ema ==> factor <= next_ema(factor, old_ema, smoothing) <= old_ema,
        old_ema != 0 && old_ema <= factor ==> old_ema <= next_ema(factor, old_ema, smoothing) <= factor,
{
    if old_ema != 0 {
        let f = factor as int;
        let o = old_ema as int;
        let s = smoothing as int;
        let n = f + (s - 1) * o;
        let lo = if f <= o { f } else { o };
        let hi = if f <= o { o } else { f };
        assert(lo * s <= n <= hi * s) by (nonlinear_arith)
            requires
                s > 0,
                n == f + (s - 1) * o,
                lo == (if f <= o { f } else { o }),
                hi == (if f <= o { o } else { f }),
        ;
        if n >= 0 {
            let q = n / s;
            assert(lo <= q <= hi) by (nonlinear_arith)
                requires
                    s > 0,
                    n >= 0,
                    q == n / s,
                    lo * s <= n <= hi * s,
            ;
        } else {
            let q = (-n) / s;
            assert(-hi <= q <= -lo) by (nonlinear_arith)
                requires
                    s > 0,
                    n < 0,
                    q == (-n) / s,
                    lo * s <= n <= hi * s,
            ;
        }
    }
}

impl Pallet {
    /// A pallet with empty storage.
    pub fn new(config: Config) -> (p: Self)
        ensures
            p.config == config,
            p.state.current_risk == 0 && p.state.risk_ema == 0 && p.state.threshold == 0,
            p.state.history@.len() == 0,
            p.events@.len() == 0,
            p.now == 0,
    {
        Pallet {
            config,
            state: RiskState { current_risk: 0, risk_ema: 0, threshold: 0, history: Vec::new() },
            events: Vec::new(),
            now: 0,
        }
    }

    /// Sets the current time.
    pub fn set_time(&mut self, now: u64)
        ensures
            *final(self) == (Pallet { now, ..*old(self) }),
    {
        self.now = now;
    }

    /// Root only: score and average at the baseline, the configured threshold,
    /// and an "Initialisation" log entry.
    pub fn initialize_risk(&mut self, origin: Origin) -> (r: DispatchResult<Error>)
        ensures
            origin != Origin::Root ==> r == Err::<(), DispatchError<Error>>(DispatchError::BadOrigin)
                && *final(self) == *old(self),
            origin == Origin::Root ==> {
                let c = old(self).config;
                let h = final(self).state.history@;
                &&& r is Ok
                &&& final(self).state.current_risk == c.baseline_risk as i32
                &&& final(self).state.risk_ema == c.baseline_risk as i32
                &&& final(self).state.threshold == c.risk_threshold as i32
                &&& h.len() == 1 && h[0].timestamp == old(self).now && h[0].risk_factor == 0
                    && h[0].description@ == "Initialisation".spec_bytes()
                &&& final(self).events == old(self).events
                &&& final(self).config == c
                &&& final(self).now == old(self).now
            },
    {
        ensure_root::<Error>(origin)?;
        let baseline = self.config.baseline_risk as i32;
        let threshold = self.config.risk_threshold as i32;
        let mut history: Vec<RiskEvent> = Vec::new();
        history.push(RiskEvent { timestamp: self.now, risk_factor: 0, description: str_bytes("Initialisation") });
        self.state = RiskState { current_risk: baseline, risk_ema: baseline, threshold, history };
        Ok(())
    }

    /// Signed: applies a non-zero risk factor: the average moves as
    /// `next_ema`, the score by the factor (floored at 0), the event is
    /// logged, and `RiskAlert` precedes `RiskEventSubmitted` where the new
    /// score exceeds the threshold.
    pub fn submit_risk_event(&mut self, origin: Origin, risk_factor: i32, description: Vec<u8>) -> (r: DispatchResult<Error>)
        requires
            origin is Signed && risk_factor != 0 ==> submission_fits(old(self).config, old(self).state, risk_factor),
        ensures
            !(origin is Signed) ==> r == Err::<(), DispatchError<Error>>(DispatchError::BadOrigin)
                && *final(self) == *old(self),
            origin is Signed && risk_factor == 0 ==>
                r == Err::<(), DispatchError<Error>>(DispatchError::Module(Error::InvalidRiskFactor))
                && *final(self) == *old(self),
            origin is Signed && risk_factor != 0 ==> {
                let who = origin->Signed_0;
                let st = old(self).state;
                let e = next_ema(risk_factor, st.risk_ema, old(self).config.risk_smoothing_factor as i32);
                let sum = st.current_risk + risk_factor;
                let score = if sum < 0 { 0 } else { sum };
                let submitted = Event::RiskEventSubmitted(who, risk_factor, e as i32, score as i32);
                &&& r is Ok
                &&& final(self).state.risk_ema == e
                &&& final(self).state.current_risk == score
                &&& final(self).state.threshold == st.threshold
                &&& final(self).state.history@ == st.history@.push(
                    RiskEvent { timestamp: old(self).now, risk_factor, description })
                &&& final(self).events@ == if score > st.threshold {
                    old(self).events@.push(Event::RiskAlert(who, score as i32)).push(submitted)
                } else {
                    old(self).events@.push(submitted)
                }
                &&& final(self).config == old(self).config
                &&& final(self).now == old(self).now
            },
    {
        let who = ensure_signed::<Error>(origin)?;
        if risk_factor == 0 {
            return Err(DispatchError::Module(Error::InvalidRiskFactor));
        }
        let now = self.now;
        let old_ema = self.state.risk_ema;
        let smoothing = self.config.risk_smoothing_factor as i32;
        let new_ema: i32 = if old_ema == 0 {
            risk_factor
        } else if smoothing > 0 {
            proof { law_risk_ema_between(risk_factor, old_ema, smoothing); }
            let s1: i64 = smoothing as i64 - 1;
            let o: i64 = old_ema as i64;
            assert(-0x4000_0000_0000_0000i64 <= s1 * o <= 0x4000_0000_0000_0000i64) by (nonlinear_arith)
                requires
                    0 <= s1 < 0x8000_0000,
                    -0x8000_0000 <= o < 0x8000_0000,
            ;
            let num: i64 = risk_factor as i64 + s1 * o;
            (num / (smoothing as i64)) as i32
        } else {
            let num: i32 = risk_factor + (smoothing - 1) * old_ema;
            proof {
                if smoothing == -1 && num == i32::MIN {
                    assert((0x8000_0000int) / (-1int) == -0x8000_0000int);
                }
            }
            num / smoothing
        };
        self.state.risk_ema = new_ema;
        let sum = self.state.current_risk + risk_factor;
        let new_risk = if sum < 0 { 0 } else { sum };
        self.state.current_risk = new_risk;
        self.state.history.push(RiskEvent { timestamp: now, risk_factor, description });
        if new_risk > self.state.threshold {
            self.events.push(Event::RiskAlert(who, new_risk));
        }
        self.events.push(Event::RiskEventSubmitted(who, risk_factor, new_ema, new_risk));
        Ok(())
    }

    /// Root only: sets the threshold (taken as an `i32`).
    pub fn update_threshold(&mut self, origin: Origin, new_threshold: u32) -> (r: DispatchResult<Error>)
        ensures
            origin != Origin::Root ==> r == Err::<(), DispatchError<Error>>(DispatchError::BadOrigin)
                && *final(self) == *old(self),
            origin == Origin::Root ==> r is Ok
                && final(self).state == (RiskState { threshold: new_threshold as i32, ..old(self).state })
                && final(self).events@ == old(self).events@.push(
                    Event::RiskThresholdUpdated(old(self).state.threshold, new_threshold as i32))
                && final(self).config == old(self).config
                && final(self).now == old(self).now,
    {
        ensure_root::<Error>(origin)?;
        let old_threshold = self.state.threshold;
        let t = new_threshold as i32;
        self.state.threshold = t;
        self.events.push(Event::RiskThresholdUpdated(old_threshold, t));
        Ok(())
    }
}

} // verus!
