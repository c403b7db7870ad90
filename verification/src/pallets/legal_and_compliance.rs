//! Legal and compliance: each account's compliance score, which must reach a
//! minimal level that root may change; every score update is logged.

use vstd::prelude::*;
use std::collections::HashMap;
use crate::frame::{ensure_root, ensure_signed, DispatchError, DispatchResult, Origin};

verus! {

broadcast use vstd::std_specs::hash::group_hash_axioms;

#[derive(Clone, Copy, Debug, PartialEq, Eq)]
pub enum Event {
    /// (account, new score)
    ComplianceUpdated(u64, u32),
    /// (old minimal level, new minimal level)
    MinComplianceLevelUpdated(u32, u32),
}

#[derive(Clone, Copy, Debug, PartialEq, Eq)]
pub enum Error {
    ComplianceLevelTooLow,
    ComplianceRecordNotFound,
}

/// The pallet's constants.
#[derive(Clone, Copy, Debug, PartialEq, Eq)]
pub struct Config {
    /// The minimal compliance level set at genesis.
    pub min_compliance_level: u32,
}

/// The pallet's storage and the events it has deposited.
#[derive(Clone, Debug)]
pub struct Pallet {
    pub config: Config,
    /// Scores of the accounts that have one (others count as 0).
    pub compliance_status: HashMap<u64, u32>,
    /// Log of updates: (account, score, timestamp).
    pub compliance_history: Vec<(u64, u32, u64)>,
    pub min_compliance_level: u32,
    pub events: Vec<Event>,
    /// Current Unix time in seconds, as the time provider reports it.
    pub now: u64,
}

/// The time the provider reports until another is set.
pub const FIXED_TIMESTAMP: u64 = 1_640_000_000;

/// The score of `account`: its stored score, or 0.
pub open spec fn score_of(m: Map<u64, u32>, account: u64) -> u32 {
    if m.contains_key(account) { m[account] } else { 0 }
}

impl Pallet {
    /// The pallet at genesis: no scores, the minimal level from the constants.
    pub fn new(config: Config) -> (p: Self)
        ensures
            p.config == config,
            p.compliance_status@ == Map::<u64, u32>::empty(),
            p.compliance_history@.len() == 0,
            p.min_compliance_level == config.min_compliance_level,
            p.events@.len() == 0,
            p.now == FIXED_TIMESTAMP,
    {
        Pallet {
            config,
            compliance_status: HashMap::new(),
            compliance_history: Vec::new(),
            min_compliance_level: config.min_compliance_level,
            events: Vec::new(),
            now: FIXED_TIMESTAMP,
        }
    }

    /// Sets the time the provider reports.
    pub fn set_time(&mut self, now: u64)
        ensures
            final(self).now == now,
            final(self).config == old(self).config,
            final(self).compliance_status@ == old(self).compliance_status@,
            final(self).compliance_history@ == old(self).compliance_history@,
            final(self).min_compliance_level == old(self).min_compliance_level,
            final(self).events@ == old(self).events@,
    {
        self.now = now;
    }

    /// The score of `account` (0 for an account without one).
    pub fn compliance_status(&self, account: u64) -> (s: u32)
        ensures
            s == score_of(self.compliance_status@, account),
    {
        match self.compliance_status.get(&account) {
            Some(s) => *s,
            None => 0,
        }
    }

    /// Signed: sets the caller's score, which must reach the minimal level,
    /// and logs it.
    pub fn update_compliance_status(&mut self, origin: Origin, new_score: u32) -> (r: DispatchResult<Error>)
        ensures
            !(origin is Signed) ==> r == Err::<(), DispatchError<Error>>(DispatchError::BadOrigin),
            origin is Signed && new_score < old(self).min_compliance_level ==>
                r == Err::<(), DispatchError<Error>>(DispatchError::Module(Error::ComplianceLevelTooLow)),
            r is Err ==> final(self).compliance_status@ == old(self).compliance_status@
                && final(self).compliance_history@ == old(self).compliance_history@
                && final(self).events@ == old(self).events@,
            origin is Signed && new_score >= old(self).min_compliance_level ==> {
                let who = origin->Signed_0;
                &&& r is Ok
                &&& final(self).compliance_status@ == old(self).compliance_status@.insert(who, new_score)
                &&& final(self).compliance_history@ == old(self).compliance_history@.push((who, new_score, old(self).now))
                &&& final(self).events@ == old(self).events@.push(Event::ComplianceUpdated(who, new_score))
            },
            final(self).config == old(self).config,
            final(self).min_compliance_level == old(self).min_compliance_level,
            final(self).now == old(self).now,
    {
        let who = ensure_signed::<Error>(origin)?;
        if new_score < self.min_compliance_level {
            return Err(DispatchError::Module(Error::ComplianceLevelTooLow));
        }
        self.compliance_status.insert(who, new_score);
        self.compliance_history.push((who, new_score, self.now));
        self.events.push(Event::ComplianceUpdated(who, new_score));
        Ok(())
    }

    /// Root only: sets the minimal compliance level.
    pub fn update_min_compliance_level(&mut self, origin: Origin, new_min_level: u32) -> (r: DispatchResult<Error>)
        ensures
            origin != Origin::Root ==> r == Err::<(), DispatchError<Error>>(DispatchError::BadOrigin)
                && final(self).min_compliance_level == old(self).min_compliance_level
                && final(self).events@ == old(self).events@,
            origin == Origin::Root ==> r is Ok
                && final(self).min_compliance_level == new_min_level
                && final(self).events@ == old(self).events@.push(
                    Event::MinComplianceLevelUpdated(old(self).min_compliance_level, new_min_level)),
            final(self).config == old(self).config,
            final(self).compliance_status@ == old(self).compliance_status@,
            final(self).compliance_history@ == old(self).compliance_history@,
            final(self).now == old(self).now,
    {
        ensure_root::<Error>(origin)?;
        let old_level = self.min_compliance_level;
        self.min_compliance_level = new_min_level;
        self.events.push(Event::MinComplianceLevelUpdated(old_level, new_min_level));
        Ok(())
    }
}

} // verus!
