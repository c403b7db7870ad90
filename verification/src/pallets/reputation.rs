//! Reputation: per-account scores adjusted by signed deltas (negative ones
//! multiplied by a penalty factor), governance proposals that change the
//! penalty factor once enough votes are in, and an end-of-block adjustment
//! that lifts every score below the initial one by a point.

use vstd::prelude::*;
use vstd::string::StringSliceAdditionalSpecFns;
use vstd::std_specs::hash::spec_keys_iter;
use vstd::std_specs::iter::IteratorSpec;
use std::collections::HashMap;
use std::collections::HashSet;
use crate::frame::{
    ensure_root, ensure_signed, sat_mul_i32, saturating_mul_i32, str_bytes, DispatchError, DispatchResult,
    Origin,
};

verus! {

broadcast use vstd::std_specs::hash::group_hash_axioms;

/// A logged reputation change.
#[derive(Clone, Debug, PartialEq, Eq)]
pub struct ReputationLog {
    pub timestamp: u64,
    pub delta: i32,
    pub reason: Vec<u8>,
}

/// An account's score and its log.
#[derive(Clone, Debug, PartialEq, Eq)]
pub struct ReputationRecord {
    pub score: u32,
    pub history: Vec<ReputationLog>,
}

/// What a governance proposal changes.
#[derive(Clone, Copy, Debug, PartialEq, Eq)]
pub enum ProposalType {
    UpdatePenaltyFactor,
}

/// A governance proposal.
#[derive(Clone, Debug, PartialEq, Eq)]
pub struct Proposal {
    pub id: u32,
    pub proposer: u64,
    pub proposal_type: ProposalType,
    pub new_value: u32,
    pub description: Vec<u8>,
    pub vote_count: u32,
    pub finalized: bool,
}

#[derive(Clone, Copy, Debug, PartialEq, Eq)]
pub enum Event {
    /// (account, applied delta, new score)
    ReputationUpdated(u64, i32, u32),
    /// New penalty factor.
    GovernanceParameterUpdated(u32),
    /// (proposal id, proposer)
    ProposalCreated(u32, u64),
    /// (proposal id, voter, vote)
    ProposalVoted(u32, u64, bool),
    /// (proposal id, adopted value)
    ProposalFinalized(u32, u32),
    /// Number of accounts lifted by the end-of-block adjustment.
    AutomatedReputationAdjustment(u32),
}

#[derive(Clone, Copy, Debug, PartialEq, Eq)]
pub enum Error {
    ReputationNotFound,
    ReputationUnderflow,
    ReputationAlreadyInitialized,
    ProposalNotFound,
    AlreadyVoted,
    ProposalThresholdNotMet,
    ProposalAlreadyFinalized,
}

/// The pallet's constants. The governance origin is root.
#[derive(Clone, Copy, Debug, PartialEq, Eq)]
pub struct Config {
    pub initial_reputation: u32,
    /// Votes a proposal needs to be adopted.
    pub proposal_threshold: u32,
}

/// Genesis settings.
#[derive(Clone, Copy, Debug, PartialEq, Eq)]
pub struct GenesisConfig {
    pub initial_penalty_factor: u32,
}

impl Default for GenesisConfig {
    fn default() -> (g: Self)
        ensures
            g.initial_penalty_factor == 1,
    {
        GenesisConfig { initial_penalty_factor: 1 }
    }
}

/// The pallet's storage and the events it has deposited.
#[derive(Debug)]
pub struct Pallet {
    pub config: Config,
    pub reputations: HashMap<u64, ReputationRecord>,
    pub penalty_factor: u32,
    pub proposals: HashMap<u32, Proposal>,
    pub proposal_count: u32,
    /// Votes cast, one key per (proposal, voter); see `vote_key`.
    pub proposal_votes: HashSet<u128>,
    pub events: Vec<Event>,
    /// Current time as given by the timestamp pallet.
    pub now: u64,
}

/// The key under which `voter`'s vote on `proposal_id` is recorded.
pub open spec fn vote_key(proposal_id: u32, voter: u64) -> u128 {
    (proposal_id as int * 0x1_0000_0000_0000_0000 + voter as int) as u128
}

fn make_vote_key(proposal_id: u32, voter: u64) -> (k: u128)
    ensures
        k == vote_key(proposal_id, voter),
{
    (proposal_id as u128) * 0x1_0000_0000_0000_0000u128 + (voter as u128)
}

/// The delta actually applied: a negative delta is multiplied by the penalty
/// factor (saturating); a non-negative one is applied as given.
pub open spec fn applied_delta(delta: i32, penalty: u32) -> i32 {
    if delta < 0 { sat_mul_i32(delta, penalty as i32) } else { delta }
}

/// The new score for a change, or the error that refuses it.
pub open spec fn reputation_outcome(score: u32, delta: i32, penalty: u32) -> Result<u32, Error> {
    let sum = (score as i32) + applied_delta(delta, penalty);
    if sum < i32::MIN || sum > i32::MAX || sum < 0 {
        Err(Error::ReputationUnderflow)
    } else {
        Ok(sum as u32)
    }
}

/// The id that the next proposal gets: the count plus one, or 1 where that overflows.
pub open spec fn next_proposal_id(count: u32) -> u32 {
    if count + 1 > u32::MAX { 1 } else { (count + 1) as u32 }
}

/// The reason logged by the end-of-block adjustment.
pub open spec fn automated_reason() -> Seq<u8> {
    "Automated adjustment".spec_bytes()
}

/// `n` is `o` after the end-of-block adjustment at time `now`: a score below
/// `initial` gains a point and a logged +1; any other record is unchanged.
pub open spec fn is_lifted(o: ReputationRecord, n: ReputationRecord, initial: u32, now: u64) -> bool {
    if o.score < initial {
        &&& n.score == o.score + 1
        &&& n.history@.len() == o.history@.len() + 1
        &&& n.history@.drop_last() == o.history@
        &&& n.history@.last().timestamp == now
        &&& n.history@.last().delta == 1
        &&& n.history@.last().reason@ == automated_reason()
    } else {
        n == o
    }
}

/// The accounts whose score is below `initial`.
pub open spec fn low_accounts(m: Map<u64, ReputationRecord>, initial: u32) -> Set<u64> {
    low_among(m.dom(), m, initial)
}

/// The members of `s` whose score in `m` is below `initial`.
pub open spec fn low_among(s: Set<u64>, m: Map<u64, ReputationRecord>, initial: u32) -> Set<u64> {
    s.filter(|a: u64| m[a].score < initial)
}

/// `n` as a `u32`, or `u32::MAX` where it does not fit.
pub open spec fn capped(n: nat) -> u32 {
    if n > u32::MAX { u32::MAX } else { n as u32 }
}

/// The accounts that have a record, each once.
fn account_ids(m: &HashMap<u64, ReputationRecord>) -> (r: Vec<u64>)
    ensures
        r@.to_set() == m@.dom(),
        r@.no_duplicates(),
{
    let mut r: Vec<u64> = Vec::new();
    let ghost all: Seq<u64> = spec_keys_iter(m).remaining().unref();
    for k in it: m.keys()
        invariant
            all == spec_keys_iter(m).remaining().unref(),
            it.seq().unref() == all,
            r@ == all.take(it.index() as int),
    {
        r.push(*k);
        assert(all.take(it.index() as int + 1) =~= r@);
    }
    assert(all.take(all.len() as int) =~= all);
    assert(spec_keys_iter(m).remaining().no_duplicates());
    r
}

impl Pallet {
    /// The pallet at genesis.
    pub fn from_genesis(config: Config, genesis: GenesisConfig) -> (p: Self)
        ensures
            p.config == config,
            p.reputations@ == Map::<u64, ReputationRecord>::empty(),
            p.penalty_factor == genesis.initial_penalty_factor,
            p.proposals@ == Map::<u32, Proposal>::empty(),
            p.proposal_count == 0,
            p.proposal_votes@ == Set::<u128>::empty(),
            p.events@.len() == 0,
            p.now == 0,
    {
        Pallet {
            config,
            reputations: HashMap::new(),
            penalty_factor: genesis.initial_penalty_factor,
            proposals: HashMap::new(),
            proposal_count: 0,
            proposal_votes: HashSet::new(),
            events: Vec::new(),
            now: 0,
        }
    }

    /// The pallet at the default genesis (penalty factor 1).
    pub fn new(config: Config) -> (p: Self)
        ensures
            p.config == config,
            p.reputations@ == Map::<u64, ReputationRecord>::empty(),
            p.penalty_factor == 1,
            p.proposals@ == Map::<u32, Proposal>::empty(),
            p.proposal_count == 0,
            p.proposal_votes@ == Set::<u128>::empty(),
            p.events@.len() == 0,
            p.now == 0,
    {
        Self::from_genesis(config, GenesisConfig::default())
    }

    /// Sets the current time.
    pub fn set_timestamp(&mut self, now: u64)
        ensures
            final(self).now == now,
            final(self).config == old(self).config,
            final(self).reputations@ == old(self).reputations@,
            final(self).penalty_factor == old(self).penalty_factor,
            final(self).events@ == old(self).events@,
    {
        self.now = now;
    }

    /// Signed: gives the caller the initial score and an empty log; an
    /// account is initialised once.
    pub fn initialize_reputation(&mut self, origin: Origin) -> (r: DispatchResult<Error>)
        ensures
            !(origin is Signed) ==> r == Err::<(), DispatchError<Error>>(DispatchError::BadOrigin),
            origin is Signed && old(self).reputations@.contains_key(origin->Signed_0) ==>
                r == Err::<(), DispatchError<Error>>(DispatchError::Module(Error::ReputationAlreadyInitialized)),
            r is Err ==> final(self).reputations@ == old(self).reputations@,
            origin is Signed && !old(self).reputations@.contains_key(origin->Signed_0) ==> {
                let who = origin->Signed_0;
                &&& r is Ok
                &&& final(self).reputations@.dom() == old(self).reputations@.dom().insert(who)
                &&& final(self).reputations@[who].score == old(self).config.initial_reputation
                &&& final(self).reputations@[who].history@.len() == 0
                &&& forall|a: u64| a != who && #[trigger] old(self).reputations@.contains_key(a)
                    ==> final(self).reputations@[a] == old(self).reputations@[a]
            },
            final(self).config == old(self).config,
            final(self).penalty_factor == old(self).penalty_factor,
            final(self).events@ == old(self).events@,
    {
        let who = ensure_signed::<Error>(origin)?;
        if self.reputations.contains_key(&who) {
            return Err(DispatchError::Module(Error::ReputationAlreadyInitialized));
        }
        self.reputations.insert(who, ReputationRecord { score: self.config.initial_reputation, history: Vec::new() });
        Ok(())
    }

    /// Signed: applies `delta` to the caller's score (a negative delta times
    /// the penalty factor); the score must stay a non-negative `i32`. The
    /// change is logged with `reason`.
    pub fn update_reputation(&mut self, origin: Origin, delta: i32, reason: Vec<u8>) -> (r: DispatchResult<Error>)
        ensures
            !(origin is Signed) ==> r == Err::<(), DispatchError<Error>>(DispatchError::BadOrigin),
            origin is Signed && !old(self).reputations@.contains_key(origin->Signed_0) ==>
                r == Err::<(), DispatchError<Error>>(DispatchError::Module(Error::ReputationNotFound)),
            origin is Signed && old(self).reputations@.contains_key(origin->Signed_0)
                && reputation_outcome(old(self).reputations@[origin->Signed_0].score, delta, old(self).penalty_factor) is Err ==>
                r == Err::<(), DispatchError<Error>>(DispatchError::Module(Error::ReputationUnderflow)),
            r is Err ==> final(self).reputations@ == old(self).reputations@ && final(self).events@ == old(self).events@,
            origin is Signed && old(self).reputations@.contains_key(origin->Signed_0)
                && reputation_outcome(old(self).reputations@[origin->Signed_0].score, delta, old(self).penalty_factor) is Ok ==> {
                let who = origin->Signed_0;
                let rec = old(self).reputations@[who];
                let applied = applied_delta(delta, old(self).penalty_factor);
                let score = reputation_outcome(rec.score, delta, old(self).penalty_factor)->Ok_0;
                &&& r is Ok
                &&& final(self).reputations@.dom() == old(self).reputations@.dom()
                &&& final(self).reputations@[who] == (ReputationRecord {
                    score,
                    history: final(self).reputations@[who].history,
                })
                &&& final(self).reputations@[who].history@ == rec.history@.push(
                    ReputationLog { timestamp: old(self).now, delta: applied, reason })
                &&& forall|a: u64| a != who && #[trigger] old(self).reputations@.contains_key(a)
                    ==> final(self).reputations@[a] == old(self).reputations@[a]
                &&& final(self).events@ == old(self).events@.push(Event::ReputationUpdated(who, applied, score))
            },
            final(self).config == old(self).config,
            final(self).penalty_factor == old(self).penalty_factor,
            final(self).now == old(self).now,
    {
        let who = ensure_signed::<Error>(origin)?;
        let penalty = self.penalty_factor;
        let now = self.now;
        let ghost before = self.reputations@;
        match self.reputations.remove(&who) {
            None => Err(DispatchError::Module(Error::ReputationNotFound)),
            Some(mut record) => {
                let current = record.score as i32;
                let adjusted_delta = if delta < 0 { saturating_mul_i32(delta, penalty as i32) } else { delta };
                let new_score = match current.checked_add(adjusted_delta) {
                    None => {
                        self.reputations.insert(who, record);
                        assert(self.reputations@ =~= before);
                        return Err(DispatchError::Module(Error::ReputationUnderflow));
                    },
                    Some(s) => s,
                };
                if new_score < 0 {
                    self.reputations.insert(who, record);
                    assert(self.reputations@ =~= before);
                    return Err(DispatchError::Module(Error::ReputationUnderflow));
                }
                record.score = new_score as u32;
                record.history.push(ReputationLog { timestamp: now, delta: adjusted_delta, reason });
                let score = record.score;
                self.reputations.insert(who, record);
                self.events.push(Event::ReputationUpdated(who, adjusted_delta, score));
                Ok(())
            },
        }
    }

    /// Signed: creates a proposal to set the penalty factor to `new_value`,
    /// under the next proposal id.
    pub fn propose_parameter_update(&mut self, origin: Origin, new_value: u32, description: Vec<u8>) -> (r: DispatchResult<Error>)
        ensures
            !(origin is Signed) ==> r == Err::<(), DispatchError<Error>>(DispatchError::BadOrigin)
                && final(self).proposals@ == old(self).proposals@
                && final(self).proposal_count == old(self).proposal_count
                && final(self).events@ == old(self).events@,
            origin is Signed ==> {
                let who = origin->Signed_0;
                let id = next_proposal_id(old(self).proposal_count);
                &&& r is Ok
                &&& final(self).proposals@ == old(self).proposals@.insert(id, Proposal {
                    id,
                    proposer: who,
                    proposal_type: ProposalType::UpdatePenaltyFactor,
                    new_value,
                    description,
                    vote_count: 0,
                    finalized: false,
                })
                &&& final(self).proposal_count == id
                &&& final(self).events@ == old(self).events@.push(Event::ProposalCreated(id, who))
            },
            final(self).config == old(self).config,
            final(self).reputations@ == old(self).reputations@,
            final(self).penalty_factor == old(self).penalty_factor,
            final(self).proposal_votes@ == old(self).proposal_votes@,
    {
        let who = ensure_signed::<Error>(origin)?;
        let proposal_id = match self.proposal_count.checked_add(1) {
            Some(id) => id,
            None => 1,
        };
        let proposal = Proposal {
            id: proposal_id,
            proposer: who,
            proposal_type: ProposalType::UpdatePenaltyFactor,
            new_value,
            description,
            vote_count: 0,
            finalized: false,
        };
        self.proposals.insert(proposal_id, proposal);
        self.proposal_count = proposal_id;
        self.events.push(Event::ProposalCreated(proposal_id, who));
        Ok(())
    }

    /// Signed: the caller's vote for an open proposal; one vote per account.
    pub fn vote_on_proposal(&mut self, origin: Origin, proposal_id: u32) -> (r: DispatchResult<Error>)
        ensures
            !(origin is Signed) ==> r == Err::<(), DispatchError<Error>>(DispatchError::BadOrigin),
            origin is Signed && !old(self).proposals@.contains_key(proposal_id) ==>
                r == Err::<(), DispatchError<Error>>(DispatchError::Module(Error::ProposalNotFound)),
            origin is Signed && old(self).proposals@.contains_key(proposal_id)
                && old(self).proposals@[proposal_id].finalized ==>
                r == Err::<(), DispatchError<Error>>(DispatchError::Module(Error::ProposalAlreadyFinalized)),
            origin is Signed && old(self).proposals@.contains_key(proposal_id)
                && !old(self).proposals@[proposal_id].finalized
                && old(self).proposal_votes@.contains(vote_key(proposal_id, origin->Signed_0)) ==>
                r == Err::<(), DispatchError<Error>>(DispatchError::Module(Error::AlreadyVoted)),
            r is Err ==> final(self).proposals@ == old(self).proposals@
                && final(self).proposal_votes@ == old(self).proposal_votes@
                && final(self).events@ == old(self).events@,
            origin is Signed && old(self).proposals@.contains_key(proposal_id)
                && !old(self).proposals@[proposal_id].finalized
                && !old(self).proposal_votes@.contains(vote_key(proposal_id, origin->Signed_0)) ==> {
                let who = origin->Signed_0;
                let p = old(self).proposals@[proposal_id];
                &&& r is Ok
                &&& final(self).proposal_votes@ == old(self).proposal_votes@.insert(vote_key(proposal_id, who))
                &&& final(self).proposals@ == old(self).proposals@.insert(proposal_id,
                    Proposal { vote_count: p.vote_count.saturating_add(1), ..p })
                &&& final(self).events@ == old(self).events@.push(Event::ProposalVoted(proposal_id, who, true))
            },
            final(self).config == old(self).config,
            final(self).reputations@ == old(self).reputations@,
            final(self).penalty_factor == old(self).penalty_factor,
            final(self).proposal_count == old(self).proposal_count,
    {
        let who = ensure_signed::<Error>(origin)?;
        let ghost before = self.proposals@;
        match self.proposals.remove(&proposal_id) {
            None => Err(DispatchError::Module(Error::ProposalNotFound)),
            Some(mut proposal) => {
                if proposal.finalized {
                    self.proposals.insert(proposal_id, proposal);
                    assert(self.proposals@ =~= before);
                    return Err(DispatchError::Module(Error::ProposalAlreadyFinalized));
                }
                let key = make_vote_key(proposal_id, who);
                if self.proposal_votes.contains(&key) {
                    self.proposals.insert(proposal_id, proposal);
                    assert(self.proposals@ =~= before);
                    return Err(DispatchError::Module(Error::AlreadyVoted));
                }
                self.proposal_votes.insert(key);
                proposal.vote_count = proposal.vote_count.saturating_add(1);
                self.proposals.insert(proposal_id, proposal);
                self.events.push(Event::ProposalVoted(proposal_id, who, true));
                Ok(())
            },
        }
    }

    /// Root (the governance origin): adopts an open proposal that has reached
    /// the vote threshold: the penalty factor takes its value and the proposal
    /// is marked finalised.
    pub fn finalize_proposal(&mut self, origin: Origin, proposal_id: u32) -> (r: DispatchResult<Error>)
        ensures
            origin != Origin::Root ==> r == Err::<(), DispatchError<Error>>(DispatchError::BadOrigin),
            origin == Origin::Root && !old(self).proposals@.contains_key(proposal_id) ==>
                r == Err::<(), DispatchError<Error>>(DispatchError::Module(Error::ProposalNotFound)),
            origin == Origin::Root && old(self).proposals@.contains_key(proposal_id)
                && old(self).proposals@[proposal_id].finalized ==>
                r == Err::<(), DispatchError<Error>>(DispatchError::Module(Error::ProposalAlreadyFinalized)),
            origin == Origin::Root && old(self).proposals@.contains_key(proposal_id)
                && !old(self).proposals@[proposal_id].finalized
                && old(self).proposals@[proposal_id].vote_count < old(self).config.proposal_threshold ==>
                r == Err::<(), DispatchError<Error>>(DispatchError::Module(Error::ProposalThresholdNotMet)),
            r is Err ==> final(self).proposals@ == old(self).proposals@
                && final(self).penalty_factor == old(self).penalty_factor
                && final(self).events@ == old(self).events@,
            origin == Origin::Root && old(self).proposals@.contains_key(proposal_id)
                && !old(self).proposals@[proposal_id].finalized
                && old(self).proposals@[proposal_id].vote_count >= old(self).config.proposal_threshold ==> {
                let p = old(self).proposals@[proposal_id];
                &&& r is Ok
                &&& final(self).penalty_factor == p.new_value
                &&& final(self).proposals@ == old(self).proposals@.insert(proposal_id, Proposal { finalized: true, ..p })
                &&& final(self).events@ == old(self).events@
                    .push(Event::GovernanceParameterUpdated(p.new_value))
                    .push(Event::ProposalFinalized(proposal_id, p.new_value))
            },
            final(self).config == old(self).config,
            final(self).reputations@ == old(self).reputations@,
            final(self).proposal_count == old(self).proposal_count,
            final(self).proposal_votes@ == old(self).proposal_votes@,
    {
        ensure_root::<Error>(origin)?;
        let ghost before = self.proposals@;
        match self.proposals.remove(&proposal_id) {
            None => Err(DispatchError::Module(Error::ProposalNotFound)),
            Some(mut proposal) => {
                if proposal.finalized {
                    self.proposals.insert(proposal_id, proposal);
                    assert(self.proposals@ =~= before);
                    return Err(DispatchError::Module(Error::ProposalAlreadyFinalized));
                }
                if proposal.vote_count < self.config.proposal_threshold {
                    self.proposals.insert(proposal_id, proposal);
                    assert(self.proposals@ =~= before);
                    return Err(DispatchError::Module(Error::ProposalThresholdNotMet));
                }
                let value = proposal.new_value;
                match proposal.proposal_type {
                    ProposalType::UpdatePenaltyFactor => {
                        self.penalty_factor = value;
                        self.events.push(Event::GovernanceParameterUpdated(value));
                    },
                }
                proposal.finalized = true;
                self.proposals.insert(proposal_id, proposal);
                self.events.push(Event::ProposalFinalized(proposal_id, value));
                Ok(())
            },
        }
    }

    /// Lifts every score below the initial one by a point, logging the change,
    /// and returns how many accounts were lifted (capped at `u32::MAX`).
    fn automated_reputation_adjustment(&mut self) -> (affected: u32)
        ensures
            final(self).reputations@.dom() == old(self).reputations@.dom(),
            forall|a: u64| #[trigger] old(self).reputations@.contains_key(a) ==> is_lifted(
                old(self).reputations@[a], final(self).reputations@[a], old(self).config.initial_reputation, old(self).now),
            affected == capped(low_accounts(old(self).reputations@, old(self).config.initial_reputation).len()),
            final(self).config == old(self).config,
            final(self).penalty_factor == old(self).penalty_factor,
            final(self).proposals@ == old(self).proposals@,
            final(self).proposal_count == old(self).proposal_count,
            final(self).proposal_votes@ == old(self).proposal_votes@,
            final(self).events@ == old(self).events@,
            final(self).now == old(self).now,
    {
        let ids = account_ids(&self.reputations);
        let initial = self.config.initial_reputation;
        let now = self.now;
        let ghost start = self.reputations@;
        let ghost mut lifted: Set<u64> = Set::empty();
        let mut affected: u32 = 0;
        let mut i: usize = 0;
        while i < ids.len()
            invariant
                ids@.to_set() == start.dom(),
                ids@.no_duplicates(),
                i <= ids@.len(),
                initial == self.config.initial_reputation,
                now == self.now,
                self.reputations@.dom() == start.dom(),
                forall|a: u64| #[trigger] start.contains_key(a) ==> if ids@.take(i as int).contains(a) {
                    is_lifted(start[a], self.reputations@[a], initial, now)
                } else {
                    self.reputations@[a] == start[a]
                },
                lifted == low_among(ids@.take(i as int).to_set(), start, initial),
                lifted.finite(),
                affected == capped(lifted.len()),
                self.config == old(self).config,
                self.penalty_factor == old(self).penalty_factor,
                self.proposals@ == old(self).proposals@,
                self.proposal_count == old(self).proposal_count,
                self.proposal_votes@ == old(self).proposal_votes@,
                self.events@ == old(self).events@,
                start == old(self).reputations@,
            decreases ids@.len() - i,
        {
            let k = ids[i];
            assert(ids@.take(i as int + 1) =~= ids@.take(i as int).push(k));
            proof {
                ids@.take(i as int).lemma_push_to_set_commute(k);
                assert(ids@.contains(k));
                assert(start.contains_key(k));
                assert(!ids@.take(i as int).contains(k)) by {
                    if ids@.take(i as int).contains(k) {
                        let j = choose|j: int| 0 <= j < i && ids@.take(i as int)[j] == k;
                        assert(ids@[j] == ids@[i as int]);
                    }
                }
            }
            let ghost before = self.reputations@;
            let ghost lifted_before = lifted;
            match self.reputations.remove(&k) {
                None => {
                    assert(false);
                },
                Some(mut rec) => {
                    assert(rec == start[k]);
                    assert(!ids@.take(i as int).to_set().contains(k));
                    assert(!lifted.contains(k));
                    if rec.score < initial {
                        rec.score = rec.score + 1;
                        rec.history.push(ReputationLog { timestamp: now, delta: 1, reason: str_bytes("Automated adjustment") });
                        let ghost nrec = rec;
                        self.reputations.insert(k, rec);
                        proof {
                            lifted = lifted.insert(k);
                            assert(nrec.history@.drop_last() =~= start[k].history@);
                            assert(is_lifted(start[k], self.reputations@[k], initial, now));
                        }
                        affected = affected.saturating_add(1);
                    } else {
                        self.reputations.insert(k, rec);
                    }
                },
            }
            proof {
                assert(before[k] == start[k]);
                assert forall|a: u64| #[trigger] start.contains_key(a) implies if ids@.take(i as int + 1).contains(a) {
                    is_lifted(start[a], self.reputations@[a], initial, now)
                } else {
                    self.reputations@[a] == start[a]
                } by {
                    if a != k {
                        assert(self.reputations@[a] == before[a]);
                        assert(ids@.take(i as int + 1).contains(a) == ids@.take(i as int).contains(a));
                    } else {
                        assert(ids@.take(i as int + 1)[i as int] == k);
                        assert(ids@.take(i as int + 1).contains(a));
                    }
                }
                assert(self.reputations@.dom() =~= start.dom());
                assert(ids@.take(i as int + 1).to_set() == ids@.take(i as int).to_set().insert(k));
                assert(lifted.contains(k) == (start[k].score < initial));
                assert forall|a: u64| #[trigger] low_among(ids@.take(i as int + 1).to_set(), start, initial).contains(a) == lifted.contains(a) by {
                    if a != k {
                        assert(ids@.take(i as int + 1).to_set().contains(a) == ids@.take(i as int).to_set().contains(a));
                        assert(lifted.contains(a) == lifted_before.contains(a));
                        assert(lifted_before.contains(a) == (ids@.take(i as int).to_set().contains(a) && start[a].score < initial));
                    } else {
                        assert(ids@.take(i as int + 1).to_set().contains(k));
                    }
                }
                assert(lifted =~= low_among(ids@.take(i as int + 1).to_set(), start, initial));
            }
            i = i + 1;
        }
        assert(ids@.take(ids@.len() as int) =~= ids@);
        assert(lifted =~= low_accounts(start, initial));
        affected
    }

    /// End-of-block hook: runs the adjustment and, where it lifted any
    /// account, deposits `AutomatedReputationAdjustment` with the count.
    pub fn on_finalize(&mut self, _block: u64)
        ensures
            final(self).reputations@.dom() == old(self).reputations@.dom(),
            forall|a: u64| #[trigger] old(self).reputations@.contains_key(a) ==> is_lifted(
                old(self).reputations@[a], final(self).reputations@[a], old(self).config.initial_reputation, old(self).now),
            ({
                let n = capped(low_accounts(old(self).reputations@, old(self).config.initial_reputation).len());
                if n > 0 {
                    final(self).events@ == old(self).events@.push(Event::AutomatedReputationAdjustment(n))
                } else {
                    final(self).events@ == old(self).events@
                }
            }),
            final(self).config == old(self).config,
            final(self).penalty_factor == old(self).penalty_factor,
            final(self).proposals@ == old(self).proposals@,
            final(self).proposal_count == old(self).proposal_count,
            final(self).proposal_votes@ == old(self).proposal_votes@,
            final(self).now == old(self).now,
    {
        let affected = self.automated_reputation_adjustment();
        if affected > 0 {
            self.events.push(Event::AutomatedReputationAdjustment(affected));
        }
    }
}


/// Distinct (proposal, voter) pairs get distinct vote keys: a voter's vote on
/// one proposal never stands for another vote.
pub proof fn law_vote_keys_distinct(p1: u32, v1: u64, p2: u32, v2: u64)
    ensures
        vote_key(p1, v1) == vote_key(p2, v2) <==> (p1 == p2 && v1 == v2),
{
    let a = p1 as int * 0x1_0000_0000_0000_0000 + v1 as int;
    let b = p2 as int * 0x1_0000_0000_0000_0000 + v2 as int;
    assert(0 <= a <= u128::MAX && 0 <= b <= u128::MAX) by (nonlinear_arith)
        requires
            a == p1 as int * 0x1_0000_0000_0000_0000 + v1 as int,
            b == p2 as int * 0x1_0000_0000_0000_0000 + v2 as int,
            0 <= p1 <= u32::MAX,
            0 <= p2 <= u32::MAX,
            0 <= v1 <= u64::MAX,
            0 <= v2 <= u64::MAX,
    ;
    assert(a == b ==> p1 == p2 && v1 == v2) by (nonlinear_arith)
        requires
            a == p1 as int * 0x1_0000_0000_0000_0000 + v1 as int,
            b == p2 as int * 0x1_0000_0000_0000_0000 + v2 as int,
            0 <= v1 <= u64::MAX,
            0 <= v2 <= u64::MAX,
    ;
}

/// The end-of-block adjustment never lowers a score and never lifts one past
/// the initial score.
pub proof fn law_adjustment_never_overshoots(o: ReputationRecord, n: ReputationRecord, initial: u32, now: u64)
    requires
        is_lifted(o, n, initial, now),
    ensures
        n.score >= o.score,
        o.score < initial ==> n.score <= initial,
        o.score >= initial ==> n == o,
{
}

/// A change that is accepted moves the score by exactly the applied delta,
/// and a gain never fails unless the score would leave `i32` (for scores
/// that are themselves `i32` values).
pub proof fn law_reputation_change(score: u32, delta: i32, penalty: u32)
    requires
        score <= i32::MAX,
    ensures
        reputation_outcome(score, delta, penalty) matches Ok(s) ==> s == score + applied_delta(delta, penalty),
        delta >= 0 && score + delta <= i32::MAX ==> reputation_outcome(score, delta, penalty) is Ok,
{
}

/// The accounts recorded as having voted on `proposal_id`.
pub open spec fn voters_of(votes: Set<u128>, proposal_id: u32) -> Set<u64> {
    Set::new(|a: u64| votes.contains(vote_key(proposal_id, a)))
}

/// Each proposal's vote count is the number of accounts recorded as voting on it.
pub open spec fn counts_match(proposals: Map<u32, Proposal>, votes: Set<u128>) -> bool {
    forall|id: u32| #[trigger] proposals.contains_key(id) ==> voters_of(votes, id).finite()
        && proposals[id].vote_count == voters_of(votes, id).len()
}

/// A successful vote keeps every proposal's vote count equal to the number of
/// its recorded voters (while the count is below `u32::MAX`, where it would
/// saturate): the voter is recorded once and the count grows by one. A
/// refused vote changes neither, so no account is ever counted twice.
pub proof fn law_vote_count_matches_voters(proposals: Map<u32, Proposal>, votes: Set<u128>, proposal_id: u32, who: u64)
    requires
        counts_match(proposals, votes),
        proposals.contains_key(proposal_id),
        !votes.contains(vote_key(proposal_id, who)),
        proposals[proposal_id].vote_count < u32::MAX,
    ensures
        ({
            let p = proposals[proposal_id];
            counts_match(
                proposals.insert(proposal_id, Proposal { vote_count: p.vote_count.saturating_add(1), ..p }),
                votes.insert(vote_key(proposal_id, who)),
            )
        }),
{
    let p = proposals[proposal_id];
    let new_props = proposals.insert(proposal_id, Proposal { vote_count: p.vote_count.saturating_add(1), ..p });
    let k = vote_key(proposal_id, who);
    let new_votes = votes.insert(k);
    assert forall|id: u32| #[trigger] new_props.contains_key(id) implies voters_of(new_votes, id).finite()
        && new_props[id].vote_count == voters_of(new_votes, id).len() by {
        if id == proposal_id {
            assert forall|a: u64| #[trigger] voters_of(new_votes, id).contains(a)
                == voters_of(votes, id).insert(who).contains(a) by {
                law_vote_keys_distinct(id, a, proposal_id, who);
            }
            assert(voters_of(new_votes, id) =~= voters_of(votes, id).insert(who));
            assert(!voters_of(votes, id).contains(who));
        } else {
            assert forall|a: u64| #[trigger] voters_of(new_votes, id).contains(a)
                == voters_of(votes, id).contains(a) by {
                law_vote_keys_distinct(id, a, proposal_id, who);
            }
            assert(voters_of(new_votes, id) =~= voters_of(votes, id));
        }
    }
}

} // verus!
