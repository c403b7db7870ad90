//! Reward engine: a reward pool from which rewards are paid to accounts,
//! either directly or computed from work and reputation; every payout is logged.

use vstd::prelude::*;
use crate::frame::{
    copy_bytes, ensure_root, ensure_signed, sat_mul_u128, saturating_mul_u128, DispatchError,
    DispatchResult, Origin,
};

verus! {

/// One logged reward payout.
#[derive(Clone, Debug, PartialEq, Eq)]
pub struct RewardRecord {
    pub timestamp: u64,
    pub account: u64,
    pub reward_amount: u128,
    pub details: Vec<u8>,
}

/// The reward pool and the payout log.
#[derive(Clone, Debug, PartialEq, Eq, Default)]
pub struct RewardEngineState {
    pub reward_pool: u128,
    pub history: Vec<RewardRecord>,
}

#[derive(Clone, Debug, PartialEq, Eq)]
pub enum Event {
    /// (account, reward, details)
    RewardDistributed(u64, u128, Vec<u8>),
    /// (previous pool, new pool)
    RewardPoolUpdated(u128, u128),
}

#[derive(Clone, Copy, Debug, PartialEq, Eq)]
pub enum Error {
    InsufficientRewardPool,
}

/// The pallet's constants.
#[derive(Clone, Copy, Debug, PartialEq, Eq)]
pub struct Config {
    pub baseline_reward_pool: u128,
}

/// The pallet's storage and the events it has deposited.
#[derive(Clone, Debug, PartialEq, Eq)]
pub struct Pallet {
    pub config: Config,
    pub state: RewardEngineState,
    pub events: Vec<Event>,
    /// Current time as given by the timestamp pallet.
    pub now: u64,
}

/// The reward for `work` at `reputation`: `work * (1 + reputation / 1000)`, saturating.
pub open spec fn dynamic_reward(work: u128, reputation: u128) -> u128 {
    sat_mul_u128(work, (1 + reputation / 1000) as u128)
}

/// Whether `r` logs a payout at `ts` of `amount` to `account` with `details`.
pub open spec fn is_record(r: RewardRecord, ts: u64, account: u64, amount: u128, details: Seq<u8>) -> bool {
    r.timestamp == ts && r.account == account && r.reward_amount == amount && r.details@ == details
}

/// Computes `work * (1 + reputation / 1000)`, saturating at `u128::MAX`.
pub fn calculate_dynamic_reward(work: u128, reputation: u128) -> (r: u128)
    ensures
        r == dynamic_reward(work, reputation),
        work * (1 + reputation / 1000) <= u128::MAX ==> r == work * (1 + reputation / 1000),
        work * (1 + reputation / 1000) > u128::MAX ==> r == u128::MAX,
{
    let reputation_factor = 1u128.saturating_add(reputation / 1_000);
    saturating_mul_u128(work, reputation_factor)
}

impl Pallet {
    /// A pallet with empty storage.
    pub fn new(config: Config) -> (p: Self)
        ensures
            p.config == config,
            p.state.reward_pool == 0,
            p.state.history@.len() == 0,
            p.events@.len() == 0,
            p.now == 0,
    {
        Pallet {
            config,
            state: RewardEngineState { reward_pool: 0, history: Vec::new() },
            events: Vec::new(),
            now: 0,
        }
    }

    /// Sets the current time.
    pub fn set_timestamp(&mut self, now: u64)
        ensures
            *final(self) == (Pallet { now, ..*old(self) }),
    {
        self.now = now;
    }

    /// Root only: fills the pool with the baseline and empties the log.
    pub fn initialize_rewards(&mut self, origin: Origin) -> (r: DispatchResult<Error>)
        ensures
            origin != Origin::Root ==> r == Err::<(), DispatchError<Error>>(DispatchError::BadOrigin)
                && *final(self) == *old(self),
            origin == Origin::Root ==> {
                &&& r is Ok
                &&& final(self).state.reward_pool == old(self).config.baseline_reward_pool
                &&& final(self).state.history@.len() == 0
                &&& final(self).events == old(self).events
                &&& final(self).config == old(self).config
                &&& final(self).now == old(self).now
            },
    {
        ensure_root::<Error>(origin)?;
        self.state = RewardEngineState { reward_pool: self.config.baseline_reward_pool, history: Vec::new() };
        Ok(())
    }

    /// Signed: pays `reward` to `account` out of the pool, which must hold it,
    /// and logs the payout.
    pub fn distribute_reward(&mut self, origin: Origin, account: u64, reward: u128, details: Vec<u8>) -> (r: DispatchResult<Error>)
        ensures
            !(origin is Signed) ==> r == Err::<(), DispatchError<Error>>(DispatchError::BadOrigin)
                && *final(self) == *old(self),
            origin is Signed && old(self).state.reward_pool < reward ==>
                r == Err::<(), DispatchError<Error>>(DispatchError::Module(Error::InsufficientRewardPool))
                && *final(self) == *old(self),
            origin is Signed && old(self).state.reward_pool >= reward ==> {
                let prev = old(self).state.reward_pool;
                &&& r is Ok
                &&& final(self).state.reward_pool == prev - reward
                &&& final(self).state.history@.len() == old(self).state.history@.len() + 1
                &&& final(self).state.history@.drop_last() == old(self).state.history@
                &&& is_record(final(self).state.history@.last(), old(self).now, account, reward, details@)
                &&& final(self).events@ == old(self).events@
                    .push(Event::RewardDistributed(account, reward, details))
                    .push(Event::RewardPoolUpdated(prev, (prev - reward) as u128))
                &&& final(self).config == old(self).config
                &&& final(self).now == old(self).now
            },
    {
        let _sender = ensure_signed::<Error>(origin)?;
        if self.state.reward_pool < reward {
            return Err(DispatchError::Module(Error::InsufficientRewardPool));
        }
        let previous_pool = self.state.reward_pool;
        self.state.reward_pool = previous_pool - reward;
        let d = copy_bytes(&details);
        self.state.history.push(RewardRecord { timestamp: self.now, account, reward_amount: reward, details: d });
        self.events.push(Event::RewardDistributed(account, reward, details));
        self.events.push(Event::RewardPoolUpdated(previous_pool, previous_pool - reward));
        Ok(())
    }

    /// Signed: adds `amount` to the pool (saturating) when `increase`, else
    /// takes it out, which the pool must cover.
    pub fn update_reward_pool(&mut self, origin: Origin, amount: u128, increase: bool) -> (r: DispatchResult<Error>)
        ensures
            !(origin is Signed) ==> r == Err::<(), DispatchError<Error>>(DispatchError::BadOrigin)
                && *final(self) == *old(self),
            origin is Signed && !increase && old(self).state.reward_pool < amount ==>
                r == Err::<(), DispatchError<Error>>(DispatchError::Module(Error::InsufficientRewardPool))
                && *final(self) == *old(self),
            origin is Signed && (increase || old(self).state.reward_pool >= amount) ==> {
                let prev = old(self).state.reward_pool;
                let new = if increase { prev.saturating_add(amount) } else { (prev - amount) as u128 };
                &&& r is Ok
                &&& final(self).state.reward_pool == new
                &&& final(self).state.history == old(self).state.history
                &&& final(self).events@ == old(self).events@.push(Event::RewardPoolUpdated(prev, new))
                &&& final(self).config == old(self).config
                &&& final(self).now == old(self).now
            },
    {
        let _sender = ensure_signed::<Error>(origin)?;
        let previous_pool = self.state.reward_pool;
        if increase {
            self.state.reward_pool = previous_pool.saturating_add(amount);
        } else {
            if previous_pool < amount {
                return Err(DispatchError::Module(Error::InsufficientRewardPool));
            }
            self.state.reward_pool = previous_pool - amount;
        }
        let new_pool = self.state.reward_pool;
        self.events.push(Event::RewardPoolUpdated(previous_pool, new_pool));
        Ok(())
    }

    /// Signed: pays `account` the reward computed from `work` and `reputation`
    /// (see `calculate_dynamic_reward`), as `distribute_reward` does.
    pub fn distribute_dynamic_reward(
        &mut self,
        origin: Origin,
        account: u64,
        work: u128,
        reputation: u128,
        details: Vec<u8>,
    ) -> (r: DispatchResult<Error>)
        ensures
            !(origin is Signed) ==> r == Err::<(), DispatchError<Error>>(DispatchError::BadOrigin)
                && *final(self) == *old(self),
            origin is Signed && old(self).state.reward_pool < dynamic_reward(work, reputation) ==>
                r == Err::<(), DispatchError<Error>>(DispatchError::Module(Error::InsufficientRewardPool))
                && *final(self) == *old(self),
            origin is Signed && old(self).state.reward_pool >= dynamic_reward(work, reputation) ==> {
                let prev = old(self).state.reward_pool;
                let reward = dynamic_reward(work, reputation);
                &&& r is Ok
                &&& final(self).state.reward_pool == prev - reward
                &&& final(self).state.history@.len() == old(self).state.history@.len() + 1
                &&& final(self).state.history@.drop_last() == old(self).state.history@
                &&& is_record(final(self).state.history@.last(), old(self).now, account, reward, details@)
                &&& final(self).events@ == old(self).events@
                    .push(Event::RewardDistributed(account, reward, details))
                    .push(Event::RewardPoolUpdated(prev, (prev - reward) as u128))
                &&& final(self).config == old(self).config
                &&& final(self).now == old(self).now
            },
    {
        let _sender = ensure_signed::<Error>(origin)?;
        let reward = calculate_dynamic_reward(work, reputation);
        self.distribute_reward(origin, account, reward, details)
    }
}


/// The dynamic reward is at least the work, equals it below a reputation of
/// 1000, and does not fall as the reputation grows.
pub proof fn law_dynamic_reward_monotone(work: u128, reputation: u128, higher: u128)
    requires
        reputation <= higher,
    ensures
        dynamic_reward(work, reputation) >= work,
        reputation < 1000 ==> dynamic_reward(work, reputation) == work,
        dynamic_reward(work, reputation) <= dynamic_reward(work, higher),
{
    let a = 1 + reputation / 1000;
    let b = 1 + higher / 1000;
    assert(reputation / 1000 <= higher / 1000) by (nonlinear_arith)
        requires
            reputation <= higher,
    ;
    assert(reputation < 1000 ==> reputation / 1000 == 0);
    assert(work * 1 == work);
    assert(work <= work * a && work * a <= work * b) by (nonlinear_arith)
        requires
            1 <= a <= b,
    ;
}

/// The dynamic reward is `work * (1 + reputation / 1000)` exactly, or
/// `u128::MAX` where that product does not fit; so below saturation every
/// further thousand of reputation adds one more `work` to the reward.
pub proof fn law_dynamic_reward_formula(work: u128, reputation: u128)
    ensures
        work * (1 + reputation / 1000) <= u128::MAX ==> dynamic_reward(work, reputation) == work * (1 + reputation / 1000),
        work * (1 + reputation / 1000) > u128::MAX ==> dynamic_reward(work, reputation) == u128::MAX,
        reputation + 1000 <= u128::MAX && work * (1 + (reputation + 1000) / 1000) <= u128::MAX
            ==> dynamic_reward(work, (reputation + 1000) as u128) == dynamic_reward(work, reputation) + work,
{
    assert((reputation + 1000) / 1000 == reputation / 1000 + 1);
    if reputation + 1000 <= u128::MAX {
        let h = (reputation + 1000) as u128;
        assert(h / 1000 == reputation / 1000 + 1);
    }
    assert(work * (1 + (reputation / 1000 + 1)) == work * (1 + reputation / 1000) + work) by (nonlinear_arith);
    assert(work * (1 + reputation / 1000) <= work * (1 + (reputation / 1000 + 1))) by (nonlinear_arith);
}

} // verus!
