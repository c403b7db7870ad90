//! The Nodara runtime: every pallet's storage side by side, and the queries
//! that the node exposes to its clients.

use vstd::prelude::*;
use crate::frame::copy_bytes;
use crate::pallets::{
    biosphere, growth_model, identity, interop, iot_bridge, liquidity_flow, marketplace, pow, predictive_guard,
    reputation, reserve_fund, reward_engine, stability_guard, standards,
};

verus! {

broadcast use vstd::std_specs::hash::group_hash_axioms;

/// The runtime's pallets (the bridge's storage lives in the biosphere pallet).
#[derive(Debug)]
pub struct Runtime {
    pub biosphere: biosphere::Pallet,
    pub growth: growth_model::Pallet,
    pub identity: identity::Pallet,
    pub interop: interop::Pallet,
    pub iot: iot_bridge::Pallet,
    pub liquidity_flow: liquidity_flow::Pallet,
    pub reward_engine: reward_engine::Pallet,
    pub stability_guard: stability_guard::Pallet,
    pub standards: standards::Pallet,
    pub pow: pow::Pallet,
    pub predictive_guard: predictive_guard::Pallet,
    pub reputation: reputation::Pallet,
    pub reserve_fund: reserve_fund::Pallet,
    pub marketplace: marketplace::Pallet,
}

/// The value the runtime's probe query answers.
pub const DUMMY_VALUE: u32 = 42;

impl Runtime {
    /// The metadata of a registered marketplace asset.
    pub fn marketplace_get_asset(&self, asset_id: u64) -> (r: Option<Vec<u8>>)
        ensures
            match r {
                Some(m) => self.marketplace.assets@.contains_key(asset_id)
                    && m@ == self.marketplace.assets@[asset_id].metadata@,
                None => !self.marketplace.assets@.contains_key(asset_id),
            },
    {
        match self.marketplace.assets.get(&asset_id) {
            Some(asset) => Some(copy_bytes(&asset.metadata)),
            None => None,
        }
    }

    /// The biosphere state.
    pub fn biosphere_get_state(&self) -> (r: &biosphere::BioState)
        ensures
            *r == self.biosphere.bio_state,
    {
        &self.biosphere.bio_state
    }

    /// The growth state.
    pub fn growth_get_state(&self) -> (r: &growth_model::GrowthState)
        ensures
            *r == self.growth.state,
    {
        &self.growth.state
    }

    /// The identity of `account`, where it has one.
    pub fn identity_get(&self, account: u64) -> (r: Option<&identity::IdentityData>)
        ensures
            match r {
                Some(d) => self.identity.identities@.contains_key(account) && *d == self.identity.identities@[account],
                None => !self.identity.identities@.contains_key(account),
            },
    {
        self.identity.identities.get(&account)
    }

    /// The interoperability log.
    pub fn interop_get_history(&self) -> (r: &Vec<interop::HistoryEntry>)
        ensures
            *r == self.interop.interop_history,
    {
        &self.interop.interop_history
    }

    /// The IoT record stored under `message_id`, where there is one.
    pub fn iot_get_record(&self, message_id: u64) -> (r: Option<&iot_bridge::IotRecord>)
        ensures
            match r {
                Some(d) => self.iot.iot_data@.contains_key(message_id) && *d == self.iot.iot_data@[message_id],
                None => !self.iot.iot_data@.contains_key(message_id),
            },
    {
        self.iot.iot_data.get(&message_id)
    }

    /// The liquidity state.
    pub fn liquidity_get_state(&self) -> (r: &liquidity_flow::LiquidityState)
        ensures
            *r == self.liquidity_flow.state,
    {
        &self.liquidity_flow.state
    }

    /// The reward engine state.
    pub fn reward_get_state(&self) -> (r: &reward_engine::RewardEngineState)
        ensures
            *r == self.reward_engine.state,
    {
        &self.reward_engine.state
    }

    /// The stability state.
    pub fn stability_get_state(&self) -> (r: &stability_guard::StabilityState)
        ensures
            *r == self.stability_guard.state,
    {
        &self.stability_guard.state
    }

    /// The standard defined under `standard_id`, where there is one.
    pub fn standards_get_standard(&self, standard_id: Vec<u8>) -> (r: Option<&standards::Standard>)
        ensures
            match r {
                Some(s) => self.standards.standards.view().contains_key(standard_id@)
                    && *s == self.standards.standards.view()[standard_id@],
                None => !self.standards.standards.view().contains_key(standard_id@),
            },
    {
        self.standards.standards.get(&standard_id)
    }

    /// The proof-of-work state.
    pub fn pow_get_state(&self) -> (r: &pow::PowState)
        ensures
            *r == self.pow.state,
    {
        &self.pow.state
    }

    /// The predictive value.
    pub fn predictive_get_value(&self) -> (r: u32)
        ensures
            r == self.predictive_guard.predictive_value,
    {
        self.predictive_guard.predictive_value
    }

    /// The reputation record of `account`, where it has one.
    pub fn reputation_get(&self, account: u64) -> (r: Option<&reputation::ReputationRecord>)
        ensures
            match r {
                Some(d) => self.reputation.reputations@.contains_key(account)
                    && *d == self.reputation.reputations@[account],
                None => !self.reputation.reputations@.contains_key(account),
            },
    {
        self.reputation.reputations.get(&account)
    }

    /// The reserve fund state.
    pub fn reserve_get_state(&self) -> (r: &reserve_fund::ReserveFundState)
        ensures
            *r == self.reserve_fund.reserve,
    {
        &self.reserve_fund.reserve
    }

    /// A probe that always answers 42.
    pub fn dummy(&self) -> (r: u32)
        ensures
            r == DUMMY_VALUE,
    {
        DUMMY_VALUE
    }
}

} // verus!
