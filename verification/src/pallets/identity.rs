//! Decentralised identities: each account registers KYC details once and may
//! update them and their verification status; every change is logged, and
//! root may prune the log.

use vstd::prelude::*;
use std::collections::HashMap;
use crate::frame::{copy_bytes, ensure_root, ensure_signed, DispatchError, DispatchResult, Origin};

verus! {

broadcast use vstd::std_specs::hash::group_hash_axioms;

/// An account's identity.
#[derive(Clone, Debug, PartialEq, Eq)]
pub struct IdentityData {
    pub kyc_details: Vec<u8>,
    pub verified: bool,
}

#[derive(Clone, Debug, PartialEq, Eq)]
pub enum Event {
    /// (account, KYC details, verification status)
    IdentityRegistered(u64, Vec<u8>, bool),
    /// (account, new KYC details, previous status, new status)
    IdentityUpdated(u64, Vec<u8>, bool, bool),
}

#[derive(Clone, Copy, Debug, PartialEq, Eq)]
pub enum Error {
    KycTooLong,
    InvalidKycDetails,
    IdentityAlreadyExists,
    IdentityNotFound,
}

/// The pallet's constants.
#[derive(Clone, Copy, Debug, PartialEq, Eq)]
pub struct Config {
    /// Verification status given at registration.
    pub default_verification: bool,
    pub max_kyc_length: u32,
}

/// A log entry: (timestamp, account, previous status, new status, KYC details).
pub type HistoryEntry = (u64, u64, bool, bool, Vec<u8>);

/// The pallet's storage and the events it has deposited.
#[derive(Clone, Debug)]
pub struct Pallet {
    pub config: Config,
    pub identities: HashMap<u64, IdentityData>,
    pub identity_history: Vec<HistoryEntry>,
    pub events: Vec<Event>,
}

/// The timestamp the pallet stamps its log with.
pub const FIXED_TIMESTAMP: u64 = 1_640_000_000;

/// Whether `e` logs a change of `who` from `prev` to `new` with `kyc`.
pub open spec fn is_entry(e: HistoryEntry, who: u64, prev: bool, new: bool, kyc: Seq<u8>) -> bool {
    e.0 == FIXED_TIMESTAMP && e.1 == who && e.2 == prev && e.3 == new && e.4@ == kyc
}

/// The KYC details are acceptable: not empty, and not longer than allowed.
pub open spec fn kyc_error(config: Config, kyc: Seq<u8>) -> Option<Error> {
    if kyc.len() == 0 {
        Some(Error::InvalidKycDetails)
    } else if (kyc.len() as u32) > config.max_kyc_length {
        Some(Error::KycTooLong)
    } else {
        None
    }
}

impl Pallet {
    /// A pallet with empty storage.
    pub fn new(config: Config) -> (p: Self)
        ensures
            p.config == config,
            p.identities@ == Map::<u64, IdentityData>::empty(),
            p.identity_history@.len() == 0,
            p.events@.len() == 0,
    {
        Pallet { config, identities: HashMap::new(), identity_history: Vec::new(), events: Vec::new() }
    }

    /// Signed: registers the caller's identity with `kyc_details` and the
    /// default verification status; an account registers once.
    pub fn register_identity(&mut self, origin: Origin, kyc_details: Vec<u8>) -> (r: DispatchResult<Error>)
        ensures
            !(origin is Signed) ==> r == Err::<(), DispatchError<Error>>(DispatchError::BadOrigin),
            origin is Signed && kyc_error(old(self).config, kyc_details@) is Some ==>
                r == Err::<(), DispatchError<Error>>(DispatchError::Module(kyc_error(old(self).config, kyc_details@)->0)),
            origin is Signed && kyc_error(old(self).config, kyc_details@) is None
                && old(self).identities@.contains_key(origin->Signed_0) ==>
                r == Err::<(), DispatchError<Error>>(DispatchError::Module(Error::IdentityAlreadyExists)),
            r is Err ==> final(self).identities@ == old(self).identities@
                && final(self).identity_history@ == old(self).identity_history@
                && final(self).events@ == old(self).events@,
            origin is Signed && kyc_error(old(self).config, kyc_details@) is None
                && !old(self).identities@.contains_key(origin->Signed_0) ==> {
                let who = origin->Signed_0;
                let dv = old(self).config.default_verification;
                &&& r is Ok
                &&& final(self).identities@.dom() == old(self).identities@.dom().insert(who)
                &&& final(self).identities@[who].kyc_details@ == kyc_details@
                &&& final(self).identities@[who].verified == dv
                &&& forall|a: u64| a != who && #[trigger] old(self).identities@.contains_key(a)
                    ==> final(self).identities@[a] == old(self).identities@[a]
                &&& final(self).identity_history@.drop_last() == old(self).identity_history@
                &&& final(self).identity_history@.len() == old(self).identity_history@.len() + 1
                &&& is_entry(final(self).identity_history@.last(), who, false, dv, kyc_details@)
                &&& final(self).events@ == old(self).events@.push(Event::IdentityRegistered(who, kyc_details, dv))
            },
            final(self).config == old(self).config,
    {
        let who = ensure_signed::<Error>(origin)?;
        if kyc_details.len() == 0 {
            return Err(DispatchError::Module(Error::InvalidKycDetails));
        }
        if kyc_details.len() as u32 > self.config.max_kyc_length {
            return Err(DispatchError::Module(Error::KycTooLong));
        }
        if self.identities.contains_key(&who) {
            return Err(DispatchError::Module(Error::IdentityAlreadyExists));
        }
        let dv = self.config.default_verification;
        self.identities.insert(who, IdentityData { kyc_details: copy_bytes(&kyc_details), verified: dv });
        self.identity_history.push((FIXED_TIMESTAMP, who, false, dv, copy_bytes(&kyc_details)));
        self.events.push(Event::IdentityRegistered(who, kyc_details, dv));
        Ok(())
    }

    /// Signed: replaces the caller's KYC details and verification status; the
    /// identity must exist.
    pub fn update_identity(&mut self, origin: Origin, new_kyc_details: Vec<u8>, new_verified: bool) -> (r: DispatchResult<Error>)
        ensures
            !(origin is Signed) ==> r == Err::<(), DispatchError<Error>>(DispatchError::BadOrigin),
            origin is Signed && kyc_error(old(self).config, new_kyc_details@) is Some ==>
                r == Err::<(), DispatchError<Error>>(DispatchError::Module(kyc_error(old(self).config, new_kyc_details@)->0)),
            origin is Signed && kyc_error(old(self).config, new_kyc_details@) is None
                && !old(self).identities@.contains_key(origin->Signed_0) ==>
                r == Err::<(), DispatchError<Error>>(DispatchError::Module(Error::IdentityNotFound)),
            r is Err ==> final(self).identities@ == old(self).identities@
                && final(self).identity_history@ == old(self).identity_history@
                && final(self).events@ == old(self).events@,
            origin is Signed && kyc_error(old(self).config, new_kyc_details@) is None
                && old(self).identities@.contains_key(origin->Signed_0) ==> {
                let who = origin->Signed_0;
                let prev = old(self).identities@[who].verified;
                &&& r is Ok
                &&& final(self).identities@.dom() == old(self).identities@.dom()
                &&& final(self).identities@[who].kyc_details@ == new_kyc_details@
                &&& final(self).identities@[who].verified == new_verified
                &&& forall|a: u64| a != who && #[trigger] old(self).identities@.contains_key(a)
                    ==> final(self).identities@[a] == old(self).identities@[a]
                &&& final(self).identity_history@.drop_last() == old(self).identity_history@
                &&& final(self).identity_history@.len() == old(self).identity_history@.len() + 1
                &&& is_entry(final(self).identity_history@.last(), who, prev, new_verified, new_kyc_details@)
                &&& final(self).events@ == old(self).events@.push(
                    Event::IdentityUpdated(who, new_kyc_details, prev, new_verified))
            },
            final(self).config == old(self).config,
    {
        let who = ensure_signed::<Error>(origin)?;
        if new_kyc_details.len() == 0 {
            return Err(DispatchError::Module(Error::InvalidKycDetails));
        }
        if new_kyc_details.len() as u32 > self.config.max_kyc_length {
            return Err(DispatchError::Module(Error::KycTooLong));
        }
        let prev_verified = match self.identities.get(&who) {
            None => {
                return Err(DispatchError::Module(Error::IdentityNotFound));
            },
            Some(identity) => identity.verified,
        };
        self.identities.insert(who, IdentityData { kyc_details: copy_bytes(&new_kyc_details), verified: new_verified });
        self.identity_history.push((FIXED_TIMESTAMP, who, prev_verified, new_verified, copy_bytes(&new_kyc_details)));
        self.events.push(Event::IdentityUpdated(who, new_kyc_details, prev_verified, new_verified));
        Ok(())
    }

    /// Root only: where the log holds more than `max_entries` entries (its
    /// length taken as a `u32`), keeps only the last `max_entries`.
    pub fn prune_identity_history(&mut self, origin: Origin, max_entries: u32) -> (r: DispatchResult<Error>)
        ensures
            origin != Origin::Root ==> r == Err::<(), DispatchError<Error>>(DispatchError::BadOrigin)
                && final(self).identity_history@ == old(self).identity_history@,
            origin == Origin::Root ==> r is Ok && final(self).identity_history@ == (
                if (old(self).identity_history@.len() as u32) > max_entries {
                    old(self).identity_history@.subrange(
                        old(self).identity_history@.len() - max_entries, old(self).identity_history@.len() as int)
                } else {
                    old(self).identity_history@
                }),
            final(self).config == old(self).config,
            final(self).identities@ == old(self).identities@,
            final(self).events@ == old(self).events@,
    {
        ensure_root::<Error>(origin)?;
        let len = self.identity_history.len();
        if (len as u32) > max_entries {
            let tail = self.identity_history.split_off(len - max_entries as usize);
            self.identity_history = tail;
        }
        Ok(())
    }
}

} // verus!
