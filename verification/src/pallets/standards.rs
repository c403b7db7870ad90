//! Standards: root defines and updates technical standards; an operation
//! complies with a standard when its data contains the Blake2-128 digest of the
//! standard's parameters. Compliance checks are logged.

use vstd::prelude::*;
use crate::bytemap::ByteMap;
use crate::frame::{copy_bytes, ensure_root, ensure_signed, keep_last, prune_to_last, DispatchError, DispatchResult, Origin};
use crate::hashing::{blake2_128, blake2_128_digest};

verus! {

/// A standard's definition.
#[derive(Clone, Debug, PartialEq, Eq)]
pub struct Standard {
    pub id: Vec<u8>,
    pub description: Vec<u8>,
    pub parameters: Vec<u8>,
}

/// A logged compliance check.
#[derive(Clone, Debug, PartialEq, Eq)]
pub struct ComplianceLog {
    pub timestamp: u64,
    pub operation_details: Vec<u8>,
    pub outcome: bool,
}

#[derive(Clone, Debug, PartialEq, Eq)]
pub enum Event {
    StandardDefined(Vec<u8>),
    StandardUpdated(Vec<u8>),
    /// (standard id, outcome)
    ComplianceChecked(Vec<u8>, bool),
}

#[derive(Clone, Copy, Debug, PartialEq, Eq)]
pub enum Error {
    StandardTooLong,
    StandardAlreadyExists,
    StandardNotFound,
    ComplianceCheckFailed,
}

/// The pallet's constants.
#[derive(Clone, Copy, Debug, PartialEq, Eq)]
pub struct Config {
    /// Maximal combined length of a standard's description and parameters.
    pub max_standard_length: u32,
}

/// The pallet's storage and the events it has deposited. A failed call
/// leaves storage and events as they were (calls are transactional).
#[derive(Debug)]
pub struct Pallet {
    pub config: Config,
    pub standards: ByteMap<Standard>,
    pub compliance_history: Vec<ComplianceLog>,
    pub events: Vec<Event>,
    /// Current Unix time in seconds, as given by the time provider.
    pub now: u64,
}

/// Whether `pattern` occurs as a contiguous run of `data`.
pub open spec fn has_window(data: Seq<u8>, pattern: Seq<u8>) -> bool {
    exists|i: int| 0 <= i && i + pattern.len() <= data.len() && #[trigger] data.subrange(i, i + pattern.len()) == pattern
}

/// Whether operation data complies with parameters: it holds their digest.
pub open spec fn complies(operation_data: Seq<u8>, parameters: Seq<u8>) -> bool {
    has_window(operation_data, blake2_128_digest(parameters))
}

/// The description and parameters fit the configured maximal length.
pub open spec fn fits(config: Config, description: Seq<u8>, parameters: Seq<u8>) -> bool {
    ((description.len() + parameters.len()) as u32) <= config.max_standard_length
}

fn window_matches(data: &Vec<u8>, start: usize, pattern: &Vec<u8>) -> (r: bool)
    requires
        start + pattern@.len() <= data@.len(),
    ensures
        r == (data@.subrange(start as int, start + pattern@.len()) == pattern@),
{
    let mut j: usize = 0;
    while j < pattern.len()
        invariant
            start + pattern@.len() <= data@.len(),
            start + pattern.len() <= data.len(),
            j <= pattern@.len(),
            forall|k: int| 0 <= k < j ==> data@[start + k] == pattern@[k],
        decreases pattern@.len() - j,
    {
        if data[start + j] != pattern[j] {
            assert(data@.subrange(start as int, start + pattern@.len())[j as int] != pattern@[j as int]);
            return false;
        }
        j = j + 1;
    }
    assert(data@.subrange(start as int, start + pattern@.len()) =~= pattern@);
    true
}

/// Whether `pattern` (not empty) occurs as a contiguous run of `data`.
pub fn contains_window(data: &Vec<u8>, pattern: &Vec<u8>) -> (r: bool)
    requires
        pattern@.len() > 0,
    ensures
        r == has_window(data@, pattern@),
{
    if pattern.len() > data.len() {
        return false;
    }
    let last = data.len() - pattern.len();
    let mut i: usize = 0;
    while i <= last
        invariant
            last + pattern@.len() == data@.len(),
            last + pattern.len() == data.len(),
            pattern@.len() > 0,
            i <= last + 1,
            forall|k: int| 0 <= k < i ==> #[trigger] data@.subrange(k, k + pattern@.len()) != pattern@,
        decreases last + 1 - i,
    {
        if window_matches(data, i, pattern) {
            return true;
        }
        i = i + 1;
    }
    false
}

/// Whether `operation_data` holds the Blake2-128 digest of `parameters`.
pub fn check_compliance(operation_data: &Vec<u8>, parameters: &Vec<u8>) -> (r: bool)
    ensures
        r == complies(operation_data@, parameters@),
{
    let digest = blake2_128(parameters.as_slice());
    contains_window(operation_data, &digest)
}

impl Pallet {
    /// A pallet with empty storage.
    pub fn new(config: Config) -> (p: Self)
        ensures
            p.config == config,
            p.standards.view() == Map::<Seq<u8>, Standard>::empty(),
            p.compliance_history@.len() == 0,
            p.events@.len() == 0,
            p.now == 0,
    {
        Pallet { config, standards: ByteMap::new(), compliance_history: Vec::new(), events: Vec::new(), now: 0 }
    }

    /// Sets the current time.
    pub fn set_time(&mut self, now: u64)
        ensures
            final(self).now == now,
            final(self).config == old(self).config,
            final(self).standards.view() == old(self).standards.view(),
            final(self).compliance_history@ == old(self).compliance_history@,
            final(self).events@ == old(self).events@,
    {
        self.now = now;
    }

    /// Root only: defines a new standard whose description and parameters
    /// together fit the maximal length.
    pub fn define_standard(&mut self, origin: Origin, id: Vec<u8>, description: Vec<u8>, parameters: Vec<u8>) -> (r: DispatchResult<Error>)
        requires
            description@.len() + parameters@.len() <= usize::MAX,
        ensures
            origin != Origin::Root ==> r == Err::<(), DispatchError<Error>>(DispatchError::BadOrigin),
            origin == Origin::Root && !fits(old(self).config, description@, parameters@) ==>
                r == Err::<(), DispatchError<Error>>(DispatchError::Module(Error::StandardTooLong)),
            origin == Origin::Root && fits(old(self).config, description@, parameters@)
                && old(self).standards.view().contains_key(id@) ==>
                r == Err::<(), DispatchError<Error>>(DispatchError::Module(Error::StandardAlreadyExists)),
            r is Err ==> final(self).standards.view() == old(self).standards.view() && final(self).events@ == old(self).events@,
            origin == Origin::Root && fits(old(self).config, description@, parameters@)
                && !old(self).standards.view().contains_key(id@) ==> {
                let s = final(self).standards.view()[id@];
                &&& r is Ok
                &&& final(self).standards.view().dom() == old(self).standards.view().dom().insert(id@)
                &&& s.id@ == id@ && s.description == description && s.parameters == parameters
                &&& forall|k: Seq<u8>| k != id@ && #[trigger] old(self).standards.view().contains_key(k)
                    ==> final(self).standards.view()[k] == old(self).standards.view()[k]
                &&& final(self).events@ == old(self).events@.push(Event::StandardDefined(id))
            },
            final(self).config == old(self).config,
            final(self).compliance_history@ == old(self).compliance_history@,
            final(self).now == old(self).now,
    {
        ensure_root::<Error>(origin)?;
        if (description.len() + parameters.len()) as u32 > self.config.max_standard_length {
            return Err(DispatchError::Module(Error::StandardTooLong));
        }
        if self.standards.contains_key(&id) {
            return Err(DispatchError::Module(Error::StandardAlreadyExists));
        }
        let standard = Standard { id: copy_bytes(&id), description, parameters };
        self.standards.insert(copy_bytes(&id), standard);
        self.events.push(Event::StandardDefined(id));
        Ok(())
    }

    /// Root only: replaces the description and parameters of an existing
    /// standard; they must fit the maximal length.
    pub fn update_standard(&mut self, origin: Origin, id: Vec<u8>, new_description: Vec<u8>, new_parameters: Vec<u8>) -> (r: DispatchResult<Error>)
        requires
            new_description@.len() + new_parameters@.len() <= usize::MAX,
        ensures
            origin != Origin::Root ==> r == Err::<(), DispatchError<Error>>(DispatchError::BadOrigin),
            origin == Origin::Root && !fits(old(self).config, new_description@, new_parameters@) ==>
                r == Err::<(), DispatchError<Error>>(DispatchError::Module(Error::StandardTooLong)),
            origin == Origin::Root && fits(old(self).config, new_description@, new_parameters@)
                && !old(self).standards.view().contains_key(id@) ==>
                r == Err::<(), DispatchError<Error>>(DispatchError::Module(Error::StandardNotFound)),
            r is Err ==> final(self).standards.view() == old(self).standards.view() && final(self).events@ == old(self).events@,
            origin == Origin::Root && fits(old(self).config, new_description@, new_parameters@)
                && old(self).standards.view().contains_key(id@) ==> {
                let s = final(self).standards.view()[id@];
                &&& r is Ok
                &&& final(self).standards.view().dom() == old(self).standards.view().dom()
                &&& s.id@ == old(self).standards.view()[id@].id@
                &&& s.description == new_description && s.parameters == new_parameters
                &&& forall|k: Seq<u8>| k != id@ && #[trigger] old(self).standards.view().contains_key(k)
                    ==> final(self).standards.view()[k] == old(self).standards.view()[k]
                &&& final(self).events@ == old(self).events@.push(Event::StandardUpdated(id))
            },
            final(self).config == old(self).config,
            final(self).compliance_history@ == old(self).compliance_history@,
            final(self).now == old(self).now,
    {
        ensure_root::<Error>(origin)?;
        if (new_description.len() + new_parameters.len()) as u32 > self.config.max_standard_length {
            return Err(DispatchError::Module(Error::StandardTooLong));
        }
        let stored_id = match self.standards.get(&id) {
            None => {
                return Err(DispatchError::Module(Error::StandardNotFound));
            },
            Some(s) => copy_bytes(&s.id),
        };
        let standard = Standard { id: stored_id, description: new_description, parameters: new_parameters };
        self.standards.insert(copy_bytes(&id), standard);
        assert(self.standards.view().dom() =~= old(self).standards.view().dom());
        self.events.push(Event::StandardUpdated(id));
        Ok(())
    }

    /// Signed: checks `operation_data` against a defined standard. Where the
    /// data holds the digest of the standard's parameters the check is logged
    /// and announced; otherwise the call fails with `ComplianceCheckFailed`
    /// and, being transactional, leaves no trace.
    pub fn verify_compliance(&mut self, origin: Origin, standard_id: Vec<u8>, operation_data: Vec<u8>) -> (r: DispatchResult<Error>)
        ensures
            !(origin is Signed) ==> r == Err::<(), DispatchError<Error>>(DispatchError::BadOrigin),
            origin is Signed && !old(self).standards.view().contains_key(standard_id@) ==>
                r == Err::<(), DispatchError<Error>>(DispatchError::Module(Error::StandardNotFound)),
            origin is Signed && old(self).standards.view().contains_key(standard_id@)
                && !complies(operation_data@, old(self).standards.view()[standard_id@].parameters@) ==>
                r == Err::<(), DispatchError<Error>>(DispatchError::Module(Error::ComplianceCheckFailed)),
            r is Err ==> final(self).compliance_history@ == old(self).compliance_history@
                && final(self).events@ == old(self).events@,
            origin is Signed && old(self).standards.view().contains_key(standard_id@)
                && complies(operation_data@, old(self).standards.view()[standard_id@].parameters@) ==> {
                &&& r is Ok
                &&& final(self).compliance_history@ == old(self).compliance_history@.push(
                    ComplianceLog { timestamp: old(self).now, operation_details: operation_data, outcome: true })
                &&& final(self).events@ == old(self).events@.push(Event::ComplianceChecked(standard_id, true))
            },
            final(self).config == old(self).config,
            final(self).standards.view() == old(self).standards.view(),
            final(self).now == old(self).now,
    {
        let _ = ensure_signed::<Error>(origin)?;
        let outcome = match self.standards.get(&standard_id) {
            None => {
                return Err(DispatchError::Module(Error::StandardNotFound));
            },
            Some(standard) => check_compliance(&operation_data, &standard.parameters),
        };
        if !outcome {
            return Err(DispatchError::Module(Error::ComplianceCheckFailed));
        }
        self.compliance_history.push(ComplianceLog { timestamp: self.now, operation_details: operation_data, outcome });
        self.events.push(Event::ComplianceChecked(standard_id, outcome));
        Ok(())
    }

    /// Keeps the last `max_entries` compliance log entries.
    pub fn rotate_history(&mut self, max_entries: usize)
        ensures
            final(self).compliance_history@ == keep_last(old(self).compliance_history@, max_entries as nat),
            final(self).config == old(self).config,
            final(self).standards.view() == old(self).standards.view(),
            final(self).events@ == old(self).events@,
            final(self).now == old(self).now,
    {
        prune_to_last(&mut self.compliance_history, max_entries);
    }
}

} // verus!
