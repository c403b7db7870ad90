//! Interoperability: messages sent to and received from external chains.
//! A received message carries the Blake2-128 digest of its payload as its
//! signature. Payload length is bounded by a configuration that root may
//! change; every operation is logged and root may prune the log.

use vstd::prelude::*;
use vstd::string::StringSliceAdditionalSpecFns;
use std::collections::HashMap;
use crate::frame::{
    copy_bytes, bytes_eq, ensure_root, ensure_signed, keep_last, prune_to_last, str_bytes, DispatchError,
    DispatchResult, Origin,
};
use crate::hashing::{blake2_128, blake2_128_digest};

verus! {

broadcast use vstd::std_specs::hash::group_hash_axioms;

/// A message exchanged with an external chain.
#[derive(Clone, Debug, PartialEq, Eq)]
pub struct InteropMessage {
    pub id: u64,
    pub payload: Vec<u8>,
    pub timestamp: u64,
    pub signature: Vec<u8>,
}

/// The module's dynamic configuration.
#[derive(Clone, Copy, Debug, PartialEq, Eq, Default)]
pub struct InteropConfig {
    pub base_timeout: u64,
    pub max_payload_length: u32,
}

#[derive(Clone, Debug, PartialEq, Eq)]
pub enum Event {
    /// (id, payload)
    MessageSent(u64, Vec<u8>),
    /// (id, payload)
    MessageReceived(u64, Vec<u8>),
    /// (new configuration, details)
    ConfigUpdated(Vec<u8>, Vec<u8>),
    /// (old timeout, old maximal payload, new timeout, new maximal payload)
    ConfigParamsUpdated(u64, u32, u64, u32),
}

#[derive(Clone, Copy, Debug, PartialEq, Eq)]
pub enum Error {
    PayloadTooLong,
    VerificationFailed,
    MessageProcessingError,
}

/// The pallet's constants: the configuration used where genesis gives none.
#[derive(Clone, Copy, Debug, PartialEq, Eq)]
pub struct Config {
    pub base_timeout: u64,
    pub max_payload_length: u32,
}

/// A log entry: (timestamp, message id, operation, details).
pub type HistoryEntry = (u64, u64, Vec<u8>, Vec<u8>);

/// The pallet's storage and the events it has deposited.
#[derive(Clone, Debug)]
pub struct Pallet {
    pub config: Config,
    pub outgoing_messages: HashMap<u64, InteropMessage>,
    pub incoming_messages: HashMap<u64, InteropMessage>,
    pub interop_history: Vec<HistoryEntry>,
    pub interop_config: InteropConfig,
    pub events: Vec<Event>,
}

/// Genesis settings: a given configuration, or the constants.
#[derive(Clone, Copy, Debug, PartialEq, Eq, Default)]
pub struct GenesisConfig {
    pub initial_config: Option<InteropConfig>,
}

/// A second genesis configuration, built the same way.
pub type GenesisConfig2 = GenesisConfig;

/// The timestamp the pallet stamps messages and its log with.
pub const FIXED_TIMESTAMP: u64 = 1_640_000_000;

/// Whether `e` logs operation `op` on message `id` with `details`.
pub open spec fn is_entry(e: HistoryEntry, id: u64, op: Seq<u8>, details: Seq<u8>) -> bool {
    e.0 == FIXED_TIMESTAMP && e.1 == id && e.2@ == op && e.3@ == details
}

/// Whether `m` is the message stored for `id` with `payload` and `signature`.
pub open spec fn is_message(m: InteropMessage, id: u64, payload: Seq<u8>, signature: Seq<u8>) -> bool {
    m.id == id && m.payload@ == payload && m.timestamp == FIXED_TIMESTAMP && m.signature@ == signature
}

/// Whether `signature` accepts a payload whose digest is `digest`.
pub open spec fn signature_accepts(signature: Seq<u8>, digest: Seq<u8>) -> bool {
    signature.len() == 16 && signature == digest
}

/// Whether `signature` is the Blake2-128 digest of `payload`.
pub open spec fn signature_valid(payload: Seq<u8>, signature: Seq<u8>) -> bool {
    signature_accepts(signature, blake2_128_digest(payload))
}

/// Checks a signature against the digest of the payload it signs: the
/// signature must be 16 bytes long and equal to the digest.
pub fn signature_matches_digest(signature: &Vec<u8>, digest: &Vec<u8>) -> (r: bool)
    ensures
        r == signature_accepts(signature@, digest@),
{
    signature.len() == 16 && bytes_eq(signature, digest)
}

/// Whether `signature` is the Blake2-128 digest of `payload`.
pub fn verify_signature(payload: &Vec<u8>, signature: &Vec<u8>) -> (r: bool)
    ensures
        r == signature_valid(payload@, signature@),
{
    let digest = blake2_128(payload.as_slice());
    signature_matches_digest(signature, &digest)
}

impl GenesisConfig {
    /// The pallet at genesis, with the given configuration or else the constants.
    pub fn build(self, config: Config) -> (p: Pallet)
        ensures
            p.config == config,
            p.interop_config == (match self.initial_config {
                Some(c) => c,
                None => InteropConfig { base_timeout: config.base_timeout, max_payload_length: config.max_payload_length },
            }),
            p.outgoing_messages@ == Map::<u64, InteropMessage>::empty(),
            p.incoming_messages@ == Map::<u64, InteropMessage>::empty(),
            p.interop_history@.len() == 0,
            p.events@.len() == 0,
    {
        let interop_config = match self.initial_config {
            Some(c) => c,
            None => InteropConfig { base_timeout: config.base_timeout, max_payload_length: config.max_payload_length },
        };
        Pallet {
            config,
            outgoing_messages: HashMap::new(),
            incoming_messages: HashMap::new(),
            interop_history: Vec::new(),
            interop_config,
            events: Vec::new(),
        }
    }
}

impl Pallet {
    /// The pallet as built from the default genesis: configuration from the constants.
    pub fn new(config: Config) -> (p: Self)
        ensures
            p.config == config,
            p.interop_config == (InteropConfig { base_timeout: config.base_timeout, max_payload_length: config.max_payload_length }),
            p.outgoing_messages@ == Map::<u64, InteropMessage>::empty(),
            p.incoming_messages@ == Map::<u64, InteropMessage>::empty(),
            p.interop_history@.len() == 0,
            p.events@.len() == 0,
    {
        GenesisConfig { initial_config: None }.build(config)
    }

    /// Signed: stores an outgoing message whose payload does not exceed the
    /// configured maximum, and logs it as "Send".
    pub fn send_message(&mut self, origin: Origin, id: u64, payload: Vec<u8>, signature: Vec<u8>) -> (r: DispatchResult<Error>)
        ensures
            !(origin is Signed) ==> r == Err::<(), DispatchError<Error>>(DispatchError::BadOrigin),
            origin is Signed && (payload@.len() as u32) > old(self).interop_config.max_payload_length ==>
                r == Err::<(), DispatchError<Error>>(DispatchError::Module(Error::PayloadTooLong)),
            r is Err ==> final(self).outgoing_messages@ == old(self).outgoing_messages@
                && final(self).interop_history@ == old(self).interop_history@
                && final(self).events@ == old(self).events@,
            origin is Signed && (payload@.len() as u32) <= old(self).interop_config.max_payload_length ==> {
                &&& r is Ok
                &&& final(self).outgoing_messages@.dom() == old(self).outgoing_messages@.dom().insert(id)
                &&& is_message(final(self).outgoing_messages@[id], id, payload@, signature@)
                &&& forall|k: u64| k != id && #[trigger] old(self).outgoing_messages@.contains_key(k)
                    ==> final(self).outgoing_messages@[k] == old(self).outgoing_messages@[k]
                &&& final(self).interop_history@.drop_last() == old(self).interop_history@
                &&& final(self).interop_history@.len() == old(self).interop_history@.len() + 1
                &&& is_entry(final(self).interop_history@.last(), id, "Send".spec_bytes(), payload@)
                &&& final(self).events@ == old(self).events@.push(Event::MessageSent(id, payload))
            },
            final(self).config == old(self).config,
            final(self).interop_config == old(self).interop_config,
            final(self).incoming_messages@ == old(self).incoming_messages@,
    {
        let _sender = ensure_signed::<Error>(origin)?;
        if payload.len() as u32 > self.interop_config.max_payload_length {
            return Err(DispatchError::Module(Error::PayloadTooLong));
        }
        let message = InteropMessage { id, payload: copy_bytes(&payload), timestamp: FIXED_TIMESTAMP, signature };
        self.outgoing_messages.insert(id, message);
        self.interop_history.push((FIXED_TIMESTAMP, id, str_bytes("Send"), copy_bytes(&payload)));
        self.events.push(Event::MessageSent(id, payload));
        Ok(())
    }

    /// Signed: stores an incoming message whose signature is the Blake2-128
    /// digest of its payload and whose payload does not exceed the configured
    /// maximum, and logs it as "Receive".
    pub fn receive_message(&mut self, origin: Origin, id: u64, payload: Vec<u8>, signature: Vec<u8>) -> (r: DispatchResult<Error>)
        ensures
            !(origin is Signed) ==> r == Err::<(), DispatchError<Error>>(DispatchError::BadOrigin),
            origin is Signed && !signature_valid(payload@, signature@) ==>
                r == Err::<(), DispatchError<Error>>(DispatchError::Module(Error::VerificationFailed)),
            origin is Signed && signature_valid(payload@, signature@)
                && (payload@.len() as u32) > old(self).interop_config.max_payload_length ==>
                r == Err::<(), DispatchError<Error>>(DispatchError::Module(Error::PayloadTooLong)),
            r is Err ==> final(self).incoming_messages@ == old(self).incoming_messages@
                && final(self).interop_history@ == old(self).interop_history@
                && final(self).events@ == old(self).events@,
            origin is Signed && signature_valid(payload@, signature@)
                && (payload@.len() as u32) <= old(self).interop_config.max_payload_length ==> {
                &&& r is Ok
                &&& final(self).incoming_messages@.dom() == old(self).incoming_messages@.dom().insert(id)
                &&& is_message(final(self).incoming_messages@[id], id, payload@, signature@)
                &&& forall|k: u64| k != id && #[trigger] old(self).incoming_messages@.contains_key(k)
                    ==> final(self).incoming_messages@[k] == old(self).incoming_messages@[k]
                &&& final(self).interop_history@.drop_last() == old(self).interop_history@
                &&& final(self).interop_history@.len() == old(self).interop_history@.len() + 1
                &&& is_entry(final(self).interop_history@.last(), id, "Receive".spec_bytes(), payload@)
                &&& final(self).events@ == old(self).events@.push(Event::MessageReceived(id, payload))
            },
            final(self).config == old(self).config,
            final(self).interop_config == old(self).interop_config,
            final(self).outgoing_messages@ == old(self).outgoing_messages@,
    {
        let _sender = ensure_signed::<Error>(origin)?;
        if !verify_signature(&payload, &signature) {
            return Err(DispatchError::Module(Error::VerificationFailed));
        }
        if payload.len() as u32 > self.interop_config.max_payload_length {
            return Err(DispatchError::Module(Error::PayloadTooLong));
        }
        let message = InteropMessage { id, payload: copy_bytes(&payload), timestamp: FIXED_TIMESTAMP, signature };
        self.incoming_messages.insert(id, message);
        self.interop_history.push((FIXED_TIMESTAMP, id, str_bytes("Receive"), copy_bytes(&payload)));
        self.events.push(Event::MessageReceived(id, payload));
        Ok(())
    }

    /// Signed: records a configuration update proposal (which must not be
    /// empty) in the log as "ConfigUpdate" with id 0.
    pub fn update_config(&mut self, origin: Origin, new_config: Vec<u8>, details: Vec<u8>) -> (r: DispatchResult<Error>)
        ensures
            !(origin is Signed) ==> r == Err::<(), DispatchError<Error>>(DispatchError::BadOrigin),
            origin is Signed && new_config@.len() == 0 ==>
                r == Err::<(), DispatchError<Error>>(DispatchError::Module(Error::MessageProcessingError)),
            r is Err ==> final(self).interop_history@ == old(self).interop_history@
                && final(self).events@ == old(self).events@,
            origin is Signed && new_config@.len() > 0 ==> {
                &&& r is Ok
                &&& final(self).interop_history@.drop_last() == old(self).interop_history@
                &&& final(self).interop_history@.len() == old(self).interop_history@.len() + 1
                &&& is_entry(final(self).interop_history@.last(), 0, "ConfigUpdate".spec_bytes(), details@)
                &&& final(self).events@ == old(self).events@.push(Event::ConfigUpdated(new_config, details))
            },
            final(self).config == old(self).config,
            final(self).interop_config == old(self).interop_config,
            final(self).outgoing_messages@ == old(self).outgoing_messages@,
            final(self).incoming_messages@ == old(self).incoming_messages@,
    {
        let _sender = ensure_signed::<Error>(origin)?;
        if new_config.len() == 0 {
            return Err(DispatchError::Module(Error::MessageProcessingError));
        }
        self.interop_history.push((FIXED_TIMESTAMP, 0, str_bytes("ConfigUpdate"), copy_bytes(&details)));
        self.events.push(Event::ConfigUpdated(new_config, details));
        Ok(())
    }

    /// Root only: replaces the timeout and maximal payload length.
    pub fn update_config_params(&mut self, origin: Origin, new_timeout: u64, new_max_payload: u32) -> (r: DispatchResult<Error>)
        ensures
            origin != Origin::Root ==> r == Err::<(), DispatchError<Error>>(DispatchError::BadOrigin)
                && final(self).interop_config == old(self).interop_config
                && final(self).events@ == old(self).events@,
            origin == Origin::Root ==> {
                let o = old(self).interop_config;
                &&& r is Ok
                &&& final(self).interop_config == (InteropConfig { base_timeout: new_timeout, max_payload_length: new_max_payload })
                &&& final(self).events@ == old(self).events@.push(
                    Event::ConfigParamsUpdated(o.base_timeout, o.max_payload_length, new_timeout, new_max_payload))
            },
            final(self).config == old(self).config,
            final(self).interop_history@ == old(self).interop_history@,
            final(self).outgoing_messages@ == old(self).outgoing_messages@,
            final(self).incoming_messages@ == old(self).incoming_messages@,
    {
        ensure_root::<Error>(origin)?;
        let old_config = self.interop_config;
        self.interop_config = InteropConfig { base_timeout: new_timeout, max_payload_length: new_max_payload };
        self.events.push(Event::ConfigParamsUpdated(old_config.base_timeout, old_config.max_payload_length, new_timeout, new_max_payload));
        Ok(())
    }

    /// Root only: keeps the last `max_entries` log entries.
    pub fn prune_history(&mut self, origin: Origin, max_entries: usize) -> (r: DispatchResult<Error>)
        ensures
            origin != Origin::Root ==> r == Err::<(), DispatchError<Error>>(DispatchError::BadOrigin)
                && final(self).interop_history@ == old(self).interop_history@,
            origin == Origin::Root ==> r is Ok
                && final(self).interop_history@ == keep_last(old(self).interop_history@, max_entries as nat),
            final(self).config == old(self).config,
            final(self).interop_config == old(self).interop_config,
            final(self).outgoing_messages@ == old(self).outgoing_messages@,
            final(self).incoming_messages@ == old(self).incoming_messages@,
            final(self).events@ == old(self).events@,
    {
        ensure_root::<Error>(origin)?;
        prune_to_last(&mut self.interop_history, max_entries);
        Ok(())
    }
}

} // verus!
