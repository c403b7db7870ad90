//! IoT bridge: data submitted by devices is checked (bounded payload, named
//! device, non-empty payload and signature), stored, and logged; configuration
//! updates are logged as well.

use vstd::prelude::*;
use vstd::string::StringSliceAdditionalSpecFns;
use std::collections::HashMap;
use crate::frame::{copy_bytes, ensure_signed, str_bytes, DispatchError, DispatchResult, Origin};

verus! {

broadcast use vstd::std_specs::hash::group_hash_axioms;

/// A stored IoT submission.
#[derive(Clone, Debug, PartialEq, Eq)]
pub struct IotRecord {
    pub id: u64,
    pub payload: Vec<u8>,
    pub device_id: Vec<u8>,
    pub timestamp: u64,
    pub signature: Vec<u8>,
}

#[derive(Clone, Debug, PartialEq, Eq)]
pub enum Event {
    /// (id, payload)
    IotDataSubmitted(u64, Vec<u8>),
    /// (new configuration, details)
    ConfigUpdated(Vec<u8>, Vec<u8>),
}

#[derive(Clone, Copy, Debug, PartialEq, Eq)]
pub enum Error {
    PayloadTooLong,
    InvalidDeviceId,
    DataVerificationFailed,
    DataProcessingError,
}

/// The pallet's constants.
#[derive(Clone, Copy, Debug, PartialEq, Eq)]
pub struct Config {
    pub max_payload_length: u32,
    pub base_timeout: u64,
}

/// A log entry: (timestamp, message id, operation, details).
pub type HistoryEntry = (u64, u64, Vec<u8>, Vec<u8>);

/// The pallet's storage and the events it has deposited.
#[derive(Clone, Debug)]
pub struct Pallet {
    pub config: Config,
    pub iot_data: HashMap<u64, IotRecord>,
    pub iot_history: Vec<HistoryEntry>,
    pub events: Vec<Event>,
}

/// The timestamp the pallet stamps records and its log with.
pub const FIXED_TIMESTAMP: u64 = 1_640_000_000;

/// Whether `e` logs operation `op` on message `id` with `details`.
pub open spec fn is_entry(e: HistoryEntry, id: u64, op: Seq<u8>, details: Seq<u8>) -> bool {
    e.0 == FIXED_TIMESTAMP && e.1 == id && e.2@ == op && e.3@ == details
}

/// The data check: payload and signature are both non-empty.
pub open spec fn data_verified(payload: Seq<u8>, signature: Seq<u8>) -> bool {
    payload.len() > 0 && signature.len() > 0
}

/// The error a submission is refused with, if any, in the order of the checks.
pub open spec fn submission_error(config: Config, payload: Seq<u8>, device_id: Seq<u8>, signature: Seq<u8>) -> Option<Error> {
    if (payload.len() as u32) > config.max_payload_length {
        Some(Error::PayloadTooLong)
    } else if device_id.len() == 0 {
        Some(Error::InvalidDeviceId)
    } else if !data_verified(payload, signature) {
        Some(Error::DataVerificationFailed)
    } else {
        None
    }
}

/// Checks submitted data: payload and signature must both be non-empty.
pub fn verify_data(payload: &Vec<u8>, signature: &Vec<u8>) -> (r: bool)
    ensures
        r == data_verified(payload@, signature@),
{
    payload.len() > 0 && signature.len() > 0
}

impl Pallet {
    /// A pallet with empty storage.
    pub fn new(config: Config) -> (p: Self)
        ensures
            p.config == config,
            p.iot_data@ == Map::<u64, IotRecord>::empty(),
            p.iot_history@.len() == 0,
            p.events@.len() == 0,
    {
        Pallet { config, iot_data: HashMap::new(), iot_history: Vec::new(), events: Vec::new() }
    }

    /// Signed: stores a device's submission under `id` and logs it as "Submit".
    pub fn submit_iot_data(
        &mut self,
        origin: Origin,
        id: u64,
        payload: Vec<u8>,
        device_id: Vec<u8>,
        signature: Vec<u8>,
    ) -> (r: DispatchResult<Error>)
        ensures
            !(origin is Signed) ==> r == Err::<(), DispatchError<Error>>(DispatchError::BadOrigin),
            origin is Signed && submission_error(old(self).config, payload@, device_id@, signature@) is Some ==>
                r == Err::<(), DispatchError<Error>>(DispatchError::Module(
                    submission_error(old(self).config, payload@, device_id@, signature@)->0)),
            r is Err ==> final(self).iot_data@ == old(self).iot_data@
                && final(self).iot_history@ == old(self).iot_history@
                && final(self).events@ == old(self).events@,
            origin is Signed && submission_error(old(self).config, payload@, device_id@, signature@) is None ==> {
                let rec = final(self).iot_data@[id];
                &&& r is Ok
                &&& final(self).iot_data@.dom() == old(self).iot_data@.dom().insert(id)
                &&& rec.id == id && rec.payload@ == payload@ && rec.device_id == device_id
                    && rec.timestamp == FIXED_TIMESTAMP && rec.signature == signature
                &&& forall|k: u64| k != id && #[trigger] old(self).iot_data@.contains_key(k)
                    ==> final(self).iot_data@[k] == old(self).iot_data@[k]
                &&& final(self).iot_history@.drop_last() == old(self).iot_history@
                &&& final(self).iot_history@.len() == old(self).iot_history@.len() + 1
                &&& is_entry(final(self).iot_history@.last(), id, "Submit".spec_bytes(), payload@)
                &&& final(self).events@ == old(self).events@.push(Event::IotDataSubmitted(id, payload))
            },
            final(self).config == old(self).config,
    {
        let _sender = ensure_signed::<Error>(origin)?;
        if payload.len() as u32 > self.config.max_payload_length {
            return Err(DispatchError::Module(Error::PayloadTooLong));
        }
        if device_id.len() == 0 {
            return Err(DispatchError::Module(Error::InvalidDeviceId));
        }
        if !verify_data(&payload, &signature) {
            return Err(DispatchError::Module(Error::DataVerificationFailed));
        }
        let record = IotRecord { id, payload: copy_bytes(&payload), device_id, timestamp: FIXED_TIMESTAMP, signature };
        self.iot_data.insert(id, record);
        self.iot_history.push((FIXED_TIMESTAMP, id, str_bytes("Submit"), copy_bytes(&payload)));
        self.events.push(Event::IotDataSubmitted(id, payload));
        Ok(())
    }

    /// Signed: records a configuration update (which must not be empty) in the
    /// log as "ConfigUpdate" with id 0.
    pub fn update_config(&mut self, origin: Origin, new_config: Vec<u8>, details: Vec<u8>) -> (r: DispatchResult<Error>)
        ensures
            !(origin is Signed) ==> r == Err::<(), DispatchError<Error>>(DispatchError::BadOrigin),
            origin is Signed && new_config@.len() == 0 ==>
                r == Err::<(), DispatchError<Error>>(DispatchError::Module(Error::DataProcessingError)),
            r is Err ==> final(self).iot_history@ == old(self).iot_history@ && final(self).events@ == old(self).events@,
            origin is Signed && new_config@.len() > 0 ==> {
                &&& r is Ok
                &&& final(self).iot_history@.drop_last() == old(self).iot_history@
                &&& final(self).iot_history@.len() == old(self).iot_history@.len() + 1
                &&& is_entry(final(self).iot_history@.last(), 0, "ConfigUpdate".spec_bytes(), details@)
                &&& final(self).events@ == old(self).events@.push(Event::ConfigUpdated(new_config, details))
            },
            final(self).config == old(self).config,
            final(self).iot_data@ == old(self).iot_data@,
    {
        let _sender = ensure_signed::<Error>(origin)?;
        if new_config.len() == 0 {
            return Err(DispatchError::Module(Error::DataProcessingError));
        }
        self.iot_history.push((FIXED_TIMESTAMP, 0, str_bytes("ConfigUpdate"), copy_bytes(&details)));
        self.events.push(Event::ConfigUpdated(new_config, details));
        Ok(())
    }
}

} // verus!
