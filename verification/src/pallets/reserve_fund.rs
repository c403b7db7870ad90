//! Reserve fund: contributions, withdrawals that keep a minimal reserve,
//! a redistribution threshold set by governance, and automatic redistribution
//! of any excess at the end of each block. Every operation is logged.

use vstd::prelude::*;
use vstd::string::StringSliceAdditionalSpecFns;
use crate::frame::{
    ensure_root, ensure_signed, sat_mul_u128, saturating_mul_u128, copy_bytes, str_bytes, DispatchError, DispatchResult,
    Origin,
};

verus! {

/// One logged operation on the fund.
#[derive(Clone, Debug, PartialEq, Eq)]
pub struct ReserveRecord {
    pub timestamp: u64,
    pub previous_balance: u128,
    pub new_balance: u128,
    pub operation: Vec<u8>,
}

/// The fund's balance and its operation log.
#[derive(Clone, Debug, PartialEq, Eq, Default)]
pub struct ReserveFundState {
    pub balance: u128,
    pub history: Vec<ReserveRecord>,
}

#[derive(Clone, Debug, PartialEq, Eq)]
pub enum Event {
    /// (previous balance, new balance, operation)
    ReserveUpdated(u128, u128, Vec<u8>),
    RedistributionThresholdUpdated(u128),
    /// Amount taken out of the fund by redistribution.
    FundsRedistributed(u128),
}

#[derive(Clone, Copy, Debug, PartialEq, Eq)]
pub enum Error {
    /// The withdrawal is larger than the balance.
    InvalidOperation,
    /// The withdrawal would leave less than the minimal reserve.
    InsufficientReserve,
}

/// The pallet's constants.
#[derive(Clone, Copy, Debug, PartialEq, Eq)]
pub struct Config {
    /// Balance the fund is initialised with.
    pub baseline_reserve: u128,
    /// Minimal reserve, in percent of the baseline, that a withdrawal must leave.
    pub minimum_reserve_ratio: u8,
}

/// The pallet's storage and the events it has deposited. The origin allowed to
/// change the redistribution threshold is root.
#[derive(Clone, Debug, PartialEq, Eq)]
pub struct Pallet {
    pub config: Config,
    pub reserve: ReserveFundState,
    pub redistribution_threshold: u128,
    pub events: Vec<Event>,
    /// Current time as given by the timestamp pallet.
    pub now: u64,
}

/// The threshold set at initialisation: 150% of the baseline (saturating), rounded down.
pub open spec fn default_threshold(baseline: u128) -> u128 {
    (sat_mul_u128(baseline, 150) / 100) as u128
}

/// The smallest balance a withdrawal may leave.
pub open spec fn min_required(config: Config) -> u128 {
    (sat_mul_u128(config.baseline_reserve, config.minimum_reserve_ratio as u128) / 100) as u128
}

/// Whether `r` logs an operation at `ts` that moved the balance from `prev` to `new`.
pub open spec fn is_record(r: ReserveRecord, ts: u64, prev: u128, new: u128, op: Seq<u8>) -> bool {
    r.timestamp == ts && r.previous_balance == prev && r.new_balance == new && r.operation@ == op
}

/// The outcome of withdrawing `amount` from a fund holding `balance`.
pub open spec fn withdraw_outcome(config: Config, balance: u128, amount: u128) -> Result<u128, Error> {
    if balance < amount {
        Err(Error::InvalidOperation)
    } else if balance - amount < min_required(config) {
        Err(Error::InsufficientReserve)
    } else {
        Ok((balance - amount) as u128)
    }
}

impl Pallet {
    /// A pallet with empty storage.
    pub fn new(config: Config) -> (p: Self)
        ensures
            p.config == config,
            p.reserve.balance == 0,
            p.reserve.history@.len() == 0,
            p.redistribution_threshold == 0,
            p.events@.len() == 0,
            p.now == 0,
    {
        Pallet {
            config,
            reserve: ReserveFundState { balance: 0, history: Vec::new() },
            redistribution_threshold: 0,
            events: Vec::new(),
            now: 0,
        }
    }

    /// Sets the current time.
    pub fn set_timestamp(&mut self, now: u64)
        ensures
            *final(self) == (Pallet { now, ..*old(self) }),
    {
        self.now = now;
    }

    /// Root only: sets the balance to the baseline with a single
    /// "Initialization" record, and the redistribution threshold to 150% of it.
    pub fn initialize_reserve(&mut self, origin: Origin) -> (r: DispatchResult<Error>)
        ensures
            origin != Origin::Root ==> r == Err::<(), DispatchError<Error>>(DispatchError::BadOrigin)
                && *final(self) == *old(self),
            origin == Origin::Root ==> {
                &&& r is Ok
                &&& final(self).reserve.balance == old(self).config.baseline_reserve
                &&& final(self).reserve.history@.len() == 1
                &&& is_record(final(self).reserve.history@[0], old(self).now, 0,
                    old(self).config.baseline_reserve, "Initialization".spec_bytes())
                &&& final(self).redistribution_threshold == default_threshold(old(self).config.baseline_reserve)
                &&& final(self).config == old(self).config
                &&& final(self).events == old(self).events
                &&& final(self).now == old(self).now
            },
    {
        ensure_root::<Error>(origin)?;
        let baseline = self.config.baseline_reserve;
        let mut history: Vec<ReserveRecord> = Vec::new();
        let op = str_bytes("Initialization");
        history.push(ReserveRecord { timestamp: self.now, previous_balance: 0, new_balance: baseline, operation: op });
        self.reserve = ReserveFundState { balance: baseline, history };
        self.redistribution_threshold = saturating_mul_u128(baseline, 150) / 100;
        Ok(())
    }

    /// Signed: adds `amount` to the balance (saturating) and logs the operation
    /// under `description`.
    pub fn contribute(&mut self, origin: Origin, amount: u128, description: Vec<u8>) -> (r: DispatchResult<Error>)
        ensures
            !(origin is Signed) ==> r == Err::<(), DispatchError<Error>>(DispatchError::BadOrigin)
                && *final(self) == *old(self),
            origin is Signed ==> {
                let prev = old(self).reserve.balance;
                let new = prev.saturating_add(amount);
                &&& r is Ok
                &&& final(self).reserve.balance == new
                &&& final(self).reserve.history@.len() == old(self).reserve.history@.len() + 1
                &&& final(self).reserve.history@.drop_last() == old(self).reserve.history@
                &&& is_record(final(self).reserve.history@.last(), old(self).now, prev, new, description@)
                &&& final(self).events@ == old(self).events@.push(Event::ReserveUpdated(prev, new, description))
                &&& final(self).redistribution_threshold == old(self).redistribution_threshold
                &&& final(self).config == old(self).config
                &&& final(self).now == old(self).now
            },
    {
        let _sender = ensure_signed::<Error>(origin)?;
        let previous_balance = self.reserve.balance;
        let new_balance = previous_balance.saturating_add(amount);
        self.reserve.balance = new_balance;
        let op = copy_bytes(&description);
        self.reserve.history.push(ReserveRecord {
            timestamp: self.now,
            previous_balance,
            new_balance,
            operation: op,
        });
        self.events.push(Event::ReserveUpdated(previous_balance, new_balance, description));
        Ok(())
    }

    /// Signed: takes `amount` out of the fund, provided the fund holds it and
    /// what remains is at least the minimal reserve; logs the operation.
    pub fn withdraw(&mut self, origin: Origin, amount: u128, description: Vec<u8>) -> (r: DispatchResult<Error>)
        ensures
            ({
                let product = old(self).config.baseline_reserve * old(self).config.minimum_reserve_ratio;
                let floor: int = if product <= u128::MAX { product / 100 } else { u128::MAX as int / 100 };
                let b = old(self).reserve.balance;
                &&& r is Ok ==> final(self).reserve.balance == b - amount && final(self).reserve.balance >= floor
                &&& origin is Signed && b >= amount && b - amount < floor
                    ==> r == Err::<(), DispatchError<Error>>(DispatchError::Module(Error::InsufficientReserve))
            }),
            !(origin is Signed) ==> r == Err::<(), DispatchError<Error>>(DispatchError::BadOrigin)
                && *final(self) == *old(self),
            origin is Signed ==> match withdraw_outcome(old(self).config, old(self).reserve.balance, amount) {
                Err(e) => r == Err::<(), DispatchError<Error>>(DispatchError::Module(e))
                    && *final(self) == *old(self),
                Ok(new) => {
                    let prev = old(self).reserve.balance;
                    &&& r is Ok
                    &&& final(self).reserve.balance == new
                    &&& new >= min_required(old(self).config)
                    &&& final(self).reserve.history@.len() == old(self).reserve.history@.len() + 1
                    &&& final(self).reserve.history@.drop_last() == old(self).reserve.history@
                    &&& is_record(final(self).reserve.history@.last(), old(self).now, prev, new, description@)
                    &&& final(self).events@ == old(self).events@.push(Event::ReserveUpdated(prev, new, description))
                    &&& final(self).redistribution_threshold == old(self).redistribution_threshold
                    &&& final(self).config == old(self).config
                    &&& final(self).now == old(self).now
                },
            },
    {
        let _sender = ensure_signed::<Error>(origin)?;
        let min_req = saturating_mul_u128(self.config.baseline_reserve, self.config.minimum_reserve_ratio as u128) / 100;
        if self.reserve.balance < amount {
            return Err(DispatchError::Module(Error::InvalidOperation));
        }
        if self.reserve.balance.saturating_sub(amount) < min_req {
            return Err(DispatchError::Module(Error::InsufficientReserve));
        }
        let previous_balance = self.reserve.balance;
        let new_balance = previous_balance.saturating_sub(amount);
        self.reserve.balance = new_balance;
        let op = copy_bytes(&description);
        self.reserve.history.push(ReserveRecord {
            timestamp: self.now,
            previous_balance,
            new_balance,
            operation: op,
        });
        self.events.push(Event::ReserveUpdated(previous_balance, new_balance, description));
        Ok(())
    }

    /// Root (the governance origin): sets the redistribution threshold.
    pub fn update_redistribution_threshold(&mut self, origin: Origin, new_threshold: u128) -> (r: DispatchResult<Error>)
        ensures
            origin != Origin::Root ==> r == Err::<(), DispatchError<Error>>(DispatchError::BadOrigin)
                && *final(self) == *old(self),
            origin == Origin::Root ==> r is Ok && *final(self) == (Pallet {
                redistribution_threshold: new_threshold,
                events: final(self).events,
                ..*old(self)
            }) && final(self).events@ == old(self).events@.push(Event::RedistributionThresholdUpdated(new_threshold)),
    {
        ensure_root::<Error>(origin)?;
        self.redistribution_threshold = new_threshold;
        self.events.push(Event::RedistributionThresholdUpdated(new_threshold));
        Ok(())
    }

    /// Where the balance exceeds the threshold, brings it down to the threshold,
    /// logs an "Automatic redistribution" record and returns the excess.
    fn redistribute_funds(&mut self) -> (r: Option<u128>)
        ensures
            old(self).reserve.balance <= old(self).redistribution_threshold ==> r is None && *final(self) == *old(self),
            old(self).reserve.balance > old(self).redistribution_threshold ==> {
                let prev = old(self).reserve.balance;
                let t = old(self).redistribution_threshold;
                &&& r == Some((prev - t) as u128)
                &&& final(self).reserve.balance == t
                &&& final(self).reserve.history@.len() == old(self).reserve.history@.len() + 1
                &&& final(self).reserve.history@.drop_last() == old(self).reserve.history@
                &&& is_record(final(self).reserve.history@.last(), old(self).now, prev, t,
                    "Automatic redistribution".spec_bytes())
                &&& final(self).events == old(self).events
                &&& final(self).redistribution_threshold == t
                &&& final(self).config == old(self).config
                &&& final(self).now == old(self).now
            },
    {
        let threshold = self.redistribution_threshold;
        if self.reserve.balance > threshold {
            let previous_balance = self.reserve.balance;
            let excess = previous_balance.saturating_sub(threshold);
            self.reserve.balance = threshold;
            let op = str_bytes("Automatic redistribution");
            self.reserve.history.push(ReserveRecord {
                timestamp: self.now,
                previous_balance,
                new_balance: threshold,
                operation: op,
            });
            return Some(excess);
        }
        None
    }

    /// End-of-block hook: redistributes any excess over the threshold and, if
    /// it did, deposits `FundsRedistributed` with the amount.
    pub fn on_finalize(&mut self, _block: u64)
        ensures
            final(self).reserve.balance <= final(self).redistribution_threshold,
            final(self).reserve.balance <= old(self).reserve.balance,
            old(self).reserve.balance <= old(self).redistribution_threshold ==> *final(self) == *old(self),
            old(self).reserve.balance > old(self).redistribution_threshold ==> {
                let prev = old(self).reserve.balance;
                let t = old(self).redistribution_threshold;
                &&& final(self).reserve.balance == t
                &&& final(self).reserve.history@.len() == old(self).reserve.history@.len() + 1
                &&& final(self).reserve.history@.drop_last() == old(self).reserve.history@
                &&& is_record(final(self).reserve.history@.last(), old(self).now, prev, t,
                    "Automatic redistribution".spec_bytes())
                &&& final(self).events@ == old(self).events@.push(Event::FundsRedistributed((prev - t) as u128))
                &&& final(self).redistribution_threshold == t
                &&& final(self).config == old(self).config
                &&& final(self).now == old(self).now
            },
    {
        if let Some(amount) = self.redistribute_funds() {
            self.events.push(Event::FundsRedistributed(amount));
        }
    }
}


/// A withdrawal that goes through leaves the balance minus the amount, and
/// never less than the minimal reserve.
pub proof fn law_withdrawal_keeps_reserve(config: Config, balance: u128, amount: u128)
    ensures
        withdraw_outcome(config, balance, amount) matches Ok(new)
            ==> new == balance - amount && new >= min_required(config),
{
}

/// Withdrawing what was just contributed restores the balance, when the
/// contribution did not saturate and the balance before it met the reserve.
pub proof fn law_contribute_then_withdraw(config: Config, balance: u128, amount: u128)
    requires
        balance + amount <= u128::MAX,
        balance >= min_required(config),
    ensures
        withdraw_outcome(config, balance.saturating_add(amount), amount) == Ok::<u128, Error>(balance),
{
}

/// The floor a withdrawal must leave is `minimum_reserve_ratio` percent of
/// the baseline (the product saturating at `u128::MAX`): a withdrawal of at
/// most the balance goes through exactly when the balance left is at least
/// that floor, and then leaves the balance minus the amount; one that would
/// leave less is refused with `InsufficientReserve`, and one larger than the
/// balance with `InvalidOperation`.
pub proof fn law_withdrawal_floor_is_ratio_of_baseline(config: Config, balance: u128, amount: u128)
    ensures
        ({
            let product = config.baseline_reserve * config.minimum_reserve_ratio;
            let floor: int = if product <= u128::MAX { product / 100 } else { u128::MAX as int / 100 };
            &&& balance < amount ==> withdraw_outcome(config, balance, amount) == Err::<u128, Error>(Error::InvalidOperation)
            &&& balance >= amount && balance - amount < floor
                ==> withdraw_outcome(config, balance, amount) == Err::<u128, Error>(Error::InsufficientReserve)
            &&& balance >= amount && balance - amount >= floor
                ==> withdraw_outcome(config, balance, amount) == Ok::<u128, Error>((balance - amount) as u128)
        }),
{
}

} // verus!
