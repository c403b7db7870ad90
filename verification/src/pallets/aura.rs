//! Aura: the block-authoring authority, which root may set.

use vstd::prelude::*;
use crate::frame::{ensure_root, DispatchError, DispatchResult, Origin};

verus! {

#[derive(Clone, Debug, PartialEq, Eq)]
pub enum Event<A> {
    AuthoritySet(A),
}

/// The pallet's storage and the events it has deposited; `A` is the
/// authority key type (a plain value such as a 32-byte public key).
#[derive(Clone, Debug, PartialEq, Eq)]
pub struct Pallet<A> {
    pub authority: Option<A>,
    pub events: Vec<Event<A>>,
}

impl<A: Copy> Pallet<A> {
    /// A pallet with no authority.
    pub fn new() -> (p: Self)
        ensures
            p.authority is None,
            p.events@.len() == 0,
    {
        Pallet { authority: None, events: Vec::new() }
    }

    /// Root only: sets the authority.
    pub fn set_authority(&mut self, origin: Origin, authority: A) -> (r: DispatchResult<()>)
        ensures
            origin != Origin::Root ==> r == Err::<(), DispatchError<()>>(DispatchError::BadOrigin)
                && *final(self) == *old(self),
            origin == Origin::Root ==> r is Ok
                && final(self).authority == Some(authority)
                && final(self).events@ == old(self).events@.push(Event::AuthoritySet(authority)),
    {
        ensure_root::<()>(origin)?;
        self.authority = Some(authority);
        self.events.push(Event::AuthoritySet(authority));
        Ok(())
    }
}

} // verus!
