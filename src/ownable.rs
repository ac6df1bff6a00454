use vstd::prelude::*;

use crate::address::{null_address, Address};
use crate::error::{outcome, Error};

verus! {

/// A record of a change of owner.
#[derive(Clone, Copy, Debug, PartialEq, Eq)]
pub enum OwnableEvent {
    OwnershipTransferred { old_owner: Address, new_owner: Address },
}

impl OwnableEvent {
    /// The event-type tag that the record is published under.
    pub fn event_type(&self) -> (r: String)
        ensures
            r@ == "ownership_transferred"@,
    {
        "ownership_transferred".to_string()
    }
}

/// The abstract state of the singleton: the current owner and the events
/// recorded so far.
pub struct OwnableModel {
    pub owner: Address,
    pub events: Seq<OwnableEvent>,
}

/// The current owner hands ownership to `new_owner`, which may be the null
/// address: that renounces ownership for good.
pub open spec fn transfer_ownership_spec(m: OwnableModel, caller: Address, new_owner: Address) -> Result<
    OwnableModel,
    Error,
> {
    if caller != m.owner {
        Err(Error::InvalidPermission)
    } else {
        Ok(
            OwnableModel {
                owner: new_owner,
                events: m.events.push(
                    OwnableEvent::OwnershipTransferred { old_owner: m.owner, new_owner },
                ),
            },
        )
    }
}

/// A single current owner, used as a coarse access gate.
pub struct OwnableLib {
    owner: Address,
    events: Vec<OwnableEvent>,
}

impl View for OwnableLib {
    type V = OwnableModel;

    closed spec fn view(&self) -> OwnableModel {
        OwnableModel { owner: self.owner, events: self.events@ }
    }
}

impl OwnableLib {
    /// Deployment: ownership starts at `owner`, with no one to authorize it.
    pub fn new(owner: Address) -> (r: OwnableLib)
        ensures
            r@ == (OwnableModel { owner, events: Seq::empty() }),
    {
        OwnableLib { owner, events: Vec::new() }
    }

    pub fn owner(&self) -> (r: Address)
        ensures
            r == self@.owner,
    {
        self.owner
    }

    /// The owner, as the `owner` entry point returns it.
    pub fn ret_owner(&self) -> (r: Address)
        ensures
            r == self@.owner,
    {
        self.owner()
    }

    /// The events recorded so far, oldest first.
    pub fn events(&self) -> (r: &Vec<OwnableEvent>)
        ensures
            r@ == self@.events,
    {
        &self.events
    }

    /// Records an event.
    pub fn emit(&mut self, event: OwnableEvent)
        ensures
            final(self)@ == (OwnableModel { events: old(self)@.events.push(event), ..old(self)@ }),
    {
        self.events.push(event);
    }

    /// Sets the owner without a permission check and records the change.
    fn _transfer_ownership(&mut self, new_owner: Address)
        ensures
            final(self)@ == (OwnableModel {
                owner: new_owner,
                events: old(self)@.events.push(
                    OwnableEvent::OwnershipTransferred { old_owner: old(self)@.owner, new_owner },
                ),
            }),
    {
        let old_owner = self.owner;
        self.owner = new_owner;
        self.emit(OwnableEvent::OwnershipTransferred { old_owner, new_owner });
    }

    /// The caller, who must be the owner, hands ownership to `new_owner`.
    pub fn transfer_ownership(&mut self, caller: Address, new_owner: Address) -> (r: Result<(), Error>)
        ensures
            outcome(r, old(self)@, final(self)@, transfer_ownership_spec(old(self)@, caller, new_owner)),
    {
        if !caller.same(&self.owner) {
            return Err(Error::InvalidPermission);
        }
        self._transfer_ownership(new_owner);
        Ok(())
    }

    /// The caller, who must be the owner, gives ownership up: the owner
    /// becomes the null address.
    pub fn renounce_ownership(&mut self, caller: Address) -> (r: Result<(), Error>)
        ensures
            outcome(
                r,
                old(self)@,
                final(self)@,
                transfer_ownership_spec(old(self)@, caller, null_address()),
            ),
    {
        let null = Address::null();
        self.transfer_ownership(caller, null)
    }
}

} // verus!

verus! {

/// A transfer of ownership by anyone but the owner is refused with
/// `InvalidPermission`; by the owner, it makes `new_owner` the owner and
/// records exactly one `OwnershipTransferred` event.
pub proof fn lemma_ownership_transfer(m: OwnableModel, caller: Address, new_owner: Address)
    ensures
        caller != m.owner ==> transfer_ownership_spec(m, caller, new_owner) == Err::<
            OwnableModel,
            Error,
        >(Error::InvalidPermission),
        caller == m.owner ==> transfer_ownership_spec(m, caller, new_owner) is Ok && (
        transfer_ownership_spec(m, caller, new_owner)->Ok_0).owner == new_owner && (
        transfer_ownership_spec(m, caller, new_owner)->Ok_0).events == m.events.push(
            OwnableEvent::OwnershipTransferred { old_owner: m.owner, new_owner },
        ),
{
}

} // verus!
