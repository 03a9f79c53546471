use vstd::prelude::*;

use crate::address::addr_eq;
use crate::address::is_zero_address;
use crate::address::Address;
use crate::error::Error;

verus! {

/// Notification produced when ownership moves, carrying the old and the new
/// owner. It is handed back to the host, never stored.
#[derive(Clone, Copy, PartialEq, Eq, Debug)]
pub struct OwnershipTransferred {
    pub previous_owner: Address,
    pub new_owner: Address,
}

/// The single-owner access-control guard. The recorded owner is the zero
/// address exactly when ownership was never granted or has been renounced;
/// initialization rejects the zero address.
#[derive(Clone, Copy, PartialEq, Eq, Debug)]
pub struct Ownable {
    pub owner: Address,
}

impl Ownable {
    /// Whether `caller` is the current owner.
    pub open spec fn is_owner(self, caller: Seq<u8>) -> bool {
        self.owner@ == caller
    }

    /// Grants initial ownership; fails with `InvalidOwner` on the zero
    /// address and then changes nothing.
    pub fn constructor(&mut self, initial_owner: Address) -> (r: Result<(), Error>)
        ensures
            r is Ok <==> !is_zero_address(initial_owner@),
            r is Ok ==> final(self).owner == initial_owner,
            r is Err ==> r == Err::<(), Error>(Error::InvalidOwner(initial_owner))
                && *final(self) == *old(self),
    {
        if initial_owner.is_zero() {
            Err(Error::InvalidOwner(initial_owner))
        } else {
            self.owner = initial_owner;
            Ok(())
        }
    }

    /// The current owner.
    pub fn owner(&self) -> (r: Address)
        ensures
            r == self.owner,
    {
        self.owner
    }

    /// The guard itself: succeeds exactly when `caller` is the current
    /// owner, and otherwise fails with `UnauthorizedAccount(caller)`. Has no
    /// side effect.
    pub fn only_owner(&self, caller: Address) -> (r: Result<(), Error>)
        ensures
            r is Ok <==> self.is_owner(caller@),
            r is Err ==> r == Err::<(), Error>(Error::UnauthorizedAccount(caller)),
    {
        if addr_eq(&caller, &self.owner) {
            Ok(())
        } else {
            Err(Error::UnauthorizedAccount(caller))
        }
    }

    /// Moves ownership to `new_owner`. Only the owner may call; the zero
    /// address is rejected; on success the returned notification carries the
    /// old and the new owner. A failed call changes nothing.
    pub fn transfer_ownership(&mut self, caller: Address, new_owner: Address) -> (r: Result<
        OwnershipTransferred,
        Error,
    >)
        ensures
            r is Ok <==> old(self).is_owner(caller@) && !is_zero_address(new_owner@),
            !old(self).is_owner(caller@) ==> r == Err::<OwnershipTransferred, Error>(
                Error::UnauthorizedAccount(caller),
            ),
            old(self).is_owner(caller@) && is_zero_address(new_owner@) ==> r == Err::<
                OwnershipTransferred,
                Error,
            >(Error::InvalidOwner(new_owner)),
            r is Err ==> *final(self) == *old(self),
            r is Ok ==> final(self).owner == new_owner && r->Ok_0.previous_owner == old(
                self,
            ).owner && r->Ok_0.new_owner == new_owner,
    {
        let guard = self.only_owner(caller);
        if let Err(e) = guard {
            return Err(e);
        }
        if new_owner.is_zero() {
            return Err(Error::InvalidOwner(new_owner));
        }
        let previous = self.owner;
        self.owner = new_owner;
        Ok(OwnershipTransferred { previous_owner: previous, new_owner })
    }

    /// Gives ownership up for good: only the owner may call, and the zero
    /// address is recorded as owner afterwards. A failed call changes
    /// nothing.
    pub fn renounce_ownership(&mut self, caller: Address) -> (r: Result<(), Error>)
        ensures
            r is Ok <==> old(self).is_owner(caller@),
            r is Err ==> r == Err::<(), Error>(Error::UnauthorizedAccount(caller)) && *final(self)
                == *old(self),
            r is Ok ==> is_zero_address(final(self).owner@),
    {
        let guard = self.only_owner(caller);
        if let Err(e) = guard {
            return Err(e);
        }
        self.owner = Address::zero();
        Ok(())
    }
}

/// Once ownership is renounced the guard is locked for good: with the zero
/// address recorded as owner, no non-zero caller passes the owner check, so
/// every owner-gated operation fails with `UnauthorizedAccount` by its own
/// contract.
pub proof fn lemma_renounced_guard_is_locked(guard: Ownable, caller: Address)
    requires
        is_zero_address(guard.owner@),
        !is_zero_address(caller@),
    ensures
        !guard.is_owner(caller@),
{
}

} // verus!
