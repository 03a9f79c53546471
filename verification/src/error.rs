use vstd::prelude::*;

use crate::address::Address;

verus! {

/// The failure modes of owner-gated operations. Guard checks run before any
/// state mutation, so a returned error always leaves the state unchanged.
#[derive(Clone, Copy, PartialEq, Eq, Debug)]
pub enum Error {
    /// A caller other than the current owner invoked an owner-gated
    /// operation; carries the offending caller.
    UnauthorizedAccount(Address),
    /// An owner-setting operation was given the zero address; carries the
    /// rejected address.
    InvalidOwner(Address),
}

} // verus!
