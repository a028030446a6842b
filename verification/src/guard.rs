//! The authorization guard: one designated owner vouches for every operation.

use vstd::prelude::*;
use crate::error::ErrorCode;
use crate::identity::{Identity, Principal};

verus! {

/// The bank as it is configured when the process starts.
#[derive(Clone, Copy, Debug, PartialEq, Eq)]
pub struct Bank {
    /// The program under which the addresses of the bank are derived.
    pub program_id: Identity,
    /// The one principal that may authorize an operation.
    pub owner: Identity,
}

impl Bank {
    /// A bank of the program `program_id`, run by `owner`.
    pub fn new(program_id: Identity, owner: Identity) -> (bank: Bank)
        ensures
            bank.program_id == program_id,
            bank.owner == owner,
    {
        Bank { program_id, owner }
    }

    /// Whether `caller` is the designated owner and signed the request.
    pub open spec fn authorizes(&self, caller: Principal) -> bool {
        caller.is_signer && caller.key@ == self.owner@
    }

    /// Passes the designated owner where it signed, and refuses anyone else
    /// with `Unauthorized`.
    pub fn authorize(&self, caller: &Principal) -> (r: Result<(), ErrorCode>)
        ensures
            self.authorizes(*caller) ==> r == Ok::<(), ErrorCode>(()),
            !self.authorizes(*caller) ==> r == Err::<(), ErrorCode>(ErrorCode::Unauthorized),
    {
        if caller.is_signer && caller.key.same(&self.owner) {
            Ok(())
        } else {
            Err(ErrorCode::Unauthorized)
        }
    }
}

} // verus!
