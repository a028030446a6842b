//! What the bank asks of the token-custody subsystem. The bank decides how
//! much moves and who vouches for it; the subsystem moves the tokens.

use vstd::prelude::*;
use crate::address::seeds_view;
use crate::event::Event;
use crate::identity::Identity;

verus! {

/// One movement of token units between two custody accounts.
#[derive(Clone, Debug, PartialEq, Eq)]
pub struct TokenTransfer {
    /// The custody account that gives.
    pub from: Identity,
    /// The custody account that receives.
    pub to: Identity,
    /// The party that vouches for the movement.
    pub authority: Identity,
    /// The token units to move.
    pub amount: u64,
    /// Empty where `authority` signed the request itself; else the seeds by
    /// which the bank asserts the authority on its own.
    pub signer_seeds: Vec<Vec<u8>>,
}

impl TokenTransfer {
    /// Whether this is the movement of `amount` token units from `from` to
    /// `to`, vouched for by `authority` under `signer_seeds`.
    pub open spec fn moves(
        &self,
        from: Identity,
        to: Identity,
        authority: Identity,
        amount: u64,
        signer_seeds: Seq<Seq<u8>>,
    ) -> bool {
        &&& self.from == from
        &&& self.to == to
        &&& self.authority == authority
        &&& self.amount == amount
        &&& seeds_view(self.signer_seeds) == signer_seeds
    }
}

/// The answer to a deposit or a withdrawal whose balance change is made and
/// whose token movement is still to be carried out.
#[derive(Clone, Debug, PartialEq, Eq)]
pub struct Receipt {
    /// What to report once the tokens have moved.
    pub event: Event,
    /// The token movement to carry out.
    pub transfer: TokenTransfer,
    /// The balance of the account before the operation.
    pub balance_before: u64,
}

} // verus!
