//! The balance record of one account, and the two primitives that change it.

use vstd::prelude::*;
use crate::arith::{checked_add, checked_sub};
use crate::error::ErrorCode;

verus! {

/// One custodial sub-ledger entry, addressed by the owner of the bank and `id`.
#[derive(Clone, Debug, PartialEq, Eq)]
pub struct BankAccount {
    /// The identifier that the caller chose for the account.
    pub id: Vec<u8>,
    /// The internal units that the account holds.
    pub balance: u64,
}

impl Default for BankAccount {
    /// A record as it is first allocated: no identifier, no balance.
    fn default() -> (account: BankAccount)
        ensures
            account.id@ == Seq::<u8>::empty(),
            account.balance == 0,
    {
        BankAccount { id: Vec::new(), balance: 0 }
    }
}

impl BankAccount {
    /// The balance after `amount` is added, where the sum fits.
    pub open spec fn credited(balance: u64, amount: u64) -> Option<u64> {
        if balance + amount <= u64::MAX {
            Some((balance + amount) as u64)
        } else {
            None
        }
    }

    /// The balance after `amount` is taken, where the account holds that much.
    pub open spec fn debited(balance: u64, amount: u64) -> Option<u64> {
        if amount <= balance {
            Some((balance - amount) as u64)
        } else {
            None
        }
    }

    /// Adds `amount` to the balance. Where the sum would exceed `u64::MAX` the
    /// account is left as it was and the error is `ArithmeticOverflow`.
    pub fn credit(&mut self, amount: u64) -> (r: Result<(), ErrorCode>)
        ensures
            final(self).id == old(self).id,
            match Self::credited(old(self).balance, amount) {
                Some(balance) => r == Ok::<(), ErrorCode>(()) && final(self).balance == balance,
                None => r == Err::<(), ErrorCode>(ErrorCode::ArithmeticOverflow)
                    && final(self).balance == old(self).balance,
            },
    {
        match checked_add(self.balance, amount) {
            Ok(balance) => {
                self.balance = balance;
                Ok(())
            },
            Err(e) => Err(e),
        }
    }

    /// Takes `amount` from the balance. Where the account holds less the
    /// account is left as it was and the error is `InsufficientBalance`.
    pub fn debit(&mut self, amount: u64) -> (r: Result<(), ErrorCode>)
        ensures
            final(self).id == old(self).id,
            match Self::debited(old(self).balance, amount) {
                Some(balance) => r == Ok::<(), ErrorCode>(()) && final(self).balance == balance,
                None => r == Err::<(), ErrorCode>(ErrorCode::InsufficientBalance)
                    && final(self).balance == old(self).balance,
            },
    {
        if amount > self.balance {
            return Err(ErrorCode::InsufficientBalance);
        }
        match checked_sub(self.balance, amount) {
            Ok(balance) => {
                self.balance = balance;
                Ok(())
            },
            Err(e) => Err(e),
        }
    }
}

} // verus!
