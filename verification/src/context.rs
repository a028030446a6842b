//! The records that each operation is handed. The host looks every record up
//! at its address before it calls the bank, and stores it again afterwards.

use vstd::prelude::*;
use crate::account::BankAccount;
use crate::identity::{Identity, Principal};

verus! {

/// The token that a vault holds.
#[derive(Clone, Copy, Debug, PartialEq, Eq)]
pub struct Mint {
    pub address: Identity,
    /// The decimals of the token, read from the mint when an operation runs.
    pub decimals: u8,
}

/// The authority over the vault: its address, and the bump that completes the
/// seeds from which the address is derived.
#[derive(Clone, Copy, Debug, PartialEq, Eq)]
pub struct VaultAuthority {
    pub address: Identity,
    pub bump: u8,
}

/// What `initialize` is handed.
#[derive(Clone, Copy, Debug, PartialEq, Eq)]
pub struct Initialize {
    pub owner: Principal,
    pub mint: Mint,
}

/// What `create_account` is handed.
#[derive(Clone, Debug, PartialEq, Eq)]
pub struct CreateAccount {
    /// The record at the address of the new account.
    pub bank_account: BankAccount,
    pub owner: Principal,
}

/// What `remove_account` is handed.
#[derive(Clone, Debug, PartialEq, Eq)]
pub struct RemoveAccount {
    pub bank_account: BankAccount,
    pub owner: Principal,
}

/// What `transfer_balance` is handed.
#[derive(Clone, Debug, PartialEq, Eq)]
pub struct TransferBalance {
    /// The record of the account that gives.
    pub f_bank_account: BankAccount,
    /// The record of the account that receives.
    pub t_bank_account: BankAccount,
    pub owner: Principal,
}

/// What `deposit` and `withdraw` are handed.
#[derive(Clone, Debug, PartialEq, Eq)]
pub struct TransferSpl {
    pub vault_authority: VaultAuthority,
    /// The pooled custody account of the bank.
    pub vault: Identity,
    /// The holder of `wallet`.
    pub wallet_authority: Identity,
    /// The custody account of the counterparty.
    pub wallet: Identity,
    pub bank_account: BankAccount,
    pub owner: Principal,
    pub mint: Mint,
}

impl CreateAccount {
    /// These records, the account now named `id` and empty.
    pub open spec fn created(self, id: Vec<u8>) -> CreateAccount {
        CreateAccount { bank_account: BankAccount { id, balance: 0 }, ..self }
    }
}

impl TransferBalance {
    /// These records, the two accounts holding `from` and `to`.
    pub open spec fn with_balances(self, from: u64, to: u64) -> TransferBalance {
        TransferBalance {
            f_bank_account: BankAccount { balance: from, ..self.f_bank_account },
            t_bank_account: BankAccount { balance: to, ..self.t_bank_account },
            ..self
        }
    }
}

impl TransferSpl {
    /// These records, the account holding `balance`.
    pub open spec fn with_balance(self, balance: u64) -> TransferSpl {
        TransferSpl { bank_account: BankAccount { balance, ..self.bank_account }, ..self }
    }
}

} // verus!
