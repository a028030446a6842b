//! A custodial balance ledger with an attached token vault.
//!
//! Named accounts hold an internal balance. The owner of the bank moves
//! balance between accounts, and exchanges it against tokens held in a pooled
//! vault: a deposit credits an account and asks for tokens to enter the vault,
//! a withdrawal debits it and asks for tokens to leave. The bank itself moves
//! no token and stores no record. It is handed the records that an operation
//! touches, changes their balances, and says which token movement the custody
//! subsystem is to carry out.

pub mod account;
pub mod address;
pub mod arith;
pub mod context;
pub mod custody;
pub mod error;
pub mod event;
pub mod exchange;
pub mod guard;
pub mod identity;
pub mod laws;
pub mod operations;

pub use account::BankAccount;
pub use context::{
    CreateAccount, Initialize, Mint, RemoveAccount, TransferBalance, TransferSpl, VaultAuthority,
};
pub use custody::{Receipt, TokenTransfer};
pub use error::ErrorCode;
pub use event::Event;
pub use guard::Bank;
pub use identity::{Identity, Principal};
pub use operations::{
    create_account, deposit, initialize, remove_account, settle, transfer_balance, withdraw,
};
