//! The ways an operation of the bank can be refused.

use vstd::prelude::*;

verus! {

/// Why an operation was aborted. Every failure is terminal: the record or
/// records that the operation was handed are left exactly as they were.
#[derive(Clone, Copy, Debug, PartialEq, Eq, Structural)]
pub enum ErrorCode {
    /// The designated owner did not sign the request.
    Unauthorized,
    /// A deposit of zero units.
    AmountTooSmall,
    /// A withdrawal of more than the account holds.
    AmountTooBig,
    /// A transfer of more than the source account holds.
    InsufficientBalance,
    /// Removal of an account that still holds units.
    BalanceNotZero,
    /// A sum or product that does not fit in 64 bits.
    ArithmeticOverflow,
    /// A difference below zero.
    ArithmeticUnderflow,
    /// The custody subsystem rejected the token movement.
    ExternalTransferFailed,
}

} // verus!
