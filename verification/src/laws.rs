//! What holds of the operations of the bank on every input, stated over the
//! outcome functions that the contracts of the operations use.

use vstd::prelude::*;
use crate::account::BankAccount;
use crate::context::TransferSpl;
use crate::error::ErrorCode;
use crate::exchange::{lemma_pow10_monotonic, pow10, token_amount};
use crate::operations::{
    create_outcome, deposit_outcome, remove_outcome, transfer_outcome, withdraw_outcome,
};

verus! {

/// An account can be created, by the owner, exactly over a record that holds
/// nothing; the record that `create_account` leaves then holds a balance of
/// zero.
pub proof fn lemma_created_account_is_empty(balance: u64)
    ensures
        create_outcome(true, balance) is Ok <==> balance == 0,
        create_outcome(true, balance) is Err ==> create_outcome(true, balance) == Err::<
            (),
            ErrorCode,
        >(ErrorCode::BalanceNotZero),
{
}

/// For the owner, removal fails if and only if the account holds units, and
/// then with `BalanceNotZero`.
pub proof fn lemma_remove_fails_iff_funded(balance: u64)
    ensures
        remove_outcome(true, balance) is Err <==> balance > 0,
        remove_outcome(true, balance) is Err ==> remove_outcome(true, balance) == Err::<
            (),
            ErrorCode,
        >(ErrorCode::BalanceNotZero),
{
}

/// Nobody but the owner gets anything done: every operation answers
/// `Unauthorized` before it looks at anything else.
pub proof fn lemma_guard_comes_first(
    same: bool,
    balance: u64,
    other: u64,
    decimals: u8,
    amount: u64,
)
    ensures
        create_outcome(false, balance) == Err::<(), ErrorCode>(ErrorCode::Unauthorized),
        remove_outcome(false, balance) == Err::<(), ErrorCode>(ErrorCode::Unauthorized),
        transfer_outcome(false, same, balance, other, amount) == Err::<(u64, u64), ErrorCode>(
            ErrorCode::Unauthorized,
        ),
        deposit_outcome(false, balance, decimals, amount) == Err::<(u64, u64), ErrorCode>(
            ErrorCode::Unauthorized,
        ),
        withdraw_outcome(false, balance, decimals, amount) == Err::<(u64, u64), ErrorCode>(
            ErrorCode::Unauthorized,
        ),
{
}

/// A transfer of no more than the source holds, between two accounts, takes
/// `amount` from the one and gives it to the other, unless the destination
/// would overflow. Between an account and itself it changes nothing. Either
/// way the two balances sum to what they summed to before.
pub proof fn lemma_transfer_conserves(same: bool, from: u64, to: u64, amount: u64)
    requires
        amount <= from,
    ensures
        match transfer_outcome(true, same, from, to, amount) {
            Ok((f, t)) => {
                &&& f + t == from + to
                &&& !same ==> f == from - amount && t == to + amount
                &&& same ==> f == from && t == to
            },
            Err(e) => e == ErrorCode::ArithmeticOverflow && !same && to + amount > u64::MAX,
        },
{
}

/// A transfer of more than the source holds fails with `InsufficientBalance`,
/// whatever the destination.
pub proof fn lemma_transfer_needs_funds(same: bool, from: u64, to: u64, amount: u64)
    requires
        amount > from,
    ensures
        transfer_outcome(true, same, from, to, amount) == Err::<(u64, u64), ErrorCode>(
            ErrorCode::InsufficientBalance,
        ),
{
}

/// A deposit of nothing fails with `AmountTooSmall`.
pub proof fn lemma_deposit_of_zero_fails(balance: u64, decimals: u8)
    ensures
        deposit_outcome(true, balance, decimals, 0) == Err::<(u64, u64), ErrorCode>(
            ErrorCode::AmountTooSmall,
        ),
{
}

/// A deposit of `amount > 0` that fits raises the balance by exactly `amount`
/// and asks for `amount * 10^decimals / 100` token units, truncated.
pub proof fn lemma_deposit_credits_and_converts(balance: u64, decimals: u8, amount: u64)
    requires
        amount > 0,
        balance + amount <= u64::MAX,
        amount * pow10(decimals as nat) <= u64::MAX,
    ensures
        deposit_outcome(true, balance, decimals, amount) == Ok::<(u64, u64), ErrorCode>(
            ((balance + amount) as u64, ((amount * pow10(decimals as nat)) / 100) as u64),
        ),
{
    lemma_scale_within_product(amount, decimals);
}

/// A withdrawal of no more than the account holds lowers the balance by
/// exactly `amount` and asks for `amount * 10^decimals / 100` token units,
/// truncated.
pub proof fn lemma_withdraw_debits_and_converts(balance: u64, decimals: u8, amount: u64)
    requires
        amount <= balance,
        pow10(decimals as nat) <= u64::MAX,
        amount * pow10(decimals as nat) <= u64::MAX,
    ensures
        withdraw_outcome(true, balance, decimals, amount) == Ok::<(u64, u64), ErrorCode>(
            ((balance - amount) as u64, ((amount * pow10(decimals as nat)) / 100) as u64),
        ),
{
}

/// A withdrawal of more than the account holds fails with `AmountTooBig`.
pub proof fn lemma_withdraw_needs_funds(balance: u64, decimals: u8, amount: u64)
    requires
        amount > balance,
    ensures
        withdraw_outcome(true, balance, decimals, amount) == Err::<(u64, u64), ErrorCode>(
            ErrorCode::AmountTooBig,
        ),
{
}

/// Where a positive amount scaled by `10^decimals` fits in 64 bits, so does
/// the scale alone.
pub proof fn lemma_scale_within_product(amount: u64, decimals: u8)
    requires
        amount > 0,
    ensures
        pow10(decimals as nat) <= amount * pow10(decimals as nat),
{
    let scale = pow10(decimals as nat);
    assert(scale <= amount * scale) by (nonlinear_arith)
        requires
            amount >= 1,
            scale >= 0,
    ;
}

/// Depositing `amount` and then withdrawing `amount` brings the balance back
/// and asks for the same token amount in both directions.
pub proof fn lemma_deposit_then_withdraw_round_trip(balance: u64, decimals: u8, amount: u64)
    ensures
        match deposit_outcome(true, balance, decimals, amount) {
            Ok((raised, tokens)) => withdraw_outcome(true, raised, decimals, amount) == Ok::<
                (u64, u64),
                ErrorCode,
            >((balance, tokens)),
            Err(_) => true,
        },
{
}

/// The conversion never rounds up, loses less than one token unit, and loses
/// nothing exactly where `amount * 10^decimals` is a multiple of 100.
pub proof fn lemma_conversion_truncates(amount: u64, decimals: u8)
    ensures
        match token_amount(amount, decimals) {
            Some(tokens) => {
                let scaled = amount * pow10(decimals as nat);
                &&& tokens * 100 <= scaled < tokens * 100 + 100
                &&& tokens * 100 == scaled <==> scaled % 100 == 0
            },
            None => true,
        },
{
}

/// With two decimals or more a positive amount converts without loss: each
/// internal unit is `10^(decimals - 2)` token units.
pub proof fn lemma_conversion_exact_from_two_decimals(amount: u64, decimals: u8)
    requires
        decimals >= 2,
    ensures
        match token_amount(amount, decimals) {
            Some(tokens) => tokens == amount * pow10((decimals - 2) as nat),
            None => true,
        },
{
    let rest = pow10((decimals - 2) as nat);
    assert(pow10(decimals as nat) == 100 * rest) by {
        reveal_with_fuel(pow10, 3);
    }
    assert(amount * (100 * rest) == (amount * rest) * 100) by (nonlinear_arith);
}

/// Crediting any positive amount to an account that holds `u64::MAX` fails.
pub proof fn lemma_credit_at_max_overflows(amount: u64)
    requires
        amount > 0,
    ensures
        BankAccount::credited(u64::MAX, amount) is None,
{
}

/// Undoing the balance change of a deposit or a withdrawal leaves the records
/// as they were before it.
pub proof fn lemma_undone_change_restores(ctx: TransferSpl, balance: u64)
    ensures
        ctx.with_balance(balance).with_balance(ctx.bank_account.balance) == ctx,
{
}

} // verus!
