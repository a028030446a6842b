//! The operations of the bank. Each one runs to its end or is refused as a
//! whole: on an error the records it was handed are exactly as before.

use vstd::prelude::*;
use crate::address::{
    seeds_view, spec_vault_authority_signer_seeds, vault_authority_signer_seeds,
};
use crate::context::{CreateAccount, Initialize, RemoveAccount, TransferBalance, TransferSpl};
use crate::custody::{Receipt, TokenTransfer};
use crate::error::ErrorCode;
use crate::event::{Event, EventView};
use crate::exchange::{to_token_amount, token_amount};
use crate::guard::Bank;
use crate::identity::{bytes_equal, copy_bytes};

verus! {

/// Whether an account may be created over a record that holds `balance`.
pub open spec fn create_outcome(authorized: bool, balance: u64) -> Result<(), ErrorCode> {
    if !authorized {
        Err(ErrorCode::Unauthorized)
    } else if balance > 0 {
        Err(ErrorCode::BalanceNotZero)
    } else {
        Ok(())
    }
}

/// Whether an account that holds `balance` may be removed.
pub open spec fn remove_outcome(authorized: bool, balance: u64) -> Result<(), ErrorCode> {
    if !authorized {
        Err(ErrorCode::Unauthorized)
    } else if balance > 0 {
        Err(ErrorCode::BalanceNotZero)
    } else {
        Ok(())
    }
}

/// The balances of source and destination after `amount` is transferred
/// between accounts that hold `from` and `to`. `same` says that the two are
/// one account: the debit and the credit then cancel.
pub open spec fn transfer_outcome(
    authorized: bool,
    same: bool,
    from: u64,
    to: u64,
    amount: u64,
) -> Result<(u64, u64), ErrorCode> {
    if !authorized {
        Err(ErrorCode::Unauthorized)
    } else if amount > from {
        Err(ErrorCode::InsufficientBalance)
    } else if same {
        Ok((from, to))
    } else if to + amount > u64::MAX {
        Err(ErrorCode::ArithmeticOverflow)
    } else {
        Ok(((from - amount) as u64, (to + amount) as u64))
    }
}

/// The balance after `amount` is deposited to an account that holds
/// `balance`, and the token units that the vault is to receive for it.
pub open spec fn deposit_outcome(
    authorized: bool,
    balance: u64,
    decimals: u8,
    amount: u64,
) -> Result<(u64, u64), ErrorCode> {
    if !authorized {
        Err(ErrorCode::Unauthorized)
    } else if amount == 0 {
        Err(ErrorCode::AmountTooSmall)
    } else if balance + amount > u64::MAX {
        Err(ErrorCode::ArithmeticOverflow)
    } else {
        match token_amount(amount, decimals) {
            Some(tokens) => Ok(((balance + amount) as u64, tokens)),
            None => Err(ErrorCode::ArithmeticOverflow),
        }
    }
}

/// The balance after `amount` is withdrawn from an account that holds
/// `balance`, and the token units that the vault is to send for it.
pub open spec fn withdraw_outcome(
    authorized: bool,
    balance: u64,
    decimals: u8,
    amount: u64,
) -> Result<(u64, u64), ErrorCode> {
    if !authorized {
        Err(ErrorCode::Unauthorized)
    } else if amount > balance {
        Err(ErrorCode::AmountTooBig)
    } else {
        match token_amount(amount, decimals) {
            Some(tokens) => Ok(((balance - amount) as u64, tokens)),
            None => Err(ErrorCode::ArithmeticOverflow),
        }
    }
}

/// Withdraws `amount` units from the account `id`: the balance goes down by
/// `amount`, and the receipt asks for the converted token amount to move from
/// the vault to the wallet. The vault authority vouches for that movement,
/// asserted by the bank through the seeds derived from its owner.
///
/// Refused with `Unauthorized` unless the owner signed, with `AmountTooBig`
/// where `amount` exceeds the balance, and with `ArithmeticOverflow` where the
/// conversion leaves 64 bits.
pub fn withdraw(bank: &Bank, ctx: &mut TransferSpl, id: Vec<u8>, amount: u64) -> (r: Result<
    Receipt,
    ErrorCode,
>)
    ensures
        match withdraw_outcome(
            bank.authorizes(old(ctx).owner),
            old(ctx).bank_account.balance,
            old(ctx).mint.decimals,
            amount,
        ) {
            Ok((balance, tokens)) => {
                &&& r matches Ok(receipt)
                &&& *final(ctx) == old(ctx).with_balance(balance)
                &&& receipt.transfer.moves(
                    old(ctx).vault,
                    old(ctx).wallet,
                    old(ctx).vault_authority.address,
                    tokens,
                    spec_vault_authority_signer_seeds(bank.owner@, old(ctx).vault_authority.bump),
                )
                &&& receipt.event@ == (EventView::Withdrawn { id: id@, amount })
                &&& receipt.balance_before == old(ctx).bank_account.balance
            },
            Err(e) => r == Err::<Receipt, ErrorCode>(e) && *final(ctx) == *old(ctx),
        },
{
    match bank.authorize(&ctx.owner) {
        Ok(()) => {},
        Err(e) => {
            return Err(e);
        },
    }
    if amount > ctx.bank_account.balance {
        return Err(ErrorCode::AmountTooBig);
    }
    let tokens = match to_token_amount(amount, ctx.mint.decimals) {
        Ok(tokens) => tokens,
        Err(e) => {
            return Err(e);
        },
    };
    let balance_before = ctx.bank_account.balance;
    match ctx.bank_account.debit(amount) {
        Ok(()) => {},
        Err(e) => {
            return Err(e);
        },
    }
    let transfer = TokenTransfer {
        from: ctx.vault,
        to: ctx.wallet,
        authority: ctx.vault_authority.address,
        amount: tokens,
        signer_seeds: vault_authority_signer_seeds(&ctx.owner.key, ctx.vault_authority.bump),
    };
    Ok(Receipt { event: Event::Withdrawn { id, amount }, transfer, balance_before })
}

/// Deposits `amount` units to the account `id`: the balance goes up by
/// `amount`, and the receipt asks for the converted token amount to move from
/// the wallet to the vault. The holder of the wallet vouches for that movement
/// with its own signature, so the bank adds no seeds.
///
/// Refused with `Unauthorized` unless the owner signed, with `AmountTooSmall`
/// where `amount` is zero, and with `ArithmeticOverflow` where the new balance
/// or the conversion leaves 64 bits.
pub fn deposit(bank: &Bank, ctx: &mut TransferSpl, id: Vec<u8>, amount: u64) -> (r: Result<
    Receipt,
    ErrorCode,
>)
    ensures
        match deposit_outcome(
            bank.authorizes(old(ctx).owner),
            old(ctx).bank_account.balance,
            old(ctx).mint.decimals,
            amount,
        ) {
            Ok((balance, tokens)) => {
                &&& r matches Ok(receipt)
                &&& *final(ctx) == old(ctx).with_balance(balance)
                &&& receipt.transfer.moves(
                    old(ctx).wallet,
                    old(ctx).vault,
                    old(ctx).wallet_authority,
                    tokens,
                    Seq::<Seq<u8>>::empty(),
                )
                &&& receipt.event@ == (EventView::Deposited { id: id@, amount })
                &&& receipt.balance_before == old(ctx).bank_account.balance
            },
            Err(e) => r == Err::<Receipt, ErrorCode>(e) && *final(ctx) == *old(ctx),
        },
{
    match bank.authorize(&ctx.owner) {
        Ok(()) => {},
        Err(e) => {
            return Err(e);
        },
    }
    if amount == 0 {
        return Err(ErrorCode::AmountTooSmall);
    }
    let balance_before = ctx.bank_account.balance;
    match ctx.bank_account.credit(amount) {
        Ok(()) => {},
        Err(e) => {
            return Err(e);
        },
    }
    let tokens = match to_token_amount(amount, ctx.mint.decimals) {
        Ok(tokens) => tokens,
        Err(e) => {
            ctx.bank_account.balance = balance_before;
            return Err(e);
        },
    };
    let transfer = TokenTransfer {
        from: ctx.wallet,
        to: ctx.vault,
        authority: ctx.wallet_authority,
        amount: tokens,
        signer_seeds: Vec::new(),
    };
    assert(transfer.moves(
        old(ctx).wallet,
        old(ctx).vault,
        old(ctx).wallet_authority,
        tokens,
        Seq::<Seq<u8>>::empty(),
    )) by {
        assert(seeds_view(transfer.signer_seeds) =~= Seq::<Seq<u8>>::empty());
    }
    Ok(Receipt { event: Event::Deposited { id, amount }, transfer, balance_before })
}

/// Closes a deposit or a withdrawal once the custody subsystem has answered.
/// Where the tokens moved, the event of the receipt is reported and the
/// records stay. Where the subsystem refused, the balance change is undone
/// and the error is `ExternalTransferFailed`.
pub fn settle(ctx: &mut TransferSpl, receipt: Receipt, moved: bool) -> (r: Result<
    Event,
    ErrorCode,
>)
    ensures
        moved ==> r == Ok::<Event, ErrorCode>(receipt.event) && *final(ctx) == *old(ctx),
        !moved ==> r == Err::<Event, ErrorCode>(ErrorCode::ExternalTransferFailed) && *final(ctx)
            == old(ctx).with_balance(receipt.balance_before),
{
    if moved {
        Ok(receipt.event)
    } else {
        ctx.bank_account.balance = receipt.balance_before;
        Err(ErrorCode::ExternalTransferFailed)
    }
}

/// Moves `amount` units from the account `fid` to the account `tid`, both
/// changes or neither. Where `fid` and `tid` name one account the debit and
/// the credit cancel: the transfer goes through and no balance changes.
///
/// Refused with `Unauthorized` unless the owner signed, with
/// `InsufficientBalance` where `amount` exceeds the balance of the source, and
/// with `ArithmeticOverflow` where the balance of the destination would leave
/// 64 bits.
pub fn transfer_balance(
    bank: &Bank,
    ctx: &mut TransferBalance,
    fid: Vec<u8>,
    tid: Vec<u8>,
    amount: u64,
) -> (r: Result<Event, ErrorCode>)
    ensures
        match transfer_outcome(
            bank.authorizes(old(ctx).owner),
            fid@ == tid@,
            old(ctx).f_bank_account.balance,
            old(ctx).t_bank_account.balance,
            amount,
        ) {
            Ok((from, to)) => {
                &&& r matches Ok(event)
                &&& event@ == (EventView::Transferred { from: fid@, to: tid@, amount })
                &&& *final(ctx) == old(ctx).with_balances(from, to)
            },
            Err(e) => r == Err::<Event, ErrorCode>(e) && *final(ctx) == *old(ctx),
        },
{
    match bank.authorize(&ctx.owner) {
        Ok(()) => {},
        Err(e) => {
            return Err(e);
        },
    }
    if amount > ctx.f_bank_account.balance {
        return Err(ErrorCode::InsufficientBalance);
    }
    if !bytes_equal(&fid, &tid) {
        match ctx.t_bank_account.credit(amount) {
            Ok(()) => {},
            Err(e) => {
                return Err(e);
            },
        }
        match ctx.f_bank_account.debit(amount) {
            Ok(()) => {},
            Err(e) => {
                return Err(e);
            },
        }
    }
    Ok(Event::Transferred { from: fid, to: tid, amount })
}

/// Approves the removal of the account `id`, whose record the host then
/// deletes. Refused with `Unauthorized` unless the owner signed, and with
/// `BalanceNotZero` where the account still holds units.
pub fn remove_account(bank: &Bank, ctx: &RemoveAccount, id: Vec<u8>) -> (r: Result<
    Event,
    ErrorCode,
>)
    ensures
        match remove_outcome(bank.authorizes(ctx.owner), ctx.bank_account.balance) {
            Ok(()) => r matches Ok(event) && event@ == (EventView::AccountRemoved { id: id@ }),
            Err(e) => r == Err::<Event, ErrorCode>(e),
        },
{
    match bank.authorize(&ctx.owner) {
        Ok(()) => {},
        Err(e) => {
            return Err(e);
        },
    }
    if ctx.bank_account.balance > 0 {
        return Err(ErrorCode::BalanceNotZero);
    }
    Ok(Event::AccountRemoved { id })
}

/// Creates the account `id` over the record at its address: the record is
/// named `id` and its balance is zero.
///
/// A record that holds units is an account that exists already. Creating over
/// it would destroy its balance, so it is refused with `BalanceNotZero` and
/// the record stays; over an empty record of the same address, creating again
/// changes nothing. Refused with `Unauthorized` unless the owner signed.
pub fn create_account(bank: &Bank, ctx: &mut CreateAccount, id: Vec<u8>) -> (r: Result<
    Event,
    ErrorCode,
>)
    ensures
        match create_outcome(bank.authorizes(old(ctx).owner), old(ctx).bank_account.balance) {
            Ok(()) => {
                &&& r matches Ok(event)
                &&& event@ == (EventView::AccountCreated { id: id@ })
                &&& *final(ctx) == old(ctx).created(id)
            },
            Err(e) => r == Err::<Event, ErrorCode>(e) && *final(ctx) == *old(ctx),
        },
{
    match bank.authorize(&ctx.owner) {
        Ok(()) => {},
        Err(e) => {
            return Err(e);
        },
    }
    if ctx.bank_account.balance > 0 {
        return Err(ErrorCode::BalanceNotZero);
    }
    let reported = copy_bytes(&id);
    ctx.bank_account.id = id;
    ctx.bank_account.balance = 0;
    Ok(Event::AccountCreated { id: reported })
}

/// Admits the provisioning of the vault and of its authority, which the host
/// carries out. Refused with `Unauthorized` unless the owner signed.
pub fn initialize(bank: &Bank, ctx: &Initialize) -> (r: Result<(), ErrorCode>)
    ensures
        bank.authorizes(ctx.owner) ==> r == Ok::<(), ErrorCode>(()),
        !bank.authorizes(ctx.owner) ==> r == Err::<(), ErrorCode>(ErrorCode::Unauthorized),
{
    bank.authorize(&ctx.owner)
}

} // verus!
