use jambo_bank::{
    create_account, deposit, initialize, remove_account, settle, transfer_balance, withdraw, Bank,
    BankAccount, CreateAccount, ErrorCode, Event, Identity, Initialize, Mint, Principal,
    RemoveAccount, TransferBalance, TransferSpl, VaultAuthority,
};

fn key(n: u8) -> Identity {
    Identity::new([n; 32])
}

fn bank() -> Bank {
    Bank::new(key(9), key(1))
}

fn owner() -> Principal {
    Principal { key: key(1), is_signer: true }
}

fn account(id: &[u8], balance: u64) -> BankAccount {
    BankAccount { id: id.to_vec(), balance }
}

fn exchange(id: &[u8], balance: u64, decimals: u8) -> TransferSpl {
    TransferSpl {
        vault_authority: VaultAuthority { address: key(2), bump: 254 },
        vault: key(3),
        wallet_authority: key(4),
        wallet: key(5),
        bank_account: account(id, balance),
        owner: owner(),
        mint: Mint { address: key(6), decimals },
    }
}

#[test]
fn initialize_passes_the_owner() {
    let ctx = Initialize { owner: owner(), mint: Mint { address: key(6), decimals: 6 } };
    assert_eq!(initialize(&bank(), &ctx), Ok(()));
}

#[test]
fn initialize_refuses_a_stranger() {
    let stranger = Principal { key: key(7), is_signer: true };
    let ctx = Initialize { owner: stranger, mint: Mint { address: key(6), decimals: 6 } };
    assert_eq!(initialize(&bank(), &ctx), Err(ErrorCode::Unauthorized));
}

#[test]
fn initialize_refuses_an_owner_that_did_not_sign() {
    let silent = Principal { key: key(1), is_signer: false };
    let ctx = Initialize { owner: silent, mint: Mint { address: key(6), decimals: 6 } };
    assert_eq!(initialize(&bank(), &ctx), Err(ErrorCode::Unauthorized));
}

#[test]
fn create_names_the_record_and_leaves_it_empty() {
    let mut ctx = CreateAccount { bank_account: BankAccount::default(), owner: owner() };
    let event = create_account(&bank(), &mut ctx, b"alice".to_vec());
    assert_eq!(event, Ok(Event::AccountCreated { id: b"alice".to_vec() }));
    assert_eq!(ctx.bank_account, account(b"alice", 0));
}

#[test]
fn create_again_over_an_empty_account_changes_nothing() {
    let mut ctx = CreateAccount { bank_account: account(b"alice", 0), owner: owner() };
    let event = create_account(&bank(), &mut ctx, b"alice".to_vec());
    assert_eq!(event, Ok(Event::AccountCreated { id: b"alice".to_vec() }));
    assert_eq!(ctx.bank_account, account(b"alice", 0));
}

#[test]
fn create_over_a_funded_account_is_refused() {
    let mut ctx = CreateAccount { bank_account: account(b"alice", 7), owner: owner() };
    let event = create_account(&bank(), &mut ctx, b"alice".to_vec());
    assert_eq!(event, Err(ErrorCode::BalanceNotZero));
    assert_eq!(ctx.bank_account, account(b"alice", 7));
}

#[test]
fn create_refuses_a_stranger() {
    let stranger = Principal { key: key(7), is_signer: true };
    let mut ctx = CreateAccount { bank_account: BankAccount::default(), owner: stranger };
    let event = create_account(&bank(), &mut ctx, b"alice".to_vec());
    assert_eq!(event, Err(ErrorCode::Unauthorized));
    assert_eq!(ctx.bank_account, BankAccount::default());
}

#[test]
fn remove_of_an_empty_account_is_approved() {
    let ctx = RemoveAccount { bank_account: account(b"alice", 0), owner: owner() };
    let event = remove_account(&bank(), &ctx, b"alice".to_vec());
    assert_eq!(event, Ok(Event::AccountRemoved { id: b"alice".to_vec() }));
}

#[test]
fn remove_of_a_funded_account_is_refused() {
    let ctx = RemoveAccount { bank_account: account(b"alice", 1), owner: owner() };
    assert_eq!(
        remove_account(&bank(), &ctx, b"alice".to_vec()),
        Err(ErrorCode::BalanceNotZero)
    );
    let full = RemoveAccount { bank_account: account(b"alice", u64::MAX), owner: owner() };
    assert_eq!(
        remove_account(&bank(), &full, b"alice".to_vec()),
        Err(ErrorCode::BalanceNotZero)
    );
}

#[test]
fn remove_refuses_a_stranger_before_it_looks_at_the_balance() {
    let stranger = Principal { key: key(7), is_signer: true };
    let empty = RemoveAccount { bank_account: account(b"alice", 0), owner: stranger };
    assert_eq!(remove_account(&bank(), &empty, b"alice".to_vec()), Err(ErrorCode::Unauthorized));
    let funded = RemoveAccount { bank_account: account(b"alice", 3), owner: stranger };
    assert_eq!(remove_account(&bank(), &funded, b"alice".to_vec()), Err(ErrorCode::Unauthorized));
}

#[test]
fn transfer_moves_the_amount() {
    let mut ctx = TransferBalance {
        f_bank_account: account(b"alice", 500),
        t_bank_account: account(b"bob", 40),
        owner: owner(),
    };
    let event = transfer_balance(&bank(), &mut ctx, b"alice".to_vec(), b"bob".to_vec(), 200);
    assert_eq!(
        event,
        Ok(Event::Transferred { from: b"alice".to_vec(), to: b"bob".to_vec(), amount: 200 })
    );
    assert_eq!(ctx.f_bank_account, account(b"alice", 300));
    assert_eq!(ctx.t_bank_account, account(b"bob", 240));
    assert_eq!(ctx.f_bank_account.balance + ctx.t_bank_account.balance, 540);
}

#[test]
fn transfer_of_the_whole_balance_empties_the_source() {
    let mut ctx = TransferBalance {
        f_bank_account: account(b"alice", 500),
        t_bank_account: account(b"bob", 0),
        owner: owner(),
    };
    let event = transfer_balance(&bank(), &mut ctx, b"alice".to_vec(), b"bob".to_vec(), 500);
    assert!(event.is_ok());
    assert_eq!(ctx.f_bank_account.balance, 0);
    assert_eq!(ctx.t_bank_account.balance, 500);
}

#[test]
fn transfer_of_nothing_goes_through() {
    let mut ctx = TransferBalance {
        f_bank_account: account(b"alice", 0),
        t_bank_account: account(b"bob", 0),
        owner: owner(),
    };
    let event = transfer_balance(&bank(), &mut ctx, b"alice".to_vec(), b"bob".to_vec(), 0);
    assert!(event.is_ok());
    assert_eq!(ctx.f_bank_account.balance, 0);
    assert_eq!(ctx.t_bank_account.balance, 0);
}

#[test]
fn transfer_of_too_much_changes_nothing() {
    let mut ctx = TransferBalance {
        f_bank_account: account(b"alice", 500),
        t_bank_account: account(b"bob", 40),
        owner: owner(),
    };
    let event = transfer_balance(&bank(), &mut ctx, b"alice".to_vec(), b"bob".to_vec(), 501);
    assert_eq!(event, Err(ErrorCode::InsufficientBalance));
    assert_eq!(ctx.f_bank_account, account(b"alice", 500));
    assert_eq!(ctx.t_bank_account, account(b"bob", 40));
}

#[test]
fn transfer_to_the_same_account_nets_out() {
    let mut ctx = TransferBalance {
        f_bank_account: account(b"alice", 500),
        t_bank_account: account(b"alice", 500),
        owner: owner(),
    };
    let event = transfer_balance(&bank(), &mut ctx, b"alice".to_vec(), b"alice".to_vec(), 200);
    assert_eq!(
        event,
        Ok(Event::Transferred { from: b"alice".to_vec(), to: b"alice".to_vec(), amount: 200 })
    );
    assert_eq!(ctx.f_bank_account, account(b"alice", 500));
    assert_eq!(ctx.t_bank_account, account(b"alice", 500));
}

#[test]
fn transfer_to_the_same_account_still_needs_the_funds() {
    let mut ctx = TransferBalance {
        f_bank_account: account(b"alice", 500),
        t_bank_account: account(b"alice", 500),
        owner: owner(),
    };
    let event = transfer_balance(&bank(), &mut ctx, b"alice".to_vec(), b"alice".to_vec(), 501);
    assert_eq!(event, Err(ErrorCode::InsufficientBalance));
    assert_eq!(ctx.f_bank_account.balance, 500);
}

#[test]
fn transfer_to_the_same_full_account_does_not_overflow() {
    let mut ctx = TransferBalance {
        f_bank_account: account(b"alice", u64::MAX),
        t_bank_account: account(b"alice", u64::MAX),
        owner: owner(),
    };
    let event = transfer_balance(&bank(), &mut ctx, b"alice".to_vec(), b"alice".to_vec(), 1);
    assert!(event.is_ok());
    assert_eq!(ctx.f_bank_account.balance, u64::MAX);
    assert_eq!(ctx.t_bank_account.balance, u64::MAX);
}

#[test]
fn transfer_that_would_overflow_the_destination_changes_nothing() {
    let mut ctx = TransferBalance {
        f_bank_account: account(b"alice", 10),
        t_bank_account: account(b"bob", u64::MAX - 4),
        owner: owner(),
    };
    let event = transfer_balance(&bank(), &mut ctx, b"alice".to_vec(), b"bob".to_vec(), 5);
    assert_eq!(event, Err(ErrorCode::ArithmeticOverflow));
    assert_eq!(ctx.f_bank_account.balance, 10);
    assert_eq!(ctx.t_bank_account.balance, u64::MAX - 4);
    let event = transfer_balance(&bank(), &mut ctx, b"alice".to_vec(), b"bob".to_vec(), 4);
    assert!(event.is_ok());
    assert_eq!(ctx.f_bank_account.balance, 6);
    assert_eq!(ctx.t_bank_account.balance, u64::MAX);
}

#[test]
fn transfer_refuses_a_stranger() {
    let mut ctx = TransferBalance {
        f_bank_account: account(b"alice", 500),
        t_bank_account: account(b"bob", 40),
        owner: Principal { key: key(7), is_signer: true },
    };
    let event = transfer_balance(&bank(), &mut ctx, b"alice".to_vec(), b"bob".to_vec(), 200);
    assert_eq!(event, Err(ErrorCode::Unauthorized));
    assert_eq!(ctx.f_bank_account.balance, 500);
    assert_eq!(ctx.t_bank_account.balance, 40);
}

#[test]
fn deposit_of_zero_is_refused() {
    let mut ctx = exchange(b"alice", 12, 6);
    let before = ctx.clone();
    assert_eq!(deposit(&bank(), &mut ctx, b"alice".to_vec(), 0), Err(ErrorCode::AmountTooSmall));
    assert_eq!(ctx, before);
}

#[test]
fn deposit_credits_and_asks_for_the_converted_amount() {
    let mut ctx = exchange(b"alice", 12, 6);
    let receipt = deposit(&bank(), &mut ctx, b"alice".to_vec(), 500).unwrap();
    assert_eq!(ctx.bank_account, account(b"alice", 512));
    assert_eq!(receipt.event, Event::Deposited { id: b"alice".to_vec(), amount: 500 });
    assert_eq!(receipt.balance_before, 12);
    assert_eq!(receipt.transfer.amount, 5_000_000);
    assert_eq!(receipt.transfer.from, key(5));
    assert_eq!(receipt.transfer.to, key(3));
    assert_eq!(receipt.transfer.authority, key(4));
    assert!(receipt.transfer.signer_seeds.is_empty());
}

#[test]
fn deposit_truncates_what_is_less_than_a_token_unit() {
    let mut ctx = exchange(b"alice", 0, 0);
    let receipt = deposit(&bank(), &mut ctx, b"alice".to_vec(), 150).unwrap();
    assert_eq!(receipt.transfer.amount, 1);
    assert_eq!(ctx.bank_account.balance, 150);
    let mut ctx = exchange(b"alice", 0, 1);
    let receipt = deposit(&bank(), &mut ctx, b"alice".to_vec(), 9).unwrap();
    assert_eq!(receipt.transfer.amount, 0);
    assert_eq!(ctx.bank_account.balance, 9);
}

#[test]
fn deposit_that_would_overflow_the_balance_changes_nothing() {
    let mut ctx = exchange(b"alice", u64::MAX, 0);
    let before = ctx.clone();
    assert_eq!(
        deposit(&bank(), &mut ctx, b"alice".to_vec(), 1),
        Err(ErrorCode::ArithmeticOverflow)
    );
    assert_eq!(ctx, before);
}

#[test]
fn deposit_whose_conversion_overflows_changes_nothing() {
    let mut ctx = exchange(b"alice", 12, 19);
    let before = ctx.clone();
    assert_eq!(
        deposit(&bank(), &mut ctx, b"alice".to_vec(), 2),
        Err(ErrorCode::ArithmeticOverflow)
    );
    assert_eq!(ctx, before);
    let mut ctx = exchange(b"alice", 12, 20);
    let before = ctx.clone();
    assert_eq!(
        deposit(&bank(), &mut ctx, b"alice".to_vec(), 1),
        Err(ErrorCode::ArithmeticOverflow)
    );
    assert_eq!(ctx, before);
}

#[test]
fn deposit_refuses_a_stranger() {
    let mut ctx = exchange(b"alice", 12, 6);
    ctx.owner = Principal { key: key(7), is_signer: true };
    let before = ctx.clone();
    assert_eq!(deposit(&bank(), &mut ctx, b"alice".to_vec(), 0), Err(ErrorCode::Unauthorized));
    assert_eq!(deposit(&bank(), &mut ctx, b"alice".to_vec(), 5), Err(ErrorCode::Unauthorized));
    assert_eq!(ctx, before);
}

#[test]
fn withdraw_debits_and_asks_the_vault_to_pay() {
    let mut ctx = exchange(b"bob", 200, 6);
    let receipt = withdraw(&bank(), &mut ctx, b"bob".to_vec(), 100).unwrap();
    assert_eq!(ctx.bank_account, account(b"bob", 100));
    assert_eq!(receipt.event, Event::Withdrawn { id: b"bob".to_vec(), amount: 100 });
    assert_eq!(receipt.balance_before, 200);
    assert_eq!(receipt.transfer.amount, 1_000_000);
    assert_eq!(receipt.transfer.from, key(3));
    assert_eq!(receipt.transfer.to, key(5));
    assert_eq!(receipt.transfer.authority, key(2));
    assert_eq!(
        receipt.transfer.signer_seeds,
        vec![b"vault-authority".to_vec(), vec![1u8; 32], vec![254u8]]
    );
}

#[test]
fn withdraw_of_the_whole_balance_empties_the_account() {
    let mut ctx = exchange(b"bob", 200, 2);
    let receipt = withdraw(&bank(), &mut ctx, b"bob".to_vec(), 200).unwrap();
    assert_eq!(ctx.bank_account.balance, 0);
    assert_eq!(receipt.transfer.amount, 200);
}

#[test]
fn withdraw_of_nothing_asks_for_nothing() {
    let mut ctx = exchange(b"bob", 0, 6);
    let receipt = withdraw(&bank(), &mut ctx, b"bob".to_vec(), 0).unwrap();
    assert_eq!(ctx.bank_account.balance, 0);
    assert_eq!(receipt.transfer.amount, 0);
}

#[test]
fn withdraw_of_too_much_changes_nothing() {
    let mut ctx = exchange(b"bob", 200, 6);
    let before = ctx.clone();
    assert_eq!(withdraw(&bank(), &mut ctx, b"bob".to_vec(), 201), Err(ErrorCode::AmountTooBig));
    assert_eq!(ctx, before);
}

#[test]
fn withdraw_whose_conversion_overflows_changes_nothing() {
    let mut ctx = exchange(b"bob", 200, 19);
    let before = ctx.clone();
    assert_eq!(
        withdraw(&bank(), &mut ctx, b"bob".to_vec(), 2),
        Err(ErrorCode::ArithmeticOverflow)
    );
    assert_eq!(ctx, before);
    let mut ctx = exchange(b"bob", 200, 20);
    let before = ctx.clone();
    assert_eq!(
        withdraw(&bank(), &mut ctx, b"bob".to_vec(), 0),
        Err(ErrorCode::ArithmeticOverflow)
    );
    assert_eq!(ctx, before);
}

#[test]
fn withdraw_refuses_a_stranger() {
    let mut ctx = exchange(b"bob", 200, 6);
    ctx.owner = Principal { key: key(1), is_signer: false };
    let before = ctx.clone();
    assert_eq!(withdraw(&bank(), &mut ctx, b"bob".to_vec(), 100), Err(ErrorCode::Unauthorized));
    assert_eq!(withdraw(&bank(), &mut ctx, b"bob".to_vec(), 201), Err(ErrorCode::Unauthorized));
    assert_eq!(ctx, before);
}

#[test]
fn deposit_then_withdraw_asks_for_the_same_tokens_both_ways() {
    let mut ctx = exchange(b"alice", 12, 6);
    let paid_in = deposit(&bank(), &mut ctx, b"alice".to_vec(), 345).unwrap();
    let paid_out = withdraw(&bank(), &mut ctx, b"alice".to_vec(), 345).unwrap();
    assert_eq!(paid_in.transfer.amount, 3_450_000);
    assert_eq!(paid_out.transfer.amount, 3_450_000);
    assert_eq!(ctx.bank_account.balance, 12);
}

#[test]
fn deposit_then_withdraw_with_truncation_loses_the_same_both_ways() {
    let mut ctx = exchange(b"alice", 0, 1);
    let paid_in = deposit(&bank(), &mut ctx, b"alice".to_vec(), 345).unwrap();
    let paid_out = withdraw(&bank(), &mut ctx, b"alice".to_vec(), 345).unwrap();
    assert_eq!((345u64 * 10) % 100, 50);
    assert_eq!(paid_in.transfer.amount, 34);
    assert_eq!(paid_out.transfer.amount, 34);
    assert_eq!(ctx.bank_account.balance, 0);
}

#[test]
fn settle_reports_the_event_once_the_tokens_moved() {
    let mut ctx = exchange(b"alice", 12, 6);
    let receipt = deposit(&bank(), &mut ctx, b"alice".to_vec(), 500).unwrap();
    let event = settle(&mut ctx, receipt, true);
    assert_eq!(event, Ok(Event::Deposited { id: b"alice".to_vec(), amount: 500 }));
    assert_eq!(ctx.bank_account.balance, 512);
}

#[test]
fn settle_undoes_a_deposit_that_the_custody_refused() {
    let mut ctx = exchange(b"alice", 12, 6);
    let before = ctx.clone();
    let receipt = deposit(&bank(), &mut ctx, b"alice".to_vec(), 500).unwrap();
    assert_eq!(ctx.bank_account.balance, 512);
    let event = settle(&mut ctx, receipt, false);
    assert_eq!(event, Err(ErrorCode::ExternalTransferFailed));
    assert_eq!(ctx, before);
}

#[test]
fn settle_undoes_a_withdrawal_that_the_custody_refused() {
    let mut ctx = exchange(b"bob", 200, 6);
    let before = ctx.clone();
    let receipt = withdraw(&bank(), &mut ctx, b"bob".to_vec(), 100).unwrap();
    assert_eq!(ctx.bank_account.balance, 100);
    let event = settle(&mut ctx, receipt, false);
    assert_eq!(event, Err(ErrorCode::ExternalTransferFailed));
    assert_eq!(ctx, before);
}

#[test]
fn alice_and_bob() {
    let bank = bank();
    let mut alice = CreateAccount { bank_account: BankAccount::default(), owner: owner() };
    create_account(&bank, &mut alice, b"alice".to_vec()).unwrap();
    assert_eq!(alice.bank_account.balance, 0);
    let mut bob = CreateAccount { bank_account: BankAccount::default(), owner: owner() };
    create_account(&bank, &mut bob, b"bob".to_vec()).unwrap();
    assert_eq!(bob.bank_account.balance, 0);

    let mut paying_in = exchange(b"", 0, 6);
    paying_in.bank_account = alice.bank_account;
    let receipt = deposit(&bank, &mut paying_in, b"alice".to_vec(), 500).unwrap();
    assert_eq!(paying_in.bank_account.balance, 500);
    assert_eq!(receipt.transfer.amount, (500 * 1_000_000) / 100);
    assert_eq!(receipt.transfer.amount, 5_000_000);
    assert_eq!(receipt.transfer.to, paying_in.vault);
    settle(&mut paying_in, receipt, true).unwrap();

    let mut moving = TransferBalance {
        f_bank_account: paying_in.bank_account,
        t_bank_account: bob.bank_account,
        owner: owner(),
    };
    transfer_balance(&bank, &mut moving, b"alice".to_vec(), b"bob".to_vec(), 200).unwrap();
    assert_eq!(moving.f_bank_account, account(b"alice", 300));
    assert_eq!(moving.t_bank_account, account(b"bob", 200));

    let mut paying_out = exchange(b"", 0, 6);
    paying_out.bank_account = moving.t_bank_account;
    let receipt = withdraw(&bank, &mut paying_out, b"bob".to_vec(), 100).unwrap();
    assert_eq!(paying_out.bank_account, account(b"bob", 100));
    assert_eq!(receipt.transfer.amount, 1_000_000);
    assert_eq!(receipt.transfer.from, paying_out.vault);
    assert_eq!(receipt.transfer.to, paying_out.wallet);
    assert_eq!(receipt.transfer.authority, paying_out.vault_authority.address);
    assert_eq!(receipt.transfer.signer_seeds[0], b"vault-authority".to_vec());
    assert_eq!(receipt.transfer.signer_seeds[1], bank.owner.to_vec());
    assert_eq!(receipt.transfer.signer_seeds[2], vec![paying_out.vault_authority.bump]);
    assert_eq!(
        settle(&mut paying_out, receipt, true),
        Ok(Event::Withdrawn { id: b"bob".to_vec(), amount: 100 })
    );
}
