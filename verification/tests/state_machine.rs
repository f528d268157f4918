use token_vault::addr::Address;
use token_vault::error::{ProcessError, VaultError};
use token_vault::processor::{AccountView, Processor, VaultConfig, VaultEffect, ADMIN_FEE_LAMPORTS};
use token_vault::state::{CreateVaultInput, SP20TokenData, TransactionInput, VaultData};

fn addr(b: u8) -> Address {
    Address { bytes: vec![b; 32] }
}

fn spl_addr() -> Address {
    Address { bytes: spl_token::id().to_bytes().to_vec() }
}

fn account(key: Address, lamports: u64, is_signer: bool, data: Vec<u8>) -> AccountView {
    AccountView { key, lamports, is_signer, data }
}

fn config() -> VaultConfig {
    VaultConfig { admin: addr(9), fee_lamports: ADMIN_FEE_LAMPORTS }
}

fn record(
    withdrawer: Address,
    token_address: Address,
    amount: u64,
    amount_withdrawn: u64,
    withdrawn: bool,
    unlock: i64,
    deposit: i64,
) -> VaultData {
    VaultData {
        withdrawer,
        deposite_time_stamp: deposit,
        unlock_time_stamp: unlock,
        withdrawn,
        deposited: false,
        token: SP20TokenData {
            depositor: addr(3),
            amount,
            token_address,
            black_listed: false,
            amount_withdrawn,
        },
    }
}

fn create_payload(amount: u64, unlock: i64, deposit: i64) -> CreateVaultInput {
    CreateVaultInput {
        token_address: spl_addr(),
        amount,
        withdrawer: addr(2),
        deposite_time_stamp: deposit,
        withdrawn: false,
        deposited: false,
        unlock_time_stamp: unlock,
    }
}

fn create_instruction(p: &CreateVaultInput) -> Vec<u8> {
    let mut buf = vec![1u8];
    buf.extend(p.encode());
    buf
}

fn withdraw_instruction(amount: u64) -> Vec<u8> {
    let mut buf = vec![2u8];
    buf.extend(TransactionInput { amount, token: spl_addr() }.encode());
    buf
}

// The escrow balance that makes the sizing formula hold exactly for the given
// creation parameters, before the admin fee is deducted.
fn sized_escrow_lamports(amount: u64, unlock: i64, deposit: i64, rent_min: u64) -> u64 {
    let product = amount.wrapping_mul(unlock.wrapping_sub(deposit) as u64);
    product.wrapping_add(rent_min).wrapping_add(ADMIN_FEE_LAMPORTS)
}

#[test]
fn create_succeeds_and_pays_fee() {
    // amount 1000, unlock T = 1000, deposit T + 500, balance sized exactly.
    let p = create_payload(1000, 1000, 1500);
    let lamports = sized_escrow_lamports(1000, 1000, 1500, 0);
    let accounts = vec![
        account(addr(7), lamports, false, vec![]),
        account(addr(3), 0, true, vec![]),
        account(addr(9), 5, false, vec![]),
    ];
    let r = Processor::process(&config(), &accounts, &create_instruction(&p), 1200, 0);
    match r {
        Ok(VaultEffect::Created { escrow_lamports, admin_lamports, transfer, record }) => {
            assert_eq!(escrow_lamports, lamports.wrapping_sub(ADMIN_FEE_LAMPORTS));
            assert_eq!(admin_lamports, 5 + ADMIN_FEE_LAMPORTS);
            assert_eq!(transfer.token, spl_addr());
            assert_eq!(transfer.source, addr(3));
            assert_eq!(transfer.destination, addr(7));
            assert_eq!(transfer.authority, addr(3));
            assert_eq!(transfer.amount, 1000);
            assert_eq!(record.token.amount, 1000);
            assert_eq!(record.token.amount_withdrawn, 0);
            assert_eq!(record.token.depositor, addr(3));
            assert_eq!(record.withdrawer, addr(2));
            assert!(!record.withdrawn);
            assert!(!record.token.black_listed);
        }
        other => panic!("unexpected result: {:?}", other),
    }
}

#[test]
fn create_rejects_unordered_timestamps() {
    // deposit marker not strictly after the unlock time
    let p = create_payload(1000, 1500, 1500);
    let accounts = vec![
        account(addr(7), 42, false, vec![]),
        account(addr(3), 0, true, vec![]),
        account(addr(9), 5, false, vec![]),
    ];
    let r = Processor::process(&config(), &accounts, &create_instruction(&p), 1200, 0);
    assert_eq!(r, Err(ProcessError::Vault(VaultError::InvalidTimeError)));
}

#[test]
fn create_rejects_past_deposit_marker() {
    let p = create_payload(1000, 1000, 1500);
    let accounts = vec![
        account(addr(7), 42, false, vec![]),
        account(addr(3), 0, true, vec![]),
        account(addr(9), 5, false, vec![]),
    ];
    // current ledger time is after the deposit marker
    let r = Processor::process(&config(), &accounts, &create_instruction(&p), 1501, 0);
    assert_eq!(r, Err(ProcessError::Vault(VaultError::InvalidTimeError)));
}

#[test]
fn create_rejects_wrong_admin_account() {
    let p = create_payload(1000, 1000, 1500);
    let accounts = vec![
        account(addr(7), 42, false, vec![]),
        account(addr(3), 0, true, vec![]),
        account(addr(8), 5, false, vec![]),
    ];
    let r = Processor::process(&config(), &accounts, &create_instruction(&p), 1200, 0);
    assert_eq!(r, Err(ProcessError::Vault(VaultError::AdminAccountInvalid)));
}

#[test]
fn create_rejects_mis_sized_balance() {
    let p = create_payload(1000, 1000, 1500);
    let lamports = sized_escrow_lamports(1000, 1000, 1500, 0).wrapping_add(1);
    let accounts = vec![
        account(addr(7), lamports, false, vec![]),
        account(addr(3), 0, true, vec![]),
        account(addr(9), 5, false, vec![]),
    ];
    let r = Processor::process(&config(), &accounts, &create_instruction(&p), 1200, 0);
    assert_eq!(r, Err(ProcessError::Vault(VaultError::NotEnoughLamports)));
}

#[test]
fn create_rejects_unsigned_sender() {
    let p = create_payload(1000, 1000, 1500);
    let lamports = sized_escrow_lamports(1000, 1000, 1500, 0);
    let accounts = vec![
        account(addr(7), lamports, false, vec![]),
        account(addr(3), 0, false, vec![]),
        account(addr(9), 5, false, vec![]),
    ];
    let r = Processor::process(&config(), &accounts, &create_instruction(&p), 1200, 0);
    assert_eq!(r, Err(ProcessError::MissingRequiredSignature));
}

#[test]
fn create_rejects_foreign_token_address() {
    let mut p = create_payload(1000, 1000, 1500);
    p.token_address = addr(8);
    let lamports = sized_escrow_lamports(1000, 1000, 1500, 0);
    let accounts = vec![
        account(addr(7), lamports, false, vec![]),
        account(addr(3), 0, true, vec![]),
        account(addr(9), 5, false, vec![]),
    ];
    let r = Processor::process(&config(), &accounts, &create_instruction(&p), 1200, 0);
    assert_eq!(r, Err(ProcessError::Vault(VaultError::InvalidSPL20Address)));
}

#[test]
fn create_rejects_missing_accounts() {
    let p = create_payload(1000, 1000, 1500);
    let accounts = vec![
        account(addr(7), 42, false, vec![]),
        account(addr(3), 0, true, vec![]),
    ];
    let r = Processor::process(&config(), &accounts, &create_instruction(&p), 1200, 0);
    assert_eq!(r, Err(ProcessError::NotEnoughAccountKeys));
}

#[test]
fn withdraw_after_unlock_releases_partial_amount() {
    // amount 400 at time T + 1, after unlock T = 1000
    let stored = record(addr(2), spl_addr(), 1000, 0, false, 1000, 1500);
    let accounts = vec![
        account(addr(7), 0, false, stored.encode()),
        account(addr(2), 0, true, vec![]),
    ];
    let r = Processor::process(&config(), &accounts, &withdraw_instruction(400), 1001, 0);
    match r {
        Ok(VaultEffect::Withdrawn { transfer, record }) => {
            // the transfer request releases the full remaining custody amount
            assert_eq!(transfer.amount, 1000);
            assert_eq!(transfer.token, spl_addr());
            assert_eq!(transfer.source, addr(7));
            assert_eq!(transfer.destination, addr(2));
            assert_eq!(record.token.amount, 600);
            assert_eq!(record.token.amount_withdrawn, 400);
            assert!(!record.withdrawn);
        }
        other => panic!("unexpected result: {:?}", other),
    }
}

#[test]
fn withdraw_beyond_remaining_margin_fails() {
    // After a withdraw of 400 from 1000, the margin amount - amount_withdrawn
    // is 200, so a withdraw of the remaining 600 is refused.
    let stored = record(addr(2), spl_addr(), 600, 400, false, 1000, 1500);
    let accounts = vec![
        account(addr(7), 0, false, stored.encode()),
        account(addr(2), 0, true, vec![]),
    ];
    let r = Processor::process(&config(), &accounts, &withdraw_instruction(600), 1001, 0);
    assert_eq!(r, Err(ProcessError::InsufficientFunds));
}

#[test]
fn withdraw_meeting_totals_becomes_terminal() {
    // Withdrawing 500 from a fresh 1000 makes amount and amount_withdrawn
    // meet at 500, so the vault becomes terminal.
    let stored = record(addr(2), spl_addr(), 1000, 0, false, 1000, 1500);
    let accounts = vec![
        account(addr(7), 0, false, stored.encode()),
        account(addr(2), 0, true, vec![]),
    ];
    let r = Processor::process(&config(), &accounts, &withdraw_instruction(500), 1001, 0);
    let after = match r {
        Ok(VaultEffect::Withdrawn { record, .. }) => record,
        other => panic!("unexpected result: {:?}", other),
    };
    assert_eq!(after.token.amount, 500);
    assert_eq!(after.token.amount_withdrawn, 500);
    assert!(after.withdrawn);

    // any further withdraw attempt fails with the withdraw error
    let accounts = vec![
        account(addr(7), 0, false, after.encode()),
        account(addr(2), 0, true, vec![]),
    ];
    let r = Processor::process(&config(), &accounts, &withdraw_instruction(1), 1001, 0);
    assert_eq!(r, Err(ProcessError::Vault(VaultError::WithdrawError)));
}

#[test]
fn withdraw_before_unlock_fails() {
    let stored = record(addr(2), spl_addr(), 1000, 0, false, 1000, 1500);
    let accounts = vec![
        account(addr(7), 0, false, stored.encode()),
        account(addr(2), 0, true, vec![]),
    ];
    let r = Processor::process(&config(), &accounts, &withdraw_instruction(400), 999, 0);
    assert_eq!(r, Err(ProcessError::Vault(VaultError::InvalidTimeError)));
}

#[test]
fn withdraw_by_foreign_sender_fails() {
    let stored = record(addr(2), spl_addr(), 1000, 0, false, 1000, 1500);
    let accounts = vec![
        account(addr(7), 0, false, stored.encode()),
        account(addr(4), 0, true, vec![]),
    ];
    let r = Processor::process(&config(), &accounts, &withdraw_instruction(400), 1001, 0);
    assert_eq!(r, Err(ProcessError::IllegalOwner));
}

#[test]
fn withdraw_without_signature_fails() {
    let stored = record(addr(2), spl_addr(), 1000, 0, false, 1000, 1500);
    let accounts = vec![
        account(addr(7), 0, false, stored.encode()),
        account(addr(2), 0, false, vec![]),
    ];
    let r = Processor::process(&config(), &accounts, &withdraw_instruction(400), 1001, 0);
    assert_eq!(r, Err(ProcessError::MissingRequiredSignature));
}

#[test]
fn withdraw_over_custody_amount_fails() {
    let stored = record(addr(2), spl_addr(), 1000, 0, false, 1000, 1500);
    let accounts = vec![
        account(addr(7), 0, false, stored.encode()),
        account(addr(2), 0, true, vec![]),
    ];
    let r = Processor::process(&config(), &accounts, &withdraw_instruction(1001), 1001, 0);
    assert_eq!(r, Err(ProcessError::Vault(VaultError::WithdrawError)));
}

#[test]
fn withdraw_with_foreign_record_token_fails() {
    // the record's own token address is not the token service's id, so the
    // transfer request is refused
    let stored = record(addr(2), addr(8), 1000, 0, false, 1000, 1500);
    let accounts = vec![
        account(addr(7), 0, false, stored.encode()),
        account(addr(2), 0, true, vec![]),
    ];
    let r = Processor::process(&config(), &accounts, &withdraw_instruction(400), 1001, 0);
    assert_eq!(r, Err(ProcessError::IncorrectProgramId));
}

#[test]
fn deposit_moves_new_total() {
    let stored = record(addr(2), spl_addr(), 100, 0, false, 1000, 1500);
    let accounts = vec![
        account(addr(7), 0, false, stored.encode()),
        account(addr(3), 0, true, vec![]),
    ];
    let mut buf = vec![3u8];
    buf.extend(TransactionInput { amount: 50, token: spl_addr() }.encode());
    let r = Processor::process(&config(), &accounts, &buf, 1001, 0);
    match r {
        Ok(VaultEffect::Deposited { transfer, record }) => {
            // the requested transfer moves the new total, not the increment
            assert_eq!(transfer.amount, 150);
            assert_eq!(record.token.amount, 150);
            assert_eq!(record.token.amount_withdrawn, 0);
        }
        other => panic!("unexpected result: {:?}", other),
    }
}

#[test]
fn deposit_without_signature_fails() {
    let stored = record(addr(2), spl_addr(), 100, 0, false, 1000, 1500);
    let accounts = vec![
        account(addr(7), 0, false, stored.encode()),
        account(addr(3), 0, false, vec![]),
    ];
    let mut buf = vec![3u8];
    buf.extend(TransactionInput { amount: 50, token: spl_addr() }.encode());
    let r = Processor::process(&config(), &accounts, &buf, 1001, 0);
    assert_eq!(r, Err(ProcessError::IllegalOwner));
}

#[test]
fn close_before_unlock_fails() {
    let stored = record(addr(2), spl_addr(), 600, 400, false, 1000, 1500);
    let accounts = vec![
        account(addr(7), 0, false, stored.encode()),
        account(addr(2), 0, true, vec![]),
    ];
    let r = Processor::process(&config(), &accounts, &[4u8], 999, 0);
    assert_eq!(r, Err(ProcessError::Vault(VaultError::InvalidTimeError)));
}

#[test]
fn close_after_unlock_releases_remaining_balance() {
    let stored = record(addr(2), spl_addr(), 600, 400, false, 1000, 1500);
    let accounts = vec![
        account(addr(7), 0, false, stored.encode()),
        account(addr(2), 0, true, vec![]),
    ];
    let r = Processor::process(&config(), &accounts, &[4u8], 1001, 0);
    match r {
        Ok(VaultEffect::Closed { transfer, record }) => {
            assert_eq!(transfer.amount, 600);
            assert_eq!(transfer.source, addr(7));
            assert_eq!(transfer.destination, addr(2));
            assert_eq!(record.token.amount, 0);
            assert_eq!(record.token.amount_withdrawn, 400);
        }
        other => panic!("unexpected result: {:?}", other),
    }
}

#[test]
fn close_by_foreign_sender_fails() {
    let stored = record(addr(2), spl_addr(), 600, 400, false, 1000, 1500);
    let accounts = vec![
        account(addr(7), 0, false, stored.encode()),
        account(addr(4), 0, true, vec![]),
    ];
    let r = Processor::process(&config(), &accounts, &[4u8], 1001, 0);
    assert_eq!(r, Err(ProcessError::IllegalOwner));
}

#[test]
fn process_rejects_unknown_instruction() {
    let accounts = vec![
        account(addr(7), 0, false, vec![]),
        account(addr(2), 0, true, vec![]),
    ];
    assert_eq!(
        Processor::process(&config(), &accounts, &[], 0, 0),
        Err(ProcessError::InvalidInstructionData)
    );
    assert_eq!(
        Processor::process(&config(), &accounts, &[9u8], 0, 0),
        Err(ProcessError::InvalidInstructionData)
    );
    assert_eq!(
        Processor::process(&config(), &accounts, &[1u8, 0, 0], 0, 0),
        Err(ProcessError::InvalidInstructionData)
    );
}
