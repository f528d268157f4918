//! The laws of the vault state machine, proved from the transition
//! specifications that the handlers' contracts are stated over. Round-trip
//! laws of the wire format live beside the codec.

use vstd::prelude::*;
use vstd::wrapping::u64_specs;

use crate::error::{ProcessError, VaultError};
use crate::processor::{
    spec_close, spec_create, spec_deposite, spec_sizing_product, spec_withdraw,
    spec_withdraw_record, AccountViewV, TransferRequestV, VaultConfigV, VaultEffectV,
};
use crate::spl::spec_token_program_id;
use crate::state::{spec_new_vault, CreateVaultInputV, TransactionInputV, VaultDataV};

verus! {

/// Creation succeeds on every valid input: the admin account is the
/// configured authority, the timestamps are ordered with the unlock time
/// strictly before the deposit marker and the deposit marker not in the past,
/// the sizing formula ties the custody amount exactly to the escrow balance
/// left after the fee and rent, the sender signed, the token address is the
/// token service's id, and the payload does not pre-set the terminal flag.
/// The persisted record then custodies exactly the input amount, nothing has
/// been withdrawn, the vault is not terminal, and the fee has moved from the
/// escrow balance to the admin balance.
pub proof fn lemma_create_locks_funds(
    config: VaultConfigV,
    escrow: AccountViewV,
    sender: AccountViewV,
    admin: AccountViewV,
    data: CreateVaultInputV,
    now: i64,
    rent_min: u64,
)
    requires
        admin.key == config.admin,
        data.unlock_time_stamp < data.deposite_time_stamp,
        now <= data.deposite_time_stamp,
        spec_sizing_product(data.amount, data.unlock_time_stamp, data.deposite_time_stamp)
            == u64_specs::wrapping_sub(
            u64_specs::wrapping_sub(escrow.lamports, config.fee_lamports),
            rent_min,
        ),
        sender.is_signer,
        data.token_address == spec_token_program_id(),
        !data.withdrawn,
    ensures
        spec_create(config, escrow, sender, admin, data, now, rent_min) == Ok::<
            VaultEffectV,
            ProcessError,
        >(
            VaultEffectV::Created {
                escrow_lamports: u64_specs::wrapping_sub(escrow.lamports, config.fee_lamports),
                admin_lamports: u64_specs::wrapping_add(admin.lamports, config.fee_lamports),
                transfer: TransferRequestV {
                    token: data.token_address,
                    source: sender.key,
                    destination: escrow.key,
                    authority: sender.key,
                    signer: sender.key,
                    amount: data.amount,
                },
                record: spec_new_vault(data, sender.key),
            },
        ),
        spec_new_vault(data, sender.key).token.amount == data.amount,
        spec_new_vault(data, sender.key).token.amount_withdrawn == 0,
        !spec_new_vault(data, sender.key).withdrawn,
{
}

/// Creation fails with the time error whenever the deposit marker does not
/// lie strictly after the unlock time, provided the admin account check
/// before it passes.
pub proof fn lemma_create_rejects_unordered_times(
    config: VaultConfigV,
    escrow: AccountViewV,
    sender: AccountViewV,
    admin: AccountViewV,
    data: CreateVaultInputV,
    now: i64,
    rent_min: u64,
)
    requires
        admin.key == config.admin,
        data.deposite_time_stamp <= data.unlock_time_stamp,
    ensures
        spec_create(config, escrow, sender, admin, data, now, rent_min) == Err::<
            VaultEffectV,
            ProcessError,
        >(ProcessError::Vault(VaultError::InvalidTimeError)),
{
}

/// A withdraw before the unlock time fails with the time error, for every
/// attempt that passes the ownership, signature and balance checks ahead of
/// it. A failed operation persists nothing, so the stored record is
/// unchanged.
pub proof fn lemma_withdraw_rejects_before_unlock(
    escrow: AccountViewV,
    sender: AccountViewV,
    record: VaultDataV,
    data: TransactionInputV,
    now: i64,
)
    requires
        sender.key == record.withdrawer,
        sender.is_signer,
        !record.withdrawn,
        data.amount <= record.token.amount,
        now < record.unlock_time_stamp,
    ensures
        spec_withdraw(escrow, sender, record, data, now) == Err::<VaultEffectV, ProcessError>(
            ProcessError::Vault(VaultError::InvalidTimeError),
        ),
{
}

/// A withdraw by any sender other than the designated withdrawer fails with
/// the ownership error, whatever else the attempt looks like. A failed
/// operation persists nothing, so the stored record is unchanged.
pub proof fn lemma_withdraw_rejects_foreign_sender(
    escrow: AccountViewV,
    sender: AccountViewV,
    record: VaultDataV,
    data: TransactionInputV,
    now: i64,
)
    requires
        sender.key != record.withdrawer,
    ensures
        spec_withdraw(escrow, sender, record, data, now) == Err::<VaultEffectV, ProcessError>(
            ProcessError::IllegalOwner,
        ),
{
}

/// A successful withdraw leaves the vault terminal exactly when the custody
/// amount and the cumulative withdrawn amount meet.
pub proof fn lemma_withdraw_terminal_exactly_when_met(record: VaultDataV, amount: u64)
    ensures
        spec_withdraw_record(record, amount).withdrawn == (spec_withdraw_record(
            record,
            amount,
        ).token.amount == spec_withdraw_record(record, amount).token.amount_withdrawn),
{
}

/// The terminal state is stable: once a record is terminal, every withdraw
/// attempt fails — with the withdraw error when the designated withdrawer
/// signed it — and the operations that do produce a record (deposit, close)
/// keep the flag set.
pub proof fn lemma_terminal_state_is_stable(
    escrow: AccountViewV,
    sender: AccountViewV,
    record: VaultDataV,
    data: TransactionInputV,
    now: i64,
)
    requires
        record.withdrawn,
    ensures
        spec_withdraw(escrow, sender, record, data, now) is Err,
        sender.key == record.withdrawer && sender.is_signer ==> spec_withdraw(
            escrow,
            sender,
            record,
            data,
            now,
        ) == Err::<VaultEffectV, ProcessError>(ProcessError::Vault(VaultError::WithdrawError)),
        spec_deposite(escrow, sender, record, data) matches Ok(
            VaultEffectV::Deposited { record: nr, .. },
        ) ==> nr.withdrawn,
        spec_close(escrow, sender, record, now) matches Ok(
            VaultEffectV::Closed { record: nr, .. },
        ) ==> nr.withdrawn,
{
}

} // verus!
