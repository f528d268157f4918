//! The vault state machine: the four operation handlers. Each handler is a
//! pure state transition: it takes the accounts as the host supplies them for
//! one invocation (address, native balance, signer flag, storage bytes)
//! together with the ledger clock and rent figures, and returns either the
//! full effect of the operation or the failure that aborts it. The host
//! applies the effect: it sets the balances, persists the record, and submits
//! the transfer request to the token service.
//!
//! Balance arithmetic wraps modulo 2^64, matching the unchecked arithmetic of
//! the deployed handler; the contracts state the wrapped values exactly.

use vstd::prelude::*;
use vstd::slice::*;
use vstd::wrapping::{i64_specs, u64_specs};

use crate::addr::{addr_eq, Address};
use crate::codec::spec_decode_vault;
use crate::error::{ProcessError, VaultError};
use crate::instruction::{spec_unpack, VaultInstructions, VaultInstructionsV};
use crate::spl::{check_token_program_address, request_transfer, spec_token_program_id};
use crate::state::{
    spec_new_vault, CreateVaultInput, SP20TokenData, SP20TokenDataV, TransactionInput, VaultData,
    VaultDataV,
};

verus! {

/// The flat native-currency fee a creation pays to the admin account.
pub const ADMIN_FEE_LAMPORTS: u64 = 10000000;

/// Spec value of a `VaultConfig`.
pub ghost struct VaultConfigV {
    pub admin: Seq<u8>,
    pub fee_lamports: u64,
}

/// Configuration injected by the embedding program: the authority address
/// that every creation must name, and the flat native-currency fee it
/// collects.
pub struct VaultConfig {
    pub admin: Address,
    pub fee_lamports: u64,
}

impl View for VaultConfig {
    type V = VaultConfigV;

    open spec fn view(&self) -> VaultConfigV {
        VaultConfigV { admin: self.admin@, fee_lamports: self.fee_lamports }
    }
}

impl VaultConfig {
    pub open spec fn wf(&self) -> bool {
        self.admin.wf()
    }
}

/// Spec value of an `AccountView`.
pub ghost struct AccountViewV {
    pub key: Seq<u8>,
    pub lamports: u64,
    pub is_signer: bool,
    pub data: Seq<u8>,
}

/// What the vault sees of one host-ledger account for one invocation: its
/// address, its native balance, whether its key signed the request, and its
/// raw storage bytes.
#[derive(Debug, Clone, PartialEq)]
pub struct AccountView {
    pub key: Address,
    pub lamports: u64,
    pub is_signer: bool,
    pub data: Vec<u8>,
}

impl View for AccountView {
    type V = AccountViewV;

    open spec fn view(&self) -> AccountViewV {
        AccountViewV {
            key: self.key@,
            lamports: self.lamports,
            is_signer: self.is_signer,
            data: self.data@,
        }
    }
}

impl AccountView {
    pub open spec fn wf(&self) -> bool {
        self.key.wf()
    }
}

/// Spec value of a `TransferRequest`.
pub ghost struct TransferRequestV {
    pub token: Seq<u8>,
    pub source: Seq<u8>,
    pub destination: Seq<u8>,
    pub authority: Seq<u8>,
    pub signer: Seq<u8>,
    pub amount: u64,
}

/// A balance movement for the host to request from the token service on this
/// invocation's behalf.
#[derive(Debug, Clone, PartialEq)]
pub struct TransferRequest {
    pub token: Address,
    pub source: Address,
    pub destination: Address,
    pub authority: Address,
    pub signer: Address,
    pub amount: u64,
}

impl View for TransferRequest {
    type V = TransferRequestV;

    open spec fn view(&self) -> TransferRequestV {
        TransferRequestV {
            token: self.token@,
            source: self.source@,
            destination: self.destination@,
            authority: self.authority@,
            signer: self.signer@,
            amount: self.amount,
        }
    }
}

impl TransferRequest {
    pub open spec fn wf(&self) -> bool {
        self.token.wf() && self.source.wf() && self.destination.wf() && self.authority.wf()
            && self.signer.wf()
    }
}

/// Spec value of a `VaultEffect`.
pub ghost enum VaultEffectV {
    Created {
        escrow_lamports: u64,
        admin_lamports: u64,
        transfer: TransferRequestV,
        record: VaultDataV,
    },
    Withdrawn { transfer: TransferRequestV, record: VaultDataV },
    Deposited { transfer: TransferRequestV, record: VaultDataV },
    Closed { transfer: TransferRequestV, record: VaultDataV },
}

/// The effect of a successful operation, for the host to apply.
///
/// For `Created`, `Withdrawn` and `Deposited` the record is persisted: the
/// host writes its encoding into the escrow account's storage, and for
/// `Created` it also sets the two native balances. For `Closed` the cleared
/// record is computed but not persisted; the escrow storage keeps its prior
/// bytes, and the record is returned for inspection only.
#[derive(Debug, Clone, PartialEq)]
pub enum VaultEffect {
    Created {
        escrow_lamports: u64,
        admin_lamports: u64,
        transfer: TransferRequest,
        record: VaultData,
    },
    Withdrawn { transfer: TransferRequest, record: VaultData },
    Deposited { transfer: TransferRequest, record: VaultData },
    Closed { transfer: TransferRequest, record: VaultData },
}

impl View for VaultEffect {
    type V = VaultEffectV;

    open spec fn view(&self) -> VaultEffectV {
        match self {
            VaultEffect::Created { escrow_lamports, admin_lamports, transfer, record } => {
                VaultEffectV::Created {
                    escrow_lamports: *escrow_lamports,
                    admin_lamports: *admin_lamports,
                    transfer: transfer@,
                    record: record@,
                }
            },
            VaultEffect::Withdrawn { transfer, record } => {
                VaultEffectV::Withdrawn { transfer: transfer@, record: record@ }
            },
            VaultEffect::Deposited { transfer, record } => {
                VaultEffectV::Deposited { transfer: transfer@, record: record@ }
            },
            VaultEffect::Closed { transfer, record } => {
                VaultEffectV::Closed { transfer: transfer@, record: record@ }
            },
        }
    }
}

impl VaultEffect {
    pub open spec fn wf(&self) -> bool {
        match self {
            VaultEffect::Created { transfer, record, .. } => transfer.wf() && record.wf(),
            VaultEffect::Withdrawn { transfer, record } => transfer.wf() && record.wf(),
            VaultEffect::Deposited { transfer, record } => transfer.wf() && record.wf(),
            VaultEffect::Closed { transfer, record } => transfer.wf() && record.wf(),
        }
    }
}

/// The view of a handler's result.
pub open spec fn view_process(r: Result<VaultEffect, ProcessError>) -> Result<
    VaultEffectV,
    ProcessError,
> {
    match r {
        Ok(e) => Ok(e@),
        Err(x) => Err(x),
    }
}

// ---------------------------------------------------------------------------
// The transitions, as spec functions
// ---------------------------------------------------------------------------

/// The sizing formula of creation: the custody amount times the signed gap
/// from the deposit marker to the unlock time, both taken as unsigned 64-bit
/// values with wrapping.
pub open spec fn spec_sizing_product(amount: u64, unlock: i64, deposit: i64) -> u64 {
    u64_specs::wrapping_mul(amount, i64_specs::wrapping_sub(unlock, deposit) as u64)
}

/// What creating a vault does, given the three accounts in order: escrow,
/// sender, admin.
pub open spec fn spec_create(
    config: VaultConfigV,
    escrow: AccountViewV,
    sender: AccountViewV,
    admin: AccountViewV,
    data: crate::state::CreateVaultInputV,
    now: i64,
    rent_min: u64,
) -> Result<VaultEffectV, ProcessError> {
    if admin.key != config.admin {
        Err(ProcessError::Vault(VaultError::AdminAccountInvalid))
    } else {
        // The fee moves before any further validation, so the sizing check
        // below reads the escrow balance with the fee already deducted.
        let escrow_lamports = u64_specs::wrapping_sub(escrow.lamports, config.fee_lamports);
        let admin_lamports = u64_specs::wrapping_add(admin.lamports, config.fee_lamports);
        if data.deposite_time_stamp <= data.unlock_time_stamp || data.deposite_time_stamp < now {
            Err(ProcessError::Vault(VaultError::InvalidTimeError))
        } else if spec_sizing_product(data.amount, data.unlock_time_stamp, data.deposite_time_stamp)
            != u64_specs::wrapping_sub(escrow_lamports, rent_min) {
            Err(ProcessError::Vault(VaultError::NotEnoughLamports))
        } else if !sender.is_signer {
            Err(ProcessError::MissingRequiredSignature)
        } else if data.token_address != spec_token_program_id() {
            Err(ProcessError::Vault(VaultError::InvalidSPL20Address))
        } else {
            Ok(
                VaultEffectV::Created {
                    escrow_lamports,
                    admin_lamports,
                    transfer: TransferRequestV {
                        token: data.token_address,
                        source: sender.key,
                        destination: escrow.key,
                        authority: sender.key,
                        signer: sender.key,
                        amount: data.amount,
                    },
                    record: spec_new_vault(data, sender.key),
                },
            )
        }
    }
}

/// The record after releasing `amount`: the custody amount decreases by it,
/// the cumulative released amount increases by it, and the vault becomes
/// terminal when the two meet.
pub open spec fn spec_withdraw_record(record: VaultDataV, amount: u64) -> VaultDataV {
    let new_amount = (record.token.amount - amount) as u64;
    let new_withdrawn = u64_specs::wrapping_add(record.token.amount_withdrawn, amount);
    VaultDataV {
        withdrawer: record.withdrawer,
        deposite_time_stamp: record.deposite_time_stamp,
        unlock_time_stamp: record.unlock_time_stamp,
        withdrawn: new_amount == new_withdrawn,
        deposited: record.deposited,
        token: SP20TokenDataV {
            depositor: record.token.depositor,
            amount: new_amount,
            token_address: record.token.token_address,
            black_listed: record.token.black_listed,
            amount_withdrawn: new_withdrawn,
        },
    }
}

/// What withdrawing does, given the two accounts in order (escrow, sender)
/// and the record decoded from the escrow storage. The requested transfer
/// releases the full remaining custody amount, not the requested amount.
pub open spec fn spec_withdraw(
    escrow: AccountViewV,
    sender: AccountViewV,
    record: VaultDataV,
    data: crate::state::TransactionInputV,
    now: i64,
) -> Result<VaultEffectV, ProcessError> {
    if sender.key != record.withdrawer {
        Err(ProcessError::IllegalOwner)
    } else if !sender.is_signer {
        Err(ProcessError::MissingRequiredSignature)
    } else if record.withdrawn {
        Err(ProcessError::Vault(VaultError::WithdrawError))
    } else if data.amount > record.token.amount {
        Err(ProcessError::Vault(VaultError::WithdrawError))
    } else if now < record.unlock_time_stamp {
        Err(ProcessError::Vault(VaultError::InvalidTimeError))
    } else if data.amount > u64_specs::wrapping_sub(
        record.token.amount,
        record.token.amount_withdrawn,
    ) {
        Err(ProcessError::InsufficientFunds)
    } else if record.token.token_address != spec_token_program_id() {
        Err(ProcessError::IncorrectProgramId)
    } else {
        Ok(
            VaultEffectV::Withdrawn {
                transfer: TransferRequestV {
                    token: record.token.token_address,
                    source: escrow.key,
                    destination: sender.key,
                    authority: escrow.key,
                    signer: sender.key,
                    amount: record.token.amount,
                },
                record: spec_withdraw_record(record, data.amount),
            },
        )
    }
}

/// What depositing does: the custody amount grows by the deposited amount,
/// and the requested transfer moves the new total, not the increment.
pub open spec fn spec_deposite(
    escrow: AccountViewV,
    sender: AccountViewV,
    record: VaultDataV,
    data: crate::state::TransactionInputV,
) -> Result<VaultEffectV, ProcessError> {
    if !sender.is_signer {
        Err(ProcessError::IllegalOwner)
    } else {
        let new_amount = u64_specs::wrapping_add(record.token.amount, data.amount);
        if data.token != spec_token_program_id() {
            Err(ProcessError::IncorrectProgramId)
        } else {
            Ok(
                VaultEffectV::Deposited {
                    transfer: TransferRequestV {
                        token: data.token,
                        source: sender.key,
                        destination: escrow.key,
                        authority: sender.key,
                        signer: sender.key,
                        amount: new_amount,
                    },
                    record: VaultDataV {
                        withdrawer: record.withdrawer,
                        deposite_time_stamp: record.deposite_time_stamp,
                        unlock_time_stamp: record.unlock_time_stamp,
                        withdrawn: record.withdrawn,
                        deposited: record.deposited,
                        token: SP20TokenDataV {
                            depositor: record.token.depositor,
                            amount: new_amount,
                            token_address: record.token.token_address,
                            black_listed: record.token.black_listed,
                            amount_withdrawn: record.token.amount_withdrawn,
                        },
                    },
                },
            )
        }
    }
}

/// What closing does: the whole remaining custody amount is requested from
/// the token service and the local amount field is cleared. The cleared
/// record is not persisted.
pub open spec fn spec_close(
    escrow: AccountViewV,
    sender: AccountViewV,
    record: VaultDataV,
    now: i64,
) -> Result<VaultEffectV, ProcessError> {
    if record.withdrawer != sender.key {
        Err(ProcessError::IllegalOwner)
    } else if !sender.is_signer {
        Err(ProcessError::MissingRequiredSignature)
    } else if now < record.unlock_time_stamp {
        Err(ProcessError::Vault(VaultError::InvalidTimeError))
    } else if record.token.token_address != spec_token_program_id() {
        Err(ProcessError::IncorrectProgramId)
    } else {
        Ok(
            VaultEffectV::Closed {
                transfer: TransferRequestV {
                    token: record.token.token_address,
                    source: escrow.key,
                    destination: sender.key,
                    authority: escrow.key,
                    signer: sender.key,
                    amount: record.token.amount,
                },
                record: VaultDataV {
                    withdrawer: record.withdrawer,
                    deposite_time_stamp: record.deposite_time_stamp,
                    unlock_time_stamp: record.unlock_time_stamp,
                    withdrawn: record.withdrawn,
                    deposited: record.deposited,
                    token: SP20TokenDataV {
                        depositor: record.token.depositor,
                        amount: 0,
                        token_address: record.token.token_address,
                        black_listed: record.token.black_listed,
                        amount_withdrawn: record.token.amount_withdrawn,
                    },
                },
            },
        )
    }
}

/// The record the escrow storage holds, where it decodes.
pub open spec fn decoded_vault(s: Seq<u8>) -> VaultDataV
    recommends
        spec_decode_vault(s) is Some,
{
    spec_decode_vault(s)->Some_0
}

/// What processing an instruction buffer does, dispatching on the decoded
/// operation.
pub open spec fn spec_process(
    config: VaultConfigV,
    accounts: Seq<AccountView>,
    instruction_data: Seq<u8>,
    now: i64,
    rent_min: u64,
) -> Result<VaultEffectV, ProcessError> {
    match spec_unpack(instruction_data) {
        Err(e) => Err(e),
        Ok(inst) => match inst {
            VaultInstructionsV::CreateVault(p) => {
                if accounts.len() < 3 {
                    Err(ProcessError::NotEnoughAccountKeys)
                } else {
                    spec_create(config, accounts[0]@, accounts[1]@, accounts[2]@, p, now, rent_min)
                }
            },
            VaultInstructionsV::WithdrawFromVault(p) => {
                if accounts.len() < 2 {
                    Err(ProcessError::NotEnoughAccountKeys)
                } else {
                    spec_withdraw(
                        accounts[0]@,
                        accounts[1]@,
                        decoded_vault(accounts[0]@.data),
                        p,
                        now,
                    )
                }
            },
            VaultInstructionsV::DepositeToVault(p) => {
                if accounts.len() < 2 {
                    Err(ProcessError::NotEnoughAccountKeys)
                } else {
                    spec_deposite(accounts[0]@, accounts[1]@, decoded_vault(accounts[0]@.data), p)
                }
            },
            VaultInstructionsV::CloseVault => {
                if accounts.len() < 2 {
                    Err(ProcessError::NotEnoughAccountKeys)
                } else {
                    spec_close(accounts[0]@, accounts[1]@, decoded_vault(accounts[0]@.data), now)
                }
            },
        },
    }
}

/// Whether the escrow storage must hold a decodable record for this
/// instruction buffer: withdraw, deposit and close read the persisted record
/// and treat a buffer that fails to decode as fatal.
pub open spec fn spec_record_required(
    accounts: Seq<AccountView>,
    instruction_data: Seq<u8>,
) -> bool {
    match spec_unpack(instruction_data) {
        Ok(VaultInstructionsV::WithdrawFromVault(_)) => accounts.len() >= 2 ==> spec_decode_vault(
            accounts[0]@.data,
        ) is Some,
        Ok(VaultInstructionsV::DepositeToVault(_)) => accounts.len() >= 2 ==> spec_decode_vault(
            accounts[0]@.data,
        ) is Some,
        Ok(VaultInstructionsV::CloseVault) => accounts.len() >= 2 ==> spec_decode_vault(
            accounts[0]@.data,
        ) is Some,
        _ => true,
    }
}

// ---------------------------------------------------------------------------
// The handlers
// ---------------------------------------------------------------------------

/// The vault program's state-transition handler.
pub struct Processor;

impl Processor {
    /// Dispatches an instruction buffer to the operation it selects.
    ///
    /// The escrow storage of a withdraw, deposit or close must hold a
    /// decodable record: the handlers treat corrupt storage as fatal, so the
    /// embedding program checks it (`VaultData::decode`) before calling.
    pub fn process(
        config: &VaultConfig,
        accounts: &[AccountView],
        instruction_data: &[u8],
        now: i64,
        rent_min: u64,
    ) -> (r: Result<VaultEffect, ProcessError>)
        requires
            config.wf(),
            forall|i: int| 0 <= i < accounts@.len() ==> (#[trigger] accounts@[i]).wf(),
            spec_record_required(accounts@, instruction_data@),
        ensures
            view_process(r) == spec_process(config@, accounts@, instruction_data@, now, rent_min),
            r matches Ok(e) ==> e.wf(),
    {
        let inst = match VaultInstructions::unpack(instruction_data) {
            Ok(i) => i,
            Err(e) => {
                return Err(e);
            },
        };
        match inst {
            VaultInstructions::CreateVault(p) => {
                Self::process_create_vault(config, accounts, p, now, rent_min)
            },
            VaultInstructions::WithdrawFromVault(p) => {
                Self::process_withdraw_from_vault(accounts, p, now)
            },
            VaultInstructions::DepositeToVault(p) => {
                Self::process_deposite_to_vault(accounts, p)
            },
            VaultInstructions::CloseVault => Self::process_close_vault(accounts, now),
        }
    }

    /// Creates a vault. Accounts in order: escrow (to be initialized), sender
    /// (must sign), admin (must be the configured authority).
    pub fn process_create_vault(
        config: &VaultConfig,
        accounts: &[AccountView],
        data: CreateVaultInput,
        now: i64,
        rent_min: u64,
    ) -> (r: Result<VaultEffect, ProcessError>)
        requires
            config.wf(),
            forall|i: int| 0 <= i < accounts@.len() ==> (#[trigger] accounts@[i]).wf(),
            data.wf(),
        ensures
            accounts@.len() < 3 ==> r == Err::<VaultEffect, ProcessError>(
                ProcessError::NotEnoughAccountKeys,
            ),
            accounts@.len() >= 3 ==> view_process(r) == spec_create(
                config@,
                accounts@[0]@,
                accounts@[1]@,
                accounts@[2]@,
                data@,
                now,
                rent_min,
            ),
            r matches Ok(e) ==> e.wf(),
    {
        if accounts.len() < 3 {
            return Err(ProcessError::NotEnoughAccountKeys);
        }
        let escrow = slice_index_get(accounts, 0);
        let sender = slice_index_get(accounts, 1);
        let admin = slice_index_get(accounts, 2);
        if !addr_eq(&admin.key, &config.admin) {
            return Err(ProcessError::Vault(VaultError::AdminAccountInvalid));
        }
        let escrow_lamports = escrow.lamports.wrapping_sub(config.fee_lamports);
        let admin_lamports = admin.lamports.wrapping_add(config.fee_lamports);
        if data.deposite_time_stamp <= data.unlock_time_stamp || data.deposite_time_stamp < now {
            return Err(ProcessError::Vault(VaultError::InvalidTimeError));
        }
        let span = data.unlock_time_stamp.wrapping_sub(data.deposite_time_stamp);
        let product = data.amount.wrapping_mul(#[verifier::truncate] (span as u64));
        if product != escrow_lamports.wrapping_sub(rent_min) {
            return Err(ProcessError::Vault(VaultError::NotEnoughLamports));
        }
        if !sender.is_signer {
            return Err(ProcessError::MissingRequiredSignature);
        }
        if !check_token_program_address(&data.token_address) {
            return Err(ProcessError::Vault(VaultError::InvalidSPL20Address));
        }
        if !request_transfer(
            &data.token_address,
            &sender.key,
            &escrow.key,
            &sender.key,
            &sender.key,
            data.amount,
        ) {
            return Err(ProcessError::IncorrectProgramId);
        }
        let transfer = TransferRequest {
            token: data.token_address.dup(),
            source: sender.key.dup(),
            destination: escrow.key.dup(),
            authority: sender.key.dup(),
            signer: sender.key.dup(),
            amount: data.amount,
        };
        let record = VaultData::new(data, sender.key.dup());
        Ok(VaultEffect::Created { escrow_lamports, admin_lamports, transfer, record })
    }

    /// Withdraws part of the custody balance. Accounts in order: escrow,
    /// sender (must be the designated withdrawer and sign).
    pub fn process_withdraw_from_vault(
        accounts: &[AccountView],
        data: TransactionInput,
        now: i64,
    ) -> (r: Result<VaultEffect, ProcessError>)
        requires
            forall|i: int| 0 <= i < accounts@.len() ==> (#[trigger] accounts@[i]).wf(),
            data.wf(),
            accounts@.len() >= 2 ==> spec_decode_vault(accounts@[0]@.data) is Some,
        ensures
            accounts@.len() < 2 ==> r == Err::<VaultEffect, ProcessError>(
                ProcessError::NotEnoughAccountKeys,
            ),
            accounts@.len() >= 2 ==> view_process(r) == spec_withdraw(
                accounts@[0]@,
                accounts@[1]@,
                decoded_vault(accounts@[0]@.data),
                data@,
                now,
            ),
            r matches Ok(e) ==> e.wf(),
    {
        if accounts.len() < 2 {
            return Err(ProcessError::NotEnoughAccountKeys);
        }
        let escrow = slice_index_get(accounts, 0);
        let sender = slice_index_get(accounts, 1);
        let record = VaultData::decode(escrow.data.as_slice()).unwrap();
        if !addr_eq(&sender.key, &record.withdrawer) {
            return Err(ProcessError::IllegalOwner);
        }
        if !sender.is_signer {
            return Err(ProcessError::MissingRequiredSignature);
        }
        if record.withdrawn {
            return Err(ProcessError::Vault(VaultError::WithdrawError));
        }
        if data.amount > record.token.amount {
            return Err(ProcessError::Vault(VaultError::WithdrawError));
        }
        if now < record.unlock_time_stamp {
            return Err(ProcessError::Vault(VaultError::InvalidTimeError));
        }
        if data.amount > record.token.amount.wrapping_sub(record.token.amount_withdrawn) {
            return Err(ProcessError::InsufficientFunds);
        }
        if !request_transfer(
            &record.token.token_address,
            &escrow.key,
            &sender.key,
            &escrow.key,
            &sender.key,
            record.token.amount,
        ) {
            return Err(ProcessError::IncorrectProgramId);
        }
        let transfer = TransferRequest {
            token: record.token.token_address.dup(),
            source: escrow.key.dup(),
            destination: sender.key.dup(),
            authority: escrow.key.dup(),
            signer: sender.key.dup(),
            amount: record.token.amount,
        };
        let new_amount = record.token.amount - data.amount;
        let new_withdrawn = record.token.amount_withdrawn.wrapping_add(data.amount);
        let new_record = VaultData {
            withdrawer: record.withdrawer,
            deposite_time_stamp: record.deposite_time_stamp,
            unlock_time_stamp: record.unlock_time_stamp,
            withdrawn: new_amount == new_withdrawn,
            deposited: record.deposited,
            token: SP20TokenData {
                depositor: record.token.depositor,
                amount: new_amount,
                token_address: record.token.token_address,
                black_listed: record.token.black_listed,
                amount_withdrawn: new_withdrawn,
            },
        };
        Ok(VaultEffect::Withdrawn { transfer, record: new_record })
    }

    /// Deposits further funds. Accounts in order: escrow, sender (must sign).
    pub fn process_deposite_to_vault(accounts: &[AccountView], data: TransactionInput) -> (r:
        Result<VaultEffect, ProcessError>)
        requires
            forall|i: int| 0 <= i < accounts@.len() ==> (#[trigger] accounts@[i]).wf(),
            data.wf(),
            accounts@.len() >= 2 ==> spec_decode_vault(accounts@[0]@.data) is Some,
        ensures
            accounts@.len() < 2 ==> r == Err::<VaultEffect, ProcessError>(
                ProcessError::NotEnoughAccountKeys,
            ),
            accounts@.len() >= 2 ==> view_process(r) == spec_deposite(
                accounts@[0]@,
                accounts@[1]@,
                decoded_vault(accounts@[0]@.data),
                data@,
            ),
            r matches Ok(e) ==> e.wf(),
    {
        if accounts.len() < 2 {
            return Err(ProcessError::NotEnoughAccountKeys);
        }
        let escrow = slice_index_get(accounts, 0);
        let sender = slice_index_get(accounts, 1);
        let record = VaultData::decode(escrow.data.as_slice()).unwrap();
        if !sender.is_signer {
            return Err(ProcessError::IllegalOwner);
        }
        let new_amount = record.token.amount.wrapping_add(data.amount);
        if !request_transfer(
            &data.token,
            &sender.key,
            &escrow.key,
            &sender.key,
            &sender.key,
            new_amount,
        ) {
            return Err(ProcessError::IncorrectProgramId);
        }
        let transfer = TransferRequest {
            token: data.token.dup(),
            source: sender.key.dup(),
            destination: escrow.key.dup(),
            authority: sender.key.dup(),
            signer: sender.key.dup(),
            amount: new_amount,
        };
        let new_record = VaultData {
            withdrawer: record.withdrawer,
            deposite_time_stamp: record.deposite_time_stamp,
            unlock_time_stamp: record.unlock_time_stamp,
            withdrawn: record.withdrawn,
            deposited: record.deposited,
            token: SP20TokenData {
                depositor: record.token.depositor,
                amount: new_amount,
                token_address: record.token.token_address,
                black_listed: record.token.black_listed,
                amount_withdrawn: record.token.amount_withdrawn,
            },
        };
        Ok(VaultEffect::Deposited { transfer, record: new_record })
    }

    /// Closes the vault. Accounts in order: escrow, sender (must be the
    /// designated withdrawer and sign).
    pub fn process_close_vault(accounts: &[AccountView], now: i64) -> (r: Result<
        VaultEffect,
        ProcessError,
    >)
        requires
            forall|i: int| 0 <= i < accounts@.len() ==> (#[trigger] accounts@[i]).wf(),
            accounts@.len() >= 2 ==> spec_decode_vault(accounts@[0]@.data) is Some,
        ensures
            accounts@.len() < 2 ==> r == Err::<VaultEffect, ProcessError>(
                ProcessError::NotEnoughAccountKeys,
            ),
            accounts@.len() >= 2 ==> view_process(r) == spec_close(
                accounts@[0]@,
                accounts@[1]@,
                decoded_vault(accounts@[0]@.data),
                now,
            ),
            r matches Ok(e) ==> e.wf(),
    {
        if accounts.len() < 2 {
            return Err(ProcessError::NotEnoughAccountKeys);
        }
        let escrow = slice_index_get(accounts, 0);
        let sender = slice_index_get(accounts, 1);
        let record = VaultData::decode(escrow.data.as_slice()).unwrap();
        if !addr_eq(&record.withdrawer, &sender.key) {
            return Err(ProcessError::IllegalOwner);
        }
        if !sender.is_signer {
            return Err(ProcessError::MissingRequiredSignature);
        }
        if now < record.unlock_time_stamp {
            return Err(ProcessError::Vault(VaultError::InvalidTimeError));
        }
        if !request_transfer(
            &record.token.token_address,
            &escrow.key,
            &sender.key,
            &escrow.key,
            &sender.key,
            record.token.amount,
        ) {
            return Err(ProcessError::IncorrectProgramId);
        }
        let transfer = TransferRequest {
            token: record.token.token_address.dup(),
            source: escrow.key.dup(),
            destination: sender.key.dup(),
            authority: escrow.key.dup(),
            signer: sender.key.dup(),
            amount: record.token.amount,
        };
        let new_record = VaultData {
            withdrawer: record.withdrawer,
            deposite_time_stamp: record.deposite_time_stamp,
            unlock_time_stamp: record.unlock_time_stamp,
            withdrawn: record.withdrawn,
            deposited: record.deposited,
            token: SP20TokenData {
                depositor: record.token.depositor,
                amount: 0,
                token_address: record.token.token_address,
                black_listed: record.token.black_listed,
                amount_withdrawn: record.token.amount_withdrawn,
            },
        };
        Ok(VaultEffect::Closed { transfer, record: new_record })
    }
}

} // verus!
