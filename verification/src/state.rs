//! The persisted vault record and the transient instruction payloads.

use vstd::prelude::*;

use crate::addr::Address;

verus! {

// ---------------------------------------------------------------------------
// Spec-level mirrors: the mathematical values of the data model, with
// addresses as byte sequences. Contracts and transition specs speak of these.
// ---------------------------------------------------------------------------

/// Spec value of a `CreateVaultInput`.
pub ghost struct CreateVaultInputV {
    pub token_address: Seq<u8>,
    pub amount: u64,
    pub withdrawer: Seq<u8>,
    pub deposite_time_stamp: i64,
    pub withdrawn: bool,
    pub deposited: bool,
    pub unlock_time_stamp: i64,
}

/// Spec value of an `SP20TokenData`.
pub ghost struct SP20TokenDataV {
    pub depositor: Seq<u8>,
    pub amount: u64,
    pub token_address: Seq<u8>,
    pub black_listed: bool,
    pub amount_withdrawn: u64,
}

/// Spec value of a `TransactionInput`.
pub ghost struct TransactionInputV {
    pub amount: u64,
    pub token: Seq<u8>,
}

/// Spec value of a `VaultData` record.
pub ghost struct VaultDataV {
    pub withdrawer: Seq<u8>,
    pub deposite_time_stamp: i64,
    pub unlock_time_stamp: i64,
    pub withdrawn: bool,
    pub deposited: bool,
    pub token: SP20TokenDataV,
}

// ---------------------------------------------------------------------------
// Executable types
// ---------------------------------------------------------------------------

/// The payload of a create instruction: everything the caller supplies to open
/// a vault. All fields are untrusted until the create handler validates them.
#[derive(Debug, Clone, PartialEq)]
pub struct CreateVaultInput {
    pub token_address: Address,
    pub amount: u64,
    pub withdrawer: Address,
    pub deposite_time_stamp: i64,
    pub withdrawn: bool,
    pub deposited: bool,
    pub unlock_time_stamp: i64,
}

/// The token custody sub-record of a vault: who deposited, which mint, how
/// much is held and how much has been released.
#[derive(Debug, Clone, PartialEq)]
pub struct SP20TokenData {
    pub depositor: Address,
    pub amount: u64,
    pub token_address: Address,
    pub black_listed: bool,
    pub amount_withdrawn: u64,
}

/// The payload of a withdraw or deposit instruction.
#[derive(Debug, Clone, PartialEq)]
pub struct TransactionInput {
    pub amount: u64,
    pub token: Address,
}

/// The persisted vault record: one per escrow account, serialized whole into
/// the escrow account's storage and read back whole on every operation.
#[derive(Debug, Clone, PartialEq)]
pub struct VaultData {
    pub withdrawer: Address,
    pub deposite_time_stamp: i64,
    pub unlock_time_stamp: i64,
    pub withdrawn: bool,
    pub deposited: bool,
    pub token: SP20TokenData,
}

/// The role a user plays towards a vault.
#[derive(Debug, Clone, PartialEq, Eq, Structural)]
pub enum UserType {
    Admin,
    Investor,
}

/// A user of the vault program: a role together with an address.
#[derive(Debug, Clone, PartialEq)]
pub struct User {
    pub user_type: UserType,
    pub address: Address,
}

// ---------------------------------------------------------------------------
// Views and well-formedness
// ---------------------------------------------------------------------------

impl View for CreateVaultInput {
    type V = CreateVaultInputV;

    open spec fn view(&self) -> CreateVaultInputV {
        CreateVaultInputV {
            token_address: self.token_address@,
            amount: self.amount,
            withdrawer: self.withdrawer@,
            deposite_time_stamp: self.deposite_time_stamp,
            withdrawn: self.withdrawn,
            deposited: self.deposited,
            unlock_time_stamp: self.unlock_time_stamp,
        }
    }
}

impl CreateVaultInput {
    pub open spec fn wf(&self) -> bool {
        self.token_address.wf() && self.withdrawer.wf()
    }
}

impl View for SP20TokenData {
    type V = SP20TokenDataV;

    open spec fn view(&self) -> SP20TokenDataV {
        SP20TokenDataV {
            depositor: self.depositor@,
            amount: self.amount,
            token_address: self.token_address@,
            black_listed: self.black_listed,
            amount_withdrawn: self.amount_withdrawn,
        }
    }
}

impl SP20TokenData {
    pub open spec fn wf(&self) -> bool {
        self.depositor.wf() && self.token_address.wf()
    }
}

impl View for TransactionInput {
    type V = TransactionInputV;

    open spec fn view(&self) -> TransactionInputV {
        TransactionInputV { amount: self.amount, token: self.token@ }
    }
}

impl TransactionInput {
    pub open spec fn wf(&self) -> bool {
        self.token.wf()
    }
}

impl View for VaultData {
    type V = VaultDataV;

    open spec fn view(&self) -> VaultDataV {
        VaultDataV {
            withdrawer: self.withdrawer@,
            deposite_time_stamp: self.deposite_time_stamp,
            unlock_time_stamp: self.unlock_time_stamp,
            withdrawn: self.withdrawn,
            deposited: self.deposited,
            token: self.token@,
        }
    }
}

impl VaultData {
    pub open spec fn wf(&self) -> bool {
        self.withdrawer.wf() && self.token.wf()
    }
}

// ---------------------------------------------------------------------------
// Record construction
// ---------------------------------------------------------------------------

/// The record a successful create operation persists: times and flags come
/// from the caller's payload, the depositor is the authenticated sender, the
/// custody amount is the payload amount, nothing has been withdrawn yet and
/// the blacklist flag starts clear.
pub open spec fn spec_new_vault(data: CreateVaultInputV, sender: Seq<u8>) -> VaultDataV {
    VaultDataV {
        withdrawer: data.withdrawer,
        deposite_time_stamp: data.deposite_time_stamp,
        unlock_time_stamp: data.unlock_time_stamp,
        withdrawn: data.withdrawn,
        deposited: data.deposited,
        token: SP20TokenDataV {
            depositor: sender,
            amount: data.amount,
            token_address: data.token_address,
            black_listed: false,
            amount_withdrawn: 0,
        },
    }
}

impl VaultData {
    /// Builds the record for a newly created vault from the create payload and
    /// the authenticated sender address.
    pub fn new(data: CreateVaultInput, sender: Address) -> (r: VaultData)
        ensures
            r@ == spec_new_vault(data@, sender@),
            data.wf() && sender.wf() ==> r.wf(),
    {
        VaultData {
            deposite_time_stamp: data.deposite_time_stamp,
            unlock_time_stamp: data.unlock_time_stamp,
            withdrawn: data.withdrawn,
            deposited: data.deposited,
            token: SP20TokenData {
                depositor: sender,
                amount: data.amount,
                token_address: data.token_address,
                black_listed: false,
                amount_withdrawn: 0,
            },
            withdrawer: data.withdrawer,
        }
    }
}

} // verus!
