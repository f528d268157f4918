//! Decoding an opaque instruction buffer into one of the four vault
//! operations: the first byte is the discriminator tag, the remainder the
//! fixed-layout payload of the selected operation.

use vstd::prelude::*;
use vstd::slice::*;

use crate::codec::{spec_decode_create_input, spec_decode_transaction_input};
use crate::error::ProcessError;
use crate::state::{CreateVaultInput, CreateVaultInputV, TransactionInput, TransactionInputV};

verus! {

/// Spec value of a decoded instruction.
pub ghost enum VaultInstructionsV {
    CreateVault(CreateVaultInputV),
    WithdrawFromVault(TransactionInputV),
    DepositeToVault(TransactionInputV),
    CloseVault,
}

/// The operations the vault program supports.
///
/// On the wire, tag 1 selects `CreateVault`, tag 2 `WithdrawFromVault`,
/// tag 3 `DepositeToVault` and tag 4 `CloseVault`.
#[derive(Debug, Clone, PartialEq)]
pub enum VaultInstructions {
    /// Create a vault: initialize the escrow account's record and request the
    /// initial custody transfer from the sender.
    CreateVault(CreateVaultInput),
    /// Withdraw part of the custody balance to the designated withdrawer.
    WithdrawFromVault(TransactionInput),
    /// Deposit further funds into the vault.
    DepositeToVault(TransactionInput),
    /// Close the vault and release the remaining custody balance.
    CloseVault,
}

impl View for VaultInstructions {
    type V = VaultInstructionsV;

    open spec fn view(&self) -> VaultInstructionsV {
        match self {
            VaultInstructions::CreateVault(p) => VaultInstructionsV::CreateVault(p@),
            VaultInstructions::WithdrawFromVault(p) => VaultInstructionsV::WithdrawFromVault(p@),
            VaultInstructions::DepositeToVault(p) => VaultInstructionsV::DepositeToVault(p@),
            VaultInstructions::CloseVault => VaultInstructionsV::CloseVault,
        }
    }
}

impl VaultInstructions {
    pub open spec fn wf(&self) -> bool {
        match self {
            VaultInstructions::CreateVault(p) => p.wf(),
            VaultInstructions::WithdrawFromVault(p) => p.wf(),
            VaultInstructions::DepositeToVault(p) => p.wf(),
            VaultInstructions::CloseVault => true,
        }
    }
}

/// The view of a decoding result.
pub open spec fn view_unpack(r: Result<VaultInstructions, ProcessError>) -> Result<
    VaultInstructionsV,
    ProcessError,
> {
    match r {
        Ok(i) => Ok(i@),
        Err(e) => Err(e),
    }
}

/// What decoding an instruction buffer yields: an empty buffer, an unknown
/// tag, or a payload of the wrong shape all fail with
/// `InvalidInstructionData`; anything after tag 4 is ignored.
pub open spec fn spec_unpack(s: Seq<u8>) -> Result<VaultInstructionsV, ProcessError> {
    if s.len() == 0 {
        Err(ProcessError::InvalidInstructionData)
    } else {
        let tag = s[0];
        let rest = s.subrange(1, s.len() as int);
        if tag == 1 {
            match spec_decode_create_input(rest) {
                Some(p) => Ok(VaultInstructionsV::CreateVault(p)),
                None => Err(ProcessError::InvalidInstructionData),
            }
        } else if tag == 2 {
            match spec_decode_transaction_input(rest) {
                Some(p) => Ok(VaultInstructionsV::WithdrawFromVault(p)),
                None => Err(ProcessError::InvalidInstructionData),
            }
        } else if tag == 3 {
            match spec_decode_transaction_input(rest) {
                Some(p) => Ok(VaultInstructionsV::DepositeToVault(p)),
                None => Err(ProcessError::InvalidInstructionData),
            }
        } else if tag == 4 {
            Ok(VaultInstructionsV::CloseVault)
        } else {
            Err(ProcessError::InvalidInstructionData)
        }
    }
}

impl VaultInstructions {
    /// Decodes an instruction buffer into the operation it selects.
    pub fn unpack(instruction_data: &[u8]) -> (r: Result<VaultInstructions, ProcessError>)
        ensures
            view_unpack(r) == spec_unpack(instruction_data@),
            r matches Ok(i) ==> i.wf(),
    {
        let n = instruction_data.len();
        if n == 0 {
            return Err(ProcessError::InvalidInstructionData);
        }
        let tag = *slice_index_get(instruction_data, 0);
        let rest = slice_subrange(instruction_data, 1, n);
        match tag {
            1 => match CreateVaultInput::decode(rest) {
                Some(p) => Ok(VaultInstructions::CreateVault(p)),
                None => Err(ProcessError::InvalidInstructionData),
            },
            2 => match TransactionInput::decode(rest) {
                Some(p) => Ok(VaultInstructions::WithdrawFromVault(p)),
                None => Err(ProcessError::InvalidInstructionData),
            },
            3 => match TransactionInput::decode(rest) {
                Some(p) => Ok(VaultInstructions::DepositeToVault(p)),
                None => Err(ProcessError::InvalidInstructionData),
            },
            4 => Ok(VaultInstructions::CloseVault),
            _ => Err(ProcessError::InvalidInstructionData),
        }
    }
}

} // verus!
