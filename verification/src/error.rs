//! The error taxonomy: domain failures of the vault, and the host-collaborator
//! failures the handlers surface unchanged.

use vstd::prelude::*;

verus! {

/// A domain failure of the vault program. Each variant maps to a distinct
/// stable numeric code that the host ledger surfaces to callers.
#[derive(Debug, Clone, Copy, PartialEq, Eq, Structural)]
pub enum VaultError {
    PublicKeyParseError,
    UnAutorizeActionError,
    NotEnoughTokens,
    InvalidTimeError,
    WithdrawError,
    IncorrectTimeStampError,
    BadUnlockTimeError,
    TokensAreLockedError,
    TokensAlreadyWithdrawnError,
    AdminAccountInvalid,
    NotEnoughLamports,
    InvalidSPL20Address,
}

/// The stable numeric code of each domain failure.
pub open spec fn spec_error_code(e: VaultError) -> u32 {
    match e {
        VaultError::PublicKeyParseError => 0,
        VaultError::UnAutorizeActionError => 1,
        VaultError::NotEnoughTokens => 2,
        VaultError::InvalidTimeError => 3,
        VaultError::WithdrawError => 4,
        VaultError::IncorrectTimeStampError => 5,
        VaultError::BadUnlockTimeError => 6,
        VaultError::TokensAreLockedError => 7,
        VaultError::TokensAlreadyWithdrawnError => 8,
        VaultError::AdminAccountInvalid => 9,
        VaultError::NotEnoughLamports => 10,
        VaultError::InvalidSPL20Address => 11,
    }
}

/// The human-readable message logged for each domain failure.
pub open spec fn spec_error_message(e: VaultError) -> Seq<char> {
    match e {
        VaultError::PublicKeyParseError => "Failed to parse the pubkey"@,
        VaultError::UnAutorizeActionError => "Only Admin can perform this action!"@,
        VaultError::NotEnoughTokens => "Not enough tokens in account"@,
        VaultError::InvalidTimeError => "Cant withdraw before withdraw-time"@,
        VaultError::WithdrawError => "Receiver does not own enough tokens"@,
        VaultError::IncorrectTimeStampError => "Unlock timestamp is not in seconds!"@,
        VaultError::BadUnlockTimeError => "Unlock time is not in the future!"@,
        VaultError::TokensAreLockedError => "Tokens are still locked!"@,
        VaultError::TokensAlreadyWithdrawnError => "Tokens are already withdrawn!"@,
        VaultError::AdminAccountInvalid => "Admin account invalid"@,
        VaultError::NotEnoughLamports => "Not enough lamports"@,
        VaultError::InvalidSPL20Address => "Address is not a valid sp20 token"@,
    }
}

impl VaultError {
    /// The stable numeric code the host ledger surfaces for this failure.
    pub fn code(&self) -> (c: u32)
        ensures
            c == spec_error_code(*self),
    {
        match self {
            VaultError::PublicKeyParseError => 0,
            VaultError::UnAutorizeActionError => 1,
            VaultError::NotEnoughTokens => 2,
            VaultError::InvalidTimeError => 3,
            VaultError::WithdrawError => 4,
            VaultError::IncorrectTimeStampError => 5,
            VaultError::BadUnlockTimeError => 6,
            VaultError::TokensAreLockedError => 7,
            VaultError::TokensAlreadyWithdrawnError => 8,
            VaultError::AdminAccountInvalid => 9,
            VaultError::NotEnoughLamports => 10,
            VaultError::InvalidSPL20Address => 11,
        }
    }

    /// The message to log before the failure is surfaced.
    pub fn message(&self) -> (m: &'static str)
        ensures
            m@ == spec_error_message(*self),
    {
        match self {
            VaultError::PublicKeyParseError => "Failed to parse the pubkey",
            VaultError::UnAutorizeActionError => "Only Admin can perform this action!",
            VaultError::NotEnoughTokens => "Not enough tokens in account",
            VaultError::InvalidTimeError => "Cant withdraw before withdraw-time",
            VaultError::WithdrawError => "Receiver does not own enough tokens",
            VaultError::IncorrectTimeStampError => "Unlock timestamp is not in seconds!",
            VaultError::BadUnlockTimeError => "Unlock time is not in the future!",
            VaultError::TokensAreLockedError => "Tokens are still locked!",
            VaultError::TokensAlreadyWithdrawnError => "Tokens are already withdrawn!",
            VaultError::AdminAccountInvalid => "Admin account invalid",
            VaultError::NotEnoughLamports => "Not enough lamports",
            VaultError::InvalidSPL20Address => "Address is not a valid sp20 token",
        }
    }
}

/// A failure of a vault operation: either a domain failure with its stable
/// code, or a host-collaborator failure surfaced unchanged.
#[derive(Debug, Clone, Copy, PartialEq, Eq, Structural)]
pub enum ProcessError {
    /// A domain failure of the vault program.
    Vault(VaultError),
    /// The instruction buffer was empty, carried an unknown discriminator tag,
    /// or its payload failed structural decoding.
    InvalidInstructionData,
    /// Fewer accounts were supplied than the operation expects.
    NotEnoughAccountKeys,
    /// A required signer flag was missing.
    MissingRequiredSignature,
    /// The sender is not the party the operation belongs to.
    IllegalOwner,
    /// The requested amount exceeds what remains withdrawable.
    InsufficientFunds,
    /// The token service rejected the supplied program id.
    IncorrectProgramId,
}

} // verus!
