use token_vault::error::VaultError;

#[test]
fn error_codes_are_stable() {
    assert_eq!(VaultError::PublicKeyParseError.code(), 0);
    assert_eq!(VaultError::UnAutorizeActionError.code(), 1);
    assert_eq!(VaultError::NotEnoughTokens.code(), 2);
    assert_eq!(VaultError::InvalidTimeError.code(), 3);
    assert_eq!(VaultError::WithdrawError.code(), 4);
    assert_eq!(VaultError::IncorrectTimeStampError.code(), 5);
    assert_eq!(VaultError::BadUnlockTimeError.code(), 6);
    assert_eq!(VaultError::TokensAreLockedError.code(), 7);
    assert_eq!(VaultError::TokensAlreadyWithdrawnError.code(), 8);
    assert_eq!(VaultError::AdminAccountInvalid.code(), 9);
    assert_eq!(VaultError::NotEnoughLamports.code(), 10);
    assert_eq!(VaultError::InvalidSPL20Address.code(), 11);
}

#[test]
fn error_messages() {
    assert_eq!(VaultError::PublicKeyParseError.message(), "Failed to parse the pubkey");
    assert_eq!(VaultError::UnAutorizeActionError.message(), "Only Admin can perform this action!");
    assert_eq!(VaultError::NotEnoughTokens.message(), "Not enough tokens in account");
    assert_eq!(VaultError::InvalidTimeError.message(), "Cant withdraw before withdraw-time");
    assert_eq!(VaultError::WithdrawError.message(), "Receiver does not own enough tokens");
    assert_eq!(
        VaultError::IncorrectTimeStampError.message(),
        "Unlock timestamp is not in seconds!"
    );
    assert_eq!(VaultError::BadUnlockTimeError.message(), "Unlock time is not in the future!");
    assert_eq!(VaultError::TokensAreLockedError.message(), "Tokens are still locked!");
    assert_eq!(
        VaultError::TokensAlreadyWithdrawnError.message(),
        "Tokens are already withdrawn!"
    );
    assert_eq!(VaultError::AdminAccountInvalid.message(), "Admin account invalid");
    assert_eq!(VaultError::NotEnoughLamports.message(), "Not enough lamports");
    assert_eq!(VaultError::InvalidSPL20Address.message(), "Address is not a valid sp20 token");
}
