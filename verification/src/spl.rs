//! The interface to the external fungible-token transfer service: the SPL
//! token program. The vault never moves token balances itself; it validates
//! the supplied token address against the service's program id and builds the
//! service's transfer instruction for the host to execute.

use vstd::prelude::*;

use crate::addr::Address;
use spl_token::solana_program::pubkey::Pubkey;

verus! {

/// The token service's own program id: the 32 bytes of the SPL token
/// program's address (base58 `TokenkegQfeZyiNwAJbNbGKPFXCWuBvf9Ss623VQ5DA`).
pub open spec fn spec_token_program_id() -> Seq<u8> {
    seq![
        6u8,
        221u8,
        246u8,
        225u8,
        215u8,
        101u8,
        161u8,
        147u8,
        217u8,
        203u8,
        225u8,
        70u8,
        206u8,
        235u8,
        121u8,
        172u8,
        28u8,
        180u8,
        133u8,
        237u8,
        95u8,
        91u8,
        55u8,
        145u8,
        58u8,
        140u8,
        245u8,
        133u8,
        126u8,
        255u8,
        0u8,
        169u8,
    ]
}

/// Relies on `spl_token::check_program_account`: it accepts exactly the token
/// service's own program id and rejects every other address with an
/// incorrect-program-id error.
#[verifier::external_body]
pub(crate) fn check_token_program_address(a: &Address) -> (r: bool)
    requires
        a.wf(),
    ensures
        r == (a@ == spec_token_program_id()),
{
    let key: [u8; 32] = a.bytes.as_slice().try_into().unwrap();
    spl_token::check_program_account(&Pubkey::new_from_array(key)).is_ok()
}

/// Relies on `spl_token::instruction::transfer`: it builds the token
/// service's transfer instruction for the given accounts and amount, checking
/// nothing but that the supplied token address is the token service's own
/// program id; it succeeds exactly on that condition.
#[verifier::external_body]
pub(crate) fn request_transfer(
    token: &Address,
    source: &Address,
    destination: &Address,
    authority: &Address,
    signer: &Address,
    amount: u64,
) -> (r: bool)
    requires
        token.wf(),
        source.wf(),
        destination.wf(),
        authority.wf(),
        signer.wf(),
    ensures
        r == (token@ == spec_token_program_id()),
{
    let t = Pubkey::new_from_array(token.bytes.as_slice().try_into().unwrap());
    let s = Pubkey::new_from_array(source.bytes.as_slice().try_into().unwrap());
    let d = Pubkey::new_from_array(destination.bytes.as_slice().try_into().unwrap());
    let a = Pubkey::new_from_array(authority.bytes.as_slice().try_into().unwrap());
    let g = Pubkey::new_from_array(signer.bytes.as_slice().try_into().unwrap());
    #[allow(deprecated)]
    spl_token::instruction::transfer(&t, &s, &d, &a, &[&g], amount).is_ok()
}

} // verus!
