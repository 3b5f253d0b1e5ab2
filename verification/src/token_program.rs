//! What this library takes from the token program's own crate: its address,
//! its address check and its instruction encoding.

use vstd::prelude::*;

use crate::instruction::transfer_checked_payload;
use crate::pubkey::{token_program_key, Pubkey};

verus! {

/// `spl_token::id`: the address that the token program's crate declares for
/// itself. The contract claims that it is `TOKEN_PROGRAM_ID`.
#[verifier::external_body]
pub(crate) fn id() -> (key: Pubkey)
    ensures
        key@ == token_program_key(),
{
    Pubkey(spl_token::id().to_bytes())
}

/// `spl_token::check_program_account`: it compares the address with the
/// token program's own and fails on any other. The contract claims that the
/// call succeeds exactly on `TOKEN_PROGRAM_ID`.
#[verifier::external_body]
pub(crate) fn check_program_account(program_id: &Pubkey) -> (accepted: bool)
    ensures
        accepted == (program_id@ == token_program_key()),
{
    let key = spl_token::solana_program::pubkey::Pubkey::new_from_array(program_id.0);
    spl_token::check_program_account(&key).is_ok()
}

/// `spl_token::instruction::TokenInstruction::pack` on a `TransferChecked`
/// instruction: it writes the tag 12, the amount as eight little-endian
/// bytes, and the decimals. The contract claims exactly these ten bytes.
#[verifier::external_body]
pub(crate) fn pack_transfer_checked(amount: u64, decimals: u8) -> (data: Vec<u8>)
    ensures
        data@ == transfer_checked_payload(amount, decimals),
{
    spl_token::instruction::TokenInstruction::TransferChecked { amount, decimals }.pack()
}

} // verus!
