//! Instructions and the layout of the transfer-checked payload.

use vstd::bytes::*;
use vstd::prelude::*;
use vstd::slice::*;

use crate::error::ProgramError;
use crate::pubkey::{token_program_key, Pubkey, TOKEN_PROGRAM_ID};
use crate::token_program::{check_program_account, pack_transfer_checked};

verus! {

/// First byte of a transfer-checked payload.
pub const TRANSFER_CHECKED_TAG: u8 = 12;

/// Length of a transfer-checked payload: tag, amount, decimals.
pub const TRANSFER_CHECKED_LEN: usize = 10;

/// An account named by an instruction, with what the instruction may do to it.
#[derive(Clone, Copy, Debug, PartialEq, Eq)]
pub struct AccountMeta {
    pub pubkey: Pubkey,
    pub is_signer: bool,
    pub is_writable: bool,
}

/// What an [`AccountMeta`] holds.
pub struct AccountMetaView {
    pub pubkey: Seq<u8>,
    pub is_signer: bool,
    pub is_writable: bool,
}

impl View for AccountMeta {
    type V = AccountMetaView;

    open spec fn view(&self) -> AccountMetaView {
        AccountMetaView {
            pubkey: self.pubkey@,
            is_signer: self.is_signer,
            is_writable: self.is_writable,
        }
    }
}

impl DeepView for AccountMeta {
    type V = AccountMetaView;

    open spec fn deep_view(&self) -> AccountMetaView {
        self@
    }
}

/// A request to a program: the program's address, the accounts it names and
/// an opaque payload.
#[derive(Debug, PartialEq, Eq)]
pub struct Instruction {
    pub program_id: Pubkey,
    pub accounts: Vec<AccountMeta>,
    pub data: Vec<u8>,
}

/// What an [`Instruction`] holds.
pub struct InstructionView {
    pub program_id: Seq<u8>,
    pub accounts: Seq<AccountMetaView>,
    pub data: Seq<u8>,
}

impl View for Instruction {
    type V = InstructionView;

    open spec fn view(&self) -> InstructionView {
        InstructionView {
            program_id: self.program_id@,
            accounts: self.accounts.deep_view(),
            data: self.data@,
        }
    }
}

impl Clone for Instruction {
    fn clone(&self) -> (copy: Instruction)
        ensures
            copy@ == self@,
    {
        Instruction {
            program_id: self.program_id,
            accounts: self.accounts.clone(),
            data: self.data.clone(),
        }
    }
}

/// The payload of a transfer-checked instruction: the tag, the amount as
/// eight little-endian bytes, then the decimals.
pub open spec fn transfer_checked_payload(amount: u64, decimals: u8) -> Seq<u8> {
    seq![TRANSFER_CHECKED_TAG] + spec_u64_to_le_bytes(amount) + seq![decimals]
}

/// The amount that a payload carries in its bytes 1 to 8.
pub open spec fn payload_amount(data: Seq<u8>) -> u64
    recommends
        data.len() >= 9,
{
    spec_u64_from_le_bytes(data.subrange(1, 9))
}

/// A transfer-checked payload is ten bytes long, starts with the tag, ends
/// with the decimals, and carries exactly the amount it was built from.
pub proof fn lemma_payload_round_trip(amount: u64, decimals: u8)
    ensures
        transfer_checked_payload(amount, decimals).len() == TRANSFER_CHECKED_LEN,
        transfer_checked_payload(amount, decimals)[0] == TRANSFER_CHECKED_TAG,
        transfer_checked_payload(amount, decimals)[9] == decimals,
        payload_amount(transfer_checked_payload(amount, decimals)) == amount,
{
    lemma_auto_spec_u64_to_from_le_bytes();
    let payload = transfer_checked_payload(amount, decimals);
    assert(payload.subrange(1, 9) =~= spec_u64_to_le_bytes(amount));
}

/// Reads the amount out of a payload. A payload shorter than nine bytes
/// holds no amount.
pub fn decode_amount(data: &[u8]) -> (result: Result<u64, ProgramError>)
    ensures
        data@.len() >= 9 ==> result == Ok::<u64, ProgramError>(payload_amount(data@)),
        data@.len() < 9 ==> result == Err::<u64, ProgramError>(
            ProgramError::InvalidInstructionData,
        ),
{
    if data.len() < 9 {
        return Err(ProgramError::InvalidInstructionData);
    }
    Ok(u64_from_le_bytes(slice_subrange(data, 1, 9)))
}

/// The instruction that a builder returns for a transfer of `amount` tokens
/// with `decimals` decimals: it targets the token program, names no account,
/// and carries the transfer-checked payload.
pub open spec fn transfer_checked_instruction(amount: u64, decimals: u8) -> InstructionView {
    InstructionView {
        program_id: token_program_key(),
        accounts: Seq::empty(),
        data: transfer_checked_payload(amount, decimals),
    }
}

/// What a builder returns when it is handed `program_id` as the token
/// program's address.
pub open spec fn build_result(program_id: Seq<u8>, amount: u64, decimals: u8) -> Result<
    InstructionView,
    ProgramError,
> {
    if program_id == token_program_key() {
        Ok(transfer_checked_instruction(amount, decimals))
    } else {
        Err(ProgramError::IncorrectProgramId)
    }
}

/// The view of a builder's result.
pub open spec fn built(result: Result<Instruction, ProgramError>) -> Result<
    InstructionView,
    ProgramError,
> {
    match result {
        Ok(instruction) => Ok(instruction@),
        Err(e) => Err(e),
    }
}

/// Builds a transfer-checked instruction for the token program.
///
/// The address handed in as the token program's must be `TOKEN_PROGRAM_ID`;
/// any other is refused with `IncorrectProgramId`. The instruction names no
/// account: the source, mint, destination, authority and signer addresses
/// are accepted and not recorded.
pub fn transfer_checked(
    token_program_id: &Pubkey,
    source_pubkey: &Pubkey,
    mint_pubkey: &Pubkey,
    destination_pubkey: &Pubkey,
    authority_pubkey: &Pubkey,
    signer_pubkeys: &[&Pubkey],
    amount: u64,
    decimals: u8,
) -> (result: Result<Instruction, ProgramError>)
    ensures
        built(result) == build_result(token_program_id@, amount, decimals),
        result is Ok ==> result->Ok_0.accounts@.len() == 0,
        result is Ok ==> payload_amount(result->Ok_0.data@) == amount,
{
    if !check_program_account(token_program_id) {
        return Err(ProgramError::IncorrectProgramId);
    }
    let data = pack_transfer_checked(amount, decimals);
    let accounts: Vec<AccountMeta> = Vec::new();
    proof {
        lemma_payload_round_trip(amount, decimals);
        assert(accounts.deep_view() =~= Seq::empty());
    }
    Ok(Instruction { program_id: Pubkey(TOKEN_PROGRAM_ID), accounts, data })
}

/// Builds the instruction that `process_transfer_token_3` executes. It is
/// `transfer_checked` under the name that the transfer's summary goes by.
pub fn cvlr_transfer_checked(
    token_program_id: &Pubkey,
    source_pubkey: &Pubkey,
    mint_pubkey: &Pubkey,
    destination_pubkey: &Pubkey,
    authority_pubkey: &Pubkey,
    signer_pubkeys: &[&Pubkey],
    amount: u64,
    decimals: u8,
) -> (result: Result<Instruction, ProgramError>)
    ensures
        built(result) == build_result(token_program_id@, amount, decimals),
        result is Ok ==> result->Ok_0.accounts@.len() == 0,
        result is Ok ==> payload_amount(result->Ok_0.data@) == amount,
{
    transfer_checked(
        token_program_id,
        source_pubkey,
        mint_pubkey,
        destination_pubkey,
        authority_pubkey,
        signer_pubkeys,
        amount,
        decimals,
    )
}

} // verus!
