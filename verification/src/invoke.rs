//! Executing a transfer-checked instruction against its four accounts.

use vstd::prelude::*;

use crate::account::{AccountInfo, AccountView};
use crate::error::ProgramError;
use crate::instruction::{decode_amount, payload_amount, Instruction, InstructionView};
use crate::pubkey::token_program_key;
use crate::summary::{check_transfer, spl_token_transfer, transfer_refusal, transferred};
use crate::token_program::id;

verus! {

/// Number of accounts that a transfer-checked instruction is executed against.
pub const TRANSFER_ACCOUNTS: usize = 4;

/// Place of the source account among the four.
pub const SOURCE: usize = 0;

/// Place of the mint among the four. The transfer does not read it.
pub const MINT: usize = 1;

/// Place of the destination account among the four.
pub const DESTINATION: usize = 2;

/// Place of the authority among the four.
pub const AUTHORITY: usize = 3;

/// Why an instruction is not executed against a list of accounts, if
/// anything. The checks come in this order: the number of accounts, an empty
/// payload, the program's address, a payload too short to hold an amount,
/// and last what stands against the transfer itself.
pub open spec fn invoke_refusal(instruction: InstructionView, accounts: Seq<AccountView>) -> Option<
    ProgramError,
> {
    if accounts.len() != TRANSFER_ACCOUNTS {
        Some(ProgramError::WrongAccountCount)
    } else if instruction.data.len() == 0 {
        Some(ProgramError::InvalidInstructionData)
    } else if instruction.program_id != token_program_key() {
        Some(ProgramError::IncorrectProgramId)
    } else if instruction.data.len() < 9 {
        Some(ProgramError::InvalidInstructionData)
    } else {
        transfer_refusal(
            accounts[SOURCE as int],
            accounts[DESTINATION as int],
            payload_amount(instruction.data),
        )
    }
}

/// The accounts after an instruction was handed to the invoker: where it was
/// executed, the payload's amount has moved from the source to the
/// destination; where it was refused, nothing has changed.
pub open spec fn invoked(instruction: InstructionView, accounts: Seq<AccountView>) -> Seq<
    AccountView,
> {
    if invoke_refusal(instruction, accounts) is None {
        transferred(
            accounts,
            SOURCE as int,
            DESTINATION as int,
            payload_amount(instruction.data),
        )
    } else {
        accounts
    }
}

/// A refusal as the result of a call.
pub open spec fn outcome_of(refusal: Option<ProgramError>) -> Result<(), ProgramError> {
    match refusal {
        None => Ok(()),
        Some(e) => Err(e),
    }
}

/// Validates a transfer-checked instruction and executes it against its
/// accounts: source, mint, destination and authority, in this order.
///
/// A list of any other length is refused, whatever else is handed in. An
/// instruction with a payload that is not empty and a target other than the
/// token program is refused for its target. Nothing changes where the
/// instruction is refused.
pub fn cvlr_invoke_transfer_checked(
    instruction: &Instruction,
    account_infos: &mut Vec<AccountInfo>,
) -> (result: Result<(), ProgramError>)
    ensures
        result == outcome_of(invoke_refusal(instruction@, old(account_infos).deep_view())),
        final(account_infos).deep_view() == invoked(
            instruction@,
            old(account_infos).deep_view(),
        ),
        old(account_infos).len() != TRANSFER_ACCOUNTS ==> result == Err::<(), ProgramError>(
            ProgramError::WrongAccountCount,
        ),
        old(account_infos).len() == TRANSFER_ACCOUNTS && instruction.data.len() > 0
            && instruction.program_id@ != token_program_key() ==> result == Err::<
            (),
            ProgramError,
        >(ProgramError::IncorrectProgramId),
{
    if account_infos.len() != TRANSFER_ACCOUNTS {
        return Err(ProgramError::WrongAccountCount);
    }
    if instruction.data.len() == 0 {
        return Err(ProgramError::InvalidInstructionData);
    }
    if instruction.program_id != id() {
        return Err(ProgramError::IncorrectProgramId);
    }
    let amount = match decode_amount(instruction.data.as_slice()) {
        Ok(amount) => amount,
        Err(e) => {
            return Err(e);
        },
    };
    match check_transfer(&account_infos[SOURCE], &account_infos[DESTINATION], amount) {
        Some(e) => {
            return Err(e);
        },
        None => {},
    }
    spl_token_transfer(account_infos, SOURCE, DESTINATION, AUTHORITY, amount);
    Ok(())
}

} // verus!
