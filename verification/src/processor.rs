//! From a flat list of accounts and raw instruction data to an executed
//! transfer.

use vstd::bytes::*;
use vstd::prelude::*;
use vstd::slice::*;

use crate::account::{lemma_with_balance, AccountInfo, AccountView};
use crate::error::ProgramError;
use crate::instruction::{cvlr_transfer_checked, lemma_payload_round_trip};
use crate::invoke::{cvlr_invoke_transfer_checked, outcome_of, DESTINATION, SOURCE};
use crate::pubkey::{token_program_key, Pubkey};
use crate::summary::{transfer_refusal, transferred};

verus! {

/// Number of accounts that a transfer reads from the flat list.
pub const PROCESS_ACCOUNTS: usize = 5;

/// Place of the token program in the flat list.
pub const TOKEN_PROGRAM: usize = 0;

/// Place of the source account in the flat list.
pub const FROM: usize = 1;

/// Place of the mint in the flat list.
pub const MINT: usize = 2;

/// Place of the destination account in the flat list.
pub const TO: usize = 3;

/// Place of the authority in the flat list.
pub const AUTHORITY: usize = 4;

/// Length of the instruction data of a transfer: amount, then decimals.
pub const TRANSFER_DATA_LEN: usize = 9;

/// The amount in the instruction data of a transfer: bytes 0 to 7,
/// little-endian.
pub open spec fn data_amount(data: Seq<u8>) -> u64
    recommends
        data.len() >= TRANSFER_DATA_LEN,
{
    spec_u64_from_le_bytes(data.subrange(0, 8))
}

/// The decimals in the instruction data of a transfer: byte 8.
pub open spec fn data_decimals(data: Seq<u8>) -> u8
    recommends
        data.len() >= TRANSFER_DATA_LEN,
{
    data[8]
}

/// Why a transfer is not executed, if anything. The checks come in this
/// order: the number of accounts, the length of the data, the token
/// program's address, and last what stands against the transfer itself.
pub open spec fn process_refusal(accounts: Seq<AccountView>, data: Seq<u8>) -> Option<
    ProgramError,
> {
    if accounts.len() < PROCESS_ACCOUNTS {
        Some(ProgramError::NotEnoughAccountKeys)
    } else if data.len() < TRANSFER_DATA_LEN {
        Some(ProgramError::InvalidInstructionData)
    } else if accounts[TOKEN_PROGRAM as int].key != token_program_key() {
        Some(ProgramError::IncorrectProgramId)
    } else {
        transfer_refusal(accounts[FROM as int], accounts[TO as int], data_amount(data))
    }
}

/// The accounts after a transfer was asked for: where it was executed, the
/// data's amount has moved from the source to the destination; where it was
/// refused, nothing has changed.
pub open spec fn processed(accounts: Seq<AccountView>, data: Seq<u8>) -> Seq<AccountView> {
    if process_refusal(accounts, data) is None {
        transferred(accounts, FROM as int, TO as int, data_amount(data))
    } else {
        accounts
    }
}

/// Conservation: a transfer between two token accounts of different
/// addresses, of no more than the source holds and no more than the
/// destination can take, is executed; afterwards the source holds the amount
/// less, the destination the amount more, and every other account is as it
/// was.
pub proof fn lemma_transfer_conserves(accounts: Seq<AccountView>, data: Seq<u8>)
    requires
        accounts.len() >= PROCESS_ACCOUNTS,
        data.len() >= TRANSFER_DATA_LEN,
        accounts[TOKEN_PROGRAM as int].key == token_program_key(),
        accounts[FROM as int].holds_token_account(),
        accounts[TO as int].holds_token_account(),
        accounts[FROM as int].key != accounts[TO as int].key,
        data_amount(data) <= accounts[FROM as int].balance(),
        accounts[TO as int].balance() + data_amount(data) <= u64::MAX,
    ensures
        process_refusal(accounts, data) is None,
        processed(accounts, data).len() == accounts.len(),
        processed(accounts, data)[FROM as int].balance() == accounts[FROM as int].balance()
            - data_amount(data),
        processed(accounts, data)[TO as int].balance() == accounts[TO as int].balance()
            + data_amount(data),
        forall|i: int|
            0 <= i < accounts.len() && i != FROM && i != TO ==> processed(accounts, data)[i]
                == accounts[i],
{
    let amount = data_amount(data);
    let from = accounts[FROM as int];
    let to = accounts[TO as int];
    lemma_with_balance(from, (from.balance() - amount) as u64);
    lemma_with_balance(to, (to.balance() + amount) as u64);
}

/// A transfer never touches anything but the two balances: the addresses,
/// the lengths of the data and the number of accounts stay, whether it was
/// executed or refused.
pub proof fn lemma_processed_keeps_shape(accounts: Seq<AccountView>, data: Seq<u8>)
    ensures
        processed(accounts, data).len() == accounts.len(),
        forall|i: int|
            0 <= i < accounts.len() ==> {
                &&& (#[trigger] processed(accounts, data)[i]).key == accounts[i].key
                &&& processed(accounts, data)[i].data.len() == accounts[i].data.len()
                &&& processed(accounts, data)[i].lamports == accounts[i].lamports
                &&& processed(accounts, data)[i].owner == accounts[i].owner
            },
{
    if process_refusal(accounts, data) is None {
        let amount = data_amount(data);
        let from = accounts[FROM as int];
        let to = accounts[TO as int];
        if from.key != to.key {
            lemma_with_balance(from, (from.balance() - amount) as u64);
            lemma_with_balance(to, (to.balance() + amount) as u64);
        }
    }
}

/// Executes the transfer that the instruction data asks for.
///
/// `accounts` starts with the token program, the source, the mint, the
/// destination and the authority; what follows them is not read. The data
/// holds the amount in its bytes 0 to 7, little-endian, and the decimals in
/// byte 8. The instruction is built by `cvlr_transfer_checked` and executed
/// by `cvlr_invoke_transfer_checked` on a list of the four accounts after
/// the token program.
pub fn process_transfer_token_3(
    accounts: &mut Vec<AccountInfo>,
    instruction_data: &[u8],
) -> (result: Result<(), ProgramError>)
    ensures
        result == outcome_of(process_refusal(old(accounts).deep_view(), instruction_data@)),
        final(accounts).deep_view() == processed(old(accounts).deep_view(), instruction_data@),
        result is Ok && old(accounts)[FROM as int].key@ != old(accounts)[TO as int].key@ ==> {
            &&& final(accounts)[FROM as int]@.balance() == old(accounts)[FROM as int]@.balance()
                - data_amount(instruction_data@)
            &&& final(accounts)[TO as int]@.balance() == old(accounts)[TO as int]@.balance()
                + data_amount(instruction_data@)
        },
{
    if accounts.len() < PROCESS_ACCOUNTS {
        return Err(ProgramError::NotEnoughAccountKeys);
    }
    if instruction_data.len() < TRANSFER_DATA_LEN {
        return Err(ProgramError::InvalidInstructionData);
    }
    let amount = u64_from_le_bytes(slice_subrange(instruction_data, 0, 8));
    let decimals = instruction_data[8];
    let no_signers: Vec<&Pubkey> = Vec::new();
    let built = cvlr_transfer_checked(
        &accounts[TOKEN_PROGRAM].key,
        &accounts[FROM].key,
        &accounts[MINT].key,
        &accounts[TO].key,
        &accounts[AUTHORITY].key,
        no_signers.as_slice(),
        amount,
        decimals,
    );
    let instruction = match built {
        Ok(instruction) => instruction,
        Err(e) => {
            return Err(e);
        },
    };
    let mut account_infos: Vec<AccountInfo> = Vec::new();
    account_infos.push(accounts[FROM].clone());
    account_infos.push(accounts[MINT].clone());
    account_infos.push(accounts[TO].clone());
    account_infos.push(accounts[AUTHORITY].clone());
    proof {
        lemma_payload_round_trip(amount, decimals);
    }
    let ghost views = old(accounts).deep_view();
    let ghost before = account_infos.deep_view();
    assert(before =~= seq![
        views[FROM as int],
        views[MINT as int],
        views[TO as int],
        views[AUTHORITY as int],
    ]);
    match cvlr_invoke_transfer_checked(&instruction, &mut account_infos) {
        Ok(()) => {},
        Err(e) => {
            return Err(e);
        },
    }
    let ghost after = account_infos.deep_view();
    assert(after.len() == before.len());
    accounts.set(FROM, account_infos[SOURCE].clone());
    accounts.set(TO, account_infos[DESTINATION].clone());
    proof {
        assert(accounts.deep_view() =~= views.update(FROM as int, after[SOURCE as int]).update(
            TO as int,
            after[DESTINATION as int],
        ));
        assert(accounts.deep_view() =~= processed(views, instruction_data@));
        if views[FROM as int].key != views[TO as int].key {
            lemma_transfer_conserves(views, instruction_data@);
        }
    }
    Ok(())
}

} // verus!
