//! The reasons for which an instruction is refused.

use vstd::prelude::*;

verus! {

/// Why building or executing a transfer was refused.
#[derive(Clone, Copy, Debug, PartialEq, Eq, Structural)]
pub enum ProgramError {
    /// The instruction does not target the token program.
    IncorrectProgramId,
    /// The account list of a transfer does not hold exactly four accounts.
    WrongAccountCount,
    /// The account list is too short to name every account of the transfer.
    NotEnoughAccountKeys,
    /// The instruction data is empty or too short to hold its fields.
    InvalidInstructionData,
    /// An account's data is too short to hold a token balance.
    AccountDataTooSmall,
    /// The source holds fewer tokens than the transfer moves.
    InsufficientFunds,
    /// The destination's balance would no longer fit in 64 bits.
    ArithmeticOverflow,
}

} // verus!
