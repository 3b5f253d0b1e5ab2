//! Verified model of a token `transfer_checked` instruction: how it is built,
//! how it is validated and executed against a list of accounts, and the
//! conservation rule that the two together obey.

pub mod account;
pub mod engine;
pub mod error;
pub mod instruction;
pub mod invoke;
pub mod processor;
pub mod pubkey;
pub mod rule;
pub mod summary;
pub mod token_program;

pub use account::AccountInfo;
pub use error::ProgramError;
pub use instruction::{cvlr_transfer_checked, transfer_checked, AccountMeta, Instruction};
pub use invoke::cvlr_invoke_transfer_checked;
pub use processor::process_transfer_token_3;
pub use pubkey::{Pubkey, TOKEN_PROGRAM_ID};
pub use rule::{rule_to_compile_transfer_token, transfer_token_rule, RuleOutcome};
