//! The conservation rule: what a transfer between two different token
//! accounts does to their balances, checked on whatever accounts, amount and
//! decimals it is handed.

use vstd::bytes::*;
use vstd::prelude::*;

use crate::account::{AccountInfo, AccountView};
use crate::engine::{cvlr_assert, nondet_u64, nondet_u8};
use crate::error::ProgramError;
use crate::processor::{
    data_amount, data_decimals, lemma_processed_keeps_shape, lemma_transfer_conserves,
    process_refusal, process_transfer_token_3, processed, FROM, PROCESS_ACCOUNTS, TO,
    TOKEN_PROGRAM,
};
use crate::pubkey::token_program_key;
use crate::summary::{spl_token_account_get_amount, token_balance};
use crate::token_program::id;

verus! {

/// How a run of the rule ended.
#[derive(Clone, Copy, Debug, PartialEq, Eq, Structural)]
pub enum RuleOutcome {
    /// The rule does not speak of these accounts: nothing was run.
    Rejected,
    /// The transfer was refused, for the reason given: nothing has changed.
    Failed(ProgramError),
    /// The transfer was executed and every assertion of the rule held.
    Passed,
}

/// The accounts that the rule speaks of: at least five of them, with a
/// source and a destination of different addresses that both hold a token
/// balance.
pub open spec fn rule_admits(accounts: Seq<AccountView>) -> bool {
    &&& accounts.len() >= PROCESS_ACCOUNTS
    &&& accounts[FROM as int].key != accounts[TO as int].key
    &&& accounts[FROM as int].holds_token_account()
    &&& accounts[TO as int].holds_token_account()
}

/// The instruction data that the rule hands to the transfer: the amount as
/// eight little-endian bytes, then the decimals.
pub open spec fn rule_data(amount: u64, decimals: u8) -> Seq<u8> {
    spec_u64_to_le_bytes(amount) + seq![decimals]
}

/// How the rule ends on given accounts, amount and decimals.
pub open spec fn rule_outcome(
    accounts: Seq<AccountView>,
    amount: u64,
    decimals: u8,
) -> RuleOutcome {
    if !rule_admits(accounts) {
        RuleOutcome::Rejected
    } else {
        match process_refusal(accounts, rule_data(amount, decimals)) {
            Some(e) => RuleOutcome::Failed(e),
            None => RuleOutcome::Passed,
        }
    }
}

/// The accounts after a run of the rule.
pub open spec fn rule_accounts(accounts: Seq<AccountView>, amount: u64, decimals: u8) -> Seq<
    AccountView,
> {
    if rule_admits(accounts) {
        processed(accounts, rule_data(amount, decimals))
    } else {
        accounts
    }
}

/// The data that the rule builds is nine bytes long and holds the amount and
/// the decimals that it was built from.
pub proof fn lemma_rule_data(amount: u64, decimals: u8)
    ensures
        rule_data(amount, decimals).len() == 9,
        data_amount(rule_data(amount, decimals)) == amount,
        data_decimals(rule_data(amount, decimals)) == decimals,
{
    lemma_auto_spec_u64_to_from_le_bytes();
    assert(rule_data(amount, decimals).subrange(0, 8) =~= spec_u64_to_le_bytes(amount));
}

/// The rule itself: wherever a run ends in `Passed`, the first account is
/// the token program, the source holds the amount less than before and the
/// destination the amount more.
pub proof fn lemma_rule_holds(accounts: Seq<AccountView>, amount: u64, decimals: u8)
    requires
        rule_outcome(accounts, amount, decimals) == RuleOutcome::Passed,
    ensures
        accounts[TOKEN_PROGRAM as int].key == token_program_key(),
        amount <= accounts[FROM as int].balance(),
        rule_accounts(accounts, amount, decimals)[FROM as int].balance()
            == accounts[FROM as int].balance() - amount,
        rule_accounts(accounts, amount, decimals)[TO as int].balance()
            == accounts[TO as int].balance() + amount,
{
    lemma_rule_data(amount, decimals);
    lemma_transfer_conserves(accounts, rule_data(amount, decimals));
}

/// Runs the rule on given accounts, amount and decimals.
///
/// Accounts that the rule does not speak of are rejected before anything is
/// read or changed: a list of fewer than five, a source and a destination
/// of one address, a source or a destination without a token balance. On
/// the others it reads both balances, runs `process_transfer_token_3`, reads
/// both balances again and asserts that the first account is the token
/// program, that the source was debited by the amount and that the
/// destination was credited by it.
pub fn transfer_token_rule(
    accounts: &mut Vec<AccountInfo>,
    amount: u64,
    decimals: u8,
) -> (outcome: RuleOutcome)
    ensures
        outcome == rule_outcome(old(accounts).deep_view(), amount, decimals),
        final(accounts).deep_view() == rule_accounts(old(accounts).deep_view(), amount, decimals),
        outcome == RuleOutcome::Passed ==> {
            &&& old(accounts)[TOKEN_PROGRAM as int].key@ == token_program_key()
            &&& final(accounts)[FROM as int]@.balance() == old(accounts)[FROM as int]@.balance()
                - amount
            &&& final(accounts)[TO as int]@.balance() == old(accounts)[TO as int]@.balance()
                + amount
        },
{
    if accounts.len() < PROCESS_ACCOUNTS {
        return RuleOutcome::Rejected;
    }
    if accounts[FROM].key == accounts[TO].key {
        return RuleOutcome::Rejected;
    }
    let from_pre = match token_balance(&accounts[FROM]) {
        Some(balance) => balance,
        None => {
            return RuleOutcome::Rejected;
        },
    };
    let to_pre = match token_balance(&accounts[TO]) {
        Some(balance) => balance,
        None => {
            return RuleOutcome::Rejected;
        },
    };
    let mut data = u64_to_le_bytes(amount);
    data.push(decimals);
    proof {
        assert(data@ =~= rule_data(amount, decimals));
        lemma_rule_data(amount, decimals);
        lemma_processed_keeps_shape(old(accounts).deep_view(), data@);
    }
    match process_transfer_token_3(accounts, data.as_slice()) {
        Ok(()) => {},
        Err(e) => {
            return RuleOutcome::Failed(e);
        },
    }
    proof {
        lemma_rule_holds(old(accounts).deep_view(), amount, decimals);
        assert(accounts.deep_view()[TOKEN_PROGRAM as int].key == old(
            accounts,
        ).deep_view()[TOKEN_PROGRAM as int].key);
    }
    let from_post = spl_token_account_get_amount(&accounts[FROM]);
    let to_post = spl_token_account_get_amount(&accounts[TO]);
    cvlr_assert(accounts[TOKEN_PROGRAM].key == id());
    cvlr_assert(from_post == from_pre - amount);
    cvlr_assert(to_post == to_pre + amount);
    RuleOutcome::Passed
}

/// Runs the rule on given accounts, with an amount and decimals of the
/// engine's choosing.
///
/// Whatever the engine chose, the run ends as `transfer_token_rule` ends on
/// some amount and decimals; so accounts that the rule does not speak of are
/// rejected unchanged, and where the run ends in `Passed` the destination
/// has gained what the source has lost.
pub fn rule_to_compile_transfer_token(accounts: &mut Vec<AccountInfo>) -> (outcome: RuleOutcome)
    ensures
        exists|amount: u64, decimals: u8|
            {
                &&& outcome == #[trigger] rule_outcome(old(accounts).deep_view(), amount, decimals)
                &&& final(accounts).deep_view() == rule_accounts(
                    old(accounts).deep_view(),
                    amount,
                    decimals,
                )
            },
        outcome == RuleOutcome::Rejected <==> !rule_admits(old(accounts).deep_view()),
        outcome == RuleOutcome::Rejected ==> final(accounts).deep_view() == old(
            accounts,
        ).deep_view(),
        outcome == RuleOutcome::Passed ==> {
            &&& old(accounts)[TOKEN_PROGRAM as int].key@ == token_program_key()
            &&& final(accounts)[FROM as int]@.balance() <= old(accounts)[FROM as int]@.balance()
            &&& old(accounts)[FROM as int]@.balance() - final(accounts)[FROM as int]@.balance()
                == final(accounts)[TO as int]@.balance() - old(accounts)[TO as int]@.balance()
        },
{
    let amount = nondet_u64();
    let decimals = nondet_u8();
    transfer_token_rule(accounts, amount, decimals)
}

} // verus!
