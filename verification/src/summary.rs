//! The token program's summary: the outside model of a token account's
//! balance and of a transfer between two token accounts, with what this
//! library relies on from each.

use vstd::prelude::*;

use cvlr_solana::token;
use solana_program::account_info::AccountInfo as OutsideAccount;
use solana_program::pubkey::Pubkey as OutsideKey;

use crate::account::{AccountInfo, AccountView, TOKEN_ACCOUNT_LEN};
use crate::error::ProgramError;

verus! {

/// Why `amount` tokens cannot be moved from `src` to `dst`, if anything. A
/// transfer from an account to itself moves nothing and is never refused.
pub open spec fn transfer_refusal(src: AccountView, dst: AccountView, amount: u64) -> Option<
    ProgramError,
> {
    if src.key == dst.key {
        None
    } else if !src.holds_token_account() || !dst.holds_token_account() {
        Some(ProgramError::AccountDataTooSmall)
    } else if src.balance() < amount {
        Some(ProgramError::InsufficientFunds)
    } else if dst.balance() + amount > u64::MAX {
        Some(ProgramError::ArithmeticOverflow)
    } else {
        None
    }
}

/// The accounts after `amount` tokens moved from the account at `src` to the
/// one at `dst`: the source is debited, the destination credited, and every
/// other account and every other field stays. Between two accounts of one
/// address nothing moves.
pub open spec fn transferred(accounts: Seq<AccountView>, src: int, dst: int, amount: u64) -> Seq<
    AccountView,
>
    recommends
        0 <= src < accounts.len(),
        0 <= dst < accounts.len(),
        transfer_refusal(accounts[src], accounts[dst], amount) is None,
{
    if accounts[src].key == accounts[dst].key {
        accounts
    } else {
        accounts.update(
            src,
            accounts[src].with_balance((accounts[src].balance() - amount) as u64),
        ).update(dst, accounts[dst].with_balance((accounts[dst].balance() + amount) as u64))
    }
}

/// `cvlr_solana::token::spl_token_account_get_amount`: it reads the balance
/// out of the first 165 bytes of the account's data and fails on shorter
/// data. The contract claims the little-endian value of bytes 64 to 71.
#[verifier::external_body]
pub(crate) fn spl_token_account_get_amount(info: &AccountInfo) -> (amount: u64)
    requires
        info@.holds_token_account(),
    ensures
        amount == info@.balance(),
{
    let key = OutsideKey::new_from_array(info.key.0);
    let owner = OutsideKey::new_from_array(info.owner.0);
    let (mut lamports, mut data) = (info.lamports, info.data.clone());
    let outside = OutsideAccount::new(
        &key, info.is_signer, info.is_writable, &mut lamports, &mut data,
        &owner, info.executable, info.rent_epoch,
    );
    token::spl_token_account_get_amount(&outside)
}

/// `cvlr_solana::token::spl_token_transfer`: between two accounts of one
/// address it does nothing; otherwise it reads both balances, takes the
/// amount off the source's and adds it to the destination's, and fails where
/// the data is too short, the source holds too little or the sum overflows.
/// It does not read the authority and returns `Ok` on every path. The
/// contract leaves the failing inputs out and claims that the accounts are
/// those of `transferred`.
#[verifier::external_body]
pub(crate) fn spl_token_transfer(
    accounts: &mut Vec<AccountInfo>,
    src: usize,
    dst: usize,
    authority: usize,
    amount: u64,
)
    requires
        src < old(accounts).len(),
        dst < old(accounts).len(),
        authority < old(accounts).len(),
        transfer_refusal(
            old(accounts).deep_view()[src as int],
            old(accounts).deep_view()[dst as int],
            amount,
        ) is None,
    ensures
        final(accounts).deep_view() == transferred(
            old(accounts).deep_view(),
            src as int,
            dst as int,
            amount,
        ),
{
    let keys: Vec<OutsideKey> =
        accounts.iter().map(|a| OutsideKey::new_from_array(a.key.0)).collect();
    let owners: Vec<OutsideKey> =
        accounts.iter().map(|a| OutsideKey::new_from_array(a.owner.0)).collect();
    let outside: Vec<OutsideAccount> = accounts.iter_mut().zip(keys.iter().zip(owners.iter()))
        .map(|(a, (key, owner))| OutsideAccount::new(
            key, a.is_signer, a.is_writable, &mut a.lamports, &mut a.data,
            owner, a.executable, a.rent_epoch,
        ))
        .collect();
    let _ = token::spl_token_transfer(&outside[src], &outside[dst], &outside[authority], amount);
}

/// The token balance of an account, or nothing where its data is too short
/// to hold one.
pub fn token_balance(info: &AccountInfo) -> (balance: Option<u64>)
    ensures
        info@.holds_token_account() ==> balance == Some(info@.balance()),
        !info@.holds_token_account() ==> balance is None,
{
    if info.data.len() < TOKEN_ACCOUNT_LEN {
        None
    } else {
        Some(spl_token_account_get_amount(info))
    }
}

/// Decides whether `amount` tokens can be moved from `src` to `dst`.
pub fn check_transfer(src: &AccountInfo, dst: &AccountInfo, amount: u64) -> (refusal: Option<
    ProgramError,
>)
    ensures
        refusal == transfer_refusal(src@, dst@, amount),
{
    if src.key == dst.key {
        return None;
    }
    if src.data.len() < TOKEN_ACCOUNT_LEN || dst.data.len() < TOKEN_ACCOUNT_LEN {
        return Some(ProgramError::AccountDataTooSmall);
    }
    let src_amount = spl_token_account_get_amount(src);
    let dst_amount = spl_token_account_get_amount(dst);
    if src_amount < amount {
        Some(ProgramError::InsufficientFunds)
    } else if dst_amount > u64::MAX - amount {
        Some(ProgramError::ArithmeticOverflow)
    } else {
        None
    }
}

} // verus!
