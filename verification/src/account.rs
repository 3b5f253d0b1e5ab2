//! Accounts and the token balance that an account's data holds.

use vstd::bytes::*;
use vstd::prelude::*;

use crate::pubkey::Pubkey;

verus! {

/// Length of the data of a token account.
pub const TOKEN_ACCOUNT_LEN: usize = 165;

/// Where the balance starts in the data of a token account: after the mint's
/// and the owner's addresses.
pub const AMOUNT_OFFSET: usize = 64;

/// Where the balance ends in the data of a token account.
pub const AMOUNT_END: usize = 72;

/// An account as a program sees it: its address, its lamports, its data and
/// the flags of the transaction that names it.
#[derive(Debug, PartialEq, Eq)]
pub struct AccountInfo {
    pub key: Pubkey,
    pub is_signer: bool,
    pub is_writable: bool,
    pub lamports: u64,
    pub data: Vec<u8>,
    pub owner: Pubkey,
    pub executable: bool,
    pub rent_epoch: u64,
}

/// What an [`AccountInfo`] holds.
pub struct AccountView {
    pub key: Seq<u8>,
    pub is_signer: bool,
    pub is_writable: bool,
    pub lamports: u64,
    pub data: Seq<u8>,
    pub owner: Seq<u8>,
    pub executable: bool,
    pub rent_epoch: u64,
}

impl View for AccountInfo {
    type V = AccountView;

    open spec fn view(&self) -> AccountView {
        AccountView {
            key: self.key@,
            is_signer: self.is_signer,
            is_writable: self.is_writable,
            lamports: self.lamports,
            data: self.data@,
            owner: self.owner@,
            executable: self.executable,
            rent_epoch: self.rent_epoch,
        }
    }
}

impl DeepView for AccountInfo {
    type V = AccountView;

    open spec fn deep_view(&self) -> AccountView {
        self@
    }
}

impl Clone for AccountInfo {
    fn clone(&self) -> (copy: AccountInfo)
        ensures
            copy@ == self@,
    {
        AccountInfo {
            key: self.key,
            is_signer: self.is_signer,
            is_writable: self.is_writable,
            lamports: self.lamports,
            data: self.data.clone(),
            owner: self.owner,
            executable: self.executable,
            rent_epoch: self.rent_epoch,
        }
    }
}

/// The balance that the data of a token account holds: bytes 64 to 71,
/// little-endian.
pub open spec fn token_amount(data: Seq<u8>) -> u64
    recommends
        data.len() >= TOKEN_ACCOUNT_LEN,
{
    spec_u64_from_le_bytes(data.subrange(AMOUNT_OFFSET as int, AMOUNT_END as int))
}

/// The data of a token account after its balance is set to `amount`: bytes 64
/// to 71 are replaced, every other byte stays.
pub open spec fn with_token_amount(data: Seq<u8>, amount: u64) -> Seq<u8>
    recommends
        data.len() >= TOKEN_ACCOUNT_LEN,
{
    data.subrange(0, AMOUNT_OFFSET as int) + spec_u64_to_le_bytes(amount) + data.subrange(
        AMOUNT_END as int,
        data.len() as int,
    )
}

impl AccountView {
    /// Whether the data is long enough to hold a token account.
    pub open spec fn holds_token_account(self) -> bool {
        self.data.len() >= TOKEN_ACCOUNT_LEN
    }

    /// The token balance of the account.
    pub open spec fn balance(self) -> u64
        recommends
            self.holds_token_account(),
    {
        token_amount(self.data)
    }

    /// The account with its token balance set to `amount` and nothing else
    /// changed.
    pub open spec fn with_balance(self, amount: u64) -> AccountView
        recommends
            self.holds_token_account(),
    {
        AccountView { data: with_token_amount(self.data, amount), ..self }
    }
}

/// Setting the balance of a token account gives an account of the same
/// length that holds exactly that balance.
pub proof fn lemma_with_balance(account: AccountView, amount: u64)
    requires
        account.holds_token_account(),
    ensures
        account.with_balance(amount).holds_token_account(),
        account.with_balance(amount).data.len() == account.data.len(),
        account.with_balance(amount).balance() == amount,
        account.with_balance(amount).key == account.key,
{
    lemma_auto_spec_u64_to_from_le_bytes();
    let data = with_token_amount(account.data, amount);
    assert(data.subrange(AMOUNT_OFFSET as int, AMOUNT_END as int) =~= spec_u64_to_le_bytes(
        amount,
    ));
}

} // verus!
