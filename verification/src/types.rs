//! The records that the ledger keeps, and the limits that bound what it
//! sponsors.

use vstd::prelude::*;
use crate::keys::Key;
use crate::keyset::KeySet;

verus! {

/// The name of a token.
pub type TokenId = String;

/// The name of an account on the host.
pub type AccountId = String;

/// A signing key, in the host's binary form.
pub type PublicKey = Vec<u8>;

/// An amount of the host's currency, in its smallest unit.
pub type Balance = u128;

/// An amount of the host's execution budget.
pub type Gas = u64;

/// A number of bytes of the host's storage.
pub type StorageUsage = u64;

/// The budget handed to the callback that completes an account creation.
pub const ON_CREATE_ACCOUNT_CALLBACK_GAS: Gas = 20_000_000_000_000;

/// The budget handed to each call of a marketplace.
pub const GAS_FOR_MARKET_CALL: Gas = 25_000_000_000_000;

/// The deposit of a call that attaches no funds.
pub const NO_DEPOSIT: Balance = 0;

/// A guest's token name and metadata must each be shorter than this, in
/// bytes.
pub const GUEST_STRING_LENGTH_LIMIT: usize = 256;

/// The number of mints that a guest is sponsored for.
pub const GUEST_MINT_LIMIT: u8 = 3;

/// The largest deposit that a guest may forward to a marketplace.
pub const MAX_MARKET_DEPOSIT: Balance = 100_000_000_000_000_000_000_000;

/// The allowance of the restricted access key of a new account.
pub const ACCESS_KEY_ALLOWANCE: Balance = 100_000_000_000_000_000_000_000;

/// What the ledger keeps of a guest's balance when the guest is promoted.
pub const SPONSOR_FEE: Balance = 100;

/// The length of `s` in bytes when it is written in UTF-8.
pub open spec fn byte_len(s: Seq<char>) -> nat {
    vstd::utf8::encode_utf8(s).len()
}

/// The length of `s` in bytes.
pub fn byte_length(s: &String) -> (r: usize)
    ensures
        r == byte_len(s@),
{
    s.as_str().as_bytes().len()
}

/// A token: who holds it, what it carries, and who may transfer it on the
/// holder's behalf.
#[derive(Debug)]
pub struct Token {
    pub owner_id: AccountId,
    pub metadata: String,
    pub approved_account_ids: KeySet<AccountId>,
}

/// The mathematical model of a [`Token`].
#[verifier::ext_equal]
pub struct TokenView {
    pub owner_id: Seq<char>,
    pub metadata: Seq<char>,
    pub approved_account_ids: Set<Seq<char>>,
}

impl View for Token {
    type V = TokenView;

    open spec fn view(&self) -> TokenView {
        TokenView {
            owner_id: self.owner_id@,
            metadata: self.metadata@,
            approved_account_ids: self.approved_account_ids@,
        }
    }
}

impl Clone for Token {
    fn clone(&self) -> (r: Self)
        ensures
            r@ == self@,
    {
        Token {
            owner_id: self.owner_id.clone(),
            metadata: self.metadata.clone(),
            approved_account_ids: self.approved_account_ids.clone(),
        }
    }
}

impl PartialEq for Token {
    fn eq(&self, other: &Self) -> (r: bool) {
        self.owner_id == other.owner_id && self.metadata == other.metadata
            && self.approved_account_ids == other.approved_account_ids
    }
}

impl Eq for Token {

}

impl vstd::std_specs::cmp::PartialEqSpecImpl for Token {
    open spec fn obeys_eq_spec() -> bool {
        true
    }

    open spec fn eq_spec(&self, other: &Self) -> bool {
        self@ == other@
    }
}

/// A guest: the account that the guest will become, the mints used so far,
/// and the funds held for the guest.
#[derive(Debug)]
pub struct Guest {
    pub account_id: AccountId,
    pub mints: u8,
    pub balance: Balance,
}

/// The mathematical model of a [`Guest`].
pub struct GuestView {
    pub account_id: Seq<char>,
    pub mints: u8,
    pub balance: u128,
}

impl View for Guest {
    type V = GuestView;

    open spec fn view(&self) -> GuestView {
        GuestView { account_id: self.account_id@, mints: self.mints, balance: self.balance }
    }
}

impl Clone for Guest {
    fn clone(&self) -> (r: Self)
        ensures
            r@ == self@,
    {
        Guest { account_id: self.account_id.clone(), mints: self.mints, balance: self.balance }
    }
}

impl PartialEq for Guest {
    fn eq(&self, other: &Self) -> (r: bool) {
        self.account_id == other.account_id && self.mints == other.mints && self.balance
            == other.balance
    }
}

impl Eq for Guest {

}

impl vstd::std_specs::cmp::PartialEqSpecImpl for Guest {
    open spec fn obeys_eq_spec() -> bool {
        true
    }

    open spec fn eq_spec(&self, other: &Self) -> bool {
        self@ == other@
    }
}

/// A guest's listing of one token on a marketplace.
#[derive(Debug)]
pub struct GuestSale {
    pub public_key: PublicKey,
    pub price: Balance,
    pub deposit: Balance,
}

/// The mathematical model of a [`GuestSale`].
pub struct GuestSaleView {
    pub public_key: Seq<u8>,
    pub price: u128,
    pub deposit: u128,
}

impl View for GuestSale {
    type V = GuestSaleView;

    open spec fn view(&self) -> GuestSaleView {
        GuestSaleView { public_key: self.public_key@, price: self.price, deposit: self.deposit }
    }
}

impl Clone for GuestSale {
    fn clone(&self) -> (r: Self)
        ensures
            r@ == self@,
    {
        GuestSale { public_key: self.public_key.clone(), price: self.price, deposit: self.deposit }
    }
}

impl PartialEq for GuestSale {
    fn eq(&self, other: &Self) -> (r: bool) {
        self.public_key.same(&other.public_key) && self.price == other.price && self.deposit
            == other.deposit
    }
}

impl Eq for GuestSale {

}

impl vstd::std_specs::cmp::PartialEqSpecImpl for GuestSale {
    open spec fn obeys_eq_spec() -> bool {
        true
    }

    open spec fn eq_spec(&self, other: &Self) -> bool {
        self@ == other@
    }
}

} // verus!
