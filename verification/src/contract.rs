//! The ledger itself, its initialisation, and the token store.

use vstd::prelude::*;
use crate::account::{ValidAccountId, MAX_ACCOUNT_ID_LEN};
use crate::error::ContractError;
use crate::keys::Key;
use crate::keyset::KeySet;
use crate::model::{min_token_storage_cost, ContractView};
use crate::table::Table;
use crate::types::{
    byte_len, byte_length, AccountId, Guest, GuestSale, PublicKey, StorageUsage, Token, TokenId,
};

verus! {

/// The ledger: the owner index, the token store, the guest registry, the
/// guests' listings, and three scalars.
#[derive(Debug)]
pub struct Contract {
    /// The tokens that each account holds.
    pub tokens_per_owner: Table<AccountId, KeySet<TokenId>>,
    /// The tokens, by name.
    pub tokens_by_id: Table<TokenId, Token>,
    /// The account that administers the ledger.
    pub owner_id: AccountId,
    /// The number of tokens minted.
    pub total_supply: u64,
    /// What one more token costs in storage, beyond the token itself.
    pub extra_storage_in_bytes_per_token: StorageUsage,
    /// The guests, by signing key.
    pub guests: Table<PublicKey, Guest>,
    /// The guests' listings, by token.
    pub guest_sales: Table<TokenId, GuestSale>,
}

impl View for Contract {
    type V = ContractView;

    open spec fn view(&self) -> ContractView {
        ContractView {
            tokens_per_owner: self.tokens_per_owner@,
            tokens_by_id: self.tokens_by_id@,
            owner_id: self.owner_id@,
            total_supply: self.total_supply,
            extra_storage_in_bytes_per_token: self.extra_storage_in_bytes_per_token,
            guests: self.guests@,
            guest_sales: self.guest_sales@,
        }
    }
}

impl Contract {
    /// Initialises the ledger for `owner_id`.
    ///
    /// `state_exists` says whether the host holds a ledger already. The two
    /// readings are the host's storage usage before and after an entry of the
    /// owner index was stored under
    /// [`crate::account::storage_probe_account_id`]; from them the cost of
    /// one more token is fixed, once and for all: the growth between the
    /// readings, less the bytes by which the owner's name is shorter than the
    /// name that the entry was stored under.
    pub fn new(
        owner_id: ValidAccountId,
        state_exists: bool,
        initial_storage_usage: StorageUsage,
        probe_storage_usage: StorageUsage,
    ) -> (r: Result<Self, ContractError>)
        ensures
            match r {
                Ok(this) => {
                    &&& !state_exists
                    &&& min_token_storage_cost(
                        initial_storage_usage,
                        probe_storage_usage,
                        byte_len(owner_id@),
                    ) matches Some(cost)
                    &&& this@ == ContractView::initial(owner_id@, cost)
                },
                Err(e) => if state_exists {
                    e == ContractError::AlreadyInitialized
                } else {
                    &&& e == ContractError::StorageAnomaly
                    &&& min_token_storage_cost(
                        initial_storage_usage,
                        probe_storage_usage,
                        byte_len(owner_id@),
                    ) is None
                },
            },
            !state_exists && initial_storage_usage <= probe_storage_usage && probe_storage_usage
                - initial_storage_usage >= MAX_ACCOUNT_ID_LEN - byte_len(owner_id@) ==> r is Ok,
    {
        if state_exists {
            return Err(ContractError::AlreadyInitialized);
        }
        let mut this = Contract {
            tokens_per_owner: Table::new(),
            tokens_by_id: Table::new(),
            guests: Table::new(),
            guest_sales: Table::new(),
            owner_id: owner_id.into_string(),
            total_supply: 0,
            extra_storage_in_bytes_per_token: 0,
        };
        match this.measure_min_token_storage_cost(initial_storage_usage, probe_storage_usage) {
            Ok(()) => Ok(this),
            Err(e) => Err(e),
        }
    }

    /// Fixes what one more token costs in storage, from the host's storage
    /// usage before and after an entry of the owner index was stored under
    /// the longest account name: the growth, less what that name has more
    /// than the owner's.
    fn measure_min_token_storage_cost(
        &mut self,
        initial_storage_usage: StorageUsage,
        probe_storage_usage: StorageUsage,
    ) -> (r: Result<(), ContractError>)
        ensures
            match min_token_storage_cost(
                initial_storage_usage,
                probe_storage_usage,
                byte_len(old(self).owner_id@),
            ) {
                Some(cost) => r is Ok && final(self)@ == (ContractView {
                    extra_storage_in_bytes_per_token: cost,
                    ..old(self)@
                }),
                None => {
                    &&& r == Err::<(), ContractError>(ContractError::StorageAnomaly)
                    &&& final(self)@ == old(self)@
                },
            },
    {
        let owner_id_len = byte_length(&self.owner_id);
        if probe_storage_usage < initial_storage_usage || owner_id_len > MAX_ACCOUNT_ID_LEN {
            return Err(ContractError::StorageAnomaly);
        }
        let tokens_per_owner_entry_in_bytes = probe_storage_usage - initial_storage_usage;
        let owner_id_extra_cost_in_bytes = (MAX_ACCOUNT_ID_LEN - owner_id_len) as u64;
        match tokens_per_owner_entry_in_bytes.checked_sub(owner_id_extra_cost_in_bytes) {
            Some(cost) => {
                self.extra_storage_in_bytes_per_token = cost;
                Ok(())
            },
            None => Err(ContractError::StorageAnomaly),
        }
    }

    /// Adds `token_id` to what `account_id` holds in the owner index.
    pub fn internal_add_token_to_owner(&mut self, account_id: &AccountId, token_id: &TokenId)
        ensures
            final(self)@ == old(self)@.with_token_of_owner(account_id@, token_id@),
    {
        let mut tokens_set = match self.tokens_per_owner.remove(account_id) {
            Some(held) => held,
            None => KeySet::new(),
        };
        tokens_set.insert(token_id.replica());
        self.tokens_per_owner.insert(account_id.replica(), tokens_set);
    }
}

} // verus!
