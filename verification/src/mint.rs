//! A guest's mint: a token of bounded size, paid for by the ledger and
//! counted against the guest's quota.

use vstd::prelude::*;
use crate::contract::Contract;
use crate::error::ContractError;
use crate::host::CallContext;
use crate::keys::Key;
use crate::keyset::KeySet;
use crate::types::{byte_length, Token, TokenId, GUEST_STRING_LENGTH_LIMIT};

verus! {

impl Contract {
    /// Mints `token_id` with `metadata` for the guest who signed the call.
    /// The token is held by the account that the guest will become. Both
    /// strings must be shorter than the limit for guests, the guest must have
    /// a mint left, and no token of that name may exist.
    pub fn nft_mint_guest(
        &mut self,
        ctx: &CallContext,
        token_id: TokenId,
        metadata: String,
    ) -> (r: Result<(), ContractError>)
        ensures
            match r {
                Ok(()) => {
                    &&& old(self)@.mint_refusal(ctx@, token_id@, metadata@) is None
                    &&& final(self)@ == old(self)@.after_mint(ctx@, token_id@, metadata@)
                },
                Err(e) => {
                    &&& old(self)@.mint_refusal(ctx@, token_id@, metadata@) == Some(e)
                    &&& final(self)@ == old(self)@
                },
            },
    {
        if byte_length(&token_id) >= GUEST_STRING_LENGTH_LIMIT {
            return Err(ContractError::TokenIdTooLong);
        }
        if byte_length(&metadata) >= GUEST_STRING_LENGTH_LIMIT {
            return Err(ContractError::MetadataTooLong);
        }
        // Every check comes before the first change, so that a refused mint
        // leaves the guest's count as it was.
        if let Some(e) = self.check_guest(ctx) {
            return Err(e);
        }
        if self.tokens_by_id.contains_key(&token_id) {
            return Err(ContractError::TokenAlreadyExists);
        }
        if self.total_supply == u64::MAX {
            return Err(ContractError::SupplyOverflow);
        }
        let guest = match self.admin_guest(ctx, 1) {
            Ok(guest) => guest,
            Err(e) => {
                return Err(e);
            },
        };
        let owner_id = guest.account_id;
        let token = Token {
            owner_id: owner_id.replica(),
            metadata,
            approved_account_ids: KeySet::new(),
        };
        self.tokens_by_id.insert(token_id.replica(), token);
        self.internal_add_token_to_owner(&owner_id, &token_id);
        self.total_supply += 1;
        Ok(())
    }
}

} // verus!
