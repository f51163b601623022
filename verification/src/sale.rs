//! A guest's listing of a token on a marketplace, and its withdrawal. A
//! guest's token is listed on one marketplace at a time.
//!
//! The ledger records the change before the host has sent the request to the
//! marketplace, and nothing undoes the record if the marketplace refuses:
//! the two may then disagree until the guest acts again.

use vstd::prelude::*;
use crate::account::ValidAccountId;
use crate::contract::Contract;
use crate::error::ContractError;
use crate::host::{CallContext, MarketRequest};
use crate::keys::Key;
use crate::keyset::KeySet;
use crate::model::ContractView;
use crate::types::{
    AccountId, Balance, GuestSale, TokenId, GAS_FOR_MARKET_CALL, MAX_MARKET_DEPOSIT, NO_DEPOSIT,
};

verus! {

impl Contract {
    /// Lists `token_id` at `price` on the marketplace `market_id`, for the
    /// guest who signed the call, and returns the call that registers the
    /// sale with the marketplace and forwards `market_deposit` to it.
    pub fn nft_add_sale_guest(
        &mut self,
        ctx: &CallContext,
        token_id: TokenId,
        price: Balance,
        market_id: ValidAccountId,
        market_deposit: Balance,
    ) -> (r: Result<MarketRequest, ContractError>)
        ensures
            match r {
                Ok(request) => {
                    &&& old(self)@.add_sale_refusal(ctx@, token_id@, market_deposit) is None
                    &&& final(self)@ == old(self)@.after_add_sale(
                        ctx@,
                        token_id@,
                        price,
                        market_id@,
                        market_deposit,
                    )
                    &&& request@ == old(self)@.add_sale_request(
                        ctx@,
                        token_id@,
                        price,
                        market_id@,
                        market_deposit,
                    )
                },
                Err(e) => {
                    &&& old(self)@.add_sale_refusal(ctx@, token_id@, market_deposit) == Some(e)
                    &&& final(self)@ == old(self)@
                },
            },
    {
        let deposit: Balance = market_deposit;
        if deposit > MAX_MARKET_DEPOSIT {
            return Err(ContractError::DepositTooLarge);
        }
        let guest = match self.admin_guest(ctx, 0) {
            Ok(guest) => guest,
            Err(e) => {
                return Err(e);
            },
        };
        assert(self@ == old(self)@);
        let mut token = match self.tokens_by_id.get(&token_id) {
            Some(token) => token.clone(),
            None => {
                return Err(ContractError::TokenNotFound);
            },
        };
        if !guest.account_id.same(&token.owner_id) {
            return Err(ContractError::NotTokenOwner);
        }
        if token.approved_account_ids.len() != 0 {
            return Err(ContractError::AlreadyListed);
        }
        let market_contract: AccountId = market_id.into_string();

        token.approved_account_ids.insert(market_contract.replica());
        self.tokens_by_id.insert(token_id.replica(), token);
        self.guest_sales.insert(
            token_id.replica(),
            GuestSale { public_key: ctx.signer_account_pk.replica(), price, deposit },
        );
        Ok(
            MarketRequest::AddSale {
                market_id: market_contract,
                token_contract_id: ctx.current_account_id.replica(),
                token_id,
                price,
                on_behalf_of: guest.account_id,
                deposit,
                gas: GAS_FOR_MARKET_CALL,
            },
        )
    }

    /// Withdraws the listing of `token_id`, for the guest who signed the
    /// call, and returns the call that withdraws the sale from the
    /// marketplace `market_id`. The token must be listed on exactly one
    /// marketplace; afterwards it is listed nowhere and no sale is recorded
    /// for it, whatever marketplace was named.
    pub fn nft_remove_sale_guest(
        &mut self,
        ctx: &CallContext,
        token_id: TokenId,
        market_id: ValidAccountId,
    ) -> (r: Result<MarketRequest, ContractError>)
        ensures
            match r {
                Ok(request) => {
                    &&& old(self)@.remove_sale_refusal(ctx@, token_id@) is None
                    &&& final(self)@ == old(self)@.after_remove_sale(token_id@)
                    &&& request@ == ContractView::remove_sale_request(
                        ctx@,
                        token_id@,
                        market_id@,
                    )
                },
                Err(e) => {
                    &&& old(self)@.remove_sale_refusal(ctx@, token_id@) == Some(e)
                    &&& final(self)@ == old(self)@
                },
            },
    {
        let guest = match self.admin_guest(ctx, 0) {
            Ok(guest) => guest,
            Err(e) => {
                return Err(e);
            },
        };
        assert(self@ == old(self)@);
        let mut token = match self.tokens_by_id.get(&token_id) {
            Some(token) => token.clone(),
            None => {
                return Err(ContractError::TokenNotFound);
            },
        };
        if !guest.account_id.same(&token.owner_id) {
            return Err(ContractError::NotTokenOwner);
        }
        let market_contract: AccountId = market_id.into_string();
        if token.approved_account_ids.len() != 1 {
            return Err(ContractError::NoSale);
        }
        token.approved_account_ids = KeySet::new();
        self.tokens_by_id.insert(token_id.replica(), token);
        self.guest_sales.remove(&token_id);

        Ok(
            MarketRequest::RemoveSale {
                market_id: market_contract,
                token_contract_id: ctx.current_account_id.replica(),
                token_id,
                deposit: NO_DEPOSIT,
                gas: GAS_FOR_MARKET_CALL,
            },
        )
    }
}

} // verus!
