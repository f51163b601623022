//! The ledger as a mathematical state, and each operation as a function on
//! that state: when the operation is refused, and what the state is once it
//! has been accepted.

use vstd::prelude::*;
use crate::account::MAX_ACCOUNT_ID_LEN;
use crate::error::ContractError;
use crate::host::{
    AccountActionView, AccountCreatedCallbackView, CallContextView, MarketRequestView,
    PromiseOutcome, UpgradeRequestView,
};
use crate::types::{
    byte_len, GuestSaleView, GuestView, TokenView, ACCESS_KEY_ALLOWANCE, GAS_FOR_MARKET_CALL,
    GUEST_MINT_LIMIT, GUEST_STRING_LENGTH_LIMIT, MAX_MARKET_DEPOSIT, NO_DEPOSIT,
    ON_CREATE_ACCOUNT_CALLBACK_GAS, SPONSOR_FEE,
};

verus! {

/// The state of the ledger.
#[verifier::ext_equal]
pub struct ContractView {
    /// The owner index: the tokens that each account holds.
    pub tokens_per_owner: Map<Seq<char>, Set<Seq<char>>>,
    /// The token store.
    pub tokens_by_id: Map<Seq<char>, TokenView>,
    /// The account that administers the ledger.
    pub owner_id: Seq<char>,
    /// The number of tokens minted.
    pub total_supply: u64,
    /// What one more token costs in storage, beyond the token itself.
    pub extra_storage_in_bytes_per_token: u64,
    /// The guest registry, by signing key.
    pub guests: Map<Seq<u8>, GuestView>,
    /// The guests' listings, by token.
    pub guest_sales: Map<Seq<char>, GuestSaleView>,
}

/// What one entry of the owner index costs in storage for the owner of the
/// ledger: the growth that was measured when an entry was stored under the
/// longest account name, less the number of bytes by which that name is
/// longer than the owner's. There is no cost when the usage went down, when
/// the owner's name is longer than any account name, or when the growth is
/// smaller than what is taken from it.
pub open spec fn min_token_storage_cost(
    initial_storage_usage: u64,
    probe_storage_usage: u64,
    owner_id_len: nat,
) -> Option<u64> {
    if probe_storage_usage < initial_storage_usage || owner_id_len > MAX_ACCOUNT_ID_LEN {
        None
    } else {
        let cost = (probe_storage_usage - initial_storage_usage) - (MAX_ACCOUNT_ID_LEN
            - owner_id_len);
        if cost < 0 {
            None
        } else {
            Some(cost as u64)
        }
    }
}

/// Whether a callback came with exactly one outcome, and if so, whether that
/// outcome is a success.
pub open spec fn promise_success(outcomes: Seq<PromiseOutcome>) -> Result<bool, ContractError> {
    if outcomes.len() != 1 {
        Err(ContractError::UnexpectedResultCount)
    } else {
        Ok(outcomes[0].succeeded())
    }
}

impl ContractView {
    /// The ledger right after its initialisation.
    pub open spec fn initial(owner_id: Seq<char>, cost: u64) -> ContractView {
        ContractView {
            tokens_per_owner: Map::empty(),
            tokens_by_id: Map::empty(),
            owner_id,
            total_supply: 0,
            extra_storage_in_bytes_per_token: cost,
            guests: Map::empty(),
            guest_sales: Map::empty(),
        }
    }

    /// The tokens that `account_id` holds according to the owner index.
    pub open spec fn tokens_of(self, account_id: Seq<char>) -> Set<Seq<char>> {
        if self.tokens_per_owner.contains_key(account_id) {
            self.tokens_per_owner[account_id]
        } else {
            Set::empty()
        }
    }

    /// The ledger with `token_id` added to what `account_id` holds.
    pub open spec fn with_token_of_owner(
        self,
        account_id: Seq<char>,
        token_id: Seq<char>,
    ) -> ContractView {
        ContractView {
            tokens_per_owner: self.tokens_per_owner.insert(
                account_id,
                self.tokens_of(account_id).insert(token_id),
            ),
            ..self
        }
    }

    /// Why the holder of `signer` may not act as a guest: the key belongs to
    /// no guest, or the guest has used the quota.
    pub open spec fn guest_refusal(self, signer: Seq<u8>) -> Option<ContractError> {
        if !self.guests.contains_key(signer) {
            Some(ContractError::NotAGuest)
        } else if self.guests[signer].mints >= GUEST_MINT_LIMIT {
            Some(ContractError::MintLimitExceeded)
        } else {
            None
        }
    }

    /// The ledger with `new_mints` more mints counted for the guest `signer`.
    pub open spec fn with_mints(self, signer: Seq<u8>, new_mints: u8) -> ContractView {
        let guest = self.guests[signer];
        ContractView {
            guests: self.guests.insert(
                signer,
                GuestView { mints: (guest.mints + new_mints) as u8, ..guest },
            ),
            ..self
        }
    }

    /// Why a guest's mint is refused.
    pub open spec fn mint_refusal(
        self,
        ctx: CallContextView,
        token_id: Seq<char>,
        metadata: Seq<char>,
    ) -> Option<ContractError> {
        if byte_len(token_id) >= GUEST_STRING_LENGTH_LIMIT {
            Some(ContractError::TokenIdTooLong)
        } else if byte_len(metadata) >= GUEST_STRING_LENGTH_LIMIT {
            Some(ContractError::MetadataTooLong)
        } else if self.guest_refusal(ctx.signer_account_pk) is Some {
            self.guest_refusal(ctx.signer_account_pk)
        } else if self.tokens_by_id.contains_key(token_id) {
            Some(ContractError::TokenAlreadyExists)
        } else if self.total_supply == u64::MAX {
            Some(ContractError::SupplyOverflow)
        } else {
            None
        }
    }

    /// The ledger after a guest's mint: one more mint is counted for the
    /// guest, the token exists, is held by the account that the guest will
    /// become and is approved for nobody, the owner index lists it, and the
    /// supply has grown by one.
    pub open spec fn after_mint(
        self,
        ctx: CallContextView,
        token_id: Seq<char>,
        metadata: Seq<char>,
    ) -> ContractView {
        let owner_id = self.guests[ctx.signer_account_pk].account_id;
        let counted = self.with_mints(ctx.signer_account_pk, 1);
        let stored = ContractView {
            tokens_by_id: counted.tokens_by_id.insert(
                token_id,
                TokenView { owner_id, metadata, approved_account_ids: Set::empty() },
            ),
            total_supply: (counted.total_supply + 1) as u64,
            ..counted
        };
        stored.with_token_of_owner(owner_id, token_id)
    }

    /// Why a guest may not change the listing of `token_id`: the guest is
    /// refused, the token does not exist, or someone else holds it.
    pub open spec fn sale_guard_refusal(
        self,
        ctx: CallContextView,
        token_id: Seq<char>,
    ) -> Option<ContractError> {
        if self.guest_refusal(ctx.signer_account_pk) is Some {
            self.guest_refusal(ctx.signer_account_pk)
        } else if !self.tokens_by_id.contains_key(token_id) {
            Some(ContractError::TokenNotFound)
        } else if self.guests[ctx.signer_account_pk].account_id
            != self.tokens_by_id[token_id].owner_id {
            Some(ContractError::NotTokenOwner)
        } else {
            None
        }
    }

    /// Why a guest's listing is refused.
    pub open spec fn add_sale_refusal(
        self,
        ctx: CallContextView,
        token_id: Seq<char>,
        market_deposit: u128,
    ) -> Option<ContractError> {
        if market_deposit > MAX_MARKET_DEPOSIT {
            Some(ContractError::DepositTooLarge)
        } else if self.sale_guard_refusal(ctx, token_id) is Some {
            self.sale_guard_refusal(ctx, token_id)
        } else if self.tokens_by_id[token_id].approved_account_ids.len() != 0 {
            Some(ContractError::AlreadyListed)
        } else {
            None
        }
    }

    /// The ledger after a guest's listing: the marketplace is approved for
    /// the token, and the sale is recorded under the token.
    pub open spec fn after_add_sale(
        self,
        ctx: CallContextView,
        token_id: Seq<char>,
        price: u128,
        market_id: Seq<char>,
        market_deposit: u128,
    ) -> ContractView {
        let token = self.tokens_by_id[token_id];
        ContractView {
            tokens_by_id: self.tokens_by_id.insert(
                token_id,
                TokenView {
                    approved_account_ids: token.approved_account_ids.insert(market_id),
                    ..token
                },
            ),
            guest_sales: self.guest_sales.insert(
                token_id,
                GuestSaleView {
                    public_key: ctx.signer_account_pk,
                    price,
                    deposit: market_deposit,
                },
            ),
            ..self
        }
    }

    /// The call that registers a guest's sale with the marketplace.
    pub open spec fn add_sale_request(
        self,
        ctx: CallContextView,
        token_id: Seq<char>,
        price: u128,
        market_id: Seq<char>,
        market_deposit: u128,
    ) -> MarketRequestView {
        MarketRequestView::AddSale {
            market_id,
            token_contract_id: ctx.current_account_id,
            token_id,
            price,
            on_behalf_of: self.guests[ctx.signer_account_pk].account_id,
            deposit: market_deposit,
            gas: GAS_FOR_MARKET_CALL,
        }
    }

    /// Why the withdrawal of a guest's listing is refused. There is no sale
    /// to withdraw unless the token is approved for exactly one account.
    pub open spec fn remove_sale_refusal(
        self,
        ctx: CallContextView,
        token_id: Seq<char>,
    ) -> Option<ContractError> {
        if self.sale_guard_refusal(ctx, token_id) is Some {
            self.sale_guard_refusal(ctx, token_id)
        } else if self.tokens_by_id[token_id].approved_account_ids.len() != 1 {
            Some(ContractError::NoSale)
        } else {
            None
        }
    }

    /// The ledger after the withdrawal of a guest's listing: the token's one
    /// approval is gone, so that it is approved for nobody, and no sale is
    /// recorded under it.
    pub open spec fn after_remove_sale(self, token_id: Seq<char>) -> ContractView {
        let token = self.tokens_by_id[token_id];
        ContractView {
            tokens_by_id: self.tokens_by_id.insert(
                token_id,
                TokenView { approved_account_ids: Set::empty(), ..token },
            ),
            guest_sales: self.guest_sales.remove(token_id),
            ..self
        }
    }

    /// The call that withdraws a guest's sale from the marketplace.
    pub open spec fn remove_sale_request(
        ctx: CallContextView,
        token_id: Seq<char>,
        market_id: Seq<char>,
    ) -> MarketRequestView {
        MarketRequestView::RemoveSale {
            market_id,
            token_contract_id: ctx.current_account_id,
            token_id,
            deposit: NO_DEPOSIT,
            gas: GAS_FOR_MARKET_CALL,
        }
    }

    /// Why a guest's promotion is refused.
    pub open spec fn upgrade_refusal(self, ctx: CallContextView) -> Option<ContractError> {
        if !self.guests.contains_key(ctx.signer_account_pk) {
            Some(ContractError::NoGuest)
        } else if self.guests[ctx.signer_account_pk].balance <= SPONSOR_FEE {
            Some(ContractError::NotEnoughToUpgrade)
        } else {
            None
        }
    }

    /// The request that promotes a guest: create the account that the guest
    /// will become, give `public_key` every right over it, give `access_key`
    /// the right to call `method_names` on the ledger, move the guest's
    /// balance less the sponsor fee into it, and then call the ledger back
    /// with the account and the guest's signing key.
    pub open spec fn upgrade_request(
        self,
        ctx: CallContextView,
        public_key: Seq<u8>,
        access_key: Seq<u8>,
        method_names: Seq<char>,
    ) -> UpgradeRequestView {
        let guest = self.guests[ctx.signer_account_pk];
        UpgradeRequestView {
            account_id: guest.account_id,
            actions: seq![
                AccountActionView::CreateAccount,
                AccountActionView::AddFullAccessKey { public_key },
                AccountActionView::AddAccessKey {
                    public_key: access_key,
                    allowance: ACCESS_KEY_ALLOWANCE,
                    receiver_id: ctx.current_account_id,
                    method_names: vstd::utf8::encode_utf8(method_names),
                },
                AccountActionView::Transfer { amount: (guest.balance - SPONSOR_FEE) as u128 },
            ],
            callback: AccountCreatedCallbackView {
                receiver_id: ctx.current_account_id,
                account_id: guest.account_id,
                public_key: ctx.signer_account_pk,
                deposit: NO_DEPOSIT,
                gas: ON_CREATE_ACCOUNT_CALLBACK_GAS,
            },
        }
    }

    /// The ledger after the host has reported how an account creation ended:
    /// without the guest when it succeeded, unchanged when it did not.
    pub open spec fn after_account_created(
        self,
        public_key: Seq<u8>,
        succeeded: bool,
    ) -> ContractView {
        if succeeded {
            ContractView { guests: self.guests.remove(public_key), ..self }
        } else {
            self
        }
    }

    /// Why the registration of a guest is refused.
    pub open spec fn add_guest_refusal(
        self,
        ctx: CallContextView,
        account_id: Seq<char>,
        public_key: Seq<u8>,
    ) -> Option<ContractError> {
        if ctx.predecessor_account_id != self.owner_id {
            Some(ContractError::NotOwner)
        } else if self.tokens_per_owner.contains_key(account_id) {
            Some(ContractError::AccountAlreadyRegistered)
        } else if self.guests.contains_key(public_key) {
            Some(ContractError::GuestAlreadyAdded)
        } else {
            None
        }
    }

    /// The ledger after the registration of a guest, who starts with no mint
    /// and no balance.
    pub open spec fn after_add_guest(
        self,
        account_id: Seq<char>,
        public_key: Seq<u8>,
    ) -> ContractView {
        ContractView {
            guests: self.guests.insert(public_key, GuestView { account_id, mints: 0, balance: 0 }),
            ..self
        }
    }

    /// Why the removal of a guest is refused.
    pub open spec fn remove_guest_refusal(
        self,
        ctx: CallContextView,
        public_key: Seq<u8>,
    ) -> Option<ContractError> {
        if ctx.predecessor_account_id != self.owner_id {
            Some(ContractError::NotOwner)
        } else if !self.guests.contains_key(public_key) {
            Some(ContractError::GuestNotRegistered)
        } else {
            None
        }
    }

    /// The ledger after the removal of a guest: the guest is gone, and so is
    /// the whole entry of the guest's account in the owner index. The tokens
    /// themselves stay in the token store.
    pub open spec fn after_remove_guest(self, public_key: Seq<u8>) -> ContractView {
        ContractView {
            tokens_per_owner: self.tokens_per_owner.remove(self.guests[public_key].account_id),
            guests: self.guests.remove(public_key),
            ..self
        }
    }

    /// The guest registered under `public_key`.
    pub open spec fn guest(self, public_key: Seq<u8>) -> Result<GuestView, ContractError> {
        if self.guests.contains_key(public_key) {
            Ok(self.guests[public_key])
        } else {
            Err(ContractError::GuestNotFound)
        }
    }
}

/// One call of the ledger, with what the caller and the host hand in.
pub enum Operation {
    MintGuest { ctx: CallContextView, token_id: Seq<char>, metadata: Seq<char> },
    AddSaleGuest {
        ctx: CallContextView,
        token_id: Seq<char>,
        price: u128,
        market_id: Seq<char>,
        market_deposit: u128,
    },
    RemoveSaleGuest { ctx: CallContextView, token_id: Seq<char>, market_id: Seq<char> },
    UpgradeGuest { ctx: CallContextView },
    OnAccountCreated { public_key: Seq<u8>, outcomes: Seq<PromiseOutcome> },
    AddGuest { ctx: CallContextView, account_id: Seq<char>, public_key: Seq<u8> },
    RemoveGuest { ctx: CallContextView, public_key: Seq<u8> },
}

/// The entries of the ledger that a call names: guests by their keys, tokens
/// and sales by the tokens' names, and index entries by their accounts.
#[verifier::ext_equal]
pub struct Names {
    pub guest_keys: Set<Seq<u8>>,
    pub token_ids: Set<Seq<char>>,
    pub owners: Set<Seq<char>>,
}

impl ContractView {
    /// The account of the guest who signs with `key`, if there is one.
    pub open spec fn account_of(self, key: Seq<u8>) -> Set<Seq<char>> {
        if self.guests.contains_key(key) {
            set![self.guests[key].account_id]
        } else {
            Set::empty()
        }
    }

    /// The entries that `op` names: the guest who signs or is named, the
    /// token that is named, and the index entry of the account that is named
    /// or that the guest stands for.
    pub open spec fn names(self, op: Operation) -> Names {
        match op {
            Operation::MintGuest { ctx, token_id, metadata } => Names {
                guest_keys: set![ctx.signer_account_pk],
                token_ids: set![token_id],
                owners: self.account_of(ctx.signer_account_pk),
            },
            Operation::AddSaleGuest { ctx, token_id, price, market_id, market_deposit } => Names {
                guest_keys: set![ctx.signer_account_pk],
                token_ids: set![token_id],
                owners: Set::empty(),
            },
            Operation::RemoveSaleGuest { ctx, token_id, market_id } => Names {
                guest_keys: set![ctx.signer_account_pk],
                token_ids: set![token_id],
                owners: Set::empty(),
            },
            Operation::UpgradeGuest { ctx } => Names {
                guest_keys: set![ctx.signer_account_pk],
                token_ids: Set::empty(),
                owners: Set::empty(),
            },
            Operation::OnAccountCreated { public_key, outcomes } => Names {
                guest_keys: set![public_key],
                token_ids: Set::empty(),
                owners: Set::empty(),
            },
            Operation::AddGuest { ctx, account_id, public_key } => Names {
                guest_keys: set![public_key],
                token_ids: Set::empty(),
                owners: set![account_id],
            },
            Operation::RemoveGuest { ctx, public_key } => Names {
                guest_keys: set![public_key],
                token_ids: Set::empty(),
                owners: self.account_of(public_key),
            },
        }
    }

    /// The ledger with the scalars and the entries under `names`, and no
    /// other entry.
    pub open spec fn part(self, names: Names) -> ContractView {
        ContractView {
            tokens_per_owner: self.tokens_per_owner.restrict(names.owners),
            tokens_by_id: self.tokens_by_id.restrict(names.token_ids),
            guests: self.guests.restrict(names.guest_keys),
            guest_sales: self.guest_sales.restrict(names.token_ids),
            ..self
        }
    }

    /// The ledger without the entries under `names`.
    pub open spec fn rest(self, names: Names) -> ContractView {
        ContractView {
            tokens_per_owner: self.tokens_per_owner.remove_keys(names.owners),
            tokens_by_id: self.tokens_by_id.remove_keys(names.token_ids),
            guests: self.guests.remove_keys(names.guest_keys),
            guest_sales: self.guest_sales.remove_keys(names.token_ids),
            ..self
        }
    }

    /// Why `op` is refused, if it is.
    pub open spec fn refusal(self, op: Operation) -> Option<ContractError> {
        match op {
            Operation::MintGuest { ctx, token_id, metadata } => self.mint_refusal(
                ctx,
                token_id,
                metadata,
            ),
            Operation::AddSaleGuest { ctx, token_id, price, market_id, market_deposit } =>
                self.add_sale_refusal(ctx, token_id, market_deposit),
            Operation::RemoveSaleGuest { ctx, token_id, market_id } => self.remove_sale_refusal(
                ctx,
                token_id,
            ),
            Operation::UpgradeGuest { ctx } => self.upgrade_refusal(ctx),
            Operation::OnAccountCreated { public_key, outcomes } => match promise_success(
                outcomes,
            ) {
                Ok(_) => None,
                Err(e) => Some(e),
            },
            Operation::AddGuest { ctx, account_id, public_key } => self.add_guest_refusal(
                ctx,
                account_id,
                public_key,
            ),
            Operation::RemoveGuest { ctx, public_key } => self.remove_guest_refusal(
                ctx,
                public_key,
            ),
        }
    }

    /// The ledger after `op`: as it was when `op` is refused, and else as the
    /// operation leaves it.
    pub open spec fn step(self, op: Operation) -> ContractView {
        if self.refusal(op) is Some {
            self
        } else {
            match op {
                Operation::MintGuest { ctx, token_id, metadata } => self.after_mint(
                    ctx,
                    token_id,
                    metadata,
                ),
                Operation::AddSaleGuest { ctx, token_id, price, market_id, market_deposit } =>
                    self.after_add_sale(ctx, token_id, price, market_id, market_deposit),
                Operation::RemoveSaleGuest { ctx, token_id, market_id } => self.after_remove_sale(
                    token_id,
                ),
                Operation::UpgradeGuest { ctx } => self,
                Operation::OnAccountCreated { public_key, outcomes } => self.after_account_created(
                    public_key,
                    promise_success(outcomes) == Ok::<bool, ContractError>(true),
                ),
                Operation::AddGuest { ctx, account_id, public_key } => self.after_add_guest(
                    account_id,
                    public_key,
                ),
                Operation::RemoveGuest { ctx, public_key } => self.after_remove_guest(public_key),
            }
        }
    }

    /// No guest has more mints counted than the quota allows.
    pub open spec fn mints_within_quota(self) -> bool {
        forall|key: Seq<u8>| #[trigger]
            self.guests.contains_key(key) ==> self.guests[key].mints <= GUEST_MINT_LIMIT
    }

    /// Whatever the owner index lists for an account is a token of the store
    /// that the account holds.
    pub open spec fn index_is_sound(self) -> bool {
        forall|account_id: Seq<char>, token_id: Seq<char>|
            #![trigger self.tokens_per_owner[account_id].contains(token_id)]
            self.tokens_per_owner.contains_key(account_id)
                && self.tokens_per_owner[account_id].contains(token_id) ==> {
                &&& self.tokens_by_id.contains_key(token_id)
                &&& self.tokens_by_id[token_id].owner_id == account_id
            }
    }

    /// The recorded sales mirror the approvals: a sale is recorded under a
    /// token exactly when the token is in the store and approved for exactly
    /// one account.
    pub open spec fn sales_mirror_listings(self) -> bool {
        &&& forall|token_id: Seq<char>| #[trigger]
            self.guest_sales.contains_key(token_id) ==> {
                &&& self.tokens_by_id.contains_key(token_id)
                &&& self.tokens_by_id[token_id].approved_account_ids.len() == 1
            }
        &&& forall|token_id: Seq<char>| #[trigger]
            self.tokens_by_id.contains_key(token_id)
                && self.tokens_by_id[token_id].approved_account_ids.len() == 1
                ==> self.guest_sales.contains_key(token_id)
    }

    /// Every token is approved for one account at most.
    pub open spec fn single_listing(self) -> bool {
        forall|token_id: Seq<char>| #[trigger]
            self.tokens_by_id.contains_key(token_id) ==> {
                &&& self.tokens_by_id[token_id].approved_account_ids.finite()
                &&& self.tokens_by_id[token_id].approved_account_ids.len() <= 1
            }
    }
}

} // verus!
