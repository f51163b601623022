//! What passes between the ledger and the host: the caller's context on the
//! way in, requests for the host to send on the way out, and the outcomes
//! that the host reports back.

use vstd::prelude::*;
use crate::types::{AccountId, Balance, Gas, PublicKey, TokenId};

verus! {

/// What the host knows of the call that is being served.
#[derive(Debug, PartialEq, Eq)]
pub struct CallContext {
    /// The key that signed the transaction.
    pub signer_account_pk: PublicKey,
    /// The account that made this call.
    pub predecessor_account_id: AccountId,
    /// The account under which the ledger itself runs.
    pub current_account_id: AccountId,
}

/// The mathematical model of a [`CallContext`].
pub struct CallContextView {
    pub signer_account_pk: Seq<u8>,
    pub predecessor_account_id: Seq<char>,
    pub current_account_id: Seq<char>,
}

impl View for CallContext {
    type V = CallContextView;

    open spec fn view(&self) -> CallContextView {
        CallContextView {
            signer_account_pk: self.signer_account_pk@,
            predecessor_account_id: self.predecessor_account_id@,
            current_account_id: self.current_account_id@,
        }
    }
}

/// A call that the host is asked to make to a marketplace.
#[derive(Debug, PartialEq, Eq)]
pub enum MarketRequest {
    /// Register a sale of a token on behalf of its holder.
    AddSale {
        market_id: AccountId,
        token_contract_id: AccountId,
        token_id: TokenId,
        price: Balance,
        on_behalf_of: AccountId,
        deposit: Balance,
        gas: Gas,
    },
    /// Withdraw the sale of a token.
    RemoveSale {
        market_id: AccountId,
        token_contract_id: AccountId,
        token_id: TokenId,
        deposit: Balance,
        gas: Gas,
    },
}

/// The mathematical model of a [`MarketRequest`].
pub enum MarketRequestView {
    AddSale {
        market_id: Seq<char>,
        token_contract_id: Seq<char>,
        token_id: Seq<char>,
        price: u128,
        on_behalf_of: Seq<char>,
        deposit: u128,
        gas: u64,
    },
    RemoveSale {
        market_id: Seq<char>,
        token_contract_id: Seq<char>,
        token_id: Seq<char>,
        deposit: u128,
        gas: u64,
    },
}

impl View for MarketRequest {
    type V = MarketRequestView;

    open spec fn view(&self) -> MarketRequestView {
        match self {
            MarketRequest::AddSale {
                market_id,
                token_contract_id,
                token_id,
                price,
                on_behalf_of,
                deposit,
                gas,
            } => MarketRequestView::AddSale {
                market_id: market_id@,
                token_contract_id: token_contract_id@,
                token_id: token_id@,
                price: *price,
                on_behalf_of: on_behalf_of@,
                deposit: *deposit,
                gas: *gas,
            },
            MarketRequest::RemoveSale { market_id, token_contract_id, token_id, deposit, gas } =>
                MarketRequestView::RemoveSale {
                market_id: market_id@,
                token_contract_id: token_contract_id@,
                token_id: token_id@,
                deposit: *deposit,
                gas: *gas,
            },
        }
    }
}

/// One step of the creation of an account.
#[derive(Debug, PartialEq, Eq)]
pub enum AccountAction {
    /// Create the account.
    CreateAccount,
    /// Give the key every right over the account.
    AddFullAccessKey { public_key: PublicKey },
    /// Give the key the right to call the named methods of one account, and
    /// to spend up to the allowance on those calls.
    AddAccessKey {
        public_key: PublicKey,
        allowance: Balance,
        receiver_id: AccountId,
        method_names: Vec<u8>,
    },
    /// Move funds into the account.
    Transfer { amount: Balance },
}

/// The mathematical model of an [`AccountAction`].
pub enum AccountActionView {
    CreateAccount,
    AddFullAccessKey { public_key: Seq<u8> },
    AddAccessKey {
        public_key: Seq<u8>,
        allowance: u128,
        receiver_id: Seq<char>,
        method_names: Seq<u8>,
    },
    Transfer { amount: u128 },
}

impl View for AccountAction {
    type V = AccountActionView;

    open spec fn view(&self) -> AccountActionView {
        match self {
            AccountAction::CreateAccount => AccountActionView::CreateAccount,
            AccountAction::AddFullAccessKey { public_key } => AccountActionView::AddFullAccessKey {
                public_key: public_key@,
            },
            AccountAction::AddAccessKey { public_key, allowance, receiver_id, method_names } =>
                AccountActionView::AddAccessKey {
                public_key: public_key@,
                allowance: *allowance,
                receiver_id: receiver_id@,
                method_names: method_names@,
            },
            AccountAction::Transfer { amount } => AccountActionView::Transfer { amount: *amount },
        }
    }
}

/// The call with which the host reports how an account creation ended. It is
/// made whether the creation succeeded or not.
#[derive(Debug, PartialEq, Eq)]
pub struct AccountCreatedCallback {
    /// The account that receives the call: the ledger itself.
    pub receiver_id: AccountId,
    /// The account that was to be created.
    pub account_id: AccountId,
    /// The guest's signing key.
    pub public_key: PublicKey,
    pub deposit: Balance,
    pub gas: Gas,
}

/// The mathematical model of an [`AccountCreatedCallback`].
pub struct AccountCreatedCallbackView {
    pub receiver_id: Seq<char>,
    pub account_id: Seq<char>,
    pub public_key: Seq<u8>,
    pub deposit: u128,
    pub gas: u64,
}

impl View for AccountCreatedCallback {
    type V = AccountCreatedCallbackView;

    open spec fn view(&self) -> AccountCreatedCallbackView {
        AccountCreatedCallbackView {
            receiver_id: self.receiver_id@,
            account_id: self.account_id@,
            public_key: self.public_key@,
            deposit: self.deposit,
            gas: self.gas,
        }
    }
}

/// The request to create an account for a guest: the steps, which the host
/// performs in order on the named account, and the callback that follows
/// them.
#[derive(Debug, PartialEq, Eq)]
pub struct UpgradeRequest {
    pub account_id: AccountId,
    pub actions: Vec<AccountAction>,
    pub callback: AccountCreatedCallback,
}

/// The mathematical model of an [`UpgradeRequest`].
#[verifier::ext_equal]
pub struct UpgradeRequestView {
    pub account_id: Seq<char>,
    pub actions: Seq<AccountActionView>,
    pub callback: AccountCreatedCallbackView,
}

impl View for UpgradeRequest {
    type V = UpgradeRequestView;

    open spec fn view(&self) -> UpgradeRequestView {
        UpgradeRequestView {
            account_id: self.account_id@,
            actions: Seq::new(self.actions@.len(), |i: int| self.actions@[i]@),
            callback: self.callback@,
        }
    }
}

/// How a request that the host was given earlier has ended.
#[derive(Debug, PartialEq, Eq)]
pub enum PromiseOutcome {
    /// The host has no outcome yet.
    NotReady,
    /// The request succeeded and returned these bytes.
    Successful(Vec<u8>),
    /// The request failed.
    Failed,
}

impl PromiseOutcome {
    /// Whether the outcome is a success.
    pub open spec fn succeeded(self) -> bool {
        self is Successful
    }
}

} // verus!
