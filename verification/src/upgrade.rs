//! The promotion of a guest to an independent account, in two phases: the
//! request, which asks the host to create the account, and the completion,
//! which the host calls once the creation has ended one way or the other.

use vstd::prelude::*;
use vstd::string::StrSliceExecFns;
use crate::contract::Contract;
use crate::error::ContractError;
use crate::host::{
    AccountAction, AccountCreatedCallback, CallContext, PromiseOutcome, UpgradeRequest,
};
use crate::keys::Key;
use crate::model::promise_success;
use crate::types::{
    AccountId, Balance, PublicKey, ACCESS_KEY_ALLOWANCE, NO_DEPOSIT,
    ON_CREATE_ACCOUNT_CALLBACK_GAS, SPONSOR_FEE,
};

verus! {

/// Whether the callback that is being served came with exactly one outcome,
/// and whether that outcome is a success.
pub fn is_promise_success(outcomes: &Vec<PromiseOutcome>) -> (r: Result<bool, ContractError>)
    ensures
        r == promise_success(outcomes@),
{
    if outcomes.len() != 1 {
        return Err(ContractError::UnexpectedResultCount);
    }
    match outcomes[0] {
        PromiseOutcome::Successful(_) => Ok(true),
        _ => Ok(false),
    }
}

impl Contract {
    /// The request phase of a promotion. The guest is the holder of the key
    /// that signed the call. Nothing changes in the ledger: the guest stays
    /// registered until the host confirms that the account exists.
    pub fn upgrade_guest(
        &mut self,
        ctx: &CallContext,
        public_key: PublicKey,
        access_key: PublicKey,
        method_names: String,
    ) -> (r: Result<UpgradeRequest, ContractError>)
        ensures
            final(self)@ == old(self)@,
            match r {
                Ok(request) => {
                    &&& old(self)@.upgrade_refusal(ctx@) is None
                    &&& request@ == old(self)@.upgrade_request(
                        ctx@,
                        public_key@,
                        access_key@,
                        method_names@,
                    )
                },
                Err(e) => old(self)@.upgrade_refusal(ctx@) == Some(e),
            },
    {
        let pk = ctx.signer_account_pk.replica();
        let guest = match self.guests.get(&pk) {
            Some(guest) => guest.clone(),
            None => {
                return Err(ContractError::NoGuest);
            },
        };
        let balance: Balance = guest.balance;
        let fees: Balance = SPONSOR_FEE;
        if balance <= fees {
            return Err(ContractError::NotEnoughToUpgrade);
        }
        let account_id: AccountId = guest.account_id;
        let mut actions: Vec<AccountAction> = Vec::with_capacity(4);
        actions.push(AccountAction::CreateAccount);
        actions.push(AccountAction::AddFullAccessKey { public_key });
        actions.push(
            AccountAction::AddAccessKey {
                public_key: access_key,
                allowance: ACCESS_KEY_ALLOWANCE,
                receiver_id: ctx.current_account_id.replica(),
                method_names: method_names.as_str().as_bytes_vec(),
            },
        );
        actions.push(AccountAction::Transfer { amount: balance - fees });
        let request = UpgradeRequest {
            account_id: account_id.replica(),
            actions,
            callback: AccountCreatedCallback {
                receiver_id: ctx.current_account_id.replica(),
                account_id,
                public_key: pk,
                deposit: NO_DEPOSIT,
                gas: ON_CREATE_ACCOUNT_CALLBACK_GAS,
            },
        };
        assert(request@.actions =~= self@.upgrade_request(
            ctx@,
            public_key@,
            access_key@,
            method_names@,
        ).actions);
        Ok(request)
    }

    /// The completion phase of a promotion. `outcomes` are the outcomes that
    /// the host reports for the request; there must be exactly one. When it
    /// is a success the guest registered under `public_key` is removed; when
    /// it is not, the ledger stays as it was and the promotion may be
    /// requested again.
    pub fn on_account_created(
        &mut self,
        account_id: AccountId,
        public_key: PublicKey,
        outcomes: &Vec<PromiseOutcome>,
    ) -> (r: Result<bool, ContractError>)
        ensures
            r == promise_success(outcomes@),
            match r {
                Ok(succeeded) => final(self)@ == old(self)@.after_account_created(
                    public_key@,
                    succeeded,
                ),
                Err(_) => final(self)@ == old(self)@,
            },
    {
        let creation_succeeded = match is_promise_success(outcomes) {
            Ok(succeeded) => succeeded,
            Err(e) => {
                return Err(e);
            },
        };
        if creation_succeeded {
            self.guests.remove(&public_key);
        }
        Ok(creation_succeeded)
    }
}

/// The callback by which the host reports the end of an account creation.
pub trait ExtContract {
    /// The keys under which the implementor holds a guest.
    spec fn guest_keys(&self) -> Set<Seq<u8>>;

    /// Serves the callback. Exactly one outcome must have been reported; the
    /// result says whether it is a success. After a success no guest is held
    /// under `public_key`, and otherwise the guests stay as they were.
    fn on_account_created(
        &mut self,
        account_id: AccountId,
        public_key: PublicKey,
        outcomes: &Vec<PromiseOutcome>,
    ) -> (r: Result<bool, ContractError>)
        ensures
            r == promise_success(outcomes@),
            final(self).guest_keys() == if r == Ok::<bool, ContractError>(true) {
                old(self).guest_keys().remove(public_key@)
            } else {
                old(self).guest_keys()
            },
    ;
}

impl ExtContract for Contract {
    open spec fn guest_keys(&self) -> Set<Seq<u8>> {
        self@.guests.dom()
    }

    fn on_account_created(
        &mut self,
        account_id: AccountId,
        public_key: PublicKey,
        outcomes: &Vec<PromiseOutcome>,
    ) -> (r: Result<bool, ContractError>) {
        Contract::on_account_created(self, account_id, public_key, outcomes)
    }
}

} // verus!
