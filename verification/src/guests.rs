//! The guest registry: who is a guest, how many sponsored mints each has
//! used, and how the owner adds and removes guests.

use vstd::prelude::*;
use crate::contract::Contract;
use crate::error::ContractError;
use crate::host::CallContext;
use crate::keys::Key;
use crate::types::{AccountId, Guest, PublicKey, GUEST_MINT_LIMIT};

verus! {

impl Contract {
    /// Why the holder of the key that signed the call may not act as a
    /// guest, if there is a reason.
    pub(crate) fn check_guest(&self, ctx: &CallContext) -> (r: Option<ContractError>)
        ensures
            r == self@.guest_refusal(ctx@.signer_account_pk),
    {
        match self.guests.get(&ctx.signer_account_pk) {
            None => Some(ContractError::NotAGuest),
            Some(guest) => if guest.mints >= GUEST_MINT_LIMIT {
                Some(ContractError::MintLimitExceeded)
            } else {
                None
            },
        }
    }

    /// Admits the holder of the key that signed the call as a guest, counts
    /// `new_mints` more mints for that guest, and returns the guest's record
    /// as it then stands. A guest who has used the quota is not admitted,
    /// whatever `new_mints` is: a mint passes one, any other action of a
    /// guest passes zero.
    pub(crate) fn admin_guest(
        &mut self,
        ctx: &CallContext,
        new_mints: u8,
    ) -> (r: Result<Guest, ContractError>)
        requires
            new_mints <= 1,
        ensures
            match r {
                Ok(guest) => {
                    &&& old(self)@.guest_refusal(ctx@.signer_account_pk) is None
                    &&& final(self)@ == old(self)@.with_mints(ctx@.signer_account_pk, new_mints)
                    &&& guest@ == final(self)@.guests[ctx@.signer_account_pk]
                    &&& old(self)@.guests[ctx@.signer_account_pk].mints <= guest.mints
                        <= GUEST_MINT_LIMIT
                },
                Err(e) => {
                    &&& old(self)@.guest_refusal(ctx@.signer_account_pk) == Some(e)
                    &&& final(self)@ == old(self)@
                },
            },
    {
        let signer_id = ctx.signer_account_pk.replica();
        let mut guest = match self.guests.get(&signer_id) {
            Some(guest) => guest.clone(),
            None => {
                return Err(ContractError::NotAGuest);
            },
        };
        if guest.mints >= GUEST_MINT_LIMIT {
            return Err(ContractError::MintLimitExceeded);
        }
        guest.mints += new_mints;
        self.guests.insert(signer_id, guest.clone());
        Ok(guest)
    }

    /// Registers `account_id` as a guest who signs with `public_key`. Only
    /// the owner of the ledger may do so, and neither the account nor the key
    /// may be known to the ledger already.
    pub fn add_guest(
        &mut self,
        ctx: &CallContext,
        account_id: AccountId,
        public_key: PublicKey,
    ) -> (r: Result<(), ContractError>)
        ensures
            match r {
                Ok(()) => {
                    &&& old(self)@.add_guest_refusal(ctx@, account_id@, public_key@) is None
                    &&& final(self)@ == old(self)@.after_add_guest(account_id@, public_key@)
                },
                Err(e) => {
                    &&& old(self)@.add_guest_refusal(ctx@, account_id@, public_key@) == Some(e)
                    &&& final(self)@ == old(self)@
                },
            },
    {
        if !ctx.predecessor_account_id.same(&self.owner_id) {
            return Err(ContractError::NotOwner);
        }
        if self.tokens_per_owner.contains_key(&account_id) {
            return Err(ContractError::AccountAlreadyRegistered);
        }
        if self.guests.contains_key(&public_key) {
            return Err(ContractError::GuestAlreadyAdded);
        }
        self.guests.insert(public_key, Guest { account_id, mints: 0, balance: 0 });
        Ok(())
    }

    /// Removes the guest who signs with `public_key`, together with the whole
    /// entry of the guest's account in the owner index. Only the owner of the
    /// ledger may do so. The guest's tokens stay in the token store, under
    /// the account that no longer has an entry in the index.
    pub fn remove_guest(
        &mut self,
        ctx: &CallContext,
        public_key: PublicKey,
    ) -> (r: Result<(), ContractError>)
        ensures
            match r {
                Ok(()) => {
                    &&& old(self)@.remove_guest_refusal(ctx@, public_key@) is None
                    &&& final(self)@ == old(self)@.after_remove_guest(public_key@)
                },
                Err(e) => {
                    &&& old(self)@.remove_guest_refusal(ctx@, public_key@) == Some(e)
                    &&& final(self)@ == old(self)@
                },
            },
    {
        if !ctx.predecessor_account_id.same(&self.owner_id) {
            return Err(ContractError::NotOwner);
        }
        let guest = match self.guests.remove(&public_key) {
            Some(guest) => guest,
            None => {
                return Err(ContractError::GuestNotRegistered);
            },
        };
        self.tokens_per_owner.remove(&guest.account_id);
        Ok(())
    }

    /// The record of the guest who signs with `public_key`.
    pub fn get_guest(&self, public_key: PublicKey) -> (r: Result<Guest, ContractError>)
        ensures
            match r {
                Ok(guest) => self@.guest(public_key@) == Ok::<_, ContractError>(guest@),
                Err(e) => self@.guest(public_key@) == Err::<crate::types::GuestView, _>(e),
            },
    {
        match self.guests.get(&public_key) {
            Some(guest) => Ok(guest.clone()),
            None => Err(ContractError::GuestNotFound),
        }
    }
}

} // verus!
