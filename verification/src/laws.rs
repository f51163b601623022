//! What holds of the ledger whatever is asked of it. Each law is stated over
//! the mathematical state and the functions by which the operations'
//! contracts are written, so it holds of every run of the operations.

use vstd::prelude::*;
use crate::account::MAX_ACCOUNT_ID_LEN;
use crate::error::ContractError;
use crate::host::{CallContextView, PromiseOutcome};
use crate::model::{min_token_storage_cost, promise_success, ContractView, Operation};
use crate::types::{byte_len, GUEST_MINT_LIMIT, SPONSOR_FEE};

verus! {

/// A ledger that has just been initialised has no guest, no token and no
/// sale, so every invariant of the ledger holds of it.
pub proof fn law_initial_ledger_is_sound(owner_id: Seq<char>, cost: u64)
    ensures
        ContractView::initial(owner_id, cost).mints_within_quota(),
        ContractView::initial(owner_id, cost).single_listing(),
        ContractView::initial(owner_id, cost).index_is_sound(),
        ContractView::initial(owner_id, cost).sales_mirror_listings(),
        ContractView::initial(owner_id, cost).extra_storage_in_bytes_per_token == cost,
{
}

/// No operation takes a guest over the quota: if no guest has more mints
/// than the quota before a call, none has after it.
pub proof fn law_quota_is_kept(s: ContractView, op: Operation)
    requires
        s.mints_within_quota(),
    ensures
        s.step(op).mints_within_quota(),
{
    let t = s.step(op);
    assert forall|key: Seq<u8>| #[trigger] t.guests.contains_key(key) implies t.guests[key].mints
        <= GUEST_MINT_LIMIT by {
        if s.guests.contains_key(key) {
            assert(s.guests[key].mints <= GUEST_MINT_LIMIT);
        }
    }
}

/// Admitting a guest never lowers the guest's count, and keeps it within
/// the quota as long as the mints that are counted fit into what is left of
/// it; one mint always fits for a guest who is admitted.
pub proof fn law_admission_keeps_quota(s: ContractView, signer: Seq<u8>, new_mints: u8)
    requires
        s.guest_refusal(signer) is None,
        s.guests[signer].mints + new_mints <= GUEST_MINT_LIMIT,
    ensures
        s.with_mints(signer, new_mints).guests.contains_key(signer),
        s.with_mints(signer, new_mints).guests[signer].mints >= s.guests[signer].mints,
        s.with_mints(signer, new_mints).guests[signer].mints <= GUEST_MINT_LIMIT,
        s.guests[signer].mints + 1 <= GUEST_MINT_LIMIT,
        s.with_mints(signer, 0) == s,
{
    assert(s.guests.insert(signer, s.guests[signer]) =~= s.guests);
}

/// An accepted mint counts exactly one mint more for the guest who signed,
/// and the count stays within the quota.
pub proof fn law_mint_counts_once(
    s: ContractView,
    ctx: CallContextView,
    token_id: Seq<char>,
    metadata: Seq<char>,
)
    requires
        s.mint_refusal(ctx, token_id, metadata) is None,
    ensures
        s.after_mint(ctx, token_id, metadata).guests.contains_key(ctx.signer_account_pk),
        s.after_mint(ctx, token_id, metadata).guests[ctx.signer_account_pk].mints
            == s.guests[ctx.signer_account_pk].mints + 1,
        s.after_mint(ctx, token_id, metadata).guests[ctx.signer_account_pk].mints
            <= GUEST_MINT_LIMIT,
{
}

/// A guest who has used the quota cannot mint: the call is refused, and the
/// ledger, with the guest's count, stays as it was.
pub proof fn law_mint_beyond_quota_is_refused(
    s: ContractView,
    ctx: CallContextView,
    token_id: Seq<char>,
    metadata: Seq<char>,
)
    requires
        s.guests.contains_key(ctx.signer_account_pk),
        s.guests[ctx.signer_account_pk].mints >= GUEST_MINT_LIMIT,
    ensures
        s.mint_refusal(ctx, token_id, metadata) is Some,
        s.step(Operation::MintGuest { ctx, token_id, metadata }) == s,
{
}

/// A guest who starts without a mint and has three mints accepted is refused
/// the fourth, whatever it names, and has three mints counted then.
pub proof fn law_fourth_mint_is_refused(
    s: ContractView,
    ctx: CallContextView,
    first: (Seq<char>, Seq<char>),
    second: (Seq<char>, Seq<char>),
    third: (Seq<char>, Seq<char>),
    fourth: (Seq<char>, Seq<char>),
)
    requires
        s.guests.contains_key(ctx.signer_account_pk),
        s.guests[ctx.signer_account_pk].mints == 0,
        s.mint_refusal(ctx, first.0, first.1) is None,
        s.after_mint(ctx, first.0, first.1).mint_refusal(ctx, second.0, second.1) is None,
        s.after_mint(ctx, first.0, first.1).after_mint(ctx, second.0, second.1).mint_refusal(
            ctx,
            third.0,
            third.1,
        ) is None,
    ensures
        ({
            let t = s.after_mint(ctx, first.0, first.1).after_mint(
                ctx,
                second.0,
                second.1,
            ).after_mint(ctx, third.0, third.1);
            &&& t.guests.contains_key(ctx.signer_account_pk)
            &&& t.guests[ctx.signer_account_pk].mints == GUEST_MINT_LIMIT
            &&& t.mint_refusal(ctx, fourth.0, fourth.1) is Some
            &&& t.step(
                Operation::MintGuest { ctx, token_id: fourth.0, metadata: fourth.1 },
            ) == t
        }),
{
    let s1 = s.after_mint(ctx, first.0, first.1);
    law_mint_counts_once(s, ctx, first.0, first.1);
    let s2 = s1.after_mint(ctx, second.0, second.1);
    law_mint_counts_once(s1, ctx, second.0, second.1);
    let s3 = s2.after_mint(ctx, third.0, third.1);
    law_mint_counts_once(s2, ctx, third.0, third.1);
    law_mint_beyond_quota_is_refused(s3, ctx, fourth.0, fourth.1);
}

/// No operation lists a token twice: if every token is approved for one
/// account at most before a call, every token is after it.
pub proof fn law_single_listing_is_kept(s: ContractView, op: Operation)
    requires
        s.single_listing(),
    ensures
        s.step(op).single_listing(),
{
    let t = s.step(op);
    assert forall|token_id: Seq<char>| #[trigger] t.tokens_by_id.contains_key(token_id) implies {
        &&& t.tokens_by_id[token_id].approved_account_ids.finite()
        &&& t.tokens_by_id[token_id].approved_account_ids.len() <= 1
    } by {
        if s.tokens_by_id.contains_key(token_id) {
            let approved = s.tokens_by_id[token_id].approved_account_ids;
            assert(approved.finite() && approved.len() <= 1);
            if s.refusal(op) is None {
                match op {
                    Operation::AddSaleGuest { token_id: listed, market_id, .. } => {
                        if listed == token_id {
                            assert(approved.len() == 0);
                            approved.lemma_len0_is_empty();
                            assert(approved.insert(market_id).len() == 1);
                        }
                    },
                    _ => {},
                }
            }
        }
    }
}

/// A token that is listed cannot be listed again: right after an accepted
/// listing, every further listing of the token is refused and changes
/// nothing.
pub proof fn law_second_listing_is_refused(
    s: ContractView,
    ctx: CallContextView,
    token_id: Seq<char>,
    price: u128,
    market_id: Seq<char>,
    market_deposit: u128,
    again: Operation,
)
    requires
        s.single_listing(),
        s.add_sale_refusal(ctx, token_id, market_deposit) is None,
        again matches Operation::AddSaleGuest { token_id: listed, .. } && listed == token_id,
    ensures
        s.after_add_sale(ctx, token_id, price, market_id, market_deposit).refusal(again) is Some,
        s.after_add_sale(ctx, token_id, price, market_id, market_deposit).step(again)
            == s.after_add_sale(ctx, token_id, price, market_id, market_deposit),
{
    let approved = s.tokens_by_id[token_id].approved_account_ids;
    assert(s.tokens_by_id.contains_key(token_id));
    approved.lemma_len0_is_empty();
    assert(approved.insert(market_id).len() == 1);
}

/// A withdrawal is refused exactly when the signer is no guest or has used
/// the quota, the token does not exist, someone else holds it, or it is not
/// approved for exactly one account. The marketplace that is named plays no
/// part in it.
pub proof fn law_withdrawal_refusals(
    s: ContractView,
    ctx: CallContextView,
    token_id: Seq<char>,
    market_id: Seq<char>,
)
    ensures
        s.refusal(Operation::RemoveSaleGuest { ctx, token_id, market_id }) is Some <==> {
            ||| !s.guests.contains_key(ctx.signer_account_pk)
            ||| s.guests[ctx.signer_account_pk].mints >= GUEST_MINT_LIMIT
            ||| !s.tokens_by_id.contains_key(token_id)
            ||| s.tokens_by_id[token_id].owner_id != s.guests[ctx.signer_account_pk].account_id
            ||| s.tokens_by_id[token_id].approved_account_ids.len() != 1
        },
        s.refusal(Operation::RemoveSaleGuest { ctx, token_id, market_id }) is Some ==> s.step(
            Operation::RemoveSaleGuest { ctx, token_id, market_id },
        ) == s,
{
}

/// A token that is listed nowhere cannot be withdrawn: the withdrawal is
/// refused and changes nothing.
pub proof fn law_withdrawal_without_listing_is_refused(
    s: ContractView,
    ctx: CallContextView,
    token_id: Seq<char>,
    market_id: Seq<char>,
)
    requires
        s.tokens_by_id.contains_key(token_id) ==> s.tokens_by_id[token_id]
            .approved_account_ids.len() == 0,
    ensures
        s.remove_sale_refusal(ctx, token_id) is Some,
        s.step(Operation::RemoveSaleGuest { ctx, token_id, market_id }) == s,
{
}

/// An accepted withdrawal takes the approval and the sale away together,
/// whatever marketplace it names: afterwards the token is approved for
/// nobody and no sale is recorded under it, and the token is still held by
/// the same account. A sale is never deleted while an approval remains.
pub proof fn law_withdrawal_clears_listing(
    s: ContractView,
    ctx: CallContextView,
    token_id: Seq<char>,
    market_id: Seq<char>,
)
    requires
        s.remove_sale_refusal(ctx, token_id) is None,
    ensures
        ({
            let t = s.step(Operation::RemoveSaleGuest { ctx, token_id, market_id });
            &&& t.tokens_by_id.contains_key(token_id)
            &&& t.tokens_by_id[token_id].approved_account_ids == Set::<Seq<char>>::empty()
            &&& t.tokens_by_id[token_id].approved_account_ids.len() == 0
            &&& t.tokens_by_id[token_id].owner_id == s.tokens_by_id[token_id].owner_id
            &&& !t.guest_sales.contains_key(token_id)
        }),
{
}

/// Once a token's listing has been withdrawn, a second withdrawal is
/// refused because there is no sale.
pub proof fn law_second_withdrawal_is_refused(
    s: ContractView,
    ctx: CallContextView,
    token_id: Seq<char>,
)
    requires
        s.remove_sale_refusal(ctx, token_id) is None,
    ensures
        s.after_remove_sale(token_id).remove_sale_refusal(ctx, token_id) == Some(
            ContractError::NoSale,
        ),
{
}

/// The owner index never lists a token that the store does not hold for
/// that account: if it does not before a call, it does not after it. (The
/// converse does not hold: the removal of a guest takes the account's entry
/// out of the index and leaves the tokens in the store.)
pub proof fn law_owner_index_is_kept(s: ContractView, op: Operation)
    requires
        s.index_is_sound(),
    ensures
        s.step(op).index_is_sound(),
{
    let t = s.step(op);
    assert forall|account_id: Seq<char>, token_id: Seq<char>|
        #![trigger t.tokens_per_owner[account_id].contains(token_id)]
        t.tokens_per_owner.contains_key(account_id) && t.tokens_per_owner[account_id].contains(
            token_id,
        ) implies t.tokens_by_id.contains_key(token_id) && t.tokens_by_id[token_id].owner_id
        == account_id by {
        if s.tokens_per_owner.contains_key(account_id) && s.tokens_per_owner[account_id].contains(
            token_id,
        ) {
            assert(s.tokens_by_id.contains_key(token_id));
            assert(s.tokens_by_id[token_id].owner_id == account_id);
        }
    }
}

/// The recorded sales keep mirroring the approvals: if, before a call, a
/// sale is recorded under exactly the tokens that are approved for one
/// account, and no token is approved for more, the same holds after it.
pub proof fn law_sales_mirror_listings(s: ContractView, op: Operation)
    requires
        s.single_listing(),
        s.sales_mirror_listings(),
    ensures
        s.step(op).sales_mirror_listings(),
{
    let t = s.step(op);
    assert forall|token_id: Seq<char>|
        t.guest_sales.contains_key(token_id) || t.tokens_by_id.contains_key(token_id) implies (
        #[trigger] t.guest_sales.contains_key(token_id) <==> #[trigger] t.tokens_by_id.contains_key(
            token_id,
        ) && t.tokens_by_id[token_id].approved_account_ids.len() == 1) by {
        if s.guest_sales.contains_key(token_id) {
            assert(s.tokens_by_id.contains_key(token_id));
        }
        if s.tokens_by_id.contains_key(token_id) {
            let approved = s.tokens_by_id[token_id].approved_account_ids;
            assert(approved.finite() && approved.len() <= 1);
            if s.refusal(op) is None {
                match op {
                    Operation::AddSaleGuest { token_id: listed, market_id, .. } => {
                        if listed == token_id {
                            approved.lemma_len0_is_empty();
                            assert(approved.insert(market_id).len() == 1);
                        }
                    },
                    _ => {},
                }
            }
        }
    }
}

/// A call reads and changes only the entries that it names. Decided on the
/// part of the ledger that holds just those entries, the call is refused for
/// the same reason, and leaves that part as it leaves it in the whole
/// ledger; every other entry of the whole ledger stays as it was. So a
/// program that loads the named entries, lets the call run on them and
/// writes them back has run the call on the whole ledger.
pub proof fn law_step_is_local(s: ContractView, op: Operation)
    ensures
        s.part(s.names(op)).refusal(op) == s.refusal(op),
        s.part(s.names(op)).step(op) == s.step(op).part(s.names(op)),
        s.step(op).rest(s.names(op)).tokens_per_owner == s.rest(s.names(op)).tokens_per_owner,
        s.step(op).rest(s.names(op)).tokens_by_id == s.rest(s.names(op)).tokens_by_id,
        s.step(op).rest(s.names(op)).guests == s.rest(s.names(op)).guests,
        s.step(op).rest(s.names(op)).guest_sales == s.rest(s.names(op)).guest_sales,
{
    let n = s.names(op);
    let p = s.part(n);
    assert(p.refusal(op) == s.refusal(op));
    let a = p.step(op);
    let b = s.step(op).part(n);
    assert(a.tokens_per_owner =~= b.tokens_per_owner);
    assert(a.tokens_by_id =~= b.tokens_by_id);
    assert(a.guests =~= b.guests);
    assert(a.guest_sales =~= b.guest_sales);
}

/// No operation changes the storage cost that was fixed at initialisation,
/// nor the owner of the ledger.
pub proof fn law_storage_cost_is_fixed(s: ContractView, op: Operation)
    ensures
        s.step(op).extra_storage_in_bytes_per_token == s.extra_storage_in_bytes_per_token,
        s.step(op).owner_id == s.owner_id,
{
}

/// The storage cost is the growth that was measured under the longest
/// account name, less the bytes by which the owner's name is shorter than
/// that name. It never exceeds the growth, and it is the growth itself for
/// an owner whose name is of the greatest length.
pub proof fn law_storage_cost_is_growth_less_shortfall(
    initial_storage_usage: u64,
    probe_storage_usage: u64,
    owner_id_len: nat,
)
    requires
        min_token_storage_cost(initial_storage_usage, probe_storage_usage, owner_id_len) is Some,
    ensures
        initial_storage_usage <= probe_storage_usage,
        owner_id_len <= MAX_ACCOUNT_ID_LEN,
        min_token_storage_cost(initial_storage_usage, probe_storage_usage, owner_id_len)->0
            == (probe_storage_usage - initial_storage_usage) - (MAX_ACCOUNT_ID_LEN
            - owner_id_len),
        min_token_storage_cost(initial_storage_usage, probe_storage_usage, owner_id_len)->0
            <= probe_storage_usage - initial_storage_usage,
        owner_id_len == MAX_ACCOUNT_ID_LEN ==> min_token_storage_cost(
            initial_storage_usage,
            probe_storage_usage,
            owner_id_len,
        )->0 == probe_storage_usage - initial_storage_usage,
{
}

/// How the storage cost depends on the owner: through the length of the
/// owner's name alone, and byte for byte. From the same readings, two owners
/// get costs that differ by exactly as much as the lengths of their names,
/// so an owner with a longer name never gets a smaller cost.
pub proof fn law_storage_cost_follows_owner_name_length(
    initial_storage_usage: u64,
    probe_storage_usage: u64,
    one_owner: Seq<char>,
    other_owner: Seq<char>,
)
    requires
        min_token_storage_cost(
            initial_storage_usage,
            probe_storage_usage,
            byte_len(one_owner),
        ) is Some,
        min_token_storage_cost(
            initial_storage_usage,
            probe_storage_usage,
            byte_len(other_owner),
        ) is Some,
    ensures
        min_token_storage_cost(
            initial_storage_usage,
            probe_storage_usage,
            byte_len(one_owner),
        )->0 - min_token_storage_cost(
            initial_storage_usage,
            probe_storage_usage,
            byte_len(other_owner),
        )->0 == byte_len(one_owner) - byte_len(other_owner),
{
}

/// A promotion is accepted exactly when the signer is a guest whose balance
/// exceeds the sponsor fee, and the request leaves the ledger as it was.
pub proof fn law_upgrade_needs_balance_above_fee(s: ContractView, ctx: CallContextView)
    ensures
        s.upgrade_refusal(ctx) is None <==> s.guests.contains_key(ctx.signer_account_pk)
            && s.guests[ctx.signer_account_pk].balance > SPONSOR_FEE,
        s.step(Operation::UpgradeGuest { ctx }) == s,
{
}

/// The completion of a promotion removes the guest when the host reports a
/// success, and nothing else; when the host reports anything else, the
/// ledger, with the guest's balance and mints, stays as it was.
pub proof fn law_completion_follows_outcome(
    s: ContractView,
    public_key: Seq<u8>,
    outcomes: Seq<PromiseOutcome>,
)
    ensures
        promise_success(outcomes) == Ok::<bool, ContractError>(true) ==> {
            let t = s.step(Operation::OnAccountCreated { public_key, outcomes });
            &&& !t.guests.contains_key(public_key)
            &&& t.guests == s.guests.remove(public_key)
            &&& t == (ContractView { guests: t.guests, ..s })
        },
        promise_success(outcomes) != Ok::<bool, ContractError>(true) ==> s.step(
            Operation::OnAccountCreated { public_key, outcomes },
        ) == s,
{
}

/// Looking a guest up before and after a promotion: the request changes
/// nothing of what the lookup returns, and after a completion that the host
/// reports as a success the lookup fails because there is no guest. A second
/// completion of the same kind changes nothing more.
pub proof fn law_lookup_around_upgrade(
    s: ContractView,
    ctx: CallContextView,
    outcomes: Seq<PromiseOutcome>,
)
    requires
        promise_success(outcomes) == Ok::<bool, ContractError>(true),
    ensures
        s.step(Operation::UpgradeGuest { ctx }).guest(ctx.signer_account_pk) == s.guest(
            ctx.signer_account_pk,
        ),
        ({
            let done = s.step(
                Operation::OnAccountCreated { public_key: ctx.signer_account_pk, outcomes },
            );
            &&& done.guest(ctx.signer_account_pk) == Err::<crate::types::GuestView, _>(
                ContractError::GuestNotFound,
            )
            &&& done.step(
                Operation::OnAccountCreated { public_key: ctx.signer_account_pk, outcomes },
            ) == done
        }),
{
    let done = s.step(Operation::OnAccountCreated { public_key: ctx.signer_account_pk, outcomes });
    assert(done.guests.remove(ctx.signer_account_pk) =~= done.guests);
}

} // verus!
