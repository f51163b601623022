use nft_simple::account::ValidAccountId;
use nft_simple::contract::Contract;
use nft_simple::error::ContractError;
use nft_simple::host::{AccountAction, CallContext, MarketRequest, PromiseOutcome};
use nft_simple::types::{Guest, SPONSOR_FEE};

const OWNER: &str = "owner.test";
const LEDGER: &str = "nft.test";
const GUEST: &str = "guest.test";
const MARKET: &str = "market.test";

fn account(name: &str) -> ValidAccountId {
    ValidAccountId::new(name.to_string()).unwrap()
}

fn guest_key() -> Vec<u8> {
    let mut key = vec![0u8];
    key.extend(std::iter::repeat(7u8).take(32));
    key
}

fn by_owner() -> CallContext {
    CallContext {
        signer_account_pk: vec![0u8; 33],
        predecessor_account_id: OWNER.to_string(),
        current_account_id: LEDGER.to_string(),
    }
}

fn by_guest() -> CallContext {
    CallContext {
        signer_account_pk: guest_key(),
        predecessor_account_id: LEDGER.to_string(),
        current_account_id: LEDGER.to_string(),
    }
}

fn ledger_with_guest() -> Contract {
    let mut contract = Contract::new(account(OWNER), false, 1000, 1200).unwrap();
    contract.add_guest(&by_owner(), GUEST.to_string(), guest_key()).unwrap();
    contract
}

/// A ledger whose guest holds a balance of 200.
fn ledger_with_funded_guest() -> Contract {
    let mut contract = ledger_with_guest();
    contract.guests.insert(
        guest_key(),
        Guest { account_id: GUEST.to_string(), mints: 1, balance: 200 },
    );
    contract
}

#[test]
fn three_mints_are_sponsored_and_the_fourth_is_refused() {
    let mut contract = ledger_with_guest();
    assert_eq!(contract.get_guest(guest_key()).unwrap().balance, 0);
    for name in ["tok1", "tok2", "tok3"] {
        let r = contract.nft_mint_guest(&by_guest(), name.to_string(), "meta".to_string());
        assert_eq!(r, Ok(()));
    }
    let fourth = contract.nft_mint_guest(&by_guest(), "tok4".to_string(), "meta".to_string());
    assert_eq!(fourth, Err(ContractError::MintLimitExceeded));
    assert_eq!(contract.get_guest(guest_key()).unwrap().mints, 3);
    assert_eq!(contract.total_supply, 3);
    assert!(!contract.tokens_by_id.contains_key(&"tok4".to_string()));
    // The quota is checked before the name: a name that exists is refused
    // for the quota too.
    let again = contract.nft_mint_guest(&by_guest(), "tok1".to_string(), "meta".to_string());
    assert_eq!(again, Err(ContractError::MintLimitExceeded));
    assert_eq!(contract.get_guest(guest_key()).unwrap().mints, 3);
}

#[test]
fn a_token_is_listed_once_and_withdrawn_once() {
    let mut contract = ledger_with_guest();
    contract.nft_mint_guest(&by_guest(), "tok1".to_string(), "meta".to_string()).unwrap();

    let listed = contract.nft_add_sale_guest(&by_guest(), "tok1".to_string(), 1, account(MARKET), 10);
    assert!(matches!(listed, Ok(MarketRequest::AddSale { deposit: 10, .. })));
    assert_eq!(contract.tokens_by_id.get(&"tok1".to_string()).unwrap().approved_account_ids.len(), 1);

    let second = contract.nft_add_sale_guest(&by_guest(), "tok1".to_string(), 1, account(MARKET), 10);
    assert_eq!(second.err(), Some(ContractError::AlreadyListed));
    assert_eq!(contract.tokens_by_id.get(&"tok1".to_string()).unwrap().approved_account_ids.len(), 1);

    let withdrawn = contract.nft_remove_sale_guest(&by_guest(), "tok1".to_string(), account(MARKET));
    assert!(matches!(withdrawn, Ok(MarketRequest::RemoveSale { deposit: 0, .. })));
    assert_eq!(contract.tokens_by_id.get(&"tok1".to_string()).unwrap().approved_account_ids.len(), 0);

    let again = contract.nft_remove_sale_guest(&by_guest(), "tok1".to_string(), account(MARKET));
    assert_eq!(again.err(), Some(ContractError::NoSale));
    assert_eq!(ContractError::NoSale.message(), "No sale at market");
    assert_eq!(contract.tokens_by_id.get(&"tok1".to_string()).unwrap().approved_account_ids.len(), 0);
}

#[test]
fn a_failed_creation_leaves_the_guest_with_balance_and_mints() {
    let mut contract = ledger_with_funded_guest();
    let request = contract
        .upgrade_guest(&by_guest(), vec![0u8, 1], vec![0u8, 2], "nft_transfer".to_string())
        .unwrap();
    assert_eq!(SPONSOR_FEE, 100);
    assert_eq!(request.account_id, GUEST);
    assert_eq!(request.actions.len(), 4);
    assert_eq!(request.actions[0], AccountAction::CreateAccount);
    assert_eq!(request.actions[3], AccountAction::Transfer { amount: 100 });
    assert_eq!(request.callback.public_key, guest_key());

    let reported = contract.on_account_created(
        request.callback.account_id,
        request.callback.public_key,
        &vec![PromiseOutcome::Failed],
    );
    assert_eq!(reported, Ok(false));
    assert_eq!(
        contract.get_guest(guest_key()),
        Ok(Guest { account_id: GUEST.to_string(), mints: 1, balance: 200 })
    );
}

#[test]
fn a_confirmed_creation_ends_the_guest() {
    let mut contract = ledger_with_funded_guest();
    let before = contract.get_guest(guest_key()).unwrap();
    let request = contract
        .upgrade_guest(&by_guest(), vec![0u8, 1], vec![0u8, 2], "nft_transfer".to_string())
        .unwrap();
    assert_eq!(contract.get_guest(guest_key()), Ok(before));

    let reported = contract.on_account_created(
        request.callback.account_id,
        request.callback.public_key,
        &vec![PromiseOutcome::Successful(vec![])],
    );
    assert_eq!(reported, Ok(true));
    assert_eq!(contract.get_guest(guest_key()), Err(ContractError::GuestNotFound));
    assert_eq!(ContractError::GuestNotFound.message(), "no guest");
    // A promotion can no longer be requested for the key.
    let later = contract.upgrade_guest(&by_guest(), vec![0u8, 1], vec![0u8, 2], String::new());
    assert_eq!(later.err(), Some(ContractError::NoGuest));
}
