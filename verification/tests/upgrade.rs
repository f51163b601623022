use nft_simple::account::ValidAccountId;
use nft_simple::contract::Contract;
use nft_simple::error::ContractError;
use nft_simple::host::{
    AccountAction, AccountCreatedCallback, CallContext, PromiseOutcome, UpgradeRequest,
};
use nft_simple::types::{
    Guest, ACCESS_KEY_ALLOWANCE, NO_DEPOSIT, ON_CREATE_ACCOUNT_CALLBACK_GAS, SPONSOR_FEE,
};
use nft_simple::upgrade::{is_promise_success, ExtContract};

const OWNER: &str = "owner.test";
const LEDGER: &str = "nft.test";
const GUEST: &str = "guest.test";

fn guest_key() -> Vec<u8> {
    vec![0u8, 1, 2, 3]
}

fn full_key() -> Vec<u8> {
    vec![0u8, 10, 11]
}

fn access_key() -> Vec<u8> {
    vec![0u8, 20, 21]
}

fn by_guest() -> CallContext {
    CallContext {
        signer_account_pk: guest_key(),
        predecessor_account_id: GUEST.to_string(),
        current_account_id: LEDGER.to_string(),
    }
}

fn ledger_with_balance(balance: u128) -> Contract {
    let owner = ValidAccountId::new(OWNER.to_string()).unwrap();
    let mut contract = Contract::new(owner, false, 0, 100).unwrap();
    assert_eq!(contract.extra_storage_in_bytes_per_token, 46);
    contract.guests.insert(
        guest_key(),
        Guest { account_id: GUEST.to_string(), mints: 2, balance },
    );
    contract
}

fn request(contract: &mut Contract) -> Result<UpgradeRequest, ContractError> {
    contract.upgrade_guest(&by_guest(), full_key(), access_key(), "nft_transfer,nft_mint".to_string())
}

#[test]
fn one_successful_outcome_is_a_success() {
    assert_eq!(is_promise_success(&vec![PromiseOutcome::Successful(vec![])]), Ok(true));
    assert_eq!(is_promise_success(&vec![PromiseOutcome::Successful(vec![1, 2])]), Ok(true));
}

#[test]
fn one_other_outcome_is_no_success() {
    assert_eq!(is_promise_success(&vec![PromiseOutcome::Failed]), Ok(false));
    assert_eq!(is_promise_success(&vec![PromiseOutcome::NotReady]), Ok(false));
}

#[test]
fn no_outcome_or_several_is_an_error() {
    assert_eq!(is_promise_success(&vec![]), Err(ContractError::UnexpectedResultCount));
    assert_eq!(
        is_promise_success(&vec![PromiseOutcome::Successful(vec![]), PromiseOutcome::Failed]),
        Err(ContractError::UnexpectedResultCount)
    );
}

#[test]
fn the_request_creates_the_account_in_four_steps_and_calls_back() {
    let mut contract = ledger_with_balance(SPONSOR_FEE + 42);
    let request = request(&mut contract).unwrap();
    assert_eq!(
        request,
        UpgradeRequest {
            account_id: GUEST.to_string(),
            actions: vec![
                AccountAction::CreateAccount,
                AccountAction::AddFullAccessKey { public_key: full_key() },
                AccountAction::AddAccessKey {
                    public_key: access_key(),
                    allowance: ACCESS_KEY_ALLOWANCE,
                    receiver_id: LEDGER.to_string(),
                    method_names: b"nft_transfer,nft_mint".to_vec(),
                },
                AccountAction::Transfer { amount: 42 },
            ],
            callback: AccountCreatedCallback {
                receiver_id: LEDGER.to_string(),
                account_id: GUEST.to_string(),
                public_key: guest_key(),
                deposit: NO_DEPOSIT,
                gas: ON_CREATE_ACCOUNT_CALLBACK_GAS,
            },
        }
    );
}

#[test]
fn the_request_leaves_the_guest_as_it_was() {
    let mut contract = ledger_with_balance(SPONSOR_FEE + 42);
    request(&mut contract).unwrap();
    assert_eq!(
        contract.get_guest(guest_key()),
        Ok(Guest { account_id: GUEST.to_string(), mints: 2, balance: SPONSOR_FEE + 42 })
    );
}

#[test]
fn the_fee_is_one_hundred() {
    assert_eq!(SPONSOR_FEE, 100);
    let mut contract = ledger_with_balance(100);
    assert_eq!(request(&mut contract).err(), Some(ContractError::NotEnoughToUpgrade));
    let mut contract = ledger_with_balance(101);
    assert_eq!(request(&mut contract).unwrap().actions[3], AccountAction::Transfer { amount: 1 });
    let mut contract = ledger_with_balance(u128::MAX);
    assert_eq!(
        request(&mut contract).unwrap().actions[3],
        AccountAction::Transfer { amount: u128::MAX - 100 }
    );
}

#[test]
fn a_balance_equal_to_the_fee_is_not_enough() {
    let mut contract = ledger_with_balance(SPONSOR_FEE);
    assert_eq!(request(&mut contract).err(), Some(ContractError::NotEnoughToUpgrade));
    let mut contract = ledger_with_balance(0);
    assert_eq!(request(&mut contract).err(), Some(ContractError::NotEnoughToUpgrade));
    let mut contract = ledger_with_balance(SPONSOR_FEE + 1);
    let accepted = request(&mut contract).unwrap();
    assert_eq!(accepted.actions[3], AccountAction::Transfer { amount: 1 });
}

#[test]
fn a_stranger_cannot_request_a_promotion() {
    let mut contract = ledger_with_balance(SPONSOR_FEE * 2);
    let stranger = CallContext {
        signer_account_pk: vec![9u8, 9],
        predecessor_account_id: "stranger.test".to_string(),
        current_account_id: LEDGER.to_string(),
    };
    let r = contract.upgrade_guest(&stranger, full_key(), access_key(), String::new());
    assert_eq!(r.err(), Some(ContractError::NoGuest));
}

#[test]
fn a_guest_at_the_quota_can_still_be_promoted() {
    let mut contract = ledger_with_balance(SPONSOR_FEE * 2);
    contract.guests.insert(
        guest_key(),
        Guest { account_id: GUEST.to_string(), mints: 3, balance: SPONSOR_FEE * 2 },
    );
    assert!(request(&mut contract).is_ok());
}

#[test]
fn a_confirmed_creation_removes_the_guest() {
    let mut contract = ledger_with_balance(SPONSOR_FEE * 2);
    let r = contract.on_account_created(
        GUEST.to_string(),
        guest_key(),
        &vec![PromiseOutcome::Successful(vec![])],
    );
    assert_eq!(r, Ok(true));
    assert_eq!(contract.get_guest(guest_key()), Err(ContractError::GuestNotFound));
    assert_eq!(contract.guests.len(), 0);
}

#[test]
fn a_failed_creation_keeps_the_guest() {
    let mut contract = ledger_with_balance(SPONSOR_FEE * 2);
    let r = contract.on_account_created(GUEST.to_string(), guest_key(), &vec![PromiseOutcome::Failed]);
    assert_eq!(r, Ok(false));
    assert_eq!(
        contract.get_guest(guest_key()),
        Ok(Guest { account_id: GUEST.to_string(), mints: 2, balance: SPONSOR_FEE * 2 })
    );
}

#[test]
fn a_callback_without_outcome_changes_nothing() {
    let mut contract = ledger_with_balance(SPONSOR_FEE * 2);
    let r = contract.on_account_created(GUEST.to_string(), guest_key(), &vec![]);
    assert_eq!(r, Err(ContractError::UnexpectedResultCount));
    assert!(contract.get_guest(guest_key()).is_ok());
}

#[test]
fn a_second_confirmation_finds_nothing_to_remove() {
    let mut contract = ledger_with_balance(SPONSOR_FEE * 2);
    let outcomes = vec![PromiseOutcome::Successful(vec![])];
    assert_eq!(contract.on_account_created(GUEST.to_string(), guest_key(), &outcomes), Ok(true));
    assert_eq!(contract.on_account_created(GUEST.to_string(), guest_key(), &outcomes), Ok(true));
    assert_eq!(contract.guests.len(), 0);
}

#[test]
fn the_callback_interface_serves_the_same_completion() {
    let mut contract = ledger_with_balance(SPONSOR_FEE * 2);
    let r = ExtContract::on_account_created(
        &mut contract,
        GUEST.to_string(),
        guest_key(),
        &vec![PromiseOutcome::Successful(vec![])],
    );
    assert_eq!(r, Ok(true));
    assert_eq!(contract.get_guest(guest_key()), Err(ContractError::GuestNotFound));
}
