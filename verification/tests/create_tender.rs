use std::convert::TryInto;

use near_sdk::json_types::Base58PublicKey;
use tenderbox::context::Context;
use tenderbox::chain::Settlement;
use tenderbox::create_tender::{FactoryError, TenderFactory, MIN_ATTACHED_BALANCE};

fn account_tenderbox() -> String {
    "tenderbox".to_string()
}

fn account_factory() -> String {
    "factory".to_string()
}

fn account_verify_tender() -> String {
    "verify-tender".to_string()
}

fn account_verify() -> String {
    account_verify_tender()
}

fn account_tokens_owner() -> String {
    "tokens-owner".to_string()
}

fn account_tender_owner() -> String {
    "tender-owner".to_string()
}

fn tender_id() -> String {
    "tender".to_string()
}

fn tender_registration_id() -> String {
    tender_id()
}

fn account_pool() -> String {
    "tender.factory".to_string()
}

fn ntoy(near_amount: u128) -> u128 {
    near_amount * 10u128.pow(24)
}

fn public_key(text: &str) -> Vec<u8> {
    let key: Base58PublicKey = text.try_into().unwrap();
    key.0
}

fn context(current: String, predecessor: String) -> Context {
    Context { current_account_id: current, predecessor_account_id: predecessor, attached_deposit: 0 }
}

#[test]
fn test_create_tender_success() {
    let mut context = context(account_factory(), account_tenderbox());

    let mut contract = TenderFactory::new(false, account_verify_tender()).unwrap();

    assert_eq!(contract.get_min_attached_balance(), MIN_ATTACHED_BALANCE);
    assert_eq!(contract.get_number_of_tenders_created(), 0);

    context.predecessor_account_id = account_tokens_owner();
    context.attached_deposit = ntoy(31);
    let chain = contract
        .create_tender(
            &context,
            tender_id(),
            account_tender_owner(),
            public_key("KuTCtARNzxZQ3YvXDeLjx83FDqxv2SdQTSbiq876zR7"),
            "proposal".to_string(),
            "product".to_string(),
            7,
            3,
            "industry".to_string(),
            "location".to_string(),
        )
        .unwrap();
    assert_eq!(chain.tender_account_id, account_pool());

    context.predecessor_account_id = account_factory();
    context.attached_deposit = ntoy(0);
    let settled = contract
        .on_tender_create(&context, true, account_pool(), ntoy(31), account_tokens_owner())
        .unwrap();
    assert!(matches!(settled, Settlement::Committed { .. }));

    assert_eq!(contract.get_number_of_tenders_created(), 1);
}

#[test]
fn test_create_tender_not_enough_deposit() {
    let mut context = context(account_factory(), account_tenderbox());

    let mut contract = TenderFactory::new(false, account_verify_tender()).unwrap();

    assert_eq!(contract.get_min_attached_balance(), MIN_ATTACHED_BALANCE);
    assert_eq!(contract.get_number_of_tenders_created(), 0);

    context.predecessor_account_id = account_tokens_owner();
    context.attached_deposit = ntoy(20);
    let refused = contract.create_tender(
        &context,
        tender_registration_id(),
        account_tender_owner(),
        public_key("KuTCtARNzxZQ3YvXDeLjx83FDqxv2SdQTSbiq876zR7"),
        "proposal".to_string(),
        "product".to_string(),
        7,
        3,
        "industry".to_string(),
        "location".to_string(),
    );
    assert_eq!(refused, Err(FactoryError::InsufficientDeposit));
    assert_eq!(
        FactoryError::InsufficientDeposit.message(),
        "Not enough attached deposit to issue the tender"
    );
    assert_eq!(contract.get_number_of_tenders_created(), 0);
}

#[test]
fn test_create_tender_rollback() {
    let mut context = context(account_factory(), account_tenderbox());

    let mut contract = TenderFactory::new(false, account_verify()).unwrap();

    assert_eq!(contract.get_min_attached_balance(), MIN_ATTACHED_BALANCE);
    assert_eq!(contract.get_number_of_tenders_created(), 0);

    context.predecessor_account_id = account_tokens_owner();
    context.attached_deposit = ntoy(31);
    contract
        .create_tender(
            &context,
            tender_registration_id(),
            account_tender_owner(),
            public_key("KuTCtARNzxZQ3YvXDeLjx83FDqxv2SdQTSbiq876zR7"),
            "proposal".to_string(),
            "product".to_string(),
            7,
            3,
            "industry".to_string(),
            "location".to_string(),
        )
        .unwrap();
    assert_eq!(contract.get_number_of_tenders_created(), 1);

    context.predecessor_account_id = account_factory();
    context.attached_deposit = ntoy(0);
    let res = contract
        .on_tender_create(&context, false, account_pool(), ntoy(31), account_tokens_owner())
        .unwrap();
    match res.value() {
        None => panic!("Unexpected result, should return Value(false)"),
        Some(value) => assert!(!value),
    };
    assert_eq!(
        res,
        Settlement::Compensated {
            tender_account_id: account_pool(),
            predecessor_account_id: account_tokens_owner(),
            attached_deposit: ntoy(31),
        }
    );

    assert_eq!(contract.get_number_of_tenders_created(), 0);
}
