use tenderbox::context::Context;
use tenderbox::verify_tender::{RegistryError, VerifyTenderContract};

fn account_tenderbox() -> String {
    "tenderbox".to_string()
}

fn account_near() -> String {
    account_tenderbox()
}

fn account_verified() -> String {
    "verify-tender".to_string()
}

fn account_factory() -> String {
    "factory".to_string()
}

fn account_tenderfactory() -> String {
    account_factory()
}

fn account_tender() -> String {
    "tender.factory".to_string()
}

fn account_pool() -> String {
    account_tender()
}

fn context(current: String, predecessor: String) -> Context {
    Context { current_account_id: current, predecessor_account_id: predecessor, attached_deposit: 0 }
}

#[test]
fn test_verified() {
    let context = context(account_verified(), account_tenderbox());

    let mut contract = VerifyTenderContract::new(false, account_near()).unwrap();

    // Check initial list of verified tenders
    assert!(!contract.is_verified(account_tender()).unwrap());

    // Adding to verified list by foundation
    assert!(contract.add_tender(&context, account_tender()).unwrap());

    // Checking it's verified now
    assert!(contract.is_verified(account_tender()).unwrap());

    // Adding again. Should return false
    assert!(!contract.add_tender(&context, account_tender()).unwrap());

    // Checking the tender is still verified
    assert!(contract.is_verified(account_pool()).unwrap());

    // Removing from the list of verified tenders.
    assert!(contract.remove_tender(&context, account_tender()).unwrap());

    // Checking the tender is not verified anymore
    assert!(!contract.is_verified(account_pool()).unwrap());

    // Removing again, should return false.
    assert!(!contract.remove_tender(&context, account_tender()).unwrap());

    // Checking the tender is still not verified
    assert!(!contract.is_verified(account_pool()).unwrap());

    // Adding again after it was removed. Should return true
    assert!(contract.add_tender(&context, account_tender()).unwrap());

    // Checking the tender is now verified again
    assert!(contract.is_verified(account_pool()).unwrap());
}

#[test]
fn test_factory_verified_fail() {
    let mut context = context(account_verified(), account_tenderbox());

    let mut contract = VerifyTenderContract::new(false, account_tenderbox()).unwrap();

    // Trying to add to the verified list by a factory that is not verified.
    context.predecessor_account_id = account_factory();
    let refused = contract.add_tender(&context, account_tender());
    assert_eq!(refused, Err(RegistryError::Unauthorized));
    assert_eq!(
        RegistryError::Unauthorized.message(),
        "Can only be called by the Tenderbox Foundation"
    );
    assert!(!contract.is_verified(account_tender()).unwrap());
}

#[test]
fn test_trying_to_verify_factory() {
    let mut context = context(account_verified(), account_tenderbox());

    let mut contract = VerifyTenderContract::new(false, account_tenderbox()).unwrap();

    // Trying to verify the factory, not asked for by the foundation.
    context.predecessor_account_id = account_tenderfactory();
    let refused = contract.add_factory(&context, account_tenderfactory());
    assert_eq!(refused, Err(RegistryError::Unauthorized));
    assert!(!contract.is_factory_verified(account_tenderfactory()).unwrap());
}

#[test]
fn test_trying_to_remove_by_factory() {
    let mut context = context(account_verified(), account_tenderbox());

    let mut contract = VerifyTenderContract::new(false, account_tenderbox()).unwrap();

    // Adding factory
    assert!(contract.add_factory(&context, account_factory()).unwrap());

    // Trying to remove the tender by the factory.
    context.predecessor_account_id = account_factory();
    let refused = contract.remove_tender(&context, account_tender());
    assert_eq!(refused, Err(RegistryError::Unauthorized));
}

#[test]
fn test_verified_factory() {
    let mut context = context(account_verified(), account_tenderbox());

    let mut contract = VerifyTenderContract::new(false, account_tenderbox()).unwrap();

    // Check the factory is not verified
    assert!(!contract.is_factory_verified(account_factory()).unwrap());

    // Verify the factory
    assert!(contract.add_factory(&context, account_factory()).unwrap());

    // Check the factory is verified now
    assert!(contract.is_factory_verified(account_factory()).unwrap());
    // Check the tender is not verified
    assert!(!contract.is_verified(account_tender()).unwrap());

    // Adding to the list of verified tenders by the factory
    context.predecessor_account_id = account_factory();
    assert!(contract.add_tender(&context, account_tender()).unwrap());

    // Checking it's verified now
    assert!(contract.is_verified(account_pool()).unwrap());

    // Removing the tender from the list of verified tenders by the foundation.
    context.predecessor_account_id = account_tenderbox();
    assert!(contract.remove_tender(&context, account_tender()).unwrap());

    // Checking the tender is not verified anymore
    assert!(!contract.is_verified(account_tender()).unwrap());

    // Removing the factory
    assert!(contract.remove_factory(&context, account_factory()).unwrap());

    // Check the factory is not verified anymore
    assert!(!contract.is_factory_verified(account_factory()).unwrap());
}
