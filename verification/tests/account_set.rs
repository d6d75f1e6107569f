use tenderbox::account_set::AccountSet;

fn id(text: &str) -> String {
    text.to_string()
}

fn sorted(mut ids: Vec<String>) -> Vec<String> {
    ids.sort();
    ids
}

#[test]
fn new_set_is_empty() {
    let set = AccountSet::new();
    assert_eq!(set.len(), 0);
    assert!(!set.contains(&id("alice")));
    assert!(set.to_vec().is_empty());
}

#[test]
fn insert_says_whether_the_account_is_new() {
    let mut set = AccountSet::new();
    assert!(set.insert(&id("alice")));
    assert!(set.insert(&id("bob")));
    assert!(!set.insert(&id("alice")));
    assert_eq!(set.len(), 2);
    assert!(set.contains(&id("alice")));
    assert!(set.contains(&id("bob")));
    assert!(!set.contains(&id("carol")));
}

#[test]
fn remove_says_whether_the_account_was_there() {
    let mut set = AccountSet::from_vec(vec![id("alice"), id("bob"), id("carol")]);
    assert!(set.remove(&id("bob")));
    assert!(!set.remove(&id("bob")));
    assert!(!set.remove(&id("dave")));
    assert_eq!(set.len(), 2);
    assert_eq!(sorted(set.to_vec()), vec![id("alice"), id("carol")]);
    assert!(set.remove(&id("alice")));
    assert!(set.remove(&id("carol")));
    assert_eq!(set.len(), 0);
}

#[test]
fn from_vec_holds_each_account_once() {
    let set = AccountSet::from_vec(vec![id("b"), id("a"), id("b"), id("b"), id("c"), id("a")]);
    assert_eq!(set.len(), 3);
    assert_eq!(sorted(set.to_vec()), vec![id("a"), id("b"), id("c")]);
}

#[test]
fn accounts_are_told_apart_by_their_text() {
    let mut set = AccountSet::new();
    assert!(set.insert(&id("shop")));
    assert!(set.insert(&id("shop1")));
    assert!(set.insert(&id("Shop")));
    assert!(set.insert(&id("")));
    assert_eq!(set.len(), 4);
    assert!(set.remove(&id("")));
    assert!(!set.contains(&id("")));
    assert!(set.contains(&id("shop")));
}
