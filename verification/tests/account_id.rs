use tenderbox::account_id::{has_namespace_separator, is_well_formed, NAMESPACE_SEPARATOR};

#[test]
fn separator_is_a_dot() {
    assert_eq!(NAMESPACE_SEPARATOR, '.');
}

#[test]
fn well_formed_accounts() {
    for id in [
        "aa",
        "a-a",
        "a-aa",
        "100",
        "0o",
        "com",
        "near",
        "bowen",
        "b-o_w_e-n",
        "b.owen",
        "bro.wen",
        "a.ha",
        "a.b-a.ra",
        "system",
        "over.9000",
        "google.com",
        "illia.cheapaccounts.near",
        "0o0ooo00oo00o",
        "alex-skidanov",
        "10-4.8-2",
        "no_lols",
        "0123456789012345678901234567890123456789012345678901234567890123",
        "near.a",
        "a.a",
    ] {
        assert!(is_well_formed(id), "{:?}", id);
    }
}

#[test]
fn malformed_accounts() {
    for id in [
        "",
        "a",
        "A",
        "Abc",
        "-near",
        "near-",
        "-near-",
        "near.",
        ".near",
        "near@",
        "@near",
        "неар",
        "@@@@@",
        "0__0",
        "0_-_0",
        "..",
        "a..near",
        "nEar",
        "_bowen",
        "hello world",
        "abcdefghijklmnopqrstuvwxyz.abcdefghijklmnopqrstuvwxyz.abcdefghijklmnopqrstuvwxyz",
        "01234567890123456789012345678901234567890123456789012345678901234",
        "some-complex-address@gmail.com",
        "sub.buy_d1gitz@atata@b0-rg.c_0_m",
        "é",
        "aé",
        "a\u{0}",
        "a{",
        "a`a",
        "a/a",
        "a:a",
    ] {
        assert!(!is_well_formed(id), "{:?}", id);
    }
}

#[test]
fn length_is_counted_from_2_to_64() {
    assert!(!is_well_formed(&"a".repeat(1)));
    assert!(is_well_formed(&"a".repeat(2)));
    assert!(is_well_formed(&"a".repeat(64)));
    assert!(!is_well_formed(&"a".repeat(65)));
}

#[test]
fn every_allowed_character() {
    assert!(is_well_formed("abcdefghijklmnopqrstuvwxyz"));
    assert!(is_well_formed("0123456789"));
    assert!(is_well_formed("a-b_c.d"));
}

#[test]
fn finds_the_separator() {
    assert!(!has_namespace_separator(""));
    assert!(!has_namespace_separator("shop1"));
    assert!(!has_namespace_separator("shop-1_x"));
    assert!(has_namespace_separator("."));
    assert!(has_namespace_separator(".shop"));
    assert!(has_namespace_separator("shop."));
    assert!(has_namespace_separator("sh.op"));
    assert!(has_namespace_separator("shöp.é"));
    assert!(!has_namespace_separator("shöp"));
}
