use ats::text::{clone_opt, decimal, joined, joined3, push_decimal, split_once};
use ats::utils::aws::{resolve_profile, resolve_region};

#[test]
fn decimal_numerals() {
    assert_eq!(decimal(0), "0");
    assert_eq!(decimal(7), "7");
    assert_eq!(decimal(10), "10");
    assert_eq!(decimal(1234567890), "1234567890");
    assert_eq!(decimal(u64::MAX as u128), "18446744073709551615");
    assert_eq!(decimal(u128::MAX), "340282366920938463463374607431768211455");
}

#[test]
fn push_decimal_appends() {
    let mut text = "n=".to_string();
    push_decimal(&mut text, 405);
    assert_eq!(text, "n=405");
    push_decimal(&mut text, 0);
    assert_eq!(text, "n=4050");
}

#[test]
fn split_once_at_the_first_separator() {
    assert_eq!(split_once("name|uri", '|'), ("name".to_string(), Some("uri".to_string())));
    assert_eq!(split_once("a|b|c", '|'), ("a".to_string(), Some("b|c".to_string())));
    assert_eq!(split_once("plain", '|'), ("plain".to_string(), None));
    assert_eq!(split_once("", '|'), (String::new(), None));
    assert_eq!(split_once("|", '|'), (String::new(), Some(String::new())));
    assert_eq!(split_once("tail|", '|'), ("tail".to_string(), Some(String::new())));
    assert_eq!(split_once("|head", '|'), (String::new(), Some("head".to_string())));
    assert_eq!(split_once("h\u{e9}|\u{fc}", '|'), ("h\u{e9}".to_string(), Some("\u{fc}".to_string())));
}

#[test]
fn joined_texts_and_copies() {
    assert_eq!(joined("ab", "cd"), "abcd");
    assert_eq!(joined("", ""), "");
    assert_eq!(joined3("a", "|", "b"), "a|b");
    assert_eq!(clone_opt(&Some("x".to_string())), Some("x".to_string()));
    assert_eq!(clone_opt(&None), None);
}

#[test]
fn profile_comes_from_flag_then_environment_then_default() {
    assert_eq!(resolve_profile(Some("flag".to_string()), Some("env".to_string())), "flag");
    assert_eq!(resolve_profile(None, Some("env".to_string())), "env");
    assert_eq!(resolve_profile(None, None), "default");
}

#[test]
fn region_comes_from_flag_then_environment_then_default() {
    let s = |t: &str| Some(t.to_string());
    assert_eq!(resolve_region(s("flag"), s("env"), s("fallback")), "flag");
    assert_eq!(resolve_region(None, s("env"), s("fallback")), "env");
    assert_eq!(resolve_region(None, None, s("fallback")), "fallback");
    assert_eq!(resolve_region(None, None, None), "us-east-1");
}
