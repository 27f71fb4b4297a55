use enseada::error::ErrorKind;
use enseada::scope::Scope;

#[test]
fn scope_matches_subset() {
    let granted = Scope::from("profile email users:read");
    assert!(Scope::from("users:read").matches(&granted).is_ok());
    assert!(Scope::from("email profile").matches(&granted).is_ok());
    let err = Scope::from("users:manage").matches(&granted).unwrap_err();
    assert_eq!(*err.kind(), ErrorKind::InvalidScope);
}

#[test]
fn empty_scope_matches_anything() {
    assert!(Scope::from("").matches(&Scope::from("")).is_ok());
    assert!(Scope::from("").matches(&Scope::from("x y")).is_ok());
}

#[test]
fn scope_does_not_match_empty() {
    assert!(Scope::from("x").matches(&Scope::from("")).is_err());
}

#[test]
fn scope_equality_is_by_set() {
    assert!(Scope::from("a b") == Scope::from("b  a a"));
    assert!(Scope::from("a b") != Scope::from("a"));
}

#[test]
fn scope_to_string_joins_tokens() {
    assert_eq!(Scope::from("  profile   email profile ").to_string(), "profile email");
    assert_eq!(Scope::from(vec!["profile", "email"]).to_string(), "profile email");
    assert_eq!(Scope::from("").to_string(), "");
}

#[test]
fn scope_contains() {
    let s = Scope::from(vec!["a b", "c"]);
    assert!(s.contains("a") && s.contains("b") && s.contains("c"));
    assert!(!s.contains("a b"));
}
