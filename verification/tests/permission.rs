use accounter::{AuthError, Permission};

#[test]
fn new_keeps_both_fields() {
    let permission = Permission::new("demo_feature", "read");
    assert_eq!(permission.namespace, "demo_feature");
    assert_eq!(permission.name, "read");
}

#[test]
fn new_does_not_swap_fields() {
    let permission = Permission::new("read", "demo_feature");
    assert_eq!(permission.namespace, "read");
    assert_eq!(permission.name, "demo_feature");
}

#[test]
fn new_accepts_empty_strings() {
    let permission = Permission::new("", "");
    assert_eq!(permission.namespace, "");
    assert_eq!(permission.name, "");
    assert!(permission == Permission::new("", ""));
    assert!(permission != Permission::new("", "read"));
    assert!(permission != Permission::new("docs", ""));
}

#[test]
fn equal_fields_compare_equal() {
    let first = Permission::new("docs", "read");
    let second = Permission::new("docs", "read");
    assert!(first == second);
    assert!(!(first != second));
    assert!(second == first);
    assert!(first == first);
}

#[test]
fn equality_looks_at_content_not_at_storage() {
    let namespace = String::from("do") + "cs";
    let name = ["re", "ad"].concat();
    let built = Permission::new(namespace.as_str(), name.as_str());
    let literal = Permission::new("docs", "read");
    assert!(built == literal);
    assert!(literal == built);
}

#[test]
fn differing_namespace_compares_unequal() {
    let first = Permission::new("docs", "read");
    let second = Permission::new("mail", "read");
    assert!(first != second);
    assert!(!(first == second));
}

#[test]
fn differing_name_compares_unequal() {
    let first = Permission::new("docs", "read");
    let second = Permission::new("docs", "edit");
    assert!(first != second);
    assert!(!(first == second));
}

#[test]
fn both_fields_differing_compares_unequal() {
    assert!(Permission::new("docs", "read") != Permission::new("mail", "send"));
}

#[test]
fn swapped_fields_compare_unequal() {
    assert!(Permission::new("docs", "read") != Permission::new("read", "docs"));
}

#[test]
fn a_prefix_is_another_permission() {
    assert!(Permission::new("doc", "read") != Permission::new("docs", "read"));
    assert!(Permission::new("docs", "read") != Permission::new("docs", "readme"));
    assert!(Permission::new("docs", "") != Permission::new("docs", "r"));
}

#[test]
fn a_difference_in_the_last_byte_is_seen() {
    assert!(Permission::new("docs", "reaD") != Permission::new("docs", "read"));
    assert!(Permission::new("docS", "read") != Permission::new("docs", "read"));
}

#[test]
fn comparison_is_case_sensitive() {
    assert!(Permission::new("Docs", "read") != Permission::new("docs", "read"));
    assert!(Permission::new("docs", "READ") != Permission::new("docs", "read"));
}

#[test]
fn comparison_normalizes_nothing() {
    // One character with an accent, against a plain letter followed by a
    // combining accent: they print alike and are different strings.
    assert!(Permission::new("caf\u{e9}", "read") != Permission::new("cafe\u{301}", "read"));
    assert!(Permission::new("docs", " read") != Permission::new("docs", "read"));
    assert!(Permission::new("docs", "read ") != Permission::new("docs", "read"));
}

#[test]
fn text_beyond_ascii_compares_by_content() {
    let first = Permission::new("\u{6587}\u{66f8}", "\u{8aad}\u{3080}");
    let second = Permission::new("\u{6587}\u{66f8}", "\u{8aad}\u{3080}");
    let third = Permission::new("\u{6587}\u{66f8}", "\u{66f8}\u{304f}");
    assert!(first == second);
    assert!(first != third);
}

#[test]
fn errors_print_their_names() {
    assert_eq!(format!("{:?}", AuthError::InvalidToken), "InvalidToken");
    assert_eq!(format!("{:?}", AuthError::DataError), "DataError");
}

#[test]
fn the_two_errors_are_told_apart() {
    assert!(matches!(AuthError::InvalidToken, AuthError::InvalidToken));
    assert!(!matches!(AuthError::InvalidToken, AuthError::DataError));
    assert!(matches!(AuthError::DataError, AuthError::DataError));
    assert!(!matches!(AuthError::DataError, AuthError::InvalidToken));
}
