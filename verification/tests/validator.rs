use liveo::utils::is_valid_identifier;
use liveo::error::ErrorKind;

fn accepts(name: &str) -> bool {
    is_valid_identifier(name, "test").is_ok()
}

#[test]
fn accepts_ordinary_identifiers() {
    assert!(accepts("orders"));
    assert!(accepts("_orders"));
    assert!(accepts("Orders_2"));
    assert!(accepts("a"));
    assert!(accepts("_"));
    assert!(accepts("A1_b2_C3"));
}

#[test]
fn accepts_identifier_of_maximum_length() {
    let name = "a".repeat(63);
    assert!(accepts(&name));
}

#[test]
fn rejects_empty_and_overlong_names() {
    assert!(!accepts(""));
    let name = "a".repeat(64);
    assert!(!accepts(&name));
}

#[test]
fn rejects_leading_digit() {
    assert!(!accepts("1orders"));
    assert!(!accepts("9_"));
}

#[test]
fn rejects_injection_shaped_input() {
    assert!(!accepts("orders; DROP TABLE users"));
    assert!(!accepts("a\"b"));
    assert!(!accepts("a'b"));
    assert!(!accepts("a-b"));
    assert!(!accepts("a b"));
    assert!(!accepts("a.b"));
    assert!(!accepts("a(b)"));
}

#[test]
fn failure_carries_invalid_identifier_kind() {
    let e = is_valid_identifier("a b", "Validating test name").unwrap_err();
    assert_eq!(e.kind, ErrorKind::InvalidIdentifier);
    assert_eq!(e.message(), "Validating test name");
}
