use graphite_services::text::str_eq;

#[test]
fn text_equality_is_exact() {
    assert!(str_eq("EQUIPPED", "EQUIPPED"));
    assert!(str_eq("", ""));
    assert!(!str_eq("EQUIPPED", "equipped"));
    assert!(!str_eq("EQUIPPED", "EQUIPPED "));
    assert!(!str_eq("é", "e"));
    assert!(str_eq("é", "\u{e9}"));
}
