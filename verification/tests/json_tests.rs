use isekai::json::{parse_exact, parse_string};
use isekai::policy::PolicyFile;

#[test]
fn string_literals_parse_in_canonical_form_only() {
    // Canonical escapes round-trip.
    let (v, p) = parse_string("\"a\\nb\"", 0).unwrap();
    assert_eq!(v, "a\nb");
    assert_eq!(p, 6);
    let (v, _) = parse_string("\"q\\\"w\\\\e\"", 0).unwrap();
    assert_eq!(v, "q\"w\\e");
    let (v, _) = parse_string("\"\\u0001\"", 0).unwrap();
    assert_eq!(v, "\u{0001}");

    // Non-canonical forms are refused: an escaped slash, uppercase or
    // out-of-range unicode escapes, and raw control characters.
    assert!(parse_string("\"a\\/b\"", 0).is_err());
    assert!(parse_string("\"\\u0041\"", 0).is_err());
    assert!(parse_string("\"\\u0009\"", 0).is_err());
    assert!(parse_string("\"a\tb\"", 0).is_err());
}

#[test]
fn exact_text_is_demanded_where_expected() {
    assert_eq!(parse_exact("{\"target\":", 0, "{\"target\":").unwrap(), 10);
    assert!(parse_exact("{\"target\"=", 0, "{\"target\":").is_err());
    assert!(parse_exact("{", 0, "{\"target\":").is_err());
}

#[test]
fn empty_document_is_always_accepted() {
    let p = PolicyFile::from_json("{}").unwrap();
    assert!(p.rules.is_empty());
}
