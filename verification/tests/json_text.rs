use orb_billing::json::{array, is_number, object, Member};

fn member(key: &str, value: &str) -> Member {
    Member { key: key.to_string(), value: value.to_string() }
}

#[test]
fn array_of_nothing_is_a_pair_of_brackets() {
    assert_eq!(array(&vec![]), "[]");
}

#[test]
fn array_of_one_item_has_no_comma() {
    assert_eq!(array(&vec!["1".to_string()]), "[1]");
}

#[test]
fn array_separates_items_with_commas_in_order() {
    let items = vec!["1".to_string(), "\"b\"".to_string(), "[]".to_string()];
    assert_eq!(array(&items), "[1,\"b\",[]]");
}

#[test]
fn object_of_nothing_is_a_pair_of_braces() {
    assert_eq!(object(&vec![]), "{}");
}

#[test]
fn object_quotes_keys_and_keeps_values_and_order() {
    let members = vec![member("b", "1"), member("a", "\"x\"")];
    assert_eq!(object(&members), "{\"b\":1,\"a\":\"x\"}");
}

#[test]
fn object_escapes_what_json_does_not_allow_in_a_key() {
    let members = vec![member("a\"b\\c\nd", "null")];
    assert_eq!(object(&members), "{\"a\\\"b\\\\c\\nd\":null}");
}

#[test]
fn object_is_read_back_by_a_json_parser() {
    let members = vec![member("key with \u{1} and \u{e9}", "[1,2]")];
    let parsed: serde_json::Value = serde_json::from_str(&object(&members)).unwrap();
    let read = parsed.as_object().unwrap();
    assert_eq!(read.len(), 1);
    assert_eq!(read["key with \u{1} and \u{e9}"].as_array().unwrap().len(), 2);
}

#[test]
fn numbers_are_recognised() {
    for text in [
        "0", "-0", "7", "10", "-12", "0.1", "0.10", "1.5", "-0.25", "1e5", "1E5", "1e+5",
        "1e-5", "1.0e10", "0e0", "123456789.000001", "1e-7", "1.7976931348623157e308",
    ] {
        assert!(is_number(text), "{text} is a number");
    }
}

#[test]
fn what_is_no_number_is_refused() {
    for text in [
        "", "-", "+1", "01", "-01", "00", ".5", "1.", "1.e5", "1e", "1e+", "1e-", "e5", "1.5.2",
        "1e5e5", "1 ", " 1", "1,5", "0x10", "NaN", "null", "Infinity", "inf", "1f", "--1", "1-",
        "\"1\"", "\u{661}", "1\u{e9}", "1e5\u{0}",
    ] {
        assert!(!is_number(text), "{text:?} is no number");
    }
}

#[test]
fn number_recogniser_agrees_with_a_json_parser() {
    for text in ["0", "-3", "2.50", "6.02e23", "1E-2", "01", "1.", "-", "1e", ".1", "1e1.5"] {
        let parsed = serde_json::from_str::<serde_json::Value>(text);
        let read_as_number = matches!(parsed, Ok(serde_json::Value::Number(_)));
        assert_eq!(is_number(text), read_as_number, "{text}");
    }
}
