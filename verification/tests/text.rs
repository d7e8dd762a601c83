use fred_timeout_test::text::{and_line, debug_optional_text, decimal_text, no_lines};

#[test]
fn numerals_have_no_leading_zeros() {
    assert_eq!(decimal_text(0), "0");
    assert_eq!(decimal_text(7), "7");
    assert_eq!(decimal_text(10), "10");
    assert_eq!(decimal_text(15000), "15000");
    assert_eq!(decimal_text(u128::MAX), "340282366920938463463374607431768211455");
}

#[test]
fn numerals_read_back() {
    for n in [0u128, 9, 10, 99, 100, 8181, 1234567890] {
        assert_eq!(decimal_text(n).parse::<u128>().unwrap(), n);
    }
}

#[test]
fn optional_strings_are_shown_in_debug_form() {
    assert_eq!(debug_optional_text(&None), "None");
    assert_eq!(debug_optional_text(&Some("hello".to_string())), "Some(\"hello\")");
    assert_eq!(debug_optional_text(&Some("a\"b\n".to_string())), "Some(\"a\\\"b\\n\")");
}

#[test]
fn lines_keep_their_order() {
    let lines = and_line(and_line(no_lines(), "one".to_string()), "two".to_string());
    assert_eq!(lines, vec!["one".to_string(), "two".to_string()]);
}
