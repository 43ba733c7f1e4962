use edugame::numparse::parse_tenths;

#[test]
fn parses_integer_forms() {
    assert_eq!(parse_tenths("7"), Some(70));
    assert_eq!(parse_tenths("0"), Some(0));
    assert_eq!(parse_tenths("100"), Some(1000));
    assert_eq!(parse_tenths("007"), Some(70));
}

#[test]
fn parses_one_decimal_forms() {
    assert_eq!(parse_tenths("6.5"), Some(65));
    assert_eq!(parse_tenths("5.0"), Some(50));
    assert_eq!(parse_tenths("0.5"), Some(5));
    assert_eq!(parse_tenths("99.9"), Some(999));
    assert_eq!(parse_tenths("100.0"), Some(1000));
}

#[test]
fn rejects_malformed_text() {
    assert_eq!(parse_tenths(""), None);
    assert_eq!(parse_tenths("abc"), None);
    assert_eq!(parse_tenths("6,5"), None);
    assert_eq!(parse_tenths("6.55"), None);
    assert_eq!(parse_tenths(".5"), None);
    assert_eq!(parse_tenths("6."), None);
    assert_eq!(parse_tenths("-1"), None);
    assert_eq!(parse_tenths("6.5 "), None);
}

#[test]
fn rejects_values_over_the_cap() {
    assert_eq!(parse_tenths("101"), None);
    assert_eq!(parse_tenths("100.1"), None);
    assert_eq!(parse_tenths("99999999999999999999"), None);
}
