use git_credential_keepassxc::text::{chars_of, parse_number};

#[test]
fn characters_are_listed_one_by_one() {
    assert_eq!(chars_of(""), Vec::<char>::new());
    assert_eq!(chars_of("a=b"), vec!['a', '=', 'b']);
    assert_eq!(chars_of("päß"), vec!['p', 'ä', 'ß']);
}

#[test]
fn decimal_numbers_are_read() {
    assert_eq!(parse_number("0"), Some(0));
    assert_eq!(parse_number("007"), Some(7));
    assert_eq!(parse_number("+42"), Some(42));
    assert_eq!(parse_number("1234567890"), Some(1234567890));
    assert_eq!(parse_number("18446744073709551615"), Some(u64::MAX));
}

#[test]
fn numbers_that_do_not_fit_are_refused() {
    assert_eq!(parse_number("18446744073709551616"), None);
    assert_eq!(parse_number("184467440737095516150"), None);
    assert_eq!(parse_number("99999999999999999999999999999999"), None);
}

#[test]
fn text_that_is_no_number_is_refused() {
    for text in ["", "+", "++1", "1+", "-1", "12x", "x12", " 12", "12 ", "1.0", "0x10", "１２"] {
        assert_eq!(parse_number(text), None, "{:?}", text);
    }
}
