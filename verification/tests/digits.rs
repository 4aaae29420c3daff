use pesel::models::digits::{is_decimal_digit, non_digit_chars};

#[test]
fn the_ten_digits_are_decimal_digits() {
    for c in ['0', '1', '2', '3', '4', '5', '6', '7', '8', '9'] {
        assert!(is_decimal_digit(c));
    }
}

#[test]
fn other_characters_are_not_decimal_digits() {
    for c in ['/', ':', 'a', 'Z', ' ', '+', '-', '.', '\u{0}', '\u{663}', '\u{b2}', '\u{ff11}'] {
        assert!(!is_decimal_digit(c));
    }
}

#[test]
fn digits_alone_leave_nothing() {
    assert_eq!(non_digit_chars(""), Vec::<char>::new());
    assert_eq!(non_digit_chars("0123456789"), Vec::<char>::new());
}

#[test]
fn non_digits_keep_order_and_repeats() {
    assert_eq!(non_digit_chars("a1b22a"), vec!['a', 'b', 'a']);
    assert_eq!(non_digit_chars("abc"), vec!['a', 'b', 'c']);
    assert_eq!(non_digit_chars("1 2\t3"), vec![' ', '\t']);
    assert_eq!(non_digit_chars("12\u{e9}34\u{663}"), vec!['\u{e9}', '\u{663}']);
}
