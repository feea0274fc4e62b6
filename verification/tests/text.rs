use rclone_transfer::text::{joined, push_decimal, push_decimal_padded, push_text, push_texts};

fn numeral(n: u64) -> String {
    let mut out = String::new();
    push_decimal(&mut out, n);
    out
}

fn padded(n: u64) -> String {
    let mut out = String::new();
    push_decimal_padded(&mut out, n);
    out
}

#[test]
fn numerals_have_no_leading_zero() {
    assert_eq!(numeral(0), "0");
    assert_eq!(numeral(7), "7");
    assert_eq!(numeral(10), "10");
    assert_eq!(numeral(1234567890), "1234567890");
    assert_eq!(numeral(u64::MAX), "18446744073709551615");
}

#[test]
fn numerals_agree_with_plain_formatting() {
    let mut n: u64 = 0;
    while n < 20_000 {
        assert_eq!(numeral(n), format!("{}", n));
        assert_eq!(padded(n), format!("{:02}", n));
        n += 1;
    }
}

#[test]
fn padded_numerals_take_two_digits_at_least() {
    assert_eq!(padded(0), "00");
    assert_eq!(padded(5), "05");
    assert_eq!(padded(9), "09");
    assert_eq!(padded(10), "10");
    assert_eq!(padded(59), "59");
    assert_eq!(padded(100), "100");
}

#[test]
fn numerals_are_appended_to_what_is_there() {
    let mut out = String::from("n=");
    push_decimal(&mut out, 42);
    out.push('/');
    push_decimal_padded(&mut out, 3);
    assert_eq!(out, "n=42/03");
}

#[test]
fn texts_are_joined_in_order() {
    assert_eq!(joined("ab", "cd"), "abcd");
    assert_eq!(joined("", "cd"), "cd");
    assert_eq!(joined("ab", ""), "ab");
    assert_eq!(joined("", ""), "");
}

#[test]
fn texts_are_appended_to_a_list_in_order() {
    let mut list = vec!["a".to_string()];
    push_text(&mut list, "b");
    push_texts(&mut list, &vec!["c".to_string(), "d".to_string()]);
    push_texts(&mut list, &Vec::new());
    assert_eq!(list, ["a", "b", "c", "d"]);
}
