use miniunchecked::decimal::push_decimal;
use miniunchecked::note::push_suffix;

fn written(n: usize) -> String {
    let mut out = String::new();
    push_decimal(&mut out, n);
    out
}

#[test]
fn decimal_of_one_digit() {
    assert_eq!(written(0), "0");
    assert_eq!(written(7), "7");
    assert_eq!(written(9), "9");
}

#[test]
fn decimal_of_many_digits() {
    assert_eq!(written(10), "10");
    assert_eq!(written(99), "99");
    assert_eq!(written(100), "100");
    assert_eq!(written(1234567890), "1234567890");
    assert_eq!(written(usize::MAX), usize::MAX.to_string());
}

#[test]
fn decimal_agrees_with_display() {
    for n in [0, 1, 5, 10, 11, 19, 20, 101, 256, 1000, 4096, 65535, 1 << 20, 4294967295] {
        assert_eq!(written(n), n.to_string());
    }
}

#[test]
fn decimal_is_appended() {
    let mut out = "len ".to_string();
    push_decimal(&mut out, 42);
    push_decimal(&mut out, 0);
    assert_eq!(out, "len 420");
}

#[test]
fn suffix_is_a_colon_a_space_and_the_message() {
    let mut out = "text".to_string();
    push_suffix(&mut out, Some("more"));
    assert_eq!(out, "text: more");
    push_suffix(&mut out, None);
    assert_eq!(out, "text: more");
    push_suffix(&mut out, Some(""));
    assert_eq!(out, "text: more: ");
}
