use expr_ast::decimal::{write_int, write_nat};

fn nat_text(n: u64) -> String {
    let mut out = String::new();
    write_nat(n, &mut out);
    out
}

fn int_text(i: i64) -> String {
    let mut out = String::new();
    write_int(i, &mut out);
    out
}

#[test]
fn single_digits() {
    let expected = ["0", "1", "2", "3", "4", "5", "6", "7", "8", "9"];
    for (n, text) in expected.iter().enumerate() {
        assert_eq!(nat_text(n as u64), *text);
    }
}

#[test]
fn digits_come_most_significant_first() {
    assert_eq!(nat_text(10), "10");
    assert_eq!(nat_text(1234567890), "1234567890");
    assert_eq!(nat_text(9007199254740993), "9007199254740993");
}

#[test]
fn no_leading_zeros_and_no_separators() {
    for n in [0u64, 5, 10, 100, 1000, 1001, 1000000, 123456789, u64::MAX] {
        let text = nat_text(n);
        assert!(text.chars().all(|c| c.is_ascii_digit()));
        assert!(text == "0" || !text.starts_with('0'));
        assert_eq!(text.parse::<u64>(), Ok(n));
    }
}

#[test]
fn largest_natural_number() {
    assert_eq!(nat_text(u64::MAX), "18446744073709551615");
}

#[test]
fn negative_numbers_have_one_leading_minus() {
    assert_eq!(int_text(-1), "-1");
    assert_eq!(int_text(-10), "-10");
    assert_eq!(int_text(-908), "-908");
    for i in [-1i64, -9, -10, -11, -1000, i64::MIN + 1, i64::MIN] {
        let text = int_text(i);
        assert!(text.starts_with('-'));
        assert!(text[1..].chars().all(|c| c.is_ascii_digit()));
        assert!(!text[1..].starts_with('0'));
        assert_eq!(text.parse::<i64>(), Ok(i));
    }
}

#[test]
fn nonnegative_numbers_have_no_sign() {
    assert_eq!(int_text(0), "0");
    assert_eq!(int_text(42), "42");
    for i in [0i64, 1, 9, 10, 11, 1000, i64::MAX - 1, i64::MAX] {
        let text = int_text(i);
        assert!(text.chars().all(|c| c.is_ascii_digit()));
        assert_eq!(text.parse::<i64>(), Ok(i));
    }
}

#[test]
fn extreme_integers() {
    assert_eq!(int_text(i64::MAX), "9223372036854775807");
    assert_eq!(int_text(i64::MIN), "-9223372036854775808");
}

#[test]
fn write_int_appends() {
    let mut out = String::from("n=");
    write_int(-3, &mut out);
    write_nat(14, &mut out);
    assert_eq!(out, "n=-314");
}
