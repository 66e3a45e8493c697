use persona_introspect::text::{decimal_text, parse_number};

fn parsed(text: &str, radix: u32, limit: u64) -> Option<u64> {
    parse_number(&text.to_string(), radix, limit)
}

#[test]
fn numbers_are_written_in_decimal() {
    for value in [0, 7, 9, 10, 99, 100, 1048576, 1234567890, usize::MAX] {
        assert_eq!(decimal_text(value), value.to_string());
    }
}

#[test]
fn numbers_are_read_in_their_base() {
    assert_eq!(parsed("600", 8, u64::MAX), Some(0o600));
    assert_eq!(parsed("600", 10, u64::MAX), Some(600));
    assert_eq!(parsed("101", 2, u64::MAX), Some(5));
    assert_eq!(parsed("+0012", 10, u64::MAX), Some(12));
    assert_eq!(parsed("8", 8, u64::MAX), None);
}

#[test]
fn only_digits_are_a_number() {
    for text in ["", "+", "-1", "++1", "1+", " 1", "1 ", "1a", "/", ":", "\u{661}"] {
        assert_eq!(parsed(text, 10, u64::MAX), None, "{text:?}");
        assert!(text.parse::<u64>().is_err(), "{text:?}");
    }
}

#[test]
fn numbers_past_the_limit_are_not_read() {
    assert_eq!(parsed("255", 10, 255), Some(255));
    assert_eq!(parsed("256", 10, 255), None);
    assert_eq!(parsed("25500000000000000000000000000", 10, 255), None);
    assert_eq!(
        parsed("18446744073709551615", 10, u64::MAX),
        Some(u64::MAX)
    );
    assert_eq!(parsed("18446744073709551616", 10, u64::MAX), None);
    assert_eq!(
        parsed("37777777777", 8, u64::from(u32::MAX)),
        Some(u64::from(u32::MAX))
    );
    assert_eq!(parsed("40000000000", 8, u64::from(u32::MAX)), None);
}

#[test]
fn written_numbers_are_read_back() {
    for value in [0, 5, 10, 4096, usize::MAX] {
        assert_eq!(
            parsed(&decimal_text(value), 10, u64::MAX),
            Some(value as u64)
        );
    }
}
