use pty_notify::parse_pty_id;
use pty_notify::u32_to_string;

#[test]
fn parses_plain_ids() {
    assert_eq!(parse_pty_id("42"), Some(42));
    assert_eq!(parse_pty_id("0"), Some(0));
    assert_eq!(parse_pty_id("007"), Some(7));
    assert_eq!(parse_pty_id("4294967295"), Some(u32::MAX));
}

#[test]
fn rejects_non_numeric_names() {
    assert_eq!(parse_pty_id("abc"), None);
    assert_eq!(parse_pty_id(""), None);
    assert_eq!(parse_pty_id("12a"), None);
    assert_eq!(parse_pty_id("a12"), None);
    assert_eq!(parse_pty_id("+42"), None);
    assert_eq!(parse_pty_id("-1"), None);
    assert_eq!(parse_pty_id("4 2"), None);
}

#[test]
fn rejects_out_of_range_names() {
    assert_eq!(parse_pty_id("4294967296"), None);
    assert_eq!(parse_pty_id("99999999999999999999"), None);
}

#[test]
fn renders_decimals() {
    assert_eq!(u32_to_string(0), "0");
    assert_eq!(u32_to_string(7), "7");
    assert_eq!(u32_to_string(42), "42");
    assert_eq!(u32_to_string(1000), "1000");
    assert_eq!(u32_to_string(u32::MAX), "4294967295");
}

#[test]
fn rendering_round_trips_through_parsing() {
    for n in [0u32, 1, 9, 10, 99, 123456, u32::MAX] {
        assert_eq!(parse_pty_id(&u32_to_string(n)), Some(n));
    }
}
