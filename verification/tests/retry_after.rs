use has_my_alias_been_pwned::retry_after::parse_seconds;
use has_my_alias_been_pwned::text::append_decimal;

#[test]
fn parse_seconds_reads_digits() {
    assert_eq!(parse_seconds(b"2"), Some(2));
    assert_eq!(parse_seconds(b"120"), Some(120));
    assert_eq!(parse_seconds(b"0"), Some(0));
    assert_eq!(parse_seconds(b"007"), Some(7));
}

#[test]
fn parse_seconds_takes_a_leading_plus() {
    assert_eq!(parse_seconds(b"+5"), Some(5));
    assert_eq!(parse_seconds(b"+"), None);
    assert_eq!(parse_seconds(b"++5"), None);
    assert_eq!(parse_seconds(b"5+"), None);
}

#[test]
fn parse_seconds_rejects_what_is_no_number() {
    assert_eq!(parse_seconds(b""), None);
    assert_eq!(parse_seconds(b"-1"), None);
    assert_eq!(parse_seconds(b" 1"), None);
    assert_eq!(parse_seconds(b"1 "), None);
    assert_eq!(parse_seconds(b"1.5"), None);
    assert_eq!(parse_seconds(b"Wed, 21 Oct 2015 07:28:00 GMT"), None);
    assert_eq!(parse_seconds(&[0x32, 0xff]), None);
}

#[test]
fn parse_seconds_stops_at_sixty_four_bits() {
    assert_eq!(parse_seconds(b"18446744073709551615"), Some(u64::MAX));
    assert_eq!(parse_seconds(b"18446744073709551616"), None);
    assert_eq!(parse_seconds(b"99999999999999999999999"), None);
    assert_eq!(parse_seconds(b"000000000000000000000001"), Some(1));
}

#[test]
fn parse_seconds_agrees_with_the_standard_parser() {
    let values: Vec<&str> = vec!["", "+", "-", "0", "+0", "-0", "42", "4 2", "\u{661}", "18446744073709551616"];
    for value in values {
        assert_eq!(parse_seconds(value.as_bytes()), value.parse::<u64>().ok());
    }
}

#[test]
fn append_decimal_writes_behind_the_text() {
    let mut text = "status ".to_string();
    append_decimal(&mut text, 404);
    assert_eq!(text, "status 404");
    append_decimal(&mut text, 0);
    assert_eq!(text, "status 4040");
    append_decimal(&mut text, 10);
    assert_eq!(text, "status 404010");
}
