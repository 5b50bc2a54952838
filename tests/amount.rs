use auctions::parse_amount;

#[test]
fn parses_decimal_amounts() {
    assert_eq!(parse_amount("0"), Some(0));
    assert_eq!(parse_amount("2000"), Some(2000));
    assert_eq!(parse_amount("007"), Some(7));
    assert_eq!(
        parse_amount("340282366920938463463374607431768211455"),
        Some(u128::MAX)
    );
}

#[test]
fn rejects_malformed_or_overflowing_amounts() {
    assert_eq!(parse_amount(""), None);
    assert_eq!(parse_amount("+5"), None);
    assert_eq!(parse_amount("1 000"), None);
    assert_eq!(parse_amount("12a"), None);
    assert_eq!(parse_amount("340282366920938463463374607431768211456"), None);
    assert_eq!(parse_amount("99999999999999999999999999999999999999999"), None);
}
