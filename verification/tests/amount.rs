use btc_primitives::parse_satoshis;

fn refused() -> Result<u64, String> {
    Err("Invalid satoshi amount".to_string())
}

#[test]
fn parse_satoshis_reads_a_decimal_numeral() {
    assert_eq!(parse_satoshis("123"), Ok(123));
    assert_eq!(parse_satoshis("0"), Ok(0));
    assert_eq!(parse_satoshis("2100000000000000"), Ok(2_100_000_000_000_000));
}

#[test]
fn parse_satoshis_ignores_leading_zeros() {
    assert_eq!(parse_satoshis("007"), Ok(7));
    assert_eq!(parse_satoshis("0000000000000000000000000001"), Ok(1));
}

#[test]
fn parse_satoshis_takes_the_whole_64_bit_range() {
    assert_eq!(parse_satoshis("18446744073709551615"), Ok(u64::MAX));
    // More than the supply of coins is still an amount.
    assert_eq!(parse_satoshis("2100000000000001"), Ok(2_100_000_000_000_001));
}

#[test]
fn parse_satoshis_refuses_the_empty_text() {
    assert_eq!(parse_satoshis(""), refused());
}

#[test]
fn parse_satoshis_refuses_a_decimal_point() {
    assert_eq!(parse_satoshis("12.5"), refused());
    assert_eq!(parse_satoshis("."), refused());
}

#[test]
fn parse_satoshis_refuses_a_sign() {
    assert_eq!(parse_satoshis("-1"), refused());
    assert_eq!(parse_satoshis("+1"), refused());
    assert_eq!(parse_satoshis("+"), refused());
    assert_eq!(parse_satoshis("-"), refused());
}

#[test]
fn parse_satoshis_refuses_overflow() {
    assert_eq!(parse_satoshis("99999999999999999999"), refused());
    assert_eq!(parse_satoshis("18446744073709551616"), refused());
    assert_eq!(parse_satoshis("184467440737095516150"), refused());
}

#[test]
fn parse_satoshis_refuses_white_space_and_letters() {
    assert_eq!(parse_satoshis(" 1"), refused());
    assert_eq!(parse_satoshis("1 "), refused());
    assert_eq!(parse_satoshis("1 000"), refused());
    assert_eq!(parse_satoshis("12a"), refused());
    assert_eq!(parse_satoshis("0x10"), refused());
    assert_eq!(parse_satoshis("1e3"), refused());
}

#[test]
fn parse_satoshis_refuses_digits_outside_ascii() {
    assert_eq!(parse_satoshis("\u{ff11}\u{ff12}"), refused());
    assert_eq!(parse_satoshis("1\u{e9}"), refused());
}
