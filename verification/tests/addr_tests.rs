use lamper::addr::parse_ipv4;
use lamper::text::parse_u8_dec;

#[test]
fn parses_canonical_quads() {
    assert_eq!(parse_ipv4("0.0.0.0"), Some([0, 0, 0, 0]));
    assert_eq!(parse_ipv4("255.255.255.255"), Some([255, 255, 255, 255]));
    assert_eq!(parse_ipv4("192.168.1.42"), Some([192, 168, 1, 42]));
    assert_eq!(parse_ipv4("10.0.0.7"), Some([10, 0, 0, 7]));
}

#[test]
fn rejects_out_of_range_octets() {
    assert_eq!(parse_ipv4("256.1.1.1"), None);
    assert_eq!(parse_ipv4("1.1.1.999"), None);
}

#[test]
fn rejects_leading_zeros() {
    assert_eq!(parse_ipv4("01.2.3.4"), None);
    assert_eq!(parse_ipv4("1.2.3.007"), None);
}

#[test]
fn rejects_wrong_shapes() {
    assert_eq!(parse_ipv4(""), None);
    assert_eq!(parse_ipv4("1.2.3"), None);
    assert_eq!(parse_ipv4("1.2.3.4.5"), None);
    assert_eq!(parse_ipv4("1..2.3"), None);
    assert_eq!(parse_ipv4(".1.2.3"), None);
    assert_eq!(parse_ipv4("1.2.3."), None);
    assert_eq!(parse_ipv4("a.b.c.d"), None);
    assert_eq!(parse_ipv4("1.2.3.4 "), None);
    assert_eq!(parse_ipv4("1.2.+3.4"), None);
}

#[test]
fn parses_small_decimals() {
    assert_eq!(parse_u8_dec("0"), Some(0));
    assert_eq!(parse_u8_dec("255"), Some(255));
    assert_eq!(parse_u8_dec("007"), Some(7));
    assert_eq!(parse_u8_dec("87"), Some(87));
}

#[test]
fn rejects_bad_decimals() {
    assert_eq!(parse_u8_dec(""), None);
    assert_eq!(parse_u8_dec("256"), None);
    assert_eq!(parse_u8_dec("99999999999999999999"), None);
    assert_eq!(parse_u8_dec("12a"), None);
    assert_eq!(parse_u8_dec("-1"), None);
    assert_eq!(parse_u8_dec("+1"), None);
    assert_eq!(parse_u8_dec(" 1"), None);
}
