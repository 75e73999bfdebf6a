use node_health::codec::parse_u64_decimal;
use node_health::codec::parse_u64_hex_prefixed;
use node_health::errors::UpstreamError;

#[test]
fn hex_with_prefix_decodes() {
    assert_eq!(parse_u64_hex_prefixed("0x1a"), Ok(26));
    assert_eq!(parse_u64_hex_prefixed("0x10"), Ok(16));
    assert_eq!(parse_u64_hex_prefixed("0x0"), Ok(0));
}

#[test]
fn hex_without_prefix_decodes() {
    assert_eq!(parse_u64_hex_prefixed("1a"), Ok(26));
    assert_eq!(parse_u64_hex_prefixed("ff"), Ok(255));
}

#[test]
fn hex_uppercase_decodes() {
    assert_eq!(parse_u64_hex_prefixed("0x1A"), Ok(26));
    assert_eq!(parse_u64_hex_prefixed("0xFF"), Ok(255));
}

#[test]
fn hex_every_prefix_occurrence_is_removed() {
    // str::replace removes every occurrence, not only a leading one.
    assert_eq!(parse_u64_hex_prefixed("0x0x10"), Ok(16));
    assert_eq!(parse_u64_hex_prefixed("10x10"), Ok(0x110));
}

#[test]
fn hex_malformed_is_protocol_error() {
    assert_eq!(parse_u64_hex_prefixed(""), Err(UpstreamError::Protocol));
    assert_eq!(parse_u64_hex_prefixed("0x"), Err(UpstreamError::Protocol));
    assert_eq!(parse_u64_hex_prefixed("0xzz"), Err(UpstreamError::Protocol));
    assert_eq!(parse_u64_hex_prefixed("peers"), Err(UpstreamError::Protocol));
}

#[test]
fn hex_overflow_is_protocol_error() {
    assert_eq!(parse_u64_hex_prefixed("0xffffffffffffffff"), Ok(u64::MAX));
    assert_eq!(
        parse_u64_hex_prefixed("0x10000000000000000"),
        Err(UpstreamError::Protocol)
    );
}

#[test]
fn decimal_decodes() {
    assert_eq!(parse_u64_decimal("87"), Ok(87));
    assert_eq!(parse_u64_decimal("0"), Ok(0));
    assert_eq!(parse_u64_decimal("719"), Ok(719));
}

#[test]
fn decimal_accepts_leading_plus() {
    // u64 parsing in the standard library accepts one leading plus sign.
    assert_eq!(parse_u64_decimal("+87"), Ok(87));
    assert_eq!(parse_u64_decimal("+"), Err(UpstreamError::Protocol));
    assert_eq!(parse_u64_decimal("++1"), Err(UpstreamError::Protocol));
}

#[test]
fn decimal_malformed_is_protocol_error() {
    assert_eq!(parse_u64_decimal(""), Err(UpstreamError::Protocol));
    assert_eq!(parse_u64_decimal("1a"), Err(UpstreamError::Protocol));
    assert_eq!(parse_u64_decimal("-1"), Err(UpstreamError::Protocol));
    assert_eq!(parse_u64_decimal("2.5"), Err(UpstreamError::Protocol));
}

#[test]
fn decimal_overflow_is_protocol_error() {
    assert_eq!(parse_u64_decimal("18446744073709551615"), Ok(u64::MAX));
    assert_eq!(
        parse_u64_decimal("18446744073709551616"),
        Err(UpstreamError::Protocol)
    );
}

#[test]
fn decimal_formatting_round_trips() {
    assert_eq!(node_health::codec::u64_to_decimal_string(0), "0");
    assert_eq!(node_health::codec::u64_to_decimal_string(87), "87");
    assert_eq!(
        node_health::codec::u64_to_decimal_string(u64::MAX),
        "18446744073709551615"
    );
    assert_eq!(
        parse_u64_decimal(&node_health::codec::u64_to_decimal_string(5478944)),
        Ok(5478944)
    );
}

#[test]
fn error_labels() {
    assert_eq!(UpstreamError::Transport.describe(), "transport error");
    assert_eq!(UpstreamError::Protocol.describe(), "protocol error");
}
