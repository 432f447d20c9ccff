use yun_socket_proxy::error::ProxyError;
use yun_socket_proxy::protocol::request::{encode_request, parse_request, remaining_address_len};
use yun_socket_proxy::protocol::response::{send_failure, send_success};
use yun_socket_proxy::protocol::{Address, Command, Reply, Request};

#[test]
fn parse_ipv4_connect_request() {
    // The IPv4 request from the round-trip property.
    let bytes = vec![0x05, 0x01, 0x00, 0x01, 127, 0, 0, 1, 0x27, 0x0F];
    let request = parse_request(&bytes).unwrap();
    assert_eq!(request.command, Command::Connect);
    assert_eq!(request.address, Address::Ipv4([127, 0, 0, 1], 9999));
}

#[test]
fn ipv4_request_round_trips() {
    let bytes = vec![0x05, 0x01, 0x00, 0x01, 127, 0, 0, 1, 0x27, 0x0F];
    let request = parse_request(&bytes).unwrap();
    let encoded = encode_request(&request).unwrap();
    assert_eq!(encoded, bytes);
}

#[test]
fn domain_request_round_trips() {
    let request = Request {
        command: Command::Connect,
        address: Address::Domain("example.com".to_string(), 80),
    };
    let bytes = encode_request(&request).unwrap();
    let mut expected = vec![0x05, 0x01, 0x00, 0x03, 11];
    expected.extend_from_slice(b"example.com");
    expected.extend_from_slice(&[0x00, 80]);
    assert_eq!(bytes, expected);
    let parsed = parse_request(&bytes).unwrap();
    assert_eq!(parsed, request);
}

#[test]
fn ipv6_request_round_trips() {
    let request = Request {
        command: Command::Connect,
        address: Address::Ipv6([0, 0, 0, 0, 0, 0, 0, 0, 0, 0, 0, 0, 0, 0, 0, 1], 443),
    };
    let bytes = encode_request(&request).unwrap();
    assert_eq!(bytes.len(), 22);
    let parsed = parse_request(&bytes).unwrap();
    assert_eq!(parsed, request);
}

#[test]
fn parse_rejects_wrong_version() {
    let bytes = vec![0x04, 0x01, 0x00, 0x01, 127, 0, 0, 1, 0x27, 0x0F];
    assert_eq!(parse_request(&bytes).unwrap_err(), ProxyError::InvalidVersion(0x04));
}

#[test]
fn parse_rejects_unknown_command_byte() {
    let bytes = vec![0x05, 0x09, 0x00, 0x01, 127, 0, 0, 1, 0x27, 0x0F];
    assert_eq!(parse_request(&bytes).unwrap_err(), ProxyError::UnsupportedCommand(0x09));
}

#[test]
fn parse_accepts_bind_command() {
    // Bind is recognized by the parser; the dispatcher rejects it later.
    let bytes = vec![0x05, 0x02, 0x00, 0x01, 127, 0, 0, 1, 0x27, 0x0F];
    let request = parse_request(&bytes).unwrap();
    assert_eq!(request.command, Command::Bind);
}

#[test]
fn parse_rejects_unknown_address_type() {
    let bytes = vec![0x05, 0x01, 0x00, 0x02, 127, 0, 0, 1, 0x27, 0x0F];
    assert_eq!(parse_request(&bytes).unwrap_err(), ProxyError::UnsupportedAddressType(0x02));
}

#[test]
fn parse_rejects_invalid_utf8_domain() {
    let bytes = vec![0x05, 0x01, 0x00, 0x03, 2, 0xFF, 0xFE, 0x00, 80];
    assert_eq!(parse_request(&bytes).unwrap_err(), ProxyError::InvalidAddress);
}

#[test]
fn parse_rejects_truncated_message() {
    let bytes = vec![0x05, 0x01, 0x00];
    assert!(matches!(parse_request(&bytes).unwrap_err(), ProxyError::Protocol(_)));
    let bytes = vec![0x05, 0x01, 0x00, 0x01, 127, 0, 0, 1, 0x27];
    assert!(matches!(parse_request(&bytes).unwrap_err(), ProxyError::Protocol(_)));
}

#[test]
fn parse_ignores_reserved_byte_value() {
    let bytes = vec![0x05, 0x01, 0x7A, 0x01, 127, 0, 0, 1, 0x27, 0x0F];
    let request = parse_request(&bytes).unwrap();
    assert_eq!(request.address, Address::Ipv4([127, 0, 0, 1], 9999));
}

#[test]
fn remaining_length_by_address_type() {
    assert_eq!(remaining_address_len(0x01, 0), Some(6));
    assert_eq!(remaining_address_len(0x04, 0), Some(18));
    assert_eq!(remaining_address_len(0x03, 11), Some(13));
    assert_eq!(remaining_address_len(0x02, 0), None);
}

#[test]
fn response_bytes_carry_reply_and_placeholder() {
    let bytes = send_failure(Reply::CommandNotSupported);
    assert_eq!(bytes, vec![0x05, 0x07, 0x00, 0x01, 0, 0, 0, 0, 0, 0]);
    let bytes = send_success(&Address::Ipv4([127, 0, 0, 1], 9999));
    assert_eq!(bytes.len(), 10);
    assert_eq!(&bytes[..2], &[0x05, 0x00]);
    // The bound address reported is always the placeholder 0.0.0.0:0.
    assert_eq!(&bytes[2..], &[0x00, 0x01, 0, 0, 0, 0, 0, 0]);
}

#[test]
fn encode_refuses_oversized_domain_name() {
    let request = Request {
        command: Command::Connect,
        address: Address::Domain("x".repeat(256), 80),
    };
    assert!(encode_request(&request).is_none());
}

#[test]
fn port_bytes_are_big_endian() {
    let request = Request {
        command: Command::Connect,
        address: Address::Ipv4([10, 0, 0, 1], 0x1234),
    };
    let bytes = encode_request(&request).unwrap();
    assert_eq!(bytes[8], 0x12);
    assert_eq!(bytes[9], 0x34);
}
