use yun_socket_proxy::protocol::{Address, AuthMethod, Command, Reply, Request};

#[test]
fn test_auth_method_from_u8() {
    assert_eq!(AuthMethod::from_u8(0x00), Some(AuthMethod::NoAuth));
    assert_eq!(AuthMethod::from_u8(0x02), Some(AuthMethod::UsernamePassword));
    assert_eq!(AuthMethod::from_u8(0xFF), Some(AuthMethod::NoAcceptable));
    assert_eq!(AuthMethod::from_u8(0x01), None);
}

#[test]
fn test_command_from_u8() {
    assert_eq!(Command::from_u8(0x01), Some(Command::Connect));
    assert_eq!(Command::from_u8(0x02), Some(Command::Bind));
    assert_eq!(Command::from_u8(0x03), Some(Command::UdpAssociate));
    assert_eq!(Command::from_u8(0x04), None);
}

#[test]
fn test_reply_values() {
    assert_eq!(Reply::Succeeded.to_u8(), 0x00);
    assert_eq!(Reply::GeneralFailure.to_u8(), 0x01);
    assert_eq!(Reply::ConnectionRefused.to_u8(), 0x05);
    assert_eq!(Reply::CommandNotSupported.to_u8(), 0x07);
}

#[test]
fn test_address_ipv4() {
    let addr = Address::Ipv4([127, 0, 0, 1], 8080);
    assert_eq!(addr.port(), 8080);
    assert_eq!(addr.to_string(), "127.0.0.1:8080");
}

#[test]
fn test_address_domain() {
    let addr = Address::Domain("example.com".to_string(), 443);
    assert_eq!(addr.port(), 443);
    assert_eq!(addr.to_string(), "example.com:443");
}

#[test]
fn test_request_creation() {
    let request = Request {
        command: Command::Connect,
        address: Address::Domain("google.com".to_string(), 80),
    };

    assert_eq!(request.command, Command::Connect);
    assert_eq!(request.address.port(), 80);
}

#[test]
fn test_address_ipv6() {
    let addr = Address::Ipv6([0, 0, 0, 0, 0, 0, 0, 0, 0, 0, 0, 0, 0, 0, 0, 1], 8080);
    assert_eq!(addr.port(), 8080);
    assert_eq!(addr.to_string(), "[::1]:8080");
}

#[test]
fn address_ipv6_to_string_compression() {
    // Groups print in lower-case hex without leading zeros; the longest run
    // of two or more zero groups collapses to "::", the leftmost on a tie.
    let addr = Address::Ipv6(
        [0x20, 0x01, 0x0d, 0xb8, 0, 0, 0, 0, 0, 0, 0xab, 0xcd, 0x12, 0x34, 0x56, 0x78],
        443,
    );
    assert_eq!(addr.to_string(), "[2001:db8::abcd:1234:5678]:443");

    // All zero groups collapse entirely.
    let addr = Address::Ipv6([0; 16], 0);
    assert_eq!(addr.to_string(), "[::]:0");

    // Two equally long runs: the leftmost collapses.
    let addr = Address::Ipv6([0, 1, 0, 0, 0, 0, 0, 1, 0, 0, 0, 0, 0, 1, 0, 1], 80);
    assert_eq!(addr.to_string(), "[1::1:0:0:1:1]:80");

    // A longer run later beats a shorter run earlier.
    let addr = Address::Ipv6([0, 0, 0, 0, 0, 1, 0, 0, 0, 0, 0, 0, 0, 1, 0, 1], 80);
    assert_eq!(addr.to_string(), "[0:0:1::1:1]:80");

    // A single zero group stays as it is.
    let addr = Address::Ipv6([0, 1, 0, 0, 0, 1, 0, 1, 0, 1, 0, 1, 0, 1, 0, 1], 80);
    assert_eq!(addr.to_string(), "[1:0:1:1:1:1:1:1]:80");

    // A trailing run collapses to a trailing "::".
    let addr = Address::Ipv6([0, 1, 0, 1, 0, 1, 0, 1, 0, 1, 0, 1, 0, 0, 0, 0], 80);
    assert_eq!(addr.to_string(), "[1:1:1:1:1:1::]:80");
}

#[test]
fn reply_bytes_cover_all_codes() {
    let codes = [
        (Reply::Succeeded, 0x00u8),
        (Reply::GeneralFailure, 0x01),
        (Reply::ConnectionNotAllowed, 0x02),
        (Reply::NetworkUnreachable, 0x03),
        (Reply::HostUnreachable, 0x04),
        (Reply::ConnectionRefused, 0x05),
        (Reply::TtlExpired, 0x06),
        (Reply::CommandNotSupported, 0x07),
        (Reply::AddressTypeNotSupported, 0x08),
    ];
    for (reply, byte) in codes {
        assert_eq!(reply.to_u8(), byte);
    }
}

#[test]
fn address_to_string_max_values() {
    let addr = Address::Ipv4([255, 255, 255, 255], 65535);
    assert_eq!(addr.to_string(), "255.255.255.255:65535");
    let addr = Address::Ipv4([0, 0, 0, 0], 0);
    assert_eq!(addr.to_string(), "0.0.0.0:0");
}
