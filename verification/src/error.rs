//! The error taxonomy shared by every stage of a connection's handling.

use vstd::prelude::*;

verus! {

/// Everything that can go wrong while one connection is handled.
///
/// An error aborts only the connection it arose on; the caller logs it and
/// the accept loop goes on. Variants that carry a `u8` keep the raw wire
/// byte that was rejected. `Io` carries the text of a transport failure
/// reported by the surrounding I/O layer.
#[derive(Debug, Clone, PartialEq, Eq)]
pub enum ProxyError {
    /// A transport read, write or connect failed.
    Io(String),
    /// The version byte of a message was not the SOCKS version.
    InvalidVersion(u8),
    /// No authentication method offered by the client is acceptable.
    NoAcceptableAuth,
    /// The username/password pair matched no configured credential.
    AuthFailed,
    /// The command byte names no command this proxy executes.
    UnsupportedCommand(u8),
    /// The address-type byte names no known address form.
    UnsupportedAddressType(u8),
    /// A domain name was not valid UTF-8.
    InvalidAddress,
    /// The target refused the connection.
    ConnectionRefused,
    /// The target host could not be reached.
    HostUnreachable,
    /// The target network could not be reached.
    NetworkUnreachable,
    /// The outbound connect did not finish within the configured timeout.
    Timeout,
    /// A malformed message that fits no more precise variant.
    Protocol(String),
    /// A configuration value could not be used.
    Config(String),
}

} // verus!
