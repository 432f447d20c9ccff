//! The SOCKS5 data model: authentication methods, commands, replies,
//! addresses and requests, each with its stable mapping to wire bytes.

pub mod handshake;
pub mod auth;
pub mod request;
pub mod response;

use vstd::prelude::*;
use vstd::string::StringExecFns;
use vstd::utf8::encode_utf8;
use vstd::arithmetic::div_mod::{lemma_div_is_strictly_smaller, lemma_fundamental_div_mod};

verus! {

/// The SOCKS protocol version byte.
pub const SOCKS_VERSION: u8 = 0x05;

/// An authentication method the handshake can select.
#[derive(Debug, Clone, Copy, PartialEq, Eq, Structural)]
pub enum AuthMethod {
    /// No authentication (wire value 0x00).
    NoAuth,
    /// Username/password subnegotiation (wire value 0x02).
    UsernamePassword,
    /// No offered method is acceptable (wire value 0xFF).
    NoAcceptable,
}

/// The wire byte of an authentication method.
pub open spec fn spec_method_byte(m: AuthMethod) -> u8 {
    match m {
        AuthMethod::NoAuth => 0x00,
        AuthMethod::UsernamePassword => 0x02,
        AuthMethod::NoAcceptable => 0xFF,
    }
}

/// The method a wire byte names, if any.
pub open spec fn spec_method_from_byte(value: u8) -> Option<AuthMethod> {
    match value {
        0x00 => Some(AuthMethod::NoAuth),
        0x02 => Some(AuthMethod::UsernamePassword),
        0xFF => Some(AuthMethod::NoAcceptable),
        _ => None,
    }
}

impl AuthMethod {
    /// Decodes a wire byte into a method.
    pub fn from_u8(value: u8) -> (r: Option<AuthMethod>)
        ensures
            r == spec_method_from_byte(value),
    {
        match value {
            0x00 => Some(AuthMethod::NoAuth),
            0x02 => Some(AuthMethod::UsernamePassword),
            0xFF => Some(AuthMethod::NoAcceptable),
            _ => None,
        }
    }

    /// Encodes the method as its wire byte.
    pub fn to_u8(&self) -> (r: u8)
        ensures
            r == spec_method_byte(*self),
    {
        match self {
            AuthMethod::NoAuth => 0x00,
            AuthMethod::UsernamePassword => 0x02,
            AuthMethod::NoAcceptable => 0xFF,
        }
    }
}

/// A SOCKS5 command.
#[derive(Debug, Clone, Copy, PartialEq, Eq, Structural)]
pub enum Command {
    /// Open a TCP connection to the target (wire value 0x01).
    Connect,
    /// Bind a listening socket (wire value 0x02); recognized, never executed.
    Bind,
    /// Associate a UDP relay (wire value 0x03); recognized, never executed.
    UdpAssociate,
}

/// The wire byte of a command.
pub open spec fn spec_command_byte(c: Command) -> u8 {
    match c {
        Command::Connect => 0x01,
        Command::Bind => 0x02,
        Command::UdpAssociate => 0x03,
    }
}

/// The command a wire byte names, if any.
pub open spec fn spec_command_from_byte(value: u8) -> Option<Command> {
    match value {
        0x01 => Some(Command::Connect),
        0x02 => Some(Command::Bind),
        0x03 => Some(Command::UdpAssociate),
        _ => None,
    }
}

impl Command {
    /// Decodes a wire byte into a command.
    pub fn from_u8(value: u8) -> (r: Option<Command>)
        ensures
            r == spec_command_from_byte(value),
    {
        match value {
            0x01 => Some(Command::Connect),
            0x02 => Some(Command::Bind),
            0x03 => Some(Command::UdpAssociate),
            _ => None,
        }
    }

    /// Encodes the command as its wire byte.
    pub fn to_u8(&self) -> (r: u8)
        ensures
            r == spec_command_byte(*self),
    {
        match self {
            Command::Connect => 0x01,
            Command::Bind => 0x02,
            Command::UdpAssociate => 0x03,
        }
    }
}

/// The status byte of a response message.
#[derive(Debug, Clone, Copy, PartialEq, Eq, Structural)]
pub enum Reply {
    Succeeded,
    GeneralFailure,
    ConnectionNotAllowed,
    NetworkUnreachable,
    HostUnreachable,
    ConnectionRefused,
    TtlExpired,
    CommandNotSupported,
    AddressTypeNotSupported,
}

/// The wire byte of a reply.
pub open spec fn spec_reply_byte(r: Reply) -> u8 {
    match r {
        Reply::Succeeded => 0x00,
        Reply::GeneralFailure => 0x01,
        Reply::ConnectionNotAllowed => 0x02,
        Reply::NetworkUnreachable => 0x03,
        Reply::HostUnreachable => 0x04,
        Reply::ConnectionRefused => 0x05,
        Reply::TtlExpired => 0x06,
        Reply::CommandNotSupported => 0x07,
        Reply::AddressTypeNotSupported => 0x08,
    }
}

impl Reply {
    /// Encodes the reply as its wire byte.
    pub fn to_u8(&self) -> (r: u8)
        ensures
            r == spec_reply_byte(*self),
    {
        match self {
            Reply::Succeeded => 0x00,
            Reply::GeneralFailure => 0x01,
            Reply::ConnectionNotAllowed => 0x02,
            Reply::NetworkUnreachable => 0x03,
            Reply::HostUnreachable => 0x04,
            Reply::ConnectionRefused => 0x05,
            Reply::TtlExpired => 0x06,
            Reply::CommandNotSupported => 0x07,
            Reply::AddressTypeNotSupported => 0x08,
        }
    }
}

/// A target address as carried in a request.
#[derive(Debug, Clone, PartialEq, Eq)]
pub enum Address {
    /// Four octets and a port.
    Ipv4([u8; 4], u16),
    /// Sixteen octets and a port.
    Ipv6([u8; 16], u16),
    /// A domain name (1-255 bytes of UTF-8 on the wire) and a port.
    Domain(String, u16),
}

/// The mathematical value of an address: its octets or characters, and port.
#[verifier::ext_equal]
pub enum AddressModel {
    V4 { octets: Seq<u8>, port: u16 },
    V6 { octets: Seq<u8>, port: u16 },
    Name { name: Seq<char>, port: u16 },
}

impl View for Address {
    type V = AddressModel;

    open spec fn view(&self) -> AddressModel {
        match self {
            Address::Ipv4(octets, port) => AddressModel::V4 { octets: octets@, port: *port },
            Address::Ipv6(octets, port) => AddressModel::V6 { octets: octets@, port: *port },
            Address::Domain(name, port) => AddressModel::Name { name: name@, port: *port },
        }
    }
}

impl AddressModel {
    /// The port of the address.
    pub open spec fn port(self) -> u16 {
        match self {
            AddressModel::V4 { port, .. } => port,
            AddressModel::V6 { port, .. } => port,
            AddressModel::Name { port, .. } => port,
        }
    }

    /// Whether the address can be carried on the wire: octet counts are
    /// right and a domain name's UTF-8 encoding fits its length byte.
    pub open spec fn wf(self) -> bool {
        match self {
            AddressModel::V4 { octets, .. } => octets.len() == 4,
            AddressModel::V6 { octets, .. } => octets.len() == 16,
            AddressModel::Name { name, .. } => encode_utf8(name).len() <= 255,
        }
    }
}

/// The decimal digit character of a value below ten.
pub open spec fn spec_dec_digit(d: int) -> char {
    if d == 0 {
        '0'
    } else if d == 1 {
        '1'
    } else if d == 2 {
        '2'
    } else if d == 3 {
        '3'
    } else if d == 4 {
        '4'
    } else if d == 5 {
        '5'
    } else if d == 6 {
        '6'
    } else if d == 7 {
        '7'
    } else if d == 8 {
        '8'
    } else {
        '9'
    }
}

/// The decimal digits of a non-negative value, most significant first and
/// without leading zeros.
pub open spec fn spec_udec(n: int) -> Seq<char>
    recommends
        n >= 0,
    decreases n,
    when n >= 0
{
    if n < 10 {
        seq![spec_dec_digit(n)]
    } else {
        spec_udec(n / 10) + seq![spec_dec_digit(n % 10)]
    }
}

/// The lower-case hexadecimal digit character of a value below sixteen.
pub open spec fn spec_hex_digit(d: int) -> char {
    if d < 10 {
        spec_dec_digit(d)
    } else if d == 10 {
        'a'
    } else if d == 11 {
        'b'
    } else if d == 12 {
        'c'
    } else if d == 13 {
        'd'
    } else if d == 14 {
        'e'
    } else {
        'f'
    }
}

/// The lower-case hexadecimal digits of a non-negative value, most
/// significant first and without leading zeros.
pub open spec fn spec_uhex(n: int) -> Seq<char>
    recommends
        n >= 0,
    decreases n,
    when n >= 0
{
    if n < 16 {
        seq![spec_hex_digit(n)]
    } else {
        spec_uhex(n / 16) + seq![spec_hex_digit(n % 16)]
    }
}

/// The value of one sixteen-bit group of an IPv6 address.
pub open spec fn spec_ipv6_group(octets: Seq<u8>, i: int) -> int
    recommends
        octets.len() == 16,
        0 <= i < 8,
{
    octets[2 * i] * 256 + octets[2 * i + 1]
}

/// The length of the run of zero groups that starts at group `i`.
pub open spec fn spec_zero_run_len(octets: Seq<u8>, i: int) -> int
    recommends
        octets.len() == 16,
        0 <= i <= 8,
    decreases 8 - i,
    when i <= 8
{
    if i >= 8 || spec_ipv6_group(octets, i) != 0 {
        0
    } else {
        1 + spec_zero_run_len(octets, i + 1)
    }
}

/// The start and length of the longest run of zero groups at or after group
/// `i` — the leftmost such run on a tie, as the standard textual form picks
/// it.
pub open spec fn spec_longest_zero_run(octets: Seq<u8>, i: int) -> (int, int)
    recommends
        octets.len() == 16,
        0 <= i <= 8,
    decreases 8 - i,
    when i <= 8
{
    if i >= 8 {
        (8, 0)
    } else {
        let here = spec_zero_run_len(octets, i);
        let rest = spec_longest_zero_run(octets, i + 1);
        if here >= rest.1 {
            (i, here)
        } else {
            rest
        }
    }
}

/// Groups `from` up to `to` of an IPv6 address, in lower-case hexadecimal
/// without leading zeros, joined by colons.
pub open spec fn spec_ipv6_groups(octets: Seq<u8>, from: int, to: int) -> Seq<char>
    recommends
        octets.len() == 16,
        0 <= from,
        to <= 8,
    decreases to - from,
    when from <= to
{
    if from >= to {
        Seq::empty()
    } else if from + 1 == to {
        spec_uhex(spec_ipv6_group(octets, from))
    } else {
        spec_ipv6_groups(octets, from, to - 1) + seq![':'] + spec_uhex(
            spec_ipv6_group(octets, to - 1),
        )
    }
}

/// The text between the brackets: the groups in order, with the longest run
/// of two or more zero groups compressed to `::` (the leftmost such run on
/// a tie); a single zero group is not compressed.
pub open spec fn spec_ipv6_text(octets: Seq<u8>) -> Seq<char>
    recommends
        octets.len() == 16,
{
    let run = spec_longest_zero_run(octets, 0);
    if run.1 > 1 {
        spec_ipv6_groups(octets, 0, run.0) + seq![':', ':'] + spec_ipv6_groups(
            octets,
            run.0 + run.1,
            8,
        )
    } else {
        spec_ipv6_groups(octets, 0, 8)
    }
}

/// The textual form of an address, as handed to the outbound connector:
/// `a.b.c.d:port` for IPv4, `[groups]:port` for IPv6, `name:port` for a
/// domain name.
pub open spec fn spec_address_string(a: AddressModel) -> Seq<char> {
    match a {
        AddressModel::V4 { octets, port } => spec_udec(octets[0] as int) + seq!['.'] + spec_udec(
            octets[1] as int,
        ) + seq!['.'] + spec_udec(octets[2] as int) + seq!['.'] + spec_udec(octets[3] as int)
            + seq![':'] + spec_udec(port as int),
        AddressModel::V6 { octets, port } => seq!['['] + spec_ipv6_text(octets) + seq![
            ']',
            ':',
        ] + spec_udec(port as int),
        AddressModel::Name { name, port } => name + seq![':'] + spec_udec(port as int),
    }
}

/// The slice holding the decimal digit character of a value below ten.
fn dec_digit_str(d: u8) -> (s: &'static str)
    requires
        d < 10,
    ensures
        s@ == seq![spec_dec_digit(d as int)],
{
    proof {
        reveal_strlit("0");
        reveal_strlit("1");
        reveal_strlit("2");
        reveal_strlit("3");
        reveal_strlit("4");
        reveal_strlit("5");
        reveal_strlit("6");
        reveal_strlit("7");
        reveal_strlit("8");
        reveal_strlit("9");
    }
    let s = match d {
        0 => "0",
        1 => "1",
        2 => "2",
        3 => "3",
        4 => "4",
        5 => "5",
        6 => "6",
        7 => "7",
        8 => "8",
        _ => "9",
    };
    assert(s@ =~= seq![spec_dec_digit(d as int)]);
    s
}

/// The slice holding the lower-case hexadecimal digit character of a value
/// below sixteen.
fn hex_digit_str(d: u8) -> (s: &'static str)
    requires
        d < 16,
    ensures
        s@ == seq![spec_hex_digit(d as int)],
{
    if d < 10 {
        dec_digit_str(d)
    } else {
        proof {
            reveal_strlit("a");
            reveal_strlit("b");
            reveal_strlit("c");
            reveal_strlit("d");
            reveal_strlit("e");
            reveal_strlit("f");
        }
        let s = match d {
            10 => "a",
            11 => "b",
            12 => "c",
            13 => "d",
            14 => "e",
            _ => "f",
        };
        assert(s@ =~= seq![spec_hex_digit(d as int)]);
        s
    }
}

/// Appends the decimal digits of a value.
fn append_udec(out: &mut String, n: u16)
    ensures
        final(out)@ == old(out)@ + spec_udec(n as int),
    decreases n,
{
    if n < 10 {
        out.append(dec_digit_str(n as u8));
    } else {
        proof {
            lemma_div_is_strictly_smaller(n as int, 10);
            lemma_fundamental_div_mod(n as int, 10);
        }
        append_udec(out, n / 10);
        out.append(dec_digit_str((n % 10) as u8));
        assert(final(out)@ =~= old(out)@ + spec_udec(n as int));
    }
}

/// One sixteen-bit group of an IPv6 address.
fn ipv6_group(octets: &[u8; 16], i: usize) -> (g: u16)
    requires
        i < 8,
    ensures
        g as int == spec_ipv6_group(octets@, i as int),
{
    (octets[2 * i] as u16) * 256 + (octets[2 * i + 1] as u16)
}

/// The length of the run of zero groups starting at group `i`.
fn zero_run_len(octets: &[u8; 16], i: usize) -> (n: usize)
    requires
        i <= 8,
    ensures
        n as int == spec_zero_run_len(octets@, i as int),
        n <= 8 - i,
    decreases 8 - i,
{
    if i >= 8 {
        0
    } else if ipv6_group(octets, i) != 0 {
        0
    } else {
        1 + zero_run_len(octets, i + 1)
    }
}

/// The longest run of zero groups, leftmost on a tie.
fn longest_zero_run(octets: &[u8; 16], i: usize) -> (r: (usize, usize))
    requires
        i <= 8,
    ensures
        (r.0 as int, r.1 as int) == spec_longest_zero_run(octets@, i as int),
        r.0 <= 8,
        r.0 + r.1 <= 8,
    decreases 8 - i,
{
    if i >= 8 {
        (8, 0)
    } else {
        let here = zero_run_len(octets, i);
        let rest = longest_zero_run(octets, i + 1);
        if here >= rest.1 {
            (i, here)
        } else {
            rest
        }
    }
}

/// Appends groups `from` up to `to`, colon-separated.
fn append_ipv6_groups(out: &mut String, octets: &[u8; 16], from: usize, to: usize)
    requires
        from <= to,
        to <= 8,
    ensures
        final(out)@ == old(out)@ + spec_ipv6_groups(octets@, from as int, to as int),
    decreases to - from,
{
    if from >= to {
    } else if from + 1 == to {
        append_uhex(out, ipv6_group(octets, from));
    } else {
        append_ipv6_groups(out, octets, from, to - 1);
        proof {
            reveal_strlit(":");
        }
        out.append(":");
        append_uhex(out, ipv6_group(octets, to - 1));
        assert(final(out)@ =~= old(out)@ + spec_ipv6_groups(octets@, from as int, to as int));
    }
}

/// Appends the lower-case hexadecimal digits of a value.
fn append_uhex(out: &mut String, n: u16)
    ensures
        final(out)@ == old(out)@ + spec_uhex(n as int),
    decreases n,
{
    if n < 16 {
        out.append(hex_digit_str(n as u8));
    } else {
        proof {
            lemma_div_is_strictly_smaller(n as int, 16);
            lemma_fundamental_div_mod(n as int, 16);
        }
        append_uhex(out, n / 16);
        out.append(hex_digit_str((n % 16) as u8));
        assert(final(out)@ =~= old(out)@ + spec_uhex(n as int));
    }
}

impl Address {
    /// The port the request targets.
    pub fn port(&self) -> (p: u16)
        ensures
            p == self@.port(),
    {
        match self {
            Address::Ipv4(_, port) => *port,
            Address::Ipv6(_, port) => *port,
            Address::Domain(_, port) => *port,
        }
    }

    /// The textual `host:port` form of the address, as the outbound
    /// connector expects it.
    pub fn to_string(&self) -> (s: String)
        ensures
            s@ == spec_address_string(self@),
    {
        match self {
            Address::Ipv4(octets, port) => {
                proof {
                    reveal_strlit(".");
                    reveal_strlit(":");
                }
                let mut s = String::new();
                append_udec(&mut s, octets[0] as u16);
                s.append(".");
                append_udec(&mut s, octets[1] as u16);
                s.append(".");
                append_udec(&mut s, octets[2] as u16);
                s.append(".");
                append_udec(&mut s, octets[3] as u16);
                s.append(":");
                append_udec(&mut s, *port);
                assert(s@ =~= spec_address_string(self@));
                s
            },
            Address::Ipv6(octets, port) => {
                proof {
                    reveal_strlit("[");
                    reveal_strlit("]:");
                    reveal_strlit("::");
                }
                let mut s = String::new();
                s.append("[");
                let run = longest_zero_run(octets, 0);
                if run.1 > 1 {
                    append_ipv6_groups(&mut s, octets, 0, run.0);
                    s.append("::");
                    append_ipv6_groups(&mut s, octets, run.0 + run.1, 8);
                } else {
                    append_ipv6_groups(&mut s, octets, 0, 8);
                }
                s.append("]:");
                append_udec(&mut s, *port);
                assert(s@ =~= spec_address_string(self@));
                s
            },
            Address::Domain(name, port) => {
                proof {
                    reveal_strlit(":");
                }
                let mut s = name.clone();
                s.append(":");
                append_udec(&mut s, *port);
                assert(s@ =~= spec_address_string(self@));
                s
            },
        }
    }
}

/// One parsed connection request: what to do, and where.
#[derive(Debug, Clone, PartialEq, Eq)]
pub struct Request {
    pub command: Command,
    pub address: Address,
}

/// The mathematical value of a request.
#[verifier::ext_equal]
pub struct RequestModel {
    pub command: Command,
    pub address: AddressModel,
}

impl View for Request {
    type V = RequestModel;

    open spec fn view(&self) -> RequestModel {
        RequestModel { command: self.command, address: self.address@ }
    }
}

} // verus!
