//! Parsing and encoding of the connection request:
//! `VER | CMD | RSV | ATYP | DST.ADDR | DST.PORT`.

use vstd::prelude::*;
use vstd::utf8::{
    decode_utf8, decode_utf8_encode_utf8, encode_utf8, encode_utf8_decode_utf8,
    encode_utf8_valid_utf8, valid_utf8,
};
use vstd::arithmetic::div_mod::{
    lemma_fundamental_div_mod, lemma_fundamental_div_mod_converse_div,
    lemma_fundamental_div_mod_converse_mod,
};
use crate::error::ProxyError;
use crate::protocol::{
    spec_command_byte, spec_command_from_byte, Address, AddressModel, Command, Request,
    RequestModel,
};

verus! {

/// The two big-endian bytes of a port.
pub open spec fn spec_port_bytes(port: u16) -> Seq<u8> {
    seq![(port / 256) as u8, (port % 256) as u8]
}

/// The port two big-endian bytes carry.
pub open spec fn spec_port_value(hi: u8, lo: u8) -> u16 {
    (hi as int * 256 + lo as int) as u16
}

/// The wire bytes of an address: the address-type byte, the address itself
/// (length-prefixed UTF-8 for a domain name), then the port.
pub open spec fn spec_encode_address(a: AddressModel) -> Seq<u8> {
    match a {
        AddressModel::V4 { octets, port } => seq![0x01u8] + octets + spec_port_bytes(port),
        AddressModel::V6 { octets, port } => seq![0x04u8] + octets + spec_port_bytes(port),
        AddressModel::Name { name, port } => seq![0x03u8, encode_utf8(name).len() as u8]
            + encode_utf8(name) + spec_port_bytes(port),
    }
}

/// The wire bytes of a whole request. The reserved byte is written as zero.
pub open spec fn spec_encode_request(r: RequestModel) -> Seq<u8> {
    seq![0x05u8, spec_command_byte(r.command), 0x00u8] + spec_encode_address(r.address)
}

/// Whether a byte sequence is one complete, parseable request message.
/// The reserved byte is read and discarded, so any value passes there.
pub open spec fn valid_request_bytes(b: Seq<u8>) -> bool {
    &&& b.len() >= 4
    &&& b[0] == 0x05
    &&& spec_command_from_byte(b[1]) is Some
    &&& match b[3] {
        0x01 => b.len() == 10,
        0x04 => b.len() == 22,
        0x03 => b.len() >= 5 && b.len() == 7 + b[4] && valid_utf8(b.subrange(5, 5 + b[4])),
        _ => false,
    }
}

/// Whether a byte sequence is rejected for its length alone: it is not a
/// valid message, yet none of its bytes — version, command, address type,
/// domain bytes — is itself at fault. Such a message earns a generic
/// protocol error.
pub open spec fn spec_request_length_mismatch(b: Seq<u8>) -> bool {
    &&& !valid_request_bytes(b)
    &&& !(b.len() >= 1 && b[0] != 0x05)
    &&& !(b.len() >= 2 && spec_command_from_byte(b[1]) is None)
    &&& !(b.len() >= 4 && b[3] != 0x01 && b[3] != 0x03 && b[3] != 0x04)
    &&& !(b.len() >= 5 && b[3] == 0x03 && b.len() == 7 + b[4] && !valid_utf8(
        b.subrange(5, 5 + b[4]),
    ))
}

/// The request a valid message carries.
pub open spec fn spec_parse_request(b: Seq<u8>) -> RequestModel
    recommends
        valid_request_bytes(b),
{
    RequestModel {
        command: spec_command_from_byte(b[1]).unwrap(),
        address: if b[3] == 0x01 {
            AddressModel::V4 { octets: b.subrange(4, 8), port: spec_port_value(b[8], b[9]) }
        } else if b[3] == 0x04 {
            AddressModel::V6 { octets: b.subrange(4, 20), port: spec_port_value(b[20], b[21]) }
        } else {
            AddressModel::Name {
                name: decode_utf8(b.subrange(5, 5 + b[4])),
                port: spec_port_value(b[b.len() - 2], b[b.len() - 1]),
            }
        },
    }
}

/// Law: encoding a well-formed request and parsing the bytes back yields
/// the request unchanged, and the bytes are a valid message.
pub proof fn lemma_request_roundtrip(r: RequestModel)
    requires
        r.address.wf(),
    ensures
        valid_request_bytes(spec_encode_request(r)),
        spec_parse_request(spec_encode_request(r)) == r,
{
    let b = spec_encode_request(r);
    lemma_fundamental_div_mod(r.address.port() as int, 256);
    match r.address {
        AddressModel::V4 { octets, port } => {
            assert(b.subrange(4, 8) =~= octets);
            assert(spec_parse_request(b) == r);
        },
        AddressModel::V6 { octets, port } => {
            assert(b.subrange(4, 20) =~= octets);
            assert(spec_parse_request(b) == r);
        },
        AddressModel::Name { name, port } => {
            let enc = encode_utf8(name);
            encode_utf8_valid_utf8(name);
            encode_utf8_decode_utf8(name);
            assert(b[4] == enc.len() as u8);
            assert(b.subrange(5, 5 + b[4]) =~= enc);
            assert(b[b.len() - 2] == (port / 256) as u8);
            assert(b[b.len() - 1] == (port % 256) as u8);
            assert(spec_parse_request(b) == r);
        },
    }
}

/// Law: a valid message re-encodes to itself with the reserved byte
/// normalized to zero — parsing loses nothing but that byte's value — and
/// the request it carries is well-formed.
pub proof fn lemma_parse_then_encode(b: Seq<u8>)
    requires
        valid_request_bytes(b),
    ensures
        spec_parse_request(b).address.wf(),
        spec_encode_request(spec_parse_request(b)) =~= b.update(2, 0u8),
{
    let r = spec_parse_request(b);
    if b[3] == 0x01 {
        lemma_port_bytes_of_value(b[8], b[9]);
    } else if b[3] == 0x04 {
        lemma_port_bytes_of_value(b[20], b[21]);
    } else {
        let dom = b.subrange(5, 5 + b[4]);
        decode_utf8_encode_utf8(dom);
        lemma_port_bytes_of_value(b[b.len() - 2], b[b.len() - 1]);
    }
}

/// The big-endian bytes of the port two bytes carry are those two bytes.
proof fn lemma_port_bytes_of_value(hi: u8, lo: u8)
    ensures
        spec_port_bytes(spec_port_value(hi, lo)) == seq![hi, lo],
{
    let x = hi as int * 256 + lo as int;
    lemma_fundamental_div_mod_converse_div(x, 256, hi as int, lo as int);
    lemma_fundamental_div_mod_converse_mod(x, 256, hi as int, lo as int);
    assert(spec_port_bytes(spec_port_value(hi, lo)) =~= seq![hi, lo]);
}

/// Relies on String::from_utf8: returns the string whose UTF-8 bytes are
/// the input, or nothing when the input is not valid UTF-8.
#[verifier::external_body]
fn string_from_utf8(bytes: Vec<u8>) -> (r: Option<String>)
    ensures
        r is Some <==> valid_utf8(bytes@),
        r matches Some(s) ==> encode_utf8(s@) == bytes@,
{
    String::from_utf8(bytes).ok()
}

/// Reads a big-endian port from its two bytes.
fn port_value(hi: u8, lo: u8) -> (r: u16)
    ensures
        r == spec_port_value(hi, lo),
{
    (hi as u16) * 256 + (lo as u16)
}

/// How many bytes of a request remain to be read once the four header bytes
/// and, for a domain address, the length byte are in hand; nothing for an
/// address type that is not recognized.
pub fn remaining_address_len(atyp: u8, domain_len: u8) -> (r: Option<usize>)
    ensures
        atyp == 0x01 ==> r == Some(6usize),
        atyp == 0x04 ==> r == Some(18usize),
        atyp == 0x03 ==> r == Some((domain_len + 2) as usize),
        atyp != 0x01 && atyp != 0x03 && atyp != 0x04 ==> r is None,
{
    match atyp {
        0x01 => Some(6),
        0x04 => Some(18),
        0x03 => Some(domain_len as usize + 2),
        _ => None,
    }
}

/// Parses one complete request message.
///
/// Succeeds exactly on valid messages and returns the request they carry.
/// Each rejection names its cause: a wrong version byte, an unknown command
/// byte, an unknown address-type byte, a domain name that is not UTF-8, or
/// a message whose length does not fit its own address type.
pub fn parse_request(input: &Vec<u8>) -> (r: Result<Request, ProxyError>)
    ensures
        r is Ok <==> valid_request_bytes(input@),
        r matches Ok(req) ==> req@ == spec_parse_request(input@) && req@.address.wf(),
        input@.len() >= 1 && input@[0] != 0x05 ==> r == Result::<Request, ProxyError>::Err(
            ProxyError::InvalidVersion(input@[0]),
        ),
        input@.len() >= 2 && input@[0] == 0x05 && spec_command_from_byte(input@[1]) is None ==> r
            == Result::<Request, ProxyError>::Err(ProxyError::UnsupportedCommand(input@[1])),
        input@.len() >= 4 && input@[0] == 0x05 && spec_command_from_byte(input@[1]) is Some
            && input@[3] != 0x01 && input@[3] != 0x03 && input@[3] != 0x04 ==> r == Result::<
            Request,
            ProxyError,
        >::Err(ProxyError::UnsupportedAddressType(input@[3])),
        input@.len() >= 5 && input@[0] == 0x05 && spec_command_from_byte(input@[1]) is Some
            && input@[3] == 0x03 && input@.len() == 7 + input@[4] && !valid_utf8(
            input@.subrange(5, 5 + input@[4]),
        ) ==> r == Result::<Request, ProxyError>::Err(ProxyError::InvalidAddress),
        spec_request_length_mismatch(input@) ==> (r matches Err(e) && e is Protocol),
{
    if input.len() < 1 {
        return Err(ProxyError::Protocol("empty request".to_owned()));
    }
    let version = input[0];
    if version != 0x05 {
        return Err(ProxyError::InvalidVersion(version));
    }
    if input.len() < 2 {
        return Err(ProxyError::Protocol("truncated request".to_owned()));
    }
    let command = match Command::from_u8(input[1]) {
        Some(c) => c,
        None => {
            return Err(ProxyError::UnsupportedCommand(input[1]));
        },
    };
    if input.len() < 4 {
        return Err(ProxyError::Protocol("truncated request".to_owned()));
    }
    // input[2] is the reserved byte: read and discarded.
    let atyp = input[3];
    match atyp {
        0x01 => {
            if input.len() != 10 {
                return Err(ProxyError::Protocol("request length does not fit IPv4".to_owned()));
            }
            let octets: [u8; 4] = [input[4], input[5], input[6], input[7]];
            let port = port_value(input[8], input[9]);
            let request = Request { command, address: Address::Ipv4(octets, port) };
            proof {
                assert(octets@ =~= input@.subrange(4, 8));
                assert(request@ == spec_parse_request(input@));
            }
            Ok(request)
        },
        0x04 => {
            if input.len() != 22 {
                return Err(ProxyError::Protocol("request length does not fit IPv6".to_owned()));
            }
            let octets: [u8; 16] = [
                input[4],
                input[5],
                input[6],
                input[7],
                input[8],
                input[9],
                input[10],
                input[11],
                input[12],
                input[13],
                input[14],
                input[15],
                input[16],
                input[17],
                input[18],
                input[19],
            ];
            let port = port_value(input[20], input[21]);
            let request = Request { command, address: Address::Ipv6(octets, port) };
            proof {
                assert(octets@ =~= input@.subrange(4, 20));
                assert(request@ == spec_parse_request(input@));
            }
            Ok(request)
        },
        0x03 => {
            if input.len() < 5 {
                return Err(ProxyError::Protocol("truncated request".to_owned()));
            }
            let domain_len = input[4] as usize;
            if input.len() != 7 + domain_len {
                return Err(ProxyError::Protocol("request length does not fit domain".to_owned()));
            }
            let mut name_bytes: Vec<u8> = Vec::new();
            let mut i: usize = 0;
            while i < domain_len
                invariant
                    domain_len == input@[4],
                    input@.len() == 7 + domain_len,
                    i <= domain_len,
                    name_bytes@ =~= input@.subrange(5, 5 + i),
                decreases domain_len - i,
            {
                name_bytes.push(input[5 + i]);
                i += 1;
            }
            assert(name_bytes@ =~= input@.subrange(5, 5 + input@[4]));
            let name = match string_from_utf8(name_bytes) {
                Some(name) => name,
                None => {
                    return Err(ProxyError::InvalidAddress);
                },
            };
            let port = port_value(input[input.len() - 2], input[input.len() - 1]);
            let request = Request { command, address: Address::Domain(name, port) };
            proof {
                encode_utf8_decode_utf8(name@);
                assert(request@ == spec_parse_request(input@));
            }
            Ok(request)
        },
        _ => Err(ProxyError::UnsupportedAddressType(atyp)),
    }
}

/// Encodes a request as one wire message, with the reserved byte zero;
/// nothing when the domain name's UTF-8 encoding is longer than its length
/// byte can carry.
pub fn encode_request(request: &Request) -> (r: Option<Vec<u8>>)
    ensures
        r is Some <==> request@.address.wf(),
        r matches Some(bytes) ==> bytes@ == spec_encode_request(request@),
{
    let mut bytes: Vec<u8> = Vec::new();
    bytes.push(0x05);
    bytes.push(request.command.to_u8());
    bytes.push(0x00);
    let port: u16;
    match &request.address {
        Address::Ipv4(octets, p) => {
            bytes.push(0x01);
            let mut i: usize = 0;
            while i < 4
                invariant
                    i <= 4,
                    bytes@ =~= seq![
                        0x05u8,
                        spec_command_byte(request.command),
                        0x00u8,
                        0x01u8,
                    ] + octets@.subrange(0, i as int),
                decreases 4 - i,
            {
                bytes.push(octets[i]);
                i += 1;
            }
            assert(octets@.subrange(0, 4) =~= octets@);
            port = *p;
        },
        Address::Ipv6(octets, p) => {
            bytes.push(0x04);
            let mut i: usize = 0;
            while i < 16
                invariant
                    i <= 16,
                    bytes@ =~= seq![
                        0x05u8,
                        spec_command_byte(request.command),
                        0x00u8,
                        0x04u8,
                    ] + octets@.subrange(0, i as int),
                decreases 16 - i,
            {
                bytes.push(octets[i]);
                i += 1;
            }
            assert(octets@.subrange(0, 16) =~= octets@);
            port = *p;
        },
        Address::Domain(name, p) => {
            let name_bytes = name.as_str().as_bytes();
            if name_bytes.len() > 255 {
                return None;
            }
            bytes.push(0x03);
            bytes.push(name_bytes.len() as u8);
            let mut i: usize = 0;
            while i < name_bytes.len()
                invariant
                    i <= name_bytes@.len(),
                    name_bytes@ == encode_utf8(name@),
                    name_bytes@.len() <= 255,
                    bytes@ =~= seq![
                        0x05u8,
                        spec_command_byte(request.command),
                        0x00u8,
                        0x03u8,
                        name_bytes@.len() as u8,
                    ] + name_bytes@.subrange(0, i as int),
                decreases name_bytes@.len() - i,
            {
                bytes.push(name_bytes[i]);
                i += 1;
            }
            assert(name_bytes@.subrange(0, name_bytes@.len() as int) =~= name_bytes@);
            port = *p;
        },
    }
    bytes.push((port / 256) as u8);
    bytes.push((port % 256) as u8);
    assert(bytes@ =~= spec_encode_request(request@));
    Some(bytes)
}

} // verus!
