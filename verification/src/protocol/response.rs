//! The response message sent after the request stage, for success and for
//! every reply-bearing failure.

use vstd::prelude::*;
use crate::protocol::{spec_reply_byte, Address, Reply};

verus! {

/// The ten bytes of a response: version, reply code, reserved byte, then a
/// fixed placeholder bound address (IPv4 0.0.0.0, port 0). The real local
/// address of the outbound connection is deliberately not reported.
pub open spec fn spec_response_bytes(reply: Reply) -> Seq<u8> {
    seq![0x05u8, spec_reply_byte(reply), 0x00u8, 0x01u8, 0u8, 0u8, 0u8, 0u8, 0u8, 0u8]
}

/// Builds the bytes of a response carrying the given reply; the caller
/// writes them to the client and flushes.
fn send_reply_bytes(reply: Reply) -> (r: Vec<u8>)
    ensures
        r@ == spec_response_bytes(reply),
{
    let mut bytes: Vec<u8> = Vec::new();
    bytes.push(0x05);
    bytes.push(reply.to_u8());
    bytes.push(0x00);
    bytes.push(0x01);
    bytes.push(0);
    bytes.push(0);
    bytes.push(0);
    bytes.push(0);
    bytes.push(0);
    bytes.push(0);
    assert(bytes@ =~= spec_response_bytes(reply));
    bytes
}

/// Builds the success response. The request's address plays no part in the
/// bytes: the bound address reported is always the placeholder.
pub fn send_success(_address: &Address) -> (r: Vec<u8>)
    ensures
        r@ == spec_response_bytes(Reply::Succeeded),
{
    send_reply_bytes(Reply::Succeeded)
}

/// Builds the failure response carrying the given reply.
pub fn send_failure(reply: Reply) -> (r: Vec<u8>)
    ensures
        r@ == spec_response_bytes(reply),
{
    send_reply_bytes(reply)
}

} // verus!
