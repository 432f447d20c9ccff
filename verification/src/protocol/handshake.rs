//! Method negotiation: the first exchange on every connection.
//!
//! The client offers a list of authentication methods; the proxy picks one
//! and answers with two bytes, version and selected method.

use vstd::prelude::*;
use crate::error::ProxyError;
use crate::protocol::{spec_method_byte, AuthMethod};

verus! {

/// The selection rule of the handshake: with authentication enabled the
/// proxy wants username/password, without it no authentication; a client
/// that offers neither gets `NoAcceptable`.
pub open spec fn spec_select_method(auth_enabled: bool, methods: Seq<u8>) -> AuthMethod {
    if auth_enabled {
        if methods.contains(0x02) {
            AuthMethod::UsernamePassword
        } else {
            AuthMethod::NoAcceptable
        }
    } else {
        if methods.contains(0x00) {
            AuthMethod::NoAuth
        } else {
            AuthMethod::NoAcceptable
        }
    }
}

/// The outcome of a successful method negotiation: the selected method and
/// the two response bytes the client must be sent.
#[derive(Debug)]
pub struct MethodSelection {
    pub method: AuthMethod,
    pub response: Vec<u8>,
}

/// Whether a byte occurs in a vector.
fn contains_byte(haystack: &Vec<u8>, needle: u8) -> (r: bool)
    ensures
        r == haystack@.contains(needle),
{
    let mut i: usize = 0;
    while i < haystack.len()
        invariant
            i <= haystack@.len(),
            forall|j: int| 0 <= j < i ==> haystack@[j] != needle,
        decreases haystack@.len() - i,
    {
        if haystack[i] == needle {
            return true;
        }
        i += 1;
    }
    false
}

/// Negotiates the authentication method from the bytes of the client's
/// greeting: the version byte and the offered method bytes.
///
/// A wrong version or an empty method list is rejected before anything is
/// written. Otherwise the selection rule picks the method, and the response
/// is the version byte followed by the selected method's byte; the caller
/// writes it even when the selection is `NoAcceptable`, so that the client
/// sees the rejection before the connection is torn down.
pub fn negotiate_auth(version: u8, methods: &Vec<u8>, auth_enabled: bool) -> (r: Result<
    MethodSelection,
    ProxyError,
>)
    ensures
        version != 0x05 ==> r == Result::<MethodSelection, ProxyError>::Err(
            ProxyError::InvalidVersion(version),
        ),
        version == 0x05 && methods@.len() == 0 ==> (r matches Err(e) && e is Protocol),
        version == 0x05 && methods@.len() > 0 ==> (r matches Ok(sel) && {
            &&& sel.method == spec_select_method(auth_enabled, methods@)
            &&& sel.response@ == seq![0x05u8, spec_method_byte(sel.method)]
        }),
{
    if version != 0x05 {
        return Err(ProxyError::InvalidVersion(version));
    }
    if methods.len() == 0 {
        return Err(ProxyError::Protocol("no authentication methods offered".to_owned()));
    }
    let method = if auth_enabled {
        if contains_byte(methods, 0x02) {
            AuthMethod::UsernamePassword
        } else {
            AuthMethod::NoAcceptable
        }
    } else {
        if contains_byte(methods, 0x00) {
            AuthMethod::NoAuth
        } else {
            AuthMethod::NoAcceptable
        }
    };
    let mut response: Vec<u8> = Vec::new();
    response.push(0x05);
    response.push(method.to_u8());
    assert(response@ =~= seq![0x05u8, spec_method_byte(method)]);
    Ok(MethodSelection { method, response })
}

} // verus!
