//! Username/password subnegotiation, entered only when the handshake
//! selected that method.

use vstd::prelude::*;
use vstd::utf8::encode_utf8;
use crate::config::{AuthConfig, UserCredential};
use crate::error::ProxyError;

verus! {

/// Whether some configured credential matches the offered username and
/// password, byte-for-byte against the UTF-8 bytes of the configured pair.
pub open spec fn spec_credentials_match(
    users: Seq<UserCredential>,
    username: Seq<u8>,
    password: Seq<u8>,
) -> bool {
    exists|i: int|
        0 <= i < users.len() && encode_utf8(users[i].username@) == username && encode_utf8(
            users[i].password@,
        ) == password
}

/// Whether a slice and a vector hold the same bytes.
fn bytes_match(a: &[u8], b: &Vec<u8>) -> (r: bool)
    ensures
        r == (a@ == b@),
{
    if a.len() != b.len() {
        return false;
    }
    let mut i: usize = 0;
    while i < a.len()
        invariant
            a@.len() == b@.len(),
            i <= a@.len(),
            forall|j: int| 0 <= j < i ==> a@[j] == b@[j],
        decreases a@.len() - i,
    {
        if a[i] != b[i] {
            return false;
        }
        i += 1;
    }
    assert(a@ =~= b@);
    true
}

/// Whether the offered username and password match some configured
/// credential.
pub fn verify_credentials(config: &AuthConfig, username: &Vec<u8>, password: &Vec<u8>) -> (r: bool)
    ensures
        r == spec_credentials_match(config.users@, username@, password@),
{
    let mut i: usize = 0;
    while i < config.users.len()
        invariant
            i <= config.users@.len(),
            forall|j: int|
                0 <= j < i ==> !(encode_utf8(config.users@[j].username@) == username@
                    && encode_utf8(config.users@[j].password@) == password@),
        decreases config.users@.len() - i,
    {
        let user = &config.users[i];
        if bytes_match(user.username.as_str().as_bytes(), username) && bytes_match(
            user.password.as_str().as_bytes(),
            password,
        ) {
            return true;
        }
        i += 1;
    }
    false
}

/// The outcome of an authentication attempt: whether it succeeded, and the
/// two response bytes (subnegotiation version, then status) the client must
/// be sent before the connection proceeds or is torn down.
#[derive(Debug)]
pub struct AuthOutcome {
    pub success: bool,
    pub response: Vec<u8>,
}

/// Authenticates from the bytes of the client's subnegotiation message:
/// the version byte and the raw username and password bytes.
///
/// A wrong subnegotiation version is rejected before anything is written.
/// Otherwise the response carries status 0x00 exactly when some configured
/// credential matches byte-for-byte; the caller writes the response first,
/// and only then tears the connection down on failure.
pub fn authenticate(
    version: u8,
    username: &Vec<u8>,
    password: &Vec<u8>,
    config: &AuthConfig,
) -> (r: Result<AuthOutcome, ProxyError>)
    ensures
        version != 0x01 ==> (r matches Err(e) && e is Protocol),
        version == 0x01 ==> (r matches Ok(out) && {
            &&& out.success == spec_credentials_match(config.users@, username@, password@)
            &&& out.response@ == seq![
                0x01u8,
                if out.success {
                    0x00u8
                } else {
                    0x01u8
                },
            ]
        }),
{
    if version != 0x01 {
        return Err(ProxyError::Protocol("invalid subnegotiation version".to_owned()));
    }
    let success = verify_credentials(config, username, password);
    let mut response: Vec<u8> = Vec::new();
    response.push(0x01);
    response.push(if success {
        0x00
    } else {
        0x01
    });
    assert(response@ =~= seq![
        0x01u8,
        if success {
            0x00u8
        } else {
            0x01u8
        },
    ]);
    Ok(AuthOutcome { success, response })
}

} // verus!
