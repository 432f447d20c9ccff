use yun_socket_proxy::config::{AuthConfig, UserCredential};
use yun_socket_proxy::error::ProxyError;
use yun_socket_proxy::protocol::auth::authenticate;
use yun_socket_proxy::protocol::handshake::negotiate_auth;
use yun_socket_proxy::protocol::AuthMethod;

#[test]
fn handshake_no_auth_selects_no_auth() {
    // Auth disabled, client offers [0x00]: response is [0x05, 0x00].
    let selection = negotiate_auth(0x05, &vec![0x00], false).unwrap();
    assert_eq!(selection.method, AuthMethod::NoAuth);
    assert_eq!(selection.response, vec![0x05, 0x00]);
}

#[test]
fn handshake_rejects_when_only_userpass_offered_without_auth() {
    // Auth disabled, client offers only [0x02]: response is [0x05, 0xFF];
    // the stage then fails with NoAcceptableAuth after that write.
    let selection = negotiate_auth(0x05, &vec![0x02], false).unwrap();
    assert_eq!(selection.method, AuthMethod::NoAcceptable);
    assert_eq!(selection.response, vec![0x05, 0xFF]);
}

#[test]
fn handshake_auth_enabled_selects_userpass() {
    // Auth enabled, client offers [0x00, 0x02]: response is [0x05, 0x02].
    let selection = negotiate_auth(0x05, &vec![0x00, 0x02], true).unwrap();
    assert_eq!(selection.method, AuthMethod::UsernamePassword);
    assert_eq!(selection.response, vec![0x05, 0x02]);
}

#[test]
fn handshake_auth_enabled_without_userpass_rejects() {
    let selection = negotiate_auth(0x05, &vec![0x00], true).unwrap();
    assert_eq!(selection.method, AuthMethod::NoAcceptable);
    assert_eq!(selection.response, vec![0x05, 0xFF]);
}

#[test]
fn handshake_rejects_wrong_version() {
    let result = negotiate_auth(0x04, &vec![0x00], false);
    assert_eq!(result.unwrap_err(), ProxyError::InvalidVersion(0x04));
}

#[test]
fn handshake_rejects_empty_method_list() {
    let result = negotiate_auth(0x05, &vec![], false);
    assert!(matches!(result.unwrap_err(), ProxyError::Protocol(_)));
}

fn one_user_config() -> AuthConfig {
    AuthConfig {
        enabled: true,
        methods: vec!["username_password".to_string()],
        users: vec![UserCredential {
            username: "admin".to_string(),
            password: "secret".to_string(),
        }],
    }
}

#[test]
fn auth_accepts_matching_credentials() {
    let config = one_user_config();
    let outcome = authenticate(
        0x01,
        &b"admin".to_vec(),
        &b"secret".to_vec(),
        &config,
    )
    .unwrap();
    assert!(outcome.success);
    assert_eq!(outcome.response, vec![0x01, 0x00]);
}

#[test]
fn auth_rejects_unknown_credentials() {
    // A pair not in the configured set earns response [0x01, 0x01].
    let config = one_user_config();
    let outcome = authenticate(
        0x01,
        &b"admin".to_vec(),
        &b"wrong".to_vec(),
        &config,
    )
    .unwrap();
    assert!(!outcome.success);
    assert_eq!(outcome.response, vec![0x01, 0x01]);
}

#[test]
fn auth_rejects_invalid_utf8_offer() {
    // Invalid UTF-8 is not an error: authentication proceeds and simply
    // matches no configured credential.
    let config = one_user_config();
    let outcome = authenticate(0x01, &vec![0xFF, 0xFE], &b"secret".to_vec(), &config).unwrap();
    assert!(!outcome.success);
    assert_eq!(outcome.response, vec![0x01, 0x01]);
}

#[test]
fn auth_rejects_wrong_subnegotiation_version() {
    let config = one_user_config();
    let result = authenticate(0x02, &b"admin".to_vec(), &b"secret".to_vec(), &config);
    assert!(matches!(result.unwrap_err(), ProxyError::Protocol(_)));
}
