//! The per-connection state machine: it sequences handshake, optional
//! authentication, request parsing and dispatch, and decides what the
//! surrounding I/O driver must do next.
//!
//! The driver reads one message (or finishes one piece of outside work),
//! hands it in as a [`ConnEvent`], and performs the returned [`ConnAction`]:
//! write bytes, open the target connection, relay, or close. Every failure
//! at any stage drives the machine to `Closed`; it never reopens.

use vstd::prelude::*;
use crate::config::{AuthConfig, Config, UserCredential};
use crate::error::ProxyError;
use crate::protocol::auth::{authenticate, spec_credentials_match};
use crate::protocol::handshake::{negotiate_auth, spec_select_method};
use crate::protocol::request::{
    parse_request, spec_parse_request, spec_request_length_mismatch, valid_request_bytes,
};
use crate::protocol::response::{send_failure, spec_response_bytes};
use crate::protocol::{
    spec_command_byte, spec_command_from_byte, Address, AuthMethod, Command, Reply,
};
use vstd::utf8::valid_utf8;

verus! {

/// The read-only slice of configuration one connection needs, shared in
/// spirit across all connections and never written after server start.
pub struct ConnectionContext {
    pub auth: AuthConfig,
    pub connect_timeout_secs: u64,
    pub tcp_nodelay: bool,
    pub tcp_keepalive: bool,
}

/// Copies a credential list, value for value.
fn clone_users(users: &Vec<UserCredential>) -> (r: Vec<UserCredential>)
    ensures
        r@ == users@,
{
    let mut r: Vec<UserCredential> = Vec::new();
    let mut i: usize = 0;
    while i < users.len()
        invariant
            i <= users@.len(),
            r@ =~= users@.subrange(0, i as int),
        decreases users@.len() - i,
    {
        let user = &users[i];
        r.push(UserCredential { username: user.username.clone(), password: user.password.clone() });
        i += 1;
    }
    assert(r@ =~= users@);
    r
}

/// Copies a list of strings, value for value.
fn clone_strings(strings: &Vec<String>) -> (r: Vec<String>)
    ensures
        r@ == strings@,
{
    let mut r: Vec<String> = Vec::new();
    let mut i: usize = 0;
    while i < strings.len()
        invariant
            i <= strings@.len(),
            r@ =~= strings@.subrange(0, i as int),
        decreases strings@.len() - i,
    {
        r.push(strings[i].clone());
        i += 1;
    }
    assert(r@ =~= strings@);
    r
}

impl ConnectionContext {
    /// Takes the per-connection view out of the whole configuration.
    pub fn from_config(config: &Config) -> (c: Self)
        ensures
            c.auth.enabled == config.auth.enabled,
            c.auth.methods@ == config.auth.methods@,
            c.auth.users@ == config.auth.users@,
            c.connect_timeout_secs == config.server.connection_timeout_secs,
            c.tcp_nodelay == config.performance.tcp_nodelay,
            c.tcp_keepalive == config.performance.tcp_keepalive,
    {
        ConnectionContext {
            auth: AuthConfig {
                enabled: config.auth.enabled,
                methods: clone_strings(&config.auth.methods),
                users: clone_users(&config.auth.users),
            },
            connect_timeout_secs: config.server.connection_timeout_secs,
            tcp_nodelay: config.performance.tcp_nodelay,
            tcp_keepalive: config.performance.tcp_keepalive,
        }
    }
}

/// Where a connection stands in its handling.
#[derive(Debug, Clone, Copy, PartialEq, Eq, Structural)]
pub enum Stage {
    /// Waiting for the client's greeting.
    Handshake,
    /// Username/password was selected; waiting for the subnegotiation.
    Authenticating,
    /// Method settled; waiting for the request message.
    AwaitingRequest,
    /// The driver is opening the target connection.
    Connecting,
    /// Bytes flow both ways until either side closes.
    Relaying,
    /// Handling is over; the permit can go back.
    Closed,
}

/// How the attempt to open the target connection ended.
pub enum ConnectOutcome {
    /// The target accepted.
    Established,
    /// The target refused the connection.
    Refused { message: String },
    /// The operating system reported a timeout.
    TimedOut { message: String },
    /// Any other transport failure.
    Failed { message: String },
    /// The configured connect deadline elapsed first.
    DeadlineElapsed,
}

/// One thing the driver reports to the machine.
pub enum ConnEvent {
    /// The client's greeting: version byte and offered method bytes.
    Greeting { version: u8, methods: Vec<u8> },
    /// The subnegotiation message: version byte, raw username and password.
    AuthMessage { version: u8, username: Vec<u8>, password: Vec<u8> },
    /// One complete request message.
    RequestMessage { message: Vec<u8> },
    /// The outbound connect finished.
    ConnectFinished { outcome: ConnectOutcome },
    /// The relay ended, cleanly or with a transport error.
    RelayFinished { error: Option<String> },
}

/// What the driver must do next.
pub enum ConnAction {
    /// Write these bytes to the client and go on.
    Send { bytes: Vec<u8> },
    /// Write these bytes to the client, then close with this error.
    SendAndClose { bytes: Vec<u8>, error: ProxyError },
    /// Open a connection to this address, within this many seconds.
    OpenTarget { address: Address, timeout_secs: u64 },
    /// Close; the connection ended cleanly.
    CloseOk,
    /// Close with this error, writing nothing more.
    CloseErr { error: ProxyError },
}

/// Which event each stage is waiting for.
pub open spec fn spec_event_fits(stage: Stage, event: ConnEvent) -> bool {
    match stage {
        Stage::Handshake => event is Greeting,
        Stage::Authenticating => event is AuthMessage,
        Stage::AwaitingRequest => event is RequestMessage,
        Stage::Connecting => event is ConnectFinished,
        Stage::Relaying => event is RelayFinished,
        Stage::Closed => false,
    }
}

/// The reply a failed connect attempt earns.
pub open spec fn spec_connect_failure_reply(outcome: ConnectOutcome) -> Reply
    recommends
        !(outcome is Established),
{
    match outcome {
        ConnectOutcome::Established => Reply::Succeeded,
        ConnectOutcome::Refused { .. } => Reply::ConnectionRefused,
        ConnectOutcome::TimedOut { .. } => Reply::TtlExpired,
        ConnectOutcome::Failed { .. } => Reply::HostUnreachable,
        ConnectOutcome::DeadlineElapsed => Reply::TtlExpired,
    }
}

/// One connection's state machine.
pub struct Connection {
    /// The configuration this connection reads.
    pub ctx: ConnectionContext,
    /// Where the connection stands.
    pub stage: Stage,
}

impl Connection {
    /// Where the connection stands.
    pub open spec fn spec_stage(&self) -> Stage {
        self.stage
    }

    /// A fresh machine, waiting for the client's greeting.
    pub fn new(ctx: ConnectionContext) -> (c: Self)
        ensures
            c.ctx == ctx,
            c.spec_stage() == Stage::Handshake,
    {
        Connection { ctx, stage: Stage::Handshake }
    }

    /// Where the connection stands.
    pub fn stage(&self) -> (s: Stage)
        ensures
            s == self.spec_stage(),
    {
        self.stage
    }

    /// Advances the machine by one event and says what to do next.
    ///
    /// The stages run strictly in order — handshake, authentication only
    /// when username/password was selected, request, dispatch, relay — and
    /// any failure at any stage closes the connection; the remaining stages
    /// never run. An event that its stage is not waiting for closes the
    /// connection with a protocol error.
    pub fn step(&mut self, event: ConnEvent) -> (action: ConnAction)
        ensures
            final(self).ctx == old(self).ctx,
            (action is CloseOk || action is CloseErr || action is SendAndClose)
                <==> final(self).spec_stage() == Stage::Closed,
            !spec_event_fits(old(self).spec_stage(), event) ==> final(self).spec_stage()
                == Stage::Closed && (action matches ConnAction::CloseErr { error } && error
                is Protocol),
            old(self).spec_stage() == Stage::Handshake ==> (event matches ConnEvent::Greeting {
                version,
                methods,
            } ==> {
                &&& version != 0x05 ==> final(self).spec_stage() == Stage::Closed && action
                    == (ConnAction::CloseErr { error: ProxyError::InvalidVersion(version) })
                &&& version == 0x05 && methods@.len() == 0 ==> final(self).spec_stage()
                    == Stage::Closed && (action matches ConnAction::CloseErr { error } && error
                    is Protocol)
                &&& version == 0x05 && methods@.len() > 0 ==> {
                    let selected = spec_select_method(old(self).ctx.auth.enabled, methods@);
                    &&& selected == AuthMethod::UsernamePassword ==> final(self).spec_stage()
                        == Stage::Authenticating && (action matches ConnAction::Send { bytes }
                        && bytes@ == seq![0x05u8, 0x02u8])
                    &&& selected == AuthMethod::NoAuth ==> final(self).spec_stage()
                        == Stage::AwaitingRequest && (action matches ConnAction::Send { bytes }
                        && bytes@ == seq![0x05u8, 0x00u8])
                    &&& selected == AuthMethod::NoAcceptable ==> final(self).spec_stage()
                        == Stage::Closed && (action matches ConnAction::SendAndClose {
                        bytes,
                        error,
                    } && bytes@ == seq![0x05u8, 0xFFu8] && error == ProxyError::NoAcceptableAuth)
                }
            }),
            old(self).spec_stage() == Stage::Authenticating ==> (event
                matches ConnEvent::AuthMessage { version, username, password } ==> {
                &&& version != 0x01 ==> final(self).spec_stage() == Stage::Closed && (action
                    matches ConnAction::CloseErr { error } && error is Protocol)
                &&& version == 0x01 ==> {
                    let ok = spec_credentials_match(
                        old(self).ctx.auth.users@,
                        username@,
                        password@,
                    );
                    &&& ok ==> final(self).spec_stage() == Stage::AwaitingRequest && (action
                        matches ConnAction::Send { bytes } && bytes@ == seq![0x01u8, 0x00u8])
                    &&& !ok ==> final(self).spec_stage() == Stage::Closed && (action
                        matches ConnAction::SendAndClose { bytes, error } && bytes@ == seq![
                        0x01u8,
                        0x01u8,
                    ] && error == ProxyError::AuthFailed)
                }
            }),
            old(self).spec_stage() == Stage::AwaitingRequest ==> (event
                matches ConnEvent::RequestMessage { message } ==> {
                let b = message@;
                &&& valid_request_bytes(b) ==> {
                    let req = spec_parse_request(b);
                    &&& req.command == Command::Connect ==> final(self).spec_stage()
                        == Stage::Connecting && (action matches ConnAction::OpenTarget {
                        address,
                        timeout_secs,
                    } && address@ == req.address
                        && timeout_secs == old(self).ctx.connect_timeout_secs)
                    &&& req.command != Command::Connect ==> final(self).spec_stage()
                        == Stage::Closed && (action matches ConnAction::SendAndClose {
                        bytes,
                        error,
                    } && bytes@ == spec_response_bytes(Reply::CommandNotSupported) && error
                        == ProxyError::UnsupportedCommand(spec_command_byte(req.command)))
                }
                &&& !valid_request_bytes(b) ==> final(self).spec_stage() == Stage::Closed && {
                    &&& b.len() >= 1 && b[0] != 0x05 ==> action == (ConnAction::CloseErr {
                        error: ProxyError::InvalidVersion(b[0]),
                    })
                    &&& b.len() >= 2 && b[0] == 0x05 && spec_command_from_byte(b[1]) is None
                        ==> (action matches ConnAction::SendAndClose { bytes, error } && bytes@
                        == spec_response_bytes(Reply::CommandNotSupported) && error
                        == ProxyError::UnsupportedCommand(b[1]))
                    &&& b.len() >= 4 && b[0] == 0x05 && spec_command_from_byte(b[1]) is Some
                        && b[3] != 0x01 && b[3] != 0x03 && b[3] != 0x04 ==> (action
                        matches ConnAction::SendAndClose { bytes, error } && bytes@
                        == spec_response_bytes(Reply::AddressTypeNotSupported) && error
                        == ProxyError::UnsupportedAddressType(b[3]))
                    &&& b.len() >= 5 && b[0] == 0x05 && spec_command_from_byte(b[1]) is Some
                        && b[3] == 0x03 && b.len() == 7 + b[4] && !valid_utf8(
                        b.subrange(5, 5 + b[4]),
                    ) ==> action == (ConnAction::CloseErr { error: ProxyError::InvalidAddress })
                    &&& spec_request_length_mismatch(b) ==> (action
                        matches ConnAction::CloseErr { error } && error is Protocol)
                }
            }),
            old(self).spec_stage() == Stage::Connecting ==> (event
                matches ConnEvent::ConnectFinished { outcome } ==> {
                &&& outcome is Established ==> final(self).spec_stage() == Stage::Relaying && (
                action matches ConnAction::Send { bytes } && bytes@ == spec_response_bytes(
                    Reply::Succeeded,
                ))
                &&& !(outcome is Established) ==> final(self).spec_stage() == Stage::Closed && (
                action matches ConnAction::SendAndClose { bytes, error } && bytes@
                    == spec_response_bytes(spec_connect_failure_reply(outcome)) && error == match outcome {
                    ConnectOutcome::Refused { message } => ProxyError::Io(message),
                    ConnectOutcome::TimedOut { message } => ProxyError::Io(message),
                    ConnectOutcome::Failed { message } => ProxyError::Io(message),
                    _ => ProxyError::Timeout,
                })
            }),
            old(self).spec_stage() == Stage::Relaying ==> (event
                matches ConnEvent::RelayFinished { error } ==> {
                &&& error is None ==> final(self).spec_stage() == Stage::Closed && action
                    is CloseOk
                &&& (error matches Some(message) ==> final(self).spec_stage() == Stage::Closed
                    && (action matches ConnAction::CloseErr { error: e } && e == ProxyError::Io(
                    message,
                )))
            }),
    {
        match event {
            ConnEvent::Greeting { version, methods } => {
                if self.stage != Stage::Handshake {
                    self.stage = Stage::Closed;
                    return ConnAction::CloseErr {
                        error: ProxyError::Protocol("unexpected greeting".to_owned()),
                    };
                }
                match negotiate_auth(version, &methods, self.ctx.auth.enabled) {
                    Err(e) => {
                        self.stage = Stage::Closed;
                        ConnAction::CloseErr { error: e }
                    },
                    Ok(selection) => {
                        match selection.method {
                            AuthMethod::UsernamePassword => {
                                self.stage = Stage::Authenticating;
                                ConnAction::Send { bytes: selection.response }
                            },
                            AuthMethod::NoAuth => {
                                self.stage = Stage::AwaitingRequest;
                                ConnAction::Send { bytes: selection.response }
                            },
                            AuthMethod::NoAcceptable => {
                                self.stage = Stage::Closed;
                                ConnAction::SendAndClose {
                                    bytes: selection.response,
                                    error: ProxyError::NoAcceptableAuth,
                                }
                            },
                        }
                    },
                }
            },
            ConnEvent::AuthMessage { version, username, password } => {
                if self.stage != Stage::Authenticating {
                    self.stage = Stage::Closed;
                    return ConnAction::CloseErr {
                        error: ProxyError::Protocol("unexpected subnegotiation".to_owned()),
                    };
                }
                match authenticate(version, &username, &password, &self.ctx.auth) {
                    Err(e) => {
                        self.stage = Stage::Closed;
                        ConnAction::CloseErr { error: e }
                    },
                    Ok(outcome) => {
                        if outcome.success {
                            self.stage = Stage::AwaitingRequest;
                            ConnAction::Send { bytes: outcome.response }
                        } else {
                            self.stage = Stage::Closed;
                            ConnAction::SendAndClose {
                                bytes: outcome.response,
                                error: ProxyError::AuthFailed,
                            }
                        }
                    },
                }
            },
            ConnEvent::RequestMessage { message } => {
                if self.stage != Stage::AwaitingRequest {
                    self.stage = Stage::Closed;
                    return ConnAction::CloseErr {
                        error: ProxyError::Protocol("unexpected request".to_owned()),
                    };
                }
                match parse_request(&message) {
                    Ok(request) => {
                        match request.command {
                            Command::Connect => {
                                self.stage = Stage::Connecting;
                                ConnAction::OpenTarget {
                                    address: request.address,
                                    timeout_secs: self.ctx.connect_timeout_secs,
                                }
                            },
                            _ => {
                                let command_byte = request.command.to_u8();
                                self.stage = Stage::Closed;
                                ConnAction::SendAndClose {
                                    bytes: send_failure(Reply::CommandNotSupported),
                                    error: ProxyError::UnsupportedCommand(command_byte),
                                }
                            },
                        }
                    },
                    Err(e) => {
                        self.stage = Stage::Closed;
                        match e {
                            ProxyError::UnsupportedCommand(raw) => ConnAction::SendAndClose {
                                bytes: send_failure(Reply::CommandNotSupported),
                                error: ProxyError::UnsupportedCommand(raw),
                            },
                            ProxyError::UnsupportedAddressType(raw) => ConnAction::SendAndClose {
                                bytes: send_failure(Reply::AddressTypeNotSupported),
                                error: ProxyError::UnsupportedAddressType(raw),
                            },
                            other => ConnAction::CloseErr { error: other },
                        }
                    },
                }
            },
            ConnEvent::ConnectFinished { outcome } => {
                if self.stage != Stage::Connecting {
                    self.stage = Stage::Closed;
                    return ConnAction::CloseErr {
                        error: ProxyError::Protocol("unexpected connect outcome".to_owned()),
                    };
                }
                match outcome {
                    ConnectOutcome::Established => {
                        self.stage = Stage::Relaying;
                        ConnAction::Send { bytes: send_failure(Reply::Succeeded) }
                    },
                    ConnectOutcome::Refused { message } => {
                        self.stage = Stage::Closed;
                        ConnAction::SendAndClose {
                            bytes: send_failure(Reply::ConnectionRefused),
                            error: ProxyError::Io(message),
                        }
                    },
                    ConnectOutcome::TimedOut { message } => {
                        self.stage = Stage::Closed;
                        ConnAction::SendAndClose {
                            bytes: send_failure(Reply::TtlExpired),
                            error: ProxyError::Io(message),
                        }
                    },
                    ConnectOutcome::Failed { message } => {
                        self.stage = Stage::Closed;
                        ConnAction::SendAndClose {
                            bytes: send_failure(Reply::HostUnreachable),
                            error: ProxyError::Io(message),
                        }
                    },
                    ConnectOutcome::DeadlineElapsed => {
                        self.stage = Stage::Closed;
                        ConnAction::SendAndClose {
                            bytes: send_failure(Reply::TtlExpired),
                            error: ProxyError::Timeout,
                        }
                    },
                }
            },
            ConnEvent::RelayFinished { error } => {
                if self.stage != Stage::Relaying {
                    self.stage = Stage::Closed;
                    return ConnAction::CloseErr {
                        error: ProxyError::Protocol("unexpected relay outcome".to_owned()),
                    };
                }
                self.stage = Stage::Closed;
                match error {
                    None => ConnAction::CloseOk,
                    Some(message) => ConnAction::CloseErr { error: ProxyError::Io(message) },
                }
            },
        }
    }
}

} // verus!
