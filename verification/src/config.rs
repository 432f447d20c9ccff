//! The resolved configuration the proxy core consumes.
//!
//! The core is handed one immutable `Config` value at server start and never
//! mutates it; how that value was produced (a file, command-line flags) is
//! the concern of the surrounding program.

use vstd::prelude::*;

verus! {

/// The whole configuration, grouped by concern.
#[derive(Debug, Clone)]
pub struct Config {
    pub server: ServerConfig,
    pub auth: AuthConfig,
    pub performance: PerformanceConfig,
    pub logging: LoggingConfig,
    pub limits: LimitsConfig,
}

/// Where to listen and how many connections to admit.
#[derive(Debug, Clone)]
pub struct ServerConfig {
    pub bind_address: String,
    pub port: u16,
    pub max_connections: usize,
    pub connection_timeout_secs: u64,
}

/// Whether clients must authenticate, and against which credentials.
#[derive(Debug, Clone)]
pub struct AuthConfig {
    pub enabled: bool,
    pub methods: Vec<String>,
    pub users: Vec<UserCredential>,
}

/// One username/password pair; equality is byte-for-byte.
#[derive(Debug, Clone, PartialEq, Eq)]
pub struct UserCredential {
    pub username: String,
    pub password: String,
}

/// Socket and buffering knobs.
#[derive(Debug, Clone)]
pub struct PerformanceConfig {
    pub worker_threads: usize,
    pub buffer_size: usize,
    pub tcp_nodelay: bool,
    pub tcp_keepalive: bool,
}

/// How the surrounding program should log.
#[derive(Debug, Clone)]
pub struct LoggingConfig {
    pub level: String,
    pub format: String,
}

/// Rate and bandwidth ceilings; the core reads none of them.
#[derive(Debug, Clone)]
pub struct LimitsConfig {
    pub max_connections_per_sec: u32,
    pub max_bandwidth_per_connection: u64,
}

pub fn default_bind_address() -> (r: String)
    ensures
        r@ == "0.0.0.0"@,
{
    "0.0.0.0".to_owned()
}

pub fn default_port() -> (r: u16)
    ensures
        r == 1080,
{
    1080
}

pub fn default_max_connections() -> (r: usize)
    ensures
        r == 10000,
{
    10000
}

pub fn default_connection_timeout() -> (r: u64)
    ensures
        r == 300,
{
    300
}

pub fn default_auth_methods() -> (r: Vec<String>)
    ensures
        r@.len() == 1,
        r@[0]@ == "none"@,
{
    let methods: Vec<String> = vec!["none".to_owned()];
    methods
}

pub fn default_buffer_size() -> (r: usize)
    ensures
        r == 8192,
{
    8192
}

pub fn default_true() -> (r: bool)
    ensures
        r,
{
    true
}

pub fn default_log_level() -> (r: String)
    ensures
        r@ == "info"@,
{
    "info".to_owned()
}

pub fn default_log_format() -> (r: String)
    ensures
        r@ == "pretty"@,
{
    "pretty".to_owned()
}

pub fn default_max_connections_per_sec() -> (r: u32)
    ensures
        r == 100,
{
    100
}

/// What the default server settings are.
pub open spec fn is_default_server(c: ServerConfig) -> bool {
    &&& c.bind_address@ == "0.0.0.0"@
    &&& c.port == 1080
    &&& c.max_connections == 10000
    &&& c.connection_timeout_secs == 300
}

/// What the default authentication settings are: disabled, no users.
pub open spec fn is_default_auth(c: AuthConfig) -> bool {
    &&& !c.enabled
    &&& c.methods@.len() == 1
    &&& c.methods@[0]@ == "none"@
    &&& c.users@.len() == 0
}

/// What the default performance settings are.
pub open spec fn is_default_performance(c: PerformanceConfig) -> bool {
    &&& c.worker_threads == 0
    &&& c.buffer_size == 8192
    &&& c.tcp_nodelay
    &&& c.tcp_keepalive
}

/// What the default logging settings are.
pub open spec fn is_default_logging(c: LoggingConfig) -> bool {
    &&& c.level@ == "info"@
    &&& c.format@ == "pretty"@
}

/// What the default limits are.
pub open spec fn is_default_limits(c: LimitsConfig) -> bool {
    &&& c.max_connections_per_sec == 100
    &&& c.max_bandwidth_per_connection == 0
}

impl Default for ServerConfig {
    fn default() -> (c: Self)
        ensures
            is_default_server(c),
    {
        ServerConfig {
            bind_address: default_bind_address(),
            port: default_port(),
            max_connections: default_max_connections(),
            connection_timeout_secs: default_connection_timeout(),
        }
    }
}

impl Default for AuthConfig {
    fn default() -> (c: Self)
        ensures
            is_default_auth(c),
    {
        AuthConfig { enabled: false, methods: default_auth_methods(), users: Vec::new() }
    }
}

impl Default for PerformanceConfig {
    fn default() -> (c: Self)
        ensures
            is_default_performance(c),
    {
        PerformanceConfig {
            worker_threads: 0,
            buffer_size: default_buffer_size(),
            tcp_nodelay: default_true(),
            tcp_keepalive: default_true(),
        }
    }
}

impl Default for LoggingConfig {
    fn default() -> (c: Self)
        ensures
            is_default_logging(c),
    {
        LoggingConfig { level: default_log_level(), format: default_log_format() }
    }
}

impl Default for LimitsConfig {
    fn default() -> (c: Self)
        ensures
            is_default_limits(c),
    {
        LimitsConfig {
            max_connections_per_sec: default_max_connections_per_sec(),
            max_bandwidth_per_connection: 0,
        }
    }
}

impl Default for Config {
    fn default() -> (c: Self)
        ensures
            is_default_server(c.server),
            is_default_auth(c.auth),
            is_default_performance(c.performance),
            is_default_logging(c.logging),
            is_default_limits(c.limits),
    {
        Config {
            server: ServerConfig::default(),
            auth: AuthConfig::default(),
            performance: PerformanceConfig::default(),
            logging: LoggingConfig::default(),
            limits: LimitsConfig::default(),
        }
    }
}

} // verus!
