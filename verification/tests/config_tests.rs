use yun_socket_proxy::config::{
    AuthConfig, Config, LimitsConfig, LoggingConfig, PerformanceConfig, ServerConfig,
    UserCredential,
};

#[test]
fn test_config_default() {
    let config = Config::default();
    assert_eq!(config.server.bind_address, "0.0.0.0");
    assert_eq!(config.server.port, 1080);
    assert_eq!(config.server.max_connections, 10000);
    assert!(!config.auth.enabled);
}

#[test]
fn test_user_credential() {
    let user = UserCredential {
        username: "test".to_string(),
        password: "pass123".to_string(),
    };

    assert_eq!(user.username, "test");
    assert_eq!(user.password, "pass123");
}

#[test]
fn test_auth_config() {
    let mut config = AuthConfig::default();
    assert!(!config.enabled);

    config.enabled = true;
    config.users.push(UserCredential {
        username: "admin".to_string(),
        password: "secret".to_string(),
    });

    assert_eq!(config.users.len(), 1);
    assert_eq!(config.users[0].username, "admin");
}

#[test]
fn test_performance_config_defaults() {
    let config = PerformanceConfig::default();
    assert_eq!(config.buffer_size, 8192);
    assert!(config.tcp_nodelay);
    assert!(config.tcp_keepalive);
}

#[test]
fn test_server_config_defaults() {
    let config = ServerConfig::default();
    assert_eq!(config.bind_address, "0.0.0.0");
    assert_eq!(config.port, 1080);
    assert_eq!(config.max_connections, 10000);
    assert_eq!(config.connection_timeout_secs, 300);
}

#[test]
fn test_logging_config_defaults() {
    let config = LoggingConfig::default();
    assert_eq!(config.level, "info");
    assert_eq!(config.format, "pretty");
}

#[test]
fn test_limits_config_defaults() {
    let config = LimitsConfig::default();
    assert_eq!(config.max_connections_per_sec, 100);
    assert_eq!(config.max_bandwidth_per_connection, 0);
}

#[test]
fn default_auth_methods_name_none() {
    let config = AuthConfig::default();
    assert_eq!(config.methods, vec!["none".to_string()]);
    assert!(config.users.is_empty());
}
