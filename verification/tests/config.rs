use std::path::PathBuf;

use stt_runtime::config::{
    default_data_root, default_model_dir, default_runtime_cache_dir, is_loopback_host,
    join_path, resolved_data_root, ServerConfig,
};
use stt_runtime::error::SttError;

#[test]
fn loopback_binding_is_allowed_without_remote_flags() {
    let config = ServerConfig {
        host: "127.0.0.1".into(),
        ..ServerConfig::default()
    };
    assert!(config.validate().is_ok());
}

#[test]
fn non_loopback_binding_rejected_without_allow_remote() {
    let config = ServerConfig {
        host: "0.0.0.0".into(),
        allow_remote: false,
        auth_token: Some("secret".into()),
        ..ServerConfig::default()
    };
    assert!(config.validate().is_err());
}

#[test]
fn non_loopback_binding_rejected_without_auth_token() {
    let config = ServerConfig {
        host: "0.0.0.0".into(),
        allow_remote: true,
        auth_token: None,
        ..ServerConfig::default()
    };
    assert!(config.validate().is_err());
}

#[test]
fn non_loopback_binding_rejected_with_empty_auth_token() {
    let config = ServerConfig {
        host: "0.0.0.0".into(),
        allow_remote: true,
        auth_token: Some(String::new()),
        ..ServerConfig::default()
    };
    assert!(config.validate().is_err());
}

#[test]
fn non_loopback_binding_allowed_with_both_flags_set() {
    let config = ServerConfig {
        host: "0.0.0.0".into(),
        allow_remote: true,
        auth_token: Some("secret".into()),
        ..ServerConfig::default()
    };
    assert!(config.validate().is_ok());
}

#[test]
fn is_loopback_host_recognizes_all_three_spellings_and_nothing_else() {
    assert!(is_loopback_host("127.0.0.1"));
    assert!(is_loopback_host("::1"));
    assert!(is_loopback_host("localhost"));
    assert!(!is_loopback_host("0.0.0.0"));
    assert!(!is_loopback_host("192.168.1.5"));
}

#[test]
fn default_model_dir_and_runtime_cache_dir_nest_under_the_same_data_root() {
    let root = PathBuf::from(default_data_root());
    assert_eq!(PathBuf::from(default_model_dir()), root.join("models"));
    assert_eq!(PathBuf::from(default_runtime_cache_dir()), root.join("runtimes"));
}

#[test]
fn default_config_is_loopback_on_8080_and_valid() {
    let config = ServerConfig::default();
    assert_eq!(config.host, "127.0.0.1");
    assert_eq!(config.port, 8080);
    assert_eq!(config.listen_addr(), "127.0.0.1:8080");
    assert!(config.validate().is_ok());
}

#[test]
fn port_zero_is_a_config_error() {
    let config = ServerConfig {
        port: 0,
        ..ServerConfig::default()
    };
    match config.validate() {
        Err(SttError::ConfigError(m)) => assert_eq!(m, "port cannot be 0"),
        other => panic!("unexpected {other:?}"),
    }
}

#[test]
fn only_an_empty_auth_token_counts_as_missing() {
    let config = ServerConfig {
        host: "0.0.0.0".into(),
        allow_remote: true,
        auth_token: Some("   ".into()),
        ..ServerConfig::default()
    };
    assert!(config.validate().is_ok());
    let config = ServerConfig {
        host: "10.0.0.2".into(),
        allow_remote: false,
        ..ServerConfig::default()
    };
    match config.validate() {
        Err(SttError::ConfigError(m)) => assert_eq!(
            m,
            "non-loopback host '10.0.0.2' requires --allow-remote to be set explicitly"
        ),
        other => panic!("unexpected {other:?}"),
    }
}

#[test]
fn data_root_override_wins_over_the_default() {
    assert_eq!(resolved_data_root(Some("/srv/stt".to_string())), "/srv/stt");
    assert_eq!(resolved_data_root(None), default_data_root());
}

#[test]
fn join_path_adds_exactly_one_separator() {
    assert_eq!(join_path("/a", "b"), "/a/b");
    assert_eq!(join_path("/a/", "b"), "/a/b");
    assert_eq!(join_path("", "b"), "b");
}
