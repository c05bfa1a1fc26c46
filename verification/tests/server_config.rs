//! Lifecycle of the ownership-transfer container and the default
//! configuration assembly.

use ua_core::error::Error;
use ua_core::ua::data_types::StatusCode;
use ua_core::ua::server_config::{CleanupCounter, ServerConfig, ServerConfigData, DEFAULT_PORT};

#[test]
fn init_then_drop_cleans_up_exactly_once() {
    let mut log = CleanupCounter::new();
    let mut config = ServerConfig::init();
    config.clean_up(&mut log);
    assert_eq!(log.count(), 1);
}

#[test]
fn init_is_zeroed() {
    let mut config = ServerConfig::init();
    let data = config.into_raw();
    assert_eq!(data, ServerConfigData { logger_set: false, port: 0 });
    assert_eq!(data, ServerConfigData::zeroed());
}

#[test]
fn from_raw_into_raw_returns_the_value_and_skips_cleanup() {
    let src = ServerConfigData { logger_set: true, port: 4321 };
    let mut log = CleanupCounter::new();
    let mut config = ServerConfig::from_raw(src);
    let out = config.into_raw();
    assert_eq!(out, src);
    // Ownership was given up, so the end of the container's life performs no
    // cleanup.
    config.clean_up(&mut log);
    assert_eq!(log.count(), 0);
}

#[test]
fn from_raw_then_drop_cleans_up_exactly_once() {
    let src = ServerConfigData { logger_set: false, port: 1234 };
    let mut log = CleanupCounter::new();
    let mut config = ServerConfig::from_raw(src);
    config.clean_up(&mut log);
    assert_eq!(log.count(), 1);
    // A second end of life is a no-op: cleanup never runs twice.
    config.clean_up(&mut log);
    assert_eq!(log.count(), 1);
}

#[test]
fn exclusive_access_writes_through() {
    let mut config = ServerConfig::init();
    config.as_mut().port = 48050;
    let data = config.into_raw();
    assert_eq!(data.port, 48050);
}

#[test]
fn default_config_has_default_port_and_logger() {
    let mut config = ServerConfig::default();
    let data = config.into_raw();
    assert_eq!(data.port, DEFAULT_PORT);
    assert_eq!(data.port, 4840);
    assert!(data.logger_set);
}

#[test]
fn populate_defaults_reports_good_and_keeps_logger() {
    let mut config = ServerConfig::init();
    config.as_mut().logger_set = true;
    let status = config.populate_defaults();
    assert!(status.is_good());
    let data = config.into_raw();
    assert!(data.logger_set);
    assert_eq!(data.port, DEFAULT_PORT);
}

#[test]
fn verify_good_accepts_good_and_rejects_bad() {
    assert!(Error::verify_good(&StatusCode::new(0)).is_ok());
    let bad = StatusCode::new(0x8003_0000);
    let err = Error::verify_good(&bad).unwrap_err();
    assert_eq!(err.status(), bad);
    assert_eq!(err.status().code(), 0x8003_0000);
}

#[test]
fn error_carries_its_status() {
    let status = StatusCode::new(0x8000_0000);
    let err = Error::new(status);
    assert_eq!(err.status(), status);
}
