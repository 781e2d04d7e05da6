use waepic::config::AppVersion;
use waepic::connection::ConnectionConfig;

#[test]
fn default_app_version() {
    let version = AppVersion::default();

    assert_eq!(version.primary, 2);
    assert_eq!(version.secondary, 25);
    assert_eq!(version.tertiary, 1);
}

#[test]
fn default_connection_config() {
    let config = ConnectionConfig::default();

    assert!(config.auto_reconnect);
    assert_eq!(config.keepalive_interval_secs, 20);
    assert_eq!(config.max_reconnect_attempts, 10);
    assert_eq!(config.websocket_url, "wss://web.whatsapp.com/ws/chat");
}
