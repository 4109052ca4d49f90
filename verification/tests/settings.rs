use bitvavo_api_client::transport::validate_transport_url;
use bitvavo_api_client::{ClientConfig, Error, DEFAULT_ACCESS_WINDOW_MS, DEFAULT_REST_URL, DEFAULT_WS_URL};
use std::time::Duration;

#[test]
fn defaults_and_builders() {
    let config = ClientConfig::new();
    assert!(!config.has_credentials());
    assert_eq!(config.rest_url, DEFAULT_REST_URL);
    assert_eq!(config.ws_url, DEFAULT_WS_URL);
    assert_eq!(config.access_window_ms, DEFAULT_ACCESS_WINDOW_MS);
    assert_eq!(config.timeout, Duration::from_secs(30));
    let changed = ClientConfig::with_credentials("k", "s")
        .access_window_ms(5_000)
        .timeout(Duration::from_secs(3))
        .rest_url("https://example.test/v2")
        .ws_url("wss://example.test/")
        .danger_allow_insecure_transport(true);
    assert!(changed.has_credentials());
    assert_eq!(changed.api_key.as_deref(), Some("k"));
    assert_eq!(changed.access_window_ms, 5_000);
    assert_eq!(changed.timeout, Duration::from_secs(3));
    assert_eq!(changed.rest_url, "https://example.test/v2");
    assert_eq!(changed.ws_url, "wss://example.test/");
    assert!(changed.allow_insecure_transport);
    assert_eq!(changed.credentials(), Ok(("k", "s")));
    assert_eq!(ClientConfig::new().credentials(), Err(Error::MissingCredentials));
}

#[test]
fn environment_values_ignore_empty_credentials() {
    let config = ClientConfig::from_env_values(Some("key"), Some(""));
    assert_eq!(config.api_key.as_deref(), Some("key"));
    assert!(config.api_secret.is_none());
    assert!(!config.has_credentials());
    assert!(ClientConfig::from_env_values(Some("a"), Some("b")).has_credentials());
    assert!(!ClientConfig::from_env_values(None, None).has_credentials());
    assert_eq!(config.timeout, ClientConfig::new().timeout);
    assert_eq!(ClientConfig::with_credentials("", "").timeout, Duration::from_secs(30));
    assert_eq!(ClientConfig::with_credentials("", "").api_key.as_deref(), Some(""));
}

#[test]
fn debug_text_redacts_credentials() {
    let text = ClientConfig::with_credentials("my-key", "my-secret").debug_text();
    assert!(!text.contains("my-key"));
    assert!(!text.contains("my-secret"));
    assert_eq!(
        text,
        "ClientConfig { api_key: Some(\"<redacted>\"), api_secret: Some(\"<redacted>\"), \
rest_url: \"https://api.bitvavo.com/v2\", ws_url: \"wss://ws.bitvavo.com/v2/\", \
access_window_ms: 10000, timeout: 30s }"
    );
    assert!(ClientConfig::new().debug_text().starts_with("ClientConfig { api_key: None, api_secret: None,"));
}

#[test]
fn transport_urls() {
    assert_eq!(validate_transport_url("wss://ws.bitvavo.com/v2/", "WebSocket", "wss", "ws", false), Ok(()));
    assert_eq!(
        validate_transport_url("ws://127.0.0.1:9", "WebSocket", "wss", "ws", false),
        Err(Error::InsecureTransport { transport: "WebSocket".to_string(), required_scheme: "wss".to_string() })
    );
    assert_eq!(validate_transport_url("ws://127.0.0.1:9", "WebSocket", "wss", "ws", true), Ok(()));
    assert_eq!(
        validate_transport_url("https://x", "WebSocket", "wss", "ws", true),
        Err(Error::InsecureTransport { transport: "WebSocket".to_string(), required_scheme: "wss".to_string() })
    );
    for bad in ["", "wss", "wss://", "://host", "1ws://host", "w s://host", "wss:/host"] {
        assert_eq!(
            validate_transport_url(bad, "WebSocket", "wss", "ws", true),
            Err(Error::InvalidUrl { transport: "WebSocket".to_string() }),
            "url {bad:?}"
        );
    }
}
