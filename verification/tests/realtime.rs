use elizaos_plugin_polymarket::actions::realtime::{handle_realtime_updates, setup_websocket, SubscriptionStatus};
use elizaos_plugin_polymarket::client::ClobClient;
use elizaos_plugin_polymarket::error::PolymarketErrorCode;

fn make_test_client() -> ClobClient {
    ClobClient::new(None, &format!("0x{}", "11".repeat(32))).expect("test client init")
}

#[test]
fn test_setup_websocket_empty_url() {
    let client = make_test_client();
    let err = setup_websocket(&client, "", &[], &[], false).unwrap_err();
    assert!(err.to_string().contains("WebSocket URL is required"));
}

#[test]
fn test_setup_websocket_invalid_channel() {
    let client = make_test_client();
    let channels = vec!["nope".to_string()];
    let err = setup_websocket(&client, "wss://example.com/ws", &channels, &[], false).unwrap_err();
    assert!(err.to_string().contains("Invalid channel"));
}

#[test]
fn test_handle_realtime_updates_invalid_action() {
    let client = make_test_client();
    let err = handle_realtime_updates(&client, "nope", None, None).unwrap_err();
    assert!(err.to_string().contains("Invalid action"));
}

#[test]
fn test_setup_websocket_rejects_empty_url() {
    let client = make_test_client();
    let result = setup_websocket(&client, "", &[], &[], false);
    assert!(result.is_err());
    assert!(result.unwrap_err().to_string().contains("WebSocket URL is required"));
}

#[test]
fn test_setup_websocket_rejects_empty_channels() {
    let client = make_test_client();
    let result = setup_websocket(&client, "wss://ws.example.com", &[], &[], false);
    assert!(result.is_err());
    assert!(result.unwrap_err().to_string().contains("channel"));
}

#[test]
fn test_setup_websocket_rejects_invalid_channel() {
    let client = make_test_client();
    let channels = vec!["invalid_channel".to_string()];
    let result = setup_websocket(&client, "wss://ws.example.com", &channels, &[], false);
    assert!(result.is_err());
    assert!(result.unwrap_err().to_string().contains("Invalid channel"));
}

#[test]
fn test_setup_websocket_success() {
    let client = make_test_client();
    let channels = vec!["book".to_string(), "price".to_string()];
    let assets = vec!["token-1".to_string()];
    let config = setup_websocket(&client, "wss://ws.example.com", &channels, &assets, false).unwrap();
    assert_eq!(config.url, "wss://ws.example.com");
    assert_eq!(config.channels.len(), 2);
    assert_eq!(config.asset_ids.len(), 1);
    assert!(!config.authenticated);
    assert_eq!(config.status, SubscriptionStatus::Disconnected);
}

#[test]
fn test_handle_realtime_subscribe_requires_channel() {
    let client = make_test_client();
    let result = handle_realtime_updates(&client, "subscribe", None, None);
    assert!(result.is_err());
    assert!(result.unwrap_err().to_string().contains("Channel is required"));
}

#[test]
fn test_handle_realtime_subscribe_requires_assets() {
    let client = make_test_client();
    let result = handle_realtime_updates(&client, "subscribe", Some("book"), None);
    assert!(result.is_err());
    assert!(result.unwrap_err().to_string().contains("Asset IDs are required"));
}

#[test]
fn test_handle_realtime_subscribe_requires_nonempty_assets() {
    let client = make_test_client();
    let empty: Vec<String> = vec![];
    let result = handle_realtime_updates(&client, "subscribe", Some("book"), Some(&empty));
    assert!(result.is_err());
}

#[test]
fn test_handle_realtime_subscribe_success() {
    let client = make_test_client();
    let assets = vec!["token-1".to_string()];
    let result = handle_realtime_updates(&client, "subscribe", Some("price"), Some(&assets));
    assert!(result.is_ok());
    assert!(result.unwrap().contains("Subscribed"));
}

#[test]
fn test_handle_realtime_unsubscribe() {
    let client = make_test_client();
    let result = handle_realtime_updates(&client, "unsubscribe", Some("trade"), None);
    assert!(result.is_ok());
    assert!(result.unwrap().contains("Unsubscribed"));
}

#[test]
fn test_handle_realtime_status() {
    let client = make_test_client();
    let result = handle_realtime_updates(&client, "status", None, None);
    assert!(result.is_ok());
}

#[test]
fn test_handle_realtime_invalid_action() {
    let client = make_test_client();
    let result = handle_realtime_updates(&client, "restart", None, None);
    assert!(result.is_err());
    assert!(result.unwrap_err().to_string().contains("Invalid action"));
}

#[test]
fn invalid_channel_message_names_the_first_bad_channel() {
    let client = make_test_client();
    let channels = vec!["book".to_string(), "bad1".to_string(), "bad2".to_string()];
    let err = setup_websocket(&client, "wss://x", &channels, &[], false).unwrap_err();
    assert_eq!(err.code, PolymarketErrorCode::ConfigError);
    assert_eq!(err.message, "Invalid channel: bad1. Valid channels are: book, price, trade, ticker, user");
}

#[test]
fn subscribe_message_lists_the_assets() {
    let client = make_test_client();
    let assets = vec!["a".to_string(), "b".to_string()];
    let msg = handle_realtime_updates(&client, "subscribe", Some("book"), Some(&assets)).unwrap();
    assert_eq!(msg, "Subscribed to book channel for assets: a, b");
    let msg = handle_realtime_updates(&client, "unsubscribe", Some("user"), None).unwrap();
    assert_eq!(msg, "Unsubscribed from user channel");
}
