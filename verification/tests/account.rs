use elizaos_plugin_polymarket::actions::account::{
    get_account_access_status, handle_authentication, require_credentials, CredentialedAction,
};
use elizaos_plugin_polymarket::actions::orderbook::{best_price, order_book_levels};
use elizaos_plugin_polymarket::client::ClobClient;
use elizaos_plugin_polymarket::error::PolymarketErrorCode;
use elizaos_plugin_polymarket::service::PolymarketService;
use elizaos_plugin_polymarket::types::{ApiKeyCreds, BookEntry, OrderBook, OrderSide};

fn key() -> String {
    format!("0x{}", "11".repeat(32))
}

fn creds() -> ApiKeyCreds {
    ApiKeyCreds { key: "k".to_string(), secret: "s".to_string(), passphrase: "p".to_string() }
}

fn entry(price: &str, size: &str) -> BookEntry {
    BookEntry { price: price.to_string(), size: size.to_string() }
}

#[test]
fn test_handle_authentication() {
    let client = ClobClient::new(None, &key()).expect("client");
    let (has_private_key, has_api_key, has_api_secret, has_api_passphrase, is_fully_authenticated) =
        handle_authentication(&client);
    assert!(has_private_key);
    assert!(!has_api_key);
    assert!(!has_api_secret);
    assert!(!has_api_passphrase);
    assert!(!is_fully_authenticated);

    let client2 = ClobClient::new_with_creds(None, &key(), creds()).expect("client");
    let (has_private_key2, has_api_key2, has_api_secret2, has_api_passphrase2, is_fully_authenticated2) =
        handle_authentication(&client2);
    assert!(has_private_key2);
    assert!(has_api_key2);
    assert!(has_api_secret2);
    assert!(has_api_passphrase2);
    assert!(is_fully_authenticated2);
}

#[test]
fn account_access_status_is_empty() {
    let client = ClobClient::new(None, &key()).unwrap();
    let s = get_account_access_status(&client).unwrap();
    assert!(s.cert_required.is_none());
    assert!(s.api_keys.is_empty());
    assert!(s.active_session_key_id.is_none());
}

#[test]
fn credentials_are_required_with_the_action_message() {
    let client = ClobClient::new(None, &key()).unwrap();
    let cases = [
        (CredentialedAction::CancelOrder, "API credentials required to cancel orders"),
        (CredentialedAction::ListApiKeys, "API credentials required to list API keys"),
        (CredentialedAction::RevokeApiKey, "API credentials required to revoke API keys"),
        (CredentialedAction::TradeHistory, "API credentials required for trade history"),
        (CredentialedAction::OrderScoring, "API credentials required for order scoring check"),
        (CredentialedAction::OrderDetails, "API credentials required for order details"),
        (CredentialedAction::ActiveOrders, "API credentials required for active orders"),
        (CredentialedAction::PositionQuery, "API credentials required for position queries"),
        (CredentialedAction::BalanceQuery, "API credentials required for balance queries"),
    ];
    for (action, message) in cases {
        let e = require_credentials(&client, action).unwrap_err();
        assert_eq!(e.code, PolymarketErrorCode::AuthError);
        assert_eq!(e.message, message);
    }
    let authed = ClobClient::new_with_creds(None, &key(), creds()).unwrap();
    assert!(require_credentials(&authed, CredentialedAction::CancelOrder).is_ok());
}

#[test]
fn best_price_takes_the_opposite_side() {
    let book = OrderBook {
        market: "m".to_string(),
        asset_id: "a".to_string(),
        bids: vec![entry("0.45", "100"), entry("0.44", "50")],
        asks: vec![entry("0.55", "10")],
    };
    assert_eq!(best_price(&book, OrderSide::Buy), (Some("0.55".to_string()), Some("10".to_string())));
    assert_eq!(best_price(&book, OrderSide::Sell), (Some("0.45".to_string()), Some("100".to_string())));
    let empty = OrderBook { market: "m".to_string(), asset_id: "a".to_string(), bids: vec![], asks: vec![] };
    assert_eq!(best_price(&empty, OrderSide::Buy), (None, None));
}

#[test]
fn order_book_levels_give_tops_and_depths() {
    let book = OrderBook {
        market: "test".to_string(),
        asset_id: "123".to_string(),
        bids: vec![entry("0.45", "100"), entry("0.44", "50")],
        asks: vec![entry("0.55", "100")],
    };
    assert_eq!(order_book_levels(&book), (Some("0.45"), Some("0.55"), 2, 1));
    let bids_only = OrderBook {
        market: "m".to_string(),
        asset_id: "a".to_string(),
        bids: vec![entry("0.40", "50")],
        asks: vec![],
    };
    assert_eq!(order_book_levels(&bids_only), (Some("0.40"), None, 1, 0));
}

#[test]
fn service_sessions_start_and_stop() {
    let mut s = PolymarketService::start_with_creds(&key(), creds()).unwrap();
    assert!(!s.client().has_credentials());
    assert!(s.authenticated_client().unwrap().has_credentials());
    s.stop().unwrap();
    let e = s.authenticated_client().err().unwrap();
    assert_eq!(e.code, PolymarketErrorCode::AuthError);
    assert_eq!(e.message, "No API credentials configured");
    let s = PolymarketService::start(&key()).unwrap();
    assert_eq!(s.client().base_url(), "https://clob.polymarket.com");
    assert!(s.authenticated_client().is_err());
    assert!(PolymarketService::start("0x12").is_err());
}
