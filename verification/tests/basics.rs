use elizaos_plugin_polymarket::actions::ALL_ACTION_NAMES;
use elizaos_plugin_polymarket::actions::{
    POLYMARKET_GET_MARKETS, POLYMARKET_GET_MARKET_DETAILS, POLYMARKET_RETRIEVE_ALL_MARKETS,
    POLYMARKET_GET_ORDER_BOOK, POLYMARKET_GET_ORDER_BOOK_DEPTH, POLYMARKET_GET_ORDER_BOOK_SUMMARY,
    POLYMARKET_GET_BEST_PRICE, POLYMARKET_GET_MIDPOINT_PRICE, POLYMARKET_GET_SPREAD,
    POLYMARKET_GET_BALANCES, POLYMARKET_GET_POSITIONS, POLYMARKET_PLACE_ORDER,
    POLYMARKET_GET_ORDER_DETAILS, POLYMARKET_GET_ACTIVE_ORDERS, POLYMARKET_GET_TRADE_HISTORY,
    POLYMARKET_GET_PRICE_HISTORY, POLYMARKET_CHECK_ORDER_SCORING, POLYMARKET_CREATE_API_KEY,
    POLYMARKET_GET_ALL_API_KEYS, POLYMARKET_REVOKE_API_KEY, POLYMARKET_SEARCH_MARKETS,
    POLYMARKET_RESEARCH_MARKET, POLYMARKET_SETUP_WEBSOCKET, POLYMARKET_HANDLE_REALTIME_UPDATES,
};
use elizaos_plugin_polymarket::actions::positions::PositionsQueryParams;
use elizaos_plugin_polymarket::constants::{
    DEFAULT_CLOB_API_URL, DEFAULT_PAGE_LIMIT, END_CURSOR, MAX_PAGE_LIMIT, POLYGON_CHAIN_ID,
    POLYMARKET_SERVICE_NAME,
};
use elizaos_plugin_polymarket::error::{PolymarketError, PolymarketErrorCode};
use elizaos_plugin_polymarket::service::PolymarketService;
use elizaos_plugin_polymarket::types::{GetTradesParams, MarketFilters, OrderSide, OrderType};

#[test]
fn test_client_address_parsing() {
    assert_eq!(POLYGON_CHAIN_ID, 137);
}

#[test]
fn test_default_params() {
    let params = PositionsQueryParams::default();
    assert_eq!(params.limit, 500);
    assert_eq!(params.max_pages, 10);
    assert!(params.include_prices);
    assert_eq!(params.price_lookup_limit, 10);
    assert!(params.asset_ids.is_none());
}

#[test]
fn test_order_side_display() {
    assert_eq!(OrderSide::Buy.to_string(), "BUY");
    assert_eq!(OrderSide::Sell.to_string(), "SELL");
}

#[test]
fn test_order_type_default() {
    let order_type = OrderType::default();
    assert_eq!(order_type, OrderType::Gtc);
}

#[test]
fn test_order_type_display() {
    assert_eq!(OrderType::Gtc.to_string(), "GTC");
    assert_eq!(OrderType::Fok.to_string(), "FOK");
    assert_eq!(OrderType::Gtd.to_string(), "GTD");
    assert_eq!(OrderType::Fak.to_string(), "FAK");
}

#[test]
fn test_market_filters_default() {
    let filters = MarketFilters::default();
    assert!(filters.category.is_none());
    assert!(filters.active.is_none());
    assert!(filters.limit.is_none());
}

#[test]
fn test_get_trades_params_default() {
    let params = GetTradesParams::default();
    assert!(params.user_address.is_none());
    assert!(params.market_id.is_none());
    assert!(params.limit.is_none());
}

#[test]
fn test_action_name_get_markets() {
    assert_eq!(POLYMARKET_GET_MARKETS, "POLYMARKET_GET_MARKETS");
}

#[test]
fn test_action_name_get_market_details() {
    assert_eq!(POLYMARKET_GET_MARKET_DETAILS, "POLYMARKET_GET_MARKET_DETAILS");
}

#[test]
fn test_action_name_retrieve_all_markets() {
    assert_eq!(POLYMARKET_RETRIEVE_ALL_MARKETS, "POLYMARKET_RETRIEVE_ALL_MARKETS");
}

#[test]
fn test_action_name_order_book() {
    assert_eq!(POLYMARKET_GET_ORDER_BOOK, "POLYMARKET_GET_ORDER_BOOK");
}

#[test]
fn test_action_name_place_order() {
    assert_eq!(POLYMARKET_PLACE_ORDER, "POLYMARKET_PLACE_ORDER");
}

#[test]
fn test_action_name_search_markets() {
    assert_eq!(POLYMARKET_SEARCH_MARKETS, "POLYMARKET_SEARCH_MARKETS");
}

#[test]
fn test_action_name_research_market() {
    assert_eq!(POLYMARKET_RESEARCH_MARKET, "POLYMARKET_RESEARCH_MARKET");
}

#[test]
fn test_all_action_names_contains_all_known_actions() {
    assert!(ALL_ACTION_NAMES.contains(&POLYMARKET_GET_MARKETS));
    assert!(ALL_ACTION_NAMES.contains(&POLYMARKET_GET_MARKET_DETAILS));
    assert!(ALL_ACTION_NAMES.contains(&POLYMARKET_RETRIEVE_ALL_MARKETS));
    assert!(ALL_ACTION_NAMES.contains(&POLYMARKET_GET_ORDER_BOOK));
    assert!(ALL_ACTION_NAMES.contains(&POLYMARKET_GET_ORDER_BOOK_DEPTH));
    assert!(ALL_ACTION_NAMES.contains(&POLYMARKET_GET_ORDER_BOOK_SUMMARY));
    assert!(ALL_ACTION_NAMES.contains(&POLYMARKET_GET_BEST_PRICE));
    assert!(ALL_ACTION_NAMES.contains(&POLYMARKET_GET_MIDPOINT_PRICE));
    assert!(ALL_ACTION_NAMES.contains(&POLYMARKET_GET_SPREAD));
    assert!(ALL_ACTION_NAMES.contains(&POLYMARKET_GET_BALANCES));
    assert!(ALL_ACTION_NAMES.contains(&POLYMARKET_GET_POSITIONS));
    assert!(ALL_ACTION_NAMES.contains(&POLYMARKET_PLACE_ORDER));
    assert!(ALL_ACTION_NAMES.contains(&POLYMARKET_GET_ORDER_DETAILS));
    assert!(ALL_ACTION_NAMES.contains(&POLYMARKET_GET_ACTIVE_ORDERS));
    assert!(ALL_ACTION_NAMES.contains(&POLYMARKET_GET_TRADE_HISTORY));
    assert!(ALL_ACTION_NAMES.contains(&POLYMARKET_GET_PRICE_HISTORY));
    assert!(ALL_ACTION_NAMES.contains(&POLYMARKET_CHECK_ORDER_SCORING));
    assert!(ALL_ACTION_NAMES.contains(&POLYMARKET_CREATE_API_KEY));
    assert!(ALL_ACTION_NAMES.contains(&POLYMARKET_GET_ALL_API_KEYS));
    assert!(ALL_ACTION_NAMES.contains(&POLYMARKET_REVOKE_API_KEY));
    assert!(ALL_ACTION_NAMES.contains(&POLYMARKET_SEARCH_MARKETS));
    assert!(ALL_ACTION_NAMES.contains(&POLYMARKET_RESEARCH_MARKET));
    assert!(ALL_ACTION_NAMES.contains(&POLYMARKET_SETUP_WEBSOCKET));
    assert!(ALL_ACTION_NAMES.contains(&POLYMARKET_HANDLE_REALTIME_UPDATES));
}

#[test]
fn test_all_action_names_are_prefixed_with_polymarket() {
    for name in ALL_ACTION_NAMES {
        assert!((*name).starts_with("POLYMARKET_"), "Action name '{}' should start with 'POLYMARKET_'", name);
    }
}

#[test]
fn test_all_action_names_count() {
    assert!(ALL_ACTION_NAMES.len() >= 20, "Expected at least 20 actions, got {}", ALL_ACTION_NAMES.len());
}

#[test]
fn test_service_type_name() {
    assert_eq!(PolymarketService::SERVICE_TYPE, POLYMARKET_SERVICE_NAME);
    assert_eq!(PolymarketService::SERVICE_TYPE, "polymarket");
}

#[test]
fn test_polygon_chain_id() {
    assert_eq!(POLYGON_CHAIN_ID, 137);
}

#[test]
fn test_default_clob_api_url() {
    assert_eq!(DEFAULT_CLOB_API_URL, "https://clob.polymarket.com");
}

#[test]
fn test_end_cursor() {
    assert_eq!(END_CURSOR, "LTE=");
}

#[test]
fn test_page_limits() {
    assert_eq!(DEFAULT_PAGE_LIMIT, 100);
    assert_eq!(MAX_PAGE_LIMIT, 500);
    assert!(DEFAULT_PAGE_LIMIT <= MAX_PAGE_LIMIT);
}

#[test]
fn test_error_display_includes_code_and_message() {
    let err = PolymarketError::new(PolymarketErrorCode::InvalidMarket, "Market not found");
    let display = err.to_string();
    assert!(display.contains("INVALID_MARKET"));
    assert!(display.contains("Market not found"));
}

#[test]
fn test_error_invalid_market_constructor() {
    let err = PolymarketError::invalid_market("bad market id");
    assert_eq!(err.code, PolymarketErrorCode::InvalidMarket);
    assert_eq!(err.message, "bad market id");
}

#[test]
fn test_error_invalid_token_constructor() {
    let err = PolymarketError::invalid_token("bad token");
    assert_eq!(err.code, PolymarketErrorCode::InvalidToken);
}

#[test]
fn test_error_invalid_order_constructor() {
    let err = PolymarketError::invalid_order("size too small");
    assert_eq!(err.code, PolymarketErrorCode::InvalidOrder);
}

#[test]
fn test_error_api_error_constructor() {
    let err = PolymarketError::api_error("server error");
    assert_eq!(err.code, PolymarketErrorCode::ApiError);
}

#[test]
fn test_error_config_error_constructor() {
    let err = PolymarketError::config_error("missing key");
    assert_eq!(err.code, PolymarketErrorCode::ConfigError);
}

#[test]
fn test_error_network_error_constructor() {
    let err = PolymarketError::network_error("timeout");
    assert_eq!(err.code, PolymarketErrorCode::NetworkError);
}

#[test]
fn test_error_auth_error_constructor() {
    let err = PolymarketError::auth_error("not authenticated");
    assert_eq!(err.code, PolymarketErrorCode::AuthError);
    assert_eq!(err.message, "not authenticated");
}

#[test]
fn test_error_with_cause() {
    let inner = std::io::Error::new(std::io::ErrorKind::TimedOut, "socket timeout");
    let err = PolymarketError::with_cause(PolymarketErrorCode::NetworkError, "connection failed", inner);
    assert_eq!(err.code, PolymarketErrorCode::NetworkError);
    assert_eq!(err.message, "connection failed");
    assert!(err.cause.is_some());
}

#[test]
fn test_error_code_display() {
    assert_eq!(PolymarketErrorCode::InvalidMarket.to_string(), "INVALID_MARKET");
    assert_eq!(PolymarketErrorCode::InvalidToken.to_string(), "INVALID_TOKEN");
    assert_eq!(PolymarketErrorCode::InvalidOrder.to_string(), "INVALID_ORDER");
    assert_eq!(PolymarketErrorCode::InsufficientFunds.to_string(), "INSUFFICIENT_FUNDS");
    assert_eq!(PolymarketErrorCode::MarketClosed.to_string(), "MARKET_CLOSED");
    assert_eq!(PolymarketErrorCode::ApiError.to_string(), "API_ERROR");
    assert_eq!(PolymarketErrorCode::WebSocketError.to_string(), "WEBSOCKET_ERROR");
    assert_eq!(PolymarketErrorCode::AuthError.to_string(), "AUTH_ERROR");
    assert_eq!(PolymarketErrorCode::ConfigError.to_string(), "CONFIG_ERROR");
    assert_eq!(PolymarketErrorCode::ClientNotInitialized.to_string(), "CLIENT_NOT_INITIALIZED");
    assert_eq!(PolymarketErrorCode::ParseError.to_string(), "PARSE_ERROR");
    assert_eq!(PolymarketErrorCode::NetworkError.to_string(), "NETWORK_ERROR");
}

#[test]
fn test_plugin_name() {
    assert_eq!(elizaos_plugin_polymarket::PLUGIN_NAME, "polymarket");
}

#[test]
fn test_plugin_version_not_empty() {
    assert!(!elizaos_plugin_polymarket::PLUGIN_VERSION.is_empty());
}

#[test]
fn error_display_is_code_then_message() {
    let err = PolymarketError::new(PolymarketErrorCode::ParseError, "bad json");
    assert_eq!(err.to_string(), "[PARSE_ERROR] bad json");
}

#[test]
fn error_cause_keeps_the_underlying_text() {
    let inner = std::io::Error::new(std::io::ErrorKind::Other, "disk full");
    let err = PolymarketError::with_cause(PolymarketErrorCode::ApiError, "write failed", inner);
    assert_eq!(err.cause.as_deref(), Some("disk full"));
}
