use elizaos_plugin_polymarket::client::{
    market_status_error, order_status_error, post_order_error, status_error, ClobClient, TradesPager,
};
use elizaos_plugin_polymarket::error::PolymarketErrorCode;
use elizaos_plugin_polymarket::types::TradesResponse;

fn key() -> String {
    format!("0x{}", "11".repeat(32))
}

fn page(cursor: &str) -> TradesResponse {
    TradesResponse { data: vec![], next_cursor: cursor.to_string() }
}

#[test]
fn client_urls_follow_the_base_url() {
    let c = ClobClient::new(Some("https://api.example.com//"), &key()).unwrap();
    assert_eq!(c.base_url(), "https://api.example.com");
    assert_eq!(c.markets_url(None), "https://api.example.com/markets");
    assert_eq!(c.markets_url(Some("abc")), "https://api.example.com/markets?next_cursor=abc");
    assert_eq!(c.market_url("0x1"), "https://api.example.com/markets/0x1");
    assert_eq!(c.order_book_url("7"), "https://api.example.com/book?token_id=7");
    assert_eq!(c.order_url("o1"), "https://api.example.com/order/o1");
    assert_eq!(c.post_order_url(), "https://api.example.com/order");
    let ids = vec!["1".to_string(), "2".to_string()];
    assert_eq!(c.order_scoring_url(&ids), "https://api.example.com/order-scoring?order_ids=1,2");
    let addr = c.address_hex();
    assert_eq!(addr.len(), 42);
    assert_eq!(
        c.trades_url(Some("m"), Some(&ids), Some(5)),
        format!("https://api.example.com/trades?maker_address={}&market=m&asset_id=1&asset_id=2&limit=5", addr)
    );
    assert_eq!(
        c.price_history_url("t", Some(-5), None, Some(60)),
        "https://api.example.com/prices-history?market=t&startTs=-5&fidelity=60"
    );
}

#[test]
fn client_address_matches_alloy() {
    let c = ClobClient::new(None, &key()).unwrap();
    let signer: alloy::signers::local::PrivateKeySigner = "11".repeat(32).parse().unwrap();
    assert_eq!(c.address_hex(), format!("{:?}", signer.address()));
    assert_eq!(c.chain_id(), 137);
    assert!(!c.has_credentials());
    let err = ClobClient::new(None, "0xnothex").err().unwrap();
    assert_eq!(err.code, PolymarketErrorCode::ConfigError);
}

#[test]
fn status_errors_name_what_was_missing() {
    let e = market_status_error(404, "404 Not Found", "c1");
    assert_eq!(e.code, PolymarketErrorCode::InvalidMarket);
    assert_eq!(e.message, "Market not found: c1");
    let e = order_status_error(500, "500 Internal Server Error", "o");
    assert_eq!(e.code, PolymarketErrorCode::ApiError);
    assert_eq!(e.message, "API returned error: 500 Internal Server Error");
    assert_eq!(status_error("x").message, "API returned error: x");
    assert_eq!(post_order_error("400", "bad").message, "Failed to post order (400): bad");
}

#[test]
fn pager_stops_at_the_page_limit_and_end_cursor() {
    let mut p = TradesPager::new("u?x=1".to_string(), Some(3), page("c1"));
    assert_eq!(p.next_url().unwrap(), "u?x=1&next_cursor=c1");
    p.receive(Some(page("c2")));
    assert!(p.next_url().is_some());
    p.receive(Some(page("c3")));
    assert!(p.next_url().is_none());
    let p = TradesPager::new("u".to_string(), Some(5), page("LTE="));
    assert!(p.next_url().is_none());
    let mut p = TradesPager::new("u".to_string(), Some(5), page("c"));
    p.receive(None);
    assert!(p.next_url().is_none());
    assert_eq!(p.finish().next_cursor, "c");
}
