use elizaos_plugin_polymarket::actions::search::{
    encode_query, parse_outcomes, search_limit, search_results_text, search_url, select_search_markets,
    MarketFlags, SearchMarketLine,
};
use elizaos_plugin_polymarket::providers::{PolymarketProvider, ProviderContext};
use elizaos_plugin_polymarket::constants::DEFAULT_CLOB_API_URL;

#[test]
fn test_parse_outcomes_valid_json() {
    let outcomes = parse_outcomes(r#"["Yes", "No"]"#);
    assert_eq!(outcomes, vec!["Yes", "No"]);
}

#[test]
fn test_parse_outcomes_invalid_json() {
    let outcomes = parse_outcomes("not json");
    assert!(outcomes.is_empty());
}

#[test]
fn test_parse_outcomes_empty_array() {
    let outcomes = parse_outcomes("[]");
    assert!(outcomes.is_empty());
}

#[test]
fn query_encoding_escapes_reserved_characters() {
    assert_eq!(encode_query("miami heat"), "miami%20heat");
    assert_eq!(encode_query("a&b=c?d#e+f"), "a%26b%3Dc%3Fd%23e%2Bf");
    assert_eq!(encode_query("A-z_0.9~"), "A-z_0.9~");
    assert_eq!(encode_query("é中\n"), "%E9%4E2D%0A");
}

#[test]
fn search_url_caps_the_limit() {
    assert_eq!(search_limit(None), 10);
    assert_eq!(search_limit(Some(3)), 3);
    assert_eq!(search_limit(Some(100)), 25);
    assert_eq!(
        search_url("bitcoin price", Some(50), true),
        "https://gamma-api.polymarket.com/public-search?q=bitcoin%20price&limit_per_type=25&events_status=active"
    );
    assert_eq!(
        search_url("x", None, false),
        "https://gamma-api.polymarket.com/public-search?q=x&limit_per_type=10"
    );
}

#[test]
fn selection_keeps_active_open_markets_up_to_the_limit() {
    let f = |active, closed| MarketFlags { active, closed };
    let markets = vec![f(true, false), f(false, false), f(true, true), f(true, false), f(true, false)];
    let s = select_search_markets(&markets, true, 2);
    assert_eq!(s.shown, vec![0, 3]);
    assert_eq!(s.total_results, 3);
    assert_eq!(s.displayed_results, 2);
    assert!(s.has_more);
    let s = select_search_markets(&markets, false, 10);
    assert_eq!(s.shown, vec![0, 1, 2, 3, 4]);
    assert_eq!(s.total_results, 5);
    assert!(!s.has_more);
}

#[test]
fn test_provider_metadata() {
    let provider = PolymarketProvider;
    assert_eq!(provider.name(), "POLYMARKET_PROVIDER");
    assert!(provider.description().contains("Polymarket"));
}

#[test]
fn test_polymarket_provider_name() {
    assert_eq!(PolymarketProvider.name(), "POLYMARKET_PROVIDER");
}

#[test]
fn test_polymarket_provider_description() {
    let desc = PolymarketProvider.description();
    assert!(desc.contains("Polymarket"));
    assert!(desc.contains("market"));
}

#[test]
fn test_polymarket_provider_basic() {
    let provider = PolymarketProvider;
    let context = ProviderContext::default();
    let result = provider.get(&context);
    assert!(result.text.contains("Polymarket CLOB"));
    assert!(result.text.contains("market_data"));
}

#[test]
fn test_polymarket_provider_with_auth() {
    let provider = PolymarketProvider;
    let context = ProviderContext {
        clob_api_url: Some("https://custom.api".to_string()),
        has_private_key: true,
        has_api_creds: true,
    };
    let result = provider.get(&context);
    assert!(result.text.contains("wallet_operations"));
    assert!(result.text.contains("authenticated_requests"));
    assert!(result.text.contains("custom.api"));
}

#[test]
fn test_polymarket_provider_default_context() {
    let result = PolymarketProvider.get(&ProviderContext::default());
    assert!(result.text.contains("Polymarket CLOB"));
    assert!(result.text.contains(DEFAULT_CLOB_API_URL));
    assert!(result.text.contains("market_data"));
    assert!(!result.text.contains("wallet_operations"));
    assert!(!result.text.contains("authenticated_requests"));
}

#[test]
fn test_polymarket_provider_with_private_key() {
    let context = ProviderContext { clob_api_url: None, has_private_key: true, has_api_creds: false };
    let result = PolymarketProvider.get(&context);
    assert!(result.text.contains("wallet_operations"));
    assert!(!result.text.contains("authenticated_requests"));
}

#[test]
fn provider_text_is_exact() {
    let result = PolymarketProvider.get(&ProviderContext::default());
    assert_eq!(
        result.text,
        "Connected to Polymarket CLOB at https://clob.polymarket.com on Polygon (Chain ID: 137). Features available: market_data, price_feeds, order_book."
    );
    assert_eq!(result.chain_id, 137);
    assert_eq!(result.features_available.len(), 3);
}

#[test]
fn search_results_text_lays_out_markets_and_tags() {
    let m = SearchMarketLine {
        question: "Will it rain?".to_string(),
        active: true,
        closed: false,
        outcomes: r#"["Yes","No"]"#.to_string(),
        prices: vec!["65.0%".to_string(), "35.0%".to_string()],
        volume: Some("$1.50M".to_string()),
        volume_24h: Some("$25.0K".to_string()),
        end_date: "2025-12-31T00:00:00Z".to_string(),
        condition_id: "0x0123456789abcdef0123".to_string(),
        has_token_ids: true,
    };
    let tags: Vec<String> = ["a", "b", "c", "d", "e", "f"].iter().map(|t| t.to_string()).collect();
    let text = search_results_text("rain", 3, 1, true, &[m], &tags);
    assert_eq!(
        text,
        "🔍 **Search Results for \"rain\"**\n\nFound 3 market(s):\n\n**1. Will it rain?** 🟢\n   📊 Yes: 65.0% | No: 35.0%\n   💰 Volume: $1.50M (24h: $25.0K)\n   ⏰ Ends: 2025-12-31\n   🔑 ID: `0x0123456789abcd...`\n   🏷️ Token IDs available for trading\n\n\n📄 *Showing 1 of 3 results. Increase limit to see more.*\n\n🏷️ *Related tags: a, b, c, d, e*"
    );
    let empty = search_results_text("x", 0, 0, false, &[], &[]);
    assert_eq!(
        empty,
        "🔍 **Search Results for \"x\"**\n\nNo markets found matching \"x\".\n\n💡 *Try different keywords or check the spelling.*"
    );
}
