use elizaos_plugin_polymarket::actions::balances::{
    collect_wallet_balances, format_balance_result, gather_balances, plan_wallet_balances,
    BalanceQueryParams, BalanceResult,
};
use elizaos_plugin_polymarket::actions::trading::{collect_balances, plan_balances};
use elizaos_plugin_polymarket::client::ClobClient;
use elizaos_plugin_polymarket::error::{PolymarketError, PolymarketErrorCode};
use elizaos_plugin_polymarket::types::{ApiKeyCreds, BalanceAllowance};

fn key() -> String {
    format!("0x{}", "11".repeat(32))
}

fn ba(balance: &str, allowance: &str) -> BalanceAllowance {
    BalanceAllowance { balance: balance.to_string(), allowance: allowance.to_string() }
}

fn creds() -> ApiKeyCreds {
    ApiKeyCreds { key: "k".to_string(), secret: "s".to_string(), passphrase: "p".to_string() }
}

#[test]
fn test_balance_query_params_all() {
    let params = BalanceQueryParams::all();
    assert!(params.include_collateral);
    assert!(params.include_conditional);
    assert_eq!(params.max_tokens, 25);
    assert!(params.token_ids.is_none());
}

#[test]
fn test_balance_query_params_collateral_only() {
    let params = BalanceQueryParams::collateral_only();
    assert!(params.include_collateral);
    assert!(!params.include_conditional);
    assert_eq!(params.max_tokens, 0);
}

#[test]
fn test_format_balance_result_with_collateral() {
    let result = BalanceResult {
        collateral: Some(ba("250.00", "1000000")),
        token_balances: vec![],
        token_count: 0,
    };
    let formatted = format_balance_result(&result);
    assert!(formatted.contains("Wallet Balances"));
    assert!(formatted.contains("250.00"));
    assert!(formatted.contains("Collateral (USDC)"));
}

#[test]
fn test_format_balance_result_with_tokens() {
    let result = BalanceResult {
        collateral: None,
        token_balances: vec![("0xabcdef1234567890abcdef1234567890".to_string(), ba("100", "100"))],
        token_count: 1,
    };
    let formatted = format_balance_result(&result);
    assert!(formatted.contains("Conditional Tokens"));
    assert!(formatted.contains("1 tokens"));
    assert!(formatted.contains("0xabcdef12345678..."));
}

#[test]
fn test_format_balance_result_empty() {
    let result = BalanceResult {
        collateral: Some(ba("0", "0")),
        token_balances: vec![],
        token_count: 0,
    };
    let formatted = format_balance_result(&result);
    assert!(formatted.contains("No conditional token balances"));
}

#[test]
fn format_balance_result_exact_text() {
    let result = BalanceResult {
        collateral: Some(ba("5", "7")),
        token_balances: vec![("short".to_string(), ba("1", "2"))],
        token_count: 1,
    };
    assert_eq!(
        format_balance_result(&result),
        "💰 **Wallet Balances**\n\n**Collateral (USDC):** 5 (allowance: 7)\n\n**Conditional Tokens:** (1 tokens)\n\n• `short` — balance: 1, allowance: 2"
    );
}

#[test]
fn plan_refuses_a_query_for_nothing() {
    let client = ClobClient::new_with_creds(None, &key(), creds()).unwrap();
    let params = BalanceQueryParams::default();
    let err = plan_wallet_balances(&client, &params).unwrap_err();
    assert_eq!(err.code, PolymarketErrorCode::InvalidOrder);
    assert_eq!(err.message, "At least one of include_collateral or include_conditional must be true");
}

#[test]
fn plan_refuses_without_credentials() {
    let client = ClobClient::new(None, &key()).unwrap();
    let err = plan_wallet_balances(&client, &BalanceQueryParams::all()).unwrap_err();
    assert_eq!(err.code, PolymarketErrorCode::AuthError);
    assert_eq!(err.message, "API credentials required for balance queries");
}

#[test]
fn plan_limits_the_tokens_queried() {
    let client = ClobClient::new_with_creds(None, &key(), creds()).unwrap();
    let mut params = BalanceQueryParams::all();
    params.max_tokens = 2;
    params.token_ids = Some(vec!["a".to_string(), "b".to_string(), "c".to_string()]);
    assert_eq!(plan_wallet_balances(&client, &params).unwrap(), vec!["a", "b"]);
    params.max_tokens = 0;
    assert_eq!(plan_wallet_balances(&client, &params).unwrap(), vec!["a", "b", "c"]);
    assert!(plan_wallet_balances(&client, &BalanceQueryParams::collateral_only()).unwrap().is_empty());
}

#[test]
fn gathering_keeps_each_token_once_with_its_last_balance() {
    let fetched = vec![
        ("a".to_string(), Some(ba("1", "1"))),
        ("b".to_string(), None),
        ("a".to_string(), Some(ba("2", "3"))),
        ("c".to_string(), Some(ba("4", "4"))),
    ];
    let v = gather_balances(&fetched);
    assert_eq!(v.len(), 2);
    assert_eq!(v[0].0, "a");
    assert_eq!(v[0].1.balance, "2");
    assert_eq!(v[0].1.allowance, "3");
    assert_eq!(v[1].0, "c");
}

#[test]
fn collected_balances_count_only_when_asked_for() {
    let fetched = vec![("a".to_string(), Ok(ba("1", "1")))];
    let r = collect_wallet_balances(&BalanceQueryParams::all(), &Some(Ok(ba("9", "9"))), &fetched).unwrap();
    assert_eq!(r.token_count, 1);
    assert_eq!(r.collateral.unwrap().balance, "9");
    let r = collect_wallet_balances(&BalanceQueryParams::collateral_only(), &None, &vec![]).unwrap();
    assert_eq!(r.token_count, 0);
    assert!(r.token_balances.is_empty());
}

#[test]
fn a_failed_token_request_fails_the_query_with_its_error() {
    let fetched = vec![
        ("a".to_string(), Ok(ba("1", "1"))),
        ("b".to_string(), Err(PolymarketError::network_error("Failed to fetch conditional balance: timeout"))),
        ("c".to_string(), Err(PolymarketError::api_error("API returned error: 500"))),
    ];
    let err = collect_wallet_balances(&BalanceQueryParams::all(), &None, &fetched).unwrap_err();
    assert_eq!(err.code, PolymarketErrorCode::NetworkError);
    assert_eq!(err.message, "Failed to fetch conditional balance: timeout");
}

#[test]
fn a_failed_collateral_request_fails_the_query_first() {
    let fetched = vec![("b".to_string(), Err(PolymarketError::network_error("token")))];
    let collateral = Some(Err(PolymarketError::api_error("API returned error: 503")));
    let err = collect_wallet_balances(&BalanceQueryParams::all(), &collateral, &fetched).unwrap_err();
    assert_eq!(err.code, PolymarketErrorCode::ApiError);
    assert_eq!(err.message, "API returned error: 503");
}

#[test]
fn account_balances_need_credentials_and_name_the_tokens() {
    let ids = vec!["x".to_string(), "y".to_string()];
    let client = ClobClient::new(None, &key()).unwrap();
    let err = plan_balances(&client, Some(&ids), true).unwrap_err();
    assert_eq!(err.message, "API credentials required for balance queries");
    let client = ClobClient::new_with_creds(None, &key(), creds()).unwrap();
    assert_eq!(plan_balances(&client, Some(&ids), true).unwrap(), ids);
    assert!(plan_balances(&client, Some(&ids), false).unwrap().is_empty());
    let r = collect_balances(None, &vec![("x".to_string(), Some(ba("3", "4")))]);
    assert_eq!(r.conditional.len(), 1);
    assert!(r.collateral.is_none());
}
