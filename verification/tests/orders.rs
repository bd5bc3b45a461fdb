use alloy::primitives::{keccak256, Address, Signature, B256, U256};
use alloy::signers::local::PrivateKeySigner;
use alloy::signers::Signer;
use elizaos_plugin_polymarket::actions::api_keys::{
    create_api_key_status_error, get_authentication_status, ApiKeyCreator,
};
use elizaos_plugin_polymarket::actions::orders::{
    order_terms_from_amounts, rand_salt, salt_of_time, OrderBuilder, OrderTerms,
};
use elizaos_plugin_polymarket::client::ClobClient;
use elizaos_plugin_polymarket::constants::{CTF_EXCHANGE_ADDRESS, NEG_RISK_CTF_EXCHANGE_ADDRESS};
use elizaos_plugin_polymarket::error::PolymarketErrorCode;
use elizaos_plugin_polymarket::types::{ApiKeyCreds, OrderSide};

const KEY: &str = "0x1111111111111111111111111111111111111111111111111111111111111111";

fn wallet() -> Address {
    KEY[2..].parse::<PrivateKeySigner>().unwrap().address()
}

fn word(n: u64) -> [u8; 32] {
    U256::from(n).to_be_bytes::<32>()
}

fn domain(name: &str, version: &str, contract: &[u8]) -> [u8; 32] {
    let mut d = Vec::new();
    d.extend_from_slice(
        keccak256("EIP712Domain(string name,string version,uint256 chainId,address verifyingContract)".as_bytes())
            .as_slice(),
    );
    d.extend_from_slice(keccak256(name.as_bytes()).as_slice());
    d.extend_from_slice(keccak256(version.as_bytes()).as_slice());
    d.extend_from_slice(&word(137));
    d.extend_from_slice(&[0u8; 12]);
    d.extend_from_slice(contract);
    keccak256(&d).0
}

fn digest(domain: [u8; 32], struct_hash: [u8; 32]) -> B256 {
    let mut d = vec![0x19u8, 0x01u8];
    d.extend_from_slice(&domain);
    d.extend_from_slice(&struct_hash);
    keccak256(&d)
}

fn order_digest(neg_risk: bool, salt: u64, token: U256, terms: &OrderTerms, expiration: u64, nonce: u64) -> B256 {
    let exchange: Address =
        if neg_risk { NEG_RISK_CTF_EXCHANGE_ADDRESS } else { CTF_EXCHANGE_ADDRESS }.parse().unwrap();
    let maker = wallet();
    let mut d = Vec::new();
    d.extend_from_slice(keccak256("Order(uint256 salt,address maker,address signer,address taker,uint256 tokenId,uint256 makerAmount,uint256 takerAmount,uint256 expiration,uint256 nonce,uint256 feeRateBps,uint8 side,uint8 signatureType)".as_bytes()).as_slice());
    d.extend_from_slice(&word(salt));
    d.extend_from_slice(&[0u8; 12]);
    d.extend_from_slice(maker.as_slice());
    d.extend_from_slice(&[0u8; 12]);
    d.extend_from_slice(maker.as_slice());
    d.extend_from_slice(&[0u8; 12]);
    d.extend_from_slice(Address::ZERO.as_slice());
    d.extend_from_slice(&token.to_be_bytes::<32>());
    d.extend_from_slice(&word(terms.maker_amount));
    d.extend_from_slice(&word(terms.taker_amount));
    d.extend_from_slice(&word(expiration));
    d.extend_from_slice(&word(nonce));
    d.extend_from_slice(&word(terms.fee_rate_bps as u64));
    d.extend_from_slice(&[0u8; 31]);
    d.push(match terms.side { OrderSide::Buy => 0, OrderSide::Sell => 1 });
    d.extend_from_slice(&[0u8; 31]);
    d.push(0);
    digest(domain("Polymarket CTF Exchange", "1", exchange.as_slice()), keccak256(&d).0)
}

fn terms(token: &str, side: OrderSide) -> OrderTerms {
    OrderTerms {
        token_id: token.to_string(),
        side,
        maker_amount: 550_000,
        taker_amount: 1_000_000,
        fee_rate_bps: 0,
        expiration: Some(1_700_000_000),
        nonce: Some(7),
    }
}

fn recovered(signature: &str, prehash: &B256) -> Address {
    let bytes = hex::decode(&signature[2..]).unwrap();
    Signature::from_raw(&bytes).unwrap().recover_address_from_prehash(prehash).unwrap()
}

#[test]
fn signed_order_carries_the_terms_in_decimal() {
    let builder = OrderBuilder::new(KEY, false).unwrap();
    let t = terms("12345", OrderSide::Buy);
    let o = builder.sign_order_at(&t, 42, 0, 9).unwrap();
    let maker = format!("{:?}", wallet());
    assert_eq!(o.salt, "42");
    assert_eq!(o.maker, maker);
    assert_eq!(o.signer, maker);
    assert_eq!(o.taker, "0x0000000000000000000000000000000000000000");
    assert_eq!(o.token_id, "12345");
    assert_eq!(o.maker_amount, "550000");
    assert_eq!(o.taker_amount, "1000000");
    assert_eq!(o.expiration, "1700000000");
    assert_eq!(o.nonce, "7");
    assert_eq!(o.fee_rate_bps, "0");
    assert_eq!(o.side, "0");
    assert_eq!(o.signature_type, 0);
    assert_eq!(o.signature.len(), 2 + 130);
}

#[test]
fn order_signature_recovers_to_the_wallet_on_both_exchanges() {
    for neg_risk in [false, true] {
        let builder = OrderBuilder::new(KEY, neg_risk).unwrap();
        let t = terms("0x10", OrderSide::Sell);
        let o = builder.sign_order_at(&t, 5, 0, 0).unwrap();
        assert_eq!(o.token_id, "16");
        assert_eq!(o.side, "1");
        let d = order_digest(neg_risk, 5, U256::from(16u64), &t, 1_700_000_000, 7);
        assert_eq!(recovered(&o.signature, &d), wallet());
    }
}

#[test]
fn default_expiration_is_thirty_days_after_now_and_fresh_nonce_is_used() {
    let builder = OrderBuilder::new(KEY, false).unwrap();
    let mut t = terms("1", OrderSide::Buy);
    t.expiration = None;
    t.nonce = None;
    let o = builder.sign_order_at(&t, 1, 1_000, 77).unwrap();
    assert_eq!(o.expiration, (1_000u64 + 2_592_000).to_string());
    assert_eq!(o.nonce, "77");
    let d = order_digest(false, 1, U256::from(1u64), &t, 1_000 + 2_592_000, 77);
    assert_eq!(recovered(&o.signature, &d), wallet());
}

#[test]
fn unparseable_token_id_is_an_invalid_token() {
    let builder = OrderBuilder::new(KEY, false).unwrap();
    let err = builder.sign_order_at(&terms("not-a-number", OrderSide::Buy), 1, 0, 0).unwrap_err();
    assert_eq!(err.code, PolymarketErrorCode::InvalidToken);
    assert_eq!(err.message, "Invalid token ID format");
    let err = builder.create_and_sign_order(&terms("12x", OrderSide::Buy)).unwrap_err();
    assert_eq!(err.code, PolymarketErrorCode::InvalidToken);
}

#[test]
fn clock_signed_order_is_valid() {
    let builder = OrderBuilder::new(&KEY[2..], false).unwrap();
    let o = builder.create_and_sign_order(&terms("99", OrderSide::Buy)).unwrap();
    assert_eq!(o.token_id, "99");
    assert!(o.salt.parse::<u64>().is_ok());
}

#[test]
fn bad_private_key_is_a_config_error() {
    let err = OrderBuilder::new("0xzz", false).err().unwrap();
    assert_eq!(err.code, PolymarketErrorCode::ConfigError);
    assert!(err.message.starts_with("Invalid private key: "));
    let err = ApiKeyCreator::new("nope", None).err().unwrap();
    assert_eq!(err.code, PolymarketErrorCode::ConfigError);
}

#[test]
fn salt_mixes_nanoseconds_and_seconds() {
    let t: u128 = 3 * 1_000_000_000 + 5;
    assert_eq!(salt_of_time(t), (t as u64) ^ (3u64 << 32));
    let _ = rand_salt();
}

#[test]
fn api_key_request_is_signed_clob_auth() {
    let creator = ApiKeyCreator::new(KEY, Some("https://example.com/")).unwrap();
    assert_eq!(creator.api_key_url(), "https://example.com/auth/api-key");
    let r = creator.api_key_request_at(1000, 6).unwrap();
    assert_eq!(r.address, format!("{:?}", wallet()));
    assert_eq!(r.timestamp, "1000");
    assert_eq!(r.nonce, (1000u64 ^ 6).to_string());
    let mut d = Vec::new();
    d.extend_from_slice(keccak256("ClobAuth(address address,uint256 timestamp,uint256 nonce)".as_bytes()).as_slice());
    d.extend_from_slice(&[0u8; 12]);
    d.extend_from_slice(wallet().as_slice());
    d.extend_from_slice(&word(1000));
    d.extend_from_slice(&word(1000 ^ 6));
    let prehash = digest(domain("ClobAuthDomain", "1", Address::ZERO.as_slice()), keccak256(&d).0);
    assert_eq!(recovered(&r.signature, &prehash), wallet());
    assert!(creator.create_api_key_request(1234).is_ok());
}

#[test]
fn api_key_status_error_and_authentication_status() {
    let e = create_api_key_status_error("400 Bad Request", "nope");
    assert_eq!(e.code, PolymarketErrorCode::ApiError);
    assert_eq!(e.message, "Failed to create API key (400 Bad Request): nope");
    let client = ClobClient::new(None, KEY).unwrap();
    assert_eq!(get_authentication_status(&client), (true, false, false, false, false));
    let creds = ApiKeyCreds { key: "k".into(), secret: "s".into(), passphrase: "p".into() };
    let client = ClobClient::new_with_creds(None, KEY, creds).unwrap();
    assert_eq!(get_authentication_status(&client), (true, true, true, true, true));
}

#[test]
fn order_amounts_follow_the_side() {
    let buy = order_terms_from_amounts("1".to_string(), OrderSide::Buy, 550_000, 1_000_000, 3, None, Some(2));
    assert_eq!((buy.maker_amount, buy.taker_amount), (550_000, 1_000_000));
    assert_eq!(buy.fee_rate_bps, 3);
    assert_eq!(buy.nonce, Some(2));
    let sell = order_terms_from_amounts("1".to_string(), OrderSide::Sell, 550_000, 1_000_000, 0, Some(9), None);
    assert_eq!((sell.maker_amount, sell.taker_amount), (1_000_000, 550_000));
    assert_eq!(sell.expiration, Some(9));
}
