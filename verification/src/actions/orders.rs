//! Creating and signing orders for the Polymarket CTF exchange.
//!
//! An order is signed as EIP-712 typed data: the digest of the exchange's
//! signing domain and of the order's struct hash is signed with the user's
//! private key. Sending the signed order is left to the caller.

use vstd::prelude::*;
use vstd::utf8::encode_utf8;

use crate::clock::{clock_secs, secs_of_nanos, unix_time_nanos};
use crate::client::{invalid_key_error, strip_0x, strip_hex_prefix, ClobClient};
use crate::constants::POLYGON_CHAIN_ID;
use crate::error::{PolymarketError, PolymarketErrorCode};
use crate::eth::{
    be_value, digest_signature, domain_separator, eip712_digest, eip712_domain_separator,
    key_address, keccak, keccak256, parse_u256, private_key_address, push_bytes, push_zeros,
    sign_digest, text_hash, typed_digest, u256_decimal, u256_parse, u64_word, word, zeros,
};
use crate::text::{dec, prefixed_hex, to_prefixed_hex, u64_to_decimal};
use crate::types::OrderSide;

verus! {

// ===========================================================================
// EIP-712 constants
// ===========================================================================

/// The name of the exchange's signing domain.
pub const DOMAIN_NAME: &'static str = "Polymarket CTF Exchange";

/// The version of the exchange's signing domain.
pub const DOMAIN_VERSION: &'static str = "1";

/// The signature type of an externally owned account.
pub const SIGNATURE_TYPE_EOA: u8 = 0;

/// The signature type of a Polymarket proxy wallet.
pub const SIGNATURE_TYPE_POLY_PROXY: u8 = 1;

/// The signature type of a Polymarket Gnosis Safe.
pub const SIGNATURE_TYPE_POLY_GNOSIS_SAFE: u8 = 2;

/// The EIP-712 type of an order.
pub const ORDER_TYPE: &'static str = "Order(uint256 salt,address maker,address signer,address taker,uint256 tokenId,uint256 makerAmount,uint256 takerAmount,uint256 expiration,uint256 nonce,uint256 feeRateBps,uint8 side,uint8 signatureType)";

/// How long an order stays valid when no expiration is given: 30 days.
pub const DEFAULT_ORDER_LIFETIME_SECS: u64 = 30 * 24 * 60 * 60;

/// The CTF exchange contract, `0x4bFb41d5B3570DeFd03C39a9A4D8dE6Bd8B8982E`.
pub open spec fn ctf_exchange() -> Seq<u8> {
    seq![
        0x4bu8, 0xfbu8, 0x41u8, 0xd5u8, 0xb3u8, 0x57u8, 0x0du8, 0xefu8, 0xd0u8, 0x3cu8,
        0x39u8, 0xa9u8, 0xa4u8, 0xd8u8, 0xdeu8, 0x6bu8, 0xd8u8, 0xb8u8, 0x98u8, 0x2eu8,
    ]
}

/// The neg-risk CTF exchange contract,
/// `0xC5d563A36AE78145C45a50134d48A1215220f80a`.
pub open spec fn neg_risk_ctf_exchange() -> Seq<u8> {
    seq![
        0xc5u8, 0xd5u8, 0x63u8, 0xa3u8, 0x6au8, 0xe7u8, 0x81u8, 0x45u8, 0xc4u8, 0x5au8,
        0x50u8, 0x13u8, 0x4du8, 0x48u8, 0xa1u8, 0x21u8, 0x52u8, 0x20u8, 0xf8u8, 0x0au8,
    ]
}

/// The exchange that verifies the orders of a market.
pub open spec fn exchange_contract(neg_risk: bool) -> Seq<u8> {
    if neg_risk {
        neg_risk_ctf_exchange()
    } else {
        ctf_exchange()
    }
}

/// The exchange's signing domain separator on `chain_id`.
pub open spec fn order_domain(chain_id: u64, neg_risk: bool) -> Seq<u8> {
    domain_separator(DOMAIN_NAME@, DOMAIN_VERSION@, chain_id as nat, exchange_contract(neg_risk))
}

/// The byte of an order side: 0 to buy, 1 to sell.
pub open spec fn side_code(side: OrderSide) -> u8 {
    match side {
        OrderSide::Buy => 0,
        OrderSide::Sell => 1,
    }
}

/// The EIP-712 struct hash of an order: the hash of the order type's hash
/// followed by the fields, each in a 32-byte word (addresses and bytes
/// padded on the left with zeros).
pub open spec fn order_struct_hash(
    salt: nat,
    maker: Seq<u8>,
    signer: Seq<u8>,
    taker: Seq<u8>,
    token_id: Seq<u8>,
    maker_amount: nat,
    taker_amount: nat,
    expiration: nat,
    nonce: nat,
    fee_rate_bps: nat,
    side: u8,
    signature_type: u8,
) -> Seq<u8> {
    keccak(
        keccak(encode_utf8(ORDER_TYPE@)) + word(salt) + zeros(12) + maker + zeros(12) + signer + zeros(
            12,
        ) + taker + token_id + word(maker_amount) + word(taker_amount) + word(expiration) + word(nonce)
            + word(fee_rate_bps) + zeros(31).push(side) + zeros(31).push(signature_type),
    )
}

// ===========================================================================
// Orders
// ===========================================================================

/// A signed order, ready to be sent to the CLOB API.
#[derive(Debug, Clone)]
pub struct SignedOrder {
    pub salt: String,
    pub maker: String,
    pub signer: String,
    pub taker: String,
    pub token_id: String,
    pub maker_amount: String,
    pub taker_amount: String,
    pub expiration: String,
    pub nonce: String,
    pub fee_rate_bps: String,
    pub side: String,
    pub signature_type: u8,
    pub signature: String,
}

/// The terms of an order once its price and size have been turned into
/// the amounts the maker gives and the taker gives, in units of 10^-6.
#[derive(Debug, Clone)]
pub struct OrderTerms {
    /// The token traded, a 256-bit integer in text.
    pub token_id: String,
    pub side: OrderSide,
    pub maker_amount: u64,
    pub taker_amount: u64,
    pub fee_rate_bps: u32,
    /// When the order expires (Unix seconds); 30 days from now if `None`.
    pub expiration: Option<u64>,
    /// The order's nonce; a fresh random one if `None`.
    pub nonce: Option<u64>,
}

/// The terms of an order on `side` that trades `ctf_amount` outcome tokens
/// for `usdc_amount` of collateral (both in units of 10^-6): a buy gives
/// the collateral and takes the tokens, a sell gives the tokens and takes
/// the collateral.
pub fn order_terms_from_amounts(
    token_id: String,
    side: OrderSide,
    usdc_amount: u64,
    ctf_amount: u64,
    fee_rate_bps: u32,
    expiration: Option<u64>,
    nonce: Option<u64>,
) -> (t: OrderTerms)
    ensures
        t.token_id@ == token_id@,
        t.side == side,
        side == OrderSide::Buy ==> t.maker_amount == usdc_amount && t.taker_amount == ctf_amount,
        side == OrderSide::Sell ==> t.maker_amount == ctf_amount && t.taker_amount == usdc_amount,
        t.fee_rate_bps == fee_rate_bps,
        t.expiration == expiration,
        t.nonce == nonce,
{
    let (maker_amount, taker_amount) = match side {
        OrderSide::Buy => (usdc_amount, ctf_amount),
        OrderSide::Sell => (ctf_amount, usdc_amount),
    };
    OrderTerms { token_id, side, maker_amount, taker_amount, fee_rate_bps, expiration, nonce }
}

/// The fields an order's signature covers.
struct OrderData {
    salt: u64,
    maker: [u8; 20],
    signer: [u8; 20],
    taker: [u8; 20],
    token_id: [u8; 32],
    maker_amount: u64,
    taker_amount: u64,
    expiration: u64,
    nonce: u64,
    fee_rate_bps: u64,
    side: u8,
    signature_type: u8,
}

/// The expiration of an order made at `now`.
pub open spec fn order_expiration(terms: OrderTerms, now: u64) -> nat {
    match terms.expiration {
        Some(e) => e as nat,
        None => (now + DEFAULT_ORDER_LIFETIME_SECS) as nat,
    }
}

/// The nonce of an order, `fresh` when the terms give none.
pub open spec fn order_nonce(terms: OrderTerms, fresh: u64) -> nat {
    match terms.nonce {
        Some(n) => n as nat,
        None => fresh as nat,
    }
}

/// The struct hash of an order of the wallet `maker` on the terms `terms`,
/// for the token whose 32 bytes are `token_id`: maker and signer are the
/// wallet, the taker is the zero address (anyone), and the signature is an
/// EOA's.
pub open spec fn terms_struct_hash(
    maker: Seq<u8>,
    terms: OrderTerms,
    token_id: Seq<u8>,
    salt: u64,
    now: u64,
    fresh_nonce: u64,
) -> Seq<u8> {
    order_struct_hash(
        salt as nat,
        maker,
        maker,
        zeros(20),
        token_id,
        terms.maker_amount as nat,
        terms.taker_amount as nat,
        order_expiration(terms, now),
        order_nonce(terms, fresh_nonce),
        terms.fee_rate_bps as nat,
        side_code(terms.side),
        SIGNATURE_TYPE_EOA,
    )
}

/// Whether `o` is the signed order of the wallet `maker` on `terms` with
/// the token bytes `token_id`, carrying the signature `sig`: every number
/// in decimal, every address as `0x` and lowercase hexadecimal.
pub open spec fn is_signed_order(
    o: SignedOrder,
    maker: Seq<u8>,
    terms: OrderTerms,
    token_id: Seq<u8>,
    salt: u64,
    now: u64,
    fresh_nonce: u64,
    sig: Seq<u8>,
) -> bool {
    &&& o.salt@ == dec(salt as nat)
    &&& o.maker@ == prefixed_hex(maker)
    &&& o.signer@ == prefixed_hex(maker)
    &&& o.taker@ == prefixed_hex(zeros(20))
    &&& o.token_id@ == dec(be_value(token_id))
    &&& o.maker_amount@ == dec(terms.maker_amount as nat)
    &&& o.taker_amount@ == dec(terms.taker_amount as nat)
    &&& o.expiration@ == dec(order_expiration(terms, now))
    &&& o.nonce@ == dec(order_nonce(terms, fresh_nonce))
    &&& o.fee_rate_bps@ == dec(terms.fee_rate_bps as nat)
    &&& o.side@ == dec(side_code(terms.side) as nat)
    &&& o.signature_type == SIGNATURE_TYPE_EOA
    &&& o.signature@ == prefixed_hex(sig)
}

/// What signing an order gives: a token ID that does not parse is refused
/// as an invalid token; otherwise the EIP-712 digest of the order is signed
/// with `key`, and the order carries the signature, or the signer's error
/// is reported as an API error.
pub open spec fn signing_outcome(
    key: Seq<char>,
    maker: Seq<u8>,
    chain_id: u64,
    neg_risk: bool,
    terms: OrderTerms,
    salt: u64,
    now: u64,
    fresh_nonce: u64,
    r: Result<SignedOrder, PolymarketError>,
) -> bool {
    match u256_parse(terms.token_id@) {
        None => r matches Err(e) && e.code == PolymarketErrorCode::InvalidToken && e.message@
            == "Invalid token ID format"@ && e.cause is None,
        Some(token_id) => {
            let digest = typed_digest(
                order_domain(chain_id, neg_risk),
                terms_struct_hash(maker, terms, token_id, salt, now, fresh_nonce),
            );
            match digest_signature(key, digest) {
                Ok(sig) => r matches Ok(o) && is_signed_order(
                    o,
                    maker,
                    terms,
                    token_id,
                    salt,
                    now,
                    fresh_nonce,
                    sig,
                ),
                Err(msg) => r matches Err(e) && e.code == PolymarketErrorCode::ApiError && e.message@
                    == "Failed to sign order: "@ + msg && e.cause is None,
            }
        },
    }
}

/// The salt made from a time in nanoseconds since the Unix epoch: its low
/// 64 bits, XOR the seconds shifted 32 bits to the left.
pub open spec fn salt_from_nanos(t: u128) -> u64 {
    (t as u64) ^ (((t / 1_000_000_000) as u64) << 32u64)
}

/// The salt made from a time in nanoseconds since the Unix epoch.
pub fn salt_of_time(t: u128) -> (s: u64)
    ensures
        s == salt_from_nanos(t),
{
    (t as u64) ^ (((t / 1_000_000_000) as u64) << 32u64)
}

/// An order builder and a client made from the same private key act for
/// the same wallet: the orders a user signs are made by the wallet its
/// client queries.
pub proof fn law_builder_and_client_share_wallet(private_key: Seq<char>, client: ClobClient, builder: OrderBuilder)
    requires
        key_address(strip_hex_prefix(private_key)) == Ok::<Seq<u8>, Seq<char>>(client.wallet()),
        builder.key() == strip_hex_prefix(private_key),
        key_address(builder.key()) == Ok::<Seq<u8>, Seq<char>>(builder.wallet()),
    ensures
        client.wallet() == builder.wallet(),
{
}

/// The time, in seconds, at which an order is signed from the clock
/// reading `t` (nanoseconds): its whole seconds, or the latest time at
/// which the default expiration still fits in 64 bits.
pub open spec fn signing_time(t: u128) -> u64 {
    if clock_secs(t) > u64::MAX - DEFAULT_ORDER_LIFETIME_SECS {
        (u64::MAX - DEFAULT_ORDER_LIFETIME_SECS) as u64
    } else {
        clock_secs(t)
    }
}

/// An order signed now without an expiration of its own expires 30 days
/// after the clock reading its salt was made from: the expiration is that
/// reading in whole seconds (nanoseconds / 10^9) plus 2,592,000, and the
/// salt is made from the same reading.
pub proof fn law_default_expiration_follows_the_clock(
    key: Seq<char>,
    maker: Seq<u8>,
    chain_id: u64,
    neg_risk: bool,
    terms: OrderTerms,
    t1: u128,
    t2: u128,
    r: Result<SignedOrder, PolymarketError>,
)
    requires
        signing_outcome(
            key,
            maker,
            chain_id,
            neg_risk,
            terms,
            salt_from_nanos(t1),
            signing_time(t1),
            salt_from_nanos(t2),
            r,
        ),
        terms.expiration is None,
        r is Ok,
        (t1 / 1_000_000_000) as u64 + 2_592_000 <= u64::MAX,
    ensures
        r matches Ok(o) && o.expiration@ == dec(((t1 / 1_000_000_000) as u64) as nat + 2_592_000) && o.salt@
            == dec(((t1 as u64) ^ (((t1 / 1_000_000_000) as u64) << 32u64)) as nat),
{
}

/// A random salt, made from the current time.
pub fn rand_salt() -> (s: u64)
    ensures
        exists|t: u128| s == salt_from_nanos(t),
{
    salt_of_time(unix_time_nanos())
}

/// Builds and signs orders with a private key.
pub struct OrderBuilder {
    private_key: String,
    address: [u8; 20],
    chain_id: u64,
    neg_risk: bool,
}

impl OrderBuilder {
    #[verifier::type_invariant]
    spec fn valid_key(&self) -> bool {
        key_address(self.private_key@) == Ok::<Seq<u8>, Seq<char>>(self.address@)
    }

    /// The private key that signs, without `0x`.
    pub closed spec fn key(&self) -> Seq<char> {
        self.private_key@
    }

    /// The wallet of the key.
    pub closed spec fn wallet(&self) -> Seq<u8> {
        self.address@
    }

    /// The chain the orders are for.
    pub closed spec fn chain(&self) -> u64 {
        self.chain_id
    }

    /// Whether the orders go to the neg-risk exchange.
    pub closed spec fn is_neg_risk(&self) -> bool {
        self.neg_risk
    }

    /// Creates an order builder signing with `private_key` (hex, with or
    /// without `0x`) for the neg-risk exchange or the standard one. Fails
    /// with a configuration error when the key does not parse.
    pub fn new(private_key: &str, neg_risk: bool) -> (r: Result<Self, PolymarketError>)
        ensures
            r is Ok <==> key_address(strip_hex_prefix(private_key@)) is Ok,
            r matches Ok(b) ==> {
                &&& b.key() == strip_hex_prefix(private_key@)
                &&& key_address(b.key()) == Ok::<Seq<u8>, Seq<char>>(b.wallet())
                &&& b.chain() == POLYGON_CHAIN_ID
                &&& b.is_neg_risk() == neg_risk
            },
            r matches Err(e) ==> key_address(strip_hex_prefix(private_key@)) matches Err(pe)
                && invalid_key_error(e, pe),
    {
        let key = strip_0x(private_key);
        match private_key_address(key) {
            Ok(address) => Ok(
                OrderBuilder {
                    private_key: String::from_str(key),
                    address,
                    chain_id: POLYGON_CHAIN_ID,
                    neg_risk,
                },
            ),
            Err(e) => {
                let mut message = String::from_str("Invalid private key: ");
                message.append(e.as_str());
                Err(PolymarketError::config_error(message.as_str()))
            },
        }
    }

    /// The exchange contract that verifies the orders.
    fn exchange_address(&self) -> (a: [u8; 20])
        ensures
            a@ == exchange_contract(self.is_neg_risk()),
    {
        if self.neg_risk {
            let a: [u8; 20] = [
                0xc5, 0xd5, 0x63, 0xa3, 0x6a, 0xe7, 0x81, 0x45, 0xc4, 0x5a, 0x50, 0x13, 0x4d, 0x48,
                0xa1, 0x21, 0x52, 0x20, 0xf8, 0x0a,
            ];
            assert(a@ =~= neg_risk_ctf_exchange());
            a
        } else {
            let a: [u8; 20] = [
                0x4b, 0xfb, 0x41, 0xd5, 0xb3, 0x57, 0x0d, 0xef, 0xd0, 0x3c, 0x39, 0xa9, 0xa4, 0xd8,
                0xde, 0x6b, 0xd8, 0xb8, 0x98, 0x2e,
            ];
            assert(a@ =~= ctf_exchange());
            a
        }
    }

    /// The EIP-712 domain separator of the exchange.
    fn domain_separator(&self) -> (h: [u8; 32])
        ensures
            h@ == order_domain(self.chain(), self.is_neg_risk()),
    {
        let exchange = self.exchange_address();
        eip712_domain_separator(DOMAIN_NAME, DOMAIN_VERSION, self.chain_id, &exchange)
    }

    /// The EIP-712 struct hash of an order.
    fn struct_hash(&self, order: &OrderData) -> (h: [u8; 32])
        ensures
            h@ == order_struct_hash(
                order.salt as nat,
                order.maker@,
                order.signer@,
                order.taker@,
                order.token_id@,
                order.maker_amount as nat,
                order.taker_amount as nat,
                order.expiration as nat,
                order.nonce as nat,
                order.fee_rate_bps as nat,
                order.side,
                order.signature_type,
            ),
    {
        let mut data: Vec<u8> = Vec::new();
        let type_hash = text_hash(ORDER_TYPE);
        push_bytes(&mut data, &type_hash);
        push_bytes(&mut data, u64_word(order.salt).as_slice());
        push_zeros(&mut data, 12);
        push_bytes(&mut data, &order.maker);
        push_zeros(&mut data, 12);
        push_bytes(&mut data, &order.signer);
        push_zeros(&mut data, 12);
        push_bytes(&mut data, &order.taker);
        push_bytes(&mut data, &order.token_id);
        push_bytes(&mut data, u64_word(order.maker_amount).as_slice());
        push_bytes(&mut data, u64_word(order.taker_amount).as_slice());
        push_bytes(&mut data, u64_word(order.expiration).as_slice());
        push_bytes(&mut data, u64_word(order.nonce).as_slice());
        push_bytes(&mut data, u64_word(order.fee_rate_bps).as_slice());
        push_zeros(&mut data, 31);
        data.push(order.side);
        push_zeros(&mut data, 31);
        data.push(order.signature_type);
        keccak256(data.as_slice())
    }

    /// The EIP-712 digest of an order, the hash that is signed.
    fn eip712_hash(&self, order: &OrderData) -> (h: [u8; 32])
        ensures
            h@ == typed_digest(
                order_domain(self.chain(), self.is_neg_risk()),
                order_struct_hash(
                    order.salt as nat,
                    order.maker@,
                    order.signer@,
                    order.taker@,
                    order.token_id@,
                    order.maker_amount as nat,
                    order.taker_amount as nat,
                    order.expiration as nat,
                    order.nonce as nat,
                    order.fee_rate_bps as nat,
                    order.side,
                    order.signature_type,
                ),
            ),
    {
        let domain = self.domain_separator();
        let hash = self.struct_hash(order);
        eip712_digest(&domain, &hash)
    }

    /// Builds and signs an order on `terms` with the given salt, at the
    /// time `now` (Unix seconds, for the default expiration) and with
    /// `fresh_nonce` as the nonce when the terms give none.
    pub fn sign_order_at(&self, terms: &OrderTerms, salt: u64, now: u64, fresh_nonce: u64) -> (r: Result<
        SignedOrder,
        PolymarketError,
    >)
        requires
            terms.expiration is None ==> now + DEFAULT_ORDER_LIFETIME_SECS <= u64::MAX,
        ensures
            signing_outcome(
                self.key(),
                self.wallet(),
                self.chain(),
                self.is_neg_risk(),
                *terms,
                salt,
                now,
                fresh_nonce,
                r,
            ),
    {
        proof {
            use_type_invariant(self);
        }
        let token_id = match parse_u256(terms.token_id.as_str()) {
            Some(t) => t,
            None => {
                return Err(PolymarketError::invalid_token("Invalid token ID format"));
            },
        };
        let expiration = match terms.expiration {
            Some(e) => e,
            None => now + DEFAULT_ORDER_LIFETIME_SECS,
        };
        let nonce = match terms.nonce {
            Some(n) => n,
            None => fresh_nonce,
        };
        let side: u8 = match terms.side {
            OrderSide::Buy => 0,
            OrderSide::Sell => 1,
        };
        let taker: [u8; 20] = [0u8; 20];
        assert(taker@ =~= zeros(20));
        let order = OrderData {
            salt,
            maker: self.address,
            signer: self.address,
            taker,
            token_id,
            maker_amount: terms.maker_amount,
            taker_amount: terms.taker_amount,
            expiration,
            nonce,
            fee_rate_bps: terms.fee_rate_bps as u64,
            side,
            signature_type: SIGNATURE_TYPE_EOA,
        };
        let hash = self.eip712_hash(&order);
        let sig = match sign_digest(self.private_key.as_str(), &hash) {
            Ok(s) => s,
            Err(e) => {
                let mut message = String::from_str("Failed to sign order: ");
                message.append(e.as_str());
                return Err(PolymarketError::api_error(message.as_str()));
            },
        };
        Ok(
            SignedOrder {
                salt: u64_to_decimal(salt),
                maker: to_prefixed_hex(&self.address),
                signer: to_prefixed_hex(&self.address),
                taker: to_prefixed_hex(&taker),
                token_id: u256_decimal(&token_id),
                maker_amount: u64_to_decimal(terms.maker_amount),
                taker_amount: u64_to_decimal(terms.taker_amount),
                expiration: u64_to_decimal(expiration),
                nonce: u64_to_decimal(nonce),
                fee_rate_bps: u64_to_decimal(terms.fee_rate_bps as u64),
                side: u64_to_decimal(side as u64),
                signature_type: SIGNATURE_TYPE_EOA,
                signature: to_prefixed_hex(&sig),
            },
        )
    }
    /// Builds and signs an order on `terms` now: with a salt made from a
    /// reading of the clock, an expiration 30 days after that reading (in
    /// seconds) unless the terms give one, and a nonce made from a second
    /// reading unless the terms give one. A clock so late that the default
    /// expiration would not fit in 64 bits is taken as the latest time at
    /// which it fits.
    pub fn create_and_sign_order(&self, terms: &OrderTerms) -> (r: Result<SignedOrder, PolymarketError>)
        ensures
            exists|t1: u128, t2: u128|
                #[trigger] signing_outcome(
                    self.key(),
                    self.wallet(),
                    self.chain(),
                    self.is_neg_risk(),
                    *terms,
                    salt_from_nanos(t1),
                    signing_time(t1),
                    salt_from_nanos(t2),
                    r,
                ),
    {
        let t1 = unix_time_nanos();
        let salt = salt_of_time(t1);
        let secs = secs_of_nanos(t1);
        let latest = u64::MAX - DEFAULT_ORDER_LIFETIME_SECS;
        let now = if secs > latest {
            latest
        } else {
            secs
        };
        let t2 = unix_time_nanos();
        let fresh_nonce = salt_of_time(t2);
        assert(now == signing_time(t1));
        let r = self.sign_order_at(terms, salt, now, fresh_nonce);
        assert(signing_outcome(
            self.key(),
            self.wallet(),
            self.chain(),
            self.is_neg_risk(),
            *terms,
            salt_from_nanos(t1),
            signing_time(t1),
            salt_from_nanos(t2),
            r,
        ));
        r
    }
}

} // verus!
