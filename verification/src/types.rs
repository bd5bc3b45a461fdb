//! Type definitions for the Polymarket plugin.

use vstd::prelude::*;

verus! {

/// An outcome token of a market.
#[derive(Debug, Clone, PartialEq)]
pub struct Token {
    pub token_id: String,
    pub outcome: String,
}

/// The side of an order.
#[derive(Debug, Clone, Copy, PartialEq, Eq, Structural)]
pub enum OrderSide {
    Buy,
    Sell,
}

/// The display text of an order side.
pub open spec fn side_text(side: OrderSide) -> Seq<char> {
    match side {
        OrderSide::Buy => "BUY"@,
        OrderSide::Sell => "SELL"@,
    }
}

impl OrderSide {
    /// The display text of this side: `BUY` or `SELL`.
    pub fn to_string(&self) -> (s: String)
        ensures
            s@ == side_text(*self),
    {
        match self {
            OrderSide::Buy => String::from_str("BUY"),
            OrderSide::Sell => String::from_str("SELL"),
        }
    }
}

/// How long an order stays on the book.
#[derive(Debug, Clone, Copy, PartialEq, Eq, Structural)]
pub enum OrderType {
    Gtc,
    Fok,
    Gtd,
    Fak,
}

impl Default for OrderType {
    fn default() -> (t: Self)
        ensures
            t == OrderType::Gtc,
    {
        OrderType::Gtc
    }
}

/// The display text of an order type.
pub open spec fn order_type_text(t: OrderType) -> Seq<char> {
    match t {
        OrderType::Gtc => "GTC"@,
        OrderType::Fok => "FOK"@,
        OrderType::Gtd => "GTD"@,
        OrderType::Fak => "FAK"@,
    }
}

impl OrderType {
    /// The display text of this order type: `GTC`, `FOK`, `GTD` or `FAK`.
    pub fn to_string(&self) -> (s: String)
        ensures
            s@ == order_type_text(*self),
    {
        match self {
            OrderType::Gtc => String::from_str("GTC"),
            OrderType::Fok => String::from_str("FOK"),
            OrderType::Gtd => String::from_str("GTD"),
            OrderType::Fak => String::from_str("FAK"),
        }
    }
}

/// The status of an order.
#[derive(Debug, Clone, Copy, PartialEq, Eq, Structural)]
pub enum OrderStatus {
    Pending,
    Open,
    Filled,
    PartiallyFilled,
    Cancelled,
    Expired,
    Rejected,
}

/// The response to an order submission.
#[derive(Debug, Clone)]
pub struct OrderResponse {
    pub success: bool,
    pub error_msg: Option<String>,
    pub order_id: Option<String>,
    pub order_hashes: Option<Vec<String>>,
    pub status: Option<String>,
}

/// An open order.
#[derive(Debug, Clone)]
pub struct OpenOrder {
    pub order_id: String,
    pub user_id: String,
    pub market_id: String,
    pub token_id: String,
    pub side: OrderSide,
    pub order_type: String,
    pub status: String,
    pub price: String,
    pub size: String,
    pub filled_size: String,
    pub fees_paid: String,
    pub created_at: String,
    pub updated_at: String,
}

/// A price level of an order book.
#[derive(Debug, Clone)]
pub struct BookEntry {
    pub price: String,
    pub size: String,
}

/// The order book of a token: bids and asks, best first.
#[derive(Debug, Clone)]
pub struct OrderBook {
    pub market: String,
    pub asset_id: String,
    pub bids: Vec<BookEntry>,
    pub asks: Vec<BookEntry>,
}

/// The status of a trade.
#[derive(Debug, Clone, Copy, PartialEq, Eq, Structural)]
pub enum TradeStatus {
    Matched,
    Mined,
    Confirmed,
    Retrying,
    Failed,
}

/// A trade.
#[derive(Debug, Clone)]
pub struct Trade {
    pub id: String,
    pub market: String,
    pub asset_id: String,
    pub side: OrderSide,
    pub price: String,
    pub size: String,
    pub timestamp: String,
    pub status: TradeStatus,
}

/// A trade of the user's trade history.
#[derive(Debug, Clone)]
pub struct TradeEntry {
    pub trade_id: String,
    pub order_id: String,
    pub user_id: String,
    pub market_id: String,
    pub token_id: String,
    pub side: OrderSide,
    pub trade_type: String,
    pub price: String,
    pub size: String,
    pub fees_paid: String,
    pub timestamp: String,
    pub tx_hash: String,
}

/// A position in a token.
#[derive(Debug, Clone)]
pub struct Position {
    pub market: String,
    pub asset_id: String,
    pub size: String,
    pub average_price: String,
    pub realized_pnl: String,
    pub unrealized_pnl: String,
}

/// The balance of an asset.
#[derive(Debug, Clone)]
pub struct Balance {
    pub asset: String,
    pub balance: String,
    pub symbol: String,
    pub decimals: u8,
}

/// A balance and the allowance granted to the exchange.
#[derive(Debug, Clone)]
pub struct BalanceAllowance {
    pub balance: String,
    pub allowance: String,
}

/// API credentials.
#[derive(Debug, Clone)]
pub struct ApiKeyCreds {
    pub key: String,
    pub secret: String,
    pub passphrase: String,
}

/// The access an API key grants.
#[derive(Debug, Clone, Copy, PartialEq, Eq, Structural)]
pub enum ApiKeyType {
    ReadOnly,
    ReadWrite,
}

/// Whether an API key can still be used.
#[derive(Debug, Clone, Copy, PartialEq, Eq, Structural)]
pub enum ApiKeyStatus {
    Active,
    Revoked,
}

/// An API key of the user.
#[derive(Debug, Clone)]
pub struct ApiKey {
    pub key_id: String,
    pub label: String,
    pub key_type: ApiKeyType,
    pub status: ApiKeyStatus,
    pub created_at: String,
    pub last_used_at: Option<String>,
    pub is_cert_whitelisted: bool,
}

/// One page of the user's trade history.
#[derive(Debug, Clone)]
pub struct TradesResponse {
    pub data: Vec<TradeEntry>,
    pub next_cursor: String,
}

/// Filters for listing markets.
#[derive(Debug, Clone)]
pub struct MarketFilters {
    pub category: Option<String>,
    pub active: Option<bool>,
    pub limit: Option<u32>,
    pub next_cursor: Option<String>,
}

impl Default for MarketFilters {
    fn default() -> (f: Self)
        ensures
            f.category is None,
            f.active is None,
            f.limit is None,
            f.next_cursor is None,
    {
        MarketFilters { category: None, active: None, limit: None, next_cursor: None }
    }
}

/// Filters for the trade history.
#[derive(Debug, Clone)]
pub struct GetTradesParams {
    pub user_address: Option<String>,
    pub market_id: Option<String>,
    pub token_id: Option<String>,
    pub from_timestamp: Option<u64>,
    pub to_timestamp: Option<u64>,
    pub limit: Option<u32>,
    pub next_cursor: Option<String>,
}

impl Default for GetTradesParams {
    fn default() -> (p: Self)
        ensures
            p.user_address is None,
            p.market_id is None,
            p.token_id is None,
            p.from_timestamp is None,
            p.to_timestamp is None,
            p.limit is None,
            p.next_cursor is None,
    {
        GetTradesParams {
            user_address: None,
            market_id: None,
            token_id: None,
            from_timestamp: None,
            to_timestamp: None,
            limit: None,
            next_cursor: None,
        }
    }
}

/// The price of a token.
#[derive(Debug, Clone)]
pub struct TokenPrice {
    pub token_id: String,
    pub price: String,
}

/// A point of a token's price history.
#[derive(Debug, Clone)]
pub struct PriceHistoryEntry {
    pub timestamp: String,
    pub price: String,
    pub volume: Option<String>,
}

} // verus!
