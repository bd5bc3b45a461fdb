//! Polymarket actions.

pub mod research;
pub mod realtime;
pub mod orders;
pub mod api_keys;
pub mod account;
pub mod orderbook;
pub mod balances;
pub mod trading;
pub mod positions;
pub mod search;

use vstd::prelude::*;

verus! {

pub const POLYMARKET_GET_MARKETS: &'static str = "POLYMARKET_GET_MARKETS";
pub const POLYMARKET_GET_MARKET_DETAILS: &'static str = "POLYMARKET_GET_MARKET_DETAILS";
pub const POLYMARKET_RETRIEVE_ALL_MARKETS: &'static str = "POLYMARKET_RETRIEVE_ALL_MARKETS";
pub const POLYMARKET_GET_ORDER_BOOK: &'static str = "POLYMARKET_GET_ORDER_BOOK";
pub const POLYMARKET_GET_ORDER_BOOK_DEPTH: &'static str = "POLYMARKET_GET_ORDER_BOOK_DEPTH";
pub const POLYMARKET_GET_ORDER_BOOK_SUMMARY: &'static str = "POLYMARKET_GET_ORDER_BOOK_SUMMARY";
pub const POLYMARKET_GET_BEST_PRICE: &'static str = "POLYMARKET_GET_BEST_PRICE";
pub const POLYMARKET_GET_MIDPOINT_PRICE: &'static str = "POLYMARKET_GET_MIDPOINT_PRICE";
pub const POLYMARKET_GET_SPREAD: &'static str = "POLYMARKET_GET_SPREAD";
pub const POLYMARKET_GET_BALANCES: &'static str = "POLYMARKET_GET_BALANCES";
pub const POLYMARKET_GET_POSITIONS: &'static str = "POLYMARKET_GET_POSITIONS";
pub const POLYMARKET_PLACE_ORDER: &'static str = "POLYMARKET_PLACE_ORDER";
pub const POLYMARKET_GET_ORDER_DETAILS: &'static str = "POLYMARKET_GET_ORDER_DETAILS";
pub const POLYMARKET_GET_ACTIVE_ORDERS: &'static str = "POLYMARKET_GET_ACTIVE_ORDERS";
pub const POLYMARKET_GET_TRADE_HISTORY: &'static str = "POLYMARKET_GET_TRADE_HISTORY";
pub const POLYMARKET_GET_PRICE_HISTORY: &'static str = "POLYMARKET_GET_PRICE_HISTORY";
pub const POLYMARKET_CHECK_ORDER_SCORING: &'static str = "POLYMARKET_CHECK_ORDER_SCORING";
pub const POLYMARKET_CREATE_API_KEY: &'static str = "POLYMARKET_CREATE_API_KEY";
pub const POLYMARKET_GET_ALL_API_KEYS: &'static str = "POLYMARKET_GET_ALL_API_KEYS";
pub const POLYMARKET_REVOKE_API_KEY: &'static str = "POLYMARKET_REVOKE_API_KEY";
pub const POLYMARKET_GET_ACCOUNT_ACCESS_STATUS: &'static str = "POLYMARKET_GET_ACCOUNT_ACCESS_STATUS";
pub const POLYMARKET_HANDLE_AUTHENTICATION: &'static str = "POLYMARKET_HANDLE_AUTHENTICATION";
pub const POLYMARKET_SETUP_WEBSOCKET: &'static str = "POLYMARKET_SETUP_WEBSOCKET";
pub const POLYMARKET_HANDLE_REALTIME_UPDATES: &'static str = "POLYMARKET_HANDLE_REALTIME_UPDATES";
pub const POLYMARKET_SEARCH_MARKETS: &'static str = "POLYMARKET_SEARCH_MARKETS";
pub const POLYMARKET_RESEARCH_MARKET: &'static str = "POLYMARKET_RESEARCH_MARKET";

/// The names of every action.
pub const ALL_ACTION_NAMES: [&'static str; 26] = [
    POLYMARKET_GET_MARKETS,
    POLYMARKET_GET_MARKET_DETAILS,
    POLYMARKET_RETRIEVE_ALL_MARKETS,
    POLYMARKET_GET_ORDER_BOOK,
    POLYMARKET_GET_ORDER_BOOK_DEPTH,
    POLYMARKET_GET_ORDER_BOOK_SUMMARY,
    POLYMARKET_GET_BEST_PRICE,
    POLYMARKET_GET_MIDPOINT_PRICE,
    POLYMARKET_GET_SPREAD,
    POLYMARKET_GET_BALANCES,
    POLYMARKET_GET_POSITIONS,
    POLYMARKET_PLACE_ORDER,
    POLYMARKET_GET_ORDER_DETAILS,
    POLYMARKET_GET_ACTIVE_ORDERS,
    POLYMARKET_GET_TRADE_HISTORY,
    POLYMARKET_GET_PRICE_HISTORY,
    POLYMARKET_CHECK_ORDER_SCORING,
    POLYMARKET_CREATE_API_KEY,
    POLYMARKET_GET_ALL_API_KEYS,
    POLYMARKET_REVOKE_API_KEY,
    POLYMARKET_GET_ACCOUNT_ACCESS_STATUS,
    POLYMARKET_HANDLE_AUTHENTICATION,
    POLYMARKET_SETUP_WEBSOCKET,
    POLYMARKET_HANDLE_REALTIME_UPDATES,
    POLYMARKET_SEARCH_MARKETS,
    POLYMARKET_RESEARCH_MARKET,
];

} // verus!
