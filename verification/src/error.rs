//! Error types for the Polymarket plugin.

use vstd::prelude::*;

verus! {

/// The kind of a Polymarket error.
#[derive(Debug, Clone, Copy, PartialEq, Eq, Hash, Structural)]
pub enum PolymarketErrorCode {
    InvalidMarket,
    InvalidToken,
    InvalidOrder,
    InsufficientFunds,
    MarketClosed,
    ApiError,
    WebSocketError,
    AuthError,
    ConfigError,
    ClientNotInitialized,
    ParseError,
    NetworkError,
}

/// The display text of an error code.
pub open spec fn code_text(code: PolymarketErrorCode) -> Seq<char> {
    match code {
        PolymarketErrorCode::InvalidMarket => "INVALID_MARKET"@,
        PolymarketErrorCode::InvalidToken => "INVALID_TOKEN"@,
        PolymarketErrorCode::InvalidOrder => "INVALID_ORDER"@,
        PolymarketErrorCode::InsufficientFunds => "INSUFFICIENT_FUNDS"@,
        PolymarketErrorCode::MarketClosed => "MARKET_CLOSED"@,
        PolymarketErrorCode::ApiError => "API_ERROR"@,
        PolymarketErrorCode::WebSocketError => "WEBSOCKET_ERROR"@,
        PolymarketErrorCode::AuthError => "AUTH_ERROR"@,
        PolymarketErrorCode::ConfigError => "CONFIG_ERROR"@,
        PolymarketErrorCode::ClientNotInitialized => "CLIENT_NOT_INITIALIZED"@,
        PolymarketErrorCode::ParseError => "PARSE_ERROR"@,
        PolymarketErrorCode::NetworkError => "NETWORK_ERROR"@,
    }
}

impl PolymarketErrorCode {
    /// The display text of this code, e.g. `INVALID_MARKET`.
    pub fn as_str(&self) -> (s: &'static str)
        ensures
            s@ == code_text(*self),
    {
        match self {
            PolymarketErrorCode::InvalidMarket => "INVALID_MARKET",
            PolymarketErrorCode::InvalidToken => "INVALID_TOKEN",
            PolymarketErrorCode::InvalidOrder => "INVALID_ORDER",
            PolymarketErrorCode::InsufficientFunds => "INSUFFICIENT_FUNDS",
            PolymarketErrorCode::MarketClosed => "MARKET_CLOSED",
            PolymarketErrorCode::ApiError => "API_ERROR",
            PolymarketErrorCode::WebSocketError => "WEBSOCKET_ERROR",
            PolymarketErrorCode::AuthError => "AUTH_ERROR",
            PolymarketErrorCode::ConfigError => "CONFIG_ERROR",
            PolymarketErrorCode::ClientNotInitialized => "CLIENT_NOT_INITIALIZED",
            PolymarketErrorCode::ParseError => "PARSE_ERROR",
            PolymarketErrorCode::NetworkError => "NETWORK_ERROR",
        }
    }

    /// The display text of this code as an owned string.
    pub fn to_string(&self) -> (s: String)
        ensures
            s@ == code_text(*self),
    {
        String::from_str(self.as_str())
    }
}

/// An error raised by the Polymarket plugin: a code, a message and an
/// optional underlying cause.
#[derive(Debug)]
pub struct PolymarketError {
    pub code: PolymarketErrorCode,
    pub message: String,
    /// The display text of the underlying error, where there is one.
    pub cause: Option<String>,
}

/// Calls `ToString::to_string` on an underlying error, which renders it
/// through its `Display` impl. What that text is depends on the error's own
/// impl, so nothing is stated of it.
#[verifier::external_body]
fn cause_text<E: std::error::Error>(cause: &E) -> String {
    cause.to_string()
}

impl PolymarketError {
    /// The display text of an error: `[CODE] message`.
    pub open spec fn display(self) -> Seq<char> {
        "["@ + code_text(self.code) + "] "@ + self.message@
    }

    pub fn new(code: PolymarketErrorCode, message: &str) -> (e: Self)
        ensures
            e.code == code,
            e.message@ == message@,
            e.cause.is_none(),
    {
        PolymarketError { code, message: String::from_str(message), cause: None }
    }

    pub fn with_cause<E: std::error::Error + Send + Sync + 'static>(
        code: PolymarketErrorCode,
        message: &str,
        cause: E,
    ) -> (e: Self)
        ensures
            e.code == code,
            e.message@ == message@,
            e.cause.is_some(),
    {
        PolymarketError { code, message: String::from_str(message), cause: Some(cause_text(&cause)) }
    }

    /// The display text `[CODE] message`.
    pub fn to_string(&self) -> (s: String)
        ensures
            s@ == self.display(),
    {
        let mut s = String::from_str("[");
        s.append(self.code.as_str());
        s.append("] ");
        s.append(self.message.as_str());
        s
    }

    pub fn invalid_market(message: &str) -> (e: Self)
        ensures
            e.code == PolymarketErrorCode::InvalidMarket,
            e.message@ == message@,
            e.cause.is_none(),
    {
        Self::new(PolymarketErrorCode::InvalidMarket, message)
    }

    pub fn invalid_token(message: &str) -> (e: Self)
        ensures
            e.code == PolymarketErrorCode::InvalidToken,
            e.message@ == message@,
            e.cause.is_none(),
    {
        Self::new(PolymarketErrorCode::InvalidToken, message)
    }

    pub fn invalid_order(message: &str) -> (e: Self)
        ensures
            e.code == PolymarketErrorCode::InvalidOrder,
            e.message@ == message@,
            e.cause.is_none(),
    {
        Self::new(PolymarketErrorCode::InvalidOrder, message)
    }

    pub fn api_error(message: &str) -> (e: Self)
        ensures
            e.code == PolymarketErrorCode::ApiError,
            e.message@ == message@,
            e.cause.is_none(),
    {
        Self::new(PolymarketErrorCode::ApiError, message)
    }

    pub fn config_error(message: &str) -> (e: Self)
        ensures
            e.code == PolymarketErrorCode::ConfigError,
            e.message@ == message@,
            e.cause.is_none(),
    {
        Self::new(PolymarketErrorCode::ConfigError, message)
    }

    pub fn network_error(message: &str) -> (e: Self)
        ensures
            e.code == PolymarketErrorCode::NetworkError,
            e.message@ == message@,
            e.cause.is_none(),
    {
        Self::new(PolymarketErrorCode::NetworkError, message)
    }

    pub fn auth_error(message: &str) -> (e: Self)
        ensures
            e.code == PolymarketErrorCode::AuthError,
            e.message@ == message@,
            e.cause.is_none(),
    {
        Self::new(PolymarketErrorCode::AuthError, message)
    }
}

} // verus!
