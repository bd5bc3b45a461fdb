//! The CLOB client: its configuration, the requests it makes and how the
//! answers to them are judged.
//!
//! A `ClobClient` holds what identifies the user to the CLOB API: the API's
//! base URL, the chain, the wallet address derived from the private key and
//! the optional API credentials. The request URLs of every endpoint, the
//! error a failed request turns into, and the pagination of the trade
//! history are decided here; sending the requests is left to the caller.

use vstd::prelude::*;

use crate::constants::{DEFAULT_CLOB_API_URL, END_CURSOR, POLYGON_CHAIN_ID};
use crate::error::PolymarketError;
use crate::eth::{key_address, private_key_address};
use crate::text::{dec, join, prefixed_hex, push_decimal, to_prefixed_hex, views};
use crate::types::{ApiKeyCreds, TradesResponse};

verus! {

// ===========================================================================
// Text helpers
// ===========================================================================

/// `s` without its trailing slashes.
pub open spec fn trim_slashes(s: Seq<char>) -> Seq<char>
    decreases s.len(),
{
    if s.len() > 0 && s.last() == '/' {
        trim_slashes(s.drop_last())
    } else {
        s
    }
}

/// `s` without a leading `0x`.
pub open spec fn strip_hex_prefix(s: Seq<char>) -> Seq<char> {
    if s.len() >= 2 && s[0] == '0' && s[1] == 'x' {
        s.skip(2)
    } else {
        s
    }
}

/// Removes the trailing slashes of `s`.
pub fn trim_trailing_slashes(s: &str) -> (r: &str)
    ensures
        r@ == trim_slashes(s@),
{
    let n = s.unicode_len();
    let mut k = n;
    assert(s@.take(n as int) =~= s@);
    while k > 0 && s.get_char(k - 1) == '/'
        invariant
            k <= n,
            n == s@.len(),
            trim_slashes(s@) == trim_slashes(s@.take(k as int)),
        decreases k,
    {
        assert(s@.take(k as int).drop_last() =~= s@.take(k - 1));
        k = k - 1;
    }
    assert(s@.subrange(0, k as int) =~= s@.take(k as int));
    proof {
        if k > 0 {
            assert(s@.take(k as int).last() == s@[k - 1]);
        }
    }
    s.substring_char(0, k)
}

/// Removes a leading `0x` from `s`.
pub fn strip_0x(s: &str) -> (r: &str)
    ensures
        r@ == strip_hex_prefix(s@),
{
    let n = s.unicode_len();
    if n >= 2 && s.get_char(0) == '0' && s.get_char(1) == 'x' {
        assert(s@.subrange(2, n as int) =~= s@.skip(2));
        s.substring_char(2, n)
    } else {
        s
    }
}

/// The signed decimal rendering of `v`.
pub open spec fn sdec(v: int) -> Seq<char> {
    if v < 0 {
        "-"@ + dec((-v) as nat)
    } else {
        dec(v as nat)
    }
}

/// Appends the signed decimal rendering of `v` to `s`.
pub fn push_signed(s: &mut String, v: i64)
    ensures
        final(s)@ == old(s)@ + sdec(v as int),
{
    if v < 0 {
        s.append("-");
        let m = (-(v as i128)) as u64;
        push_decimal(s, m);
    } else {
        push_decimal(s, v as u64);
    }
}

// ===========================================================================
// The client
// ===========================================================================

/// The configuration of a client of the Polymarket CLOB API.
#[derive(Debug, Clone)]
pub struct ClobClient {
    base_url: String,
    chain_id: u64,
    address: [u8; 20],
    creds: Option<ApiKeyCreds>,
}

/// What creating a client from a private key fails with: a configuration
/// error that carries the key parser's message.
pub open spec fn invalid_key_error(e: PolymarketError, parser_error: Seq<char>) -> bool {
    &&& e.code == crate::error::PolymarketErrorCode::ConfigError
    &&& e.message@ == "Invalid private key: "@ + parser_error
    &&& e.cause is None
}

impl ClobClient {
    /// The base URL of the API, without a trailing slash.
    pub closed spec fn base(&self) -> Seq<char> {
        self.base_url@
    }

    /// The wallet address of the user.
    pub closed spec fn wallet(&self) -> Seq<u8> {
        self.address@
    }

    /// The chain the client works on.
    pub closed spec fn chain(&self) -> u64 {
        self.chain_id
    }

    /// Whether the client holds API credentials.
    pub closed spec fn authenticated(&self) -> bool {
        self.creds is Some
    }

    /// Creates a client for the API at `base_url` (the public CLOB API when
    /// none is given) for the wallet of `private_key`, a hex-encoded key
    /// with or without `0x`. Fails with a configuration error when the key
    /// does not parse.
    pub fn new(base_url: Option<&str>, private_key: &str) -> (r: Result<ClobClient, PolymarketError>)
        ensures
            r is Ok <==> key_address(strip_hex_prefix(private_key@)) is Ok,
            r matches Ok(c) ==> {
                &&& c.base() == trim_slashes(
                    match base_url {
                        Some(u) => u@,
                        None => DEFAULT_CLOB_API_URL@,
                    },
                )
                &&& key_address(strip_hex_prefix(private_key@)) == Ok::<Seq<u8>, Seq<char>>(c.wallet())
                &&& c.chain() == POLYGON_CHAIN_ID
                &&& !c.authenticated()
            },
            r matches Err(e) ==> key_address(strip_hex_prefix(private_key@)) matches Err(pe)
                && invalid_key_error(e, pe),
    {
        let url = match base_url {
            Some(u) => u,
            None => DEFAULT_CLOB_API_URL,
        };
        let base_url = String::from_str(trim_trailing_slashes(url));
        let key = strip_0x(private_key);
        match private_key_address(key) {
            Ok(address) => Ok(ClobClient { base_url, chain_id: POLYGON_CHAIN_ID, address, creds: None }),
            Err(e) => {
                let mut message = String::from_str("Invalid private key: ");
                message.append(e.as_str());
                Err(PolymarketError::config_error(message.as_str()))
            },
        }
    }

    /// Creates a client as `new` does, holding the API credentials `creds`.
    pub fn new_with_creds(base_url: Option<&str>, private_key: &str, creds: ApiKeyCreds) -> (r: Result<
        ClobClient,
        PolymarketError,
    >)
        ensures
            r is Ok <==> key_address(strip_hex_prefix(private_key@)) is Ok,
            r matches Ok(c) ==> {
                &&& c.base() == trim_slashes(
                    match base_url {
                        Some(u) => u@,
                        None => DEFAULT_CLOB_API_URL@,
                    },
                )
                &&& key_address(strip_hex_prefix(private_key@)) == Ok::<Seq<u8>, Seq<char>>(c.wallet())
                &&& c.chain() == POLYGON_CHAIN_ID
                &&& c.authenticated()
            },
            r matches Err(e) ==> key_address(strip_hex_prefix(private_key@)) matches Err(pe)
                && invalid_key_error(e, pe),
    {
        let mut client = Self::new(base_url, private_key)?;
        client.creds = Some(creds);
        Ok(client)
    }

    /// The wallet address of the user.
    pub fn address(&self) -> (a: [u8; 20])
        ensures
            a@ == self.wallet(),
    {
        self.address
    }

    /// The wallet address as `0x` followed by lowercase hexadecimal digits.
    pub fn address_hex(&self) -> (s: String)
        ensures
            s@ == prefixed_hex(self.wallet()),
    {
        to_prefixed_hex(&self.address)
    }

    pub fn chain_id(&self) -> (c: u64)
        ensures
            c == self.chain(),
    {
        self.chain_id
    }

    /// Whether the client holds API credentials.
    pub fn has_credentials(&self) -> (b: bool)
        ensures
            b == self.authenticated(),
    {
        self.creds.is_some()
    }

    /// The base URL of the API.
    pub fn base_url(&self) -> (s: &str)
        ensures
            s@ == self.base(),
    {
        self.base_url.as_str()
    }

    fn url(&self, path: &str) -> (s: String)
        ensures
            s@ == self.base() + path@,
    {
        let mut s = self.base_url.clone();
        s.append(path);
        s
    }

    // -----------------------------------------------------------------------
    // Market requests
    // -----------------------------------------------------------------------

    /// The URL listing markets, from `next_cursor` on.
    pub fn markets_url(&self, next_cursor: Option<&str>) -> (s: String)
        ensures
            s@ == with_cursor(self.base() + "/markets"@, opt_str(next_cursor)),
    {
        let mut s = self.url("/markets");
        append_cursor(&mut s, next_cursor);
        s
    }

    /// The URL listing simplified markets, from `next_cursor` on.
    pub fn simplified_markets_url(&self, next_cursor: Option<&str>) -> (s: String)
        ensures
            s@ == with_cursor(self.base() + "/simplified-markets"@, opt_str(next_cursor)),
    {
        let mut s = self.url("/simplified-markets");
        append_cursor(&mut s, next_cursor);
        s
    }

    /// The URL listing markets with rewards enabled, from `next_cursor` on.
    pub fn sampling_markets_url(&self, next_cursor: Option<&str>) -> (s: String)
        ensures
            s@ == with_cursor(self.base() + "/sampling-markets"@, opt_str(next_cursor)),
    {
        let mut s = self.url("/sampling-markets");
        append_cursor(&mut s, next_cursor);
        s
    }

    /// The URL of one market.
    pub fn market_url(&self, condition_id: &str) -> (s: String)
        ensures
            s@ == self.base() + "/markets/"@ + condition_id@,
    {
        let mut s = self.url("/markets/");
        s.append(condition_id);
        s
    }

    // -----------------------------------------------------------------------
    // Order book requests
    // -----------------------------------------------------------------------

    /// The URL of a token's order book.
    pub fn order_book_url(&self, token_id: &str) -> (s: String)
        ensures
            s@ == self.base() + "/book?token_id="@ + token_id@,
    {
        let mut s = self.url("/book?token_id=");
        s.append(token_id);
        s
    }

    /// The URL of a token's midpoint price.
    pub fn midpoint_url(&self, token_id: &str) -> (s: String)
        ensures
            s@ == self.base() + "/midpoint?token_id="@ + token_id@,
    {
        let mut s = self.url("/midpoint?token_id=");
        s.append(token_id);
        s
    }

    /// The URL of a token's bid-ask spread.
    pub fn spread_url(&self, token_id: &str) -> (s: String)
        ensures
            s@ == self.base() + "/spread?token_id="@ + token_id@,
    {
        let mut s = self.url("/spread?token_id=");
        s.append(token_id);
        s
    }

    // -----------------------------------------------------------------------
    // Balance requests
    // -----------------------------------------------------------------------

    /// The URL of the user's collateral (USDC) balance.
    pub fn collateral_balance_url(&self) -> (s: String)
        ensures
            s@ == self.base() + "/balance?asset_type=COLLATERAL&address="@ + prefixed_hex(self.wallet()),
    {
        let mut s = self.url("/balance?asset_type=COLLATERAL&address=");
        let a = self.address_hex();
        s.append(a.as_str());
        s
    }

    /// The URL of the user's balance of a conditional token.
    pub fn conditional_balance_url(&self, token_id: &str) -> (s: String)
        ensures
            s@ == self.base() + "/balance?asset_type=CONDITIONAL&token_id="@ + token_id@ + "&address="@
                + prefixed_hex(self.wallet()),
    {
        let mut s = self.url("/balance?asset_type=CONDITIONAL&token_id=");
        s.append(token_id);
        s.append("&address=");
        let a = self.address_hex();
        s.append(a.as_str());
        s
    }

    // -----------------------------------------------------------------------
    // Trade requests
    // -----------------------------------------------------------------------

    /// The URL of the first page of the user's trade history.
    pub fn trades_url(&self, market_id: Option<&str>, asset_ids: Option<&[String]>, limit: Option<u32>) -> (s:
        String)
        ensures
            s@ == self.base() + "/trades?maker_address="@ + prefixed_hex(self.wallet()) + (match market_id {
                Some(m) => "&market="@ + m@,
                None => seq![],
            }) + (match asset_ids {
                Some(ids) => asset_params(views(ids@)),
                None => seq![],
            }) + (match limit {
                Some(l) => "&limit="@ + dec(l as nat),
                None => seq![],
            }),
    {
        let mut s = self.url("/trades?maker_address=");
        let a = self.address_hex();
        s.append(a.as_str());
        let ghost head = s@;
        if let Some(m) = market_id {
            s.append("&market=");
            s.append(m);
        }
        let ghost with_market = s@;
        if let Some(ids) = asset_ids {
            let n = ids.len();
            let mut i: usize = 0;
            while i < n
                invariant
                    n == ids@.len(),
                    i <= n,
                    s@ == with_market + asset_params(views(ids@).take(i as int)),
                decreases n - i,
            {
                assert(views(ids@).take(i + 1).drop_last() =~= views(ids@).take(i as int));
                s.append("&asset_id=");
                s.append(ids[i].as_str());
                i = i + 1;
            }
            assert(views(ids@).take(n as int) =~= views(ids@));
        } else {
            assert(s@ =~= with_market + seq![]);
        }
        let ghost with_assets = s@;
        if let Some(l) = limit {
            s.append("&limit=");
            push_decimal(&mut s, l as u64);
        } else {
            assert(s@ =~= with_assets + seq![]);
        }
        proof {
            if market_id is None {
                assert(with_market =~= head + seq![]);
            }
        }
        s
    }

    // -----------------------------------------------------------------------
    // Price history requests
    // -----------------------------------------------------------------------

    /// The URL of a token's price history.
    pub fn price_history_url(
        &self,
        token_id: &str,
        start_ts: Option<i64>,
        end_ts: Option<i64>,
        fidelity: Option<u32>,
    ) -> (s: String)
        ensures
            s@ == self.base() + "/prices-history?market="@ + token_id@ + (match start_ts {
                Some(t) => "&startTs="@ + sdec(t as int),
                None => seq![],
            }) + (match end_ts {
                Some(t) => "&endTs="@ + sdec(t as int),
                None => seq![],
            }) + (match fidelity {
                Some(f) => "&fidelity="@ + dec(f as nat),
                None => seq![],
            }),
    {
        let mut s = self.url("/prices-history?market=");
        s.append(token_id);
        let ghost a = s@;
        if let Some(t) = start_ts {
            s.append("&startTs=");
            push_signed(&mut s, t);
        } else {
            assert(s@ =~= a + seq![]);
        }
        let ghost b = s@;
        if let Some(t) = end_ts {
            s.append("&endTs=");
            push_signed(&mut s, t);
        } else {
            assert(s@ =~= b + seq![]);
        }
        let ghost c = s@;
        if let Some(f) = fidelity {
            s.append("&fidelity=");
            push_decimal(&mut s, f as u64);
        } else {
            assert(s@ =~= c + seq![]);
        }
        s
    }

    // -----------------------------------------------------------------------
    // Order requests
    // -----------------------------------------------------------------------

    /// The URL of one order; also the URL that cancels it.
    pub fn order_url(&self, order_id: &str) -> (s: String)
        ensures
            s@ == self.base() + "/order/"@ + order_id@,
    {
        let mut s = self.url("/order/");
        s.append(order_id);
        s
    }

    /// The URL listing the user's open orders.
    pub fn orders_url(&self, market_id: Option<&str>, asset_id: Option<&str>) -> (s: String)
        ensures
            s@ == self.base() + "/orders?maker_address="@ + prefixed_hex(self.wallet()) + (match market_id {
                Some(m) => "&market="@ + m@,
                None => seq![],
            }) + (match asset_id {
                Some(a) => "&asset_id="@ + a@,
                None => seq![],
            }),
    {
        let mut s = self.url("/orders?maker_address=");
        let a = self.address_hex();
        s.append(a.as_str());
        let ghost head = s@;
        if let Some(m) = market_id {
            s.append("&market=");
            s.append(m);
        } else {
            assert(s@ =~= head + seq![]);
        }
        let ghost mid = s@;
        if let Some(x) = asset_id {
            s.append("&asset_id=");
            s.append(x);
        } else {
            assert(s@ =~= mid + seq![]);
        }
        s
    }

    /// The URL that checks whether orders are scoring.
    pub fn order_scoring_url(&self, order_ids: &Vec<String>) -> (s: String)
        ensures
            s@ == self.base() + "/order-scoring?order_ids="@ + join(views(order_ids@), ","@),
    {
        let mut s = self.url("/order-scoring?order_ids=");
        let ids = crate::text::join_strings(order_ids, ",");
        s.append(ids.as_str());
        s
    }

    /// The URL that posts a signed order.
    pub fn post_order_url(&self) -> (s: String)
        ensures
            s@ == self.base() + "/order"@,
    {
        self.url("/order")
    }

    // -----------------------------------------------------------------------
    // API key requests
    // -----------------------------------------------------------------------

    /// The URL listing the user's API keys.
    pub fn api_keys_url(&self) -> (s: String)
        ensures
            s@ == self.base() + "/api-keys?address="@ + prefixed_hex(self.wallet()),
    {
        let mut s = self.url("/api-keys?address=");
        let a = self.address_hex();
        s.append(a.as_str());
        s
    }

    /// The URL that revokes an API key.
    pub fn api_key_url(&self, key_id: &str) -> (s: String)
        ensures
            s@ == self.base() + "/api-keys/"@ + key_id@,
    {
        let mut s = self.url("/api-keys/");
        s.append(key_id);
        s
    }
}

/// The view of an optional string slice.
pub open spec fn opt_str(o: Option<&str>) -> Option<Seq<char>> {
    match o {
        Some(s) => Some(s@),
        None => None,
    }
}

/// `url` continued from `cursor`, when there is one.
pub open spec fn with_cursor(url: Seq<char>, cursor: Option<Seq<char>>) -> Seq<char> {
    match cursor {
        Some(c) => url + "?next_cursor="@ + c,
        None => url,
    }
}

fn append_cursor(s: &mut String, cursor: Option<&str>)
    ensures
        final(s)@ == with_cursor(old(s)@, opt_str(cursor)),
{
    if let Some(c) = cursor {
        s.append("?next_cursor=");
        s.append(c);
    }
}

/// The query parameters that select the assets `ids`.
pub open spec fn asset_params(ids: Seq<Seq<char>>) -> Seq<char>
    decreases ids.len(),
{
    if ids.len() == 0 {
        seq![]
    } else {
        asset_params(ids.drop_last()) + "&asset_id="@ + ids.last()
    }
}

// ===========================================================================
// Judging answers
// ===========================================================================

/// The error for an answer with an unsuccessful HTTP status.
pub fn status_error(status: &str) -> (e: PolymarketError)
    ensures
        e.code == crate::error::PolymarketErrorCode::ApiError,
        e.message@ == "API returned error: "@ + status@,
        e.cause is None,
{
    let mut m = String::from_str("API returned error: ");
    m.append(status);
    PolymarketError::api_error(m.as_str())
}

/// The error for an unsuccessful answer to a market request: an unknown
/// market (404) or an API error.
pub fn market_status_error(status_code: u16, status: &str, condition_id: &str) -> (e: PolymarketError)
    ensures
        status_code == 404 ==> e.code == crate::error::PolymarketErrorCode::InvalidMarket && e.message@
            == "Market not found: "@ + condition_id@,
        status_code != 404 ==> e.code == crate::error::PolymarketErrorCode::ApiError && e.message@
            == "API returned error: "@ + status@,
        e.cause is None,
{
    if status_code == 404 {
        let mut m = String::from_str("Market not found: ");
        m.append(condition_id);
        PolymarketError::invalid_market(m.as_str())
    } else {
        status_error(status)
    }
}

/// The error for an unsuccessful answer to an order request: an unknown
/// order (404) or an API error.
pub fn order_status_error(status_code: u16, status: &str, order_id: &str) -> (e: PolymarketError)
    ensures
        status_code == 404 ==> e.code == crate::error::PolymarketErrorCode::InvalidOrder && e.message@
            == "Order not found: "@ + order_id@,
        status_code != 404 ==> e.code == crate::error::PolymarketErrorCode::ApiError && e.message@
            == "API returned error: "@ + status@,
        e.cause is None,
{
    if status_code == 404 {
        let mut m = String::from_str("Order not found: ");
        m.append(order_id);
        PolymarketError::invalid_order(m.as_str())
    } else {
        status_error(status)
    }
}

/// The error for a rejected order submission, with the API's answer.
pub fn post_order_error(status: &str, body: &str) -> (e: PolymarketError)
    ensures
        e.code == crate::error::PolymarketErrorCode::ApiError,
        e.message@ == "Failed to post order ("@ + status@ + "): "@ + body@,
        e.cause is None,
{
    let mut m = String::from_str("Failed to post order (");
    m.append(status);
    m.append("): ");
    m.append(body);
    PolymarketError::api_error(m.as_str())
}

// ===========================================================================
// Trade history pagination
// ===========================================================================

/// Whether the cursor `c` marks more pages.
pub open spec fn cursor_continues(c: Seq<char>) -> bool {
    c.len() != 0 && c != END_CURSOR@
}

/// Gathers the pages of the user's trade history: after the first page,
/// further pages are fetched while fewer than the page limit have been
/// fetched, the last page's cursor marks more, and no page was refused.
pub struct TradesPager {
    url: String,
    max_pages: u32,
    pages: u32,
    stopped: bool,
    trades: TradesResponse,
}

impl TradesPager {
    /// The trades gathered so far.
    pub closed spec fn gathered(&self) -> Seq<crate::types::TradeEntry> {
        self.trades.data@
    }

    /// The cursor of the last page.
    pub closed spec fn cursor(&self) -> Seq<char> {
        self.trades.next_cursor@
    }

    /// The number of pages gathered.
    pub closed spec fn page_count(&self) -> u32 {
        self.pages
    }

    /// The most pages to gather.
    pub closed spec fn page_limit(&self) -> u32 {
        self.max_pages
    }

    /// The URL of the first page, which later pages continue.
    pub closed spec fn first_url(&self) -> Seq<char> {
        self.url@
    }

    /// Whether a page was refused.
    pub closed spec fn is_stopped(&self) -> bool {
        self.stopped
    }

    /// Whether another page is to be fetched.
    pub open spec fn wants_more(&self) -> bool {
        !self.is_stopped() && self.page_count() < self.page_limit() && cursor_continues(self.cursor())
    }

    /// Starts gathering from the first page, fetched from `url`; at most
    /// `max_pages` pages (one when not given) are gathered.
    pub fn new(url: String, max_pages: Option<u32>, first: TradesResponse) -> (p: Self)
        ensures
            p.gathered() == first.data@,
            p.cursor() == first.next_cursor@,
            p.page_count() == 1,
            p.page_limit() == match max_pages {
                Some(m) => m,
                None => 1,
            },
            p.first_url() == url@,
            !p.is_stopped(),
    {
        let max_pages = match max_pages {
            Some(m) => m,
            None => 1,
        };
        TradesPager { url, max_pages, pages: 1, stopped: false, trades: first }
    }

    /// The URL of the next page, when another page is to be fetched.
    pub fn next_url(&self) -> (r: Option<String>)
        ensures
            r is Some <==> self.wants_more(),
            r matches Some(u) ==> u@ == self.first_url() + "&next_cursor="@ + self.cursor(),
    {
        let c = self.trades.next_cursor.as_str();
        if !self.stopped && self.pages < self.max_pages && !c.is_empty() && !crate::text::str_eq(
            c,
            END_CURSOR,
        ) {
            let mut u = self.url.clone();
            u.append("&next_cursor=");
            u.append(c);
            Some(u)
        } else {
            None
        }
    }

    /// Takes in the answer for the next page: the page, or nothing when it
    /// was refused, which ends the gathering.
    pub fn receive(&mut self, page: Option<TradesResponse>)
        requires
            old(self).wants_more(),
        ensures
            final(self).first_url() == old(self).first_url(),
            final(self).page_limit() == old(self).page_limit(),
            match page {
                Some(p) => {
                    &&& final(self).gathered() == old(self).gathered() + p.data@
                    &&& final(self).cursor() == p.next_cursor@
                    &&& final(self).page_count() == old(self).page_count() + 1
                    &&& !final(self).is_stopped()
                },
                None => {
                    &&& final(self).gathered() == old(self).gathered()
                    &&& final(self).cursor() == old(self).cursor()
                    &&& final(self).page_count() == old(self).page_count()
                    &&& final(self).is_stopped()
                },
            },
    {
        match page {
            Some(mut p) => {
                self.trades.data.append(&mut p.data);
                self.trades.next_cursor = p.next_cursor;
                self.pages = self.pages + 1;
            },
            None => {
                self.stopped = true;
            },
        }
    }

    /// The gathered trades, with the cursor of the last page.
    pub fn finish(self) -> (t: TradesResponse)
        ensures
            t.data@ == self.gathered(),
            t.next_cursor@ == self.cursor(),
    {
        self.trades
    }
}

/// Pages are never gathered beyond the page limit: a pager that started
/// below its limit stays at or below it, however the answers come.
pub proof fn law_pager_respects_page_limit(before: TradesPager, after: TradesPager, page_arrived: bool)
    requires
        before.page_count() <= before.page_limit(),
        before.wants_more(),
        after.page_limit() == before.page_limit(),
        page_arrived ==> after.page_count() == before.page_count() + 1,
        !page_arrived ==> after.page_count() == before.page_count(),
    ensures
        after.page_count() <= after.page_limit(),
{
}

} // verus!
