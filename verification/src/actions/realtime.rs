//! Real-time updates: validating WebSocket subscriptions.

use vstd::prelude::*;

use crate::client::ClobClient;
use crate::error::{PolymarketError, PolymarketErrorCode};
use crate::text::{join, join_strings, str_eq, views};

verus! {

/// WebSocket subscription status.
#[derive(Debug, Clone, Copy, PartialEq, Eq, Structural)]
pub enum SubscriptionStatus {
    Disconnected,
    Connecting,
    Connected,
    Error,
}

/// WebSocket configuration.
#[derive(Debug, Clone)]
pub struct WebsocketConfig {
    /// WebSocket URL.
    pub url: String,
    /// Channels to subscribe to.
    pub channels: Vec<String>,
    /// Asset IDs to subscribe to.
    pub asset_ids: Vec<String>,
    /// Whether authentication is required.
    pub authenticated: bool,
    /// Connection status.
    pub status: SubscriptionStatus,
}

/// The channels one can subscribe to.
pub open spec fn valid_channel(c: Seq<char>) -> bool {
    c == "book"@ || c == "price"@ || c == "trade"@ || c == "ticker"@ || c == "user"@
}

/// Whether every channel of `cs` is valid.
pub open spec fn all_valid(cs: Seq<Seq<char>>) -> bool {
    forall|i: int| 0 <= i < cs.len() ==> valid_channel(#[trigger] cs[i])
}

/// Whether `i` is the position of the first channel of `cs` that is not valid.
pub open spec fn is_first_invalid(cs: Seq<Seq<char>>, i: int) -> bool {
    &&& 0 <= i < cs.len()
    &&& !valid_channel(cs[i])
    &&& forall|j: int| 0 <= j < i ==> valid_channel(#[trigger] cs[j])
}

/// The position of the first channel of `cs` that is not valid.
pub open spec fn first_invalid(cs: Seq<Seq<char>>) -> int {
    choose|i: int| is_first_invalid(cs, i)
}

proof fn lemma_first_invalid(cs: Seq<Seq<char>>, i: int)
    requires
        is_first_invalid(cs, i),
    ensures
        first_invalid(cs) == i,
{
    let k = first_invalid(cs);
    assert(is_first_invalid(cs, k));
    if k < i {
        assert(valid_channel(cs[k]));
    } else if k > i {
        assert(valid_channel(cs[i]));
    }
}

/// The error message of a WebSocket setup, if the setup is refused: no
/// URL, no channel, or the first channel that is not valid.
pub open spec fn setup_error(url: Seq<char>, cs: Seq<Seq<char>>) -> Option<Seq<char>> {
    if url.len() == 0 {
        Some("WebSocket URL is required"@)
    } else if cs.len() == 0 {
        Some("At least one channel must be specified"@)
    } else if !all_valid(cs) {
        Some(
            "Invalid channel: "@ + cs[first_invalid(cs)]
                + ". Valid channels are: book, price, trade, ticker, user"@,
        )
    } else {
        None
    }
}

fn is_valid_channel(c: &str) -> (b: bool)
    ensures
        b == valid_channel(c@),
{
    str_eq(c, "book") || str_eq(c, "price") || str_eq(c, "trade") || str_eq(c, "ticker") || str_eq(
        c,
        "user",
    )
}

fn copy_strings(v: &[String]) -> (r: Vec<String>)
    ensures
        views(r@) == views(v@),
{
    let mut r: Vec<String> = Vec::new();
    let n = v.len();
    let mut i: usize = 0;
    while i < n
        invariant
            n == v@.len(),
            i <= n,
            r@.len() == i,
            forall|j: int| 0 <= j < i ==> #[trigger] r@[j]@ == v@[j]@,
        decreases n - i,
    {
        r.push(v[i].clone());
        i = i + 1;
    }
    assert(views(r@) =~= views(v@));
    r
}

/// Sets up a WebSocket configuration for real-time updates, refusing a
/// missing URL, a missing channel or an unknown channel.
pub fn setup_websocket(
    _client: &ClobClient,
    ws_url: &str,
    channels: &[String],
    asset_ids: &[String],
    authenticated: bool,
) -> (r: Result<WebsocketConfig, PolymarketError>)
    ensures
        r is Err <==> setup_error(ws_url@, views(channels@)) is Some,
        r matches Err(e) ==> e.code == PolymarketErrorCode::ConfigError && Some(e.message@) == setup_error(
            ws_url@,
            views(channels@),
        ),
        r matches Ok(c) ==> {
            &&& c.url@ == ws_url@
            &&& views(c.channels@) == views(channels@)
            &&& views(c.asset_ids@) == views(asset_ids@)
            &&& c.authenticated == authenticated
            &&& c.status == SubscriptionStatus::Disconnected
        },
{
    if ws_url.is_empty() {
        return Err(PolymarketError::config_error("WebSocket URL is required"));
    }
    if channels.len() == 0 {
        return Err(PolymarketError::config_error("At least one channel must be specified"));
    }
    let ghost cs = views(channels@);
    let n = channels.len();
    let mut i: usize = 0;
    while i < n
        invariant
            n == channels@.len(),
            cs == views(channels@),
            ws_url@.len() > 0,
            n > 0,
            i <= n,
            forall|j: int| 0 <= j < i ==> valid_channel(#[trigger] cs[j]),
        decreases n - i,
    {
        if !is_valid_channel(channels[i].as_str()) {
            let mut m = String::from_str("Invalid channel: ");
            m.append(channels[i].as_str());
            m.append(". Valid channels are: book, price, trade, ticker, user");
            proof {
                assert(is_first_invalid(cs, i as int));
                lemma_first_invalid(cs, i as int);
                assert(channels@[i as int]@ == cs[i as int]);
                assert(!all_valid(cs));
            }
            return Err(PolymarketError::config_error(m.as_str()));
        }
        i = i + 1;
    }
    Ok(
        WebsocketConfig {
            url: String::from_str(ws_url),
            channels: copy_strings(channels),
            asset_ids: copy_strings(asset_ids),
            authenticated,
            status: SubscriptionStatus::Disconnected,
        },
    )
}

/// The views of an optional slice of strings.
pub open spec fn opt_views(o: Option<&[String]>) -> Option<Seq<Seq<char>>> {
    match o {
        Some(v) => Some(views(v@)),
        None => None,
    }
}

/// What a real-time update request answers: a message, or the message of
/// the configuration error it is refused with.
pub open spec fn realtime_outcome(
    action: Seq<char>,
    channel: Option<Seq<char>>,
    asset_ids: Option<Seq<Seq<char>>>,
) -> Result<Seq<char>, Seq<char>> {
    if action == "subscribe"@ {
        match channel {
            None => Err("Channel is required for subscription"@),
            Some(c) => match asset_ids {
                None => Err("Asset IDs are required for subscription"@),
                Some(ids) => if ids.len() == 0 {
                    Err("At least one asset ID is required for subscription"@)
                } else {
                    Ok("Subscribed to "@ + c + " channel for assets: "@ + join(ids, ", "@))
                },
            },
        }
    } else if action == "unsubscribe"@ {
        match channel {
            None => Err("Channel is required for unsubscription"@),
            Some(c) => Ok("Unsubscribed from "@ + c + " channel"@),
        }
    } else if action == "status"@ {
        Ok("WebSocket status: Use PolymarketService for actual connection management"@)
    } else {
        Err("Invalid action: "@ + action + ". Valid actions are: subscribe, unsubscribe, status"@)
    }
}

/// Handles a real-time update request: `subscribe` to a channel for some
/// assets, `unsubscribe` from a channel, or ask for the `status`.
pub fn handle_realtime_updates(
    _client: &ClobClient,
    action: &str,
    channel: Option<&str>,
    asset_ids: Option<&[String]>,
) -> (r: Result<String, PolymarketError>)
    ensures
        match r {
            Ok(s) => realtime_outcome(action@, crate::client::opt_str(channel), opt_views(asset_ids)) == Ok::<
                Seq<char>,
                Seq<char>,
            >(s@),
            Err(e) => e.code == PolymarketErrorCode::ConfigError && realtime_outcome(
                action@,
                crate::client::opt_str(channel),
                opt_views(asset_ids),
            ) == Err::<Seq<char>, Seq<char>>(e.message@),
        },
{
    if str_eq(action, "subscribe") {
        let c = match channel {
            Some(c) => c,
            None => {
                return Err(PolymarketError::config_error("Channel is required for subscription"));
            },
        };
        let ids = match asset_ids {
            Some(ids) => ids,
            None => {
                return Err(PolymarketError::config_error("Asset IDs are required for subscription"));
            },
        };
        if ids.len() == 0 {
            return Err(
                PolymarketError::config_error("At least one asset ID is required for subscription"),
            );
        }
        let joined = join_strings(&copy_strings(ids), ", ");
        let mut s = String::from_str("Subscribed to ");
        s.append(c);
        s.append(" channel for assets: ");
        s.append(joined.as_str());
        Ok(s)
    } else if str_eq(action, "unsubscribe") {
        let c = match channel {
            Some(c) => c,
            None => {
                return Err(PolymarketError::config_error("Channel is required for unsubscription"));
            },
        };
        let mut s = String::from_str("Unsubscribed from ");
        s.append(c);
        s.append(" channel");
        Ok(s)
    } else if str_eq(action, "status") {
        Ok(String::from_str("WebSocket status: Use PolymarketService for actual connection management"))
    } else {
        let mut m = String::from_str("Invalid action: ");
        m.append(action);
        m.append(". Valid actions are: subscribe, unsubscribe, status");
        Err(PolymarketError::config_error(m.as_str()))
    }
}

} // verus!
