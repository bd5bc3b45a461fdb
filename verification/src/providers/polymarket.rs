//! The Polymarket context provider: where the client is connected and
//! which features are available.

use vstd::prelude::*;

use super::ProviderContext;
use crate::constants::{DEFAULT_CLOB_API_URL, POLYGON_CHAIN_ID};
use crate::text::{dec, join, join_strings, push_decimal, views};

verus! {

/// The Polymarket context provider.
#[derive(Debug, Clone, Copy)]
pub struct PolymarketProvider;

/// What the provider reports: its text and the values it is made of.
#[derive(Debug, Clone)]
pub struct ProviderReport {
    /// Human-readable text.
    pub text: String,
    /// The CLOB API URL in use.
    pub clob_api_url: String,
    /// The chain in use.
    pub chain_id: u64,
    /// Whether a private key is configured.
    pub has_private_key: bool,
    /// Whether API credentials are configured.
    pub has_api_creds: bool,
    /// The features available.
    pub features_available: Vec<String>,
}

/// The CLOB API URL a context points to: its own, else the public one.
pub open spec fn context_url(context: ProviderContext) -> Seq<char> {
    match context.clob_api_url {
        Some(u) => u@,
        None => DEFAULT_CLOB_API_URL@,
    }
}

/// The features available: market data, price feeds and the order book
/// always, wallet operations with a private key, authenticated requests
/// with API credentials.
pub open spec fn features(context: ProviderContext) -> Seq<Seq<char>> {
    seq!["market_data"@, "price_feeds"@, "order_book"@] + if context.has_private_key {
        seq!["wallet_operations"@]
    } else {
        Seq::<Seq<char>>::empty()
    } + if context.has_api_creds {
        seq!["authenticated_requests"@]
    } else {
        Seq::<Seq<char>>::empty()
    }
}

/// Market data, price feeds and the order book are always available;
/// wallet operations exactly when a private key is configured, and
/// authenticated requests exactly when API credentials are.
pub proof fn law_features_follow_settings(context: ProviderContext)
    ensures
        features(context).contains("market_data"@),
        features(context).contains("price_feeds"@),
        features(context).contains("order_book"@),
        features(context).contains("wallet_operations"@) <==> context.has_private_key,
        features(context).contains("authenticated_requests"@) <==> context.has_api_creds,
{
    reveal_strlit("market_data");
    reveal_strlit("price_feeds");
    reveal_strlit("order_book");
    reveal_strlit("wallet_operations");
    reveal_strlit("authenticated_requests");
    let f = features(context);
    assert(f[0] == "market_data"@);
    assert(f[1] == "price_feeds"@);
    assert(f[2] == "order_book"@);
    if context.has_private_key {
        assert(f[3] == "wallet_operations"@);
    }
    if context.has_api_creds {
        assert(f[f.len() - 1] == "authenticated_requests"@);
    }
    assert forall|i: int| 0 <= i < f.len() && f[i] == "wallet_operations"@ implies context.has_private_key by {
        if !context.has_private_key {
            assert(f[i].len() != "wallet_operations"@.len() || f[i] != "wallet_operations"@);
        }
    }
    assert forall|i: int| 0 <= i < f.len() && f[i] == "authenticated_requests"@ implies context.has_api_creds by {
        if !context.has_api_creds {
            assert(f[i].len() != "authenticated_requests"@.len() || f[i] != "authenticated_requests"@);
        }
    }
}

/// The text of the provider.
pub open spec fn provider_text(context: ProviderContext) -> Seq<char> {
    "Connected to Polymarket CLOB at "@ + context_url(context) + " on Polygon (Chain ID: "@ + dec(
        POLYGON_CHAIN_ID as nat,
    ) + "). Features available: "@ + join(features(context), ", "@) + "."@
}

impl PolymarketProvider {
    /// The provider's name.
    pub fn name(&self) -> (s: &'static str)
        ensures
            s@ == "POLYMARKET_PROVIDER"@,
    {
        "POLYMARKET_PROVIDER"
    }

    /// The provider's description.
    pub fn description(&self) -> (s: &'static str)
        ensures
            s@ == "Provides current Polymarket market information and context"@,
    {
        "Provides current Polymarket market information and context"
    }

    /// What the provider reports in `context`.
    pub fn get(&self, context: &ProviderContext) -> (r: ProviderReport)
        ensures
            r.text@ == provider_text(*context),
            r.clob_api_url@ == context_url(*context),
            r.chain_id == POLYGON_CHAIN_ID,
            r.has_private_key == context.has_private_key,
            r.has_api_creds == context.has_api_creds,
            views(r.features_available@) == features(*context),
    {
        let url = match &context.clob_api_url {
            Some(u) => u.clone(),
            None => String::from_str(DEFAULT_CLOB_API_URL),
        };
        let mut feats: Vec<String> = Vec::new();
        feats.push(String::from_str("market_data"));
        feats.push(String::from_str("price_feeds"));
        feats.push(String::from_str("order_book"));
        if context.has_private_key {
            feats.push(String::from_str("wallet_operations"));
        }
        if context.has_api_creds {
            feats.push(String::from_str("authenticated_requests"));
        }
        assert(views(feats@) =~= features(*context));
        let mut text = String::from_str("Connected to Polymarket CLOB at ");
        text.append(url.as_str());
        text.append(" on Polygon (Chain ID: ");
        push_decimal(&mut text, POLYGON_CHAIN_ID);
        text.append("). Features available: ");
        let joined = join_strings(&feats, ", ");
        text.append(joined.as_str());
        text.append(".");
        ProviderReport {
            text,
            clob_api_url: url,
            chain_id: POLYGON_CHAIN_ID,
            has_private_key: context.has_private_key,
            has_api_creds: context.has_api_creds,
            features_available: feats,
        }
    }
}

} // verus!
