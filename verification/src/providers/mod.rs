//! Providers: the context data an agent is given about Polymarket.

pub mod polymarket;

pub use polymarket::PolymarketProvider;

use vstd::prelude::*;

verus! {

/// The runtime settings a provider reads.
#[derive(Debug, Clone)]
pub struct ProviderContext {
    /// CLOB API URL.
    pub clob_api_url: Option<String>,
    /// Whether a private key is configured.
    pub has_private_key: bool,
    /// Whether API credentials are configured.
    pub has_api_creds: bool,
}

impl Default for ProviderContext {
    fn default() -> (c: Self)
        ensures
            c.clob_api_url is None,
            !c.has_private_key,
            !c.has_api_creds,
    {
        ProviderContext { clob_api_url: None, has_private_key: false, has_api_creds: false }
    }
}

} // verus!
