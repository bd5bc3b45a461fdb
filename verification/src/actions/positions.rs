//! Querying wallet positions.

use vstd::prelude::*;

verus! {

/// What a wallet positions query fetches.
#[derive(Debug, Clone)]
pub struct PositionsQueryParams {
    /// Trades per page.
    pub limit: u32,
    /// The largest number of pages of trades to fetch.
    pub max_pages: u32,
    /// Only the positions in these assets, when given.
    pub asset_ids: Option<Vec<String>>,
    /// Whether to look up current prices for the unrealized profit.
    pub include_prices: bool,
    /// The largest number of prices to look up.
    pub price_lookup_limit: usize,
}

impl Default for PositionsQueryParams {
    /// 500 trades per page, at most 10 pages, every asset, with at most 10
    /// price lookups.
    fn default() -> (p: Self)
        ensures
            p.limit == 500,
            p.max_pages == 10,
            p.asset_ids is None,
            p.include_prices,
            p.price_lookup_limit == 10,
    {
        PositionsQueryParams {
            limit: 500,
            max_pages: 10,
            asset_ids: None,
            include_prices: true,
            price_lookup_limit: 10,
        }
    }
}

} // verus!
