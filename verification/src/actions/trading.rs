//! Trading queries: account balances and positions.
//!
//! Fetching is left to the caller; this module decides which token
//! balances a query fetches and gathers what came back.

use vstd::prelude::*;

use crate::actions::account::{credentials_message, require_credentials, CredentialedAction};
use crate::actions::balances::{
    balance_map, fetched_map, gather_balances, opt_allowance, tokens_unique,
};
use crate::client::ClobClient;
use crate::error::{PolymarketError, PolymarketErrorCode};
use crate::text::views;
use crate::types::BalanceAllowance;

verus! {

/// The balances of an account.
#[derive(Debug, Clone)]
pub struct BalanceResponse {
    /// Collateral (USDC) balance.
    pub collateral: Option<BalanceAllowance>,
    /// Conditional token balances, each token ID once.
    pub conditional: Vec<(String, BalanceAllowance)>,
}

/// A position in a token.
#[derive(Debug, Clone)]
pub struct Position {
    /// Market condition ID.
    pub market: String,
    /// Token ID.
    pub asset_id: String,
    /// Position size.
    pub size: String,
    /// Average entry price.
    pub average_price: String,
    /// Realized profit or loss.
    pub realized_pnl: String,
    /// Unrealized profit or loss.
    pub unrealized_pnl: String,
}

/// The token IDs whose balances a balance query fetches.
pub open spec fn balance_tokens(token_ids: Option<&[String]>, include_conditional: bool) -> Seq<Seq<char>> {
    match token_ids {
        Some(ids) if include_conditional => views(ids@),
        _ => seq![],
    }
}

/// Decides what an account balance query fetches: refuses a query made
/// without API credentials; otherwise gives the token IDs whose balances
/// are to be fetched.
pub fn plan_balances(client: &ClobClient, token_ids: Option<&[String]>, include_conditional: bool) -> (r:
    Result<Vec<String>, PolymarketError>)
    ensures
        r is Ok <==> client.authenticated(),
        r matches Err(e) ==> e.code == PolymarketErrorCode::AuthError && e.message@
            == credentials_message(CredentialedAction::BalanceQuery) && e.cause is None,
        r matches Ok(ids) ==> views(ids@) == balance_tokens(token_ids, include_conditional),
{
    require_credentials(client, CredentialedAction::BalanceQuery)?;
    let mut r: Vec<String> = Vec::new();
    if include_conditional {
        match token_ids {
            Some(ids) => {
                let n = ids.len();
                let mut i: usize = 0;
                while i < n
                    invariant
                        n == ids@.len(),
                        i <= n,
                        r@.len() == i,
                        forall|j: int| 0 <= j < i ==> #[trigger] r@[j]@ == ids@[j]@,
                    decreases n - i,
                {
                    r.push(ids[i].clone());
                    i = i + 1;
                }
                assert(views(r@) =~= views(ids@));
            },
            None => {
                assert(views(r@) =~= seq![]);
            },
        }
    } else {
        assert(views(r@) =~= seq![]);
    }
    Ok(r)
}

/// Assembles the balances of an account from the collateral balance and
/// the token balances that came back.
pub fn collect_balances(
    collateral: Option<BalanceAllowance>,
    fetched: &Vec<(String, Option<BalanceAllowance>)>,
) -> (r: BalanceResponse)
    ensures
        opt_allowance(r.collateral) == opt_allowance(collateral),
        tokens_unique(r.conditional@),
        balance_map(r.conditional@) == fetched_map(fetched@),
{
    BalanceResponse { collateral, conditional: gather_balances(fetched) }
}

} // verus!
