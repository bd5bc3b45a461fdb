//! The account: its authentication state, its access status, and the
//! check that a request needing API credentials has them.

use vstd::prelude::*;

use crate::client::ClobClient;
use crate::error::{PolymarketError, PolymarketErrorCode};
use crate::eth::zeros;
use crate::types::ApiKey;

verus! {

/// Account access status information.
#[derive(Debug, Clone)]
pub struct AccountAccessStatus {
    /// Whether U.S. certification is required.
    pub cert_required: Option<bool>,
    /// The managed API keys.
    pub api_keys: Vec<ApiKey>,
    /// The ID of the active session's API key, if any.
    pub active_session_key_id: Option<String>,
}

/// The account access status of a client. Nothing is known of it yet: no
/// certification requirement, no API keys and no session key.
pub fn get_account_access_status(client: &ClobClient) -> (r: Result<AccountAccessStatus, PolymarketError>)
    ensures
        r matches Ok(s) && s.cert_required is None && s.api_keys@.len() == 0
            && s.active_session_key_id is None,
{
    let _ = client;
    Ok(AccountAccessStatus { cert_required: None, api_keys: Vec::new(), active_session_key_id: None })
}

fn is_zero_address(a: &[u8; 20]) -> (b: bool)
    ensures
        b == (a@ == zeros(20)),
{
    let mut i: usize = 0;
    while i < 20
        invariant
            i <= 20,
            a@.len() == 20,
            forall|j: int| 0 <= j < i ==> a@[j] == 0u8,
        decreases 20 - i,
    {
        if a[i] != 0 {
            assert(a@[i as int] != zeros(20)[i as int]);
            return false;
        }
        i = i + 1;
    }
    assert(a@ =~= zeros(20));
    true
}

/// The authentication state of a client: whether its wallet is not the
/// zero address (a private key is set), whether it has an API key, an API
/// secret and an API passphrase, and whether it is fully authenticated
/// (both).
pub fn handle_authentication(client: &ClobClient) -> (r: (bool, bool, bool, bool, bool))
    ensures
        r == (
            client.wallet() != zeros(20),
            client.authenticated(),
            client.authenticated(),
            client.authenticated(),
            client.wallet() != zeros(20) && client.authenticated(),
        ),
{
    let has_creds = client.has_credentials();
    let address = client.address();
    let has_private_key = !is_zero_address(&address);
    (has_private_key, has_creds, has_creds, has_creds, has_private_key && has_creds)
}

/// The requests that need API credentials.
#[derive(Debug, Clone, Copy, PartialEq, Eq, Structural)]
pub enum CredentialedAction {
    BalanceQuery,
    PositionQuery,
    TradeHistory,
    OrderScoring,
    OrderDetails,
    ActiveOrders,
    CancelOrder,
    ListApiKeys,
    RevokeApiKey,
}

/// What a request made without API credentials is refused with.
pub open spec fn credentials_message(action: CredentialedAction) -> Seq<char> {
    match action {
        CredentialedAction::BalanceQuery => "API credentials required for balance queries"@,
        CredentialedAction::PositionQuery => "API credentials required for position queries"@,
        CredentialedAction::TradeHistory => "API credentials required for trade history"@,
        CredentialedAction::OrderScoring => "API credentials required for order scoring check"@,
        CredentialedAction::OrderDetails => "API credentials required for order details"@,
        CredentialedAction::ActiveOrders => "API credentials required for active orders"@,
        CredentialedAction::CancelOrder => "API credentials required to cancel orders"@,
        CredentialedAction::ListApiKeys => "API credentials required to list API keys"@,
        CredentialedAction::RevokeApiKey => "API credentials required to revoke API keys"@,
    }
}

/// Checks that `client` holds API credentials before `action`; refuses
/// with an authentication error otherwise.
pub fn require_credentials(client: &ClobClient, action: CredentialedAction) -> (r: Result<(), PolymarketError>)
    ensures
        r is Ok <==> client.authenticated(),
        r matches Err(e) ==> e.code == PolymarketErrorCode::AuthError && e.message@
            == credentials_message(action) && e.cause is None,
{
    if client.has_credentials() {
        return Ok(());
    }
    let message = match action {
        CredentialedAction::BalanceQuery => "API credentials required for balance queries",
        CredentialedAction::PositionQuery => "API credentials required for position queries",
        CredentialedAction::TradeHistory => "API credentials required for trade history",
        CredentialedAction::OrderScoring => "API credentials required for order scoring check",
        CredentialedAction::OrderDetails => "API credentials required for order details",
        CredentialedAction::ActiveOrders => "API credentials required for active orders",
        CredentialedAction::CancelOrder => "API credentials required to cancel orders",
        CredentialedAction::ListApiKeys => "API credentials required to list API keys",
        CredentialedAction::RevokeApiKey => "API credentials required to revoke API keys",
    };
    Err(PolymarketError::auth_error(message))
}

} // verus!
