//! The Polymarket service: the clients an agent uses.

use vstd::prelude::*;

use crate::client::{invalid_key_error, strip_hex_prefix, trim_slashes, ClobClient};
use crate::constants::{DEFAULT_CLOB_API_URL, POLYGON_CHAIN_ID, POLYMARKET_SERVICE_NAME};
use crate::error::{PolymarketError, PolymarketErrorCode};
use crate::eth::key_address;
use crate::types::ApiKeyCreds;

verus! {

/// The Polymarket service: a public client, and an authenticated one while
/// API credentials are configured.
pub struct PolymarketService {
    clob_client: ClobClient,
    authenticated_client: Option<ClobClient>,
}

/// Whether `c` is a client of the public CLOB API for the wallet of
/// `private_key`, holding API credentials or not as `authenticated` says.
pub open spec fn is_default_client(c: ClobClient, private_key: Seq<char>, authenticated: bool) -> bool {
    &&& c.base() == trim_slashes(DEFAULT_CLOB_API_URL@)
    &&& key_address(strip_hex_prefix(private_key)) == Ok::<Seq<u8>, Seq<char>>(c.wallet())
    &&& c.chain() == POLYGON_CHAIN_ID
    &&& c.authenticated() == authenticated
}

impl PolymarketService {
    /// The service type.
    pub const SERVICE_TYPE: &'static str = POLYMARKET_SERVICE_NAME;

    /// The public client.
    pub closed spec fn public_client(&self) -> ClobClient {
        self.clob_client
    }

    /// The authenticated client, while there is one.
    pub closed spec fn session(&self) -> Option<ClobClient> {
        self.authenticated_client
    }

    /// Starts the service for the wallet of `private_key`, without API
    /// credentials. Fails with a configuration error when the key does not
    /// parse.
    pub fn start(private_key: &str) -> (r: Result<Self, PolymarketError>)
        ensures
            r is Ok <==> key_address(strip_hex_prefix(private_key@)) is Ok,
            r matches Ok(s) ==> is_default_client(s.public_client(), private_key@, false)
                && s.session() is None,
            r matches Err(e) ==> key_address(strip_hex_prefix(private_key@)) matches Err(pe)
                && invalid_key_error(e, pe),
    {
        let clob_client = ClobClient::new(Some(DEFAULT_CLOB_API_URL), private_key)?;
        Ok(PolymarketService { clob_client, authenticated_client: None })
    }

    /// Starts the service for the wallet of `private_key` with the API
    /// credentials `creds`.
    pub fn start_with_creds(private_key: &str, creds: ApiKeyCreds) -> (r: Result<Self, PolymarketError>)
        ensures
            r is Ok <==> key_address(strip_hex_prefix(private_key@)) is Ok,
            r matches Ok(s) ==> {
                &&& is_default_client(s.public_client(), private_key@, false)
                &&& s.session() matches Some(a) && is_default_client(a, private_key@, true)
            },
            r matches Err(e) ==> key_address(strip_hex_prefix(private_key@)) matches Err(pe)
                && invalid_key_error(e, pe),
    {
        let clob_client = ClobClient::new(Some(DEFAULT_CLOB_API_URL), private_key)?;
        let authenticated = ClobClient::new_with_creds(Some(DEFAULT_CLOB_API_URL), private_key, creds)?;
        Ok(PolymarketService { clob_client, authenticated_client: Some(authenticated) })
    }

    /// The public client.
    pub fn client(&self) -> (c: &ClobClient)
        ensures
            *c == self.public_client(),
    {
        &self.clob_client
    }

    /// The authenticated client; an authentication error when no API
    /// credentials are configured.
    pub fn authenticated_client(&self) -> (r: Result<&ClobClient, PolymarketError>)
        ensures
            r is Ok <==> self.session() is Some,
            r matches Ok(c) ==> self.session() == Some(*c),
            r matches Err(e) ==> e.code == PolymarketErrorCode::AuthError && e.message@
                == "No API credentials configured"@ && e.cause is None,
    {
        match &self.authenticated_client {
            Some(c) => Ok(c),
            None => Err(PolymarketError::new(PolymarketErrorCode::AuthError, "No API credentials configured")),
        }
    }

    /// Stops the service: the authenticated client is dropped, the public
    /// one kept.
    pub fn stop(&mut self) -> (r: Result<(), PolymarketError>)
        ensures
            r is Ok,
            final(self).session() is None,
            final(self).public_client() == old(self).public_client(),
    {
        self.authenticated_client = None;
        Ok(())
    }
}

} // verus!
