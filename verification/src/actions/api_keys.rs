//! API keys: the signed request that creates one, and the checks before
//! listing or revoking them.
//!
//! A new API key is requested with an EIP-712 `ClobAuth` message signed by
//! the wallet: its address, a timestamp and a nonce. Sending the request
//! and reading the answer is left to the caller.

use vstd::prelude::*;
use vstd::utf8::encode_utf8;

use crate::actions::orders::salt_from_nanos;
use crate::clock::{clock_secs, secs_of_nanos, unix_time_nanos};
use crate::client::{invalid_key_error, strip_0x, strip_hex_prefix, trim_slashes, trim_trailing_slashes, ClobClient};
use crate::constants::{DEFAULT_CLOB_API_URL, POLYGON_CHAIN_ID};
use crate::error::{PolymarketError, PolymarketErrorCode};
use crate::eth::{
    digest_signature, domain_separator, eip712_digest, eip712_domain_separator, key_address,
    keccak, keccak256, private_key_address, push_bytes, push_zeros, sign_digest, text_hash,
    typed_digest, u64_word, word, zeros,
};
use crate::text::{dec, prefixed_hex, to_prefixed_hex, u64_to_decimal};

verus! {

/// The name of the CLOB authentication domain.
pub const CLOB_DOMAIN_NAME: &'static str = "ClobAuthDomain";

/// The version of the CLOB authentication domain.
pub const CLOB_DOMAIN_VERSION: &'static str = "1";

/// The verifying contract of the CLOB authentication domain.
pub const CLOB_VERIFYING_CONTRACT: &'static str = "0x0000000000000000000000000000000000000000";

/// The EIP-712 type of the authentication message.
pub const CLOB_AUTH_TYPE: &'static str = "ClobAuth(address address,uint256 timestamp,uint256 nonce)";

/// The domain separator of CLOB authentication: on Polygon, verified by
/// the zero address.
pub open spec fn clob_auth_domain() -> Seq<u8> {
    domain_separator(CLOB_DOMAIN_NAME@, CLOB_DOMAIN_VERSION@, POLYGON_CHAIN_ID as nat, zeros(20))
}

/// The struct hash of the authentication message of `address` at
/// `timestamp` with `nonce`.
pub open spec fn clob_auth_struct_hash(address: Seq<u8>, timestamp: nat, nonce: nat) -> Seq<u8> {
    keccak(keccak(encode_utf8(CLOB_AUTH_TYPE@)) + zeros(12) + address + word(timestamp) + word(nonce))
}

/// The digest the wallet signs to create an API key.
pub open spec fn clob_auth_digest(address: Seq<u8>, timestamp: nat, nonce: nat) -> Seq<u8> {
    typed_digest(clob_auth_domain(), clob_auth_struct_hash(address, timestamp, nonce))
}

/// The body of the request that creates an API key.
#[derive(Debug, Clone)]
pub struct CreateApiKeyRequest {
    pub address: String,
    pub timestamp: String,
    pub nonce: String,
    pub signature: String,
}

/// What preparing the request to create an API key gives, at `timestamp`
/// with the random number `random`: the nonce is the timestamp XOR the
/// random number; the digest is signed with `key`, and the request carries
/// the signature, or the signer's error is reported as an API error.
pub open spec fn request_outcome(
    key: Seq<char>,
    address: Seq<u8>,
    timestamp: u64,
    random: u64,
    r: Result<CreateApiKeyRequest, PolymarketError>,
) -> bool {
    let nonce = timestamp ^ random;
    match digest_signature(key, clob_auth_digest(address, timestamp as nat, nonce as nat)) {
        Ok(sig) => r matches Ok(q) && q.address@ == prefixed_hex(address) && q.timestamp@ == dec(
            timestamp as nat,
        ) && q.nonce@ == dec(nonce as nat) && q.signature@ == prefixed_hex(sig),
        Err(msg) => r matches Err(e) && e.code == PolymarketErrorCode::ApiError && e.message@
            == "Failed to sign: "@ + msg && e.cause is None,
    }
}

/// The random number made from a time in nanoseconds and a process ID.
pub open spec fn random_from(t: u128, process_id: u32) -> u64 {
    salt_from_nanos(t) ^ (process_id as u64)
}

/// A request to create an API key made now carries the clock reading in
/// whole seconds (nanoseconds / 10^9) as its timestamp, and a nonce that is
/// that timestamp XOR the random number made from the same reading.
pub proof fn law_api_key_timestamp_follows_the_clock(
    key: Seq<char>,
    address: Seq<u8>,
    t: u128,
    process_id: u32,
    r: Result<CreateApiKeyRequest, PolymarketError>,
)
    requires
        request_outcome(key, address, clock_secs(t), random_from(t, process_id), r),
        r is Ok,
    ensures
        r matches Ok(q) && q.timestamp@ == dec(((t / 1_000_000_000) as u64) as nat) && q.nonce@ == dec(
            (((t / 1_000_000_000) as u64) ^ (((t as u64) ^ (((t / 1_000_000_000) as u64) << 32u64)) ^ (
            process_id as u64))) as nat,
        ),
{
}

/// Creates API keys by signing authentication messages with a private key.
pub struct ApiKeyCreator {
    private_key: String,
    address: [u8; 20],
    base_url: String,
}

impl ApiKeyCreator {
    #[verifier::type_invariant]
    spec fn valid_key(&self) -> bool {
        key_address(self.private_key@) == Ok::<Seq<u8>, Seq<char>>(self.address@)
    }

    /// The private key that signs, without `0x`.
    pub closed spec fn key(&self) -> Seq<char> {
        self.private_key@
    }

    /// The wallet of the key.
    pub closed spec fn wallet(&self) -> Seq<u8> {
        self.address@
    }

    /// The base URL of the API, without a trailing slash.
    pub closed spec fn base(&self) -> Seq<char> {
        self.base_url@
    }

    /// Creates an API key creator signing with `private_key` (hex, with or
    /// without `0x`) for the API at `base_url` (the public CLOB API when
    /// none is given). Fails with a configuration error when the key does
    /// not parse.
    pub fn new(private_key: &str, base_url: Option<&str>) -> (r: Result<Self, PolymarketError>)
        ensures
            r is Ok <==> key_address(strip_hex_prefix(private_key@)) is Ok,
            r matches Ok(c) ==> {
                &&& c.key() == strip_hex_prefix(private_key@)
                &&& key_address(c.key()) == Ok::<Seq<u8>, Seq<char>>(c.wallet())
                &&& c.base() == trim_slashes(
                    match base_url {
                        Some(u) => u@,
                        None => DEFAULT_CLOB_API_URL@,
                    },
                )
            },
            r matches Err(e) ==> key_address(strip_hex_prefix(private_key@)) matches Err(pe)
                && invalid_key_error(e, pe),
    {
        let key = strip_0x(private_key);
        let address = match private_key_address(key) {
            Ok(a) => a,
            Err(e) => {
                let mut message = String::from_str("Invalid private key: ");
                message.append(e.as_str());
                return Err(PolymarketError::config_error(message.as_str()));
            },
        };
        let url = match base_url {
            Some(u) => u,
            None => DEFAULT_CLOB_API_URL,
        };
        Ok(
            ApiKeyCreator {
                private_key: String::from_str(key),
                address,
                base_url: String::from_str(trim_trailing_slashes(url)),
            },
        )
    }

    /// The wallet address of the key.
    pub fn address(&self) -> (a: [u8; 20])
        ensures
            a@ == self.wallet(),
    {
        self.address
    }

    /// The URL that creates API keys.
    pub fn api_key_url(&self) -> (s: String)
        ensures
            s@ == self.base() + "/auth/api-key"@,
    {
        let mut s = self.base_url.clone();
        s.append("/auth/api-key");
        s
    }

    /// The EIP-712 domain separator of CLOB authentication.
    fn domain_separator(&self) -> (h: [u8; 32])
        ensures
            h@ == clob_auth_domain(),
    {
        let contract: [u8; 20] = [0u8; 20];
        assert(contract@ =~= zeros(20));
        eip712_domain_separator(CLOB_DOMAIN_NAME, CLOB_DOMAIN_VERSION, POLYGON_CHAIN_ID, &contract)
    }

    /// The struct hash of the authentication message.
    fn struct_hash(&self, address: &[u8; 20], timestamp: u64, nonce: u64) -> (h: [u8; 32])
        ensures
            h@ == clob_auth_struct_hash(address@, timestamp as nat, nonce as nat),
    {
        let mut data: Vec<u8> = Vec::new();
        let type_hash = text_hash(CLOB_AUTH_TYPE);
        push_bytes(&mut data, &type_hash);
        push_zeros(&mut data, 12);
        push_bytes(&mut data, address);
        push_bytes(&mut data, u64_word(timestamp).as_slice());
        push_bytes(&mut data, u64_word(nonce).as_slice());
        keccak256(data.as_slice())
    }

    /// The EIP-712 digest of the authentication message.
    fn eip712_hash(&self, address: &[u8; 20], timestamp: u64, nonce: u64) -> (h: [u8; 32])
        ensures
            h@ == clob_auth_digest(address@, timestamp as nat, nonce as nat),
    {
        let domain = self.domain_separator();
        let hash = self.struct_hash(address, timestamp, nonce);
        eip712_digest(&domain, &hash)
    }

    /// Prepares the request that creates an API key, signed at `timestamp`
    /// (Unix seconds) with a nonce made from `random`.
    pub fn api_key_request_at(&self, timestamp: u64, random: u64) -> (r: Result<
        CreateApiKeyRequest,
        PolymarketError,
    >)
        ensures
            request_outcome(self.key(), self.wallet(), timestamp, random, r),
    {
        proof {
            use_type_invariant(self);
        }
        let nonce = timestamp ^ random;
        let hash = self.eip712_hash(&self.address, timestamp, nonce);
        match sign_digest(self.private_key.as_str(), &hash) {
            Ok(sig) => Ok(
                CreateApiKeyRequest {
                    address: to_prefixed_hex(&self.address),
                    timestamp: u64_to_decimal(timestamp),
                    nonce: u64_to_decimal(nonce),
                    signature: to_prefixed_hex(&sig),
                },
            ),
            Err(e) => {
                let mut message = String::from_str("Failed to sign: ");
                message.append(e.as_str());
                Err(PolymarketError::api_error(message.as_str()))
            },
        }
    }

    /// Prepares the request that creates an API key now: the timestamp is
    /// a reading of the clock in whole seconds, and the random number is
    /// made from the same reading and the ID `process_id` of the running
    /// process.
    pub fn create_api_key_request(&self, process_id: u32) -> (r: Result<
        CreateApiKeyRequest,
        PolymarketError,
    >)
        ensures
            exists|t: u128|
                #[trigger] request_outcome(
                    self.key(),
                    self.wallet(),
                    clock_secs(t),
                    random_from(t, process_id),
                    r,
                ),
    {
        let t = unix_time_nanos();
        let timestamp = secs_of_nanos(t);
        let random = crate::actions::orders::salt_of_time(t) ^ (process_id as u64);
        assert(random == random_from(t, process_id));
        let r = self.api_key_request_at(timestamp, random);
        assert(request_outcome(self.key(), self.wallet(), clock_secs(t), random_from(t, process_id), r));
        r
    }
}

/// The error a refused request to create an API key turns into, from the
/// HTTP status and the body of the answer.
pub fn create_api_key_status_error(status: &str, body: &str) -> (e: PolymarketError)
    ensures
        e.code == PolymarketErrorCode::ApiError,
        e.message@ == "Failed to create API key ("@ + status@ + "): "@ + body@,
        e.cause is None,
{
    let mut m = String::from_str("Failed to create API key (");
    m.append(status);
    m.append("): ");
    m.append(body);
    PolymarketError::api_error(m.as_str())
}

/// The authentication state of a client: whether it has a private key
/// (always, since a client is made from one), an API key, an API secret
/// and an API passphrase, and whether it is fully authenticated.
pub fn get_authentication_status(client: &ClobClient) -> (r: (bool, bool, bool, bool, bool))
    ensures
        r == (true, client.authenticated(), client.authenticated(), client.authenticated(), client.authenticated()),
{
    let has_creds = client.has_credentials();
    (true, has_creds, has_creds, has_creds, has_creds)
}

} // verus!
