//! Cryptographic primitives for signing requests, from `alloy`: Keccak-256
//! hashing, secp256k1 private keys and signatures, and 256-bit integers.

use alloy::signers::SignerSync;
use vstd::prelude::*;

use crate::text::dec;
use vstd::utf8::encode_utf8;

verus! {

/// The Keccak-256 digest of `data`.
pub uninterp spec fn keccak(data: Seq<u8>) -> Seq<u8>;

/// Calls `alloy::primitives::keccak256`: the Keccak-256 digest of `data`,
/// a function of `data` alone.
#[verifier::external_body]
pub fn keccak256(data: &[u8]) -> (h: [u8; 32])
    ensures
        h@ == keccak(data@),
{
    alloy::primitives::keccak256(data).0
}

/// What parsing `key` as a hex-encoded secp256k1 private key gives: the
/// 20-byte Ethereum address of the key, or the parser's error text.
pub uninterp spec fn key_address(key: Seq<char>) -> Result<Seq<u8>, Seq<char>>;

/// Calls `<PrivateKeySigner as FromStr>::from_str` on `key` and, on
/// success, `Signer::address`; on failure it renders the error with
/// `to_string`. The outcome is a function of `key` alone.
#[verifier::external_body]
pub fn private_key_address(key: &str) -> (r: Result<[u8; 20], String>)
    ensures
        match r {
            Ok(a) => key_address(key@) == Ok::<Seq<u8>, Seq<char>>(a@),
            Err(e) => key_address(key@) == Err::<Seq<u8>, Seq<char>>(e@),
        },
{
    match key.parse::<alloy::signers::local::PrivateKeySigner>() {
        Ok(signer) => Ok(alloy::signers::Signer::address(&signer).0.0),
        Err(e) => Err(e.to_string()),
    }
}

/// What signing the 32-byte `digest` with the private key `key` gives: the
/// 65-byte signature `r || s || v`, or the signer's error text.
pub uninterp spec fn digest_signature(key: Seq<char>, digest: Seq<u8>) -> Result<Seq<u8>, Seq<char>>;

/// Parses `key` as a `PrivateKeySigner` (which the caller knows succeeds)
/// and calls `SignerSync::sign_hash_sync` on `digest`, then
/// `Signature::as_bytes`. ECDSA signing in `k256` derives its nonce from
/// the key and the digest (RFC 6979), so the outcome is a function of the
/// two; on failure the error is rendered with `to_string`.
#[verifier::external_body]
pub fn sign_digest(key: &str, digest: &[u8; 32]) -> (r: Result<[u8; 65], String>)
    requires
        key_address(key@) is Ok,
    ensures
        match r {
            Ok(sig) => digest_signature(key@, digest@) == Ok::<Seq<u8>, Seq<char>>(sig@),
            Err(e) => digest_signature(key@, digest@) == Err::<Seq<u8>, Seq<char>>(e@),
        },
{
    let signer: alloy::signers::local::PrivateKeySigner = key.parse().unwrap();
    match signer.sign_hash_sync(&alloy::primitives::B256::from(*digest)) {
        Ok(sig) => Ok(sig.as_bytes()),
        Err(e) => Err(e.to_string()),
    }
}

/// The number whose big-endian bytes are `b`.
pub open spec fn be_value(b: Seq<u8>) -> nat
    decreases b.len(),
{
    if b.len() == 0 {
        0
    } else {
        be_value(b.drop_last()) * 256 + b.last() as nat
    }
}

/// What parsing `s` as a 256-bit unsigned integer gives (decimal, or
/// hexadecimal, octal or binary after a `0x`, `0o` or `0b` prefix): its
/// big-endian bytes, or nothing when `s` is not such a number.
pub uninterp spec fn u256_parse(s: Seq<char>) -> Option<Seq<u8>>;

/// Calls `<U256 as FromStr>::from_str` on `s` and, on success,
/// `to_be_bytes::<32>`. The outcome is a function of `s` alone.
#[verifier::external_body]
pub fn parse_u256(s: &str) -> (r: Option<[u8; 32]>)
    ensures
        match r {
            Some(b) => u256_parse(s@) == Some(b@),
            None => u256_parse(s@) is None,
        },
{
    match s.parse::<alloy::primitives::U256>() {
        Ok(v) => Some(v.to_be_bytes::<32>()),
        Err(_) => None,
    }
}

/// Calls `U256::from_be_bytes` and renders the number with `to_string`,
/// whose `Display` impl writes it in decimal without leading zeros.
#[verifier::external_body]
pub fn u256_decimal(b: &[u8; 32]) -> (s: String)
    ensures
        s@ == dec(be_value(b@)),
{
    alloy::primitives::U256::from_be_bytes(*b).to_string()
}

// ===========================================================================
// EIP-712 encoding
// ===========================================================================

/// The EIP-712 type of a signing domain.
pub const EIP712_DOMAIN_TYPE: &'static str = "EIP712Domain(string name,string version,uint256 chainId,address verifyingContract)";

/// The `len` big-endian bytes of `n` (its low `len` bytes when it is larger).
pub open spec fn be_bytes(n: nat, len: nat) -> Seq<u8>
    decreases len,
{
    if len == 0 {
        seq![]
    } else {
        be_bytes(n / 256, (len - 1) as nat).push((n % 256) as u8)
    }
}

/// The 32-byte ABI word that holds `n`.
pub open spec fn word(n: nat) -> Seq<u8> {
    be_bytes(n, 32)
}

/// `k` zero bytes.
pub open spec fn zeros(k: nat) -> Seq<u8> {
    Seq::new(k, |i: int| 0u8)
}

fn be_bytes_of(n: u64, len: usize) -> (r: Vec<u8>)
    ensures
        r@ == be_bytes(n as nat, len as nat),
    decreases len,
{
    if len == 0 {
        Vec::new()
    } else {
        let mut r = be_bytes_of(n / 256, len - 1);
        r.push((n % 256) as u8);
        r
    }
}

/// The 32-byte ABI word that holds `n`.
pub fn u64_word(n: u64) -> (w: Vec<u8>)
    ensures
        w@ == word(n as nat),
        w@.len() == 32,
{
    let w = be_bytes_of(n, 32);
    proof {
        lemma_be_bytes_len(n as nat, 32);
    }
    w
}

proof fn lemma_be_bytes_len(n: nat, len: nat)
    ensures
        be_bytes(n, len).len() == len,
    decreases len,
{
    if len > 0 {
        lemma_be_bytes_len(n / 256, (len - 1) as nat);
    }
}

/// Appends `bytes` to `data`.
pub fn push_bytes(data: &mut Vec<u8>, bytes: &[u8])
    ensures
        final(data)@ == old(data)@ + bytes@,
{
    let n = bytes.len();
    let mut i: usize = 0;
    while i < n
        invariant
            n == bytes@.len(),
            i <= n,
            data@ == old(data)@ + bytes@.take(i as int),
        decreases n - i,
    {
        assert(bytes@.take(i + 1) =~= bytes@.take(i as int).push(bytes@[i as int]));
        data.push(bytes[i]);
        i = i + 1;
    }
    assert(bytes@.take(n as int) =~= bytes@);
}

/// Appends `k` zero bytes to `data`.
pub fn push_zeros(data: &mut Vec<u8>, k: usize)
    ensures
        final(data)@ == old(data)@ + zeros(k as nat),
{
    let mut i: usize = 0;
    while i < k
        invariant
            i <= k,
            data@ == old(data)@ + zeros(i as nat),
        decreases k - i,
    {
        assert(zeros((i + 1) as nat) =~= zeros(i as nat).push(0u8));
        data.push(0u8);
        i = i + 1;
    }
}

/// The Keccak-256 digest of the UTF-8 encoding of `s`.
pub fn text_hash(s: &str) -> (h: [u8; 32])
    ensures
        h@ == keccak(encode_utf8(s@)),
{
    keccak256(s.as_bytes())
}

/// The EIP-712 separator of the domain `name`, `version` on `chain_id`
/// with the verifying contract `contract`: the hash of the domain type's
/// hash, the hashes of the name and the version, the chain ID as a word
/// and the contract's address as a word (padded on the left with zeros).
pub open spec fn domain_separator(name: Seq<char>, version: Seq<char>, chain_id: nat, contract: Seq<u8>) -> Seq<u8> {
    keccak(
        keccak(encode_utf8(EIP712_DOMAIN_TYPE@)) + keccak(encode_utf8(name)) + keccak(encode_utf8(version))
            + word(chain_id) + zeros(12) + contract,
    )
}

/// Computes the EIP-712 domain separator.
pub fn eip712_domain_separator(name: &str, version: &str, chain_id: u64, contract: &[u8; 20]) -> (h: [u8; 32])
    ensures
        h@ == domain_separator(name@, version@, chain_id as nat, contract@),
{
    let mut data: Vec<u8> = Vec::new();
    let domain_type = text_hash(EIP712_DOMAIN_TYPE);
    push_bytes(&mut data, &domain_type);
    let name_hash = text_hash(name);
    push_bytes(&mut data, &name_hash);
    let version_hash = text_hash(version);
    push_bytes(&mut data, &version_hash);
    let chain = u64_word(chain_id);
    push_bytes(&mut data, chain.as_slice());
    push_zeros(&mut data, 12);
    push_bytes(&mut data, contract);
    keccak256(data.as_slice())
}

/// The EIP-712 digest of a message: the hash of `0x19 0x01`, the domain
/// separator and the message's struct hash.
pub open spec fn typed_digest(domain: Seq<u8>, struct_hash: Seq<u8>) -> Seq<u8> {
    keccak(seq![0x19u8, 0x01u8] + domain + struct_hash)
}

/// Computes the EIP-712 digest of a message.
pub fn eip712_digest(domain: &[u8; 32], struct_hash: &[u8; 32]) -> (h: [u8; 32])
    ensures
        h@ == typed_digest(domain@, struct_hash@),
{
    let mut data: Vec<u8> = Vec::new();
    data.push(0x19u8);
    data.push(0x01u8);
    push_bytes(&mut data, domain);
    push_bytes(&mut data, struct_hash);
    assert(data@ =~= seq![0x19u8, 0x01u8] + domain@ + struct_hash@);
    keccak256(data.as_slice())
}

} // verus!
