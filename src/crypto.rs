//! The cryptographic and encoding primitives the registry relies on.
//!
//! Hashing, signature checking, public-key parsing and base58 come from the
//! host SDK and the `bs58` crate; their results are named here and believed.
//! Hex encoding is short enough to state exactly.

use vstd::prelude::*;

verus! {

/// The SHA-256 digest of a byte string.
pub uninterp spec fn sha256_of(msg: Seq<u8>) -> Seq<u8>;

/// Whether an ed25519 signature over `msg` verifies under `key`.
pub uninterp spec fn ed25519_accepts(sig: Seq<u8>, msg: Seq<u8>, key: Seq<u8>) -> bool;

/// The bytes of the public key written as `text` (`[curve] ++ key data`), if it parses.
pub uninterp spec fn parsed_public_key(text: Seq<u8>) -> Option<Seq<u8>>;

/// The bytes that base58 `text` stands for, if it is valid base58.
pub uninterp spec fn base58_decoded(text: Seq<u8>) -> Option<Seq<u8>>;

/// The base58 text of a byte string.
pub uninterp spec fn base58_of(bytes: Seq<u8>) -> Seq<char>;

/// The byte layout of a parsed public key: a curve tag, then the key data
/// (32 bytes for ed25519, 64 for secp256k1, 1952 for ML-DSA-65).
pub open spec fn public_key_layout(k: Seq<u8>) -> bool {
    ||| (k.len() == 33 && k[0] == 0)
    ||| (k.len() == 65 && k[0] == 1)
    ||| (k.len() == 1953 && k[0] == 2)
}

/// The lower-case hex digit for `n < 16`.
pub open spec fn hex_digit(n: u8) -> char {
    if n < 10 {
        ((n + 48) as u8) as char
    } else {
        ((n + 87) as u8) as char
    }
}

/// Lower-case hex: two digits per byte, high nibble first.
pub open spec fn hex_encoding(bytes: Seq<u8>) -> Seq<char>
    decreases bytes.len(),
{
    if bytes.len() == 0 {
        Seq::empty()
    } else {
        seq![hex_digit(bytes[0] / 16), hex_digit(bytes[0] % 16)] + hex_encoding(bytes.drop_first())
    }
}

/// Relies on `near_sdk::env::sha256`: the 32-byte SHA-256 digest of `msg`.
#[verifier::external_body]
pub(crate) fn sha256(msg: &[u8]) -> (r: Vec<u8>)
    ensures
        r@ == sha256_of(msg@),
        r@.len() == 32,
{
    near_sdk::env::sha256(msg)
}

/// Relies on `near_sdk::env::ed25519_verify`: whether `sig` is a valid
/// ed25519 signature of `msg` under `key`.
#[verifier::external_body]
pub(crate) fn ed25519_verify(sig: &[u8], msg: &[u8], key: &[u8]) -> (r: bool)
    requires
        sig@.len() == 64,
        key@.len() == 32,
    ensures
        r == ed25519_accepts(sig@, msg@, key@),
{
    let sig: &[u8; 64] = sig.try_into().unwrap();
    let key: &[u8; 32] = key.try_into().unwrap();
    near_sdk::env::ed25519_verify(sig, msg, key)
}

/// Relies on `near_sdk::PublicKey::from_str` and `PublicKey::into_bytes`:
/// the curve tag followed by the key data, for text that parses.
#[verifier::external_body]
pub(crate) fn parse_public_key(text: &[u8]) -> (r: Option<Vec<u8>>)
    ensures
        match r {
            Some(k) => parsed_public_key(text@) == Some(k@) && public_key_layout(k@),
            None => parsed_public_key(text@) is None,
        },
{
    match std::str::from_utf8(text) {
        Ok(s) => match <near_sdk::PublicKey as std::str::FromStr>::from_str(s) {
            Ok(k) => Some(k.into_bytes()),
            Err(_) => None,
        },
        Err(_) => None,
    }
}

/// Relies on `bs58::decode(..).into_vec()`: the decoded bytes, or `None`
/// where the text is not base58.
#[verifier::external_body]
pub(crate) fn base58_decode(text: &[u8]) -> (r: Option<Vec<u8>>)
    ensures
        match r {
            Some(b) => base58_decoded(text@) == Some(b@),
            None => base58_decoded(text@) is None,
        },
{
    bs58::decode(text).into_vec().ok()
}

/// Relies on `bs58::encode(..).into_string()`: the base58 text of `bytes`.
#[verifier::external_body]
pub(crate) fn base58_encode(bytes: &[u8]) -> (r: String)
    ensures
        r@ == base58_of(bytes@),
{
    bs58::encode(bytes).into_string()
}

/// Relies on `hex::encode`: lower-case hex, two digits per byte.
#[verifier::external_body]
pub(crate) fn hex_encode(bytes: &[u8]) -> (r: String)
    ensures
        r@ == hex_encoding(bytes@),
{
    hex::encode(bytes)
}

} // verus!
