//! The stored forms of a key: PEM documents and the binary form of the
//! private key. The `rsa` and `postcard` crates do the encoding.

use vstd::prelude::*;
use rsa::pkcs8::{DecodePrivateKey, EncodePrivateKey, EncodePublicKey, LineEnding};
use rsa::traits::{PrivateKeyParts, PublicKeyParts};
use rsa::{BigUint, RsaPrivateKey, RsaPublicKey};
use crate::errors::{outcome, KeyError, Refusal};
use crate::keys::{PrivateKey, PrivateKeyView, PublicKey, PublicKeyView};

verus! {

/// The PKCS#8 PEM document, with line feeds, that
/// `EncodePrivateKey::to_pkcs8_pem` writes for an accepted key; nothing
/// where it reports an error.
pub uninterp spec fn pkcs8_pem_text(key: PrivateKeyView) -> Option<Seq<char>>;

/// The key that `DecodePrivateKey::from_pkcs8_pem` reads from `text`;
/// nothing where it reports an error.
pub uninterp spec fn pkcs8_pem_key(text: Seq<char>) -> Option<PrivateKeyView>;

/// The public key PEM document, with line feeds, that
/// `EncodePublicKey::to_public_key_pem` writes for `key`; nothing where it
/// reports an error.
pub uninterp spec fn public_pem_text(key: PublicKeyView) -> Option<Seq<char>>;

/// The bytes that `postcard::to_allocvec` writes for an accepted key;
/// nothing where it reports an error.
pub uninterp spec fn postcard_bytes(key: PrivateKeyView) -> Option<Seq<u8>>;

/// The key that `postcard::from_bytes` reads from `bytes`; nothing where
/// it reports an error.
pub uninterp spec fn postcard_key(bytes: Seq<u8>) -> Option<PrivateKeyView>;

/// `EncodePrivateKey::to_pkcs8_pem` with line feeds, on the key that
/// `RsaPrivateKey::from_components` builds from the numbers. Given two
/// primes or more, that call turns down exactly the keys that are not
/// `accepted`, which comes back as `KeyError::Rsa`; given none it would
/// look for the primes itself, which is kept out here. A failed encoding
/// comes back as `KeyError::Pkcs8`. The text is a function of the numbers.
#[verifier::external_body]
fn rsa_to_pkcs8_pem(key: &PrivateKey) -> (r: Result<String, KeyError>)
    requires
        key@.primes.len() >= 2,
    ensures
        match r {
            Ok(s) => key@.accepted() && pkcs8_pem_text(key@) == Some(s@),
            Err(KeyError::Rsa(_)) => !key@.accepted(),
            Err(KeyError::Pkcs8(_)) => key@.accepted() && pkcs8_pem_text(key@).is_none(),
            Err(_) => false,
        },
{
    let k = RsaPrivateKey::from_components(
        BigUint::from_bytes_be(&key.n),
        BigUint::from_bytes_be(&key.e),
        BigUint::from_bytes_be(&key.d),
        key.primes.iter().map(|p| BigUint::from_bytes_be(p)).collect(),
    ).map_err(KeyError::Rsa)?;
    let pem = k.to_pkcs8_pem(LineEnding::LF).map_err(KeyError::Pkcs8)?;
    Ok(pem.as_str().to_owned())
}

/// `DecodePrivateKey::from_pkcs8_pem` for an RSA private key. The key is
/// a function of the text. It has two primes and has passed the checks of
/// `RsaPrivateKey::from_components`.
#[verifier::external_body]
fn rsa_from_pkcs8_pem(pem: &str) -> (r: Result<PrivateKey, rsa::pkcs8::Error>)
    ensures
        match r {
            Ok(k) => pkcs8_pem_key(pem@) == Some(k@) && k@.accepted() && k@.primes.len() == 2,
            Err(_) => pkcs8_pem_key(pem@).is_none(),
        },
{
    let k = RsaPrivateKey::from_pkcs8_pem(pem)?;
    Ok(PrivateKey {
        n: k.n().to_bytes_be(),
        e: k.e().to_bytes_be(),
        d: k.d().to_bytes_be(),
        primes: k.primes().iter().map(|p| p.to_bytes_be()).collect(),
    })
}

/// `EncodePublicKey::to_public_key_pem` with line feeds, on the key that
/// `RsaPublicKey::new_unchecked` holds the numbers in. The text is a
/// function of the numbers.
#[verifier::external_body]
fn rsa_to_public_key_pem(key: &PublicKey) -> (r: Result<String, rsa::pkcs8::spki::Error>)
    ensures
        match r {
            Ok(s) => public_pem_text(key@) == Some(s@),
            Err(_) => public_pem_text(key@).is_none(),
        },
{
    let k = RsaPublicKey::new_unchecked(BigUint::from_bytes_be(&key.n), BigUint::from_bytes_be(&key.e));
    k.to_public_key_pem(LineEnding::LF)
}

/// `postcard::to_allocvec`, on the key that
/// `RsaPrivateKey::from_components` builds from the numbers. Given two
/// primes or more, that call turns down exactly the keys that are not
/// `accepted`, which comes back as `KeyError::Rsa`; given none it would
/// look for the primes itself, which is kept out here. A failed encoding
/// comes back as `KeyError::Postcard`. The bytes are a function of the
/// numbers.
#[verifier::external_body]
fn postcard_to_allocvec(key: &PrivateKey) -> (r: Result<Vec<u8>, KeyError>)
    requires
        key@.primes.len() >= 2,
    ensures
        match r {
            Ok(b) => key@.accepted() && postcard_bytes(key@) == Some(b@),
            Err(KeyError::Rsa(_)) => !key@.accepted(),
            Err(KeyError::Postcard(_)) => key@.accepted() && postcard_bytes(key@).is_none(),
            Err(_) => false,
        },
{
    let k = RsaPrivateKey::from_components(
        BigUint::from_bytes_be(&key.n),
        BigUint::from_bytes_be(&key.e),
        BigUint::from_bytes_be(&key.d),
        key.primes.iter().map(|p| BigUint::from_bytes_be(p)).collect(),
    ).map_err(KeyError::Rsa)?;
    postcard::to_allocvec(&k).map_err(KeyError::Postcard)
}

/// `postcard::from_bytes` for an RSA private key. The key is a function of
/// the bytes. Nothing about the numbers is checked.
#[verifier::external_body]
fn postcard_from_bytes(blob: &[u8]) -> (r: Result<PrivateKey, postcard::Error>)
    ensures
        match r {
            Ok(k) => postcard_key(blob@) == Some(k@),
            Err(_) => postcard_key(blob@).is_none(),
        },
{
    let k: RsaPrivateKey = postcard::from_bytes(blob)?;
    Ok(PrivateKey {
        n: k.n().to_bytes_be(),
        e: k.e().to_bytes_be(),
        d: k.d().to_bytes_be(),
        primes: k.primes().iter().map(|p| p.to_bytes_be()).collect(),
    })
}

/// What `private_key_pem` returns.
pub open spec fn private_pem_spec(key: PrivateKeyView) -> Result<Seq<char>, Refusal> {
    if key.primes.len() < 2 {
        Err(Refusal::TooFewPrimes)
    } else if !key.accepted() {
        Err(Refusal::Rsa)
    } else {
        match pkcs8_pem_text(key) {
            Some(s) => Ok(s),
            None => Err(Refusal::Pkcs8),
        }
    }
}

/// What `load_priv_key` returns.
pub open spec fn load_spec(text: Seq<char>) -> Result<PrivateKeyView, Refusal> {
    match pkcs8_pem_key(text) {
        Some(k) => Ok(k),
        None => Err(Refusal::Pkcs8),
    }
}

/// What `public_key_pem` returns.
pub open spec fn public_pem_spec(key: PublicKeyView) -> Result<Seq<char>, Refusal> {
    match public_pem_text(key) {
        Some(s) => Ok(s),
        None => Err(Refusal::Spki),
    }
}

/// What `serialize_to_bin` returns.
pub open spec fn serialize_spec(key: PrivateKeyView) -> Result<Seq<u8>, Refusal> {
    if key.primes.len() < 2 {
        Err(Refusal::TooFewPrimes)
    } else if !key.accepted() {
        Err(Refusal::Rsa)
    } else {
        match postcard_bytes(key) {
            Some(b) => Ok(b),
            None => Err(Refusal::Postcard),
        }
    }
}

/// What `deserialize_from_bin` returns.
pub open spec fn deserialize_spec(blob: Seq<u8>) -> Result<PrivateKeyView, Refusal> {
    match postcard_key(blob) {
        Some(k) => Ok(k),
        None => Err(Refusal::Postcard),
    }
}

/// The PKCS#8 PEM document of a private key, lines ended by a line feed.
///
/// A key with fewer than two primes is refused before the `rsa` crate
/// sees it.
pub fn private_key_pem(key: &PrivateKey) -> (r: Result<String, KeyError>)
    ensures
        outcome(r) == private_pem_spec(key@),
{
    if key.primes.len() < 2 {
        return Err(KeyError::TooFewPrimes);
    }
    rsa_to_pkcs8_pem(key)
}

/// The private key that a PKCS#8 PEM document holds. A key that comes
/// back has two primes and is one that the `rsa` crate accepts.
pub fn load_priv_key(pem: &str) -> (r: Result<PrivateKey, KeyError>)
    ensures
        outcome(r) == load_spec(pem@),
        r matches Ok(k) ==> k@.accepted() && k@.primes.len() == 2,
{
    match rsa_from_pkcs8_pem(pem) {
        Ok(k) => Ok(k),
        Err(e) => Err(KeyError::Pkcs8(e)),
    }
}

/// The public key PEM document of a public key, lines ended by a line
/// feed.
pub fn public_key_pem(key: &PublicKey) -> (r: Result<String, KeyError>)
    ensures
        outcome(r) == public_pem_spec(key@),
{
    match rsa_to_public_key_pem(key) {
        Ok(s) => Ok(s),
        Err(e) => Err(KeyError::Spki(e)),
    }
}

/// The binary form of a private key.
///
/// A key with fewer than two primes is refused before the `rsa` crate
/// sees it.
pub fn serialize_to_bin(priv_key: &PrivateKey) -> (r: Result<Vec<u8>, KeyError>)
    ensures
        outcome(r) == serialize_spec(priv_key@),
{
    if priv_key.primes.len() < 2 {
        return Err(KeyError::TooFewPrimes);
    }
    postcard_to_allocvec(priv_key)
}

/// The private key that a binary form holds. Its numbers are taken as they
/// stand: whether they make a key that works is not looked at.
pub fn deserialize_from_bin(blob: &[u8]) -> (r: Result<PrivateKey, KeyError>)
    ensures
        outcome(r) == deserialize_spec(blob@),
{
    match postcard_from_bytes(blob) {
        Ok(k) => Ok(k),
        Err(e) => Err(KeyError::Postcard(e)),
    }
}

} // verus!
