//! What can go wrong with a key, and who said so.

use vstd::prelude::*;

verus! {

/// `rsa::errors::Error`, handed on as it comes.
#[verifier::external_type_specification]
#[verifier::external_body]
pub struct ExRsaError(rsa::errors::Error);

/// `pkcs8::Error`, handed on as it comes.
#[verifier::external_type_specification]
#[verifier::external_body]
pub struct ExPkcs8Error(rsa::pkcs8::Error);

/// `spki::Error`, handed on as it comes.
#[verifier::external_type_specification]
#[verifier::external_body]
pub struct ExSpkiError(rsa::pkcs8::spki::Error);

/// `postcard::Error`, handed on as it comes.
#[verifier::external_type_specification]
#[verifier::external_body]
pub struct ExPostcardError(postcard::Error);

/// Why an operation on a key gave no result. Each variant but the first
/// carries the error of the crate that refused, for the caller to show.
#[derive(Debug)]
pub enum KeyError {
    /// The private key lists fewer than two primes.
    TooFewPrimes,
    /// The `rsa` crate turned the key, the message or the ciphertext down.
    Rsa(rsa::errors::Error),
    /// The private key document could not be written or read.
    Pkcs8(rsa::pkcs8::Error),
    /// The public key document could not be written.
    Spki(rsa::pkcs8::spki::Error),
    /// The binary form of the private key could not be written or read.
    Postcard(postcard::Error),
}

/// A `KeyError` without the details that the refusing crate gave.
pub ghost enum Refusal {
    TooFewPrimes,
    Rsa,
    Pkcs8,
    Spki,
    Postcard,
}

impl View for KeyError {
    type V = Refusal;

    open spec fn view(&self) -> Refusal {
        match self {
            KeyError::TooFewPrimes => Refusal::TooFewPrimes,
            KeyError::Rsa(_) => Refusal::Rsa,
            KeyError::Pkcs8(_) => Refusal::Pkcs8,
            KeyError::Spki(_) => Refusal::Spki,
            KeyError::Postcard(_) => Refusal::Postcard,
        }
    }
}

/// A result as contracts see it: the value by its view, the error by its
/// kind.
pub open spec fn outcome<T: View>(r: Result<T, KeyError>) -> Result<T::V, Refusal> {
    match r {
        Ok(v) => Ok(v@),
        Err(e) => Err(e@),
    }
}

} // verus!
