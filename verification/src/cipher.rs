//! Key generation, encryption and decryption, done by the `rsa` crate.

use vstd::prelude::*;
use vstd::arithmetic::power::pow;
use rsa::traits::{PrivateKeyParts, PublicKeyParts};
use rsa::{BigUint, Pkcs1v15Encrypt, RsaPrivateKey, RsaPublicKey};
use crate::errors::{outcome, KeyError, Refusal};
use crate::keys::{lemma_swap_keeps_accepted, PrivateKey, PrivateKeyView, PublicKey, PublicKeyView};
use crate::numbers::{be_value, bit_len, byte_len, lemma_byte_len_from_bits};

verus! {

/// What `RsaPrivateKey::decrypt` makes of `ciphertext` under an accepted
/// key with PKCS#1 v1.5 padding: the message, or nothing where it reports
/// an error.
pub uninterp spec fn pkcs1v15_decrypted(key: PrivateKeyView, ciphertext: Seq<u8>) -> Option<Seq<u8>>;

/// The block that PKCS#1 v1.5 makes of a message before encryption: a
/// zero byte, a two, the padding, a zero byte, the message.
pub open spec fn padded_block(padding: Seq<u8>, msg: Seq<u8>) -> Seq<u8> {
    seq![0u8, 2u8] + padding + seq![0u8] + msg
}

/// Whether `ciphertext` is `msg` encrypted under `key` with this padding:
/// the padding has no zero byte and fills the block up to the length of
/// the modulus, and the ciphertext spells, in as many bytes, the block
/// raised to the public exponent modulo the modulus.
pub open spec fn encrypts_to(
    key: PublicKeyView,
    msg: Seq<u8>,
    padding: Seq<u8>,
    ciphertext: Seq<u8>,
) -> bool {
    &&& forall|i: int| 0 <= i < padding.len() ==> padding[i] != 0
    &&& padded_block(padding, msg).len() == byte_len(key.n)
    &&& ciphertext.len() == byte_len(key.n)
    &&& be_value(ciphertext) == pow(be_value(padded_block(padding, msg)) as int, key.e)
        % (key.n as int)
}

/// Whether `ciphertext` is `msg` encrypted under `key` with some padding.
pub open spec fn is_ciphertext(key: PublicKeyView, msg: Seq<u8>, ciphertext: Seq<u8>) -> bool {
    exists|padding: Seq<u8>| #[trigger] encrypts_to(key, msg, padding, ciphertext)
}

/// `RsaPrivateKey::new` with the thread's random number generator. The
/// key is random. From 64 bits on one always comes back; below, the call
/// may refuse. A key that comes back has passed the checks of
/// `RsaPrivateKey::from_components`; its modulus has exactly `bit_size`
/// bits, its public exponent is 65537, and it has two primes.
#[verifier::external_body]
fn rsa_generate(bit_size: usize) -> (r: Result<PrivateKey, rsa::errors::Error>)
    ensures
        match r {
            Ok(k) => k@.accepted() && bit_len(k@.n) == bit_size && k@.e == 65537
                && k@.primes.len() == 2,
            Err(_) => bit_size < 64,
        },
{
    let k = RsaPrivateKey::new(&mut rand::thread_rng(), bit_size)?;
    Ok(PrivateKey {
        n: k.n().to_bytes_be(),
        e: k.e().to_bytes_be(),
        d: k.d().to_bytes_be(),
        primes: k.primes().iter().map(|p| p.to_bytes_be()).collect(),
    })
}

/// `RsaPublicKey::encrypt` with PKCS#1 v1.5 padding and the thread's
/// random number generator, on the key that `RsaPublicKey::new_unchecked`
/// holds the numbers in. A ciphertext comes back exactly when the key
/// passes `check_public` and the message is at least eleven bytes shorter
/// than the modulus. The padding is random, so the ciphertext is not a
/// function of the arguments; it is the padded block raised to the public
/// exponent modulo the modulus, spelled in as many bytes as the modulus.
#[verifier::external_body]
fn rsa_encrypt(key: &PublicKey, msg: &[u8]) -> (r: Result<Vec<u8>, rsa::errors::Error>)
    ensures
        match r {
            Ok(c) => can_encrypt(key@, msg@) && is_ciphertext(key@, msg@, c@),
            Err(_) => !can_encrypt(key@, msg@),
        },
{
    let k = RsaPublicKey::new_unchecked(BigUint::from_bytes_be(&key.n), BigUint::from_bytes_be(&key.e));
    k.encrypt(&mut rand::thread_rng(), Pkcs1v15Encrypt, msg)
}

/// `RsaPrivateKey::decrypt` with PKCS#1 v1.5 padding, on the key that
/// `RsaPrivateKey::from_components` builds from the numbers. Given two
/// primes or more, that call turns down exactly the keys that are not
/// `accepted`; given none it would look for the primes itself, which is
/// kept out here. Kept out too are keys whose second prime takes over a
/// byte more than the first: the decryption adds the first prime to a
/// number above minus the second until it is no longer negative, once
/// for each time that the first goes into the second. The message is a
/// function of the numbers and the ciphertext. An error of either call
/// comes back as `KeyError::Rsa`.
#[verifier::external_body]
fn rsa_decrypt(key: &PrivateKey, ciphertext: &[u8]) -> (r: Result<Vec<u8>, KeyError>)
    requires
        key@.primes.len() >= 2,
        !key@.second_prime_far_longer(),
    ensures
        match r {
            Ok(m) => key@.accepted() && pkcs1v15_decrypted(key@, ciphertext@) == Some(m@),
            Err(KeyError::Rsa(_)) => !key@.accepted() || pkcs1v15_decrypted(
                key@,
                ciphertext@,
            ).is_none(),
            Err(_) => false,
        },
{
    let k = RsaPrivateKey::from_components(
        BigUint::from_bytes_be(&key.n),
        BigUint::from_bytes_be(&key.e),
        BigUint::from_bytes_be(&key.d),
        key.primes.iter().map(|p| BigUint::from_bytes_be(p)).collect(),
    ).map_err(KeyError::Rsa)?;
    k.decrypt(Pkcs1v15Encrypt, ciphertext).map_err(KeyError::Rsa)
}

/// A new random key whose modulus has `bit_size` bits.
///
/// From 64 bits on a key always comes back, after a time that grows
/// steeply with the size. With fewer bits the `rsa` crate may refuse, and
/// does where two primes and the public exponent find no room. Which key
/// comes back is up to chance. It is one that the `rsa` crate accepts,
/// with a modulus of exactly `bit_size` bits, the public exponent 65537
/// and two primes.
pub fn generate_priv_key(bit_size: usize) -> (r: Result<PrivateKey, KeyError>)
    ensures
        match r {
            Ok(k) => k@.accepted() && bit_len(k@.n) == bit_size && k@.e == 65537
                && k@.primes.len() == 2,
            Err(e) => e@ == Refusal::Rsa && bit_size < 64,
        },
{
    match rsa_generate(bit_size) {
        Ok(k) => Ok(k),
        Err(e) => Err(KeyError::Rsa(e)),
    }
}

/// Whether `encrypt` gives a ciphertext: the key must be one that the
/// `rsa` crate accepts, and the message at least eleven bytes shorter
/// than the modulus.
pub open spec fn can_encrypt(key: PublicKeyView, msg: Seq<u8>) -> bool {
    key.accepted() && msg.len() + 11 <= byte_len(key.n)
}

/// A private key of `bits` bits that the `rsa` crate accepts, such as
/// `generate_priv_key` returns, has a public half under which every
/// message of up to `(bits + 7) / 8 - 11` bytes can be encrypted.
pub proof fn lemma_room_for_message(key: PrivateKeyView, bits: nat, msg: Seq<u8>)
    requires
        key.accepted(),
        bit_len(key.n) == bits,
        msg.len() + 11 <= (bits + 7) / 8,
    ensures
        can_encrypt(key.public_part(), msg),
{
    lemma_byte_len_from_bits(key.n);
}

/// `msg` encrypted under `key` with PKCS#1 v1.5 padding.
///
/// The padding is random: two calls give different ciphertexts. Each is
/// the block of `padded_block`, with some padding free of zero bytes,
/// raised to the public exponent modulo the modulus, and as long as the
/// modulus.
pub fn encrypt(key: &PublicKey, msg: &[u8]) -> (r: Result<Vec<u8>, KeyError>)
    ensures
        match r {
            Ok(c) => can_encrypt(key@, msg@) && is_ciphertext(key@, msg@, c@) && c@.len()
                == byte_len(key@.n),
            Err(e) => !can_encrypt(key@, msg@) && e@ == Refusal::Rsa,
        },
{
    match rsa_encrypt(key, msg) {
        Ok(c) => Ok(c),
        Err(e) => Err(KeyError::Rsa(e)),
    }
}

/// What `decrypt` returns: what the `rsa` crate makes of the ciphertext
/// under the key as `for_decryption` hands it over.
pub open spec fn decrypt_spec(key: PrivateKeyView, ciphertext: Seq<u8>) -> Result<Seq<u8>, Refusal> {
    if key.primes.len() < 2 {
        Err(Refusal::TooFewPrimes)
    } else if !key.accepted() {
        Err(Refusal::Rsa)
    } else {
        match pkcs1v15_decrypted(key.for_decryption(), ciphertext) {
            Some(m) => Ok(m),
            None => Err(Refusal::Rsa),
        }
    }
}

/// The message that `ciphertext` holds under `key`, PKCS#1 v1.5 padding
/// removed.
///
/// Every key with two primes or more that the `rsa` crate accepts is
/// decrypted under. A key with fewer is refused before the crate sees
/// it. A key whose second prime takes over a byte more than the first is
/// handed over with the two in each other's place, which keeps the
/// crate's decryption short; the key is as much a key either way.
pub fn decrypt(key: &PrivateKey, ciphertext: &[u8]) -> (r: Result<Vec<u8>, KeyError>)
    ensures
        outcome(r) == decrypt_spec(key@, ciphertext@),
{
    if key.primes.len() < 2 {
        return Err(KeyError::TooFewPrimes);
    }
    let ordered = key.for_decryption();
    proof {
        lemma_swap_keeps_accepted(key@);
    }
    rsa_decrypt(&ordered, ciphertext)
}

} // verus!
