use rsa_roundtrip::cipher::{decrypt, encrypt};
use rsa_roundtrip::codec::{
    deserialize_from_bin, private_key_pem, public_key_pem, serialize_to_bin,
};
use rsa_roundtrip::errors::KeyError;
use rsa_roundtrip::keys::{PrivateKey, PublicKey};

/// What is asked of a key, worked out on machine integers.
fn fits(n: u64, e: u64, d: u64, primes: &[u64]) -> bool {
    primes.len() >= 2
        && e >= 2
        && e % 2 == 1
        && e < n
        && n % 2 == 1
        && primes.iter().all(|p| *p > 1 && (e * d) % (p - 1) == 1)
        && primes.iter().product::<u64>() == n
}

fn private_key(n: u64, e: u64, d: u64, primes: &[u64]) -> PrivateKey {
    PrivateKey {
        n: n.to_be_bytes().to_vec(),
        e: e.to_be_bytes().to_vec(),
        d: d.to_be_bytes().to_vec(),
        primes: primes.iter().map(|p| p.to_be_bytes().to_vec()).collect(),
    }
}

/// Every key of two or three small numbers for primes, with small
/// exponents and a modulus that is or is not their product: each call
/// answers, and takes the key exactly when the numbers fit.
#[test]
fn small_numbers_are_taken_exactly_when_they_fit() {
    let candidates: [u64; 8] = [0, 1, 2, 3, 5, 7, 9, 11];
    let mut taken: u32 = 0;
    let mut refused: u32 = 0;
    for p in candidates {
        for q in candidates {
            for r in [None, Some(3u64), Some(7u64), Some(0u64)] {
                let mut primes: Vec<u64> = vec![p, q];
                primes.extend(r);
                let product: u64 = primes.iter().product();
                for n in [product, product + 2, 15, 0] {
                    for e in [0u64, 1, 2, 3, 5, 7] {
                        for d in 0u64..13 {
                            let key = private_key(n, e, d, &primes);
                            let expected = fits(n, e, d, &primes);
                            let blob = serialize_to_bin(&key);
                            let pem = private_key_pem(&key);
                            let plain = decrypt(&key, &[2]);
                            if expected {
                                taken += 1;
                                assert!(blob.is_ok());
                                assert!(matches!(pem, Ok(_) | Err(KeyError::Pkcs8(_))));
                                assert!(matches!(plain, Err(KeyError::Rsa(_))));
                                assert!(deserialize_from_bin(&blob.unwrap()).unwrap().same_as(&key));
                            } else {
                                refused += 1;
                                assert!(matches!(blob, Err(KeyError::Rsa(_))));
                                assert!(matches!(pem, Err(KeyError::Rsa(_))));
                                assert!(matches!(plain, Err(KeyError::Rsa(_))));
                            }
                        }
                    }
                }
            }
        }
    }
    assert!(taken > 0);
    assert!(refused > taken);
}

/// Every public key of small numbers: encryption is refused, for want of
/// room if for nothing else, and the document is always there.
#[test]
fn small_public_keys_are_answered() {
    for n in 0u64..64 {
        for e in 0u64..16 {
            let key = PublicKey { n: n.to_be_bytes().to_vec(), e: e.to_be_bytes().to_vec() };
            assert!(matches!(encrypt(&key, &[]), Err(KeyError::Rsa(_))));
            assert!(public_key_pem(&key).is_ok());
        }
    }
}

/// Any bytes at all may be handed in as a binary form or as a ciphertext.
#[test]
fn short_byte_strings_are_answered() {
    let key = private_key(15, 3, 3, &[3, 5]);
    for a in 0u8..=255 {
        for b in [0u8, 1, 2, 0x7f, 0x80, 0xff] {
            for len in 0usize..6 {
                let bytes: Vec<u8> = [a, b, a, b, a][..len.min(5)].to_vec();
                let read = deserialize_from_bin(&bytes);
                assert!(matches!(read, Ok(_) | Err(KeyError::Postcard(_))));
                assert!(matches!(decrypt(&key, &bytes), Err(KeyError::Rsa(_))));
            }
        }
    }
}
