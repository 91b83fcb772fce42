use rsa_roundtrip::cipher::{decrypt, encrypt, generate_priv_key};
use rsa_roundtrip::codec::{
    deserialize_from_bin, load_priv_key, private_key_pem, public_key_pem, serialize_to_bin,
};
use rsa_roundtrip::errors::KeyError;
use rsa_roundtrip::keys::{PrivateKey, PublicKey};

/// The PEM document with this label and these lines of base64.
fn pem(label: &str, lines: &[&str]) -> String {
    format!("-----BEGIN {label}-----\n{}\n-----END {label}-----\n", lines.join("\n"))
}

fn key(n: &[u8], e: &[u8], d: &[u8], primes: &[&[u8]]) -> PrivateKey {
    PrivateKey {
        n: n.to_vec(),
        e: e.to_vec(),
        d: d.to_vec(),
        primes: primes.iter().map(|p| p.to_vec()).collect(),
    }
}

/// 15 = 3 * 5 with both exponents 3: the numbers fit, and that is all
/// that is asked of a key.
fn fifteen() -> PrivateKey {
    key(&[15], &[3], &[3], &[&[3], &[5]])
}

/// 3233 = 61 * 53, with the exponents 17 and 2753.
fn textbook() -> PrivateKey {
    key(&[0x0c, 0xa1], &[17], &[0x0a, 0xc1], &[&[61], &[53]])
}

#[test]
fn the_smallest_keys_have_documents() {
    assert_eq!(
        private_key_pem(&fifteen()).unwrap(),
        pem("PRIVATE KEY", &["MDECAQAwDQYJKoZIhvcNAQEBBQAEHTAbAgEAAgEPAgEDAgEDAgEDAgEFAgEBAgED", "AgEC"])
    );
    assert_eq!(
        private_key_pem(&textbook()).unwrap(),
        pem("PRIVATE KEY", &["MDMCAQAwDQYJKoZIhvcNAQEBBQAEHzAdAgEAAgIMoQIBEQICCsECAT0CATUCATUC", "ATECASY="])
    );
}

#[test]
fn the_smallest_keys_load_back() {
    let loaded = load_priv_key(&private_key_pem(&textbook()).unwrap()).unwrap();
    assert_eq!(loaded.n, vec![0x0c, 0xa1]);
    assert_eq!(loaded.e, vec![17]);
    assert_eq!(loaded.d, vec![0x0a, 0xc1]);
    assert_eq!(loaded.primes, vec![vec![61], vec![53]]);
}

#[test]
fn the_smallest_keys_have_binary_forms() {
    assert_eq!(serialize_to_bin(&fifteen()).unwrap(), vec![1, 15, 1, 3, 1, 3, 2, 1, 3, 1, 5]);
    assert_eq!(
        serialize_to_bin(&textbook()).unwrap(),
        vec![0x01, 0xa1, 0x19, 0x01, 0x11, 0x01, 0xc1, 0x15, 0x02, 0x01, 0x3d, 0x01, 0x35]
    );
    let back = deserialize_from_bin(&[0x01, 0xa1, 0x19, 0x01, 0x11, 0x01, 0xc1, 0x15, 0x02, 0x01, 0x3d, 0x01, 0x35])
        .unwrap();
    assert!(back.same_as(&textbook()));
}

#[test]
fn the_smallest_keys_have_no_room_for_a_message() {
    assert!(matches!(
        encrypt(&textbook().public_key(), &[]),
        Err(KeyError::Rsa(rsa::Error::MessageTooLong))
    ));
    assert!(matches!(decrypt(&textbook(), &[1]), Err(KeyError::Rsa(rsa::Error::Decryption))));
    assert!(matches!(decrypt(&fifteen(), &[2]), Err(KeyError::Rsa(rsa::Error::Decryption))));
    assert!(matches!(decrypt(&fifteen(), &[]), Err(KeyError::Rsa(rsa::Error::Decryption))));
}

#[test]
fn a_modulus_of_eleven_bytes_takes_the_empty_message_only() {
    let key = generate_priv_key(88).unwrap();
    assert_eq!(key.n.len(), 11);
    let ciphertext = encrypt(&key.public_key(), &[]).unwrap();
    assert_eq!(ciphertext.len(), 11);
    assert_eq!(decrypt(&key, &ciphertext).unwrap(), Vec::<u8>::new());
    assert!(matches!(
        encrypt(&key.public_key(), &[1]),
        Err(KeyError::Rsa(rsa::Error::MessageTooLong))
    ));
}

#[test]
fn a_generated_key_takes_messages_up_to_its_size_less_eleven() {
    let key = generate_priv_key(257).unwrap();
    assert_eq!(key.n.len(), 33);
    assert_eq!(key.n[0], 1);
    let longest = vec![0xabu8; 22];
    let ciphertext = encrypt(&key.public_key(), &longest).unwrap();
    assert_eq!(ciphertext.len(), 33);
    assert_eq!(decrypt(&key, &ciphertext).unwrap(), longest);
    assert!(matches!(
        encrypt(&key.public_key(), &vec![0xabu8; 23]),
        Err(KeyError::Rsa(rsa::Error::MessageTooLong))
    ));
}

#[test]
fn a_modulus_below_the_public_exponent_makes_no_key() {
    assert!(matches!(generate_priv_key(12), Err(KeyError::Rsa(_))));
    assert!(matches!(generate_priv_key(16), Err(KeyError::Rsa(_))));
}

#[test]
fn three_small_primes_make_a_key() {
    let k = key(&[105], &[5], &[5], &[&[3], &[5], &[7]]);
    assert_eq!(serialize_to_bin(&k).unwrap(), vec![1, 105, 1, 5, 1, 5, 3, 1, 3, 1, 5, 1, 7]);
    assert!(matches!(private_key_pem(&k), Err(KeyError::Pkcs8(_))));
    assert!(matches!(decrypt(&k, &[2]), Err(KeyError::Rsa(rsa::Error::Decryption))));
    assert!(matches!(decrypt(&k, &[200]), Err(KeyError::Rsa(rsa::Error::Decryption))));
}

#[test]
fn a_prime_given_twice_makes_a_key_without_a_document() {
    let k = key(&[25], &[3], &[3], &[&[5], &[5]]);
    assert_eq!(serialize_to_bin(&k).unwrap(), vec![1, 25, 1, 3, 1, 3, 2, 1, 5, 1, 5]);
    assert!(matches!(private_key_pem(&k), Err(KeyError::Pkcs8(_))));
    assert!(matches!(decrypt(&k, &[2]), Err(KeyError::Rsa(rsa::Error::Internal))));
}

#[test]
fn numbers_that_do_not_fit_are_refused() {
    // nothing at all
    let k = key(&[], &[], &[], &[&[], &[]]);
    assert!(matches!(serialize_to_bin(&k), Err(KeyError::Rsa(rsa::Error::InvalidModulus))));
    assert!(matches!(private_key_pem(&k), Err(KeyError::Rsa(rsa::Error::InvalidModulus))));
    assert!(matches!(decrypt(&k, &[]), Err(KeyError::Rsa(rsa::Error::InvalidModulus))));
    // an even public exponent
    let k = key(&[15], &[2], &[3], &[&[3], &[5]]);
    assert!(matches!(serialize_to_bin(&k), Err(KeyError::Rsa(rsa::Error::InvalidExponent))));
    // a public exponent of one
    let k = key(&[15], &[1], &[1], &[&[3], &[5]]);
    assert!(matches!(serialize_to_bin(&k), Err(KeyError::Rsa(rsa::Error::PublicExponentTooSmall))));
    // an even modulus
    let k = key(&[6], &[3], &[3], &[&[2], &[3]]);
    assert!(matches!(serialize_to_bin(&k), Err(KeyError::Rsa(rsa::Error::InvalidModulus))));
    // a prime of zero, a prime of one
    let k = key(&[15], &[3], &[3], &[&[0], &[15]]);
    assert!(matches!(serialize_to_bin(&k), Err(KeyError::Rsa(rsa::Error::InvalidPrime))));
    let k = key(&[15], &[3], &[3], &[&[1], &[15]]);
    assert!(matches!(serialize_to_bin(&k), Err(KeyError::Rsa(rsa::Error::InvalidPrime))));
    // primes whose product is another number
    let k = key(&[15], &[3], &[3], &[&[3], &[7]]);
    assert!(matches!(serialize_to_bin(&k), Err(KeyError::Rsa(rsa::Error::InvalidModulus))));
    let k = key(&[15], &[3], &[3], &[&[3], &[5], &[3]]);
    assert!(matches!(serialize_to_bin(&k), Err(KeyError::Rsa(rsa::Error::InvalidModulus))));
    // a private exponent that does not undo the public one
    let k = key(&[15], &[3], &[5], &[&[3], &[5]]);
    assert!(matches!(serialize_to_bin(&k), Err(KeyError::Rsa(rsa::Error::InvalidExponent))));
    let k = key(&[15], &[3], &[], &[&[3], &[5]]);
    assert!(matches!(serialize_to_bin(&k), Err(KeyError::Rsa(rsa::Error::InvalidExponent))));
}

#[test]
fn any_two_numbers_have_a_public_document() {
    let empty = PublicKey { n: vec![], e: vec![] };
    let zeros = PublicKey { n: vec![0], e: vec![0, 0] };
    assert_eq!(public_key_pem(&empty).unwrap(), public_key_pem(&zeros).unwrap());
    assert!(matches!(encrypt(&empty, &[]), Err(KeyError::Rsa(rsa::Error::InvalidModulus))));
}
