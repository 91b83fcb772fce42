//! The check after saving: what was stored must decrypt to the payload,
//! and the binary form of the private key must hold the key that the PEM
//! file holds.

use vstd::prelude::*;
use vstd::utf8::encode_utf8;
use crate::cipher::{decrypt, decrypt_spec};
use crate::codec::{deserialize_from_bin, deserialize_spec, load_priv_key, load_spec};
use crate::errors::{outcome, KeyError, Refusal};
use crate::keys::{PrivateKey, PrivateKeyView};
use crate::options::Options;
use crate::paths::append_to_path;

verus! {

/// Why the check failed. The steps come in the order of the variants, and
/// the first one that fails decides.
#[derive(Debug)]
pub enum CheckError {
    /// The private key's PEM file does not hold a key.
    KeyUnreadable(KeyError),
    /// The ciphertext does not decrypt under the stored key.
    NotDecrypted(KeyError),
    /// The ciphertext decrypts to something else than the payload.
    PayloadDiffers,
    /// The private key's binary form does not hold a key.
    BinUnreadable(KeyError),
    /// The binary form holds another key than the PEM file.
    KeyDiffers,
}

/// A `CheckError` without the details that a refusing crate gave.
pub ghost enum CheckFailure {
    KeyUnreadable(Refusal),
    NotDecrypted(Refusal),
    PayloadDiffers,
    BinUnreadable(Refusal),
    KeyDiffers,
}

impl View for CheckError {
    type V = CheckFailure;

    open spec fn view(&self) -> CheckFailure {
        match self {
            CheckError::KeyUnreadable(e) => CheckFailure::KeyUnreadable(e@),
            CheckError::NotDecrypted(e) => CheckFailure::NotDecrypted(e@),
            CheckError::PayloadDiffers => CheckFailure::PayloadDiffers,
            CheckError::BinUnreadable(e) => CheckFailure::BinUnreadable(e@),
            CheckError::KeyDiffers => CheckFailure::KeyDiffers,
        }
    }
}

/// The result of a check as contracts see it.
pub open spec fn verdict(r: Result<(), CheckError>) -> Result<(), CheckFailure> {
    match r {
        Ok(()) => Ok(()),
        Err(e) => Err(e@),
    }
}

/// The files that the check reads.
#[derive(Debug)]
pub struct CheckFiles {
    /// The path of the ciphertext.
    pub encrypted: Vec<u8>,
    /// The path of the private key as PEM.
    pub priv_key_pem: Vec<u8>,
    /// The path of the private key in binary form.
    pub priv_key_bin: Vec<u8>,
}

/// The files that the check reads under these options: the ciphertext
/// and the binary form of the private key, where `save` puts them, and the
/// private key's PEM file.
pub fn check_files(options: &Options) -> (r: CheckFiles)
    ensures
        r.encrypted@ == options.output_file_dir@,
        r.priv_key_pem@ == options.priv_key_dir@,
        r.priv_key_bin@ == options.priv_key_dir@ + encode_utf8(".bin"@),
{
    CheckFiles {
        encrypted: options.output_file_dir.clone(),
        priv_key_pem: options.priv_key_dir.clone(),
        priv_key_bin: append_to_path(options.priv_key_dir.clone(), ".bin"),
    }
}

/// Whether a decryption gave the expected payload: it must have given
/// something, and that must be the payload byte for byte.
pub open spec fn payload_verdict(
    expected: Seq<u8>,
    decrypted: Result<Seq<u8>, Refusal>,
) -> Result<(), CheckFailure> {
    match decrypted {
        Err(e) => Err(CheckFailure::NotDecrypted(e)),
        Ok(data) => if data == expected {
            Ok(())
        } else {
            Err(CheckFailure::PayloadDiffers)
        },
    }
}

/// Whether the binary form gave the key back: it must have given a key,
/// and that must be the same key.
pub open spec fn key_verdict(
    key: PrivateKeyView,
    read_back: Result<PrivateKeyView, Refusal>,
) -> Result<(), CheckFailure> {
    match read_back {
        Err(e) => Err(CheckFailure::BinUnreadable(e)),
        Ok(other) => if other == key {
            Ok(())
        } else {
            Err(CheckFailure::KeyDiffers)
        },
    }
}

/// What `check_decryption` returns: the key that the PEM text holds, once
/// the ciphertext has decrypted under it to the payload.
pub open spec fn check_decryption_spec(
    expected_data: Seq<u8>,
    encrypted_data: Seq<u8>,
    priv_key_pem: Seq<char>,
) -> Result<PrivateKeyView, CheckFailure> {
    match load_spec(priv_key_pem) {
        Err(e) => Err(CheckFailure::KeyUnreadable(e)),
        Ok(key) => match payload_verdict(expected_data, decrypt_spec(key, encrypted_data)) {
            Err(e) => Err(e),
            Ok(()) => Ok(key),
        },
    }
}

/// What `check` returns.
pub open spec fn check_spec(
    expected_data: Seq<u8>,
    encrypted_data: Seq<u8>,
    priv_key_pem: Seq<char>,
    priv_key_bin: Seq<u8>,
) -> Result<(), CheckFailure> {
    match check_decryption_spec(expected_data, encrypted_data, priv_key_pem) {
        Err(e) => Err(e),
        Ok(key) => key_verdict(key, deserialize_spec(priv_key_bin)),
    }
}

/// Whether `key` is the key that the PEM text holds, under which the
/// ciphertext decrypts to the payload, and which the binary form holds
/// too.
pub open spec fn passes_with(
    key: PrivateKeyView,
    expected_data: Seq<u8>,
    encrypted_data: Seq<u8>,
    priv_key_pem: Seq<char>,
    priv_key_bin: Seq<u8>,
) -> bool {
    &&& load_spec(priv_key_pem) == Ok::<PrivateKeyView, Refusal>(key)
    &&& decrypt_spec(key, encrypted_data) == Ok::<Seq<u8>, Refusal>(expected_data)
    &&& deserialize_spec(priv_key_bin) == Ok::<PrivateKeyView, Refusal>(key)
}

/// The check passes exactly when the PEM text holds a key, the ciphertext
/// decrypts under that key to the payload, and the binary form holds the
/// same key.
pub proof fn lemma_check_passes(
    expected_data: Seq<u8>,
    encrypted_data: Seq<u8>,
    priv_key_pem: Seq<char>,
    priv_key_bin: Seq<u8>,
)
    ensures
        check_spec(expected_data, encrypted_data, priv_key_pem, priv_key_bin) is Ok <==> exists|
            key: PrivateKeyView,
        | #[trigger] passes_with(key, expected_data, encrypted_data, priv_key_pem, priv_key_bin),
{
    if check_spec(expected_data, encrypted_data, priv_key_pem, priv_key_bin) is Ok {
        let key = load_spec(priv_key_pem)->Ok_0;
        assert(passes_with(key, expected_data, encrypted_data, priv_key_pem, priv_key_bin));
    }
}

/// Whether `a` and `b` hold the same bytes.
pub fn same_bytes(a: &[u8], b: &[u8]) -> (r: bool)
    ensures
        r == (a@ == b@),
{
    if a.len() != b.len() {
        return false;
    }
    let mut i: usize = 0;
    while i < a.len()
        invariant
            i <= a@.len(),
            a@.len() == b@.len(),
            forall|j: int| 0 <= j < i ==> a@[j] == b@[j],
        decreases a@.len() - i,
    {
        if a[i] != b[i] {
            return false;
        }
        i += 1;
    }
    assert(a@ =~= b@);
    true
}

/// Judges what a decryption gave against the payload that went in.
pub fn judge_payload(expected_data: &[u8], decrypted: Result<Vec<u8>, KeyError>) -> (r: Result<
    (),
    CheckError,
>)
    ensures
        verdict(r) == payload_verdict(expected_data@, outcome(decrypted)),
{
    match decrypted {
        Err(e) => Err(CheckError::NotDecrypted(e)),
        Ok(data) => if same_bytes(expected_data, data.as_slice()) {
            Ok(())
        } else {
            Err(CheckError::PayloadDiffers)
        },
    }
}

/// Judges what the binary form gave against the key that was stored.
pub fn judge_key(key: &PrivateKey, read_back: Result<PrivateKey, KeyError>) -> (r: Result<
    (),
    CheckError,
>)
    ensures
        verdict(r) == key_verdict(key@, outcome(read_back)),
{
    match read_back {
        Err(e) => Err(CheckError::BinUnreadable(e)),
        Ok(other) => if key.same_as(&other) {
            Ok(())
        } else {
            Err(CheckError::KeyDiffers)
        },
    }
}

/// The first half of the check, which needs the ciphertext and the PEM
/// text only: the key is read from the text, and the ciphertext must
/// decrypt under it to `expected_data`. The key comes back for the second
/// half.
pub fn check_decryption(expected_data: &[u8], encrypted_data: &[u8], priv_key_pem: &str) -> (r:
    Result<PrivateKey, CheckError>)
    ensures
        match r {
            Ok(key) => check_decryption_spec(expected_data@, encrypted_data@, priv_key_pem@) == Ok::<
                PrivateKeyView,
                CheckFailure,
            >(key@),
            Err(e) => check_decryption_spec(expected_data@, encrypted_data@, priv_key_pem@) == Err::<
                PrivateKeyView,
                CheckFailure,
            >(e@),
        },
{
    let priv_key = match load_priv_key(priv_key_pem) {
        Ok(key) => key,
        Err(e) => {
            return Err(CheckError::KeyUnreadable(e));
        },
    };
    match judge_payload(expected_data, decrypt(&priv_key, encrypted_data)) {
        Ok(()) => Ok(priv_key),
        Err(e) => Err(e),
    }
}

/// The second half of the check, which needs the binary form: it must
/// hold the key that the first half read.
pub fn check_binary_form(priv_key: &PrivateKey, priv_key_bin: &[u8]) -> (r: Result<(), CheckError>)
    ensures
        verdict(r) == key_verdict(priv_key@, deserialize_spec(priv_key_bin@)),
{
    judge_key(priv_key, deserialize_from_bin(priv_key_bin))
}

/// Checks what was stored against the payload that went in.
///
/// `encrypted_data`, `priv_key_pem` and `priv_key_bin` are the contents
/// of the files that `check_files` names. The key is read from the PEM
/// text; the ciphertext must decrypt under it to `expected_data`; and the
/// binary form must hold the same key. A caller that reads the binary
/// form only once the payload has been found goes through the two halves
/// in turn.
pub fn check(
    expected_data: &[u8],
    encrypted_data: &[u8],
    priv_key_pem: &str,
    priv_key_bin: &[u8],
) -> (r: Result<(), CheckError>)
    ensures
        verdict(r) == check_spec(expected_data@, encrypted_data@, priv_key_pem@, priv_key_bin@),
{
    match check_decryption(expected_data, encrypted_data, priv_key_pem) {
        Ok(priv_key) => check_binary_form(&priv_key, priv_key_bin),
        Err(e) => Err(e),
    }
}

} // verus!
