//! Encrypts a payload under an RSA key, lays out the files that hold the
//! result, and checks that what was stored decrypts to the payload again.
//!
//! The library computes and decides; it reads and writes no file, and
//! holds each path as the bytes that the system spells it in. A run goes
//! through these steps, and the caller does the reading and writing
//! between them:
//!
//! 1. `options::Options::input_source` says where the payload comes from.
//! 2. `options::Options::key_source` says whether to make a key, with
//!    `cipher::generate_priv_key`, or to load one, with
//!    `codec::load_priv_key`.
//! 3. `keys::PrivateKey::public_key` and `cipher::encrypt` give the
//!    ciphertext.
//! 4. `store::save` lists the files to write.
//! 5. `selfcheck::check_files` names the files to read back, and
//!    `selfcheck::check` judges what they hold, in one call or in its
//!    two halves.
//!
//! The RSA arithmetic, the PEM documents and the binary form are the work
//! of the `rsa` and `postcard` crates. What is taken from them without
//! proof stands above each function that calls them, in `cipher` and
//! `codec`.

pub mod cipher;
pub mod codec;
pub mod errors;
pub mod keys;
pub mod numbers;
pub mod options;
pub mod paths;
pub mod selfcheck;
pub mod store;
