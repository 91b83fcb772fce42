//! Which files a run leaves behind, and what each of them holds.

use vstd::prelude::*;
use vstd::string::StrSliceExecFns;
use vstd::utf8::encode_utf8;
use crate::codec::{
    private_key_pem, private_pem_spec, public_key_pem, public_pem_spec, serialize_spec,
    serialize_to_bin,
};
use crate::errors::{KeyError, Refusal};
use crate::keys::{PrivateKey, PrivateKeyView, PublicKey, PublicKeyView};
use crate::options::Options;
use crate::paths::append_to_path;

verus! {

/// One file to write: the whole content, replacing what the path held.
#[derive(Clone, Debug)]
pub struct FileWrite {
    /// Where the file goes: the bytes of its path.
    pub path: Vec<u8>,
    /// What it holds.
    pub contents: Vec<u8>,
    /// Whether the file holds a secret, and is to be readable by its owner
    /// only.
    pub owner_only: bool,
}

/// A `FileWrite` with its path and content as sequences.
pub ghost struct FileWriteView {
    pub path: Seq<u8>,
    pub contents: Seq<u8>,
    pub owner_only: bool,
}

impl View for FileWrite {
    type V = FileWriteView;

    open spec fn view(&self) -> FileWriteView {
        FileWriteView { path: self.path@, contents: self.contents@, owner_only: self.owner_only }
    }
}

impl DeepView for FileWrite {
    type V = FileWriteView;

    open spec fn deep_view(&self) -> FileWriteView {
        self@
    }
}

/// The files of one run, in the order in which they are written: the
/// private key as PEM where there is a document for it, its binary form
/// beside it under the same path with `.bin` appended, the public key as
/// PEM, and the ciphertext. Only the private key's PEM file is marked as
/// secret.
pub open spec fn layout(
    options: &Options,
    data: Seq<u8>,
    priv_pem: Option<Seq<char>>,
    priv_bin: Seq<u8>,
    pub_pem: Seq<char>,
) -> Seq<FileWriteView> {
    let first = match priv_pem {
        Some(text) => seq![
            FileWriteView {
                path: options.priv_key_dir@,
                contents: encode_utf8(text),
                owner_only: true,
            },
        ],
        None => seq![],
    };
    first + seq![
        FileWriteView {
            path: options.priv_key_dir@ + encode_utf8(".bin"@),
            contents: priv_bin,
            owner_only: false,
        },
        FileWriteView {
            path: options.pub_key_dir@,
            contents: encode_utf8(pub_pem),
            owner_only: false,
        },
        FileWriteView { path: options.output_file_dir@, contents: data, owner_only: false },
    ]
}

/// The files that hold the given ciphertext and documents: see `layout`.
pub fn file_writes(
    options: &Options,
    data: &Vec<u8>,
    priv_pem: Option<String>,
    priv_bin: Vec<u8>,
    pub_pem: String,
) -> (w: Vec<FileWrite>)
    ensures
        w.deep_view() == layout(
            options,
            data@,
            match priv_pem {
                Some(text) => Some(text@),
                None => None,
            },
            priv_bin@,
            pub_pem@,
        ),
{
    let mut w: Vec<FileWrite> = Vec::new();
    if let Some(text) = &priv_pem {
        w.push(
            FileWrite {
                path: options.priv_key_dir.clone(),
                contents: text.as_str().as_bytes_vec(),
                owner_only: true,
            },
        );
    }
    w.push(
        FileWrite {
            path: append_to_path(options.priv_key_dir.clone(), ".bin"),
            contents: priv_bin,
            owner_only: false,
        },
    );
    w.push(
        FileWrite {
            path: options.pub_key_dir.clone(),
            contents: pub_pem.as_str().as_bytes_vec(),
            owner_only: false,
        },
    );
    w.push(
        FileWrite { path: options.output_file_dir.clone(), contents: data.clone(), owner_only: false },
    );
    assert(w.deep_view() =~= layout(
        options,
        data@,
        match priv_pem {
            Some(text) => Some(text@),
            None => None,
        },
        priv_bin@,
        pub_pem@,
    ));
    w
}

/// What `save` returns. The private key's PEM document is made only when
/// the options ask for a new key: a stored key already has its file. The
/// first document that cannot be made decides the error, in the order
/// private PEM, binary form, public PEM.
pub open spec fn save_spec(
    options: &Options,
    data: Seq<u8>,
    priv_key: PrivateKeyView,
    pub_key: PublicKeyView,
) -> Result<Seq<FileWriteView>, Refusal> {
    let priv_pem = if options.regenerate_priv_key {
        match private_pem_spec(priv_key) {
            Ok(text) => Ok(Some(text)),
            Err(e) => Err(e),
        }
    } else {
        Ok(None)
    };
    match priv_pem {
        Err(e) => Err(e),
        Ok(priv_pem) => match serialize_spec(priv_key) {
            Err(e) => Err(e),
            Ok(priv_bin) => match public_pem_spec(pub_key) {
                Err(e) => Err(e),
                Ok(pub_pem) => Ok(layout(options, data, priv_pem, priv_bin, pub_pem)),
            },
        },
    }
}

/// The result of `save` as contracts see it: each file by its view, the
/// error by its kind.
pub open spec fn saved(r: Result<Vec<FileWrite>, KeyError>) -> Result<Seq<FileWriteView>, Refusal> {
    match r {
        Ok(w) => Ok(w.deep_view()),
        Err(e) => Err(e@),
    }
}

/// The files that keep the ciphertext `data` and the two keys, for the
/// caller to write in this order.
pub fn save(options: &Options, data: &Vec<u8>, priv_key: &PrivateKey, pub_key: &PublicKey) -> (r:
    Result<Vec<FileWrite>, KeyError>)
    ensures
        saved(r) == save_spec(options, data@, priv_key@, pub_key@),
{
    let priv_pem = if options.regenerate_priv_key {
        match private_key_pem(priv_key) {
            Ok(text) => Some(text),
            Err(e) => {
                return Err(e);
            },
        }
    } else {
        None
    };
    let priv_bin = match serialize_to_bin(priv_key) {
        Ok(blob) => blob,
        Err(e) => {
            return Err(e);
        },
    };
    let pub_pem = match public_key_pem(pub_key) {
        Ok(text) => text,
        Err(e) => {
            return Err(e);
        },
    };
    Ok(file_writes(options, data, priv_pem, priv_bin, pub_pem))
}

} // verus!
