//! What the user asked for, and what follows from it before any key is
//! touched: where the payload comes from and where the key comes from.

use vstd::prelude::*;
use vstd::string::StrSliceExecFns;
use vstd::utf8::encode_utf8;

verus! {

/// The settings of one run. Each path is held as its bytes.
#[derive(Clone, Debug)]
pub struct Options {
    /// The payload itself, as text.
    pub input_data: Option<String>,
    /// The file that holds the payload.
    pub input_file_dir: Option<Vec<u8>>,
    /// Where the ciphertext goes.
    pub output_file_dir: Vec<u8>,
    /// Where the private key is read from, or written to when a new one
    /// is made.
    pub priv_key_dir: Vec<u8>,
    /// Whether to make a new private key in place of the stored one.
    pub regenerate_priv_key: bool,
    /// The size in bits of a new key's modulus.
    pub bit_size: usize,
    /// Where the public key goes.
    pub pub_key_dir: Vec<u8>,
}

/// Where the payload comes from.
#[derive(Debug)]
pub enum InputSource {
    /// These bytes are the payload.
    Data(Vec<u8>),
    /// The payload is the content of the file at this path.
    File(Vec<u8>),
}

/// Where the private key comes from.
#[derive(Debug)]
pub enum KeySource {
    /// A new key of this many bits is made.
    Generate(usize),
    /// The key is read from the PEM file at this path.
    Load(Vec<u8>),
}

/// An `InputSource` with its bytes as a sequence.
pub ghost enum InputSourceView {
    Data(Seq<u8>),
    File(Seq<u8>),
}

/// A `KeySource` with its path as a sequence.
pub ghost enum KeySourceView {
    Generate(usize),
    Load(Seq<u8>),
}

impl View for InputSource {
    type V = InputSourceView;

    open spec fn view(&self) -> InputSourceView {
        match self {
            InputSource::Data(bytes) => InputSourceView::Data(bytes@),
            InputSource::File(path) => InputSourceView::File(path@),
        }
    }
}

impl View for KeySource {
    type V = KeySourceView;

    open spec fn view(&self) -> KeySourceView {
        match self {
            KeySource::Generate(bits) => KeySourceView::Generate(*bits),
            KeySource::Load(path) => KeySourceView::Load(path@),
        }
    }
}

impl Options {
    /// Where the payload comes from: the text given on the command line,
    /// as its UTF-8 bytes, wins over a file; with neither there is none.
    pub open spec fn input_source_spec(&self) -> Option<InputSourceView> {
        match self.input_data {
            Some(text) => Some(InputSourceView::Data(encode_utf8(text@))),
            None => match self.input_file_dir {
                Some(path) => Some(InputSourceView::File(path@)),
                None => None,
            },
        }
    }

    /// Where the private key comes from: a new one of `bit_size` bits when
    /// asked to regenerate, else the file at `priv_key_dir`.
    pub open spec fn key_source_spec(&self) -> KeySourceView {
        if self.regenerate_priv_key {
            KeySourceView::Generate(self.bit_size)
        } else {
            KeySourceView::Load(self.priv_key_dir@)
        }
    }

    /// Where the payload comes from, or `None` when the options name
    /// neither a text nor a file.
    pub fn input_source(&self) -> (r: Option<InputSource>)
        ensures
            match r {
                Some(source) => self.input_source_spec() == Some(source@),
                None => self.input_source_spec().is_none(),
            },
    {
        match &self.input_data {
            Some(text) => Some(InputSource::Data(text.as_str().as_bytes_vec())),
            None => match &self.input_file_dir {
                Some(path) => Some(InputSource::File(path.clone())),
                None => None,
            },
        }
    }

    /// Where the private key comes from.
    pub fn key_source(&self) -> (r: KeySource)
        ensures
            r@ == self.key_source_spec(),
    {
        if self.regenerate_priv_key {
            KeySource::Generate(self.bit_size)
        } else {
            KeySource::Load(self.priv_key_dir.clone())
        }
    }
}

impl Default for Options {
    /// The options of a command line that sets nothing: no payload, the
    /// stored key, 4096 bits for a new one, and the three files in the
    /// working directory.
    fn default() -> (r: Options)
        ensures
            r.input_data is None,
            r.input_file_dir is None,
            r.output_file_dir@ == encode_utf8("./encrypted_data"@),
            r.priv_key_dir@ == encode_utf8("./privkey"@),
            !r.regenerate_priv_key,
            r.bit_size == 4096,
            r.pub_key_dir@ == encode_utf8("./pubkey"@),
    {
        Options {
            input_data: None,
            input_file_dir: None,
            output_file_dir: "./encrypted_data".as_bytes_vec(),
            priv_key_dir: "./privkey".as_bytes_vec(),
            regenerate_priv_key: false,
            bit_size: 4096,
            pub_key_dir: "./pubkey".as_bytes_vec(),
        }
    }
}

} // verus!
