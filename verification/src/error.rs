//! The error taxonomy of the library.
//!
//! Crypto and codec faults are fatal to the channel, network faults to the
//! connection, and file-operation faults only to the single request that
//! raised them.

use vstd::prelude::*;
use vstd::string::{StrSliceExecFns, StringExecFns, StringSliceAdditionalSpecFns};
use crate::text::{spec_dec_bytes, spec_dec_chars, u64_to_dec_bytes, u64_to_dec_string};

verus! {

#[derive(Debug)]
pub enum FenrisError {
    EncryptionError(String),
    DecryptionError(String),
    InvalidKeySize { expected: usize, got: usize },
    InvalidIvSize { expected: usize, got: usize },
    CompressionError(String),
    DecompressionError(String),
    NetworkError(String),
    ConnectionClosed,
    InvalidProtocolMessage,
    InvalidRequest(String),
    MissingField(String),
    FileOperationError(String),
    SerializationError(String),
}

pub type FenrisResult<T> = Result<T, FenrisError>;

/// The human-readable text of an error, as characters.
pub open spec fn spec_error_message(e: &FenrisError) -> Seq<char> {
    match e {
        FenrisError::EncryptionError(s) => "Encryption error: "@ + s@,
        FenrisError::DecryptionError(s) => "Decryption error: "@ + s@,
        FenrisError::InvalidKeySize { expected, got } => "Invalid key size: expected "@
            + spec_dec_chars(*expected as nat) + ", got "@ + spec_dec_chars(*got as nat),
        FenrisError::InvalidIvSize { expected, got } => "Invalid IV size: expected "@
            + spec_dec_chars(*expected as nat) + ", got "@ + spec_dec_chars(*got as nat),
        FenrisError::CompressionError(s) => "Compression error: "@ + s@,
        FenrisError::DecompressionError(s) => "Decompression error: "@ + s@,
        FenrisError::NetworkError(s) => "Network error: "@ + s@,
        FenrisError::ConnectionClosed => "Connection closed"@,
        FenrisError::InvalidProtocolMessage => "Invalid protocol message"@,
        FenrisError::InvalidRequest(s) => "Invalid request: "@ + s@,
        FenrisError::MissingField(s) => "Missing required field: "@ + s@,
        FenrisError::FileOperationError(s) => "File operation failed: "@ + s@,
        FenrisError::SerializationError(s) => "Serialization error: "@ + s@,
    }
}

/// The same text as UTF-8 bytes, for the wire.
pub open spec fn spec_error_message_bytes(e: &FenrisError) -> Seq<u8> {
    match e {
        FenrisError::EncryptionError(s) => "Encryption error: ".spec_bytes()
            + vstd::utf8::encode_utf8(s@),
        FenrisError::DecryptionError(s) => "Decryption error: ".spec_bytes()
            + vstd::utf8::encode_utf8(s@),
        FenrisError::InvalidKeySize { expected, got } => "Invalid key size: expected ".spec_bytes()
            + spec_dec_bytes(*expected as nat) + ", got ".spec_bytes()
            + spec_dec_bytes(*got as nat),
        FenrisError::InvalidIvSize { expected, got } => "Invalid IV size: expected ".spec_bytes()
            + spec_dec_bytes(*expected as nat) + ", got ".spec_bytes()
            + spec_dec_bytes(*got as nat),
        FenrisError::CompressionError(s) => "Compression error: ".spec_bytes()
            + vstd::utf8::encode_utf8(s@),
        FenrisError::DecompressionError(s) => "Decompression error: ".spec_bytes()
            + vstd::utf8::encode_utf8(s@),
        FenrisError::NetworkError(s) => "Network error: ".spec_bytes()
            + vstd::utf8::encode_utf8(s@),
        FenrisError::ConnectionClosed => "Connection closed".spec_bytes(),
        FenrisError::InvalidProtocolMessage => "Invalid protocol message".spec_bytes(),
        FenrisError::InvalidRequest(s) => "Invalid request: ".spec_bytes()
            + vstd::utf8::encode_utf8(s@),
        FenrisError::MissingField(s) => "Missing required field: ".spec_bytes()
            + vstd::utf8::encode_utf8(s@),
        FenrisError::FileOperationError(s) => "File operation failed: ".spec_bytes()
            + vstd::utf8::encode_utf8(s@),
        FenrisError::SerializationError(s) => "Serialization error: ".spec_bytes()
            + vstd::utf8::encode_utf8(s@),
    }
}

impl FenrisError {
    /// The human-readable text of the error.
    pub fn message(&self) -> (r: String)
        ensures
            r@ == spec_error_message(self),
    {
        match self {
            FenrisError::EncryptionError(s) => {
                let mut m = String::from_str("Encryption error: ");
                m.append(s.as_str());
                m
            },
            FenrisError::DecryptionError(s) => {
                let mut m = String::from_str("Decryption error: ");
                m.append(s.as_str());
                m
            },
            FenrisError::InvalidKeySize { expected, got } => {
                let mut m = String::from_str("Invalid key size: expected ");
                m.append(u64_to_dec_string(*expected as u64).as_str());
                m.append(", got ");
                m.append(u64_to_dec_string(*got as u64).as_str());
                m
            },
            FenrisError::InvalidIvSize { expected, got } => {
                let mut m = String::from_str("Invalid IV size: expected ");
                m.append(u64_to_dec_string(*expected as u64).as_str());
                m.append(", got ");
                m.append(u64_to_dec_string(*got as u64).as_str());
                m
            },
            FenrisError::CompressionError(s) => {
                let mut m = String::from_str("Compression error: ");
                m.append(s.as_str());
                m
            },
            FenrisError::DecompressionError(s) => {
                let mut m = String::from_str("Decompression error: ");
                m.append(s.as_str());
                m
            },
            FenrisError::NetworkError(s) => {
                let mut m = String::from_str("Network error: ");
                m.append(s.as_str());
                m
            },
            FenrisError::ConnectionClosed => String::from_str("Connection closed"),
            FenrisError::InvalidProtocolMessage => String::from_str("Invalid protocol message"),
            FenrisError::InvalidRequest(s) => {
                let mut m = String::from_str("Invalid request: ");
                m.append(s.as_str());
                m
            },
            FenrisError::MissingField(s) => {
                let mut m = String::from_str("Missing required field: ");
                m.append(s.as_str());
                m
            },
            FenrisError::FileOperationError(s) => {
                let mut m = String::from_str("File operation failed: ");
                m.append(s.as_str());
                m
            },
            FenrisError::SerializationError(s) => {
                let mut m = String::from_str("Serialization error: ");
                m.append(s.as_str());
                m
            },
        }
    }

    /// The same text as UTF-8 bytes, for a `Response`'s `error_message` field.
    pub fn message_bytes(&self) -> (r: Vec<u8>)
        ensures
            r@ == spec_error_message_bytes(self),
    {
        match self {
            FenrisError::EncryptionError(s) => {
                let mut m = "Encryption error: ".as_bytes_vec();
                push_bytes(&mut m, s.as_str().as_bytes());
                m
            },
            FenrisError::DecryptionError(s) => {
                let mut m = "Decryption error: ".as_bytes_vec();
                push_bytes(&mut m, s.as_str().as_bytes());
                m
            },
            FenrisError::InvalidKeySize { expected, got } => {
                let mut m = "Invalid key size: expected ".as_bytes_vec();
                let mut e = u64_to_dec_bytes(*expected as u64);
                m.append(&mut e);
                push_bytes(&mut m, ", got ".as_bytes());
                let mut g = u64_to_dec_bytes(*got as u64);
                m.append(&mut g);
                m
            },
            FenrisError::InvalidIvSize { expected, got } => {
                let mut m = "Invalid IV size: expected ".as_bytes_vec();
                let mut e = u64_to_dec_bytes(*expected as u64);
                m.append(&mut e);
                push_bytes(&mut m, ", got ".as_bytes());
                let mut g = u64_to_dec_bytes(*got as u64);
                m.append(&mut g);
                m
            },
            FenrisError::CompressionError(s) => {
                let mut m = "Compression error: ".as_bytes_vec();
                push_bytes(&mut m, s.as_str().as_bytes());
                m
            },
            FenrisError::DecompressionError(s) => {
                let mut m = "Decompression error: ".as_bytes_vec();
                push_bytes(&mut m, s.as_str().as_bytes());
                m
            },
            FenrisError::NetworkError(s) => {
                let mut m = "Network error: ".as_bytes_vec();
                push_bytes(&mut m, s.as_str().as_bytes());
                m
            },
            FenrisError::ConnectionClosed => "Connection closed".as_bytes_vec(),
            FenrisError::InvalidProtocolMessage => "Invalid protocol message".as_bytes_vec(),
            FenrisError::InvalidRequest(s) => {
                let mut m = "Invalid request: ".as_bytes_vec();
                push_bytes(&mut m, s.as_str().as_bytes());
                m
            },
            FenrisError::MissingField(s) => {
                let mut m = "Missing required field: ".as_bytes_vec();
                push_bytes(&mut m, s.as_str().as_bytes());
                m
            },
            FenrisError::FileOperationError(s) => {
                let mut m = "File operation failed: ".as_bytes_vec();
                push_bytes(&mut m, s.as_str().as_bytes());
                m
            },
            FenrisError::SerializationError(s) => {
                let mut m = "Serialization error: ".as_bytes_vec();
                push_bytes(&mut m, s.as_str().as_bytes());
                m
            },
        }
    }
}

#[verifier::external_type_specification]
#[verifier::external_body]
pub struct ExIoError(std::io::Error);

impl From<std::io::Error> for FenrisError {
    /// An I/O fault carried as a network error, keeping its own text.
    fn from(e: std::io::Error) -> (r: FenrisError) {
        FenrisError::NetworkError(e.to_string())
    }
}

impl vstd::std_specs::convert::FromSpecImpl<std::io::Error> for FenrisError {
    open spec fn obeys_from_spec() -> bool {
        false
    }

    open spec fn from_spec(e: std::io::Error) -> FenrisError {
        FenrisError::ConnectionClosed
    }
}

/// The UTF-8 encoding of a non-empty character sequence is non-empty.
pub proof fn lemma_encode_utf8_nonempty(chars: Seq<char>)
    requires
        chars.len() > 0,
    ensures
        vstd::utf8::encode_utf8(chars).len() >= 1,
{
    assert(vstd::utf8::encode_utf8(chars) == vstd::utf8::encode_scalar(chars[0] as u32)
        + vstd::utf8::encode_utf8(chars.drop_first()));
    assert(vstd::utf8::encode_scalar(chars[0] as u32).len() >= 1);
}

/// Every error renders to a non-empty message.
pub proof fn lemma_error_message_nonempty(e: &FenrisError)
    ensures
        spec_error_message_bytes(e).len() > 0,
{
    reveal_strlit("Encryption error: ");
    reveal_strlit("Decryption error: ");
    reveal_strlit("Invalid key size: expected ");
    reveal_strlit("Invalid IV size: expected ");
    reveal_strlit("Compression error: ");
    reveal_strlit("Decompression error: ");
    reveal_strlit("Network error: ");
    reveal_strlit("Connection closed");
    reveal_strlit("Invalid protocol message");
    reveal_strlit("Invalid request: ");
    reveal_strlit("Missing required field: ");
    reveal_strlit("File operation failed: ");
    reveal_strlit("Serialization error: ");
    match e {
        FenrisError::EncryptionError(_) => {
            lemma_encode_utf8_nonempty("Encryption error: "@);
        },
        FenrisError::DecryptionError(_) => {
            lemma_encode_utf8_nonempty("Decryption error: "@);
        },
        FenrisError::InvalidKeySize { .. } => {
            lemma_encode_utf8_nonempty("Invalid key size: expected "@);
        },
        FenrisError::InvalidIvSize { .. } => {
            lemma_encode_utf8_nonempty("Invalid IV size: expected "@);
        },
        FenrisError::CompressionError(_) => {
            lemma_encode_utf8_nonempty("Compression error: "@);
        },
        FenrisError::DecompressionError(_) => {
            lemma_encode_utf8_nonempty("Decompression error: "@);
        },
        FenrisError::NetworkError(_) => {
            lemma_encode_utf8_nonempty("Network error: "@);
        },
        FenrisError::ConnectionClosed => {
            lemma_encode_utf8_nonempty("Connection closed"@);
        },
        FenrisError::InvalidProtocolMessage => {
            lemma_encode_utf8_nonempty("Invalid protocol message"@);
        },
        FenrisError::InvalidRequest(_) => {
            lemma_encode_utf8_nonempty("Invalid request: "@);
        },
        FenrisError::MissingField(_) => {
            lemma_encode_utf8_nonempty("Missing required field: "@);
        },
        FenrisError::FileOperationError(_) => {
            lemma_encode_utf8_nonempty("File operation failed: "@);
        },
        FenrisError::SerializationError(_) => {
            lemma_encode_utf8_nonempty("Serialization error: "@);
        },
    }
}

/// Appends every byte of `src` to `dst`.
pub fn push_bytes(dst: &mut Vec<u8>, src: &[u8])
    ensures
        final(dst)@ == old(dst)@ + src@,
{
    let mut i: usize = 0;
    while i < src.len()
        invariant
            i <= src@.len(),
            dst@ == old(dst)@ + src@.subrange(0, i as int),
        decreases src@.len() - i,
    {
        dst.push(src[i]);
        i = i + 1;
        proof {
            assert(dst@ =~= old(dst)@ + src@.subrange(0, i as int));
        }
    }
    proof {
        assert(src@.subrange(0, src@.len() as int) =~= src@);
    }
}

} // verus!
