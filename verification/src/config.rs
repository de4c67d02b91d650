//! Build-time selection of the crypto suite and compression codec.

use vstd::prelude::*;
use crate::compression::{CompressionManager, Compressor, NullCompressor, ZlibCompressor};
use crate::crypto::{
    AesGcmEncryptor, CryptoManager, Encryptor, HkdfSha256Deriver, KeyDeriver, KeyExchanger,
    X25519KeyExchanger,
};

verus! {

/// Chooses the three crypto capabilities.
pub trait CryptoConfig {
    type Encryptor: Encryptor;

    type KeyExchanger: KeyExchanger;

    type KeyDeriver: KeyDeriver;

    fn crypto() -> CryptoManager<Self::Encryptor, Self::KeyExchanger, Self::KeyDeriver>;
}

/// Chooses the compression codec.
pub trait CompressionConfig {
    type Compressor: Compressor;

    fn compression() -> CompressionManager<Self::Compressor>;
}

/// Chooses both halves of a secure channel's configuration.
pub trait SecureChannelConfig {
    type CryptoConfig: CryptoConfig;

    type CompressionConfig: CompressionConfig;
}

/// AES-256-GCM, X25519, HKDF-SHA-256, and no compression.
pub struct DefaultSuite;

impl CryptoConfig for DefaultSuite {
    type Encryptor = AesGcmEncryptor;

    type KeyExchanger = X25519KeyExchanger;

    type KeyDeriver = HkdfSha256Deriver;

    fn crypto() -> CryptoManager<AesGcmEncryptor, X25519KeyExchanger, HkdfSha256Deriver> {
        CryptoManager::new(AesGcmEncryptor, X25519KeyExchanger, HkdfSha256Deriver::default())
    }
}

impl CompressionConfig for DefaultSuite {
    type Compressor = NullCompressor;

    fn compression() -> CompressionManager<NullCompressor> {
        CompressionManager::new(NullCompressor)
    }
}

/// Deflate compression at the default level.
pub struct Zlib;

impl CompressionConfig for Zlib {
    type Compressor = ZlibCompressor;

    fn compression() -> CompressionManager<ZlibCompressor> {
        CompressionManager::new(ZlibCompressor::default())
    }
}

/// The build's channel configuration: the default suite on both halves.
pub struct Config;

impl SecureChannelConfig for Config {
    type CryptoConfig = DefaultSuite;

    type CompressionConfig = DefaultSuite;
}

} // verus!
