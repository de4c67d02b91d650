use fenris::crypto::{CryptoManager, Encryptor, HkdfSha256Deriver, X25519KeyExchanger};
use fenris::error::FenrisError;

struct DummyEncryptor;

impl Encryptor for DummyEncryptor {
    fn encrypt(
        &self,
        plaintext: &[u8],
        _key: &[u8],
        _iv: &[u8],
    ) -> Result<Vec<u8>, FenrisError> {
        // Just reverse the plaintext
        Ok(plaintext.iter().rev().copied().collect())
    }

    fn decrypt(
        &self,
        ciphertext: &[u8],
        _key: &[u8],
        _iv: &[u8],
    ) -> Result<Vec<u8>, FenrisError> {
        // Reverse back
        Ok(ciphertext.iter().rev().copied().collect())
    }

    fn generate_iv(&self) -> Vec<u8> {
        vec![0u8; 12]
    }

    fn key_size(&self) -> usize {
        32
    }

    fn iv_size(&self) -> usize {
        12
    }
}

#[test]
fn test_custom_encryptor() {
    let manager = CryptoManager::new(
        DummyEncryptor,
        X25519KeyExchanger,
        HkdfSha256Deriver::default(),
    );

    let plaintext = b"Hello";
    let key = [0u8; 32];
    let iv = [0u8; 12];

    let ciphertext = manager.encrypt(plaintext, &key, &iv).unwrap();

    // Should be reversed
    assert_eq!(ciphertext, b"olleH");

    let decrypted = manager.decrypt(&ciphertext, &key, &iv).unwrap();
    assert_eq!(decrypted, plaintext);
}
