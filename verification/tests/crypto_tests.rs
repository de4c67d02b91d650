use fenris::crypto::{
    AesGcmEncryptor, CryptoManager, Encryptor, HkdfSha256Deriver, KeyExchanger, KEY_SIZE,
    X25519KeyExchanger,
};
use fenris::error::FenrisError;

#[test]
fn test_default_crypto_manager() {
    let manager = CryptoManager::default();

    let plaintext = b"Hello, Fenris!";
    let key = [42u8; KEY_SIZE];
    let iv = manager.generate_iv();

    let ciphertext = manager.encrypt(plaintext, &key, &iv).unwrap();
    let decrypted = manager.decrypt(&ciphertext, &key, &iv).unwrap();

    assert_eq!(decrypted, plaintext);
}

#[test]
fn test_key_exchange() {
    let manager = CryptoManager::default();

    let (alice_priv, alice_pub) = manager.generate_keypair();
    let (bob_priv, bob_pub) = manager.generate_keypair();

    let alice_shared = manager
        .compute_shared_secret(&alice_priv, &bob_pub)
        .unwrap();
    let bob_shared = manager
        .compute_shared_secret(&bob_priv, &alice_pub)
        .unwrap();

    assert_eq!(alice_shared, bob_shared);
}

#[test]
fn test_full_workflow() {
    let manager = CryptoManager::default();

    let (alice_priv, alice_pub) = manager.generate_keypair();
    let (bob_priv, bob_pub) = manager.generate_keypair();

    let shared_secret = manager
        .compute_shared_secret(&alice_priv, &bob_pub)
        .unwrap();

    let key = manager
        .derive_key(&shared_secret, b"fenris-aes-key")
        .unwrap();

    let message = b"Secret message";
    let iv = manager.generate_iv();
    let ciphertext = manager.encrypt(message, &key, &iv).unwrap();

    let bob_shared = manager
        .compute_shared_secret(&bob_priv, &alice_pub)
        .unwrap();
    let bob_key = manager.derive_key(&bob_shared, b"fenris-aes-key").unwrap();

    let decrypted = manager.decrypt(&ciphertext, &bob_key, &iv).unwrap();

    assert_eq!(decrypted, message);
}

#[test]
fn test_tampered_ciphertext_fails() {
    let encryptor = AesGcmEncryptor;
    let key = [7u8; 32];
    let iv = [9u8; 12];
    let ciphertext = encryptor.encrypt(b"payload", &key, &iv).unwrap();
    for bit in [0usize, 7] {
        for index in [0usize, ciphertext.len() - 1] {
            let mut forged = ciphertext.clone();
            forged[index] ^= 1 << bit;
            assert!(encryptor.decrypt(&forged, &key, &iv).is_err());
        }
    }
}

#[test]
fn test_encrypt_rejects_bad_sizes() {
    let encryptor = AesGcmEncryptor;
    let short_key = [0u8; 16];
    let key = [0u8; 32];
    let iv = [0u8; 12];
    match encryptor.encrypt(b"x", &short_key, &iv) {
        Err(FenrisError::InvalidKeySize { expected, got }) => {
            assert_eq!(expected, 32);
            assert_eq!(got, 16);
        }
        _ => panic!("expected InvalidKeySize"),
    }
    match encryptor.encrypt(b"x", &key, &[0u8; 11]) {
        Err(FenrisError::InvalidIvSize { expected, got }) => {
            assert_eq!(expected, 12);
            assert_eq!(got, 11);
        }
        _ => panic!("expected InvalidIvSize"),
    }
    match encryptor.decrypt(&[0u8; 8], &key, &iv) {
        Err(FenrisError::DecryptionError(_)) => {}
        _ => panic!("expected DecryptionError for a short ciphertext"),
    }
}

#[test]
fn test_hkdf_salt_default() {
    let deriver = HkdfSha256Deriver::default();
    let salted = HkdfSha256Deriver::with_salt(Vec::new());
    let a = fenris::crypto::KeyDeriver::derive_key(&deriver, b"secret", b"ctx", 32).unwrap();
    let b = fenris::crypto::KeyDeriver::derive_key(&salted, b"secret", b"ctx", 32).unwrap();
    assert_eq!(a, b);
    assert_eq!(a.len(), 32);
    let other = HkdfSha256Deriver::with_salt(b"another-salt".to_vec());
    let c = fenris::crypto::KeyDeriver::derive_key(&other, b"secret", b"ctx", 32).unwrap();
    assert_ne!(a, c);
}

#[test]
fn test_shared_secret_rejects_bad_sizes() {
    let exchanger = X25519KeyExchanger;
    let (private, public) = exchanger.generate_keypair();
    match exchanger.compute_shared_secret(&private[..16], &public) {
        Err(FenrisError::InvalidKeySize { expected, got }) => {
            assert_eq!(expected, 32);
            assert_eq!(got, 16);
        }
        _ => panic!("expected InvalidKeySize for a short private key"),
    }
    match exchanger.compute_shared_secret(&private, &public[..16]) {
        Err(FenrisError::InvalidKeySize { expected, got }) => {
            assert_eq!(expected, 32);
            assert_eq!(got, 16);
        }
        _ => panic!("expected InvalidKeySize for a short public key"),
    }
    assert!(exchanger.compute_shared_secret(&private, &public).is_ok());
}

#[test]
fn test_sealed_length_appends_the_tag() {
    let encryptor = AesGcmEncryptor;
    let key = [1u8; 32];
    let iv = [2u8; 12];
    for n in [0usize, 1, 13, 4096] {
        let plaintext = vec![7u8; n];
        let ciphertext = encryptor.encrypt(&plaintext, &key, &iv).unwrap();
        assert_eq!(ciphertext.len(), n + 16);
    }
}
