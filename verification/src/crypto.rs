//! The crypto suite: AEAD sealing, ECDH key agreement, and HKDF key
//! derivation.
//!
//! The algorithms come from outside providers; each call crosses through one
//! trusted wrapper whose contract names the provider's result.  Everything
//! around the calls — size checking, error classification, composition — is
//! verified.

use vstd::prelude::*;
use vstd::string::StringSliceAdditionalSpecFns;
use aes_gcm::KeyInit;
use aes_gcm::aead::Aead;
use rand::RngCore;
use crate::error::{FenrisError, FenrisResult};

verus! {

/// AEAD key size in bytes.
pub const KEY_SIZE: usize = 32;

/// AEAD nonce size in bytes.
pub const IV_SIZE: usize = 12;

/// AEAD authentication tag size in bytes.
pub const TAG_SIZE: usize = 16;

/// ECDH key size in bytes.
pub const ECDH_KEY_SIZE: usize = 32;

// ---------------------------------------------------------------------------
// Named results of the outside providers
// ---------------------------------------------------------------------------

/// What AES-256-GCM sealing returns for a key, nonce and plaintext.
pub uninterp spec fn aes256_gcm_seal_of(key: Seq<u8>, iv: Seq<u8>, plain: Seq<u8>) -> Seq<u8>;

/// What AES-256-GCM opening returns for a key, nonce and ciphertext:
/// the plaintext, or nothing when the tag does not verify.
pub uninterp spec fn aes256_gcm_open_of(key: Seq<u8>, iv: Seq<u8>, cipher: Seq<u8>) -> Option<
    Seq<u8>,
>;

/// The X25519 public key of a private scalar.
pub uninterp spec fn x25519_public_of(private: Seq<u8>) -> Seq<u8>;

/// The X25519 shared secret of a private scalar and a peer's public key.
pub uninterp spec fn x25519_shared_of(private: Seq<u8>, peer_public: Seq<u8>) -> Seq<u8>;

/// What HKDF-SHA-256 expands a salt, input keying material, and context
/// label to, at a given output length.
pub uninterp spec fn hkdf_sha256_of(salt: Seq<u8>, ikm: Seq<u8>, info: Seq<u8>, n: usize) -> Seq<
    u8,
>;

/// Diffie-Hellman agreement: for any two 32-byte scalars, each side's
/// shared secret with the other's public key is the same value.
pub open spec fn x25519_agreement() -> bool {
    forall|a: Seq<u8>, b: Seq<u8>|
        a.len() == 32 && b.len() == 32 ==> #[trigger] x25519_shared_of(a, x25519_public_of(b))
            == x25519_shared_of(b, x25519_public_of(a))
}

// ---------------------------------------------------------------------------
// Trusted wrappers
// ---------------------------------------------------------------------------

/// Relies on `aes_gcm::Aes256Gcm` (`new_from_slice`, `Aead::encrypt`): with a
/// 32-byte key and 12-byte nonce it appends a 16-byte tag to the ciphertext,
/// the result depends on key, nonce and plaintext alone, and decrypting it
/// with the same key and nonce verifies and returns the plaintext.  The one
/// failure is a plaintext above the cipher's 2^36-byte limit; below it the
/// call succeeds.
#[verifier::external_body]
fn aes256_gcm_seal(key: &[u8], iv: &[u8], plaintext: &[u8]) -> (r: Option<Vec<u8>>)
    requires
        key@.len() == 32,
        iv@.len() == 12,
    ensures
        r matches Some(c) ==> c@ == aes256_gcm_seal_of(key@, iv@, plaintext@) && c@.len()
            == plaintext@.len() + 16 && aes256_gcm_open_of(key@, iv@, c@) == Some(plaintext@),
        plaintext@.len() <= 0x10_0000_0000 ==> r is Some,
{
    let cipher = aes_gcm::Aes256Gcm::new_from_slice(key).ok()?;
    cipher.encrypt(aes_gcm::Nonce::from_slice(iv), plaintext).ok()
}

/// Relies on `aes_gcm::Aes256Gcm` (`new_from_slice`, `Aead::decrypt`): the
/// outcome depends on key, nonce and ciphertext alone; a forged or damaged
/// ciphertext fails tag verification and yields nothing.
#[verifier::external_body]
fn aes256_gcm_open(key: &[u8], iv: &[u8], ciphertext: &[u8]) -> (r: Option<Vec<u8>>)
    requires
        key@.len() == 32,
        iv@.len() == 12,
        ciphertext@.len() >= 16,
    ensures
        match r {
            Some(p) => aes256_gcm_open_of(key@, iv@, ciphertext@) == Some(p@),
            None => aes256_gcm_open_of(key@, iv@, ciphertext@) is None,
        },
{
    let cipher = aes_gcm::Aes256Gcm::new_from_slice(key).ok()?;
    cipher.decrypt(aes_gcm::Nonce::from_slice(iv), ciphertext).ok()
}

/// Relies on `rand::rngs::OsRng` (`RngCore::fill_bytes`): fills the buffer
/// with operating-system randomness.  Nothing is promised of the contents.
#[verifier::external_body]
fn os_random_bytes(n: usize) -> (r: Vec<u8>)
    ensures
        r@.len() == n,
{
    let mut v = vec![0u8; n];
    rand::rngs::OsRng.fill_bytes(&mut v);
    v
}

/// Relies on `x25519_dalek::StaticSecret::random_from_rng` and
/// `PublicKey::from(&StaticSecret)`: draws a fresh 32-byte scalar and
/// computes its public key.  Nothing is promised of which scalar comes out.
#[verifier::external_body]
fn x25519_generate() -> (r: (Vec<u8>, Vec<u8>))
    ensures
        r.0@.len() == 32,
        r.1@.len() == 32,
        r.1@ == x25519_public_of(r.0@),
{
    let secret = x25519_dalek::StaticSecret::random_from_rng(rand::rngs::OsRng);
    let public = x25519_dalek::PublicKey::from(&secret);
    (secret.to_bytes().to_vec(), public.as_bytes().to_vec())
}

/// Relies on `x25519_dalek::StaticSecret::diffie_hellman`: the shared secret
/// is a function of the two keys alone, and both parties of an exchange
/// compute the same secret (Diffie-Hellman agreement, which the crate
/// documents as the purpose of the call).
#[verifier::external_body]
fn x25519_diffie_hellman(private: &[u8], peer_public: &[u8]) -> (r: Vec<u8>)
    requires
        private@.len() == 32,
        peer_public@.len() == 32,
    ensures
        r@ == x25519_shared_of(private@, peer_public@),
        r@.len() == 32,
        r@.len() == 32 ==> x25519_agreement(),
{
    let secret_bytes: [u8; 32] = private.try_into().unwrap();
    let public_bytes: [u8; 32] = peer_public.try_into().unwrap();
    let secret = x25519_dalek::StaticSecret::from(secret_bytes);
    let public = x25519_dalek::PublicKey::from(public_bytes);
    secret.diffie_hellman(&public).as_bytes().to_vec()
}

/// Relies on `hkdf::Hkdf::<Sha256>::new` and `expand`: the output keying
/// material is a function of salt, input keying material, context and length
/// alone; `expand` fails exactly when more than 255 hash lengths (8160
/// bytes) are requested.
#[verifier::external_body]
fn hkdf_sha256(salt: &[u8], ikm: &[u8], info: &[u8], n: usize) -> (r: Option<Vec<u8>>)
    ensures
        match r {
            Some(k) => n <= 8160 && k@ == hkdf_sha256_of(salt@, ikm@, info@, n) && k@.len() == n,
            None => n > 8160,
        },
{
    let hk = hkdf::Hkdf::<sha2::Sha256>::new(Some(salt), ikm);
    let mut okm = vec![0u8; n];
    hk.expand(info, &mut okm).ok()?;
    Some(okm)
}

// ---------------------------------------------------------------------------
// Capability traits
// ---------------------------------------------------------------------------

/// AEAD seal/open with per-implementation meaning.
pub trait Encryptor: Sized {
    /// The ciphertext this encryptor produces.  The defaults describe no
    /// implementation; a verified one overrides them.
    open spec fn seal_spec(&self, key: Seq<u8>, iv: Seq<u8>, plain: Seq<u8>) -> Seq<u8> {
        Seq::empty()
    }

    /// The plaintext this encryptor recovers, or nothing on failure.
    open spec fn open_spec(&self, key: Seq<u8>, iv: Seq<u8>, cipher: Seq<u8>) -> Option<Seq<u8>> {
        None
    }

    /// The key and nonce sizes this encryptor accepts.
    open spec fn accepts(&self, key: Seq<u8>, iv: Seq<u8>) -> bool {
        false
    }

    /// The inputs on which sealing is owed to succeed.  The default
    /// claims nothing; a verified encryptor overrides it.
    open spec fn encrypt_ok(&self, key: Seq<u8>, iv: Seq<u8>, plain: Seq<u8>) -> bool {
        false
    }

    /// The sealed length for a plaintext length.  The default pairs with
    /// the defaults above; a verified encryptor overrides it.
    open spec fn sealed_len(&self, plain_len: nat) -> nat {
        0
    }

    /// The error reported for a rejected key or nonce.
    open spec fn reject_of(&self, key: Seq<u8>, iv: Seq<u8>) -> FenrisError {
        FenrisError::ConnectionClosed
    }

    open spec fn key_size_spec(&self) -> usize {
        0
    }

    open spec fn iv_size_spec(&self) -> usize {
        0
    }

    fn encrypt(&self, plaintext: &[u8], key: &[u8], iv: &[u8]) -> (r: FenrisResult<Vec<u8>>)
        ensures
            r matches Ok(c) ==> self.accepts(key@, iv@) && c@ == self.seal_spec(
                key@,
                iv@,
                plaintext@,
            ) && self.open_spec(key@, iv@, c@) == Some(plaintext@) && c@.len()
                == self.sealed_len(plaintext@.len()),
            self.encrypt_ok(key@, iv@, plaintext@) ==> r matches Ok(_),
            !self.accepts(key@, iv@) ==> (r matches Err(e) && e == self.reject_of(key@, iv@)),
    ;

    fn decrypt(&self, ciphertext: &[u8], key: &[u8], iv: &[u8]) -> (r: FenrisResult<Vec<u8>>)
        ensures
            r matches Ok(p) ==> self.open_spec(key@, iv@, ciphertext@) == Some(p@),
            r matches Err(_) ==> self.open_spec(key@, iv@, ciphertext@) is None,
            !self.accepts(key@, iv@) ==> (r matches Err(e) && e == self.reject_of(key@, iv@)),
            self.accepts(key@, iv@) ==> (r matches Err(e) ==> e matches
                FenrisError::DecryptionError(_)),
    ;

    fn generate_iv(&self) -> (r: Vec<u8>)
        ensures
            r@.len() == self.iv_size_spec(),
    ;

    fn key_size(&self) -> (r: usize)
        ensures
            r == self.key_size_spec(),
    ;

    fn iv_size(&self) -> (r: usize)
        ensures
            r == self.iv_size_spec(),
    ;
}

/// ECDH keypair generation and shared-secret derivation.
pub trait KeyExchanger: Sized {
    /// The public key of a private key.  The defaults describe no
    /// implementation; a verified one overrides them.
    open spec fn public_spec(&self, private: Seq<u8>) -> Seq<u8> {
        Seq::empty()
    }

    /// The shared secret of a private key and a peer's public key.
    open spec fn shared_spec(&self, private: Seq<u8>, peer_public: Seq<u8>) -> Seq<u8> {
        Seq::empty()
    }

    open spec fn key_size_spec(&self) -> usize {
        0
    }

    /// The error reported for a rejected key length.  The default pairs
    /// with the defaults above; a verified exchanger overrides it.
    open spec fn reject_of(&self, private: Seq<u8>, peer_public: Seq<u8>) -> FenrisError {
        FenrisError::ConnectionClosed
    }

    fn generate_keypair(&self) -> (r: (Vec<u8>, Vec<u8>))
        ensures
            r.0@.len() == self.key_size_spec(),
            r.1@.len() == self.key_size_spec(),
            r.1@ == self.public_spec(r.0@),
    ;

    fn compute_shared_secret(&self, private_key: &[u8], peer_public_key: &[u8]) -> (r:
        FenrisResult<Vec<u8>>)
        ensures
            r matches Ok(s) ==> s@ == self.shared_spec(private_key@, peer_public_key@) && s@.len()
                == self.key_size_spec() && (forall|a: Seq<u8>, b: Seq<u8>|
                a.len() == self.key_size_spec() && b.len() == self.key_size_spec()
                    ==> #[trigger] self.shared_spec(a, self.public_spec(b)) == self.shared_spec(
                    b,
                    self.public_spec(a),
                )),
            r matches Ok(_) <==> private_key@.len() == self.key_size_spec()
                && peer_public_key@.len() == self.key_size_spec(),
            r matches Err(e) ==> e == self.reject_of(private_key@, peer_public_key@),
    ;

    fn key_size(&self) -> (r: usize)
        ensures
            r == self.key_size_spec(),
    ;
}

/// Key derivation from a shared secret and a context label.
pub trait KeyDeriver: Sized {
    /// The derived key.  The defaults describe no implementation; a
    /// verified one overrides them.
    open spec fn derive_spec(&self, secret: Seq<u8>, context: Seq<u8>, n: usize) -> Seq<u8> {
        Seq::empty()
    }

    /// Whether derivation succeeds at this output length.
    open spec fn derive_ok(&self, secret: Seq<u8>, context: Seq<u8>, n: usize) -> bool {
        false
    }

    fn derive_key(&self, shared_secret: &[u8], context: &[u8], output_size: usize) -> (r:
        FenrisResult<Vec<u8>>)
        ensures
            r matches Ok(k) ==> k@ == self.derive_spec(shared_secret@, context@, output_size)
                && k@.len() == output_size,
            r matches Ok(_) <==> self.derive_ok(shared_secret@, context@, output_size),
    ;
}

// ---------------------------------------------------------------------------
// Default implementations
// ---------------------------------------------------------------------------

/// AES-256-GCM with a 32-byte key, 12-byte nonce and 16-byte tag.
#[derive(Clone, Copy, Debug, Default)]
pub struct AesGcmEncryptor;

impl Encryptor for AesGcmEncryptor {
    open spec fn seal_spec(&self, key: Seq<u8>, iv: Seq<u8>, plain: Seq<u8>) -> Seq<u8> {
        aes256_gcm_seal_of(key, iv, plain)
    }

    open spec fn open_spec(&self, key: Seq<u8>, iv: Seq<u8>, cipher: Seq<u8>) -> Option<Seq<u8>> {
        if key.len() == 32 && iv.len() == 12 && cipher.len() >= 16 {
            aes256_gcm_open_of(key, iv, cipher)
        } else {
            None
        }
    }

    open spec fn accepts(&self, key: Seq<u8>, iv: Seq<u8>) -> bool {
        key.len() == 32 && iv.len() == 12
    }

    open spec fn encrypt_ok(&self, key: Seq<u8>, iv: Seq<u8>, plain: Seq<u8>) -> bool {
        key.len() == 32 && iv.len() == 12 && plain.len() <= 0x10_0000_0000
    }

    open spec fn sealed_len(&self, plain_len: nat) -> nat {
        plain_len + 16
    }

    open spec fn reject_of(&self, key: Seq<u8>, iv: Seq<u8>) -> FenrisError {
        if key.len() != 32 {
            FenrisError::InvalidKeySize { expected: 32, got: key.len() as usize }
        } else {
            FenrisError::InvalidIvSize { expected: 12, got: iv.len() as usize }
        }
    }

    open spec fn key_size_spec(&self) -> usize {
        32
    }

    open spec fn iv_size_spec(&self) -> usize {
        12
    }

    fn encrypt(&self, plaintext: &[u8], key: &[u8], iv: &[u8]) -> (r: FenrisResult<Vec<u8>>) {
        if key.len() != 32 {
            return Err(FenrisError::InvalidKeySize { expected: 32, got: key.len() });
        }
        if iv.len() != 12 {
            return Err(FenrisError::InvalidIvSize { expected: 12, got: iv.len() });
        }
        match aes256_gcm_seal(key, iv, plaintext) {
            Some(c) => Ok(c),
            None => Err(
                FenrisError::EncryptionError(String::from_str("AEAD sealing failed")),
            ),
        }
    }

    fn decrypt(&self, ciphertext: &[u8], key: &[u8], iv: &[u8]) -> (r: FenrisResult<Vec<u8>>) {
        if key.len() != 32 {
            return Err(FenrisError::InvalidKeySize { expected: 32, got: key.len() });
        }
        if iv.len() != 12 {
            return Err(FenrisError::InvalidIvSize { expected: 12, got: iv.len() });
        }
        if ciphertext.len() < 16 {
            return Err(
                FenrisError::DecryptionError(
                    String::from_str("ciphertext shorter than the authentication tag"),
                ),
            );
        }
        match aes256_gcm_open(key, iv, ciphertext) {
            Some(p) => Ok(p),
            None => Err(
                FenrisError::DecryptionError(String::from_str("authentication tag mismatch")),
            ),
        }
    }

    fn generate_iv(&self) -> (r: Vec<u8>) {
        os_random_bytes(12)
    }

    fn key_size(&self) -> (r: usize) {
        32
    }

    fn iv_size(&self) -> (r: usize) {
        12
    }
}

/// Curve25519 Diffie-Hellman with 32-byte keys.
#[derive(Clone, Copy, Debug, Default)]
pub struct X25519KeyExchanger;

impl KeyExchanger for X25519KeyExchanger {
    open spec fn public_spec(&self, private: Seq<u8>) -> Seq<u8> {
        x25519_public_of(private)
    }

    open spec fn shared_spec(&self, private: Seq<u8>, peer_public: Seq<u8>) -> Seq<u8> {
        x25519_shared_of(private, peer_public)
    }

    open spec fn key_size_spec(&self) -> usize {
        32
    }

    open spec fn reject_of(&self, private: Seq<u8>, peer_public: Seq<u8>) -> FenrisError {
        if private.len() != 32 {
            FenrisError::InvalidKeySize { expected: 32, got: private.len() as usize }
        } else {
            FenrisError::InvalidKeySize { expected: 32, got: peer_public.len() as usize }
        }
    }

    fn generate_keypair(&self) -> (r: (Vec<u8>, Vec<u8>)) {
        x25519_generate()
    }

    fn compute_shared_secret(&self, private_key: &[u8], peer_public_key: &[u8]) -> (r:
        FenrisResult<Vec<u8>>) {
        if private_key.len() != 32 {
            return Err(FenrisError::InvalidKeySize { expected: 32, got: private_key.len() });
        }
        if peer_public_key.len() != 32 {
            return Err(FenrisError::InvalidKeySize { expected: 32, got: peer_public_key.len() });
        }
        let shared = x25519_diffie_hellman(private_key, peer_public_key);
        proof {
            assert forall|a: Seq<u8>, b: Seq<u8>|
                a.len() == self.key_size_spec() && b.len() == self.key_size_spec() implies
                #[trigger] self.shared_spec(a, self.public_spec(b)) == self.shared_spec(
                b,
                self.public_spec(a),
            ) by {
                assert(x25519_shared_of(a, x25519_public_of(b)) == x25519_shared_of(
                    b,
                    x25519_public_of(a),
                ));
            }
        }
        Ok(shared)
    }

    fn key_size(&self) -> (r: usize) {
        32
    }
}

/// The default HKDF salt when none is configured.
pub open spec fn spec_default_salt() -> Seq<u8> {
    "fenris-encryption-salt-v1".spec_bytes()
}

/// HKDF with SHA-256, salted with a configured salt or the default one.
#[derive(Clone, Debug)]
pub struct HkdfSha256Deriver {
    salt: Vec<u8>,
}

impl Default for HkdfSha256Deriver {
    /// A deriver with no configured salt, so the default salt is used.
    fn default() -> (r: HkdfSha256Deriver)
        ensures
            r.salt_spec() == spec_default_salt(),
    {
        HkdfSha256Deriver { salt: Vec::new() }
    }
}

impl HkdfSha256Deriver {
    /// A deriver with an explicit salt; an empty salt means the default.
    pub fn with_salt(salt: Vec<u8>) -> (r: HkdfSha256Deriver)
        ensures
            r.salt_spec() == if salt@.len() == 0 {
                spec_default_salt()
            } else {
                salt@
            },
    {
        HkdfSha256Deriver { salt }
    }

    /// The salt actually used for derivation.
    pub closed spec fn salt_spec(&self) -> Seq<u8> {
        if self.salt@.len() == 0 {
            spec_default_salt()
        } else {
            self.salt@
        }
    }
}

impl KeyDeriver for HkdfSha256Deriver {
    open spec fn derive_spec(&self, secret: Seq<u8>, context: Seq<u8>, n: usize) -> Seq<u8> {
        hkdf_sha256_of(self.salt_spec(), secret, context, n)
    }

    open spec fn derive_ok(&self, secret: Seq<u8>, context: Seq<u8>, n: usize) -> bool {
        n <= 8160
    }

    fn derive_key(&self, shared_secret: &[u8], context: &[u8], output_size: usize) -> (r:
        FenrisResult<Vec<u8>>) {
        let out = if self.salt.len() == 0 {
            let default_salt = "fenris-encryption-salt-v1".as_bytes();
            proof {
                assert(default_salt@ == self.salt_spec());
            }
            hkdf_sha256(default_salt, shared_secret, context, output_size)
        } else {
            hkdf_sha256(self.salt.as_slice(), shared_secret, context, output_size)
        };
        match out {
            Some(k) => Ok(k),
            None => Err(
                FenrisError::EncryptionError(
                    String::from_str("requested key length exceeds the HKDF limit"),
                ),
            ),
        }
    }
}

// ---------------------------------------------------------------------------
// The assembled suite
// ---------------------------------------------------------------------------

/// One crypto suite: an AEAD encryptor, a key exchanger, and a key deriver.
pub struct CryptoManager<E: Encryptor, K: KeyExchanger, D: KeyDeriver> {
    pub encryptor: E,
    pub key_exchanger: K,
    pub key_deriver: D,
}

impl<E: Encryptor, K: KeyExchanger, D: KeyDeriver> CryptoManager<E, K, D> {
    pub fn new(encryptor: E, key_exchanger: K, key_deriver: D) -> (r: CryptoManager<E, K, D>)
        ensures
            r.encryptor == encryptor,
            r.key_exchanger == key_exchanger,
            r.key_deriver == key_deriver,
    {
        CryptoManager { encryptor, key_exchanger, key_deriver }
    }

    pub fn encrypt(&self, plaintext: &[u8], key: &[u8], iv: &[u8]) -> (r: FenrisResult<Vec<u8>>)
        ensures
            r matches Ok(c) ==> self.encryptor.accepts(key@, iv@) && c@
                == self.encryptor.seal_spec(key@, iv@, plaintext@) && self.encryptor.open_spec(
                key@,
                iv@,
                c@,
            ) == Some(plaintext@) && c@.len() == self.encryptor.sealed_len(plaintext@.len()),
            self.encryptor.encrypt_ok(key@, iv@, plaintext@) ==> r matches Ok(_),
            !self.encryptor.accepts(key@, iv@) ==> (r matches Err(e) && e
                == self.encryptor.reject_of(key@, iv@)),
    {
        self.encryptor.encrypt(plaintext, key, iv)
    }

    pub fn decrypt(&self, ciphertext: &[u8], key: &[u8], iv: &[u8]) -> (r: FenrisResult<Vec<u8>>)
        ensures
            r matches Ok(p) ==> self.encryptor.open_spec(key@, iv@, ciphertext@) == Some(p@),
            r matches Err(_) ==> self.encryptor.open_spec(key@, iv@, ciphertext@) is None,
            !self.encryptor.accepts(key@, iv@) ==> (r matches Err(e) && e
                == self.encryptor.reject_of(key@, iv@)),
            self.encryptor.accepts(key@, iv@) ==> (r matches Err(e) ==> e matches
                FenrisError::DecryptionError(_)),
    {
        self.encryptor.decrypt(ciphertext, key, iv)
    }

    pub fn generate_iv(&self) -> (r: Vec<u8>)
        ensures
            r@.len() == self.encryptor.iv_size_spec(),
    {
        self.encryptor.generate_iv()
    }

    pub fn generate_keypair(&self) -> (r: (Vec<u8>, Vec<u8>))
        ensures
            r.0@.len() == self.key_exchanger.key_size_spec(),
            r.1@.len() == self.key_exchanger.key_size_spec(),
            r.1@ == self.key_exchanger.public_spec(r.0@),
    {
        self.key_exchanger.generate_keypair()
    }

    pub fn compute_shared_secret(&self, private_key: &[u8], peer_public_key: &[u8]) -> (r:
        FenrisResult<Vec<u8>>)
        ensures
            r matches Ok(s) ==> s@ == self.key_exchanger.shared_spec(
                private_key@,
                peer_public_key@,
            ) && s@.len() == self.key_exchanger.key_size_spec() && (forall|a: Seq<u8>, b: Seq<u8>|
                a.len() == self.key_exchanger.key_size_spec() && b.len()
                    == self.key_exchanger.key_size_spec()
                    ==> #[trigger] self.key_exchanger.shared_spec(
                    a,
                    self.key_exchanger.public_spec(b),
                ) == self.key_exchanger.shared_spec(b, self.key_exchanger.public_spec(a))),
            r matches Ok(_) <==> private_key@.len() == self.key_exchanger.key_size_spec()
                && peer_public_key@.len() == self.key_exchanger.key_size_spec(),
            r matches Err(e) ==> e == self.key_exchanger.reject_of(
                private_key@,
                peer_public_key@,
            ),
    {
        self.key_exchanger.compute_shared_secret(private_key, peer_public_key)
    }

    pub fn derive_key(&self, shared_secret: &[u8], context: &[u8]) -> (r: FenrisResult<Vec<u8>>)
        ensures
            r matches Ok(k) ==> k@ == self.key_deriver.derive_spec(
                shared_secret@,
                context@,
                self.encryptor.key_size_spec(),
            ) && k@.len() == self.encryptor.key_size_spec(),
            r matches Ok(_) <==> self.key_deriver.derive_ok(
                shared_secret@,
                context@,
                self.encryptor.key_size_spec(),
            ),
    {
        let output_size = self.encryptor.key_size();
        self.key_deriver.derive_key(shared_secret, context, output_size)
    }
}

impl Default for CryptoManager<AesGcmEncryptor, X25519KeyExchanger, HkdfSha256Deriver> {
    /// The default suite: AES-256-GCM, X25519, HKDF-SHA-256.
    fn default() -> (r: CryptoManager<AesGcmEncryptor, X25519KeyExchanger, HkdfSha256Deriver>)
        ensures
            r.key_deriver.salt_spec() == spec_default_salt(),
    {
        CryptoManager::new(AesGcmEncryptor, X25519KeyExchanger, HkdfSha256Deriver::default())
    }
}

} // verus!
