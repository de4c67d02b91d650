//! The secure channel: framing + crypto + compression composed.
//!
//! A channel owns the 32-byte session key, a crypto suite and a codec.  The
//! socket itself stays with the caller: `seal_*` produce the exact bytes to
//! write, `open_*` take the payload of one received frame.

use vstd::prelude::*;
use vstd::string::StringSliceAdditionalSpecFns;
use crate::compression::{CompressionManager, Compressor};
use crate::crypto::{CryptoManager, Encryptor, KeyDeriver, KeyExchanger};
use crate::error::{FenrisError, FenrisResult};
use crate::network::{frame_data, spec_frame, spec_parse_frame};
use crate::proto::{
    Request, RequestV, Response, ResponseV, spec_encode_request, spec_encode_response,
    spec_request_wf, spec_response_wf,
};

verus! {

/// The default key-derivation context label.
pub open spec fn spec_default_kdf_context() -> Seq<u8> {
    "fenris-aes-key".spec_bytes()
}

/// The default key-derivation context label.
pub fn default_kdf_context() -> (r: &'static [u8])
    ensures
        r@ == spec_default_kdf_context(),
{
    "fenris-aes-key".as_bytes()
}

/// What one sealed packet opens to under a key: the first `iv_size` bytes
/// are the nonce, the rest the ciphertext; the decrypted bytes decompress
/// to the payload.
pub open spec fn spec_unseal<E: Encryptor, C: Compressor>(
    e: &E,
    c: &C,
    key: Seq<u8>,
    packet: Seq<u8>,
) -> Option<Seq<u8>> {
    if packet.len() < e.iv_size_spec() {
        None
    } else {
        match e.open_spec(
            key,
            packet.subrange(0, e.iv_size_spec() as int),
            packet.subrange(e.iv_size_spec() as int, packet.len() as int),
        ) {
            Some(compressed) => c.decompress_spec(compressed),
            None => None,
        }
    }
}

/// The session key both sides of a handshake derive from a shared secret.
pub open spec fn spec_session_key<E: Encryptor, K: KeyExchanger, D: KeyDeriver>(
    crypto: &CryptoManager<E, K, D>,
    private: Seq<u8>,
    peer_public: Seq<u8>,
    context: Seq<u8>,
) -> Seq<u8> {
    crypto.key_deriver.derive_spec(
        crypto.key_exchanger.shared_spec(private, peer_public),
        context,
        crypto.encryptor.key_size_spec(),
    )
}

/// Handshake symmetry: once both keypairs are honest and the exchanger's
/// two sides agree, the client's derived key equals the server's.
pub proof fn lemma_handshake_symmetry<E: Encryptor, K: KeyExchanger, D: KeyDeriver>(
    crypto: &CryptoManager<E, K, D>,
    a_private: Seq<u8>,
    b_private: Seq<u8>,
    context: Seq<u8>,
)
    requires
        a_private.len() == crypto.key_exchanger.key_size_spec(),
        b_private.len() == crypto.key_exchanger.key_size_spec(),
        forall|a: Seq<u8>, b: Seq<u8>|
            a.len() == crypto.key_exchanger.key_size_spec() && b.len()
                == crypto.key_exchanger.key_size_spec()
                ==> #[trigger] crypto.key_exchanger.shared_spec(
                a,
                crypto.key_exchanger.public_spec(b),
            ) == crypto.key_exchanger.shared_spec(b, crypto.key_exchanger.public_spec(a)),
    ensures
        spec_session_key(
            crypto,
            a_private,
            crypto.key_exchanger.public_spec(b_private),
            context,
        ) == spec_session_key(
            crypto,
            b_private,
            crypto.key_exchanger.public_spec(a_private),
            context,
        ),
{
    assert(crypto.key_exchanger.shared_spec(
        a_private,
        crypto.key_exchanger.public_spec(b_private),
    ) == crypto.key_exchanger.shared_spec(
        b_private,
        crypto.key_exchanger.public_spec(a_private),
    ));
}

/// An established channel: session key, crypto suite, codec.
pub struct SecureChannel<E: Encryptor, K: KeyExchanger, D: KeyDeriver, C: Compressor> {
    pub key: Vec<u8>,
    pub crypto: CryptoManager<E, K, D>,
    pub compressor: CompressionManager<C>,
}

impl<E: Encryptor, K: KeyExchanger, D: KeyDeriver, C: Compressor> SecureChannel<E, K, D, C> {
    /// A channel over an already-derived session key.
    pub fn new(key: Vec<u8>, crypto: CryptoManager<E, K, D>, compressor: CompressionManager<C>)
        -> (r: SecureChannel<E, K, D, C>)
        ensures
            r.key@ == key@,
            r.crypto == crypto,
            r.compressor == compressor,
    {
        SecureChannel { key, crypto, compressor }
    }

    /// Finishes a handshake: computes the shared secret with the peer's
    /// public key and derives the session key under the given context.
    /// The network round-trip that exchanged the public keys is the
    /// caller's; both orderings of the exchange end here.
    pub fn establish(
        crypto: CryptoManager<E, K, D>,
        compressor: CompressionManager<C>,
        private_key: &[u8],
        peer_public_key: &[u8],
        context: &[u8],
    ) -> (r: FenrisResult<SecureChannel<E, K, D, C>>)
        ensures
            r matches Ok(ch) ==> {
                &&& ch.key@ == spec_session_key(
                    &crypto,
                    private_key@,
                    peer_public_key@,
                    context@,
                )
                &&& ch.key@.len() == crypto.encryptor.key_size_spec()
                &&& ch.crypto == crypto
                &&& ch.compressor == compressor
                &&& forall|a: Seq<u8>, b: Seq<u8>|
                    a.len() == crypto.key_exchanger.key_size_spec() && b.len()
                        == crypto.key_exchanger.key_size_spec()
                        ==> #[trigger] crypto.key_exchanger.shared_spec(
                        a,
                        crypto.key_exchanger.public_spec(b),
                    ) == crypto.key_exchanger.shared_spec(
                        b,
                        crypto.key_exchanger.public_spec(a),
                    )
            },
            r matches Ok(_) <==> private_key@.len() == crypto.key_exchanger.key_size_spec()
                && peer_public_key@.len() == crypto.key_exchanger.key_size_spec()
                && crypto.key_deriver.derive_ok(
                crypto.key_exchanger.shared_spec(private_key@, peer_public_key@),
                context@,
                crypto.encryptor.key_size_spec(),
            ),
    {
        let shared = crypto.compute_shared_secret(private_key, peer_public_key);
        match shared {
            Ok(secret) => {
                match crypto.derive_key(secret.as_slice(), context) {
                    Ok(key) => Ok(SecureChannel { key, crypto, compressor }),
                    Err(e) => Err(e),
                }
            },
            Err(e) => Err(e),
        }
    }

    /// Seals an already-encoded payload: compress, pick a fresh nonce,
    /// encrypt, and frame `nonce ‖ ciphertext‖tag`.
    fn seal_payload(&self, payload: &[u8]) -> (r: FenrisResult<Vec<u8>>)
        ensures
            r matches Ok(w) ==> {
                &&& spec_parse_frame(w@) matches Some(pc) && pc.1 == w@.len() && spec_unseal(
                    &self.crypto.encryptor,
                    &self.compressor.compressor,
                    self.key@,
                    pc.0,
                ) == Some(payload@)
            },
    {
        let compressed = match self.compressor.compress(payload) {
            Ok(c) => c,
            Err(e) => {
                return Err(e);
            },
        };
        let iv = self.crypto.generate_iv();
        let ciphertext = match self.crypto.encrypt(
            compressed.as_slice(),
            self.key.as_slice(),
            iv.as_slice(),
        ) {
            Ok(c) => c,
            Err(e) => {
                return Err(e);
            },
        };
        let mut packet = iv;
        let ghost iv_seq = packet@;
        let mut ct = ciphertext;
        let ghost ct_seq = ct@;
        packet.append(&mut ct);
        if packet.len() > 0xffff_ffffusize {
            return Err(FenrisError::InvalidProtocolMessage);
        }
        let wire = frame_data(packet.as_slice());
        proof {
            let e = &self.crypto.encryptor;
            let c = &self.compressor.compressor;
            crate::network::lemma_frame_roundtrip(packet@, Seq::<u8>::empty());
            assert(wire@ == spec_frame(packet@));
            assert(spec_frame(packet@) + Seq::<u8>::empty() =~= spec_frame(packet@));
            assert(spec_parse_frame(wire@) matches Some(pc) && pc.0 == packet@ && pc.1
                == wire@.len());
            assert(packet@.subrange(0, e.iv_size_spec() as int) =~= iv_seq);
            assert(packet@.subrange(e.iv_size_spec() as int, packet@.len() as int) =~= ct_seq);
            assert(spec_unseal(e, c, self.key@, packet@) == Some(payload@));
        }
        Ok(wire)
    }

    /// Opens one received frame payload back to the encoded message bytes.
    fn open_payload(&self, packet: &[u8]) -> (r: FenrisResult<Vec<u8>>)
        ensures
            r matches Ok(p) ==> spec_unseal(
                &self.crypto.encryptor,
                &self.compressor.compressor,
                self.key@,
                packet@,
            ) == Some(p@),
            r matches Err(_) ==> spec_unseal(
                &self.crypto.encryptor,
                &self.compressor.compressor,
                self.key@,
                packet@,
            ) is None,
    {
        let iv_size = self.crypto.encryptor.iv_size();
        if packet.len() < iv_size {
            return Err(
                FenrisError::DecryptionError(
                    String::from_str("packet shorter than the nonce"),
                ),
            );
        }
        let iv = vstd::slice::slice_subrange(packet, 0, iv_size);
        let ciphertext = vstd::slice::slice_subrange(packet, iv_size, packet.len());
        let compressed = match self.crypto.decrypt(ciphertext, self.key.as_slice(), iv) {
            Ok(p) => p,
            Err(e) => {
                return Err(e);
            },
        };
        self.compressor.decompress(compressed.as_slice())
    }

    /// Encodes and seals a request; the result is the exact wire bytes.
    pub fn seal_request(&self, msg: &Request) -> (r: FenrisResult<Vec<u8>>)
        ensures
            r matches Ok(w) ==> {
                &&& spec_parse_frame(w@) matches Some(pc) && pc.1 == w@.len() && spec_unseal(
                    &self.crypto.encryptor,
                    &self.compressor.compressor,
                    self.key@,
                    pc.0,
                ) == Some(spec_encode_request(msg@))
            },
    {
        let encoded = match msg.to_bytes() {
            Ok(b) => b,
            Err(e) => {
                return Err(e);
            },
        };
        self.seal_payload(encoded.as_slice())
    }

    /// Encodes and seals a response; the result is the exact wire bytes.
    pub fn seal_response(&self, msg: &Response) -> (r: FenrisResult<Vec<u8>>)
        ensures
            r matches Ok(w) ==> {
                &&& spec_parse_frame(w@) matches Some(pc) && pc.1 == w@.len() && spec_unseal(
                    &self.crypto.encryptor,
                    &self.compressor.compressor,
                    self.key@,
                    pc.0,
                ) == Some(spec_encode_response(msg@))
            },
    {
        let encoded = match msg.to_bytes() {
            Ok(b) => b,
            Err(e) => {
                return Err(e);
            },
        };
        self.seal_payload(encoded.as_slice())
    }

    /// Opens a frame payload and decodes the request inside it.
    pub fn open_request(&self, packet: &[u8]) -> (r: FenrisResult<Request>)
        ensures
            r matches Ok(m) ==> spec_unseal(
                &self.crypto.encryptor,
                &self.compressor.compressor,
                self.key@,
                packet@,
            ) == Some(spec_encode_request(m@)) && spec_request_wf(m@),
            forall|v: RequestV|
                spec_request_wf(v) && spec_unseal(
                    &self.crypto.encryptor,
                    &self.compressor.compressor,
                    self.key@,
                    packet@,
                ) == Some(spec_encode_request(v)) ==> (r matches Ok(m) && m@ == v),
    {
        let payload = match self.open_payload(packet) {
            Ok(p) => p,
            Err(e) => {
                return Err(e);
            },
        };
        Request::from_bytes(payload.as_slice())
    }

    /// Opens a frame payload and decodes the response inside it.
    pub fn open_response(&self, packet: &[u8]) -> (r: FenrisResult<Response>)
        ensures
            r matches Ok(m) ==> spec_unseal(
                &self.crypto.encryptor,
                &self.compressor.compressor,
                self.key@,
                packet@,
            ) == Some(spec_encode_response(m@)) && spec_response_wf(m@),
            forall|v: ResponseV|
                spec_response_wf(v) && spec_unseal(
                    &self.crypto.encryptor,
                    &self.compressor.compressor,
                    self.key@,
                    packet@,
                ) == Some(spec_encode_response(v)) ==> (r matches Ok(m) && m@ == v),
    {
        let payload = match self.open_payload(packet) {
            Ok(p) => p,
            Err(e) => {
                return Err(e);
            },
        };
        Response::from_bytes(payload.as_slice())
    }
}

} // verus!

