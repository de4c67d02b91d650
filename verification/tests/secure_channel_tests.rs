use fenris::compression::{CompressionManager, NullCompressor, ZlibCompressor};
use fenris::crypto::CryptoManager;
use fenris::network::take_frame;
use fenris::proto::{Request, RequestType, Response, ResponseType};
use fenris::secure_channel::{default_kdf_context, SecureChannel};

/// Runs both ends of the public-key exchange in memory, as the sockets
/// would, and returns the client's and server's channels.
fn handshake_pair() -> (
    SecureChannel<
        fenris::crypto::AesGcmEncryptor,
        fenris::crypto::X25519KeyExchanger,
        fenris::crypto::HkdfSha256Deriver,
        NullCompressor,
    >,
    SecureChannel<
        fenris::crypto::AesGcmEncryptor,
        fenris::crypto::X25519KeyExchanger,
        fenris::crypto::HkdfSha256Deriver,
        NullCompressor,
    >,
) {
    let crypto = CryptoManager::default();
    let (client_priv, client_pub) = crypto.generate_keypair();
    let (server_priv, server_pub) = crypto.generate_keypair();

    // Client sends its public key first, then receives the server's.
    let client = SecureChannel::establish(
        CryptoManager::default(),
        CompressionManager::new(NullCompressor),
        &client_priv,
        &server_pub,
        default_kdf_context(),
    )
    .unwrap();
    let server = SecureChannel::establish(
        CryptoManager::default(),
        CompressionManager::new(NullCompressor),
        &server_priv,
        &client_pub,
        default_kdf_context(),
    )
    .unwrap();
    (client, server)
}

#[test]
fn test_handshake_derives_one_key() {
    let (client, server) = handshake_pair();
    assert_eq!(client.key, server.key);
    assert_eq!(client.key.len(), 32);
}

#[test]
fn test_request_roundtrip_over_channel() {
    let (client, server) = handshake_pair();
    let request = Request {
        command: RequestType::WriteFile as i32,
        filename: b"hello.txt".to_vec(),
        ip_addr: 0,
        data: b"Hello, World!".to_vec(),
    };
    let wire = client.seal_request(&request).unwrap();
    let (packet, consumed) = take_frame(&wire).unwrap();
    assert_eq!(consumed, wire.len());
    let received = server.open_request(&packet).unwrap();
    assert_eq!(received.command, request.command);
    assert_eq!(received.filename, request.filename);
    assert_eq!(received.data, request.data);
}

#[test]
fn test_response_roundtrip_over_channel() {
    let (client, server) = handshake_pair();
    let response = Response {
        rtype: ResponseType::FileContent as i32,
        success: true,
        error_message: Vec::new(),
        data: b"file bytes".to_vec(),
        details: None,
    };
    let wire = server.seal_response(&response).unwrap();
    let (packet, _) = take_frame(&wire).unwrap();
    let received = client.open_response(&packet).unwrap();
    assert_eq!(received.rtype, response.rtype);
    assert!(received.success);
    assert_eq!(received.data, response.data);
}

#[test]
fn test_tampered_packet_is_rejected() {
    let (client, server) = handshake_pair();
    let request = Request {
        command: RequestType::Ping as i32,
        filename: Vec::new(),
        ip_addr: 0,
        data: Vec::new(),
    };
    let wire = client.seal_request(&request).unwrap();
    let (packet, _) = take_frame(&wire).unwrap();
    for index in [12usize, packet.len() - 1] {
        let mut forged = packet.clone();
        forged[index] ^= 0x80;
        assert!(server.open_request(&forged).is_err());
    }
}

#[test]
fn test_channel_with_zlib_codec() {
    let crypto = CryptoManager::default();
    let (a_priv, a_pub) = crypto.generate_keypair();
    let (b_priv, b_pub) = crypto.generate_keypair();
    let a = SecureChannel::establish(
        CryptoManager::default(),
        CompressionManager::new(ZlibCompressor::new()),
        &a_priv,
        &b_pub,
        default_kdf_context(),
    )
    .unwrap();
    let b = SecureChannel::establish(
        CryptoManager::default(),
        CompressionManager::new(ZlibCompressor::new()),
        &b_priv,
        &a_pub,
        default_kdf_context(),
    )
    .unwrap();
    let request = Request {
        command: RequestType::UploadFile as i32,
        filename: b"big.bin".to_vec(),
        ip_addr: 0,
        data: b"zzzzzzzz".repeat(4096),
    };
    let wire = a.seal_request(&request).unwrap();
    let (packet, _) = take_frame(&wire).unwrap();
    let received = b.open_request(&packet).unwrap();
    assert_eq!(received.data, request.data);
}

#[test]
fn test_wrong_key_cannot_open() {
    let (client, _server) = handshake_pair();
    let (_other_client, other_server) = handshake_pair();
    let request = Request {
        command: RequestType::Ping as i32,
        filename: Vec::new(),
        ip_addr: 0,
        data: Vec::new(),
    };
    let wire = client.seal_request(&request).unwrap();
    let (packet, _) = take_frame(&wire).unwrap();
    assert!(other_server.open_request(&packet).is_err());
}
