use std::io;

use fenris::error::FenrisError;

#[test]
fn test_error_display() {
    let err = FenrisError::InvalidKeySize {
        expected: 32,
        got: 16,
    };
    assert_eq!(err.message(), "Invalid key size: expected 32, got 16");
}

#[test]
fn test_error_type() {
    fn might_fail() -> Result<(), FenrisError> {
        Err(FenrisError::ConnectionClosed)
    }

    let result = might_fail();
    assert!(result.is_err());
}

#[test]
fn test_io_error_conversion() {
    let io_err = io::Error::new(io::ErrorKind::NotFound, "file not found");
    let fenris_err: FenrisError = io_err.into();

    match fenris_err {
        FenrisError::NetworkError(_) => {}
        _ => panic!("Wrong error variant"),
    }
}

#[test]
fn test_error_message_bytes_match_text() {
    let err = FenrisError::FileOperationError(String::from("Path outside base directory"));
    assert_eq!(
        err.message_bytes(),
        b"File operation failed: Path outside base directory".to_vec()
    );
    assert_eq!(
        err.message(),
        "File operation failed: Path outside base directory"
    );
}

#[test]
fn test_every_error_message_is_nonempty() {
    let samples = vec![
        FenrisError::EncryptionError(String::from("x")),
        FenrisError::DecryptionError(String::from("x")),
        FenrisError::InvalidKeySize {
            expected: 32,
            got: 0,
        },
        FenrisError::InvalidIvSize {
            expected: 12,
            got: 0,
        },
        FenrisError::CompressionError(String::from("")),
        FenrisError::DecompressionError(String::from("")),
        FenrisError::NetworkError(String::from("")),
        FenrisError::ConnectionClosed,
        FenrisError::InvalidProtocolMessage,
        FenrisError::InvalidRequest(String::from("")),
        FenrisError::MissingField(String::from("")),
        FenrisError::FileOperationError(String::from("")),
        FenrisError::SerializationError(String::from("")),
    ];
    for err in samples {
        assert!(!err.message_bytes().is_empty());
    }
}
