use fenris::proto::{
    Details, DirectoryListing, FileInfo, Request, RequestType, Response, ResponseType,
};

#[test]
fn test_request_serialization() {
    let request = Request {
        command: RequestType::Ping as i32,
        filename: b"test.txt".to_vec(),
        ip_addr: 0,
        data: vec![1, 2, 3],
    };

    let bytes = request.to_bytes().unwrap();
    let decoded = Request::from_bytes(&bytes).unwrap();

    assert_eq!(decoded.command, request.command);
    assert_eq!(decoded.filename, request.filename);
    assert_eq!(decoded.data, request.data);
}

#[test]
fn test_response_serialization() {
    let response = Response {
        rtype: ResponseType::Success as i32,
        success: true,
        error_message: Vec::new(),
        data: vec![4, 5, 6],
        details: None,
    };

    let bytes = response.to_bytes().unwrap();
    let decoded = Response::from_bytes(&bytes).unwrap();

    assert_eq!(decoded.rtype, response.rtype);
    assert_eq!(decoded.success, response.success);
    assert_eq!(decoded.data, response.data);
}

#[test]
fn test_response_with_file_info_roundtrip() {
    let response = Response {
        rtype: ResponseType::FileInfo as i32,
        success: true,
        error_message: Vec::new(),
        data: Vec::new(),
        details: Some(Details::FileInfo(FileInfo {
            name: b"notes.txt".to_vec(),
            size: 4096,
            is_directory: false,
            modified_time: 1_700_000_000,
            permissions: 0o644,
        })),
    };
    let bytes = response.to_bytes().unwrap();
    let decoded = Response::from_bytes(&bytes).unwrap();
    match decoded.details {
        Some(Details::FileInfo(fi)) => {
            assert_eq!(fi.name, b"notes.txt".to_vec());
            assert_eq!(fi.size, 4096);
            assert!(!fi.is_directory);
            assert_eq!(fi.modified_time, 1_700_000_000);
            assert_eq!(fi.permissions, 0o644);
        }
        _ => panic!("expected file info details"),
    }
}

#[test]
fn test_response_with_listing_roundtrip() {
    let entries = vec![
        FileInfo {
            name: b"f1.txt".to_vec(),
            size: 1,
            is_directory: false,
            modified_time: 7,
            permissions: 0o644,
        },
        FileInfo {
            name: b"sub".to_vec(),
            size: 0,
            is_directory: true,
            modified_time: 8,
            permissions: 0o755,
        },
    ];
    let response = Response {
        rtype: ResponseType::DirListing as i32,
        success: true,
        error_message: Vec::new(),
        data: Vec::new(),
        details: Some(Details::DirectoryListing(DirectoryListing { entries })),
    };
    let bytes = response.to_bytes().unwrap();
    let decoded = Response::from_bytes(&bytes).unwrap();
    match decoded.details {
        Some(Details::DirectoryListing(dl)) => {
            assert_eq!(dl.entries.len(), 2);
            assert_eq!(dl.entries[0].name, b"f1.txt".to_vec());
            assert_eq!(dl.entries[1].name, b"sub".to_vec());
            assert!(dl.entries[1].is_directory);
        }
        _ => panic!("expected listing details"),
    }
}

#[test]
fn test_decode_rejects_garbage() {
    assert!(Request::from_bytes(b"not a request").is_err());
    assert!(Response::from_bytes(&[0xff, 0x00, 0x01]).is_err());
    assert!(Request::from_bytes(&[]).is_err());
}

#[test]
fn test_decode_rejects_trailing_bytes() {
    let request = Request {
        command: RequestType::ReadFile as i32,
        filename: b"a".to_vec(),
        ip_addr: 0,
        data: Vec::new(),
    };
    let mut bytes = request.to_bytes().unwrap();
    bytes.push(0);
    assert!(Request::from_bytes(&bytes).is_err());
}

#[test]
fn test_request_type_codes_are_stable() {
    assert_eq!(RequestType::Ping as i32, 0);
    assert_eq!(RequestType::ListDir as i32, 1);
    assert_eq!(RequestType::ChangeDir as i32, 2);
    assert_eq!(RequestType::ReadFile as i32, 3);
    assert_eq!(RequestType::WriteFile as i32, 4);
    assert_eq!(RequestType::CreateFile as i32, 5);
    assert_eq!(RequestType::DeleteFile as i32, 6);
    assert_eq!(RequestType::CreateDir as i32, 7);
    assert_eq!(RequestType::DeleteDir as i32, 8);
    assert_eq!(RequestType::InfoFile as i32, 9);
    assert_eq!(RequestType::AppendFile as i32, 10);
    assert_eq!(RequestType::UploadFile as i32, 11);
    assert_eq!(RequestType::Terminate as i32, 12);
    for c in 0..=12 {
        assert_eq!(RequestType::from_i32(c).unwrap().code(), c);
    }
    assert!(RequestType::from_i32(13).is_none());
    assert!(RequestType::from_i32(-1).is_none());
    assert_eq!(ResponseType::Pong as i32, 0);
    assert_eq!(ResponseType::Terminated as i32, 7);
    assert_eq!(ResponseType::Error.code(), 6);
}

#[test]
fn test_empty_request_roundtrip() {
    let request = Request {
        command: 0,
        filename: Vec::new(),
        ip_addr: 0,
        data: Vec::new(),
    };
    let bytes = request.to_bytes().unwrap();
    let decoded = Request::from_bytes(&bytes).unwrap();
    assert_eq!(decoded.command, 0);
    assert!(decoded.filename.is_empty());
    assert!(decoded.data.is_empty());
}
