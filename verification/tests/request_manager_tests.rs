use fenris::error::FenrisError;
use fenris::proto::RequestType;
use fenris::request_manager::{DefaultRequestManager, RequestManager};

#[test]
fn test_build_ping() {
    let manager = DefaultRequestManager;
    let request = fenris::request_manager::RequestBuilder::build_request(&manager, b"ping")
        .unwrap();

    assert_eq!(request.command, RequestType::Ping as i32);
}

#[test]
fn test_build_list_dir() {
    let manager = RequestManager::default();

    let request = manager.build_request(b"ls /home").unwrap();
    assert_eq!(request.command, RequestType::ListDir as i32);
    assert_eq!(request.filename, b"/home");

    let request_default = manager.build_request(b"ls").unwrap();
    assert_eq!(request_default.command, RequestType::ListDir as i32);
    assert_eq!(request_default.filename, b".");
}

#[test]
fn test_build_change_dir() {
    let manager = RequestManager::default();
    let request = manager.build_request(b"cd /tmp").unwrap();
    assert_eq!(request.command, RequestType::ChangeDir as i32);
    assert_eq!(request.filename, b"/tmp");

    // Test without argument (defaults to "~")
    let request_default = manager.build_request(b"cd").unwrap();
    assert_eq!(request_default.command, RequestType::ChangeDir as i32);
    assert_eq!(request_default.filename, b"~");
}

#[test]
fn test_build_read_file() {
    let manager = RequestManager::default();
    let request = manager.build_request(b"read test.txt").unwrap();

    assert_eq!(request.command, RequestType::ReadFile as i32);
    assert_eq!(request.filename, b"test.txt");

    // missing filename
    let result = manager.build_request(b"read");
    assert!(matches!(result.unwrap_err(), FenrisError::MissingField(_)));
}

#[test]
fn test_build_write_file() {
    let manager = RequestManager::default();
    let request = manager.build_request(b"write test.txt Hello World").unwrap();

    assert_eq!(request.command, RequestType::WriteFile as i32);
    assert_eq!(request.filename, b"test.txt");
    assert_eq!(request.data, b"Hello World");

    // missing data
    let result = manager.build_request(b"write test.txt");
    assert!(matches!(result.unwrap_err(), FenrisError::MissingField(_)));
}

#[test]
fn test_build_create_file() {
    let manager = RequestManager::default();
    let request = manager.build_request(b"create newfile.txt").unwrap();

    assert_eq!(request.command, RequestType::CreateFile as i32);
    assert_eq!(request.filename, b"newfile.txt");

    // missing filename
    let result = manager.build_request(b"create");
    assert!(matches!(result.unwrap_err(), FenrisError::MissingField(_)));
}

#[test]
fn test_build_delete_file() {
    let manager = RequestManager::default();
    let request = manager.build_request(b"rm oldfile.txt").unwrap();

    assert_eq!(request.command, RequestType::DeleteFile as i32);
    assert_eq!(request.filename, b"oldfile.txt");

    // missing filename
    let result = manager.build_request(b"rm");
    assert!(matches!(result.unwrap_err(), FenrisError::MissingField(_)));
}

#[test]
fn test_build_create_dir() {
    let manager = RequestManager::default();
    let request = manager.build_request(b"mkdir newdir").unwrap();

    assert_eq!(request.command, RequestType::CreateDir as i32);
    assert_eq!(request.filename, b"newdir");

    // missing dirname
    let result = manager.build_request(b"mkdir");
    assert!(matches!(result.unwrap_err(), FenrisError::MissingField(_)));
}

#[test]
fn test_build_delete_dir() {
    let manager = RequestManager::default();
    let request = manager.build_request(b"rmdir olddir").unwrap();

    assert_eq!(request.command, RequestType::DeleteDir as i32);
    assert_eq!(request.filename, b"olddir");

    // missing dirname
    let result = manager.build_request(b"rmdir");
    assert!(matches!(result.unwrap_err(), FenrisError::MissingField(_)));
}

#[test]
fn test_build_file_info() {
    let manager = RequestManager::default();
    let request = manager.build_request(b"info myfile.txt").unwrap();

    assert_eq!(request.command, RequestType::InfoFile as i32);
    assert_eq!(request.filename, b"myfile.txt");

    // missing filename
    let result = manager.build_request(b"info");
    assert!(matches!(result.unwrap_err(), FenrisError::MissingField(_)));
}

#[test]
fn test_build_append_file() {
    let manager = RequestManager::default();
    let request = manager.build_request(b"append log.txt new entry").unwrap();

    assert_eq!(request.command, RequestType::AppendFile as i32);
    assert_eq!(request.filename, b"log.txt");
    assert_eq!(request.data, b"new entry");

    // missing data
    let result = manager.build_request(b"append log.txt");
    assert!(matches!(result.unwrap_err(), FenrisError::MissingField(_)));
}

#[test]
fn test_build_upload_file() {
    let manager = DefaultRequestManager;
    let args = vec![b"local_file.txt".to_vec(), b"remote_file.txt".to_vec()];
    let request = manager
        .build_upload_file(&args, b"Content to upload".to_vec())
        .unwrap();

    assert_eq!(request.command, RequestType::UploadFile as i32);
    assert_eq!(request.filename, b"remote_file.txt");
    assert_eq!(request.data, b"Content to upload");

    // missing destination
    let result = manager.build_upload_file(&args[..1], Vec::new());
    assert!(matches!(result.unwrap_err(), FenrisError::MissingField(_)));
}

#[test]
fn test_invalid_command() {
    let manager = RequestManager::default();
    let result = manager.build_request(b"invalid");

    assert!(result.is_err());
    assert!(matches!(
        result.err().unwrap(),
        FenrisError::InvalidProtocolMessage
    ));
}

#[test]
fn test_command_case_and_spacing() {
    let manager = RequestManager::default();
    let request = manager.build_request(b"  PING  ").unwrap();
    assert_eq!(request.command, RequestType::Ping as i32);
    let request = manager.build_request(b"Write a.txt  x   y").unwrap();
    assert_eq!(request.data, b"x y");
}
