use std::cell::RefCell;
use std::collections::{HashMap, HashSet};

use fenris::error::FenrisError;
use fenris::file_ops::{FileMetadata, FileOperations};
use fenris::proto::{Details, Request, RequestType, Response, ResponseType};
use fenris::request_handler::RequestHandler;

/// An in-memory filesystem keyed by the absolute session paths the
/// handler resolves.
#[derive(Default)]
struct MockFileOps {
    files: RefCell<HashMap<Vec<u8>, Vec<u8>>>,
    dirs: RefCell<HashSet<Vec<u8>>>,
}

impl MockFileOps {
    fn new() -> Self {
        let ops = MockFileOps::default();
        ops.dirs.borrow_mut().insert(b"/".to_vec());
        ops
    }
}

fn name_of(path: &[u8]) -> Vec<u8> {
    match path.iter().rposition(|b| *b == b'/') {
        Some(i) => path[i + 1..].to_vec(),
        None => path.to_vec(),
    }
}

fn parent_of(path: &[u8]) -> Vec<u8> {
    match path.iter().rposition(|b| *b == b'/') {
        Some(0) => b"/".to_vec(),
        Some(i) => path[..i].to_vec(),
        None => b"/".to_vec(),
    }
}

impl FileOperations for MockFileOps {
    fn create_file(&self, path: &[u8]) -> Result<(), FenrisError> {
        self.files.borrow_mut().insert(path.to_vec(), Vec::new());
        Ok(())
    }

    fn read_file(&self, path: &[u8]) -> Result<Vec<u8>, FenrisError> {
        self.files
            .borrow()
            .get(path)
            .cloned()
            .ok_or_else(|| FenrisError::FileOperationError(String::from("File not found")))
    }

    fn write_file(&self, path: &[u8], data: &[u8]) -> Result<(), FenrisError> {
        self.files.borrow_mut().insert(path.to_vec(), data.to_vec());
        Ok(())
    }

    fn append_file(&self, path: &[u8], data: &[u8]) -> Result<(), FenrisError> {
        let mut files = self.files.borrow_mut();
        match files.get_mut(path) {
            Some(contents) => {
                contents.extend_from_slice(data);
                Ok(())
            }
            None => Err(FenrisError::FileOperationError(String::from(
                "File not found",
            ))),
        }
    }

    fn delete_file(&self, path: &[u8]) -> Result<(), FenrisError> {
        if self.files.borrow_mut().remove(path).is_some() {
            Ok(())
        } else {
            Err(FenrisError::FileOperationError(String::from(
                "File not found",
            )))
        }
    }

    fn file_info(&self, path: &[u8]) -> Result<FileMetadata, FenrisError> {
        if let Some(data) = self.files.borrow().get(path) {
            return Ok(FileMetadata {
                name: name_of(path),
                size: data.len() as u64,
                is_directory: false,
                modified_time: 0,
                permissions: 0o644,
            });
        }
        if self.dirs.borrow().contains(path) {
            return Ok(FileMetadata {
                name: name_of(path),
                size: 0,
                is_directory: true,
                modified_time: 0,
                permissions: 0o755,
            });
        }
        Err(FenrisError::FileOperationError(String::from("NotFound")))
    }

    fn create_dir(&self, path: &[u8]) -> Result<(), FenrisError> {
        self.dirs.borrow_mut().insert(path.to_vec());
        Ok(())
    }

    fn list_dir(&self, path: &[u8]) -> Result<Vec<FileMetadata>, FenrisError> {
        let mut entries = Vec::new();
        for d in self.dirs.borrow().iter() {
            if d.as_slice() != path && parent_of(d) == path {
                entries.push(FileMetadata {
                    name: name_of(d),
                    size: 0,
                    is_directory: true,
                    modified_time: 0,
                    permissions: 0o755,
                });
            }
        }
        for (f, data) in self.files.borrow().iter() {
            if parent_of(f) == path {
                entries.push(FileMetadata {
                    name: name_of(f),
                    size: data.len() as u64,
                    is_directory: false,
                    modified_time: 0,
                    permissions: 0o644,
                });
            }
        }
        Ok(entries)
    }

    fn delete_dir(&self, path: &[u8]) -> Result<(), FenrisError> {
        if self.dirs.borrow_mut().remove(path) {
            Ok(())
        } else {
            Err(FenrisError::FileOperationError(String::from(
                "Dir not found",
            )))
        }
    }

    fn path_exists(&self, path: &[u8]) -> bool {
        self.files.borrow().contains_key(path) || self.dirs.borrow().contains(path)
    }

    fn is_dir(&self, path: &[u8]) -> bool {
        self.dirs.borrow().contains(path)
    }

    fn is_file(&self, path: &[u8]) -> bool {
        self.files.borrow().contains_key(path)
    }
}

fn create_handler() -> RequestHandler<MockFileOps> {
    RequestHandler::new(MockFileOps::new())
}

fn request(command: i32, filename: &[u8], data: &[u8]) -> Request {
    Request {
        command,
        filename: filename.to_vec(),
        ip_addr: 0,
        data: data.to_vec(),
    }
}

#[test]
fn test_ping() {
    let handler = create_handler();
    let mut current_dir = b"/".to_vec();
    let req = request(RequestType::Ping as i32, b"", b"");

    let response = handler.process_request(1, &req, &mut current_dir);
    assert_eq!(response.rtype, ResponseType::Pong as i32);
    assert!(response.success);
}

#[test]
fn test_create_file() {
    let handler = create_handler();
    let mut current_dir = b"/home".to_vec();
    handler.file_ops.create_dir(b"/home").unwrap();

    let req = request(RequestType::CreateFile as i32, b"test.txt", b"");
    let response = handler.process_request(1, &req, &mut current_dir);
    assert!(response.success);

    assert!(handler
        .file_ops
        .files
        .borrow()
        .contains_key(&b"/home/test.txt".to_vec()));
}

#[test]
fn request_handler_test_write_and_read_file() {
    let handler = create_handler();
    let mut current_dir = b"/".to_vec();

    let data = b"Hello, World!".to_vec();
    let req_write = request(RequestType::WriteFile as i32, b"hello.txt", &data);
    let resp_write = handler.process_request(1, &req_write, &mut current_dir);
    assert!(resp_write.success);

    let req_read = request(RequestType::ReadFile as i32, b"hello.txt", b"");
    let resp_read = handler.process_request(1, &req_read, &mut current_dir);
    assert!(resp_read.success);
    assert_eq!(resp_read.data, data);
    assert_eq!(resp_read.rtype, ResponseType::FileContent as i32);
}

#[test]
fn request_handler_test_append_file() {
    let handler = create_handler();
    let mut current_dir = b"/".to_vec();

    handler.file_ops.write_file(b"/log.txt", b"Init").unwrap();

    let req = request(RequestType::AppendFile as i32, b"log.txt", b" - More");
    let response = handler.process_request(1, &req, &mut current_dir);
    assert!(response.success);

    let content = handler.file_ops.read_file(b"/log.txt").unwrap();
    assert_eq!(content, b"Init - More");
}

#[test]
fn request_handler_test_delete_file() {
    let handler = create_handler();
    let mut current_dir = b"/".to_vec();

    handler.file_ops.create_file(b"/temp.txt").unwrap();

    let req = request(RequestType::DeleteFile as i32, b"temp.txt", b"");
    let response = handler.process_request(1, &req, &mut current_dir);
    assert!(response.success);
    assert!(!handler.file_ops.path_exists(b"/temp.txt"));
}

#[test]
fn test_change_dir() {
    let handler = create_handler();
    let mut current_dir = b"/".to_vec();

    handler.file_ops.create_dir(b"/data").unwrap();

    // cd data
    let req1 = request(RequestType::ChangeDir as i32, b"data", b"");
    let resp1 = handler.process_request(1, &req1, &mut current_dir);
    assert!(resp1.success);
    assert_eq!(current_dir, b"/data");

    // cd ..
    let req2 = request(RequestType::ChangeDir as i32, b"..", b"");
    let resp2 = handler.process_request(1, &req2, &mut current_dir);
    assert!(resp2.success);
    assert_eq!(current_dir, b"/");

    // cd to non-existent
    let req3 = request(RequestType::ChangeDir as i32, b"missing", b"");
    let resp3 = handler.process_request(1, &req3, &mut current_dir);
    assert!(!resp3.success);
    assert_eq!(current_dir, b"/"); // Should not change
}

#[test]
fn test_list_dir() {
    let handler = create_handler();
    let mut current_dir = b"/".to_vec();

    handler.file_ops.create_dir(b"/data").unwrap();
    handler.file_ops.create_file(b"/data/f1.txt").unwrap();
    handler.file_ops.create_dir(b"/data/sub").unwrap();

    let req = request(RequestType::ListDir as i32, b"data", b"");
    let response = handler.process_request(1, &req, &mut current_dir);
    assert!(response.success);

    if let Some(Details::DirectoryListing(listing)) = response.details {
        assert_eq!(listing.entries.len(), 2);
        let names: Vec<Vec<u8>> = listing.entries.iter().map(|e| e.name.clone()).collect();
        assert!(names.contains(&b"f1.txt".to_vec()));
        assert!(names.contains(&b"sub".to_vec()));
    } else {
        panic!("Expected DirectoryListing details");
    }
}

#[test]
fn test_create_and_delete_dir() {
    let handler = create_handler();
    let mut current_dir = b"/".to_vec();

    let req_create = request(RequestType::CreateDir as i32, b"newdir", b"");
    let resp_create = handler.process_request(1, &req_create, &mut current_dir);
    assert!(resp_create.success);
    assert!(handler.file_ops.is_dir(b"/newdir"));

    let req_delete = request(RequestType::DeleteDir as i32, b"newdir", b"");
    let resp_delete = handler.process_request(1, &req_delete, &mut current_dir);
    assert!(resp_delete.success);
    assert!(!handler.file_ops.is_dir(b"/newdir"));
}

#[test]
fn test_file_info() {
    let handler = create_handler();
    let mut current_dir = b"/".to_vec();
    handler.file_ops.create_file(b"/info.txt").unwrap();

    let req = request(RequestType::InfoFile as i32, b"info.txt", b"");
    let response = handler.process_request(1, &req, &mut current_dir);
    assert!(response.success);
    if let Some(Details::FileInfo(info)) = response.details {
        assert_eq!(info.name, b"info.txt".to_vec());
        assert!(!info.is_directory);
    } else {
        panic!("Expected FileInfo details");
    }
}

#[test]
fn test_upload_file() {
    let handler = create_handler();
    let mut current_dir = b"/".to_vec();

    let data = b"Upload Data".to_vec();
    let req = request(RequestType::UploadFile as i32, b"upload.dat", &data);
    let response = handler.process_request(1, &req, &mut current_dir);
    assert!(response.success);

    let file_data = handler.file_ops.read_file(b"/upload.dat").unwrap();
    assert_eq!(file_data, data);
}

#[test]
fn test_unknown_command_is_rejected() {
    let handler = create_handler();
    let mut current_dir = b"/".to_vec();
    let req = request(99, b"", b"");
    let response = handler.process_request(1, &req, &mut current_dir);
    assert!(!response.success);
    assert_eq!(response.rtype, ResponseType::Error as i32);
    assert_eq!(response.error_message, b"Invalid request type");
}

#[test]
fn test_every_kind_but_terminate_answers() {
    let handler = create_handler();
    let mut current_dir = b"/".to_vec();
    for command in 0..12 {
        let req = request(command, b"something", b"payload");
        let response = handler.process_request(1, &req, &mut current_dir);
        if !response.success {
            assert_eq!(response.rtype, ResponseType::Error as i32);
            assert!(!response.error_message.is_empty());
            assert!(response.data.is_empty());
        }
    }
}

#[test]
fn test_cd_variants() {
    let handler = create_handler();
    handler.file_ops.create_dir(b"/a").unwrap();
    handler.file_ops.create_dir(b"/a/b").unwrap();

    // cd /a/b by absolute path
    let mut current_dir = b"/".to_vec();
    let resp = handler.process_request(
        1,
        &request(RequestType::ChangeDir as i32, b"/a/b", b""),
        &mut current_dir,
    );
    assert!(resp.success);
    assert_eq!(current_dir, b"/a/b");
    assert_eq!(resp.data, b"/a/b");

    // cd ~ resets to the root
    let resp = handler.process_request(
        1,
        &request(RequestType::ChangeDir as i32, b"~", b""),
        &mut current_dir,
    );
    assert!(resp.success);
    assert_eq!(current_dir, b"/");

    // cd . stays put
    let resp = handler.process_request(
        1,
        &request(RequestType::ChangeDir as i32, b".", b""),
        &mut current_dir,
    );
    assert!(resp.success);
    assert_eq!(current_dir, b"/");

    // cd .. at the root stays at the root
    let resp = handler.process_request(
        1,
        &request(RequestType::ChangeDir as i32, b"..", b""),
        &mut current_dir,
    );
    assert!(resp.success);
    assert_eq!(current_dir, b"/");
}
