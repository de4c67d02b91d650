use fenris::proto::{Response, ResponseType};
use fenris::response_manager::{
    format_permissions, format_size, DefaultResponseFormatter, ResponseFormatter, ResponseManager,
};

#[test]
fn test_default_formatter() {
    let formatter = DefaultResponseFormatter::new();

    let response = Response {
        rtype: ResponseType::Success as i32,
        success: true,
        error_message: Vec::new(),
        data: b"Test data".to_vec(),
        details: None,
    };

    let formatted = formatter.format_response(&response);
    assert!(formatted.success);
    assert!(formatted.message.contains("Test data"));
}

#[test]
fn test_response_manager_wrapper() {
    let manager = ResponseManager::default();

    let response = Response {
        rtype: ResponseType::Pong as i32,
        success: true,
        error_message: Vec::new(),
        data: vec![],
        details: None,
    };

    let formatted = manager.format_response(&response);
    assert!(formatted.success);
    assert!(formatted.message.contains("PONG"));
}

#[test]
fn test_format_size() {
    assert_eq!(format_size(0), "0 B");
    assert_eq!(format_size(1023), "1023 B");
    assert_eq!(format_size(1024), "1.00 KB");
    assert_eq!(format_size(1024 * 1024), "1.00 MB");
}

#[test]
fn test_format_size_rounding() {
    assert_eq!(format_size(1536), "1.50 KB");
    assert_eq!(format_size(1048575), "1024.00 KB");
    assert_eq!(format_size(1024 * 1024 * 1024), "1.00 GB");
    assert_eq!(format_size(1024u64 * 1024 * 1024 * 1024), "1.00 TB");
    // 1152 / 1024 = 1.125 exactly; ties round to even.
    assert_eq!(format_size(1152), "1.12 KB");
}

#[test]
fn test_format_permissions() {
    assert_eq!(format_permissions(0o755), "rwxr-xr-x (755)");
    assert_eq!(format_permissions(0o644), "rw-r--r-- (644)");
}

#[test]
fn test_format_error_response() {
    let formatter = DefaultResponseFormatter::new();
    let response = Response {
        rtype: ResponseType::Error as i32,
        success: false,
        error_message: b"File operation failed: Not a directory".to_vec(),
        data: Vec::new(),
        details: None,
    };
    let formatted = formatter.format_response(&response);
    assert!(!formatted.success);
    assert_eq!(formatted.message, "File operation failed: Not a directory");
}

#[test]
fn test_format_change_dir_extracts_directory() {
    let formatter = DefaultResponseFormatter::new();
    let response = Response {
        rtype: ResponseType::ChangedDir as i32,
        success: true,
        error_message: Vec::new(),
        data: b"/data".to_vec(),
        details: None,
    };
    let formatted = formatter.format_response(&response);
    assert!(formatted.success);
    assert_eq!(formatted.message, "Changed directory to /data");
    assert_eq!(formatted.current_dir.as_deref(), Some("/data"));
    assert_eq!(
        formatter.extract_current_dir(&response).as_deref(),
        Some("/data")
    );
}
