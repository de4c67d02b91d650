use fenris::error::FenrisError;
use fenris::file_ops::DefaultFileOperations;

#[test]
fn test_path_traversal_prevention() {
    let file_ops = DefaultFileOperations::new(b"/srv/sandbox".to_vec());

    let result = file_ops.resolve_path(b"../../../etc/passwd");
    assert!(result.is_err());
}

#[test]
fn test_traversal_error_message() {
    let file_ops = DefaultFileOperations::new(b"/srv/sandbox".to_vec());
    match file_ops.resolve_path(b"data/../../escape") {
        Err(FenrisError::FileOperationError(msg)) => {
            assert_eq!(msg, "Path outside base directory");
        }
        _ => panic!("expected a file-operation error"),
    }
}

#[test]
fn test_resolve_plain_paths() {
    let file_ops = DefaultFileOperations::new(b"/srv/sandbox".to_vec());
    assert_eq!(
        file_ops.resolve_path(b"data/f1.txt").unwrap(),
        b"/srv/sandbox/data/f1.txt"
    );
    // A leading slash is re-anchored under the base directory.
    assert_eq!(
        file_ops.resolve_path(b"/etc/passwd").unwrap(),
        b"/srv/sandbox/etc/passwd"
    );
    // `.` and doubled separators vanish; `..` inside the sandbox pops.
    assert_eq!(
        file_ops.resolve_path(b"./a//b/./../c").unwrap(),
        b"/srv/sandbox/a/c"
    );
    // The empty path is the base directory itself.
    assert_eq!(file_ops.resolve_path(b"").unwrap(), b"/srv/sandbox");
}

#[test]
fn test_up_then_back_is_contained() {
    let file_ops = DefaultFileOperations::new(b"/base".to_vec());
    assert_eq!(file_ops.resolve_path(b"a/../a/x").unwrap(), b"/base/a/x");
    assert!(file_ops.resolve_path(b"a/../../x").is_err());
}

#[test]
fn test_base_dir_accessor() {
    let file_ops = DefaultFileOperations::new(b"/tmp/root".to_vec());
    assert_eq!(file_ops.base_dir(), &b"/tmp/root".to_vec());
}
