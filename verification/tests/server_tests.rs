use fenris::client_info::ClientInfo;
use fenris::connection::{connection_step, ConnectionAction, ConnectionEvent};
use fenris::connection_manager::ServerInfo;
use fenris::proto::{Request, RequestType, ResponseType};
use fenris::request_handler::RequestHandler;
use fenris::server::{AdmitDecision, ServerConfig, ServerState};

use fenris::error::FenrisError;
use fenris::file_ops::{FileMetadata, FileOperations};

/// A filesystem stub for driving the connection state machine; every
/// operation fails, which the decision logic must tolerate.
struct NoFs;

impl FileOperations for NoFs {
    fn create_file(&self, _path: &[u8]) -> Result<(), FenrisError> {
        Err(FenrisError::FileOperationError(String::from("unsupported")))
    }

    fn read_file(&self, _path: &[u8]) -> Result<Vec<u8>, FenrisError> {
        Err(FenrisError::FileOperationError(String::from("unsupported")))
    }

    fn write_file(&self, _path: &[u8], _data: &[u8]) -> Result<(), FenrisError> {
        Err(FenrisError::FileOperationError(String::from("unsupported")))
    }

    fn append_file(&self, _path: &[u8], _data: &[u8]) -> Result<(), FenrisError> {
        Err(FenrisError::FileOperationError(String::from("unsupported")))
    }

    fn delete_file(&self, _path: &[u8]) -> Result<(), FenrisError> {
        Err(FenrisError::FileOperationError(String::from("unsupported")))
    }

    fn file_info(&self, _path: &[u8]) -> Result<FileMetadata, FenrisError> {
        Err(FenrisError::FileOperationError(String::from("unsupported")))
    }

    fn create_dir(&self, _path: &[u8]) -> Result<(), FenrisError> {
        Err(FenrisError::FileOperationError(String::from("unsupported")))
    }

    fn list_dir(&self, _path: &[u8]) -> Result<Vec<FileMetadata>, FenrisError> {
        Err(FenrisError::FileOperationError(String::from("unsupported")))
    }

    fn delete_dir(&self, _path: &[u8]) -> Result<(), FenrisError> {
        Err(FenrisError::FileOperationError(String::from("unsupported")))
    }

    fn path_exists(&self, _path: &[u8]) -> bool {
        false
    }

    fn is_dir(&self, _path: &[u8]) -> bool {
        false
    }

    fn is_file(&self, _path: &[u8]) -> bool {
        false
    }
}

#[test]
fn test_server_info_to_socket_addr() {
    let info = ServerInfo::new(String::from("localhost"), 8080);
    assert_eq!(info.to_socket_addr(), "localhost:8080");
}

#[test]
fn test_server_config_defaults() {
    let config = ServerConfig::default();
    assert_eq!(config.max_connections, 1024);
    assert_eq!(config.handshake_timeout_secs, 10);
    assert_eq!(config.idle_timeout_secs, Some(300));
    assert!(config.reject_when_full);
    assert_eq!(config.tcp_keepalive_secs, Some(60));
}

#[test]
fn test_server_config_builder() {
    let config = ServerConfig::builder()
        .max_connections(4)
        .handshake_timeout(2)
        .idle_timeout(None)
        .reject_when_full(false)
        .build();
    assert_eq!(config.max_connections, 4);
    assert_eq!(config.handshake_timeout_secs, 2);
    assert_eq!(config.idle_timeout_secs, Some(0));
    assert!(!config.reject_when_full);
    assert_eq!(config.tcp_keepalive_secs, Some(60));
}

#[test]
fn test_capacity_admission() {
    let config = ServerConfig::builder()
        .max_connections(2)
        .reject_when_full(true)
        .build();
    let mut state = ServerState::new();
    assert_eq!(state.admission(&config), AdmitDecision::Accept);
    let first = state.register_connection(&config);
    let second = state.register_connection(&config);
    assert_eq!(first, 1);
    assert_eq!(second, 2);
    // The third concurrent connection is dropped.
    assert_eq!(state.admission(&config), AdmitDecision::Reject);

    // With reject_when_full=false it queues instead.
    let queueing = ServerConfig::builder()
        .max_connections(2)
        .reject_when_full(false)
        .build();
    assert_eq!(state.admission(&queueing), AdmitDecision::Wait);

    // Releasing a slot admits again, and ids never repeat.
    state.release_connection();
    assert_eq!(state.admission(&config), AdmitDecision::Accept);
    let third = state.register_connection(&config);
    assert_eq!(third, 3);
}

#[test]
fn test_client_info_clock() {
    let mut info = ClientInfo::new(7, String::from("127.0.0.1:9000"), 100);
    assert_eq!(info.current_dir, b"/");
    assert_eq!(info.idle_duration(130), 30);
    assert_eq!(info.connection_duration(130), 30);
    info.update_activity(130);
    assert_eq!(info.idle_duration(130), 0);
    assert_eq!(info.connection_duration(160), 60);
    // Expiry needs more than the limit, and a zero limit never expires.
    assert!(!info.idle_expired(160, 30));
    assert!(info.idle_expired(161, 30));
    assert!(!info.idle_expired(u64::MAX, 0));
}

#[test]
fn test_connection_step_exits() {
    let handler = RequestHandler::new(NoFs);
    let mut current_dir = b"/".to_vec();
    for event in [
        ConnectionEvent::Shutdown,
        ConnectionEvent::IdleTimeout,
        ConnectionEvent::RecvFailed,
    ] {
        match connection_step(&handler, 1, event, &mut current_dir) {
            ConnectionAction::Exit => {}
            _ => panic!("expected the session to end"),
        }
    }
    assert_eq!(current_dir, b"/");
}

#[test]
fn test_connection_step_terminate() {
    let handler = RequestHandler::new(NoFs);
    let mut current_dir = b"/".to_vec();
    let request = Request {
        command: RequestType::Terminate as i32,
        filename: Vec::new(),
        ip_addr: 0,
        data: Vec::new(),
    };
    match connection_step(&handler, 1, ConnectionEvent::Received(request), &mut current_dir) {
        ConnectionAction::SendAndExit(resp) => {
            assert_eq!(resp.rtype, ResponseType::Terminated as i32);
            assert!(resp.success);
        }
        _ => panic!("expected a final terminated reply"),
    }
}

#[test]
fn test_connection_step_answers_ping() {
    let handler = RequestHandler::new(NoFs);
    let mut current_dir = b"/".to_vec();
    let request = Request {
        command: RequestType::Ping as i32,
        filename: Vec::new(),
        ip_addr: 0,
        data: Vec::new(),
    };
    match connection_step(&handler, 1, ConnectionEvent::Received(request), &mut current_dir) {
        ConnectionAction::Send(resp) => {
            assert_eq!(resp.rtype, ResponseType::Pong as i32);
            assert!(resp.success);
        }
        _ => panic!("expected a pong reply"),
    }
}
