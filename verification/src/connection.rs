//! The connection task's decisions: what one session does on each event.
//!
//! The loop that waits on the shutdown signal, the idle timer and the
//! channel runs outside the library; it hands each event here and performs
//! the returned action.

use vstd::prelude::*;
use crate::file_ops::FileOperations;
use crate::proto::{Request, RequestType, Response, spec_request_type_from};
use crate::request_handler::{
    RequestHandler, spec_response_invariant, spec_terminated_response,
};

verus! {

/// What reached a connection while it waited.
pub enum ConnectionEvent {
    /// The server's shutdown signal fired.
    Shutdown,
    /// The idle timer ran out before a request arrived.
    IdleTimeout,
    /// Receiving failed: the peer went away or the channel broke.
    RecvFailed,
    /// One complete request arrived.
    Received(Request),
}

/// What the connection loop does next.
pub enum ConnectionAction {
    /// Leave the loop without another word to the peer.
    Exit,
    /// Send this final reply, then leave the loop.
    SendAndExit(Response),
    /// Send this reply and keep looping.
    Send(Response),
}

/// Whether a request asks the session to end.
pub fn is_terminate(request: &Request) -> (r: bool)
    ensures
        r == (spec_request_type_from(request.command as int) == Some(RequestType::Terminate)),
{
    match RequestType::from_i32(request.command) {
        Some(RequestType::Terminate) => true,
        _ => false,
    }
}

/// The reply that acknowledges a terminate request.
pub fn terminated_response() -> (r: Response)
    ensures
        r@ == spec_terminated_response(),
{
    Response {
        rtype: 7,
        success: true,
        error_message: Vec::new(),
        data: Vec::new(),
        details: None,
    }
}

/// One step of the request loop: shutdown, idle expiry and receive
/// failures end the session; a terminate request is acknowledged exactly
/// once and ends it; anything else is handled and answered.
pub fn connection_step<F: FileOperations>(
    handler: &RequestHandler<F>,
    client_id: u64,
    event: ConnectionEvent,
    current_dir: &mut Vec<u8>,
) -> (r: ConnectionAction)
    ensures
        match event {
            ConnectionEvent::Shutdown | ConnectionEvent::IdleTimeout
                | ConnectionEvent::RecvFailed => r is Exit && final(current_dir)@ == old(
                current_dir,
            )@,
            ConnectionEvent::Received(req) => {
                if spec_request_type_from(req.command as int) == Some(RequestType::Terminate) {
                    &&& r matches ConnectionAction::SendAndExit(m) && m@
                        == spec_terminated_response()
                    &&& final(current_dir)@ == old(current_dir)@
                } else {
                    r matches ConnectionAction::Send(m) && spec_response_invariant(m@)
                }
            },
        },
        r matches ConnectionAction::SendAndExit(m) ==> m@ == spec_terminated_response(),
{
    match event {
        ConnectionEvent::Shutdown => ConnectionAction::Exit,
        ConnectionEvent::IdleTimeout => ConnectionAction::Exit,
        ConnectionEvent::RecvFailed => ConnectionAction::Exit,
        ConnectionEvent::Received(req) => {
            if is_terminate(&req) {
                ConnectionAction::SendAndExit(terminated_response())
            } else {
                ConnectionAction::Send(handler.process_request(client_id, &req, current_dir))
            }
        },
    }
}

} // verus!
