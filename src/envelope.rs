//! The envelopes exchanged on either transport.

use vstd::prelude::*;

verus! {

/// Identifier that links a request to its eventual response or error.
pub type RequestId = u64;

/// The error payload of a failed reply.
#[derive(Clone, Debug, PartialEq, Eq)]
pub struct RpcError {
    pub code: i64,
    pub message: String,
}

/// Code of the error that resolves a request cut short by shutdown.
pub const CANCELLED_CODE: i64 = -32800;

/// The error that resolves a request cut short by shutdown.
pub open spec fn is_cancellation(e: RpcError) -> bool {
    e.code == CANCELLED_CODE && e.message@ == "handler shut down"@
}

/// One framed protocol message: a request with its id, a successful or failed
/// reply carrying the id of its request, or a notification, which has no id.
#[derive(Debug, PartialEq, Eq)]
pub enum RpcMessage<Q, N, P> {
    Request(RequestId, Q),
    Notification(N),
    Response(RequestId, P),
    Error(RequestId, RpcError),
}

/// What the outbound side hands to its forwarding loop: an envelope to send, or
/// the sentinel that ends the loop.
#[derive(Debug, PartialEq, Eq)]
pub enum CoreRpc<Q, N> {
    Request(RequestId, Q),
    Notification(N),
    Shutdown,
}

/// A notification arriving at the backend: a request to open paths, which may
/// also come over the single-instance socket, or any other notification.
#[derive(Debug, PartialEq, Eq)]
pub enum ProxyNotification<N> {
    OpenPaths { folders: Vec<String>, files: Vec<String> },
    Other(N),
}

/// The error that resolves a request cut short by shutdown.
pub fn cancellation_error() -> (e: RpcError)
    ensures
        is_cancellation(e),
{
    proof {
        reveal_strlit("handler shut down");
    }
    RpcError { code: CANCELLED_CODE, message: String::from_str("handler shut down") }
}

} // verus!
