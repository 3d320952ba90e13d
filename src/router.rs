//! The decisions of the routing loops. Each loop receives one thing (an
//! envelope read from a transport, a message of the outbound side, an outcome
//! of the dispatcher) and the router says what to do with it; the loops only
//! carry the answer out.

use vstd::prelude::*;
use vstd::multiset::Multiset;
use crate::envelope::{CoreRpc, ProxyNotification, RequestId, RpcError, RpcMessage};
use crate::inbound::{InboundHandler, reply_for};
use crate::outbound::{OutboundHandler, spec_complete};

verus! {

/// What the reader loop does with one envelope read from the primary
/// transport.
#[derive(Debug, PartialEq, Eq)]
pub enum Incoming<T, Q, N, R> {
    /// Hand the request to the dispatcher; its outcome comes back through
    /// `Router::dispatch_finished`.
    Dispatch(RequestId, Q),
    /// Answer the request at once with the cancellation error.
    Cancel(RequestId),
    /// Hand the notification to the dispatcher.
    Notify(N),
    /// Fire the completion `T` of an outbound request with its outcome.
    Resolve(T, Result<R, RpcError>),
    /// Nothing to do: a reply for an id with no pending entry.
    Ignore,
}

/// The notification that an envelope read from the primary transport hands to
/// the dispatcher, if any.
pub open spec fn delivered<Q, N, R>(msg: RpcMessage<Q, N, R>) -> Option<N> {
    match msg {
        RpcMessage::Notification(n) => Some(n),
        _ => None,
    }
}

/// The notification that an envelope read from the single-instance socket
/// hands to the dispatcher: a request to open paths, and nothing else.
pub open spec fn socket_delivered<Q, N, R>(msg: RpcMessage<Q, ProxyNotification<N>, R>) -> Option<
    ProxyNotification<N>,
> {
    match msg {
        RpcMessage::Notification(n) => match n {
            ProxyNotification::OpenPaths { .. } => Some(n),
            _ => None,
        },
        _ => None,
    }
}

/// What the forwarding loop sends for one message of the outbound side;
/// `None` is the sentinel, on which the loop ends.
pub open spec fn spec_forward<Q, N, P>(msg: CoreRpc<Q, N>) -> Option<RpcMessage<Q, N, P>> {
    match msg {
        CoreRpc::Request(id, q) => Some(RpcMessage::Request(id, q)),
        CoreRpc::Notification(n) => Some(RpcMessage::Notification(n)),
        CoreRpc::Shutdown => None,
    }
}

/// The state shared by the routing loops: the table of outbound requests
/// awaiting replies, whose completions are `T`, and the inbound requests that
/// still owe a reply.
pub struct Router<T> {
    pub outbound: OutboundHandler<T>,
    pub inbound: InboundHandler,
}

impl<T> Router<T> {
    pub open spec fn wf(&self) -> bool {
        self.outbound.wf()
    }

    /// A router with nothing pending and nothing owed.
    pub fn new() -> (r: Self)
        ensures
            r.wf(),
            r.outbound.next_id() == 0,
            r.outbound.pending() == Seq::<(RequestId, T)>::empty(),
            !r.outbound.is_shut_down(),
            r.inbound.owed() == Multiset::<RequestId>::empty(),
            !r.inbound.is_shut_down(),
    {
        Router { outbound: OutboundHandler::new(), inbound: InboundHandler::new() }
    }

    /// Issues an outbound request: its completion waits in the table and the
    /// request goes to the forwarding loop. Where no id is issued (shut down,
    /// or ids exhausted) the completion is handed back, to be resolved with
    /// the cancellation error.
    pub fn send_request<Q, N>(&mut self, payload: Q, completion: T) -> (r: Result<CoreRpc<Q, N>, T>)
        requires
            old(self).wf(),
        ensures
            final(self).wf(),
            final(self).inbound == old(self).inbound,
            r is Ok <==> !old(self).outbound.is_shut_down() && old(self).outbound.next_id()
                < RequestId::MAX,
            r is Ok ==> {
                &&& r == Ok::<CoreRpc<Q, N>, T>(CoreRpc::Request(old(self).outbound.next_id(), payload))
                &&& final(self).outbound.pending() == old(self).outbound.pending().push(
                    (old(self).outbound.next_id(), completion),
                )
                &&& final(self).outbound.next_id() == old(self).outbound.next_id() + 1
            },
            r is Err ==> r == Err::<CoreRpc<Q, N>, T>(completion) && final(self).outbound
                == old(self).outbound,
    {
        match self.outbound.send_request(completion) {
            Ok(id) => Ok(CoreRpc::Request(id, payload)),
            Err(c) => Err(c),
        }
    }

    /// Decides what the reader loop does with one envelope from the primary
    /// transport: requests go to the dispatcher (or are cancelled once the
    /// inbound side has shut down), notifications go to the dispatcher, and
    /// replies resolve the pending outbound request with their id, if any.
    pub fn handle_incoming<Q, N, R>(&mut self, msg: RpcMessage<Q, N, R>) -> (r: Incoming<T, Q, N, R>)
        requires
            old(self).wf(),
        ensures
            final(self).wf(),
            final(self).outbound.next_id() == old(self).outbound.next_id(),
            final(self).outbound.is_shut_down() == old(self).outbound.is_shut_down(),
            final(self).inbound.is_shut_down() == old(self).inbound.is_shut_down(),
            match msg {
                RpcMessage::Request(id, q) => {
                    &&& final(self).outbound.pending() == old(self).outbound.pending()
                    &&& if old(self).inbound.is_shut_down() {
                        r == Incoming::<T, Q, N, R>::Cancel(id) && final(self).inbound.owed()
                            == old(self).inbound.owed()
                    } else {
                        r == Incoming::<T, Q, N, R>::Dispatch(id, q) && final(self).inbound.owed()
                            == old(self).inbound.owed().insert(id)
                    }
                },
                RpcMessage::Notification(n) => {
                    &&& r == Incoming::<T, Q, N, R>::Notify(n)
                    &&& final(self).outbound.pending() == old(self).outbound.pending()
                    &&& final(self).inbound.owed() == old(self).inbound.owed()
                },
                RpcMessage::Response(id, p) => {
                    &&& final(self).inbound.owed() == old(self).inbound.owed()
                    &&& final(self).outbound.pending() == spec_complete(
                        old(self).outbound.pending(),
                        id,
                    ).0
                    &&& match spec_complete(old(self).outbound.pending(), id).1 {
                        Some(t) => r == Incoming::<T, Q, N, R>::Resolve(t, Ok(p)),
                        None => r == Incoming::<T, Q, N, R>::Ignore,
                    }
                },
                RpcMessage::Error(id, e) => {
                    &&& final(self).inbound.owed() == old(self).inbound.owed()
                    &&& final(self).outbound.pending() == spec_complete(
                        old(self).outbound.pending(),
                        id,
                    ).0
                    &&& match spec_complete(old(self).outbound.pending(), id).1 {
                        Some(t) => r == Incoming::<T, Q, N, R>::Resolve(t, Err(e)),
                        None => r == Incoming::<T, Q, N, R>::Ignore,
                    }
                },
            },
    {
        match msg {
            RpcMessage::Request(id, q) => {
                if self.inbound.accept(id) {
                    Incoming::Dispatch(id, q)
                } else {
                    Incoming::Cancel(id)
                }
            },
            RpcMessage::Notification(n) => Incoming::Notify(n),
            RpcMessage::Response(id, p) => match self.outbound.complete(id) {
                Some(t) => Incoming::Resolve(t, Ok(p)),
                None => Incoming::Ignore,
            },
            RpcMessage::Error(id, e) => match self.outbound.complete(id) {
                Some(t) => Incoming::Resolve(t, Err(e)),
                None => Incoming::Ignore,
            },
        }
    }

    /// Turns the dispatcher's outcome for inbound request `id` into the reply
    /// to enqueue on the primary transport, if one is still owed.
    pub fn dispatch_finished<Q, N, P>(&mut self, id: RequestId, result: Result<P, RpcError>) -> (r:
        Option<RpcMessage<Q, N, P>>)
        requires
            old(self).wf(),
        ensures
            final(self).wf(),
            final(self).outbound == old(self).outbound,
            final(self).inbound.is_shut_down() == old(self).inbound.is_shut_down(),
            old(self).inbound.owed().count(id) > 0 ==> {
                &&& r == Some(reply_for::<Q, N, P>(id, result))
                &&& final(self).inbound.owed() == old(self).inbound.owed().remove(id)
            },
            old(self).inbound.owed().count(id) == 0 ==> {
                &&& r is None
                &&& final(self).inbound.owed() == old(self).inbound.owed()
            },
    {
        self.inbound.finish(id, result)
    }
}

/// Decides what the forwarding loop sends for one message of the outbound
/// side: requests and notifications pass on unchanged, and the shutdown
/// sentinel ends the loop.
pub fn forward<Q, N, P>(msg: CoreRpc<Q, N>) -> (r: Option<RpcMessage<Q, N, P>>)
    ensures
        r == spec_forward::<Q, N, P>(msg),
{
    match msg {
        CoreRpc::Request(id, q) => Some(RpcMessage::Request(id, q)),
        CoreRpc::Notification(n) => Some(RpcMessage::Notification(n)),
        CoreRpc::Shutdown => None,
    }
}

/// Decides what a reader on the single-instance socket hands to the
/// dispatcher for one envelope: a request to open paths, and nothing else.
pub fn handle_socket<Q, N, R>(msg: RpcMessage<Q, ProxyNotification<N>, R>) -> (r: Option<
    ProxyNotification<N>,
>)
    ensures
        r == socket_delivered(msg),
{
    match msg {
        RpcMessage::Notification(n) => match n {
            ProxyNotification::OpenPaths { folders, files } => Some(
                ProxyNotification::OpenPaths { folders, files },
            ),
            ProxyNotification::Other(_) => None,
        },
        _ => None,
    }
}

/// A request to open paths that comes over the single-instance socket reaches
/// the dispatcher as the very notification it would be had it come over the
/// primary transport.
pub proof fn lemma_socket_and_stdio_deliver_alike<Q, N, R>(
    msg: RpcMessage<Q, ProxyNotification<N>, R>,
)
    ensures
        socket_delivered(msg) is Some ==> socket_delivered(msg) == delivered(msg),
        (msg matches RpcMessage::Notification(n) && n is OpenPaths) ==> socket_delivered(msg)
            == delivered(msg),
{
}

} // verus!
