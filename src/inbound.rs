//! The bookkeeping of inbound requests: which requests have been handed to the
//! dispatcher and still owe their one reply.

use vstd::prelude::*;
use vstd::multiset::Multiset;
use crate::envelope::{RequestId, RpcError, RpcMessage, cancellation_error, is_cancellation};

verus! {

broadcast use vstd::seq_lib::group_to_multiset_ensures;

/// The reply that a dispatch outcome becomes: a response on success, an error
/// otherwise, both carrying the id of the request.
pub open spec fn reply_for<Q, N, P>(id: RequestId, result: Result<P, RpcError>) -> RpcMessage<Q, N, P> {
    match result {
        Ok(p) => RpcMessage::Response(id, p),
        Err(e) => RpcMessage::Error(id, e),
    }
}

/// The inbound side's bookkeeping: the ids of requests in flight, one for each
/// reply still owed (the peer may reuse an id), and whether it has shut down.
pub struct InboundHandler {
    in_flight: Vec<RequestId>,
    shut_down: bool,
}

impl InboundHandler {
    /// The replies still owed, one per request in flight.
    pub closed spec fn owed(&self) -> Multiset<RequestId> {
        self.in_flight@.to_multiset()
    }

    pub closed spec fn is_shut_down(&self) -> bool {
        self.shut_down
    }

    /// A handler that owes nothing.
    pub fn new() -> (h: Self)
        ensures
            h.owed() == Multiset::<RequestId>::empty(),
            !h.is_shut_down(),
    {
        let h = InboundHandler { in_flight: Vec::new(), shut_down: false };
        assert(h.in_flight@ =~= Seq::<RequestId>::empty());
        h
    }

    /// How many replies are still owed.
    pub fn owed_len(&self) -> (r: usize)
        ensures
            r == self.owed().len(),
    {
        self.in_flight.len()
    }

    /// Takes on a request for dispatch, which then owes one reply. A handler
    /// that has shut down takes on nothing and answers `false`: the caller
    /// replies with the cancellation error at once.
    pub fn accept(&mut self, id: RequestId) -> (r: bool)
        ensures
            r == !old(self).is_shut_down(),
            r ==> final(self).owed() == old(self).owed().insert(id),
            !r ==> final(self).owed() == old(self).owed(),
            final(self).is_shut_down() == old(self).is_shut_down(),
    {
        if self.shut_down {
            return false;
        }
        self.in_flight.push(id);
        true
    }

    /// Turns the dispatcher's outcome for request `id` into its reply, if a
    /// reply is still owed for it; otherwise (never taken on, already
    /// answered, or cancelled by shutdown) there is none and nothing changes.
    pub fn finish<Q, N, P>(&mut self, id: RequestId, result: Result<P, RpcError>) -> (r: Option<
        RpcMessage<Q, N, P>,
    >)
        ensures
            r is Some <==> old(self).owed().count(id) > 0,
            r is Some ==> {
                &&& r == Some(reply_for::<Q, N, P>(id, result))
                &&& final(self).owed() == old(self).owed().remove(id)
            },
            r is None ==> final(self).owed() == old(self).owed(),
            final(self).is_shut_down() == old(self).is_shut_down(),
    {
        let n = self.in_flight.len();
        let mut i: usize = 0;
        while i < n
            invariant
                i <= n == self.in_flight@.len(),
                *self == *old(self),
                forall|j: int| 0 <= j < i ==> self.in_flight@[j] != id,
            decreases n - i,
        {
            if self.in_flight[i] == id {
                let ghost s = self.in_flight@;
                self.in_flight.remove(i);
                assert(s.remove(i as int).to_multiset() == s.to_multiset().remove(s[i as int]));
                return match result {
                    Ok(p) => Some(RpcMessage::Response(id, p)),
                    Err(e) => Some(RpcMessage::Error(id, e)),
                };
            }
            i = i + 1;
        }
        assert(!self.in_flight@.contains(id));
        None
    }

    /// Shuts the handler down and hands back the id of every request still in
    /// flight, each to be answered with the cancellation error; afterwards
    /// nothing is owed.
    pub fn shutdown(&mut self) -> (r: Vec<RequestId>)
        ensures
            r@.to_multiset() == old(self).owed(),
            final(self).owed() == Multiset::<RequestId>::empty(),
            final(self).is_shut_down(),
    {
        let mut taken: Vec<RequestId> = Vec::new();
        std::mem::swap(&mut self.in_flight, &mut taken);
        self.shut_down = true;
        assert(self.in_flight@ =~= Seq::<RequestId>::empty());
        taken
    }
}

/// The reply that answers request `id` once its handler has shut down.
pub fn cancelled_reply<Q, N, P>(id: RequestId) -> (r: RpcMessage<Q, N, P>)
    ensures
        r matches RpcMessage::Error(rid, e) && rid == id && is_cancellation(e),
{
    RpcMessage::Error(id, cancellation_error())
}

/// Every request taken on is answered exactly once: taking it on adds one owed
/// reply for its id; a dispatcher outcome yields a reply exactly when one is
/// owed for the id, and then removes exactly that one; shutdown hands back
/// every owed reply and leaves none. In particular a request taken on is always
/// answerable, and answering it leaves the bookkeeping as it was before.
pub proof fn lemma_one_reply_per_request(h: InboundHandler, id: RequestId)
    ensures
        h.owed().insert(id).count(id) == h.owed().count(id) + 1,
        h.owed().insert(id).count(id) > 0,
        h.owed().insert(id).remove(id) == h.owed(),
        h.owed().count(id) > 0 ==> h.owed().remove(id).count(id) == h.owed().count(id) - 1,
        forall|other: RequestId|
            other != id ==> #[trigger] h.owed().remove(id).count(other) == h.owed().count(other),
        forall|other: RequestId|
            other != id ==> #[trigger] h.owed().insert(id).count(other) == h.owed().count(other),
{
}

/// After shutdown nothing is owed, so no dispatcher outcome that arrives
/// later yields a second reply for a request already cancelled.
pub proof fn lemma_no_reply_after_shutdown(h: InboundHandler, id: RequestId)
    requires
        h.owed() == Multiset::<RequestId>::empty(),
    ensures
        h.owed().count(id) == 0,
{
}

} // verus!
