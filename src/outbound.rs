//! The table of outbound requests that await a reply.
//!
//! Each request gets the next id, which is never reused. Its entry holds the
//! caller's completion token until the matching response or error arrives, or
//! until shutdown; the entry is handed back exactly once either way.

use vstd::prelude::*;
use crate::envelope::RequestId;

verus! {

/// Whether the ids of `s` strictly increase.
pub open spec fn ids_increasing<T>(s: Seq<(RequestId, T)>) -> bool {
    forall|i: int, j: int| 0 <= i < j < s.len() ==> s[i].0 < s[j].0
}

/// Whether some entry of `s` has id `id`.
pub open spec fn has_id<T>(s: Seq<(RequestId, T)>, id: RequestId) -> bool {
    exists|i: int| 0 <= i < s.len() && s[i].0 == id
}

/// Where the entry with id `id` stands in `s` (meaningful where `has_id`).
pub open spec fn position_of<T>(s: Seq<(RequestId, T)>, id: RequestId) -> int {
    choose|i: int| 0 <= i < s.len() && s[i].0 == id
}

/// The table after a reply for `id` arrives, and the token handed back.
pub open spec fn spec_complete<T>(s: Seq<(RequestId, T)>, id: RequestId) -> (
    Seq<(RequestId, T)>,
    Option<T>,
) {
    if has_id(s, id) {
        let i = position_of(s, id);
        (s.remove(i), Some(s[i].1))
    } else {
        (s, None)
    }
}

/// The tokens of a table, in the order their requests were issued.
pub open spec fn tokens_of<T>(s: Seq<(RequestId, T)>) -> Seq<T> {
    s.map_values(|e: (RequestId, T)| e.1)
}

/// The outbound side's bookkeeping: the next id to issue, the entries of the
/// requests awaiting a reply, and whether the handler has been shut down.
pub struct OutboundHandler<T> {
    next_id: RequestId,
    pending: Vec<(RequestId, T)>,
    shut_down: bool,
}

impl<T> OutboundHandler<T> {
    pub closed spec fn next_id(&self) -> RequestId {
        self.next_id
    }

    pub closed spec fn pending(&self) -> Seq<(RequestId, T)> {
        self.pending@
    }

    pub closed spec fn is_shut_down(&self) -> bool {
        self.shut_down
    }

    /// Entries are in issue order and every issued id lies below the next one.
    pub open spec fn wf(&self) -> bool {
        &&& ids_increasing(self.pending())
        &&& forall|i: int| 0 <= i < self.pending().len() ==> self.pending()[i].0 < self.next_id()
    }

    /// A handler with nothing pending, whose first id is 0.
    pub fn new() -> (h: Self)
        ensures
            h.wf(),
            h.next_id() == 0,
            h.pending() == Seq::<(RequestId, T)>::empty(),
            !h.is_shut_down(),
    {
        OutboundHandler { next_id: 0, pending: Vec::new(), shut_down: false }
    }

    /// How many requests await a reply.
    pub fn pending_len(&self) -> (r: usize)
        ensures
            r == self.pending().len(),
    {
        self.pending.len()
    }

    /// Issues the next id for a request and keeps `token` until its reply.
    /// A handler that is shut down, or has issued every id, issues none and
    /// hands the token back.
    pub fn send_request(&mut self, token: T) -> (r: Result<RequestId, T>)
        requires
            old(self).wf(),
        ensures
            final(self).wf(),
            r is Ok <==> !old(self).is_shut_down() && old(self).next_id() < RequestId::MAX,
            r is Ok ==> {
                &&& r->Ok_0 == old(self).next_id()
                &&& final(self).next_id() == old(self).next_id() + 1
                &&& final(self).pending() == old(self).pending().push((r->Ok_0, token))
                &&& final(self).is_shut_down() == old(self).is_shut_down()
            },
            r is Err ==> r->Err_0 == token && *final(self) == *old(self),
    {
        if self.shut_down || self.next_id == RequestId::MAX {
            return Err(token);
        }
        let id = self.next_id;
        self.pending.push((id, token));
        self.next_id = id + 1;
        Ok(id)
    }

    /// Takes the entry of `id` out of the table on the arrival of its reply and
    /// hands back its token. An id with no entry (never issued, or already
    /// answered) changes nothing.
    pub fn complete(&mut self, id: RequestId) -> (r: Option<T>)
        requires
            old(self).wf(),
        ensures
            final(self).wf(),
            (final(self).pending(), r) == spec_complete(old(self).pending(), id),
            final(self).next_id() == old(self).next_id(),
            final(self).is_shut_down() == old(self).is_shut_down(),
    {
        let n = self.pending.len();
        let mut i: usize = 0;
        while i < n
            invariant
                i <= n == self.pending@.len(),
                *self == *old(self),
                self.wf(),
                forall|j: int| 0 <= j < i ==> self.pending@[j].0 != id,
            decreases n - i,
        {
            if self.pending[i].0 == id {
                let ghost s = self.pending@;
                proof {
                    let k = position_of(s, id);
                    assert(s[i as int].0 == id);
                    assert(has_id(s, id));
                    assert(0 <= k < s.len() && s[k].0 == id);
                    if k < i {
                        assert(s[k].0 != id);
                    } else if k > i {
                        assert(s[i as int].0 < s[k].0);
                    }
                    assert(k == i);
                }
                let (_, token) = self.pending.remove(i);
                proof {
                    assert forall|a: int, b: int|
                        0 <= a < b < self.pending@.len() implies self.pending@[a].0
                        < self.pending@[b].0 by {
                        let a0 = if a < i { a } else { a + 1 };
                        let b0 = if b < i { b } else { b + 1 };
                        assert(self.pending@[a] == s[a0]);
                        assert(self.pending@[b] == s[b0]);
                    }
                    assert forall|a: int| 0 <= a < self.pending@.len() implies self.pending@[a].0
                        < self.next_id by {
                        let a0 = if a < i { a } else { a + 1 };
                        assert(self.pending@[a] == s[a0]);
                    }
                }
                return Some(token);
            }
            i = i + 1;
        }
        None
    }

    /// Shuts the handler down: every token still pending is handed back, in
    /// issue order, to be resolved with the cancellation error, and the table
    /// is left empty.
    pub fn shutdown(&mut self) -> (r: Vec<T>)
        requires
            old(self).wf(),
        ensures
            final(self).wf(),
            r@ == tokens_of(old(self).pending()),
            final(self).pending() == Seq::<(RequestId, T)>::empty(),
            final(self).is_shut_down(),
            final(self).next_id() == old(self).next_id(),
    {
        let ghost s = self.pending@;
        let mut taken: Vec<(RequestId, T)> = Vec::new();
        std::mem::swap(&mut self.pending, &mut taken);
        let mut out: Vec<T> = Vec::new();
        while taken.len() > 0
            invariant
                tokens_of(s) == out@ + tokens_of(taken@),
            decreases taken@.len(),
        {
            let ghost before = taken@;
            let (_, token) = taken.remove(0);
            proof {
                assert(tokens_of(before) =~= seq![token] + tokens_of(taken@));
            }
            out.push(token);
            assert(out@ + tokens_of(taken@) =~= tokens_of(s));
        }
        assert(out@ =~= tokens_of(s));
        self.shut_down = true;
        out
    }
}

/// In a table with increasing ids, the entry with a given id is the one at
/// its position.
proof fn lemma_position_unique<T>(s: Seq<(RequestId, T)>, k: int)
    requires
        ids_increasing(s),
        0 <= k < s.len(),
    ensures
        has_id(s, s[k].0),
        position_of(s, s[k].0) == k,
{
    let id = s[k].0;
    assert(has_id(s, id));
    let p = position_of(s, id);
    if p < k {
        assert(s[p].0 < s[k].0);
    } else if p > k {
        assert(s[k].0 < s[p].0);
    }
}

/// Removing one entry keeps ids increasing, and leaves every other id where it
/// was, one place earlier if it stood after the removed entry.
proof fn lemma_remove_other<T>(s: Seq<(RequestId, T)>, i: int, b: RequestId)
    requires
        ids_increasing(s),
        0 <= i < s.len(),
        s[i].0 != b,
    ensures
        ids_increasing(s.remove(i)),
        has_id(s.remove(i), b) == has_id(s, b),
        has_id(s, b) ==> position_of(s.remove(i), b) == if position_of(s, b) < i {
            position_of(s, b)
        } else {
            position_of(s, b) - 1
        },
{
    let r = s.remove(i);
    assert forall|x: int, y: int| 0 <= x < y < r.len() implies r[x].0 < r[y].0 by {
        let x0 = if x < i { x } else { x + 1 };
        let y0 = if y < i { y } else { y + 1 };
        assert(r[x] == s[x0] && r[y] == s[y0]);
    }
    if has_id(s, b) {
        let p = position_of(s, b);
        let q = if p < i { p } else { p - 1 };
        assert(p != i);
        assert(r[q] == s[p]);
        lemma_position_unique(r, q);
    }
    if has_id(r, b) {
        let q = choose|q: int| 0 <= q < r.len() && r[q].0 == b;
        let q0 = if q < i { q } else { q + 1 };
        assert(r[q] == s[q0]);
    }
}

/// A reply hands back the token of the request that carries its id, removes
/// that entry and no other, and a second reply for the same id hands back
/// nothing: each completion fires exactly once, for its own request.
pub proof fn lemma_reply_matches_request<T>(s: Seq<(RequestId, T)>, id: RequestId, t: T)
    requires
        ids_increasing(s),
        s.contains((id, t)),
    ensures
        spec_complete(s, id).1 == Some(t),
        forall|e: (RequestId, T)| spec_complete(s, id).0.contains(e) <==> (s.contains(e) && e.0 != id),
        spec_complete(spec_complete(s, id).0, id).1 is None,
{
    let k = choose|k: int| 0 <= k < s.len() && s[k] == (id, t);
    lemma_position_unique(s, k);
    let r = s.remove(k);
    assert forall|e: (RequestId, T)| r.contains(e) <==> (s.contains(e) && e.0 != id) by {
        if r.contains(e) {
            let x = choose|x: int| 0 <= x < r.len() && r[x] == e;
            let x0 = if x < k { x } else { x + 1 };
            assert(r[x] == s[x0]);
            if x0 < k {
                assert(s[x0].0 < s[k].0);
            } else {
                assert(s[k].0 < s[x0].0);
            }
        }
        if s.contains(e) && e.0 != id {
            let y = choose|y: int| 0 <= y < s.len() && s[y] == e;
            let y1 = if y < k { y } else { y - 1 };
            assert(r[y1] == e);
        }
    }
    if has_id(r, id) {
        let x = choose|x: int| 0 <= x < r.len() && r[x].0 == id;
        assert(r.contains(r[x]));
    }
}

/// Replies for two different ids may be handled in either order: the table
/// and the tokens handed back come out the same.
pub proof fn lemma_replies_commute<T>(s: Seq<(RequestId, T)>, a: RequestId, b: RequestId)
    requires
        ids_increasing(s),
        a != b,
    ensures
        spec_complete(spec_complete(s, a).0, b).0 == spec_complete(spec_complete(s, b).0, a).0,
        spec_complete(spec_complete(s, a).0, b).1 == spec_complete(s, b).1,
        spec_complete(spec_complete(s, b).0, a).1 == spec_complete(s, a).1,
{
    if has_id(s, a) {
        let i = position_of(s, a);
        lemma_remove_other(s, i, b);
    }
    if has_id(s, b) {
        let j = position_of(s, b);
        lemma_remove_other(s, j, a);
    }
    if has_id(s, a) && has_id(s, b) {
        let i = position_of(s, a);
        let j = position_of(s, b);
        let (lo, hi) = if i < j { (i, j) } else { (j, i) };
        let left = s.remove(i).remove(if j < i { j } else { j - 1 });
        let right = s.remove(j).remove(if i < j { i } else { i - 1 });
        assert forall|x: int| 0 <= x < left.len() implies left[x] == right[x] by {
            let x0 = if x < lo { x } else if x + 1 < hi { x + 1 } else { x + 2 };
            assert(left[x] == s[x0]);
            assert(right[x] == s[x0]);
        }
        assert(left =~= right);
    }
}

/// A reply whose id was never issued leaves the table as it was and hands
/// back nothing.
pub proof fn lemma_stray_reply_ignored<T>(h: OutboundHandler<T>, id: RequestId)
    requires
        h.wf(),
        id >= h.next_id(),
    ensures
        spec_complete(h.pending(), id) == (h.pending(), None::<T>),
{
    if has_id(h.pending(), id) {
        let k = position_of(h.pending(), id);
        assert(h.pending()[k].0 < h.next_id());
    }
}

/// Once shut down, with every pending token handed back, the table is empty:
/// no later reply hands any token back a second time.
pub proof fn lemma_no_completion_after_shutdown<T>(id: RequestId)
    ensures
        spec_complete(Seq::<(RequestId, T)>::empty(), id) == (
            Seq::<(RequestId, T)>::empty(),
            None::<T>,
        ),
{
}

} // verus!
