//! Framing of envelopes on a byte stream: each encoded envelope is one line,
//! ended by a newline, so that a reader takes whole envelopes or nothing.

use vstd::prelude::*;

verus! {

/// The byte that ends a frame.
pub const FRAME_END: u8 = 10;

/// Whether `s` holds no frame end.
pub open spec fn frameable(s: Seq<u8>) -> bool {
    forall|i: int| 0 <= i < s.len() ==> s[i] != FRAME_END
}

/// The frame of an encoded envelope: its bytes, then the frame end. An
/// encoding that holds a frame end cannot be framed.
pub fn frame(body: &Vec<u8>) -> (r: Option<Vec<u8>>)
    ensures
        r is Some <==> frameable(body@),
        r is Some ==> r->Some_0@ == body@.push(FRAME_END),
{
    let mut out: Vec<u8> = Vec::new();
    let mut i: usize = 0;
    while i < body.len()
        invariant
            i <= body@.len(),
            out@ == body@.subrange(0, i as int),
            frameable(out@),
        decreases body@.len() - i,
    {
        if body[i] == FRAME_END {
            return None;
        }
        out.push(body[i]);
        i = i + 1;
        assert(out@ =~= body@.subrange(0, i as int));
    }
    assert(out@ =~= body@);
    out.push(FRAME_END);
    Some(out)
}

/// Where the first complete frame in `buf` ends: the index of its frame end.
/// `None` while no whole frame has arrived.
pub fn frame_end(buf: &Vec<u8>) -> (r: Option<usize>)
    ensures
        r is None <==> frameable(buf@),
        r is Some ==> {
            let k = r->Some_0 as int;
            &&& 0 <= k < buf@.len()
            &&& buf@[k] == FRAME_END
            &&& frameable(buf@.subrange(0, k))
        },
{
    let mut i: usize = 0;
    while i < buf.len()
        invariant
            i <= buf@.len(),
            frameable(buf@.subrange(0, i as int)),
        decreases buf@.len() - i,
    {
        if buf[i] == FRAME_END {
            return Some(i);
        }
        i = i + 1;
        assert(buf@.subrange(0, i as int).drop_last() =~= buf@.subrange(0, i as int - 1));
    }
    assert(buf@.subrange(0, i as int) =~= buf@);
    None
}

/// Reading back a framed encoding finds exactly that encoding as the first
/// frame: in `frame(body)` the only place `frame_end` may report is right
/// after the body, and the bytes before it are the body.
pub proof fn lemma_frame_round_trip(body: Seq<u8>, k: int)
    requires
        frameable(body),
        0 <= k < body.push(FRAME_END).len(),
        body.push(FRAME_END)[k] == FRAME_END,
    ensures
        !frameable(body.push(FRAME_END)),
        k == body.len(),
        body.push(FRAME_END).subrange(0, k) == body,
{
    let framed = body.push(FRAME_END);
    assert(framed[body.len() as int] == FRAME_END);
    if k < body.len() {
        assert(framed[k] == body[k]);
    }
    assert(framed.subrange(0, k) =~= body);
}

} // verus!
