use lapce_proxy::envelope::{cancellation_error, RpcError, RpcMessage, CANCELLED_CODE};
use lapce_proxy::inbound::{cancelled_reply, InboundHandler};
use lapce_proxy::outbound::OutboundHandler;

type Msg = RpcMessage<String, String, String>;

#[test]
fn outbound_ids_increase_from_zero() {
    let mut h: OutboundHandler<&str> = OutboundHandler::new();
    assert_eq!(h.send_request("a"), Ok(0));
    assert_eq!(h.send_request("b"), Ok(1));
    assert_eq!(h.send_request("c"), Ok(2));
    assert_eq!(h.pending_len(), 3);
}

#[test]
fn outbound_completion_fires_once_for_its_id() {
    let mut h: OutboundHandler<&str> = OutboundHandler::new();
    let a = h.send_request("a").unwrap();
    let b = h.send_request("b").unwrap();
    let c = h.send_request("c").unwrap();
    assert_eq!(h.complete(b), Some("b"));
    assert_eq!(h.complete(b), None);
    assert_eq!(h.pending_len(), 2);
    assert_eq!(h.complete(c), Some("c"));
    assert_eq!(h.complete(a), Some("a"));
    assert_eq!(h.pending_len(), 0);
}

#[test]
fn outbound_completions_in_either_order() {
    let mut first: OutboundHandler<u32> = OutboundHandler::new();
    let mut second: OutboundHandler<u32> = OutboundHandler::new();
    for t in 0..4u32 {
        first.send_request(t).unwrap();
        second.send_request(t).unwrap();
    }
    assert_eq!(first.complete(1), Some(1));
    assert_eq!(first.complete(3), Some(3));
    assert_eq!(second.complete(3), Some(3));
    assert_eq!(second.complete(1), Some(1));
    assert_eq!(first.shutdown(), second.shutdown());
}

#[test]
fn outbound_stray_reply_is_ignored() {
    let mut h: OutboundHandler<&str> = OutboundHandler::new();
    h.send_request("a").unwrap();
    assert_eq!(h.complete(7), None);
    assert_eq!(h.complete(u64::MAX), None);
    assert_eq!(h.pending_len(), 1);
    assert_eq!(h.complete(0), Some("a"));
}

#[test]
fn outbound_shutdown_hands_back_all_pending() {
    let mut h: OutboundHandler<&str> = OutboundHandler::new();
    h.send_request("a").unwrap();
    h.send_request("b").unwrap();
    h.send_request("c").unwrap();
    h.complete(1);
    assert_eq!(h.shutdown(), vec!["a", "c"]);
    assert_eq!(h.pending_len(), 0);
    assert_eq!(h.complete(0), None);
    assert_eq!(h.complete(2), None);
    assert_eq!(h.send_request("d"), Err("d"));
    assert_eq!(h.shutdown(), Vec::<&str>::new());
}

#[test]
fn inbound_one_reply_per_request() {
    let mut h = InboundHandler::new();
    assert!(h.accept(5));
    assert!(h.accept(6));
    let r: Option<Msg> = h.finish(6, Ok("done".to_string()));
    assert_eq!(r, Some(RpcMessage::Response(6, "done".to_string())));
    let again: Option<Msg> = h.finish(6, Ok("done".to_string()));
    assert_eq!(again, None);
    let err = RpcError { code: 3, message: "bad".to_string() };
    let r: Option<Msg> = h.finish(5, Err(err.clone()));
    assert_eq!(r, Some(RpcMessage::Error(5, err)));
    assert_eq!(h.owed_len(), 0);
}

#[test]
fn inbound_reused_id_gets_two_replies() {
    let mut h = InboundHandler::new();
    assert!(h.accept(9));
    assert!(h.accept(9));
    let a: Option<Msg> = h.finish(9, Ok("x".to_string()));
    let b: Option<Msg> = h.finish(9, Ok("y".to_string()));
    let c: Option<Msg> = h.finish(9, Ok("z".to_string()));
    assert!(a.is_some());
    assert!(b.is_some());
    assert_eq!(c, None);
}

#[test]
fn inbound_unknown_id_gets_no_reply() {
    let mut h = InboundHandler::new();
    assert!(h.accept(1));
    let r: Option<Msg> = h.finish(2, Ok("x".to_string()));
    assert_eq!(r, None);
    assert_eq!(h.owed_len(), 1);
}

#[test]
fn inbound_shutdown_cancels_in_flight() {
    let mut h = InboundHandler::new();
    assert!(h.accept(1));
    assert!(h.accept(2));
    let mut ids = h.shutdown();
    ids.sort();
    assert_eq!(ids, vec![1, 2]);
    let late: Option<Msg> = h.finish(1, Ok("late".to_string()));
    assert_eq!(late, None);
    assert!(!h.accept(3));
    assert_eq!(h.owed_len(), 0);
}

#[test]
fn cancellation_reply_shape() {
    let e = cancellation_error();
    assert_eq!(e.code, CANCELLED_CODE);
    assert_eq!(e.message, "handler shut down");
    let r: Msg = cancelled_reply(4);
    assert_eq!(r, RpcMessage::Error(4, e));
}
