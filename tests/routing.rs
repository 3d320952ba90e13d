use lapce_proxy::coordinator::{open_paths_message, PathEntry, PathKind};
use lapce_proxy::envelope::{CoreRpc, ProxyNotification, RpcError, RpcMessage};
use lapce_proxy::router::{forward, handle_socket, Incoming, Router};

type In = RpcMessage<String, ProxyNotification<String>, String>;
type Out = RpcMessage<String, String, String>;

#[test]
fn ping_gets_pong_with_same_id() {
    let mut router: Router<&str> = Router::new();
    router.inbound.accept(2);
    let r = router.handle_incoming::<String, ProxyNotification<String>, String>(RpcMessage::Request(
        1,
        "ping".to_string(),
    ));
    assert_eq!(r, Incoming::Dispatch(1, "ping".to_string()));
    let reply: Option<Out> = router.dispatch_finished(1, Ok("pong".to_string()));
    assert_eq!(reply, Some(RpcMessage::Response(1, "pong".to_string())));
    assert_eq!(router.inbound.owed_len(), 1);
    let other: Option<Out> = router.dispatch_finished(2, Ok("two".to_string()));
    assert_eq!(other, Some(RpcMessage::Response(2, "two".to_string())));
}

#[test]
fn dispatch_error_becomes_error_envelope() {
    let mut router: Router<&str> = Router::new();
    let msg: In = RpcMessage::Request(8, "edit".to_string());
    assert_eq!(router.handle_incoming(msg), Incoming::Dispatch(8, "edit".to_string()));
    let err = RpcError { code: 1, message: "failed".to_string() };
    let reply: Option<Out> = router.dispatch_finished(8, Err(err.clone()));
    assert_eq!(reply, Some(RpcMessage::Error(8, err)));
}

#[test]
fn replies_resolve_outbound_requests() {
    let mut router: Router<&str> = Router::new();
    let sent: Result<CoreRpc<String, String>, &str> = router.send_request("q0".to_string(), "cb0");
    assert_eq!(sent, Ok(CoreRpc::Request(0, "q0".to_string())));
    let sent: Result<CoreRpc<String, String>, &str> = router.send_request("q1".to_string(), "cb1");
    assert_eq!(sent, Ok(CoreRpc::Request(1, "q1".to_string())));
    let e = RpcError { code: 2, message: "no".to_string() };
    let r = router.handle_incoming::<String, String, String>(RpcMessage::Error(1, e.clone()));
    assert_eq!(r, Incoming::Resolve("cb1", Err(e)));
    let r = router.handle_incoming::<String, String, String>(RpcMessage::Response(0, "ok".to_string()));
    assert_eq!(r, Incoming::Resolve("cb0", Ok("ok".to_string())));
    let r = router.handle_incoming::<String, String, String>(RpcMessage::Response(0, "ok".to_string()));
    assert_eq!(r, Incoming::Ignore);
}

#[test]
fn stray_reply_is_ignored() {
    let mut router: Router<&str> = Router::new();
    let _: Result<CoreRpc<String, String>, &str> = router.send_request("q".to_string(), "cb");
    let r = router.handle_incoming::<String, String, String>(RpcMessage::Response(42, "x".to_string()));
    assert_eq!(r, Incoming::Ignore);
    assert_eq!(router.outbound.pending_len(), 1);
}

#[test]
fn request_after_inbound_shutdown_is_cancelled() {
    let mut router: Router<&str> = Router::new();
    router.inbound.shutdown();
    let msg: In = RpcMessage::Request(3, "x".to_string());
    assert_eq!(router.handle_incoming(msg), Incoming::Cancel(3));
}

#[test]
fn notification_goes_to_dispatcher() {
    let mut router: Router<&str> = Router::new();
    let msg: In = RpcMessage::Notification(ProxyNotification::Other("saved".to_string()));
    assert_eq!(
        router.handle_incoming(msg),
        Incoming::Notify(ProxyNotification::Other("saved".to_string()))
    );
}

#[test]
fn forwarding_stops_at_sentinel() {
    let r: Option<Out> = forward(CoreRpc::Request(4, "q".to_string()));
    assert_eq!(r, Some(RpcMessage::Request(4, "q".to_string())));
    let r: Option<Out> = forward(CoreRpc::Notification("n".to_string()));
    assert_eq!(r, Some(RpcMessage::Notification("n".to_string())));
    let r: Option<Out> = forward(CoreRpc::Shutdown);
    assert_eq!(r, None);
}

fn open_paths(folders: &[&str], files: &[&str]) -> ProxyNotification<String> {
    ProxyNotification::OpenPaths {
        folders: folders.iter().map(|s| s.to_string()).collect(),
        files: files.iter().map(|s| s.to_string()).collect(),
    }
}

#[test]
fn socket_and_stdio_deliver_open_paths_alike() {
    let mut router: Router<&str> = Router::new();
    let via_socket: In = RpcMessage::Notification(open_paths(&["/a"], &["/a/b.rs"]));
    let via_stdio: In = RpcMessage::Notification(open_paths(&["/a"], &["/a/b.rs"]));
    let from_socket = handle_socket(via_socket).unwrap();
    match router.handle_incoming(via_stdio) {
        Incoming::Notify(n) => assert_eq!(n, from_socket),
        other => panic!("unexpected {:?}", other),
    }
}

#[test]
fn socket_drops_other_messages() {
    let other: In = RpcMessage::Notification(ProxyNotification::Other("x".to_string()));
    assert_eq!(handle_socket(other), None);
    let req: In = RpcMessage::Request(1, "x".to_string());
    assert_eq!(handle_socket(req), None);
    let resp: In = RpcMessage::Response(1, "x".to_string());
    assert_eq!(handle_socket(resp), None);
}

#[test]
fn two_launchers_each_deliver_one_open_paths() {
    let mut router: Router<&str> = Router::new();
    let first: Vec<PathEntry> = vec![PathEntry { path: "/work".to_string(), kind: PathKind::Directory }];
    let second: Vec<PathEntry> = vec![PathEntry { path: "/notes/todo.txt".to_string(), kind: PathKind::File }];
    assert_eq!(
        router.handle_incoming::<String, ProxyNotification<String>, String>(RpcMessage::Request(
            10,
            "busy".to_string()
        )),
        Incoming::Dispatch(10, "busy".to_string())
    );
    let mut delivered = Vec::new();
    for paths in [&first, &second] {
        let msg: In = open_paths_message(paths);
        if let Some(n) = handle_socket(msg) {
            delivered.push(n);
        }
    }
    assert_eq!(delivered, vec![open_paths(&["/work"], &[]), open_paths(&[], &["/notes/todo.txt"])]);
    let reply: Option<Out> = router.dispatch_finished(10, Ok("idle".to_string()));
    assert_eq!(reply, Some(RpcMessage::Response(10, "idle".to_string())));
}

#[test]
fn shutdown_cancels_both_sides() {
    let mut router: Router<&str> = Router::new();
    let _: Result<CoreRpc<String, String>, &str> = router.send_request("q".to_string(), "cb");
    let msg: In = RpcMessage::Request(5, "r".to_string());
    router.handle_incoming(msg);
    assert_eq!(router.outbound.shutdown(), vec!["cb"]);
    assert_eq!(router.inbound.shutdown(), vec![5]);
    let r = router.handle_incoming::<String, String, String>(RpcMessage::Response(0, "x".to_string()));
    assert_eq!(r, Incoming::Ignore);
    let late: Option<Out> = router.dispatch_finished(5, Ok("x".to_string()));
    assert_eq!(late, None);
}
