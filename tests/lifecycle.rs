use danmuji::{ConnectionState, RoomRegistry, WorkerAction, WorkerEvent, WorkerSession};

fn streaming_session() -> WorkerSession {
    let mut s = WorkerSession::new(5440, Some(1));
    assert_eq!(s.handle(WorkerEvent::Started, false), WorkerAction::OpenSocket);
    assert_eq!(s.state(), ConnectionState::Connecting);
    assert_eq!(s.handle(WorkerEvent::SocketOpened, false), WorkerAction::SendHandshake);
    assert_eq!(s.handle(WorkerEvent::HandshakeSent, false), WorkerAction::StartHeartbeat);
    assert_eq!(s.state(), ConnectionState::Authenticated);
    assert_eq!(s.handle(WorkerEvent::HeartbeatStarted, false), WorkerAction::ReadFrame);
    assert_eq!(s.state(), ConnectionState::Streaming);
    s
}

#[test]
fn transport_error_reconnects() {
    let mut s = streaming_session();
    assert_eq!(s.handle(WorkerEvent::FrameReceived, false), WorkerAction::ReadFrame);
    assert_eq!(s.handle(WorkerEvent::ReadFailed, false), WorkerAction::AbortAndRetry);
    assert_eq!(s.state(), ConnectionState::Reconnecting);
    assert_eq!(s.handle(WorkerEvent::RetryDelayElapsed, false), WorkerAction::OpenSocket);
    assert_eq!(s.state(), ConnectionState::Connecting);
    assert_eq!(s.handle(WorkerEvent::ConnectFailed, false), WorkerAction::AbortAndRetry);
    assert_eq!(s.state(), ConnectionState::Reconnecting);
}

#[test]
fn peer_close_reconnects() {
    let mut s = streaming_session();
    assert_eq!(s.handle(WorkerEvent::PeerClosed, false), WorkerAction::AbortAndRetry);
    assert_eq!(s.state(), ConnectionState::Reconnecting);
}

#[test]
fn shutdown_at_frame_boundary() {
    let mut s = streaming_session();
    assert_eq!(s.handle(WorkerEvent::FrameReceived, true), WorkerAction::AbortAndExit);
    assert_eq!(s.state(), ConnectionState::ShuttingDown);
    assert_eq!(s.handle(WorkerEvent::RetryDelayElapsed, false), WorkerAction::Nothing);
    assert_eq!(s.handle(WorkerEvent::ReadFailed, false), WorkerAction::Nothing);
    assert_eq!(s.state(), ConnectionState::ShuttingDown);
    assert_eq!(s.handle(WorkerEvent::TasksExited, true), WorkerAction::Nothing);
    assert_eq!(s.state(), ConnectionState::Stopped);
    assert_eq!(s.handle(WorkerEvent::Started, false), WorkerAction::Nothing);
    assert_eq!(s.state(), ConnectionState::Stopped);
}

#[test]
fn shutdown_while_connecting_and_on_failure() {
    let mut s = WorkerSession::new(1, None);
    s.handle(WorkerEvent::Started, false);
    assert_eq!(s.handle(WorkerEvent::SocketOpened, true), WorkerAction::Exit);
    assert_eq!(s.state(), ConnectionState::ShuttingDown);
    let mut t = streaming_session();
    assert_eq!(t.handle(WorkerEvent::ReadFailed, true), WorkerAction::AbortAndExit);
    assert_eq!(t.state(), ConnectionState::ShuttingDown);
}

#[test]
fn unknown_notification_leaves_state() {
    let s = streaming_session();
    let json = br#"{"cmd":"WATCHED_CHANGE","data":{"num":3}}"#.to_vec();
    let bytes = danmuji::BiliWebsocketMessage::new(json, danmuji::OpType::Notification, 0).to_vec();
    let outcome = s.on_frame(bytes);
    assert!(outcome.events.is_empty());
    assert!(outcome.errors.is_empty());
    assert_eq!(s.state(), ConnectionState::Streaming);
}

#[test]
fn session_handshake() {
    let s = WorkerSession::new(77, None);
    let m = s.handshake().unwrap();
    assert_eq!(m.header.op, danmuji::OpType::Entry);
    let doc: serde_json::Value = serde_json::from_slice(&m.data).unwrap();
    assert_eq!(doc["roomid"], 77);
    assert_eq!(doc["uid"], 0);
}

#[test]
fn registry_start_is_idempotent() {
    let mut r: RoomRegistry<&str> = RoomRegistry::new();
    assert!(r.start(1, "first"));
    assert!(!r.start(1, "second"));
    assert!(r.contains(1));
    assert_eq!(r.len(), 1);
    assert_eq!(r.stop(1), Some("first"));
    assert_eq!(r.stop(1), None);
    assert!(!r.contains(1));
}

#[test]
fn registry_shutdown_all() {
    let mut r: RoomRegistry<u8> = RoomRegistry::new();
    r.start(1, 10);
    r.start(2, 20);
    r.start(-3, 30);
    let all = r.shutdown_all();
    assert_eq!(all.len(), 3);
    assert_eq!(all.get(&2), Some(&20));
    assert_eq!(r.len(), 0);
    assert!(!r.contains(1));
}

#[test]
fn fan_out_to_subscribers() {
    let (bus, mut first) = tokio::sync::broadcast::channel::<danmuji::BiliMessage>(16);
    let mut second = bus.subscribe();
    bus.send(danmuji::BiliMessage::RoomPopularity(7)).unwrap();
    let mut late = bus.subscribe();
    for rx in [&mut first, &mut second] {
        match rx.try_recv() {
            Ok(danmuji::BiliMessage::RoomPopularity(n)) => assert_eq!(n, 7),
            other => panic!("unexpected {:?}", other),
        }
    }
    assert!(late.try_recv().is_err());
}
