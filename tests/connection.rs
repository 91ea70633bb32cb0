use sockethook::app_data::AppData;
use sockethook::websocket::{
    Action, Frame, Lifecycle, WebsockeMessageEvent, WebsocketConnection, WebsocketState,
    CLIENT_TIMEOUT_MS, HEARTBEAT_INTERVAL_MS,
};

fn is_notice(a: &Action, endpoint: &str, id: u128) -> bool {
    match a {
        Action::Stop(WebsocketState::Closed { endpoint: e, id: i }) => e == endpoint && *i == id,
        _ => false,
    }
}

#[test]
fn reference_intervals() {
    assert_eq!(HEARTBEAT_INTERVAL_MS, 5000);
    assert_eq!(CLIENT_TIMEOUT_MS, 10000);
}

#[test]
fn new_connections_get_distinct_ids() {
    let a = WebsocketConnection::new("A".to_string(), 0);
    let b = WebsocketConnection::new("A".to_string(), 0);
    assert_ne!(a.id, b.id);
    assert_eq!(a.endpoint, "A");
    assert_eq!(a.state(), Lifecycle::Active);
    assert_eq!(a.last_heartbeat(), 0);
}

#[test]
fn heartbeat_pings_while_alive() {
    let mut c = WebsocketConnection::new("A".to_string(), 1000);
    assert!(matches!(c.heartbeat(6000), Action::Ping));
    assert!(matches!(c.heartbeat(11000), Action::Ping));
    assert_eq!(c.state(), Lifecycle::Active);
}

#[test]
fn heartbeat_timeout_closes_and_reports() {
    let mut reg: AppData<u32> = AppData::new();
    let mut c = WebsocketConnection::new("A".to_string(), 0);
    reg.insert(&"A".to_string(), c.id, 1);
    let a = c.heartbeat(10001);
    assert!(is_notice(&a, "A", c.id));
    assert_eq!(c.state(), Lifecycle::Closing);
    if let Action::Stop(notice) = a {
        reg.closed(notice);
    }
    assert!(!reg.contains(c.id));
    assert!(!reg.has_endpoint(&"A".to_string()));
    assert!(matches!(c.heartbeat(20000), Action::Nothing));
    c.released();
    assert_eq!(c.state(), Lifecycle::Terminated);
}

#[test]
fn pong_refreshes_liveness() {
    let mut c = WebsocketConnection::new("A".to_string(), 0);
    assert!(matches!(c.handle(Frame::Pong(vec![1]), 8000), Action::Nothing));
    assert_eq!(c.last_heartbeat(), 8000);
    assert!(matches!(c.heartbeat(15000), Action::Ping));
    assert!(is_notice(&c.heartbeat(18001), "A", c.id));
}

#[test]
fn ping_is_answered_with_pong() {
    let mut c = WebsocketConnection::new("A".to_string(), 0);
    match c.handle(Frame::Ping(vec![1, 2, 3]), 4000) {
        Action::Pong(p) => assert_eq!(p, vec![1, 2, 3]),
        _ => panic!("expected a pong"),
    }
    assert_eq!(c.last_heartbeat(), 4000);
}

#[test]
fn data_frames_pass_through() {
    let mut c = WebsocketConnection::new("A".to_string(), 0);
    match c.handle(Frame::Text("hi".to_string()), 100) {
        Action::Text(t) => assert_eq!(t, "hi"),
        _ => panic!("expected text"),
    }
    match c.handle(Frame::Binary(vec![9]), 200) {
        Action::Binary(b) => assert_eq!(b, vec![9]),
        _ => panic!("expected binary"),
    }
    assert_eq!(c.last_heartbeat(), 200);
    assert!(matches!(c.handle(Frame::Nop, 300), Action::Nothing));
    assert_eq!(c.last_heartbeat(), 200);
}

#[test]
fn close_frame_closes_once() {
    let mut c = WebsocketConnection::new("room".to_string(), 0);
    assert!(is_notice(&c.handle(Frame::Close, 50), "room", c.id));
    assert_eq!(c.state(), Lifecycle::Closing);
    assert!(matches!(c.handle(Frame::Close, 60), Action::Nothing));
    assert!(matches!(c.write_failed(), Action::Nothing));
}

#[test]
fn delivery_is_written_while_active() {
    let mut c = WebsocketConnection::new("A".to_string(), 0);
    match c.deliver(WebsockeMessageEvent { message: "x".to_string() }) {
        Action::Text(t) => assert_eq!(t, "x"),
        _ => panic!("expected text"),
    }
    assert!(is_notice(&c.write_failed(), "A", c.id));
    assert!(matches!(
        c.deliver(WebsockeMessageEvent { message: "y".to_string() }),
        Action::Nothing
    ));
}
