use rdp_wry::messages::{FromBrowserMessages, KeyboardEvent, RDPConfiguration};
use rdp_wry::websocket::{Connection, SocketAction, SocketEvent};

fn connect() -> FromBrowserMessages {
    FromBrowserMessages::RDPConnect(RDPConfiguration {
        host: "h".to_string(),
        username: "u".to_string(),
        password: "p".to_string(),
        port: 3389,
    })
}

fn key() -> FromBrowserMessages {
    FromBrowserMessages::KeyboardEvent(KeyboardEvent { action: "down".to_string(), key: "q".to_string() })
}

#[test]
fn input_before_connect_is_dropped() {
    let mut c = Connection::new();
    assert!(matches!(c.step(SocketEvent::Text(key())), SocketAction::Ignore));
    assert!(c.open());
}

#[test]
fn connect_then_forward() {
    let mut c = Connection::new();
    match c.step(SocketEvent::Text(connect())) {
        SocketAction::StartRdp(cfg) => {
            assert_eq!(cfg.host, "h");
            assert_eq!(cfg.port, 3389);
        }
        _ => panic!("a connect request starts the client"),
    }
    match c.step(SocketEvent::Text(key())) {
        SocketAction::Forward(FromBrowserMessages::KeyboardEvent(k)) => assert_eq!(k.key, "q"),
        _ => panic!("input is forwarded once the client runs"),
    }
    assert!(matches!(c.step(SocketEvent::Text(connect())), SocketAction::StartRdp(_)));
}

#[test]
fn screen_updates_and_close_notice() {
    let mut c = Connection::new();
    match c.step(SocketEvent::ScreenUpdate(Some(vec![1, 2, 3, 4]))) {
        SocketAction::SendFrame(data) => assert_eq!(data, vec![1, 2, 3, 4]),
        _ => panic!("frames are sent"),
    }
    assert!(matches!(c.step(SocketEvent::ScreenUpdate(None)), SocketAction::Ignore));
    assert!(matches!(c.step(SocketEvent::RdpDone), SocketAction::SendCloseNotice));
    assert!(matches!(c.step(SocketEvent::OtherFrame), SocketAction::Ignore));
    assert!(c.open());
}

#[test]
fn binary_frame_closes() {
    let mut c = Connection::new();
    assert!(matches!(c.step(SocketEvent::Binary), SocketAction::Close));
    assert!(!c.open());
}

#[test]
fn read_failure_and_end_close() {
    let mut c = Connection::new();
    assert!(matches!(c.step(SocketEvent::ReadFailed), SocketAction::Close));
    let mut d = Connection::new();
    assert!(matches!(d.step(SocketEvent::StreamEnded), SocketAction::Close));
    assert!(!d.open());
}

#[test]
fn closed_connection_does_nothing() {
    let mut c = Connection::new();
    c.step(SocketEvent::StreamEnded);
    assert!(matches!(c.step(SocketEvent::Text(connect())), SocketAction::Ignore));
    assert!(matches!(c.step(SocketEvent::ScreenUpdate(Some(vec![9]))), SocketAction::Ignore));
    assert!(matches!(c.step(SocketEvent::RdpDone), SocketAction::Ignore));
    assert!(!c.open());
}
