use rdp_wry::input::InputAction;
use rdp_wry::messages::{FromBrowserMessages, KeyboardEvent, MouseEvent, RDPConfiguration};
use rdp_wry::session::{
    contains_nul, resolution_target, ClientSession, CommandPoll, RdpError, SessionAction,
    SessionEvent, SessionPhase, EVENT_WAIT_TIMEOUT_MS, MAXIMUM_RDP_WAIT_OBJECTS, RDP,
};

fn config() -> RDPConfiguration {
    RDPConfiguration {
        host: "rdp.example.com".to_string(),
        username: "alice".to_string(),
        password: "secret".to_string(),
        port: 3389,
    }
}

fn key(action: &str, key: &str) -> FromBrowserMessages {
    FromBrowserMessages::KeyboardEvent(KeyboardEvent { action: action.to_string(), key: key.to_string() })
}

const WAIT: SessionAction =
    SessionAction::WaitForEvents { max_handles: MAXIMUM_RDP_WAIT_OBJECTS, timeout_ms: EVENT_WAIT_TIMEOUT_MS };

#[test]
fn wait_parameters() {
    assert_eq!(MAXIMUM_RDP_WAIT_OBJECTS, 64);
    assert_eq!(EVENT_WAIT_TIMEOUT_MS, 25);
}

#[test]
fn nul_detection_and_target() {
    assert!(contains_nul("a\0b"));
    assert!(!contains_nul("abc"));
    assert_eq!(resolution_target("rdp.example.com"), "rdp.example.com:0");
    assert_eq!(resolution_target(""), ":0");
}

#[test]
fn error_messages() {
    assert_eq!(RdpError::UnableToResolveHost.message(), "Unable to resolve host.");
    assert_eq!(RdpError::FailedToStart.message(), "Failed to start RDP process");
}

#[test]
fn new_refuses_unresolvable_host() {
    assert!(matches!(RDP::new(config(), false), Err(RdpError::UnableToResolveHost)));
}

#[test]
fn new_keeps_settings() {
    let rdp = RDP::new(config(), true).ok().unwrap();
    let s = rdp.settings();
    assert_eq!(s.server_hostname, "rdp.example.com");
    assert_eq!(s.server_port, 3389);
    assert_eq!(s.username, "alice");
    assert_eq!(s.password, "secret");
    assert_eq!(rdp.session().current_phase(), SessionPhase::NotStarted);
    assert!(rdp.outcome().is_none());
}

#[test]
fn session_connect_failure_fails_to_start() {
    let mut rdp = RDP::new(config(), true).ok().unwrap();
    assert_eq!(rdp.start(), Some(SessionAction::Connect));
    assert_eq!(rdp.start(), None);
    assert_eq!(rdp.step(SessionEvent::Connected(false)), Some(SessionAction::AbortConnect));
    assert!(rdp.outcome().is_none());
    assert_eq!(rdp.step(SessionEvent::Done), Some(SessionAction::Finish(false)));
    assert!(matches!(rdp.outcome(), Some(Err(RdpError::FailedToStart))));
    assert!(!rdp.session().is_connected());
}

#[test]
fn session_full_run() {
    let mut rdp = RDP::new(config(), true).ok().unwrap();
    assert_eq!(rdp.start(), Some(SessionAction::Connect));
    assert_eq!(rdp.step(SessionEvent::Connected(true)), Some(SessionAction::CheckDisconnect));
    assert!(rdp.session().is_connected());
    assert_eq!(rdp.step(SessionEvent::DisconnectRequested(false)), Some(WAIT));
    assert_eq!(rdp.step(SessionEvent::Done), Some(SessionAction::PollCommand));
    assert_eq!(
        rdp.step(SessionEvent::Command(CommandPoll::Received(key("down", "x")))),
        Some(SessionAction::SendInput(InputAction::UnicodeKey { flags: 0, code: 120 }))
    );
    assert_eq!(rdp.step(SessionEvent::Done), Some(SessionAction::PollCommand));
    let mouse = FromBrowserMessages::MouseEvent(MouseEvent {
        action: "down".to_string(),
        button: "left".to_string(),
        x: 5,
        y: 6,
    });
    assert_eq!(
        rdp.step(SessionEvent::Command(CommandPoll::Received(mouse))),
        Some(SessionAction::SendInput(InputAction::Mouse { flags: 0x9000, x: 5, y: 6 }))
    );
    assert_eq!(rdp.step(SessionEvent::Done), Some(SessionAction::PollCommand));
    assert_eq!(rdp.step(SessionEvent::Command(CommandPoll::Empty)), Some(SessionAction::CheckEventHandles));
    assert_eq!(rdp.step(SessionEvent::HandlesChecked(true)), Some(SessionAction::CheckDisconnect));
    assert_eq!(rdp.step(SessionEvent::DisconnectRequested(true)), Some(SessionAction::Finish(true)));
    assert!(matches!(rdp.outcome(), Some(Ok(()))));
}

#[test]
fn session_handle_failure_still_succeeds() {
    let mut s = ClientSession::new();
    assert_eq!(s.begin(), Some(SessionAction::Connect));
    assert_eq!(s.step(SessionEvent::Connected(true)), Some(SessionAction::CheckDisconnect));
    assert_eq!(s.step(SessionEvent::DisconnectRequested(false)), Some(WAIT));
    assert_eq!(s.step(SessionEvent::Done), Some(SessionAction::PollCommand));
    assert_eq!(
        s.step(SessionEvent::Command(CommandPoll::ChannelClosed)),
        Some(SessionAction::CheckEventHandles)
    );
    assert_eq!(s.step(SessionEvent::HandlesChecked(false)), Some(SessionAction::ReportLastError));
    assert_eq!(s.step(SessionEvent::Done), Some(SessionAction::Finish(true)));
    assert_eq!(s.current_phase(), SessionPhase::Finished(true));
    assert!(s.is_connected());
}

#[test]
fn session_ignores_unexpected_events() {
    let mut s = ClientSession::new();
    assert_eq!(s.step(SessionEvent::Done), None);
    assert_eq!(s.current_phase(), SessionPhase::NotStarted);
    s.begin();
    assert_eq!(s.step(SessionEvent::HandlesChecked(true)), None);
    assert_eq!(s.step(SessionEvent::DisconnectRequested(true)), None);
    assert_eq!(s.current_phase(), SessionPhase::Connecting);
    assert!(!s.is_connected());
}

#[test]
fn session_finished_is_final() {
    let mut s = ClientSession::new();
    s.begin();
    s.step(SessionEvent::Connected(false));
    s.step(SessionEvent::Done);
    assert_eq!(s.current_phase(), SessionPhase::Finished(false));
    assert_eq!(s.step(SessionEvent::Connected(true)), None);
    assert_eq!(s.step(SessionEvent::Done), None);
    assert_eq!(s.current_phase(), SessionPhase::Finished(false));
    assert!(!s.is_connected());
}

#[test]
fn run_sends_each_command_once_in_order() {
    let mut s = ClientSession::new();
    s.begin();
    s.step(SessionEvent::Connected(true));
    s.step(SessionEvent::DisconnectRequested(false));
    s.step(SessionEvent::Done);
    let mut sent = Vec::new();
    for k in ["a", "b", "c"] {
        if let Some(SessionAction::SendInput(input)) =
            s.step(SessionEvent::Command(CommandPoll::Received(key("down", k))))
        {
            sent.push(input);
        }
        assert_eq!(s.step(SessionEvent::Done), Some(SessionAction::PollCommand));
    }
    assert_eq!(s.step(SessionEvent::Command(CommandPoll::Empty)), Some(SessionAction::CheckEventHandles));
    assert_eq!(
        sent,
        vec![
            InputAction::UnicodeKey { flags: 0, code: 97 },
            InputAction::UnicodeKey { flags: 0, code: 98 },
            InputAction::UnicodeKey { flags: 0, code: 99 },
        ]
    );
}
