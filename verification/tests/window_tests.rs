use rdp_wry::window::{
    control_flow, initialization_script, ipc_action, route_request, Asset, CustomEvents, IpcAction,
    LoopControl, LoopEvent, MAIN_PAGE_URL, PROTOCOL_NAME, WINDOW_TITLE,
};

#[test]
fn routes() {
    assert_eq!(route_request("app://internal/main.html"), Asset::MainPage);
    assert_eq!(route_request("app://internal/main.js"), Asset::MainScript);
    assert_eq!(route_request("app://internal/other.css"), Asset::NotFound);
    assert_eq!(route_request("internal/main.html"), Asset::MainPage);
    assert_eq!(route_request("app://app://internal/main.js"), Asset::MainScript);
    assert_eq!(route_request(""), Asset::NotFound);
}

#[test]
fn main_page_url_serves_main_page() {
    assert_eq!(MAIN_PAGE_URL, "app://internal/main.html");
    assert_eq!(route_request(MAIN_PAGE_URL), Asset::MainPage);
    assert!(MAIN_PAGE_URL.starts_with(PROTOCOL_NAME));
}

#[test]
fn mimetypes() {
    assert_eq!(Asset::MainPage.mimetype(), "text/html");
    assert_eq!(Asset::MainScript.mimetype(), "text/javascript");
    assert_eq!(Asset::NotFound.mimetype(), "text/html");
}

#[test]
fn ipc_requests() {
    assert_eq!(ipc_action("make-visible"), IpcAction::MakeVisible);
    assert_eq!(ipc_action("make-invisible"), IpcAction::Unhandled);
    assert_eq!(ipc_action(""), IpcAction::Unhandled);
    assert_eq!(CustomEvents::MakeVisible, CustomEvents::MakeVisible);
}

#[test]
fn event_loop_control() {
    assert_eq!(control_flow(LoopEvent::Init), LoopControl::Wait);
    assert_eq!(control_flow(LoopEvent::Other), LoopControl::Wait);
    assert_eq!(control_flow(LoopEvent::CloseRequested), LoopControl::Exit);
}

#[test]
fn init_script() {
    assert_eq!(initialization_script(8080), "var WEBSOCKETADDRESS='127.0.0.1:8080';");
    assert_eq!(initialization_script(0), "var WEBSOCKETADDRESS='127.0.0.1:0';");
    assert_eq!(initialization_script(65535), "var WEBSOCKETADDRESS='127.0.0.1:65535';");
    assert_eq!(WINDOW_TITLE, "RDP-WRY");
}

#[test]
fn init_script_carries_port() {
    for port in [1u16, 80, 443, 54321] {
        let s = initialization_script(port);
        let prefix = "var WEBSOCKETADDRESS='127.0.0.1:";
        assert!(s.starts_with(prefix));
        assert_eq!(s[prefix.len()..s.len() - 2].parse::<u16>().unwrap(), port);
    }
}
