use rdp_wry::input::{
    handle_input, handle_key_input, handle_mouse_input, InputAction, KBD_FLAGS_RELEASE,
    PTR_FLAGS_BUTTON1, PTR_FLAGS_BUTTON2, PTR_FLAGS_BUTTON3, PTR_FLAGS_DOWN, PTR_FLAGS_MOVE,
    SCANCODE_BACKSPACE,
};
use rdp_wry::messages::{FromBrowserMessages, KeyboardEvent, MouseEvent, RDPConfiguration};

fn mouse(action: &str, button: &str, x: i32, y: i32) -> MouseEvent {
    MouseEvent { action: action.to_string(), button: button.to_string(), x, y }
}

fn key(action: &str, key: &str) -> KeyboardEvent {
    KeyboardEvent { action: action.to_string(), key: key.to_string() }
}

#[test]
fn flag_values() {
    assert_eq!(PTR_FLAGS_MOVE, 0x0800);
    assert_eq!(PTR_FLAGS_DOWN, 0x8000);
    assert_eq!(PTR_FLAGS_BUTTON1, 0x1000);
    assert_eq!(PTR_FLAGS_BUTTON2, 0x2000);
    assert_eq!(PTR_FLAGS_BUTTON3, 0x4000);
    assert_eq!(KBD_FLAGS_RELEASE, 0x8000);
    assert_eq!(SCANCODE_BACKSPACE, 0x0e);
}

#[test]
fn mouse_down_left() {
    assert_eq!(
        handle_mouse_input(mouse("down", "left", 10, 20)),
        InputAction::Mouse { flags: 0x9000, x: 10, y: 20 }
    );
}

#[test]
fn mouse_up_right() {
    assert_eq!(
        handle_mouse_input(mouse("up", "right", 0, 65535)),
        InputAction::Mouse { flags: 0x2000, x: 0, y: 65535 }
    );
}

#[test]
fn mouse_move_middle() {
    assert_eq!(
        handle_mouse_input(mouse("move", "middle", 640, 480)),
        InputAction::Mouse { flags: 0x4800, x: 640, y: 480 }
    );
}

#[test]
fn mouse_unknown_action_and_button() {
    assert_eq!(
        handle_mouse_input(mouse("wiggle", "fourth", 1, 2)),
        InputAction::Mouse { flags: PTR_FLAGS_MOVE, x: 1, y: 2 }
    );
    assert_eq!(
        handle_mouse_input(mouse("Down", "Left", 1, 2)),
        InputAction::Mouse { flags: PTR_FLAGS_MOVE, x: 1, y: 2 }
    );
}

#[test]
fn mouse_flags_recoverable() {
    for action in ["down", "up", "move", "other"] {
        for button in ["left", "middle", "right", "none"] {
            if let InputAction::Mouse { flags, .. } = handle_mouse_input(mouse(action, button, 0, 0)) {
                let a = match action {
                    "down" => PTR_FLAGS_DOWN,
                    "up" => 0,
                    _ => PTR_FLAGS_MOVE,
                };
                let b = match button {
                    "left" => PTR_FLAGS_BUTTON1,
                    "middle" => PTR_FLAGS_BUTTON3,
                    "right" => PTR_FLAGS_BUTTON2,
                    _ => 0,
                };
                assert_eq!(flags & 0x8800, a);
                assert_eq!(flags & 0x7000, b);
            } else {
                panic!("a mouse event gives a pointer action");
            }
        }
    }
}

#[test]
fn key_character_down_and_up() {
    assert_eq!(handle_key_input(key("down", "a")), InputAction::UnicodeKey { flags: 0, code: 97 });
    assert_eq!(
        handle_key_input(key("up", "a")),
        InputAction::UnicodeKey { flags: KBD_FLAGS_RELEASE, code: 97 }
    );
    assert_eq!(handle_key_input(key("press", "~")), InputAction::UnicodeKey { flags: 0, code: 126 });
    assert_eq!(handle_key_input(key("down", " ")), InputAction::UnicodeKey { flags: 0, code: 32 });
}

#[test]
fn key_backspace() {
    assert_eq!(
        handle_key_input(key("down", "Backspace")),
        InputAction::ScancodeKey { flags: 0, scancode: 0x0e }
    );
    assert_eq!(
        handle_key_input(key("up", "Backspace")),
        InputAction::ScancodeKey { flags: KBD_FLAGS_RELEASE, scancode: 0x0e }
    );
}

#[test]
fn key_unhandled() {
    assert_eq!(handle_key_input(key("down", "Enter")), InputAction::UnhandledKey);
    assert_eq!(handle_key_input(key("down", "")), InputAction::UnhandledKey);
    // One character, but two bytes long in UTF-8.
    assert_eq!(handle_key_input(key("down", "é")), InputAction::UnhandledKey);
    assert_eq!(handle_key_input(key("down", "€")), InputAction::UnhandledKey);
}

#[test]
fn handle_input_dispatches() {
    assert_eq!(
        handle_input(FromBrowserMessages::MouseEvent(mouse("down", "left", 3, 4))),
        InputAction::Mouse { flags: 0x9000, x: 3, y: 4 }
    );
    assert_eq!(
        handle_input(FromBrowserMessages::KeyboardEvent(key("up", "Backspace"))),
        InputAction::ScancodeKey { flags: 0x8000, scancode: 0x0e }
    );
    let cfg = RDPConfiguration {
        host: "localhost".to_string(),
        username: "u".to_string(),
        password: "p".to_string(),
        port: 3389,
    };
    assert_eq!(handle_input(FromBrowserMessages::RDPConnect(cfg)), InputAction::Discard);
}
