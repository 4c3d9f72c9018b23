//! Conversion of the browser's pointer and keyboard events into RDP input
//! events.

use vstd::prelude::*;
use vstd::string::*;
use vstd::utf8::*;

use crate::messages::{FromBrowserMessages, KeyboardEvent, MouseEvent, RDPConfiguration};
use crate::text::str_equals;

verus! {

/// Pointer flag: the pointer moved.
pub const PTR_FLAGS_MOVE: u16 = 0x0800;

/// Pointer flag: the button named in the event went down.
pub const PTR_FLAGS_DOWN: u16 = 0x8000;

/// Pointer flag: the left button.
pub const PTR_FLAGS_BUTTON1: u16 = 0x1000;

/// Pointer flag: the right button.
pub const PTR_FLAGS_BUTTON2: u16 = 0x2000;

/// Pointer flag: the middle button.
pub const PTR_FLAGS_BUTTON3: u16 = 0x4000;

/// Keyboard flag: the key was released.
pub const KBD_FLAGS_RELEASE: u16 = 0x8000;

/// Scancode of the backspace key.
pub const SCANCODE_BACKSPACE: u8 = 0x0e;

/// The RDP input event that a browser message asks for.
#[derive(Debug, Clone, Copy, PartialEq, Eq, Structural)]
pub enum InputAction {
    /// A pointer event with its flags and position.
    Mouse { flags: u16, x: u16, y: u16 },
    /// A key given by its UTF-16 code unit.
    UnicodeKey { flags: u16, code: u16 },
    /// A key given by its scancode.
    ScancodeKey { flags: u16, scancode: u8 },
    /// A special key that the client does not handle; nothing is sent.
    UnhandledKey,
    /// A message that is not an input event; nothing is sent.
    Discard,
}

/// The pointer flags for a mouse action.
pub open spec fn mouse_action_flags(action: Seq<char>) -> u16 {
    if action == "down"@ {
        PTR_FLAGS_DOWN
    } else if action == "up"@ {
        0
    } else {
        PTR_FLAGS_MOVE
    }
}

/// The pointer flags for a mouse button.
pub open spec fn mouse_button_flags(button: Seq<char>) -> u16 {
    if button == "left"@ {
        PTR_FLAGS_BUTTON1
    } else if button == "middle"@ {
        PTR_FLAGS_BUTTON3
    } else if button == "right"@ {
        PTR_FLAGS_BUTTON2
    } else {
        0
    }
}

/// Whether a browser coordinate can be handed to RDP, which takes unsigned
/// 16-bit positions.
pub open spec fn coordinate_in_range(v: i32) -> bool {
    0 <= v <= u16::MAX
}

/// The input action for a mouse event.
pub open spec fn mouse_input_action(me: MouseEvent) -> InputAction {
    InputAction::Mouse {
        flags: mouse_action_flags(me.action@) | mouse_button_flags(me.button@),
        x: me.x as u16,
        y: me.y as u16,
    }
}

/// The keyboard flags for a key action.
pub open spec fn key_action_flags(action: Seq<char>) -> u16 {
    if action == "up"@ {
        KBD_FLAGS_RELEASE
    } else {
        0
    }
}

/// Whether a key name is one byte long in UTF-8, so that it stands for the
/// character it holds.
pub open spec fn is_single_byte_key(key: Seq<char>) -> bool {
    encode_utf8(key).len() == 1
}

/// The input action for a keyboard event.
pub open spec fn key_input_action(ke: KeyboardEvent) -> InputAction {
    let flags = key_action_flags(ke.action@);
    if is_single_byte_key(ke.key@) {
        InputAction::UnicodeKey { flags, code: (ke.key@[0] as u32) as u16 }
    } else if ke.key@ == "Backspace"@ {
        InputAction::ScancodeKey { flags, scancode: SCANCODE_BACKSPACE }
    } else {
        InputAction::UnhandledKey
    }
}

/// Whether the client can act on a message without failing: the position of
/// a mouse event must fit RDP's coordinates.
pub open spec fn input_accepted(event: FromBrowserMessages) -> bool {
    match event {
        FromBrowserMessages::MouseEvent(me) => coordinate_in_range(me.x) && coordinate_in_range(
            me.y,
        ),
        _ => true,
    }
}

/// The input action for any browser message.
pub open spec fn input_action(event: FromBrowserMessages) -> InputAction {
    match event {
        FromBrowserMessages::MouseEvent(me) => mouse_input_action(me),
        FromBrowserMessages::KeyboardEvent(ke) => key_input_action(ke),
        FromBrowserMessages::RDPConnect(_) => InputAction::Discard,
    }
}

/// The UTF-8 encoding of a character sequence is at least as long as the
/// sequence, and one byte long exactly when it is a single ASCII character.
pub proof fn lemma_single_byte_key(key: Seq<char>)
    ensures
        encode_utf8(key).len() >= key.len(),
        is_single_byte_key(key) <==> (key.len() == 1 && (key[0] as u32) < 0x80),
    decreases key.len(),
{
    if key.len() > 0 {
        lemma_single_byte_key(key.drop_first());
        let c = key[0] as u32;
        assert(encode_scalar(c).len() >= 1);
        assert(encode_scalar(c).len() == 1 <==> c <= 0x7f);
        if key.len() == 1 {
            assert(key.drop_first().len() == 0);
            assert(encode_utf8(key.drop_first()).len() == 0);
        }
    }
}

/// Turns a mouse event into a pointer input action.
pub fn handle_mouse_input(mouse_event: MouseEvent) -> (action: InputAction)
    requires
        coordinate_in_range(mouse_event.x),
        coordinate_in_range(mouse_event.y),
    ensures
        action == mouse_input_action(mouse_event),
{
    let mut flags: u16 = 0;
    flags = flags | if str_equals(mouse_event.action.as_str(), "down") {
        PTR_FLAGS_DOWN
    } else if str_equals(mouse_event.action.as_str(), "up") {
        0
    } else {
        PTR_FLAGS_MOVE
    };
    flags = flags | if str_equals(mouse_event.button.as_str(), "left") {
        PTR_FLAGS_BUTTON1
    } else if str_equals(mouse_event.button.as_str(), "middle") {
        PTR_FLAGS_BUTTON3
    } else if str_equals(mouse_event.button.as_str(), "right") {
        PTR_FLAGS_BUTTON2
    } else {
        0
    };
    proof {
        let af = mouse_action_flags(mouse_event.action@);
        assert(0u16 | af == af) by (bit_vector);
    }
    InputAction::Mouse { flags, x: mouse_event.x as u16, y: mouse_event.y as u16 }
}

/// Turns a keyboard event into a key input action: a one-byte key is sent
/// as its character, backspace as its scancode, and any other key is ignored.
pub fn handle_key_input(key_event: KeyboardEvent) -> (action: InputAction)
    ensures
        action == key_input_action(key_event),
{
    let flags: u16 = if str_equals(key_event.action.as_str(), "up") {
        KBD_FLAGS_RELEASE
    } else {
        0
    };
    let key = key_event.key.as_str();
    proof {
        lemma_single_byte_key(key_event.key@);
    }
    if key.unicode_len() == 1 {
        let c = key.get_char(0);
        let unit = c as u32;
        if unit < 0x80 {
            return InputAction::UnicodeKey { flags, code: unit as u16 };
        }
    }
    if str_equals(key, "Backspace") {
        InputAction::ScancodeKey { flags, scancode: SCANCODE_BACKSPACE }
    } else {
        InputAction::UnhandledKey
    }
}

/// Turns a browser message into the input action it asks for; a message
/// that is not an input event is discarded.
pub fn handle_input(event: FromBrowserMessages) -> (action: InputAction)
    requires
        input_accepted(event),
    ensures
        action == input_action(event),
{
    match event {
        FromBrowserMessages::MouseEvent(me) => handle_mouse_input(me),
        FromBrowserMessages::KeyboardEvent(ke) => handle_key_input(ke),
        FromBrowserMessages::RDPConnect(_) => InputAction::Discard,
    }
}

/// The action bits and the button bits of a mouse event never overlap, so
/// both can be read back from the flags that are sent.
pub proof fn lemma_mouse_flags_recoverable(action: Seq<char>, button: Seq<char>)
    ensures
        (mouse_action_flags(action) | mouse_button_flags(button)) & 0x8800
            == mouse_action_flags(action),
        (mouse_action_flags(action) | mouse_button_flags(button)) & 0x7000
            == mouse_button_flags(button),
{
    let af = mouse_action_flags(action);
    let bf = mouse_button_flags(button);
    assert((af == 0x8000 || af == 0 || af == 0x0800) && (bf == 0x1000 || bf == 0x4000 || bf
        == 0x2000 || bf == 0) ==> (af | bf) & 0x8800 == af && (af | bf) & 0x7000 == bf)
        by (bit_vector);
}

/// The pointer event for a mouse event carries the event's position unchanged,
/// and its flags hold nothing but an action bit and a button bit: the down bit
/// exactly for "down", no action bit for "up", the move bit for any other
/// action; the left, middle or right button bit for those buttons, and no
/// button bit otherwise.
pub proof fn lemma_mouse_event_meaning(me: MouseEvent)
    requires
        coordinate_in_range(me.x),
        coordinate_in_range(me.y),
    ensures
        input_action(FromBrowserMessages::MouseEvent(me)) matches InputAction::Mouse { flags, x, y }
            && {
            &&& x as int == me.x as int
            &&& y as int == me.y as int
            &&& flags & 0x07ff == 0
            &&& (flags & 0x8800 == 0x8000 <==> me.action@ == "down"@)
            &&& (flags & 0x8800 == 0 <==> me.action@ == "up"@ && me.action@ != "down"@)
            &&& (flags & 0x8800 == 0x0800 <==> me.action@ != "down"@ && me.action@ != "up"@)
            &&& (flags & 0x7000 == 0x1000 <==> me.button@ == "left"@)
            &&& (flags & 0x7000 == 0x4000 <==> me.button@ == "middle"@ && me.button@ != "left"@)
            &&& (flags & 0x7000 == 0x2000 <==> me.button@ == "right"@ && me.button@ != "left"@
                && me.button@ != "middle"@)
            &&& (flags & 0x7000 == 0 <==> me.button@ != "left"@ && me.button@ != "middle"@
                && me.button@ != "right"@)
        },
{
    let af = mouse_action_flags(me.action@);
    let bf = mouse_button_flags(me.button@);
    assert((af == 0x8000 || af == 0 || af == 0x0800) && (bf == 0x1000 || bf == 0x4000 || bf
        == 0x2000 || bf == 0) ==> (af | bf) & 0x07ff == 0 && (af | bf) & 0x8800 == af && (af | bf)
        & 0x7000 == bf) by (bit_vector);
}

/// A keyboard message whose key is a single ASCII character is sent as that
/// character's UTF-16 code unit, which is its code point; the release flag is
/// set exactly when the action is "up", and no other flag is set.
pub proof fn lemma_single_character_key_meaning(ke: KeyboardEvent)
    requires
        ke.key@.len() == 1,
        (ke.key@[0] as u32) < 0x80,
    ensures
        input_action(FromBrowserMessages::KeyboardEvent(ke)) matches InputAction::UnicodeKey {
            flags,
            code,
        } && {
            &&& code as u32 == ke.key@[0] as u32
            &&& (ke.action@ == "up"@ ==> flags == 0x8000)
            &&& (ke.action@ != "up"@ ==> flags == 0)
        },
{
    lemma_single_byte_key(ke.key@);
}

/// Backspace is sent as its scancode 0x0e, with the release flag exactly when
/// the action is "up"; a key name of several bytes other than "Backspace" is
/// not sent at all.
pub proof fn lemma_named_key_meaning(ke: KeyboardEvent)
    requires
        ke.key@.len() != 1 || (ke.key@[0] as u32) >= 0x80,
    ensures
        ke.key@ == "Backspace"@ ==> input_action(FromBrowserMessages::KeyboardEvent(ke))
            == (InputAction::ScancodeKey {
            flags: if ke.action@ == "up"@ {
                0x8000
            } else {
                0
            },
            scancode: 0x0e,
        }),
        ke.key@ != "Backspace"@ ==> input_action(FromBrowserMessages::KeyboardEvent(ke))
            == InputAction::UnhandledKey,
{
    lemma_single_byte_key(ke.key@);
}

/// A keyboard message is turned into exactly what its key event alone turns
/// into, and a connect request is never sent to the server as input.
pub proof fn lemma_dispatch(ke: KeyboardEvent, cfg: RDPConfiguration)
    ensures
        input_action(FromBrowserMessages::KeyboardEvent(ke)) == key_input_action(ke),
        input_action(FromBrowserMessages::RDPConnect(cfg)) == InputAction::Discard,
{
}

} // verus!
