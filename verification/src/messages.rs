//! The messages that the browser front end sends over the websocket.

use vstd::prelude::*;

verus! {

/// A message from the browser front end.
#[derive(Debug, Clone)]
pub enum FromBrowserMessages {
    RDPConnect(RDPConfiguration),
    MouseEvent(MouseEvent),
    KeyboardEvent(KeyboardEvent),
}

/// Where and as whom to open the RDP session.
#[derive(Debug, Clone)]
pub struct RDPConfiguration {
    pub host: String,
    pub username: String,
    pub password: String,
    pub port: u16,
}

/// A pointer event in the remote screen's coordinates.
#[derive(Debug, Clone)]
pub struct MouseEvent {
    pub action: String,
    pub button: String,
    /// Signed, in case the browser ever reports a negative offset.
    pub x: i32,
    pub y: i32,
}

/// A key press or release.
#[derive(Debug, Clone)]
pub struct KeyboardEvent {
    pub action: String,
    pub key: String,
}

} // verus!
