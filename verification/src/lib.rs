//! Verified core of a webview-based RDP client: the messages that the browser
//! front end sends, the decisions taken on them, and the state machines that
//! drive the RDP session and the websocket connection.

pub mod callbacks;
pub mod input;
pub mod messages;
pub mod pixel;
pub mod text;
pub mod session;
pub mod websocket;
pub mod window;
