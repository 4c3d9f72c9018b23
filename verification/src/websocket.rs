//! The decisions of one websocket connection with the browser front end: it
//! starts the RDP client on request, forwards input to it, passes screen
//! updates to the browser, and tells the browser when the session is over.

use vstd::prelude::*;

use crate::messages::{FromBrowserMessages, RDPConfiguration};

verus! {

/// Something that happened on the connection.
#[derive(Debug, Clone)]
pub enum SocketEvent {
    /// A text frame arrived and was read as this message.
    Text(FromBrowserMessages),
    /// A binary frame arrived; the front end never sends one.
    Binary,
    /// A frame that is neither text nor binary arrived.
    OtherFrame,
    /// Reading from the websocket failed.
    ReadFailed,
    /// The websocket was closed.
    StreamEnded,
    /// The screen channel yielded this framebuffer, or nothing.
    ScreenUpdate(Option<Vec<u8>>),
    /// The RDP client's run has ended.
    RdpDone,
}

/// What the connection does in response.
#[derive(Debug, Clone)]
pub enum SocketAction {
    /// Start an RDP client for this configuration, with a fresh command
    /// channel to it.
    StartRdp(RDPConfiguration),
    /// Pass this message to the running RDP client.
    Forward(FromBrowserMessages),
    /// Nothing to do.
    Ignore,
    /// Send this framebuffer to the browser as a binary frame.
    SendFrame(Vec<u8>),
    /// Tell the browser that the RDP session has closed.
    SendCloseNotice,
    /// Stop serving the connection.
    Close,
}

/// The state of a connection: whether an RDP client has been started on it,
/// and whether it is still being served.
#[derive(Debug, Clone, Copy)]
pub struct Connection {
    rdp_started: bool,
    open: bool,
}

/// The step of a connection in state `(rdp_started, open)` on `event`: the new
/// state and the action.
pub open spec fn socket_transition(rdp_started: bool, open: bool, event: SocketEvent) -> (
    bool,
    bool,
    SocketAction,
) {
    if !open {
        (rdp_started, open, SocketAction::Ignore)
    } else {
        match event {
            SocketEvent::Text(FromBrowserMessages::RDPConnect(cfg)) => (
                true,
                true,
                SocketAction::StartRdp(cfg),
            ),
            SocketEvent::Text(m) => (
                rdp_started,
                true,
                if rdp_started {
                    SocketAction::Forward(m)
                } else {
                    SocketAction::Ignore
                },
            ),
            SocketEvent::Binary | SocketEvent::ReadFailed | SocketEvent::StreamEnded => (
                rdp_started,
                false,
                SocketAction::Close,
            ),
            SocketEvent::OtherFrame => (rdp_started, true, SocketAction::Ignore),
            SocketEvent::ScreenUpdate(Some(data)) => (rdp_started, true, SocketAction::SendFrame(data)),
            SocketEvent::ScreenUpdate(None) => (rdp_started, true, SocketAction::Ignore),
            SocketEvent::RdpDone => (rdp_started, true, SocketAction::SendCloseNotice),
        }
    }
}

impl Connection {
    /// Whether an RDP client has been started on the connection.
    pub closed spec fn rdp_started(self) -> bool {
        self.rdp_started
    }

    /// Whether the connection is still being served.
    pub closed spec fn is_open(self) -> bool {
        self.open
    }

    /// A newly accepted connection: open, with no RDP client.
    pub fn new() -> (conn: Connection)
        ensures
            conn.is_open(),
            !conn.rdp_started(),
    {
        Connection { rdp_started: false, open: true }
    }

    /// Whether the connection is still being served.
    pub fn open(&self) -> (open: bool)
        ensures
            open == self.is_open(),
    {
        self.open
    }

    /// Decides what to do about an event on the connection.
    pub fn step(&mut self, event: SocketEvent) -> (action: SocketAction)
        ensures
            ({
                let (started, open, next) = socket_transition(
                    old(self).rdp_started(),
                    old(self).is_open(),
                    event,
                );
                &&& final(self).rdp_started() == started
                &&& final(self).is_open() == open
                &&& action == next
            }),
    {
        if !self.open {
            return SocketAction::Ignore;
        }
        match event {
            SocketEvent::Text(m) => match m {
                FromBrowserMessages::RDPConnect(cfg) => {
                    self.rdp_started = true;
                    SocketAction::StartRdp(cfg)
                },
                other => {
                    if self.rdp_started {
                        SocketAction::Forward(other)
                    } else {
                        SocketAction::Ignore
                    }
                },
            },
            SocketEvent::Binary | SocketEvent::ReadFailed | SocketEvent::StreamEnded => {
                self.open = false;
                SocketAction::Close
            },
            SocketEvent::OtherFrame => SocketAction::Ignore,
            SocketEvent::ScreenUpdate(update) => match update {
                Some(data) => SocketAction::SendFrame(data),
                None => SocketAction::Ignore,
            },
            SocketEvent::RdpDone => SocketAction::SendCloseNotice,
        }
    }
}

/// A closed connection stays closed and does nothing more.
pub proof fn lemma_closed_is_final(rdp_started: bool, event: SocketEvent)
    ensures
        socket_transition(rdp_started, false, event) == (rdp_started, false, SocketAction::Ignore),
{
}

/// Input reaches the RDP client only once a client has been started on the
/// connection, and then every input message is passed on unchanged; a started
/// client stays started.
pub proof fn lemma_forward_only_after_start(rdp_started: bool, open: bool, event: SocketEvent)
    ensures
        ({
            let (started, _, action) = socket_transition(rdp_started, open, event);
            &&& rdp_started ==> started
            &&& (action matches SocketAction::Forward(m) ==> rdp_started && event == SocketEvent::Text(
                m,
            ))
            &&& (event matches SocketEvent::Text(m) ==> (open && rdp_started && !(m is RDPConnect)
                ==> action == SocketAction::Forward(m)))
        }),
{
}

/// A framebuffer from the screen channel is sent to an open connection's
/// browser byte for byte.
pub proof fn lemma_frames_sent_unchanged(rdp_started: bool, data: Vec<u8>)
    ensures
        socket_transition(rdp_started, true, SocketEvent::ScreenUpdate(Some(data))).2
            == SocketAction::SendFrame(data),
{
}

/// When the RDP client's run ends, an open connection tells the browser so,
/// whether or not a client was started on it, and its state is unchanged.
pub proof fn lemma_rdp_done_notifies_browser(rdp_started: bool)
    ensures
        socket_transition(rdp_started, true, SocketEvent::RdpDone) == (
            rdp_started,
            true,
            SocketAction::SendCloseNotice,
        ),
{
}

/// A connection closes exactly on a binary frame, a read failure or the end of
/// the stream; every other event leaves an open connection open and keeps
/// whether a client was started, except a connect request, which starts one.
pub proof fn lemma_when_connection_closes(rdp_started: bool, event: SocketEvent)
    ensures
        ({
            let (started, open, action) = socket_transition(rdp_started, true, event);
            &&& (!open <==> (event is Binary || event is ReadFailed || event is StreamEnded))
            &&& (!open ==> action is Close)
            &&& (started <==> (rdp_started || event matches SocketEvent::Text(
                FromBrowserMessages::RDPConnect(_),
            )))
        }),
{
}

} // verus!
