//! The RDP client: the settings it connects with and the decisions of its
//! session loop, as a state machine that the caller drives by performing each
//! action and reporting what came of it.

use vstd::prelude::*;
use vstd::string::*;

use crate::input::{handle_input, input_accepted, input_action, InputAction};
use crate::messages::{FromBrowserMessages, RDPConfiguration};

verus! {

/// How many event handles the session waits on at most.
pub const MAXIMUM_RDP_WAIT_OBJECTS: u32 = 64;

/// How long one wait for events lasts, in milliseconds: short enough that two
/// quick key presses are not merged.
pub const EVENT_WAIT_TIMEOUT_MS: u32 = 25;

/// Why the client could not be set up or run.
#[derive(Debug, Clone, Copy, PartialEq, Eq, Structural)]
pub enum RdpError {
    /// The host name of the configuration does not resolve.
    UnableToResolveHost,
    /// The session ended without having connected.
    FailedToStart,
}

impl RdpError {
    /// The text that describes the error.
    pub fn message(&self) -> (text: &'static str)
        ensures
            text@ == (match self {
                RdpError::UnableToResolveHost => "Unable to resolve host."@,
                RdpError::FailedToStart => "Failed to start RDP process"@,
            }),
    {
        match self {
            RdpError::UnableToResolveHost => "Unable to resolve host.",
            RdpError::FailedToStart => "Failed to start RDP process",
        }
    }
}

/// Whether a string holds a NUL character, which a C string cannot carry.
pub open spec fn has_nul(s: Seq<char>) -> bool {
    exists|i: int| 0 <= i < s.len() && s[i] == '\0'
}

/// Whether a string holds a NUL character.
pub fn contains_nul(s: &str) -> (found: bool)
    ensures
        found == has_nul(s@),
{
    let n = s.unicode_len();
    let mut i: usize = 0;
    while i < n
        invariant
            n == s@.len(),
            i <= n,
            forall|k: int| 0 <= k < i ==> s@[k] != '\0',
        decreases n - i,
    {
        if s.get_char(i) == '\0' {
            return true;
        }
        i = i + 1;
    }
    false
}

/// The address whose resolution tells whether the host exists: the host with
/// port zero.
pub fn resolution_target(host: &str) -> (target: String)
    ensures
        target@ == host@ + ":0"@,
{
    let mut target = String::from_str(host);
    target.append(":0");
    target
}

/// The settings that the client writes into the FreeRDP context.
#[derive(Debug, Clone)]
pub struct ConnectionSettings {
    pub server_hostname: String,
    pub server_port: u32,
    pub username: String,
    pub password: String,
}

/// Where the session loop stands.
#[derive(Debug, Clone, Copy, PartialEq, Eq, Structural)]
pub enum SessionPhase {
    /// The loop has not begun.
    NotStarted,
    /// Waiting for the outcome of the connection attempt.
    Connecting,
    /// The connection failed; the last error is being reported and the
    /// attempt aborted.
    AbortingConnect,
    /// Waiting to learn whether the server asked to disconnect.
    CheckingDisconnect,
    /// Waiting on the session's event handles.
    Waiting,
    /// Taking the next input command from the front end.
    PollingCommands,
    /// An input event is being sent to the server.
    Delivering,
    /// Waiting for the outcome of processing the event handles.
    CheckingHandles,
    /// Processing failed; the last error is being reported.
    ReportingError,
    /// The loop has ended with this result.
    Finished(bool),
}

/// What the next attempt to take an input command gave.
#[derive(Debug, Clone)]
pub enum CommandPoll {
    Received(FromBrowserMessages),
    Empty,
    ChannelClosed,
}

/// What came of the last action of the session loop.
#[derive(Debug, Clone)]
pub enum SessionEvent {
    /// The connection attempt succeeded or failed.
    Connected(bool),
    /// Whether the server asked to disconnect.
    DisconnectRequested(bool),
    /// The outcome of taking an input command.
    Command(CommandPoll),
    /// Whether processing the event handles succeeded.
    HandlesChecked(bool),
    /// An action that yields nothing has been carried out.
    Done,
}

/// What the session loop asks its driver to do next.
#[derive(Debug, Clone, Copy, PartialEq, Eq, Structural)]
pub enum SessionAction {
    /// Connect to the server.
    Connect,
    /// Report the last error and abort the connection attempt.
    AbortConnect,
    /// Ask whether the server wants to disconnect.
    CheckDisconnect,
    /// Wait on at most `max_handles` event handles for `timeout_ms`.
    WaitForEvents { max_handles: u32, timeout_ms: u32 },
    /// Take the next input command without blocking.
    PollCommand,
    /// Send this input event to the server.
    SendInput(InputAction),
    /// Process the session's event handles.
    CheckEventHandles,
    /// Report the last error and abort the connection.
    ReportLastError,
    /// The loop is over, with this result.
    Finish(bool),
}

/// The state of the session loop: its phase, and whether the connection was
/// established.
#[derive(Debug, Clone, Copy)]
pub struct ClientSession {
    phase: SessionPhase,
    connected: bool,
}

/// The step of the session loop from `(phase, connected)` on `event`: the new
/// phase, connection flag and action, or `None` when the event does not
/// answer what the phase waits for.
pub open spec fn session_transition(phase: SessionPhase, connected: bool, event: SessionEvent) -> Option<
    (SessionPhase, bool, SessionAction),
> {
    match (phase, event) {
        (SessionPhase::Connecting, SessionEvent::Connected(true)) => Some(
            (SessionPhase::CheckingDisconnect, true, SessionAction::CheckDisconnect),
        ),
        (SessionPhase::Connecting, SessionEvent::Connected(false)) => Some(
            (SessionPhase::AbortingConnect, connected, SessionAction::AbortConnect),
        ),
        (SessionPhase::AbortingConnect, SessionEvent::Done) => Some(
            (SessionPhase::Finished(false), connected, SessionAction::Finish(false)),
        ),
        (SessionPhase::CheckingDisconnect, SessionEvent::DisconnectRequested(true)) => Some(
            (SessionPhase::Finished(true), connected, SessionAction::Finish(true)),
        ),
        (SessionPhase::CheckingDisconnect, SessionEvent::DisconnectRequested(false)) => Some(
            (
                SessionPhase::Waiting,
                connected,
                SessionAction::WaitForEvents {
                    max_handles: MAXIMUM_RDP_WAIT_OBJECTS,
                    timeout_ms: EVENT_WAIT_TIMEOUT_MS,
                },
            ),
        ),
        (SessionPhase::Waiting, SessionEvent::Done) => Some(
            (SessionPhase::PollingCommands, connected, SessionAction::PollCommand),
        ),
        (SessionPhase::PollingCommands, SessionEvent::Command(CommandPoll::Received(m))) => Some(
            (SessionPhase::Delivering, connected, SessionAction::SendInput(input_action(m))),
        ),
        (SessionPhase::PollingCommands, SessionEvent::Command(_)) => Some(
            (SessionPhase::CheckingHandles, connected, SessionAction::CheckEventHandles),
        ),
        (SessionPhase::Delivering, SessionEvent::Done) => Some(
            (SessionPhase::PollingCommands, connected, SessionAction::PollCommand),
        ),
        (SessionPhase::CheckingHandles, SessionEvent::HandlesChecked(true)) => Some(
            (SessionPhase::CheckingDisconnect, connected, SessionAction::CheckDisconnect),
        ),
        (SessionPhase::CheckingHandles, SessionEvent::HandlesChecked(false)) => Some(
            (SessionPhase::ReportingError, connected, SessionAction::ReportLastError),
        ),
        (SessionPhase::ReportingError, SessionEvent::Done) => Some(
            (SessionPhase::Finished(true), connected, SessionAction::Finish(true)),
        ),
        _ => None,
    }
}

/// Whether the session can act on an event without failing: an input
/// command must be one that the client accepts.
pub open spec fn event_accepted(event: SessionEvent) -> bool {
    match event {
        SessionEvent::Command(CommandPoll::Received(m)) => input_accepted(m),
        _ => true,
    }
}

/// The phases in which the connection has been established.
pub open spec fn phase_after_connect(phase: SessionPhase) -> bool {
    match phase {
        SessionPhase::NotStarted | SessionPhase::Connecting | SessionPhase::AbortingConnect
        | SessionPhase::Finished(false) => false,
        _ => true,
    }
}

/// The invariant of the session: the connection flag tells exactly whether
/// the loop is past a successful connection, and a finished loop's result is
/// that flag.
pub open spec fn session_inv(phase: SessionPhase, connected: bool) -> bool {
    &&& connected == phase_after_connect(phase)
    &&& (phase matches SessionPhase::Finished(r) ==> r == connected)
}

impl ClientSession {
    /// The phase of the loop.
    pub closed spec fn phase(self) -> SessionPhase {
        self.phase
    }

    /// Whether the connection was established.
    pub closed spec fn connected(self) -> bool {
        self.connected
    }

    /// The invariant that every session keeps.
    pub open spec fn wf(self) -> bool {
        session_inv(self.phase(), self.connected())
    }

    /// A loop that has not begun.
    pub fn new() -> (session: ClientSession)
        ensures
            session.phase() == SessionPhase::NotStarted,
            !session.connected(),
            session.wf(),
    {
        ClientSession { phase: SessionPhase::NotStarted, connected: false }
    }

    /// Begins the loop, which first connects; a loop that has already begun is
    /// left as it is.
    pub fn begin(&mut self) -> (action: Option<SessionAction>)
        ensures
            old(self).phase() == SessionPhase::NotStarted ==> {
                &&& action == Some(SessionAction::Connect)
                &&& final(self).phase() == SessionPhase::Connecting
                &&& final(self).connected() == old(self).connected()
            },
            old(self).phase() != SessionPhase::NotStarted ==> {
                &&& action is None
                &&& *final(self) == *old(self)
            },
            old(self).wf() ==> final(self).wf(),
    {
        if self.phase == SessionPhase::NotStarted {
            self.phase = SessionPhase::Connecting;
            Some(SessionAction::Connect)
        } else {
            None
        }
    }

    /// The phase of the loop.
    pub fn current_phase(&self) -> (phase: SessionPhase)
        ensures
            phase == self.phase(),
    {
        self.phase
    }

    /// Whether the connection was established.
    pub fn is_connected(&self) -> (connected: bool)
        ensures
            connected == self.connected(),
    {
        self.connected
    }

    /// Takes one step of the loop on what came of its last action, and returns
    /// the next action; an event that does not answer what the loop waits for
    /// leaves it unchanged and yields no action.
    pub fn step(&mut self, event: SessionEvent) -> (action: Option<SessionAction>)
        requires
            event_accepted(event),
        ensures
            match session_transition(old(self).phase(), old(self).connected(), event) {
                Some((phase, connected, next)) => {
                    &&& final(self).phase() == phase
                    &&& final(self).connected() == connected
                    &&& action == Some(next)
                },
                None => {
                    &&& *final(self) == *old(self)
                    &&& action is None
                },
            },
            old(self).wf() ==> final(self).wf(),
    {
        let phase = self.phase;
        match (phase, event) {
            (SessionPhase::Connecting, SessionEvent::Connected(ok)) => {
                if ok {
                    self.phase = SessionPhase::CheckingDisconnect;
                    self.connected = true;
                    Some(SessionAction::CheckDisconnect)
                } else {
                    self.phase = SessionPhase::AbortingConnect;
                    Some(SessionAction::AbortConnect)
                }
            },
            (SessionPhase::AbortingConnect, SessionEvent::Done) => {
                self.phase = SessionPhase::Finished(false);
                Some(SessionAction::Finish(false))
            },
            (SessionPhase::CheckingDisconnect, SessionEvent::DisconnectRequested(requested)) => {
                if requested {
                    self.phase = SessionPhase::Finished(true);
                    Some(SessionAction::Finish(true))
                } else {
                    self.phase = SessionPhase::Waiting;
                    Some(
                        SessionAction::WaitForEvents {
                            max_handles: MAXIMUM_RDP_WAIT_OBJECTS,
                            timeout_ms: EVENT_WAIT_TIMEOUT_MS,
                        },
                    )
                }
            },
            (SessionPhase::Waiting, SessionEvent::Done) => {
                self.phase = SessionPhase::PollingCommands;
                Some(SessionAction::PollCommand)
            },
            (SessionPhase::PollingCommands, SessionEvent::Command(poll)) => {
                match poll {
                    CommandPoll::Received(m) => {
                        self.phase = SessionPhase::Delivering;
                        Some(SessionAction::SendInput(handle_input(m)))
                    },
                    _ => {
                        self.phase = SessionPhase::CheckingHandles;
                        Some(SessionAction::CheckEventHandles)
                    },
                }
            },
            (SessionPhase::Delivering, SessionEvent::Done) => {
                self.phase = SessionPhase::PollingCommands;
                Some(SessionAction::PollCommand)
            },
            (SessionPhase::CheckingHandles, SessionEvent::HandlesChecked(ok)) => {
                if ok {
                    self.phase = SessionPhase::CheckingDisconnect;
                    Some(SessionAction::CheckDisconnect)
                } else {
                    self.phase = SessionPhase::ReportingError;
                    Some(SessionAction::ReportLastError)
                }
            },
            (SessionPhase::ReportingError, SessionEvent::Done) => {
                self.phase = SessionPhase::Finished(true);
                Some(SessionAction::Finish(true))
            },
            _ => None,
        }
    }
}

/// Every step of the loop keeps the session invariant.
pub proof fn lemma_step_keeps_invariant(phase: SessionPhase, connected: bool, event: SessionEvent)
    requires
        session_inv(phase, connected),
    ensures
        session_transition(phase, connected, event) matches Some((p, c, _)) ==> session_inv(p, c),
{
}

/// The loop finishes with a failure exactly when it finishes without having
/// connected, and a failure can only follow a failed connection attempt.
pub proof fn lemma_failure_only_after_failed_connect(
    phase: SessionPhase,
    connected: bool,
    event: SessionEvent,
)
    requires
        session_inv(phase, connected),
    ensures
        session_transition(phase, connected, event) matches Some((p, c, SessionAction::Finish(r)))
            ==> {
            &&& p == SessionPhase::Finished(r)
            &&& r == c
            &&& !r ==> phase == SessionPhase::AbortingConnect
        },
        session_transition(phase, connected, event) matches Some((SessionPhase::AbortingConnect, _, _))
            ==> phase == SessionPhase::Connecting && event == SessionEvent::Connected(false),
{
}

/// The connection flag changes only when a connection attempt succeeds.
pub proof fn lemma_connected_only_on_success(
    phase: SessionPhase,
    connected: bool,
    event: SessionEvent,
)
    ensures
        session_transition(phase, connected, event) matches Some((_, c, _)) ==> (c != connected
            ==> phase == SessionPhase::Connecting && event == SessionEvent::Connected(true) && c),
{
}

/// A finished loop takes no more steps.
pub proof fn lemma_finished_is_final(r: bool, connected: bool, event: SessionEvent)
    ensures
        session_transition(SessionPhase::Finished(r), connected, event) is None,
{
}

/// The loop finishes exactly after a disconnect request, after the last error
/// of a failed event check has been reported, or after a failed connection
/// attempt has been aborted.
pub proof fn lemma_when_loop_finishes(phase: SessionPhase, connected: bool, event: SessionEvent)
    ensures
        (session_transition(phase, connected, event) matches Some((_, _, SessionAction::Finish(_))))
            <==> ((phase == SessionPhase::CheckingDisconnect && event
            == SessionEvent::DisconnectRequested(true)) || (phase == SessionPhase::ReportingError
            && event is Done) || (phase == SessionPhase::AbortingConnect && event is Done)),
{
}

/// The loop waits on its event handles only when the server has not asked to
/// disconnect, and always on at most 64 handles for 25 milliseconds; after a
/// successful check of the handles it asks again about disconnecting.
pub proof fn lemma_wait_follows_disconnect_check(
    phase: SessionPhase,
    connected: bool,
    event: SessionEvent,
)
    ensures
        session_transition(phase, connected, event) matches Some(
            (_, _, SessionAction::WaitForEvents { max_handles, timeout_ms }),
        ) ==> max_handles == 64 && timeout_ms == 25 && phase == SessionPhase::CheckingDisconnect
            && event == SessionEvent::DisconnectRequested(false),
        phase == SessionPhase::CheckingHandles && event == SessionEvent::HandlesChecked(true)
            ==> session_transition(phase, connected, event) matches Some(
            (SessionPhase::CheckingDisconnect, _, SessionAction::CheckDisconnect),
        ),
{
}

/// The session loop run over a sequence of events from `(phase, connected)`:
/// the final phase and connection flag and the actions issued, one per event,
/// or `None` when some event does not answer what the loop waits for.
pub open spec fn session_run(phase: SessionPhase, connected: bool, events: Seq<SessionEvent>) -> Option<
    (SessionPhase, bool, Seq<SessionAction>),
>
    decreases events.len(),
{
    if events.len() == 0 {
        Some((phase, connected, Seq::<SessionAction>::empty()))
    } else {
        match session_transition(phase, connected, events[0]) {
            None => None,
            Some((p, c, action)) => match session_run(p, c, events.drop_first()) {
                None => None,
                Some((p2, c2, actions)) => Some((p2, c2, seq![action] + actions)),
            },
        }
    }
}

/// The input commands that a sequence of events hands to the loop, in order.
pub open spec fn received_commands(events: Seq<SessionEvent>) -> Seq<FromBrowserMessages>
    decreases events.len(),
{
    if events.len() == 0 {
        Seq::<FromBrowserMessages>::empty()
    } else {
        (match events[0] {
            SessionEvent::Command(CommandPoll::Received(m)) => seq![m],
            _ => Seq::<FromBrowserMessages>::empty(),
        }) + received_commands(events.drop_first())
    }
}

/// The input events that a sequence of actions sends to the server, in order.
pub open spec fn sent_inputs(actions: Seq<SessionAction>) -> Seq<InputAction>
    decreases actions.len(),
{
    if actions.len() == 0 {
        Seq::<InputAction>::empty()
    } else {
        (match actions[0] {
            SessionAction::SendInput(input) => seq![input],
            _ => Seq::<InputAction>::empty(),
        }) + sent_inputs(actions.drop_first())
    }
}

/// Over any run of the loop in which every event answers what the loop waits
/// for, the input events sent are those of the commands received: each
/// command is sent exactly once, in the order received, and nothing else is
/// sent.
pub proof fn lemma_run_sends_each_command_once_in_order(
    phase: SessionPhase,
    connected: bool,
    events: Seq<SessionEvent>,
)
    ensures
        session_run(phase, connected, events) matches Some((_, _, actions)) ==> sent_inputs(actions)
            == received_commands(events).map_values(|m: FromBrowserMessages| input_action(m)),
    decreases events.len(),
{
    if events.len() == 0 {
        assert(received_commands(events).map_values(|m: FromBrowserMessages| input_action(m))
            =~= Seq::<InputAction>::empty());
    } else if let Some((p, c, action)) = session_transition(phase, connected, events[0]) {
        let rest = events.drop_first();
        lemma_run_sends_each_command_once_in_order(p, c, rest);
        if let Some((_, _, tail)) = session_run(p, c, rest) {
            let actions = seq![action] + tail;
            assert(actions[0] == action);
            assert(actions.drop_first() =~= tail);
            let head_in = match events[0] {
                SessionEvent::Command(CommandPoll::Received(m)) => seq![m],
                _ => Seq::<FromBrowserMessages>::empty(),
            };
            let f = |m: FromBrowserMessages| input_action(m);
            assert((head_in + received_commands(rest)).map_values(f) =~= head_in.map_values(f)
                + received_commands(rest).map_values(f));
            match events[0] {
                SessionEvent::Command(CommandPoll::Received(m)) => {
                    assert(action == SessionAction::SendInput(input_action(m)));
                    assert(head_in.map_values(f) =~= seq![input_action(m)]);
                },
                _ => {
                    assert(!(action is SendInput));
                    assert(head_in.map_values(f) =~= Seq::<InputAction>::empty());
                },
            }
        }
    }
}

/// An RDP client: the settings it connects with and the state of its session
/// loop.
pub struct RDP {
    settings: ConnectionSettings,
    session: ClientSession,
}

/// Whether the client can be built from a configuration without failing: the
/// strings it hands to FreeRDP must not hold a NUL character.
pub open spec fn configuration_accepted(cfg: RDPConfiguration) -> bool {
    !has_nul(cfg.host@) && !has_nul(cfg.username@) && !has_nul(cfg.password@)
}

impl RDP {
    /// The settings that the client connects with.
    pub closed spec fn spec_settings(&self) -> ConnectionSettings {
        self.settings
    }

    /// The state of the session loop.
    pub closed spec fn spec_session(&self) -> ClientSession {
        self.session
    }

    /// Sets up a client for a configuration, given whether its host resolves:
    /// an unresolvable host is refused; otherwise the client holds the host,
    /// port and credentials, and its loop has not begun.
    pub fn new(cfg: RDPConfiguration, host_resolves: bool) -> (rdp: Result<RDP, RdpError>)
        requires
            host_resolves ==> configuration_accepted(cfg),
        ensures
            !host_resolves <==> rdp == Err::<RDP, RdpError>(RdpError::UnableToResolveHost),
            host_resolves ==> rdp is Ok,
            rdp matches Ok(client) ==> {
                &&& client.spec_settings().server_hostname@ == cfg.host@
                &&& client.spec_settings().server_port == cfg.port as u32
                &&& client.spec_settings().username@ == cfg.username@
                &&& client.spec_settings().password@ == cfg.password@
                &&& client.spec_session().phase() == SessionPhase::NotStarted
                &&& client.spec_session().wf()
            },
    {
        if !host_resolves {
            return Err(RdpError::UnableToResolveHost);
        }
        let settings = ConnectionSettings {
            server_hostname: cfg.host,
            server_port: cfg.port as u32,
            username: cfg.username,
            password: cfg.password,
        };
        Ok(RDP { settings, session: ClientSession::new() })
    }

    /// The settings that the client connects with.
    pub fn settings(&self) -> (settings: &ConnectionSettings)
        ensures
            *settings == self.spec_settings(),
    {
        &self.settings
    }

    /// The state of the session loop.
    pub fn session(&self) -> (session: &ClientSession)
        ensures
            *session == self.spec_session(),
    {
        &self.session
    }

    /// Starts the session loop: the first action is to connect. A loop that
    /// has already begun is left as it is.
    pub fn start(&mut self) -> (action: Option<SessionAction>)
        ensures
            final(self).spec_settings() == old(self).spec_settings(),
            old(self).spec_session().phase() == SessionPhase::NotStarted ==> {
                &&& action == Some(SessionAction::Connect)
                &&& final(self).spec_session().phase() == SessionPhase::Connecting
                &&& final(self).spec_session().connected() == old(
                    self,
                ).spec_session().connected()
            },
            old(self).spec_session().phase() != SessionPhase::NotStarted ==> {
                &&& action is None
                &&& final(self).spec_session() == old(self).spec_session()
            },
            old(self).spec_session().wf() ==> final(self).spec_session().wf(),
    {
        self.session.begin()
    }

    /// Takes one step of the session loop.
    pub fn step(&mut self, event: SessionEvent) -> (action: Option<SessionAction>)
        requires
            event_accepted(event),
        ensures
            final(self).spec_settings() == old(self).spec_settings(),
            match session_transition(
                old(self).spec_session().phase(),
                old(self).spec_session().connected(),
                event,
            ) {
                Some((phase, connected, next)) => {
                    &&& final(self).spec_session().phase() == phase
                    &&& final(self).spec_session().connected() == connected
                    &&& action == Some(next)
                },
                None => {
                    &&& final(self).spec_session() == old(self).spec_session()
                    &&& action is None
                },
            },
            old(self).spec_session().wf() ==> final(self).spec_session().wf(),
    {
        self.session.step(event)
    }

    /// What the client's run came to: nothing while the loop goes on, success
    /// once it has finished after connecting, and a failure to start once it
    /// has finished without connecting.
    pub fn outcome(&self) -> (outcome: Option<Result<(), RdpError>>)
        ensures
            outcome == (match self.spec_session().phase() {
                SessionPhase::Finished(true) => Some(Ok::<(), RdpError>(())),
                SessionPhase::Finished(false) => Some(Err::<(), RdpError>(RdpError::FailedToStart)),
                _ => None::<Result<(), RdpError>>,
            }),
    {
        match self.session.current_phase() {
            SessionPhase::Finished(ok) => {
                if ok {
                    Some(Ok(()))
                } else {
                    Some(Err(RdpError::FailedToStart))
                }
            },
            _ => None,
        }
    }
}

} // verus!
