//! The decisions of the main window: which asset the webview's custom protocol
//! serves, what the page's IPC requests do, how the event loop reacts to
//! window events, and the script that tells the page where the websocket is.

use vstd::prelude::*;
use vstd::string::*;

use crate::text::{
    decimal, decimal_value, lemma_decimal_round_trip, lemma_strip_all_leading_pattern,
    lemma_strip_all_without_pattern, occurs_at, push_decimal, str_equals, strip_all,
    strip_all_occurrences,
};

verus! {

/// Title of the main window.
pub const WINDOW_TITLE: &'static str = "RDP-WRY";

/// Scheme of the webview's custom protocol.
pub const PROTOCOL_NAME: &'static str = "app";

/// The page that the webview opens.
pub const MAIN_PAGE_URL: &'static str = "app://internal/main.html";

/// Events that the webview sends to the event loop.
#[derive(Debug, Clone, Copy, PartialEq, Eq, Structural)]
pub enum CustomEvents {
    MakeVisible,
}

/// What the custom protocol serves.
#[derive(Debug, Clone, Copy, PartialEq, Eq, Structural)]
pub enum Asset {
    /// The HTML page of the front end.
    MainPage,
    /// The script of the front end.
    MainScript,
    /// An empty HTML body, for any other path.
    NotFound,
}

/// The asset for a path of the custom protocol.
pub open spec fn asset_for_path(path: Seq<char>) -> Asset {
    if path == "internal/main.html"@ {
        Asset::MainPage
    } else if path == "internal/main.js"@ {
        Asset::MainScript
    } else {
        Asset::NotFound
    }
}

/// The asset for a request URI: every "app://" is removed from it, and what
/// remains is the path.
pub open spec fn asset_for_uri(uri: Seq<char>) -> Asset {
    asset_for_path(strip_all(uri, "app://"@))
}

/// The MIME type under which an asset is served.
pub open spec fn asset_mimetype(asset: Asset) -> Seq<char> {
    match asset {
        Asset::MainScript => "text/javascript"@,
        _ => "text/html"@,
    }
}

/// Chooses the asset that answers a request of the custom protocol.
pub fn route_request(uri: &str) -> (asset: Asset)
    ensures
        asset == asset_for_uri(uri@),
{
    let scheme = "app://";
    proof {
        reveal_strlit("app://");
    }
    let path = strip_all_occurrences(uri, scheme);
    if str_equals(path.as_str(), "internal/main.html") {
        Asset::MainPage
    } else if str_equals(path.as_str(), "internal/main.js") {
        Asset::MainScript
    } else {
        Asset::NotFound
    }
}

impl Asset {
    /// The MIME type under which the asset is served.
    pub fn mimetype(&self) -> (mime: &'static str)
        ensures
            mime@ == asset_mimetype(*self),
    {
        match self {
            Asset::MainScript => "text/javascript",
            _ => "text/html",
        }
    }
}

/// What an IPC request from the page does.
#[derive(Debug, Clone, Copy, PartialEq, Eq, Structural)]
pub enum IpcAction {
    /// Show the window, and tell the event loop so.
    MakeVisible,
    /// The request is not known; it is only logged.
    Unhandled,
}

/// Decides what an IPC request from the page does: "make-visible" shows the
/// window once the page has rendered.
pub fn ipc_action(request: &str) -> (action: IpcAction)
    ensures
        action == (if request@ == "make-visible"@ {
            IpcAction::MakeVisible
        } else {
            IpcAction::Unhandled
        }),
{
    if str_equals(request, "make-visible") {
        IpcAction::MakeVisible
    } else {
        IpcAction::Unhandled
    }
}

/// The window events that the event loop tells apart.
#[derive(Debug, Clone, Copy, PartialEq, Eq, Structural)]
pub enum LoopEvent {
    /// The event loop has just started.
    Init,
    /// The user asked to close the window.
    CloseRequested,
    /// Anything else.
    Other,
}

/// How the event loop goes on.
#[derive(Debug, Clone, Copy, PartialEq, Eq, Structural)]
pub enum LoopControl {
    /// Sleep until the next event.
    Wait,
    /// Leave the loop.
    Exit,
}

/// The event loop waits for the next event after each one, and exits when
/// the window is asked to close.
pub fn control_flow(event: LoopEvent) -> (control: LoopControl)
    ensures
        control == (if event == LoopEvent::CloseRequested {
            LoopControl::Exit
        } else {
            LoopControl::Wait
        }),
{
    let mut control = LoopControl::Wait;
    match event {
        LoopEvent::Init => {},
        LoopEvent::CloseRequested => {
            control = LoopControl::Exit;
        },
        LoopEvent::Other => {},
    }
    control
}

/// The script that the page runs first: it records the address of the
/// websocket server on the loopback interface at `port`.
pub open spec fn init_script_text(port: u16) -> Seq<char> {
    "var WEBSOCKETADDRESS='127.0.0.1:"@ + decimal(port as nat) + "';"@
}

/// Builds the initialisation script of the page for the websocket port.
pub fn initialization_script(port: u16) -> (script: String)
    ensures
        script@ == init_script_text(port),
{
    let mut script = String::from_str("var WEBSOCKETADDRESS='127.0.0.1:");
    push_decimal(&mut script, port as u32);
    script.append("';");
    script
}

/// The port can be read back from the initialisation script: the text between
/// the address prefix and the closing quote is the port in decimal.
pub proof fn lemma_init_script_carries_port(port: u16)
    ensures
        ({
            let text = init_script_text(port);
            let prefix = "var WEBSOCKETADDRESS='127.0.0.1:"@;
            &&& text.subrange(0, prefix.len() as int) == prefix
            &&& text.subrange(prefix.len() as int, text.len() - 2) == decimal(port as nat)
            &&& decimal_value(text.subrange(prefix.len() as int, text.len() - 2)) == port
        }),
{
    reveal_strlit("';");
    let prefix = "var WEBSOCKETADDRESS='127.0.0.1:"@;
    let digits = decimal(port as nat);
    let text = init_script_text(port);
    assert(text.subrange(0, prefix.len() as int) =~= prefix);
    assert(text.subrange(prefix.len() as int, text.len() - 2) =~= digits);
    lemma_decimal_round_trip(port as nat);
}

/// A request for "app://" followed by a path in which "app://" does not occur
/// gets the page for "internal/main.html", the script for "internal/main.js",
/// and an empty page for any other path; only the script is served as
/// JavaScript.
pub proof fn lemma_routing(path: Seq<char>)
    requires
        forall|i: int| !#[trigger] occurs_at(path, "app://"@, i),
    ensures
        (asset_for_uri("app://"@ + path) == Asset::MainPage) <==> path == "internal/main.html"@,
        (asset_for_uri("app://"@ + path) == Asset::MainScript) <==> path == "internal/main.js"@,
        (asset_for_uri("app://"@ + path) == Asset::NotFound) <==> (path != "internal/main.html"@
            && path != "internal/main.js"@),
        asset_mimetype(asset_for_uri("app://"@ + path)) == (if path == "internal/main.js"@ {
            "text/javascript"@
        } else {
            "text/html"@
        }),
{
    reveal_strlit("app://");
    reveal_strlit("internal/main.html");
    reveal_strlit("internal/main.js");
    lemma_strip_all_leading_pattern(path, "app://"@);
    lemma_strip_all_without_pattern(path, "app://"@);
    assert("internal/main.html"@.len() != "internal/main.js"@.len());
}

/// The page that the webview opens is the one the custom protocol serves as
/// the main page.
pub proof fn lemma_main_page_url_serves_main_page()
    ensures
        asset_for_uri(MAIN_PAGE_URL@) == Asset::MainPage,
{
    reveal_strlit("app://internal/main.html");
    reveal_strlit("app://");
    reveal_strlit("internal/main.html");
    let uri = MAIN_PAGE_URL@;
    let pat = "app://"@;
    let path = "internal/main.html"@;
    assert(uri.subrange(0, 6) =~= pat);
    assert(occurs_at(uri, pat, 0));
    assert(uri.subrange(6, uri.len() as int) =~= path);
    assert forall|i: int| !#[trigger] occurs_at(path, pat, i) by {
        if occurs_at(path, pat, i) {
            assert(path.subrange(i, i + 6)[3] == pat[3]);
            assert(path[i + 3] == ':');
        }
    }
    lemma_strip_all_without_pattern(path, pat);
}

} // verus!
