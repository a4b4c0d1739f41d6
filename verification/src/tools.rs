//! The tools: their names, what they say of themselves, and the arguments they
//! take.
use vstd::prelude::*;

use crate::json::{
    array, items, member, members, object, text, whole, Json, JsonView, Number,
};
use crate::text::same_text;

pub mod args;
pub mod cookies;
pub mod keys;
pub mod laws;
pub mod listing;
pub mod logs;
pub mod reading;
pub mod reply;
pub mod run;
pub mod script;

verus! {

/// A tool that a caller can use.
#[derive(Debug, Clone, Copy, PartialEq, Eq, Structural)]
pub enum Tool {
    OpenSession,
    CloseSession,
    ListSessions,
    NewPage,
    ListPages,
    SwitchTab,
    CloseTab,
    Navigate,
    TakeScreenshot,
    TakeSnapshot,
    Click,
    TypeText,
    PressKey,
    Scroll,
    MoveMouse,
    WaitFor,
    Evaluate,
    ListVisits,
    ListConsoleMessages,
    ListNetworkRequests,
    SetStealth,
    GetStealth,
    RequestTakeover,
    AwaitTakeover,
    SaveState,
    LoadState,
    ListStates,
    DeleteState,
}

/// All tools, in the order in which they are listed.
pub open spec fn all_tools() -> Seq<Tool> {
    seq![
        Tool::OpenSession,
        Tool::CloseSession,
        Tool::ListSessions,
        Tool::NewPage,
        Tool::ListPages,
        Tool::SwitchTab,
        Tool::CloseTab,
        Tool::Navigate,
        Tool::TakeScreenshot,
        Tool::TakeSnapshot,
        Tool::Click,
        Tool::TypeText,
        Tool::PressKey,
        Tool::Scroll,
        Tool::MoveMouse,
        Tool::WaitFor,
        Tool::Evaluate,
        Tool::ListVisits,
        Tool::ListConsoleMessages,
        Tool::ListNetworkRequests,
        Tool::SetStealth,
        Tool::GetStealth,
        Tool::RequestTakeover,
        Tool::AwaitTakeover,
        Tool::SaveState,
        Tool::LoadState,
        Tool::ListStates,
        Tool::DeleteState,
    ]
}

/// The name by which a tool is called.
pub open spec fn tool_name(t: Tool) -> Seq<char> {
    match t {
        Tool::OpenSession => "open_browser_session"@,
        Tool::CloseSession => "close_browser_session"@,
        Tool::ListSessions => "list_browser_sessions"@,
        Tool::NewPage => "new_page"@,
        Tool::ListPages => "list_pages"@,
        Tool::SwitchTab => "switch_tab"@,
        Tool::CloseTab => "close_tab"@,
        Tool::Navigate => "navigate"@,
        Tool::TakeScreenshot => "take_screenshot"@,
        Tool::TakeSnapshot => "take_snapshot"@,
        Tool::Click => "click"@,
        Tool::TypeText => "type"@,
        Tool::PressKey => "press_key"@,
        Tool::Scroll => "scroll"@,
        Tool::MoveMouse => "move_mouse"@,
        Tool::WaitFor => "wait_for"@,
        Tool::Evaluate => "evaluate"@,
        Tool::ListVisits => "list_visits"@,
        Tool::ListConsoleMessages => "list_console_messages"@,
        Tool::ListNetworkRequests => "list_network_requests"@,
        Tool::SetStealth => "set_stealth"@,
        Tool::GetStealth => "get_stealth"@,
        Tool::RequestTakeover => "request_human_takeover"@,
        Tool::AwaitTakeover => "await_human_takeover"@,
        Tool::SaveState => "save_browser_state"@,
        Tool::LoadState => "load_browser_state"@,
        Tool::ListStates => "list_browser_states"@,
        Tool::DeleteState => "delete_browser_state"@,
    }
}

/// The tool of a name.
pub open spec fn tool_named(name: Seq<char>) -> Option<Tool> {
    if name == "open_browser_session"@ {
        Some(Tool::OpenSession)
    } else if name == "close_browser_session"@ {
        Some(Tool::CloseSession)
    } else if name == "list_browser_sessions"@ {
        Some(Tool::ListSessions)
    } else if name == "new_page"@ {
        Some(Tool::NewPage)
    } else if name == "list_pages"@ {
        Some(Tool::ListPages)
    } else if name == "switch_tab"@ {
        Some(Tool::SwitchTab)
    } else if name == "close_tab"@ {
        Some(Tool::CloseTab)
    } else if name == "navigate"@ {
        Some(Tool::Navigate)
    } else if name == "take_screenshot"@ {
        Some(Tool::TakeScreenshot)
    } else if name == "take_snapshot"@ {
        Some(Tool::TakeSnapshot)
    } else if name == "click"@ {
        Some(Tool::Click)
    } else if name == "type"@ {
        Some(Tool::TypeText)
    } else if name == "press_key"@ {
        Some(Tool::PressKey)
    } else if name == "scroll"@ {
        Some(Tool::Scroll)
    } else if name == "move_mouse"@ {
        Some(Tool::MoveMouse)
    } else if name == "wait_for"@ {
        Some(Tool::WaitFor)
    } else if name == "evaluate"@ {
        Some(Tool::Evaluate)
    } else if name == "list_visits"@ {
        Some(Tool::ListVisits)
    } else if name == "list_console_messages"@ {
        Some(Tool::ListConsoleMessages)
    } else if name == "list_network_requests"@ {
        Some(Tool::ListNetworkRequests)
    } else if name == "set_stealth"@ {
        Some(Tool::SetStealth)
    } else if name == "get_stealth"@ {
        Some(Tool::GetStealth)
    } else if name == "request_human_takeover"@ {
        Some(Tool::RequestTakeover)
    } else if name == "await_human_takeover"@ {
        Some(Tool::AwaitTakeover)
    } else if name == "save_browser_state"@ {
        Some(Tool::SaveState)
    } else if name == "load_browser_state"@ {
        Some(Tool::LoadState)
    } else if name == "list_browser_states"@ {
        Some(Tool::ListStates)
    } else if name == "delete_browser_state"@ {
        Some(Tool::DeleteState)
    } else {
        None
    }
}

/// The tool of a name.
pub fn find_tool(name: &str) -> (r: Option<Tool>)
    ensures
        r == tool_named(name@),
{
    if same_text(name, "open_browser_session") {
        Some(Tool::OpenSession)
    } else if same_text(name, "close_browser_session") {
        Some(Tool::CloseSession)
    } else if same_text(name, "list_browser_sessions") {
        Some(Tool::ListSessions)
    } else if same_text(name, "new_page") {
        Some(Tool::NewPage)
    } else if same_text(name, "list_pages") {
        Some(Tool::ListPages)
    } else if same_text(name, "switch_tab") {
        Some(Tool::SwitchTab)
    } else if same_text(name, "close_tab") {
        Some(Tool::CloseTab)
    } else if same_text(name, "navigate") {
        Some(Tool::Navigate)
    } else if same_text(name, "take_screenshot") {
        Some(Tool::TakeScreenshot)
    } else if same_text(name, "take_snapshot") {
        Some(Tool::TakeSnapshot)
    } else if same_text(name, "click") {
        Some(Tool::Click)
    } else if same_text(name, "type") {
        Some(Tool::TypeText)
    } else if same_text(name, "press_key") {
        Some(Tool::PressKey)
    } else if same_text(name, "scroll") {
        Some(Tool::Scroll)
    } else if same_text(name, "move_mouse") {
        Some(Tool::MoveMouse)
    } else if same_text(name, "wait_for") {
        Some(Tool::WaitFor)
    } else if same_text(name, "evaluate") {
        Some(Tool::Evaluate)
    } else if same_text(name, "list_visits") {
        Some(Tool::ListVisits)
    } else if same_text(name, "list_console_messages") {
        Some(Tool::ListConsoleMessages)
    } else if same_text(name, "list_network_requests") {
        Some(Tool::ListNetworkRequests)
    } else if same_text(name, "set_stealth") {
        Some(Tool::SetStealth)
    } else if same_text(name, "get_stealth") {
        Some(Tool::GetStealth)
    } else if same_text(name, "request_human_takeover") {
        Some(Tool::RequestTakeover)
    } else if same_text(name, "await_human_takeover") {
        Some(Tool::AwaitTakeover)
    } else if same_text(name, "save_browser_state") {
        Some(Tool::SaveState)
    } else if same_text(name, "load_browser_state") {
        Some(Tool::LoadState)
    } else if same_text(name, "list_browser_states") {
        Some(Tool::ListStates)
    } else if same_text(name, "delete_browser_state") {
        Some(Tool::DeleteState)
    } else {
        None
    }
}

// ---- what the tools say of themselves -------------------------------------

pub const ABOUT_OPEN_SESSION: &'static str =
    "Open a new isolated browser session and return its sessionId. Pass this id to every subsequent tool call. Sessions are full BrowserContexts — each has its own cookies, storage, and tabs.";

pub const ABOUT_CLOSE_SESSION: &'static str =
    "Close a browser session. Releases its tabs, cookies, and storage. Idempotent.";

pub const ABOUT_LIST_SESSIONS: &'static str =
    "List active browser sessions on the underlying Chrome.";

pub const ABOUT_NEW_PAGE: &'static str =
    "Open a new tab in the session. Subsequent tool calls target this new tab.";

pub const ABOUT_LIST_PAGES: &'static str =
    "List all tabs open in the session, in stable order. The active tab (the one navigate/evaluate/screenshot/click target by default) is marked with `*` in the text and `active: true` in the structured output. Tab indices are stable across calls.";

pub const ABOUT_SWITCH_TAB: &'static str =
    "Make the tab at `tabIndex` (a list_pages index) the active tab — subsequent navigate/evaluate/screenshot/click/type target it — and bring it to the front in Chrome (also updates the human-takeover screencast).";

pub const ABOUT_CLOSE_TAB: &'static str =
    "Close the tab at `tabIndex` (a list_pages index). The session and other tabs stay open; the active tab falls back to the last remaining tab.";

pub const ABOUT_NAVIGATE: &'static str =
    "Navigate the session's active page to a URL. Resolves after the load event.";

pub const ABOUT_TAKE_SCREENSHOT: &'static str =
    "Capture a PNG screenshot of the session's active page. Returns the image as base64 embedded in the response.";

pub const ABOUT_TAKE_SNAPSHOT: &'static str =
    "Capture the accessibility tree of the session's active page as indented text.";

pub const ABOUT_CLICK: &'static str =
    "Click via real CDP mouse input (trusted events — fires handlers reliably and grants user activation, so it can open popups/new tabs that a JS click can't). Provide a CSS `selector` (clicks its center, scrolled into view) OR explicit `x`/`y` viewport coordinates.";

pub const ABOUT_TYPE_TEXT: &'static str =
    "Type text into the first element matching the CSS selector.";

pub const ABOUT_PRESS_KEY: &'static str =
    "Press a key via CDP keyboard input. `key` is a name (Enter, Tab, Escape, Backspace, ArrowDown, …) or a single character. With a `selector`, focuses that element first (e.g. type into a field then press Enter); without, presses on whatever is focused.";

pub const ABOUT_SCROLL: &'static str =
    "Scroll via a real mouse-wheel event. `deltaY` (default 600; negative scrolls up) and `deltaX` (default 0) are pixels; `x`/`y` are the wheel position (default 50,50). Useful to trigger lazy-loaded content and to generate human-like behavioral signals.";

pub const ABOUT_MOVE_MOUSE: &'static str =
    "Move the mouse to viewport coordinates `x`,`y` via CDP input (trusted move event) — triggers hover handlers and contributes human-like behavioral telemetry.";

pub const ABOUT_WAIT_FOR: &'static str =
    "Wait for a CSS selector to appear, or for a text string to be present in the page body.";

pub const ABOUT_EVALUATE: &'static str =
    "Run a JavaScript expression in the page and return its value. Wrap with `return ...` for multi-statement bodies. Runs in the page's main world (can read page globals like window.dataLayer); on stealth sessions (console-capture off) it runs in an isolated world instead, which can't see page-defined globals. By default targets the active tab; pass `tabIndex` (a list_pages index) to evaluate in a specific tab.";

pub const ABOUT_LIST_VISITS: &'static str =
    "List page visits in this session, oldest first. Each visit is one top-level navigation in one tab.";

pub const ABOUT_LIST_CONSOLE_MESSAGES: &'static str =
    "List console messages emitted by the session. Returns up to `limit` most-recent entries (default 500).";

pub const ABOUT_LIST_NETWORK_REQUESTS: &'static str =
    "List network requests made by the session. Returns up to `limit` most-recent entries (default 500).";

pub const ABOUT_SET_STEALTH: &'static str =
    "Toggle stealth for a session. `enabled: true` disables the CDP Runtime domain (removes the Runtime.enable automation tell that anti-bot systems like Cloudflare detect) — load/navigate pages in this mode to pass CDP-based bot gates; the cost is no console capture and `evaluate` runs in an isolated world (can't read page globals like window.dataLayer). `enabled: false` re-enables Runtime: console capture + main-world `evaluate` (reads page globals) return, but the CDP tell is present. Typical flow: set_stealth(true) → navigate → set_stealth(false) → evaluate. Replaces the old console-capture toggle that required a takeover token.";

pub const ABOUT_GET_STEALTH: &'static str =
    "Return whether stealth is currently enabled for a session ({ stealth: bool }).";

pub const ABOUT_REQUEST_TAKEOVER: &'static str =
    "Hand the session's active page to a human to log in themselves (passwords/passkeys the agent must not see). Returns a URL to show the user and a token. Does NOT block. STRONGLY ADVISED: after showing the URL, run await_human_takeover in a BACKGROUND task (subagent/job) — not your main loop — because the human may take many minutes and you should stay responsive. `ttl` (ms, default 300000, max 1800000) bounds how long the link (a bearer credential) is valid.";

pub const ABOUT_AWAIT_TAKEOVER: &'static str =
    "Wait for the human to click Done in the takeover page. Returns { completed } — true if they finished, false on timeout. STRONGLY ADVISED: run this in a BACKGROUND task and POLL — call it in a loop with a SHORT `timeout` (e.g. 4000ms) until completed:true — rather than one long blocking call, which can exceed your MCP client's request timeout and make you miss the Done signal. The human may take several minutes; a background poller lets you be notified and resume. `timeout` ms: default 300000, max 1800000. Pass the token from request_human_takeover. On completion the session is authenticated and you can continue.";

pub const ABOUT_SAVE_STATE: &'static str =
    "Save the session's cookies under a name so a future session can load them and resume without logging in again.";

pub const ABOUT_LOAD_STATE: &'static str =
    "Load a previously saved set of cookies into this session.";

pub const ABOUT_LIST_STATES: &'static str =
    "List all saved browser states.";

pub const ABOUT_DELETE_STATE: &'static str =
    "Delete a saved browser state by name.";

/// What a tool says of itself.
pub open spec fn description_of(t: Tool) -> Seq<char> {
    match t {
        Tool::OpenSession => ABOUT_OPEN_SESSION@,
        Tool::CloseSession => ABOUT_CLOSE_SESSION@,
        Tool::ListSessions => ABOUT_LIST_SESSIONS@,
        Tool::NewPage => ABOUT_NEW_PAGE@,
        Tool::ListPages => ABOUT_LIST_PAGES@,
        Tool::SwitchTab => ABOUT_SWITCH_TAB@,
        Tool::CloseTab => ABOUT_CLOSE_TAB@,
        Tool::Navigate => ABOUT_NAVIGATE@,
        Tool::TakeScreenshot => ABOUT_TAKE_SCREENSHOT@,
        Tool::TakeSnapshot => ABOUT_TAKE_SNAPSHOT@,
        Tool::Click => ABOUT_CLICK@,
        Tool::TypeText => ABOUT_TYPE_TEXT@,
        Tool::PressKey => ABOUT_PRESS_KEY@,
        Tool::Scroll => ABOUT_SCROLL@,
        Tool::MoveMouse => ABOUT_MOVE_MOUSE@,
        Tool::WaitFor => ABOUT_WAIT_FOR@,
        Tool::Evaluate => ABOUT_EVALUATE@,
        Tool::ListVisits => ABOUT_LIST_VISITS@,
        Tool::ListConsoleMessages => ABOUT_LIST_CONSOLE_MESSAGES@,
        Tool::ListNetworkRequests => ABOUT_LIST_NETWORK_REQUESTS@,
        Tool::SetStealth => ABOUT_SET_STEALTH@,
        Tool::GetStealth => ABOUT_GET_STEALTH@,
        Tool::RequestTakeover => ABOUT_REQUEST_TAKEOVER@,
        Tool::AwaitTakeover => ABOUT_AWAIT_TAKEOVER@,
        Tool::SaveState => ABOUT_SAVE_STATE@,
        Tool::LoadState => ABOUT_LOAD_STATE@,
        Tool::ListStates => ABOUT_LIST_STATES@,
        Tool::DeleteState => ABOUT_DELETE_STATE@,
    }
}

// ---- arguments ------------------------------------------------------------

/// What an argument can be.
#[derive(Debug, Clone, Copy, PartialEq, Eq, Structural)]
pub enum Kind {
    Str,
    Bool,
    /// A whole number from 1 on.
    PosInt,
    /// A whole number from 0 on.
    NonNegInt,
    Num,
    Url,
    /// The size of a window.
    Viewport,
}

/// The arguments that a tool takes.
pub open spec fn params_of(t: Tool) -> Seq<(Seq<char>, Kind)> {
    match t {
        Tool::OpenSession => seq![("viewport"@, Kind::Viewport), ("useMobileUA"@, Kind::Bool)],
        Tool::CloseSession
        | Tool::ListPages
        | Tool::TakeSnapshot
        | Tool::ListVisits
        | Tool::GetStealth => seq![("sessionId"@, Kind::Str)],
        Tool::ListSessions | Tool::ListStates => seq![],
        Tool::NewPage => seq![("sessionId"@, Kind::Str), ("url"@, Kind::Url)],
        Tool::SwitchTab | Tool::CloseTab => seq![
            ("sessionId"@, Kind::Str),
            ("tabIndex"@, Kind::NonNegInt),
        ],
        Tool::Navigate => seq![
            ("sessionId"@, Kind::Str),
            ("url"@, Kind::Url),
            ("timeout"@, Kind::PosInt),
        ],
        Tool::TakeScreenshot => seq![("sessionId"@, Kind::Str), ("fullPage"@, Kind::Bool)],
        Tool::Click => seq![
            ("sessionId"@, Kind::Str),
            ("selector"@, Kind::Str),
            ("x"@, Kind::Num),
            ("y"@, Kind::Num),
            ("timeout"@, Kind::PosInt),
        ],
        Tool::TypeText => seq![
            ("sessionId"@, Kind::Str),
            ("selector"@, Kind::Str),
            ("text"@, Kind::Str),
            ("delay"@, Kind::NonNegInt),
            ("clear"@, Kind::Bool),
        ],
        Tool::PressKey => seq![
            ("sessionId"@, Kind::Str),
            ("key"@, Kind::Str),
            ("selector"@, Kind::Str),
            ("timeout"@, Kind::PosInt),
        ],
        Tool::Scroll => seq![
            ("sessionId"@, Kind::Str),
            ("deltaY"@, Kind::Num),
            ("deltaX"@, Kind::Num),
            ("x"@, Kind::Num),
            ("y"@, Kind::Num),
        ],
        Tool::MoveMouse => seq![("sessionId"@, Kind::Str), ("x"@, Kind::Num), ("y"@, Kind::Num)],
        Tool::WaitFor => seq![
            ("sessionId"@, Kind::Str),
            ("selector"@, Kind::Str),
            ("text"@, Kind::Str),
            ("timeout"@, Kind::PosInt),
        ],
        Tool::Evaluate => seq![
            ("sessionId"@, Kind::Str),
            ("expression"@, Kind::Str),
            ("tabIndex"@, Kind::NonNegInt),
        ],
        Tool::ListConsoleMessages | Tool::ListNetworkRequests => seq![
            ("sessionId"@, Kind::Str),
            ("visit"@, Kind::PosInt),
            ("limit"@, Kind::PosInt),
        ],
        Tool::SetStealth => seq![("sessionId"@, Kind::Str), ("enabled"@, Kind::Bool)],
        Tool::RequestTakeover => seq![("sessionId"@, Kind::Str), ("ttl"@, Kind::PosInt)],
        Tool::AwaitTakeover => seq![("token"@, Kind::Str), ("timeout"@, Kind::PosInt)],
        Tool::SaveState | Tool::LoadState => seq![("sessionId"@, Kind::Str), ("name"@, Kind::Str)],
        Tool::DeleteState => seq![("name"@, Kind::Str)],
    }
}

/// The arguments that a tool has to be given.
pub open spec fn required_of(t: Tool) -> Seq<Seq<char>> {
    match t {
        Tool::OpenSession | Tool::ListSessions | Tool::ListStates => seq![],
        Tool::CloseSession
        | Tool::NewPage
        | Tool::ListPages
        | Tool::TakeScreenshot
        | Tool::TakeSnapshot
        | Tool::Click
        | Tool::Scroll
        | Tool::WaitFor
        | Tool::ListVisits
        | Tool::ListConsoleMessages
        | Tool::ListNetworkRequests
        | Tool::GetStealth
        | Tool::RequestTakeover => seq!["sessionId"@],
        Tool::SwitchTab | Tool::CloseTab => seq!["sessionId"@, "tabIndex"@],
        Tool::Navigate => seq!["sessionId"@, "url"@],
        Tool::TypeText => seq!["sessionId"@, "selector"@, "text"@],
        Tool::PressKey => seq!["sessionId"@, "key"@],
        Tool::MoveMouse => seq!["sessionId"@, "x"@, "y"@],
        Tool::Evaluate => seq!["sessionId"@, "expression"@],
        Tool::SetStealth => seq!["sessionId"@, "enabled"@],
        Tool::AwaitTakeover => seq!["token"@],
        Tool::SaveState | Tool::LoadState => seq!["sessionId"@, "name"@],
        Tool::DeleteState => seq!["name"@],
    }
}

/// An argument that a tool takes.
pub struct Param {
    pub name: &'static str,
    pub kind: Kind,
}

/// What the arguments of a list say.
pub open spec fn param_views(v: Seq<Param>) -> Seq<(Seq<char>, Kind)> {
    v.map_values(|p: Param| (p.name@, p.kind))
}

/// The texts of a list of names.
pub open spec fn name_views(v: Seq<&'static str>) -> Seq<Seq<char>> {
    v.map_values(|s: &'static str| s@)
}

/// An argument.
fn param(name: &'static str, kind: Kind) -> (r: Param)
    ensures
        r.name@ == name@,
        r.kind == kind,
{
    Param { name, kind }
}

impl Tool {
    /// The name by which the tool is called.
    pub fn name(self) -> (r: &'static str)
        ensures
            r@ == tool_name(self),
    {
        match self {
            Tool::OpenSession => "open_browser_session",
            Tool::CloseSession => "close_browser_session",
            Tool::ListSessions => "list_browser_sessions",
            Tool::NewPage => "new_page",
            Tool::ListPages => "list_pages",
            Tool::SwitchTab => "switch_tab",
            Tool::CloseTab => "close_tab",
            Tool::Navigate => "navigate",
            Tool::TakeScreenshot => "take_screenshot",
            Tool::TakeSnapshot => "take_snapshot",
            Tool::Click => "click",
            Tool::TypeText => "type",
            Tool::PressKey => "press_key",
            Tool::Scroll => "scroll",
            Tool::MoveMouse => "move_mouse",
            Tool::WaitFor => "wait_for",
            Tool::Evaluate => "evaluate",
            Tool::ListVisits => "list_visits",
            Tool::ListConsoleMessages => "list_console_messages",
            Tool::ListNetworkRequests => "list_network_requests",
            Tool::SetStealth => "set_stealth",
            Tool::GetStealth => "get_stealth",
            Tool::RequestTakeover => "request_human_takeover",
            Tool::AwaitTakeover => "await_human_takeover",
            Tool::SaveState => "save_browser_state",
            Tool::LoadState => "load_browser_state",
            Tool::ListStates => "list_browser_states",
            Tool::DeleteState => "delete_browser_state",
        }
    }

    /// What the tool says of itself.
    pub fn description(self) -> (r: &'static str)
        ensures
            r@ == description_of(self),
    {
        match self {
            Tool::OpenSession => ABOUT_OPEN_SESSION,
            Tool::CloseSession => ABOUT_CLOSE_SESSION,
            Tool::ListSessions => ABOUT_LIST_SESSIONS,
            Tool::NewPage => ABOUT_NEW_PAGE,
            Tool::ListPages => ABOUT_LIST_PAGES,
            Tool::SwitchTab => ABOUT_SWITCH_TAB,
            Tool::CloseTab => ABOUT_CLOSE_TAB,
            Tool::Navigate => ABOUT_NAVIGATE,
            Tool::TakeScreenshot => ABOUT_TAKE_SCREENSHOT,
            Tool::TakeSnapshot => ABOUT_TAKE_SNAPSHOT,
            Tool::Click => ABOUT_CLICK,
            Tool::TypeText => ABOUT_TYPE_TEXT,
            Tool::PressKey => ABOUT_PRESS_KEY,
            Tool::Scroll => ABOUT_SCROLL,
            Tool::MoveMouse => ABOUT_MOVE_MOUSE,
            Tool::WaitFor => ABOUT_WAIT_FOR,
            Tool::Evaluate => ABOUT_EVALUATE,
            Tool::ListVisits => ABOUT_LIST_VISITS,
            Tool::ListConsoleMessages => ABOUT_LIST_CONSOLE_MESSAGES,
            Tool::ListNetworkRequests => ABOUT_LIST_NETWORK_REQUESTS,
            Tool::SetStealth => ABOUT_SET_STEALTH,
            Tool::GetStealth => ABOUT_GET_STEALTH,
            Tool::RequestTakeover => ABOUT_REQUEST_TAKEOVER,
            Tool::AwaitTakeover => ABOUT_AWAIT_TAKEOVER,
            Tool::SaveState => ABOUT_SAVE_STATE,
            Tool::LoadState => ABOUT_LOAD_STATE,
            Tool::ListStates => ABOUT_LIST_STATES,
            Tool::DeleteState => ABOUT_DELETE_STATE,
        }
    }

    /// The arguments that the tool takes.
    pub fn params(self) -> (r: Vec<Param>)
        ensures
            param_views(r@) == params_of(self),
    {
        let r: Vec<Param> = match self {
            Tool::OpenSession => vec![
                param("viewport", Kind::Viewport),
                param("useMobileUA", Kind::Bool),
            ],
            Tool::CloseSession
            | Tool::ListPages
            | Tool::TakeSnapshot
            | Tool::ListVisits
            | Tool::GetStealth => vec![param("sessionId", Kind::Str)],
            Tool::ListSessions | Tool::ListStates => Vec::new(),
            Tool::NewPage => vec![param("sessionId", Kind::Str), param("url", Kind::Url)],
            Tool::SwitchTab | Tool::CloseTab => vec![
                param("sessionId", Kind::Str),
                param("tabIndex", Kind::NonNegInt),
            ],
            Tool::Navigate => vec![
                param("sessionId", Kind::Str),
                param("url", Kind::Url),
                param("timeout", Kind::PosInt),
            ],
            Tool::TakeScreenshot => vec![
                param("sessionId", Kind::Str),
                param("fullPage", Kind::Bool),
            ],
            Tool::Click => vec![
                param("sessionId", Kind::Str),
                param("selector", Kind::Str),
                param("x", Kind::Num),
                param("y", Kind::Num),
                param("timeout", Kind::PosInt),
            ],
            Tool::TypeText => vec![
                param("sessionId", Kind::Str),
                param("selector", Kind::Str),
                param("text", Kind::Str),
                param("delay", Kind::NonNegInt),
                param("clear", Kind::Bool),
            ],
            Tool::PressKey => vec![
                param("sessionId", Kind::Str),
                param("key", Kind::Str),
                param("selector", Kind::Str),
                param("timeout", Kind::PosInt),
            ],
            Tool::Scroll => vec![
                param("sessionId", Kind::Str),
                param("deltaY", Kind::Num),
                param("deltaX", Kind::Num),
                param("x", Kind::Num),
                param("y", Kind::Num),
            ],
            Tool::MoveMouse => vec![
                param("sessionId", Kind::Str),
                param("x", Kind::Num),
                param("y", Kind::Num),
            ],
            Tool::WaitFor => vec![
                param("sessionId", Kind::Str),
                param("selector", Kind::Str),
                param("text", Kind::Str),
                param("timeout", Kind::PosInt),
            ],
            Tool::Evaluate => vec![
                param("sessionId", Kind::Str),
                param("expression", Kind::Str),
                param("tabIndex", Kind::NonNegInt),
            ],
            Tool::ListConsoleMessages | Tool::ListNetworkRequests => vec![
                param("sessionId", Kind::Str),
                param("visit", Kind::PosInt),
                param("limit", Kind::PosInt),
            ],
            Tool::SetStealth => vec![param("sessionId", Kind::Str), param("enabled", Kind::Bool)],
            Tool::RequestTakeover => vec![
                param("sessionId", Kind::Str),
                param("ttl", Kind::PosInt),
            ],
            Tool::AwaitTakeover => vec![param("token", Kind::Str), param("timeout", Kind::PosInt)],
            Tool::SaveState | Tool::LoadState => vec![
                param("sessionId", Kind::Str),
                param("name", Kind::Str),
            ],
            Tool::DeleteState => vec![param("name", Kind::Str)],
        };
        assert(param_views(r@) =~= params_of(self));
        r
    }

    /// The arguments that the tool has to be given.
    pub fn required(self) -> (r: Vec<&'static str>)
        ensures
            name_views(r@) == required_of(self),
    {
        let r: Vec<&'static str> = match self {
            Tool::OpenSession | Tool::ListSessions | Tool::ListStates => Vec::new(),
            Tool::CloseSession
            | Tool::NewPage
            | Tool::ListPages
            | Tool::TakeScreenshot
            | Tool::TakeSnapshot
            | Tool::Click
            | Tool::Scroll
            | Tool::WaitFor
            | Tool::ListVisits
            | Tool::ListConsoleMessages
            | Tool::ListNetworkRequests
            | Tool::GetStealth
            | Tool::RequestTakeover => vec!["sessionId"],
            Tool::SwitchTab | Tool::CloseTab => vec!["sessionId", "tabIndex"],
            Tool::Navigate => vec!["sessionId", "url"],
            Tool::TypeText => vec!["sessionId", "selector", "text"],
            Tool::PressKey => vec!["sessionId", "key"],
            Tool::MoveMouse => vec!["sessionId", "x", "y"],
            Tool::Evaluate => vec!["sessionId", "expression"],
            Tool::SetStealth => vec!["sessionId", "enabled"],
            Tool::AwaitTakeover => vec!["token"],
            Tool::SaveState | Tool::LoadState => vec!["sessionId", "name"],
            Tool::DeleteState => vec!["name"],
        };
        assert(name_views(r@) =~= required_of(self));
        r
    }
}

// ---- schemas --------------------------------------------------------------

/// A schema that names a type and a lower limit.
pub open spec fn integer_from(least: u64) -> JsonView {
    JsonView::Object(
        seq![
            ("type"@, JsonView::Str("integer"@)),
            ("minimum"@, JsonView::Number(Number::Unsigned(least))),
        ],
    )
}

/// A schema that names a type only.
pub open spec fn just(kind: Seq<char>) -> JsonView {
    JsonView::Object(seq![("type"@, JsonView::Str(kind))])
}

/// The schema of an argument.
pub open spec fn kind_schema(k: Kind) -> JsonView {
    match k {
        Kind::Str => just("string"@),
        Kind::Bool => just("boolean"@),
        Kind::PosInt => integer_from(1),
        Kind::NonNegInt => integer_from(0),
        Kind::Num => just("number"@),
        Kind::Url => JsonView::Object(
            seq![("type"@, JsonView::Str("string"@)), ("format"@, JsonView::Str("uri"@))],
        ),
        Kind::Viewport => JsonView::Object(
            seq![
                ("type"@, JsonView::Str("object"@)),
                (
                    "properties"@,
                    JsonView::Object(
                        seq![("width"@, integer_from(1)), ("height"@, integer_from(1))],
                    ),
                ),
                (
                    "required"@,
                    JsonView::Array(seq![JsonView::Str("width"@), JsonView::Str("height"@)]),
                ),
                ("additionalProperties"@, JsonView::Bool(false)),
            ],
        ),
    }
}

/// The schemas of arguments, under their names.
pub open spec fn properties_of(params: Seq<(Seq<char>, Kind)>) -> Seq<(Seq<char>, JsonView)> {
    params.map_values(|p: (Seq<char>, Kind)| (p.0, kind_schema(p.1)))
}

/// The schema of an object with these arguments and no others.
pub open spec fn schema_of(params: Seq<(Seq<char>, Kind)>, required: Seq<Seq<char>>) -> Seq<
    (Seq<char>, JsonView),
> {
    let front = seq![
        ("type"@, JsonView::Str("object"@)),
        ("properties"@, JsonView::Object(properties_of(params))),
    ];
    let middle = if required.len() > 0 {
        front.push(
            (
                "required"@,
                JsonView::Array(required.map_values(|s: Seq<char>| JsonView::Str(s))),
            ),
        )
    } else {
        front
    };
    middle.push(("additionalProperties"@, JsonView::Bool(false)))
}

/// A schema that names a type and a lower limit.
fn integer_json(least: u64) -> (r: Json)
    ensures
        r@ == integer_from(least),
{
    let v = vec![member("type", text("integer")), member("minimum", whole(least))];
    assert(members(v@) =~= integer_from(least)->Object_0);
    object(v)
}

/// A schema that names a type only.
fn just_json(kind: &str) -> (r: Json)
    ensures
        r@ == just(kind@),
{
    let v = vec![member("type", text(kind))];
    assert(members(v@) =~= just(kind@)->Object_0);
    object(v)
}

/// The schema of the size of a window.
fn viewport_json() -> (r: Json)
    ensures
        r@ == kind_schema(Kind::Viewport),
{
    let size = vec![member("width", integer_json(1)), member("height", integer_json(1))];
    assert(members(size@) =~= seq![("width"@, integer_from(1)), ("height"@, integer_from(1))]);
    let both = vec![text("width"), text("height")];
    assert(items(both@) =~= seq![JsonView::Str("width"@), JsonView::Str("height"@)]);
    let v = vec![
        member("type", text("object")),
        member("properties", object(size)),
        member("required", array(both)),
        member("additionalProperties", Json::Bool(false)),
    ];
    assert(members(v@) =~= kind_schema(Kind::Viewport)->Object_0);
    object(v)
}

/// The schema of an argument.
fn kind_json(k: Kind) -> (r: Json)
    ensures
        r@ == kind_schema(k),
{
    match k {
        Kind::Str => just_json("string"),
        Kind::Bool => just_json("boolean"),
        Kind::PosInt => integer_json(1),
        Kind::NonNegInt => integer_json(0),
        Kind::Num => just_json("number"),
        Kind::Url => {
            let v = vec![member("type", text("string")), member("format", text("uri"))];
            assert(members(v@) =~= kind_schema(Kind::Url)->Object_0);
            object(v)
        },
        Kind::Viewport => viewport_json(),
    }
}

/// The schema of an object with these arguments and no others.
pub fn object_schema(params: &Vec<Param>, required: &Vec<&'static str>) -> (r: Vec<
    (String, Json),
>)
    ensures
        members(r@) == schema_of(param_views(params@), name_views(required@)),
{
    let mut props: Vec<(String, Json)> = Vec::new();
    let mut i: usize = 0;
    while i < params.len()
        invariant
            i <= params@.len(),
            props@.len() == i,
            forall|j: int|
                0 <= j < i ==> (#[trigger] props@[j]).0@ == params@[j].name@ && props@[j].1@
                    == kind_schema(params@[j].kind),
        decreases params@.len() - i,
    {
        props.push(member(params[i].name, kind_json(params[i].kind)));
        i += 1;
    }
    assert(members(props@) =~= properties_of(param_views(params@)));
    let mut out = vec![member("type", text("object")), member("properties", object(props))];
    if required.len() > 0 {
        let mut names: Vec<Json> = Vec::new();
        let mut k: usize = 0;
        while k < required.len()
            invariant
                k <= required@.len(),
                names@.len() == k,
                forall|j: int|
                    0 <= j < k ==> (#[trigger] names@[j])@ == JsonView::Str(required@[j]@),
            decreases required@.len() - k,
        {
            names.push(text(required[k]));
            k += 1;
        }
        assert(items(names@) =~= name_views(required@).map_values(
            |s: Seq<char>| JsonView::Str(s),
        ));
        out.push(member("required", array(names)));
    }
    out.push(member("additionalProperties", Json::Bool(false)));
    assert(members(out@) =~= schema_of(param_views(params@), name_views(required@)));
    out
}

/// What a client is told of a tool.
pub struct ToolDef {
    pub name: &'static str,
    pub description: &'static str,
    pub input_schema: Vec<(String, Json)>,
}

/// What a [`ToolDef`] says.
#[verifier::ext_equal]
pub struct ToolDefView {
    pub name: Seq<char>,
    pub description: Seq<char>,
    pub input_schema: Seq<(Seq<char>, JsonView)>,
}

impl View for ToolDef {
    type V = ToolDefView;

    open spec fn view(&self) -> ToolDefView {
        ToolDefView {
            name: self.name@,
            description: self.description@,
            input_schema: members(self.input_schema@),
        }
    }
}

/// What the entries of a list say.
pub open spec fn def_views(v: Seq<ToolDef>) -> Seq<ToolDefView> {
    v.map_values(|d: ToolDef| d@)
}

/// What a client is told of a tool.
pub open spec fn tool_def(t: Tool) -> ToolDefView {
    ToolDefView {
        name: tool_name(t),
        description: description_of(t),
        input_schema: schema_of(params_of(t), required_of(t)),
    }
}

/// All tools, in the order in which they are listed.
pub fn tools() -> (r: Vec<Tool>)
    ensures
        r@ == all_tools(),
{
    let r = vec![
        Tool::OpenSession,
        Tool::CloseSession,
        Tool::ListSessions,
        Tool::NewPage,
        Tool::ListPages,
        Tool::SwitchTab,
        Tool::CloseTab,
        Tool::Navigate,
        Tool::TakeScreenshot,
        Tool::TakeSnapshot,
        Tool::Click,
        Tool::TypeText,
        Tool::PressKey,
        Tool::Scroll,
        Tool::MoveMouse,
        Tool::WaitFor,
        Tool::Evaluate,
        Tool::ListVisits,
        Tool::ListConsoleMessages,
        Tool::ListNetworkRequests,
        Tool::SetStealth,
        Tool::GetStealth,
        Tool::RequestTakeover,
        Tool::AwaitTakeover,
        Tool::SaveState,
        Tool::LoadState,
        Tool::ListStates,
        Tool::DeleteState,
    ];
    assert(r@ =~= all_tools());
    r
}

/// What a client is told of the tools.
pub fn tool_defs() -> (r: Vec<ToolDef>)
    ensures
        def_views(r@) == all_tools().map_values(|t: Tool| tool_def(t)),
{
    let all = tools();
    let mut out: Vec<ToolDef> = Vec::new();
    let mut i: usize = 0;
    while i < all.len()
        invariant
            i <= all@.len(),
            out@.len() == i,
            forall|j: int| 0 <= j < i ==> (#[trigger] out@[j])@ == tool_def(all@[j]),
        decreases all@.len() - i,
    {
        let t = all[i];
        let params = t.params();
        let required = t.required();
        out.push(
            ToolDef {
                name: t.name(),
                description: t.description(),
                input_schema: object_schema(&params, &required),
            },
        );
        i += 1;
    }
    assert(def_views(out@) =~= all_tools().map_values(|t: Tool| tool_def(t)));
    out
}

// ---- what holds of the tools ----------------------------------------------

/// What tells the names apart: their length, and three of their characters.
spec fn mark(name: Seq<char>) -> (nat, char, char, char) {
    (name.len(), name[0], name[1], if name.len() > 5 { name[5] } else { ' ' })
}

/// The mark of a tool's name.
spec fn mark_of(t: Tool) -> (nat, char, char, char) {
    match t {
        Tool::OpenSession => (20, 'o', 'p', 'b'),
        Tool::CloseSession => (21, 'c', 'l', '_'),
        Tool::ListSessions => (21, 'l', 'i', 'b'),
        Tool::NewPage => (8, 'n', 'e', 'a'),
        Tool::ListPages => (10, 'l', 'i', 'p'),
        Tool::SwitchTab => (10, 's', 'w', 'h'),
        Tool::CloseTab => (9, 'c', 'l', '_'),
        Tool::Navigate => (8, 'n', 'a', 'a'),
        Tool::TakeScreenshot => (15, 't', 'a', 's'),
        Tool::TakeSnapshot => (13, 't', 'a', 's'),
        Tool::Click => (5, 'c', 'l', ' '),
        Tool::TypeText => (4, 't', 'y', ' '),
        Tool::PressKey => (9, 'p', 'r', '_'),
        Tool::Scroll => (6, 's', 'c', 'l'),
        Tool::MoveMouse => (10, 'm', 'o', 'm'),
        Tool::WaitFor => (8, 'w', 'a', 'f'),
        Tool::Evaluate => (8, 'e', 'v', 'a'),
        Tool::ListVisits => (11, 'l', 'i', 'v'),
        Tool::ListConsoleMessages => (21, 'l', 'i', 'c'),
        Tool::ListNetworkRequests => (21, 'l', 'i', 'n'),
        Tool::SetStealth => (11, 's', 'e', 't'),
        Tool::GetStealth => (11, 'g', 'e', 't'),
        Tool::RequestTakeover => (22, 'r', 'e', 's'),
        Tool::AwaitTakeover => (20, 'a', 'w', '_'),
        Tool::SaveState => (18, 's', 'a', 'b'),
        Tool::LoadState => (18, 'l', 'o', 'b'),
        Tool::ListStates => (19, 'l', 'i', 'b'),
        Tool::DeleteState => (20, 'd', 'e', 'e'),
    }
}

/// Each name has its mark.
proof fn lemma_marks(t: Tool)
    ensures
        mark(tool_name(t)) == mark_of(t),
{
    match t {
        Tool::OpenSession => reveal_strlit("open_browser_session"),
        Tool::CloseSession => reveal_strlit("close_browser_session"),
        Tool::ListSessions => reveal_strlit("list_browser_sessions"),
        Tool::NewPage => reveal_strlit("new_page"),
        Tool::ListPages => reveal_strlit("list_pages"),
        Tool::SwitchTab => reveal_strlit("switch_tab"),
        Tool::CloseTab => reveal_strlit("close_tab"),
        Tool::Navigate => reveal_strlit("navigate"),
        Tool::TakeScreenshot => reveal_strlit("take_screenshot"),
        Tool::TakeSnapshot => reveal_strlit("take_snapshot"),
        Tool::Click => reveal_strlit("click"),
        Tool::TypeText => reveal_strlit("type"),
        Tool::PressKey => reveal_strlit("press_key"),
        Tool::Scroll => reveal_strlit("scroll"),
        Tool::MoveMouse => reveal_strlit("move_mouse"),
        Tool::WaitFor => reveal_strlit("wait_for"),
        Tool::Evaluate => reveal_strlit("evaluate"),
        Tool::ListVisits => reveal_strlit("list_visits"),
        Tool::ListConsoleMessages => reveal_strlit("list_console_messages"),
        Tool::ListNetworkRequests => reveal_strlit("list_network_requests"),
        Tool::SetStealth => reveal_strlit("set_stealth"),
        Tool::GetStealth => reveal_strlit("get_stealth"),
        Tool::RequestTakeover => reveal_strlit("request_human_takeover"),
        Tool::AwaitTakeover => reveal_strlit("await_human_takeover"),
        Tool::SaveState => reveal_strlit("save_browser_state"),
        Tool::LoadState => reveal_strlit("load_browser_state"),
        Tool::ListStates => reveal_strlit("list_browser_states"),
        Tool::DeleteState => reveal_strlit("delete_browser_state"),
    }
}

/// A name belongs to one tool: what is listed under a name is what a call of
/// that name reaches, and no other name reaches it.
pub proof fn law_names_are_unique(t: Tool, name: Seq<char>)
    ensures
        tool_named(tool_name(t)) == Some(t),
        tool_named(name) == Some(t) <==> name == tool_name(t),
{
    lemma_marks(Tool::OpenSession);
    lemma_marks(Tool::CloseSession);
    lemma_marks(Tool::ListSessions);
    lemma_marks(Tool::NewPage);
    lemma_marks(Tool::ListPages);
    lemma_marks(Tool::SwitchTab);
    lemma_marks(Tool::CloseTab);
    lemma_marks(Tool::Navigate);
    lemma_marks(Tool::TakeScreenshot);
    lemma_marks(Tool::TakeSnapshot);
    lemma_marks(Tool::Click);
    lemma_marks(Tool::TypeText);
    lemma_marks(Tool::PressKey);
    lemma_marks(Tool::Scroll);
    lemma_marks(Tool::MoveMouse);
    lemma_marks(Tool::WaitFor);
    lemma_marks(Tool::Evaluate);
    lemma_marks(Tool::ListVisits);
    lemma_marks(Tool::ListConsoleMessages);
    lemma_marks(Tool::ListNetworkRequests);
    lemma_marks(Tool::SetStealth);
    lemma_marks(Tool::GetStealth);
    lemma_marks(Tool::RequestTakeover);
    lemma_marks(Tool::AwaitTakeover);
    lemma_marks(Tool::SaveState);
    lemma_marks(Tool::LoadState);
    lemma_marks(Tool::ListStates);
    lemma_marks(Tool::DeleteState);
}

/// Every tool is listed, once.
pub proof fn law_every_tool_is_listed(t: Tool)
    ensures
        all_tools().contains(t),
        all_tools().no_duplicates(),
        all_tools().len() == 28,
{
    let i: int = match t {
        Tool::OpenSession => 0,
        Tool::CloseSession => 1,
        Tool::ListSessions => 2,
        Tool::NewPage => 3,
        Tool::ListPages => 4,
        Tool::SwitchTab => 5,
        Tool::CloseTab => 6,
        Tool::Navigate => 7,
        Tool::TakeScreenshot => 8,
        Tool::TakeSnapshot => 9,
        Tool::Click => 10,
        Tool::TypeText => 11,
        Tool::PressKey => 12,
        Tool::Scroll => 13,
        Tool::MoveMouse => 14,
        Tool::WaitFor => 15,
        Tool::Evaluate => 16,
        Tool::ListVisits => 17,
        Tool::ListConsoleMessages => 18,
        Tool::ListNetworkRequests => 19,
        Tool::SetStealth => 20,
        Tool::GetStealth => 21,
        Tool::RequestTakeover => 22,
        Tool::AwaitTakeover => 23,
        Tool::SaveState => 24,
        Tool::LoadState => 25,
        Tool::ListStates => 26,
        Tool::DeleteState => 27,
    };
    assert(all_tools()[i] == t);
}

/// A tool that has to be given an argument takes it.
pub proof fn law_required_arguments_are_taken(t: Tool, name: Seq<char>)
    requires
        required_of(t).contains(name),
    ensures
        exists|i: int| 0 <= i < params_of(t).len() && (#[trigger] params_of(t)[i]).0 == name,
{
    let k = choose|k: int| 0 <= k < required_of(t).len() && required_of(t)[k] == name;
    let ps = params_of(t);
    assert(ps.len() > 0 ==> ps[0].0 == ps[0].0);
    assert(ps.len() > 1 ==> ps[1].0 == ps[1].0);
    assert(ps.len() > 2 ==> ps[2].0 == ps[2].0);
}

/// A tool works on a session: its first argument is the session's id, and it has
/// to be given. Only the tools that open or list sessions, the one that waits for
/// a human, and the ones for saved states as such do not.
pub proof fn law_session_comes_first(t: Tool)
    requires
        t != Tool::OpenSession,
        t != Tool::ListSessions,
        t != Tool::AwaitTakeover,
        t != Tool::ListStates,
        t != Tool::DeleteState,
    ensures
        params_of(t)[0] == ("sessionId"@, Kind::Str),
        required_of(t)[0] == "sessionId"@,
{
}

}
