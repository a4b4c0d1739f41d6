//! What a tool does, step by step, from its call to its answer.
//!
//! Chrome, the files and the clock lie outside: an [`Action`] says what is to be
//! done next, a [`Result`] of it comes back as [`News`], and the last action is
//! the answer or the error.
use vstd::prelude::*;

use crate::error::{message, ErrorChain, Failure};
use crate::json::{items, Json, JsonView, Number};
use crate::outside::{base64_text, json_quoted};
use crate::sessions::work::within;
use crate::sessions::{
    law_session_list_is_unique, page_targets, pages_of, session_list, sessions_of, targets,
    InfoView, SessionInfo, Target, TargetView, Viewport,
};
use crate::takeover::{
    address_of, expiry_at, is_ctx, is_stealth, required_base, ticket_at, valid_ctx, Ticket,
    TicketView,
};
use crate::text::{borrowed, cat2, copy_opt, decimal, opt_text};
use crate::tools::args::{
    call_view, session_of, Call, ClickTarget, Condition, Request,
};
use crate::tools::cookies::{cleaned, cookies_to_set};
use crate::tools::keys::{
    dispatch_key, down_event, event_view, key_named, keys, up_event, KeyDef, KeyEvent,
};
use crate::tools::logs::{
    can_list, console_reply, entries, listed_console_messages, listed_network_requests,
    listed_visits, network_reply, visit_list_reply, visits, EntryView, LogEntry, Visit, VisitView,
};
use crate::tools::reply::{
    awaited_human, awaited_text, captured_screenshot, clicked, closed_session, closed_tab, count,
    deleted_state, evaluated, info_json, last_index, listed_sessions, listed_states, listed_tabs,
    loaded_state, matched_selector, matched_text, moved, navigated, object1, object2, object3,
    ok_text, opened_session, opened_tab, or_empty, point_label, pressed, saved_state, scrolled,
    session_list_reply, state_list_reply, stealth_set, stealth_state, stealth_text, struct_reply,
    summaries, switched_tab, tab_list_reply, takeover_ready, takeover_url, text_reply, typed,
    Content, Reply, ReplyView, StateSummary, SummaryView,
};
use crate::tools::script::{
    body_function, body_text, center, center_probe, element_center, evaluate_function,
    function_text, text_probe, world_for, World,
};

verus! {

// ---- actions and news -----------------------------------------------------

/// What is to be done next. What is said of a page is said of the page that the
/// run has found.
pub enum Action {
    /// Open a session.
    OpenSession { viewport: Option<Viewport>, use_mobile: bool },
    /// Close a session and its log, as far as they are there.
    CloseSession { session_id: String },
    /// Ask Chrome for its targets.
    ListTargets,
    /// Open a tab in a session.
    OpenTab { session_id: String, url: Option<String> },
    /// Count the pages of a session that can be opened.
    CountPages { session_id: String },
    /// Find the tabs of a session.
    ListTabs { session_id: String },
    /// Make a tab the active one.
    SwitchTo { session_id: String, index: usize },
    /// Show the page's tab in front, as far as Chrome does.
    BringToFront,
    /// Close a tab.
    CloseAt { session_id: String, index: usize },
    /// Find the page to work on: that of a tab, or the active one.
    FindPage { session_id: String, tab: Option<usize> },
    /// See that a session exists.
    FindSession { session_id: String },
    /// Find the id of a session's active tab.
    FindTarget { session_id: String, base: String },
    /// Load an address, within a time if one is given.
    Goto { url: String, timeout_ms: Option<u64> },
    /// Read where the page is. `open` is how many pages the session has.
    ReadUrl { open: usize },
    /// Take a picture of the page.
    Capture { full_page: bool },
    /// Take the accessibility tree of the page.
    Snapshot,
    /// Wait until a selector matches.
    AwaitElement { selector: String, timeout_ms: u64 },
    /// Wait until a function says true.
    AwaitProbe { function: String, timeout_ms: u64 },
    /// Find the element of a selector.
    FindElement { selector: String },
    /// Empty the element, as far as it can be.
    ClearElement { selector: String },
    /// Click the element, as far as it can be.
    ClickElement { selector: String },
    /// Type into the element.
    TypeInto { selector: String, text: String },
    /// Press a key on the element.
    PressOn { selector: String, key: String },
    /// Look up the keyboard layout.
    ReadLayout,
    /// Send the event that presses a key; the one that releases it comes next.
    KeyDown { down: KeyEvent<String>, up: KeyEvent<String> },
    /// Send the event that releases a key.
    KeyUp { up: KeyEvent<String> },
    /// Write two numbers as text.
    ShowNumbers { a: Number, b: Number },
    /// Click a point of the page.
    ClickAt { x: Number, y: Number, label: String },
    /// Turn the wheel at a point of the page.
    Wheel { x: Number, y: Number, delta_x: Number, delta_y: Number },
    /// Move the mouse to a point of the page.
    MoveTo { x: Number, y: Number },
    /// See whether the flag of a session is there.
    CheckFlag { session_id: String },
    /// Run a function in the page. Where it is no JavaScript, `otherwise` is what
    /// to run instead.
    Evaluate { function: String, world: World, otherwise: Option<String> },
    /// Write a value as text.
    ShowValue { value: Json },
    /// Read the visits of a session.
    ReadVisits { session_id: String },
    /// Read the log of a session: its console messages or its network requests.
    ReadLog { session_id: String, console: bool, visit: Option<u32>, limit: usize },
    /// Write the flag of a session, or remove it.
    SetFlag { session_id: String, present: bool },
    /// Read the configured address of the takeover daemon.
    ReadBase,
    /// Make a token.
    MintToken { base: String },
    /// Read the clock.
    ReadClock { base: String, token: String },
    /// Write the ticket of a token.
    WriteTicket { base: String, token: String, ticket: Ticket },
    /// Wait until a takeover is finished.
    AwaitDone { token: String, timeout_ms: u64 },
    /// Remove the files of a takeover.
    Cleanup { token: String },
    /// Read the cookies of a session.
    GetCookies { session_id: String },
    /// Save cookies under a name.
    SaveCookies { name: String, cookies: Vec<Json> },
    /// Load the cookies that were saved under a name.
    LoadCookies { name: String },
    /// Give cookies to a session.
    SetCookies { session_id: String, cookies: Vec<Json>, total: usize },
    /// List the saved states.
    ListSaved,
    /// Delete a saved state.
    DeleteSaved { name: String },
    /// Give the answer; the call is over.
    Done(Reply),
    /// Give the error; the call is over.
    Failed(ErrorChain),
}

/// What came of an action.
pub enum News {
    /// A session is open.
    Opened(Result<SessionInfo, ErrorChain>),
    /// It is done, or was tried.
    Noted,
    /// All targets that Chrome has.
    Targets(Result<Vec<Target>, ErrorChain>),
    /// The id of a page.
    Page(Result<String, ErrorChain>),
    /// How many pages there are.
    Count(Result<usize, ErrorChain>),
    /// The tabs in their order, and the active one.
    Tabs(Result<(Vec<Target>, Option<String>), ErrorChain>),
    /// Whether it was done.
    Answer(Result<(), ErrorChain>),
    /// The time was over.
    Elapsed,
    /// Where the page is, if it says so.
    Url(Result<Option<String>, ErrorChain>),
    /// A picture in PNG.
    Picture(Result<Vec<u8>, ErrorChain>),
    /// A text.
    Text(Result<String, ErrorChain>),
    /// Whether it is there, or came in time.
    Seen(bool),
    /// The keys of the keyboard.
    Layout(Vec<KeyDef<String>>),
    /// The texts of two numbers.
    Shown(String, String),
    /// The value of a function.
    Value(Result<Json, ErrorChain>),
    /// The function is no JavaScript; nothing of it was run.
    SyntaxError(ErrorChain),
    /// The visits of a session.
    Visits(Result<Vec<Visit>, ErrorChain>),
    /// The entries of a log.
    Log(Result<Vec<LogEntry>, ErrorChain>),
    /// What is configured, if anything is.
    Base(Option<String>),
    /// A token.
    Token(Result<String, ErrorChain>),
    /// The time in Unix milliseconds.
    Clock(u128),
    /// Cookies.
    Cookies(Result<Vec<Json>, ErrorChain>),
    /// The name, time and number of cookies under which a state was saved.
    Saved(Result<(String, String, usize), ErrorChain>),
    /// The saved states.
    States(Result<Vec<StateSummary>, ErrorChain>),
    /// Whether there was something to delete.
    Removed(Result<bool, ErrorChain>),
}

/// An error as its contexts.
pub type Chain = Seq<Seq<char>>;

/// What an [`Action`] says.
pub enum ActionView {
    OpenSession { viewport: Option<Viewport>, use_mobile: bool },
    CloseSession { session_id: Seq<char> },
    ListTargets,
    OpenTab { session_id: Seq<char>, url: Option<Seq<char>> },
    CountPages { session_id: Seq<char> },
    ListTabs { session_id: Seq<char> },
    SwitchTo { session_id: Seq<char>, index: usize },
    BringToFront,
    CloseAt { session_id: Seq<char>, index: usize },
    FindPage { session_id: Seq<char>, tab: Option<usize> },
    FindSession { session_id: Seq<char> },
    FindTarget { session_id: Seq<char>, base: Seq<char> },
    Goto { url: Seq<char>, timeout_ms: Option<u64> },
    ReadUrl { open: usize },
    Capture { full_page: bool },
    Snapshot,
    AwaitElement { selector: Seq<char>, timeout_ms: u64 },
    AwaitProbe { function: Seq<char>, timeout_ms: u64 },
    FindElement { selector: Seq<char> },
    ClearElement { selector: Seq<char> },
    ClickElement { selector: Seq<char> },
    TypeInto { selector: Seq<char>, text: Seq<char> },
    PressOn { selector: Seq<char>, key: Seq<char> },
    ReadLayout,
    KeyDown { down: KeyEvent<Seq<char>>, up: KeyEvent<Seq<char>> },
    KeyUp { up: KeyEvent<Seq<char>> },
    ShowNumbers { a: Number, b: Number },
    ClickAt { x: Number, y: Number, label: Seq<char> },
    Wheel { x: Number, y: Number, delta_x: Number, delta_y: Number },
    MoveTo { x: Number, y: Number },
    CheckFlag { session_id: Seq<char> },
    Evaluate { function: Seq<char>, world: World, otherwise: Option<Seq<char>> },
    ShowValue { value: JsonView },
    ReadVisits { session_id: Seq<char> },
    ReadLog { session_id: Seq<char>, console: bool, visit: Option<u32>, limit: usize },
    SetFlag { session_id: Seq<char>, present: bool },
    ReadBase,
    MintToken { base: Seq<char> },
    ReadClock { base: Seq<char>, token: Seq<char> },
    WriteTicket { base: Seq<char>, token: Seq<char>, ticket: TicketView },
    AwaitDone { token: Seq<char>, timeout_ms: u64 },
    Cleanup { token: Seq<char> },
    GetCookies { session_id: Seq<char> },
    SaveCookies { name: Seq<char>, cookies: Seq<JsonView> },
    LoadCookies { name: Seq<char> },
    SetCookies { session_id: Seq<char>, cookies: Seq<JsonView>, total: usize },
    ListSaved,
    DeleteSaved { name: Seq<char> },
    Done(ReplyView),
    Failed(Chain),
}

/// What [`News`] say.
pub enum NewsView {
    Opened(Result<InfoView, Chain>),
    Noted,
    Targets(Result<Seq<TargetView>, Chain>),
    Page(Result<Seq<char>, Chain>),
    Count(Result<usize, Chain>),
    Tabs(Result<(Seq<TargetView>, Option<Seq<char>>), Chain>),
    Answer(Result<(), Chain>),
    Elapsed,
    Url(Result<Option<Seq<char>>, Chain>),
    Picture(Result<Seq<u8>, Chain>),
    Text(Result<Seq<char>, Chain>),
    Seen(bool),
    Layout(Seq<KeyDef<Seq<char>>>),
    Shown(Seq<char>, Seq<char>),
    Value(Result<JsonView, Chain>),
    SyntaxError(Chain),
    Visits(Result<Seq<VisitView>, Chain>),
    Log(Result<Seq<EntryView>, Chain>),
    Base(Option<Seq<char>>),
    Token(Result<Seq<char>, Chain>),
    Clock(u128),
    Cookies(Result<Seq<JsonView>, Chain>),
    Saved(Result<(Seq<char>, Seq<char>, usize), Chain>),
    States(Result<Seq<SummaryView>, Chain>),
    Removed(Result<bool, Chain>),
}

/// What an action says.
pub open spec fn action_view(a: Action) -> ActionView {
    match a {
        Action::OpenSession { viewport, use_mobile } => ActionView::OpenSession {
            viewport,
            use_mobile,
        },
        Action::CloseSession { session_id } => ActionView::CloseSession {
            session_id: session_id@,
        },
        Action::ListTargets => ActionView::ListTargets,
        Action::OpenTab { session_id, url } => ActionView::OpenTab {
            session_id: session_id@,
            url: opt_text(url),
        },
        Action::CountPages { session_id } => ActionView::CountPages { session_id: session_id@ },
        Action::ListTabs { session_id } => ActionView::ListTabs { session_id: session_id@ },
        Action::SwitchTo { session_id, index } => ActionView::SwitchTo {
            session_id: session_id@,
            index,
        },
        Action::BringToFront => ActionView::BringToFront,
        Action::CloseAt { session_id, index } => ActionView::CloseAt {
            session_id: session_id@,
            index,
        },
        Action::FindPage { session_id, tab } => ActionView::FindPage {
            session_id: session_id@,
            tab,
        },
        Action::FindSession { session_id } => ActionView::FindSession { session_id: session_id@ },
        Action::FindTarget { session_id, base } => ActionView::FindTarget {
            session_id: session_id@,
            base: base@,
        },
        Action::Goto { url, timeout_ms } => ActionView::Goto { url: url@, timeout_ms },
        Action::ReadUrl { open } => ActionView::ReadUrl { open },
        Action::Capture { full_page } => ActionView::Capture { full_page },
        Action::Snapshot => ActionView::Snapshot,
        Action::AwaitElement { selector, timeout_ms } => ActionView::AwaitElement {
            selector: selector@,
            timeout_ms,
        },
        Action::AwaitProbe { function, timeout_ms } => ActionView::AwaitProbe {
            function: function@,
            timeout_ms,
        },
        Action::FindElement { selector } => ActionView::FindElement { selector: selector@ },
        Action::ClearElement { selector } => ActionView::ClearElement { selector: selector@ },
        Action::ClickElement { selector } => ActionView::ClickElement { selector: selector@ },
        Action::TypeInto { selector, text } => ActionView::TypeInto {
            selector: selector@,
            text: text@,
        },
        Action::PressOn { selector, key } => ActionView::PressOn {
            selector: selector@,
            key: key@,
        },
        Action::ReadLayout => ActionView::ReadLayout,
        Action::KeyDown { down, up } => ActionView::KeyDown {
            down: event_view(down),
            up: event_view(up),
        },
        Action::KeyUp { up } => ActionView::KeyUp { up: event_view(up) },
        Action::ShowNumbers { a, b } => ActionView::ShowNumbers { a, b },
        Action::ClickAt { x, y, label } => ActionView::ClickAt { x, y, label: label@ },
        Action::Wheel { x, y, delta_x, delta_y } => ActionView::Wheel { x, y, delta_x, delta_y },
        Action::MoveTo { x, y } => ActionView::MoveTo { x, y },
        Action::CheckFlag { session_id } => ActionView::CheckFlag { session_id: session_id@ },
        Action::Evaluate { function, world, otherwise } => ActionView::Evaluate {
            function: function@,
            world,
            otherwise: opt_text(otherwise),
        },
        Action::ShowValue { value } => ActionView::ShowValue { value: value@ },
        Action::ReadVisits { session_id } => ActionView::ReadVisits { session_id: session_id@ },
        Action::ReadLog { session_id, console, visit, limit } => ActionView::ReadLog {
            session_id: session_id@,
            console,
            visit,
            limit,
        },
        Action::SetFlag { session_id, present } => ActionView::SetFlag {
            session_id: session_id@,
            present,
        },
        Action::ReadBase => ActionView::ReadBase,
        Action::MintToken { base } => ActionView::MintToken { base: base@ },
        Action::ReadClock { base, token } => ActionView::ReadClock { base: base@, token: token@ },
        Action::WriteTicket { base, token, ticket } => ActionView::WriteTicket {
            base: base@,
            token: token@,
            ticket: ticket@,
        },
        Action::AwaitDone { token, timeout_ms } => ActionView::AwaitDone {
            token: token@,
            timeout_ms,
        },
        Action::Cleanup { token } => ActionView::Cleanup { token: token@ },
        Action::GetCookies { session_id } => ActionView::GetCookies { session_id: session_id@ },
        Action::SaveCookies { name, cookies } => ActionView::SaveCookies {
            name: name@,
            cookies: items(cookies@),
        },
        Action::LoadCookies { name } => ActionView::LoadCookies { name: name@ },
        Action::SetCookies { session_id, cookies, total } => ActionView::SetCookies {
            session_id: session_id@,
            cookies: items(cookies@),
            total,
        },
        Action::ListSaved => ActionView::ListSaved,
        Action::DeleteSaved { name } => ActionView::DeleteSaved { name: name@ },
        Action::Done(r) => ActionView::Done(r@),
        Action::Failed(e) => ActionView::Failed(e@),
    }
}

/// What news say.
pub open spec fn news_view(n: News) -> NewsView {
    match n {
        News::Opened(r) => NewsView::Opened(
            match r {
                Ok(i) => Ok(i@),
                Err(e) => Err(e@),
            },
        ),
        News::Noted => NewsView::Noted,
        News::Targets(r) => NewsView::Targets(
            match r {
                Ok(v) => Ok(targets(v@)),
                Err(e) => Err(e@),
            },
        ),
        News::Page(r) => NewsView::Page(
            match r {
                Ok(s) => Ok(s@),
                Err(e) => Err(e@),
            },
        ),
        News::Count(r) => NewsView::Count(
            match r {
                Ok(n) => Ok(n),
                Err(e) => Err(e@),
            },
        ),
        News::Tabs(r) => NewsView::Tabs(
            match r {
                Ok(t) => Ok((targets(t.0@), opt_text(t.1))),
                Err(e) => Err(e@),
            },
        ),
        News::Answer(r) => NewsView::Answer(
            match r {
                Ok(_) => Ok(()),
                Err(e) => Err(e@),
            },
        ),
        News::Elapsed => NewsView::Elapsed,
        News::Url(r) => NewsView::Url(
            match r {
                Ok(u) => Ok(opt_text(u)),
                Err(e) => Err(e@),
            },
        ),
        News::Picture(r) => NewsView::Picture(
            match r {
                Ok(b) => Ok(b@),
                Err(e) => Err(e@),
            },
        ),
        News::Text(r) => NewsView::Text(
            match r {
                Ok(s) => Ok(s@),
                Err(e) => Err(e@),
            },
        ),
        News::Seen(b) => NewsView::Seen(b),
        News::Layout(k) => NewsView::Layout(keys(k@)),
        News::Shown(a, b) => NewsView::Shown(a@, b@),
        News::Value(r) => NewsView::Value(
            match r {
                Ok(j) => Ok(j@),
                Err(e) => Err(e@),
            },
        ),
        News::SyntaxError(e) => NewsView::SyntaxError(e@),
        News::Visits(r) => NewsView::Visits(
            match r {
                Ok(v) => Ok(visits(v@)),
                Err(e) => Err(e@),
            },
        ),
        News::Log(r) => NewsView::Log(
            match r {
                Ok(v) => Ok(entries(v@)),
                Err(e) => Err(e@),
            },
        ),
        News::Base(b) => NewsView::Base(opt_text(b)),
        News::Token(r) => NewsView::Token(
            match r {
                Ok(s) => Ok(s@),
                Err(e) => Err(e@),
            },
        ),
        News::Clock(t) => NewsView::Clock(t),
        News::Cookies(r) => NewsView::Cookies(
            match r {
                Ok(v) => Ok(items(v@)),
                Err(e) => Err(e@),
            },
        ),
        News::Saved(r) => NewsView::Saved(
            match r {
                Ok(t) => Ok((t.0@, t.1@, t.2)),
                Err(e) => Err(e@),
            },
        ),
        News::States(r) => NewsView::States(
            match r {
                Ok(v) => Ok(summaries(v@)),
                Err(e) => Err(e@),
            },
        ),
        News::Removed(r) => NewsView::Removed(
            match r {
                Ok(b) => Ok(b),
                Err(e) => Err(e@),
            },
        ),
    }
}

/// A call on its way.
pub struct Run {
    pub call: Request,
    /// The page that was found for it; empty before that.
    pub target_id: String,
    pub action: Action,
}

/// What a [`Run`] says.
pub struct RunView {
    pub call: Call<Seq<char>>,
    pub target_id: Seq<char>,
    pub action: ActionView,
}

impl View for Run {
    type V = RunView;

    open spec fn view(&self) -> RunView {
        RunView {
            call: call_view(self.call),
            target_id: self.target_id@,
            action: action_view(self.action),
        }
    }
}

// ---- what follows what ----------------------------------------------------

/// The call ends with a refusal of the library's own.
pub open spec fn refused(f: Failure<Seq<char>>) -> ActionView {
    ActionView::Failed(seq![message(f)])
}

/// The call ends with an error that passed through a context.
pub open spec fn failed_in(what: Seq<char>, e: Chain) -> ActionView {
    ActionView::Failed(within(what, e))
}

/// The first action of a call.
pub open spec fn first_action(call: Call<Seq<char>>) -> ActionView {
    match call {
        Call::OpenSession { viewport, use_mobile } => ActionView::OpenSession {
            viewport,
            use_mobile,
        },
        Call::CloseSession { session_id } => ActionView::CloseSession { session_id },
        Call::ListSessions => ActionView::ListTargets,
        Call::NewPage { session_id, url } => ActionView::OpenTab { session_id, url },
        Call::ListPages { session_id } => ActionView::ListTabs { session_id },
        Call::SwitchTab { session_id, index } => ActionView::SwitchTo { session_id, index },
        Call::CloseTab { session_id, index } => ActionView::CloseAt { session_id, index },
        Call::Navigate { session_id, .. } => ActionView::FindPage { session_id, tab: None },
        Call::TakeScreenshot { session_id, .. } => ActionView::FindPage { session_id, tab: None },
        Call::TakeSnapshot { session_id } => ActionView::FindPage { session_id, tab: None },
        Call::Click { session_id, .. } => ActionView::FindPage { session_id, tab: None },
        Call::TypeText { session_id, .. } => ActionView::FindPage { session_id, tab: None },
        Call::PressKey { session_id, .. } => ActionView::FindPage { session_id, tab: None },
        Call::Scroll { session_id, .. } => ActionView::FindPage { session_id, tab: None },
        Call::MoveMouse { session_id, .. } => ActionView::FindPage { session_id, tab: None },
        Call::WaitFor { session_id, .. } => ActionView::FindPage { session_id, tab: None },
        Call::Evaluate { session_id, tab, .. } => ActionView::FindPage { session_id, tab },
        Call::ListVisits { session_id } => ActionView::FindSession { session_id },
        Call::ListConsoleMessages { session_id, .. } => ActionView::FindSession { session_id },
        Call::ListNetworkRequests { session_id, .. } => ActionView::FindSession { session_id },
        Call::SetStealth { session_id, .. } => ActionView::FindSession { session_id },
        Call::GetStealth { session_id } => ActionView::CheckFlag { session_id },
        Call::RequestTakeover { .. } => ActionView::ReadBase,
        Call::AwaitTakeover { token, timeout_ms } => ActionView::AwaitDone { token, timeout_ms },
        Call::SaveState { session_id, .. } => ActionView::FindSession { session_id },
        Call::LoadState { session_id, .. } => ActionView::FindSession { session_id },
        Call::ListStates => ActionView::ListSaved,
        Call::DeleteState { name } => ActionView::DeleteSaved { name },
    }
}

/// The script that tells whether a text stands on the page.
pub open spec fn text_probe_of(needle: Seq<char>) -> Seq<char> {
    "function() { return document.body && document.body.innerText && document.body.innerText.includes("@
        + json_quoted(needle) + "); }"@
}

/// The script that tells where the middle of an element is.
pub open spec fn center_probe_of(selector: Seq<char>) -> Seq<char> {
    "function() { const el = document.querySelector("@ + json_quoted(selector)
        + "); if (!el) return null; el.scrollIntoView({block:'center',inline:'center'}); const r = el.getBoundingClientRect(); return [r.left + r.width/2, r.top + r.height/2]; }"@
}

/// What follows once the page is found.
pub open spec fn after_page(call: Call<Seq<char>>) -> ActionView {
    match call {
        Call::Navigate { url, timeout_ms, .. } => ActionView::Goto { url, timeout_ms },
        Call::TakeScreenshot { full_page, .. } => ActionView::Capture { full_page },
        Call::TakeSnapshot { .. } => ActionView::Snapshot,
        Call::Click { target, .. } => match target {
            Some(ClickTarget::Selector { selector, timeout_ms }) => ActionView::AwaitElement {
                selector,
                timeout_ms,
            },
            Some(ClickTarget::Point { x, y }) => ActionView::ShowNumbers { a: x, b: y },
            None => refused(Failure::ClickTarget),
        },
        Call::TypeText { selector, .. } => ActionView::AwaitElement { selector, timeout_ms: 5000 },
        Call::PressKey { focus, .. } => match focus {
            Some(f) => ActionView::AwaitElement { selector: f.selector, timeout_ms: f.timeout_ms },
            None => ActionView::ReadLayout,
        },
        Call::Scroll { delta_x, delta_y, x, y, .. } => ActionView::Wheel {
            x,
            y,
            delta_x,
            delta_y,
        },
        Call::MoveMouse { x, y, .. } => match (x, y) {
            (Some(x), Some(y)) => ActionView::MoveTo { x, y },
            (Some(_), None) => refused(Failure::CoordinateRequired { axis: "y"@ }),
            _ => refused(Failure::CoordinateRequired { axis: "x"@ }),
        },
        Call::WaitFor { condition, timeout_ms, .. } => match condition {
            Condition::Selector { selector } => ActionView::AwaitElement { selector, timeout_ms },
            Condition::Text { text } => ActionView::AwaitProbe {
                function: text_probe_of(text),
                timeout_ms,
            },
        },
        Call::Evaluate { session_id, .. } => ActionView::CheckFlag { session_id },
        Call::NewPage { session_id, .. } => ActionView::CountPages { session_id },
        Call::SwitchTab { .. } => ActionView::BringToFront,
        _ => arbitrary(),
    }
}

/// What follows once an element of the selector is there.
pub open spec fn after_element(call: Call<Seq<char>>, selector: Seq<char>) -> ActionView {
    match call {
        Call::Click { .. } => ActionView::Evaluate {
            function: center_probe_of(selector),
            world: World::Isolated,
            otherwise: None,
        },
        Call::WaitFor { .. } => ActionView::Done(text_reply("Matched selector "@ + selector)),
        Call::TypeText { .. } => ActionView::FindElement { selector },
        Call::PressKey { .. } => ActionView::FindElement { selector },
        _ => arbitrary(),
    }
}

/// What follows once hold of the element is taken.
pub open spec fn with_element(call: Call<Seq<char>>, selector: Seq<char>) -> ActionView {
    match call {
        Call::TypeText { clear, .. } => if clear {
            ActionView::ClearElement { selector }
        } else {
            ActionView::ClickElement { selector }
        },
        Call::PressKey { key, .. } => ActionView::PressOn { selector, key },
        _ => arbitrary(),
    }
}

/// The answer to a key that was pressed.
pub open spec fn key_pressed(call: Call<Seq<char>>) -> ActionView {
    match call {
        Call::PressKey { key, .. } => ActionView::Done(text_reply("Pressed "@ + key)),
        _ => arbitrary(),
    }
}

/// What follows once the keyboard layout is known.
pub open spec fn with_layout(call: Call<Seq<char>>, layout: Seq<KeyDef<Seq<char>>>) -> ActionView {
    match call {
        Call::PressKey { key, .. } => match key_named(layout, key) {
            Some(k) => ActionView::KeyDown { down: down_event(k), up: up_event(k) },
            None => refused(Failure::UnknownKey { key }),
        },
        _ => arbitrary(),
    }
}

/// What follows once two numbers are written as text.
pub open spec fn with_numbers(
    call: Call<Seq<char>>,
    a: Number,
    b: Number,
    ta: Seq<char>,
    tb: Seq<char>,
) -> ActionView {
    match call {
        Call::Click { .. } => ActionView::ClickAt {
            x: a,
            y: b,
            label: "("@ + ta + ", "@ + tb + ")"@,
        },
        Call::Scroll { .. } => ActionView::Done(
            text_reply("Scrolled (deltaX="@ + ta + ", deltaY="@ + tb + ")"@),
        ),
        Call::MoveMouse { .. } => ActionView::Done(
            text_reply("Moved mouse to ("@ + ta + ", "@ + tb + ")"@),
        ),
        _ => arbitrary(),
    }
}

/// What follows once it is known whether the flag of a session is there.
pub open spec fn with_flag(
    call: Call<Seq<char>>,
    session_id: Seq<char>,
    present: bool,
) -> ActionView {
    let stealth = is_ctx(session_id) && present;
    match call {
        Call::Evaluate { expression, .. } => ActionView::Evaluate {
            function: function_text(expression, false),
            world: if stealth {
                World::Isolated
            } else {
                World::Main
            },
            otherwise: body_text(expression),
        },
        Call::GetStealth { .. } => ActionView::Done(
            struct_reply(
                if stealth {
                    "stealth = true"@
                } else {
                    "stealth = false"@
                },
                object1("stealth"@, JsonView::Bool(stealth)),
            ),
        ),
        _ => arbitrary(),
    }
}

/// What follows the value of a script.
pub open spec fn with_value(call: Call<Seq<char>>, r: Result<JsonView, Chain>) -> ActionView {
    match call {
        Call::Click { target: Some(ClickTarget::Selector { selector, .. }), .. } => match r {
            Ok(value) => match center(value, selector) {
                Ok((x, y)) => ActionView::ClickAt { x, y, label: selector },
                Err(f) => refused(f),
            },
            Err(e) => ActionView::Failed(e),
        },
        Call::Evaluate { .. } => match r {
            Ok(value) => ActionView::ShowValue { value },
            Err(e) => failed_in("evaluate"@, e),
        },
        _ => arbitrary(),
    }
}

/// What follows where a function is no JavaScript: the one to run instead, in the
/// same world, or the error.
pub open spec fn with_syntax_error(
    call: Call<Seq<char>>,
    action: ActionView,
    e: Chain,
) -> ActionView {
    match action {
        ActionView::Evaluate { world, otherwise: Some(function), .. } => ActionView::Evaluate {
            function,
            world,
            otherwise: None,
        },
        _ => with_value(call, Err(e)),
    }
}

/// What follows once it is known where the page is.
pub open spec fn with_url(call: Call<Seq<char>>, open: usize, url: Option<Seq<char>>) -> ActionView {
    match call {
        Call::NewPage { .. } => ActionView::Done(
            struct_reply(
                "Opened tab #"@ + decimal(last_index(open) as nat),
                object2(
                    "index"@,
                    count(last_index(open) as nat),
                    "url"@,
                    JsonView::Str(or_empty(url)),
                ),
            ),
        ),
        Call::SwitchTab { index, .. } => ActionView::Done(
            struct_reply(
                "Switched to tab #"@ + decimal(index as nat) + " ("@ + or_empty(url) + ")"@,
                object2("index"@, count(index as nat), "url"@, JsonView::Str(or_empty(url))),
            ),
        ),
        Call::Navigate { url: requested, .. } => {
            let at = match url {
                Some(u) => u,
                None => requested,
            };
            ActionView::Done(
                struct_reply("Navigated to "@ + at, object1("url"@, JsonView::Str(at))),
            )
        },
        _ => arbitrary(),
    }
}

/// What follows once the session is known to exist.
pub open spec fn after_session(call: Call<Seq<char>>) -> ActionView {
    match call {
        Call::ListVisits { session_id } => ActionView::ReadVisits { session_id },
        Call::ListConsoleMessages { session_id, visit, limit } => ActionView::ReadLog {
            session_id,
            console: true,
            visit,
            limit,
        },
        Call::ListNetworkRequests { session_id, visit, limit } => ActionView::ReadLog {
            session_id,
            console: false,
            visit,
            limit,
        },
        Call::SetStealth { session_id, enabled } => match enabled {
            Some(on) => if is_ctx(session_id) {
                ActionView::SetFlag { session_id, present: on }
            } else {
                refused(Failure::InvalidSessionId)
            },
            None => refused(Failure::EnabledRequired),
        },
        Call::SaveState { session_id, .. } => ActionView::GetCookies { session_id },
        Call::LoadState { name, .. } => ActionView::LoadCookies { name },
        _ => arbitrary(),
    }
}

/// The answer to cookies that were loaded.
pub open spec fn state_loaded(call: Call<Seq<char>>, total: usize) -> ActionView {
    match call {
        Call::LoadState { name, .. } => ActionView::Done(
            struct_reply(
                "Loaded "@ + decimal(total as nat) + " cookies from \""@ + name + "\"."@,
                object2("name"@, JsonView::Str(name), "cookieCount"@, count(total as nat)),
            ),
        ),
        _ => arbitrary(),
    }
}

/// What follows the cookies of a session, or those of a saved state.
pub open spec fn with_cookies(call: Call<Seq<char>>, cookies: Seq<JsonView>) -> ActionView {
    match call {
        Call::SaveState { name, .. } => ActionView::SaveCookies { name, cookies },
        Call::LoadState { session_id, .. } => if cookies.len() == 0 {
            state_loaded(call, 0)
        } else {
            ActionView::SetCookies {
                session_id,
                cookies: cookies.map_values(|c: JsonView| cleaned(c)),
                total: cookies.len() as usize,
            }
        },
        _ => arbitrary(),
    }
}

/// The answer to a state that was saved.
pub open spec fn state_saved(
    call: Call<Seq<char>>,
    stored: Seq<char>,
    saved_at: Seq<char>,
    n: usize,
) -> ActionView {
    match call {
        Call::SaveState { name, .. } => ActionView::Done(
            struct_reply(
                "Saved "@ + decimal(n as nat) + " cookies as \""@ + name + "\"."@,
                object3(
                    "name"@,
                    JsonView::Str(stored),
                    "savedAt"@,
                    JsonView::Str(saved_at),
                    "cookieCount"@,
                    count(n as nat),
                ),
            ),
        ),
        _ => arbitrary(),
    }
}

/// The session and the lifetime of a link that is asked for.
pub open spec fn link_of(call: Call<Seq<char>>) -> (Seq<char>, u64) {
    match call {
        Call::RequestTakeover { session_id, ttl_ms } => (session_id, ttl_ms),
        _ => arbitrary(),
    }
}

/// What follows the configured address of the takeover daemon.
pub open spec fn with_base(call: Call<Seq<char>>, configured: Option<Seq<char>>) -> ActionView {
    match address_of(configured) {
        Some(base) => ActionView::FindTarget { session_id: link_of(call).0, base },
        None => refused(Failure::TakeoverNotConfigured),
    }
}

/// The answer with a link for a human.
pub open spec fn link_ready(base: Seq<char>, token: Seq<char>, expires_at_ms: u128) -> ActionView {
    ActionView::Done(
        struct_reply(
            "Human takeover ready. Show this URL to the user so they can log in themselves. Then run await_human_takeover(token=\""@
                + token
                + "\") in a BACKGROUND task that polls with a short timeout until completed — do NOT block your main loop; the human may take several minutes:\n"@
                + takeover_url(base, token),
            object3(
                "url"@,
                JsonView::Str(takeover_url(base, token)),
                "token"@,
                JsonView::Str(token),
                "expiresAtMs"@,
                count(expires_at_ms as nat),
            ),
        ),
    )
}

/// The answer once the wait for a human is over.
pub open spec fn wait_over(token: Seq<char>, completed: bool) -> ActionView {
    ActionView::Done(
        struct_reply(
            awaited_text(completed),
            object2("completed"@, JsonView::Bool(completed), "token"@, JsonView::Str(token)),
        ),
    )
}

/// The answer to a deletion.
pub open spec fn deletion(name: Seq<char>, removed: bool) -> ActionView {
    ActionView::Done(
        struct_reply(
            if removed {
                "Deleted \""@ + name + "\"."@
            } else {
                "No saved state named \""@ + name + "\"."@
            },
            object2("name"@, JsonView::Str(name), "removed"@, JsonView::Bool(removed)),
        ),
    )
}

/// What an answer of Chrome's leads to, where there is nothing else to it.
pub open spec fn after_answer(call: Call<Seq<char>>, action: ActionView) -> ActionView {
    match action {
        ActionView::CloseAt { index, .. } => ActionView::Done(
            text_reply("Closed tab #"@ + decimal(index as nat)),
        ),
        ActionView::FindSession { .. } => after_session(call),
        ActionView::Goto { .. } => ActionView::ReadUrl { open: 0 },
        ActionView::FindElement { selector } => with_element(call, selector),
        ActionView::TypeInto { selector, text } => ActionView::Done(
            text_reply("Typed "@ + decimal(text.len()) + " chars into "@ + selector),
        ),
        ActionView::PressOn { .. } => key_pressed(call),
        ActionView::KeyDown { up, .. } => ActionView::KeyUp { up },
        ActionView::KeyUp { .. } => key_pressed(call),
        ActionView::ClickAt { label, .. } => ActionView::Done(text_reply("Clicked "@ + label)),
        ActionView::Wheel { delta_x, delta_y, .. } => ActionView::ShowNumbers {
            a: delta_x,
            b: delta_y,
        },
        ActionView::MoveTo { x, y } => ActionView::ShowNumbers { a: x, b: y },
        ActionView::SetFlag { present, .. } => ActionView::Done(
            struct_reply(stealth_text(present), object1("stealth"@, JsonView::Bool(present))),
        ),
        ActionView::WriteTicket { base, token, ticket } => link_ready(
            base,
            token,
            ticket.expires_at_ms,
        ),
        ActionView::SetCookies { total, .. } => state_loaded(call, total),
        _ => arbitrary(),
    }
}

/// The context that an error of an action passes through, if any.
pub open spec fn context_of(action: ActionView) -> Option<Seq<char>> {
    match action {
        ActionView::Goto { .. } => Some("Page.navigate"@),
        ActionView::FindElement { selector } => Some("locating "@ + selector),
        ActionView::TypeInto { selector, .. } => Some("typing into "@ + selector),
        ActionView::PressOn { key, .. } => Some("pressing "@ + key),
        ActionView::KeyDown { .. } => Some("Input.dispatchKeyEvent (down)"@),
        ActionView::KeyUp { .. } => Some("Input.dispatchKeyEvent (up)"@),
        ActionView::ClickAt { label, .. } => Some("clicking "@ + label),
        ActionView::Wheel { .. } => Some("Input.dispatchMouseEvent"@),
        ActionView::MoveTo { .. } => Some("Input.dispatchMouseEvent (move)"@),
        ActionView::SetFlag { .. } => Some("writing stealth flag"@),
        ActionView::SetCookies { .. } => Some("Storage.setCookies"@),
        _ => None,
    }
}

/// The error of an action ends the call.
pub open spec fn answer_failed(action: ActionView, e: Chain) -> ActionView {
    match context_of(action) {
        Some(what) => failed_in(what, e),
        None => ActionView::Failed(e),
    }
}

/// The action is one that a call can come to.
pub open spec fn proper(call: Call<Seq<char>>, action: ActionView) -> bool {
    match action {
        ActionView::OpenSession { .. } => call is OpenSession,
        ActionView::CloseSession { .. } => call is CloseSession,
        ActionView::ListTargets => call is ListSessions,
        ActionView::OpenTab { .. } => call is NewPage,
        ActionView::CountPages { .. } => call is NewPage,
        ActionView::ListTabs { .. } => call is ListPages,
        ActionView::SwitchTo { .. } => call is SwitchTab,
        ActionView::BringToFront => call is SwitchTab,
        ActionView::CloseAt { .. } => call is CloseTab,
        ActionView::FindPage { .. } => call is Navigate || call is TakeScreenshot
            || call is TakeSnapshot || call is Click || call is TypeText || call is PressKey
            || call is Scroll || call is MoveMouse || call is WaitFor || call is Evaluate,
        ActionView::FindSession { .. } => call is ListVisits || call is ListConsoleMessages
            || call is ListNetworkRequests || call is SetStealth || call is SaveState
            || call is LoadState,
        ActionView::FindTarget { .. } => call is RequestTakeover,
        ActionView::Goto { .. } => call is Navigate,
        ActionView::ReadUrl { .. } => call is NewPage || call is SwitchTab || call is Navigate,
        ActionView::Capture { .. } => call is TakeScreenshot,
        ActionView::Snapshot => call is TakeSnapshot,
        ActionView::AwaitElement { selector, .. } => clicks_on(call, selector) || call is TypeText
            || call is PressKey || call is WaitFor,
        ActionView::AwaitProbe { .. } => waits_for_text(call),
        ActionView::FindElement { .. } => call is TypeText || call is PressKey,
        ActionView::ClearElement { .. } => call is TypeText,
        ActionView::ClickElement { .. } => call is TypeText,
        ActionView::TypeInto { .. } => call is TypeText,
        ActionView::PressOn { .. } => call is PressKey,
        ActionView::ReadLayout => call is PressKey,
        ActionView::KeyDown { .. } => call is PressKey,
        ActionView::KeyUp { .. } => call is PressKey,
        ActionView::ShowNumbers { .. } => call is Click || call is Scroll || call is MoveMouse,
        ActionView::ClickAt { .. } => call is Click,
        ActionView::Wheel { .. } => call is Scroll,
        ActionView::MoveTo { .. } => call is MoveMouse,
        ActionView::CheckFlag { .. } => call is Evaluate || call is GetStealth,
        ActionView::Evaluate { world, otherwise, .. } => call is Evaluate || (clicks_on_element(
            call,
        ) && world == World::Isolated && otherwise is None),
        ActionView::ShowValue { .. } => call is Evaluate,
        ActionView::ReadVisits { .. } => call is ListVisits,
        ActionView::ReadLog { console, .. } => if console {
            call is ListConsoleMessages
        } else {
            call is ListNetworkRequests
        },
        ActionView::SetFlag { session_id, .. } => call is SetStealth && is_ctx(session_id),
        ActionView::ReadBase => call is RequestTakeover,
        ActionView::MintToken { .. } => call is RequestTakeover,
        ActionView::ReadClock { .. } => call is RequestTakeover,
        ActionView::WriteTicket { .. } => call is RequestTakeover,
        ActionView::AwaitDone { .. } => call is AwaitTakeover,
        ActionView::Cleanup { .. } => call is AwaitTakeover,
        ActionView::GetCookies { .. } => call is SaveState,
        ActionView::SaveCookies { .. } => call is SaveState,
        ActionView::LoadCookies { .. } => call is LoadState,
        ActionView::SetCookies { .. } => call is LoadState,
        ActionView::ListSaved => call is ListStates,
        ActionView::DeleteSaved { .. } => call is DeleteState,
        ActionView::Done(_) => true,
        ActionView::Failed(_) => true,
    }
}

/// The call clicks on an element.
pub open spec fn clicks_on_element(call: Call<Seq<char>>) -> bool {
    call matches Call::Click { target: Some(ClickTarget::Selector { .. }), .. }
}

/// The call clicks on the element of a selector.
pub open spec fn clicks_on(call: Call<Seq<char>>, selector: Seq<char>) -> bool {
    call matches Call::Click { target: Some(ClickTarget::Selector { selector: s, .. }), .. } && s
        == selector
}

/// The call waits for a text.
pub open spec fn waits_for_text(call: Call<Seq<char>>) -> bool {
    call matches Call::WaitFor { condition: Condition::Text { .. }, .. }
}

/// The news are of the kind that can come of the action. A picture, the clock and
/// the ids of visits are such as the answer can hold.
pub open spec fn run_suits(call: Call<Seq<char>>, action: ActionView, news: NewsView) -> bool {
    match action {
        ActionView::OpenSession { .. } => news is Opened,
        ActionView::CloseSession { .. } => news is Noted,
        ActionView::ListTargets => news is Targets,
        ActionView::OpenTab { .. } => news is Page,
        ActionView::CountPages { .. } => news is Count,
        ActionView::ListTabs { .. } => news is Tabs,
        ActionView::SwitchTo { .. } => news is Page,
        ActionView::BringToFront => news is Noted,
        ActionView::FindPage { .. } => news is Page,
        ActionView::FindTarget { .. } => news is Page,
        ActionView::Goto { timeout_ms, .. } => news is Answer || (news is Elapsed
            && timeout_ms is Some),
        ActionView::ReadUrl { .. } => news is Url,
        ActionView::Capture { .. } => match news {
            NewsView::Picture(Ok(b)) => 4 * ((b.len() + 2) / 3) <= isize::MAX,
            NewsView::Picture(Err(_)) => true,
            _ => false,
        },
        ActionView::Snapshot => news is Text,
        ActionView::AwaitElement { .. } => news is Seen,
        ActionView::AwaitProbe { .. } => news is Seen,
        ActionView::ClearElement { .. } => news is Noted,
        ActionView::ClickElement { .. } => news is Noted,
        ActionView::ReadLayout => news is Layout,
        ActionView::ShowNumbers { .. } => news is Shown,
        ActionView::CheckFlag { .. } => news is Seen,
        ActionView::Evaluate { .. } => news is Value || news is SyntaxError,
        ActionView::ShowValue { .. } => news is Text,
        ActionView::ReadVisits { .. } => match news {
            NewsView::Visits(Ok(v)) => can_list(v),
            NewsView::Visits(Err(_)) => true,
            _ => false,
        },
        ActionView::ReadLog { .. } => news is Log,
        ActionView::ReadBase => news is Base,
        ActionView::MintToken { .. } => news is Token,
        ActionView::ReadClock { .. } => match news {
            NewsView::Clock(now) => now + link_of(call).1 <= u64::MAX,
            _ => false,
        },
        ActionView::WriteTicket { ticket, .. } => news is Answer && ticket.expires_at_ms
            <= u64::MAX,
        ActionView::AwaitDone { .. } => news is Seen,
        ActionView::Cleanup { .. } => news is Noted,
        ActionView::GetCookies { .. } => news is Cookies,
        ActionView::SaveCookies { .. } => news is Saved,
        ActionView::LoadCookies { .. } => news is Cookies,
        ActionView::ListSaved => news is States,
        ActionView::DeleteSaved { .. } => news is Removed,
        ActionView::Done(_) => false,
        ActionView::Failed(_) => false,
        _ => news is Answer,
    }
}

/// What the page's text, or a written value, leads to.
pub open spec fn with_text(action: ActionView, s: Seq<char>) -> ActionView {
    match action {
        ActionView::ShowValue { value } => ActionView::Done(
            struct_reply(s, object1("result"@, value)),
        ),
        ActionView::Snapshot => ActionView::Done(text_reply(s)),
        _ => arbitrary(),
    }
}

/// What is seen, or is not seen in time, leads to.
pub open spec fn with_sight(call: Call<Seq<char>>, action: ActionView, seen: bool) -> ActionView {
    match action {
        ActionView::AwaitElement { selector, .. } => if seen {
            after_element(call, selector)
        } else {
            refused(Failure::SelectorTimeout { selector })
        },
        ActionView::AwaitProbe { .. } => if seen {
            match call {
                Call::WaitFor { condition: Condition::Text { text }, .. } => ActionView::Done(
                    text_reply("Matched text \""@ + text + "\""@),
                ),
                _ => arbitrary(),
            }
        } else {
            refused(Failure::TimedOut)
        },
        ActionView::CheckFlag { session_id } => with_flag(call, session_id, seen),
        ActionView::AwaitDone { token, .. } => if seen {
            ActionView::Cleanup { token }
        } else {
            wait_over(token, false)
        },
        _ => arbitrary(),
    }
}

/// What follows something that is simply done.
pub open spec fn after_note(call: Call<Seq<char>>, action: ActionView) -> ActionView {
    match action {
        ActionView::CloseSession { session_id } => ActionView::Done(
            text_reply("Closed session "@ + session_id),
        ),
        ActionView::BringToFront => ActionView::ReadUrl { open: 0 },
        ActionView::ClearElement { selector } => ActionView::ClickElement { selector },
        ActionView::ClickElement { selector } => match call {
            Call::TypeText { text, .. } => ActionView::TypeInto { selector, text },
            _ => arbitrary(),
        },
        ActionView::Cleanup { token } => wait_over(token, true),
        _ => arbitrary(),
    }
}

/// The answer with a picture of the page.
pub open spec fn picture_reply(bytes: Seq<u8>) -> ReplyView {
    ReplyView {
        content: seq![
            Content::Text("Captured "@ + decimal(bytes.len()) + " bytes PNG."@),
            Content::Image { data: base64_text(bytes), mime: "image/png"@ },
        ],
        structured: None,
        is_error: false,
    }
}

/// What follows an action once news of it have come.
pub open spec fn next_action(
    call: Call<Seq<char>>,
    target_id: Seq<char>,
    action: ActionView,
    news: NewsView,
) -> ActionView {
    match news {
        NewsView::Opened(r) => match r {
            Ok(i) => ActionView::Done(
                struct_reply("Opened session "@ + i.session_id, info_json(i)),
            ),
            Err(e) => ActionView::Failed(e),
        },
        NewsView::Noted => after_note(call, action),
        NewsView::Targets(r) => match r {
            Ok(all) => ActionView::Done(session_list_reply(sessions_of(pages_of(all)))),
            Err(e) => failed_in("Target.getTargets"@, e),
        },
        NewsView::Page(r) => match r {
            Ok(_) => match action {
                ActionView::FindTarget { base, .. } => ActionView::MintToken { base },
                _ => after_page(call),
            },
            Err(e) => ActionView::Failed(e),
        },
        NewsView::Count(r) => match r {
            Ok(open) => ActionView::ReadUrl { open },
            Err(e) => ActionView::Failed(e),
        },
        NewsView::Tabs(r) => match r {
            Ok(t) => ActionView::Done(tab_list_reply(t.0, t.1)),
            Err(e) => ActionView::Failed(e),
        },
        NewsView::Answer(r) => match r {
            Ok(_) => after_answer(call, action),
            Err(e) => answer_failed(action, e),
        },
        NewsView::Elapsed => match action {
            ActionView::Goto { timeout_ms: Some(ms), .. } => refused(
                Failure::NavigationTimeout { ms },
            ),
            _ => arbitrary(),
        },
        NewsView::Url(r) => match r {
            Ok(url) => match action {
                ActionView::ReadUrl { open } => with_url(call, open, url),
                _ => arbitrary(),
            },
            Err(e) => ActionView::Failed(e),
        },
        NewsView::Picture(r) => match r {
            Ok(bytes) => ActionView::Done(picture_reply(bytes)),
            Err(e) => failed_in("Page.captureScreenshot"@, e),
        },
        NewsView::Text(r) => match r {
            Ok(s) => with_text(action, s),
            Err(e) => ActionView::Failed(e),
        },
        NewsView::Seen(seen) => with_sight(call, action, seen),
        NewsView::Layout(layout) => with_layout(call, layout),
        NewsView::Shown(ta, tb) => match action {
            ActionView::ShowNumbers { a, b } => with_numbers(call, a, b, ta, tb),
            _ => arbitrary(),
        },
        NewsView::Value(r) => with_value(call, r),
        NewsView::SyntaxError(e) => with_syntax_error(call, action, e),
        NewsView::Visits(r) => match r {
            Ok(v) => ActionView::Done(visit_list_reply(v)),
            Err(e) => ActionView::Failed(e),
        },
        NewsView::Log(r) => match r {
            Ok(es) => match action {
                ActionView::ReadLog { console: true, .. } => ActionView::Done(console_reply(es)),
                _ => ActionView::Done(network_reply(es)),
            },
            Err(e) => ActionView::Failed(e),
        },
        NewsView::Base(configured) => with_base(call, configured),
        NewsView::Token(r) => match r {
            Ok(token) => match action {
                ActionView::MintToken { base } => ActionView::ReadClock { base, token },
                _ => arbitrary(),
            },
            Err(e) => ActionView::Failed(e),
        },
        NewsView::Clock(now) => match action {
            ActionView::ReadClock { base, token } => ActionView::WriteTicket {
                base,
                token,
                ticket: ticket_at(link_of(call).0, target_id, now, link_of(call).1),
            },
            _ => arbitrary(),
        },
        NewsView::Cookies(r) => match r {
            Ok(cookies) => with_cookies(call, cookies),
            Err(e) => match action {
                ActionView::GetCookies { .. } => failed_in("Storage.getCookies"@, e),
                _ => ActionView::Failed(e),
            },
        },
        NewsView::Saved(r) => match r {
            Ok(t) => state_saved(call, t.0, t.1, t.2),
            Err(e) => ActionView::Failed(e),
        },
        NewsView::States(r) => match r {
            Ok(v) => ActionView::Done(state_list_reply(v)),
            Err(e) => ActionView::Failed(e),
        },
        NewsView::Removed(r) => match r {
            Ok(removed) => match action {
                ActionView::DeleteSaved { name } => deletion(name, removed),
                _ => arbitrary(),
            },
            Err(e) => ActionView::Failed(e),
        },
    }
}

/// The page of a run once news have come: the one that was found last.
pub open spec fn next_target(target_id: Seq<char>, news: NewsView) -> Seq<char> {
    match news {
        NewsView::Page(Ok(id)) => id,
        _ => target_id,
    }
}

/// A run once news have come.
pub open spec fn next_run(run: RunView, news: NewsView) -> RunView {
    RunView {
        call: run.call,
        target_id: next_target(run.target_id, news),
        action: next_action(run.call, run.target_id, run.action, news),
    }
}

// ---- the steps ------------------------------------------------------------

/// Stands where no call comes to: the call ends with an error that says nothing.
fn no_step() -> (r: Action)
    ensures
        action_view(r) == ActionView::Failed(Seq::empty()),
{
    let e = ErrorChain { causes: Vec::new() };
    assert(e@ =~= Seq::empty());
    Action::Failed(e)
}

/// The call ends with a refusal of the library's own.
fn refuse(f: Failure<String>) -> (r: Action)
    ensures
        action_view(r) == refused(f@),
{
    Action::Failed(ErrorChain::of(&f))
}

/// The call ends with an error that passed through a context.
fn fail_in(what: &str, e: ErrorChain) -> (r: Action)
    ensures
        action_view(r) == failed_in(what@, e@),
{
    Action::Failed(e.context(what))
}

/// The first action of a call that works on a page.
fn find_page(session_id: &String) -> (r: Action)
    ensures
        action_view(r) == (ActionView::FindPage { session_id: session_id@, tab: None }),
{
    Action::FindPage { session_id: session_id.clone(), tab: None }
}

/// The first action of a call that works on a session.
fn find_session(session_id: &String) -> (r: Action)
    ensures
        action_view(r) == (ActionView::FindSession { session_id: session_id@ }),
{
    Action::FindSession { session_id: session_id.clone() }
}

/// Starts a call.
pub fn begin(call: Request) -> (r: Run)
    ensures
        r@.call == call_view(call),
        r@.target_id.len() == 0,
        r@.action == first_action(call_view(call)),
        proper(r@.call, r@.action),
{
    let action = match &call {
        Call::OpenSession { viewport, use_mobile } => Action::OpenSession {
            viewport: *viewport,
            use_mobile: *use_mobile,
        },
        Call::CloseSession { session_id } => Action::CloseSession {
            session_id: session_id.clone(),
        },
        Call::ListSessions => Action::ListTargets,
        Call::NewPage { session_id, url } => Action::OpenTab {
            session_id: session_id.clone(),
            url: copy_opt(url),
        },
        Call::ListPages { session_id } => Action::ListTabs { session_id: session_id.clone() },
        Call::SwitchTab { session_id, index } => Action::SwitchTo {
            session_id: session_id.clone(),
            index: *index,
        },
        Call::CloseTab { session_id, index } => Action::CloseAt {
            session_id: session_id.clone(),
            index: *index,
        },
        Call::Navigate { session_id, .. } => find_page(session_id),
        Call::TakeScreenshot { session_id, .. } => find_page(session_id),
        Call::TakeSnapshot { session_id } => find_page(session_id),
        Call::Click { session_id, .. } => find_page(session_id),
        Call::TypeText { session_id, .. } => find_page(session_id),
        Call::PressKey { session_id, .. } => find_page(session_id),
        Call::Scroll { session_id, .. } => find_page(session_id),
        Call::MoveMouse { session_id, .. } => find_page(session_id),
        Call::WaitFor { session_id, .. } => find_page(session_id),
        Call::Evaluate { session_id, tab, .. } => Action::FindPage {
            session_id: session_id.clone(),
            tab: *tab,
        },
        Call::ListVisits { session_id } => find_session(session_id),
        Call::ListConsoleMessages { session_id, .. } => find_session(session_id),
        Call::ListNetworkRequests { session_id, .. } => find_session(session_id),
        Call::SetStealth { session_id, .. } => find_session(session_id),
        Call::GetStealth { session_id } => Action::CheckFlag { session_id: session_id.clone() },
        Call::RequestTakeover { .. } => Action::ReadBase,
        Call::AwaitTakeover { token, timeout_ms } => Action::AwaitDone {
            token: token.clone(),
            timeout_ms: *timeout_ms,
        },
        Call::SaveState { session_id, .. } => find_session(session_id),
        Call::LoadState { session_id, .. } => find_session(session_id),
        Call::ListStates => Action::ListSaved,
        Call::DeleteState { name } => Action::DeleteSaved { name: name.clone() },
    };
    Run { call, target_id: String::new(), action }
}

/// What follows once the page is found.
fn page_found(call: &Request) -> (r: Action)
    requires
        proper(call_view(*call), ActionView::FindPage { session_id: seq![], tab: None })
            || call is NewPage || call is SwitchTab,
    ensures
        action_view(r) == after_page(call_view(*call)),
        proper(call_view(*call), action_view(r)),
{
    match call {
        Call::Navigate { url, timeout_ms, .. } => Action::Goto {
            url: url.clone(),
            timeout_ms: *timeout_ms,
        },
        Call::TakeScreenshot { full_page, .. } => Action::Capture { full_page: *full_page },
        Call::TakeSnapshot { .. } => Action::Snapshot,
        Call::Click { target, .. } => match target {
            Some(ClickTarget::Selector { selector, timeout_ms }) => Action::AwaitElement {
                selector: selector.clone(),
                timeout_ms: *timeout_ms,
            },
            Some(ClickTarget::Point { x, y }) => Action::ShowNumbers { a: *x, b: *y },
            None => refuse(Failure::ClickTarget),
        },
        Call::TypeText { selector, .. } => Action::AwaitElement {
            selector: selector.clone(),
            timeout_ms: 5000,
        },
        Call::PressKey { focus, .. } => match focus {
            Some(f) => Action::AwaitElement {
                selector: f.selector.clone(),
                timeout_ms: f.timeout_ms,
            },
            None => Action::ReadLayout,
        },
        Call::Scroll { delta_x, delta_y, x, y, .. } => Action::Wheel {
            x: *x,
            y: *y,
            delta_x: *delta_x,
            delta_y: *delta_y,
        },
        Call::MoveMouse { x, y, .. } => match (x, y) {
            (Some(x), Some(y)) => Action::MoveTo { x: *x, y: *y },
            (Some(_), None) => refuse(Failure::CoordinateRequired { axis: "y".to_string() }),
            _ => refuse(Failure::CoordinateRequired { axis: "x".to_string() }),
        },
        Call::WaitFor { condition, timeout_ms, .. } => match condition {
            Condition::Selector { selector } => Action::AwaitElement {
                selector: selector.clone(),
                timeout_ms: *timeout_ms,
            },
            Condition::Text { text } => Action::AwaitProbe {
                function: text_probe(text.as_str()),
                timeout_ms: *timeout_ms,
            },
        },
        Call::Evaluate { session_id, .. } => Action::CheckFlag {
            session_id: session_id.clone(),
        },
        Call::NewPage { session_id, .. } => Action::CountPages { session_id: session_id.clone() },
        Call::SwitchTab { .. } => Action::BringToFront,
        _ => {
            assert(false);
            no_step()
        },
    }
}

/// What follows once the session is known to exist.
fn session_found(call: &Request) -> (r: Action)
    requires
        proper(call_view(*call), ActionView::FindSession { session_id: seq![] }),
    ensures
        action_view(r) == after_session(call_view(*call)),
        proper(call_view(*call), action_view(r)),
{
    match call {
        Call::ListVisits { session_id } => Action::ReadVisits { session_id: session_id.clone() },
        Call::ListConsoleMessages { session_id, visit, limit } => Action::ReadLog {
            session_id: session_id.clone(),
            console: true,
            visit: *visit,
            limit: *limit,
        },
        Call::ListNetworkRequests { session_id, visit, limit } => Action::ReadLog {
            session_id: session_id.clone(),
            console: false,
            visit: *visit,
            limit: *limit,
        },
        Call::SetStealth { session_id, enabled } => match enabled {
            Some(on) => {
                if valid_ctx(session_id.as_str()) {
                    Action::SetFlag { session_id: session_id.clone(), present: *on }
                } else {
                    refuse(Failure::InvalidSessionId)
                }
            },
            None => refuse(Failure::EnabledRequired),
        },
        Call::SaveState { session_id, .. } => Action::GetCookies {
            session_id: session_id.clone(),
        },
        Call::LoadState { name, .. } => Action::LoadCookies { name: name.clone() },
        _ => {
            assert(false);
            no_step()
        },
    }
}

/// What follows once an element of the selector is there, or is not in time.
fn element_seen(call: &Request, selector: String, seen: bool) -> (r: Action)
    requires
        proper(
            call_view(*call),
            ActionView::AwaitElement { selector: selector@, timeout_ms: 0 },
        ),
    ensures
        action_view(r) == (if seen {
            after_element(call_view(*call), selector@)
        } else {
            refused(Failure::SelectorTimeout { selector: selector@ })
        }),
        proper(call_view(*call), action_view(r)),
{
    if !seen {
        return refuse(Failure::SelectorTimeout { selector });
    }
    match call {
        Call::Click { .. } => Action::Evaluate {
            function: center_probe(selector.as_str()),
            world: World::Isolated,
            otherwise: None,
        },
        Call::WaitFor { .. } => Action::Done(matched_selector(selector.as_str())),
        Call::TypeText { .. } => Action::FindElement { selector },
        Call::PressKey { .. } => Action::FindElement { selector },
        _ => {
            assert(false);
            no_step()
        },
    }
}

/// What follows once a function said true, or did not in time.
fn probe_seen(call: &Request, seen: bool) -> (r: Action)
    requires
        waits_for_text(call_view(*call)),
    ensures
        action_view(r) == with_sight(
            call_view(*call),
            ActionView::AwaitProbe { function: seq![], timeout_ms: 0 },
            seen,
        ),
        proper(call_view(*call), action_view(r)),
{
    if !seen {
        return refuse(Failure::TimedOut);
    }
    match call {
        Call::WaitFor { condition: Condition::Text { text }, .. } => Action::Done(
            matched_text(text.as_str()),
        ),
        _ => {
            assert(false);
            no_step()
        },
    }
}

/// What follows once it is known whether the flag of a session is there.
fn flag_seen(call: &Request, session_id: &str, present: bool) -> (r: Action)
    requires
        call is Evaluate || call is GetStealth,
    ensures
        action_view(r) == with_flag(call_view(*call), session_id@, present),
        proper(call_view(*call), action_view(r)),
{
    let stealth = is_stealth(session_id, present);
    match call {
        Call::Evaluate { expression, .. } => Action::Evaluate {
            function: evaluate_function(expression.as_str()),
            world: world_for(stealth),
            otherwise: body_function(expression.as_str()),
        },
        Call::GetStealth { .. } => Action::Done(stealth_state(stealth)),
        _ => {
            assert(false);
            no_step()
        },
    }
}

/// What follows the keyboard layout.
fn layout_known(call: &Request, layout: &Vec<KeyDef<String>>) -> (r: Action)
    requires
        call is PressKey,
    ensures
        action_view(r) == with_layout(call_view(*call), keys(layout@)),
        proper(call_view(*call), action_view(r)),
{
    match call {
        Call::PressKey { key, .. } => match dispatch_key(layout, key.as_str()) {
            Ok((down, up)) => Action::KeyDown { down, up },
            Err(f) => refuse(f),
        },
        _ => {
            assert(false);
            no_step()
        },
    }
}

/// What follows two numbers in text.
fn numbers_shown(call: &Request, a: Number, b: Number, ta: &str, tb: &str) -> (r: Action)
    requires
        call is Click || call is Scroll || call is MoveMouse,
    ensures
        action_view(r) == with_numbers(call_view(*call), a, b, ta@, tb@),
        proper(call_view(*call), action_view(r)),
{
    match call {
        Call::Click { .. } => Action::ClickAt { x: a, y: b, label: point_label(ta, tb) },
        Call::Scroll { .. } => Action::Done(scrolled(ta, tb)),
        Call::MoveMouse { .. } => Action::Done(moved(ta, tb)),
        _ => {
            assert(false);
            no_step()
        },
    }
}

/// What follows the value of a script.
fn value_known(call: &Request, r: Result<Json, ErrorChain>) -> (a: Action)
    requires
        call is Evaluate || clicks_on_element(call_view(*call)),
    ensures
        action_view(a) == with_value(
            call_view(*call),
            match r {
                Ok(j) => Ok(j@),
                Err(e) => Err(e@),
            },
        ),
        proper(call_view(*call), action_view(a)),
{
    match call {
        Call::Click { target: Some(ClickTarget::Selector { selector, .. }), .. } => match r {
            Ok(value) => match element_center(&value, selector.as_str()) {
                Ok((x, y)) => Action::ClickAt { x, y, label: selector.clone() },
                Err(f) => refuse(f),
            },
            Err(e) => Action::Failed(e),
        },
        Call::Evaluate { .. } => match r {
            Ok(value) => Action::ShowValue { value },
            Err(e) => fail_in("evaluate", e),
        },
        _ => {
            assert(false);
            no_step()
        },
    }
}

/// What follows where the page is.
fn url_known(call: &Request, open: usize, url: &Option<String>) -> (r: Action)
    requires
        call is NewPage || call is SwitchTab || call is Navigate,
    ensures
        action_view(r) == with_url(call_view(*call), open, opt_text(*url)),
        proper(call_view(*call), action_view(r)),
{
    match call {
        Call::NewPage { .. } => Action::Done(opened_tab(open, borrowed(url))),
        Call::SwitchTab { index, .. } => Action::Done(switched_tab(*index, borrowed(url))),
        Call::Navigate { url: requested, .. } => Action::Done(
            navigated(requested.as_str(), borrowed(url)),
        ),
        _ => {
            assert(false);
            no_step()
        },
    }
}

/// The answer to cookies that were loaded.
fn cookies_loaded(call: &Request, total: usize) -> (r: Action)
    requires
        call is LoadState,
    ensures
        action_view(r) == state_loaded(call_view(*call), total),
        proper(call_view(*call), action_view(r)),
{
    match call {
        Call::LoadState { name, .. } => Action::Done(loaded_state(name.as_str(), total)),
        _ => {
            assert(false);
            no_step()
        },
    }
}

/// What follows cookies.
fn cookies_known(call: &Request, cookies: Vec<Json>) -> (r: Action)
    requires
        call is SaveState || call is LoadState,
    ensures
        action_view(r) == with_cookies(call_view(*call), items(cookies@)),
        proper(call_view(*call), action_view(r)),
{
    match call {
        Call::SaveState { name, .. } => Action::SaveCookies { name: name.clone(), cookies },
        Call::LoadState { session_id, .. } => {
            if cookies.len() == 0 {
                cookies_loaded(call, 0)
            } else {
                Action::SetCookies {
                    session_id: session_id.clone(),
                    cookies: cookies_to_set(&cookies),
                    total: cookies.len(),
                }
            }
        },
        _ => {
            assert(false);
            no_step()
        },
    }
}

/// The answer to a key that was pressed.
fn press_done(call: &Request) -> (r: Action)
    requires
        call is PressKey,
    ensures
        action_view(r) == key_pressed(call_view(*call)),
        proper(call_view(*call), action_view(r)),
{
    match call {
        Call::PressKey { key, .. } => Action::Done(pressed(key.as_str())),
        _ => {
            assert(false);
            no_step()
        },
    }
}

/// What follows once hold of the element is taken.
fn element_found(call: &Request, selector: String) -> (r: Action)
    requires
        call is TypeText || call is PressKey,
    ensures
        action_view(r) == with_element(call_view(*call), selector@),
        proper(call_view(*call), action_view(r)),
{
    match call {
        Call::TypeText { clear, .. } => {
            if *clear {
                Action::ClearElement { selector }
            } else {
                Action::ClickElement { selector }
            }
        },
        Call::PressKey { key, .. } => Action::PressOn { selector, key: key.clone() },
        _ => {
            assert(false);
            no_step()
        },
    }
}

/// What follows an action that was done.
fn answered(call: &Request, action: Action) -> (r: Action)
    requires
        proper(call_view(*call), action_view(action)),
        run_suits(call_view(*call), action_view(action), NewsView::Answer(Ok(()))),
    ensures
        action_view(r) == after_answer(call_view(*call), action_view(action)),
        proper(call_view(*call), action_view(r)),
{
    match action {
        Action::CloseAt { index, .. } => Action::Done(closed_tab(index)),
        Action::FindSession { .. } => session_found(call),
        Action::Goto { .. } => Action::ReadUrl { open: 0 },
        Action::FindElement { selector } => element_found(call, selector),
        Action::TypeInto { selector, text } => Action::Done(
            typed(text.as_str(), selector.as_str()),
        ),
        Action::PressOn { .. } => press_done(call),
        Action::KeyDown { up, .. } => Action::KeyUp { up },
        Action::KeyUp { .. } => press_done(call),
        Action::ClickAt { label, .. } => Action::Done(clicked(label.as_str())),
        Action::Wheel { delta_x, delta_y, .. } => Action::ShowNumbers { a: delta_x, b: delta_y },
        Action::MoveTo { x, y } => Action::ShowNumbers { a: x, b: y },
        Action::SetFlag { present, .. } => Action::Done(stealth_set(present)),
        Action::WriteTicket { base, token, ticket } => Action::Done(
            takeover_ready(base.as_str(), token.as_str(), ticket.expires_at_ms),
        ),
        Action::SetCookies { total, .. } => cookies_loaded(call, total),
        _ => {
            assert(false);
            no_step()
        },
    }
}

/// The error of an action ends the call.
fn not_answered(action: Action, e: ErrorChain) -> (r: Action)
    ensures
        action_view(r) == answer_failed(action_view(action), e@),
        r is Failed,
{
    match action {
        Action::Goto { .. } => fail_in("Page.navigate", e),
        Action::FindElement { selector } => fail_in(
            cat2("locating ", selector.as_str()).as_str(),
            e,
        ),
        Action::TypeInto { selector, .. } => fail_in(
            cat2("typing into ", selector.as_str()).as_str(),
            e,
        ),
        Action::PressOn { key, .. } => fail_in(cat2("pressing ", key.as_str()).as_str(), e),
        Action::KeyDown { .. } => fail_in("Input.dispatchKeyEvent (down)", e),
        Action::KeyUp { .. } => fail_in("Input.dispatchKeyEvent (up)", e),
        Action::ClickAt { label, .. } => fail_in(cat2("clicking ", label.as_str()).as_str(), e),
        Action::Wheel { .. } => fail_in("Input.dispatchMouseEvent", e),
        Action::MoveTo { .. } => fail_in("Input.dispatchMouseEvent (move)", e),
        Action::SetFlag { .. } => fail_in("writing stealth flag", e),
        Action::SetCookies { .. } => fail_in("Storage.setCookies", e),
        _ => Action::Failed(e),
    }
}

/// What follows something that is simply done.
fn noted(call: &Request, action: Action) -> (r: Action)
    requires
        proper(call_view(*call), action_view(action)),
        run_suits(call_view(*call), action_view(action), NewsView::Noted),
    ensures
        action_view(r) == after_note(call_view(*call), action_view(action)),
        proper(call_view(*call), action_view(r)),
{
    match action {
        Action::CloseSession { session_id } => Action::Done(closed_session(session_id.as_str())),
        Action::BringToFront => Action::ReadUrl { open: 0 },
        Action::ClearElement { selector } => Action::ClickElement { selector },
        Action::ClickElement { selector } => match call {
            Call::TypeText { text, .. } => Action::TypeInto { selector, text: text.clone() },
            _ => {
                assert(false);
                no_step()
            },
        },
        Action::Cleanup { token } => Action::Done(awaited_human(true, token.as_str())),
        _ => {
            assert(false);
            no_step()
        },
    }
}

/// What follows once something was seen, or was not in time.
fn sighted(call: &Request, action: Action, seen: bool) -> (r: Action)
    requires
        proper(call_view(*call), action_view(action)),
        run_suits(call_view(*call), action_view(action), NewsView::Seen(seen)),
    ensures
        action_view(r) == with_sight(call_view(*call), action_view(action), seen),
        proper(call_view(*call), action_view(r)),
{
    match action {
        Action::AwaitElement { selector, .. } => element_seen(call, selector, seen),
        Action::AwaitProbe { .. } => probe_seen(call, seen),
        Action::CheckFlag { session_id } => flag_seen(call, session_id.as_str(), seen),
        Action::AwaitDone { token, .. } => {
            if seen {
                Action::Cleanup { token }
            } else {
                Action::Done(awaited_human(false, token.as_str()))
            }
        },
        _ => {
            assert(false);
            no_step()
        },
    }
}

/// The answer that lists the sessions, by what Chrome says of its targets.
fn sessions_listed(all: Vec<Target>) -> (r: Reply)
    ensures
        r@ == session_list_reply(sessions_of(pages_of(targets(all@)))),
{
    let pages = page_targets(all);
    let list = session_list(&pages);
    proof {
        law_session_list_is_unique(
            targets(pages@),
            crate::sessions::infos(list@),
            sessions_of(targets(pages@)),
        );
    }
    listed_sessions(&list)
}

/// What follows the configured address of the takeover daemon.
fn base_known(call: &Request, configured: Option<String>) -> (r: Action)
    requires
        call is RequestTakeover,
    ensures
        action_view(r) == with_base(call_view(*call), opt_text(configured)),
        proper(call_view(*call), action_view(r)),
{
    match call {
        Call::RequestTakeover { session_id, .. } => match required_base(configured) {
            Ok(base) => Action::FindTarget { session_id: session_id.clone(), base },
            Err(f) => refuse(f),
        },
        _ => {
            assert(false);
            no_step()
        },
    }
}

/// What follows once the time is known.
fn clock_read(call: &Request, target_id: &str, base: String, token: String, now: u128) -> (r:
    Action)
    requires
        call is RequestTakeover,
        now + link_of(call_view(*call)).1 <= u64::MAX,
    ensures
        action_view(r) == (ActionView::WriteTicket {
            base: base@,
            token: token@,
            ticket: ticket_at(
                link_of(call_view(*call)).0,
                target_id@,
                now,
                link_of(call_view(*call)).1,
            ),
        }),
        proper(call_view(*call), action_view(r)),
{
    match call {
        Call::RequestTakeover { session_id, ttl_ms } => Action::WriteTicket {
            base,
            token,
            ticket: Ticket {
                session_id: session_id.clone(),
                target_id: target_id.to_string(),
                expires_at_ms: expiry_at(now, *ttl_ms),
            },
        },
        _ => {
            assert(false);
            no_step()
        },
    }
}

/// The action that follows once news have come.
fn act(call: &Request, target_id: &str, action: Action, news: News) -> (r: Action)
    requires
        proper(call_view(*call), action_view(action)),
        run_suits(call_view(*call), action_view(action), news_view(news)),
    ensures
        action_view(r) == next_action(
            call_view(*call),
            target_id@,
            action_view(action),
            news_view(news),
        ),
        proper(call_view(*call), action_view(r)),
{
    match news {
        News::Opened(r) => match r {
            Ok(info) => Action::Done(opened_session(&info)),
            Err(e) => Action::Failed(e),
        },
        News::Noted => noted(call, action),
        News::Targets(r) => match r {
            Ok(all) => Action::Done(sessions_listed(all)),
            Err(e) => fail_in("Target.getTargets", e),
        },
        News::Page(r) => match r {
            Ok(_) => match action {
                Action::FindTarget { base, .. } => Action::MintToken { base },
                _ => page_found(call),
            },
            Err(e) => Action::Failed(e),
        },
        News::Count(r) => match r {
            Ok(open) => Action::ReadUrl { open },
            Err(e) => Action::Failed(e),
        },
        News::Tabs(r) => match r {
            Ok(t) => Action::Done(listed_tabs(&t.0, borrowed(&t.1))),
            Err(e) => Action::Failed(e),
        },
        News::Answer(r) => match r {
            Ok(_) => answered(call, action),
            Err(e) => not_answered(action, e),
        },
        News::Elapsed => match action {
            Action::Goto { timeout_ms: Some(ms), .. } => refuse(
                Failure::NavigationTimeout { ms },
            ),
            _ => {
                assert(false);
                no_step()
            },
        },
        News::Url(r) => match r {
            Ok(url) => match action {
                Action::ReadUrl { open } => url_known(call, open, &url),
                _ => {
                    assert(false);
                    no_step()
                },
            },
            Err(e) => Action::Failed(e),
        },
        News::Picture(r) => match r {
            Ok(bytes) => Action::Done(captured_screenshot(bytes.as_slice())),
            Err(e) => fail_in("Page.captureScreenshot", e),
        },
        News::Text(r) => match r {
            Ok(shown) => match action {
                Action::ShowValue { value } => Action::Done(evaluated(shown, value)),
                _ => Action::Done(ok_text(shown)),
            },
            Err(e) => Action::Failed(e),
        },
        News::Seen(seen) => sighted(call, action, seen),
        News::Layout(layout) => layout_known(call, &layout),
        News::Shown(ta, tb) => match action {
            Action::ShowNumbers { a, b } => numbers_shown(call, a, b, ta.as_str(), tb.as_str()),
            _ => {
                assert(false);
                no_step()
            },
        },
        News::Value(r) => value_known(call, r),
        News::SyntaxError(e) => match action {
            Action::Evaluate { world, otherwise: Some(function), .. } => Action::Evaluate {
                function,
                world,
                otherwise: None,
            },
            _ => value_known(call, Err(e)),
        },
        News::Visits(r) => match r {
            Ok(list) => Action::Done(listed_visits(&list)),
            Err(e) => Action::Failed(e),
        },
        News::Log(r) => match r {
            Ok(log) => match action {
                Action::ReadLog { console: true, .. } => Action::Done(
                    listed_console_messages(&log),
                ),
                _ => Action::Done(listed_network_requests(&log)),
            },
            Err(e) => Action::Failed(e),
        },
        News::Base(configured) => base_known(call, configured),
        News::Token(r) => match r {
            Ok(token) => match action {
                Action::MintToken { base } => Action::ReadClock { base, token },
                _ => {
                    assert(false);
                    no_step()
                },
            },
            Err(e) => Action::Failed(e),
        },
        News::Clock(now) => match action {
            Action::ReadClock { base, token } => clock_read(call, target_id, base, token, now),
            _ => {
                assert(false);
                no_step()
            },
        },
        News::Cookies(r) => match r {
            Ok(cookies) => cookies_known(call, cookies),
            Err(e) => match action {
                Action::GetCookies { .. } => fail_in("Storage.getCookies", e),
                _ => Action::Failed(e),
            },
        },
        News::Saved(r) => match r {
            Ok(t) => match call {
                Call::SaveState { name, .. } => Action::Done(
                    saved_state(name.as_str(), t.0.as_str(), t.1.as_str(), t.2),
                ),
                _ => {
                    assert(false);
                    no_step()
                },
            },
            Err(e) => Action::Failed(e),
        },
        News::States(r) => match r {
            Ok(list) => Action::Done(listed_states(&list)),
            Err(e) => Action::Failed(e),
        },
        News::Removed(r) => match r {
            Ok(removed) => match action {
                Action::DeleteSaved { name } => Action::Done(
                    deleted_state(name.as_str(), removed),
                ),
                _ => {
                    assert(false);
                    no_step()
                },
            },
            Err(e) => Action::Failed(e),
        },
    }
}

/// Goes on once news of an action have come.
pub fn resume(run: Run, news: News) -> (r: Run)
    requires
        proper(run@.call, run@.action),
        run_suits(run@.call, run@.action, news_view(news)),
    ensures
        r@ == next_run(run@, news_view(news)),
        proper(r@.call, r@.action),
{
    let Run { call, target_id, action } = run;
    let found = match &news {
        News::Page(Ok(id)) => Some(id.clone()),
        _ => None,
    };
    let action = act(&call, target_id.as_str(), action, news);
    let target_id = match found {
        Some(id) => id,
        None => target_id,
    };
    Run { call, target_id, action }
}

// ---- what holds of every call ---------------------------------------------

/// How many more actions a call can take at most.
pub open spec fn actions_left(action: ActionView) -> nat {
    match action {
        ActionView::Done(_) => 0,
        ActionView::Failed(_) => 0,
        ActionView::FindPage { .. } => 6,
        ActionView::AwaitElement { .. } => 5,
        ActionView::ReadBase => 5,
        ActionView::FindElement { .. } => 4,
        ActionView::FindTarget { .. } => 4,
        ActionView::ClearElement { .. } => 3,
        ActionView::CheckFlag { .. } => 4,
        ActionView::ReadLayout => 3,
        ActionView::Wheel { .. } => 3,
        ActionView::MoveTo { .. } => 3,
        ActionView::SwitchTo { .. } => 3,
        ActionView::OpenTab { .. } => 3,
        ActionView::MintToken { .. } => 3,
        ActionView::FindSession { .. } => 3,
        ActionView::ClickElement { .. } => 2,
        ActionView::Evaluate { otherwise, .. } => if otherwise is Some {
            3
        } else {
            2
        },
        ActionView::ShowNumbers { .. } => 2,
        ActionView::KeyDown { .. } => 2,
        ActionView::Goto { .. } => 2,
        ActionView::BringToFront => 2,
        ActionView::CountPages { .. } => 2,
        ActionView::ReadClock { .. } => 2,
        ActionView::AwaitDone { .. } => 2,
        ActionView::GetCookies { .. } => 2,
        ActionView::LoadCookies { .. } => 2,
        _ => 1,
    }
}

/// Every call comes to its answer or its error, after six actions at most,
/// whatever news come.
pub proof fn law_call_ends(
    call: Call<Seq<char>>,
    target_id: Seq<char>,
    action: ActionView,
    news: NewsView,
)
    requires
        proper(call, action),
        run_suits(call, action, news),
    ensures
        actions_left(next_action(call, target_id, action, news)) < actions_left(action) <= 6,
{
}

/// A call stays the call that it was, and comes only to actions of its own.
pub proof fn law_call_stays_itself(run: RunView, news: NewsView)
    requires
        proper(run.call, run.action),
        run_suits(run.call, run.action, news),
    ensures
        next_run(run, news).call == run.call,
        proper(next_run(run, news).call, next_run(run, news).action),
{
}

/// A tool that works on a page or on the tabs of a session first has that very
/// session found; so does one that reads its logs or its cookies, or sets its
/// stealth.
pub proof fn law_session_is_found_first(call: Call<Seq<char>>)
    requires
        session_of(call) is Some,
        !(call is CloseSession),
        !(call is GetStealth),
        !(call is RequestTakeover),
    ensures
        ({
            let s = session_of(call)->0;
            match first_action(call) {
                ActionView::FindPage { session_id, .. } => session_id == s,
                ActionView::FindSession { session_id } => session_id == s,
                ActionView::OpenTab { session_id, .. } => session_id == s,
                ActionView::ListTabs { session_id } => session_id == s,
                ActionView::SwitchTo { session_id, .. } => session_id == s,
                ActionView::CloseAt { session_id, .. } => session_id == s,
                _ => false,
            }
        }),
{
}

/// Under stealth no script runs where the page can see it: an expression is run
/// in the page's own world only where the session's flag is not there, what is run
/// instead of one runs where that would have, and the library's own scripts never
/// run there.
pub proof fn law_stealth_hides_scripts(
    call: Call<Seq<char>>,
    target_id: Seq<char>,
    action: ActionView,
    news: NewsView,
)
    requires
        proper(call, action),
        run_suits(call, action, news),
        next_action(call, target_id, action, news) matches ActionView::Evaluate {
            world: World::Main,
            ..
        },
    ensures
        call is Evaluate,
        match action {
            ActionView::CheckFlag { session_id } => news == NewsView::Seen(false) || !is_ctx(
                session_id,
            ),
            ActionView::Evaluate { world, .. } => world == World::Main,
            _ => false,
        },
{
}

/// The value of an expression is what comes back, whatever words stand in it: an
/// expression is first run as one, and its value goes into the answer. Only where
/// it is none, and has the word `return` in it, is it run as a body, and then
/// that body's value goes into the answer.
pub proof fn law_expression_gives_its_value(
    session_id: Seq<char>,
    expression: Seq<char>,
    tab: Option<usize>,
    target_id: Seq<char>,
    present: bool,
    value: JsonView,
    e: Chain,
)
    ensures
        ({
            let call = Call::Evaluate { session_id, expression, tab };
            let first = next_action(
                call,
                target_id,
                ActionView::CheckFlag { session_id },
                NewsView::Seen(present),
            );
            let second = next_action(call, target_id, first, NewsView::SyntaxError(e));
            let shown = ActionView::ShowValue { value };
            let world = if is_ctx(session_id) && present {
                World::Isolated
            } else {
                World::Main
            };
            &&& first == (ActionView::Evaluate {
                function: function_text(expression, false),
                world,
                otherwise: body_text(expression),
            })
            &&& next_action(call, target_id, first, NewsView::Value(Ok(value))) == shown
            &&& match body_text(expression) {
                Some(function) => {
                    &&& second == (ActionView::Evaluate { function, world, otherwise: None })
                    &&& next_action(call, target_id, second, NewsView::Value(Ok(value))) == shown
                },
                None => second == failed_in("evaluate"@, e),
            }
        }),
{
}

/// A link is given out only for a configured address, for the page that was
/// found in the session of the call, and for no longer than was asked for.
pub proof fn law_link_is_for_its_page(
    call: Call<Seq<char>>,
    target_id: Seq<char>,
    action: ActionView,
    news: NewsView,
)
    requires
        proper(call, action),
        run_suits(call, action, news),
    ensures
        next_action(call, target_id, action, news) matches ActionView::WriteTicket {
            ticket,
            ..
        } ==> {
            &&& call matches Call::RequestTakeover { session_id, ttl_ms } && news
                matches NewsView::Clock(now) && ticket == (TicketView {
                session_id,
                target_id,
                expires_at_ms: (now + ttl_ms) as u128,
            })
        },
        next_action(call, target_id, action, news) matches ActionView::FindTarget { base, .. } ==> {
            news matches NewsView::Base(configured) && address_of(configured) == Some(base)
        },
{
}

/// A human's finished takeover is reported once its files are removed, and they
/// are removed only then.
pub proof fn law_finished_takeover_is_cleaned_up(
    call: Call<Seq<char>>,
    target_id: Seq<char>,
    token: Seq<char>,
    timeout_ms: u64,
)
    ensures
        next_action(
            call,
            target_id,
            ActionView::AwaitDone { token, timeout_ms },
            NewsView::Seen(true),
        ) == (ActionView::Cleanup { token }),
        next_action(call, target_id, ActionView::Cleanup { token }, NewsView::Noted) == wait_over(
            token,
            true,
        ),
        next_action(
            call,
            target_id,
            ActionView::AwaitDone { token, timeout_ms },
            NewsView::Seen(false),
        ) == wait_over(token, false),
{
}

}
