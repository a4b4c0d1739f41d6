//! The arguments of a tool call, read and checked.
use vstd::prelude::*;

use crate::error::{Failure, Refusal};
use crate::json::{
    bool_of, get, i64_of, lookup, members, number_of, str_of, u64_of, Json, JsonView, Number,
};
use crate::sessions::Viewport;
use crate::takeover::{wait_ms, wait_ms_of};
use crate::text::opt_text;
use crate::tools::{params_of, required_of, Kind, Tool};

verus! {

/// The members of the arguments.
pub type Members = Seq<(Seq<char>, JsonView)>;

/// What is read of an argument, or why it is refused.
pub type Read<T> = Result<T, Failure<Seq<char>>>;

// ---- single arguments -----------------------------------------------------

/// A text that has to be given and may not be empty.
pub open spec fn required_text(args: Members, field: Seq<char>) -> Read<Seq<char>> {
    match str_of(lookup(args, field)) {
        Some(s) => if s.len() > 0 {
            Ok(s)
        } else {
            Err(Failure::NotNonEmptyString { field })
        },
        None => Err(Failure::NotNonEmptyString { field }),
    }
}

/// The text of an argument that has to be given and may not be empty.
pub fn required_str(args: &Vec<(String, Json)>, field: &str) -> (r: Result<String, Refusal>)
    ensures
        match r {
            Ok(s) => required_text(members(args@), field@) == Read::<Seq<char>>::Ok(s@),
            Err(e) => required_text(members(args@), field@) == Read::<Seq<char>>::Err(e@),
        },
{
    match get(args, field) {
        Some(Json::Str(s)) => {
            if s.as_str().is_empty() {
                Err(Failure::NotNonEmptyString { field: field.to_string() })
            } else {
                Ok(s.clone())
            }
        },
        _ => Err(Failure::NotNonEmptyString { field: field.to_string() }),
    }
}

/// The text of an argument, if it is one.
pub fn optional_str(args: &Vec<(String, Json)>, field: &str) -> (r: Option<String>)
    ensures
        opt_text(r) == str_of(lookup(members(args@), field@)),
{
    match get(args, field) {
        Some(Json::Str(s)) => Some(s.clone()),
        _ => None,
    }
}

/// The truth value of an argument, if it is one.
pub fn optional_bool(args: &Vec<(String, Json)>, field: &str) -> (r: Option<bool>)
    ensures
        r == bool_of(lookup(members(args@), field@)),
{
    match get(args, field) {
        Some(Json::Bool(b)) => Some(*b),
        _ => None,
    }
}

/// The whole number of an argument, if it is one that is not negative.
pub fn optional_u64(args: &Vec<(String, Json)>, field: &str) -> (r: Option<u64>)
    ensures
        r == u64_of(lookup(members(args@), field@)),
{
    match get(args, field) {
        Some(Json::Number(Number::Unsigned(n))) => Some(*n),
        _ => None,
    }
}

/// A whole number of 32 bits.
pub open spec fn u32_of(v: Option<JsonView>) -> Option<u32> {
    match u64_of(v) {
        Some(n) => if n <= u32::MAX {
            Some(n as u32)
        } else {
            None
        },
        None => None,
    }
}

/// The whole number of an argument, if it fits 32 bits.
pub fn optional_u32(args: &Vec<(String, Json)>, field: &str) -> (r: Option<u32>)
    ensures
        r == u32_of(lookup(members(args@), field@)),
{
    match optional_u64(args, field) {
        Some(n) => {
            if n <= u32::MAX as u64 {
                Some(n as u32)
            } else {
                None
            }
        },
        None => None,
    }
}

/// A whole number of the machine's size.
pub open spec fn usize_of(v: Option<JsonView>) -> Option<usize> {
    match u64_of(v) {
        Some(n) => if n <= usize::MAX {
            Some(n as usize)
        } else {
            None
        },
        None => None,
    }
}

/// The whole number of an argument, if it fits the machine's size.
pub fn optional_usize(args: &Vec<(String, Json)>, field: &str) -> (r: Option<usize>)
    ensures
        r == usize_of(lookup(members(args@), field@)),
{
    match optional_u64(args, field) {
        Some(n) => {
            if n <= usize::MAX as u64 {
                Some(n as usize)
            } else {
                None
            }
        },
        None => None,
    }
}

/// The number of an argument, if it is one.
pub fn optional_number(args: &Vec<(String, Json)>, field: &str) -> (r: Option<Number>)
    ensures
        r == number_of(lookup(members(args@), field@)),
{
    match get(args, field) {
        Some(Json::Number(n)) => Some(*n),
        _ => None,
    }
}

/// A whole number above zero.
pub open spec fn positive(v: Option<JsonView>) -> Option<i64> {
    match i64_of(v) {
        Some(n) => if n > 0 {
            Some(n)
        } else {
            None
        },
        None => None,
    }
}

/// The whole number of a member, if it is above zero.
fn positive_member(obj: &Vec<(String, Json)>, field: &str) -> (r: Option<i64>)
    ensures
        r == positive(lookup(members(obj@), field@)),
{
    match get(obj, field) {
        Some(Json::Number(Number::Unsigned(n))) => {
            if 0 < *n && *n <= i64::MAX as u64 {
                Some(*n as i64)
            } else {
                None
            }
        },
        Some(Json::Number(Number::Negative(n))) => {
            if *n > 0 {
                Some(*n)
            } else {
                None
            }
        },
        _ => None,
    }
}

/// The size of a window, if one is given.
pub open spec fn viewport_of(args: Members, field: Seq<char>) -> Read<Option<Viewport>> {
    match lookup(args, field) {
        None => Ok(None),
        Some(JsonView::Object(ms)) => match positive(lookup(ms, "width"@)) {
            Some(width) => match positive(lookup(ms, "height"@)) {
                Some(height) => Ok(Some(Viewport { width, height })),
                None => Err(Failure::ViewportHeight { field }),
            },
            None => Err(Failure::ViewportWidth { field }),
        },
        Some(_) => Err(Failure::ViewportNotObject { field }),
    }
}

/// The size of a window, if one is given.
pub fn optional_viewport(args: &Vec<(String, Json)>, field: &str) -> (r: Result<
    Option<Viewport>,
    Refusal,
>)
    ensures
        match r {
            Ok(v) => viewport_of(members(args@), field@) == Read::<Option<Viewport>>::Ok(v),
            Err(e) => viewport_of(members(args@), field@) == Read::<Option<Viewport>>::Err(e@),
        },
{
    match get(args, field) {
        None => Ok(None),
        Some(Json::Object(obj)) => {
            proof {
                crate::json::lemma_object_view(*obj);
            }
            let width = match positive_member(obj, "width") {
                Some(n) => n,
                None => {
                    return Err(Failure::ViewportWidth { field: field.to_string() });
                },
            };
            let height = match positive_member(obj, "height") {
                Some(n) => n,
                None => {
                    return Err(Failure::ViewportHeight { field: field.to_string() });
                },
            };
            Ok(Some(Viewport { width, height }))
        },
        Some(_) => Err(Failure::ViewportNotObject { field: field.to_string() }),
    }
}

// ---- calls ----------------------------------------------------------------

/// What a click goes to.
pub enum ClickTarget<S> {
    /// The middle of the first element that the selector matches, once there is
    /// one.
    Selector { selector: S, timeout_ms: u64 },
    /// A point of the page.
    Point { x: Number, y: Number },
}

/// What is waited for.
pub enum Condition<S> {
    /// An element that the selector matches.
    Selector { selector: S },
    /// A text on the page.
    Text { text: S },
}

/// The element that gets a key.
pub struct Focus<S> {
    pub selector: S,
    pub timeout_ms: u64,
}

/// A call of a tool, with its arguments read, over the type of texts. What is
/// checked only after the session was found is still open here: the target of a
/// click, the point of a move, and the stealth to be set.
#[allow(inconsistent_fields)]
pub enum Call<S> {
    OpenSession { viewport: Option<Viewport>, use_mobile: bool },
    CloseSession { session_id: S },
    ListSessions,
    NewPage { session_id: S, url: Option<S> },
    ListPages { session_id: S },
    SwitchTab { session_id: S, index: usize },
    CloseTab { session_id: S, index: usize },
    Navigate { session_id: S, url: S, timeout_ms: Option<u64> },
    TakeScreenshot { session_id: S, full_page: bool },
    TakeSnapshot { session_id: S },
    Click { session_id: S, target: Option<ClickTarget<S>> },
    TypeText { session_id: S, selector: S, text: S, clear: bool },
    PressKey { session_id: S, key: S, focus: Option<Focus<S>> },
    Scroll { session_id: S, delta_x: Number, delta_y: Number, x: Number, y: Number },
    MoveMouse { session_id: S, x: Option<Number>, y: Option<Number> },
    WaitFor { session_id: S, condition: Condition<S>, timeout_ms: u64 },
    Evaluate { session_id: S, expression: S, tab: Option<usize> },
    ListVisits { session_id: S },
    ListConsoleMessages { session_id: S, visit: Option<u32>, limit: usize },
    ListNetworkRequests { session_id: S, visit: Option<u32>, limit: usize },
    SetStealth { session_id: S, enabled: Option<bool> },
    GetStealth { session_id: S },
    RequestTakeover { session_id: S, ttl_ms: u64 },
    AwaitTakeover { token: S, timeout_ms: u64 },
    SaveState { session_id: S, name: S },
    LoadState { session_id: S, name: S },
    ListStates,
    DeleteState { name: S },
}

/// A call as it comes.
pub type Request = Call<String>;

/// What a click's target says.
pub open spec fn click_view(t: Option<ClickTarget<String>>) -> Option<ClickTarget<Seq<char>>> {
    match t {
        Some(ClickTarget::Selector { selector, timeout_ms }) => Some(
            ClickTarget::Selector { selector: selector@, timeout_ms },
        ),
        Some(ClickTarget::Point { x, y }) => Some(ClickTarget::Point { x, y }),
        None => None,
    }
}

/// What a condition says.
pub open spec fn condition_view(c: Condition<String>) -> Condition<Seq<char>> {
    match c {
        Condition::Selector { selector } => Condition::Selector { selector: selector@ },
        Condition::Text { text } => Condition::Text { text: text@ },
    }
}

/// What a focus says.
pub open spec fn focus_view(f: Option<Focus<String>>) -> Option<Focus<Seq<char>>> {
    match f {
        Some(f) => Some(Focus { selector: f.selector@, timeout_ms: f.timeout_ms }),
        None => None,
    }
}

/// What a call says.
pub open spec fn call_view(c: Request) -> Call<Seq<char>> {
    match c {
        Call::OpenSession { viewport, use_mobile } => Call::OpenSession { viewport, use_mobile },
        Call::CloseSession { session_id } => Call::CloseSession { session_id: session_id@ },
        Call::ListSessions => Call::ListSessions,
        Call::NewPage { session_id, url } => Call::NewPage {
            session_id: session_id@,
            url: opt_text(url),
        },
        Call::ListPages { session_id } => Call::ListPages { session_id: session_id@ },
        Call::SwitchTab { session_id, index } => Call::SwitchTab {
            session_id: session_id@,
            index,
        },
        Call::CloseTab { session_id, index } => Call::CloseTab { session_id: session_id@, index },
        Call::Navigate { session_id, url, timeout_ms } => Call::Navigate {
            session_id: session_id@,
            url: url@,
            timeout_ms,
        },
        Call::TakeScreenshot { session_id, full_page } => Call::TakeScreenshot {
            session_id: session_id@,
            full_page,
        },
        Call::TakeSnapshot { session_id } => Call::TakeSnapshot { session_id: session_id@ },
        Call::Click { session_id, target } => Call::Click {
            session_id: session_id@,
            target: click_view(target),
        },
        Call::TypeText { session_id, selector, text, clear } => Call::TypeText {
            session_id: session_id@,
            selector: selector@,
            text: text@,
            clear,
        },
        Call::PressKey { session_id, key, focus } => Call::PressKey {
            session_id: session_id@,
            key: key@,
            focus: focus_view(focus),
        },
        Call::Scroll { session_id, delta_x, delta_y, x, y } => Call::Scroll {
            session_id: session_id@,
            delta_x,
            delta_y,
            x,
            y,
        },
        Call::MoveMouse { session_id, x, y } => Call::MoveMouse { session_id: session_id@, x, y },
        Call::WaitFor { session_id, condition, timeout_ms } => Call::WaitFor {
            session_id: session_id@,
            condition: condition_view(condition),
            timeout_ms,
        },
        Call::Evaluate { session_id, expression, tab } => Call::Evaluate {
            session_id: session_id@,
            expression: expression@,
            tab,
        },
        Call::ListVisits { session_id } => Call::ListVisits { session_id: session_id@ },
        Call::ListConsoleMessages { session_id, visit, limit } => Call::ListConsoleMessages {
            session_id: session_id@,
            visit,
            limit,
        },
        Call::ListNetworkRequests { session_id, visit, limit } => Call::ListNetworkRequests {
            session_id: session_id@,
            visit,
            limit,
        },
        Call::SetStealth { session_id, enabled } => Call::SetStealth {
            session_id: session_id@,
            enabled,
        },
        Call::GetStealth { session_id } => Call::GetStealth { session_id: session_id@ },
        Call::RequestTakeover { session_id, ttl_ms } => Call::RequestTakeover {
            session_id: session_id@,
            ttl_ms,
        },
        Call::AwaitTakeover { token, timeout_ms } => Call::AwaitTakeover {
            token: token@,
            timeout_ms,
        },
        Call::SaveState { session_id, name } => Call::SaveState {
            session_id: session_id@,
            name: name@,
        },
        Call::LoadState { session_id, name } => Call::LoadState {
            session_id: session_id@,
            name: name@,
        },
        Call::ListStates => Call::ListStates,
        Call::DeleteState { name } => Call::DeleteState { name: name@ },
    }
}

/// A number of milliseconds, or the one that stands for it.
pub open spec fn ms_or(v: Option<JsonView>, default: u64) -> u64 {
    match u64_of(v) {
        Some(n) => n,
        None => default,
    }
}

/// A number, or the one that stands for it.
pub open spec fn number_or(v: Option<JsonView>, default: u64) -> Number {
    match number_of(v) {
        Some(n) => n,
        None => Number::Unsigned(default),
    }
}

/// A truth value, or `false`.
pub open spec fn flag(v: Option<JsonView>) -> bool {
    match bool_of(v) {
        Some(b) => b,
        None => false,
    }
}

/// How many entries of a log are wanted.
pub open spec fn limit_of(args: Members) -> usize {
    match usize_of(lookup(args, "limit"@)) {
        Some(n) => n,
        None => 500,
    }
}

/// What a click goes to, by its arguments: a selector comes before a point.
pub open spec fn click_target_of(args: Members) -> Option<ClickTarget<Seq<char>>> {
    match str_of(lookup(args, "selector"@)) {
        Some(selector) => Some(
            ClickTarget::Selector { selector, timeout_ms: ms_or(lookup(args, "timeout"@), 5000) },
        ),
        None => match (number_of(lookup(args, "x"@)), number_of(lookup(args, "y"@))) {
            (Some(x), Some(y)) => Some(ClickTarget::Point { x, y }),
            _ => None,
        },
    }
}

/// Which element gets a key, by its arguments.
pub open spec fn focus_of(args: Members) -> Option<Focus<Seq<char>>> {
    match str_of(lookup(args, "selector"@)) {
        Some(selector) => Some(
            Focus { selector, timeout_ms: ms_or(lookup(args, "timeout"@), 5000) },
        ),
        None => None,
    }
}

/// What is waited for, by its arguments: a selector comes before a text.
pub open spec fn condition_of(args: Members) -> Option<Condition<Seq<char>>> {
    match str_of(lookup(args, "selector"@)) {
        Some(selector) => Some(Condition::Selector { selector }),
        None => match str_of(lookup(args, "text"@)) {
            Some(text) => Some(Condition::Text { text }),
            None => None,
        },
    }
}

/// The index of a tab, which has to be given.
pub open spec fn tab_index(args: Members) -> Read<usize> {
    match u64_of(lookup(args, "tabIndex"@)) {
        Some(n) => Ok(n as usize),
        None => Err(Failure::TabIndexRequired),
    }
}

/// The call of a tool on one session, with what is read of its other arguments.
pub open spec fn session_call(t: Tool, session_id: Seq<char>, args: Members) -> Read<
    Call<Seq<char>>,
> {
    match t {
        Tool::CloseSession => Ok(Call::CloseSession { session_id }),
        Tool::NewPage => Ok(Call::NewPage { session_id, url: str_of(lookup(args, "url"@)) }),
        Tool::ListPages => Ok(Call::ListPages { session_id }),
        Tool::SwitchTab => match tab_index(args) {
            Ok(index) => Ok(Call::SwitchTab { session_id, index }),
            Err(e) => Err(e),
        },
        Tool::CloseTab => match tab_index(args) {
            Ok(index) => Ok(Call::CloseTab { session_id, index }),
            Err(e) => Err(e),
        },
        Tool::Navigate => match required_text(args, "url"@) {
            Ok(url) => Ok(
                Call::Navigate { session_id, url, timeout_ms: u64_of(lookup(args, "timeout"@)) },
            ),
            Err(e) => Err(e),
        },
        Tool::TakeScreenshot => Ok(
            Call::TakeScreenshot { session_id, full_page: flag(lookup(args, "fullPage"@)) },
        ),
        Tool::TakeSnapshot => Ok(Call::TakeSnapshot { session_id }),
        Tool::Click => Ok(Call::Click { session_id, target: click_target_of(args) }),
        Tool::TypeText => match required_text(args, "selector"@) {
            Ok(selector) => match required_text(args, "text"@) {
                Ok(text) => Ok(
                    Call::TypeText { session_id, selector, text, clear: flag(lookup(args, "clear"@)) },
                ),
                Err(e) => Err(e),
            },
            Err(e) => Err(e),
        },
        Tool::PressKey => match required_text(args, "key"@) {
            Ok(key) => Ok(Call::PressKey { session_id, key, focus: focus_of(args) }),
            Err(e) => Err(e),
        },
        Tool::Scroll => Ok(
            Call::Scroll {
                session_id,
                delta_x: number_or(lookup(args, "deltaX"@), 0),
                delta_y: number_or(lookup(args, "deltaY"@), 600),
                x: number_or(lookup(args, "x"@), 50),
                y: number_or(lookup(args, "y"@), 50),
            },
        ),
        Tool::MoveMouse => Ok(
            Call::MoveMouse {
                session_id,
                x: number_of(lookup(args, "x"@)),
                y: number_of(lookup(args, "y"@)),
            },
        ),
        Tool::WaitFor => match condition_of(args) {
            Some(condition) => Ok(
                Call::WaitFor {
                    session_id,
                    condition,
                    timeout_ms: ms_or(lookup(args, "timeout"@), 10000),
                },
            ),
            None => Err(Failure::WaitTarget),
        },
        Tool::Evaluate => match required_text(args, "expression"@) {
            Ok(expression) => Ok(
                Call::Evaluate {
                    session_id,
                    expression,
                    tab: match u64_of(lookup(args, "tabIndex"@)) {
                        Some(n) => Some(n as usize),
                        None => None,
                    },
                },
            ),
            Err(e) => Err(e),
        },
        Tool::ListVisits => Ok(Call::ListVisits { session_id }),
        Tool::ListConsoleMessages => Ok(
            Call::ListConsoleMessages {
                session_id,
                visit: u32_of(lookup(args, "visit"@)),
                limit: limit_of(args),
            },
        ),
        Tool::ListNetworkRequests => Ok(
            Call::ListNetworkRequests {
                session_id,
                visit: u32_of(lookup(args, "visit"@)),
                limit: limit_of(args),
            },
        ),
        Tool::SetStealth => Ok(
            Call::SetStealth { session_id, enabled: bool_of(lookup(args, "enabled"@)) },
        ),
        Tool::GetStealth => Ok(Call::GetStealth { session_id }),
        Tool::RequestTakeover => Ok(
            Call::RequestTakeover { session_id, ttl_ms: wait_ms_of(u64_of(lookup(args, "ttl"@))) },
        ),
        Tool::SaveState => match required_text(args, "name"@) {
            Ok(name) => Ok(Call::SaveState { session_id, name }),
            Err(e) => Err(e),
        },
        _ => match required_text(args, "name"@) {
            Ok(name) => Ok(Call::LoadState { session_id, name }),
            Err(e) => Err(e),
        },
    }
}

/// The call of a tool, or why its arguments are refused.
pub open spec fn call_of(t: Tool, args: Members) -> Read<Call<Seq<char>>> {
    match t {
        Tool::OpenSession => match viewport_of(args, "viewport"@) {
            Ok(viewport) => Ok(
                Call::OpenSession { viewport, use_mobile: flag(lookup(args, "useMobileUA"@)) },
            ),
            Err(e) => Err(e),
        },
        Tool::ListSessions => Ok(Call::ListSessions),
        Tool::AwaitTakeover => match required_text(args, "token"@) {
            Ok(token) => Ok(
                Call::AwaitTakeover {
                    token,
                    timeout_ms: wait_ms_of(u64_of(lookup(args, "timeout"@))),
                },
            ),
            Err(e) => Err(e),
        },
        Tool::ListStates => Ok(Call::ListStates),
        Tool::DeleteState => match required_text(args, "name"@) {
            Ok(name) => Ok(Call::DeleteState { name }),
            Err(e) => Err(e),
        },
        _ => match required_text(args, "sessionId"@) {
            Ok(session_id) => session_call(t, session_id, args),
            Err(e) => Err(e),
        },
    }
}

/// A result says what it should.
pub open spec fn call_matches(
    r: Result<Request, Refusal>,
    expected: Read<Call<Seq<char>>>,
) -> bool {
    match r {
        Ok(c) => expected == Read::<Call<Seq<char>>>::Ok(call_view(c)),
        Err(e) => expected == Read::<Call<Seq<char>>>::Err(e@),
    }
}

// ---- reading calls --------------------------------------------------------

/// The milliseconds of an argument, or those that stand for them.
fn optional_ms(args: &Vec<(String, Json)>, field: &str, default: u64) -> (r: u64)
    ensures
        r == ms_or(lookup(members(args@), field@), default),
{
    match optional_u64(args, field) {
        Some(n) => n,
        None => default,
    }
}

/// The number of an argument, or the one that stands for it.
fn number_default(args: &Vec<(String, Json)>, field: &str, default: u64) -> (r: Number)
    ensures
        r == number_or(lookup(members(args@), field@), default),
{
    match optional_number(args, field) {
        Some(n) => n,
        None => Number::Unsigned(default),
    }
}

/// The truth value of an argument, or `false`.
fn optional_flag(args: &Vec<(String, Json)>, field: &str) -> (r: bool)
    ensures
        r == flag(lookup(members(args@), field@)),
{
    match optional_bool(args, field) {
        Some(b) => b,
        None => false,
    }
}

/// How many entries of a log are wanted.
fn log_limit(args: &Vec<(String, Json)>) -> (r: usize)
    ensures
        r == limit_of(members(args@)),
{
    match optional_usize(args, "limit") {
        Some(n) => n,
        None => 500,
    }
}

/// What a click goes to, by its arguments.
fn read_click(args: &Vec<(String, Json)>) -> (r: Option<ClickTarget<String>>)
    ensures
        click_view(r) == click_target_of(members(args@)),
{
    match optional_str(args, "selector") {
        Some(selector) => Some(
            ClickTarget::Selector { selector, timeout_ms: optional_ms(args, "timeout", 5000) },
        ),
        None => match (optional_number(args, "x"), optional_number(args, "y")) {
            (Some(x), Some(y)) => Some(ClickTarget::Point { x, y }),
            _ => None,
        },
    }
}

/// The index of a tab, which has to be given.
fn read_tab_index(args: &Vec<(String, Json)>) -> (r: Result<usize, Refusal>)
    ensures
        match r {
            Ok(n) => tab_index(members(args@)) == Read::<usize>::Ok(n),
            Err(e) => tab_index(members(args@)) == Read::<usize>::Err(e@),
        },
{
    match optional_u64(args, "tabIndex") {
        Some(n) => Ok(n as usize),
        None => Err(Failure::TabIndexRequired),
    }
}

/// Reads the arguments of a wait.
fn read_wait(session_id: String, args: &Vec<(String, Json)>) -> (r: Result<Request, Refusal>)
    ensures
        call_matches(r, session_call(Tool::WaitFor, session_id@, members(args@))),
{
    let timeout_ms = optional_ms(args, "timeout", 10000);
    match optional_str(args, "selector") {
        Some(selector) => Ok(
            Call::WaitFor { session_id, condition: Condition::Selector { selector }, timeout_ms },
        ),
        None => match optional_str(args, "text") {
            Some(text) => Ok(
                Call::WaitFor { session_id, condition: Condition::Text { text }, timeout_ms },
            ),
            None => Err(Failure::WaitTarget),
        },
    }
}

/// Reads the arguments of a tool that works on one session.
fn read_session_call(t: Tool, session_id: String, args: &Vec<(String, Json)>) -> (r: Result<
    Request,
    Refusal,
>)
    ensures
        call_matches(r, session_call(t, session_id@, members(args@))),
{
    match t {
        Tool::CloseSession => Ok(Call::CloseSession { session_id }),
        Tool::NewPage => Ok(Call::NewPage { session_id, url: optional_str(args, "url") }),
        Tool::ListPages => Ok(Call::ListPages { session_id }),
        Tool::SwitchTab => match read_tab_index(args) {
            Ok(index) => Ok(Call::SwitchTab { session_id, index }),
            Err(e) => Err(e),
        },
        Tool::CloseTab => match read_tab_index(args) {
            Ok(index) => Ok(Call::CloseTab { session_id, index }),
            Err(e) => Err(e),
        },
        Tool::Navigate => match required_str(args, "url") {
            Ok(url) => Ok(
                Call::Navigate { session_id, url, timeout_ms: optional_u64(args, "timeout") },
            ),
            Err(e) => Err(e),
        },
        Tool::TakeScreenshot => Ok(
            Call::TakeScreenshot { session_id, full_page: optional_flag(args, "fullPage") },
        ),
        Tool::TakeSnapshot => Ok(Call::TakeSnapshot { session_id }),
        Tool::Click => Ok(Call::Click { session_id, target: read_click(args) }),
        Tool::TypeText => match required_str(args, "selector") {
            Ok(selector) => match required_str(args, "text") {
                Ok(text) => Ok(
                    Call::TypeText {
                        session_id,
                        selector,
                        text,
                        clear: optional_flag(args, "clear"),
                    },
                ),
                Err(e) => Err(e),
            },
            Err(e) => Err(e),
        },
        Tool::PressKey => match required_str(args, "key") {
            Ok(key) => {
                let focus = match optional_str(args, "selector") {
                    Some(selector) => Some(
                        Focus { selector, timeout_ms: optional_ms(args, "timeout", 5000) },
                    ),
                    None => None,
                };
                Ok(Call::PressKey { session_id, key, focus })
            },
            Err(e) => Err(e),
        },
        Tool::Scroll => Ok(
            Call::Scroll {
                session_id,
                delta_x: number_default(args, "deltaX", 0),
                delta_y: number_default(args, "deltaY", 600),
                x: number_default(args, "x", 50),
                y: number_default(args, "y", 50),
            },
        ),
        Tool::MoveMouse => Ok(
            Call::MoveMouse {
                session_id,
                x: optional_number(args, "x"),
                y: optional_number(args, "y"),
            },
        ),
        Tool::WaitFor => read_wait(session_id, args),
        Tool::Evaluate => match required_str(args, "expression") {
            Ok(expression) => {
                let tab = match optional_u64(args, "tabIndex") {
                    Some(n) => Some(n as usize),
                    None => None,
                };
                Ok(Call::Evaluate { session_id, expression, tab })
            },
            Err(e) => Err(e),
        },
        Tool::ListVisits => Ok(Call::ListVisits { session_id }),
        Tool::ListConsoleMessages => Ok(
            Call::ListConsoleMessages {
                session_id,
                visit: optional_u32(args, "visit"),
                limit: log_limit(args),
            },
        ),
        Tool::ListNetworkRequests => Ok(
            Call::ListNetworkRequests {
                session_id,
                visit: optional_u32(args, "visit"),
                limit: log_limit(args),
            },
        ),
        Tool::SetStealth => Ok(
            Call::SetStealth { session_id, enabled: optional_bool(args, "enabled") },
        ),
        Tool::GetStealth => Ok(Call::GetStealth { session_id }),
        Tool::RequestTakeover => Ok(
            Call::RequestTakeover { session_id, ttl_ms: wait_ms(optional_u64(args, "ttl")) },
        ),
        Tool::SaveState => match required_str(args, "name") {
            Ok(name) => Ok(Call::SaveState { session_id, name }),
            Err(e) => Err(e),
        },
        _ => match required_str(args, "name") {
            Ok(name) => Ok(Call::LoadState { session_id, name }),
            Err(e) => Err(e),
        },
    }
}

/// Reads the arguments of a tool, or refuses them.
pub fn read_call(t: Tool, args: &Vec<(String, Json)>) -> (r: Result<Request, Refusal>)
    ensures
        call_matches(r, call_of(t, members(args@))),
{
    match t {
        Tool::OpenSession => match optional_viewport(args, "viewport") {
            Ok(viewport) => Ok(
                Call::OpenSession { viewport, use_mobile: optional_flag(args, "useMobileUA") },
            ),
            Err(e) => Err(e),
        },
        Tool::ListSessions => Ok(Call::ListSessions),
        Tool::AwaitTakeover => match required_str(args, "token") {
            Ok(token) => Ok(
                Call::AwaitTakeover { token, timeout_ms: wait_ms(optional_u64(args, "timeout")) },
            ),
            Err(e) => Err(e),
        },
        Tool::ListStates => Ok(Call::ListStates),
        Tool::DeleteState => match required_str(args, "name") {
            Ok(name) => Ok(Call::DeleteState { name }),
            Err(e) => Err(e),
        },
        _ => match required_str(args, "sessionId") {
            Ok(session_id) => read_session_call(t, session_id, args),
            Err(e) => Err(e),
        },
    }
}

// ---- what holds of the arguments ------------------------------------------

/// A tool is never called without a text that it has to be given: every required
/// argument that is a text is there and not empty.
pub proof fn law_required_texts_are_given(t: Tool, args: Members, i: int, k: int)
    requires
        call_of(t, args) is Ok,
        0 <= i < required_of(t).len(),
        0 <= k < params_of(t).len(),
        params_of(t)[k].0 == required_of(t)[i],
        params_of(t)[k].1 == Kind::Str || params_of(t)[k].1 == Kind::Url,
    ensures
        required_text(args, required_of(t)[i]) is Ok,
{
    reveal_strlit("sessionId");
    reveal_strlit("tabIndex");
    reveal_strlit("enabled");
    reveal_strlit("name");
    reveal_strlit("x");
    reveal_strlit("y");
}

/// A tool that works on a session is called on the one that was named.
pub open spec fn session_of(c: Call<Seq<char>>) -> Option<Seq<char>> {
    match c {
        Call::CloseSession { session_id } => Some(session_id),
        Call::NewPage { session_id, .. } => Some(session_id),
        Call::ListPages { session_id } => Some(session_id),
        Call::SwitchTab { session_id, .. } => Some(session_id),
        Call::CloseTab { session_id, .. } => Some(session_id),
        Call::Navigate { session_id, .. } => Some(session_id),
        Call::TakeScreenshot { session_id, .. } => Some(session_id),
        Call::TakeSnapshot { session_id } => Some(session_id),
        Call::Click { session_id, .. } => Some(session_id),
        Call::TypeText { session_id, .. } => Some(session_id),
        Call::PressKey { session_id, .. } => Some(session_id),
        Call::Scroll { session_id, .. } => Some(session_id),
        Call::MoveMouse { session_id, .. } => Some(session_id),
        Call::WaitFor { session_id, .. } => Some(session_id),
        Call::Evaluate { session_id, .. } => Some(session_id),
        Call::ListVisits { session_id } => Some(session_id),
        Call::ListConsoleMessages { session_id, .. } => Some(session_id),
        Call::ListNetworkRequests { session_id, .. } => Some(session_id),
        Call::SetStealth { session_id, .. } => Some(session_id),
        Call::GetStealth { session_id } => Some(session_id),
        Call::RequestTakeover { session_id, .. } => Some(session_id),
        Call::SaveState { session_id, .. } => Some(session_id),
        Call::LoadState { session_id, .. } => Some(session_id),
        _ => None,
    }
}

/// A tool works on the session that its arguments name, and on no other; a call
/// without a session id is refused for it.
pub proof fn law_call_is_on_its_session(t: Tool, args: Members)
    requires
        required_of(t).len() > 0,
        required_of(t)[0] == "sessionId"@,
    ensures
        match call_of(t, args) {
            Ok(c) => session_of(c) is Some && str_of(lookup(args, "sessionId"@)) == session_of(c),
            Err(_) => true,
        },
        required_text(args, "sessionId"@) is Err ==> call_of(t, args) == Read::<
            Call<Seq<char>>,
        >::Err(Failure::NotNonEmptyString { field: "sessionId"@ }),
{
    reveal_strlit("sessionId");
    reveal_strlit("token");
    reveal_strlit("name");
    assert(required_of(Tool::AwaitTakeover)[0].len() == 5);
    assert(required_of(Tool::DeleteState)[0].len() == 4);
    assert(required_of(t)[0].len() == 9);
    match required_text(args, "sessionId"@) {
        Ok(session_id) => {
            assert(call_of(t, args) == session_call(t, session_id, args));
            assert(session_call(t, session_id, args) is Ok ==> session_of(
                session_call(t, session_id, args)->Ok_0,
            ) == Some(session_id));
        },
        Err(_) => {},
    }
}

/// A link for a human, and the wait for one, last half an hour at most.
pub proof fn law_takeover_is_bounded(t: Tool, args: Members)
    ensures
        match call_of(t, args) {
            Ok(Call::RequestTakeover { ttl_ms, .. }) => ttl_ms <= 1_800_000,
            Ok(Call::AwaitTakeover { timeout_ms, .. }) => timeout_ms <= 1_800_000,
            _ => true,
        },
{
}

}
