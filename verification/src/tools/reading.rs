//! What the arguments of a call mean.
//!
//! A tool does what its arguments say: each is read by its name, what is left out
//! has its default, and what is of another kind than it should be counts as left
//! out.
use vstd::prelude::*;

use crate::error::Failure;
use crate::json::{lookup, JsonView, Number};
use crate::sessions::Viewport;
use crate::tools::args::{call_of, Call, ClickTarget, Condition, Focus, Members, Read};
use crate::tools::Tool;

verus! {

// ---- what an argument says ------------------------------------------------

/// The text that an argument gives.
pub open spec fn text_in(args: Members, key: Seq<char>) -> Option<Seq<char>> {
    match lookup(args, key) {
        Some(JsonView::Str(s)) => Some(s),
        _ => None,
    }
}

/// The truth value that an argument gives; what is left out is false.
pub open spec fn truth_in(args: Members, key: Seq<char>) -> bool {
    lookup(args, key) == Some(JsonView::Bool(true))
}

/// The whole number, not negative, that an argument gives.
pub open spec fn whole_in(args: Members, key: Seq<char>) -> Option<u64> {
    match lookup(args, key) {
        Some(JsonView::Number(Number::Unsigned(n))) => Some(n),
        _ => None,
    }
}

/// The whole number that an argument gives, or what it is otherwise.
pub open spec fn whole_or(args: Members, key: Seq<char>, otherwise: u64) -> u64 {
    match whole_in(args, key) {
        Some(n) => n,
        None => otherwise,
    }
}

/// The number that an argument gives.
pub open spec fn number_in(args: Members, key: Seq<char>) -> Option<Number> {
    match lookup(args, key) {
        Some(JsonView::Number(n)) => Some(n),
        _ => None,
    }
}

/// The number that an argument gives, or what it is otherwise.
pub open spec fn number_otherwise(args: Members, key: Seq<char>, otherwise: u64) -> Number {
    match number_in(args, key) {
        Some(n) => n,
        None => Number::Unsigned(otherwise),
    }
}

/// An argument gives a text that is not empty.
pub open spec fn gives(args: Members, key: Seq<char>, s: Seq<char>) -> bool {
    s.len() > 0 && lookup(args, key) == Some(JsonView::Str(s))
}

/// An argument gives no text, or an empty one.
pub open spec fn lacks(args: Members, key: Seq<char>) -> bool {
    text_in(args, key) is None || text_in(args, key) == Some(Seq::<char>::empty())
}

/// The arguments are read as this call.
pub open spec fn reads(t: Tool, args: Members, call: Call<Seq<char>>) -> bool {
    call_of(t, args) == Read::<Call<Seq<char>>>::Ok(call)
}

/// The arguments are refused for a text that is missing.
pub open spec fn wants(t: Tool, args: Members, field: Seq<char>) -> bool {
    call_of(t, args) == Read::<Call<Seq<char>>>::Err(Failure::NotNonEmptyString { field })
}

// ---- sessions and tabs ----------------------------------------------------

/// Tools that need no more than a session read that, and ones that need nothing
/// read nothing.
pub proof fn law_session_alone_is_read(args: Members, session_id: Seq<char>)
    requires
        gives(args, "sessionId"@, session_id),
    ensures
        reads(Tool::CloseSession, args, Call::CloseSession { session_id }),
        reads(Tool::ListPages, args, Call::ListPages { session_id }),
        reads(Tool::TakeSnapshot, args, Call::TakeSnapshot { session_id }),
        reads(Tool::ListVisits, args, Call::ListVisits { session_id }),
        reads(Tool::GetStealth, args, Call::GetStealth { session_id }),
        reads(Tool::ListSessions, args, Call::ListSessions),
        reads(Tool::ListStates, args, Call::ListStates),
{
}

/// A session opens with the size and the kind of user agent that are given. A size
/// that is no object, or has a side that is no whole number above zero, is refused
/// for that; none is needed.
pub proof fn law_opening_is_read(args: Members, ms: Members, w: u64, h: u64)
    requires
        0 < w <= i64::MAX,
        0 < h <= i64::MAX,
    ensures
        lookup(args, "viewport"@) is None ==> reads(
            Tool::OpenSession,
            args,
            Call::OpenSession { viewport: None, use_mobile: truth_in(args, "useMobileUA"@) },
        ),
        lookup(args, "viewport"@) == Some(JsonView::Object(ms)) && lookup(ms, "width"@) == Some(
            JsonView::Number(Number::Unsigned(w)),
        ) && lookup(ms, "height"@) == Some(JsonView::Number(Number::Unsigned(h))) ==> reads(
            Tool::OpenSession,
            args,
            Call::OpenSession {
                viewport: Some(Viewport { width: w as i64, height: h as i64 }),
                use_mobile: truth_in(args, "useMobileUA"@),
            },
        ),
        lookup(args, "viewport"@) is Some && !(lookup(args, "viewport"@)->0 is Object) ==> call_of(
            Tool::OpenSession,
            args,
        ) == Read::<Call<Seq<char>>>::Err(Failure::ViewportNotObject { field: "viewport"@ }),
        lookup(args, "viewport"@) == Some(JsonView::Object(ms)) && !(lookup(ms, "width"@)
            matches Some(JsonView::Number(Number::Unsigned(n))) && 0 < n <= i64::MAX) && !(lookup(
            ms,
            "width"@,
        ) matches Some(JsonView::Number(Number::Negative(n))) && n > 0) ==> call_of(
            Tool::OpenSession,
            args,
        ) == Read::<Call<Seq<char>>>::Err(Failure::ViewportWidth { field: "viewport"@ }),
        lookup(args, "viewport"@) == Some(JsonView::Object(ms)) && lookup(ms, "width"@) == Some(
            JsonView::Number(Number::Unsigned(w)),
        ) && !(lookup(ms, "height"@) matches Some(JsonView::Number(Number::Unsigned(n))) && 0 < n
            <= i64::MAX) && !(lookup(ms, "height"@) matches Some(
            JsonView::Number(Number::Negative(n)),
        ) && n > 0) ==> call_of(Tool::OpenSession, args) == Read::<Call<Seq<char>>>::Err(
            Failure::ViewportHeight { field: "viewport"@ },
        ),
{
}

/// A tab opens with the address that is given, if any. The tab to switch to or to
/// close is the one whose index is given, and one has to be.
pub proof fn law_tabs_are_read(args: Members, session_id: Seq<char>)
    requires
        gives(args, "sessionId"@, session_id),
    ensures
        reads(Tool::NewPage, args, Call::NewPage { session_id, url: text_in(args, "url"@) }),
        match whole_in(args, "tabIndex"@) {
            Some(n) => n <= usize::MAX ==> {
                &&& reads(
                    Tool::SwitchTab,
                    args,
                    Call::SwitchTab { session_id, index: n as usize },
                )
                &&& reads(Tool::CloseTab, args, Call::CloseTab { session_id, index: n as usize })
            },
            None => {
                &&& call_of(Tool::SwitchTab, args) == Read::<Call<Seq<char>>>::Err(
                    Failure::TabIndexRequired,
                )
                &&& call_of(Tool::CloseTab, args) == Read::<Call<Seq<char>>>::Err(
                    Failure::TabIndexRequired,
                )
            },
        },
{
}

// ---- pages ----------------------------------------------------------------

/// A page is sent to the address that is given, within the time that is given if
/// any; a picture is of the whole page only where that is asked for.
pub proof fn law_navigation_is_read(args: Members, session_id: Seq<char>, url: Seq<char>)
    requires
        gives(args, "sessionId"@, session_id),
    ensures
        gives(args, "url"@, url) ==> reads(
            Tool::Navigate,
            args,
            Call::Navigate { session_id, url, timeout_ms: whole_in(args, "timeout"@) },
        ),
        lacks(args, "url"@) ==> wants(Tool::Navigate, args, "url"@),
        reads(
            Tool::TakeScreenshot,
            args,
            Call::TakeScreenshot { session_id, full_page: truth_in(args, "fullPage"@) },
        ),
{
}

/// A click goes to the selector that is given, after up to five seconds or the
/// time that is given; without one it goes to the point `x`, `y`, and without both
/// of these nowhere.
pub proof fn law_click_is_read(args: Members, session_id: Seq<char>)
    requires
        gives(args, "sessionId"@, session_id),
    ensures
        reads(
            Tool::Click,
            args,
            Call::Click {
                session_id,
                target: match (
                    text_in(args, "selector"@),
                    number_in(args, "x"@),
                    number_in(args, "y"@),
                ) {
                    (Some(selector), _, _) => Some(
                        ClickTarget::Selector {
                            selector,
                            timeout_ms: whole_or(args, "timeout"@, 5000),
                        },
                    ),
                    (None, Some(x), Some(y)) => Some(ClickTarget::Point { x, y }),
                    _ => None,
                },
            },
        ),
{
}

/// The text that is given goes into the selector that is given, which is emptied
/// first only where that is asked for; both have to be given.
pub proof fn law_typing_is_read(
    args: Members,
    session_id: Seq<char>,
    selector: Seq<char>,
    text: Seq<char>,
)
    requires
        gives(args, "sessionId"@, session_id),
    ensures
        gives(args, "selector"@, selector) && gives(args, "text"@, text) ==> reads(
            Tool::TypeText,
            args,
            Call::TypeText { session_id, selector, text, clear: truth_in(args, "clear"@) },
        ),
        lacks(args, "selector"@) ==> wants(Tool::TypeText, args, "selector"@),
        gives(args, "selector"@, selector) && lacks(args, "text"@) ==> wants(
            Tool::TypeText,
            args,
            "text"@,
        ),
{
}

/// The key that is given is pressed, on the selector that is given if any, after
/// up to five seconds or the time that is given.
pub proof fn law_key_is_read(args: Members, session_id: Seq<char>, key: Seq<char>)
    requires
        gives(args, "sessionId"@, session_id),
    ensures
        gives(args, "key"@, key) ==> reads(
            Tool::PressKey,
            args,
            Call::PressKey {
                session_id,
                key,
                focus: match text_in(args, "selector"@) {
                    Some(selector) => Some(
                        Focus { selector, timeout_ms: whole_or(args, "timeout"@, 5000) },
                    ),
                    None => None,
                },
            },
        ),
        lacks(args, "key"@) ==> wants(Tool::PressKey, args, "key"@),
{
}

/// The wheel turns by `deltaX` and `deltaY`, 0 and 600 if left out, at the point
/// `x`, `y`, 50 and 50 if left out; the mouse moves to the point `x`, `y`.
pub proof fn law_mouse_is_read(args: Members, session_id: Seq<char>)
    requires
        gives(args, "sessionId"@, session_id),
    ensures
        reads(
            Tool::Scroll,
            args,
            Call::Scroll {
                session_id,
                delta_x: number_otherwise(args, "deltaX"@, 0),
                delta_y: number_otherwise(args, "deltaY"@, 600),
                x: number_otherwise(args, "x"@, 50),
                y: number_otherwise(args, "y"@, 50),
            },
        ),
        reads(
            Tool::MoveMouse,
            args,
            Call::MoveMouse {
                session_id,
                x: number_in(args, "x"@),
                y: number_in(args, "y"@),
            },
        ),
{
}

/// The wait is for the selector that is given, or else for the text, for up to ten
/// seconds or the time that is given; one of the two has to be given.
pub proof fn law_waiting_is_read(args: Members, session_id: Seq<char>)
    requires
        gives(args, "sessionId"@, session_id),
    ensures
        match (text_in(args, "selector"@), text_in(args, "text"@)) {
            (Some(selector), _) => reads(
                Tool::WaitFor,
                args,
                Call::WaitFor {
                    session_id,
                    condition: Condition::Selector { selector },
                    timeout_ms: whole_or(args, "timeout"@, 10000),
                },
            ),
            (None, Some(text)) => reads(
                Tool::WaitFor,
                args,
                Call::WaitFor {
                    session_id,
                    condition: Condition::Text { text },
                    timeout_ms: whole_or(args, "timeout"@, 10000),
                },
            ),
            (None, None) => call_of(Tool::WaitFor, args) == Read::<Call<Seq<char>>>::Err(
                Failure::WaitTarget,
            ),
        },
{
}

/// The expression that is given is run in the tab whose index is given, or in none
/// that is named.
pub proof fn law_expression_is_read(args: Members, session_id: Seq<char>, expression: Seq<char>)
    requires
        gives(args, "sessionId"@, session_id),
    ensures
        gives(args, "expression"@, expression) ==> match whole_in(args, "tabIndex"@) {
            Some(n) => n <= usize::MAX ==> reads(
                Tool::Evaluate,
                args,
                Call::Evaluate { session_id, expression, tab: Some(n as usize) },
            ),
            None => reads(
                Tool::Evaluate,
                args,
                Call::Evaluate { session_id, expression, tab: None },
            ),
        },
        lacks(args, "expression"@) ==> wants(Tool::Evaluate, args, "expression"@),
{
}

// ---- logs, stealth, takeover, saved states --------------------------------

/// Of a log up to 500 entries are wanted, or as many as are given, and of the
/// visit that is given if any.
pub proof fn law_log_is_read(args: Members, session_id: Seq<char>)
    requires
        gives(args, "sessionId"@, session_id),
    ensures
        ({
            let visit = match whole_in(args, "visit"@) {
                Some(n) => if n <= u32::MAX {
                    Some(n as u32)
                } else {
                    None
                },
                None => None,
            };
            let limit = whole_or(args, "limit"@, 500);
            limit <= usize::MAX ==> {
                &&& reads(
                    Tool::ListConsoleMessages,
                    args,
                    Call::ListConsoleMessages { session_id, visit, limit: limit as usize },
                )
                &&& reads(
                    Tool::ListNetworkRequests,
                    args,
                    Call::ListNetworkRequests { session_id, visit, limit: limit as usize },
                )
            }
        }),
{
}

/// Stealth is set to what is given, which is told only once the session is found.
pub proof fn law_stealth_is_read(args: Members, session_id: Seq<char>, on: bool)
    requires
        gives(args, "sessionId"@, session_id),
    ensures
        lookup(args, "enabled"@) == Some(JsonView::Bool(on)) ==> reads(
            Tool::SetStealth,
            args,
            Call::SetStealth { session_id, enabled: Some(on) },
        ),
        !(lookup(args, "enabled"@) matches Some(JsonView::Bool(_))) ==> reads(
            Tool::SetStealth,
            args,
            Call::SetStealth { session_id, enabled: None },
        ),
{
}

/// The smaller of a time and half an hour; five minutes where none is given.
pub open spec fn within_half_an_hour(ms: Option<u64>) -> u64 {
    match ms {
        Some(n) => if n <= 1_800_000 {
            n
        } else {
            1_800_000
        },
        None => 300_000,
    }
}

/// A link lasts, and a wait for a human takes, as long as is given, five minutes
/// if nothing is, and half an hour at most.
pub proof fn law_takeover_is_read(args: Members, session_id: Seq<char>, token: Seq<char>)
    ensures
        gives(args, "sessionId"@, session_id) ==> reads(
            Tool::RequestTakeover,
            args,
            Call::RequestTakeover {
                session_id,
                ttl_ms: within_half_an_hour(whole_in(args, "ttl"@)),
            },
        ),
        gives(args, "token"@, token) ==> reads(
            Tool::AwaitTakeover,
            args,
            Call::AwaitTakeover {
                token,
                timeout_ms: within_half_an_hour(whole_in(args, "timeout"@)),
            },
        ),
        lacks(args, "token"@) ==> wants(Tool::AwaitTakeover, args, "token"@),
{
}

/// Cookies are saved, loaded and deleted under the name that is given.
pub proof fn law_saved_name_is_read(args: Members, session_id: Seq<char>, name: Seq<char>)
    ensures
        gives(args, "sessionId"@, session_id) && gives(args, "name"@, name) ==> {
            &&& reads(Tool::SaveState, args, Call::SaveState { session_id, name })
            &&& reads(Tool::LoadState, args, Call::LoadState { session_id, name })
        },
        gives(args, "name"@, name) ==> reads(Tool::DeleteState, args, Call::DeleteState { name }),
        gives(args, "sessionId"@, session_id) && lacks(args, "name"@) ==> {
            &&& wants(Tool::SaveState, args, "name"@)
            &&& wants(Tool::LoadState, args, "name"@)
        },
        lacks(args, "name"@) ==> wants(Tool::DeleteState, args, "name"@),
{
}

/// A tool on a session is refused without one, before anything else is looked at.
pub proof fn law_session_is_wanted(t: Tool, args: Members)
    requires
        lacks(args, "sessionId"@),
        !(t is OpenSession),
        !(t is ListSessions),
        !(t is AwaitTakeover),
        !(t is ListStates),
        !(t is DeleteState),
    ensures
        wants(t, args, "sessionId"@),
{
}

}
