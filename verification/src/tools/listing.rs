//! What a client is told of the tools, seen from the arguments: which tools take an
//! argument of a name, which need it, and how its schema describes it.
use vstd::prelude::*;

use crate::json::{JsonView, Number};
use crate::tools::{
    kind_schema, law_names_are_unique, params_of, properties_of, required_of, schema_of,
    tool_named, Kind, Tool,
};

verus! {

/// The tool takes an argument of the name, of the kind.
pub open spec fn takes(t: Tool, name: Seq<char>, kind: Kind) -> bool {
    params_of(t).contains((name, kind))
}

/// The tool has to be given the argument.
pub open spec fn needs(t: Tool, name: Seq<char>) -> bool {
    required_of(t).contains(name)
}

/// Each tool is reached by its name, and a name that is none of these reaches
/// nothing.
pub proof fn law_tools_have_their_names(name: Seq<char>)
    ensures
        tool_named("open_browser_session"@) == Some(Tool::OpenSession),
        tool_named("close_browser_session"@) == Some(Tool::CloseSession),
        tool_named("list_browser_sessions"@) == Some(Tool::ListSessions),
        tool_named("new_page"@) == Some(Tool::NewPage),
        tool_named("list_pages"@) == Some(Tool::ListPages),
        tool_named("switch_tab"@) == Some(Tool::SwitchTab),
        tool_named("close_tab"@) == Some(Tool::CloseTab),
        tool_named("navigate"@) == Some(Tool::Navigate),
        tool_named("take_screenshot"@) == Some(Tool::TakeScreenshot),
        tool_named("take_snapshot"@) == Some(Tool::TakeSnapshot),
        tool_named("click"@) == Some(Tool::Click),
        tool_named("type"@) == Some(Tool::TypeText),
        tool_named("press_key"@) == Some(Tool::PressKey),
        tool_named("scroll"@) == Some(Tool::Scroll),
        tool_named("move_mouse"@) == Some(Tool::MoveMouse),
        tool_named("wait_for"@) == Some(Tool::WaitFor),
        tool_named("evaluate"@) == Some(Tool::Evaluate),
        tool_named("list_visits"@) == Some(Tool::ListVisits),
        tool_named("list_console_messages"@) == Some(Tool::ListConsoleMessages),
        tool_named("list_network_requests"@) == Some(Tool::ListNetworkRequests),
        tool_named("set_stealth"@) == Some(Tool::SetStealth),
        tool_named("get_stealth"@) == Some(Tool::GetStealth),
        tool_named("request_human_takeover"@) == Some(Tool::RequestTakeover),
        tool_named("await_human_takeover"@) == Some(Tool::AwaitTakeover),
        tool_named("save_browser_state"@) == Some(Tool::SaveState),
        tool_named("load_browser_state"@) == Some(Tool::LoadState),
        tool_named("list_browser_states"@) == Some(Tool::ListStates),
        tool_named("delete_browser_state"@) == Some(Tool::DeleteState),
{
    law_names_are_unique(Tool::OpenSession, name);
    law_names_are_unique(Tool::CloseSession, name);
    law_names_are_unique(Tool::ListSessions, name);
    law_names_are_unique(Tool::NewPage, name);
    law_names_are_unique(Tool::ListPages, name);
    law_names_are_unique(Tool::SwitchTab, name);
    law_names_are_unique(Tool::CloseTab, name);
    law_names_are_unique(Tool::Navigate, name);
    law_names_are_unique(Tool::TakeScreenshot, name);
    law_names_are_unique(Tool::TakeSnapshot, name);
    law_names_are_unique(Tool::Click, name);
    law_names_are_unique(Tool::TypeText, name);
    law_names_are_unique(Tool::PressKey, name);
    law_names_are_unique(Tool::Scroll, name);
    law_names_are_unique(Tool::MoveMouse, name);
    law_names_are_unique(Tool::WaitFor, name);
    law_names_are_unique(Tool::Evaluate, name);
    law_names_are_unique(Tool::ListVisits, name);
    law_names_are_unique(Tool::ListConsoleMessages, name);
    law_names_are_unique(Tool::ListNetworkRequests, name);
    law_names_are_unique(Tool::SetStealth, name);
    law_names_are_unique(Tool::GetStealth, name);
    law_names_are_unique(Tool::RequestTakeover, name);
    law_names_are_unique(Tool::AwaitTakeover, name);
    law_names_are_unique(Tool::SaveState, name);
    law_names_are_unique(Tool::LoadState, name);
    law_names_are_unique(Tool::ListStates, name);
    law_names_are_unique(Tool::DeleteState, name);
}

/// An argument of a name is of one kind in every tool, and these are the tools that
/// take it: no tool takes more arguments than are named here.
pub proof fn law_arguments_are_taken(t: Tool)
    ensures
        !(t == Tool::OpenSession || t == Tool::ListSessions || t == Tool::AwaitTakeover || t == Tool::ListStates || t == Tool::DeleteState) ==> takes(t, "sessionId"@, Kind::Str),
        t == Tool::OpenSession ==> takes(t, "viewport"@, Kind::Viewport),
        t == Tool::OpenSession ==> takes(t, "useMobileUA"@, Kind::Bool),
        (t == Tool::NewPage || t == Tool::Navigate) ==> takes(t, "url"@, Kind::Url),
        (t == Tool::SwitchTab || t == Tool::CloseTab || t == Tool::Evaluate) ==> takes(t, "tabIndex"@, Kind::NonNegInt),
        (t == Tool::Navigate || t == Tool::Click || t == Tool::PressKey || t == Tool::WaitFor || t == Tool::AwaitTakeover) ==> takes(t, "timeout"@, Kind::PosInt),
        t == Tool::TakeScreenshot ==> takes(t, "fullPage"@, Kind::Bool),
        (t == Tool::Click || t == Tool::TypeText || t == Tool::PressKey || t == Tool::WaitFor) ==> takes(t, "selector"@, Kind::Str),
        (t == Tool::TypeText || t == Tool::WaitFor) ==> takes(t, "text"@, Kind::Str),
        (t == Tool::Click || t == Tool::Scroll || t == Tool::MoveMouse) ==> takes(t, "x"@, Kind::Num),
        (t == Tool::Click || t == Tool::Scroll || t == Tool::MoveMouse) ==> takes(t, "y"@, Kind::Num),
        t == Tool::Scroll ==> takes(t, "deltaX"@, Kind::Num),
        t == Tool::Scroll ==> takes(t, "deltaY"@, Kind::Num),
        t == Tool::TypeText ==> takes(t, "delay"@, Kind::NonNegInt),
        t == Tool::TypeText ==> takes(t, "clear"@, Kind::Bool),
        t == Tool::PressKey ==> takes(t, "key"@, Kind::Str),
        t == Tool::Evaluate ==> takes(t, "expression"@, Kind::Str),
        (t == Tool::ListConsoleMessages || t == Tool::ListNetworkRequests) ==> takes(t, "visit"@, Kind::PosInt),
        (t == Tool::ListConsoleMessages || t == Tool::ListNetworkRequests) ==> takes(t, "limit"@, Kind::PosInt),
        t == Tool::SetStealth ==> takes(t, "enabled"@, Kind::Bool),
        t == Tool::RequestTakeover ==> takes(t, "ttl"@, Kind::PosInt),
        t == Tool::AwaitTakeover ==> takes(t, "token"@, Kind::Str),
        (t == Tool::SaveState || t == Tool::LoadState || t == Tool::DeleteState) ==> takes(t, "name"@, Kind::Str),
        params_of(t).len() == (match t {
            Tool::ListSessions
            | Tool::ListStates => 0nat,
            Tool::CloseSession
            | Tool::ListPages
            | Tool::TakeSnapshot
            | Tool::ListVisits
            | Tool::GetStealth
            | Tool::DeleteState => 1nat,
            Tool::Navigate
            | Tool::MoveMouse
            | Tool::Evaluate
            | Tool::ListConsoleMessages
            | Tool::ListNetworkRequests => 3nat,
            Tool::PressKey
            | Tool::WaitFor => 4nat,
            Tool::Click
            | Tool::TypeText
            | Tool::Scroll => 5nat,
            _ => 2nat,
        }),
{
    let ps = params_of(t);
    assert(ps.len() > 0 ==> ps[0] == ps[0]);
    assert(ps.len() > 1 ==> ps[1] == ps[1]);
    assert(ps.len() > 2 ==> ps[2] == ps[2]);
    assert(ps.len() > 3 ==> ps[3] == ps[3]);
    assert(ps.len() > 4 ==> ps[4] == ps[4]);
}

/// These are the tools that have to be given an argument: no tool needs more than
/// are named here.
pub proof fn law_arguments_are_needed(t: Tool)
    ensures
        !(t == Tool::OpenSession || t == Tool::ListSessions || t == Tool::AwaitTakeover || t == Tool::ListStates || t == Tool::DeleteState) ==> needs(t, "sessionId"@),
        (t == Tool::SwitchTab || t == Tool::CloseTab) ==> needs(t, "tabIndex"@),
        t == Tool::Navigate ==> needs(t, "url"@),
        t == Tool::TypeText ==> needs(t, "selector"@),
        t == Tool::TypeText ==> needs(t, "text"@),
        t == Tool::PressKey ==> needs(t, "key"@),
        t == Tool::MoveMouse ==> needs(t, "x"@),
        t == Tool::MoveMouse ==> needs(t, "y"@),
        t == Tool::Evaluate ==> needs(t, "expression"@),
        t == Tool::SetStealth ==> needs(t, "enabled"@),
        t == Tool::AwaitTakeover ==> needs(t, "token"@),
        (t == Tool::SaveState || t == Tool::LoadState || t == Tool::DeleteState) ==> needs(t, "name"@),
        required_of(t).len() == (match t {
            Tool::OpenSession
            | Tool::ListSessions
            | Tool::ListStates => 0nat,
            Tool::SwitchTab
            | Tool::CloseTab
            | Tool::Navigate
            | Tool::PressKey
            | Tool::Evaluate
            | Tool::SetStealth
            | Tool::SaveState
            | Tool::LoadState => 2nat,
            Tool::TypeText
            | Tool::MoveMouse => 3nat,
            _ => 1nat,
        }),
{
    let rs = required_of(t);
    assert(rs.len() > 0 ==> rs[0] == rs[0]);
    assert(rs.len() > 1 ==> rs[1] == rs[1]);
    assert(rs.len() > 2 ==> rs[2] == rs[2]);
}

/// The type that the schema of an argument names.
pub open spec fn named_type(k: Kind) -> Seq<char> {
    match k {
        Kind::Str | Kind::Url => "string"@,
        Kind::Bool => "boolean"@,
        Kind::PosInt | Kind::NonNegInt => "integer"@,
        Kind::Num => "number"@,
        Kind::Viewport => "object"@,
    }
}

/// A schema is that of an object which has every argument that is taken, each
/// under its name, with the type of its kind, asks for exactly those that are
/// needed, and allows no other.
pub proof fn law_schema_describes_the_arguments(
    params: Seq<(Seq<char>, Kind)>,
    required: Seq<Seq<char>>,
    i: int,
)
    requires
        0 <= i < params.len(),
    ensures
        ({
            let schema = schema_of(params, required);
            let props = properties_of(params);
            let names = required.map_values(|s: Seq<char>| JsonView::Str(s));
            &&& schema[0] == ("type"@, JsonView::Str("object"@))
            &&& schema[1] == ("properties"@, JsonView::Object(props))
            &&& schema.last() == ("additionalProperties"@, JsonView::Bool(false))
            &&& required.len() > 0 ==> schema.len() == 4 && schema[2] == (
                "required"@,
                JsonView::Array(names),
            )
            &&& required.len() == 0 ==> schema.len() == 3
            &&& props.len() == params.len()
            &&& props[i].0 == params[i].0
            &&& props[i].1 matches JsonView::Object(ms) && ms[0] == (
                "type"@,
                JsonView::Str(named_type(params[i].1)),
            )
        }),
{
}

/// A whole number has its lower limit in its schema, an address its format, and a
/// size both of its sides, which are whole numbers above zero and are needed.
pub proof fn law_kinds_are_described()
    ensures
        ({
            let least = |n: u64| ("minimum"@, JsonView::Number(Number::Unsigned(n)));
            let typed = |t: Seq<char>| ("type"@, JsonView::Str(t));
            let side = JsonView::Object(seq![typed("integer"@), least(1)]);
            &&& kind_schema(Kind::PosInt) == side
            &&& kind_schema(Kind::NonNegInt) == JsonView::Object(
                seq![typed("integer"@), least(0)],
            )
            &&& kind_schema(Kind::Url) == JsonView::Object(
                seq![typed("string"@), ("format"@, JsonView::Str("uri"@))],
            )
            &&& kind_schema(Kind::Viewport) == JsonView::Object(
                seq![
                    typed("object"@),
                    ("properties"@, JsonView::Object(seq![("width"@, side), ("height"@, side)])),
                    (
                        "required"@,
                        JsonView::Array(seq![JsonView::Str("width"@), JsonView::Str("height"@)]),
                    ),
                    ("additionalProperties"@, JsonView::Bool(false)),
                ],
            )
        }),
{
}

}
