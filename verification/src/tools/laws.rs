//! What each tool does from its call to its answer.
//!
//! A law of a tool follows a call through whatever comes of its actions: what is
//! done is what the call asks for, on the session and the page that it names, and
//! the answer is given once that is done.
use vstd::prelude::*;

use crate::json::{JsonView, Number};
use crate::outside::{base64_text, json_quoted};
use crate::sessions::{is_session_list, pages_of, InfoView, TargetView, Viewport};
use crate::takeover::{is_ctx, TicketView};
use crate::text::{decimal, joined, without_trailing};
use crate::tools::args::{session_of, Call, ClickTarget, Condition, Focus};
use crate::tools::cookies::settable;
use crate::tools::keys::{KeyAction, KeyDef, KeyEvent};
use crate::tools::logs::{
    console_lines, console_reply, console_values, network_lines, network_reply, network_values,
    short_id, visit_list_reply, ConsoleEntry, Entry, EntryView, NetworkEntry, VisitView,
};
use crate::tools::reply::{
    awaited_text, session_list_reply, state_list_reply, stealth_text, tab_list_reply, Content,
    ReplyView, SummaryView,
};
use crate::tools::run::{
    first_action, next_action, next_run, proper, run_suits, ActionView, Chain, NewsView,
    RunView,
};
use crate::tools::script::World;

verus! {

// ---- what is said of a call -----------------------------------------------

/// A call at its start.
pub open spec fn begun(call: Call<Seq<char>>) -> RunView {
    RunView { call, target_id: seq![], action: first_action(call) }
}

/// The call is over and its answer is this text alone.
pub open spec fn says(run: RunView, text: Seq<char>) -> bool {
    run.action == ActionView::Done(
        ReplyView { content: seq![Content::Text(text)], structured: None, is_error: false },
    )
}

/// The call is over and its answer is this text and these members.
pub open spec fn tells(
    run: RunView,
    text: Seq<char>,
    members: Seq<(Seq<char>, JsonView)>,
) -> bool {
    run.action == ActionView::Done(
        ReplyView {
            content: seq![Content::Text(text)],
            structured: Some(JsonView::Object(members)),
            is_error: false,
        },
    )
}

/// The call is over and has failed with this one text.
pub open spec fn fails(run: RunView, text: Seq<char>) -> bool {
    run.action == ActionView::Failed(seq![text])
}

/// A whole number as a value.
pub open spec fn number(n: int) -> JsonView {
    JsonView::Number(Number::Unsigned(n as u64))
}

/// A text as a value, or null.
pub open spec fn text_or_nothing(s: Option<Seq<char>>) -> JsonView {
    match s {
        Some(s) => JsonView::Str(s),
        None => JsonView::Null,
    }
}

/// The call once a page was found for it.
pub open spec fn on_page(call: Call<Seq<char>>, page: Seq<char>) -> RunView {
    next_run(begun(call), NewsView::Page(Ok(page)))
}

/// The call once its session was found.
pub open spec fn on_session(call: Call<Seq<char>>) -> RunView {
    next_run(begun(call), NewsView::Answer(Ok(())))
}

/// What a run was asked to do was done.
pub open spec fn then_done(run: RunView) -> RunView {
    next_run(run, NewsView::Answer(Ok(())))
}

// ---- every call -----------------------------------------------------------

/// The session that an action names.
pub open spec fn session_named(action: ActionView) -> Option<Seq<char>> {
    match action {
        ActionView::CloseSession { session_id } => Some(session_id),
        ActionView::OpenTab { session_id, .. } => Some(session_id),
        ActionView::CountPages { session_id } => Some(session_id),
        ActionView::ListTabs { session_id } => Some(session_id),
        ActionView::SwitchTo { session_id, .. } => Some(session_id),
        ActionView::CloseAt { session_id, .. } => Some(session_id),
        ActionView::FindPage { session_id, .. } => Some(session_id),
        ActionView::FindSession { session_id } => Some(session_id),
        ActionView::FindTarget { session_id, .. } => Some(session_id),
        ActionView::CheckFlag { session_id } => Some(session_id),
        ActionView::ReadVisits { session_id } => Some(session_id),
        ActionView::ReadLog { session_id, .. } => Some(session_id),
        ActionView::SetFlag { session_id, .. } => Some(session_id),
        ActionView::WriteTicket { ticket, .. } => Some(ticket.session_id),
        ActionView::GetCookies { session_id } => Some(session_id),
        ActionView::SetCookies { session_id, .. } => Some(session_id),
        _ => None,
    }
}

/// A call touches no session but the one that it names: whatever action names a
/// session, from the first one on and whatever comes of the others, names that
/// of the call.
pub proof fn law_only_the_named_session_is_touched(
    call: Call<Seq<char>>,
    target_id: Seq<char>,
    action: ActionView,
    news: NewsView,
)
    ensures
        session_named(first_action(call)) is Some ==> session_named(first_action(call))
            == session_of(call),
        proper(call, action) && run_suits(call, action, news) && (session_named(action) is Some
            ==> session_named(action) == session_of(call)) ==> (session_named(
            next_action(call, target_id, action, news),
        ) is Some ==> session_named(next_action(call, target_id, action, news)) == session_of(call)),
{
}

/// A call works on the page that was found for it: finding a page makes it the
/// page of the call, and nothing else changes which it is.
pub proof fn law_found_page_is_the_page(run: RunView, news: NewsView, page: Seq<char>)
    ensures
        next_run(run, NewsView::Page(Ok(page))).target_id == page,
        !(news is Page) ==> next_run(run, news).target_id == run.target_id,
        begun(run.call).target_id.len() == 0,
{
}

/// The error that news tell of, if they tell of one.
pub open spec fn error_in(news: NewsView) -> Option<Chain> {
    match news {
        NewsView::Opened(Err(e)) => Some(e),
        NewsView::Targets(Err(e)) => Some(e),
        NewsView::Page(Err(e)) => Some(e),
        NewsView::Count(Err(e)) => Some(e),
        NewsView::Tabs(Err(e)) => Some(e),
        NewsView::Answer(Err(e)) => Some(e),
        NewsView::Url(Err(e)) => Some(e),
        NewsView::Picture(Err(e)) => Some(e),
        NewsView::Text(Err(e)) => Some(e),
        NewsView::Value(Err(e)) => Some(e),
        NewsView::Visits(Err(e)) => Some(e),
        NewsView::Log(Err(e)) => Some(e),
        NewsView::Token(Err(e)) => Some(e),
        NewsView::Cookies(Err(e)) => Some(e),
        NewsView::Saved(Err(e)) => Some(e),
        NewsView::States(Err(e)) => Some(e),
        NewsView::Removed(Err(e)) => Some(e),
        _ => None,
    }
}

/// No error is passed over: where an action fails the call fails, with that error
/// behind at most one word on what was tried.
pub proof fn law_errors_come_out(
    call: Call<Seq<char>>,
    target_id: Seq<char>,
    action: ActionView,
    news: NewsView,
)
    requires
        proper(call, action),
        run_suits(call, action, news),
        error_in(news) is Some,
    ensures
        ({
            let e = error_in(news)->0;
            match next_action(call, target_id, action, news) {
                ActionView::Failed(chain) => {
                    &&& e.len() <= chain.len() <= e.len() + 1
                    &&& chain.skip(chain.len() - e.len()) == e
                },
                _ => false,
            }
        }),
{
    let e = error_in(news)->0;
    let next = next_action(call, target_id, action, news);
    if let ActionView::Failed(chain) = next {
        assert(e.skip(0) =~= e);
        assert(chain.skip(chain.len() - e.len()) =~= e);
    }
}

/// The words on what was tried, by what failed.
pub proof fn law_errors_say_what_failed(
    call: Call<Seq<char>>,
    t: Seq<char>,
    a: Seq<char>,
    b: Seq<char>,
    x: Number,
    y: Number,
    down: KeyEvent<Seq<char>>,
    up: KeyEvent<Seq<char>>,
    flag: bool,
    time: Option<u64>,
    cookies: Seq<JsonView>,
    n: usize,
    e: Chain,
)
    ensures
        ({
            let failed = |action: ActionView| next_action(call, t, action, NewsView::Answer(Err(e)));
            let said = |what: Seq<char>| ActionView::Failed(seq![what] + e);
            &&& failed(ActionView::Goto { url: a, timeout_ms: time }) == said("Page.navigate"@)
            &&& failed(ActionView::ClickAt { x, y, label: a }) == said("clicking "@ + a)
            &&& failed(ActionView::FindElement { selector: a }) == said("locating "@ + a)
            &&& failed(ActionView::TypeInto { selector: a, text: b }) == said("typing into "@ + a)
            &&& failed(ActionView::PressOn { selector: a, key: b }) == said("pressing "@ + b)
            &&& failed(ActionView::KeyDown { down, up }) == said("Input.dispatchKeyEvent (down)"@)
            &&& failed(ActionView::KeyUp { up }) == said("Input.dispatchKeyEvent (up)"@)
            &&& failed(ActionView::Wheel { x, y, delta_x: x, delta_y: y }) == said(
                "Input.dispatchMouseEvent"@,
            )
            &&& failed(ActionView::MoveTo { x, y }) == said("Input.dispatchMouseEvent (move)"@)
            &&& failed(ActionView::SetFlag { session_id: a, present: flag }) == said(
                "writing stealth flag"@,
            )
            &&& failed(ActionView::SetCookies { session_id: a, cookies, total: n }) == said(
                "Storage.setCookies"@,
            )
            &&& failed(ActionView::FindSession { session_id: a }) == ActionView::Failed(e)
            &&& failed(ActionView::CloseAt { session_id: a, index: n }) == ActionView::Failed(e)
        }),
{
}

// ---- sessions and tabs ----------------------------------------------------

/// A session is opened as asked for, and the answer tells of the one that came.
pub proof fn law_open_session(viewport: Option<Viewport>, use_mobile: bool, info: InfoView)
    ensures
        ({
            let start = begun(Call::OpenSession { viewport, use_mobile });
            &&& start.action == (ActionView::OpenSession { viewport, use_mobile })
            &&& tells(
                next_run(start, NewsView::Opened(Ok(info))),
                "Opened session "@ + info.session_id,
                seq![
                    ("sessionId"@, JsonView::Str(info.session_id)),
                    ("pageCount"@, number(info.page_count as int)),
                    ("activeUrl"@, text_or_nothing(info.active_url)),
                ],
            )
        }),
{
    assert(crate::tools::reply::text_or_null(info.active_url) == text_or_nothing(info.active_url));
}

/// The session that is named is closed, and the answer says so.
pub proof fn law_close_session(session_id: Seq<char>)
    ensures
        ({
            let start = begun(Call::CloseSession { session_id });
            &&& start.action == (ActionView::CloseSession { session_id })
            &&& says(next_run(start, NewsView::Noted), "Closed session "@ + session_id)
        }),
{
}

/// A tab is opened in the session, with the address that is given if any; once it
/// is there and the pages are counted, the answer tells of it as the last of them,
/// and where it is.
pub proof fn law_new_page(
    session_id: Seq<char>,
    url: Option<Seq<char>>,
    page: Seq<char>,
    open: usize,
    at: Option<Seq<char>>,
)
    requires
        open > 0,
    ensures
        ({
            let call = Call::NewPage { session_id, url };
            let counted = next_run(on_page(call, page), NewsView::Count(Ok(open)));
            let here = match at {
                Some(u) => u,
                None => ""@,
            };
            &&& begun(call).action == (ActionView::OpenTab { session_id, url })
            &&& on_page(call, page).action == (ActionView::CountPages { session_id })
            &&& on_page(call, page).target_id == page
            &&& counted.action is ReadUrl && counted.target_id == page
            &&& tells(
                next_run(counted, NewsView::Url(Ok(at))),
                "Opened tab #"@ + decimal((open - 1) as nat),
                seq![("index"@, number(open - 1)), ("url"@, JsonView::Str(here))],
            )
        }),
{
}

/// The tabs of the named session are listed.
pub proof fn law_list_pages(
    session_id: Seq<char>,
    tabs: Seq<TargetView>,
    active: Option<Seq<char>>,
)
    ensures
        ({
            let start = begun(Call::ListPages { session_id });
            &&& start.action == (ActionView::ListTabs { session_id })
            &&& next_run(start, NewsView::Tabs(Ok((tabs, active)))).action == ActionView::Done(
                tab_list_reply(tabs, active),
            )
        }),
{
}

/// A listing of tabs has a line and a value for each, in their order, numbered
/// from zero; exactly the active one is marked.
pub proof fn law_tabs_are_listed(tabs: Seq<TargetView>, active: Option<Seq<char>>)
    ensures
        exists|lines: Seq<Seq<char>>, values: Seq<JsonView>|
            {
                &&& lines.len() == tabs.len()
                &&& values.len() == tabs.len()
                &&& forall|i: int|
                    0 <= i < tabs.len() ==> {
                        let marked = active == Some(tabs[i].target_id);
                        &&& #[trigger] lines[i] == (if marked {
                            "* "@
                        } else {
                            "  "@
                        }) + decimal(i as nat) + ": "@ + tabs[i].url + "  \""@ + tabs[i].title
                            + "\""@
                        &&& #[trigger] values[i] == JsonView::Object(
                            seq![
                                ("index"@, number(i)),
                                ("url"@, JsonView::Str(tabs[i].url)),
                                ("title"@, JsonView::Str(tabs[i].title)),
                                ("active"@, JsonView::Bool(marked)),
                            ],
                        )
                    }
                &&& tab_list_reply(tabs, active) == #[trigger] listing(
                    lines,
                    "(no pages)"@,
                    "pages"@,
                    values,
                )
            },
{
    let r = tab_list_reply(tabs, active);
    let lines = Seq::new(tabs.len(), |i: int| crate::tools::reply::tab_line(i, tabs[i], active));
    let values = Seq::new(tabs.len(), |i: int| crate::tools::reply::tab_json(i, tabs[i], active));
    assert(r == listing(lines, "(no pages)"@, "pages"@, values));
}

/// An answer that lists things: their lines, or a word where there is none, and
/// their values under a name.
pub open spec fn listing(
    lines: Seq<Seq<char>>,
    none: Seq<char>,
    name: Seq<char>,
    values: Seq<JsonView>,
) -> ReplyView {
    ReplyView {
        content: seq![
            Content::Text(
                if lines.len() == 0 {
                    none
                } else {
                    joined(lines, "\n"@)
                },
            ),
        ],
        structured: Some(JsonView::Object(seq![(name, JsonView::Array(values))])),
        is_error: false,
    }
}

/// All sessions that have tabs are listed, and no others: the list is made of what
/// Chrome says its targets are.
pub proof fn law_list_sessions(all: Seq<TargetView>, list: Seq<InfoView>)
    requires
        is_session_list(pages_of(all), list),
    ensures
        begun(Call::ListSessions).action == ActionView::ListTargets,
        next_run(begun(Call::ListSessions), NewsView::Targets(Ok(all))).action
            == ActionView::Done(session_list_reply(list)),
{
    let l = crate::sessions::sessions_of(pages_of(all));
    crate::sessions::law_session_list_is_unique(pages_of(all), l, list);
}

/// A listing of sessions has a line and a value for each, in their order.
pub proof fn law_sessions_are_listed(list: Seq<InfoView>)
    ensures
        exists|lines: Seq<Seq<char>>, values: Seq<JsonView>|
            {
                &&& lines.len() == list.len()
                &&& values.len() == list.len()
                &&& forall|i: int|
                    0 <= i < list.len() ==> {
                        let url = match list[i].active_url {
                            Some(u) => u,
                            None => "(none)"@,
                        };
                        &&& #[trigger] lines[i] == "- "@ + list[i].session_id + "  pages="@
                            + decimal(list[i].page_count as nat) + "  url="@ + url
                        &&& #[trigger] values[i] == JsonView::Object(
                            seq![
                                ("sessionId"@, JsonView::Str(list[i].session_id)),
                                ("pageCount"@, number(list[i].page_count as int)),
                                ("activeUrl"@, text_or_nothing(list[i].active_url)),
                            ],
                        )
                    }
                &&& session_list_reply(list) == #[trigger] listing(
                    lines,
                    "No active sessions."@,
                    "sessions"@,
                    values,
                )
            },
{
    let lines = list.map_values(|i: InfoView| crate::tools::reply::session_line(i));
    let values = list.map_values(|i: InfoView| crate::tools::reply::info_json(i));
    assert forall|i: int| 0 <= i < list.len() implies values[i] == JsonView::Object(
        seq![
            ("sessionId"@, JsonView::Str((#[trigger] list[i]).session_id)),
            ("pageCount"@, number(list[i].page_count as int)),
            ("activeUrl"@, text_or_nothing(list[i].active_url)),
        ],
    ) by {
        let url = list[i].active_url;
        assert(crate::tools::reply::text_or_null(url) == text_or_nothing(url));
    }
    assert(session_list_reply(list) == listing(
        lines,
        "No active sessions."@,
        "sessions"@,
        values,
    ));
}

/// The tab at the index is switched to, brought to the front, and told of.
pub proof fn law_switch_tab(
    session_id: Seq<char>,
    index: usize,
    page: Seq<char>,
    at: Option<Seq<char>>,
)
    ensures
        ({
            let call = Call::SwitchTab { session_id, index };
            let shown = next_run(on_page(call, page), NewsView::Noted);
            let here = match at {
                Some(u) => u,
                None => ""@,
            };
            &&& begun(call).action == (ActionView::SwitchTo { session_id, index })
            &&& on_page(call, page).action == ActionView::BringToFront
            &&& on_page(call, page).target_id == page
            &&& shown.action is ReadUrl && shown.target_id == page
            &&& tells(
                next_run(shown, NewsView::Url(Ok(at))),
                "Switched to tab #"@ + decimal(index as nat) + " ("@ + here + ")"@,
                seq![("index"@, number(index as int)), ("url"@, JsonView::Str(here))],
            )
        }),
{
}

/// The tab at the index is closed, and the answer says so.
pub proof fn law_close_tab(session_id: Seq<char>, index: usize)
    ensures
        ({
            let start = begun(Call::CloseTab { session_id, index });
            &&& start.action == (ActionView::CloseAt { session_id, index })
            &&& says(then_done(start), "Closed tab #"@ + decimal(index as nat))
        }),
{
}

// ---- pages ----------------------------------------------------------------

/// The tab that a call names for its page, if it names one.
pub open spec fn tab_named(call: Call<Seq<char>>) -> Option<usize> {
    match call {
        Call::Evaluate { tab, .. } => tab,
        _ => None,
    }
}

/// A tool that works on a page has it found in the session of the call, by the
/// tab index that the call gives; where it gives none, by none, so that it is the
/// page of the active tab.
pub proof fn law_page_is_the_one_asked_for(call: Call<Seq<char>>)
    ensures
        first_action(call) matches ActionView::FindPage { session_id, tab } ==> {
            &&& Some(session_id) == session_of(call)
            &&& tab == tab_named(call)
        },
        call is Navigate || call is TakeScreenshot || call is TakeSnapshot || call is Click
            || call is TypeText || call is PressKey || call is Scroll || call is MoveMouse
            || call is WaitFor || call is Evaluate ==> first_action(call) is FindPage,
{
}

/// The page is sent to the address, within the time that is given if any, and the
/// answer tells where it came to. A page that says nothing is where it was sent.
pub proof fn law_navigate(
    session_id: Seq<char>,
    url: Seq<char>,
    timeout_ms: Option<u64>,
    page: Seq<char>,
    at: Option<Seq<char>>,
)
    ensures
        ({
            let found = on_page(Call::Navigate { session_id, url, timeout_ms }, page);
            let loaded = then_done(found);
            let here = match at {
                Some(u) => u,
                None => url,
            };
            &&& found.action == (ActionView::Goto { url, timeout_ms }) && found.target_id == page
            &&& loaded.action is ReadUrl && loaded.target_id == page
            &&& tells(
                next_run(loaded, NewsView::Url(Ok(at))),
                "Navigated to "@ + here,
                seq![("url"@, JsonView::Str(here))],
            )
            &&& timeout_ms matches Some(ms) ==> fails(
                next_run(found, NewsView::Elapsed),
                "navigation timed out after "@ + decimal(ms as nat) + "ms"@,
            )
        }),
{
}

/// The picture is of the page, whole or as far as it shows, as asked for; the
/// answer holds it, and says how large it is.
pub proof fn law_take_screenshot(
    session_id: Seq<char>,
    full_page: bool,
    page: Seq<char>,
    png: Seq<u8>,
    e: Chain,
)
    ensures
        ({
            let found = on_page(Call::TakeScreenshot { session_id, full_page }, page);
            &&& found.action == (ActionView::Capture { full_page }) && found.target_id == page
            &&& next_run(found, NewsView::Picture(Ok(png))).action == ActionView::Done(
                ReplyView {
                    content: seq![
                        Content::Text("Captured "@ + decimal(png.len()) + " bytes PNG."@),
                        Content::Image { data: base64_text(png), mime: "image/png"@ },
                    ],
                    structured: None,
                    is_error: false,
                },
            )
            &&& next_run(found, NewsView::Picture(Err(e))).action == ActionView::Failed(
                seq!["Page.captureScreenshot"@] + e,
            )
        }),
{
}

/// The answer to a snapshot is the text of the page's tree.
pub proof fn law_take_snapshot(session_id: Seq<char>, page: Seq<char>, tree: Seq<char>)
    ensures
        ({
            let found = on_page(Call::TakeSnapshot { session_id }, page);
            &&& found.action == ActionView::Snapshot && found.target_id == page
            &&& says(next_run(found, NewsView::Text(Ok(tree))), tree)
        }),
{
}

/// A click on a point clicks that point, each coordinate on its own axis, and the
/// answer names it.
pub proof fn law_click_on_a_point(
    session_id: Seq<char>,
    x: Number,
    y: Number,
    page: Seq<char>,
    tx: Seq<char>,
    ty: Seq<char>,
)
    ensures
        ({
            let found = on_page(
                Call::Click { session_id, target: Some(ClickTarget::Point { x, y }) },
                page,
            );
            let aimed = next_run(found, NewsView::Shown(tx, ty));
            &&& found.action == (ActionView::ShowNumbers { a: x, b: y })
            &&& aimed.target_id == page
            &&& aimed.action matches ActionView::ClickAt { x: at_x, y: at_y, .. } && at_x == x
                && at_y == y
            &&& says(then_done(aimed), "Clicked "@ + ("("@ + tx + ", "@ + ty + ")"@))
        }),
{
}

/// A click on an element waits for it as long as is given, asks the page where
/// its middle is, from a world that the page does not see, clicks there, and names
/// the selector in the answer. An element that is not there in time, or is nowhere,
/// is not clicked.
pub proof fn law_click_on_an_element(
    session_id: Seq<char>,
    selector: Seq<char>,
    timeout_ms: u64,
    page: Seq<char>,
    x: Number,
    y: Number,
)
    ensures
        ({
            let target = Some(ClickTarget::Selector { selector, timeout_ms });
            let found = on_page(Call::Click { session_id, target }, page);
            let seen = next_run(found, NewsView::Seen(true));
            let middle = JsonView::Array(seq![JsonView::Number(x), JsonView::Number(y)]);
            let aimed = next_run(seen, NewsView::Value(Ok(middle)));
            &&& found.action == (ActionView::AwaitElement { selector, timeout_ms })
            &&& seen.action matches ActionView::Evaluate { function, world, otherwise } && world
                == World::Isolated && otherwise is None && function
                == "function() { const el = document.querySelector("@ + json_quoted(selector)
                + "); if (!el) return null; el.scrollIntoView({block:'center',inline:'center'}); const r = el.getBoundingClientRect(); return [r.left + r.width/2, r.top + r.height/2]; }"@
            &&& aimed.action == (ActionView::ClickAt { x, y, label: selector })
            &&& aimed.target_id == page
            &&& says(then_done(aimed), "Clicked "@ + selector)
            &&& fails(
                next_run(found, NewsView::Seen(false)),
                "timed out waiting for selector "@ + selector,
            )
            &&& fails(
                next_run(seen, NewsView::Value(Ok(JsonView::Null))),
                "element `"@ + selector + "` not found or not visible"@,
            )
        }),
{
    let middle = JsonView::Array(seq![JsonView::Number(x), JsonView::Number(y)]);
    assert(middle->Array_0.len() == 2);
}

/// A click without a selector and without a whole point is refused once the page
/// is found.
pub proof fn law_click_needs_a_target(session_id: Seq<char>, page: Seq<char>)
    ensures
        fails(
            on_page(Call::Click { session_id, target: None }, page),
            "click requires either `selector` or both `x` and `y`"@,
        ),
{
}

/// Text is typed into the element of the selector once it is there within five
/// seconds; it is emptied first if that is asked for, and clicked before the text
/// goes in. The answer counts the characters.
pub proof fn law_type_text(
    session_id: Seq<char>,
    selector: Seq<char>,
    text: Seq<char>,
    clear: bool,
    page: Seq<char>,
)
    ensures
        ({
            let found = on_page(Call::TypeText { session_id, selector, text, clear }, page);
            let seen = next_run(found, NewsView::Seen(true));
            let held = then_done(seen);
            let emptied = if clear {
                next_run(held, NewsView::Noted)
            } else {
                held
            };
            let clicked = next_run(emptied, NewsView::Noted);
            &&& found.action == (ActionView::AwaitElement { selector, timeout_ms: 5000 })
            &&& found.target_id == page && clicked.target_id == page
            &&& seen.action == (ActionView::FindElement { selector })
            &&& clear ==> held.action == (ActionView::ClearElement { selector })
            &&& emptied.action == (ActionView::ClickElement { selector })
            &&& clicked.action == (ActionView::TypeInto { selector, text })
            &&& says(
                then_done(clicked),
                "Typed "@ + decimal(text.len()) + " chars into "@ + selector,
            )
            &&& fails(
                next_run(found, NewsView::Seen(false)),
                "timed out waiting for selector "@ + selector,
            )
        }),
{
}

/// A key for an element is pressed on that element, once it is there in the time
/// that is given.
pub proof fn law_press_key_on_an_element(
    session_id: Seq<char>,
    key: Seq<char>,
    selector: Seq<char>,
    timeout_ms: u64,
    page: Seq<char>,
)
    ensures
        ({
            let focus = Some(Focus { selector, timeout_ms });
            let found = on_page(Call::PressKey { session_id, key, focus }, page);
            let seen = next_run(found, NewsView::Seen(true));
            &&& found.action == (ActionView::AwaitElement { selector, timeout_ms })
            &&& seen.action == (ActionView::FindElement { selector })
            &&& then_done(seen).action == (ActionView::PressOn { selector, key })
            &&& then_done(seen).target_id == page
            &&& says(then_done(then_done(seen)), "Pressed "@ + key)
            &&& fails(
                next_run(found, NewsView::Seen(false)),
                "timed out waiting for selector "@ + selector,
            )
        }),
{
}

/// A key without an element goes down and comes up again, as the same key, with
/// what it writes; a key that the layout does not have is refused.
pub proof fn law_press_key(
    session_id: Seq<char>,
    key: Seq<char>,
    page: Seq<char>,
    layout: Seq<KeyDef<Seq<char>>>,
    i: int,
)
    ensures
        ({
            let found = on_page(Call::PressKey { session_id, key, focus: None }, page);
            let known = next_run(found, NewsView::Layout(layout));
            &&& found.action == ActionView::ReadLayout && found.target_id == page
            &&& 0 <= i < layout.len() && layout[i].key == key && (forall|j: int|
                0 <= j < i ==> (#[trigger] layout[j]).key != key) ==> {
                let k = layout[i];
                let text = match k.text {
                    Some(t) => Some(t),
                    None => if key.len() == 1 {
                        Some(key)
                    } else {
                        None
                    },
                };
                let down = KeyEvent {
                    action: if text is Some {
                        KeyAction::Down
                    } else {
                        KeyAction::RawDown
                    },
                    key,
                    code: k.code,
                    key_code: k.key_code,
                    text,
                };
                let up = KeyEvent {
                    action: KeyAction::Up,
                    key,
                    code: k.code,
                    key_code: k.key_code,
                    text: None,
                };
                &&& known.action == (ActionView::KeyDown { down, up })
                &&& then_done(known).action == (ActionView::KeyUp { up })
                &&& then_done(known).target_id == page
                &&& says(then_done(then_done(known)), "Pressed "@ + key)
            }
            &&& (forall|j: int| 0 <= j < layout.len() ==> (#[trigger] layout[j]).key != key)
                ==> fails(
                known,
                "unknown key `"@ + key
                    + "` (use names like Enter, Tab, Escape, ArrowDown, Backspace, or a single char)"@,
            )
        }),
{
    lemma_key_named(layout, key, i);
}

/// The first key of a name is the one that is found.
proof fn lemma_key_named(layout: Seq<KeyDef<Seq<char>>>, key: Seq<char>, i: int)
    ensures
        0 <= i < layout.len() && layout[i].key == key && (forall|j: int|
            0 <= j < i ==> (#[trigger] layout[j]).key != key) ==> crate::tools::keys::key_named(
            layout,
            key,
        ) == Some(layout[i]),
        (forall|j: int| 0 <= j < layout.len() ==> (#[trigger] layout[j]).key != key)
            ==> crate::tools::keys::key_named(layout, key) is None,
    decreases layout.len(),
{
    if layout.len() > 0 {
        let rest = layout.skip(1);
        lemma_key_named(rest, key, i - 1);
        assert(forall|j: int| 0 <= j < rest.len() ==> rest[j] == layout[j + 1]);
    }
}

/// The wheel is turned by the distances and at the point that are given, each on
/// its own axis, and the answer names the distances.
pub proof fn law_scroll(
    session_id: Seq<char>,
    delta_x: Number,
    delta_y: Number,
    x: Number,
    y: Number,
    page: Seq<char>,
    tx: Seq<char>,
    ty: Seq<char>,
)
    ensures
        ({
            let found = on_page(Call::Scroll { session_id, delta_x, delta_y, x, y }, page);
            let turned = then_done(found);
            &&& found.action matches ActionView::Wheel {
                x: at_x,
                y: at_y,
                delta_x: by_x,
                delta_y: by_y,
            } && at_x == x && at_y == y && by_x == delta_x && by_y == delta_y
            &&& found.target_id == page
            &&& turned.action == (ActionView::ShowNumbers { a: delta_x, b: delta_y })
            &&& says(
                next_run(turned, NewsView::Shown(tx, ty)),
                "Scrolled (deltaX="@ + tx + ", deltaY="@ + ty + ")"@,
            )
        }),
{
}

/// The mouse is moved to the point, each coordinate on its own axis; a point that
/// lacks one is refused for it.
pub proof fn law_move_mouse(
    session_id: Seq<char>,
    x: Option<Number>,
    y: Option<Number>,
    page: Seq<char>,
    tx: Seq<char>,
    ty: Seq<char>,
)
    ensures
        ({
            let found = on_page(Call::MoveMouse { session_id, x, y }, page);
            let moved = then_done(found);
            &&& x is Some && y is Some ==> {
                &&& found.action matches ActionView::MoveTo { x: at_x, y: at_y } && at_x == x->0
                    && at_y == y->0
                &&& found.target_id == page
                &&& moved.action == (ActionView::ShowNumbers { a: x->0, b: y->0 })
                &&& says(
                    next_run(moved, NewsView::Shown(tx, ty)),
                    "Moved mouse to ("@ + tx + ", "@ + ty + ")"@,
                )
            }
            &&& x is None ==> fails(found, "`x` is required"@)
            &&& x is Some && y is None ==> fails(found, "`y` is required"@)
        }),
{
    reveal_strlit("`");
    reveal_strlit("x");
    reveal_strlit("y");
    reveal_strlit("` is required");
    reveal_strlit("`x` is required");
    reveal_strlit("`y` is required");
    assert("`"@ + "x"@ + "` is required"@ =~= "`x` is required"@);
    assert("`"@ + "y"@ + "` is required"@ =~= "`y` is required"@);
}

/// A wait for an element, or for a text on the page, lasts as long as is given;
/// it ends in the answer once that is there, and in a refusal if it is not in time.
pub proof fn law_wait_for(
    session_id: Seq<char>,
    what: Seq<char>,
    timeout_ms: u64,
    page: Seq<char>,
)
    ensures
        ({
            let element = on_page(
                Call::WaitFor {
                    session_id,
                    condition: Condition::Selector { selector: what },
                    timeout_ms,
                },
                page,
            );
            let text = on_page(
                Call::WaitFor { session_id, condition: Condition::Text { text: what }, timeout_ms },
                page,
            );
            &&& element.action == (ActionView::AwaitElement { selector: what, timeout_ms })
            &&& element.target_id == page && text.target_id == page
            &&& says(next_run(element, NewsView::Seen(true)), "Matched selector "@ + what)
            &&& fails(
                next_run(element, NewsView::Seen(false)),
                "timed out waiting for selector "@ + what,
            )
            &&& text.action == (ActionView::AwaitProbe {
                function: "function() { return document.body && document.body.innerText && document.body.innerText.includes("@
                    + json_quoted(what) + "); }"@,
                timeout_ms,
            })
            &&& says(next_run(text, NewsView::Seen(true)), "Matched text \""@ + what + "\""@)
            &&& fails(next_run(text, NewsView::Seen(false)), "timed out"@)
        }),
{
}

/// A script runs on the page that was found: in a world that the page does not see
/// where the flag of the call's session is there and its id can name one, and in
/// the page's own otherwise. Its value is written out and told as it is.
pub proof fn law_evaluate(
    session_id: Seq<char>,
    expression: Seq<char>,
    tab: Option<usize>,
    page: Seq<char>,
    present: bool,
    value: JsonView,
    shown: Seq<char>,
    e: Chain,
)
    ensures
        ({
            let call = Call::Evaluate { session_id, expression, tab };
            let found = on_page(call, page);
            let ready = next_run(found, NewsView::Seen(present));
            let ran = next_run(ready, NewsView::Value(Ok(value)));
            &&& begun(call).action == (ActionView::FindPage { session_id, tab })
            &&& found.action == (ActionView::CheckFlag { session_id })
            &&& ready.target_id == page
            &&& ready.action matches ActionView::Evaluate { function, world, .. } && function
                == "async function() { return ("@ + expression + "); }"@ && (world
                == World::Isolated <==> (present && is_ctx(session_id)))
            &&& ran.action == (ActionView::ShowValue { value })
            &&& tells(next_run(ran, NewsView::Text(Ok(shown))), shown, seq![("result"@, value)])
            &&& next_run(ready, NewsView::Value(Err(e))).action == ActionView::Failed(
                seq!["evaluate"@] + e,
            )
        }),
{
}

// ---- logs -----------------------------------------------------------------

/// The visits that are listed are those of the session.
pub proof fn law_list_visits(session_id: Seq<char>, list: Seq<VisitView>)
    ensures
        ({
            let call = Call::ListVisits { session_id };
            &&& begun(call).action == (ActionView::FindSession { session_id })
            &&& on_session(call).action == (ActionView::ReadVisits { session_id })
            &&& next_run(on_session(call), NewsView::Visits(Ok(list))).action == ActionView::Done(
                visit_list_reply(list),
            )
        }),
{
}

/// A listing of visits has a line and a value for each, in their order.
pub proof fn law_visits_are_listed(list: Seq<VisitView>)
    ensures
        exists|lines: Seq<Seq<char>>, values: Seq<JsonView>|
            {
                &&& lines.len() == list.len()
                &&& values.len() == list.len()
                &&& forall|i: int|
                    0 <= i < list.len() ==> {
                        &&& #[trigger] lines[i] == "seq="@ + decimal(list[i].seq as nat)
                            + "  target="@ + short_id(list[i].target_id) + "  "@
                            + list[i].opened_at + "  "@ + list[i].url
                        &&& #[trigger] values[i] == list[i].value
                    }
                &&& visit_list_reply(list) == #[trigger] listing(
                    lines,
                    "(no visits recorded)"@,
                    "visits"@,
                    values,
                )
            },
{
    let lines = list.map_values(|v: VisitView| crate::tools::logs::visit_line(v));
    let values = list.map_values(|v: VisitView| v.value);
    assert(visit_list_reply(list) == listing(lines, "(no visits recorded)"@, "visits"@, values));
}

/// A log is read for exactly the session, the visit and the limit of the call, and
/// for its own kind of entries; the answer lists what was read.
pub proof fn law_list_logs(
    session_id: Seq<char>,
    visit: Option<u32>,
    limit: usize,
    es: Seq<EntryView>,
)
    ensures
        ({
            let console = Call::ListConsoleMessages { session_id, visit, limit };
            let network = Call::ListNetworkRequests { session_id, visit, limit };
            &&& begun(console).action == (ActionView::FindSession { session_id })
            &&& begun(network).action == (ActionView::FindSession { session_id })
            &&& on_session(console).action == (ActionView::ReadLog {
                session_id,
                console: true,
                visit,
                limit,
            })
            &&& on_session(network).action == (ActionView::ReadLog {
                session_id,
                console: false,
                visit,
                limit,
            })
            &&& next_run(on_session(console), NewsView::Log(Ok(es))).action == ActionView::Done(
                console_reply(es),
            )
            &&& next_run(on_session(network), NewsView::Log(Ok(es))).action == ActionView::Done(
                network_reply(es),
            )
        }),
{
}

/// Each console message of a log is listed, in order, with its kind and its text,
/// and what is none is passed over.
pub proof fn law_console_messages_are_listed(
    es: Seq<EntryView>,
    c: ConsoleEntry<Seq<char>, JsonView>,
    n: NetworkEntry<Seq<char>, JsonView>,
)
    ensures
        console_lines(seq![]) == Seq::<Seq<char>>::empty(),
        console_values(seq![]) == Seq::<JsonView>::empty(),
        console_lines(es.push(Entry::Console(c))) == console_lines(es).push(
            "["@ + c.ty + "] "@ + c.text,
        ),
        console_values(es.push(Entry::Console(c))) == (match c.value {
            Some(v) => console_values(es).push(v),
            None => console_values(es),
        }),
        console_lines(es.push(Entry::Network(n))) == console_lines(es),
        console_values(es.push(Entry::Network(n))) == console_values(es),
        console_lines(es.push(Entry::Other)) == console_lines(es),
        console_values(es.push(Entry::Other)) == console_values(es),
        console_reply(es) == (ReplyView {
            content: seq![
                Content::Text(
                    if es.len() == 0 {
                        "(no console messages)"@
                    } else {
                        joined(console_lines(es), "\n"@)
                    },
                ),
            ],
            structured: Some(
                JsonView::Object(seq![("messages"@, JsonView::Array(console_values(es)))]),
            ),
            is_error: false,
        }),
{
    let line = |e: EntryView| crate::tools::logs::console_line(e);
    let value = |e: EntryView| crate::tools::logs::console_value(e);
    lemma_listed(es, Entry::Console(c), line);
    lemma_listed(es, Entry::Console(c), value);
    lemma_listed(es, Entry::Network(n), line);
    lemma_listed(es, Entry::Network(n), value);
    lemma_listed(es, Entry::Other, line);
    lemma_listed(es, Entry::Other, value);
}

/// One more entry adds what it maps to, if anything.
proof fn lemma_listed<A>(es: Seq<EntryView>, e: EntryView, f: spec_fn(EntryView) -> Option<A>)
    ensures
        crate::tools::logs::present(es.push(e).map_values(f)) == (match f(e) {
            Some(x) => crate::tools::logs::present(es.map_values(f)).push(x),
            None => crate::tools::logs::present(es.map_values(f)),
        }),
{
    let s = es.push(e).map_values(f);
    assert(s.drop_last() =~= es.map_values(f));
    assert(s.last() == f(e));
}

/// Each network request of a log is listed, in order: its method, its address, and
/// how it went. A failure counts before a status, and a request with neither is
/// pending. What was sent is shown up to a thousand characters, and marked as cut
/// behind that. What is no request is passed over.
pub proof fn law_network_requests_are_listed(
    es: Seq<EntryView>,
    c: ConsoleEntry<Seq<char>, JsonView>,
    n: NetworkEntry<Seq<char>, JsonView>,
)
    ensures
        network_lines(seq![]) == Seq::<Seq<char>>::empty(),
        network_values(seq![]) == Seq::<JsonView>::empty(),
        ({
            let status = match (n.failure, n.status) {
                (Some(f), _) => "FAIL:"@ + f,
                (None, Some(s)) => decimal(s as nat),
                (None, None) => "pending"@,
            };
            let sent = match n.post_data {
                None => ""@,
                Some(b) => if b.len() <= 1000 {
                    "  body="@ + b
                } else {
                    "  body="@ + b.take(1000) + "…"@
                },
            };
            network_lines(es.push(Entry::Network(n))) == network_lines(es).push(
                n.method + " "@ + n.url + " ["@ + status + "]"@ + sent,
            )
        }),
        network_values(es.push(Entry::Network(n))) == (match n.value {
            Some(v) => network_values(es).push(v),
            None => network_values(es),
        }),
        network_lines(es.push(Entry::Console(c))) == network_lines(es),
        network_values(es.push(Entry::Console(c))) == network_values(es),
        network_lines(es.push(Entry::Other)) == network_lines(es),
        network_values(es.push(Entry::Other)) == network_values(es),
        network_reply(es) == (ReplyView {
            content: seq![
                Content::Text(
                    if es.len() == 0 {
                        "(no network requests)"@
                    } else {
                        joined(network_lines(es), "\n"@)
                    },
                ),
            ],
            structured: Some(
                JsonView::Object(seq![("requests"@, JsonView::Array(network_values(es)))]),
            ),
            is_error: false,
        }),
{
    let line = |e: EntryView| crate::tools::logs::network_line(e);
    let value = |e: EntryView| crate::tools::logs::network_value(e);
    lemma_listed(es, Entry::Console(c), line);
    lemma_listed(es, Entry::Console(c), value);
    lemma_listed(es, Entry::Network(n), line);
    lemma_listed(es, Entry::Network(n), value);
    lemma_listed(es, Entry::Other, line);
    lemma_listed(es, Entry::Other, value);
}

// ---- stealth and takeover -------------------------------------------------

/// Stealth is set for the session of the call: on writes its flag, off removes it,
/// and the answer tells which. An id that can name no flag is refused, and so is a
/// call that does not say.
pub proof fn law_set_stealth(session_id: Seq<char>, enabled: Option<bool>)
    ensures
        ({
            let found = on_session(Call::SetStealth { session_id, enabled });
            &&& begun(Call::SetStealth { session_id, enabled }).action
                == (ActionView::FindSession { session_id })
            &&& enabled is Some && is_ctx(session_id) ==> {
                &&& found.action == (ActionView::SetFlag { session_id, present: enabled->0 })
                &&& tells(
                    then_done(found),
                    stealth_text(enabled->0),
                    seq![("stealth"@, JsonView::Bool(enabled->0))],
                )
            }
            &&& enabled is Some && !is_ctx(session_id) ==> fails(found, "invalid session id"@)
            &&& enabled is None ==> fails(found, "`enabled` (boolean) is required"@)
        }),
{
}

/// Stealth is on exactly where the flag of the session is there and its id can
/// name one.
pub proof fn law_get_stealth(session_id: Seq<char>, present: bool)
    ensures
        ({
            let start = begun(Call::GetStealth { session_id });
            let on = present && is_ctx(session_id);
            &&& start.action == (ActionView::CheckFlag { session_id })
            &&& tells(
                next_run(start, NewsView::Seen(present)),
                if on {
                    "stealth = true"@
                } else {
                    "stealth = false"@
                },
                seq![("stealth"@, JsonView::Bool(on))],
            )
        }),
{
}

/// A human is handed the active page of the session of the call, as it was found:
/// the ticket names that session and that page, and expires when the time that was
/// asked for is over; the link leads to the token of the ticket, at the configured
/// address. Where no address is configured there is no link.
pub proof fn law_request_takeover(
    session_id: Seq<char>,
    ttl_ms: u64,
    base: Seq<char>,
    page: Seq<char>,
    token: Seq<char>,
    now: u128,
)
    requires
        base.len() > 0,
        now + ttl_ms <= u64::MAX,
    ensures
        ({
            let start = begun(Call::RequestTakeover { session_id, ttl_ms });
            let at = without_trailing(base, '/');
            let based = next_run(start, NewsView::Base(Some(base)));
            let found = next_run(based, NewsView::Page(Ok(page)));
            let minted = next_run(found, NewsView::Token(Ok(token)));
            let timed = next_run(minted, NewsView::Clock(now));
            let url = at + "/takeover/"@ + token;
            &&& start.action == ActionView::ReadBase
            &&& based.action == (ActionView::FindTarget { session_id, base: at })
            &&& found.action == (ActionView::MintToken { base: at }) && found.target_id == page
            &&& minted.action == (ActionView::ReadClock { base: at, token })
            &&& timed.action matches ActionView::WriteTicket { token: under, ticket, .. } && under
                == token && ticket == (TicketView {
                session_id,
                target_id: page,
                expires_at_ms: (now + ttl_ms) as u128,
            })
            &&& tells(
                then_done(timed),
                "Human takeover ready. Show this URL to the user so they can log in themselves. Then run await_human_takeover(token=\""@
                    + token
                    + "\") in a BACKGROUND task that polls with a short timeout until completed — do NOT block your main loop; the human may take several minutes:\n"@
                    + url,
                seq![
                    ("url"@, JsonView::Str(url)),
                    ("token"@, JsonView::Str(token)),
                    ("expiresAtMs"@, number(now + ttl_ms)),
                ],
            )
            &&& fails(
                next_run(start, NewsView::Base(None)),
                "TAKEOVER_BASE_URL is not configured — the takeover daemon/route isn't set up on this host"@,
            )
            &&& fails(
                next_run(start, NewsView::Base(Some(seq![]))),
                "TAKEOVER_BASE_URL is not configured — the takeover daemon/route isn't set up on this host"@,
            )
        }),
{
}

/// The wait is for the takeover of the token, and as long as is given. Once it is
/// finished its files are removed, and then the answer says so; if the time is over
/// first, they are left and the answer says that.
pub proof fn law_await_takeover(token: Seq<char>, timeout_ms: u64)
    ensures
        ({
            let start = begun(Call::AwaitTakeover { token, timeout_ms });
            let seen = next_run(start, NewsView::Seen(true));
            &&& start.action == (ActionView::AwaitDone { token, timeout_ms })
            &&& seen.action == (ActionView::Cleanup { token })
            &&& tells(
                next_run(seen, NewsView::Noted),
                "Human signalled done — the session is authenticated; resuming."@,
                seq![("completed"@, JsonView::Bool(true)), ("token"@, JsonView::Str(token))],
            )
            &&& tells(
                next_run(start, NewsView::Seen(false)),
                awaited_text(false),
                seq![("completed"@, JsonView::Bool(false)), ("token"@, JsonView::Str(token))],
            )
        }),
{
}

// ---- saved states ---------------------------------------------------------

/// The cookies of the session of the call are saved as they are, under the name of
/// the call, and the answer tells what was stored.
pub proof fn law_save_state(
    session_id: Seq<char>,
    name: Seq<char>,
    cookies: Seq<JsonView>,
    stored: Seq<char>,
    saved_at: Seq<char>,
    n: usize,
)
    ensures
        ({
            let call = Call::SaveState { session_id, name };
            let got = next_run(on_session(call), NewsView::Cookies(Ok(cookies)));
            &&& begun(call).action == (ActionView::FindSession { session_id })
            &&& on_session(call).action == (ActionView::GetCookies { session_id })
            &&& got.action == (ActionView::SaveCookies { name, cookies })
            &&& tells(
                next_run(got, NewsView::Saved(Ok((stored, saved_at, n)))),
                "Saved "@ + decimal(n as nat) + " cookies as \""@ + name + "\"."@,
                seq![
                    ("name"@, JsonView::Str(stored)),
                    ("savedAt"@, JsonView::Str(saved_at)),
                    ("cookieCount"@, number(n as int)),
                ],
            )
        }),
{
}

/// The cookies that were saved under the name are given to the session of the
/// call, all of them, in order, each without what Chrome does not take back; the
/// answer counts them. Where there is none, none is given.
pub proof fn law_load_state(session_id: Seq<char>, name: Seq<char>, cookies: Seq<JsonView>)
    requires
        cookies.len() <= usize::MAX,
    ensures
        ({
            let call = Call::LoadState { session_id, name };
            let got = next_run(on_session(call), NewsView::Cookies(Ok(cookies)));
            let last = if cookies.len() == 0 {
                got
            } else {
                then_done(got)
            };
            &&& begun(call).action == (ActionView::FindSession { session_id })
            &&& on_session(call).action == (ActionView::LoadCookies { name })
            &&& cookies.len() > 0 ==> (got.action matches ActionView::SetCookies {
                session_id: to,
                cookies: given,
                ..
            } && to == session_id && given.len() == cookies.len() && forall|i: int|
                0 <= i < cookies.len() ==> #[trigger] given[i] == (match cookies[i] {
                    JsonView::Object(ms) => JsonView::Object(settable(ms)),
                    other => other,
                }))
            &&& tells(
                last,
                "Loaded "@ + decimal(cookies.len()) + " cookies from \""@ + name + "\"."@,
                seq![
                    ("name"@, JsonView::Str(name)),
                    ("cookieCount"@, number(cookies.len() as int)),
                ],
            )
        }),
{
}

/// The saved states are listed.
pub proof fn law_list_states(list: Seq<SummaryView>)
    ensures
        begun(Call::ListStates).action == ActionView::ListSaved,
        next_run(begun(Call::ListStates), NewsView::States(Ok(list))).action == ActionView::Done(
            state_list_reply(list),
        ),
{
}

/// A listing of saved states has a line and a value for each, in their order.
pub proof fn law_states_are_listed(list: Seq<SummaryView>)
    ensures
        exists|lines: Seq<Seq<char>>, values: Seq<JsonView>|
            {
                &&& lines.len() == list.len()
                &&& values.len() == list.len()
                &&& forall|i: int|
                    0 <= i < list.len() ==> {
                        &&& #[trigger] lines[i] == "- "@ + list[i].name + "  cookies="@ + decimal(
                            list[i].cookie_count as nat,
                        ) + "  saved="@ + list[i].saved_at
                        &&& #[trigger] values[i] == list[i].value
                    }
                &&& state_list_reply(list) == #[trigger] listing(
                    lines,
                    "(no saved states)"@,
                    "states"@,
                    values,
                )
            },
{
    let lines = list.map_values(|s: SummaryView| crate::tools::reply::state_line(s));
    let values = list.map_values(|s: SummaryView| s.value);
    assert(state_list_reply(list) == listing(lines, "(no saved states)"@, "states"@, values));
}

/// The state of the name is deleted, and the answer tells whether there was one.
pub proof fn law_delete_state(name: Seq<char>, removed: bool)
    ensures
        ({
            let start = begun(Call::DeleteState { name });
            &&& start.action == (ActionView::DeleteSaved { name })
            &&& tells(
                next_run(start, NewsView::Removed(Ok(removed))),
                if removed {
                    "Deleted \""@ + name + "\"."@
                } else {
                    "No saved state named \""@ + name + "\"."@
                },
                seq![("name"@, JsonView::Str(name)), ("removed"@, JsonView::Bool(removed))],
            )
        }),
{
}

}
