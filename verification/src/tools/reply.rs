//! What the tools answer.
use vstd::prelude::*;
use vstd::string::StringExecFns;

use crate::error::ErrorChain;
use crate::json::{
    array, items, member, members, object, text, whole, Json, JsonView, Number,
};
use crate::outside::{base64_encode, base64_text};
use crate::sessions::{infos, targets, InfoView, SessionInfo, Target, TargetView};
use crate::text::{
    cat2, cat3, cat4, cat5, chars_of, decimal, decimal_text, join, joined, opt_str_text,
    same_opt_text, texts,
};

verus! {

/// A part of an answer, over the type of texts.
pub enum Content<S> {
    Text(S),
    /// An image, in base64.
    Image { data: S, mime: S },
}

/// An answer.
pub struct Reply {
    pub content: Vec<Content<String>>,
    pub structured: Option<Json>,
    pub is_error: bool,
}

/// What a [`Reply`] says.
#[verifier::ext_equal]
pub struct ReplyView {
    pub content: Seq<Content<Seq<char>>>,
    pub structured: Option<JsonView>,
    pub is_error: bool,
}

/// What a part of an answer says.
pub open spec fn content_view(c: Content<String>) -> Content<Seq<char>> {
    match c {
        Content::Text(s) => Content::Text(s@),
        Content::Image { data, mime } => Content::Image { data: data@, mime: mime@ },
    }
}

impl View for Reply {
    type V = ReplyView;

    open spec fn view(&self) -> ReplyView {
        ReplyView {
            content: self.content@.map_values(|c: Content<String>| content_view(c)),
            structured: match self.structured {
                Some(j) => Some(j@),
                None => None,
            },
            is_error: self.is_error,
        }
    }
}

/// An answer of one text.
pub open spec fn text_reply(s: Seq<char>) -> ReplyView {
    ReplyView { content: seq![Content::Text(s)], structured: None, is_error: false }
}

/// An answer of one text and a value.
pub open spec fn struct_reply(s: Seq<char>, value: JsonView) -> ReplyView {
    ReplyView { content: seq![Content::Text(s)], structured: Some(value), is_error: false }
}

/// An answer of one text.
pub fn ok_text(s: String) -> (r: Reply)
    ensures
        r@ == text_reply(s@),
{
    let r = Reply { content: vec![Content::Text(s)], structured: None, is_error: false };
    assert(r@ =~= text_reply(s@));
    r
}

/// An answer of one text and a value.
pub fn ok_text_struct(s: String, value: Json) -> (r: Reply)
    ensures
        r@ == struct_reply(s@, value@),
{
    let r = Reply { content: vec![Content::Text(s)], structured: Some(value), is_error: false };
    assert(r@ =~= struct_reply(s@, value@));
    r
}

/// The answer to a call that failed: the error on one line.
pub fn error_reply(e: &ErrorChain) -> (r: Reply)
    ensures
        r@ == (ReplyView {
            content: seq![Content::Text(joined(e@, ": "@))],
            structured: None,
            is_error: true,
        }),
{
    let line = e.render();
    let r = Reply { content: vec![Content::Text(line)], structured: None, is_error: true };
    assert(r@.content =~= seq![Content::Text(joined(e@, ": "@))]);
    r
}

// ---- values ---------------------------------------------------------------

/// A whole number.
pub open spec fn count(n: nat) -> JsonView {
    JsonView::Number(Number::Unsigned(n as u64))
}

/// A text, or nothing.
pub open spec fn text_or_null(s: Option<Seq<char>>) -> JsonView {
    match s {
        Some(s) => JsonView::Str(s),
        None => JsonView::Null,
    }
}

/// A text, or an empty one.
pub open spec fn or_empty(s: Option<Seq<char>>) -> Seq<char> {
    match s {
        Some(s) => s,
        None => ""@,
    }
}

/// An object of one member.
pub open spec fn object1(k: Seq<char>, v: JsonView) -> JsonView {
    JsonView::Object(seq![(k, v)])
}

/// An object of two members.
pub open spec fn object2(k1: Seq<char>, v1: JsonView, k2: Seq<char>, v2: JsonView) -> JsonView {
    JsonView::Object(seq![(k1, v1), (k2, v2)])
}

/// An object of three members.
pub open spec fn object3(
    k1: Seq<char>,
    v1: JsonView,
    k2: Seq<char>,
    v2: JsonView,
    k3: Seq<char>,
    v3: JsonView,
) -> JsonView {
    JsonView::Object(seq![(k1, v1), (k2, v2), (k3, v3)])
}

/// An object of one member.
pub fn obj1(k: &str, v: Json) -> (r: Json)
    ensures
        r@ == object1(k@, v@),
{
    let ms = vec![member(k, v)];
    assert(members(ms@) =~= seq![(k@, v@)]);
    object(ms)
}

/// An object of two members.
fn obj2(k1: &str, v1: Json, k2: &str, v2: Json) -> (r: Json)
    ensures
        r@ == object2(k1@, v1@, k2@, v2@),
{
    let ms = vec![member(k1, v1), member(k2, v2)];
    assert(members(ms@) =~= seq![(k1@, v1@), (k2@, v2@)]);
    object(ms)
}

/// An object of three members.
fn obj3(k1: &str, v1: Json, k2: &str, v2: Json, k3: &str, v3: Json) -> (r: Json)
    ensures
        r@ == object3(k1@, v1@, k2@, v2@, k3@, v3@),
{
    let ms = vec![member(k1, v1), member(k2, v2), member(k3, v3)];
    assert(members(ms@) =~= seq![(k1@, v1@), (k2@, v2@), (k3@, v3@)]);
    object(ms)
}

// ---- sessions -------------------------------------------------------------

/// What is told of a session, as a value.
pub open spec fn info_json(i: InfoView) -> JsonView {
    object3(
        "sessionId"@,
        JsonView::Str(i.session_id),
        "pageCount"@,
        count(i.page_count as nat),
        "activeUrl"@,
        text_or_null(i.active_url),
    )
}

/// What is told of a session, as a value.
fn session_json(i: &SessionInfo) -> (r: Json)
    ensures
        r@ == info_json(i@),
{
    let url = match &i.active_url {
        Some(u) => text(u.as_str()),
        None => Json::Null,
    };
    obj3(
        "sessionId",
        text(i.session_id.as_str()),
        "pageCount",
        whole(i.page_count as u64),
        "activeUrl",
        url,
    )
}

/// The answer to a session that was opened.
pub fn opened_session(info: &SessionInfo) -> (r: Reply)
    ensures
        r@ == struct_reply("Opened session "@ + info@.session_id, info_json(info@)),
{
    ok_text_struct(cat2("Opened session ", info.session_id.as_str()), session_json(info))
}

/// The answer to a session that was closed, or was not there.
pub fn closed_session(session_id: &str) -> (r: Reply)
    ensures
        r@ == text_reply("Closed session "@ + session_id@),
{
    ok_text(cat2("Closed session ", session_id))
}

/// The line of a session.
pub open spec fn session_line(i: InfoView) -> Seq<char> {
    "- "@ + i.session_id + "  pages="@ + decimal(i.page_count as nat) + "  url="@ + (
    match i.active_url {
        Some(u) => u,
        None => "(none)"@,
    })
}

/// The lines of a list, or what stands for an empty one.
pub open spec fn lines_or(lines: Seq<Seq<char>>, empty: Seq<char>) -> Seq<char> {
    if lines.len() == 0 {
        empty
    } else {
        joined(lines, "\n"@)
    }
}

/// The lines of a list, or what stands for an empty one.
pub fn body_of(lines: &Vec<String>, empty: &str) -> (r: String)
    ensures
        r@ == lines_or(texts(lines@), empty@),
{
    if lines.len() == 0 {
        empty.to_string()
    } else {
        join(lines, "\n")
    }
}

/// The answer that lists the sessions.
pub open spec fn session_list_reply(list: Seq<InfoView>) -> ReplyView {
    struct_reply(
        lines_or(list.map_values(|i: InfoView| session_line(i)), "No active sessions."@),
        object1("sessions"@, JsonView::Array(list.map_values(|i: InfoView| info_json(i)))),
    )
}

/// The answer that lists the sessions.
pub fn listed_sessions(list: &Vec<SessionInfo>) -> (r: Reply)
    ensures
        r@ == session_list_reply(infos(list@)),
{
    let mut lines: Vec<String> = Vec::new();
    let mut values: Vec<Json> = Vec::new();
    let mut i: usize = 0;
    while i < list.len()
        invariant
            i <= list@.len(),
            lines@.len() == i,
            values@.len() == i,
            forall|j: int| 0 <= j < i ==> (#[trigger] lines@[j])@ == session_line(list@[j]@),
            forall|j: int| 0 <= j < i ==> (#[trigger] values@[j])@ == info_json(list@[j]@),
        decreases list@.len() - i,
    {
        let mut line = cat4(
            "- ",
            list[i].session_id.as_str(),
            "  pages=",
            decimal_text(list[i].page_count as u64).as_str(),
        );
        line.append("  url=");
        match &list[i].active_url {
            Some(u) => line.append(u.as_str()),
            None => line.append("(none)"),
        }
        lines.push(line);
        values.push(session_json(&list[i]));
        i += 1;
    }
    proof {
        assert(texts(lines@) =~= infos(list@).map_values(|i: InfoView| session_line(i)));
        assert(items(values@) =~= infos(list@).map_values(|i: InfoView| info_json(i)));
    }
    let body = body_of(&lines, "No active sessions.");
    ok_text_struct(body, obj1("sessions", array(values)))
}

// ---- tabs -----------------------------------------------------------------

/// The index of the tab that was opened last, by how many there are.
pub open spec fn last_index(open: usize) -> usize {
    if open > 0 {
        (open - 1) as usize
    } else {
        0
    }
}

/// The answer to a tab that was opened: its index, by how many pages there are
/// now, and where it is.
pub fn opened_tab(open: usize, url: Option<&str>) -> (r: Reply)
    ensures
        r@ == struct_reply(
            "Opened tab #"@ + decimal(last_index(open) as nat),
            object2(
                "index"@,
                count(last_index(open) as nat),
                "url"@,
                JsonView::Str(or_empty(opt_str_text(url))),
            ),
        ),
{
    let index: usize = if open > 0 {
        open - 1
    } else {
        0
    };
    let url = match url {
        Some(u) => u,
        None => "",
    };
    ok_text_struct(
        cat2("Opened tab #", decimal_text(index as u64).as_str()),
        obj2("index", whole(index as u64), "url", text(url)),
    )
}

/// The line of a tab: the active one is marked.
pub open spec fn tab_line(index: int, t: TargetView, active: Option<Seq<char>>) -> Seq<char> {
    (if active == Some(t.target_id) {
        "* "@
    } else {
        "  "@
    }) + decimal(index as nat) + ": "@ + t.url + "  \""@ + t.title + "\""@
}

/// A tab as a value.
pub open spec fn tab_json(index: int, t: TargetView, active: Option<Seq<char>>) -> JsonView {
    JsonView::Object(
        seq![
            ("index"@, count(index as nat)),
            ("url"@, JsonView::Str(t.url)),
            ("title"@, JsonView::Str(t.title)),
            ("active"@, JsonView::Bool(active == Some(t.target_id))),
        ],
    )
}

/// The answer that lists the tabs of a session.
pub open spec fn tab_list_reply(tabs: Seq<TargetView>, active: Option<Seq<char>>) -> ReplyView {
    struct_reply(
        lines_or(
            Seq::new(tabs.len(), |i: int| tab_line(i, tabs[i], active)),
            "(no pages)"@,
        ),
        object1(
            "pages"@,
            JsonView::Array(Seq::new(tabs.len(), |i: int| tab_json(i, tabs[i], active))),
        ),
    )
}

/// A tab as a value.
fn page_json(index: usize, t: &Target, active: bool) -> (r: Json)
    ensures
        r@ == JsonView::Object(
            seq![
                ("index"@, count(index as nat)),
                ("url"@, JsonView::Str(t@.url)),
                ("title"@, JsonView::Str(t@.title)),
                ("active"@, JsonView::Bool(active)),
            ],
        ),
{
    let ms = vec![
        member("index", whole(index as u64)),
        member("url", text(t.url.as_str())),
        member("title", text(t.title.as_str())),
        member("active", Json::Bool(active)),
    ];
    assert(members(ms@) =~= seq![
        ("index"@, count(index as nat)),
        ("url"@, JsonView::Str(t@.url)),
        ("title"@, JsonView::Str(t@.title)),
        ("active"@, JsonView::Bool(active)),
    ]);
    object(ms)
}

/// The answer that lists the tabs of a session, in their order, with the active
/// one marked.
pub fn listed_tabs(tabs: &Vec<Target>, active: Option<&str>) -> (r: Reply)
    ensures
        r@ == tab_list_reply(targets(tabs@), opt_str_text(active)),
{
    let ghost ts = targets(tabs@);
    let ghost act = opt_str_text(active);
    let mut lines: Vec<String> = Vec::new();
    let mut values: Vec<Json> = Vec::new();
    let mut i: usize = 0;
    while i < tabs.len()
        invariant
            i <= tabs@.len(),
            lines@.len() == i,
            values@.len() == i,
            ts == targets(tabs@),
            act == opt_str_text(active),
            forall|j: int| 0 <= j < i ==> (#[trigger] lines@[j])@ == tab_line(j, ts[j], act),
            forall|j: int| 0 <= j < i ==> (#[trigger] values@[j])@ == tab_json(j, ts[j], act),
        decreases tabs@.len() - i,
    {
        assert(ts[i as int] == tabs@[i as int]@);
        let is_active = same_opt_text(active, Some(tabs[i].target_id.as_str()));
        let marker = if is_active {
            "* "
        } else {
            "  "
        };
        let mut line = cat4(
            marker,
            decimal_text(i as u64).as_str(),
            ": ",
            tabs[i].url.as_str(),
        );
        line.append("  \"");
        line.append(tabs[i].title.as_str());
        line.append("\"");
        lines.push(line);
        values.push(page_json(i, &tabs[i], is_active));
        i += 1;
    }
    proof {
        assert(texts(lines@) =~= Seq::new(ts.len(), |i: int| tab_line(i, ts[i], act)));
        assert(items(values@) =~= Seq::new(ts.len(), |i: int| tab_json(i, ts[i], act)));
    }
    let body = body_of(&lines, "(no pages)");
    ok_text_struct(body, obj1("pages", array(values)))
}

/// The answer to a tab that was switched to.
pub fn switched_tab(index: usize, url: Option<&str>) -> (r: Reply)
    ensures
        r@ == struct_reply(
            "Switched to tab #"@ + decimal(index as nat) + " ("@ + or_empty(opt_str_text(url))
                + ")"@,
            object2(
                "index"@,
                count(index as nat),
                "url"@,
                JsonView::Str(or_empty(opt_str_text(url))),
            ),
        ),
{
    let url = match url {
        Some(u) => u,
        None => "",
    };
    ok_text_struct(
        cat5("Switched to tab #", decimal_text(index as u64).as_str(), " (", url, ")"),
        obj2("index", whole(index as u64), "url", text(url)),
    )
}

/// The answer to a tab that was closed.
pub fn closed_tab(index: usize) -> (r: Reply)
    ensures
        r@ == text_reply("Closed tab #"@ + decimal(index as nat)),
{
    ok_text(cat2("Closed tab #", decimal_text(index as u64).as_str()))
}

/// The answer to a page that was loaded: where it is now, or where it was asked
/// to go if it does not say.
pub fn navigated(requested: &str, resolved: Option<&str>) -> (r: Reply)
    ensures
        ({
            let url = match opt_str_text(resolved) {
                Some(u) => u,
                None => requested@,
            };
            r@ == struct_reply("Navigated to "@ + url, object1("url"@, JsonView::Str(url)))
        }),
{
    let url = match resolved {
        Some(u) => u,
        None => requested,
    };
    ok_text_struct(cat2("Navigated to ", url), obj1("url", text(url)))
}

// ---- pictures and input ---------------------------------------------------

/// The answer with a picture of the page, in PNG.
pub fn captured_screenshot(bytes: &[u8]) -> (r: Reply)
    requires
        4 * ((bytes@.len() + 2) / 3) <= isize::MAX,
    ensures
        r@ == (ReplyView {
            content: seq![
                Content::Text("Captured "@ + decimal(bytes@.len()) + " bytes PNG."@),
                Content::Image { data: base64_text(bytes@), mime: "image/png"@ },
            ],
            structured: None,
            is_error: false,
        }),
{
    let line = cat3("Captured ", decimal_text(bytes.len() as u64).as_str(), " bytes PNG.");
    let data = base64_encode(bytes);
    let r = Reply {
        content: vec![
            Content::Text(line),
            Content::Image { data, mime: "image/png".to_string() },
        ],
        structured: None,
        is_error: false,
    };
    assert(r@.content =~= seq![
        Content::Text("Captured "@ + decimal(bytes@.len()) + " bytes PNG."@),
        Content::Image { data: base64_text(bytes@), mime: "image/png"@ },
    ]);
    r
}

/// A point of the page, by its coordinates in text.
pub fn point_label(x: &str, y: &str) -> (r: String)
    ensures
        r@ == "("@ + x@ + ", "@ + y@ + ")"@,
{
    cat5("(", x, ", ", y, ")")
}

/// The answer to a click.
pub fn clicked(label: &str) -> (r: Reply)
    ensures
        r@ == text_reply("Clicked "@ + label@),
{
    ok_text(cat2("Clicked ", label))
}

/// The answer to a key that was pressed.
pub fn pressed(key: &str) -> (r: Reply)
    ensures
        r@ == text_reply("Pressed "@ + key@),
{
    ok_text(cat2("Pressed ", key))
}

/// The answer to a turn of the wheel, by its distances in text.
pub fn scrolled(delta_x: &str, delta_y: &str) -> (r: Reply)
    ensures
        r@ == text_reply(
            "Scrolled (deltaX="@ + delta_x@ + ", deltaY="@ + delta_y@ + ")"@,
        ),
{
    ok_text(cat5("Scrolled (deltaX=", delta_x, ", deltaY=", delta_y, ")"))
}

/// The answer to a move of the mouse, by its coordinates in text.
pub fn moved(x: &str, y: &str) -> (r: Reply)
    ensures
        r@ == text_reply("Moved mouse to ("@ + x@ + ", "@ + y@ + ")"@),
{
    ok_text(cat5("Moved mouse to (", x, ", ", y, ")"))
}

/// The answer to a text that was typed: how many characters it has.
pub fn typed(input: &str, selector: &str) -> (r: Reply)
    ensures
        r@ == text_reply(
            "Typed "@ + decimal(input@.len()) + " chars into "@ + selector@,
        ),
{
    let n: usize = chars_of(input).len();
    ok_text(cat4("Typed ", decimal_text(n as u64).as_str(), " chars into ", selector))
}

/// The answer to a selector that matched.
pub fn matched_selector(selector: &str) -> (r: Reply)
    ensures
        r@ == text_reply("Matched selector "@ + selector@),
{
    ok_text(cat2("Matched selector ", selector))
}

/// The answer to a text that showed.
pub fn matched_text(needle: &str) -> (r: Reply)
    ensures
        r@ == text_reply("Matched text \""@ + needle@ + "\""@),
{
    ok_text(cat3("Matched text \"", needle, "\""))
}

/// The answer to a script: its value, in text and as it is.
pub fn evaluated(shown: String, value: Json) -> (r: Reply)
    ensures
        r@ == struct_reply(shown@, object1("result"@, value@)),
{
    ok_text_struct(shown, obj1("result", value))
}

// ---- takeover and stealth -------------------------------------------------

/// The address of a link for a human.
pub open spec fn takeover_url(base: Seq<char>, token: Seq<char>) -> Seq<char> {
    base + "/takeover/"@ + token
}

/// The answer with a link for a human. The time at which it expires has to be
/// one that a number of 64 bits can hold.
pub fn takeover_ready(base: &str, token: &str, expires_at_ms: u128) -> (r: Reply)
    requires
        expires_at_ms <= u64::MAX,
    ensures
        r@ == struct_reply(
            "Human takeover ready. Show this URL to the user so they can log in themselves. Then run await_human_takeover(token=\""@
                + token@
                + "\") in a BACKGROUND task that polls with a short timeout until completed — do NOT block your main loop; the human may take several minutes:\n"@
                + takeover_url(base@, token@),
            object3(
                "url"@,
                JsonView::Str(takeover_url(base@, token@)),
                "token"@,
                JsonView::Str(token@),
                "expiresAtMs"@,
                count(expires_at_ms as nat),
            ),
        ),
{
    let url = cat3(base, "/takeover/", token);
    let body = cat4(
        "Human takeover ready. Show this URL to the user so they can log in themselves. Then run await_human_takeover(token=\"",
        token,
        "\") in a BACKGROUND task that polls with a short timeout until completed — do NOT block your main loop; the human may take several minutes:\n",
        url.as_str(),
    );
    ok_text_struct(
        body,
        obj3(
            "url",
            text(url.as_str()),
            "token",
            text(token),
            "expiresAtMs",
            whole(expires_at_ms as u64),
        ),
    )
}

/// What is said once the wait for a human is over.
pub open spec fn awaited_text(completed: bool) -> Seq<char> {
    if completed {
        "Human signalled done — the session is authenticated; resuming."@
    } else {
        "Timed out waiting for the human to finish. The link may still be valid; call await_human_takeover again or issue a new request_human_takeover."@
    }
}

/// The answer once the wait for a human is over.
pub fn awaited_human(completed: bool, token: &str) -> (r: Reply)
    ensures
        r@ == struct_reply(
            awaited_text(completed),
            object2("completed"@, JsonView::Bool(completed), "token"@, JsonView::Str(token@)),
        ),
{
    let body = if completed {
        "Human signalled done — the session is authenticated; resuming."
    } else {
        "Timed out waiting for the human to finish. The link may still be valid; call await_human_takeover again or issue a new request_human_takeover."
    };
    ok_text_struct(
        body.to_string(),
        obj2("completed", Json::Bool(completed), "token", text(token)),
    )
}

/// What is said once stealth is set.
pub open spec fn stealth_text(enabled: bool) -> Seq<char> {
    if enabled {
        "Stealth ON: listener Runtime disabled — no CDP Runtime.enable tell (passes CDP-based bot detection), but console capture is off and `evaluate` runs in an isolated world (can't read page globals like window.dataLayer). Load/navigate pages in this mode to pass bot gates."@
    } else {
        "Stealth OFF: listener Runtime enabled — console capture on and `evaluate` runs in the main world (reads window.dataLayer etc.), but the CDP Runtime.enable tell is present (may be bot-flagged on a fresh page load)."@
    }
}

/// The answer once stealth is set.
pub fn stealth_set(enabled: bool) -> (r: Reply)
    ensures
        r@ == struct_reply(
            stealth_text(enabled),
            object1("stealth"@, JsonView::Bool(enabled)),
        ),
{
    let body = if enabled {
        "Stealth ON: listener Runtime disabled — no CDP Runtime.enable tell (passes CDP-based bot detection), but console capture is off and `evaluate` runs in an isolated world (can't read page globals like window.dataLayer). Load/navigate pages in this mode to pass bot gates."
    } else {
        "Stealth OFF: listener Runtime enabled — console capture on and `evaluate` runs in the main world (reads window.dataLayer etc.), but the CDP Runtime.enable tell is present (may be bot-flagged on a fresh page load)."
    };
    ok_text_struct(body.to_string(), obj1("stealth", Json::Bool(enabled)))
}

/// The answer that says whether stealth is on.
pub fn stealth_state(enabled: bool) -> (r: Reply)
    ensures
        r@ == struct_reply(
            if enabled {
                "stealth = true"@
            } else {
                "stealth = false"@
            },
            object1("stealth"@, JsonView::Bool(enabled)),
        ),
{
    let body = if enabled {
        "stealth = true"
    } else {
        "stealth = false"
    };
    ok_text_struct(body.to_string(), obj1("stealth", Json::Bool(enabled)))
}

// ---- saved states ---------------------------------------------------------

/// The answer to a state that was saved.
pub fn saved_state(name: &str, stored_name: &str, saved_at: &str, cookies: usize) -> (r: Reply)
    ensures
        r@ == struct_reply(
            "Saved "@ + decimal(cookies as nat) + " cookies as \""@ + name@ + "\"."@,
            object3(
                "name"@,
                JsonView::Str(stored_name@),
                "savedAt"@,
                JsonView::Str(saved_at@),
                "cookieCount"@,
                count(cookies as nat),
            ),
        ),
{
    ok_text_struct(
        cat5("Saved ", decimal_text(cookies as u64).as_str(), " cookies as \"", name, "\"."),
        obj3(
            "name",
            text(stored_name),
            "savedAt",
            text(saved_at),
            "cookieCount",
            whole(cookies as u64),
        ),
    )
}

/// The answer to a state that was loaded.
pub fn loaded_state(name: &str, cookies: usize) -> (r: Reply)
    ensures
        r@ == struct_reply(
            "Loaded "@ + decimal(cookies as nat) + " cookies from \""@ + name@ + "\"."@,
            object2("name"@, JsonView::Str(name@), "cookieCount"@, count(cookies as nat)),
        ),
{
    ok_text_struct(
        cat5("Loaded ", decimal_text(cookies as u64).as_str(), " cookies from \"", name, "\"."),
        obj2("name", text(name), "cookieCount", whole(cookies as u64)),
    )
}

/// What is told of a saved state; the value is the one that its store gives.
pub struct StateSummary {
    pub name: String,
    pub cookie_count: usize,
    pub saved_at: String,
    pub value: Json,
}

/// What a [`StateSummary`] says.
#[verifier::ext_equal]
pub struct SummaryView {
    pub name: Seq<char>,
    pub cookie_count: usize,
    pub saved_at: Seq<char>,
    pub value: JsonView,
}

impl View for StateSummary {
    type V = SummaryView;

    open spec fn view(&self) -> SummaryView {
        SummaryView {
            name: self.name@,
            cookie_count: self.cookie_count,
            saved_at: self.saved_at@,
            value: self.value@,
        }
    }
}

/// What the entries of a list say.
pub open spec fn summaries(v: Seq<StateSummary>) -> Seq<SummaryView> {
    v.map_values(|s: StateSummary| s@)
}

/// The line of a saved state.
pub open spec fn state_line(s: SummaryView) -> Seq<char> {
    "- "@ + s.name + "  cookies="@ + decimal(s.cookie_count as nat) + "  saved="@ + s.saved_at
}

/// The answer that lists the saved states.
pub open spec fn state_list_reply(list: Seq<SummaryView>) -> ReplyView {
    struct_reply(
        lines_or(list.map_values(|s: SummaryView| state_line(s)), "(no saved states)"@),
        object1("states"@, JsonView::Array(list.map_values(|s: SummaryView| s.value))),
    )
}

/// The answer that lists the saved states.
pub fn listed_states(list: &Vec<StateSummary>) -> (r: Reply)
    ensures
        r@ == state_list_reply(summaries(list@)),
{
    let mut lines: Vec<String> = Vec::new();
    let mut values: Vec<Json> = Vec::new();
    let mut i: usize = 0;
    while i < list.len()
        invariant
            i <= list@.len(),
            lines@.len() == i,
            values@.len() == i,
            forall|j: int| 0 <= j < i ==> (#[trigger] lines@[j])@ == state_line(list@[j]@),
            forall|j: int| 0 <= j < i ==> (#[trigger] values@[j])@ == list@[j]@.value,
        decreases list@.len() - i,
    {
        let mut line = cat4(
            "- ",
            list[i].name.as_str(),
            "  cookies=",
            decimal_text(list[i].cookie_count as u64).as_str(),
        );
        line.append("  saved=");
        line.append(list[i].saved_at.as_str());
        lines.push(line);
        values.push(list[i].value.copy());
        i += 1;
    }
    proof {
        assert(texts(lines@) =~= summaries(list@).map_values(|s: SummaryView| state_line(s)));
        assert(items(values@) =~= summaries(list@).map_values(|s: SummaryView| s.value));
    }
    let body = body_of(&lines, "(no saved states)");
    ok_text_struct(body, obj1("states", array(values)))
}

/// The answer to a state that was to be deleted.
pub fn deleted_state(name: &str, removed: bool) -> (r: Reply)
    ensures
        r@ == struct_reply(
            if removed {
                "Deleted \""@ + name@ + "\"."@
            } else {
                "No saved state named \""@ + name@ + "\"."@
            },
            object2("name"@, JsonView::Str(name@), "removed"@, JsonView::Bool(removed)),
        ),
{
    let body = if removed {
        cat3("Deleted \"", name, "\".")
    } else {
        cat3("No saved state named \"", name, "\".")
    };
    ok_text_struct(body, obj2("name", text(name), "removed", Json::Bool(removed)))
}

}
