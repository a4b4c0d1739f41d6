use browser_session_mcp::error::ErrorChain;
use browser_session_mcp::json::{Json, Number};
use browser_session_mcp::sessions::{SessionInfo, Target};
use browser_session_mcp::takeover::Ticket;
use browser_session_mcp::tools::args::{read_call, Call, ClickTarget, Condition, Request};
use browser_session_mcp::tools::cookies::{clean_cookie, cookies_to_set};
use browser_session_mcp::tools::keys::{dispatch_key, KeyAction, KeyDef};
use browser_session_mcp::tools::logs::{
    can_list_visits, listed_visits, short_target, ConsoleEntry, Entry, NetworkEntry, Visit,
};
use browser_session_mcp::tools::reply::{Content, Reply, StateSummary};
use browser_session_mcp::tools::run::{begin, resume, Action, News, Run};
use browser_session_mcp::tools::script::{
    body_function, center_probe, element_center, evaluate_function, is_syntax_error, is_true,
    main_world_call, script_result, text_probe, World, CLEAR_VALUE,
};
use browser_session_mcp::tools::{find_tool, tool_defs, tools, Tool};

fn json(v: &serde_json::Value) -> Json {
    match v {
        serde_json::Value::Null => Json::Null,
        serde_json::Value::Bool(b) => Json::Bool(*b),
        serde_json::Value::Number(n) => Json::Number(if let Some(u) = n.as_u64() {
            Number::Unsigned(u)
        } else if let Some(i) = n.as_i64() {
            Number::Negative(i)
        } else {
            Number::Float(n.as_f64().unwrap_or(0.0).to_bits())
        }),
        serde_json::Value::String(s) => Json::Str(s.clone()),
        serde_json::Value::Array(a) => Json::Array(a.iter().map(json).collect()),
        serde_json::Value::Object(m) => {
            Json::Object(m.iter().map(|(k, v)| (k.clone(), json(v))).collect())
        }
    }
}

fn value(j: &Json) -> serde_json::Value {
    match j {
        Json::Null => serde_json::Value::Null,
        Json::Bool(b) => serde_json::Value::Bool(*b),
        Json::Number(Number::Unsigned(n)) => serde_json::Value::from(*n),
        Json::Number(Number::Negative(n)) => serde_json::Value::from(*n),
        Json::Number(Number::Float(bits)) => serde_json::Value::from(f64::from_bits(*bits)),
        Json::Str(s) => serde_json::Value::from(s.as_str()),
        Json::Array(v) => serde_json::Value::Array(v.iter().map(value).collect()),
        Json::Object(ms) => {
            serde_json::Value::Object(ms.iter().map(|(k, v)| (k.clone(), value(v))).collect())
        }
    }
}

fn parse(s: &str) -> serde_json::Value {
    match serde_json::from_str(s) {
        Ok(v) => v,
        Err(e) => panic!("{e}"),
    }
}

fn args(s: &str) -> Vec<(String, Json)> {
    match json(&parse(s)) {
        Json::Object(ms) => ms,
        _ => panic!("an object was wanted"),
    }
}

fn call(tool: Tool, s: &str) -> Request {
    match read_call(tool, &args(s)) {
        Ok(c) => c,
        Err(e) => panic!("{}", e.message()),
    }
}

fn refusal(tool: Tool, s: &str) -> String {
    match read_call(tool, &args(s)) {
        Ok(_) => panic!("a refusal was due"),
        Err(e) => e.message(),
    }
}

fn error(text: &str) -> ErrorChain {
    ErrorChain { causes: vec![text.to_string()] }
}

fn body(r: &Reply) -> String {
    match &r.content[0] {
        Content::Text(t) => t.clone(),
        Content::Image { .. } => panic!("a text was wanted"),
    }
}

fn done(run: Run) -> (String, serde_json::Value) {
    match run.action {
        Action::Done(r) => {
            assert!(!r.is_error);
            let shown = body(&r);
            (shown, r.structured.as_ref().map(value).unwrap_or(serde_json::Value::Null))
        }
        Action::Failed(e) => panic!("{}", e.render()),
        _ => panic!("the call is not over"),
    }
}

fn failed(run: Run) -> String {
    match run.action {
        Action::Failed(e) => e.render(),
        _ => panic!("an error was due"),
    }
}

fn page() -> News {
    News::Page(Ok("T".to_string()))
}

fn start(tool: Tool, s: &str) -> Run {
    begin(call(tool, s))
}

// ---- the tools ------------------------------------------------------------

#[test]
fn there_are_28_tools_with_names_of_their_own() {
    let defs = tool_defs();
    assert_eq!(defs.len(), 28);
    for (t, d) in tools().iter().zip(defs.iter()) {
        assert_eq!(d.name, t.name());
        assert_eq!(d.description, t.description());
        assert_eq!(find_tool(d.name), Some(*t));
        assert!(!d.description.is_empty());
        assert_eq!(defs.iter().filter(|e| e.name == d.name).count(), 1);
    }
    assert_eq!(find_tool("Click"), None);
    assert_eq!(defs[0].name, "open_browser_session");
    assert_eq!(defs[27].name, "delete_browser_state");
    assert_eq!(
        defs[1].description,
        "Close a browser session. Releases its tabs, cookies, and storage. Idempotent."
    );
}

fn schema(name: &str) -> serde_json::Value {
    for d in tool_defs() {
        if d.name == name {
            return value(&Json::Object(d.input_schema));
        }
    }
    panic!("no such tool")
}

#[test]
fn schemas_are_exact() {
    assert_eq!(
        schema("list_browser_states"),
        parse("{\"type\":\"object\",\"properties\":{},\"additionalProperties\":false}")
    );
    assert_eq!(
        schema("open_browser_session"),
        parse(
            "{\"type\":\"object\",\"properties\":{\"viewport\":{\"type\":\"object\",\"properties\":{\"width\":{\"type\":\"integer\",\"minimum\":1},\"height\":{\"type\":\"integer\",\"minimum\":1}},\"required\":[\"width\",\"height\"],\"additionalProperties\":false},\"useMobileUA\":{\"type\":\"boolean\"}},\"additionalProperties\":false}"
        )
    );
    assert_eq!(
        schema("navigate"),
        parse(
            "{\"type\":\"object\",\"properties\":{\"sessionId\":{\"type\":\"string\"},\"url\":{\"type\":\"string\",\"format\":\"uri\"},\"timeout\":{\"type\":\"integer\",\"minimum\":1}},\"required\":[\"sessionId\",\"url\"],\"additionalProperties\":false}"
        )
    );
    assert_eq!(
        schema("switch_tab"),
        parse(
            "{\"type\":\"object\",\"properties\":{\"sessionId\":{\"type\":\"string\"},\"tabIndex\":{\"type\":\"integer\",\"minimum\":0}},\"required\":[\"sessionId\",\"tabIndex\"],\"additionalProperties\":false}"
        )
    );
    assert_eq!(
        schema("move_mouse")["properties"]["x"],
        parse("{\"type\":\"number\"}")
    );
}

// ---- arguments ------------------------------------------------------------

#[test]
fn required_texts_are_enforced() {
    for t in tools() {
        let missing = refusal_of(t);
        if let Some(first) = t.required().first() {
            if *first == "sessionId" || *first == "token" || *first == "name" {
                assert_eq!(missing, Some(format!("{first} must be a non-empty string")));
            }
        } else {
            assert_eq!(missing, None);
        }
    }
    assert_eq!(refusal(Tool::Navigate, "{\"sessionId\":\"\"}"), "sessionId must be a non-empty string");
    assert_eq!(refusal(Tool::Navigate, "{\"sessionId\":5}"), "sessionId must be a non-empty string");
    assert_eq!(refusal(Tool::Navigate, "{\"sessionId\":\"S\"}"), "url must be a non-empty string");
    assert_eq!(
        refusal(Tool::TypeText, "{\"sessionId\":\"S\",\"selector\":\"a\"}"),
        "text must be a non-empty string"
    );
    assert_eq!(refusal(Tool::PressKey, "{\"sessionId\":\"S\"}"), "key must be a non-empty string");
    assert_eq!(refusal(Tool::Evaluate, "{\"sessionId\":\"S\"}"), "expression must be a non-empty string");
    assert_eq!(refusal(Tool::SaveState, "{\"sessionId\":\"S\"}"), "name must be a non-empty string");
    assert_eq!(refusal(Tool::LoadState, "{\"sessionId\":\"S\"}"), "name must be a non-empty string");
}

fn refusal_of(t: Tool) -> Option<String> {
    match read_call(t, &Vec::new()) {
        Ok(_) => None,
        Err(e) => Some(e.message()),
    }
}

#[test]
fn viewports_are_checked() {
    assert!(matches!(
        call(Tool::OpenSession, "{\"viewport\":{\"width\":10,\"height\":20},\"useMobileUA\":true}"),
        Call::OpenSession { viewport: Some(v), use_mobile: true } if v.width == 10 && v.height == 20
    ));
    assert!(matches!(
        call(Tool::OpenSession, "{\"useMobileUA\":\"yes\"}"),
        Call::OpenSession { viewport: None, use_mobile: false }
    ));
    assert_eq!(
        refusal(Tool::OpenSession, "{\"viewport\":null}"),
        "viewport must be an object {width, height}"
    );
    for bad in ["{}", "{\"width\":0}", "{\"width\":-1}", "{\"width\":1.5}", "{\"width\":9223372036854775808}"] {
        assert_eq!(
            refusal(Tool::OpenSession, &format!("{{\"viewport\":{bad}}}")),
            "viewport.width must be a positive integer"
        );
    }
    assert_eq!(
        refusal(Tool::OpenSession, "{\"viewport\":{\"width\":1}}"),
        "viewport.height must be a positive integer"
    );
}

#[test]
fn numbers_have_defaults_and_limits() {
    assert!(matches!(
        call(Tool::ListConsoleMessages, "{\"sessionId\":\"S\",\"visit\":4294967296}"),
        Call::ListConsoleMessages { visit: None, limit: 500, .. }
    ));
    assert!(matches!(
        call(Tool::ListNetworkRequests, "{\"sessionId\":\"S\",\"visit\":7,\"limit\":3}"),
        Call::ListNetworkRequests { visit: Some(7), limit: 3, .. }
    ));
    assert!(matches!(
        call(Tool::RequestTakeover, "{\"sessionId\":\"S\"}"),
        Call::RequestTakeover { ttl_ms: 300_000, .. }
    ));
    assert!(matches!(
        call(Tool::RequestTakeover, "{\"sessionId\":\"S\",\"ttl\":99999999}"),
        Call::RequestTakeover { ttl_ms: 1_800_000, .. }
    ));
    assert!(matches!(
        call(Tool::AwaitTakeover, "{\"token\":\"t\",\"timeout\":4000}"),
        Call::AwaitTakeover { timeout_ms: 4_000, .. }
    ));
    assert!(matches!(
        call(Tool::Scroll, "{\"sessionId\":\"S\",\"deltaY\":-1.5}"),
        Call::Scroll {
            delta_x: Number::Unsigned(0),
            delta_y: Number::Float(b),
            x: Number::Unsigned(50),
            y: Number::Unsigned(50),
            ..
        } if f64::from_bits(b) == -1.5
    ));
    assert!(matches!(
        call(Tool::Scroll, "{\"sessionId\":\"S\"}"),
        Call::Scroll { delta_y: Number::Unsigned(600), .. }
    ));
    assert_eq!(refusal(Tool::SwitchTab, "{\"sessionId\":\"S\"}"), "`tabIndex` (integer) is required");
    assert_eq!(
        refusal(Tool::CloseTab, "{\"sessionId\":\"S\",\"tabIndex\":-1}"),
        "`tabIndex` (integer) is required"
    );
}

#[test]
fn selectors_come_first() {
    assert!(matches!(
        call(Tool::Click, "{\"sessionId\":\"S\",\"selector\":\"#a\",\"x\":1,\"y\":2}"),
        Call::Click { target: Some(ClickTarget::Selector { selector, timeout_ms: 5_000 }), .. } if selector == "#a"
    ));
    assert!(matches!(
        call(Tool::Click, "{\"sessionId\":\"S\",\"x\":1,\"y\":2}"),
        Call::Click { target: Some(ClickTarget::Point { x: Number::Unsigned(1), y: Number::Unsigned(2) }), .. }
    ));
    assert!(matches!(
        call(Tool::Click, "{\"sessionId\":\"S\",\"x\":1}"),
        Call::Click { target: None, .. }
    ));
    assert!(matches!(
        call(Tool::WaitFor, "{\"sessionId\":\"S\",\"selector\":\"a\",\"text\":\"b\"}"),
        Call::WaitFor { condition: Condition::Selector { .. }, timeout_ms: 10_000, .. }
    ));
    assert!(matches!(
        call(Tool::WaitFor, "{\"sessionId\":\"S\",\"text\":\"b\",\"timeout\":7}"),
        Call::WaitFor { condition: Condition::Text { text }, timeout_ms: 7, .. } if text == "b"
    ));
    assert_eq!(
        refusal(Tool::WaitFor, "{\"sessionId\":\"S\"}"),
        "wait_for requires either `selector` or `text`."
    );
}

// ---- calls from start to end ----------------------------------------------

#[test]
fn sessions_are_opened_closed_and_listed() {
    let run = start(Tool::OpenSession, "{}");
    assert!(matches!(run.action, Action::OpenSession { viewport: None, use_mobile: false }));
    let info = SessionInfo {
        session_id: "S".to_string(),
        page_count: 1,
        active_url: Some("about:blank".to_string()),
    };
    let (shown, structured) = done(resume(run, News::Opened(Ok(info))));
    assert_eq!(shown, "Opened session S");
    assert_eq!(
        structured,
        parse("{\"sessionId\":\"S\",\"pageCount\":1,\"activeUrl\":\"about:blank\"}")
    );
    let run = start(Tool::CloseSession, "{\"sessionId\":\"S\"}");
    assert!(matches!(&run.action, Action::CloseSession { session_id } if session_id == "S"));
    assert_eq!(done(resume(run, News::Noted)).0, "Closed session S");
    let run = start(Tool::ListSessions, "{}");
    let all = vec![
        Target {
            target_id: "1".to_string(),
            kind: "page".to_string(),
            url: "http://a/".to_string(),
            title: String::new(),
            context_id: Some("S".to_string()),
        },
        Target {
            target_id: "2".to_string(),
            kind: "worker".to_string(),
            url: String::new(),
            title: String::new(),
            context_id: Some("R".to_string()),
        },
    ];
    let (shown, structured) = done(resume(run, News::Targets(Ok(all))));
    assert_eq!(shown, "- S  pages=1  url=http://a/");
    assert_eq!(
        structured,
        parse("{\"sessions\":[{\"sessionId\":\"S\",\"pageCount\":1,\"activeUrl\":\"http://a/\"}]}")
    );
    let run = start(Tool::ListSessions, "{}");
    assert_eq!(done(resume(run, News::Targets(Ok(Vec::new())))).0, "No active sessions.");
    let run = start(Tool::ListSessions, "{}");
    assert_eq!(failed(resume(run, News::Targets(Err(error("e"))))), "Target.getTargets: e");
}

#[test]
fn tabs_are_opened_listed_switched_and_closed() {
    let run = start(Tool::NewPage, "{\"sessionId\":\"S\",\"url\":\"http://x/\"}");
    assert!(matches!(&run.action, Action::OpenTab { url: Some(u), .. } if u == "http://x/"));
    let run = resume(run, page());
    assert!(matches!(run.action, Action::CountPages { .. }));
    let run = resume(run, News::Count(Ok(3)));
    assert!(matches!(run.action, Action::ReadUrl { open: 3 }));
    assert_eq!(run.target_id, "T");
    let (shown, structured) = done(resume(run, News::Url(Ok(None))));
    assert_eq!(shown, "Opened tab #2");
    assert_eq!(structured, parse("{\"index\":2,\"url\":\"\"}"));

    let run = start(Tool::ListPages, "{\"sessionId\":\"S\"}");
    let tab = |id: &str| Target {
        target_id: id.to_string(),
        kind: "page".to_string(),
        url: format!("http://{id}/"),
        title: format!("t{id}"),
        context_id: Some("S".to_string()),
    };
    let tabs = vec![tab("a"), tab("b")];
    let (shown, structured) = done(resume(run, News::Tabs(Ok((tabs, Some("b".to_string()))))));
    assert_eq!(shown, "  0: http://a/  \"ta\"\n* 1: http://b/  \"tb\"");
    assert_eq!(
        structured,
        parse("{\"pages\":[{\"index\":0,\"url\":\"http://a/\",\"title\":\"ta\",\"active\":false},{\"index\":1,\"url\":\"http://b/\",\"title\":\"tb\",\"active\":true}]}")
    );
    let run = start(Tool::ListPages, "{\"sessionId\":\"S\"}");
    assert_eq!(done(resume(run, News::Tabs(Ok((Vec::new(), None))))).0, "(no pages)");

    let run = start(Tool::SwitchTab, "{\"sessionId\":\"S\",\"tabIndex\":1}");
    assert!(matches!(run.action, Action::SwitchTo { index: 1, .. }));
    let run = resume(run, page());
    assert!(matches!(run.action, Action::BringToFront));
    let run = resume(run, News::Noted);
    let (shown, structured) = done(resume(run, News::Url(Ok(Some("u".to_string())))));
    assert_eq!(shown, "Switched to tab #1 (u)");
    assert_eq!(structured, parse("{\"index\":1,\"url\":\"u\"}"));

    let run = start(Tool::CloseTab, "{\"sessionId\":\"S\",\"tabIndex\":4}");
    assert!(matches!(run.action, Action::CloseAt { index: 4, .. }));
    assert_eq!(done(resume(run, News::Answer(Ok(())))).0, "Closed tab #4");
}

#[test]
fn navigation_has_a_time_limit_if_asked_for() {
    let s = "{\"sessionId\":\"S\",\"url\":\"http://x/\",\"timeout\":50}";
    let run = resume(start(Tool::Navigate, s), page());
    assert!(matches!(&run.action, Action::Goto { url, timeout_ms: Some(50) } if url == "http://x/"));
    let run = resume(run, News::Answer(Ok(())));
    let (shown, structured) = done(resume(run, News::Url(Ok(None))));
    assert_eq!(shown, "Navigated to http://x/");
    assert_eq!(structured, parse("{\"url\":\"http://x/\"}"));
    let run = resume(start(Tool::Navigate, s), page());
    assert_eq!(failed(resume(run, News::Elapsed)), "navigation timed out after 50ms");
    let run = resume(start(Tool::Navigate, s), page());
    assert_eq!(failed(resume(run, News::Answer(Err(error("e"))))), "Page.navigate: e");
    let run = resume(resume(start(Tool::Navigate, s), page()), News::Answer(Ok(())));
    assert_eq!(done(resume(run, News::Url(Ok(Some("http://y/".to_string()))))).0, "Navigated to http://y/");
    let run = start(Tool::Navigate, s);
    assert_eq!(failed(resume(run, News::Page(Err(error("gone"))))), "gone");
}

#[test]
fn a_screenshot_is_base64() {
    let run = resume(start(Tool::TakeScreenshot, "{\"sessionId\":\"S\",\"fullPage\":true}"), page());
    assert!(matches!(run.action, Action::Capture { full_page: true }));
    let run = resume(run, News::Picture(Ok(vec![0, 1, 2, 250])));
    match run.action {
        Action::Done(r) => {
            assert_eq!(body(&r), "Captured 4 bytes PNG.");
            match &r.content[1] {
                Content::Image { data, mime } => {
                    assert_eq!(data, "AAEC+g==");
                    assert_eq!(mime, "image/png");
                }
                Content::Text(_) => panic!("an image was wanted"),
            }
        }
        _ => panic!("the call is not over"),
    }
    for (bytes, expected) in [
        (vec![], ""),
        (vec![255], "/w=="),
        (vec![251, 255], "+/8="),
        (vec![77, 97, 110], "TWFu"),
    ] {
        let run = resume(start(Tool::TakeScreenshot, "{\"sessionId\":\"S\"}"), page());
        match resume(run, News::Picture(Ok(bytes))).action {
            Action::Done(r) => match &r.content[1] {
                Content::Image { data, .. } => assert_eq!(data, expected),
                Content::Text(_) => panic!("an image was wanted"),
            },
            _ => panic!("the call is not over"),
        }
    }
    let run = resume(start(Tool::TakeScreenshot, "{\"sessionId\":\"S\"}"), page());
    assert_eq!(
        failed(resume(run, News::Picture(Err(error("e"))))),
        "Page.captureScreenshot: e"
    );
}

#[test]
fn a_snapshot_is_its_text() {
    let run = resume(start(Tool::TakeSnapshot, "{\"sessionId\":\"S\"}"), page());
    assert!(matches!(run.action, Action::Snapshot));
    assert_eq!(done(resume(run, News::Text(Ok("tree".to_string())))).0, "tree");
}

#[test]
fn a_click_goes_to_the_middle_of_an_element() {
    let s = "{\"sessionId\":\"S\",\"selector\":\"#a\",\"timeout\":9}";
    let run = resume(start(Tool::Click, s), page());
    assert!(matches!(&run.action, Action::AwaitElement { selector, timeout_ms: 9 } if selector == "#a"));
    let run = resume(run, News::Seen(true));
    match &run.action {
        Action::Evaluate { function, world, otherwise: None } => {
            assert_eq!(*world, World::Isolated);
            assert_eq!(function, &center_probe("#a"));
        }
        _ => panic!("the middle is to be found"),
    }
    let run = resume(run, News::Value(Ok(json(&parse("[1.5,2]")))));
    assert!(matches!(&run.action, Action::ClickAt { y: Number::Unsigned(2), label, .. } if label == "#a"));
    assert_eq!(done(resume(run, News::Answer(Ok(())))).0, "Clicked #a");

    let run = resume(start(Tool::Click, s), page());
    assert_eq!(failed(resume(run, News::Seen(false))), "timed out waiting for selector #a");
    let run = resume(resume(start(Tool::Click, s), page()), News::Seen(true));
    assert_eq!(
        failed(resume(run, News::Value(Ok(Json::Null)))),
        "element `#a` not found or not visible"
    );
    let run = resume(start(Tool::Click, "{\"sessionId\":\"S\",\"x\":1,\"y\":2.5}"), page());
    assert!(matches!(run.action, Action::ShowNumbers { a: Number::Unsigned(1), .. }));
    let run = resume(run, News::Shown("1".to_string(), "2.5".to_string()));
    assert!(matches!(&run.action, Action::ClickAt { label, .. } if label == "(1, 2.5)"));
    assert_eq!(failed(resume(run, News::Answer(Err(error("e"))))), "clicking (1, 2.5): e");
    let run = start(Tool::Click, "{\"sessionId\":\"S\",\"y\":2.5}");
    assert_eq!(
        failed(resume(run, page())),
        "click requires either `selector` or both `x` and `y`"
    );
}

#[test]
fn text_is_typed_into_an_element() {
    let s = "{\"sessionId\":\"S\",\"selector\":\"i\",\"text\":\"äbc\",\"clear\":true}";
    let run = resume(start(Tool::TypeText, s), page());
    assert!(matches!(run.action, Action::AwaitElement { timeout_ms: 5_000, .. }));
    let run = resume(run, News::Seen(true));
    assert!(matches!(run.action, Action::FindElement { .. }));
    let run = resume(run, News::Answer(Ok(())));
    assert!(matches!(run.action, Action::ClearElement { .. }));
    let run = resume(run, News::Noted);
    assert!(matches!(run.action, Action::ClickElement { .. }));
    let run = resume(run, News::Noted);
    assert!(matches!(&run.action, Action::TypeInto { text, .. } if text == "äbc"));
    assert_eq!(done(resume(run, News::Answer(Ok(())))).0, "Typed 3 chars into i");
    let run = resume(resume(start(Tool::TypeText, s), page()), News::Seen(true));
    assert_eq!(failed(resume(run, News::Answer(Err(error("e"))))), "locating i: e");
    assert_eq!(
        CLEAR_VALUE,
        "function() { if (this.value !== undefined) this.value = ''; }"
    );
}

fn layout() -> Vec<KeyDef<String>> {
    vec![
        KeyDef {
            key: "Enter".to_string(),
            code: "Enter".to_string(),
            key_code: 13,
            text: Some("\r".to_string()),
        },
        KeyDef { key: "a".to_string(), code: "KeyA".to_string(), key_code: 65, text: None },
        KeyDef { key: "Tab".to_string(), code: "Tab".to_string(), key_code: 9, text: None },
        KeyDef { key: "Tab".to_string(), code: "Other".to_string(), key_code: 0, text: None },
    ]
}

#[test]
fn keys_go_down_and_come_up() {
    let keys = layout();
    match dispatch_key(&keys, "Enter") {
        Ok((down, up)) => {
            assert_eq!(down.action, KeyAction::Down);
            assert_eq!(down.text, Some("\r".to_string()));
            assert_eq!((up.action, up.text, up.key_code), (KeyAction::Up, None, 13));
        }
        Err(_) => panic!("the key is there"),
    }
    assert!(matches!(
        dispatch_key(&keys, "a"),
        Ok((down, _)) if down.action == KeyAction::Down && down.text == Some("a".to_string())
    ));
    assert!(matches!(
        dispatch_key(&keys, "Tab"),
        Ok((down, _)) if down.action == KeyAction::RawDown && down.text.is_none() && down.code == "Tab"
    ));
    let run = resume(start(Tool::PressKey, "{\"sessionId\":\"S\",\"key\":\"a\"}"), page());
    assert!(matches!(run.action, Action::ReadLayout));
    let run = resume(run, News::Layout(layout()));
    assert!(matches!(run.action, Action::KeyDown { .. }));
    let run = resume(run, News::Answer(Ok(())));
    assert!(matches!(run.action, Action::KeyUp { .. }));
    assert_eq!(done(resume(run, News::Answer(Ok(())))).0, "Pressed a");
    let run = resume(start(Tool::PressKey, "{\"sessionId\":\"S\",\"key\":\"F99\"}"), page());
    assert_eq!(
        failed(resume(run, News::Layout(layout()))),
        "unknown key `F99` (use names like Enter, Tab, Escape, ArrowDown, Backspace, or a single char)"
    );
    let s = "{\"sessionId\":\"S\",\"key\":\"Enter\",\"selector\":\"i\"}";
    let run = resume(resume(resume(start(Tool::PressKey, s), page()), News::Seen(true)), News::Answer(Ok(())));
    assert!(matches!(&run.action, Action::PressOn { selector, key } if selector == "i" && key == "Enter"));
    assert_eq!(failed(resume(run, News::Answer(Err(error("e"))))), "pressing Enter: e");
}

#[test]
fn the_mouse_scrolls_and_moves() {
    let run = resume(start(Tool::Scroll, "{\"sessionId\":\"S\"}"), page());
    assert!(matches!(run.action, Action::Wheel { .. }));
    let run = resume(run, News::Answer(Ok(())));
    assert!(matches!(run.action, Action::ShowNumbers { a: Number::Unsigned(0), b: Number::Unsigned(600) }));
    let run = resume(run, News::Shown("0".to_string(), "600".to_string()));
    assert_eq!(done(run).0, "Scrolled (deltaX=0, deltaY=600)");
    let run = resume(start(Tool::MoveMouse, "{\"sessionId\":\"S\",\"x\":1,\"y\":2}"), page());
    assert!(matches!(run.action, Action::MoveTo { .. }));
    let run = resume(resume(run, News::Answer(Ok(()))), News::Shown("1".to_string(), "2".to_string()));
    assert_eq!(done(run).0, "Moved mouse to (1, 2)");
    assert_eq!(failed(resume(start(Tool::MoveMouse, "{\"sessionId\":\"S\",\"y\":2}"), page())), "`x` is required");
    assert_eq!(failed(resume(start(Tool::MoveMouse, "{\"sessionId\":\"S\",\"x\":2}"), page())), "`y` is required");
    let run = resume(start(Tool::MoveMouse, "{\"sessionId\":\"S\",\"x\":1,\"y\":2}"), page());
    assert_eq!(
        failed(resume(run, News::Answer(Err(error("e"))))),
        "Input.dispatchMouseEvent (move): e"
    );
}

#[test]
fn waits_end_in_a_match_or_a_timeout() {
    let run = resume(start(Tool::WaitFor, "{\"sessionId\":\"S\",\"selector\":\"a\"}"), page());
    assert_eq!(done(resume(run, News::Seen(true))).0, "Matched selector a");
    let s = "{\"sessionId\":\"S\",\"text\":\"say \\\"hi\\\"\"}";
    let run = resume(start(Tool::WaitFor, s), page());
    match &run.action {
        Action::AwaitProbe { function, timeout_ms: 10_000 } => assert_eq!(
            function,
            "function() { return document.body && document.body.innerText && document.body.innerText.includes(\"say \\\"hi\\\"\"); }"
        ),
        _ => panic!("the text is to be waited for"),
    }
    assert_eq!(done(resume(run, News::Seen(true))).0, "Matched text \"say \"hi\"\"");
    let run = resume(start(Tool::WaitFor, s), page());
    assert_eq!(failed(resume(run, News::Seen(false))), "timed out");
}

fn at_expression(expression: &str, stealth: bool) -> Run {
    let arguments = vec![
        ("sessionId".to_string(), Json::Str("S".to_string())),
        ("expression".to_string(), Json::Str(expression.to_string())),
        ("tabIndex".to_string(), Json::Number(Number::Unsigned(2))),
    ];
    let run = match read_call(Tool::Evaluate, &arguments) {
        Ok(c) => begin(c),
        Err(e) => panic!("{}", e.message()),
    };
    assert!(matches!(run.action, Action::FindPage { tab: Some(2), .. }));
    let run = resume(run, page());
    assert!(matches!(run.action, Action::CheckFlag { .. }));
    resume(run, News::Seen(stealth))
}

fn function_of(run: &Run, expected: World) -> String {
    match &run.action {
        Action::Evaluate { function, world, .. } => {
            assert_eq!(*world, expected);
            function.clone()
        }
        _ => panic!("a script was due"),
    }
}

#[test]
fn expressions_run_in_the_world_of_the_session() {
    let run = at_expression("document.title", false);
    assert_eq!(
        function_of(&run, World::Main),
        "async function() { return (document.title); }"
    );
    let run = resume(run, News::Value(Ok(Json::Str("t".to_string()))));
    assert!(matches!(&run.action, Action::ShowValue { value: Json::Str(v) } if v == "t"));
    let (shown, structured) = done(resume(run, News::Text(Ok("\"t\"".to_string()))));
    assert_eq!(shown, "\"t\"");
    assert_eq!(structured, parse("{\"result\":\"t\"}"));
    let run = at_expression("document.title", true);
    assert_eq!(
        function_of(&run, World::Isolated),
        "async function() { return (document.title); }"
    );
    assert_eq!(
        failed(resume(run, News::Value(Err(error("JS exception: x"))))),
        "evaluate: JS exception: x"
    );
    let run = at_expression("document.(", false);
    assert_eq!(failed(resume(run, News::SyntaxError(error("JS exception: s")))), "evaluate: JS exception: s");
}

#[test]
fn an_expression_with_a_return_inside_keeps_its_value() {
    let run = at_expression("[1,2].map(function(x) { return x * 2; })", false);
    assert_eq!(
        function_of(&run, World::Main),
        "async function() { return ([1,2].map(function(x) { return x * 2; })); }"
    );
    let run = resume(run, News::Value(Ok(json(&parse("[2,4]")))));
    let (_, structured) = done(resume(run, News::Text(Ok("[2,4]".to_string()))));
    assert_eq!(structured, parse("{\"result\":[2,4]}"));
}

#[test]
fn a_body_is_run_where_it_is_no_expression() {
    let run = at_expression("const a = 1; return a;", true);
    assert_eq!(
        function_of(&run, World::Isolated),
        "async function() { return (const a = 1; return a;); }"
    );
    let run = resume(run, News::SyntaxError(error("JS exception: Uncaught")));
    assert_eq!(
        function_of(&run, World::Isolated),
        "async function() { const a = 1; return a; }"
    );
    let run = resume(run, News::Value(Ok(json(&parse("1")))));
    let (_, structured) = done(resume(run, News::Text(Ok("1".to_string()))));
    assert_eq!(structured, parse("{\"result\":1}"));
    let run = resume(at_expression("return (", false), News::SyntaxError(error("first")));
    assert_eq!(failed(resume(run, News::SyntaxError(error("second")))), "evaluate: second");
}

#[test]
fn syntax_errors_come_before_a_script_runs() {
    assert!(is_syntax_error("Uncaught", "SyntaxError"));
    assert!(!is_syntax_error("Uncaught (in promise) SyntaxError: x", "SyntaxError"));
    assert!(!is_syntax_error("Uncaught", "TypeError"));
}

#[test]
fn the_word_return_makes_a_body() {
    let body = |s: &str| body_function(s);
    assert_eq!(evaluate_function("1 + 1"), "async function() { return (1 + 1); }");
    assert_eq!(body("1 + 1"), None);
    assert_eq!(
        body("const a = 1; return a;"),
        Some("async function() { const a = 1; return a; }".to_string())
    );
    assert_eq!(body("return"), Some("async function() { return }".to_string()));
    assert_eq!(body("document.returnValue"), None);
    assert_eq!(body("no_return"), None);
    assert_eq!(main_world_call("function() {}"), "(function() {})()");
}

#[test]
fn probes_quote_what_they_look_for() {
    assert!(text_probe("a\n\"b").contains("includes(\"a\\n\\\"b\")"));
    assert_eq!(
        center_probe("[x=\"1\"]"),
        "function() { const el = document.querySelector(\"[x=\\\"1\\\"]\"); if (!el) return null; el.scrollIntoView({block:'center',inline:'center'}); const r = el.getBoundingClientRect(); return [r.left + r.width/2, r.top + r.height/2]; }"
    );
}

#[test]
fn results_of_scripts() {
    assert!(matches!(script_result(None, None), Ok(Json::Null)));
    assert!(matches!(script_result(None, Some(Json::Bool(true))), Ok(Json::Bool(true))));
    match script_result(Some("Uncaught".to_string()), Some(Json::Null)) {
        Ok(_) => panic!("the script threw"),
        Err(e) => assert_eq!(e.message(), "JS exception: Uncaught"),
    }
    assert!(is_true(&Json::Bool(true)));
    assert!(!is_true(&Json::Bool(false)));
    assert!(!is_true(&Json::Str("true".to_string())));
    let message = |v: &str| match element_center(&json(&parse(v)), "s") {
        Ok(_) => String::new(),
        Err(e) => e.message(),
    };
    assert_eq!(message("[1,2]"), "");
    assert_eq!(message("[null,2]"), "bad x coord");
    assert_eq!(message("[1,null]"), "bad y coord");
    assert_eq!(message("[1]"), "element `s` not found or not visible");
    assert_eq!(message("{}"), "element `s` not found or not visible");
}

// ---- logs -----------------------------------------------------------------

#[test]
fn visits_are_listed_with_short_ids() {
    assert_eq!(short_target("0123456789"), Some("01234567".to_string()));
    assert_eq!(short_target("01234567"), Some("01234567".to_string()));
    assert_eq!(short_target("ab"), Some("ab".to_string()));
    assert_eq!(short_target("ääääx"), Some("ääää".to_string()));
    assert_eq!(short_target("0123456ä"), None);
    let visit = |id: &str| Visit {
        seq: 3,
        target_id: id.to_string(),
        opened_at: "now".to_string(),
        url: "u".to_string(),
        value: Json::Bool(true),
    };
    let list = vec![visit("ABCDEFGHIJ")];
    assert!(can_list_visits(&list));
    assert!(!can_list_visits(&vec![visit("0123456ä")]));
    assert_eq!(body(&listed_visits(&list)), "seq=3  target=ABCDEFGH  now  u");
    let run = start(Tool::ListVisits, "{\"sessionId\":\"S\"}");
    assert!(matches!(run.action, Action::FindSession { .. }));
    let run = resume(run, News::Answer(Ok(())));
    assert!(matches!(run.action, Action::ReadVisits { .. }));
    let (shown, structured) = done(resume(run, News::Visits(Ok(Vec::new()))));
    assert_eq!(shown, "(no visits recorded)");
    assert_eq!(structured, parse("{\"visits\":[]}"));
}

fn console(ty: &str, text: &str) -> Entry<String, Json> {
    Entry::Console(ConsoleEntry {
        ty: ty.to_string(),
        text: text.to_string(),
        value: Some(Json::Str(text.to_string())),
    })
}

fn network(status: Option<u64>, failure: Option<&str>, data: Option<String>) -> Entry<String, Json> {
    Entry::Network(NetworkEntry {
        method: "GET".to_string(),
        url: "u".to_string(),
        status,
        failure: failure.map(str::to_string),
        post_data: data,
        value: Some(Json::Null),
    })
}

#[test]
fn console_messages_are_listed() {
    let run = start(Tool::ListConsoleMessages, "{\"sessionId\":\"S\",\"limit\":9}");
    let run = resume(run, News::Answer(Ok(())));
    assert!(matches!(run.action, Action::ReadLog { console: true, limit: 9, visit: None, .. }));
    let log = vec![console("log", "a"), network(None, None, None), Entry::Other, console("error", "b")];
    let (shown, structured) = done(resume(run, News::Log(Ok(log))));
    assert_eq!(shown, "[log] a\n[error] b");
    assert_eq!(structured, parse("{\"messages\":[\"a\",\"b\"]}"));
    let run = resume(start(Tool::ListConsoleMessages, "{\"sessionId\":\"S\"}"), News::Answer(Ok(())));
    assert_eq!(done(resume(run, News::Log(Ok(Vec::new())))).0, "(no console messages)");
    let run = resume(start(Tool::ListConsoleMessages, "{\"sessionId\":\"S\"}"), News::Answer(Ok(())));
    assert_eq!(done(resume(run, News::Log(Ok(vec![Entry::Other])))).0, "");
}

#[test]
fn network_requests_are_listed() {
    let start_log = || {
        resume(start(Tool::ListNetworkRequests, "{\"sessionId\":\"S\"}"), News::Answer(Ok(())))
    };
    let log = vec![
        network(Some(200), None, None),
        network(Some(200), Some("net::ERR"), Some("x".to_string())),
        console("log", "a"),
        network(None, None, Some("ä".repeat(1000))),
        network(None, None, Some("ä".repeat(1001))),
    ];
    let (shown, structured) = done(resume(start_log(), News::Log(Ok(log))));
    let thousand = "ä".repeat(1000);
    assert_eq!(
        shown,
        format!("GET u [200]\nGET u [FAIL:net::ERR]  body=x\nGET u [pending]  body={thousand}\nGET u [pending]  body={thousand}…")
    );
    assert_eq!(structured, parse("{\"requests\":[null,null,null,null]}"));
    assert_eq!(done(resume(start_log(), News::Log(Ok(Vec::new())))).0, "(no network requests)");
}

// ---- stealth, takeover, saved states --------------------------------------

#[test]
fn stealth_is_set_and_told() {
    let run = resume(start(Tool::SetStealth, "{\"sessionId\":\"S\",\"enabled\":true}"), News::Answer(Ok(())));
    assert!(matches!(run.action, Action::SetFlag { present: true, .. }));
    let (shown, structured) = done(resume(run, News::Answer(Ok(()))));
    assert!(shown.starts_with("Stealth ON: listener Runtime disabled"));
    assert_eq!(structured, parse("{\"stealth\":true}"));
    let run = resume(start(Tool::SetStealth, "{\"sessionId\":\"S\",\"enabled\":false}"), News::Answer(Ok(())));
    assert!(done(resume(run, News::Answer(Ok(())))).0.starts_with("Stealth OFF: listener Runtime enabled"));
    let run = start(Tool::SetStealth, "{\"sessionId\":\"S\",\"enabled\":1}");
    assert_eq!(failed(resume(run, News::Answer(Ok(())))), "`enabled` (boolean) is required");
    let run = start(Tool::SetStealth, "{\"sessionId\":\"../x\",\"enabled\":true}");
    assert_eq!(failed(resume(run, News::Answer(Ok(())))), "invalid session id");
    let run = resume(start(Tool::SetStealth, "{\"sessionId\":\"S\",\"enabled\":true}"), News::Answer(Ok(())));
    assert_eq!(failed(resume(run, News::Answer(Err(error("e"))))), "writing stealth flag: e");
    let run = start(Tool::GetStealth, "{\"sessionId\":\"S\"}");
    assert!(matches!(run.action, Action::CheckFlag { .. }));
    assert_eq!(done(resume(run, News::Seen(true))), ("stealth = true".to_string(), parse("{\"stealth\":true}")));
    let run = start(Tool::GetStealth, "{\"sessionId\":\"../x\"}");
    assert_eq!(done(resume(run, News::Seen(true))).0, "stealth = false");
}

#[test]
fn a_human_is_given_a_link() {
    let s = "{\"sessionId\":\"S\",\"ttl\":1000}";
    let run = start(Tool::RequestTakeover, s);
    assert!(matches!(run.action, Action::ReadBase));
    let run = resume(run, News::Base(Some("http://h/".to_string())));
    assert!(matches!(&run.action, Action::FindTarget { base, .. } if base == "http://h"));
    let run = resume(run, page());
    assert!(matches!(run.action, Action::MintToken { .. }));
    let run = resume(run, News::Token(Ok("tok".to_string())));
    assert!(matches!(run.action, Action::ReadClock { .. }));
    let run = resume(run, News::Clock(5));
    match &run.action {
        Action::WriteTicket { token, ticket: Ticket { session_id, target_id, expires_at_ms }, .. } => {
            assert_eq!(token, "tok");
            assert_eq!((session_id.as_str(), target_id.as_str(), *expires_at_ms), ("S", "T", 1_005));
        }
        _ => panic!("the ticket is to be written"),
    }
    let (shown, structured) = done(resume(run, News::Answer(Ok(()))));
    assert_eq!(
        shown,
        "Human takeover ready. Show this URL to the user so they can log in themselves. Then run await_human_takeover(token=\"tok\") in a BACKGROUND task that polls with a short timeout until completed — do NOT block your main loop; the human may take several minutes:\nhttp://h/takeover/tok"
    );
    assert_eq!(
        structured,
        parse("{\"url\":\"http://h/takeover/tok\",\"token\":\"tok\",\"expiresAtMs\":1005}")
    );
    let run = start(Tool::RequestTakeover, s);
    assert!(failed(resume(run, News::Base(None))).starts_with("TAKEOVER_BASE_URL is not configured"));
}

#[test]
fn the_wait_for_a_human_cleans_up_once_done() {
    let run = start(Tool::AwaitTakeover, "{\"token\":\"tok\"}");
    assert!(matches!(run.action, Action::AwaitDone { timeout_ms: 300_000, .. }));
    let run = resume(run, News::Seen(true));
    assert!(matches!(&run.action, Action::Cleanup { token } if token == "tok"));
    let (shown, structured) = done(resume(run, News::Noted));
    assert_eq!(shown, "Human signalled done — the session is authenticated; resuming.");
    assert_eq!(structured, parse("{\"completed\":true,\"token\":\"tok\"}"));
    let run = start(Tool::AwaitTakeover, "{\"token\":\"tok\"}");
    let (shown, structured) = done(resume(run, News::Seen(false)));
    assert!(shown.starts_with("Timed out waiting for the human to finish."));
    assert_eq!(structured, parse("{\"completed\":false,\"token\":\"tok\"}"));
}

#[test]
fn cookies_are_cleaned_before_they_are_set() {
    let clean = |s: &str| value(&clean_cookie(&json(&parse(s))));
    assert_eq!(
        clean("{\"name\":\"a\",\"session\":true,\"size\":3,\"expires\":-1}"),
        parse("{\"name\":\"a\"}")
    );
    assert_eq!(clean("{\"name\":\"a\",\"expires\":-1.0}"), parse("{\"name\":\"a\"}"));
    assert_eq!(clean("{\"expires\":-1.5}"), parse("{\"expires\":-1.5}"));
    assert_eq!(clean("{\"expires\":1700000000}"), parse("{\"expires\":1700000000}"));
    assert_eq!(clean("{\"expires\":\"-1\"}"), parse("{\"expires\":\"-1\"}"));
    assert_eq!(clean("[1]"), parse("[1]"));
    assert_eq!(cookies_to_set(&vec![Json::Null, Json::Bool(true)]).len(), 2);
}

#[test]
fn states_are_saved_loaded_listed_and_deleted() {
    let s = "{\"sessionId\":\"S\",\"name\":\"n\"}";
    let run = resume(start(Tool::SaveState, s), News::Answer(Ok(())));
    assert!(matches!(run.action, Action::GetCookies { .. }));
    let run = resume(run, News::Cookies(Ok(vec![Json::Null])));
    assert!(matches!(&run.action, Action::SaveCookies { name, cookies } if name == "n" && cookies.len() == 1));
    let (shown, structured) =
        done(resume(run, News::Saved(Ok(("n".to_string(), "today".to_string(), 1)))));
    assert_eq!(shown, "Saved 1 cookies as \"n\".");
    assert_eq!(structured, parse("{\"name\":\"n\",\"savedAt\":\"today\",\"cookieCount\":1}"));
    let run = resume(start(Tool::SaveState, s), News::Answer(Ok(())));
    assert_eq!(failed(resume(run, News::Cookies(Err(error("e"))))), "Storage.getCookies: e");

    let run = resume(start(Tool::LoadState, s), News::Answer(Ok(())));
    assert!(matches!(&run.action, Action::LoadCookies { name } if name == "n"));
    let run = resume(run, News::Cookies(Ok(vec![json(&parse("{\"size\":1}")), Json::Null])));
    match &run.action {
        Action::SetCookies { cookies, total: 2, .. } => assert_eq!(value(&cookies[0]), parse("{}")),
        _ => panic!("the cookies are to be set"),
    }
    let (shown, structured) = done(resume(run, News::Answer(Ok(()))));
    assert_eq!(shown, "Loaded 2 cookies from \"n\".");
    assert_eq!(structured, parse("{\"name\":\"n\",\"cookieCount\":2}"));
    let run = resume(start(Tool::LoadState, s), News::Answer(Ok(())));
    assert_eq!(done(resume(run, News::Cookies(Ok(Vec::new())))).0, "Loaded 0 cookies from \"n\".");

    let run = start(Tool::ListStates, "{}");
    assert!(matches!(run.action, Action::ListSaved));
    let list = vec![StateSummary {
        name: "n".to_string(),
        cookie_count: 4,
        saved_at: "today".to_string(),
        value: Json::Bool(true),
    }];
    let (shown, structured) = done(resume(run, News::States(Ok(list))));
    assert_eq!(shown, "- n  cookies=4  saved=today");
    assert_eq!(structured, parse("{\"states\":[true]}"));
    assert_eq!(
        done(resume(start(Tool::ListStates, "{}"), News::States(Ok(Vec::new())))).0,
        "(no saved states)"
    );

    let run = start(Tool::DeleteState, "{\"name\":\"n\"}");
    assert!(matches!(&run.action, Action::DeleteSaved { name } if name == "n"));
    assert_eq!(
        done(resume(run, News::Removed(Ok(true)))),
        ("Deleted \"n\".".to_string(), parse("{\"name\":\"n\",\"removed\":true}"))
    );
    let run = start(Tool::DeleteState, "{\"name\":\"n\"}");
    assert_eq!(done(resume(run, News::Removed(Ok(false)))).0, "No saved state named \"n\".");
}
