use browser_session_mcp::chrome_ctx::{Access, AccessNews, ChromeContext};
use browser_session_mcp::cli::{
    browser_url, parse_command, usage_error, version_line, Command, USAGE,
};
use browser_session_mcp::error::{looks_like_disconnect, mentions_disconnect, ErrorChain, Failure};
use browser_session_mcp::json::{array, get, integer, object, remove, text, whole, Json, Number};
use browser_session_mcp::poll::{verdict, Verdict};
use browser_session_mcp::server::{needs_chrome_first, BrowserSessionServer};
use browser_session_mcp::text::{
    contains_text, decimal_text, hex_text, is_before, is_white_char, join, lines_of, split_on,
    strip_prefix, strip_suffix, text_after, to_ascii_lower, trim, trim_leading, trim_trailing,
    words_of,
};
use browser_session_mcp::tools::reply::Content;
use browser_session_mcp::tools::Tool;

#[test]
fn text_functions_agree_with_the_standard_library() {
    let samples = [
        "", " ", "a", "a b", "  a\t b\u{2003}c \n", "a\r\nb\nc\r", "\n\n", "a;b;;c", "x=y=z",
        "//a//", "ÄÖ\u{a0}é", "\u{3000}mid\u{85}", "Ab1Z",
    ];
    for s in samples {
        assert_eq!(trim(s), s.trim());
        assert_eq!(lines_of(s), s.lines().map(str::to_string).collect::<Vec<_>>());
        assert_eq!(words_of(s), s.split_whitespace().map(str::to_string).collect::<Vec<_>>());
        assert_eq!(split_on(s, ';'), s.split(';').map(str::to_string).collect::<Vec<_>>());
        assert_eq!(trim_leading(s, '/'), s.trim_start_matches('/'));
        assert_eq!(trim_trailing(s, '/'), s.trim_end_matches('/'));
        assert_eq!(to_ascii_lower(s), s.to_ascii_lowercase());
        assert_eq!(text_after(s, '='), s.split_once('=').map(|(_, b)| b.to_string()));
        for t in samples {
            assert_eq!(is_before(s, t), s < t);
            assert_eq!(contains_text(s, t), s.contains(t));
            assert_eq!(strip_prefix(s, t), s.strip_prefix(t).map(str::to_string));
            assert_eq!(strip_suffix(s, t), s.strip_suffix(t).map(str::to_string));
        }
    }
}

#[test]
fn white_space_is_that_of_unicode() {
    for n in 0..=0x10ffffu32 {
        if let Some(c) = char::from_u32(n) {
            assert_eq!(is_white_char(c), c.is_whitespace());
        }
    }
}

#[test]
fn numbers_in_text() {
    for n in [0, 7, 10, 99, 100, 4096, u64::MAX] {
        assert_eq!(decimal_text(n), n.to_string());
    }
    assert_eq!(hex_text(&[0, 10, 255]), "000aff");
    assert_eq!(join(&vec!["a".to_string(), "b".to_string()], ", "), "a, b");
    assert_eq!(join(&Vec::new(), ", "), "");
}

#[test]
fn members_of_json_objects() {
    let mut obj = vec![("a".to_string(), whole(1)), ("b".to_string(), text("x"))];
    assert_eq!(get(&obj, "a"), Some(&Json::Number(Number::Unsigned(1))));
    assert_eq!(get(&obj, "c"), None);
    remove(&mut obj, "b");
    assert_eq!(get(&obj, "b"), None);
    assert_eq!(obj.len(), 1);
    assert_eq!(integer(7), whole(7));
    assert_eq!(integer(-7), Json::Number(Number::Negative(-7)));
    let value = array(vec![object(obj), Json::Number(Number::Negative(-3))]);
    assert_eq!(value.copy(), value);
}

#[test]
fn every_refusal_has_its_text() {
    let s = || "s".to_string();
    let cases = vec![
        (Failure::UnknownTool { name: s() }, "unknown tool: s"),
        (Failure::NotNonEmptyString { field: s() }, "s must be a non-empty string"),
        (Failure::TabIndexRequired, "`tabIndex` (integer) is required"),
        (Failure::EnabledRequired, "`enabled` (boolean) is required"),
        (Failure::ViewportNotObject { field: s() }, "s must be an object {width, height}"),
        (Failure::ViewportWidth { field: s() }, "s.width must be a positive integer"),
        (Failure::ViewportHeight { field: s() }, "s.height must be a positive integer"),
        (Failure::ClickTarget, "click requires either `selector` or both `x` and `y`"),
        (Failure::CoordinateRequired { axis: s() }, "`s` is required"),
        (Failure::WaitTarget, "wait_for requires either `selector` or `text`."),
        (
            Failure::SessionNotFound { session_id: s() },
            "Session not found: s. Call open_browser_session first.",
        ),
        (Failure::NoTab { index: 3, count: 2 }, "no tab at index 3 (session has 2 tabs)"),
        (
            Failure::NoPageTarget { session_id: s() },
            "no page target for session s after creating one",
        ),
        (
            Failure::UnknownKey { key: s() },
            "unknown key `s` (use names like Enter, Tab, Escape, ArrowDown, Backspace, or a single char)",
        ),
        (Failure::JsException { message: s() }, "JS exception: s"),
        (Failure::ElementNotFound { selector: s() }, "element `s` not found or not visible"),
        (Failure::BadCoordinate { axis: s() }, "bad s coord"),
        (Failure::NavigationTimeout { ms: 12 }, "navigation timed out after 12ms"),
        (Failure::SelectorTimeout { selector: s() }, "timed out waiting for selector s"),
        (Failure::TimedOut, "timed out"),
        (Failure::InvalidSessionId, "invalid session id"),
        (Failure::NoRandomness { reason: s() }, "getrandom: s"),
    ];
    for (f, expected) in cases {
        assert_eq!(f.message(), expected);
    }
    let late = Failure::SelectorTimeout { selector: "#a".to_string() };
    assert_eq!(late.message(), "timed out waiting for selector #a");
}

#[test]
fn lost_connections_are_recognised() {
    let chain = |causes: &[&str]| ErrorChain {
        causes: causes.iter().map(|s| s.to_string()).collect(),
    };
    assert!(looks_like_disconnect(&chain(&["Page.navigate", "WebSocket protocol error"])));
    assert!(looks_like_disconnect(&chain(&["Connection REFUSED (os error 111)"])));
    assert!(looks_like_disconnect(&chain(&["a", "Broken pipe"])));
    assert!(looks_like_disconnect(&chain(&["the receiver is disconnected"])));
    assert!(looks_like_disconnect(&chain(&["ÄConnection closedÖ"])));
    assert!(!looks_like_disconnect(&chain(&["timed out"])));
    assert!(!looks_like_disconnect(&chain(&["connection", "closed"])));
    assert!(mentions_disconnect("x connection closed"));
    assert!(!mentions_disconnect("Connection Closed"));
    let e = ErrorChain::of(&Failure::TimedOut).context("b").context("a");
    assert_eq!(e.render(), "a: b: timed out");
}

#[test]
fn waiting_looks_first() {
    assert_eq!(verdict(true, 10, 0), Verdict::Ready);
    assert_eq!(verdict(false, 0, 0), Verdict::TimedOut);
    assert_eq!(verdict(false, 99, 100), Verdict::LookAgain);
    assert_eq!(verdict(false, 100, 100), Verdict::TimedOut);
    assert_eq!(verdict(true, 100, 100), Verdict::Ready);
}

#[test]
fn commands_are_known_by_their_names() {
    assert!(matches!(parse_command(Some("mcp")), Command::Mcp));
    assert!(matches!(parse_command(Some("listener")), Command::Listener));
    assert!(matches!(parse_command(Some("reaper")), Command::Reaper));
    assert!(matches!(parse_command(Some("takeover")), Command::Takeover));
    assert!(matches!(parse_command(Some("-V")), Command::Version));
    assert!(matches!(parse_command(Some("--version")), Command::Version));
    assert!(matches!(parse_command(Some("-h")), Command::Help));
    assert!(matches!(parse_command(Some("--help")), Command::Help));
    assert!(matches!(parse_command(Some("MCP")), Command::Unknown { given: Some(g) } if g == "MCP"));
    assert!(matches!(parse_command(None), Command::Unknown { given: None }));
    assert_eq!(usage_error(None), format!("{USAGE}\n"));
    assert_eq!(usage_error(Some("x")), format!("unknown command: x\n\n{USAGE}\n"));
    assert!(USAGE.starts_with("browser-session — isolated browser sessions over a shared Chrome\n\nUsage:"));
    assert!(USAGE.ends_with("see the README."));
    assert_eq!(version_line("0.1.0"), "browser-session 0.1.0");
    assert_eq!(browser_url(Some(String::new())), None);
    assert_eq!(browser_url(None), None);
    assert_eq!(browser_url(Some("http://h".to_string())), Some("http://h".to_string()));
}

fn wants(step: &Access<String, ErrorChain>) -> String {
    match step {
        Access::Probe => "probe".to_string(),
        Access::Connect { url } => format!("connect {url}"),
        Access::Ready => "ready".to_string(),
        Access::Failed(e) => format!("failed {}", e.render()),
    }
}

#[test]
fn a_connection_is_made_late_and_tried_before_use() {
    let error = || ErrorChain { causes: vec!["e".to_string()] };
    let mut ctx = ChromeContext::new("http://h".to_string());
    let step = ctx.sessions(false);
    assert_eq!(wants(&step), "connect http://h");
    let step = ctx.resume(step, AccessNews::Elapsed(error()));
    assert_eq!(wants(&step), "failed timed out connecting to Chrome: e");
    let step = ctx.sessions(false);
    let step = ctx.resume(step, AccessNews::Refused(error()));
    assert_eq!(wants(&step), "failed e");
    let step = ctx.sessions(false);
    let step = ctx.resume(step, AccessNews::Connected);
    assert_eq!(wants(&step), "ready");
    let step = ctx.sessions(false);
    assert_eq!(wants(&step), "probe");
    let step = ctx.resume(step, AccessNews::Probed(true));
    assert_eq!(wants(&step), "ready");
    let step = ctx.sessions(false);
    let step = ctx.resume(step, AccessNews::Probed(false));
    assert_eq!(wants(&step), "connect http://h");
    let step = ctx.resume(step, AccessNews::Connected);
    assert_eq!(wants(&step), "ready");
    assert_eq!(wants(&ctx.sessions(true)), "connect http://h");
}

#[test]
fn an_error_of_the_connection_makes_the_next_call_connect() {
    let mut server =
        BrowserSessionServer::new(ChromeContext::new("u".to_string()), "/logs".to_string());
    let step = server.ctx.sessions(false);
    server.ctx.resume(step, AccessNews::Connected);
    let r = server.call_failed(&ErrorChain { causes: vec!["a".to_string(), "timed out".to_string()] });
    assert!(r.is_error);
    assert!(r.structured.is_none());
    assert!(matches!(&r.content[0], Content::Text(t) if t == "a: timed out"));
    assert_eq!(wants(&server.ctx.sessions(false)), "probe");
    server.call_failed(&ErrorChain { causes: vec!["Websocket gone".to_string()] });
    assert_eq!(wants(&server.ctx.sessions(false)), "connect u");
    assert_eq!(server.logs_dir, "/logs");
}

#[test]
fn calls_reach_their_tools() {
    let server = BrowserSessionServer::new(ChromeContext::new(String::new()), String::new());
    assert!(matches!(server.dispatch("type"), Ok(Tool::TypeText)));
    match server.dispatch("typo") {
        Ok(_) => panic!("there is no such tool"),
        Err(e) => assert_eq!(e.message(), "unknown tool: typo"),
    }
    assert!(needs_chrome_first(Tool::OpenSession));
    assert!(needs_chrome_first(Tool::RequestTakeover));
    assert!(!needs_chrome_first(Tool::CloseSession));
    assert!(!needs_chrome_first(Tool::GetStealth));
    assert!(!needs_chrome_first(Tool::AwaitTakeover));
    assert!(!needs_chrome_first(Tool::ListStates));
    assert!(!needs_chrome_first(Tool::DeleteState));
}
