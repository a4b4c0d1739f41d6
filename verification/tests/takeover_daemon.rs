use browser_session_mcp::takeover::exchange::{
    begin, js_str, resume, route, serve_file, Event, Exchange, Outcome, Site, Step,
};
use browser_session_mcp::takeover::http::{
    content_type, extract_cookie, parse_head, parse_request, response_head, Reading,
    RequestBuffer, Resp,
};
use browser_session_mcp::takeover::Ticket;
use std::collections::{HashMap, HashSet};

const TOKEN: &str = "0123456789abcdef0123456789abcdef";
const SECRET: &str = "fedcba9876543210fedcba9876543210";

/// The daemon's files, in memory.
#[derive(Default)]
struct Files {
    tickets: HashMap<String, (String, String, u128)>,
    claims: HashMap<String, String>,
    done: HashSet<String>,
    flags: HashSet<String>,
    assets: HashMap<String, String>,
    now: u128,
    secret: Option<String>,
}

fn site() -> Site {
    Site { chrome_ws_base: "wss://chrome.example".to_string(), webroot: Some("/web".to_string()) }
}

fn perform(files: &mut Files, step: &Exchange) -> Outcome {
    match step {
        Step::ReadTicket { token, .. } => Event::Ticket {
            ticket: files.tickets.get(token).map(|(s, t, e)| Ticket {
                session_id: s.clone(),
                target_id: t.clone(),
                expires_at_ms: *e,
            }),
            now: files.now,
        },
        Step::ReadClaim { token, .. } => Event::Claim(files.claims.get(token).cloned()),
        Step::MintSecret { .. } => Event::Secret(files.secret.clone()),
        Step::RecordClaim { token, secret, .. } => {
            if files.claims.contains_key(token) {
                Event::Recorded(false)
            } else {
                files.claims.insert(token.clone(), secret.clone());
                Event::Recorded(true)
            }
        }
        Step::MarkDone { token } => {
            files.done.insert(token.clone());
            Event::Marked(true)
        }
        Step::SetFlag { session_id, on } => {
            if *on {
                files.flags.remove(session_id);
            } else {
                files.flags.insert(session_id.clone());
            }
            Event::FlagSet(true)
        }
        Step::CheckFlag { session_id } => Event::FlagPresent(files.flags.contains(session_id)),
        Step::ReadAsset { path, .. } => Event::Asset(files.assets.get(path).cloned()),
        Step::Reply(_) => unreachable!(),
    }
}

fn answer(files: &mut Files, method: &str, path: &str, cookie: Option<&str>) -> Resp {
    let site = site();
    let mut step = route(&site, method, path, cookie.map(str::to_string));
    for _ in 0..5 {
        if let Step::Reply(r) = step {
            return r;
        }
        let event = perform(files, &step);
        step = resume(&site, step, event);
    }
    panic!("the exchange did not end");
}

fn live() -> Files {
    let mut files = Files::default();
    files.tickets.insert(
        TOKEN.to_string(),
        ("CTX1".to_string(), "TARGET\"1".to_string(), 1_000),
    );
    files.now = 999;
    files.secret = Some(SECRET.to_string());
    files.assets.insert("/web/index.html".to_string(), "<html>".to_string());
    files.assets.insert("/web/_astro/a.js".to_string(), "js".to_string());
    files
}

fn link(action: &str) -> String {
    format!("/takeover/{TOKEN}{action}")
}

#[test]
fn health_is_ok() {
    let r = answer(&mut live(), "GET", "/healthz?x=1", None);
    assert_eq!((r.status, r.ctype, r.body.as_str()), ("200 OK", "text/plain", "ok"));
}

#[test]
fn the_first_claim_is_served_and_given_a_cookie() {
    let mut files = live();
    let r = answer(&mut files, "POST", &link("/claim"), None);
    assert_eq!(r.status, "200 OK");
    assert_eq!(r.ctype, "application/json");
    assert_eq!(
        r.body,
        "{\"wsBase\":\"wss://chrome.example\",\"targetId\":\"TARGET\\\"1\",\"ctxId\":\"CTX1\"}"
    );
    assert_eq!(
        r.set_cookie,
        Some(format!("tk_claim={SECRET}; Path=/takeover/{TOKEN}; HttpOnly; SameSite=Strict"))
    );
    assert_eq!(files.claims.get(TOKEN).map(String::as_str), Some(SECRET));
}

#[test]
fn a_leaked_link_is_useless() {
    let mut files = live();
    let first = answer(&mut files, "POST", &link("/claim"), None);
    files.secret = Some("11111111111111111111111111111111".to_string());
    let again = answer(&mut files, "POST", &link("/claim"), Some(SECRET));
    assert_eq!(again.body, first.body);
    assert_eq!(again.set_cookie, None);
    for cookie in [None, Some(""), Some("11111111111111111111111111111111")] {
        let r = answer(&mut files, "POST", &link("/claim"), cookie);
        assert_eq!(r.status, "409 Conflict");
        assert_eq!(r.body, "this takeover link is already in use by someone else");
    }
    assert_eq!(files.claims.get(TOKEN).map(String::as_str), Some(SECRET));
}

#[test]
fn an_empty_claim_matches_nobody() {
    let mut files = live();
    files.claims.insert(TOKEN.to_string(), " ".to_string());
    assert_eq!(answer(&mut files, "POST", &link("/claim"), Some("")).status, "409 Conflict");
    assert_eq!(answer(&mut files, "POST", &link("/done"), Some("")).status, "403 Forbidden");
}

#[test]
fn a_claim_without_randomness_is_refused() {
    let mut files = live();
    files.secret = None;
    assert_eq!(answer(&mut files, "POST", &link("/claim"), None).status, "409 Conflict");
    assert!(files.claims.is_empty());
}

#[test]
fn a_lost_race_is_refused() {
    let site = site();
    let step = Step::RecordClaim {
        token: TOKEN.to_string(),
        secret: SECRET.to_string(),
        target_id: "T".to_string(),
        session_id: "S".to_string(),
    };
    match resume(&site, step, Event::Recorded(false)) {
        Step::Reply(r) => assert_eq!(r.status, "409 Conflict"),
        _ => panic!("a reply was due"),
    }
}

#[test]
fn dead_links_are_told_apart() {
    let mut files = live();
    files.now = 1_000;
    let gone = answer(&mut files, "POST", &link("/claim"), None);
    assert_eq!((gone.status, gone.body.as_str()), ("410 Gone", "this takeover link has expired"));
    files.tickets.clear();
    let unknown = answer(&mut files, "POST", &link("/claim"), None);
    assert_eq!(unknown.status, "404 Not Found");
    assert_eq!(unknown.body, "unknown or consumed takeover token");
    let bad = answer(&mut files, "POST", "/takeover/../claim", None);
    assert_eq!((bad.status, bad.body.as_str()), ("400 Bad Request", "bad token"));
}

#[test]
fn only_the_claimant_finishes() {
    let mut files = live();
    let r = answer(&mut files, "POST", &link("/done"), Some(SECRET));
    assert_eq!((r.status, r.body.as_str()), ("403 Forbidden", "not the claimant"));
    assert!(files.done.is_empty());
    answer(&mut files, "POST", &link("/claim"), None);
    assert_eq!(answer(&mut files, "POST", &link("/done"), None).status, "403 Forbidden");
    let done = answer(&mut files, "POST", &link("/done"), Some(SECRET));
    assert_eq!((done.status, done.body.as_str()), ("200 OK", "done"));
    assert!(files.done.contains(TOKEN));
    assert_eq!(answer(&mut files, "POST", "/takeover/zz/done", None).status, "400 Bad Request");
}

#[test]
fn failures_of_the_disk_are_server_errors() {
    let site = site();
    for (step, event) in [
        (Step::MarkDone { token: TOKEN.to_string() }, Event::Marked(false)),
        (Step::SetFlag { session_id: "C".to_string(), on: false }, Event::FlagSet(false)),
    ] {
        match resume(&site, step, event) {
            Step::Reply(r) => {
                assert_eq!((r.status, r.body.as_str()), ("500 Internal Server Error", "error"))
            }
            _ => panic!("a reply was due"),
        }
    }
}

#[test]
fn the_claimant_switches_capture() {
    let mut files = live();
    let seen = |files: &mut Files| answer(files, "GET", &link("/capture"), None).body;
    assert_eq!(seen(&mut files), "{\"captureOn\":true}");
    let refused = answer(&mut files, "POST", &link("/capture/off"), None);
    assert_eq!(refused.status, "403 Forbidden");
    answer(&mut files, "POST", &link("/claim"), None);
    let off = answer(&mut files, "POST", &link("/capture/off"), Some(SECRET));
    assert_eq!((off.status, off.body.as_str()), ("200 OK", "off"));
    assert!(files.flags.contains("CTX1"));
    assert_eq!(seen(&mut files), "{\"captureOn\":false}");
    let on = answer(&mut files, "POST", &link("/capture/on"), Some(SECRET));
    assert_eq!((on.status, on.body.as_str()), ("200 OK", "on"));
    assert_eq!(seen(&mut files), "{\"captureOn\":true}");
    assert_eq!(answer(&mut files, "POST", "/takeover/x/capture/on", None).status, "400 Bad Request");
}

#[test]
fn capture_needs_a_ticket_with_a_checked_session() {
    let mut files = live();
    answer(&mut files, "POST", &link("/claim"), None);
    files.tickets.insert(TOKEN.to_string(), ("../x".to_string(), "T".to_string(), 1_000));
    let r = answer(&mut files, "POST", &link("/capture/off"), Some(SECRET));
    assert_eq!(r.status, "500 Internal Server Error");
    assert_eq!(answer(&mut files, "GET", &link("/capture"), None).body, "{\"captureOn\":true}");
    files.tickets.clear();
    let r = answer(&mut files, "POST", &link("/capture/off"), Some(SECRET));
    assert_eq!(r.status, "500 Internal Server Error");
    assert_eq!(answer(&mut files, "GET", &link("/capture"), None).body, "{\"captureOn\":true}");
    assert_eq!(
        answer(&mut files, "GET", "/takeover/..%2f/capture", None).body,
        "{\"captureOn\":true}"
    );
}

#[test]
fn the_page_and_its_files_are_served() {
    let mut files = live();
    let page = answer(&mut files, "GET", &link(""), None);
    assert_eq!(page.status, "200 OK");
    assert_eq!(page.ctype, "text/html; charset=utf-8");
    assert_eq!(page.body, "<html>");
    let script = answer(&mut files, "GET", "//_astro/a.js", None);
    assert_eq!((script.ctype, script.body.as_str()), ("text/javascript; charset=utf-8", "js"));
    for path in ["/", "/missing.css", "/../etc/passwd", "/a/../../b"] {
        let r = answer(&mut files, "GET", path, None);
        assert_eq!((r.status, r.body.as_str()), ("404 Not Found", "not found"));
    }
}

#[test]
fn a_file_is_read_below_the_webroot() {
    match serve_file(&site(), "a/b.css") {
        Step::ReadAsset { rel, path } => {
            assert_eq!(rel, "a/b.css");
            assert_eq!(path, "/web/a/b.css");
        }
        _ => panic!("a file was to be read"),
    }
    let bare = Site { chrome_ws_base: String::new(), webroot: None };
    match serve_file(&bare, "index.html") {
        Step::Reply(r) => {
            assert_eq!(r.status, "500 Internal Server Error");
            assert_eq!(r.body, "takeover webroot not configured (set TAKEOVER_WEBROOT)");
        }
        _ => panic!("a reply was due"),
    }
}

#[test]
fn other_methods_are_not_found() {
    let mut files = live();
    for (method, path) in [("PUT", "/healthz"), ("POST", "/healthz"), ("", "/"), ("POST", "/takeover/x")] {
        assert_eq!(answer(&mut files, method, path, None).status, "404 Not Found");
    }
}

#[test]
fn a_terminator_split_across_reads_is_caught() {
    for cut in 0..4 {
        let all = b"GET / HTTP/1.1\r\n\r\n";
        let at = all.len() - cut;
        let mut buffer = RequestBuffer::new();
        buffer.feed(&all[..at]);
        if cut > 0 {
            assert_eq!(buffer.reading(), Reading::More);
            buffer.feed(&all[at..]);
        }
        assert_eq!(buffer.reading(), Reading::Complete);
        assert_eq!(buffer.bytes(), all);
    }
}

#[test]
fn unfinished_requests_are_refused() {
    let mut closed = RequestBuffer::new();
    closed.feed(b"GET / HTTP/1.1\r\n");
    closed.feed(b"");
    assert_eq!(closed.reading(), Reading::Refused);
    match begin(&site(), &closed) {
        Step::Reply(r) => {
            assert_eq!((r.status, r.body.as_str()), ("400 Bad Request", "bad request"))
        }
        _ => panic!("a reply was due"),
    }
    let mut large = RequestBuffer::new();
    for _ in 0..16 {
        assert_eq!(large.reading(), Reading::More);
        large.feed(&[b'a'; 1024]);
    }
    assert_eq!(large.reading(), Reading::Refused);
}

#[test]
fn a_complete_request_is_routed() {
    let mut buffer = RequestBuffer::new();
    let head =
        format!("POST /takeover/{TOKEN}/done HTTP/1.1\r\nHost: h\r\ncookie: a=1; tk_claim={SECRET}\r\n\r\n");
    buffer.feed(head.as_bytes());
    match begin(&site(), &buffer) {
        Step::ReadClaim { token, cookie, .. } => {
            assert_eq!(token, TOKEN);
            assert_eq!(cookie, Some(SECRET.to_string()));
        }
        _ => panic!("the claim was to be read"),
    }
}

#[test]
fn a_header_is_not_taken_for_the_request_line() {
    let r = parse_head("GET\r\nPOST /x HTTP/1.1\r\n\r\n");
    assert_eq!((r.method.as_str(), r.path.as_str()), ("GET", "/"));
    let r = parse_head("");
    assert_eq!((r.method.as_str(), r.path.as_str()), ("", "/"));
    assert_eq!(r.claim, None);
    let r = parse_head("  GET \t /a?b  HTTP/1.1\n");
    assert_eq!((r.method.as_str(), r.path.as_str()), ("GET", "/a?b"));
}

#[test]
fn invalid_bytes_are_replaced() {
    let r = parse_request(b"GET /\xff HTTP/1.1\r\n\r\n");
    assert_eq!(r.path, "/\u{fffd}");
    let r = parse_request("GET /ü HTTP/1.1\r\n\r\n".as_bytes());
    assert_eq!(r.path, "/ü");
}

#[test]
fn the_cookie_comes_back() {
    let head = format!("GET / HTTP/1.1\nCookie: tk_claim={SECRET}\r\n\r\n");
    assert_eq!(extract_cookie(&head, "tk_claim"), Some(SECRET.to_string()));
    assert_eq!(extract_cookie("GET /\r\nCOOKIE:a=1;b=2 ; c=3\r\n", "b"), Some("2".to_string()));
    assert_eq!(extract_cookie("GET /\r\nCookie: a=1\r\nCookie: b=2\r\n", "b"), None);
    assert_eq!(extract_cookie("GET /\r\nCookie: xb=1; b=\r\n", "b"), Some(String::new()));
    assert_eq!(extract_cookie("GET /\r\nX-Cookie: b=2\r\n", "b"), None);
}

#[test]
fn the_head_of_a_response_counts_bytes() {
    let r = Resp::new("200 OK", "text/plain", "äb".to_string());
    assert_eq!(
        response_head(&r),
        "HTTP/1.1 200 OK\r\nContent-Type: text/plain\r\nContent-Length: 3\r\nConnection: close\r\nCache-Control: no-store\r\n\r\n"
    );
    let r = Resp::new("200 OK", "text/plain", String::new()).cookie("a=b".to_string());
    assert_eq!(
        response_head(&r),
        "HTTP/1.1 200 OK\r\nContent-Type: text/plain\r\nContent-Length: 0\r\nSet-Cookie: a=b\r\nConnection: close\r\nCache-Control: no-store\r\n\r\n"
    );
}

#[test]
fn content_types_go_by_the_end_of_the_name() {
    assert_eq!(content_type("a.html"), "text/html; charset=utf-8");
    assert_eq!(content_type("a.js"), "text/javascript; charset=utf-8");
    assert_eq!(content_type("a.mjs"), "text/javascript; charset=utf-8");
    assert_eq!(content_type("a.css"), "text/css; charset=utf-8");
    assert_eq!(content_type("a.svg"), "image/svg+xml");
    assert_eq!(content_type("a.json"), "application/json");
    assert_eq!(content_type("a.ico"), "image/x-icon");
    assert_eq!(content_type("a.html.txt"), "text/plain; charset=utf-8");
}

#[test]
fn strings_are_quoted_as_json() {
    assert_eq!(js_str("a\"b\\c\n\u{1}/é"), "\"a\\\"b\\\\c\\n\\u0001/é\"");
    assert_eq!(js_str("\u{8}\u{c}\t\r\u{1f}\u{7f}"), "\"\\b\\f\\t\\r\\u001f\u{7f}\"");
    assert_eq!(js_str(""), "\"\"");
}

#[test]
fn a_path_from_the_root_is_not_served() {
    for rel in ["/etc/hostname", "/", "//web/index.html", "../x", "a/../b", ""] {
        match serve_file(&site(), rel) {
            Step::Reply(r) => {
                assert_eq!(r.status, "404 Not Found");
                assert_eq!(r.body, "not found");
            }
            _ => panic!("{rel} was not refused"),
        }
    }
}
