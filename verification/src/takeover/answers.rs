//! What the takeover daemon answers, and where its files are: the words of the
//! protocol, as a browser and the other programs of the host see them.
use vstd::prelude::*;

use crate::outside::json_quoted;
use crate::paths::{below, climbs};
use crate::takeover::claim::{attempt_file, standing, Standing};
use crate::takeover::exchange::{
    after_prefix, bad_token, before_suffix, capture_state, claimed, gone, in_use,
    next_step, no_webroot, not_claimant, not_found, post_step, route_step, server_error,
    unknown_token, Event, SiteView, Step, StepView,
};
use crate::takeover::http::{
    byte_len, content_type_of, cookie_line, ends_at, headers_end, is_cookie_line, method_of,
    pair_value, path_of, response_head_of, RespView,
};
use crate::takeover::laws::lemma_token_trimmed;
use crate::takeover::{
    address_of, claim_file, done_file, is_lower_hex, is_token, stealth_file, takeover_dir_of,
    ticket_at, ticket_file, wait_ms_of,
};
use crate::text::laws::{
    hex_value, law_has_text, law_hex_reads_back, law_lines, law_pieces, law_without_trailing,
    law_words,
};
use crate::text::{
    ascii_lower, decimal, has_text, hex, hex_digit, is_white, line_seq, pieces, trimmed,
    without_leading, word_seq,
};

verus! {

// ---- responses ------------------------------------------------------------

/// A response in plain text, without a cookie.
pub open spec fn says(status: Seq<char>, body: Seq<char>) -> RespView {
    RespView { status, ctype: "text/plain"@, body, set_cookie: None }
}

/// What stands between a browser and a link is told by the status: no token, no
/// ticket, no time left, no claim of one's own, or somebody else's.
pub proof fn law_refusals_are_told_apart()
    ensures
        bad_token() == says("400 Bad Request"@, "bad token"@),
        not_claimant() == says("403 Forbidden"@, "not the claimant"@),
        not_found() == says("404 Not Found"@, "not found"@),
        unknown_token() == says("404 Not Found"@, "unknown or consumed takeover token"@),
        in_use() == says(
            "409 Conflict"@,
            "this takeover link is already in use by someone else"@,
        ),
        gone() == says("410 Gone"@, "this takeover link has expired"@),
        server_error() == says("500 Internal Server Error"@, "error"@),
        no_webroot() == says(
            "500 Internal Server Error"@,
            "takeover webroot not configured (set TAKEOVER_WEBROOT)"@,
        ),
{
}

/// The claimant is told where Chrome listens, which page to show and whose tabs to
/// list, each under its own name; the cookie holds the secret, is for this link
/// alone, and comes only where there is a new secret.
pub proof fn law_claimant_is_told(
    ws_base: Seq<char>,
    token: Seq<char>,
    target_id: Seq<char>,
    session_id: Seq<char>,
    secret: Seq<char>,
)
    ensures
        ({
            let told = claimed(ws_base, token, target_id, session_id, Some(secret));
            let again = claimed(ws_base, token, target_id, session_id, None);
            &&& told.status == "200 OK"@ && told.ctype == "application/json"@
            &&& again == (RespView { set_cookie: None, ..told })
            &&& has_text(told.body, "\"wsBase\":"@ + json_quoted(ws_base))
            &&& has_text(told.body, "\"targetId\":"@ + json_quoted(target_id))
            &&& has_text(told.body, "\"ctxId\":"@ + json_quoted(session_id))
            &&& told.set_cookie == Some(
                "tk_claim="@ + secret + "; Path=/takeover/"@ + token
                    + "; HttpOnly; SameSite=Strict"@,
            )
        }),
{
    let body = claimed(ws_base, token, target_id, session_id, None).body;
    let base = json_quoted(ws_base);
    let target = json_quoted(target_id);
    let session = json_quoted(session_id);
    reveal_strlit("{\"wsBase\":");
    reveal_strlit("\"wsBase\":");
    reveal_strlit(",\"targetId\":");
    reveal_strlit("\"targetId\":");
    reveal_strlit(",\"ctxId\":");
    reveal_strlit("\"ctxId\":");
    let a = "\"wsBase\":"@ + base;
    let b = "\"targetId\":"@ + target;
    let c = "\"ctxId\":"@ + session;
    let end = ",\"ctxId\":"@ + session + "}"@;
    let rest = ",\"targetId\":"@ + target + end;
    assert(body =~= seq!['{'] + a + rest);
    law_has_text(seq!['{'], a, rest, body);
    let front = seq!['{'] + a + seq![','];
    assert(body =~= front + b + end);
    law_has_text(front, b, end, body);
    let most = front + b + seq![','];
    assert(body =~= most + c + "}"@);
    law_has_text(most, c, "}"@, body);
}

/// Whether capture is on is told as a JSON object of one truth value.
pub proof fn law_capture_is_told(on: bool)
    ensures
        capture_state(on) == (RespView {
            status: "200 OK"@,
            ctype: "application/json"@,
            body: if on { "{\"captureOn\":true}"@ } else { "{\"captureOn\":false}"@ },
            set_cookie: None,
        }),
{
}

/// The head of a response names its status, its type, the length of its body in
/// bytes and its cookie, and ends in an empty line.
pub proof fn law_head_describes_the_response(r: RespView, c: Seq<char>)
    ensures
        ("HTTP/1.1 "@ + r.status + "\r\n"@).is_prefix_of(response_head_of(r)),
        has_text(response_head_of(r), "\r\nContent-Type: "@ + r.ctype + "\r\n"@),
        has_text(
            response_head_of(r),
            "\r\nContent-Length: "@ + decimal(byte_len(r.body)) + "\r\n"@,
        ),
        r.set_cookie == Some(c) ==> has_text(
            response_head_of(r),
            "\r\nSet-Cookie: "@ + c + "\r\n"@,
        ),
        "\r\n\r\n"@.is_suffix_of(response_head_of(r)),
{
    reveal_strlit("\r\n");
    reveal_strlit("\r\n\r\n");
    reveal_strlit("\r\nContent-Type: ");
    reveal_strlit("\r\nContent-Length: ");
    reveal_strlit("\r\nSet-Cookie: ");
    reveal_strlit("Set-Cookie: ");
    reveal_strlit("");
    reveal_strlit("Connection: close\r\nCache-Control: no-store\r\n\r\n");
    let nl = "\r\n"@;
    let start = "HTTP/1.1 "@ + r.status;
    let kind = "\r\nContent-Type: "@ + r.ctype;
    let length = "\r\nContent-Length: "@ + decimal(byte_len(r.body));
    let cookie = match r.set_cookie {
        Some(c) => "Set-Cookie: "@ + c + "\r\n"@,
        None => ""@,
    };
    let end = "Connection: close\r\nCache-Control: no-store\r\n\r\n"@;
    let head = response_head_of(r);
    assert(head =~= start + kind + length + nl + cookie + end);
    assert(length.take(2) =~= nl && kind.take(2) =~= nl);
    assert(head.subrange(0, start.len() as int + 2) =~= start + nl);
    assert(head =~= start + (kind + nl) + (length.skip(2) + nl + cookie + end));
    law_has_text(start, kind + nl, length.skip(2) + nl + cookie + end, head);
    assert(head =~= (start + kind) + (length + nl) + (cookie + end));
    law_has_text(start + kind, length + nl, cookie + end, head);
    if r.set_cookie == Some(c) {
        let shown = "\r\nSet-Cookie: "@ + c + nl;
        assert(head =~= (start + kind + length) + shown + end);
        law_has_text(start + kind + length, shown, end, head);
    }
    assert(head.subrange(head.len() - 4, head.len() as int) =~= "\r\n\r\n"@);
}

/// A file is served with the type that its ending stands for; a file without one
/// that is known is plain text, and what cannot be read is not found.
pub proof fn law_file_has_its_type(
    site: SiteView,
    name: Seq<char>,
    path: Seq<char>,
    body: Seq<char>,
)
    ensures
        content_type_of(name + ".html"@) == "text/html; charset=utf-8"@,
        content_type_of(name + ".js"@) == "text/javascript; charset=utf-8"@,
        content_type_of(name + ".mjs"@) == "text/javascript; charset=utf-8"@,
        content_type_of(name + ".css"@) == "text/css; charset=utf-8"@,
        content_type_of(name + ".svg"@) == "image/svg+xml"@,
        content_type_of(name + ".json"@) == "application/json"@,
        content_type_of(name + ".ico"@) == "image/x-icon"@,
        content_type_of(name + ".txt"@) == "text/plain; charset=utf-8"@,
        next_step(site, Step::ReadAsset { rel: name, path }, Event::Asset(Some(body)))
            == StepView::Reply(
            RespView { status: "200 OK"@, ctype: content_type_of(name), body, set_cookie: None },
        ),
        next_step(site, Step::ReadAsset { rel: name, path }, Event::Asset(None))
            == StepView::Reply(not_found()),
{
    reveal_strlit(".html");
    reveal_strlit(".js");
    reveal_strlit(".mjs");
    reveal_strlit(".css");
    reveal_strlit(".svg");
    reveal_strlit(".json");
    reveal_strlit(".ico");
    reveal_strlit(".txt");
    lemma_ends(name, ".html"@);
    lemma_ends(name, ".js"@);
    lemma_ends(name, ".mjs"@);
    lemma_ends(name, ".css"@);
    lemma_ends(name, ".svg"@);
    lemma_ends(name, ".json"@);
    lemma_ends(name, ".ico"@);
    lemma_no_end(name + ".js"@, ".html"@, 0);
    lemma_no_end(name + ".mjs"@, ".html"@, 0);
    lemma_no_end(name + ".css"@, ".html"@, 0);
    lemma_no_end(name + ".css"@, ".js"@, 1);
    lemma_no_end(name + ".css"@, ".mjs"@, 1);
    lemma_no_end(name + ".svg"@, ".html"@, 0);
    lemma_no_end(name + ".svg"@, ".js"@, 0);
    lemma_no_end(name + ".svg"@, ".mjs"@, 0);
    lemma_no_end(name + ".svg"@, ".css"@, 0);
    lemma_no_end(name + ".json"@, ".html"@, 0);
    lemma_no_end(name + ".json"@, ".js"@, 0);
    lemma_no_end(name + ".json"@, ".mjs"@, 0);
    lemma_no_end(name + ".json"@, ".css"@, 0);
    lemma_no_end(name + ".json"@, ".svg"@, 0);
    lemma_no_end(name + ".ico"@, ".html"@, 0);
    lemma_no_end(name + ".ico"@, ".js"@, 0);
    lemma_no_end(name + ".ico"@, ".mjs"@, 0);
    lemma_no_end(name + ".ico"@, ".css"@, 0);
    lemma_no_end(name + ".ico"@, ".svg"@, 0);
    lemma_no_end(name + ".ico"@, ".json"@, 0);
    lemma_no_end(name + ".txt"@, ".html"@, 0);
    lemma_no_end(name + ".txt"@, ".js"@, 0);
    lemma_no_end(name + ".txt"@, ".mjs"@, 0);
    lemma_no_end(name + ".txt"@, ".css"@, 0);
    lemma_no_end(name + ".txt"@, ".svg"@, 0);
    lemma_no_end(name + ".txt"@, ".json"@, 0);
    lemma_no_end(name + ".txt"@, ".ico"@, 0);
}

/// What is put at the end of a text is its end.
proof fn lemma_ends(name: Seq<char>, end: Seq<char>)
    ensures
        end.is_suffix_of(name + end),
{
    let s = name + end;
    assert(s.subrange(s.len() - end.len(), s.len() as int) =~= end);
}

/// Texts that differ `k` places before the end do not end alike.
proof fn lemma_no_end(s: Seq<char>, end: Seq<char>, k: int)
    requires
        0 <= k < s.len(),
        k < end.len(),
        s[s.len() - 1 - k] != end[end.len() - 1 - k],
    ensures
        !end.is_suffix_of(s),
{
    if end.is_suffix_of(s) {
        let tail = s.subrange(s.len() - end.len(), s.len() as int);
        assert(tail[end.len() - 1 - k] == s[s.len() - 1 - k]);
    }
}

// ---- requests -------------------------------------------------------------

/// What a request asks for does not depend on its query.
pub proof fn law_query_is_ignored(
    site: SiteView,
    method: Seq<char>,
    path: Seq<char>,
    query: Seq<char>,
    cookie: Option<Seq<char>>,
)
    requires
        !path.contains('?'),
    ensures
        route_step(site, method, path + seq!['?'] + query, cookie) == route_step(
            site,
            method,
            path,
            cookie,
        ),
{
    law_pieces(path, query, '?');
    assert(pieces(path + seq!['?'] + query, '?')[0] == path);
    assert(pieces(path, '?')[0] == path);
}

/// The daemon says that it is alive; every link shows the built page; any other
/// path shows the file of that name; and a method that neither shows nor changes
/// anything finds nothing.
pub proof fn law_pages_are_shown(
    site: SiteView,
    root: Seq<char>,
    rest: Seq<char>,
    rel: Seq<char>,
    method: Seq<char>,
    path: Seq<char>,
    cookie: Option<Seq<char>>,
)
    requires
        site.webroot == Some(root),
        !rest.contains('?'),
        !"/capture"@.is_suffix_of(rest),
        !rel.contains('?'),
        rel.len() > 0 && rel[0] != '/',
        rel != "healthz"@,
        !"takeover/"@.is_prefix_of(rel),
        method != "GET"@ && method != "POST"@,
    ensures
        route_step(site, "GET"@, "/healthz"@, cookie) == StepView::Reply(says("200 OK"@, "ok"@)),
        route_step(site, "GET"@, "/takeover/"@ + rest, cookie) == (StepView::ReadAsset {
            rel: "index.html"@,
            path: below(root, "index.html"@),
        }),
        !climbs(rel) ==> route_step(site, "GET"@, "/"@ + rel, cookie) == (StepView::ReadAsset {
            rel,
            path: below(root, rel),
        }),
        climbs(rel) ==> route_step(site, "GET"@, "/"@ + rel, cookie) == StepView::Reply(
            not_found(),
        ),
        route_step(site, method, path, cookie) == StepView::Reply(not_found()),
{
    reveal_strlit("/healthz");
    reveal_strlit("healthz");
    reveal_strlit("/takeover/");
    reveal_strlit("takeover/");
    reveal_strlit("index.html");
    reveal_strlit("/");
    assert("/"@ =~= seq!['/']);
    law_pieces("/healthz"@, rest, '?');
    assert(!"/healthz"@.contains('?'));
    let link = "/takeover/"@ + rest;
    assert forall|j: int| 0 <= j < link.len() implies link[j] != '?' by {
        if j >= 10 {
            assert(link[j] == rest[j - 10]);
            assert(rest.contains(rest[j - 10]));
        }
    }
    law_pieces(link, rest, '?');
    assert(link.subrange(0, 10) =~= "/takeover/"@);
    assert(link.skip(10) =~= rest);
    assert(link[1] == 't');
    assert(after_prefix(link, "/takeover/"@) == Some(rest));
    assert(before_suffix(rest, "/capture"@) is None);
    let index = "index.html"@;
    assert(!index.contains('/'));
    law_pieces(index, rest, '/');
    assert(index.len() == 10);
    if climbs(index) {
        assert(seq![index].contains(seq!['.', '.']));
        assert(index.len() == 2);
    }
    let file = "/"@ + rel;
    assert forall|j: int| 0 <= j < file.len() implies file[j] != '?' by {
        if j >= 1 {
            assert(file[j] == rel[j - 1]);
            assert(rel.contains(rel[j - 1]));
        }
    }
    law_pieces(file, rest, '?');
    assert(file.skip(1) =~= rel);
    assert("/healthz"@.skip(1) =~= "healthz"@);
    if "/takeover/"@.is_prefix_of(file) {
        assert(file.subrange(0, 10) == "/takeover/"@);
        assert forall|j: int| 0 <= j < 9 implies rel[j] == "takeover/"@[j] by {
            assert(file.subrange(0, 10)[j + 1] == rel[j]);
            assert("/takeover/"@[j + 1] == "takeover/"@[j]);
        }
        assert(rel.subrange(0, 9) =~= "takeover/"@);
    }
    assert(without_leading(rel, '/') == rel);
    assert(without_leading(file, '/') == rel);
}

/// A request to change something needs a token: with anything else in its place it
/// is refused, and an action that is none of the four finds nothing.
pub proof fn law_only_tokens_are_taken(
    site: SiteView,
    text: Seq<char>,
    cookie: Option<Seq<char>>,
)
    requires
        !is_token(text),
        !text.contains('?'),
    ensures
        route_step(site, "POST"@, "/takeover/"@ + text + "/claim"@, cookie) == StepView::Reply(
            bad_token(),
        ),
        route_step(site, "POST"@, "/takeover/"@ + text + "/done"@, cookie) == StepView::Reply(
            bad_token(),
        ),
        route_step(site, "POST"@, "/takeover/"@ + text + "/capture/on"@, cookie)
            == StepView::Reply(bad_token()),
        route_step(site, "POST"@, "/takeover/"@ + text + "/capture/off"@, cookie)
            == StepView::Reply(bad_token()),
        route_step(site, "GET"@, "/takeover/"@ + text + "/capture"@, cookie) == StepView::Reply(
            capture_state(true),
        ),
{
    lemma_methods_differ();
    lemma_only_tokens(text, cookie);
    lemma_plain_actions();
    lemma_action(text, "/claim"@);
    lemma_action(text, "/done"@);
    lemma_action(text, "/capture/on"@);
    lemma_action(text, "/capture/off"@);
    lemma_action(text, "/capture"@);
    lemma_not_healthz(text + "/capture"@);
    assert("/takeover/"@ + text + "/capture"@ =~= "/takeover/"@ + (text + "/capture"@));
}

/// To show is not to change.
proof fn lemma_methods_differ()
    ensures
        "GET"@ != "POST"@,
{
    reveal_strlit("GET");
    reveal_strlit("POST");
    assert("GET"@.len() != "POST"@.len());
}

/// A link is not the path by which the daemon says that it is alive.
proof fn lemma_not_healthz(rest: Seq<char>)
    ensures
        "/takeover/"@ + rest != "/healthz"@,
{
    reveal_strlit("/healthz");
    reveal_strlit("/takeover/");
    assert(("/takeover/"@ + rest)[1] != "/healthz"@[1]);
}

/// The actions have no query.
proof fn lemma_plain_actions()
    ensures
        !"/claim"@.contains('?'),
        !"/done"@.contains('?'),
        !"/capture/on"@.contains('?'),
        !"/capture/off"@.contains('?'),
        !"/capture"@.contains('?'),
{
    reveal_strlit("/claim");
    reveal_strlit("/done");
    reveal_strlit("/capture/on");
    reveal_strlit("/capture/off");
    reveal_strlit("/capture");
}

/// What is no token is refused by every action.
proof fn lemma_only_tokens(text: Seq<char>, cookie: Option<Seq<char>>)
    requires
        !is_token(text),
    ensures
        post_step(text + "/claim"@, cookie) == StepView::Reply(bad_token()),
        post_step(text + "/done"@, cookie) == StepView::Reply(bad_token()),
        post_step(text + "/capture/on"@, cookie) == StepView::Reply(bad_token()),
        post_step(text + "/capture/off"@, cookie) == StepView::Reply(bad_token()),
{
    lemma_before(text, "/claim"@);
    lemma_before(text, "/done"@);
    lemma_before(text, "/capture/on"@);
    lemma_before(text, "/capture/off"@);
    assert(!"/claim"@.is_suffix_of(text + "/done"@) && !"/claim"@.is_suffix_of(
        text + "/capture/on"@,
    ) && !"/claim"@.is_suffix_of(text + "/capture/off"@) && !"/done"@.is_suffix_of(
        text + "/capture/on"@,
    ) && !"/done"@.is_suffix_of(text + "/capture/off"@) && !"/capture/on"@.is_suffix_of(
        text + "/capture/off"@,
    )) by {
        reveal_strlit("/claim");
        reveal_strlit("/done");
        reveal_strlit("/capture/on");
        reveal_strlit("/capture/off");
        lemma_no_end(text + "/done"@, "/claim"@, 0);
        lemma_no_end(text + "/capture/on"@, "/claim"@, 0);
        lemma_no_end(text + "/capture/on"@, "/done"@, 0);
        lemma_no_end(text + "/capture/off"@, "/claim"@, 0);
        lemma_no_end(text + "/capture/off"@, "/done"@, 0);
        lemma_no_end(text + "/capture/off"@, "/capture/on"@, 0);
    }
}

/// What stands before the end that was put there.
proof fn lemma_before(text: Seq<char>, action: Seq<char>)
    ensures
        before_suffix(text + action, action) == Some(text),
{
    lemma_ends(text, action);
    let s = text + action;
    assert(s.take(s.len() - action.len()) =~= text);
}

/// The path of an action is taken apart as it was put together.
proof fn lemma_action(text: Seq<char>, action: Seq<char>)
    requires
        !text.contains('?'),
        !action.contains('?'),
    ensures
        pieces("/takeover/"@ + text + action, '?')[0] == "/takeover/"@ + text + action,
        after_prefix("/takeover/"@ + text + action, "/takeover/"@) == Some(text + action),
        before_suffix(text + action, action) == Some(text),
{
    reveal_strlit("/takeover/");
    let path = "/takeover/"@ + text + action;
    assert forall|j: int| 0 <= j < path.len() implies path[j] != '?' by {
        if j < 10 {
        } else if j < 10 + text.len() {
            assert(path[j] == text[j - 10]);
            assert(text.contains(text[j - 10]));
        } else {
            let k = j - 10 - text.len();
            assert(path[j] == action[k]);
            assert(action.contains(action[k]));
        }
    }
    law_pieces(path, text, '?');
    assert(path.subrange(0, 10) =~= "/takeover/"@);
    assert(path.skip(10) =~= text + action);
    lemma_before(text, action);
}

/// The first two words of a request are its method and its path.
pub proof fn law_request_line_is_read(method: Seq<char>, path: Seq<char>, headers: Seq<char>)
    requires
        method.len() > 0,
        path.len() > 0,
        forall|i: int| 0 <= i < method.len() ==> !is_white(#[trigger] method[i]),
        forall|i: int| 0 <= i < path.len() ==> !is_white(#[trigger] path[i]),
    ensures
        ({
            let head = method + seq![' '] + (path + seq![' '] + "HTTP/1.1"@) + seq!['\r', '\n']
                + headers;
            &&& method_of(head) == method
            &&& path_of(head) == path
        }),
{
    reveal_strlit("HTTP/1.1");
    let rest = path + seq![' '] + "HTTP/1.1"@;
    let line = method + seq![' '] + rest;
    assert forall|j: int| 0 <= j < line.len() implies line[j] != '\n' by {
        if j < method.len() {
            assert(line[j] == method[j]);
        } else if j > method.len() {
            let k = j - method.len() - 1;
            assert(line[j] == rest[k]);
            if k < path.len() {
                assert(rest[k] == path[k]);
            } else if k > path.len() {
                assert(rest[k] == "HTTP/1.1"@[k - path.len() - 1]);
            }
        }
    }
    law_lines(line, headers);
    law_words(method, ' ', rest);
    law_words(path, ' ', "HTTP/1.1"@);
    let words = word_seq(line);
    assert(words == seq![method] + (seq![path] + word_seq("HTTP/1.1"@)));
    assert(words[0] == method);
    assert(words[1] == path);
    let head = line + seq!['\r', '\n'] + headers;
    assert(line_seq(head)[0] == line);
}

/// The headers have come to an end once an empty line stands anywhere among the
/// bytes, and not before.
pub proof fn law_headers_end_at_an_empty_line(a: Seq<u8>, b: Seq<u8>)
    ensures
        headers_end(a + seq![13u8, 10u8, 13u8, 10u8] + b),
        headers_end(a) ==> exists|i: int|
            0 <= i && i + 4 <= a.len() && #[trigger] a.subrange(i, i + 4) == seq![
                13u8,
                10u8,
                13u8,
                10u8,
            ],
{
    let s = a + seq![13u8, 10u8, 13u8, 10u8] + b;
    assert(ends_at(s, a.len() as int));
    if headers_end(a) {
        let i = choose|i: int| ends_at(a, i);
        assert(a.subrange(i, i + 4) =~= seq![13u8, 10u8, 13u8, 10u8]);
    }
}

/// A cookie header is one however its name is capitalised; the first one counts,
/// and in it the first pair of the name.
pub proof fn law_first_cookie_counts(
    line: Seq<char>,
    rest: Seq<char>,
    front: Seq<Seq<char>>,
    behind: Seq<Seq<char>>,
    prefix: Seq<char>,
    value: Seq<char>,
)
    requires
        line.len() == 7,
        ascii_lower(line) == "cookie:"@,
        forall|i: int| 0 <= i < front.len() ==> !is_cookie_line(#[trigger] front[i]),
        forall|i: int|
            0 <= i < front.len() ==> !prefix.is_prefix_of(trimmed(#[trigger] front[i])),
    ensures
        is_cookie_line(line + rest),
        cookie_line(front + seq![line + rest] + behind) == Some(line + rest),
        cookie_line(front) is None,
        trimmed(value).len() == value.len() && prefix.is_prefix_of(value) ==> pair_value(
            front + seq![value] + behind,
            prefix,
        ) == Some(value.skip(prefix.len() as int)),
        pair_value(front, prefix) is None,
    decreases front.len(),
{
    reveal_strlit("cookie:");
    assert(ascii_lower(line + rest).subrange(0, 7) =~= ascii_lower(line));
    let all = front + seq![line + rest] + behind;
    let pairs = front + seq![value] + behind;
    if front.len() == 0 {
        assert(all[0] == line + rest);
        assert(pairs[0] == value);
        if trimmed(value).len() == value.len() {
            lemma_nothing_trimmed(value);
        }
    } else {
        let less = front.skip(1);
        assert forall|i: int| 0 <= i < less.len() implies !is_cookie_line(#[trigger] less[i])
            && !prefix.is_prefix_of(trimmed(less[i])) by {
            assert(less[i] == front[i + 1]);
        }
        law_first_cookie_counts(line, rest, less, behind, prefix, value);
        assert(all[0] == front[0]);
        assert(all.skip(1) =~= less + seq![line + rest] + behind);
        assert(pairs[0] == front[0]);
        assert(pairs.skip(1) =~= less + seq![value] + behind);
    }
}

/// A text that trimming does not shorten, it does not change.
proof fn lemma_nothing_trimmed(s: Seq<char>)
    requires
        trimmed(s).len() == s.len(),
    ensures
        trimmed(s) == s,
{
    let ends = crate::text::laws::law_trimmed(s);
    assert(ends.0.len() == 0 && ends.1.len() == 0);
    assert(s =~= trimmed(s));
}

// ---- claims and tokens ----------------------------------------------------

/// A browser holds a claim exactly where it shows the secret that is recorded, and
/// a token is unclaimed exactly where nothing is. Where nothing is written in the
/// claim, no browser holds it.
pub proof fn law_holder_shows_the_secret(
    secret: Seq<char>,
    recorded: Option<Seq<char>>,
    shown: Option<Seq<char>>,
)
    requires
        is_token(secret),
    ensures
        standing(Some(secret), shown) == Standing::Holder <==> shown == Some(secret),
        standing(Some(secret), shown) != Standing::Holder ==> standing(Some(secret), shown)
            == Standing::Other,
        standing(recorded, shown) == Standing::Unclaimed <==> recorded is None,
        standing(recorded, None) != Standing::Holder,
        standing(recorded, Some(seq![])) != Standing::Holder,
        standing(Some(seq![]), shown) == Standing::Corrupt,
{
    lemma_token_trimmed(secret);
}

/// The tokens are what sixteen bytes are in hexadecimal, and nothing else is.
pub proof fn law_tokens_are_sixteen_bytes(bytes: Seq<u8>, s: Seq<char>)
    requires
        bytes.len() == 16,
        is_token(s),
    ensures
        is_token(hex(bytes)),
        exists|b: Seq<u8>| b.len() == 16 && #[trigger] hex(b) == s,
{
    law_hex_reads_back(bytes, 0);
    assert forall|i: int| 0 <= i < hex(bytes).len() implies is_lower_hex(
        #[trigger] hex(bytes)[i],
    ) by {}
    let b = Seq::new(
        16,
        |i: int| (16 * hex_value(s[2 * i]) + hex_value(s[2 * i + 1])) as u8,
    );
    assert forall|i: int| 0 <= i < 32 implies hex(b)[i] == s[i] by {
        let k = i / 2;
        assert(is_lower_hex(s[2 * k]) && is_lower_hex(s[2 * k + 1]));
        let high = hex_value(s[2 * k]);
        let low = hex_value(s[2 * k + 1]);
        assert(0 <= high < 16 && 0 <= low < 16);
        assert(b[k] == 16 * high + low);
        assert((16 * high + low) / 16 == high && (16 * high + low) % 16 == low);
        assert(hex_digit(high) == s[2 * k]);
        assert(hex_digit(low) == s[2 * k + 1]);
    }
    assert(hex(b) =~= s);
}

// ---- files and configuration ----------------------------------------------

/// Tickets, marks, claims and flags lie in directories of their own, below the
/// shared one, under the token or the session that they are of; an attempt at a
/// claim lies beside the claim.
pub proof fn law_files_have_their_places(
    root: Seq<char>,
    token: Seq<char>,
    ctx: Seq<char>,
    secret: Seq<char>,
)
    requires
        root.len() > 0 && root.last() != '/',
        is_token(token),
        ctx.len() > 0 && ctx[0] != '/',
    ensures
        ticket_file(root, token) == root + "/tokens/"@ + token + ".json"@,
        done_file(root, token) == root + "/done/"@ + token,
        claim_file(root, token) == root + "/claims/"@ + token,
        stealth_file(root, ctx) == root + "/stealth/"@ + ctx,
        attempt_file(root, token, secret) == root + "/claims/"@ + token + "-"@ + secret + ".tmp"@,
{
    reveal_strlit("tokens");
    reveal_strlit("/tokens/");
    reveal_strlit("done");
    reveal_strlit("/done/");
    reveal_strlit("claims");
    reveal_strlit("/claims/");
    reveal_strlit("stealth");
    reveal_strlit("/stealth/");
    assert(is_lower_hex(token[0]));
    let name = token + ".json"@;
    let attempt = token + "-"@ + secret + ".tmp"@;
    assert(name[0] == token[0] && attempt[0] == token[0]);
    lemma_two_below(root, "tokens"@, "/tokens/"@, name);
    lemma_two_below(root, "done"@, "/done/"@, token);
    lemma_two_below(root, "claims"@, "/claims/"@, token);
    lemma_two_below(root, "claims"@, "/claims/"@, attempt);
    lemma_two_below(root, "stealth"@, "/stealth/"@, ctx);
    assert(root + "/tokens/"@ + name =~= root + "/tokens/"@ + token + ".json"@);
    assert(root + "/claims/"@ + attempt =~= root + "/claims/"@ + token + "-"@ + secret + ".tmp"@);
}

/// A file in a directory below another.
proof fn lemma_two_below(root: Seq<char>, dir: Seq<char>, slashed: Seq<char>, name: Seq<char>)
    requires
        root.len() > 0 && root.last() != '/',
        dir.len() > 0 && dir[0] != '/' && dir.last() != '/',
        slashed =~= seq!['/'] + dir + seq!['/'],
        name.len() > 0 && name[0] != '/',
    ensures
        below(below(root, dir), name) == root + slashed + name,
{
    assert(below(root, dir).last() == dir.last());
    assert(below(below(root, dir), name) =~= root + slashed + name);
}

/// The shared directory and the public address are what is configured; the address
/// loses the slashes at its end and nothing else, and an empty one counts as none.
pub proof fn law_configuration_is_taken(s: Seq<char>)
    ensures
        takeover_dir_of(Some(s)) == s,
        takeover_dir_of(None) == "/var/lib/browser-session-mcp/takeover"@,
        address_of(None) is None,
        address_of(Some(seq![])) is None,
        s.len() > 0 && s.last() != '/' ==> address_of(Some(s)) == Some(s) && address_of(
            Some(s.push('/')),
        ) == Some(s),
{
    let t = s.push('/');
    let n = law_without_trailing(t, '/');
    if s.len() > 0 && s.last() != '/' {
        let m = law_without_trailing(s, '/');
        if m < s.len() {
            assert(s[s.len() - 1] == '/');
        }
        assert(s.take(s.len() as int) =~= s);
        assert(t[s.len() as int] == '/');
        if n < s.len() {
            assert(t[s.len() - 1] == '/');
        }
        assert(t.take(s.len() as int) =~= s);
    }
}

/// A time that is asked for is given, up to half an hour; without one it is five
/// minutes. A ticket is for the page and the session that it was made for, and
/// lasts from its time on.
pub proof fn law_time_is_given(
    ms: u64,
    session_id: Seq<char>,
    target_id: Seq<char>,
    now: u128,
)
    requires
        now + ms <= u128::MAX,
    ensures
        wait_ms_of(None) == 300_000,
        ms <= 1_800_000 ==> wait_ms_of(Some(ms)) == ms,
        ms > 1_800_000 ==> wait_ms_of(Some(ms)) == 1_800_000,
        ({
            let t = ticket_at(session_id, target_id, now, ms);
            &&& t.session_id == session_id
            &&& t.target_id == target_id
            &&& t.expires_at_ms == now + ms
        }),
{
}

}
