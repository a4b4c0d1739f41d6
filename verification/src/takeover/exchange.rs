//! What the takeover daemon does with a request, step by step.
//!
//! The daemon's files and clock lie outside: a [`Step`] says what is to be done
//! next, an [`Event`] what came of it, and the last step is the response.
use vstd::prelude::*;
use vstd::string::StringExecFns;
use vstd::utf8::{decode_utf8, valid_utf8};

use crate::outside::{json_quoted, json_string, lossy};
use crate::paths::{below, climbs, has_parent_component, join_path};
use crate::takeover::claim::{claim, claim_matches, standing, Standing};
use crate::takeover::http::{
    content_type, content_type_of, cookie_value, method_of, parse_request, path_of, plain, resp,
    Reading, RequestBuffer, Resp, RespView,
};
use crate::takeover::{
    expired, is_ctx, is_expired, is_token, valid_ctx, valid_token, Ticket, TicketView,
};
use crate::text::{
    borrowed, cat2, cat5, opt_str_text, opt_text, pieces, same_text, split_on, starts_with,
    strip_prefix, strip_suffix, texts, trim_leading, without_leading,
};

verus! {

/// What the daemon serves.
pub struct Site {
    /// The WebSocket base of Chrome.
    pub chrome_ws_base: String,
    /// The directory of the built page, if one is configured.
    pub webroot: Option<String>,
}

/// What a [`Site`] says.
#[verifier::ext_equal]
pub struct SiteView {
    pub chrome_ws_base: Seq<char>,
    pub webroot: Option<Seq<char>>,
}

impl View for Site {
    type V = SiteView;

    open spec fn view(&self) -> SiteView {
        SiteView { chrome_ws_base: self.chrome_ws_base@, webroot: opt_text(self.webroot) }
    }
}

/// Why a ticket is read.
#[derive(Debug, Clone, Copy, PartialEq, Eq, Structural)]
pub enum TicketUse {
    /// To claim its link.
    Claim,
    /// To switch console capture for its session.
    Capture { on: bool },
    /// To tell whether console capture is on for its session.
    Query,
}

/// Why a claim is read.
pub enum ClaimUse<S> {
    /// To claim the link of the ticket that says this.
    Claim { target_id: S, session_id: S },
    /// To finish the takeover.
    Done,
    /// To switch console capture.
    Capture { on: bool },
}

/// What is to be done next, over the types of texts and of responses.
pub enum Step<S, R> {
    /// Send the response; the exchange is over.
    Reply(R),
    /// Read the ticket of the token, then the clock.
    ReadTicket { token: S, cookie: Option<S>, purpose: TicketUse },
    /// Read the claim on the token.
    ReadClaim { token: S, cookie: Option<S>, reason: ClaimUse<S> },
    /// Make a secret.
    MintSecret { token: S, target_id: S, session_id: S },
    /// Record the secret as the claim on the token, unless there is one.
    RecordClaim { token: S, secret: S, target_id: S, session_id: S },
    /// Mark the takeover of the token as finished.
    MarkDone { token: S },
    /// Write the flag of the session, or remove it; console capture is on
    /// without it.
    SetFlag { session_id: S, on: bool },
    /// See whether the flag of the session is there.
    CheckFlag { session_id: S },
    /// Read the file at the path as text.
    ReadAsset { rel: S, path: S },
}

/// What came of a step, over the types of texts and of tickets.
pub enum Event<S, T> {
    /// The ticket, where there is one that can be read, and the time.
    Ticket { ticket: Option<T>, now: u128 },
    /// The text of the claim, where there is one.
    Claim(Option<S>),
    /// A new secret, where the randomness sufficed.
    Secret(Option<S>),
    /// Whether the claim is recorded.
    Recorded(bool),
    /// Whether the takeover is marked.
    Marked(bool),
    /// Whether the flag is set as asked.
    FlagSet(bool),
    /// Whether the flag is there.
    FlagPresent(bool),
    /// The text of the file, where there is one that can be read.
    Asset(Option<S>),
}

/// A step as the daemon takes it.
pub type Exchange = Step<String, Resp>;

/// An event as the daemon sees it.
pub type Outcome = Event<String, Ticket>;

/// What a step says.
pub type StepView = Step<Seq<char>, RespView>;

/// What an event says.
pub type EventView = Event<Seq<char>, TicketView>;

/// What a [`ClaimUse`] says.
pub open spec fn claim_use_view(u: ClaimUse<String>) -> ClaimUse<Seq<char>> {
    match u {
        ClaimUse::Claim { target_id, session_id } => ClaimUse::Claim {
            target_id: target_id@,
            session_id: session_id@,
        },
        ClaimUse::Done => ClaimUse::Done,
        ClaimUse::Capture { on } => ClaimUse::Capture { on },
    }
}

/// What a step says.
pub open spec fn step_view(e: Exchange) -> StepView {
    match e {
        Step::Reply(r) => Step::Reply(r@),
        Step::ReadTicket { token, cookie, purpose } => Step::ReadTicket {
            token: token@,
            cookie: opt_text(cookie),
            purpose,
        },
        Step::ReadClaim { token, cookie, reason } => Step::ReadClaim {
            token: token@,
            cookie: opt_text(cookie),
            reason: claim_use_view(reason),
        },
        Step::MintSecret { token, target_id, session_id } => Step::MintSecret {
            token: token@,
            target_id: target_id@,
            session_id: session_id@,
        },
        Step::RecordClaim { token, secret, target_id, session_id } => Step::RecordClaim {
            token: token@,
            secret: secret@,
            target_id: target_id@,
            session_id: session_id@,
        },
        Step::MarkDone { token } => Step::MarkDone { token: token@ },
        Step::SetFlag { session_id, on } => Step::SetFlag { session_id: session_id@, on },
        Step::CheckFlag { session_id } => Step::CheckFlag { session_id: session_id@ },
        Step::ReadAsset { rel, path } => Step::ReadAsset { rel: rel@, path: path@ },
    }
}

/// What an event says.
pub open spec fn event_view(e: Outcome) -> EventView {
    match e {
        Event::Ticket { ticket, now } => Event::Ticket {
            ticket: match ticket {
                Some(t) => Some(t@),
                None => None,
            },
            now,
        },
        Event::Claim(c) => Event::Claim(opt_text(c)),
        Event::Secret(s) => Event::Secret(opt_text(s)),
        Event::Recorded(b) => Event::Recorded(b),
        Event::Marked(b) => Event::Marked(b),
        Event::FlagSet(b) => Event::FlagSet(b),
        Event::FlagPresent(b) => Event::FlagPresent(b),
        Event::Asset(a) => Event::Asset(opt_text(a)),
    }
}

// ---- responses ------------------------------------------------------------

/// The response to a token that is none.
pub open spec fn bad_token() -> RespView {
    resp("400 Bad Request"@, "text/plain"@, "bad token"@)
}

/// The response to a browser that is not the claimant.
pub open spec fn not_claimant() -> RespView {
    resp("403 Forbidden"@, "text/plain"@, "not the claimant"@)
}

/// The response to a path that names nothing.
pub open spec fn not_found() -> RespView {
    resp("404 Not Found"@, "text/plain"@, "not found"@)
}

/// The response to a token without a ticket.
pub open spec fn unknown_token() -> RespView {
    resp("404 Not Found"@, "text/plain"@, "unknown or consumed takeover token"@)
}

/// The response to a link that somebody else has claimed.
pub open spec fn in_use() -> RespView {
    resp(
        "409 Conflict"@,
        "text/plain"@,
        "this takeover link is already in use by someone else"@,
    )
}

/// The response to a link that has expired.
pub open spec fn gone() -> RespView {
    resp("410 Gone"@, "text/plain"@, "this takeover link has expired"@)
}

/// The response to a failure of the daemon's own.
pub open spec fn server_error() -> RespView {
    resp("500 Internal Server Error"@, "text/plain"@, "error"@)
}

/// The response where no built page is configured.
pub open spec fn no_webroot() -> RespView {
    resp(
        "500 Internal Server Error"@,
        "text/plain"@,
        "takeover webroot not configured (set TAKEOVER_WEBROOT)"@,
    )
}

/// The response that says whether console capture is on.
pub open spec fn capture_state(on: bool) -> RespView {
    resp(
        "200 OK"@,
        "application/json"@,
        if on {
            "{\"captureOn\":true}"@
        } else {
            "{\"captureOn\":false}"@
        },
    )
}

/// What the claimant is told: where Chrome listens, which page to show first,
/// and whose tabs to list.
pub open spec fn claim_body(
    ws_base: Seq<char>,
    target_id: Seq<char>,
    session_id: Seq<char>,
) -> Seq<char> {
    "{\"wsBase\":"@ + json_quoted(ws_base) + ",\"targetId\":"@ + json_quoted(target_id)
        + ",\"ctxId\":"@ + json_quoted(session_id) + "}"@
}

/// The cookie by which the claimant is known again, for the pages of this link.
pub open spec fn claim_cookie(token: Seq<char>, secret: Seq<char>) -> Seq<char> {
    "tk_claim="@ + secret + "; Path=/takeover/"@ + token + "; HttpOnly; SameSite=Strict"@
}

/// The response to the claimant; a new one is given the cookie.
pub open spec fn claimed(
    ws_base: Seq<char>,
    token: Seq<char>,
    target_id: Seq<char>,
    session_id: Seq<char>,
    secret: Option<Seq<char>>,
) -> RespView {
    RespView {
        status: "200 OK"@,
        ctype: "application/json"@,
        body: claim_body(ws_base, target_id, session_id),
        set_cookie: match secret {
            Some(s) => Some(claim_cookie(token, s)),
            None => None,
        },
    }
}

/// The JSON string of a text, to be put into a response as it is.
pub fn js_str(s: &str) -> (r: String)
    ensures
        r@ == json_quoted(s@),
{
    match json_string(s) {
        Ok(t) => t,
        Err(_) => "\"\"".to_string(),
    }
}

/// The response to the claimant.
fn claimed_resp(
    site: &Site,
    token: &str,
    target_id: &str,
    session_id: &str,
    secret: Option<&str>,
) -> (r: Resp)
    ensures
        r@ == claimed(
            site@.chrome_ws_base,
            token@,
            target_id@,
            session_id@,
            opt_str_text(secret),
        ),
{
    let mut body = cat2("{\"wsBase\":", js_str(site.chrome_ws_base.as_str()).as_str());
    body.append(",\"targetId\":");
    body.append(js_str(target_id).as_str());
    body.append(",\"ctxId\":");
    body.append(js_str(session_id).as_str());
    body.append("}");
    let r = Resp::new("200 OK", "application/json", body);
    match secret {
        Some(s) => r.cookie(
            cat5("tk_claim=", s, "; Path=/takeover/", token, "; HttpOnly; SameSite=Strict"),
        ),
        None => r,
    }
}

/// The response that says whether console capture is on.
fn capture_resp(on: bool) -> (r: Resp)
    ensures
        r@ == capture_state(on),
{
    let body = if on {
        "{\"captureOn\":true}"
    } else {
        "{\"captureOn\":false}"
    };
    Resp::new("200 OK", "application/json", body.to_string())
}

// ---- the first step -------------------------------------------------------

/// The first step towards a file of the built page.
pub open spec fn asset_step(site: SiteView, rel: Seq<char>) -> StepView {
    match site.webroot {
        None => Step::Reply(no_webroot()),
        Some(root) => if rel.len() == 0 || rel[0] == '/' || climbs(rel) {
            Step::Reply(not_found())
        } else {
            Step::ReadAsset { rel, path: below(root, rel) }
        },
    }
}

/// What follows `prefix` in `s`, if `s` starts with it.
pub open spec fn after_prefix(s: Seq<char>, prefix: Seq<char>) -> Option<Seq<char>> {
    if prefix.is_prefix_of(s) {
        Some(s.skip(prefix.len() as int))
    } else {
        None
    }
}

/// What precedes `suffix` in `s`, if `s` ends in it.
pub open spec fn before_suffix(s: Seq<char>, suffix: Seq<char>) -> Option<Seq<char>> {
    if suffix.is_suffix_of(s) {
        Some(s.take(s.len() - suffix.len()))
    } else {
        None
    }
}

/// The first step of a request to change something below `/takeover/`; `rest`
/// is the path behind that.
pub open spec fn post_step(rest: Seq<char>, cookie: Option<Seq<char>>) -> StepView {
    if let Some(token) = before_suffix(rest, "/claim"@) {
        if is_token(token) {
            Step::ReadTicket { token, cookie, purpose: TicketUse::Claim }
        } else {
            Step::Reply(bad_token())
        }
    } else if let Some(token) = before_suffix(rest, "/done"@) {
        if is_token(token) {
            Step::ReadClaim { token, cookie, reason: ClaimUse::Done }
        } else {
            Step::Reply(bad_token())
        }
    } else if let Some(token) = before_suffix(rest, "/capture/on"@) {
        if is_token(token) {
            Step::ReadClaim { token, cookie, reason: ClaimUse::Capture { on: true } }
        } else {
            Step::Reply(bad_token())
        }
    } else if let Some(token) = before_suffix(rest, "/capture/off"@) {
        if is_token(token) {
            Step::ReadClaim { token, cookie, reason: ClaimUse::Capture { on: false } }
        } else {
            Step::Reply(bad_token())
        }
    } else {
        Step::Reply(not_found())
    }
}

/// The first step of a request to see something; `path` is without its query.
pub open spec fn get_step(site: SiteView, path: Seq<char>) -> StepView {
    if path == "/healthz"@ {
        Step::Reply(resp("200 OK"@, "text/plain"@, "ok"@))
    } else if let Some(rest) = after_prefix(path, "/takeover/"@) {
        if let Some(token) = before_suffix(rest, "/capture"@) {
            if is_token(token) {
                Step::ReadTicket { token, cookie: None, purpose: TicketUse::Query }
            } else {
                Step::Reply(capture_state(true))
            }
        } else {
            asset_step(site, "index.html"@)
        }
    } else {
        asset_step(site, without_leading(path, '/'))
    }
}

/// The first step of a request.
pub open spec fn route_step(
    site: SiteView,
    method: Seq<char>,
    path: Seq<char>,
    cookie: Option<Seq<char>>,
) -> StepView {
    let bare = pieces(path, '?')[0];
    if method == "GET"@ {
        get_step(site, bare)
    } else if method == "POST"@ {
        match after_prefix(bare, "/takeover/"@) {
            Some(rest) => post_step(rest, cookie),
            None => Step::Reply(not_found()),
        }
    } else {
        Step::Reply(not_found())
    }
}

/// The first step towards a file of the built page, given by its path below the
/// directory of the page. A path that starts at the root, or that climbs to a
/// parent directory, could leave the directory and is refused.
pub fn serve_file(site: &Site, rel: &str) -> (r: Exchange)
    ensures
        step_view(r) == asset_step(site@, rel@),
{
    match &site.webroot {
        None => Step::Reply(
            plain(
                "500 Internal Server Error",
                "takeover webroot not configured (set TAKEOVER_WEBROOT)",
            ),
        ),
        Some(root) => {
            proof {
                reveal_strlit("/");
                if rel@.len() > 0 && rel@[0] == '/' {
                    assert("/"@ =~= rel@.subrange(0, 1));
                }
                if "/"@.is_prefix_of(rel@) {
                    assert(rel@.subrange(0, 1)[0] == '/');
                }
            }
            if rel.is_empty() || starts_with(rel, "/") || has_parent_component(rel) {
                return Step::Reply(plain("404 Not Found", "not found"));
            }
            Step::ReadAsset { rel: rel.to_string(), path: join_path(root.as_str(), rel) }
        },
    }
}

/// The first step of a request to change something below `/takeover/`.
fn route_post(rest: &str, cookie: Option<String>) -> (r: Exchange)
    ensures
        step_view(r) == post_step(rest@, opt_text(cookie)),
{
    if let Some(token) = strip_suffix(rest, "/claim") {
        if valid_token(token.as_str()) {
            return Step::ReadTicket { token, cookie, purpose: TicketUse::Claim };
        }
        return Step::Reply(plain("400 Bad Request", "bad token"));
    }
    if let Some(token) = strip_suffix(rest, "/done") {
        if valid_token(token.as_str()) {
            return Step::ReadClaim { token, cookie, reason: ClaimUse::Done };
        }
        return Step::Reply(plain("400 Bad Request", "bad token"));
    }
    if let Some(token) = strip_suffix(rest, "/capture/on") {
        if valid_token(token.as_str()) {
            return Step::ReadClaim { token, cookie, reason: ClaimUse::Capture { on: true } };
        }
        return Step::Reply(plain("400 Bad Request", "bad token"));
    }
    if let Some(token) = strip_suffix(rest, "/capture/off") {
        if valid_token(token.as_str()) {
            return Step::ReadClaim { token, cookie, reason: ClaimUse::Capture { on: false } };
        }
        return Step::Reply(plain("400 Bad Request", "bad token"));
    }
    Step::Reply(plain("404 Not Found", "not found"))
}

/// The first step of a request to see something.
fn route_get(site: &Site, path: &str) -> (r: Exchange)
    ensures
        step_view(r) == get_step(site@, path@),
{
    if same_text(path, "/healthz") {
        return Step::Reply(plain("200 OK", "ok"));
    }
    if let Some(rest) = strip_prefix(path, "/takeover/") {
        if let Some(token) = strip_suffix(rest.as_str(), "/capture") {
            if valid_token(token.as_str()) {
                return Step::ReadTicket { token, cookie: None, purpose: TicketUse::Query };
            }
            return Step::Reply(capture_resp(true));
        }
        return serve_file(site, "index.html");
    }
    let rel = trim_leading(path, '/');
    serve_file(site, rel.as_str())
}

/// The first step of a request.
pub fn route(site: &Site, method: &str, path: &str, cookie: Option<String>) -> (r: Exchange)
    ensures
        step_view(r) == route_step(site@, method@, path@, opt_text(cookie)),
{
    let parts = split_on(path, '?');
    proof {
        assert(pieces(path@, '?').len() > 0);
        assert(texts(parts@)[0] == parts@[0]@);
    }
    let bare = parts[0].as_str();
    if same_text(method, "GET") {
        return route_get(site, bare);
    }
    if same_text(method, "POST") {
        if let Some(rest) = strip_prefix(bare, "/takeover/") {
            return route_post(rest.as_str(), cookie);
        }
    }
    Step::Reply(plain("404 Not Found", "not found"))
}

/// The first step once reading has ended: a request whose headers never came to
/// an end is refused rather than read in part.
pub open spec fn first_step(site: SiteView, bytes: Seq<u8>, complete: bool) -> StepView {
    if complete {
        route_step(
            site,
            method_of(lossy(bytes)),
            path_of(lossy(bytes)),
            cookie_value(lossy(bytes), "tk_claim"@),
        )
    } else {
        Step::Reply(resp("400 Bad Request"@, "text/plain"@, "bad request"@))
    }
}

/// The first step once reading has ended.
pub fn begin(site: &Site, request: &RequestBuffer) -> (r: Exchange)
    requires
        request.progress() != Reading::More,
    ensures
        step_view(r) == first_step(site@, request@, request.progress() == Reading::Complete),
        request.progress() == Reading::Complete && valid_utf8(request@) ==> step_view(r)
            == route_step(
            site@,
            method_of(decode_utf8(request@)),
            path_of(decode_utf8(request@)),
            cookie_value(decode_utf8(request@), "tk_claim"@),
        ),
{
    match request.reading() {
        Reading::Complete => {
            let r = parse_request(request.bytes());
            route(site, r.method.as_str(), r.path.as_str(), r.claim)
        },
        _ => Step::Reply(plain("400 Bad Request", "bad request")),
    }
}

// ---- the steps after it ---------------------------------------------------

/// The event is one that can come of the step.
pub open spec fn fits(step: StepView, event: EventView) -> bool {
    match step {
        Step::Reply(_) => false,
        Step::ReadTicket { .. } => event is Ticket,
        Step::ReadClaim { .. } => event is Claim,
        Step::MintSecret { .. } => event is Secret,
        Step::RecordClaim { .. } => event is Recorded,
        Step::MarkDone { .. } => event is Marked,
        Step::SetFlag { .. } => event is FlagSet,
        Step::CheckFlag { .. } => event is FlagPresent,
        Step::ReadAsset { .. } => event is Asset,
    }
}

/// What follows a ticket that was read, at the time `now`.
pub open spec fn after_ticket(
    token: Seq<char>,
    cookie: Option<Seq<char>>,
    purpose: TicketUse,
    ticket: Option<TicketView>,
    now: u128,
) -> StepView {
    match purpose {
        TicketUse::Claim => match ticket {
            None => Step::Reply(unknown_token()),
            Some(t) => if expired(t, now) {
                Step::Reply(gone())
            } else {
                Step::ReadClaim {
                    token,
                    cookie,
                    reason: ClaimUse::Claim { target_id: t.target_id, session_id: t.session_id },
                }
            },
        },
        TicketUse::Capture { on } => match ticket {
            None => Step::Reply(server_error()),
            Some(t) => if is_ctx(t.session_id) {
                Step::SetFlag { session_id: t.session_id, on }
            } else {
                Step::Reply(server_error())
            },
        },
        TicketUse::Query => match ticket {
            None => Step::Reply(capture_state(true)),
            Some(t) => if is_ctx(t.session_id) {
                Step::CheckFlag { session_id: t.session_id }
            } else {
                Step::Reply(capture_state(true))
            },
        },
    }
}

/// What follows a claim that was read.
pub open spec fn after_claim(
    site: SiteView,
    token: Seq<char>,
    cookie: Option<Seq<char>>,
    reason: ClaimUse<Seq<char>>,
    recorded: Option<Seq<char>>,
) -> StepView {
    let s = standing(recorded, cookie);
    match reason {
        ClaimUse::Claim { target_id, session_id } => match s {
            Standing::Unclaimed => Step::MintSecret { token, target_id, session_id },
            Standing::Holder => Step::Reply(
                claimed(site.chrome_ws_base, token, target_id, session_id, None),
            ),
            _ => Step::Reply(in_use()),
        },
        ClaimUse::Done => if s == Standing::Holder {
            Step::MarkDone { token }
        } else {
            Step::Reply(not_claimant())
        },
        ClaimUse::Capture { on } => if s == Standing::Holder {
            Step::ReadTicket { token, cookie, purpose: TicketUse::Capture { on } }
        } else {
            Step::Reply(not_claimant())
        },
    }
}

/// The step that follows `step` once `event` has come of it.
pub open spec fn next_step(
    site: SiteView,
    step: StepView,
    event: EventView,
) -> StepView {
    match (step, event) {
        (Step::ReadTicket { token, cookie, purpose }, Event::Ticket { ticket, now }) =>
            after_ticket(token, cookie, purpose, ticket, now),
        (Step::ReadClaim { token, cookie, reason }, Event::Claim(recorded)) =>
            after_claim(site, token, cookie, reason, recorded),
        (Step::MintSecret { token, target_id, session_id }, Event::Secret(secret)) =>
            match secret {
                Some(secret) => Step::RecordClaim { token, secret, target_id, session_id },
                None => Step::Reply(in_use()),
            },
        (
            Step::RecordClaim { token, secret, target_id, session_id },
            Event::Recorded(ok),
        ) => if ok {
            Step::Reply(claimed(site.chrome_ws_base, token, target_id, session_id, Some(secret)))
        } else {
            Step::Reply(in_use())
        },
        (Step::MarkDone { token }, Event::Marked(ok)) => if ok {
            Step::Reply(resp("200 OK"@, "text/plain"@, "done"@))
        } else {
            Step::Reply(server_error())
        },
        (Step::SetFlag { session_id, on }, Event::FlagSet(ok)) => if ok {
            Step::Reply(
                resp(
                    "200 OK"@,
                    "text/plain"@,
                    if on {
                        "on"@
                    } else {
                        "off"@
                    },
                ),
            )
        } else {
            Step::Reply(server_error())
        },
        (Step::CheckFlag { session_id }, Event::FlagPresent(present)) => Step::Reply(
            capture_state(!present),
        ),
        (Step::ReadAsset { rel, path }, Event::Asset(body)) => match body {
            Some(body) => Step::Reply(resp("200 OK"@, content_type_of(rel), body)),
            None => Step::Reply(not_found()),
        },
        _ => step,
    }
}

/// What follows a ticket that was read.
fn resume_ticket(
    token: String,
    cookie: Option<String>,
    purpose: TicketUse,
    ticket: Option<Ticket>,
    now: u128,
) -> (r: Exchange)
    ensures
        step_view(r) == after_ticket(
            token@,
            opt_text(cookie),
            purpose,
            match ticket {
                Some(t) => Some(t@),
                None => None,
            },
            now,
        ),
{
    match purpose {
        TicketUse::Claim => match ticket {
            None => Step::Reply(plain("404 Not Found", "unknown or consumed takeover token")),
            Some(t) => {
                if is_expired(&t, now) {
                    Step::Reply(plain("410 Gone", "this takeover link has expired"))
                } else {
                    Step::ReadClaim {
                        token,
                        cookie,
                        reason: ClaimUse::Claim {
                            target_id: t.target_id,
                            session_id: t.session_id,
                        },
                    }
                }
            },
        },
        TicketUse::Capture { on } => match ticket {
            Some(t) => {
                if valid_ctx(t.session_id.as_str()) {
                    Step::SetFlag { session_id: t.session_id, on }
                } else {
                    Step::Reply(plain("500 Internal Server Error", "error"))
                }
            },
            None => Step::Reply(plain("500 Internal Server Error", "error")),
        },
        TicketUse::Query => match ticket {
            Some(t) => {
                if valid_ctx(t.session_id.as_str()) {
                    Step::CheckFlag { session_id: t.session_id }
                } else {
                    Step::Reply(capture_resp(true))
                }
            },
            None => Step::Reply(capture_resp(true)),
        },
    }
}

/// What follows a claim that was read.
fn resume_claim(
    site: &Site,
    token: String,
    cookie: Option<String>,
    reason: ClaimUse<String>,
    recorded: Option<String>,
) -> (r: Exchange)
    ensures
        step_view(r) == after_claim(
            site@,
            token@,
            opt_text(cookie),
            claim_use_view(reason),
            opt_text(recorded),
        ),
{
    match reason {
        ClaimUse::Claim { target_id, session_id } => match claim(
            borrowed(&recorded),
            borrowed(&cookie),
        ) {
            Standing::Unclaimed => Step::MintSecret { token, target_id, session_id },
            Standing::Holder => Step::Reply(
                claimed_resp(
                    site,
                    token.as_str(),
                    target_id.as_str(),
                    session_id.as_str(),
                    None,
                ),
            ),
            _ => Step::Reply(
                plain("409 Conflict", "this takeover link is already in use by someone else"),
            ),
        },
        ClaimUse::Done => {
            if claim_matches(borrowed(&recorded), borrowed(&cookie)) {
                Step::MarkDone { token }
            } else {
                Step::Reply(plain("403 Forbidden", "not the claimant"))
            }
        },
        ClaimUse::Capture { on } => {
            if claim_matches(borrowed(&recorded), borrowed(&cookie)) {
                Step::ReadTicket { token, cookie, purpose: TicketUse::Capture { on } }
            } else {
                Step::Reply(plain("403 Forbidden", "not the claimant"))
            }
        },
    }
}

/// The step that follows `step` once `event` has come of it.
pub fn resume(site: &Site, step: Exchange, event: Outcome) -> (r: Exchange)
    ensures
        step_view(r) == next_step(site@, step_view(step), event_view(event)),
{
    match (step, event) {
        (Step::ReadTicket { token, cookie, purpose }, Event::Ticket { ticket, now }) =>
            resume_ticket(token, cookie, purpose, ticket, now),
        (Step::ReadClaim { token, cookie, reason }, Event::Claim(recorded)) =>
            resume_claim(site, token, cookie, reason, recorded),
        (Step::MintSecret { token, target_id, session_id }, Event::Secret(secret)) =>
            match secret {
                Some(secret) => Step::RecordClaim { token, secret, target_id, session_id },
                None => Step::Reply(
                    plain("409 Conflict", "this takeover link is already in use by someone else"),
                ),
            },
        (
            Step::RecordClaim { token, secret, target_id, session_id },
            Event::Recorded(ok),
        ) => {
            if ok {
                Step::Reply(
                    claimed_resp(
                        site,
                        token.as_str(),
                        target_id.as_str(),
                        session_id.as_str(),
                        Some(secret.as_str()),
                    ),
                )
            } else {
                Step::Reply(
                    plain("409 Conflict", "this takeover link is already in use by someone else"),
                )
            }
        },
        (Step::MarkDone { token: _ }, Event::Marked(ok)) => {
            if ok {
                Step::Reply(plain("200 OK", "done"))
            } else {
                Step::Reply(plain("500 Internal Server Error", "error"))
            }
        },
        (Step::SetFlag { session_id: _, on }, Event::FlagSet(ok)) => {
            if ok {
                Step::Reply(
                    plain(
                        "200 OK",
                        if on {
                            "on"
                        } else {
                            "off"
                        },
                    ),
                )
            } else {
                Step::Reply(plain("500 Internal Server Error", "error"))
            }
        },
        (Step::CheckFlag { session_id: _ }, Event::FlagPresent(present)) => Step::Reply(
            capture_resp(!present),
        ),
        (Step::ReadAsset { rel, path: _ }, Event::Asset(body)) => match body {
            Some(body) => Step::Reply(Resp::new("200 OK", content_type(rel.as_str()), body)),
            None => Step::Reply(plain("404 Not Found", "not found")),
        },
        (step, _) => step,
    }
}

}
