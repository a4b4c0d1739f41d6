//! What holds of the takeover daemon as a whole.
//!
//! The daemon's files are modelled as a [`Disk`], and [`serve`] runs an exchange
//! on it from its first step to the response.
use vstd::prelude::*;

use crate::paths::{below, climbs, is_file_name};
use crate::takeover::claim::{standing, Standing};
use crate::takeover::exchange::{
    after_prefix, asset_step, before_suffix, capture_state, claim_cookie, claimed, fits, gone,
    in_use, next_step, not_claimant, not_found, post_step, route_step, server_error, unknown_token, ClaimUse,
    Event, EventView, SiteView, Step, StepView, TicketUse,
};
use crate::takeover::http::{resp, RespView};
use crate::takeover::{
    address_of, claim_file, claims_root, done_file, done_root, expired, is_alphanumeric, is_ctx,
    is_lower_hex, is_token, stealth_file, stealth_root, ticket_file, tokens_path, TicketView,
};
use crate::text::{
    lemma_first_index_is, pieces, trimmed, without_trailing,
};

verus! {

// ---- the model ------------------------------------------------------------

/// The files that the daemon sees: the tickets and claims by their tokens, the
/// tokens of finished takeovers, the sessions with a flag, and the files of the
/// built page by their paths.
#[verifier::ext_equal]
pub struct Disk {
    pub tickets: Map<Seq<char>, TicketView>,
    pub claims: Map<Seq<char>, Seq<char>>,
    pub done: Set<Seq<char>>,
    pub flags: Set<Seq<char>>,
    pub assets: Map<Seq<char>, Seq<char>>,
}

/// What an exchange meets: the time, the secret that the randomness gives, if
/// any, and whether files can be written.
pub struct Moment {
    pub now: u128,
    pub secret: Option<Seq<char>>,
    pub writable: bool,
}

/// The value of a key, if there is one.
pub open spec fn entry<V>(m: Map<Seq<char>, V>, k: Seq<char>) -> Option<V> {
    if m.contains_key(k) {
        Some(m[k])
    } else {
        None
    }
}

/// What a step does to the files, and the event that comes of it.
pub open spec fn perform(disk: Disk, at: Moment, step: StepView) -> (
    Disk,
    EventView,
) {
    match step {
        Step::ReadTicket { token, .. } => (
            disk,
            Event::Ticket { ticket: entry(disk.tickets, token), now: at.now },
        ),
        Step::ReadClaim { token, .. } => (disk, Event::Claim(entry(disk.claims, token))),
        Step::MintSecret { .. } => (disk, Event::Secret(at.secret)),
        Step::RecordClaim { token, secret, .. } => if at.writable && !disk.claims.contains_key(
            token,
        ) {
            (
                Disk { claims: disk.claims.insert(token, secret), ..disk },
                Event::Recorded(true),
            )
        } else {
            (disk, Event::Recorded(false))
        },
        Step::MarkDone { token } => if at.writable {
            (Disk { done: disk.done.insert(token), ..disk }, Event::Marked(true))
        } else {
            (disk, Event::Marked(false))
        },
        Step::SetFlag { session_id, on } => if !at.writable {
            (disk, Event::FlagSet(on))
        } else if on {
            (Disk { flags: disk.flags.remove(session_id), ..disk }, Event::FlagSet(true))
        } else {
            (Disk { flags: disk.flags.insert(session_id), ..disk }, Event::FlagSet(true))
        },
        Step::CheckFlag { session_id } => (
            disk,
            Event::FlagPresent(disk.flags.contains(session_id)),
        ),
        Step::ReadAsset { path, .. } => (disk, Event::Asset(entry(disk.assets, path))),
        Step::Reply(_) => (disk, Event::Marked(true)),
    }
}

/// How many more steps an exchange can take at most.
pub open spec fn steps_left(step: StepView) -> nat {
    match step {
        Step::Reply(_) => 0,
        Step::ReadTicket { purpose, .. } => match purpose {
            TicketUse::Claim => 4,
            _ => 2,
        },
        Step::ReadClaim { reason, .. } => match reason {
            ClaimUse::Done => 2,
            _ => 3,
        },
        Step::MintSecret { .. } => 2,
        _ => 1,
    }
}

/// The files after an exchange that is at `step`, and its response.
pub open spec fn serve(
    site: SiteView,
    disk: Disk,
    at: Moment,
    step: StepView,
) -> (Disk, RespView)
    decreases steps_left(step),
{
    match step {
        Step::Reply(r) => (disk, r),
        _ => {
            let (after, event) = perform(disk, at, step);
            serve(site, after, at, next_step(site, step, event))
        },
    }
}

/// The files after a request, and the response to it.
pub open spec fn answer(
    site: SiteView,
    disk: Disk,
    at: Moment,
    method: Seq<char>,
    path: Seq<char>,
    cookie: Option<Seq<char>>,
) -> (Disk, RespView) {
    serve(site, disk, at, route_step(site, method, path, cookie))
}

/// The path of a link's action.
pub open spec fn link(token: Seq<char>, action: Seq<char>) -> Seq<char> {
    "/takeover/"@ + token + action
}

// ---- steps ----------------------------------------------------------------

/// Whatever comes of a step, fewer steps are left after it: every exchange ends
/// in a response, after four events at most.
pub proof fn law_exchange_ends(
    site: SiteView,
    step: StepView,
    event: EventView,
)
    requires
        fits(step, event),
    ensures
        steps_left(next_step(site, step, event)) < steps_left(step) <= 4,
        steps_left(step) > 0,
{
}

/// No step, of this exchange or of one at the same time, replaces or removes a
/// claim: the first one stays. Tickets and the built page are never touched.
pub proof fn law_claims_are_kept(disk: Disk, at: Moment, step: StepView)
    ensures
        disk.claims.submap_of(perform(disk, at, step).0.claims),
        perform(disk, at, step).0.tickets == disk.tickets,
        perform(disk, at, step).0.assets == disk.assets,
{
}

/// Of two browsers that try to record a claim on one token, the second fails,
/// whatever the two hold and whatever else was done in between.
pub proof fn law_one_claimant(
    site: SiteView,
    first: Disk,
    later: Disk,
    at: Moment,
    token: Seq<char>,
    secret: Seq<char>,
    secret2: Seq<char>,
    target_id: Seq<char>,
    session_id: Seq<char>,
)
    requires
        at.writable,
        perform(first, at, Step::RecordClaim { token, secret, target_id, session_id })
            .0.claims.submap_of(later.claims),
    ensures
        ({
            let again = Step::RecordClaim { token, secret: secret2, target_id, session_id };
            &&& perform(later, at, again) == (later, EventView::Recorded(false))
            &&& next_step(site, again, Event::Recorded(false)) == StepView::Reply(in_use())
        }),
{
    let claims = perform(first, at, Step::RecordClaim { token, secret, target_id, session_id })
        .0.claims;
    assert(claims.contains_key(token));
    assert(later.claims.contains_key(token));
}

// ---- requests -------------------------------------------------------------

/// A whole exchange keeps the claims, the tickets and the built page.
pub proof fn law_request_keeps_claims(
    site: SiteView,
    disk: Disk,
    at: Moment,
    step: StepView,
)
    ensures
        disk.claims.submap_of(serve(site, disk, at, step).0.claims),
        serve(site, disk, at, step).0.tickets == disk.tickets,
        serve(site, disk, at, step).0.assets == disk.assets,
    decreases steps_left(step),
{
    match step {
        Step::Reply(_) => {},
        _ => {
            let (after, event) = perform(disk, at, step);
            law_exchange_ends(site, step, event);
            law_claims_are_kept(disk, at, step);
            law_request_keeps_claims(site, after, at, next_step(site, step, event));
        },
    }
}

/// Text without `c` is its own only piece.
proof fn lemma_one_piece(s: Seq<char>, c: char)
    requires
        !s.contains(c),
    ensures
        pieces(s, c) == seq![s],
{
    assert forall|j: int| 0 <= j < s.len() implies s[j] != c by {
        assert(s.contains(s[j]));
    }
    lemma_first_index_is(s, c, s.len() as int);
}

/// A token and an action without a question mark make a path that is read as
/// they were written.
proof fn lemma_link(token: Seq<char>, action: Seq<char>)
    requires
        is_token(token),
        !action.contains('?'),
    ensures
        pieces(link(token, action), '?')[0] == link(token, action),
        after_prefix(link(token, action), "/takeover/"@) == Some(token + action),
{
    reveal_strlit("/takeover/");
    let path = link(token, action);
    assert forall|j: int| 0 <= j < path.len() implies path[j] != '?' by {
        if j < 10 {
        } else if j < 42 {
            assert(path[j] == token[j - 10]);
            assert(is_lower_hex(token[j - 10]));
        } else {
            assert(path[j] == action[j - 42]);
            assert(action.contains(action[j - 42]));
        }
    }
    lemma_one_piece(path, '?');
    assert(path.take(10) =~= "/takeover/"@);
    assert(path.skip(10) =~= token + action);
}

/// What a link's action asks for.
proof fn lemma_actions(token: Seq<char>, cookie: Option<Seq<char>>)
    requires
        is_token(token),
    ensures
        post_step(token + "/claim"@, cookie) == (StepView::ReadTicket {
            token,
            cookie,
            purpose: TicketUse::Claim,
        }),
        post_step(token + "/done"@, cookie) == (StepView::ReadClaim {
            token,
            cookie,
            reason: ClaimUse::Done,
        }),
        post_step(token + "/capture/on"@, cookie) == (StepView::ReadClaim {
            token,
            cookie,
            reason: ClaimUse::Capture { on: true },
        }),
        post_step(token + "/capture/off"@, cookie) == (StepView::ReadClaim {
            token,
            cookie,
            reason: ClaimUse::Capture { on: false },
        }),
        before_suffix(token + "/capture"@, "/capture"@) == Some(token),
{
    reveal_strlit("/claim");
    reveal_strlit("/done");
    reveal_strlit("/capture/on");
    reveal_strlit("/capture/off");
    reveal_strlit("/capture");
    lemma_suffix(token, "/claim"@);
    lemma_suffix(token, "/done"@);
    lemma_suffix(token, "/capture/on"@);
    lemma_suffix(token, "/capture/off"@);
    lemma_suffix(token, "/capture"@);
    lemma_other_end(token + "/done"@, "/claim"@);
    lemma_other_end(token + "/capture/on"@, "/claim"@);
    lemma_other_end(token + "/capture/on"@, "/done"@);
    lemma_other_end(token + "/capture/off"@, "/claim"@);
    lemma_other_end(token + "/capture/off"@, "/done"@);
    lemma_other_end(token + "/capture/off"@, "/capture/on"@);
}

/// What stands before a suffix that was put there.
proof fn lemma_suffix(token: Seq<char>, action: Seq<char>)
    ensures
        before_suffix(token + action, action) == Some(token),
{
    let s = token + action;
    assert(s.skip(s.len() - action.len()) =~= action);
    assert(s.subrange(s.len() - action.len(), s.len() as int) =~= action);
    assert(s.take(s.len() - action.len()) =~= token);
}

/// Texts that end in different characters share no suffix.
proof fn lemma_other_end(s: Seq<char>, suffix: Seq<char>)
    requires
        s.len() > 0,
        suffix.len() > 0,
        s.last() != suffix.last(),
    ensures
        before_suffix(s, suffix) is None,
{
    if suffix.is_suffix_of(s) {
        assert(s.subrange(s.len() - suffix.len(), s.len() as int).last() == s.last());
    }
}

/// A token is not changed by trimming.
pub proof fn lemma_token_trimmed(s: Seq<char>)
    requires
        is_token(s),
    ensures
        trimmed(s) == s,
{
    assert(is_lower_hex(s[0]));
    assert(is_lower_hex(s[31]));
    assert(s.skip(0) =~= s);
    assert(s.take(32) =~= s);
}

/// What a `POST` to an action of a link starts with.
proof fn lemma_post(
    site: SiteView,
    token: Seq<char>,
    action: Seq<char>,
    cookie: Option<Seq<char>>,
)
    requires
        is_token(token),
        !action.contains('?'),
    ensures
        route_step(site, "POST"@, link(token, action), cookie) == post_step(
            token + action,
            cookie,
        ),
{
    reveal_strlit("GET");
    reveal_strlit("POST");
    assert("GET"@.len() != "POST"@.len());
    lemma_link(token, action);
}

/// The claim on a link starts with its ticket.
pub proof fn lemma_claim_starts(site: SiteView, token: Seq<char>, cookie: Option<Seq<char>>)
    requires
        is_token(token),
    ensures
        route_step(site, "POST"@, link(token, "/claim"@), cookie) == (StepView::ReadTicket {
            token,
            cookie,
            purpose: TicketUse::Claim,
        }),
{
    lemma_actions_are_plain();
    lemma_actions(token, cookie);
    lemma_post(site, token, "/claim"@, cookie);
}

/// The actions have no question mark.
proof fn lemma_actions_are_plain()
    ensures
        !"/claim"@.contains('?'),
        !"/done"@.contains('?'),
        !"/capture/on"@.contains('?'),
        !"/capture/off"@.contains('?'),
        !"/capture"@.contains('?'),
{
    reveal_strlit("/claim");
    reveal_strlit("/done");
    reveal_strlit("/capture/on");
    reveal_strlit("/capture/off");
    reveal_strlit("/capture");
}

/// The files after the claim on a link, and the response to it.
pub open spec fn claim_link(
    site: SiteView,
    disk: Disk,
    at: Moment,
    token: Seq<char>,
    cookie: Option<Seq<char>>,
) -> (Disk, RespView) {
    answer(site, disk, at, "POST"@, link(token, "/claim"@), cookie)
}

/// A link without a ticket is unknown, and one past its time is gone; neither
/// touches a file, whatever cookie is shown and whoever has claimed it.
pub proof fn law_dead_link(
    site: SiteView,
    disk: Disk,
    at: Moment,
    token: Seq<char>,
    cookie: Option<Seq<char>>,
)
    requires
        is_token(token),
    ensures
        !disk.tickets.contains_key(token) ==> claim_link(site, disk, at, token, cookie) == (
            disk,
            unknown_token(),
        ),
        disk.tickets.contains_key(token) && expired(disk.tickets[token], at.now) ==> claim_link(
            site,
            disk,
            at,
            token,
            cookie,
        ) == (disk, gone()),
{
    lemma_claim_starts(site, token, cookie);
    reveal_with_fuel(serve, 3);
}

/// A link is live: it has a ticket, which has not expired.
pub open spec fn live(disk: Disk, at: Moment, token: Seq<char>) -> bool {
    disk.tickets.contains_key(token) && !expired(disk.tickets[token], at.now)
}

/// The first browser to claim a live link is told where Chrome is, is given a
/// secret as its cookie, and has its claim recorded; nothing else changes.
pub proof fn law_first_claim(
    site: SiteView,
    disk: Disk,
    at: Moment,
    token: Seq<char>,
    cookie: Option<Seq<char>>,
)
    requires
        is_token(token),
        live(disk, at, token),
        !disk.claims.contains_key(token),
        at.writable,
        at.secret is Some,
    ensures
        claim_link(site, disk, at, token, cookie) == (
            Disk { claims: disk.claims.insert(token, at.secret->0), ..disk },
            claimed(
                site.chrome_ws_base,
                token,
                disk.tickets[token].target_id,
                disk.tickets[token].session_id,
                at.secret,
            ),
        ),
{
    lemma_claim_starts(site, token, cookie);
    reveal_with_fuel(serve, 5);
}

/// Once a live link is claimed, the browser that shows the secret is told the
/// same again, without a new cookie; every other browser is refused. No file is
/// touched either way.
pub proof fn law_later_claim(
    site: SiteView,
    disk: Disk,
    at: Moment,
    token: Seq<char>,
    cookie: Option<Seq<char>>,
)
    requires
        is_token(token),
        live(disk, at, token),
        disk.claims.contains_key(token),
    ensures
        claim_link(site, disk, at, token, cookie) == (
            disk,
            if standing(Some(disk.claims[token]), cookie) == Standing::Holder {
                claimed(
                    site.chrome_ws_base,
                    token,
                    disk.tickets[token].target_id,
                    disk.tickets[token].session_id,
                    None,
                )
            } else {
                in_use()
            },
        ),
{
    lemma_claim_starts(site, token, cookie);
    reveal_with_fuel(serve, 4);
}

/// A leaked link is useless once its user has opened it: after the first claim,
/// and whatever requests came in between, only the browser that shows the secret
/// it was given is served, and every other one is refused.
pub proof fn law_leaked_link(
    site: SiteView,
    disk: Disk,
    at: Moment,
    later: Disk,
    later_at: Moment,
    token: Seq<char>,
    first_cookie: Option<Seq<char>>,
    cookie: Option<Seq<char>>,
)
    requires
        is_token(token),
        live(disk, at, token),
        !disk.claims.contains_key(token),
        at.writable,
        at.secret is Some,
        is_token(at.secret->0),
        claim_link(site, disk, at, token, first_cookie).0.claims.submap_of(later.claims),
        live(later, later_at, token),
    ensures
        claim_link(site, later, later_at, token, cookie).0 == later,
        cookie == at.secret ==> claim_link(site, later, later_at, token, cookie).1 == claimed(
            site.chrome_ws_base,
            token,
            later.tickets[token].target_id,
            later.tickets[token].session_id,
            None,
        ),
        cookie != at.secret ==> claim_link(site, later, later_at, token, cookie).1 == in_use(),
{
    law_first_claim(site, disk, at, token, first_cookie);
    let claims = disk.claims.insert(token, at.secret->0);
    assert(claims.dom().contains(token) && later.claims.dom().contains(token));
    assert(later.claims[token] == at.secret->0);
    lemma_token_trimmed(at.secret->0);
    law_later_claim(site, later, later_at, token, cookie);
}

/// Only the claimant finishes a takeover: with the secret the mark is set, and
/// anybody else, or a link that nobody has claimed, is refused with no file
/// touched.
pub proof fn law_done(
    site: SiteView,
    disk: Disk,
    at: Moment,
    token: Seq<char>,
    cookie: Option<Seq<char>>,
)
    requires
        is_token(token),
    ensures
        ({
            let holder = standing(entry(disk.claims, token), cookie) == Standing::Holder;
            answer(site, disk, at, "POST"@, link(token, "/done"@), cookie) == if !holder {
                (disk, not_claimant())
            } else if at.writable {
                (
                    Disk { done: disk.done.insert(token), ..disk },
                    resp("200 OK"@, "text/plain"@, "done"@),
                )
            } else {
                (disk, server_error())
            }
        }),
{
    lemma_actions_are_plain();
    lemma_actions(token, cookie);
    lemma_post(site, token, "/done"@, cookie);
    reveal_with_fuel(serve, 3);
}

/// No request but the claimant's marks a takeover as finished: where a token is
/// newly marked, the request showed the secret that is recorded for it.
pub proof fn law_done_needs_the_secret(
    site: SiteView,
    disk: Disk,
    at: Moment,
    method: Seq<char>,
    path: Seq<char>,
    cookie: Option<Seq<char>>,
    token: Seq<char>,
)
    requires
        !disk.done.contains(token),
        answer(site, disk, at, method, path, cookie).0.done.contains(token),
    ensures
        method == "POST"@,
        is_token(token),
        disk.claims.contains_key(token),
        standing(Some(disk.claims[token]), cookie) == Standing::Holder,
{
    reveal_with_fuel(serve, 6);
    let step = route_step(site, method, path, cookie);
    match step {
        Step::ReadTicket { .. } => {},
        Step::ReadClaim { .. } => {},
        _ => {},
    }
}

/// A cookie is only ever given out with a claim that was recorded for it: the
/// token had none before, and holds the secret of the cookie after.
pub proof fn law_cookie_comes_with_a_claim(
    site: SiteView,
    disk: Disk,
    at: Moment,
    method: Seq<char>,
    path: Seq<char>,
    cookie: Option<Seq<char>>,
)
    requires
        answer(site, disk, at, method, path, cookie).1.set_cookie is Some,
    ensures
        at.secret is Some,
        exists|token: Seq<char>|
            {
                &&& is_token(token)
                &&& live(disk, at, token)
                &&& !disk.claims.contains_key(token)
                &&& answer(site, disk, at, method, path, cookie).0.claims
                    == #[trigger] disk.claims.insert(token, at.secret->0)
                &&& answer(site, disk, at, method, path, cookie).1.set_cookie == Some(
                    claim_cookie(token, at.secret->0),
                )
            },
{
    reveal_with_fuel(serve, 6);
    let step = route_step(site, method, path, cookie);
    match step {
        Step::ReadTicket { token, .. } => {
            assert(is_token(token));
            assert(answer(site, disk, at, method, path, cookie).0.claims == disk.claims.insert(
                token,
                at.secret->0,
            ));
        },
        Step::ReadClaim { .. } => {},
        _ => {},
    }
}

/// A request that is no `POST` changes nothing. Bots that follow a link without
/// running the page neither claim nor finish it.
pub proof fn law_reading_changes_nothing(
    site: SiteView,
    disk: Disk,
    at: Moment,
    method: Seq<char>,
    path: Seq<char>,
    cookie: Option<Seq<char>>,
)
    requires
        method != "POST"@,
    ensures
        answer(site, disk, at, method, path, cookie).0 == disk,
        answer(site, disk, at, method, path, cookie).1.set_cookie is None,
{
    reveal_with_fuel(serve, 4);
}

/// The claimant switches console capture for the session of its ticket: off
/// writes the flag, on removes it, and nothing else changes; anybody else is
/// refused.
pub proof fn law_capture(
    site: SiteView,
    disk: Disk,
    at: Moment,
    token: Seq<char>,
    cookie: Option<Seq<char>>,
    on: bool,
)
    requires
        is_token(token),
        disk.tickets.contains_key(token),
        is_ctx(disk.tickets[token].session_id),
        at.writable,
    ensures
        ({
            let holder = standing(entry(disk.claims, token), cookie) == Standing::Holder;
            let session = disk.tickets[token].session_id;
            let action = if on {
                "/capture/on"@
            } else {
                "/capture/off"@
            };
            answer(site, disk, at, "POST"@, link(token, action), cookie) == if !holder {
                (disk, not_claimant())
            } else {
                (
                    Disk {
                        flags: if on {
                            disk.flags.remove(session)
                        } else {
                            disk.flags.insert(session)
                        },
                        ..disk
                    },
                    resp(
                        "200 OK"@,
                        "text/plain"@,
                        if on {
                            "on"@
                        } else {
                            "off"@
                        },
                    ),
                )
            }
        }),
{
    lemma_actions_are_plain();
    lemma_actions(token, cookie);
    if on {
        lemma_post(site, token, "/capture/on"@, cookie);
    } else {
        lemma_post(site, token, "/capture/off"@, cookie);
    }
    reveal_with_fuel(serve, 4);
}

/// Whether console capture is on can be seen by anybody, and is off exactly
/// while the flag of the ticket's session is there.
pub proof fn law_capture_is_seen(
    site: SiteView,
    disk: Disk,
    at: Moment,
    token: Seq<char>,
    cookie: Option<Seq<char>>,
)
    requires
        is_token(token),
        disk.tickets.contains_key(token),
        is_ctx(disk.tickets[token].session_id),
    ensures
        answer(site, disk, at, "GET"@, link(token, "/capture"@), cookie) == (
            disk,
            capture_state(!disk.flags.contains(disk.tickets[token].session_id)),
        ),
{
    lemma_actions_are_plain();
    lemma_actions(token, cookie);
    lemma_link(token, "/capture"@);
    reveal_strlit("/takeover/");
    reveal_strlit("/healthz");
    assert(link(token, "/capture"@)[1] == 't');
    reveal_with_fuel(serve, 3);
}

// ---- files ----------------------------------------------------------------

/// A token names a file, in whichever directory it is looked up: no token leads
/// out of the directories of the tickets, the marks and the claims.
pub proof fn law_token_stays_below(root: Seq<char>, token: Seq<char>)
    requires
        is_token(token),
    ensures
        is_file_name(token),
        is_file_name(token + ".json"@),
        tokens_path(root).is_prefix_of(ticket_file(root, token)),
        done_root(root).is_prefix_of(done_file(root, token)),
        claims_root(root).is_prefix_of(claim_file(root, token)),
{
    reveal_strlit(".json");
    assert forall|j: int| 0 <= j < 32 implies token[j] != '/' by {
        assert(is_lower_hex(token[j]));
    }
    assert(is_lower_hex(token[0]));
    let name = token + ".json"@;
    assert forall|j: int| 0 <= j < name.len() implies name[j] != '/' by {
        if j < 32 {
            assert(name[j] == token[j]);
        } else {
            assert(name[j] == ".json"@[j - 32]);
        }
    }
    lemma_below(tokens_path(root), name);
    lemma_below(done_root(root), token);
    lemma_below(claims_root(root), token);
}

/// A checked context id names a file in the directory of the flags.
pub proof fn law_context_stays_below(root: Seq<char>, ctx: Seq<char>)
    requires
        is_ctx(ctx),
    ensures
        is_file_name(ctx),
        stealth_root(root).is_prefix_of(stealth_file(root, ctx)),
{
    assert forall|j: int| 0 <= j < ctx.len() implies ctx[j] != '/' && ctx[j] != '.' by {
        assert(is_alphanumeric(ctx[j]));
    }
    lemma_below(stealth_root(root), ctx);
}

/// A part that does not start at the root lies below the directory.
proof fn lemma_below(dir: Seq<char>, part: Seq<char>)
    requires
        part.len() > 0 ==> part[0] != '/',
    ensures
        dir.is_prefix_of(below(dir, part)),
        part.is_suffix_of(below(dir, part)),
{
    let p = below(dir, part);
    assert(p.take(dir.len() as int) =~= dir);
    assert(p.skip(p.len() - part.len()) =~= part);
    assert(p.subrange(p.len() - part.len(), p.len() as int) =~= part);
}

/// Whatever path it is asked for by, a file is only ever read from below the
/// directory of the built page: a path from the root, or one that climbs, is not
/// found.
pub proof fn law_served_file_stays_below(site: SiteView, rel: Seq<char>)
    ensures
        asset_step(site, rel) matches Step::ReadAsset { rel: r, path } ==> {
            &&& site.webroot is Some
            &&& site.webroot->0.is_prefix_of(path)
            &&& path == below(site.webroot->0, rel)
            &&& r == rel && !climbs(rel)
        },
        site.webroot is Some && ((rel.len() > 0 && rel[0] == '/') || climbs(rel)) ==> asset_step(
            site,
            rel,
        ) == StepView::Reply(not_found()),
{
    if site.webroot is Some && rel.len() > 0 && rel[0] != '/' {
        lemma_below(site.webroot->0, rel);
    }
}

/// A file is only ever read from below the directory of the built page, by a
/// path that does not climb out of it, whatever the request.
pub proof fn law_assets_stay_below(
    site: SiteView,
    method: Seq<char>,
    path: Seq<char>,
    cookie: Option<Seq<char>>,
)
    requires
        route_step(site, method, path, cookie) is ReadAsset,
    ensures
        site.webroot is Some,
        !climbs(route_step(site, method, path, cookie)->rel),
        route_step(site, method, path, cookie)->path == below(
            site.webroot->0,
            route_step(site, method, path, cookie)->rel,
        ),
        site.webroot->0.is_prefix_of(route_step(site, method, path, cookie)->path),
{
    law_served_file_stays_below(site, route_step(site, method, path, cookie)->rel);
}

/// Two parts below one directory are at one path only if they are one.
pub proof fn lemma_below_is_injective(dir: Seq<char>, a: Seq<char>, b: Seq<char>)
    requires
        a.len() > 0 && a[0] != '/',
        b.len() > 0 && b[0] != '/',
        below(dir, a) == below(dir, b),
    ensures
        a == b,
{
    let front = below(dir, a).len() - a.len();
    assert(a =~= below(dir, a).skip(front));
    assert(b =~= below(dir, b).skip(front));
}

/// Two links share no file, and two sessions share no flag.
pub proof fn law_files_are_apart(
    root: Seq<char>,
    a: Seq<char>,
    b: Seq<char>,
    c: Seq<char>,
    d: Seq<char>,
)
    requires
        is_token(a) && is_token(b) && a != b,
        is_ctx(c) && is_ctx(d) && c != d,
    ensures
        ticket_file(root, a) != ticket_file(root, b),
        done_file(root, a) != done_file(root, b),
        claim_file(root, a) != claim_file(root, b),
        stealth_file(root, c) != stealth_file(root, d),
{
    assert(is_lower_hex(a[0]) && is_lower_hex(b[0]));
    assert(is_alphanumeric(c[0]) && is_alphanumeric(d[0]));
    if ticket_file(root, a) == ticket_file(root, b) {
        let x = a + ".json"@;
        let y = b + ".json"@;
        assert(x[0] == a[0] && y[0] == b[0]);
        lemma_below_is_injective(tokens_path(root), x, y);
        assert(a =~= x.take(32));
        assert(b =~= y.take(32));
    }
    if done_file(root, a) == done_file(root, b) {
        lemma_below_is_injective(done_root(root), a, b);
    }
    if claim_file(root, a) == claim_file(root, b) {
        lemma_below_is_injective(claims_root(root), a, b);
    }
    if stealth_file(root, c) == stealth_file(root, d) {
        lemma_below_is_injective(stealth_root(root), c, d);
    }
}

/// What is left once the run of `c` is gone does not end in `c`.
proof fn lemma_without_trailing(s: Seq<char>, c: char)
    ensures
        without_trailing(s, c).len() > 0 ==> without_trailing(s, c).last() != c,
    decreases s.len(),
{
    if s.len() > 0 && s.last() == c {
        lemma_without_trailing(s.drop_last(), c);
    }
}

/// A configured address ends in no slash, so that a link built on it has one
/// slash before its path.
pub proof fn law_address_ends_in_no_slash(configured: Option<Seq<char>>)
    ensures
        address_of(configured) matches Some(a) ==> a.len() > 0 ==> a.last() != '/',
{
    if configured is Some {
        lemma_without_trailing(configured->0, '/');
    }
}

}
