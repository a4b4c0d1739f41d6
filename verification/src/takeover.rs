//! Human takeover: tickets, tokens, flags and the files that hold them.
//!
//! The agent writes a ticket under a random token and hands out a link; the
//! daemon serves the page behind the link. The two processes meet in a shared
//! directory:
//!
//! - `tokens/<token>.json`: the ticket, which says what the human is to drive
//! - `claims/<token>`: the secret of the browser that opened the link first
//! - `done/<token>`: present once the human has finished
//! - `stealth/<context>`: present while console capture is off for a session
use vstd::prelude::*;

use crate::error::{Failure, Refusal};
use crate::outside::{getrandom_error_text, unix_epoch};
use crate::paths::{below, join_path};
use crate::text::{
    cat2, chars_of, ends_with, hex, hex_text, opt_text, strip_suffix, trim_trailing,
    without_trailing,
};

pub mod answers;
pub mod claim;
pub mod exchange;
pub mod http;
pub mod laws;
pub mod race;

verus! {

/// What the human is asked to drive.
#[derive(Debug)]
pub struct Ticket {
    pub session_id: String,
    /// The page whose picture the human sees, by its DevTools target id.
    pub target_id: String,
    /// The time in Unix milliseconds from which on the link is refused.
    pub expires_at_ms: u128,
}

/// What a [`Ticket`] says.
#[verifier::ext_equal]
pub struct TicketView {
    pub session_id: Seq<char>,
    pub target_id: Seq<char>,
    pub expires_at_ms: u128,
}

impl View for Ticket {
    type V = TicketView;

    open spec fn view(&self) -> TicketView {
        TicketView {
            session_id: self.session_id@,
            target_id: self.target_id@,
            expires_at_ms: self.expires_at_ms,
        }
    }
}

// ---- configuration --------------------------------------------------------

/// The takeover directory for a configured value.
pub open spec fn takeover_dir_of(configured: Option<Seq<char>>) -> Seq<char> {
    match configured {
        Some(d) => d,
        None => "/var/lib/browser-session-mcp/takeover"@,
    }
}

/// The shared takeover directory: the value of `TAKEOVER_DIR`, or the default
/// where it is not set.
pub fn takeover_dir(configured: Option<String>) -> (r: String)
    ensures
        r@ == takeover_dir_of(opt_text(configured)),
{
    match configured {
        Some(d) => d,
        None => "/var/lib/browser-session-mcp/takeover".to_string(),
    }
}

/// An address without the slashes at its end; none if it is not set or empty.
pub open spec fn address_of(configured: Option<Seq<char>>) -> Option<Seq<char>> {
    match configured {
        Some(s) => if s.len() == 0 {
            None
        } else {
            Some(without_trailing(s, '/'))
        },
        None => None,
    }
}

/// The public address of the takeover daemon, from the value of
/// `TAKEOVER_BASE_URL`.
pub fn base_url(configured: Option<String>) -> (r: Option<String>)
    ensures
        opt_text(r) == address_of(opt_text(configured)),
{
    match configured {
        Some(s) => {
            if s.as_str().is_empty() {
                None
            } else {
                Some(trim_trailing(s.as_str(), '/'))
            }
        },
        None => None,
    }
}

/// The public address of the takeover daemon, without which no link can be given
/// out.
pub fn required_base(configured: Option<String>) -> (r: Result<String, Refusal>)
    ensures
        match r {
            Ok(base) => address_of(opt_text(configured)) == Some(base@),
            Err(e) => {
                &&& address_of(opt_text(configured)) is None
                &&& e@ == Failure::<Seq<char>>::TakeoverNotConfigured
            },
        },
{
    match base_url(configured) {
        Some(base) => Ok(base),
        None => Err(Failure::TakeoverNotConfigured),
    }
}

/// The directory of the built page, from the value of `TAKEOVER_WEBROOT`.
pub fn webroot(configured: Option<String>) -> (r: Option<String>)
    ensures
        opt_text(r) == (match opt_text(configured) {
            Some(s) => if s.len() == 0 {
                None
            } else {
                Some(s)
            },
            None => None,
        }),
{
    match configured {
        Some(s) => {
            if s.as_str().is_empty() {
                None
            } else {
                Some(s)
            }
        },
        None => None,
    }
}

/// What the daemon is started with.
pub struct DaemonConfig {
    /// Where it listens.
    pub bind: String,
    /// The WebSocket base of Chrome, without slashes at its end.
    pub chrome_ws_base: String,
}

/// The daemon's configuration from the values of `TAKEOVER_BIND` and
/// `CHROME_WS_BASE`; the second is required.
pub fn daemon_config(bind: Option<String>, chrome_ws_base: Option<String>) -> (r: Result<
    DaemonConfig,
    Refusal,
>)
    ensures
        match r {
            Ok(c) => {
                &&& c.bind@ == (match opt_text(bind) {
                    Some(b) => b,
                    None => "127.0.0.1:9223"@,
                })
                &&& Some(c.chrome_ws_base@) == address_of(opt_text(chrome_ws_base))
            },
            Err(e) => {
                &&& address_of(opt_text(chrome_ws_base)) is None
                &&& e@ == Failure::<Seq<char>>::NoChromeWsBase
            },
        },
{
    let bind = match bind {
        Some(b) => b,
        None => "127.0.0.1:9223".to_string(),
    };
    match base_url(chrome_ws_base) {
        Some(chrome_ws_base) => Ok(DaemonConfig { bind, chrome_ws_base }),
        None => Err(Failure::NoChromeWsBase),
    }
}

// ---- time -----------------------------------------------------------------

/// The latest time that the clock can show, in Unix milliseconds.
pub open spec fn clock_limit() -> int {
    u64::MAX * 1000 + 999
}

/// The time, in Unix milliseconds, by a reading of the clock: the milliseconds
/// since the start of 1970, or none if the clock stands before it, which counts
/// as 0.
pub fn unix_ms(since_epoch: Option<u128>) -> (r: u128)
    ensures
        r == (match since_epoch {
            Some(ms) => ms,
            None => 0,
        }),
{
    match since_epoch {
        Some(ms) => ms,
        None => 0,
    }
}

/// The time, in Unix milliseconds; 0 if the clock stands before 1970. What the
/// clock shows is not known beforehand, only that it shows no more than it can.
pub fn now_ms() -> (r: u128)
    ensures
        r <= clock_limit(),
{
    match std::time::SystemTime::now().duration_since(unix_epoch()) {
        Ok(d) => unix_ms(Some(d.as_millis())),
        Err(_) => unix_ms(None),
    }
}

/// The time `ttl_ms` after `now`.
pub fn expiry_at(now: u128, ttl_ms: u64) -> (r: u128)
    requires
        now + ttl_ms <= u128::MAX,
    ensures
        r == now + ttl_ms,
{
    now + ttl_ms as u128
}

/// The time `ttl_ms` from now, with which a ticket's expiry is stamped.
pub fn expiry_ms(ttl_ms: u64) -> (r: u128)
    ensures
        ttl_ms <= r <= clock_limit() + ttl_ms,
{
    expiry_at(now_ms(), ttl_ms)
}

/// Whether a ticket is refused at the time `now`.
pub open spec fn expired(t: TicketView, now: u128) -> bool {
    t.expires_at_ms <= now
}

/// Whether a ticket is refused at the time `now`.
pub fn is_expired(t: &Ticket, now: u128) -> (r: bool)
    ensures
        r == expired(t@, now),
{
    t.expires_at_ms <= now
}

/// The ticket for a page of a session that is valid for a time from `now` on.
pub open spec fn ticket_at(
    session_id: Seq<char>,
    target_id: Seq<char>,
    now: u128,
    ttl_ms: u64,
) -> TicketView {
    TicketView { session_id, target_id, expires_at_ms: (now + ttl_ms) as u128 }
}

/// The default lifetime of a link and the default wait for the human: 5 minutes.
pub const DEFAULT_WAIT_MS: u64 = 300_000;

/// The longest lifetime of a link and the longest wait: 30 minutes.
pub const MAX_WAIT_MS: u64 = 1_800_000;

/// A requested time in milliseconds, with the default and the limit applied.
pub fn wait_ms(requested: Option<u64>) -> (r: u64)
    ensures
        r == wait_ms_of(requested),
{
    let ms: u64 = match requested {
        Some(ms) => ms,
        None => DEFAULT_WAIT_MS,
    };
    if ms < MAX_WAIT_MS {
        ms
    } else {
        MAX_WAIT_MS
    }
}

/// A requested time in milliseconds, with the default and the limit applied.
pub open spec fn wait_ms_of(requested: Option<u64>) -> u64 {
    let ms = match requested {
        Some(ms) => ms,
        None => DEFAULT_WAIT_MS,
    };
    if ms < MAX_WAIT_MS {
        ms
    } else {
        MAX_WAIT_MS
    }
}

/// A ticket is served for exactly the time that it was made for: at every moment
/// before that is over, and at none from then on.
pub proof fn law_ticket_lasts_its_time(
    session_id: Seq<char>,
    target_id: Seq<char>,
    now: u128,
    ttl_ms: u64,
    later: u128,
)
    requires
        now <= clock_limit(),
    ensures
        expired(ticket_at(session_id, target_id, now, ttl_ms), later) <==> later >= now + ttl_ms,
{
}

// ---- tokens ---------------------------------------------------------------

/// A lower-case hexadecimal digit.
pub open spec fn is_lower_hex(c: char) -> bool {
    ('0' <= c <= '9') || ('a' <= c <= 'f')
}

/// A token: 32 lower-case hexadecimal digits.
pub open spec fn is_token(s: Seq<char>) -> bool {
    &&& s.len() == 32
    &&& forall|i: int| 0 <= i < s.len() ==> is_lower_hex(#[trigger] s[i])
}

/// Whether a text is a token. Anything else is refused, so that a crafted path
/// cannot leave the directory it is looked up in.
pub fn valid_token(token: &str) -> (r: bool)
    ensures
        r == is_token(token@),
{
    let cs = chars_of(token);
    if cs.len() != 32 {
        return false;
    }
    let mut i: usize = 0;
    while i < cs.len()
        invariant
            cs@ == token@,
            i <= cs@.len(),
            forall|j: int| 0 <= j < i ==> is_lower_hex(#[trigger] cs@[j]),
        decreases cs@.len() - i,
    {
        let c = cs[i];
        if !(('0' <= c && c <= '9') || ('a' <= c && c <= 'f')) {
            assert(!is_lower_hex(token@[i as int]));
            return false;
        }
        i += 1;
    }
    true
}

/// The token of 16 random bytes.
pub fn token_of(bytes: &[u8]) -> (r: String)
    requires
        bytes@.len() == 16,
    ensures
        r@ == hex(bytes@),
        is_token(r@),
{
    let r = hex_text(bytes);
    proof {
        assert forall|i: int| 0 <= i < r@.len() implies is_lower_hex(#[trigger] r@[i]) by {
            let b = bytes@[i / 2] as int;
            assert(0 <= b / 16 < 16);
            assert(0 <= b % 16 < 16);
        }
    }
    r
}

/// A new token from the operating system's randomness. The token is all that
/// guards the page, so it must not be guessable.
pub fn mint_token() -> (r: Result<String, Refusal>)
    ensures
        match r {
            Ok(t) => is_token(t@),
            Err(e) => e@ is NoRandomness,
        },
{
    let mut buf: Vec<u8> = vec![0u8; 16];
    match getrandom::getrandom(buf.as_mut_slice()) {
        Ok(_) => Ok(token_of(buf.as_slice())),
        Err(e) => Err(Failure::NoRandomness { reason: getrandom_error_text(&e) }),
    }
}

// ---- files ----------------------------------------------------------------

/// The directory of the tickets.
pub open spec fn tokens_path(root: Seq<char>) -> Seq<char> {
    below(root, "tokens"@)
}

/// The directory of the marks of finished takeovers.
pub open spec fn done_root(root: Seq<char>) -> Seq<char> {
    below(root, "done"@)
}

/// The directory of the claims.
pub open spec fn claims_root(root: Seq<char>) -> Seq<char> {
    below(root, "claims"@)
}

/// The directory of the flags that pause console capture.
pub open spec fn stealth_root(root: Seq<char>) -> Seq<char> {
    below(root, "stealth"@)
}

/// The file of the ticket of a token.
pub open spec fn ticket_file(root: Seq<char>, token: Seq<char>) -> Seq<char> {
    below(tokens_path(root), token + ".json"@)
}

/// The file that marks the takeover of a token as finished.
pub open spec fn done_file(root: Seq<char>, token: Seq<char>) -> Seq<char> {
    below(done_root(root), token)
}

/// The file of the claim on a token.
pub open spec fn claim_file(root: Seq<char>, token: Seq<char>) -> Seq<char> {
    below(claims_root(root), token)
}

/// The flag of a session.
pub open spec fn stealth_file(root: Seq<char>, ctx: Seq<char>) -> Seq<char> {
    below(stealth_root(root), ctx)
}

/// The directory of the tickets.
pub fn tokens_dir(root: &str) -> (r: String)
    ensures
        r@ == tokens_path(root@),
{
    join_path(root, "tokens")
}

/// The directory of the marks of finished takeovers.
pub fn done_dir(root: &str) -> (r: String)
    ensures
        r@ == done_root(root@),
{
    join_path(root, "done")
}

/// The directory of the claims.
pub fn claims_dir(root: &str) -> (r: String)
    ensures
        r@ == claims_root(root@),
{
    join_path(root, "claims")
}

/// The directory of the flags that pause console capture for a session.
pub fn stealth_dir(root: &str) -> (r: String)
    ensures
        r@ == stealth_root(root@),
{
    join_path(root, "stealth")
}

/// The file of the ticket of a token.
pub fn ticket_path(root: &str, token: &str) -> (r: String)
    ensures
        r@ == ticket_file(root@, token@),
{
    join_path(tokens_dir(root).as_str(), cat2(token, ".json").as_str())
}

/// The file that marks the takeover of a token as finished.
pub fn done_path(root: &str, token: &str) -> (r: String)
    ensures
        r@ == done_file(root@, token@),
{
    join_path(done_dir(root).as_str(), token)
}

/// The file of the claim on a token.
pub fn claim_path(root: &str, token: &str) -> (r: String)
    ensures
        r@ == claim_file(root@, token@),
{
    join_path(claims_dir(root).as_str(), token)
}

/// The flag of a session, by its browser context id, which has to be checked
/// with [`valid_ctx`] before the path is used.
pub fn stealth_path(root: &str, ctx: &str) -> (r: String)
    ensures
        r@ == stealth_file(root@, ctx@),
{
    join_path(stealth_dir(root).as_str(), ctx)
}

/// How a ticket gets into its place: written to a file of another name first,
/// then renamed, so that a reader never sees half of it.
pub struct TicketWrite {
    pub dir: String,
    pub tmp_path: String,
    pub final_path: String,
}

/// The files with which the ticket of a token is written.
pub fn write_ticket(root: &str, token: &str) -> (r: TicketWrite)
    ensures
        r.dir@ == tokens_path(root@),
        r.tmp_path@ == below(tokens_path(root@), token@ + ".json.tmp"@),
        r.final_path@ == ticket_file(root@, token@),
{
    let dir = tokens_dir(root);
    let tmp_path = join_path(dir.as_str(), cat2(token, ".json.tmp").as_str());
    let final_path = ticket_path(root, token);
    TicketWrite { dir, tmp_path, final_path }
}

/// The files of a finished or abandoned takeover, all of which are to go: the
/// ticket, the mark, the claim.
pub fn cleanup(root: &str, token: &str) -> (r: (String, String, String))
    ensures
        r.0@ == ticket_file(root@, token@),
        r.1@ == done_file(root@, token@),
        r.2@ == claim_file(root@, token@),
{
    (ticket_path(root, token), done_path(root, token), claim_path(root, token))
}

// ---- flags ----------------------------------------------------------------

/// An ASCII letter or digit.
pub open spec fn is_alphanumeric(c: char) -> bool {
    ('0' <= c <= '9') || ('A' <= c <= 'Z') || ('a' <= c <= 'z')
}

/// A browser context id that names a flag: at most 64 ASCII letters and digits.
pub open spec fn is_ctx(s: Seq<char>) -> bool {
    &&& 0 < s.len() <= 64
    &&& forall|i: int| 0 <= i < s.len() ==> is_alphanumeric(#[trigger] s[i])
}

/// Whether a browser context id can name a flag. Anything that could leave the
/// directory of the flags is refused.
pub fn valid_ctx(ctx: &str) -> (r: bool)
    ensures
        r == is_ctx(ctx@),
{
    let cs = chars_of(ctx);
    if cs.len() == 0 || cs.len() > 64 {
        return false;
    }
    let mut i: usize = 0;
    while i < cs.len()
        invariant
            cs@ == ctx@,
            i <= cs@.len(),
            forall|j: int| 0 <= j < i ==> is_alphanumeric(#[trigger] cs@[j]),
        decreases cs@.len() - i,
    {
        let c = cs[i];
        if !(('0' <= c && c <= '9') || ('A' <= c && c <= 'Z') || ('a' <= c && c <= 'z')) {
            assert(!is_alphanumeric(ctx@[i as int]));
            return false;
        }
        i += 1;
    }
    true
}

/// What is done with the flag of a session: written where stealth is on,
/// removed where it is off.
pub struct FlagChange {
    pub dir: String,
    pub path: String,
    pub present: bool,
}

/// How stealth is switched for a session.
pub fn set_stealth(root: &str, session_id: &str, stealth: bool) -> (r: Result<FlagChange, Refusal>)
    ensures
        match r {
            Ok(c) => {
                &&& is_ctx(session_id@)
                &&& c.dir@ == stealth_root(root@)
                &&& c.path@ == stealth_file(root@, session_id@)
                &&& c.present == stealth
            },
            Err(e) => {
                &&& !is_ctx(session_id@)
                &&& e@ == Failure::<Seq<char>>::InvalidSessionId
            },
        },
{
    if !valid_ctx(session_id) {
        return Err(Failure::InvalidSessionId);
    }
    Ok(
        FlagChange {
            dir: stealth_dir(root),
            path: stealth_path(root, session_id),
            present: stealth,
        },
    )
}

/// The flag whose presence says that stealth is on for a session; none for an
/// id that can name no flag, for which stealth is never on.
pub fn stealth_flag(root: &str, session_id: &str) -> (r: Option<String>)
    ensures
        opt_text(r) == (if is_ctx(session_id@) {
            Some(stealth_file(root@, session_id@))
        } else {
            None
        }),
{
    if valid_ctx(session_id) {
        Some(stealth_path(root, session_id))
    } else {
        None
    }
}

/// Whether stealth is on for a session, given whether its flag is there.
pub fn is_stealth(session_id: &str, flag_present: bool) -> (r: bool)
    ensures
        r == (is_ctx(session_id@) && flag_present),
{
    valid_ctx(session_id) && flag_present
}

// ---- sweeping -------------------------------------------------------------

/// What an entry of the ticket directory is, over the type of texts.
pub enum SweepEntry<S> {
    /// Left over from an interrupted write.
    Junk,
    /// The ticket of a token.
    Ticket { token: S },
    /// Nothing of this library's.
    Other,
}

/// What an entry says.
pub open spec fn entry_view(e: SweepEntry<String>) -> SweepEntry<Seq<char>> {
    match e {
        SweepEntry::Junk => SweepEntry::Junk,
        SweepEntry::Ticket { token } => SweepEntry::Ticket { token: token@ },
        SweepEntry::Other => SweepEntry::Other,
    }
}

/// What an entry of the ticket directory is, by its name.
pub open spec fn entry_of(name: Seq<char>) -> SweepEntry<Seq<char>> {
    if ".tmp"@.is_suffix_of(name) {
        SweepEntry::Junk
    } else if ".json"@.is_suffix_of(name) {
        SweepEntry::Ticket { token: name.take(name.len() - ".json"@.len()) }
    } else {
        SweepEntry::Other
    }
}

/// What an entry of the ticket directory is, by its name.
pub fn sweep_entry(name: &str) -> (r: SweepEntry<String>)
    ensures
        entry_view(r) == entry_of(name@),
{
    if ends_with(name, ".tmp") {
        return SweepEntry::Junk;
    }
    match strip_suffix(name, ".json") {
        Some(token) => SweepEntry::Ticket { token },
        None => SweepEntry::Other,
    }
}

/// The file of a ticket is to go: it holds no ticket, or one that has expired.
pub open spec fn swept(parsed: Option<TicketView>, now: u128) -> bool {
    match parsed {
        Some(t) => expired(t, now),
        None => true,
    }
}

/// Whether the file of a ticket is to go, with the mark and the claim that go
/// with it.
pub fn sweep_ticket(parsed: &Option<Ticket>, now: u128) -> (r: bool)
    ensures
        r == swept(
            match parsed {
                Some(t) => Some(t@),
                None => None,
            },
            now,
        ),
{
    match parsed {
        Some(t) => is_expired(t, now),
        None => true,
    }
}

/// A sweep finds a ticket under the name that it was written to, takes what an
/// interrupted write left for junk, and leaves a ticket alone for exactly as long
/// as the daemon serves it.
pub proof fn law_sweep_spares_live_tickets(token: Seq<char>, t: TicketView, now: u128)
    ensures
        entry_of(token + ".json"@) == (SweepEntry::Ticket { token }),
        entry_of(token + ".json.tmp"@) == SweepEntry::<Seq<char>>::Junk,
        swept(Some(t), now) <==> expired(t, now),
{
    reveal_strlit(".tmp");
    reveal_strlit(".json");
    reveal_strlit(".json.tmp");
    let a = token + ".json.tmp"@;
    assert(a.subrange(a.len() - 4, a.len() as int) =~= ".tmp"@);
    assert(a.skip(a.len() - 4) =~= ".tmp"@);
    let b = token + ".json"@;
    assert(b.subrange(b.len() - 5, b.len() as int) =~= ".json"@);
    assert(b.take(b.len() - 5) =~= token);
    if ".tmp"@.is_suffix_of(b) {
        assert(b.subrange(b.len() - 4, b.len() as int)[3] == 'n');
    }
}

}
