//! What holds where many browsers claim one link at the same time.
//!
//! In a race any number of attempts take their steps in any order. [`Race`] is
//! one of attempts to record a claim, on single files; [`Contest`] is one of whole
//! exchanges, each from its request to its response.
use vstd::prelude::*;

use crate::takeover::claim::{
    attempt_file, first_recording, next_recording, standing, Recording, Standing,
};
use crate::takeover::exchange::{
    claimed, in_use, next_step, route_step, ClaimUse, SiteView, Step, StepView, TicketUse,
};
use crate::takeover::http::RespView;
use crate::takeover::laws::{
    entry, lemma_below_is_injective, lemma_claim_starts, lemma_token_trimmed, link, live, perform,
    Disk, Moment,
};
use crate::takeover::{claim_file, claims_root, is_lower_hex, is_token};

verus! {

// ---- single files ---------------------------------------------------------

/// Files by their paths, and how far each of some attempts to record a claim has
/// come.
#[verifier::ext_equal]
pub struct Race {
    pub files: Map<Seq<char>, Seq<char>>,
    pub at: Seq<Recording<Seq<char>>>,
}

/// What one thing that is to be done does to the files, where writing does not
/// fail. A link fails where its name is taken.
pub open spec fn done_to(
    files: Map<Seq<char>, Seq<char>>,
    r: Recording<Seq<char>>,
) -> (Map<Seq<char>, Seq<char>>, bool) {
    match r {
        Recording::Write { tmp_path, secret, .. } => (files.insert(tmp_path, secret), true),
        Recording::Link { tmp_path, path } => if files.contains_key(path) {
            (files, false)
        } else {
            (files.insert(path, files[tmp_path]), true)
        },
        Recording::Remove { tmp_path, .. } => (files.remove(tmp_path), true),
        Recording::Done(_) => (files, true),
    }
}

/// The race once an attempt has done its next thing.
pub open spec fn race_turn(race: Race, i: int) -> Race {
    if 0 <= i < race.at.len() {
        let (files, ok) = done_to(race.files, race.at[i]);
        Race { files, at: race.at.update(i, next_recording(race.at[i], ok)) }
    } else {
        race
    }
}

/// The race once the attempts have taken turns.
pub open spec fn race_after(race: Race, turns: Seq<int>) -> Race
    decreases turns.len(),
{
    if turns.len() == 0 {
        race
    } else {
        race_turn(race_after(race, turns.drop_last()), turns.last())
    }
}

/// The start of a race: every attempt has a secret of its own.
pub open spec fn race_start(
    files: Map<Seq<char>, Seq<char>>,
    root: Seq<char>,
    token: Seq<char>,
    secrets: Seq<Seq<char>>,
) -> Race {
    Race { files, at: secrets.map_values(|s: Seq<char>| first_recording(root, token, s)) }
}

/// Every attempt is over.
pub open spec fn race_is_over(race: Race) -> bool {
    forall|i: int| 0 <= i < race.at.len() ==> (#[trigger] race.at[i]) is Done
}

/// The files can be raced on: the token has no claim, no attempt has left a file
/// yet, and the secrets are tokens, no two of them the same.
pub open spec fn fresh(
    files: Map<Seq<char>, Seq<char>>,
    root: Seq<char>,
    token: Seq<char>,
    secrets: Seq<Seq<char>>,
) -> bool {
    &&& is_token(token)
    &&& secrets.no_duplicates()
    &&& forall|i: int| 0 <= i < secrets.len() ==> is_token(#[trigger] secrets[i])
    &&& !files.contains_key(claim_file(root, token))
    &&& forall|i: int|
        0 <= i < secrets.len() ==> !files.contains_key(
            attempt_file(root, token, #[trigger] secrets[i]),
        )
}

/// A path that is neither the claim's nor an attempt's.
spec fn elsewhere(
    root: Seq<char>,
    token: Seq<char>,
    secrets: Seq<Seq<char>>,
    p: Seq<char>,
) -> bool {
    &&& p != claim_file(root, token)
    &&& forall|i: int|
        0 <= i < secrets.len() ==> p != attempt_file(root, token, #[trigger] secrets[i])
}

/// How far one attempt has come, where `winner` has recorded its claim.
spec fn attempt_stands(
    race: Race,
    root: Seq<char>,
    token: Seq<char>,
    secret: Seq<char>,
    i: int,
    winner: Option<int>,
) -> bool {
    let tmp = attempt_file(root, token, secret);
    match race.at[i] {
        Recording::Write { .. } => {
            &&& race.at[i] == first_recording(root, token, secret)
            &&& !race.files.contains_key(tmp)
            &&& winner != Some(i)
        },
        Recording::Link { tmp_path, path } => {
            &&& tmp_path == tmp
            &&& path == claim_file(root, token)
            &&& race.files.contains_key(tmp)
            &&& race.files[tmp] == secret
            &&& winner != Some(i)
        },
        Recording::Remove { tmp_path, linked } => {
            &&& tmp_path == tmp
            &&& race.files.contains_key(tmp)
            &&& winner is Some
            &&& linked == (winner == Some(i))
        },
        Recording::Done(recorded) => {
            &&& !race.files.contains_key(tmp)
            &&& winner is Some
            &&& recorded == (winner == Some(i))
        },
    }
}

/// What holds throughout a race.
spec fn race_stands(
    before: Map<Seq<char>, Seq<char>>,
    race: Race,
    root: Seq<char>,
    token: Seq<char>,
    secrets: Seq<Seq<char>>,
    winner: Option<int>,
) -> bool {
    let path = claim_file(root, token);
    &&& race.at.len() == secrets.len()
    &&& forall|i: int|
        0 <= i < secrets.len() ==> attempt_stands(
            race,
            root,
            token,
            #[trigger] secrets[i],
            i,
            winner,
        )
    &&& match winner {
        None => !race.files.contains_key(path),
        Some(w) => {
            &&& 0 <= w < secrets.len()
            &&& race.files.contains_key(path)
            &&& race.files[path] == secrets[w]
        },
    }
    &&& forall|p: Seq<char>| #[trigger]
        elsewhere(root, token, secrets, p) ==> entry(race.files, p) == entry(before, p)
}

/// The claim and the files of the attempts are all apart.
proof fn lemma_files_apart(root: Seq<char>, token: Seq<char>, a: Seq<char>, b: Seq<char>)
    requires
        is_token(token),
        is_token(a),
        is_token(b),
    ensures
        attempt_file(root, token, a) != claim_file(root, token),
        a != b ==> attempt_file(root, token, a) != attempt_file(root, token, b),
{
    reveal_strlit("-");
    reveal_strlit(".tmp");
    let x = token + "-"@ + a + ".tmp"@;
    let y = token + "-"@ + b + ".tmp"@;
    assert(is_lower_hex(token[0]));
    assert(x[0] == token[0] && y[0] == token[0]);
    if attempt_file(root, token, a) == claim_file(root, token) {
        lemma_below_is_injective(claims_root(root), x, token);
    }
    if attempt_file(root, token, a) == attempt_file(root, token, b) {
        lemma_below_is_injective(claims_root(root), x, y);
        assert(a =~= x.subrange(33, 65));
        assert(b =~= y.subrange(33, 65));
    }
}

/// One turn keeps what holds throughout a race.
proof fn lemma_turn(
    before: Map<Seq<char>, Seq<char>>,
    race: Race,
    root: Seq<char>,
    token: Seq<char>,
    secrets: Seq<Seq<char>>,
    winner: Option<int>,
    i: int,
) -> (after: Option<int>)
    requires
        fresh(before, root, token, secrets),
        race_stands(before, race, root, token, secrets, winner),
    ensures
        race_stands(before, race_turn(race, i), root, token, secrets, after),
{
    if 0 <= i < race.at.len() {
        let path = claim_file(root, token);
        let tmp = attempt_file(root, token, secrets[i]);
        let next = race_turn(race, i);
        assert(attempt_stands(race, root, token, secrets[i], i, winner));
        assert forall|j: int| 0 <= j < secrets.len() implies attempt_file(
            root,
            token,
            #[trigger] secrets[j],
        ) != path && (j != i ==> attempt_file(root, token, secrets[j]) != tmp) by {
            lemma_files_apart(root, token, secrets[j], secrets[i]);
        }
        let after = if race.at[i] is Link && !race.files.contains_key(path) {
            Some(i)
        } else {
            winner
        };
        assert forall|j: int| 0 <= j < secrets.len() implies attempt_stands(
            next,
            root,
            token,
            #[trigger] secrets[j],
            j,
            after,
        ) by {
            assert(attempt_stands(race, root, token, secrets[j], j, winner));
            if j != i {
                assert(next.at[j] == race.at[j]);
            }
        }
        assert forall|p: Seq<char>| #[trigger] elsewhere(root, token, secrets, p) implies entry(
            next.files,
            p,
        ) == entry(before, p) by {
            assert(p != tmp);
        }
        after
    } else {
        winner
    }
}

/// Any turns keep what holds throughout a race.
proof fn lemma_turns(
    files: Map<Seq<char>, Seq<char>>,
    root: Seq<char>,
    token: Seq<char>,
    secrets: Seq<Seq<char>>,
    turns: Seq<int>,
) -> (winner: Option<int>)
    requires
        fresh(files, root, token, secrets),
    ensures
        race_stands(
            files,
            race_after(race_start(files, root, token, secrets), turns),
            root,
            token,
            secrets,
            winner,
        ),
    decreases turns.len(),
{
    let start = race_start(files, root, token, secrets);
    if turns.len() == 0 {
        assert forall|i: int| 0 <= i < secrets.len() implies attempt_stands(
            start,
            root,
            token,
            #[trigger] secrets[i],
            i,
            None,
        ) by {
            assert(start.at[i] == first_recording(root, token, secrets[i]));
        }
        None
    } else {
        let winner = lemma_turns(files, root, token, secrets, turns.drop_last());
        lemma_turn(
            files,
            race_after(start, turns.drop_last()),
            root,
            token,
            secrets,
            winner,
            turns.last(),
        )
    }
}

/// Of any number of attempts to record a claim on one token, whatever turns they
/// take, exactly one succeeds once all are over; the claim then holds its secret,
/// and no attempt has left a file behind or touched another. A claim that is there
/// meanwhile holds the whole secret of one of them.
pub proof fn law_one_attempt_wins(
    files: Map<Seq<char>, Seq<char>>,
    root: Seq<char>,
    token: Seq<char>,
    secrets: Seq<Seq<char>>,
    turns: Seq<int>,
)
    requires
        fresh(files, root, token, secrets),
    ensures
        ({
            let race = race_after(race_start(files, root, token, secrets), turns);
            let path = claim_file(root, token);
            &&& race.files.contains_key(path) ==> secrets.contains(race.files[path])
            &&& race_is_over(race) && secrets.len() > 0 ==> exists|w: int|
                0 <= w < secrets.len() && race.files == files.insert(path, #[trigger] secrets[w])
                    && forall|i: int|
                    0 <= i < secrets.len() ==> (#[trigger] race.at[i]) == Recording::<
                        Seq<char>,
                    >::Done(i == w)
        }),
{
    let race = race_after(race_start(files, root, token, secrets), turns);
    let path = claim_file(root, token);
    let winner = lemma_turns(files, root, token, secrets, turns);
    if race_is_over(race) && secrets.len() > 0 {
        assert(attempt_stands(race, root, token, secrets[0], 0, winner));
        assert(race.at[0] is Done);
        let w = winner->0;
        assert forall|i: int| 0 <= i < secrets.len() implies (#[trigger] race.at[i])
            == Recording::<Seq<char>>::Done(i == w) by {
            assert(attempt_stands(race, root, token, secrets[i], i, winner));
        }
        let end = files.insert(path, secrets[w]);
        assert forall|p: Seq<char>| #[trigger] entry(race.files, p) == entry(end, p) by {
            if p != path {
                if elsewhere(root, token, secrets, p) {
                } else {
                    let i = choose|i: int|
                        0 <= i < secrets.len() && p == attempt_file(
                            root,
                            token,
                            #[trigger] secrets[i],
                        );
                    assert(race.at[i] is Done);
                    assert(attempt_stands(race, root, token, secrets[i], i, winner));
                }
            }
        }
        assert forall|p: Seq<char>| race.files.contains_key(p) == #[trigger] end.contains_key(
            p,
        ) by {
            assert(entry(race.files, p) == entry(end, p));
        }
        assert forall|p: Seq<char>| end.contains_key(p) implies race.files[p]
            == #[trigger] end[p] by {
            assert(entry(race.files, p) == entry(end, p));
        }
        assert(race.files =~= end);
    }
}

/// How many more things an attempt has to do at most.
pub open spec fn recording_left(r: Recording<Seq<char>>) -> nat {
    match r {
        Recording::Write { .. } => 3,
        Recording::Link { .. } => 2,
        Recording::Remove { .. } => 1,
        Recording::Done(_) => 0,
    }
}

/// Every attempt is over after three turns of its own at most, whatever comes of
/// them.
pub proof fn law_recording_ends(r: Recording<Seq<char>>, ok: bool)
    ensures
        recording_left(next_recording(r, ok)) < recording_left(r) || r is Done,
        recording_left(r) <= 3,
{
}

// ---- whole exchanges ------------------------------------------------------

/// The files of the daemon, and how far each of some exchanges has come.
pub struct Contest {
    pub disk: Disk,
    pub at: Seq<StepView>,
}

/// What one browser meets: the cookie that it shows, and what its exchange meets.
pub struct Visitor {
    pub cookie: Option<Seq<char>>,
    pub moment: Moment,
}

/// The contest once an exchange has taken its next step.
pub open spec fn contest_turn(
    site: SiteView,
    visitors: Seq<Visitor>,
    contest: Contest,
    i: int,
) -> Contest {
    if 0 <= i < contest.at.len() {
        let (disk, event) = perform(contest.disk, visitors[i].moment, contest.at[i]);
        Contest { disk, at: contest.at.update(i, next_step(site, contest.at[i], event)) }
    } else {
        contest
    }
}

/// The contest once the exchanges have taken turns.
pub open spec fn contest_after(
    site: SiteView,
    visitors: Seq<Visitor>,
    contest: Contest,
    turns: Seq<int>,
) -> Contest
    decreases turns.len(),
{
    if turns.len() == 0 {
        contest
    } else {
        contest_turn(
            site,
            visitors,
            contest_after(site, visitors, contest, turns.drop_last()),
            turns.last(),
        )
    }
}

/// The start of a contest: every browser claims the link of one token.
pub open spec fn contest_start(
    site: SiteView,
    disk: Disk,
    token: Seq<char>,
    visitors: Seq<Visitor>,
) -> Contest {
    Contest {
        disk,
        at: visitors.map_values(
            |v: Visitor| route_step(site, "POST"@, link(token, "/claim"@), v.cookie),
        ),
    }
}

/// Every exchange has come to its response.
pub open spec fn contest_is_over(contest: Contest) -> bool {
    forall|i: int| 0 <= i < contest.at.len() ==> (#[trigger] contest.at[i]) is Reply
}

/// The link can be claimed by each of the browsers: it is live and unclaimed, a
/// secret can be made and written, and nobody shows one that was not given out
/// yet.
pub open spec fn open_to(disk: Disk, token: Seq<char>, visitors: Seq<Visitor>) -> bool {
    &&& is_token(token)
    &&& !disk.claims.contains_key(token)
    &&& forall|i: int|
        0 <= i < visitors.len() ==> {
            &&& live(disk, (#[trigger] visitors[i]).moment, token)
            &&& visitors[i].moment.writable
            &&& visitors[i].moment.secret is Some
            &&& is_token(visitors[i].moment.secret->0)
        }
    &&& forall|i: int, j: int|
        0 <= i < visitors.len() && 0 <= j < visitors.len() ==> (#[trigger] visitors[i]).cookie != (
        #[trigger] visitors[j]).moment.secret
}

/// The response to the browser that has claimed a link.
pub open spec fn winning(
    site: SiteView,
    disk: Disk,
    token: Seq<char>,
    secret: Option<Seq<char>>,
) -> RespView {
    claimed(
        site.chrome_ws_base,
        token,
        disk.tickets[token].target_id,
        disk.tickets[token].session_id,
        secret,
    )
}

/// How far one exchange has come, where `winner` has claimed the link.
spec fn exchange_stands(
    site: SiteView,
    before: Disk,
    token: Seq<char>,
    v: Visitor,
    step: StepView,
    i: int,
    winner: Option<int>,
) -> bool {
    let target_id = before.tickets[token].target_id;
    let session_id = before.tickets[token].session_id;
    match step {
        Step::Reply(r) => {
            &&& winner is Some
            &&& r == (if winner == Some(i) {
                winning(site, before, token, v.moment.secret)
            } else {
                in_use()
            })
        },
        _ => {
            &&& winner != Some(i)
            &&& {
                ||| step == (StepView::ReadTicket {
                    token,
                    cookie: v.cookie,
                    purpose: TicketUse::Claim,
                })
                ||| step == (StepView::ReadClaim {
                    token,
                    cookie: v.cookie,
                    reason: ClaimUse::Claim { target_id, session_id },
                })
                ||| step == (StepView::MintSecret { token, target_id, session_id })
                ||| step == (StepView::RecordClaim {
                    token,
                    secret: v.moment.secret->0,
                    target_id,
                    session_id,
                })
            }
        },
    }
}

/// The files once `winner` has claimed the link.
spec fn won(before: Disk, token: Seq<char>, visitors: Seq<Visitor>, winner: Option<int>) -> Disk {
    match winner {
        None => before,
        Some(w) => Disk {
            claims: before.claims.insert(token, visitors[w].moment.secret->0),
            ..before
        },
    }
}

/// What holds throughout a contest.
spec fn contest_stands(
    site: SiteView,
    before: Disk,
    token: Seq<char>,
    visitors: Seq<Visitor>,
    contest: Contest,
    winner: Option<int>,
) -> bool {
    &&& contest.at.len() == visitors.len()
    &&& winner is Some ==> 0 <= winner->0 < visitors.len()
    &&& contest.disk == won(before, token, visitors, winner)
    &&& forall|i: int|
        0 <= i < visitors.len() ==> exchange_stands(
            site,
            before,
            token,
            #[trigger] visitors[i],
            contest.at[i],
            i,
            winner,
        )
}

/// One turn keeps what holds throughout a contest.
proof fn lemma_contest_turn(
    site: SiteView,
    before: Disk,
    token: Seq<char>,
    visitors: Seq<Visitor>,
    contest: Contest,
    winner: Option<int>,
    i: int,
) -> (after: Option<int>)
    requires
        open_to(before, token, visitors),
        contest_stands(site, before, token, visitors, contest, winner),
    ensures
        contest_stands(
            site,
            before,
            token,
            visitors,
            contest_turn(site, visitors, contest, i),
            after,
        ),
{
    if 0 <= i < contest.at.len() {
        let v = visitors[i];
        let step = contest.at[i];
        let next = contest_turn(site, visitors, contest, i);
        assert(exchange_stands(site, before, token, v, step, i, winner));
        assert(live(before, v.moment, token));
        let after = if step is RecordClaim && winner is None {
            Some(i)
        } else {
            winner
        };
        if winner is Some {
            let secret = visitors[winner->0].moment.secret;
            lemma_token_trimmed(secret->0);
            assert(v.cookie != secret);
            assert(standing(secret, v.cookie) == Standing::Other);
        }
        assert(next.disk =~= won(before, token, visitors, after));
        assert forall|j: int| 0 <= j < visitors.len() implies exchange_stands(
            site,
            before,
            token,
            #[trigger] visitors[j],
            next.at[j],
            j,
            after,
        ) by {
            assert(exchange_stands(site, before, token, visitors[j], contest.at[j], j, winner));
            if j != i {
                assert(next.at[j] == contest.at[j]);
            }
        }
        after
    } else {
        winner
    }
}

/// Any turns keep what holds throughout a contest.
proof fn lemma_contest_turns(
    site: SiteView,
    disk: Disk,
    token: Seq<char>,
    visitors: Seq<Visitor>,
    turns: Seq<int>,
) -> (winner: Option<int>)
    requires
        open_to(disk, token, visitors),
    ensures
        contest_stands(
            site,
            disk,
            token,
            visitors,
            contest_after(site, visitors, contest_start(site, disk, token, visitors), turns),
            winner,
        ),
    decreases turns.len(),
{
    let start = contest_start(site, disk, token, visitors);
    if turns.len() == 0 {
        assert forall|i: int| 0 <= i < visitors.len() implies exchange_stands(
            site,
            disk,
            token,
            #[trigger] visitors[i],
            start.at[i],
            i,
            None,
        ) by {
            lemma_claim_starts(site, token, visitors[i].cookie);
        }
        None
    } else {
        let winner = lemma_contest_turns(site, disk, token, visitors, turns.drop_last());
        lemma_contest_turn(
            site,
            disk,
            token,
            visitors,
            contest_after(site, visitors, start, turns.drop_last()),
            winner,
            turns.last(),
        )
    }
}

/// Of any number of browsers that claim one live link at the same time, whatever
/// turns their exchanges take, exactly one is given the claim once all are
/// answered: it gets its secret as a cookie, its secret is what is recorded, and
/// every other browser is refused. Nothing else changes, and a claim that is there
/// meanwhile is the secret of one of them.
pub proof fn law_one_browser_wins(
    site: SiteView,
    disk: Disk,
    token: Seq<char>,
    visitors: Seq<Visitor>,
    turns: Seq<int>,
)
    requires
        open_to(disk, token, visitors),
    ensures
        ({
            let start = contest_start(site, disk, token, visitors);
            let contest = contest_after(site, visitors, start, turns);
            &&& contest.disk.claims.contains_key(token) ==> exists|w: int|
                0 <= w < visitors.len() && (#[trigger] visitors[w]).moment.secret == Some(
                    contest.disk.claims[token],
                )
            &&& contest_is_over(contest) && visitors.len() > 0 ==> exists|w: int|
                0 <= w < visitors.len() && contest.disk == (Disk {
                    claims: disk.claims.insert(
                        token,
                        (#[trigger] visitors[w]).moment.secret->0,
                    ),
                    ..disk
                }) && forall|i: int|
                    0 <= i < visitors.len() ==> (#[trigger] contest.at[i]) == StepView::Reply(
                        if i == w {
                            winning(site, disk, token, visitors[w].moment.secret)
                        } else {
                            in_use()
                        },
                    )
        }),
{
    let start = contest_start(site, disk, token, visitors);
    let contest = contest_after(site, visitors, start, turns);
    let winner = lemma_contest_turns(site, disk, token, visitors, turns);
    if winner is Some {
        let w = winner->0;
        assert(visitors[w].moment.secret == Some(visitors[w].moment.secret->0));
    }
    if contest_is_over(contest) && visitors.len() > 0 {
        assert(exchange_stands(site, disk, token, visitors[0], contest.at[0], 0, winner));
        assert(contest.at[0] is Reply);
        let w = winner->0;
        assert forall|i: int| 0 <= i < visitors.len() implies (#[trigger] contest.at[i])
            == StepView::Reply(
            if i == w {
                winning(site, disk, token, visitors[w].moment.secret)
            } else {
                in_use()
            },
        ) by {
            assert(contest.at[i] is Reply);
            assert(exchange_stands(site, disk, token, visitors[i], contest.at[i], i, winner));
        }
        assert(contest.disk == won(disk, token, visitors, Some(w)));
    }
}

}
