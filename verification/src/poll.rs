//! Waiting for something to happen, by looking again and again.
use vstd::prelude::*;

verus! {

/// How long to wait between two looks at whether a human has finished.
pub const DONE_INTERVAL_MS: u64 = 500;

/// How long to wait between two looks at a page.
pub const PAGE_INTERVAL_MS: u64 = 100;

/// What to do after a look.
#[derive(Debug, Clone, Copy, PartialEq, Eq, Structural)]
pub enum Verdict {
    /// It has happened.
    Ready,
    /// The time is over.
    TimedOut,
    /// Wait for an interval, then look again.
    LookAgain,
}

/// What to do after a look: what was seen counts, also when the time is over.
pub open spec fn verdict_of(seen: bool, elapsed: u128, limit: u128) -> Verdict {
    if seen {
        Verdict::Ready
    } else if elapsed >= limit {
        Verdict::TimedOut
    } else {
        Verdict::LookAgain
    }
}

/// What to do after a look, given whether it has happened, and the time since
/// the start and its limit, both in one unit.
pub fn verdict(seen: bool, elapsed: u128, limit: u128) -> (r: Verdict)
    ensures
        r == verdict_of(seen, elapsed, limit),
{
    if seen {
        Verdict::Ready
    } else if elapsed >= limit {
        Verdict::TimedOut
    } else {
        Verdict::LookAgain
    }
}

/// What comes of a series of looks, each with what it saw and when: the verdict
/// of the first that has one. A series that has none goes on.
pub open spec fn watch(looks: Seq<(bool, u128)>, limit: u128) -> Verdict
    decreases looks.len(),
{
    if looks.len() == 0 {
        Verdict::LookAgain
    } else {
        let v = verdict_of(looks[0].0, looks[0].1, limit);
        if v == Verdict::LookAgain {
            watch(looks.skip(1), limit)
        } else {
            v
        }
    }
}

/// What happens before the time is over is seen: if some look sees it and no
/// look before that was past the limit, the wait succeeds.
pub proof fn law_what_is_in_time_is_seen(looks: Seq<(bool, u128)>, limit: u128, k: int)
    requires
        0 <= k < looks.len(),
        looks[k].0,
        forall|i: int| 0 <= i < k ==> (#[trigger] looks[i]).1 < limit,
    ensures
        watch(looks, limit) == Verdict::Ready,
    decreases looks.len(),
{
    if k > 0 && !looks[0].0 {
        let rest = looks.skip(1);
        assert(rest[k - 1] == looks[k]);
        assert forall|i: int| 0 <= i < k - 1 implies (#[trigger] rest[i]).1 < limit by {
            assert(rest[i] == looks[i + 1]);
        }
        assert(looks[0].1 < limit);
        law_what_is_in_time_is_seen(rest, limit, k - 1);
    }
}

/// The wait succeeds only if it has happened, and times out only once the time
/// is over.
pub proof fn law_wait_tells_the_truth(looks: Seq<(bool, u128)>, limit: u128)
    ensures
        watch(looks, limit) == Verdict::Ready ==> exists|i: int|
            0 <= i < looks.len() && (#[trigger] looks[i]).0,
        watch(looks, limit) == Verdict::TimedOut ==> exists|i: int|
            0 <= i < looks.len() && !(#[trigger] looks[i]).0 && looks[i].1 >= limit,
    decreases looks.len(),
{
    if looks.len() > 0 {
        let rest = looks.skip(1);
        law_wait_tells_the_truth(rest, limit);
        let v = verdict_of(looks[0].0, looks[0].1, limit);
        if v != Verdict::LookAgain {
            assert(looks[0] == looks[0]);
        } else {
            if watch(rest, limit) == Verdict::Ready {
                let i = choose|i: int| 0 <= i < rest.len() && (#[trigger] rest[i]).0;
                assert(looks[i + 1] == rest[i]);
            }
            if watch(rest, limit) == Verdict::TimedOut {
                let i = choose|i: int|
                    0 <= i < rest.len() && !(#[trigger] rest[i]).0 && rest[i].1 >= limit;
                assert(looks[i + 1] == rest[i]);
            }
        }
    }
}

/// The wait ends at the first look from the limit on: if it has not happened at any
/// look up to then, the time is over, and until then the wait goes on.
pub proof fn law_time_is_over_at_the_limit(looks: Seq<(bool, u128)>, limit: u128, k: int)
    requires
        0 <= k < looks.len(),
        forall|i: int| 0 <= i <= k ==> !(#[trigger] looks[i]).0,
        forall|i: int| 0 <= i < k ==> (#[trigger] looks[i]).1 < limit,
    ensures
        looks[k].1 >= limit ==> watch(looks, limit) == Verdict::TimedOut,
        looks[k].1 < limit && k == looks.len() - 1 ==> watch(looks, limit) == Verdict::LookAgain,
    decreases looks.len(),
{
    let rest = looks.skip(1);
    assert(!looks[0].0);
    if k > 0 {
        assert(looks[0].1 < limit);
        assert(rest[k - 1] == looks[k]);
        assert forall|i: int| 0 <= i <= k - 1 implies !(#[trigger] rest[i]).0 by {
            assert(rest[i] == looks[i + 1]);
        }
        assert forall|i: int| 0 <= i < k - 1 implies (#[trigger] rest[i]).1 < limit by {
            assert(rest[i] == looks[i + 1]);
        }
        law_time_is_over_at_the_limit(rest, limit, k - 1);
    }
}

}
