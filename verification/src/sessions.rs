//! Sessions, which are Chrome's browser contexts, and their tabs.
//!
//! A session's id is the id of its browser context, so sessions outlive the
//! process that opened them: Chrome is asked anew each time which of them exist.
use vstd::prelude::*;

use crate::text::{
    copy_opt, is_before, lemma_before_irreflexive, lemma_before_total, lemma_before_transitive,
    opt_text, same_text, text_before, texts,
};

pub mod laws;
pub mod open;
pub mod tabs;
pub mod work;

pub use crate::sessions::work::SessionManager;

verus! {

/// What Chrome says of one of its targets.
#[derive(Debug)]
pub struct Target {
    pub target_id: String,
    /// What the target is; a tab is a `page`.
    pub kind: String,
    pub url: String,
    pub title: String,
    /// The session that the target belongs to, if it belongs to one.
    pub context_id: Option<String>,
}

/// What a [`Target`] says.
#[verifier::ext_equal]
pub struct TargetView {
    pub target_id: Seq<char>,
    pub kind: Seq<char>,
    pub url: Seq<char>,
    pub title: Seq<char>,
    pub context_id: Option<Seq<char>>,
}

impl View for Target {
    type V = TargetView;

    open spec fn view(&self) -> TargetView {
        TargetView {
            target_id: self.target_id@,
            kind: self.kind@,
            url: self.url@,
            title: self.title@,
            context_id: opt_text(self.context_id),
        }
    }
}

/// What the targets of a list say.
pub open spec fn targets(v: Seq<Target>) -> Seq<TargetView> {
    v.map_values(|t: Target| t@)
}

/// The ids of targets, in order.
pub open spec fn ids(ts: Seq<TargetView>) -> Seq<Seq<char>> {
    ts.map_values(|t: TargetView| t.target_id)
}

impl Target {
    /// A copy of the target.
    pub fn copy(&self) -> (r: Target)
        ensures
            r@ == self@,
    {
        Target {
            target_id: self.target_id.clone(),
            kind: self.kind.clone(),
            url: self.url.clone(),
            title: self.title.clone(),
            context_id: copy_opt(&self.context_id),
        }
    }
}

/// The target belongs to the session.
pub open spec fn belongs(t: TargetView, session_id: Seq<char>) -> bool {
    t.context_id == Some(session_id)
}

/// Whether the target belongs to the session.
pub fn belongs_to(t: &Target, session_id: &str) -> (r: bool)
    ensures
        r == belongs(t@, session_id@),
{
    match &t.context_id {
        Some(c) => same_text(c.as_str(), session_id),
        None => false,
    }
}

/// The tabs among the targets.
pub open spec fn pages_of(all: Seq<TargetView>) -> Seq<TargetView> {
    all.filter(|t: TargetView| t.kind == "page"@)
}

/// The targets of a session.
pub open spec fn session_pages(pages: Seq<TargetView>, session_id: Seq<char>) -> Seq<TargetView> {
    pages.filter(|t: TargetView| belongs(t, session_id))
}

/// Filtering a sequence that grew by one element.
pub proof fn lemma_filter_push<A>(s: Seq<A>, x: A, keep: spec_fn(A) -> bool)
    ensures
        s.push(x).filter(keep) == (if keep(x) {
            s.filter(keep).push(x)
        } else {
            s.filter(keep)
        }),
{
    reveal(Seq::filter);
    assert(s.push(x).drop_last() =~= s);
}

/// The tabs among the targets, in order.
pub fn page_targets(all: Vec<Target>) -> (r: Vec<Target>)
    ensures
        targets(r@) == pages_of(targets(all@)),
{
    let mut out: Vec<Target> = Vec::new();
    let ghost keep = |t: TargetView| t.kind == "page"@;
    let mut i: usize = 0;
    proof {
        reveal(Seq::filter);
        assert(targets(out@) =~= targets(all@).take(0).filter(keep));
    }
    while i < all.len()
        invariant
            i <= all@.len(),
            keep == (|t: TargetView| t.kind == "page"@),
            targets(out@) == targets(all@).take(i as int).filter(keep),
        decreases all@.len() - i,
    {
        let ghost before = out@;
        proof {
            assert(targets(all@).take(i + 1) =~= targets(all@).take(i as int).push(
                all@[i as int]@,
            ));
            lemma_filter_push(targets(all@).take(i as int), all@[i as int]@, keep);
        }
        if same_text(all[i].kind.as_str(), "page") {
            out.push(all[i].copy());
            assert(targets(out@) =~= targets(before).push(all@[i as int]@));
        }
        i += 1;
    }
    assert(targets(all@).take(i as int) =~= targets(all@));
    out
}

/// The targets of a session, in order.
pub fn pages_in(pages: &Vec<Target>, session_id: &str) -> (r: Vec<Target>)
    ensures
        targets(r@) == session_pages(targets(pages@), session_id@),
{
    let mut out: Vec<Target> = Vec::new();
    let ghost keep = |t: TargetView| belongs(t, session_id@);
    let mut i: usize = 0;
    proof {
        reveal(Seq::filter);
        assert(targets(out@) =~= targets(pages@).take(0).filter(keep));
    }
    while i < pages.len()
        invariant
            i <= pages@.len(),
            keep == (|t: TargetView| belongs(t, session_id@)),
            targets(out@) == targets(pages@).take(i as int).filter(keep),
        decreases pages@.len() - i,
    {
        let ghost before = out@;
        proof {
            assert(targets(pages@).take(i + 1) =~= targets(pages@).take(i as int).push(
                pages@[i as int]@,
            ));
            lemma_filter_push(targets(pages@).take(i as int), pages@[i as int]@, keep);
        }
        if belongs_to(&pages[i], session_id) {
            out.push(pages[i].copy());
            assert(targets(out@) =~= targets(before).push(pages@[i as int]@));
        }
        i += 1;
    }
    assert(targets(pages@).take(i as int) =~= targets(pages@));
    out
}

/// What a caller sees of a session.
#[derive(Debug)]
pub struct SessionInfo {
    pub session_id: String,
    pub page_count: usize,
    pub active_url: Option<String>,
}

/// What a [`SessionInfo`] says.
#[verifier::ext_equal]
pub struct InfoView {
    pub session_id: Seq<char>,
    pub page_count: usize,
    pub active_url: Option<Seq<char>>,
}

impl View for SessionInfo {
    type V = InfoView;

    open spec fn view(&self) -> InfoView {
        InfoView {
            session_id: self.session_id@,
            page_count: self.page_count,
            active_url: opt_text(self.active_url),
        }
    }
}

/// What the entries of a list say.
pub open spec fn infos(v: Seq<SessionInfo>) -> Seq<InfoView> {
    v.map_values(|i: SessionInfo| i@)
}

/// The size of a session's window, in pixels.
#[derive(Debug, Clone, Copy, PartialEq, Eq, Structural)]
pub struct Viewport {
    pub width: i64,
    pub height: i64,
}

impl Default for Viewport {
    /// The size where none is asked for.
    fn default() -> (r: Viewport)
        ensures
            r.width == 1280,
            r.height == 800,
    {
        Viewport { width: 1280, height: 800 }
    }
}

// ---- the list of sessions -------------------------------------------------

/// The texts stand in order, each once.
pub open spec fn ascending(s: Seq<Seq<char>>) -> bool {
    forall|i: int, j: int| 0 <= i < j < s.len() ==> text_before(#[trigger] s[i], #[trigger] s[j])
}

/// The entry of a session: how many tabs it has, and where the last of them is.
pub open spec fn info_for(pages: Seq<TargetView>, session_id: Seq<char>) -> InfoView {
    let its = session_pages(pages, session_id);
    InfoView {
        session_id,
        page_count: its.len() as usize,
        active_url: if its.len() > 0 {
            Some(its.last().url)
        } else {
            None
        },
    }
}

/// The ids of the sessions in a list.
pub open spec fn session_ids(list: Seq<InfoView>) -> Seq<Seq<char>> {
    list.map_values(|i: InfoView| i.session_id)
}

/// The list of the sessions that have tabs: each once, in the order of their
/// ids.
pub open spec fn is_session_list(pages: Seq<TargetView>, list: Seq<InfoView>) -> bool {
    &&& ascending(session_ids(list))
    &&& forall|id: Seq<char>|
        session_ids(list).contains(id) <==> exists|k: int|
            0 <= k < pages.len() && belongs(#[trigger] pages[k], id)
    &&& forall|i: int| 0 <= i < list.len() ==> (#[trigger] list[i]) == info_for(
        pages,
        list[i].session_id,
    )
}

/// Puts an id into its place among ids in order, unless it is there.
fn insert_id(v: &mut Vec<String>, id: &str)
    requires
        ascending(texts(old(v)@)),
    ensures
        ascending(texts(final(v)@)),
        forall|x: Seq<char>| #[trigger]
            texts(final(v)@).contains(x) <==> texts(old(v)@).contains(x) || x == id@,
{
    let ghost before = texts(v@);
    let mut k: usize = 0;
    while k < v.len() && is_before(v[k].as_str(), id)
        invariant
            k <= v@.len(),
            texts(v@) == before,
            forall|j: int| 0 <= j < k ==> text_before(#[trigger] before[j], id@),
        decreases v@.len() - k,
    {
        assert(before[k as int] == v@[k as int]@);
        k += 1;
    }
    if k < v.len() && same_text(v[k].as_str(), id) {
        assert(before[k as int] == id@);
        return;
    }
    let s = id.to_string();
    proof {
        if k < v@.len() {
            assert(before[k as int] == v@[k as int]@);
            lemma_before_total(before[k as int], id@);
        }
    }
    v.insert(k, s);
    proof {
        let after = texts(v@);
        assert(after =~= before.insert(k as int, id@));
        assert forall|i: int, j: int| 0 <= i < j < after.len() implies text_before(
            #[trigger] after[i],
            #[trigger] after[j],
        ) by {
            let bi = if i < k { i } else { i - 1 };
            let bj = if j < k { j } else { j - 1 };
            if i != k && j != k {
                assert(text_before(before[bi], before[bj]));
            } else if i == k {
                if j - 1 > k {
                    assert(text_before(before[k as int], before[j - 1]));
                    lemma_before_transitive(id@, before[k as int], before[j - 1]);
                }
            } else {
                assert(text_before(before[i], id@));
            }
        }
        assert forall|x: Seq<char>| #[trigger] after.contains(x) implies before.contains(x) || x
            == id@ by {
            let i = choose|i: int| 0 <= i < after.len() && after[i] == x;
            if i < k {
                assert(before[i] == x);
            } else if i > k {
                assert(before[i - 1] == x);
            }
        }
        assert forall|x: Seq<char>| before.contains(x) || x == id@ implies #[trigger] after.contains(
            x,
        ) by {
            if x == id@ {
                assert(after[k as int] == x);
            } else {
                let i = choose|i: int| 0 <= i < before.len() && before[i] == x;
                if i < k {
                    assert(after[i] == x);
                } else {
                    assert(after[i + 1] == x);
                }
            }
        }
    }
}

/// The ids of the sessions that have tabs, in order.
fn ids_with_pages(pages: &Vec<Target>) -> (r: Vec<String>)
    ensures
        ascending(texts(r@)),
        forall|id: Seq<char>| #[trigger]
            texts(r@).contains(id) <==> exists|k: int|
                0 <= k < pages@.len() && belongs(#[trigger] targets(pages@)[k], id),
{
    let mut out: Vec<String> = Vec::new();
    let ghost all = targets(pages@);
    let mut i: usize = 0;
    while i < pages.len()
        invariant
            i <= pages@.len(),
            all == targets(pages@),
            ascending(texts(out@)),
            forall|id: Seq<char>| #[trigger]
                texts(out@).contains(id) <==> exists|k: int|
                    0 <= k < i && belongs(#[trigger] all[k], id),
        decreases pages@.len() - i,
    {
        let ghost before = texts(out@);
        assert(all[i as int] == pages@[i as int]@);
        match &pages[i].context_id {
            Some(c) => {
                insert_id(&mut out, c.as_str());
                proof {
                    assert(belongs(all[i as int], c@));
                    assert forall|id: Seq<char>| #[trigger] texts(out@).contains(
                        id,
                    ) implies exists|k: int| 0 <= k < i + 1 && belongs(#[trigger] all[k], id) by {
                        if before.contains(id) {
                            let k = choose|k: int| 0 <= k < i && belongs(#[trigger] all[k], id);
                            assert(belongs(all[k], id));
                        }
                    }
                    assert forall|id: Seq<char>|
                        (exists|k: int| 0 <= k < i + 1 && belongs(#[trigger] all[k], id)) implies #[trigger] texts(
                        out@,
                    ).contains(id) by {
                        let k = choose|k: int| 0 <= k < i + 1 && belongs(#[trigger] all[k], id);
                        if k < i {
                            assert(before.contains(id));
                        }
                    }
                }
            },
            None => {
                assert forall|id: Seq<char>|
                    (exists|k: int| 0 <= k < i + 1 && belongs(#[trigger] all[k], id)) implies #[trigger] texts(
                    out@,
                ).contains(id) by {
                    let k = choose|k: int| 0 <= k < i + 1 && belongs(#[trigger] all[k], id);
                    assert(k < i);
                }
            },
        }
        i += 1;
    }
    out
}

/// The sessions that have tabs.
pub fn session_list(pages: &Vec<Target>) -> (r: Vec<SessionInfo>)
    ensures
        is_session_list(targets(pages@), infos(r@)),
{
    let ids = ids_with_pages(pages);
    let ghost all = targets(pages@);
    let mut out: Vec<SessionInfo> = Vec::new();
    let mut i: usize = 0;
    while i < ids.len()
        invariant
            i <= ids@.len(),
            out@.len() == i,
            all == targets(pages@),
            forall|j: int| 0 <= j < i ==> (#[trigger] out@[j])@ == info_for(all, ids@[j]@),
        decreases ids@.len() - i,
    {
        let its = pages_in(pages, ids[i].as_str());
        let n: usize = its.len();
        let active_url = if n > 0 {
            assert(targets(its@).last() == its@[n - 1]@);
            Some(its[n - 1].url.clone())
        } else {
            None
        };
        assert(targets(its@).len() == n);
        out.push(SessionInfo { session_id: ids[i].clone(), page_count: n, active_url });
        assert(out@[i as int]@ =~= info_for(all, ids@[i as int]@));
        i += 1;
    }
    proof {
        assert(session_ids(infos(out@)) =~= texts(ids@));
    }
    out
}

/// There is one list of the sessions, and no other.
pub proof fn law_session_list_is_unique(
    pages: Seq<TargetView>,
    a: Seq<InfoView>,
    b: Seq<InfoView>,
)
    requires
        is_session_list(pages, a),
        is_session_list(pages, b),
    ensures
        a == b,
{
    let x = session_ids(a);
    let y = session_ids(b);
    assert forall|id: Seq<char>| x.contains(id) <==> y.contains(id) by {
        let found = exists|k: int| 0 <= k < pages.len() && belongs(#[trigger] pages[k], id);
        assert(x.contains(id) <==> found);
        assert(y.contains(id) <==> found);
    }
    lemma_ascending_unique(x, y);
    assert forall|i: int| 0 <= i < a.len() implies a[i] == b[i] by {
        assert(x[i] == a[i].session_id);
        assert(y[i] == b[i].session_id);
    }
    assert(a =~= b);
}

/// The list of the sessions that have tabs.
pub open spec fn sessions_of(pages: Seq<TargetView>) -> Seq<InfoView> {
    choose|l: Seq<InfoView>| is_session_list(pages, l)
}

/// Texts in order are determined by which they are.
proof fn lemma_ascending_unique(x: Seq<Seq<char>>, y: Seq<Seq<char>>)
    requires
        ascending(x),
        ascending(y),
        forall|id: Seq<char>| x.contains(id) <==> y.contains(id),
    ensures
        x == y,
    decreases x.len(),
{
    if x.len() == 0 {
        if y.len() > 0 {
            assert(y.contains(y[0]));
        }
        assert(x =~= y);
    } else {
        let n = x.len() - 1;
        assert(x.contains(x[n]));
        assert(y.contains(x[n]));
        let m = y.len() - 1;
        assert(y.contains(y[m]));
        assert(x.contains(y[m]));
        let i = choose|i: int| 0 <= i < x.len() && x[i] == y[m];
        let j = choose|j: int| 0 <= j < y.len() && y[j] == x[n];
        if i < n {
            assert(text_before(x[i], x[n]));
            lemma_before_irreflexive(x[n]);
            assert(j < m);
            assert(text_before(y[j], y[m]));
            lemma_before_transitive(x[i], x[n], y[m]);
            lemma_before_irreflexive(y[m]);
        }
        assert(x[n] == y[m]);
        let s = x.drop_last();
        let t = y.drop_last();
        assert forall|id: Seq<char>| s.contains(id) <==> t.contains(id) by {
            if s.contains(id) {
                let k = choose|k: int| 0 <= k < s.len() && s[k] == id;
                assert(x[k] == id);
                assert(x.contains(id));
                assert(text_before(x[k], x[n]));
                lemma_before_irreflexive(id);
                let l = choose|l: int| 0 <= l < y.len() && y[l] == id;
                assert(l < m);
                assert(t[l] == id);
            }
            if t.contains(id) {
                let k = choose|k: int| 0 <= k < t.len() && t[k] == id;
                assert(y[k] == id);
                assert(y.contains(id));
                assert(text_before(y[k], y[m]));
                lemma_before_irreflexive(id);
                let l = choose|l: int| 0 <= l < x.len() && x[l] == id;
                assert(l < n);
                assert(s[l] == id);
            }
        }
        lemma_ascending_unique(s, t);
        assert(x =~= s.push(x[n]));
        assert(y =~= t.push(y[m]));
    }
}

/// A new tab of a session counts for it and is its last; a tab of another, or of
/// none, changes nothing of its entry; and a session without tabs has no address.
pub proof fn law_entry_counts_the_tabs(
    pages: Seq<TargetView>,
    page: TargetView,
    session_id: Seq<char>,
)
    requires
        pages.len() < usize::MAX,
    ensures
        info_for(seq![], session_id) == (InfoView { session_id, page_count: 0, active_url: None }),
        page.context_id == Some(session_id) ==> info_for(pages.push(page), session_id) == (
        InfoView {
            session_id,
            page_count: (info_for(pages, session_id).page_count + 1) as usize,
            active_url: Some(page.url),
        }),
        page.context_id != Some(session_id) ==> info_for(pages.push(page), session_id) == info_for(
            pages,
            session_id,
        ),
{
    let its = |t: TargetView| belongs(t, session_id);
    reveal(Seq::filter);
    lemma_filter_push(pages, page, its);
    lemma_filter_is_no_longer(pages, its);
}

/// A filter leaves no more than there was.
proof fn lemma_filter_is_no_longer<A>(s: Seq<A>, keep: spec_fn(A) -> bool)
    ensures
        s.filter(keep).len() <= s.len(),
    decreases s.len(),
{
    reveal(Seq::filter);
    if s.len() > 0 {
        lemma_filter_is_no_longer(s.drop_last(), keep);
    }
}

/// A target is a tab exactly where Chrome calls it a page, and it is a tab of the
/// session whose context it is in.
pub proof fn law_tabs_are_pages(all: Seq<TargetView>, t: TargetView, session_id: Seq<char>)
    ensures
        pages_of(seq![]) == Seq::<TargetView>::empty(),
        t.kind == "page"@ ==> pages_of(all.push(t)) == pages_of(all).push(t),
        t.kind != "page"@ ==> pages_of(all.push(t)) == pages_of(all),
        session_pages(seq![], session_id) == Seq::<TargetView>::empty(),
        t.context_id == Some(session_id) ==> session_pages(all.push(t), session_id)
            == session_pages(all, session_id).push(t),
        t.context_id != Some(session_id) ==> session_pages(all.push(t), session_id)
            == session_pages(all, session_id),
{
    reveal(Seq::filter);
    lemma_filter_push(all, t, |t: TargetView| t.kind == "page"@);
    lemma_filter_push(all, t, |t: TargetView| belongs(t, session_id));
}

/// The list of the sessions names each session that has a tab once, in the order
/// of the ids, with how many tabs it has.
pub proof fn law_list_is_of_the_sessions(pages: Seq<TargetView>, list: Seq<InfoView>, k: int)
    requires
        is_session_list(pages, list),
        0 <= k < pages.len(),
    ensures
        pages[k].context_id matches Some(id) ==> exists|i: int|
            0 <= i < list.len() && #[trigger] list[i] == info_for(pages, id) && list[i].session_id
                == id,
        forall|i: int, j: int|
            0 <= i < j < list.len() ==> text_before(
                (#[trigger] list[i]).session_id,
                (#[trigger] list[j]).session_id,
            ),
        forall|i: int|
            0 <= i < list.len() ==> exists|m: int|
                0 <= m < pages.len() && (#[trigger] pages[m]).context_id == Some(
                    (#[trigger] list[i]).session_id,
                ),
{
    let ids = session_ids(list);
    if pages[k].context_id is Some {
        let id = pages[k].context_id->0;
        assert(belongs(pages[k], id));
        assert(ids.contains(id));
        let i = choose|i: int| 0 <= i < ids.len() && ids[i] == id;
        assert(list[i].session_id == id);
    }
    assert forall|i: int, j: int| 0 <= i < j < list.len() implies text_before(
        (#[trigger] list[i]).session_id,
        (#[trigger] list[j]).session_id,
    ) by {
        assert(text_before(ids[i], ids[j]));
    }
    assert forall|i: int| 0 <= i < list.len() implies exists|m: int|
        0 <= m < pages.len() && (#[trigger] pages[m]).context_id == Some(
            (#[trigger] list[i]).session_id,
        ) by {
        assert(ids[i] == list[i].session_id);
        assert(ids.contains(ids[i]));
        let m = choose|m: int| 0 <= m < pages.len() && belongs(#[trigger] pages[m], ids[i]);
        assert(pages[m].context_id == Some(list[i].session_id));
    }
}

}
