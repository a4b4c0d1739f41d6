//! The order of a session's tabs.
//!
//! Chrome lists its targets in an order that changes from call to call. The
//! registry keeps one that does not: a tab keeps its place while it is open, new
//! tabs come at the end, and closed ones drop out.
use vstd::hash_map::StringHashMap;
use vstd::prelude::*;

use crate::sessions::{
    ids, lemma_filter_push, pages_in, session_pages, targets, Target, TargetView,
};
use crate::text::{lemma_texts_push, opt_text, same_text, texts};

verus! {

// ---- the order ------------------------------------------------------------

/// The ids that are still live, in their old order.
pub open spec fn kept(order: Seq<Seq<char>>, live: Seq<Seq<char>>) -> Seq<Seq<char>> {
    order.filter(|id: Seq<char>| live.contains(id))
}

/// Every id but one.
pub open spec fn other_than(gone: Seq<char>) -> spec_fn(Seq<char>) -> bool {
    |id: Seq<char>| id != gone
}

/// The ids but one, in their order.
pub open spec fn without(order: Seq<Seq<char>>, gone: Seq<char>) -> Seq<Seq<char>> {
    order.filter(other_than(gone))
}

/// The order with the live ids that it lacks at its end, as Chrome lists them.
pub open spec fn with_new(order: Seq<Seq<char>>, live: Seq<Seq<char>>) -> Seq<Seq<char>>
    decreases live.len(),
{
    if live.len() == 0 {
        order
    } else {
        let o = with_new(order, live.drop_last());
        if o.contains(live.last()) {
            o
        } else {
            o.push(live.last())
        }
    }
}

/// The order of the tabs once `live` are the ones that are open.
pub open spec fn new_order(order: Seq<Seq<char>>, live: Seq<Seq<char>>) -> Seq<Seq<char>> {
    with_new(kept(order, live), live)
}

/// The active tab: the one that was active if it is still open, else the last.
pub open spec fn new_active(
    active: Option<Seq<char>>,
    order: Seq<Seq<char>>,
    live: Seq<Seq<char>>,
) -> Option<Seq<char>> {
    if active is Some && live.contains(active->0) {
        active
    } else if order.len() > 0 {
        Some(order.last())
    } else {
        None
    }
}

/// What Chrome says of the target with this id; of two with one id, the later.
pub open spec fn info_of(pages: Seq<TargetView>, id: Seq<char>) -> TargetView
    decreases pages.len(),
{
    if pages.len() == 0 || pages.last().target_id == id {
        pages.last()
    } else {
        info_of(pages.drop_last(), id)
    }
}

// ---- the registry ---------------------------------------------------------

/// What a [`TabRegistry`] knows: for each session the order of its tabs, and its
/// active tab.
#[verifier::ext_equal]
pub struct RegistryView {
    pub order: Map<Seq<char>, Seq<Seq<char>>>,
    pub active: Map<Seq<char>, Seq<char>>,
}

impl RegistryView {
    /// A registry that knows nothing.
    pub open spec fn empty() -> RegistryView {
        RegistryView { order: Map::empty(), active: Map::empty() }
    }

    /// The order of a session's tabs; empty for one that is not known.
    pub open spec fn order_of(self, session_id: Seq<char>) -> Seq<Seq<char>> {
        if self.order.contains_key(session_id) {
            self.order[session_id]
        } else {
            seq![]
        }
    }

    /// The active tab of a session, if it is known.
    pub open spec fn active_of(self, session_id: Seq<char>) -> Option<Seq<char>> {
        if self.active.contains_key(session_id) {
            Some(self.active[session_id])
        } else {
            None
        }
    }

    /// No tab has two places.
    pub open spec fn wf(self) -> bool {
        forall|s: Seq<char>| #[trigger]
            self.order.contains_key(s) ==> self.order[s].no_duplicates()
    }

    /// With one tab made the active one.
    pub open spec fn activated(self, session_id: Seq<char>, target_id: Seq<char>) -> RegistryView {
        RegistryView { active: self.active.insert(session_id, target_id), ..self }
    }

    /// Brought in line with the tabs that are open.
    pub open spec fn reconciled(self, session_id: Seq<char>, live: Seq<Seq<char>>) -> RegistryView {
        let order = new_order(self.order_of(session_id), live);
        let active = new_active(self.active_of(session_id), order, live);
        RegistryView {
            order: self.order.insert(session_id, order),
            active: match active {
                Some(a) => self.active.insert(session_id, a),
                None => self.active,
            },
        }
    }

    /// Without one tab; if it was the active one, none is.
    pub open spec fn dropped(self, session_id: Seq<char>, target_id: Seq<char>) -> RegistryView {
        RegistryView {
            order: if self.order.contains_key(session_id) {
                self.order.insert(session_id, without(self.order[session_id], target_id))
            } else {
                self.order
            },
            active: if self.active_of(session_id) == Some(target_id) {
                self.active.remove(session_id)
            } else {
                self.active
            },
        }
    }

    /// Without a session.
    pub open spec fn forgotten(self, session_id: Seq<char>) -> RegistryView {
        RegistryView {
            order: self.order.remove(session_id),
            active: self.active.remove(session_id),
        }
    }
}

/// The order of the tabs of each session, and the active tab of each.
pub struct TabRegistry {
    order: StringHashMap<Vec<String>>,
    active: StringHashMap<String>,
}

impl View for TabRegistry {
    type V = RegistryView;

    closed spec fn view(&self) -> RegistryView {
        RegistryView {
            order: self.order@.map_values(|v: Vec<String>| texts(v@)),
            active: self.active@.map_values(|s: String| s@),
        }
    }
}

/// Whether `id` is among the ids.
fn has_id(list: &Vec<String>, id: &str) -> (r: bool)
    ensures
        r == texts(list@).contains(id@),
{
    let mut i: usize = 0;
    while i < list.len()
        invariant
            i <= list@.len(),
            forall|j: int| 0 <= j < i ==> list@[j]@ != id@,
        decreases list@.len() - i,
    {
        if same_text(list[i].as_str(), id) {
            assert(texts(list@)[i as int] == id@);
            return true;
        }
        i += 1;
    }
    proof {
        assert forall|j: int| 0 <= j < texts(list@).len() implies texts(list@)[j] != id@ by {
            assert(texts(list@)[j] == list@[j]@);
        }
    }
    false
}

/// The ids of the targets.
fn ids_of(pages: &Vec<Target>) -> (r: Vec<String>)
    ensures
        texts(r@) == ids(targets(pages@)),
{
    let mut out: Vec<String> = Vec::new();
    let mut i: usize = 0;
    while i < pages.len()
        invariant
            i <= pages@.len(),
            out@.len() == i,
            forall|j: int| 0 <= j < i ==> out@[j]@ == pages@[j].target_id@,
        decreases pages@.len() - i,
    {
        out.push(pages[i].target_id.clone());
        i += 1;
    }
    assert(texts(out@) =~= ids(targets(pages@)));
    out
}

/// The ids of `order` that are live.
fn keep_live(order: &Vec<String>, live: &Vec<String>) -> (r: Vec<String>)
    ensures
        texts(r@) == kept(texts(order@), texts(live@)),
{
    let ghost keep = |id: Seq<char>| texts(live@).contains(id);
    let mut out: Vec<String> = Vec::new();
    let mut i: usize = 0;
    proof {
        reveal(Seq::filter);
        assert(texts(out@) =~= texts(order@).take(0).filter(keep));
    }
    while i < order.len()
        invariant
            i <= order@.len(),
            keep == (|id: Seq<char>| texts(live@).contains(id)),
            texts(out@) == texts(order@).take(i as int).filter(keep),
        decreases order@.len() - i,
    {
        proof {
            assert(texts(order@).take(i + 1) =~= texts(order@).take(i as int).push(
                order@[i as int]@,
            ));
            lemma_filter_push(
                texts(order@).take(i as int),
                order@[i as int]@,
                keep,
            );
        }
        if has_id(live, order[i].as_str()) {
            let id = order[i].clone();
            proof {
                lemma_texts_push(out@, id);
            }
            out.push(id);
        }
        i += 1;
    }
    assert(texts(order@).take(i as int) =~= texts(order@));
    out
}

/// The ids of `order` but one.
fn drop_id(order: &Vec<String>, gone: &str) -> (r: Vec<String>)
    ensures
        texts(r@) == without(texts(order@), gone@),
{
    let ghost keep = other_than(gone@);
    let mut out: Vec<String> = Vec::new();
    let mut i: usize = 0;
    proof {
        reveal(Seq::filter);
        assert(texts(out@) =~= texts(order@).take(0).filter(keep));
    }
    while i < order.len()
        invariant
            i <= order@.len(),
            keep == other_than(gone@),
            texts(out@) == texts(order@).take(i as int).filter(keep),
        decreases order@.len() - i,
    {
        proof {
            assert(texts(order@).take(i + 1) =~= texts(order@).take(i as int).push(
                order@[i as int]@,
            ));
            lemma_filter_push(
                texts(order@).take(i as int),
                order@[i as int]@,
                keep,
            );
        }
        if !same_text(order[i].as_str(), gone) {
            let id = order[i].clone();
            proof {
                lemma_texts_push(out@, id);
            }
            out.push(id);
        }
        i += 1;
    }
    assert(texts(order@).take(i as int) =~= texts(order@));
    out
}

/// Adds to `order` the live ids that it lacks.
fn add_new(order: Vec<String>, live: &Vec<String>) -> (r: Vec<String>)
    ensures
        texts(r@) == with_new(texts(order@), texts(live@)),
{
    let mut out = order;
    let mut i: usize = 0;
    assert(texts(live@).take(0) =~= seq![]);
    while i < live.len()
        invariant
            i <= live@.len(),
            texts(out@) == with_new(texts(order@), texts(live@).take(i as int)),
        decreases live@.len() - i,
    {
        proof {
            let t = texts(live@).take(i + 1);
            assert(t.drop_last() =~= texts(live@).take(i as int));
            assert(t.last() == live@[i as int]@);
        }
        if !has_id(&out, live[i].as_str()) {
            let id = live[i].clone();
            proof {
                lemma_texts_push(out@, id);
            }
            out.push(id);
        }
        i += 1;
    }
    assert(texts(live@).take(i as int) =~= texts(live@));
    out
}

/// What Chrome says of the target with this id.
fn find_info(pages: &Vec<Target>, id: &str) -> (r: Target)
    requires
        ids(targets(pages@)).contains(id@),
    ensures
        r@ == info_of(targets(pages@), id@),
{
    let ghost all = targets(pages@);
    let mut n: usize = pages.len();
    assert(all.take(n as int) =~= all);
    while n > 0
        invariant
            n <= pages@.len(),
            all == targets(pages@),
            info_of(all.take(n as int), id@) == info_of(all, id@),
            exists|j: int| 0 <= j < n && all[j].target_id == id@,
        decreases n,
    {
        if same_text(pages[n - 1].target_id.as_str(), id) {
            assert(all.take(n as int).last() == pages@[n - 1]@);
            return pages[n - 1].copy();
        }
        assert(all.take(n as int).last() == pages@[n - 1]@);
        assert(all.take(n as int).drop_last() =~= all.take(n - 1));
        n -= 1;
    }
    proof {
        assert(false);
    }
    pages[0].copy()
}

impl TabRegistry {
    /// No tab has two places.
    pub open spec fn wf(&self) -> bool {
        self@.wf()
    }

    /// A registry that knows nothing.
    pub fn new() -> (r: TabRegistry)
        ensures
            r.wf(),
            r@ == RegistryView::empty(),
    {
        let r = TabRegistry { order: StringHashMap::new(), active: StringHashMap::new() };
        assert(r@ =~= RegistryView::empty());
        r
    }

    /// The order of a session's tabs.
    fn order_for(&self, session_id: &str) -> (r: Vec<String>)
        ensures
            texts(r@) == self@.order_of(session_id@),
    {
        match self.order.get(session_id) {
            Some(v) => {
                let mut out: Vec<String> = Vec::new();
                let mut i: usize = 0;
                while i < v.len()
                    invariant
                        i <= v@.len(),
                        out@.len() == i,
                        forall|j: int| 0 <= j < i ==> out@[j]@ == v@[j]@,
                    decreases v@.len() - i,
                {
                    out.push(v[i].clone());
                    i += 1;
                }
                assert(texts(out@) =~= texts(v@));
                out
            },
            None => {
                let out: Vec<String> = Vec::new();
                assert(texts(out@) =~= seq![]);
                out
            },
        }
    }

    /// The active tab of a session.
    fn active_for(&self, session_id: &str) -> (r: Option<String>)
        ensures
            opt_text(r) == self@.active_of(session_id@),
    {
        match self.active.get(session_id) {
            Some(s) => Some(s.clone()),
            None => None,
        }
    }

    /// Makes a tab the active one of its session.
    pub fn set_active(&mut self, session_id: &str, target_id: &str)
        ensures
            final(self)@ == old(self)@.activated(session_id@, target_id@),
    {
        self.active.insert(session_id.to_string(), target_id.to_string());
        assert(self@ =~= old(self)@.activated(session_id@, target_id@));
    }

    /// Brings a session's tabs in line with what Chrome says is open. Returns
    /// them in their order, and the id of the active one, which is open; there
    /// is none only where no tab is.
    pub fn reconcile(&mut self, session_id: &str, pages: &Vec<Target>) -> (r: (
        Vec<Target>,
        Option<String>,
    ))
        requires
            old(self).wf(),
        ensures
            final(self).wf(),
            ({
                let current = session_pages(targets(pages@), session_id@);
                let live = ids(current);
                &&& final(self)@ == old(self)@.reconciled(session_id@, live)
                &&& targets(r.0@) == final(self)@.order_of(session_id@).map_values(
                    |id: Seq<char>| info_of(current, id),
                )
                &&& opt_text(r.1) == new_active(
                    old(self)@.active_of(session_id@),
                    final(self)@.order_of(session_id@),
                    live,
                )
            }),
    {
        let current = pages_in(pages, session_id);
        let live = ids_of(&current);
        let ghost l = texts(live@);
        let ghost was = self@.order_of(session_id@);
        let old_order = self.order_for(session_id);
        let still = keep_live(&old_order, &live);
        let order = add_new(still, &live);
        proof {
            assert(was.no_duplicates());
            law_order_is_the_open_tabs(was, l);
        }
        let was_active = self.active_for(session_id);
        let active = match was_active {
            Some(a) => {
                if has_id(&live, a.as_str()) {
                    Some(a)
                } else {
                    last_of(&order)
                }
            },
            None => last_of(&order),
        };
        let mut infos: Vec<Target> = Vec::new();
        let mut i: usize = 0;
        while i < order.len()
            invariant
                i <= order@.len(),
                infos@.len() == i,
                texts(live@) == ids(targets(current@)),
                forall|id: Seq<char>| #[trigger] texts(order@).contains(id) ==> texts(
                    live@,
                ).contains(id),
                forall|j: int|
                    0 <= j < i ==> (#[trigger] infos@[j])@ == info_of(
                        targets(current@),
                        order@[j]@,
                    ),
            decreases order@.len() - i,
        {
            assert(texts(order@)[i as int] == order@[i as int]@);
            assert(texts(order@).contains(order@[i as int]@));
            infos.push(find_info(&current, order[i].as_str()));
            i += 1;
        }
        let ghost order_texts = texts(order@);
        proof {
            assert(targets(infos@) =~= order_texts.map_values(
                |id: Seq<char>| info_of(targets(current@), id),
            ));
        }
        self.order.insert(session_id.to_string(), order);
        match &active {
            Some(a) => {
                self.active.insert(session_id.to_string(), a.clone());
            },
            None => {},
        }
        proof {
            assert(self@ =~= old(self)@.reconciled(session_id@, l));
        }
        (infos, active)
    }

    /// Drops a tab that was closed. If it was the active one, the next
    /// reconciliation makes the last of those that are left the active one.
    pub fn drop_tab(&mut self, session_id: &str, target_id: &str)
        requires
            old(self).wf(),
        ensures
            final(self).wf(),
            final(self)@ == old(self)@.dropped(session_id@, target_id@),
    {
        let was_active = self.active_for(session_id);
        if self.order.contains_key(session_id) {
            let order = self.order_for(session_id);
            let left = drop_id(&order, target_id);
            proof {
                lemma_without(texts(order@), target_id@);
            }
            self.order.insert(session_id.to_string(), left);
        }
        if let Some(a) = was_active {
            if same_text(a.as_str(), target_id) {
                self.active.remove(session_id);
            }
        }
        assert(self@ =~= old(self)@.dropped(session_id@, target_id@));
    }

    /// Forgets a session that was closed.
    pub fn forget(&mut self, session_id: &str)
        requires
            old(self).wf(),
        ensures
            final(self).wf(),
            final(self)@ == old(self)@.forgotten(session_id@),
    {
        self.order.remove(session_id);
        self.active.remove(session_id);
        assert(self@ =~= old(self)@.forgotten(session_id@));
    }
}

/// The last id, if there is one.
fn last_of(order: &Vec<String>) -> (r: Option<String>)
    ensures
        opt_text(r) == (if texts(order@).len() > 0 {
            Some(texts(order@).last())
        } else {
            None
        }),
{
    if order.len() > 0 {
        Some(order[order.len() - 1].clone())
    } else {
        None
    }
}

// ---- what holds of the order ----------------------------------------------

/// What a filter keeps, it keeps without repeating anything.
pub proof fn lemma_filter_keeps_distinct<A>(s: Seq<A>, keep: spec_fn(A) -> bool)
    requires
        s.no_duplicates(),
    ensures
        s.filter(keep).no_duplicates(),
        forall|x: A| #[trigger] s.filter(keep).contains(x) <==> s.contains(x) && keep(x),
    decreases s.len(),
{
    reveal(Seq::filter);
    if s.len() > 0 {
        let t = s.drop_last();
        lemma_filter_keeps_distinct(t, keep);
        let f = t.filter(keep);
        assert(!t.contains(s.last()));
        assert forall|x: A| #[trigger] s.filter(keep).contains(x) implies s.contains(x) && keep(
            x,
        ) by {
            if x != s.last() || !keep(x) {
                let k = choose|k: int| 0 <= k < s.filter(keep).len() && s.filter(keep)[k] == x;
                assert(f[k] == x);
                assert(f.contains(x));
                let m = choose|m: int| 0 <= m < t.len() && t[m] == x;
                assert(s[m] == x);
            }
        }
        assert forall|x: A| s.contains(x) && keep(x) implies #[trigger] s.filter(keep).contains(
            x,
        ) by {
            let m = choose|m: int| 0 <= m < s.len() && s[m] == x;
            if m < t.len() {
                assert(t[m] == x);
                assert(f.contains(x));
                let k = choose|k: int| 0 <= k < f.len() && f[k] == x;
                assert(s.filter(keep)[k] == x);
            } else {
                assert(s.filter(keep)[f.len() as int] == x);
            }
        }
        assert(!f.contains(s.last()));
    }
}

/// What is left without one id.
pub proof fn lemma_without(order: Seq<Seq<char>>, gone: Seq<char>)
    requires
        order.no_duplicates(),
    ensures
        without(order, gone).no_duplicates(),
        forall|id: Seq<char>| #[trigger]
            without(order, gone).contains(id) <==> order.contains(id) && id != gone,
{
    lemma_filter_keeps_distinct(order, other_than(gone));
}

/// Adding the live ids keeps what was there, in front, and repeats nothing.
proof fn lemma_with_new(order: Seq<Seq<char>>, live: Seq<Seq<char>>)
    requires
        order.no_duplicates(),
    ensures
        with_new(order, live).no_duplicates(),
        order.is_prefix_of(with_new(order, live)),
        forall|id: Seq<char>| #[trigger]
            with_new(order, live).contains(id) <==> order.contains(id) || live.contains(id),
    decreases live.len(),
{
    if live.len() > 0 {
        let l = live.drop_last();
        lemma_with_new(order, l);
        let o = with_new(order, l);
        let w = with_new(order, live);
        assert forall|id: Seq<char>| #[trigger] w.contains(id) implies order.contains(id)
            || live.contains(id) by {
            if id == live.last() {
                assert(live[live.len() - 1] == id);
            } else {
                let k = choose|k: int| 0 <= k < w.len() && w[k] == id;
                assert(o[k] == id);
                assert(o.contains(id));
                if l.contains(id) {
                    let m = choose|m: int| 0 <= m < l.len() && l[m] == id;
                    assert(live[m] == id);
                }
            }
        }
        assert forall|id: Seq<char>| order.contains(id) || live.contains(
            id,
        ) implies #[trigger] w.contains(id) by {
            if live.contains(id) && id != live.last() {
                let m = choose|m: int| 0 <= m < live.len() && live[m] == id;
                assert(l[m] == id);
            }
            if order.contains(id) || l.contains(id) {
                assert(o.contains(id));
                let k = choose|k: int| 0 <= k < o.len() && o[k] == id;
                assert(w[k] == id);
            } else {
                assert(w.contains(live.last())) by {
                    if !o.contains(live.last()) {
                        assert(w[o.len() as int] == live.last());
                    }
                }
            }
        }
        assert(order =~= w.take(order.len() as int));
    } else {
        assert(order =~= with_new(order, live).take(order.len() as int));
    }
}

/// After a reconciliation the order holds the open tabs, each once, and no
/// others; those that were there before come first, in the order they had.
pub proof fn law_order_is_the_open_tabs(order: Seq<Seq<char>>, live: Seq<Seq<char>>)
    requires
        order.no_duplicates(),
    ensures
        new_order(order, live).no_duplicates(),
        forall|id: Seq<char>| #[trigger]
            new_order(order, live).contains(id) <==> live.contains(id),
        kept(order, live).is_prefix_of(new_order(order, live)),
{
    lemma_filter_keeps_distinct(order, |id: Seq<char>| live.contains(id));
    lemma_with_new(kept(order, live), live);
}

/// While no tab is closed, every tab keeps its index.
pub proof fn law_indices_are_stable(order: Seq<Seq<char>>, live: Seq<Seq<char>>)
    requires
        order.no_duplicates(),
        forall|id: Seq<char>| #[trigger] order.contains(id) ==> live.contains(id),
    ensures
        order.is_prefix_of(new_order(order, live)),
{
    lemma_filter_all(order, |id: Seq<char>| live.contains(id));
    law_order_is_the_open_tabs(order, live);
}

/// A filter that everything passes changes nothing.
proof fn lemma_filter_all(s: Seq<Seq<char>>, keep: spec_fn(Seq<char>) -> bool)
    requires
        forall|id: Seq<char>| #[trigger] s.contains(id) ==> keep(id),
    ensures
        s.filter(keep) == s,
    decreases s.len(),
{
    reveal(Seq::filter);
    if s.len() > 0 {
        let t = s.drop_last();
        assert forall|id: Seq<char>| #[trigger] t.contains(id) implies keep(id) by {
            let k = choose|k: int| 0 <= k < t.len() && t[k] == id;
            assert(s[k] == id);
            assert(s.contains(id));
        }
        lemma_filter_all(t, keep);
        assert(s[s.len() - 1] == s.last());
        assert(s.contains(s.last()));
        assert(t.push(s.last()) =~= s);
    }
}

/// Adding ids that are all there changes nothing.
proof fn lemma_nothing_new(order: Seq<Seq<char>>, live: Seq<Seq<char>>)
    requires
        forall|id: Seq<char>| #[trigger] live.contains(id) ==> order.contains(id),
    ensures
        with_new(order, live) == order,
    decreases live.len(),
{
    if live.len() > 0 {
        let l = live.drop_last();
        assert forall|id: Seq<char>| #[trigger] l.contains(id) implies order.contains(id) by {
            let k = choose|k: int| 0 <= k < l.len() && l[k] == id;
            assert(live[k] == id);
            assert(live.contains(id));
        }
        lemma_nothing_new(order, l);
        assert(live[live.len() - 1] == live.last());
        assert(live.contains(live.last()));
    }
}

/// As long as the same tabs are open, the order stays as it is, in whatever
/// order Chrome lists them.
pub proof fn law_order_is_stable(
    order: Seq<Seq<char>>,
    live: Seq<Seq<char>>,
    again: Seq<Seq<char>>,
)
    requires
        order.no_duplicates(),
        forall|id: Seq<char>| live.contains(id) <==> again.contains(id),
    ensures
        new_order(new_order(order, live), again) == new_order(order, live),
{
    let o = new_order(order, live);
    law_order_is_the_open_tabs(order, live);
    assert forall|id: Seq<char>| #[trigger] o.contains(id) implies again.contains(id) by {
        assert(live.contains(id));
    }
    assert forall|id: Seq<char>| #[trigger] again.contains(id) implies o.contains(id) by {
        assert(live.contains(id));
    }
    lemma_filter_all(o, |id: Seq<char>| again.contains(id));
    lemma_nothing_new(o, again);
}

/// The active tab is open, and there is one unless no tab is open.
pub proof fn law_active_is_open(
    active: Option<Seq<char>>,
    order: Seq<Seq<char>>,
    live: Seq<Seq<char>>,
)
    requires
        order.no_duplicates(),
    ensures
        ({
            let a = new_active(active, new_order(order, live), live);
            &&& a is Some ==> live.contains(a->0) && new_order(order, live).contains(a->0)
            &&& a is None <==> live.len() == 0
        }),
{
    law_order_is_the_open_tabs(order, live);
    let o = new_order(order, live);
    if o.len() > 0 {
        assert(o[o.len() - 1] == o.last());
        assert(o.contains(o.last()));
    }
    if live.len() > 0 {
        assert(live[0] == live[0]);
        assert(live.contains(live[0]));
        assert(o.contains(live[0]));
    } else if o.len() > 0 {
        assert(live.contains(o.last()));
    }
}

/// Reconciling twice with the same open tabs is reconciling once.
pub proof fn law_reconcile_is_idempotent(
    reg: RegistryView,
    session_id: Seq<char>,
    live: Seq<Seq<char>>,
)
    requires
        reg.wf(),
    ensures
        reg.reconciled(session_id, live).wf(),
        reg.reconciled(session_id, live).reconciled(session_id, live) == reg.reconciled(
            session_id,
            live,
        ),
{
    let order = reg.order_of(session_id);
    let once = reg.reconciled(session_id, live);
    assert(order.no_duplicates());
    law_order_is_the_open_tabs(order, live);
    law_order_is_stable(order, live, live);
    law_active_is_open(reg.active_of(session_id), order, live);
    assert(once.order_of(session_id) == new_order(order, live));
    assert(once.reconciled(session_id, live) =~= once);
}

/// A tab that was made the active one stays it while it is open, whatever tabs
/// come and go beside it.
pub proof fn law_active_stays(
    reg: RegistryView,
    session_id: Seq<char>,
    target_id: Seq<char>,
    live: Seq<Seq<char>>,
)
    requires
        live.contains(target_id),
    ensures
        reg.activated(session_id, target_id).reconciled(session_id, live).active_of(session_id)
            == Some(target_id),
{
}

/// When a tab is closed, those that are left keep their order. If it was the
/// active one, the last of them becomes active; if not, the active one stays so.
pub proof fn law_close_falls_back(
    reg: RegistryView,
    session_id: Seq<char>,
    target_id: Seq<char>,
    live: Seq<Seq<char>>,
)
    requires
        reg.wf(),
        !live.contains(target_id),
        forall|id: Seq<char>|
            id != target_id ==> (live.contains(id) <==> #[trigger] reg.order_of(
                session_id,
            ).contains(id)),
    ensures
        ({
            let left = without(reg.order_of(session_id), target_id);
            let active = reg.active_of(session_id);
            let after = reg.dropped(session_id, target_id).reconciled(session_id, live);
            &&& after.order_of(session_id) == left
            &&& active == Some(target_id) ==> after.active_of(session_id) == (if left.len() > 0 {
                Some(left.last())
            } else {
                None
            })
            &&& active is Some && left.contains(active->0) ==> after.active_of(session_id)
                == active
        }),
{
    let order = reg.order_of(session_id);
    let left = without(order, target_id);
    assert(order.no_duplicates());
    lemma_without(order, target_id);
    let dropped = reg.dropped(session_id, target_id);
    reveal(Seq::filter);
    assert(dropped.order_of(session_id) =~= left);
    assert forall|id: Seq<char>| #[trigger] left.contains(id) implies live.contains(id) by {
        assert(reg.order_of(session_id).contains(id));
    }
    assert forall|id: Seq<char>| #[trigger] live.contains(id) implies left.contains(id) by {
        assert(order.contains(id));
    }
    lemma_filter_all(left, |id: Seq<char>| live.contains(id));
    lemma_nothing_new(left, live);
}

/// What is done for one session leaves every other one alone.
pub proof fn law_sessions_are_apart(
    reg: RegistryView,
    session_id: Seq<char>,
    other: Seq<char>,
    target_id: Seq<char>,
    live: Seq<Seq<char>>,
)
    requires
        other != session_id,
    ensures
        reg.reconciled(session_id, live).order_of(other) == reg.order_of(other),
        reg.reconciled(session_id, live).active_of(other) == reg.active_of(other),
        reg.activated(session_id, target_id).order_of(other) == reg.order_of(other),
        reg.activated(session_id, target_id).active_of(other) == reg.active_of(other),
        reg.dropped(session_id, target_id).order_of(other) == reg.order_of(other),
        reg.dropped(session_id, target_id).active_of(other) == reg.active_of(other),
        reg.forgotten(session_id).order_of(other) == reg.order_of(other),
        reg.forgotten(session_id).active_of(other) == reg.active_of(other),
{
}

/// A tab that is opened beside the others comes behind all of them.
pub proof fn law_new_tab_comes_last(
    order: Seq<Seq<char>>,
    live: Seq<Seq<char>>,
    id: Seq<char>,
)
    requires
        order.no_duplicates(),
        forall|x: Seq<char>| #[trigger] order.contains(x) ==> live.contains(x),
        !live.contains(id),
    ensures
        new_order(order, live.push(id)) == new_order(order, live).push(id),
{
    let more = live.push(id);
    assert(more.drop_last() =~= live);
    assert forall|x: Seq<char>| #[trigger] order.contains(x) implies more.contains(x) by {
        let k = choose|k: int| 0 <= k < live.len() && live[k] == x;
        assert(more[k] == x);
    }
    lemma_filter_all(order, |x: Seq<char>| live.contains(x));
    lemma_filter_all(order, |x: Seq<char>| more.contains(x));
    law_order_is_the_open_tabs(order, live);
    assert(!new_order(order, live).contains(id));
}

/// Where the active tab is gone, or none was, the last one becomes active.
pub proof fn law_last_tab_becomes_active(
    reg: RegistryView,
    session_id: Seq<char>,
    live: Seq<Seq<char>>,
)
    requires
        reg.wf(),
        live.len() > 0,
        reg.active_of(session_id) matches Some(a) ==> !live.contains(a),
    ensures
        ({
            let after = reg.reconciled(session_id, live);
            after.active_of(session_id) == Some(after.order_of(session_id).last())
        }),
{
    assert(reg.order_of(session_id).no_duplicates());
    law_active_is_open(reg.active_of(session_id), reg.order_of(session_id), live);
}

/// A tab is described by what Chrome says of its own id.
pub proof fn law_description_is_of_the_tab(pages: Seq<TargetView>, page: TargetView, id: Seq<char>)
    ensures
        info_of(pages.push(page), page.target_id) == page,
        id != page.target_id ==> info_of(pages.push(page), id) == info_of(pages, id),
{
    assert(pages.push(page).drop_last() =~= pages);
}

}
