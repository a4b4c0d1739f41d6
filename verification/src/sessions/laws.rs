//! What holds of the work on sessions as a whole.
use vstd::prelude::*;

use crate::error::Failure;
use crate::sessions::tabs::{
    info_of, law_active_is_open, law_order_is_stable, law_order_is_the_open_tabs, new_order,
    other_than, RegistryView,
};
use crate::sessions::work::{
    has_tabs, next_task, opened_ids, refused, start, suits, tabs_of, Goal, News, Outcome,
    ReportView, TaskView, Work,
};
use crate::sessions::{
    belongs, ids, law_tabs_are_pages, pages_of, session_pages, TargetView,
};
use crate::user_agent::UaView;

verus! {

/// How many more steps the set-up of a new page can take at most.
pub open spec fn setup_left(goal: Goal<Seq<char>>) -> nat {
    if goal is TargetOfNewPage {
        2
    } else {
        1
    }
}

/// How many more steps there can be at most once the tabs are to be listed.
pub open spec fn listing_left(goal: Goal<Seq<char>>) -> nat {
    match goal {
        Goal::ActivePage => 8,
        Goal::ActiveTarget => 9,
        Goal::TargetAgain => 1,
        _ => 2,
    }
}

/// How many more steps there can be at most once the session was noted as used.
pub open spec fn touched_left(goal: Goal<Seq<char>>) -> nat {
    match goal {
        Goal::Context => 0,
        Goal::NewPage { .. } => setup_left(goal) + 3,
        Goal::TargetOfNewPage => setup_left(goal) + 3,
        _ => listing_left(goal),
    }
}

/// How many more steps the work can take at most.
pub open spec fn work_left(task: TaskView) -> nat {
    match task {
        Work::FindSession { goal, .. } => touched_left(goal) + 3,
        Work::FindContext { goal, .. } => touched_left(goal) + 2,
        Work::Touch { goal, .. } => touched_left(goal) + 1,
        Work::ListTabs { goal, .. } => listing_left(goal),
        Work::CreatePage { goal, .. } => setup_left(goal) + 3,
        Work::FindUserAgent { goal, .. } => setup_left(goal) + 2,
        Work::ApplyUserAgent { goal, .. } => setup_left(goal) + 1,
        Work::ApplyStealth { goal, .. } => setup_left(goal),
        Work::OpenPage { .. } => 1,
        Work::CloseTarget { .. } => 1,
        Work::Dispose { .. } => 2,
        Work::Forget { .. } => 1,
        Work::Done(_) => 0,
        Work::Failed(_) => 0,
    }
}

/// Whatever news come, fewer steps are left after them: all work ends, after
/// twelve steps at most.
pub proof fn law_work_ends(reg: RegistryView, task: TaskView, news: ReportView)
    requires
        suits(task, news),
    ensures
        work_left(next_task(reg, task, news).1) < work_left(task) <= 12,
{
}

/// A session that Chrome does not know is refused, whatever is wanted of it:
/// no tab is listed, opened or closed, and what is remembered stays as it is.
pub proof fn law_unknown_session_is_refused(
    reg: RegistryView,
    session_id: Seq<char>,
    goal: Goal<Seq<char>>,
    all: Seq<TargetView>,
    contexts: Seq<Seq<char>>,
)
    requires
        !has_tabs(pages_of(all), session_id),
        !contexts.contains(session_id),
    ensures
        ({
            let first = next_task(reg, start(session_id, goal), News::Targets(Ok(all)));
            &&& first == (reg, TaskView::FindContext { session_id, goal })
            &&& next_task(reg, first.1, News::Contexts(Ok(contexts))) == (
                reg,
                refused(Failure::SessionNotFound { session_id }),
            )
        }),
{
}

/// A session that Chrome knows goes on, be it by its tabs or by its context
/// alone.
pub proof fn law_known_session_goes_on(
    reg: RegistryView,
    session_id: Seq<char>,
    goal: Goal<Seq<char>>,
    all: Seq<TargetView>,
    contexts: Seq<Seq<char>>,
)
    ensures
        has_tabs(pages_of(all), session_id) ==> next_task(
            reg,
            start(session_id, goal),
            News::Targets(Ok(all)),
        ) == (reg, TaskView::Touch { session_id, goal }),
        contexts.contains(session_id) ==> next_task(
            reg,
            Work::FindContext { session_id, goal },
            News::Contexts(Ok(contexts)),
        ) == (reg, TaskView::Touch { session_id, goal }),
{
}

/// The ids of the tabs that Chrome says are open in a session.
pub open spec fn open_ids(all: Seq<TargetView>, session_id: Seq<char>) -> Seq<Seq<char>> {
    ids(session_pages(pages_of(all), session_id))
}

/// What the step that lists the tabs leads to.
pub open spec fn listed(
    reg: RegistryView,
    session_id: Seq<char>,
    goal: Goal<Seq<char>>,
    all: Seq<TargetView>,
) -> (RegistryView, TaskView) {
    next_task(reg, Work::ListTabs { session_id, goal }, News::Targets(Ok(all)))
}

/// What Chrome says of an id is said of a target with that id.
proof fn lemma_info_has_id(pages: Seq<TargetView>, id: Seq<char>)
    requires
        ids(pages).contains(id),
    ensures
        info_of(pages, id).target_id == id,
    decreases pages.len(),
{
    let k = choose|k: int| 0 <= k < ids(pages).len() && ids(pages)[k] == id;
    assert(pages[k].target_id == id);
    if pages.last().target_id != id {
        assert(k < pages.len() - 1);
        assert(ids(pages.drop_last())[k] == id);
        lemma_info_has_id(pages.drop_last(), id);
    }
}

/// The tabs that are listed have the ids of the order.
proof fn lemma_tabs_have_ids(reg: RegistryView, session_id: Seq<char>, all: Seq<TargetView>)
    requires
        reg.wf(),
    ensures
        ({
            let current = session_pages(pages_of(all), session_id);
            let after = reg.reconciled(session_id, ids(current));
            &&& ids(tabs_of(after, session_id, current)) == after.order_of(session_id)
            &&& after.order_of(session_id) == new_order(reg.order_of(session_id), ids(current))
        }),
{
    let current = session_pages(pages_of(all), session_id);
    let after = reg.reconciled(session_id, ids(current));
    let order = after.order_of(session_id);
    assert(reg.order_of(session_id).no_duplicates());
    law_order_is_the_open_tabs(reg.order_of(session_id), ids(current));
    let tabs = tabs_of(after, session_id, current);
    assert forall|i: int| 0 <= i < order.len() implies ids(tabs)[i] == order[i] by {
        assert(order.contains(order[i]));
        lemma_info_has_id(current, order[i]);
    }
    assert(ids(tabs) =~= order);
}

/// Only tabs of the session that are open are ever opened or closed.
pub proof fn law_only_open_tabs_are_touched(
    reg: RegistryView,
    session_id: Seq<char>,
    goal: Goal<Seq<char>>,
    all: Seq<TargetView>,
)
    requires
        reg.wf(),
    ensures
        match listed(reg, session_id, goal, all).1 {
            Work::OpenPage { target_id, .. } => open_ids(all, session_id).contains(target_id),
            Work::CloseTarget { target_id, .. } => open_ids(all, session_id).contains(target_id),
            Work::Done(Outcome::Target { target_id }) => open_ids(all, session_id).contains(
                target_id,
            ),
            _ => true,
        },
{
    let current = session_pages(pages_of(all), session_id);
    let after = reg.reconciled(session_id, ids(current));
    let order = after.order_of(session_id);
    let tabs = tabs_of(after, session_id, current);
    lemma_tabs_have_ids(reg, session_id, all);
    law_order_is_the_open_tabs(reg.order_of(session_id), ids(current));
    law_active_is_open(reg.active_of(session_id), reg.order_of(session_id), ids(current));
    assert forall|i: int| 0 <= i < tabs.len() implies ids(current).contains(
        (#[trigger] tabs[i]).target_id,
    ) by {
        assert(ids(tabs)[i] == tabs[i].target_id);
        assert(order.contains(order[i]));
    }
}

/// An index means the same tab for every call while the same tabs are open, in
/// whatever order Chrome lists them: what stands in a listing at an index is
/// what is opened, switched to or closed by it.
pub proof fn law_index_means_one_tab(
    reg: RegistryView,
    session_id: Seq<char>,
    all: Seq<TargetView>,
    again: Seq<TargetView>,
    index: usize,
)
    requires
        reg.wf(),
        forall|id: Seq<char>|
            open_ids(all, session_id).contains(id) <==> open_ids(again, session_id).contains(id),
        listed(reg, session_id, Goal::Tabs, all).1 matches Work::Done(
            Outcome::Tabs { tabs, .. },
        ) && index < tabs.len(),
    ensures
        ({
            let (after, first) = listed(reg, session_id, Goal::Tabs, all);
            let target_id = first->Done_0->tabs[index as int].target_id;
            &&& listed(after, session_id, Goal::PageAt { index }, again).1 == (TaskView::OpenPage {
                session_id,
                goal: Goal::PageAt { index },
                target_id,
            })
            &&& listed(after, session_id, Goal::SwitchTab { index }, again).1 == (TaskView::OpenPage {
                session_id,
                goal: Goal::SwitchTab { index },
                target_id,
            })
            &&& listed(after, session_id, Goal::CloseTab { index }, again).1
                == (TaskView::CloseTarget { session_id, target_id })
        }),
{
    let order = reg.order_of(session_id);
    let live = open_ids(all, session_id);
    let after = reg.reconciled(session_id, live);
    assert(order.no_duplicates());
    law_order_is_the_open_tabs(order, live);
    law_order_is_stable(order, live, open_ids(again, session_id));
    lemma_tabs_have_ids(reg, session_id, all);
    assert(after.order_of(session_id) == new_order(order, live));
    assert(after.wf());
    lemma_tabs_have_ids(after, session_id, again);
    let tabs = tabs_of(after, session_id, session_pages(pages_of(all), session_id));
    let last = after.reconciled(session_id, open_ids(again, session_id));
    let tabs2 = tabs_of(last, session_id, session_pages(pages_of(again), session_id));
    assert(ids(tabs) == ids(tabs2));
    assert(ids(tabs)[index as int] == tabs[index as int].target_id);
    assert(ids(tabs2)[index as int] == tabs2[index as int].target_id);
}

/// The tab that was switched to is the one to work on from then on, while it is
/// open; and so is a page that was opened.
pub proof fn law_switched_tab_is_active(
    reg: RegistryView,
    session_id: Seq<char>,
    index: usize,
    url: Option<Seq<char>>,
    target_id: Seq<char>,
    all: Seq<TargetView>,
)
    requires
        open_ids(all, session_id).contains(target_id),
    ensures
        ({
            let after = next_task(
                reg,
                Work::OpenPage { session_id, goal: Goal::SwitchTab { index }, target_id },
                News::Answer(Ok(())),
            ).0;
            let opened = next_task(
                reg,
                Work::ApplyStealth { session_id, goal: Goal::NewPage { url }, target_id },
                News::Answer(Ok(())),
            ).0;
            let wanted = TaskView::OpenPage { session_id, goal: Goal::ActivePage, target_id };
            &&& listed(after, session_id, Goal::ActivePage, all).1 == wanted
            &&& listed(opened, session_id, Goal::ActivePage, all).1 == wanted
        }),
{
}

/// A session that has open tabs has one active tab, and every operation on the
/// active tab means that one: it is the one that a listing marks, the one whose
/// page is opened, and the one that is handed to a human. It is open, and listing
/// the tabs again does not change which it is.
pub proof fn law_active_tab_is_one(
    reg: RegistryView,
    session_id: Seq<char>,
    all: Seq<TargetView>,
)
    requires
        reg.wf(),
        open_ids(all, session_id).len() > 0,
    ensures
        match listed(reg, session_id, Goal::Tabs, all).1 {
            Work::Done(Outcome::Tabs { active: Some(target_id), .. }) => {
                let after = listed(reg, session_id, Goal::Tabs, all).0;
                &&& open_ids(all, session_id).contains(target_id)
                &&& listed(reg, session_id, Goal::ActivePage, all).1 == (TaskView::OpenPage {
                    session_id,
                    goal: Goal::ActivePage,
                    target_id,
                })
                &&& listed(reg, session_id, Goal::ActiveTarget, all).1 == TaskView::Done(
                    Outcome::Target { target_id },
                )
                &&& listed(reg, session_id, Goal::TargetAgain, all).1 == TaskView::Done(
                    Outcome::Target { target_id },
                )
                &&& listed(after, session_id, Goal::ActivePage, all).1 == (TaskView::OpenPage {
                    session_id,
                    goal: Goal::ActivePage,
                    target_id,
                })
                &&& listed(after, session_id, Goal::ActiveTarget, all).1 == TaskView::Done(
                    Outcome::Target { target_id },
                )
            },
            _ => false,
        },
{
    let live = open_ids(all, session_id);
    let order = reg.order_of(session_id);
    let after = reg.reconciled(session_id, live);
    assert(order.no_duplicates());
    law_order_is_the_open_tabs(order, live);
    law_active_is_open(reg.active_of(session_id), order, live);
    assert(live.contains(live[0]));
    assert(new_order(order, live).contains(live[0]));
    assert(after.order_of(session_id) == new_order(order, live));
}

/// The tab that was switched to, or a page that was opened, is the one that is
/// handed to a human and the one that a listing marks, while it is open.
pub proof fn law_switched_tab_is_handed_out(
    reg: RegistryView,
    session_id: Seq<char>,
    index: usize,
    url: Option<Seq<char>>,
    target_id: Seq<char>,
    all: Seq<TargetView>,
)
    requires
        open_ids(all, session_id).contains(target_id),
    ensures
        ({
            let switched = next_task(
                reg,
                Work::OpenPage { session_id, goal: Goal::SwitchTab { index }, target_id },
                News::Answer(Ok(())),
            ).0;
            let opened = next_task(
                reg,
                Work::ApplyStealth { session_id, goal: Goal::NewPage { url }, target_id },
                News::Answer(Ok(())),
            ).0;
            let made = next_task(
                reg,
                Work::ApplyStealth { session_id, goal: Goal::TargetOfNewPage, target_id },
                News::Answer(Ok(())),
            ).0;
            let wanted = TaskView::Done(Outcome::Target { target_id });
            &&& listed(switched, session_id, Goal::ActiveTarget, all).1 == wanted
            &&& listed(opened, session_id, Goal::ActiveTarget, all).1 == wanted
            &&& listed(made, session_id, Goal::TargetAgain, all).1 == wanted
            &&& listed(switched, session_id, Goal::Tabs, all).1 matches Work::Done(
                Outcome::Tabs { active, .. },
            ) && active == Some(target_id)
            &&& listed(opened, session_id, Goal::Tabs, all).1 matches Work::Done(
                Outcome::Tabs { active, .. },
            ) && active == Some(target_id)
        }),
{
}

/// Only switching to a tab, opening one and closing one change which is active: to
/// work on the tab at an index leaves the active one as it is.
pub proof fn law_other_pages_stay_in_the_background(
    reg: RegistryView,
    session_id: Seq<char>,
    index: usize,
    target_id: Seq<char>,
)
    ensures
        next_task(
            reg,
            Work::OpenPage { session_id, goal: Goal::PageAt { index }, target_id },
            News::Answer(Ok(())),
        ) == (reg, TaskView::Done(Outcome::Page { target_id })),
        next_task(
            reg,
            Work::OpenPage { session_id, goal: Goal::ActivePage, target_id },
            News::Answer(Ok(())),
        ) == (reg, TaskView::Done(Outcome::Page { target_id })),
        next_task(
            reg,
            Work::OpenPage { session_id, goal: Goal::SwitchTab { index }, target_id },
            News::Answer(Ok(())),
        ).1 == TaskView::Done(Outcome::Page { target_id }),
{
}

/// A listing holds each open tab of the session once, as Chrome describes it, and
/// nothing else.
pub proof fn law_listing_is_the_open_tabs(
    reg: RegistryView,
    session_id: Seq<char>,
    all: Seq<TargetView>,
)
    requires
        reg.wf(),
    ensures
        match listed(reg, session_id, Goal::Tabs, all).1 {
            Work::Done(Outcome::Tabs { tabs, .. }) => {
                &&& ids(tabs).no_duplicates()
                &&& forall|id: Seq<char>| #[trigger]
                    ids(tabs).contains(id) <==> open_ids(all, session_id).contains(id)
                &&& forall|i: int|
                    0 <= i < tabs.len() ==> all.contains(#[trigger] tabs[i]) && tabs[i].kind
                        == "page"@ && tabs[i].context_id == Some(session_id)
            },
            _ => false,
        },
{
    let current = session_pages(pages_of(all), session_id);
    let after = reg.reconciled(session_id, ids(current));
    let order = after.order_of(session_id);
    let tabs = tabs_of(after, session_id, current);
    lemma_tabs_have_ids(reg, session_id, all);
    assert(reg.order_of(session_id).no_duplicates());
    law_order_is_the_open_tabs(reg.order_of(session_id), ids(current));
    assert forall|i: int| 0 <= i < tabs.len() implies all.contains(#[trigger] tabs[i])
        && tabs[i].kind == "page"@ && tabs[i].context_id == Some(session_id) by {
        assert(order.contains(order[i]));
        lemma_info_is_there(current, order[i]);
        let page = |t: TargetView| t.kind == "page"@;
        let its = |t: TargetView| belongs(t, session_id);
        lemma_filtered(pages_of(all), its, tabs[i]);
        lemma_filtered(all, page, tabs[i]);
    }
}

/// What a filter leaves was there and passes it.
proof fn lemma_filtered<A>(s: Seq<A>, keep: spec_fn(A) -> bool, x: A)
    requires
        s.filter(keep).contains(x),
    ensures
        s.contains(x),
        keep(x),
    decreases s.len(),
{
    reveal(Seq::filter);
    if s.len() > 0 {
        let rest = s.drop_last();
        if rest.filter(keep).contains(x) {
            lemma_filtered(rest, keep, x);
            let k = choose|k: int| 0 <= k < rest.len() && rest[k] == x;
            assert(s[k] == x);
        } else {
            assert(s.filter(keep) =~= if keep(s.last()) {
                rest.filter(keep).push(s.last())
            } else {
                rest.filter(keep)
            });
            let k = choose|k: int| 0 <= k < s.filter(keep).len() && s.filter(keep)[k] == x;
            assert(k == rest.filter(keep).len()) by {
                if k < rest.filter(keep).len() {
                    assert(rest.filter(keep)[k] == x);
                }
            }
            assert(s[s.len() - 1] == x);
        }
    }
}

/// What Chrome says of an id that it lists is one of the things that it lists.
proof fn lemma_info_is_there(pages: Seq<TargetView>, id: Seq<char>)
    requires
        ids(pages).contains(id),
    ensures
        pages.contains(info_of(pages, id)),
    decreases pages.len(),
{
    let k = choose|k: int| 0 <= k < ids(pages).len() && ids(pages)[k] == id;
    assert(pages[k].target_id == id);
    if pages.last().target_id != id {
        let rest = pages.drop_last();
        assert(ids(rest)[k] == id);
        lemma_info_is_there(rest, id);
        let j = choose|j: int| 0 <= j < rest.len() && rest[j] == info_of(rest, id);
        assert(pages[j] == info_of(pages, id));
    } else {
        assert(pages[pages.len() - 1] == info_of(pages, id));
    }
}

/// An index without a tab is refused, with how many tabs there are, and no tab is
/// opened or closed for it.
pub proof fn law_index_without_a_tab(
    reg: RegistryView,
    session_id: Seq<char>,
    all: Seq<TargetView>,
    index: usize,
)
    ensures
        listed(reg, session_id, Goal::Tabs, all).1 matches Work::Done(
            Outcome::Tabs { tabs, .. },
        ) && (index >= tabs.len() ==> {
            let no = refused(Failure::NoTab { index, count: tabs.len() as usize });
            &&& listed(reg, session_id, Goal::PageAt { index }, all).1 == no
            &&& listed(reg, session_id, Goal::SwitchTab { index }, all).1 == no
            &&& listed(reg, session_id, Goal::CloseTab { index }, all).1 == no
        }),
{
}

/// To close a tab asks Chrome to close that very tab, and then it has no place any
/// more and is not the active one.
pub proof fn law_closed_tab_is_dropped(
    reg: RegistryView,
    session_id: Seq<char>,
    target_id: Seq<char>,
)
    ensures
        ({
            let (after, last) = next_task(
                reg,
                Work::CloseTarget { session_id, target_id },
                News::Answer(Ok(())),
            );
            &&& last == TaskView::Done(Outcome::Closed)
            &&& !after.order_of(session_id).contains(target_id)
            &&& after.active_of(session_id) != Some(target_id)
            &&& reg.active_of(session_id) != Some(target_id) ==> after.active_of(session_id)
                == reg.active_of(session_id)
        }),
{
    let order = reg.order_of(session_id);
    let keep = other_than(target_id);
    if order.filter(keep).contains(target_id) {
        lemma_filtered(order, keep, target_id);
    }
}

/// A page is opened in the session of the call at the address that is given, or
/// empty; it gets the user agent of its session where one is kept, and the script,
/// and only then is it the page of the call and the active tab.
pub proof fn law_new_page_is_set_up(
    reg: RegistryView,
    session_id: Seq<char>,
    url: Option<Seq<char>>,
    target_id: Seq<char>,
    ua: UaView,
)
    ensures
        ({
            let goal = Goal::NewPage { url };
            let made = next_task(reg, Work::Touch { session_id, goal }, News::Noted);
            let asked = next_task(reg, made.1, News::Created(Ok(target_id)));
            let dressed = next_task(reg, asked.1, News::UserAgent(Some(ua)));
            let plain = next_task(reg, asked.1, News::UserAgent(None));
            let scripted = next_task(reg, dressed.1, News::Answer(Ok(())));
            let done = next_task(reg, scripted.1, News::Answer(Ok(())));
            &&& start(session_id, goal) == (TaskView::FindSession { session_id, goal })
            &&& made == (
                reg,
                TaskView::CreatePage {
                    session_id,
                    goal,
                    url: match url {
                        Some(u) => u,
                        None => "about:blank"@,
                    },
                },
            )
            &&& asked == (reg, TaskView::FindUserAgent { session_id, goal, target_id })
            &&& dressed == (reg, TaskView::ApplyUserAgent { session_id, goal, target_id, ua })
            &&& plain == (reg, TaskView::ApplyStealth { session_id, goal, target_id })
            &&& scripted == plain
            &&& done.1 == TaskView::Done(Outcome::Page { target_id })
            &&& done.0.active_of(session_id) == Some(target_id)
            &&& done.0.order == reg.order
        }),
{
}

/// Where a human is to be handed a session without tabs, an empty page is opened
/// and then the tabs are listed again; if there still is none, that is refused.
pub proof fn law_takeover_opens_a_page(
    reg: RegistryView,
    session_id: Seq<char>,
    target_id: Seq<char>,
    all: Seq<TargetView>,
)
    requires
        reg.wf(),
        open_ids(all, session_id).len() == 0,
    ensures
        ({
            let goal = Goal::TargetOfNewPage;
            &&& listed(reg, session_id, Goal::ActiveTarget, all).1 == start(session_id, goal)
            &&& next_task(reg, Work::Touch { session_id, goal }, News::Noted).1
                == (TaskView::CreatePage { session_id, goal, url: "about:blank"@ })
            &&& next_task(
                reg,
                Work::ApplyStealth { session_id, goal, target_id },
                News::Answer(Ok(())),
            ).1 == (TaskView::ListTabs { session_id, goal: Goal::TargetAgain })
            &&& listed(reg, session_id, Goal::TargetAgain, all).1 == refused(
                Failure::NoPageTarget { session_id },
            )
        }),
{
    let live = open_ids(all, session_id);
    law_active_is_open(reg.active_of(session_id), reg.order_of(session_id), live);
    assert(reg.reconciled(session_id, live).order_of(session_id) == new_order(
        reg.order_of(session_id),
        live,
    ));
}

/// The session that a step is about.
pub open spec fn session_at(task: TaskView) -> Option<Seq<char>> {
    match task {
        Work::FindSession { session_id, .. } => Some(session_id),
        Work::FindContext { session_id, .. } => Some(session_id),
        Work::Touch { session_id, .. } => Some(session_id),
        Work::ListTabs { session_id, .. } => Some(session_id),
        Work::CreatePage { session_id, .. } => Some(session_id),
        Work::FindUserAgent { session_id, .. } => Some(session_id),
        Work::ApplyUserAgent { session_id, .. } => Some(session_id),
        Work::ApplyStealth { session_id, .. } => Some(session_id),
        Work::OpenPage { session_id, .. } => Some(session_id),
        Work::CloseTarget { session_id, .. } => Some(session_id),
        Work::Dispose { session_id } => Some(session_id),
        Work::Forget { session_id } => Some(session_id),
        Work::Done(Outcome::Context { session_id }) => Some(session_id),
        _ => None,
    }
}

/// Work on a session stays on that session, and touches what is remembered of no
/// other.
pub proof fn law_work_stays_on_its_session(
    reg: RegistryView,
    task: TaskView,
    news: ReportView,
    other: Seq<char>,
)
    requires
        session_at(task) is Some,
        other != session_at(task)->0,
    ensures
        session_at(next_task(reg, task, news).1) is Some ==> session_at(
            next_task(reg, task, news).1,
        ) == session_at(task),
        next_task(reg, task, news).0.order_of(other) == reg.order_of(other),
        next_task(reg, task, news).0.active_of(other) == reg.active_of(other),
{
}

/// A step that fails ends the work with that error, behind the name of the
/// DevTools command that failed, and what is remembered stays as it is.
pub proof fn law_work_errors_come_out(
    reg: RegistryView,
    session_id: Seq<char>,
    goal: Goal<Seq<char>>,
    target_id: Seq<char>,
    url: Seq<char>,
    ua: UaView,
    e: Seq<Seq<char>>,
)
    ensures
        ({
            let said = |what: Seq<char>| (reg, TaskView::Failed(seq![what] + e));
            let no = News::Answer(Err(e));
            &&& next_task(reg, Work::FindSession { session_id, goal }, News::Targets(Err(e)))
                == said("Target.getTargets"@)
            &&& next_task(reg, Work::ListTabs { session_id, goal }, News::Targets(Err(e)))
                == said("Target.getTargets"@)
            &&& next_task(reg, Work::FindContext { session_id, goal }, News::Contexts(Err(e)))
                == said("Target.getBrowserContexts"@)
            &&& next_task(
                reg,
                Work::CreatePage { session_id, goal, url },
                News::Created(Err(e)),
            ) == said("Target.createTarget"@)
            &&& next_task(reg, Work::ApplyUserAgent { session_id, goal, target_id, ua }, no)
                == said("Network.setUserAgentOverride"@)
            &&& next_task(reg, Work::ApplyStealth { session_id, goal, target_id }, no) == said(
                "Page.addScriptToEvaluateOnNewDocument"@,
            )
            &&& next_task(reg, Work::OpenPage { session_id, goal, target_id }, no) == said(
                "Browser::get_page"@,
            )
            &&& next_task(reg, Work::CloseTarget { session_id, target_id }, no) == said(
                "Target.closeTarget"@,
            )
            &&& next_task(reg, Work::Dispose { session_id }, no) == said(
                "Target.disposeBrowserContext"@,
            )
        }),
{
}

/// Once a session is known to exist, what follows is what was wanted of it: only
/// to know that, to open a page, or to see its tabs.
pub proof fn law_goal_is_followed(
    reg: RegistryView,
    session_id: Seq<char>,
    goal: Goal<Seq<char>>,
)
    ensures
        ({
            let next = next_task(reg, Work::Touch { session_id, goal }, News::Noted);
            &&& next.0 == reg
            &&& goal is Context ==> next.1 == TaskView::Done(Outcome::Context { session_id })
            &&& goal is Tabs || goal is ActivePage || goal is ActiveTarget || goal is PageAt
                || goal is SwitchTab || goal is CloseTab || goal is TargetAgain ==> next.1
                == (TaskView::ListTabs { session_id, goal })
        }),
{
}

/// Where no tab is open, the page to work on is a new empty one.
pub proof fn law_page_is_opened_where_none_is(
    reg: RegistryView,
    session_id: Seq<char>,
    all: Seq<TargetView>,
)
    requires
        reg.wf(),
        open_ids(all, session_id).len() == 0,
    ensures
        listed(reg, session_id, Goal::ActivePage, all).1 == start(
            session_id,
            Goal::NewPage { url: None },
        ),
        next_task(
            reg,
            Work::Touch { session_id, goal: Goal::NewPage { url: None } },
            News::Noted,
        ).1 == (TaskView::CreatePage {
            session_id,
            goal: Goal::NewPage { url: None },
            url: "about:blank"@,
        }),
{
    let live = open_ids(all, session_id);
    law_active_is_open(reg.active_of(session_id), reg.order_of(session_id), live);
    assert(reg.reconciled(session_id, live).order_of(session_id) == new_order(
        reg.order_of(session_id),
        live,
    ));
}

/// What is remembered stays well-formed, whatever is done.
pub proof fn law_registry_stays_well_formed(reg: RegistryView, task: TaskView, news: ReportView)
    requires
        reg.wf(),
    ensures
        next_task(reg, task, news).0.wf(),
{
    match (task, news) {
        (Work::ListTabs { session_id, .. }, News::Targets(Ok(all))) => {
            law_order_is_the_open_tabs(reg.order_of(session_id), open_ids(all, session_id));
        },
        (Work::CloseTarget { session_id, target_id }, _) => {
            if reg.order.contains_key(session_id) {
                crate::sessions::tabs::lemma_without(reg.order[session_id], target_id);
            }
        },
        _ => {},
    }
}

/// Closing a session leaves nothing of it behind.
pub proof fn law_closed_session_is_forgotten(reg: RegistryView, session_id: Seq<char>)
    ensures
        ({
            let first = next_task(reg, Work::Dispose { session_id }, News::Answer(Ok(())));
            let last = next_task(first.0, first.1, News::Noted);
            &&& last.1 == TaskView::Done(Outcome::Closed)
            &&& last.0.order_of(session_id) == Seq::<Seq<char>>::empty()
            &&& last.0.active_of(session_id) is None
        }),
{
}

/// A session is known by any tab of its own, and by nothing else that Chrome lists.
pub proof fn law_session_is_known_by_a_tab(
    all: Seq<TargetView>,
    t: TargetView,
    session_id: Seq<char>,
)
    ensures
        !has_tabs(pages_of(seq![]), session_id),
        has_tabs(pages_of(all.push(t)), session_id) <==> has_tabs(pages_of(all), session_id) || (
        t.kind == "page"@ && t.context_id == Some(session_id)),
{
    law_tabs_are_pages(all, t, session_id);
    let before = pages_of(all);
    let after = pages_of(all.push(t));
    if has_tabs(before, session_id) {
        let i = choose|i: int|
            0 <= i < before.len() && belongs(#[trigger] before[i], session_id);
        assert(after[i] == before[i]);
    }
    if t.kind == "page"@ {
        assert(after[before.len() as int] == t);
        if has_tabs(after, session_id) && !has_tabs(before, session_id) {
            let i = choose|i: int|
                0 <= i < after.len() && belongs(#[trigger] after[i], session_id);
            if i < before.len() {
                assert(before[i] == after[i]);
            }
        }
    }
}

/// A tab counts as opened exactly where its own page could be opened, and the tabs
/// keep their order.
pub proof fn law_opened_tabs_are_named(tabs: Seq<TargetView>, opened: Seq<bool>, t: TargetView)
    requires
        tabs.len() == opened.len(),
    ensures
        opened_ids(seq![], seq![]) == Seq::<Seq<char>>::empty(),
        opened_ids(tabs.push(t), opened.push(true)) == opened_ids(tabs, opened).push(t.target_id),
        opened_ids(tabs.push(t), opened.push(false)) == opened_ids(tabs, opened),
{
    assert(tabs.push(t).drop_last() =~= tabs);
    assert(opened.push(true).drop_last() =~= opened);
    assert(opened.push(false).drop_last() =~= opened);
}

}
