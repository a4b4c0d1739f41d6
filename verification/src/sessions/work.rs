//! What is done to find, open, switch and close the tabs of a session, step by
//! step.
//!
//! Chrome lies outside: a [`Work`] says what Chrome is to be asked next, a
//! [`News`] what came of it, and the last step is the result or the error. The
//! [`SessionManager`] holds what is remembered between two calls.
use vstd::prelude::*;

use crate::error::{message, ErrorChain, Failure};
use crate::sessions::open::{open_view, OpenTask, OpenView, Opening};
use crate::sessions::tabs::{info_of, new_active, RegistryView, TabRegistry};
use crate::sessions::{
    belongs, belongs_to, ids, infos, is_session_list, page_targets, pages_of, session_list,
    session_pages, targets, SessionInfo, Target, TargetView, Viewport,
};
use crate::text::{opt_str_text, opt_text, same_text, texts};
use crate::user_agent::{UaOverride, UaView};

verus! {

/// What a caller wants of a session.
pub enum Goal<S> {
    /// To know that it exists.
    Context,
    /// Its tabs.
    Tabs,
    /// A page to work on: the active tab, or a new one where there is none.
    ActivePage,
    /// The id of the active tab, opening one where there is none.
    ActiveTarget,
    /// The page at an index.
    PageAt { index: usize },
    /// The page at an index, from now on the active one.
    SwitchTab { index: usize },
    /// To have the tab at an index closed.
    CloseTab { index: usize },
    /// A new page, from now on the active one.
    NewPage { url: Option<S> },
    /// A new page, and then the id of the active tab.
    TargetOfNewPage,
    /// The id of the active tab, now that one was opened.
    TargetAgain,
}

/// What comes out of the work.
pub enum Outcome<S, T> {
    /// The session exists.
    Context { session_id: S },
    /// The tabs in their order, and the active one.
    Tabs { tabs: T, active: Option<S> },
    /// The page to work on.
    Page { target_id: S },
    /// The id of the active tab.
    Target { target_id: S },
    /// The tab or the session is closed.
    Closed,
}

/// What is to be done next, over the types of texts, user agents, outcomes and
/// errors.
pub enum Work<S, U, O, E> {
    /// Ask Chrome for its targets, to see whether the session has tabs.
    FindSession { session_id: S, goal: Goal<S> },
    /// Ask Chrome for its contexts: a session without tabs exists too.
    FindContext { session_id: S, goal: Goal<S> },
    /// Note that the session was used.
    Touch { session_id: S, goal: Goal<S> },
    /// Ask Chrome for its targets, to bring the tabs in line with them.
    ListTabs { session_id: S, goal: Goal<S> },
    /// Open a page in the session.
    CreatePage { session_id: S, goal: Goal<S>, url: S },
    /// Look up the user agent that the session was opened with.
    FindUserAgent { session_id: S, goal: Goal<S>, target_id: S },
    /// Give the page its user agent.
    ApplyUserAgent { session_id: S, goal: Goal<S>, target_id: S, ua: U },
    /// Give the page the script that runs before its own.
    ApplyStealth { session_id: S, goal: Goal<S>, target_id: S },
    /// Take hold of the page of a target.
    OpenPage { session_id: S, goal: Goal<S>, target_id: S },
    /// Close a target.
    CloseTarget { session_id: S, target_id: S },
    /// Dispose of the session's context.
    Dispose { session_id: S },
    /// Drop what is kept of the session.
    Forget { session_id: S },
    /// The work is done.
    Done(O),
    /// The work has failed.
    Failed(E),
}

/// What came of a step, over the types of texts, target lists, context lists,
/// user agents and errors.
pub enum News<S, T, C, U, E> {
    /// All targets that Chrome has.
    Targets(Result<T, E>),
    /// The ids of all contexts that Chrome has.
    Contexts(Result<C, E>),
    /// The id of the target that was created.
    Created(Result<S, E>),
    /// The session's user agent, if one is kept.
    UserAgent(Option<U>),
    /// Whether Chrome did what it was asked.
    Answer(Result<(), E>),
    /// It is noted.
    Noted,
}

/// A step as it is taken.
pub type Task = Work<String, UaOverride, Outcome<String, Vec<Target>>, ErrorChain>;

/// News as they come.
pub type Report = News<String, Vec<Target>, Vec<String>, UaOverride, ErrorChain>;

/// What a step says.
pub type TaskView = Work<Seq<char>, UaView, Outcome<Seq<char>, Seq<TargetView>>, Seq<Seq<char>>>;

/// What news say.
pub type ReportView = News<
    Seq<char>,
    Seq<TargetView>,
    Seq<Seq<char>>,
    UaView,
    Seq<Seq<char>>,
>;

/// What a goal says.
pub open spec fn goal_view(g: Goal<String>) -> Goal<Seq<char>> {
    match g {
        Goal::Context => Goal::Context,
        Goal::Tabs => Goal::Tabs,
        Goal::ActivePage => Goal::ActivePage,
        Goal::ActiveTarget => Goal::ActiveTarget,
        Goal::PageAt { index } => Goal::PageAt { index },
        Goal::SwitchTab { index } => Goal::SwitchTab { index },
        Goal::CloseTab { index } => Goal::CloseTab { index },
        Goal::NewPage { url } => Goal::NewPage { url: opt_text(url) },
        Goal::TargetOfNewPage => Goal::TargetOfNewPage,
        Goal::TargetAgain => Goal::TargetAgain,
    }
}

/// What an outcome says.
pub open spec fn outcome_view(o: Outcome<String, Vec<Target>>) -> Outcome<
    Seq<char>,
    Seq<TargetView>,
> {
    match o {
        Outcome::Context { session_id } => Outcome::Context { session_id: session_id@ },
        Outcome::Tabs { tabs, active } => Outcome::Tabs {
            tabs: targets(tabs@),
            active: opt_text(active),
        },
        Outcome::Page { target_id } => Outcome::Page { target_id: target_id@ },
        Outcome::Target { target_id } => Outcome::Target { target_id: target_id@ },
        Outcome::Closed => Outcome::Closed,
    }
}

/// What a step says.
pub open spec fn task_view(t: Task) -> TaskView {
    match t {
        Work::FindSession { session_id, goal } => Work::FindSession {
            session_id: session_id@,
            goal: goal_view(goal),
        },
        Work::FindContext { session_id, goal } => Work::FindContext {
            session_id: session_id@,
            goal: goal_view(goal),
        },
        Work::Touch { session_id, goal } => Work::Touch {
            session_id: session_id@,
            goal: goal_view(goal),
        },
        Work::ListTabs { session_id, goal } => Work::ListTabs {
            session_id: session_id@,
            goal: goal_view(goal),
        },
        Work::CreatePage { session_id, goal, url } => Work::CreatePage {
            session_id: session_id@,
            goal: goal_view(goal),
            url: url@,
        },
        Work::FindUserAgent { session_id, goal, target_id } => Work::FindUserAgent {
            session_id: session_id@,
            goal: goal_view(goal),
            target_id: target_id@,
        },
        Work::ApplyUserAgent { session_id, goal, target_id, ua } => Work::ApplyUserAgent {
            session_id: session_id@,
            goal: goal_view(goal),
            target_id: target_id@,
            ua: ua@,
        },
        Work::ApplyStealth { session_id, goal, target_id } => Work::ApplyStealth {
            session_id: session_id@,
            goal: goal_view(goal),
            target_id: target_id@,
        },
        Work::OpenPage { session_id, goal, target_id } => Work::OpenPage {
            session_id: session_id@,
            goal: goal_view(goal),
            target_id: target_id@,
        },
        Work::CloseTarget { session_id, target_id } => Work::CloseTarget {
            session_id: session_id@,
            target_id: target_id@,
        },
        Work::Dispose { session_id } => Work::Dispose { session_id: session_id@ },
        Work::Forget { session_id } => Work::Forget { session_id: session_id@ },
        Work::Done(o) => Work::Done(outcome_view(o)),
        Work::Failed(e) => Work::Failed(e@),
    }
}

/// What news say.
pub open spec fn report_view(n: Report) -> ReportView {
    match n {
        News::Targets(r) => News::Targets(
            match r {
                Ok(v) => Ok(targets(v@)),
                Err(e) => Err(e@),
            },
        ),
        News::Contexts(r) => News::Contexts(
            match r {
                Ok(v) => Ok(texts(v@)),
                Err(e) => Err(e@),
            },
        ),
        News::Created(r) => News::Created(
            match r {
                Ok(s) => Ok(s@),
                Err(e) => Err(e@),
            },
        ),
        News::UserAgent(u) => News::UserAgent(
            match u {
                Some(u) => Some(u@),
                None => None,
            },
        ),
        News::Answer(r) => News::Answer(
            match r {
                Ok(_) => Ok(()),
                Err(e) => Err(e@),
            },
        ),
        News::Noted => News::Noted,
    }
}

/// An error with one more context around it.
pub open spec fn within(what: Seq<char>, e: Seq<Seq<char>>) -> Seq<Seq<char>> {
    seq![what] + e
}

/// A refusal of the library's own.
pub open spec fn refused(f: Failure<Seq<char>>) -> TaskView {
    Work::Failed(seq![message(f)])
}

/// The session has tabs among these.
pub open spec fn has_tabs(pages: Seq<TargetView>, session_id: Seq<char>) -> bool {
    exists|i: int| 0 <= i < pages.len() && belongs(#[trigger] pages[i], session_id)
}

/// The address that a new page opens with.
pub open spec fn page_url(url: Option<Seq<char>>) -> Seq<char> {
    match url {
        Some(u) => u,
        None => "about:blank"@,
    }
}

/// What follows once the session is known to exist.
pub open spec fn after_touch(session_id: Seq<char>, goal: Goal<Seq<char>>) -> TaskView {
    match goal {
        Goal::Context => Work::Done(Outcome::Context { session_id }),
        Goal::NewPage { url } => Work::CreatePage { session_id, goal, url: page_url(url) },
        Goal::TargetOfNewPage => Work::CreatePage { session_id, goal, url: "about:blank"@ },
        _ => Work::ListTabs { session_id, goal },
    }
}

/// What follows once the tabs are in line with what is open.
pub open spec fn after_tabs(
    session_id: Seq<char>,
    goal: Goal<Seq<char>>,
    tabs: Seq<TargetView>,
    active: Option<Seq<char>>,
) -> TaskView {
    match goal {
        Goal::ActivePage => match active {
            Some(target_id) => Work::OpenPage { session_id, goal, target_id },
            None => Work::FindSession { session_id, goal: Goal::NewPage { url: None } },
        },
        Goal::ActiveTarget => match active {
            Some(target_id) => Work::Done(Outcome::Target { target_id }),
            None => Work::FindSession { session_id, goal: Goal::TargetOfNewPage },
        },
        Goal::TargetAgain => match active {
            Some(target_id) => Work::Done(Outcome::Target { target_id }),
            None => refused(Failure::NoPageTarget { session_id }),
        },
        Goal::PageAt { index } => if index < tabs.len() {
            Work::OpenPage { session_id, goal, target_id: tabs[index as int].target_id }
        } else {
            refused(Failure::NoTab { index, count: tabs.len() as usize })
        },
        Goal::SwitchTab { index } => if index < tabs.len() {
            Work::OpenPage { session_id, goal, target_id: tabs[index as int].target_id }
        } else {
            refused(Failure::NoTab { index, count: tabs.len() as usize })
        },
        Goal::CloseTab { index } => if index < tabs.len() {
            Work::CloseTarget { session_id, target_id: tabs[index as int].target_id }
        } else {
            refused(Failure::NoTab { index, count: tabs.len() as usize })
        },
        _ => Work::Done(Outcome::Tabs { tabs, active }),
    }
}

/// What follows once a new page is set up and is the active one.
pub open spec fn after_new_page(
    session_id: Seq<char>,
    goal: Goal<Seq<char>>,
    target_id: Seq<char>,
) -> TaskView {
    match goal {
        Goal::TargetOfNewPage => Work::ListTabs { session_id, goal: Goal::TargetAgain },
        _ => Work::Done(Outcome::Page { target_id }),
    }
}

/// The news are of the kind that can come of the step.
pub open spec fn suits(task: TaskView, news: ReportView) -> bool {
    match task {
        Work::FindSession { .. } => news is Targets,
        Work::FindContext { .. } => news is Contexts,
        Work::Touch { .. } => news is Noted,
        Work::ListTabs { .. } => news is Targets,
        Work::CreatePage { .. } => news is Created,
        Work::FindUserAgent { .. } => news is UserAgent,
        Work::ApplyUserAgent { .. } => news is Answer,
        Work::ApplyStealth { .. } => news is Answer,
        Work::OpenPage { .. } => news is Answer,
        Work::CloseTarget { .. } => news is Answer,
        Work::Dispose { .. } => news is Answer,
        Work::Forget { .. } => news is Noted,
        Work::Done(_) => false,
        Work::Failed(_) => false,
    }
}

/// The tabs of a session, once the registry is in line with what is open.
pub open spec fn tabs_of(
    reg: RegistryView,
    session_id: Seq<char>,
    current: Seq<TargetView>,
) -> Seq<TargetView> {
    reg.order_of(session_id).map_values(|id: Seq<char>| info_of(current, id))
}

/// The step that follows, and what is remembered from then on.
pub open spec fn next_task(reg: RegistryView, task: TaskView, news: ReportView) -> (
    RegistryView,
    TaskView,
) {
    match (task, news) {
        (Work::FindSession { session_id, goal }, News::Targets(r)) => match r {
            Ok(all) => if has_tabs(pages_of(all), session_id) {
                (reg, Work::Touch { session_id, goal })
            } else {
                (reg, Work::FindContext { session_id, goal })
            },
            Err(e) => (reg, Work::Failed(within("Target.getTargets"@, e))),
        },
        (Work::FindContext { session_id, goal }, News::Contexts(r)) => match r {
            Ok(contexts) => if contexts.contains(session_id) {
                (reg, Work::Touch { session_id, goal })
            } else {
                (reg, refused(Failure::SessionNotFound { session_id }))
            },
            Err(e) => (reg, Work::Failed(within("Target.getBrowserContexts"@, e))),
        },
        (Work::Touch { session_id, goal }, News::Noted) => (reg, after_touch(session_id, goal)),
        (Work::ListTabs { session_id, goal }, News::Targets(r)) => match r {
            Ok(all) => {
                let current = session_pages(pages_of(all), session_id);
                let after = reg.reconciled(session_id, ids(current));
                let active = new_active(
                    reg.active_of(session_id),
                    after.order_of(session_id),
                    ids(current),
                );
                (
                    after,
                    after_tabs(session_id, goal, tabs_of(after, session_id, current), active),
                )
            },
            Err(e) => (reg, Work::Failed(within("Target.getTargets"@, e))),
        },
        (Work::CreatePage { session_id, goal, url }, News::Created(r)) => match r {
            Ok(target_id) => (reg, Work::FindUserAgent { session_id, goal, target_id }),
            Err(e) => (reg, Work::Failed(within("Target.createTarget"@, e))),
        },
        (Work::FindUserAgent { session_id, goal, target_id }, News::UserAgent(u)) => match u {
            Some(ua) => (reg, Work::ApplyUserAgent { session_id, goal, target_id, ua }),
            None => (reg, Work::ApplyStealth { session_id, goal, target_id }),
        },
        (Work::ApplyUserAgent { session_id, goal, target_id, ua }, News::Answer(r)) => match r {
            Ok(_) => (reg, Work::ApplyStealth { session_id, goal, target_id }),
            Err(e) => (reg, Work::Failed(within("Network.setUserAgentOverride"@, e))),
        },
        (Work::ApplyStealth { session_id, goal, target_id }, News::Answer(r)) => match r {
            Ok(_) => (
                reg.activated(session_id, target_id),
                after_new_page(session_id, goal, target_id),
            ),
            Err(e) => (
                reg,
                Work::Failed(within("Page.addScriptToEvaluateOnNewDocument"@, e)),
            ),
        },
        (Work::OpenPage { session_id, goal, target_id }, News::Answer(r)) => match r {
            Ok(_) => (
                if goal is SwitchTab {
                    reg.activated(session_id, target_id)
                } else {
                    reg
                },
                Work::Done(Outcome::Page { target_id }),
            ),
            Err(e) => (reg, Work::Failed(within("Browser::get_page"@, e))),
        },
        (Work::CloseTarget { session_id, target_id }, News::Answer(r)) => match r {
            Ok(_) => (reg.dropped(session_id, target_id), Work::Done(Outcome::Closed)),
            Err(e) => (reg, Work::Failed(within("Target.closeTarget"@, e))),
        },
        (Work::Dispose { session_id }, News::Answer(r)) => match r {
            Ok(_) => (reg, Work::Forget { session_id }),
            Err(e) => (reg, Work::Failed(within("Target.disposeBrowserContext"@, e))),
        },
        (Work::Forget { session_id }, News::Noted) => (
            reg.forgotten(session_id),
            Work::Done(Outcome::Closed),
        ),
        _ => (reg, task),
    }
}

// ---- the steps ------------------------------------------------------------

/// Whether the session has tabs among these.
fn any_tab(pages: &Vec<Target>, session_id: &str) -> (r: bool)
    ensures
        r == has_tabs(targets(pages@), session_id@),
{
    let mut i: usize = 0;
    while i < pages.len()
        invariant
            i <= pages@.len(),
            forall|j: int| 0 <= j < i ==> !belongs(#[trigger] targets(pages@)[j], session_id@),
        decreases pages@.len() - i,
    {
        assert(targets(pages@)[i as int] == pages@[i as int]@);
        if belongs_to(&pages[i], session_id) {
            return true;
        }
        i += 1;
    }
    false
}

/// Whether a context is among these.
fn any_context(contexts: &Vec<String>, session_id: &str) -> (r: bool)
    ensures
        r == texts(contexts@).contains(session_id@),
{
    let mut i: usize = 0;
    while i < contexts.len()
        invariant
            i <= contexts@.len(),
            forall|j: int| 0 <= j < i ==> texts(contexts@)[j] != session_id@,
        decreases contexts@.len() - i,
    {
        assert(texts(contexts@)[i as int] == contexts@[i as int]@);
        if same_text(contexts[i].as_str(), session_id) {
            return true;
        }
        i += 1;
    }
    false
}

/// The work fails with an error that passed through a context.
fn failed(what: &str, e: ErrorChain) -> (r: Task)
    ensures
        task_view(r) == TaskView::Failed(within(what@, e@)),
{
    Work::Failed(e.context(what))
}

/// The work fails with a refusal of the library's own.
fn refuse(f: Failure<String>) -> (r: Task)
    ensures
        task_view(r) == refused(f@),
{
    Work::Failed(ErrorChain::of(&f))
}

/// What follows once the session is known to exist.
fn resume_touched(session_id: String, goal: Goal<String>) -> (r: Task)
    ensures
        task_view(r) == after_touch(session_id@, goal_view(goal)),
{
    match goal {
        Goal::Context => Work::Done(Outcome::Context { session_id }),
        Goal::NewPage { url } => {
            let target_url = match &url {
                Some(u) => u.clone(),
                None => "about:blank".to_string(),
            };
            Work::CreatePage { session_id, goal: Goal::NewPage { url }, url: target_url }
        },
        Goal::TargetOfNewPage => Work::CreatePage {
            session_id,
            goal: Goal::TargetOfNewPage,
            url: "about:blank".to_string(),
        },
        goal => Work::ListTabs { session_id, goal },
    }
}

/// What follows once the tabs are in line with what is open.
fn resume_tabs(
    session_id: String,
    goal: Goal<String>,
    tabs: Vec<Target>,
    active: Option<String>,
) -> (r: Task)
    ensures
        task_view(r) == after_tabs(
            session_id@,
            goal_view(goal),
            targets(tabs@),
            opt_text(active),
        ),
{
    match goal {
        Goal::ActivePage => match active {
            Some(target_id) => Work::OpenPage { session_id, goal: Goal::ActivePage, target_id },
            None => Work::FindSession { session_id, goal: Goal::NewPage { url: None } },
        },
        Goal::ActiveTarget => match active {
            Some(target_id) => Work::Done(Outcome::Target { target_id }),
            None => Work::FindSession { session_id, goal: Goal::TargetOfNewPage },
        },
        Goal::TargetAgain => match active {
            Some(target_id) => Work::Done(Outcome::Target { target_id }),
            None => refuse(Failure::NoPageTarget { session_id }),
        },
        Goal::PageAt { index } => {
            if index < tabs.len() {
                assert(targets(tabs@)[index as int] == tabs@[index as int]@);
                let target_id = tabs[index].target_id.clone();
                Work::OpenPage { session_id, goal: Goal::PageAt { index }, target_id }
            } else {
                refuse(Failure::NoTab { index, count: tabs.len() })
            }
        },
        Goal::SwitchTab { index } => {
            if index < tabs.len() {
                assert(targets(tabs@)[index as int] == tabs@[index as int]@);
                let target_id = tabs[index].target_id.clone();
                Work::OpenPage { session_id, goal: Goal::SwitchTab { index }, target_id }
            } else {
                refuse(Failure::NoTab { index, count: tabs.len() })
            }
        },
        Goal::CloseTab { index } => {
            if index < tabs.len() {
                assert(targets(tabs@)[index as int] == tabs@[index as int]@);
                let target_id = tabs[index].target_id.clone();
                Work::CloseTarget { session_id, target_id }
            } else {
                refuse(Failure::NoTab { index, count: tabs.len() })
            }
        },
        _ => Work::Done(Outcome::Tabs { tabs, active }),
    }
}

/// Keeps the tabs of the sessions between calls, and does the work on them.
pub struct SessionManager {
    tabs: TabRegistry,
}

impl View for SessionManager {
    type V = RegistryView;

    closed spec fn view(&self) -> RegistryView {
        self.tabs@
    }
}

impl SessionManager {
    /// What is remembered of the tabs is well-formed.
    pub open spec fn wf(&self) -> bool {
        self@.wf()
    }

    /// A manager that remembers nothing.
    pub fn new() -> (r: SessionManager)
        ensures
            r.wf(),
            r@ == RegistryView::empty(),
    {
        SessionManager { tabs: TabRegistry::new() }
    }

    /// The sessions that have tabs, by what Chrome says of its targets.
    pub fn list(&self, all: Vec<Target>) -> (r: Vec<SessionInfo>)
        ensures
            is_session_list(pages_of(targets(all@)), infos(r@)),
    {
        let pages = page_targets(all);
        session_list(&pages)
    }

    /// Starts to open a session.
    pub fn open(&self, viewport: Option<Viewport>, use_mobile_ua: bool) -> (r: OpenTask)
        ensures
            open_view(r) == (OpenView::ReadVersion { viewport, use_mobile: use_mobile_ua }),
    {
        Opening::ReadVersion { viewport, use_mobile: use_mobile_ua }
    }

    /// Starts to find out whether a session exists.
    pub fn context_id_for(&self, session_id: &str) -> (r: Task)
        ensures
            task_view(r) == start(session_id@, Goal::Context),
    {
        Work::FindSession { session_id: session_id.to_string(), goal: Goal::Context }
    }

    /// Starts to find the page of a session to work on.
    pub fn active_page(&self, session_id: &str) -> (r: Task)
        ensures
            task_view(r) == start(session_id@, Goal::ActivePage),
    {
        Work::FindSession { session_id: session_id.to_string(), goal: Goal::ActivePage }
    }

    /// Starts to find the tabs of a session.
    pub fn tabs(&self, session_id: &str) -> (r: Task)
        ensures
            task_view(r) == start(session_id@, Goal::Tabs),
    {
        Work::FindSession { session_id: session_id.to_string(), goal: Goal::Tabs }
    }

    /// Starts to find the page at an index of the tabs.
    pub fn page_at(&self, session_id: &str, index: usize) -> (r: Task)
        ensures
            task_view(r) == start(session_id@, Goal::PageAt { index }),
    {
        Work::FindSession { session_id: session_id.to_string(), goal: Goal::PageAt { index } }
    }

    /// Starts to make the tab at an index the active one.
    pub fn switch_tab(&self, session_id: &str, index: usize) -> (r: Task)
        ensures
            task_view(r) == start(session_id@, Goal::SwitchTab { index }),
    {
        Work::FindSession { session_id: session_id.to_string(), goal: Goal::SwitchTab { index } }
    }

    /// Starts to close the tab at an index.
    pub fn close_tab(&self, session_id: &str, index: usize) -> (r: Task)
        ensures
            task_view(r) == start(session_id@, Goal::CloseTab { index }),
    {
        Work::FindSession { session_id: session_id.to_string(), goal: Goal::CloseTab { index } }
    }

    /// Starts to find the id of the active tab.
    pub fn active_target_id(&self, session_id: &str) -> (r: Task)
        ensures
            task_view(r) == start(session_id@, Goal::ActiveTarget),
    {
        Work::FindSession { session_id: session_id.to_string(), goal: Goal::ActiveTarget }
    }

    /// Starts to open a page in a session.
    pub fn new_page(&self, session_id: &str, url: Option<&str>) -> (r: Task)
        ensures
            task_view(r) == start(session_id@, Goal::NewPage { url: opt_str_text(url) }),
    {
        let url = match url {
            Some(u) => Some(u.to_string()),
            None => None,
        };
        Work::FindSession { session_id: session_id.to_string(), goal: Goal::NewPage { url } }
    }

    /// Starts to close a session.
    pub fn close(&self, session_id: &str) -> (r: Task)
        ensures
            task_view(r) == (TaskView::Dispose { session_id: session_id@ }),
    {
        Work::Dispose { session_id: session_id.to_string() }
    }

    /// The ids of those tabs whose pages could be opened, in order; the others
    /// are passed over.
    pub fn pages(&self, tabs: &Vec<Target>, opened: &Vec<bool>) -> (r: Vec<String>)
        requires
            tabs@.len() == opened@.len(),
        ensures
            texts(r@) == opened_ids(targets(tabs@), opened@),
    {
        let mut out: Vec<String> = Vec::new();
        let mut i: usize = 0;
        assert(texts(out@) =~= opened_ids(targets(tabs@).take(0), opened@.take(0)));
        while i < tabs.len()
            invariant
                i <= tabs@.len(),
                tabs@.len() == opened@.len(),
                texts(out@) == opened_ids(targets(tabs@).take(i as int), opened@.take(i as int)),
            decreases tabs@.len() - i,
        {
            proof {
                let t = targets(tabs@).take(i + 1);
                assert(t.drop_last() =~= targets(tabs@).take(i as int));
                assert(t.last() == tabs@[i as int]@);
                assert(opened@.take(i + 1).drop_last() =~= opened@.take(i as int));
            }
            if opened[i] {
                let id = tabs[i].target_id.clone();
                proof {
                    crate::text::lemma_texts_push(out@, id);
                }
                out.push(id);
            }
            i += 1;
        }
        assert(targets(tabs@).take(i as int) =~= targets(tabs@));
        assert(opened@.take(i as int) =~= opened@);
        out
    }

    /// Goes on once news of a step have come.
    pub fn advance(&mut self, task: Task, news: Report) -> (r: Task)
        requires
            old(self).wf(),
        ensures
            final(self).wf(),
            (final(self)@, task_view(r)) == next_task(
                old(self)@,
                task_view(task),
                report_view(news),
            ),
    {
        match (task, news) {
            (Work::FindSession { session_id, goal }, News::Targets(r)) => match r {
                Ok(all) => {
                    let pages = page_targets(all);
                    if any_tab(&pages, session_id.as_str()) {
                        Work::Touch { session_id, goal }
                    } else {
                        Work::FindContext { session_id, goal }
                    }
                },
                Err(e) => failed("Target.getTargets", e),
            },
            (Work::FindContext { session_id, goal }, News::Contexts(r)) => match r {
                Ok(contexts) => {
                    if any_context(&contexts, session_id.as_str()) {
                        Work::Touch { session_id, goal }
                    } else {
                        refuse(Failure::SessionNotFound { session_id })
                    }
                },
                Err(e) => failed("Target.getBrowserContexts", e),
            },
            (Work::Touch { session_id, goal }, News::Noted) => resume_touched(session_id, goal),
            (Work::ListTabs { session_id, goal }, News::Targets(r)) => match r {
                Ok(all) => {
                    let pages = page_targets(all);
                    let (tabs, active) = self.tabs.reconcile(session_id.as_str(), &pages);
                    resume_tabs(session_id, goal, tabs, active)
                },
                Err(e) => failed("Target.getTargets", e),
            },
            (Work::CreatePage { session_id, goal, url: _ }, News::Created(r)) => match r {
                Ok(target_id) => Work::FindUserAgent { session_id, goal, target_id },
                Err(e) => failed("Target.createTarget", e),
            },
            (Work::FindUserAgent { session_id, goal, target_id }, News::UserAgent(u)) => match u {
                Some(ua) => Work::ApplyUserAgent { session_id, goal, target_id, ua },
                None => Work::ApplyStealth { session_id, goal, target_id },
            },
            (
                Work::ApplyUserAgent { session_id, goal, target_id, ua: _ },
                News::Answer(r),
            ) => match r {
                Ok(_) => Work::ApplyStealth { session_id, goal, target_id },
                Err(e) => failed("Network.setUserAgentOverride", e),
            },
            (Work::ApplyStealth { session_id, goal, target_id }, News::Answer(r)) => match r {
                Ok(_) => {
                    self.tabs.set_active(session_id.as_str(), target_id.as_str());
                    match goal {
                        Goal::TargetOfNewPage => Work::ListTabs {
                            session_id,
                            goal: Goal::TargetAgain,
                        },
                        _ => Work::Done(Outcome::Page { target_id }),
                    }
                },
                Err(e) => failed("Page.addScriptToEvaluateOnNewDocument", e),
            },
            (Work::OpenPage { session_id, goal, target_id }, News::Answer(r)) => match r {
                Ok(_) => {
                    if let Goal::SwitchTab { index: _ } = goal {
                        self.tabs.set_active(session_id.as_str(), target_id.as_str());
                    }
                    Work::Done(Outcome::Page { target_id })
                },
                Err(e) => failed("Browser::get_page", e),
            },
            (Work::CloseTarget { session_id, target_id }, News::Answer(r)) => match r {
                Ok(_) => {
                    self.tabs.drop_tab(session_id.as_str(), target_id.as_str());
                    Work::Done(Outcome::Closed)
                },
                Err(e) => failed("Target.closeTarget", e),
            },
            (Work::Dispose { session_id }, News::Answer(r)) => match r {
                Ok(_) => Work::Forget { session_id },
                Err(e) => failed("Target.disposeBrowserContext", e),
            },
            (Work::Forget { session_id }, News::Noted) => {
                self.tabs.forget(session_id.as_str());
                Work::Done(Outcome::Closed)
            },
            (task, _) => task,
        }
    }
}

/// The first step towards a goal: to see that the session exists.
pub open spec fn start(session_id: Seq<char>, goal: Goal<Seq<char>>) -> TaskView {
    Work::FindSession { session_id, goal }
}

/// The ids of the tabs whose pages could be opened.
pub open spec fn opened_ids(tabs: Seq<TargetView>, opened: Seq<bool>) -> Seq<Seq<char>>
    decreases tabs.len(),
{
    if tabs.len() == 0 {
        seq![]
    } else {
        let rest = opened_ids(tabs.drop_last(), opened.drop_last());
        if opened.last() {
            rest.push(tabs.last().target_id)
        } else {
            rest
        }
    }
}

}
