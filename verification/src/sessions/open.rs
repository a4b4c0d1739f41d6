//! How a session is opened, step by step.
//!
//! From the moment that Chrome has made the session's context, a failure first
//! takes it back: no half-made session stays behind.
use vstd::prelude::*;

use crate::error::ErrorChain;
use crate::sessions::work::within;
use crate::sessions::{InfoView, SessionInfo, Viewport};
use crate::user_agent::{
    chrome_version, full_version, major_version, override_of, resolve, UaOverride, UaView,
};

verus! {

/// What is to be done next, over the types of texts, user agents, results and
/// errors.
pub enum Opening<S, U, I, E> {
    /// Ask Chrome which product it is.
    ReadVersion { viewport: Option<Viewport>, use_mobile: bool },
    /// Make a context.
    CreateContext { viewport: Option<Viewport>, ua: U },
    /// Keep the user agent for the session's later pages.
    Remember { session_id: S, viewport: Option<Viewport>, ua: U },
    /// Open an empty page in the context.
    CreatePage { session_id: S, viewport: Option<Viewport>, ua: U },
    /// Give the page its user agent.
    ApplyUserAgent { session_id: S, target_id: S, viewport: Option<Viewport>, ua: U },
    /// Give the page the script that runs before its own.
    ApplyStealth { session_id: S, target_id: S, viewport: Option<Viewport> },
    /// Give the page the metrics of the size, by
    /// [`viewport_params`](crate::user_agent::viewport_params).
    ApplyViewport { session_id: S, target_id: S, size: Viewport },
    /// Note that the session was used.
    Touch { session_id: S },
    /// Dispose of the context, and drop what is kept of the session.
    Discard { session_id: S, error: E },
    /// The session is open.
    Opened(I),
    /// The session could not be opened.
    Failed(E),
}

/// What came of a step, over the types of texts and errors.
pub enum OpenNews<S, E> {
    /// The product text of Chrome.
    Product(Result<S, E>),
    /// The id of what was made.
    Made(Result<S, E>),
    /// Whether Chrome did what it was asked.
    Answer(Result<(), E>),
    /// It is noted.
    Noted,
}

/// A step as it is taken.
pub type OpenTask = Opening<String, UaOverride, SessionInfo, ErrorChain>;

/// News as they come.
pub type OpenReport = OpenNews<String, ErrorChain>;

/// What a step says.
pub type OpenView = Opening<Seq<char>, UaView, InfoView, Seq<Seq<char>>>;

/// What news say.
pub type OpenNewsView = OpenNews<Seq<char>, Seq<Seq<char>>>;

/// What a step says.
pub open spec fn open_view(o: OpenTask) -> OpenView {
    match o {
        Opening::ReadVersion { viewport, use_mobile } => Opening::ReadVersion {
            viewport,
            use_mobile,
        },
        Opening::CreateContext { viewport, ua } => Opening::CreateContext { viewport, ua: ua@ },
        Opening::Remember { session_id, viewport, ua } => Opening::Remember {
            session_id: session_id@,
            viewport,
            ua: ua@,
        },
        Opening::CreatePage { session_id, viewport, ua } => Opening::CreatePage {
            session_id: session_id@,
            viewport,
            ua: ua@,
        },
        Opening::ApplyUserAgent { session_id, target_id, viewport, ua } =>
            Opening::ApplyUserAgent {
            session_id: session_id@,
            target_id: target_id@,
            viewport,
            ua: ua@,
        },
        Opening::ApplyStealth { session_id, target_id, viewport } => Opening::ApplyStealth {
            session_id: session_id@,
            target_id: target_id@,
            viewport,
        },
        Opening::ApplyViewport { session_id, target_id, size } => Opening::ApplyViewport {
            session_id: session_id@,
            target_id: target_id@,
            size,
        },
        Opening::Touch { session_id } => Opening::Touch { session_id: session_id@ },
        Opening::Discard { session_id, error } => Opening::Discard {
            session_id: session_id@,
            error: error@,
        },
        Opening::Opened(i) => Opening::Opened(i@),
        Opening::Failed(e) => Opening::Failed(e@),
    }
}

/// What news say.
pub open spec fn open_news_view(n: OpenReport) -> OpenNewsView {
    match n {
        OpenNews::Product(r) => OpenNews::Product(
            match r {
                Ok(s) => Ok(s@),
                Err(e) => Err(e@),
            },
        ),
        OpenNews::Made(r) => OpenNews::Made(
            match r {
                Ok(s) => Ok(s@),
                Err(e) => Err(e@),
            },
        ),
        OpenNews::Answer(r) => OpenNews::Answer(
            match r {
                Ok(_) => Ok(()),
                Err(e) => Err(e@),
            },
        ),
        OpenNews::Noted => OpenNews::Noted,
    }
}

/// The user agent for a product of Chrome.
pub open spec fn product_override(product: Seq<char>, use_mobile: bool) -> UaView {
    override_of(full_version(product), major_version(full_version(product)), use_mobile)
}

/// The size that a page is given.
pub open spec fn size_of(viewport: Option<Viewport>) -> Viewport {
    match viewport {
        Some(v) => v,
        None => Viewport { width: 1280, height: 800 },
    }
}

/// What is said of a session that was just opened.
pub open spec fn opened_info(session_id: Seq<char>) -> InfoView {
    InfoView { session_id, page_count: 1, active_url: Some("about:blank"@) }
}

/// The context is taken back because of an error.
pub open spec fn taken_back(session_id: Seq<char>, what: Seq<char>, e: Seq<Seq<char>>) -> OpenView {
    Opening::Discard { session_id, error: within(what, e) }
}

/// The news are of the kind that can come of the step.
pub open spec fn open_suits(step: OpenView, news: OpenNewsView) -> bool {
    match step {
        Opening::ReadVersion { .. } => news is Product,
        Opening::CreateContext { .. } => news is Made,
        Opening::Remember { .. } => news is Noted,
        Opening::CreatePage { .. } => news is Made,
        Opening::ApplyUserAgent { .. } => news is Answer,
        Opening::ApplyStealth { .. } => news is Answer,
        Opening::ApplyViewport { .. } => news is Answer,
        Opening::Touch { .. } => news is Noted,
        Opening::Discard { .. } => news is Noted,
        Opening::Opened(_) => false,
        Opening::Failed(_) => false,
    }
}

/// The step that follows.
pub open spec fn next_opening(step: OpenView, news: OpenNewsView) -> OpenView {
    match (step, news) {
        (Opening::ReadVersion { viewport, use_mobile }, OpenNews::Product(r)) => match r {
            Ok(product) => Opening::CreateContext {
                viewport,
                ua: product_override(product, use_mobile),
            },
            Err(e) => Opening::Failed(within("Browser.getVersion"@, e)),
        },
        (Opening::CreateContext { viewport, ua }, OpenNews::Made(r)) => match r {
            Ok(session_id) => Opening::Remember { session_id, viewport, ua },
            Err(e) => Opening::Failed(within("Target.createBrowserContext"@, e)),
        },
        (Opening::Remember { session_id, viewport, ua }, OpenNews::Noted) => Opening::CreatePage {
            session_id,
            viewport,
            ua,
        },
        (Opening::CreatePage { session_id, viewport, ua }, OpenNews::Made(r)) => match r {
            Ok(target_id) => Opening::ApplyUserAgent { session_id, target_id, viewport, ua },
            Err(e) => taken_back(session_id, "Target.createTarget"@, e),
        },
        (
            Opening::ApplyUserAgent { session_id, target_id, viewport, ua },
            OpenNews::Answer(r),
        ) => match r {
            Ok(_) => Opening::ApplyStealth { session_id, target_id, viewport },
            Err(e) => taken_back(session_id, "Network.setUserAgentOverride"@, e),
        },
        (
            Opening::ApplyStealth { session_id, target_id, viewport },
            OpenNews::Answer(r),
        ) => match r {
            Ok(_) => Opening::ApplyViewport { session_id, target_id, size: size_of(viewport) },
            Err(e) => taken_back(session_id, "Page.addScriptToEvaluateOnNewDocument"@, e),
        },
        (Opening::ApplyViewport { session_id, target_id, size }, OpenNews::Answer(r)) => match r {
            Ok(_) => Opening::Touch { session_id },
            Err(e) => taken_back(session_id, "Emulation.setDeviceMetricsOverride"@, e),
        },
        (Opening::Touch { session_id }, OpenNews::Noted) => Opening::Opened(
            opened_info(session_id),
        ),
        (Opening::Discard { session_id, error }, OpenNews::Noted) => Opening::Failed(error),
        _ => step,
    }
}

/// The context is taken back because of an error: see `Discard`.
fn cleanup_failed_open(session_id: String, what: &str, e: ErrorChain) -> (r: OpenTask)
    ensures
        open_view(r) == taken_back(session_id@, what@, e@),
{
    Opening::Discard { session_id, error: e.context(what) }
}

/// Goes on once news of a step have come.
pub fn resume_open(step: OpenTask, news: OpenReport) -> (r: OpenTask)
    ensures
        open_view(r) == next_opening(open_view(step), open_news_view(news)),
{
    match (step, news) {
        (Opening::ReadVersion { viewport, use_mobile }, OpenNews::Product(r)) => match r {
            Ok(product) => {
                let version = chrome_version(product.as_str());
                Opening::CreateContext { viewport, ua: resolve(&version, use_mobile) }
            },
            Err(e) => Opening::Failed(e.context("Browser.getVersion")),
        },
        (Opening::CreateContext { viewport, ua }, OpenNews::Made(r)) => match r {
            Ok(session_id) => Opening::Remember { session_id, viewport, ua },
            Err(e) => Opening::Failed(e.context("Target.createBrowserContext")),
        },
        (Opening::Remember { session_id, viewport, ua }, OpenNews::Noted) => Opening::CreatePage {
            session_id,
            viewport,
            ua,
        },
        (Opening::CreatePage { session_id, viewport, ua }, OpenNews::Made(r)) => match r {
            Ok(target_id) => Opening::ApplyUserAgent { session_id, target_id, viewport, ua },
            Err(e) => cleanup_failed_open(session_id, "Target.createTarget", e),
        },
        (
            Opening::ApplyUserAgent { session_id, target_id, viewport, ua: _ },
            OpenNews::Answer(r),
        ) => match r {
            Ok(_) => Opening::ApplyStealth { session_id, target_id, viewport },
            Err(e) => cleanup_failed_open(session_id, "Network.setUserAgentOverride", e),
        },
        (
            Opening::ApplyStealth { session_id, target_id, viewport },
            OpenNews::Answer(r),
        ) => match r {
            Ok(_) => {
                let size = match viewport {
                    Some(v) => v,
                    None => Viewport::default(),
                };
                Opening::ApplyViewport { session_id, target_id, size }
            },
            Err(e) => cleanup_failed_open(
                session_id,
                "Page.addScriptToEvaluateOnNewDocument",
                e,
            ),
        },
        (
            Opening::ApplyViewport { session_id, target_id: _, size: _ },
            OpenNews::Answer(r),
        ) => match r {
            Ok(_) => Opening::Touch { session_id },
            Err(e) => cleanup_failed_open(session_id, "Emulation.setDeviceMetricsOverride", e),
        },
        (Opening::Touch { session_id }, OpenNews::Noted) => Opening::Opened(
            SessionInfo {
                session_id,
                page_count: 1,
                active_url: Some("about:blank".to_string()),
            },
        ),
        (Opening::Discard { session_id: _, error }, OpenNews::Noted) => Opening::Failed(error),
        (step, _) => step,
    }
}

// ---- what holds of it -----------------------------------------------------

/// How many more steps the opening can take at most.
pub open spec fn opening_left(step: OpenView) -> nat {
    match step {
        Opening::ReadVersion { .. } => 8,
        Opening::CreateContext { .. } => 7,
        Opening::Remember { .. } => 6,
        Opening::CreatePage { .. } => 5,
        Opening::ApplyUserAgent { .. } => 4,
        Opening::ApplyStealth { .. } => 3,
        Opening::ApplyViewport { .. } => 2,
        Opening::Touch { .. } => 1,
        Opening::Discard { .. } => 1,
        _ => 0,
    }
}

/// The context that Chrome has made for a session that is not open yet.
pub open spec fn context_of(step: OpenView) -> Option<Seq<char>> {
    match step {
        Opening::Remember { session_id, .. } => Some(session_id),
        Opening::CreatePage { session_id, .. } => Some(session_id),
        Opening::ApplyUserAgent { session_id, .. } => Some(session_id),
        Opening::ApplyStealth { session_id, .. } => Some(session_id),
        Opening::ApplyViewport { session_id, .. } => Some(session_id),
        Opening::Touch { session_id } => Some(session_id),
        Opening::Discard { session_id, .. } => Some(session_id),
        _ => None,
    }
}

/// Whatever news come, fewer steps are left after them: opening a session ends,
/// after eight steps at most.
pub proof fn law_opening_ends(step: OpenView, news: OpenNewsView)
    requires
        open_suits(step, news),
    ensures
        opening_left(next_opening(step, news)) < opening_left(step) <= 8,
{
}

/// No context is left behind: once there is one, the steps stay with it until
/// either its session is open or it was discarded.
pub proof fn law_no_context_is_left_behind(step: OpenView, news: OpenNewsView)
    requires
        open_suits(step, news),
        context_of(step) is Some,
    ensures
        context_of(next_opening(step, news)) == context_of(step) || next_opening(step, news)
            == OpenView::Opened(opened_info(context_of(step)->0)) || step is Discard,
        next_opening(step, news) is Failed ==> step is Discard,
{
}

/// What is discarded is discarded because of an error, and that error is the
/// one that comes out.
pub proof fn law_first_error_comes_out(session_id: Seq<char>, error: Seq<Seq<char>>)
    ensures
        next_opening(Opening::Discard { session_id, error }, OpenNews::Noted)
            == OpenView::Failed(error),
{
}

/// Where nothing fails the session opens: its context has one empty page, which
/// has the user agent of the product that Chrome is, on a phone or not as was asked
/// for, the script, and the size that was asked for, or 1280 by 800. The user agent
/// is kept for the session, and what is told is that session with its page.
pub proof fn law_open_succeeds(
    viewport: Option<Viewport>,
    use_mobile: bool,
    product: Seq<char>,
    session_id: Seq<char>,
    target_id: Seq<char>,
)
    ensures
        ({
            let full = full_version(product);
            let ua = override_of(full, major_version(full), use_mobile);
            let a = next_opening(
                Opening::ReadVersion { viewport, use_mobile },
                OpenNews::Product(Ok(product)),
            );
            let b = next_opening(a, OpenNews::Made(Ok(session_id)));
            let c = next_opening(b, OpenNews::Noted);
            let d = next_opening(c, OpenNews::Made(Ok(target_id)));
            let e = next_opening(d, OpenNews::Answer(Ok(())));
            let f = next_opening(e, OpenNews::Answer(Ok(())));
            let g = next_opening(f, OpenNews::Answer(Ok(())));
            let size = match viewport {
                Some(v) => v,
                None => Viewport { width: 1280, height: 800 },
            };
            &&& a == (OpenView::CreateContext { viewport, ua })
            &&& b == (OpenView::Remember { session_id, viewport, ua })
            &&& c == (OpenView::CreatePage { session_id, viewport, ua })
            &&& d == (OpenView::ApplyUserAgent { session_id, target_id, viewport, ua })
            &&& e == (OpenView::ApplyStealth { session_id, target_id, viewport })
            &&& f == (OpenView::ApplyViewport { session_id, target_id, size })
            &&& g == (OpenView::Touch { session_id })
            &&& next_opening(g, OpenNews::Noted) == OpenView::Opened(
                InfoView { session_id, page_count: 1, active_url: Some("about:blank"@) },
            )
        }),
{
}

/// Once there is a context, an error of any step has that very context discarded
/// and comes out behind the name of the command that failed; before that, it comes
/// out at once.
pub proof fn law_failed_opening_is_undone(
    viewport: Option<Viewport>,
    use_mobile: bool,
    ua: UaView,
    session_id: Seq<char>,
    target_id: Seq<char>,
    size: Viewport,
    e: Seq<Seq<char>>,
)
    ensures
        ({
            let no = OpenNews::Answer(Err(e));
            let undone = |what: Seq<char>| OpenView::Discard { session_id, error: seq![what] + e };
            &&& next_opening(
                Opening::ReadVersion { viewport, use_mobile },
                OpenNews::Product(Err(e)),
            ) == OpenView::Failed(seq!["Browser.getVersion"@] + e)
            &&& next_opening(Opening::CreateContext { viewport, ua }, OpenNews::Made(Err(e)))
                == OpenView::Failed(seq!["Target.createBrowserContext"@] + e)
            &&& next_opening(
                Opening::CreatePage { session_id, viewport, ua },
                OpenNews::Made(Err(e)),
            ) == undone("Target.createTarget"@)
            &&& next_opening(
                Opening::ApplyUserAgent { session_id, target_id, viewport, ua },
                no,
            ) == undone("Network.setUserAgentOverride"@)
            &&& next_opening(Opening::ApplyStealth { session_id, target_id, viewport }, no)
                == undone("Page.addScriptToEvaluateOnNewDocument"@)
            &&& next_opening(Opening::ApplyViewport { session_id, target_id, size }, no) == undone(
                "Emulation.setDeviceMetricsOverride"@,
            )
        }),
{
}

}
