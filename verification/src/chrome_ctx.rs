//! The connection to Chrome: made at the first call that needs it, tried before
//! it is used again, and made anew when it was lost.
use vstd::prelude::*;

use crate::error::ErrorChain;
use crate::sessions::work::within;

verus! {

/// How long a connection may take to come about. A Chrome that hangs is an error
/// that the caller can try again, not a call that never ends.
pub const CONNECT_TIMEOUT_SECS: u64 = 15;

/// How long the trial of a connection may take. It is one short question, so
/// anything slower means that the connection hangs.
pub const PROBE_TIMEOUT_SECS: u64 = 3;

/// What is to be done next, over the types of texts and errors.
pub enum Access<S, E> {
    /// Try the connection that there is.
    Probe,
    /// Connect to Chrome at the address.
    Connect { url: S },
    /// The connection can be used.
    Ready,
    /// There is none.
    Failed(E),
}

/// What came of it, over the type of errors.
pub enum AccessNews<E> {
    /// Whether the trial was answered in time.
    Probed(bool),
    /// The connection is there.
    Connected,
    /// The connection was refused.
    Refused(E),
    /// The connection did not come about in time.
    Elapsed(E),
}

/// A step as it is taken.
pub type AccessStep = Access<String, ErrorChain>;

/// News as they come.
pub type AccessReport = AccessNews<ErrorChain>;

/// What a step says.
pub type AccessView = Access<Seq<char>, Seq<Seq<char>>>;

/// What news say.
pub type AccessNewsView = AccessNews<Seq<Seq<char>>>;

/// What a step says.
pub open spec fn access_view(a: AccessStep) -> AccessView {
    match a {
        Access::Probe => Access::Probe,
        Access::Connect { url } => Access::Connect { url: url@ },
        Access::Ready => Access::Ready,
        Access::Failed(e) => Access::Failed(e@),
    }
}

/// What news say.
pub open spec fn access_news_view(n: AccessReport) -> AccessNewsView {
    match n {
        AccessNews::Probed(b) => AccessNews::Probed(b),
        AccessNews::Connected => AccessNews::Connected,
        AccessNews::Refused(e) => AccessNews::Refused(e@),
        AccessNews::Elapsed(e) => AccessNews::Elapsed(e@),
    }
}

/// What is known of the connection.
#[verifier::ext_equal]
pub struct ContextView {
    pub browser_url: Seq<char>,
    /// Whether there is a connection from an earlier call.
    pub connected: bool,
}

/// The first step of a call that needs the connection: one whose task has ended
/// is dead, and any other is tried.
pub open spec fn first_access(c: ContextView, ended: bool) -> (ContextView, AccessView) {
    if c.connected && !ended {
        (c, Access::Probe)
    } else {
        (ContextView { connected: false, ..c }, Access::Connect { url: c.browser_url })
    }
}

/// The news are of the kind that can come of the step.
pub open spec fn access_suits(step: AccessView, news: AccessNewsView) -> bool {
    match step {
        Access::Probe => news is Probed,
        Access::Connect { .. } => !(news is Probed),
        _ => false,
    }
}

/// The step that follows.
pub open spec fn next_access(c: ContextView, step: AccessView, news: AccessNewsView) -> (
    ContextView,
    AccessView,
) {
    match (step, news) {
        (Access::Probe, AccessNews::Probed(alive)) => if alive {
            (c, Access::Ready)
        } else {
            (ContextView { connected: false, ..c }, Access::Connect { url: c.browser_url })
        },
        (Access::Connect { .. }, AccessNews::Connected) => (
            ContextView { connected: true, ..c },
            Access::Ready,
        ),
        (Access::Connect { .. }, AccessNews::Refused(e)) => (c, Access::Failed(e)),
        (Access::Connect { .. }, AccessNews::Elapsed(e)) => (
            c,
            Access::Failed(within("timed out connecting to Chrome"@, e)),
        ),
        _ => (c, step),
    }
}

/// Where Chrome is, and whether there is a connection to it.
pub struct ChromeContext {
    browser_url: String,
    connected: bool,
}

impl View for ChromeContext {
    type V = ContextView;

    closed spec fn view(&self) -> ContextView {
        ContextView { browser_url: self.browser_url@, connected: self.connected }
    }
}

impl ChromeContext {
    /// A context without a connection.
    pub fn new(browser_url: String) -> (r: ChromeContext)
        ensures
            r@ == (ContextView { browser_url: browser_url@, connected: false }),
    {
        ChromeContext { browser_url, connected: false }
    }

    /// The first step of a call that needs the connection, given whether the
    /// task that drives the one there is has ended.
    pub fn sessions(&mut self, ended: bool) -> (r: AccessStep)
        ensures
            (final(self)@, access_view(r)) == first_access(old(self)@, ended),
    {
        if self.connected && !ended {
            Access::Probe
        } else {
            self.connected = false;
            Access::Connect { url: self.browser_url.clone() }
        }
    }

    /// Goes on once news of a step have come.
    pub fn resume(&mut self, step: AccessStep, news: AccessReport) -> (r: AccessStep)
        ensures
            (final(self)@, access_view(r)) == next_access(
                old(self)@,
                access_view(step),
                access_news_view(news),
            ),
    {
        match (step, news) {
            (Access::Probe, AccessNews::Probed(alive)) => {
                if alive {
                    Access::Ready
                } else {
                    self.connected = false;
                    Access::Connect { url: self.browser_url.clone() }
                }
            },
            (Access::Connect { url: _ }, AccessNews::Connected) => {
                self.connected = true;
                Access::Ready
            },
            (Access::Connect { url: _ }, AccessNews::Refused(e)) => Access::Failed(e),
            (Access::Connect { url: _ }, AccessNews::Elapsed(e)) => Access::Failed(
                e.context("timed out connecting to Chrome"),
            ),
            (step, _) => step,
        }
    }

    /// Makes the next call connect anew.
    pub fn invalidate(&mut self)
        ensures
            final(self)@ == (ContextView { connected: false, ..old(self)@ }),
    {
        self.connected = false;
    }
}

/// A connection is used only once it was answered: what is ready was tried or
/// made in this very call. A failure leaves no connection, and the address never
/// changes.
pub proof fn law_connection_is_tried(c: ContextView, step: AccessView, news: AccessNewsView)
    requires
        access_suits(step, news),
        step is Connect ==> !c.connected,
    ensures
        ({
            let (after, next) = next_access(c, step, news);
            &&& next is Ready ==> news == AccessNewsView::Probed(true) || news
                == AccessNewsView::Connected
            &&& next is Failed ==> !after.connected
            &&& next is Connect ==> !after.connected && step is Probe
            &&& after.browser_url == c.browser_url
        }),
{
}

/// After a connection was given up, or its task has ended, a call connects anew.
pub proof fn law_lost_connection_is_made_anew(c: ContextView, ended: bool)
    ensures
        first_access(ContextView { connected: false, ..c }, ended) == (
            ContextView { connected: false, ..c },
            AccessView::Connect { url: c.browser_url },
        ),
        first_access(c, true).1 == (AccessView::Connect { url: c.browser_url }),
{
}

/// A connection that there is, and whose task goes on, is tried before anything
/// else; one that answers is used as it is, and one that does not is given up and
/// made anew, at the address that was configured.
pub proof fn law_connection_is_kept_while_it_answers(c: ContextView)
    requires
        c.connected,
    ensures
        first_access(c, false) == (c, AccessView::Probe),
        next_access(c, Access::Probe, AccessNews::Probed(true)) == (c, AccessView::Ready),
        next_access(c, Access::Probe, AccessNews::Probed(false)) == first_access(c, true),
        !first_access(c, true).0.connected,
{
}

/// A connection that came about is kept for the next call, which tries it; an
/// error comes out as it is, or says that it took too long.
pub proof fn law_connecting_comes_to_an_end(c: ContextView, url: Seq<char>, e: Seq<Seq<char>>)
    ensures
        ({
            let step: AccessView = Access::Connect { url };
            let (after, last) = next_access(c, step, AccessNews::Connected);
            &&& last == AccessView::Ready
            &&& first_access(after, false).1 == AccessView::Probe
            &&& next_access(c, step, AccessNews::Refused(e)) == (c, AccessView::Failed(e))
            &&& next_access(c, step, AccessNews::Elapsed(e)) == (
                c,
                AccessView::Failed(seq!["timed out connecting to Chrome"@] + e),
            )
        }),
{
}

}
