//! What can go wrong in a tool call, and the text a caller sees of it.
use vstd::prelude::*;
use vstd::string::StringExecFns;
use vstd::utf8::is_ascii_chars;

use crate::outside::{lowercase, to_lowercase};
use crate::text::laws::law_has_text;
use crate::text::{
    ascii_lower, cat2, cat3, contains_text, decimal, decimal_text, has_text, join, joined, texts,
};

verus! {

/// A refusal of the library's own, over the type of the texts in it.
pub enum Failure<S> {
    /// No tool has this name.
    UnknownTool { name: S },
    /// The argument is missing, not a string, or empty.
    NotNonEmptyString { field: S },
    /// The argument `tabIndex` is missing or not a whole number.
    TabIndexRequired,
    /// The argument `enabled` is missing or not a boolean.
    EnabledRequired,
    /// The viewport argument is not an object.
    ViewportNotObject { field: S },
    /// The viewport's width is missing or not positive.
    ViewportWidth { field: S },
    /// The viewport's height is missing or not positive.
    ViewportHeight { field: S },
    /// A click names neither a selector nor a point.
    ClickTarget,
    /// A coordinate is missing.
    CoordinateRequired { axis: S },
    /// A wait names neither a selector nor a text.
    WaitTarget,
    /// Chrome knows no session of this id.
    SessionNotFound { session_id: S },
    /// The session has no tab at the index.
    NoTab { index: usize, count: usize },
    /// A page was opened and the session still shows none.
    NoPageTarget { session_id: S },
    /// The keyboard layout has no such key.
    UnknownKey { key: S },
    /// The page's script threw.
    JsException { message: S },
    /// The selector matches nothing that has a place on the page.
    ElementNotFound { selector: S },
    /// A coordinate that the page reported is no number.
    BadCoordinate { axis: S },
    /// The page did not load in time.
    NavigationTimeout { ms: u64 },
    /// The selector matched nothing in time.
    SelectorTimeout { selector: S },
    /// The condition did not come true in time.
    TimedOut,
    /// No public address of the takeover daemon is configured.
    TakeoverNotConfigured,
    /// The session id could name a file outside the flag directory.
    InvalidSessionId,
    /// The operating system gave no random bytes.
    NoRandomness { reason: S },
    /// No WebSocket base of Chrome is configured for the takeover daemon.
    NoChromeWsBase,
}

/// A refusal as it is raised.
pub type Refusal = Failure<String>;

/// What an [`Refusal`] says.
pub open spec fn failure_view(e: Refusal) -> Failure<Seq<char>> {
    match e {
        Failure::UnknownTool { name } => Failure::UnknownTool { name: name@ },
        Failure::NotNonEmptyString { field } => Failure::NotNonEmptyString { field: field@ },
        Failure::TabIndexRequired => Failure::TabIndexRequired,
        Failure::EnabledRequired => Failure::EnabledRequired,
        Failure::ViewportNotObject { field } => Failure::ViewportNotObject { field: field@ },
        Failure::ViewportWidth { field } => Failure::ViewportWidth { field: field@ },
        Failure::ViewportHeight { field } => Failure::ViewportHeight { field: field@ },
        Failure::ClickTarget => Failure::ClickTarget,
        Failure::CoordinateRequired { axis } => Failure::CoordinateRequired { axis: axis@ },
        Failure::WaitTarget => Failure::WaitTarget,
        Failure::SessionNotFound { session_id } => Failure::SessionNotFound {
            session_id: session_id@,
        },
        Failure::NoTab { index, count } => Failure::NoTab { index, count },
        Failure::NoPageTarget { session_id } => Failure::NoPageTarget { session_id: session_id@ },
        Failure::UnknownKey { key } => Failure::UnknownKey { key: key@ },
        Failure::JsException { message } => Failure::JsException { message: message@ },
        Failure::ElementNotFound { selector } => Failure::ElementNotFound { selector: selector@ },
        Failure::BadCoordinate { axis } => Failure::BadCoordinate { axis: axis@ },
        Failure::NavigationTimeout { ms } => Failure::NavigationTimeout { ms },
        Failure::SelectorTimeout { selector } => Failure::SelectorTimeout { selector: selector@ },
        Failure::TimedOut => Failure::TimedOut,
        Failure::TakeoverNotConfigured => Failure::TakeoverNotConfigured,
        Failure::InvalidSessionId => Failure::InvalidSessionId,
        Failure::NoRandomness { reason } => Failure::NoRandomness { reason: reason@ },
        Failure::NoChromeWsBase => Failure::NoChromeWsBase,
    }
}

impl View for Failure<String> {
    type V = Failure<Seq<char>>;

    open spec fn view(&self) -> Failure<Seq<char>> {
        failure_view(*self)
    }
}

/// The text of a refusal.
pub open spec fn message(e: Failure<Seq<char>>) -> Seq<char> {
    match e {
        Failure::UnknownTool { name } => "unknown tool: "@ + name,
        Failure::NotNonEmptyString { field } => field + " must be a non-empty string"@,
        Failure::TabIndexRequired => "`tabIndex` (integer) is required"@,
        Failure::EnabledRequired => "`enabled` (boolean) is required"@,
        Failure::ViewportNotObject { field } => field + " must be an object {width, height}"@,
        Failure::ViewportWidth { field } => field + ".width must be a positive integer"@,
        Failure::ViewportHeight { field } => field + ".height must be a positive integer"@,
        Failure::ClickTarget => "click requires either `selector` or both `x` and `y`"@,
        Failure::CoordinateRequired { axis } => "`"@ + axis + "` is required"@,
        Failure::WaitTarget => "wait_for requires either `selector` or `text`."@,
        Failure::SessionNotFound { session_id } => "Session not found: "@ + session_id
            + ". Call open_browser_session first."@,
        Failure::NoTab { index, count } => "no tab at index "@ + decimal(index as nat)
            + " (session has "@ + decimal(count as nat) + " tabs)"@,
        Failure::NoPageTarget { session_id } => "no page target for session "@ + session_id
            + " after creating one"@,
        Failure::UnknownKey { key } => "unknown key `"@ + key
            + "` (use names like Enter, Tab, Escape, ArrowDown, Backspace, or a single char)"@,
        Failure::JsException { message } => "JS exception: "@ + message,
        Failure::ElementNotFound { selector } => "element `"@ + selector
            + "` not found or not visible"@,
        Failure::BadCoordinate { axis } => "bad "@ + axis + " coord"@,
        Failure::NavigationTimeout { ms } => "navigation timed out after "@ + decimal(ms as nat)
            + "ms"@,
        Failure::SelectorTimeout { selector } => "timed out waiting for selector "@ + selector,
        Failure::TimedOut => "timed out"@,
        Failure::TakeoverNotConfigured =>
            "TAKEOVER_BASE_URL is not configured — the takeover daemon/route isn't set up on this host"@,
        Failure::InvalidSessionId => "invalid session id"@,
        Failure::NoRandomness { reason } => "getrandom: "@ + reason,
        Failure::NoChromeWsBase => "CHROME_WS_BASE is required (e.g. wss://chrome.<base>)"@,
    }
}

impl Failure<String> {
    /// The text of the refusal.
    pub fn message(&self) -> (r: String)
        ensures
            r@ == message(self@),
    {
        match self {
            Failure::UnknownTool { name } => cat2("unknown tool: ", name.as_str()),
            Failure::NotNonEmptyString { field } => cat2(
                field.as_str(),
                " must be a non-empty string",
            ),
            Failure::TabIndexRequired => "`tabIndex` (integer) is required".to_string(),
            Failure::EnabledRequired => "`enabled` (boolean) is required".to_string(),
            Failure::ViewportNotObject { field } => cat2(
                field.as_str(),
                " must be an object {width, height}",
            ),
            Failure::ViewportWidth { field } => cat2(
                field.as_str(),
                ".width must be a positive integer",
            ),
            Failure::ViewportHeight { field } => cat2(
                field.as_str(),
                ".height must be a positive integer",
            ),
            Failure::ClickTarget =>
                "click requires either `selector` or both `x` and `y`".to_string(),
            Failure::CoordinateRequired { axis } => cat3("`", axis.as_str(), "` is required"),
            Failure::WaitTarget => "wait_for requires either `selector` or `text`.".to_string(),
            Failure::SessionNotFound { session_id } => cat3(
                "Session not found: ",
                session_id.as_str(),
                ". Call open_browser_session first.",
            ),
            Failure::NoTab { index, count } => {
                let mut out = cat3(
                    "no tab at index ",
                    decimal_text(*index as u64).as_str(),
                    " (session has ",
                );
                out.append(decimal_text(*count as u64).as_str());
                out.append(" tabs)");
                out
            },
            Failure::NoPageTarget { session_id } => cat3(
                "no page target for session ",
                session_id.as_str(),
                " after creating one",
            ),
            Failure::UnknownKey { key } => cat3(
                "unknown key `",
                key.as_str(),
                "` (use names like Enter, Tab, Escape, ArrowDown, Backspace, or a single char)",
            ),
            Failure::JsException { message } => cat2("JS exception: ", message.as_str()),
            Failure::ElementNotFound { selector } => cat3(
                "element `",
                selector.as_str(),
                "` not found or not visible",
            ),
            Failure::BadCoordinate { axis } => cat3("bad ", axis.as_str(), " coord"),
            Failure::NavigationTimeout { ms } => cat3(
                "navigation timed out after ",
                decimal_text(*ms).as_str(),
                "ms",
            ),
            Failure::SelectorTimeout { selector } => cat2(
                "timed out waiting for selector ",
                selector.as_str(),
            ),
            Failure::TimedOut => "timed out".to_string(),
            Failure::TakeoverNotConfigured =>
                "TAKEOVER_BASE_URL is not configured — the takeover daemon/route isn't set up on this host".to_string(),
            Failure::InvalidSessionId => "invalid session id".to_string(),
            Failure::NoRandomness { reason } => cat2("getrandom: ", reason.as_str()),
            Failure::NoChromeWsBase =>
                "CHROME_WS_BASE is required (e.g. wss://chrome.<base>)".to_string(),
        }
    }
}

/// An error with the contexts it passed through, the outermost first.
pub struct ErrorChain {
    pub causes: Vec<String>,
}

impl View for ErrorChain {
    type V = Seq<Seq<char>>;

    open spec fn view(&self) -> Seq<Seq<char>> {
        texts(self.causes@)
    }
}

impl ErrorChain {
    /// The chain that holds only a refusal of the library's own.
    pub fn of(e: &Refusal) -> (r: ErrorChain)
        ensures
            r@ == seq![message(e@)],
    {
        let mut causes: Vec<String> = Vec::new();
        causes.push(e.message());
        let r = ErrorChain { causes };
        assert(r@ =~= seq![message(e@)]);
        r
    }

    /// The chain with one more context around it.
    pub fn context(self, what: &str) -> (r: ErrorChain)
        ensures
            r@ == seq![what@] + self@,
    {
        let mut causes = self.causes;
        causes.insert(0, what.to_string());
        let r = ErrorChain { causes };
        assert(r@ =~= seq![what@] + self@);
        r
    }

    /// The chain on one line, each context before its cause.
    pub fn render(&self) -> (r: String)
        ensures
            r@ == joined(self@, ": "@),
    {
        join(&self.causes, ": ")
    }
}

/// `s`, in lower case, speaks of a lost connection.
pub open spec fn speaks_of_disconnect(s: Seq<char>) -> bool {
    ||| has_text(s, "connection closed"@)
    ||| has_text(s, "disconnected"@)
    ||| has_text(s, "connection refused"@)
    ||| has_text(s, "broken pipe"@)
    ||| has_text(s, "websocket"@)
}

/// Whether a message in lower case speaks of a lost connection.
pub fn mentions_disconnect(lowered: &str) -> (r: bool)
    ensures
        r == speaks_of_disconnect(lowered@),
{
    contains_text(lowered, "connection closed") || contains_text(lowered, "disconnected")
        || contains_text(lowered, "connection refused") || contains_text(lowered, "broken pipe")
        || contains_text(lowered, "websocket")
}

/// Whether an error looks like a lost connection to Chrome, in which case the
/// next call has to connect anew.
pub fn looks_like_disconnect(err: &ErrorChain) -> (r: bool)
    ensures
        r == speaks_of_disconnect(lowercase(joined(err@, ": "@))),
        is_ascii_chars(joined(err@, ": "@)) ==> r == speaks_of_disconnect(
            ascii_lower(joined(err@, ": "@)),
        ),
{
    let line = err.render();
    let lowered = to_lowercase(line.as_str());
    mentions_disconnect(lowered.as_str())
}

/// An error that holds one of the phrases anywhere speaks of a lost connection,
/// and no other does.
pub proof fn law_lost_connection_is_recognised(a: Seq<char>, b: Seq<char>, s: Seq<char>)
    ensures
        speaks_of_disconnect(a + "connection closed"@ + b),
        speaks_of_disconnect(a + "disconnected"@ + b),
        speaks_of_disconnect(a + "connection refused"@ + b),
        speaks_of_disconnect(a + "broken pipe"@ + b),
        speaks_of_disconnect(a + "websocket"@ + b),
        speaks_of_disconnect(s) ==> has_text(s, "connection closed"@) || has_text(
            s,
            "disconnected"@,
        ) || has_text(s, "connection refused"@) || has_text(s, "broken pipe"@) || has_text(
            s,
            "websocket"@,
        ),
{
    law_has_text(a, "connection closed"@, b, s);
    law_has_text(a, "disconnected"@, b, s);
    law_has_text(a, "connection refused"@, b, s);
    law_has_text(a, "broken pipe"@, b, s);
    law_has_text(a, "websocket"@, b, s);
}

/// A refusal quotes what it is about, as it was given.
pub proof fn law_refusals_quote(t: Seq<char>, index: usize, count: usize, ms: u64)
    ensures
        has_text(message(Failure::UnknownTool { name: t }), t),
        has_text(message(Failure::NotNonEmptyString { field: t }), t),
        has_text(message(Failure::ViewportNotObject { field: t }), t),
        has_text(message(Failure::ViewportWidth { field: t }), t + ".width"@),
        has_text(message(Failure::ViewportHeight { field: t }), t + ".height"@),
        has_text(message(Failure::CoordinateRequired { axis: t }), "`"@ + t + "`"@),
        has_text(message(Failure::SessionNotFound { session_id: t }), ": "@ + t + "."@),
        has_text(message(Failure::NoPageTarget { session_id: t }), t),
        has_text(message(Failure::UnknownKey { key: t }), "`"@ + t + "`"@),
        has_text(message(Failure::JsException { message: t }), t),
        has_text(message(Failure::ElementNotFound { selector: t }), "`"@ + t + "`"@),
        has_text(message(Failure::BadCoordinate { axis: t }), t),
        has_text(message(Failure::SelectorTimeout { selector: t }), t),
        has_text(message(Failure::NoRandomness { reason: t }), t),
        has_text(message(Failure::NavigationTimeout { ms }), decimal(ms as nat) + "ms"@),
        has_text(message(Failure::NoTab { index, count }), "index "@ + decimal(index as nat)),
        has_text(message(Failure::NoTab { index, count }), decimal(count as nat) + " tabs"@),
{
    let none = Seq::<char>::empty();
    reveal_strlit(".width");
    reveal_strlit(".width must be a positive integer");
    reveal_strlit(".height");
    reveal_strlit(".height must be a positive integer");
    reveal_strlit("`");
    reveal_strlit("` is required");
    reveal_strlit(": ");
    reveal_strlit(".");
    reveal_strlit("Session not found: ");
    reveal_strlit(". Call open_browser_session first.");
    reveal_strlit("unknown key `");
    reveal_strlit(
        "` (use names like Enter, Tab, Escape, ArrowDown, Backspace, or a single char)",
    );
    reveal_strlit("element `");
    reveal_strlit("` not found or not visible");
    reveal_strlit("ms");
    reveal_strlit("index ");
    reveal_strlit("no tab at index ");
    reveal_strlit(" tabs");
    reveal_strlit(" tabs)");
    lemma_quoted("unknown tool: "@, t, none, message(Failure::UnknownTool { name: t }));
    lemma_quoted(
        none,
        t,
        " must be a non-empty string"@,
        message(Failure::NotNonEmptyString { field: t }),
    );
    lemma_quoted(
        none,
        t,
        " must be an object {width, height}"@,
        message(Failure::ViewportNotObject { field: t }),
    );
    lemma_quoted(
        none,
        t + ".width"@,
        ".width must be a positive integer"@.skip(6),
        message(Failure::ViewportWidth { field: t }),
    );
    lemma_quoted(
        none,
        t + ".height"@,
        ".height must be a positive integer"@.skip(7),
        message(Failure::ViewportHeight { field: t }),
    );
    lemma_quoted(
        none,
        "`"@ + t + "`"@,
        "` is required"@.skip(1),
        message(Failure::CoordinateRequired { axis: t }),
    );
    lemma_quoted(
        "Session not found: "@.take(17),
        ": "@ + t + "."@,
        ". Call open_browser_session first."@.skip(1),
        message(Failure::SessionNotFound { session_id: t }),
    );
    lemma_quoted(
        "no page target for session "@,
        t,
        " after creating one"@,
        message(Failure::NoPageTarget { session_id: t }),
    );
    lemma_quoted(
        "unknown key `"@.take(12),
        "`"@ + t + "`"@,
        "` (use names like Enter, Tab, Escape, ArrowDown, Backspace, or a single char)"@.skip(1),
        message(Failure::UnknownKey { key: t }),
    );
    lemma_quoted("JS exception: "@, t, none, message(Failure::JsException { message: t }));
    lemma_quoted(
        "element `"@.take(8),
        "`"@ + t + "`"@,
        "` not found or not visible"@.skip(1),
        message(Failure::ElementNotFound { selector: t }),
    );
    lemma_quoted("bad "@, t, " coord"@, message(Failure::BadCoordinate { axis: t }));
    lemma_quoted(
        "timed out waiting for selector "@,
        t,
        none,
        message(Failure::SelectorTimeout { selector: t }),
    );
    lemma_quoted("getrandom: "@, t, none, message(Failure::NoRandomness { reason: t }));
    lemma_quoted(
        "navigation timed out after "@,
        decimal(ms as nat) + "ms"@,
        none,
        message(Failure::NavigationTimeout { ms }),
    );
    let all = message(Failure::NoTab { index, count });
    lemma_quoted(
        "no tab at index "@.take(10),
        "index "@ + decimal(index as nat),
        " (session has "@ + decimal(count as nat) + " tabs)"@,
        all,
    );
    lemma_quoted(
        "no tab at index "@ + decimal(index as nat) + " (session has "@,
        decimal(count as nat) + " tabs"@,
        " tabs)"@.skip(5),
        all,
    );
}

/// What stands between two texts stands in the whole.
proof fn lemma_quoted(a: Seq<char>, p: Seq<char>, b: Seq<char>, whole: Seq<char>)
    requires
        whole =~= a + p + b,
    ensures
        has_text(whole, p),
{
    law_has_text(a, p, b, whole);
}

}
