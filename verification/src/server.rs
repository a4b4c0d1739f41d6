//! The server as a whole: which tool a call reaches, what it needs first, and
//! what becomes of an error.
use vstd::prelude::*;
use vstd::utf8::is_ascii_chars;

use crate::chrome_ctx::{ChromeContext, ContextView};
use crate::error::{
    looks_like_disconnect, speaks_of_disconnect, ErrorChain, Failure, Refusal,
};
use crate::outside::lowercase;
use crate::text::{ascii_lower, joined};
use crate::tools::reply::{error_reply, Content, Reply, ReplyView};
use crate::tools::{find_tool, tool_named, Tool};

verus! {

/// The name under which the server tells a client of itself.
pub const SERVER_NAME: &'static str = "browser-session-mcp";

/// What a client is told of how to use the tools.
pub const INSTRUCTIONS: &'static str =
    "Per-call isolated browser sessions against a shared persistent Chrome. Call open_browser_session to obtain a sessionId; pass it into every subsequent tool call. For human-takeover (request_human_takeover/await_human_takeover): show the URL, then run await_human_takeover in a BACKGROUND task that polls with a short timeout — don't block your main loop waiting on the human.";

/// A tool asks for the connection to Chrome before it reads its arguments. The
/// others do without Chrome, or close a session also where Chrome is gone.
pub open spec fn connects_first(t: Tool) -> bool {
    match t {
        Tool::CloseSession | Tool::GetStealth | Tool::AwaitTakeover | Tool::ListStates
        | Tool::DeleteState => false,
        _ => true,
    }
}

/// Whether a tool asks for the connection to Chrome before it reads its
/// arguments.
pub fn needs_chrome_first(t: Tool) -> (r: bool)
    ensures
        r == connects_first(t),
{
    match t {
        Tool::CloseSession | Tool::GetStealth | Tool::AwaitTakeover | Tool::ListStates
        | Tool::DeleteState => false,
        _ => true,
    }
}

/// What the server holds.
pub struct BrowserSessionServer {
    pub ctx: ChromeContext,
    pub logs_dir: String,
}

impl BrowserSessionServer {
    /// A server with its context and the directory of the logs.
    pub fn new(ctx: ChromeContext, logs_dir: String) -> (r: BrowserSessionServer)
        ensures
            r.ctx == ctx,
            r.logs_dir == logs_dir,
    {
        BrowserSessionServer { ctx, logs_dir }
    }

    /// The tool that a call reaches.
    pub fn dispatch(&self, name: &str) -> (r: Result<Tool, Refusal>)
        ensures
            match r {
                Ok(t) => tool_named(name@) == Some(t),
                Err(e) => tool_named(name@) is None && e@ == (Failure::UnknownTool {
                    name: name@,
                }),
            },
    {
        match find_tool(name) {
            Some(t) => Ok(t),
            None => Err(Failure::UnknownTool { name: name.to_string() }),
        }
    }

    /// The answer to a call that failed. An error that looks like a lost
    /// connection makes the next call connect anew.
    pub fn call_failed(&mut self, err: &ErrorChain) -> (r: Reply)
        ensures
            r@ == (ReplyView {
                content: seq![Content::Text(joined(err@, ": "@))],
                structured: None,
                is_error: true,
            }),
            final(self).ctx@ == (if speaks_of_disconnect(lowercase(joined(err@, ": "@))) {
                ContextView { connected: false, ..old(self).ctx@ }
            } else {
                old(self).ctx@
            }),
            is_ascii_chars(joined(err@, ": "@)) ==> final(self).ctx@.connected == (
            old(self).ctx@.connected && !speaks_of_disconnect(ascii_lower(joined(err@, ": "@)))),
            final(self).logs_dir == old(self).logs_dir,
    {
        if looks_like_disconnect(err) {
            self.ctx.invalidate();
        }
        error_reply(err)
    }
}

/// A tool that works on Chrome asks for the connection first. One that reads or
/// removes files alone does not, nor does the one that closes a session, which has
/// to work where Chrome is gone.
pub proof fn law_chrome_is_needed(t: Tool)
    ensures
        connects_first(t) <==> !(t == Tool::CloseSession || t == Tool::GetStealth || t
            == Tool::AwaitTakeover || t == Tool::ListStates || t == Tool::DeleteState),
{
}

}
