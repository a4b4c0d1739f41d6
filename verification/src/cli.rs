//! The command line: one program in several roles.
use vstd::prelude::*;
use vstd::string::StringExecFns;

use crate::text::{cat2, cat3, opt_str_text, opt_text, same_text};

verus! {

/// How the program is used.
pub const USAGE: &'static str =
    "browser-session — isolated browser sessions over a shared Chrome\n\nUsage: browser-session <command>\n\nCommands:\n  mcp         MCP server over stdio (needs BROWSER_URL)\n  listener    always-on console + network capture to NDJSON\n  reaper      one-shot sweep of idle sessions (run on a timer)\n  takeover    HTTP daemon serving the human-takeover page\n\nEach command is configured by environment variables; see the README.";

/// What the program is asked to be, over the type of texts.
pub enum Command<S> {
    /// The server for tool calls.
    Mcp,
    /// The one that logs console and network.
    Listener,
    /// The one that closes idle sessions.
    Reaper,
    /// The one that serves the takeover page.
    Takeover,
    /// To tell its version.
    Version,
    /// To tell how it is used.
    Help,
    /// Nothing that it knows.
    Unknown { given: Option<S> },
}

/// What a command says.
pub open spec fn command_view(c: Command<String>) -> Command<Seq<char>> {
    match c {
        Command::Mcp => Command::Mcp,
        Command::Listener => Command::Listener,
        Command::Reaper => Command::Reaper,
        Command::Takeover => Command::Takeover,
        Command::Version => Command::Version,
        Command::Help => Command::Help,
        Command::Unknown { given } => Command::Unknown { given: opt_text(given) },
    }
}

/// What an argument asks for.
pub open spec fn command_of(arg: Option<Seq<char>>) -> Command<Seq<char>> {
    if arg == Some("mcp"@) {
        Command::Mcp
    } else if arg == Some("listener"@) {
        Command::Listener
    } else if arg == Some("reaper"@) {
        Command::Reaper
    } else if arg == Some("takeover"@) {
        Command::Takeover
    } else if arg == Some("-V"@) || arg == Some("--version"@) {
        Command::Version
    } else if arg == Some("-h"@) || arg == Some("--help"@) {
        Command::Help
    } else {
        Command::Unknown { given: arg }
    }
}

/// What the first argument asks for.
pub fn parse_command(arg: Option<&str>) -> (r: Command<String>)
    ensures
        command_view(r) == command_of(opt_str_text(arg)),
{
    match arg {
        Some(a) => {
            if same_text(a, "mcp") {
                Command::Mcp
            } else if same_text(a, "listener") {
                Command::Listener
            } else if same_text(a, "reaper") {
                Command::Reaper
            } else if same_text(a, "takeover") {
                Command::Takeover
            } else if same_text(a, "-V") || same_text(a, "--version") {
                Command::Version
            } else if same_text(a, "-h") || same_text(a, "--help") {
                Command::Help
            } else {
                Command::Unknown { given: Some(a.to_string()) }
            }
        },
        None => Command::Unknown { given: None },
    }
}

/// What is said, in lines, to an argument that is not known, or to none.
pub fn usage_error(given: Option<&str>) -> (r: String)
    ensures
        r@ == (match opt_str_text(given) {
            Some(cmd) => "unknown command: "@ + cmd + "\n\n"@,
            None => ""@,
        }) + USAGE@ + "\n"@,
{
    let mut out = match given {
        Some(cmd) => cat3("unknown command: ", cmd, "\n\n"),
        None => "".to_string(),
    };
    out.append(USAGE);
    out.append("\n");
    out
}

/// The line that tells the version.
pub fn version_line(version: &str) -> (r: String)
    ensures
        r@ == "browser-session "@ + version@,
{
    cat2("browser-session ", version)
}

/// The address of Chrome, from the value of `BROWSER_URL`, which is required and
/// may not be empty.
pub fn browser_url(configured: Option<String>) -> (r: Option<String>)
    ensures
        opt_text(r) == (match opt_text(configured) {
            Some(s) => if s.len() > 0 {
                Some(s)
            } else {
                None
            },
            None => None,
        }),
{
    match configured {
        Some(s) => {
            if s.as_str().is_empty() {
                None
            } else {
                Some(s)
            }
        },
        None => None,
    }
}

/// Each command has its word, two of them have a short one too, and any other
/// argument is given back as it came.
pub proof fn law_commands_have_their_words(arg: Seq<char>)
    ensures
        command_of(Some("mcp"@)) == Command::<Seq<char>>::Mcp,
        command_of(Some("listener"@)) == Command::<Seq<char>>::Listener,
        command_of(Some("reaper"@)) == Command::<Seq<char>>::Reaper,
        command_of(Some("takeover"@)) == Command::<Seq<char>>::Takeover,
        command_of(Some("-V"@)) == Command::<Seq<char>>::Version,
        command_of(Some("--version"@)) == Command::<Seq<char>>::Version,
        command_of(Some("-h"@)) == Command::<Seq<char>>::Help,
        command_of(Some("--help"@)) == Command::<Seq<char>>::Help,
        command_of(None) == (Command::<Seq<char>>::Unknown { given: None }),
        command_of(Some(arg)) is Unknown ==> command_of(Some(arg)) == (Command::Unknown {
            given: Some(arg),
        }),
        command_of(Some(arg)) is Unknown <==> arg != "mcp"@ && arg != "listener"@ && arg
            != "reaper"@ && arg != "takeover"@ && arg != "-V"@ && arg != "--version"@ && arg
            != "-h"@ && arg != "--help"@,
{
    reveal_strlit("mcp");
    reveal_strlit("listener");
    reveal_strlit("reaper");
    reveal_strlit("takeover");
    reveal_strlit("-V");
    reveal_strlit("--version");
    reveal_strlit("-h");
    reveal_strlit("--help");
    assert("--version"@.len() == 9 && "--help"@.len() == 6);
    assert("mcp"@.len() == 3 && "reaper"@.len() == 6);
    assert("listener"@.len() == 8 && "takeover"@.len() == 8);
    assert("-V"@.len() == 2 && "-h"@.len() == 2);
    assert("listener"@[0] != "takeover"@[0]);
    assert("reaper"@[0] != "--help"@[0]);
    assert("-V"@[1] != "-h"@[1]);
}

}
