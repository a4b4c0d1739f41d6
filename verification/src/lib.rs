//! Isolated browser sessions for agents, over one shared Chrome.
//!
//! The library holds what is decided: which tool a call reaches and what its
//! arguments mean, how a session's tabs are kept in order, what is done step by
//! step to open a session or find a page, and how a live page is handed to a
//! human. Talking to Chrome, to files and to sockets is left to the program
//! around it: a step says what is to be done outside, an event says what came of
//! it, and the library says how to go on.
//!
//! - [`tools`]: the tools, their arguments and their answers
//! - [`sessions`]: sessions and tabs, and the work on them
//! - [`takeover`]: links for a human, and the daemon behind them
//! - [`user_agent`]: what a session shows as its user agent
//! - [`chrome_ctx`], [`server`], [`cli`]: the connection, the server, the program
//! - [`poll`], [`error`], [`json`], [`paths`], [`text`]: what they are built on
//! - [`outside`]: what is taken from other crates without proof
pub mod chrome_ctx;
pub mod cli;
pub mod error;
pub mod json;
pub mod outside;
pub mod paths;
pub mod poll;
pub mod server;
pub mod sessions;
pub mod takeover;
pub mod text;
pub mod tools;
pub mod user_agent;
