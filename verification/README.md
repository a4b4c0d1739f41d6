# browser-session-mcp

Isolated browser sessions over one shared Chrome, as a library whose behaviour is
stated in contracts and proved by Verus, and a program around it.

A session is a browser context of Chrome. Tools open sessions and tabs, load and
inspect pages, act on them by mouse and keyboard, run scripts, read what was
logged, save and load cookies, and hand a page to a human who logs in themselves.

## Layout

- `src/` is the verified library.
  - `takeover` holds the takeover of a page by a human: tickets and their files,
    the daemon's requests and responses (`http`), who holds a link (`claim`), the
    exchange of a request for a response (`exchange`), what holds of the files over
    all requests (`laws`), and what holds where many browsers claim one link at the
    same time (`race`).
  - `sessions` holds the sessions: the stable order of tabs (`tabs`), the work on
    them (`work`), how one is opened (`open`), and their `laws`.
  - `tools` holds the tools: their schemas, arguments (`args`), answers (`reply`,
    `logs`), scripts, keys, cookies, and each call from start to end (`run`).
  - `chrome_ctx`, `server`, `cli` and `user_agent` hold the connection's life, the
    server's decisions, the command line and how Chrome shows itself.
  - `error`, `json`, `paths`, `poll` and `text` hold what the others share.
  - `outside` is the one place with contracts that are not proved: those of
    functions of the standard library and of other crates.
- `app/` is the program: the protocol server over stdio, the takeover daemon, the
  DevTools connection and the files.
- `tests/` runs the library.

The library does no input or output. What takes turns between deciding and doing
is a machine: it says what to do next, the program does it and hands back what
came of it.

The roles `listener` and `reaper` are programs of their own,
`browser-session-listener` and `browser-session-reaper`.
