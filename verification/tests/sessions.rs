use browser_session_mcp::error::ErrorChain;
use browser_session_mcp::json::{get, Json, Number};
use browser_session_mcp::sessions::open::{resume_open, OpenNews, OpenTask, Opening};
use browser_session_mcp::sessions::tabs::TabRegistry;
use browser_session_mcp::sessions::work::{Goal, News, Outcome, Report, Task, Work};
use browser_session_mcp::sessions::{page_targets, session_list, SessionManager, Target, Viewport};
use browser_session_mcp::user_agent::{
    blocked_loopback, chrome_version, resolve, user_agent_params, viewport_params, UaOverride,
    STEALTH_JS,
};

fn target(id: &str, context: &str) -> Target {
    Target {
        target_id: id.to_string(),
        kind: "page".to_string(),
        url: format!("http://{id}/"),
        title: format!("Title {id}"),
        context_id: Some(context.to_string()),
    }
}

fn targets(ids: &[&str], context: &str) -> Vec<Target> {
    ids.iter().map(|id| target(id, context)).collect()
}

fn error(text: &str) -> ErrorChain {
    ErrorChain { causes: vec![text.to_string()] }
}

fn ids(tabs: &[Target]) -> Vec<String> {
    tabs.iter().map(|t| t.target_id.clone()).collect()
}

/// What Chrome has, for a whole run of work.
struct Chrome {
    targets: Vec<(String, String)>,
    contexts: Vec<String>,
    created: usize,
    asked: Vec<String>,
}

impl Chrome {
    fn with(targets: &[(&str, &str)]) -> Chrome {
        Chrome {
            targets: targets.iter().map(|(a, b)| (a.to_string(), b.to_string())).collect(),
            contexts: targets.iter().map(|(_, b)| b.to_string()).collect(),
            created: 0,
            asked: Vec::new(),
        }
    }

    fn all(&self) -> Vec<Target> {
        let mut v: Vec<Target> = self.targets.iter().map(|(a, b)| target(a, b)).collect();
        v.push(Target {
            target_id: "W".to_string(),
            kind: "service_worker".to_string(),
            url: String::new(),
            title: String::new(),
            context_id: None,
        });
        v
    }

    fn perform(&mut self, task: &Task) -> Report {
        match task {
            Work::FindSession { .. } | Work::ListTabs { .. } => News::Targets(Ok(self.all())),
            Work::FindContext { .. } => News::Contexts(Ok(self.contexts.clone())),
            Work::Touch { .. } | Work::Forget { .. } => News::Noted,
            Work::CreatePage { session_id, url, .. } => {
                self.created += 1;
                self.asked.push(format!("create {url}"));
                let id = format!("N{}", self.created);
                self.targets.push((id.clone(), session_id.clone()));
                News::Created(Ok(id))
            }
            Work::FindUserAgent { .. } => News::UserAgent(Some(UaOverride {
                user_agent: "UA".to_string(),
                metadata: Json::Null,
            })),
            Work::ApplyUserAgent { ua, target_id, .. } => {
                self.asked.push(format!("ua {} {target_id}", ua.user_agent));
                News::Answer(Ok(()))
            }
            Work::ApplyStealth { target_id, .. } => {
                self.asked.push(format!("script {target_id}"));
                News::Answer(Ok(()))
            }
            Work::OpenPage { target_id, .. } => {
                self.asked.push(format!("page {target_id}"));
                News::Answer(Ok(()))
            }
            Work::CloseTarget { target_id, .. } => {
                self.targets.retain(|(a, _)| a != target_id);
                News::Answer(Ok(()))
            }
            Work::Dispose { session_id } => {
                self.targets.retain(|(_, b)| b != session_id);
                self.contexts.retain(|b| b != session_id);
                News::Answer(Ok(()))
            }
            Work::Done(_) | Work::Failed(_) => unreachable!(),
        }
    }

    fn run(&mut self, manager: &mut SessionManager, mut task: Task) -> Result<Outcome<String, Vec<Target>>, String> {
        for _ in 0..13 {
            match task {
                Work::Done(o) => return Ok(o),
                Work::Failed(e) => return Err(e.render()),
                _ => {}
            }
            let news = self.perform(&task);
            task = manager.advance(task, news);
        }
        panic!("the work did not end");
    }
}

fn page(o: Result<Outcome<String, Vec<Target>>, String>) -> String {
    match o {
        Ok(Outcome::Page { target_id }) => target_id,
        Ok(_) => panic!("a page was wanted"),
        Err(e) => panic!("{e}"),
    }
}

fn tabs(o: Result<Outcome<String, Vec<Target>>, String>) -> (Vec<String>, Option<String>) {
    match o {
        Ok(Outcome::Tabs { tabs, active }) => (ids(&tabs), active),
        _ => panic!("tabs were wanted"),
    }
}

#[test]
fn only_pages_are_tabs() {
    let mut all = targets(&["a"], "S");
    all.push(Target {
        target_id: "b".to_string(),
        kind: "iframe".to_string(),
        url: String::new(),
        title: String::new(),
        context_id: Some("S".to_string()),
    });
    assert_eq!(ids(&page_targets(all)), vec!["a"]);
}

#[test]
fn the_order_of_tabs_is_stable() {
    let mut reg = TabRegistry::new();
    let (t, active) = reg.reconcile("S", &targets(&["a", "b", "c"], "S"));
    assert_eq!(ids(&t), vec!["a", "b", "c"]);
    assert_eq!(active, Some("c".to_string()));
    // Chrome lists them in another order: nothing changes.
    let (t, active) = reg.reconcile("S", &targets(&["c", "a", "b"], "S"));
    assert_eq!(ids(&t), vec!["a", "b", "c"]);
    assert_eq!(active, Some("c".to_string()));
    // One closed, one opened.
    let (t, active) = reg.reconcile("S", &targets(&["d", "c", "a"], "S"));
    assert_eq!(ids(&t), vec!["a", "c", "d"]);
    assert_eq!(active, Some("c".to_string()));
    // The active one closed: the last one is active.
    let (t, active) = reg.reconcile("S", &targets(&["d", "a"], "S"));
    assert_eq!(ids(&t), vec!["a", "d"]);
    assert_eq!(active, Some("d".to_string()));
    let (t, active) = reg.reconcile("S", &targets(&[], "S"));
    assert!(t.is_empty());
    assert_eq!(active, None);
}

#[test]
fn a_tab_made_active_stays_active() {
    let mut reg = TabRegistry::new();
    reg.reconcile("S", &targets(&["a", "b"], "S"));
    reg.set_active("S", "a");
    let (_, active) = reg.reconcile("S", &targets(&["b", "c", "a"], "S"));
    assert_eq!(active, Some("a".to_string()));
}

#[test]
fn sessions_do_not_mix() {
    let mut reg = TabRegistry::new();
    let mut all = targets(&["a"], "S");
    all.extend(targets(&["x", "y"], "R"));
    reg.reconcile("S", &all);
    let (t, active) = reg.reconcile("R", &all);
    assert_eq!(ids(&t), vec!["x", "y"]);
    assert_eq!(active, Some("y".to_string()));
    reg.forget("R");
    let (t, _) = reg.reconcile("S", &all);
    assert_eq!(ids(&t), vec!["a"]);
}

#[test]
fn of_two_targets_with_one_id_the_later_counts() {
    let mut reg = TabRegistry::new();
    let mut all = targets(&["a", "a"], "S");
    all[1].url = "http://later/".to_string();
    let (t, _) = reg.reconcile("S", &all);
    assert_eq!(t.len(), 1);
    assert_eq!(t[0].url, "http://later/");
}

#[test]
fn a_dropped_tab_is_gone_from_order_and_active() {
    let mut reg = TabRegistry::new();
    reg.reconcile("S", &targets(&["a", "b", "c"], "S"));
    reg.set_active("S", "b");
    reg.drop_tab("S", "b");
    let (t, active) = reg.reconcile("S", &targets(&["a", "c"], "S"));
    assert_eq!(ids(&t), vec!["a", "c"]);
    assert_eq!(active, Some("c".to_string()));
}

#[test]
fn sessions_are_listed_in_order() {
    let mut pages = targets(&["1", "2"], "B");
    pages.extend(targets(&["3"], "A"));
    pages.push(Target { context_id: None, ..target("4", "x") });
    pages.extend(targets(&["5"], "Bb"));
    let list = session_list(&pages);
    let shown: Vec<(String, usize, Option<String>)> = list
        .iter()
        .map(|s| (s.session_id.clone(), s.page_count, s.active_url.clone()))
        .collect();
    assert_eq!(
        shown,
        vec![
            ("A".to_string(), 1, Some("http://3/".to_string())),
            ("B".to_string(), 2, Some("http://2/".to_string())),
            ("Bb".to_string(), 1, Some("http://5/".to_string())),
        ]
    );
    assert!(SessionManager::new().list(Vec::new()).is_empty());
}

#[test]
fn an_unknown_session_is_refused() {
    let mut chrome = Chrome::with(&[("a", "S")]);
    let mut m = SessionManager::new();
    let task = m.active_page("X");
    assert_eq!(
        chrome.run(&mut m, task).err(),
        Some("Session not found: X. Call open_browser_session first.".to_string())
    );
    assert!(chrome.asked.is_empty());
}

#[test]
fn a_session_without_tabs_exists() {
    let mut chrome = Chrome::with(&[]);
    chrome.contexts.push("S".to_string());
    let mut m = SessionManager::new();
    let task = m.context_id_for("S");
    assert!(matches!(
        chrome.run(&mut m, task),
        Ok(Outcome::Context { session_id }) if session_id == "S"
    ));
    let task = m.active_page("S");
    assert_eq!(page(chrome.run(&mut m, task)), "N1");
    assert_eq!(chrome.asked, vec!["create about:blank", "ua UA N1", "script N1"]);
}

#[test]
fn indices_mean_the_listed_tabs() {
    let mut chrome = Chrome::with(&[("a", "S"), ("b", "S"), ("c", "S")]);
    let mut m = SessionManager::new();
    let task = m.tabs("S");
    let (listed, active) = tabs(chrome.run(&mut m, task));
    assert_eq!(listed, vec!["a", "b", "c"]);
    assert_eq!(active, Some("c".to_string()));
    chrome.targets.reverse();
    for (i, id) in listed.iter().enumerate() {
        let task = m.page_at("S", i);
        assert_eq!(&page(chrome.run(&mut m, task)), id);
    }
    let task = m.page_at("S", 3);
    assert_eq!(
        chrome.run(&mut m, task).err(),
        Some("no tab at index 3 (session has 3 tabs)".to_string())
    );
}

#[test]
fn switching_and_closing_tabs() {
    let mut chrome = Chrome::with(&[("a", "S"), ("b", "S"), ("c", "S")]);
    let mut m = SessionManager::new();
    let task = m.switch_tab("S", 0);
    assert_eq!(page(chrome.run(&mut m, task)), "a");
    let task = m.active_page("S");
    assert_eq!(page(chrome.run(&mut m, task)), "a");
    let task = m.close_tab("S", 0);
    assert!(matches!(chrome.run(&mut m, task), Ok(Outcome::Closed)));
    let task = m.tabs("S");
    let (listed, active) = tabs(chrome.run(&mut m, task));
    assert_eq!(listed, vec!["b", "c"]);
    assert_eq!(active, Some("c".to_string()));
    let task = m.close_tab("S", 2);
    assert!(chrome.run(&mut m, task).is_err());
}

#[test]
fn a_new_page_is_active() {
    let mut chrome = Chrome::with(&[("a", "S")]);
    let mut m = SessionManager::new();
    let task = m.new_page("S", Some("http://x/"));
    assert_eq!(page(chrome.run(&mut m, task)), "N1");
    assert_eq!(chrome.asked[0], "create http://x/");
    let task = m.active_target_id("S");
    assert!(matches!(
        chrome.run(&mut m, task),
        Ok(Outcome::Target { target_id }) if target_id == "N1"
    ));
}

#[test]
fn the_active_target_is_opened_where_there_is_none() {
    let mut chrome = Chrome::with(&[]);
    chrome.contexts.push("S".to_string());
    let mut m = SessionManager::new();
    let task = m.active_target_id("S");
    assert!(matches!(
        chrome.run(&mut m, task),
        Ok(Outcome::Target { target_id }) if target_id == "N1"
    ));
    let again = m.advance(
        Work::ListTabs { session_id: "S".to_string(), goal: Goal::TargetAgain },
        News::Targets(Ok(Vec::new())),
    );
    match again {
        Work::Failed(e) => {
            assert_eq!(e.render(), "no page target for session S after creating one")
        }
        _ => panic!("there is no page"),
    }
}

#[test]
fn a_closed_session_is_forgotten() {
    let mut chrome = Chrome::with(&[("a", "S"), ("b", "S")]);
    let mut m = SessionManager::new();
    let task = m.tabs("S");
    chrome.run(&mut m, task).ok();
    let task = m.close("S");
    assert!(matches!(chrome.run(&mut m, task), Ok(Outcome::Closed)));
    let task = m.tabs("S");
    assert!(chrome.run(&mut m, task).is_err());
}

#[test]
fn errors_of_chrome_keep_their_context() {
    let mut m = SessionManager::new();
    let s = || "S".to_string();
    let t = || "T".to_string();
    let goal = || Goal::Tabs;
    let cases: Vec<(Task, Report, &str)> = vec![
        (Work::FindSession { session_id: s(), goal: goal() }, News::Targets(Err(error("e"))), "Target.getTargets: e"),
        (Work::FindContext { session_id: s(), goal: goal() }, News::Contexts(Err(error("e"))), "Target.getBrowserContexts: e"),
        (Work::ListTabs { session_id: s(), goal: goal() }, News::Targets(Err(error("e"))), "Target.getTargets: e"),
        (Work::CreatePage { session_id: s(), goal: goal(), url: s() }, News::Created(Err(error("e"))), "Target.createTarget: e"),
        (Work::ApplyStealth { session_id: s(), goal: goal(), target_id: t() }, News::Answer(Err(error("e"))), "Page.addScriptToEvaluateOnNewDocument: e"),
        (Work::OpenPage { session_id: s(), goal: goal(), target_id: t() }, News::Answer(Err(error("e"))), "Browser::get_page: e"),
        (Work::CloseTarget { session_id: s(), target_id: t() }, News::Answer(Err(error("e"))), "Target.closeTarget: e"),
        (Work::Dispose { session_id: s() }, News::Answer(Err(error("e"))), "Target.disposeBrowserContext: e"),
    ];
    for (task, news, expected) in cases {
        match m.advance(task, news) {
            Work::Failed(e) => assert_eq!(e.render(), expected),
            _ => panic!("an error was due"),
        }
    }
}

#[test]
fn pages_that_do_not_open_are_passed_over() {
    let m = SessionManager::new();
    let opened = m.pages(&targets(&["a", "b", "c"], "S"), &vec![true, false, true]);
    assert_eq!(opened, vec!["a", "c"]);
}

/// Opens a session, failing at the given step, and says what was done.
fn open_session(fail_at: usize) -> (Vec<&'static str>, Result<String, String>) {
    let m = SessionManager::new();
    let mut step: OpenTask = m.open(Some(Viewport { width: 10, height: 20 }), false);
    let mut done = Vec::new();
    for i in 0..10 {
        let bad = i == fail_at;
        let news = match &step {
            Opening::ReadVersion { .. } => {
                done.push("version");
                OpenNews::Product(if bad { Err(error("e")) } else { Ok("HeadlessChrome/146.0.1.2".to_string()) })
            }
            Opening::CreateContext { ua, .. } => {
                assert!(ua.user_agent.contains("Chrome/146.0.0.0 Safari"));
                done.push("context");
                OpenNews::Made(if bad { Err(error("e")) } else { Ok("S".to_string()) })
            }
            Opening::Remember { .. } => {
                done.push("remember");
                OpenNews::Noted
            }
            Opening::CreatePage { .. } => {
                done.push("page");
                OpenNews::Made(if bad { Err(error("e")) } else { Ok("T".to_string()) })
            }
            Opening::ApplyUserAgent { .. } => {
                done.push("ua");
                OpenNews::Answer(if bad { Err(error("e")) } else { Ok(()) })
            }
            Opening::ApplyStealth { .. } => {
                done.push("script");
                OpenNews::Answer(if bad { Err(error("e")) } else { Ok(()) })
            }
            Opening::ApplyViewport { size, .. } => {
                assert_eq!((size.width, size.height), (10, 20));
                done.push("size");
                OpenNews::Answer(if bad { Err(error("e")) } else { Ok(()) })
            }
            Opening::Touch { .. } => {
                done.push("touch");
                OpenNews::Noted
            }
            Opening::Discard { session_id, .. } => {
                assert_eq!(session_id, "S");
                done.push("discard");
                OpenNews::Noted
            }
            Opening::Opened(_) | Opening::Failed(_) => break,
        };
        step = resume_open(step, news);
    }
    let result = match step {
        Opening::Opened(info) => {
            assert_eq!(info.page_count, 1);
            assert_eq!(info.active_url, Some("about:blank".to_string()));
            Ok(info.session_id)
        }
        Opening::Failed(e) => Err(e.render()),
        _ => panic!("the opening did not end"),
    };
    (done, result)
}

#[test]
fn a_session_opens_step_by_step() {
    let (done, result) = open_session(99);
    assert_eq!(done, vec!["version", "context", "remember", "page", "ua", "script", "size", "touch"]);
    assert_eq!(result, Ok("S".to_string()));
}

#[test]
fn a_failed_opening_takes_the_context_back() {
    for (at, expected) in [
        (0, "Browser.getVersion: e"),
        (1, "Target.createBrowserContext: e"),
        (3, "Target.createTarget: e"),
        (4, "Network.setUserAgentOverride: e"),
        (5, "Page.addScriptToEvaluateOnNewDocument: e"),
        (6, "Emulation.setDeviceMetricsOverride: e"),
    ] {
        let (done, result) = open_session(at);
        assert_eq!(result, Err(expected.to_string()));
        assert_eq!(done.contains(&"discard"), at >= 3);
    }
}

#[test]
fn the_default_size_is_used_where_none_is_asked_for() {
    let d = Viewport::default();
    assert_eq!((d.width, d.height), (1280, 800));
    let step = Opening::ApplyStealth {
        session_id: "S".to_string(),
        target_id: "T".to_string(),
        viewport: None,
    };
    assert!(matches!(
        resume_open(step, OpenNews::Answer(Ok(()))),
        Opening::ApplyViewport { size, .. } if size == d
    ));
}

#[test]
fn the_version_is_behind_the_slash() {
    let v = chrome_version("HeadlessChrome/146.0.7680.31");
    assert_eq!((v.full.as_str(), v.major.as_str()), ("146.0.7680.31", "146"));
    let v = chrome_version("Chrome");
    assert_eq!((v.full.as_str(), v.major.as_str()), ("146.0.7680.31", "146"));
    let v = chrome_version("A/B/C.D");
    assert_eq!((v.full.as_str(), v.major.as_str()), ("B/C.D", "B/C"));
}

fn text_of(j: Option<&Json>) -> String {
    match j {
        Some(Json::Str(s)) => s.clone(),
        _ => panic!("a text was wanted"),
    }
}

#[test]
fn user_agents_match_their_metadata() {
    let v = chrome_version("HeadlessChrome/146.0.7680.31");
    let desktop = resolve(&v, false);
    assert_eq!(
        desktop.user_agent,
        "Mozilla/5.0 (X11; Linux x86_64) AppleWebKit/537.36 (KHTML, like Gecko) Chrome/146.0.0.0 Safari/537.36"
    );
    let mobile = resolve(&v, true);
    assert_eq!(
        mobile.user_agent,
        "Mozilla/5.0 (Linux; Android 14; Pixel 8) AppleWebKit/537.36 (KHTML, like Gecko) Chrome/146.0.0.0 Mobile Safari/537.36"
    );
    assert!(!desktop.user_agent.contains("Headless"));
    match &mobile.metadata {
        Json::Object(ms) => {
            assert_eq!(text_of(get(ms, "platform")), "Android");
            assert_eq!(text_of(get(ms, "model")), "Pixel 8");
            assert_eq!(get(ms, "mobile"), Some(&Json::Bool(true)));
            match get(ms, "brands") {
                Some(Json::Array(b)) => match &b[2] {
                    Json::Object(m) => {
                        assert_eq!(text_of(get(m, "brand")), "Not-A.Brand");
                        assert_eq!(text_of(get(m, "version")), "24");
                    }
                    _ => panic!("an object was wanted"),
                },
                _ => panic!("a list was wanted"),
            }
        }
        _ => panic!("an object was wanted"),
    }
    match user_agent_params(&desktop) {
        Json::Object(ms) => {
            assert_eq!(text_of(get(&ms, "userAgent")), desktop.user_agent);
            assert_eq!(get(&ms, "userAgentMetadata"), Some(&desktop.metadata));
            assert_eq!(text_of(get(&ms, "acceptLanguage")), "en-US,en;q=0.9");
        }
        _ => panic!("an object was wanted"),
    }
}

#[test]
fn loopback_is_blocked_on_every_port() {
    let patterns = blocked_loopback();
    assert_eq!(patterns.len(), 8);
    assert_eq!(patterns[2], "*://127.0.0.1/*");
    assert_eq!(patterns[5], "*://[::1]:*");
    assert!(STEALTH_JS.starts_with("(() => {"));
    assert!(STEALTH_JS.ends_with("})();"));
}

#[test]
fn a_page_has_its_size_on_a_plain_screen() {
    match viewport_params(Viewport { width: 1280, height: 800 }) {
        Json::Object(ms) => {
            assert_eq!(ms.len(), 4);
            assert_eq!(get(&ms, "width"), Some(&Json::Number(Number::Unsigned(1280))));
            assert_eq!(get(&ms, "height"), Some(&Json::Number(Number::Unsigned(800))));
            assert_eq!(get(&ms, "deviceScaleFactor"), Some(&Json::Number(Number::Unsigned(1))));
            assert_eq!(get(&ms, "mobile"), Some(&Json::Bool(false)));
        }
        _ => panic!("an object was wanted"),
    }
}

#[test]
fn closing_another_tab_keeps_the_active_one() {
    let mut tabs = TabRegistry::new();
    let all = vec![target("a", "S"), target("b", "S"), target("c", "S")];
    let (_, active) = tabs.reconcile("S", &all);
    assert_eq!(active, Some("c".to_string()));
    tabs.set_active("S", "b");
    tabs.drop_tab("S", "a");
    let left = vec![target("c", "S"), target("b", "S")];
    let (ordered, active) = tabs.reconcile("S", &left);
    assert_eq!(active, Some("b".to_string()));
    let ids: Vec<&str> = ordered.iter().map(|t| t.target_id.as_str()).collect();
    assert_eq!(ids, ["b", "c"]);
}
