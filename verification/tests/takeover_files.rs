use browser_session_mcp::paths::{has_parent_component, join_path};
use browser_session_mcp::takeover::claim::{
    begin_recording, claim, claim_matches, claim_write, resume_recording, Recording, Standing,
};
use browser_session_mcp::takeover::{
    base_url, claim_path, claims_dir, cleanup, daemon_config, done_dir, done_path, expiry_at,
    expiry_ms, is_expired, is_stealth, mint_token, now_ms, required_base, set_stealth, stealth_dir,
    stealth_flag, stealth_path, sweep_entry, sweep_ticket, takeover_dir, ticket_path, token_of,
    tokens_dir, unix_ms, valid_ctx, valid_token, wait_ms, webroot, write_ticket, SweepEntry, Ticket,
};
use std::collections::BTreeMap;

const TOKEN: &str = "0123456789abcdef0123456789abcdef";

fn ticket(expires_at_ms: u128) -> Ticket {
    Ticket { session_id: "CTX1".to_string(), target_id: "T1".to_string(), expires_at_ms }
}

#[test]
fn takeover_dir_has_a_default() {
    assert_eq!(takeover_dir(None), "/var/lib/browser-session-mcp/takeover");
    assert_eq!(takeover_dir(Some("/tmp/t".to_string())), "/tmp/t");
    assert_eq!(takeover_dir(Some(String::new())), "");
}

#[test]
fn base_url_loses_its_trailing_slashes() {
    assert_eq!(base_url(None), None);
    assert_eq!(base_url(Some(String::new())), None);
    assert_eq!(base_url(Some("http://h:1//".to_string())), Some("http://h:1".to_string()));
    assert_eq!(base_url(Some("/".to_string())), Some(String::new()));
}

#[test]
fn a_link_needs_a_base() {
    match required_base(None) {
        Ok(_) => panic!("no base was configured"),
        Err(e) => assert_eq!(
            e.message(),
            "TAKEOVER_BASE_URL is not configured — the takeover daemon/route isn't set up on this host"
        ),
    }
    assert!(matches!(required_base(Some("http://h/".to_string())), Ok(b) if b == "http://h"));
}

#[test]
fn webroot_is_none_when_empty() {
    assert_eq!(webroot(None), None);
    assert_eq!(webroot(Some(String::new())), None);
    assert_eq!(webroot(Some("/srv/".to_string())), Some("/srv/".to_string()));
}

#[test]
fn daemon_needs_a_websocket_base() {
    match daemon_config(None, Some("wss://chrome.example//".to_string())) {
        Ok(c) => {
            assert_eq!(c.bind, "127.0.0.1:9223");
            assert_eq!(c.chrome_ws_base, "wss://chrome.example");
        }
        Err(_) => panic!("a base was given"),
    }
    match daemon_config(Some("0.0.0.0:1".to_string()), Some(String::new())) {
        Ok(_) => panic!("the base is empty"),
        Err(e) => assert_eq!(e.message(), "CHROME_WS_BASE is required (e.g. wss://chrome.<base>)"),
    }
}

#[test]
fn expiry_is_the_lifetime_from_now() {
    assert_eq!(expiry_at(1_000, 300_000), 301_000);
    let before = now_ms();
    let expiry = expiry_ms(5_000);
    let after = now_ms();
    assert!(before + 5_000 <= expiry && expiry <= after + 5_000);
    // The clock is past 2020.
    assert!(before > 1_577_836_800_000);
}

#[test]
fn a_clock_before_1970_counts_as_0() {
    assert_eq!(unix_ms(Some(1_577_836_800_000)), 1_577_836_800_000);
    assert_eq!(unix_ms(None), 0);
}

#[test]
fn a_ticket_lasts_its_time() {
    let t = ticket(expiry_at(1_000, 500));
    assert!(!is_expired(&t, 1_499));
    assert!(is_expired(&t, 1_500));
    assert!(is_expired(&t, 1_501));
}

#[test]
fn waits_have_a_default_and_a_limit() {
    assert_eq!(wait_ms(None), 300_000);
    assert_eq!(wait_ms(Some(4_000)), 4_000);
    assert_eq!(wait_ms(Some(1_800_000)), 1_800_000);
    assert_eq!(wait_ms(Some(9_999_999)), 1_800_000);
}

#[test]
fn tokens_are_32_lower_case_hex_digits() {
    assert!(valid_token(TOKEN));
    assert!(!valid_token("0123456789ABCDEF0123456789abcdef"));
    assert!(!valid_token("0123456789abcdef0123456789abcde"));
    assert!(!valid_token("0123456789abcdef0123456789abcdef0"));
    assert!(!valid_token("../../etc/passwd................"));
    assert!(!valid_token(""));
}

#[test]
fn token_of_bytes_is_their_hex() {
    let bytes: Vec<u8> = vec![0, 1, 2, 15, 16, 31, 32, 127, 128, 159, 160, 171, 205, 239, 254, 255];
    assert_eq!(token_of(&bytes), "0001020f101f207f809fa0abcdeffeff");
}

#[test]
fn minted_tokens_are_valid_and_differ() {
    let a = match mint_token() {
        Ok(t) => t,
        Err(e) => panic!("{}", e.message()),
    };
    let b = match mint_token() {
        Ok(t) => t,
        Err(e) => panic!("{}", e.message()),
    };
    assert!(valid_token(&a));
    assert!(valid_token(&b));
    assert_ne!(a, b);
    assert_ne!(a, "00000000000000000000000000000000");
}

#[test]
fn files_lie_below_the_directory() {
    assert_eq!(tokens_dir("/r"), "/r/tokens");
    assert_eq!(done_dir("/r"), "/r/done");
    assert_eq!(claims_dir("/r/"), "/r/claims");
    assert_eq!(stealth_dir("/r"), "/r/stealth");
    assert_eq!(ticket_path("/r", TOKEN), format!("/r/tokens/{TOKEN}.json"));
    assert_eq!(done_path("/r", TOKEN), format!("/r/done/{TOKEN}"));
    assert_eq!(claim_path("/r", TOKEN), format!("/r/claims/{TOKEN}"));
    assert_eq!(stealth_path("/r", "CTX"), "/r/stealth/CTX");
}

#[test]
fn paths_join_as_the_standard_library_joins_them() {
    for (dir, part) in [("/a", "b"), ("/a/", "b"), ("", "b"), ("/a", "/b"), ("/a", ""), ("x", "y/z")] {
        let expected = std::path::PathBuf::from(dir).join(part);
        assert_eq!(join_path(dir, part), expected.to_str().unwrap_or(""));
    }
}

#[test]
fn parent_components_are_found() {
    assert!(has_parent_component(".."));
    assert!(has_parent_component("a/../b"));
    assert!(!has_parent_component("a/..b/c"));
    assert!(!has_parent_component("a/.../b"));
    assert!(!has_parent_component(""));
}

#[test]
fn a_ticket_is_written_beside_its_place_first() {
    let w = write_ticket("/r", TOKEN);
    assert_eq!(w.dir, "/r/tokens");
    assert_eq!(w.tmp_path, format!("/r/tokens/{TOKEN}.json.tmp"));
    assert_eq!(w.final_path, format!("/r/tokens/{TOKEN}.json"));
}

#[test]
fn cleanup_removes_all_three_files() {
    let (a, b, c) = cleanup("/r", TOKEN);
    assert_eq!(a, ticket_path("/r", TOKEN));
    assert_eq!(b, done_path("/r", TOKEN));
    assert_eq!(c, claim_path("/r", TOKEN));
}

#[test]
fn context_ids_are_letters_and_digits() {
    assert!(valid_ctx("A1b2C3"));
    assert!(valid_ctx(&"F".repeat(64)));
    assert!(!valid_ctx(&"F".repeat(65)));
    assert!(!valid_ctx(""));
    assert!(!valid_ctx("../x"));
    assert!(!valid_ctx("a-b"));
    assert!(!valid_ctx("é"));
}

#[test]
fn stealth_is_a_flag_of_a_checked_session() {
    match set_stealth("/r", "CTX", true) {
        Ok(c) => {
            assert_eq!(c.dir, "/r/stealth");
            assert_eq!(c.path, "/r/stealth/CTX");
            assert!(c.present);
        }
        Err(_) => panic!("the id is valid"),
    }
    assert!(matches!(set_stealth("/r", "CTX", false), Ok(c) if !c.present));
    match set_stealth("/r", "../x", true) {
        Ok(_) => panic!("the id is not valid"),
        Err(e) => assert_eq!(e.message(), "invalid session id"),
    }
    assert_eq!(stealth_flag("/r", "CTX"), Some("/r/stealth/CTX".to_string()));
    assert_eq!(stealth_flag("/r", "a/b"), None);
    assert!(is_stealth("CTX", true));
    assert!(!is_stealth("CTX", false));
    assert!(!is_stealth("a/b", true));
}

#[test]
fn a_sweep_spares_live_tickets() {
    assert!(matches!(sweep_entry("x.json.tmp"), SweepEntry::Junk));
    assert!(matches!(
        sweep_entry(&format!("{TOKEN}.json")),
        SweepEntry::Ticket { token } if token == TOKEN
    ));
    assert!(matches!(sweep_entry("README"), SweepEntry::Other));
    assert!(!sweep_ticket(&Some(ticket(10)), 9));
    assert!(sweep_ticket(&Some(ticket(10)), 10));
    assert!(sweep_ticket(&None, 0));
}

#[test]
fn the_first_claim_stands() {
    assert_eq!(claim(None, None), Standing::Unclaimed);
    assert_eq!(claim(None, Some("x")), Standing::Unclaimed);
    assert_eq!(claim(Some("secret\n"), Some("secret")), Standing::Holder);
    assert_eq!(claim(Some("secret"), Some("other")), Standing::Other);
    assert_eq!(claim(Some("secret"), None), Standing::Other);
    assert_eq!(claim(Some(" \n"), Some("")), Standing::Corrupt);
    assert!(claim_matches(Some("secret"), Some("secret")));
    assert!(!claim_matches(Some(""), Some("")));
    assert!(!claim_matches(None, Some("secret")));
}

#[test]
fn a_claim_is_written_under_a_name_of_its_own() {
    let w = claim_write("/r", TOKEN, "s3cret");
    assert_eq!(w.dir, "/r/claims");
    assert_eq!(w.tmp_path, format!("/r/claims/{TOKEN}-s3cret.tmp"));
    assert_eq!(w.path, format!("/r/claims/{TOKEN}"));
}

/// Does the next thing of an attempt to record a claim.
fn turn(files: &mut BTreeMap<String, String>, r: Recording<String>) -> Recording<String> {
    let ok = match &r {
        Recording::Write { dir, tmp_path, secret, .. } => {
            assert_eq!(dir, "/r/claims");
            files.insert(tmp_path.clone(), secret.clone());
            true
        }
        Recording::Link { tmp_path, path } => {
            if files.contains_key(path) {
                false
            } else {
                let content = files[tmp_path].clone();
                files.insert(path.clone(), content);
                true
            }
        }
        Recording::Remove { tmp_path, .. } => files.remove(tmp_path).is_some(),
        Recording::Done(_) => true,
    };
    resume_recording(r, ok)
}

#[test]
fn one_of_many_attempts_wins() {
    let secrets: Vec<String> = (0..3).map(|i| format!("{i}").repeat(32)).collect();
    let orders = [
        vec![0, 1, 2, 0, 1, 2, 0, 1, 2],
        vec![2, 2, 2, 1, 0, 1, 0, 0, 1],
        vec![0, 1, 2, 1, 2, 0, 0, 2, 1],
    ];
    for order in orders {
        let mut files = BTreeMap::new();
        let mut at: Vec<Option<Recording<String>>> =
            secrets.iter().map(|s| Some(begin_recording("/r", TOKEN, s))).collect();
        for i in order {
            let r = match at[i].take() {
                Some(r) => r,
                None => panic!("an attempt is lost"),
            };
            at[i] = Some(turn(&mut files, r));
            if let Some(held) = files.get(&claim_path("/r", TOKEN)) {
                assert!(secrets.contains(held));
            }
        }
        let winners: Vec<usize> =
            (0..3).filter(|i| matches!(at[*i], Some(Recording::Done(true)))).collect();
        assert_eq!(winners.len(), 1);
        assert!(at.iter().all(|r| matches!(r, Some(Recording::Done(_)))));
        assert_eq!(files.len(), 1);
        assert_eq!(files[&claim_path("/r", TOKEN)], secrets[winners[0]]);
    }
    let failed = resume_recording(begin_recording("/r", TOKEN, &secrets[0]), false);
    assert!(matches!(failed, Recording::Done(false)));
}
