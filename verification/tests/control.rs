use larkstack::console::{check_test_request, check_upsert_request, credential_test_failed, token_outcome, token_url, OkResponse, TestResult};
use larkstack::control::{
    check_namespace, is_framework_table, level_str, parse_level, table_name, table_prefix, Backoff, Level, State, Status,
};
use larkstack::plane::StatusBoard;
use larkstack::lark::{default_base_url, normalize_base_url, valid_name, LarkApp, LarkRegistry};

#[test]
fn lark_apps_name_validation() {
    assert!(valid_name("main"));
    assert!(valid_name("team-1_x"));
    assert!(!valid_name(""));
    assert!(!valid_name("has space"));
    assert!(!valid_name("dot.ted"));
}

#[test]
fn name_validation() {
    assert!(valid_name("main"));
    assert!(valid_name("team-1_x"));
    assert!(!valid_name(""));
    assert!(!valid_name("has space"));
    assert!(!valid_name("dot.ted"));
}

#[test]
fn base_url_defaults_when_absent_or_blank() {
    assert_eq!(default_base_url(), "https://open.larksuite.com");
    assert_eq!(normalize_base_url(None), "https://open.larksuite.com");
    assert_eq!(normalize_base_url(Some("   ".into())), "https://open.larksuite.com");
    assert_eq!(normalize_base_url(Some(" https://open.feishu.cn ".into())), "https://open.feishu.cn");
}

fn app(id: &str) -> LarkApp {
    LarkApp { app_id: id.into(), app_secret: "s".into(), base_url: default_base_url() }
}

#[test]
fn registry_insert_replace_remove() {
    let mut r = LarkRegistry::new();
    assert!(r.is_empty());
    r.insert("main".into(), app("a"));
    r.insert("other".into(), app("b"));
    r.insert("main".into(), app("c"));
    assert_eq!(r.get("main").map(|a| a.app_id.as_str()), Some("c"));
    assert_eq!(r.iter().len(), 2);
    assert!(r.remove("main"));
    assert!(!r.remove("main"));
    assert!(r.get("main").is_none());
    assert!(r.get("other").is_some());
    assert!(!r.is_empty());
}

#[test]
fn table_names_carry_the_app_prefix() {
    assert_eq!(table_prefix("linear"), "linear_");
    assert_eq!(table_name("linear", "user_map"), "linear_user_map");
    assert!(is_framework_table("_larkstack_migrations"));
    assert!(is_framework_table("sqlite_sequence"));
    assert!(!is_framework_table("linear_user_map"));
}

#[test]
fn namespace_check_reports_created_then_dropped() {
    let before: Vec<String> = vec!["testapp_old".into(), "rogue_old".into()];
    let ok_after: Vec<String> = vec!["testapp_old".into(), "rogue_old".into(), "testapp_things".into(), "sqlite_stat1".into()];
    assert!(check_namespace("testapp", &before, &ok_after).is_ok());
    let created: Vec<String> = vec!["testapp_old".into(), "rogue_old".into(), "rogue".into()];
    let err = check_namespace("testapp", &before, &created).unwrap_err();
    assert_eq!(err, "created table 'rogue' outside required 'testapp_' namespace");
    let dropped: Vec<String> = vec!["testapp_old".into()];
    let err = check_namespace("testapp", &before, &dropped).unwrap_err();
    assert!(err.contains("rogue_old"));
    assert!(err.contains("namespace"));
}

#[test]
fn levels_round_trip_and_default_to_info() {
    for l in [Level::Trace, Level::Debug, Level::Info, Level::Warn, Level::Error] {
        assert_eq!(parse_level(level_str(l)), l);
    }
    assert_eq!(level_str(Level::Warn), "warn");
    assert_eq!(parse_level("bogus"), Level::Info);
}

#[test]
fn backoff_doubles_then_caps_and_resets() {
    let mut b = Backoff::new();
    let delays: Vec<u64> = (0..8).map(|_| b.next()).collect();
    assert_eq!(delays, vec![1, 2, 4, 8, 16, 32, 60, 60]);
    b.reset();
    assert_eq!(b.next(), 1);
}

#[test]
fn status_keeps_state_and_message() {
    let s = Status::new(State::Errored, Some("boom".into()));
    assert_eq!(s.state, State::Errored);
    assert_eq!(s.message.as_deref(), Some("boom"));
    assert!(s.updated_at > 0);
}

#[test]
fn console_request_checks_and_token_outcomes() {
    assert_eq!(check_upsert_request("bad name", "a", "b").unwrap_err(), "name must be non-empty and use only [A-Za-z0-9_-]");
    assert_eq!(check_upsert_request("main", "", "b").unwrap_err(), "app_id and app_secret are required");
    assert!(check_upsert_request("main", "a", "b").is_ok());
    assert_eq!(check_test_request("a", "").unwrap_err(), "app_id and app_secret are required");
    assert_eq!(
        token_url("https://open.feishu.cn//"),
        "https://open.feishu.cn/open-apis/auth/v3/tenant_access_token/internal"
    );
    assert_eq!(token_outcome(0, "ignored", 7200), Ok(7200));
    assert_eq!(token_outcome(10003, "", 0), Err("Lark error code 10003".to_string()));
    assert_eq!(token_outcome(-1, "bad secret", 0), Err("bad secret (code -1)".to_string()));
    assert_eq!(credential_test_failed("x"), "credential test failed: x");
    let t = TestResult::from_outcome(Err("nope".into()));
    assert!(!t.ok && t.expire.is_none() && t.error.as_deref() == Some("nope"));
    let t = TestResult::ok(60);
    assert!(t.ok && t.expire == Some(60) && t.error.is_none());
    assert!(OkResponse::ok().ok);
}

use larkstack::console::{check_console_binding, clean_admins, clean_optional, unknown_app_error, unregistered_binding_error};
use larkstack::host::{console_port, data_dir, migration_failed};
use larkstack::supervisor::{on_config_change, Command, RunEnd, Supervisor};

#[test]
fn supervisor_retries_with_backoff_and_resets_after_success() {
    let mut s = Supervisor::new();
    assert!(matches!(s.on_config(false), Command::Stop));
    assert!(matches!(s.on_config(true), Command::Build));
    assert!(matches!(s.on_build(Err("no creds".into())), Command::Retry { message, delay_secs: 1 } if message == "build: no creds"));
    assert!(matches!(s.on_run_end(RunEnd::Returned), Command::Retry { message, delay_secs: 2 } if message == "run loop exited unexpectedly"));
    assert!(matches!(s.on_run_end(RunEnd::Panicked("boom".into())), Command::Retry { message, delay_secs: 4 } if message == "panicked: boom"));
    assert!(matches!(s.on_run_end(RunEnd::KeyChanged), Command::Restart));
    assert!(matches!(s.on_build(Ok(())), Command::Run));
    assert!(matches!(s.on_run_end(RunEnd::Failed("e".into())), Command::Retry { delay_secs: 1, .. }));
    assert!(matches!(s.on_run_end(RunEnd::ConfigClosed), Command::Exit));
    assert!(matches!(on_config_change(true, true), Some(RunEnd::ConfigClosed)));
    assert!(matches!(on_config_change(false, true), Some(RunEnd::KeyChanged)));
    assert!(on_config_change(false, false).is_none());
}

#[test]
fn host_settings_default() {
    assert_eq!(data_dir(None), "data");
    assert_eq!(data_dir(Some("/var/lib/x".into())), "/var/lib/x");
    assert_eq!(console_port(None), 8080);
    assert_eq!(console_port(Some("9000")), 9000);
    assert_eq!(console_port(Some("99999")), 8080);
    assert_eq!(console_port(Some("x")), 8080);
    // As `str::parse::<u16>`: an optional `+`, digits only, in range.
    for (raw, port) in [("+8081", 8081), ("65535", 65535), ("65536", 8080), ("0", 0), ("-1", 8080), ("", 8080), ("+", 8080), (" 80", 8080), ("80 ", 8080), ("0080", 80)] {
        assert_eq!(console_port(Some(raw)), port, "{raw:?}");
        assert_eq!(raw.parse::<u16>().unwrap_or(8080), port, "{raw:?}");
    }
    assert_eq!(migration_failed("bad sql"), "migration: bad sql");
}

#[test]
fn console_binding_requires_registered_credentials() {
    let mut r = LarkRegistry::new();
    r.insert("main".into(), app("cli_x"));
    r.insert("empty".into(), LarkApp { app_id: String::new(), app_secret: "s".into(), base_url: default_base_url() });
    assert_eq!(check_console_binding("  main ", &r).unwrap(), "main");
    assert_eq!(check_console_binding("   ", &r).unwrap_err(), "lark_app is required");
    assert_eq!(
        check_console_binding("empty", &r).unwrap_err(),
        "lark_app 'empty' is not a registered Lark app with credentials — register it first"
    );
    assert!(check_console_binding("ghost", &r).is_err());
    assert_eq!(clean_admins(&["You@Example.com".into(), "  ".into(), " a@x.io ".into()]), vec!["You@Example.com", "a@x.io"]);
    assert_eq!(clean_optional(Some("  ")), None);
    assert_eq!(clean_optional(Some(" a b ")).as_deref(), Some("a b"));
    assert_eq!(clean_optional(None), None);
    assert_eq!(unknown_app_error("x"), "no registered app 'x'");
    assert_eq!(
        unregistered_binding_error("m"),
        "lark_app 'm' is not a registered Lark app — register it in the Lark Apps tab first"
    );
}

use larkstack::console::{forward_live, last_replayed, resume_from};
use larkstack::control::{dispatch_outcome, DispatchError, EventIds};

#[test]
fn event_ids_grow_and_pass_the_watermark() {
    let mut ids = EventIds::new();
    assert_eq!(ids.next_event_id(), 1);
    assert_eq!(ids.next_event_id(), 2);
    ids.advance_event_id(41);
    assert_eq!(ids.next_event_id(), 42);
    ids.advance_event_id(10);
    assert_eq!(ids.next_event_id(), 43);
    assert_eq!(dispatch_outcome(false, false), Err(DispatchError::UnknownSubsystem));
    assert_eq!(dispatch_outcome(true, false), Err(DispatchError::Closed));
    assert_eq!(dispatch_outcome(true, true), Ok(()));
    assert_eq!(DispatchError::Closed.message(), "subsystem not running");
    assert_eq!(DispatchError::UnknownSubsystem.message(), "unknown subsystem");
}

#[test]
fn event_stream_resumes_without_duplicates() {
    assert_eq!(resume_from(Some(5), Some(9)), Some(5));
    assert_eq!(resume_from(None, Some(9)), Some(9));
    assert_eq!(resume_from(None, None), None);
    assert_eq!(last_replayed(&[3, 4, 7]), 7);
    assert_eq!(last_replayed(&[]), 0);
    assert!(!forward_live(7, 7));
    assert!(forward_live(8, 7));
}

use larkstack::console::dispatch_reply;

#[test]
fn action_dispatch_replies() {
    assert!(matches!(dispatch_reply(Ok(()), "standup"), Ok(202)));
    assert!(matches!(dispatch_reply(Err(DispatchError::UnknownSubsystem), "x"), Err(f) if f.status == 404 && f.message == "unknown app 'x'"));
    assert!(matches!(dispatch_reply(Err(DispatchError::Closed), "x"), Err(f) if f.status == 503 && f.message == "app 'x' is not running"));
}

#[test]
fn registry_summaries_are_sorted_and_redacted() {
    let mut r = LarkRegistry::new();
    r.insert("zeta".into(), app("z"));
    r.insert("alpha".into(), LarkApp { app_id: "a".into(), app_secret: String::new(), base_url: "https://open.feishu.cn".into() });
    r.insert("Main".into(), app("m"));
    r.insert("main".into(), app("m2"));
    let s = r.summaries();
    let names: Vec<&str> = s.iter().map(|x| x.name.as_str()).collect();
    assert_eq!(names, vec!["Main", "alpha", "main", "zeta"]);
    assert!(!s[1].has_secret);
    assert_eq!(s[1].base_url, "https://open.feishu.cn");
    assert!(s[3].has_secret);
    assert_eq!(s[2].app_id, "m2");
}

#[test]
fn status_board_shows_the_latest_report_per_subsystem() {
    let mut board = StatusBoard::new();
    assert!(board.get("github").is_none());
    board.starting("github");
    board.running("linear");
    assert_eq!(board.get("github").map(|s| s.state), Some(State::Starting));
    board.errored("github", "token expired".to_string());
    let github = board.get("github").expect("reported");
    assert_eq!(github.state, State::Errored);
    assert_eq!(github.message.as_deref(), Some("token expired"));
    // The other subsystem keeps its own status.
    assert_eq!(board.get("linear").map(|s| s.state), Some(State::Running));
    board.set_status("linear", Status { state: State::Stopped, message: None, updated_at: 42 });
    let snap = board.snapshot();
    assert_eq!(snap.len(), 2);
    let linear = snap.iter().find(|(n, _)| n == "linear").expect("in snapshot");
    assert_eq!(linear.1.state, State::Stopped);
    assert_eq!(linear.1.updated_at, 42);
    assert!(snap.iter().any(|(n, s)| n == "github" && s.state == State::Errored));
}

#[test]
fn event_ids_wrap_after_the_largest_id() {
    let mut ids = EventIds::new();
    ids.advance_event_id(u64::MAX - 1);
    assert_eq!(ids.next_event_id(), u64::MAX);
    assert_eq!(ids.next_event_id(), 0);
    assert_eq!(ids.next_event_id(), 1);
}

use larkstack::control::plan_migrations;

fn names(v: &[&str]) -> Vec<String> {
    v.iter().map(|s| s.to_string()).collect()
}

#[test]
fn migrations_already_applied_are_skipped() {
    let all = names(&["m001_init", "m002_index", "m003_more"]);
    assert_eq!(plan_migrations(&all, &names(&[])), all);
    assert_eq!(plan_migrations(&all, &names(&["m001_init", "m003_more"])), names(&["m002_index"]));
    // A second run after the first recorded everything applies nothing.
    assert!(plan_migrations(&all, &all).is_empty());
    // A name listed twice runs once.
    assert_eq!(plan_migrations(&names(&["a", "b", "a"]), &names(&[])), names(&["a", "b"]));
}
