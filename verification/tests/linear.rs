use hmac::{Hmac, Mac};
use sha2::Sha256;

use larkstack::kit::card::CardElement;
use larkstack::linear::cards::{build_assign_dm_card, build_lark_card, build_preview_card};
use larkstack::linear::config::{
    default_debounce, default_lark_base_url, default_port, BridgeSettings, LarkConfig, LinearConfig, ServerConfig, TomlSection,
    TomlServer,
};
use larkstack::linear::debounce::{merge_change_lists, DebounceMap};
use larkstack::linear::event::{Event, Priority};
use larkstack::linear::models::{Assignee, IssueData};
use larkstack::linear::webhook::{
    issue_to_event, plan_webhook, route, CommentData, CommentIssue, LinearPayload, UpdatedFrom, WebhookAction, WebhookRoute,
    WebhookStatus,
};

fn issue_event(created: bool, id: &str, changes: &[&str]) -> Event {
    let changes: Vec<String> = changes.iter().map(|s| s.to_string()).collect();
    let (source, identifier, title, status, url) =
        ("linear".to_string(), id.to_string(), "Fix login".to_string(), "Todo".to_string(), "https://linear.app/x".to_string());
    if created {
        Event::IssueCreated {
            source,
            identifier,
            title,
            description: Some("  Steps to reproduce  ".into()),
            status,
            priority: Priority::High,
            assignee: Some("Ann".into()),
            assignee_email: Some("ann@x.io".into()),
            url,
            changes,
        }
    } else {
        Event::IssueUpdated {
            source,
            identifier,
            title,
            description: None,
            status,
            priority: Priority::Urgent,
            assignee: None,
            assignee_email: None,
            url,
            changes,
        }
    }
}

#[test]
fn priority_from_linear_labels_and_emoji() {
    assert_eq!(Priority::from_linear(1), Priority::Urgent);
    assert_eq!(Priority::from_linear(2), Priority::High);
    assert_eq!(Priority::from_linear(3), Priority::Medium);
    assert_eq!(Priority::from_linear(4), Priority::Low);
    assert_eq!(Priority::from_linear(0), Priority::NoPriority);
    assert_eq!(Priority::from_linear(9), Priority::NoPriority);
    assert_eq!(Priority::Urgent.label(), "Urgent");
    assert_eq!(Priority::NoPriority.label(), "None");
    assert_eq!(Priority::Medium.emoji(), "🟡");
    assert_eq!(Priority::High.display(), "🟠 High");
}

#[test]
fn event_changes_set_and_promote() {
    let mut e = issue_event(false, "ENG-1", &["a"]);
    assert_eq!(e.changes(), &["a".to_string()]);
    assert!(!e.is_issue_created());
    e.set_changes(vec!["b".into(), "c".into()]);
    assert_eq!(e.changes().len(), 2);
    let p = e.promote_to_created();
    assert!(p.is_issue_created());
    assert_eq!(p.changes(), &["b".to_string(), "c".to_string()]);
    let mut c = Event::CommentCreated {
        source: "linear".into(),
        identifier: "ENG-1".into(),
        issue_title: "t".into(),
        author: "a".into(),
        body: "b".into(),
        url: "u".into(),
    };
    c.set_changes(vec!["x".into()]);
    assert!(c.changes().is_empty());
    assert!(!c.promote_to_created().is_issue_created());
}

#[test]
fn merge_changes_dedups_and_keeps_order() {
    let old = vec!["status".to_string(), "title".to_string()];
    let new = vec!["title".to_string(), "priority".to_string(), "priority".to_string()];
    assert_eq!(merge_change_lists(&old, &new), vec!["status", "title", "priority"]);
}

#[test]
fn debounce_create_followed_by_update_stays_create() {
    let mut m = DebounceMap::new();
    assert_eq!(m.upsert("id-1".into(), issue_event(true, "ENG-1", &[]), Some("ann@x.io".into())), (false, 0));
    assert_eq!(m.upsert("id-1".into(), issue_event(false, "ENG-1", &["Status: Todo → Done"]), None), (true, 1));
    assert_eq!(m.upsert("id-2".into(), issue_event(false, "ENG-2", &["x"]), None), (false, 0));
    let p = m.take("id-1").expect("pending");
    assert!(p.event.is_issue_created());
    assert_eq!(p.event.changes(), &["Status: Todo → Done".to_string()]);
    // The latest state wins: the update's priority, no description.
    assert!(matches!(&p.event, Event::IssueCreated { priority: Priority::Urgent, description: None, .. }));
    // The DM target of the first update in the window is kept.
    assert_eq!(p.dm_email.as_deref(), Some("ann@x.io"));
    assert!(m.take("id-1").is_none());
    assert!(m.contains("id-2"));
    assert!(!m.contains("id-1"));
}

#[test]
fn debounce_updates_accumulate_changes() {
    let mut m = DebounceMap::default();
    m.upsert("k".into(), issue_event(false, "ENG-3", &["a", "b"]), None);
    m.upsert("k".into(), issue_event(false, "ENG-3", &["b", "c"]), Some("new@x.io".into()));
    let p = m.take("k").unwrap();
    assert!(!p.event.is_issue_created());
    assert_eq!(p.event.changes(), &["a".to_string(), "b".to_string(), "c".to_string()]);
    assert_eq!(p.dm_email.as_deref(), Some("new@x.io"));
}

#[test]
fn debounce_superseded_timer_delivers_nothing() {
    let mut m = DebounceMap::new();
    let (_, first) = m.upsert("k".into(), issue_event(false, "ENG-4", &["a"]), None);
    let (replaced, second) = m.upsert("k".into(), issue_event(false, "ENG-4", &["b"]), None);
    assert!(replaced);
    assert_ne!(first, second);
    // The first timer finds its update superseded and leaves it pending.
    assert!(m.take_current("k", first).is_none());
    assert!(m.contains("k"));
    // The latest timer delivers both changes.
    let p = m.take_current("k", second).expect("current timer delivers");
    assert_eq!(p.event.changes(), &["a".to_string(), "b".to_string()]);
    assert!(!m.contains("k"));
    assert!(m.take_current("k", second).is_none());
}

#[test]
fn created_card_shows_description_changes_fields_and_button() {
    let m = build_lark_card(&issue_event(true, "ENG-7", &["one", "two"]));
    assert_eq!(m.msg_type, "interactive");
    assert_eq!(m.card.header.template, "orange");
    assert_eq!(m.card.header.title.content, "[Linear] Created: ENG-7");
    let e = &m.card.elements;
    assert_eq!(e.len(), 5);
    assert!(matches!(&e[0], CardElement::Markdown(s) if s == "**Fix login**"));
    assert!(matches!(&e[1], CardElement::Markdown(s) if s == "Steps to reproduce"));
    assert!(matches!(&e[2], CardElement::Markdown(s) if s == "one\ntwo"));
    assert!(matches!(&e[3], CardElement::Fields(f)
        if f == &["**Status:** Todo", "**Priority:** 🟠 High", "**Assignee:** Ann"]));
    assert!(matches!(&e[4], CardElement::Button { label, url } if label == "View in Linear" && url == "https://linear.app/x"));
}

#[test]
fn updated_card_hides_description_and_defaults_assignee() {
    let m = build_lark_card(&issue_event(false, "ENG-8", &[]));
    assert_eq!(m.card.header.template, "red");
    assert_eq!(m.card.header.title.content, "[Linear] Updated: ENG-8");
    assert_eq!(m.card.elements.len(), 3);
    assert!(matches!(&m.card.elements[1], CardElement::Fields(f)
        if f[1] == "**Priority:** 🔴 Urgent" && f[2] == "**Assignee:** Unassigned"));
}

#[test]
fn comment_card_truncates_body_and_names_issue() {
    let body = "x".repeat(250);
    let c = Event::CommentCreated {
        source: "linear".into(),
        identifier: "ENG-9".into(),
        issue_title: String::new(),
        author: "Bo".into(),
        body: format!("  {body}  "),
        url: "https://linear.app/c".into(),
    };
    let m = build_lark_card(&c);
    assert_eq!(m.card.header.template, "blue");
    assert_eq!(m.card.header.title.content, "[Linear] Comment: ENG-9");
    assert!(matches!(&m.card.elements[0], CardElement::Markdown(s) if s == "**Bo** commented on **an issue**"));
    assert!(matches!(&m.card.elements[1], CardElement::Markdown(s) if s.chars().count() == 201 && s.ends_with('…')));
    let blank = Event::CommentCreated {
        source: "linear".into(),
        identifier: "ENG-9".into(),
        issue_title: "Title".into(),
        author: "Bo".into(),
        body: "   ".into(),
        url: "u".into(),
    };
    let m = build_lark_card(&blank);
    assert_eq!(m.card.elements.len(), 2);
    assert!(matches!(&m.card.elements[0], CardElement::Markdown(s) if s == "**Bo** commented on **ENG-9: Title**"));
}

#[test]
fn assign_dm_and_preview_cards() {
    let c = build_assign_dm_card(&issue_event(true, "ENG-2", &[]));
    assert_eq!(c.header.title.content, "[Linear] Assigned: ENG-2");
    assert!(matches!(&c.elements[0], CardElement::Markdown(s) if s == "You've been assigned to **ENG-2**\nFix login"));
    assert!(matches!(&c.elements[1], CardElement::Fields(f) if f[2] == "**Assignee:** Unassigned"));
    let issue = IssueData {
        id: "uuid".into(),
        identifier: "AB-1".into(),
        title: "Preview".into(),
        description: Some("   ".into()),
        state_name: "In Progress".into(),
        priority: 3,
        assignee: Some(Assignee { name: "Cy".into(), email: None }),
        url: "https://linear.app/x/issue/AB-1".into(),
    };
    let p = build_preview_card(&issue);
    assert_eq!(p.header.template, "yellow");
    assert_eq!(p.header.title.content, "[Linear] AB-1");
    assert_eq!(p.elements.len(), 3);
    assert!(matches!(&p.elements[1], CardElement::Fields(f)
        if f == &["**Status:** In Progress", "**Priority:** 🟡 Medium", "**Assignee:** Cy"]));
}

fn sign(secret: &str, body: &[u8]) -> String {
    let mut mac = Hmac::<Sha256>::new_from_slice(secret.as_bytes()).unwrap();
    mac.update(body);
    hex::encode(mac.finalize().into_bytes())
}

fn issue(assignee_email: Option<&str>) -> IssueData {
    IssueData {
        id: "issue-uuid".into(),
        identifier: "ENG-5".into(),
        title: "T".into(),
        description: None,
        state_name: "Todo".into(),
        priority: 2,
        assignee: Some(Assignee { name: "Ann".into(), email: assignee_email.map(String::from) }),
        url: String::new(),
    }
}

fn payload(kind: &str, action: &str) -> LinearPayload {
    LinearPayload {
        kind: kind.into(),
        action: action.into(),
        url: "https://linear.app/i".into(),
        issue: Some(issue(Some("ann@x.io"))),
        comment: Some(CommentData { body: "hi".into(), issue: None }),
        actor: None,
        updated_from: None,
        changes: vec!["Status changed".into()],
    }
}

#[test]
fn webhook_requires_a_valid_signature() {
    let body = b"{}";
    let sig = sign("sec", body);
    assert!(matches!(plan_webhook("sec", body, None, Some(payload("Issue", "create"))), WebhookAction::Reject(WebhookStatus::Unauthorized)));
    assert!(matches!(plan_webhook("sec", body, Some("deadbeef"), Some(payload("Issue", "create"))), WebhookAction::Reject(WebhookStatus::Unauthorized)));
    assert!(matches!(plan_webhook("sec", body, Some(&sig), None), WebhookAction::Reject(WebhookStatus::BadRequest)));
    let ignored = plan_webhook("sec", body, Some(&sig), Some(payload("Project", "update")));
    assert!(matches!(ignored, WebhookAction::Ignore));
    assert_eq!(ignored.status(), WebhookStatus::Accepted);
}

#[test]
fn webhook_issue_create_and_update_are_debounced() {
    let body = b"payload";
    let sig = sign("s", body);
    match plan_webhook("s", body, Some(&sig), Some(payload("Issue", "create"))) {
        WebhookAction::Debounce { key, event, dm_email } => {
            assert_eq!(key, "issue-uuid");
            assert!(event.is_issue_created());
            assert!(event.changes().is_empty());
            assert_eq!(dm_email.as_deref(), Some("ann@x.io"));
        }
        _ => panic!("expected debounce"),
    }
    match plan_webhook("s", body, Some(&sig), Some(payload("Issue", "update"))) {
        WebhookAction::Debounce { event, dm_email, .. } => {
            assert!(!event.is_issue_created());
            assert_eq!(event.changes(), &["Status changed".to_string()]);
            assert!(dm_email.is_none());
        }
        _ => panic!("expected debounce"),
    }
    let mut reassigned = payload("Issue", "update");
    reassigned.updated_from = Some(UpdatedFrom { assignee_id: Some("old".into()) });
    assert!(matches!(plan_webhook("s", body, Some(&sig), Some(reassigned)),
        WebhookAction::Debounce { dm_email: Some(e), .. } if e == "ann@x.io"));
    let mut unreadable = payload("Issue", "update");
    unreadable.issue = None;
    assert!(matches!(plan_webhook("s", body, Some(&sig), Some(unreadable)), WebhookAction::Reject(WebhookStatus::BadRequest)));
}

#[test]
fn webhook_comment_is_dispatched_with_defaults() {
    let body = b"c";
    let sig = sign("s", body);
    match plan_webhook("s", body, Some(&sig), Some(payload("Comment", "create"))) {
        WebhookAction::Dispatch(Event::CommentCreated { identifier, issue_title, author, body, url, .. }) => {
            assert_eq!(identifier, "?");
            assert_eq!(issue_title, "");
            assert_eq!(author, "Someone");
            assert_eq!(body, "hi");
            assert_eq!(url, "https://linear.app/i");
        }
        _ => panic!("expected dispatch"),
    }
    let mut named = payload("Comment", "create");
    named.actor = Some("Dee".into());
    named.comment = Some(CommentData { body: "b".into(), issue: Some(CommentIssue { identifier: "ENG-1".into(), title: "T".into() }) });
    assert!(matches!(plan_webhook("s", body, Some(&sig), Some(named)),
        WebhookAction::Dispatch(Event::CommentCreated { identifier, author, .. }) if identifier == "ENG-1" && author == "Dee"));
    assert_eq!(route("Comment", "update"), WebhookRoute::Ignore);
}

#[test]
fn issue_to_event_copies_fields() {
    let e = issue_to_event(&issue(None), "https://u", vec!["c".into()], false);
    match e {
        Event::IssueUpdated { source, identifier, priority, assignee, assignee_email, url, changes, .. } => {
            assert_eq!(source, "linear");
            assert_eq!(identifier, "ENG-5");
            assert_eq!(priority, Priority::High);
            assert_eq!(assignee.as_deref(), Some("Ann"));
            assert!(assignee_email.is_none());
            assert_eq!(url, "https://u");
            assert_eq!(changes, vec!["c".to_string()]);
        }
        _ => panic!("expected update"),
    }
}

#[test]
fn settings_overlay_env_with_toml() {
    assert_eq!(default_port(), 3000);
    assert_eq!(default_debounce(), 5000);
    assert_eq!(default_lark_base_url(), "https://open.larksuite.com");
    let mut section = TomlSection::default();
    section.linear.api_key = Some("key".into());
    section.lark.base_url = Some("https://open.feishu.cn".into());
    section.server = TomlServer { port: Some(8080), debounce_delay_ms: None };
    let env_linear = LinearConfig { webhook_secret: "env-secret".into(), api_key: None };
    let s = BridgeSettings::from_sections(Some(env_linear), None, None, section);
    assert_eq!(s.linear.webhook_secret, "env-secret");
    assert_eq!(s.linear.api_key.as_deref(), Some("key"));
    assert_eq!(s.linear.graphql_key().as_deref(), Some("key"));
    assert_eq!(s.lark.base_url, "https://open.feishu.cn");
    assert_eq!(s.lark.webhook_url, "");
    assert_eq!(s.server.port, 8080);
    assert_eq!(s.server.debounce_delay_ms, 5000);
    let d = ServerConfig::default();
    assert_eq!((d.port, d.debounce_delay_ms), (3000, 5000));
    let lark = LarkConfig { app_id: Some("i".into()), app_secret: None, ..LarkConfig::default() };
    assert!(lark.bot_credentials().is_none());
}

use larkstack::linear::bot::{dm_outcome, dm_url, token_from_response, token_is_fresh, token_url};

#[test]
fn bot_token_cache_and_responses() {
    assert!(token_is_fresh("tok", 1_000_000, 600_000));
    assert!(!token_is_fresh("tok", 900_000, 600_000));
    assert!(!token_is_fresh("", 9_000_000, 0));
    assert_eq!(token_url("https://open.larksuite.com"), "https://open.larksuite.com/open-apis/auth/v3/tenant_access_token/internal");
    assert_eq!(token_from_response(Some(0), Some("t".into()), None, "{}"), Ok(("t".to_string(), 7200)));
    assert_eq!(token_from_response(Some(0), Some("t".into()), Some(60), "{}"), Ok(("t".to_string(), 60)));
    assert_eq!(token_from_response(None, Some("t".into()), None, "{}"), Err("token API error: {}".to_string()));
    assert_eq!(token_from_response(Some(0), None, None, "{}"), Err("missing tenant_access_token".to_string()));
    assert_eq!(dm_url("https://x"), "https://x/open-apis/im/v1/messages?receive_id_type=email");
    assert_eq!(dm_outcome(true, "200 OK", "{}", Some(0)), Ok(()));
    assert_eq!(dm_outcome(true, "200 OK", "{\"code\":9}", Some(9)), Err("DM API returned code 9: {\"code\":9}".to_string()));
    assert_eq!(dm_outcome(true, "200 OK", "", None), Err("DM API returned code -1: ".to_string()));
    assert_eq!(dm_outcome(false, "500 Internal Server Error", "x", None), Err("DM request returned 500 Internal Server Error: x".to_string()));
}
