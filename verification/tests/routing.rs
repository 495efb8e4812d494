use larkstack::routing::{
    Config, DestKind, Destination, Rule, RoutingEvent, RoutingFeatures, RoutingSpec, SubjectSpec,
    UserMap,
};

fn chat(id: &str) -> Destination {
    Destination {
        kind: DestKind::Chat,
        target: id.into(),
    }
}

fn dm(email: &str) -> Destination {
    Destination {
        kind: DestKind::Dm,
        target: email.into(),
    }
}

fn rule(m: &str, events: &[&str], dests: Vec<Destination>) -> Rule {
    Rule {
        match_: m.into(),
        events: events.iter().map(|s| s.to_string()).collect(),
        destinations: dests,
    }
}

fn spec(features: RoutingFeatures) -> RoutingSpec {
    const EVENTS: &[RoutingEvent] = &[RoutingEvent {
        value: "merge_request",
        label: "Merge request",
        description: "Merge request events",
    }];
    RoutingSpec {
        namespace: "test",
        subject: SubjectSpec {
            label: "Project",
            placeholder: "group/project",
            help: "Project path",
        },
        events: EVENTS,
        features,
    }
}

#[test]
fn matches_wildcard_prefix_and_exact() {
    assert!(larkstack::routing::matcher::matches("*", "any/thing"));
    assert!(larkstack::routing::matcher::matches("grp/*", "grp"));
    assert!(larkstack::routing::matcher::matches("grp/*", "grp/proj"));
    assert!(larkstack::routing::matcher::matches("grp/*", "grp/sub/proj"));
    assert!(!larkstack::routing::matcher::matches("grp/*", "grpx"));
    assert!(!larkstack::routing::matcher::matches("grp/*", "other/proj"));
    assert!(larkstack::routing::matcher::matches("grp/proj", "grp/proj"));
    assert!(!larkstack::routing::matcher::matches("grp/proj", "grp/other"));
}

#[test]
fn destinations_union_and_dedup() {
    let cfg = Config {
        rules: vec![
            rule("grp/*", &[], vec![chat("c1"), dm("a@x")]),
            rule("grp/proj", &["merge_request"], vec![chat("c1"), chat("c2")]),
        ],
        ..Default::default()
    };
    let got = cfg.destinations_for("grp/proj", "merge_request");
    // c1 deduped across rules; order = first-seen.
    assert_eq!(got, vec![chat("c1"), dm("a@x"), chat("c2")]);
}

#[test]
fn event_filter_excludes_but_does_not_fall_back_to_default() {
    let cfg = Config {
        rules: vec![rule("grp/proj", &["pipeline"], vec![chat("c1")])],
        default_destinations: vec![dm("fallback@x")],
        ..Default::default()
    };
    // subject matches the rule, event doesn't → no destinations, no default.
    assert!(cfg.destinations_for("grp/proj", "issue").is_empty());
}

#[test]
fn default_used_only_when_no_rule_matches_subject() {
    let cfg = Config {
        rules: vec![rule("grp/*", &[], vec![chat("c1")])],
        default_destinations: vec![dm("fallback@x")],
        ..Default::default()
    };
    assert_eq!(
        cfg.destinations_for("other/proj", "issue"),
        vec![dm("fallback@x")]
    );
    assert_eq!(cfg.destinations_for("grp/proj", "issue"), vec![chat("c1")]);
}

#[test]
fn tolerant_decode_and_lookups() {
    // An empty config has no rules.
    let cfg = Config::default();
    assert!(cfg.rules.is_empty());
    // A config holding only user_map + alert_labels.
    let cfg = Config {
        user_map: vec![UserMap {
            username: "octo".into(),
            lark_email: "o@x".into(),
        }],
        alert_labels: vec!["bug".into(), "P0".into()],
        ..Default::default()
    };
    assert_eq!(cfg.lark_email("octo"), Some("o@x"));
    assert_eq!(cfg.lark_email("nobody"), None);
    assert!(cfg.is_alert_label("BUG"));
    assert!(cfg.is_alert_label("p0"));
    assert!(!cfg.is_alert_label("wontfix"));
}

#[test]
fn validate_rejects_empty_target_and_match() {
    let bad_target = Config {
        rules: vec![rule("grp/*", &[], vec![chat("")])],
        ..Default::default()
    };
    assert!(bad_target.validate().is_err());
    let bad_match = Config {
        rules: vec![rule("  ", &[], vec![chat("c1")])],
        ..Default::default()
    };
    assert!(bad_match.validate().is_err());
    let ok = Config {
        rules: vec![rule("grp/*", &[], vec![chat("c1")])],
        ..Default::default()
    };
    assert!(ok.validate().is_ok());
}

#[test]
fn validate_for_rejects_unknown_events() {
    let cfg = Config {
        rules: vec![rule("grp/*", &["issue"], vec![chat("c1")])],
        ..Default::default()
    };
    let err = cfg
        .validate_for(&spec(RoutingFeatures::SOURCE_WITH_ALERTS()))
        .unwrap_err();
    assert!(err.contains("unknown routing event 'issue'"));
}

#[test]
fn validate_for_rejects_unsupported_feature_fields() {
    let cfg = Config {
        user_map: vec![UserMap {
            username: "octo".into(),
            lark_email: "octo@example.com".into(),
        }],
        ..Default::default()
    };
    let err = cfg
        .validate_for(&spec(RoutingFeatures::ROUTING_ONLY()))
        .unwrap_err();
    assert_eq!(err, "user_map is not supported by this app");
}

#[test]
fn validate_reports_blank_default_target_and_unsupported_alert_labels() {
    let cfg = Config {
        default_destinations: vec![dm(" \t")],
        ..Default::default()
    };
    assert_eq!(
        cfg.validate().unwrap_err(),
        "destination target must not be empty"
    );
    let cfg = Config {
        alert_labels: vec!["bug".into()],
        ..Default::default()
    };
    assert!(cfg.validate().is_ok());
    assert_eq!(
        cfg.validate_for(&spec(RoutingFeatures::ROUTING_ONLY()))
            .unwrap_err(),
        "alert_labels is not supported by this app"
    );
    assert!(cfg
        .validate_for(&spec(RoutingFeatures::SOURCE_WITH_ALERTS()))
        .is_ok());
}

#[test]
fn first_problem_in_rule_order_is_reported() {
    let cfg = Config {
        rules: vec![
            rule("a/*", &["merge_request", "push"], vec![chat("")]),
            rule("", &[], vec![]),
        ],
        ..Default::default()
    };
    assert_eq!(
        cfg.validate_for(&spec(RoutingFeatures::SOURCE_WITH_ALERTS()))
            .unwrap_err(),
        "unknown routing event 'push'"
    );
    assert_eq!(
        cfg.validate().unwrap_err(),
        "destination target must not be empty"
    );
}

#[test]
fn namespace_pattern_and_unicode_subjects() {
    assert!(larkstack::routing::matcher::matches("/*", "/x"));
    assert!(larkstack::routing::matcher::matches("/*", ""));
    assert!(larkstack::routing::matcher::matches("grüp/*", "grüp/ü"));
    assert!(!larkstack::routing::matcher::matches("*x", "ax"));
    assert!(larkstack::routing::matcher::matches("*x", "*x"));
}

#[test]
fn duplicate_default_destinations_collapse() {
    let cfg = Config {
        default_destinations: vec![chat("c"), chat("c"), dm("c")],
        ..Default::default()
    };
    assert_eq!(cfg.destinations_for("x", "y"), vec![chat("c"), dm("c")]);
}

use larkstack::routing::delivery::{delivery_route, delivery_routes, DeliveryRoute};

#[test]
fn delivery_routes_follow_kind_and_target() {
    assert!(matches!(delivery_route(&chat("oc_1")), DeliveryRoute::Chat(t) if t == "oc_1"));
    assert!(matches!(delivery_route(&dm("a@x.io")), DeliveryRoute::DmEmail(t) if t == "a@x.io"));
    assert!(matches!(delivery_route(&dm("ou_1")), DeliveryRoute::DmOpenId(t) if t == "ou_1"));
    assert_eq!(delivery_routes(true, &[chat("a"), dm("b")]).len(), 2);
    assert!(delivery_routes(false, &[chat("a")]).is_empty());
    assert_eq!(dm("").validate().unwrap_err(), "destination target must not be empty");
    assert!(chat("x").validate().is_ok());
}

use larkstack::routing::admin::{check_replacement, RoutingError};

#[test]
fn replacement_configs_are_validated_first() {
    let mut cfg = Config::default();
    assert!(check_replacement(&cfg).is_ok());
    cfg.rules.push(rule("  ", &[], vec![chat("oc")]));
    let err = check_replacement(&cfg).unwrap_err();
    assert!(matches!(&err, RoutingError::Invalid(m) if m == "rule match must not be empty"));
    assert_eq!(err.status_code(), 400);
    assert_eq!(RoutingError::Bot("x".into()).status_code(), 502);
    assert_eq!(RoutingError::Store("x".into()).status_code(), 500);
}

use larkstack::routing::model::StoredConfig;

#[test]
fn stored_config_falls_back_to_empty() {
    let mut c = Config::default();
    c.alert_labels.push("p0".to_string());
    let loaded = Config::load(StoredConfig::Parsed(c));
    assert_eq!(loaded.alert_labels, vec!["p0".to_string()]);
    for bad in [StoredConfig::Missing, StoredConfig::ReadFailed("io".into()), StoredConfig::Unparsable("eof".into())] {
        let d = Config::load(bad);
        assert!(d.rules.is_empty() && d.default_destinations.is_empty() && d.user_map.is_empty() && d.alert_labels.is_empty());
    }
}
