use larkstack::config_doc::{remove_entry, unbind_console, upsert_entry, write_console, DocEditError};
use toml_edit::DocumentMut;

fn doc(s: &str) -> DocumentMut {
    s.parse().expect("valid toml")
}

/// `[lark-apps.<name>].<field>` as the config's serde readers see it.
fn app_field(out: &str, name: &str, field: &str) -> Option<String> {
    let v: toml::Value = toml::from_str(out).ok()?;
    v.get("lark-apps")?.get(name)?.get(field)?.as_str().map(str::to_string)
}

/// `[console].<field>` as a string.
fn console_str(out: &str, field: &str) -> Option<String> {
    let v: toml::Value = toml::from_str(out).ok()?;
    v.get("console")?.get(field)?.as_str().map(str::to_string)
}

/// `[console].admins`.
fn console_admins(out: &str) -> Vec<String> {
    let v: toml::Value = toml::from_str(out).expect("valid toml");
    v["console"]["admins"].as_array().expect("array").iter().map(|a| a.as_str().expect("string").to_string()).collect()
}

#[test]
fn lark_apps_upsert_writes_nested_header_and_keeps_comments() {
    for start in ["# keep me\n[standup-bot]\nenabled = true\n", "# keep me\n[standup]\nenabled = true\n"] {
        let mut d = doc(start);
        upsert_entry(&mut d, "main", "cli_x", "sec", "https://open.larksuite.com").unwrap();
        let out = d.to_string();
        assert!(out.contains("# keep me"), "comment preserved: {out}");
        assert!(out.contains("[lark-apps.main]"), "nested header: {out}");
        assert!(!out.contains("\n[lark-apps]\n"), "no bare parent header: {out}");
        assert_eq!(app_field(&out, "main", "app_id").as_deref(), Some("cli_x"));
        assert_eq!(app_field(&out, "main", "app_secret").as_deref(), Some("sec"));
    }
}

#[test]
fn lark_apps_upsert_replaces_existing_entry_in_place() {
    let mut d = doc("[lark-apps.main]\napp_id = \"old\"\napp_secret = \"o\"\n");
    upsert_entry(&mut d, "main", "new", "n", "https://open.feishu.cn").unwrap();
    let out = d.to_string();
    assert_eq!(app_field(&out, "main", "app_id").as_deref(), Some("new"));
    assert_eq!(app_field(&out, "main", "base_url").as_deref(), Some("https://open.feishu.cn"));
}

#[test]
fn lark_apps_remove_drops_empty_parent_table() {
    let mut d = doc("[lark-apps.main]\napp_id = \"x\"\napp_secret = \"y\"\n");
    assert!(remove_entry(&mut d, "main"));
    assert!(!d.to_string().contains("lark-apps"));
    // Removing again reports "not found".
    assert!(!remove_entry(&mut d, "main"));
}

#[test]
fn lark_apps_remove_keeps_sibling_entries() {
    let mut d = doc("[lark-apps.a]\napp_id = \"1\"\napp_secret = \"x\"\n\n[lark-apps.b]\napp_id = \"2\"\napp_secret = \"y\"\n");
    assert!(remove_entry(&mut d, "a"));
    let out = d.to_string();
    assert!(app_field(&out, "a", "app_id").is_none());
    assert_eq!(app_field(&out, "b", "app_id").as_deref(), Some("2"));
}

#[test]
fn lark_apps_upsert_refuses_a_non_table_registry() {
    let mut d = doc("lark-apps = 3\n");
    assert_eq!(
        upsert_entry(&mut d, "main", "a", "b", "https://open.larksuite.com"),
        Err(DocEditError::NotATable("lark-apps".to_string()))
    );
    assert_eq!(d.to_string(), "lark-apps = 3\n");
    assert!(!remove_entry(&mut d, "main"));
}

const REGISTRY: &str = "[lark-apps.main]\napp_id = \"cli_x\"\napp_secret = \"s\"\n";

#[test]
fn bind_writes_console_and_resolve_picks_it_up() {
    let mut d = doc(&format!("# keep me\n{REGISTRY}"));
    write_console(&mut d, "main", &["You@Example.com".into(), "  ".into()], None, None).unwrap();
    let out = d.to_string();
    assert!(out.contains("# keep me"), "comment preserved: {out}");
    assert!(out.contains("[console]"), "console table written: {out}");
    // The bound app is registered with credentials, as the sign-in gate needs.
    let bound = console_str(&out, "lark_app").expect("bound");
    assert!(app_field(&out, &bound, "app_id").is_some() && app_field(&out, &bound, "app_secret").is_some(), "configured after bind: {out}");
    // Blank admin entries are dropped on write.
    assert_eq!(console_admins(&out), vec!["You@Example.com"]);
}

#[test]
fn redirect_and_scope_set_when_present_removed_when_blank() {
    let mut d = doc(REGISTRY);
    write_console(&mut d, "main", &[], Some("https://c.example/auth/callback"), Some("a b")).unwrap();
    let out = d.to_string();
    assert!(out.contains("redirect_uri = \"https://c.example/auth/callback\""));
    assert!(out.contains("scope = \"a b\""));

    // Re-binding with blanks clears them.
    let mut d2 = doc(&out);
    write_console(&mut d2, "main", &[], Some("  "), None).unwrap();
    let out2 = d2.to_string();
    assert!(!out2.contains("redirect_uri"), "cleared: {out2}");
    assert!(!out2.contains("scope"), "cleared: {out2}");
}

#[test]
fn parse_view_reads_back_binding() {
    let mut d = doc(REGISTRY);
    write_console(&mut d, "main", &["a@x.io".into()], None, None).unwrap();
    let out = d.to_string();
    assert_eq!(console_str(&out, "lark_app").as_deref(), Some("main"));
    assert_eq!(console_admins(&out), vec!["a@x.io"]);
}

#[test]
fn unbinding_removes_only_the_lark_app_key() {
    let mut d = doc(REGISTRY);
    write_console(&mut d, "main", &["a@x.io".into()], None, None).unwrap();
    unbind_console(&mut d);
    let out = d.to_string();
    assert!(console_str(&out, "lark_app").is_none());
    assert_eq!(console_admins(&out), vec!["a@x.io"]);
    // Without a [console] table nothing changes.
    let mut plain = doc(REGISTRY);
    unbind_console(&mut plain);
    assert_eq!(plain.to_string(), REGISTRY);
}
