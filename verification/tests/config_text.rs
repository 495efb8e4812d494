use larkstack::config_text::{registry_has, ChangeKey};

const REGISTRY: &str = "[lark-apps.main]\napp_id = \"cli_x\"\napp_secret = \"s\"\n";

#[test]
fn registry_has_finds_registered_entry() {
    assert!(registry_has(REGISTRY, "main"));
    assert!(!registry_has(REGISTRY, "other"));
    assert!(!registry_has("[github]\nenabled = true\n", "main"));
    // A malformed config never panics and reports "absent".
    assert!(!registry_has("not = valid = toml", "main"));
}

const CFG: &str = r#"
[lark-apps.main]
app_id = "a"
app_secret = "s"

[lark-apps.other]
app_id = "b"
app_secret = "t"

[standup]
enabled = true
lark_app = "main"
"#;

#[test]
fn enabled_reflects_section_flag() {
    assert!(ChangeKey::compute(CFG, "standup").enabled());
    // A section that is absent (or has no `enabled`) is disabled.
    assert!(!ChangeKey::compute(CFG, "minutes").enabled());
}

#[test]
fn editing_the_referenced_lark_app_flips_the_key() {
    let base = ChangeKey::compute(CFG, "standup");
    let edited = CFG.replace(r#"app_secret = "s""#, r#"app_secret = "rotated""#);
    assert_ne!(ChangeKey::compute(&edited, "standup"), base);
}

#[test]
fn editing_an_unreferenced_lark_app_leaves_the_key() {
    // standup binds to `main`, not `other` — touching `other` must not
    // bounce it.
    let base = ChangeKey::compute(CFG, "standup");
    let edited = CFG.replace(r#"app_secret = "t""#, r#"app_secret = "rotated""#);
    assert_eq!(ChangeKey::compute(&edited, "standup"), base);
}

#[test]
fn editing_own_section_flips_the_key() {
    let base = ChangeKey::compute(CFG, "standup");
    let edited = CFG.replace("lark_app = \"main\"", "lark_app = \"other\"");
    assert_ne!(ChangeKey::compute(&edited, "standup"), base);
}

#[test]
fn change_keys_compare_by_section_and_bound_app() {
    let base = ChangeKey::compute(CFG, "standup");
    // Reformatting without changing any value keeps the key.
    let reformatted = CFG.replace("enabled = true", "enabled    =   true  # on");
    assert!(ChangeKey::compute(&reformatted, "standup").same(&base));
    let rotated = CFG.replace(r#"app_secret = "s""#, r#"app_secret = "x""#);
    assert!(!ChangeKey::compute(&rotated, "standup").same(&base));
    // A key of a malformed config has no section and is disabled.
    let broken = ChangeKey::compute("[standup", "standup");
    assert!(!broken.enabled());
    assert!(!broken.same(&base));
}
