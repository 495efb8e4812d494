//! Reading the console's TOML config text: `toml::from_str::<toml::Value>`
//! and `Value::get` find what a key path holds. Each reading is named here as
//! a function of the text and the path; a text that is not TOML, or a path
//! that leads nowhere, reads as `None` (never a panic).

use vstd::prelude::*;
use crate::kit::config::opt_view;
use crate::routing::model::strs_view;
use crate::text::str_eq;

verus! {

/// The value at `path` in the TOML document `text`, rendered by
/// `toml::Value`'s `Display`; `None` when `text` is not TOML or nothing is at
/// `path`.
pub uninterp spec fn toml_value_text(text: Seq<char>, path: Seq<Seq<char>>) -> Option<Seq<char>>;

/// The string at `path` in the TOML document `text`; `None` when `text` is
/// not TOML, nothing is at `path`, or what is there is not a string.
pub uninterp spec fn toml_str_at(text: Seq<char>, path: Seq<Seq<char>>) -> Option<Seq<char>>;

/// The boolean at `path` in the TOML document `text`; `None` when `text` is
/// not TOML, nothing is at `path`, or what is there is not a boolean.
pub uninterp spec fn toml_bool_at(text: Seq<char>, path: Seq<Seq<char>>) -> Option<bool>;

/// The keys of the table at `path` in the TOML document `text`; `None` when
/// `text` is not TOML, nothing is at `path`, or what is there is not a table.
pub uninterp spec fn toml_table_names(text: Seq<char>, path: Seq<Seq<char>>) -> Option<Seq<Seq<char>>>;

/// `toml::from_str::<toml::Value>(text)`, then `.get(key)`, rendered with
/// `Display`. The result is named [`toml_value_text`] of the text and the
/// one-key path.
#[verifier::external_body]
fn value_text_at(text: &str, key: &str) -> (r: Option<String>)
    ensures
        opt_view(r) == toml_value_text(text@, seq![key@]),
{
    let Ok(root) = toml::from_str::<toml::Value>(text) else { return None };
    let Some(v) = root.get(key) else { return None };
    Some(v.to_string())
}

/// `toml::from_str::<toml::Value>(text)`, then `.get(table)` and `.get(key)`,
/// rendered with `Display`. The result is named [`toml_value_text`] of the
/// text and the two-key path.
#[verifier::external_body]
fn entry_text_at(text: &str, table: &str, key: &str) -> (r: Option<String>)
    ensures
        opt_view(r) == toml_value_text(text@, seq![table@, key@]),
{
    let Ok(root) = toml::from_str::<toml::Value>(text) else { return None };
    let Some(t) = root.get(table) else { return None };
    let Some(v) = t.get(key) else { return None };
    Some(v.to_string())
}

/// `toml::from_str::<toml::Value>(text)`, then `.get(table)`, `.get(key)` and
/// `as_str`. The result is named [`toml_str_at`] of the text and the path.
#[verifier::external_body]
fn str_at(text: &str, table: &str, key: &str) -> (r: Option<String>)
    ensures
        opt_view(r) == toml_str_at(text@, seq![table@, key@]),
{
    let Ok(root) = toml::from_str::<toml::Value>(text) else { return None };
    let Some(t) = root.get(table) else { return None };
    let Some(v) = t.get(key) else { return None };
    let Some(s) = v.as_str() else { return None };
    Some(s.to_string())
}

/// `toml::from_str::<toml::Value>(text)`, then `.get(table)`, `.get(key)` and
/// `as_bool`. The result is named [`toml_bool_at`] of the text and the path.
#[verifier::external_body]
fn bool_at(text: &str, table: &str, key: &str) -> (r: Option<bool>)
    ensures
        r == toml_bool_at(text@, seq![table@, key@]),
{
    let Ok(root) = toml::from_str::<toml::Value>(text) else { return None };
    let Some(t) = root.get(table) else { return None };
    let Some(v) = t.get(key) else { return None };
    v.as_bool()
}

/// `toml::from_str::<toml::Value>(text)`, then `.get(table)`, `as_table` and
/// its keys. The result is named [`toml_table_names`] of the text and the
/// one-key path.
#[verifier::external_body]
fn table_names_at(text: &str, table: &str) -> (r: Option<Vec<String>>)
    ensures
        match r {
            Some(v) => toml_table_names(text@, seq![table@]) == Some(strs_view(v@)),
            None => toml_table_names(text@, seq![table@]) is None,
        },
{
    let Ok(root) = toml::from_str::<toml::Value>(text) else { return None };
    let Some(v) = root.get(table) else { return None };
    let Some(t) = v.as_table() else { return None };
    Some(t.keys().cloned().collect())
}

/// Whether `[lark-apps.<name>]` is registered in the config text `config`
/// (absent when the config is not TOML).
pub open spec fn registry_has_spec(config: Seq<char>, name: Seq<char>) -> bool {
    match toml_table_names(config, seq!["lark-apps"@]) {
        Some(names) => names.contains(name),
        None => false,
    }
}

/// Whether `[lark-apps.<name>]` exists in the config: a bind target must be
/// registered before an App can resolve it. A malformed config reports it
/// absent.
pub fn registry_has(config: &str, name: &str) -> (r: bool)
    ensures
        r == registry_has_spec(config@, name@),
{
    let names = match table_names_at(config, "lark-apps") {
        Some(ns) => ns,
        None => return false,
    };
    let ghost nv = strs_view(names@);
    let mut i: usize = 0;
    while i < names.len()
        invariant
            nv == strs_view(names@),
            toml_table_names(config@, seq!["lark-apps"@]) == Some(nv),
            i <= names@.len(),
            forall|k: int| 0 <= k < i ==> nv[k] != name@,
        decreases names@.len() - i,
    {
        if str_eq(names[i].as_str(), name) {
            assert(nv[i as int] == name@);
            return true;
        }
        i = i + 1;
    }
    false
}

/// What a config change is compared against for one App: its own `[name]`
/// section and the `[lark-apps.<ref>]` entry the section's `lark_app` names,
/// each as TOML renders it, so the App restarts when either changes, and
/// only then.
#[derive(Debug, Clone, PartialEq, Eq)]
pub struct ChangeKey {
    section: Option<String>,
    lark_app: Option<String>,
    enabled: bool,
}

/// The mathematical value of a [`ChangeKey`].
pub struct ChangeKeyView {
    pub section: Option<Seq<char>>,
    pub lark_app: Option<Seq<char>>,
    pub enabled: bool,
}

impl View for ChangeKey {
    type V = ChangeKeyView;

    closed spec fn view(&self) -> ChangeKeyView {
        ChangeKeyView { section: opt_view(self.section), lark_app: opt_view(self.lark_app), enabled: self.enabled }
    }
}

/// The change key of App `name` in the config text `full`.
pub open spec fn change_key_spec(full: Seq<char>, name: Seq<char>) -> ChangeKeyView {
    ChangeKeyView {
        section: toml_value_text(full, seq![name]),
        lark_app: match toml_str_at(full, seq![name, "lark_app"@]) {
            Some(reference) => toml_value_text(full, seq!["lark-apps"@, reference]),
            None => None,
        },
        enabled: toml_bool_at(full, seq![name, "enabled"@]) == Some(true),
    }
}

/// Whether two optional texts are equal.
fn same_text(a: &Option<String>, b: &Option<String>) -> (r: bool)
    ensures
        r == (opt_view(*a) == opt_view(*b)),
{
    match (a, b) {
        (Some(x), Some(y)) => str_eq(x.as_str(), y.as_str()),
        (None, None) => true,
        _ => false,
    }
}

impl ChangeKey {
    /// The key of App `name` in the config text `full`.
    pub fn compute(full: &str, name: &str) -> (k: Self)
        ensures
            k@ == change_key_spec(full@, name@),
    {
        proof {
            reveal_strlit("lark_app");
            reveal_strlit("enabled");
            reveal_strlit("lark-apps");
        }
        let section = value_text_at(full, name);
        let lark_app = match str_at(full, name, "lark_app") {
            Some(reference) => entry_text_at(full, "lark-apps", reference.as_str()),
            None => None,
        };
        let enabled = match bool_at(full, name, "enabled") {
            Some(b) => b,
            None => false,
        };
        ChangeKey { section, lark_app, enabled }
    }

    /// Whether `[name].enabled` is `true` (absent or not a boolean means off).
    pub fn enabled(&self) -> (r: bool)
        ensures
            r == self@.enabled,
    {
        self.enabled
    }

    /// Whether the App's section and its bound Lark app read the same in both
    /// keys (a config change restarts the App exactly when this is false).
    pub fn same(&self, other: &Self) -> (r: bool)
        ensures
            r == (self@.section == other@.section && self@.lark_app == other@.lark_app),
    {
        same_text(&self.section, &other.section) && same_text(&self.lark_app, &other.lark_app)
    }
}

/// A config change leaves an App running exactly when its own section and
/// the Lark app entry it binds to read the same: editing another section,
/// or a Lark app it does not bind to, never restarts it.
pub proof fn law_restart_only_on_own_change(old_cfg: Seq<char>, new_cfg: Seq<char>, name: Seq<char>)
    requires
        toml_value_text(new_cfg, seq![name]) == toml_value_text(old_cfg, seq![name]),
        toml_str_at(new_cfg, seq![name, "lark_app"@]) == toml_str_at(old_cfg, seq![name, "lark_app"@]),
        toml_str_at(old_cfg, seq![name, "lark_app"@]) matches Some(r)
            ==> toml_value_text(new_cfg, seq!["lark-apps"@, r]) == toml_value_text(old_cfg, seq!["lark-apps"@, r]),
    ensures
        change_key_spec(new_cfg, name).section == change_key_spec(old_cfg, name).section,
        change_key_spec(new_cfg, name).lark_app == change_key_spec(old_cfg, name).lark_app,
{
}

} // verus!
