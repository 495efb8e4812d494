//! Edits of the console's config kept as a `toml_edit` document (comments
//! and layout survive): the `[lark-apps.<name>]` registry entries and the
//! `[console]` sign-in binding.

use vstd::prelude::*;
use crate::routing::model::strs_view;
use crate::console::{clean_admins, clean_admins_spec, clean_optional, trimmed_nonblank};

verus! {

#[verifier::external_type_specification]
#[verifier::external_body]
pub struct ExDocumentMut(toml_edit::DocumentMut);

/// The keys the top-level table `table` of `doc` holds something under,
/// when `doc.get(table)` is a table (`Item::Table`); `None` when it is absent
/// or holds something else (a value, an inline table, an array of tables).
pub uninterp spec fn doc_table_keys(doc: toml_edit::DocumentMut, table: Seq<char>) -> Option<Set<Seq<char>>>;

/// The string stored at `table.key` of `doc`, when the top-level `table` is a
/// table and `key` in it holds a string value.
pub uninterp spec fn doc_table_str(doc: toml_edit::DocumentMut, table: Seq<char>, key: Seq<char>) -> Option<Seq<char>>;

/// The strings of the array stored at `table.key` of `doc`, when the
/// top-level `table` is a table and `key` in it holds an array whose items
/// are all strings.
pub uninterp spec fn doc_table_strs(doc: toml_edit::DocumentMut, table: Seq<char>, key: Seq<char>) -> Option<Seq<Seq<char>>>;

/// Whether `doc.contains_key(key)`: the top level holds something under `key`.
pub uninterp spec fn doc_has_key(doc: toml_edit::DocumentMut, key: Seq<char>) -> bool;

/// The string stored at `table.entry.key` of `doc`, when the top-level
/// `table` is a table, `entry` in it holds a table, and `key` in that holds a
/// string value.
pub uninterp spec fn doc_entry_str(doc: toml_edit::DocumentMut, table: Seq<char>, entry: Seq<char>, key: Seq<char>) -> Option<Seq<char>>;

/// Whether the top-level `table` of `doc` is a table marked implicit
/// (`Table::is_implicit`): no bare `[table]` header is written for it.
pub uninterp spec fn doc_table_implicit(doc: toml_edit::DocumentMut, table: Seq<char>) -> bool;

/// Whether `a` and `b` agree on every top-level key other than `except`.
pub open spec fn same_elsewhere(a: toml_edit::DocumentMut, b: toml_edit::DocumentMut, except: Seq<char>) -> bool {
    &&& forall|t: Seq<char>| t != except ==> #[trigger] doc_table_keys(a, t) == doc_table_keys(b, t)
    &&& forall|t: Seq<char>| t != except ==> #[trigger] doc_has_key(a, t) == doc_has_key(b, t)
    &&& forall|t: Seq<char>, k: Seq<char>| t != except ==> #[trigger] doc_table_str(a, t, k) == doc_table_str(b, t, k)
    &&& forall|t: Seq<char>, k: Seq<char>| t != except ==> #[trigger] doc_table_strs(a, t, k) == doc_table_strs(b, t, k)
    &&& forall|t: Seq<char>, e: Seq<char>, k: Seq<char>| t != except ==> #[trigger] doc_entry_str(a, t, e, k) == doc_entry_str(b, t, e, k)
    &&& forall|t: Seq<char>| t != except ==> #[trigger] doc_table_implicit(a, t) == doc_table_implicit(b, t)
}

/// Whether, inside the top-level table `table`, `a` and `b` hold the same
/// values under every key other than `except`, and the table is implicit in
/// both or in neither.
pub open spec fn same_in_table(a: toml_edit::DocumentMut, b: toml_edit::DocumentMut, table: Seq<char>, except: Seq<char>) -> bool {
    &&& forall|k: Seq<char>| k != except ==> #[trigger] doc_table_str(a, table, k) == doc_table_str(b, table, k)
    &&& forall|k: Seq<char>| k != except ==> #[trigger] doc_table_strs(a, table, k) == doc_table_strs(b, table, k)
    &&& forall|e: Seq<char>, k: Seq<char>| e != except ==> #[trigger] doc_entry_str(a, table, e, k) == doc_entry_str(b, table, e, k)
    &&& doc_table_implicit(a, table) == doc_table_implicit(b, table)
}

/// Nothing is stored under `table.key` any more, neither a value nor a
/// table of strings.
pub open spec fn key_cleared(d: toml_edit::DocumentMut, table: Seq<char>, key: Seq<char>) -> bool {
    &&& forall|k: Seq<char>| #[trigger] doc_entry_str(d, table, key, k) is None
}

/// The keys of the top-level table `table`: `doc.get(table)`, then
/// `Item::as_table` and its `iter` keys. The result is named
/// [`doc_table_keys`].
#[verifier::external_body]
fn table_keys(doc: &toml_edit::DocumentMut, table: &str) -> (r: Option<Vec<String>>)
    ensures
        match r {
            Some(v) => doc_table_keys(*doc, table@) == Some(strs_view(v@).to_set()),
            None => doc_table_keys(*doc, table@) is None,
        },
        r is None ==> forall|k: Seq<char>| #[trigger] doc_table_str(*doc, table@, k) is None,
        r is None ==> forall|k: Seq<char>| #[trigger] doc_table_strs(*doc, table@, k) is None,
        r is None ==> forall|e: Seq<char>, k: Seq<char>| #[trigger] doc_entry_str(*doc, table@, e, k) is None,
        r is None ==> !doc_table_implicit(*doc, table@),
{
    let Some(t) = doc.get(table).and_then(toml_edit::Item::as_table) else { return None };
    let mut keys = Vec::new();
    for (k, _) in t.iter() {
        keys.push(k.to_string());
    }
    Some(keys)
}

/// `doc.contains_key(key)`, named [`doc_has_key`].
#[verifier::external_body]
fn has_key(doc: &toml_edit::DocumentMut, key: &str) -> (r: bool)
    ensures
        r == doc_has_key(*doc, key@),
{
    doc.contains_key(key)
}

/// `doc.insert(table, Item::Table(Table::new()))`: the top level then holds
/// an empty table under `table`; nothing else changes.
#[verifier::external_body]
fn insert_empty_table(doc: &mut toml_edit::DocumentMut, table: &str)
    ensures
        doc_table_keys(*final(doc), table@) == Some(Set::<Seq<char>>::empty()),
        doc_has_key(*final(doc), table@),
        forall|k: Seq<char>| #[trigger] doc_table_str(*final(doc), table@, k) is None,
        forall|k: Seq<char>| #[trigger] doc_table_strs(*final(doc), table@, k) is None,
        forall|e: Seq<char>, k: Seq<char>| #[trigger] doc_entry_str(*final(doc), table@, e, k) is None,
        !doc_table_implicit(*final(doc), table@),
        same_elsewhere(*final(doc), *old(doc), table@),
{
    doc.insert(table, toml_edit::Item::Table(toml_edit::Table::new()));
}

/// `set_implicit(true)` on the top-level table `table`: no bare `[table]`
/// header is written for it; its contents do not change.
#[verifier::external_body]
fn set_table_implicit(doc: &mut toml_edit::DocumentMut, table: &str)
    requires
        doc_table_keys(*old(doc), table@) is Some,
    ensures
        doc_table_implicit(*final(doc), table@),
        doc_table_keys(*final(doc), table@) == doc_table_keys(*old(doc), table@),
        doc_has_key(*final(doc), table@),
        forall|k: Seq<char>| #[trigger] doc_table_str(*final(doc), table@, k) == doc_table_str(*old(doc), table@, k),
        forall|k: Seq<char>| #[trigger] doc_table_strs(*final(doc), table@, k) == doc_table_strs(*old(doc), table@, k),
        forall|e: Seq<char>, k: Seq<char>| #[trigger] doc_entry_str(*final(doc), table@, e, k) == doc_entry_str(*old(doc), table@, e, k),
        same_elsewhere(*final(doc), *old(doc), table@),
{
    doc.get_mut(table).and_then(toml_edit::Item::as_table_mut).unwrap().set_implicit(true);
}

/// Whether no two of `fields` share a name.
pub open spec fn distinct_names(fields: Seq<(String, String)>) -> bool {
    forall|i: int, j: int| 0 <= i < j < fields.len() ==> (#[trigger] fields[i]).0@ != (#[trigger] fields[j]).0@
}

/// Inside the top-level table `table`: `insert(key, t)` where `t` is a new
/// table holding `value(v)` under each `(name, v)` of `fields`; an existing
/// entry is replaced in place, a new one appended.
#[verifier::external_body]
fn insert_sub_table(doc: &mut toml_edit::DocumentMut, table: &str, key: &str, fields: &Vec<(String, String)>)
    requires
        doc_table_keys(*old(doc), table@) is Some,
        distinct_names(fields@),
    ensures
        doc_table_keys(*final(doc), table@) == Some(doc_table_keys(*old(doc), table@)->0.insert(key@)),
        doc_has_key(*final(doc), table@),
        doc_table_str(*final(doc), table@, key@) is None,
        doc_table_strs(*final(doc), table@, key@) is None,
        forall|i: int| 0 <= i < fields@.len() ==> doc_entry_str(*final(doc), table@, key@, (#[trigger] fields@[i]).0@) == Some(fields@[i].1@),
        forall|k: Seq<char>| (forall|i: int| 0 <= i < fields@.len() ==> (#[trigger] fields@[i]).0@ != k)
            ==> #[trigger] doc_entry_str(*final(doc), table@, key@, k) is None,
        same_elsewhere(*final(doc), *old(doc), table@),
        same_in_table(*final(doc), *old(doc), table@, key@),
{
    let t = doc.get_mut(table).and_then(toml_edit::Item::as_table_mut).unwrap();
    let mut entry = toml_edit::Table::new();
    for (name, v) in fields {
        entry[name.as_str()] = toml_edit::value(v.as_str());
    }
    t.insert(key, toml_edit::Item::Table(entry));
}

/// `table[key] = value(v)` inside the top-level table `table`: the string is
/// stored under `key`, in place when the key exists.
#[verifier::external_body]
fn set_table_str(doc: &mut toml_edit::DocumentMut, table: &str, key: &str, v: &str)
    requires
        doc_table_keys(*old(doc), table@) is Some,
    ensures
        doc_table_keys(*final(doc), table@) == Some(doc_table_keys(*old(doc), table@)->0.insert(key@)),
        doc_has_key(*final(doc), table@),
        doc_table_str(*final(doc), table@, key@) == Some(v@),
        doc_table_strs(*final(doc), table@, key@) is None,
        key_cleared(*final(doc), table@, key@),
        same_elsewhere(*final(doc), *old(doc), table@),
        same_in_table(*final(doc), *old(doc), table@, key@),
{
    let t = doc.get_mut(table).and_then(toml_edit::Item::as_table_mut).unwrap();
    t[key] = toml_edit::value(v);
}

/// `table[key] = value(array of vs)` inside the top-level table `table`.
#[verifier::external_body]
fn set_table_strs(doc: &mut toml_edit::DocumentMut, table: &str, key: &str, vs: &Vec<String>)
    requires
        doc_table_keys(*old(doc), table@) is Some,
    ensures
        doc_table_keys(*final(doc), table@) == Some(doc_table_keys(*old(doc), table@)->0.insert(key@)),
        doc_has_key(*final(doc), table@),
        doc_table_str(*final(doc), table@, key@) is None,
        doc_table_strs(*final(doc), table@, key@) == Some(strs_view(vs@)),
        key_cleared(*final(doc), table@, key@),
        same_elsewhere(*final(doc), *old(doc), table@),
        same_in_table(*final(doc), *old(doc), table@, key@),
{
    let t = doc.get_mut(table).and_then(toml_edit::Item::as_table_mut).unwrap();
    let mut arr = toml_edit::Array::new();
    for v in vs {
        arr.push(v.as_str());
    }
    t[key] = toml_edit::value(arr);
}

/// `remove(key)` inside the top-level table `table`; whether something was
/// stored under `key`.
#[verifier::external_body]
fn remove_table_key(doc: &mut toml_edit::DocumentMut, table: &str, key: &str) -> (removed: bool)
    requires
        doc_table_keys(*old(doc), table@) is Some,
    ensures
        doc_table_keys(*old(doc), table@)->0.contains(key@) ==> removed,
        doc_table_keys(*final(doc), table@) == Some(doc_table_keys(*old(doc), table@)->0.remove(key@)),
        doc_has_key(*final(doc), table@),
        doc_table_str(*final(doc), table@, key@) is None,
        doc_table_strs(*final(doc), table@, key@) is None,
        key_cleared(*final(doc), table@, key@),
        same_elsewhere(*final(doc), *old(doc), table@),
        same_in_table(*final(doc), *old(doc), table@, key@),
{
    doc.get_mut(table).and_then(toml_edit::Item::as_table_mut).unwrap().remove(key).is_some()
}

/// `doc.remove(key)` at the top level.
#[verifier::external_body]
fn remove_top(doc: &mut toml_edit::DocumentMut, key: &str)
    ensures
        doc_table_keys(*final(doc), key@) is None,
        !doc_has_key(*final(doc), key@),
        forall|k: Seq<char>| #[trigger] doc_table_str(*final(doc), key@, k) is None,
        forall|k: Seq<char>| #[trigger] doc_table_strs(*final(doc), key@, k) is None,
        forall|e: Seq<char>, k: Seq<char>| #[trigger] doc_entry_str(*final(doc), key@, e, k) is None,
        !doc_table_implicit(*final(doc), key@),
        same_elsewhere(*final(doc), *old(doc), key@),
{
    doc.remove(key);
}

/// Why an edit of the config document was refused.
#[derive(Debug, Clone, PartialEq, Eq)]
pub enum DocEditError {
    /// The top-level key holds something other than a table.
    NotATable(String),
}

/// The top-level key of the Lark app registry.
pub open spec fn lark_apps_key() -> Seq<char> {
    "lark-apps"@
}

/// The fields of a `[lark-apps.<name>]` entry, in the order they are
/// written.
pub open spec fn app_entry_fields(app_id: Seq<char>, app_secret: Seq<char>, base_url: Seq<char>) -> Seq<(Seq<char>, Seq<char>)> {
    seq![("app_id"@, app_id), ("app_secret"@, app_secret), ("base_url"@, base_url)]
}

/// The view of `(name, value)` string pairs.
pub open spec fn pairs_view(fields: Seq<(String, String)>) -> Seq<(Seq<char>, Seq<char>)> {
    fields.map_values(|f: (String, String)| (f.0@, f.1@))
}

/// Writes `[lark-apps.<name>]` with its `app_id`, `app_secret` and
/// `base_url`: an existing entry is replaced in place, a new one goes last,
/// and the parent table is marked implicit (no bare `[lark-apps]` header).
/// Refused when `lark-apps` holds something other than a table.
pub fn upsert_entry(doc: &mut toml_edit::DocumentMut, name: &str, app_id: &str, app_secret: &str, base_url: &str) -> (r: Result<(), DocEditError>)
    ensures
        match doc_table_keys(*old(doc), lark_apps_key()) {
            Some(keys) => r is Ok && doc_table_keys(*final(doc), lark_apps_key()) == Some(keys.insert(name@)),
            None => if doc_has_key(*old(doc), lark_apps_key()) {
                r is Err && *final(doc) == *old(doc)
            } else {
                r is Ok && doc_table_keys(*final(doc), lark_apps_key()) == Some(set![name@])
            },
        },
        r is Ok ==> {
            &&& doc_entry_str(*final(doc), lark_apps_key(), name@, "app_id"@) == Some(app_id@)
            &&& doc_entry_str(*final(doc), lark_apps_key(), name@, "app_secret"@) == Some(app_secret@)
            &&& doc_entry_str(*final(doc), lark_apps_key(), name@, "base_url"@) == Some(base_url@)
            &&& forall|k: Seq<char>| k != "app_id"@ && k != "app_secret"@ && k != "base_url"@
                ==> #[trigger] doc_entry_str(*final(doc), lark_apps_key(), name@, k) is None
            &&& doc_table_implicit(*final(doc), lark_apps_key())
            &&& forall|e: Seq<char>, k: Seq<char>| e != name@
                ==> #[trigger] doc_entry_str(*final(doc), lark_apps_key(), e, k) == doc_entry_str(*old(doc), lark_apps_key(), e, k)
            &&& same_elsewhere(*final(doc), *old(doc), lark_apps_key())
        },
{
    proof {
        reveal_strlit("lark-apps");
        reveal_strlit("app_id");
        reveal_strlit("app_secret");
        reveal_strlit("base_url");
    }
    let key = "lark-apps";
    match table_keys(doc, key) {
        Some(_) => {},
        None => {
            if has_key(doc, key) {
                return Err(DocEditError::NotATable(String::from_str(key)));
            }
            insert_empty_table(doc, key);
            assert(Set::<Seq<char>>::empty().insert(name@) =~= set![name@]);
        },
    }
    let ghost d0 = *doc;
    set_table_implicit(doc, key);
    let mut fields: Vec<(String, String)> = Vec::new();
    fields.push((String::from_str("app_id"), String::from_str(app_id)));
    fields.push((String::from_str("app_secret"), String::from_str(app_secret)));
    fields.push((String::from_str("base_url"), String::from_str(base_url)));
    assert("app_id"@[4] != "app_secret"@[4]);
    assert("app_id"@[0] != "base_url"@[0]);
    assert("app_secret"@[0] != "base_url"@[0]);
    assert(distinct_names(fields@));
    let ghost d1 = *doc;
    insert_sub_table(doc, key, name, &fields);
    proof {
        assert(fields@[0].0@ == "app_id"@);
        assert(fields@[1].0@ == "app_secret"@);
        assert(fields@[2].0@ == "base_url"@);
        assert forall|k: Seq<char>| k != "app_id"@ && k != "app_secret"@ && k != "base_url"@
            implies #[trigger] doc_entry_str(*doc, lark_apps_key(), name@, k) is None by {
            assert forall|i: int| 0 <= i < fields@.len() implies (#[trigger] fields@[i]).0@ != k by {}
        }
        assert forall|e: Seq<char>, k: Seq<char>| e != name@
            implies #[trigger] doc_entry_str(*doc, lark_apps_key(), e, k) == doc_entry_str(*old(doc), lark_apps_key(), e, k) by {
            assert(doc_entry_str(*doc, lark_apps_key(), e, k) == doc_entry_str(d1, lark_apps_key(), e, k));
            assert(doc_entry_str(d1, lark_apps_key(), e, k) == doc_entry_str(d0, lark_apps_key(), e, k));
        }
    }
    Ok(())
}

/// Removes `[lark-apps.<name>]`, dropping the parent table once it is
/// empty. Returns whether the entry existed; nothing happens when
/// `lark-apps` is not a table.
pub fn remove_entry(doc: &mut toml_edit::DocumentMut, name: &str) -> (existed: bool)
    ensures
        match doc_table_keys(*old(doc), lark_apps_key()) {
            Some(keys) => {
                &&& keys.contains(name@) ==> existed
                &&& if keys.remove(name@).is_empty() {
                    !doc_has_key(*final(doc), lark_apps_key())
                } else {
                    doc_table_keys(*final(doc), lark_apps_key()) == Some(keys.remove(name@))
                }
                &&& same_elsewhere(*final(doc), *old(doc), lark_apps_key())
            },
            None => !existed && *final(doc) == *old(doc),
        },
{
    proof {
        reveal_strlit("lark-apps");
    }
    let key = "lark-apps";
    match table_keys(doc, key) {
        None => false,
        Some(_) => {
            let existed = remove_table_key(doc, key, name);
            match table_keys(doc, key) {
                Some(left) => {
                    if left.len() == 0 {
                        assert(strs_view(left@).to_set() =~= Set::<Seq<char>>::empty());
                        remove_top(doc, key);
                    } else {
                        assert(strs_view(left@).to_set().contains(strs_view(left@)[0]));
                    }
                },
                None => {},
            }
            existed
        },
    }
}

/// The top-level key of the console sign-in binding.
pub open spec fn console_key() -> Seq<char> {
    "console"@
}

/// Removes the `[console].lark_app` binding, reopening the console; nothing
/// happens when `console` is not a table.
pub fn unbind_console(doc: &mut toml_edit::DocumentMut)
    ensures
        match doc_table_keys(*old(doc), console_key()) {
            Some(keys) => doc_table_keys(*final(doc), console_key()) == Some(keys.remove("lark_app"@))
                && same_elsewhere(*final(doc), *old(doc), console_key()),
            None => *final(doc) == *old(doc),
        },
{
    proof {
        reveal_strlit("console");
        reveal_strlit("lark_app");
    }
    match table_keys(doc, "console") {
        None => {},
        Some(_) => {
            let _ = remove_table_key(doc, "console", "lark_app");
        },
    }
}

/// An optional console field as written: trimmed, absent when blank.
pub open spec fn cleaned(v: Option<Seq<char>>) -> Option<Seq<char>> {
    match v {
        Some(s) => trimmed_nonblank(s),
        None => None,
    }
}

/// The view of an optional `&str`.
pub open spec fn opt_str(v: Option<&str>) -> Option<Seq<char>> {
    match v {
        Some(s) => Some(s@),
        None => None,
    }
}

/// The keys of `[console]` after a write, from the keys `base` it had.
pub open spec fn console_keys_after(base: Set<Seq<char>>, redirect_uri: Option<Seq<char>>, scope: Option<Seq<char>>) -> Set<Seq<char>> {
    let k = base.insert("lark_app"@).insert("admins"@);
    let k = if cleaned(redirect_uri) is Some { k.insert("redirect_uri"@) } else { k.remove("redirect_uri"@) };
    if cleaned(scope) is Some { k.insert("scope"@) } else { k.remove("scope"@) }
}

/// Writes `key` when `v` cleans to a value, else removes it.
fn set_or_remove(doc: &mut toml_edit::DocumentMut, key: &str, v: Option<&str>)
    requires
        doc_table_keys(*old(doc), console_key()) is Some,
    ensures
        doc_table_keys(*final(doc), console_key()) == Some(if cleaned(opt_str(v)) is Some {
            doc_table_keys(*old(doc), console_key())->0.insert(key@)
        } else {
            doc_table_keys(*old(doc), console_key())->0.remove(key@)
        }),
        doc_has_key(*final(doc), console_key()),
        doc_table_str(*final(doc), console_key(), key@) == cleaned(opt_str(v)),
        doc_table_strs(*final(doc), console_key(), key@) is None,
        same_elsewhere(*final(doc), *old(doc), console_key()),
        same_in_table(*final(doc), *old(doc), console_key(), key@),
{
    proof {
        reveal_strlit("console");
    }
    match clean_optional(v) {
        Some(s) => set_table_str(doc, "console", key, s.as_str()),
        None => {
            let _ = remove_table_key(doc, "console", key);
        },
    }
}

/// Writes the `[console]` binding, creating the table when absent:
/// `lark_app` and the cleaned `admins` always, `redirect_uri` and `scope`
/// when non-blank (removed otherwise, so a cleared field does not linger).
/// Refused when `console` holds something other than a table.
pub fn write_console(
    doc: &mut toml_edit::DocumentMut,
    lark_app: &str,
    admins: &[String],
    redirect_uri: Option<&str>,
    scope: Option<&str>,
) -> (r: Result<(), DocEditError>)
    ensures
        (doc_table_keys(*old(doc), console_key()) is None && doc_has_key(*old(doc), console_key()))
            <==> r is Err,
        r is Err ==> *final(doc) == *old(doc),
        r is Ok ==> {
            let base = match doc_table_keys(*old(doc), console_key()) { Some(k) => k, None => Set::empty() };
            &&& doc_table_keys(*final(doc), console_key()) == Some(console_keys_after(base, opt_str(redirect_uri), opt_str(scope)))
            &&& doc_table_str(*final(doc), console_key(), "lark_app"@) == Some(lark_app@)
            &&& doc_table_strs(*final(doc), console_key(), "admins"@) == Some(clean_admins_spec(strs_view(admins@)))
            &&& doc_table_str(*final(doc), console_key(), "redirect_uri"@) == cleaned(opt_str(redirect_uri))
            &&& doc_table_str(*final(doc), console_key(), "scope"@) == cleaned(opt_str(scope))
            &&& same_elsewhere(*final(doc), *old(doc), console_key())
        },
{
    proof {
        reveal_strlit("console");
        reveal_strlit("lark_app");
        reveal_strlit("admins");
        reveal_strlit("redirect_uri");
        reveal_strlit("scope");
    }
    let key = "console";
    match table_keys(doc, key) {
        Some(_) => {},
        None => {
            if has_key(doc, key) {
                return Err(DocEditError::NotATable(String::from_str(key)));
            }
            insert_empty_table(doc, key);
        },
    }
    set_table_str(doc, key, "lark_app", lark_app);
    let cleaned_admins = clean_admins(admins);
    assert(strs_view(cleaned_admins@) == clean_admins_spec(strs_view(admins@)));
    set_table_strs(doc, key, "admins", &cleaned_admins);
    set_or_remove(doc, "redirect_uri", redirect_uri);
    set_or_remove(doc, "scope", scope);
    proof {
        assert("lark_app"@[0] != "admins"@[0]);
        assert("lark_app"@ != "admins"@);
        assert("lark_app"@[0] != "redirect_uri"@[0]);
        assert("lark_app"@ != "redirect_uri"@);
        assert("lark_app"@ != "scope"@);
        assert("admins"@ != "redirect_uri"@);
        assert("admins"@ != "scope"@);
        assert("redirect_uri"@ != "scope"@);
    }
    Ok(())
}

} // verus!
