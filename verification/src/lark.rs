//! The shared Lark-app credential registry: the `[lark-apps.<name>]` entries
//! that Apps bind to by name, plus the checks the console applies when it
//! registers an entry.

use vstd::prelude::*;
use crate::text::{ascii_name_char, is_blank, lemma_seq_lt_asym, lemma_seq_lt_total, lemma_seq_lt_trans, seq_lt, str_lt, trim, trim_spec};

verus! {

/// The default Lark base URL (international tenant).
pub open spec fn default_base_url_spec() -> Seq<char> {
    "https://open.larksuite.com"@
}

/// Default Lark base URL (international tenant). China tenants use
/// `https://open.feishu.cn`.
pub fn default_base_url() -> (url: String)
    ensures
        url@ == default_base_url_spec(),
{
    String::from_str("https://open.larksuite.com")
}

/// One Lark application's credentials. Fields default to empty so a partially
/// filled entry never fails the whole config parse; the consumer building a
/// client is what rejects empty credentials.
#[derive(Debug, Clone)]
pub struct LarkApp {
    pub app_id: String,
    pub app_secret: String,
    pub base_url: String,
}

/// The mathematical value of a [`LarkApp`].
pub struct LarkAppView {
    pub app_id: Seq<char>,
    pub app_secret: Seq<char>,
    pub base_url: Seq<char>,
}

impl View for LarkApp {
    type V = LarkAppView;

    open spec fn view(&self) -> LarkAppView {
        LarkAppView { app_id: self.app_id@, app_secret: self.app_secret@, base_url: self.base_url@ }
    }
}

impl Default for LarkApp {
    fn default() -> (app: Self)
        ensures
            app.app_id@.len() == 0,
            app.app_secret@.len() == 0,
            app.base_url@ == default_base_url_spec(),
    {
        LarkApp { app_id: String::new(), app_secret: String::new(), base_url: default_base_url() }
    }
}

impl LarkApp {
    /// A field-for-field copy.
    pub fn copied(&self) -> (app: Self)
        ensures
            app@ == self@,
    {
        LarkApp {
            app_id: self.app_id.clone(),
            app_secret: self.app_secret.clone(),
            base_url: self.base_url.clone(),
        }
    }
}

/// The map a sequence of `(name, app)` entries describes.
pub open spec fn entries_map(entries: Seq<(String, LarkApp)>) -> Map<Seq<char>, LarkAppView>
    decreases entries.len(),
{
    if entries.len() == 0 {
        Map::empty()
    } else {
        entries_map(entries.drop_last()).insert(entries.last().0@, entries.last().1@)
    }
}

/// Whether no name occurs twice among `entries`.
pub open spec fn names_unique(entries: Seq<(String, LarkApp)>) -> bool {
    forall|i: int, j: int|
        0 <= i < entries.len() && 0 <= j < entries.len() && i != j ==> (#[trigger] entries[i]).0@ != (#[trigger] entries[j]).0@
}

/// The console-managed set of Lark apps, keyed by name.
#[derive(Debug)]
pub struct LarkRegistry {
    apps: Vec<(String, LarkApp)>,
}

impl View for LarkRegistry {
    type V = Map<Seq<char>, LarkAppView>;

    closed spec fn view(&self) -> Map<Seq<char>, LarkAppView> {
        entries_map(self.apps@)
    }
}

proof fn lemma_entries_map(entries: Seq<(String, LarkApp)>)
    requires
        names_unique(entries),
    ensures
        forall|k: Seq<char>| #[trigger] entries_map(entries).contains_key(k) <==> exists|i: int| 0 <= i < entries.len() && (#[trigger] entries[i]).0@ == k,
        forall|i: int| 0 <= i < entries.len() ==> entries_map(entries)[(#[trigger] entries[i]).0@] == entries[i].1@,
    decreases entries.len(),
{
    if entries.len() > 0 {
        let prev = entries.drop_last();
        assert(names_unique(prev)) by {
            assert forall|i: int, j: int|
                0 <= i < prev.len() && 0 <= j < prev.len() && i != j implies (#[trigger] prev[i]).0@ != (#[trigger] prev[j]).0@ by {
                assert(prev[i] == entries[i]);
                assert(prev[j] == entries[j]);
            }
        }
        lemma_entries_map(prev);
        assert forall|k: Seq<char>| #[trigger] entries_map(entries).contains_key(k) <==> exists|i: int| 0 <= i < entries.len() && (#[trigger] entries[i]).0@ == k by {
            if entries_map(entries).contains_key(k) && k != entries.last().0@ {
                assert(entries_map(prev).contains_key(k));
                let i = choose|i: int| 0 <= i < prev.len() && (#[trigger] prev[i]).0@ == k;
                assert(entries[i] == prev[i]);
            }
            if k == entries.last().0@ {
                assert(entries[entries.len() - 1].0@ == k);
            }
            if exists|i: int| 0 <= i < entries.len() && (#[trigger] entries[i]).0@ == k {
                let i = choose|i: int| 0 <= i < entries.len() && (#[trigger] entries[i]).0@ == k;
                if i < prev.len() {
                    assert(prev[i] == entries[i]);
                }
            }
        }
        assert forall|i: int| 0 <= i < entries.len() implies entries_map(entries)[(#[trigger] entries[i]).0@] == entries[i].1@ by {
            if i < prev.len() {
                assert(prev[i] == entries[i]);
                assert(entries[i].0@ != entries[entries.len() - 1].0@);
            }
        }
    }
}

impl LarkRegistry {
    #[verifier::type_invariant]
    closed spec fn unique_names(&self) -> bool {
        names_unique(self.apps@)
    }

    /// An empty registry.
    pub fn new() -> (r: Self)
        ensures
            r@ == Map::<Seq<char>, LarkAppView>::empty(),
    {
        LarkRegistry { apps: Vec::new() }
    }

    /// The position of the entry named `name`, if any.
    fn position(&self, name: &str) -> (r: Option<usize>)
        ensures
            match r {
                Some(i) => i < self.apps@.len() && self.apps@[i as int].0@ == name@,
                None => forall|k: int| 0 <= k < self.apps@.len() ==> (#[trigger] self.apps@[k]).0@ != name@,
            },
    {
        let key = name.to_owned();
        let mut i: usize = 0;
        while i < self.apps.len()
            invariant
                key@ == name@,
                i <= self.apps@.len(),
                forall|k: int| 0 <= k < i ==> (#[trigger] self.apps@[k]).0@ != name@,
            decreases self.apps@.len() - i,
        {
            if self.apps[i].0 == key {
                return Some(i);
            }
            i = i + 1;
        }
        None
    }

    /// Look up an app by name.
    pub fn get(&self, name: &str) -> (r: Option<&LarkApp>)
        ensures
            r is Some <==> self@.contains_key(name@),
            r is Some ==> r->0@ == self@[name@],
    {
        proof {
            use_type_invariant(self);
            lemma_entries_map(self.apps@);
        }
        match self.position(name) {
            Some(i) => Some(&self.apps[i].1),
            None => None,
        }
    }

    /// The `(name, app)` pairs, each name once, in no promised order.
    #[verifier::loop_isolation(false)]
    pub fn iter(&self) -> (out: Vec<(&str, &LarkApp)>)
        ensures
            forall|k: Seq<char>| self@.contains_key(k) <==> exists|i: int| 0 <= i < out@.len() && (#[trigger] out@[i]).0@ == k,
            forall|i: int| 0 <= i < out@.len() ==> self@[(#[trigger] out@[i]).0@] == out@[i].1@,
            forall|i: int, j: int| 0 <= i < out@.len() && 0 <= j < out@.len() && i != j ==> (#[trigger] out@[i]).0@ != (#[trigger] out@[j]).0@,
    {
        proof {
            use_type_invariant(self);
            lemma_entries_map(self.apps@);
        }
        let mut out: Vec<(&str, &LarkApp)> = Vec::new();
        let mut i: usize = 0;
        while i < self.apps.len()
            invariant
                i <= self.apps@.len(),
                out@.len() == i,
                forall|k: int| 0 <= k < i ==> (#[trigger] out@[k]).0@ == self.apps@[k].0@ && out@[k].1@ == self.apps@[k].1@,
            decreases self.apps@.len() - i,
        {
            out.push((self.apps[i].0.as_str(), &self.apps[i].1));
            i = i + 1;
        }
        proof {
            assert forall|k: Seq<char>| self@.contains_key(k) implies exists|i: int| 0 <= i < out@.len() && (#[trigger] out@[i]).0@ == k by {
                let j = choose|j: int| 0 <= j < self.apps@.len() && (#[trigger] self.apps@[j]).0@ == k;
                assert(out@[j].0@ == k);
            }
            assert forall|i: int, j: int| 0 <= i < out@.len() && 0 <= j < out@.len() && i != j implies (#[trigger] out@[i]).0@ != (#[trigger] out@[j]).0@ by {
                assert(self.apps@[i].0@ != self.apps@[j].0@);
            }
            assert forall|i: int| 0 <= i < out@.len() implies self@[(#[trigger] out@[i]).0@] == out@[i].1@ by {
                assert(self@[self.apps@[i].0@] == self.apps@[i].1@);
            }
        }
        out
    }

    /// Whether the registry holds no app.
    pub fn is_empty(&self) -> (r: bool)
        ensures
            r == (self@.dom() =~= Set::<Seq<char>>::empty()),
    {
        proof {
            use_type_invariant(self);
            lemma_entries_map(self.apps@);
            if self.apps@.len() > 0 {
                assert(self@.contains_key(self.apps@[0].0@));
            }
        }
        self.apps.len() == 0
    }

    /// Registers `app` under `name`, replacing an existing entry of that name
    /// in place.
    pub fn insert(&mut self, name: String, app: LarkApp)
        ensures
            final(self)@ == old(self)@.insert(name@, app@),
    {
        proof {
            use_type_invariant(&*self);
            lemma_entries_map(self.apps@);
        }
        let ghost before = self.apps@;
        let pos = self.position(name.as_str());
        let mut apps = Vec::new();
        std::mem::swap(&mut apps, &mut self.apps);
        match pos {
            Some(i) => {
                apps.set(i, (name, app));
                proof {
                    let after = apps@;
                    assert(names_unique(after)) by {
                        assert forall|x: int, y: int|
                            0 <= x < after.len() && 0 <= y < after.len() && x != y implies (#[trigger] after[x]).0@ != (#[trigger] after[y]).0@ by {
                            assert(before[x].0@ != before[y].0@);
                        }
                    }
                    lemma_entries_map(after);
                    assert forall|k: Seq<char>| #[trigger] entries_map(after).contains_key(k) <==> entries_map(before).insert(name@, app@).contains_key(k) by {
                        if entries_map(before).contains_key(k) {
                            let j = choose|j: int| 0 <= j < before.len() && (#[trigger] before[j]).0@ == k;
                            assert(after[j].0@ == k);
                        }
                        if k == name@ {
                            assert(after[i as int].0@ == k);
                        }
                        if entries_map(after).contains_key(k) {
                            let j = choose|j: int| 0 <= j < after.len() && (#[trigger] after[j]).0@ == k;
                            assert(before[j].0@ == k);
                        }
                    }
                    assert forall|k: Seq<char>| #[trigger] entries_map(after).contains_key(k) implies entries_map(after)[k] == entries_map(before).insert(name@, app@)[k] by {
                        let j = choose|j: int| 0 <= j < after.len() && (#[trigger] after[j]).0@ == k;
                        assert(entries_map(after)[after[j].0@] == after[j].1@);
                        if j != i {
                            assert(entries_map(before)[before[j].0@] == before[j].1@);
                        }
                    }
                    assert(entries_map(after) =~= entries_map(before).insert(name@, app@));
                }
            }
            None => {
                apps.push((name, app));
                proof {
                    let after = apps@;
                    assert(after.drop_last() =~= before);
                    assert(names_unique(after)) by {
                        assert forall|x: int, y: int|
                            0 <= x < after.len() && 0 <= y < after.len() && x != y implies (#[trigger] after[x]).0@ != (#[trigger] after[y]).0@ by {
                            if x < before.len() && y < before.len() {
                                assert(before[x].0@ != before[y].0@);
                            } else if x < before.len() {
                                assert(after[x] == before[x]);
                            } else {
                                assert(after[y] == before[y]);
                            }
                        }
                    }
                }
            }
        }
        self.apps = apps;
    }

    /// Removes the entry named `name`; returns whether it existed.
    pub fn remove(&mut self, name: &str) -> (existed: bool)
        ensures
            existed == old(self)@.contains_key(name@),
            final(self)@ == old(self)@.remove(name@),
    {
        proof {
            use_type_invariant(&*self);
            lemma_entries_map(self.apps@);
        }
        let ghost before = self.apps@;
        match self.position(name) {
            Some(i) => {
                let mut apps = Vec::new();
                std::mem::swap(&mut apps, &mut self.apps);
                apps.remove(i);
                proof {
                    let after = apps@;
                    assert(after =~= before.remove(i as int));
                    assert forall|x: int| 0 <= x < after.len() implies #[trigger] after[x] == before[if x < i { x } else { x + 1 }] by {}
                    assert(names_unique(after)) by {
                        assert forall|x: int, y: int|
                            0 <= x < after.len() && 0 <= y < after.len() && x != y implies (#[trigger] after[x]).0@ != (#[trigger] after[y]).0@ by {
                            let bx = if x < i { x } else { x + 1 };
                            let by_ = if y < i { y } else { y + 1 };
                            assert(after[x] == before[bx]);
                            assert(after[y] == before[by_]);
                            assert(before[bx].0@ != before[by_].0@);
                        }
                    }
                    lemma_entries_map(after);
                    assert forall|k: Seq<char>| #[trigger] entries_map(after).contains_key(k) <==> entries_map(before).remove(name@).contains_key(k) by {
                        if entries_map(before).contains_key(k) && k != name@ {
                            let j = choose|j: int| 0 <= j < before.len() && (#[trigger] before[j]).0@ == k;
                            assert(j != i);
                            let aj = if j < i { j } else { j - 1 };
                            assert(after[aj] == before[j]);
                        }
                        if entries_map(after).contains_key(k) {
                            let j = choose|j: int| 0 <= j < after.len() && (#[trigger] after[j]).0@ == k;
                            let bj = if j < i { j } else { j + 1 };
                            assert(after[j] == before[bj]);
                            assert(bj != i);
                            assert(before[bj].0@ != before[i as int].0@);
                        }
                    }
                    assert forall|k: Seq<char>| #[trigger] entries_map(after).contains_key(k) implies entries_map(after)[k] == entries_map(before).remove(name@)[k] by {
                        let j = choose|j: int| 0 <= j < after.len() && (#[trigger] after[j]).0@ == k;
                        let bj = if j < i { j } else { j + 1 };
                        assert(after[j] == before[bj]);
                        assert(entries_map(after)[after[j].0@] == after[j].1@);
                        assert(entries_map(before)[before[bj].0@] == before[bj].1@);
                    }
                    assert(entries_map(after) =~= entries_map(before).remove(name@));
                }
                self.apps = apps;
                true
            }
            None => {
                assert(!self@.contains_key(name@)) by {
                    if self@.contains_key(name@) {
                        let j = choose|j: int| 0 <= j < before.len() && (#[trigger] before[j]).0@ == name@;
                    }
                }
                assert(self@ =~= self@.remove(name@));
                false
            }
        }
    }
}

/// Whether `c` may appear in a registry entry name: `[A-Za-z0-9_-]`.
pub open spec fn name_char_ok(c: char) -> bool {
    crate::text::is_ascii_alnum(c) || c == '-' || c == '_'
}

/// Whether `name` is a valid registry entry name.
pub open spec fn valid_name_spec(name: Seq<char>) -> bool {
    name.len() > 0 && forall|i: int| 0 <= i < name.len() ==> name_char_ok(#[trigger] name[i])
}

/// Registry entry names: non-empty, only `[A-Za-z0-9_-]`.
pub fn valid_name(name: &str) -> (r: bool)
    ensures
        r == valid_name_spec(name@),
{
    let v = crate::text::chars_of(name);
    if v.len() == 0 {
        return false;
    }
    let mut i: usize = 0;
    while i < v.len()
        invariant
            v@ == name@,
            i <= v.len(),
            forall|k: int| 0 <= k < i ==> name_char_ok(#[trigger] v@[k]),
        decreases v.len() - i,
    {
        if !ascii_name_char(v[i]) {
            return false;
        }
        i = i + 1;
    }
    true
}

/// The base URL to store for a requested one: trimmed when it holds any
/// non-whitespace, else the default.
pub open spec fn normalize_base_url_spec(raw: Option<Seq<char>>) -> Seq<char> {
    match raw {
        Some(s) => if trim_spec(s).len() > 0 { trim_spec(s) } else { default_base_url_spec() },
        None => default_base_url_spec(),
    }
}

/// A requested base URL, trimmed, or the default when absent or blank.
pub fn normalize_base_url(raw: Option<String>) -> (url: String)
    ensures
        url@ == normalize_base_url_spec(match raw { Some(s) => Some(s@), None => None }),
{
    match raw {
        Some(s) => {
            if is_blank(s.as_str()) {
                default_base_url()
            } else {
                trim(s.as_str())
            }
        }
        None => default_base_url(),
    }
}

/// One registry entry as the console lists it: the secret redacted to
/// whether one is stored.
#[derive(Debug, Clone)]
pub struct LarkAppSummary {
    pub name: String,
    pub app_id: String,
    pub base_url: String,
    pub has_secret: bool,
}

/// Whether `s` describes the entry `app`.
pub open spec fn summarizes(s: LarkAppSummary, app: LarkAppView) -> bool {
    &&& s.app_id@ == app.app_id
    &&& s.base_url@ == app.base_url
    &&& s.has_secret == (app.app_secret.len() > 0)
}

/// Whether some summary of `v` is named `k`.
pub open spec fn listed(v: Seq<LarkAppSummary>, k: Seq<char>) -> bool {
    exists|j: int| 0 <= j < v.len() && (#[trigger] v[j]).name@ == k
}

/// Whether one of the first `n` entries is named `k`.
pub open spec fn seen(entries: Seq<(&str, &LarkApp)>, n: int, k: Seq<char>) -> bool {
    exists|j: int| 0 <= j < n && (#[trigger] entries[j]).0@ == k
}

/// Whether the summaries are in strictly increasing name order.
pub open spec fn sorted_by_name(v: Seq<LarkAppSummary>) -> bool {
    forall|i: int, j: int| 0 <= i < j < v.len() ==> seq_lt((#[trigger] v[i]).name@, (#[trigger] v[j]).name@)
}

impl LarkRegistry {
    /// The registry as the console lists it: one summary per entry, sorted
    /// by name, secrets redacted.
    pub fn summaries(&self) -> (out: Vec<LarkAppSummary>)
        ensures
            sorted_by_name(out@),
            forall|k: Seq<char>| self@.contains_key(k) <==> #[trigger] listed(out@, k),
            forall|i: int| 0 <= i < out@.len() ==> summarizes(#[trigger] out@[i], self@[out@[i].name@]),
    {
        let entries = self.iter();
        let mut out: Vec<LarkAppSummary> = Vec::new();
        let mut i: usize = 0;
        while i < entries.len()
            invariant
                i <= entries@.len(),
                forall|k: Seq<char>| self@.contains_key(k) <==> exists|j: int| 0 <= j < entries@.len() && (#[trigger] entries@[j]).0@ == k,
                forall|j: int| 0 <= j < entries@.len() ==> self@[(#[trigger] entries@[j]).0@] == entries@[j].1@,
                forall|a: int, b: int| 0 <= a < entries@.len() && 0 <= b < entries@.len() && a != b ==> (#[trigger] entries@[a]).0@ != (#[trigger] entries@[b]).0@,
                sorted_by_name(out@),
                forall|k: Seq<char>| #[trigger] listed(out@, k) <==> seen(entries@, i as int, k),
                forall|j: int| 0 <= j < out@.len() ==> summarizes(#[trigger] out@[j], self@[out@[j].name@]),
            decreases entries@.len() - i,
        {
            let (name, app) = entries[i];
            let ghost before = out@;
            assert(forall|j: int| 0 <= j < before.len() ==> before[j].name@ != name@) by {
                assert forall|j: int| 0 <= j < before.len() implies before[j].name@ != name@ by {
                    if before[j].name@ == name@ {
                        assert(listed(before, name@));
                        let k = choose|k: int| 0 <= k < i && (#[trigger] entries@[k]).0@ == name@;
                        assert(entries@[k].0@ != entries@[i as int].0@);
                    }
                }
            }
            let mut p: usize = 0;
            while p < out.len() && !str_lt(name, out[p].name.as_str())
                invariant
                    p <= out@.len(),
                    out@ == before,
                    forall|j: int| 0 <= j < p ==> !seq_lt(name@, #[trigger] out@[j].name@),
                decreases out@.len() - p,
            {
                p = p + 1;
            }
            let summary = LarkAppSummary {
                name: String::from_str(name),
                app_id: app.app_id.clone(),
                base_url: app.base_url.clone(),
                has_secret: app.app_secret.as_str().unicode_len() > 0,
            };
            out.insert(p, summary);
            proof {
                let after = out@;
                assert(after == before.insert(p as int, summary));
                assert forall|j: int| 0 <= j < p implies seq_lt(#[trigger] before[j].name@, name@) by {
                    lemma_seq_lt_total(before[j].name@, name@);
                }
                if p < before.len() {
                    assert(seq_lt(name@, before[p as int].name@));
                    assert forall|j: int| p <= j < before.len() implies seq_lt(name@, #[trigger] before[j].name@) by {
                        if j > p {
                            lemma_seq_lt_trans(name@, before[p as int].name@, before[j].name@);
                        }
                    }
                }
                assert forall|x: int, y: int| 0 <= x < y < after.len() implies seq_lt((#[trigger] after[x]).name@, (#[trigger] after[y]).name@) by {
                    if x < p && y < p {
                        assert(after[x] == before[x] && after[y] == before[y]);
                    } else if x < p && y == p {
                        assert(after[x] == before[x]);
                    } else if x < p {
                        assert(after[x] == before[x] && after[y] == before[y - 1]);
                        lemma_seq_lt_trans(before[x].name@, name@, before[y - 1].name@);
                    } else if x == p {
                        assert(after[y] == before[y - 1]);
                    } else {
                        assert(after[x] == before[x - 1] && after[y] == before[y - 1]);
                    }
                }
                assert forall|k: Seq<char>| #[trigger] listed(after, k) <==> seen(entries@, i + 1, k) by {
                    if listed(after, k) {
                        let j = choose|j: int| 0 <= j < after.len() && (#[trigger] after[j]).name@ == k;
                        if j < p {
                            assert(after[j] == before[j]);
                        } else if j == p {
                            assert(entries@[i as int].0@ == k);
                        } else {
                            assert(after[j] == before[j - 1]);
                        }
                        if j != p {
                            let bj = if j < p { j } else { j - 1 };
                            assert(before[bj].name@ == k);
                            assert(listed(before, k));
                            let e = choose|e: int| 0 <= e < i && (#[trigger] entries@[e]).0@ == k;
                            assert(entries@[e].0@ == k);
                        }
                    }
                    if seen(entries@, i + 1, k) {
                        let j = choose|j: int| 0 <= j < i + 1 && (#[trigger] entries@[j]).0@ == k;
                        if j == i {
                            assert(after[p as int].name@ == k);
                        } else {
                            assert(seen(entries@, i as int, k));
                            assert(listed(before, k));
                            let b = choose|b: int| 0 <= b < before.len() && (#[trigger] before[b]).name@ == k;
                            if b < p {
                                assert(after[b] == before[b]);
                            } else {
                                assert(after[b + 1] == before[b]);
                            }
                        }
                    }
                }
                assert forall|j: int| 0 <= j < after.len() implies summarizes(#[trigger] after[j], self@[after[j].name@]) by {
                    if j < p {
                        assert(after[j] == before[j]);
                    } else if j > p {
                        assert(after[j] == before[j - 1]);
                    } else {
                        assert(self@[entries@[i as int].0@] == entries@[i as int].1@);
                    }
                }
            }
            i = i + 1;
        }
        out
    }
}

} // verus!
