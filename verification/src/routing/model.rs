//! The routing data model and its mathematical views.

use vstd::prelude::*;
use crate::text::lowercase;

verus! {

/// StateStore key (within the App's namespace) holding the routing [`Config`] JSON blob.
pub const KEY: &'static str = "routing";

/// A delivery target kind.
#[derive(Debug, Clone, Copy, PartialEq, Eq, Structural)]
pub enum DestKind {
    /// A Lark group chat, addressed by `chat_id`.
    Chat,
    /// A direct message to a user, addressed by their `open_id` (preferred) or
    /// by email (any target containing `@`).
    Dm,
}

/// One delivery target: a [`DestKind`] plus its address.
#[derive(Debug, Clone)]
pub struct Destination {
    pub kind: DestKind,
    pub target: String,
}

/// The mathematical value of a [`Destination`].
pub struct DestinationView {
    pub kind: DestKind,
    pub target: Seq<char>,
}

impl View for Destination {
    type V = DestinationView;

    open spec fn view(&self) -> DestinationView {
        DestinationView { kind: self.kind, target: self.target@ }
    }
}

impl PartialEq for Destination {
    fn eq(&self, other: &Self) -> (r: bool) {
        self.kind == other.kind && self.target == other.target
    }
}

impl vstd::std_specs::cmp::PartialEqSpecImpl for Destination {
    open spec fn obeys_eq_spec() -> bool {
        true
    }

    open spec fn eq_spec(&self, other: &Self) -> bool {
        self.kind == other.kind && self.target@ == other.target@
    }
}

impl Eq for Destination {}

/// The views of a sequence of destinations.
pub open spec fn dests_view(ds: Seq<Destination>) -> Seq<DestinationView> {
    ds.map_values(|d: Destination| d@)
}

/// The views of a sequence of strings.
pub open spec fn strs_view(ss: Seq<String>) -> Seq<Seq<char>> {
    ss.map_values(|s: String| s@)
}

impl Destination {
    /// A group-chat destination addressed by `chat_id`.
    pub fn chat(target: String) -> (d: Self)
        ensures
            d.kind == DestKind::Chat,
            d.target@ == target@,
    {
        Destination { kind: DestKind::Chat, target }
    }

    /// A DM destination addressed by user `open_id` (or email).
    pub fn dm(target: String) -> (d: Self)
        ensures
            d.kind == DestKind::Dm,
            d.target@ == target@,
    {
        Destination { kind: DestKind::Dm, target }
    }

    /// Rejects a blank target.
    pub fn validate(&self) -> (r: Result<(), String>)
        ensures
            r is Ok <==> !crate::text::is_blank_spec(self.target@),
            r is Err ==> r->Err_0@ == "destination target must not be empty"@,
    {
        if crate::text::is_blank(self.target.as_str()) {
            return Err(String::from_str("destination target must not be empty"));
        }
        Ok(())
    }

    /// A field-for-field copy.
    pub fn copied(&self) -> (d: Self)
        ensures
            d@ == self@,
    {
        Destination { kind: self.kind, target: self.target.clone() }
    }
}

/// A routing rule: deliver to `destinations` when the subject matches `match_`
/// and the event is allowed by `events` (empty = all events).
#[derive(Debug, Clone)]
pub struct Rule {
    /// Subject pattern: `"*"` (all), `"base/*"` (the `base` namespace and
    /// everything under it), or an exact path.
    pub match_: String,
    /// Event names this rule applies to; empty = all events.
    pub events: Vec<String>,
    pub destinations: Vec<Destination>,
}

/// The mathematical value of a [`Rule`].
pub struct RuleView {
    pub pattern: Seq<char>,
    pub events: Seq<Seq<char>>,
    pub destinations: Seq<DestinationView>,
}

impl View for Rule {
    type V = RuleView;

    open spec fn view(&self) -> RuleView {
        RuleView {
            pattern: self.match_@,
            events: strs_view(self.events@),
            destinations: dests_view(self.destinations@),
        }
    }
}

/// Maps an integration username (GitHub, GitLab, …) to a Lark email, for approver/assignee DMs.
#[derive(Debug, Clone)]
pub struct UserMap {
    pub username: String,
    pub lark_email: String,
}

/// The mathematical value of a [`UserMap`] entry.
pub struct UserMapView {
    pub username: Seq<char>,
    pub lark_email: Seq<char>,
}

impl View for UserMap {
    type V = UserMapView;

    open spec fn view(&self) -> UserMapView {
        UserMapView { username: self.username@, lark_email: self.lark_email@ }
    }
}

/// The per-App console-editable notification config.
#[derive(Debug, Clone)]
pub struct Config {
    pub rules: Vec<Rule>,
    /// Destinations used when *no* rule matches the subject (empty = drop
    /// unmatched events).
    pub default_destinations: Vec<Destination>,
    /// Integration-username → Lark-email map for approver/assignee DMs.
    pub user_map: Vec<UserMap>,
    /// Issue label titles that trigger an alert card (compared case-insensitively).
    pub alert_labels: Vec<String>,
}

/// The mathematical value of a [`Config`].
pub struct ConfigView {
    pub rules: Seq<RuleView>,
    pub default_destinations: Seq<DestinationView>,
    pub user_map: Seq<UserMapView>,
    pub alert_labels: Seq<Seq<char>>,
}

impl View for Config {
    type V = ConfigView;

    open spec fn view(&self) -> ConfigView {
        ConfigView {
            rules: self.rules@.map_values(|r: Rule| r@),
            default_destinations: dests_view(self.default_destinations@),
            user_map: self.user_map@.map_values(|m: UserMap| m@),
            alert_labels: strs_view(self.alert_labels@),
        }
    }
}

impl Default for Config {
    fn default() -> (c: Self)
        ensures
            c.rules@.len() == 0,
            c.default_destinations@.len() == 0,
            c.user_map@.len() == 0,
            c.alert_labels@.len() == 0,
    {
        Config {
            rules: Vec::new(),
            default_destinations: Vec::new(),
            user_map: Vec::new(),
            alert_labels: Vec::new(),
        }
    }
}

/// The position of the first entry of `um` for `username`, if any.
pub open spec fn first_user(um: Seq<UserMapView>, username: Seq<char>, i: int) -> bool {
    &&& 0 <= i < um.len()
    &&& um[i].username == username
    &&& forall|k: int| 0 <= k < i ==> um[k].username != username
}

/// Whether `label` is among `labels` once both sides are lowercased.
pub open spec fn is_alert_label_spec(labels: Seq<Seq<char>>, label: Seq<char>) -> bool {
    exists|i: int| 0 <= i < labels.len() && lowercase(#[trigger] labels[i]) == lowercase(label)
}

impl Config {
    /// The Lark email mapped to `username` by the first matching entry, if any.
    pub fn lark_email(&self, username: &str) -> (r: Option<&str>)
        ensures
            r is None <==> (forall|i: int|
                0 <= i < self@.user_map.len() ==> self@.user_map[i].username != username@),
            r is Some ==> exists|i: int|
                first_user(self@.user_map, username@, i) && r->0@ == self@.user_map[i].lark_email,
    {
        let name = username.to_owned();
        let mut i: usize = 0;
        while i < self.user_map.len()
            invariant
                name@ == username@,
                i <= self.user_map@.len(),
                forall|k: int| 0 <= k < i ==> self@.user_map[k].username != username@,
            decreases self.user_map@.len() - i,
        {
            if self.user_map[i].username == name {
                assert(first_user(self@.user_map, username@, i as int));
                return Some(self.user_map[i].lark_email.as_str());
            }
            i = i + 1;
        }
        None
    }

    /// Whether `label` is configured as an alert label (case-insensitive on
    /// both sides, so it doesn't matter how the console stored them).
    pub fn is_alert_label(&self, label: &str) -> (r: bool)
        ensures
            r == is_alert_label_spec(self@.alert_labels, label@),
    {
        let wanted = crate::text::to_lowercase(label);
        let mut i: usize = 0;
        while i < self.alert_labels.len()
            invariant
                wanted@ == lowercase(label@),
                i <= self.alert_labels@.len(),
                forall|k: int| 0 <= k < i ==> lowercase(#[trigger] self@.alert_labels[k]) != lowercase(label@),
            decreases self.alert_labels@.len() - i,
        {
            let l = crate::text::to_lowercase(self.alert_labels[i].as_str());
            if l == wanted {
                assert(lowercase(self@.alert_labels[i as int]) == lowercase(label@));
                return true;
            }
            i = i + 1;
        }
        false
    }
}

/// What reading the stored routing config came to.
#[derive(Debug)]
pub enum StoredConfig {
    /// Nothing is stored under the key.
    Missing,
    /// The store could not be read.
    ReadFailed(String),
    /// Something is stored but it does not parse as a config.
    Unparsable(String),
    /// The stored config.
    Parsed(Config),
}

impl Config {
    /// The config a stored value loads as: the parsed config, else the
    /// default (empty) one, so the integration degrades to "no routing"
    /// rather than failing.
    pub fn load(stored: StoredConfig) -> (c: Config)
        ensures
            match stored {
                StoredConfig::Parsed(p) => c@ == p@,
                _ => c@ == (ConfigView {
                    rules: Seq::empty(),
                    default_destinations: Seq::empty(),
                    user_map: Seq::empty(),
                    alert_labels: Seq::empty(),
                }),
            },
    {
        match stored {
            StoredConfig::Parsed(p) => p,
            _ => {
                let c = Config::default();
                assert(c@.rules =~= Seq::empty());
                assert(c@.default_destinations =~= Seq::empty());
                assert(c@.user_map =~= Seq::empty());
                assert(c@.alert_labels =~= Seq::empty());
                c
            },
        }
    }
}

} // verus!
