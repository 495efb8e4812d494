//! The static routing capabilities one App exposes to the console.

use vstd::prelude::*;

verus! {

/// The static routing capabilities one App exposes to the console.
#[derive(Debug, Clone, Copy)]
pub struct RoutingSpec {
    /// StateStore namespace for this App's routing config. Usually the App name.
    pub namespace: &'static str,
    /// Human-facing description of what a rule's subject matches.
    pub subject: SubjectSpec,
    /// Event vocabulary accepted in rule filters.
    pub events: &'static [RoutingEvent],
    /// Optional routing-adjacent features supported by this App.
    pub features: RoutingFeatures,
}

/// Human-facing metadata for the routing subject.
#[derive(Debug, Clone, Copy)]
pub struct SubjectSpec {
    /// Short label, e.g. "Repository" or "Team key".
    pub label: &'static str,
    /// Example value for empty rule fields.
    pub placeholder: &'static str,
    /// Help text explaining how the App derives the subject.
    pub help: &'static str,
}

/// One App-specific event value users can route.
#[derive(Debug, Clone, Copy)]
pub struct RoutingEvent {
    /// Stable wire value used in `Rule::events`.
    pub value: &'static str,
    /// Human-facing label.
    pub label: &'static str,
    /// Short description for UI help.
    pub description: &'static str,
}

/// Optional routing-adjacent features the shared console editor can render.
#[derive(Debug, Clone, Copy)]
pub struct RoutingFeatures {
    /// Integration user → Lark email map for approver/assignee DMs.
    pub user_map: bool,
    /// Label list used by source integrations to decide alert-worthy issues.
    pub alert_labels: bool,
    /// Whether the chat picker should be offered.
    pub chat_picker: bool,
    /// Whether the DM user picker should be offered.
    pub user_picker: bool,
}

impl RoutingFeatures {
    /// The common bot-backed feature set for GitHub/GitLab-style integrations.
    #[allow(non_snake_case)]
    pub fn SOURCE_WITH_ALERTS() -> (f: Self)
        ensures
            f.user_map && f.alert_labels && f.chat_picker && f.user_picker,
    {
        RoutingFeatures { user_map: true, alert_labels: true, chat_picker: true, user_picker: true }
    }

    /// Bot-backed routing only; app-specific policy fields are hidden/rejected.
    #[allow(non_snake_case)]
    pub fn ROUTING_ONLY() -> (f: Self)
        ensures
            !f.user_map && !f.alert_labels && f.chat_picker && f.user_picker,
    {
        RoutingFeatures { user_map: false, alert_labels: false, chat_picker: true, user_picker: true }
    }
}

/// The event values of `events`, in order.
pub open spec fn event_values_spec(events: Seq<RoutingEvent>) -> Seq<Seq<char>> {
    events.map_values(|e: RoutingEvent| e.value@)
}

impl RoutingSpec {
    /// The event vocabulary's wire values, in declaration order.
    pub fn event_values(&self) -> (out: Vec<&'static str>)
        ensures
            out@.map_values(|s: &'static str| s@) == event_values_spec(self.events@),
    {
        let mut out: Vec<&'static str> = Vec::new();
        let mut i: usize = 0;
        while i < self.events.len()
            invariant
                i <= self.events@.len(),
                out@.len() == i,
                forall|k: int| 0 <= k < i ==> (#[trigger] out@[k])@ == self.events@[k].value@,
            decreases self.events@.len() - i,
        {
            out.push(self.events[i].value);
            i = i + 1;
        }
        assert(out@.map_values(|s: &'static str| s@) =~= event_values_spec(self.events@));
        out
    }
}

} // verus!
