//! Structural and semantic validation of a routing [`Config`].

use vstd::prelude::*;
use crate::text::{is_blank, is_blank_spec};
use super::model::{strs_view, Config, ConfigView, DestinationView, RuleView};
use super::spec::{event_values_spec, RoutingSpec};

verus! {

/// The error for an empty rule pattern.
pub open spec fn empty_match_msg() -> Seq<char> {
    "rule match must not be empty"@
}

/// The error for an empty destination target.
pub open spec fn empty_target_msg() -> Seq<char> {
    "destination target must not be empty"@
}

/// The error naming an event outside the App's vocabulary.
pub open spec fn unknown_event_msg(event: Seq<char>) -> Seq<char> {
    "unknown routing event '"@ + event + "'"@
}

/// The error for a non-empty user map on an App without that feature.
pub open spec fn user_map_unsupported_msg() -> Seq<char> {
    "user_map is not supported by this app"@
}

/// The error for non-empty alert labels on an App without that feature.
pub open spec fn alert_labels_unsupported_msg() -> Seq<char> {
    "alert_labels is not supported by this app"@
}

/// The first event of `events` that is not in `values`.
pub open spec fn first_unknown_event(events: Seq<Seq<char>>, values: Seq<Seq<char>>) -> Option<Seq<char>>
    decreases events.len(),
{
    if events.len() == 0 {
        None
    } else {
        match first_unknown_event(events.drop_last(), values) {
            Some(e) => Some(e),
            None => if values.contains(events.last()) { None } else { Some(events.last()) },
        }
    }
}

/// Whether some destination of `ds` has a blank target.
pub open spec fn has_blank_target(ds: Seq<DestinationView>) -> bool {
    exists|i: int| 0 <= i < ds.len() && is_blank_spec(#[trigger] ds[i].target)
}

/// The first problem with one rule, checked in order: blank pattern, an
/// unknown event (only when a vocabulary is given), a blank destination.
pub open spec fn rule_error(r: RuleView, values: Option<Seq<Seq<char>>>) -> Option<Seq<char>> {
    if is_blank_spec(r.pattern) {
        Some(empty_match_msg())
    } else if values is Some && first_unknown_event(r.events, values->0) is Some {
        Some(unknown_event_msg(first_unknown_event(r.events, values->0)->0))
    } else if has_blank_target(r.destinations) {
        Some(empty_target_msg())
    } else {
        None
    }
}

/// The first problem among `rules`, in rule order.
pub open spec fn rules_error(rules: Seq<RuleView>, values: Option<Seq<Seq<char>>>) -> Option<Seq<char>>
    decreases rules.len(),
{
    if rules.len() == 0 {
        None
    } else {
        match rules_error(rules.drop_last(), values) {
            Some(e) => Some(e),
            None => rule_error(rules.last(), values),
        }
    }
}

/// What validation reads from an App's [`RoutingSpec`].
pub struct SpecFacts {
    /// The event vocabulary's wire values.
    pub values: Seq<Seq<char>>,
    /// Whether the App supports a user map.
    pub user_map: bool,
    /// Whether the App supports alert labels.
    pub alert_labels: bool,
}

/// The error `validate_with_spec` reports for `cfg`, or `None` when it is valid.
pub open spec fn config_error(cfg: ConfigView, spec: Option<SpecFacts>) -> Option<Seq<char>> {
    let values = match spec {
        Some(s) => Some(s.values),
        None => None,
    };
    if rules_error(cfg.rules, values) is Some {
        rules_error(cfg.rules, values)
    } else if has_blank_target(cfg.default_destinations) {
        Some(empty_target_msg())
    } else if spec is Some && !spec->0.user_map && cfg.user_map.len() > 0 {
        Some(user_map_unsupported_msg())
    } else if spec is Some && !spec->0.alert_labels && cfg.alert_labels.len() > 0 {
        Some(alert_labels_unsupported_msg())
    } else {
        None
    }
}

/// The spec facts `validate_for` checks against.
pub open spec fn spec_facts(spec: RoutingSpec) -> SpecFacts {
    SpecFacts {
        values: event_values_spec(spec.events@),
        user_map: spec.features.user_map,
        alert_labels: spec.features.alert_labels,
    }
}

/// The `Result` that corresponds to a validation outcome.
pub open spec fn as_result(e: Option<Seq<char>>, r: Result<(), String>) -> bool {
    match e {
        None => r is Ok,
        Some(m) => r is Err && r->Err_0@ == m,
    }
}

/// Whether `values` holds `event`.
fn contains_value(values: &Vec<&'static str>, event: &String) -> (r: bool)
    ensures
        r == values@.map_values(|s: &'static str| s@).contains(event@),
{
    let ghost vs = values@.map_values(|s: &'static str| s@);
    let mut i: usize = 0;
    while i < values.len()
        invariant
            vs == values@.map_values(|s: &'static str| s@),
            i <= values@.len(),
            forall|k: int| 0 <= k < i ==> vs[k] != event@,
        decreases values@.len() - i,
    {
        if crate::text::str_eq(values[i], event.as_str()) {
            assert(vs[i as int] == event@);
            return true;
        }
        i = i + 1;
    }
    false
}

/// The first blank destination target of `ds`, checked in order.
fn check_destinations(ds: &Vec<super::model::Destination>) -> (r: Result<(), String>)
    ensures
        as_result(if has_blank_target(super::model::dests_view(ds@)) { Some(empty_target_msg()) } else { None }, r),
{
    let ghost dv = super::model::dests_view(ds@);
    let mut i: usize = 0;
    while i < ds.len()
        invariant
            dv == super::model::dests_view(ds@),
            i <= ds@.len(),
            forall|k: int| 0 <= k < i ==> !is_blank_spec(#[trigger] dv[k].target),
        decreases ds@.len() - i,
    {
        if let Err(e) = ds[i].validate() {
            assert(is_blank_spec(dv[i as int].target));
            return Err(e);
        }
        i = i + 1;
    }
    Ok(())
}

impl Config {
    /// Reject structurally invalid configs (empty match/target) before saving.
    pub fn validate(&self) -> (r: Result<(), String>)
        ensures
            as_result(config_error(self@, None), r),
    {
        self.validate_with_spec(None)
    }

    /// Reject invalid configs using an App's routing spec for semantic checks.
    pub fn validate_for(&self, spec: &RoutingSpec) -> (r: Result<(), String>)
        ensures
            as_result(config_error(self@, Some(spec_facts(*spec))), r),
    {
        self.validate_with_spec(Some(spec))
    }

    /// The shared validator: rules in order, then the default destinations,
    /// then the App's feature gates.
    #[verifier::loop_isolation(false)]
    pub fn validate_with_spec(&self, spec: Option<&RoutingSpec>) -> (r: Result<(), String>)
        ensures
            as_result(config_error(self@, match spec { Some(s) => Some(spec_facts(*s)), None => None }), r),
    {
        let ghost facts = match spec { Some(s) => Some(spec_facts(*s)), None => None };
        let ghost values: Option<Seq<Seq<char>>> = match spec { Some(s) => Some(event_values_spec(s.events@)), None => None };
        let event_values: Option<Vec<&'static str>> = match spec {
            Some(s) => Some(s.event_values()),
            None => None,
        };
        let mut i: usize = 0;
        while i < self.rules.len()
            invariant
                i <= self.rules@.len(),
                values == match facts { Some(f) => Some(f.values), None => None::<Seq<Seq<char>>> },
                facts == match spec { Some(s) => Some(spec_facts(*s)), None => None },
                match event_values {
                    Some(vs) => values is Some && vs@.map_values(|s: &'static str| s@) == values->0,
                    None => values is None,
                },
                rules_error(self@.rules.take(i as int), values) is None,
            decreases self.rules@.len() - i,
        {
            let rule = &self.rules[i];
            proof {
                let next = self@.rules.take(i + 1);
                assert(next.drop_last() =~= self@.rules.take(i as int));
                assert(next.last() == rule@);
            }
            if is_blank(rule.match_.as_str()) {
                assert(rules_error(self@.rules.take(i + 1), values) == Some(empty_match_msg()));
                proof { self.lemma_rules_error_prefix((i + 1) as int, values); }
                return Err(String::from_str("rule match must not be empty"));
            }
            match &event_values {
                Some(vs) => {
                    let mut j: usize = 0;
                    while j < rule.events.len()
                        invariant
                            j <= rule.events@.len(),
                            values is Some,
                            vs@.map_values(|s: &'static str| s@) == values->0,
                            first_unknown_event(strs_view(rule.events@).take(j as int), values->0) is None,
                        decreases rule.events@.len() - j,
                    {
                        let event = &rule.events[j];
                        proof {
                            let t = strs_view(rule.events@).take(j + 1);
                            assert(t.drop_last() =~= strs_view(rule.events@).take(j as int));
                        }
                        if !contains_value(vs, event) {
                            let mut msg = String::from_str("unknown routing event '");
                            msg.append(event.as_str());
                            msg.append("'");
                            proof {
                                let t = strs_view(rule.events@).take(j + 1);
                                assert(first_unknown_event(t, values->0) == Some(event@));
                                self.lemma_first_unknown_prefix(rule@.events, (j + 1) as int, values->0);
                                assert(rule_error(rule@, values) == Some(unknown_event_msg(event@)));
                                assert(rules_error(self@.rules.take(i + 1), values) == Some(unknown_event_msg(event@)));
                                self.lemma_rules_error_prefix((i + 1) as int, values);
                            }
                            return Err(msg);
                        }
                        j = j + 1;
                    }
                    assert(strs_view(rule.events@).take(j as int) =~= strs_view(rule.events@));
                }
                None => {}
            }
            match check_destinations(&rule.destinations) {
                Ok(()) => {}
                Err(e) => {
                    proof {
                        assert(rules_error(self@.rules.take(i + 1), values) == Some(empty_target_msg()));
                        self.lemma_rules_error_prefix((i + 1) as int, values);
                    }
                    return Err(e);
                }
            }
            assert(rules_error(self@.rules.take(i + 1), values) is None);
            i = i + 1;
        }
        assert(self@.rules.take(i as int) =~= self@.rules);
        check_destinations(&self.default_destinations)?;
        match spec {
            Some(s) => {
                if !s.features.user_map && self.user_map.len() > 0 {
                    return Err(String::from_str("user_map is not supported by this app"));
                }
                if !s.features.alert_labels && self.alert_labels.len() > 0 {
                    return Err(String::from_str("alert_labels is not supported by this app"));
                }
            }
            None => {}
        }
        Ok(())
    }

    /// Once a prefix of the events holds an unknown one, every longer prefix
    /// reports that same event.
    proof fn lemma_first_unknown_prefix(&self, events: Seq<Seq<char>>, n: int, values: Seq<Seq<char>>)
        requires
            0 <= n <= events.len(),
            first_unknown_event(events.take(n), values) is Some,
        ensures
            first_unknown_event(events, values) == first_unknown_event(events.take(n), values),
        decreases events.len() - n,
    {
        if n < events.len() {
            assert(events.take(n + 1).drop_last() =~= events.take(n));
            self.lemma_first_unknown_prefix(events, n + 1, values);
        } else {
            assert(events.take(n) =~= events);
        }
    }

    /// Once a prefix of the rules holds an error, the whole rule list reports it.
    proof fn lemma_rules_error_prefix(&self, n: int, values: Option<Seq<Seq<char>>>)
        requires
            0 <= n <= self@.rules.len(),
            rules_error(self@.rules.take(n), values) is Some,
        ensures
            rules_error(self@.rules, values) == rules_error(self@.rules.take(n), values),
        decreases self@.rules.len() - n,
    {
        if n < self@.rules.len() {
            assert(self@.rules.take(n + 1).drop_last() =~= self@.rules.take(n));
            self.lemma_rules_error_prefix(n + 1, values);
        } else {
            assert(self@.rules.take(n) =~= self@.rules);
        }
    }
}

} // verus!
