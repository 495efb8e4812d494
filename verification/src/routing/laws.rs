//! Properties of routing that hold for every config, subject and event.

use vstd::prelude::*;
use crate::text::is_blank_spec;
use super::matcher::{
    collect_rules, dedup_extend, dedup_push, destinations_spec, pattern_matches, rule_applies,
    subject_matched,
};
use super::model::{ConfigView, DestinationView, RuleView};
use super::validate::{config_error, first_unknown_event, has_blank_target, rule_error, rules_error, SpecFacts};

verus! {

proof fn lemma_dedup_push(out: Seq<DestinationView>, d: DestinationView)
    ensures
        forall|x: DestinationView| dedup_push(out, d).contains(x) <==> (out.contains(x) || x == d),
        out.no_duplicates() ==> dedup_push(out, d).no_duplicates(),
{
    if !out.contains(d) {
        let r = out.push(d);
        assert forall|x: DestinationView| r.contains(x) <==> (out.contains(x) || x == d) by {
            if r.contains(x) {
                let k = choose|k: int| 0 <= k < r.len() && r[k] == x;
                if k < out.len() {
                    assert(out[k] == x);
                }
            }
            if out.contains(x) {
                let k = choose|k: int| 0 <= k < out.len() && out[k] == x;
                assert(r[k] == x);
            }
            if x == d {
                assert(r[out.len() as int] == d);
            }
        }
    }
}

proof fn lemma_dedup_extend(out: Seq<DestinationView>, ds: Seq<DestinationView>)
    ensures
        forall|x: DestinationView| dedup_extend(out, ds).contains(x) <==> (out.contains(x) || ds.contains(x)),
        out.no_duplicates() ==> dedup_extend(out, ds).no_duplicates(),
    decreases ds.len(),
{
    if ds.len() > 0 {
        let prev = ds.drop_last();
        lemma_dedup_extend(out, prev);
        lemma_dedup_push(dedup_extend(out, prev), ds.last());
        assert forall|x: DestinationView| ds.contains(x) <==> (prev.contains(x) || x == ds.last()) by {
            if ds.contains(x) {
                let k = choose|k: int| 0 <= k < ds.len() && ds[k] == x;
                if k < prev.len() {
                    assert(prev[k] == x);
                }
            }
            if prev.contains(x) {
                let k = choose|k: int| 0 <= k < prev.len() && prev[k] == x;
                assert(ds[k] == x);
            }
            if x == ds.last() {
                assert(ds[ds.len() - 1] == x);
            }
        }
    }
}

/// Whether some rule routing `(subject, event)` lists destination `d`.
pub open spec fn routed_by_rule(rules: Seq<RuleView>, subject: Seq<char>, event: Seq<char>, d: DestinationView) -> bool {
    exists|i: int|
        0 <= i < rules.len() && rule_applies(#[trigger] rules[i], subject, event) && rules[i].destinations.contains(d)
}

proof fn lemma_collect(rules: Seq<RuleView>, subject: Seq<char>, event: Seq<char>)
    ensures
        collect_rules(rules, subject, event).no_duplicates(),
        forall|d: DestinationView|
            collect_rules(rules, subject, event).contains(d) <==> routed_by_rule(rules, subject, event, d),
    decreases rules.len(),
{
    if rules.len() > 0 {
        let prev = rules.drop_last();
        lemma_collect(prev, subject, event);
        let p = collect_rules(prev, subject, event);
        lemma_dedup_extend(p, rules.last().destinations);
        assert forall|d: DestinationView|
            collect_rules(rules, subject, event).contains(d) <==> routed_by_rule(rules, subject, event, d) by {
            if routed_by_rule(rules, subject, event, d) {
                let i = choose|i: int|
                    0 <= i < rules.len() && rule_applies(#[trigger] rules[i], subject, event)
                        && rules[i].destinations.contains(d);
                if i < prev.len() {
                    assert(prev[i] == rules[i]);
                    assert(routed_by_rule(prev, subject, event, d));
                }
            }
            if routed_by_rule(prev, subject, event, d) {
                let i = choose|i: int|
                    0 <= i < prev.len() && rule_applies(#[trigger] prev[i], subject, event)
                        && prev[i].destinations.contains(d);
                assert(rules[i] == prev[i]);
            }
            if rule_applies(rules.last(), subject, event) && rules.last().destinations.contains(d) {
                assert(rules[rules.len() - 1] == rules.last());
            }
        }
    } else {
        assert(Seq::<DestinationView>::empty().no_duplicates());
    }
}

/// `destinations_for` never returns the same destination twice.
pub proof fn law_destinations_are_unique(cfg: ConfigView, subject: Seq<char>, event: Seq<char>)
    ensures
        destinations_spec(cfg, subject, event).no_duplicates(),
{
    lemma_collect(cfg.rules, subject, event);
    assert(Seq::<DestinationView>::empty().no_duplicates());
    lemma_dedup_extend(Seq::empty(), cfg.default_destinations);
}

/// A destination is returned exactly when some matching rule whose event filter
/// allows the event lists it, or, when no rule matches the subject at all, when
/// it is a default destination.
pub proof fn law_destinations_are_the_routed_union(cfg: ConfigView, subject: Seq<char>, event: Seq<char>, d: DestinationView)
    ensures
        destinations_spec(cfg, subject, event).contains(d) <==> (
            if subject_matched(cfg.rules, subject) {
                routed_by_rule(cfg.rules, subject, event, d)
            } else {
                cfg.default_destinations.contains(d)
            }
        ),
{
    lemma_collect(cfg.rules, subject, event);
    lemma_dedup_extend(Seq::empty(), cfg.default_destinations);
}

/// A subject that some rule matches never falls back to the defaults: if no
/// matching rule allows the event, nothing is returned.
pub proof fn law_no_fallback_for_matched_subject(cfg: ConfigView, subject: Seq<char>, event: Seq<char>)
    requires
        subject_matched(cfg.rules, subject),
        forall|i: int| 0 <= i < cfg.rules.len() ==> !rule_applies(#[trigger] cfg.rules[i], subject, event),
    ensures
        destinations_spec(cfg, subject, event).len() == 0,
{
    lemma_collect(cfg.rules, subject, event);
    let r = destinations_spec(cfg, subject, event);
    if r.len() > 0 {
        assert(r.contains(r[0]));
        assert(routed_by_rule(cfg.rules, subject, event, r[0]));
        let i = choose|i: int|
            0 <= i < cfg.rules.len() && rule_applies(#[trigger] cfg.rules[i], subject, event)
                && cfg.rules[i].destinations.contains(r[0]);
        assert(!rule_applies(cfg.rules[i], subject, event));
    }
}

/// `"*"` matches every subject.
pub proof fn law_star_matches_everything(subject: Seq<char>)
    ensures
        pattern_matches(seq!['*'], subject),
{
}

/// `"base/*"` matches `base` itself and every path under `base/`, and nothing
/// else.
pub proof fn law_namespace_pattern(base: Seq<char>, subject: Seq<char>)
    ensures
        pattern_matches(base + seq!['/', '*'], subject) <==> (
            subject == base || (subject.len() > base.len() && subject.take(base.len() + 1int) == base.push('/'))
        ),
{
    let p = base + seq!['/', '*'];
    assert(p.take(p.len() - 2) =~= base);
    if p == seq!['*'] {
        assert(p.len() == 1);
    }
}

/// A pattern that is neither `"*"` nor ends in `"/*"` matches only itself.
pub proof fn law_exact_pattern(pattern: Seq<char>, subject: Seq<char>)
    requires
        pattern != seq!['*'],
        !(pattern.len() >= 2 && pattern.last() == '*' && pattern[pattern.len() - 2] == '/'),
    ensures
        pattern_matches(pattern, subject) <==> pattern == subject,
{
}

proof fn lemma_rules_error_none(rules: Seq<RuleView>, values: Option<Seq<Seq<char>>>, i: int)
    requires
        rules_error(rules, values) is None,
        0 <= i < rules.len(),
    ensures
        rule_error(rules[i], values) is None,
    decreases rules.len(),
{
    if i < rules.len() - 1 {
        assert(rules.drop_last()[i] == rules[i]);
        lemma_rules_error_none(rules.drop_last(), values, i);
    }
}

proof fn lemma_first_unknown_none(events: Seq<Seq<char>>, values: Seq<Seq<char>>, i: int)
    requires
        first_unknown_event(events, values) is None,
        0 <= i < events.len(),
    ensures
        values.contains(events[i]),
    decreases events.len(),
{
    if i < events.len() - 1 {
        assert(events.drop_last()[i] == events[i]);
        lemma_first_unknown_none(events.drop_last(), values, i);
    }
}

/// A config that passes validation has a non-blank pattern on every rule and a
/// non-blank target on every destination.
pub proof fn law_valid_config_is_well_formed(cfg: ConfigView, spec: Option<SpecFacts>)
    requires
        config_error(cfg, spec) is None,
    ensures
        forall|i: int| 0 <= i < cfg.rules.len() ==> !is_blank_spec(#[trigger] cfg.rules[i].pattern),
        forall|i: int, j: int|
            0 <= i < cfg.rules.len() && 0 <= j < cfg.rules[i].destinations.len()
                ==> !is_blank_spec(#[trigger] cfg.rules[i].destinations[j].target),
        forall|j: int| 0 <= j < cfg.default_destinations.len()
            ==> !is_blank_spec(#[trigger] cfg.default_destinations[j].target),
{
    let values = match spec { Some(s) => Some(s.values), None => None };
    assert forall|i: int| 0 <= i < cfg.rules.len() implies !is_blank_spec(#[trigger] cfg.rules[i].pattern) by {
        lemma_rules_error_none(cfg.rules, values, i);
    }
    assert forall|i: int, j: int|
        0 <= i < cfg.rules.len() && 0 <= j < cfg.rules[i].destinations.len()
            implies !is_blank_spec(#[trigger] cfg.rules[i].destinations[j].target) by {
        lemma_rules_error_none(cfg.rules, values, i);
        if is_blank_spec(cfg.rules[i].destinations[j].target) {
            assert(has_blank_target(cfg.rules[i].destinations));
        }
    }
    assert forall|j: int| 0 <= j < cfg.default_destinations.len()
        implies !is_blank_spec(#[trigger] cfg.default_destinations[j].target) by {
        if is_blank_spec(cfg.default_destinations[j].target) {
            assert(has_blank_target(cfg.default_destinations));
        }
    }
}

/// A config that passes validation against an App's spec uses only that App's
/// event vocabulary and only the features it supports.
pub proof fn law_valid_for_spec_respects_vocabulary(cfg: ConfigView, facts: SpecFacts)
    requires
        config_error(cfg, Some(facts)) is None,
    ensures
        forall|i: int, j: int|
            0 <= i < cfg.rules.len() && 0 <= j < cfg.rules[i].events.len()
                ==> facts.values.contains(#[trigger] cfg.rules[i].events[j]),
        !facts.user_map ==> cfg.user_map.len() == 0,
        !facts.alert_labels ==> cfg.alert_labels.len() == 0,
{
    assert forall|i: int, j: int|
        0 <= i < cfg.rules.len() && 0 <= j < cfg.rules[i].events.len()
            implies facts.values.contains(#[trigger] cfg.rules[i].events[j]) by {
        lemma_rules_error_none(cfg.rules, Some(facts.values), i);
        lemma_first_unknown_none(cfg.rules[i].events, facts.values, j);
    }
}

/// No event of `events` is unknown exactly when `values` lists them all.
proof fn lemma_first_unknown_iff(events: Seq<Seq<char>>, values: Seq<Seq<char>>)
    ensures
        first_unknown_event(events, values) is None <==> forall|j: int| 0 <= j < events.len() ==> values.contains(#[trigger] events[j]),
    decreases events.len(),
{
    if events.len() > 0 {
        let prev = events.drop_last();
        lemma_first_unknown_iff(prev, values);
        if first_unknown_event(events, values) is None {
            assert forall|j: int| 0 <= j < events.len() implies values.contains(#[trigger] events[j]) by {
                if j < prev.len() {
                    assert(prev[j] == events[j]);
                }
            }
        } else if forall|j: int| 0 <= j < events.len() ==> values.contains(#[trigger] events[j]) {
            assert forall|j: int| 0 <= j < prev.len() implies values.contains(#[trigger] prev[j]) by {
                assert(prev[j] == events[j]);
            }
            assert(values.contains(events[events.len() - 1]));
        }
    }
}

/// The rules pass with a vocabulary exactly when they pass without one and
/// every event they name is in the vocabulary.
proof fn lemma_rules_error_iff(rules: Seq<RuleView>, values: Seq<Seq<char>>)
    ensures
        rules_error(rules, Some(values)) is None <==> (rules_error(rules, None) is None
            && forall|i: int, j: int| 0 <= i < rules.len() && 0 <= j < rules[i].events.len()
                ==> values.contains(#[trigger] rules[i].events[j])),
    decreases rules.len(),
{
    if rules.len() > 0 {
        let prev = rules.drop_last();
        let last = rules.last();
        lemma_rules_error_iff(prev, values);
        lemma_first_unknown_iff(last.events, values);
        let all = forall|i: int, j: int| 0 <= i < rules.len() && 0 <= j < rules[i].events.len()
            ==> values.contains(#[trigger] rules[i].events[j]);
        let all_prev = forall|i: int, j: int| 0 <= i < prev.len() && 0 <= j < prev[i].events.len()
            ==> values.contains(#[trigger] prev[i].events[j]);
        let all_last = forall|j: int| 0 <= j < last.events.len() ==> values.contains(#[trigger] last.events[j]);
        assert(all <==> (all_prev && all_last)) by {
            if all {
                assert forall|i: int, j: int| 0 <= i < prev.len() && 0 <= j < prev[i].events.len()
                    implies values.contains(#[trigger] prev[i].events[j]) by {
                    assert(prev[i] == rules[i]);
                }
                assert forall|j: int| 0 <= j < last.events.len() implies values.contains(#[trigger] last.events[j]) by {
                    assert(rules[rules.len() - 1] == last);
                }
            }
            if all_prev && all_last {
                assert forall|i: int, j: int| 0 <= i < rules.len() && 0 <= j < rules[i].events.len()
                    implies values.contains(#[trigger] rules[i].events[j]) by {
                    if i < prev.len() {
                        assert(prev[i] == rules[i]);
                        assert(values.contains(prev[i].events[j]));
                    } else {
                        assert(rules[i] == last);
                        assert(values.contains(last.events[j]));
                    }
                }
            }
        }
    }
}

/// Validation against an App's spec succeeds exactly when plain validation
/// does, every rule's events are in the App's vocabulary, and the config
/// uses the user map and alert labels only where the App supports them.
pub proof fn law_valid_for_iff(cfg: ConfigView, facts: SpecFacts)
    ensures
        config_error(cfg, Some(facts)) is None <==> {
            &&& config_error(cfg, None) is None
            &&& forall|i: int, j: int| 0 <= i < cfg.rules.len() && 0 <= j < cfg.rules[i].events.len()
                ==> facts.values.contains(#[trigger] cfg.rules[i].events[j])
            &&& (facts.user_map || cfg.user_map.len() == 0)
            &&& (facts.alert_labels || cfg.alert_labels.len() == 0)
        },
{
    lemma_rules_error_iff(cfg.rules, facts.values);
}

/// Rules whose patterns and destination targets are all non-blank pass.
proof fn lemma_well_formed_rules_pass(rules: Seq<RuleView>)
    requires
        forall|i: int| 0 <= i < rules.len() ==> !is_blank_spec(#[trigger] rules[i].pattern),
        forall|i: int, j: int| 0 <= i < rules.len() && 0 <= j < rules[i].destinations.len()
            ==> !is_blank_spec(#[trigger] rules[i].destinations[j].target),
    ensures
        rules_error(rules, None) is None,
    decreases rules.len(),
{
    if rules.len() > 0 {
        let prev = rules.drop_last();
        assert forall|i: int| 0 <= i < prev.len() implies !is_blank_spec(#[trigger] prev[i].pattern) by {
            assert(prev[i] == rules[i]);
        }
        assert forall|i: int, j: int| 0 <= i < prev.len() && 0 <= j < prev[i].destinations.len()
            implies !is_blank_spec(#[trigger] prev[i].destinations[j].target) by {
            assert(prev[i] == rules[i]);
        }
        lemma_well_formed_rules_pass(prev);
        let last = rules[rules.len() - 1];
        assert(!is_blank_spec(last.pattern));
        assert(!has_blank_target(last.destinations)) by {
            if has_blank_target(last.destinations) {
                let j = choose|j: int| 0 <= j < last.destinations.len() && is_blank_spec(#[trigger] last.destinations[j].target);
                assert(!is_blank_spec(rules[rules.len() - 1].destinations[j].target));
            }
        }
    }
}

/// Plain validation accepts a config exactly when every rule pattern and
/// every destination target (of the rules and the defaults) is non-blank:
/// a well-formed config is never refused, a rule without destinations (one
/// that silences its subjects) included.
pub proof fn law_valid_iff_well_formed(cfg: ConfigView)
    ensures
        config_error(cfg, None) is None <==> {
            &&& forall|i: int| 0 <= i < cfg.rules.len() ==> !is_blank_spec(#[trigger] cfg.rules[i].pattern)
            &&& forall|i: int, j: int| 0 <= i < cfg.rules.len() && 0 <= j < cfg.rules[i].destinations.len()
                ==> !is_blank_spec(#[trigger] cfg.rules[i].destinations[j].target)
            &&& forall|j: int| 0 <= j < cfg.default_destinations.len()
                ==> !is_blank_spec(#[trigger] cfg.default_destinations[j].target)
        },
{
    if config_error(cfg, None) is None {
        law_valid_config_is_well_formed(cfg, None);
    }
    if {
        &&& forall|i: int| 0 <= i < cfg.rules.len() ==> !is_blank_spec(#[trigger] cfg.rules[i].pattern)
        &&& forall|i: int, j: int| 0 <= i < cfg.rules.len() && 0 <= j < cfg.rules[i].destinations.len()
            ==> !is_blank_spec(#[trigger] cfg.rules[i].destinations[j].target)
        &&& forall|j: int| 0 <= j < cfg.default_destinations.len()
            ==> !is_blank_spec(#[trigger] cfg.default_destinations[j].target)
    } {
        lemma_well_formed_rules_pass(cfg.rules);
        assert(!has_blank_target(cfg.default_destinations)) by {
            if has_blank_target(cfg.default_destinations) {
                let j = choose|j: int| 0 <= j < cfg.default_destinations.len() && is_blank_spec(#[trigger] cfg.default_destinations[j].target);
            }
        }
    }
}

} // verus!
