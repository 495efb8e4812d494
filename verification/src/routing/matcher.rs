//! Subject matching and destination resolution.

use vstd::prelude::*;
use crate::text::chars_of;
use super::model::{dests_view, strs_view, Config, ConfigView, Destination, DestinationView, RuleView};

verus! {

/// Matches a subject path against a rule pattern: `"*"` = any; `"base/*"` =
/// `base` or anything under `base/`; otherwise an exact match.
pub open spec fn pattern_matches(pattern: Seq<char>, subject: Seq<char>) -> bool {
    if pattern == seq!['*'] {
        true
    } else if pattern.len() >= 2 && pattern.last() == '*' && pattern[pattern.len() - 2] == '/' {
        let base = pattern.take(pattern.len() - 2);
        subject == base || (subject.len() > base.len() && subject.take(base.len() + 1int) == base.push('/'))
    } else {
        pattern == subject
    }
}

/// Whether the first `n` characters of `a` and `b` agree.
fn prefix_eq(a: &Vec<char>, b: &Vec<char>, n: usize) -> (r: bool)
    requires
        n <= a@.len(),
        n <= b@.len(),
    ensures
        r == (a@.take(n as int) == b@.take(n as int)),
{
    let mut i: usize = 0;
    while i < n
        invariant
            n <= a@.len(),
            n <= b@.len(),
            i <= n,
            forall|k: int| 0 <= k < i ==> a@[k] == b@[k],
        decreases n - i,
    {
        if a[i] != b[i] {
            assert(a@.take(n as int)[i as int] != b@.take(n as int)[i as int]);
            return false;
        }
        i = i + 1;
    }
    assert(a@.take(n as int) =~= b@.take(n as int));
    true
}

/// Matches a subject path against a rule pattern (see [`pattern_matches`]).
pub fn matches(pattern: &str, subject: &str) -> (r: bool)
    ensures
        r == pattern_matches(pattern@, subject@),
{
    let p = chars_of(pattern);
    let s = chars_of(subject);
    let plen = p.len();
    if plen == 1 && p[0] == '*' {
        assert(p@ =~= seq!['*']);
        return true;
    }
    assert(p@ != seq!['*']);
    if plen >= 2 && p[plen - 1] == '*' && p[plen - 2] == '/' {
        let b = plen - 2;
        let ghost base = p@.take(b as int);
        if s.len() == b {
            let eq = prefix_eq(&p, &s, b);
            assert(s@.take(b as int) =~= s@);
            return eq;
        }
        if s.len() > b && prefix_eq(&p, &s, b) && s[b] == '/' {
            assert(s@.take(b + 1) =~= base.push('/'));
            return true;
        }
        proof {
            assert(p@.last() == '*');
            assert(p@[p@.len() - 2] == '/');
            assert(s@ != base);
            if s@.len() > b && s@.take(b + 1) == base.push('/') {
                assert(s@.take(b as int) =~= s@.take(b + 1).take(b as int));
                assert(base.push('/').take(b as int) =~= base);
                assert(s@[b as int] == s@.take(b + 1)[b as int]);
                assert(p@.take(b as int) == s@.take(b as int));
            }
        }
        return false;
    }
    if plen != s.len() {
        return false;
    }
    let r = prefix_eq(&p, &s, plen);
    assert(p@.take(plen as int) =~= p@);
    assert(s@.take(plen as int) =~= s@);
    r
}

/// Whether rule `r` routes `(subject, event)`: its pattern matches and its
/// event filter is empty or names `event`.
pub open spec fn rule_applies(r: RuleView, subject: Seq<char>, event: Seq<char>) -> bool {
    pattern_matches(r.pattern, subject) && (r.events.len() == 0 || r.events.contains(event))
}

/// Whether some rule's pattern matches `subject`.
pub open spec fn subject_matched(rules: Seq<RuleView>, subject: Seq<char>) -> bool {
    exists|i: int| 0 <= i < rules.len() && pattern_matches(#[trigger] rules[i].pattern, subject)
}

/// Appends `d` unless an equal destination is already present.
pub open spec fn dedup_push(out: Seq<DestinationView>, d: DestinationView) -> Seq<DestinationView> {
    if out.contains(d) {
        out
    } else {
        out.push(d)
    }
}

/// Appends each of `ds` in order, skipping destinations already present.
pub open spec fn dedup_extend(out: Seq<DestinationView>, ds: Seq<DestinationView>) -> Seq<DestinationView>
    decreases ds.len(),
{
    if ds.len() == 0 {
        out
    } else {
        dedup_push(dedup_extend(out, ds.drop_last()), ds.last())
    }
}

/// The deduplicated union, in first-seen order, of the destinations of every
/// rule of `rules` that applies to `(subject, event)`.
pub open spec fn collect_rules(rules: Seq<RuleView>, subject: Seq<char>, event: Seq<char>) -> Seq<DestinationView>
    decreases rules.len(),
{
    if rules.len() == 0 {
        Seq::empty()
    } else {
        let prev = collect_rules(rules.drop_last(), subject, event);
        if rule_applies(rules.last(), subject, event) {
            dedup_extend(prev, rules.last().destinations)
        } else {
            prev
        }
    }
}

/// With no rule matching the subject, no rule contributes a destination.
pub proof fn lemma_collect_unmatched(rules: Seq<RuleView>, subject: Seq<char>, event: Seq<char>)
    requires
        !subject_matched(rules, subject),
    ensures
        collect_rules(rules, subject, event) == Seq::<DestinationView>::empty(),
    decreases rules.len(),
{
    if rules.len() > 0 {
        let prev = rules.drop_last();
        assert(!pattern_matches(rules[rules.len() - 1].pattern, subject));
        assert(!subject_matched(prev, subject)) by {
            if subject_matched(prev, subject) {
                let k = choose|k: int| 0 <= k < prev.len() && pattern_matches(#[trigger] prev[k].pattern, subject);
                assert(prev[k] == rules[k]);
            }
        }
        lemma_collect_unmatched(prev, subject, event);
    }
}

/// The destinations `Config::destinations_for` returns.
pub open spec fn destinations_spec(cfg: ConfigView, subject: Seq<char>, event: Seq<char>) -> Seq<DestinationView> {
    if subject_matched(cfg.rules, subject) {
        collect_rules(cfg.rules, subject, event)
    } else {
        dedup_extend(Seq::empty(), cfg.default_destinations)
    }
}

/// Appends `d` to `out` unless a destination with the same kind and target is
/// already there.
pub fn push_unique(out: &mut Vec<Destination>, d: &Destination)
    ensures
        dests_view(final(out)@) == dedup_push(dests_view(old(out)@), d@),
{
    let mut i: usize = 0;
    while i < out.len()
        invariant
            i <= out@.len(),
            forall|k: int| 0 <= k < i ==> dests_view(out@)[k] != d@,
        decreases out@.len() - i,
    {
        if out[i].kind == d.kind && out[i].target == d.target {
            assert(dests_view(out@)[i as int] == d@);
            assert(dests_view(out@).contains(d@));
            return;
        }
        i = i + 1;
    }
    assert(!dests_view(out@).contains(d@));
    let ghost before = out@;
    out.push(d.copied());
    assert(dests_view(out@) =~= dests_view(before).push(d@));
}

/// Pushes each destination of `ds` with [`push_unique`].
fn extend_unique(out: &mut Vec<Destination>, ds: &Vec<Destination>)
    ensures
        dests_view(final(out)@) == dedup_extend(dests_view(old(out)@), dests_view(ds@)),
{
    let ghost start = dests_view(out@);
    let mut j: usize = 0;
    while j < ds.len()
        invariant
            j <= ds@.len(),
            dests_view(out@) == dedup_extend(start, dests_view(ds@).take(j as int)),
        decreases ds@.len() - j,
    {
        push_unique(out, &ds[j]);
        proof {
            let t = dests_view(ds@).take(j + 1);
            assert(t.drop_last() =~= dests_view(ds@).take(j as int));
        }
        j = j + 1;
    }
    assert(dests_view(ds@).take(j as int) =~= dests_view(ds@));
}

/// Whether `events` names `event`.
fn names_event(events: &Vec<String>, event: &String) -> (r: bool)
    ensures
        r == strs_view(events@).contains(event@),
{
    let mut i: usize = 0;
    while i < events.len()
        invariant
            i <= events@.len(),
            forall|k: int| 0 <= k < i ==> strs_view(events@)[k] != event@,
        decreases events@.len() - i,
    {
        if events[i] == *event {
            assert(strs_view(events@)[i as int] == event@);
            return true;
        }
        i = i + 1;
    }
    false
}

impl Config {
    /// The deduplicated destinations for `(subject, event)`.
    ///
    /// Unions the destinations of every rule whose pattern matches `subject`
    /// and whose `events` filter allows `event`. If no rule matches the subject
    /// at all, falls back to `default_destinations`; a subject that matches a
    /// rule but not this event yields nothing.
    pub fn destinations_for(&self, subject: &str, event: &str) -> (out: Vec<Destination>)
        ensures
            dests_view(out@) == destinations_spec(self@, subject@, event@),
    {
        let ev = event.to_owned();
        let mut out: Vec<Destination> = Vec::new();
        let mut subject_hit = false;
        let mut i: usize = 0;
        while i < self.rules.len()
            invariant
                ev@ == event@,
                i <= self.rules@.len(),
                dests_view(out@) == collect_rules(self@.rules.take(i as int), subject@, event@),
                subject_hit == subject_matched(self@.rules.take(i as int), subject@),
            decreases self.rules@.len() - i,
        {
            let rule = &self.rules[i];
            let ghost rules_next = self@.rules.take(i + 1);
            proof {
                assert(rules_next.drop_last() =~= self@.rules.take(i as int));
                assert(rules_next.last() == rule@);
            }
            if matches(rule.match_.as_str(), subject) {
                subject_hit = true;
                assert(pattern_matches(rules_next[i as int].pattern, subject@));
                if rule.events.len() == 0 || names_event(&rule.events, &ev) {
                    extend_unique(&mut out, &rule.destinations);
                }
            } else {
                proof {
                    if subject_matched(rules_next, subject@) {
                        let k = choose|k: int| 0 <= k < rules_next.len() && pattern_matches(#[trigger] rules_next[k].pattern, subject@);
                        assert(k < i);
                        assert(rules_next[k] == self@.rules.take(i as int)[k]);
                    }
                }
            }
            proof {
                if subject_matched(self@.rules.take(i as int), subject@) {
                    let k = choose|k: int| 0 <= k < i && pattern_matches(#[trigger] self@.rules.take(i as int)[k].pattern, subject@);
                    assert(rules_next[k] == self@.rules.take(i as int)[k]);
                }
            }
            i = i + 1;
        }
        assert(self@.rules.take(i as int) =~= self@.rules);
        if !subject_hit {
            proof {
                lemma_collect_unmatched(self@.rules, subject@, event@);
            }
            assert(dests_view(out@) =~= Seq::<DestinationView>::empty());
            extend_unique(&mut out, &self.default_destinations);
        }
        out
    }
}

} // verus!
