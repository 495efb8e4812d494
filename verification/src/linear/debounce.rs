//! Coalesces rapid-fire events on the same issue into one notification.
//!
//! Each issue key holds at most one pending update. A newer event for the same
//! key replaces the pending one: its change descriptions are merged (exact
//! duplicates dropped), the latest state wins, and a create followed by
//! updates stays a create. Timers live with the caller: [`DebounceMap::upsert`]
//! reports whether an earlier pending update was replaced, i.e. whether the
//! earlier timer must be cancelled.

use vstd::prelude::*;
use crate::kit::config::opt_view;
use crate::routing::model::strs_view;
use crate::keyed::{keyed_map, keys_unique, lemma_keyed_map, lemma_push_new, lemma_remove_at, position};
use crate::text::str_eq;
use super::event::{changes_of, promoted, with_changes, Event, EventView};

verus! {

/// `acc` followed by each change of `new` that is not already present, in
/// order.
pub open spec fn merge_changes(acc: Seq<Seq<char>>, new: Seq<Seq<char>>) -> Seq<Seq<char>>
    decreases new.len(),
{
    if new.len() == 0 {
        acc
    } else {
        let prev = merge_changes(acc, new.drop_last());
        if prev.contains(new.last()) {
            prev
        } else {
            prev.push(new.last())
        }
    }
}

/// A notification waiting for its debounce window to expire.
#[derive(Debug)]
pub struct PendingUpdate {
    /// The latest event state (replaced on every new update).
    pub event: Event,
    /// Email to DM if any update in the window changed the assignee.
    pub dm_email: Option<String>,
    /// Counts the updates merged into this one; a timer scheduled for an
    /// earlier generation has been superseded.
    pub generation: u64,
}

/// The mathematical value of a [`PendingUpdate`].
pub struct PendingView {
    pub event: EventView,
    pub dm_email: Option<Seq<char>>,
    pub generation: u64,
}

impl View for PendingUpdate {
    type V = PendingView;

    open spec fn view(&self) -> PendingView {
        PendingView { event: self.event@, dm_email: opt_view(self.dm_email), generation: self.generation }
    }
}

/// The generation after `g` (wrapping after `u64::MAX`).
pub open spec fn next_generation(g: u64) -> u64 {
    if g == u64::MAX { 0 } else { (g + 1) as u64 }
}

/// What a pending update becomes when `event` (with `dm_email`) arrives for
/// the same key.
pub open spec fn merged(existing: PendingView, event: EventView, dm_email: Option<Seq<char>>) -> PendingView {
    let base = if existing.event is Created { promoted(event) } else { event };
    PendingView {
        event: with_changes(base, merge_changes(changes_of(existing.event), changes_of(event))),
        dm_email: if dm_email is Some { dm_email } else { existing.dm_email },
        generation: next_generation(existing.generation),
    }
}

/// The pending updates after `event` (with `dm_email`) arrives for `key`:
/// merged into the update pending there, else pending anew at generation 0.
pub open spec fn upserted(m: Map<Seq<char>, PendingView>, key: Seq<char>, event: EventView, dm_email: Option<Seq<char>>) -> Map<Seq<char>, PendingView> {
    m.insert(
        key,
        if m.contains_key(key) {
            merged(m[key], event, dm_email)
        } else {
            PendingView { event, dm_email, generation: 0 }
        },
    )
}

/// Whether `v` holds a string equal to `s`.
fn contains_string(v: &Vec<String>, s: &String) -> (r: bool)
    ensures
        r == strs_view(v@).contains(s@),
{
    let ghost vs = strs_view(v@);
    let mut i: usize = 0;
    while i < v.len()
        invariant
            vs == strs_view(v@),
            i <= v@.len(),
            forall|k: int| 0 <= k < i ==> vs[k] != s@,
        decreases v@.len() - i,
    {
        if str_eq(v[i].as_str(), s.as_str()) {
            assert(vs[i as int] == s@);
            return true;
        }
        i = i + 1;
    }
    false
}

/// `existing` followed by each change of `new` not already present.
pub fn merge_change_lists(existing: &[String], new: &[String]) -> (out: Vec<String>)
    ensures
        strs_view(out@) == merge_changes(strs_view(existing@), strs_view(new@)),
{
    let mut all: Vec<String> = Vec::new();
    let mut k: usize = 0;
    while k < existing.len()
        invariant
            k <= existing@.len(),
            all@.len() == k,
            strs_view(all@) =~= strs_view(existing@).take(k as int),
        decreases existing@.len() - k,
    {
        let ghost prev = all@;
        let c = existing[k].clone();
        all.push(c);
        assert forall|j: int| 0 <= j < k + 1 implies #[trigger] strs_view(all@)[j] == strs_view(existing@)[j] by {
            if j < k {
                assert(all@[j] == prev[j]);
                assert(strs_view(prev)[j] == strs_view(existing@).take(k as int)[j]);
            }
        }
        k = k + 1;
    }
    assert(strs_view(existing@).take(existing@.len() as int) =~= strs_view(existing@));
    let ghost ex = strs_view(existing@);
    let ghost nv = strs_view(new@);
    assert(merge_changes(ex, nv.take(0)) == ex) by {
        assert(nv.take(0).len() == 0);
    }
    let mut i: usize = 0;
    while i < new.len()
        invariant
            i <= new@.len(),
            ex == strs_view(existing@),
            nv == strs_view(new@),
            strs_view(all@) == merge_changes(ex, nv.take(i as int)),
        decreases new@.len() - i,
    {
        assert(nv.take(i as int + 1).drop_last() =~= nv.take(i as int));
        assert(nv.take(i as int + 1).last() == new@[i as int]@);
        let c = &new[i];
        if !contains_string(&all, c) {
            all.push(c.clone());
            assert(strs_view(all@) =~= merge_changes(ex, nv.take(i as int)).push(c@));
        }
        i = i + 1;
    }
    assert(nv.take(new@.len() as int) =~= nv);
    all
}

/// Merges `event` into the pending update `existing` for the same key.
pub fn merge_pending(existing: PendingUpdate, event: Event, dm_email: Option<String>) -> (p: PendingUpdate)
    ensures
        p@ == merged(existing@, event@, opt_view(dm_email)),
{
    let all = merge_change_lists(existing.event.changes(), event.changes());
    let mut m = if existing.event.is_issue_created() { event.promote_to_created() } else { event };
    assert(changes_of(promoted(event@)) == changes_of(event@));
    m.set_changes(all);
    let dm = match dm_email {
        Some(d) => Some(d),
        None => existing.dm_email,
    };
    let generation = if existing.generation == u64::MAX { 0 } else { existing.generation + 1 };
    PendingUpdate { event: m, dm_email: dm, generation }
}

/// Issue keys mapped to their pending debounced updates.
#[derive(Debug)]
pub struct DebounceMap {
    entries: Vec<(String, PendingUpdate)>,
}

impl View for DebounceMap {
    type V = Map<Seq<char>, PendingView>;

    closed spec fn view(&self) -> Map<Seq<char>, PendingView> {
        keyed_map(self.entries@)
    }
}

impl Default for DebounceMap {
    fn default() -> (m: Self)
        ensures
            m@ == Map::<Seq<char>, PendingView>::empty(),
    {
        DebounceMap::new()
    }
}

impl DebounceMap {
    #[verifier::type_invariant]
    closed spec fn unique_keys(&self) -> bool {
        keys_unique(self.entries@)
    }

    /// A map with nothing pending.
    pub fn new() -> (m: Self)
        ensures
            m@ == Map::<Seq<char>, PendingView>::empty(),
    {
        DebounceMap { entries: Vec::new() }
    }

    /// Whether an update is pending for `key`.
    pub fn contains(&self, key: &str) -> (r: bool)
        ensures
            r == self@.contains_key(key@),
    {
        proof {
            use_type_invariant(self);
            lemma_keyed_map(self.entries@);
        }
        match position(&self.entries, key) {
            Some(_) => true,
            None => {
                assert(!self@.contains_key(key@)) by {
                    if self@.contains_key(key@) {
                        let j = choose|j: int| 0 <= j < self.entries@.len() && (#[trigger] self.entries@[j]).0@ == key@;
                    }
                }
                false
            }
        }
    }

    /// Inserts `event` for `key`, or merges it into the update already
    /// pending there. Returns whether an update was pending (its timer is
    /// then superseded) and the generation a timer for this update must
    /// present to [`DebounceMap::take_current`].
    pub fn upsert(&mut self, key: String, event: Event, dm_email: Option<String>) -> (r: (bool, u64))
        ensures
            r.0 == old(self)@.contains_key(key@),
            final(self)@ == upserted(old(self)@, key@, event@, opt_view(dm_email)),
            r.1 == final(self)@[key@].generation,
    {
        proof {
            use_type_invariant(&*self);
            lemma_keyed_map(self.entries@);
        }
        let ghost before = self.entries@;
        let pos = position(&self.entries, key.as_str());
        let mut entries = Vec::new();
        std::mem::swap(&mut entries, &mut self.entries);
        match pos {
            Some(i) => {
                let (_, existing) = entries.remove(i);
                proof {
                    lemma_remove_at(before, i as int);
                    assert(before[i as int].1@ == keyed_map(before)[key@]);
                }
                let merged_update = merge_pending(existing, event, dm_email);
                let ghost mid = entries@;
                proof {
                    lemma_push_new(mid, (key, merged_update));
                    assert(keyed_map(before).remove(key@).insert(key@, merged_update@) =~= keyed_map(before).insert(key@, merged_update@));
                }
                let generation = merged_update.generation;
                entries.push((key, merged_update));
                self.entries = entries;
                (true, generation)
            }
            None => {
                assert(!keyed_map(before).contains_key(key@)) by {
                    if keyed_map(before).contains_key(key@) {
                        let j = choose|j: int| 0 <= j < before.len() && (#[trigger] before[j]).0@ == key@;
                    }
                }
                let fresh = PendingUpdate { event, dm_email, generation: 0 };
                proof {
                    lemma_push_new(before, (key, fresh));
                }
                entries.push((key, fresh));
                self.entries = entries;
                (false, 0)
            }
        }
    }

    /// Removes and returns the update pending for `key`, if any.
    pub fn take(&mut self, key: &str) -> (r: Option<PendingUpdate>)
        ensures
            r is Some <==> old(self)@.contains_key(key@),
            r is Some ==> r->0@ == old(self)@[key@],
            final(self)@ == old(self)@.remove(key@),
    {
        proof {
            use_type_invariant(&*self);
            lemma_keyed_map(self.entries@);
        }
        let ghost before = self.entries@;
        match position(&self.entries, key) {
            Some(i) => {
                let mut entries = Vec::new();
                std::mem::swap(&mut entries, &mut self.entries);
                let (_, p) = entries.remove(i);
                proof {
                    lemma_remove_at(before, i as int);
                }
                self.entries = entries;
                Some(p)
            }
            None => {
                assert(!keyed_map(before).contains_key(key@)) by {
                    if keyed_map(before).contains_key(key@) {
                        let j = choose|j: int| 0 <= j < before.len() && (#[trigger] before[j]).0@ == key@;
                    }
                }
                assert(keyed_map(before) =~= keyed_map(before).remove(key@));
                None
            }
        }
    }

    /// Removes and returns the update pending for `key` if it is still the
    /// one of `generation`; a superseded timer gets `None` and changes
    /// nothing.
    pub fn take_current(&mut self, key: &str, generation: u64) -> (r: Option<PendingUpdate>)
        ensures
            r is Some <==> (old(self)@.contains_key(key@) && old(self)@[key@].generation == generation),
            r is Some ==> r->0@ == old(self)@[key@] && final(self)@ == old(self)@.remove(key@),
            r is None ==> final(self)@ == old(self)@,
    {
        proof {
            use_type_invariant(&*self);
            lemma_keyed_map(self.entries@);
        }
        let ghost before = self.entries@;
        match position(&self.entries, key) {
            Some(i) => {
                assert(keyed_map(before)[key@] == before[i as int].1@);
                if self.entries[i].1.generation != generation {
                    return None;
                }
                self.take(key)
            },
            None => {
                assert(!keyed_map(before).contains_key(key@)) by {
                    if keyed_map(before).contains_key(key@) {
                        let j = choose|j: int| 0 <= j < before.len() && (#[trigger] before[j]).0@ == key@;
                    }
                }
                None
            },
        }
    }
}

} // verus!
