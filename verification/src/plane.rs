//! The control plane's status board: each subsystem's latest reported status,
//! which the console reads as a snapshot.

use vstd::prelude::*;
use crate::control::{State, Status, StatusView};
use crate::keyed::{keyed_map, keys_unique, lemma_absent, lemma_keyed_map, lemma_push_new, lemma_remove_at, position};

verus! {

/// Subsystem names mapped to their latest status.
#[derive(Debug)]
pub struct StatusBoard {
    entries: Vec<(String, Status)>,
}

impl View for StatusBoard {
    type V = Map<Seq<char>, StatusView>;

    closed spec fn view(&self) -> Map<Seq<char>, StatusView> {
        keyed_map(self.entries@)
    }
}

impl Default for StatusBoard {
    fn default() -> (b: Self)
        ensures
            b@ == Map::<Seq<char>, StatusView>::empty(),
    {
        StatusBoard::new()
    }
}

impl StatusBoard {
    #[verifier::type_invariant]
    closed spec fn unique_names(&self) -> bool {
        keys_unique(self.entries@)
    }

    /// A board on which no subsystem has reported.
    pub fn new() -> (b: Self)
        ensures
            b@ == Map::<Seq<char>, StatusView>::empty(),
    {
        StatusBoard { entries: Vec::new() }
    }

    /// Records `status` as the latest status of `subsystem`, replacing any
    /// earlier one; the other subsystems keep theirs.
    pub fn set_status(&mut self, subsystem: &str, status: Status)
        ensures
            final(self)@ == old(self)@.insert(subsystem@, status@),
    {
        proof {
            use_type_invariant(&*self);
            lemma_keyed_map(self.entries@);
        }
        let ghost before = self.entries@;
        let pos = position(&self.entries, subsystem);
        let mut entries = Vec::new();
        std::mem::swap(&mut entries, &mut self.entries);
        match pos {
            Some(i) => {
                let _ = entries.remove(i);
                proof {
                    lemma_remove_at(before, i as int);
                }
                let ghost mid = entries@;
                let name = subsystem.to_string();
                proof {
                    lemma_push_new(mid, (name, status));
                    assert(keyed_map(before).remove(subsystem@).insert(subsystem@, status@) =~= keyed_map(before).insert(subsystem@, status@));
                }
                entries.push((name, status));
            },
            None => {
                proof {
                    lemma_absent(before, subsystem@);
                }
                let name = subsystem.to_string();
                proof {
                    lemma_push_new(before, (name, status));
                }
                entries.push((name, status));
            },
        }
        self.entries = entries;
    }

    /// Reports `subsystem` as running.
    pub fn running(&mut self, subsystem: &str)
        ensures
            final(self)@.dom() == old(self)@.dom().insert(subsystem@),
            final(self)@[subsystem@].state == State::Running,
            final(self)@[subsystem@].message is None,
            forall|k: Seq<char>| k != subsystem@ ==> #[trigger] final(self)@.get(k) == old(self)@.get(k),
    {
        self.set_status(subsystem, Status::new(State::Running, None));
    }

    /// Reports `subsystem` as starting.
    pub fn starting(&mut self, subsystem: &str)
        ensures
            final(self)@.dom() == old(self)@.dom().insert(subsystem@),
            final(self)@[subsystem@].state == State::Starting,
            final(self)@[subsystem@].message is None,
            forall|k: Seq<char>| k != subsystem@ ==> #[trigger] final(self)@.get(k) == old(self)@.get(k),
    {
        self.set_status(subsystem, Status::new(State::Starting, None));
    }

    /// Reports `subsystem` as stopped.
    pub fn stopped(&mut self, subsystem: &str)
        ensures
            final(self)@.dom() == old(self)@.dom().insert(subsystem@),
            final(self)@[subsystem@].state == State::Stopped,
            final(self)@[subsystem@].message is None,
            forall|k: Seq<char>| k != subsystem@ ==> #[trigger] final(self)@.get(k) == old(self)@.get(k),
    {
        self.set_status(subsystem, Status::new(State::Stopped, None));
    }

    /// Reports `subsystem` as errored with `msg`.
    pub fn errored(&mut self, subsystem: &str, msg: String)
        ensures
            final(self)@.dom() == old(self)@.dom().insert(subsystem@),
            final(self)@[subsystem@].state == State::Errored,
            final(self)@[subsystem@].message == Some(msg@),
            forall|k: Seq<char>| k != subsystem@ ==> #[trigger] final(self)@.get(k) == old(self)@.get(k),
    {
        self.set_status(subsystem, Status::new(State::Errored, Some(msg)));
    }

    /// The latest status of `subsystem`, if it has reported.
    pub fn get(&self, subsystem: &str) -> (r: Option<&Status>)
        ensures
            r is Some <==> self@.contains_key(subsystem@),
            r is Some ==> r->0@ == self@[subsystem@],
    {
        proof {
            use_type_invariant(self);
            lemma_keyed_map(self.entries@);
        }
        match position(&self.entries, subsystem) {
            Some(i) => Some(&self.entries[i].1),
            None => {
                proof {
                    lemma_absent(self.entries@, subsystem@);
                }
                None
            },
        }
    }

    /// Every subsystem's latest status, each name once.
    pub fn snapshot(&self) -> (r: Vec<(String, Status)>)
        ensures
            keys_unique(r@),
            keyed_map(r@) == self@,
    {
        proof {
            use_type_invariant(self);
        }
        let mut out: Vec<(String, Status)> = Vec::new();
        let mut i: usize = 0;
        while i < self.entries.len()
            invariant
                i <= self.entries@.len(),
                keys_unique(self.entries@),
                out@.len() == i,
                forall|k: int| 0 <= k < i ==> (#[trigger] out@[k]).0@ == self.entries@[k].0@ && out@[k].1@ == self.entries@[k].1@,
            decreases self.entries@.len() - i,
        {
            let name = self.entries[i].0.clone();
            let status = self.entries[i].1.copied();
            out.push((name, status));
            i = i + 1;
        }
        proof {
            lemma_same_entries(out@, self.entries@);
        }
        out
    }
}

/// Two entry lists with the same names and views, position by position,
/// describe the same map.
proof fn lemma_same_entries(a: Seq<(String, Status)>, b: Seq<(String, Status)>)
    requires
        a.len() == b.len(),
        forall|k: int| 0 <= k < a.len() ==> (#[trigger] a[k]).0@ == b[k].0@ && a[k].1@ == b[k].1@,
    ensures
        keyed_map(a) == keyed_map(b),
        keys_unique(b) ==> keys_unique(a),
    decreases a.len(),
{
    if a.len() > 0 {
        let pa = a.drop_last();
        let pb = b.drop_last();
        assert forall|k: int| 0 <= k < pa.len() implies (#[trigger] pa[k]).0@ == pb[k].0@ && pa[k].1@ == pb[k].1@ by {
            assert(pa[k] == a[k]);
            assert(pb[k] == b[k]);
        }
        lemma_same_entries(pa, pb);
        assert(a.last().0@ == b.last().0@ && a.last().1@ == b.last().1@) by {
            assert(a[a.len() - 1].0@ == b[a.len() - 1].0@);
        }
    }
    if keys_unique(b) {
        assert forall|i: int, j: int| 0 <= i < a.len() && 0 <= j < a.len() && i != j implies (#[trigger] a[i]).0@ != (#[trigger] a[j]).0@ by {
            assert(b[i].0@ != b[j].0@);
        }
    }
}

/// What a subsystem last reported is what the board shows for it, and
/// reporting for one subsystem leaves every other one's status as it was.
pub proof fn law_status_read_after_write(board: Map<Seq<char>, StatusView>, subsystem: Seq<char>, status: StatusView, other: Seq<char>)
    requires
        other != subsystem,
    ensures
        board.insert(subsystem, status)[subsystem] == status,
        board.insert(subsystem, status).get(other) == board.get(other),
{
}

} // verus!
