//! What the bridge promises across its operations: how pending updates merge,
//! what every card carries, and which requests can lead to a delivery.

use vstd::prelude::*;
use crate::kit::utils::hmac_hex_matches;
use super::cards::{button_spec, lark_card_spec};
use super::debounce::{merge_changes, merged, upserted, PendingView};
use super::event::{changes_of, display_spec, emoji_spec, label_spec, priority_of, EventView, Priority};
use crate::kit::card::ElementView;
use crate::text::join_spec;
use super::webhook::{plan_spec, ActionView, LinearPayload};

verus! {

/// A change is in the merged list exactly when it was in either list.
proof fn lemma_merge_contains(acc: Seq<Seq<char>>, new: Seq<Seq<char>>, c: Seq<char>)
    ensures
        merge_changes(acc, new).contains(c) <==> (acc.contains(c) || new.contains(c)),
    decreases new.len(),
{
    if new.len() > 0 {
        let prev = merge_changes(acc, new.drop_last());
        lemma_merge_contains(acc, new.drop_last(), c);
        lemma_merge_contains(acc, new.drop_last(), new.last());
        if new.contains(c) && !new.drop_last().contains(c) {
            let i = choose|i: int| 0 <= i < new.len() && new[i] == c;
            if i < new.len() - 1 {
                assert(new.drop_last()[i] == c);
            }
            assert(c == new.last());
        }
        if new.drop_last().contains(c) {
            let i = choose|i: int| 0 <= i < new.drop_last().len() && new.drop_last()[i] == c;
            assert(new[i] == c);
        }
        if c == new.last() {
            assert(new[new.len() - 1] == c);
        }
        if !prev.contains(new.last()) {
            let grown = prev.push(new.last());
            if grown.contains(c) && c != new.last() {
                let i = choose|i: int| 0 <= i < grown.len() && grown[i] == c;
                assert(prev[i] == c);
            }
            if prev.contains(c) {
                let i = choose|i: int| 0 <= i < prev.len() && prev[i] == c;
                assert(grown[i] == c);
            }
            assert(grown[grown.len() - 1] == new.last());
        }
    }
}

/// The merged list starts with the old list, unchanged.
proof fn lemma_merge_prefix(acc: Seq<Seq<char>>, new: Seq<Seq<char>>)
    ensures
        merge_changes(acc, new).len() >= acc.len(),
        merge_changes(acc, new).take(acc.len() as int) == acc,
    decreases new.len(),
{
    if new.len() > 0 {
        lemma_merge_prefix(acc, new.drop_last());
        let prev = merge_changes(acc, new.drop_last());
        assert(prev.push(new.last()).take(acc.len() as int) =~= prev.take(acc.len() as int));
    }
}

/// Whether no element occurs twice.
pub open spec fn no_duplicates(s: Seq<Seq<char>>) -> bool {
    forall|i: int, j: int| 0 <= i < s.len() && 0 <= j < s.len() && i != j ==> s[i] != s[j]
}

proof fn lemma_merge_no_duplicates(acc: Seq<Seq<char>>, new: Seq<Seq<char>>)
    requires
        no_duplicates(acc),
    ensures
        no_duplicates(merge_changes(acc, new)),
    decreases new.len(),
{
    if new.len() > 0 {
        lemma_merge_no_duplicates(acc, new.drop_last());
        let prev = merge_changes(acc, new.drop_last());
        if !prev.contains(new.last()) {
            let grown = prev.push(new.last());
            assert forall|i: int, j: int| 0 <= i < grown.len() && 0 <= j < grown.len() && i != j implies grown[i] != grown[j] by {
                if i < prev.len() && j < prev.len() {
                } else if i < prev.len() {
                    assert(grown[i] == prev[i]);
                } else {
                    assert(grown[j] == prev[j]);
                }
            }
        }
    }
}

/// Whether an event is about an issue (created or updated).
pub open spec fn is_issue_event(e: EventView) -> bool {
    e is Created || e is Updated
}

/// A create followed by updates stays a create: once the pending update for
/// an issue is a creation, merging any later issue event keeps it one.
pub proof fn law_create_stays_create(existing: PendingView, event: EventView, dm_email: Option<Seq<char>>)
    requires
        existing.event is Created,
        is_issue_event(event),
    ensures
        merged(existing, event, dm_email).event is Created,
{
}

/// Merging never loses a change description and invents none: a change is in
/// the merged list exactly when the pending update or the new event had it.
pub proof fn law_merge_keeps_every_change(existing: PendingView, event: EventView, dm_email: Option<Seq<char>>, c: Seq<char>)
    requires
        is_issue_event(event),
    ensures
        changes_of(merged(existing, event, dm_email).event).contains(c)
            <==> (changes_of(existing.event).contains(c) || changes_of(event).contains(c)),
{
    lemma_merge_contains(changes_of(existing.event), changes_of(event), c);
}

/// The changes already pending come first, in their order; new ones follow.
pub proof fn law_merge_keeps_pending_changes_first(existing: PendingView, event: EventView, dm_email: Option<Seq<char>>)
    requires
        is_issue_event(event),
    ensures
        changes_of(merged(existing, event, dm_email).event).take(changes_of(existing.event).len() as int)
            == changes_of(existing.event),
{
    lemma_merge_prefix(changes_of(existing.event), changes_of(event));
}

/// Merging drops exact duplicates: when the pending changes hold no
/// duplicate, neither does the merged list.
pub proof fn law_merge_adds_no_duplicates(existing: PendingView, event: EventView, dm_email: Option<Seq<char>>)
    requires
        is_issue_event(event),
        no_duplicates(changes_of(existing.event)),
    ensures
        no_duplicates(changes_of(merged(existing, event, dm_email).event)),
{
    lemma_merge_no_duplicates(changes_of(existing.event), changes_of(event));
}

/// The latest state wins: apart from its change list (and a creation staying
/// a creation), the merged event is the newest event.
pub proof fn law_latest_state_wins(existing: PendingView, event: EventView, dm_email: Option<Seq<char>>)
    requires
        is_issue_event(event),
    ensures
        match (merged(existing, event, dm_email).event, event) {
            (EventView::Created(m), EventView::Created(e)) => m.identifier == e.identifier && m.title == e.title
                && m.description == e.description && m.status == e.status && m.priority == e.priority
                && m.assignee == e.assignee && m.assignee_email == e.assignee_email && m.url == e.url,
            (EventView::Created(m), EventView::Updated(e)) => m.identifier == e.identifier && m.title == e.title
                && m.description == e.description && m.status == e.status && m.priority == e.priority
                && m.assignee == e.assignee && m.assignee_email == e.assignee_email && m.url == e.url,
            (EventView::Updated(m), EventView::Updated(e)) => m.identifier == e.identifier && m.title == e.title
                && m.description == e.description && m.status == e.status && m.priority == e.priority
                && m.assignee == e.assignee && m.assignee_email == e.assignee_email && m.url == e.url,
            _ => false,
        },
{
}

/// Once an update in the window named an assignee to DM, the pending update
/// keeps a DM target.
pub proof fn law_dm_target_is_kept(existing: PendingView, event: EventView, dm_email: Option<Seq<char>>)
    requires
        existing.dm_email is Some || dm_email is Some,
    ensures
        merged(existing, event, dm_email).dm_email is Some,
        dm_email is Some ==> merged(existing, event, dm_email).dm_email == dm_email,
{
}

/// A newer update for a key supersedes the timer of the update it replaced:
/// the merged update carries a generation other than the one the earlier
/// timer holds, so that timer's `take_current` finds nothing to deliver.
pub proof fn law_superseded_timer_delivers_nothing(existing: PendingView, event: EventView, dm_email: Option<Seq<char>>)
    ensures
        merged(existing, event, dm_email).generation != existing.generation,
{
}

/// Every group card ends with the "View in Linear" button for the event's
/// URL.
pub proof fn law_cards_link_back(e: EventView)
    ensures
        lark_card_spec(e).elements.len() > 0,
        lark_card_spec(e).elements.last() == button_spec(match e {
            EventView::Created(i) => i.url,
            EventView::Updated(i) => i.url,
            EventView::Comment(c) => c.url,
        }),
{
}

/// Only a request whose `linear-signature` is the HMAC of its body under the
/// webhook secret can lead to a notification.
pub proof fn law_only_signed_requests_notify(secret: Seq<char>, body: Seq<u8>, signature: Option<Seq<char>>, payload: Option<LinearPayload>)
    requires
        plan_spec(secret, body, signature, payload) is Debounce || plan_spec(secret, body, signature, payload) is Dispatch,
    ensures
        signature is Some,
        hmac_hex_matches(secret, body, signature->0),
{
}

/// A request without a valid signature is answered `401`, whatever it holds.
pub proof fn law_unsigned_requests_rejected(secret: Seq<char>, body: Seq<u8>, signature: Option<Seq<char>>, payload: Option<LinearPayload>)
    requires
        signature is None || !hmac_hex_matches(secret, body, signature->0),
    ensures
        plan_spec(secret, body, signature, payload) == ActionView::Reject(super::webhook::WebhookStatus::Unauthorized),
{
}

/// A newer update for a key takes over from the one pending there: after two
/// upserts for `key` with nothing between, the second reports that it
/// replaced a pending update, the map holds exactly one update for `key`,
/// the first upsert's timer no longer matches its generation (its
/// `take_current` delivers nothing), the second's does, and once taken the
/// key is gone.
pub proof fn law_newer_update_takes_over(
    m: Map<Seq<char>, PendingView>,
    key: Seq<char>,
    e1: EventView,
    d1: Option<Seq<char>>,
    e2: EventView,
    d2: Option<Seq<char>>,
)
    ensures
        ({
            let first = upserted(m, key, e1, d1);
            let second = upserted(first, key, e2, d2);
            &&& first.contains_key(key)
            &&& second.contains_key(key)
            &&& second.dom() == first.dom()
            &&& second[key].generation != first[key].generation
            &&& !second.remove(key).contains_key(key)
        }),
{
    let first = upserted(m, key, e1, d1);
    let second = upserted(first, key, e2, d2);
    assert(second.dom() =~= first.dom());
}

/// A group card for an issue, created or updated, lists its changes: when
/// the change list is non-empty, one Markdown element holds the changes
/// joined by newlines.
pub proof fn law_issue_cards_list_their_changes(e: EventView)
    requires
        !(e is Comment),
        changes_of(e).len() > 0,
    ensures
        lark_card_spec(e).elements.contains(ElementView::Markdown(join_spec(changes_of(e), "\n"@))),
{
    let els = lark_card_spec(e).elements;
    let i = match e {
        EventView::Created(x) => x,
        EventView::Updated(x) => x,
        EventView::Comment(_) => arbitrary(),
    };
    let desc = match e {
        EventView::Created(x) => x.description,
        _ => None,
    };
    let n = 1 + super::cards::description_elements(desc).len();
    assert(els[n as int] == ElementView::Markdown(join_spec(changes_of(e), "\n"@)));
}

/// Different priorities have different labels.
pub proof fn law_priority_labels_are_distinct(p: Priority, q: Priority)
    ensures
        label_spec(p) == label_spec(q) ==> p == q,
{
    reveal_strlit("Urgent");
    reveal_strlit("High");
    reveal_strlit("Medium");
    reveal_strlit("Low");
    reveal_strlit("None");
    assert("Urgent"@[0] != "High"@[0]);
    assert("Urgent"@[0] != "Medium"@[0]);
    assert("Urgent"@[0] != "Low"@[0]);
    assert("Urgent"@[0] != "None"@[0]);
    assert("High"@[0] != "Medium"@[0]);
    assert("High"@[0] != "Low"@[0]);
    assert("High"@[0] != "None"@[0]);
    assert("Medium"@[0] != "Low"@[0]);
    assert("Medium"@[0] != "None"@[0]);
    assert("Low"@[0] != "None"@[0]);
}

/// The label of a Linear numeric priority is Linear's name for it
/// (`1` Urgent, `2` High, `3` Medium, `4` Low, anything else no priority).
pub proof fn law_priority_label_names_linear_value(v: u8)
    ensures
        label_spec(priority_of(v)) == (if 1 <= v <= 4 {
            seq!["Urgent"@, "High"@, "Medium"@, "Low"@][v - 1]
        } else {
            "None"@
        }),
{
}

/// A priority is shown as its colored circle, a space and its label, and
/// different priorities show differently.
pub proof fn law_priority_display_names_it(p: Priority, q: Priority)
    ensures
        display_spec(p) == emoji_spec(p) + " "@ + label_spec(p),
        display_spec(p) == display_spec(q) ==> p == q,
{
    law_priority_labels_are_distinct(p, q);
    reveal_strlit(" ");
    if display_spec(p) == display_spec(q) && p != q {
        reveal_strlit("🔴");
        reveal_strlit("🟠");
        reveal_strlit("🟡");
        reveal_strlit("🔵");
        reveal_strlit("⚪");
        assert(emoji_spec(p).len() == 1 && emoji_spec(q).len() == 1);
        assert(display_spec(p)[0] == emoji_spec(p)[0]);
        assert(display_spec(q)[0] == emoji_spec(q)[0]);
        assert(display_spec(p).skip(2) =~= label_spec(p));
        assert(display_spec(q).skip(2) =~= label_spec(q));
    }
}

} // verus!
