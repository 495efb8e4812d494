//! What the standup table logic promises across rows and members.

use vstd::prelude::*;
use super::flow::{
    cell_entries, cell_is_empty, header_updates, member_updates, missing_rows, missing_spec, row_missing, row_user, table_plan_spec,
    BlockView, UpdateView, first_table,
};

verus! {

/// Whether `u` mentions `user`.
pub open spec fn mentions(u: UpdateView, user: Seq<char>) -> bool {
    match u {
        UpdateView::Mention { user_id, .. } => user_id == user,
        _ => false,
    }
}

proof fn lemma_missing_rows_members(all: Seq<BlockView>, cells: Seq<Seq<char>>, n: int, u: Seq<char>)
    ensures
        missing_rows(all, cells, n).contains(u) <==> exists|row: int| 1 <= row < n && row_missing(all, cells, row) == Some(u),
    decreases n,
{
    if n > 1 {
        lemma_missing_rows_members(all, cells, n - 1, u);
        let prev = missing_rows(all, cells, n - 1);
        if exists|row: int| 1 <= row < n && row_missing(all, cells, row) == Some(u) {
            let row = choose|row: int| 1 <= row < n && row_missing(all, cells, row) == Some(u);
            if row < n - 1 {
                let i = choose|i: int| 0 <= i < prev.len() && prev[i] == u;
                match row_missing(all, cells, n - 1) {
                    Some(v) => assert(prev.push(v)[i] == u),
                    None => {},
                }
            } else {
                assert(prev.push(u)[prev.len() as int] == u);
            }
        }
        if missing_rows(all, cells, n).contains(u) {
            let i = choose|i: int| 0 <= i < missing_rows(all, cells, n).len() && missing_rows(all, cells, n)[i] == u;
            if i < prev.len() {
                assert(prev[i] == u);
                assert(prev.contains(u));
            } else {
                assert(row_missing(all, cells, n - 1) == Some(u));
            }
        }
    }
}

/// A user is reported missing exactly when some row after the header
/// mentions them and leaves its other three cells empty.
pub proof fn law_missing_means_row_left_empty(all: Seq<BlockView>, u: Seq<char>)
    requires
        missing_spec(all) is Ok,
    ensures
        missing_spec(all)->Ok_0.contains(u) <==> exists|row: int|
            1 <= row < first_table(all)->0.cells.len() / 4 && row_missing(all, first_table(all)->0.cells, row) == Some(u),
{
    let cells = first_table(all)->0.cells;
    lemma_missing_rows_members(all, cells, (cells.len() / 4) as int, u);
}

proof fn lemma_member_updates_shape(entries: Seq<(Seq<char>, Seq<char>)>, cells: Seq<Seq<char>>, members: Seq<Seq<char>>, n: int)
    requires
        0 <= n <= members.len(),
        member_updates(entries, cells, members, n) is Ok,
    ensures
        member_updates(entries, cells, members, n)->Ok_0.len() == n,
        forall|i: int| 0 <= i < n ==> mentions(#[trigger] member_updates(entries, cells, members, n)->Ok_0[i], members[i]),
    decreases n,
{
    if n > 0 {
        lemma_member_updates_shape(entries, cells, members, n - 1);
    }
}

proof fn lemma_header_updates_len(entries: Seq<(Seq<char>, Seq<char>)>, cells: Seq<Seq<char>>, k: int)
    requires
        0 <= k,
        header_updates(entries, cells, k) is Ok,
    ensures
        header_updates(entries, cells, k)->Ok_0.len() == k,
        forall|i: int| 0 <= i < k ==> #[trigger] header_updates(entries, cells, k)->Ok_0[i] is Header,
    decreases k,
{
    if k > 0 {
        lemma_header_updates_len(entries, cells, k - 1);
    }
}

/// A table that can be filled gets its three headers, then every member of
/// the chat mentioned once, in chat order, one row each.
pub proof fn law_table_mentions_every_member_in_order(all: Seq<BlockView>, members: Seq<Seq<char>>)
    requires
        table_plan_spec(all, members) is Ok,
    ensures
        table_plan_spec(all, members)->Ok_0.len() == 3 + members.len(),
        forall|i: int| 0 <= i < 3 ==> #[trigger] table_plan_spec(all, members)->Ok_0[i] is Header,
        forall|i: int| 0 <= i < members.len() ==> mentions(#[trigger] table_plan_spec(all, members)->Ok_0[3 + i], members[i]),
{
    let t = first_table(all)->0;
    let entries = cell_entries(all, all);
    lemma_header_updates_len(entries, t.cells, 3);
    lemma_member_updates_shape(entries, t.cells, members, members.len() as int);
    let h = header_updates(entries, t.cells, 3)->Ok_0;
    let m = member_updates(entries, t.cells, members, members.len() as int)->Ok_0;
    assert forall|i: int| 0 <= i < members.len() implies mentions(#[trigger] table_plan_spec(all, members)->Ok_0[3 + i], members[i]) by {
        assert((h + m)[3 + i] == m[i]);
    }
    assert forall|i: int| 0 <= i < 3 implies #[trigger] table_plan_spec(all, members)->Ok_0[i] is Header by {
        assert((h + m)[i] == h[i]);
    }
}

/// A user is reported missing exactly when some row after the header
/// names them and all three answer cells of that row (Done, Plan and
/// Blockers) are empty: an answer in any of them, the Blockers cell
/// included, keeps the row out of the report.
pub proof fn law_missing_only_with_all_answers_empty(all: Seq<BlockView>, u: Seq<char>)
    requires
        missing_spec(all) is Ok,
    ensures
        missing_spec(all)->Ok_0.contains(u) <==> exists|row: int| {
            &&& 1 <= row < first_table(all)->0.cells.len() / 4
            &&& #[trigger] row_user(all, first_table(all)->0.cells, row) == Some(u)
            &&& cell_is_empty(all, first_table(all)->0.cells, row, 1)
            &&& cell_is_empty(all, first_table(all)->0.cells, row, 2)
            &&& cell_is_empty(all, first_table(all)->0.cells, row, 3)
        },
{
    let cells = first_table(all)->0.cells;
    law_missing_means_row_left_empty(all, u);
    if missing_spec(all)->Ok_0.contains(u) {
        let row = choose|row: int| 1 <= row < cells.len() / 4 && row_missing(all, cells, row) == Some(u);
        assert(row_user(all, cells, row) == Some(u));
    }
    if exists|row: int| {
        &&& 1 <= row < cells.len() / 4
        &&& #[trigger] row_user(all, cells, row) == Some(u)
        &&& cell_is_empty(all, cells, row, 1)
        &&& cell_is_empty(all, cells, row, 2)
        &&& cell_is_empty(all, cells, row, 3)
    } {
        let row = choose|row: int| {
            &&& 1 <= row < cells.len() / 4
            &&& #[trigger] row_user(all, cells, row) == Some(u)
            &&& cell_is_empty(all, cells, row, 1)
            &&& cell_is_empty(all, cells, row, 2)
            &&& cell_is_empty(all, cells, row, 3)
        };
        assert(row_missing(all, cells, row) == Some(u));
    }
}

/// Whether row `row` names `u` and leaves its three answer cells empty.
pub open spec fn unanswered_row_of(all: Seq<BlockView>, cells: Seq<Seq<char>>, row: int, u: Seq<char>) -> bool {
    &&& row_user(all, cells, row) == Some(u)
    &&& cell_is_empty(all, cells, row, 1)
    &&& cell_is_empty(all, cells, row, 2)
    &&& cell_is_empty(all, cells, row, 3)
}

/// The rows `1..n` the missing list of `missing_rows(all, cells, n)` comes
/// from, one per entry, in increasing order.
proof fn lemma_missing_rows_witness(all: Seq<BlockView>, cells: Seq<Seq<char>>, n: int) -> (rows: Seq<int>)
    ensures
        rows.len() == missing_rows(all, cells, n).len(),
        forall|k: int| 0 <= k < rows.len() ==> 1 <= #[trigger] rows[k] < n,
        forall|k: int, l: int| 0 <= k < l < rows.len() ==> #[trigger] rows[k] < #[trigger] rows[l],
        forall|k: int| 0 <= k < rows.len() ==> unanswered_row_of(all, cells, #[trigger] rows[k], missing_rows(all, cells, n)[k]),
    decreases n,
{
    if n <= 1 {
        Seq::empty()
    } else {
        let prev = lemma_missing_rows_witness(all, cells, n - 1);
        match row_missing(all, cells, n - 1) {
            Some(u) => {
                let rows = prev.push(n - 1);
                assert forall|k: int| 0 <= k < rows.len() implies unanswered_row_of(all, cells, #[trigger] rows[k], missing_rows(all, cells, n)[k]) by {
                    if k < prev.len() {
                        assert(rows[k] == prev[k]);
                        assert(missing_rows(all, cells, n)[k] == missing_rows(all, cells, n - 1)[k]);
                    }
                }
                assert forall|k: int, l: int| 0 <= k < l < rows.len() implies #[trigger] rows[k] < #[trigger] rows[l] by {
                    if l < prev.len() {
                        assert(rows[k] == prev[k] && rows[l] == prev[l]);
                    } else {
                        assert(rows[k] == prev[k]);
                    }
                }
                rows
            },
            None => prev,
        }
    }
}

/// Each entry of the missing list comes from its own row, in table order:
/// entry `k` is the user of row `rows[k]`, whose three answer cells are
/// empty, and the rows increase, so no row is reported twice.
pub proof fn law_missing_list_follows_the_rows(all: Seq<BlockView>) -> (rows: Seq<int>)
    requires
        missing_spec(all) is Ok,
    ensures
        rows.len() == missing_spec(all)->Ok_0.len(),
        forall|k: int| 0 <= k < rows.len() ==> 1 <= #[trigger] rows[k] < first_table(all)->0.cells.len() / 4,
        forall|k: int, l: int| 0 <= k < l < rows.len() ==> #[trigger] rows[k] < #[trigger] rows[l],
        forall|k: int| 0 <= k < rows.len()
            ==> unanswered_row_of(all, first_table(all)->0.cells, #[trigger] rows[k], missing_spec(all)->Ok_0[k]),
{
    let cells = first_table(all)->0.cells;
    lemma_missing_rows_witness(all, cells, (cells.len() / 4) as int)
}

} // verus!
