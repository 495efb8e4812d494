//! One standup day: find or create the day's document, fill its table with
//! the chat's members, find who has not filled their row, and shape the
//! announcement and reminder cards.
//!
//! The Lark calls (Drive listing, document blocks, messages) happen at the
//! edge; every decision between them is made here on the values they return.

use vstd::prelude::*;
use crate::kit::card::{card, md_div, CardElement, CardView, ElementView, LarkCard};
use crate::kit::config::opt_view;
use crate::text::{decimal_spec, is_blank, is_blank_spec, push_decimal, str_eq};
use super::date::{days_between, days_since, shanghai_today, ymd_text, Day, DayView};

verus! {

/// Header of the "done yesterday" column.
pub const HEADER_DONE: &'static str = "✅ 昨日完成";
/// Header of the "plan for today" column.
pub const HEADER_PLAN: &'static str = "🎯 今日计划";
/// Header of the "blocked" column.
pub const HEADER_BLOCK: &'static str = "🚫 阻塞";
/// Columns of the standup table: name, done, plan, blocked.
pub const COL_SIZE: usize = 4;

/// A day's standup document.
#[derive(Debug, Clone)]
pub struct StandupDoc {
    pub doc_id: String,
    pub url: String,
}

/// The title of the document for `date`.
pub open spec fn title_spec(date: DayView) -> Seq<char> {
    "Daily Scrum - "@ + ymd_text(date)
}

/// `Daily Scrum - YYYY-MM-DD`.
pub fn document_title(date: &Day) -> (t: String)
    ensures
        t@ == title_spec(date@),
{
    let mut t = String::from_str("Daily Scrum - ");
    date.push_ymd(&mut t);
    t
}

/// A file in a Drive folder listing.
#[derive(Debug, Clone)]
pub struct DriveFile {
    pub token: String,
    pub name: String,
    pub file_type: String,
    pub url: String,
}

/// The index of the first `docx` named `title`, if any.
pub open spec fn first_doc_named(files: Seq<DriveFile>, title: Seq<char>) -> Option<int>
    decreases files.len(),
{
    if files.len() == 0 {
        None
    } else if files[0].file_type@ == "docx"@ && files[0].name@ == title {
        Some(0)
    } else {
        match first_doc_named(files.drop_first(), title) {
            Some(i) => Some(i + 1),
            None => None,
        }
    }
}

/// The index of the first file with token `token`, if any.
pub open spec fn first_with_token(files: Seq<DriveFile>, token: Seq<char>) -> Option<int>
    decreases files.len(),
{
    if files.len() == 0 {
        None
    } else if files[0].token@ == token {
        Some(0)
    } else {
        match first_with_token(files.drop_first(), token) {
            Some(i) => Some(i + 1),
            None => None,
        }
    }
}

/// The day's document when the folder already holds it: the first `docx`
/// whose name is `title`.
pub fn find_existing_doc(files: &[DriveFile], title: &str) -> (d: Option<StandupDoc>)
    ensures
        match first_doc_named(files@, title@) {
            Some(i) => d is Some && d->0.doc_id@ == files@[i].token@ && d->0.url@ == files@[i].url@,
            None => d is None,
        },
{
    assert(files@.skip(0) =~= files@);
    let mut i: usize = 0;
    while i < files.len()
        invariant
            i <= files@.len(),
            first_doc_named(files@, title@) == match first_doc_named(files@.skip(i as int), title@) {
                Some(k) => Some(k + i),
                None => None::<int>,
            },
        decreases files@.len() - i,
    {
        assert(files@.skip(i as int).drop_first() =~= files@.skip(i as int + 1));
        assert(files@.skip(i as int)[0] == files@[i as int]);
        if str_eq(files[i].file_type.as_str(), "docx") && str_eq(files[i].name.as_str(), title) {
            return Some(StandupDoc { doc_id: files[i].token.clone(), url: files[i].url.clone() });
        }
        i = i + 1;
    }
    assert(files@.skip(i as int).len() == 0);
    None
}

/// The URL the listing gives the file `token`, or `""` when it is not
/// listed.
pub fn url_of(files: &[DriveFile], token: &str) -> (url: String)
    ensures
        url@ == match first_with_token(files@, token@) {
            Some(i) => files@[i].url@,
            None => Seq::empty(),
        },
{
    assert(files@.skip(0) =~= files@);
    let mut i: usize = 0;
    while i < files.len()
        invariant
            i <= files@.len(),
            first_with_token(files@, token@) == match first_with_token(files@.skip(i as int), token@) {
                Some(k) => Some(k + i),
                None => None::<int>,
            },
        decreases files@.len() - i,
    {
        assert(files@.skip(i as int).drop_first() =~= files@.skip(i as int + 1));
        assert(files@.skip(i as int)[0] == files@[i as int]);
        if str_eq(files[i].token.as_str(), token) {
            return files[i].url.clone();
        }
        i = i + 1;
    }
    assert(files@.skip(i as int).len() == 0);
    String::new()
}

/// The error when the chat has nobody to put in the table.
pub fn no_members_error(chat_id: &str) -> (e: String)
    ensures
        e@ == "chat "@ + chat_id@ + " has no members"@,
{
    let mut e = String::from_str("chat ");
    e.append(chat_id);
    e.append(" has no members");
    e
}

/// One text element of a document block.
#[derive(Debug, Clone)]
pub struct TextElement {
    /// `mention_user.user_id`, when the element mentions a user.
    pub mention_user_id: Option<String>,
    /// `text_run.content`, when the element is a text run.
    pub content: Option<String>,
}

/// One block of a Lark document, as the standup logic reads it.
#[derive(Debug, Clone)]
pub struct DocBlock {
    pub block_id: Option<String>,
    pub block_type: Option<i64>,
    pub parent_id: Option<String>,
    /// The string entries of `table.cells` (empty when there are none).
    pub cells: Vec<String>,
    /// `text.elements`, when present as an array.
    pub elements: Option<Vec<TextElement>>,
}

/// The views of the cell ids of a table.
pub open spec fn cells_view(cs: Seq<String>) -> Seq<Seq<char>> {
    cs.map_values(|c: String| c@)
}

/// The mathematical value of a [`TextElement`].
pub struct ElementRead {
    pub mention: Option<Seq<char>>,
    pub content: Option<Seq<char>>,
}

/// The views of a block's text elements.
pub open spec fn reads_view(es: Seq<TextElement>) -> Seq<ElementRead> {
    es.map_values(|e: TextElement| e@)
}

/// The mathematical value of a [`DocBlock`].
pub struct BlockView {
    pub block_id: Option<Seq<char>>,
    pub block_type: Option<i64>,
    pub parent_id: Option<Seq<char>>,
    pub cells: Seq<Seq<char>>,
    pub elements: Option<Seq<ElementRead>>,
}

impl View for TextElement {
    type V = ElementRead;

    open spec fn view(&self) -> ElementRead {
        ElementRead { mention: opt_view(self.mention_user_id), content: opt_view(self.content) }
    }
}

impl View for DocBlock {
    type V = BlockView;

    open spec fn view(&self) -> BlockView {
        BlockView {
            block_id: opt_view(self.block_id),
            block_type: self.block_type,
            parent_id: opt_view(self.parent_id),
            cells: cells_view(self.cells@),
            elements: match self.elements {
                Some(es) => Some(reads_view(es@)),
                None => None,
            },
        }
    }
}

/// The views of a block sequence.
pub open spec fn blocks_view(bs: Seq<DocBlock>) -> Seq<BlockView> {
    bs.map_values(|b: DocBlock| b@)
}

/// The first user an element list mentions.
pub open spec fn first_mention(els: Seq<ElementRead>) -> Option<Seq<char>>
    decreases els.len(),
{
    if els.len() == 0 {
        None
    } else if els[0].mention is Some {
        els[0].mention
    } else {
        first_mention(els.drop_first())
    }
}

/// The user a name cell's text block mentions.
pub open spec fn mention_of(b: BlockView) -> Option<Seq<char>> {
    match b.elements {
        Some(els) => first_mention(els),
        None => None,
    }
}

/// Whether a text block shows nothing: no element array, no elements, or
/// only text runs that are blank.
pub open spec fn text_empty(b: BlockView) -> bool {
    match b.elements {
        None => true,
        Some(els) => forall|i: int| 0 <= i < els.len() ==>
            (#[trigger] els[i]).content is Some && is_blank_spec(els[i].content->0),
    }
}

/// The last block whose id is `id` (a later block with the same id hides an
/// earlier one).
pub open spec fn block_by_id(blocks: Seq<BlockView>, id: Seq<char>) -> Option<BlockView>
    decreases blocks.len(),
{
    if blocks.len() == 0 {
        None
    } else if blocks.last().block_id == Some(id) {
        Some(blocks.last())
    } else {
        block_by_id(blocks.drop_last(), id)
    }
}

/// The first table block (type `31`).
pub open spec fn first_table(blocks: Seq<BlockView>) -> Option<BlockView>
    decreases blocks.len(),
{
    if blocks.len() == 0 {
        None
    } else if blocks[0].block_type == Some(31i64) {
        Some(blocks[0])
    } else {
        first_table(blocks.drop_first())
    }
}

/// `(cell id, text block id)` when `b` is a text block (type `2`) whose
/// parent is a table cell (type `32`) of `all`.
pub open spec fn cell_entry(all: Seq<BlockView>, b: BlockView) -> Option<(Seq<char>, Seq<char>)> {
    if b.block_type == Some(2i64) && b.block_id is Some && b.parent_id is Some {
        match block_by_id(all, b.parent_id->0) {
            Some(p) => if p.block_type == Some(32i64) {
                Some((b.parent_id->0, b.block_id->0))
            } else {
                None
            },
            None => None,
        }
    } else {
        None
    }
}

/// The cell-to-text entries of `prefix`, in block order.
pub open spec fn cell_entries(all: Seq<BlockView>, prefix: Seq<BlockView>) -> Seq<(Seq<char>, Seq<char>)>
    decreases prefix.len(),
{
    if prefix.len() == 0 {
        Seq::empty()
    } else {
        let prev = cell_entries(all, prefix.drop_last());
        match cell_entry(all, prefix.last()) {
            Some(e) => prev.push(e),
            None => prev,
        }
    }
}

/// The text block of cell `cell`: the last entry for it.
pub open spec fn lookup_last(entries: Seq<(Seq<char>, Seq<char>)>, cell: Seq<char>) -> Option<Seq<char>>
    decreases entries.len(),
{
    if entries.len() == 0 {
        None
    } else if entries.last().0 == cell {
        Some(entries.last().1)
    } else {
        lookup_last(entries.drop_last(), cell)
    }
}

/// Maps each table cell to the text block inside it.
#[derive(Debug)]
pub struct CellTextMap {
    entries: Vec<(String, String)>,
}

impl View for CellTextMap {
    type V = Seq<(Seq<char>, Seq<char>)>;

    closed spec fn view(&self) -> Seq<(Seq<char>, Seq<char>)> {
        self.entries@.map_values(|e: (String, String)| (e.0@, e.1@))
    }
}

/// The last block of `blocks` with id `id`.
fn find_block<'a>(blocks: &'a [DocBlock], id: &str) -> (r: Option<&'a DocBlock>)
    ensures
        match block_by_id(blocks_view(blocks@), id@) {
            Some(b) => r is Some && r->0@ == b,
            None => r is None,
        },
{
    let ghost bv = blocks_view(blocks@);
    assert(bv.take(blocks@.len() as int) =~= bv);
    let mut i: usize = blocks.len();
    while i > 0
        invariant
            i <= blocks@.len(),
            bv == blocks_view(blocks@),
            block_by_id(bv, id@) == block_by_id(bv.take(i as int), id@),
        decreases i,
    {
        let ghost pre = bv.take(i as int);
        assert(pre.drop_last() =~= bv.take(i as int - 1));
        assert(pre.last() == blocks@[i as int - 1]@);
        let found = match &blocks[i - 1].block_id {
            Some(b) => str_eq(b.as_str(), id),
            None => false,
        };
        if found {
            return Some(&blocks[i - 1]);
        }
        i = i - 1;
    }
    None
}

/// The first table block of `blocks`.
fn find_table<'a>(blocks: &'a [DocBlock]) -> (r: Option<&'a DocBlock>)
    ensures
        match first_table(blocks_view(blocks@)) {
            Some(b) => r is Some && r->0@ == b,
            None => r is None,
        },
{
    let ghost bv = blocks_view(blocks@);
    assert(bv.skip(0) =~= bv);
    let mut i: usize = 0;
    while i < blocks.len()
        invariant
            i <= blocks@.len(),
            bv == blocks_view(blocks@),
            first_table(bv) == first_table(bv.skip(i as int)),
        decreases blocks@.len() - i,
    {
        assert(bv.skip(i as int).drop_first() =~= bv.skip(i as int + 1));
        assert(bv.skip(i as int)[0] == blocks@[i as int]@);
        if blocks[i].block_type == Some(31i64) {
            return Some(&blocks[i]);
        }
        i = i + 1;
    }
    assert(bv.skip(i as int).len() == 0);
    None
}

/// Builds the cell-to-text map of a document's blocks.
pub fn cell_text_map(blocks: &[DocBlock]) -> (m: CellTextMap)
    ensures
        m@ == cell_entries(blocks_view(blocks@), blocks_view(blocks@)),
{
    let ghost bv = blocks_view(blocks@);
    let mut entries: Vec<(String, String)> = Vec::new();
    let mut i: usize = 0;
    while i < blocks.len()
        invariant
            i <= blocks@.len(),
            bv == blocks_view(blocks@),
            entries@.map_values(|e: (String, String)| (e.0@, e.1@)) == cell_entries(bv, bv.take(i as int)),
        decreases blocks@.len() - i,
    {
        let ghost pre = bv.take(i as int + 1);
        assert(pre.drop_last() =~= bv.take(i as int));
        assert(pre.last() == blocks@[i as int]@);
        let b = &blocks[i];
        if b.block_type == Some(2i64) {
            if let (Some(text_id), Some(parent_id)) = (&b.block_id, &b.parent_id) {
                if let Some(parent) = find_block(blocks, parent_id.as_str()) {
                    if parent.block_type == Some(32i64) {
                        let ghost before = entries@;
                        entries.push((parent_id.clone(), text_id.clone()));
                        assert(entries@.map_values(|e: (String, String)| (e.0@, e.1@)) =~=
                            before.map_values(|e: (String, String)| (e.0@, e.1@)).push((parent_id@, text_id@)));
                    }
                }
            }
        }
        i = i + 1;
    }
    assert(bv.take(blocks@.len() as int) =~= bv);
    CellTextMap { entries }
}

impl CellTextMap {
    /// The text block id inside `cell`, if any.
    pub fn get(&self, cell: &str) -> (r: Option<String>)
        ensures
            opt_view(r) == lookup_last(self@, cell@),
    {
        let ghost ev = self@;
        assert(ev.take(self.entries@.len() as int) =~= ev);
        let mut i: usize = self.entries.len();
        while i > 0
            invariant
                i <= self.entries@.len(),
                ev == self@,
                ev == self.entries@.map_values(|e: (String, String)| (e.0@, e.1@)),
                lookup_last(ev, cell@) == lookup_last(ev.take(i as int), cell@),
            decreases i,
        {
            let ghost pre = ev.take(i as int);
            assert(pre.drop_last() =~= ev.take(i as int - 1));
            assert(pre.last() == (self.entries@[i as int - 1].0@, self.entries@[i as int - 1].1@));
            if str_eq(self.entries[i - 1].0.as_str(), cell) {
                return Some(self.entries[i - 1].1.clone());
            }
            i = i - 1;
        }
        None
    }
}

/// The first user a text block mentions.
#[verifier::loop_isolation(false)]
pub fn extract_mention_user(text_block: &DocBlock) -> (r: Option<String>)
    ensures
        opt_view(r) == mention_of(text_block@),
{
    let elements = match &text_block.elements {
        Some(es) => es,
        None => return None,
    };
    let ghost ev = reads_view(elements@);
    assert(ev.skip(0) =~= ev);
    let mut i: usize = 0;
    while i < elements.len()
        invariant
            i <= elements@.len(),
            ev == reads_view(elements@),
            first_mention(ev) == first_mention(ev.skip(i as int)),
        decreases elements@.len() - i,
    {
        assert(ev.skip(i as int).drop_first() =~= ev.skip(i as int + 1));
        assert(ev.skip(i as int)[0] == elements@[i as int]@);
        if let Some(uid) = &elements[i].mention_user_id {
            assert(ev.skip(i as int)[0].mention == Some(uid@));
            assert(first_mention(ev.skip(i as int)) == Some(uid@));
            assert(text_block@.elements == Some(ev));
            return Some(uid.clone());
        }
        i = i + 1;
    }
    assert(ev.skip(i as int).len() == 0);
    None
}

/// Whether a text block shows nothing.
#[verifier::loop_isolation(false)]
pub fn is_text_empty(text_block: &DocBlock) -> (r: bool)
    ensures
        r == text_empty(text_block@),
{
    let elements = match &text_block.elements {
        Some(es) => es,
        None => return true,
    };
    let ghost ev = reads_view(elements@);
    let mut i: usize = 0;
    while i < elements.len()
        invariant
            i <= elements@.len(),
            ev == reads_view(elements@),
            forall|k: int| 0 <= k < i ==> (#[trigger] ev[k]).content is Some && is_blank_spec(ev[k].content->0),
        decreases elements@.len() - i,
    {
        let blank = match &elements[i].content {
            Some(c) => is_blank(c.as_str()),
            None => false,
        };
        if !blank {
            assert(ev[i as int] == elements@[i as int]@);
            assert(!(ev[i as int].content is Some && is_blank_spec(ev[i as int].content->0)));
            assert(text_block@.elements == Some(ev));
            return false;
        }
        i = i + 1;
    }
    true
}

/// The text block shown in `cell`, looked up in the map, then by id.
pub open spec fn cell_block(all: Seq<BlockView>, cell: Seq<char>) -> Option<BlockView> {
    match lookup_last(cell_entries(all, all), cell) {
        Some(tid) => block_by_id(all, tid),
        None => None,
    }
}

/// The user named in row `row`, when its name cell mentions one.
pub open spec fn row_user(all: Seq<BlockView>, cells: Seq<Seq<char>>, row: int) -> Option<Seq<char>> {
    match cell_block(all, cells[row * 4]) {
        Some(b) => mention_of(b),
        None => None,
    }
}

/// Whether column `col` of row `row` is empty (a missing text block counts
/// as empty).
pub open spec fn cell_is_empty(all: Seq<BlockView>, cells: Seq<Seq<char>>, row: int, col: int) -> bool {
    match cell_block(all, cells[row * 4 + col]) {
        Some(b) => text_empty(b),
        None => true,
    }
}

/// The user of row `row` when every other column of the row is empty.
pub open spec fn row_missing(all: Seq<BlockView>, cells: Seq<Seq<char>>, row: int) -> Option<Seq<char>> {
    match row_user(all, cells, row) {
        Some(u) => if cell_is_empty(all, cells, row, 1) && cell_is_empty(all, cells, row, 2) && cell_is_empty(all, cells, row, 3) {
            Some(u)
        } else {
            None
        },
        None => None,
    }
}

/// The missing users of rows `1..n`, in row order.
pub open spec fn missing_rows(all: Seq<BlockView>, cells: Seq<Seq<char>>, n: int) -> Seq<Seq<char>>
    decreases n,
{
    if n <= 1 {
        Seq::empty()
    } else {
        let prev = missing_rows(all, cells, n - 1);
        match row_missing(all, cells, n - 1) {
            Some(u) => prev.push(u),
            None => prev,
        }
    }
}

/// Who has not filled the standup table of a document, or why the table
/// could not be read.
pub open spec fn missing_spec(all: Seq<BlockView>) -> Result<Seq<Seq<char>>, Seq<char>> {
    match first_table(all) {
        None => Err("no table block found"@),
        Some(t) => if t.cells.len() == 0 || t.cells.len() % 4 != 0 {
            Err("unexpected cells count: "@ + decimal_spec(t.cells.len()))
        } else {
            Ok(missing_rows(all, t.cells, (t.cells.len() / 4) as int))
        },
    }
}

/// The text block of a cell, by the map and then by id.
fn cell_block_of<'a>(blocks: &'a [DocBlock], map: &CellTextMap, cell: &str) -> (r: Option<&'a DocBlock>)
    requires
        map@ == cell_entries(blocks_view(blocks@), blocks_view(blocks@)),
    ensures
        match cell_block(blocks_view(blocks@), cell@) {
            Some(b) => r is Some && r->0@ == b,
            None => r is None,
        },
{
    match map.get(cell) {
        Some(tid) => find_block(blocks, tid.as_str()),
        None => None,
    }
}

/// The users whose standup row is still empty: each row after the header
/// whose name cell mentions a user and whose three other cells are empty.
#[verifier::loop_isolation(false)]
pub fn find_missing_user_ids(blocks: &[DocBlock]) -> (r: Result<Vec<String>, String>)
    ensures
        match missing_spec(blocks_view(blocks@)) {
            Ok(users) => r is Ok && r->Ok_0@.map_values(|s: String| s@) == users,
            Err(e) => r is Err && r->Err_0@ == e,
        },
{
    let ghost all = blocks_view(blocks@);
    let table = match find_table(blocks) {
        Some(t) => t,
        None => return Err(String::from_str("no table block found")),
    };
    let cells = &table.cells;
    let ghost cv = cells_view(cells@);
    if cells.len() == 0 || cells.len() % COL_SIZE != 0 {
        let mut e = String::from_str("unexpected cells count: ");
        push_decimal(&mut e, cells.len() as u64);
        return Err(e);
    }
    let row_size = cells.len() / COL_SIZE;
    let map = cell_text_map(blocks);
    let mut missing: Vec<String> = Vec::new();
    let mut row: usize = 1;
    assert(missing@.map_values(|s: String| s@) =~= missing_rows(all, cv, 1));
    while row < row_size
        invariant
            1 <= row <= row_size,
            row_size * 4 == cells@.len(),
            all == blocks_view(blocks@),
            cv == cells_view(cells@),
            map@ == cell_entries(all, all),
            missing@.map_values(|s: String| s@) == missing_rows(all, cv, row as int),
        decreases row_size - row,
    {
        let ghost before = missing@;
        assert(row * 4 < cells@.len());
        assert(cv[row as int * 4] == cells@[row as int * 4]@);
        let name_cell = &cells[row * 4];
        let user = match cell_block_of(blocks, &map, name_cell.as_str()) {
            Some(b) => extract_mention_user(b),
            None => None,
        };
        if let Some(user_id) = user {
            let mut all_empty = true;
            let mut col: usize = 1;
            while col < COL_SIZE
                invariant
                    1 <= col <= COL_SIZE,
                    1 <= row < row_size,
                    row_size * 4 == cells@.len(),
                    all == blocks_view(blocks@),
                    cv == cells_view(cells@),
                    map@ == cell_entries(all, all),
                    all_empty == forall|k: int| 1 <= k < col ==> cell_is_empty(all, cv, row as int, k),
                decreases COL_SIZE - col,
            {
                assert(cv[row as int * 4 + col as int] == cells@[row as int * 4 + col as int]@);
                let empty = match cell_block_of(blocks, &map, cells[row * 4 + col].as_str()) {
                    Some(b) => is_text_empty(b),
                    None => true,
                };
                assert(empty == cell_is_empty(all, cv, row as int, col as int));
                all_empty = all_empty && empty;
                col = col + 1;
            }
            assert(all_empty == (cell_is_empty(all, cv, row as int, 1) && cell_is_empty(all, cv, row as int, 2) && cell_is_empty(all, cv, row as int, 3)));
            if all_empty {
                missing.push(user_id);
                assert(missing@.map_values(|s: String| s@) =~= before.map_values(|s: String| s@).push(user_id@));
            }
        }
        row = row + 1;
    }
    Ok(missing)
}

/// The header of column `col` (`1..=3`).
pub open spec fn header_text(col: int) -> Seq<char> {
    if col == 1 {
        HEADER_DONE@
    } else if col == 2 {
        HEADER_PLAN@
    } else {
        HEADER_BLOCK@
    }
}

/// One text update of the new table.
#[derive(Debug, Clone)]
pub enum TextUpdate {
    /// Set the text block to the bold header `content`.
    Header { block_id: String, content: String },
    /// Set the text block to a mention of `user_id`.
    Mention { block_id: String, user_id: String },
}

/// The mathematical value of a [`TextUpdate`].
pub enum UpdateView {
    Header { block_id: Seq<char>, content: Seq<char> },
    Mention { block_id: Seq<char>, user_id: Seq<char> },
}

impl View for TextUpdate {
    type V = UpdateView;

    open spec fn view(&self) -> UpdateView {
        match self {
            TextUpdate::Header { block_id, content } => UpdateView::Header { block_id: block_id@, content: content@ },
            TextUpdate::Mention { block_id, user_id } => UpdateView::Mention { block_id: block_id@, user_id: user_id@ },
        }
    }
}

/// The header updates for columns `1..=k`, or the error for the first column
/// whose text block is missing.
pub open spec fn header_updates(entries: Seq<(Seq<char>, Seq<char>)>, cells: Seq<Seq<char>>, k: int) -> Result<Seq<UpdateView>, Seq<char>>
    decreases k,
{
    if k <= 0 {
        Ok(Seq::empty())
    } else {
        match header_updates(entries, cells, k - 1) {
            Err(e) => Err(e),
            Ok(prev) => match lookup_last(entries, cells[k]) {
                None => Err("header text block missing for col "@ + decimal_spec(k as nat)),
                Some(tid) => Ok(prev.push(UpdateView::Header { block_id: tid, content: header_text(k) })),
            },
        }
    }
}

/// The mention updates for the first `n` members (member `i` goes in row
/// `i + 1`), or the error for the first row whose text block is missing.
pub open spec fn member_updates(entries: Seq<(Seq<char>, Seq<char>)>, cells: Seq<Seq<char>>, members: Seq<Seq<char>>, n: int) -> Result<Seq<UpdateView>, Seq<char>>
    decreases n,
{
    if n <= 0 {
        Ok(Seq::empty())
    } else {
        match member_updates(entries, cells, members, n - 1) {
            Err(e) => Err(e),
            Ok(prev) => match lookup_last(entries, cells[n * 4]) {
                None => Err("name text block missing for row "@ + decimal_spec(n as nat)),
                Some(tid) => Ok(prev.push(UpdateView::Mention { block_id: tid, user_id: members[n - 1] })),
            },
        }
    }
}

/// The text updates that fill a freshly created table: the three headers,
/// then one mention per member, or why the table cannot be filled.
pub open spec fn table_plan_spec(all: Seq<BlockView>, members: Seq<Seq<char>>) -> Result<Seq<UpdateView>, Seq<char>> {
    let row_size = members.len() + 1;
    match first_table(all) {
        None => Err("no table block after creation"@),
        Some(t) => if t.cells.len() != row_size * 4 {
            Err("unexpected cell count "@ + decimal_spec(t.cells.len()) + " (want "@ + decimal_spec((row_size * 4) as nat) + ")"@)
        } else {
            let entries = cell_entries(all, all);
            match header_updates(entries, t.cells, 3) {
                Err(e) => Err(e),
                Ok(h) => match member_updates(entries, t.cells, members, members.len() as int) {
                    Err(e) => Err(e),
                    Ok(m) => Ok(h + m),
                },
            }
        },
    }
}

/// The table to create for `member_count` members: a header row plus one row
/// each, four columns with their widths, the first row a header.
#[derive(Debug, Clone)]
pub struct TableSpec {
    pub row_size: i64,
    pub column_size: i64,
    pub column_width: Vec<i64>,
    pub header_row: bool,
}

/// The table for `member_count` members.
pub fn table_spec(member_count: usize) -> (t: TableSpec)
    requires
        member_count < usize::MAX,
    ensures
        t.row_size == (member_count + 1) as i64,
        t.column_size == 4,
        t.column_width@ == seq![120i64, 300i64, 300i64, 240i64],
        t.header_row,
{
    let mut widths: Vec<i64> = Vec::new();
    widths.push(120);
    widths.push(300);
    widths.push(300);
    widths.push(240);
    assert(widths@ =~= seq![120i64, 300i64, 300i64, 240i64]);
    TableSpec { row_size: (member_count + 1) as i64, column_size: 4, column_width: widths, header_row: true }
}

/// The header text of column `col` (`1..=3`).
fn header_of(col: usize) -> (h: &'static str)
    requires
        1 <= col <= 3,
    ensures
        h@ == header_text(col as int),
{
    if col == 1 {
        HEADER_DONE
    } else if col == 2 {
        HEADER_PLAN
    } else {
        HEADER_BLOCK
    }
}

/// The updates that fill the new table of a document with its headers and
/// one row per member (`member_ids` in chat order).
#[verifier::loop_isolation(false)]
pub fn plan_table_updates(blocks: &[DocBlock], member_ids: &[String]) -> (r: Result<Vec<TextUpdate>, String>)
    requires
        (member_ids@.len() + 1) * 4 <= usize::MAX,
    ensures
        match table_plan_spec(blocks_view(blocks@), member_ids@.map_values(|s: String| s@)) {
            Ok(us) => r is Ok && r->Ok_0@.map_values(|u: TextUpdate| u@) == us,
            Err(e) => r is Err && r->Err_0@ == e,
        },
{
    let ghost all = blocks_view(blocks@);
    let ghost mv = member_ids@.map_values(|s: String| s@);
    let row_size = member_ids.len() + 1;
    let table = match find_table(blocks) {
        Some(t) => t,
        None => return Err(String::from_str("no table block after creation")),
    };
    let cells = &table.cells;
    let ghost cv = cells_view(cells@);
    if cells.len() != row_size * COL_SIZE {
        let mut e = String::from_str("unexpected cell count ");
        push_decimal(&mut e, cells.len() as u64);
        e.append(" (want ");
        push_decimal(&mut e, (row_size * COL_SIZE) as u64);
        e.append(")");
        return Err(e);
    }
    let map = cell_text_map(blocks);
    let ghost entries = cell_entries(all, all);
    let mut updates: Vec<TextUpdate> = Vec::new();
    assert(updates@.map_values(|u: TextUpdate| u@) =~= Seq::<UpdateView>::empty());
    let mut col: usize = 1;
    while col <= 3
        invariant
            1 <= col <= 4,
            updates@.len() == col - 1,
            cells@.len() == row_size * 4,
            row_size >= 1,
            cv == cells_view(cells@),
            map@ == entries,
            header_updates(entries, cv, col as int - 1) == Ok::<Seq<UpdateView>, Seq<char>>(updates@.map_values(|u: TextUpdate| u@)),
        decreases 4 - col,
    {
        let ghost before = updates@;
        assert(cv[col as int] == cells@[col as int]@);
        match map.get(cells[col].as_str()) {
            None => {
                let mut e = String::from_str("header text block missing for col ");
                push_decimal(&mut e, col as u64);
                proof {
                    assert(lookup_last(entries, cv[col as int]) is None);
                    assert(e@ == "header text block missing for col "@ + decimal_spec(col as nat));
                    assert(header_updates(entries, cv, col as int) == Err::<Seq<UpdateView>, Seq<char>>(e@));
                    lemma_header_err_sticks(entries, cv, col as int, 3);
                    assert(table@.cells == cv);
                }
                return Err(e);
            },
            Some(tid) => {
                let ghost tv = tid@;
                updates.push(TextUpdate::Header { block_id: tid, content: String::from_str(header_of(col)) });
                assert(updates@.map_values(|u: TextUpdate| u@) =~= before.map_values(|u: TextUpdate| u@).push(
                    UpdateView::Header { block_id: tv, content: header_text(col as int) }));
            },
        }
        col = col + 1;
    }
    let ghost headers = updates@.map_values(|u: TextUpdate| u@);
    assert(headers.skip(3) =~= Seq::<UpdateView>::empty());
    assert(headers.take(3) =~= headers);
    let mut i: usize = 0;
    while i < member_ids.len()
        invariant
            i <= member_ids@.len(),
            row_size == member_ids@.len() + 1,
            cells@.len() == row_size * 4,
            cv == cells_view(cells@),
            mv == member_ids@.map_values(|s: String| s@),
            map@ == entries,
            header_updates(entries, cv, 3) == Ok::<Seq<UpdateView>, Seq<char>>(headers),
            member_updates(entries, cv, mv, i as int) == Ok::<Seq<UpdateView>, Seq<char>>(updates@.map_values(|u: TextUpdate| u@).skip(3)),
            updates@.map_values(|u: TextUpdate| u@).take(3) == headers,
            updates@.len() == 3 + i,
        decreases member_ids@.len() - i,
    {
        let row = i + 1;
        let ghost before = updates@;
        assert(cv[row as int * 4] == cells@[row as int * 4]@);
        assert(mv[i as int] == member_ids@[i as int]@);
        match map.get(cells[row * 4].as_str()) {
            None => {
                let mut e = String::from_str("name text block missing for row ");
                push_decimal(&mut e, row as u64);
                proof {
                    assert(lookup_last(entries, cv[row as int * 4]) is None);
                    assert(member_updates(entries, cv, mv, row as int) == Err::<Seq<UpdateView>, Seq<char>>(e@));
                    lemma_member_err_sticks(entries, cv, mv, row as int, mv.len() as int);
                    assert(table@.cells == cv);
                }
                return Err(e);
            },
            Some(tid) => {
                updates.push(TextUpdate::Mention { block_id: tid, user_id: member_ids[i].clone() });
                proof {
                    let uv = updates@.map_values(|u: TextUpdate| u@);
                    let bv = before.map_values(|u: TextUpdate| u@);
                    assert(uv =~= bv.push(uv.last()));
                    assert(uv.skip(3) =~= bv.skip(3).push(uv.last()));
                    assert(uv.take(3) =~= bv.take(3));
                }
            },
        }
        i = i + 1;
    }
    proof {
        let uv = updates@.map_values(|u: TextUpdate| u@);
        assert(uv =~= uv.take(3) + uv.skip(3));
        assert(mv.len() == member_ids@.len());
    }
    Ok(updates)
}

/// Once the header plan fails it stays failed with the same error.
proof fn lemma_header_err_sticks(entries: Seq<(Seq<char>, Seq<char>)>, cells: Seq<Seq<char>>, k: int, n: int)
    requires
        1 <= k <= n,
        header_updates(entries, cells, k) is Err,
    ensures
        header_updates(entries, cells, n) == header_updates(entries, cells, k),
    decreases n - k,
{
    if n > k {
        lemma_header_err_sticks(entries, cells, k, n - 1);
    }
}

/// Once the member plan fails it stays failed with the same error.
proof fn lemma_member_err_sticks(entries: Seq<(Seq<char>, Seq<char>)>, cells: Seq<Seq<char>>, members: Seq<Seq<char>>, k: int, n: int)
    requires
        1 <= k <= n,
        member_updates(entries, cells, members, k) is Err,
    ensures
        member_updates(entries, cells, members, n) == member_updates(entries, cells, members, k),
    decreases n - k,
{
    if n > k {
        lemma_member_err_sticks(entries, cells, members, k, n - 1);
    }
}


/// The "open document" button: one primary button linking to the document on
/// every platform.
pub open spec fn open_doc_spec(doc_url: Seq<char>) -> ElementView {
    ElementView::MultiUrlButton { label: "打开文档"@, url: doc_url }
}

/// The "open document" action element.
pub fn open_doc_action(doc_url: &str) -> (e: CardElement)
    ensures
        e@ == open_doc_spec(doc_url@),
{
    CardElement::MultiUrlButton { label: String::from_str("打开文档"), url: String::from_str(doc_url) }
}

/// The title prefix and body of an announcement for a document `days` days
/// ahead of today.
pub open spec fn announce_text(days: int) -> (Seq<char>, Seq<char>) {
    if days == 0 {
        ("今日"@, "Standup 文档已就位,如未填写请立即补上。"@)
    } else if days == 1 {
        ("明日"@, "Standup 文档已就位。请在 **明早 10:30 之前** 完成填写。"@)
    } else if days > 0 {
        (Seq::empty(), "Standup 文档已就位 ("@ + decimal_spec(days as nat) + " 天后),请按时填写。"@)
    } else {
        (Seq::empty(), "Standup 文档链接见下。"@)
    }
}

/// The announcement card for the document of `date`, `days` days ahead.
pub open spec fn announce_card_spec(doc_url: Seq<char>, date: DayView, days: int) -> CardView {
    let (prefix, body) = announce_text(days);
    CardView {
        template: "blue"@,
        title: if prefix.len() == 0 {
            "Daily Standup · "@ + ymd_text(date)
        } else {
            prefix + " Daily Standup · "@ + ymd_text(date)
        },
        title_tag: "plain_text"@,
        elements: seq![ElementView::Markdown(body), open_doc_spec(doc_url)],
    }
}

/// The announcement card for `date`'s document when it is `days_ahead` days
/// ahead of today.
pub fn announce_card_for(doc_url: &str, date: &Day, days_ahead: i64) -> (c: LarkCard)
    ensures
        c@ == announce_card_spec(doc_url@, date@, days_ahead as int),
        c.plain_title(),
{
    let (prefix, body) = if days_ahead == 0 {
        ("今日", String::from_str("Standup 文档已就位,如未填写请立即补上。"))
    } else if days_ahead == 1 {
        ("明日", String::from_str("Standup 文档已就位。请在 **明早 10:30 之前** 完成填写。"))
    } else if days_ahead > 0 {
        let mut b = String::from_str("Standup 文档已就位 (");
        push_decimal(&mut b, days_ahead as u64);
        b.append(" 天后),请按时填写。");
        ("", b)
    } else {
        ("", String::from_str("Standup 文档链接见下。"))
    };
    proof {
        reveal_strlit("今日");
        reveal_strlit("明日");
        reveal_strlit("");
    }
    let mut title = String::new();
    if prefix.unicode_len() == 0 {
        title.append("Daily Standup · ");
    } else {
        title.append(prefix);
        title.append(" Daily Standup · ");
    }
    date.push_ymd(&mut title);
    let mut elements: Vec<CardElement> = Vec::new();
    elements.push(md_div(body));
    elements.push(open_doc_action(doc_url));
    let c = card("blue", title, elements);
    proof {
        let spec = announce_card_spec(doc_url@, date@, days_ahead as int);
        assert(c@.title =~= spec.title);
        assert(c@.elements =~= spec.elements);
    }
    c
}

/// The announcement card for `date`'s document, counting the days from
/// today in Asia/Shanghai.
pub fn build_announce_card(doc_url: &str, date: &Day) -> (c: LarkCard)
    ensures
        exists|today: DayView| c@ == announce_card_spec(doc_url@, date@,
            days_between(date@.year, date@.month, date@.day, today.year, today.month, today.day)),
        c.plain_title(),
{
    let today = shanghai_today();
    let days = days_since(date, &today);
    let c = announce_card_for(doc_url, date, days);
    assert(c@ == announce_card_spec(doc_url@, date@,
        days_between(date@.year, date@.month, date@.day, today@.year, today@.month, today@.day)));
    c
}

/// The reminder card: a last call when `urgent`, a gentle one otherwise.
pub open spec fn reminder_card_spec(doc_url: Seq<char>, urgent: bool) -> CardView {
    if urgent {
        CardView {
            template: "red"@,
            title: "⚠️ Daily Standup 最后提醒"@,
            title_tag: "plain_text"@,
            elements: seq![ElementView::Markdown("Standup 马上开始,请立刻填写你的那一行。"@), open_doc_spec(doc_url)],
        }
    } else {
        CardView {
            template: "orange"@,
            title: "📝 Daily Standup 提醒"@,
            title_tag: "plain_text"@,
            elements: seq![ElementView::Markdown("你还没填写今天的 Daily Standup,请尽快完成。"@), open_doc_spec(doc_url)],
        }
    }
}

/// The card DMed to whoever has not filled their row.
pub fn build_reminder_card(doc_url: &str, urgent: bool) -> (c: LarkCard)
    ensures
        c@ == reminder_card_spec(doc_url@, urgent),
        c.plain_title(),
{
    let (template, title, body) = if urgent {
        ("red", "⚠️ Daily Standup 最后提醒", "Standup 马上开始,请立刻填写你的那一行。")
    } else {
        ("orange", "📝 Daily Standup 提醒", "你还没填写今天的 Daily Standup,请尽快完成。")
    };
    let mut elements: Vec<CardElement> = Vec::new();
    elements.push(md_div(String::from_str(body)));
    elements.push(open_doc_action(doc_url));
    let c = card(template, String::from_str(title), elements);
    assert(c@.elements =~= reminder_card_spec(doc_url@, urgent).elements);
    c
}

/// A chat member.
#[derive(Debug, Clone)]
pub struct ChatMember {
    pub member_id: String,
    pub name: String,
}

/// The name of the last member listed with id `uid`.
pub open spec fn name_of_spec(members: Seq<ChatMember>, uid: Seq<char>) -> Option<Seq<char>>
    decreases members.len(),
{
    if members.len() == 0 {
        None
    } else if members.last().member_id@ == uid {
        Some(members.last().name@)
    } else {
        name_of_spec(members.drop_last(), uid)
    }
}

/// The name the chat gives `uid` (a later listing of the same id wins).
pub fn name_of(members: &[ChatMember], uid: &str) -> (r: Option<String>)
    ensures
        opt_view(r) == name_of_spec(members@, uid@),
{
    assert(members@.take(members@.len() as int) =~= members@);
    let mut i: usize = members.len();
    while i > 0
        invariant
            i <= members@.len(),
            name_of_spec(members@, uid@) == name_of_spec(members@.take(i as int), uid@),
        decreases i,
    {
        assert(members@.take(i as int).drop_last() =~= members@.take(i as int - 1));
        if str_eq(members[i - 1].member_id.as_str(), uid) {
            return Some(members[i - 1].name.clone());
        }
        i = i - 1;
    }
    None
}

/// How a missing user is listed: `"{name} ({uid})"`, or the bare id when the
/// name is unknown or empty.
pub open spec fn missing_label_spec(name: Option<Seq<char>>, uid: Seq<char>) -> Seq<char> {
    match name {
        Some(n) => if n.len() == 0 { uid } else { n + " ("@ + uid + ")"@ },
        None => uid,
    }
}

/// The line listing a missing user.
pub fn missing_label(name: Option<String>, uid: &str) -> (s: String)
    ensures
        s@ == missing_label_spec(opt_view(name), uid@),
{
    let name = match name {
        Some(n) => n,
        None => String::new(),
    };
    if name.as_str().unicode_len() == 0 {
        String::from_str(uid)
    } else {
        let mut s = name;
        s.append(" (");
        s.append(uid);
        s.append(")");
        s
    }
}

} // verus!
