use vstd::prelude::*;

use cursive::views::SelectView;

use crate::model::{Board, Entry};

verus! {

/// A row of the entry list: an entry of the open board, or the button that adds one to that board.
#[derive(Debug, Clone)]
pub enum EntryItem {
    Entry(Entry),
    Add(i64),
}

/// A row of the board list: a board, or the button that creates one.
#[derive(Debug, Clone)]
pub enum BoardItem {
    Board(Board),
    Add,
}

/// The reason an entry could not be replaced in the entry list.
#[derive(Debug, Clone, Copy, PartialEq, Eq, Structural)]
pub enum ViewError {
    /// No row of the list holds an entry with that id.
    NotFound,
}

#[verifier::external_type_specification]
#[verifier::external_body]
#[verifier::reject_recursive_types(T)]
pub struct ExSelectView<T>(SelectView<T>);

/// A row as the list holds it: its label and its value.
pub type EntryRow = (Seq<char>, EntryItem);

pub type BoardRow = (Seq<char>, BoardItem);

/// The rows of an entry list widget, in display order.
pub uninterp spec fn entry_rows(view: SelectView<EntryItem>) -> Seq<EntryRow>;

/// The rows of a board list widget, in display order.
pub uninterp spec fn board_rows(view: SelectView<BoardItem>) -> Seq<BoardRow>;

/// Calls `SelectView::len`: the number of rows.
#[verifier::external_body]
fn entry_view_len(view: &SelectView<EntryItem>) -> (n: usize)
    ensures
        n == entry_rows(*view).len(),
{
    view.len()
}

/// Calls `SelectView::get_item`: the label and value of row `i`, or `None` past the end.
#[verifier::external_body]
fn entry_view_get(view: &SelectView<EntryItem>, i: usize) -> (r: Option<(&str, &EntryItem)>)
    ensures
        match r {
            Some(row) => i < entry_rows(*view).len() && row.0@ == entry_rows(*view)[i as int].0
                && *row.1 == entry_rows(*view)[i as int].1,
            None => i >= entry_rows(*view).len(),
        },
{
    view.get_item(i)
}

/// Calls `SelectView::insert_item`: the row goes in at `index`, the rows from
/// there on move one place down.
#[verifier::external_body]
fn entry_view_insert(view: &mut SelectView<EntryItem>, index: usize, label: String, item: EntryItem)
    requires
        index <= entry_rows(*old(view)).len(),
    ensures
        entry_rows(*final(view)) == entry_rows(*old(view)).insert(index as int, (label@, item)),
{
    view.insert_item(index, label, item)
}

/// Calls `SelectView::remove_item`: row `index` leaves the list. The callback
/// that the call returns, which only concerns the focus, is dropped.
#[verifier::external_body]
fn entry_view_remove(view: &mut SelectView<EntryItem>, index: usize)
    requires
        index < entry_rows(*old(view)).len(),
    ensures
        entry_rows(*final(view)) == entry_rows(*old(view)).remove(index as int),
{
    let _ = view.remove_item(index);
}

/// Calls `SelectView::add_item`: the row goes in at the end.
#[verifier::external_body]
fn entry_view_push(view: &mut SelectView<EntryItem>, label: String, item: EntryItem)
    ensures
        entry_rows(*final(view)) == entry_rows(*old(view)).push((label@, item)),
{
    view.add_item(label, item)
}

/// Calls `SelectView::clear`: every row leaves the list.
#[verifier::external_body]
fn entry_view_clear(view: &mut SelectView<EntryItem>)
    ensures
        entry_rows(*final(view)) == Seq::<EntryRow>::empty(),
{
    view.clear()
}

/// Calls `SelectView::insert_item` on a board list.
#[verifier::external_body]
fn board_view_insert(view: &mut SelectView<BoardItem>, index: usize, label: String, item: BoardItem)
    requires
        index <= board_rows(*old(view)).len(),
    ensures
        board_rows(*final(view)) == board_rows(*old(view)).insert(index as int, (label@, item)),
{
    view.insert_item(index, label, item)
}

/// Whether a row value is the entry with id `id`.
pub open spec fn holds_entry(item: EntryItem, id: i64) -> bool {
    item matches EntryItem::Entry(e) && e.entry_id == id
}

/// The row that shows `entry`: labelled with its title.
pub open spec fn entry_row(entry: Entry) -> EntryRow {
    (entry.title@, EntryItem::Entry(entry))
}

/// Whether `k` is the first row that holds the entry with id `id`.
pub open spec fn is_first_entry_row(rows: Seq<EntryRow>, k: int, id: i64) -> bool {
    &&& 0 <= k < rows.len()
    &&& holds_entry(rows[k].1, id)
    &&& forall|j: int| 0 <= j < k ==> !holds_entry(#[trigger] rows[j].1, id)
}

/// The rows after loading `entry` into the list: it goes on top.
pub open spec fn rows_after_load(rows: Seq<EntryRow>, entry: Entry) -> Seq<EntryRow> {
    rows.insert(0, entry_row(entry))
}

/// The rows after replacing the entry with `entry`'s id: the first row that
/// holds an entry with that id shows `entry` instead, or `None` when no row does.
pub open spec fn rows_after_replace(rows: Seq<EntryRow>, entry: Entry) -> Option<Seq<EntryRow>> {
    if exists|k: int| is_first_entry_row(rows, k, entry.entry_id) {
        let k = choose|k: int| is_first_entry_row(rows, k, entry.entry_id);
        Some(rows.update(k, entry_row(entry)))
    } else {
        None
    }
}

/// The label of the row that adds an entry.
pub open spec fn add_entry_label() -> Seq<char> {
    "<add new entry>"@
}

/// Empties the entry list.
pub fn clear_entry_view(view: &mut SelectView<EntryItem>)
    ensures
        entry_rows(*final(view)) == Seq::<EntryRow>::empty(),
{
    entry_view_clear(view)
}

/// Shows `entry` on top of the entry list, labelled with its title.
pub fn load_to_entry_view(view: &mut SelectView<EntryItem>, entry: Entry)
    ensures
        entry_rows(*final(view)) == rows_after_load(entry_rows(*old(view)), entry),
{
    let label = entry.title.clone();
    entry_view_insert(view, 0, label, EntryItem::Entry(entry));
}

/// Shows `board` on top of the board list, labelled with its name.
pub fn load_to_board_view(view: &mut SelectView<BoardItem>, board: Board)
    ensures
        board_rows(*final(view)) == board_rows(*old(view)).insert(
            0,
            (board.name@, BoardItem::Board(board)),
        ),
{
    let label = board.name.clone();
    board_view_insert(view, 0, label, BoardItem::Board(board));
}

/// Puts the row that adds an entry to board `board_id` at the end of the entry list.
pub fn add_new_entry_row(view: &mut SelectView<EntryItem>, board_id: i64)
    ensures
        entry_rows(*final(view)) == entry_rows(*old(view)).push(
            (add_entry_label(), EntryItem::Add(board_id)),
        ),
{
    let mut label = String::new();
    label.append("<add new entry>");
    proof {
        reveal_strlit("<add new entry>");
        assert(label@ =~= add_entry_label());
    }
    entry_view_push(view, label, EntryItem::Add(board_id));
}

/// Finds the first row of the list that holds the entry with id `id`.
fn find_entry_row(view: &SelectView<EntryItem>, id: i64) -> (r: Option<usize>)
    ensures
        match r {
            Some(k) => is_first_entry_row(entry_rows(*view), k as int, id),
            None => forall|j: int|
                0 <= j < entry_rows(*view).len() ==> !holds_entry(#[trigger] entry_rows(*view)[j].1, id),
        },
{
    let n = entry_view_len(view);
    let mut i: usize = 0;
    while i < n
        invariant
            n == entry_rows(*view).len(),
            i <= n,
            forall|j: int| 0 <= j < i ==> !holds_entry(#[trigger] entry_rows(*view)[j].1, id),
        decreases n - i,
    {
        let row = entry_view_get(view, i);
        match row {
            Some(pair) => {
                let found = match pair.1 {
                    EntryItem::Entry(e) => e.entry_id == id,
                    EntryItem::Add(_) => false,
                };
                if found {
                    return Some(i);
                }
            },
            None => {},
        }
        i = i + 1;
    }
    None
}

proof fn lemma_first_entry_row_unique(rows: Seq<EntryRow>, k1: int, k2: int, id: i64)
    requires
        is_first_entry_row(rows, k1, id),
        is_first_entry_row(rows, k2, id),
    ensures
        k1 == k2,
{
    if k1 < k2 {
        assert(!holds_entry(rows[k1].1, id));
    } else if k2 < k1 {
        assert(!holds_entry(rows[k2].1, id));
    }
}

/// Replaces, in the entry list, the first row that holds an entry with
/// `entry`'s id by a row showing `entry`, at the same place; the other rows stay.
/// Fails with `NotFound`, changing nothing, when no row holds such an entry.
pub fn replace_in_entry_view(view: &mut SelectView<EntryItem>, entry: Entry) -> (r: Result<(), ViewError>)
    ensures
        r is Ok <==> rows_after_replace(entry_rows(*old(view)), entry) is Some,
        match rows_after_replace(entry_rows(*old(view)), entry) {
            Some(rows) => entry_rows(*final(view)) == rows,
            None => entry_rows(*final(view)) == entry_rows(*old(view)),
        },
{
    let ghost before = entry_rows(*view);
    let id = entry.entry_id;
    match find_entry_row(view, id) {
        Some(index) => {
            let label = entry.title.clone();
            entry_view_remove(view, index);
            entry_view_insert(view, index, label, EntryItem::Entry(entry));
            proof {
                let k = choose|k: int| is_first_entry_row(before, k, id);
                lemma_first_entry_row_unique(before, k, index as int, id);
                assert(entry_rows(*view) =~= before.update(index as int, entry_row(entry)));
            }
            Ok(())
        },
        None => {
            proof {
                if exists|k: int| is_first_entry_row(before, k, id) {
                    let k = choose|k: int| is_first_entry_row(before, k, id);
                    assert(!holds_entry(before[k].1, id));
                }
            }
            Err(ViewError::NotFound)
        },
    }
}

/// The text shown under the entry list for the selected row: the entry's
/// description, or a hint on the row that adds entries.
pub fn entry_item_description(item: &EntryItem) -> (s: String)
    ensures
        match item {
            EntryItem::Entry(e) => s@ == e.description@,
            EntryItem::Add(_) => s@ == "With this button you are able to create new entries."@,
        },
{
    match item {
        EntryItem::Entry(e) => e.description.clone(),
        EntryItem::Add(_) => {
            let mut s = String::new();
            s.append("With this button you are able to create new entries.");
            proof {
                reveal_strlit("With this button you are able to create new entries.");
            }
            s
        },
    }
}

/// Replacing right after loading an entry with the same id rewrites the row
/// just loaded: the list is as if the new version had been loaded instead.
pub proof fn lemma_replace_after_load(rows: Seq<EntryRow>, loaded: Entry, updated: Entry)
    requires
        loaded.entry_id == updated.entry_id,
    ensures
        rows_after_replace(rows_after_load(rows, loaded), updated) == Some(
            rows_after_load(rows, updated),
        ),
{
    let after = rows_after_load(rows, loaded);
    assert(is_first_entry_row(after, 0, updated.entry_id));
    let k = choose|k: int| is_first_entry_row(after, k, updated.entry_id);
    lemma_first_entry_row_unique(after, k, 0, updated.entry_id);
    assert(after.update(0, entry_row(updated)) =~= rows_after_load(rows, updated));
}

/// Replacing keeps the number of rows, and every row but the replaced one.
pub proof fn lemma_replace_keeps_other_rows(rows: Seq<EntryRow>, entry: Entry)
    ensures
        rows_after_replace(rows, entry) matches Some(new_rows) ==> {
            &&& new_rows.len() == rows.len()
            &&& exists|k: int|
                is_first_entry_row(rows, k, entry.entry_id) && new_rows[k] == entry_row(entry) && (
                forall|j: int| 0 <= j < rows.len() && j != k ==> #[trigger] new_rows[j] == rows[j])
        },
{
    if exists|k: int| is_first_entry_row(rows, k, entry.entry_id) {
        let k = choose|k: int| is_first_entry_row(rows, k, entry.entry_id);
        let new_rows = rows.update(k, entry_row(entry));
        assert(is_first_entry_row(rows, k, entry.entry_id) && new_rows[k] == entry_row(entry) && (
        forall|j: int| 0 <= j < rows.len() && j != k ==> #[trigger] new_rows[j] == rows[j]));
    }
}

/// Replacing succeeds exactly when some row holds an entry with the new
/// entry's id, wherever that row stands: the first such row, at any place
/// `k`, then shows the new entry with its title as label, and no other row
/// changes. When no row holds such an entry, nothing is replaced.
pub proof fn lemma_replace_meaning(rows: Seq<EntryRow>, entry: Entry, k: int)
    ensures
        (0 <= k < rows.len() && (rows[k].1 matches EntryItem::Entry(e) && e.entry_id
            == entry.entry_id) && (forall|j: int|
            0 <= j < k ==> !(#[trigger] rows[j].1 matches EntryItem::Entry(e) && e.entry_id
                == entry.entry_id))) ==> rows_after_replace(rows, entry) == Some(
            rows.update(k, (entry.title@, EntryItem::Entry(entry))),
        ),
        (forall|j: int|
            0 <= j < rows.len() ==> !(#[trigger] rows[j].1 matches EntryItem::Entry(e) && e.entry_id
                == entry.entry_id)) ==> rows_after_replace(rows, entry) is None,
{
    if 0 <= k < rows.len() && holds_entry(rows[k].1, entry.entry_id) && (forall|j: int|
        0 <= j < k ==> !holds_entry(#[trigger] rows[j].1, entry.entry_id)) {
        assert(is_first_entry_row(rows, k, entry.entry_id));
        let k2 = choose|k2: int| is_first_entry_row(rows, k2, entry.entry_id);
        lemma_first_entry_row_unique(rows, k2, k, entry.entry_id);
    }
    if forall|j: int| 0 <= j < rows.len() ==> !holds_entry(#[trigger] rows[j].1, entry.entry_id) {
        if exists|k2: int| is_first_entry_row(rows, k2, entry.entry_id) {
            let k2 = choose|k2: int| is_first_entry_row(rows, k2, entry.entry_id);
            assert(!holds_entry(rows[k2].1, entry.entry_id));
        }
    }
}

/// Loading an entry puts a row labelled with its title on top and moves
/// every other row one place down, keeping their order.
pub proof fn lemma_load_meaning(rows: Seq<EntryRow>, entry: Entry)
    ensures
        rows_after_load(rows, entry).len() == rows.len() + 1,
        rows_after_load(rows, entry)[0] == (entry.title@, EntryItem::Entry(entry)),
        forall|j: int| 0 <= j < rows.len() ==> #[trigger] rows_after_load(rows, entry)[j + 1] == rows[j],
        add_entry_label() == "<add new entry>"@,
{
}

/// A list that was just cleared holds no entry to replace.
pub proof fn lemma_replace_in_cleared(entry: Entry)
    ensures
        rows_after_replace(Seq::<EntryRow>::empty(), entry) is None,
{
}

} // verus!
