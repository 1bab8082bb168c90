use cursive::views::SelectView;
use yap_frontend::model::{
    board_api_to_board, entry_api_from_form, entry_api_to_entry, new_board_api,
    representable_timestamp, try_board_api_to_board, try_entry_api_to_entry, BoardAPI, Entry,
    EntryAPI,
};
use yap_frontend::views::{
    add_new_entry_row, clear_entry_view, entry_item_description, load_to_board_view,
    load_to_entry_view, replace_in_entry_view, BoardItem, EntryItem, ViewError,
};

fn entry(id: i64, title: &str, description: &str) -> Entry {
    Entry {
        entry_id: id,
        creator_id: 3,
        create_date: 1_600_000_000,
        due_date: 0,
        title: title.to_string(),
        description: description.to_string(),
    }
}

fn rows(view: &SelectView<EntryItem>) -> Vec<(String, Option<i64>, Option<String>)> {
    view.iter()
        .map(|(label, item)| match item {
            EntryItem::Entry(e) => (label.to_string(), Some(e.entry_id), Some(e.title.clone())),
            EntryItem::Add(b) => (label.to_string(), None, Some(format!("add {}", b))),
        })
        .collect()
}

#[test]
fn loading_puts_entries_on_top() {
    let mut view: SelectView<EntryItem> = SelectView::new();
    load_to_entry_view(&mut view, entry(1, "first", ""));
    load_to_entry_view(&mut view, entry(2, "second", ""));
    add_new_entry_row(&mut view, 8);
    let r = rows(&view);
    assert_eq!(r.len(), 3);
    assert_eq!(r[0], ("second".to_string(), Some(2), Some("second".to_string())));
    assert_eq!(r[1], ("first".to_string(), Some(1), Some("first".to_string())));
    assert_eq!(r[2], ("<add new entry>".to_string(), None, Some("add 8".to_string())));
}

#[test]
fn replacing_keeps_the_place() {
    let mut view: SelectView<EntryItem> = SelectView::new();
    load_to_entry_view(&mut view, entry(1, "a", ""));
    load_to_entry_view(&mut view, entry(2, "b", ""));
    load_to_entry_view(&mut view, entry(3, "c", ""));
    add_new_entry_row(&mut view, 8);
    assert_eq!(replace_in_entry_view(&mut view, entry(2, "b2", "new")), Ok(()));
    let r = rows(&view);
    assert_eq!(r.len(), 4);
    assert_eq!(r[0].1, Some(3));
    assert_eq!(r[1], ("b2".to_string(), Some(2), Some("b2".to_string())));
    assert_eq!(r[2].1, Some(1));
    assert_eq!(r[3].0, "<add new entry>");
}

#[test]
fn replacing_a_missing_entry_changes_nothing() {
    let mut view: SelectView<EntryItem> = SelectView::new();
    load_to_entry_view(&mut view, entry(1, "a", ""));
    add_new_entry_row(&mut view, 1);
    let before = rows(&view);
    assert_eq!(replace_in_entry_view(&mut view, entry(9, "z", "")), Err(ViewError::NotFound));
    assert_eq!(rows(&view), before);
}

#[test]
fn replacing_touches_only_the_first_match() {
    let mut view: SelectView<EntryItem> = SelectView::new();
    load_to_entry_view(&mut view, entry(5, "old lower", ""));
    load_to_entry_view(&mut view, entry(5, "old upper", ""));
    assert_eq!(replace_in_entry_view(&mut view, entry(5, "new", "")), Ok(()));
    let r = rows(&view);
    assert_eq!(r[0].0, "new");
    assert_eq!(r[1].0, "old lower");
}

#[test]
fn replace_right_after_load_rewrites_that_row() {
    let mut view: SelectView<EntryItem> = SelectView::new();
    load_to_entry_view(&mut view, entry(7, "x", ""));
    load_to_entry_view(&mut view, entry(4, "draft", ""));
    assert_eq!(replace_in_entry_view(&mut view, entry(4, "final", "")), Ok(()));
    let r = rows(&view);
    assert_eq!(r[0].0, "final");
    assert_eq!(r[1].0, "x");
    assert_eq!(r.len(), 2);
}

#[test]
fn clearing_empties_the_list() {
    let mut view: SelectView<EntryItem> = SelectView::new();
    load_to_entry_view(&mut view, entry(1, "a", ""));
    clear_entry_view(&mut view);
    assert_eq!(view.len(), 0);
    assert_eq!(replace_in_entry_view(&mut view, entry(1, "a", "")), Err(ViewError::NotFound));
}

#[test]
fn boards_load_on_top_of_the_add_row() {
    let mut view: SelectView<BoardItem> = SelectView::new();
    view.add_item("<add new board>", BoardItem::Add);
    let board = board_api_to_board(new_board_api("Groceries"));
    load_to_board_view(&mut view, board);
    assert_eq!(view.len(), 2);
    let (label, item) = view.get_item(0).unwrap();
    assert_eq!(label, "Groceries");
    assert!(matches!(item, BoardItem::Board(b) if b.name == "Groceries"));
    assert_eq!(view.get_item(1).unwrap().0, "<add new board>");
}

#[test]
fn descriptions_of_rows() {
    assert_eq!(entry_item_description(&EntryItem::Entry(entry(1, "t", "buy milk"))), "buy milk");
    assert_eq!(
        entry_item_description(&EntryItem::Add(3)),
        "With this button you are able to create new entries."
    );
}

fn entry_api(create: i64, due: i64) -> EntryAPI {
    EntryAPI {
        entryID: 11,
        creatorID: 2,
        createDate: create,
        dueDate: due,
        title: "T".to_string(),
        description: "D".to_string(),
    }
}

#[test]
fn entries_from_the_backend() {
    assert!(representable_timestamp(0));
    assert!(representable_timestamp(1_700_000_000));
    assert!(!representable_timestamp(i64::MAX));
    assert!(!representable_timestamp(i64::MIN));
    let e = try_entry_api_to_entry(entry_api(1_700_000_000, 0)).unwrap();
    assert_eq!(e.entry_id, 11);
    assert_eq!(e.creator_id, 2);
    assert_eq!(e.create_date, 1_700_000_000);
    assert_eq!(e.due_date, 0);
    assert_eq!(e.title, "T");
    assert_eq!(e.description, "D");
    assert!(try_entry_api_to_entry(entry_api(i64::MAX, 0)).is_none());
    assert!(try_entry_api_to_entry(entry_api(0, i64::MIN)).is_none());
    let e = entry_api_to_entry(entry_api(5, 6));
    assert_eq!((e.create_date, e.due_date), (5, 6));
}

#[test]
fn boards_from_the_backend() {
    let api = BoardAPI { boardID: 4, name: "N".to_string(), createDate: 99, creatorID: 1 };
    let b = try_board_api_to_board(api).unwrap();
    assert_eq!((b.board_id, b.name.as_str(), b.create_date, b.creator_id), (4, "N", 99, 1));
    let api = BoardAPI { boardID: 4, name: "N".to_string(), createDate: i64::MAX, creatorID: 1 };
    assert!(try_board_api_to_board(api).is_none());
}

#[test]
fn new_boards_carry_only_the_name() {
    let b = new_board_api("Work");
    assert_eq!((b.boardID, b.name.as_str(), b.createDate, b.creatorID), (0, "Work", 0, 0));
}

#[test]
fn entries_from_the_form() {
    let e = entry_api_from_form(0, "t".to_string(), "d".to_string(), false, 1_700_000_000);
    assert_eq!((e.entryID, e.creatorID, e.createDate, e.dueDate), (0, 0, 0, 0));
    assert_eq!((e.title.as_str(), e.description.as_str()), ("t", "d"));
    let e = entry_api_from_form(9, "t".to_string(), "d".to_string(), true, 1_700_000_000);
    assert_eq!((e.entryID, e.dueDate), (9, 1_700_000_000));
}
