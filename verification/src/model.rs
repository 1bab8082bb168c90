use vstd::prelude::*;

verus! {

/// A board as the backend sends and receives it.
#[allow(non_snake_case)]
#[derive(Debug, Clone)]
pub struct BoardAPI {
    pub boardID: i64,
    pub name: String,
    pub createDate: i64,
    /// The user that created the board.
    pub creatorID: i64,
}

/// A user as the backend sends it.
#[allow(non_snake_case)]
#[derive(Debug, Clone)]
pub struct UserAPI {
    pub userID: i64,
    pub username: String,
    pub createDate: i64,
    pub lastLogin: i64,
    pub emailAddress: String,
}

/// An entry of a board as the backend sends and receives it; a due date of 0 means none.
#[allow(non_snake_case)]
#[derive(Debug, Clone)]
pub struct EntryAPI {
    pub entryID: i64,
    pub creatorID: i64,
    pub createDate: i64,
    pub dueDate: i64,
    pub title: String,
    pub description: String,
}

/// A board as the client shows it; dates are UNIX timestamps in seconds.
/// `try_board_api_to_board` only builds boards whose dates chrono can represent.
#[derive(Debug, Clone)]
pub struct Board {
    pub board_id: i64,
    pub name: String,
    pub create_date: i64,
    pub creator_id: i64,
}

/// A user as the client keeps it; dates are UNIX timestamps in seconds.
#[derive(Debug, Clone)]
pub struct User {
    pub user_id: i64,
    pub name: String,
    pub create_date: i64,
    pub last_login: i64,
    pub email_address: String,
}

/// An entry as the client shows it; dates are UNIX timestamps in seconds, and
/// a due date of 0 means none. `try_entry_api_to_entry` only builds entries
/// whose dates chrono can represent.
#[derive(Debug, Clone)]
pub struct Entry {
    pub entry_id: i64,
    pub creator_id: i64,
    pub create_date: i64,
    pub due_date: i64,
    pub title: String,
    pub description: String,
}

/// The saved session: the account's mail address and its token.
#[derive(Debug, Clone)]
pub struct TokenFile {
    pub user_mail: String,
    pub token: String,
}

/// The first instant chrono represents: January 1, 262144 BCE, 00:00:00 UTC.
pub open spec fn first_representable_second() -> int {
    -8334601228800
}

/// The last instant chrono represents: December 31, 262142 CE, 23:59:59 UTC.
pub open spec fn last_representable_second() -> int {
    8210266876799
}

/// Whether chrono can represent the instant `secs` seconds after the UNIX epoch.
pub open spec fn timestamp_representable(secs: i64) -> bool {
    first_representable_second() <= secs <= last_representable_second()
}

/// Calls `chrono::DateTime::from_timestamp(secs, 0)` and tells whether it gave
/// a date-time: exactly when the day lies between chrono's first and last
/// date (`NaiveDate::MIN` and `NaiveDate::MAX`).
#[verifier::external_body]
fn timestamp_in_range(secs: i64) -> (r: bool)
    ensures
        r == timestamp_representable(secs),
{
    chrono::DateTime::from_timestamp(secs, 0).is_some()
}

/// Whether chrono can represent the instant `secs` seconds after the UNIX epoch.
pub fn representable_timestamp(secs: i64) -> (r: bool)
    ensures
        r == timestamp_representable(secs),
{
    timestamp_in_range(secs)
}

/// Turns an entry of the backend into the entry the client shows.
pub fn entry_api_to_entry(entry_api: EntryAPI) -> (e: Entry)
    requires
        timestamp_representable(entry_api.createDate),
        timestamp_representable(entry_api.dueDate),
    ensures
        e.entry_id == entry_api.entryID,
        e.creator_id == entry_api.creatorID,
        e.create_date == entry_api.createDate,
        e.due_date == entry_api.dueDate,
        e.title == entry_api.title,
        e.description == entry_api.description,
{
    Entry {
        entry_id: entry_api.entryID,
        creator_id: entry_api.creatorID,
        create_date: entry_api.createDate,
        due_date: entry_api.dueDate,
        title: entry_api.title,
        description: entry_api.description,
    }
}

/// Turns an entry of the backend into the entry the client shows, or `None`
/// when one of its dates lies outside chrono's range.
pub fn try_entry_api_to_entry(entry_api: EntryAPI) -> (r: Option<Entry>)
    ensures
        r is Some <==> timestamp_representable(entry_api.createDate) && timestamp_representable(
            entry_api.dueDate,
        ),
        r matches Some(e) ==> {
            &&& e.entry_id == entry_api.entryID
            &&& e.creator_id == entry_api.creatorID
            &&& e.create_date == entry_api.createDate
            &&& e.due_date == entry_api.dueDate
            &&& e.title == entry_api.title
            &&& e.description == entry_api.description
        },
{
    if representable_timestamp(entry_api.createDate) && representable_timestamp(entry_api.dueDate) {
        Some(entry_api_to_entry(entry_api))
    } else {
        None
    }
}

/// Turns a board of the backend into the board the client shows.
pub fn board_api_to_board(board_api: BoardAPI) -> (b: Board)
    requires
        timestamp_representable(board_api.createDate),
    ensures
        b.board_id == board_api.boardID,
        b.name == board_api.name,
        b.create_date == board_api.createDate,
        b.creator_id == board_api.creatorID,
{
    Board {
        board_id: board_api.boardID,
        name: board_api.name,
        create_date: board_api.createDate,
        creator_id: board_api.creatorID,
    }
}

/// Turns a board of the backend into the board the client shows, or `None`
/// when its creation date lies outside chrono's range.
pub fn try_board_api_to_board(board_api: BoardAPI) -> (r: Option<Board>)
    ensures
        r is Some <==> timestamp_representable(board_api.createDate),
        r matches Some(b) ==> {
            &&& b.board_id == board_api.boardID
            &&& b.name == board_api.name
            &&& b.create_date == board_api.createDate
            &&& b.creator_id == board_api.creatorID
        },
{
    if representable_timestamp(board_api.createDate) {
        Some(board_api_to_board(board_api))
    } else {
        None
    }
}

/// The board sent to create a new one: only the name is set, the backend fills in the rest.
pub fn new_board_api(name: &str) -> (b: BoardAPI)
    ensures
        b.boardID == 0,
        b.name@ == name@,
        b.createDate == 0,
        b.creatorID == 0,
{
    BoardAPI { boardID: 0, name: name.to_owned(), createDate: 0, creatorID: 0 }
}

/// Whether `e` is the entry the edit form sends.
pub open spec fn is_form_entry(
    e: EntryAPI,
    entry_id: i64,
    title: Seq<char>,
    description: Seq<char>,
    due_enabled: bool,
    due_timestamp: i64,
) -> bool {
    &&& e.entryID == entry_id
    &&& e.creatorID == 0
    &&& e.createDate == 0
    &&& e.dueDate == (if due_enabled { due_timestamp } else { 0 })
    &&& e.title@ == title
    &&& e.description@ == description
}

/// The form's entry keeps the id, title and description it is given, is sent
/// with no creator and no creation date, and carries a due date only when
/// the box is ticked: unticked, the due date is 0 whatever the pickers show.
pub proof fn lemma_form_entry_meaning(
    e: EntryAPI,
    entry_id: i64,
    title: Seq<char>,
    description: Seq<char>,
    due_enabled: bool,
    due_timestamp: i64,
)
    requires
        is_form_entry(e, entry_id, title, description, due_enabled, due_timestamp),
    ensures
        e.entryID == entry_id,
        e.creatorID == 0,
        e.createDate == 0,
        !due_enabled ==> e.dueDate == 0,
        due_enabled ==> e.dueDate == due_timestamp,
        e.title@ == title,
        e.description@ == description,
{
}

/// The entry sent from the edit form: `entry_id` is 0 for a new entry, and the
/// due date is `due_timestamp` only when the due-date box is ticked, else 0.
pub fn entry_api_from_form(
    entry_id: i64,
    title: String,
    description: String,
    due_enabled: bool,
    due_timestamp: i64,
) -> (e: EntryAPI)
    ensures
        is_form_entry(e, entry_id, title@, description@, due_enabled, due_timestamp),
{
    let due_date = if due_enabled { due_timestamp } else { 0 };
    EntryAPI { entryID: entry_id, creatorID: 0, createDate: 0, dueDate: due_date, title, description }
}

} // verus!
