use vstd::prelude::*;

use crate::text::{decimal, int_decimal};

verus! {

/// The address of the backend.
pub open spec fn base_url() -> Seq<char> {
    "https://backend.yap.dragoncave.dev"@
}

/// The address of `path` on the backend.
pub open spec fn url_of(path: Seq<char>) -> Seq<char> {
    base_url() + path
}

/// The name of the file, in the configuration directory, that keeps the session.
pub fn token_file_name() -> (s: &'static str)
    ensures
        s@ == "token.json"@,
{
    "token.json"
}

/// The name of the theme file in the configuration directory.
pub fn theme_file_name() -> (s: &'static str)
    ensures
        s@ == "theme.toml"@,
{
    "theme.toml"
}

fn url(path: &str) -> (s: String)
    ensures
        s@ == url_of(path@),
{
    let mut s = String::new();
    s.append("https://backend.yap.dragoncave.dev");
    s.append(path);
    s
}

fn url_with_id(prefix: &str, id: i64, suffix: &str) -> (s: String)
    ensures
        s@ == url_of(prefix@ + int_decimal(id as int) + suffix@),
{
    let mut s = String::new();
    s.append("https://backend.yap.dragoncave.dev");
    s.append(prefix);
    let digits = decimal(id);
    s.append(digits.as_str());
    s.append(suffix);
    proof {
        assert(s@ =~= url_of(prefix@ + int_decimal(id as int) + suffix@));
    }
    s
}

/// Where boards are created.
pub fn boards_url() -> (s: String)
    ensures
        s@ == url_of("/boards"@),
{
    url("/boards")
}

/// The ids of the boards of the logged-in user.
pub fn user_boards_url() -> (s: String)
    ensures
        s@ == url_of("/boards/user"@),
{
    url("/boards/user")
}

/// A single board.
pub fn board_url(board_id: i64) -> (s: String)
    ensures
        s@ == url_of("/boards/"@ + int_decimal(board_id as int)),
{
    let s = url_with_id("/boards/", board_id, "");
    proof {
        reveal_strlit("");
        assert(("/boards/"@ + int_decimal(board_id as int) + ""@) =~= ("/boards/"@ + int_decimal(
            board_id as int,
        )));
    }
    s
}

/// The ids of the entries of a board.
pub fn board_entries_url(board_id: i64) -> (s: String)
    ensures
        s@ == url_of("/boards/"@ + int_decimal(board_id as int) + "/entries"@),
{
    url_with_id("/boards/", board_id, "/entries")
}

/// Where entries of a board are created.
pub fn board_new_entry_url(board_id: i64) -> (s: String)
    ensures
        s@ == url_of("/boards/"@ + int_decimal(board_id as int) + "/entry"@),
{
    url_with_id("/boards/", board_id, "/entry")
}

/// A single entry, to read or to change.
pub fn entry_url(entry_id: i64) -> (s: String)
    ensures
        s@ == url_of("/entry/"@ + int_decimal(entry_id as int)),
{
    let s = url_with_id("/entry/", entry_id, "");
    proof {
        reveal_strlit("");
        assert(("/entry/"@ + int_decimal(entry_id as int) + ""@) =~= ("/entry/"@ + int_decimal(
            entry_id as int,
        )));
    }
    s
}

/// Where a login asks for a session token.
pub fn token_url() -> (s: String)
    ensures
        s@ == url_of("/security/token"@),
{
    url("/security/token")
}

/// Where a saved session token is checked.
pub fn token_check_url() -> (s: String)
    ensures
        s@ == url_of("/security/token/checkValid"@),
{
    url("/security/token/checkValid")
}

/// Where accounts are created.
pub fn user_url() -> (s: String)
    ensures
        s@ == url_of("/user"@),
{
    url("/user")
}

/// The body of a login request. The values are put in as they are, without JSON escaping.
pub fn login_body(email: &str, password: &str) -> (s: String)
    ensures
        s@ == "{\"emailAddress\":\""@ + email@ + "\",\"password\":\""@ + password@ + "\"}"@,
{
    let mut s = String::new();
    s.append("{\"emailAddress\":\"");
    s.append(email);
    s.append("\",\"password\":\"");
    s.append(password);
    s.append("\"}");
    s
}

/// The body of a registration request. The values are put in as they are, without JSON escaping.
pub fn register_body(username: &str, email: &str, password: &str) -> (s: String)
    ensures
        s@ == "{\"username\":\""@ + username@ + "\",\"emailAddress\":\""@ + email@
            + "\",\"password\":\""@ + password@ + "\"}"@,
{
    let mut s = String::new();
    s.append("{\"username\":\"");
    s.append(username);
    s.append("\",\"emailAddress\":\"");
    s.append(email);
    s.append("\",\"password\":\"");
    s.append(password);
    s.append("\"}");
    s
}

} // verus!
