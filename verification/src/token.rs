use vstd::prelude::*;

use crate::model::TokenFile;

verus! {

/// Why a saved session could not be resumed.
#[derive(Debug, Clone, Copy, PartialEq, Eq, Structural)]
pub enum TokenLoadError {
    /// The backend no longer accepts the saved token.
    TokenExpired,
    /// No session file exists.
    FileNotFound,
    /// The session file could not be read or does not hold a session.
    FileNotReadable,
}

/// What reading the session file gave.
#[derive(Debug, Clone)]
pub enum SavedToken {
    /// The configuration directory holds no session file.
    NoFile,
    /// The file could not be read, or its content is not a session.
    Unreadable,
    /// The file holds this session.
    Read(TokenFile),
}

/// The boolean that a text spells, as `str::parse::<bool>` reads it:
/// exactly "true" or "false".
pub open spec fn parsed_bool(s: Seq<char>) -> Option<bool> {
    if s == "true"@ {
        Some(true)
    } else if s == "false"@ {
        Some(false)
    } else {
        None
    }
}

/// Reads "true" or "false"; any other text is no boolean.
pub fn parse_bool(s: &String) -> (r: Option<bool>)
    ensures
        r == parsed_bool(s@),
{
    let t = "true".to_owned();
    let f = "false".to_owned();
    if *s == t {
        Some(true)
    } else if *s == f {
        Some(false)
    } else {
        proof {
            reveal_strlit("true");
            reveal_strlit("false");
        }
        None
    }
}

/// Whether a saved token is still valid, from the backend's reply to the
/// check: `None` when the check could not be sent. Only a reply that reads
/// as the boolean true counts as valid.
pub fn token_check_verdict(reply: Option<String>) -> (valid: bool)
    ensures
        valid == (reply matches Some(text) && parsed_bool(text@) == Some(true)),
{
    match reply {
        Some(text) => match parse_bool(&text) {
            Some(status) => status,
            None => false,
        },
        None => false,
    }
}

/// Decides whether a saved session can be resumed: it must exist, be
/// readable, and its token must still be valid (`token_still_valid`, which
/// only counts when the file was read).
pub fn load_token(saved: SavedToken, token_still_valid: bool) -> (r: Result<TokenFile, TokenLoadError>)
    ensures
        match saved {
            SavedToken::NoFile => r == Err::<TokenFile, TokenLoadError>(TokenLoadError::FileNotFound),
            SavedToken::Unreadable => r == Err::<TokenFile, TokenLoadError>(
                TokenLoadError::FileNotReadable,
            ),
            SavedToken::Read(file) => if token_still_valid {
                r == Ok::<TokenFile, TokenLoadError>(file)
            } else {
                r == Err::<TokenFile, TokenLoadError>(TokenLoadError::TokenExpired)
            },
        },
{
    match saved {
        SavedToken::NoFile => Err(TokenLoadError::FileNotFound),
        SavedToken::Unreadable => Err(TokenLoadError::FileNotReadable),
        SavedToken::Read(file) => if token_still_valid {
            Ok(file)
        } else {
            Err(TokenLoadError::TokenExpired)
        },
    }
}

/// The question asked before resuming a saved session.
pub fn session_prompt(user_mail: &str) -> (s: String)
    ensures
        s@ == "Is "@ + user_mail@ + " you?"@,
{
    let mut s = String::new();
    s.append("Is ");
    s.append(user_mail);
    s.append(" you?");
    s
}

/// The saved session that is kept when "Remember Me" is ticked.
pub fn session_to_save(user_mail: &str, token: &str) -> (f: TokenFile)
    ensures
        f.user_mail@ == user_mail@,
        f.token@ == token@,
{
    TokenFile { user_mail: user_mail.to_owned(), token: token.to_owned() }
}

/// What becomes of a new session after a login.
#[derive(Debug, Clone, Copy, PartialEq, Eq, Structural)]
pub enum SessionSaving {
    /// "Remember Me" is ticked: the session goes into the session file.
    Save,
    /// "Remember Me" is not ticked: the session is not kept.
    Skip,
    /// The login came from a screen without a "Remember Me" box.
    CheckboxMissing,
}

/// Decides from the "Remember Me" box (`None` when the screen has none)
/// whether the new session is saved.
pub fn session_saving(remember_me: Option<bool>) -> (s: SessionSaving)
    ensures
        s == (match remember_me {
            None => SessionSaving::CheckboxMissing,
            Some(true) => SessionSaving::Save,
            Some(false) => SessionSaving::Skip,
        }),
{
    match remember_me {
        None => SessionSaving::CheckboxMissing,
        Some(ticked) => if ticked {
            SessionSaving::Save
        } else {
            SessionSaving::Skip
        },
    }
}

/// The popup (title, message) shown after a login about the session file,
/// if any: when there was no "Remember Me" box, or when the session was to be
/// saved but the file could not be opened (`file_opened` only counts then).
pub fn session_saving_popup(saving: SessionSaving, file_opened: bool) -> (r: Option<(&'static str, &'static str)>)
    ensures
        saving == SessionSaving::CheckboxMissing ==> (r matches Some(p) && p.0@ == "No success!"@
            && p.1@ == "file not created"@),
        saving == SessionSaving::Save && !file_opened ==> (r matches Some(p) && p.0@ == "Remember Me"@
            && p.1@ == "Remember Me didn't work :("@),
        saving == SessionSaving::Skip || (saving == SessionSaving::Save && file_opened) ==> r is None,
{
    match saving {
        SessionSaving::CheckboxMissing => Some(("No success!", "file not created")),
        SessionSaving::Save => if file_opened {
            None
        } else {
            Some(("Remember Me", "Remember Me didn't work :("))
        },
        SessionSaving::Skip => None,
    }
}

/// A session is resumed only when the backend's reply to the check reads as true.
pub proof fn lemma_resume_needs_true_reply(reply: Option<String>)
    ensures
        (reply matches Some(text) && parsed_bool(text@) == Some(true)) <==> (reply matches Some(text)
            && text@ == "true"@),
{
    reveal_strlit("true");
    reveal_strlit("false");
}

} // verus!
