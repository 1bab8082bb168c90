use vstd::prelude::*;
use vstd::utf8::encode_utf8;

verus! {

/// Why a registration form was refused.
#[derive(Debug, Clone, Copy, PartialEq, Eq, Structural)]
pub enum RegisterInvalid {
    InvalidUsername,
    InvalidEmail,
    InvalidPassword,
}

/// The e-mail pattern could not be compiled, so no address could be checked.
#[derive(Debug, Clone, Copy, PartialEq, Eq, Structural)]
pub struct InvalidPattern;

/// The pattern that a registration e-mail address must contain a match of.
pub open spec fn email_pattern() -> Seq<char> {
    "(?:[a-z0-9!#$%&'*+/=?^_`{|}~-]+(?:\\.[a-z0-9!#$%&'*+/=?^_`{|}~-]+)*|\"(?:[\\x01-\\x08\\x0b\\x0c\\x0e-\\x1f\\x21\\x23-\\x5b\\x5d-\\x7f]|\\\\[\\x01-\\x09\\x0b\\x0c\\x0e-\\x7f])*\")@(?:(?:[a-z0-9](?:[a-z0-9-]*[a-z0-9])?\\.)+[a-z0-9](?:[a-z0-9-]*[a-z0-9])?|\\[(?:(?:25[0-5]|2[0-4][0-9]|[01]?[0-9][0-9]?)\\.){3}(?:25[0-5]|2[0-4][0-9]|[01]?[0-9][0-9]?|[a-z0-9-]*[a-z0-9]:(?:[\\x01-\\x08\\x0b\\x0c\\x0e-\\x1f\\x21-\\x5a\\x53-\\x7f]|\\\\[\\x01-\\x09\\x0b\\x0c\\x0e-\\x7f])+)\\])"@
}

/// Whether `regex::Regex::new` accepts `pattern`.
pub uninterp spec fn regex_compiles(pattern: Seq<char>) -> bool;

/// Whether `regex::Regex::is_match` finds a match of `pattern` somewhere in `haystack`.
pub uninterp spec fn regex_matches(pattern: Seq<char>, haystack: Seq<char>) -> bool;

#[verifier::external_type_specification]
#[verifier::external_body]
pub struct ExRegexError(regex::Error);

/// Compiles `pattern` with `regex::Regex::new` and, when that succeeds, asks
/// `Regex::is_match` whether `haystack` holds a match. The contract names both
/// answers; what the regex engine matches is not restated here.
#[verifier::external_body]
fn regex_is_match(pattern: &str, haystack: &str) -> (r: Result<bool, regex::Error>)
    ensures
        r is Ok <==> regex_compiles(pattern@),
        r matches Ok(b) ==> b == regex_matches(pattern@, haystack@),
{
    match regex::Regex::new(pattern) {
        Ok(re) => Ok(re.is_match(haystack)),
        Err(e) => Err(e),
    }
}

/// The length of a string in UTF-8 bytes, as `str::len` reports it.
pub open spec fn byte_len(s: Seq<char>) -> int {
    (encode_utf8(s).len() as usize) as int
}

/// A username is taken when it is not empty and has at most 32 bytes.
pub open spec fn username_ok(username: Seq<char>) -> bool {
    username.len() != 0 && byte_len(username) <= 32
}

/// A password is taken when it has 10 to 1024 bytes and was typed the same twice.
pub open spec fn password_ok(password: Seq<char>, password_check: Seq<char>) -> bool {
    10 <= byte_len(password) <= 1024 && password == password_check
}

/// The verdict on a registration form, given whether the e-mail address holds
/// a match of the e-mail pattern. The username is judged first, then the
/// address, then the password.
pub open spec fn registration_verdict(
    username: Seq<char>,
    email: Seq<char>,
    password: Seq<char>,
    password_check: Seq<char>,
    email_matches: bool,
) -> Result<(), RegisterInvalid> {
    if !username_ok(username) {
        Err(RegisterInvalid::InvalidUsername)
    } else if email.len() == 0 || !email_matches {
        Err(RegisterInvalid::InvalidEmail)
    } else if !password_ok(password, password_check) {
        Err(RegisterInvalid::InvalidPassword)
    } else {
        Ok(())
    }
}

/// Judges a registration form, given whether the e-mail address matches the pattern.
pub fn register_verdict(
    username: &String,
    email: &String,
    password: &String,
    password_check: &String,
    email_matches: bool,
) -> (r: Result<(), RegisterInvalid>)
    ensures
        r == registration_verdict(username@, email@, password@, password_check@, email_matches),
{
    let u = username.as_str();
    if u.is_empty() || u.len() > 32 {
        return Err(RegisterInvalid::InvalidUsername);
    }
    if email.as_str().is_empty() || !email_matches {
        return Err(RegisterInvalid::InvalidEmail);
    }
    let p = password.as_str();
    if p.len() < 10 || !(*password == *password_check) || p.len() > 1024 {
        return Err(RegisterInvalid::InvalidPassword);
    }
    Ok(())
}

/// Judges a registration form. The e-mail pattern is only compiled when the
/// username passed and the address is not empty; if it does not compile then,
/// the answer is `Err(InvalidPattern)`.
pub fn check_register(
    username: &String,
    email: &String,
    password: &String,
    password_check: &String,
) -> (r: Result<Result<(), RegisterInvalid>, InvalidPattern>)
    ensures
        !username_ok(username@) ==> r == Ok::<Result<(), RegisterInvalid>, InvalidPattern>(
            Err(RegisterInvalid::InvalidUsername),
        ),
        username_ok(username@) && email@.len() == 0 ==> r == Ok::<
            Result<(), RegisterInvalid>,
            InvalidPattern,
        >(Err(RegisterInvalid::InvalidEmail)),
        username_ok(username@) && email@.len() != 0 ==> (r is Err <==> !regex_compiles(
            email_pattern(),
        )),
        username_ok(username@) && email@.len() != 0 && regex_compiles(email_pattern()) ==> r == Ok::<
            Result<(), RegisterInvalid>,
            InvalidPattern,
        >(
            registration_verdict(
                username@,
                email@,
                password@,
                password_check@,
                regex_matches(email_pattern(), email@),
            ),
        ),
{
    let u = username.as_str();
    if u.is_empty() || u.len() > 32 {
        return Ok(Err(RegisterInvalid::InvalidUsername));
    }
    if email.as_str().is_empty() {
        return Ok(Err(RegisterInvalid::InvalidEmail));
    }
    match regex_is_match("(?:[a-z0-9!#$%&'*+/=?^_`{|}~-]+(?:\\.[a-z0-9!#$%&'*+/=?^_`{|}~-]+)*|\"(?:[\\x01-\\x08\\x0b\\x0c\\x0e-\\x1f\\x21\\x23-\\x5b\\x5d-\\x7f]|\\\\[\\x01-\\x09\\x0b\\x0c\\x0e-\\x7f])*\")@(?:(?:[a-z0-9](?:[a-z0-9-]*[a-z0-9])?\\.)+[a-z0-9](?:[a-z0-9-]*[a-z0-9])?|\\[(?:(?:25[0-5]|2[0-4][0-9]|[01]?[0-9][0-9]?)\\.){3}(?:25[0-5]|2[0-4][0-9]|[01]?[0-9][0-9]?|[a-z0-9-]*[a-z0-9]:(?:[\\x01-\\x08\\x0b\\x0c\\x0e-\\x1f\\x21-\\x5a\\x53-\\x7f]|\\\\[\\x01-\\x09\\x0b\\x0c\\x0e-\\x7f])+)\\])", email.as_str()) {
        Ok(matches) => Ok(register_verdict(username, email, password, password_check, matches)),
        Err(_) => Err(InvalidPattern),
    }
}

/// The popup (title, message) for a refused registration.
pub fn register_invalid_popup(reason: RegisterInvalid) -> (r: (&'static str, &'static str))
    ensures
        r.0@ == "credentials not valid"@,
        reason == RegisterInvalid::InvalidUsername ==> r.1@ == "error: username not valid"@,
        reason == RegisterInvalid::InvalidEmail ==> r.1@ == "error: email not valid"@,
        reason == RegisterInvalid::InvalidPassword ==> r.1@ == "error: password not valid"@,
{
    match reason {
        RegisterInvalid::InvalidUsername => ("credentials not valid", "error: username not valid"),
        RegisterInvalid::InvalidEmail => ("credentials not valid", "error: email not valid"),
        RegisterInvalid::InvalidPassword => ("credentials not valid", "error: password not valid"),
    }
}

/// What the "Register and login" button leads to: `None` when the form
/// passed and the account is registered, otherwise the popup (title,
/// message) that tells why it was refused, and no request is sent.
pub fn registration_popup(verdict: Result<(), RegisterInvalid>) -> (r: Option<(&'static str, &'static str)>)
    ensures
        verdict is Ok <==> r is None,
        verdict matches Err(reason) ==> (r matches Some(p) && p.0@ == "credentials not valid"@ && (
        reason == RegisterInvalid::InvalidUsername ==> p.1@ == "error: username not valid"@) && (
        reason == RegisterInvalid::InvalidEmail ==> p.1@ == "error: email not valid"@) && (reason
            == RegisterInvalid::InvalidPassword ==> p.1@ == "error: password not valid"@)),
{
    match verdict {
        Ok(()) => None,
        Err(reason) => Some(register_invalid_popup(reason)),
    }
}

/// The rules of a registration form, spelled out over the bytes and
/// characters of its fields: a username is refused exactly when it is empty
/// or longer than 32 UTF-8 bytes; then an address exactly when it is empty or
/// holds no match of the pattern; then a password exactly when it has fewer
/// than 10 or more than 1024 bytes or differs from its confirmation. A form
/// that passes all three is accepted.
pub proof fn lemma_registration_rules(
    username: Seq<char>,
    email: Seq<char>,
    password: Seq<char>,
    password_check: Seq<char>,
    email_matches: bool,
)
    ensures
        ({
            let u_ok = username.len() != 0 && (encode_utf8(username).len() as usize) as int <= 32;
            let e_ok = email.len() != 0 && email_matches;
            let p_ok = 10 <= (encode_utf8(password).len() as usize) as int <= 1024 && password
                == password_check;
            let v = registration_verdict(username, email, password, password_check, email_matches);
            &&& username_ok(username) <==> u_ok
            &&& !u_ok ==> v == Err::<(), RegisterInvalid>(RegisterInvalid::InvalidUsername)
            &&& u_ok && !e_ok ==> v == Err::<(), RegisterInvalid>(RegisterInvalid::InvalidEmail)
            &&& u_ok && e_ok && !p_ok ==> v == Err::<(), RegisterInvalid>(
                RegisterInvalid::InvalidPassword,
            )
            &&& u_ok && e_ok && p_ok ==> v == Ok::<(), RegisterInvalid>(())
        }),
{
}

/// A registration with an empty username is refused for the username,
/// whatever the rest of the form holds.
pub proof fn lemma_username_checked_first(
    email: Seq<char>,
    password: Seq<char>,
    password_check: Seq<char>,
    email_matches: bool,
)
    ensures
        registration_verdict(Seq::empty(), email, password, password_check, email_matches) == Err::<
            (),
            RegisterInvalid,
        >(RegisterInvalid::InvalidUsername),
{
}

/// A form is accepted exactly when every field passes its rule.
pub proof fn lemma_accepted_iff_all_fields_pass(
    username: Seq<char>,
    email: Seq<char>,
    password: Seq<char>,
    password_check: Seq<char>,
    email_matches: bool,
)
    ensures
        registration_verdict(username, email, password, password_check, email_matches) is Ok <==> (
        username_ok(username) && email.len() != 0 && email_matches && password_ok(
            password,
            password_check,
        )),
{
}

} // verus!
