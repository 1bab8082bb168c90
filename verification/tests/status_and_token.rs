use yap_frontend::model::TokenFile;
use yap_frontend::status::{
    classify_status, error_converter, error_popup, fault_message, is_success, login_failure_popup,
    status_fault, BackendError, StatusFault, StatusOutcome,
};
use yap_frontend::token::{
    load_token, parse_bool, session_prompt, session_to_save, token_check_verdict, SavedToken,
    TokenLoadError,
};

#[test]
fn success_class() {
    assert!(is_success(200));
    assert!(is_success(204));
    assert!(is_success(299));
    assert!(!is_success(199));
    assert!(!is_success(300));
    assert!(!is_success(403));
}

#[test]
fn error_statuses_map_to_backend_errors() {
    assert_eq!(error_converter(400), BackendError::Incomplete);
    assert_eq!(error_converter(401), BackendError::TokenInvalid);
    assert_eq!(error_converter(204), BackendError::Deleted);
    assert_eq!(error_converter(403), BackendError::NoAccess);
}

#[test]
fn classification_of_statuses() {
    assert_eq!(classify_status(200, false), StatusOutcome::Accepted);
    assert_eq!(classify_status(201, true), StatusOutcome::Accepted);
    assert_eq!(classify_status(204, false), StatusOutcome::Accepted);
    assert_eq!(classify_status(204, true), StatusOutcome::Rejected(BackendError::Deleted));
    assert_eq!(classify_status(401, false), StatusOutcome::Rejected(BackendError::TokenInvalid));
    assert_eq!(classify_status(403, true), StatusOutcome::Rejected(BackendError::NoAccess));
    assert_eq!(classify_status(500, true), StatusOutcome::Fault(StatusFault::ServerError));
    assert_eq!(classify_status(400, false), StatusOutcome::Rejected(BackendError::Incomplete));
    assert_eq!(classify_status(400, true), StatusOutcome::Rejected(BackendError::Incomplete));
    assert_eq!(classify_status(404, false), StatusOutcome::Fault(StatusFault::Unexpected));
    assert_eq!(status_fault(302), StatusFault::Unexpected);
}

#[test]
fn fault_messages() {
    assert_eq!(fault_message(StatusFault::ServerError), "haha jakobs fehler lol");
    assert_eq!(fault_message(StatusFault::Unexpected), "server returned an unexpected status");
}

#[test]
fn error_popups() {
    assert_eq!(error_popup(BackendError::TokenInvalid).0, "Session Expired");
    assert_eq!(error_popup(BackendError::TokenInvalid).1, "Your session expired, you need to re-login");
    assert_eq!(error_popup(BackendError::Incomplete).0, "BAD_REQUEST");
    assert_eq!(error_popup(BackendError::Deleted).0, "Entry doesn't exist");
    assert_eq!(error_popup(BackendError::NoAccess).0, "FORBIDDEN");
}

#[test]
fn login_failures() {
    let (t, m) = login_failure_popup(403);
    assert_eq!(t, "Wrong credentials!");
    assert_eq!(m, "Either your mail or password is wrong.");
    let (t, m) = login_failure_popup(404);
    assert_eq!(t, "Request failed.");
    assert_eq!(m, "Request failed with code: 404");
    let (_, m) = login_failure_popup(500);
    assert_eq!(m, "Request failed with code: 500");
}

#[test]
fn bool_replies() {
    assert_eq!(parse_bool(&"true".to_string()), Some(true));
    assert_eq!(parse_bool(&"false".to_string()), Some(false));
    assert_eq!(parse_bool(&"True".to_string()), None);
    assert_eq!(parse_bool(&" true".to_string()), None);
    assert_eq!(parse_bool(&"".to_string()), None);
    assert!(token_check_verdict(Some("true".to_string())));
    assert!(!token_check_verdict(Some("false".to_string())));
    assert!(!token_check_verdict(Some("yes".to_string())));
    assert!(!token_check_verdict(None));
}

fn saved() -> TokenFile {
    session_to_save("a@b.co", "tok")
}

#[test]
fn loading_a_saved_session() {
    assert_eq!(load_token(SavedToken::NoFile, true).unwrap_err(), TokenLoadError::FileNotFound);
    assert_eq!(
        load_token(SavedToken::Unreadable, true).unwrap_err(),
        TokenLoadError::FileNotReadable
    );
    assert_eq!(
        load_token(SavedToken::Read(saved()), false).unwrap_err(),
        TokenLoadError::TokenExpired
    );
    let f = load_token(SavedToken::Read(saved()), true).unwrap();
    assert_eq!(f.user_mail, "a@b.co");
    assert_eq!(f.token, "tok");
}

#[test]
fn session_prompt_names_the_account() {
    assert_eq!(session_prompt("a@b.co"), "Is a@b.co you?");
}
