use yap_frontend::model::Entry;
use yap_frontend::register::{
    check_register, register_invalid_popup, register_verdict, registration_popup, InvalidPattern, RegisterInvalid,
};
use yap_frontend::schedule::{
    edit_defaults, hour_items, minute_items, picker_start, position_of, time_positions,
};

fn check(u: &str, e: &str, p: &str, c: &str) -> Result<Result<(), RegisterInvalid>, InvalidPattern> {
    check_register(&u.to_string(), &e.to_string(), &p.to_string(), &c.to_string())
}

#[test]
fn usernames() {
    assert_eq!(check("", "a@b.co", "0123456789", "0123456789"), Ok(Err(RegisterInvalid::InvalidUsername)));
    let long = "x".repeat(33);
    assert_eq!(check(&long, "a@b.co", "0123456789", "0123456789"), Ok(Err(RegisterInvalid::InvalidUsername)));
    let edge = "x".repeat(32);
    assert_eq!(check(&edge, "a@b.co", "0123456789", "0123456789"), Ok(Ok(())));
    // counted in bytes: 17 two-byte letters are 34 bytes
    let umlauts = "ü".repeat(17);
    assert_eq!(check(&umlauts, "a@b.co", "0123456789", "0123456789"), Ok(Err(RegisterInvalid::InvalidUsername)));
    let umlauts = "ü".repeat(16);
    assert_eq!(check(&umlauts, "a@b.co", "0123456789", "0123456789"), Ok(Ok(())));
}

#[test]
fn email_addresses() {
    assert_eq!(check("ann", "", "0123456789", "0123456789"), Ok(Err(RegisterInvalid::InvalidEmail)));
    assert_eq!(check("ann", "not-an-address", "0123456789", "0123456789"), Ok(Err(RegisterInvalid::InvalidEmail)));
    assert_eq!(check("ann", "ann@example", "0123456789", "0123456789"), Ok(Err(RegisterInvalid::InvalidEmail)));
    assert_eq!(check("ann", "ann@example.org", "0123456789", "0123456789"), Ok(Ok(())));
    assert_eq!(check("ann", "first.last@mail.example.org", "0123456789", "0123456789"), Ok(Ok(())));
    // the pattern is not anchored: a match anywhere in the text suffices
    assert_eq!(check("ann", "see ann@example.org here", "0123456789", "0123456789"), Ok(Ok(())));
}

#[test]
fn passwords() {
    assert_eq!(check("ann", "a@b.co", "short", "short"), Ok(Err(RegisterInvalid::InvalidPassword)));
    assert_eq!(check("ann", "a@b.co", "0123456789", "0123456780"), Ok(Err(RegisterInvalid::InvalidPassword)));
    let long = "p".repeat(1025);
    assert_eq!(check("ann", "a@b.co", &long, &long), Ok(Err(RegisterInvalid::InvalidPassword)));
    let edge = "p".repeat(1024);
    assert_eq!(check("ann", "a@b.co", &edge, &edge), Ok(Ok(())));
}

#[test]
fn fields_are_judged_in_order() {
    assert_eq!(check("", "", "", "x"), Ok(Err(RegisterInvalid::InvalidUsername)));
    assert_eq!(check("ann", "", "", "x"), Ok(Err(RegisterInvalid::InvalidEmail)));
}

#[test]
fn verdict_given_the_match() {
    let s = |x: &str| x.to_string();
    assert_eq!(register_verdict(&s("ann"), &s("whatever"), &s("0123456789"), &s("0123456789"), true), Ok(()));
    assert_eq!(
        register_verdict(&s("ann"), &s("a@b.co"), &s("0123456789"), &s("0123456789"), false),
        Err(RegisterInvalid::InvalidEmail)
    );
}

#[test]
fn register_popups() {
    assert_eq!(register_invalid_popup(RegisterInvalid::InvalidUsername), ("credentials not valid", "error: username not valid"));
    assert_eq!(register_invalid_popup(RegisterInvalid::InvalidEmail).1, "error: email not valid");
    assert_eq!(register_invalid_popup(RegisterInvalid::InvalidPassword).1, "error: password not valid");
}

#[test]
fn register_button_outcomes() {
    assert_eq!(registration_popup(Ok(())), None);
    assert_eq!(
        registration_popup(Err(RegisterInvalid::InvalidEmail)),
        Some(("credentials not valid", "error: email not valid"))
    );
    assert_eq!(
        registration_popup(Err(RegisterInvalid::InvalidPassword)),
        Some(("credentials not valid", "error: password not valid"))
    );
}

#[test]
fn picker_choices() {
    let hours = hour_items();
    assert_eq!(hours.len(), 24);
    assert_eq!(hours[0], ("00".to_string(), 0));
    assert_eq!(hours[9], ("09".to_string(), 9));
    assert_eq!(hours[23], ("23".to_string(), 23));
    let minutes = minute_items();
    assert_eq!(minutes.len(), 12);
    assert_eq!(minutes[0], ("00".to_string(), 0));
    assert_eq!(minutes[1], ("05".to_string(), 5));
    assert_eq!(minutes[11], ("55".to_string(), 55));
    assert_eq!(position_of(&minutes, 35), Some(7));
    assert_eq!(position_of(&minutes, 33), None);
}

#[test]
fn picker_positions() {
    assert_eq!(time_positions(0, 0), (0, 0));
    assert_eq!(time_positions(13, 47), (13, 9));
    assert_eq!(time_positions(23, 59), (23, 11));
    assert_eq!(time_positions(7, 5), (7, 1));
    assert_eq!(time_positions(7, 4), (7, 0));
}

fn entry(due: i64) -> Entry {
    Entry {
        entry_id: 1,
        creator_id: 1,
        create_date: 0,
        due_date: due,
        title: "T".to_string(),
        description: "D".to_string(),
    }
}

#[test]
fn picker_start_reads_the_local_clock() {
    let p = picker_start(1_700_000_000).unwrap();
    assert_eq!(p.hour_position, p.clock.hour as usize);
    assert_eq!(p.minute_position, (p.clock.minute / 5) as usize);
    assert!(p.clock.hour < 24 && p.clock.minute < 60 && p.clock.second < 60);
    // 2023-11-14 22:13:20 UTC: the local day is the 14th or a neighbour
    assert!(p.clock.year == 2023 && p.clock.month == 11 && (13..=15).contains(&p.clock.day));
    assert_eq!(p.date_label, format!(" {:02}.{:02}.{} ", p.clock.day, p.clock.month, p.clock.year));
    assert!(picker_start(i64::MAX).is_none());
    let _ = entry(0);
}

#[test]
fn editor_defaults() {
    let d = edit_defaults(None);
    assert_eq!((d.title.as_str(), d.description.as_str(), d.due_enabled, d.start_time), ("", "", false, None));
    let e = entry(1_700_000_000);
    let d = edit_defaults(Some(&e));
    assert_eq!((d.title.as_str(), d.description.as_str(), d.due_enabled, d.start_time), ("T", "D", true, Some(1_700_000_000)));
    let e = entry(0);
    let d = edit_defaults(Some(&e));
    assert!(!d.due_enabled);
}
