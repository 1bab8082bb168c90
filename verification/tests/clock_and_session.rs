use yap_frontend::clock::{date_label, form_due_timestamp, local_reading, year_label};
use yap_frontend::model::representable_timestamp;
use yap_frontend::token::{session_saving, session_saving_popup, SessionSaving};

#[test]
fn chrono_range_boundaries() {
    assert!(representable_timestamp(-8_334_601_228_800));
    assert!(!representable_timestamp(-8_334_601_228_801));
    assert!(representable_timestamp(8_210_266_876_799));
    assert!(!representable_timestamp(8_210_266_876_800));
    assert!(representable_timestamp(0));
    assert!(representable_timestamp(1_600_000_000));
}

#[test]
fn local_readings_stay_within_a_day() {
    for secs in [0i64, 1_600_000_000, -86_400 * 365, 8_210_266_876_799, -8_334_601_228_800] {
        let t = local_reading(secs).unwrap();
        assert!((1..=12).contains(&t.month) && (1..=31).contains(&t.day));
        assert!(t.hour < 24 && t.minute < 60 && t.second < 60);
    }
    assert!(local_reading(8_210_266_876_800).is_none());
}

#[test]
fn due_timestamps_round_trip_through_the_local_clock() {
    let secs = 1_700_000_000i64;
    let t = local_reading(secs).unwrap();
    let back = form_due_timestamp(t.year, t.month, t.day, t.hour, t.minute).unwrap();
    // second 1 of the same minute
    assert_eq!(back, secs - t.second as i64 + 1);
    assert!(form_due_timestamp(2023, 2, 30, 10, 0).is_none());
    assert!(form_due_timestamp(2023, 13, 1, 10, 0).is_none());
    assert!(form_due_timestamp(2023, 1, 1, 24, 0).is_none());
}

#[test]
fn year_and_date_labels_follow_chrono() {
    assert_eq!(year_label(2024), "2024");
    assert_eq!(year_label(7), "0007");
    assert_eq!(year_label(0), "0000");
    assert_eq!(year_label(9999), "9999");
    assert_eq!(year_label(10000), "+10000");
    assert_eq!(year_label(-5), "-0005");
    assert_eq!(year_label(-12345), "-12345");
    assert_eq!(date_label(2024, 3, 7), " 07.03.2024 ");
    assert_eq!(date_label(1999, 12, 31), " 31.12.1999 ");
    let d = chrono::NaiveDate::from_ymd_opt(-5, 1, 2).unwrap();
    assert_eq!(date_label(-5, 1, 2), d.format(" %d.%m.%Y ").to_string());
    let d = chrono::NaiveDate::from_ymd_opt(12345, 6, 9).unwrap();
    assert_eq!(date_label(12345, 6, 9), d.format(" %d.%m.%Y ").to_string());
}

#[test]
fn saving_a_new_session() {
    assert_eq!(session_saving(None), SessionSaving::CheckboxMissing);
    assert_eq!(session_saving(Some(true)), SessionSaving::Save);
    assert_eq!(session_saving(Some(false)), SessionSaving::Skip);
    assert_eq!(session_saving_popup(SessionSaving::CheckboxMissing, false), Some(("No success!", "file not created")));
    assert_eq!(session_saving_popup(SessionSaving::Save, false), Some(("Remember Me", "Remember Me didn't work :(")));
    assert_eq!(session_saving_popup(SessionSaving::Save, true), None);
    assert_eq!(session_saving_popup(SessionSaving::Skip, false), None);
}
