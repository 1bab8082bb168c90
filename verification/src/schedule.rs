use vstd::prelude::*;

use crate::clock::{date_label, date_text, is_local_instant, is_local_reading, local_reading, LocalDateTime};
use crate::model::{is_form_entry, timestamp_representable, Entry, EntryAPI};
use crate::text::{two_digit_label, two_digits};

verus! {

/// A choice of a time picker: its two-digit label and its value.
pub type TimeChoice = (String, i8);

/// The hour choices: "00" to "23".
pub open spec fn hour_choice(i: int) -> (Seq<char>, i8) {
    (two_digits(i as nat), i as i8)
}

/// The minute choices, in steps of five: "00", "05", ..., "55".
pub open spec fn minute_choice(i: int) -> (Seq<char>, i8) {
    (two_digits((5 * i) as nat), (5 * i) as i8)
}

/// The minute choice shown for a minute: the minute rounded down to a
/// multiple of five.
pub open spec fn rounded_minute(minute: int) -> int {
    ((minute + 5) / 5 - 1) * 5
}

/// The hour choices of the time picker.
pub fn hour_items() -> (items: Vec<TimeChoice>)
    ensures
        items.len() == 24,
        forall|i: int|
            0 <= i < 24 ==> (#[trigger] items[i]).0@ == hour_choice(i).0 && items[i].1 == hour_choice(
                i,
            ).1,
{
    let mut items: Vec<TimeChoice> = Vec::new();
    let mut c: i8 = 0;
    while c < 24
        invariant
            0 <= c <= 24,
            items.len() == c,
            forall|i: int|
                0 <= i < c ==> (#[trigger] items[i]).0@ == hour_choice(i).0 && items[i].1
                    == hour_choice(i).1,
        decreases 24 - c,
    {
        items.push((two_digit_label(c as u64), c));
        c = c + 1;
    }
    items
}

/// The minute choices of the time picker.
pub fn minute_items() -> (items: Vec<TimeChoice>)
    ensures
        items.len() == 12,
        forall|i: int|
            0 <= i < 12 ==> (#[trigger] items[i]).0@ == minute_choice(i).0 && items[i].1
                == minute_choice(i).1,
{
    let mut items: Vec<TimeChoice> = Vec::new();
    let mut k: i8 = 0;
    while k < 12
        invariant
            0 <= k <= 12,
            items.len() == k,
            forall|i: int|
                0 <= i < k ==> (#[trigger] items[i]).0@ == minute_choice(i).0 && items[i].1
                    == minute_choice(i).1,
        decreases 12 - k,
    {
        let value: i8 = 5 * k;
        items.push((two_digit_label(value as u64), value));
        k = k + 1;
    }
    items
}

/// The first place of `value` among the choices.
pub fn position_of(items: &Vec<TimeChoice>, value: i8) -> (r: Option<usize>)
    ensures
        match r {
            Some(k) => k < items.len() && items[k as int].1 == value && forall|j: int|
                0 <= j < k ==> (#[trigger] items[j]).1 != value,
            None => forall|j: int| 0 <= j < items.len() ==> (#[trigger] items[j]).1 != value,
        },
{
    let mut i: usize = 0;
    while i < items.len()
        invariant
            i <= items.len(),
            forall|j: int| 0 <= j < i ==> (#[trigger] items[j]).1 != value,
        decreases items.len() - i,
    {
        if items[i].1 == value {
            return Some(i);
        }
        i = i + 1;
    }
    None
}

/// The places to select in the hour and minute pickers for a time of day:
/// the hour itself, and the minute rounded down to a multiple of five.
/// Both are always found.
pub fn time_positions(hour: u32, minute: u32) -> (r: (usize, usize))
    requires
        hour < 24,
        minute < 60,
    ensures
        r.0 == hour,
        r.1 == minute / 5,
        hour_choice(r.0 as int).1 == hour,
        minute_choice(r.1 as int).1 == rounded_minute(minute as int),
{
    let hours = hour_items();
    let minutes = minute_items();
    let h: i8 = hour as i8;
    let m: i8 = (((minute + 5) / 5 - 1) as i8) * 5;
    assert(hours[hour as int].1 == h);
    assert(minutes[(minute / 5) as int].1 == m);
    let hp = position_of(&hours, h).unwrap();
    let mp = position_of(&minutes, m).unwrap();
    assert(hours[hp as int].1 == hour_choice(hp as int).1);
    assert(minutes[mp as int].1 == minute_choice(mp as int).1);
    (hp, mp)
}

/// Where the editor's pickers start: the local wall clock at the start
/// instant, the label of its day, and the places of its hour and of its
/// minute rounded down to a multiple of five.
pub struct PickerStart {
    pub clock: LocalDateTime,
    pub date_label: String,
    pub hour_position: usize,
    pub minute_position: usize,
}

/// Whether `p` is where the pickers start for the instant `secs`.
pub open spec fn is_picker_start(secs: int, p: PickerStart) -> bool {
    &&& is_local_reading(secs, p.clock)
    &&& p.date_label@ == date_text(p.clock.year as int, p.clock.month as int, p.clock.day as int)
    &&& p.hour_position == p.clock.hour
    &&& p.minute_position == p.clock.minute / 5
}

/// Where the editor's pickers start for the instant `secs`, read on the
/// local clock; `None` when chrono cannot represent that instant.
pub fn picker_start(secs: i64) -> (r: Option<PickerStart>)
    ensures
        r is Some <==> timestamp_representable(secs),
        r matches Some(p) ==> is_picker_start(secs as int, p),
{
    match local_reading(secs) {
        Some(clock) => {
            let (hour_position, minute_position) = time_positions(clock.hour, clock.minute);
            let date_label = date_label(clock.year, clock.month, clock.day);
            Some(PickerStart { clock, date_label, hour_position, minute_position })
        },
        None => None,
    }
}

/// What the entry editor starts with.
pub struct EditDefaults {
    pub title: String,
    pub description: String,
    /// Whether the due-date box starts ticked.
    pub due_enabled: bool,
    /// The instant the date and time pickers start at; `None` means now.
    pub start_time: Option<i64>,
}

/// Whether `d` is what the editor starts with for `entry`.
pub open spec fn is_edit_defaults(entry: Option<Entry>, d: EditDefaults) -> bool {
    match entry {
        None => d.title@ == Seq::<char>::empty() && d.description@ == Seq::<char>::empty()
            && !d.due_enabled && d.start_time is None,
        Some(e) => d.title@ == e.title@ && d.description@ == e.description@ && d.due_enabled == (
        e.due_date != 0) && d.start_time == Some(e.due_date),
    }
}

/// The editor's starting values: empty for a new entry; for an existing one
/// its title, description and due date, with the box ticked when it has a due date.
pub fn edit_defaults(entry: Option<&Entry>) -> (d: EditDefaults)
    ensures
        is_edit_defaults(
            match entry {
                Some(e) => Some(*e),
                None => None,
            },
            d,
        ),
{
    match entry {
        None => EditDefaults {
            title: String::new(),
            description: String::new(),
            due_enabled: false,
            start_time: None,
        },
        Some(e) => EditDefaults {
            title: e.title.clone(),
            description: e.description.clone(),
            due_enabled: e.due_date != 0,
            start_time: Some(e.due_date),
        },
    }
}

/// The minute shown is the latest choice not after the minute: at most five
/// minutes earlier, and itself a multiple of five.
pub proof fn lemma_rounded_minute(minute: int)
    requires
        0 <= minute < 60,
    ensures
        rounded_minute(minute) <= minute < rounded_minute(minute) + 5,
        rounded_minute(minute) % 5 == 0,
        rounded_minute(minute) == minute_choice(minute / 5).1,
{
}

/// The editor starts empty with the box unticked for a new entry; for an
/// existing one it starts on its title, description and due instant, with
/// the box ticked exactly when the entry has a due date (not 0).
pub proof fn lemma_edit_defaults_meaning(entry: Option<Entry>, d: EditDefaults)
    requires
        is_edit_defaults(entry, d),
    ensures
        entry is None ==> d.title@.len() == 0 && d.description@.len() == 0 && !d.due_enabled
            && d.start_time is None,
        entry matches Some(e) ==> d.title@ == e.title@ && d.description@ == e.description@
            && (d.due_enabled <==> e.due_date != 0) && d.start_time == Some(e.due_date),
{
}

/// The hour choices are the hours 0 to 23 in order, the minute choices the
/// multiples of five from 0 to 55 in order, each labelled with two digits.
pub proof fn lemma_choices_meaning(i: int)
    ensures
        0 <= i < 24 ==> hour_choice(i).1 == i && hour_choice(i).0.len() == 2,
        0 <= i < 12 ==> minute_choice(i).1 == 5 * i && minute_choice(i).0.len() == 2,
{
}

/// Opening the editor on an entry and saving it unchanged gives back the
/// entry's id, title and description, and no due date when it had none. A
/// due date comes back as the picked day, hour and minute (rounded down to
/// five) at second 1 on the local clock: less than two days and five minutes
/// from the original instant, whatever the time zone.
pub proof fn lemma_editor_round_trip(
    entry: Entry,
    defaults: EditDefaults,
    start: PickerStart,
    due_timestamp: i64,
    form: EntryAPI,
)
    requires
        is_edit_defaults(Some(entry), defaults),
        is_picker_start(entry.due_date as int, start),
        is_local_instant(
            LocalDateTime {
                year: start.clock.year,
                month: start.clock.month,
                day: start.clock.day,
                hour: hour_choice(start.hour_position as int).1 as u32,
                minute: minute_choice(start.minute_position as int).1 as u32,
                second: 1,
            },
            due_timestamp as int,
        ),
        is_form_entry(
            form,
            entry.entry_id,
            defaults.title@,
            defaults.description@,
            defaults.due_enabled,
            due_timestamp,
        ),
    ensures
        form.entryID == entry.entry_id,
        form.title@ == entry.title@,
        form.description@ == entry.description@,
        entry.due_date == 0 ==> form.dueDate == 0,
        entry.due_date != 0 ==> -2 * 86400 - 300 < form.dueDate - entry.due_date < 2 * 86400 + 2,
{
    let c = start.clock;
    assert(hour_choice(start.hour_position as int).1 as u32 == c.hour);
    assert(minute_choice(start.minute_position as int).1 as u32 == c.minute / 5 * 5);
}

} // verus!
