use untis_notify::message::compose_message;
use untis_notify::model::{Entry, Fault, Subject, Teacher, period_of};
use untis_notify::policy::Announcement;

fn subjects() -> Vec<Subject> {
    vec![Subject { id: 5, name: String::from("MA1") }]
}

fn teachers() -> Vec<Teacher> {
    vec![Teacher { subject_name: String::from("MA1"), teacher_name: String::from("Mr. Smith") }]
}

fn cancelled_entry() -> Entry {
    Entry {
        class_ids: vec![661],
        subject_ids: vec![5],
        start_time: 750,
        code: String::from("cancelled"),
    }
}

#[test]
fn composes_the_documented_scenario() {
    let entries = vec![cancelled_entry()];
    let r = compose_message(Announcement::Today, 661, &entries, &subjects(), &teachers());
    assert_eq!(r.message, "Heute entfällt:\nMA1 in der 1. Stunde bei Mr. Smith\n");
    assert!(r.faults.is_empty());
}

#[test]
fn tomorrow_mode_uses_its_own_header() {
    let entries = vec![cancelled_entry()];
    let r = compose_message(Announcement::Tomorrow, 661, &entries, &subjects(), &teachers());
    assert_eq!(r.message, "Morgen entfällt:\nMA1 in der 1. Stunde bei Mr. Smith\n");
}

#[test]
fn quiet_mode_produces_nothing() {
    let entries = vec![cancelled_entry()];
    let r = compose_message(Announcement::Quiet, 661, &entries, &subjects(), &teachers());
    assert_eq!(r.message, "");
    assert!(r.faults.is_empty());
}

#[test]
fn composition_is_idempotent() {
    let entries = vec![cancelled_entry()];
    let first = compose_message(Announcement::Today, 661, &entries, &subjects(), &teachers());
    let second = compose_message(Announcement::Today, 661, &entries, &subjects(), &teachers());
    assert_eq!(first.message.as_bytes(), second.message.as_bytes());
    assert_eq!(first.faults, second.faults);
}

#[test]
fn other_class_contributes_nothing() {
    let mut entry = cancelled_entry();
    entry.class_ids = vec![662, 663];
    let entries = vec![entry];
    let r = compose_message(Announcement::Today, 661, &entries, &subjects(), &teachers());
    assert_eq!(r.message, "Heute entfällt:\n");
    assert!(r.faults.is_empty());
}

#[test]
fn uncancelled_entry_contributes_nothing() {
    let mut entry = cancelled_entry();
    entry.code = String::new();
    let mut other = cancelled_entry();
    other.code = String::from("irregular");
    let entries = vec![entry, other];
    let r = compose_message(Announcement::Today, 661, &entries, &subjects(), &teachers());
    assert_eq!(r.message, "Heute entfällt:\n");
    assert!(r.faults.is_empty());
}

#[test]
fn unknown_start_time_is_reported() {
    let mut entry = cancelled_entry();
    entry.start_time = 999;
    let entries = vec![entry];
    let r = compose_message(Announcement::Today, 661, &entries, &subjects(), &teachers());
    assert_eq!(r.message, "Heute entfällt:\n");
    assert_eq!(r.faults, vec![Fault::UnknownStartTime { start_time: 999 }]);
}

#[test]
fn unknown_subject_is_reported() {
    let mut entry = cancelled_entry();
    entry.subject_ids = vec![8];
    let entries = vec![entry];
    let r = compose_message(Announcement::Today, 661, &entries, &subjects(), &teachers());
    assert_eq!(r.message, "Heute entfällt:\n");
    assert_eq!(r.faults, vec![Fault::UnknownSubject { subject_id: 8 }]);
}

#[test]
fn unknown_teacher_is_reported() {
    let entries = vec![cancelled_entry()];
    let r = compose_message(Announcement::Today, 661, &entries, &subjects(), &Vec::new());
    assert_eq!(r.message, "Heute entfällt:\n");
    assert_eq!(r.faults, vec![Fault::UnknownTeacher { subject_name: String::from("MA1") }]);
}

#[test]
fn missing_subject_id_is_reported() {
    let mut entry = cancelled_entry();
    entry.subject_ids = Vec::new();
    let entries = vec![entry];
    let r = compose_message(Announcement::Today, 661, &entries, &subjects(), &teachers());
    assert_eq!(r.message, "Heute entfällt:\n");
    assert_eq!(r.faults, vec![Fault::MissingSubjectId { start_time: 750 }]);
}

#[test]
fn repeated_cancellations_each_get_a_line() {
    let mut later = cancelled_entry();
    later.start_time = 840;
    let entries = vec![cancelled_entry(), later];
    let r = compose_message(Announcement::Today, 661, &entries, &subjects(), &teachers());
    assert_eq!(
        r.message,
        "Heute entfällt:\nMA1 in der 1. Stunde bei Mr. Smith\nMA1 in der 2. Stunde bei Mr. Smith\n"
    );
}

#[test]
fn first_subject_match_wins() {
    let table = vec![
        Subject { id: 5, name: String::from("MA1") },
        Subject { id: 5, name: String::from("MA2") },
    ];
    let entries = vec![cancelled_entry()];
    let r = compose_message(Announcement::Today, 661, &entries, &table, &teachers());
    assert_eq!(r.message, "Heute entfällt:\nMA1 in der 1. Stunde bei Mr. Smith\n");
}

#[test]
fn period_table_maps_every_known_start() {
    let starts = [750, 840, 940, 1030, 1130, 1220, 1335, 1415, 1505, 1545, 1625, 1705];
    for (index, start) in starts.iter().enumerate() {
        assert_eq!(period_of(*start), Some(index as u8 + 1));
    }
    assert_eq!(period_of(0), None);
    assert_eq!(period_of(751), None);
}
