use untis_notify::decode::{
    decode_entries, decode_subjects, decode_teachers, extract_session_id, logout_succeeded,
    ProtocolFault,
};
use untis_notify::model::{Entry, Fault, Subject, Teacher};
use untis_notify::policy::Announcement;
use untis_notify::run::get_message;

#[test]
fn session_id_is_extracted() {
    let body = "{\"jsonrpc\":\"2.0\",\"id\":\"ID\",\"result\":{\"sessionId\":\"abc123\"}}";
    assert_eq!(extract_session_id(body), Ok(String::from("abc123")));
}

#[test]
fn missing_session_id_is_a_typed_fault() {
    assert_eq!(
        extract_session_id("{\"result\":{}}"),
        Err(ProtocolFault::MissingSessionId)
    );
    assert_eq!(
        extract_session_id("{\"result\":{\"sessionId\":7}}"),
        Err(ProtocolFault::MissingSessionId)
    );
    assert_eq!(extract_session_id("not json"), Err(ProtocolFault::NotJson));
}

#[test]
fn logout_result_is_read() {
    assert_eq!(logout_succeeded("{\"result\":true}"), Ok(true));
    assert_eq!(logout_succeeded("{\"result\":false}"), Ok(false));
    assert_eq!(logout_succeeded("{}"), Err(ProtocolFault::MissingResult));
}

#[test]
fn subjects_are_decoded() {
    let body = "{\"result\":[{\"id\":5,\"name\":\"MA1\"},{\"id\":9,\"name\":\"EN2\"}]}";
    assert_eq!(
        decode_subjects(body),
        Ok(vec![
            Subject { id: 5, name: String::from("MA1") },
            Subject { id: 9, name: String::from("EN2") },
        ])
    );
}

#[test]
fn malformed_subjects_are_typed_faults() {
    assert_eq!(decode_subjects("{}"), Err(ProtocolFault::MissingResult));
    assert_eq!(
        decode_subjects("{\"result\":[{\"id\":\"five\",\"name\":\"MA1\"}]}"),
        Err(ProtocolFault::MalformedSubject)
    );
    assert_eq!(
        decode_subjects("{\"result\":[{\"id\":5}]}"),
        Err(ProtocolFault::MalformedSubject)
    );
}

#[test]
fn entries_are_decoded() {
    let body = "{\"result\":[{\"kl\":[{\"id\":661}],\"su\":[{\"id\":5}],\
                 \"startTime\":750,\"code\":\"cancelled\"},\
                 {\"kl\":[{\"id\":661}],\"su\":[{\"id\":5}],\"startTime\":840}]}";
    assert_eq!(
        decode_entries(body),
        Ok(vec![
            Entry {
                class_ids: vec![661],
                subject_ids: vec![5],
                start_time: 750,
                code: String::from("cancelled"),
            },
            Entry {
                class_ids: vec![661],
                subject_ids: vec![5],
                start_time: 840,
                code: String::new(),
            },
        ])
    );
}

#[test]
fn malformed_entries_are_typed_faults() {
    assert_eq!(decode_entries("[]"), Err(ProtocolFault::MissingResult));
    assert_eq!(
        decode_entries("{\"result\":[{\"kl\":[{\"id\":661}],\"su\":[],\"code\":\"x\"}]}"),
        Err(ProtocolFault::MalformedEntry)
    );
    assert_eq!(
        decode_entries("{\"result\":[{\"kl\":\"no\",\"su\":[],\"startTime\":750}]}"),
        Err(ProtocolFault::MalformedEntry)
    );
}

#[test]
fn teacher_table_is_decoded() {
    let body = "{\"MA1\":\"Mr. Smith\",\"EN2\":\"Mrs. Doe\"}";
    assert_eq!(
        decode_teachers(body),
        Ok(vec![
            Teacher { subject_name: String::from("EN2"), teacher_name: String::from("Mrs. Doe") },
            Teacher { subject_name: String::from("MA1"), teacher_name: String::from("Mr. Smith") },
        ])
    );
}

#[test]
fn non_object_teacher_table_is_a_typed_fault() {
    assert_eq!(decode_teachers("[]"), Err(ProtocolFault::MalformedTeacherTable));
    assert_eq!(
        decode_teachers("{\"MA1\":5}"),
        Err(ProtocolFault::MalformedTeacherTable)
    );
}

#[test]
fn message_is_composed_from_the_raw_documents() {
    let timetable = "{\"result\":[{\"kl\":[{\"id\":661}],\"su\":[{\"id\":5}],\
                     \"startTime\":750,\"code\":\"cancelled\"}]}";
    let subjects = "{\"result\":[{\"id\":5,\"name\":\"MA1\"}]}";
    let teachers = "{\"MA1\":\"Mr. Smith\"}";
    let r = get_message(Announcement::Today, 661, timetable, subjects, teachers).unwrap();
    assert_eq!(r.message, "Heute entfällt:\nMA1 in der 1. Stunde bei Mr. Smith\n");
    assert!(r.faults.is_empty());
}

#[test]
fn quiet_mode_skips_decoding() {
    let r = get_message(Announcement::Quiet, 661, "not json", "not json", "not json").unwrap();
    assert_eq!(r.message, "");
    assert!(r.faults.is_empty());
}

#[test]
fn decode_faults_surface_from_get_message() {
    assert_eq!(
        get_message(Announcement::Today, 661, "nope", "{}", "{}").err(),
        Some(ProtocolFault::NotJson)
    );
    let timetable = "{\"result\":[]}";
    assert_eq!(
        get_message(Announcement::Today, 661, timetable, "{}", "{}").err(),
        Some(ProtocolFault::MissingResult)
    );
}

#[test]
fn composition_faults_ride_along() {
    let timetable = "{\"result\":[{\"kl\":[{\"id\":661}],\"su\":[{\"id\":5}],\
                     \"startTime\":999,\"code\":\"cancelled\"}]}";
    let subjects = "{\"result\":[{\"id\":5,\"name\":\"MA1\"}]}";
    let teachers = "{\"MA1\":\"Mr. Smith\"}";
    let r = get_message(Announcement::Today, 661, timetable, subjects, teachers).unwrap();
    assert_eq!(r.message, "Heute entfällt:\n");
    assert_eq!(r.faults, vec![Fault::UnknownStartTime { start_time: 999 }]);
}
