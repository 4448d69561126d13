//! The clock-driven steps of a run: reading the local time, choosing
//! the announcement mode, composing the message from the cached JSON
//! documents, and computing how long the recurring variant sleeps.

use vstd::prelude::*;
use crate::decode::{
    decode_entries, decode_subjects, decode_teachers, entry_rows, json_of, spec_entries,
    spec_subjects, spec_teachers, subject_rows, teacher_rows, JsonView, ProtocolFault,
};
use crate::message::{compose_message, fault_views, spec_faults, spec_message, Composition};
use crate::model::{Entry, FaultView, Subject, Teacher};
use crate::policy::{
    announcement_for, sleep_seconds, spec_announcement, spec_sleep_seconds, Announcement,
};

verus! {

/// Relies on chrono::Local::now with Datelike::weekday and
/// Timelike::hour: the local ISO weekday is between 1 (Monday) and 7
/// (Sunday) and the local hour between 0 and 23.
#[verifier::external_body]
fn local_weekday_hour() -> (r: (u8, u8))
    ensures
        1 <= r.0 <= 7,
        r.1 < 24,
{
    let now = chrono::Local::now();
    let weekday = chrono::Datelike::weekday(&now).number_from_monday() as u8;
    let hour = chrono::Timelike::hour(&now) as u8;
    (weekday, hour)
}

/// Reads the local clock and applies the time-window policy to it.
pub fn current_announcement() -> (m: Announcement)
    ensures
        exists|weekday: int, hour: int|
            1 <= weekday <= 7 && 0 <= hour < 24 && m == spec_announcement(weekday, hour),
{
    let (weekday, hour) = local_weekday_hour();
    let m = announcement_for(weekday, hour);
    proof {
        let d = weekday as int;
        let h = hour as int;
        assert(1 <= d <= 7 && 0 <= h < 24 && m == spec_announcement(d, h));
    }
    m
}

/// Reads the local clock and applies the sleep policy to it: how long
/// the recurring variant waits before its next cycle, in seconds.
pub fn get_sleeptime() -> (s: u32)
    ensures
        exists|weekday: int, hour: int|
            1 <= weekday <= 7 && 0 <= hour < 24 && s == spec_sleep_seconds(weekday, hour),
{
    let (weekday, hour) = local_weekday_hour();
    let s = sleep_seconds(weekday, hour);
    proof {
        let d = weekday as int;
        let h = hour as int;
        assert(1 <= d <= 7 && 0 <= h < 24 && s == spec_sleep_seconds(d, h));
    }
    s
}

/// The first decode fault of the three documents, tried in the order
/// the composer reads them: timetable, subjects, teacher table.
pub open spec fn spec_decode_fault(
    timetable_doc: Option<JsonView>,
    subjects_doc: Option<JsonView>,
    teachers_doc: Option<JsonView>,
) -> Option<ProtocolFault> {
    match spec_entries(timetable_doc) {
        Err(f) => Some(f),
        Ok(_) => match spec_subjects(subjects_doc) {
            Err(f) => Some(f),
            Ok(_) => match spec_teachers(teachers_doc) {
                Err(f) => Some(f),
                Ok(_) => None,
            },
        },
    }
}

/// Composes the announcement from the three cached JSON documents. In
/// quiet mode nothing is decoded and the message is empty. Otherwise
/// the call succeeds exactly when all three documents decode, it fails
/// with the first decode fault, and on success the message and the
/// fault report are the composer's, applied to the decoded rows.
pub fn get_message(
    mode: Announcement,
    class_id: i64,
    timetable_json: &str,
    subjects_json: &str,
    teachers_json: &str,
) -> (r: Result<Composition, ProtocolFault>)
    ensures
        mode is Quiet ==> (r matches Ok(c) && c.message@ == Seq::<char>::empty() && fault_views(
            c.faults@,
        ) == Seq::<FaultView>::empty()),
        !(mode is Quiet) ==> (match r {
            Ok(c) => spec_decode_fault(
                json_of(timetable_json@),
                json_of(subjects_json@),
                json_of(teachers_json@),
            ) is None && (exists|entries: Seq<Entry>, subjects: Seq<Subject>, teachers: Seq<Teacher>|
                spec_entries(json_of(timetable_json@)) == Ok::<_, ProtocolFault>(
                    #[trigger] entry_rows(entries),
                ) && spec_subjects(json_of(subjects_json@)) == Ok::<_, ProtocolFault>(
                    #[trigger] subject_rows(subjects),
                ) && spec_teachers(json_of(teachers_json@)) == Ok::<_, ProtocolFault>(
                    #[trigger] teacher_rows(teachers),
                ) && c.message@ == spec_message(mode, class_id, entries, subjects, teachers)
                    && fault_views(c.faults@) == spec_faults(
                    mode,
                    class_id,
                    entries,
                    subjects,
                    teachers,
                )),
            Err(f) => spec_decode_fault(
                json_of(timetable_json@),
                json_of(subjects_json@),
                json_of(teachers_json@),
            ) == Some(f),
        }),
{
    if matches!(mode, Announcement::Quiet) {
        let quiet = Composition { message: String::new(), faults: Vec::new() };
        proof {
            assert(fault_views(quiet.faults@) =~= Seq::<FaultView>::empty());
        }
        return Ok(quiet);
    }
    let entries = match decode_entries(timetable_json) {
        Ok(entries) => entries,
        Err(fault) => {
            return Err(fault);
        },
    };
    let subjects = match decode_subjects(subjects_json) {
        Ok(subjects) => subjects,
        Err(fault) => {
            return Err(fault);
        },
    };
    let teachers = match decode_teachers(teachers_json) {
        Ok(teachers) => teachers,
        Err(fault) => {
            return Err(fault);
        },
    };
    let composed = compose_message(mode, class_id, &entries, &subjects, &teachers);
    proof {
        assert(spec_entries(json_of(timetable_json@)) == Ok::<_, ProtocolFault>(
            entry_rows(entries@),
        ) && spec_subjects(json_of(subjects_json@)) == Ok::<_, ProtocolFault>(
            subject_rows(subjects@),
        ) && spec_teachers(json_of(teachers_json@)) == Ok::<_, ProtocolFault>(
            teacher_rows(teachers@),
        ) && composed.message@ == spec_message(mode, class_id, entries@, subjects@, teachers@)
            && fault_views(composed.faults@) == spec_faults(
            mode,
            class_id,
            entries@,
            subjects@,
            teachers@,
        ));
    }
    Ok(composed)
}

} // verus!
