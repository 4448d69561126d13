//! Plain data model: subjects, timetable entries, the teacher table,
//! the fixed period table, and the faults that composition can report.

use vstd::prelude::*;

verus! {

/// A subject record from the timetable service: a numeric id and a short
/// subject-name code (not a display name).
#[derive(Clone, Debug, PartialEq, Eq)]
pub struct Subject {
    pub id: i64,
    pub name: String,
}

/// One timetable entry: the classes it belongs to, the subjects taught,
/// the lesson start time as a minute-of-day code, and a status code whose
/// value "cancelled" marks a cancelled lesson.
#[derive(Clone, Debug, PartialEq, Eq)]
pub struct Entry {
    pub class_ids: Vec<i64>,
    pub subject_ids: Vec<i64>,
    pub start_time: i64,
    pub code: String,
}

/// One row of the teacher table: a subject-name code and the display
/// name of the teacher who takes that subject.
#[derive(Clone, Debug, PartialEq, Eq)]
pub struct Teacher {
    pub subject_name: String,
    pub teacher_name: String,
}

/// A data-integrity fault found while composing the message. Faults are
/// reported alongside the message, never silently defaulted; the entry
/// that caused one contributes no line.
#[derive(Clone, Debug, PartialEq, Eq)]
pub enum Fault {
    /// A cancelled, relevant entry has an empty subject-id list.
    MissingSubjectId { start_time: i64 },
    /// The entry's start time is not in the period table.
    UnknownStartTime { start_time: i64 },
    /// No subject record carries the entry's first subject id.
    UnknownSubject { subject_id: i64 },
    /// The subject's name code has no row in the teacher table.
    UnknownTeacher { subject_name: String },
}

/// The mathematical image of a `Fault`.
pub enum FaultView {
    MissingSubjectId { start_time: int },
    UnknownStartTime { start_time: int },
    UnknownSubject { subject_id: int },
    UnknownTeacher { subject_name: Seq<char> },
}

impl View for Fault {
    type V = FaultView;

    open spec fn view(&self) -> FaultView {
        match self {
            Fault::MissingSubjectId { start_time } => FaultView::MissingSubjectId {
                start_time: *start_time as int,
            },
            Fault::UnknownStartTime { start_time } => FaultView::UnknownStartTime {
                start_time: *start_time as int,
            },
            Fault::UnknownSubject { subject_id } => FaultView::UnknownSubject {
                subject_id: *subject_id as int,
            },
            Fault::UnknownTeacher { subject_name } => FaultView::UnknownTeacher {
                subject_name: subject_name@,
            },
        }
    }
}

/// The fixed period table: lesson start minute-of-day codes to human
/// period numbers 1..=12. A start time outside the table has no period.
pub open spec fn spec_period_of(start_time: int) -> Option<int> {
    if start_time == 750 {
        Some(1)
    } else if start_time == 840 {
        Some(2)
    } else if start_time == 940 {
        Some(3)
    } else if start_time == 1030 {
        Some(4)
    } else if start_time == 1130 {
        Some(5)
    } else if start_time == 1220 {
        Some(6)
    } else if start_time == 1335 {
        Some(7)
    } else if start_time == 1415 {
        Some(8)
    } else if start_time == 1505 {
        Some(9)
    } else if start_time == 1545 {
        Some(10)
    } else if start_time == 1625 {
        Some(11)
    } else if start_time == 1705 {
        Some(12)
    } else {
        None
    }
}

pub fn period_of(start_time: i64) -> (r: Option<u8>)
    ensures
        match r {
            Some(p) => spec_period_of(start_time as int) == Some(p as int),
            None => spec_period_of(start_time as int) is None,
        },
{
    if start_time == 750 {
        Some(1)
    } else if start_time == 840 {
        Some(2)
    } else if start_time == 940 {
        Some(3)
    } else if start_time == 1030 {
        Some(4)
    } else if start_time == 1130 {
        Some(5)
    } else if start_time == 1220 {
        Some(6)
    } else if start_time == 1335 {
        Some(7)
    } else if start_time == 1415 {
        Some(8)
    } else if start_time == 1505 {
        Some(9)
    } else if start_time == 1545 {
        Some(10)
    } else if start_time == 1625 {
        Some(11)
    } else if start_time == 1705 {
        Some(12)
    } else {
        None
    }
}

} // verus!
