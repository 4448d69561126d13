//! Message composition: cross-references timetable entries against the
//! subject list and the teacher table, gated by the announcement mode,
//! and builds the notification text line by line.

use vstd::prelude::*;
use vstd::string::StringExecFns;
use crate::model::{Entry, Fault, FaultView, Subject, Teacher, period_of, spec_period_of};
use crate::policy::Announcement;

verus! {

/// The status code that marks a cancelled lesson.
pub open spec fn cancelled_code() -> Seq<char> {
    "cancelled"@
}

/// An entry matters only when the configured class id is in its class-id
/// list and its status code is the cancellation sentinel.
pub open spec fn entry_relevant(e: Entry, class_id: i64) -> bool {
    e.class_ids@.contains(class_id) && e.code@ == cancelled_code()
}

/// The subject name for an id: a linear scan, first match wins.
pub open spec fn spec_subject_name(subjects: Seq<Subject>, id: i64) -> Option<Seq<char>>
    decreases subjects.len(),
{
    if subjects.len() == 0 {
        None
    } else if subjects.first().id == id {
        Some(subjects.first().name@)
    } else {
        spec_subject_name(subjects.drop_first(), id)
    }
}

/// The teacher name for a subject-name code: first match wins.
pub open spec fn spec_teacher_name(teachers: Seq<Teacher>, subject_name: Seq<char>) -> Option<
    Seq<char>,
>
    decreases teachers.len(),
{
    if teachers.len() == 0 {
        None
    } else if teachers.first().subject_name@ == subject_name {
        Some(teachers.first().teacher_name@)
    } else {
        spec_teacher_name(teachers.drop_first(), subject_name)
    }
}

/// The decimal label of a period number 1..=12.
pub open spec fn period_digits(period: int) -> Seq<char> {
    if period == 1 {
        "1"@
    } else if period == 2 {
        "2"@
    } else if period == 3 {
        "3"@
    } else if period == 4 {
        "4"@
    } else if period == 5 {
        "5"@
    } else if period == 6 {
        "6"@
    } else if period == 7 {
        "7"@
    } else if period == 8 {
        "8"@
    } else if period == 9 {
        "9"@
    } else if period == 10 {
        "10"@
    } else if period == 11 {
        "11"@
    } else if period == 12 {
        "12"@
    } else {
        Seq::empty()
    }
}

/// One announcement line for a cancelled lesson.
pub open spec fn line_for(subject: Seq<char>, period: int, teacher: Seq<char>) -> Seq<char> {
    subject + " in der "@ + period_digits(period) + ". Stunde bei "@ + teacher + "\n"@
}

/// What a relevant entry yields: its line, or the first fault met while
/// resolving it. The checks run in order: the first subject id must
/// exist, the start time must be in the period table, the subject id
/// must resolve to a subject, and the subject's name to a teacher.
pub open spec fn entry_result(e: Entry, subjects: Seq<Subject>, teachers: Seq<Teacher>) -> Result<
    Seq<char>,
    FaultView,
> {
    if e.subject_ids@.len() == 0 {
        Err(FaultView::MissingSubjectId { start_time: e.start_time as int })
    } else {
        match spec_period_of(e.start_time as int) {
            None => Err(FaultView::UnknownStartTime { start_time: e.start_time as int }),
            Some(period) => match spec_subject_name(subjects, e.subject_ids@[0]) {
                None => Err(FaultView::UnknownSubject { subject_id: e.subject_ids@[0] as int }),
                Some(name) => match spec_teacher_name(teachers, name) {
                    None => Err(FaultView::UnknownTeacher { subject_name: name }),
                    Some(teacher) => Ok(line_for(name, period, teacher)),
                },
            },
        }
    }
}

/// What one entry adds to the message: its line if it is relevant and
/// resolves, nothing otherwise.
pub open spec fn line_piece(
    e: Entry,
    subjects: Seq<Subject>,
    teachers: Seq<Teacher>,
    class_id: i64,
) -> Seq<char> {
    if entry_relevant(e, class_id) {
        match entry_result(e, subjects, teachers) {
            Ok(line) => line,
            Err(_) => Seq::empty(),
        }
    } else {
        Seq::empty()
    }
}

/// What one entry adds to the fault report: its fault if it is relevant
/// and fails to resolve, nothing otherwise.
pub open spec fn fault_piece(
    e: Entry,
    subjects: Seq<Subject>,
    teachers: Seq<Teacher>,
    class_id: i64,
) -> Seq<FaultView> {
    if entry_relevant(e, class_id) {
        match entry_result(e, subjects, teachers) {
            Ok(_) => Seq::empty(),
            Err(f) => seq![f],
        }
    } else {
        Seq::empty()
    }
}

/// The lines of all entries, in entry order.
pub open spec fn compose_lines(
    entries: Seq<Entry>,
    subjects: Seq<Subject>,
    teachers: Seq<Teacher>,
    class_id: i64,
) -> Seq<char>
    decreases entries.len(),
{
    if entries.len() == 0 {
        Seq::empty()
    } else {
        compose_lines(entries.drop_last(), subjects, teachers, class_id) + line_piece(
            entries.last(),
            subjects,
            teachers,
            class_id,
        )
    }
}

/// The faults of all entries, in entry order.
pub open spec fn compose_faults(
    entries: Seq<Entry>,
    subjects: Seq<Subject>,
    teachers: Seq<Teacher>,
    class_id: i64,
) -> Seq<FaultView>
    decreases entries.len(),
{
    if entries.len() == 0 {
        Seq::empty()
    } else {
        compose_faults(entries.drop_last(), subjects, teachers, class_id) + fault_piece(
            entries.last(),
            subjects,
            teachers,
            class_id,
        )
    }
}

/// The header line of each announcement mode.
pub open spec fn header_seq(mode: Announcement) -> Seq<char> {
    match mode {
        Announcement::Today => "Heute entfällt:\n"@,
        Announcement::Tomorrow => "Morgen entfällt:\n"@,
        Announcement::Quiet => Seq::empty(),
    }
}

/// The whole message: empty in quiet mode, otherwise the header followed
/// by the lines of the relevant, resolvable cancelled entries.
pub open spec fn spec_message(
    mode: Announcement,
    class_id: i64,
    entries: Seq<Entry>,
    subjects: Seq<Subject>,
    teachers: Seq<Teacher>,
) -> Seq<char> {
    if mode is Quiet {
        Seq::empty()
    } else {
        header_seq(mode) + compose_lines(entries, subjects, teachers, class_id)
    }
}

/// The reported faults: none in quiet mode, otherwise one per relevant
/// entry that failed to resolve, in entry order.
pub open spec fn spec_faults(
    mode: Announcement,
    class_id: i64,
    entries: Seq<Entry>,
    subjects: Seq<Subject>,
    teachers: Seq<Teacher>,
) -> Seq<FaultView> {
    if mode is Quiet {
        Seq::empty()
    } else {
        compose_faults(entries, subjects, teachers, class_id)
    }
}

/// The mathematical image of a fault list.
pub open spec fn fault_views(faults: Seq<Fault>) -> Seq<FaultView> {
    faults.map_values(|f: Fault| f@)
}

/// A composed announcement: the message text and the data-integrity
/// faults met on the way, reported rather than silently defaulted.
pub struct Composition {
    pub message: String,
    pub faults: Vec<Fault>,
}

fn contains_id(ids: &Vec<i64>, wanted: i64) -> (r: bool)
    ensures
        r == ids@.contains(wanted),
{
    let n = ids.len();
    for i in 0..n
        invariant
            n == ids@.len(),
            forall|j: int| 0 <= j < i ==> ids@[j] != wanted,
    {
        if ids[i] == wanted {
            return true;
        }
    }
    false
}

/// The subject record whose id matches, scanned front to back.
pub fn subject_name(subjects: &Vec<Subject>, id: i64) -> (r: Option<String>)
    ensures
        match r {
            Some(name) => spec_subject_name(subjects@, id) == Some(name@),
            None => spec_subject_name(subjects@, id) is None,
        },
{
    let n = subjects.len();
    proof {
        assert(subjects@.skip(0) =~= subjects@);
    }
    for i in 0..n
        invariant
            n == subjects@.len(),
            spec_subject_name(subjects@, id) == spec_subject_name(
                subjects@.skip(i as int),
                id,
            ),
    {
        proof {
            assert(subjects@.skip(i as int).first() == subjects@[i as int]);
        }
        if subjects[i].id == id {
            return Some(subjects[i].name.clone());
        }
        proof {
            assert(subjects@.skip(i as int).drop_first() =~= subjects@.skip(i as int + 1));
        }
    }
    None
}

/// The teacher for a subject-name code, scanned front to back.
pub fn teacher_name(teachers: &Vec<Teacher>, subject: &String) -> (r: Option<String>)
    ensures
        match r {
            Some(name) => spec_teacher_name(teachers@, subject@) == Some(name@),
            None => spec_teacher_name(teachers@, subject@) is None,
        },
{
    let n = teachers.len();
    proof {
        assert(teachers@.skip(0) =~= teachers@);
    }
    for i in 0..n
        invariant
            n == teachers@.len(),
            spec_teacher_name(teachers@, subject@) == spec_teacher_name(
                teachers@.skip(i as int),
                subject@,
            ),
    {
        proof {
            assert(teachers@.skip(i as int).first() == teachers@[i as int]);
        }
        if teachers[i].subject_name == *subject {
            return Some(teachers[i].teacher_name.clone());
        }
        proof {
            assert(teachers@.skip(i as int).drop_first() =~= teachers@.skip(i as int + 1));
        }
    }
    None
}

/// The decimal label of a period number.
fn period_label(period: u8) -> (r: &'static str)
    requires
        1 <= period <= 12,
    ensures
        r@ == period_digits(period as int),
{
    if period == 1 {
        "1"
    } else if period == 2 {
        "2"
    } else if period == 3 {
        "3"
    } else if period == 4 {
        "4"
    } else if period == 5 {
        "5"
    } else if period == 6 {
        "6"
    } else if period == 7 {
        "7"
    } else if period == 8 {
        "8"
    } else if period == 9 {
        "9"
    } else if period == 10 {
        "10"
    } else if period == 11 {
        "11"
    } else {
        "12"
    }
}

/// Composes the announcement for one fetch: nothing in quiet mode,
/// otherwise the header plus one line per relevant cancelled entry that
/// resolves through the subject and teacher tables, with one reported
/// fault per relevant entry that does not.
pub fn compose_message(
    mode: Announcement,
    class_id: i64,
    entries: &Vec<Entry>,
    subjects: &Vec<Subject>,
    teachers: &Vec<Teacher>,
) -> (r: Composition)
    ensures
        r.message@ == spec_message(mode, class_id, entries@, subjects@, teachers@),
        fault_views(r.faults@) == spec_faults(mode, class_id, entries@, subjects@, teachers@),
{
    let mut message = String::new();
    match mode {
        Announcement::Quiet => {
            let faults: Vec<Fault> = Vec::new();
            proof {
                assert(fault_views(faults@) =~= Seq::<FaultView>::empty());
            }
            return Composition { message, faults };
        },
        Announcement::Today => {
            message.append("Heute entfällt:\n");
        },
        Announcement::Tomorrow => {
            message.append("Morgen entfällt:\n");
        },
    }
    let mut faults: Vec<Fault> = Vec::new();
    let cancelled = String::from_str("cancelled");
    let n = entries.len();
    proof {
        assert(entries@.take(0) =~= Seq::<Entry>::empty());
        assert(message@ =~= header_seq(mode) + compose_lines(
            entries@.take(0),
            subjects@,
            teachers@,
            class_id,
        ));
        assert(fault_views(faults@) =~= compose_faults(
            entries@.take(0),
            subjects@,
            teachers@,
            class_id,
        ));
    }
    for i in 0..n
        invariant
            n == entries@.len(),
            mode is Today || mode is Tomorrow,
            message@ == header_seq(mode) + compose_lines(
                entries@.take(i as int),
                subjects@,
                teachers@,
                class_id,
            ),
            fault_views(faults@) == compose_faults(
                entries@.take(i as int),
                subjects@,
                teachers@,
                class_id,
            ),
            cancelled@ == cancelled_code(),
    {
        let e = &entries[i];
        let ghost pre_message = message@;
        let ghost pre_faults = fault_views(faults@);
        if contains_id(&e.class_ids, class_id) && e.code == cancelled {
            if e.subject_ids.len() == 0 {
                faults.push(Fault::MissingSubjectId { start_time: e.start_time });
            } else {
                let sid = e.subject_ids[0];
                match period_of(e.start_time) {
                    None => {
                        faults.push(Fault::UnknownStartTime { start_time: e.start_time });
                    },
                    Some(period) => {
                        match subject_name(subjects, sid) {
                            None => {
                                faults.push(Fault::UnknownSubject { subject_id: sid });
                            },
                            Some(name) => {
                                match teacher_name(teachers, &name) {
                                    None => {
                                        faults.push(Fault::UnknownTeacher { subject_name: name });
                                    },
                                    Some(teacher) => {
                                        message.append(name.as_str());
                                        message.append(" in der ");
                                        message.append(period_label(period));
                                        message.append(". Stunde bei ");
                                        message.append(teacher.as_str());
                                        message.append("\n");
                                        proof {
                                            assert(message@ =~= pre_message + line_for(
                                                name@,
                                                period as int,
                                                teacher@,
                                            ));
                                        }
                                    },
                                }
                            },
                        }
                    },
                }
            }
        }
        proof {
            let prefix = entries@.take(i as int);
            let extended = entries@.take(i as int + 1);
            assert(extended.drop_last() =~= prefix);
            assert(extended.last() == entries@[i as int]);
            assert(message@ =~= pre_message + line_piece(
                entries@[i as int],
                subjects@,
                teachers@,
                class_id,
            ));
            assert(fault_views(faults@) =~= pre_faults + fault_piece(
                entries@[i as int],
                subjects@,
                teachers@,
                class_id,
            ));
            assert(message@ =~= header_seq(mode) + compose_lines(
                extended,
                subjects@,
                teachers@,
                class_id,
            ));
            assert(fault_views(faults@) =~= compose_faults(
                extended,
                subjects@,
                teachers@,
                class_id,
            ));
        }
    }
    proof {
        assert(entries@.take(n as int) =~= entries@);
    }
    Composition { message, faults }
}

/// Composition is deterministic: two messages composed from the same
/// inputs are byte-identical.
pub proof fn lemma_composition_deterministic(
    first: Seq<char>,
    second: Seq<char>,
    mode: Announcement,
    class_id: i64,
    entries: Seq<Entry>,
    subjects: Seq<Subject>,
    teachers: Seq<Teacher>,
)
    requires
        first == spec_message(mode, class_id, entries, subjects, teachers),
        second == spec_message(mode, class_id, entries, subjects, teachers),
    ensures
        first == second,
{
}

proof fn lemma_skipped_entry(
    entries: Seq<Entry>,
    subjects: Seq<Subject>,
    teachers: Seq<Teacher>,
    class_id: i64,
    i: int,
)
    requires
        0 <= i < entries.len(),
        !entry_relevant(entries[i], class_id),
    ensures
        compose_lines(entries, subjects, teachers, class_id) == compose_lines(
            entries.remove(i),
            subjects,
            teachers,
            class_id,
        ),
        compose_faults(entries, subjects, teachers, class_id) == compose_faults(
            entries.remove(i),
            subjects,
            teachers,
            class_id,
        ),
    decreases entries.len(),
{
    if i == entries.len() - 1 {
        assert(entries.remove(i) =~= entries.drop_last());
        assert(compose_lines(entries, subjects, teachers, class_id) =~= compose_lines(
            entries.drop_last(),
            subjects,
            teachers,
            class_id,
        ));
        assert(compose_faults(entries, subjects, teachers, class_id) =~= compose_faults(
            entries.drop_last(),
            subjects,
            teachers,
            class_id,
        ));
    } else {
        let shorter = entries.drop_last();
        lemma_skipped_entry(shorter, subjects, teachers, class_id, i);
        assert(entries.remove(i).drop_last() =~= shorter.remove(i));
        assert(entries.remove(i).last() == entries.last());
    }
}

/// An entry whose class-id list does not contain the configured class id
/// contributes neither a line nor a fault, whatever its status code:
/// leaving it out changes nothing.
pub proof fn lemma_unlisted_class_contributes_nothing(
    mode: Announcement,
    class_id: i64,
    entries: Seq<Entry>,
    subjects: Seq<Subject>,
    teachers: Seq<Teacher>,
    i: int,
)
    requires
        0 <= i < entries.len(),
        !entries[i].class_ids@.contains(class_id),
    ensures
        spec_message(mode, class_id, entries, subjects, teachers) == spec_message(
            mode,
            class_id,
            entries.remove(i),
            subjects,
            teachers,
        ),
        spec_faults(mode, class_id, entries, subjects, teachers) == spec_faults(
            mode,
            class_id,
            entries.remove(i),
            subjects,
            teachers,
        ),
{
    lemma_skipped_entry(entries, subjects, teachers, class_id, i);
}

/// An entry whose status code is not the cancellation sentinel
/// contributes neither a line nor a fault: leaving it out changes
/// nothing.
pub proof fn lemma_uncancelled_contributes_nothing(
    mode: Announcement,
    class_id: i64,
    entries: Seq<Entry>,
    subjects: Seq<Subject>,
    teachers: Seq<Teacher>,
    i: int,
)
    requires
        0 <= i < entries.len(),
        entries[i].code@ != cancelled_code(),
    ensures
        spec_message(mode, class_id, entries, subjects, teachers) == spec_message(
            mode,
            class_id,
            entries.remove(i),
            subjects,
            teachers,
        ),
        spec_faults(mode, class_id, entries, subjects, teachers) == spec_faults(
            mode,
            class_id,
            entries.remove(i),
            subjects,
            teachers,
        ),
{
    lemma_skipped_entry(entries, subjects, teachers, class_id, i);
}

/// A relevant cancelled entry whose start time is not in the period
/// table is reported as a fault, never silently defaulted.
pub proof fn lemma_unknown_start_time_reported(
    entries: Seq<Entry>,
    subjects: Seq<Subject>,
    teachers: Seq<Teacher>,
    class_id: i64,
    i: int,
)
    requires
        0 <= i < entries.len(),
        entry_relevant(entries[i], class_id),
        entries[i].subject_ids@.len() > 0,
        spec_period_of(entries[i].start_time as int) is None,
    ensures
        compose_faults(entries, subjects, teachers, class_id).contains(
            FaultView::UnknownStartTime { start_time: entries[i].start_time as int },
        ),
    decreases entries.len(),
{
    let fault = FaultView::UnknownStartTime { start_time: entries[i].start_time as int };
    let shorter = entries.drop_last();
    let report = compose_faults(entries, subjects, teachers, class_id);
    if i == entries.len() - 1 {
        let earlier = compose_faults(shorter, subjects, teachers, class_id);
        assert(report[earlier.len() as int] == fault);
        assert(report.contains(fault));
    } else {
        lemma_unknown_start_time_reported(shorter, subjects, teachers, class_id, i);
        let earlier = compose_faults(shorter, subjects, teachers, class_id);
        let j = choose|j: int| 0 <= j < earlier.len() && earlier[j] == fault;
        assert(report[j] == fault);
        assert(report.contains(fault));
    }
}

} // verus!
