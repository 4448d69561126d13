//! Decoding of the service's JSON documents into the plain data model.
//!
//! The JSON tree itself is handled by serde_json behind trusted
//! wrappers. What a text parses to is given a name, `json_of`, and a
//! spec-level tree, `JsonView`; the wrappers tie every answer they hand
//! back to that tree, and the verified decoders below carry exact
//! contracts over it, turning every malformed document into a typed
//! fault instead of a crash.

use vstd::prelude::*;
use crate::model::{Entry, Subject, Teacher};

verus! {

#[verifier::external_type_specification]
#[verifier::external_body]
pub struct ExValue(serde_json::Value);

/// A JSON document, as the decoding contracts see it. A number that
/// serde_json reads as an `i64` is an `Integer`; any other JSON number
/// (a fraction, or an integer beyond `i64`) is `OtherNumber`.
pub enum JsonView {
    Null,
    Boolean(bool),
    Integer(int),
    OtherNumber,
    Text(Seq<char>),
    Items(Seq<JsonView>),
    Pairs(Seq<(Seq<char>, JsonView)>),
}

/// What a serde_json value holds, as a tree of plain values.
pub uninterp spec fn value_view(value: serde_json::Value) -> JsonView;

/// What parsing a text as JSON yields: a tree for a valid document,
/// nothing for invalid text.
pub uninterp spec fn json_of(text: Seq<char>) -> Option<JsonView>;

/// The member of a JSON object for a key: a linear scan, first match
/// wins (serde_json's map holds each key at most once). Anything that
/// is not an object has no members.
pub open spec fn spec_member(pairs: Seq<(Seq<char>, JsonView)>, key: Seq<char>) -> Option<JsonView>
    decreases pairs.len(),
{
    if pairs.len() == 0 {
        None
    } else if pairs.first().0 == key {
        Some(pairs.first().1)
    } else {
        spec_member(pairs.drop_first(), key)
    }
}

/// The member of a JSON document for a key, when the document is an
/// object that has one.
pub open spec fn spec_object_member(doc: JsonView, key: Seq<char>) -> Option<JsonView> {
    match doc {
        JsonView::Pairs(pairs) => spec_member(pairs, key),
        _ => None,
    }
}

/// A malformed or unexpected service response.
#[derive(Clone, Copy, Debug, PartialEq, Eq, Structural)]
pub enum ProtocolFault {
    /// The body is not valid JSON.
    NotJson,
    /// The response carries no usable `result` member.
    MissingResult,
    /// The authenticate response carries no string `result.sessionId`.
    MissingSessionId,
    /// A subject record lacks its integer `id` or its string `name`.
    MalformedSubject,
    /// A timetable entry has a malformed class list, subject list,
    /// start time or status code.
    MalformedEntry,
    /// The teacher table is not an object of string values.
    MalformedTeacherTable,
}

/// Relies on serde_json::from_str: parses a JSON document, or nothing
/// when the text is not valid JSON.
#[verifier::external_body]
fn json_parse(text: &str) -> (r: Option<serde_json::Value>)
    ensures
        match r {
            Some(v) => json_of(text@) == Some(value_view(v)),
            None => json_of(text@) is None,
        },
{
    serde_json::from_str(text).ok()
}

/// Relies on serde_json::Value::get: the member of a JSON object by key,
/// or nothing when the value is no object or has no such member.
#[verifier::external_body]
fn json_get<'a>(value: &'a serde_json::Value, key: &str) -> (r: Option<&'a serde_json::Value>)
    ensures
        match r {
            Some(member) => spec_object_member(value_view(*value), key@) == Some(
                value_view(*member),
            ),
            None => spec_object_member(value_view(*value), key@) is None,
        },
{
    value.get(key)
}

/// Relies on serde_json::Value::as_str: the text of a JSON string value.
#[verifier::external_body]
fn json_as_str(value: &serde_json::Value) -> (r: Option<String>)
    ensures
        match r {
            Some(text) => value_view(*value) == JsonView::Text(text@),
            None => !(value_view(*value) is Text),
        },
{
    value.as_str().map(|text| text.to_string())
}

/// Relies on serde_json::Value::as_i64: the value of a JSON number that
/// fits an i64.
#[verifier::external_body]
fn json_as_i64(value: &serde_json::Value) -> (r: Option<i64>)
    ensures
        match r {
            Some(number) => value_view(*value) == JsonView::Integer(number as int),
            None => !(value_view(*value) is Integer),
        },
{
    value.as_i64()
}

/// Relies on serde_json::Value::as_bool: the value of a JSON boolean.
#[verifier::external_body]
fn json_as_bool(value: &serde_json::Value) -> (r: Option<bool>)
    ensures
        match r {
            Some(b) => value_view(*value) == JsonView::Boolean(b),
            None => !(value_view(*value) is Boolean),
        },
{
    value.as_bool()
}

/// Relies on serde_json::Value::as_array: the items of a JSON array.
#[verifier::external_body]
fn json_array_items(value: &serde_json::Value) -> (r: Option<Vec<serde_json::Value>>)
    ensures
        match r {
            Some(items) => value_view(*value) == JsonView::Items(
                items@.map_values(|v: serde_json::Value| value_view(v)),
            ),
            None => !(value_view(*value) is Items),
        },
{
    value.as_array().map(|items| items.clone())
}

/// Relies on serde_json::Value::as_object and serde_json::Map::iter:
/// the key/value pairs of a JSON object, in the map's key order (the
/// default map is sorted by key).
#[verifier::external_body]
fn json_object_pairs(value: &serde_json::Value) -> (r: Option<Vec<(String, serde_json::Value)>>)
    ensures
        match r {
            Some(pairs) => value_view(*value) == JsonView::Pairs(
                pairs@.map_values(|p: (String, serde_json::Value)| (p.0@, value_view(p.1))),
            ),
            None => !(value_view(*value) is Pairs),
        },
{
    value.as_object().map(|map| map.iter().map(|(k, v)| (k.clone(), v.clone())).collect())
}

/// The session id of an authenticate document: the string member
/// `result.sessionId`, or the exact fault for anything else.
pub open spec fn spec_session_id(doc: Option<JsonView>) -> Result<Seq<char>, ProtocolFault> {
    match doc {
        None => Err(ProtocolFault::NotJson),
        Some(root) => match spec_object_member(root, "result"@) {
            None => Err(ProtocolFault::MissingSessionId),
            Some(result) => match spec_object_member(result, "sessionId"@) {
                None => Err(ProtocolFault::MissingSessionId),
                Some(session) => match session {
                    JsonView::Text(token) => Ok(token),
                    _ => Err(ProtocolFault::MissingSessionId),
                },
            },
        },
    }
}

/// The session token of an authenticate response: `result.sessionId`.
/// An absent or non-string token is a typed fault, never a crash.
pub fn extract_session_id(body: &str) -> (r: Result<String, ProtocolFault>)
    ensures
        match r {
            Ok(token) => spec_session_id(json_of(body@)) == Ok::<Seq<char>, ProtocolFault>(token@),
            Err(f) => spec_session_id(json_of(body@)) == Err::<Seq<char>, ProtocolFault>(f),
        },
{
    let parsed = match json_parse(body) {
        Some(v) => v,
        None => {
            return Err(ProtocolFault::NotJson);
        },
    };
    let result = match json_get(&parsed, "result") {
        Some(v) => v,
        None => {
            return Err(ProtocolFault::MissingSessionId);
        },
    };
    let session = match json_get(result, "sessionId") {
        Some(v) => v,
        None => {
            return Err(ProtocolFault::MissingSessionId);
        },
    };
    match json_as_str(session) {
        Some(token) => Ok(token),
        None => Err(ProtocolFault::MissingSessionId),
    }
}

/// The verdict of a logout document: its boolean `result` member, or
/// the exact fault for anything else.
pub open spec fn spec_logout_ok(doc: Option<JsonView>) -> Result<bool, ProtocolFault> {
    match doc {
        None => Err(ProtocolFault::NotJson),
        Some(root) => match spec_object_member(root, "result"@) {
            None => Err(ProtocolFault::MissingResult),
            Some(result) => match result {
                JsonView::Boolean(ok) => Ok(ok),
                _ => Err(ProtocolFault::MissingResult),
            },
        },
    }
}

/// Whether a logout response reports success: its boolean `result`.
pub fn logout_succeeded(body: &str) -> (r: Result<bool, ProtocolFault>)
    ensures
        match r {
            Ok(ok) => spec_logout_ok(json_of(body@)) == Ok::<bool, ProtocolFault>(ok),
            Err(f) => spec_logout_ok(json_of(body@)) == Err::<bool, ProtocolFault>(f),
        },
{
    let parsed = match json_parse(body) {
        Some(v) => v,
        None => {
            return Err(ProtocolFault::NotJson);
        },
    };
    let result = match json_get(&parsed, "result") {
        Some(v) => v,
        None => {
            return Err(ProtocolFault::MissingResult);
        },
    };
    match json_as_bool(result) {
        Some(ok) => Ok(ok),
        None => Err(ProtocolFault::MissingResult),
    }
}

/// The rows already decoded, followed by what the rest of a document
/// decodes to: the rest's fault if it has one.
pub open spec fn decode_after<T>(done: Seq<T>, rest: Result<Seq<T>, ProtocolFault>) -> Result<
    Seq<T>,
    ProtocolFault,
> {
    match rest {
        Ok(rows) => Ok(done + rows),
        Err(f) => Err(f),
    }
}

/// The mathematical image of an id list.
pub open spec fn id_views(ids: Seq<i64>) -> Seq<int> {
    ids.map_values(|id: i64| id as int)
}

/// One row of a `kl` or `su` list: an object with an integer `id`.
pub open spec fn spec_id_row(item: JsonView) -> Option<int> {
    match spec_object_member(item, "id"@) {
        Some(JsonView::Integer(id)) => Some(id),
        _ => None,
    }
}

/// The ids of a `kl` or `su` array, or nothing if a row is malformed.
pub open spec fn spec_id_rows(items: Seq<JsonView>) -> Option<Seq<int>>
    decreases items.len(),
{
    if items.len() == 0 {
        Some(Seq::empty())
    } else {
        match spec_id_row(items.first()) {
            None => None,
            Some(id) => match spec_id_rows(items.drop_first()) {
                None => None,
                Some(rest) => Some(seq![id] + rest),
            },
        }
    }
}

/// The ids of a `kl` or `su` list, which must be an array of id rows.
pub open spec fn spec_ids(list: JsonView) -> Option<Seq<int>> {
    match list {
        JsonView::Items(items) => spec_id_rows(items),
        _ => None,
    }
}

/// The ids of an array of JSON objects that each carry an integer `id`.
fn id_list(value: &serde_json::Value) -> (r: Result<Vec<i64>, ProtocolFault>)
    ensures
        match r {
            Ok(ids) => spec_ids(value_view(*value)) == Some(id_views(ids@)),
            Err(f) => spec_ids(value_view(*value)) is None && f == ProtocolFault::MalformedEntry,
        },
{
    let items = match json_array_items(value) {
        Some(items) => items,
        None => {
            return Err(ProtocolFault::MalformedEntry);
        },
    };
    let ghost items_views = items@.map_values(|v: serde_json::Value| value_view(v));
    let mut ids: Vec<i64> = Vec::new();
    let n = items.len();
    proof {
        assert(items_views.skip(0) =~= items_views);
        assert(id_views(ids@) =~= Seq::<int>::empty());
        match spec_id_rows(items_views) {
            Some(rest) => {
                assert(id_views(ids@) + rest =~= rest);
            },
            None => {},
        }
    }
    for i in 0..n
        invariant
            n == items@.len(),
            items_views == items@.map_values(|v: serde_json::Value| value_view(v)),
            spec_ids(value_view(*value)) == (match spec_id_rows(items_views.skip(i as int)) {
                Some(rest) => Some(id_views(ids@) + rest),
                None => None::<Seq<int>>,
            }),
    {
        proof {
            assert(items_views.skip(i as int).first() == items_views[i as int]);
            assert(items_views[i as int] == value_view(items@[i as int]));
            assert(items_views.skip(i as int).drop_first() =~= items_views.skip(i as int + 1));
        }
        let id_value = match json_get(&items[i], "id") {
            Some(v) => v,
            None => {
                return Err(ProtocolFault::MalformedEntry);
            },
        };
        let id = match json_as_i64(id_value) {
            Some(id) => id,
            None => {
                return Err(ProtocolFault::MalformedEntry);
            },
        };
        let ghost done = id_views(ids@);
        ids.push(id);
        proof {
            assert(id_views(ids@) =~= done.push(id as int));
            match spec_id_rows(items_views.skip(i as int + 1)) {
                Some(rest) => {
                    assert(done + (seq![id as int] + rest) =~= id_views(ids@) + rest);
                },
                None => {},
            }
        }
    }
    proof {
        assert(items_views.skip(n as int) =~= Seq::<JsonView>::empty());
        assert(id_views(ids@) + Seq::<int>::empty() =~= id_views(ids@));
    }
    Ok(ids)
}

/// The mathematical image of a subject list: id and name of each row.
pub open spec fn subject_rows(subjects: Seq<Subject>) -> Seq<(int, Seq<char>)> {
    subjects.map_values(|s: Subject| (s.id as int, s.name@))
}

/// One subject row: an object with an integer `id` and a string `name`.
pub open spec fn spec_subject_row(item: JsonView) -> Option<(int, Seq<char>)> {
    match (spec_object_member(item, "id"@), spec_object_member(item, "name"@)) {
        (Some(JsonView::Integer(id)), Some(JsonView::Text(name))) => Some((id, name)),
        _ => None,
    }
}

/// The subject rows of the `result` array, or the fault of the first
/// malformed row.
pub open spec fn spec_subject_rows(items: Seq<JsonView>) -> Result<
    Seq<(int, Seq<char>)>,
    ProtocolFault,
>
    decreases items.len(),
{
    if items.len() == 0 {
        Ok(Seq::empty())
    } else {
        match spec_subject_row(items.first()) {
            None => Err(ProtocolFault::MalformedSubject),
            Some(row) => decode_after(seq![row], spec_subject_rows(items.drop_first())),
        }
    }
}

/// What a subjects document decodes to: the rows of its `result` array,
/// or the exact fault.
pub open spec fn spec_subjects(doc: Option<JsonView>) -> Result<
    Seq<(int, Seq<char>)>,
    ProtocolFault,
> {
    match doc {
        None => Err(ProtocolFault::NotJson),
        Some(root) => match spec_object_member(root, "result"@) {
            None => Err(ProtocolFault::MissingResult),
            Some(result) => match result {
                JsonView::Items(items) => spec_subject_rows(items),
                _ => Err(ProtocolFault::MissingResult),
            },
        },
    }
}

/// The subject list of a subjects response: the `result` array, each
/// item with an integer `id` and a string `name`.
pub fn decode_subjects(body: &str) -> (r: Result<Vec<Subject>, ProtocolFault>)
    ensures
        match r {
            Ok(subjects) => spec_subjects(json_of(body@)) == Ok::<
                Seq<(int, Seq<char>)>,
                ProtocolFault,
            >(subject_rows(subjects@)),
            Err(f) => spec_subjects(json_of(body@)) == Err::<
                Seq<(int, Seq<char>)>,
                ProtocolFault,
            >(f),
        },
{
    let parsed = match json_parse(body) {
        Some(v) => v,
        None => {
            return Err(ProtocolFault::NotJson);
        },
    };
    let result = match json_get(&parsed, "result") {
        Some(v) => v,
        None => {
            return Err(ProtocolFault::MissingResult);
        },
    };
    let items = match json_array_items(result) {
        Some(items) => items,
        None => {
            return Err(ProtocolFault::MissingResult);
        },
    };
    let ghost items_views = items@.map_values(|v: serde_json::Value| value_view(v));
    let mut subjects: Vec<Subject> = Vec::new();
    let n = items.len();
    proof {
        assert(items_views.skip(0) =~= items_views);
        assert(subject_rows(subjects@) =~= Seq::<(int, Seq<char>)>::empty());
        match spec_subject_rows(items_views) {
            Ok(rest) => {
                assert(subject_rows(subjects@) + rest =~= rest);
            },
            Err(_) => {},
        }
    }
    for i in 0..n
        invariant
            n == items@.len(),
            items_views == items@.map_values(|v: serde_json::Value| value_view(v)),
            spec_subjects(json_of(body@)) == decode_after(
                subject_rows(subjects@),
                spec_subject_rows(items_views.skip(i as int)),
            ),
    {
        proof {
            assert(items_views.skip(i as int).first() == items_views[i as int]);
            assert(items_views[i as int] == value_view(items@[i as int]));
            assert(items_views.skip(i as int).drop_first() =~= items_views.skip(i as int + 1));
        }
        let id_value = match json_get(&items[i], "id") {
            Some(v) => v,
            None => {
                return Err(ProtocolFault::MalformedSubject);
            },
        };
        let id = match json_as_i64(id_value) {
            Some(id) => id,
            None => {
                return Err(ProtocolFault::MalformedSubject);
            },
        };
        let name_value = match json_get(&items[i], "name") {
            Some(v) => v,
            None => {
                return Err(ProtocolFault::MalformedSubject);
            },
        };
        let name = match json_as_str(name_value) {
            Some(name) => name,
            None => {
                return Err(ProtocolFault::MalformedSubject);
            },
        };
        let ghost done = subject_rows(subjects@);
        let ghost row = (id as int, name@);
        subjects.push(Subject { id, name });
        proof {
            assert(subject_rows(subjects@) =~= done.push(row));
            match spec_subject_rows(items_views.skip(i as int + 1)) {
                Ok(rest) => {
                    assert(done + (seq![row] + rest) =~= subject_rows(subjects@) + rest);
                },
                Err(_) => {},
            }
        }
    }
    proof {
        assert(items_views.skip(n as int) =~= Seq::<JsonView>::empty());
        assert(subject_rows(subjects@) + Seq::<(int, Seq<char>)>::empty() =~= subject_rows(
            subjects@,
        ));
    }
    Ok(subjects)
}

/// The mathematical image of an entry list: class ids, subject ids,
/// start time and status code of each row.
pub open spec fn entry_rows(entries: Seq<Entry>) -> Seq<(Seq<int>, Seq<int>, int, Seq<char>)> {
    entries.map_values(
        |e: Entry| (id_views(e.class_ids@), id_views(e.subject_ids@), e.start_time as int, e.code@),
    )
}

/// One timetable entry row: optional `kl` and `su` id lists (absent
/// decodes as empty), an integer `startTime`, and an optional string
/// `code` (absent decodes as the empty string, meaning not cancelled).
pub open spec fn spec_entry_row(item: JsonView) -> Option<(Seq<int>, Seq<int>, int, Seq<char>)> {
    let classes = match spec_object_member(item, "kl"@) {
        None => Some(Seq::<int>::empty()),
        Some(list) => spec_ids(list),
    };
    let lessons = match spec_object_member(item, "su"@) {
        None => Some(Seq::<int>::empty()),
        Some(list) => spec_ids(list),
    };
    let start = match spec_object_member(item, "startTime"@) {
        Some(JsonView::Integer(t)) => Some(t),
        _ => None::<int>,
    };
    let code = match spec_object_member(item, "code"@) {
        None => Some(Seq::<char>::empty()),
        Some(JsonView::Text(c)) => Some(c),
        Some(_) => None::<Seq<char>>,
    };
    match (classes, lessons, start, code) {
        (Some(c), Some(s), Some(t), Some(k)) => Some((c, s, t, k)),
        _ => None,
    }
}

/// The entry rows of the `result` array, or the fault of the first
/// malformed row.
pub open spec fn spec_entry_rows(items: Seq<JsonView>) -> Result<
    Seq<(Seq<int>, Seq<int>, int, Seq<char>)>,
    ProtocolFault,
>
    decreases items.len(),
{
    if items.len() == 0 {
        Ok(Seq::empty())
    } else {
        match spec_entry_row(items.first()) {
            None => Err(ProtocolFault::MalformedEntry),
            Some(row) => decode_after(seq![row], spec_entry_rows(items.drop_first())),
        }
    }
}

/// What a timetable document decodes to: the rows of its `result`
/// array, or the exact fault.
pub open spec fn spec_entries(doc: Option<JsonView>) -> Result<
    Seq<(Seq<int>, Seq<int>, int, Seq<char>)>,
    ProtocolFault,
> {
    match doc {
        None => Err(ProtocolFault::NotJson),
        Some(root) => match spec_object_member(root, "result"@) {
            None => Err(ProtocolFault::MissingResult),
            Some(result) => match result {
                JsonView::Items(items) => spec_entry_rows(items),
                _ => Err(ProtocolFault::MissingResult),
            },
        },
    }
}

/// The timetable entries of a timetable response: the `result` array,
/// decoded row by row as `spec_entry_row` describes.
pub fn decode_entries(body: &str) -> (r: Result<Vec<Entry>, ProtocolFault>)
    ensures
        match r {
            Ok(entries) => spec_entries(json_of(body@)) == Ok::<
                Seq<(Seq<int>, Seq<int>, int, Seq<char>)>,
                ProtocolFault,
            >(entry_rows(entries@)),
            Err(f) => spec_entries(json_of(body@)) == Err::<
                Seq<(Seq<int>, Seq<int>, int, Seq<char>)>,
                ProtocolFault,
            >(f),
        },
{
    let parsed = match json_parse(body) {
        Some(v) => v,
        None => {
            return Err(ProtocolFault::NotJson);
        },
    };
    let result = match json_get(&parsed, "result") {
        Some(v) => v,
        None => {
            return Err(ProtocolFault::MissingResult);
        },
    };
    let items = match json_array_items(result) {
        Some(items) => items,
        None => {
            return Err(ProtocolFault::MissingResult);
        },
    };
    let ghost items_views = items@.map_values(|v: serde_json::Value| value_view(v));
    let mut entries: Vec<Entry> = Vec::new();
    let n = items.len();
    proof {
        assert(items_views.skip(0) =~= items_views);
        assert(entry_rows(entries@) =~= Seq::<(Seq<int>, Seq<int>, int, Seq<char>)>::empty());
        match spec_entry_rows(items_views) {
            Ok(rest) => {
                assert(entry_rows(entries@) + rest =~= rest);
            },
            Err(_) => {},
        }
    }
    for i in 0..n
        invariant
            n == items@.len(),
            items_views == items@.map_values(|v: serde_json::Value| value_view(v)),
            spec_entries(json_of(body@)) == decode_after(
                entry_rows(entries@),
                spec_entry_rows(items_views.skip(i as int)),
            ),
    {
        proof {
            assert(items_views.skip(i as int).first() == items_views[i as int]);
            assert(items_views[i as int] == value_view(items@[i as int]));
            assert(items_views.skip(i as int).drop_first() =~= items_views.skip(i as int + 1));
        }
        let class_ids = match json_get(&items[i], "kl") {
            Some(list) => match id_list(list) {
                Ok(ids) => ids,
                Err(_) => {
                    return Err(ProtocolFault::MalformedEntry);
                },
            },
            None => Vec::new(),
        };
        let subject_ids = match json_get(&items[i], "su") {
            Some(list) => match id_list(list) {
                Ok(ids) => ids,
                Err(_) => {
                    return Err(ProtocolFault::MalformedEntry);
                },
            },
            None => Vec::new(),
        };
        let start_value = match json_get(&items[i], "startTime") {
            Some(v) => v,
            None => {
                return Err(ProtocolFault::MalformedEntry);
            },
        };
        let start_time = match json_as_i64(start_value) {
            Some(t) => t,
            None => {
                return Err(ProtocolFault::MalformedEntry);
            },
        };
        let code = match json_get(&items[i], "code") {
            Some(v) => match json_as_str(v) {
                Some(code) => code,
                None => {
                    return Err(ProtocolFault::MalformedEntry);
                },
            },
            None => String::new(),
        };
        proof {
            assert(id_views(Seq::<i64>::empty()) =~= Seq::<int>::empty());
        }
        let ghost done = entry_rows(entries@);
        let ghost row = (id_views(class_ids@), id_views(subject_ids@), start_time as int, code@);
        proof {
            assert(spec_entry_row(items_views[i as int]) == Some(row));
        }
        entries.push(Entry { class_ids, subject_ids, start_time, code });
        proof {
            assert(entry_rows(entries@) =~= done.push(row));
            match spec_entry_rows(items_views.skip(i as int + 1)) {
                Ok(rest) => {
                    assert(done + (seq![row] + rest) =~= entry_rows(entries@) + rest);
                },
                Err(_) => {},
            }
        }
    }
    proof {
        assert(items_views.skip(n as int) =~= Seq::<JsonView>::empty());
        assert(entry_rows(entries@) + Seq::<(Seq<int>, Seq<int>, int, Seq<char>)>::empty()
            =~= entry_rows(entries@));
    }
    Ok(entries)
}

/// The mathematical image of a teacher table: subject-name code and
/// teacher name of each row.
pub open spec fn teacher_rows(teachers: Seq<Teacher>) -> Seq<(Seq<char>, Seq<char>)> {
    teachers.map_values(|t: Teacher| (t.subject_name@, t.teacher_name@))
}

/// One teacher row: an object member whose value is a string.
pub open spec fn spec_teacher_row(pair: (Seq<char>, JsonView)) -> Option<(Seq<char>, Seq<char>)> {
    match pair.1 {
        JsonView::Text(name) => Some((pair.0, name)),
        _ => None,
    }
}

/// The teacher rows of the table's pairs, or the fault of the first
/// non-string value.
pub open spec fn spec_teacher_rows(pairs: Seq<(Seq<char>, JsonView)>) -> Result<
    Seq<(Seq<char>, Seq<char>)>,
    ProtocolFault,
>
    decreases pairs.len(),
{
    if pairs.len() == 0 {
        Ok(Seq::empty())
    } else {
        match spec_teacher_row(pairs.first()) {
            None => Err(ProtocolFault::MalformedTeacherTable),
            Some(row) => decode_after(seq![row], spec_teacher_rows(pairs.drop_first())),
        }
    }
}

/// What a teacher-table document decodes to: one row per member of the
/// top-level object, in the table's key order, or the exact fault.
pub open spec fn spec_teachers(doc: Option<JsonView>) -> Result<
    Seq<(Seq<char>, Seq<char>)>,
    ProtocolFault,
> {
    match doc {
        None => Err(ProtocolFault::NotJson),
        Some(root) => match root {
            JsonView::Pairs(pairs) => spec_teacher_rows(pairs),
            _ => Err(ProtocolFault::MalformedTeacherTable),
        },
    }
}

/// The teacher table: a top-level JSON object mapping each subject-name
/// code to a teacher display name, both plain strings.
pub fn decode_teachers(body: &str) -> (r: Result<Vec<Teacher>, ProtocolFault>)
    ensures
        match r {
            Ok(teachers) => spec_teachers(json_of(body@)) == Ok::<
                Seq<(Seq<char>, Seq<char>)>,
                ProtocolFault,
            >(teacher_rows(teachers@)),
            Err(f) => spec_teachers(json_of(body@)) == Err::<
                Seq<(Seq<char>, Seq<char>)>,
                ProtocolFault,
            >(f),
        },
{
    let parsed = match json_parse(body) {
        Some(v) => v,
        None => {
            return Err(ProtocolFault::NotJson);
        },
    };
    let pairs = match json_object_pairs(&parsed) {
        Some(pairs) => pairs,
        None => {
            return Err(ProtocolFault::MalformedTeacherTable);
        },
    };
    let ghost pair_views = pairs@.map_values(
        |p: (String, serde_json::Value)| (p.0@, value_view(p.1)),
    );
    let mut teachers: Vec<Teacher> = Vec::new();
    let n = pairs.len();
    proof {
        assert(pair_views.skip(0) =~= pair_views);
        assert(teacher_rows(teachers@) =~= Seq::<(Seq<char>, Seq<char>)>::empty());
        match spec_teacher_rows(pair_views) {
            Ok(rest) => {
                assert(teacher_rows(teachers@) + rest =~= rest);
            },
            Err(_) => {},
        }
    }
    for i in 0..n
        invariant
            n == pairs@.len(),
            pair_views == pairs@.map_values(
                |p: (String, serde_json::Value)| (p.0@, value_view(p.1)),
            ),
            spec_teachers(json_of(body@)) == decode_after(
                teacher_rows(teachers@),
                spec_teacher_rows(pair_views.skip(i as int)),
            ),
    {
        proof {
            assert(pair_views.skip(i as int).first() == pair_views[i as int]);
            assert(pair_views[i as int] == (pairs@[i as int].0@, value_view(pairs@[i as int].1)));
            assert(pair_views.skip(i as int).drop_first() =~= pair_views.skip(i as int + 1));
        }
        let teacher = match json_as_str(&pairs[i].1) {
            Some(name) => name,
            None => {
                return Err(ProtocolFault::MalformedTeacherTable);
            },
        };
        let ghost done = teacher_rows(teachers@);
        let ghost row = (pairs@[i as int].0@, teacher@);
        teachers.push(Teacher { subject_name: pairs[i].0.clone(), teacher_name: teacher });
        proof {
            assert(teacher_rows(teachers@) =~= done.push(row));
            match spec_teacher_rows(pair_views.skip(i as int + 1)) {
                Ok(rest) => {
                    assert(done + (seq![row] + rest) =~= teacher_rows(teachers@) + rest);
                },
                Err(_) => {},
            }
        }
    }
    proof {
        assert(pair_views.skip(n as int) =~= Seq::<(Seq<char>, JsonView)>::empty());
        assert(teacher_rows(teachers@) + Seq::<(Seq<char>, Seq<char>)>::empty() =~= teacher_rows(
            teachers@,
        ));
    }
    Ok(teachers)
}

} // verus!
