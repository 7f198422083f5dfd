//! The health record entity and its JSON rendering.
//!
//! A record is six free-form string fields, the identifier optional. No
//! invariant constrains the fields. The JSON rendering is fixed: one object,
//! the fields in declaration order, an absent identifier rendered as `null`.

use vstd::prelude::*;
use crate::json::{json_quoted, push_chars, push_json_quoted, chars_to_string};

verus! {

/// One health record. Fields are freely settable strings; nothing is
/// validated, and nothing is stored beyond a single request.
pub struct HealthRecord {
    pub id: Option<String>,
    pub owner_id: String,
    pub record_type: String,
    pub title: String,
    pub content: String,
    pub date: String,
}

/// The mathematical model of a record: each field as a character sequence.
pub ghost struct RecordModel {
    pub id: Option<Seq<char>>,
    pub owner_id: Seq<char>,
    pub record_type: Seq<char>,
    pub title: Seq<char>,
    pub content: Seq<char>,
    pub date: Seq<char>,
}

impl View for HealthRecord {
    type V = RecordModel;

    open spec fn view(&self) -> RecordModel {
        RecordModel {
            id: match self.id {
                Option::Some(s) => Option::Some(s@),
                Option::None => Option::None,
            },
            owner_id: self.owner_id@,
            record_type: self.record_type@,
            title: self.title@,
            content: self.content@,
            date: self.date@,
        }
    }
}

/// The JSON value of the optional identifier: a string literal, or `null`.
pub open spec fn id_json(id: Option<Seq<char>>) -> Seq<char> {
    match id {
        Option::Some(s) => json_quoted(s),
        Option::None => "null"@,
    }
}

/// The JSON object for a record, fields in declaration order.
pub open spec fn record_json_model(r: RecordModel) -> Seq<char> {
    "{\"id\":"@ + id_json(r.id) + ",\"owner_id\":"@ + json_quoted(r.owner_id)
        + ",\"record_type\":"@ + json_quoted(r.record_type) + ",\"title\":"@
        + json_quoted(r.title) + ",\"content\":"@ + json_quoted(r.content) + ",\"date\":"@
        + json_quoted(r.date) + "}"@
}

/// Renders a record as its JSON object, exactly as `record_json_model` says.
pub fn record_json(rec: &HealthRecord) -> (out: String)
    ensures
        out@ == record_json_model(rec@),
{
    let mut buf: Vec<char> = Vec::new();
    push_chars(&mut buf, "{\"id\":");
    match &rec.id {
        Option::Some(s) => push_json_quoted(&mut buf, s.as_str()),
        Option::None => push_chars(&mut buf, "null"),
    }
    push_chars(&mut buf, ",\"owner_id\":");
    push_json_quoted(&mut buf, rec.owner_id.as_str());
    push_chars(&mut buf, ",\"record_type\":");
    push_json_quoted(&mut buf, rec.record_type.as_str());
    push_chars(&mut buf, ",\"title\":");
    push_json_quoted(&mut buf, rec.title.as_str());
    push_chars(&mut buf, ",\"content\":");
    push_json_quoted(&mut buf, rec.content.as_str());
    push_chars(&mut buf, ",\"date\":");
    push_json_quoted(&mut buf, rec.date.as_str());
    push_chars(&mut buf, "}");
    assert(buf@ =~= record_json_model(rec@));
    chars_to_string(buf)
}

/// The record the lookup endpoint fabricates: the requested identifier,
/// every other field a fixed placeholder.
pub open spec fn mock_record_model(id: Seq<char>) -> RecordModel {
    RecordModel {
        id: Option::Some(id),
        owner_id: "user123"@,
        record_type: "bloodwork"@,
        title: "Mock Record"@,
        content: "This is a placeholder record"@,
        date: "2025-04-15"@,
    }
}

/// Builds the fabricated record for a lookup of `id`.
pub fn mock_record(id: String) -> (r: HealthRecord)
    ensures
        r@ == mock_record_model(id@),
{
    HealthRecord {
        id: Option::Some(id),
        owner_id: String::from_str("user123"),
        record_type: String::from_str("bloodwork"),
        title: String::from_str("Mock Record"),
        content: String::from_str("This is a placeholder record"),
        date: String::from_str("2025-04-15"),
    }
}

} // verus!
