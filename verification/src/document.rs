//! BSON documents as the audit and key stores hold them.
//!
//! A `bson::Document` is kept as it is and never looked into by verified
//! code. What it holds is named by `document_fields`, and every item in this
//! module that touches a document says what it does in terms of that name; all
//! of them are trusted.

use bson::document::ValueAccessError;
use bson::{Bson, Document};
use vstd::prelude::*;

verus! {

#[verifier::external_type_specification]
#[verifier::external_body]
pub struct ExDocument(Document);

#[verifier::external_type_specification]
pub struct ExValueAccessError(ValueAccessError);

/// What one field of a document holds, as far as this crate tells values
/// apart.
pub enum Field {
    /// The BSON null.
    Null,
    /// A string.
    Text(Seq<char>),
    /// A boolean.
    Flag(bool),
    /// A UTC date-time, as milliseconds since the Unix epoch.
    Instant(i64),
    /// An object id, as its twenty-four hexadecimal digits.
    ObjectId(Seq<char>),
    /// A document, as its own fields.
    Nested(Map<Seq<char>, Field>),
    /// A value of any other BSON type.
    Other,
}

/// A value that this crate writes into a document.
#[derive(Debug)]
pub enum Value {
    Null,
    Text(String),
    Flag(bool),
    Instant(i64),
    ObjectId(String),
    Nested(Document),
}

impl View for Value {
    type V = Field;

    open spec fn view(&self) -> Field {
        match self {
            Value::Null => Field::Null,
            Value::Text(text) => Field::Text(text@),
            Value::Flag(flag) => Field::Flag(*flag),
            Value::Instant(millis) => Field::Instant(*millis),
            Value::ObjectId(hex) => Field::ObjectId(hex@),
            Value::Nested(doc) => Field::Nested(document_fields(*doc)),
        }
    }
}

/// Whether a text writes an object id the way the `bson` crate writes it:
/// twenty-four hexadecimal digits, letters in lower case.
pub open spec fn is_object_id_text(text: Seq<char>) -> bool {
    text.len() == 24 && forall|i: int|
        0 <= i < text.len() ==> is_lower_hex(#[trigger] text[i])
}

pub open spec fn is_lower_hex(c: char) -> bool {
    ('0' as u32 <= c as u32 <= '9' as u32) || ('a' as u32 <= c as u32 <= 'f' as u32)
}

/// Whether a value can be written into a document: a date-time has to be one
/// that `chrono` has, and an object id has to be written as one.
pub open spec fn writable(value: Value) -> bool {
    match value {
        Value::Instant(millis) => representable_instant(millis),
        Value::ObjectId(hex) => is_object_id_text(hex@),
        _ => true,
    }
}

/// The fields of a document, by key.
pub uninterp spec fn document_fields(doc: Document) -> Map<Seq<char>, Field>;

/// The first millisecond of the first day that `chrono` has a date for:
/// January 1 of the year -262143, counted from the Unix epoch.
pub const MIN_INSTANT: i64 = -8_334_601_228_800_000;

/// The last millisecond of the last day that `chrono` has a date for:
/// December 31 of the year 262142, counted from the Unix epoch.
pub const MAX_INSTANT: i64 = 8_210_266_876_799_999;

/// Whether `chrono` has a UTC date-time for this count of milliseconds since
/// the Unix epoch: whether the count falls on a day that it has a date for.
pub open spec fn representable_instant(millis: i64) -> bool {
    MIN_INSTANT <= millis <= MAX_INSTANT
}

/// What the typed getters of a document answer for the field under `key`,
/// where `wanted` picks the values of the type asked for: `NotPresent` where
/// the document has no such key, `UnexpectedType` where the value is of
/// another type.
pub open spec fn access<T>(
    fields: Map<Seq<char>, Field>,
    key: Seq<char>,
    wanted: spec_fn(Field) -> Option<T>,
) -> Result<T, ValueAccessError> {
    if !fields.contains_key(key) {
        Err(ValueAccessError::NotPresent)
    } else {
        match wanted(fields[key]) {
            Some(value) => Ok(value),
            None => Err(ValueAccessError::UnexpectedType),
        }
    }
}

/// The string under `key`.
pub open spec fn text_at(fields: Map<Seq<char>, Field>, key: Seq<char>) -> Result<
    Seq<char>,
    ValueAccessError,
> {
    access(
        fields,
        key,
        |f: Field|
            match f {
                Field::Text(text) => Some(text),
                _ => None,
            },
    )
}

/// The boolean under `key`.
pub open spec fn flag_at(fields: Map<Seq<char>, Field>, key: Seq<char>) -> Result<
    bool,
    ValueAccessError,
> {
    access(
        fields,
        key,
        |f: Field|
            match f {
                Field::Flag(flag) => Some(flag),
                _ => None,
            },
    )
}

/// The date-time under `key`, in milliseconds since the Unix epoch.
pub open spec fn instant_at(fields: Map<Seq<char>, Field>, key: Seq<char>) -> Result<
    i64,
    ValueAccessError,
> {
    access(
        fields,
        key,
        |f: Field|
            match f {
                Field::Instant(millis) => Some(millis),
                _ => None,
            },
    )
}

/// The object id under `key`, as hexadecimal digits.
pub open spec fn object_id_at(fields: Map<Seq<char>, Field>, key: Seq<char>) -> Result<
    Seq<char>,
    ValueAccessError,
> {
    access(
        fields,
        key,
        |f: Field|
            match f {
                Field::ObjectId(hex) => Some(hex),
                _ => None,
            },
    )
}

/// Whether the BSON null stands under `key`.
pub open spec fn null_at(fields: Map<Seq<char>, Field>, key: Seq<char>) -> bool {
    fields.contains_key(key) && fields[key] == Field::Null
}

/// The text that `ValueAccessError` shows for itself.
pub open spec fn access_error_text(error: ValueAccessError) -> Seq<char> {
    match error {
        ValueAccessError::NotPresent => "field is not present"@,
        _ => "field does not have the expected type"@,
    }
}

/// `Document::new`: the document without fields.
pub assume_specification[ Document::new ]() -> (fresh: Document)
    ensures
        document_fields(fresh) =~= Map::empty(),
;

/// `Document::get_str`: the string under `key`; `NotPresent` where the
/// document has no such key, `UnexpectedType` where the value is no string.
pub assume_specification<'a>[ Document::get_str ](doc: &'a Document, key: &str) -> (r: Result<
    &'a str,
    ValueAccessError,
>)
    ensures
        match r {
            Ok(text) => text_at(document_fields(*doc), key@) matches Ok(held) && held == text@,
            Err(e) => text_at(document_fields(*doc), key@) matches Err(refusal) && refusal == e,
        },
;

/// `Document::get_bool`: the boolean under `key`, with the errors of
/// `get_str`.
pub assume_specification[ Document::get_bool ](doc: &Document, key: &str) -> (r: Result<
    bool,
    ValueAccessError,
>)
    ensures
        r == flag_at(document_fields(*doc), key@),
;

/// `Document::is_null`: whether the document has `key` and holds the BSON
/// null under it.
pub assume_specification[ Document::is_null ](doc: &Document, key: &str) -> (null: bool)
    ensures
        null == null_at(document_fields(*doc), key@),
;

/// `Document::insert`, for the values this crate writes. Trusted: the field
/// under `key` holds `value` afterwards and the other fields are as before. A
/// date-time is made by `DateTime::from_timestamp_millis`, which accepts the
/// counts from `MIN_INSTANT` to `MAX_INSTANT`, and an object id by
/// `ObjectId::with_string`; the precondition leaves out what they refuse.
#[verifier::external_body]
pub(crate) fn insert_field(doc: &mut Document, key: &str, value: Value)
    requires
        writable(value),
    ensures
        document_fields(*final(doc)) == document_fields(*old(doc)).insert(key@, value@),
{
    let bson = match value {
        Value::Null => Bson::Null,
        Value::Text(text) => Bson::String(text),
        Value::Flag(flag) => Bson::Boolean(flag),
        Value::Instant(millis) => Bson::DateTime(
            chrono::DateTime::from_timestamp_millis(millis).unwrap(),
        ),
        Value::ObjectId(hex) => Bson::ObjectId(bson::oid::ObjectId::with_string(&hex).unwrap()),
        Value::Nested(inner) => Bson::Document(inner),
    };
    doc.insert(key, bson);
}

/// `Document::get_object_id`, with the id written out by `ObjectId::to_hex`.
/// Trusted: the errors are those of `get_str`, for a field that holds an
/// object id.
#[verifier::external_body]
pub(crate) fn object_id_field(doc: &Document, key: &str) -> (r: Result<String, ValueAccessError>)
    ensures
        match r {
            Ok(hex) => object_id_at(document_fields(*doc), key@) matches Ok(held) && held == hex@,
            Err(e) => object_id_at(document_fields(*doc), key@) matches Err(refusal) && refusal
                == e,
        },
{
    match doc.get_object_id(key) {
        Ok(id) => Ok(id.to_hex()),
        Err(e) => Err(e),
    }
}

/// `Document::get_datetime`, with the date-time counted in milliseconds by
/// `DateTime::timestamp_millis`. Trusted: the errors are those of `get_str`,
/// for a field that holds a date-time. Nothing is claimed of the count: a
/// stored date-time may stand in a leap second at the very end of the range,
/// and its count is then past what a date-time can be made from.
#[verifier::external_body]
pub(crate) fn instant_field(doc: &Document, key: &str) -> (r: Result<i64, ValueAccessError>)
    ensures
        r == instant_at(document_fields(*doc), key@),
{
    match doc.get_datetime(key) {
        Ok(at) => Ok(at.timestamp_millis()),
        Err(e) => Err(e),
    }
}

/// `chrono::Utc::now`, counted in milliseconds by `DateTime::timestamp_millis`.
/// Trusted: nothing of the time itself, only that the count is in range:
/// `now` makes its date-time by `DateTime::from_timestamp` from whole seconds
/// and less than a second, and panics where the system's clock stands
/// outside the range or before the Unix epoch.
#[verifier::external_body]
pub(crate) fn now_millis() -> (millis: i64)
    ensures
        representable_instant(millis),
{
    chrono::Utc::now().timestamp_millis()
}

/// Whether `chrono` has a UTC date-time for this count of milliseconds.
pub fn is_representable(millis: i64) -> (ok: bool)
    ensures
        ok == representable_instant(millis),
{
    MIN_INSTANT <= millis && millis <= MAX_INSTANT
}

/// The `Display` of `ValueAccessError`. Trusted: the two texts that the
/// `bson` crate writes for its two variants.
#[verifier::external_body]
pub(crate) fn describe_access_error(error: &ValueAccessError) -> (text: String)
    ensures
        text@ == access_error_text(*error),
{
    error.to_string()
}

} // verus!
