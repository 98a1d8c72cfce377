//! The key authority's own side: the keys it stores, the documents it writes
//! and asks for, and what its endpoints answer.

use crate::authority::{
    validation, ApiKey, ApiKeyResponse, ApiKeyView, AuthError, KeyAuthorityRecord, LookupOutcome,
};
use crate::credential::{canonical, canonical_text, is_random_uuid, uuid_value, Credential};
use crate::envelope::Envelope;
use crate::document::{
    access_error_text, describe_access_error, document_fields, flag_at, insert_field,
    instant_at, instant_field, is_representable, is_lower_hex, is_object_id_text,
    now_millis, object_id_at, object_id_field, representable_instant, text_at, Field, Value,
};
use bson::document::ValueAccessError;
use bson::Document;
use vstd::prelude::*;
use vstd::string::StringExecFns;

verus! {

/// A stored key.
#[derive(Debug)]
pub struct Key {
    pub id: String,
    pub key: Credential,
    pub create_time: i64,
    pub update_time: i64,
    pub enabled: bool,
}

/// The mathematical content of a `Key`.
pub struct KeyView {
    pub id: Seq<char>,
    pub key: Credential,
    pub create_time: i64,
    pub update_time: i64,
    pub enabled: bool,
}

impl View for Key {
    type V = KeyView;

    open spec fn view(&self) -> KeyView {
        KeyView {
            id: self.id@,
            key: self.key,
            create_time: self.create_time,
            update_time: self.update_time,
            enabled: self.enabled,
        }
    }
}

/// A key about to be stored.
#[derive(Clone, Copy, Debug, PartialEq, Eq, Structural)]
pub struct NewKey {
    pub key: Credential,
}

/// A key to be enabled or disabled.
#[derive(Clone, Copy, Debug, PartialEq, Eq, Structural)]
pub struct UpdateKey {
    pub key: Credential,
    pub enabled: bool,
}

/// A failure of the key store or of a document read from it.
#[derive(Debug)]
pub enum SimpleApiError {
    /// A stored document lacks a field or holds it under another type.
    InvalidFieldError(ValueAccessError),
    /// The store holds no such key.
    MongoDBEmptyResult,
    /// The store failed; `source` is what it said.
    MongoDBOperationError { source: String },
}

/// The error envelope of the key endpoints.
#[derive(Debug)]
pub struct JsonError {
    pub msg: String,
    pub status: u16,
    pub success: bool,
}

/// What a removal reports: how many keys went.
#[derive(Clone, Copy, Debug, PartialEq, Eq, Structural)]
pub struct Removed {
    pub count: i64,
}

pub open spec fn key_id() -> Seq<char> {
    "_id"@
}

pub open spec fn key_key() -> Seq<char> {
    "key"@
}

pub open spec fn key_create_time() -> Seq<char> {
    "create_time"@
}

pub open spec fn key_update_time() -> Seq<char> {
    "update_time"@
}

pub open spec fn key_enabled() -> Seq<char> {
    "enabled"@
}

pub open spec fn key_set() -> Seq<char> {
    "$set"@
}

/// The credential that a stored document holds under `key`: the one whose
/// text stands there. A field that is missing, no string, or no UUID text is
/// refused.
pub open spec fn stored_key(fields: Map<Seq<char>, Field>) -> Result<Credential, ValueAccessError> {
    match text_at(fields, key_key()) {
        Ok(text) => match uuid_value(text) {
            Some(bits) => Ok(Credential { bits }),
            None => Err(ValueAccessError::UnexpectedType),
        },
        Err(e) => Err(e),
    }
}

/// The key that a stored document holds. Fields are read in the order id,
/// key, time of creation, time of update, enabled, and the first one that
/// cannot be read decides the error.
pub open spec fn key_of(fields: Map<Seq<char>, Field>) -> Result<KeyView, ValueAccessError> {
    match object_id_at(fields, key_id()) {
        Err(e) => Err(e),
        Ok(id) => match stored_key(fields) {
            Err(e) => Err(e),
            Ok(key) => match instant_at(fields, key_create_time()) {
                Err(e) => Err(e),
                Ok(create_time) => match instant_at(fields, key_update_time()) {
                    Err(e) => Err(e),
                    Ok(update_time) => match flag_at(fields, key_enabled()) {
                        Err(e) => Err(e),
                        Ok(enabled) => Ok(KeyView { id, key, create_time, update_time, enabled }),
                    },
                },
            },
        },
    }
}

/// The fields of the document written for a new key: its text, the two
/// times, and enabled.
pub open spec fn new_key_fields(key: Credential, update_time: i64, create_time: i64) -> Map<
    Seq<char>,
    Field,
> {
    Map::empty().insert(key_key(), Field::Text(key.text())).insert(
        key_update_time(),
        Field::Instant(update_time),
    ).insert(key_create_time(), Field::Instant(create_time)).insert(
        key_enabled(),
        Field::Flag(true),
    )
}

/// The fields of the filter that selects the key that `key` spells: the text
/// under which that key is stored.
pub open spec fn key_filter_fields(key: Seq<char>) -> Map<Seq<char>, Field> {
    Map::empty().insert(key_key(), Field::Text(canonical_text(key)))
}

/// What the key endpoints answer of a stored key: its id, the key, whether it
/// is disabled, and the times of its creation and last update.
pub open spec fn payload_of(key: KeyView) -> ApiKeyView {
    ApiKeyView {
        id: key.id,
        key: key.key,
        disabled: !key.enabled,
        created_at: key.create_time,
        updated_at: key.update_time,
    }
}

/// The payloads of a run of keys.
pub open spec fn payloads_of(keys: Seq<Key>) -> Seq<ApiKeyView> {
    keys.map_values(|key: Key| payload_of(key@))
}

/// The views of a run of payloads.
pub open spec fn payload_views(payloads: Seq<ApiKey>) -> Seq<ApiKeyView> {
    payloads.map_values(|payload: ApiKey| payload@)
}

/// The fields of the filter that selects the document stored under an id.
pub open spec fn id_filter_fields(id: Seq<char>) -> Map<Seq<char>, Field> {
    Map::empty().insert(key_id(), Field::ObjectId(id))
}

/// The fields of the update that enables or disables a key at `update_time`.
pub open spec fn update_fields(enabled: bool, update_time: i64) -> Map<Seq<char>, Field> {
    Map::empty().insert(
        key_set(),
        Field::Nested(
            Map::empty().insert(key_update_time(), Field::Instant(update_time)).insert(
                key_enabled(),
                Field::Flag(enabled),
            ),
        ),
    )
}

/// What a `SimpleApiError` says of itself.
pub open spec fn api_error_text(error: SimpleApiError) -> Seq<char> {
    match error {
        SimpleApiError::InvalidFieldError(inner) => "invalid field in BSON document: "@
            + access_error_text(inner),
        SimpleApiError::MongoDBEmptyResult => "empty results"@,
        SimpleApiError::MongoDBOperationError { source } => "Operation failed: "@ + source@,
    }
}

/// The status under which a `SimpleApiError` is answered: 404 where the key
/// is not there, 500 for everything else.
pub open spec fn api_error_status(error: SimpleApiError) -> u16 {
    match error {
        SimpleApiError::MongoDBEmptyResult => 404,
        _ => 500,
    }
}

impl Key {
    /// Reads a key from a document of the store.
    pub fn convert_bson_to_key(bson_doc: &Document) -> (r: Result<Key, ValueAccessError>)
        ensures
            match r {
                Ok(key) => key_of(document_fields(*bson_doc)) == Ok::<KeyView, ValueAccessError>(
                    key@,
                ),
                Err(e) => key_of(document_fields(*bson_doc)) == Err::<KeyView, ValueAccessError>(e),
            },
    {
        let id = object_id_field(bson_doc, "_id")?;
        let key = match Credential::parse(bson_doc.get_str("key")?) {
            Ok(key) => key,
            Err(_) => {
                return Err(ValueAccessError::UnexpectedType);
            },
        };
        let create_time = instant_field(bson_doc, "create_time")?;
        let update_time = instant_field(bson_doc, "update_time")?;
        let enabled = bson_doc.get_bool("enabled")?;
        Ok(Key { id, key, create_time, update_time, enabled })
    }

    /// Reads the key of a lookup: of the document that was found, or of the
    /// lack of one.
    pub fn found(doc: Option<Document>) -> (r: Result<Key, SimpleApiError>)
        ensures
            match doc {
                None => r matches Err(SimpleApiError::MongoDBEmptyResult),
                Some(doc) => match key_of(document_fields(doc)) {
                    Ok(key) => r matches Ok(read) && read@ == key,
                    Err(e) => r matches Err(SimpleApiError::InvalidFieldError(inner)) && inner == e,
                },
            },
    {
        match doc {
            None => Err(SimpleApiError::MongoDBEmptyResult),
            Some(doc) => match Key::convert_bson_to_key(&doc) {
                Ok(key) => Ok(key),
                Err(e) => Err(SimpleApiError::InvalidFieldError(e)),
            },
        }
    }

    /// The filter that selects the key that `key` spells, in whichever of
    /// its forms and in either letter case. A `key` that spells no key is
    /// looked for as it is, and found nowhere.
    pub fn filter(key: &str) -> (filter: Document)
        ensures
            document_fields(filter) == key_filter_fields(key@),
    {
        let mut filter = Document::new();
        insert_field(&mut filter, "key", Value::Text(canonical(key)));
        filter
    }

    /// What the key endpoints answer of this key.
    pub fn payload(&self) -> (payload: ApiKey)
        ensures
            payload@ == payload_of(self@),
    {
        ApiKey {
            id: self.id.clone(),
            key: self.key,
            disabled: !self.enabled,
            created_at: self.create_time,
            updated_at: self.update_time,
        }
    }

    /// The filter that selects the document stored under `id`; none where
    /// `id` does not write an object id.
    pub fn id_filter(id: &str) -> (r: Option<Document>)
        ensures
            r is Some == is_object_id_text(id@),
            r matches Some(filter) ==> document_fields(filter) == id_filter_fields(id@),
    {
        let n: usize = id.unicode_len();
        if n != 24 {
            return None;
        }
        let mut i: usize = 0;
        while i < n
            invariant
                i <= n,
                n == id@.len(),
                forall|j: int| 0 <= j < i ==> is_lower_hex(#[trigger] id@[j]),
            decreases n - i,
        {
            let c: u32 = id.get_char(i) as u32;
            if !(('0' as u32 <= c && c <= '9' as u32) || ('a' as u32 <= c && c <= 'f' as u32)) {
                return None;
            }
            i += 1;
        }
        let mut filter = Document::new();
        insert_field(&mut filter, "_id", Value::ObjectId(id.to_owned()));
        Some(filter)
    }
}

impl NewKey {
    /// A new key, drawn at random.
    pub fn create() -> (new: NewKey)
        ensures
            is_random_uuid(new.key.bits),
    {
        NewKey { key: Credential::generate() }
    }

    fn document(&self, update_time: i64, create_time: i64) -> (doc: Document)
        requires
            representable_instant(update_time),
            representable_instant(create_time),
        ensures
            document_fields(doc) == new_key_fields(self.key, update_time, create_time),
    {
        let mut doc = Document::new();
        insert_field(&mut doc, "key", Value::Text(self.key.to_text()));
        insert_field(&mut doc, "update_time", Value::Instant(update_time));
        insert_field(&mut doc, "create_time", Value::Instant(create_time));
        insert_field(&mut doc, "enabled", Value::Flag(true));
        doc
    }

    /// The document that stores this key with the given times, enabled; none
    /// where the store's date-times do not reach one of them.
    pub fn document_at(&self, update_time: i64, create_time: i64) -> (r: Option<Document>)
        ensures
            r is Some == (representable_instant(update_time) && representable_instant(create_time)),
            r matches Some(doc) ==> document_fields(doc) == new_key_fields(
                self.key,
                update_time,
                create_time,
            ),
    {
        if is_representable(update_time) && is_representable(create_time) {
            Some(self.document(update_time, create_time))
        } else {
            None
        }
    }

    /// The document that stores this key as made now.
    pub fn document_now(&self) -> (doc: Document)
        ensures
            exists|update_time: i64, create_time: i64|
                representable_instant(update_time) && representable_instant(create_time)
                    && document_fields(doc) == #[trigger] new_key_fields(
                    self.key,
                    update_time,
                    create_time,
                ),
    {
        let update_time = now_millis();
        let create_time = now_millis();
        self.document(update_time, create_time)
    }
}

impl UpdateKey {
    /// The filter that selects the key to update.
    pub fn filter(&self) -> (filter: Document)
        ensures
            document_fields(filter) == key_filter_fields(self.key.text()),
    {
        let text = self.key.to_text();
        Key::filter(text.as_str())
    }

    fn changes(&self, update_time: i64) -> (doc: Document)
        requires
            representable_instant(update_time),
        ensures
            document_fields(doc) == update_fields(self.enabled, update_time),
    {
        let mut set = Document::new();
        insert_field(&mut set, "update_time", Value::Instant(update_time));
        insert_field(&mut set, "enabled", Value::Flag(self.enabled));
        let mut doc = Document::new();
        insert_field(&mut doc, "$set", Value::Nested(set));
        doc
    }

    /// The update that enables or disables the key at `update_time`; none
    /// where the store's date-times do not reach that far.
    pub fn changes_at(&self, update_time: i64) -> (r: Option<Document>)
        ensures
            r is Some == representable_instant(update_time),
            r matches Some(doc) ==> document_fields(doc) == update_fields(self.enabled, update_time),
    {
        if is_representable(update_time) {
            Some(self.changes(update_time))
        } else {
            None
        }
    }

    /// The update that enables or disables the key now.
    pub fn changes_now(&self) -> (doc: Document)
        ensures
            exists|update_time: i64|
                representable_instant(update_time) && document_fields(doc) == #[trigger] update_fields(
                    self.enabled,
                    update_time,
                ),
    {
        let update_time = now_millis();
        self.changes(update_time)
    }
}

impl SimpleApiError {
    /// What the error says of itself.
    pub fn message(&self) -> (text: String)
        ensures
            text@ == api_error_text(*self),
    {
        match self {
            SimpleApiError::InvalidFieldError(inner) => {
                let detail = describe_access_error(inner);
                "invalid field in BSON document: ".to_owned().concat(detail.as_str())
            },
            SimpleApiError::MongoDBEmptyResult => "empty results".to_owned(),
            SimpleApiError::MongoDBOperationError { source } => {
                "Operation failed: ".to_owned().concat(source.as_str())
            },
        }
    }
}

impl JsonError {
    /// The envelope for a failure of the key store: 404 where the key is not
    /// there, else 500, and the error's own words.
    pub fn from(err: SimpleApiError) -> (envelope: JsonError)
        ensures
            envelope.msg@ == api_error_text(err),
            envelope.status == api_error_status(err),
            !envelope.success,
    {
        let status: u16 = match err {
            SimpleApiError::MongoDBOperationError { source: _ }
            | SimpleApiError::InvalidFieldError(_) => 500,
            SimpleApiError::MongoDBEmptyResult => 404,
        };
        JsonError { msg: err.message(), status, success: false }
    }

    /// The envelope for an insert that reported no object id.
    pub fn insert_failed() -> (envelope: JsonError)
        ensures
            envelope.msg@ == "Insert failed"@,
            envelope.status == 500,
            !envelope.success,
    {
        JsonError { msg: "Insert failed".to_owned(), status: 500, success: false }
    }

    /// The envelope for a removal that found nothing under `key`.
    pub fn not_found(key: &str) -> (envelope: JsonError)
        ensures
            envelope.msg@ == "Key not found: "@ + key@,
            envelope.status == 404,
            !envelope.success,
    {
        JsonError { msg: "Key not found: ".to_owned().concat(key), status: 404, success: false }
    }
}

/// What a key endpoint answers for a key that was looked for: status 200
/// and the key's payload, or the error envelope for the store's failure, 404
/// where the key is not there.
pub fn key_answer(found: Result<Key, SimpleApiError>) -> (r: Result<ApiKeyResponse, JsonError>)
    ensures
        match found {
            Ok(key) => r matches Ok(envelope) && envelope.status == 200 && envelope.success
                && envelope.payload@ == payload_of(key@),
            Err(error) => r matches Err(envelope) && envelope.msg@ == api_error_text(error)
                && envelope.status == api_error_status(error) && !envelope.success,
        },
{
    match found {
        Ok(key) => Ok(ApiKeyResponse { status: 200, success: true, payload: key.payload() }),
        Err(error) => Err(JsonError::from(error)),
    }
}

/// What the key endpoint answers for the listing of all keys: status 200 and
/// the payload of each key, in the order of the listing, or the error
/// envelope for the store's failure.
pub fn keys_answer(found: Result<Vec<Key>, SimpleApiError>) -> (r: Result<
    Envelope<Vec<ApiKey>>,
    JsonError,
>)
    ensures
        match found {
            Ok(keys) => r matches Ok(envelope) && envelope.status == 200 && envelope.success
                && payload_views(envelope.payload@) == payloads_of(keys@),
            Err(error) => r matches Err(envelope) && envelope.msg@ == api_error_text(error)
                && envelope.status == api_error_status(error) && !envelope.success,
        },
{
    match found {
        Ok(keys) => {
            let mut payloads: Vec<ApiKey> = Vec::new();
            let mut i: usize = 0;
            proof {
                assert(payload_views(payloads@) =~= Seq::empty());
                assert(payloads_of(keys@.take(0)) =~= Seq::empty());
            }
            while i < keys.len()
                invariant
                    i <= keys.len(),
                    payload_views(payloads@) == payloads_of(keys@.take(i as int)),
                decreases keys.len() - i,
            {
                let payload = keys[i].payload();
                proof {
                    assert(keys@.take(i + 1) =~= keys@.take(i as int).push(keys@[i as int]));
                    assert(payloads_of(keys@.take(i + 1)) =~= payloads_of(
                        keys@.take(i as int),
                    ).push(payload_of(keys@[i as int]@)));
                    assert(payload_views(payloads@.push(payload)) =~= payload_views(
                        payloads@,
                    ).push(payload@));
                }
                payloads.push(payload);
                i += 1;
            }
            proof {
                assert(keys@.take(i as int) =~= keys@);
            }
            Ok(Envelope::ok(payloads))
        },
        Err(error) => Err(JsonError::from(error)),
    }
}

/// What the endpoint that creates a key makes of the id that the store
/// reported for the insert: the id to read the key back under, or the failure
/// where the store reported no object id.
pub fn inserted(inserted_id: Option<String>) -> (r: Result<String, JsonError>)
    ensures
        match inserted_id {
            Some(id) => r matches Ok(same) && same@ == id@,
            None => r matches Err(envelope) && envelope.msg@ == "Insert failed"@ && envelope.status
                == 500 && !envelope.success,
        },
{
    match inserted_id {
        Some(id) => Ok(id),
        None => Err(JsonError::insert_failed()),
    }
}

/// What the endpoint that removes a key answers for the number of keys that
/// went: the count, or 404 where nothing went.
pub fn removed(key: &str, deleted_count: i64) -> (r: Result<Removed, JsonError>)
    ensures
        match r {
            Ok(report) => deleted_count != 0 && report.count == deleted_count,
            Err(envelope) => deleted_count == 0 && envelope.msg@ == "Key not found: "@ + key@
                && envelope.status == 404 && !envelope.success,
        },
{
    if deleted_count == 0 {
        Err(JsonError::not_found(key))
    } else {
        Ok(Removed { count: deleted_count })
    }
}

/// What a key endpoint answers for a stored key is read by a client of the
/// key authority as a record of that key, disabled exactly where the stored
/// key is not enabled.
pub proof fn lemma_answer_is_read(key: KeyView, envelope: ApiKeyResponse)
    requires
        envelope.payload@ == payload_of(key),
    ensures
        validation(LookupOutcome::Answered { status: 200, body: Some(envelope) }) == Ok::<
            KeyAuthorityRecord,
            AuthError,
        >(KeyAuthorityRecord { key: key.key, disabled: !key.enabled }),
{
}

/// A new key that is stored and found again reads back as that key, enabled,
/// with the times it was stored with and the id the store gave it.
pub proof fn lemma_new_key_round_trip(
    key: Credential,
    update_time: i64,
    create_time: i64,
    id: Seq<char>,
)
    ensures
        key_of(
            new_key_fields(key, update_time, create_time).insert(key_id(), Field::ObjectId(id)),
        ) == Ok::<KeyView, ValueAccessError>(
            KeyView { id, key, create_time, update_time, enabled: true },
        ),
{
    reveal_strlit("_id");
    reveal_strlit("key");
    reveal_strlit("create_time");
    reveal_strlit("update_time");
    reveal_strlit("enabled");
    assert(key_id().len() == 3 && key_id()[0] == '_');
    assert(key_key().len() == 3 && key_key()[0] == 'k');
    assert(key_create_time().len() == 11 && key_create_time()[0] == 'c');
    assert(key_update_time().len() == 11 && key_update_time()[0] == 'u');
    assert(key_enabled().len() == 7);
    crate::credential::lemma_text_round_trip(key);
    let fields = new_key_fields(key, update_time, create_time).insert(
        key_id(),
        Field::ObjectId(id),
    );
    assert(fields[key_key()] == Field::Text(key.text()));
    assert(stored_key(fields) == Ok::<Credential, ValueAccessError>(key));
}

} // verus!
