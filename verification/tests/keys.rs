use auth_proxy::authority::{KeyAuthorityClient, KeyAuthorityRecord, LookupOutcome};
use auth_proxy::credential::Credential;
use auth_proxy::keys::{
    inserted, key_answer, keys_answer, removed, JsonError, Key, NewKey, Removed, SimpleApiError,
    UpdateKey,
};
use bson::document::ValueAccessError;
use bson::oid::ObjectId;
use bson::{Bson, Document};
use chrono::{DateTime, Utc};

const TEXT: &str = "936da01f-9abd-4d9d-80c7-02af85c822a8";
const KEY: Credential = Credential { bits: 0x936da01f_9abd_4d9d_80c7_02af85c822a8 };
const ID: &str = "5f8d0d55b54764421b7156c3";

fn at(millis: i64) -> DateTime<Utc> {
    DateTime::from_timestamp_millis(millis).unwrap()
}

fn stored() -> Document {
    let mut doc = Document::new();
    doc.insert("_id", ObjectId::with_string(ID).unwrap());
    doc.insert("key", TEXT);
    doc.insert("create_time", at(1000));
    doc.insert("update_time", at(2000));
    doc.insert("enabled", false);
    doc
}

#[test]
fn convert_reads_a_key() {
    let key = Key::convert_bson_to_key(&stored()).unwrap();
    assert_eq!(key.id, ID);
    assert_eq!(key.key, KEY);
    assert_eq!(key.create_time, 1000);
    assert_eq!(key.update_time, 2000);
    assert!(!key.enabled);
}

#[test]
fn convert_reports_missing_and_mistyped_fields() {
    for name in ["_id", "key", "create_time", "update_time", "enabled"] {
        let mut doc = stored();
        doc.remove(name);
        assert_eq!(Key::convert_bson_to_key(&doc).err(), Some(ValueAccessError::NotPresent), "{}", name);
        let mut doc = stored();
        doc.insert(name, Bson::Null);
        assert_eq!(
            Key::convert_bson_to_key(&doc).err(),
            Some(ValueAccessError::UnexpectedType),
            "{}",
            name
        );
    }
}

#[test]
fn convert_refuses_text_that_is_no_key() {
    let mut doc = stored();
    doc.insert("key", "nobody");
    assert_eq!(Key::convert_bson_to_key(&doc).err(), Some(ValueAccessError::UnexpectedType));
}

#[test]
fn convert_reports_the_first_unreadable_field() {
    let mut doc = stored();
    doc.remove("_id");
    doc.insert("key", 1i32);
    assert_eq!(Key::convert_bson_to_key(&doc).err(), Some(ValueAccessError::NotPresent));
    let mut doc = stored();
    doc.insert("create_time", 1i32);
    doc.remove("enabled");
    assert_eq!(Key::convert_bson_to_key(&doc).err(), Some(ValueAccessError::UnexpectedType));
}

#[test]
fn found_reads_what_was_found() {
    assert_eq!(Key::found(Some(stored())).unwrap().key, KEY);
    assert!(matches!(Key::found(None), Err(SimpleApiError::MongoDBEmptyResult)));
    let mut doc = stored();
    doc.remove("enabled");
    assert!(matches!(
        Key::found(Some(doc)),
        Err(SimpleApiError::InvalidFieldError(ValueAccessError::NotPresent))
    ));
}

#[test]
fn filters() {
    let filter = Key::filter(TEXT);
    assert_eq!(filter.len(), 1);
    assert_eq!(filter.get_str("key"), Ok(TEXT));
    let filter = UpdateKey { key: KEY, enabled: true }.filter();
    assert_eq!(filter.len(), 1);
    assert_eq!(filter.get_str("key"), Ok(TEXT));
}

#[test]
fn id_filter_wants_an_object_id() {
    let filter = Key::id_filter(ID).unwrap();
    assert_eq!(filter.len(), 1);
    assert_eq!(filter.get_object_id("_id").map(|id| id.to_hex()), Ok(ID.to_string()));
    assert!(Key::id_filter("5f8d0d55b54764421b7156c").is_none());
    assert!(Key::id_filter("5f8d0d55b54764421b7156c30").is_none());
    assert!(Key::id_filter("5F8D0D55B54764421B7156C3").is_none());
    assert!(Key::id_filter("5f8d0d55b54764421b7156cg").is_none());
    assert!(Key::id_filter("").is_none());
}

#[test]
fn create_draws_random_keys() {
    let a = NewKey::create();
    let b = NewKey::create();
    assert_ne!(a, b);
    assert_eq!((a.key.bits >> 76) & 0xf, 4);
    assert_eq!((a.key.bits >> 62) & 0x3, 2);
}

#[test]
fn new_key_document() {
    let doc = NewKey { key: KEY }.document_at(2000, 1000).unwrap();
    assert_eq!(doc.len(), 4);
    assert_eq!(doc.get_str("key"), Ok(TEXT));
    assert_eq!(doc.get_datetime("update_time"), Ok(&at(2000)));
    assert_eq!(doc.get_datetime("create_time"), Ok(&at(1000)));
    assert_eq!(doc.get_bool("enabled"), Ok(true));
    assert!(NewKey { key: KEY }.document_at(i64::MAX, 0).is_none());
    assert!(NewKey { key: KEY }.document_at(0, i64::MIN).is_none());
}

#[test]
fn new_key_document_now() {
    let before = Utc::now().timestamp_millis();
    let doc = NewKey { key: KEY }.document_now();
    let after = Utc::now().timestamp_millis();
    let updated = doc.get_datetime("update_time").unwrap().timestamp_millis();
    let created = doc.get_datetime("create_time").unwrap().timestamp_millis();
    assert!(before <= updated && updated <= created && created <= after);
    assert_eq!(doc.get_str("key"), Ok(TEXT));
    assert_eq!(doc.get_bool("enabled"), Ok(true));
}

#[test]
fn new_key_reads_back() {
    let mut doc = NewKey { key: KEY }.document_at(2000, 1000).unwrap();
    doc.insert("_id", ObjectId::with_string(ID).unwrap());
    let key = Key::convert_bson_to_key(&doc).unwrap();
    assert_eq!(key.key, KEY);
    assert!(key.enabled);
    assert_eq!(key.create_time, 1000);
    assert_eq!(key.update_time, 2000);
    assert_eq!(key.id, ID);
}

#[test]
fn update_changes() {
    for enabled in [true, false] {
        let doc = UpdateKey { key: KEY, enabled }.changes_at(5000).unwrap();
        assert_eq!(doc.len(), 1);
        let set = doc.get_document("$set").unwrap();
        assert_eq!(set.len(), 2);
        assert_eq!(set.get_datetime("update_time"), Ok(&at(5000)));
        assert_eq!(set.get_bool("enabled"), Ok(enabled));
    }
    assert!(UpdateKey { key: KEY, enabled: true }.changes_at(i64::MAX).is_none());
}

#[test]
fn update_changes_now() {
    let before = Utc::now().timestamp_millis();
    let doc = UpdateKey { key: KEY, enabled: false }.changes_now();
    let after = Utc::now().timestamp_millis();
    let set = doc.get_document("$set").unwrap();
    let updated = set.get_datetime("update_time").unwrap().timestamp_millis();
    assert!(before <= updated && updated <= after);
    assert_eq!(set.get_bool("enabled"), Ok(false));
}

#[test]
fn error_messages_and_statuses() {
    let e = JsonError::from(SimpleApiError::MongoDBEmptyResult);
    assert_eq!((e.msg.as_str(), e.status, e.success), ("empty results", 404, false));
    let e = JsonError::from(SimpleApiError::MongoDBOperationError { source: "down".to_string() });
    assert_eq!((e.msg.as_str(), e.status, e.success), ("Operation failed: down", 500, false));
    let e = JsonError::from(SimpleApiError::InvalidFieldError(ValueAccessError::NotPresent));
    assert_eq!(
        (e.msg.as_str(), e.status, e.success),
        ("invalid field in BSON document: field is not present", 500, false)
    );
    assert_eq!(
        SimpleApiError::InvalidFieldError(ValueAccessError::UnexpectedType).message(),
        "invalid field in BSON document: field does not have the expected type"
    );
}

#[test]
fn inserted_wants_an_object_id() {
    assert_eq!(inserted(Some(ID.to_string())).unwrap(), ID);
    let e = inserted(None).unwrap_err();
    assert_eq!((e.msg.as_str(), e.status, e.success), ("Insert failed", 500, false));
}

#[test]
fn removed_wants_something_gone() {
    assert_eq!(removed(TEXT, 1).unwrap(), Removed { count: 1 });
    assert_eq!(removed(TEXT, 3).unwrap(), Removed { count: 3 });
    let e = removed(TEXT, 0).unwrap_err();
    assert_eq!(
        (e.msg.as_str(), e.status, e.success),
        ("Key not found: 936da01f-9abd-4d9d-80c7-02af85c822a8", 404, false)
    );
}

fn key(enabled: bool) -> Key {
    Key { id: ID.to_string(), key: KEY, create_time: 1000, update_time: 2000, enabled }
}

#[test]
fn payload_says_disabled() {
    for enabled in [true, false] {
        let payload = key(enabled).payload();
        assert_eq!(payload.id, ID);
        assert_eq!(payload.key, KEY);
        assert_eq!(payload.disabled, !enabled);
        assert_eq!(payload.created_at, 1000);
        assert_eq!(payload.updated_at, 2000);
    }
}

#[test]
fn key_answer_for_a_key_that_is_there() {
    let envelope = key_answer(Ok(key(false))).unwrap();
    assert_eq!(envelope.status, 200);
    assert!(envelope.success);
    assert_eq!(envelope.payload.key, KEY);
    assert!(envelope.payload.disabled);
    assert_eq!(envelope.payload.id, ID);
}

#[test]
fn key_answer_for_a_key_that_is_not_there() {
    let e = key_answer(Err(SimpleApiError::MongoDBEmptyResult)).unwrap_err();
    assert_eq!((e.msg.as_str(), e.status, e.success), ("empty results", 404, false));
    let e = key_answer(Key::found(None)).unwrap_err();
    assert_eq!((e.msg.as_str(), e.status, e.success), ("empty results", 404, false));
    let e = key_answer(Err(SimpleApiError::MongoDBOperationError { source: "down".to_string() }))
        .unwrap_err();
    assert_eq!((e.msg.as_str(), e.status, e.success), ("Operation failed: down", 500, false));
}

#[test]
fn key_answer_is_what_the_proxy_reads() {
    for enabled in [true, false] {
        let envelope = key_answer(Key::found(Some({
            let mut doc = stored();
            doc.insert("enabled", enabled);
            doc
        })))
        .unwrap();
        let outcome = LookupOutcome::Answered { status: envelope.status, body: Some(envelope) };
        assert_eq!(
            KeyAuthorityClient::validate(&outcome),
            Ok(KeyAuthorityRecord { key: KEY, disabled: !enabled })
        );
    }
}

#[test]
fn keys_answer_lists_the_payloads_in_order() {
    let mut second = key(false);
    second.id = "5f8d0d55b54764421b7156c4".to_string();
    let envelope = keys_answer(Ok(vec![key(true), second])).unwrap();
    assert_eq!(envelope.status, 200);
    assert!(envelope.success);
    assert_eq!(envelope.payload.len(), 2);
    assert_eq!(envelope.payload[0].id, ID);
    assert!(!envelope.payload[0].disabled);
    assert_eq!(envelope.payload[1].id, "5f8d0d55b54764421b7156c4");
    assert!(envelope.payload[1].disabled);
    assert!(keys_answer(Ok(Vec::new())).unwrap().payload.is_empty());
    let e = keys_answer(Err(SimpleApiError::MongoDBOperationError { source: "down".to_string() }))
        .unwrap_err();
    assert_eq!((e.msg.as_str(), e.status, e.success), ("Operation failed: down", 500, false));
}

#[test]
fn filter_goes_by_the_key_not_its_spelling() {
    for spelling in [
        "936DA01F-9ABD-4D9D-80C7-02AF85C822A8",
        "936da01f9abd4d9d80c702af85c822a8",
        "urn:uuid:936da01f-9abd-4d9d-80c7-02af85c822a8",
    ] {
        assert_eq!(Key::filter(spelling).get_str("key"), Ok(TEXT), "{}", spelling);
    }
    assert_eq!(Key::filter("nobody").get_str("key"), Ok("nobody"));
}
