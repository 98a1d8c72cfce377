use auth_proxy::audit::{NewRequest, Request};
use auth_proxy::credential::Credential;
use bson::document::ValueAccessError;
use bson::oid::ObjectId;
use bson::{Bson, Document};
use auth_proxy::document::{is_representable, MAX_INSTANT, MIN_INSTANT};
use chrono::{DateTime, NaiveDate, Utc};

const TEXT: &str = "936da01f-9abd-4d9d-80c7-02af85c822a8";
const BITS: u128 = 0x936da01f_9abd_4d9d_80c7_02af85c822a8;
const ID: &str = "5f8d0d55b54764421b7156c3";
const WHEN: i64 = 1_603_000_000_123;

fn at(millis: i64) -> DateTime<Utc> {
    DateTime::from_timestamp_millis(millis).unwrap()
}

fn entry(authorization: Option<Credential>) -> NewRequest {
    NewRequest { method: "GET".to_string(), path: "/api/v0/cat".to_string(), authorization }
}

fn stored(authorization: Bson) -> Document {
    let mut doc = Document::new();
    doc.insert("_id", ObjectId::with_string(ID).unwrap());
    doc.insert("method", "GET");
    doc.insert("path", "/api/v0/cat");
    doc.insert("authorization", authorization);
    doc.insert("created_at", at(WHEN));
    doc
}

#[test]
fn document_at_writes_the_four_fields() {
    let doc = entry(Some(Credential { bits: BITS })).document_at(WHEN).unwrap();
    assert_eq!(doc.len(), 4);
    assert_eq!(doc.get_str("method"), Ok("GET"));
    assert_eq!(doc.get_str("path"), Ok("/api/v0/cat"));
    assert_eq!(doc.get_str("authorization"), Ok(TEXT));
    assert_eq!(doc.get_datetime("created_at"), Ok(&at(WHEN)));
}

#[test]
fn document_at_writes_null_for_no_credential() {
    let doc = entry(None).document_at(WHEN).unwrap();
    assert_eq!(doc.len(), 4);
    assert!(doc.is_null("authorization"));
    assert_eq!(doc.get("authorization"), Some(&Bson::Null));
}

#[test]
fn document_at_refuses_times_out_of_range() {
    assert!(entry(None).document_at(i64::MAX).is_none());
    assert!(entry(None).document_at(i64::MIN).is_none());
    assert!(entry(None).document_at(0).is_some());
    assert!(entry(None).document_at(-1).is_some());
}

#[test]
fn document_now_is_stamped_with_the_clock() {
    let before = Utc::now().timestamp_millis();
    let doc = entry(None).document_now();
    let after = Utc::now().timestamp_millis();
    let stamped = doc.get_datetime("created_at").unwrap().timestamp_millis();
    assert!(before <= stamped && stamped <= after);
    assert_eq!(doc.get_str("method"), Ok("GET"));
    assert_eq!(doc.get_str("path"), Ok("/api/v0/cat"));
    assert!(doc.is_null("authorization"));
    assert_eq!(doc.len(), 4);
}

#[test]
fn from_bson_document_reads_a_record() {
    let record = Request::from_bson_document(&stored(Bson::String(TEXT.to_string()))).unwrap();
    assert_eq!(record.id, ID);
    assert_eq!(record.method, "GET");
    assert_eq!(record.path, "/api/v0/cat");
    assert_eq!(record.authorization, Some(Credential { bits: BITS }));
    assert_eq!(record.created_at, WHEN);
}

#[test]
fn from_bson_document_reads_null_as_no_credential() {
    let record = Request::from_bson_document(&stored(Bson::Null)).unwrap();
    assert_eq!(record.authorization, None);
    assert_eq!(record.id, ID);
}

#[test]
fn from_bson_document_reports_missing_fields() {
    for key in ["_id", "method", "path", "authorization", "created_at"] {
        let mut doc = stored(Bson::Null);
        doc.remove(key);
        assert_eq!(
            Request::from_bson_document(&doc).err(),
            Some(ValueAccessError::NotPresent),
            "{}",
            key
        );
    }
    assert_eq!(
        Request::from_bson_document(&Document::new()).err(),
        Some(ValueAccessError::NotPresent)
    );
}

#[test]
fn from_bson_document_reports_fields_of_another_type() {
    for key in ["_id", "method", "path", "authorization", "created_at"] {
        let mut doc = stored(Bson::Null);
        doc.insert(key, 7i32);
        assert_eq!(
            Request::from_bson_document(&doc).err(),
            Some(ValueAccessError::UnexpectedType),
            "{}",
            key
        );
    }
}

#[test]
fn from_bson_document_refuses_text_that_is_no_credential() {
    let doc = stored(Bson::String("nobody".to_string()));
    assert_eq!(
        Request::from_bson_document(&doc).err(),
        Some(ValueAccessError::UnexpectedType)
    );
}

#[test]
fn from_bson_document_reports_the_first_unreadable_field() {
    // authorization is read before the id, the id before the method
    let mut doc = stored(Bson::Boolean(true));
    doc.remove("_id");
    assert_eq!(
        Request::from_bson_document(&doc).err(),
        Some(ValueAccessError::UnexpectedType)
    );
    let mut doc = stored(Bson::Null);
    doc.remove("_id");
    doc.insert("method", 1i32);
    assert_eq!(
        Request::from_bson_document(&doc).err(),
        Some(ValueAccessError::NotPresent)
    );
    let mut doc = stored(Bson::Null);
    doc.insert("path", 1i32);
    doc.remove("created_at");
    assert_eq!(
        Request::from_bson_document(&doc).err(),
        Some(ValueAccessError::UnexpectedType)
    );
}

#[test]
fn what_is_written_reads_back() {
    for authorization in [None, Some(Credential { bits: BITS }), Some(Credential { bits: 0 })] {
        let mut doc = entry(authorization).document_at(WHEN).unwrap();
        doc.insert("_id", ObjectId::with_string(ID).unwrap());
        let record = Request::from_bson_document(&doc).unwrap();
        assert_eq!(record.method, "GET");
        assert_eq!(record.path, "/api/v0/cat");
        assert_eq!(record.authorization, authorization);
        assert_eq!(record.created_at, WHEN);
        assert_eq!(record.id, ID);
    }
}

#[test]
fn from_documents_keeps_the_order() {
    let mut docs = Vec::new();
    for (i, path) in ["/a", "/b", "/c"].iter().enumerate() {
        let e = NewRequest { method: "PUT".to_string(), path: path.to_string(), authorization: None };
        let mut doc = e.document_at(WHEN + i as i64).unwrap();
        doc.insert("_id", ObjectId::with_string(ID).unwrap());
        docs.push(doc);
    }
    let records = Request::from_documents(&docs).unwrap();
    assert_eq!(records.len(), 3);
    assert_eq!(records[0].path, "/a");
    assert_eq!(records[1].path, "/b");
    assert_eq!(records[2].path, "/c");
    assert_eq!(records[2].created_at, WHEN + 2);
    assert!(Request::from_documents(&Vec::new()).unwrap().is_empty());
}

#[test]
fn from_documents_stops_at_the_first_bad_document() {
    let good = stored(Bson::Null);
    let mut missing = stored(Bson::Null);
    missing.remove("path");
    let mut mistyped = stored(Bson::Null);
    mistyped.insert("path", 1i32);
    assert_eq!(
        Request::from_documents(&vec![good.clone(), missing.clone(), mistyped.clone()]).err(),
        Some(ValueAccessError::NotPresent)
    );
    assert_eq!(
        Request::from_documents(&vec![good.clone(), mistyped, missing]).err(),
        Some(ValueAccessError::UnexpectedType)
    );
    assert_eq!(Request::from_documents(&vec![good.clone(), good]).unwrap().len(), 2);
}

#[test]
fn by_key_filter_names_the_authorization() {
    let filter = Request::by_key_filter(TEXT);
    assert_eq!(filter.len(), 1);
    assert_eq!(filter.get_str("authorization"), Ok(TEXT));
    let other = Request::by_key_filter("anything at all");
    assert_eq!(other.len(), 1);
    assert_eq!(other.get_str("authorization"), Ok("anything at all"));
}

#[test]
fn by_key_filter_goes_by_the_credential_not_its_spelling() {
    for spelling in [
        "936da01f-9abd-4d9d-80c7-02af85c822a8",
        "936DA01F-9ABD-4D9D-80C7-02AF85C822A8",
        "936da01f9abd4d9d80c702af85c822a8",
        "936DA01F9ABD4D9D80C702AF85C822A8",
        "urn:uuid:936da01f-9abd-4d9d-80c7-02af85c822a8",
        "urn:uuid:936DA01F-9abd-4d9d-80c7-02AF85C822A8",
    ] {
        let filter = Request::by_key_filter(spelling);
        assert_eq!(filter.len(), 1, "{}", spelling);
        assert_eq!(filter.get_str("authorization"), Ok(TEXT), "{}", spelling);
        let doc = entry(Some(Credential { bits: BITS })).document_at(WHEN).unwrap();
        assert_eq!(doc.get("authorization"), filter.get("authorization"), "{}", spelling);
    }
}

#[test]
fn document_at_takes_exactly_the_times_that_chrono_has() {
    assert_eq!(MIN_INSTANT, -8_334_601_228_800_000);
    assert_eq!(MAX_INSTANT, 8_210_266_876_799_999);
    assert_eq!(DateTime::<Utc>::MIN_UTC.timestamp_millis(), MIN_INSTANT);
    assert_eq!(DateTime::<Utc>::MAX_UTC.timestamp_millis(), MAX_INSTANT);
    for (millis, has) in [
        (MIN_INSTANT, true),
        (MIN_INSTANT - 1, false),
        (MIN_INSTANT + 1, true),
        (MAX_INSTANT, true),
        (MAX_INSTANT + 1, false),
        (MAX_INSTANT - 1, true),
        (0, true),
    ] {
        assert_eq!(DateTime::from_timestamp_millis(millis).is_some(), has, "{}", millis);
        assert_eq!(entry(None).document_at(millis).is_some(), has, "{}", millis);
        assert_eq!(is_representable(millis), has, "{}", millis);
    }
    let doc = entry(None).document_at(MAX_INSTANT).unwrap();
    assert_eq!(doc.get_datetime("created_at").unwrap().timestamp_millis(), MAX_INSTANT);
    let doc = entry(None).document_at(MIN_INSTANT).unwrap();
    assert_eq!(doc.get_datetime("created_at").unwrap().timestamp_millis(), MIN_INSTANT);
}

#[test]
fn from_bson_document_reads_a_time_in_a_leap_second() {
    // the last second that chrono has, held as a leap second
    let leap = NaiveDate::MAX.and_hms_milli_opt(23, 59, 59, 1_500).unwrap().and_utc();
    let mut doc = stored(Bson::Null);
    doc.insert("created_at", leap);
    let record = Request::from_bson_document(&doc).unwrap();
    assert_eq!(record.created_at, leap.timestamp_millis());
    assert!(!is_representable(record.created_at));
}

#[test]
fn filter_matches_what_is_written_for_the_credential() {
    let c = Credential { bits: BITS };
    let doc = entry(Some(c)).document_at(WHEN).unwrap();
    let filter = Request::by_key_filter(&c.to_text());
    assert_eq!(doc.get("authorization"), filter.get("authorization"));
    let other = entry(Some(Credential { bits: BITS + 1 })).document_at(WHEN).unwrap();
    assert_ne!(other.get("authorization"), filter.get("authorization"));
    let none = entry(None).document_at(WHEN).unwrap();
    assert_ne!(none.get("authorization"), filter.get("authorization"));
}
