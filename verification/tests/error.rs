use auth_proxy::envelope::Envelope;
use auth_proxy::error::{answered, listed, note_audit, GatewayError, JsonError, ProxyError};
use auth_proxy::forward::ForwardError;
use bson::document::ValueAccessError;

fn store_failure() -> ProxyError {
    ProxyError::MongoDBOperationError { source: "connection refused".to_string() }
}

#[test]
fn proxy_error_messages() {
    assert_eq!(
        ProxyError::InvalidFieldError(ValueAccessError::NotPresent).message(),
        "invalid field in BSON document: field is not present"
    );
    assert_eq!(
        ProxyError::InvalidFieldError(ValueAccessError::UnexpectedType).message(),
        "invalid field in BSON document: field does not have the expected type"
    );
    assert_eq!(store_failure().message(), "Operation failed: connection refused");
    assert_eq!(
        ProxyError::MongoDBOperationError { source: String::new() }.message(),
        "Operation failed: "
    );
}

#[test]
fn json_error_from_proxy_error() {
    let e = JsonError::from(store_failure());
    assert_eq!(e.msg, "Operation failed: connection refused");
    assert_eq!(e.status, 500);
    assert!(!e.success);
    let e = JsonError::from(ProxyError::InvalidFieldError(ValueAccessError::NotPresent));
    assert_eq!(e.msg, "invalid field in BSON document: field is not present");
    assert_eq!(e.status, 500);
    assert!(!e.success);
}

#[test]
fn audit_notes() {
    assert_eq!(note_audit(&Ok(())), "Request logged");
    assert_eq!(
        note_audit(&Err(store_failure())),
        "Error logging request: Operation failed: connection refused"
    );
    assert_eq!(
        note_audit(&Err(ProxyError::InvalidFieldError(ValueAccessError::UnexpectedType))),
        "Error logging request: invalid field in BSON document: field does not have the expected type"
    );
}

#[test]
fn statuses_by_kind() {
    assert_eq!(GatewayError::MalformedCredential.status(), Some(401));
    assert_eq!(GatewayError::KeyDenied.status(), Some(403));
    assert_eq!(GatewayError::UpstreamAuthUnavailable.status(), Some(503));
    assert_eq!(GatewayError::ForwardFailure(ForwardError::Unreachable).status(), Some(502));
    assert_eq!(GatewayError::ForwardFailure(ForwardError::Timeout).status(), Some(504));
    assert_eq!(GatewayError::ForwardFailure(ForwardError::Transport).status(), Some(500));
    assert_eq!(GatewayError::AuditWriteFailure.status(), None);
}

#[test]
fn answered_wraps_what_was_found() {
    let r: Envelope<Vec<u8>> = answered(Ok(vec![1u8, 2])).unwrap();
    assert_eq!(r.status, 200);
    assert!(r.success);
    assert_eq!(r.payload, vec![1, 2]);
}

#[test]
fn answered_turns_a_failure_into_its_envelope() {
    let r: Result<Envelope<Vec<u8>>, JsonError> = answered(Err(store_failure()));
    let e = r.unwrap_err();
    assert_eq!(e.msg, "Operation failed: connection refused");
    assert_eq!(e.status, 500);
    assert!(!e.success);
}

#[test]
fn envelope_ok() {
    let e = Envelope::ok("x");
    assert_eq!(e.status, 200);
    assert!(e.success);
    assert_eq!(e.payload, "x");
}

fn stored(path: &str) -> bson::Document {
    let mut doc = bson::Document::new();
    doc.insert("_id", bson::oid::ObjectId::with_string("5f8d0d55b54764421b7156c3").unwrap());
    doc.insert("method", "GET");
    doc.insert("path", path);
    doc.insert("authorization", bson::Bson::Null);
    doc.insert("created_at", chrono::DateTime::from_timestamp_millis(5).unwrap());
    doc
}

#[test]
fn listed_gives_the_records_in_order() {
    let records = listed(&vec![stored("/a"), stored("/b")], None).unwrap();
    assert_eq!(records.len(), 2);
    assert_eq!(records[0].path, "/a");
    assert_eq!(records[1].path, "/b");
    assert!(listed(&Vec::new(), None).unwrap().is_empty());
}

#[test]
fn listed_reports_the_stores_failure() {
    match listed(&vec![stored("/a")], Some(store_failure())) {
        Err(ProxyError::MongoDBOperationError { source }) => assert_eq!(source, "connection refused"),
        other => panic!("{:?}", other),
    }
    match listed(&Vec::new(), Some(store_failure())) {
        Err(ProxyError::MongoDBOperationError { source }) => assert_eq!(source, "connection refused"),
        other => panic!("{:?}", other),
    }
}

#[test]
fn listed_reports_a_bad_document_before_the_stores_failure() {
    let mut bad = stored("/b");
    bad.remove("method");
    for broken in [None, Some(store_failure())] {
        match listed(&vec![stored("/a"), bad.clone()], broken) {
            Err(ProxyError::InvalidFieldError(inner)) => assert_eq!(inner, ValueAccessError::NotPresent),
            other => panic!("{:?}", other),
        }
    }
}
