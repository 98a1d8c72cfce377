//! The audit trail: one record per request that was let through, written to a
//! document store and read back from it.
//!
//! The store itself is out of reach. This module fixes the document that is
//! written for a request, and what is read from a document that the store
//! hands back.

use crate::credential::{canonical, canonical_text, uuid_value, Credential};
use crate::document::{
    document_fields, insert_field, instant_at, instant_field, is_representable, now_millis,
    null_at, object_id_at, object_id_field, representable_instant, text_at, Field, Value,
};
use bson::document::ValueAccessError;
use bson::Document;
use vstd::prelude::*;

verus! {

/// A request as it is about to be recorded.
#[derive(Debug)]
pub struct NewRequest {
    pub method: String,
    pub path: String,
    pub authorization: Option<Credential>,
}

/// A request as it was recorded.
#[derive(Debug)]
pub struct Request {
    pub id: String,
    pub method: String,
    pub path: String,
    pub authorization: Option<Credential>,
    pub created_at: i64,
}

/// The mathematical content of a `NewRequest`.
pub struct NewRequestView {
    pub method: Seq<char>,
    pub path: Seq<char>,
    pub authorization: Option<Credential>,
}

/// The mathematical content of a `Request`.
pub struct RequestView {
    pub id: Seq<char>,
    pub method: Seq<char>,
    pub path: Seq<char>,
    pub authorization: Option<Credential>,
    pub created_at: i64,
}

impl View for NewRequest {
    type V = NewRequestView;

    open spec fn view(&self) -> NewRequestView {
        NewRequestView {
            method: self.method@,
            path: self.path@,
            authorization: self.authorization,
        }
    }
}

impl View for Request {
    type V = RequestView;

    open spec fn view(&self) -> RequestView {
        RequestView {
            id: self.id@,
            method: self.method@,
            path: self.path@,
            authorization: self.authorization,
            created_at: self.created_at,
        }
    }
}

impl RequestView {
    /// What a record says of the request it was made for.
    pub open spec fn subject(self) -> NewRequestView {
        NewRequestView { method: self.method, path: self.path, authorization: self.authorization }
    }
}

pub open spec fn key_id() -> Seq<char> {
    "_id"@
}

pub open spec fn key_method() -> Seq<char> {
    "method"@
}

pub open spec fn key_path() -> Seq<char> {
    "path"@
}

pub open spec fn key_authorization() -> Seq<char> {
    "authorization"@
}

pub open spec fn key_created_at() -> Seq<char> {
    "created_at"@
}

/// How a credential, or the lack of one, is stored: as its dashed text, or as
/// null.
pub open spec fn authorization_field(authorization: Option<Credential>) -> Field {
    match authorization {
        Some(credential) => Field::Text(credential.text()),
        None => Field::Null,
    }
}

/// The fields of the document written for `request` at `created_at`.
pub open spec fn audit_fields(request: NewRequestView, created_at: i64) -> Map<Seq<char>, Field> {
    Map::empty().insert(key_method(), Field::Text(request.method)).insert(
        key_path(),
        Field::Text(request.path),
    ).insert(key_authorization(), authorization_field(request.authorization)).insert(
        key_created_at(),
        Field::Instant(created_at),
    )
}

/// The credential that a stored document names: none where the field is
/// null, else the one whose text the field holds. A field that is missing, no
/// string, or no UUID text is refused.
pub open spec fn stored_authorization(fields: Map<Seq<char>, Field>) -> Result<
    Option<Credential>,
    ValueAccessError,
> {
    if null_at(fields, key_authorization()) {
        Ok(None)
    } else {
        match text_at(fields, key_authorization()) {
            Ok(text) => match uuid_value(text) {
                Some(bits) => Ok(Some(Credential { bits })),
                None => Err(ValueAccessError::UnexpectedType),
            },
            Err(e) => Err(e),
        }
    }
}

/// The record that a stored document holds. Fields are read in the order
/// authorization, id, method, path, time of creation, and the first one that
/// cannot be read decides the error.
pub open spec fn record_of(fields: Map<Seq<char>, Field>) -> Result<RequestView, ValueAccessError> {
    match stored_authorization(fields) {
        Err(e) => Err(e),
        Ok(authorization) => match object_id_at(fields, key_id()) {
            Err(e) => Err(e),
            Ok(id) => match text_at(fields, key_method()) {
                Err(e) => Err(e),
                Ok(method) => match text_at(fields, key_path()) {
                    Err(e) => Err(e),
                    Ok(path) => match instant_at(fields, key_created_at()) {
                        Err(e) => Err(e),
                        Ok(created_at) => Ok(
                            RequestView { id, method, path, authorization, created_at },
                        ),
                    },
                },
            },
        },
    }
}

/// The records of a listing: those of its documents, in the order of the
/// listing; or the error of the first document that holds no record.
pub open spec fn records_of(listing: Seq<Map<Seq<char>, Field>>) -> Result<
    Seq<RequestView>,
    ValueAccessError,
>
    decreases listing.len(),
{
    if listing.len() == 0 {
        Ok(Seq::empty())
    } else {
        match records_of(listing.drop_last()) {
            Err(e) => Err(e),
            Ok(records) => match record_of(listing.last()) {
                Err(e) => Err(e),
                Ok(record) => Ok(records.push(record)),
            },
        }
    }
}

/// The fields of each document of a listing.
pub open spec fn listing_fields(docs: Seq<Document>) -> Seq<Map<Seq<char>, Field>> {
    docs.map_values(|doc: Document| document_fields(doc))
}

/// The views of a run of records.
pub open spec fn request_views(records: Seq<Request>) -> Seq<RequestView> {
    records.map_values(|record: Request| record@)
}

/// The fields of the filter that selects the records of the credential that
/// `key` spells: the text under which that credential is stored.
pub open spec fn filter_fields(key: Seq<char>) -> Map<Seq<char>, Field> {
    Map::empty().insert(key_authorization(), Field::Text(canonical_text(key)))
}

impl NewRequest {
    fn document(&self, created_at: i64) -> (doc: Document)
        requires
            representable_instant(created_at),
        ensures
            document_fields(doc) == audit_fields(self@, created_at),
    {
        let authorization = match self.authorization {
            Some(credential) => Value::Text(credential.to_text()),
            None => Value::Null,
        };
        let mut doc = Document::new();
        insert_field(&mut doc, "method", Value::Text(self.method.clone()));
        insert_field(&mut doc, "path", Value::Text(self.path.clone()));
        insert_field(&mut doc, "authorization", authorization);
        insert_field(&mut doc, "created_at", Value::Instant(created_at));
        doc
    }

    /// The document that records this request as made at `created_at`, a
    /// count of milliseconds since the Unix epoch; `None` where the store's
    /// date-times do not reach that far.
    pub fn document_at(&self, created_at: i64) -> (r: Option<Document>)
        ensures
            r is Some == representable_instant(created_at),
            r matches Some(doc) ==> document_fields(doc) == audit_fields(self@, created_at),
    {
        if is_representable(created_at) {
            Some(self.document(created_at))
        } else {
            None
        }
    }

    /// The document that records this request as made now.
    pub fn document_now(&self) -> (doc: Document)
        ensures
            exists|created_at: i64|
                representable_instant(created_at) && document_fields(doc) == #[trigger] audit_fields(
                    self@,
                    created_at,
                ),
    {
        let created_at = now_millis();
        self.document(created_at)
    }
}

impl Request {
    /// Reads a record from a document of the store.
    pub fn from_bson_document(doc: &Document) -> (r: Result<Request, ValueAccessError>)
        ensures
            match r {
                Ok(record) => record_of(document_fields(*doc)) == Ok::<
                    RequestView,
                    ValueAccessError,
                >(record@),
                Err(e) => record_of(document_fields(*doc)) == Err::<RequestView, ValueAccessError>(
                    e,
                ),
            },
    {
        let authorization = if doc.is_null("authorization") {
            None
        } else {
            let key = doc.get_str("authorization")?;
            match Credential::parse(key) {
                Ok(credential) => Some(credential),
                Err(_) => {
                    return Err(ValueAccessError::UnexpectedType);
                },
            }
        };
        let id = object_id_field(doc, "_id")?;
        let method = doc.get_str("method")?.to_owned();
        let path = doc.get_str("path")?.to_owned();
        let created_at = instant_field(doc, "created_at")?;
        Ok(Request { id, method, path, authorization, created_at })
    }

    /// Reads the records of a listing, in its order. The first document that
    /// holds no record ends the reading with its error.
    pub fn from_documents(docs: &Vec<Document>) -> (r: Result<Vec<Request>, ValueAccessError>)
        ensures
            match r {
                Ok(records) => records_of(listing_fields(docs@)) == Ok::<
                    Seq<RequestView>,
                    ValueAccessError,
                >(request_views(records@)),
                Err(e) => records_of(listing_fields(docs@)) == Err::<
                    Seq<RequestView>,
                    ValueAccessError,
                >(e),
            },
    {
        let mut records: Vec<Request> = Vec::new();
        let mut i: usize = 0;
        proof {
            assert(listing_fields(docs@.take(0)) =~= Seq::empty());
            assert(request_views(records@) =~= Seq::empty());
        }
        while i < docs.len()
            invariant
                i <= docs.len(),
                records_of(listing_fields(docs@.take(i as int))) == Ok::<
                    Seq<RequestView>,
                    ValueAccessError,
                >(request_views(records@)),
            decreases docs.len() - i,
        {
            let ghost before = listing_fields(docs@.take(i as int));
            let ghost after = listing_fields(docs@.take(i + 1));
            proof {
                assert(after.drop_last() =~= before);
                assert(after.last() == document_fields(docs@[i as int]));
            }
            match Request::from_bson_document(&docs[i]) {
                Ok(record) => {
                    proof {
                        assert(request_views(records@.push(record)) =~= request_views(
                            records@,
                        ).push(record@));
                    }
                    records.push(record);
                },
                Err(e) => {
                    proof {
                        lemma_records_of_refusal(listing_fields(docs@), i + 1);
                        assert(listing_fields(docs@).take(i + 1) =~= after);
                    }
                    return Err(e);
                },
            }
            i += 1;
        }
        proof {
            assert(docs@.take(i as int) =~= docs@);
        }
        Ok(records)
    }

    /// The filter that selects the records of the credential that `key`
    /// spells, in whichever of its forms and in either letter case. A `key`
    /// that spells no credential is looked for as it is, and found nowhere.
    pub fn by_key_filter(key: &str) -> (filter: Document)
        ensures
            document_fields(filter) == filter_fields(key@),
    {
        let mut filter = Document::new();
        insert_field(&mut filter, "authorization", Value::Text(canonical(key)));
        filter
    }
}

/// A listing whose beginning is refused is refused with the same error.
pub proof fn lemma_records_of_refusal(listing: Seq<Map<Seq<char>, Field>>, n: int)
    requires
        0 <= n <= listing.len(),
        records_of(listing.take(n)) is Err,
    ensures
        records_of(listing) == records_of(listing.take(n)),
    decreases listing.len(),
{
    if n == listing.len() {
        assert(listing.take(n) =~= listing);
    } else {
        assert(listing.drop_last().take(n) =~= listing.take(n));
        lemma_records_of_refusal(listing.drop_last(), n);
    }
}

/// The fields of a stored record: those written for the request, and the id
/// that the store gave the document.
pub open spec fn stored_fields(request: NewRequestView, created_at: i64, id: Seq<char>) -> Map<
    Seq<char>,
    Field,
> {
    audit_fields(request, created_at).insert(key_id(), Field::ObjectId(id))
}

/// The listing that holds, in this order, the stored records of `requests`.
pub open spec fn stored_listing(
    requests: Seq<NewRequestView>,
    times: Seq<i64>,
    ids: Seq<Seq<char>>,
) -> Seq<Map<Seq<char>, Field>> {
    Seq::new(requests.len(), |i: int| stored_fields(requests[i], times[i], ids[i]))
}

/// Whether a filter selects a document: whether the document holds every
/// field of the filter with the filter's value.
pub open spec fn selects(filter: Map<Seq<char>, Field>, fields: Map<Seq<char>, Field>) -> bool {
    forall|key: Seq<char>| #[trigger]
        filter.contains_key(key) ==> fields.contains_key(key) && fields[key] == filter[key]
}

/// The five keys of a stored record are five different texts.
pub proof fn lemma_keys_distinct()
    ensures
        key_id() != key_method(),
        key_id() != key_path(),
        key_id() != key_authorization(),
        key_id() != key_created_at(),
        key_method() != key_path(),
        key_method() != key_authorization(),
        key_method() != key_created_at(),
        key_path() != key_authorization(),
        key_path() != key_created_at(),
        key_authorization() != key_created_at(),
{
    reveal_strlit("_id");
    reveal_strlit("method");
    reveal_strlit("path");
    reveal_strlit("authorization");
    reveal_strlit("created_at");
    assert(key_id().len() == 3);
    assert(key_method().len() == 6);
    assert(key_path().len() == 4);
    assert(key_authorization().len() == 13);
    assert(key_created_at().len() == 10);
}

/// What is written for a request is read back as a record of that request:
/// same method, same path, same credential or lack of one, with the time it
/// was written at and the id it was stored under.
pub proof fn lemma_record_round_trip(request: NewRequestView, created_at: i64, id: Seq<char>)
    ensures
        record_of(stored_fields(request, created_at, id)) == Ok::<RequestView, ValueAccessError>(
            RequestView {
                id,
                method: request.method,
                path: request.path,
                authorization: request.authorization,
                created_at,
            },
        ),
{
    lemma_keys_distinct();
    let fields = stored_fields(request, created_at, id);
    assert(fields[key_authorization()] == authorization_field(request.authorization));
    match request.authorization {
        Some(credential) => {
            crate::credential::lemma_text_round_trip(credential);
        },
        None => {},
    }
    assert(stored_authorization(fields) == Ok::<Option<Credential>, ValueAccessError>(
        request.authorization,
    ));
}

/// A listing whose documents each hold a record holds those records, in its
/// order.
pub proof fn lemma_records_of_each(listing: Seq<Map<Seq<char>, Field>>, records: Seq<RequestView>)
    requires
        listing.len() == records.len(),
        forall|i: int|
            0 <= i < listing.len() ==> record_of(#[trigger] listing[i]) == Ok::<
                RequestView,
                ValueAccessError,
            >(records[i]),
    ensures
        records_of(listing) == Ok::<Seq<RequestView>, ValueAccessError>(records),
    decreases listing.len(),
{
    if listing.len() > 0 {
        lemma_records_of_each(listing.drop_last(), records.drop_last());
        assert(record_of(listing.last()) == Ok::<RequestView, ValueAccessError>(records.last()));
        assert(records.drop_last().push(records.last()) =~= records);
    } else {
        assert(records =~= Seq::empty());
    }
}

/// Listing the store after any number of requests were recorded gives one
/// record for each, with the method, path and credential of its request, in
/// whatever order the store hands the documents back: that order is the order
/// of `requests` here.
pub proof fn lemma_listing_round_trip(
    requests: Seq<NewRequestView>,
    times: Seq<i64>,
    ids: Seq<Seq<char>>,
)
    requires
        times.len() == requests.len(),
        ids.len() == requests.len(),
    ensures
        records_of(stored_listing(requests, times, ids)) matches Ok(records) && records.len()
            == requests.len() && forall|i: int|
            0 <= i < requests.len() ==> (#[trigger] records[i]).subject() == requests[i]
                && records[i].created_at == times[i] && records[i].id == ids[i],
{
    let listing = stored_listing(requests, times, ids);
    let records = Seq::new(
        requests.len(),
        |i: int|
            RequestView {
                id: ids[i],
                method: requests[i].method,
                path: requests[i].path,
                authorization: requests[i].authorization,
                created_at: times[i],
            },
    );
    assert forall|i: int| 0 <= i < listing.len() implies record_of(#[trigger] listing[i]) == Ok::<
        RequestView,
        ValueAccessError,
    >(records[i]) by {
        lemma_record_round_trip(requests[i], times[i], ids[i]);
    }
    lemma_records_of_each(listing, records);
}

/// The filter made for any spelling of a credential selects exactly the
/// stored records of requests that carried that credential.
pub proof fn lemma_filter_selects_own(
    key: Seq<char>,
    credential: Credential,
    request: NewRequestView,
    created_at: i64,
    id: Seq<char>,
)
    requires
        uuid_value(key) == Some(credential.bits),
    ensures
        selects(filter_fields(key), stored_fields(request, created_at, id)) <==> (
        request.authorization == Some(credential)),
{
    lemma_keys_distinct();
    crate::credential::lemma_canonical_text(key, credential);
    let filter = filter_fields(key);
    let fields = stored_fields(request, created_at, id);
    assert(filter.contains_key(key_authorization()));
    assert(fields[key_authorization()] == authorization_field(request.authorization));
    match request.authorization {
        Some(other) => {
            if other.text() == credential.text() {
                crate::credential::lemma_text_injective(other, credential);
            }
        },
        None => {},
    }
}

/// The filter made for a text that spells no credential selects no stored
/// record.
pub proof fn lemma_filter_of_no_credential(
    key: Seq<char>,
    request: NewRequestView,
    created_at: i64,
    id: Seq<char>,
)
    requires
        uuid_value(key) is None,
    ensures
        !selects(filter_fields(key), stored_fields(request, created_at, id)),
{
    lemma_keys_distinct();
    let filter = filter_fields(key);
    let fields = stored_fields(request, created_at, id);
    assert(filter.contains_key(key_authorization()));
    assert(fields[key_authorization()] == authorization_field(request.authorization));
    match request.authorization {
        Some(other) => {
            crate::credential::lemma_text_round_trip(other);
        },
        None => {},
    }
}

} // verus!
