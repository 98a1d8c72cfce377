//! An inbound request as plain values, and the credential it presents.

use crate::audit::{NewRequest, NewRequestView};
use crate::credential::{uuid_value, Credential, MalformedCredential};
use crate::text::{eq_ignoring_case, matches_ignoring_case};
use vstd::prelude::*;
use vstd::utf8::{decode_utf8, valid_utf8};

verus! {

/// One header line: a name and the bytes of its value.
#[derive(Debug)]
pub struct Header {
    pub name: String,
    pub value: Vec<u8>,
}

/// The mathematical content of a `Header`.
pub struct HeaderView {
    pub name: Seq<char>,
    pub value: Seq<u8>,
}

impl View for Header {
    type V = HeaderView;

    open spec fn view(&self) -> HeaderView {
        HeaderView { name: self.name@, value: self.value@ }
    }
}

/// The views of a run of headers.
pub open spec fn header_views(headers: Seq<Header>) -> Seq<HeaderView> {
    headers.map_values(|header: Header| header@)
}

/// What the gateway sees of a request before it reads the body: the request
/// line, the headers in the order they came, and the caller's address where
/// the transport knows it.
#[derive(Debug)]
pub struct InboundRequest {
    pub method: String,
    pub path: String,
    pub query: Option<String>,
    pub headers: Vec<Header>,
    pub peer: Option<String>,
}

/// The mathematical content of an `InboundRequest`.
pub struct InboundRequestView {
    pub method: Seq<char>,
    pub path: Seq<char>,
    pub query: Option<Seq<char>>,
    pub headers: Seq<HeaderView>,
    pub peer: Option<Seq<char>>,
}

/// The view of a text that may be absent.
pub open spec fn optional_text(text: Option<String>) -> Option<Seq<char>> {
    match text {
        Some(text) => Some(text@),
        None => None,
    }
}

impl View for InboundRequest {
    type V = InboundRequestView;

    open spec fn view(&self) -> InboundRequestView {
        InboundRequestView {
            method: self.method@,
            path: self.path@,
            query: optional_text(self.query),
            headers: header_views(self.headers@),
            peer: optional_text(self.peer),
        }
    }
}

/// What a request offers by way of a credential.
#[derive(Clone, Copy, Debug, PartialEq, Eq, Structural)]
pub enum Presented {
    /// No `Authorization` header at all.
    Nothing,
    /// An `Authorization` header whose value is no credential.
    Malformed,
    /// An `Authorization` header with a well-formed credential.
    Key(Credential),
}

/// The name of the header that carries the credential.
pub open spec fn authorization_name() -> Seq<char> {
    "authorization"@
}

/// The value of the first header called `name`, letter case aside.
pub open spec fn first_value(headers: Seq<HeaderView>, name: Seq<char>) -> Option<Seq<u8>>
    decreases headers.len(),
{
    if headers.len() == 0 {
        None
    } else if eq_ignoring_case(headers[0].name, name) {
        Some(headers[0].value)
    } else {
        first_value(headers.drop_first(), name)
    }
}

/// Whether a byte is a tab or a printable ASCII character.
pub open spec fn is_visible_ascii(byte: u8) -> bool {
    (32 <= byte < 127) || byte == 9
}

/// The text of a header value: its bytes read as UTF-8, where every byte is
/// a tab or printable ASCII. A value with any other byte has no text.
pub open spec fn header_text(value: Seq<u8>) -> Option<Seq<char>> {
    if (forall|i: int| 0 <= i < value.len() ==> is_visible_ascii(#[trigger] value[i]))
        && valid_utf8(value) {
        Some(decode_utf8(value))
    } else {
        None
    }
}

/// What a header value offers as a credential.
pub open spec fn credential_in(value: Seq<u8>) -> Presented {
    match header_text(value) {
        None => Presented::Malformed,
        Some(text) => match uuid_value(text) {
            Some(bits) => Presented::Key(Credential { bits }),
            None => Presented::Malformed,
        },
    }
}

/// What a request with these headers presents.
pub open spec fn presented(headers: Seq<HeaderView>) -> Presented {
    match first_value(headers, authorization_name()) {
        None => Presented::Nothing,
        Some(value) => credential_in(value),
    }
}

/// The audit entry for a request that presents `authorization`.
pub open spec fn entry_for(
    request: InboundRequestView,
    authorization: Option<Credential>,
) -> NewRequestView {
    NewRequestView { method: request.method, path: request.path, authorization }
}

/// `core::str::from_utf8`. Trusted: the bytes are accepted exactly where they
/// are well-formed UTF-8, and the text is then what they decode to.
#[verifier::external_body]
fn str_from_utf8(bytes: &[u8]) -> (r: Option<&str>)
    ensures
        r is Some == valid_utf8(bytes@),
        r matches Some(text) ==> text@ == decode_utf8(bytes@),
{
    core::str::from_utf8(bytes).ok()
}

/// Reads a header value as text.
pub fn text_of_value(value: &Vec<u8>) -> (r: Option<String>)
    ensures
        match r {
            Some(text) => header_text(value@) == Some(text@),
            None => header_text(value@) is None,
        },
{
    let mut i: usize = 0;
    while i < value.len()
        invariant
            i <= value.len(),
            forall|j: int| 0 <= j < i ==> is_visible_ascii(#[trigger] value@[j]),
        decreases value.len() - i,
    {
        let byte: u8 = value[i];
        if !((32 <= byte && byte < 127) || byte == 9) {
            return None;
        }
        i += 1;
    }
    match str_from_utf8(value.as_slice()) {
        Some(text) => Some(text.to_owned()),
        None => None,
    }
}

impl InboundRequest {
    /// The value of the first header called `name`, letter case aside.
    pub fn header<'a>(&'a self, name: &str) -> (r: Option<&'a Vec<u8>>)
        ensures
            match r {
                Some(value) => first_value(self@.headers, name@) == Some(value@),
                None => first_value(self@.headers, name@) is None,
            },
    {
        let ghost all = header_views(self.headers@);
        let mut i: usize = 0;
        proof {
            assert(all.skip(0) =~= all);
        }
        while i < self.headers.len()
            invariant
                i <= self.headers.len(),
                all == header_views(self.headers@),
                first_value(all, name@) == first_value(all.skip(i as int), name@),
            decreases self.headers.len() - i,
        {
            let header = &self.headers[i];
            proof {
                let rest = all.skip(i as int);
                assert(rest[0] == header@);
                assert(rest.drop_first() =~= all.skip(i + 1));
            }
            if matches_ignoring_case(header.name.as_str(), name) {
                return Some(&header.value);
            }
            i += 1;
        }
        None
    }

    /// What the request offers by way of a credential.
    pub fn presented(&self) -> (r: Presented)
        ensures
            r == presented(self@.headers),
    {
        match self.header("authorization") {
            None => Presented::Nothing,
            Some(value) => match text_of_value(value) {
                None => Presented::Malformed,
                Some(text) => match Credential::parse(text.as_str()) {
                    Ok(credential) => Presented::Key(credential),
                    Err(_) => Presented::Malformed,
                },
            },
        }
    }
}

impl NewRequest {
    /// The audit entry for a request with the given credential, or none.
    pub fn of(request: &InboundRequest, authorization: Option<Credential>) -> (entry: NewRequest)
        ensures
            entry@ == entry_for(request@, authorization),
    {
        NewRequest { method: request.method.clone(), path: request.path.clone(), authorization }
    }

    /// The audit entry for a request: its method and path as they came, and
    /// the credential it presents, if any. A request whose `Authorization`
    /// header holds no credential is refused.
    pub fn from_http_request(request: &InboundRequest) -> (r: Result<
        NewRequest,
        MalformedCredential,
    >)
        ensures
            match presented(request@.headers) {
                Presented::Nothing => r matches Ok(entry) && entry@ == entry_for(request@, None),
                Presented::Key(credential) => r matches Ok(entry) && entry@ == entry_for(
                    request@,
                    Some(credential),
                ),
                Presented::Malformed => r is Err,
            },
    {
        match request.presented() {
            Presented::Nothing => Ok(NewRequest::of(request, None)),
            Presented::Key(credential) => Ok(NewRequest::of(request, Some(credential))),
            Presented::Malformed => Err(MalformedCredential),
        }
    }
}

} // verus!
