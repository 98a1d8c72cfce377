//! Relaying a request to the backend and its response to the caller.
//!
//! The outbound address is made by the `url` crate from the backend's address
//! and the inbound path and query; what that crate returns is named here, not
//! described. Everything else is decided in this module: which headers travel,
//! what is added, what is dropped on the way back, and what the caller sees
//! when the backend cannot be had.

use crate::request::{header_views, Header, HeaderView, InboundRequest, InboundRequestView};
use crate::text::{eq_ignoring_case, hex_digit_value, matches_ignoring_case};
use url::Url;
use vstd::prelude::*;
use vstd::slice::slice_to_vec;
use vstd::utf8::encode_utf8;

verus! {

/// The largest number of bytes of an address, a path or a query that is
/// handed to the `url` crate.
pub const MAX_TEXT: usize = 0x0fff_ffff;

/// Whether `Url::parse` accepts `text`.
pub uninterp spec fn url_parses(text: Seq<char>) -> bool;

/// The text of the URL `url` after `Url::set_path` with `path`.
pub uninterp spec fn url_with_path(url: Seq<char>, path: Seq<char>) -> Seq<char>;

/// The text of the URL `url` after `Url::set_query` with `query`.
pub uninterp spec fn url_with_query(url: Seq<char>, query: Option<Seq<char>>) -> Seq<char>;

/// The number of bytes that a text takes.
pub open spec fn byte_len(text: Seq<char>) -> usize {
    encode_utf8(text).len() as usize
}

/// Whether a text is short enough to be handed to the `url` crate.
pub open spec fn within_limit(text: Seq<char>) -> bool {
    byte_len(text) <= MAX_TEXT
}

/// The address under which `path` and `query` are asked of the server at
/// `base`: the URL `base` with its path and then its query replaced. There is
/// none where `base` is no URL or a text is over the limit.
pub open spec fn rewritten(base: Seq<char>, path: Seq<char>, query: Option<Seq<char>>) -> Option<
    Seq<char>,
> {
    if !(within_limit(base) && url_parses(base) && within_limit(path)) {
        None
    } else {
        let moved = url_with_path(base, path);
        if !(within_limit(moved) && url_parses(moved)) {
            None
        } else if query matches Some(q) && !within_limit(q) {
            None
        } else {
            Some(url_with_query(moved, query))
        }
    }
}

/// `Url::parse`, asked only whether it accepts the text.
#[verifier::external_body]
fn url_parse_ok(text: &str) -> (ok: bool)
    ensures
        ok == url_parses(text@),
{
    Url::parse(text).is_ok()
}

/// `Url::set_path` on the URL written `url`, read by `Url::parse` and written
/// out again by `Into<String>`. Trusted: the result is a function of the two
/// texts. The precondition keeps the texts so short that the crate's 32-bit
/// offsets cannot overflow.
#[verifier::external_body]
fn url_set_path(url: &str, path: &str) -> (moved: String)
    requires
        url_parses(url@),
        within_limit(url@),
        within_limit(path@),
    ensures
        moved@ == url_with_path(url@, path@),
{
    let mut parsed = Url::parse(url).unwrap();
    parsed.set_path(path);
    parsed.into()
}

/// `Url::set_query` on the URL written `url`, read by `Url::parse` and
/// written out again by `Into<String>`. Trusted: the result is a function of
/// the text and the query. The precondition is that of `url_set_path`.
#[verifier::external_body]
fn url_set_query(url: &str, query: Option<&str>) -> (asked: String)
    requires
        url_parses(url@),
        within_limit(url@),
        query matches Some(q) ==> within_limit(q@),
    ensures
        asked@ == url_with_query(
            url@,
            match query {
                Some(q) => Some(q@),
                None => None,
            },
        ),
{
    let mut parsed = Url::parse(url).unwrap();
    parsed.set_query(query);
    parsed.into()
}

/// The address under which `path` and `query` are asked of the server at
/// `base`.
pub fn rewrite_url(base: &str, path: &str, query: Option<&str>) -> (r: Option<String>)
    ensures
        match r {
            Some(address) => rewritten(
                base@,
                path@,
                match query {
                    Some(q) => Some(q@),
                    None => None,
                },
            ) == Some(address@),
            None => rewritten(
                base@,
                path@,
                match query {
                    Some(q) => Some(q@),
                    None => None,
                },
            ) is None,
        },
{
    if base.len() > MAX_TEXT || path.len() > MAX_TEXT || !url_parse_ok(base) {
        return None;
    }
    let moved = url_set_path(base, path);
    if moved.as_str().len() > MAX_TEXT || !url_parse_ok(moved.as_str()) {
        return None;
    }
    match query {
        Some(q) => {
            if q.len() > MAX_TEXT {
                return None;
            }
        },
        None => {},
    }
    Some(url_set_query(moved.as_str(), query))
}

/// The backend that authorized traffic is relayed to: its scheme, host and
/// port, written as a URL.
#[derive(Debug)]
pub struct ForwardTarget {
    pub base: String,
}

/// A request as it is sent to the backend.
#[derive(Debug)]
pub struct OutboundRequest {
    pub method: String,
    pub url: String,
    pub headers: Vec<Header>,
    pub body: Vec<u8>,
    /// Whether the client may decode the response body; never set, so that
    /// the body reaches the caller as the backend encoded it.
    pub decompress: bool,
}

/// The mathematical content of an `OutboundRequest`.
pub struct OutboundRequestView {
    pub method: Seq<char>,
    pub url: Seq<char>,
    pub headers: Seq<HeaderView>,
    pub body: Seq<u8>,
    pub decompress: bool,
}

impl View for OutboundRequest {
    type V = OutboundRequestView;

    open spec fn view(&self) -> OutboundRequestView {
        OutboundRequestView {
            method: self.method@,
            url: self.url@,
            headers: header_views(self.headers@),
            body: self.body@,
            decompress: self.decompress,
        }
    }
}

/// What the backend answered.
#[derive(Debug)]
pub struct BackendResponse {
    pub status: u16,
    pub headers: Vec<Header>,
    pub body: Vec<u8>,
}

/// What the caller is answered.
#[derive(Debug)]
pub struct ProxiedResponse {
    pub status: u16,
    pub headers: Vec<Header>,
    pub body: Vec<u8>,
}

/// The mathematical content of a response, from the backend or to the caller.
pub struct ResponseView {
    pub status: u16,
    pub headers: Seq<HeaderView>,
    pub body: Seq<u8>,
}

impl View for BackendResponse {
    type V = ResponseView;

    open spec fn view(&self) -> ResponseView {
        ResponseView { status: self.status, headers: header_views(self.headers@), body: self.body@ }
    }
}

impl View for ProxiedResponse {
    type V = ResponseView;

    open spec fn view(&self) -> ResponseView {
        ResponseView { status: self.status, headers: header_views(self.headers@), body: self.body@ }
    }
}

/// Why a request could not be relayed.
#[derive(Clone, Copy, Debug, PartialEq, Eq, Structural)]
pub enum ForwardError {
    /// No outbound address can be made for the request.
    Unroutable,
    /// The backend did not accept a connection in time.
    Timeout,
    /// The backend could not be connected to.
    Unreachable,
    /// The exchange with the backend broke off before a response was had.
    Transport,
    /// The response broke off while its body was read.
    Payload,
}

/// The status under which a failure to relay is reported to the caller.
pub open spec fn failure_status(error: ForwardError) -> u16 {
    match error {
        ForwardError::Unroutable => 500,
        ForwardError::Timeout => 504,
        ForwardError::Unreachable => 502,
        ForwardError::Transport => 500,
        ForwardError::Payload => 502,
    }
}

/// A response that carries a status and nothing else.
pub open spec fn bare(status: u16) -> ResponseView {
    ResponseView { status, headers: Seq::empty(), body: Seq::empty() }
}

/// The name of the header that is the connection's own and never relayed.
pub open spec fn connection_name() -> Seq<char> {
    "connection"@
}

/// The name of the header that tells the backend who called.
pub open spec fn forwarded_for_name() -> Seq<char> {
    "x-forwarded-for"@
}

/// Which headers of the backend's response reach the caller: all but
/// `Connection`.
pub open spec fn is_relayed() -> spec_fn(HeaderView) -> bool {
    |header: HeaderView| !eq_ignoring_case(header.name, connection_name())
}

/// What reaches the caller of the backend's response: status and body as
/// they are, and the headers, in their order, without `Connection`.
pub open spec fn relayed(response: ResponseView) -> ResponseView {
    ResponseView {
        status: response.status,
        headers: response.headers.filter(is_relayed()),
        body: response.body,
    }
}

/// Whether the header at `i` has the name of one before it, letter case
/// aside.
pub open spec fn named_before(headers: Seq<HeaderView>, i: int) -> bool {
    exists|j: int| 0 <= j < i && eq_ignoring_case(#[trigger] headers[j].name, headers[i].name)
}

/// Of the first `n` headers, those that are the first of their name, in
/// their order.
pub open spec fn first_of_each_upto(headers: Seq<HeaderView>, n: nat) -> Seq<HeaderView>
    decreases n,
{
    if n == 0 {
        Seq::empty()
    } else {
        let before = first_of_each_upto(headers, (n - 1) as nat);
        if named_before(headers, n - 1) {
            before
        } else {
            before.push(headers[n - 1])
        }
    }
}

/// The headers that are the first of their name, in their order.
pub open spec fn first_of_each_name(headers: Seq<HeaderView>) -> Seq<HeaderView> {
    first_of_each_upto(headers, headers.len())
}

/// Whether a text can be an IP address as far as its characters go: not
/// empty, and made of hexadecimal digits, dots and colons.
pub open spec fn is_address_text(text: Seq<char>) -> bool {
    text.len() > 0 && forall|i: int|
        0 <= i < text.len() ==> is_address_char(#[trigger] text[i])
}

pub open spec fn is_address_char(c: char) -> bool {
    hex_digit_value(c) is Some || c == '.' || c == ':'
}

/// The headers sent to the backend: of the inbound headers the first of each
/// name, and after them `x-forwarded-for` with the caller's address, where one
/// is known and is an address as far as its characters go.
pub open spec fn outbound_headers(request: InboundRequestView) -> Seq<HeaderView> {
    let copied = first_of_each_name(request.headers);
    match request.peer {
        Some(peer) if is_address_text(peer) => copied.push(
            HeaderView { name: forwarded_for_name(), value: encode_utf8(peer) },
        ),
        _ => copied,
    }
}

/// The request sent to the backend at `base` for an inbound request and its
/// body: same method, the backend's address with the inbound path and query,
/// the body as it came, and no decoding of the response.
pub open spec fn outbound_for(base: Seq<char>, request: InboundRequestView, body: Seq<u8>) -> Result<
    OutboundRequestView,
    ForwardError,
> {
    match rewritten(base, request.path, request.query) {
        None => Err(ForwardError::Unroutable),
        Some(url) => Ok(
            OutboundRequestView {
                method: request.method,
                url,
                headers: outbound_headers(request),
                body,
                decompress: false,
            },
        ),
    }
}

fn address_char(c: char) -> (r: bool)
    ensures
        r == is_address_char(c),
{
    let n: u32 = c as u32;
    ('0' as u32 <= n && n <= '9' as u32) || ('a' as u32 <= n && n <= 'f' as u32) || ('A' as u32
        <= n && n <= 'F' as u32) || c == '.' || c == ':'
}

/// Whether a text can be an IP address as far as its characters go.
pub fn address_text(text: &str) -> (r: bool)
    ensures
        r == is_address_text(text@),
{
    let n: usize = text.unicode_len();
    if n == 0 {
        return false;
    }
    let mut i: usize = 0;
    while i < n
        invariant
            i <= n,
            n == text@.len(),
            forall|j: int| 0 <= j < i ==> is_address_char(#[trigger] text@[j]),
        decreases n - i,
    {
        if !address_char(text.get_char(i)) {
            return false;
        }
        i += 1;
    }
    true
}

fn copy_header(header: &Header) -> (copy: Header)
    ensures
        copy@ == header@,
{
    Header { name: header.name.clone(), value: slice_to_vec(header.value.as_slice()) }
}

fn has_name_before(headers: &Vec<Header>, i: usize) -> (r: bool)
    requires
        i < headers.len(),
    ensures
        r == named_before(header_views(headers@), i as int),
{
    let ghost all = header_views(headers@);
    let mut j: usize = 0;
    while j < i
        invariant
            j <= i,
            i < headers.len(),
            all == header_views(headers@),
            forall|k: int| 0 <= k < j ==> !eq_ignoring_case(#[trigger] all[k].name, all[i as int].name),
        decreases i - j,
    {
        if matches_ignoring_case(headers[j].name.as_str(), headers[i].name.as_str()) {
            assert(eq_ignoring_case(all[j as int].name, all[i as int].name));
            return true;
        }
        j += 1;
    }
    false
}

/// Copies the headers that are the first of their name, in their order.
pub fn copy_first_of_each_name(headers: &Vec<Header>) -> (kept: Vec<Header>)
    ensures
        header_views(kept@) == first_of_each_name(header_views(headers@)),
{
    let ghost all = header_views(headers@);
    let mut kept: Vec<Header> = Vec::new();
    let mut i: usize = 0;
    proof {
        assert(header_views(kept@) =~= Seq::empty());
    }
    while i < headers.len()
        invariant
            i <= headers.len(),
            all == header_views(headers@),
            header_views(kept@) == first_of_each_upto(all, i as nat),
        decreases headers.len() - i,
    {
        if !has_name_before(headers, i) {
            let copy = copy_header(&headers[i]);
            proof {
                assert(header_views(kept@.push(copy)) =~= header_views(kept@).push(copy@));
            }
            kept.push(copy);
        }
        i += 1;
    }
    kept
}

impl ForwardTarget {
    /// Whether the backend's address is a URL that requests can be sent under.
    pub fn is_valid(&self) -> (ok: bool)
        ensures
            ok == (within_limit(self.base@) && url_parses(self.base@)),
    {
        self.base.as_str().len() <= MAX_TEXT && url_parse_ok(self.base.as_str())
    }

    /// The request to send to the backend for an inbound request and its
    /// body.
    pub fn outbound(&self, request: &InboundRequest, body: &Vec<u8>) -> (r: Result<
        OutboundRequest,
        ForwardError,
    >)
        ensures
            match r {
                Ok(outbound) => outbound_for(self.base@, request@, body@) == Ok::<
                    OutboundRequestView,
                    ForwardError,
                >(outbound@),
                Err(e) => outbound_for(self.base@, request@, body@) == Err::<
                    OutboundRequestView,
                    ForwardError,
                >(e),
            },
    {
        let query: Option<&str> = match &request.query {
            Some(q) => Some(q.as_str()),
            None => None,
        };
        let url = match rewrite_url(self.base.as_str(), request.path.as_str(), query) {
            Some(url) => url,
            None => {
                return Err(ForwardError::Unroutable);
            },
        };
        let mut headers = copy_first_of_each_name(&request.headers);
        match &request.peer {
            Some(peer) => {
                if address_text(peer.as_str()) {
                    let added = Header {
                        name: "x-forwarded-for".to_owned(),
                        value: peer.as_str().as_bytes_vec(),
                    };
                    proof {
                        assert(header_views(headers@.push(added)) =~= header_views(headers@).push(
                            added@,
                        ));
                    }
                    headers.push(added);
                }
            },
            None => {},
        }
        Ok(
            OutboundRequest {
                method: request.method.clone(),
                url,
                headers,
                body: slice_to_vec(body.as_slice()),
                decompress: false,
            },
        )
    }
}

impl BackendResponse {
    /// What reaches the caller of this response.
    pub fn relay(self) -> (response: ProxiedResponse)
        ensures
            response@ == relayed(self@),
    {
        let ghost all = header_views(self.headers@);
        let mut headers: Vec<Header> = Vec::new();
        let mut i: usize = 0;
        proof {
            reveal(Seq::filter);
            assert(all.take(0) =~= Seq::empty());
            assert(header_views(headers@) =~= Seq::empty());
        }
        while i < self.headers.len()
            invariant
                i <= self.headers.len(),
                all == header_views(self.headers@),
                header_views(headers@) == all.take(i as int).filter(is_relayed()),
            decreases self.headers.len() - i,
        {
            proof {
                reveal(Seq::filter);
                assert(all.take(i + 1).drop_last() =~= all.take(i as int));
                assert(all.take(i + 1).last() == self.headers@[i as int]@);
            }
            if !matches_ignoring_case(self.headers[i].name.as_str(), "connection") {
                let copy = copy_header(&self.headers[i]);
                proof {
                    assert(header_views(headers@.push(copy)) =~= header_views(headers@).push(
                        copy@,
                    ));
                }
                headers.push(copy);
            }
            i += 1;
        }
        proof {
            assert(all.take(i as int) =~= all);
        }
        ProxiedResponse { status: self.status, headers, body: self.body }
    }
}

impl ForwardError {
    /// The status under which this failure is reported to the caller.
    pub fn status(&self) -> (status: u16)
        ensures
            status == failure_status(*self),
    {
        match self {
            ForwardError::Unroutable => 500,
            ForwardError::Timeout => 504,
            ForwardError::Unreachable => 502,
            ForwardError::Transport => 500,
            ForwardError::Payload => 502,
        }
    }
}

impl ProxiedResponse {
    /// A response that carries a status and nothing else.
    pub fn bare(status: u16) -> (response: ProxiedResponse)
        ensures
            response@ == bare(status),
    {
        let response = ProxiedResponse { status, headers: Vec::new(), body: Vec::new() };
        proof {
            assert(header_views(response.headers@) =~= Seq::empty());
        }
        response
    }
}

/// No relayed response carries a `Connection` header, and every other header
/// of the backend's response is relayed.
pub proof fn lemma_relayed_headers(response: ResponseView)
    ensures
        forall|i: int|
            0 <= i < relayed(response).headers.len() ==> !eq_ignoring_case(
                (#[trigger] relayed(response).headers[i]).name,
                connection_name(),
            ),
        forall|i: int|
            0 <= i < response.headers.len() && !eq_ignoring_case(
                (#[trigger] response.headers[i]).name,
                connection_name(),
            ) ==> relayed(response).headers.contains(response.headers[i]),
        relayed(response).status == response.status,
        relayed(response).body == response.body,
{
    let kept = response.headers.filter(is_relayed());
    assert forall|i: int| 0 <= i < kept.len() implies !eq_ignoring_case(
        (#[trigger] kept[i]).name,
        connection_name(),
    ) by {
        response.headers.lemma_filter_pred(is_relayed(), i);
    }
    assert forall|i: int|
        0 <= i < response.headers.len() && !eq_ignoring_case(
            (#[trigger] response.headers[i]).name,
            connection_name(),
        ) implies kept.contains(response.headers[i]) by {
        response.headers.lemma_filter_contains(is_relayed(), i);
    }
}

/// A response without a `Connection` header is relayed as it is.
pub proof fn lemma_relayed_verbatim(response: ResponseView)
    requires
        forall|i: int|
            0 <= i < response.headers.len() ==> !eq_ignoring_case(
                (#[trigger] response.headers[i]).name,
                connection_name(),
            ),
    ensures
        relayed(response) == response,
{
    lemma_filter_all(response.headers, is_relayed());
}

/// Filtering by a test that every item passes changes nothing.
pub proof fn lemma_filter_all<A>(items: Seq<A>, keep: spec_fn(A) -> bool)
    requires
        forall|i: int| 0 <= i < items.len() ==> keep(#[trigger] items[i]),
    ensures
        items.filter(keep) == items,
    decreases items.len(),
{
    reveal(Seq::filter);
    if items.len() > 0 {
        lemma_filter_all(items.drop_last(), keep);
        assert(items.drop_last().push(items.last()) =~= items);
    }
}

/// Every failure to relay is reported with a status of the 5xx class.
pub proof fn lemma_failure_is_server_error(error: ForwardError)
    ensures
        500 <= failure_status(error) < 600,
{
}

} // verus!
