use auth_proxy::forward::{
    address_text, copy_first_of_each_name, rewrite_url, BackendResponse, ForwardError,
    ForwardTarget, ProxiedResponse,
};
use auth_proxy::request::{Header, InboundRequest};

const BASE: &str = "http://127.0.0.1:5001";

fn header(name: &str, value: &[u8]) -> Header {
    Header { name: name.to_string(), value: value.to_vec() }
}

fn pairs(headers: &[Header]) -> Vec<(String, Vec<u8>)> {
    headers.iter().map(|h| (h.name.clone(), h.value.clone())).collect()
}

fn pair(name: &str, value: &[u8]) -> (String, Vec<u8>) {
    (name.to_string(), value.to_vec())
}

fn request(headers: Vec<Header>, peer: Option<&str>) -> InboundRequest {
    InboundRequest {
        method: "POST".to_string(),
        path: "/api/v0/add".to_string(),
        query: Some("pin=true&x=%20y".to_string()),
        headers,
        peer: peer.map(|p| p.to_string()),
    }
}

#[test]
fn rewrite_url_replaces_path_and_query() {
    assert_eq!(
        rewrite_url(BASE, "/api/v0/add", Some("pin=true&x=%20y")),
        Some("http://127.0.0.1:5001/api/v0/add?pin=true&x=%20y".to_string())
    );
    assert_eq!(
        rewrite_url("http://backend:5001/old/path?old=1", "/new", None),
        Some("http://backend:5001/new".to_string())
    );
    assert_eq!(
        rewrite_url("http://backend:5001/old?old=1", "/new", Some("")),
        Some("http://backend:5001/new?".to_string())
    );
    assert_eq!(rewrite_url(BASE, "/", None), Some("http://127.0.0.1:5001/".to_string()));
}

#[test]
fn rewrite_url_escapes_what_a_url_cannot_hold() {
    assert_eq!(
        rewrite_url(BASE, "/a b", Some("q=a b")),
        Some("http://127.0.0.1:5001/a%20b?q=a%20b".to_string())
    );
}

#[test]
fn rewrite_url_needs_a_url_to_start_from() {
    assert_eq!(rewrite_url("127.0.0.1:5001/nowhere", "/a", None), None);
    assert_eq!(rewrite_url("", "/a", None), None);
    assert_eq!(rewrite_url("not a url", "/a", Some("x=1")), None);
}

#[test]
fn target_validity() {
    assert!(ForwardTarget { base: BASE.to_string() }.is_valid());
    assert!(!ForwardTarget { base: "nowhere".to_string() }.is_valid());
    assert!(!ForwardTarget { base: String::new() }.is_valid());
}

#[test]
fn address_text_wants_digits_dots_and_colons() {
    assert!(address_text("127.0.0.1"));
    assert!(address_text("::1"));
    assert!(address_text("2001:db8::ff00:42:8329"));
    assert!(address_text("::FFFF:10.0.0.1"));
    assert!(!address_text(""));
    assert!(!address_text("10.0.0.1 "));
    assert!(!address_text("10.0.0.1\r\nx-evil: 1"));
    assert!(!address_text("localhost"));
    assert!(!address_text("fe80::1%eth0"));
}

#[test]
fn copy_keeps_the_first_header_of_each_name() {
    let kept = copy_first_of_each_name(&vec![
        header("accept", b"a"),
        header("x-a", b"1"),
        header("Accept", b"b"),
        header("x-b", b"2"),
        header("X-A", b"3"),
        header("accept", b"c"),
    ]);
    assert_eq!(pairs(&kept), vec![pair("accept", b"a"), pair("x-a", b"1"), pair("x-b", b"2")]);
    assert!(copy_first_of_each_name(&Vec::new()).is_empty());
}

#[test]
fn outbound_keeps_method_body_and_headers() {
    let target = ForwardTarget { base: BASE.to_string() };
    let body = vec![0u8, 159, 146, 150, 255];
    let out = target
        .outbound(&request(vec![header("content-type", b"text/plain"), header("x-bin", &[0xff])], None), &body)
        .unwrap();
    assert_eq!(out.method, "POST");
    assert_eq!(out.url, "http://127.0.0.1:5001/api/v0/add?pin=true&x=%20y");
    assert_eq!(out.body, body);
    assert!(!out.decompress);
    assert_eq!(
        pairs(&out.headers),
        vec![pair("content-type", b"text/plain"), pair("x-bin", &[0xff])]
    );
}

#[test]
fn outbound_adds_the_callers_address() {
    let target = ForwardTarget { base: BASE.to_string() };
    let out = target
        .outbound(&request(vec![header("accept", b"*/*")], Some("192.168.1.9")), &Vec::new())
        .unwrap();
    assert_eq!(
        pairs(&out.headers),
        vec![pair("accept", b"*/*"), pair("x-forwarded-for", b"192.168.1.9")]
    );
    let out = target
        .outbound(&request(vec![header("X-Forwarded-For", b"1.2.3.4")], Some("::1")), &Vec::new())
        .unwrap();
    assert_eq!(
        pairs(&out.headers),
        vec![pair("X-Forwarded-For", b"1.2.3.4"), pair("x-forwarded-for", b"::1")]
    );
}

#[test]
fn outbound_omits_an_address_that_is_none() {
    let target = ForwardTarget { base: BASE.to_string() };
    for peer in [None, Some(""), Some("unknown"), Some("1.2.3.4\r\nhost: evil")] {
        let out = target.outbound(&request(vec![header("accept", b"*/*")], peer), &Vec::new()).unwrap();
        assert_eq!(pairs(&out.headers), vec![pair("accept", b"*/*")]);
    }
}

#[test]
fn outbound_without_query() {
    let target = ForwardTarget { base: BASE.to_string() };
    let mut r = request(Vec::new(), None);
    r.query = None;
    assert_eq!(target.outbound(&r, &Vec::new()).unwrap().url, "http://127.0.0.1:5001/api/v0/add");
}

#[test]
fn outbound_fails_without_a_target() {
    let target = ForwardTarget { base: "nowhere".to_string() };
    assert_eq!(
        target.outbound(&request(Vec::new(), None), &Vec::new()).err(),
        Some(ForwardError::Unroutable)
    );
}

#[test]
fn relay_drops_connection_and_nothing_else() {
    let answer = BackendResponse {
        status: 206,
        headers: vec![
            header("content-encoding", b"gzip"),
            header("Connection", b"keep-alive"),
            header("set-cookie", b"a=1"),
            header("connection", b"close"),
            header("set-cookie", b"b=2"),
            header("connections", b"x"),
        ],
        body: vec![31, 139, 8, 0],
    };
    let out = answer.relay();
    assert_eq!(out.status, 206);
    assert_eq!(out.body, vec![31, 139, 8, 0]);
    assert_eq!(
        pairs(&out.headers),
        vec![
            pair("content-encoding", b"gzip"),
            pair("set-cookie", b"a=1"),
            pair("set-cookie", b"b=2"),
            pair("connections", b"x"),
        ]
    );
}

#[test]
fn relay_without_connection_is_verbatim() {
    let answer = BackendResponse {
        status: 404,
        headers: vec![header("content-type", b"text/plain")],
        body: b"nope".to_vec(),
    };
    let out = answer.relay();
    assert_eq!(out.status, 404);
    assert_eq!(out.body, b"nope");
    assert_eq!(pairs(&out.headers), vec![pair("content-type", b"text/plain")]);
}

#[test]
fn failures_have_their_statuses() {
    assert_eq!(ForwardError::Unroutable.status(), 500);
    assert_eq!(ForwardError::Timeout.status(), 504);
    assert_eq!(ForwardError::Unreachable.status(), 502);
    assert_eq!(ForwardError::Transport.status(), 500);
    assert_eq!(ForwardError::Payload.status(), 502);
}

#[test]
fn bare_response_has_only_a_status() {
    let r = ProxiedResponse::bare(503);
    assert_eq!(r.status, 503);
    assert!(r.headers.is_empty());
    assert!(r.body.is_empty());
}
