use ws_peer::handshake::{build_handshake, handshake_request, HandshakeRequest};
use ws_peer::target::{host_from_authority, TargetError};

const REQUIRED: [&str; 6] = [
    "Host",
    "Connection",
    "Upgrade",
    "Sec-WebSocket-Version",
    "Sec-WebSocket-Key",
    "Sec-WebSocket-Protocol",
];

fn header<'a>(req: &'a HandshakeRequest, name: &str) -> Vec<&'a str> {
    req.headers.iter().filter(|(n, _)| n == name).map(|(_, v)| v.as_str()).collect()
}

#[test]
fn handshake_carries_each_required_header_once() {
    let req = build_handshake("ws://127.0.0.1:1337/").unwrap();
    assert_eq!(req.method, "GET");
    assert_eq!(req.uri, "ws://127.0.0.1:1337/");
    assert_eq!(req.headers.len(), REQUIRED.len());
    for name in REQUIRED {
        assert_eq!(header(&req, name).len(), 1, "{name}");
    }
    assert_eq!(header(&req, "Host"), vec!["127.0.0.1:1337"]);
    assert_eq!(header(&req, "Connection"), vec!["Upgrade"]);
    assert_eq!(header(&req, "Upgrade"), vec!["websocket"]);
    assert_eq!(header(&req, "Sec-WebSocket-Version"), vec!["13"]);
    assert_eq!(header(&req, "Sec-WebSocket-Protocol"), vec!["test"]);
    assert_eq!(header(&req, "Sec-WebSocket-Key")[0].len(), 24);
}

#[test]
fn rebuilt_handshake_differs_only_in_key() {
    let a = build_handshake("ws://user@127.0.0.1:1337/").unwrap();
    let b = build_handshake("ws://user@127.0.0.1:1337/").unwrap();
    assert_eq!(a.method, b.method);
    assert_eq!(a.uri, b.uri);
    assert_eq!(a.headers.len(), b.headers.len());
    for (x, y) in a.headers.iter().zip(b.headers.iter()) {
        assert_eq!(x.0, y.0);
        if x.0 == "Sec-WebSocket-Key" {
            assert_ne!(x.1, y.1);
        } else {
            assert_eq!(x.1, y.1);
        }
    }
    assert_eq!(header(&a, "Host"), vec!["127.0.0.1:1337"]);
}

#[test]
fn handshake_request_places_host_and_key() {
    let req = handshake_request("ws://h:1/", "h:1", "dGhlIHNhbXBsZSBub25jZQ==");
    assert_eq!(header(&req, "Host"), vec!["h:1"]);
    assert_eq!(header(&req, "Sec-WebSocket-Key"), vec!["dGhlIHNhbXBsZSBub25jZQ=="]);
}

#[test]
fn empty_host_fails_before_any_connection() {
    assert_eq!(host_from_authority(""), Err(TargetError::EmptyHostName));
    assert!(matches!(build_handshake("/"), Err(TargetError::NoHostName)));
}

#[test]
fn handshake_converts_to_http_request() {
    let req = build_handshake("ws://127.0.0.1:1337/").unwrap();
    let http_req = req.to_http_request().unwrap();
    assert_eq!(http_req.method(), "GET");
    assert_eq!(http_req.uri().to_string(), "ws://127.0.0.1:1337/");
    assert_eq!(http_req.headers().len(), 6);
    assert_eq!(http_req.headers()["host"], "127.0.0.1:1337");
    assert_eq!(http_req.headers()["sec-websocket-protocol"], "test");
    assert_eq!(http_req.headers()["upgrade"], "websocket");
}
