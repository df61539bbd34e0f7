use vstd::prelude::*;
use vstd::string::*;
use crate::target::{resolve_host, resolved_host, TargetError};

verus! {

#[verifier::external_type_specification]
#[verifier::external_body]
pub struct ExBuilder(http::request::Builder);

#[verifier::external_type_specification]
#[verifier::external_body]
#[verifier::reject_recursive_types(T)]
pub struct ExRequest<T>(http::Request<T>);

#[verifier::external_type_specification]
#[verifier::external_body]
pub struct ExHttpError(http::Error);

/// The opening handshake that a client sends: an HTTP request that asks the
/// server to switch the connection to WebSocket framing.
pub struct HandshakeRequest {
    pub method: String,
    pub uri: String,
    pub headers: Vec<(String, String)>,
}

/// A handshake request as text: method, request URI, and headers in order.
pub ghost struct RequestModel {
    pub method: Seq<char>,
    pub uri: Seq<char>,
    pub headers: Seq<(Seq<char>, Seq<char>)>,
}

impl View for HandshakeRequest {
    type V = RequestModel;

    open spec fn view(&self) -> RequestModel {
        RequestModel {
            method: self.method@,
            uri: self.uri@,
            headers: self.headers@.map_values(|h: (String, String)| (h.0@, h.1@)),
        }
    }
}

/// The headers of a handshake to `host` with the key `key`.
pub open spec fn handshake_headers(host: Seq<char>, key: Seq<char>) -> Seq<(Seq<char>, Seq<char>)> {
    seq![
        ("Host"@, host),
        ("Connection"@, "Upgrade"@),
        ("Upgrade"@, "websocket"@),
        ("Sec-WebSocket-Version"@, "13"@),
        ("Sec-WebSocket-Key"@, key),
        ("Sec-WebSocket-Protocol"@, "test"@),
    ]
}

/// The names of the headers that every handshake carries.
pub open spec fn required_header_names() -> Seq<Seq<char>> {
    seq![
        "Host"@,
        "Connection"@,
        "Upgrade"@,
        "Sec-WebSocket-Version"@,
        "Sec-WebSocket-Key"@,
        "Sec-WebSocket-Protocol"@,
    ]
}

/// The handshake for the target URI `uri`, naming `host`, with key `key`.
pub open spec fn handshake_model(uri: Seq<char>, host: Seq<char>, key: Seq<char>) -> RequestModel {
    RequestModel { method: "GET"@, uri, headers: handshake_headers(host, key) }
}

/// The value of the key header of a handshake.
pub open spec fn key_of(m: RequestModel) -> Seq<char> {
    m.headers[4].1
}

/// `m` is a handshake for `target`: it names the host that the target
/// resolves to and carries a key of 24 characters, the base64 text of 16
/// bytes.
pub open spec fn built_from(m: RequestModel, target: Seq<char>) -> bool {
    &&& resolved_host(target) is Ok
    &&& key_of(m).len() == 24
    &&& m == handshake_model(target, resolved_host(target)->Ok_0, key_of(m))
}

/// How many of the headers `hs` are named `name`.
pub open spec fn header_count(hs: Seq<(Seq<char>, Seq<char>)>, name: Seq<char>) -> nat
    decreases hs.len(),
{
    if hs.len() == 0 {
        0
    } else {
        header_count(hs.drop_last(), name) + if hs.last().0 == name {
            1nat
        } else {
            0nat
        }
    }
}

/// Every handshake to a non-empty host is a `GET` that carries each of the
/// required headers exactly once, and no other header.
pub proof fn lemma_handshake_headers_once(uri: Seq<char>, host: Seq<char>, key: Seq<char>)
    requires
        host.len() > 0,
    ensures
        handshake_model(uri, host, key).method == "GET"@,
        handshake_model(uri, host, key).headers.len() == required_header_names().len(),
        forall|i: int|
            0 <= i < required_header_names().len() ==> header_count(
                #[trigger] handshake_model(uri, host, key).headers,
                required_header_names()[i],
            ) == 1,
{
    reveal_strlit("Host");
    reveal_strlit("Connection");
    reveal_strlit("Upgrade");
    reveal_strlit("Sec-WebSocket-Version");
    reveal_strlit("Sec-WebSocket-Key");
    reveal_strlit("Sec-WebSocket-Protocol");
    let e = Seq::<(Seq<char>, Seq<char>)>::empty();
    let hs = handshake_headers(host, key);
    let names = required_header_names();
    assert forall|i: int| 0 <= i < names.len() implies header_count(hs, names[i]) == 1 by {
        let n = names[i];
        assert("Host"@.len() == 4);
        assert("Connection"@.len() == 10);
        assert("Upgrade"@.len() == 7);
        assert("Sec-WebSocket-Version"@.len() == 21);
        assert("Sec-WebSocket-Key"@.len() == 17);
        assert("Sec-WebSocket-Protocol"@.len() == 22);
        assert(n == hs[i].0);
        assert(forall|j: int| 0 <= j < 6 && j != i ==> hs[j].0.len() != n.len());
        let h1 = e.push(hs[0]);
        let h2 = h1.push(hs[1]);
        let h3 = h2.push(hs[2]);
        let h4 = h3.push(hs[3]);
        let h5 = h4.push(hs[4]);
        assert(hs =~= h5.push(hs[5]));
        assert(header_count(e, n) == 0);
        lemma_count_push(e, hs[0], n);
        lemma_count_push(h1, hs[1], n);
        lemma_count_push(h2, hs[2], n);
        lemma_count_push(h3, hs[3], n);
        lemma_count_push(h4, hs[4], n);
        lemma_count_push(h5, hs[5], n);
    }
}

proof fn lemma_count_push(hs: Seq<(Seq<char>, Seq<char>)>, h: (Seq<char>, Seq<char>), name: Seq<char>)
    ensures
        header_count(hs.push(h), name) == header_count(hs, name) + if h.0 == name {
            1nat
        } else {
            0nat
        },
{
    assert(hs.push(h).drop_last() =~= hs);
}

/// Two handshakes built for one target differ at most in the value of the key
/// header: method, request URI, header names and every other header value
/// are the same.
pub proof fn lemma_rebuilt_handshake_differs_only_in_key(
    target: Seq<char>,
    first: RequestModel,
    second: RequestModel,
)
    requires
        built_from(first, target),
        built_from(second, target),
    ensures
        first.method == second.method,
        first.uri == second.uri,
        first.headers.len() == second.headers.len(),
        forall|i: int|
            0 <= i < first.headers.len() ==> #[trigger] first.headers[i].0 == second.headers[i].0,
        forall|i: int|
            0 <= i < first.headers.len() && first.headers[i].0 != "Sec-WebSocket-Key"@
                ==> #[trigger] first.headers[i] == second.headers[i],
{
}

/// The handshake for the target URI `uri`, naming `host`, with key `key`.
pub fn handshake_request(uri: &str, host: &str, key: &str) -> (r: HandshakeRequest)
    ensures
        r@ == handshake_model(uri@, host@, key@),
{
    let mut headers: Vec<(String, String)> = Vec::new();
    headers.push((String::from_str("Host"), String::from_str(host)));
    headers.push((String::from_str("Connection"), String::from_str("Upgrade")));
    headers.push((String::from_str("Upgrade"), String::from_str("websocket")));
    headers.push((String::from_str("Sec-WebSocket-Version"), String::from_str("13")));
    headers.push((String::from_str("Sec-WebSocket-Key"), String::from_str(key)));
    headers.push((String::from_str("Sec-WebSocket-Protocol"), String::from_str("test")));
    let r = HandshakeRequest { method: String::from_str("GET"), uri: String::from_str(uri), headers };
    assert(r@.headers =~= handshake_headers(host@, key@));
    r
}

/// Relies on tungstenite's `generate_key`: the base64 text, with padding, of
/// 16 random bytes, which is 24 characters long.
#[verifier::external_body]
fn generate_key() -> (r: String)
    ensures
        r@.len() == 24,
{
    tungstenite::handshake::client::generate_key()
}

/// The handshake for a target URI, with a fresh random key; or why the
/// target names no host.
pub fn build_handshake(target: &str) -> (r: Result<HandshakeRequest, TargetError>)
    ensures
        match r {
            Ok(req) => built_from(req@, target@),
            Err(e) => resolved_host(target@) == Err::<Seq<char>, TargetError>(e),
        },
{
    let host = match resolve_host(target) {
        Ok(h) => h,
        Err(e) => {
            return Err(e);
        },
    };
    let key = generate_key();
    let req = handshake_request(target, host.as_str(), key.as_str());
    proof {
        reveal_strlit("Sec-WebSocket-Key");
    }
    Ok(req)
}

/// Relies on `http::request::Builder::new`: a builder for a request.
#[verifier::external_body]
fn builder_new() -> (r: http::request::Builder) {
    http::request::Builder::new()
}

/// Relies on `http::request::Builder::method`: sets the request method.
#[verifier::external_body]
fn builder_method(b: http::request::Builder, method: &str) -> (r: http::request::Builder) {
    b.method(method)
}

/// Relies on `http::request::Builder::uri`: sets the request URI.
#[verifier::external_body]
fn builder_uri(b: http::request::Builder, uri: &str) -> (r: http::request::Builder) {
    b.uri(uri)
}

/// Relies on `http::request::Builder::header`: appends a header.
#[verifier::external_body]
fn builder_header(b: http::request::Builder, name: &str, value: &str) -> (r: http::request::Builder) {
    b.header(name, value)
}

/// Relies on `http::request::Builder::body`: the request with an empty body,
/// or the first error met while building it.
#[verifier::external_body]
fn builder_finish(b: http::request::Builder) -> (r: Result<http::Request<()>, http::Error>) {
    b.body(())
}

impl HandshakeRequest {
    /// The request as an `http::Request`, with its method, URI and headers in
    /// order; an error where one of them is not valid HTTP.
    pub fn to_http_request(&self) -> (r: Result<http::Request<()>, http::Error>) {
        let mut b = builder_new();
        b = builder_method(b, self.method.as_str());
        b = builder_uri(b, self.uri.as_str());
        let mut i: usize = 0;
        while i < self.headers.len()
            invariant
                i <= self.headers.len(),
            decreases self.headers.len() - i,
        {
            let (name, value) = &self.headers[i];
            b = builder_header(b, name.as_str(), value.as_str());
            i += 1;
        }
        builder_finish(b)
    }
}

} // verus!
