//! Requests as the worker sends them to the runtime.
//!
//! The runtime listens on a socket file, which has no network name. A request
//! is therefore addressed to a synthetic target made from the socket path,
//! and the URL that the caller means travels in a header of its own. The HTTP
//! transport owns the headers `Host` and `Connection`; a header of the
//! caller's with one of these names travels under another name, so that it
//! cannot disturb the exchange.

use vstd::prelude::*;
use vstd::string::StringExecFns;
use vstd::utf8::encode_utf8;

use crate::text::chars_of;
use crate::text::equals_ignoring_ascii_case;
use crate::text::same_ignoring_ascii_case;
use crate::text::utf8_len;

verus! {

/// The method of an HTTP request, as `hyper` holds it. The library hands it
/// on as it got it.
#[verifier::external_type_specification]
#[verifier::external_body]
pub struct ExMethod(hyper::Method);

/// The longest socket path, in bytes of UTF-8, from which a request target
/// can be made.
pub const MAX_SOCKET_PATH_BYTES: usize = 32762;

/// The sixteen digits of hexadecimal notation, with small letters.
pub open spec fn hex_digits() -> Seq<char> {
    "0123456789abcdef"@
}

/// The bytes in hexadecimal notation, two digits for each byte.
pub open spec fn hex_text(bytes: Seq<u8>) -> Seq<char>
    decreases bytes.len(),
{
    if bytes.len() == 0 {
        Seq::empty()
    } else {
        seq![hex_digits()[bytes[0] as int / 16], hex_digits()[bytes[0] as int % 16]] + hex_text(
            bytes.drop_first(),
        )
    }
}

/// The text of the URI for the socket file at `socket_path` and the path
/// `endpoint` behind it: the scheme `unix`, the bytes of the socket path in
/// hexadecimal notation as the host, the port 0, and the endpoint.
pub open spec fn unix_socket_uri(socket_path: Seq<char>, endpoint: Seq<char>) -> Seq<char> {
    "unix://"@ + hex_text(encode_utf8(socket_path)) + ":0"@ + endpoint
}

/// The one endpoint to which every request goes; where a request is meant to
/// go is for the runtime to read from the header with the caller's URL.
pub open spec fn endpoint() -> Seq<char> {
    "/"@
}

/// The target of every request to the runtime behind the socket at
/// `socket_path`.
pub open spec fn request_target(socket_path: Seq<char>) -> Seq<char> {
    unix_socket_uri(socket_path, endpoint())
}

/// The name of the header in which the caller's URL travels.
pub open spec fn url_header() -> Seq<char> {
    "X-Deno-Worker-URL"@
}

/// The name under which a `Host` header of the caller's travels.
pub open spec fn host_header() -> Seq<char> {
    "X-Deno-Worker-Host"@
}

/// The name under which a `Connection` header of the caller's travels.
pub open spec fn connection_header() -> Seq<char> {
    "X-Deno-Worker-Connection"@
}

/// The header name is `host`, in any case of its letters.
pub open spec fn is_host(name: Seq<char>) -> bool {
    same_ignoring_ascii_case(name, "host"@)
}

/// The header name is `connection`, in any case of its letters.
pub open spec fn is_connection(name: Seq<char>) -> bool {
    same_ignoring_ascii_case(name, "connection"@)
}

/// The name under which a header of the caller's travels.
pub open spec fn delivered_name(name: Seq<char>) -> Seq<char> {
    if is_host(name) {
        host_header()
    } else if is_connection(name) {
        connection_header()
    } else {
        name
    }
}

/// The views of a list of headers, in order.
pub open spec fn header_texts(headers: Seq<(String, String)>) -> Seq<(Seq<char>, Seq<char>)> {
    Seq::new(headers.len(), |i: int| (headers[i].0@, headers[i].1@))
}

/// The headers of the request that is sent: first the caller's URL, then the
/// caller's headers in the caller's order, each under the name it travels
/// under and with its value unchanged.
pub open spec fn delivered_headers(
    url: Seq<char>,
    headers: Seq<(Seq<char>, Seq<char>)>,
) -> Seq<(Seq<char>, Seq<char>)> {
    Seq::new(
        headers.len() + 1,
        |i: int|
            if i == 0 {
                (url_header(), url)
            } else {
                (delivered_name(headers[i - 1].0), headers[i - 1].1)
            },
    )
}

/// A request, ready to be sent over the socket.
#[derive(Debug)]
pub struct PreparedRequest {
    /// The method; `None` leaves the choice to the transport, which then
    /// sends a `GET`.
    pub method: Option<hyper::Method>,
    /// The request target, which names the socket and the endpoint.
    pub uri: String,
    /// The headers, in the order in which they are added to the request.
    pub headers: Vec<(String, String)>,
    /// The body; `None` stands for an empty body.
    pub body: Option<String>,
}

/// The view of a `PreparedRequest`.
pub struct RequestView {
    pub method: Option<hyper::Method>,
    pub uri: Seq<char>,
    pub headers: Seq<(Seq<char>, Seq<char>)>,
    pub body: Option<Seq<char>>,
}

impl View for PreparedRequest {
    type V = RequestView;

    open spec fn view(&self) -> RequestView {
        RequestView {
            method: self.method,
            uri: self.uri@,
            headers: header_texts(self.headers@),
            body: match self.body {
                Some(text) => Some(text@),
                None => None,
            },
        }
    }
}

/// The view of an optional body.
pub open spec fn body_text(body: Option<String>) -> Option<Seq<char>> {
    match body {
        Some(text) => Some(text@),
        None => None,
    }
}

/// The request that carries `url`, `method`, `headers` and `body` to the
/// runtime behind the socket at `socket_path`.
pub open spec fn request_for(
    socket_path: Seq<char>,
    url: Seq<char>,
    method: hyper::Method,
    headers: Seq<(Seq<char>, Seq<char>)>,
    body: Option<Seq<char>>,
) -> RequestView {
    RequestView {
        method: Some(method),
        uri: request_target(socket_path),
        headers: delivered_headers(url, headers),
        body,
    }
}

/// The request that is sent once before a worker is handed out: no method of
/// its own, no header and no body, to the same target as every later request.
pub open spec fn warm_up_request(socket_path: Seq<char>) -> RequestView {
    RequestView {
        method: None,
        uri: request_target(socket_path),
        headers: Seq::empty(),
        body: None,
    }
}

/// Makes the URI for the socket at `socket_path` and the endpoint `/`. This
/// calls `hyperlocal::Uri::new` and hands back the text of the URI it made.
/// `hyperlocal` writes the scheme `unix`, the bytes of the socket path in
/// hexadecimal notation with small letters as the host, the port 0 and the
/// endpoint, and has `hyper` read that text as a URI; `hyper` writes a URI
/// of this form as it read it. That call ends the program on a text that is
/// no URI, which with this endpoint can only be one of more than 65534
/// bytes; the bound on the socket path keeps the text shorter.
#[verifier::external_body]
fn socket_uri(socket_path: &str, endpoint: &str) -> (uri: String)
    requires
        utf8_len(socket_path@) <= MAX_SOCKET_PATH_BYTES,
        endpoint@ == self::endpoint(),
    ensures
        uri@ == unix_socket_uri(socket_path@, endpoint@),
{
    hyper::Uri::from(hyperlocal::Uri::new(socket_path, endpoint)).to_string()
}

/// The name under which a header of the caller's travels.
pub fn delivered_header_name(name: String) -> (out: String)
    ensures
        out@ == delivered_name(name@),
{
    let chars = chars_of(name.as_str());
    let host = chars_of("host");
    let connection = chars_of("connection");
    if equals_ignoring_ascii_case(&chars, &host) {
        String::from_str("X-Deno-Worker-Host")
    } else if equals_ignoring_ascii_case(&chars, &connection) {
        String::from_str("X-Deno-Worker-Connection")
    } else {
        name
    }
}

impl PreparedRequest {
    /// Builds the request that carries the caller's `url`, `method`,
    /// `headers` and `body` to the runtime behind the socket at
    /// `socket_path`.
    pub fn build(
        socket_path: &str,
        url: &str,
        method: hyper::Method,
        headers: Vec<(String, String)>,
        body: Option<String>,
    ) -> (request: PreparedRequest)
        requires
            utf8_len(socket_path@) <= MAX_SOCKET_PATH_BYTES,
        ensures
            request@ == request_for(
                socket_path@,
                url@,
                method,
                header_texts(headers@),
                body_text(body),
            ),
    {
        let uri = socket_uri(socket_path, "/");
        let ghost given = header_texts(headers@);
        let mut sent: Vec<(String, String)> = Vec::new();
        sent.push((String::from_str("X-Deno-Worker-URL"), String::from_str(url)));
        let mut i: usize = 0;
        while i < headers.len()
            invariant
                i <= headers.len(),
                given == header_texts(headers@),
                sent@.len() == i + 1,
                sent@[0].0@ == url_header(),
                sent@[0].1@ == url@,
                forall|j: int|
                    1 <= j <= i ==> (#[trigger] sent@[j]).0@ == delivered_name(given[j - 1].0)
                        && sent@[j].1@ == given[j - 1].1,
            decreases headers.len() - i,
        {
            let name = headers[i].0.clone();
            let value = headers[i].1.clone();
            sent.push((delivered_header_name(name), value));
            i += 1;
        }
        assert(header_texts(sent@) =~= delivered_headers(url@, given));
        PreparedRequest { method: Some(method), uri, headers: sent, body }
    }

    /// Builds the request that is sent once before a worker is handed out:
    /// no method of its own, no header and no body, to the same target as
    /// every later request.
    pub fn warm_up(socket_path: &str) -> (request: PreparedRequest)
        requires
            utf8_len(socket_path@) <= MAX_SOCKET_PATH_BYTES,
        ensures
            request@ == warm_up_request(socket_path@),
    {
        let request = PreparedRequest {
            method: None,
            uri: socket_uri(socket_path, "/"),
            headers: Vec::new(),
            body: None,
        };
        assert(header_texts(request.headers@) =~= Seq::empty());
        request
    }
}

/// None of the three names that the worker gives to headers is `host` or
/// `connection`, and no name is both.
proof fn lemma_own_names_are_free()
    ensures
        !is_host(url_header()) && !is_connection(url_header()),
        !is_host(host_header()) && !is_connection(host_header()),
        !is_host(connection_header()) && !is_connection(connection_header()),
        forall|name: Seq<char>| !(is_host(name) && is_connection(name)),
{
    reveal_strlit("host");
    reveal_strlit("connection");
    reveal_strlit("X-Deno-Worker-URL");
    reveal_strlit("X-Deno-Worker-Host");
    reveal_strlit("X-Deno-Worker-Connection");
}

/// A header of the caller's whose name is `host` or `connection`, in any
/// case of its letters, reaches the runtime with its value under the name
/// `X-Deno-Worker-Host` or `X-Deno-Worker-Connection`; every other header
/// reaches it under its own name; and no header of the request that is sent
/// is named `host` or `connection`.
pub proof fn conflicting_headers_travel_renamed(
    url: Seq<char>,
    headers: Seq<(Seq<char>, Seq<char>)>,
)
    ensures
        delivered_headers(url, headers).len() == headers.len() + 1,
        delivered_headers(url, headers)[0] == (url_header(), url),
        forall|i: int|
            0 <= i < headers.len() && is_host((#[trigger] headers[i]).0) ==> delivered_headers(
                url,
                headers,
            )[i + 1] == (host_header(), headers[i].1),
        forall|i: int|
            0 <= i < headers.len() && is_connection((#[trigger] headers[i]).0)
                ==> delivered_headers(url, headers)[i + 1] == (
                connection_header(),
                headers[i].1,
            ),
        forall|i: int|
            0 <= i < headers.len() && !is_connection((#[trigger] headers[i]).0) && !is_host(
                headers[i].0,
            ) ==> delivered_headers(url, headers)[i + 1] == headers[i],
        forall|j: int|
            0 <= j < delivered_headers(url, headers).len() ==> !is_host(
                (#[trigger] delivered_headers(url, headers)[j]).0,
            ) && !is_connection(delivered_headers(url, headers)[j].0),
{
    lemma_own_names_are_free();
}

} // verus!
