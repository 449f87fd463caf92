//! The request that opens the websocket to the hub.

use tokio_tungstenite::tungstenite::client::IntoClientRequest;
use tokio_tungstenite::tungstenite::http::header::{HeaderValue, InvalidHeaderValue};
use tokio_tungstenite::tungstenite::http::Request;

use vstd::prelude::*;
use vstd::string::*;

verus! {

/// `http::Request`, carried through as it is.
#[verifier::external_type_specification]
#[verifier::external_body]
#[verifier::reject_recursive_types(T)]
pub struct ExRequest<T>(Request<T>);

/// `http::HeaderValue`, carried through as it is.
#[verifier::external_type_specification]
#[verifier::external_body]
pub struct ExHeaderValue(HeaderValue);

/// `http::header::InvalidHeaderValue`, carried through as it is.
#[verifier::external_type_specification]
#[verifier::external_body]
pub struct ExInvalidHeaderValue(InvalidHeaderValue);

/// The header fields of a request: for each lower-case name its values in order.
pub uninterp spec fn request_headers(request: Request<()>) -> Map<Seq<char>, Seq<Seq<u8>>>;

/// The method of a request, written out.
pub uninterp spec fn request_method(request: Request<()>) -> Seq<char>;

/// The target of a request, written out.
pub uninterp spec fn request_uri(request: Request<()>) -> Seq<char>;

/// The bytes of a header value.
pub uninterp spec fn header_bytes(value: HeaderValue) -> Seq<u8>;

/// What `IntoClientRequest::into_client_request` makes of a URL: the request's target, written
/// out, and the value of its `Host` field; or the text of the error.
pub uninterp spec fn handshake(url: Seq<char>) -> Result<(Seq<char>, Seq<u8>), Seq<char>>;

/// A byte that a header value may hold: no control character but the tab.
pub open spec fn header_byte(b: u8) -> bool {
    (b >= 32 && b != 127) || b == 9
}

/// Bytes that make up a header value.
pub open spec fn header_text(bytes: Seq<u8>) -> bool {
    forall|i: int| 0 <= i < bytes.len() ==> header_byte(#[trigger] bytes[i])
}

/// A lower-case header name of letters, digits, `-` and `_`, no longer than 64 characters.
pub open spec fn header_name(name: Seq<char>) -> bool {
    &&& 1 <= name.len() <= 64
    &&& forall|i: int|
        0 <= i < name.len() ==> {
            let c = #[trigger] name[i];
            ('a' <= c && c <= 'z') || ('0' <= c && c <= '9') || c == '-' || c == '_'
        }
}

/// The header fields of a websocket handshake.
pub open spec fn handshake_headers(host: Seq<u8>, key: Seq<u8>) -> Map<Seq<char>, Seq<Seq<u8>>> {
    Map::<Seq<char>, Seq<Seq<u8>>>::empty().insert("host"@, seq![host]).insert(
        "connection"@,
        seq!["Upgrade".spec_bytes()],
    ).insert("upgrade"@, seq!["websocket".spec_bytes()]).insert(
        "sec-websocket-version"@,
        seq!["13".spec_bytes()],
    ).insert("sec-websocket-key"@, seq![key])
}

/// `IntoClientRequest::into_client_request` for a string: parses it as a URI and builds a
/// websocket handshake for it. Target, `Host` field and error depend on the string alone and are
/// named by [`handshake`]; the method and the other fields are fixed, but for the key: 16
/// random bytes in base64, so 24 bytes long. An error is handed on as its text.
#[verifier::external_body]
fn client_request(url: &str) -> (r: Result<Request<()>, String>)
    ensures
        match r {
            Ok(request) => {
                &&& handshake(url@) matches Ok((uri, host))
                &&& request_method(request) == "GET"@
                &&& request_uri(request) == uri
                &&& exists|key: Seq<u8>|
                    key.len() == 24 && request_headers(request) == #[trigger] handshake_headers(
                        host,
                        key,
                    )
            },
            Err(text) => handshake(url@) == Err::<(Seq<char>, Seq<u8>), Seq<char>>(text@),
        },
{
    match url.to_owned().into_client_request() {
        Ok(request) => Ok(request),
        Err(error) => Err(error.to_string()),
    }
}

/// `HeaderValue::from_str` accepts a string whose UTF-8 bytes are all fit for a header value,
/// and keeps those bytes. Bytes from 128 up, which only non-ASCII characters have, are fit.
pub assume_specification[ HeaderValue::from_str ](src: &str) -> (r: Result<
    HeaderValue,
    InvalidHeaderValue,
>)
    ensures
        r is Ok <==> header_text(src.spec_bytes()),
        r matches Ok(value) ==> header_bytes(value) == src.spec_bytes(),
;

/// `HeaderValue::from_static` keeps the bytes of a string of visible ASCII characters; it panics
/// on any other.
pub assume_specification[ HeaderValue::from_static ](src: &'static str) -> (value: HeaderValue)
    requires
        forall|i: int|
            0 <= i < src.spec_bytes().len() ==> 32 <= #[trigger] src.spec_bytes()[i] < 127,
    ensures
        header_bytes(value) == src.spec_bytes(),
;

/// `HeaderMap::insert` on a request's header fields: the field `name` has this one value
/// afterwards; all other fields, the method and the target stay. It panics on an ill-formed name
/// and on a map that is full, which one with fewer than 1024 names is not.
#[verifier::external_body]
fn insert_header(request: &mut Request<()>, name: &'static str, value: HeaderValue)
    requires
        header_name(name@),
        request_headers(*old(request)).dom().finite(),
        request_headers(*old(request)).dom().len() < 1024,
    ensures
        request_headers(*final(request)) == request_headers(*old(request)).insert(
            name@,
            seq![header_bytes(value)],
        ),
        request_method(*final(request)) == request_method(*old(request)),
        request_uri(*final(request)) == request_uri(*old(request)),
{
    request.headers_mut().insert(name, value);
}

/// Why no request could be built.
#[derive(Debug, Clone)]
pub enum RequestError {
    /// The URL names no websocket endpoint; the text says what is wrong with it.
    InvalidUrl(String),
    /// The API key cannot stand in a header.
    InvalidApiKey,
}

impl RequestError {
    /// The error in words.
    pub fn message(&self) -> (text: String)
        ensures
            text@ == match *self {
                RequestError::InvalidUrl(reason) => "invalid URL: "@ + reason@,
                RequestError::InvalidApiKey => "failed to parse header value"@,
            },
    {
        match self {
            RequestError::InvalidUrl(reason) => {
                let mut text = "invalid URL: ".to_owned();
                text.append(reason.as_str());
                text
            },
            RequestError::InvalidApiKey => "failed to parse header value".to_owned(),
        }
    }
}

/// The header fields that tell the hub who calls, on top of others.
pub open spec fn signed(
    headers: Map<Seq<char>, Seq<Seq<u8>>>,
    api_key: Seq<u8>,
) -> Map<Seq<char>, Seq<Seq<u8>>> {
    headers.insert("x-api-key"@, seq![api_key]).insert(
        "client-type"@,
        seq!["pearlbot".spec_bytes()],
    ).insert("mc_server"@, seq!["pearlbot".spec_bytes()])
}

/// Whatever a request carried before, the hub learns the key and that the bot is calling, and
/// every other field arrives as it was.
pub proof fn the_hub_learns_who_calls(
    headers: Map<Seq<char>, Seq<Seq<u8>>>,
    api_key: Seq<u8>,
    name: Seq<char>,
)
    ensures
        signed(headers, api_key).contains_key("x-api-key"@),
        signed(headers, api_key).contains_key("client-type"@),
        signed(headers, api_key).contains_key("mc_server"@),
        signed(headers, api_key)["x-api-key"@] == seq![api_key],
        signed(headers, api_key)["client-type"@] == seq!["pearlbot".spec_bytes()],
        signed(headers, api_key)["mc_server"@] == seq!["pearlbot".spec_bytes()],
        name != "x-api-key"@ && name != "client-type"@ && name != "mc_server"@ ==> signed(
            headers,
            api_key,
        ).contains_key(name) == headers.contains_key(name) && signed(headers, api_key)[name]
            == headers[name],
{
    reveal_strlit("x-api-key");
    reveal_strlit("client-type");
    reveal_strlit("mc_server");
    assert("x-api-key"@[0] != "client-type"@[0]);
    assert("x-api-key"@[0] != "mc_server"@[0]);
    assert("client-type"@[0] != "mc_server"@[0]);
}

/// Adds to a request the header fields that tell the hub who calls.
pub fn sign_request(request: Request<()>, api_key: &str) -> (r: Result<Request<()>, RequestError>)
    requires
        request_headers(request).dom().finite(),
        request_headers(request).dom().len() < 1000,
    ensures
        match r {
            Ok(signed_request) => {
                &&& header_text(api_key.spec_bytes())
                &&& request_method(signed_request) == request_method(request)
                &&& request_uri(signed_request) == request_uri(request)
                &&& request_headers(signed_request) == signed(
                    request_headers(request),
                    api_key.spec_bytes(),
                )
            },
            Err(error) => !header_text(api_key.spec_bytes()) && error is InvalidApiKey,
        },
{
    let mut request = request;
    let key = match HeaderValue::from_str(api_key) {
        Ok(value) => value,
        Err(_) => {
            return Err(RequestError::InvalidApiKey);
        },
    };
    proof {
        reveal_strlit("x-api-key");
        reveal_strlit("client-type");
        reveal_strlit("mc_server");
        reveal_strlit("pearlbot");
        is_ascii_spec_bytes("pearlbot");
    }
    insert_header(&mut request, "x-api-key", key);
    insert_header(&mut request, "client-type", HeaderValue::from_static("pearlbot"));
    insert_header(&mut request, "mc_server", HeaderValue::from_static("pearlbot"));
    Ok(request)
}

/// Builds the request that opens the websocket at `url` with `api_key`.
pub fn build_request(url: &str, api_key: &str) -> (r: Result<Request<()>, RequestError>)
    ensures
        match r {
            Ok(request) => {
                &&& header_text(api_key.spec_bytes())
                &&& handshake(url@) matches Ok((uri, host))
                &&& request_method(request) == "GET"@
                &&& request_uri(request) == uri
                &&& exists|key: Seq<u8>|
                    key.len() == 24 && request_headers(request) == signed(
                        #[trigger] handshake_headers(host, key),
                        api_key.spec_bytes(),
                    )
            },
            Err(RequestError::InvalidUrl(reason)) => handshake(url@) == Err::<
                (Seq<char>, Seq<u8>),
                Seq<char>,
            >(reason@),
            Err(RequestError::InvalidApiKey) => handshake(url@) is Ok && !header_text(
                api_key.spec_bytes(),
            ),
        },
{
    match client_request(url) {
        Ok(request) => {
            sign_request(request, api_key)
        },
        Err(text) => Err(RequestError::InvalidUrl(text)),
    }
}

} // verus!
