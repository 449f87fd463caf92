use pearlbot::request::{build_request, sign_request, RequestError};
use tokio_tungstenite::tungstenite::http::Request;

#[test]
fn request_carries_the_bots_headers() {
    let request = build_request("ws://localhost:8001/websocket/connect", "secret key").unwrap();
    assert_eq!(request.method().as_str(), "GET");
    assert_eq!(request.uri().to_string(), "ws://localhost:8001/websocket/connect");
    let headers = request.headers();
    assert_eq!(headers.get("x-api-key").unwrap(), "secret key");
    assert_eq!(headers.get("client-type").unwrap(), "pearlbot");
    assert_eq!(headers.get("mc_server").unwrap(), "pearlbot");
    assert_eq!(headers.get("host").unwrap(), "localhost:8001");
    assert_eq!(headers.get("connection").unwrap(), "Upgrade");
    assert_eq!(headers.get("upgrade").unwrap(), "websocket");
    assert_eq!(headers.get("sec-websocket-version").unwrap(), "13");
    assert_eq!(headers.get("sec-websocket-key").unwrap().len(), 24);
    assert_eq!(headers.len(), 8);
}

#[test]
fn host_leaves_out_user_info() {
    let request = build_request("ws://user:pw@hub.example/x", "").unwrap();
    assert_eq!(request.headers().get("host").unwrap(), "hub.example");
    assert_eq!(request.headers().get("x-api-key").unwrap(), "");
}

#[test]
fn bad_url_is_refused() {
    let error = build_request("/websocket/connect", "key").unwrap_err();
    assert!(matches!(error, RequestError::InvalidUrl(_)));
    assert_eq!(error.message(), "invalid URL: URL error: No host name in the URL");
    let error = build_request("ws://exa mple/", "key").unwrap_err();
    assert_eq!(error.message(), "invalid URL: HTTP format error: invalid uri character");
}

#[test]
fn bad_key_is_refused() {
    let error = build_request("ws://localhost", "two\nlines").unwrap_err();
    assert!(matches!(error, RequestError::InvalidApiKey));
    assert_eq!(error.message(), "failed to parse header value");
    assert!(build_request("ws://localhost", "del\u{7f}").is_err());
    assert!(build_request("ws://localhost", "tab\there").is_ok());
    let request = build_request("ws://localhost", "k\u{e9}y").unwrap();
    assert_eq!(request.headers().get("x-api-key").unwrap().as_bytes(), "k\u{e9}y".as_bytes());
}

#[test]
fn bad_url_comes_before_bad_key() {
    let error = build_request("nowhere at all", "two\nlines").unwrap_err();
    assert!(matches!(error, RequestError::InvalidUrl(_)));
}

#[test]
fn signing_replaces_old_values_and_keeps_other_fields() {
    let mut request = Request::new(());
    request.headers_mut().insert("client-type", "other".parse().unwrap());
    request.headers_mut().append("client-type", "third".parse().unwrap());
    request.headers_mut().insert("accept", "all".parse().unwrap());
    let signed = sign_request(request, "key").unwrap();
    let values: Vec<_> = signed.headers().get_all("client-type").iter().collect();
    assert_eq!(values, vec!["pearlbot"]);
    assert_eq!(signed.headers().get("accept").unwrap(), "all");
    assert_eq!(signed.headers().len(), 4);
    assert_eq!(signed.uri().to_string(), "/");
    assert!(matches!(
        sign_request(Request::new(()), "\u{1}"),
        Err(RequestError::InvalidApiKey)
    ));
}
