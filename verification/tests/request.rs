use http::HeaderMap;
use mcp_gateway::request::{
    build_headers, build_subscription_headers, make_request, Field, Header, Method, RequestError,
};

fn pairs(headers: &[Header]) -> Vec<(&'static str, String)> {
    headers
        .iter()
        .map(|header| (header.field.as_str(), header.value.clone()))
        .collect()
}

fn pair(name: &'static str, value: &str) -> (&'static str, String) {
    (name, value.to_string())
}

#[test]
fn headers_without_session_and_token() {
    let headers = build_headers(&None, &None);
    assert_eq!(
        pairs(&headers),
        vec![
            pair("Content-Type", "application/json"),
            pair("Accept", "application/json, text/event-stream"),
        ]
    );
}

#[test]
fn headers_with_session_and_token() {
    let headers = build_headers(&Some("s-1".to_string()), &Some("secret".to_string()));
    assert_eq!(
        pairs(&headers),
        vec![
            pair("Content-Type", "application/json"),
            pair("Accept", "application/json, text/event-stream"),
            pair("Mcp-Session-Id", "s-1"),
            pair("Authorization", "Bearer secret"),
        ]
    );
}

#[test]
fn headers_with_token_alone() {
    let headers = build_headers(&None, &Some("".to_string()));
    assert_eq!(headers.len(), 3);
    assert_eq!(headers[2].field, Field::Authorization);
    assert_eq!(headers[2].value, "Bearer ");
}

#[test]
fn request_holds_endpoint_headers_and_body() {
    let headers = build_headers(&Some("abc".to_string()), &None);
    let made = make_request(Method::Post, "http://localhost:9091/sse", headers, "{\"id\":1}".to_string());
    let request = match made {
        Ok(request) => request,
        Err(_) => panic!("refused"),
    };
    assert_eq!(request.method, Method::Post);
    assert_eq!(request.uri.host(), Some("localhost"));
    assert_eq!(request.uri.port_u16(), Some(9091));
    assert_eq!(request.uri.path(), "/sse");
    assert_eq!(request.body, "{\"id\":1}");
    assert_eq!(request.headers.len(), 3);
    assert_eq!(request.headers[0].field.as_str(), "Content-Type");
    assert_eq!(request.headers[0].value, "application/json");
    assert_eq!(request.headers[1].field.as_str(), "Accept");
    assert_eq!(request.headers[1].value, "application/json, text/event-stream");
    assert_eq!(request.headers[2].field.as_str(), "Mcp-Session-Id");
    assert_eq!(request.headers[2].value, "abc");
}

#[test]
fn field_names_are_header_names() {
    let mut headers = HeaderMap::new();
    for field in [Field::ContentType, Field::Accept, Field::SessionId, Field::Authorization] {
        headers.insert(field.as_str(), "x".parse().unwrap());
    }
    assert_eq!(headers.len(), 4);
    assert!(headers.contains_key("mcp-session-id"));
}

#[test]
fn bad_endpoint_is_refused() {
    let made = make_request(Method::Post, "not a uri", build_headers(&None, &None), "x".to_string());
    assert!(matches!(made, Err(RequestError::Uri(_))));
    let made = make_request(Method::Post, "", build_headers(&None, &None), "x".to_string());
    assert!(matches!(made, Err(RequestError::Uri(_))));
}

#[test]
fn control_character_in_token_is_refused() {
    for token in ["a\nb", "a\rb", "\u{7f}", "\u{0}"] {
        let headers = build_headers(&None, &Some(token.to_string()));
        let made = make_request(Method::Post, "http://localhost/", headers, "x".to_string());
        assert!(matches!(made, Err(RequestError::HeaderValue(_))));
    }
}

#[test]
fn tab_and_letters_beyond_ascii_are_sent_as_utf8() {
    let headers = build_headers(&None, &Some("a\tb\u{e9}".to_string()));
    let made = make_request(Method::Post, "http://localhost/", headers, "x".to_string());
    let request = match made {
        Ok(request) => request,
        Err(_) => panic!("refused"),
    };
    assert_eq!(request.headers[2].value.as_bytes(), "Bearer a\tb\u{e9}".as_bytes());
}

#[test]
fn bad_endpoint_is_reported_before_bad_token() {
    let headers = build_headers(&None, &Some("\n".to_string()));
    let made = make_request(Method::Post, "not a uri", headers, "x".to_string());
    assert!(matches!(made, Err(RequestError::Uri(_))));
}

#[test]
fn method_names_are_those_of_http() {
    assert_eq!(Method::Get.as_str(), http::Method::GET.as_str());
    assert_eq!(Method::Post.as_str(), http::Method::POST.as_str());
}

#[test]
fn subscription_headers_without_session_and_token() {
    let headers = build_subscription_headers(&None, &None);
    assert_eq!(pairs(&headers), vec![pair("Accept", "text/event-stream")]);
}

#[test]
fn subscription_headers_with_session_and_token() {
    let headers =
        build_subscription_headers(&Some("s-1".to_string()), &Some("secret".to_string()));
    assert_eq!(
        pairs(&headers),
        vec![
            pair("Accept", "text/event-stream"),
            pair("Mcp-Session-Id", "s-1"),
            pair("Authorization", "Bearer secret"),
        ]
    );
}
