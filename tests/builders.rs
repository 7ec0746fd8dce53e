use nightfly::{Client, Method, StatusCode, Url, Version};

#[test]
fn default_headers_seed_requests() {
    let client = Client::builder()
        .default_header("User-Agent", "nightfly")
        .cookie_store(true)
        .build()
        .unwrap();
    assert!(client.cookie_store());
    let req = client
        .post("http://a.example/")
        .header("X-Trace", "1")
        .body(b"hi".to_vec())
        .build()
        .unwrap();
    assert_eq!(req.method(), Method::Post);
    let names: Vec<&str> = req.headers().iter().map(|h| h.name.as_str()).collect();
    assert_eq!(names, vec!["User-Agent", "X-Trace"]);
    assert_eq!(req.body().map(|b| b.as_slice()), Some(&b"hi"[..]));
    assert_eq!(req.url().as_str(), "http://a.example/");
    assert_eq!(req.timeout_ms(), None);
}

#[test]
fn bad_header_name_fails_the_build() {
    let err = Client::builder().default_header("bad name", "v").build().unwrap_err();
    assert!(err.is_builder());
    assert_eq!(err.describe(), "builder error: invalid HTTP header name");
}

#[test]
fn bad_header_value_fails_the_request() {
    let client = Client::new();
    let err = client.get("http://a.example/").header("X-A", "line\nbreak").build().unwrap_err();
    assert!(err.is_builder());
    assert_eq!(err.describe(), "builder error: failed to parse header value");
    assert!(client.get("http://a.example/").header("X-A", "tab\there é").build().is_ok());
}

#[test]
fn unparsable_url_fails_the_request() {
    let err = Client::new().get("not a url").build().unwrap_err();
    assert!(err.is_builder());
    assert!(err.url().is_none());
}

#[test]
fn status_codes() {
    assert!(StatusCode::from_u16(99).is_err());
    assert!(StatusCode::from_u16(1000).is_err());
    let s = StatusCode::from_u16(404).unwrap();
    assert!(s.is_client_error());
    assert!(!s.is_server_error());
    assert!(StatusCode::from_u16(503).unwrap().is_server_error());
    assert!(StatusCode::from_u16(308).unwrap().is_redirection());
}

#[test]
fn versions() {
    assert_eq!(Version::default(), Version::http_11());
    assert_eq!(Version::http_09().name(), "HTTP/0.9");
    assert_eq!(Version::http_10().name(), "HTTP/1.0");
    assert_eq!(Version::http_2().name(), "HTTP/2.0");
    assert_eq!(Version::http_3().name(), "HTTP/3.0");
    assert!(Version::http_11() != Version::http_2());
}

#[test]
fn urls() {
    let u = Url::parse("HTTPS://Example.COM:443/a/b?q=1").unwrap();
    assert_eq!(u.as_str(), "https://example.com/a/b?q=1");
    assert_eq!(u.scheme(), "https");
    assert_eq!(u.host_str(), Some("example.com"));
    assert_eq!(u.port_or_known_default(), Some(443));
    assert_eq!(u.join("../c").unwrap().as_str(), "https://example.com/c");
    assert!(Url::parse("/relative").is_err());
    assert!(u.same_origin(&Url::parse("https://example.com/other").unwrap()));
    assert!(!u.same_origin(&Url::parse("http://example.com/other").unwrap()));
}
