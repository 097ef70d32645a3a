use asgi_bridge::error::AsgiError;
use asgi_bridge::gateway::prepare;
use asgi_bridge::scope::{build_scope, decode_path, HttpVersion, RequestHead, RequestTarget};

fn head(version: HttpVersion, path: &[u8], query: Option<&[u8]>) -> RequestHead {
    RequestHead {
        version,
        method: "GET".to_string(),
        scheme: None,
        target: Some(RequestTarget { path: path.to_vec(), query: query.map(|q| q.to_vec()) }),
        headers: Vec::new(),
    }
}

#[test]
fn supported_versions_give_fixed_text() {
    let cases = [(HttpVersion::Http10, "1.0"), (HttpVersion::Http11, "1.1"), (HttpVersion::Http2, "2")];
    for (v, text) in cases {
        let s = build_scope(head(v, b"/", None)).unwrap();
        assert_eq!(s.http_version, text);
        assert_eq!(s.protocol, "http");
        assert_eq!(s.asgi_version, "2.0");
        assert_eq!(s.spec_version, "2.0");
        assert_eq!(s.root_path, "");
    }
}

#[test]
fn unsupported_versions_fail() {
    for v in [HttpVersion::Http09, HttpVersion::Http3] {
        assert_eq!(build_scope(head(v, b"/", None)).unwrap_err(), AsgiError::InvalidHttpVersion);
        let resp = prepare(head(v, b"/", None)).unwrap_err();
        assert_eq!(resp.status, 400);
        assert_eq!(resp.body, b"Unsupported HTTP version".to_vec());
        assert!(resp.headers.is_empty());
    }
}

#[test]
fn version_is_checked_before_path() {
    let r = build_scope(head(HttpVersion::Http3, b"/%FF", None));
    assert_eq!(r.unwrap_err(), AsgiError::InvalidHttpVersion);
}

#[test]
fn path_is_percent_decoded_and_raw_path_kept() {
    let s = build_scope(head(HttpVersion::Http11, b"/caf%C3%A9/a%20b", Some(b"x=%20&y=2"))).unwrap();
    assert_eq!(s.path, "/café/a b");
    assert_eq!(s.raw_path, b"/caf%C3%A9/a%20b".to_vec());
    assert_eq!(s.query_string, b"x=%20&y=2".to_vec());
}

#[test]
fn decode_path_handles_escapes() {
    assert_eq!(decode_path(b"%41%62c").unwrap(), "Abc");
    assert_eq!(decode_path(b"%4a%4A").unwrap(), "JJ");
    assert_eq!(decode_path(b"100%").unwrap(), "100%");
    assert_eq!(decode_path(b"%zz%4").unwrap(), "%zz%4");
    assert_eq!(decode_path(b"").unwrap(), "");
}

#[test]
fn invalid_utf8_path_is_client_error() {
    assert_eq!(decode_path(b"/%FF").unwrap_err(), AsgiError::InvalidUtf8InPath);
    assert_eq!(
        build_scope(head(HttpVersion::Http2, b"/%C3", None)).unwrap_err(),
        AsgiError::InvalidUtf8InPath
    );
    let resp = prepare(head(HttpVersion::Http11, b"/%FF%FE", None)).unwrap_err();
    assert_eq!(resp.status, 400);
    assert_eq!(resp.body, b"Invalid Utf8 in path".to_vec());
}

#[test]
fn missing_query_gives_empty_query_string() {
    let s = build_scope(head(HttpVersion::Http11, b"/p", None)).unwrap();
    assert_eq!(s.path, "/p");
    assert!(s.query_string.is_empty());
}

#[test]
fn missing_target_gives_empty_fields() {
    let h = RequestHead {
        version: HttpVersion::Http11,
        method: "POST".to_string(),
        scheme: Some("https".to_string()),
        target: None,
        headers: Vec::new(),
    };
    let s = build_scope(h).unwrap();
    assert_eq!(s.path, "");
    assert!(s.raw_path.is_empty());
    assert!(s.query_string.is_empty());
    assert_eq!(s.method, "POST");
    assert_eq!(s.scheme, "https");
}

#[test]
fn scheme_defaults_to_http() {
    let s = prepare(head(HttpVersion::Http10, b"/", None)).unwrap();
    assert_eq!(s.scheme, "http");
    assert_eq!(s.method, "GET");
}

#[test]
fn request_headers_keep_order_and_duplicates() {
    let mut h = head(HttpVersion::Http11, b"/", None);
    h.headers = vec![
        (b"Cookie".to_vec(), b"a=1".to_vec()),
        (b"accept".to_vec(), b"*/*".to_vec()),
        (b"Cookie".to_vec(), b"b=2".to_vec()),
    ];
    let expected = h.headers.clone();
    let s = build_scope(h).unwrap();
    assert_eq!(s.headers, expected);
}
